use zfs_nixos_setup::command::{run_command, show_arguments, Event, Failure};
use zfs_nixos_setup::layout::GIB;
use zfs_nixos_setup::pipeline::{plan, plan_partitions, Phase};
use zfs_nixos_setup::settings::{Facts, Settings};

fn settings() -> Settings {
    Settings {
        disk: "/dev/sda".to_string(),
        hostname: "nixbox".to_string(),
        username: "alice".to_string(),
        host_id: "a1b2c3d4".to_string(),
        swap_gb: 4,
        efi_gb: 1,
        reserve_gb: 1,
        encrypt: false,
        use_swap: true,
        allow_discards: true,
        flake_source: "/per/etc/nixos".to_string(),
        profile: None,
        prepare_only: false,
    }
}

fn words(items: &[&str]) -> Vec<String> {
    items.iter().map(|w| w.to_string()).collect()
}

#[test]
fn arguments_are_quoted_and_listed() {
    assert_eq!(show_arguments(&words(&[])), "[]");
    assert_eq!(show_arguments(&words(&["list"])), "[\"list\"]");
    assert_eq!(
        show_arguments(&words(&["--script", "/dev/sda", "mklabel", "gpt"])),
        "[\"--script\", \"/dev/sda\", \"mklabel\", \"gpt\"]"
    );
    let args = words(&["-t", "zfs", "tank/root/nix", "/mnt/nix"]);
    assert_eq!(show_arguments(&args), format!("{:?}", args));
}

#[test]
fn failures_are_described() {
    assert_eq!(
        Failure::CommandFailed { program: "parted".to_string(), args: words(&["--script", "/dev/sda"]) }
            .describe(),
        "Command 'parted' with args [\"--script\", \"/dev/sda\"] failed"
    );
    assert_eq!(
        Failure::CommandNotRun {
            program: "zpool".to_string(),
            args: words(&["create"]),
            reason: "No such file or directory".to_string(),
        }
        .describe(),
        "Failed to execute 'zpool' with args: [\"create\"]: No such file or directory"
    );
    assert_eq!(
        Failure::Missing { path: "/dev/sdz".to_string() }.describe(),
        "/dev/sdz does not exist"
    );
    assert_eq!(
        Failure::Refused { path: "/mnt/boot".to_string(), reason: "read-only".to_string() }.describe(),
        "Failed at /mnt/boot: read-only"
    );
    assert_eq!(
        Failure::BadDiskSize { text: "100G".to_string() }.describe(),
        "Failed to parse disk size: '100G'"
    );
    assert_eq!(Failure::DiskTooLarge.describe(), "The disk is too large to be measured");
    assert_eq!(Failure::NoRoom.describe(), "The requested partitions do not fit on the disk");
    assert_eq!(
        Failure::NoUuid { device: "/dev/disk/by-partlabel/efi".to_string() }.describe(),
        "Failed to get UUID for /dev/disk/by-partlabel/efi"
    );
    assert_eq!(
        Failure::NoFileName { path: "/".to_string() }.describe(),
        "Failed to get filename from /"
    );
}

#[test]
fn failed_command_is_named_with_its_arguments() {
    let step = run_command("mkfs.vfat", &["-F32", "/dev/sda1"]);
    for event in [
        Event::Done { success: false, output: String::new() },
        Event::Error { reason: "not found".to_string() },
    ] {
        let text = step.settle(&event).unwrap_err().describe();
        assert!(text.contains("mkfs.vfat"));
        assert!(text.contains("-F32"));
        assert!(text.contains("/dev/sda1"));
    }
}

#[test]
fn partition_plan_comes_from_the_gathered_geometry() {
    let mut facts = Facts::new();
    facts.size_bytes = Some(format!("{}\n", 100 * GIB));
    facts.sector_size = Some("4096\n".to_string());
    let made = plan_partitions(&settings(), &facts).unwrap();
    assert_eq!(made.root_end, 95 * GIB as i128);
    assert_eq!(made.swap_end, Some(99 * GIB as i128));
}

#[test]
fn disk_beyond_64_bits_is_too_large() {
    let mut facts = Facts::new();
    facts.sectors = Some("18446744073709551615\n".to_string());
    facts.sector_size = Some("512\n".to_string());
    assert_eq!(plan_partitions(&settings(), &facts), Err(Failure::DiskTooLarge));
}

#[test]
fn disk_without_room_gives_no_plan() {
    let mut facts = Facts::new();
    facts.size_bytes = Some(format!("{}\n", 6 * GIB));
    assert_eq!(plan_partitions(&settings(), &facts), Err(Failure::NoRoom));
    facts.size_bytes = Some(format!("{}\n", 6 * GIB + 512));
    assert!(plan_partitions(&settings(), &facts).is_ok());
}

#[test]
fn stages_are_planned_from_the_facts() {
    let mut facts = Facts::new();
    assert_eq!(plan(Phase::Start, &settings(), &facts), Ok(vec![]));
    assert_eq!(plan(Phase::Preflight, &settings(), &facts).unwrap().len(), 1);
    assert_eq!(plan(Phase::Chassis, &settings(), &facts).unwrap().len(), 1);
    assert_eq!(plan(Phase::Maker, &settings(), &facts), Ok(vec![]));
    facts.chassis = Some("Laptop".to_string());
    assert_eq!(plan(Phase::Maker, &settings(), &facts).unwrap().len(), 2);
    assert_eq!(plan(Phase::Confirm, &settings(), &facts).unwrap().len(), 17);
    assert!(plan(Phase::Identity, &settings(), &facts).is_err());
    facts.answer = Some("YES\n".to_string());
    assert_eq!(plan(Phase::Identity, &settings(), &facts).unwrap().len(), 2);
    assert_eq!(plan(Phase::DiskUuid, &settings(), &facts), Ok(vec![]));
    facts.serial = Some("\n".to_string());
    assert_eq!(plan(Phase::DiskUuid, &settings(), &facts).unwrap().len(), 1);
    assert_eq!(plan(Phase::Destroy, &settings(), &facts).unwrap().len(), 3);
    assert_eq!(plan(Phase::Teardown, &settings(), &facts).unwrap().len(), 9);
    assert_eq!(plan(Phase::Geometry, &settings(), &facts).unwrap().len(), 3);
    assert_eq!(plan(Phase::SectorCount, &settings(), &facts).unwrap().len(), 1);
    facts.size_bytes = Some("1024".to_string());
    assert_eq!(plan(Phase::SectorCount, &settings(), &facts), Ok(vec![]));
    assert!(plan(Phase::Provision, &settings(), &facts).is_err());
    assert!(plan(Phase::Staging, &settings(), &facts).is_err());
    assert!(plan(Phase::Configure, &settings(), &facts).is_err());
    assert!(plan(Phase::Finalize, &settings(), &facts).is_ok());
}

#[test]
fn stages_follow_each_other() {
    let mut phase = Phase::Start;
    let mut count = 1;
    while let Some(next) = phase.next() {
        assert_ne!(next, phase);
        phase = next;
        count += 1;
    }
    assert_eq!(phase, Phase::Finalize);
    assert_eq!(count, 15);
}
