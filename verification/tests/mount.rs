use zfs_nixos_setup::command::{Action, Decoding, Failure, Policy, Slot, Step};
use zfs_nixos_setup::mount::{
    disk_id_probes, find_disk_id, mount_filesystems, report_disk_id, setup_persist_directories,
    show_disk_by_id,
};

fn run(program: &str, args: &[&str]) -> Step {
    Step {
        action: Action::Run {
            program: program.to_string(),
            args: args.iter().map(|a| a.to_string()).collect(),
        },
        policy: Policy::Strict,
        slot: Slot::Nowhere,
    }
}

fn dir(path: &str) -> Step {
    Step { action: Action::MakeDir { path: path.to_string() }, policy: Policy::Strict, slot: Slot::Nowhere }
}

fn say(text: &str) -> Step {
    Step { action: Action::Say { text: text.to_string() }, policy: Policy::Lenient, slot: Slot::Nowhere }
}

#[test]
fn root_is_mounted_before_the_mount_points_are_made() {
    let steps = mount_filesystems("/dev/sda1", "tank");
    assert_eq!(
        steps,
        vec![
            dir("/mnt"),
            run("mount", &["-t", "zfs", "tank/root/eyd/root", "/mnt"]),
            dir("/mnt/boot"),
            dir("/mnt/nix"),
            dir("/mnt/home"),
            dir("/mnt/per"),
            run("mount", &["/dev/sda1", "/mnt/boot"]),
            run("mount", &["-t", "zfs", "tank/root/nix", "/mnt/nix"]),
            run("mount", &["-t", "zfs", "tank/root/home", "/mnt/home"]),
            run("mount", &["-t", "zfs", "tank/root/per", "/mnt/per"]),
        ]
    );
    let root = steps
        .iter()
        .position(|s| *s == run("mount", &["-t", "zfs", "tank/root/eyd/root", "/mnt"]))
        .unwrap();
    for (i, step) in steps.iter().enumerate() {
        let under_root = match &step.action {
            Action::MakeDir { path } => path.starts_with("/mnt/"),
            Action::Run { args, .. } => args.last().unwrap().starts_with("/mnt/"),
            _ => false,
        };
        if under_root {
            assert!(root < i);
        }
        assert_eq!(step.policy, Policy::Strict);
    }
}

#[test]
fn persisted_directories_and_home() {
    assert_eq!(
        setup_persist_directories("alice"),
        vec![
            dir("/mnt/per/etc"),
            dir("/mnt/per/etc/nixos"),
            dir("/mnt/per/var/lib"),
            dir("/mnt/per/var/log"),
            dir("/mnt/per/etc/ssh"),
            dir("/mnt/per/etc/NetworkManager/system-connections"),
            dir("/mnt/home/alice"),
            dir("/mnt/home/alice/.ssh"),
            dir("/mnt/home/alice/.gnupg"),
            dir("/mnt/home/alice/.config"),
            run("chown", &["-R", "alice:alice", "/mnt/home/alice"]),
        ]
    );
}

const LISTING: &str = "total 0\nlrwxrwxrwx 1 root root  9 ata-WD -> ../../sda\nlrwxrwxrwx 1 root root 10 ata-WD-part1 -> ../../sda1\nlrwxrwxrwx 1 root root 10 wwn-0x5-part1 -> ../../sda1\nlrwxrwxrwx 1 root root 10 ata-WD-part2 -> ../../sda2\n";

#[test]
fn first_matching_line_is_reported() {
    assert_eq!(
        find_disk_id("/dev/sda1", "sda1", LISTING),
        Some("/dev/sda1 -> lrwxrwxrwx 1 root root 10 ata-WD-part1 -> ../../sda1".to_string())
    );
    assert_eq!(find_disk_id("/dev/sdz9", "sdz9", LISTING), None);
}

#[test]
fn report_names_the_file_of_the_resolved_path() {
    assert_eq!(
        report_disk_id("/dev/disk/by-partlabel/efi", "/dev/sda2\n", LISTING),
        Ok(Some(
            "/dev/disk/by-partlabel/efi -> lrwxrwxrwx 1 root root 10 ata-WD-part2 -> ../../sda2"
                .to_string()
        ))
    );
    // Handing the path back in place of its file name would find no line.
    assert_eq!(report_disk_id("/dev/sda1", "/dev/sda1\n", "x sda1\n/dev/sda1\n"), Ok(Some("/dev/sda1 -> x sda1".to_string())));
}

#[test]
fn path_without_file_name_is_a_failure() {
    assert_eq!(
        report_disk_id("/dev/sda1", "/\n", LISTING),
        Err(Failure::NoFileName { path: "/".to_string() })
    );
    assert_eq!(
        report_disk_id("/dev/sda1", "", LISTING),
        Err(Failure::NoFileName { path: String::new() })
    );
    assert_eq!(
        show_disk_by_id("/dev/sda1", "/dev/sda1\n", LISTING, "/dev/sda2", "/dev/..\n", LISTING),
        Err(Failure::NoFileName { path: "/dev/..".to_string() })
    );
}

#[test]
fn both_partitions_are_reported() {
    assert_eq!(
        show_disk_by_id("/dev/sda1", "/dev/sda1\n", LISTING, "/dev/sda2", "/dev/sda2\n", LISTING),
        Ok(vec![
            say("/dev/sda1 -> lrwxrwxrwx 1 root root 10 ata-WD-part1 -> ../../sda1"),
            say("/dev/sda2 -> lrwxrwxrwx 1 root root 10 ata-WD-part2 -> ../../sda2"),
        ])
    );
    assert_eq!(
        show_disk_by_id("/dev/sda1", "/dev/sda1\n", "", "/dev/sda2", "/dev/sda2\n", LISTING),
        Ok(vec![say("/dev/sda2 -> lrwxrwxrwx 1 root root 10 ata-WD-part2 -> ../../sda2")])
    );
}

#[test]
fn probes_resolve_and_list() {
    let steps = disk_id_probes("/dev/sda1", "/dev/sda2");
    assert_eq!(steps.len(), 4);
    assert_eq!(
        steps[0],
        Step {
            action: Action::Capture {
                program: "readlink".to_string(),
                args: vec!["-f".to_string(), "/dev/sda1".to_string()],
                decoding: Decoding::Exact,
            },
            policy: Policy::Started,
            slot: Slot::EfiPath,
        }
    );
    assert_eq!(steps[3].slot, Slot::RootListing);
}
