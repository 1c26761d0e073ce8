use zfs_nixos_setup::command::{Action, Decoding, Event, Failure, Outcome};
use zfs_nixos_setup::layout::GIB;
use zfs_nixos_setup::pipeline::{Phase, Pipeline};
use zfs_nixos_setup::settings::Settings;

/// What the outside of the pipeline answers in a scenario.
struct World {
    answer: String,
    disk_exists: bool,
    size_bytes: String,
    sector_size: Option<String>,
    serial: String,
    chassis: String,
    failing_program: Option<String>,
    sudo_fails: bool,
    /// The program, or the end of its last argument, whose output is no
    /// UTF-8.
    garbled: Option<String>,
}

fn world() -> World {
    World {
        answer: "YES\n".to_string(),
        disk_exists: true,
        size_bytes: format!("{}\n", 100 * GIB),
        sector_size: Some("512\n".to_string()),
        serial: "S3Z9 NB0K\n".to_string(),
        chassis: "Desktop\n".to_string(),
        failing_program: None,
        sudo_fails: false,
        garbled: None,
    }
}

fn settings() -> Settings {
    Settings {
        disk: "/dev/sda".to_string(),
        hostname: "nixbox".to_string(),
        username: "alice".to_string(),
        host_id: "a1b2c3d4".to_string(),
        swap_gb: 4,
        efi_gb: 1,
        reserve_gb: 1,
        encrypt: false,
        use_swap: true,
        allow_discards: true,
        flake_source: "/per/etc/nixos".to_string(),
        profile: None,
        prepare_only: false,
    }
}

fn ok(output: &str) -> Event {
    Event::Done { success: true, output: output.to_string() }
}

fn answer(world: &World, action: &Action) -> Event {
    match action {
        Action::Run { program, .. } => {
            if world.failing_program.as_deref() == Some(program.as_str()) {
                Event::Done { success: false, output: String::new() }
            } else if program == "sudo" && world.sudo_fails {
                Event::Error { reason: "sudo: command not found".to_string() }
            } else {
                ok("")
            }
        }
        Action::Capture { program, args, decoding } => {
            let last = args.last().map(|a| a.as_str()).unwrap_or("");
            let has = |word: &str| args.iter().any(|a| a == word);
            if let Some(garbled) = &world.garbled {
                if program == garbled || last.ends_with(garbled.as_str()) {
                    return match decoding {
                        Decoding::Exact => Event::Error {
                            reason: "invalid utf-8 sequence of 1 bytes from index 0".to_string(),
                        },
                        Decoding::Lossy => ok("\u{fffd}Nix\u{fffd}Box\n"),
                    };
                }
            }
            match program.as_str() {
                "hostname" => ok("NixBox\n"),
                "dmidecode" if has("chassis-type") => ok(&world.chassis),
                "dmidecode" if has("system-manufacturer") => ok("LENOVO\n"),
                "dmidecode" => ok("20XW\n"),
                "lsblk" if has("SERIAL") => ok(&world.serial),
                "lsblk" if has("UUID") => ok("0123456789abcdef\n"),
                "lsblk" if has("NAME,TYPE,FSTYPE") => {
                    ok("/dev/sda  disk\n/dev/sda1 part vfat\n/dev/sda3 part swap\n")
                }
                "lsblk" => ok(&world.size_bytes),
                "blockdev" if has("--getss") => match &world.sector_size {
                    Some(text) => ok(text),
                    None => Event::Error { reason: "blockdev: not found".to_string() },
                },
                "blockdev" => ok("209715200\n"),
                "readlink" => ok(&format!("{}\n", last)),
                "ls" => ok("l ata-WD-part1 -> ../../sda1\nl ata-WD-part2 -> ../../sda2\n"),
                "blkid" if last.ends_with("efi") => ok("AAAA-BBBB\n"),
                "blkid" if last.ends_with("rpool") => ok("1111\n"),
                "blkid" => ok("2222\n"),
                other => panic!("unexpected capture of {}", other),
            }
        }
        Action::Probe { path } => Event::Done {
            success: path != "/dev/sda" || world.disk_exists,
            output: String::new(),
        },
        Action::Ask { .. } => ok(&world.answer),
        Action::ReadFile { .. } => ok("{ }"),
        _ => ok(""),
    }
}

/// Runs the pipeline to its end and returns the actions it handed out.
fn run(settings: Settings, world: &World) -> Vec<Action> {
    let (mut pipeline, first) = Pipeline::start(settings);
    let mut actions = vec![first];
    while !matches!(actions.last().unwrap(), Action::Finish { .. }) {
        assert!(actions.len() < 1000);
        assert!(!pipeline.is_finished());
        let event = answer(world, actions.last().unwrap());
        actions.push(pipeline.step(event));
    }
    assert!(pipeline.is_finished());
    actions
}

fn outcome(actions: &[Action]) -> Outcome {
    match actions.last().unwrap() {
        Action::Finish { outcome } => outcome.clone(),
        other => panic!("the run ended with {:?}", other),
    }
}

fn position(actions: &[Action], program: &str, words: &[&str]) -> Option<usize> {
    actions.iter().position(|a| match a {
        Action::Run { program: p, args } | Action::Capture { program: p, args, .. } => {
            p == program && words.iter().all(|w| args.iter().any(|a| a == w))
        }
        _ => false,
    })
}

fn changes_something(action: &Action) -> bool {
    match action {
        Action::Run { program, .. } => program != "lsblk",
        Action::Capture { program, .. } => program != "dmidecode",
        Action::MakeDir { .. } | Action::WriteFile { .. } | Action::Symlink { .. } => true,
        Action::ReadFile { .. } => true,
        _ => false,
    }
}

#[test]
fn full_run_completes() {
    let actions = run(settings(), &world());
    assert_eq!(outcome(&actions), Outcome::Completed);
    let ask = actions.iter().position(|a| matches!(a, Action::Ask { .. })).unwrap();
    let order = [
        position(&actions, "sudo", &["zpool", "destroy", "rpool-nixbox-S3Z9_NB0K"]).unwrap(),
        position(&actions, "sudo", &["swapoff", "/dev/sda3"]).unwrap(),
        position(&actions, "sudo", &["wipefs"]).unwrap(),
        position(&actions, "lsblk", &["--bytes"]).unwrap(),
        position(&actions, "parted", &["mklabel"]).unwrap(),
        position(&actions, "parted", &["mkpart", "rpool", "1GiB", "95GiB"]).unwrap(),
        position(&actions, "parted", &["mkpart", "swap", "95GiB", "99GiB"]).unwrap(),
        position(&actions, "partprobe", &["/dev/sda"]).unwrap(),
        position(&actions, "mkfs.vfat", &["/dev/sda1"]).unwrap(),
        position(&actions, "mkswap", &["/dev/sda3"]).unwrap(),
        position(&actions, "zpool", &["create", "rpool-nixbox-S3Z9_NB0K", "/dev/sda2"]).unwrap(),
        position(&actions, "zfs", &["create", "rpool-nixbox-S3Z9_NB0K/root/per"]).unwrap(),
        position(&actions, "mount", &["rpool-nixbox-S3Z9_NB0K/root/eyd/root", "/mnt"]).unwrap(),
        position(&actions, "mount", &["/dev/sda1", "/mnt/boot"]).unwrap(),
        position(&actions, "chown", &["alice:alice"]).unwrap(),
        position(&actions, "rsync", &["/per/etc/nixos/", "/mnt/per/etc/nixos/"]).unwrap(),
        position(&actions, "blkid", &["/dev/disk/by-partlabel/swap"]).unwrap(),
        position(&actions, "chmod", &["+x"]).unwrap(),
        position(&actions, "nixos-install", &["/mnt/per/etc/nixos#nixbox", "/mnt"]).unwrap(),
        position(&actions, "zfs", &["list"]).unwrap(),
    ];
    assert!(ask < order[0]);
    for pair in order.windows(2) {
        assert!(pair[0] < pair[1], "{:?}", order);
    }
    assert!(position(&actions, "cryptsetup", &[]).is_none());
    assert!(position(&actions, "dmidecode", &["system-manufacturer"]).is_none());
}

#[test]
fn full_run_writes_the_hardware_description() {
    let actions = run(settings(), &world());
    let written: Vec<(&String, &String)> = actions
        .iter()
        .filter_map(|a| match a {
            Action::WriteFile { path, contents } => Some((path, contents)),
            _ => None,
        })
        .collect();
    assert_eq!(written.len(), 2);
    assert_eq!(written[0].0, "/mnt/per/etc/nixos/hosts/desktop/hardware-configuration.nix");
    assert!(written[0].1.contains("networking.hostName = \"nixbox\";"));
    assert!(written[0].1.contains("networking.hostId = \"a1b2c3d4\";"));
    assert!(written[0].1.contains("device = \"rpool-nixbox-S3Z9_NB0K/root/eyd/root\";"));
    assert!(written[0].1.contains("device = \"/dev/disk/by-uuid/AAAA-BBBB\";"));
    assert!(written[0].1.contains("{ device = \"/dev/disk/by-uuid/2222\"; }"));
    assert!(!written[0].1.contains("luks"));
    assert_eq!(written[1].0, "/mnt/per/bootstrap.sh");
}

#[test]
fn anything_but_yes_aborts_before_anything_is_changed() {
    for reply in ["", "\n", "no\n", "yes\n", "Yes\n", "YES!\n", "Y\n", "YES YES\n", "y e s"] {
        let mut refused = world();
        refused.answer = reply.to_string();
        let actions = run(settings(), &refused);
        assert_eq!(outcome(&actions), Outcome::Aborted, "{:?}", reply);
        assert!(matches!(actions[actions.len() - 2], Action::Ask { .. }));
        assert!(position(&actions, "parted", &[]).is_none());
        assert!(position(&actions, "sudo", &[]).is_none());
        for action in &actions {
            assert!(!changes_something(action), "{:?}", action);
        }
    }
}

#[test]
fn yes_with_whitespace_around_it_is_consent() {
    for reply in ["YES", "YES\n", "  YES \r\n", "\tYES"] {
        let mut agreed = world();
        agreed.answer = reply.to_string();
        assert_eq!(outcome(&run(settings(), &agreed)), Outcome::Completed, "{:?}", reply);
    }
}

#[test]
fn unread_answer_ends_the_run() {
    let (mut pipeline, mut action) = Pipeline::start(settings());
    let calm = world();
    while !matches!(action, Action::Ask { .. }) {
        action = pipeline.step(answer(&calm, &action));
    }
    assert_eq!(pipeline.phase(), Phase::Confirm);
    let last = pipeline.step(Event::Error { reason: "stdin closed".to_string() });
    assert_eq!(
        last,
        Action::Finish {
            outcome: Outcome::Failed {
                failure: Failure::Refused {
                    path: "Type YES to continue: ".to_string(),
                    reason: "stdin closed".to_string(),
                },
            },
        }
    );
}

#[test]
fn missing_disk_ends_the_run_at_once() {
    let mut gone = world();
    gone.disk_exists = false;
    let actions = run(settings(), &gone);
    assert_eq!(
        actions,
        vec![
            Action::Probe { path: "/dev/sda".to_string() },
            Action::Finish {
                outcome: Outcome::Failed { failure: Failure::Missing { path: "/dev/sda".to_string() } },
            },
        ]
    );
}

#[test]
fn failing_command_ends_the_run_and_is_named() {
    let mut broken = world();
    broken.failing_program = Some("partprobe".to_string());
    let actions = run(settings(), &broken);
    assert_eq!(
        outcome(&actions),
        Outcome::Failed {
            failure: Failure::CommandFailed {
                program: "partprobe".to_string(),
                args: vec!["/dev/sda".to_string()],
            },
        }
    );
    let failed = position(&actions, "partprobe", &[]).unwrap();
    assert_eq!(failed, actions.len() - 2);
    assert!(position(&actions, "mkfs.vfat", &[]).is_none());
    assert!(position(&actions, "zpool", &["create"]).is_none());
}

#[test]
fn failing_cleanup_is_borne() {
    let mut rough = world();
    rough.sudo_fails = true;
    assert_eq!(outcome(&run(settings(), &rough)), Outcome::Completed);
}

#[test]
fn too_small_a_disk_ends_the_run_before_partitioning() {
    let mut small = world();
    small.size_bytes = format!("{}\n", 5 * GIB);
    let actions = run(settings(), &small);
    assert_eq!(outcome(&actions), Outcome::Failed { failure: Failure::NoRoom });
    assert!(position(&actions, "parted", &[]).is_none());
}

#[test]
fn unreadable_size_ends_the_run() {
    let mut odd = world();
    odd.size_bytes = "100G\n".to_string();
    let actions = run(settings(), &odd);
    assert_eq!(
        outcome(&actions),
        Outcome::Failed { failure: Failure::BadDiskSize { text: "100G".to_string() } }
    );
    assert!(position(&actions, "parted", &[]).is_none());
}

#[test]
fn missing_size_falls_back_to_the_sector_count() {
    let mut silent = world();
    silent.size_bytes = "\n".to_string();
    let actions = run(settings(), &silent);
    assert_eq!(outcome(&actions), Outcome::Completed);
    assert!(position(&actions, "blockdev", &["--getsz"]).is_some());
    // 209715200 sectors of 512 bytes are 100 GiB.
    assert!(position(&actions, "parted", &["mkpart", "swap", "95GiB", "99GiB"]).is_some());
}

#[test]
fn unknown_sector_size_is_assumed_with_a_warning() {
    let mut blind = world();
    blind.sector_size = None;
    let actions = run(settings(), &blind);
    assert_eq!(outcome(&actions), Outcome::Completed);
    let warning = Action::Say {
        text: "Warning: Couldn't determine sector size, using default of 512 bytes".to_string(),
    };
    assert_eq!(actions.iter().filter(|a| **a == warning).count(), 1);
    assert!(position(&actions, "parted", &["mkpart", "rpool", "1GiB", "95GiB"]).is_some());
    assert!(!run(settings(), &world()).contains(&warning));
}

#[test]
fn encryption_wraps_root_and_swap() {
    let mut secret = settings();
    secret.encrypt = true;
    secret.allow_discards = false;
    let actions = run(secret, &world());
    assert_eq!(outcome(&actions), Outcome::Completed);
    let order = [
        position(&actions, "mkfs.vfat", &[]).unwrap(),
        position(&actions, "cryptsetup", &["luksFormat", "/dev/sda2"]).unwrap(),
        position(&actions, "cryptsetup", &["luksOpen", "/dev/sda2", "luks-rpool"]).unwrap(),
        position(&actions, "cryptsetup", &["luksFormat", "/dev/sda3"]).unwrap(),
        position(&actions, "cryptsetup", &["luksOpen", "/dev/sda3", "luks-swap"]).unwrap(),
        position(&actions, "mkswap", &["/dev/mapper/luks-swap"]).unwrap(),
        position(&actions, "swapon", &["/dev/mapper/luks-swap"]).unwrap(),
        position(&actions, "zpool", &["create", "/dev/mapper/luks-rpool"]).unwrap(),
    ];
    for pair in order.windows(2) {
        assert!(pair[0] < pair[1], "{:?}", order);
    }
    let text = actions
        .iter()
        .find_map(|a| match a {
            Action::WriteFile { path, contents } if path.ends_with(".nix") => Some(contents.clone()),
            _ => None,
        })
        .unwrap();
    assert!(text.contains("boot.initrd.luks.devices.\"luks-rpool\""));
    assert!(text.contains("device = \"/dev/disk/by-uuid/1111\";"));
    assert!(text.contains("allowDiscards = false;"));
}

#[test]
fn no_encryption_and_no_swap_leave_no_trace_in_the_description() {
    let mut plain = settings();
    plain.use_swap = false;
    let actions = run(plain, &world());
    assert_eq!(outcome(&actions), Outcome::Completed);
    assert!(position(&actions, "mkswap", &[]).is_none());
    assert!(position(&actions, "parted", &["mkpart", "swap"]).is_none());
    assert!(position(&actions, "parted", &["mkpart", "rpool", "1GiB", "99GiB"]).is_some());
    assert!(position(&actions, "blkid", &["/dev/disk/by-partlabel/swap"]).is_none());
    let text = actions
        .iter()
        .find_map(|a| match a {
            Action::WriteFile { path, contents } if path.ends_with(".nix") => Some(contents.clone()),
            _ => None,
        })
        .unwrap();
    assert!(!text.contains("luks"));
    assert!(!text.contains("swapDevices"));
}

#[test]
fn prepare_only_stops_before_the_installer() {
    let mut prepared = settings();
    prepared.prepare_only = true;
    let actions = run(prepared, &world());
    assert_eq!(outcome(&actions), Outcome::Completed);
    assert!(position(&actions, "nixos-install", &[]).is_none());
    assert!(actions.contains(&Action::Say {
        text: "1. Complete the installation: nixos-install --flake /mnt/per/etc/nixos#nixbox"
            .to_string()
    }));
}

#[test]
fn laptops_are_asked_for_their_maker() {
    let mut laptop = world();
    laptop.chassis = "Notebook\n".to_string();
    let actions = run(settings(), &laptop);
    assert!(position(&actions, "dmidecode", &["system-manufacturer"]).is_some());
    assert!(actions.contains(&Action::Say { text: "  - Host profile: thinkpad".to_string() }));
    assert!(actions.contains(&Action::MakeDir {
        path: "/mnt/per/etc/nixos/hosts/thinkpad".to_string()
    }));
    let mut named = settings();
    named.profile = Some("server".to_string());
    let actions = run(named, &laptop);
    assert!(position(&actions, "dmidecode", &[]).is_none());
    assert!(actions.contains(&Action::Say { text: "  - Host profile: server".to_string() }));
}

#[test]
fn disk_without_serial_is_named_after_its_uuid() {
    let mut bare = world();
    bare.serial = "\n".to_string();
    let actions = run(settings(), &bare);
    assert!(position(&actions, "lsblk", &["UUID"]).is_some());
    assert!(position(&actions, "zpool", &["create", "rpool-nixbox-DISK-01234567"]).is_some());
    assert!(position(&run(settings(), &world()), "lsblk", &["UUID"]).is_none());
}

#[test]
fn summary_shows_the_settings() {
    let actions = run(settings(), &world());
    for line in [
        "WARNING: This will destroy all data on /dev/sda",
        "  - Hostname: nixbox",
        "  - Username: alice",
        "  - Host profile: desktop",
        "  - Flake source: /per/etc/nixos",
        "  - EFI size: 1GB",
        "  - Swap size: 4GB",
        "  - Reserved space: 1GB",
        "  - Encryption: disabled",
        "  - Trim/discard: enabled (for SSD)",
        "  - Mode: Full installation",
    ] {
        let said = actions.iter().position(|a| *a == Action::Say { text: line.to_string() });
        let ask = actions.iter().position(|a| matches!(a, Action::Ask { .. }));
        assert!(said.is_some(), "{}", line);
        assert!(said < ask);
    }
}

#[test]
fn finished_run_keeps_finishing() {
    let mut gone = world();
    gone.disk_exists = false;
    let (mut pipeline, first) = Pipeline::start(settings());
    let last = pipeline.step(answer(&gone, &first));
    assert!(matches!(last, Action::Finish { .. }));
    assert_eq!(pipeline.step(ok("")), last);
    assert_eq!(pipeline.step(Event::Error { reason: "late".to_string() }), last);
}

#[test]
fn root_is_mounted_before_anything_is_made_under_it() {
    let actions = run(settings(), &world());
    let root = position(&actions, "mount", &["rpool-nixbox-S3Z9_NB0K/root/eyd/root", "/mnt"]).unwrap();
    for (i, action) in actions.iter().enumerate() {
        let under_root = match action {
            Action::MakeDir { path } | Action::WriteFile { path, .. } => path.starts_with("/mnt/"),
            Action::Symlink { link, .. } => link.starts_with("/mnt/"),
            Action::Run { program, args } => program == "mount" && args.last().unwrap().starts_with("/mnt/"),
            _ => false,
        };
        if under_root {
            assert!(root < i, "{:?}", action);
        }
    }
    // Where mounting the root fails, nothing is made under it.
    let mut broken = world();
    broken.failing_program = Some("mount".to_string());
    let actions = run(settings(), &broken);
    assert!(actions.iter().all(|a| !matches!(a, Action::MakeDir { path } if path.starts_with("/mnt/"))));
}

#[test]
fn fallback_count_is_in_units_of_512_bytes() {
    // A disk of 100 GiB with sectors of 4096 bytes: the count is in units
    // of 512 bytes, and the boundaries are those of 100 GiB.
    let mut silent = world();
    silent.size_bytes = "\n".to_string();
    silent.sector_size = Some("4096\n".to_string());
    let actions = run(settings(), &silent);
    assert_eq!(outcome(&actions), Outcome::Completed);
    assert!(position(&actions, "blockdev", &["--getsz"]).is_some());
    assert!(position(&actions, "parted", &["mkpart", "rpool", "1GiB", "95GiB"]).is_some());
    assert!(position(&actions, "parted", &["mkpart", "swap", "95GiB", "99GiB"]).is_some());
}

#[test]
fn output_that_is_no_text_ends_the_run_where_it_must_be_text() {
    for (garbled, program) in [("readlink", "readlink"), ("ls", "ls"), ("efi", "blkid"), ("rpool", "blkid")] {
        let mut odd = world();
        odd.garbled = Some(garbled.to_string());
        let actions = run(settings(), &odd);
        match outcome(&actions) {
            Outcome::Failed { failure: Failure::CommandNotRun { program: named, reason, .. } } => {
                assert_eq!(named, program);
                assert!(reason.contains("utf-8"));
            }
            other => panic!("the run ended with {:?}", other),
        }
        assert!(!actions.iter().any(|a| matches!(a, Action::WriteFile { .. })));
    }
}

#[test]
fn swap_uuid_that_is_no_text_is_left_out() {
    let mut odd = world();
    odd.garbled = Some("swap".to_string());
    let actions = run(settings(), &odd);
    assert_eq!(outcome(&actions), Outcome::Completed);
    let text = actions
        .iter()
        .find_map(|a| match a {
            Action::WriteFile { path, contents } if path.ends_with(".nix") => Some(contents.clone()),
            _ => None,
        })
        .unwrap();
    assert!(!text.contains("swapDevices"));
}

#[test]
fn other_output_that_is_no_text_is_mended() {
    let mut odd = world();
    odd.garbled = Some("hostname".to_string());
    let actions = run(settings(), &odd);
    assert_eq!(outcome(&actions), Outcome::Completed);
    assert!(position(&actions, "zpool", &["create", "rpool-nixbox-S3Z9_NB0K"]).is_some());
}

#[test]
fn only_paths_listings_and_uuids_must_be_text() {
    let actions = run(settings(), &world());
    for action in &actions {
        if let Action::Capture { program, decoding, .. } = action {
            let exact = matches!(program.as_str(), "readlink" | "ls" | "blkid");
            assert_eq!(*decoding == Decoding::Exact, exact, "{}", program);
        }
    }
}
