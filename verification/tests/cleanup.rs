use zfs_nixos_setup::cleanup::{cleanup_existing_setup, cleanup_probes, swap_partitions};
use zfs_nixos_setup::command::{Action, Decoding, Event, Policy, Slot, Step};

fn sudo(args: &[&str]) -> Step {
    Step {
        action: Action::Run {
            program: "sudo".to_string(),
            args: args.iter().map(|a| a.to_string()).collect(),
        },
        policy: Policy::Lenient,
        slot: Slot::Nowhere,
    }
}

fn lenient(action: Action) -> Step {
    Step { action, policy: Policy::Lenient, slot: Slot::Nowhere }
}

#[test]
fn swap_partitions_are_the_lines_with_part_and_swap() {
    let listing = "/dev/sda  disk\n/dev/sda1 part vfat\n/dev/sda2 part zfs_member\n/dev/sda3 part swap\n";
    assert_eq!(swap_partitions(listing), vec!["/dev/sda3"]);
    let two = "/dev/sda3 part swap\n/dev/sda4 part ext4\n/dev/sda5 part swap\n";
    assert_eq!(swap_partitions(two), vec!["/dev/sda3", "/dev/sda5"]);
    assert_eq!(swap_partitions("/dev/sda disk\n/dev/sda1 part vfat\n"), Vec::<String>::new());
    assert_eq!(swap_partitions(""), Vec::<String>::new());
    assert_eq!(swap_partitions("swap only\npart only\n"), Vec::<String>::new());
}

#[test]
fn cleanup_begins_with_the_pool_and_the_listing() {
    let steps = cleanup_probes("/dev/sda", "rpool-h-S1");
    assert_eq!(
        steps,
        vec![
            lenient(Action::Say { text: "Cleaning up any existing setup...".to_string() }),
            sudo(&["zpool", "destroy", "-f", "rpool-h-S1"]),
            Step {
                action: Action::Capture {
                    program: "lsblk".to_string(),
                    args: vec![
                        "-nlpo".to_string(),
                        "NAME,TYPE,FSTYPE".to_string(),
                        "/dev/sda".to_string(),
                    ],
                    decoding: Decoding::Lossy,
                },
                policy: Policy::Lenient,
                slot: Slot::Partitions,
            },
        ]
    );
}

#[test]
fn cleanup_tears_down_in_order() {
    let listing = Some("/dev/sda disk\n/dev/sda3 part swap\n".to_string());
    let steps = cleanup_existing_setup("/dev/sda", &listing);
    let reread = sudo(&["blockdev", "--rereadpt", "/dev/sda"]);
    let pause = lenient(Action::Sleep { seconds: 1 });
    assert_eq!(
        steps,
        vec![
            sudo(&["swapoff", "-v", "/dev/sda3"]),
            sudo(&["umount", "-A", "--recursive", "/dev/sda*"]),
            lenient(Action::Say { text: "Clearing all signatures on /dev/sda...".to_string() }),
            sudo(&["wipefs", "-a", "-f", "/dev/sda"]),
            reread.clone(),
            pause.clone(),
            reread.clone(),
            pause.clone(),
            reread,
            pause,
        ]
    );
}

#[test]
fn cleanup_without_listing_still_tears_down() {
    let steps = cleanup_existing_setup("/dev/sdb", &None);
    assert_eq!(steps.len(), 9);
    assert_eq!(steps[0], sudo(&["umount", "-A", "--recursive", "/dev/sdb*"]));
}

#[test]
fn cleanup_twice_in_a_row_never_fails() {
    let failures = [
        Event::Error { reason: "No such file or directory".to_string() },
        Event::Done { success: false, output: String::new() },
        Event::Done { success: true, output: String::new() },
    ];
    for round in 0..2 {
        let listing = if round == 0 {
            Some("/dev/sda3 part swap\n".to_string())
        } else {
            None
        };
        let mut steps = cleanup_probes("/dev/sda", "rpool-h-S1");
        steps.extend(cleanup_existing_setup("/dev/sda", &listing));
        for step in &steps {
            assert_eq!(step.policy, Policy::Lenient);
            for event in &failures {
                assert!(step.settle(event).is_ok());
            }
        }
    }
}
