use zfs_nixos_setup::command::{Action, Policy, Slot, Step};
use zfs_nixos_setup::encryption::{mapped_device, setup_luks_encryption, setup_swap};
use zfs_nixos_setup::pool::{create_zfs_datasets, create_zfs_pool, DatasetTree};

fn run(program: &str, args: &[&str]) -> Step {
    Step {
        action: Action::Run {
            program: program.to_string(),
            args: args.iter().map(|a| a.to_string()).collect(),
        },
        policy: Policy::Strict,
        slot: Slot::Nowhere,
    }
}

fn say(text: &str) -> Step {
    Step { action: Action::Say { text: text.to_string() }, policy: Policy::Lenient, slot: Slot::Nowhere }
}

#[test]
fn pool_is_created_with_its_container() {
    assert_eq!(
        create_zfs_pool("/dev/mapper/luks-rpool", "rpool-h-S1"),
        vec![
            run("zpool", &["create", "-f", "-o", "ashift=12", "rpool-h-S1", "/dev/mapper/luks-rpool"]),
            run(
                "zfs",
                &[
                    "create",
                    "-o",
                    "compression=lz4",
                    "-o",
                    "acltype=posixacl",
                    "-o",
                    "xattr=sa",
                    "-o",
                    "atime=off",
                    "-o",
                    "normalization=formD",
                    "-o",
                    "mountpoint=none",
                    "rpool-h-S1/root",
                ]
            ),
            run("zpool", &["set", "autotrim=on", "rpool-h-S1"]),
        ]
    );
}

#[test]
fn datasets_are_created_with_the_blank_snapshot() {
    assert_eq!(
        create_zfs_datasets("tank"),
        vec![
            run("zfs", &["create", "-o", "mountpoint=none", "tank/root/eyd"]),
            run("zfs", &["create", "-o", "mountpoint=/", "tank/root/eyd/root"]),
            run("zfs", &["snapshot", "tank/root/eyd/root@blank"]),
            run("zfs", &["create", "-o", "mountpoint=/nix", "tank/root/nix"]),
            run("zfs", &["create", "-o", "mountpoint=/home", "tank/root/home"]),
            run("zfs", &["create", "-o", "mountpoint=/per", "tank/root/per"]),
        ]
    );
}

#[test]
fn luks_formats_then_opens() {
    assert_eq!(
        setup_luks_encryption("/dev/sda2", "luks-rpool"),
        vec![
            say("Please confirm and enter a password for LUKS encryption on /dev/sda2"),
            run("cryptsetup", &["luksFormat", "--type", "luks2", "/dev/sda2"]),
            say("Please enter the password to open the encrypted device"),
            run("cryptsetup", &["luksOpen", "/dev/sda2", "luks-rpool"]),
        ]
    );
    assert_eq!(mapped_device("luks-swap"), "/dev/mapper/luks-swap");
}

#[test]
fn swap_is_made_then_switched_on() {
    assert_eq!(
        setup_swap("/dev/sda3"),
        vec![run("mkswap", &["/dev/sda3"]), run("swapon", &["/dev/sda3"])]
    );
}

#[test]
fn datasets_hang_under_the_container() {
    let tree = DatasetTree::of_pool("rpool-h-S1");
    assert_eq!(
        tree,
        DatasetTree {
            container: "rpool-h-S1/root".to_string(),
            erased: "rpool-h-S1/root/eyd".to_string(),
            root: "rpool-h-S1/root/eyd/root".to_string(),
            nix: "rpool-h-S1/root/nix".to_string(),
            home: "rpool-h-S1/root/home".to_string(),
            per: "rpool-h-S1/root/per".to_string(),
        }
    );
    assert_eq!(tree.blank_snapshot(), "rpool-h-S1/root/eyd/root@blank");
    for leaf in [&tree.erased, &tree.nix, &tree.home, &tree.per] {
        assert!(leaf.starts_with(&format!("{}/", tree.container)));
    }
    assert!(tree.root.starts_with(&format!("{}/", tree.erased)));
}
