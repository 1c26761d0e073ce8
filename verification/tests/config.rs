use zfs_nixos_setup::command::{Action, Decoding, Failure, Policy, Slot};
use zfs_nixos_setup::config::{
    create_bootstrap_script, generate_host_id, get_partition_uuid, host_id_from,
    render_bootstrap_script, render_sections, resolve_config, update_flake_hostname,
    update_hardware_configuration, uuid_probes, ProvisionedConfig, Section, Unlock,
};

fn config(unlock: Option<Unlock>, swap_device: Option<&str>) -> ProvisionedConfig {
    ProvisionedConfig {
        hostname: "nixbox".to_string(),
        host_id: "a1b2c3d4".to_string(),
        pool_name: "rpool-nixbox-S1".to_string(),
        boot_device: "/dev/disk/by-uuid/AAAA-BBBB".to_string(),
        unlock,
        swap_device: swap_device.map(|d| d.to_string()),
    }
}

fn mount_points(sections: &[Section]) -> Vec<String> {
    let mut out = Vec::new();
    for section in sections {
        if let Section::Mount { mount_point, .. } = section {
            out.push(mount_point.clone());
        }
    }
    out
}

const PLAIN: &str = r#"{ config, lib, pkgs, modulesPath, ... }:

{
  imports = [ (modulesPath + "/installer/scan/not-detected.nix") ];

  # Host specific configuration
  networking.hostName = "nixbox";
  networking.hostId = "a1b2c3d4"; # Required for ZFS

  # Bootloader
  boot.loader.systemd-boot.enable = true;
  boot.loader.efi.canTouchEfiVariables = true;

  # File systems
  boot.supportedFilesystems = [ "zfs" ];
  boot.zfs.requestEncryptionCredentials = true;

  fileSystems."/" = {
    device = "rpool-nixbox-S1/root/eyd/root";
    fsType = "zfs";
  };

  fileSystems."/nix" = {
    device = "rpool-nixbox-S1/root/nix";
    fsType = "zfs";
  };

  fileSystems."/home" = {
    device = "rpool-nixbox-S1/root/home";
    fsType = "zfs";
  };

  fileSystems."/per" = {
    device = "rpool-nixbox-S1/root/per";
    fsType = "zfs";
  };

  fileSystems."/boot" = {
    device = "/dev/disk/by-uuid/AAAA-BBBB";
    fsType = "vfat";
  };

  # Ensure persistent directories are properly linked
  environment.persistence."/per" = {
    directories = [
      "/etc/nixos"
      "/etc/ssh"
      "/var/lib"
      "/var/log"
      "/etc/NetworkManager/system-connections"
    ];
  };

  # Make /etc/nixos point to /per/etc/nixos
  boot.initrd.postMountCommands = ''
    mkdir -p /mnt-root/etc
    ln -s /per/etc/nixos /mnt-root/etc/nixos
  '';
"#;

const UNLOCK: &str = r#"
  # LUKS configuration
  boot.initrd.luks.devices."luks-rpool" = {
    device = "/dev/disk/by-uuid/1111";
    preLVM = true;
    allowDiscards = true;
  };
"#;

const SWAP: &str = r#"
  swapDevices = [
    { device = "/dev/disk/by-uuid/2222"; }
  ];
"#;

#[test]
fn plain_configuration_has_neither_encryption_nor_swap() {
    let text = config(None, None).render();
    assert_eq!(text, format!("{}\n}}\n", PLAIN));
    assert!(!text.contains("luks"));
    assert!(!text.contains("LUKS"));
    assert!(!text.contains("swapDevices"));
}

#[test]
fn full_configuration_has_both_blocks() {
    let unlock = Unlock { device: "/dev/disk/by-uuid/1111".to_string(), allow_discards: true };
    let text = config(Some(unlock), Some("/dev/disk/by-uuid/2222")).render();
    assert_eq!(text, format!("{}{}{}\n}}\n", PLAIN, UNLOCK, SWAP));
}

#[test]
fn blocks_are_there_exactly_when_asked_for() {
    for encrypted in [false, true] {
        for swap in [false, true] {
            let unlock = if encrypted {
                Some(Unlock { device: "/dev/disk/by-uuid/1111".to_string(), allow_discards: false })
            } else {
                None
            };
            let made = config(unlock, if swap { Some("/dev/disk/by-uuid/2222") } else { None });
            let sections = made.sections();
            assert_eq!(mount_points(&sections), vec!["/", "/nix", "/home", "/per", "/boot"]);
            let unlocks = sections.iter().filter(|s| matches!(s, Section::Unlock { .. })).count();
            let swaps = sections.iter().filter(|s| matches!(s, Section::Swap { .. })).count();
            assert_eq!(unlocks, if encrypted { 1 } else { 0 });
            assert_eq!(swaps, if swap { 1 } else { 0 });
            let text = made.render();
            assert_eq!(text, render_sections(&sections));
            assert_eq!(text.matches("fileSystems.").count(), 5);
            assert_eq!(text.contains("boot.initrd.luks.devices"), encrypted);
            assert_eq!(text.contains("allowDiscards = false;"), encrypted);
            assert_eq!(text.contains("swapDevices"), swap);
            assert!(text.ends_with("\n}\n"));
        }
    }
}

#[test]
fn sections_render_one_by_one() {
    assert_eq!(
        Section::Mount {
            mount_point: "/nix".to_string(),
            device: "tank/root/nix".to_string(),
            fs_type: "zfs".to_string(),
        }
        .render(),
        "  fileSystems.\"/nix\" = {\n    device = \"tank/root/nix\";\n    fsType = \"zfs\";\n  };\n\n"
    );
    assert_eq!(Section::Closing.render(), "\n}\n");
    assert_eq!(
        Section::Swap { device: "/dev/disk/by-uuid/2222".to_string() }.render(),
        SWAP
    );
}

#[test]
fn partition_uuid_becomes_a_stable_path() {
    assert_eq!(
        get_partition_uuid("/dev/disk/by-partlabel/efi", "AAAA-BBBB\n"),
        Ok("/dev/disk/by-uuid/AAAA-BBBB".to_string())
    );
    assert_eq!(
        get_partition_uuid("/dev/disk/by-partlabel/efi", " \n"),
        Err(Failure::NoUuid { device: "/dev/disk/by-partlabel/efi".to_string() })
    );
}

#[test]
fn configuration_is_resolved_from_the_uuids() {
    let made = resolve_config(
        "nixbox", "a1b2c3d4", "rpool-nixbox-S1", true, true, true, "AAAA-BBBB\n", "1111\n",
        &Some("2222\n".to_string()),
    )
    .unwrap();
    let unlock = Unlock { device: "/dev/disk/by-uuid/1111".to_string(), allow_discards: true };
    assert_eq!(made, config(Some(unlock), Some("/dev/disk/by-uuid/2222")));
    let plain = resolve_config(
        "nixbox", "a1b2c3d4", "rpool-nixbox-S1", false, false, true, "AAAA-BBBB\n", "1111\n",
        &Some("2222\n".to_string()),
    )
    .unwrap();
    assert_eq!(plain, config(None, None));
}

#[test]
fn swap_without_uuid_is_left_out() {
    for output in [None, Some("\n".to_string())] {
        let made = resolve_config("h", "i", "p", false, true, true, "A\n", "B\n", &output).unwrap();
        assert_eq!(made.swap_device, None);
    }
}

#[test]
fn boot_and_root_must_have_a_uuid() {
    assert_eq!(
        resolve_config("h", "i", "p", false, false, true, "\n", "B\n", &None),
        Err(Failure::NoUuid { device: "/dev/disk/by-partlabel/efi".to_string() })
    );
    assert_eq!(
        resolve_config("h", "i", "p", false, false, true, "A\n", "", &None),
        Err(Failure::NoUuid { device: "/dev/disk/by-partlabel/rpool".to_string() })
    );
}

#[test]
fn uuid_probes_ask_blkid() {
    let steps = uuid_probes(true);
    assert_eq!(steps.len(), 3);
    assert_eq!(
        steps[0].action,
        Action::Capture {
            program: "blkid".to_string(),
            args: ["-s", "UUID", "-o", "value", "/dev/disk/by-partlabel/efi"]
                .iter()
                .map(|a| a.to_string())
                .collect(),
            decoding: Decoding::Exact,
        }
    );
    assert_eq!(steps[0].policy, Policy::Started);
    assert_eq!(steps[1].slot, Slot::RootUuid);
    assert_eq!(steps[2].policy, Policy::Lenient);
    assert_eq!(steps[2].slot, Slot::SwapUuid);
    assert_eq!(uuid_probes(false).len(), 2);
}

#[test]
fn hardware_configuration_is_written_into_the_host_directory() {
    let made = config(None, None);
    let steps = update_hardware_configuration("/mnt/per/etc/nixos/hosts/desktop", &made);
    assert_eq!(steps.len(), 2);
    assert_eq!(
        steps[0].action,
        Action::MakeDir { path: "/mnt/per/etc/nixos/hosts/desktop".to_string() }
    );
    assert_eq!(
        steps[1].action,
        Action::WriteFile {
            path: "/mnt/per/etc/nixos/hosts/desktop/hardware-configuration.nix".to_string(),
            contents: made.render(),
        }
    );
    assert_eq!(steps[1].policy, Policy::Strict);
}

const BOOTSTRAP: &str = r#"#!/bin/sh
# Bootstrap script for new NixOS installation
# Generated by zfs-nixos-setup

echo "Setting up persistent directories..."

# Create system directories if they don't exist
mkdir -p /per/etc/nixos
mkdir -p /per/etc/ssh
mkdir -p /per/var/lib
mkdir -p /per/var/log
mkdir -p /per/etc/NetworkManager/system-connections

# Create user directories if they don't exist
mkdir -p /home/alice/.ssh
mkdir -p /home/alice/.gnupg
mkdir -p /home/alice/.config

# Set proper permissions
chown -R alice:alice /home/alice

# Create symlinks for persistence
if [ ! -L /etc/nixos ]; then
  ln -sf /per/etc/nixos /etc/nixos
fi

if [ ! -L /etc/ssh ]; then
  ln -sf /per/etc/ssh /etc/ssh
fi

# Rebuild the system
echo "Rebuilding NixOS..."
nixos-rebuild --flake /per/etc/nixos#nixbox switch

echo "Setup complete! Your system is now ready."
echo "Remember to change your password with 'passwd'"
"#;

#[test]
fn bootstrap_script_text() {
    assert_eq!(render_bootstrap_script("nixbox", "alice"), BOOTSTRAP);
}

#[test]
fn bootstrap_script_is_written_and_made_executable() {
    let steps = create_bootstrap_script("nixbox", "desktop", "alice");
    assert_eq!(steps.len(), 2);
    assert_eq!(
        steps[0].action,
        Action::WriteFile { path: "/mnt/per/bootstrap.sh".to_string(), contents: BOOTSTRAP.to_string() }
    );
    assert_eq!(
        steps[1].action,
        Action::Run {
            program: "chmod".to_string(),
            args: vec!["+x".to_string(), "/mnt/per/bootstrap.sh".to_string()],
        }
    );
}

#[test]
fn flake_hostname_is_only_advised() {
    let advice = update_flake_hostname("nixbox", "desktop", &Some("{ }".to_string()));
    assert_eq!(advice.len(), 2);
    assert_eq!(
        advice[0].action,
        Action::Say {
            text: "NOTE: You may need to update your flake.nix to use the hostname 'nixbox' with the 'desktop' profile.".to_string()
        }
    );
    let warning = update_flake_hostname("nixbox", "desktop", &None);
    assert_eq!(
        warning[0].action,
        Action::Say { text: "Warning: Could not read flake.nix. Will not update hostname.".to_string() }
    );
    for step in advice.iter().chain(warning.iter()) {
        assert!(matches!(step.action, Action::Say { .. }));
    }
}

#[test]
fn host_id_is_the_head_of_a_uuid() {
    assert_eq!(host_id_from("a1b2c3d4-e5f6-4789-abcd-ef0123456789"), "a1b2c3d4");
}

#[test]
fn fresh_host_ids_are_eight_hex_digits() {
    let first = generate_host_id();
    let mut differs = false;
    for _ in 0..16 {
        let id = generate_host_id();
        assert_eq!(id.chars().count(), 8);
        assert!(id.chars().all(|c| c.is_ascii_digit() || ('a'..='f').contains(&c)), "{}", id);
        differs = differs || id != first;
    }
    assert!(differs);
}
