//! The configuration generator: the hardware description of the new
//! system and the script that completes it after the first boot.
//!
//! Both are text made from values that are known once the disk is
//! partitioned and mounted. The hardware description is built as a list of
//! sections, so that what it declares can be told from the list.

use crate::command::{
    capture_exact, capture_exact_run, make_dir, make_dir_step, run_command, say, say_step, strict_run,
    write_file, write_file_step, Failure, FailureView, Policy, Slot, Step, StepView,
};
use crate::encryption::ROOT_VOLUME;
use crate::pool::{home_dataset, nix_dataset, per_dataset, root_dataset, DatasetTree};
use crate::text::{
    contains, join2, lemma_contains_itself, lemma_contains_within, prefix, take_chars, text_of,
    trim, trimmed,
};
use vstd::prelude::*;

verus! {

/// How the encrypted root volume is unlocked at boot.
#[derive(Debug, PartialEq, Eq)]
pub struct Unlock {
    /// The encrypted partition, by UUID.
    pub device: String,
    /// Whether trim requests are passed through to the disk.
    pub allow_discards: bool,
}

/// What the hardware description is made from.
#[derive(Debug, PartialEq, Eq)]
pub struct ProvisionedConfig {
    pub hostname: String,
    /// The short machine identifier that ZFS asks for.
    pub host_id: String,
    pub pool_name: String,
    /// The EFI partition, by UUID.
    pub boot_device: String,
    /// Present where the root partition is encrypted.
    pub unlock: Option<Unlock>,
    /// The swap device, by UUID; present where swap is in use and its UUID
    /// is known.
    pub swap_device: Option<String>,
}

/// One section of the hardware description.
#[derive(Debug, PartialEq, Eq)]
pub enum Section {
    /// The opening of the module, the host's name and identifier, and the
    /// boot loader.
    Header { hostname: String, host_id: String },
    /// A file system and where it is mounted.
    Mount { mount_point: String, device: String, fs_type: String },
    /// The directories that outlive a rollback of the root dataset.
    Persistence,
    /// The boot-time commands that link the configuration into the root.
    Hook,
    /// The encrypted volume to unlock at boot.
    Unlock { device: String, allow_discards: bool },
    /// The swap device.
    Swap { device: String },
    /// The end of the module.
    Closing,
}

/// The model of an `Unlock`.
pub struct UnlockView {
    pub device: Seq<char>,
    pub allow_discards: bool,
}

/// The model of a `ProvisionedConfig`.
pub struct ProvisionedConfigView {
    pub hostname: Seq<char>,
    pub host_id: Seq<char>,
    pub pool_name: Seq<char>,
    pub boot_device: Seq<char>,
    pub unlock: Option<UnlockView>,
    pub swap_device: Option<Seq<char>>,
}

/// The model of a `Section`.
#[verifier::ext_equal]
pub enum SectionView {
    Header { hostname: Seq<char>, host_id: Seq<char> },
    Mount { mount_point: Seq<char>, device: Seq<char>, fs_type: Seq<char> },
    Persistence,
    Hook,
    Unlock { device: Seq<char>, allow_discards: bool },
    Swap { device: Seq<char> },
    Closing,
}

impl View for Unlock {
    type V = UnlockView;

    open spec fn view(&self) -> UnlockView {
        UnlockView { device: self.device@, allow_discards: self.allow_discards }
    }
}

impl View for ProvisionedConfig {
    type V = ProvisionedConfigView;

    open spec fn view(&self) -> ProvisionedConfigView {
        ProvisionedConfigView {
            hostname: self.hostname@,
            host_id: self.host_id@,
            pool_name: self.pool_name@,
            boot_device: self.boot_device@,
            unlock: match self.unlock {
                Some(unlock) => Some(unlock@),
                None => None,
            },
            swap_device: text_of(self.swap_device),
        }
    }
}

impl View for Section {
    type V = SectionView;

    open spec fn view(&self) -> SectionView {
        match *self {
            Section::Header { hostname, host_id } => SectionView::Header {
                hostname: hostname@,
                host_id: host_id@,
            },
            Section::Mount { mount_point, device, fs_type } => SectionView::Mount {
                mount_point: mount_point@,
                device: device@,
                fs_type: fs_type@,
            },
            Section::Persistence => SectionView::Persistence,
            Section::Hook => SectionView::Hook,
            Section::Unlock { device, allow_discards } => SectionView::Unlock {
                device: device@,
                allow_discards,
            },
            Section::Swap { device } => SectionView::Swap { device: device@ },
            Section::Closing => SectionView::Closing,
        }
    }
}

impl DeepView for Section {
    type V = SectionView;

    open spec fn deep_view(&self) -> SectionView {
        self@
    }
}

/// The header up to the host's name.
pub const HEADER_OPENING: &'static str =
    "{ config, lib, pkgs, modulesPath, ... }:\n\n{\n  imports = [ (modulesPath + \"/installer/scan/not-detected.nix\") ];\n\n  # Host specific configuration\n  networking.hostName = \"";

/// The header between the host's name and its identifier.
pub const HEADER_HOST_ID: &'static str = "\";\n  networking.hostId = \"";

/// The header after the host's identifier: the boot loader and ZFS.
pub const HEADER_ENDING: &'static str =
    "\"; # Required for ZFS\n\n  # Bootloader\n  boot.loader.systemd-boot.enable = true;\n  boot.loader.efi.canTouchEfiVariables = true;\n\n  # File systems\n  boot.supportedFilesystems = [ \"zfs\" ];\n  boot.zfs.requestEncryptionCredentials = true;\n\n";

/// A mount entry up to its mount point.
pub const MOUNT_OPENING: &'static str = "  fileSystems.\"";

/// A mount entry between its mount point and its device.
pub const MOUNT_DEVICE: &'static str = "\" = {\n    device = \"";

/// A mount entry between its device and its file system type.
pub const MOUNT_FS_TYPE: &'static str = "\";\n    fsType = \"";

/// A mount entry after its file system type.
pub const MOUNT_ENDING: &'static str = "\";\n  };\n\n";

/// The declaration of the directories that outlive a rollback.
pub const PERSISTENCE_TEXT: &'static str =
    "  # Ensure persistent directories are properly linked\n  environment.persistence.\"/per\" = {\n    directories = [\n      \"/etc/nixos\"\n      \"/etc/ssh\"\n      \"/var/lib\"\n      \"/var/log\"\n      \"/etc/NetworkManager/system-connections\"\n    ];\n  };\n\n";

/// The boot-time commands that link the configuration into the root.
pub const HOOK_TEXT: &'static str =
    "  # Make /etc/nixos point to /per/etc/nixos\n  boot.initrd.postMountCommands = ''\n    mkdir -p /mnt-root/etc\n    ln -s /per/etc/nixos /mnt-root/etc/nixos\n  '';\n";

/// The unlock block up to the name of the volume.
pub const UNLOCK_OPENING: &'static str =
    "\n  # LUKS configuration\n  boot.initrd.luks.devices.\"";

/// The unlock block between the name of the volume and its device.
pub const UNLOCK_DEVICE: &'static str = "\" = {\n    device = \"";

/// The unlock block between its device and its trim policy.
pub const UNLOCK_DISCARDS: &'static str = "\";\n    preLVM = true;\n    allowDiscards = ";

/// The unlock block after its trim policy.
pub const UNLOCK_ENDING: &'static str = ";\n  };\n";

/// The swap block up to its device.
pub const SWAP_OPENING: &'static str = "\n  swapDevices = [\n    { device = \"";

/// The swap block after its device.
pub const SWAP_ENDING: &'static str = "\"; }\n  ];\n";

/// The end of the module.
pub const CLOSING_TEXT: &'static str = "\n}\n";

/// How a truth value is written.
pub open spec fn bool_text(value: bool) -> Seq<char> {
    if value {
        "true"@
    } else {
        "false"@
    }
}

/// The text of one section.
pub open spec fn section_text(section: SectionView) -> Seq<char> {
    match section {
        SectionView::Header { hostname, host_id } => HEADER_OPENING@ + hostname + HEADER_HOST_ID@
            + host_id + HEADER_ENDING@,
        SectionView::Mount { mount_point, device, fs_type } => MOUNT_OPENING@ + mount_point
            + MOUNT_DEVICE@ + device + MOUNT_FS_TYPE@ + fs_type + MOUNT_ENDING@,
        SectionView::Persistence => PERSISTENCE_TEXT@,
        SectionView::Hook => HOOK_TEXT@,
        SectionView::Unlock { device, allow_discards } => UNLOCK_OPENING@ + ROOT_VOLUME@
            + UNLOCK_DEVICE@ + device + UNLOCK_DISCARDS@ + bool_text(allow_discards)
            + UNLOCK_ENDING@,
        SectionView::Swap { device } => SWAP_OPENING@ + device + SWAP_ENDING@,
        SectionView::Closing => CLOSING_TEXT@,
    }
}

/// The texts of `sections`, one after the other.
pub open spec fn sections_text(sections: Seq<SectionView>) -> Seq<char>
    decreases sections.len(),
{
    if sections.len() == 0 {
        Seq::empty()
    } else {
        sections_text(sections.drop_last()) + section_text(sections.last())
    }
}

/// A mounted ZFS dataset.
pub open spec fn zfs_mount(mount_point: Seq<char>, device: Seq<char>) -> SectionView {
    SectionView::Mount { mount_point, device, fs_type: "zfs"@ }
}

/// The sections that every hardware description has: the header, the four
/// datasets and the EFI partition with their mount points, the persisted
/// directories and the boot hook.
pub open spec fn fixed_sections(config: ProvisionedConfigView) -> Seq<SectionView> {
    seq![
        SectionView::Header { hostname: config.hostname, host_id: config.host_id },
        zfs_mount("/"@, root_dataset(config.pool_name)),
        zfs_mount("/nix"@, nix_dataset(config.pool_name)),
        zfs_mount("/home"@, home_dataset(config.pool_name)),
        zfs_mount("/per"@, per_dataset(config.pool_name)),
        SectionView::Mount {
            mount_point: "/boot"@,
            device: config.boot_device,
            fs_type: "vfat"@,
        },
        SectionView::Persistence,
        SectionView::Hook,
    ]
}

/// The section that unlocks the root volume, where there is one to unlock.
pub open spec fn unlock_sections(config: ProvisionedConfigView) -> Seq<SectionView> {
    match config.unlock {
        Some(unlock) => seq![
            SectionView::Unlock { device: unlock.device, allow_discards: unlock.allow_discards },
        ],
        None => Seq::empty(),
    }
}

/// The section that declares the swap device, where there is one.
pub open spec fn swap_sections(config: ProvisionedConfigView) -> Seq<SectionView> {
    match config.swap_device {
        Some(device) => seq![SectionView::Swap { device }],
        None => Seq::empty(),
    }
}

/// The sections of the hardware description, in order.
pub open spec fn hardware_sections(config: ProvisionedConfigView) -> Seq<SectionView> {
    fixed_sections(config) + unlock_sections(config) + swap_sections(config) + seq![
        SectionView::Closing,
    ]
}

/// The text of the hardware description.
pub open spec fn hardware_configuration_text(config: ProvisionedConfigView) -> Seq<char> {
    sections_text(hardware_sections(config))
}

impl Section {
    /// Writes this section.
    pub fn render(&self) -> (r: String)
        ensures
            r@ == section_text(self@),
    {
        let mut out = String::new();
        match self {
            Section::Header { hostname, host_id } => {
                out.append(HEADER_OPENING);
                out.append(hostname.as_str());
                out.append(HEADER_HOST_ID);
                out.append(host_id.as_str());
                out.append(HEADER_ENDING);
                assert(out@ =~= section_text(self@));
            },
            Section::Mount { mount_point, device, fs_type } => {
                out.append(MOUNT_OPENING);
                out.append(mount_point.as_str());
                out.append(MOUNT_DEVICE);
                out.append(device.as_str());
                out.append(MOUNT_FS_TYPE);
                out.append(fs_type.as_str());
                out.append(MOUNT_ENDING);
                assert(out@ =~= section_text(self@));
            },
            Section::Persistence => {
                out.append(PERSISTENCE_TEXT);
                assert(out@ =~= section_text(self@));
            },
            Section::Hook => {
                out.append(HOOK_TEXT);
                assert(out@ =~= section_text(self@));
            },
            Section::Unlock { device, allow_discards } => {
                out.append(UNLOCK_OPENING);
                out.append(ROOT_VOLUME);
                out.append(UNLOCK_DEVICE);
                out.append(device.as_str());
                out.append(UNLOCK_DISCARDS);
                if *allow_discards {
                    out.append("true");
                } else {
                    out.append("false");
                }
                out.append(UNLOCK_ENDING);
                assert(out@ =~= section_text(self@));
            },
            Section::Swap { device } => {
                out.append(SWAP_OPENING);
                out.append(device.as_str());
                out.append(SWAP_ENDING);
                assert(out@ =~= section_text(self@));
            },
            Section::Closing => {
                out.append(CLOSING_TEXT);
                assert(out@ =~= section_text(self@));
            },
        }
        out
    }
}

/// Writes sections one after the other.
pub fn render_sections(sections: &Vec<Section>) -> (r: String)
    ensures
        r@ == sections_text(sections.deep_view()),
{
    let mut out = String::new();
    let mut i: usize = 0;
    assert(sections.deep_view().take(0) =~= Seq::<SectionView>::empty());
    while i < sections.len()
        invariant
            i <= sections.len(),
            out@ == sections_text(sections.deep_view().take(i as int)),
        decreases sections.len() - i,
    {
        let piece = sections[i].render();
        out.append(piece.as_str());
        assert(sections.deep_view().take(i + 1).drop_last() =~= sections.deep_view().take(
            i as int,
        ));
        i += 1;
    }
    assert(sections.deep_view().take(sections.len() as int) =~= sections.deep_view());
    out
}

impl ProvisionedConfig {
    /// The sections of the hardware description, in order.
    pub fn sections(&self) -> (r: Vec<Section>)
        ensures
            r.deep_view() == hardware_sections(self@),
    {
        let tree = DatasetTree::of_pool(self.pool_name.as_str());
        let mut out: Vec<Section> = Vec::new();
        out.push(Section::Header { hostname: self.hostname.clone(), host_id: self.host_id.clone() });
        out.push(
            Section::Mount {
                mount_point: "/".to_owned(),
                device: tree.root,
                fs_type: "zfs".to_owned(),
            },
        );
        out.push(
            Section::Mount {
                mount_point: "/nix".to_owned(),
                device: tree.nix,
                fs_type: "zfs".to_owned(),
            },
        );
        out.push(
            Section::Mount {
                mount_point: "/home".to_owned(),
                device: tree.home,
                fs_type: "zfs".to_owned(),
            },
        );
        out.push(
            Section::Mount {
                mount_point: "/per".to_owned(),
                device: tree.per,
                fs_type: "zfs".to_owned(),
            },
        );
        out.push(
            Section::Mount {
                mount_point: "/boot".to_owned(),
                device: self.boot_device.clone(),
                fs_type: "vfat".to_owned(),
            },
        );
        out.push(Section::Persistence);
        out.push(Section::Hook);
        assert(out.deep_view() =~~= fixed_sections(self@));
        if let Some(unlock) = &self.unlock {
            out.push(
                Section::Unlock {
                    device: unlock.device.clone(),
                    allow_discards: unlock.allow_discards,
                },
            );
        }
        assert(out.deep_view() =~~= fixed_sections(self@) + unlock_sections(self@));
        if let Some(device) = &self.swap_device {
            out.push(Section::Swap { device: device.clone() });
        }
        assert(out.deep_view() =~~= fixed_sections(self@) + unlock_sections(self@) + swap_sections(
            self@,
        ));
        out.push(Section::Closing);
        assert(out.deep_view() =~~= hardware_sections(self@));
        out
    }

    /// The text of the hardware description.
    pub fn render(&self) -> (r: String)
        ensures
            r@ == hardware_configuration_text(self@),
    {
        let sections = self.sections();
        render_sections(&sections)
    }
}


/// What the hardware description declares: the sections that are mounts
/// are the second to the sixth, and they mount `/`, `/nix`, `/home`, `/per`
/// and `/boot`, in this order and with the datasets of the pool and the EFI
/// partition as their devices; a section that unlocks an encrypted volume
/// is there exactly when the root partition is encrypted, and a section
/// that declares a swap device exactly when one is known; of each there is
/// at most one.
pub proof fn hardware_sections_law(config: ProvisionedConfigView)
    ensures
        ({
            let sections = hardware_sections(config);
            &&& forall|i: int|
                0 <= i < sections.len() ==> (#[trigger] sections[i] is Mount <==> 1 <= i <= 5)
            &&& sections[1] == zfs_mount("/"@, root_dataset(config.pool_name))
            &&& sections[2] == zfs_mount("/nix"@, nix_dataset(config.pool_name))
            &&& sections[3] == zfs_mount("/home"@, home_dataset(config.pool_name))
            &&& sections[4] == zfs_mount("/per"@, per_dataset(config.pool_name))
            &&& sections[5] == (SectionView::Mount {
                mount_point: "/boot"@,
                device: config.boot_device,
                fs_type: "vfat"@,
            })
            &&& (exists|i: int| 0 <= i < sections.len() && #[trigger] sections[i] is Unlock)
                <==> config.unlock is Some
            &&& (exists|i: int| 0 <= i < sections.len() && #[trigger] sections[i] is Swap)
                <==> config.swap_device is Some
            &&& forall|i: int, j: int|
                0 <= i < j < sections.len() ==> !(#[trigger] sections[i] is Unlock
                    && #[trigger] sections[j] is Unlock)
            &&& forall|i: int, j: int|
                0 <= i < j < sections.len() ==> !(#[trigger] sections[i] is Swap
                    && #[trigger] sections[j] is Swap)
        }),
{
    let sections = hardware_sections(config);
    if config.unlock is Some {
        assert(sections[8] is Unlock);
    }
    if config.swap_device is Some {
        if config.unlock is Some {
            assert(sections[9] is Swap);
        } else {
            assert(sections[8] is Swap);
        }
    }
}

/// The text of sections holds the text of each of them.
pub proof fn lemma_sections_text_holds(sections: Seq<SectionView>, i: int)
    requires
        0 <= i < sections.len(),
    ensures
        contains(sections_text(sections), section_text(sections[i])),
    decreases sections.len(),
{
    let before = sections_text(sections.drop_last());
    let last = section_text(sections.last());
    if i == sections.len() - 1 {
        lemma_contains_itself(last);
        lemma_contains_within(before, last, Seq::empty(), last);
        assert(before + last + Seq::<char>::empty() =~= sections_text(sections));
    } else {
        assert(sections.drop_last()[i] == sections[i]);
        lemma_sections_text_holds(sections.drop_last(), i);
        lemma_contains_within(Seq::empty(), before, last, section_text(sections[i]));
        assert(Seq::<char>::empty() + before + last =~= sections_text(sections));
    }
}

/// The hardware description holds what its sections declare: the text of
/// each section is a part of the text of the whole. With what is known of
/// the sections, the description holds the entries that mount `/`, `/nix`,
/// `/home`, `/per` and `/boot`, the block that unlocks the root volume
/// where it is encrypted, and the block of the swap device where one is
/// known.
pub proof fn hardware_text_holds_its_sections(config: ProvisionedConfigView)
    ensures
        forall|i: int|
            0 <= i < hardware_sections(config).len() ==> contains(
                hardware_configuration_text(config),
                section_text(#[trigger] hardware_sections(config)[i]),
            ),
        config.unlock matches Some(unlock) ==> contains(
            hardware_configuration_text(config),
            section_text(
                SectionView::Unlock {
                    device: unlock.device,
                    allow_discards: unlock.allow_discards,
                },
            ),
        ),
        config.swap_device matches Some(device) ==> contains(
            hardware_configuration_text(config),
            section_text(SectionView::Swap { device }),
        ),
{
    let sections = hardware_sections(config);
    assert forall|i: int| 0 <= i < sections.len() implies contains(
        hardware_configuration_text(config),
        section_text(#[trigger] sections[i]),
    ) by {
        lemma_sections_text_holds(sections, i);
    }
    if config.unlock is Some {
        assert(sections[8] is Unlock);
    }
    if config.swap_device is Some {
        if config.unlock is Some {
            assert(sections[9] is Swap);
        } else {
            assert(sections[8] is Swap);
        }
    }
}

/// The partition label of the EFI partition, as a device.
pub const EFI_LABEL: &'static str = "/dev/disk/by-partlabel/efi";

/// The partition label of the root partition, as a device.
pub const ROOT_LABEL: &'static str = "/dev/disk/by-partlabel/rpool";

/// The partition label of the swap partition, as a device.
pub const SWAP_LABEL: &'static str = "/dev/disk/by-partlabel/swap";

/// The stable path of `device`, given what `blkid` printed as its UUID; a
/// failure where it printed nothing.
pub open spec fn partition_uuid(device: Seq<char>, output: Seq<char>) -> Result<
    Seq<char>,
    FailureView,
> {
    if trimmed(output).len() == 0 {
        Err(FailureView::NoUuid { device })
    } else {
        Ok("/dev/disk/by-uuid/"@ + trimmed(output))
    }
}

/// The model of a path or the failure to find it.
pub open spec fn path_view(r: Result<String, Failure>) -> Result<Seq<char>, FailureView> {
    match r {
        Ok(path) => Ok(path@),
        Err(failure) => Err(failure@),
    }
}

/// The step that asks `blkid` for the UUID of `device`. What it prints
/// must be UTF-8.
pub open spec fn blkid_step(device: Seq<char>, policy: Policy, slot: Slot) -> StepView {
    capture_exact_run(
        "blkid"@,
        seq!["-s"@, "UUID"@, "-o"@, "value"@, device],
        policy,
        slot,
    )
}

/// The queries for the UUIDs of the partitions: those for the EFI and the
/// root partition must run, that for the swap partition, made where swap
/// is in use, may fail.
pub open spec fn uuid_probe_steps(use_swap: bool) -> Seq<StepView> {
    let fixed = seq![
        blkid_step(EFI_LABEL@, Policy::Started, Slot::BootUuid),
        blkid_step(ROOT_LABEL@, Policy::Started, Slot::RootUuid),
    ];
    if use_swap {
        fixed.push(blkid_step(SWAP_LABEL@, Policy::Lenient, Slot::SwapUuid))
    } else {
        fixed
    }
}

/// The swap device of the hardware description: the stable path of the
/// swap partition where swap is in use and `blkid` printed its UUID.
pub open spec fn resolved_swap(use_swap: bool, swap_output: Option<Seq<char>>) -> Option<
    Seq<char>,
> {
    match swap_output {
        Some(output) => if use_swap && trimmed(output).len() > 0 {
            Some("/dev/disk/by-uuid/"@ + trimmed(output))
        } else {
            None
        },
        None => None,
    }
}

/// What the hardware description is made from, given the names, the
/// options and what `blkid` printed for the three partitions. The EFI and
/// the root partition must have a UUID.
pub open spec fn provisioned_config(
    hostname: Seq<char>,
    host_id: Seq<char>,
    pool_name: Seq<char>,
    encrypt: bool,
    use_swap: bool,
    allow_discards: bool,
    boot_output: Seq<char>,
    root_output: Seq<char>,
    swap_output: Option<Seq<char>>,
) -> Result<ProvisionedConfigView, FailureView> {
    match partition_uuid(EFI_LABEL@, boot_output) {
        Err(failure) => Err(failure),
        Ok(boot_device) => match partition_uuid(ROOT_LABEL@, root_output) {
            Err(failure) => Err(failure),
            Ok(root_device) => Ok(
                ProvisionedConfigView {
                    hostname,
                    host_id,
                    pool_name,
                    boot_device,
                    unlock: if encrypt {
                        Some(UnlockView { device: root_device, allow_discards })
                    } else {
                        None
                    },
                    swap_device: resolved_swap(use_swap, swap_output),
                },
            ),
        },
    }
}

/// The model of a resolved configuration or the failure to resolve it.
pub open spec fn config_view(r: Result<ProvisionedConfig, Failure>) -> Result<
    ProvisionedConfigView,
    FailureView,
> {
    match r {
        Ok(config) => Ok(config@),
        Err(failure) => Err(failure@),
    }
}

/// The path of the hardware description in the directory `config_dir`.
pub open spec fn hardware_configuration_path(config_dir: Seq<char>) -> Seq<char> {
    config_dir + "/hardware-configuration.nix"@
}

/// The steps that write the hardware description into `config_dir`: the
/// directory is created, then the file written. Both must succeed.
pub open spec fn hardware_configuration_steps(
    config_dir: Seq<char>,
    config: ProvisionedConfigView,
) -> Seq<StepView> {
    seq![
        make_dir_step(config_dir),
        write_file_step(
            hardware_configuration_path(config_dir),
            hardware_configuration_text(config),
        ),
    ]
}

/// The stable path of the partition `dev_path`, given what `blkid` printed
/// as its UUID.
pub fn get_partition_uuid(dev_path: &str, output: &str) -> (r: Result<String, Failure>)
    ensures
        path_view(r) == partition_uuid(dev_path@, output@),
{
    let uuid = trim(output);
    if uuid.as_str().unicode_len() == 0 {
        Err(Failure::NoUuid { device: dev_path.to_owned() })
    } else {
        Ok(join2("/dev/disk/by-uuid/", uuid.as_str()))
    }
}

/// Plans the queries for the UUIDs of the partitions.
pub fn uuid_probes(use_swap: bool) -> (r: Vec<Step>)
    ensures
        r.deep_view() == uuid_probe_steps(use_swap),
{
    let mut steps: Vec<Step> = Vec::new();
    steps.push(
        capture_exact(
            "blkid",
            &["-s", "UUID", "-o", "value", EFI_LABEL],
            Policy::Started,
            Slot::BootUuid,
        ),
    );
    steps.push(
        capture_exact(
            "blkid",
            &["-s", "UUID", "-o", "value", ROOT_LABEL],
            Policy::Started,
            Slot::RootUuid,
        ),
    );
    if use_swap {
        steps.push(
            capture_exact(
                "blkid",
                &["-s", "UUID", "-o", "value", SWAP_LABEL],
                Policy::Lenient,
                Slot::SwapUuid,
            ),
        );
    }
    assert(steps.deep_view() =~~= uuid_probe_steps(use_swap));
    steps
}

/// Gathers what the hardware description is made from.
pub fn resolve_config(
    hostname: &str,
    host_id: &str,
    pool_name: &str,
    encrypt: bool,
    use_swap: bool,
    allow_discards: bool,
    boot_output: &str,
    root_output: &str,
    swap_output: &Option<String>,
) -> (r: Result<ProvisionedConfig, Failure>)
    ensures
        config_view(r) == provisioned_config(
            hostname@,
            host_id@,
            pool_name@,
            encrypt,
            use_swap,
            allow_discards,
            boot_output@,
            root_output@,
            text_of(*swap_output),
        ),
{
    let boot_device = get_partition_uuid(EFI_LABEL, boot_output)?;
    let root_device = get_partition_uuid(ROOT_LABEL, root_output)?;
    let swap_device = match swap_output {
        Some(output) => {
            if use_swap {
                match get_partition_uuid(SWAP_LABEL, output.as_str()) {
                    Ok(device) => Some(device),
                    Err(_) => None,
                }
            } else {
                None
            }
        },
        None => None,
    };
    let unlock = if encrypt {
        Some(Unlock { device: root_device, allow_discards })
    } else {
        None
    };
    Ok(
        ProvisionedConfig {
            hostname: hostname.to_owned(),
            host_id: host_id.to_owned(),
            pool_name: pool_name.to_owned(),
            boot_device,
            unlock,
            swap_device,
        },
    )
}

/// Plans the writing of the hardware description into `config_dir`.
pub fn update_hardware_configuration(config_dir: &str, config: &ProvisionedConfig) -> (r: Vec<
    Step,
>)
    ensures
        r.deep_view() == hardware_configuration_steps(config_dir@, config@),
{
    let path = join2(config_dir, "/hardware-configuration.nix");
    let mut steps: Vec<Step> = Vec::new();
    steps.push(make_dir(config_dir));
    steps.push(write_file(path.as_str(), config.render()));
    assert(steps.deep_view() =~~= hardware_configuration_steps(config_dir@, config@));
    steps
}


/// Where the bootstrap script is written.
pub const BOOTSTRAP_PATH: &'static str = "/mnt/per/bootstrap.sh";

/// The bootstrap script up to the first mention of the user.
pub const BOOTSTRAP_OPENING: &'static str =
    "#!/bin/sh\n# Bootstrap script for new NixOS installation\n# Generated by zfs-nixos-setup\n\necho \"Setting up persistent directories...\"\n\n# Create system directories if they don't exist\nmkdir -p /per/etc/nixos\nmkdir -p /per/etc/ssh\nmkdir -p /per/var/lib\nmkdir -p /per/var/log\nmkdir -p /per/etc/NetworkManager/system-connections\n\n# Create user directories if they don't exist\nmkdir -p /home/";

/// The bootstrap script between the user's first and second directory.
pub const BOOTSTRAP_GNUPG: &'static str = "/.ssh\nmkdir -p /home/";

/// The bootstrap script between the user's second and third directory.
pub const BOOTSTRAP_CONFIG: &'static str = "/.gnupg\nmkdir -p /home/";

/// The bootstrap script between the user's directories and their owner.
pub const BOOTSTRAP_OWNER: &'static str = "/.config\n\n# Set proper permissions\nchown -R ";

/// The bootstrap script between the user's home and the host's name.
pub const BOOTSTRAP_LINKS: &'static str =
    "\n\n# Create symlinks for persistence\nif [ ! -L /etc/nixos ]; then\n  ln -sf /per/etc/nixos /etc/nixos\nfi\n\nif [ ! -L /etc/ssh ]; then\n  ln -sf /per/etc/ssh /etc/ssh\nfi\n\n# Rebuild the system\necho \"Rebuilding NixOS...\"\nnixos-rebuild --flake /per/etc/nixos#";

/// The bootstrap script after the host's name.
pub const BOOTSTRAP_ENDING: &'static str =
    " switch\n\necho \"Setup complete! Your system is now ready.\"\necho \"Remember to change your password with 'passwd'\"\n";

/// The text of the bootstrap script: it recreates the persisted
/// directories and the directories of `username`, hands these over to
/// their user, restores the links of `/etc/nixos` and `/etc/ssh`, and
/// rebuilds the system `hostname` from the copied configuration.
pub open spec fn bootstrap_script_text(hostname: Seq<char>, username: Seq<char>) -> Seq<char> {
    BOOTSTRAP_OPENING@ + username + BOOTSTRAP_GNUPG@ + username + BOOTSTRAP_CONFIG@ + username
        + BOOTSTRAP_OWNER@ + username + ":"@ + username + " /home/"@ + username + BOOTSTRAP_LINKS@
        + hostname + BOOTSTRAP_ENDING@
}

/// The steps that write the bootstrap script and make it executable. Both
/// must succeed.
pub open spec fn bootstrap_steps(hostname: Seq<char>, username: Seq<char>) -> Seq<StepView> {
    seq![
        write_file_step(BOOTSTRAP_PATH@, bootstrap_script_text(hostname, username)),
        strict_run("chmod"@, seq!["+x"@, BOOTSTRAP_PATH@]),
    ]
}

/// What is said about the flake's host entry: a warning where the flake
/// could not be read, else the advice to add an entry for `hostname` with
/// the profile `profile`. The flake itself is left as it is.
pub open spec fn flake_hostname_steps(
    hostname: Seq<char>,
    profile: Seq<char>,
    flake_text: Option<Seq<char>>,
) -> Seq<StepView> {
    match flake_text {
        None => seq![say_step("Warning: Could not read flake.nix. Will not update hostname."@)],
        Some(_) => seq![
            say_step(
                "NOTE: You may need to update your flake.nix to use the hostname '"@ + hostname
                    + "' with the '"@ + profile + "' profile."@,
            ),
            say_step(
                "      Typically this would involve adding an entry for this host in your flake outputs section."@,
            ),
        ],
    }
}

/// Writes the bootstrap script for the system `hostname` and its user
/// `username`.
pub fn render_bootstrap_script(hostname: &str, username: &str) -> (r: String)
    ensures
        r@ == bootstrap_script_text(hostname@, username@),
{
    let mut out = String::new();
    out.append(BOOTSTRAP_OPENING);
    out.append(username);
    out.append(BOOTSTRAP_GNUPG);
    out.append(username);
    out.append(BOOTSTRAP_CONFIG);
    out.append(username);
    out.append(BOOTSTRAP_OWNER);
    out.append(username);
    out.append(":");
    out.append(username);
    out.append(" /home/");
    out.append(username);
    out.append(BOOTSTRAP_LINKS);
    out.append(hostname);
    out.append(BOOTSTRAP_ENDING);
    assert(out@ =~= bootstrap_script_text(hostname@, username@));
    out
}

/// Plans the writing of the bootstrap script. The profile takes no part in
/// the script.
pub fn create_bootstrap_script(hostname: &str, profile: &str, username: &str) -> (r: Vec<Step>)
    ensures
        r.deep_view() == bootstrap_steps(hostname@, username@),
{
    let mut steps: Vec<Step> = Vec::new();
    steps.push(write_file(BOOTSTRAP_PATH, render_bootstrap_script(hostname, username)));
    steps.push(run_command("chmod", &["+x", BOOTSTRAP_PATH]));
    assert(steps.deep_view() =~~= bootstrap_steps(hostname@, username@));
    steps
}

/// Plans what is said about the flake's host entry, given the flake's text
/// or `None` where it could not be read.
pub fn update_flake_hostname(hostname: &str, profile: &str, flake_text: &Option<String>) -> (r:
    Vec<Step>)
    ensures
        r.deep_view() == flake_hostname_steps(hostname@, profile@, text_of(*flake_text)),
{
    let mut steps: Vec<Step> = Vec::new();
    match flake_text {
        None => {
            steps.push(say("Warning: Could not read flake.nix. Will not update hostname."));
        },
        Some(_) => {
            let mut note = "NOTE: You may need to update your flake.nix to use the hostname '".to_owned();
            note.append(hostname);
            note.append("' with the '");
            note.append(profile);
            note.append("' profile.");
            steps.push(say(note.as_str()));
            steps.push(
                say(
                    "      Typically this would involve adding an entry for this host in your flake outputs section.",
                ),
            );
        },
    }
    assert(steps.deep_view() =~~= flake_hostname_steps(hostname@, profile@, text_of(*flake_text)));
    steps
}

/// Whether `c` is a digit or one of `a` to `f`.
pub open spec fn is_lower_hex(c: char) -> bool {
    let n = c as u32;
    0x30 <= n <= 0x39 || 0x61 <= n <= 0x66
}

/// Whether `s` has the shape of a hyphenated UUID in lower case: 36
/// characters, hyphens at the ninth, fourteenth, nineteenth and
/// twenty-fourth place and hexadecimal digits elsewhere.
pub open spec fn is_uuid_text(s: Seq<char>) -> bool {
    &&& s.len() == 36
    &&& forall|i: int|
        0 <= i < 36 ==> if i == 8 || i == 13 || i == 18 || i == 23 {
            #[trigger] s[i] == '-'
        } else {
            is_lower_hex(s[i])
        }
}

/// Whether `s` is a host identifier: eight hexadecimal digits in lower
/// case.
pub open spec fn is_host_id(s: Seq<char>) -> bool {
    &&& s.len() == 8
    &&& forall|i: int| 0 <= i < 8 ==> is_lower_hex(#[trigger] s[i])
}

/// `Uuid::new_v4` draws a random UUID, and the `Display` of a `Uuid`
/// writes it hyphenated in lower case. Which UUID comes out differs from
/// call to call; its shape does not. The call panics where the operating
/// system can give no random bytes.
#[verifier::external_body]
fn random_uuid_text() -> (r: String)
    ensures
        is_uuid_text(r@),
{
    uuid::Uuid::new_v4().to_string()
}

/// The host identifier taken from the text of a UUID: its first eight
/// characters.
pub fn host_id_from(uuid_text: &str) -> (r: String)
    ensures
        r@ == prefix(uuid_text@, 8),
{
    take_chars(uuid_text, 8)
}

/// A fresh host identifier: the first eight characters of a random UUID.
pub fn generate_host_id() -> (r: String)
    ensures
        is_host_id(r@),
{
    let uuid = random_uuid_text();
    let id = host_id_from(uuid.as_str());
    assert forall|i: int| 0 <= i < 8 implies is_lower_hex(#[trigger] id@[i]) by {
        assert(id@[i] == uuid@[i]);
    }
    id
}

} // verus!
