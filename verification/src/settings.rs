//! What the pipeline is told before it starts, and what it learns on its
//! way.

use crate::command::Slot;
use crate::text::text_of;
use vstd::prelude::*;

verus! {

/// The parameters of one run, as the caller has settled them.
#[derive(Debug, PartialEq, Eq)]
pub struct Settings {
    /// The disk to provision.
    pub disk: String,
    /// The name of the new system.
    pub hostname: String,
    /// The user of the new system.
    pub username: String,
    /// The identifier that ZFS asks of the new system.
    pub host_id: String,
    /// The size of the swap partition in GiB.
    pub swap_gb: u32,
    /// The size of the EFI partition in GiB.
    pub efi_gb: u32,
    /// The space left unallocated at the end of the disk, in GiB.
    pub reserve_gb: u32,
    /// Whether the root and swap partitions are encrypted.
    pub encrypt: bool,
    /// Whether a swap partition is made.
    pub use_swap: bool,
    /// Whether trim requests reach the disk.
    pub allow_discards: bool,
    /// The directory of the configuration to copy.
    pub flake_source: String,
    /// The host profile, where the caller names one.
    pub profile: Option<String>,
    /// Whether to stop before the installer.
    pub prepare_only: bool,
}

/// The model of `Settings`.
pub struct SettingsView {
    pub disk: Seq<char>,
    pub hostname: Seq<char>,
    pub username: Seq<char>,
    pub host_id: Seq<char>,
    pub swap_gb: u32,
    pub efi_gb: u32,
    pub reserve_gb: u32,
    pub encrypt: bool,
    pub use_swap: bool,
    pub allow_discards: bool,
    pub flake_source: Seq<char>,
    pub profile: Option<Seq<char>>,
    pub prepare_only: bool,
}

impl View for Settings {
    type V = SettingsView;

    open spec fn view(&self) -> SettingsView {
        SettingsView {
            disk: self.disk@,
            hostname: self.hostname@,
            username: self.username@,
            host_id: self.host_id@,
            swap_gb: self.swap_gb,
            efi_gb: self.efi_gb,
            reserve_gb: self.reserve_gb,
            encrypt: self.encrypt,
            use_swap: self.use_swap,
            allow_discards: self.allow_discards,
            flake_source: self.flake_source@,
            profile: text_of(self.profile),
            prepare_only: self.prepare_only,
        }
    }
}

/// What the pipeline has gathered: for each slot the output kept there, or
/// `None` where nothing was gathered or the gathering failed.
#[derive(Debug, PartialEq, Eq)]
pub struct Facts {
    pub chassis: Option<String>,
    pub vendor: Option<String>,
    pub product: Option<String>,
    pub answer: Option<String>,
    pub hostname: Option<String>,
    pub serial: Option<String>,
    pub disk_uuid: Option<String>,
    pub partitions: Option<String>,
    pub size_bytes: Option<String>,
    pub sector_size: Option<String>,
    pub sectors: Option<String>,
    pub efi_path: Option<String>,
    pub efi_listing: Option<String>,
    pub root_path: Option<String>,
    pub root_listing: Option<String>,
    pub boot_uuid: Option<String>,
    pub root_uuid: Option<String>,
    pub swap_uuid: Option<String>,
    pub flake_text: Option<String>,
}

/// The model of `Facts`.
pub struct FactsView {
    pub chassis: Option<Seq<char>>,
    pub vendor: Option<Seq<char>>,
    pub product: Option<Seq<char>>,
    pub answer: Option<Seq<char>>,
    pub hostname: Option<Seq<char>>,
    pub serial: Option<Seq<char>>,
    pub disk_uuid: Option<Seq<char>>,
    pub partitions: Option<Seq<char>>,
    pub size_bytes: Option<Seq<char>>,
    pub sector_size: Option<Seq<char>>,
    pub sectors: Option<Seq<char>>,
    pub efi_path: Option<Seq<char>>,
    pub efi_listing: Option<Seq<char>>,
    pub root_path: Option<Seq<char>>,
    pub root_listing: Option<Seq<char>>,
    pub boot_uuid: Option<Seq<char>>,
    pub root_uuid: Option<Seq<char>>,
    pub swap_uuid: Option<Seq<char>>,
    pub flake_text: Option<Seq<char>>,
}

impl View for Facts {
    type V = FactsView;

    open spec fn view(&self) -> FactsView {
        FactsView {
            chassis: text_of(self.chassis),
            vendor: text_of(self.vendor),
            product: text_of(self.product),
            answer: text_of(self.answer),
            hostname: text_of(self.hostname),
            serial: text_of(self.serial),
            disk_uuid: text_of(self.disk_uuid),
            partitions: text_of(self.partitions),
            size_bytes: text_of(self.size_bytes),
            sector_size: text_of(self.sector_size),
            sectors: text_of(self.sectors),
            efi_path: text_of(self.efi_path),
            efi_listing: text_of(self.efi_listing),
            root_path: text_of(self.root_path),
            root_listing: text_of(self.root_listing),
            boot_uuid: text_of(self.boot_uuid),
            root_uuid: text_of(self.root_uuid),
            swap_uuid: text_of(self.swap_uuid),
            flake_text: text_of(self.flake_text),
        }
    }
}

/// The facts before anything is gathered.
pub open spec fn no_facts() -> FactsView {
    FactsView {
        chassis: None,
        vendor: None,
        product: None,
        answer: None,
        hostname: None,
        serial: None,
        disk_uuid: None,
        partitions: None,
        size_bytes: None,
        sector_size: None,
        sectors: None,
        efi_path: None,
        efi_listing: None,
        root_path: None,
        root_listing: None,
        boot_uuid: None,
        root_uuid: None,
        swap_uuid: None,
        flake_text: None,
    }
}

/// The facts after `value` is kept in `slot`; nothing changes where the
/// slot is `Nowhere`.
pub open spec fn recorded(facts: FactsView, slot: Slot, value: Option<Seq<char>>) -> FactsView {
    match slot {
        Slot::Nowhere => facts,
        Slot::Chassis => FactsView { chassis: value, ..facts },
        Slot::Vendor => FactsView { vendor: value, ..facts },
        Slot::Product => FactsView { product: value, ..facts },
        Slot::Answer => FactsView { answer: value, ..facts },
        Slot::Hostname => FactsView { hostname: value, ..facts },
        Slot::Serial => FactsView { serial: value, ..facts },
        Slot::DiskUuid => FactsView { disk_uuid: value, ..facts },
        Slot::Partitions => FactsView { partitions: value, ..facts },
        Slot::SizeBytes => FactsView { size_bytes: value, ..facts },
        Slot::SectorSize => FactsView { sector_size: value, ..facts },
        Slot::Sectors => FactsView { sectors: value, ..facts },
        Slot::EfiPath => FactsView { efi_path: value, ..facts },
        Slot::EfiListing => FactsView { efi_listing: value, ..facts },
        Slot::RootPath => FactsView { root_path: value, ..facts },
        Slot::RootListing => FactsView { root_listing: value, ..facts },
        Slot::BootUuid => FactsView { boot_uuid: value, ..facts },
        Slot::RootUuid => FactsView { root_uuid: value, ..facts },
        Slot::SwapUuid => FactsView { swap_uuid: value, ..facts },
        Slot::FlakeText => FactsView { flake_text: value, ..facts },
    }
}

impl Facts {
    /// The facts before anything is gathered.
    pub fn new() -> (r: Facts)
        ensures
            r@ == no_facts(),
    {
        Facts {
            chassis: None,
            vendor: None,
            product: None,
            answer: None,
            hostname: None,
            serial: None,
            disk_uuid: None,
            partitions: None,
            size_bytes: None,
            sector_size: None,
            sectors: None,
            efi_path: None,
            efi_listing: None,
            root_path: None,
            root_listing: None,
            boot_uuid: None,
            root_uuid: None,
            swap_uuid: None,
            flake_text: None,
        }
    }

    /// Keeps `value` in `slot`.
    pub fn record(&mut self, slot: Slot, value: Option<String>)
        ensures
            final(self)@ == recorded(old(self)@, slot, text_of(value)),
    {
        match slot {
            Slot::Nowhere => {},
            Slot::Chassis => {
                self.chassis = value;
            },
            Slot::Vendor => {
                self.vendor = value;
            },
            Slot::Product => {
                self.product = value;
            },
            Slot::Answer => {
                self.answer = value;
            },
            Slot::Hostname => {
                self.hostname = value;
            },
            Slot::Serial => {
                self.serial = value;
            },
            Slot::DiskUuid => {
                self.disk_uuid = value;
            },
            Slot::Partitions => {
                self.partitions = value;
            },
            Slot::SizeBytes => {
                self.size_bytes = value;
            },
            Slot::SectorSize => {
                self.sector_size = value;
            },
            Slot::Sectors => {
                self.sectors = value;
            },
            Slot::EfiPath => {
                self.efi_path = value;
            },
            Slot::EfiListing => {
                self.efi_listing = value;
            },
            Slot::RootPath => {
                self.root_path = value;
            },
            Slot::RootListing => {
                self.root_listing = value;
            },
            Slot::BootUuid => {
                self.boot_uuid = value;
            },
            Slot::RootUuid => {
                self.root_uuid = value;
            },
            Slot::SwapUuid => {
                self.swap_uuid = value;
            },
            Slot::FlakeText => {
                self.flake_text = value;
            },
        }
    }
}

} // verus!
