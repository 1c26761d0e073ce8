//! The scripts of the stages that join the work of several components:
//! the confirmation, the provisioning of the disk, the staging of the
//! configuration and the hand-over to the installer.

use crate::command::{
    ask, ask_step, extend_steps, make_dir, make_dir_step, no_steps, one, require_path,
    require_path_step, run_command, say, say_step, sleep, sleep_step, strict_run, symlink,
    symlink_step, Slot, Step, StepView,
};
use crate::config::{
    bootstrap_steps, create_bootstrap_script, flake_hostname_steps, update_flake_hostname,
    uuid_probe_steps, uuid_probes,
};
use crate::decimal::{decimal_text, format_decimal};
use crate::encryption::{
    luks_steps, mapped_device, mapped_path, setup_luks_encryption, setup_swap, swap_steps,
    ROOT_VOLUME, SWAP_VOLUME,
};
use crate::geometry::SECTOR_SIZE_WARNING;
use crate::layout::PartitionPlan;
use crate::mount::{
    disk_id_probe_steps, disk_id_probes, mount_filesystems, mount_steps, persist_directory_steps,
    setup_persist_directories,
};
use crate::partition::{
    create_partition_table, partition_device, partition_path, partition_table_steps,
};
use crate::pool::{create_zfs_datasets, create_zfs_pool, dataset_steps, pool_steps};
use crate::settings::{Settings, SettingsView};
use crate::text::{join2, join3, same_text, text_of, trim, trimmed};
use vstd::prelude::*;

verus! {

/// What the user has to type to let the pipeline touch the disk.
pub const CONSENT: &'static str = "YES";

/// Where the copied configuration lies under the staging root.
pub const STAGED_FLAKE_DIR: &'static str = "/mnt/per/etc/nixos";

/// The flake of the copied configuration.
pub const STAGED_FLAKE: &'static str = "/mnt/per/etc/nixos/flake.nix";

/// A size in GiB as the summary shows it.
pub open spec fn size_line(label: Seq<char>, size_gb: u32) -> Seq<char> {
    label + decimal_text(size_gb as nat) + "GB"@
}

/// The line of the summary that tells of swap.
pub open spec fn swap_line(settings: SettingsView) -> Seq<char> {
    if settings.use_swap {
        size_line("  - Swap size: "@, settings.swap_gb)
    } else {
        "  - Swap: disabled"@
    }
}

/// The line of the summary that tells of encryption.
pub open spec fn encryption_line(settings: SettingsView) -> Seq<char> {
    if settings.encrypt {
        "  - Encryption: enabled"@
    } else {
        "  - Encryption: disabled"@
    }
}

/// The line of the summary that tells of trim.
pub open spec fn trim_line(settings: SettingsView) -> Seq<char> {
    if settings.allow_discards {
        "  - Trim/discard: enabled (for SSD)"@
    } else {
        "  - Trim/discard: disabled"@
    }
}

/// The line of the summary that tells how far the run goes.
pub open spec fn mode_line(settings: SettingsView) -> Seq<char> {
    if settings.prepare_only {
        "  - Mode: Prepare disk only (no NixOS installation)"@
    } else {
        "  - Mode: Full installation"@
    }
}

/// The steps of the confirmation: the disk is shown, the settings are
/// summed up, and the user is asked for consent.
pub open spec fn confirmation_steps(settings: SettingsView, profile: Seq<char>) -> Seq<StepView> {
    seq![
        say_step("================= Disk Information ================="@),
        strict_run("lsblk"@, seq!["-dpo"@, "name,size,model,serial"@, settings.disk]),
        say_step("==================================================="@),
        say_step("WARNING: This will destroy all data on "@ + settings.disk),
        say_step("Setup details:"@),
        say_step("  - Hostname: "@ + settings.hostname),
        say_step("  - Username: "@ + settings.username),
        say_step("  - Host profile: "@ + profile),
        say_step("  - Flake source: "@ + settings.flake_source),
        say_step(size_line("  - EFI size: "@, settings.efi_gb)),
        say_step(swap_line(settings)),
        say_step(size_line("  - Reserved space: "@, settings.reserve_gb)),
        say_step(encryption_line(settings)),
        say_step(trim_line(settings)),
        say_step(mode_line(settings)),
        say_step(Seq::empty()),
        ask_step("Type YES to continue: "@, Slot::Answer),
    ]
}

/// Whether an answer gives consent: trimmed, it is the word of consent.
pub open spec fn consents(answer: Option<Seq<char>>) -> bool {
    answer matches Some(line) && trimmed(line) == CONSENT@
}

/// The device that holds the pool: the opened volume where the root
/// partition is encrypted, else the root partition itself.
pub open spec fn pool_device(settings: SettingsView) -> Seq<char> {
    if settings.encrypt {
        mapped_path(ROOT_VOLUME@)
    } else {
        partition_path(settings.disk, "2"@)
    }
}

/// The steps that encrypt the root partition, where that is asked for.
pub open spec fn root_encryption_steps(settings: SettingsView) -> Seq<StepView> {
    if settings.encrypt {
        seq![say_step("Setting up LUKS encryption..."@)] + luks_steps(
            partition_path(settings.disk, "2"@),
            ROOT_VOLUME@,
        )
    } else {
        Seq::empty()
    }
}

/// The steps that set up swap, where that is asked for: on the swap
/// partition itself, or on the volume opened on it where encryption is
/// asked for.
pub open spec fn swap_setup_steps(settings: SettingsView) -> Seq<StepView> {
    if settings.use_swap {
        let partition = partition_path(settings.disk, "3"@);
        seq![say_step("Formatting swap partition..."@)] + (if settings.encrypt {
            luks_steps(partition, SWAP_VOLUME@) + swap_steps(mapped_path(SWAP_VOLUME@))
        } else {
            swap_steps(partition)
        })
    } else {
        Seq::empty()
    }
}

/// The warning that is due where the sector size was assumed.
pub open spec fn sector_warning_steps(assumed: bool) -> Seq<StepView> {
    if assumed {
        seq![say_step(SECTOR_SIZE_WARNING@)]
    } else {
        Seq::empty()
    }
}

/// The steps between the partition table and what is made on it: the
/// kernel reads the table again, the pipeline waits for the device nodes,
/// and the EFI partition is given its file system.
pub open spec fn refresh_steps(disk: Seq<char>) -> Seq<StepView> {
    seq![
        say_step("Updating partition table..."@),
        strict_run("partprobe"@, seq![disk]),
        sleep_step(2),
        say_step("Formatting EFI partition..."@),
        strict_run("mkfs.vfat"@, seq!["-F32"@, partition_path(disk, "1"@)]),
    ]
}

/// The steps that turn the blank disk into the mounted file systems of the
/// new system: partition table, EFI file system, encryption, swap, pool,
/// datasets and mounts, in this order, and last the queries for the
/// partitions' stable names.
pub open spec fn provision_steps(
    settings: SettingsView,
    pool: Seq<char>,
    plan: PartitionPlan,
    assumed_sector_size: bool,
) -> Seq<StepView> {
    let efi_part = partition_path(settings.disk, "1"@);
    let zfs_part = partition_path(settings.disk, "2"@);
    sector_warning_steps(assumed_sector_size) + seq![say_step("Creating partition table..."@)]
        + partition_table_steps(settings.disk, plan) + refresh_steps(settings.disk)
        + root_encryption_steps(settings) + swap_setup_steps(settings) + seq![
        say_step("Creating ZFS pool with 'erase your darlings' layout..."@),
    ] + pool_steps(pool_device(settings), pool) + seq![
        say_step("Creating datasets and blank snapshot..."@),
    ] + dataset_steps(pool) + seq![say_step("Mounting filesystems..."@)] + mount_steps(
        efi_part,
        pool,
    ) + seq![say_step("\nDisk by-id paths (useful for configuration):"@)] + disk_id_probe_steps(
        efi_part,
        zfs_part,
    )
}

/// The directory of the host's configuration in the copied tree.
pub open spec fn host_config_dir(profile: Seq<char>) -> Seq<char> {
    "/mnt/per/etc/nixos/hosts/"@ + profile
}

/// The steps that copy the configuration tree, which must exist, link it
/// under the staging root and create the directory of the host.
pub open spec fn copy_steps(settings: SettingsView, profile: Seq<char>) -> Seq<StepView> {
    seq![
        say_step("\nSetting up NixOS configuration..."@),
        require_path_step(settings.flake_source),
        make_dir_step(STAGED_FLAKE_DIR@),
        say_step("Copying flake configuration from "@ + settings.flake_source + "..."@),
        strict_run(
            "rsync"@,
            seq![
                "-av"@,
                "--exclude='.git'"@,
                "--exclude='result'"@,
                settings.flake_source + "/"@,
                "/mnt/per/etc/nixos/"@,
            ],
        ),
        make_dir_step("/mnt/etc"@),
        symlink_step("/per/etc/nixos"@, "/mnt/etc/nixos"@),
        make_dir_step(host_config_dir(profile)),
    ]
}

/// The steps that stage the configuration: the persisted directories, the
/// copy of the configuration tree, and the queries for the partitions'
/// UUIDs.
pub open spec fn staging_steps(settings: SettingsView, profile: Seq<char>) -> Seq<StepView> {
    seq![say_step("\nSetting up persistent directory structure..."@)] + persist_directory_steps(
        settings.username,
    ) + copy_steps(settings, profile) + uuid_probe_steps(settings.use_swap)
}

/// What the installer is told to install.
pub open spec fn flake_target(hostname: Seq<char>) -> Seq<char> {
    "/mnt/per/etc/nixos#"@ + hostname
}

/// The steps that hand over to the installer, unless the run only
/// prepares the disk: the flake must be there, and the installer must
/// succeed.
pub open spec fn install_steps(settings: SettingsView) -> Seq<StepView> {
    if settings.prepare_only {
        Seq::empty()
    } else {
        seq![
            say_step("\nInstalling NixOS..."@),
            require_path_step(STAGED_FLAKE@),
            say_step(
                "Running: nixos-install --option pure-eval no --flake "@ + flake_target(
                    settings.hostname,
                ) + " /mnt"@,
            ),
            strict_run(
                "nixos-install"@,
                seq![
                    "--option"@,
                    "pure-eval"@,
                    "no"@,
                    "--flake"@,
                    flake_target(settings.hostname),
                    "/mnt"@,
                ],
            ),
        ]
    }
}

/// What the user is told to do next.
pub open spec fn next_step_lines(settings: SettingsView) -> Seq<StepView> {
    if settings.prepare_only {
        seq![
            say_step(
                "1. Complete the installation: nixos-install --flake "@ + flake_target(
                    settings.hostname,
                ),
            ),
        ]
    } else {
        seq![
            say_step("1. Reboot into your new system"@),
            say_step("2. Run the bootstrap script: /per/bootstrap.sh"@),
        ]
    }
}

/// What the user is told once everything is done, up to the next steps.
pub open spec fn success_steps() -> Seq<StepView> {
    seq![
        say_step("\n==================== SUCCESS ===================="@),
        say_step("ZFS setup and NixOS installation complete!"@),
        say_step("\nYour ZFS layout:"@),
        strict_run("zfs"@, seq!["list"@]),
        say_step("\nNext steps:"@),
    ]
}

/// The last words of the run.
pub open spec fn farewell_steps() -> Seq<StepView> {
    seq![
        say_step("\nSee /mnt/per/bootstrap.sh for more details"@),
        say_step("================================================="@),
    ]
}

/// The steps that close the run: the layout is shown and the user told
/// what to do next.
pub open spec fn closing_steps(settings: SettingsView) -> Seq<StepView> {
    success_steps() + next_step_lines(settings) + farewell_steps()
}

/// The steps of the last stage: the advice on the flake's host entry, the
/// bootstrap script, the installer and the closing words.
pub open spec fn final_steps(
    settings: SettingsView,
    profile: Seq<char>,
    flake_text: Option<Seq<char>>,
) -> Seq<StepView> {
    flake_hostname_steps(settings.hostname, profile, flake_text) + bootstrap_steps(
        settings.hostname,
        settings.username,
    ) + install_steps(settings) + closing_steps(settings)
}

/// A size in GiB as the summary shows it.
fn show_size(label: &str, size_gb: u32) -> (r: String)
    ensures
        r@ == size_line(label@, size_gb),
{
    join3(label, format_decimal(size_gb as u128).as_str(), "GB")
}

/// Plans the confirmation.
pub fn plan_confirmation(settings: &Settings, profile: &str) -> (r: Vec<Step>)
    ensures
        r.deep_view() == confirmation_steps(settings@, profile@),
{
    let mut steps: Vec<Step> = Vec::new();
    steps.push(say("================= Disk Information ================="));
    steps.push(run_command("lsblk", &["-dpo", "name,size,model,serial", settings.disk.as_str()]));
    steps.push(say("==================================================="));
    steps.push(
        say(join2("WARNING: This will destroy all data on ", settings.disk.as_str()).as_str()),
    );
    steps.push(say("Setup details:"));
    steps.push(say(join2("  - Hostname: ", settings.hostname.as_str()).as_str()));
    steps.push(say(join2("  - Username: ", settings.username.as_str()).as_str()));
    steps.push(say(join2("  - Host profile: ", profile).as_str()));
    steps.push(say(join2("  - Flake source: ", settings.flake_source.as_str()).as_str()));
    steps.push(say(show_size("  - EFI size: ", settings.efi_gb).as_str()));
    if settings.use_swap {
        steps.push(say(show_size("  - Swap size: ", settings.swap_gb).as_str()));
    } else {
        steps.push(say("  - Swap: disabled"));
    }
    steps.push(say(show_size("  - Reserved space: ", settings.reserve_gb).as_str()));
    if settings.encrypt {
        steps.push(say("  - Encryption: enabled"));
    } else {
        steps.push(say("  - Encryption: disabled"));
    }
    if settings.allow_discards {
        steps.push(say("  - Trim/discard: enabled (for SSD)"));
    } else {
        steps.push(say("  - Trim/discard: disabled"));
    }
    if settings.prepare_only {
        steps.push(say("  - Mode: Prepare disk only (no NixOS installation)"));
    } else {
        steps.push(say("  - Mode: Full installation"));
    }
    let blank = String::new();
    steps.push(say(blank.as_str()));
    steps.push(ask("Type YES to continue: ", Slot::Answer));
    assert(steps.deep_view() =~~= confirmation_steps(settings@, profile@));
    steps
}

/// Tells whether an answer gives consent.
pub fn is_consent(answer: &Option<String>) -> (r: bool)
    ensures
        r == consents(text_of(*answer)),
{
    match answer {
        Some(line) => same_text(trim(line.as_str()).as_str(), CONSENT),
        None => false,
    }
}

/// Plans the warning that is due where the sector size was assumed.
fn plan_sector_warning(assumed: bool) -> (r: Vec<Step>)
    ensures
        r.deep_view() == sector_warning_steps(assumed),
{
    if assumed {
        one(say(SECTOR_SIZE_WARNING))
    } else {
        no_steps()
    }
}

/// Plans the steps between the partition table and what is made on it.
fn plan_refresh(disk: &str) -> (r: Vec<Step>)
    ensures
        r.deep_view() == refresh_steps(disk@),
{
    let efi_part = partition_device(disk, "1");
    let mut steps: Vec<Step> = Vec::new();
    steps.push(say("Updating partition table..."));
    steps.push(run_command("partprobe", &[disk]));
    steps.push(sleep(2));
    steps.push(say("Formatting EFI partition..."));
    steps.push(run_command("mkfs.vfat", &["-F32", efi_part.as_str()]));
    assert(steps.deep_view() =~~= refresh_steps(disk@));
    steps
}

/// Plans the encryption of the root partition.
fn plan_root_encryption(settings: &Settings) -> (r: Vec<Step>)
    ensures
        r.deep_view() == root_encryption_steps(settings@),
{
    if settings.encrypt {
        let zfs_part = partition_device(settings.disk.as_str(), "2");
        let mut steps = one(say("Setting up LUKS encryption..."));
        extend_steps(&mut steps, setup_luks_encryption(zfs_part.as_str(), ROOT_VOLUME));
        steps
    } else {
        no_steps()
    }
}

/// Plans the setting up of swap.
fn plan_swap_setup(settings: &Settings) -> (r: Vec<Step>)
    ensures
        r.deep_view() == swap_setup_steps(settings@),
{
    if settings.use_swap {
        let swap_part = partition_device(settings.disk.as_str(), "3");
        let mut steps = one(say("Formatting swap partition..."));
        if settings.encrypt {
            let mut inner = setup_luks_encryption(swap_part.as_str(), SWAP_VOLUME);
            extend_steps(&mut inner, setup_swap(mapped_device(SWAP_VOLUME).as_str()));
            extend_steps(&mut steps, inner);
        } else {
            extend_steps(&mut steps, setup_swap(swap_part.as_str()));
        }
        steps
    } else {
        no_steps()
    }
}

/// Plans the provisioning of the disk.
pub fn plan_provision(
    settings: &Settings,
    pool_name: &str,
    plan: &PartitionPlan,
    assumed_sector_size: bool,
) -> (r: Vec<Step>)
    ensures
        r.deep_view() == provision_steps(settings@, pool_name@, *plan, assumed_sector_size),
{
    let disk = settings.disk.as_str();
    let efi_part = partition_device(disk, "1");
    let zfs_part = partition_device(disk, "2");
    let zfs_device = if settings.encrypt {
        mapped_device(ROOT_VOLUME)
    } else {
        partition_device(disk, "2")
    };
    let mut steps = plan_sector_warning(assumed_sector_size);
    extend_steps(&mut steps, one(say("Creating partition table...")));
    extend_steps(&mut steps, create_partition_table(disk, plan));
    extend_steps(&mut steps, plan_refresh(disk));
    extend_steps(&mut steps, plan_root_encryption(settings));
    extend_steps(&mut steps, plan_swap_setup(settings));
    extend_steps(
        &mut steps,
        one(say("Creating ZFS pool with 'erase your darlings' layout...")),
    );
    extend_steps(&mut steps, create_zfs_pool(zfs_device.as_str(), pool_name));
    extend_steps(&mut steps, one(say("Creating datasets and blank snapshot...")));
    extend_steps(&mut steps, create_zfs_datasets(pool_name));
    extend_steps(&mut steps, one(say("Mounting filesystems...")));
    extend_steps(&mut steps, mount_filesystems(efi_part.as_str(), pool_name));
    extend_steps(&mut steps, one(say("\nDisk by-id paths (useful for configuration):")));
    extend_steps(&mut steps, disk_id_probes(efi_part.as_str(), zfs_part.as_str()));
    steps
}

/// The directory of the host's configuration in the copied tree.
pub fn host_directory(profile: &str) -> (r: String)
    ensures
        r@ == host_config_dir(profile@),
{
    join2("/mnt/per/etc/nixos/hosts/", profile)
}

/// Plans the copy of the configuration tree.
fn plan_copy(settings: &Settings, profile: &str) -> (r: Vec<Step>)
    ensures
        r.deep_view() == copy_steps(settings@, profile@),
{
    let source = settings.flake_source.as_str();
    let mut steps: Vec<Step> = Vec::new();
    steps.push(say("\nSetting up NixOS configuration..."));
    steps.push(require_path(source));
    steps.push(make_dir(STAGED_FLAKE_DIR));
    steps.push(say(join3("Copying flake configuration from ", source, "...").as_str()));
    steps.push(
        run_command(
            "rsync",
            &[
                "-av",
                "--exclude='.git'",
                "--exclude='result'",
                join2(source, "/").as_str(),
                "/mnt/per/etc/nixos/",
            ],
        ),
    );
    steps.push(make_dir("/mnt/etc"));
    steps.push(symlink("/per/etc/nixos", "/mnt/etc/nixos"));
    steps.push(make_dir(host_directory(profile).as_str()));
    assert(steps.deep_view() =~~= copy_steps(settings@, profile@));
    steps
}

/// Plans the staging of the configuration.
pub fn plan_staging(settings: &Settings, profile: &str) -> (r: Vec<Step>)
    ensures
        r.deep_view() == staging_steps(settings@, profile@),
{
    let mut steps = one(say("\nSetting up persistent directory structure..."));
    extend_steps(&mut steps, setup_persist_directories(settings.username.as_str()));
    extend_steps(&mut steps, plan_copy(settings, profile));
    extend_steps(&mut steps, uuid_probes(settings.use_swap));
    steps
}

/// Plans the hand-over to the installer.
fn plan_install(settings: &Settings) -> (r: Vec<Step>)
    ensures
        r.deep_view() == install_steps(settings@),
{
    if settings.prepare_only {
        no_steps()
    } else {
        let target = join2("/mnt/per/etc/nixos#", settings.hostname.as_str());
        let mut steps: Vec<Step> = Vec::new();
        steps.push(say("\nInstalling NixOS..."));
        steps.push(require_path(STAGED_FLAKE));
        steps.push(
            say(
                join3(
                    "Running: nixos-install --option pure-eval no --flake ",
                    target.as_str(),
                    " /mnt",
                ).as_str(),
            ),
        );
        steps.push(
            run_command(
                "nixos-install",
                &["--option", "pure-eval", "no", "--flake", target.as_str(), "/mnt"],
            ),
        );
        assert(steps.deep_view() =~~= install_steps(settings@));
        steps
    }
}

/// Plans the closing of the run.
fn plan_closing(settings: &Settings) -> (r: Vec<Step>)
    ensures
        r.deep_view() == closing_steps(settings@),
{
    let mut steps: Vec<Step> = Vec::new();
    steps.push(say("\n==================== SUCCESS ===================="));
    steps.push(say("ZFS setup and NixOS installation complete!"));
    steps.push(say("\nYour ZFS layout:"));
    steps.push(run_command("zfs", &["list"]));
    steps.push(say("\nNext steps:"));
    assert(steps.deep_view() =~~= success_steps());
    let mut next: Vec<Step> = Vec::new();
    if settings.prepare_only {
        let target = join2("/mnt/per/etc/nixos#", settings.hostname.as_str());
        next.push(
            say(
                join2("1. Complete the installation: nixos-install --flake ", target.as_str()).as_str(),
            ),
        );
    } else {
        next.push(say("1. Reboot into your new system"));
        next.push(say("2. Run the bootstrap script: /per/bootstrap.sh"));
    }
    assert(next.deep_view() =~~= next_step_lines(settings@));
    let mut last: Vec<Step> = Vec::new();
    last.push(say("\nSee /mnt/per/bootstrap.sh for more details"));
    last.push(say("================================================="));
    assert(last.deep_view() =~~= farewell_steps());
    extend_steps(&mut steps, next);
    extend_steps(&mut steps, last);
    steps
}

/// Plans the last stage.
pub fn plan_final(settings: &Settings, profile: &str, flake_text: &Option<String>) -> (r: Vec<
    Step,
>)
    ensures
        r.deep_view() == final_steps(settings@, profile@, text_of(*flake_text)),
{
    let hostname = settings.hostname.as_str();
    let mut steps = update_flake_hostname(hostname, profile, flake_text);
    extend_steps(
        &mut steps,
        create_bootstrap_script(hostname, profile, settings.username.as_str()),
    );
    extend_steps(&mut steps, plan_install(settings));
    extend_steps(&mut steps, plan_closing(settings));
    steps
}

} // verus!
