//! The mount orchestrator: the datasets and the EFI partition mounted
//! under the staging root, the directories that persist, and the report of
//! the partitions' stable names.

use crate::command::{
    capture_exact, capture_exact_run, make_dir, make_dir_step, run_command, say, say_step, settled_view,
    strict_run, Failure, FailureView, Policy, Slot, Step, StepView,
};
use crate::pool::{home_dataset, nix_dataset, per_dataset, root_dataset, DatasetTree};
use crate::text::{
    contains, join2, join3, lines, lines_of, text_contains, text_of, trim, trimmed,
};
use vstd::prelude::*;

verus! {

/// Where the new system is assembled.
pub const STAGING_ROOT: &'static str = "/mnt";

/// The step that mounts the dataset `dataset` at `target`.
pub open spec fn mount_dataset_step(dataset: Seq<char>, target: Seq<char>) -> StepView {
    strict_run("mount"@, seq!["-t"@, "zfs"@, dataset, target])
}

/// The steps that mount the file systems of the new system: the staging
/// root is created and the root dataset mounted on it; only then are the
/// mount points of the others created under it, and the EFI partition and
/// the three lasting datasets mounted on them. Each must succeed.
pub open spec fn mount_steps(efi_part: Seq<char>, pool: Seq<char>) -> Seq<StepView> {
    seq![
        make_dir_step(STAGING_ROOT@),
        mount_dataset_step(root_dataset(pool), STAGING_ROOT@),
        make_dir_step("/mnt/boot"@),
        make_dir_step("/mnt/nix"@),
        make_dir_step("/mnt/home"@),
        make_dir_step("/mnt/per"@),
        strict_run("mount"@, seq![efi_part, "/mnt/boot"@]),
        mount_dataset_step(nix_dataset(pool), "/mnt/nix"@),
        mount_dataset_step(home_dataset(pool), "/mnt/home"@),
        mount_dataset_step(per_dataset(pool), "/mnt/per"@),
    ]
}

/// The home directory of `username` under the staging root.
pub open spec fn staged_home(username: Seq<char>) -> Seq<char> {
    "/mnt/home/"@ + username
}

/// The steps that lay out the directories that persist and the home of
/// `username`, and hand the home over to its user. Each must succeed.
pub open spec fn persist_directory_steps(username: Seq<char>) -> Seq<StepView> {
    seq![
        make_dir_step("/mnt/per/etc"@),
        make_dir_step("/mnt/per/etc/nixos"@),
        make_dir_step("/mnt/per/var/lib"@),
        make_dir_step("/mnt/per/var/log"@),
        make_dir_step("/mnt/per/etc/ssh"@),
        make_dir_step("/mnt/per/etc/NetworkManager/system-connections"@),
        make_dir_step(staged_home(username)),
        make_dir_step(staged_home(username) + "/.ssh"@),
        make_dir_step(staged_home(username) + "/.gnupg"@),
        make_dir_step(staged_home(username) + "/.config"@),
        strict_run("chown"@, seq!["-R"@, username + ":"@ + username, staged_home(username)]),
    ]
}

/// Plans the mounting of the file systems of the new system.
pub fn mount_filesystems(efi_part: &str, pool_name: &str) -> (r: Vec<Step>)
    ensures
        r.deep_view() == mount_steps(efi_part@, pool_name@),
{
    let tree = DatasetTree::of_pool(pool_name);
    let mut steps: Vec<Step> = Vec::new();
    steps.push(make_dir(STAGING_ROOT));
    steps.push(run_command("mount", &["-t", "zfs", tree.root.as_str(), STAGING_ROOT]));
    steps.push(make_dir("/mnt/boot"));
    steps.push(make_dir("/mnt/nix"));
    steps.push(make_dir("/mnt/home"));
    steps.push(make_dir("/mnt/per"));
    steps.push(run_command("mount", &[efi_part, "/mnt/boot"]));
    steps.push(run_command("mount", &["-t", "zfs", tree.nix.as_str(), "/mnt/nix"]));
    steps.push(run_command("mount", &["-t", "zfs", tree.home.as_str(), "/mnt/home"]));
    steps.push(run_command("mount", &["-t", "zfs", tree.per.as_str(), "/mnt/per"]));
    assert(steps.deep_view() =~~= mount_steps(efi_part@, pool_name@));
    steps
}

/// Plans the directories that persist and the home of `username`.
pub fn setup_persist_directories(username: &str) -> (r: Vec<Step>)
    ensures
        r.deep_view() == persist_directory_steps(username@),
{
    let home = join2("/mnt/home/", username);
    let ssh = join2(home.as_str(), "/.ssh");
    let gnupg = join2(home.as_str(), "/.gnupg");
    let config = join2(home.as_str(), "/.config");
    let owner = join3(username, ":", username);
    let mut steps: Vec<Step> = Vec::new();
    steps.push(make_dir("/mnt/per/etc"));
    steps.push(make_dir("/mnt/per/etc/nixos"));
    steps.push(make_dir("/mnt/per/var/lib"));
    steps.push(make_dir("/mnt/per/var/log"));
    steps.push(make_dir("/mnt/per/etc/ssh"));
    steps.push(make_dir("/mnt/per/etc/NetworkManager/system-connections"));
    steps.push(make_dir(home.as_str()));
    steps.push(make_dir(ssh.as_str()));
    steps.push(make_dir(gnupg.as_str()));
    steps.push(make_dir(config.as_str()));
    steps.push(run_command("chown", &["-R", owner.as_str(), home.as_str()]));
    assert(steps.deep_view() =~~= persist_directory_steps(username@));
    steps
}


/// The last component of a path, as `Path::file_name` gives it.
pub uninterp spec fn file_name_of(path: Seq<char>) -> Option<Seq<char>>;

/// `Path::file_name` returns the final component of a path, if there is
/// one; it depends on nothing but the path. The path is given as a string,
/// so the component is a string too and is handed on as it is.
#[verifier::external_body]
fn file_name(path: &str) -> (r: Option<String>)
    ensures
        text_of(r) == file_name_of(path@),
{
    match std::path::Path::new(path).file_name() {
        Some(name) => Some(name.to_string_lossy().into_owned()),
        None => None,
    }
}

/// The first of `lines` that holds `needle`.
pub open spec fn first_line_with(lines: Seq<Seq<char>>, needle: Seq<char>) -> Option<Seq<char>>
    decreases lines.len(),
{
    if lines.len() == 0 {
        None
    } else if contains(lines[0], needle) {
        Some(lines[0])
    } else {
        first_line_with(lines.drop_first(), needle)
    }
}

/// What is reported of the partition `part`, given its file name and the
/// listing of `/dev/disk/by-id`: the partition and the first line of the
/// listing that holds the name, if there is one.
pub open spec fn disk_id_line(part: Seq<char>, name: Seq<char>, listing: Seq<char>) -> Option<
    Seq<char>,
> {
    match first_line_with(lines_of(listing), name) {
        Some(line) => Some(part + " -> "@ + line),
        None => None,
    }
}

/// What is reported of the partition `part`, given what `readlink -f`
/// printed for it and the listing of `/dev/disk/by-id`. A resolved path
/// without a last component is a failure.
pub open spec fn disk_id_report(
    part: Seq<char>,
    path_output: Seq<char>,
    listing: Seq<char>,
) -> Result<Option<Seq<char>>, FailureView> {
    match file_name_of(trimmed(path_output)) {
        Some(name) => Ok(disk_id_line(part, name, listing)),
        None => Err(FailureView::NoFileName { path: trimmed(path_output) }),
    }
}

/// The queries behind the report: for each of the two partitions, its
/// resolved path and the listing of `/dev/disk/by-id`. Each must run and
/// print UTF-8.
pub open spec fn disk_id_probe_steps(efi_part: Seq<char>, zfs_part: Seq<char>) -> Seq<StepView> {
    seq![
        capture_exact_run("readlink"@, seq!["-f"@, efi_part], Policy::Started, Slot::EfiPath),
        capture_exact_run(
            "ls"@,
            seq!["-l"@, "/dev/disk/by-id"@],
            Policy::Started,
            Slot::EfiListing,
        ),
        capture_exact_run("readlink"@, seq!["-f"@, zfs_part], Policy::Started, Slot::RootPath),
        capture_exact_run(
            "ls"@,
            seq!["-l"@, "/dev/disk/by-id"@],
            Policy::Started,
            Slot::RootListing,
        ),
    ]
}

/// The line of `listing` to report for the partition `part` whose file
/// name is `name`.
pub fn find_disk_id(part: &str, name: &str, listing: &str) -> (r: Option<String>)
    ensures
        text_of(r) == disk_id_line(part@, name@, listing@),
{
    let all = lines(listing);
    let mut i: usize = 0;
    assert(all.deep_view().skip(0) =~= all.deep_view());
    while i < all.len()
        invariant
            i <= all.len(),
            all.deep_view() == lines_of(listing@),
            first_line_with(all.deep_view(), name@) == first_line_with(
                all.deep_view().skip(i as int),
                name@,
            ),
        decreases all.len() - i,
    {
        assert(all.deep_view().skip(i as int).drop_first() =~= all.deep_view().skip(i + 1));
        assert(all.deep_view().skip(i as int)[0] == all[i as int]@);
        if text_contains(all[i].as_str(), name) {
            return Some(join3(part, " -> ", all[i].as_str()));
        }
        i += 1;
    }
    None
}

/// The report of one partition: `Ok` with the line to print, if any, or
/// the failure to name the partition's file.
pub fn report_disk_id(part: &str, path_output: &str, listing: &str) -> (r: Result<
    Option<String>,
    Failure,
>)
    ensures
        settled_view(r) == disk_id_report(part@, path_output@, listing@),
{
    let resolved = trim(path_output);
    match file_name(resolved.as_str()) {
        Some(name) => Ok(find_disk_id(part, name.as_str(), listing)),
        None => Err(Failure::NoFileName { path: resolved }),
    }
}

/// Plans the queries behind the report of the partitions' stable names.
pub fn disk_id_probes(efi_part: &str, zfs_part: &str) -> (r: Vec<Step>)
    ensures
        r.deep_view() == disk_id_probe_steps(efi_part@, zfs_part@),
{
    let mut steps: Vec<Step> = Vec::new();
    steps.push(capture_exact("readlink", &["-f", efi_part], Policy::Started, Slot::EfiPath));
    steps.push(capture_exact("ls", &["-l", "/dev/disk/by-id"], Policy::Started, Slot::EfiListing));
    steps.push(capture_exact("readlink", &["-f", zfs_part], Policy::Started, Slot::RootPath));
    steps.push(
        capture_exact("ls", &["-l", "/dev/disk/by-id"], Policy::Started, Slot::RootListing),
    );
    assert(steps.deep_view() =~~= disk_id_probe_steps(efi_part@, zfs_part@));
    steps
}

/// The lines to print of the two partitions, the EFI partition first.
pub open spec fn disk_id_steps(
    efi_part: Seq<char>,
    efi_path: Seq<char>,
    efi_listing: Seq<char>,
    zfs_part: Seq<char>,
    zfs_path: Seq<char>,
    zfs_listing: Seq<char>,
) -> Result<Seq<StepView>, FailureView> {
    match disk_id_report(efi_part, efi_path, efi_listing) {
        Err(failure) => Err(failure),
        Ok(first) => match disk_id_report(zfs_part, zfs_path, zfs_listing) {
            Err(failure) => Err(failure),
            Ok(second) => Ok(said(first) + said(second)),
        },
    }
}

/// The step that prints `line`, if there is one.
pub open spec fn said(line: Option<Seq<char>>) -> Seq<StepView> {
    match line {
        Some(text) => seq![say_step(text)],
        None => Seq::empty(),
    }
}

/// The model of a planned script or the failure to plan it.
pub open spec fn script_view(r: Result<Vec<Step>, Failure>) -> Result<Seq<StepView>, FailureView> {
    match r {
        Ok(steps) => Ok(steps.deep_view()),
        Err(failure) => Err(failure@),
    }
}

/// Plans the report of the partitions' names under `/dev/disk/by-id`, from
/// what `readlink -f` printed for each partition and the listings of that
/// directory.
pub fn show_disk_by_id(
    efi_part: &str,
    efi_path: &str,
    efi_listing: &str,
    zfs_part: &str,
    zfs_path: &str,
    zfs_listing: &str,
) -> (r: Result<Vec<Step>, Failure>)
    ensures
        script_view(r) == disk_id_steps(
            efi_part@,
            efi_path@,
            efi_listing@,
            zfs_part@,
            zfs_path@,
            zfs_listing@,
        ),
{
    let first = report_disk_id(efi_part, efi_path, efi_listing)?;
    let second = report_disk_id(zfs_part, zfs_path, zfs_listing)?;
    let mut steps: Vec<Step> = Vec::new();
    if let Some(line) = first {
        steps.push(say(line.as_str()));
    }
    if let Some(line) = second {
        steps.push(say(line.as_str()));
    }
    assert(steps.deep_view() =~~= said(text_of(first)) + said(
        text_of(second),
    ));
    Ok(steps)
}

} // verus!
