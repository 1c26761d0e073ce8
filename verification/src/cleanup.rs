//! Idempotent cleanup: the teardown of what an earlier run left on the
//! disk.
//!
//! Every step is lenient, so cleanup ends the same way whether or not
//! there was anything to tear down.

use crate::command::{
    capture_command, capture_run, lenient_run, say, say_step, settle, sleep, sleep_step,
    try_command, EventView, Policy, Slot, Step, StepView,
};
use crate::text::{
    contains, first_word, first_word_of, join2, join3, lines, lines_of, text_contains, text_of,
};
use vstd::prelude::*;

verus! {

/// The columns of the partition listing: the device, what kind of device
/// it is, and what file system it holds.
pub const LISTING_COLUMNS: &'static str = "NAME,TYPE,FSTYPE";

/// Whether a line of the partition listing names a swap partition: it
/// tells of a partition, `part`, and of swap, `swap`.
pub open spec fn is_swap_line(line: Seq<char>) -> bool {
    contains(line, "part"@) && contains(line, "swap"@)
}

/// The device names, each the first word of its line, of the swap
/// partitions among `lines`, in order.
pub open spec fn swap_partition_names(lines: Seq<Seq<char>>) -> Seq<Seq<char>>
    decreases lines.len(),
{
    if lines.len() == 0 {
        Seq::empty()
    } else {
        let before = swap_partition_names(lines.drop_last());
        if is_swap_line(lines.last()) {
            before.push(first_word(lines.last()))
        } else {
            before
        }
    }
}

/// The step that deactivates the swap partition `device`.
pub open spec fn swapoff_step(device: Seq<char>) -> StepView {
    lenient_run("sudo"@, seq!["swapoff"@, "-v"@, device])
}

/// The steps that deactivate the swap partitions `devices`, in order.
pub open spec fn swapoff_steps(devices: Seq<Seq<char>>) -> Seq<StepView> {
    Seq::new(devices.len(), |i: int| swapoff_step(devices[i]))
}

/// The first steps of cleanup: say so, destroy the pool `pool` and list the
/// partitions of `disk` with their kind and their file system.
pub open spec fn cleanup_probe_steps(disk: Seq<char>, pool: Seq<char>) -> Seq<StepView> {
    seq![
        say_step("Cleaning up any existing setup..."@),
        lenient_run("sudo"@, seq!["zpool"@, "destroy"@, "-f"@, pool]),
        capture_run(
            "lsblk"@,
            seq!["-nlpo"@, LISTING_COLUMNS@, disk],
            Policy::Lenient,
            Slot::Partitions,
        ),
    ]
}

/// The last steps of cleanup: unmount every partition of `disk`, wipe its
/// signatures, and have the kernel read the partition table again three
/// times, a second apart.
pub open spec fn teardown_steps(disk: Seq<char>) -> Seq<StepView> {
    let reread = lenient_run("sudo"@, seq!["blockdev"@, "--rereadpt"@, disk]);
    seq![
        lenient_run("sudo"@, seq!["umount"@, "-A"@, "--recursive"@, disk + "*"@]),
        say_step("Clearing all signatures on "@ + disk + "..."@),
        lenient_run("sudo"@, seq!["wipefs"@, "-a"@, "-f"@, disk]),
        reread,
        sleep_step(1),
        reread,
        sleep_step(1),
        reread,
        sleep_step(1),
    ]
}

/// The listing that cleanup works on: empty where it could not be read.
pub open spec fn listing_text(listing: Option<Seq<char>>) -> Seq<char> {
    match listing {
        Some(text) => text,
        None => Seq::empty(),
    }
}

/// The steps of cleanup that follow the partition listing: deactivate each
/// swap partition that the listing names, then tear down.
pub open spec fn cleanup_steps(disk: Seq<char>, listing: Option<Seq<char>>) -> Seq<StepView> {
    swapoff_steps(swap_partition_names(lines_of(listing_text(listing)))) + teardown_steps(disk)
}

/// The device names of the swap partitions that a partition listing names.
pub fn swap_partitions(listing: &str) -> (r: Vec<String>)
    ensures
        r.deep_view() == swap_partition_names(lines_of(listing@)),
{
    let all = lines(listing);
    let mut out: Vec<String> = Vec::new();
    let mut i: usize = 0;
    assert(all.deep_view().take(0) =~= Seq::<Seq<char>>::empty());
    assert(out.deep_view() =~= Seq::<Seq<char>>::empty());
    while i < all.len()
        invariant
            i <= all.len(),
            out.deep_view() == swap_partition_names(all.deep_view().take(i as int)),
        decreases all.len() - i,
    {
        let line = all[i].as_str();
        let ghost before = out.deep_view();
        assert(all.deep_view().take(i + 1).drop_last() =~= all.deep_view().take(i as int));
        assert(all.deep_view().take(i + 1).last() == line@);
        if text_contains(line, "part") && text_contains(line, "swap") {
            out.push(first_word_of(line));
            assert(out.deep_view() =~= before.push(first_word(line@)));
        }
        i += 1;
    }
    assert(all.deep_view().take(all.len() as int) =~= all.deep_view());
    out
}

/// Plans the first steps of cleanup.
pub fn cleanup_probes(disk: &str, pool_name: &str) -> (r: Vec<Step>)
    ensures
        r.deep_view() == cleanup_probe_steps(disk@, pool_name@),
{
    let mut steps: Vec<Step> = Vec::new();
    steps.push(say("Cleaning up any existing setup..."));
    steps.push(try_command("sudo", &["zpool", "destroy", "-f", pool_name]));
    steps.push(
        capture_command(
            "lsblk",
            &["-nlpo", LISTING_COLUMNS, disk],
            Policy::Lenient,
            Slot::Partitions,
        ),
    );
    assert(steps.deep_view() =~~= cleanup_probe_steps(disk@, pool_name@));
    steps
}

/// Plans the deactivation of the swap partition `device`.
fn swapoff(device: &str) -> (r: Step)
    ensures
        r@ == swapoff_step(device@),
{
    let step = try_command("sudo", &["swapoff", "-v", device]);
    assert(step@ =~~= swapoff_step(device@));
    step
}

/// Plans the steps of cleanup that follow the partition listing.
pub fn cleanup_existing_setup(disk: &str, listing: &Option<String>) -> (r: Vec<Step>)
    ensures
        r.deep_view() == cleanup_steps(disk@, text_of(*listing)),
{
    let devices = match listing {
        Some(text) => swap_partitions(text.as_str()),
        None => Vec::new(),
    };
    let ghost names = swap_partition_names(lines_of(listing_text(text_of(*listing))));
    assert(devices.deep_view() =~= names);
    let mut steps: Vec<Step> = Vec::new();
    let mut i: usize = 0;
    while i < devices.len()
        invariant
            i <= devices.len(),
            devices.deep_view() == names,
            steps.deep_view() == swapoff_steps(names.take(i as int)),
        decreases devices.len() - i,
    {
        let ghost before = steps.deep_view();
        steps.push(swapoff(devices[i].as_str()));
        assert(steps.deep_view() =~= before.push(swapoff_step(devices[i as int]@)));
        assert(swapoff_steps(names.take(i + 1)) =~= swapoff_steps(names.take(i as int)).push(
            swapoff_step(names[i as int]),
        ));
        i += 1;
    }
    assert(names.take(devices.len() as int) =~= names);
    let ghost head = steps.deep_view();
    let target = join2(disk, "*");
    let notice = join3("Clearing all signatures on ", disk, "...");
    steps.push(try_command("sudo", &["umount", "-A", "--recursive", target.as_str()]));
    steps.push(say(notice.as_str()));
    steps.push(try_command("sudo", &["wipefs", "-a", "-f", disk]));
    steps.push(try_command("sudo", &["blockdev", "--rereadpt", disk]));
    steps.push(sleep(1));
    steps.push(try_command("sudo", &["blockdev", "--rereadpt", disk]));
    steps.push(sleep(1));
    steps.push(try_command("sudo", &["blockdev", "--rereadpt", disk]));
    steps.push(sleep(1));
    assert(steps.deep_view() =~~= head + teardown_steps(disk@));
    steps
}


/// The whole of cleanup for a disk whose partition listing reads
/// `listing`.
pub open spec fn whole_cleanup(
    disk: Seq<char>,
    pool: Seq<char>,
    listing: Option<Seq<char>>,
) -> Seq<StepView> {
    cleanup_probe_steps(disk, pool) + cleanup_steps(disk, listing)
}

/// Whether every one of `steps` settles without failure when the step at
/// each place is answered by the event at that place.
pub open spec fn all_settle(steps: Seq<StepView>, events: Seq<EventView>) -> bool {
    forall|i: int|
        0 <= i < steps.len() && i < events.len() ==> (#[trigger] settle(steps[i], events[i])) is Ok
}

/// Cleanup bears every failure, so it can be run again and again: every
/// step of cleanup is lenient, whatever the disk's partition listing reads,
/// and a lenient step settles without failure whatever becomes of its
/// action. Two cleanups in a row of the same disk, whatever the first left
/// behind for the second to list, therefore stop the pipeline at no step,
/// however their steps are answered.
pub proof fn cleanup_never_fails(
    disk: Seq<char>,
    pool: Seq<char>,
    first_listing: Option<Seq<char>>,
    second_listing: Option<Seq<char>>,
    events: Seq<EventView>,
)
    ensures
        forall|i: int|
            0 <= i < whole_cleanup(disk, pool, first_listing).len() ==> (#[trigger] whole_cleanup(
                disk,
                pool,
                first_listing,
            )[i]).policy == Policy::Lenient,
        all_settle(
            whole_cleanup(disk, pool, first_listing) + whole_cleanup(disk, pool, second_listing),
            events,
        ),
{
    let first = whole_cleanup(disk, pool, first_listing);
    let second = whole_cleanup(disk, pool, second_listing);
    lemma_cleanup_is_lenient(disk, pool, first_listing);
    lemma_cleanup_is_lenient(disk, pool, second_listing);
    assert forall|i: int| 0 <= i < (first + second).len() && i < events.len() implies (
    #[trigger] settle((first + second)[i], events[i])) is Ok by {
        if i < first.len() {
            assert((first + second)[i] == first[i]);
        } else {
            assert((first + second)[i] == second[i - first.len()]);
        }
    }
}

/// Every step of cleanup is lenient.
proof fn lemma_cleanup_is_lenient(disk: Seq<char>, pool: Seq<char>, listing: Option<Seq<char>>)
    ensures
        forall|i: int|
            0 <= i < whole_cleanup(disk, pool, listing).len() ==> (#[trigger] whole_cleanup(
                disk,
                pool,
                listing,
            )[i]).policy == Policy::Lenient,
{
    let probes = cleanup_probe_steps(disk, pool);
    let names = swap_partition_names(lines_of(listing_text(listing)));
    let swapoffs = swapoff_steps(names);
    let teardown = teardown_steps(disk);
    let whole = whole_cleanup(disk, pool, listing);
    assert forall|i: int| 0 <= i < whole.len() implies (#[trigger] whole[i]).policy
        == Policy::Lenient by {
        if i < probes.len() {
            assert(whole[i] == probes[i]);
        } else if i < probes.len() + swapoffs.len() {
            assert(whole[i] == swapoffs[i - probes.len()]);
        } else {
            assert(whole[i] == teardown[i - probes.len() - swapoffs.len()]);
        }
    }
}

} // verus!
