//! What holds of every run of the pipeline, however its actions are
//! answered.

use crate::cleanup::{
    cleanup_never_fails, cleanup_probe_steps, cleanup_steps, listing_text, swap_partition_names,
    swapoff_steps, teardown_steps, whole_cleanup,
};
use crate::command::{
    make_dir_step, require_path_step, say_step, settle, ActionView, EventView, FailureView,
    OutcomeView, Policy, Slot, StepView,
};
use crate::encryption::{luks_steps, mapped_path, swap_steps, ROOT_VOLUME, SWAP_VOLUME};
use crate::geometry::sector_size_of;
use crate::layout::PartitionPlan;
use crate::mount::{disk_id_probe_steps, mount_dataset_step, mount_steps, STAGING_ROOT};
use crate::partition::{partition_path, partition_table_steps};
use crate::pipeline::{
    absorb, advance, initial, next, partition_plan_of, pool_of, script, Phase, PipelineView,
};
use crate::pool::{dataset_steps, pool_steps, root_dataset};
use crate::settings::{FactsView, SettingsView};
use crate::stages::{
    consents, pool_device, provision_steps, refresh_steps, root_encryption_steps,
    sector_warning_steps, swap_setup_steps, CONSENT,
};
use crate::text::{lines_of, trimmed};
use vstd::prelude::*;

verus! {

/// The actions handed out in answer to `events`, one for each, by a run
/// that is in `state`.
pub open spec fn answers(state: PipelineView, events: Seq<EventView>) -> Seq<ActionView>
    decreases events.len(),
{
    if events.len() == 0 {
        Seq::empty()
    } else {
        seq![next(state, events[0]).1] + answers(next(state, events[0]).0, events.drop_first())
    }
}

/// The actions of a run with the given settings whose actions are answered
/// by `events`: the action at each place is answered by the event at that
/// place, and the last action is not answered.
pub open spec fn actions_of(settings: SettingsView, events: Seq<EventView>) -> Seq<ActionView> {
    seq![advance(initial(settings)).1] + answers(advance(initial(settings)).0, events)
}

/// Every event is answered by one action.
pub proof fn lemma_answers_len(state: PipelineView, events: Seq<EventView>)
    ensures
        answers(state, events).len() == events.len(),
    decreases events.len(),
{
    if events.len() > 0 {
        lemma_answers_len(next(state, events[0]).0, events.drop_first());
    }
}

/// Whether an action changes nothing on the machine: it prints, asks,
/// waits, looks whether a path exists or ends the run, or it runs one of
/// the two programs that only report, `lsblk` and `dmidecode`.
pub open spec fn changes_nothing(action: ActionView) -> bool {
    match action {
        ActionView::Say { .. } => true,
        ActionView::Ask { .. } => true,
        ActionView::Probe { .. } => true,
        ActionView::Sleep { .. } => true,
        ActionView::Finish { .. } => true,
        ActionView::Run { program, .. } => program == "lsblk"@,
        ActionView::Capture { program, .. } => program == "dmidecode"@,
        _ => false,
    }
}

/// Whether an action runs the partitioning program.
pub open spec fn partitions(action: ActionView) -> bool {
    action matches ActionView::Run { program, .. } && program == "parted"@
}

/// Whether an action ends the run as completed.
pub open spec fn completes(action: ActionView) -> bool {
    action matches ActionView::Finish { outcome } && outcome is Completed
}

/// Whether an answer gives consent: a line was read that, trimmed, is the
/// word of consent.
pub open spec fn gives_consent(event: EventView) -> bool {
    event matches EventView::Done { output, .. } && trimmed(output) == CONSENT@
}

/// Whether a step changes nothing, does not end the run, and can keep an
/// answer only if it asks for one.
spec fn harmless(step: StepView) -> bool {
    &&& changes_nothing(step.action)
    &&& !(step.action is Finish)
    &&& step.slot == Slot::Answer ==> step.action is Ask
}

/// Whether a run has ended without being completed, or is in a stage
/// before consent with nothing ahead but harmless steps and without consent
/// so far.
spec fn before_consent(state: PipelineView) -> bool {
    ||| state.outcome matches Some(outcome) && !(outcome is Completed)
    ||| {
        &&& state.outcome is None
        &&& state.phase.rank() <= 4
        &&& !consents(state.facts.answer)
        &&& forall|i: int| 0 <= i < state.pending.len() ==> harmless(#[trigger] state.pending[i])
        &&& state.current matches Some(step) ==> harmless(step)
    }
}

/// Whether `action` is what the run in `state` awaits the answer to.
spec fn awaits(state: PipelineView, action: ActionView) -> bool {
    state.outcome is None ==> (state.current matches Some(step) && step.action == action)
}

/// The stages up to the confirmation plan nothing but harmless steps.
proof fn lemma_early_scripts(phase: Phase, settings: SettingsView, facts: FactsView)
    requires
        1 <= phase.rank() <= 4,
    ensures
        script(phase, settings, facts) is Ok,
        forall|i: int|
            0 <= i < script(phase, settings, facts)->Ok_0.len() ==> harmless(
                #[trigger] script(phase, settings, facts)->Ok_0[i],
            ),
{
}

/// From a state before consent whose last action is answered, the next
/// action changes nothing, and the state stays before consent.
proof fn lemma_advance_before_consent(state: PipelineView)
    requires
        before_consent(state),
        state.outcome is None ==> state.current is None,
    ensures
        before_consent(advance(state).0),
        changes_nothing(advance(state).1),
        !completes(advance(state).1),
        awaits(advance(state).0, advance(state).1),
    decreases 14 - state.phase.rank(),
{
    if state.outcome is Some {
    } else if state.pending.len() > 0 {
        assert(harmless(state.pending[0]));
        assert forall|i: int| 0 <= i < state.pending.drop_first().len() implies harmless(
            #[trigger] state.pending.drop_first()[i],
        ) by {
            assert(state.pending.drop_first()[i] == state.pending[i + 1]);
        }
    } else {
        let phase = state.phase.following()->0;
        if phase.rank() <= 4 {
            lemma_early_scripts(phase, state.settings, state.facts);
            let steps = script(phase, state.settings, state.facts)->Ok_0;
            lemma_advance_before_consent(PipelineView { phase, pending: steps, ..state });
        }
    }
}

/// From a state before consent, an answer that gives no consent where one
/// was asked for leads to an action that changes nothing, and the state
/// stays before consent.
proof fn lemma_next_before_consent(state: PipelineView, event: EventView)
    requires
        before_consent(state),
        state.outcome is None && (state.current matches Some(step) && step.action is Ask)
            ==> !gives_consent(event),
    ensures
        before_consent(next(state, event).0),
        changes_nothing(next(state, event).1),
        !completes(next(state, event).1),
        awaits(next(state, event).0, next(state, event).1),
{
    lemma_advance_before_consent(absorb(state, event));
}

/// The actions handed out from a state before consent change nothing, as
/// long as no answer to a question gives consent.
proof fn lemma_answers_before_consent(
    state: PipelineView,
    last: ActionView,
    events: Seq<EventView>,
)
    requires
        before_consent(state),
        awaits(state, last),
        forall|k: int|
            0 <= k < events.len() && (#[trigger] (seq![last] + answers(state, events))[k]) is Ask
                ==> !gives_consent(events[k]),
    ensures
        forall|k: int|
            0 <= k < answers(state, events).len() ==> changes_nothing(
                #[trigger] answers(state, events)[k],
            ) && !completes(answers(state, events)[k]),
    decreases events.len(),
{
    if events.len() > 0 {
        let after = next(state, events[0]).0;
        let action = next(state, events[0]).1;
        let rest = events.drop_first();
        lemma_answers_len(state, events);
        lemma_answers_len(after, rest);
        assert(answers(state, events) == seq![action] + answers(after, rest));
        assert((seq![last] + answers(state, events))[0] == last);
        lemma_next_before_consent(state, events[0]);
        assert forall|k: int|
            0 <= k < rest.len() && (#[trigger] (seq![action] + answers(after, rest))[k]) is Ask
            implies !gives_consent(rest[k]) by {
            assert((seq![action] + answers(after, rest))[k] == (seq![last] + answers(
                state,
                events,
            ))[k + 1]);
            assert(rest[k] == events[k + 1]);
        }
        lemma_answers_before_consent(after, action, rest);
        assert forall|k: int| 0 <= k < answers(state, events).len() implies changes_nothing(
            #[trigger] answers(state, events)[k],
        ) && !completes(answers(state, events)[k]) by {
            if k > 0 {
                assert(answers(state, events)[k] == answers(after, rest)[k - 1]);
            }
        }
    }
}

/// Nothing is changed without consent: in a run in which no answer to a
/// question gives consent, whatever else the answers are, every action
/// changes nothing. No directory is made, no file written, and no program
/// run but `lsblk` and `dmidecode`; in particular the partitioning program
/// is never run. Such a run is never completed: where it ends, it ends as
/// aborted or failed.
pub proof fn nothing_changes_without_consent(settings: SettingsView, events: Seq<EventView>)
    requires
        forall|k: int|
            0 <= k < events.len() && (#[trigger] actions_of(settings, events)[k]) is Ask
                ==> !gives_consent(events[k]),
    ensures
        forall|k: int|
            0 <= k < actions_of(settings, events).len() ==> {
                &&& changes_nothing(#[trigger] actions_of(settings, events)[k])
                &&& !partitions(actions_of(settings, events)[k])
                &&& !completes(actions_of(settings, events)[k])
            },
{
    let first_state = advance(initial(settings)).0;
    let first = advance(initial(settings)).1;
    lemma_advance_before_consent(initial(settings));
    lemma_answers_len(first_state, events);
    assert(actions_of(settings, events) == seq![first] + answers(first_state, events));
    lemma_answers_before_consent(first_state, first, events);
    assert forall|k: int| 0 <= k < actions_of(settings, events).len() implies {
        &&& changes_nothing(#[trigger] actions_of(settings, events)[k])
        &&& !partitions(actions_of(settings, events)[k])
        &&& !completes(actions_of(settings, events)[k])
    } by {
        if k > 0 {
            assert(actions_of(settings, events)[k] == answers(first_state, events)[k - 1]);
        }
        reveal_strlit("parted");
        reveal_strlit("lsblk");
        assert("parted"@.len() != "lsblk"@.len());
    }
}

/// An answer without consent ends the run: where the run awaits the answer
/// to its question and a line is read that gives no consent, the next
/// action finishes the run as aborted, and the run has ended.
pub proof fn refusal_aborts(state: PipelineView, event: EventView)
    requires
        state.outcome is None,
        state.phase == Phase::Confirm,
        state.pending.len() == 0,
        state.current matches Some(step) && step.action is Ask && step.slot == Slot::Answer,
        event matches EventView::Done { success, .. } && success,
        !gives_consent(event),
    ensures
        next(state, event).1 == (ActionView::Finish { outcome: OutcomeView::Aborted }),
        next(state, event).0.outcome == Some(OutcomeView::Aborted),
{
    let settled = absorb(state, event);
    assert(!consents(settled.facts.answer));
    assert(settled.phase.following() == Some(Phase::Identity));
}


/// The disk must exist: the first action of every run looks whether the
/// disk exists, and unless the answer is that it does, the run ends at once
/// as failed; where the answer is that it does not, the failure names the
/// disk as missing.
pub proof fn disk_must_exist(settings: SettingsView, event: EventView)
    ensures
        actions_of(settings, seq![event])[0] == (ActionView::Probe { path: settings.disk }),
        !succeeded(event) ==> actions_of(settings, seq![event])[1] is Finish && actions_of(
            settings,
            seq![event],
        )[1]->outcome is Failed,
        event matches EventView::Done { success, .. } && !success ==> actions_of(
            settings,
            seq![event],
        )[1] == (ActionView::Finish {
            outcome: OutcomeView::Failed {
                failure: FailureView::Missing { path: settings.disk },
            },
        }),
{
    reveal_with_fuel(advance, 3);
    reveal_with_fuel(answers, 2);
    let first_state = advance(initial(settings)).0;
    let events = seq![event];
    assert(script(Phase::Preflight, settings, initial(settings).facts)->Ok_0[0]
        == require_path_step(settings.disk));
    assert(first_state.current == Some(require_path_step(settings.disk)));
    assert(events.drop_first() =~= Seq::<EventView>::empty());
    assert(answers(first_state, events) =~= seq![next(first_state, event).1]);
}

/// The first failure ends the run: where the step whose answer is awaited
/// does not bear the answer, the next action finishes the run as failed
/// with that step's failure, and no step of the run is taken after it.
pub proof fn failure_ends_the_run(state: PipelineView, event: EventView)
    requires
        state.outcome is None,
        state.current matches Some(step) && settle(step, event) is Err,
    ensures
        next(state, event).1 == (ActionView::Finish {
            outcome: OutcomeView::Failed { failure: settle(state.current->0, event)->Err_0 },
        }),
        next(state, event).0.outcome == Some(
            OutcomeView::Failed { failure: settle(state.current->0, event)->Err_0 },
        ),
        next(state, event).0.pending == state.pending,
{
}

/// The steps of a stage are taken in their order: where the step whose
/// answer is awaited bears the answer and the stage has steps left, the
/// next action is that of the first step left, the steps after it are left
/// as they are, and the stage stays the same.
pub proof fn steps_are_taken_in_order(state: PipelineView, event: EventView)
    requires
        state.outcome is None,
        state.current matches Some(step) && settle(step, event) is Ok,
        state.pending.len() > 0,
    ensures
        next(state, event).1 == state.pending[0].action,
        next(state, event).0.current == Some(state.pending[0]),
        next(state, event).0.pending == state.pending.drop_first(),
        next(state, event).0.phase == state.phase,
        next(state, event).0.outcome is None,
{
}

/// The stages follow each other: a run never goes back to an earlier
/// stage.
pub proof fn stages_never_go_back(state: PipelineView, event: EventView)
    ensures
        state.phase.rank() <= next(state, event).0.phase.rank(),
{
    lemma_advance_goes_on(absorb(state, event));
}

/// Handing out the next action never leads to an earlier stage.
proof fn lemma_advance_goes_on(state: PipelineView)
    ensures
        state.phase.rank() <= advance(state).0.phase.rank(),
    decreases 14 - state.phase.rank(),
{
    if state.outcome is None && state.pending.len() == 0 {
        if let Some(phase) = state.phase.following() {
            if let Ok(steps) = script(phase, state.settings, state.facts) {
                lemma_advance_goes_on(PipelineView { phase, pending: steps, ..state });
            }
        }
    }
}

/// A run that has ended stays ended: whatever it is told, it finishes
/// again with the same outcome and changes nothing of its state.
pub proof fn ended_run_stays_ended(state: PipelineView, event: EventView)
    requires
        state.outcome is Some,
    ensures
        next(state, event).0 == state,
        next(state, event).1 == (ActionView::Finish { outcome: state.outcome->0 }),
{
}

/// A lenient step bears every answer, and a strict step bears nothing but
/// success.
pub proof fn policies_decide(step: StepView, event: EventView)
    ensures
        step.policy == Policy::Lenient ==> settle(step, event) is Ok,
        step.policy == Policy::Strict ==> (settle(step, event) is Ok <==> succeeded(event)),
        step.policy == Policy::Started ==> (settle(step, event) is Ok <==> event is Done),
{
}

/// The stages of cleanup cannot fail: the two stages that tear down what
/// an earlier run left are always planned, and every step they plan is
/// lenient, whatever the settings are and whatever was gathered before. So
/// no answer to a step of cleanup ends the run, be it the first cleanup of
/// a disk or one that follows another.
pub proof fn cleanup_stages_are_lenient(settings: SettingsView, facts: FactsView)
    ensures
        script(Phase::Destroy, settings, facts) == Ok::<Seq<StepView>, OutcomeView>(
            cleanup_probe_steps(settings.disk, pool_of(facts)),
        ),
        script(Phase::Teardown, settings, facts) == Ok::<Seq<StepView>, OutcomeView>(
            cleanup_steps(settings.disk, facts.partitions),
        ),
        forall|i: int, event: EventView|
            0 <= i < cleanup_probe_steps(settings.disk, pool_of(facts)).len() ==> (#[trigger] settle(
                cleanup_probe_steps(settings.disk, pool_of(facts))[i],
                event,
            )) is Ok,
        forall|i: int, event: EventView|
            0 <= i < cleanup_steps(settings.disk, facts.partitions).len() ==> (#[trigger] settle(
                cleanup_steps(settings.disk, facts.partitions)[i],
                event,
            )) is Ok,
{
    let probes = cleanup_probe_steps(settings.disk, pool_of(facts));
    let rest = cleanup_steps(settings.disk, facts.partitions);
    let whole = whole_cleanup(settings.disk, pool_of(facts), facts.partitions);
    cleanup_never_fails(
        settings.disk,
        pool_of(facts),
        facts.partitions,
        facts.partitions,
        Seq::empty(),
    );
    assert forall|i: int, event: EventView| 0 <= i < probes.len() implies (#[trigger] settle(
        probes[i],
        event,
    )) is Ok by {
        assert(whole[i] == probes[i]);
    }
    assert forall|i: int, event: EventView| 0 <= i < rest.len() implies (#[trigger] settle(
        rest[i],
        event,
    )) is Ok by {
        assert(whole[i + probes.len()] == rest[i]);
    }
}

/// Whether a path lies under the staging root.
pub open spec fn under_staging_root(path: Seq<char>) -> bool {
    path.len() > 5 && path.take(5) == "/mnt/"@
}

/// Whether an action makes or fills something under the staging root: it
/// creates a directory, writes a file or makes a link there, or mounts a
/// file system on a directory there.
pub open spec fn works_under_staging_root(action: ActionView) -> bool {
    match action {
        ActionView::MakeDir { path } => under_staging_root(path),
        ActionView::WriteFile { path, .. } => under_staging_root(path),
        ActionView::Symlink { link, .. } => under_staging_root(link),
        ActionView::Run { program, args } => program == "mount"@ && args.len() > 0
            && under_staging_root(args.last()),
        _ => false,
    }
}

/// Whether an action mounts the root dataset of a pool on the staging
/// root.
pub open spec fn mounts_root(action: ActionView) -> bool {
    exists|pool: Seq<char>| action == #[trigger] mount_dataset_step(root_dataset(pool), STAGING_ROOT@).action
}

/// Whether an answer tells of success.
pub open spec fn succeeded(event: EventView) -> bool {
    event matches EventView::Done { success, .. } && success
}

/// Whether a step mounts the root dataset and must succeed.
spec fn root_step(step: StepView) -> bool {
    mounts_root(step.action) && step.policy == Policy::Strict
}

/// Whether an action mounts a file system.
pub open spec fn runs_mount(action: ActionView) -> bool {
    action matches ActionView::Run { program, .. } && program == "mount"@
}

/// Whether none of `steps` mounts anything or works under the staging
/// root.
spec fn quiet(steps: Seq<StepView>) -> bool {
    forall|j: int|
        0 <= j < steps.len() ==> !works_under_staging_root((#[trigger] steps[j]).action)
            && !runs_mount(steps[j].action)
}

/// Whether each of `steps` that works under the staging root comes after
/// one that mounts the root dataset.
spec fn guarded(steps: Seq<StepView>) -> bool {
    forall|j: int|
        0 <= j < steps.len() && works_under_staging_root((#[trigger] steps[j]).action) ==> exists|
            i: int,
        |
            0 <= i < j && root_step(#[trigger] steps[i])
}

/// Whether one of `steps` mounts the root dataset.
spec fn has_root(steps: Seq<StepView>) -> bool {
    exists|i: int| 0 <= i < steps.len() && root_step(#[trigger] steps[i])
}

/// Whether the run awaits the answer to the mounting of the root dataset.
spec fn root_in_flight(state: PipelineView) -> bool {
    state.outcome is None && (state.current matches Some(step) && root_step(step))
}

/// Whether a run has ended, or has not come past the mounting of the root
/// dataset and has nothing ahead that works under the staging root before
/// that mounting.
spec fn before_mount(state: PipelineView) -> bool {
    ||| state.outcome is Some
    ||| state.phase.rank() <= 11 && root_in_flight(state)
    ||| {
        &&& state.phase.rank() <= 11
        &&& state.current matches Some(step) ==> !works_under_staging_root(step.action)
        &&& guarded(state.pending)
        &&& state.phase.rank() == 11 ==> has_root(state.pending)
    }
}

/// None of the programs run before the file systems are mounted is
/// `mount`, and the staging root does not lie under itself.
proof fn lemma_not_mount()
    ensures
        "lsblk"@ != "mount"@,
        "sudo"@ != "mount"@,
        "parted"@ != "mount"@,
        "partprobe"@ != "mount"@,
        "mkfs.vfat"@ != "mount"@,
        "cryptsetup"@ != "mount"@,
        "mkswap"@ != "mount"@,
        "swapon"@ != "mount"@,
        "zpool"@ != "mount"@,
        "zfs"@ != "mount"@,
        !under_staging_root(STAGING_ROOT@),
{
    reveal_strlit("mount");
    reveal_strlit("lsblk");
    reveal_strlit("sudo");
    reveal_strlit("parted");
    reveal_strlit("partprobe");
    reveal_strlit("mkfs.vfat");
    reveal_strlit("cryptsetup");
    reveal_strlit("mkswap");
    reveal_strlit("swapon");
    reveal_strlit("zpool");
    reveal_strlit("zfs");
    reveal_strlit("/mnt");
    assert("mount"@.len() == 5);
    assert("mkfs.vfat"@.len() == 9);
    assert("mkswap"@.len() == 6);
    assert("lsblk"@[0] != "mount"@[0]);
    assert("zpool"@[0] != "mount"@[0]);
}

/// Quiet steps followed by quiet steps are quiet.
proof fn lemma_quiet_add(a: Seq<StepView>, b: Seq<StepView>)
    requires
        quiet(a),
        quiet(b),
    ensures
        quiet(a + b),
{
    assert forall|j: int| 0 <= j < (a + b).len() implies !works_under_staging_root(
        (#[trigger] (a + b)[j]).action,
    ) && !runs_mount((a + b)[j].action) by {
        if j < a.len() {
            assert((a + b)[j] == a[j]);
        } else {
            assert((a + b)[j] == b[j - a.len()]);
        }
    }
}

/// Quiet steps may precede guarded ones.
proof fn lemma_quiet_then_guarded(a: Seq<StepView>, b: Seq<StepView>)
    requires
        quiet(a),
        guarded(b),
    ensures
        guarded(a + b),
        has_root(b) ==> has_root(a + b),
{
    assert forall|j: int|
        0 <= j < (a + b).len() && works_under_staging_root(
            (#[trigger] (a + b)[j]).action,
        ) implies exists|i: int| 0 <= i < j && root_step(#[trigger] (a + b)[i]) by {
        if j < a.len() {
            assert((a + b)[j] == a[j]);
        } else {
            assert((a + b)[j] == b[j - a.len()]);
            let i = choose|i: int| 0 <= i < j - a.len() && root_step(#[trigger] b[i]);
            assert((a + b)[i + a.len()] == b[i]);
        }
    }
    if has_root(b) {
        let i = choose|i: int| 0 <= i < b.len() && root_step(#[trigger] b[i]);
        assert((a + b)[i + a.len()] == b[i]);
    }
}

/// Whatever follows guarded steps that mount the root dataset is guarded.
proof fn lemma_guarded_then_any(a: Seq<StepView>, b: Seq<StepView>)
    requires
        guarded(a),
        has_root(a),
    ensures
        guarded(a + b),
        has_root(a + b),
{
    let r = choose|i: int| 0 <= i < a.len() && root_step(#[trigger] a[i]);
    assert((a + b)[r] == a[r]);
    assert forall|j: int|
        0 <= j < (a + b).len() && works_under_staging_root(
            (#[trigger] (a + b)[j]).action,
        ) implies exists|i: int| 0 <= i < j && root_step(#[trigger] (a + b)[i]) by {
        if j < a.len() {
            assert((a + b)[j] == a[j]);
            let i = choose|i: int| 0 <= i < j && root_step(#[trigger] a[i]);
            assert((a + b)[i] == a[i]);
        } else {
            assert(root_step((a + b)[r]));
        }
    }
}

/// The steps that mount the file systems mount the root dataset before
/// they work under the staging root.
proof fn lemma_mount_steps_guarded(efi_part: Seq<char>, pool: Seq<char>)
    ensures
        guarded(mount_steps(efi_part, pool)),
        has_root(mount_steps(efi_part, pool)),
{
    lemma_not_mount();
    let steps = mount_steps(efi_part, pool);
    assert(steps[1] == mount_dataset_step(root_dataset(pool), STAGING_ROOT@));
    assert(root_step(steps[1]));
    assert forall|j: int|
        0 <= j < steps.len() && works_under_staging_root(
            (#[trigger] steps[j]).action,
        ) implies exists|i: int| 0 <= i < j && root_step(#[trigger] steps[i]) by {
        if j == 0 {
            assert(steps[0].action == (ActionView::MakeDir { path: STAGING_ROOT@ }));
        } else if j == 1 {
            assert(steps[1].action->Run_args.last() == STAGING_ROOT@);
        } else {
            assert(root_step(steps[1]));
        }
    }
}

/// The steps that provision the disk up to the creation of the datasets.
spec fn before_datasets(
    settings: SettingsView,
    pool: Seq<char>,
    plan: PartitionPlan,
    assumed: bool,
) -> Seq<StepView> {
    sector_warning_steps(assumed) + seq![say_step("Creating partition table..."@)]
        + partition_table_steps(settings.disk, plan) + refresh_steps(settings.disk)
        + root_encryption_steps(settings) + swap_setup_steps(settings) + seq![
        say_step("Creating ZFS pool with 'erase your darlings' layout..."@),
    ] + pool_steps(pool_device(settings), pool) + seq![
        say_step("Creating datasets and blank snapshot..."@),
    ]
}

/// The steps that provision the disk mount the root dataset before they
/// work under the staging root, and mount nothing before the datasets are
/// created.
proof fn lemma_provision_guarded(
    settings: SettingsView,
    pool: Seq<char>,
    plan: PartitionPlan,
    assumed: bool,
)
    ensures
        guarded(provision_steps(settings, pool, plan, assumed)),
        has_root(provision_steps(settings, pool, plan, assumed)),
        quiet(before_datasets(settings, pool, plan, assumed) + dataset_steps(pool)),
{
    lemma_not_mount();
    let efi_part = partition_path(settings.disk, "1"@);
    let zfs_part = partition_path(settings.disk, "2"@);
    let c1 = sector_warning_steps(assumed);
    let c2 = seq![say_step("Creating partition table..."@)];
    let c3 = partition_table_steps(settings.disk, plan);
    let c4 = refresh_steps(settings.disk);
    let c5 = root_encryption_steps(settings);
    let c6 = swap_setup_steps(settings);
    let c7 = seq![say_step("Creating ZFS pool with 'erase your darlings' layout..."@)];
    let c8 = pool_steps(pool_device(settings), pool);
    let c9 = seq![say_step("Creating datasets and blank snapshot..."@)];
    let c10 = dataset_steps(pool);
    let c11 = seq![say_step("Mounting filesystems..."@)];
    let c12 = mount_steps(efi_part, pool);
    let c13 = seq![say_step("\nDisk by-id paths (useful for configuration):"@)];
    let c14 = disk_id_probe_steps(efi_part, zfs_part);
    assert(quiet(c1));
    assert(quiet(c2));
    assert(quiet(c3));
    assert(quiet(c4));
    assert(quiet(c5)) by {
        lemma_luks_quiet(partition_path(settings.disk, "2"@), ROOT_VOLUME@);
        if settings.encrypt {
            lemma_quiet_add(
                seq![say_step("Setting up LUKS encryption..."@)],
                luks_steps(partition_path(settings.disk, "2"@), ROOT_VOLUME@),
            );
        }
    }
    assert(quiet(c6)) by {
        let partition = partition_path(settings.disk, "3"@);
        lemma_luks_quiet(partition, SWAP_VOLUME@);
        assert(quiet(swap_steps(mapped_path(SWAP_VOLUME@))));
        assert(quiet(swap_steps(partition)));
        if settings.use_swap {
            if settings.encrypt {
                lemma_quiet_add(
                    luks_steps(partition, SWAP_VOLUME@),
                    swap_steps(mapped_path(SWAP_VOLUME@)),
                );
                lemma_quiet_add(
                    seq![say_step("Formatting swap partition..."@)],
                    luks_steps(partition, SWAP_VOLUME@) + swap_steps(mapped_path(SWAP_VOLUME@)),
                );
            } else {
                lemma_quiet_add(
                    seq![say_step("Formatting swap partition..."@)],
                    swap_steps(partition),
                );
            }
        }
    }
    assert(quiet(c7));
    assert(quiet(c8));
    assert(quiet(c9));
    assert(quiet(c10));
    assert(quiet(c11));
    lemma_quiet_add(c1, c2);
    lemma_quiet_add(c1 + c2, c3);
    lemma_quiet_add(c1 + c2 + c3, c4);
    lemma_quiet_add(c1 + c2 + c3 + c4, c5);
    lemma_quiet_add(c1 + c2 + c3 + c4 + c5, c6);
    lemma_quiet_add(c1 + c2 + c3 + c4 + c5 + c6, c7);
    lemma_quiet_add(c1 + c2 + c3 + c4 + c5 + c6 + c7, c8);
    lemma_quiet_add(c1 + c2 + c3 + c4 + c5 + c6 + c7 + c8, c9);
    lemma_quiet_add(c1 + c2 + c3 + c4 + c5 + c6 + c7 + c8 + c9, c10);
    lemma_quiet_add(c1 + c2 + c3 + c4 + c5 + c6 + c7 + c8 + c9 + c10, c11);
    assert(before_datasets(settings, pool, plan, assumed) + dataset_steps(pool) == c1 + c2 + c3
        + c4 + c5 + c6 + c7 + c8 + c9 + c10);
    let front = c1 + c2 + c3 + c4 + c5 + c6 + c7 + c8 + c9 + c10 + c11;
    lemma_mount_steps_guarded(efi_part, pool);
    lemma_quiet_then_guarded(front, c12);
    lemma_guarded_then_any(front + c12, c13);
    lemma_guarded_then_any(front + c12 + c13, c14);
}

/// The steps that encrypt a device do not work under the staging root.
proof fn lemma_luks_quiet(device: Seq<char>, name: Seq<char>)
    ensures
        quiet(luks_steps(device, name)),
{
    lemma_not_mount();
}

/// The stages before the disk is provisioned plan nothing that works under
/// the staging root.
proof fn lemma_scripts_before_provision(phase: Phase, settings: SettingsView, facts: FactsView)
    requires
        1 <= phase.rank() <= 10,
    ensures
        script(phase, settings, facts) matches Ok(steps) ==> quiet(steps),
{
    lemma_not_mount();
    if phase == Phase::Teardown {
        let names = swap_partition_names(lines_of(listing_text(facts.partitions)));
        assert(quiet(swapoff_steps(names)));
        assert(quiet(teardown_steps(settings.disk)));
        lemma_quiet_add(swapoff_steps(names), teardown_steps(settings.disk));
    }
}

/// Quiet steps are guarded.
proof fn lemma_quiet_is_guarded(steps: Seq<StepView>)
    requires
        quiet(steps),
    ensures
        guarded(steps),
{
}

/// From a state before the mounting of the root dataset whose last action
/// is answered, the next action does not work under the staging root, and
/// the state stays before the mounting.
proof fn lemma_advance_before_mount(state: PipelineView)
    requires
        before_mount(state),
        state.outcome is None ==> state.current is None,
    ensures
        before_mount(advance(state).0),
        !works_under_staging_root(advance(state).1),
        awaits(advance(state).0, advance(state).1),
    decreases 14 - state.phase.rank(),
{
    lemma_not_mount();
    if state.outcome is Some {
    } else if state.pending.len() > 0 {
        let step = state.pending[0];
        let rest = state.pending.drop_first();
        if root_step(step) {
            assert(step.action->Run_args.last() == STAGING_ROOT@) by {
                let pool = choose|pool: Seq<char>|
                    step.action == #[trigger] mount_dataset_step(
                        root_dataset(pool),
                        STAGING_ROOT@,
                    ).action;
            }
        } else {
            assert forall|j: int|
                0 <= j < rest.len() && works_under_staging_root(
                    (#[trigger] rest[j]).action,
                ) implies exists|i: int| 0 <= i < j && root_step(#[trigger] rest[i]) by {
                assert(rest[j] == state.pending[j + 1]);
                let i = choose|i: int| 0 <= i < j + 1 && root_step(#[trigger] state.pending[i]);
                assert(rest[i - 1] == state.pending[i]);
            }
            if state.phase.rank() == 11 {
                let i = choose|i: int|
                    0 <= i < state.pending.len() && root_step(#[trigger] state.pending[i]);
                assert(rest[i - 1] == state.pending[i]);
            }
        }
    } else {
        let phase = state.phase.following()->0;
        match script(phase, state.settings, state.facts) {
            Err(_) => {},
            Ok(steps) => {
                if phase.rank() <= 10 {
                    lemma_scripts_before_provision(phase, state.settings, state.facts);
                    lemma_quiet_is_guarded(steps);
                } else {
                    lemma_provision_guarded(
                        state.settings,
                        pool_of(state.facts),
                        partition_plan_of(state.settings, state.facts)->Ok_0,
                        sector_size_of(state.facts.sector_size).assumed,
                    );
                }
                lemma_advance_before_mount(PipelineView { phase, pending: steps, ..state });
            },
        }
    }
}

/// From a state before the mounting of the root dataset, either the answer
/// is the success of that mounting, or the next action does not work
/// under the staging root and the state stays before the mounting.
proof fn lemma_next_before_mount(state: PipelineView, event: EventView)
    requires
        before_mount(state),
    ensures
        (root_in_flight(state) && succeeded(event)) || (before_mount(next(state, event).0)
            && !works_under_staging_root(next(state, event).1)),
        awaits(next(state, event).0, next(state, event).1),
{
    let settled = absorb(state, event);
    if root_in_flight(state) && succeeded(event) {
        lemma_awaits(state, event);
    } else {
        if root_in_flight(state) {
            assert(settled.outcome is Some);
        }
        lemma_advance_before_mount(settled);
    }
}

/// The next action is what the next state awaits the answer to.
proof fn lemma_awaits(state: PipelineView, event: EventView)
    ensures
        awaits(next(state, event).0, next(state, event).1),
{
    lemma_advance_awaits(absorb(state, event));
}

/// The action handed out is what the state then awaits the answer to.
proof fn lemma_advance_awaits(state: PipelineView)
    ensures
        awaits(advance(state).0, advance(state).1),
    decreases 14 - state.phase.rank(),
{
    if state.outcome is None && state.pending.len() == 0 {
        if let Some(phase) = state.phase.following() {
            if let Ok(steps) = script(phase, state.settings, state.facts) {
                lemma_advance_awaits(PipelineView { phase, pending: steps, ..state });
            }
        }
    }
}

/// An action that works under the staging root, handed out from a state
/// before the mounting of the root dataset, comes after that mounting and
/// its success.
proof fn lemma_answers_before_mount(
    state: PipelineView,
    last: ActionView,
    events: Seq<EventView>,
    j: int,
)
    requires
        before_mount(state),
        awaits(state, last),
        0 <= j < events.len(),
        works_under_staging_root(answers(state, events)[j]),
    ensures
        exists|i: int|
            0 <= i <= j && mounts_root(#[trigger] (seq![last] + answers(state, events))[i])
                && succeeded(events[i]),
    decreases events.len(),
{
    let after = next(state, events[0]).0;
    let action = next(state, events[0]).1;
    let rest = events.drop_first();
    let all = seq![last] + answers(state, events);
    lemma_answers_len(state, events);
    lemma_answers_len(after, rest);
    assert(answers(state, events) == seq![action] + answers(after, rest));
    lemma_next_before_mount(state, events[0]);
    if root_in_flight(state) && succeeded(events[0]) {
        assert(all[0] == last);
        assert(mounts_root(all[0]) && succeeded(events[0]));
    } else {
        assert(j > 0);
        assert(answers(state, events)[j] == answers(after, rest)[j - 1]);
        lemma_answers_before_mount(after, action, rest, j - 1);
        let i = choose|i: int|
            0 <= i <= j - 1 && mounts_root(#[trigger] (seq![action] + answers(after, rest))[i])
                && succeeded(rest[i]);
        assert(all[i + 1] == (seq![action] + answers(after, rest))[i]);
        assert(rest[i] == events[i + 1]);
        assert(mounts_root(all[i + 1]) && succeeded(events[i + 1]));
    }
}

/// The root dataset is mounted first: in every run, however its actions
/// are answered, an action that creates a directory, writes a file, makes
/// a link or mounts a file system under the staging root comes after the
/// action that mounts the root dataset on the staging root, and after the
/// answer that this mounting succeeded.
pub proof fn root_is_mounted_first(settings: SettingsView, events: Seq<EventView>, j: int)
    requires
        0 <= j < actions_of(settings, events).len(),
        works_under_staging_root(actions_of(settings, events)[j]),
    ensures
        exists|i: int|
            0 <= i < j && mounts_root(#[trigger] actions_of(settings, events)[i]) && succeeded(
                events[i],
            ),
{
    let first_state = advance(initial(settings)).0;
    let first = advance(initial(settings)).1;
    lemma_answers_len(first_state, events);
    lemma_advance_before_mount(initial(settings));
    assert(actions_of(settings, events)[0] == first);
    assert(j > 0);
    assert(actions_of(settings, events)[j] == answers(first_state, events)[j - 1]);
    lemma_answers_before_mount(first_state, first, events, j - 1);
}

/// Every dataset exists before anything is mounted: the steps that create
/// the datasets stand together in the steps that provision the disk, and
/// no step before them or among them mounts a file system. As each of them
/// must succeed, the datasets are all created when the first mount is
/// attempted.
pub proof fn datasets_precede_mounts(
    settings: SettingsView,
    pool: Seq<char>,
    plan: PartitionPlan,
    assumed: bool,
)
    ensures
        ({
            let steps = provision_steps(settings, pool, plan, assumed);
            let created = dataset_steps(pool);
            exists|at: int|
                {
                    &&& 0 <= at
                    &&& at + created.len() <= steps.len()
                    &&& #[trigger] steps.subrange(at, at + created.len()) == created
                    &&& forall|j: int|
                        0 <= j < steps.len() && runs_mount((#[trigger] steps[j]).action) ==> at
                            + created.len() <= j
                    &&& forall|i: int|
                        0 <= i < created.len() ==> (#[trigger] created[i]).policy
                            == Policy::Strict
                }
        }),
{
    let steps = provision_steps(settings, pool, plan, assumed);
    let created = dataset_steps(pool);
    let front = before_datasets(settings, pool, plan, assumed);
    let efi_part = partition_path(settings.disk, "1"@);
    let zfs_part = partition_path(settings.disk, "2"@);
    let back = seq![say_step("Mounting filesystems..."@)] + mount_steps(efi_part, pool) + seq![
        say_step("\nDisk by-id paths (useful for configuration):"@),
    ] + disk_id_probe_steps(efi_part, zfs_part);
    lemma_provision_guarded(settings, pool, plan, assumed);
    assert(steps =~= front + created + back);
    let at = front.len() as int;
    assert(steps.subrange(at, at + created.len()) =~= created);
    assert forall|j: int|
        0 <= j < steps.len() && runs_mount((#[trigger] steps[j]).action) implies at
        + created.len() <= j by {
        if j < at + created.len() {
            assert(steps[j] == (front + created)[j]);
        }
    }
}

/// The mount orchestrator mounts the root dataset before it makes a mount
/// point: its first step creates the staging root, its second step mounts
/// the root dataset there, and only the steps after these work under the
/// staging root. Each step must succeed.
pub proof fn mount_order(efi_part: Seq<char>, pool: Seq<char>)
    ensures
        mount_steps(efi_part, pool)[0] == make_dir_step(STAGING_ROOT@),
        mount_steps(efi_part, pool)[1] == mount_dataset_step(root_dataset(pool), STAGING_ROOT@),
        forall|j: int|
            0 <= j < mount_steps(efi_part, pool).len() && works_under_staging_root(
                (#[trigger] mount_steps(efi_part, pool)[j]).action,
            ) ==> j > 1,
        forall|j: int|
            0 <= j < mount_steps(efi_part, pool).len() ==> (#[trigger] mount_steps(
                efi_part,
                pool,
            )[j]).policy == Policy::Strict,
{
    lemma_not_mount();
    let steps = mount_steps(efi_part, pool);
    assert(steps[1].action->Run_args.last() == STAGING_ROOT@);
}

} // verus!
