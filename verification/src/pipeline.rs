//! The pipeline: the stages of a run in their order, as a machine that
//! hands out one action at a time and is told what became of it.
//!
//! The machine does nothing by itself. `Pipeline::start` gives the first
//! action, and each call of `Pipeline::step` takes the answer to the
//! action handed out last and gives the next one, until the action is
//! `Finish`. A stage is planned when the stage before it is through, from
//! the settings and from what the steps so far have gathered.

use crate::cleanup::{
    cleanup_existing_setup, cleanup_probe_steps, cleanup_probes, cleanup_steps,
};
use crate::command::{
    extend_steps, no_steps, one, read_file, read_file_step, require_path, require_path_step,
    settle, Action, ActionView, Event, EventView, Failure, FailureView, Outcome, OutcomeView, Slot,
    Step, StepView,
};
use crate::config::{
    hardware_configuration_steps, provisioned_config, resolve_config,
    update_hardware_configuration,
};
use crate::geometry::{
    disk_sectors, geometry_probe_steps, geometry_probes, get_sector_size, needs_sector_count,
    sector_count_probe, sector_count_probe_step, sector_size_of, wants_sector_count, DiskTarget,
};
use crate::identity::{
    generate_pool_name, identity_probe_steps, identity_probes, needs_disk_uuid, pool_name,
    uuid_probe, uuid_probe_step, wants_disk_uuid,
};
use crate::layout::{calculate_layout, capacity_bytes, plan_for, PartitionPlan};
use crate::mount::{disk_id_steps, show_disk_by_id};
use crate::partition::{partition_device, partition_path};
use crate::profile::{
    chassis_probe, chassis_probe_step, choose_profile, chosen_profile, is_laptop, maker_probe_steps,
    maker_probes, tells_laptop,
};
use crate::settings::{recorded, no_facts, Facts, FactsView, Settings, SettingsView};
use crate::stages::{
    confirmation_steps, consents, final_steps, host_config_dir, host_directory, is_consent,
    plan_confirmation, plan_final, plan_provision, plan_staging, provision_steps, staging_steps,
    STAGED_FLAKE,
};
use crate::text::text_of;
use vstd::prelude::*;

verus! {

/// The stages of a run, in their order.
#[derive(Clone, Copy, Debug, PartialEq, Eq, Structural)]
pub enum Phase {
    /// Nothing is done yet.
    Start,
    /// The disk must exist.
    Preflight,
    /// The chassis type is asked for, where no profile is named.
    Chassis,
    /// The maker and the product are asked for, where the chassis is a
    /// laptop's.
    Maker,
    /// The settings are shown and the user is asked for consent.
    Confirm,
    /// The host name and the disk's serial number are asked for.
    Identity,
    /// The disk's UUID is asked for, where it has no serial number.
    DiskUuid,
    /// The pool of an earlier run is destroyed and the partitions listed.
    Destroy,
    /// What an earlier run left on the disk is torn down.
    Teardown,
    /// The size and the sector size of the disk are asked for.
    Geometry,
    /// The size is asked for as a count of units of 512 bytes, where it is
    /// not known in bytes.
    SectorCount,
    /// The disk is partitioned, and the file systems are made and mounted.
    Provision,
    /// The configuration is copied under the staging root.
    Staging,
    /// The hardware description is written.
    Configure,
    /// The bootstrap script is written and the installer run.
    Finalize,
}

impl Phase {
    /// The place of the stage in the order of stages.
    pub open spec fn rank(self) -> nat {
        match self {
            Phase::Start => 0,
            Phase::Preflight => 1,
            Phase::Chassis => 2,
            Phase::Maker => 3,
            Phase::Confirm => 4,
            Phase::Identity => 5,
            Phase::DiskUuid => 6,
            Phase::Destroy => 7,
            Phase::Teardown => 8,
            Phase::Geometry => 9,
            Phase::SectorCount => 10,
            Phase::Provision => 11,
            Phase::Staging => 12,
            Phase::Configure => 13,
            Phase::Finalize => 14,
        }
    }

    /// The stage after this one, if there is one.
    pub open spec fn following(self) -> Option<Phase> {
        match self {
            Phase::Start => Some(Phase::Preflight),
            Phase::Preflight => Some(Phase::Chassis),
            Phase::Chassis => Some(Phase::Maker),
            Phase::Maker => Some(Phase::Confirm),
            Phase::Confirm => Some(Phase::Identity),
            Phase::Identity => Some(Phase::DiskUuid),
            Phase::DiskUuid => Some(Phase::Destroy),
            Phase::Destroy => Some(Phase::Teardown),
            Phase::Teardown => Some(Phase::Geometry),
            Phase::Geometry => Some(Phase::SectorCount),
            Phase::SectorCount => Some(Phase::Provision),
            Phase::Provision => Some(Phase::Staging),
            Phase::Staging => Some(Phase::Configure),
            Phase::Configure => Some(Phase::Finalize),
            Phase::Finalize => None,
        }
    }

    /// The stage after this one, if there is one.
    pub fn next(self) -> (r: Option<Phase>)
        ensures
            r == self.following(),
    {
        match self {
            Phase::Start => Some(Phase::Preflight),
            Phase::Preflight => Some(Phase::Chassis),
            Phase::Chassis => Some(Phase::Maker),
            Phase::Maker => Some(Phase::Confirm),
            Phase::Confirm => Some(Phase::Identity),
            Phase::Identity => Some(Phase::DiskUuid),
            Phase::DiskUuid => Some(Phase::Destroy),
            Phase::Destroy => Some(Phase::Teardown),
            Phase::Teardown => Some(Phase::Geometry),
            Phase::Geometry => Some(Phase::SectorCount),
            Phase::SectorCount => Some(Phase::Provision),
            Phase::Provision => Some(Phase::Staging),
            Phase::Staging => Some(Phase::Configure),
            Phase::Configure => Some(Phase::Finalize),
            Phase::Finalize => None,
        }
    }
}

/// The host profile of the run.
pub open spec fn profile_of(settings: SettingsView, facts: FactsView) -> Seq<char> {
    chosen_profile(settings.profile, facts.chassis, facts.vendor, facts.product)
}

/// The pool name of the run.
pub open spec fn pool_of(facts: FactsView) -> Seq<char> {
    pool_name(facts.hostname, facts.serial, facts.disk_uuid)
}

/// An output that a step was to gather; empty where there is none.
pub open spec fn gathered(output: Option<Seq<char>>) -> Seq<char> {
    match output {
        Some(text) => text,
        None => Seq::empty(),
    }
}

/// The partition plan of the run: the layout of the disk whose geometry
/// was gathered, unless the geometry does not read as numbers, the disk is
/// too large to count, or the plan is ill-formed because the requested
/// sizes do not fit.
pub open spec fn partition_plan_of(settings: SettingsView, facts: FactsView) -> Result<
    PartitionPlan,
    FailureView,
> {
    match disk_sectors(facts.size_bytes, facts.sector_size, facts.sectors) {
        Err(failure) => Err(failure),
        Ok(sectors) => {
            let capacity = capacity_bytes(sectors, sector_size_of(facts.sector_size).bytes);
            let plan = plan_for(
                capacity,
                settings.efi_gb,
                settings.swap_gb,
                settings.reserve_gb,
                settings.use_swap,
            );
            if capacity > u64::MAX {
                Err(FailureView::DiskTooLarge)
            } else if !plan.well_formed() {
                Err(FailureView::NoRoom)
            } else {
                Ok(plan)
            }
        },
    }
}

/// The steps of a stage, or the outcome with which the run ends in place
/// of the stage.
///
/// The run ends before the identity stage, and so before anything on the
/// disk is touched, unless the user has given consent. It ends before the
/// disk is provisioned where no well-formed partition plan comes about,
/// and before a later stage where what that stage needs was not found.
pub open spec fn script(phase: Phase, settings: SettingsView, facts: FactsView) -> Result<
    Seq<StepView>,
    OutcomeView,
> {
    let disk = settings.disk;
    let profile = profile_of(settings, facts);
    match phase {
        Phase::Start => Ok(Seq::empty()),
        Phase::Preflight => Ok(seq![require_path_step(disk)]),
        Phase::Chassis => Ok(
            if settings.profile is None {
                seq![chassis_probe_step()]
            } else {
                Seq::empty()
            },
        ),
        Phase::Maker => Ok(
            if settings.profile is None && tells_laptop(facts.chassis) {
                maker_probe_steps()
            } else {
                Seq::empty()
            },
        ),
        Phase::Confirm => Ok(confirmation_steps(settings, profile)),
        Phase::Identity => if consents(facts.answer) {
            Ok(identity_probe_steps(disk))
        } else {
            Err(OutcomeView::Aborted)
        },
        Phase::DiskUuid => Ok(
            if wants_disk_uuid(facts.serial) {
                seq![uuid_probe_step(disk)]
            } else {
                Seq::empty()
            },
        ),
        Phase::Destroy => Ok(cleanup_probe_steps(disk, pool_of(facts))),
        Phase::Teardown => Ok(cleanup_steps(disk, facts.partitions)),
        Phase::Geometry => Ok(geometry_probe_steps(disk)),
        Phase::SectorCount => Ok(
            if wants_sector_count(facts.size_bytes) {
                seq![sector_count_probe_step(disk)]
            } else {
                Seq::empty()
            },
        ),
        Phase::Provision => match partition_plan_of(settings, facts) {
            Err(failure) => Err(OutcomeView::Failed { failure }),
            Ok(plan) => Ok(
                provision_steps(
                    settings,
                    pool_of(facts),
                    plan,
                    sector_size_of(facts.sector_size).assumed,
                ),
            ),
        },
        Phase::Staging => match disk_id_steps(
            partition_path(disk, "1"@),
            gathered(facts.efi_path),
            gathered(facts.efi_listing),
            partition_path(disk, "2"@),
            gathered(facts.root_path),
            gathered(facts.root_listing),
        ) {
            Err(failure) => Err(OutcomeView::Failed { failure }),
            Ok(report) => Ok(report + staging_steps(settings, profile)),
        },
        Phase::Configure => match provisioned_config(
            settings.hostname,
            settings.host_id,
            pool_of(facts),
            settings.encrypt,
            settings.use_swap,
            settings.allow_discards,
            gathered(facts.boot_uuid),
            gathered(facts.root_uuid),
            facts.swap_uuid,
        ) {
            Err(failure) => Err(OutcomeView::Failed { failure }),
            Ok(config) => Ok(
                hardware_configuration_steps(host_config_dir(profile), config) + seq![
                    read_file_step(STAGED_FLAKE@, Slot::FlakeText),
                ],
            ),
        },
        Phase::Finalize => Ok(final_steps(settings, profile, facts.flake_text)),
    }
}

/// The model of what `plan` returns.
pub open spec fn plan_view(r: Result<Vec<Step>, Outcome>) -> Result<Seq<StepView>, OutcomeView> {
    match r {
        Ok(steps) => Ok(steps.deep_view()),
        Err(outcome) => Err(outcome@),
    }
}

/// An output that a step was to gather; empty where there is none.
fn gathered_text(output: &Option<String>) -> (r: String)
    ensures
        r@ == gathered(text_of(*output)),
{
    match output {
        Some(text) => text.clone(),
        None => String::new(),
    }
}

/// The model of a partition plan or the failure to make one.
pub open spec fn partition_plan_view(r: Result<PartitionPlan, Failure>) -> Result<
    PartitionPlan,
    FailureView,
> {
    match r {
        Ok(plan) => Ok(plan),
        Err(failure) => Err(failure@),
    }
}

/// Makes the partition plan of the run from the geometry gathered.
pub fn plan_partitions(settings: &Settings, facts: &Facts) -> (r: Result<PartitionPlan, Failure>)
    ensures
        partition_plan_view(r) == partition_plan_of(settings@, facts@),
{
    let target = DiskTarget::measure(
        settings.disk.as_str(),
        &facts.size_bytes,
        &facts.sector_size,
        &facts.sectors,
    )?;
    match calculate_layout(
        target.sectors,
        target.sector_size.bytes,
        settings.efi_gb,
        settings.swap_gb,
        settings.reserve_gb,
        settings.use_swap,
    ) {
        None => Err(Failure::DiskTooLarge),
        Some(plan) => {
            if plan.is_well_formed() {
                Ok(plan)
            } else {
                Err(Failure::NoRoom)
            }
        },
    }
}

/// Plans a stage from the settings and from what was gathered so far.
pub fn plan(phase: Phase, settings: &Settings, facts: &Facts) -> (r: Result<Vec<Step>, Outcome>)
    ensures
        plan_view(r) == script(phase, settings@, facts@),
{
    let disk = settings.disk.as_str();
    match phase {
        Phase::Start => Ok(no_steps()),
        Phase::Preflight => Ok(one(require_path(disk))),
        Phase::Chassis => {
            if settings.profile.is_none() {
                Ok(one(chassis_probe()))
            } else {
                Ok(no_steps())
            }
        },
        Phase::Maker => {
            if settings.profile.is_none() && is_laptop(&facts.chassis) {
                Ok(maker_probes())
            } else {
                Ok(no_steps())
            }
        },
        Phase::Confirm => {
            let profile = choose_profile(
                &settings.profile,
                &facts.chassis,
                &facts.vendor,
                &facts.product,
            );
            Ok(plan_confirmation(settings, profile.as_str()))
        },
        Phase::Identity => {
            if is_consent(&facts.answer) {
                Ok(identity_probes(disk))
            } else {
                Err(Outcome::Aborted)
            }
        },
        Phase::DiskUuid => {
            if needs_disk_uuid(&facts.serial) {
                Ok(one(uuid_probe(disk)))
            } else {
                Ok(no_steps())
            }
        },
        Phase::Destroy => {
            let pool = generate_pool_name(&facts.hostname, &facts.serial, &facts.disk_uuid);
            Ok(cleanup_probes(disk, pool.as_str()))
        },
        Phase::Teardown => Ok(cleanup_existing_setup(disk, &facts.partitions)),
        Phase::Geometry => Ok(geometry_probes(disk)),
        Phase::SectorCount => {
            if needs_sector_count(&facts.size_bytes) {
                Ok(one(sector_count_probe(disk)))
            } else {
                Ok(no_steps())
            }
        },
        Phase::Provision => {
            match plan_partitions(settings, facts) {
                Err(failure) => Err(Outcome::Failed { failure }),
                Ok(layout) => {
                    let pool = generate_pool_name(&facts.hostname, &facts.serial, &facts.disk_uuid);
                    let sector = get_sector_size(&facts.sector_size);
                    Ok(plan_provision(settings, pool.as_str(), &layout, sector.assumed))
                },
            }
        },
        Phase::Staging => {
            let profile = choose_profile(
                &settings.profile,
                &facts.chassis,
                &facts.vendor,
                &facts.product,
            );
            match show_disk_by_id(
                partition_device(disk, "1").as_str(),
                gathered_text(&facts.efi_path).as_str(),
                gathered_text(&facts.efi_listing).as_str(),
                partition_device(disk, "2").as_str(),
                gathered_text(&facts.root_path).as_str(),
                gathered_text(&facts.root_listing).as_str(),
            ) {
                Err(failure) => Err(Outcome::Failed { failure }),
                Ok(report) => {
                    let mut steps = report;
                    extend_steps(&mut steps, plan_staging(settings, profile.as_str()));
                    Ok(steps)
                },
            }
        },
        Phase::Configure => {
            let profile = choose_profile(
                &settings.profile,
                &facts.chassis,
                &facts.vendor,
                &facts.product,
            );
            let pool = generate_pool_name(&facts.hostname, &facts.serial, &facts.disk_uuid);
            match resolve_config(
                settings.hostname.as_str(),
                settings.host_id.as_str(),
                pool.as_str(),
                settings.encrypt,
                settings.use_swap,
                settings.allow_discards,
                gathered_text(&facts.boot_uuid).as_str(),
                gathered_text(&facts.root_uuid).as_str(),
                &facts.swap_uuid,
            ) {
                Err(failure) => Err(Outcome::Failed { failure }),
                Ok(config) => {
                    let mut steps = update_hardware_configuration(
                        host_directory(profile.as_str()).as_str(),
                        &config,
                    );
                    extend_steps(&mut steps, one(read_file(STAGED_FLAKE, Slot::FlakeText)));
                    Ok(steps)
                },
            }
        },
        Phase::Finalize => {
            let profile = choose_profile(
                &settings.profile,
                &facts.chassis,
                &facts.vendor,
                &facts.product,
            );
            Ok(plan_final(settings, profile.as_str(), &facts.flake_text))
        },
    }
}


/// The state of a run between two actions.
pub struct Pipeline {
    settings: Settings,
    facts: Facts,
    phase: Phase,
    pending: Vec<Step>,
    current: Option<Step>,
    outcome: Option<Outcome>,
}

/// The model of a `Pipeline`.
pub struct PipelineView {
    /// The settings of the run.
    pub settings: SettingsView,
    /// What the steps so far have gathered.
    pub facts: FactsView,
    /// The stage that the run is in.
    pub phase: Phase,
    /// The steps of the stage that are still to be taken.
    pub pending: Seq<StepView>,
    /// The step whose action was handed out and not yet answered.
    pub current: Option<StepView>,
    /// How the run has ended, once it has.
    pub outcome: Option<OutcomeView>,
}

/// The state of a run of which nothing is done yet.
pub open spec fn initial(settings: SettingsView) -> PipelineView {
    PipelineView {
        settings,
        facts: no_facts(),
        phase: Phase::Start,
        pending: Seq::empty(),
        current: None,
        outcome: None,
    }
}

/// The state after the answer `event` to the action handed out last.
///
/// Where the step bears the answer, the output is kept in the step's slot;
/// else the run has failed. A run that has ended stays as it is.
pub open spec fn absorb(state: PipelineView, event: EventView) -> PipelineView {
    if state.outcome is Some {
        state
    } else {
        match state.current {
            None => state,
            Some(step) => match settle(step, event) {
                Err(failure) => PipelineView {
                    outcome: Some(OutcomeView::Failed { failure }),
                    current: None,
                    ..state
                },
                Ok(output) => PipelineView {
                    facts: recorded(state.facts, step.slot, output),
                    current: None,
                    ..state
                },
            },
        }
    }
}

/// The next action of a run whose last action is answered, and the state
/// in which its answer is awaited.
///
/// A run that has ended finishes with its outcome. Else the next step of
/// the stage is taken; where the stage has no step left, the following
/// stage is planned and entered, or the run ends with the outcome that the
/// planning gave; after the last stage the run is completed.
pub open spec fn advance(state: PipelineView) -> (PipelineView, ActionView)
    decreases 14 - state.phase.rank(),
{
    if state.outcome is Some {
        (state, ActionView::Finish { outcome: state.outcome->0 })
    } else if state.pending.len() > 0 {
        (
            PipelineView {
                current: Some(state.pending[0]),
                pending: state.pending.drop_first(),
                ..state
            },
            state.pending[0].action,
        )
    } else {
        match state.phase.following() {
            None => (
                PipelineView { outcome: Some(OutcomeView::Completed), ..state },
                ActionView::Finish { outcome: OutcomeView::Completed },
            ),
            Some(phase) => match script(phase, state.settings, state.facts) {
                Err(outcome) => (
                    PipelineView { phase, outcome: Some(outcome), ..state },
                    ActionView::Finish { outcome },
                ),
                Ok(steps) => advance(PipelineView { phase, pending: steps, ..state }),
            },
        }
    }
}

/// The state and the action that follow the answer `event`.
pub open spec fn next(state: PipelineView, event: EventView) -> (PipelineView, ActionView) {
    advance(absorb(state, event))
}

impl View for Pipeline {
    type V = PipelineView;

    closed spec fn view(&self) -> PipelineView {
        PipelineView {
            settings: self.settings@,
            facts: self.facts@,
            phase: self.phase,
            pending: self.pending.deep_view(),
            current: match self.current {
                Some(step) => Some(step@),
                None => None,
            },
            outcome: match self.outcome {
                Some(outcome) => Some(outcome@),
                None => None,
            },
        }
    }
}

impl Pipeline {
    /// Begins a run with the given settings and gives its first action.
    pub fn start(settings: Settings) -> (r: (Pipeline, Action))
        ensures
            (r.0@, r.1@) == advance(initial(settings@)),
    {
        let mut pipeline = Pipeline {
            settings,
            facts: Facts::new(),
            phase: Phase::Start,
            pending: no_steps(),
            current: None,
            outcome: None,
        };
        let action = pipeline.advance();
        (pipeline, action)
    }

    /// Takes the answer to the action handed out last and gives the next
    /// action.
    pub fn step(&mut self, event: Event) -> (action: Action)
        ensures
            (final(self)@, action@) == next(old(self)@, event@),
    {
        if self.outcome.is_none() {
            let current = self.current.take();
            if let Some(step) = current {
                match step.settle(&event) {
                    Err(failure) => {
                        self.outcome = Some(Outcome::Failed { failure });
                    },
                    Ok(output) => {
                        self.facts.record(step.slot, output);
                    },
                }
            }
        }
        assert(self@ == absorb(old(self)@, event@));
        self.advance()
    }

    /// Gives the next action of a run whose last action is answered.
    fn advance(&mut self) -> (action: Action)
        ensures
            (final(self)@, action@) == advance(old(self)@),
    {
        loop
            invariant
                advance(self@) == advance(old(self)@),
            decreases 14 - self.phase.rank(),
        {
            let ghost before = self@;
            if let Some(outcome) = &self.outcome {
                return Action::Finish { outcome: outcome.clone() };
            }
            if self.pending.len() > 0 {
                let step = self.pending.remove(0);
                let action = step.action.clone();
                self.current = Some(step);
                assert(self.pending.deep_view() =~= before.pending.drop_first());
                return action;
            }
            match self.phase.next() {
                None => {
                    self.outcome = Some(Outcome::Completed);
                    return Action::Finish { outcome: Outcome::Completed };
                },
                Some(phase) => {
                    self.phase = phase;
                    match plan(phase, &self.settings, &self.facts) {
                        Err(outcome) => {
                            let action = Action::Finish { outcome: outcome.clone() };
                            self.outcome = Some(outcome);
                            return action;
                        },
                        Ok(steps) => {
                            self.pending = steps;
                        },
                    }
                },
            }
        }
    }

    /// The stage that the run is in.
    pub fn phase(&self) -> (r: Phase)
        ensures
            r == self@.phase,
    {
        self.phase
    }

    /// Whether the run has ended.
    pub fn is_finished(&self) -> (r: bool)
        ensures
            r == self@.outcome is Some,
    {
        self.outcome.is_some()
    }
}

} // verus!
