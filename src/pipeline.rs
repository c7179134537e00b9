use vstd::prelude::*;

use crate::compilers::{CompilerConfig, CompilerRegistry};
use crate::config::{SelectedCompiler, VmfMap};
use crate::placeholders::PlatformPolicy;
use crate::session::CompilationSessionSettings;
use crate::step::{plan_step, planned, settings_fit, StepWork, StepWorkView};
use crate::types::{duplicate_result, BackendError, CoreEvent};

verus! {

/// What a map does at one stage of the preset.
#[derive(Clone, Debug)]
pub enum StepPlan {
    /// The stage is not activated: it is passed over without events.
    Skip,
    /// Run the stage, named as given.
    Run(String, StepWork),
    /// The stage cannot run; reaching it ends the map with this error.
    Fail(BackendError),
}

impl StepPlan {
    /// Whether this stage is passed over.
    pub fn is_skip(&self) -> (r: bool)
        ensures
            r == (*self is Skip),
    {
        match self {
            StepPlan::Skip => true,
            _ => false,
        }
    }
}

/// Whether `plan` is what the step executor decides for `app` on `map`.
pub open spec fn plan_fits(
    plan: StepPlan,
    map: VmfMap,
    app: SelectedCompiler,
    settings: CompilationSessionSettings,
    reg: Seq<CompilerConfig>,
    policy: PlatformPolicy,
) -> bool {
    if !app.activated {
        plan is Skip
    } else {
        match plan {
            StepPlan::Skip => false,
            StepPlan::Run(n, w) => n@ == reg[app.compiler_idx as int].name@ && planned(
                Ok(w),
                map,
                app,
                settings,
                reg,
                policy,
            ),
            StepPlan::Fail(e) => planned(Err(e), map, app, settings, reg, policy),
        }
    }
}

/// The life cycle of one map's pipeline.
#[derive(Clone, Copy, Debug, PartialEq, Eq, Structural)]
pub enum PipelinePhase {
    NotStarted,
    /// A step is in flight.
    Running,
    /// Every stage ran, or one failed.
    Finished,
    /// Cancellation was seen between steps.
    CancelledEarly,
}

/// The stages of one map, run strictly in preset order.
#[derive(Debug)]
pub struct MapPipeline {
    pub map_id: usize,
    pub map_name: String,
    pub plans: Vec<StepPlan>,
    pub phase: PipelinePhase,
    /// The stage in flight while running.
    pub current: usize,
    /// The map's result once it is finished or cancelled.
    pub result: Result<(), BackendError>,
}

/// What the caller must do next for a map.
#[derive(Debug)]
pub enum PipelineAction {
    /// Perform this work and report its outcome.
    Perform(StepWork),
    /// The map is over, with this result.
    Done(Result<(), BackendError>),
}

/// A pipeline action with its work as character sequences.
pub enum ActionView {
    Perform(StepWorkView),
    Done(Result<(), BackendError>),
}

impl View for PipelineAction {
    type V = ActionView;

    open spec fn view(&self) -> ActionView {
        match self {
            PipelineAction::Perform(w) => ActionView::Perform(w@),
            PipelineAction::Done(r) => ActionView::Done(*r),
        }
    }
}

impl PipelineAction {
    /// Whether there is work to perform.
    pub fn is_perform(&self) -> (r: bool)
        ensures
            r == (self@ is Perform),
    {
        match self {
            PipelineAction::Perform(_) => true,
            PipelineAction::Done(_) => false,
        }
    }
}

/// The events to deliver and the action to take after a pipeline transition.
#[derive(Debug)]
pub struct Transition {
    pub events: Vec<CoreEvent>,
    pub action: PipelineAction,
}

/// A pipeline transition in mathematical terms: the new phase, stage and result, the events and
/// the action.
pub struct PipelineOutcome {
    pub phase: PipelinePhase,
    pub current: int,
    pub result: Result<(), BackendError>,
    pub events: Seq<CoreEvent>,
    pub action: ActionView,
}

/// The first stage at or after `from` that is not skipped, or the number of stages.
pub open spec fn next_active(plans: Seq<StepPlan>, from: int) -> int
    decreases plans.len() - from,
{
    if from < 0 || from >= plans.len() {
        plans.len() as int
    } else if plans[from] is Skip {
        next_active(plans, from + 1)
    } else {
        from
    }
}

/// Moving on from stage `from`: finish when no stage is left, stop cleanly when cancellation is
/// seen, fail at a stage that cannot run, or start the next stage.
pub open spec fn advance_spec(p: MapPipeline, from: int, cancelled: bool) -> PipelineOutcome {
    let plans = p.plans@;
    let k = next_active(plans, from);
    let ok = Ok::<(), BackendError>(());
    if k >= plans.len() {
        PipelineOutcome {
            phase: PipelinePhase::Finished,
            current: p.current as int,
            result: ok,
            events: seq![CoreEvent::MapFinished(p.map_id, p.map_name, ok)],
            action: ActionView::Done(ok),
        }
    } else if cancelled {
        PipelineOutcome {
            phase: PipelinePhase::CancelledEarly,
            current: p.current as int,
            result: ok,
            events: seq![CoreEvent::MapFinished(p.map_id, p.map_name, ok)],
            action: ActionView::Done(ok),
        }
    } else {
        match plans[k] {
            StepPlan::Run(name, work) => PipelineOutcome {
                phase: PipelinePhase::Running,
                current: k,
                result: p.result,
                events: seq![CoreEvent::StepStarted(p.map_id, p.map_name, name)],
                action: ActionView::Perform(work@),
            },
            StepPlan::Fail(e) => PipelineOutcome {
                phase: PipelinePhase::Finished,
                current: k,
                result: Err(e),
                events: seq![CoreEvent::MapFinished(p.map_id, p.map_name, Err(e))],
                action: ActionView::Done(Err(e)),
            },
            // `next_active` never stops on a skipped stage (see `lemma_next_active`)
            StepPlan::Skip => PipelineOutcome {
                phase: PipelinePhase::Finished,
                current: p.current as int,
                result: p.result,
                events: Seq::empty(),
                action: ActionView::Done(p.result),
            },
        }
    }
}

/// Starting a map: `MapStarted`, then moving on from the first stage.
pub open spec fn start_spec(p: MapPipeline, cancelled: bool) -> PipelineOutcome {
    let o = advance_spec(p, 0, cancelled);
    PipelineOutcome { events: seq![CoreEvent::MapStarted(p.map_id, p.map_name)] + o.events, ..o }
}

/// The name of the stage in flight.
pub open spec fn current_name(p: MapPipeline) -> String {
    match p.plans@[p.current as int] {
        StepPlan::Run(n, _) => n,
        _ => p.map_name,
    }
}

/// Completing the stage in flight: on success `StepFinished`, then moving on; on failure the map
/// ends with that error.
pub open spec fn complete_spec(
    p: MapPipeline,
    outcome: Result<(), BackendError>,
    cancelled: bool,
) -> PipelineOutcome {
    match outcome {
        Ok(_) => {
            let o = advance_spec(p, p.current + 1, cancelled);
            PipelineOutcome {
                events: seq![CoreEvent::StepFinished(p.map_id, p.map_name, current_name(p))]
                    + o.events,
                ..o
            }
        },
        Err(e) => PipelineOutcome {
            phase: PipelinePhase::Finished,
            current: p.current as int,
            result: Err(e),
            events: seq![CoreEvent::MapFinished(p.map_id, p.map_name, Err(e))],
            action: ActionView::Done(Err(e)),
        },
    }
}

/// Whether `after` and the transition `t` are what `o` describes for `before`.
pub open spec fn realizes(before: MapPipeline, after: MapPipeline, t: Transition, o: PipelineOutcome) -> bool {
    &&& after.map_id == before.map_id
    &&& after.map_name == before.map_name
    &&& after.plans == before.plans
    &&& after.phase == o.phase
    &&& after.current == o.current
    &&& after.result == o.result
    &&& t.events@ == o.events
    &&& t.action@ == o.action
}

impl MapPipeline {
    /// A stage in flight is a stage to run.
    pub open spec fn wf(&self) -> bool {
        self.phase == PipelinePhase::Running ==> (self.current < self.plans@.len()
            && self.plans@[self.current as int] is Run)
    }

    /// The pipeline of `map` under `settings`, not started yet.
    pub fn new(
        map: &VmfMap,
        settings: &CompilationSessionSettings,
        registry: &CompilerRegistry,
        policy: PlatformPolicy,
    ) -> (r: MapPipeline)
        requires
            settings_fit(*settings, registry@),
        ensures
            r.wf(),
            r.map_id == map.order_idx,
            r.map_name == map.name,
            r.phase == PipelinePhase::NotStarted,
            r.result is Ok,
            r.plans@.len() == settings.preset.apps@.len(),
            forall|k: int|
                0 <= k < r.plans@.len() ==> plan_fits(
                    #[trigger] r.plans@[k],
                    *map,
                    settings.preset.apps@[k],
                    *settings,
                    registry@,
                    policy,
                ),
    {
        let n = settings.preset.apps.len();
        let mut plans: Vec<StepPlan> = Vec::new();
        let mut i: usize = 0;
        while i < n
            invariant
                n == settings.preset.apps@.len(),
                settings_fit(*settings, registry@),
                i <= n,
                plans@.len() == i,
                forall|k: int|
                    0 <= k < i ==> plan_fits(
                        #[trigger] plans@[k],
                        *map,
                        settings.preset.apps@[k],
                        *settings,
                        registry@,
                        policy,
                    ),
            decreases n - i,
        {
            let app = &settings.preset.apps[i];
            assert(app.compiler_idx < registry@.len() && app.compiler_idx
                < settings.game_config.custom_apps_paths@.len()) by {
                assert(settings.preset.apps@[i as int].compiler_idx == app.compiler_idx);
            }
            let plan = if !app.activated {
                StepPlan::Skip
            } else {
                match plan_step(map, app, settings, registry, policy) {
                    Ok(work) => StepPlan::Run(
                        registry.configs[app.compiler_idx].name.clone(),
                        work,
                    ),
                    Err(e) => StepPlan::Fail(e),
                }
            };
            plans.push(plan);
            i = i + 1;
        }
        MapPipeline {
            map_id: map.order_idx,
            map_name: map.name.clone(),
            plans,
            phase: PipelinePhase::NotStarted,
            current: 0,
            result: Ok(()),
        }
    }

    fn advance(&mut self, from: usize, cancelled: bool) -> (t: Transition)
        requires
            from <= old(self).plans@.len(),
        ensures
            final(self).wf(),
            realizes(*old(self), *final(self), t, advance_spec(*old(self), from as int, cancelled)),
    {
        let n = self.plans.len();
        let mut k: usize = from;
        while k < n && self.plans[k].is_skip()
            invariant
                n == self.plans@.len(),
                from <= k <= n,
                next_active(self.plans@, from as int) == next_active(self.plans@, k as int),
                *self == *old(self),
            decreases n - k,
        {
            k = k + 1;
        }
        assert(next_active(self.plans@, k as int) == k as int);
        let mut events: Vec<CoreEvent> = Vec::new();
        if k >= n || cancelled {
            self.phase = if k >= n {
                PipelinePhase::Finished
            } else {
                PipelinePhase::CancelledEarly
            };
            self.result = Ok(());
            events.push(CoreEvent::MapFinished(self.map_id, self.map_name.clone(), Ok(())));
            return Transition { events, action: PipelineAction::Done(Ok(())) };
        }
        match &self.plans[k] {
            StepPlan::Run(name, work) => {
                events.push(CoreEvent::StepStarted(self.map_id, self.map_name.clone(), name.clone()));
                let w = work.duplicate();
                self.phase = PipelinePhase::Running;
                self.current = k;
                Transition { events, action: PipelineAction::Perform(w) }
            },
            StepPlan::Fail(e) => {
                let e1 = e.duplicate();
                let e2 = e.duplicate();
                let e3 = e.duplicate();
                events.push(CoreEvent::MapFinished(self.map_id, self.map_name.clone(), Err(e1)));
                self.phase = PipelinePhase::Finished;
                self.current = k;
                self.result = Err(e2);
                Transition { events, action: PipelineAction::Done(Err(e3)) }
            },
            StepPlan::Skip => {
                self.phase = PipelinePhase::Finished;
                Transition { events, action: PipelineAction::Done(duplicate_result(&self.result)) }
            },
        }
    }

    /// Starts the map: emits `MapStarted` and moves to the first stage to run.
    pub fn start(&mut self, cancelled: bool) -> (t: Transition)
        requires
            old(self).phase == PipelinePhase::NotStarted,
        ensures
            final(self).wf(),
            realizes(*old(self), *final(self), t, start_spec(*old(self), cancelled)),
    {
        let mut events: Vec<CoreEvent> = Vec::new();
        events.push(CoreEvent::MapStarted(self.map_id, self.map_name.clone()));
        let mut rest = self.advance(0, cancelled);
        events.append(&mut rest.events);
        Transition { events, action: rest.action }
    }

    /// Reports the outcome of the stage in flight and moves on.
    pub fn complete_step(&mut self, outcome: Result<(), BackendError>, cancelled: bool) -> (t:
        Transition)
        requires
            old(self).wf(),
            old(self).phase == PipelinePhase::Running,
        ensures
            final(self).wf(),
            realizes(*old(self), *final(self), t, complete_spec(*old(self), outcome, cancelled)),
    {
        match outcome {
            Ok(_) => {
                let mut events: Vec<CoreEvent> = Vec::new();
                let name = match &self.plans[self.current] {
                    StepPlan::Run(n, _) => n.clone(),
                    _ => self.map_name.clone(),
                };
                events.push(CoreEvent::StepFinished(self.map_id, self.map_name.clone(), name));
                let n = self.plans.len();
                assert(self.current < n);
                let mut rest = self.advance(self.current + 1, cancelled);
                events.append(&mut rest.events);
                Transition { events, action: rest.action }
            },
            Err(e) => {
                let mut events: Vec<CoreEvent> = Vec::new();
                let e1 = e.duplicate();
                let e2 = e.duplicate();
                events.push(CoreEvent::MapFinished(self.map_id, self.map_name.clone(), Err(e1)));
                self.phase = PipelinePhase::Finished;
                self.result = Err(e2);
                Transition { events, action: PipelineAction::Done(Err(e)) }
            },
        }
    }
}

/// The first stage at or after `from` that is not skipped: every stage before it is skipped.
pub proof fn lemma_next_active(plans: Seq<StepPlan>, from: int)
    requires
        0 <= from <= plans.len(),
    ensures
        from <= next_active(plans, from) <= plans.len(),
        forall|j: int| from <= j < next_active(plans, from) ==> #[trigger] plans[j] is Skip,
        next_active(plans, from) < plans.len() ==> !(plans[next_active(plans, from)] is Skip),
    decreases plans.len() - from,
{
    if from < plans.len() && plans[from] is Skip {
        lemma_next_active(plans, from + 1);
    }
}

/// Within one map, stages run strictly in preset order and never overlap: the stage that starts
/// after a stage completes comes later in the preset, and every stage passed over in between is
/// one that is not activated.
pub proof fn lemma_steps_in_order(p: MapPipeline, cancelled: bool)
    requires
        p.wf(),
        p.phase == PipelinePhase::Running,
    ensures
        complete_spec(p, Ok(()), cancelled).phase == PipelinePhase::Running ==> {
            let next = complete_spec(p, Ok(()), cancelled).current;
            &&& p.current < next < p.plans@.len()
            &&& forall|j: int| p.current < j < next ==> #[trigger] p.plans@[j] is Skip
        },
{
    lemma_next_active(p.plans@, p.current + 1);
}

} // verus!
