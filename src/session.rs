use vstd::prelude::*;

use crate::compilers::CompilerRegistry;
use crate::config::{GameConfiguration, Preset, VmfMap};
use crate::pipeline::{
    complete_spec, start_spec, MapPipeline, PipelineOutcome, PipelinePhase, Transition,
};
use crate::placeholders::PlatformPolicy;
use crate::step::settings_fit;
use crate::types::{duplicate_result, BackendError, CoreEvent};

verus! {

/// The snapshot of preset and game configuration that one batch runs with.
#[derive(Clone, Debug)]
pub struct CompilationSessionSettings {
    pub preset: Preset,
    pub game_config: GameConfiguration,
}

/// A batch run's owner: the settings snapshot, the cancellation flag and the concurrency limit.
#[derive(Clone, Debug)]
pub struct CompilationSession {
    pub settings: CompilationSessionSettings,
    /// Set once by `cancel_batch`, never cleared.
    pub cancel_requested: bool,
    pub max_threads: usize,
}

impl CompilationSession {
    /// A session over `preset` and `game_config` with no cancellation requested.
    pub fn new(preset: Preset, game_config: GameConfiguration, max_threads: usize) -> (r:
        CompilationSession)
        ensures
            r.settings.preset == preset,
            r.settings.game_config == game_config,
            !r.cancel_requested,
            r.max_threads == max_threads,
    {
        CompilationSession {
            settings: CompilationSessionSettings { preset, game_config },
            cancel_requested: false,
            max_threads,
        }
    }

    /// Requests cancellation; doing it again changes nothing.
    pub fn cancel_batch(&mut self) -> (e: CoreEvent)
        ensures
            final(self).cancel_requested,
            final(self).settings == old(self).settings,
            final(self).max_threads == old(self).max_threads,
            e is CancellationRequested,
    {
        self.cancel_requested = true;
        CoreEvent::CancellationRequested
    }

    /// Starts a batch over the activated maps of `maps_to_process`, in their order, admitting at
    /// most `max_threads` maps at a time (at least one). Returns the run and `BatchStarted`.
    pub fn start_batch(
        &self,
        maps_to_process: Vec<VmfMap>,
        registry: &CompilerRegistry,
        policy: PlatformPolicy,
    ) -> (r: (BatchRun, CoreEvent))
        requires
            settings_fit(self.settings, registry@),
        ensures
            r.0.wf(),
            r.0@.admitted == 0,
            r.0@.live == 0,
            r.0@.limit == if self.max_threads == 0 {
                1
            } else {
                self.max_threads as nat
            },
            r.0@.maps.len() == activated_count(maps_to_process@),
            forall|k: int|
                0 <= k < r.0@.maps.len() ==> {
                    let p = #[trigger] r.0@.maps[k];
                    let m = activated_only(maps_to_process@)[k];
                    &&& p.phase == PipelinePhase::NotStarted
                    &&& p.map_id == m.order_idx
                    &&& p.map_name == m.name
                    &&& p.plans@.len() == self.settings.preset.apps@.len()
                },
            r.1 is BatchStarted,
    {
        let limit = if self.max_threads == 0 {
            1
        } else {
            self.max_threads
        };
        let run = BatchRun::new(&maps_to_process, &self.settings, registry, policy, limit);
        (run, CoreEvent::BatchStarted)
    }
}

/// The maps of `ms` that are activated, in order.
pub open spec fn activated_only(ms: Seq<VmfMap>) -> Seq<VmfMap> {
    ms.filter(|m: VmfMap| m.activated)
}

/// How many maps of `ms` are activated.
pub open spec fn activated_count(ms: Seq<VmfMap>) -> nat {
    activated_only(ms).len()
}

/// How many pipelines of `ps` have a step in flight.
pub open spec fn running_count(ps: Seq<MapPipeline>) -> nat
    decreases ps.len(),
{
    if ps.len() == 0 {
        0
    } else {
        running_count(ps.drop_last()) + if ps.last().phase == PipelinePhase::Running {
            1nat
        } else {
            0nat
        }
    }
}

/// The pipeline after a transition described by `o`.
pub open spec fn apply_outcome(p: MapPipeline, o: PipelineOutcome) -> MapPipeline {
    MapPipeline { phase: o.phase, current: o.current as usize, result: o.result, ..p }
}

/// A batch run in mathematical terms.
pub struct BatchView {
    pub maps: Seq<MapPipeline>,
    pub limit: nat,
    /// The maps before this index have been admitted.
    pub admitted: nat,
    /// How many admitted maps have a step in flight.
    pub live: nat,
}

/// Admission: with cancellation seen, the limit reached or every map admitted, nothing happens;
/// otherwise the next map starts.
pub open spec fn admit_spec(b: BatchView, cancelled: bool) -> (BatchView, Option<(int, PipelineOutcome)>) {
    if cancelled || b.live >= b.limit || b.admitted >= b.maps.len() {
        (b, None)
    } else {
        let i = b.admitted as int;
        let o = start_spec(b.maps[i], false);
        let live = if o.phase == PipelinePhase::Running {
            b.live + 1
        } else {
            b.live
        };
        (
            BatchView {
                maps: b.maps.update(i, apply_outcome(b.maps[i], o)),
                admitted: b.admitted + 1,
                live,
                ..b
            },
            Some((i, o)),
        )
    }
}

/// Reporting the outcome of the step in flight of map `slot`.
pub open spec fn report_spec(
    b: BatchView,
    slot: int,
    outcome: Result<(), BackendError>,
    cancelled: bool,
) -> (BatchView, PipelineOutcome) {
    let o = complete_spec(b.maps[slot], outcome, cancelled);
    let live = if o.phase == PipelinePhase::Running {
        b.live
    } else {
        (b.live - 1) as nat
    };
    (BatchView { maps: b.maps.update(slot, apply_outcome(b.maps[slot], o)), live, ..b }, o)
}

/// Whether the run is over: nothing in flight, and every map admitted unless cancelled.
pub open spec fn settled_spec(b: BatchView, cancelled: bool) -> bool {
    b.live == 0 && (cancelled || b.admitted == b.maps.len())
}

/// The per-map results, in map order.
pub open spec fn map_results(ps: Seq<MapPipeline>) -> Seq<Result<(), BackendError>> {
    ps.map_values(|p: MapPipeline| p.result)
}

/// The end of a batch: `BatchCancelled` and `Cancelled` when cancellation was requested, else
/// `BatchCompleted` and every map's result.
pub open spec fn finish_spec(b: BatchView, cancelled: bool) -> (Seq<CoreEvent>, Result<
    Seq<Result<(), BackendError>>,
    BackendError,
>) {
    if cancelled {
        (seq![CoreEvent::BatchCancelled], Err(BackendError::Cancelled))
    } else {
        (
            seq![CoreEvent::BatchCompleted(Ok(()))],
            Ok(map_results(b.maps)),
        )
    }
}

/// The maps of one batch and their admission under the concurrency limit.
#[derive(Debug)]
pub struct BatchRun {
    pub maps: Vec<MapPipeline>,
    pub limit: usize,
    pub admitted: usize,
    pub live: usize,
}

impl View for BatchRun {
    type V = BatchView;

    open spec fn view(&self) -> BatchView {
        BatchView {
            maps: self.maps@,
            limit: self.limit as nat,
            admitted: self.admitted as nat,
            live: self.live as nat,
        }
    }
}

/// Whether a batch state is consistent: maps start in order, the live count is the number of
/// maps with a step in flight, and it never exceeds the limit.
pub open spec fn batch_wf(b: BatchView) -> bool {
    &&& 1 <= b.limit
    &&& b.admitted <= b.maps.len()
    &&& forall|k: int| 0 <= k < b.maps.len() ==> (#[trigger] b.maps[k]).wf()
    &&& forall|k: int|
        0 <= k < b.maps.len() ==> ((#[trigger] b.maps[k]).phase == PipelinePhase::NotStarted
            <==> k >= b.admitted)
    &&& b.live == running_count(b.maps)
    &&& b.live <= b.limit
}

/// Replacing one pipeline changes the running count by the difference it makes.
pub proof fn lemma_running_count_update(ps: Seq<MapPipeline>, i: int, p: MapPipeline)
    requires
        0 <= i < ps.len(),
    ensures
        running_count(ps.update(i, p)) + (if ps[i].phase == PipelinePhase::Running {
            1int
        } else {
            0int
        }) == running_count(ps) + (if p.phase == PipelinePhase::Running {
            1int
        } else {
            0int
        }),
    decreases ps.len(),
{
    let q = ps.update(i, p);
    if i == ps.len() - 1 {
        assert(q.drop_last() =~= ps.drop_last());
    } else {
        assert(q.drop_last() =~= ps.drop_last().update(i, p));
        lemma_running_count_update(ps.drop_last(), i, p);
    }
}

/// Pipelines none of which has started have a running count of zero.
proof fn lemma_running_count_zero(ps: Seq<MapPipeline>)
    requires
        forall|k: int| 0 <= k < ps.len() ==> (#[trigger] ps[k]).phase == PipelinePhase::NotStarted,
    ensures
        running_count(ps) == 0,
    decreases ps.len(),
{
    if ps.len() > 0 {
        assert forall|k: int| 0 <= k < ps.drop_last().len() implies (
        #[trigger] ps.drop_last()[k]).phase == PipelinePhase::NotStarted by {
            assert(ps.drop_last()[k] == ps[k]);
        }
        lemma_running_count_zero(ps.drop_last());
    }
}

/// A map with a step in flight counts towards the running count.
proof fn lemma_running_member(ps: Seq<MapPipeline>, i: int)
    requires
        0 <= i < ps.len(),
        ps[i].phase == PipelinePhase::Running,
    ensures
        running_count(ps) >= 1,
    decreases ps.len(),
{
    if i < ps.len() - 1 {
        assert(ps.drop_last()[i] == ps[i]);
        lemma_running_member(ps.drop_last(), i);
    }
}

impl BatchRun {
    /// The batch state is consistent.
    pub open spec fn wf(&self) -> bool {
        batch_wf(self@)
    }

    /// One pipeline per activated map of `maps`, none admitted yet.
    pub fn new(
        maps: &Vec<VmfMap>,
        settings: &CompilationSessionSettings,
        registry: &CompilerRegistry,
        policy: PlatformPolicy,
        limit: usize,
    ) -> (r: BatchRun)
        requires
            settings_fit(*settings, registry@),
            limit >= 1,
        ensures
            r.wf(),
            r@.admitted == 0,
            r@.live == 0,
            r@.limit == limit,
            r@.maps.len() == activated_count(maps@),
            forall|k: int|
                0 <= k < r@.maps.len() ==> {
                    let p = #[trigger] r@.maps[k];
                    let m = activated_only(maps@)[k];
                    &&& p.phase == PipelinePhase::NotStarted
                    &&& p.map_id == m.order_idx
                    &&& p.map_name == m.name
                    &&& p.plans@.len() == settings.preset.apps@.len()
                },
    {
        let n = maps.len();
        let mut pipelines: Vec<MapPipeline> = Vec::new();
        let mut i: usize = 0;
        while i < n
            invariant
                n == maps@.len(),
                i <= n,
                settings_fit(*settings, registry@),
                pipelines@.len() == activated_count(maps@.take(i as int)),
                forall|k: int|
                    0 <= k < pipelines@.len() ==> {
                        let p = #[trigger] pipelines@[k];
                        let m = activated_only(maps@.take(i as int))[k];
                        &&& p.wf()
                        &&& p.phase == PipelinePhase::NotStarted
                        &&& p.map_id == m.order_idx
                        &&& p.map_name == m.name
                        &&& p.plans@.len() == settings.preset.apps@.len()
                    },
            decreases n - i,
        {
            let ghost prefix = maps@.take(i as int);
            proof {
                assert(maps@.take(i + 1).drop_last() =~= prefix);
                reveal(Seq::filter);
            }
            if maps[i].activated {
                let p = MapPipeline::new(&maps[i], settings, registry, policy);
                pipelines.push(p);
                proof {
                    assert(activated_only(maps@.take(i + 1)) =~= activated_only(prefix).push(
                        maps@[i as int],
                    ));
                }
            } else {
                proof {
                    assert(activated_only(maps@.take(i + 1)) =~= activated_only(prefix));
                }
            }
            i = i + 1;
        }
        assert(maps@.take(n as int) =~= maps@);
        proof {
            lemma_running_count_zero(pipelines@);
        }
        BatchRun { maps: pipelines, limit, admitted: 0, live: 0 }
    }

    /// Admits the next map when cancellation has not been seen and fewer than `limit` maps have
    /// a step in flight; returns its index and its first transition.
    pub fn admit_next(&mut self, cancelled: bool) -> (r: Option<(usize, Transition)>)
        requires
            old(self).wf(),
        ensures
            final(self).wf(),
            final(self)@ == admit_spec(old(self)@, cancelled).0,
            match admit_spec(old(self)@, cancelled).1 {
                None => r is None,
                Some((i, o)) => r matches Some((j, t)) && j == i && t.events@ == o.events
                    && t.action@ == o.action,
            },
    {
        if cancelled || self.live >= self.limit || self.admitted >= self.maps.len() {
            return None;
        }
        let i = self.admitted;
        let ghost before = self.maps@;
        let t = self.maps[i].start(false);
        let ghost o = start_spec(before[i as int], false);
        assert(self.maps@ =~= before.update(i as int, apply_outcome(before[i as int], o)));
        proof {
            lemma_running_count_update(before, i as int, apply_outcome(before[i as int], o));
        }
        self.admitted = i + 1;
        if t.action.is_perform() {
            self.live = self.live + 1;
        }
        proof {
            assert forall|k: int| 0 <= k < self.maps@.len() implies ((#[trigger] self.maps@[k]).phase
                == PipelinePhase::NotStarted <==> k >= self.admitted) by {
                if k != i {
                    assert(self.maps@[k] == before[k]);
                }
            }
            assert forall|k: int| 0 <= k < self.maps@.len() implies (#[trigger] self.maps@[k]).wf() by {
                if k != i {
                    assert(self.maps@[k] == before[k]);
                }
            }
        }
        Some((i, t))
    }

    /// Reports the outcome of the step in flight of map `slot` and returns that map's next
    /// transition.
    pub fn report(&mut self, slot: usize, outcome: Result<(), BackendError>, cancelled: bool) -> (t:
        Transition)
        requires
            old(self).wf(),
            slot < old(self)@.maps.len(),
            old(self)@.maps[slot as int].phase == PipelinePhase::Running,
        ensures
            final(self).wf(),
            final(self)@ == report_spec(old(self)@, slot as int, outcome, cancelled).0,
            t.events@ == report_spec(old(self)@, slot as int, outcome, cancelled).1.events,
            t.action@ == report_spec(old(self)@, slot as int, outcome, cancelled).1.action,
    {
        let ghost before = self.maps@;
        let ghost o = complete_spec(before[slot as int], outcome, cancelled);
        proof {
            lemma_running_member(before, slot as int);
            assert(slot < self.admitted);
        }
        let t = self.maps[slot].complete_step(outcome, cancelled);
        assert(self.maps@ =~= before.update(slot as int, apply_outcome(before[slot as int], o)));
        proof {
            lemma_running_count_update(before, slot as int, apply_outcome(before[slot as int], o));
        }
        if !t.action.is_perform() {
            self.live = self.live - 1;
        }
        proof {
            assert forall|k: int| 0 <= k < self.maps@.len() implies ((#[trigger] self.maps@[k]).phase
                == PipelinePhase::NotStarted <==> k >= self.admitted) by {
                if k != slot {
                    assert(self.maps@[k] == before[k]);
                }
            }
            assert forall|k: int| 0 <= k < self.maps@.len() implies (#[trigger] self.maps@[k]).wf() by {
                if k != slot {
                    assert(self.maps@[k] == before[k]);
                }
            }
        }
        t
    }

    /// Whether the run is over for the given state of the cancellation flag.
    pub fn is_settled(&self, cancelled: bool) -> (r: bool)
        ensures
            r == settled_spec(self@, cancelled),
    {
        self.live == 0 && (cancelled || self.admitted == self.maps.len())
    }

    /// Ends the batch: its closing event and its result.
    pub fn finish(&self, cancelled: bool) -> (r: (Vec<CoreEvent>, Result<
        Vec<Result<(), BackendError>>,
        BackendError,
    >))
        requires
            settled_spec(self@, cancelled),
        ensures
            r.0@ == finish_spec(self@, cancelled).0,
            match finish_spec(self@, cancelled).1 {
                Ok(rs) => r.1 matches Ok(v) && v@ == rs,
                Err(e) => r.1 == Err::<Vec<Result<(), BackendError>>, BackendError>(e),
            },
    {
        let mut events: Vec<CoreEvent> = Vec::new();
        if cancelled {
            events.push(CoreEvent::BatchCancelled);
            return (events, Err(BackendError::Cancelled));
        }
        events.push(CoreEvent::BatchCompleted(Ok(())));
        let mut results: Vec<Result<(), BackendError>> = Vec::new();
        let n = self.maps.len();
        let mut i: usize = 0;
        while i < n
            invariant
                n == self.maps@.len(),
                i <= n,
                results@ == map_results(self.maps@.take(i as int)),
            decreases n - i,
        {
            results.push(duplicate_result(&self.maps[i].result));
            assert(results@ =~= map_results(self.maps@.take(i + 1)));
            i = i + 1;
        }
        assert(self.maps@.take(n as int) =~= self.maps@);
        (events, Ok(results))
    }
}


/// A batch cancelled before any map was admitted admits none, is over at once, and ends with
/// `BatchCancelled` and `Cancelled`; no step ever starts.
pub proof fn lemma_cancel_before_start(b: BatchView)
    requires
        batch_wf(b),
        b.admitted == 0,
    ensures
        admit_spec(b, true) == (b, None::<(int, PipelineOutcome)>),
        settled_spec(b, true),
        finish_spec(b, true).0 == seq![CoreEvent::BatchCancelled],
        finish_spec(b, true).1 == Err::<Seq<Result<(), BackendError>>, BackendError>(
            BackendError::Cancelled,
        ),
        forall|i: int|
            0 <= i < finish_spec(b, true).0.len() ==> !(#[trigger] finish_spec(b, true).0[i] is StepStarted),
{
    assert forall|k: int| 0 <= k < b.maps.len() implies (#[trigger] b.maps[k]).phase
        == PipelinePhase::NotStarted by {}
    lemma_running_count_zero(b.maps);
}

/// Once cancellation is seen no map is admitted, and a map whose step completes stops there:
/// it starts no further step and is no longer running.
pub proof fn lemma_cancel_stops_admission_and_steps(
    b: BatchView,
    slot: int,
    outcome: Result<(), BackendError>,
)
    requires
        batch_wf(b),
        0 <= slot < b.maps.len(),
        b.maps[slot].phase == PipelinePhase::Running,
    ensures
        admit_spec(b, true).0 == b,
        admit_spec(b, true).1 is None,
        report_spec(b, slot, outcome, true).1.action is Done,
        report_spec(b, slot, outcome, true).0.maps[slot].phase != PipelinePhase::Running,
        forall|i: int|
            0 <= i < report_spec(b, slot, outcome, true).1.events.len() ==> !(
            #[trigger] report_spec(b, slot, outcome, true).1.events[i] is StepStarted),
{
    let o = report_spec(b, slot, outcome, true).1;
    assert forall|i: int| 0 <= i < o.events.len() implies !(#[trigger] o.events[i] is StepStarted) by {
        if i > 0 {
            assert(o.events[i] is MapFinished);
        }
    }
}

/// A failing step ends only its own map: every other map is left exactly as it was, so admitted
/// siblings go on to their own results, and a batch that is not cancelled reports each map's
/// own result.
pub proof fn lemma_failure_is_local(
    b: BatchView,
    slot: int,
    e: BackendError,
    cancelled: bool,
    j: int,
)
    requires
        batch_wf(b),
        0 <= slot < b.maps.len(),
        b.maps[slot].phase == PipelinePhase::Running,
        0 <= j < b.maps.len(),
        j != slot,
    ensures
        report_spec(b, slot, Err(e), cancelled).0.maps[j] == b.maps[j],
        report_spec(b, slot, Err(e), cancelled).0.maps[slot].phase == PipelinePhase::Finished,
        report_spec(b, slot, Err(e), cancelled).0.maps[slot].result == Err::<(), BackendError>(e),
        report_spec(b, slot, Err(e), cancelled).0.admitted == b.admitted,
        finish_spec(report_spec(b, slot, Err(e), cancelled).0, false).1 matches Ok(rs) && rs[j]
            == b.maps[j].result && rs[slot] == Err::<(), BackendError>(e),
{
}

/// In every consistent batch state at most `limit` maps have a step in flight, and admitting or
/// reporting keeps it so.
pub proof fn lemma_live_within_limit(
    b: BatchView,
    cancelled: bool,
    slot: int,
    outcome: Result<(), BackendError>,
)
    requires
        batch_wf(b),
    ensures
        running_count(b.maps) <= b.limit,
        running_count(admit_spec(b, cancelled).0.maps) <= b.limit,
        0 <= slot < b.maps.len() && b.maps[slot].phase == PipelinePhase::Running ==> running_count(
            report_spec(b, slot, outcome, cancelled).0.maps,
        ) <= b.limit,
{
    let a = admit_spec(b, cancelled);
    if a.1 is Some {
        let i = b.admitted as int;
        let o = start_spec(b.maps[i], false);
        lemma_running_count_update(b.maps, i, apply_outcome(b.maps[i], o));
    }
    if 0 <= slot < b.maps.len() && b.maps[slot].phase == PipelinePhase::Running {
        let o = complete_spec(b.maps[slot], outcome, cancelled);
        lemma_running_count_update(b.maps, slot, apply_outcome(b.maps[slot], o));
    }
}

} // verus!
