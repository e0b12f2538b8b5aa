//! Whole runs of the acquisition pipeline, against every engine.
//!
//! A caller drives the pipeline by performing the pending request and
//! handing the answer in, until no request is pending. `run` is that loop
//! as a specification, and the proof functions below say what it does.

use crate::context::ContextRole;
use crate::pipeline::{
    answered, request_for, steps_done, AcquireError, Acquired, Acquisition, AcquisitionView,
    EngineRequest, EngineRequestView, Phase, Step,
};
use vstd::prelude::*;

verus! {

/// An engine as the pipeline meets it: the answer it gives to each request
/// that the pipeline can make.
pub struct EngineModel {
    /// The image is in the engine's native store.
    pub default_store_has_image: bool,
    /// The image is in the read-only store when the pipeline starts.
    pub read_only_store_has_image: bool,
    /// The run context sees the image when it is probed after a migration.
    pub run_store_has_image: bool,
    /// A pull of the image succeeds.
    pub pull_succeeds: bool,
    /// A migration of the image succeeds.
    pub migrate_succeeds: bool,
}

impl EngineModel {
    /// The answer to `request`. A probe is answered by the store that its
    /// context looks into; the migrate context looks into the native store.
    pub open spec fn answer(self, request: EngineRequestView) -> bool {
        match request {
            EngineRequestView::ImageExists { context, .. } => match context.role {
                ContextRole::Default | ContextRole::Migrate => self.default_store_has_image,
                ContextRole::ReadOnly => self.read_only_store_has_image,
                ContextRole::Run => self.run_store_has_image,
            },
            EngineRequestView::Pull { .. } => self.pull_succeeds,
            EngineRequestView::Migrate { .. } => self.migrate_succeeds,
        }
    }

    /// The answer that this engine gives to `request`.
    pub fn answer_to(&self, request: &EngineRequest<'_>) -> (positive: bool)
        ensures
            positive == self.answer(request@),
    {
        match request {
            EngineRequest::ImageExists { context, .. } => match context.role() {
                ContextRole::Default | ContextRole::Migrate => self.default_store_has_image,
                ContextRole::ReadOnly => self.read_only_store_has_image,
                ContextRole::Run => self.run_store_has_image,
            },
            EngineRequest::Pull { .. } => self.pull_succeeds,
            EngineRequest::Migrate { .. } => self.migrate_succeeds,
        }
    }
}

/// What a run did: the requests it made, oldest first, and the phase it
/// ended in.
pub struct Run {
    pub requests: Seq<EngineRequestView>,
    pub end: Phase,
}

/// The run of acquisition `a` against `engine`: as long as a request is
/// pending, it is made and the engine's answer is handed in.
pub open spec fn run(a: AcquisitionView, engine: EngineModel) -> Run
    decreases 4 - steps_done(a.phase),
{
    match a.phase {
        Phase::Pending(step) => {
            let request = request_for(a, step);
            let rest = run(answered(a, engine.answer(request)), engine);
            Run { requests: seq![request] + rest.requests, end: rest.end }
        },
        _ => Run { requests: Seq::empty(), end: a.phase },
    }
}

/// Runs `acquisition` to its end against `engine`, and returns the number
/// of requests that were made on the way.
pub fn run_against(acquisition: &mut Acquisition, engine: &EngineModel) -> (made: usize)
    ensures
        final(acquisition)@ == (AcquisitionView {
            phase: run(old(acquisition)@, *engine).end,
            ..old(acquisition)@
        }),
        made == run(old(acquisition)@, *engine).requests.len(),
        !(final(acquisition)@.phase is Pending),
{
    let mut made: usize = 0;
    loop
        invariant
            acquisition@ == (AcquisitionView { phase: acquisition@.phase, ..old(acquisition)@ }),
            made <= steps_done(acquisition@.phase) <= 4,
            run(old(acquisition)@, *engine).end == run(acquisition@, *engine).end,
            run(old(acquisition)@, *engine).requests.len() == made + run(
                acquisition@,
                *engine,
            ).requests.len(),
        ensures
            !(acquisition@.phase is Pending),
        decreases 4 - steps_done(acquisition@.phase),
    {
        let positive = match acquisition.next_request() {
            Some(request) => engine.answer_to(&request),
            None => {
                break ;
            },
        };
        acquisition.record(positive);
        made = made + 1;
    }
    made
}

/// The requests of a complete acquisition, in their order: the probe of the
/// read-only store, the pull, the migration, the probe of the run context.
pub open spec fn requests_in_order(a: AcquisitionView) -> Seq<EngineRequestView> {
    seq![
        request_for(a, Step::ProbeReadOnly),
        request_for(a, Step::Pull),
        request_for(a, Step::Migrate),
        request_for(a, Step::ProbeRun),
    ]
}

/// A fresh acquisition whose contexts have their roles.
pub open spec fn fresh(a: AcquisitionView) -> bool {
    &&& a.phase == Phase::Pending(Step::ProbeReadOnly)
    &&& a.contexts.well_formed()
}

/// The run of a fresh acquisition, spelled out for each engine.
proof fn lemma_run_unfolded(a: AcquisitionView, engine: EngineModel)
    requires
        fresh(a),
    ensures
        run(a, engine).end == if engine.read_only_store_has_image {
            Phase::Succeeded(Acquired::AlreadyPresent)
        } else if !engine.pull_succeeds {
            Phase::Failed(AcquireError::Pull)
        } else if !engine.migrate_succeeds {
            Phase::Failed(AcquireError::Migration)
        } else if !engine.run_store_has_image {
            Phase::Failed(AcquireError::Consistency)
        } else {
            Phase::Succeeded(Acquired::Migrated)
        },
        run(a, engine).requests == requests_in_order(a).take(steps_done(run(a, engine).end) as int),
{
    reveal_with_fuel(run, 5);
    assert(run(a, engine).requests =~= requests_in_order(a).take(
        steps_done(run(a, engine).end) as int,
    ));
}

/// Where the image is in the read-only store already, the run makes one
/// request, the probe of the read-only store, and succeeds. It neither
/// pulls nor migrates.
pub proof fn lemma_present_image_is_only_probed(a: AcquisitionView, engine: EngineModel)
    requires
        fresh(a),
        engine.read_only_store_has_image,
    ensures
        run(a, engine).requests == seq![
            EngineRequestView::ImageExists { image: a.image, context: a.contexts.read_only },
        ],
        run(a, engine).end == Phase::Succeeded(Acquired::AlreadyPresent),
{
    lemma_run_unfolded(a, engine);
    assert(requests_in_order(a).take(1) =~= seq![request_for(a, Step::ProbeReadOnly)]);
}

/// Whatever the engine answers, the requests of a run are an initial part
/// of the pipeline's order. So a pull comes only after the probe of the
/// read-only store, a migration only after the pull, and the probe of the
/// run context only after the migration; none is made twice.
pub proof fn lemma_requests_follow_order(a: AcquisitionView, engine: EngineModel)
    requires
        fresh(a),
    ensures
        1 <= run(a, engine).requests.len() <= 4,
        run(a, engine).requests.len() == steps_done(run(a, engine).end),
        run(a, engine).requests == requests_in_order(a).take(run(a, engine).requests.len() as int),
        !engine.read_only_store_has_image ==> run(a, engine).requests.len() >= 2,
{
    lemma_run_unfolded(a, engine);
}

/// Where the image is missing and the pull fails, the run ends with the
/// pull error after the probe and the pull. No migration is requested.
pub proof fn lemma_failed_pull_ends_run(a: AcquisitionView, engine: EngineModel)
    requires
        fresh(a),
        !engine.read_only_store_has_image,
        !engine.pull_succeeds,
    ensures
        run(a, engine).end == Phase::Failed(AcquireError::Pull),
        run(a, engine).requests == seq![
            request_for(a, Step::ProbeReadOnly),
            request_for(a, Step::Pull),
        ],
        forall|i: int|
            0 <= i < run(a, engine).requests.len() ==> !(run(a, engine).requests[i] is Migrate),
{
    lemma_run_unfolded(a, engine);
    assert(requests_in_order(a).take(2) =~= seq![
        request_for(a, Step::ProbeReadOnly),
        request_for(a, Step::Pull),
    ]);
}

/// Where the image was pulled and the migration fails, the run ends with
/// the migration error. The run context is never probed.
pub proof fn lemma_failed_migration_ends_run(a: AcquisitionView, engine: EngineModel)
    requires
        fresh(a),
        !engine.read_only_store_has_image,
        engine.pull_succeeds,
        !engine.migrate_succeeds,
    ensures
        run(a, engine).end == Phase::Failed(AcquireError::Migration),
        run(a, engine).requests == seq![
            request_for(a, Step::ProbeReadOnly),
            request_for(a, Step::Pull),
            request_for(a, Step::Migrate),
        ],
        forall|i: int|
            0 <= i < run(a, engine).requests.len() ==> run(a, engine).requests[i]
                != request_for(a, Step::ProbeRun),
{
    lemma_run_unfolded(a, engine);
    assert(requests_in_order(a).take(3) =~= seq![
        request_for(a, Step::ProbeReadOnly),
        request_for(a, Step::Pull),
        request_for(a, Step::Migrate),
    ]);
}

/// Where the migration reported success, the run succeeds if the run
/// context sees the image, and ends with the consistency error if it does
/// not. Either way all four requests were made, each once.
pub proof fn lemma_migration_is_checked(a: AcquisitionView, engine: EngineModel)
    requires
        fresh(a),
        !engine.read_only_store_has_image,
        engine.pull_succeeds,
        engine.migrate_succeeds,
    ensures
        run(a, engine).end == if engine.run_store_has_image {
            Phase::Succeeded(Acquired::Migrated)
        } else {
            Phase::Failed(AcquireError::Consistency)
        },
        run(a, engine).requests == requests_in_order(a),
{
    lemma_run_unfolded(a, engine);
    assert(requests_in_order(a).take(4) =~= requests_in_order(a));
}

/// The first request of every run is a probe of the read-only context, and
/// nothing in a run depends on what the engine's native store holds. An
/// image that is in the native store alone is pulled and, where the pull
/// succeeds, migrated.
pub proof fn lemma_native_store_is_not_consulted(
    a: AcquisitionView,
    engine: EngineModel,
    other: EngineModel,
)
    requires
        fresh(a),
        other == (EngineModel {
            default_store_has_image: !engine.default_store_has_image,
            ..engine
        }),
    ensures
        run(a, engine).requests[0] == (EngineRequestView::ImageExists {
            image: a.image,
            context: a.contexts.read_only,
        }),
        a.contexts.read_only.role == ContextRole::ReadOnly,
        run(a, other) == run(a, engine),
        !engine.read_only_store_has_image ==> run(a, engine).requests[1] == request_for(
            a,
            Step::Pull,
        ),
        !engine.read_only_store_has_image && engine.pull_succeeds ==> run(a, engine).requests[2]
            == request_for(a, Step::Migrate),
{
    lemma_run_unfolded(a, engine);
    lemma_run_unfolded(a, other);
}

} // verus!
