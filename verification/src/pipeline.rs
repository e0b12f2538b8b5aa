//! The acquisition pipeline: the decisions that bring an image into the
//! read-only store, one engine request at a time.
//!
//! The pipeline makes no engine call itself. It says which request comes
//! next, the caller performs it and hands the answer back, and the pipeline
//! moves on. What it has decided so far is its `Phase`.

use crate::context::{
    ContextRole, EnvironmentDefinition, StorageContext, StorageContextView, StorageContexts,
    StorageContextsView,
};
use vstd::prelude::*;

verus! {

/// One engine operation of the pipeline. The variants stand in the order
/// in which the pipeline asks for them.
#[derive(Clone, Copy, Debug, PartialEq, Eq, Structural)]
pub enum Step {
    /// Ask whether the image is in the read-only store.
    ProbeReadOnly,
    /// Pull the image into the engine's native store.
    Pull,
    /// Migrate the pulled image into the read-only store.
    Migrate,
    /// Ask whether the run context now sees the image.
    ProbeRun,
}

/// How the image came to be available.
#[derive(Clone, Copy, Debug, PartialEq, Eq, Structural)]
pub enum Acquired {
    /// It was in the read-only store already: nothing was pulled or migrated.
    AlreadyPresent,
    /// It was pulled and migrated, and the run context sees it.
    Migrated,
}

/// Why the image is not available.
#[derive(Clone, Copy, Debug, PartialEq, Eq, Structural)]
pub enum AcquireError {
    /// The engine could not pull the image.
    Pull,
    /// The image was pulled, but the migration tool failed on it.
    Migration,
    /// The migration tool reported success, yet the run context does not
    /// see the image.
    Consistency,
}

/// Where the pipeline stands.
#[derive(Clone, Copy, Debug, PartialEq, Eq, Structural)]
pub enum Phase {
    /// The given step is the next engine request.
    Pending(Step),
    /// The image is available; no request is left.
    Succeeded(Acquired),
    /// The pipeline was aborted; no request is left.
    Failed(AcquireError),
}

/// The phase that follows `step` once the engine has answered it.
/// `positive` says that a probe found the image, or that a pull or a
/// migration succeeded.
pub open spec fn next_phase(step: Step, positive: bool) -> Phase {
    match step {
        Step::ProbeReadOnly => if positive {
            Phase::Succeeded(Acquired::AlreadyPresent)
        } else {
            Phase::Pending(Step::Pull)
        },
        Step::Pull => if positive {
            Phase::Pending(Step::Migrate)
        } else {
            Phase::Failed(AcquireError::Pull)
        },
        Step::Migrate => if positive {
            Phase::Pending(Step::ProbeRun)
        } else {
            Phase::Failed(AcquireError::Migration)
        },
        Step::ProbeRun => if positive {
            Phase::Succeeded(Acquired::Migrated)
        } else {
            Phase::Failed(AcquireError::Consistency)
        },
    }
}

/// The phase after an answer has been handed in. Once the pipeline has
/// ended, an answer changes nothing.
pub open spec fn advance(phase: Phase, positive: bool) -> Phase {
    match phase {
        Phase::Pending(step) => next_phase(step, positive),
        _ => phase,
    }
}

/// The result of the pipeline, once it has ended.
pub open spec fn outcome_of(phase: Phase) -> Option<Result<Acquired, AcquireError>> {
    match phase {
        Phase::Pending(_) => None,
        Phase::Succeeded(how) => Some(Ok(how)),
        Phase::Failed(why) => Some(Err(why)),
    }
}

/// The steps of a complete acquisition, in their order.
pub open spec fn pipeline_order() -> Seq<Step> {
    seq![Step::ProbeReadOnly, Step::Pull, Step::Migrate, Step::ProbeRun]
}

/// The number of steps that were answered before the pipeline reached
/// `phase`.
pub open spec fn steps_done(phase: Phase) -> nat {
    match phase {
        Phase::Pending(Step::ProbeReadOnly) => 0,
        Phase::Pending(Step::Pull) => 1,
        Phase::Pending(Step::Migrate) => 2,
        Phase::Pending(Step::ProbeRun) => 3,
        Phase::Succeeded(Acquired::AlreadyPresent) => 1,
        Phase::Succeeded(Acquired::Migrated) => 4,
        Phase::Failed(AcquireError::Pull) => 2,
        Phase::Failed(AcquireError::Migration) => 3,
        Phase::Failed(AcquireError::Consistency) => 4,
    }
}

/// The steps that were answered before the pipeline reached `phase`: the
/// first `steps_done(phase)` steps of the order.
pub open spec fn steps_taken(phase: Phase) -> Seq<Step> {
    pipeline_order().take(steps_done(phase) as int)
}

/// An answer adds the step that was pending to the steps taken, behind the
/// others, and nothing else. An answer after the end adds nothing.
pub proof fn lemma_answer_adds_pending_step(phase: Phase, positive: bool)
    ensures
        steps_taken(advance(phase, positive)) == match phase {
            Phase::Pending(step) => steps_taken(phase).push(step),
            _ => steps_taken(phase),
        },
        steps_taken(Phase::Pending(Step::ProbeReadOnly)) == Seq::<Step>::empty(),
{
}

impl Phase {
    /// The phase that every acquisition starts in.
    pub fn start() -> (p: Phase)
        ensures
            p == Phase::Pending(Step::ProbeReadOnly),
    {
        Phase::Pending(Step::ProbeReadOnly)
    }

    /// The phase after the engine's answer to the pending step.
    pub fn after(self, positive: bool) -> (p: Phase)
        ensures
            p == advance(self, positive),
    {
        match self {
            Phase::Pending(Step::ProbeReadOnly) => if positive {
                Phase::Succeeded(Acquired::AlreadyPresent)
            } else {
                Phase::Pending(Step::Pull)
            },
            Phase::Pending(Step::Pull) => if positive {
                Phase::Pending(Step::Migrate)
            } else {
                Phase::Failed(AcquireError::Pull)
            },
            Phase::Pending(Step::Migrate) => if positive {
                Phase::Pending(Step::ProbeRun)
            } else {
                Phase::Failed(AcquireError::Migration)
            },
            Phase::Pending(Step::ProbeRun) => if positive {
                Phase::Succeeded(Acquired::Migrated)
            } else {
                Phase::Failed(AcquireError::Consistency)
            },
            Phase::Succeeded(_) | Phase::Failed(_) => self,
        }
    }

    /// The result of the pipeline, or `None` while a request is pending.
    pub fn outcome(self) -> (r: Option<Result<Acquired, AcquireError>>)
        ensures
            r == outcome_of(self),
    {
        match self {
            Phase::Pending(_) => None,
            Phase::Succeeded(how) => Some(Ok(how)),
            Phase::Failed(why) => Some(Err(why)),
        }
    }

    /// The steps that were answered so far, oldest first.
    pub fn steps(self) -> (v: Vec<Step>)
        ensures
            v@ == steps_taken(self),
    {
        let done: usize = match self {
            Phase::Pending(Step::ProbeReadOnly) => 0,
            Phase::Pending(Step::Pull) => 1,
            Phase::Pending(Step::Migrate) => 2,
            Phase::Pending(Step::ProbeRun) => 3,
            Phase::Succeeded(Acquired::AlreadyPresent) => 1,
            Phase::Succeeded(Acquired::Migrated) => 4,
            Phase::Failed(AcquireError::Pull) => 2,
            Phase::Failed(AcquireError::Migration) => 3,
            Phase::Failed(AcquireError::Consistency) => 4,
        };
        let mut v: Vec<Step> = Vec::new();
        if done >= 1 {
            v.push(Step::ProbeReadOnly);
        }
        if done >= 2 {
            v.push(Step::Pull);
        }
        if done >= 3 {
            v.push(Step::Migrate);
        }
        if done >= 4 {
            v.push(Step::ProbeRun);
        }
        v
    }
}

/// A request to the engine, with everything the engine needs for it.
pub enum EngineRequest<'a> {
    /// Does `image` exist in `context`?
    ImageExists { image: &'a str, context: &'a StorageContext },
    /// Pull `image` into `context`.
    Pull { image: &'a str, context: &'a StorageContext },
    /// Run the migration tool at `tool_path` on `image`, with `context`.
    Migrate { tool_path: &'a str, context: &'a StorageContext, image: &'a str },
}

/// An engine request as sequences of characters.
pub enum EngineRequestView {
    ImageExists { image: Seq<char>, context: StorageContextView },
    Pull { image: Seq<char>, context: StorageContextView },
    Migrate { tool_path: Seq<char>, context: StorageContextView, image: Seq<char> },
}

impl<'a> View for EngineRequest<'a> {
    type V = EngineRequestView;

    open spec fn view(&self) -> EngineRequestView {
        match *self {
            EngineRequest::ImageExists { image, context } => EngineRequestView::ImageExists {
                image: image@,
                context: context@,
            },
            EngineRequest::Pull { image, context } => EngineRequestView::Pull {
                image: image@,
                context: context@,
            },
            EngineRequest::Migrate { tool_path, context, image } => EngineRequestView::Migrate {
                tool_path: tool_path@,
                context: context@,
                image: image@,
            },
        }
    }
}

/// What is said before a request is made: a pull and a migration are
/// announced with the name of the image, a probe is made silently.
pub open spec fn announcement_spec(request: EngineRequestView) -> Option<Seq<char>> {
    match request {
        EngineRequestView::ImageExists { .. } => None,
        EngineRequestView::Pull { image, .. } => Some("Pulling "@ + image + " with Podman"@),
        EngineRequestView::Migrate { image, .. } => Some(
            "Migrating "@ + image + " with Parallax"@,
        ),
    }
}

/// The line to print before `request` is made, if it is announced.
pub fn announcement(request: &EngineRequest<'_>) -> (line: Option<String>)
    ensures
        line.deep_view() == announcement_spec(request@),
{
    match request {
        EngineRequest::ImageExists { .. } => None,
        EngineRequest::Pull { image, .. } => Some(
            "Pulling ".to_owned().concat(image).concat(" with Podman"),
        ),
        EngineRequest::Migrate { image, .. } => Some(
            "Migrating ".to_owned().concat(image).concat(" with Parallax"),
        ),
    }
}

/// An acquisition as sequences of characters.
pub struct AcquisitionView {
    pub image: Seq<char>,
    pub tool_path: Seq<char>,
    pub contexts: StorageContextsView,
    pub phase: Phase,
}

/// The engine request that `step` stands for in the given acquisition.
/// Each step has its own context: the probes look into the read-only and
/// the run context, the pull goes to the default context and the migration
/// to the migrate context.
pub open spec fn request_for(a: AcquisitionView, step: Step) -> EngineRequestView {
    match step {
        Step::ProbeReadOnly => EngineRequestView::ImageExists {
            image: a.image,
            context: a.contexts.read_only,
        },
        Step::Pull => EngineRequestView::Pull { image: a.image, context: a.contexts.engine_default },
        Step::Migrate => EngineRequestView::Migrate {
            tool_path: a.tool_path,
            context: a.contexts.migrate,
            image: a.image,
        },
        Step::ProbeRun => EngineRequestView::ImageExists {
            image: a.image,
            context: a.contexts.run,
        },
    }
}

/// The request that is pending in the given acquisition, if it has not
/// ended.
pub open spec fn pending_request(a: AcquisitionView) -> Option<EngineRequestView> {
    match a.phase {
        Phase::Pending(step) => Some(request_for(a, step)),
        _ => None,
    }
}

/// The acquisition after an answer has been handed in.
pub open spec fn answered(a: AcquisitionView, positive: bool) -> AcquisitionView {
    AcquisitionView { phase: advance(a.phase, positive), ..a }
}

/// The view of an optional request.
pub open spec fn request_view(r: Option<EngineRequest<'_>>) -> Option<EngineRequestView> {
    match r {
        Some(request) => Some(request@),
        None => None,
    }
}

/// The acquisition of one image: what is to be acquired, the contexts to
/// use, and how far the pipeline has come.
#[derive(Debug)]
pub struct Acquisition {
    image: String,
    tool_path: String,
    contexts: StorageContexts,
    phase: Phase,
}

impl View for Acquisition {
    type V = AcquisitionView;

    closed spec fn view(&self) -> AcquisitionView {
        AcquisitionView {
            image: self.image@,
            tool_path: self.tool_path@,
            contexts: self.contexts@,
            phase: self.phase,
        }
    }
}

impl Acquisition {
    /// A fresh acquisition of the image of `edf`: nothing has been asked of
    /// the engine yet.
    pub fn new(edf: &EnvironmentDefinition, contexts: StorageContexts) -> (a: Acquisition)
        ensures
            a@ == (AcquisitionView {
                image: edf@.image,
                tool_path: edf@.parallax_path,
                contexts: contexts@,
                phase: Phase::Pending(Step::ProbeReadOnly),
            }),
            a@.contexts.well_formed(),
    {
        proof {
            use_type_invariant(&contexts);
        }
        Acquisition {
            image: edf.image.clone(),
            tool_path: edf.parallax_path.clone(),
            contexts,
            phase: Phase::start(),
        }
    }

    /// The identifier of the image that is acquired.
    pub fn image(&self) -> (s: &str)
        ensures
            s@ == self@.image,
    {
        self.image.as_str()
    }

    /// Where the pipeline stands.
    pub fn phase(&self) -> (p: Phase)
        ensures
            p == self@.phase,
    {
        self.phase
    }

    /// The contexts that the acquisition uses.
    pub fn contexts(&self) -> (c: &StorageContexts)
        ensures
            c@ == self@.contexts,
            c@.well_formed(),
    {
        proof {
            use_type_invariant(&self.contexts);
        }
        &self.contexts
    }

    /// The request that the engine is to perform next, or `None` once the
    /// pipeline has ended.
    pub fn next_request(&self) -> (r: Option<EngineRequest<'_>>)
        ensures
            request_view(r) == pending_request(self@),
            self@.contexts.well_formed(),
    {
        proof {
            use_type_invariant(&self.contexts);
        }
        let image = self.image.as_str();
        match self.phase {
            Phase::Pending(Step::ProbeReadOnly) => Some(
                EngineRequest::ImageExists {
                    image,
                    context: self.contexts.select(ContextRole::ReadOnly),
                },
            ),
            Phase::Pending(Step::Pull) => Some(
                EngineRequest::Pull { image, context: self.contexts.select(ContextRole::Default) },
            ),
            Phase::Pending(Step::Migrate) => Some(
                EngineRequest::Migrate {
                    tool_path: self.tool_path.as_str(),
                    context: self.contexts.select(ContextRole::Migrate),
                    image,
                },
            ),
            Phase::Pending(Step::ProbeRun) => Some(
                EngineRequest::ImageExists {
                    image,
                    context: self.contexts.select(ContextRole::Run),
                },
            ),
            Phase::Succeeded(_) | Phase::Failed(_) => None,
        }
    }

    /// Hands in the engine's answer to the pending request: whether the
    /// probe found the image, or whether the pull or the migration
    /// succeeded. Once the pipeline has ended, an answer changes nothing.
    pub fn record(&mut self, positive: bool)
        ensures
            final(self)@ == answered(old(self)@, positive),
    {
        self.phase = self.phase.after(positive);
    }

    /// The result of the pipeline, or `None` while a request is pending.
    pub fn outcome(&self) -> (r: Option<Result<Acquired, AcquireError>>)
        ensures
            r == outcome_of(self@.phase),
    {
        self.phase.outcome()
    }

    /// The steps that the engine has answered so far, oldest first.
    pub fn steps(&self) -> (v: Vec<Step>)
        ensures
            v@ == steps_taken(self@.phase),
    {
        self.phase.steps()
    }
}

} // verus!
