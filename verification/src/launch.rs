//! Container launch: what is handed to the engine's run primitive, and what
//! its exit status means.

use crate::context::{ContextRole, StorageContext, StorageContextView};
use crate::pipeline::{Acquisition, AcquisitionView, Phase};
use vstd::prelude::*;

verus! {

/// Name of the container that a run starts.
pub const CONTAINER_NAME: &'static str = "rasterize";

/// How a container is started.
#[derive(Clone, Debug)]
pub struct ContainerLaunchSpec {
    /// Name of the container.
    pub name: String,
    /// Forward the caller's standard streams.
    pub interactive: bool,
    /// Leave the container running in the background.
    pub detach: bool,
    /// Hand the caller's environment to the container.
    pub set_env: bool,
    /// Where the engine writes the container's process id, if anywhere.
    pub pidfile: Option<String>,
}

/// A launch specification as sequences of characters.
pub struct ContainerLaunchSpecView {
    pub name: Seq<char>,
    pub interactive: bool,
    pub detach: bool,
    pub set_env: bool,
    pub pidfile: Option<Seq<char>>,
}

impl View for ContainerLaunchSpec {
    type V = ContainerLaunchSpecView;

    open spec fn view(&self) -> ContainerLaunchSpecView {
        ContainerLaunchSpecView {
            name: self.name@,
            interactive: self.interactive,
            detach: self.detach,
            set_env: self.set_env,
            pidfile: self.pidfile.deep_view(),
        }
    }
}

/// The specification of a run in the foreground: interactive, attached,
/// with the caller's environment and without a pidfile.
pub open spec fn foreground_spec() -> ContainerLaunchSpecView {
    ContainerLaunchSpecView {
        name: CONTAINER_NAME@,
        interactive: true,
        detach: false,
        set_env: true,
        pidfile: None,
    }
}

impl ContainerLaunchSpec {
    /// The specification of a run in the foreground.
    pub fn foreground() -> (s: ContainerLaunchSpec)
        ensures
            s@ == foreground_spec(),
    {
        ContainerLaunchSpec {
            name: CONTAINER_NAME.to_owned(),
            interactive: true,
            detach: false,
            set_env: true,
            pidfile: None,
        }
    }
}

/// Everything the engine's run primitive is handed.
pub struct LaunchRequest<'a> {
    /// The image to start the container from.
    pub image: &'a str,
    /// The context to start it in.
    pub context: &'a StorageContext,
    /// How to start it.
    pub spec: ContainerLaunchSpec,
    /// The command line for the container; empty for the image's own.
    pub command: &'a [String],
}

/// A launch request as sequences of characters.
pub struct LaunchRequestView {
    pub image: Seq<char>,
    pub context: StorageContextView,
    pub spec: ContainerLaunchSpecView,
    pub command: Seq<Seq<char>>,
}

impl<'a> View for LaunchRequest<'a> {
    type V = LaunchRequestView;

    open spec fn view(&self) -> LaunchRequestView {
        LaunchRequestView {
            image: self.image@,
            context: self.context@,
            spec: self.spec@,
            command: self.command.deep_view(),
        }
    }
}

/// The launch that follows an acquisition: none unless the acquisition
/// succeeded; then the acquired image, in the run context, in the
/// foreground, with the caller's command line as it is.
pub open spec fn launch_spec(a: AcquisitionView, command: Seq<Seq<char>>) -> Option<
    LaunchRequestView,
> {
    if a.phase is Succeeded {
        Some(
            LaunchRequestView {
                image: a.image,
                context: a.contexts.run,
                spec: foreground_spec(),
                command,
            },
        )
    } else {
        None
    }
}

/// The view of an optional launch request.
pub open spec fn launch_view(r: Option<LaunchRequest<'_>>) -> Option<LaunchRequestView> {
    match r {
        Some(request) => Some(request@),
        None => None,
    }
}

/// The launch request for the image of `acquisition`, to be run with
/// `command`. There is none while the acquisition is under way or after it
/// failed.
pub fn launch_request<'a>(acquisition: &'a Acquisition, command: &'a [String]) -> (r: Option<
    LaunchRequest<'a>,
>)
    ensures
        launch_view(r) == launch_spec(acquisition@, command.deep_view()),
        r matches Some(request) ==> request.context@.role == ContextRole::Run,
{
    match acquisition.phase() {
        Phase::Succeeded(_) => Some(
            LaunchRequest {
                image: acquisition.image(),
                context: acquisition.contexts().select(ContextRole::Run),
                spec: ContainerLaunchSpec::foreground(),
                command,
            },
        ),
        _ => None,
    }
}

/// Why a launched container gave no exit code.
#[derive(Clone, Copy, Debug, PartialEq, Eq, Structural)]
pub enum LaunchError {
    /// The engine process was terminated by a signal instead of exiting.
    Signalled,
}

/// The result of a launch, from what the engine's run primitive reported.
///
/// A process that exited hands its code through unchanged, whatever the
/// code is. A process that a signal ended has no code, and that is an error
/// of its own, never a code.
pub open spec fn exit_status_spec(code: Option<i32>) -> Result<i32, LaunchError> {
    match code {
        Some(c) => Ok(c),
        None => Err(LaunchError::Signalled),
    }
}

/// Turns the exit code that the engine reported (`None` where a signal ended
/// the process) into the result of the launch.
pub fn exit_status(code: Option<i32>) -> (r: Result<i32, LaunchError>)
    ensures
        r == exit_status_spec(code),
{
    match code {
        Some(c) => Ok(c),
        None => Err(LaunchError::Signalled),
    }
}

} // verus!
