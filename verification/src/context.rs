//! The storage contexts that parameterise every engine operation.

use crate::graphroot::{get_podman_default_graphroot, graphroot_spec, EngineOutput, GraphrootError};
use vstd::prelude::*;

verus! {

/// Graph root of the run context: scratch space that the engine recreates
/// on each invocation.
pub const RUN_GRAPHROOT: &'static str = "/fast-temp/rasterize-run/graphroot";

/// Run root of the run context, beside its graph root.
pub const RUN_RUNROOT: &'static str = "/fast-temp/rasterize-run/runroot";

/// Location of the engine binary where no environment definition names one.
pub const DEFAULT_PODMAN_PATH: &'static str = "/usr/bin/podman";

/// The environment variable that names the read-only image store where no
/// environment definition does.
pub const IMAGESTORE_VARIABLE: &'static str = "PARALLAX_IMAGESTORE";

/// The template that makes the engine's `info` primitive print its graph
/// root and nothing else.
pub const GRAPHROOT_TEMPLATE: &'static str = "{{.Store.GraphRoot}}";

/// The fields of a rendered environment definition that image resolution and
/// container launch read.
#[derive(Clone, Debug)]
pub struct EnvironmentDefinition {
    /// Identifier of the image to run.
    pub image: String,
    /// Location of the engine binary.
    pub podman_path: String,
    /// Location of the migration tool.
    pub parallax_path: String,
    /// Root of the read-only image store.
    pub parallax_imagestore: String,
    /// Location of the mount helper binary.
    pub parallax_mount_program: String,
}

/// An environment definition as sequences of characters.
pub struct EnvironmentDefinitionView {
    pub image: Seq<char>,
    pub podman_path: Seq<char>,
    pub parallax_path: Seq<char>,
    pub parallax_imagestore: Seq<char>,
    pub parallax_mount_program: Seq<char>,
}

impl View for EnvironmentDefinition {
    type V = EnvironmentDefinitionView;

    open spec fn view(&self) -> EnvironmentDefinitionView {
        EnvironmentDefinitionView {
            image: self.image@,
            podman_path: self.podman_path@,
            parallax_path: self.parallax_path@,
            parallax_imagestore: self.parallax_imagestore@,
            parallax_mount_program: self.parallax_mount_program@,
        }
    }
}

/// What a storage context is used for.
#[derive(Clone, Copy, Debug, PartialEq, Eq, Structural)]
pub enum ContextRole {
    /// The engine's native store: images are pulled into it.
    Default,
    /// The target of the migration step.
    Migrate,
    /// The read-only store, where migrated images are looked up.
    ReadOnly,
    /// The scratch store that a container is started from.
    Run,
}

/// A storage context as sequences of characters.
pub struct StorageContextView {
    pub role: ContextRole,
    pub podman_path: Seq<char>,
    pub graphroot: Option<Seq<char>>,
    pub runroot: Option<Seq<char>>,
    pub parallax_mount_program: Option<Seq<char>>,
    pub ro_store: Option<Seq<char>>,
}

impl StorageContextView {
    /// Each role sets its own locations and leaves the others to the engine.
    pub open spec fn well_formed(self) -> bool {
        match self.role {
            ContextRole::Default => {
                &&& self.graphroot is None
                &&& self.runroot is None
                &&& self.parallax_mount_program is None
                &&& self.ro_store is None
            },
            ContextRole::Migrate => {
                &&& self.graphroot is Some
                &&& self.runroot is None
                &&& self.parallax_mount_program is None
                &&& self.ro_store is Some
            },
            ContextRole::ReadOnly => {
                &&& self.graphroot is Some
                &&& self.runroot is None
                &&& self.parallax_mount_program is None
                &&& self.ro_store is None
            },
            ContextRole::Run => {
                &&& self.graphroot is Some
                &&& self.runroot is Some
                &&& self.parallax_mount_program is Some
                &&& self.ro_store is Some
            },
        }
    }
}

/// The default context: every location is left to the engine.
pub open spec fn default_context(podman_path: Seq<char>) -> StorageContextView {
    StorageContextView {
        role: ContextRole::Default,
        podman_path,
        graphroot: None,
        runroot: None,
        parallax_mount_program: None,
        ro_store: None,
    }
}

/// The migrate context: the engine's own graph root, with the read-only
/// store beside it.
pub open spec fn migrate_context(
    podman_path: Seq<char>,
    default_graphroot: Seq<char>,
    imagestore: Seq<char>,
) -> StorageContextView {
    StorageContextView {
        role: ContextRole::Migrate,
        podman_path,
        graphroot: Some(default_graphroot),
        runroot: None,
        parallax_mount_program: None,
        ro_store: Some(imagestore),
    }
}

/// The read-only context: the read-only store taken as graph root.
pub open spec fn read_only_context(
    podman_path: Seq<char>,
    imagestore: Seq<char>,
) -> StorageContextView {
    StorageContextView {
        role: ContextRole::ReadOnly,
        podman_path,
        graphroot: Some(imagestore),
        runroot: None,
        parallax_mount_program: None,
        ro_store: None,
    }
}

/// The run context: the scratch roots, the mount program and the read-only
/// store.
pub open spec fn run_context(
    podman_path: Seq<char>,
    mount_program: Seq<char>,
    imagestore: Seq<char>,
) -> StorageContextView {
    StorageContextView {
        role: ContextRole::Run,
        podman_path,
        graphroot: Some(RUN_GRAPHROOT@),
        runroot: Some(RUN_RUNROOT@),
        parallax_mount_program: Some(mount_program),
        ro_store: Some(imagestore),
    }
}

/// Where the engine looks for and writes image and container state.
///
/// A context is configuration only. It is built once, by the constructor of
/// its role, and never changes afterwards.
#[derive(Debug)]
pub struct StorageContext {
    role: ContextRole,
    podman_path: String,
    graphroot: Option<String>,
    runroot: Option<String>,
    parallax_mount_program: Option<String>,
    ro_store: Option<String>,
}

impl View for StorageContext {
    type V = StorageContextView;

    closed spec fn view(&self) -> StorageContextView {
        StorageContextView {
            role: self.role,
            podman_path: self.podman_path@,
            graphroot: self.graphroot.deep_view(),
            runroot: self.runroot.deep_view(),
            parallax_mount_program: self.parallax_mount_program.deep_view(),
            ro_store: self.ro_store.deep_view(),
        }
    }
}

/// A borrowed optional location.
fn borrowed(location: &Option<String>) -> (r: Option<&str>)
    ensures
        r.deep_view() == location.deep_view(),
{
    match location {
        Some(s) => Some(s.as_str()),
        None => None,
    }
}

impl StorageContext {
    /// Every context has the locations of its role, and no others.
    #[verifier::type_invariant]
    pub open spec fn role_sets_locations(self) -> bool {
        self@.well_formed()
    }

    /// The context of the engine's native store.
    pub fn engine_default(podman_path: String) -> (c: StorageContext)
        ensures
            c@ == default_context(podman_path@),
    {
        StorageContext {
            role: ContextRole::Default,
            podman_path,
            graphroot: None,
            runroot: None,
            parallax_mount_program: None,
            ro_store: None,
        }
    }

    /// The context that the migration step writes through.
    pub fn migrate(podman_path: String, default_graphroot: String, imagestore: String) -> (c:
        StorageContext)
        ensures
            c@ == migrate_context(podman_path@, default_graphroot@, imagestore@),
    {
        StorageContext {
            role: ContextRole::Migrate,
            podman_path,
            graphroot: Some(default_graphroot),
            runroot: None,
            parallax_mount_program: None,
            ro_store: Some(imagestore),
        }
    }

    /// The context in which migrated images are looked up.
    pub fn read_only(podman_path: String, imagestore: String) -> (c: StorageContext)
        ensures
            c@ == read_only_context(podman_path@, imagestore@),
    {
        StorageContext {
            role: ContextRole::ReadOnly,
            podman_path,
            graphroot: Some(imagestore),
            runroot: None,
            parallax_mount_program: None,
            ro_store: None,
        }
    }

    /// The context that a container is started in.
    pub fn run(podman_path: String, mount_program: String, imagestore: String) -> (c:
        StorageContext)
        ensures
            c@ == run_context(podman_path@, mount_program@, imagestore@),
    {
        StorageContext {
            role: ContextRole::Run,
            podman_path,
            graphroot: Some(RUN_GRAPHROOT.to_owned()),
            runroot: Some(RUN_RUNROOT.to_owned()),
            parallax_mount_program: Some(mount_program),
            ro_store: Some(imagestore),
        }
    }

    /// The role this context was built for.
    pub fn role(&self) -> (r: ContextRole)
        ensures
            r == self@.role,
            self@.well_formed(),
    {
        proof {
            use_type_invariant(self);
        }
        self.role
    }

    /// Location of the engine binary.
    pub fn podman_path(&self) -> (r: &str)
        ensures
            r@ == self@.podman_path,
    {
        self.podman_path.as_str()
    }

    /// The graph root, where the role sets one.
    pub fn graphroot(&self) -> (r: Option<&str>)
        ensures
            r.deep_view() == self@.graphroot,
    {
        borrowed(&self.graphroot)
    }

    /// The run root, where the role sets one.
    pub fn runroot(&self) -> (r: Option<&str>)
        ensures
            r.deep_view() == self@.runroot,
    {
        borrowed(&self.runroot)
    }

    /// The mount program, where the role sets one.
    pub fn parallax_mount_program(&self) -> (r: Option<&str>)
        ensures
            r.deep_view() == self@.parallax_mount_program,
    {
        borrowed(&self.parallax_mount_program)
    }

    /// The read-only store, where the role sets one.
    pub fn ro_store(&self) -> (r: Option<&str>)
        ensures
            r.deep_view() == self@.ro_store,
    {
        borrowed(&self.ro_store)
    }
}

/// What the engine's `info` primitive is asked when the default graph root
/// is to be discovered.
#[derive(Debug)]
pub struct GraphrootRequest {
    /// The template that the engine fills in.
    pub template: &'static str,
    /// The context in which the engine is asked.
    pub context: StorageContext,
}

/// The request that discovers the default graph root of the engine at
/// `podman_path`: `GRAPHROOT_TEMPLATE`, asked in the default context of that
/// engine, so that the engine answers for its native store.
pub fn graphroot_request(podman_path: String) -> (r: GraphrootRequest)
    ensures
        r.template@ == GRAPHROOT_TEMPLATE@,
        r.context@ == default_context(podman_path@),
{
    GraphrootRequest {
        template: GRAPHROOT_TEMPLATE,
        context: StorageContext::engine_default(podman_path),
    }
}

/// The four contexts of one invocation as sequences of characters.
pub struct StorageContextsView {
    pub engine_default: StorageContextView,
    pub migrate: StorageContextView,
    pub read_only: StorageContextView,
    pub run: StorageContextView,
}

impl StorageContextsView {
    /// Each of the four contexts has the role of its place.
    pub open spec fn well_formed(self) -> bool {
        &&& self.engine_default.well_formed() && self.engine_default.role == ContextRole::Default
        &&& self.migrate.well_formed() && self.migrate.role == ContextRole::Migrate
        &&& self.read_only.well_formed() && self.read_only.role == ContextRole::ReadOnly
        &&& self.run.well_formed() && self.run.role == ContextRole::Run
    }

    /// The context of the given role.
    pub open spec fn of(self, role: ContextRole) -> StorageContextView {
        match role {
            ContextRole::Default => self.engine_default,
            ContextRole::Migrate => self.migrate,
            ContextRole::ReadOnly => self.read_only,
            ContextRole::Run => self.run,
        }
    }
}

/// The contexts that an environment definition asks for, given the graph
/// root that the engine uses by default.
pub open spec fn contexts_from_edf(
    edf: EnvironmentDefinitionView,
    default_graphroot: Seq<char>,
) -> StorageContextsView {
    StorageContextsView {
        engine_default: default_context(edf.podman_path),
        migrate: migrate_context(edf.podman_path, default_graphroot, edf.parallax_imagestore),
        read_only: read_only_context(edf.podman_path, edf.parallax_imagestore),
        run: run_context(edf.podman_path, edf.parallax_mount_program, edf.parallax_imagestore),
    }
}

/// The contexts that an environment definition and the engine's `info`
/// output stand for: those of the definition with the graph root read from
/// the output, or the error that reading it gives.
pub open spec fn generate_spec(
    edf: EnvironmentDefinitionView,
    exit_code: Option<i32>,
    stdout: Seq<u8>,
) -> Result<StorageContextsView, GraphrootError> {
    match graphroot_spec(exit_code, stdout) {
        Ok(default_graphroot) => Ok(contexts_from_edf(edf, default_graphroot)),
        Err(e) => Err(e),
    }
}

/// One context of each role, for one invocation.
#[derive(Debug)]
pub struct StorageContexts {
    engine_default: StorageContext,
    migrate: StorageContext,
    read_only: StorageContext,
    run: StorageContext,
}

impl View for StorageContexts {
    type V = StorageContextsView;

    closed spec fn view(&self) -> StorageContextsView {
        StorageContextsView {
            engine_default: self.engine_default@,
            migrate: self.migrate@,
            read_only: self.read_only@,
            run: self.run@,
        }
    }
}

impl StorageContexts {
    /// Each context stands in the place of its role.
    #[verifier::type_invariant]
    pub open spec fn roles_in_place(self) -> bool {
        self@.well_formed()
    }

    /// The contexts of an environment definition, given the engine's default
    /// graph root.
    pub fn from_edf(edf: &EnvironmentDefinition, default_graphroot: String) -> (c: StorageContexts)
        ensures
            c@ == contexts_from_edf(edf@, default_graphroot@),
    {
        StorageContexts {
            engine_default: StorageContext::engine_default(edf.podman_path.clone()),
            migrate: StorageContext::migrate(
                edf.podman_path.clone(),
                default_graphroot,
                edf.parallax_imagestore.clone(),
            ),
            read_only: StorageContext::read_only(
                edf.podman_path.clone(),
                edf.parallax_imagestore.clone(),
            ),
            run: StorageContext::run(
                edf.podman_path.clone(),
                edf.parallax_mount_program.clone(),
                edf.parallax_imagestore.clone(),
            ),
        }
    }

    /// The context of the given role.
    pub fn select(&self, role: ContextRole) -> (c: &StorageContext)
        ensures
            c@ == self@.of(role),
            c@.role == role,
            self@.well_formed(),
    {
        proof {
            use_type_invariant(self);
        }
        match role {
            ContextRole::Default => &self.engine_default,
            ContextRole::Migrate => &self.migrate,
            ContextRole::ReadOnly => &self.read_only,
            ContextRole::Run => &self.run,
        }
    }
}

/// The view of a generation result.
pub open spec fn generated_view(r: Result<StorageContexts, GraphrootError>) -> Result<
    StorageContextsView,
    GraphrootError,
> {
    match r {
        Ok(contexts) => Ok(contexts@),
        Err(e) => Err(e),
    }
}

/// Builds the four storage contexts of an environment definition.
///
/// `info` is what the engine gave to `graphroot_request` for the engine of
/// `edf`. Where no graph root can be read from it, no context is built and
/// the error says why.
pub fn generate_podman_contexts_from_edf(edf: &EnvironmentDefinition, info: &EngineOutput) -> (r:
    Result<StorageContexts, GraphrootError>)
    ensures
        generated_view(r) == generate_spec(edf@, info.exit_code, info.stdout@),
        r matches Ok(contexts) ==> contexts@.well_formed(),
{
    match get_podman_default_graphroot(info) {
        Ok(default_graphroot) => Ok(StorageContexts::from_edf(edf, default_graphroot)),
        Err(e) => Err(e),
    }
}

/// No read-only image store was configured.
#[derive(Clone, Copy, Debug, PartialEq, Eq, Structural)]
pub struct MissingImageStore;

/// The view of a configured image store.
pub open spec fn imagestore_view(r: Result<String, MissingImageStore>) -> Result<
    Seq<char>,
    MissingImageStore,
> {
    match r {
        Ok(store) => Ok(store@),
        Err(e) => Err(e),
    }
}

/// The read-only image store that was configured. Where none was, nothing
/// stands in for it: that is an error.
pub fn require_imagestore(configured: Option<String>) -> (r: Result<String, MissingImageStore>)
    ensures
        imagestore_view(r) == match configured {
            Some(store) => Ok::<Seq<char>, MissingImageStore>(store@),
            None => Err(MissingImageStore),
        },
{
    match configured {
        Some(store) => Ok(store),
        None => Err(MissingImageStore),
    }
}

/// The context in which images are listed: the engine at
/// `DEFAULT_PODMAN_PATH`, its own graph root, and the read-only store
/// beside it.
pub open spec fn images_spec(imagestore: Seq<char>, exit_code: Option<i32>, stdout: Seq<u8>) -> Result<
    StorageContextView,
    GraphrootError,
> {
    match graphroot_spec(exit_code, stdout) {
        Ok(default_graphroot) => Ok(
            migrate_context(DEFAULT_PODMAN_PATH@, default_graphroot, imagestore),
        ),
        Err(e) => Err(e),
    }
}

/// The view of a context that may have failed to build.
pub open spec fn context_view(r: Result<StorageContext, GraphrootError>) -> Result<
    StorageContextView,
    GraphrootError,
> {
    match r {
        Ok(context) => Ok(context@),
        Err(e) => Err(e),
    }
}

/// Builds the context in which the images of the read-only store at
/// `imagestore` are listed.
///
/// `info` is what the engine gave to `graphroot_request` for the engine at
/// `DEFAULT_PODMAN_PATH`. Where no graph root can be read from it, no
/// context is built and the error says why.
pub fn images_context(imagestore: String, info: &EngineOutput) -> (r: Result<
    StorageContext,
    GraphrootError,
>)
    ensures
        context_view(r) == images_spec(imagestore@, info.exit_code, info.stdout@),
{
    match get_podman_default_graphroot(info) {
        Ok(default_graphroot) => Ok(
            StorageContext::migrate(DEFAULT_PODMAN_PATH.to_owned(), default_graphroot, imagestore),
        ),
        Err(e) => Err(e),
    }
}

} // verus!
