use rasterize::context::{ContextRole, EnvironmentDefinition, StorageContexts, RUN_GRAPHROOT};
use rasterize::error::{exit_code, CommandError, ErrorKind};
use rasterize::graphroot::GraphrootError;
use rasterize::launch::{
    exit_status, launch_request, ContainerLaunchSpec, LaunchError, CONTAINER_NAME,
};
use rasterize::pipeline::{AcquireError, Acquisition};

fn acquisition() -> Acquisition {
    let edf = EnvironmentDefinition {
        image: "library/app:1.0".to_string(),
        podman_path: "/usr/bin/podman".to_string(),
        parallax_path: "/opt/parallax/bin/parallax".to_string(),
        parallax_imagestore: "/srv/parallax/store".to_string(),
        parallax_mount_program: "/opt/parallax/bin/mount".to_string(),
    };
    let contexts = StorageContexts::from_edf(&edf, "/var/lib/containers/storage".to_string());
    Acquisition::new(&edf, contexts)
}

#[test]
fn exit_code_zero_passes_through() {
    assert_eq!(exit_status(Some(0)), Ok(0));
}

#[test]
fn exit_code_one_passes_through() {
    assert_eq!(exit_status(Some(1)), Ok(1));
}

#[test]
fn exit_code_127_passes_through() {
    assert_eq!(exit_status(Some(127)), Ok(127));
}

#[test]
fn every_exit_code_passes_through() {
    for code in [-1, 2, 126, 128, 137, 255, i32::MAX, i32::MIN] {
        assert_eq!(exit_status(Some(code)), Ok(code));
    }
}

#[test]
fn signal_is_an_error_and_no_code() {
    let r = exit_status(None);
    assert_eq!(r, Err(LaunchError::Signalled));
    assert_ne!(r, Ok(0));
    assert_ne!(r, Ok(1));
    assert_ne!(r, Ok(127));
}

#[test]
fn foreground_launch_is_interactive_and_attached() {
    let s = ContainerLaunchSpec::foreground();
    assert_eq!(s.name, "rasterize");
    assert_eq!(s.name, CONTAINER_NAME);
    assert!(s.interactive);
    assert!(!s.detach);
    assert!(s.set_env);
    assert_eq!(s.pidfile, None);
}

#[test]
fn no_launch_before_the_image_is_there() {
    let command = vec!["echo".to_string(), "hello".to_string()];
    let mut a = acquisition();
    assert!(launch_request(&a, &command).is_none());
    a.record(false);
    assert!(launch_request(&a, &command).is_none());
    a.record(true);
    a.record(true);
    assert!(launch_request(&a, &command).is_none());
    a.record(true);
    assert!(launch_request(&a, &command).is_some());
}

#[test]
fn no_launch_after_a_failure() {
    let command: Vec<String> = Vec::new();
    let mut pull = acquisition();
    pull.record(false);
    pull.record(false);
    assert!(launch_request(&pull, &command).is_none());
    let mut migration = acquisition();
    migration.record(false);
    migration.record(true);
    migration.record(false);
    assert!(launch_request(&migration, &command).is_none());
    let mut inconsistent = acquisition();
    inconsistent.record(false);
    inconsistent.record(true);
    inconsistent.record(true);
    inconsistent.record(false);
    assert!(launch_request(&inconsistent, &command).is_none());
}

#[test]
fn launch_runs_the_image_in_the_run_context() {
    let command = vec!["sh".to_string(), "-c".to_string(), "exit 3".to_string()];
    let mut a = acquisition();
    a.record(true);
    let request = launch_request(&a, &command).unwrap();
    assert_eq!(request.image, "library/app:1.0");
    assert_eq!(request.context.role(), ContextRole::Run);
    assert_eq!(request.context.graphroot(), Some(RUN_GRAPHROOT));
    assert_eq!(request.context.ro_store(), Some("/srv/parallax/store"));
    assert_eq!(request.command, &command[..]);
    assert_eq!(request.spec.name, "rasterize");
    assert!(request.spec.interactive);
    assert!(!request.spec.detach);
    assert!(request.spec.set_env);
    assert_eq!(request.spec.pidfile, None);
}

#[test]
fn launch_takes_an_empty_command() {
    let command: Vec<String> = Vec::new();
    let mut a = acquisition();
    a.record(true);
    let request = launch_request(&a, &command).unwrap();
    assert!(request.command.is_empty());
}

#[test]
fn process_exits_with_the_container_code_or_one() {
    assert_eq!(exit_code(Ok(0)), 0);
    assert_eq!(exit_code(Ok(1)), 1);
    assert_eq!(exit_code(Ok(127)), 127);
    assert_eq!(exit_code(Err(CommandError::Parse)), 1);
    assert_eq!(exit_code(Err(CommandError::MissingImageStore)), 1);
    assert_eq!(exit_code(Err(CommandError::Contexts(GraphrootError::Decode))), 1);
    assert_eq!(exit_code(Err(CommandError::Acquire(AcquireError::Consistency))), 1);
    assert_eq!(exit_code(Err(CommandError::Launch(LaunchError::Signalled))), 1);
}

#[test]
fn every_failure_has_its_kind() {
    assert_eq!(CommandError::Parse.kind(), ErrorKind::Parse);
    assert_eq!(CommandError::MissingImageStore.kind(), ErrorKind::Config);
    assert_eq!(CommandError::Contexts(GraphrootError::Engine).kind(), ErrorKind::Engine);
    assert_eq!(CommandError::Contexts(GraphrootError::Decode).kind(), ErrorKind::Decode);
    assert_eq!(CommandError::Acquire(AcquireError::Pull).kind(), ErrorKind::Engine);
    assert_eq!(CommandError::Acquire(AcquireError::Migration).kind(), ErrorKind::Migration);
    assert_eq!(CommandError::Acquire(AcquireError::Consistency).kind(), ErrorKind::Consistency);
    assert_eq!(CommandError::Launch(LaunchError::Signalled).kind(), ErrorKind::Engine);
}

#[test]
fn pull_and_migration_failures_are_told_apart() {
    assert_ne!(
        CommandError::Acquire(AcquireError::Pull).kind(),
        CommandError::Acquire(AcquireError::Migration).kind()
    );
    assert_ne!(
        CommandError::Acquire(AcquireError::Migration).kind(),
        CommandError::Acquire(AcquireError::Consistency).kind()
    );
}

#[test]
fn every_failure_has_its_message() {
    assert_eq!(CommandError::Parse.message(), "Failed rendering EDF");
    assert_eq!(
        CommandError::MissingImageStore.message(),
        "Could not retrieve value from PARALLAX_IMAGESTORE"
    );
    assert_eq!(
        CommandError::Contexts(GraphrootError::Engine).message(),
        "Failed to generate Podman contexts: the engine reported failure"
    );
    assert_eq!(
        CommandError::Contexts(GraphrootError::Decode).message(),
        "Failed to generate Podman contexts: the engine output is not valid UTF-8"
    );
    assert_eq!(
        CommandError::Acquire(AcquireError::Pull).message(),
        "Failed pulling image with Podman"
    );
    assert_eq!(CommandError::Acquire(AcquireError::Migration).message(), "Failed migrating parallax");
    assert_eq!(
        CommandError::Acquire(AcquireError::Consistency).message(),
        "Image is missing from the run context after a successful migration"
    );
    assert_eq!(
        CommandError::Launch(LaunchError::Signalled).message(),
        "Container was terminated by a signal"
    );
}
