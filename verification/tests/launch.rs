use hub_launcher::error::LaunchError;
use hub_launcher::launch::complete_launch;
use hub_launcher::plan::detach_policy_for;
use hub_launcher::plan::hub_launch_plan;
use hub_launcher::plan::launch_plan;
use hub_launcher::plan::DetachPolicy;
use hub_launcher::plan::Platform;
use hub_launcher::plan::StreamPolicy;
use hub_launcher::plan::CREATE_NEW_PROCESS_GROUP;
use hub_launcher::plan::CREATE_NO_WINDOW;
use hub_launcher::plan::WINDOWS_DETACH_FLAGS;

#[test]
fn hub_plan_runs_agent_hub_start() {
    let plan = hub_launch_plan(Platform::Posix);
    assert_eq!(plan.program, "agent-hub");
    assert_eq!(plan.args.len(), 1);
    assert_eq!(plan.args[0], "start");
}

#[test]
fn hub_plan_discards_both_output_streams() {
    let plan = hub_launch_plan(Platform::Posix);
    assert_eq!(plan.stdout, StreamPolicy::Discard);
    assert_eq!(plan.stderr, StreamPolicy::Discard);
    let plan = hub_launch_plan(Platform::Windows);
    assert_eq!(plan.stdout, StreamPolicy::Discard);
    assert_eq!(plan.stderr, StreamPolicy::Discard);
}

#[test]
fn posix_policy_is_a_new_session() {
    assert_eq!(detach_policy_for(Platform::Posix), DetachPolicy::NewSession);
    let plan = hub_launch_plan(Platform::Posix);
    assert_eq!(plan.detach, DetachPolicy::NewSession);
}

#[test]
fn windows_policy_sets_both_creation_flags() {
    let policy = detach_policy_for(Platform::Windows);
    assert_eq!(policy, DetachPolicy::CreationFlags(WINDOWS_DETACH_FLAGS));
    match policy {
        DetachPolicy::CreationFlags(flags) => {
            assert_eq!(flags, 0x0800_0200);
            assert_eq!(flags & CREATE_NEW_PROCESS_GROUP, CREATE_NEW_PROCESS_GROUP);
            assert_eq!(flags & CREATE_NO_WINDOW, CREATE_NO_WINDOW);
        }
        DetachPolicy::NewSession => panic!("expected creation flags"),
    }
}

#[test]
fn custom_executable_keeps_the_start_argument() {
    let plan = launch_plan("other-tool", Platform::Windows);
    assert_eq!(plan.program, "other-tool");
    assert_eq!(plan.args, vec!["start".to_owned()]);
    assert_eq!(plan.detach, DetachPolicy::CreationFlags(WINDOWS_DETACH_FLAGS));
}

#[test]
fn successful_spawn_completes_ok() {
    let done = complete_launch(Ok(()));
    assert!(done.is_ok());
}

#[test]
fn failed_spawn_surfaces_an_error_value() {
    let done = complete_launch(Err("No such file or directory (os error 2)".to_owned()));
    match done {
        Ok(()) => panic!("a failed spawn must surface as an error value"),
        Err(e) => {
            assert_eq!(
                e.message(),
                "Failed to spawn agent-hub: No such file or directory (os error 2)"
            );
        }
    }
}

#[test]
fn spawn_failure_message_prepends_the_description() {
    let e = LaunchError::spawn_failure("permission denied");
    assert_eq!(e.message(), "Failed to spawn agent-hub: permission denied");
    assert!(e.message().contains("Failed to spawn agent-hub"));
}
