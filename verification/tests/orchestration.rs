use projectmaker::arguments::{Arguments, OtherArguments, ProjectArguments};
use projectmaker::makers::{
    BaseProbe, InitializeStep, MakersStructure, ReInitializer, ReInitializerResult,
};
use projectmaker::orchestrator::{
    after_initialize, after_reinitialize, is_confirmation, on_confirmation, OrchestratorStep,
};
use projectmaker::runner::LifecycleError;

fn good_probe() -> BaseProbe {
    BaseProbe { found: true, is_dir: true }
}

#[test]
fn confirmation_accepts_y_and_yes() {
    assert!(is_confirmation("y"));
    assert!(is_confirmation("Y"));
    assert!(is_confirmation("yes"));
    assert!(is_confirmation("YES"));
    assert!(is_confirmation("Yes"));
    assert!(is_confirmation("  yes \n"));
    assert!(is_confirmation("\ty\r\n"));
}

#[test]
fn confirmation_trims_all_unicode_whitespace() {
    assert!(is_confirmation("\u{000B}y"));
    assert!(is_confirmation("\u{000C}yes\u{000C}"));
    assert!(is_confirmation("\u{00A0}YES\u{00A0}"));
    assert!(is_confirmation("\u{2003}y\u{3000}"));
    assert!(is_confirmation("\u{0085}\u{2028}y\u{2029}"));
}

#[test]
fn confirmation_declines_everything_else() {
    assert!(!is_confirmation("n"));
    assert!(!is_confirmation("no"));
    assert!(!is_confirmation(""));
    assert!(!is_confirmation("   "));
    assert!(!is_confirmation("yess"));
    assert!(!is_confirmation("y e s"));
    assert!(!is_confirmation("oui"));
    // A zero-width space has no White_Space property, so it is not trimmed.
    assert!(!is_confirmation("\u{200B}y"));
}

#[test]
fn success_and_failure_end_the_protocol() {
    match after_initialize(ReInitializerResult::Completed, false) {
        OrchestratorStep::Done(Ok(())) => (),
        _ => panic!("a completed initialize must end the protocol successfully"),
    }
    let failure = ReInitializerResult::Failed(LifecycleError::CommandNotFound {
        program: String::from("git"),
    });
    match after_initialize(failure, true) {
        OrchestratorStep::Done(Err(LifecycleError::CommandNotFound { program })) => {
            assert_eq!(program, "git");
        },
        _ => panic!("a failed initialize must end the protocol with its error"),
    }
}

#[test]
fn warning_with_skip_flag_reinitializes_without_input() {
    let status = ReInitializerResult::Warning(String::from("project directory is already exists"));
    match after_initialize(status, true) {
        OrchestratorStep::Reinitialize => (),
        _ => panic!("the skip flag must confirm the warning directly"),
    }
}

#[test]
fn warning_without_skip_flag_asks_and_decline_is_success() {
    let status = ReInitializerResult::Warning(String::from("project directory is already exists"));
    match after_initialize(status, false) {
        OrchestratorStep::AskConfirmation(w) => {
            assert_eq!(w, "project directory is already exists");
        },
        _ => panic!("without the skip flag the warning must become a question"),
    }
    let confirmed = is_confirmation("n");
    assert!(!confirmed);
    match on_confirmation(confirmed) {
        OrchestratorStep::Done(Ok(())) => (),
        _ => panic!("a decline must end the protocol successfully"),
    }
}

#[test]
fn confirmation_proceeds_to_reinitialize() {
    match on_confirmation(is_confirmation("yes")) {
        OrchestratorStep::Reinitialize => (),
        _ => panic!("a confirmation must proceed to reinitialization"),
    }
}

#[test]
fn only_a_failure_propagates_from_reinitialize() {
    assert!(after_reinitialize(ReInitializerResult::Completed).is_ok());
    let failed = ReInitializerResult::Failed(LifecycleError::CommandFailed {
        stderr: String::from("boom"),
        exit_code: 1,
    });
    match after_reinitialize(failed) {
        Err(LifecycleError::CommandFailed { stderr, exit_code }) => {
            assert_eq!(stderr, "boom");
            assert_eq!(exit_code, 1);
        },
        _ => panic!("a failure must propagate"),
    }
}

#[test]
fn scenario_fresh_myapp_in_current_directory() {
    let args = Arguments(
        ProjectArguments(String::from("myapp")),
        None,
        None,
        OtherArguments::new(),
    );
    let m = MakersStructure::try_new(args, &good_probe()).unwrap();
    assert!(m.git.is_none());
    assert!(m.venv.is_none());
    // The directory does not exist yet: the plan creates exactly ./myapp.
    match m.project.initialize(false) {
        InitializeStep::Create(plan) => {
            assert_eq!(plan.create_dirs, vec![String::from("./myapp")]);
            assert!(plan.remove_dirs.is_empty());
            assert!(plan.commands.is_empty());
        },
        InitializeStep::AlreadyExists(_) => panic!("a fresh project must not warn"),
    }
    // The plan holds no commands, so the outcome is completion.
    match after_initialize(ReInitializerResult::Completed, false) {
        OrchestratorStep::Done(Ok(())) => (),
        _ => panic!("the scenario must succeed overall"),
    }
}

#[test]
fn scenario_second_run_declined_leaves_directory_untouched() {
    let args = Arguments(
        ProjectArguments(String::from("myapp")),
        None,
        None,
        OtherArguments::new(),
    );
    let m = MakersStructure::try_new(args, &good_probe()).unwrap();
    // Second run: the directory exists now, so initialize warns.
    let step = m.project.initialize(true);
    let warning = match step {
        InitializeStep::AlreadyExists(w) => w,
        InitializeStep::Create(_) => panic!("the existing project must warn"),
    };
    // No skip flag: the warning becomes a question; the operator declines.
    match after_initialize(ReInitializerResult::Warning(warning), false) {
        OrchestratorStep::AskConfirmation(_) => (),
        _ => panic!("the warning must become a question"),
    }
    match on_confirmation(is_confirmation("n")) {
        OrchestratorStep::Done(Ok(())) => (),
        _ => panic!("the decline must end the run successfully, touching nothing"),
    }
}
