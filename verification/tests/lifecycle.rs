use projectmaker::arguments::{
    Arguments, GitArguments, OtherArguments, ProjectArguments, VirtualEnvironmentArguments,
};
use projectmaker::makers::{
    BaseProbe, InitializeStep, MakersStructure, Project, ReInitializer, VirtualEnvironment,
};
use projectmaker::runner::{
    interpret_run, CommandSequence, LifecycleError, RunEvent, MISSING_EXIT_CODE,
};

fn good_probe() -> BaseProbe {
    BaseProbe { found: true, is_dir: true }
}

fn myapp() -> Project {
    Project::try_new(&ProjectArguments(String::from("myapp")), &good_probe()).unwrap()
}

fn full_git() -> projectmaker::makers::Git {
    let git_args = GitArguments {
        user_name: String::from("ada"),
        user_email: String::from("ada@example.com"),
        remote_url: String::from("https://example.com/r.git"),
        remote_name: String::from(""),
        branch: String::from(""),
    };
    let args = Arguments(
        ProjectArguments(String::from("myapp")),
        Some(git_args),
        None,
        OtherArguments::new(),
    );
    MakersStructure::try_new(args, &good_probe()).unwrap().git.unwrap()
}

#[test]
fn project_initialize_fresh_creates_exactly_the_directory() {
    let p = myapp();
    match p.initialize(false) {
        InitializeStep::Create(plan) => {
            assert!(plan.remove_dirs.is_empty());
            assert_eq!(plan.create_dirs, vec![String::from("./myapp")]);
            assert!(plan.commands.is_empty());
        },
        InitializeStep::AlreadyExists(_) => panic!("a fresh project must not warn"),
    }
}

#[test]
fn project_initialize_existing_warns_without_actions() {
    let p = myapp();
    match p.initialize(true) {
        InitializeStep::AlreadyExists(w) => {
            assert_eq!(w, "project directory is already exists");
        },
        InitializeStep::Create(_) => panic!("an existing project must warn"),
    }
}

#[test]
fn project_reinitialize_removes_then_recreates() {
    let p = myapp();
    let plan = p.reinitialize();
    assert_eq!(plan.remove_dirs, vec![String::from("./myapp")]);
    assert_eq!(plan.create_dirs, vec![String::from("./myapp")]);
    assert!(plan.commands.is_empty());
}

#[test]
fn project_probe_is_the_full_path() {
    let p = myapp();
    assert_eq!(p.probe_path(), "./myapp");
}

#[test]
fn git_probe_is_the_git_directory() {
    let g = full_git();
    assert_eq!(g.probe_path(), "./myapp/.git");
}

#[test]
fn git_configure_runs_the_full_sequence_in_order() {
    let g = full_git();
    let cmds = g.configure();
    assert_eq!(cmds.len(), 4);
    for c in &cmds {
        assert_eq!(c.program, "git");
        assert_eq!(c.current_dir.as_deref(), Some("./myapp"));
    }
    assert_eq!(cmds[0].args, vec!["init", "-b", "main"]);
    assert_eq!(cmds[1].args, vec!["config", "user.name", "ada"]);
    assert_eq!(cmds[2].args, vec!["config", "user.email", "ada@example.com"]);
    assert_eq!(
        cmds[3].args,
        vec!["remote", "add", "origin", "https://example.com/r.git"]
    );
}

#[test]
fn git_configure_skips_what_was_not_given() {
    let args = Arguments(
        ProjectArguments(String::from("myapp")),
        Some(GitArguments::new()),
        None,
        OtherArguments::new(),
    );
    let g = MakersStructure::try_new(args, &good_probe()).unwrap().git.unwrap();
    let cmds = g.configure();
    assert_eq!(cmds.len(), 1);
    assert_eq!(cmds[0].args, vec!["init", "-b", "main"]);

    let mut git_args = GitArguments::new();
    git_args.user_email = String::from("ada@example.com");
    git_args.remote_url = String::from("https://example.com/r.git");
    let args = Arguments(
        ProjectArguments(String::from("myapp")),
        Some(git_args),
        None,
        OtherArguments::new(),
    );
    let g = MakersStructure::try_new(args, &good_probe()).unwrap().git.unwrap();
    let cmds = g.configure();
    assert_eq!(cmds.len(), 3);
    assert_eq!(cmds[0].args, vec!["init", "-b", "main"]);
    assert_eq!(cmds[1].args, vec!["config", "user.email", "ada@example.com"]);
    assert_eq!(
        cmds[2].args,
        vec!["remote", "add", "origin", "https://example.com/r.git"]
    );
}

#[test]
fn git_initialize_existing_warns() {
    let g = full_git();
    match g.initialize(true) {
        InitializeStep::AlreadyExists(w) => assert_eq!(w, "git is already initialized"),
        InitializeStep::Create(_) => panic!("an existing repository must warn"),
    }
}

#[test]
fn git_reinitialize_removes_git_directory_then_configures() {
    let g = full_git();
    let plan = g.reinitialize();
    assert_eq!(plan.remove_dirs, vec![String::from("./myapp/.git")]);
    assert!(plan.create_dirs.is_empty());
    assert_eq!(plan.commands.len(), 4);
    assert_eq!(plan.commands[0].args, vec!["init", "-b", "main"]);
}

#[test]
fn venv_create_uses_the_selected_script() {
    let v = VirtualEnvironment::try_new(&VirtualEnvironmentArguments {
        script: String::from("venv"),
        path: String::from("envdir"),
    })
    .unwrap();
    let c = v.create();
    assert_eq!(c.program, "python3");
    assert_eq!(c.args, vec!["-m", "venv", "envdir"]);
    assert!(c.current_dir.is_none());

    let v = VirtualEnvironment::try_new(&VirtualEnvironmentArguments {
        script: String::from("virtualenv"),
        path: String::from("envdir"),
    })
    .unwrap();
    let c = v.create();
    assert_eq!(c.program, "virtualenv");
    assert_eq!(c.args, vec!["--no-vcs-ignore", "envdir"]);
    assert!(c.current_dir.is_none());
}

#[test]
fn venv_probe_is_the_marker_file() {
    let v = VirtualEnvironment::try_new(&VirtualEnvironmentArguments {
        script: String::from("venv"),
        path: String::from("envdir"),
    })
    .unwrap();
    assert_eq!(v.probe_path(), "envdir/pyvenv.cfg");
}

#[test]
fn venv_reinitialize_has_no_destroy_step() {
    let v = VirtualEnvironment::try_new(&VirtualEnvironmentArguments {
        script: String::from("venv"),
        path: String::from("envdir"),
    })
    .unwrap();
    let plan = v.reinitialize();
    assert!(plan.remove_dirs.is_empty());
    assert!(plan.create_dirs.is_empty());
    assert_eq!(plan.commands.len(), 1);
    assert_eq!(plan.commands[0].args, vec!["-m", "venv", "envdir"]);
}

#[test]
fn interpret_run_success_on_exit_zero() {
    let r = interpret_run(
        &String::from("git"),
        RunEvent::Exited { exit_code: Some(0), stderr: String::new() },
    );
    assert!(r.is_ok());
}

#[test]
fn interpret_run_reports_code_and_stderr() {
    let r = interpret_run(
        &String::from("git"),
        RunEvent::Exited { exit_code: Some(3), stderr: String::from("boom") },
    );
    match r {
        Err(LifecycleError::CommandFailed { stderr, exit_code }) => {
            assert_eq!(stderr, "boom");
            assert_eq!(exit_code, 3);
        },
        _ => panic!("expected a command failure"),
    }
}

#[test]
fn interpret_run_defaults_missing_code() {
    let r = interpret_run(
        &String::from("git"),
        RunEvent::Exited { exit_code: None, stderr: String::from("killed") },
    );
    match r {
        Err(LifecycleError::CommandFailed { exit_code, .. }) => {
            assert_eq!(exit_code, MISSING_EXIT_CODE);
            assert_eq!(exit_code, 256);
        },
        _ => panic!("expected a command failure"),
    }
}

#[test]
fn interpret_run_distinguishes_missing_program() {
    let r = interpret_run(&String::from("git"), RunEvent::LaunchFailed);
    match r {
        Err(LifecycleError::CommandNotFound { program }) => assert_eq!(program, "git"),
        _ => panic!("expected a launch failure"),
    }
}

#[test]
fn sequence_stops_at_first_failure() {
    let g = full_git();
    let mut seq = CommandSequence::new(g.configure());
    let first = seq.next_command().expect("the init command must be issued");
    assert_eq!(first.args, vec!["init", "-b", "main"]);
    let program = first.program.clone();
    let step = interpret_run(
        &program,
        RunEvent::Exited { exit_code: Some(128), stderr: String::from("bad init") },
    );
    seq.feed(step);
    assert!(seq.next_command().is_none());
    assert!(seq.is_complete());
    match seq.failure() {
        Some(LifecycleError::CommandFailed { stderr, exit_code }) => {
            assert_eq!(stderr, "bad init");
            assert_eq!(*exit_code, 128);
        },
        _ => panic!("the failure must be recorded"),
    }
}

#[test]
fn sequence_completes_when_every_step_succeeds() {
    let g = full_git();
    let mut seq = CommandSequence::new(g.configure());
    let mut issued: usize = 0;
    while let Some(cmd) = seq.next_command() {
        let program = cmd.program.clone();
        issued += 1;
        let step = interpret_run(
            &program,
            RunEvent::Exited { exit_code: Some(0), stderr: String::new() },
        );
        seq.feed(step);
    }
    assert_eq!(issued, 4);
    assert!(seq.is_complete());
    assert!(seq.failure().is_none());
}
