//! The external process runner's boundary, seen from the decision core: what
//! command is to be run, what the world reported back, and how a report is
//! turned into the uniform error vocabulary. Spawning itself happens outside;
//! the core only plans commands and interprets their exit events.

use vstd::prelude::*;

verus! {

/// The exit code reported when the process returned none (for example when it
/// was terminated by a signal).
pub const MISSING_EXIT_CODE: i32 = 256;

/// One external command to run: the program, its arguments, and the working
/// directory to run it in (the current one when absent). Standard output is
/// always discarded and standard error captured.
#[derive(Clone)]
pub struct CommandSpec {
    pub program: String,
    pub args: Vec<String>,
    pub current_dir: Option<String>,
}

/// The mathematical shape of a [`CommandSpec`].
#[verifier::ext_equal]
pub ghost struct CommandModel {
    pub program: Seq<char>,
    pub args: Seq<Seq<char>>,
    pub current_dir: Option<Seq<char>>,
}

impl View for CommandSpec {
    type V = CommandModel;

    open spec fn view(&self) -> CommandModel {
        CommandModel {
            program: self.program@,
            args: self.args.deep_view(),
            current_dir: self.current_dir.deep_view(),
        }
    }
}

impl DeepView for CommandSpec {
    type V = CommandModel;

    open spec fn deep_view(&self) -> CommandModel {
        self.view()
    }
}

/// What happened when one command was run, as reported by the process runner.
pub enum RunEvent {
    /// The program binary could not be found or started; no process ever ran.
    LaunchFailed,
    /// The process ran to completion with this exit code (absent when the
    /// process was terminated without one) and this captured standard error.
    Exited { exit_code: Option<i32>, stderr: String },
}

/// An unrecoverable failure of a lifecycle operation.
#[derive(Clone)]
pub enum LifecycleError {
    /// The external program could not be found or started at all.
    CommandNotFound { program: String },
    /// The external process ran and exited non-zero; carries the captured
    /// standard error and the exit code.
    CommandFailed { stderr: String, exit_code: i32 },
}

/// A run counts as a success exactly when the process exited with code 0.
pub open spec fn run_succeeded(event: RunEvent) -> bool {
    event matches RunEvent::Exited { exit_code, .. } && exit_code == Some(0i32)
}

/// Turns the report of one command run into the uniform outcome: success on
/// exit code 0, a command failure carrying stderr and the exit code (or
/// [`MISSING_EXIT_CODE`] when none was reported) on a non-zero exit, and a
/// distinct "command not found" failure when no process ever ran.
pub fn interpret_run(program: &String, event: RunEvent) -> (r: Result<(), LifecycleError>)
    ensures
        r is Ok <==> run_succeeded(event),
        event is LaunchFailed ==> (r matches Err(LifecycleError::CommandNotFound { program: p })
            && p@ == program@),
        event matches RunEvent::Exited { exit_code, stderr } ==> (exit_code == Some(0i32)
            || (r matches Err(LifecycleError::CommandFailed { stderr: s, exit_code: c })
            && s@ == stderr@
            && (exit_code matches Some(x) ==> c == x)
            && (exit_code is None ==> c == MISSING_EXIT_CODE))),
{
    match event {
        RunEvent::LaunchFailed => Err(
            LifecycleError::CommandNotFound { program: program.clone() },
        ),
        RunEvent::Exited { exit_code, stderr } => match exit_code {
            Some(c) => if c == 0 {
                Ok(())
            } else {
                Err(LifecycleError::CommandFailed { stderr, exit_code: c })
            },
            None => Err(LifecycleError::CommandFailed { stderr, exit_code: MISSING_EXIT_CODE }),
        },
    }
}

/// A configuration sequence in progress: commands are handed out one at a
/// time, the interpreted outcome of each run is fed back, and the first
/// failure stops the sequence — later commands are never issued.
pub struct CommandSequence {
    cmds: Vec<CommandSpec>,
    next: usize,
    failure: Option<LifecycleError>,
}

impl CommandSequence {
    #[verifier::type_invariant]
    spec fn wf(&self) -> bool {
        self.next <= self.cmds.len()
    }

    /// The models of all commands the sequence was created with.
    pub closed spec fn commands(&self) -> Seq<CommandModel> {
        self.cmds.deep_view()
    }

    /// How many commands have completed successfully so far.
    pub closed spec fn completed(&self) -> int {
        self.next as int
    }

    /// The failure recorded for the first failing command, if any.
    pub closed spec fn failure_of(&self) -> Option<LifecycleError> {
        self.failure
    }

    pub open spec fn has_failed(&self) -> bool {
        self.failure_of() is Some
    }

    /// The command that must run next: none once every command has succeeded,
    /// and none once any command has failed.
    pub open spec fn pending(&self) -> Option<CommandModel> {
        if self.has_failed() || self.completed() >= self.commands().len() {
            None
        } else {
            Some(self.commands()[self.completed()])
        }
    }

    pub fn new(cmds: Vec<CommandSpec>) -> (s: Self)
        ensures
            s.commands() == cmds.deep_view(),
            s.completed() == 0,
            !s.has_failed(),
    {
        CommandSequence { cmds, next: 0, failure: None }
    }

    /// Hands out the next command to run, or nothing when the sequence is
    /// complete or has failed.
    pub fn next_command(&self) -> (r: Option<&CommandSpec>)
        ensures
            r is Some <==> self.pending() is Some,
            r matches Some(c) ==> Some(c@) == self.pending(),
    {
        proof {
            use_type_invariant(self);
        }
        if self.failure.is_some() {
            None
        } else if self.next < self.cmds.len() {
            Some(&self.cmds[self.next])
        } else {
            None
        }
    }

    /// Records the interpreted outcome of the pending command: a success moves
    /// the sequence on, a failure stops it for good.
    pub fn feed(&mut self, step: Result<(), LifecycleError>)
        requires
            old(self).pending() is Some,
        ensures
            final(self).commands() == old(self).commands(),
            step is Ok ==> final(self).completed() == old(self).completed() + 1
                && !final(self).has_failed(),
            step matches Err(e) ==> final(self).failure_of() == Some(e)
                && final(self).completed() == old(self).completed(),
    {
        proof {
            use_type_invariant(&*self);
        }
        match step {
            Ok(_) => {
                self.next = self.next + 1;
            },
            Err(e) => {
                self.failure = Some(e);
            },
        }
    }

    /// Whether the sequence is finished: every command succeeded, or one
    /// failed.
    pub fn is_complete(&self) -> (r: bool)
        ensures
            r == (self.pending() is None),
    {
        proof {
            use_type_invariant(self);
        }
        self.failure.is_some() || self.next >= self.cmds.len()
    }

    /// The recorded failure, if any.
    pub fn failure(&self) -> (r: Option<&LifecycleError>)
        ensures
            r matches Some(e) ==> self.failure_of() == Some(*e),
            r is None <==> !self.has_failed(),
    {
        match &self.failure {
            Some(e) => Some(e),
            None => None,
        }
    }
}

/// The configuration sequence stops at the first failing step: once a step
/// has failed, no further command is ever issued.
pub proof fn lemma_failure_stops_issuance(s: &CommandSequence)
    requires
        s.has_failed(),
    ensures
        s.pending() is None,
{
}

} // verus!
