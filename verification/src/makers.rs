//! The three resource descriptors — project directory, version-control
//! repository, virtual environment — their validation from raw arguments,
//! their assembly into one unit, and the uniform reinitializable-resource
//! lifecycle each of them implements.

use vstd::prelude::*;

use crate::arguments::{Arguments, GitArguments, ProjectArguments, VirtualEnvironmentArguments};
use crate::paths::{base_of, join, join_path, name_of, split_project_path};
use crate::plan::{
    apply_creates, apply_plan, apply_removes, create_dir, dir_is_empty, in_tree, remove_tree,
    Plan, PlanModel,
};
use crate::runner::{CommandModel, CommandSpec, LifecycleError};

verus! {

/// A malformed or semantically invalid descriptor input; surfaced immediately
/// and aborting assembly.
#[derive(Debug)]
pub enum ValidationError {
    /// The project name is empty or `"."`.
    ProjectNameEmptyOrDot,
    /// The base path for the project does not exist.
    BaseNotFound { base: String },
    /// The base path for the project exists but is not a directory.
    BaseNotDirectory { base: String },
    /// The requested provisioning script is not a recognized one.
    UnsupportedScript { script: String },
}

/// What the filesystem reported about the project's base path at validation
/// time.
pub struct BaseProbe {
    /// The base path exists (it could be canonicalized).
    pub found: bool,
    /// The base path is a directory.
    pub is_dir: bool,
}

/// The three-way outcome of a lifecycle operation.
pub enum ReInitializerResult {
    /// The resource is now in its desired state.
    Completed,
    /// The resource already exists; destructive recreation is needed to
    /// proceed, pending confirmation.
    Warning(String),
    /// An unrecoverable failure.
    Failed(LifecycleError),
}

/// What `initialize` decides once the existence probe has answered.
pub enum InitializeStep {
    /// The resource already exists: warn, with no side effect.
    AlreadyExists(String),
    /// The resource is absent: perform this plan to create it.
    Create(Plan),
}

/// The uniform lifecycle of a reinitializable resource. Each resource names
/// the path whose existence is its probe; `initialize` turns the probe's
/// answer into either a warning or a creation plan, and `reinitialize` is the
/// unconditional destroy-and-recreate plan, which assumes the caller has
/// already obtained confirmation.
pub trait ReInitializer: Sized {
    /// The path whose existence is this resource's probe.
    spec fn probe_target(&self) -> Seq<char>;

    /// The warning issued when the resource already exists.
    spec fn warning_text(&self) -> Seq<char>;

    /// What creating the resource from scratch does.
    spec fn creation_plan(&self) -> PlanModel;

    /// What destroying and recreating the resource does.
    spec fn recreation_plan(&self) -> PlanModel;

    /// The path to probe for existence.
    fn probe_path(&self) -> (p: String)
        ensures
            p@ == self.probe_target(),
    ;

    /// Given the probe's answer: warn without any side effect when the
    /// resource already exists, otherwise hand back the creation plan.
    fn initialize(&self, exists: bool) -> (r: InitializeStep)
        ensures
            exists ==> (r matches InitializeStep::AlreadyExists(w)
                && w@ == self.warning_text()),
            !exists ==> (r matches InitializeStep::Create(p) && p@ == self.creation_plan()),
    ;

    /// The destroy-and-recreate plan.
    fn reinitialize(&self) -> (p: Plan)
        ensures
            p@ == self.recreation_plan(),
    ;
}

/// Whether a raw project path carries an acceptable name component.
pub open spec fn project_name_ok(input: Seq<char>) -> bool {
    name_of(input).len() > 0 && name_of(input) != "."@
}

/// The project directory descriptor: a validated name and base path.
pub struct Project {
    name: String,
    base: String,
}

impl Project {
    #[verifier::type_invariant]
    spec fn inv(&self) -> bool {
        self.name@.len() > 0 && self.name@ != "."@
    }

    pub closed spec fn name_spec(&self) -> Seq<char> {
        self.name@
    }

    pub closed spec fn base_spec(&self) -> Seq<char> {
        self.base@
    }

    /// The resolved project directory: the base joined with the name.
    pub open spec fn full_path_spec(&self) -> Seq<char> {
        join(self.base_spec(), self.name_spec())
    }

    /// Validates a raw project path: the part after the last separator is the
    /// name, which must be non-empty and not `"."`; the part before it (the
    /// current directory when there is none) is the base, which must exist and
    /// be a directory according to the probe.
    pub fn try_new(args: &ProjectArguments, probe: &BaseProbe) -> (r: Result<
        Project,
        ValidationError,
    >)
        ensures
            !project_name_ok(args.0@) ==> r matches Err(ValidationError::ProjectNameEmptyOrDot),
            project_name_ok(args.0@) && !probe.found ==> (r matches Err(
                ValidationError::BaseNotFound { base: b },
            ) && b@ == base_of(args.0@)),
            project_name_ok(args.0@) && probe.found && !probe.is_dir ==> (r matches Err(
                ValidationError::BaseNotDirectory { base: b },
            ) && b@ == base_of(args.0@)),
            r is Ok <==> project_name_ok(args.0@) && probe.found && probe.is_dir,
            r matches Ok(p) ==> p.name_spec() == name_of(args.0@) && p.base_spec() == base_of(
                args.0@,
            ),
    {
        let (name, base) = split_project_path(&args.0);
        if name.as_str().is_empty() || name == String::from_str(".") {
            return Err(ValidationError::ProjectNameEmptyOrDot);
        }
        if !probe.found {
            return Err(ValidationError::BaseNotFound { base });
        }
        if !probe.is_dir {
            return Err(ValidationError::BaseNotDirectory { base });
        }
        Ok(Project { name, base })
    }

    /// The validated project name.
    pub fn name(&self) -> (r: &String)
        ensures
            r@ == self.name_spec(),
    {
        &self.name
    }

    /// The validated base path.
    pub fn base(&self) -> (r: &String)
        ensures
            r@ == self.base_spec(),
    {
        &self.base
    }

    /// The base joined with the name: where the project directory lives.
    pub fn full_path(&self) -> (r: String)
        ensures
            r@ == self.full_path_spec(),
    {
        join_path(&self.base, self.name.as_str())
    }
}

impl ReInitializer for Project {
    open spec fn probe_target(&self) -> Seq<char> {
        self.full_path_spec()
    }

    open spec fn warning_text(&self) -> Seq<char> {
        "project directory is already exists"@
    }

    open spec fn creation_plan(&self) -> PlanModel {
        PlanModel {
            remove_dirs: Seq::empty(),
            create_dirs: seq![self.full_path_spec()],
            commands: Seq::empty(),
        }
    }

    open spec fn recreation_plan(&self) -> PlanModel {
        PlanModel {
            remove_dirs: seq![self.full_path_spec()],
            create_dirs: seq![self.full_path_spec()],
            commands: Seq::empty(),
        }
    }

    fn probe_path(&self) -> (p: String) {
        self.full_path()
    }

    fn initialize(&self, exists: bool) -> (r: InitializeStep) {
        if exists {
            InitializeStep::AlreadyExists(
                String::from_str("project directory is already exists"),
            )
        } else {
            let mut create_dirs: Vec<String> = Vec::new();
            create_dirs.push(self.full_path());
            let plan = Plan { remove_dirs: Vec::new(), create_dirs, commands: Vec::new() };
            proof {
                assert(plan@ =~~= self.creation_plan());
            }
            InitializeStep::Create(plan)
        }
    }

    fn reinitialize(&self) -> (p: Plan) {
        let mut remove_dirs: Vec<String> = Vec::new();
        remove_dirs.push(self.full_path());
        let mut create_dirs: Vec<String> = Vec::new();
        create_dirs.push(self.full_path());
        let plan = Plan { remove_dirs, create_dirs, commands: Vec::new() };
        proof {
            assert(plan@ =~~= self.recreation_plan());
        }
        plan
    }
}

/// For a project whose directory does not yet exist, the creation plan creates
/// exactly that directory: afterwards the filesystem holds precisely the old
/// paths plus `full_path`.
pub proof fn lemma_project_initialize_creates(p: Project, fs: Set<Seq<char>>)
    requires
        !fs.contains(p.full_path_spec()),
    ensures
        apply_plan(fs, p.creation_plan()) =~= fs.insert(p.full_path_spec()),
{
    let full = p.full_path_spec();
    let plan = p.creation_plan();
    assert(apply_removes(fs, plan.remove_dirs) == fs);
    assert(seq![full].drop_first() =~= Seq::<Seq<char>>::empty());
    assert(apply_creates(fs, plan.create_dirs) == apply_creates(
        create_dir(fs, full),
        seq![full].drop_first(),
    ));
    assert(apply_creates(create_dir(fs, full), Seq::<Seq<char>>::empty()) == create_dir(fs, full));
}

/// Destroy-and-recreate on a project always leaves an empty directory at
/// `full_path`, whatever the prior contents of the filesystem.
pub proof fn lemma_project_reinitialize_empties(p: Project, fs: Set<Seq<char>>)
    ensures
        dir_is_empty(apply_plan(fs, p.recreation_plan()), p.full_path_spec()),
{
    let full = p.full_path_spec();
    let plan = p.recreation_plan();
    let removed = remove_tree(fs, full);
    assert(seq![full].drop_first() =~= Seq::<Seq<char>>::empty());
    assert(apply_removes(fs, plan.remove_dirs) == apply_removes(
        removed,
        seq![full].drop_first(),
    ));
    assert(apply_removes(removed, Seq::<Seq<char>>::empty()) == removed);
    assert(apply_creates(removed, plan.create_dirs) == apply_creates(
        create_dir(removed, full),
        seq![full].drop_first(),
    ));
    assert(apply_creates(create_dir(removed, full), Seq::<Seq<char>>::empty()) == create_dir(
        removed,
        full,
    ));
    let after = apply_plan(fs, plan);
    assert(after == removed.insert(full));
    assert forall|q: Seq<char>| after.contains(q) && in_tree(q, full) implies q == full by {
        if q != full {
            assert(removed.contains(q));
            assert(!in_tree(q, full));
        }
    }
}

/// How a repository descriptor relates to the raw arguments it was built from
/// and the working path it was wired to: fields are taken over as given, with
/// the remote name defaulting to `"origin"` and the branch to `"main"`.
pub open spec fn git_from_arguments(g: Git, a: GitArguments, working: Seq<char>) -> bool {
    &&& g.user_name_spec() == a.user_name@
    &&& g.user_email_spec() == a.user_email@
    &&& g.remote_url_spec() == a.remote_url@
    &&& g.remote_name_spec() == (if a.remote_name@.len() == 0 {
        "origin"@
    } else {
        a.remote_name@
    })
    &&& g.branch_spec() == (if a.branch@.len() == 0 {
        "main"@
    } else {
        a.branch@
    })
    &&& g.working_path_spec() == working
}

/// The version-control repository descriptor. It is complete only once the
/// project's resolved path has been wired in as its working path, so it is
/// constructed at assembly time with that path.
pub struct Git {
    user_name: String,
    user_email: String,
    remote_url: String,
    remote_name: String,
    branch: String,
    projectpath: String,
}

impl Git {
    #[verifier::type_invariant]
    spec fn inv(&self) -> bool {
        self.remote_name@.len() > 0 && self.branch@.len() > 0
    }

    pub closed spec fn user_name_spec(&self) -> Seq<char> {
        self.user_name@
    }

    pub closed spec fn user_email_spec(&self) -> Seq<char> {
        self.user_email@
    }

    pub closed spec fn remote_url_spec(&self) -> Seq<char> {
        self.remote_url@
    }

    pub closed spec fn remote_name_spec(&self) -> Seq<char> {
        self.remote_name@
    }

    pub closed spec fn branch_spec(&self) -> Seq<char> {
        self.branch@
    }

    pub closed spec fn working_path_spec(&self) -> Seq<char> {
        self.projectpath@
    }

    /// Builds the descriptor from raw arguments, wired to the given working
    /// path. An empty remote name defaults to `"origin"` and an empty branch
    /// to `"main"`, so both are non-empty from construction on; in particular
    /// a remote name is always available whenever a remote URL is.
    pub fn new(args: GitArguments, working_path: String) -> (g: Git)
        ensures
            git_from_arguments(g, args, working_path@),
    {
        let GitArguments { user_name, user_email, remote_url, remote_name, branch } = args;
        let remote_name = if remote_name.as_str().is_empty() {
            String::from_str("origin")
        } else {
            remote_name
        };
        let branch = if branch.as_str().is_empty() {
            String::from_str("main")
        } else {
            branch
        };
        proof {
            reveal_strlit("origin");
            reveal_strlit("main");
        }
        Git { user_name, user_email, remote_url, remote_name, branch, projectpath: working_path }
    }

    pub fn user_name(&self) -> (r: &String)
        ensures
            r@ == self.user_name_spec(),
    {
        &self.user_name
    }

    pub fn user_email(&self) -> (r: &String)
        ensures
            r@ == self.user_email_spec(),
    {
        &self.user_email
    }

    pub fn remote_url(&self) -> (r: &String)
        ensures
            r@ == self.remote_url_spec(),
    {
        &self.remote_url
    }

    pub fn remote_name(&self) -> (r: &String)
        ensures
            r@ == self.remote_name_spec(),
    {
        &self.remote_name
    }

    pub fn branch(&self) -> (r: &String)
        ensures
            r@ == self.branch_spec(),
    {
        &self.branch
    }

    /// The working path the descriptor was wired to at assembly time.
    pub fn working_path(&self) -> (r: &String)
        ensures
            r@ == self.working_path_spec(),
    {
        &self.projectpath
    }

    /// `git init -b <branch>`, run in the working path.
    pub open spec fn init_command_model(&self) -> CommandModel {
        CommandModel {
            program: "git"@,
            args: seq!["init"@, "-b"@, self.branch_spec()],
            current_dir: Some(self.working_path_spec()),
        }
    }

    /// `git config user.name <user_name>`, run in the working path.
    pub open spec fn config_name_model(&self) -> CommandModel {
        CommandModel {
            program: "git"@,
            args: seq!["config"@, "user.name"@, self.user_name_spec()],
            current_dir: Some(self.working_path_spec()),
        }
    }

    /// `git config user.email <user_email>`, run in the working path.
    pub open spec fn config_email_model(&self) -> CommandModel {
        CommandModel {
            program: "git"@,
            args: seq!["config"@, "user.email"@, self.user_email_spec()],
            current_dir: Some(self.working_path_spec()),
        }
    }

    /// `git remote add <remote_name> <remote_url>`, run in the working path.
    pub open spec fn config_remote_model(&self) -> CommandModel {
        CommandModel {
            program: "git"@,
            args: seq!["remote"@, "add"@, self.remote_name_spec(), self.remote_url_spec()],
            current_dir: Some(self.working_path_spec()),
        }
    }

    /// The whole configuration sequence: repository init first, then — each
    /// only when the corresponding field is non-empty — user name, user email,
    /// and the named remote.
    pub open spec fn configure_models(&self) -> Seq<CommandModel> {
        seq![self.init_command_model()] + (if self.user_name_spec().len() > 0 {
            seq![self.config_name_model()]
        } else {
            Seq::empty()
        }) + (if self.user_email_spec().len() > 0 {
            seq![self.config_email_model()]
        } else {
            Seq::empty()
        }) + (if self.remote_url_spec().len() > 0 {
            seq![self.config_remote_model()]
        } else {
            Seq::empty()
        })
    }

    fn init_command(&self) -> (c: CommandSpec)
        ensures
            c@ == self.init_command_model(),
    {
        let mut args: Vec<String> = Vec::new();
        args.push(String::from_str("init"));
        args.push(String::from_str("-b"));
        args.push(self.branch.clone());
        let c = CommandSpec {
            program: String::from_str("git"),
            args,
            current_dir: Some(self.projectpath.clone()),
        };
        proof {
            assert(c@ =~~= self.init_command_model());
        }
        c
    }

    fn config_name_command(&self) -> (c: Option<CommandSpec>)
        ensures
            c is Some <==> self.user_name_spec().len() > 0,
            c matches Some(cmd) ==> cmd@ == self.config_name_model(),
    {
        if self.user_name.as_str().is_empty() {
            None
        } else {
            let mut args: Vec<String> = Vec::new();
            args.push(String::from_str("config"));
            args.push(String::from_str("user.name"));
            args.push(self.user_name.clone());
            let c = CommandSpec {
                program: String::from_str("git"),
                args,
                current_dir: Some(self.projectpath.clone()),
            };
            proof {
                assert(c@ =~~= self.config_name_model());
            }
            Some(c)
        }
    }

    fn config_email_command(&self) -> (c: Option<CommandSpec>)
        ensures
            c is Some <==> self.user_email_spec().len() > 0,
            c matches Some(cmd) ==> cmd@ == self.config_email_model(),
    {
        if self.user_email.as_str().is_empty() {
            None
        } else {
            let mut args: Vec<String> = Vec::new();
            args.push(String::from_str("config"));
            args.push(String::from_str("user.email"));
            args.push(self.user_email.clone());
            let c = CommandSpec {
                program: String::from_str("git"),
                args,
                current_dir: Some(self.projectpath.clone()),
            };
            proof {
                assert(c@ =~~= self.config_email_model());
            }
            Some(c)
        }
    }

    /// The remote is added only when a URL was given. The remote name is
    /// non-empty by construction (it defaults to `"origin"`), so the pairing
    /// of a URL with an empty name cannot arise.
    fn config_remote_command(&self) -> (c: Option<CommandSpec>)
        ensures
            c is Some <==> self.remote_url_spec().len() > 0,
            c matches Some(cmd) ==> cmd@ == self.config_remote_model(),
    {
        if self.remote_url.as_str().is_empty() {
            None
        } else {
            let mut args: Vec<String> = Vec::new();
            args.push(String::from_str("remote"));
            args.push(String::from_str("add"));
            args.push(self.remote_name.clone());
            args.push(self.remote_url.clone());
            let c = CommandSpec {
                program: String::from_str("git"),
                args,
                current_dir: Some(self.projectpath.clone()),
            };
            proof {
                assert(c@ =~~= self.config_remote_model());
            }
            Some(c)
        }
    }

    /// The full configuration sequence as executable commands, init first.
    pub fn configure(&self) -> (cmds: Vec<CommandSpec>)
        ensures
            cmds.deep_view() == self.configure_models(),
            cmds.deep_view().len() >= 1,
            cmds.deep_view()[0] == self.init_command_model(),
    {
        let mut cmds: Vec<CommandSpec> = Vec::new();
        cmds.push(self.init_command());
        if let Some(c) = self.config_name_command() {
            cmds.push(c);
        }
        if let Some(c) = self.config_email_command() {
            cmds.push(c);
        }
        if let Some(c) = self.config_remote_command() {
            cmds.push(c);
        }
        proof {
            assert(cmds.deep_view() =~~= self.configure_models());
        }
        cmds
    }
}

impl ReInitializer for Git {
    open spec fn probe_target(&self) -> Seq<char> {
        join(self.working_path_spec(), ".git"@)
    }

    open spec fn warning_text(&self) -> Seq<char> {
        "git is already initialized"@
    }

    open spec fn creation_plan(&self) -> PlanModel {
        PlanModel {
            remove_dirs: Seq::empty(),
            create_dirs: Seq::empty(),
            commands: self.configure_models(),
        }
    }

    open spec fn recreation_plan(&self) -> PlanModel {
        PlanModel {
            remove_dirs: seq![join(self.working_path_spec(), ".git"@)],
            create_dirs: Seq::empty(),
            commands: self.configure_models(),
        }
    }

    fn probe_path(&self) -> (p: String) {
        join_path(&self.projectpath, ".git")
    }

    fn initialize(&self, exists: bool) -> (r: InitializeStep) {
        if exists {
            InitializeStep::AlreadyExists(String::from_str("git is already initialized"))
        } else {
            let plan = Plan {
                remove_dirs: Vec::new(),
                create_dirs: Vec::new(),
                commands: self.configure(),
            };
            proof {
                assert(plan@ =~~= self.creation_plan());
            }
            InitializeStep::Create(plan)
        }
    }

    fn reinitialize(&self) -> (p: Plan) {
        let mut remove_dirs: Vec<String> = Vec::new();
        remove_dirs.push(join_path(&self.projectpath, ".git"));
        let plan = Plan { remove_dirs, create_dirs: Vec::new(), commands: self.configure() };
        proof {
            assert(plan@ =~~= self.recreation_plan());
        }
        plan
    }
}

/// The recognized provisioning scripts for a virtual environment.
#[derive(Clone, Copy, Debug, PartialEq, Eq, Structural)]
pub enum ProvisioningScript {
    /// The package-manager-provided module, `python3 -m venv`.
    Venv,
    /// The standalone `virtualenv` executable.
    Virtualenv,
}

/// Whether a raw script name is a recognized provisioning script.
pub open spec fn script_ok(script: Seq<char>) -> bool {
    script == "venv"@ || script == "virtualenv"@
}

/// How an environment descriptor relates to the raw arguments it was built
/// from: the script is one of the recognized two, and an empty path defaults
/// to the current directory.
pub open spec fn venv_from_arguments(v: VirtualEnvironment, a: VirtualEnvironmentArguments) -> bool {
    &&& (a.script@ == "venv"@ ==> v.script_spec() == ProvisioningScript::Venv)
    &&& (a.script@ == "virtualenv"@ ==> v.script_spec() == ProvisioningScript::Virtualenv)
    &&& v.path_spec() == (if a.path@.len() == 0 {
        "."@
    } else {
        a.path@
    })
}

/// The virtual environment descriptor: a recognized provisioning script and a
/// target path.
pub struct VirtualEnvironment {
    script: ProvisioningScript,
    path: String,
}

impl VirtualEnvironment {
    pub closed spec fn script_spec(&self) -> ProvisioningScript {
        self.script
    }

    pub closed spec fn path_spec(&self) -> Seq<char> {
        self.path@
    }

    /// Validates the raw arguments: any script name outside the recognized
    /// set fails, before any process could be spawned; an empty path defaults
    /// to the current directory.
    pub fn try_new(args: &VirtualEnvironmentArguments) -> (r: Result<
        VirtualEnvironment,
        ValidationError,
    >)
        ensures
            r is Ok <==> script_ok(args.script@),
            r matches Ok(v) ==> venv_from_arguments(v, *args),
            !script_ok(args.script@) ==> (r matches Err(
                ValidationError::UnsupportedScript { script: s },
            ) && s@ == args.script@),
    {
        proof {
            reveal_strlit("venv");
            reveal_strlit("virtualenv");
            assert("venv"@.len() == 4);
            assert("virtualenv"@.len() == 10);
        }
        let script = if args.script == String::from_str("venv") {
            ProvisioningScript::Venv
        } else if args.script == String::from_str("virtualenv") {
            ProvisioningScript::Virtualenv
        } else {
            return Err(ValidationError::UnsupportedScript { script: args.script.clone() });
        };
        let path = if args.path.as_str().is_empty() {
            String::from_str(".")
        } else {
            args.path.clone()
        };
        Ok(VirtualEnvironment { script, path })
    }

    /// The selected provisioning script.
    pub fn script(&self) -> (r: ProvisioningScript)
        ensures
            r == self.script_spec(),
    {
        self.script
    }

    /// The validated target path.
    pub fn path(&self) -> (r: &String)
        ensures
            r@ == self.path_spec(),
    {
        &self.path
    }

    /// `python3 -m venv <path>`.
    pub open spec fn venv_command_model(&self) -> CommandModel {
        CommandModel {
            program: "python3"@,
            args: seq!["-m"@, "venv"@, self.path_spec()],
            current_dir: None,
        }
    }

    /// `virtualenv --no-vcs-ignore <path>`.
    pub open spec fn virtualenv_command_model(&self) -> CommandModel {
        CommandModel {
            program: "virtualenv"@,
            args: seq!["--no-vcs-ignore"@, self.path_spec()],
            current_dir: None,
        }
    }

    /// The single provisioning command the selected script runs.
    pub open spec fn create_model(&self) -> CommandModel {
        match self.script_spec() {
            ProvisioningScript::Venv => self.venv_command_model(),
            ProvisioningScript::Virtualenv => self.virtualenv_command_model(),
        }
    }

    fn venv(&self) -> (c: CommandSpec)
        ensures
            c@ == self.venv_command_model(),
    {
        let mut args: Vec<String> = Vec::new();
        args.push(String::from_str("-m"));
        args.push(String::from_str("venv"));
        args.push(self.path.clone());
        let c = CommandSpec {
            program: String::from_str("python3"),
            args,
            current_dir: None,
        };
        proof {
            assert(c@ =~~= self.venv_command_model());
        }
        c
    }

    fn virtualenv(&self) -> (c: CommandSpec)
        ensures
            c@ == self.virtualenv_command_model(),
    {
        let mut args: Vec<String> = Vec::new();
        args.push(String::from_str("--no-vcs-ignore"));
        args.push(self.path.clone());
        let c = CommandSpec {
            program: String::from_str("virtualenv"),
            args,
            current_dir: None,
        };
        proof {
            assert(c@ =~~= self.virtualenv_command_model());
        }
        c
    }

    /// The provisioning command for the selected script.
    pub fn create(&self) -> (c: CommandSpec)
        ensures
            c@ == self.create_model(),
    {
        match self.script {
            ProvisioningScript::Venv => self.venv(),
            ProvisioningScript::Virtualenv => self.virtualenv(),
        }
    }
}

impl ReInitializer for VirtualEnvironment {
    open spec fn probe_target(&self) -> Seq<char> {
        join(self.path_spec(), "pyvenv.cfg"@)
    }

    open spec fn warning_text(&self) -> Seq<char> {
        "virtual environment is already exists"@
    }

    open spec fn creation_plan(&self) -> PlanModel {
        PlanModel {
            remove_dirs: Seq::empty(),
            create_dirs: Seq::empty(),
            commands: seq![self.create_model()],
        }
    }

    /// Recreation performs no explicit destroy step: the provisioning
    /// script's own create-or-overwrite behaviour is relied upon, unlike the
    /// other two resource kinds.
    open spec fn recreation_plan(&self) -> PlanModel {
        PlanModel {
            remove_dirs: Seq::empty(),
            create_dirs: Seq::empty(),
            commands: seq![self.create_model()],
        }
    }

    fn probe_path(&self) -> (p: String) {
        join_path(&self.path, "pyvenv.cfg")
    }

    fn initialize(&self, exists: bool) -> (r: InitializeStep) {
        if exists {
            InitializeStep::AlreadyExists(
                String::from_str("virtual environment is already exists"),
            )
        } else {
            let mut commands: Vec<CommandSpec> = Vec::new();
            commands.push(self.create());
            let plan = Plan { remove_dirs: Vec::new(), create_dirs: Vec::new(), commands };
            proof {
                assert(plan@ =~~= self.creation_plan());
            }
            InitializeStep::Create(plan)
        }
    }

    fn reinitialize(&self) -> (p: Plan) {
        let mut commands: Vec<CommandSpec> = Vec::new();
        commands.push(self.create());
        let plan = Plan { remove_dirs: Vec::new(), create_dirs: Vec::new(), commands };
        proof {
            assert(plan@ =~~= self.recreation_plan());
        }
        plan
    }
}

/// The three descriptors assembled into one unit, in the order the lifecycle
/// runs them.
pub struct MakersStructure {
    pub project: Project,
    pub git: Option<Git>,
    pub venv: Option<VirtualEnvironment>,
}

impl MakersStructure {
    /// Validates and wires the requested descriptors: the project first
    /// (aborting on its failure), then the repository — which is wired to the
    /// project's resolved path — then the environment. Assembly fails
    /// atomically with the first validation error.
    pub fn try_new(args: Arguments, probe: &BaseProbe) -> (r: Result<
        MakersStructure,
        ValidationError,
    >)
        ensures
            !project_name_ok(args.0.0@) ==> r matches Err(ValidationError::ProjectNameEmptyOrDot),
            project_name_ok(args.0.0@) && !probe.found ==> (r matches Err(
                ValidationError::BaseNotFound { base: b },
            ) && b@ == base_of(args.0.0@)),
            project_name_ok(args.0.0@) && probe.found && !probe.is_dir ==> (r matches Err(
                ValidationError::BaseNotDirectory { base: b },
            ) && b@ == base_of(args.0.0@)),
            args.2 matches Some(va) ==> ((project_name_ok(args.0.0@) && probe.found
                && probe.is_dir && !script_ok(va.script@)) ==> (r matches Err(
                ValidationError::UnsupportedScript { script: s },
            ) && s@ == va.script@)),
            r is Ok <==> (project_name_ok(args.0.0@) && probe.found && probe.is_dir && (
            args.2 matches Some(va) ==> script_ok(va.script@))),
            r matches Ok(m) ==> {
                &&& m.project.name_spec() == name_of(args.0.0@)
                &&& m.project.base_spec() == base_of(args.0.0@)
                &&& (m.git is Some <==> args.1 is Some)
                &&& (args.1 matches Some(ga) ==> (m.git matches Some(g) && git_from_arguments(
                    g,
                    ga,
                    m.project.full_path_spec(),
                )))
                &&& (m.venv is Some <==> args.2 is Some)
                &&& (args.2 matches Some(va) ==> (m.venv matches Some(v) && venv_from_arguments(
                    v,
                    va,
                )))
            },
    {
        let Arguments(project_args, git_args, venv_args, _other) = args;
        let project = match Project::try_new(&project_args, probe) {
            Ok(p) => p,
            Err(e) => {
                return Err(e);
            },
        };
        let git = match git_args {
            Some(ga) => {
                let working_path = project.full_path();
                Some(Git::new(ga, working_path))
            },
            None => None,
        };
        let venv = match venv_args {
            Some(va) => match VirtualEnvironment::try_new(&va) {
                Ok(v) => Some(v),
                Err(e) => {
                    return Err(e);
                },
            },
            None => None,
        };
        Ok(MakersStructure { project, git, venv })
    }
}

} // verus!
