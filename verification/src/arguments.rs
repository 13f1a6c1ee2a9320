//! Raw, unvalidated configuration as the collaborator boundary hands it in:
//! plain strings and flags, before any descriptor is built.

use vstd::prelude::*;

verus! {

/// The requested project path, e.g. `"myapp"` or `"work/myapp"`.
pub struct ProjectArguments(pub String);

/// Raw repository configuration; empty strings stand for "not given".
pub struct GitArguments {
    pub user_name: String,
    pub user_email: String,
    pub remote_url: String,
    pub remote_name: String,
    pub branch: String,
}

impl GitArguments {
    pub fn new() -> (r: GitArguments)
        ensures
            r.user_name@ =~= Seq::<char>::empty(),
            r.user_email@ =~= Seq::<char>::empty(),
            r.remote_url@ =~= Seq::<char>::empty(),
            r.remote_name@ =~= Seq::<char>::empty(),
            r.branch@ =~= Seq::<char>::empty(),
    {
        GitArguments {
            user_name: String::new(),
            user_email: String::new(),
            remote_url: String::new(),
            remote_name: String::new(),
            branch: String::new(),
        }
    }
}

/// Raw virtual-environment configuration; an empty `path` stands for the
/// current directory.
pub struct VirtualEnvironmentArguments {
    pub script: String,
    pub path: String,
}

impl VirtualEnvironmentArguments {
    pub fn new() -> (r: VirtualEnvironmentArguments)
        ensures
            r.script@ =~= Seq::<char>::empty(),
            r.path@ =~= Seq::<char>::empty(),
    {
        VirtualEnvironmentArguments { script: String::new(), path: String::new() }
    }
}

/// The remaining policy flags.
pub struct OtherArguments {
    /// When set, every existence warning is auto-confirmed without prompting.
    pub reinitialize_without_input: bool,
}

impl OtherArguments {
    pub fn new() -> (r: OtherArguments)
        ensures
            !r.reinitialize_without_input,
    {
        OtherArguments { reinitialize_without_input: false }
    }
}

/// Everything the collaborator boundary supplies for one invocation.
pub struct Arguments(
    pub ProjectArguments,
    pub Option<GitArguments>,
    pub Option<VirtualEnvironmentArguments>,
    pub OtherArguments,
);

} // verus!
