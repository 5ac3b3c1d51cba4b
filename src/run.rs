use vstd::prelude::*;
use crate::extension::{entry_point_path_spec, Extension};
use crate::path::FsPath;
use crate::permissions::EngineGrants;

verus! {

/// What one run of an extension is set up with.
#[derive(Debug)]
pub struct RunPlan {
    /// The entry module to execute.
    pub main_module: FsPath,
    /// The invocation's arguments, as given.
    pub args: Vec<String>,
    /// The engine grants of the extension's declared permissions.
    pub grants: EngineGrants,
    /// The parallelism hint for the engine.
    pub cpu_count: usize,
}

impl Extension {
    /// Set up a run of this extension with the invocation arguments
    /// `args`, which reach the run unchanged and in order. `parallelism` is
    /// what the machine reported, if anything.
    pub fn plan_run(&self, args: Vec<String>, parallelism: Option<usize>) -> (r: RunPlan)
        ensures
            r.main_module@ == entry_point_path_spec(self.root_spec(), self.manifest_spec().entry_point@),
            r.args@ == args@,
            self.manifest_spec().permissions.grants_match(r.grants),
            !r.grants.prompt,
            parallelism matches Some(n) ==> r.cpu_count == n,
            parallelism is None ==> r.cpu_count == 1,
    {
        let cpu_count = match parallelism {
            Some(n) => n,
            None => 1,
        };
        RunPlan {
            main_module: self.path(),
            args,
            grants: self.permissions().to_grants(),
            cpu_count,
        }
    }
}

} // verus!
