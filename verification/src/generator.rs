//! Generation planning: the pure head of the orchestrator.
//!
//! The outer shell reports whether the target directory already exists
//! and realizes the returned plan; the precondition decision and the
//! artifact set are fixed here.

use vstd::prelude::*;
use vstd::string::StringExecFns;
use crate::artifact::arts_views;
use crate::artifact::Artifact;
use crate::config::ProjectConfig;
use crate::templates::artifacts_of;
use crate::templates::generate_project;

verus! {

/// Why a generation request was refused before anything was written.
#[derive(Clone, Copy, Debug, PartialEq, Eq, Structural)]
pub enum GenerateError {
    /// The target directory already exists; nothing may be overwritten.
    AlreadyExists,
}

impl GenerateError {
    /// The human-readable description of the error for the given project
    /// name.
    pub fn message(&self, name: &str) -> (r: String)
        ensures
            r@ == "Directory '"@ + name@ + "' already exists"@,
    {
        let mut out = String::from_str("Directory '");
        out.append(name);
        out.append("' already exists");
        out
    }
}

/// Everything the outer shell must realize: the project root directory
/// (relative to the working directory) and the ordered artifacts.
pub struct ProjectPlan {
    pub root: String,
    pub artifacts: Vec<Artifact>,
}

/// Decide a generation request. With an existing target the precondition
/// error comes back and no artifact is planned; otherwise the plan holds
/// the configured composer's full artifact list.
pub fn plan_project(config: &ProjectConfig, target_exists: bool) -> (r: Result<
    ProjectPlan,
    GenerateError,
>)
    ensures
        match r {
            Result::Ok(plan) => !target_exists && plan.root@ == config@.name && arts_views(
                plan.artifacts@,
            ) == artifacts_of(config@),
            Result::Err(e) => target_exists && e == GenerateError::AlreadyExists,
        },
{
    if target_exists {
        Err(GenerateError::AlreadyExists)
    } else {
        let artifacts = generate_project(config);
        Ok(ProjectPlan { root: config.name.clone(), artifacts })
    }
}

} // verus!
