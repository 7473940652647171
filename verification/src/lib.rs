//! Fixtures for exercising a command-line binary end to end.
//!
//! A [`ProjectBuilder`] collects the folders and files a project directory
//! should start with and lays them out as a list of filesystem steps under a
//! root directory. A [`Project`] names that directory and hands out
//! [`TestCommand`]s rooted in it. A [`TestCommand`] collects arguments,
//! environment additions and a working directory, and resolves the binary to
//! run. A [`CommandResult`] holds what a finished process left behind.
//!
//! Nothing in this crate touches the disk or starts a process: every function
//! computes on plain values, and its contract says exactly what it computes.
use vstd::prelude::*;

pub mod builder;
pub mod command;
pub mod paths;
pub mod project;
pub mod result;
pub mod text;

pub use crate::builder::{Fixture, ProjectBuilder, Step};
pub use crate::command::{Invocation, TestCommand};
pub use crate::project::Project;
pub use crate::result::CommandResult;

use crate::builder::BuilderModel;

verus! {

/// Starts the description of a project named `name`.
pub fn build_project(name: &str) -> (builder: ProjectBuilder)
    ensures
        builder@ == BuilderModel::fresh(name@),
        builder@.well_formed(),
{
    ProjectBuilder::new(name)
}

} // verus!
