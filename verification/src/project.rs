//! A realized project directory, known by its root path.
use crate::command::{CommandModel, TestCommand};
use crate::paths::{join_path, joined_path};
use vstd::prelude::*;

verus! {

/// What a [`Project`] stands for: the root directory and the diagnostic name.
pub struct ProjectModel {
    pub root: Seq<char>,
    pub name: Seq<char>,
}

/// A project directory on disk.
///
/// `root` is the absolute path of the directory; `name` is the prefix the
/// directory was created under, kept for diagnostics.
pub struct Project {
    pub root: String,
    pub name: String,
}

impl View for Project {
    type V = ProjectModel;

    open spec fn view(&self) -> ProjectModel {
        ProjectModel { root: self.root@, name: self.name@ }
    }
}

impl Project {
    /// A command that runs `subcommand` in the root of this project.
    pub fn command(&self, subcommand: &str) -> (command: TestCommand)
        ensures
            command@ == (CommandModel {
                cwd: self@.root,
                args: seq![subcommand@],
                env_vars: seq![],
            }),
    {
        TestCommand::new(self.root.as_str(), subcommand)
    }

    /// Where `path`, given relative to the project root, lies on disk.
    pub fn path(&self, path: &str) -> (full: String)
        ensures
            full@ == joined_path(self@.root, path@),
    {
        join_path(self.root.as_str(), path)
    }
}

} // verus!
