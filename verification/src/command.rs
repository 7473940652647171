//! One invocation of the binary under test, configured step by step.
use crate::paths::{join_path, joined_path, parent_dir, parent_path};
use crate::text::{slice_texts, text_pairs, texts};
use vstd::prelude::*;

verus! {

/// The directory, next to the harness, that holds build output.
pub const OUTPUT_DIR: &'static str = "target";

/// The subdirectory of the build output that holds debug builds.
pub const PROFILE_DIR: &'static str = "debug";

/// What a [`TestCommand`] has been told so far.
///
/// `args` starts with the subcommand. `env_vars` keeps every assignment in
/// the order given, repeated keys included.
pub struct CommandModel {
    pub cwd: Seq<char>,
    pub args: Seq<Seq<char>>,
    pub env_vars: Seq<(Seq<char>, Seq<char>)>,
}

/// A fully resolved invocation, ready to be spawned, in the model.
pub struct InvocationModel {
    pub program: Seq<char>,
    pub args: Seq<Seq<char>>,
    pub cwd: Seq<char>,
    pub env_vars: Seq<(Seq<char>, Seq<char>)>,
}

/// The name of the binary to run: the override where there is one, else the
/// default.
pub open spec fn binary_name(package_override: Option<Seq<char>>, default_name: Seq<char>) -> Seq<
    char,
> {
    match package_override {
        Some(name) => name,
        None => default_name,
    }
}

/// Where the binary `name` lies, given the directory `above` the harness:
/// under the build output, in its debug subdirectory.
pub open spec fn binary_under(above: Seq<char>, name: Seq<char>) -> Seq<char> {
    joined_path(joined_path(joined_path(above, OUTPUT_DIR@), PROFILE_DIR@), name)
}

/// Where the binary to run lies for a harness whose own directory is
/// `manifest_dir`, or `None` where that directory has no parent.
pub open spec fn binary_location(
    manifest_dir: Seq<char>,
    package_override: Option<Seq<char>>,
    default_name: Seq<char>,
) -> Option<Seq<char>> {
    match parent_path(manifest_dir) {
        Some(above) => Some(binary_under(above, binary_name(package_override, default_name))),
        None => None,
    }
}

/// A fully resolved invocation: which program to spawn, with which
/// arguments, in which directory, and with which additions to the inherited
/// environment, to be applied in order.
pub struct Invocation {
    pub program: String,
    pub args: Vec<String>,
    pub cwd: String,
    pub env_vars: Vec<(String, String)>,
}

impl View for Invocation {
    type V = InvocationModel;

    open spec fn view(&self) -> InvocationModel {
        InvocationModel {
            program: self.program@,
            args: texts(self.args@),
            cwd: self.cwd@,
            env_vars: text_pairs(self.env_vars@),
        }
    }
}

/// A configured invocation of the binary under test that has not run yet.
pub struct TestCommand {
    cwd: String,
    args: Vec<String>,
    env_vars: Vec<(String, String)>,
}

impl View for TestCommand {
    type V = CommandModel;

    closed spec fn view(&self) -> CommandModel {
        CommandModel {
            cwd: self.cwd@,
            args: texts(self.args@),
            env_vars: text_pairs(self.env_vars@),
        }
    }
}

impl TestCommand {
    /// A command that runs `subcommand` in the directory `cwd`.
    pub fn new(cwd: &str, subcommand: &str) -> (command: Self)
        ensures
            command@ == (CommandModel { cwd: cwd@, args: seq![subcommand@], env_vars: seq![] }),
    {
        let mut args: Vec<String> = Vec::new();
        args.push(subcommand.to_owned());
        let command = TestCommand { cwd: cwd.to_owned(), args, env_vars: Vec::new() };
        assert(command@.args =~= seq![subcommand@]);
        assert(command@.env_vars =~= seq![]);
        command
    }

    /// Appends one argument.
    pub fn arg(self, value: &str) -> (command: Self)
        ensures
            command@ == (CommandModel { args: self@.args.push(value@), ..self@ }),
    {
        let mut args = self.args;
        args.push(value.to_owned());
        let command = TestCommand { cwd: self.cwd, args, env_vars: self.env_vars };
        assert(command@.args =~= self@.args.push(value@));
        command
    }

    /// Appends every element of `values` as an argument, in order.
    pub fn args(self, values: &[&str]) -> (command: Self)
        ensures
            command@ == (CommandModel { args: self@.args + slice_texts(values@), ..self@ }),
    {
        let mut args = self.args;
        let mut i: usize = 0;
        while i < values.len()
            invariant
                i <= values.len(),
                texts(args@) == self@.args + slice_texts(values@).take(i as int),
            decreases values.len() - i,
        {
            let ghost before = texts(args@);
            args.push(values[i].to_owned());
            assert(texts(args@) =~= before.push(values@[i as int]@));
            assert(slice_texts(values@).take(i + 1) =~= slice_texts(values@).take(i as int).push(
                values@[i as int]@,
            ));
            i += 1;
        }
        assert(slice_texts(values@).take(i as int) =~= slice_texts(values@));
        TestCommand { cwd: self.cwd, args, env_vars: self.env_vars }
    }

    /// Appends one assignment to the environment additions. An assignment to
    /// a key that was assigned before is kept beside the earlier one.
    pub fn env(self, key: &str, value: &str) -> (command: Self)
        ensures
            command@ == (CommandModel { env_vars: self@.env_vars.push((key@, value@)), ..self@ }),
    {
        let mut env_vars = self.env_vars;
        env_vars.push((key.to_owned(), value.to_owned()));
        let command = TestCommand { cwd: self.cwd, args: self.args, env_vars };
        assert(command@.env_vars =~= self@.env_vars.push((key@, value@)));
        command
    }

    /// Moves the working directory to `path`, joined onto the current one.
    pub fn cd(self, path: &str) -> (command: Self)
        ensures
            command@ == (CommandModel { cwd: joined_path(self@.cwd, path@), ..self@ }),
    {
        let cwd = join_path(self.cwd.as_str(), path);
        TestCommand { cwd, args: self.args, env_vars: self.env_vars }
    }

    /// The directory the command will run in.
    pub fn cwd(&self) -> (cwd: &str)
        ensures
            cwd@ == self@.cwd,
    {
        self.cwd.as_str()
    }

    /// Resolves the command into an invocation of the binary `name` found
    /// under `above`, the directory above the harness.
    pub fn build_command_under(self, above: &str, name: &str) -> (invocation: Invocation)
        ensures
            invocation@ == (InvocationModel {
                program: binary_under(above@, name@),
                args: self@.args,
                cwd: self@.cwd,
                env_vars: self@.env_vars,
            }),
    {
        let output = join_path(above, OUTPUT_DIR);
        let profile = join_path(output.as_str(), PROFILE_DIR);
        let program = join_path(profile.as_str(), name);
        Invocation { program, args: self.args, cwd: self.cwd, env_vars: self.env_vars }
    }

    /// Resolves the command into an invocation for a harness whose own
    /// directory is `manifest_dir`.
    ///
    /// The binary is named by `package_override` where there is one and by
    /// `default_name` otherwise, and lies in the debug build output next to
    /// the harness. Arguments, working directory and environment additions
    /// are handed on as configured. The result is `None` exactly when
    /// `manifest_dir` has no parent directory.
    pub fn build_command(
        self,
        manifest_dir: &str,
        package_override: Option<&str>,
        default_name: &str,
    ) -> (invocation: Option<Invocation>)
        ensures
            match binary_location(
                manifest_dir@,
                match package_override {
                    Some(name) => Some(name@),
                    None => None,
                },
                default_name@,
            ) {
                Some(program) => invocation is Some && invocation->0@ == (InvocationModel {
                    program,
                    args: self@.args,
                    cwd: self@.cwd,
                    env_vars: self@.env_vars,
                }),
                None => invocation is None,
            },
    {
        let name = match package_override {
            Some(name) => name,
            None => default_name,
        };
        match parent_dir(manifest_dir) {
            Some(above) => Some(self.build_command_under(above.as_str(), name)),
            None => None,
        }
    }
}

} // verus!
