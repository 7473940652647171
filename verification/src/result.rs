//! The outcome of one finished invocation: exit code and captured output.
use vstd::prelude::*;
use vstd::string::StringExecFns;
use vstd::utf8::{decode_utf8, encode_utf8_decode_utf8, valid_utf8};

verus! {

/// The label that precedes standard output in a rendered outcome.
pub const STDOUT_LABEL: &'static str = "stdout: ";

/// The label that precedes standard error in a rendered outcome.
pub const STDERR_LABEL: &'static str = "\nstderr: ";

/// What a [`CommandResult`] stands for.
///
/// `code` is the numeric exit code, or `None` when the process ended without
/// one (killed by a signal). The two sequences are the captured standard
/// output and standard error, byte for byte.
pub struct OutcomeModel {
    pub code: Option<i32>,
    pub stdout: Seq<u8>,
    pub stderr: Seq<u8>,
}

impl OutcomeModel {
    /// A process succeeded exactly when it exited with code zero.
    pub open spec fn succeeded(self) -> bool {
        self.code == Some(0i32)
    }

    /// A process failed exactly when it did not succeed.
    pub open spec fn failed(self) -> bool {
        !self.succeeded()
    }

    /// Both captured streams are well-formed UTF-8.
    pub open spec fn is_text(self) -> bool {
        valid_utf8(self.stdout) && valid_utf8(self.stderr)
    }

    /// The labeled rendering of both streams.
    pub open spec fn rendered(self) -> Seq<char> {
        STDOUT_LABEL@ + decode_utf8(self.stdout) + STDERR_LABEL@ + decode_utf8(self.stderr)
    }
}

/// What a child process left behind once it exited.
pub struct CommandResult {
    code: Option<i32>,
    stdout: Vec<u8>,
    stderr: Vec<u8>,
}

impl View for CommandResult {
    type V = OutcomeModel;

    closed spec fn view(&self) -> OutcomeModel {
        OutcomeModel { code: self.code, stdout: self.stdout@, stderr: self.stderr@ }
    }
}

impl CommandResult {
    /// Wraps a captured exit code and the two captured streams.
    pub fn new(code: Option<i32>, stdout: Vec<u8>, stderr: Vec<u8>) -> (result: Self)
        ensures
            result@ == (OutcomeModel { code, stdout: stdout@, stderr: stderr@ }),
    {
        CommandResult { code, stdout, stderr }
    }

    /// Whether the process exited with code zero.
    pub fn is_success(&self) -> (ok: bool)
        ensures
            ok == self@.succeeded(),
    {
        match self.code {
            Some(c) => c == 0,
            None => false,
        }
    }

    /// Whether the process failed: the complement of [`Self::is_success`].
    pub fn is_err(&self) -> (failed: bool)
        ensures
            failed == self@.failed(),
    {
        !self.is_success()
    }

    /// Standard output, decoded as UTF-8.
    pub fn stdout(&self) -> (text: &str)
        requires
            valid_utf8(self@.stdout),
        ensures
            text@ == decode_utf8(self@.stdout),
    {
        broadcast use encode_utf8_decode_utf8;

        core::str::from_utf8(self.stdout.as_slice()).unwrap()
    }

    /// Standard error, decoded as UTF-8.
    pub fn stderr(&self) -> (text: &str)
        requires
            valid_utf8(self@.stderr),
        ensures
            text@ == decode_utf8(self@.stderr),
    {
        broadcast use encode_utf8_decode_utf8;

        core::str::from_utf8(self.stderr.as_slice()).unwrap()
    }

    /// The numeric exit code of a process that ended with one.
    pub fn code(&self) -> (code: i32)
        requires
            self@.code is Some,
        ensures
            Some(code) == self@.code,
    {
        self.code.unwrap()
    }

    /// Sorts the outcome into `Ok` for a success and `Err` for a failure,
    /// carrying the unchanged outcome either way.
    pub fn result(self) -> (outcome: Result<Self, Self>)
        ensures
            self@.succeeded() ==> outcome == Ok::<Self, Self>(self),
            !self@.succeeded() ==> outcome == Err::<Self, Self>(self),
    {
        if self.is_success() {
            Ok(self)
        } else {
            Err(self)
        }
    }

    /// Both streams as text, each under its label: the form shown when an
    /// assertion on the outcome fails.
    pub fn render(&self) -> (text: String)
        requires
            self@.is_text(),
        ensures
            text@ == self@.rendered(),
    {
        let mut text = STDOUT_LABEL.to_owned();
        text.append(self.stdout());
        text.append(STDERR_LABEL);
        text.append(self.stderr());
        text
    }

    /// The exit code as captured, `None` for abnormal termination.
    pub fn exit_code(&self) -> (code: Option<i32>)
        ensures
            code == self@.code,
    {
        self.code
    }

    /// The bytes captured from standard output.
    pub fn stdout_bytes(&self) -> (bytes: &[u8])
        ensures
            bytes@ == self@.stdout,
    {
        self.stdout.as_slice()
    }

    /// The bytes captured from standard error.
    pub fn stderr_bytes(&self) -> (bytes: &[u8])
        ensures
            bytes@ == self@.stderr,
    {
        self.stderr.as_slice()
    }
}

/// A process that exits with code zero is a success, is not a failure, and
/// reports the code zero.
pub proof fn lemma_zero_exit_is_success(result: CommandResult)
    requires
        result@.code == Some(0i32),
    ensures
        result@.succeeded(),
        !result@.failed(),
        result@.code is Some && result@.code->0 == 0,
{
}

/// Success and failure exclude each other, and every outcome is one of them.
pub proof fn lemma_success_or_failure(result: CommandResult)
    ensures
        result@.succeeded() != result@.failed(),
{
}

} // verus!
