//! What a finished command wrote, and how it ended. Running the command is
//! done by the caller, who hands in its two streams and its exit code.
use vstd::prelude::*;

use crate::general::shell::utf8_text;

verus! {

/// The raw response of a command: its two streams as written, and its exit
/// code (`None` when it was ended by a signal).
pub struct CommandR {
    stdout: String,
    stderr: String,
    status: Option<i32>,
}

impl CommandR {
    /// What the command wrote to its output stream.
    pub closed spec fn stdout_view(&self) -> Seq<char> {
        self.stdout@
    }

    /// What the command wrote to its error stream.
    pub closed spec fn stderr_view(&self) -> Seq<char> {
        self.stderr@
    }

    /// The exit code.
    pub closed spec fn status_view(&self) -> Option<i32> {
        self.status
    }

    /// The response from the bytes the command wrote and its exit code;
    /// `None` when either stream is not UTF-8.
    pub fn new(stdout: Vec<u8>, stderr: Vec<u8>, status: Option<i32>) -> (r: Option<Self>)
        ensures
            r is Some <==> vstd::utf8::valid_utf8(stdout@) && vstd::utf8::valid_utf8(stderr@),
            r matches Some(c) ==> c.stdout_view() == vstd::utf8::decode_utf8(stdout@)
                && c.stderr_view() == vstd::utf8::decode_utf8(stderr@) && c.status_view() == status,
    {
        let out: Option<String> = utf8_text(stdout);
        let err: Option<String> = utf8_text(stderr);
        match (out, err) {
            (Some(stdout), Some(stderr)) => Some(CommandR { stdout, stderr, status }),
            _ => None,
        }
    }

    /// What the command wrote to its output stream.
    pub fn get_stdout(&self) -> (r: &str)
        ensures
            r@ == self.stdout_view(),
    {
        self.stdout.as_str()
    }

    /// What the command wrote to its error stream.
    pub fn get_stderr(&self) -> (r: &str)
        ensures
            r@ == self.stderr_view(),
    {
        self.stderr.as_str()
    }

    /// The exit code.
    pub fn get_status(&self) -> (r: Option<i32>)
        ensures
            r == self.status_view(),
    {
        self.status
    }
}

/// Runs commands; the running itself is done by the caller.
pub struct CommandE;

impl CommandE {
    /// A command runner.
    pub fn new() -> (r: Self) {
        CommandE
    }
}

} // verus!
