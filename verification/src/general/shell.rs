//! The response of a command run in a shell. Running the command is done by
//! the caller, who hands in what it wrote and how it ended.
use vstd::prelude::*;

use crate::general::terminal::{ANSICode, GreenANSI, RedANSI, Terminal, YellowANSI, painted};
use crate::text::{repeat_char, trim, trim_str};

verus! {

/// Calls `String::from_utf8` on `bytes`: the text they encode, `None` when
/// they are not UTF-8.
#[verifier::external_body]
pub(crate) fn utf8_text(bytes: Vec<u8>) -> (r: Option<String>)
    ensures
        r is Some <==> vstd::utf8::valid_utf8(bytes@),
        r matches Some(s) ==> s@ == vstd::utf8::decode_utf8(bytes@),
{
    String::from_utf8(bytes).ok()
}

/// What `CommandResponse::print` writes: the output in green when the
/// command ended with code 0 and wrote no error, the error in red otherwise,
/// then a separator in yellow.
pub open spec fn response_text(stdout: Seq<char>, stderr: Seq<char>, code: Option<i32>) -> Seq<char> {
    (if code == Some(0i32) && stderr.len() == 0 {
        painted(GreenANSI.spec_value(), trim(stdout))
    } else {
        painted(RedANSI.spec_value(), trim(stderr))
    }) + seq!['\n'] + painted(YellowANSI.spec_value(), Seq::new(10, |_i: int| '-')) + seq!['\n']
}

/// The response of a command: what it wrote to its output and error streams,
/// trimmed, and its exit code.
pub struct CommandResponse {
    stdout: String,
    stderr: String,
    code: Option<i32>,
    terminal: Terminal,
}

impl CommandResponse {
    /// What the command wrote to its output stream, trimmed.
    pub closed spec fn stdout_view(&self) -> Seq<char> {
        self.stdout@
    }

    /// What the command wrote to its error stream, trimmed.
    pub closed spec fn stderr_view(&self) -> Seq<char> {
        self.stderr@
    }

    /// The exit code; `None` when the command was ended by a signal.
    pub closed spec fn code(&self) -> Option<i32> {
        self.code
    }

    /// What has been written and not yet taken.
    pub closed spec fn output(&self) -> Seq<char> {
        self.terminal.output()
    }

    /// The response of a command from the bytes it wrote and its exit code;
    /// `None` when either stream is not UTF-8.
    pub fn new(stdout: Vec<u8>, stderr: Vec<u8>, code: Option<i32>) -> (r: Option<Self>)
        ensures
            r is Some <==> vstd::utf8::valid_utf8(stdout@) && vstd::utf8::valid_utf8(stderr@),
            r matches Some(c) ==> c.stdout_view() == trim(vstd::utf8::decode_utf8(stdout@))
                && c.stderr_view() == trim(vstd::utf8::decode_utf8(stderr@)) && c.code() == code
                && c.output() == Seq::<char>::empty(),
    {
        let out: Option<String> = utf8_text(stdout);
        let err: Option<String> = utf8_text(stderr);
        match (out, err) {
            (Some(out), Some(err)) => {
                let response = CommandResponse {
                    stdout: trim_str(out.as_str()),
                    stderr: trim_str(err.as_str()),
                    code,
                    terminal: Terminal::new(),
                };
                Some(response)
            },
            _ => None,
        }
    }

    /// What the command wrote to its output stream, trimmed.
    pub fn get_stdout(&self) -> (r: &str)
        ensures
            r@ == self.stdout_view(),
    {
        self.stdout.as_str()
    }

    /// What the command wrote to its error stream, trimmed.
    pub fn get_stderr(&self) -> (r: &str)
        ensures
            r@ == self.stderr_view(),
    {
        self.stderr.as_str()
    }

    /// The exit code; `None` when the command was ended by a signal.
    pub fn get_status(&self) -> (r: Option<i32>)
        ensures
            r == self.code(),
    {
        self.code
    }

    /// True when the command ended with code 0.
    pub fn success(&self) -> (r: bool)
        ensures
            r == (self.code() == Some(0i32)),
    {
        match self.code {
            Some(code) => code == 0,
            None => false,
        }
    }

    /// Writes the output of a successful command in green, or else its error
    /// in red, and a separator.
    pub fn print(&mut self)
        ensures
            final(self).stdout_view() == old(self).stdout_view(),
            final(self).stderr_view() == old(self).stderr_view(),
            final(self).code() == old(self).code(),
            final(self).output() == old(self).output() + response_text(
                old(self).stdout_view(),
                old(self).stderr_view(),
                old(self).code(),
            ),
    {
        let separator: String = repeat_char('-', 10);
        let ok: bool = match self.code {
            Some(code) => code == 0 && self.stderr.as_str().is_empty(),
            None => false,
        };
        if ok {
            let string: String = trim_str(self.stdout.as_str());
            self.terminal.writeln_ansi(string.as_str(), &GreenANSI);
        } else {
            let string: String = trim_str(self.stderr.as_str());
            self.terminal.writeln_ansi(string.as_str(), &RedANSI);
        }
        self.terminal.writeln_ansi(separator.as_str(), &YellowANSI);
    }

    /// Takes what has been written, leaving the output empty.
    pub fn take_output(&mut self) -> (r: String)
        ensures
            r@ == old(self).output(),
            final(self).output() == Seq::<char>::empty(),
            final(self).stdout_view() == old(self).stdout_view(),
            final(self).stderr_view() == old(self).stderr_view(),
            final(self).code() == old(self).code(),
    {
        self.terminal.take_output()
    }
}

/// Runs commands; the caller runs them and builds their responses.
pub struct CommandExecute;

impl CommandExecute {
    /// The runner.
    pub fn new() -> (r: Self) {
        CommandExecute
    }
}

} // verus!
