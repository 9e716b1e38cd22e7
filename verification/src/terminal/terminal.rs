//! A terminal writer that collects coloured text.
use vstd::prelude::*;

use crate::terminal::ansi_sequences::{ANSICode, ResetANSI, WhiteANSI};
use crate::text::{push_char, push_str, utf8_len};

verus! {

/// The text that `write_ansi` puts out: the code, the text, then the reset
/// sequence.
pub open spec fn painted(code: Seq<char>, text: Seq<char>) -> Seq<char> {
    code + text + ResetANSI.spec_value()
}

/// The text that `write_separated_parameters` puts out for the first `n`
/// parts: even parts in `code`, odd parts in white, each odd part but the
/// last part followed by the separator in white.
pub open spec fn separated_text(parts: Seq<&str>, code: Seq<char>, separator: Seq<char>, n: int) -> Seq<char>
    decreases n,
{
    if n <= 0 {
        Seq::empty()
    } else {
        let i = n - 1;
        let prev = separated_text(parts, code, separator, i);
        if i % 2 == 0 {
            prev + painted(code, parts[i]@)
        } else if i != parts.len() - 1 {
            prev + painted(WhiteANSI.spec_value(), parts[i]@) + painted(WhiteANSI.spec_value(), separator)
        } else {
            prev + painted(WhiteANSI.spec_value(), parts[i]@)
        }
    }
}

/// The byte length that `write_separated_parameters` counts for the first `n`
/// parts: the parts and the separators, without the control sequences.
pub open spec fn separated_len(parts: Seq<&str>, separator: Seq<char>, n: int) -> nat
    decreases n,
{
    if n <= 0 {
        0
    } else {
        let i = n - 1;
        let prev = separated_len(parts, separator, i);
        if i % 2 == 1 && i != parts.len() - 1 {
            prev + utf8_len(parts[i]@) + utf8_len(separator)
        } else {
            prev + utf8_len(parts[i]@)
        }
    }
}

/// A terminal writer. What it writes is collected, in order, in its output,
/// which the program hands to standard output.
pub struct Terminal {
    ansi_code: String,
    ansi_reset: ResetANSI,
    output: String,
}

impl Terminal {
    /// The code that `write` and `writeln` use.
    pub closed spec fn code(&self) -> Seq<char> {
        self.ansi_code@
    }

    /// What has been written and not yet taken.
    pub closed spec fn output(&self) -> Seq<char> {
        self.output@
    }

    /// A terminal that writes in white, with nothing written yet.
    pub fn new() -> (r: Self)
        ensures
            r.code() == WhiteANSI.spec_value(),
            r.output() == Seq::<char>::empty(),
    {
        Terminal { ansi_code: WhiteANSI.value(), ansi_reset: ResetANSI, output: String::new() }
    }

    /// Writes `text` in the terminal's code.
    pub fn write(&mut self, text: &str)
        ensures
            final(self).code() == old(self).code(),
            final(self).output() == old(self).output() + painted(old(self).code(), text@),
    {
        let reset: String = self.ansi_reset.value();
        push_str(&mut self.output, self.ansi_code.as_str());
        push_str(&mut self.output, text);
        push_str(&mut self.output, reset.as_str());
        assert(self.output@ =~= old(self).output() + painted(old(self).code(), text@));
    }

    /// Writes `text` in the terminal's code, then a line break.
    pub fn writeln(&mut self, text: &str)
        ensures
            final(self).code() == old(self).code(),
            final(self).output() == old(self).output() + painted(old(self).code(), text@) + seq!['\n'],
    {
        self.write(text);
        push_char(&mut self.output, '\n');
    }

    /// Writes `text` in `ansi_code`.
    pub fn write_ansi<T: ANSICode>(&mut self, text: &str, ansi_code: &T)
        ensures
            final(self).code() == old(self).code(),
            final(self).output() == old(self).output() + painted(ansi_code.spec_value(), text@),
    {
        let code: String = ansi_code.value();
        let reset: String = self.ansi_reset.value();
        push_str(&mut self.output, code.as_str());
        push_str(&mut self.output, text);
        push_str(&mut self.output, reset.as_str());
        assert(self.output@ =~= old(self).output() + painted(ansi_code.spec_value(), text@));
    }

    /// Writes `text` in `ansi_code`, then a line break.
    pub fn writeln_ansi<T: ANSICode>(&mut self, text: &str, ansi_code: &T)
        ensures
            final(self).code() == old(self).code(),
            final(self).output() == old(self).output() + painted(ansi_code.spec_value(), text@)
                + seq!['\n'],
    {
        self.write_ansi(text, ansi_code);
        push_char(&mut self.output, '\n');
    }

    /// Writes a name in `ansi_code` and its value in white.
    pub fn write_parameter<T: ANSICode + Copy>(&mut self, parts: &[&str; 2], ansi_code: &T)
        ensures
            final(self).code() == old(self).code(),
            final(self).output() == old(self).output() + painted(ansi_code.spec_value(), parts@[0]@)
                + painted(WhiteANSI.spec_value(), parts@[1]@),
    {
        self.write_ansi(parts[0], ansi_code);
        self.write_ansi(parts[1], &WhiteANSI);
    }

    /// Writes a name in `ansi_code` and its value in white, then a line break.
    pub fn writeln_parameter<T: ANSICode + Copy>(&mut self, parts: &[&str; 2], ansi_code: &T)
        ensures
            final(self).code() == old(self).code(),
            final(self).output() == old(self).output() + painted(ansi_code.spec_value(), parts@[0]@)
                + painted(WhiteANSI.spec_value(), parts@[1]@) + seq!['\n'],
    {
        self.write_parameter(parts, ansi_code);
        push_char(&mut self.output, '\n');
    }

    /// Writes name and value pairs: names in `ansi_code`, values in white,
    /// pairs separated by `separator`. Returns the byte length of the text
    /// written without its control sequences.
    pub fn write_separated_parameters<T: ANSICode>(
        &mut self,
        parts: &[&str],
        ansi_code: &T,
        separator: &str,
    ) -> (r: usize)
        requires
            separated_len(parts@, separator@, parts@.len() as int) <= usize::MAX,
        ensures
            final(self).code() == old(self).code(),
            final(self).output() == old(self).output() + separated_text(
                parts@,
                ansi_code.spec_value(),
                separator@,
                parts@.len() as int,
            ),
            r == separated_len(parts@, separator@, parts@.len() as int),
    {
        let mut length: usize = 0;
        let mut idx: usize = 0;
        while idx < parts.len()
            invariant
                idx <= parts@.len(),
                separated_len(parts@, separator@, parts@.len() as int) <= usize::MAX,
                self.code() == old(self).code(),
                self.output() == old(self).output() + separated_text(
                    parts@,
                    ansi_code.spec_value(),
                    separator@,
                    idx as int,
                ),
                length == separated_len(parts@, separator@, idx as int),
            decreases parts@.len() - idx,
        {
            proof {
                lemma_separated_len_mono(parts@, separator@, idx + 1, parts@.len() as int);
                crate::text::lemma_utf8_len(parts@[idx as int]@);
                crate::text::lemma_utf8_len(separator@);
            }
            let part: &str = parts[idx];
            if idx % 2 == 0 {
                self.write_ansi(part, ansi_code);
                length = length + part.len();
            } else {
                self.write_ansi(part, &WhiteANSI);
                length = length + part.len();
                if idx != (parts.len() - 1) {
                    self.write_ansi(separator, &WhiteANSI);
                    length = length + separator.len();
                }
            }
            idx = idx + 1;
        }
        length
    }

    /// `write_separated_parameters`, then a line break.
    pub fn writeln_separated_parameters<T: ANSICode>(
        &mut self,
        parts: &[&str],
        ansi_code: &T,
        separator: &str,
    ) -> (r: usize)
        requires
            separated_len(parts@, separator@, parts@.len() as int) <= usize::MAX,
        ensures
            final(self).code() == old(self).code(),
            final(self).output() == old(self).output() + separated_text(
                parts@,
                ansi_code.spec_value(),
                separator@,
                parts@.len() as int,
            ) + seq!['\n'],
            r == separated_len(parts@, separator@, parts@.len() as int),
    {
        let length: usize = self.write_separated_parameters(parts, ansi_code, separator);
        push_char(&mut self.output, '\n');
        length
    }

    /// Makes `ansi_code` the code of `write` and `writeln`.
    pub fn set_ansi_code<T: ANSICode>(&mut self, ansi_code: T)
        ensures
            final(self).code() == ansi_code.spec_value(),
            final(self).output() == old(self).output(),
    {
        self.ansi_code = ansi_code.value();
    }

    /// Writes the reset sequence.
    pub fn write_reset(&mut self)
        ensures
            final(self).code() == old(self).code(),
            final(self).output() == old(self).output() + ResetANSI.spec_value(),
    {
        let reset: String = self.ansi_reset.value();
        push_str(&mut self.output, reset.as_str());
    }

    /// Writes `text` as it is, without control sequences.
    pub fn write_raw(&mut self, text: &str)
        ensures
            final(self).code() == old(self).code(),
            final(self).output() == old(self).output() + text@,
    {
        push_str(&mut self.output, text);
    }

    /// Takes what has been written, leaving the output empty.
    pub fn take_output(&mut self) -> (r: String)
        ensures
            r@ == old(self).output(),
            final(self).code() == old(self).code(),
            final(self).output() == Seq::<char>::empty(),
    {
        let out: String = self.output.clone();
        self.output = String::new();
        out
    }
}

proof fn lemma_separated_len_mono(parts: Seq<&str>, separator: Seq<char>, a: int, b: int)
    requires
        0 <= a <= b,
    ensures
        separated_len(parts, separator, a) <= separated_len(parts, separator, b),
    decreases b - a,
{
    if a < b {
        lemma_separated_len_mono(parts, separator, a, b - 1);
    }
}

} // verus!
