//! String helpers, the confirmation prompt's decision and the coloured
//! printing of command-line help.
use vstd::prelude::*;
use vstd::string::{StrSliceExecFns, StringSliceAdditionalSpecFns};

use crate::terminal::ansi_sequences::{ANSICode, CyanANSI, GreenANSI, RedANSI, WhiteANSI, YellowANSI};
use crate::terminal::terminal::{painted, Terminal};
use crate::text::{
    char_is_alphabetic, chars_of, find_chars, find_seq, is_alphabetic_char, lines_of, lines_seq,
    push_repeat, seq_ends_with, str_eq, string_from_range, trim, trim_str, utf8_len, views,
};

verus! {

/// What `StringOp::split_retain_delim_left` returns: for a non-empty string
/// and delimiter, the text up to and including the first occurrence of the
/// delimiter, and the rest.
pub open spec fn split_retain_spec(s: Seq<char>, d: Seq<char>) -> Option<(Seq<char>, Seq<char>)> {
    if s.len() > 0 && d.len() > 0 {
        match find_seq(s, d) {
            Some(i) => Some((s.take(i + d.len() as int), s.skip(i + d.len() as int))),
            None => None,
        }
    } else {
        None
    }
}

/// What `StringOp::trim_with_ellipsis` returns: the string itself when its
/// byte length is at most `length`, else its first `length - ellipsis`
/// characters followed by `ellipsis` dots.
pub open spec fn ellipsis_spec(s: Seq<char>, length: nat, ellipsis: nat) -> Seq<char> {
    if utf8_len(s) <= length {
        s
    } else {
        let keep = length - ellipsis;
        let kept = if keep < s.len() {
            s.take(keep)
        } else {
            s
        };
        kept + Seq::new(ellipsis, |_i: int| '.')
    }
}

/// String operations.
pub struct StringOp;

impl StringOp {
    /// The characters `start..end` of `s`; `None` unless both positions are
    /// characters of `s`.
    pub fn substring(s: &str, start: usize, end: usize) -> (r: Option<&str>)
        requires
            start < s@.len() && end < s@.len() ==> start <= end,
        ensures
            start < s@.len() && end < s@.len() ==> (r matches Some(t) && t@ == s@.subrange(
                start as int,
                end as int,
            )),
            !(start < s@.len() && end < s@.len()) ==> r is None,
    {
        let n: usize = s.unicode_len();
        if start >= n || end >= n {
            return None;
        }
        Some(s.substring_char(start, end))
    }

    /// `s` when its byte length is at most `length`; otherwise its first
    /// `length - ellipsis` characters followed by `ellipsis` dots.
    pub fn trim_with_ellipsis(s: &str, length: usize, ellipsis: usize) -> (r: String)
        requires
            utf8_len(s@) > length ==> ellipsis <= length,
        ensures
            r@ == ellipsis_spec(s@, length as nat, ellipsis as nat),
    {
        proof {
            crate::text::lemma_utf8_len(s@);
        }
        let byte_len: usize = s.as_bytes().len();
        if byte_len <= length {
            assert(utf8_len(s@) <= length);
            return String::from_str(s);
        }
        let v: Vec<char> = chars_of(s);
        let keep: usize = length - ellipsis;
        let end: usize = if keep < v.len() {
            keep
        } else {
            v.len()
        };
        let mut trimmed: String = string_from_range(&v, 0, end);
        push_repeat(&mut trimmed, '.', ellipsis);
        proof {
            assert(v@.subrange(0, v@.len() as int) =~= v@);
            assert(v@.subrange(0, end as int) =~= v@.take(end as int));
        }
        trimmed
    }

    /// Splits `s` after the first occurrence of `delimiter`: the first part
    /// ends with the delimiter, the second holds the rest. `None` when either
    /// is empty or the delimiter does not occur.
    pub fn split_retain_delim_left<'a>(s: &'a str, delimiter: &'a str) -> (r: Option<(&'a str, &'a str)>)
        ensures
            match split_retain_spec(s@, delimiter@) {
                Some(p) => r matches Some(q) && (q.0@, q.1@) == p,
                None => r is None,
            },
    {
        if !s.is_empty() && !delimiter.is_empty() {
            let v: Vec<char> = chars_of(s);
            let d: Vec<char> = chars_of(delimiter);
            match find_chars(&v, &d) {
                Some(index) => {
                    proof {
                        crate::text::lemma_find_seq_result(v@, d@);
                        assert(index + d@.len() <= v@.len());
                        assert(v@.len() == v.len());
                    }
                    let cut: usize = index + d.len();
                    let first: &str = s.substring_char(0, cut);
                    let second: &str = s.substring_char(cut, v.len());
                    assert(s@.subrange(0, cut as int) =~= s@.take(cut as int));
                    assert(s@.subrange(cut as int, s@.len() as int) =~= s@.skip(cut as int));
                    return Some((first, second));
                },
                None => {
                    return None;
                },
            }
        }
        None
    }
}

/// Law: the two parts that `split_retain_delim_left` returns put back
/// together give the string, and the first part ends with the delimiter.
pub proof fn law_split_retain_rejoins(s: Seq<char>, d: Seq<char>)
    ensures
        split_retain_spec(s, d) matches Some(p) ==> p.0 + p.1 == s && seq_ends_with(p.0, d),
{
    if s.len() > 0 && d.len() > 0 {
        crate::text::lemma_find_seq_result(s, d);
        if let Some(i) = find_seq(s, d) {
            let cut = i + d.len();
            assert(s.take(cut as int) + s.skip(cut as int) =~= s);
            assert(s.take(cut as int).skip(cut - d.len()) =~= s.subrange(i as int, cut as int));
        }
    }
}

/// True when the trimmed answer is `y` or `Y`.
pub open spec fn confirms(input: Seq<char>) -> bool {
    trim(input) == seq!['y'] || trim(input) == seq!['Y']
}

/// The question that the confirmation prompt writes, in cyan.
pub open spec fn prompt_question() -> Seq<char> {
    "\nDo you want to continue? [y/N]: "@
}

/// What `ConfirmationPrompt::process_input` writes for an answer.
pub open spec fn answer_text(input: Seq<char>) -> Seq<char> {
    if confirms(input) {
        painted(GreenANSI.spec_value(), "Continuing...\n\n"@) + seq!['\n']
    } else {
        painted(RedANSI.spec_value(), "Not continuing...\n"@) + seq!['\n']
    }
}

/// Asks whether to continue and decides on the answer.
pub struct ConfirmationPrompt;

impl ConfirmationPrompt {
    /// Writes the question in cyan; the answer is then read by the caller.
    pub fn ask(terminal: &mut Terminal)
        ensures
            final(terminal).code() == old(terminal).code(),
            final(terminal).output() == old(terminal).output() + painted(
                CyanANSI.spec_value(),
                prompt_question(),
            ),
    {
        let string: &str = "\nDo you want to continue? [y/N]: ";
        proof {
            reveal_strlit("\nDo you want to continue? [y/N]: ");
        }
        terminal.write_ansi(string, &CyanANSI);
    }

    /// True when the trimmed answer is `y` or `Y`; writes "Continuing..." in
    /// green when it is, "Not continuing..." in red when it is not.
    pub fn process_input(terminal: &mut Terminal, input: &str) -> (r: bool)
        ensures
            r == confirms(input@),
            final(terminal).code() == old(terminal).code(),
            final(terminal).output() == old(terminal).output() + answer_text(input@),
    {
        let answer: String = trim_str(input);
        proof {
            reveal_strlit("y");
            reveal_strlit("Y");
            assert("y"@ =~= seq!['y']);
            assert("Y"@ =~= seq!['Y']);
        }
        if str_eq(answer.as_str(), "y") || str_eq(answer.as_str(), "Y") {
            let string: &str = "Continuing...\n\n";
            terminal.writeln_ansi(string, &GreenANSI);
            return true;
        } else {
            let string: &str = "Not continuing...\n";
            terminal.writeln_ansi(string, &RedANSI);
            return false;
        }
    }

    /// Writes the message for an answer that could not be read; the answer
    /// counts as a no.
    pub fn handle_error(terminal: &mut Terminal, message: &str) -> (r: bool)
        ensures
            !r,
            final(terminal).code() == old(terminal).code(),
            final(terminal).output() == old(terminal).output() + painted(
                RedANSI.spec_value(),
                "Failed to read line: "@ + message@ + seq!['\n'],
            ) + seq!['\n'],
    {
        let mut string: String = String::from_str("Failed to read line: ");
        crate::text::push_str(&mut string, message);
        crate::text::push_char(&mut string, '\n');
        proof {
            reveal_strlit("Failed to read line: ");
        }
        terminal.writeln_ansi(string.as_str(), &RedANSI);
        false
    }
}

/// True when the line begins with a letter.
pub open spec fn is_option_line(line: Seq<char>) -> bool {
    line.len() > 0 && is_alphabetic_char(line[0])
}

/// What `OptionsPrinter::print` writes for the line at `idx`: a line that
/// begins with a letter and holds a `:` is split after it, the name in
/// yellow when nothing follows and in red otherwise, the rest in white; such
/// a line without a `:` is written in green when it is the first line and
/// left out otherwise; any other line is written in white.
pub open spec fn option_line_text(line: Seq<char>, idx: int) -> Seq<char> {
    if is_option_line(line) {
        match split_retain_spec(line, seq![':']) {
            Some(p) => if p.1.len() == 0 {
                painted(YellowANSI.spec_value(), p.0) + painted(WhiteANSI.spec_value(), p.1)
                    + seq!['\n']
            } else {
                painted(RedANSI.spec_value(), p.0) + painted(WhiteANSI.spec_value(), p.1)
                    + seq!['\n']
            },
            None => if idx == 0 {
                painted(GreenANSI.spec_value(), line) + seq!['\n']
            } else {
                Seq::empty()
            },
        }
    } else {
        painted(WhiteANSI.spec_value(), line) + seq!['\n']
    }
}

/// What `OptionsPrinter::print` writes for the first `n` lines.
pub open spec fn options_text(lines: Seq<Seq<char>>, n: int) -> Seq<char>
    decreases n,
{
    if n <= 0 {
        Seq::empty()
    } else {
        options_text(lines, n - 1) + option_line_text(lines[n - 1], n - 1)
    }
}

/// Writes the help text of the command line in colour.
pub struct OptionsPrinter {
    terminal: Terminal,
}

impl OptionsPrinter {
    /// What has been written and not yet taken.
    pub closed spec fn output(&self) -> Seq<char> {
        self.terminal.output()
    }

    /// A printer with nothing written yet.
    pub fn new() -> (r: Self)
        ensures
            r.output() == Seq::<char>::empty(),
    {
        OptionsPrinter { terminal: Terminal::new() }
    }

    /// Writes each line of `opt_string` as `option_line_text` says.
    pub fn print(&mut self, opt_string: &str)
        ensures
            final(self).output() == old(self).output() + options_text(
                lines_seq(opt_string@),
                lines_seq(opt_string@).len() as int,
            ),
    {
        let lines: Vec<String> = lines_of(opt_string);
        let ghost ls = lines_seq(opt_string@);
        let mut idx: usize = 0;
        while idx < lines.len()
            invariant
                idx <= lines@.len(),
                views(lines@) == ls,
                self.output() == old(self).output() + options_text(ls, idx as int),
            decreases lines@.len() - idx,
        {
            let line: &str = lines[idx].as_str();
            assert(line@ == ls[idx as int]);
            if self.is_non_empty_alphabetic_line(line) {
                self.handle_alphabetic_line(line, idx);
            } else {
                self.terminal.writeln_ansi(line, &WhiteANSI);
            }
            assert(self.output() =~= old(self).output() + options_text(ls, idx + 1));
            idx = idx + 1;
        }
    }

    /// Takes what has been written, leaving the output empty.
    pub fn take_output(&mut self) -> (r: String)
        ensures
            r@ == old(self).output(),
            final(self).output() == Seq::<char>::empty(),
    {
        self.terminal.take_output()
    }

    /// True when the line begins with a letter.
    fn is_non_empty_alphabetic_line(&self, line: &str) -> (r: bool)
        ensures
            r == is_option_line(line@),
    {
        if !line.is_empty() {
            let c: char = line.get_char(0);
            if char_is_alphabetic(c) {
                return true;
            }
        }
        false
    }

    /// Writes a line that begins with a letter.
    fn handle_alphabetic_line(&mut self, line: &str, idx: usize)
        requires
            is_option_line(line@),
        ensures
            final(self).output() == old(self).output() + option_line_text(line@, idx as int),
    {
        proof {
            reveal_strlit(":");
            assert(":"@ =~= seq![':']);
        }
        let split_line: Option<(&str, &str)> = StringOp::split_retain_delim_left(line, ":");
        if let Some(split) = split_line {
            let parts: [&str; 2] = [split.0, split.1];
            if split.1.is_empty() {
                self.terminal.writeln_parameter(&parts, &YellowANSI);
            } else {
                self.terminal.writeln_parameter(&parts, &RedANSI);
            }
        } else if idx == 0 {
            self.terminal.writeln_ansi(line, &GreenANSI);
        }
    }
}

} // verus!
