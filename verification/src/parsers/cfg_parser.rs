//! A reader of `name = setting` configuration files such as `pyvenv.cfg`.
use vstd::prelude::*;

use crate::text::{
    chars_of, first_index_of, push_str, is_ascii_whitespace, lemma_first_index_of, spec_is_ascii_whitespace,
    split_chars, split_seq, string_from_chars, views,
};

verus! {

/// One `name = setting` line of a configuration file.
pub struct CFGLine {
    name: String,
    setting: String,
}

impl View for CFGLine {
    type V = (Seq<char>, Seq<char>);

    closed spec fn view(&self) -> (Seq<char>, Seq<char>) {
        (self.name@, self.setting@)
    }
}

impl CFGLine {
    /// A line with the given name and setting.
    pub fn new(name: String, setting: String) -> (r: Self)
        ensures
            r@ == (name@, setting@),
    {
        CFGLine { name, setting }
    }

    /// The name.
    pub fn get_name(&self) -> (r: &str)
        ensures
            r@ == self@.0,
    {
        self.name.as_str()
    }

    /// The setting.
    pub fn get_setting(&self) -> (r: &str)
        ensures
            r@ == self@.1,
    {
        self.setting.as_str()
    }

    /// The line as its debug form shows it:
    /// `Name: "<name>" | Setting: "<setting>"`.
    pub fn debug_text(&self) -> (r: String)
        ensures
            r@ == "Name: \""@ + self@.0 + "\" | Setting: \""@ + self@.1 + "\""@,
    {
        let mut text: String = String::from_str("Name: \"");
        push_str(&mut text, self.name.as_str());
        push_str(&mut text, "\" | Setting: \"");
        push_str(&mut text, self.setting.as_str());
        push_str(&mut text, "\"");
        text
    }
}

/// The characters of `s` that are neither ASCII white space nor `=`.
pub open spec fn cfg_keep(s: Seq<char>) -> Seq<char>
    decreases s.len(),
{
    if s.len() == 0 {
        s
    } else if spec_is_ascii_whitespace(s.last()) || s.last() == '=' {
        cfg_keep(s.drop_last())
    } else {
        cfg_keep(s.drop_last()).push(s.last())
    }
}

/// How one line is read: a line holding `=` gives the name (before the first
/// `=`) and the setting (after it), each without ASCII white space and without
/// further `=`; a line without `=` gives nothing.
pub open spec fn cfg_line_spec(line: Seq<char>) -> Option<(Seq<char>, Seq<char>)> {
    match first_index_of(line, '=') {
        Some(i) => Some((cfg_keep(line.take(i as int)), cfg_keep(line.skip(i as int + 1)))),
        None => None,
    }
}

/// The entries read from the lines `lines`, in order.
pub open spec fn cfg_lines_spec(lines: Seq<Seq<char>>) -> Seq<(Seq<char>, Seq<char>)>
    decreases lines.len(),
{
    if lines.len() == 0 {
        Seq::empty()
    } else {
        match cfg_line_spec(lines.last()) {
            Some(entry) => cfg_lines_spec(lines.drop_last()).push(entry),
            None => cfg_lines_spec(lines.drop_last()),
        }
    }
}

/// The entries of a configuration text: one per line (lines are separated by
/// `\n`) that holds `=`.
pub open spec fn cfg_text_spec(text: Seq<char>) -> Seq<(Seq<char>, Seq<char>)> {
    cfg_lines_spec(split_seq(text, '\n'))
}

/// The views of a sequence of configuration lines.
pub open spec fn cfg_views(v: Seq<CFGLine>) -> Seq<(Seq<char>, Seq<char>)> {
    v.map_values(|l: CFGLine| l@)
}

/// A configuration parser.
pub struct CFGParser;

impl CFGParser {
    /// A parser.
    pub fn new() -> Self {
        CFGParser
    }

    /// The entries of a configuration text.
    pub fn parse(&self, text: &str) -> (r: Vec<CFGLine>)
        ensures
            cfg_views(r@) == cfg_text_spec(text@),
    {
        let lines: Vec<String> = split_chars(text, '\n');
        let mut cfg_vec: Vec<CFGLine> = Vec::new();
        let mut i: usize = 0;
        while i < lines.len()
            invariant
                i <= lines@.len(),
                views(lines@) == split_seq(text@, '\n'),
                cfg_views(cfg_vec@) == cfg_lines_spec(views(lines@).take(i as int)),
            decreases lines@.len() - i,
        {
            proof {
                assert(views(lines@).take(i + 1).drop_last() =~= views(lines@).take(i as int));
                assert(views(lines@).take(i + 1).last() == lines@[i as int]@);
            }
            let parsed_line: Option<(String, String)> = self.parse_line(lines[i].as_str());
            if let Some((name, setting)) = parsed_line {
                let cfg_line: CFGLine = CFGLine::new(name, setting);
                cfg_vec.push(cfg_line);
                assert(cfg_views(cfg_vec@) =~= cfg_lines_spec(views(lines@).take(i as int)).push(
                    cfg_line@,
                ));
            }
            i = i + 1;
        }
        assert(views(lines@).take(lines@.len() as int) =~= views(lines@));
        cfg_vec
    }
}

impl CFGParser {
    fn parse_line(&self, line: &str) -> (r: Option<(String, String)>)
        ensures
            match cfg_line_spec(line@) {
                Some(entry) => r matches Some(p) && (p.0@, p.1@) == entry,
                None => r is None,
            },
    {
        let v: Vec<char> = chars_of(line);
        let mut name_vec: Vec<char> = Vec::new();
        let mut setting_vec: Vec<char> = Vec::new();
        let mut shift: bool = false;
        let mut eq_at: usize = 0;
        let mut i: usize = 0;
        while i < v.len()
            invariant
                i <= v@.len(),
                v@ == line@,
                !shift ==> forall|j: int| 0 <= j < i ==> #[trigger] v@[j] != '=',
                !shift ==> name_vec@ == cfg_keep(v@.take(i as int)),
                !shift ==> setting_vec@ == Seq::<char>::empty(),
                shift ==> eq_at < i && first_index_of(v@, '=') == Some(eq_at as nat),
                shift ==> name_vec@ == cfg_keep(v@.take(eq_at as int)),
                shift ==> setting_vec@ == cfg_keep(v@.subrange(eq_at + 1, i as int)),
            decreases v@.len() - i,
        {
            let c: char = v[i];
            proof {
                assert(v@.take(i + 1).drop_last() =~= v@.take(i as int));
                assert(v@.take(i + 1).last() == c);
                if shift {
                    assert(v@.subrange(eq_at + 1, i + 1).drop_last() =~= v@.subrange(eq_at + 1, i as int));
                }
            }
            if c == '=' {
                if !shift {
                    proof {
                        lemma_first_index_of(v@, '=', i as int);
                        assert(v@.take(i as int) =~= v@.take(i as int));
                        assert(v@.subrange(i + 1, i + 1) =~= Seq::<char>::empty());
                    }
                    eq_at = i;
                }
                shift = true;
            } else if !is_ascii_whitespace(c) {
                if shift {
                    setting_vec.push(c);
                } else {
                    name_vec.push(c);
                }
            }
            i = i + 1;
        }
        if shift {
            assert(v@.subrange(eq_at + 1, v@.len() as int) =~= v@.skip(eq_at + 1));
            let name: String = string_from_chars(&name_vec);
            let setting: String = string_from_chars(&setting_vec);
            return Some((name, setting));
        }
        proof {
            lemma_first_index_of(v@, '=', v@.len() as int);
        }
        None
    }
}

} // verus!
