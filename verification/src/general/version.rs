//! Semantic versions as they appear in Python release names and tool output
//! (`3.12.0`, `3.12.0b4`, `2.7.18+local`).
use vstd::prelude::*;

use crate::text::{
    byte_boundary, char_index_at_byte, char_index_of_byte, lemma_utf8_len_take_mono, lemma_utf8_len_take_step,
    char_is_numeric, char_len_utf8, char_utf8_len, chars_of, decimal, is_ascii_char, parse_usize, views,
    parse_usize_spec, push_char, push_str, push_usize, string_from_range, is_numeric_char, utf8_len,
    split_chars, split_seq, trim, trim_str, char_is_alphabetic, is_alphabetic_char, dotted_parts,
    dotted_version_spec, dotted_version_wrong_format, parse_int_error_message, all_digits,
    lemma_decimal, lemma_parse_decimal, lemma_split_single, lemma_split_append_piece,
    lemma_trim_unchanged, nonempty_pieces, is_ascii_digit,
};

verus! {

/// A pre-release tag such as `b4` or `rc1`: the first byte of its alphabetic
/// part and its number.
#[derive(Debug, Clone, Copy, PartialEq, Eq, Structural)]
pub struct PreRelease {
    pub release_type: u8,
    pub version: usize,
}

/// Index of the first numeric character of `s`, if any.
pub open spec fn first_numeric(s: Seq<char>) -> Option<nat>
    decreases s.len(),
{
    if s.len() == 0 {
        None
    } else if is_numeric_char(s[0]) {
        Some(0)
    } else {
        match first_numeric(s.drop_first()) {
            Some(k) => Some(k + 1),
            None => None,
        }
    }
}

/// The inputs on which `PreRelease::from_string` does not panic: when `s` has a
/// numeric character, its character index is non-zero and, read as a byte
/// offset, falls on a character boundary.
pub open spec fn pre_release_input_ok(s: Seq<char>) -> bool {
    s.len() > 0 ==> match first_numeric(s) {
        Some(k) => k > 0 && byte_boundary(s, k),
        None => true,
    }
}

/// What `PreRelease::from_string` returns: the string is split at the byte
/// offset given by the character index of its first numeric character; the
/// tag is the first byte of the string and the number is the decimal value of
/// the part after the split.
pub open spec fn pre_release_spec(s: Seq<char>) -> Option<PreRelease> {
    if s.len() == 0 {
        None
    } else {
        match first_numeric(s) {
            Some(k) => match parse_usize_spec(s.skip(char_index_of_byte(s, k))) {
                Some(v) => Some(
                    PreRelease { release_type: vstd::utf8::encode_utf8(s)[0], version: v },
                ),
                None => None,
            },
            None => None,
        }
    }
}

/// The text of a pre-release tag: its tag character followed by its number.
pub open spec fn pre_release_text(p: PreRelease) -> Seq<char> {
    seq![(p.release_type as u32) as char] + decimal(p.version as nat)
}

proof fn lemma_first_numeric(s: Seq<char>, i: int)
    requires
        0 <= i <= s.len(),
        forall|j: int| 0 <= j < i ==> !is_numeric_char(#[trigger] s[j]),
    ensures
        i < s.len() && is_numeric_char(s[i]) ==> first_numeric(s) == Some(i as nat),
        i == s.len() ==> first_numeric(s) is None,
    decreases i,
{
    if i > 0 {
        lemma_first_numeric(s.drop_first(), i - 1);
    } else if s.len() == 0 {
    }
}

/// The characters before position `k` are ASCII, so byte offset `k` is the
/// boundary after `k` characters.
pub proof fn lemma_ascii_prefix_boundary(s: Seq<char>, k: int)
    requires
        0 <= k <= s.len(),
        forall|i: int| 0 <= i < k ==> is_ascii_char(#[trigger] s[i]),
    ensures
        utf8_len(s.take(k)) == k,
        byte_boundary(s, k as nat),
        char_index_of_byte(s, k as nat) == k,
    decreases k,
{
    if k > 0 {
        lemma_ascii_prefix_boundary(s, k - 1);
        lemma_utf8_len_take_step(s, k);
    } else {
        assert(s.take(0) =~= Seq::<char>::empty());
    }
    assert(0 <= k <= s.len() && utf8_len(s.take(k)) == k);
    let j = char_index_of_byte(s, k as nat);
    if j < k {
        lemma_utf8_len_take_mono(s, j, k);
    } else if j > k {
        lemma_utf8_len_take_mono(s, k, j);
    }
}

impl PreRelease {
    /// Parses a pre-release tag such as `b4`; `None` when the string is empty,
    /// has no numeric character or its number does not parse.
    pub fn from_string(s: &str) -> (r: Option<Self>)
        requires
            pre_release_input_ok(s@),
        ensures
            r == pre_release_spec(s@),
    {
        if s.is_empty() {
            return None;
        }
        let split_idx: Option<usize> = Self::get_split_idx(s);
        if let Some(split_idx) = split_idx {
            let v = chars_of(s);
            let bytes = s.as_bytes();
            proof {
                assert(s@.len() > 0) by {
                    if s@.len() == 0 {
                        assert(vstd::utf8::encode_utf8(s@) =~= Seq::<u8>::empty());
                    }
                }
                assert(vstd::utf8::encode_utf8(s@).len() > 0);
            }
            let release_type: u8 = bytes[0];
            let j: usize = char_index_at_byte(&v, split_idx);
            let numeric: String = string_from_range(&v, j, v.len());
            assert(numeric@ == s@.skip(j as int));
            if let Ok(version) = parse_usize(numeric.as_str()) {
                return Some(PreRelease { release_type, version });
            }
        }
        None
    }

    /// The tag character followed by the number, as in `b4`.
    pub fn get_string(&self) -> (r: String)
        ensures
            r@ == pre_release_text(*self),
    {
        let character: char = self.release_type as char;
        let mut string: String = String::new();
        push_char(&mut string, character);
        push_usize(&mut string, self.version);
        assert(string@ =~= pre_release_text(*self));
        string
    }
}

impl PreRelease {
    fn get_split_idx(s: &str) -> (r: Option<usize>)
        ensures
            r matches Some(i) ==> first_numeric(s@) == Some(i as nat),
            r is None <==> first_numeric(s@) is None,
    {
        let v = chars_of(s);
        let mut idx: usize = 0;
        while idx < v.len()
            invariant
                idx <= v@.len(),
                v@ == s@,
                forall|j: int| 0 <= j < idx ==> !is_numeric_char(#[trigger] v@[j]),
            decreases v@.len() - idx,
        {
            if char_is_numeric(v[idx]) {
                proof {
                    lemma_first_numeric(s@, idx as int);
                }
                return Some(idx);
            }
            idx = idx + 1;
        }
        proof {
            lemma_first_numeric(s@, idx as int);
        }
        None
    }

}

} // verus!

verus! {

/// One of the characters `r`, `a`, `b`, `c` that open a pre-release tag.
pub open spec fn is_tag_char(c: char) -> bool {
    c == 'r' || c == 'a' || c == 'b' || c == 'c'
}

/// State of the pre-release tokenizer: finished pieces, the piece being
/// built, whether a release-candidate tag (`r`) was seen, and whether an
/// invalid character stopped it.
pub type PreSplitState = (Seq<Seq<char>>, Seq<char>, bool, bool);

/// One character of the pre-release tokenizer. `r` starts a new piece and
/// switches into release-candidate mode, where `a`, `b`, `c` extend the
/// piece; outside that mode `a`, `b`, `c` start a new piece (and are dropped
/// when nothing precedes them); digits extend the piece; anything else
/// empties the result and stops.
pub open spec fn pre_split_step(st: PreSplitState, ch: char) -> PreSplitState {
    if st.3 {
        st
    } else if ch == 'r' {
        (st.0.push(st.1), seq!['r'], true, false)
    } else if ch == 'a' || ch == 'b' || ch == 'c' {
        if st.2 {
            (st.0, st.1.push(ch), st.2, false)
        } else if st.1.len() > 0 {
            (st.0.push(st.1), seq![ch], st.2, false)
        } else {
            st
        }
    } else if !is_numeric_char(ch) {
        (Seq::empty(), Seq::empty(), st.2, true)
    } else {
        (st.0, st.1.push(ch), st.2, false)
    }
}

/// The tokenizer state after reading all of `s`.
pub open spec fn pre_split_fold(s: Seq<char>) -> PreSplitState
    decreases s.len(),
{
    if s.len() == 0 {
        (Seq::empty(), Seq::empty(), false, false)
    } else {
        pre_split_step(pre_split_fold(s.drop_last()), s.last())
    }
}

/// The pieces of a patch component with a pre-release tag, e.g. `0b4` gives
/// `["0", "b4"]`; empty when the component holds a character that is
/// neither numeric nor a tag character.
pub open spec fn pre_release_split(s: Seq<char>) -> Seq<Seq<char>> {
    let st = pre_split_fold(s);
    if st.1.len() > 0 {
        st.0.push(st.1)
    } else {
        st.0
    }
}

/// State of the qualifier tokenizer: finished pieces and the piece being built.
pub type QualSplitState = (Seq<Seq<char>>, Seq<char>);

/// One character of the qualifier tokenizer: `+` and `.` start a new piece
/// (and are dropped when nothing precedes them); other characters extend it.
pub open spec fn qual_split_step(st: QualSplitState, ch: char) -> QualSplitState {
    if ch == '+' || ch == '.' {
        if st.1.len() > 0 {
            (st.0.push(st.1), seq![ch])
        } else {
            st
        }
    } else {
        (st.0, st.1.push(ch))
    }
}

/// The qualifier tokenizer state after reading all of `s`.
pub open spec fn qual_split_fold(s: Seq<char>) -> QualSplitState
    decreases s.len(),
{
    if s.len() == 0 {
        (Seq::empty(), Seq::empty())
    } else {
        qual_split_step(qual_split_fold(s.drop_last()), s.last())
    }
}

/// The pieces of a patch component with a local qualifier, e.g. `0+local`
/// gives `["0", "+local"]`.
pub open spec fn qualifier_split(s: Seq<char>) -> Seq<Seq<char>> {
    let st = qual_split_fold(s);
    if st.1.len() > 0 {
        st.0.push(st.1)
    } else {
        st.0
    }
}

/// A piece that `pre_release_split` produces after its first: a tag character
/// followed by tag characters and numeric characters.
pub open spec fn pre_token_ok(t: Seq<char>) -> bool {
    &&& t.len() > 0
    &&& is_tag_char(t[0])
    &&& forall|i: int| 0 <= i < t.len() ==> is_tag_char(#[trigger] t[i]) || is_numeric_char(t[i])
}

/// The invariant of the pre-release tokenizer.
pub open spec fn pre_state_ok(st: PreSplitState) -> bool {
    &&& forall|i: int| 1 <= i < st.0.len() ==> pre_token_ok(#[trigger] st.0[i])
    &&& st.0.len() > 0 ==> pre_token_ok(st.1)
    &&& forall|i: int| 0 <= i < st.1.len() ==> is_tag_char(#[trigger] st.1[i]) || is_numeric_char(st.1[i])
}

proof fn lemma_pre_split_fold_ok(s: Seq<char>)
    ensures
        pre_state_ok(pre_split_fold(s)),
    decreases s.len(),
{
    if s.len() > 0 {
        lemma_pre_split_fold_ok(s.drop_last());
        let st = pre_split_fold(s.drop_last());
        let ch = s.last();
        let nx = pre_split_step(st, ch);
        if !st.3 {
            if ch == 'r' {
                assert(nx.0 == st.0.push(st.1));
                assert forall|i: int| 1 <= i < nx.0.len() implies pre_token_ok(#[trigger] nx.0[i]) by {
                    if i < st.0.len() {
                        assert(nx.0[i] == st.0[i]);
                    } else {
                        assert(nx.0[i] == st.1);
                    }
                }
            } else if ch == 'a' || ch == 'b' || ch == 'c' {
                if !st.2 && st.1.len() > 0 {
                    assert forall|i: int| 1 <= i < nx.0.len() implies pre_token_ok(#[trigger] nx.0[i]) by {
                        if i < st.0.len() {
                            assert(nx.0[i] == st.0[i]);
                        } else {
                            assert(nx.0[i] == st.1);
                            assert(st.1[0] == st.1[0]);
                            if st.0.len() == 0 {
                                assert(false);
                            }
                        }
                    }
                } else if st.2 {
                    assert forall|i: int| 0 <= i < nx.1.len() implies is_tag_char(#[trigger] nx.1[i]) || is_numeric_char(nx.1[i]) by {
                        if i < st.1.len() {
                            assert(nx.1[i] == st.1[i]);
                        }
                    }
                    if st.0.len() > 0 {
                        assert(nx.1[0] == st.1[0]);
                    }
                }
            } else if is_numeric_char(ch) {
                assert forall|i: int| 0 <= i < nx.1.len() implies is_tag_char(#[trigger] nx.1[i]) || is_numeric_char(nx.1[i]) by {
                    if i < st.1.len() {
                        assert(nx.1[i] == st.1[i]);
                    }
                }
                if st.0.len() > 0 {
                    assert(nx.1[0] == st.1[0]);
                }
            }
        }
    }
}

/// A tag piece satisfies what `PreRelease::from_string` requires.
proof fn lemma_pre_token_input_ok(t: Seq<char>)
    requires
        pre_token_ok(t),
    ensures
        pre_release_input_ok(t),
{
    match first_numeric(t) {
        Some(k) => {
            lemma_first_numeric_props(t);
            assert forall|i: int| 0 <= i < k implies is_ascii_char(#[trigger] t[i]) by {
                assert(is_tag_char(t[i]) || is_numeric_char(t[i]));
            }
            lemma_ascii_prefix_boundary(t, k as int);
        },
        None => {},
    }
}

/// `first_numeric` names a numeric character preceded by non-numeric ones.
pub proof fn lemma_first_numeric_props(s: Seq<char>)
    ensures
        first_numeric(s) matches Some(k) ==> k < s.len() && is_numeric_char(s[k as int]) && forall|
            j: int,
        | 0 <= j < k ==> !is_numeric_char(#[trigger] s[j]),
        first_numeric(s) is None ==> forall|j: int| 0 <= j < s.len() ==> !is_numeric_char(#[trigger] s[j]),
    decreases s.len(),
{
    if s.len() > 0 {
        lemma_first_numeric_props(s.drop_first());
        if !is_numeric_char(s[0]) {
            assert forall|j: int| 0 < j < s.len() implies s[j] == s.drop_first()[j - 1] by {}
        }
    }
}

/// Every piece after the first of a pre-release split satisfies what
/// `PreRelease::from_string` requires.
pub proof fn lemma_pre_release_split_ok(s: Seq<char>)
    ensures
        forall|i: int| 1 <= i < pre_release_split(s).len() ==> pre_release_input_ok(#[trigger] pre_release_split(s)[i]),
{
    lemma_pre_split_fold_ok(s);
    let st = pre_split_fold(s);
    let ps = pre_release_split(s);
    assert forall|i: int| 1 <= i < ps.len() implies pre_release_input_ok(#[trigger] ps[i]) by {
        if i < st.0.len() {
            assert(ps[i] == st.0[i]);
            lemma_pre_token_input_ok(st.0[i]);
        } else {
            assert(ps[i] == st.1);
            lemma_pre_token_input_ok(st.1);
        }
    }
}

} // verus!

verus! {

/// A semantic version: major, minor and patch numbers, a free-form qualifier
/// and an optional pre-release tag.
#[derive(Debug, Clone)]
pub struct SemanticVersion {
    pub major: usize,
    pub minor: usize,
    pub patch: usize,
    pub qualifier: String,
    pub pre_release: Option<PreRelease>,
}

impl SemanticVersion {
    fn get_pre_release_split(string: &str) -> (r: Vec<String>)
        ensures
            views(r@) == pre_release_split(string@),
    {
        let v = chars_of(string);
        let mut parts: Vec<String> = Vec::new();
        let mut temp: String = String::new();
        let mut release_tag: bool = false;
        let mut stopped: bool = false;
        let mut i: usize = 0;
        while i < v.len()
            invariant
                i <= v@.len(),
                v@ == string@,
                (views(parts@), temp@, release_tag, stopped) == pre_split_fold(v@.take(i as int)),
            decreases v@.len() - i,
        {
            let ch = v[i];
            let ghost st = (views(parts@), temp@, release_tag, stopped);
            proof {
                assert(v@.take(i + 1).drop_last() =~= v@.take(i as int));
                assert(v@.take(i + 1).last() == ch);
            }
            if stopped {
            } else if ch == 'r' {
                release_tag = true;
                let done = temp;
                parts.push(done);
                temp = String::new();
                push_char(&mut temp, 'r');
                assert(views(parts@) =~= st.0.push(st.1));
                assert(temp@ =~= seq!['r']);
            } else if ch == 'a' || ch == 'b' || ch == 'c' {
                if release_tag {
                    push_char(&mut temp, ch);
                } else if !temp.as_str().is_empty() {
                    let done = temp;
                    parts.push(done);
                    temp = String::new();
                    push_char(&mut temp, ch);
                    assert(views(parts@) =~= st.0.push(st.1));
                    assert(temp@ =~= seq![ch]);
                }
            } else if !char_is_numeric(ch) {
                parts = Vec::new();
                temp = String::new();
                stopped = true;
                assert(views(parts@) =~= Seq::<Seq<char>>::empty());
            } else {
                push_char(&mut temp, ch);
            }
            i = i + 1;
        }
        assert(v@.take(v@.len() as int) =~= v@);
        if !temp.as_str().is_empty() {
            parts.push(temp);
        }
        assert(views(parts@) =~= pre_release_split(string@));
        parts
    }

    fn get_qualifier_split(string: &str) -> (r: Vec<String>)
        ensures
            views(r@) == qualifier_split(string@),
    {
        let v = chars_of(string);
        let mut parts: Vec<String> = Vec::new();
        let mut temp: String = String::new();
        let mut i: usize = 0;
        while i < v.len()
            invariant
                i <= v@.len(),
                v@ == string@,
                (views(parts@), temp@) == qual_split_fold(v@.take(i as int)),
            decreases v@.len() - i,
        {
            let ch = v[i];
            let ghost st = (views(parts@), temp@);
            proof {
                assert(v@.take(i + 1).drop_last() =~= v@.take(i as int));
                assert(v@.take(i + 1).last() == ch);
            }
            if ch == '+' || ch == '.' {
                if !temp.as_str().is_empty() {
                    let done = temp;
                    parts.push(done);
                    temp = String::new();
                    push_char(&mut temp, ch);
                    assert(views(parts@) =~= st.0.push(st.1));
                    assert(temp@ =~= seq![ch]);
                }
            } else {
                push_char(&mut temp, ch);
            }
            i = i + 1;
        }
        assert(v@.take(v@.len() as int) =~= v@);
        if !temp.as_str().is_empty() {
            parts.push(temp);
        }
        assert(views(parts@) =~= qualifier_split(string@));
        parts
    }
}

} // verus!

verus! {

/// State of `SemanticVersion::from_string` while it reads the dot-separated
/// parts: major, minor, patch, pre-release text and qualifier.
pub type VersionParseState = (Option<usize>, Option<usize>, usize, Seq<char>, Seq<char>);

/// How `SemanticVersion::from_string` reads the part at position `idx`. The
/// first three parts are numbers; when the third is not, a pre-release split
/// and then a qualifier split are tried on it. Later parts are appended to the
/// qualifier.
pub open spec fn version_part_step(st: VersionParseState, idx: int, raw: Seq<char>) -> VersionParseState {
    let part = trim(raw);
    if idx <= 2 {
        let n0 = parse_usize_spec(trim(part));
        let ps = pre_release_split(part);
        let use_ps = n0 is None && idx == 2 && ps.len() == 2;
        let n1 = if use_ps {
            parse_usize_spec(trim(ps[0]))
        } else {
            n0
        };
        let pre = if use_ps {
            ps[1]
        } else {
            st.3
        };
        let qs = qualifier_split(part);
        let use_qs = n1 is None && idx == 2 && qs.len() == 2;
        let n2 = if use_qs {
            parse_usize_spec(trim(qs[0]))
        } else {
            n1
        };
        let qual = if use_qs {
            qs[1]
        } else {
            st.4
        };
        match n2 {
            Some(n) => if idx == 0 {
                (Some(n), st.1, st.2, pre, qual)
            } else if idx == 1 {
                (st.0, Some(n), st.2, pre, qual)
            } else {
                (st.0, st.1, n, pre, qual)
            },
            None => (st.0, st.1, st.2, pre, qual),
        }
    } else {
        (st.0, st.1, st.2, st.3, st.4 + part)
    }
}

/// The parse state after reading all of `parts`.
pub open spec fn version_fold(parts: Seq<Seq<char>>) -> VersionParseState
    decreases parts.len(),
{
    if parts.len() == 0 {
        (None, None, 0, Seq::empty(), Seq::empty())
    } else {
        version_part_step(version_fold(parts.drop_last()), parts.len() - 1, parts.last())
    }
}

/// What `SemanticVersion::from_string` returns, as major, minor, patch,
/// qualifier and pre-release: present when the major and minor parts are
/// numbers.
pub open spec fn semantic_version_spec(s: Seq<char>) -> Option<
    (usize, usize, usize, Seq<char>, Option<PreRelease>),
> {
    let st = version_fold(split_seq(s, '.'));
    match (st.0, st.1) {
        (Some(major), Some(minor)) => Some((major, minor, st.2, st.4, pre_release_spec(st.3))),
        _ => None,
    }
}

proof fn lemma_version_fold_pre_ok(parts: Seq<Seq<char>>)
    ensures
        pre_release_input_ok(version_fold(parts).3),
    decreases parts.len(),
{
    if parts.len() > 0 {
        lemma_version_fold_pre_ok(parts.drop_last());
        let part = trim(parts.last());
        lemma_pre_release_split_ok(part);
        if pre_release_split(part).len() == 2 {
            assert(pre_release_input_ok(pre_release_split(part)[1]));
        }
    }
}

/// The qualifier as `get_string` writes it: a `.` is put in front of a
/// qualifier that starts with an alphanumeric character.
pub open spec fn qualifier_text(q: Seq<char>) -> Seq<char> {
    if q.len() == 0 {
        Seq::empty()
    } else if q[0] != '.' && (is_alphabetic_char(q[0]) || is_numeric_char(q[0])) {
        seq!['.'] + q
    } else {
        q
    }
}

/// `major.minor.patch` in decimal.
pub open spec fn three_part_text(major: usize, minor: usize, patch: usize) -> Seq<char> {
    decimal(major as nat) + seq!['.'] + decimal(minor as nat) + seq!['.'] + decimal(patch as nat)
}

/// `major.minor` in decimal.
pub open spec fn two_part_text(major: usize, minor: usize) -> Seq<char> {
    decimal(major as nat) + seq!['.'] + decimal(minor as nat)
}

/// The full text of a version: `major.minor.patch`, then the pre-release tag,
/// then the qualifier.
pub open spec fn version_text(v: SemanticVersion) -> Seq<char> {
    three_part_text(v.major, v.minor, v.patch) + match v.pre_release {
        Some(p) => pre_release_text(p),
        None => Seq::empty(),
    } + qualifier_text(v.qualifier@)
}

impl SemanticVersion {
    /// A version from its parts; a missing qualifier is the empty string.
    pub fn new(
        major: usize,
        minor: usize,
        patch: usize,
        qualifier: Option<String>,
        pre_release: Option<PreRelease>,
    ) -> (r: Self)
        ensures
            r.major == major,
            r.minor == minor,
            r.patch == patch,
            r.qualifier@ == match qualifier {
                Some(q) => q@,
                None => Seq::<char>::empty(),
            },
            r.pre_release == pre_release,
    {
        let qualifier: String = match qualifier {
            Some(q) => q,
            None => String::new(),
        };
        SemanticVersion { major, minor, patch, qualifier, pre_release }
    }

    /// A version with no qualifier and no pre-release tag.
    pub fn new_3p(major: usize, minor: usize, patch: usize) -> (r: Self)
        ensures
            r.major == major,
            r.minor == minor,
            r.patch == patch,
            r.qualifier@ == Seq::<char>::empty(),
            r.pre_release is None,
    {
        SemanticVersion { major, minor, patch, qualifier: String::new(), pre_release: None }
    }

    /// Parses a dotted version such as `3.12.0`, `3.12.0b4` or `3.9.1+local`.
    /// `None` unless the first two parts are numbers; a missing or unreadable
    /// patch is 0.
    pub fn from_string(string: &str) -> (r: Option<Self>)
        ensures
            match semantic_version_spec(string@) {
                Some(t) => r matches Some(v) && t == (
                    v.major,
                    v.minor,
                    v.patch,
                    v.qualifier@,
                    v.pre_release,
                ),
                None => r is None,
            },
    {
        let parts: Vec<String> = split_chars(string, '.');
        let mut major: Option<usize> = None;
        let mut minor: Option<usize> = None;
        let mut patch: usize = 0;
        let mut pre_release_str: String = String::new();
        let mut qualifier: String = String::new();
        let mut idx: usize = 0;
        while idx < parts.len()
            invariant
                idx <= parts@.len(),
                views(parts@) == split_seq(string@, '.'),
                (major, minor, patch, pre_release_str@, qualifier@) == version_fold(
                    views(parts@).take(idx as int),
                ),
            decreases parts@.len() - idx,
        {
            let ghost st = (major, minor, patch, pre_release_str@, qualifier@);
            let ghost raw = parts@[idx as int]@;
            proof {
                assert(views(parts@).take(idx + 1).drop_last() =~= views(parts@).take(idx as int));
                assert(views(parts@).take(idx + 1).last() == raw);
            }
            let part: String = trim_str(parts[idx].as_str());
            if idx <= 2 {
                let inner: String = trim_str(part.as_str());
                let mut numeric: Option<usize> = match parse_usize(inner.as_str()) {
                    Ok(n) => Some(n),
                    Err(_) => None,
                };
                if numeric.is_none() && idx == 2 {
                    let split: Vec<String> = Self::get_pre_release_split(part.as_str());
                    if split.len() == 2 {
                        let first: String = trim_str(split[0].as_str());
                        numeric = match parse_usize(first.as_str()) {
                            Ok(n) => Some(n),
                            Err(_) => None,
                        };
                        pre_release_str = split[1].clone();
                    }
                }
                if numeric.is_none() && idx == 2 {
                    let split: Vec<String> = Self::get_qualifier_split(part.as_str());
                    if split.len() == 2 {
                        let first: String = trim_str(split[0].as_str());
                        numeric = match parse_usize(first.as_str()) {
                            Ok(n) => Some(n),
                            Err(_) => None,
                        };
                        qualifier = split[1].clone();
                    }
                }
                if let Some(numeric) = numeric {
                    if idx == 0 {
                        major = Some(numeric);
                    } else if idx == 1 {
                        minor = Some(numeric);
                    } else {
                        patch = numeric;
                    }
                }
            } else {
                push_str(&mut qualifier, part.as_str());
            }
            idx = idx + 1;
        }
        proof {
            assert(views(parts@).take(parts@.len() as int) =~= views(parts@));
            lemma_version_fold_pre_ok(views(parts@));
        }
        let pre_release: Option<PreRelease> = PreRelease::from_string(pre_release_str.as_str());
        match (major, minor) {
            (Some(major), Some(minor)) => Some(
                SemanticVersion { major, minor, patch, pre_release, qualifier },
            ),
            _ => None,
        }
    }

    /// `(major, minor)`.
    pub fn get_2p_version(&self) -> (r: (usize, usize))
        ensures
            r == (self.major, self.minor),
    {
        (self.major, self.minor)
    }

    /// `(major, minor, patch)`.
    pub fn get_3p_version(&self) -> (r: (usize, usize, usize))
        ensures
            r == (self.major, self.minor, self.patch),
    {
        (self.major, self.minor, self.patch)
    }

    /// `(major, minor, patch, qualifier)`.
    pub fn get_4p_version(&self) -> (r: (usize, usize, usize, &str))
        ensures
            r.0 == self.major,
            r.1 == self.minor,
            r.2 == self.patch,
            r.3@ == self.qualifier@,
    {
        (self.major, self.minor, self.patch, self.qualifier.as_str())
    }

    /// The full version text, e.g. `3.12.0b4` or `2.7.18.local`.
    pub fn get_string(&self) -> (r: String)
        ensures
            r@ == version_text(*self),
    {
        let mut version: String = self.get_3p_string();
        let ghost base = version@;
        if let Some(pre_release) = &self.pre_release {
            let text: String = pre_release.get_string();
            push_str(&mut version, text.as_str());
        }
        let ghost with_pre = version@;
        let q: Vec<char> = chars_of(self.qualifier.as_str());
        if q.len() > 0 {
            let fch: char = q[0];
            if fch != '.' && (char_is_alphabetic(fch) || char_is_numeric(fch)) {
                push_char(&mut version, '.');
            }
            push_str(&mut version, self.qualifier.as_str());
        }
        proof {
            let pre = match self.pre_release {
                Some(p) => pre_release_text(p),
                None => Seq::empty(),
            };
            assert(with_pre =~= base + pre);
            assert(version@ =~= base + pre + qualifier_text(self.qualifier@));
        }
        version
    }

    /// `major.minor`.
    pub fn get_2p_string(&self) -> (r: String)
        ensures
            r@ == two_part_text(self.major, self.minor),
    {
        let mut version: String = String::new();
        push_usize(&mut version, self.major);
        push_char(&mut version, '.');
        push_usize(&mut version, self.minor);
        assert(version@ =~= two_part_text(self.major, self.minor));
        version
    }

    /// `major.minor.patch`.
    pub fn get_3p_string(&self) -> (r: String)
        ensures
            r@ == three_part_text(self.major, self.minor, self.patch),
    {
        let mut version: String = String::new();
        push_usize(&mut version, self.major);
        push_char(&mut version, '.');
        push_usize(&mut version, self.minor);
        push_char(&mut version, '.');
        push_usize(&mut version, self.patch);
        assert(version@ =~= three_part_text(self.major, self.minor, self.patch));
        version
    }

    /// Sets the major number.
    pub fn set_major(&mut self, major: usize)
        ensures
            *final(self) == (SemanticVersion { major, ..*old(self) }),
    {
        self.major = major;
    }

    /// Sets the minor number.
    pub fn set_minor(&mut self, minor: usize)
        ensures
            *final(self) == (SemanticVersion { minor, ..*old(self) }),
    {
        self.minor = minor;
    }

    /// Sets the patch number.
    pub fn set_patch(&mut self, patch: usize)
        ensures
            *final(self) == (SemanticVersion { patch, ..*old(self) }),
    {
        self.patch = patch;
    }

    /// A copy of the version.
    pub fn duplicate(&self) -> (r: Self)
        ensures
            r.major == self.major,
            r.minor == self.minor,
            r.patch == self.patch,
            r.qualifier@ == self.qualifier@,
            r.pre_release == self.pre_release,
    {
        SemanticVersion {
            major: self.major,
            minor: self.minor,
            patch: self.patch,
            qualifier: self.qualifier.clone(),
            pre_release: self.pre_release,
        }
    }

    /// The major number.
    pub fn get_major(&self) -> (r: usize)
        ensures
            r == self.major,
    {
        self.major
    }

    /// The minor number.
    pub fn get_minor(&self) -> (r: usize)
        ensures
            r == self.minor,
    {
        self.minor
    }

    /// The patch number.
    pub fn get_patch(&self) -> (r: usize)
        ensures
            r == self.patch,
    {
        self.patch
    }

    /// The pre-release tag.
    pub fn get_pre_release(&self) -> (r: &Option<PreRelease>)
        ensures
            *r == self.pre_release,
    {
        &self.pre_release
    }
}

} // verus!

verus! {

/// Why `SemanticVersion::from_str` rejected its input.
#[derive(Debug)]
pub enum ParseVersionError {
    WrongFormat,
    ParseError(std::num::ParseIntError),
}

impl ParseVersionError {
    /// The message of the error: a format hint, or the message of the number
    /// that failed to parse.
    pub fn describe(&self) -> (r: String)
        ensures
            self is WrongFormat ==> r@ == "expected a version in this format => x.y"@,
    {
        match self {
            ParseVersionError::WrongFormat => String::from_str("expected a version in this format => x.y"),
            ParseVersionError::ParseError(e) => parse_int_error_message(e),
        }
    }
}

impl SemanticVersion {
    /// Parses `major.minor[.patch]` (surrounding white space and empty pieces
    /// are ignored) into a version with no qualifier and no pre-release tag.
    pub fn from_str(s: &str) -> (r: Result<Self, ParseVersionError>)
        ensures
            match dotted_version_spec(s@) {
                Some(t) => r matches Ok(v) && t == (v.major, v.minor, v.patch) && v.qualifier@
                    == Seq::<char>::empty() && v.pre_release is None,
                None => if dotted_version_wrong_format(s@) {
                    r matches Err(ParseVersionError::WrongFormat)
                } else {
                    r matches Err(ParseVersionError::ParseError(_))
                },
            },
    {
        let parts: Vec<String> = dotted_parts(s);
        if parts.len() < 1 {
            return Err(ParseVersionError::WrongFormat);
        }
        let major: usize = match parse_usize(parts[0].as_str()) {
            Ok(n) => n,
            Err(e) => return Err(ParseVersionError::ParseError(e)),
        };
        if parts.len() < 2 {
            return Err(ParseVersionError::WrongFormat);
        }
        let minor: usize = match parse_usize(parts[1].as_str()) {
            Ok(n) => n,
            Err(e) => return Err(ParseVersionError::ParseError(e)),
        };
        let patch: usize = if parts.len() < 3 {
            0
        } else {
            match parse_usize(parts[2].as_str()) {
                Ok(n) => n,
                Err(e) => return Err(ParseVersionError::ParseError(e)),
            }
        };
        Ok(SemanticVersion::new(major, minor, patch, None, None))
    }
}

impl std::str::FromStr for SemanticVersion {
    type Err = ParseVersionError;

    fn from_str(s: &str) -> Result<Self, Self::Err> {
        SemanticVersion::from_str(s)
    }
}

} // verus!

verus! {

proof fn lemma_decimal_text(n: usize)
    ensures
        all_digits(decimal(n as nat)),
        forall|i: int| 0 <= i < decimal(n as nat).len() ==> #[trigger] decimal(n as nat)[i] != '.',
        trim(decimal(n as nat)) == decimal(n as nat),
        parse_usize_spec(decimal(n as nat)) == Some(n),
{
    lemma_decimal(n as nat);
    lemma_parse_decimal(n);
    let d = decimal(n as nat);
    assert(is_ascii_digit(d[0]) && is_ascii_digit(d.last()));
    lemma_trim_unchanged(d);
}

proof fn lemma_split_three_part_text(a: usize, b: usize, c: usize)
    ensures
        split_seq(three_part_text(a, b, c), '.') == seq![
            decimal(a as nat),
            decimal(b as nat),
            decimal(c as nat),
        ],
{
    lemma_decimal_text(a);
    lemma_decimal_text(b);
    lemma_decimal_text(c);
    let (da, db, dc) = (decimal(a as nat), decimal(b as nat), decimal(c as nat));
    lemma_split_single(da, '.');
    lemma_split_append_piece(da, db, '.');
    lemma_split_append_piece(da + seq!['.'] + db, dc, '.');
    assert(seq![da].push(db).push(dc) =~= seq![da, db, dc]);
}

/// Reading ASCII digits extends the piece being built.
proof fn lemma_pre_split_digits(prefix: Seq<char>, d: Seq<char>)
    requires
        forall|i: int| 0 <= i < d.len() ==> is_ascii_digit(#[trigger] d[i]),
        !pre_split_fold(prefix).3,
    ensures
        pre_split_fold(prefix + d) == (
            pre_split_fold(prefix).0,
            pre_split_fold(prefix).1 + d,
            pre_split_fold(prefix).2,
            false,
        ),
    decreases d.len(),
{
    let st = pre_split_fold(prefix);
    if d.len() == 0 {
        assert(prefix + d =~= prefix);
        assert(st.1 + d =~= st.1);
    } else {
        lemma_pre_split_digits(prefix, d.drop_last());
        assert((prefix + d).drop_last() =~= prefix + d.drop_last());
        assert((prefix + d).last() == d.last());
        assert(is_ascii_digit(d.last()));
        assert(is_numeric_char(d.last()));
        assert((st.1 + d.drop_last()).push(d.last()) =~= st.1 + d);
    }
}

/// The patch part of a tagged version, `<patch><tag><n>`: no `.` in it, no
/// white space around it, not a number, and split by the pre-release
/// tokenizer into the patch and the tag.
proof fn lemma_tagged_patch_part(patch: usize, tag: char, n: usize)
    requires
        tag == 'a' || tag == 'b',
    ensures
        ({
            let last = decimal(patch as nat) + (seq![tag] + decimal(n as nat));
            &&& forall|i: int| 0 <= i < last.len() ==> #[trigger] last[i] != '.'
            &&& trim(last) == last
            &&& parse_usize_spec(last) is None
            &&& pre_release_split(last) == seq![decimal(patch as nat), seq![tag] + decimal(n as nat)]
        }),
{
    lemma_decimal_text(patch);
    lemma_decimal_text(n);
    let (dc, dn) = (decimal(patch as nat), decimal(n as nat));
    let tail = seq![tag] + dn;
    let last = dc + tail;
    assert forall|i: int| 0 <= i < last.len() implies #[trigger] last[i] != '.' by {
        if i < dc.len() {
            assert(last[i] == dc[i]);
        } else if i > dc.len() {
            assert(last[i] == dn[i - dc.len() - 1]);
        }
    }
    assert(last[0] == dc[0]);
    assert(last.last() == dn.last());
    lemma_trim_unchanged(last);
    assert(last[dc.len() as int] == tag);
    assert(!all_digits(last));
    assert(last[0] != '+');
    lemma_pre_split_digits(Seq::<char>::empty(), dc);
    assert(Seq::<char>::empty() + dc =~= dc);
    let dct = dc.push(tag);
    assert(dct.drop_last() =~= dc);
    assert(Seq::<Seq<char>>::empty().push(dc) =~= seq![dc]);
    assert(pre_split_fold(dct) == (seq![dc], seq![tag], false, false));
    lemma_pre_split_digits(dct, dn);
    assert(dct + dn =~= last);
    assert(seq![tag] + dn =~= tail);
    assert(pre_release_split(last) =~= seq![dc, tail]);
}

/// Law: the text `major.minor.patch` followed by a pre-release tag `a<n>` or
/// `b<n>` is read back as those numbers and that tag, with no qualifier, and
/// the version prints back as the same text. (`rc<n>` tags print as `r<n>`,
/// and several qualifier pieces are glued together, so the law leaves those
/// out.)
#[verifier::rlimit(40)]
pub proof fn law_tagged_version_reads_back(major: usize, minor: usize, patch: usize, tag: char, n: usize)
    requires
        tag == 'a' || tag == 'b',
    ensures
        semantic_version_spec(three_part_text(major, minor, patch) + seq![tag] + decimal(n as nat))
            == Some(
            (
                major,
                minor,
                patch,
                Seq::<char>::empty(),
                Some(PreRelease { release_type: (tag as u32) as u8, version: n }),
            ),
        ),
        three_part_text(major, minor, patch) + pre_release_text(
            PreRelease { release_type: (tag as u32) as u8, version: n },
        ) + qualifier_text(Seq::<char>::empty()) == three_part_text(major, minor, patch) + seq![tag]
            + decimal(n as nat),
{
    lemma_decimal_text(major);
    lemma_decimal_text(minor);
    lemma_decimal_text(patch);
    law_pre_release_reads_back(tag, n);
    lemma_tagged_patch_part(patch, tag, n);
    let (da, db, dc, dn) = (decimal(major as nat), decimal(minor as nat), decimal(patch as nat), decimal(n as nat));
    let tail = seq![tag] + dn;
    let last = dc + tail;
    let text = three_part_text(major, minor, patch) + seq![tag] + dn;
    assert(text =~= da + seq!['.'] + db + seq!['.'] + last);
    lemma_split_single(da, '.');
    lemma_split_append_piece(da, db, '.');
    lemma_split_append_piece(da + seq!['.'] + db, last, '.');
    let parts = split_seq(text, '.');
    assert(seq![da].push(db).push(last) =~= seq![da, db, last]);
    assert(parts == seq![da, db, last]);
    assert(parts.take(2).drop_last() =~= parts.take(1));
    assert(parts.take(1).drop_last() =~= parts.take(0));
    assert(parts.take(3) =~= parts);
    assert(parts.take(3).drop_last() =~= parts.take(2));
    assert(parts.take(1).last() == da);
    assert(parts.take(2).last() == db);
    let s0 = version_fold(parts.take(0));
    assert(parts.take(0).len() == 0);
    assert(s0 == (None::<usize>, None::<usize>, 0usize, Seq::<char>::empty(), Seq::<char>::empty()));
    let s1 = version_fold(parts.take(1));
    assert(s1 == version_part_step(s0, 0, da));
    assert(version_part_step(s0, 0, da) == (Some(major), None::<usize>, 0usize, Seq::<char>::empty(), Seq::<char>::empty()));
    let s2 = version_fold(parts.take(2));
    assert(s2 == version_part_step(s1, 1, db));
    assert(s2 == (Some(major), Some(minor), 0usize, Seq::<char>::empty(), Seq::<char>::empty()));
    assert(version_fold(parts) == version_part_step(s2, 2, last));
    assert(version_part_step(s2, 2, last) == (Some(major), Some(minor), patch, tail, Seq::<char>::empty()));
    assert(qualifier_text(Seq::<char>::empty()) =~= Seq::<char>::empty());
    assert(three_part_text(major, minor, patch) + tail + Seq::<char>::empty() =~= text);
}

/// A pre-release tag `a<n>` or `b<n>` is read back as that tag and number,
/// and prints as the same text. (A tag `rc<n>` keeps only its first byte, so
/// it prints as `r<n>`: the law leaves it out.)
pub proof fn law_pre_release_reads_back(tag: char, n: usize)
    requires
        tag == 'a' || tag == 'b',
    ensures
        pre_release_spec(seq![tag] + decimal(n as nat)) == Some(
            PreRelease { release_type: (tag as u32) as u8, version: n },
        ),
        pre_release_text(PreRelease { release_type: (tag as u32) as u8, version: n }) == seq![tag]
            + decimal(n as nat),
{
    let s = seq![tag] + decimal(n as nat);
    lemma_decimal(n as nat);
    lemma_parse_decimal(n);
    assert(is_ascii_digit(decimal(n as nat)[0]));
    assert(s[1] == decimal(n as nat)[0]);
    assert(!is_numeric_char(s[0]));
    assert(is_numeric_char(s[1]));
    lemma_first_numeric(s, 1);
    assert(is_ascii_char(s[0]));
    lemma_ascii_prefix_boundary(s, 1);
    assert(s.skip(1) =~= decimal(n as nat));
    assert(s.drop_first() =~= decimal(n as nat));
    let c = tag as u32;
    if tag == 'a' {
        assert(c == 97);
        assert(((97u32 & 0x7Fu32) as u8) == 97u8) by (bit_vector);
    } else {
        assert(c == 98);
        assert(((98u32 & 0x7Fu32) as u8) == 98u8) by (bit_vector);
    }
    assert(vstd::utf8::encode_utf8(s)[0] == (c as u8));
    assert(((c as u8) as u32) as char == tag);
}

/// Law: the text `major.minor.patch` that `get_3p_string` writes is read back
/// by `from_string` as the same three numbers, with an empty qualifier and no
/// pre-release tag.
pub proof fn law_from_string_reads_three_part_text(major: usize, minor: usize, patch: usize)
    ensures
        semantic_version_spec(three_part_text(major, minor, patch)) == Some(
            (major, minor, patch, Seq::<char>::empty(), None::<PreRelease>),
        ),
{
    lemma_split_three_part_text(major, minor, patch);
    lemma_decimal_text(major);
    lemma_decimal_text(minor);
    lemma_decimal_text(patch);
    let parts = split_seq(three_part_text(major, minor, patch), '.');
    assert(parts.take(2).drop_last() =~= parts.take(1));
    assert(parts.take(1).drop_last() =~= parts.take(0));
    assert(parts.take(3) =~= parts);
    assert(parts.take(3).drop_last() =~= parts.take(2));
    let s0 = version_fold(parts.take(0));
    let s1 = version_fold(parts.take(1));
    let s2 = version_fold(parts.take(2));
    assert(s1 == (Some(major), None::<usize>, 0usize, Seq::<char>::empty(), Seq::<char>::empty()));
    assert(s2 == (Some(major), Some(minor), 0usize, Seq::<char>::empty(), Seq::<char>::empty()));
    assert(version_fold(parts) == (Some(major), Some(minor), patch, Seq::<char>::empty(), Seq::<char>::empty()));
}

/// Law: a four-part numeric version `a.b.c.d` is read by `from_string` as
/// `a`, `b`, `c` with the qualifier `d` and no pre-release tag, and every
/// version with those parts prints (`get_string`) as the same text `a.b.c.d`:
/// the `.` before a qualifier that starts with a digit is written back.
#[verifier::rlimit(40)]
pub proof fn law_four_part_version_reads_back(a: usize, b: usize, c: usize, d: usize, v: SemanticVersion)
    requires
        v.major == a,
        v.minor == b,
        v.patch == c,
        v.qualifier@ == decimal(d as nat),
        v.pre_release is None,
    ensures
        semantic_version_spec(three_part_text(a, b, c) + seq!['.'] + decimal(d as nat)) == Some(
            (a, b, c, decimal(d as nat), None::<PreRelease>),
        ),
        version_text(v) == three_part_text(a, b, c) + seq!['.'] + decimal(d as nat),
{
    lemma_decimal_text(a);
    lemma_decimal_text(b);
    lemma_decimal_text(c);
    lemma_decimal_text(d);
    let (da, db, dc, dd) = (decimal(a as nat), decimal(b as nat), decimal(c as nat), decimal(d as nat));
    let text = three_part_text(a, b, c) + seq!['.'] + dd;
    lemma_split_three_part_text(a, b, c);
    lemma_split_append_piece(three_part_text(a, b, c), dd, '.');
    let parts = split_seq(text, '.');
    assert(seq![da, db, dc].push(dd) =~= seq![da, db, dc, dd]);
    assert(parts == seq![da, db, dc, dd]);
    assert(parts.take(1).drop_last() =~= parts.take(0));
    assert(parts.take(2).drop_last() =~= parts.take(1));
    assert(parts.take(3).drop_last() =~= parts.take(2));
    assert(parts.take(4) =~= parts);
    assert(parts.take(4).drop_last() =~= parts.take(3));
    let s0 = version_fold(parts.take(0));
    assert(parts.take(0).len() == 0);
    assert(s0 == (None::<usize>, None::<usize>, 0usize, Seq::<char>::empty(), Seq::<char>::empty()));
    let s1 = version_fold(parts.take(1));
    assert(s1 == version_part_step(s0, 0, da));
    assert(s1 == (Some(a), None::<usize>, 0usize, Seq::<char>::empty(), Seq::<char>::empty()));
    let s2 = version_fold(parts.take(2));
    assert(s2 == version_part_step(s1, 1, db));
    assert(s2 == (Some(a), Some(b), 0usize, Seq::<char>::empty(), Seq::<char>::empty()));
    let s3 = version_fold(parts.take(3));
    assert(s3 == version_part_step(s2, 2, dc));
    assert(s3 == (Some(a), Some(b), c, Seq::<char>::empty(), Seq::<char>::empty()));
    assert(version_fold(parts) == version_part_step(s3, 3, dd));
    assert(Seq::<char>::empty() + dd =~= dd);
    assert(version_fold(parts) == (Some(a), Some(b), c, Seq::<char>::empty(), dd));
    assert(pre_release_spec(Seq::<char>::empty()) is None);
    assert(is_ascii_digit(dd[0]));
    assert(is_numeric_char(dd[0]));
    assert(qualifier_text(dd) == seq!['.'] + dd);
    assert(version_text(v) =~= text);
}

/// Law: `from_str` reads the text `major.minor.patch` back as the same three
/// numbers.
pub proof fn law_from_str_reads_three_part_text(major: usize, minor: usize, patch: usize)
    ensures
        dotted_version_spec(three_part_text(major, minor, patch)) == Some((major, minor, patch)),
{
    lemma_split_three_part_text(major, minor, patch);
    lemma_decimal_text(major);
    lemma_decimal_text(patch);
    let t = three_part_text(major, minor, patch);
    assert(t[0] == decimal(major as nat)[0]);
    assert(t.last() == decimal(patch as nat).last());
    lemma_trim_unchanged(t);
    let parts = split_seq(t, '.');
    lemma_decimal_text(minor);
    assert(nonempty_pieces(parts.take(0)) =~= parts.take(0));
    assert(parts.take(1).drop_last() =~= parts.take(0));
    assert(nonempty_pieces(parts.take(1)) =~= parts.take(1));
    assert(parts.take(2).drop_last() =~= parts.take(1));
    assert(nonempty_pieces(parts.take(2)) =~= parts.take(2));
    assert(parts.drop_last() =~= parts.take(2));
    assert(nonempty_pieces(parts) =~= parts);
}

/// Law: `from_str` reads the text `major.minor` that `get_2p_string` writes
/// back as the same two numbers and patch 0.
pub proof fn law_from_str_reads_two_part_text(major: usize, minor: usize)
    ensures
        dotted_version_spec(two_part_text(major, minor)) == Some((major, minor, 0usize)),
{
    lemma_decimal_text(major);
    lemma_decimal_text(minor);
    let (da, db) = (decimal(major as nat), decimal(minor as nat));
    let t = two_part_text(major, minor);
    assert(t[0] == da[0]);
    assert(t.last() == db.last());
    lemma_trim_unchanged(t);
    lemma_split_single(da, '.');
    lemma_split_append_piece(da, db, '.');
    assert(seq![da].push(db) =~= seq![da, db]);
    let parts = split_seq(t, '.');
    assert(nonempty_pieces(parts.take(0)) =~= parts.take(0));
    assert(parts.take(1).drop_last() =~= parts.take(0));
    assert(nonempty_pieces(parts.take(1)) =~= parts.take(1));
    assert(parts.drop_last() =~= parts.take(1));
    assert(nonempty_pieces(parts) =~= parts);
}

} // verus!
