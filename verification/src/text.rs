//! Character and string primitives used throughout the library.
//!
//! Classification predicates of Unicode (white space, numeric, alphabetic,
//! lower-casing) are named here and obtained from `std`; everything that is
//! built on top of them is verified.
use vstd::prelude::*;

verus! {

/// Unicode `White_Space` property of a character outside ASCII.
pub uninterp spec fn unicode_white_space(c: char) -> bool;

/// Unicode numeric general categories (`Nd`, `Nl`, `No`) of a character
/// outside ASCII.
pub uninterp spec fn unicode_numeric(c: char) -> bool;

/// Unicode `Alphabetic` property of a character outside ASCII.
pub uninterp spec fn unicode_alphabetic(c: char) -> bool;

/// Unicode lower-casing (`str::to_lowercase`) of a string that is not all
/// ASCII.
pub uninterp spec fn unicode_lowercase(s: Seq<char>) -> Seq<char>;

/// The `White_Space` property: on ASCII, space, tab, line feed, vertical tab,
/// form feed and carriage return.
pub open spec fn is_white_space(c: char) -> bool {
    if is_ascii_char(c) {
        ascii_white_space(c)
    } else {
        unicode_white_space(c)
    }
}

/// The numeric general categories: on ASCII, the decimal digits.
pub open spec fn is_numeric_char(c: char) -> bool {
    if is_ascii_char(c) {
        is_ascii_digit(c)
    } else {
        unicode_numeric(c)
    }
}

/// The `Alphabetic` property: on ASCII, the letters.
pub open spec fn is_alphabetic_char(c: char) -> bool {
    if is_ascii_char(c) {
        is_ascii_letter(c)
    } else {
        unicode_alphabetic(c)
    }
}

/// `str::to_lowercase`: on an all-ASCII string, each letter is lowered and
/// every other character kept.
pub open spec fn lowercase(s: Seq<char>) -> Seq<char> {
    if all_ascii(s) {
        s.map_values(|c: char| ascii_lower(c))
    } else {
        unicode_lowercase(s)
    }
}

/// True when the code point of `c` lies below 128.
pub open spec fn is_ascii_char(c: char) -> bool {
    (c as u32) < 128
}

/// True when every character of `s` is ASCII.
pub open spec fn all_ascii(s: Seq<char>) -> bool {
    forall|i: int| 0 <= i < s.len() ==> is_ascii_char(#[trigger] s[i])
}

/// The six ASCII characters that carry the `White_Space` property.
pub open spec fn ascii_white_space(c: char) -> bool {
    c == ' ' || c == '\t' || c == '\n' || c == '\r' || (c as u32) == 11 || (c as u32) == 12
}

/// The characters `char::is_ascii_whitespace` accepts: space, tab, line feed,
/// form feed and carriage return.
pub open spec fn spec_is_ascii_whitespace(c: char) -> bool {
    c == ' ' || c == '\t' || c == '\n' || c == '\r' || (c as u32) == 12
}

/// An ASCII decimal digit.
pub open spec fn is_ascii_digit(c: char) -> bool {
    '0' <= c && c <= '9'
}

/// An ASCII letter.
pub open spec fn is_ascii_letter(c: char) -> bool {
    ('a' <= c && c <= 'z') || ('A' <= c && c <= 'Z')
}

/// ASCII lower-casing of one character.
pub open spec fn ascii_lower(c: char) -> char {
    if 'A' <= c && c <= 'Z' {
        ((c as u32) + 32) as char
    } else {
        c
    }
}

/// `char::is_whitespace`: the Unicode `White_Space` property. On ASCII it holds
/// exactly for space, tab, line feed, vertical tab, form feed and carriage return.
#[verifier::external_body]
pub(crate) fn char_is_whitespace(c: char) -> (r: bool)
    ensures
        r == is_white_space(c),
        !is_ascii_char(c) ==> r == unicode_white_space(c),
{
    c.is_whitespace()
}

/// `char::is_numeric`: the numeric general categories of Unicode. On ASCII it
/// holds exactly for the decimal digits.
#[verifier::external_body]
pub(crate) fn char_is_numeric(c: char) -> (r: bool)
    ensures
        r == is_numeric_char(c),
        !is_ascii_char(c) ==> r == unicode_numeric(c),
{
    c.is_numeric()
}

/// `char::is_alphabetic`: the Unicode `Alphabetic` property. On ASCII it holds
/// exactly for the letters.
#[verifier::external_body]
pub(crate) fn char_is_alphabetic(c: char) -> (r: bool)
    ensures
        r == is_alphabetic_char(c),
        !is_ascii_char(c) ==> r == unicode_alphabetic(c),
{
    c.is_alphabetic()
}

/// `str::to_lowercase`: Unicode lower-casing; on an all-ASCII string it maps
/// each letter to its lower-case form and keeps every other character.
#[verifier::external_body]
pub(crate) fn str_to_lowercase(s: &str) -> (r: String)
    ensures
        r@ == lowercase(s@),
        !all_ascii(s@) ==> r@ == unicode_lowercase(s@),
{
    s.to_lowercase()
}

/// `String::push`: appends one character.
#[verifier::external_body]
pub(crate) fn push_char(s: &mut String, c: char)
    ensures
        final(s)@ == old(s)@.push(c),
{
    s.push(c);
}

/// `char::is_ascii_whitespace`.
pub fn is_ascii_whitespace(c: char) -> (r: bool)
    ensures
        r == spec_is_ascii_whitespace(c),
{
    c == ' ' || c == '\t' || c == '\n' || c == '\r' || c == '\x0C'
}

/// The characters of a string slice, in order.
pub fn chars_of(s: &str) -> (v: Vec<char>)
    ensures
        v@ == s@,
{
    let mut v: Vec<char> = Vec::new();
    for c in it: s.chars()
        invariant
            v@ == it.seq().take(it.index()),
            it.seq() == s@,
    {
        v.push(c);
    }
    v
}

/// A string holding the characters `v@[from..to]`.
pub fn string_from_range(v: &Vec<char>, from: usize, to: usize) -> (s: String)
    requires
        from <= to <= v@.len(),
    ensures
        s@ == v@.subrange(from as int, to as int),
{
    let mut s: String = String::new();
    let mut i: usize = from;
    while i < to
        invariant
            from <= i <= to <= v@.len(),
            s@ == v@.subrange(from as int, i as int),
        decreases to - i,
    {
        push_char(&mut s, v[i]);
        i = i + 1;
    }
    s
}

/// A string holding exactly the characters of `v`.
pub fn string_from_chars(v: &Vec<char>) -> (s: String)
    ensures
        s@ == v@,
{
    let s = string_from_range(v, 0, v.len());
    assert(v@.subrange(0, v@.len() as int) =~= v@);
    s
}

/// Appends the characters of `t` to `s`.
pub fn push_str(s: &mut String, t: &str)
    ensures
        final(s)@ == old(s)@ + t@,
{
    let v = chars_of(t);
    let ghost s0 = s@;
    let mut i: usize = 0;
    while i < v.len()
        invariant
            i <= v@.len(),
            v@ == t@,
            s@ == s0 + v@.take(i as int),
        decreases v@.len() - i,
    {
        push_char(s, v[i]);
        i = i + 1;
        assert(s0 + v@.take(i as int) =~= (s0 + v@.take(i - 1)).push(v@[i - 1]));
    }
    assert(v@.take(i as int) =~= v@);
}

/// Appends `n` copies of `c` to `s`.
pub fn push_repeat(s: &mut String, c: char, n: usize)
    ensures
        final(s)@ == old(s)@ + Seq::new(n as nat, |_i: int| c),
{
    let ghost s0 = s@;
    let mut i: usize = 0;
    while i < n
        invariant
            i <= n,
            s@ == s0 + Seq::new(i as nat, |_i: int| c),
        decreases n - i,
    {
        push_char(s, c);
        i = i + 1;
        assert(s0 + Seq::new(i as nat, |_i: int| c) =~= (s0 + Seq::new((i - 1) as nat, |_i: int| c)).push(c));
    }
}

/// `n` copies of `c` (`c.to_string().repeat(n)`).
pub fn repeat_char(c: char, n: usize) -> (s: String)
    ensures
        s@ == Seq::new(n as nat, |_i: int| c),
{
    let mut s = String::new();
    push_repeat(&mut s, c, n);
    assert(Seq::<char>::empty() + Seq::new(n as nat, |_i: int| c) =~= Seq::new(n as nat, |_i: int| c));
    s
}

/// Equality of two character sequences held in vectors.
pub fn chars_eq(a: &Vec<char>, b: &Vec<char>) -> (r: bool)
    ensures
        r == (a@ == b@),
{
    if a.len() != b.len() {
        return false;
    }
    let mut i: usize = 0;
    while i < a.len()
        invariant
            i <= a@.len() == b@.len(),
            a@.take(i as int) == b@.take(i as int),
        decreases a@.len() - i,
    {
        if a[i] != b[i] {
            assert(a@[i as int] != b@[i as int]);
            return false;
        }
        i = i + 1;
        assert(a@.take(i as int) =~= a@.take(i - 1).push(a@[i - 1]));
        assert(b@.take(i as int) =~= b@.take(i - 1).push(b@[i - 1]));
    }
    assert(a@.take(i as int) =~= a@);
    assert(b@.take(i as int) =~= b@);
    true
}

/// Equality of two string slices.
pub fn str_eq(a: &str, b: &str) -> (r: bool)
    ensures
        r == (a@ == b@),
{
    let va = chars_of(a);
    let vb = chars_of(b);
    chars_eq(&va, &vb)
}

/// True when `s` begins with `p`.
pub open spec fn seq_starts_with(s: Seq<char>, p: Seq<char>) -> bool {
    p.len() <= s.len() && s.take(p.len() as int) == p
}

/// True when `s` ends with `p`.
pub open spec fn seq_ends_with(s: Seq<char>, p: Seq<char>) -> bool {
    p.len() <= s.len() && s.skip(s.len() - p.len()) == p
}

/// `str::starts_with` on character vectors.
pub fn chars_start_with(s: &Vec<char>, p: &Vec<char>) -> (r: bool)
    ensures
        r == seq_starts_with(s@, p@),
{
    if p.len() > s.len() {
        return false;
    }
    let mut i: usize = 0;
    while i < p.len()
        invariant
            i <= p@.len() <= s@.len(),
            s@.take(i as int) == p@.take(i as int),
        decreases p@.len() - i,
    {
        if s[i] != p[i] {
            assert(s@.take(p@.len() as int)[i as int] != p@[i as int]);
            return false;
        }
        i = i + 1;
        assert(s@.take(i as int) =~= s@.take(i - 1).push(s@[i - 1]));
        assert(p@.take(i as int) =~= p@.take(i - 1).push(p@[i - 1]));
    }
    assert(p@.take(i as int) =~= p@);
    true
}

/// `str::ends_with` on character vectors.
pub fn chars_end_with(s: &Vec<char>, p: &Vec<char>) -> (r: bool)
    ensures
        r == seq_ends_with(s@, p@),
{
    if p.len() > s.len() {
        return false;
    }
    let off: usize = s.len() - p.len();
    let mut i: usize = 0;
    while i < p.len()
        invariant
            i <= p@.len() <= s@.len(),
            off + p@.len() == s@.len(),
            s@.len() == s.len(),
            forall|j: int| 0 <= j < i ==> s@[off + j] == p@[j],
        decreases p@.len() - i,
    {
        if s[off + i] != p[i] {
            assert(s@.skip(off as int)[i as int] != p@[i as int]);
            return false;
        }
        i = i + 1;
    }
    assert(s@.skip(off as int) =~= p@);
    true
}

// ---------------------------------------------------------------------------
// Trimming

/// `s` without its leading white space.
pub open spec fn trim_start(s: Seq<char>) -> Seq<char>
    decreases s.len(),
{
    if s.len() > 0 && is_white_space(s[0]) {
        trim_start(s.drop_first())
    } else {
        s
    }
}

/// `s` without its trailing white space.
pub open spec fn trim_end(s: Seq<char>) -> Seq<char>
    decreases s.len(),
{
    if s.len() > 0 && is_white_space(s.last()) {
        trim_end(s.drop_last())
    } else {
        s
    }
}

/// `str::trim`: `s` without leading and trailing white space.
pub open spec fn trim(s: Seq<char>) -> Seq<char> {
    trim_end(trim_start(s))
}

proof fn lemma_trim_start_skip(s: Seq<char>, i: int)
    requires
        0 <= i <= s.len(),
        forall|j: int| 0 <= j < i ==> is_white_space(#[trigger] s[j]),
    ensures
        trim_start(s) == trim_start(s.skip(i)),
    decreases i,
{
    if i > 0 {
        assert(s.skip(1) =~= s.drop_first());
        lemma_trim_start_skip(s.drop_first(), i - 1);
        assert(s.drop_first().skip(i - 1) =~= s.skip(i));
    } else {
        assert(s.skip(0) =~= s);
    }
}

proof fn lemma_trim_end_take(s: Seq<char>, i: int)
    requires
        0 <= i <= s.len(),
        forall|j: int| i <= j < s.len() ==> is_white_space(#[trigger] s[j]),
    ensures
        trim_end(s) == trim_end(s.take(i)),
    decreases s.len() - i,
{
    if i < s.len() {
        assert(s.take(s.len() - 1) =~= s.drop_last());
        lemma_trim_end_take(s.drop_last(), i);
        assert(s.drop_last().take(i) =~= s.take(i));
    } else {
        assert(s.take(i) =~= s);
    }
}

/// Bounds of the trimmed part of `v`: `trim(v@) == v@[lo..hi]`.
pub fn trim_bounds(v: &Vec<char>) -> (r: (usize, usize))
    ensures
        r.0 <= r.1 <= v@.len(),
        trim(v@) == v@.subrange(r.0 as int, r.1 as int),
{
    let mut lo: usize = 0;
    while lo < v.len() && char_is_whitespace(v[lo])
        invariant
            lo <= v@.len(),
            forall|j: int| 0 <= j < lo ==> is_white_space(#[trigger] v@[j]),
        decreases v@.len() - lo,
    {
        lo = lo + 1;
    }
    proof {
        lemma_trim_start_skip(v@, lo as int);
        if lo < v@.len() {
            assert(!is_white_space(v@.skip(lo as int)[0]));
        }
    }
    let ghost t = v@.skip(lo as int);
    assert(trim_start(v@) == t);
    let mut hi: usize = v.len();
    while hi > lo && char_is_whitespace(v[hi - 1])
        invariant
            lo <= hi <= v@.len(),
            t == v@.skip(lo as int),
            forall|j: int| hi - lo <= j < t.len() ==> is_white_space(#[trigger] t[j]),
        decreases hi,
    {
        hi = hi - 1;
    }
    proof {
        lemma_trim_end_take(t, hi - lo);
        let u = t.take(hi - lo);
        if hi > lo {
            assert(u.last() == v@[hi - 1]);
        }
        assert(trim_end(u) == u);
        assert(u =~= v@.subrange(lo as int, hi as int));
    }
    (lo, hi)
}

/// `str::trim` on a character vector.
pub fn trim_chars(v: &Vec<char>) -> (r: Vec<char>)
    ensures
        r@ == trim(v@),
{
    let (lo, hi) = trim_bounds(v);
    let mut r: Vec<char> = Vec::new();
    let mut i: usize = lo;
    while i < hi
        invariant
            lo <= i <= hi <= v@.len(),
            r@ == v@.subrange(lo as int, i as int),
        decreases hi - i,
    {
        r.push(v[i]);
        i = i + 1;
        assert(v@.subrange(lo as int, i as int) =~= v@.subrange(lo as int, i - 1).push(v@[i - 1]));
    }
    r
}

/// `str::trim` returning an owned string.
pub fn trim_str(s: &str) -> (r: String)
    ensures
        r@ == trim(s@),
{
    let v = chars_of(s);
    let (lo, hi) = trim_bounds(&v);
    string_from_range(&v, lo, hi)
}

// ---------------------------------------------------------------------------
// Decimal numbers

/// Value of an ASCII digit.
pub open spec fn digit_value(c: char) -> nat {
    ((c as u32) - ('0' as u32)) as nat
}

/// True when `s` is a non-empty run of ASCII digits.
pub open spec fn all_digits(s: Seq<char>) -> bool {
    s.len() > 0 && forall|i: int| 0 <= i < s.len() ==> is_ascii_digit(#[trigger] s[i])
}

/// Value of a run of ASCII digits, most significant first.
pub open spec fn digits_value(s: Seq<char>) -> nat
    decreases s.len(),
{
    if s.len() == 0 {
        0
    } else {
        digits_value(s.drop_last()) * 10 + digit_value(s.last())
    }
}

/// What `<usize as FromStr>::from_str` accepts and returns: an optional `+`
/// followed by one or more ASCII digits whose value fits in `usize`.
pub open spec fn parse_usize_spec(s: Seq<char>) -> Option<usize> {
    let d = if s.len() > 0 && s[0] == '+' {
        s.drop_first()
    } else {
        s
    };
    if all_digits(d) && digits_value(d) <= usize::MAX {
        Some(digits_value(d) as usize)
    } else {
        None
    }
}

#[verifier::external_type_specification]
#[verifier::external_body]
pub struct ExParseIntError(std::num::ParseIntError);

/// `str::parse::<usize>`: accepts an optional `+` followed by ASCII digits
/// whose value fits in `usize`, and returns that value.
#[verifier::external_body]
pub(crate) fn parse_usize(s: &str) -> (r: Result<usize, std::num::ParseIntError>)
    ensures
        r is Ok <==> parse_usize_spec(s@) is Some,
        r matches Ok(n) ==> parse_usize_spec(s@) == Some(n),
{
    s.parse::<usize>()
}

/// The decimal representation of `n`, without leading zeros.
pub open spec fn decimal(n: nat) -> Seq<char>
    decreases n,
{
    if n < 10 {
        seq![('0' as u32 + n) as char]
    } else {
        decimal(n / 10).push(('0' as u32 + (n % 10)) as char)
    }
}

/// Appends the decimal representation of `n` to `s`.
pub fn push_usize(s: &mut String, n: usize)
    ensures
        final(s)@ == old(s)@ + decimal(n as nat),
    decreases n,
{
    if n >= 10 {
        push_usize(s, n / 10);
    }
    let d: u32 = (n % 10) as u32;
    let c: char = char_from_digit(d);
    push_char(s, c);
    proof {
        if n >= 10 {
            assert(decimal(n as nat) == decimal((n / 10) as nat).push(c));
        } else {
            assert(decimal(n as nat) =~= seq![c]);
        }
    }
}

/// The ASCII digit of value `d`.
fn char_from_digit(d: u32) -> (c: char)
    requires
        d < 10,
    ensures
        c == ('0' as u32 + d) as char,
{
    match d {
        0 => '0',
        1 => '1',
        2 => '2',
        3 => '3',
        4 => '4',
        5 => '5',
        6 => '6',
        7 => '7',
        8 => '8',
        _ => '9',
    }
}

/// `usize::to_string`.
pub fn usize_to_string(n: usize) -> (s: String)
    ensures
        s@ == decimal(n as nat),
{
    let mut s = String::new();
    push_usize(&mut s, n);
    assert(Seq::<char>::empty() + decimal(n as nat) =~= decimal(n as nat));
    s
}

} // verus!

verus! {

// ---------------------------------------------------------------------------
// Splitting

/// The views of a sequence of strings.
pub open spec fn views(v: Seq<String>) -> Seq<Seq<char>> {
    v.map_values(|x: String| x@)
}

/// `str::split` on a single character: the pieces between separators, empty
/// pieces included; there is always at least one piece.
pub open spec fn split_seq(s: Seq<char>, sep: char) -> Seq<Seq<char>>
    decreases s.len(),
{
    if s.len() == 0 {
        seq![Seq::<char>::empty()]
    } else {
        let r = split_seq(s.drop_last(), sep);
        if s.last() == sep {
            r.push(Seq::<char>::empty())
        } else {
            r.update(r.len() - 1, r.last().push(s.last()))
        }
    }
}

pub proof fn lemma_split_seq_nonempty(s: Seq<char>, sep: char)
    ensures
        split_seq(s, sep).len() >= 1,
    decreases s.len(),
{
    if s.len() > 0 {
        lemma_split_seq_nonempty(s.drop_last(), sep);
    }
}

/// `str::split` on a single character.
pub fn split_chars(s: &str, sep: char) -> (r: Vec<String>)
    ensures
        views(r@) == split_seq(s@, sep),
{
    let v = chars_of(s);
    let mut parts: Vec<String> = Vec::new();
    let mut cur: String = String::new();
    let mut i: usize = 0;
    while i < v.len()
        invariant
            i <= v@.len(),
            v@ == s@,
            views(parts@).push(cur@) == split_seq(v@.take(i as int), sep),
        decreases v@.len() - i,
    {
        let c = v[i];
        proof {
            assert(v@.take(i + 1).drop_last() =~= v@.take(i as int));
            assert(v@.take(i + 1).last() == c);
            lemma_split_seq_nonempty(v@.take(i as int), sep);
        }
        if c == sep {
            let done = cur;
            parts.push(done);
            cur = String::new();
            assert(views(parts@).push(cur@) =~= split_seq(v@.take(i + 1), sep));
        } else {
            let ghost old_parts = views(parts@);
            let ghost old_cur = cur@;
            push_char(&mut cur, c);
            assert(views(parts@).push(cur@) =~= old_parts.push(old_cur).update(
                old_parts.len() as int,
                old_cur.push(c),
            ));
        }
        i = i + 1;
    }
    parts.push(cur);
    assert(v@.take(v@.len() as int) =~= v@);
    assert(views(parts@) =~= split_seq(s@, sep));
    parts
}

} // verus!

verus! {

// ---------------------------------------------------------------------------
// UTF-8 lengths

/// Number of bytes of the UTF-8 encoding of `c`.
pub open spec fn char_utf8_len(c: char) -> nat {
    if (c as u32) <= 0x7F {
        1
    } else if (c as u32) <= 0x7FF {
        2
    } else if (c as u32) <= 0xFFFF {
        3
    } else {
        4
    }
}

/// Number of bytes of the UTF-8 encoding of `s` (what `str::len` returns).
pub open spec fn utf8_len(s: Seq<char>) -> nat
    decreases s.len(),
{
    if s.len() == 0 {
        0
    } else {
        utf8_len(s.drop_last()) + char_utf8_len(s.last())
    }
}

proof fn lemma_encode_utf8_concat(a: Seq<char>, b: Seq<char>)
    ensures
        vstd::utf8::encode_utf8(a + b) == vstd::utf8::encode_utf8(a) + vstd::utf8::encode_utf8(b),
    decreases a.len(),
{
    if a.len() > 0 {
        lemma_encode_utf8_concat(a.drop_first(), b);
        assert((a + b).drop_first() =~= a.drop_first() + b);
        assert((a + b)[0] == a[0]);
    } else {
        assert(a + b =~= b);
    }
}

proof fn lemma_encode_scalar_len(c: char)
    ensures
        vstd::utf8::encode_scalar(c as u32).len() == char_utf8_len(c),
{
    vstd::utf8::char_is_scalar(c);
}

/// The UTF-8 length of `s` is the length of its encoding.
pub proof fn lemma_utf8_len(s: Seq<char>)
    ensures
        utf8_len(s) == vstd::utf8::encode_utf8(s).len(),
    decreases s.len(),
{
    if s.len() > 0 {
        lemma_utf8_len(s.drop_last());
        lemma_encode_utf8_concat(s.drop_last(), seq![s.last()]);
        assert(s.drop_last() + seq![s.last()] =~= s);
        lemma_encode_scalar_len(s.last());
        let one = seq![s.last()];
        assert(one.drop_first() =~= Seq::<char>::empty());
        assert(vstd::utf8::encode_utf8(one.drop_first()) =~= Seq::<u8>::empty());
        assert(vstd::utf8::encode_utf8(one) =~= vstd::utf8::encode_scalar(one[0] as u32) + Seq::<u8>::empty());
        assert(vstd::utf8::encode_utf8(one) =~= vstd::utf8::encode_scalar(s.last() as u32));
    }
}

/// Number of bytes of the UTF-8 encoding of `c` (`char::len_utf8`).
pub fn char_len_utf8(c: char) -> (n: usize)
    ensures
        n == char_utf8_len(c),
{
    let u: u32 = c as u32;
    if u <= 0x7F {
        1
    } else if u <= 0x7FF {
        2
    } else if u <= 0xFFFF {
        3
    } else {
        4
    }
}

} // verus!


verus! {

/// The pieces of `p` that are not empty, in order.
pub open spec fn nonempty_pieces(p: Seq<Seq<char>>) -> Seq<Seq<char>>
    decreases p.len(),
{
    if p.len() == 0 {
        p
    } else if p.last().len() > 0 {
        nonempty_pieces(p.drop_last()).push(p.last())
    } else {
        nonempty_pieces(p.drop_last())
    }
}

/// `s.trim().split('.')` with the empty pieces removed.
pub open spec fn dotted_pieces(s: Seq<char>) -> Seq<Seq<char>> {
    nonempty_pieces(split_seq(trim(s), '.'))
}

/// `s.trim().split('.').filter(|p| !p.is_empty())`, collected.
pub fn dotted_parts(s: &str) -> (r: Vec<String>)
    ensures
        views(r@) == dotted_pieces(s@),
{
    let t: String = trim_str(s);
    let all: Vec<String> = split_chars(t.as_str(), '.');
    let mut parts: Vec<String> = Vec::new();
    let mut i: usize = 0;
    while i < all.len()
        invariant
            i <= all@.len(),
            views(all@) == split_seq(t@, '.'),
            views(parts@) == nonempty_pieces(views(all@).take(i as int)),
        decreases all@.len() - i,
    {
        proof {
            assert(views(all@).take(i + 1).drop_last() =~= views(all@).take(i as int));
            assert(views(all@).take(i + 1).last() == all@[i as int]@);
        }
        if !all[i].as_str().is_empty() {
            let piece: String = all[i].clone();
            parts.push(piece);
            assert(views(parts@) =~= nonempty_pieces(views(all@).take(i as int)).push(all@[i as int]@));
        }
        i = i + 1;
    }
    assert(views(all@).take(all@.len() as int) =~= views(all@));
    parts
}

/// How `from_str` of a two- or three-part version reads `s`: the first two
/// non-empty dot-separated pieces are major and minor, the third (or `0`) is
/// the patch. `None` when a piece is missing or is not a number.
pub open spec fn dotted_version_spec(s: Seq<char>) -> Option<(usize, usize, usize)> {
    let p = dotted_pieces(s);
    if p.len() < 2 {
        None
    } else {
        match (parse_usize_spec(p[0]), parse_usize_spec(p[1])) {
            (Some(a), Some(b)) => if p.len() < 3 {
                Some((a, b, 0))
            } else {
                match parse_usize_spec(p[2]) {
                    Some(c) => Some((a, b, c)),
                    None => None,
                }
            },
            _ => None,
        }
    }
}

/// True when `from_str` of a two- or three-part version rejects `s` for its
/// shape (a missing major or minor piece) rather than for an unreadable number.
pub open spec fn dotted_version_wrong_format(s: Seq<char>) -> bool {
    let p = dotted_pieces(s);
    p.len() == 0 || (p.len() == 1 && parse_usize_spec(p[0]) is Some)
}

} // verus!

verus! {

/// The message of a `ParseIntError` (its `Display` text).
#[verifier::external_body]
pub(crate) fn parse_int_error_message(e: &std::num::ParseIntError) -> String {
    e.to_string()
}

/// The `Debug` text of a string: the string in double quotes, its
/// characters escaped as `str::escape_debug` escapes them.
pub uninterp spec fn str_debug_text(s: Seq<char>) -> Seq<char>;

/// Calls `format!("{:?}", s)`. The text is named, not stated: it is the
/// string quoted, with the escapes of `char::escape_debug`.
#[verifier::external_body]
pub(crate) fn str_debug(s: &str) -> (r: String)
    ensures
        r@ == str_debug_text(s@),
{
    format!("{:?}", s)
}

/// The `Debug` texts of the first `n` strings of `v`, separated by `, `.
pub open spec fn debug_items(v: Seq<Seq<char>>, n: int) -> Seq<char>
    decreases n,
{
    if n <= 0 {
        Seq::empty()
    } else if n == 1 {
        str_debug_text(v[0])
    } else {
        debug_items(v, n - 1) + ", "@ + str_debug_text(v[n - 1])
    }
}

/// The `Debug` text of a list of strings, as `Vec`'s `Debug` writes it
/// (`Formatter::debug_list`): `[`, the `Debug` text of each, separated by
/// `, `, then `]`.
pub open spec fn strings_debug_text(v: Seq<Seq<char>>) -> Seq<char> {
    "["@ + debug_items(v, v.len() as int) + "]"@
}

/// The `Debug` text of a vector of strings.
pub(crate) fn strings_debug(v: &Vec<String>) -> (r: String)
    ensures
        r@ == strings_debug_text(views(v@)),
{
    let ghost vs = views(v@);
    let mut text: String = String::from_str("[");
    let mut i: usize = 0;
    while i < v.len()
        invariant
            i <= v@.len(),
            vs == views(v@),
            text@ == "["@ + debug_items(vs, i as int),
        decreases v@.len() - i,
    {
        if i > 0 {
            push_str(&mut text, ", ");
        }
        let item: String = str_debug(v[i].as_str());
        push_str(&mut text, item.as_str());
        proof {
            reveal_strlit("[");
            reveal_strlit(", ");
            assert(vs[i as int] == v@[i as int]@);
            if i == 0 {
                assert(debug_items(vs, 1) == str_debug_text(vs[0]));
                assert(debug_items(vs, 0) =~= Seq::<char>::empty());
            }
        }
        i = i + 1;
        assert(text@ =~= "["@ + debug_items(vs, i as int));
    }
    push_str(&mut text, "]");
    text
}

} // verus!

verus! {

// ---------------------------------------------------------------------------
// Facts about decimal text, splitting and trimming

proof fn lemma_digit_char(d: nat)
    requires
        d < 10,
    ensures
        digit_value(('0' as u32 + d) as char) == d,
        is_ascii_digit(('0' as u32 + d) as char),
{
    let c = ('0' as u32 + d) as char;
    assert(c as u32 == '0' as u32 + d);
}

/// `decimal(n)` is a non-empty run of ASCII digits whose value is `n`.
pub proof fn lemma_decimal(n: nat)
    ensures
        all_digits(decimal(n)),
        digits_value(decimal(n)) == n,
    decreases n,
{
    if n >= 10 {
        lemma_decimal(n / 10);
        lemma_digit_char(n % 10);
        let d = decimal(n / 10);
        assert(decimal(n).drop_last() =~= d);
        assert(n == (n / 10) * 10 + n % 10);
        assert forall|i: int| 0 <= i < decimal(n).len() implies is_ascii_digit(#[trigger] decimal(n)[i]) by {
            if i < d.len() {
                assert(decimal(n)[i] == d[i]);
            }
        }
    } else {
        lemma_digit_char(n);
        assert(seq![('0' as u32 + n) as char].drop_last() =~= Seq::<char>::empty());
        assert(digits_value(Seq::<char>::empty()) == 0);
    }
}

/// Decimal text parses back to its number.
pub proof fn lemma_parse_decimal(n: usize)
    ensures
        parse_usize_spec(decimal(n as nat)) == Some(n),
{
    lemma_decimal(n as nat);
    assert(is_ascii_digit(decimal(n as nat)[0]));
}

/// Appending text without the separator extends the last piece.
pub proof fn lemma_split_no_sep(x: Seq<char>, y: Seq<char>, sep: char)
    requires
        forall|i: int| 0 <= i < y.len() ==> #[trigger] y[i] != sep,
    ensures
        split_seq(x + y, sep) == split_seq(x, sep).update(
            split_seq(x, sep).len() - 1,
            split_seq(x, sep).last() + y,
        ),
    decreases y.len(),
{
    lemma_split_seq_nonempty(x, sep);
    if y.len() == 0 {
        assert(x + y =~= x);
        assert(split_seq(x, sep).last() + y =~= split_seq(x, sep).last());
        assert(split_seq(x, sep).update(split_seq(x, sep).len() - 1, split_seq(x, sep).last())
            =~= split_seq(x, sep));
    } else {
        lemma_split_no_sep(x, y.drop_last(), sep);
        assert((x + y).drop_last() =~= x + y.drop_last());
        assert((x + y).last() == y.last());
        assert((split_seq(x, sep).last() + y.drop_last()).push(y.last()) =~= split_seq(x, sep).last() + y);
        assert(split_seq(x + y, sep) =~= split_seq(x, sep).update(
            split_seq(x, sep).len() - 1,
            split_seq(x, sep).last() + y,
        ));
    }
}

/// Splitting text that holds no separator gives the text itself.
pub proof fn lemma_split_single(y: Seq<char>, sep: char)
    requires
        forall|i: int| 0 <= i < y.len() ==> #[trigger] y[i] != sep,
    ensures
        split_seq(y, sep) == seq![y],
{
    lemma_split_no_sep(Seq::empty(), y, sep);
    assert(Seq::<char>::empty() + y =~= y);
    assert(split_seq(Seq::<char>::empty(), sep) =~= seq![Seq::<char>::empty()]);
    assert(Seq::<char>::empty() + y =~= y);
    assert(seq![Seq::<char>::empty()].update(0, y) =~= seq![y]);
}

/// Splitting `x`, the separator, then `y` (which holds no separator) adds `y`
/// as a new piece.
pub proof fn lemma_split_append_piece(x: Seq<char>, y: Seq<char>, sep: char)
    requires
        forall|i: int| 0 <= i < y.len() ==> #[trigger] y[i] != sep,
    ensures
        split_seq(x + seq![sep] + y, sep) == split_seq(x, sep).push(y),
{
    let xs = x + seq![sep];
    assert(xs.drop_last() =~= x);
    assert(split_seq(xs, sep) == split_seq(x, sep).push(Seq::empty()));
    lemma_split_no_sep(xs, y, sep);
    assert(Seq::<char>::empty() + y =~= y);
    assert(split_seq(x, sep).push(Seq::empty()).update(split_seq(x, sep).len() as int, y) =~= split_seq(
        x,
        sep,
    ).push(y));
}

/// Text without white space at either end is its own trim.
pub proof fn lemma_trim_unchanged(s: Seq<char>)
    requires
        s.len() > 0 ==> !is_white_space(s[0]) && !is_white_space(s.last()),
    ensures
        trim(s) == s,
{
}

} // verus!

verus! {

/// Index of the first occurrence of `c` in `s`.
pub open spec fn first_index_of(s: Seq<char>, c: char) -> Option<nat>
    decreases s.len(),
{
    if s.len() == 0 {
        None
    } else if s[0] == c {
        Some(0)
    } else {
        match first_index_of(s.drop_first(), c) {
            Some(k) => Some(k + 1),
            None => None,
        }
    }
}

/// `first_index_of` names the first occurrence.
pub proof fn lemma_first_index_of(s: Seq<char>, c: char, i: int)
    requires
        0 <= i <= s.len(),
        forall|j: int| 0 <= j < i ==> #[trigger] s[j] != c,
    ensures
        i < s.len() && s[i] == c ==> first_index_of(s, c) == Some(i as nat),
        i == s.len() ==> first_index_of(s, c) is None,
    decreases i,
{
    if i > 0 {
        lemma_first_index_of(s.drop_first(), c, i - 1);
    }
}

} // verus!

verus! {

// ---------------------------------------------------------------------------
// Searching and lines

/// True when `p` occurs in `s` at position `i`.
pub open spec fn occurs_at(s: Seq<char>, p: Seq<char>, i: int) -> bool {
    0 <= i && i + p.len() <= s.len() && s.subrange(i, i + p.len()) == p
}

/// The first position at or after `i` where `p` occurs in `s`.
pub open spec fn find_from(s: Seq<char>, p: Seq<char>, i: int) -> Option<nat>
    decreases s.len() + 1 - i,
{
    if i < 0 || i + p.len() > s.len() {
        None
    } else if occurs_at(s, p, i) {
        Some(i as nat)
    } else {
        find_from(s, p, i + 1)
    }
}

/// The first position where `p` occurs in `s` (`str::find`, counted in
/// characters).
pub open spec fn find_seq(s: Seq<char>, p: Seq<char>) -> Option<nat> {
    find_from(s, p, 0)
}

proof fn lemma_find_from_result(s: Seq<char>, p: Seq<char>, i: int)
    requires
        0 <= i,
    ensures
        find_from(s, p, i) matches Some(k) ==> i <= k && occurs_at(s, p, k as int),
    decreases s.len() + 1 - i,
{
    if i + p.len() <= s.len() && !occurs_at(s, p, i) {
        lemma_find_from_result(s, p, i + 1);
    }
}

/// The first position where `p` occurs in `s`, computed.
pub fn find_chars(s: &Vec<char>, p: &Vec<char>) -> (r: Option<usize>)
    ensures
        r matches Some(k) ==> find_seq(s@, p@) == Some(k as nat),
        r is None <==> find_seq(s@, p@) is None,
{
    if p.len() > s.len() {
        return None;
    }
    let last: usize = s.len() - p.len();
    let mut i: usize = 0;
    while i <= last
        invariant
            i <= last + 1,
            last + p@.len() == s@.len(),
            s@.len() == s.len(),
            find_seq(s@, p@) == find_from(s@, p@, i as int),
        decreases last + 1 - i,
    {
        let mut j: usize = 0;
        let mut same: bool = true;
        while j < p.len()
            invariant
                j <= p@.len(),
                i <= last,
                last + p@.len() == s@.len(),
                s@.len() == s.len(),
                same <==> forall|k: int| 0 <= k < j ==> s@[i + k] == p@[k],
            decreases p@.len() - j,
        {
            if s[i + j] != p[j] {
                same = false;
            }
            j = j + 1;
        }
        proof {
            if same {
                assert(s@.subrange(i as int, i + p@.len()) =~= p@);
            } else {
                let k = choose|k: int| 0 <= k < p@.len() && s@[i + k] != p@[k];
                assert(s@.subrange(i as int, i + p@.len())[k] != p@[k]);
            }
        }
        if same {
            return Some(i);
        }
        i = i + 1;
    }
    None
}

/// The lines of `s` as `str::lines` gives them: pieces between `\n`, each
/// piece that a `\n` ends losing one trailing `\r`, and no final empty piece.
pub open spec fn lines_seq(s: Seq<char>) -> Seq<Seq<char>> {
    let parts = split_seq(s, '\n');
    let kept = if parts.last().len() == 0 {
        parts.drop_last()
    } else {
        parts
    };
    Seq::new(
        kept.len(),
        |i: int|
            if i < parts.len() - 1 && kept[i].len() > 0 && kept[i].last() == '\r' {
                kept[i].drop_last()
            } else {
                kept[i]
            },
    )
}

/// `str::lines`, collected.
pub fn lines_of(s: &str) -> (r: Vec<String>)
    ensures
        views(r@) == lines_seq(s@),
{
    let parts: Vec<String> = split_chars(s, '\n');
    proof {
        lemma_split_seq_nonempty(s@, '\n');
    }
    let n: usize = parts.len();
    let last_empty: bool = parts[n - 1].as_str().is_empty();
    let keep: usize = if last_empty {
        n - 1
    } else {
        n
    };
    let ghost kept = if last_empty {
        views(parts@).drop_last()
    } else {
        views(parts@)
    };
    let mut lines: Vec<String> = Vec::new();
    let mut i: usize = 0;
    while i < keep
        invariant
            i <= keep <= n,
            n == parts@.len(),
            views(parts@) == split_seq(s@, '\n'),
            kept.len() == keep,
            forall|j: int| 0 <= j < keep ==> kept[j] == parts@[j]@,
            views(lines@) == lines_seq(s@).take(i as int),
            lines_seq(s@).len() == keep,
        decreases keep - i,
    {
        let v: Vec<char> = chars_of(parts[i].as_str());
        let line: String = if i < n - 1 && v.len() > 0 && v[v.len() - 1] == '\r' {
            string_from_range(&v, 0, v.len() - 1)
        } else {
            string_from_range(&v, 0, v.len())
        };
        proof {
            assert(v@ == kept[i as int]);
            if v@.len() > 0 {
                assert(v@.subrange(0, v@.len() - 1) =~= v@.drop_last());
            }
            assert(v@.subrange(0, v@.len() as int) =~= v@);
            assert(line@ == lines_seq(s@)[i as int]);
        }
        let ghost old_views = views(lines@);
        let ghost line_view = line@;
        lines.push(line);
        assert(views(lines@) =~= old_views.push(line_view));
        assert(lines_seq(s@).take(i + 1) =~= lines_seq(s@).take(i as int).push(lines_seq(s@)[i as int]));
        i = i + 1;
    }
    assert(lines_seq(s@).take(keep as int) =~= lines_seq(s@));
    lines
}

} // verus!

verus! {

/// `find_seq` names an occurrence.
pub proof fn lemma_find_seq_result(s: Seq<char>, p: Seq<char>)
    ensures
        find_seq(s, p) matches Some(k) ==> occurs_at(s, p, k as int),
{
    lemma_find_from_result(s, p, 0);
}


// ---------------------------------------------------------------------------
// Byte offsets and characters

/// True when byte offset `k` of the UTF-8 encoding of `s` falls between two
/// characters.
pub open spec fn byte_boundary(s: Seq<char>, k: nat) -> bool {
    exists|j: int| 0 <= j <= s.len() && utf8_len(s.take(j)) == k
}

/// The number of characters whose encoding fills the first `k` bytes.
pub open spec fn char_index_of_byte(s: Seq<char>, k: nat) -> int {
    choose|j: int| 0 <= j <= s.len() && utf8_len(s.take(j)) == k
}

pub proof fn lemma_utf8_len_take_step(s: Seq<char>, j: int)
    requires
        0 < j <= s.len(),
    ensures
        utf8_len(s.take(j)) == utf8_len(s.take(j - 1)) + char_utf8_len(s[j - 1]),
{
    assert(s.take(j).drop_last() =~= s.take(j - 1));
}

pub proof fn lemma_utf8_len_take_mono(s: Seq<char>, a: int, b: int)
    requires
        0 <= a < b <= s.len(),
    ensures
        utf8_len(s.take(a)) < utf8_len(s.take(b)),
    decreases b - a,
{
    lemma_utf8_len_take_step(s, b);
    if a < b - 1 {
        lemma_utf8_len_take_mono(s, a, b - 1);
    }
}

/// The number of characters whose encoding is `k` bytes long.
pub fn char_index_at_byte(v: &Vec<char>, k: usize) -> (j: usize)
    requires
        byte_boundary(v@, k as nat),
    ensures
        j == char_index_of_byte(v@, k as nat),
        j <= v@.len(),
{
    let n: usize = v.len();
    let mut j: usize = 0;
    let mut b: usize = 0;
    while b < k
        invariant
            n == v@.len(),
            j <= v@.len(),
            b == utf8_len(v@.take(j as int)),
            b <= k,
            byte_boundary(v@, k as nat),
        decreases k - b,
    {
        proof {
            let w = choose|w: int| 0 <= w <= v@.len() && utf8_len(v@.take(w)) == k;
            if w <= j {
                if w < j {
                    lemma_utf8_len_take_mono(v@, w, j as int);
                }
                assert(false);
            }
            lemma_utf8_len_take_step(v@, j + 1);
            if j + 1 < w {
                lemma_utf8_len_take_mono(v@, j + 1, w);
            }
        }
        let n = char_len_utf8(v[j]);
        b = b + n;
        j = j + 1;
    }
    proof {
        let w = choose|w: int| 0 <= w <= v@.len() && utf8_len(v@.take(w)) == k;
        if w < j {
            lemma_utf8_len_take_mono(v@, w, j as int);
        } else if w > j {
            lemma_utf8_len_take_mono(v@, j as int, w);
        }
    }
    j
}


/// The number of characters whose encoding is `k` bytes long, if byte offset
/// `k` falls between two characters.
pub fn find_char_index_at_byte(v: &Vec<char>, k: usize) -> (r: Option<usize>)
    ensures
        r is Some <==> byte_boundary(v@, k as nat),
        r matches Some(j) ==> j == char_index_of_byte(v@, k as nat) && j <= v@.len(),
{
    let n: usize = v.len();
    let mut j: usize = 0;
    let mut b: usize = 0;
    while b < k && j < n
        invariant
            n == v@.len(),
            j <= n,
            b <= k,
            b == utf8_len(v@.take(j as int)),
        decreases n - j,
    {
        proof {
            lemma_utf8_len_take_step(v@, j + 1);
        }
        let c: usize = char_len_utf8(v[j]);
        if c > k - b {
            proof {
                assert forall|w: int| 0 <= w <= v@.len() implies utf8_len(#[trigger] v@.take(w))
                    != k by {
                    if w < j {
                        lemma_utf8_len_take_mono(v@, w, j as int);
                    } else if w > j + 1 {
                        lemma_utf8_len_take_mono(v@, j + 1, w);
                    }
                }
            }
            return None;
        }
        b = b + c;
        j = j + 1;
    }
    if b == k {
        proof {
            assert(0 <= j <= v@.len() && utf8_len(v@.take(j as int)) == k as nat);
            let w = choose|w: int| 0 <= w <= v@.len() && utf8_len(v@.take(w)) == k;
            if w < j {
                lemma_utf8_len_take_mono(v@, w, j as int);
            } else if w > j {
                lemma_utf8_len_take_mono(v@, j as int, w);
            }
        }
        Some(j)
    } else {
        proof {
            assert(j == n);
            assert forall|w: int| 0 <= w <= v@.len() implies utf8_len(#[trigger] v@.take(w)) != k by {
                if w < j {
                    lemma_utf8_len_take_mono(v@, w, j as int);
                }
            }
        }
        None
    }
}

/// The byte length of a prefix is at most that of the whole sequence.
pub proof fn lemma_utf8_len_take_le(s: Seq<char>, j: int)
    requires
        0 <= j <= s.len(),
    ensures
        utf8_len(s.take(j)) <= utf8_len(s),
{
    assert(s.take(s.len() as int) =~= s);
    if j < s.len() {
        lemma_utf8_len_take_mono(s, j, s.len() as int);
    }
}


/// The words of `s` read so far: the finished words and the word being read.
pub open spec fn words_fold(s: Seq<char>) -> (Seq<Seq<char>>, Seq<char>)
    decreases s.len(),
{
    if s.len() == 0 {
        (Seq::empty(), Seq::empty())
    } else {
        let (w, cur) = words_fold(s.drop_last());
        let c = s.last();
        if is_white_space(c) {
            if cur.len() > 0 {
                (w.push(cur), Seq::empty())
            } else {
                (w, Seq::empty())
            }
        } else {
            (w, cur.push(c))
        }
    }
}

/// The words of `s` (`str::split_whitespace`): the maximal runs of
/// characters other than white space.
pub open spec fn words(s: Seq<char>) -> Seq<Seq<char>> {
    let (w, cur) = words_fold(s);
    if cur.len() > 0 {
        w.push(cur)
    } else {
        w
    }
}

/// The words of `s`, in order.
pub fn split_whitespace(s: &str) -> (r: Vec<String>)
    ensures
        views(r@) == words(s@),
{
    let v: Vec<char> = chars_of(s);
    let mut parts: Vec<String> = Vec::new();
    let mut cur: String = String::new();
    let mut i: usize = 0;
    while i < v.len()
        invariant
            i <= v@.len(),
            v@ == s@,
            (views(parts@), cur@) == words_fold(v@.take(i as int)),
        decreases v@.len() - i,
    {
        assert(v@.take(i + 1).drop_last() =~= v@.take(i as int));
        let c: char = v[i];
        if char_is_whitespace(c) {
            if !cur.as_str().is_empty() {
                let ghost before = views(parts@);
                parts.push(cur);
                assert(views(parts@) =~= before.push(cur@));
                cur = String::new();
            }
        } else {
            push_char(&mut cur, c);
        }
        i = i + 1;
    }
    assert(v@.take(i as int) =~= v@);
    if !cur.as_str().is_empty() {
        let ghost before = views(parts@);
        parts.push(cur);
        assert(views(parts@) =~= before.push(cur@));
    }
    parts
}

/// `b` as `{}` writes it.
pub open spec fn bool_text(b: bool) -> Seq<char> {
    if b {
        "true"@
    } else {
        "false"@
    }
}

/// Appends `b` as `true` or `false`.
pub fn push_bool(s: &mut String, b: bool)
    ensures
        final(s)@ == old(s)@ + bool_text(b),
{
    if b {
        push_str(s, "true");
    } else {
        push_str(s, "false");
    }
}


/// `s` with every leading repetition of `p` removed (`trim_start_matches`).
pub open spec fn strip_leading(s: Seq<char>, p: Seq<char>) -> Seq<char>
    decreases s.len(),
{
    if p.len() > 0 && seq_starts_with(s, p) {
        strip_leading(s.skip(p.len() as int), p)
    } else {
        s
    }
}

/// `s` with every trailing repetition of `p` removed (`trim_end_matches`).
pub open spec fn strip_trailing(s: Seq<char>, p: Seq<char>) -> Seq<char>
    decreases s.len(),
{
    if p.len() > 0 && seq_ends_with(s, p) {
        strip_trailing(s.take(s.len() - p.len()), p)
    } else {
        s
    }
}

/// `str::trim_start_matches` with a string pattern.
pub fn trim_start_matches(s: &str, p: &str) -> (r: String)
    ensures
        r@ == strip_leading(s@, p@),
{
    let v: Vec<char> = chars_of(s);
    let pv: Vec<char> = chars_of(p);
    let mut start: usize = 0;
    if pv.len() == 0 {
        return String::from_str(s);
    }
    assert(v@.skip(0) =~= v@);
    while pv.len() <= v.len() - start
        invariant
            start <= v@.len(),
            v@ == s@,
            pv@ == p@,
            pv@.len() > 0,
            strip_leading(v@.skip(start as int), pv@) == strip_leading(s@, p@),
        decreases v@.len() - start,
    {
        let mut k: usize = 0;
        let mut matched: bool = true;
        while k < pv.len()
            invariant
                k <= pv@.len(),
                start + pv@.len() <= v@.len(),
                v@.len() == v.len(),
                pv@.len() == pv.len(),
                matched == (forall|j: int| 0 <= j < k ==> v@[start + j] == pv@[j]),
            decreases pv@.len() - k,
        {
            if v[start + k] != pv[k] {
                matched = false;
            }
            k = k + 1;
        }
        let ghost rest = v@.skip(start as int);
        if !matched {
            proof {
                if seq_starts_with(rest, pv@) {
                    assert forall|j: int| 0 <= j < pv@.len() implies v@[start + j] == pv@[j] by {
                        assert(rest.take(pv@.len() as int)[j] == rest[j]);
                    }
                }
            }
            return string_from_range(&v, start, v.len());
        }
        proof {
            assert(rest.take(pv@.len() as int) =~= pv@);
            assert(rest.skip(pv@.len() as int) =~= v@.skip(start + pv@.len()));
        }
        start = start + pv.len();
    }
    proof {
        let rest = v@.skip(start as int);
        if seq_starts_with(rest, pv@) {
            assert(rest.take(pv@.len() as int).len() == pv@.len());
        }
    }
    string_from_range(&v, start, v.len())
}

/// `str::trim_end_matches` with a string pattern.
pub fn trim_end_matches(s: &str, p: &str) -> (r: String)
    ensures
        r@ == strip_trailing(s@, p@),
{
    let v: Vec<char> = chars_of(s);
    let pv: Vec<char> = chars_of(p);
    let mut end: usize = v.len();
    if pv.len() == 0 {
        return String::from_str(s);
    }
    assert(v@.take(v@.len() as int) =~= v@);
    while pv.len() <= end
        invariant
            end <= v@.len(),
            v@ == s@,
            pv@ == p@,
            pv@.len() > 0,
            strip_trailing(v@.take(end as int), pv@) == strip_trailing(s@, p@),
        decreases end,
    {
        let base: usize = end - pv.len();
        let mut k: usize = 0;
        let mut matched: bool = true;
        while k < pv.len()
            invariant
                k <= pv@.len(),
                base + pv@.len() == end,
                end <= v@.len(),
                matched == (forall|j: int| 0 <= j < k ==> v@[base + j] == pv@[j]),
            decreases pv@.len() - k,
        {
            if v[base + k] != pv[k] {
                matched = false;
            }
            k = k + 1;
        }
        let ghost rest = v@.take(end as int);
        if !matched {
            proof {
                if seq_ends_with(rest, pv@) {
                    assert forall|j: int| 0 <= j < pv@.len() implies v@[base + j] == pv@[j] by {
                        assert(rest.skip(rest.len() - pv@.len())[j] == rest[base + j]);
                    }
                }
            }
            return string_from_range(&v, 0, end);
        }
        proof {
            assert(rest.skip(rest.len() - pv@.len()) =~= pv@);
            assert(rest.take(rest.len() - pv@.len()) =~= v@.take(base as int));
        }
        end = base;
    }
    proof {
        let rest = v@.take(end as int);
        if seq_ends_with(rest, pv@) {
            assert(rest.skip(rest.len() - pv@.len()).len() == pv@.len());
        }
    }
    assert(v@.subrange(0, end as int) =~= v@.take(end as int));
    string_from_range(&v, 0, end)
}

/// `s` with each `from` replaced by `to`.
pub open spec fn replace_char(s: Seq<char>, from: char, to: char) -> Seq<char> {
    s.map_values(
        |c: char|
            if c == from {
                to
            } else {
                c
            },
    )
}

/// `str::replace` of one character by another.
pub fn replace_chars(s: &str, from: char, to: char) -> (r: String)
    ensures
        r@ == replace_char(s@, from, to),
{
    let v: Vec<char> = chars_of(s);
    let mut out: String = String::new();
    let mut i: usize = 0;
    while i < v.len()
        invariant
            i <= v@.len(),
            v@ == s@,
            out@ == replace_char(v@.take(i as int), from, to),
        decreases v@.len() - i,
    {
        let c: char = if v[i] == from {
            to
        } else {
            v[i]
        };
        push_char(&mut out, c);
        assert(replace_char(v@.take(i + 1), from, to) =~= replace_char(v@.take(i as int), from, to).push(c));
        i = i + 1;
    }
    assert(v@.take(i as int) =~= v@);
    out
}

/// `str::split_once` on a character: the text before the first `c` and the
/// text after it.
pub fn split_once_char(s: &str, c: char) -> (r: Option<(String, String)>)
    ensures
        match first_index_of(s@, c) {
            Some(k) => r matches Some(p) && p.0@ == s@.take(k as int) && p.1@ == s@.skip(k as int + 1),
            None => r is None,
        },
{
    let v: Vec<char> = chars_of(s);
    let mut i: usize = 0;
    while i < v.len()
        invariant
            i <= v@.len(),
            v@ == s@,
            forall|j: int| 0 <= j < i ==> #[trigger] v@[j] != c,
        decreases v@.len() - i,
    {
        if v[i] == c {
            proof {
                lemma_first_index_of(s@, c, i as int);
            }
            let before: String = string_from_range(&v, 0, i);
            let after: String = string_from_range(&v, i + 1, v.len());
            assert(before@ =~= s@.take(i as int));
            assert(after@ =~= s@.skip(i + 1));
            return Some((before, after));
        }
        i = i + 1;
    }
    proof {
        lemma_first_index_of(s@, c, i as int);
    }
    None
}

/// The characters of `s` before its first white space.
pub open spec fn first_word(s: Seq<char>) -> Seq<char>
    decreases s.len(),
{
    if s.len() == 0 || is_white_space(s[0]) {
        Seq::empty()
    } else {
        seq![s[0]] + first_word(s.drop_first())
    }
}

/// The characters of `s` before its first white space.
pub fn take_until_whitespace(s: &str) -> (r: String)
    ensures
        r@ == first_word(s@),
{
    let v: Vec<char> = chars_of(s);
    let mut out: String = String::new();
    let mut i: usize = 0;
    assert(v@.skip(0) =~= v@);
    assert(out@ + first_word(v@.skip(0)) =~= first_word(s@));
    while i < v.len()
        invariant
            i <= v@.len(),
            v@ == s@,
            out@ + first_word(v@.skip(i as int)) == first_word(s@),
        decreases v@.len() - i,
    {
        if char_is_whitespace(v[i]) {
            assert(first_word(v@.skip(i as int)) =~= Seq::<char>::empty());
            assert(out@ + Seq::<char>::empty() =~= out@);
            return out;
        }
        let ghost before = out@;
        assert(v@.skip(i as int).drop_first() =~= v@.skip(i + 1));
        assert(first_word(v@.skip(i as int)) == seq![v@[i as int]] + first_word(v@.skip(i + 1)));
        push_char(&mut out, v[i]);
        assert(out@ + first_word(v@.skip(i + 1)) =~= before + first_word(v@.skip(i as int)));
        i = i + 1;
    }
    assert(first_word(v@.skip(i as int)) =~= Seq::<char>::empty());
    assert(out@ + Seq::<char>::empty() =~= out@);
    out
}


/// The pieces of a split hold no separator and are no longer than the text.
pub proof fn lemma_split_seq_pieces(s: Seq<char>, sep: char)
    ensures
        forall|i: int, j: int|
            0 <= i < split_seq(s, sep).len() && 0 <= j < split_seq(s, sep)[i].len() ==> (#[trigger] split_seq(s, sep)[i][j]) != sep,
        forall|i: int| 0 <= i < split_seq(s, sep).len() ==> (#[trigger] split_seq(s, sep)[i]).len() <= s.len(),
    decreases s.len(),
{
    if s.len() > 0 {
        lemma_split_seq_pieces(s.drop_last(), sep);
        lemma_split_seq_nonempty(s.drop_last(), sep);
        let r = split_seq(s.drop_last(), sep);
        if s.last() != sep {
            let q = r.update(r.len() - 1, r.last().push(s.last()));
            assert forall|i: int, j: int| 0 <= i < q.len() && 0 <= j < q[i].len() implies #[trigger] q[i][j] != sep by {
                if i == r.len() - 1 {
                    if j < r.last().len() {
                        assert(q[i][j] == r[i][j]);
                    }
                } else {
                    assert(q[i][j] == r[i][j]);
                }
            }
        }
    }
}

/// The lines of a text hold no line break and are no longer than the text.
pub proof fn lemma_lines_pieces(s: Seq<char>)
    ensures
        forall|i: int, j: int|
            0 <= i < lines_seq(s).len() && 0 <= j < lines_seq(s)[i].len() ==> (#[trigger] lines_seq(s)[i][j]) != '\n',
        forall|i: int| 0 <= i < lines_seq(s).len() ==> (#[trigger] lines_seq(s)[i]).len() <= s.len(),
{
    lemma_split_seq_pieces(s, '\n');
    lemma_split_seq_nonempty(s, '\n');
    let parts = split_seq(s, '\n');
    let ls = lines_seq(s);
    assert forall|i: int, j: int| 0 <= i < ls.len() && 0 <= j < ls[i].len() implies #[trigger] ls[i][j] != '\n' by {
        assert(ls[i][j] == parts[i][j]);
    }
    assert forall|i: int| 0 <= i < ls.len() implies (#[trigger] ls[i]).len() <= s.len() by {
        assert(parts[i].len() <= s.len());
    }
}

} // verus!
