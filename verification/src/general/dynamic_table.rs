//! A table of attributes and values whose columns fit their contents.
use vstd::prelude::*;

use crate::general::table_display::{
    byte_len, header_colours, header_padding, lemma_rows_joined_push, padded_header, rows_joined,
    spaces, table_char, TableCharacter,
};
use crate::general::terminal::{ANSICode, BlackANSI, ResetANSI, YellowBackgroundANSI, painted};
use crate::text::{
    byte_boundary, char_index_of_byte, chars_of, find_char_index_at_byte, lemma_utf8_len,
    push_char, push_repeat, push_str, string_from_range, utf8_len, views,
};
use crate::utils::{ellipsis_spec, StringOp};

verus! {

/// `s` cut every `n` bytes: pieces of `n` bytes and a last piece with the
/// rest; a single empty piece when `n` is 0.
pub open spec fn byte_chunks(s: Seq<char>, n: nat) -> Seq<Seq<char>>
    decreases s.len(),
{
    if s.len() == 0 {
        Seq::empty()
    } else if n == 0 {
        seq![Seq::empty()]
    } else if utf8_len(s) <= n {
        seq![s]
    } else {
        let k = char_index_of_byte(s, n);
        if 0 < k < s.len() {
            seq![s.take(k)] + byte_chunks(s.skip(k), n)
        } else {
            seq![s]
        }
    }
}

/// The texts that are cut every `n` bytes without panicking: each cut falls
/// between two characters.
pub open spec fn byte_chunks_ok(s: Seq<char>, n: nat) -> bool
    decreases s.len(),
{
    if s.len() == 0 || n == 0 || utf8_len(s) <= n {
        true
    } else {
        byte_boundary(s, n) && {
            let k = char_index_of_byte(s, n);
            0 < k < s.len() && byte_chunks_ok(s.skip(k), n)
        }
    }
}

/// The width of the text in a column of `width`, inside its padding and
/// borders.
pub open spec fn text_width(width: nat, padding: nat) -> nat {
    if width >= 2 + 2 * padding {
        (width - 2 - 2 * padding) as nat
    } else {
        0
    }
}

/// `lines` made `n` long with empty lines.
pub open spec fn padded_lines(lines: Seq<Seq<char>>, n: nat) -> Seq<Seq<char>> {
    Seq::new(
        n,
        |i: int|
            if i < lines.len() {
                lines[i]
            } else {
                Seq::empty()
            },
    )
}

/// A row of the table: an attribute line and a value line, or a separator.
pub type TableRow = Option<(Seq<char>, Seq<char>)>;

/// The rows of one parameter: its attribute and value cut to their columns,
/// side by side, the shorter filled with empty lines.
pub open spec fn parameter_rows(attr_lines: Seq<Seq<char>>, value_lines: Seq<Seq<char>>) -> Seq<TableRow> {
    let m = if attr_lines.len() >= value_lines.len() {
        attr_lines.len()
    } else {
        value_lines.len()
    };
    Seq::new(
        m,
        |i: int| Some((padded_lines(attr_lines, m)[i], padded_lines(value_lines, m)[i])),
    )
}

/// The rows of the first `n` parameters, each followed by a separator.
pub open spec fn rows_fold(
    params: Seq<(Seq<char>, Seq<char>)>,
    attr_width: nat,
    value_width: nat,
    padding: nat,
    n: int,
) -> Seq<TableRow>
    decreases n,
{
    if n <= 0 {
        Seq::empty()
    } else {
        let p = params[n - 1];
        rows_fold(params, attr_width, value_width, padding, n - 1) + parameter_rows(
            byte_chunks(p.0, text_width(attr_width, padding)),
            byte_chunks(p.1, text_width(value_width, padding)),
        ).push(None)
    }
}

/// The rows of the table: the rows of each parameter, separators between
/// them.
pub open spec fn rows_spec(
    params: Seq<(Seq<char>, Seq<char>)>,
    attr_width: nat,
    value_width: nat,
    padding: nat,
) -> Seq<TableRow> {
    let r = rows_fold(params, attr_width, value_width, padding, params.len() as int);
    if r.len() > 0 {
        r.drop_last()
    } else {
        r
    }
}

/// A text filled with spaces to the width of its column, between paddings.
pub open spec fn padded_cell(s: Seq<char>, width: nat, padding: nat) -> Seq<char> {
    let w = (width - 2 - 2 * padding) as nat;
    spaces(padding) + s + (if s.len() < w {
        spaces((w - s.len()) as nat)
    } else {
        Seq::empty()
    }) + spaces(padding)
}

/// A frame line: the left end, `attr_width` and `value_width` horizontal
/// lines on either side of the middle character, the right end.
pub open spec fn frame_line(attr_width: nat, value_width: nat, left: char, mid: char, right: char) -> Seq<char> {
    seq![left] + Seq::new(attr_width, |_i: int| '─') + seq![mid] + Seq::new(
        value_width,
        |_i: int| '─',
    ) + seq![right]
}

/// The line of a row.
pub open spec fn row_line(row: TableRow, attr_width: nat, value_width: nat, padding: nat) -> Seq<char> {
    match row {
        Some((a, v)) => "│ "@ + padded_cell(a, attr_width, padding) + " │ "@ + padded_cell(
            v,
            value_width,
            padding,
        ) + " │"@,
        None => frame_line(attr_width, value_width, '├', '┼', '┤'),
    }
}

/// The lines of the table: top line, a line per row, bottom line.
pub open spec fn table_lines(rows: Seq<TableRow>, attr_width: nat, value_width: nat, padding: nat) -> Seq<
    Seq<char>,
> {
    seq![frame_line(attr_width, value_width, '┌', '┬', '┐')] + Seq::new(
        rows.len(),
        |i: int| row_line(rows[i], attr_width, value_width, padding),
    ) + seq![frame_line(attr_width, value_width, '└', '┴', '┘')]
}

/// The longest byte length among `texts`, 0 for none.
pub open spec fn max_len(texts: Seq<Seq<char>>) -> nat
    decreases texts.len(),
{
    if texts.len() == 0 {
        0
    } else {
        let m = max_len(texts.drop_last());
        if utf8_len(texts.last()) > m {
            utf8_len(texts.last())
        } else {
            m
        }
    }
}

/// `length` held between half the table width and half the header length
/// (rounded up).
pub open spec fn clamp_spec(length: nat, width: nat, header_len: nat) -> nat {
    if length > width / 2 {
        width / 2
    } else if length < (header_len + 1) / 2 {
        (header_len + 1) / 2
    } else {
        length
    }
}


proof fn lemma_byte_chunks_step(s: Seq<char>, n: nat)
    requires
        s.len() > 0,
        n > 0,
        utf8_len(s) > n,
        byte_boundary(s, n),
    ensures
        0 < char_index_of_byte(s, n) < s.len(),
        byte_chunks(s, n) == seq![s.take(char_index_of_byte(s, n))] + byte_chunks(
            s.skip(char_index_of_byte(s, n)),
            n,
        ),
{
    let k = char_index_of_byte(s, n);
    assert(s.take(0) =~= Seq::<char>::empty());
    assert(s.take(s.len() as int) =~= s);
}

/// The rows of a table as views.
pub open spec fn rows_view(rows: Seq<Option<(String, String)>>) -> Seq<TableRow> {
    rows.map_values(
        |r: Option<(String, String)>|
            match r {
                Some(p) => Some((p.0@, p.1@)),
                None => None,
            },
    )
}

/// A table of attributes and values under a header. Its width is in
/// characters of the terminal, already scaled to the part of the terminal
/// the table takes.
pub struct DynamicTable {
    width: usize,
    padding: usize,
    header: String,
    parameters: Vec<(String, String)>,
    output: String,
}

impl DynamicTable {
    /// The width of the table.
    pub closed spec fn width_view(&self) -> nat {
        self.width as nat
    }

    /// The padding inside the cells.
    pub closed spec fn padding_view(&self) -> nat {
        self.padding as nat
    }

    /// The header.
    pub closed spec fn header_view(&self) -> Seq<char> {
        self.header@
    }

    /// The attributes and values, in the order they were added.
    pub closed spec fn params(&self) -> Seq<(Seq<char>, Seq<char>)> {
        self.parameters@.map_values(|p: (String, String)| (p.0@, p.1@))
    }

    /// What has been written and not yet taken.
    pub closed spec fn output(&self) -> Seq<char> {
        self.output@
    }

    /// The width of the attribute column.
    pub open spec fn attr_width(&self) -> nat {
        clamp_spec(
            max_len(self.params().map_values(|p: (Seq<char>, Seq<char>)| p.0)),
            self.width_view(),
            utf8_len(self.header_view()),
        ) + 2 + 2 * self.padding_view()
    }

    /// The width of the value column.
    pub open spec fn value_width(&self) -> nat {
        clamp_spec(
            max_len(self.params().map_values(|p: (Seq<char>, Seq<char>)| p.1)),
            self.width_view(),
            utf8_len(self.header_view()),
        ) + 2 + 2 * self.padding_view()
    }

    /// What `print` writes: the header centred in the table's width, black on
    /// yellow, then the table.
    pub open spec fn print_text(&self) -> Seq<char> {
        let aw = self.attr_width();
        let vw = self.value_width();
        painted(header_colours(), padded_header(self.header_view(), aw + vw + 3)) + seq!['\n']
            + rows_joined(
            table_lines(rows_spec(self.params(), aw, vw, self.padding_view()), aw, vw, self.padding_view()),
        ) + seq!['\n']
    }

    /// The tables that `print` writes without panicking: its widths fit in
    /// memory and each attribute and value is cut between characters.
    pub open spec fn print_ok(&self) -> bool {
        &&& self.attr_width() + self.value_width() + 3 + utf8_len(self.header_view()) <= usize::MAX
        &&& forall|i: int|
            0 <= i < self.params().len() ==> byte_chunks_ok(
                (#[trigger] self.params()[i]).0,
                text_width(self.attr_width(), self.padding_view()),
            ) && byte_chunks_ok(
                self.params()[i].1,
                text_width(self.value_width(), self.padding_view()),
            )
    }

    /// An empty table of `width` with the given padding inside its cells.
    pub fn new(width: usize, padding: usize) -> (r: Self)
        ensures
            r.width_view() == width,
            r.padding_view() == padding,
            r.header_view() == Seq::<char>::empty(),
            r.params() == Seq::<(Seq<char>, Seq<char>)>::empty(),
            r.output() == Seq::<char>::empty(),
    {
        let r = DynamicTable {
            width,
            padding,
            header: String::new(),
            parameters: Vec::new(),
            output: String::new(),
        };
        assert(r.params() =~= Seq::<(Seq<char>, Seq<char>)>::empty());
        r
    }

    /// Sets the header, cut to the table's width with two dots.
    pub fn set_header(&mut self, header: &str)
        requires
            utf8_len(header@) > old(self).width_view() ==> 2 <= old(self).width_view(),
        ensures
            final(self).header_view() == ellipsis_spec(header@, old(self).width_view(), 2),
            final(self).width_view() == old(self).width_view(),
            final(self).padding_view() == old(self).padding_view(),
            final(self).params() == old(self).params(),
            final(self).output() == old(self).output(),
    {
        let width: usize = self.width;
        let header: String = StringOp::trim_with_ellipsis(header, width, 2);
        self.header = header;
    }

    /// Adds an attribute and its value, already formatted.
    pub fn add_parameter(&mut self, attribute: &str, value: &str)
        ensures
            final(self).params() == old(self).params().push((attribute@, value@)),
            final(self).width_view() == old(self).width_view(),
            final(self).padding_view() == old(self).padding_view(),
            final(self).header_view() == old(self).header_view(),
            final(self).output() == old(self).output(),
    {
        let attribute: String = String::from_str(attribute);
        let value: String = String::from_str(value);
        self.parameters.push((attribute, value));
        assert(self.params() =~= old(self).params().push((attribute@, value@)));
    }

    /// Writes the header and the table.
    pub fn print(&mut self)
        requires
            old(self).print_ok(),
        ensures
            final(self).output() == old(self).output() + old(self).print_text(),
            final(self).width_view() == old(self).width_view(),
            final(self).padding_view() == old(self).padding_view(),
            final(self).header_view() == old(self).header_view(),
            final(self).params() == old(self).params(),
    {
        let (attr_width, value_width): (usize, usize) = self.compute_widths();
        let width: usize = attr_width + value_width + 3;
        let header: String = self.get_padded_header(width);
        let header: String = self.get_header_ansi(header.as_str());
        let table: String = self.generate_table(attr_width, value_width);
        push_str(&mut self.output, header.as_str());
        push_char(&mut self.output, '\n');
        push_str(&mut self.output, table.as_str());
        push_char(&mut self.output, '\n');
        assert(self.output@ =~= old(self).output() + old(self).print_text());
    }

    /// True when `print` writes the table without panicking.
    pub fn printable(&self) -> (r: bool)
        ensures
            r == self.print_ok(),
    {
        let header_len: usize = byte_len(self.header.as_str());
        if header_len == usize::MAX {
            return false;
        }
        let max_attr: usize = self.get_max_attr_length();
        let max_value: usize = self.get_max_value_length();
        let total: u128 = max_attr as u128 + max_value as u128 + 4 * (self.padding as u128) + 7
            + header_len as u128;
        if total > usize::MAX as u128 {
            return false;
        }
        let mut i: usize = 0;
        while i < self.parameters.len()
            invariant
                i <= self.parameters@.len(),
                max_attr == text_width(self.attr_width(), self.padding_view()),
                max_value == text_width(self.value_width(), self.padding_view()),
                forall|j: int|
                    0 <= j < i ==> byte_chunks_ok(
                        (#[trigger] self.params()[j]).0,
                        text_width(self.attr_width(), self.padding_view()),
                    ) && byte_chunks_ok(
                        self.params()[j].1,
                        text_width(self.value_width(), self.padding_view()),
                    ),
            decreases self.parameters@.len() - i,
        {
            assert(self.params()[i as int] == (self.parameters@[i as int].0@, self.parameters@[i as int].1@));
            if !chunks_readable(self.parameters[i].0.as_str(), max_attr) || !chunks_readable(
                self.parameters[i].1.as_str(),
                max_value,
            ) {
                return false;
            }
            i = i + 1;
        }
        true
    }

    /// Takes what has been written, leaving the output empty.
    pub fn take_output(&mut self) -> (r: String)
        ensures
            r@ == old(self).output(),
            final(self).output() == Seq::<char>::empty(),
            final(self).width_view() == old(self).width_view(),
            final(self).padding_view() == old(self).padding_view(),
            final(self).header_view() == old(self).header_view(),
            final(self).params() == old(self).params(),
    {
        let out: String = self.output.clone();
        self.output = String::new();
        out
    }
}


/// True when `text` is cut every `n` bytes without panicking.
fn chunks_readable(text: &str, n: usize) -> (r: bool)
    ensures
        r == byte_chunks_ok(text@, n as nat),
{
    let v: Vec<char> = chars_of(text);
    if n == 0 {
        return true;
    }
    let mut pos: usize = 0;
    assert(v@.skip(0) =~= v@);
    while pos < v.len()
        invariant
            pos <= v@.len(),
            v@ == text@,
            n > 0,
            byte_chunks_ok(v@, n as nat) == byte_chunks_ok(v@.skip(pos as int), n as nat),
        decreases v@.len() - pos,
    {
        let rest_text: String = string_from_range(&v, pos, v.len());
        let rest: Vec<char> = chars_of(rest_text.as_str());
        assert(rest@ == v@.skip(pos as int));
        proof {
            lemma_utf8_len(rest@);
        }
        if byte_len(rest_text.as_str()) <= n {
            return true;
        }
        match find_char_index_at_byte(&rest, n) {
            Some(k) => {
                if k == 0 || k >= rest.len() {
                    return false;
                }
                assert(rest@.skip(k as int) =~= v@.skip(pos + k));
                pos = pos + k;
            },
            None => {
                return false;
            },
        }
    }
    assert(v@.skip(pos as int) =~= Seq::<char>::empty());
    true
}

/// The lines `rows` joined by line breaks.
fn join_lines(lines: &Vec<String>) -> (r: String)
    ensures
        r@ == rows_joined(views(lines@)),
{
    let mut text: String = String::new();
    let mut i: usize = 0;
    while i < lines.len()
        invariant
            i <= lines@.len(),
            text@ == rows_joined(views(lines@).take(i as int)),
        decreases lines@.len() - i,
    {
        if i > 0 {
            push_char(&mut text, '\n');
        }
        push_str(&mut text, lines[i].as_str());
        proof {
            lemma_rows_joined_push(views(lines@).take(i as int), lines@[i as int]@);
            assert(views(lines@).take(i + 1) =~= views(lines@).take(i as int).push(lines@[i as int]@));
        }
        i = i + 1;
    }
    assert(views(lines@).take(i as int) =~= views(lines@));
    text
}

impl DynamicTable {
    fn generate_table(&self, attr_width: usize, value_width: usize) -> (r: String)
        requires
            attr_width >= 2 + 2 * self.padding_view(),
            value_width >= 2 + 2 * self.padding_view(),
            forall|i: int|
                0 <= i < self.params().len() ==> byte_chunks_ok(
                    (#[trigger] self.params()[i]).0,
                    text_width(attr_width as nat, self.padding_view()),
                ) && byte_chunks_ok(
                    self.params()[i].1,
                    text_width(value_width as nat, self.padding_view()),
                ),
        ensures
            r@ == rows_joined(
                table_lines(
                    rows_spec(self.params(), attr_width as nat, value_width as nat, self.padding_view()),
                    attr_width as nat,
                    value_width as nat,
                    self.padding_view(),
                ),
            ),
    {
        let rows: Vec<Option<(String, String)>> = self.get_rows(attr_width, value_width);
        let lines: Vec<String> = self.get_lines(rows, attr_width, value_width);
        join_lines(&lines)
    }

    fn get_rows(&self, attr_width: usize, value_width: usize) -> (r: Vec<Option<(String, String)>>)
        requires
            2 + 2 * self.padding_view() <= usize::MAX,
            forall|i: int|
                0 <= i < self.params().len() ==> byte_chunks_ok(
                    (#[trigger] self.params()[i]).0,
                    text_width(attr_width as nat, self.padding_view()),
                ) && byte_chunks_ok(
                    self.params()[i].1,
                    text_width(value_width as nat, self.padding_view()),
                ),
        ensures
            rows_view(r@) == rows_spec(
                self.params(),
                attr_width as nat,
                value_width as nat,
                self.padding_view(),
            ),
    {
        let ghost params = self.params();
        let ghost aw = attr_width as nat;
        let ghost vw = value_width as nat;
        let ghost p = self.padding_view();
        let mut rows: Vec<Option<(String, String)>> = Vec::new();
        let mut i: usize = 0;
        while i < self.parameters.len()
            invariant
                i <= self.parameters@.len(),
                params == self.params(),
                params.len() == self.parameters@.len(),
                aw == attr_width as nat,
                vw == value_width as nat,
                p == self.padding_view(),
                2 + 2 * self.padding_view() <= usize::MAX,
                forall|k: int|
                    0 <= k < params.len() ==> byte_chunks_ok(
                        (#[trigger] params[k]).0,
                        text_width(aw, p),
                    ) && byte_chunks_ok(params[k].1, text_width(vw, p)),
                rows_view(rows@) == rows_fold(params, aw, vw, p, i as int),
            decreases self.parameters@.len() - i,
        {
            assert(params[i as int] == (self.parameters@[i as int].0@, self.parameters@[i as int].1@));
            assert(byte_chunks_ok(params[i as int].0, text_width(aw, p)));
            let attr_lines: Vec<String> = self.split_text(self.parameters[i].0.as_str(), attr_width);
            let value_lines: Vec<String> = self.split_text(
                self.parameters[i].1.as_str(),
                value_width,
            );
            let max_lines: usize = if attr_lines.len() >= value_lines.len() {
                attr_lines.len()
            } else {
                value_lines.len()
            };
            let ghost prev = rows_view(rows@);
            let ghost new_rows = parameter_rows(views(attr_lines@), views(value_lines@));
            let mut j: usize = 0;
            while j < max_lines
                invariant
                    j <= max_lines,
                    max_lines == new_rows.len(),
                    new_rows == parameter_rows(views(attr_lines@), views(value_lines@)),
                    rows_view(rows@) == prev + new_rows.take(j as int),
                decreases max_lines - j,
            {
                let attr_line: String = if j < attr_lines.len() {
                    attr_lines[j].clone()
                } else {
                    String::new()
                };
                let value_line: String = if j < value_lines.len() {
                    value_lines[j].clone()
                } else {
                    String::new()
                };
                let ghost before = rows_view(rows@);
                let ghost entry = Some((attr_line@, value_line@));
                rows.push(Some((attr_line, value_line)));
                assert(rows_view(rows@) =~= before.push(entry));
                assert(new_rows[j as int] == entry);
                assert(new_rows.take(j + 1) =~= new_rows.take(j as int).push(new_rows[j as int]));
                j = j + 1;
            }
            assert(new_rows.take(j as int) =~= new_rows);
            let ghost before = rows_view(rows@);
            rows.push(None);
            assert(rows_view(rows@) =~= before.push(None));
            assert(rows_view(rows@) =~= rows_fold(params, aw, vw, p, i + 1));
            i = i + 1;
        }
        if rows.len() > 0 {
            let ghost before = rows_view(rows@);
            rows.pop();
            assert(rows_view(rows@) =~= before.drop_last());
        }
        rows
    }

    fn get_lines(&self, rows: Vec<Option<(String, String)>>, attr_width: usize, value_width: usize) -> (r: Vec<String>)
        requires
            attr_width >= 2 + 2 * self.padding_view(),
            value_width >= 2 + 2 * self.padding_view(),
        ensures
            views(r@) == table_lines(
                rows_view(rows@),
                attr_width as nat,
                value_width as nat,
                self.padding_view(),
            ),
    {
        let ghost rv = rows_view(rows@);
        let ghost mids = Seq::new(
            rv.len(),
            |k: int| row_line(rv[k], attr_width as nat, value_width as nat, self.padding_view()),
        );
        let mut lines: Vec<String> = Vec::new();
        let top_line: String = self.get_top_line(attr_width, value_width);
        lines.push(top_line);
        let mut i: usize = 0;
        while i < rows.len()
            invariant
                i <= rows@.len(),
                rv == rows_view(rows@),
                mids.len() == rv.len(),
                forall|k: int|
                    0 <= k < rv.len() ==> #[trigger] mids[k] == row_line(
                        rv[k],
                        attr_width as nat,
                        value_width as nat,
                        self.padding_view(),
                    ),
                attr_width >= 2 + 2 * self.padding_view(),
                value_width >= 2 + 2 * self.padding_view(),
                views(lines@) == seq![frame_line(attr_width as nat, value_width as nat, '┌', '┬', '┐')]
                    + mids.take(i as int),
            decreases rows@.len() - i,
        {
            let line: String = match &rows[i] {
                Some((attribute, value)) => {
                    let attribute: String = self.format_to_padded_width(
                        attribute.as_str(),
                        attr_width,
                    );
                    let value: String = self.format_to_padded_width(value.as_str(), value_width);
                    self.format_line(attribute.as_str(), value.as_str())
                },
                None => self.get_separator_line(attr_width, value_width),
            };
            assert(line@ == mids[i as int]);
            let ghost before = views(lines@);
            lines.push(line);
            assert(views(lines@) =~= before.push(mids[i as int]));
            assert(mids.take(i + 1) =~= mids.take(i as int).push(mids[i as int]));
            i = i + 1;
        }
        assert(mids.take(i as int) =~= mids);
        let bottom_line: String = self.get_bottom_line(attr_width, value_width);
        let ghost before = views(lines@);
        lines.push(bottom_line);
        assert(views(lines@) =~= before.push(bottom_line@));
        assert(views(lines@) =~= table_lines(rv, attr_width as nat, value_width as nat, self.padding_view()));
        lines
    }

    fn compute_widths(&self) -> (r: (usize, usize))
        requires
            self.print_ok(),
        ensures
            r.0 == self.attr_width(),
            r.1 == self.value_width(),
    {
        let max_attr_length: usize = self.get_max_attr_length();
        let attr_width: usize = max_attr_length + 2 + (self.padding * 2);
        let max_value_length: usize = self.get_max_value_length();
        let value_width: usize = max_value_length + 2 + (self.padding * 2);
        (attr_width, value_width)
    }

    fn clamp_length(&self, length: usize) -> (r: usize)
        requires
            utf8_len(self.header_view()) < usize::MAX,
        ensures
            r == clamp_spec(length as nat, self.width_view(), utf8_len(self.header_view())),
    {
        let half_width: usize = self.width / 2;
        let half_header: usize = (byte_len(self.header.as_str()) + 1) / 2;
        let mut length: usize = length;
        if length > half_width {
            length = half_width;
        } else if length < half_header {
            length = half_header;
        }
        length
    }

    fn get_max_attr_length(&self) -> (r: usize)
        requires
            utf8_len(self.header_view()) < usize::MAX,
        ensures
            r == clamp_spec(
                max_len(self.params().map_values(|p: (Seq<char>, Seq<char>)| p.0)),
                self.width_view(),
                utf8_len(self.header_view()),
            ),
    {
        let ghost texts = self.params().map_values(|p: (Seq<char>, Seq<char>)| p.0);
        let mut max_attr_length: usize = 0;
        let mut i: usize = 0;
        while i < self.parameters.len()
            invariant
                i <= self.parameters@.len(),
                texts == self.params().map_values(|p: (Seq<char>, Seq<char>)| p.0),
                texts.len() == self.parameters@.len(),
                max_attr_length == max_len(texts.take(i as int)),
            decreases self.parameters@.len() - i,
        {
            assert(texts[i as int] == self.parameters@[i as int].0@);
            assert(texts.take(i + 1).drop_last() =~= texts.take(i as int));
            let n: usize = byte_len(self.parameters[i].0.as_str());
            if n > max_attr_length {
                max_attr_length = n;
            }
            i = i + 1;
        }
        assert(texts.take(i as int) =~= texts);
        self.clamp_length(max_attr_length)
    }

    fn get_max_value_length(&self) -> (r: usize)
        requires
            utf8_len(self.header_view()) < usize::MAX,
        ensures
            r == clamp_spec(
                max_len(self.params().map_values(|p: (Seq<char>, Seq<char>)| p.1)),
                self.width_view(),
                utf8_len(self.header_view()),
            ),
    {
        let ghost texts = self.params().map_values(|p: (Seq<char>, Seq<char>)| p.1);
        let mut max_value_length: usize = 0;
        let mut i: usize = 0;
        while i < self.parameters.len()
            invariant
                i <= self.parameters@.len(),
                texts == self.params().map_values(|p: (Seq<char>, Seq<char>)| p.1),
                texts.len() == self.parameters@.len(),
                max_value_length == max_len(texts.take(i as int)),
            decreases self.parameters@.len() - i,
        {
            assert(texts[i as int] == self.parameters@[i as int].1@);
            assert(texts.take(i + 1).drop_last() =~= texts.take(i as int));
            let n: usize = byte_len(self.parameters[i].1.as_str());
            if n > max_value_length {
                max_value_length = n;
            }
            i = i + 1;
        }
        assert(texts.take(i as int) =~= texts);
        self.clamp_length(max_value_length)
    }

    fn split_text(&self, text: &str, width: usize) -> (r: Vec<String>)
        requires
            2 + 2 * self.padding_view() <= usize::MAX,
            byte_chunks_ok(text@, text_width(width as nat, self.padding_view())),
        ensures
            views(r@) == byte_chunks(text@, text_width(width as nat, self.padding_view())),
    {
        let effective: usize = width.saturating_sub(2 + self.padding * 2);
        let ghost n = text_width(width as nat, self.padding_view());
        assert(effective == n);
        let v: Vec<char> = chars_of(text);
        let mut lines: Vec<String> = Vec::new();
        let mut pos: usize = 0;
        assert(v@.skip(0) =~= v@);
        while pos < v.len()
            invariant
                pos <= v@.len(),
                v@ == text@,
                effective == n,
                views(lines@) + byte_chunks(v@.skip(pos as int), n) == byte_chunks(v@, n),
                byte_chunks_ok(v@.skip(pos as int), n),
            decreases v@.len() - pos,
        {
            let rest_text: String = string_from_range(&v, pos, v.len());
            let rest: Vec<char> = chars_of(rest_text.as_str());
            assert(rest@ == v@.skip(pos as int));
            let ghost before = views(lines@);
            if effective == 0 {
                lines.push(String::new());
                assert(views(lines@) =~= before + byte_chunks(rest@, n));
                pos = v.len();
                assert(v@.skip(pos as int) =~= Seq::<char>::empty());
                assert(views(lines@) + byte_chunks(v@.skip(pos as int), n) =~= views(lines@));
            } else {
                let found: Option<usize> = find_char_index_at_byte(&rest, effective);
                match found {
                    Some(k) if k < rest.len() => {
                        proof {
                            assert(rest@.take(0) =~= Seq::<char>::empty());
                            crate::text::lemma_utf8_len_take_mono(rest@, k as int, rest@.len() as int);
                            assert(rest@.take(rest@.len() as int) =~= rest@);
                            lemma_byte_chunks_step(rest@, n);
                        }
                        let piece: String = string_from_range(&rest, 0, k);
                        assert(piece@ =~= rest@.take(k as int));
                        lines.push(piece);
                        assert(views(lines@) =~= before.push(rest@.take(k as int)));
                        assert(rest@.skip(k as int) =~= v@.skip(pos + k));
                        pos = pos + k;
                    },
                    _ => {
                        proof {
                            if found is Some {
                                assert(rest@.take(rest@.len() as int) =~= rest@);
                            }
                        }
                        let piece: String = string_from_range(&rest, 0, rest.len());
                        assert(piece@ =~= rest@);
                        lines.push(piece);
                        assert(views(lines@) =~= before.push(rest@));
                        pos = v.len();
                        assert(v@.skip(pos as int) =~= Seq::<char>::empty());
                        assert(views(lines@) + byte_chunks(v@.skip(pos as int), n) =~= views(lines@));
                    },
                }
            }
        }
        assert(v@.skip(pos as int) =~= Seq::<char>::empty());
        assert(views(lines@) + byte_chunks(v@.skip(pos as int), n) =~= views(lines@));
        lines
    }

    fn format_to_padded_width(&self, string: &str, width: usize) -> (r: String)
        requires
            width >= 2 + 2 * self.padding_view(),
        ensures
            r@ == padded_cell(string@, width as nat, self.padding_view()),
    {
        let width: usize = width - 2 - (self.padding * 2);
        let count: usize = chars_of(string).len();
        let mut padded: String = String::new();
        push_repeat(&mut padded, ' ', self.padding);
        push_str(&mut padded, string);
        if count < width {
            push_repeat(&mut padded, ' ', width - count);
        }
        push_repeat(&mut padded, ' ', self.padding);
        assert(padded@ =~= padded_cell(string@, (width + 2 + 2 * self.padding) as nat, self.padding_view()));
        padded
    }

    fn format_line(&self, attribute: &str, value: &str) -> (r: String)
        ensures
            r@ == "│ "@ + attribute@ + " │ "@ + value@ + " │"@,
    {
        let vert: char = TableCharacter::Vertical.as_char();
        let mut line: String = String::new();
        push_char(&mut line, vert);
        push_char(&mut line, ' ');
        push_str(&mut line, attribute);
        push_char(&mut line, ' ');
        push_char(&mut line, vert);
        push_char(&mut line, ' ');
        push_str(&mut line, value);
        push_char(&mut line, ' ');
        push_char(&mut line, vert);
        proof {
            reveal_strlit("│ ");
            reveal_strlit(" │ ");
            reveal_strlit(" │");
        }
        assert(line@ =~= "│ "@ + attribute@ + " │ "@ + value@ + " │"@);
        line
    }

    fn frame(attr_width: usize, value_width: usize, left: char, mid: char, right: char) -> (r: String)
        ensures
            r@ == frame_line(attr_width as nat, value_width as nat, left, mid, right),
    {
        let mut line: String = String::new();
        push_char(&mut line, left);
        push_repeat(&mut line, '─', attr_width);
        push_char(&mut line, mid);
        push_repeat(&mut line, '─', value_width);
        push_char(&mut line, right);
        assert(line@ =~= frame_line(attr_width as nat, value_width as nat, left, mid, right));
        line
    }

    fn get_top_line(&self, attr_width: usize, value_width: usize) -> (r: String)
        ensures
            r@ == frame_line(attr_width as nat, value_width as nat, '┌', '┬', '┐'),
    {
        let top_left: char = TableCharacter::TopLeft.as_char();
        let top_t: char = TableCharacter::TopT.as_char();
        let top_right: char = TableCharacter::TopRight.as_char();
        Self::frame(attr_width, value_width, top_left, top_t, top_right)
    }

    fn get_separator_line(&self, attr_width: usize, value_width: usize) -> (r: String)
        ensures
            r@ == frame_line(attr_width as nat, value_width as nat, '├', '┼', '┤'),
    {
        let mid_left: char = TableCharacter::MidLeftT.as_char();
        let mid_t: char = TableCharacter::MidT.as_char();
        let mid_right: char = TableCharacter::MidRightT.as_char();
        Self::frame(attr_width, value_width, mid_left, mid_t, mid_right)
    }

    fn get_bottom_line(&self, attr_width: usize, value_width: usize) -> (r: String)
        ensures
            r@ == frame_line(attr_width as nat, value_width as nat, '└', '┴', '┘'),
    {
        let bottom_left: char = TableCharacter::BottomLeft.as_char();
        let bottom_t: char = TableCharacter::BottomT.as_char();
        let bottom_right: char = TableCharacter::BottomRight.as_char();
        Self::frame(attr_width, value_width, bottom_left, bottom_t, bottom_right)
    }

    fn get_header_padding_length(&self, width: usize) -> (r: usize)
        ensures
            r == header_padding(utf8_len(self.header_view()), width as nat),
    {
        let len: usize = byte_len(self.header.as_str());
        if len == 0 || len >= width {
            return 0;
        }
        let total_padding: usize = width - len;
        total_padding / 2
    }

    fn get_padded_header(&self, width: usize) -> (r: String)
        requires
            utf8_len(self.header_view()) + width <= usize::MAX,
        ensures
            r@ == padded_header(self.header_view(), width as nat),
    {
        let padding_length: usize = self.get_header_padding_length(width);
        let len: usize = byte_len(self.header.as_str());
        let mut padded: String = String::new();
        push_repeat(&mut padded, ' ', padding_length);
        push_str(&mut padded, self.header.as_str());
        push_repeat(&mut padded, ' ', padding_length);
        if (len + width) % 2 == 1 {
            push_char(&mut padded, ' ');
        }
        assert(padded@ =~= padded_header(self.header_view(), width as nat));
        padded
    }

    fn get_header_ansi(&self, header: &str) -> (r: String)
        ensures
            r@ == painted(header_colours(), header@),
    {
        let mut ansi: String = YellowBackgroundANSI.combine(&BlackANSI).value();
        let reset_ansi: String = ResetANSI.value();
        push_str(&mut ansi, header);
        push_str(&mut ansi, reset_ansi.as_str());
        assert(ansi@ =~= painted(header_colours(), header@));
        ansi
    }
}

} // verus!
