//! Tables drawn with box characters: the file information table and a table
//! of attributes and values that fits its columns to their contents.
use vstd::prelude::*;

use crate::general::terminal::{
    ANSICode, BlackANSI, CombinedANSI, ResetANSI, Terminal, YellowBackgroundANSI, painted,
};
use crate::search::info::FileInfo;
use crate::text::{chars_of, push_char, push_repeat, push_str, utf8_len, views};

verus! {

/// The characters of a table's frame.
pub enum TableCharacter {
    TopRight,
    TopLeft,
    BottomRight,
    BottomLeft,
    Horizontal,
    Vertical,
    TopT,
    BottomT,
    MidT,
    MidRightT,
    MidLeftT,
}

/// The box-drawing character of a frame part.
pub open spec fn table_char(c: TableCharacter) -> char {
    match c {
        TableCharacter::TopRight => '┐',
        TableCharacter::TopLeft => '┌',
        TableCharacter::BottomRight => '┘',
        TableCharacter::BottomLeft => '└',
        TableCharacter::Horizontal => '─',
        TableCharacter::Vertical => '│',
        TableCharacter::TopT => '┬',
        TableCharacter::BottomT => '┴',
        TableCharacter::MidT => '┼',
        TableCharacter::MidRightT => '┤',
        TableCharacter::MidLeftT => '├',
    }
}

impl TableCharacter {
    /// The box-drawing character.
    pub fn as_char(&self) -> (r: char)
        ensures
            r == table_char(*self),
    {
        match self {
            TableCharacter::TopRight => '┐',
            TableCharacter::TopLeft => '┌',
            TableCharacter::BottomRight => '┘',
            TableCharacter::BottomLeft => '└',
            TableCharacter::Horizontal => '─',
            TableCharacter::Vertical => '│',
            TableCharacter::TopT => '┬',
            TableCharacter::BottomT => '┴',
            TableCharacter::MidT => '┼',
            TableCharacter::MidRightT => '┤',
            TableCharacter::MidLeftT => '├',
        }
    }

    /// The box-drawing character as a string.
    pub fn as_str(&self) -> (r: &str)
        ensures
            r@ == seq![table_char(*self)],
    {
        match self {
            TableCharacter::TopRight => {
                proof {
                    reveal_strlit("┐");
                }
                "┐"
            },
            TableCharacter::TopLeft => {
                proof {
                    reveal_strlit("┌");
                }
                "┌"
            },
            TableCharacter::BottomRight => {
                proof {
                    reveal_strlit("┘");
                }
                "┘"
            },
            TableCharacter::BottomLeft => {
                proof {
                    reveal_strlit("└");
                }
                "└"
            },
            TableCharacter::Horizontal => {
                proof {
                    reveal_strlit("─");
                }
                "─"
            },
            TableCharacter::Vertical => {
                proof {
                    reveal_strlit("│");
                }
                "│"
            },
            TableCharacter::TopT => {
                proof {
                    reveal_strlit("┬");
                }
                "┬"
            },
            TableCharacter::BottomT => {
                proof {
                    reveal_strlit("┴");
                }
                "┴"
            },
            TableCharacter::MidT => {
                proof {
                    reveal_strlit("┼");
                }
                "┼"
            },
            TableCharacter::MidRightT => {
                proof {
                    reveal_strlit("┤");
                }
                "┤"
            },
            TableCharacter::MidLeftT => {
                proof {
                    reveal_strlit("├");
                }
                "├"
            },
        }
    }
}

/// `s` cut into pieces of `n` characters, the last piece holding the rest;
/// pieces of one character when `n` is 0.
pub open spec fn chunks(s: Seq<char>, n: nat) -> Seq<Seq<char>>
    decreases s.len(),
{
    let m: nat = if n == 0 {
        1
    } else {
        n
    };
    if s.len() == 0 {
        Seq::empty()
    } else if s.len() <= m {
        seq![s]
    } else {
        seq![s.take(m as int)] + chunks(s.skip(m as int), n)
    }
}

/// True when `k` is a multiple of `m`.
pub open spec fn is_multiple(k: nat, m: nat) -> bool
    decreases k,
{
    if k == 0 {
        true
    } else if m == 0 || k < m {
        false
    } else {
        is_multiple((k - m) as nat, m)
    }
}

proof fn lemma_multiple_add(k: nat, m: nat)
    requires
        m > 0,
        is_multiple(k, m),
    ensures
        is_multiple(k + m, m),
    decreases k,
{
    if k > 0 {
        lemma_multiple_add((k - m) as nat, m);
    }
}

proof fn lemma_chunks_push(a: Seq<char>, b: Seq<char>, n: nat)
    requires
        is_multiple(a.len(), if n == 0 {
            1
        } else {
            n
        }),
        0 < b.len() <= (if n == 0 {
            1
        } else {
            n
        }),
    ensures
        chunks(a + b, n) == chunks(a, n).push(b),
    decreases a.len(),
{
    let m: nat = if n == 0 {
        1
    } else {
        n
    };
    if a.len() == 0 {
        assert(a + b =~= b);
        assert(chunks(a, n) =~= Seq::<Seq<char>>::empty());
        assert(chunks(b, n) =~= seq![b]);
    } else {
        let rest = a.skip(m as int);
        lemma_chunks_push(rest, b, n);
        assert((a + b).take(m as int) =~= a.take(m as int));
        assert((a + b).skip(m as int) =~= rest + b);
        if a.len() == m {
            assert(rest =~= Seq::<char>::empty());
            assert(chunks(rest, n) =~= Seq::<Seq<char>>::empty());
            assert(chunks(a, n) =~= seq![a]);
            assert(a.take(m as int) =~= a);
        } else {
            assert(chunks(a, n) == seq![a.take(m as int)] + chunks(rest, n));
        }
        assert(chunks(a + b, n) =~= seq![a.take(m as int)] + chunks(rest + b, n));
    }
}

/// `s` cut into pieces of `length` characters (`split_by_length`).
pub fn split_by_length(s: &str, length: usize) -> (r: Vec<String>)
    ensures
        views(r@) == chunks(s@, length as nat),
{
    let v: Vec<char> = chars_of(s);
    let ghost m: nat = if length == 0 {
        1
    } else {
        length as nat
    };
    let mut split: Vec<String> = Vec::new();
    let mut counter: usize = 0;
    let mut mutable_string: String = String::new();
    let ghost mut done: nat = 0;
    let mut i: usize = 0;
    while i < v.len()
        invariant
            i <= v@.len(),
            v@ == s@,
            m == (if length == 0 {
                1
            } else {
                length as nat
            }),
            done + counter == i,
            counter < m,
            is_multiple(done, m),
            views(split@) == chunks(v@.take(done as int), length as nat),
            mutable_string@ == v@.subrange(done as int, i as int),
        decreases v@.len() - i,
    {
        let ch: char = v[i];
        counter = counter + 1;
        push_char(&mut mutable_string, ch);
        assert(mutable_string@ =~= v@.subrange(done as int, i + 1));
        if counter >= length {
            proof {
                lemma_chunks_push(v@.take(done as int), mutable_string@, length as nat);
                assert(v@.take(done as int) + mutable_string@ =~= v@.take(i + 1));
                lemma_multiple_add(done, m);
            }
            let ghost before = views(split@);
            split.push(mutable_string.clone());
            assert(views(split@) =~= before.push(mutable_string@));
            mutable_string = String::new();
            counter = 0;
            proof {
                done = (i + 1) as nat;
            }
        }
        i = i + 1;
    }
    if !mutable_string.as_str().is_empty() {
        proof {
            lemma_chunks_push(v@.take(done as int), mutable_string@, length as nat);
            assert(v@.take(done as int) + mutable_string@ =~= v@);
        }
        let ghost before = views(split@);
        split.push(mutable_string);
        assert(views(split@) =~= before.push(v@.subrange(done as int, i as int)));
    } else {
        assert(v@.take(done as int) =~= v@);
    }
    split
}


/// `n` spaces.
pub open spec fn spaces(n: nat) -> Seq<char> {
    Seq::new(n, |_i: int| ' ')
}

/// The number of characters between the two ends of a line of `width`
/// characters.
pub open spec fn inner_width(width: nat) -> nat {
    if width >= 2 {
        (width - 2) as nat
    } else {
        0
    }
}

/// True when position `idx` of a line of `width` characters, counted from
/// the left end, separates two columns: a multiple of a third of the width,
/// other than the position before the right end.
pub open spec fn is_cut(width: nat, idx: int) -> bool {
    idx % ((width / 3) as int) == 0 && idx != width - 2
}

/// A line of `width` characters: `left`, horizontal lines, `right`.
pub open spec fn plain_line(width: nat, left: char, right: char) -> Seq<char> {
    seq![left] + Seq::new(inner_width(width), |_k: int| '─') + seq![right]
}

/// A line of `width` characters: `left`, horizontal lines with `tee` at the
/// column separations, `right`.
pub open spec fn cut_line(width: nat, left: char, tee: char, right: char) -> Seq<char> {
    seq![left] + Seq::new(
        inner_width(width),
        |k: int|
            if is_cut(width, k + 1) {
                tee
            } else {
                '─'
            },
    ) + seq![right]
}

/// The column widths read from positions 1 to `n` of a line of `width`
/// characters, and the width of the column still open.
pub open spec fn split_lengths_fold(width: nat, n: int) -> (Seq<usize>, nat)
    decreases n,
{
    if n <= 0 {
        (Seq::empty(), 0)
    } else {
        let (lens, len) = split_lengths_fold(width, n - 1);
        if is_cut(width, n) {
            (lens.push(len as usize), 0)
        } else {
            (lens, len + 1)
        }
    }
}

/// The widths of the columns of a line of `width` characters.
pub open spec fn split_lengths_spec(width: nat) -> Seq<usize> {
    let (lens, len) = split_lengths_fold(width, inner_width(width) as int);
    if len != 0 {
        lens.push(len as usize)
    } else {
        lens
    }
}

/// A line of `width` characters with the given ends and column separators.
pub fn line_text(width: usize, left: char, tee: char, right: char, cuts: bool) -> (r: String)
    requires
        width >= 1,
    ensures
        cuts ==> r@ == cut_line(width as nat, left, tee, right),
        !cuts ==> r@ == plain_line(width as nat, left, right),
{
    let mut line: String = String::new();
    push_char(&mut line, left);
    let split_count: usize = width / 3;
    let ghost body = if cuts {
        Seq::new(
            inner_width(width as nat),
            |k: int|
                if is_cut(width as nat, k + 1) {
                    tee
                } else {
                    '─'
                },
        )
    } else {
        Seq::new(inner_width(width as nat), |_k: int| '─')
    };
    let mut idx: usize = 1;
    while idx < width - 1
        invariant
            1 <= idx,
            width >= 1,
            idx <= width - 1 || (width == 1 && idx == 1),
            split_count == width / 3,
            body.len() == inner_width(width as nat),
            forall|k: int|
                0 <= k < body.len() ==> #[trigger] body[k] == if cuts && is_cut(width as nat, k + 1) {
                    tee
                } else {
                    '─'
                },
            line@ == seq![left] + body.take(idx - 1),
        decreases width - idx,
    {
        let c: char = if cuts && idx % split_count == 0 && idx != width - 2 {
            tee
        } else {
            '─'
        };
        push_char(&mut line, c);
        assert(body.take(idx as int) =~= body.take(idx - 1).push(c));
        idx = idx + 1;
    }
    assert(body.take(idx - 1) =~= body);
    push_char(&mut line, right);
    line
}

/// The widths of the columns of a line of `width` characters
/// (`get_split_lengths`).
pub fn split_lengths(width: usize) -> (r: Vec<usize>)
    requires
        width >= 1,
    ensures
        r@ == split_lengths_spec(width as nat),
{
    let split_count: usize = width / 3;
    let mut length: usize = 0;
    let mut split_lengths: Vec<usize> = Vec::new();
    let mut idx: usize = 1;
    while idx < width - 1
        invariant
            1 <= idx,
            idx <= width - 1 || (width == 1 && idx == 1),
            split_count == width / 3,
            length < idx,
            (split_lengths@, length as nat) == split_lengths_fold(width as nat, idx - 1),
        decreases width - idx,
    {
        if idx % split_count == 0 && idx != width - 2 {
            split_lengths.push(length);
            length = 0;
        } else {
            length = length + 1;
        }
        idx = idx + 1;
    }
    assert(idx - 1 == inner_width(width as nat));
    if length != 0 {
        split_lengths.push(length);
    }
    split_lengths
}

/// Rows joined by line breaks.
pub open spec fn rows_joined(rows: Seq<Seq<char>>) -> Seq<char>
    decreases rows.len(),
{
    if rows.len() == 0 {
        Seq::empty()
    } else if rows.len() == 1 {
        rows[0]
    } else {
        rows_joined(rows.drop_last()) + seq!['\n'] + rows.last()
    }
}

/// The label of a path row: `Path: [...]`.
pub open spec fn path_label(path: Seq<char>) -> Seq<char> {
    "Path: ["@ + path + "]"@
}

/// The pieces of the path label, each filling one row.
pub open spec fn path_pieces(path: Seq<char>, width: nat, padding: nat) -> Seq<Seq<char>> {
    chunks(path_label(path), (width - 2 * padding - 2) as nat)
}

/// A row of the path: the piece between a vertical line and padding on the
/// left and spaces and a vertical line and a space on the right, `width`
/// bytes of content in all.
pub open spec fn path_row(piece: Seq<char>, width: nat, padding: nat) -> Seq<char> {
    seq!['│'] + spaces(padding) + piece + spaces((width - utf8_len(piece) - padding - 2) as nat)
        + seq!['│', ' ']
}

/// The path rows of a table of `width` characters.
pub open spec fn path_text(path: Seq<char>, width: nat, padding: nat) -> Seq<char> {
    let pieces = path_pieces(path, width, padding);
    rows_joined(Seq::new(pieces.len(), |i: int| path_row(pieces[i], width, padding)))
}

/// The widths on which the path rows are written without panicking: the
/// padding fits, and each piece fits with it.
pub open spec fn path_fits(path: Seq<char>, width: nat, padding: nat) -> bool {
    2 * padding + 2 <= width && forall|i: int|
        0 <= i < path_pieces(path, width, padding).len() ==> utf8_len(
            #[trigger] path_pieces(path, width, padding)[i],
        ) + padding + 2 <= width
}

/// Appends `row` to `text`, after a line break unless it is the first row.
fn push_row(text: &mut String, row: &str, first: bool)
    ensures
        final(text)@ == if first {
            old(text)@ + row@
        } else {
            old(text)@ + seq!['\n'] + row@
        },
{
    if !first {
        push_char(text, '\n');
    }
    push_str(text, row);
}

/// The byte length of a string.
pub(crate) fn byte_len(s: &str) -> (r: usize)
    ensures
        r == utf8_len(s@),
{
    proof {
        crate::text::lemma_utf8_len(s@);
    }
    s.as_bytes().len()
}

pub proof fn lemma_rows_joined_push(rows: Seq<Seq<char>>, row: Seq<char>)
    ensures
        rows_joined(rows.push(row)) == if rows.len() == 0 {
            row
        } else {
            rows_joined(rows) + seq!['\n'] + row
        },
{
    assert(rows.push(row).drop_last() =~= rows);
    if rows.len() == 0 {
        assert(rows.push(row)[0] == row);
    }
}

/// The path rows of a table of `width` characters.
pub fn path_rows(path: &str, width: usize, padding: usize) -> (r: String)
    requires
        path_fits(path@, width as nat, padding as nat),
    ensures
        r@ == path_text(path@, width as nat, padding as nat),
{
    let mut label: String = String::from_str("Path: [");
    push_str(&mut label, path);
    push_str(&mut label, "]");
    proof {
        reveal_strlit("Path: [");
        reveal_strlit("]");
    }
    assert(label@ == path_label(path@));
    let length: usize = width - (padding * 2) - 2;
    let pieces: Vec<String> = split_by_length(label.as_str(), length);
    let ghost ps = path_pieces(path@, width as nat, padding as nat);
    let ghost rows = Seq::new(ps.len(), |i: int| path_row(ps[i], width as nat, padding as nat));
    let mut text: String = String::new();
    let mut idx: usize = 0;
    while idx < pieces.len()
        invariant
            idx <= pieces@.len(),
            views(pieces@) == ps,
            rows.len() == ps.len(),
            forall|i: int| 0 <= i < ps.len() ==> #[trigger] rows[i] == path_row(ps[i], width as nat, padding as nat),
            path_fits(path@, width as nat, padding as nat),
            ps == path_pieces(path@, width as nat, padding as nat),
            text@ == rows_joined(rows.take(idx as int)),
        decreases pieces@.len() - idx,
    {
        let piece: &str = pieces[idx].as_str();
        assert(piece@ == ps[idx as int]);
        let piece_len: usize = byte_len(piece);
        let mut row: String = String::new();
        push_char(&mut row, '│');
        push_repeat(&mut row, ' ', padding);
        push_str(&mut row, piece);
        push_repeat(&mut row, ' ', width - piece_len - padding - 2);
        push_char(&mut row, '│');
        push_char(&mut row, ' ');
        assert(row@ =~= path_row(ps[idx as int], width as nat, padding as nat));
        proof {
            lemma_rows_joined_push(rows.take(idx as int), row@);
            assert(rows.take(idx + 1) =~= rows.take(idx as int).push(row@));
        }
        push_row(&mut text, row.as_str(), idx == 0);
        idx = idx + 1;
    }
    assert(rows.take(idx as int) =~= rows);
    text
}


/// The three metadata labels: size, creation time and modification time.
pub open spec fn metadata_labels(size: Seq<char>, created: Seq<char>, modified: Seq<char>) -> Seq<
    Seq<char>,
> {
    seq!["Size: "@ + size, "Created: "@ + created, "Modified: "@ + modified]
}

/// The pieces of the three labels, each cut to the width of its column less
/// the padding on both sides.
pub open spec fn metadata_splits(labels: Seq<Seq<char>>, lens: Seq<usize>, padding: nat) -> Seq<
    Seq<Seq<char>>,
> {
    Seq::new(3, |i: int| chunks(labels[i], (lens[i] - 2 * padding) as nat))
}

/// The cell of a column on row `line`: its piece between padding and spaces
/// that fill the column, or spaces when the column has no piece left; a
/// vertical line on its right, and on its left too for the first column.
pub open spec fn cell_text(split: Seq<Seq<char>>, len: nat, padding: nat, first: bool, line: int) -> Seq<
    char,
> {
    (if first {
        seq!['│']
    } else {
        Seq::empty()
    }) + if line < split.len() {
        spaces(padding) + split[line] + spaces((len - utf8_len(split[line]) - padding) as nat)
    } else {
        spaces(len)
    } + seq!['│']
}

/// Row `line` of the metadata.
pub open spec fn metadata_row(splits: Seq<Seq<Seq<char>>>, lens: Seq<usize>, padding: nat, line: int) -> Seq<
    char,
> {
    cell_text(splits[0], lens[0] as nat, padding, true, line) + cell_text(
        splits[1],
        lens[1] as nat,
        padding,
        false,
        line,
    ) + cell_text(splits[2], lens[2] as nat, padding, false, line)
}

/// The number of metadata rows: as many as the column with the most pieces
/// has, at least one.
pub open spec fn metadata_row_count(splits: Seq<Seq<Seq<char>>>) -> nat {
    let a = splits[0].len();
    let b = splits[1].len();
    let c = splits[2].len();
    let m = if a >= b && a >= c {
        a
    } else if b >= c {
        b
    } else {
        c
    };
    if m == 0 {
        1
    } else {
        m
    }
}

/// The metadata rows of a table whose columns have the widths `lens`.
pub open spec fn metadata_text(labels: Seq<Seq<char>>, lens: Seq<usize>, padding: nat) -> Seq<char> {
    let splits = metadata_splits(labels, lens, padding);
    rows_joined(
        Seq::new(metadata_row_count(splits), |l: int| metadata_row(splits, lens, padding, l)),
    )
}

/// The column widths on which the metadata rows are written without
/// panicking: there are three columns, the padding fits in each, and each
/// piece fits with its padding.
pub open spec fn metadata_fits(labels: Seq<Seq<char>>, lens: Seq<usize>, padding: nat) -> bool {
    lens.len() >= 3 && forall|i: int|
        0 <= i < 3 ==> 2 * padding <= lens[i] && forall|j: int|
            0 <= j < metadata_splits(labels, lens, padding)[i].len() ==> utf8_len(
                #[trigger] metadata_splits(labels, lens, padding)[i][j],
            ) + padding <= lens[i]
}

/// Appends the cell of a column on row `line`.
fn push_cell(text: &mut String, split: &Vec<String>, len: usize, padding: usize, first: bool, line: usize)
    requires
        2 * padding <= len,
        forall|j: int| 0 <= j < split@.len() ==> utf8_len(#[trigger] split@[j]@) + padding <= len,
    ensures
        final(text)@ == old(text)@ + cell_text(views(split@), len as nat, padding as nat, first, line as int),
{
    let ghost start = text@;
    if first {
        push_char(text, '│');
    }
    let ghost mid = text@;
    if split.len() > line {
        let segment: &str = split[line].as_str();
        let segment_len: usize = byte_len(segment);
        push_repeat(text, ' ', padding);
        push_str(text, segment);
        push_repeat(text, ' ', len - segment_len - padding);
        assert(text@ =~= mid + spaces(padding as nat) + views(split@)[line as int] + spaces(
            (len - segment_len - padding) as nat,
        ));
    } else {
        push_repeat(text, ' ', len);
        assert(text@ =~= mid + spaces(len as nat));
    }
    push_char(text, '│');
    assert(text@ =~= old(text)@ + cell_text(views(split@), len as nat, padding as nat, first, line as int));
}

/// The metadata rows of a table whose columns have the widths `lens`.
pub fn metadata_rows(size: &str, created: &str, modified: &str, lens: &Vec<usize>, padding: usize) -> (r: String)
    requires
        metadata_fits(metadata_labels(size@, created@, modified@), lens@, padding as nat),
    ensures
        r@ == metadata_text(metadata_labels(size@, created@, modified@), lens@, padding as nat),
{
    let ghost labels = metadata_labels(size@, created@, modified@);
    let ghost splits_spec = metadata_splits(labels, lens@, padding as nat);
    let mut size_str: String = String::from_str("Size: ");
    push_str(&mut size_str, size);
    let mut created_str: String = String::from_str("Created: ");
    push_str(&mut created_str, created);
    let mut modified_str: String = String::from_str("Modified: ");
    push_str(&mut modified_str, modified);
    proof {
        reveal_strlit("Size: ");
        reveal_strlit("Created: ");
        reveal_strlit("Modified: ");
        assert(size_str@ == labels[0]);
        assert(created_str@ == labels[1]);
        assert(modified_str@ == labels[2]);
        assert(2 * padding <= lens@[0]);
        assert(2 * padding <= lens@[1]);
        assert(2 * padding <= lens@[2]);
    }
    let split_size: Vec<String> = split_by_length(size_str.as_str(), lens[0] - (padding * 2));
    let split_created: Vec<String> = split_by_length(created_str.as_str(), lens[1] - (padding * 2));
    let split_modified: Vec<String> = split_by_length(
        modified_str.as_str(),
        lens[2] - (padding * 2),
    );
    assert(views(split_size@) == splits_spec[0]);
    assert(views(split_created@) == splits_spec[1]);
    assert(views(split_modified@) == splits_spec[2]);
    proof {
        assert forall|j: int| 0 <= j < split_size@.len() implies utf8_len(#[trigger] split_size@[j]@)
            + padding <= lens@[0] by {
            assert(split_size@[j]@ == splits_spec[0][j]);
        }
        assert forall|j: int| 0 <= j < split_created@.len() implies utf8_len(
            #[trigger] split_created@[j]@,
        ) + padding <= lens@[1] by {
            assert(split_created@[j]@ == splits_spec[1][j]);
        }
        assert forall|j: int| 0 <= j < split_modified@.len() implies utf8_len(
            #[trigger] split_modified@[j]@,
        ) + padding <= lens@[2] by {
            assert(split_modified@[j]@ == splits_spec[2][j]);
        }
    }
    let a: usize = split_size.len();
    let b: usize = split_created.len();
    let c: usize = split_modified.len();
    let most: usize = if a >= b && a >= c {
        a
    } else if b >= c {
        b
    } else {
        c
    };
    let count: usize = if most == 0 {
        1
    } else {
        most
    };
    assert(count == metadata_row_count(splits_spec));
    let ghost rows = Seq::new(
        metadata_row_count(splits_spec),
        |l: int| metadata_row(splits_spec, lens@, padding as nat, l),
    );
    let mut text: String = String::new();
    let mut line: usize = 0;
    while line < count
        invariant
            line <= count,
            count == rows.len(),
            forall|l: int| 0 <= l < rows.len() ==> #[trigger] rows[l] == metadata_row(splits_spec, lens@, padding as nat, l),
            lens@.len() >= 3,
            2 * padding <= lens@[0],
            2 * padding <= lens@[1],
            2 * padding <= lens@[2],
            views(split_size@) == splits_spec[0],
            views(split_created@) == splits_spec[1],
            views(split_modified@) == splits_spec[2],
            forall|j: int| 0 <= j < split_size@.len() ==> utf8_len(#[trigger] split_size@[j]@) + padding <= lens@[0],
            forall|j: int| 0 <= j < split_created@.len() ==> utf8_len(#[trigger] split_created@[j]@) + padding <= lens@[1],
            forall|j: int| 0 <= j < split_modified@.len() ==> utf8_len(#[trigger] split_modified@[j]@) + padding <= lens@[2],
            text@ == rows_joined(rows.take(line as int)),
        decreases count - line,
    {
        let mut row: String = String::new();
        push_cell(&mut row, &split_size, lens[0], padding, true, line);
        push_cell(&mut row, &split_created, lens[1], padding, false, line);
        push_cell(&mut row, &split_modified, lens[2], padding, false, line);
        assert(row@ =~= rows[line as int]);
        proof {
            lemma_rows_joined_push(rows.take(line as int), row@);
            assert(rows.take(line + 1) =~= rows.take(line as int).push(row@));
        }
        push_row(&mut text, row.as_str(), line == 0);
        line = line + 1;
    }
    assert(rows.take(line as int) =~= rows);
    text
}


/// True when the path rows of a table of `width` characters are written
/// without panicking.
pub fn path_fits_check(path: &str, width: usize, padding: usize) -> (r: bool)
    ensures
        r == path_fits(path@, width as nat, padding as nat),
{
    if width < 2 || padding > (width - 2) / 2 {
        return false;
    }
    let mut label: String = String::from_str("Path: [");
    push_str(&mut label, path);
    push_str(&mut label, "]");
    proof {
        reveal_strlit("Path: [");
        reveal_strlit("]");
    }
    assert(label@ == path_label(path@));
    let length: usize = width - (padding * 2) - 2;
    let pieces: Vec<String> = split_by_length(label.as_str(), length);
    let ghost ps = path_pieces(path@, width as nat, padding as nat);
    let mut i: usize = 0;
    while i < pieces.len()
        invariant
            i <= pieces@.len(),
            views(pieces@) == ps,
            ps == path_pieces(path@, width as nat, padding as nat),
            2 * padding + 2 <= width,
            forall|j: int| 0 <= j < i ==> utf8_len(#[trigger] ps[j]) + padding + 2 <= width,
        decreases pieces@.len() - i,
    {
        let n: usize = byte_len(pieces[i].as_str());
        assert(pieces@[i as int]@ == ps[i as int]);
        if n > width - padding - 2 {
            assert(utf8_len(path_pieces(path@, width as nat, padding as nat)[i as int]) + padding
                + 2 > width);
            return false;
        }
        i = i + 1;
    }
    true
}

/// True when the metadata rows of a table whose columns have the widths
/// `lens` are written without panicking.
pub fn metadata_fits_check(
    size: &str,
    created: &str,
    modified: &str,
    lens: &Vec<usize>,
    padding: usize,
) -> (r: bool)
    ensures
        r == metadata_fits(metadata_labels(size@, created@, modified@), lens@, padding as nat),
{
    let ghost labels = metadata_labels(size@, created@, modified@);
    let ghost splits_spec = metadata_splits(labels, lens@, padding as nat);
    if lens.len() < 3 {
        return false;
    }
    let mut size_str: String = String::from_str("Size: ");
    push_str(&mut size_str, size);
    let mut created_str: String = String::from_str("Created: ");
    push_str(&mut created_str, created);
    let mut modified_str: String = String::from_str("Modified: ");
    push_str(&mut modified_str, modified);
    proof {
        reveal_strlit("Size: ");
        reveal_strlit("Created: ");
        reveal_strlit("Modified: ");
    }
    let labels_exec: [&str; 3] = [size_str.as_str(), created_str.as_str(), modified_str.as_str()];
    assert(labels_exec@[0]@ == labels[0]);
    assert(labels_exec@[1]@ == labels[1]);
    assert(labels_exec@[2]@ == labels[2]);
    let mut i: usize = 0;
    while i < 3
        invariant
            i <= 3,
            labels == metadata_labels(size@, created@, modified@),
            lens@.len() >= 3,
            splits_spec == metadata_splits(labels, lens@, padding as nat),
            forall|k: int| 0 <= k < 3 ==> (#[trigger] labels_exec@[k])@ == labels[k],
            forall|k: int|
                0 <= k < i ==> 2 * padding <= lens@[k] && forall|j: int|
                    0 <= j < splits_spec[k].len() ==> utf8_len(#[trigger] splits_spec[k][j])
                        + padding <= lens@[k],
        decreases 3 - i,
    {
        let len: usize = lens[i];
        if padding > len / 2 {
            assert(!(2 * padding <= lens@[i as int]));
            return false;
        }
        let pieces: Vec<String> = split_by_length(labels_exec[i], len - (padding * 2));
        assert(views(pieces@) == splits_spec[i as int]);
        let mut j: usize = 0;
        while j < pieces.len()
            invariant
                i < 3,
                labels == metadata_labels(size@, created@, modified@),
                lens@.len() >= 3,
                splits_spec == metadata_splits(labels, lens@, padding as nat),
                len == lens@[i as int],
                2 * padding <= len,
                j <= pieces@.len(),
                views(pieces@) == splits_spec[i as int],
                forall|q: int| 0 <= q < j ==> utf8_len(#[trigger] splits_spec[i as int][q]) + padding
                    <= len,
            decreases pieces@.len() - j,
        {
            let n: usize = byte_len(pieces[j].as_str());
            assert(pieces@[j as int]@ == splits_spec[i as int][j as int]);
            if n > len - padding {
                assert(utf8_len(metadata_splits(labels, lens@, padding as nat)[i as int][j as int])
                    + padding > lens@[i as int]);
                return false;
            }
            j = j + 1;
        }
        i = i + 1;
    }
    true
}

/// The header padding on each side: half of what the table's width leaves
/// beside the header, none for an empty header or one as wide as the table.
pub open spec fn header_padding(len: nat, width: nat) -> nat {
    if len == 0 || len >= width {
        0
    } else {
        ((width - len) / 2) as nat
    }
}

/// The header centred in `width` bytes: padding, the header, padding, and one
/// more space when the widths do not divide evenly.
pub open spec fn padded_header(header: Seq<char>, width: nat) -> Seq<char> {
    let p = header_padding(utf8_len(header), width);
    spaces(p) + header + spaces(p) + if (utf8_len(header) + width) % 2 == 1 {
        seq![' ']
    } else {
        Seq::empty()
    }
}

/// The colours of a header: black on yellow.
pub open spec fn header_colours() -> Seq<char> {
    YellowBackgroundANSI.spec_value() + BlackANSI.spec_value()
}

/// What a file information table writes for a file: its frame, the path
/// rows and the metadata rows.
pub open spec fn table_text(
    path: Seq<char>,
    size: Seq<char>,
    created: Seq<char>,
    modified: Seq<char>,
    width: nat,
    padding: nat,
) -> Seq<char> {
    plain_line(width, '┌', '┐') + seq!['\n'] + path_text(path, width, padding) + seq!['\n']
        + cut_line(width, '├', '┬', '┤') + seq!['\n'] + metadata_text(
        metadata_labels(size, created, modified),
        split_lengths_spec(width),
        padding,
    ) + seq!['\n'] + cut_line(width, '└', '┴', '┘') + seq!['\n']
}

/// The widths on which a file information table is written without
/// panicking.
pub open spec fn table_fits(
    path: Seq<char>,
    size: Seq<char>,
    created: Seq<char>,
    modified: Seq<char>,
    width: nat,
    padding: nat,
) -> bool {
    width >= 1 && path_fits(path, width, padding) && metadata_fits(
        metadata_labels(size, created, modified),
        split_lengths_spec(width),
        padding,
    )
}

/// A table of the information on a found file. Widths are in characters of
/// the terminal, already scaled to the part of the terminal the table takes.
pub struct FileInfoTable {
    terminal: Terminal,
    padding: usize,
}

impl FileInfoTable {
    /// What has been written and not yet taken.
    pub closed spec fn output(&self) -> Seq<char> {
        self.terminal.output()
    }

    /// The padding inside the cells.
    pub closed spec fn padding(&self) -> nat {
        self.padding as nat
    }

    /// A table with the given padding inside its cells.
    pub fn new(padding: usize) -> (r: Self)
        ensures
            r.output() == Seq::<char>::empty(),
            r.padding() == padding,
    {
        FileInfoTable { terminal: Terminal::new(), padding }
    }

    /// Writes the header centred in `width`, black on yellow.
    pub fn print_header(&mut self, header: &str, width: usize)
        requires
            utf8_len(header@) + width <= usize::MAX,
        ensures
            final(self).padding() == old(self).padding(),
            final(self).output() == old(self).output() + painted(
                header_colours(),
                padded_header(header@, width as nat),
            ) + seq!['\n'],
    {
        let padded_header: String = self.get_padded_header(header, width);
        let header_ansi: CombinedANSI = self.get_header_ansi();
        self.terminal.writeln_ansi(padded_header.as_str(), &header_ansi);
    }

    /// Writes the table of `file_info`, `width` characters wide.
    pub fn print(&mut self, width: usize, file_info: &FileInfo)
        requires
            table_fits(
                file_info.path_view(),
                file_info.size_view(),
                file_info.created_view(),
                file_info.modified_view(),
                width as nat,
                old(self).padding(),
            ),
        ensures
            final(self).padding() == old(self).padding(),
            final(self).output() == old(self).output() + table_text(
                file_info.path_view(),
                file_info.size_view(),
                file_info.created_view(),
                file_info.modified_view(),
                width as nat,
                old(self).padding(),
            ),
    {
        let ghost start = self.output();
        self.print_top_line(width);
        self.terminal.write_raw("\n");
        proof {
            reveal_strlit("\n");
        }
        self.print_path(width, file_info);
        self.terminal.write_raw("\n");
        self.print_mid_line(width);
        self.terminal.write_raw("\n");
        self.print_metadata(width, file_info);
        self.terminal.write_raw("\n");
        self.print_bottom_line(width);
        self.terminal.write_raw("\n");
        assert(self.output() =~= start + table_text(
            file_info.path_view(),
            file_info.size_view(),
            file_info.created_view(),
            file_info.modified_view(),
            width as nat,
            self.padding(),
        ));
    }

    /// True when `print` writes the table of `file_info` without panicking.
    pub fn fits(&self, width: usize, file_info: &FileInfo) -> (r: bool)
        ensures
            r == table_fits(
                file_info.path_view(),
                file_info.size_view(),
                file_info.created_view(),
                file_info.modified_view(),
                width as nat,
                self.padding(),
            ),
    {
        if width < 1 {
            return false;
        }
        let lens: Vec<usize> = split_lengths(width);
        let size: String = file_info.get_formatted_size();
        let created: String = file_info.get_formatted_creation_time();
        let modified: String = file_info.get_formatted_modified_time();
        path_fits_check(file_info.get_path(), width, self.padding) && metadata_fits_check(
            size.as_str(),
            created.as_str(),
            modified.as_str(),
            &lens,
            self.padding,
        )
    }

    /// Takes what has been written, leaving the output empty.
    pub fn take_output(&mut self) -> (r: String)
        ensures
            r@ == old(self).output(),
            final(self).output() == Seq::<char>::empty(),
            final(self).padding() == old(self).padding(),
    {
        self.terminal.take_output()
    }

    fn get_split_lengths(&self, width: usize) -> (r: Vec<usize>)
        requires
            width >= 1,
        ensures
            r@ == split_lengths_spec(width as nat),
    {
        split_lengths(width)
    }

    fn get_header_padding_length(&self, header: &str, width: usize) -> (r: usize)
        ensures
            r == header_padding(utf8_len(header@), width as nat),
    {
        let len: usize = byte_len(header);
        if len == 0 || len >= width {
            return 0;
        }
        let total_padding: usize = width - len;
        total_padding / 2
    }

    fn get_padded_header(&self, header: &str, width: usize) -> (r: String)
        requires
            utf8_len(header@) + width <= usize::MAX,
        ensures
            r@ == padded_header(header@, width as nat),
    {
        let padding_length: usize = self.get_header_padding_length(header, width);
        let len: usize = byte_len(header);
        let mut padded: String = String::new();
        push_repeat(&mut padded, ' ', padding_length);
        push_str(&mut padded, header);
        push_repeat(&mut padded, ' ', padding_length);
        if (len + width) % 2 == 1 {
            push_char(&mut padded, ' ');
        }
        assert(padded@ =~= padded_header(header@, width as nat));
        padded
    }

    fn get_header_ansi(&self) -> (r: CombinedANSI)
        ensures
            r.spec_value() == header_colours(),
    {
        YellowBackgroundANSI.combine(&BlackANSI)
    }

    fn print_top_line(&mut self, width: usize)
        requires
            width >= 1,
        ensures
            final(self).padding() == old(self).padding(),
            final(self).output() == old(self).output() + plain_line(width as nat, '┌', '┐'),
    {
        let top_left: char = TableCharacter::TopLeft.as_char();
        let top_right: char = TableCharacter::TopRight.as_char();
        let line: String = line_text(width, top_left, top_left, top_right, false);
        self.terminal.write_raw(line.as_str());
    }

    fn print_mid_line(&mut self, width: usize)
        requires
            width >= 1,
        ensures
            final(self).padding() == old(self).padding(),
            final(self).output() == old(self).output() + cut_line(width as nat, '├', '┬', '┤'),
    {
        let mid_left: char = TableCharacter::MidLeftT.as_char();
        let top_t: char = TableCharacter::TopT.as_char();
        let mid_right: char = TableCharacter::MidRightT.as_char();
        let line: String = line_text(width, mid_left, top_t, mid_right, true);
        self.terminal.write_raw(line.as_str());
    }

    fn print_bottom_line(&mut self, width: usize)
        requires
            width >= 1,
        ensures
            final(self).padding() == old(self).padding(),
            final(self).output() == old(self).output() + cut_line(width as nat, '└', '┴', '┘'),
    {
        let bottom_left: char = TableCharacter::BottomLeft.as_char();
        let bottom_t: char = TableCharacter::BottomT.as_char();
        let bottom_right: char = TableCharacter::BottomRight.as_char();
        let line: String = line_text(width, bottom_left, bottom_t, bottom_right, true);
        self.terminal.write_raw(line.as_str());
    }

    fn print_path(&mut self, width: usize, file_info: &FileInfo)
        requires
            path_fits(file_info.path_view(), width as nat, old(self).padding()),
        ensures
            final(self).padding() == old(self).padding(),
            final(self).output() == old(self).output() + path_text(
                file_info.path_view(),
                width as nat,
                old(self).padding(),
            ),
    {
        let rows: String = path_rows(file_info.get_path(), width, self.padding);
        self.terminal.write_raw(rows.as_str());
    }

    fn print_metadata(&mut self, width: usize, file_info: &FileInfo)
        requires
            width >= 1,
            metadata_fits(
                metadata_labels(
                    file_info.size_view(),
                    file_info.created_view(),
                    file_info.modified_view(),
                ),
                split_lengths_spec(width as nat),
                old(self).padding(),
            ),
        ensures
            final(self).padding() == old(self).padding(),
            final(self).output() == old(self).output() + metadata_text(
                metadata_labels(
                    file_info.size_view(),
                    file_info.created_view(),
                    file_info.modified_view(),
                ),
                split_lengths_spec(width as nat),
                old(self).padding(),
            ),
    {
        let size: String = file_info.get_formatted_size();
        let created: String = file_info.get_formatted_creation_time();
        let modified: String = file_info.get_formatted_modified_time();
        let split_lengths: Vec<usize> = self.get_split_lengths(width);
        let rows: String = metadata_rows(
            size.as_str(),
            created.as_str(),
            modified.as_str(),
            &split_lengths,
            self.padding,
        );
        self.terminal.write_raw(rows.as_str());
    }

    fn split_by_length(&self, string: &str, length: usize) -> (r: Vec<String>)
        ensures
            views(r@) == chunks(string@, length as nat),
    {
        split_by_length(string, length)
    }
}

} // verus!
