//! A console that redraws text in place: it keeps track of the cursor's row
//! and of what each row shows, and writes only what changed. What it writes
//! is collected, in order, in its output.
use vstd::prelude::*;

use crate::text::{chars_of, decimal, lines_of, lines_seq, push_char, push_str, push_usize, views};

verus! {

/// A control sequence `ESC [ n c`.
pub open spec fn csi_text(n: nat, c: char) -> Seq<char> {
    seq!['\x1B', '['] + decimal(n) + seq![c]
}

/// `n` line breaks.
pub open spec fn line_breaks(n: nat) -> Seq<char> {
    Seq::new(n, |_i: int| '\n')
}

/// The highest row reached and the text written when the cursor at row
/// `cursor` moves down `n` rows below a highest row `max`: new rows are
/// made with line breaks, existing rows are reached with a cursor move.
pub open spec fn down_effect(cursor: nat, max: nat, n: nat) -> (nat, Seq<char>) {
    if cursor + n > max {
        (cursor + n, line_breaks(n))
    } else {
        (max, csi_text(n, 'B'))
    }
}

/// The highest row reached and the text written when the cursor at row
/// `cursor` moves to `column` of `row`.
pub open spec fn move_effect(cursor: nat, max: nat, column: nat, row: nat) -> (nat, Seq<char>) {
    let (m, t) = if row > cursor {
        down_effect(cursor, max, (row - cursor) as nat)
    } else if cursor > row {
        (max, csi_text((cursor - row) as nat, 'A'))
    } else {
        (max, Seq::empty())
    };
    (m, t + csi_text(column + 1, 'G'))
}

/// The number of line breaks in `s`.
pub open spec fn count_breaks(s: Seq<char>) -> nat
    decreases s.len(),
{
    if s.len() == 0 {
        0
    } else {
        count_breaks(s.drop_last()) + if s.last() == '\n' {
            1nat
        } else {
            0nat
        }
    }
}

/// A console: the row of its cursor, the highest row it reached, and what it
/// wrote.
pub struct Console {
    cursor_row: usize,
    max_row: usize,
    output: String,
}

impl Console {
    /// The row of the cursor.
    pub closed spec fn cursor(&self) -> nat {
        self.cursor_row as nat
    }

    /// The highest row reached.
    pub closed spec fn max(&self) -> nat {
        self.max_row as nat
    }

    /// What has been written and not yet taken.
    pub closed spec fn output(&self) -> Seq<char> {
        self.output@
    }

    /// A console at row 0 with nothing written.
    pub fn new() -> (r: Self)
        ensures
            r.cursor() == 0,
            r.max() == 0,
            r.output() == Seq::<char>::empty(),
    {
        Console { cursor_row: 0, max_row: 0, output: String::new() }
    }

    /// Hides the cursor.
    pub fn hide_cursor(&mut self)
        ensures
            final(self).cursor() == old(self).cursor(),
            final(self).max() == old(self).max(),
            final(self).output() == old(self).output() + "\x1B[?25l"@,
    {
        push_str(&mut self.output, "\x1B[?25l");
    }

    /// Shows the cursor.
    pub fn show_cursor(&mut self)
        ensures
            final(self).cursor() == old(self).cursor(),
            final(self).max() == old(self).max(),
            final(self).output() == old(self).output() + "\x1B[?25h"@,
    {
        push_str(&mut self.output, "\x1B[?25h");
    }

    /// Makes the cursor blink.
    pub fn blink_cursor_on(&mut self)
        ensures
            final(self).cursor() == old(self).cursor(),
            final(self).max() == old(self).max(),
            final(self).output() == old(self).output() + "\x1B[?12h"@,
    {
        push_str(&mut self.output, "\x1B[?12h");
    }

    /// Stops the cursor blinking.
    pub fn blink_cursor_off(&mut self)
        ensures
            final(self).cursor() == old(self).cursor(),
            final(self).max() == old(self).max(),
            final(self).output() == old(self).output() + "\x1B[?12l"@,
    {
        push_str(&mut self.output, "\x1B[?12l");
    }

    /// Turns line wrapping on.
    pub fn enable_line_wrapping(&mut self)
        ensures
            final(self).cursor() == old(self).cursor(),
            final(self).max() == old(self).max(),
            final(self).output() == old(self).output() + "\x1B[?7h"@,
    {
        push_str(&mut self.output, "\x1B[?7h");
    }

    /// Turns line wrapping off.
    pub fn disable_line_wrapping(&mut self)
        ensures
            final(self).cursor() == old(self).cursor(),
            final(self).max() == old(self).max(),
            final(self).output() == old(self).output() + "\x1B[?7l"@,
    {
        push_str(&mut self.output, "\x1B[?7l");
    }

    /// Writes `string`; each line break moves the cursor a row down.
    pub fn write_string(&mut self, string: &str)
        requires
            old(self).cursor() + count_breaks(string@) <= usize::MAX,
        ensures
            final(self).cursor() == old(self).cursor() + count_breaks(string@),
            final(self).max() == old(self).max(),
            final(self).output() == old(self).output() + string@,
    {
        let v: Vec<char> = chars_of(string);
        let mut i: usize = 0;
        while i < v.len()
            invariant
                i <= v@.len(),
                v@ == string@,
                old(self).cursor() + count_breaks(string@) <= usize::MAX,
                self.cursor() == old(self).cursor() + count_breaks(v@.take(i as int)),
                self.max() == old(self).max(),
                self.output() == old(self).output() + v@.take(i as int),
            decreases v@.len() - i,
        {
            proof {
                assert(v@.take(i + 1).drop_last() =~= v@.take(i as int));
                lemma_count_breaks_prefix(v@, i + 1);
            }
            self.write_character(v[i]);
            assert(self.output() =~= old(self).output() + v@.take(i + 1));
            i = i + 1;
        }
        assert(v@.take(i as int) =~= v@);
    }

    /// Writes `character`; a line break moves the cursor a row down.
    pub fn write_character(&mut self, character: char)
        requires
            character == '\n' ==> old(self).cursor() < usize::MAX,
        ensures
            final(self).cursor() == old(self).cursor() + if character == '\n' {
                1nat
            } else {
                0nat
            },
            final(self).max() == old(self).max(),
            final(self).output() == old(self).output().push(character),
    {
        if character == '\n' {
            self.cursor_row = self.cursor_row + 1;
        }
        push_char(&mut self.output, character);
    }

    /// Clears row `row` right of `column`.
    pub fn clear_right_of(&mut self, column: usize, row: usize)
        requires
            column < usize::MAX,
        ensures
            final(self).cursor() == row,
            final(self).max() == move_effect(old(self).cursor(), old(self).max(), column as nat, row as nat).0,
            final(self).output() == old(self).output() + move_effect(
                old(self).cursor(),
                old(self).max(),
                column as nat,
                row as nat,
            ).1 + "\x1B[0K"@,
    {
        self.move_to(column, row);
        push_str(&mut self.output, "\x1B[0K");
    }

    /// Clears row `row`.
    pub fn clear_row(&mut self, row: usize)
        ensures
            final(self).cursor() == row,
            final(self).max() == move_effect(old(self).cursor(), old(self).max(), 0, row as nat).0,
            final(self).output() == old(self).output() + move_effect(
                old(self).cursor(),
                old(self).max(),
                0,
                row as nat,
            ).1 + "\x1B[2K"@,
    {
        self.move_to(0, row);
        push_str(&mut self.output, "\x1B[2K");
    }

    /// Moves the cursor `n` rows up, to row 0 at most.
    pub fn move_cursor_up(&mut self, n: usize)
        ensures
            final(self).cursor() == if n > old(self).cursor() {
                0
            } else {
                (old(self).cursor() - n) as nat
            },
            final(self).max() == old(self).max(),
            final(self).output() == old(self).output() + csi_text(n as nat, 'A'),
    {
        if n > self.cursor_row {
            self.cursor_row = 0;
        } else {
            self.cursor_row = self.cursor_row - n;
        }
        proof {
            reveal_strlit("\x1B[");
        }
        push_str(&mut self.output, "\x1B[");
        push_usize(&mut self.output, n);
        push_char(&mut self.output, 'A');
        assert(self.output@ =~= old(self).output() + csi_text(n as nat, 'A'));
    }

    /// Moves the cursor `n` rows down; rows below the highest one are made
    /// with line breaks.
    pub fn move_cursor_down(&mut self, n: usize)
        requires
            old(self).cursor() + n <= usize::MAX,
        ensures
            final(self).cursor() == old(self).cursor() + n,
            final(self).max() == down_effect(old(self).cursor(), old(self).max(), n as nat).0,
            final(self).output() == old(self).output() + down_effect(
                old(self).cursor(),
                old(self).max(),
                n as nat,
            ).1,
    {
        self.cursor_row = self.cursor_row + n;
        if self.cursor_row > self.max_row {
            self.max_row = self.cursor_row;
            let mut breaks: String = String::new();
            let mut i: usize = 0;
            while i < n
                invariant
                    i <= n,
                    breaks@ == line_breaks(i as nat),
                decreases n - i,
            {
                push_char(&mut breaks, '\n');
                assert(breaks@ =~= line_breaks((i + 1) as nat));
                i = i + 1;
            }
            push_str(&mut self.output, breaks.as_str());
        } else {
            proof {
            reveal_strlit("\x1B[");
        }
        push_str(&mut self.output, "\x1B[");
            push_usize(&mut self.output, n);
            push_char(&mut self.output, 'B');
            assert(self.output@ =~= old(self).output() + csi_text(n as nat, 'B'));
        }
    }

    /// Moves the cursor to `column` of `row`.
    pub fn move_to(&mut self, column: usize, row: usize)
        requires
            column < usize::MAX,
        ensures
            final(self).cursor() == row,
            final(self).max() == move_effect(old(self).cursor(), old(self).max(), column as nat, row as nat).0,
            final(self).output() == old(self).output() + move_effect(
                old(self).cursor(),
                old(self).max(),
                column as nat,
                row as nat,
            ).1,
    {
        if row > self.cursor_row {
            let cursor_move: usize = row - self.cursor_row;
            self.move_cursor_down(cursor_move);
        } else if self.cursor_row > row {
            let cursor_move: usize = self.cursor_row - row;
            self.move_cursor_up(cursor_move);
        }
        let ghost mid = self.output@;
        proof {
            reveal_strlit("\x1B[");
        }
        push_str(&mut self.output, "\x1B[");
        push_usize(&mut self.output, column + 1);
        push_char(&mut self.output, 'G');
        assert(self.output@ =~= mid + csi_text((column + 1) as nat, 'G'));
        assert(self.output@ =~= old(self).output() + move_effect(
            old(self).cursor(),
            old(self).max(),
            column as nat,
            row as nat,
        ).1);
    }

    /// Moves the cursor to the start of the row below the highest one.
    pub fn move_to_new_row(&mut self)
        requires
            old(self).max() < usize::MAX,
        ensures
            final(self).cursor() == old(self).max() + 1,
            final(self).max() == move_effect(old(self).cursor(), old(self).max(), 0, old(self).max() + 1).0,
            final(self).output() == old(self).output() + move_effect(
                old(self).cursor(),
                old(self).max(),
                0,
                old(self).max() + 1,
            ).1,
    {
        let row: usize = self.max_row + 1;
        self.move_to(0, row);
    }

    /// Takes what has been written, leaving the output empty.
    pub fn take_output(&mut self) -> (r: String)
        ensures
            r@ == old(self).output(),
            final(self).output() == Seq::<char>::empty(),
            final(self).cursor() == old(self).cursor(),
            final(self).max() == old(self).max(),
    {
        let out: String = self.output.clone();
        self.output = String::new();
        out
    }
}

proof fn lemma_count_breaks_prefix(s: Seq<char>, i: int)
    requires
        0 <= i <= s.len(),
    ensures
        count_breaks(s.take(i)) <= count_breaks(s),
    decreases s.len() - i,
{
    if i < s.len() {
        lemma_count_breaks_prefix(s, i + 1);
        assert(s.take(i + 1).drop_last() =~= s.take(i));
    } else {
        assert(s.take(i) =~= s);
    }
}


/// The characters of `segment` that a row showing `previous` must change,
/// with their columns, among the first `n`: those that differ from the
/// character at their column, and those beyond its end.
pub open spec fn changes_upto(segment: Seq<char>, previous: Seq<char>, n: int) -> Seq<(char, nat)>
    decreases n,
{
    if n <= 0 {
        Seq::empty()
    } else {
        let prev = changes_upto(segment, previous, n - 1);
        let idx = n - 1;
        if idx < previous.len() && segment[idx] == previous[idx] {
            prev
        } else {
            prev.push((segment[idx], idx as nat))
        }
    }
}

/// The changes that bring a row showing `previous` to `segment`.
pub open spec fn char_changes(segment: Seq<char>, previous: Seq<char>) -> Seq<(char, nat)> {
    changes_upto(segment, previous, segment.len() as int)
}

/// What the console holds: cursor row, highest row, text written.
pub type ConsoleState = (nat, nat, Seq<char>);

/// The console after writing `changes` in row `row`: each changed character
/// is written at its column.
pub open spec fn changes_effect(st: ConsoleState, changes: Seq<(char, nat)>, row: nat) -> ConsoleState
    decreases changes.len(),
{
    if changes.len() == 0 {
        st
    } else {
        let (c1, m1, t1) = changes_effect(st, changes.drop_last(), row);
        let (ch, col) = changes.last();
        let (m2, t2) = move_effect(c1, m1, col, row);
        (row, m2, t1 + t2 + seq![ch])
    }
}

/// The rows shown: each row's text and its number of characters.
pub type Rows = Seq<(Seq<char>, nat)>;

/// The console and rows after writing `segment` in row `row`: the changes
/// are written, the row is recorded, and the rest of the row is cleared.
pub open spec fn row_effect(st: ConsoleState, rows: Rows, segment: Seq<char>, row: nat) -> (ConsoleState, Rows) {
    let previous = if row < rows.len() {
        rows[row as int].0
    } else {
        Seq::empty()
    };
    let (c1, m1, t1) = changes_effect(st, char_changes(segment, previous), row);
    let rows2 = if row >= rows.len() {
        rows.push((segment, segment.len()))
    } else {
        rows.update(row as int, (segment, segment.len()))
    };
    let (m2, t2) = move_effect(c1, m1, segment.len(), row);
    ((row, m2, t1 + t2 + "\x1B[0K"@), rows2)
}

/// The console and rows after writing the first `n` of `lines`, one per
/// row from row 0.
pub open spec fn lines_effect(st: ConsoleState, rows: Rows, lines: Seq<Seq<char>>, n: int) -> (ConsoleState, Rows)
    decreases n,
{
    if n <= 0 {
        (st, rows)
    } else {
        let (s1, r1) = lines_effect(st, rows, lines, n - 1);
        row_effect(s1, r1, lines[n - 1], (n - 1) as nat)
    }
}

/// The console after clearing rows `to - 1` down to `from`.
pub open spec fn clear_rows_effect(st: ConsoleState, from: int, to: int) -> ConsoleState
    decreases to - from,
{
    if to <= from {
        st
    } else {
        let (c, m, t) = st;
        let (m2, t2) = move_effect(c, m, 0, (to - 1) as nat);
        clear_rows_effect(((to - 1) as nat, m2, t + t2 + "\x1B[2K"@), from, to - 1)
    }
}

/// The console and rows after `write`: the cursor is hidden, each line of
/// the text is written in its row, and rows below the last line are
/// cleared and forgotten.
pub open spec fn write_effect(st: ConsoleState, rows: Rows, text: Seq<char>) -> (ConsoleState, Rows) {
    let lines = lines_seq(text);
    let (c, m, t) = st;
    let (s1, r1) = lines_effect((c, m, t + "\x1B[?25l"@), rows, lines, lines.len() as int);
    if lines.len() < r1.len() {
        (clear_rows_effect(s1, lines.len() as int, r1.len() as int), r1.take(lines.len() as int))
    } else {
        (s1, r1)
    }
}

/// Writes text to the console, redrawing only the characters that changed
/// since the last text.
pub struct ConsoleWriter {
    console: Console,
    row_data: Vec<(String, usize)>,
}

/// The view of recorded rows.
pub open spec fn rows_view(rows: Seq<(String, usize)>) -> Rows {
    rows.map_values(|r: (String, usize)| (r.0@, r.1 as nat))
}

impl ConsoleWriter {
    /// The console: cursor row, highest row and what it wrote.
    pub closed spec fn state(&self) -> ConsoleState {
        (self.console.cursor(), self.console.max(), self.console.output())
    }

    /// The rows shown.
    pub closed spec fn rows(&self) -> Rows {
        rows_view(self.row_data@)
    }

    /// A writer with nothing shown; line wrapping is turned off.
    pub fn new() -> (r: Self)
        ensures
            r.state() == (0nat, 0nat, "\x1B[?7l"@),
            r.rows() == Seq::<(Seq<char>, nat)>::empty(),
    {
        let mut console: Console = Console::new();
        console.disable_line_wrapping();
        let r = ConsoleWriter { console, row_data: Vec::new() };
        assert(r.rows() =~= Seq::<(Seq<char>, nat)>::empty());
        assert(r.state().2 =~= "\x1B[?7l"@);
        r
    }

    /// Writes `string`, redrawing only what changed since the last text.
    pub fn write(&mut self, string: &str)
        requires
            string@.len() < usize::MAX,
        ensures
            (final(self).state(), final(self).rows()) == write_effect(old(self).state(), old(self).rows(), string@),
    {
        self.write_to_console(string);
    }

    /// Clears every row shown and forgets them.
    pub fn clear_all(&mut self)
        ensures
            final(self).state() == clear_rows_effect(old(self).state(), 0, old(self).rows().len() as int),
            final(self).rows() == Seq::<(Seq<char>, nat)>::empty(),
    {
        self.clear_lines();
    }

    /// Takes what the console wrote, leaving its output empty.
    pub fn take_output(&mut self) -> (r: String)
        ensures
            r@ == old(self).state().2,
            final(self).state() == (old(self).state().0, old(self).state().1, Seq::<char>::empty()),
            final(self).rows() == old(self).rows(),
    {
        self.console.take_output()
    }

    fn set_row_data(&mut self, segment: &str, row: usize)
        requires
            row <= old(self).rows().len(),
        ensures
            final(self).state() == old(self).state(),
            final(self).rows() == if row >= old(self).rows().len() {
                old(self).rows().push((segment@, segment@.len()))
            } else {
                old(self).rows().update(row as int, (segment@, segment@.len()))
            },
    {
        let segment_length: usize = chars_of(segment).len();
        let data: (String, usize) = (String::from_str(segment), segment_length);
        let ghost dv = (segment@, segment_length as nat);
        if row >= self.row_data.len() {
            self.row_data.push(data);
            assert(self.rows() =~= old(self).rows().push(dv));
        } else {
            self.row_data.set(row, data);
            assert(self.rows() =~= old(self).rows().update(row as int, dv));
        }
    }

    fn get_char_changes(&self, segment: &str, previous_segment: &str) -> (r: Vec<(char, usize)>)
        ensures
            r@.map_values(|c: (char, usize)| (c.0, c.1 as nat)) == char_changes(segment@, previous_segment@),
            forall|k: int| 0 <= k < r@.len() ==> (#[trigger] r@[k]).1 < segment@.len(),
            forall|k: int| 0 <= k < r@.len() ==> (#[trigger] r@[k]).0 == segment@[r@[k].1 as int],
    {
        let s: Vec<char> = chars_of(segment);
        let p: Vec<char> = chars_of(previous_segment);
        let mut changes: Vec<(char, usize)> = Vec::new();
        let mut idx: usize = 0;
        while idx < s.len()
            invariant
                idx <= s@.len(),
                s@ == segment@,
                p@ == previous_segment@,
                changes@.map_values(|c: (char, usize)| (c.0, c.1 as nat)) == changes_upto(s@, p@, idx as int),
                forall|k: int| 0 <= k < changes@.len() ==> (#[trigger] changes@[k]).1 < idx,
                forall|k: int| 0 <= k < changes@.len() ==> (#[trigger] changes@[k]).0 == s@[changes@[k].1 as int],
            decreases s@.len() - idx,
        {
            let char1: char = s[idx];
            if idx < p.len() {
                let char2: char = p[idx];
                if char1 != char2 {
                    let ghost before = changes@.map_values(|c: (char, usize)| (c.0, c.1 as nat));
                    changes.push((char1, idx));
                    assert(changes@.map_values(|c: (char, usize)| (c.0, c.1 as nat)) =~= before.push((char1, idx as nat)));
                }
            } else {
                let ghost before = changes@.map_values(|c: (char, usize)| (c.0, c.1 as nat));
                changes.push((char1, idx));
                assert(changes@.map_values(|c: (char, usize)| (c.0, c.1 as nat)) =~= before.push((char1, idx as nat)));
            }
            idx = idx + 1;
        }
        changes
    }

    fn write_changes(&mut self, segment: &str, row: usize)
        requires
            forall|j: int| 0 <= j < segment@.len() ==> segment@[j] != '\n',
            segment@.len() < usize::MAX,
        ensures
            final(self).rows() == old(self).rows(),
            final(self).state() == changes_effect(
                old(self).state(),
                char_changes(
                    segment@,
                    if row < old(self).rows().len() {
                        old(self).rows()[row as int].0
                    } else {
                        Seq::empty()
                    },
                ),
                row as nat,
            ),
    {
        let previous: String = if row < self.row_data.len() {
            self.row_data[row].0.clone()
        } else {
            String::new()
        };
        let changes: Vec<(char, usize)> = self.get_char_changes(segment, previous.as_str());
        let ghost cv = changes@.map_values(|c: (char, usize)| (c.0, c.1 as nat));
        let mut i: usize = 0;
        while i < changes.len()
            invariant
                i <= changes@.len(),
                cv == changes@.map_values(|c: (char, usize)| (c.0, c.1 as nat)),
                forall|k: int| 0 <= k < changes@.len() ==> (#[trigger] changes@[k]).1 < segment@.len(),
                forall|k: int| 0 <= k < changes@.len() ==> (#[trigger] changes@[k]).0 == segment@[changes@[k].1 as int],
                forall|j: int| 0 <= j < segment@.len() ==> segment@[j] != '\n',
                segment@.len() < usize::MAX,
                self.rows() == old(self).rows(),
                self.state() == changes_effect(old(self).state(), cv.take(i as int), row as nat),
            decreases changes@.len() - i,
        {
            let (character, column) = changes[i];
            assert(cv.take(i + 1).drop_last() =~= cv.take(i as int));
            assert(cv.take(i + 1).last() == (character, column as nat));
            self.console.move_to(column, row);
            self.console.write_character(character);
            i = i + 1;
        }
        assert(cv.take(i as int) =~= cv);
    }

    fn write_row(&mut self, segment: &str, row: usize)
        requires
            row <= old(self).rows().len(),
            forall|j: int| 0 <= j < segment@.len() ==> segment@[j] != '\n',
            segment@.len() < usize::MAX,
        ensures
            (final(self).state(), final(self).rows()) == row_effect(old(self).state(), old(self).rows(), segment@, row as nat),
    {
        self.write_changes(segment, row);
        self.set_row_data(segment, row);
        self.clear_remaining_row(row);
    }

    fn clear_remaining_row(&mut self, row: usize)
        requires
            row < old(self).rows().len(),
            old(self).rows()[row as int].1 < usize::MAX,
        ensures
            final(self).rows() == old(self).rows(),
            final(self).state() == {
                let (m2, t2) = move_effect(
                    old(self).state().0,
                    old(self).state().1,
                    old(self).rows()[row as int].1,
                    row as nat,
                );
                (row as nat, m2, old(self).state().2 + t2 + "\x1B[0K"@)
            },
    {
        let length: usize = self.row_data[row].1;
        self.console.clear_right_of(length, row);
    }

    fn clear_remaining_lines(&mut self, lines: usize)
        ensures
            lines < old(self).rows().len() ==> final(self).state() == clear_rows_effect(
                old(self).state(),
                lines as int,
                old(self).rows().len() as int,
            ) && final(self).rows() == old(self).rows().take(lines as int),
            lines >= old(self).rows().len() ==> final(self).state() == old(self).state()
                && final(self).rows() == old(self).rows(),
    {
        if lines < self.row_data.len() {
            let mut row: usize = self.row_data.len();
            while row > lines
                invariant
                    lines <= row <= old(self).rows().len(),
                    self.rows() == old(self).rows(),
                    clear_rows_effect(self.state(), lines as int, row as int) == clear_rows_effect(
                        old(self).state(),
                        lines as int,
                        old(self).rows().len() as int,
                    ),
                decreases row,
            {
                self.console.clear_row(row - 1);
                row = row - 1;
            }
            let ghost before = self.rows();
            self.row_data.truncate(lines);
            assert(self.rows() =~= before.take(lines as int));
        }
    }

    fn clear_lines(&mut self)
        ensures
            final(self).state() == clear_rows_effect(old(self).state(), 0, old(self).rows().len() as int),
            final(self).rows() == Seq::<(Seq<char>, nat)>::empty(),
    {
        let mut row: usize = self.row_data.len();
        while row > 0
            invariant
                row <= old(self).rows().len(),
                self.rows() == old(self).rows(),
                clear_rows_effect(self.state(), 0, row as int) == clear_rows_effect(
                    old(self).state(),
                    0,
                    old(self).rows().len() as int,
                ),
            decreases row,
        {
            self.console.clear_row(row - 1);
            row = row - 1;
        }
        self.row_data.clear();
        assert(self.rows() =~= Seq::<(Seq<char>, nat)>::empty());
    }

    fn write_to_console(&mut self, string: &str)
        requires
            string@.len() < usize::MAX,
        ensures
            (final(self).state(), final(self).rows()) == write_effect(old(self).state(), old(self).rows(), string@),
    {
        self.console.hide_cursor();
        let lines: Vec<String> = lines_of(string);
        let ghost ls = lines_seq(string@);
        let ghost start = self.state();
        proof {
            crate::text::lemma_lines_pieces(string@);
        }
        let mut count: usize = 0;
        while count < lines.len()
            invariant
                count <= lines@.len(),
                views(lines@) == ls,
                ls == lines_seq(string@),
                string@.len() < usize::MAX,
                forall|i: int, j: int| 0 <= i < ls.len() && 0 <= j < ls[i].len() ==> (#[trigger] ls[i][j]) != '\n',
                forall|i: int| 0 <= i < ls.len() ==> (#[trigger] ls[i]).len() <= string@.len(),
                (self.state(), self.rows()) == lines_effect(start, old(self).rows(), ls, count as int),
                self.rows().len() >= count,
            decreases lines@.len() - count,
        {
            let segment: &str = lines[count].as_str();
            assert(segment@ == ls[count as int]);
            proof {
                lemma_rows_len(start, old(self).rows(), ls, count as int);
            }
            self.write_row(segment, count);
            count = count + 1;
        }
        self.clear_remaining_lines(count);
    }
}

proof fn lemma_rows_len(st: ConsoleState, rows: Rows, lines: Seq<Seq<char>>, n: int)
    requires
        0 <= n,
    ensures
        lines_effect(st, rows, lines, n).1.len() >= n,
    decreases n,
{
    if n > 0 {
        lemma_rows_len(st, rows, lines, n - 1);
    }
}

proof fn lemma_lines_effect_rows(st: ConsoleState, rows: Rows, lines: Seq<Seq<char>>, n: int)
    requires
        0 <= n <= lines.len(),
    ensures
        lines_effect(st, rows, lines, n).1.len() == if n > rows.len() { n } else { rows.len() as int },
        forall|i: int| 0 <= i < n ==> #[trigger] lines_effect(st, rows, lines, n).1[i] == (lines[i], lines[i].len()),
        forall|i: int| n <= i < rows.len() ==> #[trigger] lines_effect(st, rows, lines, n).1[i] == rows[i],
    decreases n,
{
    if n > 0 {
        lemma_lines_effect_rows(st, rows, lines, n - 1);
    }
}

/// Redrawing a row with the text it already shows changes no character.
pub proof fn law_same_text_changes_nothing(segment: Seq<char>)
    ensures
        char_changes(segment, segment) == Seq::<(char, nat)>::empty(),
{
    lemma_changes_upto_same(segment, segment.len() as int);
}

proof fn lemma_changes_upto_same(segment: Seq<char>, n: int)
    requires
        0 <= n <= segment.len(),
    ensures
        changes_upto(segment, segment, n) == Seq::<(char, nat)>::empty(),
    decreases n,
{
    if n > 0 {
        lemma_changes_upto_same(segment, n - 1);
    }
}

/// After a write, the rows shown are exactly the lines of the text, each
/// with its number of characters, whatever was shown before.
pub proof fn law_write_shows_lines(st: ConsoleState, rows: Rows, text: Seq<char>)
    ensures
        write_effect(st, rows, text).1 == lines_seq(text).map_values(|l: Seq<char>| (l, l.len())),
{
    let lines = lines_seq(text);
    let (c, m, t) = st;
    lemma_lines_effect_rows((c, m, t + "\x1B[?25l"@), rows, lines, lines.len() as int);
    assert(write_effect(st, rows, text).1 =~= lines.map_values(|l: Seq<char>| (l, l.len())));
}

} // verus!
