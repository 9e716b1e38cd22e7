//! The grid in which the search prints the information on a found file.
use vstd::prelude::*;

use crate::general::table_display::{
    chunks, cut_line, header_colours, line_text, metadata_fits, metadata_fits_check,
    metadata_labels, metadata_rows, metadata_text, path_fits, path_fits_check, path_rows,
    path_text, plain_line, spaces, split_by_length, split_lengths, split_lengths_spec, table_fits,
    table_text,
};
use crate::general::terminal::{
    ANSICode, BlackANSI, CombinedANSI, Terminal, YellowBackgroundANSI, painted,
};
use crate::search::info::FileInfo;
use crate::text::{push_repeat, push_str, utf8_len, views};

verus! {

/// The characters of the grid.
pub enum GridCharacter {
    TopRight,
    TopLeft,
    BottomRight,
    BottomLeft,
    Horizontal,
    Vertical,
    TopT,
    BottomT,
    MidT,
    MidLeftT,
    MidRightT,
}

/// The box-drawing character of a grid part.
pub open spec fn grid_char(c: GridCharacter) -> char {
    match c {
        GridCharacter::TopRight => '┐',
        GridCharacter::TopLeft => '┌',
        GridCharacter::BottomRight => '┘',
        GridCharacter::BottomLeft => '└',
        GridCharacter::Horizontal => '─',
        GridCharacter::Vertical => '│',
        GridCharacter::TopT => '┬',
        GridCharacter::BottomT => '┴',
        GridCharacter::MidT => '┼',
        GridCharacter::MidLeftT => '├',
        GridCharacter::MidRightT => '┤',
    }
}

impl GridCharacter {
    /// The box-drawing character.
    pub fn as_char(&self) -> (r: char)
        ensures
            r == grid_char(*self),
    {
        match self {
            GridCharacter::TopRight => '┐',
            GridCharacter::TopLeft => '┌',
            GridCharacter::BottomRight => '┘',
            GridCharacter::BottomLeft => '└',
            GridCharacter::Horizontal => '─',
            GridCharacter::Vertical => '│',
            GridCharacter::TopT => '┬',
            GridCharacter::BottomT => '┴',
            GridCharacter::MidT => '┼',
            GridCharacter::MidLeftT => '├',
            GridCharacter::MidRightT => '┤',
        }
    }
}

/// The padding on each side of a grid header of `len` bytes in half a width
/// of `length`: `length + 1` less half the header rounded up, and 1 for an
/// empty header or one that takes the whole half.
pub open spec fn grid_header_padding(len: nat, length: nat) -> nat {
    if len > 0 && length + 1 > (len + 1) / 2 {
        (length + 1 - (len + 1) / 2) as nat
    } else {
        1
    }
}

/// The header between paddings, for a grid of `width` characters.
pub open spec fn grid_padded_header(header: Seq<char>, width: nat) -> Seq<char> {
    let p = grid_header_padding(utf8_len(header), width / 2);
    spaces(p) + header + spaces(p)
}

/// A grid for the information on a found file. Widths are in characters of
/// the terminal, already scaled to the part of the terminal the grid takes.
pub struct FileInfoPrinter {
    terminal: Terminal,
    padding: usize,
}

impl FileInfoPrinter {
    /// What has been written and not yet taken.
    pub closed spec fn output(&self) -> Seq<char> {
        self.terminal.output()
    }

    /// The padding inside the cells.
    pub closed spec fn padding(&self) -> nat {
        self.padding as nat
    }

    /// A grid with the given padding inside its cells.
    pub fn new(padding: usize) -> (r: Self)
        ensures
            r.output() == Seq::<char>::empty(),
            r.padding() == padding,
    {
        FileInfoPrinter { terminal: Terminal::new(), padding }
    }

    /// Writes the header, black on yellow, between paddings that centre it
    /// in a grid of `width`.
    pub fn print_header(&mut self, header: &str, width: usize)
        ensures
            final(self).padding() == old(self).padding(),
            final(self).output() == old(self).output() + painted(
                header_colours(),
                grid_padded_header(header@, width as nat),
            ) + seq!['\n'],
    {
        let length: usize = width / 2;
        let padded_header: String = self.get_padded_header(header, length);
        let header_ansi: CombinedANSI = self.get_header_ansi();
        self.terminal.writeln_ansi(padded_header.as_str(), &header_ansi);
    }

    /// Writes the grid of `file_info`, `width` characters wide.
    pub fn print(&mut self, width: usize, file_info: &FileInfo)
        requires
            table_fits(
                file_info.path_view(),
                file_info.size_view(),
                file_info.created_view(),
                file_info.modified_view(),
                width as nat,
                old(self).padding(),
            ),
        ensures
            final(self).padding() == old(self).padding(),
            final(self).output() == old(self).output() + table_text(
                file_info.path_view(),
                file_info.size_view(),
                file_info.created_view(),
                file_info.modified_view(),
                width as nat,
                old(self).padding(),
            ),
    {
        let ghost start = self.output();
        proof {
            reveal_strlit("\n");
        }
        self.print_top_line(width);
        self.terminal.write_raw("\n");
        self.print_path(width, file_info);
        self.terminal.write_raw("\n");
        self.print_mid_line(width);
        self.terminal.write_raw("\n");
        self.print_metadata(width, file_info);
        self.terminal.write_raw("\n");
        self.print_bottom_line(width);
        self.terminal.write_raw("\n");
        assert(self.output() =~= start + table_text(
            file_info.path_view(),
            file_info.size_view(),
            file_info.created_view(),
            file_info.modified_view(),
            width as nat,
            self.padding(),
        ));
    }

    /// True when `print` writes the grid of `file_info` without panicking.
    pub fn fits(&self, width: usize, file_info: &FileInfo) -> (r: bool)
        ensures
            r == table_fits(
                file_info.path_view(),
                file_info.size_view(),
                file_info.created_view(),
                file_info.modified_view(),
                width as nat,
                self.padding(),
            ),
    {
        if width < 1 {
            return false;
        }
        let lens: Vec<usize> = split_lengths(width);
        let size: String = file_info.get_formatted_size();
        let created: String = file_info.get_formatted_creation_time();
        let modified: String = file_info.get_formatted_modified_time();
        path_fits_check(file_info.get_path(), width, self.padding) && metadata_fits_check(
            size.as_str(),
            created.as_str(),
            modified.as_str(),
            &lens,
            self.padding,
        )
    }

    /// Takes what has been written, leaving the output empty.
    pub fn take_output(&mut self) -> (r: String)
        ensures
            r@ == old(self).output(),
            final(self).output() == Seq::<char>::empty(),
            final(self).padding() == old(self).padding(),
    {
        self.terminal.take_output()
    }

    /// Writes the top line of a grid of `width` characters.
    pub fn print_top_line(&mut self, width: usize)
        requires
            width >= 1,
        ensures
            final(self).padding() == old(self).padding(),
            final(self).output() == old(self).output() + plain_line(width as nat, '┌', '┐'),
    {
        let top_left: char = GridCharacter::TopLeft.as_char();
        let top_right: char = GridCharacter::TopRight.as_char();
        let line: String = line_text(width, top_left, top_left, top_right, false);
        self.terminal.write_raw(line.as_str());
    }

    /// Writes the line between the path and the metadata.
    pub fn print_mid_line(&mut self, width: usize)
        requires
            width >= 1,
        ensures
            final(self).padding() == old(self).padding(),
            final(self).output() == old(self).output() + cut_line(width as nat, '├', '┬', '┤'),
    {
        let mid_left: char = GridCharacter::MidLeftT.as_char();
        let top_t: char = GridCharacter::TopT.as_char();
        let mid_right: char = GridCharacter::MidRightT.as_char();
        let line: String = line_text(width, mid_left, top_t, mid_right, true);
        self.terminal.write_raw(line.as_str());
    }

    /// Writes the bottom line.
    pub fn print_bottom_line(&mut self, width: usize)
        requires
            width >= 1,
        ensures
            final(self).padding() == old(self).padding(),
            final(self).output() == old(self).output() + cut_line(width as nat, '└', '┴', '┘'),
    {
        let bottom_left: char = GridCharacter::BottomLeft.as_char();
        let bottom_t: char = GridCharacter::BottomT.as_char();
        let bottom_right: char = GridCharacter::BottomRight.as_char();
        let line: String = line_text(width, bottom_left, bottom_t, bottom_right, true);
        self.terminal.write_raw(line.as_str());
    }

    /// Writes the rows of the path.
    pub fn print_path(&mut self, width: usize, file_info: &FileInfo)
        requires
            path_fits(file_info.path_view(), width as nat, old(self).padding()),
        ensures
            final(self).padding() == old(self).padding(),
            final(self).output() == old(self).output() + path_text(
                file_info.path_view(),
                width as nat,
                old(self).padding(),
            ),
    {
        let rows: String = path_rows(file_info.get_path(), width, self.padding);
        self.terminal.write_raw(rows.as_str());
    }

    /// Writes the rows of the size and times.
    pub fn print_metadata(&mut self, width: usize, file_info: &FileInfo)
        requires
            width >= 1,
            metadata_fits(
                metadata_labels(
                    file_info.size_view(),
                    file_info.created_view(),
                    file_info.modified_view(),
                ),
                split_lengths_spec(width as nat),
                old(self).padding(),
            ),
        ensures
            final(self).padding() == old(self).padding(),
            final(self).output() == old(self).output() + metadata_text(
                metadata_labels(
                    file_info.size_view(),
                    file_info.created_view(),
                    file_info.modified_view(),
                ),
                split_lengths_spec(width as nat),
                old(self).padding(),
            ),
    {
        let size: String = file_info.get_formatted_size();
        let created: String = file_info.get_formatted_creation_time();
        let modified: String = file_info.get_formatted_modified_time();
        let split_lengths: Vec<usize> = self.get_split_lengths(width);
        let rows: String = metadata_rows(
            size.as_str(),
            created.as_str(),
            modified.as_str(),
            &split_lengths,
            self.padding,
        );
        self.terminal.write_raw(rows.as_str());
    }

    /// `string` cut into pieces of `length` characters.
    pub fn split_by_length(&self, string: &str, length: usize) -> (r: Vec<String>)
        ensures
            views(r@) == chunks(string@, length as nat),
    {
        split_by_length(string, length)
    }

    fn get_split_lengths(&self, width: usize) -> (r: Vec<usize>)
        requires
            width >= 1,
        ensures
            r@ == split_lengths_spec(width as nat),
    {
        split_lengths(width)
    }

    fn get_header_padding_length(&self, header: &str, length: usize) -> (r: usize)
        ensures
            r == grid_header_padding(utf8_len(header@), length as nat),
    {
        proof {
            crate::text::lemma_utf8_len(header@);
        }
        let len: usize = header.as_bytes().len();
        if len > 0 {
            let halved_header: usize = len / 2 + len % 2;
            assert(halved_header == (len + 1) / 2);
            if length >= halved_header {
                let padding_length: usize = length - halved_header + 1;
                return padding_length;
            }
        }
        1
    }

    fn get_padded_header(&self, header: &str, length: usize) -> (r: String)
        ensures
            r@ == spaces(grid_header_padding(utf8_len(header@), length as nat)) + header@ + spaces(
                grid_header_padding(utf8_len(header@), length as nat),
            ),
    {
        let padding_length: usize = self.get_header_padding_length(header, length);
        let mut padded: String = String::new();
        push_repeat(&mut padded, ' ', padding_length);
        push_str(&mut padded, header);
        push_repeat(&mut padded, ' ', padding_length);
        padded
    }

    fn get_header_ansi(&self) -> (r: CombinedANSI)
        ensures
            r.spec_value() == header_colours(),
    {
        YellowBackgroundANSI.combine(&BlackANSI)
    }
}

} // verus!
