//! The file search command.
use vstd::prelude::*;

use crate::commands::configuration::{SearchOption, SearchSort};
use crate::general::table_display::{header_colours, padded_header, table_fits, table_text, FileInfoTable};
use crate::search::info::{FileInfo, FileKeys};
use crate::search::file_search::{
    dir_facts_view, directory_set, exclusion_error, extension_set, regex_compile_error, DirectoryFacts,
    FileSearch,
};
use crate::terminal::ansi_sequences::WhiteANSI;
use crate::general::dynamic_table::DynamicTable;
use crate::commands::configuration::search_sort_name;
use crate::text::{
    bool_text, decimal, str_debug, str_debug_text, strings_debug, strings_debug_text, usize_to_string,
    utf8_len, views,
};
use crate::utils::ellipsis_spec;
use crate::terminal::ansi_sequences::{ANSICode, RedANSI};
use crate::terminal::terminal::{painted, Terminal};

verus! {

/// The time of a file, the epoch when it is not known.
pub open spec fn time_or_epoch(t: Option<i128>) -> int {
    match t {
        Some(v) => v as int,
        None => 0,
    }
}

/// What files are compared by for `sort`: the size, the creation time or the
/// modification time.
pub open spec fn sort_key(k: FileKeys, sort: SearchSort) -> int {
    match sort {
        SearchSort::SizeAsc | SearchSort::SizeDesc => k.size as int,
        SearchSort::CreatedAsc | SearchSort::CreatedDesc => time_or_epoch(k.created),
        SearchSort::ModifiedAsc | SearchSort::ModifiedDesc => time_or_epoch(k.modified),
    }
}

/// True when `sort` puts larger keys first.
pub open spec fn descending(sort: SearchSort) -> bool {
    sort == SearchSort::SizeDesc || sort == SearchSort::CreatedDesc || sort == SearchSort::ModifiedDesc
}

/// True when the file at position `i` of `keys` is listed before the one at
/// position `j`: its key comes first in the order of `sort`, or the keys are
/// equal and it came first.
pub open spec fn comes_before(keys: Seq<FileKeys>, sort: SearchSort, i: int, j: int) -> bool {
    let a = sort_key(keys[i], sort);
    let b = sort_key(keys[j], sort);
    if descending(sort) {
        a > b || (a == b && i < j)
    } else {
        a < b || (a == b && i < j)
    }
}

/// True when `order` lists the positions of `keys` as `sort` sorts them: all
/// of them, once each, in the order they came when there is no sort, and
/// otherwise by key, equal keys keeping the order they came in.
pub open spec fn sorted_order(keys: Seq<FileKeys>, sort: Option<SearchSort>, order: Seq<usize>) -> bool {
    &&& order.len() == keys.len()
    &&& forall|i: int| 0 <= i < order.len() ==> #[trigger] order[i] < keys.len()
    &&& match sort {
        None => forall|i: int| 0 <= i < order.len() ==> #[trigger] order[i] == i,
        Some(s) => forall|i: int, j: int|
            0 <= i < j < order.len() ==> comes_before(keys, s, #[trigger] order[i] as int, #[trigger] order[j] as int),
    }
}


/// Law: a sorted order lists every file exactly once.
pub proof fn law_sorted_order_lists_each_file_once(
    keys: Seq<FileKeys>,
    sort: Option<SearchSort>,
    order: Seq<usize>,
)
    requires
        sorted_order(keys, sort, order),
    ensures
        order.no_duplicates(),
        forall|k: usize| k < keys.len() ==> #[trigger] order.contains(k),
{
    assert forall|i: int, j: int| 0 <= i < order.len() && 0 <= j < order.len() && i != j implies order[i]
        != order[j] by {
        match sort {
            None => {},
            Some(s) => {
                if i < j {
                    assert(comes_before(keys, s, order[i] as int, order[j] as int));
                } else {
                    assert(comes_before(keys, s, order[j] as int, order[i] as int));
                }
            },
        }
    }
    let ints = order.map_values(|x: usize| x as int);
    assert(ints.no_duplicates()) by {
        assert forall|i: int, j: int| 0 <= i < ints.len() && 0 <= j < ints.len() && i != j implies ints[i]
            != ints[j] by {
            assert(order[i] != order[j]);
        }
    }
    ints.unique_seq_to_set();
    let range = vstd::set_lib::set_int_range(0, keys.len() as int);
    vstd::set_lib::lemma_int_range(0, keys.len() as int);
    assert(ints.to_set().subset_of(range)) by {
        assert forall|x: int| ints.to_set().contains(x) implies range.contains(x) by {
            let i = choose|i: int| 0 <= i < ints.len() && ints[i] == x;
            assert(order[i] < keys.len());
        }
    }
    vstd::set_lib::lemma_subset_equality(ints.to_set(), range);
    assert forall|k: usize| k < keys.len() implies #[trigger] order.contains(k) by {
        assert(range.contains(k as int));
        assert(ints.to_set().contains(k as int));
        let i = choose|i: int| 0 <= i < ints.len() && ints[i] == k as int;
        assert(order[i] == k);
    }
}

/// The tables of the first `n` files, each followed by a line break.
pub open spec fn files_text(files: Seq<FileInfo>, n: int, width: nat) -> Seq<char>
    decreases n,
{
    if n <= 0 {
        Seq::empty()
    } else {
        let f = files[n - 1];
        files_text(files, n - 1, width) + table_text(
            f.path_view(),
            f.size_view(),
            f.created_view(),
            f.modified_view(),
            width,
            2,
        ) + seq!['\n']
    }
}

/// True when the table of each of the first `n` files fits in `width`.
pub open spec fn files_fit(files: Seq<FileInfo>, n: int, width: nat) -> bool {
    forall|i: int|
        0 <= i < n ==> table_fits(
            (#[trigger] files[i]).path_view(),
            files[i].size_view(),
            files[i].created_view(),
            files[i].modified_view(),
            width,
            2,
        )
}

/// The parameters that the search parameters table lists for `option`.
pub open spec fn search_params(option: SearchOption) -> Seq<(Seq<char>, Seq<char>)> {
    let filename = match option.filename {
        Some(f) => f@,
        None => Seq::empty(),
    };
    seq![
        ("Filename"@, str_debug_text(filename)),
        ("Extensions"@, strings_debug_text(views(option.extensions@))),
        ("Excluded Dirs"@, strings_debug_text(views(option.excluded_dirs@))),
    ] + match option.sort {
        Some(s) => seq![("Sorting"@, search_sort_name(s))],
        None => Seq::empty(),
    } + match option.limit {
        Some(l) => seq![("Limit"@, decimal(l as nat))],
        None => Seq::empty(),
    } + seq![("Regex"@, bool_text(option.regex))]
}

/// How `set_file_search_filename` leaves the search and what it returns:
/// with a file name and the regex option, the expression is set, or its
/// error returned; with a file name alone, it is set as the start of names;
/// without one, nothing changes.
pub open spec fn filename_set(option: SearchOption, before: FileSearch, after: FileSearch, r: Result<(), String>) -> bool {
    match option.filename {
        Some(f) => if option.regex {
            &&& after.filename_view() == before.filename_view()
            &&& match regex_compile_error(f@) {
                Some(e) => r matches Err(m) && m@ == e && after.regex_view() == before.regex_view(),
                None => r is Ok && after.regex_view() == Some(f@),
            }
        } else {
            r is Ok && after.filename_view() == f@ && after.regex_view() == before.regex_view()
        },
        None => r is Ok && after.filename_view() == before.filename_view() && after.regex_view()
            == before.regex_view(),
    }
}

/// What `set_file_search_filename` writes: the error of an expression that
/// does not compile, in red.
pub open spec fn filename_error_text(option: SearchOption) -> Seq<char> {
    match option.filename {
        Some(f) => if option.regex {
            match regex_compile_error(f@) {
                Some(e) => painted(RedANSI.spec_value(), e) + seq!['\n'],
                None => Seq::empty(),
            }
        } else {
            Seq::empty()
        },
        None => Seq::empty(),
    }
}

/// The key of a file.
fn key_of(k: &FileKeys, sort: SearchSort) -> (r: i128)
    ensures
        r == sort_key(*k, sort),
{
    match sort {
        SearchSort::SizeAsc | SearchSort::SizeDesc => k.size as i128,
        SearchSort::CreatedAsc | SearchSort::CreatedDesc => match k.created {
            Some(t) => t,
            None => 0,
        },
        SearchSort::ModifiedAsc | SearchSort::ModifiedDesc => match k.modified {
            Some(t) => t,
            None => 0,
        },
    }
}

/// True when the file at `i` is listed before the one at `j`.
fn listed_before(keys: &Vec<FileKeys>, sort: SearchSort, i: usize, j: usize) -> (r: bool)
    requires
        i < keys@.len(),
        j < keys@.len(),
    ensures
        r == comes_before(keys@, sort, i as int, j as int),
{
    let a: i128 = key_of(&keys[i], sort);
    let b: i128 = key_of(&keys[j], sort);
    let desc: bool = match sort {
        SearchSort::SizeDesc | SearchSort::CreatedDesc | SearchSort::ModifiedDesc => true,
        _ => false,
    };
    if desc {
        a > b || (a == b && i < j)
    } else {
        a < b || (a == b && i < j)
    }
}

/// The file search command.
pub struct SearchCommand {
    option: SearchOption,
    terminal: Terminal,
}

impl SearchCommand {
    /// The command with its options.
    pub fn new(option: SearchOption) -> (r: Self)
        ensures
            r.option() == option,
            r.output() == Seq::<char>::empty(),
    {
        let terminal: Terminal = Terminal::new();
        SearchCommand { option, terminal }
    }

    /// The options of the command.
    pub closed spec fn option(&self) -> SearchOption {
        self.option
    }

    /// What has been written and not yet taken.
    pub closed spec fn output(&self) -> Seq<char> {
        self.terminal.output()
    }

    /// The file name searched for; empty when there is none.
    pub fn get_filename_or_default(&self) -> (r: &str)
        ensures
            r@ == match self.option().filename {
                Some(f) => f@,
                None => Seq::empty(),
            },
    {
        if let Some(filename) = &self.option.filename {
            return filename.as_str();
        }
        proof {
            reveal_strlit("");
        }
        ""
    }

    /// The order in which the files with keys `files` are listed: their
    /// positions, sorted as the sort option says (a stable sort), or as they
    /// came when there is none.
    pub fn sort_files(&self, files: &Vec<FileKeys>) -> (r: Vec<usize>)
        ensures
            sorted_order(files@, self.option().sort, r@),
    {
        let n: usize = files.len();
        let mut order: Vec<usize> = Vec::new();
        match self.option.sort {
            None => {
                let mut i: usize = 0;
                while i < n
                    invariant
                        i <= n,
                        n == files@.len(),
                        order@.len() == i,
                        forall|k: int| 0 <= k < i ==> #[trigger] order@[k] == k,
                    decreases n - i,
                {
                    order.push(i);
                    i = i + 1;
                }
            },
            Some(sort) => {
                let mut idx: usize = 0;
                while idx < n
                    invariant
                        idx <= n,
                        n == files@.len(),
                        order@.len() == idx,
                        forall|k: int| 0 <= k < idx ==> #[trigger] order@[k] < idx,
                        forall|a: int, b: int|
                            0 <= a < b < idx ==> comes_before(files@, sort, #[trigger] order@[a] as int, #[trigger] order@[b] as int),
                    decreases n - idx,
                {
                    let mut p: usize = 0;
                    while p < order.len() && !listed_before(files, sort, idx, order[p])
                        invariant
                            p <= order@.len(),
                            idx < n,
                            n == files@.len(),
                            order@.len() == idx,
                            forall|k: int| 0 <= k < idx ==> #[trigger] order@[k] < idx,
                            forall|k: int| 0 <= k < p ==> comes_before(files@, sort, #[trigger] order@[k] as int, idx as int),
                        decreases order@.len() - p,
                    {
                        p = p + 1;
                    }
                    let ghost old_order = order@;
                    order.insert(p, idx);
                    proof {
                        assert forall|a: int, b: int|
                            0 <= a < b < idx + 1 implies comes_before(files@, sort, #[trigger] order@[a] as int, #[trigger] order@[b] as int) by {
                            if b < p {
                                assert(order@[a] == old_order[a] && order@[b] == old_order[b]);
                            } else if b == p {
                                assert(order@[a] == old_order[a]);
                            } else if a == p {
                                assert(order@[b] == old_order[b - 1]);
                                if b - 1 > p {
                                    assert(comes_before(files@, sort, old_order[p as int] as int, old_order[b - 1] as int));
                                }
                            } else if a < p {
                                assert(order@[a] == old_order[a] && order@[b] == old_order[b - 1]);
                            } else {
                                assert(order@[a] == old_order[a - 1] && order@[b] == old_order[b - 1]);
                            }
                        }
                    }
                    idx = idx + 1;
                }
            },
        }
        order
    }

    /// The number of files listed out of `count`: at most the limit option.
    pub fn files_shown(&self, count: usize) -> (r: usize)
        ensures
            r == match self.option().limit {
                Some(l) => if l < count {
                    l
                } else {
                    count
                },
                None => count,
            },
    {
        match self.option.limit {
            Some(limit) => if limit < count {
                limit
            } else {
                count
            },
            None => count,
        }
    }

    /// Writes the files found, in the order given, at most as many as the
    /// limit option allows: a `FILES` header `width` wide, then a table per
    /// file, each followed by a line break; or that no file was found.
    pub fn print_files(&mut self, files: &Vec<FileInfo>, width: usize)
        requires
            width + 5 <= usize::MAX,
            files_fit(files@, old(self).files_shown_spec(files@.len() as int), width as nat),
        ensures
            final(self).option() == old(self).option(),
            files@.len() == 0 ==> final(self).output() == old(self).output() + painted(
                RedANSI.spec_value(),
                "No files were found."@,
            ) + seq!['\n'],
            files@.len() > 0 ==> final(self).output() == old(self).output() + crate::general::terminal::painted(
                header_colours(),
                padded_header("FILES"@, width as nat),
            ) + seq!['\n'] + files_text(files@, old(self).files_shown_spec(files@.len() as int), width as nat),
    {
        if files.len() == 0 {
            self.print_no_files();
            return;
        }
        let shown: usize = self.files_shown(files.len());
        let mut table: FileInfoTable = FileInfoTable::new(2);
        proof {
            reveal_strlit("FILES");
            assert(utf8_len("FILES"@) == 5) by {
                crate::general::version::lemma_ascii_prefix_boundary("FILES"@, 5);
                assert("FILES"@.take(5) =~= "FILES"@);
            }
        }
        table.print_header("FILES", width);
        let header: String = table.take_output();
        self.terminal.write_raw(header.as_str());
        let ghost start = self.output();
        let mut i: usize = 0;
        while i < shown
            invariant
                i <= shown,
                shown <= files@.len(),
                shown == self.files_shown_spec(files@.len() as int),
                files_fit(files@, shown as int, width as nat),
                table.padding() == 2,
                table.output() == Seq::<char>::empty(),
                self.option() == old(self).option(),
                self.output() == start + files_text(files@, i as int, width as nat),
                start == old(self).output() + crate::general::terminal::painted(
                    header_colours(),
                    padded_header("FILES"@, width as nat),
                )
                    + seq!['\n'],
            decreases shown - i,
        {
            assert(table_fits(
                files@[i as int].path_view(),
                files@[i as int].size_view(),
                files@[i as int].created_view(),
                files@[i as int].modified_view(),
                width as nat,
                2,
            ));
            table.print(width, &files[i]);
            let text: String = table.take_output();
            self.terminal.write_raw(text.as_str());
            self.terminal.write_raw("\n");
            proof {
                reveal_strlit("\n");
            }
            i = i + 1;
        }
    }

    /// The number of files listed out of `count`.
    pub open spec fn files_shown_spec(&self, count: int) -> int {
        match self.option().limit {
            Some(l) => if l < count {
                l as int
            } else {
                count
            },
            None => count,
        }
    }

    /// The table of the search parameters, `width` wide with a padding of 1:
    /// the file name, extensions and excluded directories as `Debug` writes
    /// them, the sort and the limit when given, and whether the name is a
    /// regular expression. The caller prints it.
    pub fn search_parameters_table(&self, width: usize) -> (r: DynamicTable)
        requires
            width >= 2,
        ensures
            r.width_view() == width,
            r.padding_view() == 1,
            r.header_view() == ellipsis_spec("Search Parameters"@, width as nat, 2),
            r.params() == search_params(self.option()),
            r.output() == Seq::<char>::empty(),
    {
        let mut table: DynamicTable = DynamicTable::new(width, 1);
        table.set_header("Search Parameters");
        let filename: String = str_debug(self.get_filename_or_default());
        table.add_parameter("Filename", filename.as_str());
        let extensions: String = strings_debug(&self.option.extensions);
        table.add_parameter("Extensions", extensions.as_str());
        let excluded: String = strings_debug(&self.option.excluded_dirs);
        table.add_parameter("Excluded Dirs", excluded.as_str());
        if let Some(sort) = &self.option.sort {
            table.add_parameter("Sorting", sort.name());
        }
        if let Some(limit) = self.option.limit {
            let text: String = usize_to_string(limit);
            table.add_parameter("Limit", text.as_str());
        }
        let regex: &str = if self.option.regex {
            "true"
        } else {
            "false"
        };
        table.add_parameter("Regex", regex);
        assert(table.params() =~= search_params(self.option()));
        table
    }

    /// Sets the criteria of `file_search` from the options: the root, the
    /// extensions, the directories left out (from what the file system says
    /// of each one named in the options) and the file name. The first error
    /// is written in red and returned; the criteria set before it stay.
    pub fn set_file_search_parameters(
        &mut self,
        root: &str,
        file_search: &mut FileSearch,
        excluded: &Vec<DirectoryFacts>,
    ) -> (r: Result<(), String>)
        ensures
            final(self).option() == old(self).option(),
            final(file_search).root_view() == Some(root@),
            final(file_search).extensions_view() == extension_set(views(old(self).option().extensions@)),
            final(file_search).quit_view() == old(file_search).quit_view(),
            match exclusion_error(dir_facts_view(excluded@)) {
                Some(e) => r matches Err(m) && m@ == e && final(self).output() == old(self).output()
                    + painted(RedANSI.spec_value(), "Directory Exclusion Error: "@) + painted(
                    WhiteANSI.spec_value(),
                    e,
                ) + seq!['\n'] && final(file_search).excluded_view() == old(file_search).excluded_view()
                    && final(file_search).filename_view() == old(file_search).filename_view()
                    && final(file_search).regex_view() == old(file_search).regex_view(),
                None => {
                    &&& final(file_search).excluded_view() == directory_set(dir_facts_view(excluded@))
                    &&& filename_set(old(self).option(), *old(file_search), *final(file_search), r)
                    &&& final(self).output() == old(self).output() + filename_error_text(old(self).option())
                },
            },
    {
        file_search.set_root(root);
        file_search.set_exclusive_extensions(&self.option.extensions);
        match file_search.set_exclude_directories(excluded) {
            Err(error) => {
                let parts: [&str; 2] = ["Directory Exclusion Error: ", error.as_str()];
                self.terminal.writeln_parameter(&parts, &RedANSI);
                return Err(error);
            },
            Ok(()) => {},
        }
        self.set_file_search_filename(file_search)
    }

    /// Sets the file name looked for: as a regular expression when the
    /// regex option is on, else as the start of names. An expression that
    /// does not compile is written in red and returned.
    pub fn set_file_search_filename(&mut self, file_search: &mut FileSearch) -> (r: Result<(), String>)
        ensures
            final(self).option() == old(self).option(),
            filename_set(old(self).option(), *old(file_search), *final(file_search), r),
            final(self).output() == old(self).output() + filename_error_text(old(self).option()),
            final(file_search).root_view() == old(file_search).root_view(),
            final(file_search).extensions_view() == old(file_search).extensions_view(),
            final(file_search).excluded_view() == old(file_search).excluded_view(),
            final(file_search).quit_view() == old(file_search).quit_view(),
    {
        if let Some(filename) = &self.option.filename {
            if self.option.regex {
                let result: Result<(), String> = file_search.set_exclusive_filename_regex(filename.as_str());
                if let Err(error) = &result {
                    self.terminal.writeln_ansi(error.as_str(), &RedANSI);
                }
                return result;
            } else {
                file_search.set_exclusive_filename(filename.as_str());
            }
        }
        Ok(())
    }

    /// Writes that no file was found.
    pub fn print_no_files(&mut self)
        ensures
            final(self).option() == old(self).option(),
            final(self).output() == old(self).output() + painted(
                RedANSI.spec_value(),
                "No files were found."@,
            ) + seq!['\n'],
    {
        self.terminal.writeln_ansi("No files were found.", &RedANSI);
    }

    /// Takes what has been written, leaving the output empty.
    pub fn take_output(&mut self) -> (r: String)
        ensures
            r@ == old(self).output(),
            final(self).output() == Seq::<char>::empty(),
            final(self).option() == old(self).option(),
    {
        self.terminal.take_output()
    }
}

} // verus!
