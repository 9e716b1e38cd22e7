//! What a file search looks for: a file name (by its start, or by a
//! regular expression), extensions, and directories to leave out. Walking
//! the directories is done by the caller, who asks here about each entry.
use vstd::prelude::*;

use crate::text::{
    chars_of, lowercase, seq_starts_with, str_eq, str_to_lowercase, trim, trim_str, views,
};

verus! {

/// The error text of compiling `pattern` as a regular expression with
/// `regex::Regex::new`; `None` when it compiles.
pub uninterp spec fn regex_compile_error(pattern: Seq<char>) -> Option<Seq<char>>;

/// Calls `regex::Regex::new` on `pattern`: `None` when it compiles, else the
/// error's text. Both are named, not stated: the syntax is the regex crate's.
#[verifier::external_body]
pub(crate) fn regex_error(pattern: &str) -> (r: Option<String>)
    ensures
        match r {
            Some(e) => regex_compile_error(pattern@) == Some(e@),
            None => regex_compile_error(pattern@) is None,
        },
{
    match regex::Regex::new(pattern) {
        Ok(_) => None,
        Err(error) => Some(error.to_string()),
    }
}

/// Whether the regular expression `pattern` matches somewhere in `text`, as
/// `regex::Regex::is_match` answers; `None` when it does not compile.
pub uninterp spec fn regex_matches(pattern: Seq<char>, text: Seq<char>) -> Option<bool>;

/// Compiles `pattern` with `regex::Regex::new` and asks `is_match` on
/// `text`. The answer is named, not stated.
#[verifier::external_body]
pub(crate) fn regex_match(pattern: &str, text: &str) -> (r: Option<bool>)
    ensures
        r == regex_matches(pattern@, text@),
{
    match regex::Regex::new(pattern) {
        Ok(regex) => Some(regex.is_match(text)),
        Err(_) => None,
    }
}

/// The last component of the path `path` as `std::path::Path::file_name`
/// gives it, empty when it has none.
pub uninterp spec fn path_file_name(path: Seq<char>) -> Seq<char>;

/// Calls `std::path::Path::file_name` on `path`. The text is named, not
/// stated: a trailing `..` or a root has none.
#[verifier::external_body]
pub(crate) fn file_name_of(path: &str) -> (r: String)
    ensures
        r@ == path_file_name(path@),
{
    std::path::Path::new(path).file_name().unwrap_or_default().to_string_lossy().into_owned()
}

/// The extension of the path `path` as `std::path::Path::extension` gives
/// it, empty when it has none.
pub uninterp spec fn path_extension(path: Seq<char>) -> Seq<char>;

/// Calls `std::path::Path::extension` on `path`. The text is named, not
/// stated.
#[verifier::external_body]
pub(crate) fn extension_of(path: &str) -> (r: String)
    ensures
        r@ == path_extension(path@),
{
    std::path::Path::new(path).extension().unwrap_or_default().to_string_lossy().into_owned()
}

/// What the file system says of a directory to leave out: the path given,
/// its canonical form when it exists, and whether that is a file.
pub struct DirectoryFacts {
    pub path: String,
    pub canonical: Option<String>,
    pub is_file: bool,
}

/// What the file system says of an entry: its path, whether it is a file,
/// and its parent.
pub struct EntryFacts {
    pub path: String,
    pub is_file: bool,
    pub parent: Option<String>,
}

/// The message when a directory to leave out is a file.
pub open spec fn path_is_file_message() -> Seq<char> {
    "Path provided is a file, not a directory."@
}

/// The message when a directory to leave out cannot be found.
pub open spec fn missing_directory_message(path: Seq<char>) -> Seq<char> {
    "Path provided ["@ + path + "] cannot be found."@
}

/// The error for the first directory of `dirs` that cannot be left out;
/// `None` when all can.
pub open spec fn exclusion_error(dirs: Seq<(Seq<char>, Option<Seq<char>>, bool)>) -> Option<Seq<char>>
    decreases dirs.len(),
{
    if dirs.len() == 0 {
        None
    } else {
        match exclusion_error(dirs.drop_last()) {
            Some(e) => Some(e),
            None => {
                let d = dirs.last();
                match d.1 {
                    Some(_) => if d.2 {
                        Some(path_is_file_message())
                    } else {
                        None
                    },
                    None => Some(missing_directory_message(d.0)),
                }
            },
        }
    }
}

/// The view of directory facts.
pub open spec fn dir_facts_view(dirs: Seq<DirectoryFacts>) -> Seq<(Seq<char>, Option<Seq<char>>, bool)> {
    dirs.map_values(
        |d: DirectoryFacts|
            (
                d.path@,
                match d.canonical {
                    Some(c) => Some(c@),
                    None => None,
                },
                d.is_file,
            ),
    )
}

/// The view of an optional string.
pub open spec fn opt_text(o: Option<String>) -> Option<Seq<char>> {
    match o {
        Some(s) => Some(s@),
        None => None,
    }
}

/// A set of texts as a sequence: `t` added unless present.
pub open spec fn set_add(s: Seq<Seq<char>>, t: Seq<char>) -> Seq<Seq<char>> {
    if s.contains(t) {
        s
    } else {
        s.push(t)
    }
}

/// The extensions of `exts`, trimmed and lower-cased, each once.
pub open spec fn extension_set(exts: Seq<Seq<char>>) -> Seq<Seq<char>>
    decreases exts.len(),
{
    if exts.len() == 0 {
        Seq::empty()
    } else {
        set_add(extension_set(exts.drop_last()), lowercase(trim(exts.last())))
    }
}

/// The canonical forms of `dirs`, each once.
pub open spec fn directory_set(dirs: Seq<(Seq<char>, Option<Seq<char>>, bool)>) -> Seq<Seq<char>>
    decreases dirs.len(),
{
    if dirs.len() == 0 {
        Seq::empty()
    } else {
        match dirs.last().1 {
            Some(c) => set_add(directory_set(dirs.drop_last()), c),
            None => directory_set(dirs.drop_last()),
        }
    }
}

/// True when the entry `e` is in the directory `dir`: a file whose parent
/// is `dir`, or `dir` itself.
pub open spec fn same_directory(path: Seq<char>, is_file: bool, parent: Option<Seq<char>>, dir: Seq<char>) -> bool {
    if is_file && parent is Some {
        parent->0 == dir
    } else {
        path == dir
    }
}

/// True when the name of the file at `path` starts with `filename`, both
/// lower-cased; never for an empty `filename`.
pub open spec fn filename_matches(filename: Seq<char>, path: Seq<char>) -> bool {
    filename.len() > 0 && seq_starts_with(lowercase(path_file_name(path)), lowercase(filename))
}

/// True when the regular expression `regex` matches the name of the file at
/// `path`, lower-cased.
pub open spec fn regex_accepts(regex: Option<Seq<char>>, path: Seq<char>) -> bool {
    match regex {
        Some(p) => regex_matches(p, lowercase(path_file_name(path))) == Some(true),
        None => false,
    }
}

/// True when the extension of the file at `path`, lower-cased, is one of
/// `exts`, or `exts` is empty.
pub open spec fn extension_matches(exts: Seq<Seq<char>>, path: Seq<char>) -> bool {
    exts.len() == 0 || exts.contains(lowercase(path_extension(path)))
}

/// The criteria of a file search.
pub struct FileSearch {
    root: Option<String>,
    exclusive_filename: String,
    exclusive_filename_regex: Option<String>,
    exclusive_exts: Vec<String>,
    exclude_dirs: Vec<String>,
    quit_directory_on_match: bool,
}

impl FileSearch {
    /// The directory to search from; the current one when `None`.
    pub closed spec fn root_view(&self) -> Option<Seq<char>> {
        match self.root {
            Some(r) => Some(r@),
            None => None,
        }
    }

    /// The start of the names looked for; empty for none.
    pub closed spec fn filename_view(&self) -> Seq<char> {
        self.exclusive_filename@
    }

    /// The regular expression the names must match, when one is set.
    pub closed spec fn regex_view(&self) -> Option<Seq<char>> {
        match self.exclusive_filename_regex {
            Some(r) => Some(r@),
            None => None,
        }
    }

    /// The extensions looked for, lower-cased; all when empty.
    pub closed spec fn extensions_view(&self) -> Seq<Seq<char>> {
        views(self.exclusive_exts@)
    }

    /// The canonical paths of the directories left out.
    pub closed spec fn excluded_view(&self) -> Seq<Seq<char>> {
        views(self.exclude_dirs@)
    }

    /// Whether the walk leaves a directory once a file there matched.
    pub closed spec fn quit_view(&self) -> bool {
        self.quit_directory_on_match
    }

    /// A search with no criteria.
    pub fn new() -> (r: Self)
        ensures
            r.root_view() is None,
            r.filename_view() == Seq::<char>::empty(),
            r.regex_view() is None,
            r.extensions_view() == Seq::<Seq<char>>::empty(),
            r.excluded_view() == Seq::<Seq<char>>::empty(),
            !r.quit_view(),
    {
        let r = FileSearch {
            root: None,
            exclusive_filename: String::new(),
            exclusive_filename_regex: None,
            exclusive_exts: Vec::new(),
            exclude_dirs: Vec::new(),
            quit_directory_on_match: false,
        };
        assert(r.extensions_view() =~= Seq::<Seq<char>>::empty());
        assert(r.excluded_view() =~= Seq::<Seq<char>>::empty());
        r
    }

    /// Sets the directory to search from.
    pub fn set_root(&mut self, root: &str)
        ensures
            final(self).root_view() == Some(root@),
            final(self).filename_view() == old(self).filename_view(),
            final(self).regex_view() == old(self).regex_view(),
            final(self).extensions_view() == old(self).extensions_view(),
            final(self).excluded_view() == old(self).excluded_view(),
            final(self).quit_view() == old(self).quit_view(),
    {
        self.root = Some(String::from_str(root));
    }

    /// Sets the start of the names looked for.
    pub fn set_exclusive_filename(&mut self, filename: &str)
        ensures
            final(self).root_view() == old(self).root_view(),
            final(self).filename_view() == filename@,
            final(self).regex_view() == old(self).regex_view(),
            final(self).extensions_view() == old(self).extensions_view(),
            final(self).excluded_view() == old(self).excluded_view(),
            final(self).quit_view() == old(self).quit_view(),
    {
        self.exclusive_filename = String::from_str(filename);
    }

    /// Sets the regular expression the names must match; the error's text
    /// when it does not compile, and then nothing changes.
    pub fn set_exclusive_filename_regex(&mut self, filename: &str) -> (r: Result<(), String>)
        ensures
            match regex_compile_error(filename@) {
                Some(e) => r matches Err(m) && m@ == e && final(self).regex_view() == old(self).regex_view(),
                None => r is Ok && final(self).regex_view() == Some(filename@),
            },
            final(self).root_view() == old(self).root_view(),
            final(self).filename_view() == old(self).filename_view(),
            final(self).extensions_view() == old(self).extensions_view(),
            final(self).excluded_view() == old(self).excluded_view(),
            final(self).quit_view() == old(self).quit_view(),
    {
        match regex_error(filename) {
            Some(error) => Err(error),
            None => {
                self.exclusive_filename_regex = Some(String::from_str(filename));
                Ok(())
            },
        }
    }

    /// Sets the extensions looked for: each trimmed and lower-cased, once.
    pub fn set_exclusive_extensions(&mut self, exts: &Vec<String>)
        ensures
            final(self).extensions_view() == extension_set(views(exts@)),
            final(self).root_view() == old(self).root_view(),
            final(self).filename_view() == old(self).filename_view(),
            final(self).regex_view() == old(self).regex_view(),
            final(self).excluded_view() == old(self).excluded_view(),
            final(self).quit_view() == old(self).quit_view(),
    {
        let mut set: Vec<String> = Vec::new();
        let mut i: usize = 0;
        while i < exts.len()
            invariant
                i <= exts@.len(),
                views(set@) == extension_set(views(exts@).take(i as int)),
            decreases exts@.len() - i,
        {
            assert(views(exts@).take(i + 1).drop_last() =~= views(exts@).take(i as int));
            let trimmed: String = trim_str(exts[i].as_str());
            let ext: String = str_to_lowercase(trimmed.as_str());
            if !holds_text(&set, ext.as_str()) {
                let ghost before = views(set@);
                set.push(ext);
                assert(views(set@) =~= before.push(lowercase(trim(exts@[i as int]@))));
            }
            i = i + 1;
        }
        assert(views(exts@).take(exts@.len() as int) =~= views(exts@));
        self.exclusive_exts = set;
    }

    /// Sets the directories left out, from what the file system says of
    /// each; the error of the first one that does not exist or is a file,
    /// and then nothing changes.
    pub fn set_exclude_directories(&mut self, dirs: &Vec<DirectoryFacts>) -> (r: Result<(), String>)
        ensures
            match exclusion_error(dir_facts_view(dirs@)) {
                Some(e) => r matches Err(m) && m@ == e && final(self).excluded_view() == old(self).excluded_view(),
                None => r is Ok && final(self).excluded_view() == directory_set(dir_facts_view(dirs@)),
            },
            final(self).root_view() == old(self).root_view(),
            final(self).filename_view() == old(self).filename_view(),
            final(self).regex_view() == old(self).regex_view(),
            final(self).extensions_view() == old(self).extensions_view(),
            final(self).quit_view() == old(self).quit_view(),
    {
        let ghost dv = dir_facts_view(dirs@);
        let mut set: Vec<String> = Vec::new();
        let mut i: usize = 0;
        while i < dirs.len()
            invariant
                i <= dirs@.len(),
                dv == dir_facts_view(dirs@),
                exclusion_error(dv.take(i as int)) is None,
                views(set@) == directory_set(dv.take(i as int)),
            decreases dirs@.len() - i,
        {
            assert(dv.take(i + 1).drop_last() =~= dv.take(i as int));
            match &dirs[i].canonical {
                Some(canonical) => {
                    if dirs[i].is_file {
                        proof {
                            lemma_exclusion_error_keeps(dv, i + 1);
                        }
                        return Err(String::from_str("Path provided is a file, not a directory."));
                    }
                    if !holds_text(&set, canonical.as_str()) {
                        let ghost before = views(set@);
                        set.push(canonical.clone());
                        assert(views(set@) =~= before.push(canonical@));
                    }
                },
                None => {
                    proof {
                        lemma_exclusion_error_keeps(dv, i + 1);
                    }
                    let mut message: String = String::from_str("Path provided [");
                    crate::text::push_str(&mut message, dirs[i].path.as_str());
                    crate::text::push_str(&mut message, "] cannot be found.");
                    return Err(message);
                },
            }
            i = i + 1;
        }
        assert(dv.take(dirs@.len() as int) =~= dv);
        self.exclude_dirs = set;
        Ok(())
    }

    /// Sets whether the walk leaves a directory once a file there matched.
    pub fn set_quit_directory_on_match(&mut self, state: bool)
        ensures
            final(self).quit_view() == state,
            final(self).root_view() == old(self).root_view(),
            final(self).filename_view() == old(self).filename_view(),
            final(self).regex_view() == old(self).regex_view(),
            final(self).extensions_view() == old(self).extensions_view(),
            final(self).excluded_view() == old(self).excluded_view(),
    {
        self.quit_directory_on_match = state;
    }

    /// Forgets the directory to search from.
    pub fn clear_root(&mut self)
        ensures
            final(self).root_view() is None,
            final(self).filename_view() == old(self).filename_view(),
            final(self).regex_view() == old(self).regex_view(),
            final(self).extensions_view() == old(self).extensions_view(),
            final(self).excluded_view() == old(self).excluded_view(),
            final(self).quit_view() == old(self).quit_view(),
    {
        self.root = None;
    }

    /// Forgets the start of the names looked for.
    pub fn clear_exclusive_filename(&mut self)
        ensures
            final(self).filename_view() == Seq::<char>::empty(),
            final(self).root_view() == old(self).root_view(),
            final(self).regex_view() == old(self).regex_view(),
            final(self).extensions_view() == old(self).extensions_view(),
            final(self).excluded_view() == old(self).excluded_view(),
            final(self).quit_view() == old(self).quit_view(),
    {
        self.exclusive_filename = String::new();
    }

    /// Forgets the regular expression.
    pub fn clear_exclusive_filename_regex(&mut self)
        ensures
            final(self).regex_view() is None,
            final(self).root_view() == old(self).root_view(),
            final(self).filename_view() == old(self).filename_view(),
            final(self).extensions_view() == old(self).extensions_view(),
            final(self).excluded_view() == old(self).excluded_view(),
            final(self).quit_view() == old(self).quit_view(),
    {
        self.exclusive_filename_regex = None;
    }

    /// Forgets the extensions: every extension is looked for.
    pub fn clear_exclusive_extensions(&mut self)
        ensures
            final(self).extensions_view() == Seq::<Seq<char>>::empty(),
            final(self).root_view() == old(self).root_view(),
            final(self).filename_view() == old(self).filename_view(),
            final(self).regex_view() == old(self).regex_view(),
            final(self).excluded_view() == old(self).excluded_view(),
            final(self).quit_view() == old(self).quit_view(),
    {
        self.exclusive_exts = Vec::new();
        assert(views(self.exclusive_exts@) =~= Seq::<Seq<char>>::empty());
    }

    /// Forgets the directories left out.
    pub fn clear_exclude_directories(&mut self)
        ensures
            final(self).excluded_view() == Seq::<Seq<char>>::empty(),
            final(self).root_view() == old(self).root_view(),
            final(self).filename_view() == old(self).filename_view(),
            final(self).regex_view() == old(self).regex_view(),
            final(self).extensions_view() == old(self).extensions_view(),
            final(self).quit_view() == old(self).quit_view(),
    {
        self.exclude_dirs = Vec::new();
        assert(views(self.exclude_dirs@) =~= Seq::<Seq<char>>::empty());
    }

    /// The directory to search from, when one is set.
    pub fn get_root(&self) -> (r: Option<&str>)
        ensures
            match r {
                Some(s) => self.root_view() == Some(s@),
                None => self.root_view() is None,
            },
    {
        match &self.root {
            Some(r) => Some(r.as_str()),
            None => None,
        }
    }

    /// True when the file at `path` is looked for: its name matches (by the
    /// regular expression when one is set, else by its start) and so does
    /// its extension.
    pub fn evaluate_entry_criteria(&self, path: &str) -> (r: bool)
        ensures
            r == ((if self.regex_view() is Some {
                regex_accepts(self.regex_view(), path@)
            } else {
                filename_matches(self.filename_view(), path@)
            }) && extension_matches(self.extensions_view(), path@)),
    {
        let name_matches: bool = if self.exclusive_filename_regex.is_some() {
            self.is_exclusive_filename_regex(path)
        } else {
            self.is_exclusive_filename(path)
        };
        let extension_matches: bool = self.is_exclusive_extension(path);
        name_matches && extension_matches
    }

    /// True when the name of the file at `path` starts with the name looked
    /// for, both lower-cased.
    pub fn is_exclusive_filename(&self, path: &str) -> (r: bool)
        ensures
            r == filename_matches(self.filename_view(), path@),
    {
        if self.exclusive_filename.as_str().is_empty() {
            return false;
        }
        let name: String = file_name_of(path);
        let lower: String = str_to_lowercase(name.as_str());
        let pattern: String = str_to_lowercase(self.exclusive_filename.as_str());
        let v: Vec<char> = chars_of(lower.as_str());
        let p: Vec<char> = chars_of(pattern.as_str());
        crate::text::chars_start_with(&v, &p)
    }

    /// True when the regular expression matches the name of the file at
    /// `path`, lower-cased.
    pub fn is_exclusive_filename_regex(&self, path: &str) -> (r: bool)
        ensures
            r == regex_accepts(self.regex_view(), path@),
    {
        match &self.exclusive_filename_regex {
            Some(pattern) => {
                let name: String = file_name_of(path);
                let lower: String = str_to_lowercase(name.as_str());
                regex_match(pattern.as_str(), lower.as_str()) == Some(true)
            },
            None => false,
        }
    }

    /// True when the extension of the file at `path`, lower-cased, is looked
    /// for.
    pub fn is_exclusive_extension(&self, path: &str) -> (r: bool)
        ensures
            r == extension_matches(self.extensions_view(), path@),
    {
        if self.exclusive_exts.len() == 0 {
            return true;
        }
        let ext: String = extension_of(path);
        let lower: String = str_to_lowercase(ext.as_str());
        holds_text(&self.exclusive_exts, lower.as_str())
    }

    /// True when the entry is in a directory left out: a file whose parent
    /// is one, or one itself.
    pub fn is_excluded_directory(&self, entry: &EntryFacts) -> (r: bool)
        ensures
            r == exists|i: int|
                0 <= i < self.excluded_view().len() && same_directory(
                    entry.path@,
                    entry.is_file,
                    opt_text(entry.parent),
                    #[trigger] self.excluded_view()[i],
                ),
    {
        let ghost ev = self.excluded_view();
        let ghost parent = opt_text(entry.parent);
        let mut i: usize = 0;
        while i < self.exclude_dirs.len()
            invariant
                i <= self.exclude_dirs@.len(),
                ev == self.excluded_view(),
                parent == opt_text(entry.parent),
                forall|j: int| 0 <= j < i ==> !same_directory(entry.path@, entry.is_file, parent, #[trigger] ev[j]),
            decreases self.exclude_dirs@.len() - i,
        {
            let dir: &str = self.exclude_dirs[i].as_str();
            assert(ev[i as int] == dir@);
            let same: bool = match &entry.parent {
                Some(p) => if entry.is_file {
                    str_eq(p.as_str(), dir)
                } else {
                    str_eq(entry.path.as_str(), dir)
                },
                None => str_eq(entry.path.as_str(), dir),
            };
            if same {
                return true;
            }
            i = i + 1;
        }
        false
    }

    /// Whether the walk leaves a directory once a file there matched.
    pub fn quits_directory_on_match(&self) -> (r: bool)
        ensures
            r == self.quit_view(),
    {
        self.quit_directory_on_match
    }
}

/// True when `set` holds `text`.
pub(crate) fn holds_text(set: &Vec<String>, text: &str) -> (r: bool)
    ensures
        r == views(set@).contains(text@),
{
    let mut i: usize = 0;
    while i < set.len()
        invariant
            i <= set@.len(),
            forall|j: int| 0 <= j < i ==> views(set@)[j] != text@,
        decreases set@.len() - i,
    {
        if str_eq(set[i].as_str(), text) {
            assert(views(set@)[i as int] == text@);
            return true;
        }
        i = i + 1;
    }
    false
}

pub(crate) proof fn lemma_exclusion_error_keeps(dirs: Seq<(Seq<char>, Option<Seq<char>>, bool)>, m: int)
    requires
        0 <= m <= dirs.len(),
        exclusion_error(dirs.take(m)) is Some,
    ensures
        exclusion_error(dirs) == exclusion_error(dirs.take(m)),
    decreases dirs.len() - m,
{
    if m < dirs.len() {
        assert(dirs.take(m + 1).drop_last() =~= dirs.take(m));
        lemma_exclusion_error_keeps(dirs, m + 1);
    } else {
        assert(dirs.take(m) =~= dirs);
    }
}

} // verus!
