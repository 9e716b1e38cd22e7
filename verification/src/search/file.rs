//! A file search by sets of names: whole file names, file stems (the name
//! without its extension), a regular expression on the stem, and
//! extensions, with directories to leave out. Walking the directories is
//! done by the caller, who asks here about each entry.
use vstd::prelude::*;

use crate::search::file_search::{
    dir_facts_view, directory_set, exclusion_error, extension_of, extension_set, file_name_of,
    holds_text, lemma_exclusion_error_keeps, opt_text, path_extension, path_file_name,
    regex_compile_error, regex_error, regex_match, regex_matches, same_directory, set_add,
    DirectoryFacts, EntryFacts,
};
use crate::text::{lowercase, str_eq, str_to_lowercase, trim_str, views};

verus! {

/// The stem of the path `path` (its file name without the extension) as
/// `std::path::Path::file_stem` gives it, empty when it has none.
pub uninterp spec fn path_file_stem(path: Seq<char>) -> Seq<char>;

/// Calls `std::path::Path::file_stem` on `path`. The text is named, not
/// stated: which dot starts the extension is the standard library's rule.
#[verifier::external_body]
fn file_stem_of(path: &str) -> (r: String)
    ensures
        r@ == path_file_stem(path@),
{
    std::path::Path::new(path).file_stem().unwrap_or_default().to_string_lossy().into_owned()
}

/// The texts of `names`, lower-cased, each once.
pub open spec fn lowercase_set(names: Seq<Seq<char>>) -> Seq<Seq<char>>
    decreases names.len(),
{
    if names.len() == 0 {
        Seq::empty()
    } else {
        set_add(lowercase_set(names.drop_last()), lowercase(names.last()))
    }
}

/// True when `set` is empty (nothing asked) or holds `text`.
pub open spec fn accepted_by(set: Seq<Seq<char>>, text: Seq<char>) -> bool {
    set.len() == 0 || set.contains(text)
}

/// True when the regular expression `regex`, if one is set, matches the
/// stem of the file at `path`, lower-cased.
pub open spec fn stem_regex_accepts(regex: Option<Seq<char>>, path: Seq<char>) -> bool {
    match regex {
        Some(p) => regex_matches(p, lowercase(path_file_stem(path))) == Some(true),
        None => true,
    }
}

/// The criteria of a file search by sets of names.
pub struct FileSearch {
    root: Option<String>,
    exclusive_filenames: Vec<String>,
    exclusive_file_stems: Vec<String>,
    exclusive_file_stem_regex: Option<String>,
    exclusive_exts: Vec<String>,
    exclude_dirs: Vec<String>,
    quit_directory_on_match: bool,
}

impl FileSearch {
    /// The directory to search from; the current one when `None`.
    pub closed spec fn root_view(&self) -> Option<Seq<char>> {
        opt_text(self.root)
    }

    /// The file names looked for, lower-cased; all when empty.
    pub closed spec fn filenames_view(&self) -> Seq<Seq<char>> {
        views(self.exclusive_filenames@)
    }

    /// The file stems looked for, lower-cased; all when empty.
    pub closed spec fn stems_view(&self) -> Seq<Seq<char>> {
        views(self.exclusive_file_stems@)
    }

    /// The regular expression the stems must match, when one is set.
    pub closed spec fn stem_regex_view(&self) -> Option<Seq<char>> {
        opt_text(self.exclusive_file_stem_regex)
    }

    /// The extensions looked for, lower-cased; all when empty.
    pub closed spec fn extensions_view(&self) -> Seq<Seq<char>> {
        views(self.exclusive_exts@)
    }

    /// The canonical paths of the directories left out.
    pub closed spec fn excluded_view(&self) -> Seq<Seq<char>> {
        views(self.exclude_dirs@)
    }

    /// Whether the walk leaves a directory once a file there matched.
    pub closed spec fn quit_view(&self) -> bool {
        self.quit_directory_on_match
    }

    /// True when `other` has the same criteria but for the file names, the
    /// stems and the stem regex.
    pub open spec fn same_but_names(&self, other: &Self) -> bool {
        &&& other.root_view() == self.root_view()
        &&& other.extensions_view() == self.extensions_view()
        &&& other.excluded_view() == self.excluded_view()
        &&& other.quit_view() == self.quit_view()
    }

    /// A search with no criteria.
    pub fn new() -> (r: Self)
        ensures
            r.root_view() is None,
            r.filenames_view() == Seq::<Seq<char>>::empty(),
            r.stems_view() == Seq::<Seq<char>>::empty(),
            r.stem_regex_view() is None,
            r.extensions_view() == Seq::<Seq<char>>::empty(),
            r.excluded_view() == Seq::<Seq<char>>::empty(),
            !r.quit_view(),
    {
        let r = FileSearch {
            root: None,
            exclusive_filenames: Vec::new(),
            exclusive_file_stems: Vec::new(),
            exclusive_file_stem_regex: None,
            exclusive_exts: Vec::new(),
            exclude_dirs: Vec::new(),
            quit_directory_on_match: false,
        };
        assert(r.filenames_view() =~= Seq::<Seq<char>>::empty());
        assert(r.stems_view() =~= Seq::<Seq<char>>::empty());
        assert(r.extensions_view() =~= Seq::<Seq<char>>::empty());
        assert(r.excluded_view() =~= Seq::<Seq<char>>::empty());
        r
    }

    /// Sets the directory to search from.
    pub fn set_root(&mut self, root: &str)
        ensures
            final(self).root_view() == Some(root@),
            final(self).filenames_view() == old(self).filenames_view(),
            final(self).stems_view() == old(self).stems_view(),
            final(self).stem_regex_view() == old(self).stem_regex_view(),
            final(self).extensions_view() == old(self).extensions_view(),
            final(self).excluded_view() == old(self).excluded_view(),
            final(self).quit_view() == old(self).quit_view(),
    {
        self.root = Some(String::from_str(root));
    }

    /// Sets the file names looked for: each lower-cased, once.
    pub fn set_exclusive_filenames(&mut self, filenames: &Vec<String>)
        ensures
            final(self).filenames_view() == lowercase_set(views(filenames@)),
            final(self).stems_view() == old(self).stems_view(),
            final(self).stem_regex_view() == old(self).stem_regex_view(),
            old(self).same_but_names(final(self)),
    {
        self.exclusive_filenames = lowercase_texts(filenames);
    }

    /// Sets the file stems looked for: each lower-cased, once.
    pub fn set_exclusive_file_stems(&mut self, file_stems: &Vec<String>)
        ensures
            final(self).stems_view() == lowercase_set(views(file_stems@)),
            final(self).filenames_view() == old(self).filenames_view(),
            final(self).stem_regex_view() == old(self).stem_regex_view(),
            old(self).same_but_names(final(self)),
    {
        self.exclusive_file_stems = lowercase_texts(file_stems);
    }

    /// Sets the regular expression the stems must match; the error's text
    /// when it does not compile, and then nothing changes.
    pub fn set_exclusive_file_stem_regex(&mut self, file_stem_regex: &str) -> (r: Result<(), String>)
        ensures
            match regex_compile_error(file_stem_regex@) {
                Some(e) => r matches Err(m) && m@ == e && final(self).stem_regex_view() == old(
                    self,
                ).stem_regex_view(),
                None => r is Ok && final(self).stem_regex_view() == Some(file_stem_regex@),
            },
            final(self).filenames_view() == old(self).filenames_view(),
            final(self).stems_view() == old(self).stems_view(),
            old(self).same_but_names(final(self)),
    {
        match regex_error(file_stem_regex) {
            Some(error) => Err(error),
            None => {
                self.exclusive_file_stem_regex = Some(String::from_str(file_stem_regex));
                Ok(())
            },
        }
    }

    /// Sets the extensions looked for: each trimmed and lower-cased, once.
    pub fn set_exclusive_extensions(&mut self, exts: &Vec<String>)
        ensures
            final(self).extensions_view() == extension_set(views(exts@)),
            final(self).root_view() == old(self).root_view(),
            final(self).filenames_view() == old(self).filenames_view(),
            final(self).stems_view() == old(self).stems_view(),
            final(self).stem_regex_view() == old(self).stem_regex_view(),
            final(self).excluded_view() == old(self).excluded_view(),
            final(self).quit_view() == old(self).quit_view(),
    {
        let mut set: Vec<String> = Vec::new();
        let mut i: usize = 0;
        while i < exts.len()
            invariant
                i <= exts@.len(),
                views(set@) == extension_set(views(exts@).take(i as int)),
            decreases exts@.len() - i,
        {
            assert(views(exts@).take(i + 1).drop_last() =~= views(exts@).take(i as int));
            let trimmed: String = trim_str(exts[i].as_str());
            let ext: String = str_to_lowercase(trimmed.as_str());
            if !holds_text(&set, ext.as_str()) {
                let ghost before = views(set@);
                set.push(ext);
                assert(views(set@) =~= before.push(lowercase(crate::text::trim(exts@[i as int]@))));
            }
            i = i + 1;
        }
        assert(views(exts@).take(exts@.len() as int) =~= views(exts@));
        self.exclusive_exts = set;
    }

    /// Sets the directories left out, from what the file system says of
    /// each; the error of the first one that does not exist or is a file,
    /// and then nothing changes.
    pub fn set_exclude_directories(&mut self, dirs: &Vec<DirectoryFacts>) -> (r: Result<(), String>)
        ensures
            match exclusion_error(dir_facts_view(dirs@)) {
                Some(e) => r matches Err(m) && m@ == e && final(self).excluded_view() == old(
                    self,
                ).excluded_view(),
                None => r is Ok && final(self).excluded_view() == directory_set(
                    dir_facts_view(dirs@),
                ),
            },
            final(self).root_view() == old(self).root_view(),
            final(self).filenames_view() == old(self).filenames_view(),
            final(self).stems_view() == old(self).stems_view(),
            final(self).stem_regex_view() == old(self).stem_regex_view(),
            final(self).extensions_view() == old(self).extensions_view(),
            final(self).quit_view() == old(self).quit_view(),
    {
        let ghost dv = dir_facts_view(dirs@);
        let mut set: Vec<String> = Vec::new();
        let mut i: usize = 0;
        while i < dirs.len()
            invariant
                i <= dirs@.len(),
                dv == dir_facts_view(dirs@),
                exclusion_error(dv.take(i as int)) is None,
                views(set@) == directory_set(dv.take(i as int)),
            decreases dirs@.len() - i,
        {
            assert(dv.take(i + 1).drop_last() =~= dv.take(i as int));
            match &dirs[i].canonical {
                Some(canonical) => {
                    if dirs[i].is_file {
                        proof {
                            lemma_exclusion_error_keeps(dv, i + 1);
                        }
                        return Err(String::from_str("Path provided is a file, not a directory."));
                    }
                    if !holds_text(&set, canonical.as_str()) {
                        let ghost before = views(set@);
                        set.push(canonical.clone());
                        assert(views(set@) =~= before.push(canonical@));
                    }
                },
                None => {
                    proof {
                        lemma_exclusion_error_keeps(dv, i + 1);
                    }
                    let mut message: String = String::from_str("Path provided [");
                    crate::text::push_str(&mut message, dirs[i].path.as_str());
                    crate::text::push_str(&mut message, "] cannot be found.");
                    return Err(message);
                },
            }
            i = i + 1;
        }
        assert(dv.take(dirs@.len() as int) =~= dv);
        self.exclude_dirs = set;
        Ok(())
    }

    /// Sets whether the walk leaves a directory once a file there matched.
    pub fn set_quit_directory_on_match(&mut self, state: bool)
        ensures
            final(self).quit_view() == state,
            final(self).root_view() == old(self).root_view(),
            final(self).filenames_view() == old(self).filenames_view(),
            final(self).stems_view() == old(self).stems_view(),
            final(self).stem_regex_view() == old(self).stem_regex_view(),
            final(self).extensions_view() == old(self).extensions_view(),
            final(self).excluded_view() == old(self).excluded_view(),
    {
        self.quit_directory_on_match = state;
    }

    /// The directory to search from, when one is set.
    pub fn get_root(&self) -> (r: Option<&str>)
        ensures
            match r {
                Some(s) => self.root_view() == Some(s@),
                None => self.root_view() is None,
            },
    {
        match &self.root {
            Some(r) => Some(r.as_str()),
            None => None,
        }
    }

    /// True when the file at `path` is looked for: by its name, its stem,
    /// the stem regex and its extension, all four.
    pub fn evaluate_entry_criteria(&self, path: &str) -> (r: bool)
        ensures
            r == (accepted_by(self.filenames_view(), lowercase(path_file_name(path@)))
                && accepted_by(self.stems_view(), lowercase(path_file_stem(path@)))
                && stem_regex_accepts(self.stem_regex_view(), path@) && accepted_by(
                self.extensions_view(),
                lowercase(path_extension(path@)),
            )),
    {
        let is_exclusive_filename: bool = self.is_exclusive_filename(path);
        let is_exclusive_file_stem: bool = self.is_exclusive_file_stem(path);
        let is_exclusive_file_stem_regex: bool = self.is_exclusive_file_stem_regex(path);
        let is_exclusive_extension: bool = self.is_exclusive_extension(path);
        is_exclusive_filename && is_exclusive_file_stem && is_exclusive_file_stem_regex
            && is_exclusive_extension
    }

    /// True when no file names are asked, or the name of the file at
    /// `path`, lower-cased, is one of them.
    pub fn is_exclusive_filename(&self, path: &str) -> (r: bool)
        ensures
            r == accepted_by(self.filenames_view(), lowercase(path_file_name(path@))),
    {
        if self.exclusive_filenames.len() == 0 {
            return true;
        }
        let name: String = file_name_of(path);
        let lower: String = str_to_lowercase(name.as_str());
        holds_text(&self.exclusive_filenames, lower.as_str())
    }

    /// True when no stems are asked, or the stem of the file at `path`,
    /// lower-cased, is one of them.
    pub fn is_exclusive_file_stem(&self, path: &str) -> (r: bool)
        ensures
            r == accepted_by(self.stems_view(), lowercase(path_file_stem(path@))),
    {
        if self.exclusive_file_stems.len() == 0 {
            return true;
        }
        let stem: String = file_stem_of(path);
        let lower: String = str_to_lowercase(stem.as_str());
        holds_text(&self.exclusive_file_stems, lower.as_str())
    }

    /// True when no stem regex is set, or it matches the stem of the file at
    /// `path`, lower-cased.
    pub fn is_exclusive_file_stem_regex(&self, path: &str) -> (r: bool)
        ensures
            r == stem_regex_accepts(self.stem_regex_view(), path@),
    {
        match &self.exclusive_file_stem_regex {
            Some(pattern) => {
                let stem: String = file_stem_of(path);
                let lower: String = str_to_lowercase(stem.as_str());
                regex_match(pattern.as_str(), lower.as_str()) == Some(true)
            },
            None => true,
        }
    }

    /// True when no extensions are asked, or the extension of the file at
    /// `path`, lower-cased, is one of them.
    pub fn is_exclusive_extension(&self, path: &str) -> (r: bool)
        ensures
            r == accepted_by(self.extensions_view(), lowercase(path_extension(path@))),
    {
        if self.exclusive_exts.len() == 0 {
            return true;
        }
        let ext: String = extension_of(path);
        let lower: String = str_to_lowercase(ext.as_str());
        holds_text(&self.exclusive_exts, lower.as_str())
    }

    /// True when the entry is in a directory left out: a file whose parent
    /// is one, or one itself.
    pub fn is_excluded_directory(&self, entry: &EntryFacts) -> (r: bool)
        ensures
            r == exists|i: int|
                0 <= i < self.excluded_view().len() && same_directory(
                    entry.path@,
                    entry.is_file,
                    opt_text(entry.parent),
                    #[trigger] self.excluded_view()[i],
                ),
    {
        let ghost ev = self.excluded_view();
        let ghost parent = opt_text(entry.parent);
        let mut i: usize = 0;
        while i < self.exclude_dirs.len()
            invariant
                i <= self.exclude_dirs@.len(),
                ev == self.excluded_view(),
                parent == opt_text(entry.parent),
                forall|j: int|
                    0 <= j < i ==> !same_directory(entry.path@, entry.is_file, parent, #[trigger] ev[j]),
            decreases self.exclude_dirs@.len() - i,
        {
            let dir: &str = self.exclude_dirs[i].as_str();
            assert(ev[i as int] == dir@);
            if is_same_directory(entry, dir) {
                return true;
            }
            i = i + 1;
        }
        false
    }

    /// Whether the walk leaves a directory once a file there matched.
    pub fn quits_directory_on_match(&self) -> (r: bool)
        ensures
            r == self.quit_view(),
    {
        self.quit_directory_on_match
    }
}

/// True when the entry is in the directory `dir`: a file whose parent is
/// `dir`, or `dir` itself.
pub fn is_same_directory(entry: &EntryFacts, dir: &str) -> (r: bool)
    ensures
        r == same_directory(entry.path@, entry.is_file, opt_text(entry.parent), dir@),
{
    match &entry.parent {
        Some(p) => if entry.is_file {
            str_eq(p.as_str(), dir)
        } else {
            str_eq(entry.path.as_str(), dir)
        },
        None => str_eq(entry.path.as_str(), dir),
    }
}

/// The texts of `names`, lower-cased, each once, in the order first seen.
fn lowercase_texts(names: &Vec<String>) -> (r: Vec<String>)
    ensures
        views(r@) == lowercase_set(views(names@)),
{
    let mut set: Vec<String> = Vec::new();
    let mut i: usize = 0;
    while i < names.len()
        invariant
            i <= names@.len(),
            views(set@) == lowercase_set(views(names@).take(i as int)),
        decreases names@.len() - i,
    {
        assert(views(names@).take(i + 1).drop_last() =~= views(names@).take(i as int));
        let name: String = str_to_lowercase(names[i].as_str());
        if !holds_text(&set, name.as_str()) {
            let ghost before = views(set@);
            set.push(name);
            assert(views(set@) =~= before.push(lowercase(names@[i as int]@)));
        }
        i = i + 1;
    }
    assert(views(names@).take(names@.len() as int) =~= views(names@));
    set
}

} // verus!
