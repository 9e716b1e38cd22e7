//! A path and whether it has been made canonical. Reading the file system
//! (existence, kind, canonical form) is done by the caller, who hands the
//! answers in.
use vstd::prelude::*;

use crate::text::{chars_of, chars_start_with, string_from_range};

verus! {

/// The text of `std::path::Path::new(base).join(path)`, as
/// `to_string_lossy` gives it.
pub uninterp spec fn joined_path(base: Seq<char>, path: Seq<char>) -> Seq<char>;

/// True when `c` separates the components of a path on some platform.
pub open spec fn path_separator(c: char) -> bool {
    c == '/' || c == '\\'
}

/// True when `path` is one plain relative component: not empty, not `.` or
/// `..`, with no separator and no `:` (which starts a drive prefix).
pub open spec fn plain_component(path: Seq<char>) -> bool {
    &&& path.len() > 0
    &&& path != seq!['.']
    &&& path != seq!['.', '.']
    &&& forall|i: int| 0 <= i < path.len() ==> !path_separator(#[trigger] path[i]) && path[i] != ':'
}

/// True when `base` is not empty, ends in neither a separator nor `:`, and
/// is not a verbatim path (one that starts with `\\?\`, which `push`
/// normalises).
pub open spec fn open_base(base: Seq<char>) -> bool {
    &&& base.len() > 0
    &&& !path_separator(base.last())
    &&& base.last() != ':'
    &&& !crate::text::seq_starts_with(base, verbatim_prefix())
}

/// True when `joined` is `base`, one separator, and `path`.
pub open spec fn joined_with_separator(base: Seq<char>, path: Seq<char>, joined: Seq<char>) -> bool {
    exists|sep: char| path_separator(sep) && joined == base + seq![sep] + path
}

/// Calls `std::path::Path::join` on `base` and `path` and returns the text of
/// the result. Its documentation (`PathBuf::push`) says that a relative path
/// is added after one separator, and that a verbatim base is normalised
/// (`.` and `..` removed); the first is stated for a plain component (not
/// `.` or `..`) added to a base that is not verbatim and does not end in a
/// separator. The other cases (absolute and prefixed paths, verbatim bases,
/// a base ending in a separator) are left to the name: they differ between
/// platforms.
#[verifier::external_body]
fn join_text(base: &str, path: &str) -> (r: String)
    ensures
        r@ == joined_path(base@, path@),
        plain_component(path@) && open_base(base@) ==> joined_with_separator(base@, path@, r@),
{
    std::path::Path::new(base).join(path).to_string_lossy().into_owned()
}

/// The prefix that Windows puts in front of a canonical path.
pub open spec fn verbatim_prefix() -> Seq<char> {
    seq!['\\', '\\', '?', '\\']
}

/// `s` without the prefix `\\?\`, if it has it.
pub open spec fn without_verbatim_prefix(s: Seq<char>) -> Seq<char> {
    if crate::text::seq_starts_with(s, verbatim_prefix()) {
        s.skip(4)
    } else {
        s
    }
}

/// A path.
#[derive(Clone, Debug)]
pub struct WPath {
    path: String,
    is_canonical: bool,
}

impl WPath {
    /// The text of the path.
    pub closed spec fn text(&self) -> Seq<char> {
        self.path@
    }

    /// True when the path has been made canonical.
    pub closed spec fn canonical(&self) -> bool {
        self.is_canonical
    }

    /// The path `string`.
    pub fn from_string(string: &str) -> (r: Self)
        ensures
            r.text() == string@,
            !r.canonical(),
    {
        WPath { path: String::from_str(string), is_canonical: false }
    }

    /// The path whose text is `path` (the caller turns a `PathBuf` into
    /// text).
    pub fn from_path_buf(path: &str) -> (r: Self)
        ensures
            r.text() == path@,
            !r.canonical(),
    {
        WPath { path: String::from_str(path), is_canonical: false }
    }

    /// The path whose text is `path` (the caller turns a `Path` into text).
    pub fn from_path(path: &str) -> (r: Self)
        ensures
            r.text() == path@,
            !r.canonical(),
    {
        WPath { path: String::from_str(path), is_canonical: false }
    }

    /// This path followed by `path`, as `std::path::Path::join` joins them.
    pub fn join(&self, path: &str) -> (r: Self)
        ensures
            r.text() == joined_path(self.text(), path@),
            plain_component(path@) && open_base(self.text()) ==> joined_with_separator(
                self.text(),
                path@,
                r.text(),
            ),
            !r.canonical(),
    {
        WPath { path: join_text(self.path.as_str(), path), is_canonical: false }
    }

    /// Takes the result of making the path canonical: the canonical path, or
    /// the error. On success the path becomes the canonical path and `None`
    /// is returned; otherwise the path stays and the error is returned.
    pub fn to_canonical(&mut self, canonical: Result<String, String>) -> (r: Option<String>)
        ensures
            match canonical {
                Ok(c) => r is None && final(self).text() == c@ && final(self).canonical(),
                Err(e) => r == Some(e) && final(self).text() == old(self).text()
                    && final(self).canonical() == old(self).canonical(),
            },
    {
        match canonical {
            Ok(path) => {
                self.path = path;
                self.is_canonical = true;
                None
            },
            Err(error) => Some(error),
        }
    }

    /// Moves to the parent of the path when the path is a file that has a
    /// parent; `is_file` and `parent` are what the file system says of it.
    pub fn to_directory(&mut self, is_file: bool, parent: Option<String>)
        ensures
            final(self).canonical() == old(self).canonical(),
            final(self).text() == match (is_file, parent) {
                (true, Some(p)) => p@,
                _ => old(self).text(),
            },
    {
        if is_file {
            if let Some(parent_path) = parent {
                self.path = parent_path;
            }
        }
    }

    /// The canonical path: this path when it is canonical already, else the
    /// result of making it canonical, which the file system gave.
    pub fn as_canonical(&self, canonical: Result<String, String>) -> (r: Result<WPath, String>)
        ensures
            self.canonical() ==> (r matches Ok(p) && p.text() == self.text() && p.canonical()),
            !self.canonical() ==> match canonical {
                Ok(c) => r matches Ok(p) && p.text() == c@ && p.canonical(),
                Err(e) => r == Err::<WPath, String>(e),
            },
    {
        if self.is_canonical {
            return Ok(WPath { path: self.path.clone(), is_canonical: true });
        }
        match canonical {
            Ok(path) => Ok(WPath { path, is_canonical: true }),
            Err(error) => Err(error),
        }
    }

    /// The parent of the path when the path is a file that has a parent, the
    /// path itself otherwise.
    pub fn as_directory(&self, is_file: bool, parent: Option<String>) -> (r: WPath)
        ensures
            r.canonical() == self.canonical(),
            r.text() == match (is_file, parent) {
                (true, Some(p)) => p@,
                _ => self.text(),
            },
    {
        if is_file {
            if let Some(parent_path) = parent {
                return WPath { path: parent_path, is_canonical: self.is_canonical };
            }
        }
        WPath { path: self.path.clone(), is_canonical: self.is_canonical }
    }

    /// A copy of the path.
    pub fn duplicate(&self) -> (r: WPath)
        ensures
            r.text() == self.text(),
            r.canonical() == self.canonical(),
    {
        WPath { path: self.path.clone(), is_canonical: self.is_canonical }
    }

    /// The text of the path.
    pub fn get_path_buf(&self) -> (r: &str)
        ensures
            r@ == self.text(),
    {
        self.path.as_str()
    }

    /// The canonical path as text, without the prefix `\\?\`; `None` when
    /// the path could not be made canonical.
    pub fn get_canonical_string(&self, canonical: Result<String, String>) -> (r: Option<String>)
        ensures
            self.canonical() ==> (r matches Some(s) && s@ == without_verbatim_prefix(self.text())),
            !self.canonical() ==> match canonical {
                Ok(c) => r matches Some(s) && s@ == without_verbatim_prefix(c@),
                Err(_) => r is None,
            },
    {
        let canonical_path: Result<WPath, String> = self.as_canonical(canonical);
        match canonical_path {
            Ok(path) => {
                let v: Vec<char> = chars_of(path.path.as_str());
                let prefix: Vec<char> = vec!['\\', '\\', '?', '\\'];
                assert(prefix@ =~= verbatim_prefix());
                if chars_start_with(&v, &prefix) {
                    let stripped: String = string_from_range(&v, 4, v.len());
                    assert(stripped@ =~= v@.skip(4));
                    return Some(stripped);
                }
                Some(path.path)
            },
            Err(_) => None,
        }
    }
}

} // verus!
