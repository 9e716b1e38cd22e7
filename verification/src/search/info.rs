//! The information on a found file that the search prints.
use vstd::prelude::*;

verus! {

/// A found file: its path as printed, its size and its creation and
/// modification times, each already formatted.
pub struct FileInfo {
    path: String,
    size: String,
    created: String,
    modified: String,
}

impl FileInfo {
    /// The path as printed.
    pub closed spec fn path_view(&self) -> Seq<char> {
        self.path@
    }

    /// The formatted size.
    pub closed spec fn size_view(&self) -> Seq<char> {
        self.size@
    }

    /// The formatted creation time.
    pub closed spec fn created_view(&self) -> Seq<char> {
        self.created@
    }

    /// The formatted modification time.
    pub closed spec fn modified_view(&self) -> Seq<char> {
        self.modified@
    }

    /// The information of a file.
    pub fn new(path: String, size: String, created: String, modified: String) -> (r: Self)
        ensures
            r.path_view() == path@,
            r.size_view() == size@,
            r.created_view() == created@,
            r.modified_view() == modified@,
    {
        FileInfo { path, size, created, modified }
    }

    /// The path as printed.
    pub fn get_path(&self) -> (r: &str)
        ensures
            r@ == self.path_view(),
    {
        self.path.as_str()
    }

    /// The formatted size.
    pub fn get_formatted_size(&self) -> (r: String)
        ensures
            r@ == self.size_view(),
    {
        self.size.clone()
    }

    /// The formatted creation time.
    pub fn get_formatted_creation_time(&self) -> (r: String)
        ensures
            r@ == self.created_view(),
    {
        self.created.clone()
    }

    /// The formatted modification time.
    pub fn get_formatted_modified_time(&self) -> (r: String)
        ensures
            r@ == self.modified_view(),
    {
        self.modified.clone()
    }
}

/// What a found file is sorted by: its size in bytes, and its creation and
/// modification times in nanoseconds from the Unix epoch (negative before
/// it; `None` when the file system does not tell).
#[derive(Debug, Clone, Copy)]
pub struct FileKeys {
    pub size: u64,
    pub created: Option<i128>,
    pub modified: Option<i128>,
}

} // verus!
