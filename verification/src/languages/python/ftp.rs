//! The Python release server: the links of a directory listing, the parts of
//! a release file's name, and the choice of a setup file for a version.
use vstd::prelude::*;

use crate::general::version::{
    pre_release_text, qualifier_text, semantic_version_spec, three_part_text, two_part_text, version_text,
    PreRelease, SemanticVersion,
};
use crate::terminal::ansi_sequences::{ANSICode, WhiteANSI, YellowANSI};
use crate::terminal::terminal::{painted, Terminal};
use crate::general::pre_release_order::pre_release_before;
use crate::text::{
    byte_boundary, char_index_at_byte, char_index_of_byte, char_is_numeric, chars_of,
    is_numeric_char, lowercase, push_str, split_chars, split_seq, str_eq, str_to_lowercase,
    string_from_chars, string_from_range, utf8_len, views,
};

verus! {

/// For each match of the regular expression `pattern` in `text`, in order,
/// the text of its first group (`None` when the group took no part in the
/// match); `None` when `pattern` does not compile.
pub uninterp spec fn regex_group_captures(pattern: Seq<char>, text: Seq<char>) -> Option<Seq<Option<Seq<char>>>>;

/// Compiles `pattern` with `regex::Regex::new` and returns, for each match
/// of `regex::Regex::captures_iter` on `text`, the first group
/// (`Captures::get(1)`); `None` when the pattern does not compile. The
/// result is named, not stated.
#[verifier::external_body]
fn regex_first_groups(pattern: &str, text: &str) -> (r: Option<Vec<Option<String>>>)
    ensures
        regex_group_captures(pattern@, text@) == match r {
            Some(v) => Some(v@.map_values(|g: Option<String>| opt_view(g))),
            None => None::<Seq<Option<Seq<char>>>>,
        },
{
    match regex::Regex::new(pattern) {
        Ok(regex) => Some(
            regex.captures_iter(text).map(|c| c.get(1).map(|m| m.as_str().to_string())).collect(),
        ),
        Err(_) => None,
    }
}

/// The pattern of a link in a listing: `<a href="` and the shortest text
/// up to the next `"`, which is the link.
pub open spec fn href_pattern() -> Seq<char> {
    "<a href=\"(.*?)\""@
}

/// The `href` targets of the anchors `<a href="...">` of an HTML page, in
/// the order in which they appear: the first group of each match of
/// `href_pattern`.
pub open spec fn href_links(body: Seq<char>) -> Seq<Seq<char>> {
    match regex_group_captures(href_pattern(), body) {
        Some(groups) => groups.map_values(
            |g: Option<Seq<char>>|
                match g {
                    Some(t) => t,
                    None => Seq::empty(),
                },
        ),
        None => Seq::empty(),
    }
}

/// The `href` targets of the anchors of `body`.
fn href_captures(body: &str) -> (r: Vec<String>)
    ensures
        views(r@) == href_links(body@),
{
    let pattern: &str = "<a href=\"(.*?)\"";
    assert(pattern@ == href_pattern());
    match regex_first_groups(pattern, body) {
        Some(groups) => {
            let ghost expected = href_links(body@);
            let mut links: Vec<String> = Vec::new();
            let mut i: usize = 0;
            while i < groups.len()
                invariant
                    i <= groups@.len(),
                    regex_group_captures(href_pattern(), body@) == Some(
                        groups@.map_values(|g: Option<String>| opt_view(g)),
                    ),
                    expected == href_links(body@),
                    views(links@) == expected.take(i as int),
                decreases groups@.len() - i,
            {
                let link: String = match &groups[i] {
                    Some(t) => t.clone(),
                    None => String::new(),
                };
                let ghost before = views(links@);
                links.push(link);
                assert(views(links@) =~= before.push(link@));
                assert(expected.take(i + 1) =~= expected.take(i as int).push(expected[i as int]));
                i = i + 1;
            }
            assert(expected.take(i as int) =~= expected);
            links
        },
        None => {
            let links: Vec<String> = Vec::new();
            assert(views(links@) =~= href_links(body@));
            links
        },
    }
}

/// A link of a directory listing.
#[derive(Debug, Clone)]
pub enum LinkType {
    File(String),
    Directory(String),
}

/// A link as a flag that is set for directories, and its text.
pub open spec fn link_view(l: LinkType) -> (bool, Seq<char>) {
    match l {
        LinkType::File(s) => (false, s@),
        LinkType::Directory(s) => (true, s@),
    }
}

/// The views of a sequence of links.
pub open spec fn links_view(s: Seq<LinkType>) -> Seq<(bool, Seq<char>)> {
    s.map_values(|l: LinkType| link_view(l))
}

/// What `LinkType::new` makes of `link`: nothing for the parent directory
/// `../`, a directory when the link ends with `/`, a file otherwise.
pub open spec fn link_spec(link: Seq<char>) -> Option<(bool, Seq<char>)> {
    if link == "../"@ {
        None
    } else {
        Some((link.len() > 0 && link.last() == '/', link))
    }
}

/// The links that a listing with the anchors `hrefs` holds: each link once,
/// in the order of its first appearance, without the parent directory.
pub open spec fn collect_links(hrefs: Seq<Seq<char>>) -> Seq<(bool, Seq<char>)>
    decreases hrefs.len(),
{
    if hrefs.len() == 0 {
        Seq::empty()
    } else {
        let prev = collect_links(hrefs.drop_last());
        match link_spec(hrefs.last()) {
            Some(l) => if prev.contains(l) {
                prev
            } else {
                prev.push(l)
            },
            None => prev,
        }
    }
}

impl LinkType {
    /// The link for `link`; `None` for the parent directory `../`.
    pub fn new(link: &str) -> (r: Option<Self>)
        ensures
            match link_spec(link@) {
                Some(v) => r matches Some(l) && link_view(l) == v,
                None => r is None,
            },
    {
        if !str_eq(link, "../") {
            let v: Vec<char> = chars_of(link);
            let link_type = if v.len() > 0 && v[v.len() - 1] == '/' {
                LinkType::Directory(String::from_str(link))
            } else {
                LinkType::File(String::from_str(link))
            };
            return Some(link_type);
        }
        None
    }

    /// A copy of this link.
    pub fn duplicate(&self) -> (r: Self)
        ensures
            link_view(r) == link_view(*self),
    {
        match self {
            LinkType::File(s) => LinkType::File(s.clone()),
            LinkType::Directory(s) => LinkType::Directory(s.clone()),
        }
    }

    /// True when the two links are the same.
    pub fn same_as(&self, other: &LinkType) -> (r: bool)
        ensures
            r == (link_view(*self) == link_view(*other)),
    {
        match (self, other) {
            (LinkType::File(a), LinkType::File(b)) => str_eq(a.as_str(), b.as_str()),
            (LinkType::Directory(a), LinkType::Directory(b)) => str_eq(a.as_str(), b.as_str()),
            _ => false,
        }
    }
}

/// True when `links` holds a link equal to `link`.
pub(crate) fn holds_link(links: &Vec<LinkType>, link: &LinkType) -> (r: bool)
    ensures
        r == links_view(links@).contains(link_view(*link)),
{
    let mut i: usize = 0;
    while i < links.len()
        invariant
            i <= links@.len(),
            forall|j: int| 0 <= j < i ==> link_view(#[trigger] links@[j]) != link_view(*link),
        decreases links@.len() - i,
    {
        if links[i].same_as(link) {
            assert(links_view(links@)[i as int] == link_view(*link));
            return true;
        }
        i = i + 1;
    }
    proof {
        if links_view(links@).contains(link_view(*link)) {
            let k = choose|k: int| 0 <= k < links_view(links@).len() && links_view(links@)[k] == link_view(*link);
            assert(link_view(links@[k]) == link_view(*link));
        }
    }
    false
}

/// The links of the anchors `hrefs`, as `collect_links` says.
pub(crate) fn links_of(hrefs: &Vec<String>) -> (r: Vec<LinkType>)
    ensures
        links_view(r@) == collect_links(views(hrefs@)),
{
    let mut links: Vec<LinkType> = Vec::new();
    let mut i: usize = 0;
    while i < hrefs.len()
        invariant
            i <= hrefs@.len(),
            links_view(links@) == collect_links(views(hrefs@).take(i as int)),
        decreases hrefs@.len() - i,
    {
        assert(views(hrefs@).take(i + 1).drop_last() =~= views(hrefs@).take(i as int));
        assert(views(hrefs@).take(i + 1).last() == hrefs@[i as int]@);
        let link: Option<LinkType> = LinkType::new(hrefs[i].as_str());
        if let Some(link) = link {
            if !holds_link(&links, &link) {
                let ghost before = links_view(links@);
                links.push(link);
                assert(links_view(links@) =~= before.push(link_view(link)));
            }
        }
        i = i + 1;
    }
    assert(views(hrefs@).take(i as int) =~= views(hrefs@));
    links
}

/// A directory of the release server: its address and its links.
pub struct FileStructure {
    url: String,
    structure: Vec<LinkType>,
}

/// The text that `FileStructure::list_structure` gives for `links`: a line
/// `Directory: ...` or `File: ...` for each.
pub open spec fn structure_text(links: Seq<(bool, Seq<char>)>) -> Seq<char>
    decreases links.len(),
{
    if links.len() == 0 {
        Seq::empty()
    } else {
        let l = links.last();
        structure_text(links.drop_last()) + if l.0 {
            "Directory: "@
        } else {
            "File: "@
        } + l.1 + seq!['\n']
    }
}

impl FileStructure {
    /// The address of the directory.
    pub closed spec fn url_view(&self) -> Seq<char> {
        self.url@
    }

    /// The links of the directory.
    pub closed spec fn links(&self) -> Seq<(bool, Seq<char>)> {
        links_view(self.structure@)
    }

    /// The directory at `url` whose listing is `body`; `None` when the
    /// listing holds no link.
    pub fn new(url: &str, body: &str) -> (r: Option<Self>)
        ensures
            r is None <==> collect_links(href_links(body@)).len() == 0,
            r matches Some(f) ==> f.url_view() == url@ && f.links() == collect_links(
                href_links(body@),
            ),
    {
        let hrefs: Vec<String> = href_captures(body);
        let structure: Vec<LinkType> = links_of(&hrefs);
        if structure.len() == 0 {
            return None;
        }
        Some(FileStructure { url: String::from_str(url), structure })
    }

    /// The address of the subdirectory `directory`; `None` unless
    /// `directory` is a directory link.
    pub fn directory_url(&self, directory: &str) -> (r: Option<String>)
        ensures
            match link_spec(directory@) {
                Some(l) if l.0 => r matches Some(u) && u@ == self.url_view() + directory@,
                _ => r is None,
            },
    {
        let link_type: Option<LinkType> = LinkType::new(directory);
        if let Some(link_type) = link_type {
            match link_type {
                LinkType::Directory(dir) => {
                    let mut new_url: String = self.url.clone();
                    push_str(&mut new_url, dir.as_str());
                    return Some(new_url);
                },
                LinkType::File(_) => {},
            }
        }
        None
    }

    /// Moves into the subdirectory `directory`, whose listing is `body`.
    /// True when `directory` is a directory link and its listing holds a
    /// link; otherwise nothing changes.
    pub fn access_directory(&mut self, directory: &str, body: &str) -> (r: bool)
        ensures
            r == (link_spec(directory@) matches Some(l) && l.0 && collect_links(
                href_links(body@),
            ).len() > 0),
            r ==> final(self).url_view() == old(self).url_view() + directory@,
            r ==> final(self).links() == collect_links(href_links(body@)),
            !r ==> final(self).url_view() == old(self).url_view(),
            !r ==> final(self).links() == old(self).links(),
    {
        let new_url: Option<String> = self.directory_url(directory);
        if let Some(new_url) = new_url {
            let structure: Option<FileStructure> = FileStructure::new(new_url.as_str(), body);
            if let Some(structure) = structure {
                *self = structure;
                return true;
            }
        }
        false
    }

    /// The address of the file `file` of this directory; `None` unless
    /// `file` is a file link of the directory.
    pub fn access_file(&mut self, file: &str) -> (r: Option<String>)
        ensures
            final(self).url_view() == old(self).url_view(),
            final(self).links() == old(self).links(),
            match link_spec(file@) {
                Some(l) if !l.0 && old(self).links().contains(l) => r matches Some(u) && u@
                    == old(self).url_view() + file@,
                _ => r is None,
            },
    {
        let link_type: Option<LinkType> = LinkType::new(file);
        if let Some(link_type) = link_type {
            if holds_link(&self.structure, &link_type) {
                match link_type {
                    LinkType::File(f) => {
                        let mut file_url: String = self.url.clone();
                        push_str(&mut file_url, f.as_str());
                        return Some(file_url);
                    },
                    LinkType::Directory(_) => {},
                }
            }
        }
        None
    }

    /// The links of the directory.
    pub fn get_structure(&self) -> (r: Vec<LinkType>)
        ensures
            links_view(r@) == self.links(),
    {
        let mut links: Vec<LinkType> = Vec::new();
        let mut i: usize = 0;
        while i < self.structure.len()
            invariant
                i <= self.structure@.len(),
                links_view(links@) == links_view(self.structure@).take(i as int),
            decreases self.structure@.len() - i,
        {
            let link: LinkType = self.structure[i].duplicate();
            let ghost before = links_view(links@);
            links.push(link);
            assert(links_view(links@) =~= before.push(link_view(link)));
            assert(links_view(self.structure@).take(i + 1) =~= links_view(self.structure@).take(
                i as int,
            ).push(link_view(self.structure@[i as int])));
            i = i + 1;
        }
        assert(links_view(self.structure@).take(i as int) =~= links_view(self.structure@));
        links
    }

    /// One line per link: `Directory: ...` or `File: ...`.
    pub fn list_structure(&self) -> (r: String)
        ensures
            r@ == structure_text(self.links()),
    {
        let mut text: String = String::new();
        let mut i: usize = 0;
        while i < self.structure.len()
            invariant
                i <= self.structure@.len(),
                text@ == structure_text(links_view(self.structure@).take(i as int)),
            decreases self.structure@.len() - i,
        {
            assert(links_view(self.structure@).take(i + 1).drop_last() =~= links_view(
                self.structure@,
            ).take(i as int));
            match &self.structure[i] {
                LinkType::Directory(dir) => {
                    push_str(&mut text, "Directory: ");
                    push_str(&mut text, dir.as_str());
                },
                LinkType::File(file) => {
                    push_str(&mut text, "File: ");
                    push_str(&mut text, file.as_str());
                },
            }
            crate::text::push_char(&mut text, '\n');
            i = i + 1;
        }
        assert(links_view(self.structure@).take(i as int) =~= links_view(self.structure@));
        text
    }
}


/// The parts of a version as `SemanticVersion::from_string` reads them:
/// major, minor, patch, qualifier and pre-release.
pub type VersionParts = (usize, usize, usize, Seq<char>, Option<PreRelease>);

/// The parts of a version.
pub open spec fn version_parts(v: SemanticVersion) -> VersionParts {
    (v.major, v.minor, v.patch, v.qualifier@, v.pre_release)
}

/// What `PythonFilename::process_split` has read of the second part of a
/// name: the version text, the dots taken, whether the current number has a
/// digit, whether the last character was a digit, whether it was a dot, where
/// the text ends and whether reading stopped.
pub type SplitScan = (Seq<char>, nat, bool, bool, bool, nat, bool);

/// One character of the scan of `process_split`; `last` is the byte length
/// of the part less one, which the scan compares with character positions.
pub open spec fn split_scan_step(st: SplitScan, idx: int, ch: char, last: int, tags: bool) -> SplitScan {
    let (part, segments, filled, p_numeric, p_separate, split_idx, stopped) = st;
    if stopped {
        st
    } else if is_numeric_char(ch) && idx != last {
        (part.push(ch), segments, true, true, false, split_idx, false)
    } else if tags && (ch == 'a' || ch == 'b' || ch == 'c') && idx != last && filled {
        (part.push(ch), segments, false, false, false, split_idx, false)
    } else if ch == '.' && segments == 2 && p_numeric && filled {
        (part, segments, filled, p_numeric, p_separate, idx as nat, true)
    } else if (!p_numeric && !p_separate) || idx == last {
        (Seq::empty(), segments, filled, p_numeric, p_separate, split_idx, true)
    } else if ch == '.' && p_numeric {
        (part.push('.'), segments + 1, false, false, true, split_idx, false)
    } else {
        (part, segments, filled, false, false, split_idx, false)
    }
}

/// The scan of `process_split` after the first `n` characters of `s`.
pub open spec fn split_scan(s: Seq<char>, n: int, tags: bool) -> SplitScan
    decreases n,
{
    if n <= 0 {
        (Seq::empty(), 0, false, false, false, 0, false)
    } else {
        split_scan_step(split_scan(s, n - 1, tags), n - 1, s[n - 1], utf8_len(s) - 1, tags)
    }
}

/// The inputs on which `process_split` does not panic: there is a second
/// part, and when a version is read from it, the byte offset after the
/// version's end falls between two characters.
pub open spec fn process_split_ok(split: Seq<Seq<char>>, tags: bool) -> bool {
    split.len() >= 2 && {
        let st = split_scan(split[1], split[1].len() as int, tags);
        st.0.len() > 0 ==> byte_boundary(split[1], st.5 + 1)
    }
}

/// What `process_split` makes of the pieces of a name: when a version such as
/// `3.12.0` or `3.13.0b1` begins the second piece, that piece is replaced by
/// the version and what follows it.
pub open spec fn process_split_spec(split: Seq<Seq<char>>, tags: bool) -> Seq<Seq<char>> {
    let second = split[1];
    let st = split_scan(second, second.len() as int, tags);
    if st.0.len() > 0 {
        split.take(1) + seq![st.0, second.skip(char_index_of_byte(second, st.5 + 1))]
            + split.skip(2)
    } else {
        split
    }
}

/// True for the processor architectures of release files.
pub open spec fn is_architecture(seg: Seq<char>) -> bool {
    seg == "amd64"@ || seg == "arm64"@ || seg == "ia64"@
}

/// The package type that a name piece, with the extension, gives.
pub open spec fn package_type_of(seg: Seq<char>, ext: Seq<char>) -> Option<Seq<char>> {
    if ext == "tgz"@ {
        Some("source"@)
    } else if seg == "embed"@ || seg == "webinstall"@ {
        Some(seg)
    } else {
        None
    }
}

/// The platform that a name piece, with the extension, gives.
pub open spec fn platform_of(seg: Seq<char>, ext: Seq<char>) -> Option<Seq<char>> {
    if ext == "exe"@ || ext == "msi"@ || seg == "win32"@ {
        Some("windows"@)
    } else if crate::text::seq_starts_with(seg, "macos"@) || ext == "pkg"@ || ext == "dmg"@ {
        Some("macos"@)
    } else if ext == "tgz"@ {
        Some("any"@)
    } else {
        None
    }
}

/// What is read of a name: name, version, architecture, package type and
/// platform.
pub type Components = (
    Option<Seq<char>>,
    Option<VersionParts>,
    Seq<char>,
    Seq<char>,
    Option<Seq<char>>,
);

/// What one lower-cased name piece changes: each piece that is a name, a
/// version, an architecture, a package type or a platform sets that part.
pub open spec fn component_step(c: Components, seg: Seq<char>, ext: Seq<char>) -> Components {
    (
        if seg == "python"@ {
            Some(seg)
        } else {
            c.0
        },
        match semantic_version_spec(seg) {
            Some(v) => Some(v),
            None => c.1,
        },
        if is_architecture(seg) {
            seg
        } else {
            c.2
        },
        match package_type_of(seg, ext) {
            Some(p) => p,
            None => c.3,
        },
        match platform_of(seg, ext) {
            Some(p) => Some(p),
            None => c.4,
        },
    )
}

/// The components after the first `n` pieces.
pub open spec fn components_fold(segs: Seq<Seq<char>>, ext: Seq<char>, n: int) -> Components
    decreases n,
{
    if n <= 0 {
        (None, None, "n/a"@, "standard"@, None)
    } else {
        component_step(components_fold(segs, ext, n - 1), lowercase(segs[n - 1]), ext)
    }
}

/// What `get_components` reads from the part of a name before its extension.
pub open spec fn components_spec(main: Seq<char>, ext: Seq<char>) -> Components {
    let segs = process_split_spec(split_seq(main, '-'), true);
    components_fold(segs, ext, segs.len() as int)
}

/// Law: the architecture read from the pieces of a release file name is the
/// last piece that is `amd64`, `arm64` or `ia64` (ignoring case): when piece
/// `i` is one of them and no later piece is, the architecture is that piece.
pub proof fn law_architecture_piece_is_read(segs: Seq<Seq<char>>, ext: Seq<char>, n: int, i: int)
    requires
        0 <= i < n <= segs.len(),
        lowercase(segs[i]) == "amd64"@ || lowercase(segs[i]) == "arm64"@ || lowercase(segs[i]) == "ia64"@,
        forall|j: int|
            i < j < n ==> lowercase(#[trigger] segs[j]) != "amd64"@ && lowercase(segs[j]) != "arm64"@
                && lowercase(segs[j]) != "ia64"@,
    ensures
        components_fold(segs, ext, n).2 == lowercase(segs[i]),
    decreases n,
{
    if n - 1 > i {
        law_architecture_piece_is_read(segs, ext, n - 1, i);
        let seg = lowercase(segs[n - 1]);
        assert(!is_architecture(seg));
    }
}

/// The position of the last `c` in `s`.
pub open spec fn last_index_of(s: Seq<char>, c: char) -> Option<nat>
    decreases s.len(),
{
    if s.len() == 0 {
        None
    } else if s.last() == c {
        Some((s.len() - 1) as nat)
    } else {
        last_index_of(s.drop_last(), c)
    }
}

/// The extensions of release files.
pub open spec fn valid_extension(e: Seq<char>) -> bool {
    e == "msi"@ || e == "exe"@ || e == "zip"@ || e == "pkg"@ || e == "dmg"@ || e == "tgz"@
}

/// The parts of a release file name: name, version, architecture, package
/// type, platform and extension.
pub type FilenameParts = (Seq<char>, VersionParts, Seq<char>, Seq<char>, Seq<char>, Seq<char>);

/// What `PythonFilename::new` reads from a file name: present when the name
/// has a known extension after its last dot, and a name, a version and a
/// platform are found in the pieces before it.
pub open spec fn filename_spec(f: Seq<char>) -> Option<FilenameParts> {
    match last_index_of(f, '.') {
        None => None,
        Some(k) => {
            let main = f.take(k as int);
            let ext = f.skip(k as int + 1);
            if !valid_extension(ext) {
                None
            } else {
                let c = components_spec(main, ext);
                match (c.0, c.1, c.4) {
                    (Some(n), Some(v), Some(p)) => Some((n, v, c.2, c.3, p, ext)),
                    _ => None,
                }
            }
        },
    }
}

/// The file names on which `PythonFilename::new` does not panic: with a known
/// extension, the part before it has a `-` and `process_split` reads it.
pub open spec fn filename_ok(f: Seq<char>) -> bool {
    match last_index_of(f, '.') {
        Some(k) => valid_extension(f.skip(k as int + 1)) ==> process_split_ok(
            split_seq(f.take(k as int), '-'),
            true,
        ),
        None => true,
    }
}

/// The view of an optional string.
pub open spec fn opt_view(o: Option<String>) -> Option<Seq<char>> {
    match o {
        Some(s) => Some(s@),
        None => None,
    }
}

/// The parts of an optional version.
pub open spec fn opt_version(o: Option<SemanticVersion>) -> Option<VersionParts> {
    match o {
        Some(v) => Some(version_parts(v)),
        None => None,
    }
}

/// A release file name read into its parts, such as
/// `python-3.12.0-amd64.exe`.
#[derive(Debug, Clone)]
pub struct PythonFilename {
    name: String,
    version: SemanticVersion,
    architecture: String,
    package_type: String,
    platform: String,
    extension: String,
}

proof fn lemma_split_scan_stopped(s: Seq<char>, i: int, n: int, tags: bool)
    requires
        0 <= i <= n,
        split_scan(s, i, tags).6,
    ensures
        split_scan(s, n, tags) == split_scan(s, i, tags),
    decreases n - i,
{
    if n > i {
        lemma_split_scan_stopped(s, i, n - 1, tags);
    }
}

pub proof fn lemma_last_index_of(s: Seq<char>, c: char, i: int)
    requires
        0 <= i <= s.len(),
        forall|j: int| i <= j < s.len() ==> s[j] != c,
    ensures
        i > 0 && s[i - 1] == c ==> last_index_of(s, c) == Some((i - 1) as nat),
        i == 0 ==> last_index_of(s, c) is None,
    decreases s.len(),
{
    if s.len() > 0 && s.len() > i {
        lemma_last_index_of(s.drop_last(), c, i);
    } else if s.len() == i && i > 0 {
    }
}

impl PythonFilename {
    /// The parts of the name.
    pub closed spec fn parts(&self) -> FilenameParts {
        (
            self.name@,
            version_parts(self.version),
            self.architecture@,
            self.package_type@,
            self.platform@,
            self.extension@,
        )
    }

    /// The line that lists this file: name, version, platform,
    /// architecture and package type.
    fn listing_line(&self) -> (r: String)
        ensures
            r@ == filename_line(self.parts()),
    {
        let version: String = self.version.get_string();
        let mut line: String = String::from_str("Name: ");
        push_str(&mut line, self.name.as_str());
        push_str(&mut line, " | Ver: ");
        push_str(&mut line, version.as_str());
        push_str(&mut line, " | Platform: ");
        push_str(&mut line, self.platform.as_str());
        push_str(&mut line, " | Arch: ");
        push_str(&mut line, self.architecture.as_str());
        push_str(&mut line, " | Type: ");
        push_str(&mut line, self.package_type.as_str());
        crate::text::push_char(&mut line, '\n');
        assert(version@ == parts_text(self.parts().1));
        assert(line@ =~= filename_line(self.parts()));
        line
    }

    /// Reads a release file name; `None` unless it has a known extension and
    /// a name, a version and a platform.
    pub fn new(filename: &str) -> (r: Option<Self>)
        requires
            filename_ok(filename@),
        ensures
            match filename_spec(filename@) {
                Some(p) => r matches Some(f) && f.parts() == p,
                None => r is None,
            },
    {
        let v: Vec<char> = chars_of(filename);
        let dot: Option<usize> = Self::last_dot(&v);
        if let Some(k) = dot {
            assert(last_index_of(filename@, '.') == Some(k as nat));
            assert(k < v.len());
            let main_part: String = string_from_range(&v, 0, k);
            let extension: String = string_from_range(&v, k + 1, v.len());
            assert(main_part@ == filename@.take(k as int));
            assert(extension@ == filename@.skip(k as int + 1));
            if Self::is_valid_extension(extension.as_str()) {
                let (name, version, architecture, package_type, platform) = Self::get_components(
                    main_part.as_str(),
                    extension.as_str(),
                );
                if let (Some(name), Some(version), Some(platform)) = (name, version, platform) {
                    return Some(
                        PythonFilename {
                            name,
                            version,
                            architecture,
                            package_type,
                            platform,
                            extension,
                        },
                    );
                }
            }
        }
        None
    }

    /// True when `new` reads `filename` without panicking.
    pub fn can_parse(filename: &str) -> (r: bool)
        ensures
            r == filename_ok(filename@),
    {
        let v: Vec<char> = chars_of(filename);
        let dot: Option<usize> = Self::last_dot(&v);
        if let Some(k) = dot {
            assert(last_index_of(filename@, '.') == Some(k as nat));
            assert(k < v.len());
            let main_part: String = string_from_range(&v, 0, k);
            let extension: String = string_from_range(&v, k + 1, v.len());
            assert(main_part@ == filename@.take(k as int));
            assert(extension@ == filename@.skip(k as int + 1));
            if Self::is_valid_extension(extension.as_str()) {
                let split: Vec<String> = split_chars(main_part.as_str(), '-');
                if split.len() < 2 {
                    return false;
                }
                let second: Vec<char> = chars_of(split[1].as_str());
                let (version_part, split_idx) = scan_version(split[1].as_str(), true);
                assert(second@.len() == second.len());
                if version_part.len() > 0 {
                    let j: Option<usize> = crate::text::find_char_index_at_byte(
                        &second,
                        split_idx + 1,
                    );
                    return j.is_some();
                }
            }
        }
        true
    }

    /// True when the name, architecture, platform and package type are those
    /// given and the extension is one of `extension`.
    pub fn match_requirements(
        &self,
        name: &str,
        architecture: &str,
        package_type: &str,
        platform: &str,
        extension: &[&str],
    ) -> (r: bool)
        ensures
            r == (self.parts().0 == name@ && self.parts().2 == architecture@ && self.parts().4
                == platform@ && self.parts().3 == package_type@ && exists|i: int|
                0 <= i < extension@.len() && extension@[i]@ == self.parts().5),
    {
        if str_eq(self.name.as_str(), name) && str_eq(self.architecture.as_str(), architecture)
            && str_eq(self.platform.as_str(), platform) && str_eq(
            self.package_type.as_str(),
            package_type,
        ) {
            let mut i: usize = 0;
            while i < extension.len()
                invariant
                    i <= extension@.len(),
                    self.parts().0 == name@ && self.parts().2 == architecture@,
                    self.parts().4 == platform@ && self.parts().3 == package_type@,
                    forall|j: int| 0 <= j < i ==> extension@[j]@ != self.extension@,
                decreases extension@.len() - i,
            {
                if str_eq(extension[i], self.extension.as_str()) {
                    assert(extension@[i as int]@ == self.parts().5);
                    return true;
                }
                i = i + 1;
            }
            return false;
        }
        false
    }

    /// The position of the last `.` of `v`.
    fn last_dot(v: &Vec<char>) -> (r: Option<usize>)
        ensures
            r matches Some(k) ==> last_index_of(v@, '.') == Some(k as nat) && k < v@.len(),
            r is None ==> last_index_of(v@, '.') is None,
    {
        let mut i: usize = v.len();
        while i > 0
            invariant
                i <= v@.len(),
                forall|j: int| i <= j < v@.len() ==> v@[j] != '.',
            decreases i,
        {
            if v[i - 1] == '.' {
                proof {
                    lemma_last_index_of(v@, '.', i as int);
                }
                return Some(i - 1);
            }
            i = i - 1;
        }
        proof {
            lemma_last_index_of(v@, '.', 0);
        }
        None
    }

    fn is_name(segment: &str) -> (r: bool)
        ensures
            r == (segment@ == "python"@),
    {
        str_eq(segment, "python")
    }

    fn is_version(segment: &str) -> (r: Option<SemanticVersion>)
        ensures
            opt_version(r) == semantic_version_spec(segment@),
    {
        SemanticVersion::from_string(segment)
    }

    fn is_architecture(segment: &str) -> (r: bool)
        ensures
            r == is_architecture(segment@),
    {
        str_eq(segment, "amd64") || str_eq(segment, "arm64") || str_eq(segment, "ia64")
    }

    fn is_package_type(segment: &str, extension: &str) -> (r: Option<String>)
        ensures
            opt_view(r) == package_type_of(segment@, extension@),
    {
        if str_eq(extension, "tgz") {
            return Some(String::from_str("source"));
        }
        if str_eq(segment, "embed") || str_eq(segment, "webinstall") {
            return Some(String::from_str(segment));
        }
        None
    }

    fn is_platform(segment: &str, extension: &str) -> (r: Option<String>)
        ensures
            opt_view(r) == platform_of(segment@, extension@),
    {
        if str_eq(extension, "exe") || str_eq(extension, "msi") || str_eq(segment, "win32") {
            return Some(String::from_str("windows"));
        }
        let seg: Vec<char> = chars_of(segment);
        let macos: Vec<char> = chars_of("macos");
        if crate::text::chars_start_with(&seg, &macos) || str_eq(extension, "pkg") || str_eq(
            extension,
            "dmg",
        ) {
            return Some(String::from_str("macos"));
        }
        if str_eq(extension, "tgz") {
            return Some(String::from_str("any"));
        }
        None
    }

    fn is_valid_extension(extension: &str) -> (r: bool)
        ensures
            r == valid_extension(extension@),
    {
        str_eq(extension, "msi") || str_eq(extension, "exe") || str_eq(extension, "zip")
            || str_eq(extension, "pkg") || str_eq(extension, "dmg") || str_eq(extension, "tgz")
    }
}


/// Reads the version that begins the second piece of a name, as the text
/// of the version and the position where it ends; `tags` lets the letters
/// `a`, `b` and `c` of a pre-release tag into the version.
pub(crate) fn scan_version(second: &str, tags: bool) -> (r: (Vec<char>, usize))
    ensures
        r.0@ == split_scan(second@, second@.len() as int, tags).0,
        r.1 == split_scan(second@, second@.len() as int, tags).5,
        r.0@.len() > 0 ==> r.1 < second@.len(),
{
    let v: Vec<char> = chars_of(second);
    let byte_len: usize = second.as_bytes().len();
    proof {
        crate::text::lemma_utf8_len(second@);
    }
    let mut version_part: Vec<char> = Vec::new();
    let mut version_segments: usize = 0;
    let mut filled_segment: bool = false;
    let mut p_numeric: bool = false;
    let mut p_separate: bool = false;
    let mut split_idx: usize = 0;
    let mut stopped: bool = false;
    let mut idx: usize = 0;
    while idx < v.len() && !stopped
        invariant
            idx <= v@.len(),
            v@ == second@,
            byte_len == utf8_len(v@),
            version_segments <= idx,
            split_idx <= idx,
            version_part@.len() > 0 ==> split_idx < idx,
            (
                version_part@,
                version_segments as nat,
                filled_segment,
                p_numeric,
                p_separate,
                split_idx as nat,
                stopped,
            ) == split_scan(v@, idx as int, tags),
        decreases v@.len() - idx,
    {
        proof {
            crate::text::lemma_utf8_len_take_step(v@, 1);
            crate::text::lemma_utf8_len_take_le(v@, 1);
            assert(v@.take(0) =~= Seq::<char>::empty());
        }
        let character: char = v[idx];
        let last: usize = byte_len - 1;
        if char_is_numeric(character) && idx != last {
            version_part.push(character);
            p_numeric = true;
            p_separate = false;
            filled_segment = true;
        } else if tags && (character == 'a' || character == 'b' || character == 'c') && idx != last
            && filled_segment {
            version_part.push(character);
            p_numeric = false;
            p_separate = false;
            filled_segment = false;
        } else if character == '.' && version_segments == 2 && p_numeric && filled_segment {
            split_idx = idx;
            stopped = true;
        } else if (!p_numeric && !p_separate) || idx == last {
            version_part = Vec::new();
            stopped = true;
        } else if character == '.' && p_numeric {
            version_part.push(character);
            p_numeric = false;
            p_separate = true;
            version_segments = version_segments + 1;
            filled_segment = false;
        } else {
            p_numeric = false;
            p_separate = false;
        }
        idx = idx + 1;
    }
    proof {
        if stopped {
            lemma_split_scan_stopped(v@, idx as int, v@.len() as int, tags);
        }
    }
    (version_part, split_idx)
}

impl PythonFilename {
    /// When a version begins the second piece, puts the version and the rest
    /// of that piece in its place.
    #[verifier::spinoff_prover]
    fn process_split(split: &mut Vec<String>)
        requires
            process_split_ok(views(old(split)@), true),
        ensures
            views(final(split)@) == process_split_spec(views(old(split)@), true),
    {
        let (version_part, split_idx) = scan_version(split[1].as_str(), true);
        if version_part.len() > 0 {
            let second: Vec<char> = chars_of(split[1].as_str());
            assert(split_idx < second@.len() && second@.len() == second.len());
            let j: usize = char_index_at_byte(&second, split_idx + 1);
            let remaining_part: String = string_from_range(&second, j, second.len());
            let version_string: String = string_from_chars(&version_part);
            let ghost old_views = views(split@);
            let ghost rem = remaining_part@;
            let ghost ver = version_string@;
            split.remove(1);
            split.insert(1, version_string);
            split.insert(2, remaining_part);
            assert(views(split@) =~= old_views.take(1) + seq![ver, rem] + old_views.skip(2));
        }
    }

    /// The name, version, architecture, package type and platform read from
    /// the part of a name before its extension.
    fn get_components(main_part: &str, extension: &str) -> (r: (
        Option<String>,
        Option<SemanticVersion>,
        String,
        String,
        Option<String>,
    ))
        requires
            process_split_ok(split_seq(main_part@, '-'), true),
        ensures
            (opt_view(r.0), opt_version(r.1), r.2@, r.3@, opt_view(r.4)) == components_spec(
                main_part@,
                extension@,
            ),
    {
        let mut name: Option<String> = None;
        let mut version: Option<SemanticVersion> = None;
        let mut architecture: String = String::from_str("n/a");
        let mut package_type: String = String::from_str("standard");
        let mut platform: Option<String> = None;
        let mut split: Vec<String> = split_chars(main_part, '-');
        Self::process_split(&mut split);
        let ghost segs = views(split@);
        let mut i: usize = 0;
        while i < split.len()
            invariant
                i <= split@.len(),
                segs == views(split@),
                segs == process_split_spec(split_seq(main_part@, '-'), true),
                (opt_view(name), opt_version(version), architecture@, package_type@, opt_view(
                    platform,
                )) == components_fold(segs, extension@, i as int),
            decreases split@.len() - i,
        {
            let segment: String = str_to_lowercase(split[i].as_str());
            assert(segment@ == lowercase(segs[i as int]));
            if Self::is_name(segment.as_str()) {
                name = Some(segment.clone());
            }
            let is_version: Option<SemanticVersion> = Self::is_version(segment.as_str());
            if is_version.is_some() {
                version = is_version;
            }
            if Self::is_architecture(segment.as_str()) {
                architecture = segment.clone();
            }
            let is_package_type: Option<String> = Self::is_package_type(
                segment.as_str(),
                extension,
            );
            if let Some(p) = is_package_type {
                package_type = p;
            }
            let is_platform: Option<String> = Self::is_platform(segment.as_str(), extension);
            if is_platform.is_some() {
                platform = is_platform;
            }
            i = i + 1;
        }
        (name, version, architecture, package_type, platform)
    }
}


/// The extensions of setup files.
pub open spec fn setup_extensions() -> Seq<Seq<char>> {
    seq!["exe"@, "msi"@, "pkg"@, "dmg"@, "tgz"@]
}

/// True when a file's parts have the name, architecture, package type and
/// platform given and one of the extensions `exts`.
pub open spec fn meets(
    p: FilenameParts,
    name: Seq<char>,
    arch: Seq<char>,
    package_type: Seq<char>,
    platform: Seq<char>,
    exts: Seq<Seq<char>>,
) -> bool {
    p.0 == name && p.2 == arch && p.4 == platform && p.3 == package_type && exts.contains(p.5)
}

/// What `find_setup_file` holds while it walks the links: the file chosen so
/// far and its parts.
pub type SetupChoice = (Option<Seq<char>>, Option<FilenameParts>);

/// One link of `find_setup_file`: a release file of `python` for the
/// architecture, platform and package type replaces the choice unless it is a
/// pre-release and the choice is a release or a later pre-release.
pub open spec fn setup_step(
    c: SetupChoice,
    link: (bool, Seq<char>),
    arch: Seq<char>,
    platform: Seq<char>,
    package_type: Seq<char>,
) -> SetupChoice {
    if link.0 {
        c
    } else {
        match filename_spec(link.1) {
            None => c,
            Some(p) => if !meets(p, "python"@, arch, package_type, platform, setup_extensions()) {
                c
            } else {
                match c.1 {
                    None => (Some(link.1), Some(p)),
                    Some(prev) => match (p.1.4, prev.1.4) {
                        (Some(a), Some(b)) => if pre_release_before(a, b) {
                            c
                        } else {
                            (Some(link.1), Some(p))
                        },
                        (Some(_), None) => c,
                        (None, _) => (Some(link.1), Some(p)),
                    },
                }
            },
        }
    }
}

/// The choice of `find_setup_file` after the first `n` links.
pub open spec fn setup_fold(
    links: Seq<(bool, Seq<char>)>,
    arch: Seq<char>,
    platform: Seq<char>,
    package_type: Seq<char>,
    n: int,
) -> SetupChoice
    decreases n,
{
    if n <= 0 {
        (None, None)
    } else {
        setup_step(
            setup_fold(links, arch, platform, package_type, n - 1),
            links[n - 1],
            arch,
            platform,
            package_type,
        )
    }
}

/// The choice after any prefix of the links is either empty, or a file
/// whose parts are the ones held and meet the requirements.
proof fn lemma_setup_choice_well_formed(
    links: Seq<(bool, Seq<char>)>,
    arch: Seq<char>,
    platform: Seq<char>,
    package_type: Seq<char>,
    n: int,
)
    requires
        0 <= n <= links.len(),
    ensures
        ({
            let c = setup_fold(links, arch, platform, package_type, n);
            ||| c.0 is None && c.1 is None
            ||| c.0 matches Some(f) && c.1 matches Some(q) && filename_spec(f) == Some(q) && meets(
                q,
                "python"@,
                arch,
                package_type,
                platform,
                setup_extensions(),
            )
        }),
    decreases n,
{
    if n > 0 {
        lemma_setup_choice_well_formed(links, arch, platform, package_type, n - 1);
    }
}

/// Once a release (a file without a pre-release tag) that meets the
/// requirements has been seen, the choice is a release.
proof fn lemma_setup_choice_keeps_release(
    links: Seq<(bool, Seq<char>)>,
    arch: Seq<char>,
    platform: Seq<char>,
    package_type: Seq<char>,
    n: int,
    i: int,
)
    requires
        0 <= i < n <= links.len(),
        !links[i].0,
        filename_spec(links[i].1) matches Some(p) && meets(
            p,
            "python"@,
            arch,
            package_type,
            platform,
            setup_extensions(),
        ) && p.1.4 is None,
    ensures
        setup_fold(links, arch, platform, package_type, n).1 matches Some(q) && q.1.4 is None,
    decreases n,
{
    if n - 1 > i {
        lemma_setup_choice_keeps_release(links, arch, platform, package_type, n - 1, i);
    }
}

/// Law: a release is preferred over any pre-release. When the links hold a
/// release file (no pre-release tag) of `python` for the architecture,
/// platform and package type asked for, the setup file chosen is such a
/// file too: it meets the requirements and has no pre-release tag.
pub proof fn law_setup_file_prefers_release(
    links: Seq<(bool, Seq<char>)>,
    arch: Seq<char>,
    platform: Seq<char>,
    package_type: Seq<char>,
    i: int,
)
    requires
        0 <= i < links.len(),
        !links[i].0,
        filename_spec(links[i].1) matches Some(p) && meets(
            p,
            "python"@,
            arch,
            package_type,
            platform,
            setup_extensions(),
        ) && p.1.4 is None,
    ensures
        setup_file_spec(links, arch, platform, package_type) matches Some(f) && filename_spec(f) matches Some(
            q,
        ) && meets(q, "python"@, arch, package_type, platform, setup_extensions()) && q.1.4 is None,
{
    lemma_setup_choice_well_formed(links, arch, platform, package_type, links.len() as int);
    lemma_setup_choice_keeps_release(links, arch, platform, package_type, links.len() as int, i);
}

/// The setup file that `find_setup_file` picks from `links`.
pub open spec fn setup_file_spec(
    links: Seq<(bool, Seq<char>)>,
    arch: Seq<char>,
    platform: Seq<char>,
    package_type: Seq<char>,
) -> Option<Seq<char>> {
    setup_fold(links, arch, platform, package_type, links.len() as int).0
}

/// True when every file link of `links` is a name that `PythonFilename::new`
/// reads without panicking.
pub open spec fn files_ok(links: Seq<(bool, Seq<char>)>) -> bool {
    forall|i: int| 0 <= i < links.len() && !(#[trigger] links[i]).0 ==> filename_ok(links[i].1)
}

/// The text of the parts of a version, as `SemanticVersion::get_string`
/// writes it.
pub open spec fn parts_text(v: VersionParts) -> Seq<char> {
    three_part_text(v.0, v.1, v.2) + match v.4 {
        Some(p) => pre_release_text(p),
        None => Seq::empty(),
    } + qualifier_text(v.3)
}

/// The line that `list_file_structure` writes for a release file.
pub open spec fn filename_line(p: FilenameParts) -> Seq<char> {
    "Name: "@ + p.0 + " | Ver: "@ + parts_text(p.1) + " | Platform: "@ + p.4 + " | Arch: "@ + p.2
        + " | Type: "@ + p.3 + seq!['\n']
}

/// The text that `list_file_structure` writes for the first `n` links.
pub open spec fn listing_text(links: Seq<(bool, Seq<char>)>, n: int) -> Seq<char>
    decreases n,
{
    if n <= 0 {
        Seq::empty()
    } else {
        let prev = listing_text(links, n - 1);
        let l = links[n - 1];
        if l.0 {
            prev
        } else {
            match filename_spec(l.1) {
                Some(p) => prev + filename_line(p),
                None => prev,
            }
        }
    }
}

/// True when every file link of `links` can be read.
pub fn files_readable(links: &Vec<LinkType>) -> (r: bool)
    ensures
        r == files_ok(links_view(links@)),
{
    let mut i: usize = 0;
    while i < links.len()
        invariant
            i <= links@.len(),
            forall|j: int|
                0 <= j < i && !(#[trigger] links_view(links@)[j]).0 ==> filename_ok(
                    links_view(links@)[j].1,
                ),
        decreases links@.len() - i,
    {
        match &links[i] {
            LinkType::File(file) => {
                if !PythonFilename::can_parse(file.as_str()) {
                    assert(!links_view(links@)[i as int].0);
                    return false;
                }
            },
            LinkType::Directory(_) => {},
        }
        i = i + 1;
    }
    true
}

/// The release server.
pub struct PythonFTPRetriever {
    ftp_url: String,
}

impl PythonFTPRetriever {
    /// The address of the release server.
    pub closed spec fn url_view(&self) -> Seq<char> {
        self.ftp_url@
    }

    /// The retriever of `https://www.python.org/ftp/python/`.
    pub fn new() -> (r: Self)
        ensures
            r.url_view() == "https://www.python.org/ftp/python/"@,
    {
        let ftp_url: String = String::from_str("https://www.python.org/ftp/python/");
        PythonFTPRetriever { ftp_url }
    }

    /// The directory of a version: `major.minor.patch/`.
    fn get_3p_version_directory(&self, version: &SemanticVersion) -> (r: String)
        ensures
            r@ == three_part_text(version.major, version.minor, version.patch) + seq!['/'],
    {
        let mut version_directory: String = version.get_3p_string();
        crate::text::push_char(&mut version_directory, '/');
        version_directory
    }

    /// The directory of a version's line: `major.minor/`.
    fn get_2p_version_directory(&self, version: &SemanticVersion) -> (r: String)
        ensures
            r@ == two_part_text(version.major, version.minor) + seq!['/'],
    {
        let mut version_directory: String = version.get_2p_string();
        crate::text::push_char(&mut version_directory, '/');
        version_directory
    }

    /// The name of the setup file among `structure`, as `setup_file_spec`
    /// says.
    pub fn find_setup_file(
        &self,
        structure: &Vec<LinkType>,
        arch: &str,
        platform: &str,
        package_type: &str,
    ) -> (r: Option<String>)
        requires
            files_ok(links_view(structure@)),
        ensures
            opt_view(r) == setup_file_spec(links_view(structure@), arch@, platform@, package_type@),
    {
        let ghost links = links_view(structure@);
        let mut setup_file: Option<String> = None;
        let mut python_filename: Option<PythonFilename> = None;
        let mut i: usize = 0;
        while i < structure.len()
            invariant
                i <= structure@.len(),
                links == links_view(structure@),
                files_ok(links),
                (opt_view(setup_file), match python_filename {
                    Some(f) => Some(f.parts()),
                    None => None,
                }) == setup_fold(links, arch@, platform@, package_type@, i as int),
            decreases structure@.len() - i,
        {
            assert(links[i as int] == link_view(structure@[i as int]));
            match &structure[i] {
                LinkType::File(file) => {
                    let filename: Option<PythonFilename> = PythonFilename::new(file.as_str());
                    if let Some(filename) = filename {
                        let extensions: [&str; 5] = ["exe", "msi", "pkg", "dmg", "tgz"];
                        let requirement: bool = filename.match_requirements(
                            "python",
                            arch,
                            package_type,
                            platform,
                            &extensions,
                        );
                        proof {
                            assert(extensions@ =~= seq!["exe", "msi", "pkg", "dmg", "tgz"]);
                            if requirement {
                                let k = choose|k: int|
                                    0 <= k < extensions@.len() && extensions@[k]@
                                        == filename.parts().5;
                                assert(setup_extensions()[k] == filename.parts().5);
                            }
                            if setup_extensions().contains(filename.parts().5) {
                                let k = choose|k: int|
                                    0 <= k < setup_extensions().len() && setup_extensions()[k]
                                        == filename.parts().5;
                                assert(extensions@[k]@ == filename.parts().5);
                            }
                        }
                        if requirement {
                            let take: bool = match &python_filename {
                                Some(prev) => {
                                    let pre_release: &Option<PreRelease> =
                                        filename.version.get_pre_release();
                                    let prev_pre_release: &Option<PreRelease> =
                                        prev.version.get_pre_release();
                                    match pre_release {
                                        Some(pre_release) => match prev_pre_release {
                                            Some(prev_pre_release) => !(pre_release
                                                < prev_pre_release),
                                            None => false,
                                        },
                                        None => true,
                                    }
                                },
                                None => true,
                            };
                            if take {
                                setup_file = Some(file.clone());
                                python_filename = Some(filename);
                            }
                        }
                    }
                },
                LinkType::Directory(_) => {},
            }
            i = i + 1;
        }
        setup_file
    }

    /// The address of the setup file of `directory`, the directory of a
    /// version: its address followed by the name that `find_setup_file`
    /// picks.
    pub fn get_setup_file(
        &self,
        directory: &FileStructure,
        arch: &str,
        platform: &str,
        package_type: &str,
    ) -> (r: Option<String>)
        requires
            files_ok(directory.links()),
        ensures
            opt_view(r) == match setup_file_spec(directory.links(), arch@, platform@, package_type@) {
                Some(f) => Some(directory.url_view() + f),
                None => None,
            },
    {
        let structure: Vec<LinkType> = directory.get_structure();
        let setup_file: Option<String> = self.find_setup_file(
            &structure,
            arch,
            platform,
            package_type,
        );
        match setup_file {
            Some(setup_file) => {
                let mut url: String = directory.url.clone();
                push_str(&mut url, setup_file.as_str());
                Some(url)
            },
            None => None,
        }
    }

    /// A line with the name, version, platform, architecture and package type
    /// of each release file of `directory`.
    pub fn list_file_structure(&self, directory: &FileStructure) -> (r: String)
        requires
            files_ok(directory.links()),
        ensures
            r@ == listing_text(directory.links(), directory.links().len() as int),
    {
        let structure: Vec<LinkType> = directory.get_structure();
        let ghost links = links_view(structure@);
        let mut text: String = String::new();
        let mut i: usize = 0;
        while i < structure.len()
            invariant
                i <= structure@.len(),
                links == links_view(structure@),
                files_ok(links),
                text@ == listing_text(links, i as int),
            decreases structure@.len() - i,
        {
            assert(links[i as int] == link_view(structure@[i as int]));
            match &structure[i] {
                LinkType::File(file) => {
                    let filename: Option<PythonFilename> = PythonFilename::new(file.as_str());
                    if let Some(filename) = filename {
                        let line: String = filename.listing_line();
                        push_str(&mut text, line.as_str());
                    }
                },
                LinkType::Directory(_) => {},
            }
            i = i + 1;
        }
        text
    }
}


/// What a directory lookup asks for next.
pub enum DirectoryStep {
    /// Fetch the listing at this address and hand it to `next`.
    Fetch(String),
    /// The directory was reached.
    Found(FileStructure),
    /// The directory could not be reached.
    Missing,
}

/// Where a directory lookup stands.
#[derive(PartialEq, Eq, Structural)]
pub enum SearchPhase {
    /// Waiting for the listing of the release server.
    Root,
    /// Waiting for the listing of `major.minor.patch/`.
    Full,
    /// Waiting for the listing of `major.minor/`.
    Short,
    /// Done.
    Finished,
}

/// The lookup of the directory of a version on the release server: the
/// directory `major.minor.patch/`, or `major.minor/` for a patch 0 that has
/// no directory of its own. The caller fetches each listing it asks for.
pub struct VersionDirectorySearch {
    phase: SearchPhase,
    root_url: String,
    full_directory: String,
    short_directory: Option<String>,
    structure: Option<FileStructure>,
}

/// True when `d` is read as a directory link.
pub open spec fn is_directory_link(d: Seq<char>) -> bool {
    link_spec(d) == Some((true, d))
}

/// True when the listing `body` holds a link.
pub open spec fn listing_has_links(body: Option<Seq<char>>) -> bool {
    body matches Some(b) && collect_links(href_links(b)).len() > 0
}

impl VersionDirectorySearch {
    /// Where the lookup stands.
    pub closed spec fn phase(&self) -> SearchPhase {
        self.phase
    }

    /// The address of the release server.
    pub closed spec fn root(&self) -> Seq<char> {
        self.root_url@
    }

    /// The directory `major.minor.patch/`.
    pub closed spec fn full(&self) -> Seq<char> {
        self.full_directory@
    }

    /// The directory `major.minor/`, looked at only for a patch 0.
    pub closed spec fn short(&self) -> Option<Seq<char>> {
        opt_view(self.short_directory)
    }

    /// The address and links of the listing read last.
    pub closed spec fn current(&self) -> Option<(Seq<char>, Seq<(bool, Seq<char>)>)> {
        match self.structure {
            Some(f) => Some((f.url_view(), f.links())),
            None => None,
        }
    }

    /// The directories are directory links, and a listing has been read
    /// while a directory is awaited.
    pub closed spec fn wf(&self) -> bool {
        &&& is_directory_link(self.full())
        &&& (self.short() matches Some(s) ==> is_directory_link(s))
        &&& (self.phase == SearchPhase::Full || self.phase == SearchPhase::Short)
            ==> self.structure is Some
        &&& self.phase == SearchPhase::Short ==> self.short_directory is Some
    }

    /// Hands over the listing that was asked for (`None` when fetching it
    /// failed) and says what to do next.
    pub fn next(&mut self, body: Option<&str>) -> (r: DirectoryStep)
        requires
            old(self).wf(),
        ensures
            final(self).wf(),
            final(self).root() == old(self).root(),
            final(self).full() == old(self).full(),
            final(self).short() == old(self).short(),
            old(self).phase() == SearchPhase::Root ==> if listing_has_links(opt_str(body)) {
                &&& r matches DirectoryStep::Fetch(u) && u@ == old(self).root() + old(self).full()
                &&& final(self).phase() == SearchPhase::Full
                &&& final(self).current() == Some(
                    (old(self).root(), collect_links(href_links(opt_str(body)->0))),
                )
            } else {
                r is Missing && final(self).phase() == SearchPhase::Finished
            },
            old(self).phase() == SearchPhase::Full ==> if listing_has_links(opt_str(body)) {
                &&& r matches DirectoryStep::Found(f) && f.url_view() == old(self).current().unwrap().0
                    + old(self).full() && f.links() == collect_links(
                    href_links(opt_str(body)->0),
                )
                &&& final(self).phase() == SearchPhase::Finished
            } else if old(self).short() is Some {
                &&& r matches DirectoryStep::Fetch(u) && u@ == old(self).current().unwrap().0 + old(
                    self,
                ).short()->0
                &&& final(self).phase() == SearchPhase::Short
                &&& final(self).current() == old(self).current()
            } else {
                r is Missing && final(self).phase() == SearchPhase::Finished
            },
            old(self).phase() == SearchPhase::Short ==> if listing_has_links(opt_str(body)) {
                &&& r matches DirectoryStep::Found(f) && f.url_view() == old(self).current().unwrap().0
                    + old(self).short()->0 && f.links() == collect_links(
                    href_links(opt_str(body)->0),
                )
                &&& final(self).phase() == SearchPhase::Finished
            } else {
                r is Missing && final(self).phase() == SearchPhase::Finished
            },
            old(self).phase() == SearchPhase::Finished ==> r is Missing && final(self).phase()
                == SearchPhase::Finished,
    {
        match self.phase {
            SearchPhase::Root => {
                if let Some(body) = body {
                    let structure: Option<FileStructure> = FileStructure::new(
                        self.root_url.as_str(),
                        body,
                    );
                    if let Some(structure) = structure {
                        let url: Option<String> = structure.directory_url(
                            self.full_directory.as_str(),
                        );
                        if let Some(url) = url {
                            self.structure = Some(structure);
                            self.phase = SearchPhase::Full;
                            return DirectoryStep::Fetch(url);
                        }
                    }
                }
                self.phase = SearchPhase::Finished;
                DirectoryStep::Missing
            },
            SearchPhase::Full => {
                let mut structure: FileStructure = self.structure.take().unwrap();
                let ghost before = (structure.url_view(), structure.links());
                let result: bool = match body {
                    Some(body) => structure.access_directory(self.full_directory.as_str(), body),
                    None => false,
                };
                if result {
                    self.phase = SearchPhase::Finished;
                    return DirectoryStep::Found(structure);
                }
                match &self.short_directory {
                    Some(short) => {
                        let url: Option<String> = structure.directory_url(short.as_str());
                        self.structure = Some(structure);
                        if let Some(url) = url {
                            self.phase = SearchPhase::Short;
                            return DirectoryStep::Fetch(url);
                        }
                        self.phase = SearchPhase::Finished;
                        DirectoryStep::Missing
                    },
                    None => {
                        self.structure = Some(structure);
                        self.phase = SearchPhase::Finished;
                        DirectoryStep::Missing
                    },
                }
            },
            SearchPhase::Short => {
                let mut structure: FileStructure = self.structure.take().unwrap();
                let result: bool = match (body, &self.short_directory) {
                    (Some(body), Some(short)) => structure.access_directory(short.as_str(), body),
                    _ => false,
                };
                self.phase = SearchPhase::Finished;
                if result {
                    return DirectoryStep::Found(structure);
                }
                self.structure = Some(structure);
                DirectoryStep::Missing
            },
            SearchPhase::Finished => DirectoryStep::Missing,
        }
    }
}

/// The view of an optional string slice.
pub open spec fn opt_str(o: Option<&str>) -> Option<Seq<char>> {
    match o {
        Some(s) => Some(s@),
        None => None,
    }
}

proof fn lemma_version_directory_link(text: Seq<char>, first: nat)
    requires
        text == crate::text::decimal(first) + text.skip(crate::text::decimal(first).len() as int),
    ensures
        is_directory_link(text + seq!['/']),
{
    crate::text::lemma_decimal(first);
    reveal_strlit("../");
    let d = text + seq!['/'];
    assert(crate::text::decimal(first).len() > 0) by {
        if first < 10 {
        } else {
        }
    }
    assert(d[0] == crate::text::decimal(first)[0]);
    assert(crate::text::is_ascii_digit(crate::text::decimal(first)[0]));
    assert(d != "../"@) by {
        if d == "../"@ {
            assert(d[0] == '.');
        }
    }
}

impl PythonFTPRetriever {
    /// Starts the lookup of the directory of `version`; the listing of the
    /// release server, at the address returned, is the first to fetch.
    pub fn search_version_directory(&self, version: &SemanticVersion) -> (r: (
        VersionDirectorySearch,
        String,
    ))
        ensures
            r.0.wf(),
            r.0.phase() == SearchPhase::Root,
            r.0.root() == self.url_view(),
            r.0.full() == three_part_text(version.major, version.minor, version.patch) + seq!['/'],
            r.0.short() == if version.patch == 0 {
                Some(two_part_text(version.major, version.minor) + seq!['/'])
            } else {
                None
            },
            r.1@ == self.url_view(),
    {
        let full_directory: String = self.get_3p_version_directory(version);
        let short_directory: Option<String> = if version.patch == 0 {
            Some(self.get_2p_version_directory(version))
        } else {
            None
        };
        proof {
            let t3 = three_part_text(version.major, version.minor, version.patch);
            let d = crate::text::decimal(version.major as nat);
            assert(t3 =~= d + t3.skip(d.len() as int));
            lemma_version_directory_link(t3, version.major as nat);
            let t2 = two_part_text(version.major, version.minor);
            assert(t2 =~= d + t2.skip(d.len() as int));
            lemma_version_directory_link(t2, version.major as nat);
        }
        let search = VersionDirectorySearch {
            phase: SearchPhase::Root,
            root_url: self.ftp_url.clone(),
            full_directory,
            short_directory,
            structure: None,
        };
        (search, self.ftp_url.clone())
    }
}


/// The search for the setup file of the latest patch of a version: patches
/// are tried from 0 up, at most 51 of them, until one after the first has no
/// setup file. The caller looks up the setup file of each patch it is asked
/// for.
pub struct LatestPatchSearch {
    counter: usize,
    setup_file: Option<String>,
    finished: bool,
}

/// The most patches that `LatestPatchSearch` tries, less one.
pub const PATCH_LIMIT: usize = 50;

/// The version `v` with patch `p`.
pub open spec fn with_patch(v: SemanticVersion, p: usize) -> (usize, usize, usize, Seq<char>, Option<PreRelease>) {
    (v.major, v.minor, p, v.qualifier@, v.pre_release)
}

/// Where a latest-patch search stands: patches tried, the setup file found
/// last, whether it ended, and the patch to try next (the last patch with a
/// file once it ended).
pub type PatchState = (nat, Option<Seq<char>>, bool, nat);

/// One patch tried, with the setup file found for it (`None` for none).
pub open spec fn patch_step(st: PatchState, file: Option<Seq<char>>) -> PatchState {
    let (counter, found, finished, patch) = st;
    match file {
        Some(f) => (counter + 1, Some(f), false, patch + 1),
        None => if patch == 0 {
            (counter + 1, found, false, patch + 1)
        } else {
            (counter + 1, found, true, (patch - 1) as nat)
        },
    }
}

/// The state after trying the first `n` patches from patch 0, with the
/// files `files` found for them.
pub open spec fn patch_run(files: Seq<Option<Seq<char>>>, n: int) -> PatchState
    decreases n,
{
    if n <= 0 {
        (0, None, false, 0)
    } else {
        patch_step(patch_run(files, n - 1), files[n - 1])
    }
}

/// The last file of `files`, `None` when there is none.
pub open spec fn last_found(files: Seq<Option<Seq<char>>>) -> Option<Seq<char>>
    decreases files.len(),
{
    if files.len() == 0 {
        None
    } else if files.last() is Some {
        files.last()
    } else {
        last_found(files.drop_last())
    }
}

/// True when each of the patches `1..n` has a file.
pub open spec fn patches_found(files: Seq<Option<Seq<char>>>, n: int) -> bool {
    forall|i: int| 1 <= i < n ==> (#[trigger] files[i]) is Some
}

/// Law: the search keeps the setup file of the last patch that had one;
/// while every patch after the first has one it goes on, one patch further
/// each time; and at the first patch after the first without one it ends,
/// back at the patch before.
pub proof fn law_latest_patch_search(files: Seq<Option<Seq<char>>>, n: int)
    requires
        0 <= n <= files.len(),
    ensures
        patch_run(files, n).0 == n,
        patch_run(files, n).1 == last_found(files.take(n)),
        patches_found(files, n) ==> !patch_run(files, n).2 && patch_run(files, n).3 == n,
        n >= 2 && patches_found(files, n - 1) && files[n - 1] is None ==> patch_run(files, n).2
            && patch_run(files, n).3 == n - 2,
    decreases n,
{
    if n > 0 {
        law_latest_patch_search(files, n - 1);
        assert(files.take(n).drop_last() =~= files.take(n - 1));
        assert(files.take(n).last() == files[n - 1]);
        if patches_found(files, n) {
            assert(patches_found(files, n - 1));
        }
    }
}

impl LatestPatchSearch {
    /// Where the search stands.
    pub open spec fn state(&self, version: SemanticVersion) -> PatchState {
        (self.counter(), self.setup_file(), self.finished(), version.patch as nat)
    }

    /// The number of patches tried.
    pub closed spec fn counter(&self) -> nat {
        self.counter as nat
    }

    /// The setup file found last.
    pub closed spec fn setup_file(&self) -> Option<Seq<char>> {
        opt_view(self.setup_file)
    }

    /// True once a patch after the first had no setup file.
    pub closed spec fn finished(&self) -> bool {
        self.finished
    }

    /// True while another patch is to be tried.
    pub fn pending(&self) -> (r: bool)
        ensures
            r == (self.counter() <= PATCH_LIMIT && !self.finished()),
    {
        self.counter <= PATCH_LIMIT && !self.finished
    }

    /// Takes the setup file found for the current patch of `version` (`None`
    /// when there is none). A file is kept and the next patch is set; no file
    /// for patch 0 moves on too; no file for a later patch sets the patch
    /// back to the last one and ends the search. Unless the search ends, the
    /// version is written as `Version: ...`.
    pub fn record(&mut self, version: &mut SemanticVersion, file: Option<String>, terminal: &mut Terminal)
        requires
            old(self).counter() <= PATCH_LIMIT,
            !old(self).finished(),
            old(version).patch == old(self).counter(),
        ensures
            final(self).counter() == old(self).counter() + 1,
            version_parts(*final(version)) == with_patch(*old(version), final(version).patch),
            final(terminal).code() == old(terminal).code(),
            file is Some ==> final(self).setup_file() == opt_view(file),
            file is None ==> final(self).setup_file() == old(self).setup_file(),
            file is None && old(version).patch > 0 ==> {
                &&& final(self).finished()
                &&& final(version).patch == old(version).patch - 1
                &&& final(terminal).output() == old(terminal).output()
            },
            final(self).state(*final(version)) == patch_step(old(self).state(*old(version)), opt_view(file)),
            file is Some || old(version).patch == 0 ==> {
                &&& !final(self).finished()
                &&& final(version).patch == old(version).patch + 1
                &&& final(terminal).output() == old(terminal).output() + painted(
                    YellowANSI.spec_value(),
                    "\rVersion: "@,
                ) + painted(WhiteANSI.spec_value(), version_text(*old(version)))
            },
    {
        self.counter = self.counter + 1;
        if file.is_some() {
            self.setup_file = file;
        } else if version.get_patch() == 0 {
        } else {
            let patch: usize = version.get_patch();
            version.set_patch(patch - 1);
            self.finished = true;
            return;
        }
        let version_string: String = version.get_string();
        let parts: [&str; 2] = ["\rVersion: ", version_string.as_str()];
        terminal.write_parameter(&parts, &YellowANSI);
        let patch: usize = version.get_patch();
        version.set_patch(patch + 1);
    }

    /// Ends the search with a line break and returns the setup file found
    /// last.
    pub fn finish(&self, terminal: &mut Terminal) -> (r: Option<String>)
        ensures
            opt_view(r) == self.setup_file(),
            final(terminal).code() == old(terminal).code(),
            final(terminal).output() == old(terminal).output() + seq!['\n'],
    {
        terminal.write_raw("\n");
        proof {
            reveal_strlit("\n");
        }
        match &self.setup_file {
            Some(f) => Some(f.clone()),
            None => None,
        }
    }
}

impl PythonFTPRetriever {
    /// Starts the search for the latest patch of `version` at patch 0.
    pub fn get_setup_file_latest_patch(&self, version: &mut SemanticVersion) -> (r: LatestPatchSearch)
        ensures
            version_parts(*final(version)) == with_patch(*old(version), 0),
            r.counter() == 0,
            r.setup_file() is None,
            !r.finished(),
    {
        version.set_patch(0);
        LatestPatchSearch { counter: 0, setup_file: None, finished: false }
    }
}

} // verus!
