//! The release server as the installer commands read it: directory listings
//! read from their anchors, release file names of Windows and macOS
//! installers, and the choice of an installer for a version.
use vstd::prelude::*;

use crate::general::version::{semantic_version_spec, three_part_text, SemanticVersion};
use crate::languages::python::ftp::{
    collect_links, filename_line, holds_link, last_index_of, link_spec, link_view, links_of,
    links_view, opt_version, opt_view, parts_text, process_split_ok, process_split_spec,
    scan_version, structure_text, version_parts, Components, FilenameParts, VersionParts,
};
use crate::python::version::PythonVersion;
use crate::text::{
    char_index_at_byte, chars_of, push_char, push_str, split_chars, split_seq, str_eq,
    string_from_chars, string_from_range, views,
};

pub use crate::languages::python::ftp::LinkType;

verus! {

/// For each element of the HTML document `body` that the CSS selector
/// `selector` selects, in document order, its attribute `attribute`
/// (`None` when it has none); `None` when `selector` does not parse.
pub uninterp spec fn html_selected_attributes(
    body: Seq<char>,
    selector: Seq<char>,
    attribute: Seq<char>,
) -> Option<Seq<Option<Seq<char>>>>;

/// Parses `body` with `scraper::Html::parse_document` and `selector` with
/// `scraper::Selector::parse`, and returns the attribute `attribute` of each
/// selected element (`Element::attr`); `None` when the selector does not
/// parse. The result is named, not stated: the HTML parser is html5ever's.
#[verifier::external_body]
fn selected_attributes(body: &str, selector: &str, attribute: &str) -> (r: Option<Vec<Option<String>>>)
    ensures
        html_selected_attributes(body@, selector@, attribute@) == match r {
            Some(v) => Some(v@.map_values(|a: Option<String>| opt_view(a))),
            None => None::<Seq<Option<Seq<char>>>>,
        },
{
    let fragment: scraper::Html = scraper::Html::parse_document(body);
    match scraper::Selector::parse(selector) {
        Ok(selector) => Some(
            fragment.select(&selector).map(|e| e.value().attr(attribute).map(|h| h.to_string())).collect(),
        ),
        Err(_) => None,
    }
}

/// The `href` attribute of each anchor `a` of an HTML document, in document
/// order; `None` for an anchor without one.
pub open spec fn anchor_hrefs(body: Seq<char>) -> Seq<Option<Seq<char>>> {
    match html_selected_attributes(body, "a"@, "href"@) {
        Some(v) => v,
        None => Seq::empty(),
    }
}

/// The `href` attribute of each anchor of `body`.
fn anchor_attributes(body: &str) -> (r: Vec<Option<String>>)
    ensures
        r@.map_values(|a: Option<String>| opt_view(a)) == anchor_hrefs(body@),
{
    match selected_attributes(body, "a", "href") {
        Some(v) => v,
        None => {
            let v: Vec<Option<String>> = Vec::new();
            assert(v@.map_values(|a: Option<String>| opt_view(a)) =~= Seq::<Option<Seq<char>>>::empty());
            v
        },
    }
}

/// The links that the anchors of `body` give: a missing `href` is read as
/// the empty link.
pub open spec fn anchor_links(body: Seq<char>) -> Seq<Seq<char>> {
    anchor_hrefs(body).map_values(
        |a: Option<Seq<char>>|
            match a {
                Some(h) => h,
                None => Seq::empty(),
            },
    )
}

/// The `href` targets of the anchors of `body`, a missing one as the empty
/// text.
fn anchor_targets(body: &str) -> (r: Vec<String>)
    ensures
        views(r@) == anchor_links(body@),
{
    let attributes: Vec<Option<String>> = anchor_attributes(body);
    let ghost expected = anchor_links(body@);
    let mut targets: Vec<String> = Vec::new();
    let mut i: usize = 0;
    while i < attributes.len()
        invariant
            i <= attributes@.len(),
            attributes@.map_values(|a: Option<String>| opt_view(a)) == anchor_hrefs(body@),
            expected == anchor_links(body@),
            views(targets@) == expected.take(i as int),
        decreases attributes@.len() - i,
    {
        assert(anchor_hrefs(body@)[i as int] == opt_view(attributes@[i as int]));
        let target: String = match &attributes[i] {
            Some(h) => h.clone(),
            None => String::new(),
        };
        let ghost before = views(targets@);
        targets.push(target);
        assert(views(targets@) =~= before.push(target@));
        assert(expected.take(i + 1) =~= expected.take(i as int).push(expected[i as int]));
        i = i + 1;
    }
    assert(expected.take(i as int) =~= expected);
    targets
}

/// The links of a listing: each link once, without the parent directory.
pub fn get_file_structure(body: &str) -> (r: Vec<LinkType>)
    ensures
        links_view(r@) == collect_links(anchor_links(body@)),
{
    let targets: Vec<String> = anchor_targets(body);
    links_of(&targets)
}

/// A directory of the release server: its address and its links.
pub struct FileStructure {
    url: String,
    structure: Vec<LinkType>,
}

impl FileStructure {
    /// The address of the directory.
    pub closed spec fn url_view(&self) -> Seq<char> {
        self.url@
    }

    /// The links of the directory.
    pub closed spec fn links(&self) -> Seq<(bool, Seq<char>)> {
        links_view(self.structure@)
    }

    /// The directory at `url`; `body` is its listing, `None` when it could
    /// not be fetched.
    pub fn new(url: &str, body: Option<&str>) -> (r: Option<Self>)
        ensures
            r is Some <==> body is Some,
            r matches Some(f) ==> f.url_view() == url@ && f.links() == collect_links(
                anchor_links(body->0@),
            ),
    {
        match body {
            Some(body) => {
                let structure: Vec<LinkType> = get_file_structure(body);
                Some(FileStructure { url: String::from_str(url), structure })
            },
            None => None,
        }
    }

    /// The address of the subdirectory `directory`; `None` unless
    /// `directory` is a directory link.
    pub fn directory_url(&self, directory: &str) -> (r: Option<String>)
        ensures
            match link_spec(directory@) {
                Some(l) if l.0 => r matches Some(u) && u@ == self.url_view() + directory@,
                _ => r is None,
            },
    {
        let link_type: Option<LinkType> = LinkType::new(directory);
        if let Some(link_type) = link_type {
            match link_type {
                LinkType::Directory(dir) => {
                    let mut new_url: String = self.url.clone();
                    push_str(&mut new_url, dir.as_str());
                    return Some(new_url);
                },
                LinkType::File(_) => {},
            }
        }
        None
    }

    /// Moves into the subdirectory `directory`, whose listing is `body`
    /// (`None` when it could not be fetched). True when `directory` is a
    /// directory link and its listing was fetched; otherwise nothing changes.
    pub fn access_directory(&mut self, directory: &str, body: Option<&str>) -> (r: bool)
        ensures
            r == (link_spec(directory@) matches Some(l) && l.0 && body is Some),
            r ==> final(self).url_view() == old(self).url_view() + directory@,
            r ==> final(self).links() == collect_links(anchor_links(body->0@)),
            !r ==> final(self).url_view() == old(self).url_view(),
            !r ==> final(self).links() == old(self).links(),
    {
        let new_url: Option<String> = self.directory_url(directory);
        if let Some(new_url) = new_url {
            let structure: Option<FileStructure> = FileStructure::new(new_url.as_str(), body);
            if let Some(structure) = structure {
                *self = structure;
                return true;
            }
        }
        false
    }

    /// The address of the file `file` of this directory; `None` unless
    /// `file` is a file link of the directory.
    pub fn access_file(&mut self, file: &str) -> (r: Option<String>)
        ensures
            final(self).url_view() == old(self).url_view(),
            final(self).links() == old(self).links(),
            match link_spec(file@) {
                Some(l) if !l.0 && old(self).links().contains(l) => r matches Some(u) && u@
                    == old(self).url_view() + file@,
                _ => r is None,
            },
    {
        let link_type: Option<LinkType> = LinkType::new(file);
        if let Some(link_type) = link_type {
            if holds_link(&self.structure, &link_type) {
                match link_type {
                    LinkType::File(f) => {
                        let mut file_url: String = self.url.clone();
                        push_str(&mut file_url, f.as_str());
                        return Some(file_url);
                    },
                    LinkType::Directory(_) => {},
                }
            }
        }
        None
    }

    /// The links of the directory.
    pub fn get_structure(&self) -> (r: Vec<LinkType>)
        ensures
            links_view(r@) == self.links(),
    {
        let mut links: Vec<LinkType> = Vec::new();
        let mut i: usize = 0;
        while i < self.structure.len()
            invariant
                i <= self.structure@.len(),
                links_view(links@) == links_view(self.structure@).take(i as int),
            decreases self.structure@.len() - i,
        {
            let link: LinkType = self.structure[i].duplicate();
            let ghost before = links_view(links@);
            links.push(link);
            assert(links_view(links@) =~= before.push(link_view(link)));
            assert(links_view(self.structure@).take(i + 1) =~= links_view(self.structure@).take(
                i as int,
            ).push(link_view(self.structure@[i as int])));
            i = i + 1;
        }
        assert(links_view(self.structure@).take(i as int) =~= links_view(self.structure@));
        links
    }

    /// One line per link: `Directory: ...` or `File: ...`.
    pub fn list_structure(&self) -> (r: String)
        ensures
            r@ == structure_text(self.links()),
    {
        let mut text: String = String::new();
        let mut i: usize = 0;
        while i < self.structure.len()
            invariant
                i <= self.structure@.len(),
                text@ == structure_text(links_view(self.structure@).take(i as int)),
            decreases self.structure@.len() - i,
        {
            assert(links_view(self.structure@).take(i + 1).drop_last() =~= links_view(
                self.structure@,
            ).take(i as int));
            match &self.structure[i] {
                LinkType::Directory(dir) => {
                    push_str(&mut text, "Directory: ");
                    push_str(&mut text, dir.as_str());
                },
                LinkType::File(file) => {
                    push_str(&mut text, "File: ");
                    push_str(&mut text, file.as_str());
                },
            }
            push_char(&mut text, '\n');
            i = i + 1;
        }
        assert(links_view(self.structure@).take(i as int) =~= links_view(self.structure@));
        text
    }
}


/// The extensions of installer files.
pub open spec fn installer_extension(e: Seq<char>) -> bool {
    e == "exe"@ || e == "zip"@ || e == "pkg"@ || e == "msi"@
}

/// The processor architectures of installer files.
pub open spec fn installer_architecture(seg: Seq<char>) -> bool {
    seg == "amd64"@ || seg == "arm64"@
}

/// The package types of installer files.
pub open spec fn installer_package_type(seg: Seq<char>) -> bool {
    seg == "embed"@ || seg == "webinstall"@
}

/// The platform that a name piece, with the extension, gives.
pub open spec fn installer_platform(seg: Seq<char>, ext: Seq<char>) -> Option<Seq<char>> {
    if ext == "exe"@ || ext == "msi"@ || ext == "win32"@ {
        Some("windows"@)
    } else if seg == "macos11"@ {
        Some("macos"@)
    } else {
        None
    }
}

/// What one name piece changes: each piece that is a name, a version, an
/// architecture, a package type or a platform sets that part.
pub open spec fn installer_component_step(c: Components, seg: Seq<char>, ext: Seq<char>) -> Components {
    (
        if seg == "python"@ {
            Some(seg)
        } else {
            c.0
        },
        match semantic_version_spec(seg) {
            Some(v) => Some(v),
            None => c.1,
        },
        if installer_architecture(seg) {
            seg
        } else {
            c.2
        },
        if installer_package_type(seg) {
            seg
        } else {
            c.3
        },
        match installer_platform(seg, ext) {
            Some(p) => Some(p),
            None => c.4,
        },
    )
}

/// The components after the first `n` pieces.
pub open spec fn installer_components_fold(segs: Seq<Seq<char>>, ext: Seq<char>, n: int) -> Components
    decreases n,
{
    if n <= 0 {
        (None, None, "n/a"@, "standard"@, None)
    } else {
        installer_component_step(installer_components_fold(segs, ext, n - 1), segs[n - 1], ext)
    }
}

/// What `get_components` reads from the part of a name before its extension.
pub open spec fn installer_components(main: Seq<char>, ext: Seq<char>) -> Components {
    let segs = process_split_spec(split_seq(main, '-'), false);
    installer_components_fold(segs, ext, segs.len() as int)
}

/// What `PythonFilename::new` reads from an installer file name.
pub open spec fn installer_filename_spec(f: Seq<char>) -> Option<FilenameParts> {
    match last_index_of(f, '.') {
        None => None,
        Some(k) => {
            let main = f.take(k as int);
            let ext = f.skip(k as int + 1);
            if !installer_extension(ext) {
                None
            } else {
                let c = installer_components(main, ext);
                match (c.0, c.1, c.4) {
                    (Some(n), Some(v), Some(p)) => Some((n, v, c.2, c.3, p, ext)),
                    _ => None,
                }
            }
        },
    }
}

/// The names on which `PythonFilename::new` does not panic.
pub open spec fn installer_filename_ok(f: Seq<char>) -> bool {
    match last_index_of(f, '.') {
        Some(k) => installer_extension(f.skip(k as int + 1)) ==> process_split_ok(
            split_seq(f.take(k as int), '-'),
            false,
        ),
        None => true,
    }
}

/// True when every file link of `links` is a name that `PythonFilename::new`
/// reads without panicking.
pub open spec fn installer_files_ok(links: Seq<(bool, Seq<char>)>) -> bool {
    forall|i: int|
        0 <= i < links.len() && !(#[trigger] links[i]).0 ==> installer_filename_ok(links[i].1)
}

/// The installer extensions that `find_install_file` accepts.
pub open spec fn install_extensions() -> Seq<Seq<char>> {
    seq!["exe"@, "msi"@, "pkg"@]
}

/// True when the link is an installer of `python` for the architecture,
/// package type and platform.
pub open spec fn is_install_file(
    link: (bool, Seq<char>),
    arch: Seq<char>,
    platform: Seq<char>,
    package_type: Seq<char>,
) -> bool {
    !link.0 && match installer_filename_spec(link.1) {
        Some(p) => p.0 == "python"@ && p.2 == arch && p.4 == platform && p.3 == package_type
            && install_extensions().contains(p.5),
        None => false,
    }
}

/// The first installer among `links`.
pub open spec fn install_file_spec(
    links: Seq<(bool, Seq<char>)>,
    arch: Seq<char>,
    platform: Seq<char>,
    package_type: Seq<char>,
) -> Option<Seq<char>>
    decreases links.len(),
{
    if links.len() == 0 {
        None
    } else if is_install_file(links[0], arch, platform, package_type) {
        Some(links[0].1)
    } else {
        install_file_spec(links.drop_first(), arch, platform, package_type)
    }
}

/// The text that `list_file_structure` writes for the first `n` links.
pub open spec fn installer_listing_text(links: Seq<(bool, Seq<char>)>, n: int) -> Seq<char>
    decreases n,
{
    if n <= 0 {
        Seq::empty()
    } else {
        let prev = installer_listing_text(links, n - 1);
        let l = links[n - 1];
        if l.0 {
            prev
        } else {
            match installer_filename_spec(l.1) {
                Some(p) => prev + filename_line(p),
                None => prev,
            }
        }
    }
}

/// An installer file name read into its parts, such as
/// `python-3.9.1-amd64.exe`.
#[derive(Debug, Clone)]
pub struct PythonFilename {
    name: String,
    version: SemanticVersion,
    architecture: String,
    package_type: String,
    platform: String,
    extension: String,
}

impl PythonFilename {
    /// The parts of the name.
    pub closed spec fn parts(&self) -> FilenameParts {
        (
            self.name@,
            version_parts(self.version),
            self.architecture@,
            self.package_type@,
            self.platform@,
            self.extension@,
        )
    }

    /// The line that lists this file: name, version, platform,
    /// architecture and package type.
    fn listing_line(&self) -> (r: String)
        ensures
            r@ == filename_line(self.parts()),
    {
        let version: String = self.version.get_string();
        let mut line: String = String::from_str("Name: ");
        push_str(&mut line, self.name.as_str());
        push_str(&mut line, " | Ver: ");
        push_str(&mut line, version.as_str());
        push_str(&mut line, " | Platform: ");
        push_str(&mut line, self.platform.as_str());
        push_str(&mut line, " | Arch: ");
        push_str(&mut line, self.architecture.as_str());
        push_str(&mut line, " | Type: ");
        push_str(&mut line, self.package_type.as_str());
        push_char(&mut line, '\n');
        assert(version@ == parts_text(self.parts().1));
        assert(line@ =~= filename_line(self.parts()));
        line
    }

    /// Reads an installer file name; `None` unless it has a known extension
    /// and a name, a version and a platform.
    pub fn new(filename: &str) -> (r: Option<Self>)
        requires
            installer_filename_ok(filename@),
        ensures
            match installer_filename_spec(filename@) {
                Some(p) => r matches Some(f) && f.parts() == p,
                None => r is None,
            },
    {
        let v: Vec<char> = chars_of(filename);
        let dot: Option<usize> = last_dot(&v);
        if let Some(k) = dot {
            assert(k < v.len());
            let main_part: String = string_from_range(&v, 0, k);
            let extension: String = string_from_range(&v, k + 1, v.len());
            assert(main_part@ == filename@.take(k as int));
            assert(extension@ == filename@.skip(k as int + 1));
            if Self::is_valid_extension(extension.as_str()) {
                let (name, version, architecture, package_type, platform) = Self::get_components(
                    main_part.as_str(),
                    extension.as_str(),
                );
                if let (Some(name), Some(version), Some(platform)) = (name, version, platform) {
                    return Some(
                        PythonFilename {
                            name,
                            version,
                            architecture,
                            package_type,
                            platform,
                            extension,
                        },
                    );
                }
            }
        }
        None
    }

    /// True when `new` reads `filename` without panicking.
    pub fn can_parse(filename: &str) -> (r: bool)
        ensures
            r == installer_filename_ok(filename@),
    {
        let v: Vec<char> = chars_of(filename);
        let dot: Option<usize> = last_dot(&v);
        if let Some(k) = dot {
            assert(k < v.len());
            let main_part: String = string_from_range(&v, 0, k);
            let extension: String = string_from_range(&v, k + 1, v.len());
            assert(main_part@ == filename@.take(k as int));
            assert(extension@ == filename@.skip(k as int + 1));
            if Self::is_valid_extension(extension.as_str()) {
                let split: Vec<String> = split_chars(main_part.as_str(), '-');
                if split.len() < 2 {
                    return false;
                }
                let second: Vec<char> = chars_of(split[1].as_str());
                let (version_part, split_idx) = scan_version(split[1].as_str(), false);
                assert(second@.len() == second.len());
                if version_part.len() > 0 {
                    let j: Option<usize> = crate::text::find_char_index_at_byte(
                        &second,
                        split_idx + 1,
                    );
                    return j.is_some();
                }
            }
        }
        true
    }

    /// True when the name, architecture, platform and package type are those
    /// given and the extension is one of `extension`.
    pub fn match_requirements(
        &self,
        name: &str,
        architecture: &str,
        package_type: &str,
        platform: &str,
        extension: &[&str],
    ) -> (r: bool)
        ensures
            r == (self.parts().0 == name@ && self.parts().2 == architecture@ && self.parts().4
                == platform@ && self.parts().3 == package_type@ && exists|i: int|
                0 <= i < extension@.len() && extension@[i]@ == self.parts().5),
    {
        if str_eq(self.name.as_str(), name) && str_eq(self.architecture.as_str(), architecture)
            && str_eq(self.platform.as_str(), platform) && str_eq(
            self.package_type.as_str(),
            package_type,
        ) {
            let mut i: usize = 0;
            while i < extension.len()
                invariant
                    i <= extension@.len(),
                    self.parts().0 == name@ && self.parts().2 == architecture@,
                    self.parts().4 == platform@ && self.parts().3 == package_type@,
                    forall|j: int| 0 <= j < i ==> extension@[j]@ != self.extension@,
                decreases extension@.len() - i,
            {
                if str_eq(extension[i], self.extension.as_str()) {
                    assert(extension@[i as int]@ == self.parts().5);
                    return true;
                }
                i = i + 1;
            }
            return false;
        }
        false
    }

    fn is_name(segment: &str) -> (r: bool)
        ensures
            r == (segment@ == "python"@),
    {
        str_eq(segment, "python")
    }

    fn is_version(segment: &str) -> (r: Option<SemanticVersion>)
        ensures
            opt_version(r) == semantic_version_spec(segment@),
    {
        SemanticVersion::from_string(segment)
    }

    fn is_architecture(segment: &str) -> (r: bool)
        ensures
            r == installer_architecture(segment@),
    {
        str_eq(segment, "amd64") || str_eq(segment, "arm64")
    }

    fn is_package_type(segment: &str) -> (r: bool)
        ensures
            r == installer_package_type(segment@),
    {
        str_eq(segment, "embed") || str_eq(segment, "webinstall")
    }

    fn is_platform(segment: &str, extension: &str) -> (r: Option<String>)
        ensures
            opt_view(r) == installer_platform(segment@, extension@),
    {
        if str_eq(extension, "exe") || str_eq(extension, "msi") || str_eq(extension, "win32") {
            return Some(String::from_str("windows"));
        }
        if str_eq(segment, "macos11") {
            return Some(String::from_str("macos"));
        }
        None
    }

    fn is_valid_extension(extension: &str) -> (r: bool)
        ensures
            r == installer_extension(extension@),
    {
        str_eq(extension, "exe") || str_eq(extension, "zip") || str_eq(extension, "pkg")
            || str_eq(extension, "msi")
    }

    /// When a version begins the second piece, puts the version and the rest
    /// of that piece in its place.
    fn process_second_part(split: &mut Vec<String>)
        requires
            process_split_ok(views(old(split)@), false),
        ensures
            views(final(split)@) == process_split_spec(views(old(split)@), false),
    {
        let (version_part, split_idx) = scan_version(split[1].as_str(), false);
        if version_part.len() > 0 {
            let second: Vec<char> = chars_of(split[1].as_str());
            assert(second@.len() == second.len());
            let j: usize = char_index_at_byte(&second, split_idx + 1);
            let remaining_part: String = string_from_range(&second, j, second.len());
            let version_string: String = string_from_chars(&version_part);
            let ghost old_views = views(split@);
            let ghost rem = remaining_part@;
            let ghost ver = version_string@;
            split.remove(1);
            split.insert(1, version_string);
            split.insert(2, remaining_part);
            assert(views(split@) =~= old_views.take(1) + seq![ver, rem] + old_views.skip(2));
        }
    }

    /// The name, version, architecture, package type and platform read from
    /// the part of a name before its extension.
    fn get_components(main_part: &str, extension: &str) -> (r: (
        Option<String>,
        Option<SemanticVersion>,
        String,
        String,
        Option<String>,
    ))
        requires
            process_split_ok(split_seq(main_part@, '-'), false),
        ensures
            (opt_view(r.0), opt_version(r.1), r.2@, r.3@, opt_view(r.4)) == installer_components(
                main_part@,
                extension@,
            ),
    {
        let mut name: Option<String> = None;
        let mut version: Option<SemanticVersion> = None;
        let mut architecture: String = String::from_str("n/a");
        let mut package_type: String = String::from_str("standard");
        let mut platform: Option<String> = None;
        let mut split: Vec<String> = split_chars(main_part, '-');
        Self::process_second_part(&mut split);
        let ghost segs = views(split@);
        let mut i: usize = 0;
        while i < split.len()
            invariant
                i <= split@.len(),
                segs == views(split@),
                segs == process_split_spec(split_seq(main_part@, '-'), false),
                (opt_view(name), opt_version(version), architecture@, package_type@, opt_view(
                    platform,
                )) == installer_components_fold(segs, extension@, i as int),
            decreases split@.len() - i,
        {
            let segment: String = split[i].clone();
            assert(segment@ == segs[i as int]);
            if Self::is_name(segment.as_str()) {
                name = Some(segment.clone());
            }
            let is_version: Option<SemanticVersion> = Self::is_version(segment.as_str());
            if is_version.is_some() {
                version = is_version;
            }
            if Self::is_architecture(segment.as_str()) {
                architecture = segment.clone();
            }
            if Self::is_package_type(segment.as_str()) {
                package_type = segment.clone();
            }
            let is_platform: Option<String> = Self::is_platform(segment.as_str(), extension);
            if is_platform.is_some() {
                platform = is_platform;
            }
            i = i + 1;
        }
        (name, version, architecture, package_type, platform)
    }
}

/// The position of the last `.` of `v`.
fn last_dot(v: &Vec<char>) -> (r: Option<usize>)
    ensures
        r matches Some(k) ==> last_index_of(v@, '.') == Some(k as nat) && k < v@.len(),
        r is None ==> last_index_of(v@, '.') is None,
{
    let mut i: usize = v.len();
    while i > 0
        invariant
            i <= v@.len(),
            forall|j: int| i <= j < v@.len() ==> v@[j] != '.',
        decreases i,
    {
        if v[i - 1] == '.' {
            proof {
                crate::languages::python::ftp::lemma_last_index_of(v@, '.', i as int);
            }
            return Some(i - 1);
        }
        i = i - 1;
    }
    proof {
        crate::languages::python::ftp::lemma_last_index_of(v@, '.', 0);
    }
    None
}


/// True when every file link of `links` can be read.
pub fn installer_files_readable(links: &Vec<LinkType>) -> (r: bool)
    ensures
        r == installer_files_ok(links_view(links@)),
{
    let mut i: usize = 0;
    while i < links.len()
        invariant
            i <= links@.len(),
            forall|j: int|
                0 <= j < i && !(#[trigger] links_view(links@)[j]).0 ==> installer_filename_ok(
                    links_view(links@)[j].1,
                ),
        decreases links@.len() - i,
    {
        match &links[i] {
            LinkType::File(file) => {
                if !PythonFilename::can_parse(file.as_str()) {
                    assert(!links_view(links@)[i as int].0);
                    return false;
                }
            },
            LinkType::Directory(_) => {},
        }
        i = i + 1;
    }
    true
}

/// The release server.
pub struct PythonFTPRetriever {
    ftp_url: String,
}

impl PythonFTPRetriever {
    /// The address of the release server.
    pub closed spec fn url_view(&self) -> Seq<char> {
        self.ftp_url@
    }

    /// The retriever of `https://www.python.org/ftp/python/`.
    pub fn new() -> (r: Self)
        ensures
            r.url_view() == "https://www.python.org/ftp/python/"@,
    {
        let ftp_url: String = String::from_str("https://www.python.org/ftp/python/");
        PythonFTPRetriever { ftp_url }
    }

    /// The address of the release server, whose listing is read first.
    pub fn root_url(&self) -> (r: String)
        ensures
            r@ == self.url_view(),
    {
        self.ftp_url.clone()
    }

    /// The directory of a version: `major.minor.patch/`.
    pub fn get_version_directory(&self, version: &PythonVersion) -> (r: String)
        ensures
            r@ == three_part_text(version.major, version.minor, version.patch) + seq!['/'],
    {
        let (major, minor, patch): (usize, usize, usize) = version.get_3p_version();
        let semantic: SemanticVersion = SemanticVersion::new_3p(major, minor, patch);
        let mut version_directory: String = semantic.get_3p_string();
        push_char(&mut version_directory, '/');
        version_directory
    }

    /// The name of the first installer among `structure`.
    pub fn find_install_file(
        &self,
        structure: &Vec<LinkType>,
        arch: &str,
        platform: &str,
        package_type: &str,
    ) -> (r: Option<String>)
        requires
            installer_files_ok(links_view(structure@)),
        ensures
            opt_view(r) == install_file_spec(
                links_view(structure@),
                arch@,
                platform@,
                package_type@,
            ),
    {
        let ghost links = links_view(structure@);
        let mut i: usize = 0;
        assert(links.skip(0) =~= links);
        while i < structure.len()
            invariant
                i <= structure@.len(),
                links == links_view(structure@),
                installer_files_ok(links),
                install_file_spec(links, arch@, platform@, package_type@) == install_file_spec(
                    links.skip(i as int),
                    arch@,
                    platform@,
                    package_type@,
                ),
            decreases structure@.len() - i,
        {
            assert(links[i as int] == link_view(structure@[i as int]));
            assert(links.skip(i as int)[0] == links[i as int]);
            assert(links.skip(i as int).drop_first() =~= links.skip(i + 1));
            match &structure[i] {
                LinkType::File(file) => {
                    let filename: Option<PythonFilename> = PythonFilename::new(file.as_str());
                    if let Some(filename) = filename {
                        let extensions: [&str; 3] = ["exe", "msi", "pkg"];
                        let requirement: bool = filename.match_requirements(
                            "python",
                            arch,
                            package_type,
                            platform,
                            &extensions,
                        );
                        proof {
                            assert(extensions@ =~= seq!["exe", "msi", "pkg"]);
                            if requirement {
                                let k = choose|k: int|
                                    0 <= k < extensions@.len() && extensions@[k]@
                                        == filename.parts().5;
                                assert(install_extensions()[k] == filename.parts().5);
                            }
                            if install_extensions().contains(filename.parts().5) {
                                let k = choose|k: int|
                                    0 <= k < install_extensions().len() && install_extensions()[k]
                                        == filename.parts().5;
                                assert(extensions@[k]@ == filename.parts().5);
                            }
                        }
                        if requirement {
                            return Some(file.clone());
                        }
                    }
                },
                LinkType::Directory(_) => {},
            }
            i = i + 1;
        }
        assert(links.skip(i as int) =~= Seq::<(bool, Seq<char>)>::empty());
        None
    }

    /// The address of the installer of `directory`, the directory of a
    /// version: its address followed by the name that `find_install_file`
    /// picks.
    pub fn get_install_file(
        &self,
        directory: &FileStructure,
        arch: &str,
        platform: &str,
        package_type: &str,
    ) -> (r: Option<String>)
        requires
            installer_files_ok(directory.links()),
        ensures
            opt_view(r) == match install_file_spec(
                directory.links(),
                arch@,
                platform@,
                package_type@,
            ) {
                Some(f) => Some(directory.url_view() + f),
                None => None,
            },
    {
        let structure: Vec<LinkType> = directory.get_structure();
        let install_file: Option<String> = self.find_install_file(
            &structure,
            arch,
            platform,
            package_type,
        );
        match install_file {
            Some(install_file) => {
                let mut url: String = directory.url.clone();
                push_str(&mut url, install_file.as_str());
                Some(url)
            },
            None => None,
        }
    }

    /// A line with the name, version, platform, architecture and package type
    /// of each installer file of `directory`.
    pub fn list_file_structure(&self, directory: &FileStructure) -> (r: String)
        requires
            installer_files_ok(directory.links()),
        ensures
            r@ == installer_listing_text(directory.links(), directory.links().len() as int),
    {
        let structure: Vec<LinkType> = directory.get_structure();
        let ghost links = links_view(structure@);
        let mut text: String = String::new();
        let mut i: usize = 0;
        while i < structure.len()
            invariant
                i <= structure@.len(),
                links == links_view(structure@),
                installer_files_ok(links),
                text@ == installer_listing_text(links, i as int),
            decreases structure@.len() - i,
        {
            assert(links[i as int] == link_view(structure@[i as int]));
            match &structure[i] {
                LinkType::File(file) => {
                    let filename: Option<PythonFilename> = PythonFilename::new(file.as_str());
                    if let Some(filename) = filename {
                        let line: String = filename.listing_line();
                        push_str(&mut text, line.as_str());
                    }
                },
                LinkType::Directory(_) => {},
            }
            i = i + 1;
        }
        text
    }
}

} // verus!
