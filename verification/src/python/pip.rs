//! Pip: its version, what `pip show` says of a package, the packages of an
//! environment and the dependencies listed in their metadata. Running pip
//! and reading the file system is done by the caller, who hands in the
//! responses, directory entries and file lines.
use vstd::prelude::*;

use crate::general::path::WPath;
use crate::general::shell::CommandResponse;
use crate::general::terminal::{ANSICode, RedANSI, Terminal, painted};
use crate::general::version::{semantic_version_spec, version_text, SemanticVersion};
use crate::languages::python::ftp::{opt_version, version_parts, VersionParts};
use crate::text::{
    all_ascii, ascii_lower, is_ascii_char, char_is_numeric, char_is_whitespace, chars_of, chars_start_with, first_index_of,
    is_numeric_char, is_white_space, lowercase, push_str, replace_char, replace_chars,
    seq_starts_with, split_chars, split_once_char, split_seq, str_eq, str_to_lowercase,
    string_from_chars, trim, trim_str, views, strip_leading, strip_trailing, first_word,
    trim_start_matches, trim_end_matches, take_until_whitespace, chars_end_with, seq_ends_with,
};

verus! {

/// A package name as pip compares names: `_` becomes `-`, then lower case.
pub open spec fn package_name_spec(name: Seq<char>) -> Seq<char> {
    lowercase(replace_char(name, '_', '-'))
}

/// Normalising an ASCII package name twice gives the same name as
/// normalising it once. (For other names the lower-casing is Unicode's,
/// which is named, not stated, so the law leaves them out.)
pub proof fn law_package_name_normal_form(name: Seq<char>)
    requires
        all_ascii(name),
    ensures
        package_name_spec(package_name_spec(name)) == package_name_spec(name),
{
    let once = package_name_spec(name);
    let r = replace_char(name, '_', '-');
    assert(all_ascii(r));
    assert(once =~= r.map_values(|c: char| ascii_lower(c)));
    assert forall|i: int| 0 <= i < once.len() implies is_ascii_char(#[trigger] once[i]) && once[i] != '_'
        && ascii_lower(once[i]) == once[i] by {
        let c = r[i];
        assert(is_ascii_char(c));
        assert(c != '_');
        if 'A' <= c && c <= 'Z' {
            assert(once[i] == ((c as u32) + 32) as char);
        }
    }
    let r2 = replace_char(once, '_', '-');
    assert(r2 =~= once);
    assert(all_ascii(r2));
    assert(package_name_spec(once) =~= r2.map_values(|c: char| ascii_lower(c)));
    assert(r2.map_values(|c: char| ascii_lower(c)) =~= once);
}

/// The name of a package.
#[derive(Debug)]
pub struct PipPackageName {
    name: String,
}

impl PipPackageName {
    /// The normalised name.
    pub closed spec fn name_view(&self) -> Seq<char> {
        self.name@
    }

    /// The name `name`, normalised.
    pub fn new(name: &str) -> (r: Self)
        ensures
            r.name_view() == package_name_spec(name@),
    {
        let replaced: String = replace_chars(name, '_', '-');
        let name: String = str_to_lowercase(replaced.as_str());
        PipPackageName { name }
    }

    /// The normalised name.
    pub fn get_string(&self) -> (r: &str)
        ensures
            r@ == self.name_view(),
    {
        self.name.as_str()
    }

    /// A copy of the name.
    pub fn duplicate(&self) -> (r: Self)
        ensures
            r.name_view() == self.name_view(),
    {
        PipPackageName { name: self.name.clone() }
    }
}

/// The views of a sequence of names.
pub open spec fn names_view(names: Seq<PipPackageName>) -> Seq<Seq<char>> {
    names.map_values(|n: PipPackageName| n.name_view())
}

/// True when `names` holds a name equal to `name`.
pub fn holds_name(names: &Vec<PipPackageName>, name: &str) -> (r: bool)
    ensures
        r == names_view(names@).contains(name@),
{
    let mut i: usize = 0;
    while i < names.len()
        invariant
            i <= names@.len(),
            forall|j: int| 0 <= j < i ==> (#[trigger] names@[j]).name_view() != name@,
        decreases names@.len() - i,
    {
        if str_eq(names[i].get_string(), name) {
            assert(names_view(names@)[i as int] == name@);
            return true;
        }
        i = i + 1;
    }
    proof {
        if names_view(names@).contains(name@) {
            let k = choose|k: int| 0 <= k < names_view(names@).len() && names_view(names@)[k] == name@;
            assert(names@[k].name_view() == name@);
        }
    }
    false
}

/// A package installed in an environment: its name, its version and the
/// path of its metadata directory.
pub struct PipPackage {
    name: PipPackageName,
    version: SemanticVersion,
    path: WPath,
}

impl PipPackage {
    /// The normalised name.
    pub closed spec fn name_view(&self) -> Seq<char> {
        self.name.name_view()
    }

    /// The version.
    pub closed spec fn version_view(&self) -> VersionParts {
        version_parts(self.version)
    }

    /// The full version as text.
    pub closed spec fn version_string(&self) -> Seq<char> {
        version_text(self.version)
    }

    /// The path of the metadata directory.
    pub closed spec fn path_view(&self) -> Seq<char> {
        self.path.text()
    }

    /// Whether that path has been made canonical.
    pub closed spec fn path_canonical(&self) -> bool {
        self.path.canonical()
    }

    /// A package.
    pub fn new(name: PipPackageName, version: SemanticVersion, path: WPath) -> (r: Self)
        ensures
            r.name_view() == name.name_view(),
            r.version_view() == version_parts(version),
            r.version_string() == version_text(version),
            r.path_view() == path.text(),
            r.path_canonical() == path.canonical(),
    {
        PipPackage { name, version, path }
    }

    /// The name.
    pub fn get_name(&self) -> (r: &PipPackageName)
        ensures
            r.name_view() == self.name_view(),
    {
        &self.name
    }

    /// The name as text.
    pub fn get_name_string(&self) -> (r: &str)
        ensures
            r@ == self.name_view(),
    {
        self.name.get_string()
    }

    /// The version.
    pub fn get_version(&self) -> (r: &SemanticVersion)
        ensures
            version_parts(*r) == self.version_view(),
            version_text(*r) == self.version_string(),
    {
        &self.version
    }

    /// The path of the metadata directory.
    pub fn get_path(&self) -> (r: &WPath)
        ensures
            r.text() == self.path_view(),
            r.canonical() == self.path_canonical(),
    {
        &self.path
    }

    /// `Name: <name> | Version: <version>`.
    pub fn get_string(&self) -> (r: String)
        ensures
            r@ == "Name: "@ + self.name_view() + " | Version: "@ + self.version_string(),
    {
        let version_string: String = self.version.get_string();
        let mut string: String = String::from_str("Name: ");
        push_str(&mut string, self.name.get_string());
        push_str(&mut string, " | Version: ");
        push_str(&mut string, version_string.as_str());
        string
    }

    /// The requirement line `<name>==<version>`.
    pub fn get_requirement_string(&self) -> (r: String)
        ensures
            r@ == self.name_view() + "=="@ + self.version_string(),
    {
        let version_string: String = self.version.get_string();
        let mut string: String = String::from_str(self.name.get_string());
        push_str(&mut string, "==");
        push_str(&mut string, version_string.as_str());
        string
    }

    /// A copy of the package.
    pub fn duplicate(&self) -> (r: Self)
        ensures
            r.name_view() == self.name_view(),
            r.version_view() == self.version_view(),
            r.version_string() == self.version_string(),
            r.path_view() == self.path_view(),
            r.path_canonical() == self.path_canonical(),
    {
        PipPackage {
            name: self.name.duplicate(),
            version: self.version.duplicate(),
            path: self.path.duplicate(),
        }
    }
}

/// The field that a `pip show` key sets: name, version, summary, home page,
/// author, author e-mail, licence, location, requirements, required by.
pub open spec fn show_key(key: Seq<char>) -> Option<int> {
    if key == "name"@ {
        Some(0)
    } else if key == "version"@ {
        Some(1)
    } else if key == "summary"@ {
        Some(2)
    } else if key == "home-page"@ {
        Some(3)
    } else if key == "author"@ {
        Some(4)
    } else if key == "author-email"@ {
        Some(5)
    } else if key == "license"@ {
        Some(6)
    } else if key == "location"@ {
        Some(7)
    } else if key == "requires"@ {
        Some(8)
    } else if key == "required-by"@ {
        Some(9)
    } else {
        None
    }
}

/// The fields after setting the field of `prefix`, lower-cased, to `suffix`.
pub open spec fn show_set(fields: Seq<Seq<char>>, prefix: Seq<char>, suffix: Seq<char>) -> Seq<Seq<char>> {
    match show_key(lowercase(prefix)) {
        Some(i) => fields.update(i, suffix),
        None => fields,
    }
}

/// The fields after the first `n` lines of `pip show` output: each line
/// `key: value` sets its field to the trimmed value.
pub open spec fn show_fold(fields: Seq<Seq<char>>, lines: Seq<Seq<char>>, n: int) -> Seq<Seq<char>>
    decreases n,
{
    if n <= 0 {
        fields
    } else {
        let prev = show_fold(fields, lines, n - 1);
        let line = lines[n - 1];
        match first_index_of(line, ':') {
            Some(k) => show_set(prev, trim(line.take(k as int)), trim(line.skip(k as int + 1))),
            None => prev,
        }
    }
}

/// What `pip show` says of a package.
pub struct PipShow {
    name: String,
    version: String,
    summary: String,
    homepage: String,
    author: String,
    author_email: String,
    license: String,
    location: String,
    requires: String,
    required_by: String,
}

impl PipShow {
    /// The fields in the order of `show_key`.
    pub closed spec fn fields(&self) -> Seq<Seq<char>> {
        seq![
            self.name@,
            self.version@,
            self.summary@,
            self.homepage@,
            self.author@,
            self.author_email@,
            self.license@,
            self.location@,
            self.requires@,
            self.required_by@,
        ]
    }

    /// All fields empty.
    pub fn new() -> (r: Self)
        ensures
            r.fields() == Seq::new(10, |_i: int| Seq::<char>::empty()),
    {
        let r = PipShow {
            name: String::new(),
            version: String::new(),
            summary: String::new(),
            homepage: String::new(),
            author: String::new(),
            author_email: String::new(),
            license: String::new(),
            location: String::new(),
            requires: String::new(),
            required_by: String::new(),
        };
        assert(r.fields() =~= Seq::new(10, |_i: int| Seq::<char>::empty()));
        r
    }

    /// Reads the output of `pip show`: each line `key: value` sets the field
    /// of its key to the trimmed value.
    pub fn parse(&mut self, stdout: &str)
        ensures
            final(self).fields() == show_fold(
                old(self).fields(),
                split_seq(stdout@, '\n'),
                split_seq(stdout@, '\n').len() as int,
            ),
    {
        let lines: Vec<String> = split_chars(stdout, '\n');
        let ghost ls = split_seq(stdout@, '\n');
        let mut i: usize = 0;
        while i < lines.len()
            invariant
                i <= lines@.len(),
                views(lines@) == ls,
                self.fields() == show_fold(old(self).fields(), ls, i as int),
            decreases lines@.len() - i,
        {
            assert(lines@[i as int]@ == ls[i as int]);
            let components: Option<(String, String)> = split_once_char(lines[i].as_str(), ':');
            if let Some(components) = components {
                let prefix: String = trim_str(components.0.as_str());
                let suffix: String = trim_str(components.1.as_str());
                self.auto_parse_set(prefix.as_str(), suffix.as_str());
            }
            i = i + 1;
        }
    }

    /// The name; `None` while it is empty.
    pub fn get_name(&self) -> (r: Option<&str>)
        ensures
            self.fields()[0].len() == 0 ==> r is None,
            self.fields()[0].len() > 0 ==> (r matches Some(n) && n@ == self.fields()[0]),
    {
        if self.name.as_str().is_empty() {
            return None;
        }
        Some(self.name.as_str())
    }

    fn auto_parse_set(&mut self, prefix: &str, suffix: &str)
        ensures
            final(self).fields() == show_set(old(self).fields(), prefix@, suffix@),
    {
        let key: String = str_to_lowercase(prefix);
        let value: String = String::from_str(suffix);
        let p: &str = key.as_str();
        if str_eq(p, "name") {
            self.name = value;
        } else if str_eq(p, "version") {
            self.version = value;
        } else if str_eq(p, "summary") {
            self.summary = value;
        } else if str_eq(p, "home-page") {
            self.homepage = value;
        } else if str_eq(p, "author") {
            self.author = value;
        } else if str_eq(p, "author-email") {
            self.author_email = value;
        } else if str_eq(p, "license") {
            self.license = value;
        } else if str_eq(p, "location") {
            self.location = value;
        } else if str_eq(p, "requires") {
            self.requires = value;
        } else if str_eq(p, "required-by") {
            self.required_by = value;
        }
        assert(self.fields() =~= show_set(old(self).fields(), prefix@, suffix@));
    }
}


/// The version characters read from `pip --version` output so far, and
/// whether reading stopped: reading begins at the first numeric character
/// and stops at the white space after it.
pub open spec fn pip_version_fold(s: Seq<char>) -> (Seq<char>, bool)
    decreases s.len(),
{
    if s.len() == 0 {
        (Seq::empty(), false)
    } else {
        let (chars, stopped) = pip_version_fold(s.drop_last());
        let c = s.last();
        if stopped {
            (chars, stopped)
        } else if is_numeric_char(c) && chars.len() == 0 {
            (chars.push(c), false)
        } else if is_white_space(c) && chars.len() > 0 {
            (chars, true)
        } else if chars.len() > 0 {
            (chars.push(c), false)
        } else {
            (chars, false)
        }
    }
}

/// The version text in `pip --version` output: from its first numeric
/// character to the next white space, when the output starts with `pip`.
pub open spec fn pip_version_text(stdout: Seq<char>) -> Seq<char> {
    if seq_starts_with(stdout, "pip"@) {
        pip_version_fold(stdout).0
    } else {
        Seq::empty()
    }
}

/// What `Pip::parse_pip_version` makes of the response to
/// `python -m pip --version`: the version in its output, or else the error it
/// wrote, or else a failure to respond.
pub open spec fn pip_version_spec(response: Option<(Seq<char>, Seq<char>)>) -> Result<VersionParts, Seq<char>> {
    match response {
        None => Err("Error: Failed to get response from Pip."@),
        Some((stdout, stderr)) => {
            let text = pip_version_text(stdout);
            if text.len() > 0 && semantic_version_spec(text) is Some {
                Ok(semantic_version_spec(text)->0)
            } else if stderr.len() > 0 {
                Err("Pip Error: "@ + stderr)
            } else {
                Err("Error: Failed to get response from Pip."@)
            }
        },
    }
}

/// The output and error text of an optional response.
pub open spec fn response_texts(response: Option<&CommandResponse>) -> Option<(Seq<char>, Seq<char>)> {
    match response {
        Some(r) => Some((r.stdout_view(), r.stderr_view())),
        None => None,
    }
}

/// Pip, known by its version.
pub struct Pip {
    pip_version: SemanticVersion,
}

impl Pip {
    /// The version of pip.
    pub closed spec fn version_view(&self) -> VersionParts {
        version_parts(self.pip_version)
    }

    /// Pip from the response to `python -m pip --version`; `None` when no
    /// version is found, after writing why in red.
    pub fn new(response: Option<&CommandResponse>, terminal: &mut Terminal) -> (r: Option<Self>)
        ensures
            final(terminal).code() == old(terminal).code(),
            match pip_version_spec(response_texts(response)) {
                Ok(v) => r matches Some(p) && p.version_view() == v && final(terminal).output()
                    == old(terminal).output(),
                Err(e) => r is None && final(terminal).output() == old(terminal).output()
                    + painted(
                    RedANSI.spec_value(),
                    "Found Python, but was unable to retrieve Pip version.\n"@,
                ) + seq!['\n'] + painted(RedANSI.spec_value(), e) + seq!['\n'],
            },
    {
        let pip_version: Result<SemanticVersion, String> = Self::parse_pip_version(response);
        match pip_version {
            Ok(pip_version) => Some(Pip { pip_version }),
            Err(error) => {
                let string: &str = "Found Python, but was unable to retrieve Pip version.\n";
                terminal.writeln_ansi(string, &RedANSI);
                terminal.writeln_ansi(error.as_str(), &RedANSI);
                None
            },
        }
    }

    /// A copy of this pip.
    pub fn duplicate(&self) -> (r: Self)
        ensures
            r.version_view() == self.version_view(),
    {
        Pip { pip_version: self.pip_version.duplicate() }
    }

    /// The version of pip.
    pub fn get_pip_version(&self) -> (r: &SemanticVersion)
        ensures
            version_parts(*r) == self.version_view(),
    {
        &self.pip_version
    }

    /// What `pip show` says of a package, from the response to the command
    /// that `get_find_package_args` gives; `None` without a response.
    pub fn find_package(&self, response: Option<&CommandResponse>) -> (r: Option<PipShow>)
        ensures
            match response {
                Some(c) => r matches Some(s) && s.fields() == show_fold(
                    Seq::new(10, |_i: int| Seq::<char>::empty()),
                    split_seq(c.stdout_view(), '\n'),
                    split_seq(c.stdout_view(), '\n').len() as int,
                ),
                None => r is None,
            },
    {
        match response {
            Some(response) => {
                let mut pip_show: PipShow = PipShow::new();
                pip_show.parse(response.get_stdout());
                Some(pip_show)
            },
            None => None,
        }
    }

    /// True when the install command that `get_install_package_args` gives
    /// ended with code 0; its response is written first.
    pub fn install_package(&self, response: &mut Option<CommandResponse>) -> (r: bool)
        ensures
            match *old(response) {
                Some(c) => *final(response) matches Some(f) && r == (c.code() == Some(0i32))
                    && f.output() == c.output() + crate::general::shell::response_text(
                    c.stdout_view(),
                    c.stderr_view(),
                    c.code(),
                ),
                None => !r && *final(response) is None,
            },
    {
        match response {
            Some(response) => {
                response.print();
                response.success()
            },
            None => false,
        }
    }

    /// The arguments of `python` that install `package`; pip after version 9
    /// is also told not to warn about the scripts' location.
    pub fn get_install_package_args<'a>(&self, package: &'a str) -> (r: Vec<&'a str>)
        ensures
            r@.map_values(|a: &str| a@) == seq![
                "-m"@,
                "pip"@,
                "install"@,
                package@,
                "--disable-pip-version-check"@,
            ] + if self.version_view().0 > 9 {
                seq!["--no-warn-script-location"@]
            } else {
                Seq::empty()
            },
    {
        let mut args: Vec<&str> = Vec::new();
        args.push("-m");
        args.push("pip");
        args.push("install");
        args.push(package);
        args.push("--disable-pip-version-check");
        if self.pip_version.get_major() > 9 {
            args.push("--no-warn-script-location");
        }
        assert(args@.map_values(|a: &str| a@) =~= seq![
            "-m"@,
            "pip"@,
            "install"@,
            package@,
            "--disable-pip-version-check"@,
        ] + if self.version_view().0 > 9 {
            seq!["--no-warn-script-location"@]
        } else {
            Seq::empty()
        });
        args
    }

    /// The arguments of `python` that show `package`.
    pub fn get_find_package_args<'a>(&self, package: &'a str) -> (r: Vec<&'a str>)
        ensures
            r@.map_values(|a: &str| a@) == seq![
                "-m"@,
                "pip"@,
                "show"@,
                package@,
                "--disable-pip-version-check"@,
            ],
    {
        let mut args: Vec<&str> = Vec::new();
        args.push("-m");
        args.push("pip");
        args.push("show");
        args.push(package);
        args.push("--disable-pip-version-check");
        assert(args@.map_values(|a: &str| a@) =~= seq![
            "-m"@,
            "pip"@,
            "show"@,
            package@,
            "--disable-pip-version-check"@,
        ]);
        args
    }

    /// The version in the response to `python -m pip --version`, or the
    /// message of what went wrong.
    pub fn parse_pip_version(response: Option<&CommandResponse>) -> (r: Result<SemanticVersion, String>)
        ensures
            match pip_version_spec(response_texts(response)) {
                Ok(v) => r matches Ok(s) && version_parts(s) == v,
                Err(e) => r matches Err(m) && m@ == e,
            },
    {
        if let Some(response) = response {
            let stdout: &str = response.get_stdout();
            let v: Vec<char> = chars_of(stdout);
            let pip: Vec<char> = chars_of("pip");
            let mut chars: Vec<char> = Vec::new();
            if chars_start_with(&v, &pip) {
                let mut stopped: bool = false;
                let mut i: usize = 0;
                while i < v.len()
                    invariant
                        i <= v@.len(),
                        v@ == stdout@,
                        (chars@, stopped) == pip_version_fold(v@.take(i as int)),
                    decreases v@.len() - i,
                {
                    assert(v@.take(i + 1).drop_last() =~= v@.take(i as int));
                    let c: char = v[i];
                    if stopped {
                    } else if char_is_numeric(c) && chars.len() == 0 {
                        chars.push(c);
                    } else if char_is_whitespace(c) && chars.len() > 0 {
                        stopped = true;
                    } else if chars.len() > 0 {
                        chars.push(c);
                    }
                    i = i + 1;
                }
                assert(v@.take(i as int) =~= v@);
            }
            if chars.len() > 0 {
                let version_string: String = string_from_chars(&chars);
                let version: Option<SemanticVersion> = SemanticVersion::from_string(
                    version_string.as_str(),
                );
                if let Some(version) = version {
                    return Ok(version);
                }
            }
            let stderr: &str = response.get_stderr();
            if !stderr.is_empty() {
                let mut error_string: String = String::from_str("Pip Error: ");
                push_str(&mut error_string, stderr);
                return Err(error_string);
            }
        }
        Err(String::from_str("Error: Failed to get response from Pip."))
    }
}


/// A set of names as a sequence: `n` added unless present.
pub open spec fn names_insert(ns: Seq<Seq<char>>, n: Seq<char>) -> Seq<Seq<char>> {
    if ns.contains(n) {
        ns
    } else {
        ns.push(n)
    }
}

/// The position of the entry with key `k`.
pub open spec fn index_of_key(es: Seq<(Seq<char>, Seq<Seq<char>>)>, k: Seq<char>) -> Option<int>
    decreases es.len(),
{
    if es.len() == 0 {
        None
    } else if es.last().0 == k {
        Some(es.len() - 1)
    } else {
        index_of_key(es.drop_last(), k)
    }
}

/// A map as a sequence of entries: the value of `k` set to `v`.
pub open spec fn entries_insert(es: Seq<(Seq<char>, Seq<Seq<char>>)>, k: Seq<char>, v: Seq<Seq<char>>) -> Seq<
    (Seq<char>, Seq<Seq<char>>),
> {
    match index_of_key(es, k) {
        Some(i) => es.update(i, (k, v)),
        None => es.push((k, v)),
    }
}

/// The value of `k`.
pub open spec fn entries_get(es: Seq<(Seq<char>, Seq<Seq<char>>)>, k: Seq<char>) -> Option<Seq<Seq<char>>> {
    match index_of_key(es, k) {
        Some(i) => Some(es[i].1),
        None => None,
    }
}

proof fn lemma_index_of_key(es: Seq<(Seq<char>, Seq<Seq<char>>)>, k: Seq<char>, i: int)
    requires
        0 <= i <= es.len(),
        forall|j: int| i <= j < es.len() ==> (#[trigger] es[j]).0 != k,
    ensures
        i > 0 && es[i - 1].0 == k ==> index_of_key(es, k) == Some(i - 1),
        i == 0 ==> index_of_key(es, k) is None,
    decreases es.len(),
{
    if es.len() > i {
        lemma_index_of_key(es.drop_last(), k, i);
    }
}

proof fn lemma_index_of_key_same_keys(
    a: Seq<(Seq<char>, Seq<Seq<char>>)>,
    b: Seq<(Seq<char>, Seq<Seq<char>>)>,
    k: Seq<char>,
)
    requires
        a.len() == b.len(),
        forall|j: int| 0 <= j < a.len() ==> (#[trigger] a[j]).0 == b[j].0,
    ensures
        index_of_key(a, k) == index_of_key(b, k),
    decreases a.len(),
{
    if a.len() > 0 {
        lemma_index_of_key_same_keys(a.drop_last(), b.drop_last(), k);
    }
}

proof fn lemma_index_of_key_found(es: Seq<(Seq<char>, Seq<Seq<char>>)>, k: Seq<char>)
    ensures
        index_of_key(es, k) matches Some(i) ==> 0 <= i < es.len() && es[i].0 == k,
    decreases es.len(),
{
    if es.len() > 0 {
        lemma_index_of_key_found(es.drop_last(), k);
    }
}

/// Law: after the packages of `k` are set to `v`, they read back as `v`,
/// and those of every other key read as before.
pub proof fn law_requirements_read_after_write(
    es: Seq<(Seq<char>, Seq<Seq<char>>)>,
    k: Seq<char>,
    v: Seq<Seq<char>>,
    other: Seq<char>,
)
    ensures
        entries_get(entries_insert(es, k, v), k) == Some(v),
        other != k ==> entries_get(entries_insert(es, k, v), other) == entries_get(es, other),
{
    lemma_index_of_key_found(es, k);
    lemma_index_of_key_found(es, other);
    match index_of_key(es, k) {
        Some(i) => {
            let updated = es.update(i, (k, v));
            lemma_index_of_key_same_keys(updated, es, k);
            lemma_index_of_key_same_keys(updated, es, other);
            lemma_index_of_key_found(updated, other);
        },
        None => {
            let pushed = es.push((k, v));
            assert(pushed.drop_last() =~= es);
        },
    }
}

/// Law: distilling only leaves packages out; each package it keeps was
/// listed.
pub proof fn law_distill_keeps_only_listed_packages(
    pkgs: Seq<PackageView>,
    metadata: Seq<PipMetadata>,
    n: int,
    p: PackageView,
)
    requires
        0 <= n <= metadata.len(),
        distill_fold(pkgs, metadata, n).contains(p),
    ensures
        pkgs.contains(p),
    decreases n,
{
    if n > 0 {
        let prev = distill_fold(pkgs, metadata, n - 1);
        match entries_get(metadata[n - 1].requires_view(), "base"@) {
            Some(base) => {
                lemma_distill_base_subset(prev, base, p);
            },
            None => {},
        }
        law_distill_keeps_only_listed_packages(pkgs, metadata, n - 1, p);
    }
}

proof fn lemma_distill_base_subset(pkgs: Seq<PackageView>, base: Seq<Seq<char>>, p: PackageView)
    ensures
        distill_base(pkgs, base).contains(p) ==> pkgs.contains(p),
    decreases pkgs.len(),
{
    if pkgs.len() > 0 {
        lemma_distill_base_subset(pkgs.drop_last(), base, p);
        if distill_base(pkgs, base).contains(p) {
            let prev = distill_base(pkgs.drop_last(), base);
            if prev.contains(p) {
                let j = choose|j: int| 0 <= j < pkgs.drop_last().len() && pkgs.drop_last()[j] == p;
                assert(pkgs[j] == p);
            } else {
                assert(pkgs[pkgs.len() - 1] == p);
            }
        }
    }
}

/// The packages that a package requires, by the extra that asks for them
/// (`base` for those always required).
pub struct Requirements {
    entries: Vec<(String, Vec<PipPackageName>)>,
}

/// The view of the entries of a requirements map.
pub open spec fn entries_view(es: Seq<(String, Vec<PipPackageName>)>) -> Seq<(Seq<char>, Seq<Seq<char>>)> {
    es.map_values(|e: (String, Vec<PipPackageName>)| (e.0@, names_view(e.1@)))
}

impl Requirements {
    /// The entries, in the order their keys were first set.
    pub closed spec fn entries(&self) -> Seq<(Seq<char>, Seq<Seq<char>>)> {
        entries_view(self.entries@)
    }

    /// No requirement.
    pub fn new() -> (r: Self)
        ensures
            r.entries() == Seq::<(Seq<char>, Seq<Seq<char>>)>::empty(),
    {
        let r = Requirements { entries: Vec::new() };
        assert(r.entries() =~= Seq::<(Seq<char>, Seq<Seq<char>>)>::empty());
        r
    }

    /// Sets the packages required for `key`.
    pub fn insert(&mut self, key: String, names: Vec<PipPackageName>)
        ensures
            final(self).entries() == entries_insert(old(self).entries(), key@, names_view(names@)),
    {
        let ghost es = self.entries();
        let mut i: usize = self.entries.len();
        while i > 0
            invariant
                i <= self.entries@.len(),
                es == self.entries(),
                es == old(self).entries(),
                forall|j: int| i <= j < es.len() ==> (#[trigger] es[j]).0 != key@,
            decreases i,
        {
            if str_eq(self.entries[i - 1].0.as_str(), key.as_str()) {
                proof {
                    assert(es[i - 1].0 == key@);
                    lemma_index_of_key(es, key@, i as int);
                }
                let ghost v = names_view(names@);
                self.entries.set(i - 1, (key, names));
                assert(self.entries() =~= es.update(i - 1, (key@, v)));
                return;
            }
            i = i - 1;
        }
        proof {
            lemma_index_of_key(es, key@, 0);
        }
        let ghost v = names_view(names@);
        let ghost k = key@;
        self.entries.push((key, names));
        assert(self.entries() =~= es.push((k, v)));
    }

    /// The packages required for `key`.
    pub fn get(&self, key: &str) -> (r: Option<&Vec<PipPackageName>>)
        ensures
            match entries_get(self.entries(), key@) {
                Some(v) => r matches Some(n) && names_view(n@) == v,
                None => r is None,
            },
    {
        let ghost es = self.entries();
        let mut i: usize = self.entries.len();
        while i > 0
            invariant
                i <= self.entries@.len(),
                es == self.entries(),
                forall|j: int| i <= j < es.len() ==> (#[trigger] es[j]).0 != key@,
            decreases i,
        {
            if str_eq(self.entries[i - 1].0.as_str(), key) {
                proof {
                    assert(es[i - 1].0 == key@);
                    lemma_index_of_key(es, key@, i as int);
                }
                return Some(&self.entries[i - 1].1);
            }
            i = i - 1;
        }
        proof {
            lemma_index_of_key(es, key@, 0);
        }
        None
    }

    /// A copy of the requirements.
    pub fn duplicate(&self) -> (r: Self)
        ensures
            r.entries() == self.entries(),
    {
        let mut entries: Vec<(String, Vec<PipPackageName>)> = Vec::new();
        let mut i: usize = 0;
        while i < self.entries.len()
            invariant
                i <= self.entries@.len(),
                entries_view(entries@) == self.entries().take(i as int),
            decreases self.entries@.len() - i,
        {
            let names: Vec<PipPackageName> = duplicate_names(&self.entries[i].1);
            let key: String = self.entries[i].0.clone();
            let ghost before = entries_view(entries@);
            let ghost e = (key@, names_view(names@));
            entries.push((key, names));
            assert(entries_view(entries@) =~= before.push(e));
            assert(self.entries().take(i + 1) =~= self.entries().take(i as int).push(self.entries()[i as int]));
            i = i + 1;
        }
        assert(self.entries().take(i as int) =~= self.entries());
        Requirements { entries }
    }
}

/// A copy of a list of names.
fn duplicate_names(names: &Vec<PipPackageName>) -> (r: Vec<PipPackageName>)
    ensures
        names_view(r@) == names_view(names@),
{
    let mut out: Vec<PipPackageName> = Vec::new();
    let mut i: usize = 0;
    while i < names.len()
        invariant
            i <= names@.len(),
            names_view(out@) == names_view(names@).take(i as int),
        decreases names@.len() - i,
    {
        let n: PipPackageName = names[i].duplicate();
        let ghost before = names_view(out@);
        let ghost nv = n.name_view();
        out.push(n);
        assert(names_view(out@) =~= before.push(nv));
        assert(names_view(names@).take(i + 1) =~= names_view(names@).take(i as int).push(names_view(names@)[i as int]));
        i = i + 1;
    }
    assert(names_view(names@).take(i as int) =~= names_view(names@));
    out
}

/// A package and what it requires.
pub struct PipMetadata {
    package: PipPackage,
    requirements: Requirements,
}

impl PipMetadata {
    /// The name of the package.
    pub closed spec fn package_name(&self) -> Seq<char> {
        self.package.name_view()
    }

    /// What the package requires.
    pub closed spec fn requires_view(&self) -> Seq<(Seq<char>, Seq<Seq<char>>)> {
        self.requirements.entries()
    }

    /// The metadata of `package`.
    pub fn new(package: &PipPackage, requirements: &Requirements) -> (r: Self)
        ensures
            r.package_name() == package.name_view(),
            r.requires_view() == requirements.entries(),
    {
        PipMetadata { package: package.duplicate(), requirements: requirements.duplicate() }
    }

    /// The package.
    pub fn get_package(&self) -> (r: &PipPackage)
        ensures
            r.name_view() == self.package_name(),
    {
        &self.package
    }

    /// What the package requires.
    pub fn get_requires(&self) -> (r: &Requirements)
        ensures
            r.entries() == self.requires_view(),
    {
        &self.requirements
    }
}

/// The text that begins a requirement line of a metadata file.
pub open spec fn requires_dist() -> Seq<char> {
    "Requires-Dist:"@
}

/// The text that begins an extra's line of a metadata file.
pub open spec fn provides_extra() -> Seq<char> {
    "Provides-Extra:"@
}

/// The name of an extra on its line.
pub open spec fn flag_name_spec(line: Seq<char>) -> Seq<char> {
    trim(strip_leading(line, provides_extra()))
}

/// The package named on a requirement line: the first word after the
/// prefix, normalised.
pub open spec fn requires_name_spec(line: Seq<char>) -> Seq<char> {
    package_name_spec(first_word(trim(strip_leading(line, requires_dist()))))
}

/// What `parse_requires` holds while it reads the lines: the current extra,
/// the requirements so far, the names of the current extra, whether the
/// requirements began, and whether reading stopped.
pub type RequiresState = (Seq<char>, Seq<(Seq<char>, Seq<Seq<char>>)>, Seq<Seq<char>>, bool, bool);

/// One line of a metadata file. An extra's line starts a new extra, saving
/// the names of the previous one once requirements began; a requirement line
/// adds its package; an empty line after the requirements saves the names
/// and ends reading.
pub open spec fn requires_step(st: RequiresState, line: Seq<char>) -> RequiresState {
    let (flag, es, names, begin, stopped) = st;
    if stopped {
        st
    } else if seq_starts_with(line, provides_extra()) && !begin {
        (flag_name_spec(line), es, names, begin, false)
    } else if seq_starts_with(line, provides_extra()) && begin {
        (flag_name_spec(line), entries_insert(es, flag, names), Seq::empty(), begin, false)
    } else if seq_starts_with(line, requires_dist()) {
        (flag, es, names_insert(names, requires_name_spec(line)), true, false)
    } else if begin && line.len() == 0 {
        (flag, entries_insert(es, flag, names), Seq::empty(), begin, true)
    } else {
        st
    }
}

/// The state after the first `n` lines.
pub open spec fn requires_fold(lines: Seq<Seq<char>>, n: int) -> RequiresState
    decreases n,
{
    if n <= 0 {
        ("base"@, Seq::empty(), Seq::empty(), false, false)
    } else {
        requires_step(requires_fold(lines, n - 1), lines[n - 1])
    }
}

/// The requirements of a metadata file with the lines `lines`.
pub open spec fn requires_spec(lines: Seq<Seq<char>>) -> Seq<(Seq<char>, Seq<Seq<char>>)> {
    let st = requires_fold(lines, lines.len() as int);
    if st.2.len() > 0 {
        entries_insert(st.1, st.0, st.2)
    } else {
        st.1
    }
}

/// Reads the requirements of a package's metadata file.
pub struct PipMetadataParser;

impl PipMetadataParser {
    /// The parser.
    pub fn new() -> (r: Self) {
        PipMetadataParser
    }

    /// The requirements listed by the lines of a metadata file.
    pub fn parse_requires(&self, lines: &Vec<String>) -> (r: Requirements)
        ensures
            r.entries() == requires_spec(views(lines@)),
    {
        let mut flag_name: String = String::from_str("base");
        let mut requirements: Requirements = Requirements::new();
        let mut package_names: Vec<PipPackageName> = Vec::new();
        let mut requires_begin: bool = false;
        let mut stopped: bool = false;
        let requires_dist: &str = "Requires-Dist:";
        let provides_extra: &str = "Provides-Extra:";
        let ghost ls = views(lines@);
        let mut i: usize = 0;
        while i < lines.len() && !stopped
            invariant
                i <= lines@.len(),
                ls == views(lines@),
                requires_dist@ == crate::python::pip::requires_dist(),
                provides_extra@ == crate::python::pip::provides_extra(),
                (flag_name@, requirements.entries(), names_view(package_names@), requires_begin, stopped)
                    == requires_fold(ls, i as int),
            decreases lines@.len() - i,
        {
            let line: &str = lines[i].as_str();
            assert(line@ == ls[i as int]);
            let lv: Vec<char> = chars_of(line);
            let pe: Vec<char> = chars_of(provides_extra);
            let rd: Vec<char> = chars_of(requires_dist);
            if chars_start_with(&lv, &pe) && !requires_begin {
                flag_name = self.parse_flag_name(line, provides_extra);
            } else if chars_start_with(&lv, &pe) && requires_begin {
                let names: Vec<PipPackageName> = duplicate_names(&package_names);
                requirements.insert(flag_name.clone(), names);
                package_names = Vec::new();
                assert(names_view(package_names@) =~= Seq::<Seq<char>>::empty());
                flag_name = self.parse_flag_name(line, provides_extra);
            } else if chars_start_with(&lv, &rd) {
                requires_begin = true;
                let name: PipPackageName = self.parse_requires_name(line, requires_dist);
                if !holds_name(&package_names, name.get_string()) {
                    let ghost before = names_view(package_names@);
                    let ghost nv = name.name_view();
                    package_names.push(name);
                    assert(names_view(package_names@) =~= before.push(nv));
                }
            } else if requires_begin && line.is_empty() {
                let names: Vec<PipPackageName> = duplicate_names(&package_names);
                requirements.insert(flag_name.clone(), names);
                package_names = Vec::new();
                assert(names_view(package_names@) =~= Seq::<Seq<char>>::empty());
                stopped = true;
            }
            i = i + 1;
        }
        proof {
            if stopped {
                lemma_requires_stopped(ls, i as int, ls.len() as int);
            }
        }
        if package_names.len() > 0 {
            requirements.insert(flag_name.clone(), package_names);
        }
        requirements
    }

    /// The name of the extra on its line.
    pub fn parse_flag_name(&self, line: &str, provides_extra: &str) -> (r: String)
        ensures
            r@ == trim(strip_leading(line@, provides_extra@)),
    {
        let line: String = trim_start_matches(line, provides_extra);
        trim_str(line.as_str())
    }

    /// The package named on a requirement line.
    pub fn parse_requires_name(&self, line: &str, requires_dist: &str) -> (r: PipPackageName)
        ensures
            r.name_view() == package_name_spec(first_word(trim(strip_leading(line@, requires_dist@)))),
    {
        let line: String = trim_start_matches(line, requires_dist);
        let line: String = trim_str(line.as_str());
        let string: String = take_until_whitespace(line.as_str());
        PipPackageName::new(string.as_str())
    }
}

proof fn lemma_requires_stopped(lines: Seq<Seq<char>>, i: int, n: int)
    requires
        0 <= i <= n,
        requires_fold(lines, i).4,
    ensures
        requires_fold(lines, n) == requires_fold(lines, i),
    decreases n - i,
{
    if n > i {
        lemma_requires_stopped(lines, i, n - 1);
    }
}


/// A package as its name, version, path, and whether the path is
/// canonical.
pub type PackageView = (Seq<char>, VersionParts, Seq<char>, bool);

/// The view of a package.
pub open spec fn package_view(p: PipPackage) -> PackageView {
    (p.name_view(), p.version_view(), p.path_view(), p.path_canonical())
}

/// The views of a sequence of packages.
pub open spec fn packages_view(ps: Seq<PipPackage>) -> Seq<PackageView> {
    ps.map_values(|p: PipPackage| package_view(p))
}

/// `pkgs` without the releases (no qualifier) that `base` names.
pub open spec fn distill_base(pkgs: Seq<PackageView>, base: Seq<Seq<char>>) -> Seq<PackageView>
    decreases pkgs.len(),
{
    if pkgs.len() == 0 {
        Seq::empty()
    } else {
        let prev = distill_base(pkgs.drop_last(), base);
        let p = pkgs.last();
        if p.1.3.len() == 0 && base.contains(p.0) {
            prev
        } else {
            prev.push(p)
        }
    }
}

/// `pkgs` without the releases that the first `n` metadata entries require
/// always (under `base`).
pub open spec fn distill_fold(pkgs: Seq<PackageView>, metadata: Seq<PipMetadata>, n: int) -> Seq<PackageView>
    decreases n,
{
    if n <= 0 {
        pkgs
    } else {
        let prev = distill_fold(pkgs, metadata, n - 1);
        match entries_get(metadata[n - 1].requires_view(), "base"@) {
            Some(base) => distill_base(prev, base),
            None => prev,
        }
    }
}

/// The suffix of the metadata directories of installed packages.
pub open spec fn dist_info() -> Seq<char> {
    ".dist-info"@
}

/// The names of directories that `parse_dir_name` reads without panicking:
/// a metadata directory name has a `-` between name and version.
pub open spec fn dir_name_ok(name: Seq<char>) -> bool {
    crate::text::seq_ends_with(name, dist_info()) ==> split_seq(
        strip_trailing(name, dist_info()),
        '-',
    ).len() >= 2
}

/// The package that a directory named `name` at `path` (canonical or not)
/// holds the metadata
/// of: for `<name>-<version>.dist-info`, the normalised name and the version,
/// when the version reads.
pub open spec fn dir_package(name: Seq<char>, path: Seq<char>, canonical: bool) -> Option<PackageView> {
    if crate::text::seq_ends_with(name, dist_info()) {
        let parts = split_seq(strip_trailing(name, dist_info()), '-');
        match semantic_version_spec(parts[1]) {
            Some(v) => Some((package_name_spec(parts[0]), v, path, canonical)),
            None => None,
        }
    } else {
        None
    }
}

/// Law: the package read from a metadata directory named
/// `<name>-<version>.dist-info` carries the pip-normal form of `<name>`
/// (`_` replaced by `-`, then lower case) and the version that
/// `from_string` reads from `<version>`, with the directory's path.
pub proof fn law_dist_info_package_name_is_normalised(
    name: Seq<char>,
    version: Seq<char>,
    path: Seq<char>,
    canonical: bool,
)
    requires
        forall|i: int| 0 <= i < name.len() ==> #[trigger] name[i] != '-',
        forall|i: int| 0 <= i < version.len() ==> #[trigger] version[i] != '-',
        !seq_ends_with(name + seq!['-'] + version, dist_info()),
        semantic_version_spec(version) is Some,
    ensures
        dir_package(name + seq!['-'] + version + dist_info(), path, canonical) == Some(
            (package_name_spec(name), semantic_version_spec(version)->0, path, canonical),
        ),
{
    let stem = name + seq!['-'] + version;
    let dir = stem + dist_info();
    assert(dir.skip(dir.len() - dist_info().len()) =~= dist_info());
    assert(seq_ends_with(dir, dist_info()));
    assert(dir.take(dir.len() - dist_info().len()) =~= stem);
    assert(dist_info().len() > 0);
    assert(strip_trailing(dir, dist_info()) == strip_trailing(stem, dist_info()));
    assert(strip_trailing(stem, dist_info()) == stem);
    crate::text::lemma_split_single(name, '-');
    crate::text::lemma_split_append_piece(name, version, '-');
    assert(seq![name].push(version) =~= seq![name, version]);
    assert(split_seq(stem, '-') == seq![name, version]);
}

/// Reads the packages of an environment from the names of their metadata
/// directories, and leaves out those that others require.
pub struct PipPackageParser {
    packages_dir: WPath,
}

impl PipPackageParser {
    /// The directory of the packages.
    pub closed spec fn dir_view(&self) -> Seq<char> {
        self.packages_dir.text()
    }

    /// The parser of the packages in `packages_dir`.
    pub fn new(packages_dir: &WPath) -> (r: Self)
        ensures
            r.dir_view() == packages_dir.text(),
    {
        PipPackageParser { packages_dir: packages_dir.duplicate() }
    }

    /// The directory of the packages.
    pub fn get_packages_dir(&self) -> (r: &WPath)
        ensures
            r.text() == self.dir_view(),
    {
        &self.packages_dir
    }

    /// True when `parse_dir_name` reads `entry_name` without panicking.
    pub fn dir_name_readable(entry_name: &str) -> (r: bool)
        ensures
            r == dir_name_ok(entry_name@),
    {
        let v: Vec<char> = chars_of(entry_name);
        let suffix: Vec<char> = chars_of(".dist-info");
        if chars_end_with(&v, &suffix) {
            let string: String = trim_end_matches(entry_name, ".dist-info");
            let parts: Vec<String> = split_chars(string.as_str(), '-');
            return parts.len() >= 2;
        }
        true
    }

    /// Adds the package of the directory `entry_name` at `entry_path` when it
    /// is the metadata directory of a package whose version reads.
    pub fn parse_dir_name(&self, entry_path: &WPath, entry_name: &str, packages: &mut Vec<PipPackage>)
        requires
            dir_name_ok(entry_name@),
        ensures
            packages_view(final(packages)@) == match dir_package(entry_name@, entry_path.text(), entry_path.canonical()) {
                Some(p) => packages_view(old(packages)@).push(p),
                None => packages_view(old(packages)@),
            },
    {
        let v: Vec<char> = chars_of(entry_name);
        let suffix: Vec<char> = chars_of(".dist-info");
        if chars_end_with(&v, &suffix) {
            let string: String = trim_end_matches(entry_name, ".dist-info");
            let parts: Vec<String> = split_chars(string.as_str(), '-');
            let name: PipPackageName = PipPackageName::new(parts[0].as_str());
            let version: Option<SemanticVersion> = SemanticVersion::from_string(parts[1].as_str());
            if let Some(version) = version {
                let package: PipPackage = PipPackage::new(name, version, entry_path.duplicate());
                let ghost before = packages_view(packages@);
                let ghost pv = package_view(package);
                packages.push(package);
                assert(packages_view(packages@) =~= before.push(pv));
            }
        }
    }

    /// Leaves out of `packages` the releases that a package of `metadata`
    /// always requires.
    pub fn distill_packages(&self, packages: &mut Vec<PipPackage>, metadata: &Vec<PipMetadata>)
        ensures
            packages_view(final(packages)@) == distill_fold(
                packages_view(old(packages)@),
                metadata@,
                metadata@.len() as int,
            ),
    {
        let mut i: usize = 0;
        while i < metadata.len()
            invariant
                i <= metadata@.len(),
                packages_view(packages@) == distill_fold(
                    packages_view(old(packages)@),
                    metadata@,
                    i as int,
                ),
            decreases metadata@.len() - i,
        {
            let requires_map: &Requirements = metadata[i].get_requires();
            let base: Option<&Vec<PipPackageName>> = requires_map.get("base");
            if let Some(base) = base {
                self.distill_from_base_dependencies(base, packages);
            }
            i = i + 1;
        }
    }

    /// Leaves out of `packages` the releases (no qualifier) that `base` names.
    pub fn distill_from_base_dependencies(&self, base: &Vec<PipPackageName>, packages: &mut Vec<PipPackage>)
        ensures
            packages_view(final(packages)@) == distill_base(
                packages_view(old(packages)@),
                names_view(base@),
            ),
    {
        let ghost start = packages_view(packages@);
        let mut kept: Vec<PipPackage> = Vec::new();
        let mut i: usize = 0;
        while i < packages.len()
            invariant
                i <= packages@.len(),
                start == packages_view(packages@),
                packages_view(kept@) == distill_base(start.take(i as int), names_view(base@)),
            decreases packages@.len() - i,
        {
            assert(start.take(i + 1).drop_last() =~= start.take(i as int));
            assert(start.take(i + 1).last() == package_view(packages@[i as int]));
            let package: &PipPackage = &packages[i];
            let unqualified: bool = package.version.qualifier.as_str().is_empty();
            if unqualified && holds_name(base, package.get_name_string()) {
            } else {
                let copy: PipPackage = package.duplicate();
                let ghost before = packages_view(kept@);
                let ghost pv = package_view(copy);
                kept.push(copy);
                assert(packages_view(kept@) =~= before.push(pv));
            }
            i = i + 1;
        }
        assert(start.take(i as int) =~= start);
        *packages = kept;
    }
}

} // verus!
