//! Virtual environments: their configuration file `pyvenv.cfg`, the commands
//! that create them, and the search for them. Running the commands and
//! searching the file system is done by the caller.
use vstd::prelude::*;

use crate::general::path::{joined_path, WPath};
use crate::general::version::{semantic_version_spec, two_part_text, SemanticVersion};
use crate::languages::python::ftp::{opt_version, version_parts, VersionParts};
use crate::parsers::cfg_parser::{cfg_views, CFGLine};
use crate::python::pip::PipShow;
use crate::search::file_search::FileSearch;
use crate::python::python::PythonEnvironment;
use crate::terminal::ansi_sequences::{ANSICode, CyanANSI, GreenANSI, RedANSI};
use crate::terminal::terminal::{painted, Terminal};
use crate::text::{decimal, push_str, push_usize, str_eq, views};

verus! {

/// What a boolean setting reads as.
pub open spec fn boolean_spec(s: Seq<char>) -> Option<bool> {
    if s == "true"@ {
        Some(true)
    } else if s == "false"@ {
        Some(false)
    } else {
        None
    }
}

/// What `VirtualEnvCFG::new` holds while it reads the lines: home,
/// implementation, version, virtualenv version, whether system packages are
/// included, base prefix, base exec prefix, base executable, and whether a
/// line was rejected.
pub type CfgState = (
    Option<Seq<char>>,
    Option<Seq<char>>,
    Option<VersionParts>,
    Option<VersionParts>,
    Option<bool>,
    Option<Seq<char>>,
    Option<Seq<char>>,
    Option<Seq<char>>,
    bool,
);

/// One line of `pyvenv.cfg`: a known key sets its value; an unknown key, or
/// a version or boolean that does not read, rejects the file.
pub open spec fn cfg_step(st: CfgState, line: (Seq<char>, Seq<char>)) -> CfgState {
    let (name, setting) = line;
    if st.8 {
        st
    } else if name == "home"@ {
        (Some(setting), st.1, st.2, st.3, st.4, st.5, st.6, st.7, false)
    } else if name == "implementation"@ {
        (st.0, Some(setting), st.2, st.3, st.4, st.5, st.6, st.7, false)
    } else if name == "version_info"@ {
        match semantic_version_spec(setting) {
            Some(v) => (st.0, st.1, Some(v), st.3, st.4, st.5, st.6, st.7, false),
            None => (st.0, st.1, st.2, st.3, st.4, st.5, st.6, st.7, true),
        }
    } else if name == "virtualenv"@ {
        match semantic_version_spec(setting) {
            Some(v) => (st.0, st.1, st.2, Some(v), st.4, st.5, st.6, st.7, false),
            None => (st.0, st.1, st.2, st.3, st.4, st.5, st.6, st.7, true),
        }
    } else if name == "include-system-site-packages"@ {
        match boolean_spec(setting) {
            Some(b) => (st.0, st.1, st.2, st.3, Some(b), st.5, st.6, st.7, false),
            None => (st.0, st.1, st.2, st.3, st.4, st.5, st.6, st.7, true),
        }
    } else if name == "base-prefix"@ {
        (st.0, st.1, st.2, st.3, st.4, Some(setting), st.6, st.7, false)
    } else if name == "base-exec-prefix"@ {
        (st.0, st.1, st.2, st.3, st.4, st.5, Some(setting), st.7, false)
    } else if name == "base-executable"@ {
        (st.0, st.1, st.2, st.3, st.4, st.5, st.6, Some(setting), false)
    } else {
        (st.0, st.1, st.2, st.3, st.4, st.5, st.6, st.7, true)
    }
}

/// The state after the first `n` lines.
pub open spec fn cfg_fold(lines: Seq<(Seq<char>, Seq<char>)>, n: int) -> CfgState
    decreases n,
{
    if n <= 0 {
        (None, None, None, None, None, None, None, None, false)
    } else {
        cfg_step(cfg_fold(lines, n - 1), lines[n - 1])
    }
}

/// A rejected configuration stays rejected.
proof fn lemma_cfg_rejection_sticks(lines: Seq<(Seq<char>, Seq<char>)>, m: int, n: int)
    requires
        0 <= m <= n <= lines.len(),
        cfg_fold(lines, m).8,
    ensures
        cfg_fold(lines, n).8,
    decreases n - m,
{
    if n > m {
        lemma_cfg_rejection_sticks(lines, m, n - 1);
    }
}

/// Law: in a configuration whose lines are all accepted, the Python version
/// (`version_info`) is the version read from the setting of the last line
/// named `version_info`, and the virtualenv version is the version read from
/// the last line named `virtualenv`: each field is set only by the line of
/// its own key.
pub proof fn law_cfg_versions_follow_their_keys(lines: Seq<(Seq<char>, Seq<char>)>, n: int, j: int)
    requires
        0 <= j < n <= lines.len(),
        !cfg_fold(lines, n).8,
    ensures
        lines[j].0 == "version_info"@ && (forall|k: int| j < k < n ==> (#[trigger] lines[k]).0 != "version_info"@)
            ==> cfg_fold(lines, n).2 == semantic_version_spec(lines[j].1),
        lines[j].0 == "virtualenv"@ && (forall|k: int| j < k < n ==> (#[trigger] lines[k]).0 != "virtualenv"@)
            ==> cfg_fold(lines, n).3 == semantic_version_spec(lines[j].1),
    decreases n,
{
    if cfg_fold(lines, n - 1).8 {
        lemma_cfg_rejection_sticks(lines, n - 1, n);
    }
    let prev = cfg_fold(lines, n - 1);
    let line = lines[n - 1];
    assert(cfg_fold(lines, n) == cfg_step(prev, line));
    reveal_strlit("home");
    reveal_strlit("implementation");
    reveal_strlit("version_info");
    reveal_strlit("virtualenv");
    reveal_strlit("include-system-site-packages");
    assert("home"@.len() == 4);
    assert("implementation"@.len() == 14);
    assert("version_info"@.len() == 12);
    assert("virtualenv"@.len() == 10);
    assert(!cfg_fold(lines, n).8);
    if n - 1 == j {
        assert(!prev.8);
        if line.0 == "version_info"@ {
            assert(line.0 != "home"@);
            assert(line.0 != "implementation"@);
            assert(cfg_fold(lines, n).2 == semantic_version_spec(line.1));
        }
        if line.0 == "virtualenv"@ {
            assert(line.0 != "home"@);
            assert(line.0 != "implementation"@);
            assert(line.0 != "version_info"@);
            assert(cfg_fold(lines, n).3 == semantic_version_spec(line.1));
        }
    }
    if n - 1 > j {
        law_cfg_versions_follow_their_keys(lines, n - 1, j);
        if lines[j].0 == "version_info"@ && (forall|k: int| j < k < n ==> (#[trigger] lines[k]).0 != "version_info"@) {
            assert(line.0 != "version_info"@);
            assert(forall|k: int| j < k < n - 1 ==> (#[trigger] lines[k]).0 != "version_info"@);
            assert(cfg_fold(lines, n).2 == prev.2);
        }
        if lines[j].0 == "virtualenv"@ && (forall|k: int| j < k < n ==> (#[trigger] lines[k]).0 != "virtualenv"@) {
            assert(line.0 != "virtualenv"@);
            assert(forall|k: int| j < k < n - 1 ==> (#[trigger] lines[k]).0 != "virtualenv"@);
            assert(cfg_fold(lines, n).3 == prev.3);
        }
    }
}

/// Law: in a configuration whose lines are all accepted, a version field
/// whose key names no line stays unset.
pub proof fn law_cfg_versions_unset_without_their_keys(lines: Seq<(Seq<char>, Seq<char>)>, n: int)
    requires
        0 <= n <= lines.len(),
        !cfg_fold(lines, n).8,
    ensures
        (forall|k: int| 0 <= k < n ==> (#[trigger] lines[k]).0 != "version_info"@) ==> cfg_fold(lines, n).2
            is None,
        (forall|k: int| 0 <= k < n ==> (#[trigger] lines[k]).0 != "virtualenv"@) ==> cfg_fold(lines, n).3
            is None,
    decreases n,
{
    if n > 0 {
        if cfg_fold(lines, n - 1).8 {
            lemma_cfg_rejection_sticks(lines, n - 1, n);
        }
        law_cfg_versions_unset_without_their_keys(lines, n - 1);
    }
}

/// True when every key was set.
pub open spec fn cfg_complete(st: CfgState) -> bool {
    st.0 is Some && st.1 is Some && st.2 is Some && st.3 is Some && st.4 is Some && st.5 is Some
        && st.6 is Some && st.7 is Some
}

/// The configurations that `VirtualEnvCFG::new` reads without panicking:
/// those it rejects, and those that set every key.
pub open spec fn cfg_ok(lines: Seq<(Seq<char>, Seq<char>)>) -> bool {
    let st = cfg_fold(lines, lines.len() as int);
    st.8 || cfg_complete(st)
}

/// The configuration of a virtual environment, read from its `pyvenv.cfg`.
#[derive(Debug)]
pub struct VirtualEnvCFG {
    pub home: WPath,
    pub implementation: String,
    pub version_info: SemanticVersion,
    pub virtualenv: SemanticVersion,
    pub include_system_site_packages: bool,
    pub base_prefix: WPath,
    pub base_exec_prefix: WPath,
    pub base_executable: WPath,
    pub cfg_file: WPath,
}

/// The parts of a configuration as `cfg_fold` holds them.
pub open spec fn cfg_view(c: VirtualEnvCFG) -> CfgState {
    (
        Some(c.home.text()),
        Some(c.implementation@),
        Some(version_parts(c.version_info)),
        Some(version_parts(c.virtualenv)),
        Some(c.include_system_site_packages),
        Some(c.base_prefix.text()),
        Some(c.base_exec_prefix.text()),
        Some(c.base_executable.text()),
        false,
    )
}

impl VirtualEnvCFG {
    /// The configuration read from the lines of `cfg_file`; `None` when a
    /// line has an unknown key or a value that does not read.
    pub fn new(cfg_file: WPath, parsed_cfg: &Vec<CFGLine>) -> (r: Option<Self>)
        requires
            cfg_ok(cfg_views(parsed_cfg@)),
        ensures
            cfg_fold(cfg_views(parsed_cfg@), parsed_cfg@.len() as int).8 ==> r is None,
            !cfg_fold(cfg_views(parsed_cfg@), parsed_cfg@.len() as int).8 ==> (r matches Some(c)
                && cfg_view(c) == cfg_fold(cfg_views(parsed_cfg@), parsed_cfg@.len() as int)
                && c.cfg_file.text() == cfg_file.text() && c.cfg_file.canonical()
                == cfg_file.canonical() && !c.home.canonical() && !c.base_prefix.canonical()
                && !c.base_exec_prefix.canonical() && !c.base_executable.canonical()),
    {
        let mut home: Option<WPath> = None;
        let mut implementation: Option<String> = None;
        let mut version_info: Option<SemanticVersion> = None;
        let mut virtualenv: Option<SemanticVersion> = None;
        let mut include_system_site_packages: Option<bool> = None;
        let mut base_prefix: Option<WPath> = None;
        let mut base_exec_prefix: Option<WPath> = None;
        let mut base_executable: Option<WPath> = None;
        let ghost lines = cfg_views(parsed_cfg@);
        let mut i: usize = 0;
        while i < parsed_cfg.len()
            invariant
                i <= parsed_cfg@.len(),
                lines == cfg_views(parsed_cfg@),
                !cfg_fold(lines, i as int).8,
                cfg_fold(lines, i as int) == (
                    opt_path(home),
                    opt_view(implementation),
                    opt_version(version_info),
                    opt_version(virtualenv),
                    include_system_site_packages,
                    opt_path(base_prefix),
                    opt_path(base_exec_prefix),
                    opt_path(base_executable),
                    false,
                ),
                paths_plain(home),
                paths_plain(base_prefix),
                paths_plain(base_exec_prefix),
                paths_plain(base_executable),
            decreases parsed_cfg@.len() - i,
        {
            assert(lines[i as int] == parsed_cfg@[i as int]@);
            let cfg_name: &str = parsed_cfg[i].get_name();
            let cfg_setting: &str = parsed_cfg[i].get_setting();
            let cfg_path: WPath = WPath::from_string(cfg_setting);
            let cfg_version: Option<SemanticVersion> = SemanticVersion::from_string(cfg_setting);
            let cfg_boolean: Option<bool> = Self::parse_boolean_string(cfg_setting);
            if str_eq(cfg_name, "home") {
                home = Some(cfg_path);
            } else if str_eq(cfg_name, "implementation") {
                implementation = Some(String::from_str(cfg_setting));
            } else if str_eq(cfg_name, "version_info") {
                match cfg_version {
                    Some(v) => version_info = Some(v),
                    None => {
                        proof {
                            lemma_cfg_rejected(lines, i + 1, lines.len() as int);
                        }
                        return None;
                    },
                }
            } else if str_eq(cfg_name, "virtualenv") {
                match cfg_version {
                    Some(v) => virtualenv = Some(v),
                    None => {
                        proof {
                            lemma_cfg_rejected(lines, i + 1, lines.len() as int);
                        }
                        return None;
                    },
                }
            } else if str_eq(cfg_name, "include-system-site-packages") {
                match cfg_boolean {
                    Some(b) => include_system_site_packages = Some(b),
                    None => {
                        proof {
                            lemma_cfg_rejected(lines, i + 1, lines.len() as int);
                        }
                        return None;
                    },
                }
            } else if str_eq(cfg_name, "base-prefix") {
                base_prefix = Some(cfg_path);
            } else if str_eq(cfg_name, "base-exec-prefix") {
                base_exec_prefix = Some(cfg_path);
            } else if str_eq(cfg_name, "base-executable") {
                base_executable = Some(cfg_path);
            } else {
                proof {
                    lemma_cfg_rejected(lines, i + 1, lines.len() as int);
                }
                return None;
            }
            i = i + 1;
        }
        let venv_cfg: VirtualEnvCFG = VirtualEnvCFG {
            home: home.unwrap(),
            implementation: implementation.unwrap(),
            version_info: version_info.unwrap(),
            virtualenv: virtualenv.unwrap(),
            include_system_site_packages: include_system_site_packages.unwrap(),
            base_prefix: base_prefix.unwrap(),
            base_exec_prefix: base_exec_prefix.unwrap(),
            base_executable: base_executable.unwrap(),
            cfg_file,
        };
        Some(venv_cfg)
    }

    /// True when `new` reads the lines without panicking: a line is
    /// rejected, or every key is set.
    pub fn readable(parsed_cfg: &Vec<CFGLine>) -> (r: bool)
        ensures
            r == cfg_ok(cfg_views(parsed_cfg@)),
    {
        let ghost lines = cfg_views(parsed_cfg@);
        let mut set: [bool; 8] = [false; 8];
        let mut i: usize = 0;
        while i < parsed_cfg.len()
            invariant
                i <= parsed_cfg@.len(),
                lines == cfg_views(parsed_cfg@),
                !cfg_fold(lines, i as int).8,
                set@[0] == cfg_fold(lines, i as int).0 is Some,
                set@[1] == cfg_fold(lines, i as int).1 is Some,
                set@[2] == cfg_fold(lines, i as int).2 is Some,
                set@[3] == cfg_fold(lines, i as int).3 is Some,
                set@[4] == cfg_fold(lines, i as int).4 is Some,
                set@[5] == cfg_fold(lines, i as int).5 is Some,
                set@[6] == cfg_fold(lines, i as int).6 is Some,
                set@[7] == cfg_fold(lines, i as int).7 is Some,
            decreases parsed_cfg@.len() - i,
        {
            assert(lines[i as int] == parsed_cfg@[i as int]@);
            let cfg_name: &str = parsed_cfg[i].get_name();
            let cfg_setting: &str = parsed_cfg[i].get_setting();
            let key: usize = if str_eq(cfg_name, "home") {
                0
            } else if str_eq(cfg_name, "implementation") {
                1
            } else if str_eq(cfg_name, "version_info") {
                2
            } else if str_eq(cfg_name, "virtualenv") {
                3
            } else if str_eq(cfg_name, "include-system-site-packages") {
                4
            } else if str_eq(cfg_name, "base-prefix") {
                5
            } else if str_eq(cfg_name, "base-exec-prefix") {
                6
            } else if str_eq(cfg_name, "base-executable") {
                7
            } else {
                8
            };
            let accepted: bool = if key == 2 || key == 3 {
                SemanticVersion::from_string(cfg_setting).is_some()
            } else if key == 4 {
                Self::parse_boolean_string(cfg_setting).is_some()
            } else {
                key < 8
            };
            if !accepted {
                proof {
                    lemma_cfg_rejected(lines, i + 1, lines.len() as int);
                }
                return true;
            }
            set.set(key, true);
            i = i + 1;
        }
        set[0] && set[1] && set[2] && set[3] && set[4] && set[5] && set[6] && set[7]
    }

    /// The directory of the environment: the directory of its configuration
    /// file. `is_file` and `parent` are what the file system says of that
    /// file.
    pub fn get_environment_directory(&self, is_file: bool, parent: Option<String>) -> (r: WPath)
        ensures
            r.canonical() == self.cfg_file.canonical(),
            r.text() == match (is_file, parent) {
                (true, Some(p)) => p@,
                _ => self.cfg_file.text(),
            },
    {
        self.cfg_file.as_directory(is_file, parent)
    }

    /// The Python executable of the environment: `Scripts/python.exe` in its
    /// directory.
    pub fn get_python_executable(&self, is_file: bool, parent: Option<String>) -> (r: WPath)
        ensures
            r.text() == joined_path(
                match (is_file, parent) {
                    (true, Some(p)) => p@,
                    _ => self.cfg_file.text(),
                },
                "Scripts/python.exe"@,
            ),
            !r.canonical(),
    {
        let directory: WPath = self.get_environment_directory(is_file, parent);
        directory.join("Scripts/python.exe")
    }

    /// Reads `true` or `false`.
    pub fn parse_boolean_string(boolean: &str) -> (r: Option<bool>)
        ensures
            r == boolean_spec(boolean@),
    {
        if str_eq(boolean, "true") {
            Some(true)
        } else if str_eq(boolean, "false") {
            Some(false)
        } else {
            None
        }
    }
}

/// The text of an optional path.
pub open spec fn opt_path(o: Option<WPath>) -> Option<Seq<char>> {
    match o {
        Some(p) => Some(p.text()),
        None => None,
    }
}

/// The view of an optional string.
pub open spec fn opt_view(o: Option<String>) -> Option<Seq<char>> {
    match o {
        Some(s) => Some(s@),
        None => None,
    }
}

/// True when an optional path was not made canonical.
pub open spec fn paths_plain(o: Option<WPath>) -> bool {
    o matches Some(p) ==> !p.canonical()
}

proof fn lemma_cfg_rejected(lines: Seq<(Seq<char>, Seq<char>)>, i: int, n: int)
    requires
        0 <= i <= n,
        cfg_fold(lines, i).8,
    ensures
        cfg_fold(lines, n).8,
    decreases n - i,
{
    if n > i {
        lemma_cfg_rejected(lines, i, n - 1);
    }
}


/// The name of the environment created for a version: `pyenv<major><minor>`.
pub open spec fn environment_name(major: usize, minor: usize) -> Seq<char> {
    "pyenv"@ + decimal(major as nat) + decimal(minor as nat)
}

/// Where making a virtual environment stands.
#[derive(Clone, Copy, PartialEq, Eq, Structural, Debug)]
pub enum VenvPhase {
    /// Waiting for what `pip show virtualenv` said.
    Finding,
    /// Waiting for the outcome of installing virtualenv.
    Installing,
    /// Waiting for virtualenv to have run.
    Creating,
    /// Done.
    Finished,
}

/// What the caller does next.
#[derive(Clone, Copy, PartialEq, Eq, Structural, Debug)]
pub enum VenvAction {
    /// Run `pip show virtualenv` (`Pip::get_find_package_args`) and read its
    /// answer with `Pip::find_package`.
    FindPackage,
    /// Install virtualenv (`Pip::get_install_package_args`) and take the
    /// outcome from `Pip::install_package`.
    InstallPackage,
    /// Run virtualenv with the arguments of the environment.
    CreateEnvironment,
    /// Nothing more to do.
    Done,
}

/// What the caller found.
pub enum VenvEvent {
    /// What `pip show virtualenv` said of the package.
    PackageShown(Option<PipShow>),
    /// Whether installing virtualenv succeeded.
    PackageInstalled(bool),
    /// virtualenv has run.
    EnvironmentCreated,
}

/// The line written before virtualenv is installed.
pub open spec fn installing_text() -> Seq<char> {
    painted(CyanANSI.spec_value(), "[Installing Virtual Environment Package]\n"@) + seq!['\n']
}

/// The line written before the environment is created.
pub open spec fn creating_text(v: VersionParts) -> Seq<char> {
    painted(
        CyanANSI.spec_value(),
        "[Creating Python "@ + two_part_text(v.0, v.1) + " Environment]\n"@,
    ) + seq!['\n']
}

/// True when `pip show` named the virtualenv package.
pub open spec fn shows_virtualenv(show: Option<PipShow>) -> bool {
    show matches Some(s) && s.fields()[0] == "virtualenv"@
}

/// One step of making a virtual environment of version `v`: the phase that
/// follows, what the caller does next, and what is written. virtualenv is
/// installed only when `pip show` does not name it; a failed install ends
/// the work; an event that does not belong to the phase ends it with
/// nothing written.
pub open spec fn venv_step(phase: VenvPhase, event: VenvEvent, v: VersionParts) -> (VenvPhase, VenvAction, Seq<char>) {
    match (phase, event) {
        (VenvPhase::Finding, VenvEvent::PackageShown(show)) => if shows_virtualenv(show) {
            (VenvPhase::Creating, VenvAction::CreateEnvironment, creating_text(v))
        } else {
            (VenvPhase::Installing, VenvAction::InstallPackage, installing_text())
        },
        (VenvPhase::Installing, VenvEvent::PackageInstalled(state)) => if state {
            (VenvPhase::Creating, VenvAction::CreateEnvironment, seq!['\n'] + creating_text(v))
        } else {
            (VenvPhase::Finished, VenvAction::Done, seq!['\n'])
        },
        _ => (VenvPhase::Finished, VenvAction::Done, Seq::empty()),
    }
}

/// A virtual environment to be made from an installation.
pub struct VirtualEnv {
    environment: PythonEnvironment,
    terminal: Terminal,
    phase: VenvPhase,
}

impl VirtualEnv {
    /// The version of the installation.
    pub closed spec fn version_view(&self) -> VersionParts {
        self.environment.version_view()
    }

    /// What has been written and not yet taken.
    pub closed spec fn output(&self) -> Seq<char> {
        self.terminal.output()
    }

    /// Where making the environment stands.
    pub closed spec fn venv_phase(&self) -> VenvPhase {
        self.phase
    }

    /// Starts making the environment: the caller first asks pip whether
    /// virtualenv is installed.
    pub fn start_venv_command(&mut self) -> (r: VenvAction)
        ensures
            r == VenvAction::FindPackage,
            final(self).venv_phase() == VenvPhase::Finding,
            final(self).output() == old(self).output(),
            final(self).version_view() == old(self).version_view(),
    {
        self.phase = VenvPhase::Finding;
        VenvAction::FindPackage
    }

    /// Takes what the caller found and says what it does next.
    pub fn next_venv(&mut self, event: VenvEvent) -> (r: VenvAction)
        ensures
            ({
                let (phase, action, written) = venv_step(old(self).venv_phase(), event, old(self).version_view());
                &&& r == action
                &&& final(self).venv_phase() == phase
                &&& final(self).output() == old(self).output() + written
            }),
            final(self).version_view() == old(self).version_view(),
    {
        let phase: VenvPhase = self.phase;
        let (next_phase, action) = match (phase, event) {
            (VenvPhase::Finding, VenvEvent::PackageShown(show)) => {
                if Self::venv_installed(show.as_ref()) {
                    self.print_creating_environment();
                    (VenvPhase::Creating, VenvAction::CreateEnvironment)
                } else {
                    self.print_installing_package();
                    (VenvPhase::Installing, VenvAction::InstallPackage)
                }
            },
            (VenvPhase::Installing, VenvEvent::PackageInstalled(state)) => {
                self.terminal.write_raw("\n");
                if state {
                    self.print_creating_environment();
                    (VenvPhase::Creating, VenvAction::CreateEnvironment)
                } else {
                    (VenvPhase::Finished, VenvAction::Done)
                }
            },
            _ => (VenvPhase::Finished, VenvAction::Done),
        };
        self.phase = next_phase;
        proof {
            reveal_strlit("\n");
        }
        action
    }

    /// The virtual environments of an installation.
    pub fn new(environment: &PythonEnvironment) -> (r: Self)
        ensures
            r.version_view() == environment.version_view(),
            r.output() == Seq::<char>::empty(),
    {
        VirtualEnv { environment: environment.duplicate(), terminal: Terminal::new(), phase: VenvPhase::Finished }
    }

    /// The arguments of the installation's executable that create an
    /// environment named after the version in the current directory.
    pub fn create_environment(&self) -> (r: Vec<String>)
        ensures
            views(r@) == seq![
                "-m"@,
                "virtualenv"@,
                environment_name(self.version_view().0, self.version_view().1),
            ],
    {
        let venv_name: String = self.get_environment_name();
        let mut args: Vec<String> = Vec::new();
        args.push(String::from_str("-m"));
        args.push(String::from_str("virtualenv"));
        args.push(venv_name);
        assert(views(args@) =~= seq![
            "-m"@,
            "virtualenv"@,
            environment_name(self.version_view().0, self.version_view().1),
        ]);
        args
    }

    /// The arguments that create an environment in the directory whose
    /// canonical path is `canonical_string`; `None` when it has none.
    pub fn create_environment_in_path(&self, canonical_string: Option<String>) -> (r: Option<Vec<String>>)
        ensures
            match canonical_string {
                Some(c) => r matches Some(a) && views(a@) == seq!["-m"@, "virtualenv"@, c@],
                None => r is None,
            },
    {
        match canonical_string {
            Some(canonical_string) => {
                let ghost c = canonical_string@;
                let mut args: Vec<String> = Vec::new();
                args.push(String::from_str("-m"));
                args.push(String::from_str("virtualenv"));
                args.push(canonical_string);
                assert(views(args@) =~= seq!["-m"@, "virtualenv"@, c]);
                Some(args)
            },
            None => None,
        }
    }

    /// Writes that a command is run in the environment; the caller runs it.
    pub fn execute_custom_command(&mut self)
        ensures
            final(self).version_view() == old(self).version_view(),
            final(self).output() == old(self).output() + painted(
                CyanANSI.spec_value(),
                "[Executing command]\n"@,
            ) + seq!['\n'],
    {
        self.print_executing_custom_command();
    }

    /// True when `pip show virtualenv` named the package.
    pub fn venv_installed(pip_show: Option<&PipShow>) -> (r: bool)
        ensures
            r == (pip_show matches Some(s) && s.fields()[0] == "virtualenv"@),
    {
        match pip_show {
            Some(pip_show) => match pip_show.get_name() {
                Some(name) => str_eq(name, "virtualenv"),
                None => {
                    proof {
                        reveal_strlit("virtualenv");
                    }
                    false
                },
            },
            None => false,
        }
    }

    /// The name of the environment: `pyenv<major><minor>`.
    pub fn get_environment_name(&self) -> (r: String)
        ensures
            r@ == environment_name(self.version_view().0, self.version_view().1),
    {
        let version: &SemanticVersion = self.environment.get_python_version();
        let (major, minor): (usize, usize) = version.get_2p_version();
        let mut name: String = String::from_str("pyenv");
        push_usize(&mut name, major);
        push_usize(&mut name, minor);
        name
    }

    /// Writes that the virtualenv package is installed.
    pub fn print_installing_package(&mut self)
        ensures
            final(self).version_view() == old(self).version_view(),
            final(self).output() == old(self).output() + painted(
                CyanANSI.spec_value(),
                "[Installing Virtual Environment Package]\n"@,
            ) + seq!['\n'],
    {
        let string: &str = "[Installing Virtual Environment Package]\n";
        self.terminal.writeln_ansi(string, &CyanANSI);
    }

    /// Writes that the environment is created.
    pub fn print_creating_environment(&mut self)
        ensures
            final(self).version_view() == old(self).version_view(),
            final(self).output() == old(self).output() + painted(
                CyanANSI.spec_value(),
                "[Creating Python "@ + two_part_text(old(self).version_view().0, old(self).version_view().1)
                    + " Environment]\n"@,
            ) + seq!['\n'],
    {
        let version: &SemanticVersion = self.environment.get_python_version();
        let version_string: String = version.get_2p_string();
        let mut string: String = String::from_str("[Creating Python ");
        push_str(&mut string, version_string.as_str());
        push_str(&mut string, " Environment]\n");
        self.terminal.writeln_ansi(string.as_str(), &CyanANSI);
    }

    /// Writes that a command is executed.
    pub fn print_executing_custom_command(&mut self)
        ensures
            final(self).version_view() == old(self).version_view(),
            final(self).output() == old(self).output() + painted(
                CyanANSI.spec_value(),
                "[Executing command]\n"@,
            ) + seq!['\n'],
    {
        let string: &str = "[Executing command]\n";
        self.terminal.writeln_ansi(string, &CyanANSI);
    }

    /// Takes what has been written, leaving the output empty.
    pub fn take_output(&mut self) -> (r: String)
        ensures
            r@ == old(self).output(),
            final(self).output() == Seq::<char>::empty(),
            final(self).version_view() == old(self).version_view(),
    {
        self.terminal.take_output()
    }
}

/// What `confirm_search` writes for the environments found: a red notice
/// when there is none; otherwise a green heading and a line for each
/// directory that could be made canonical.
pub open spec fn found_text(directories: Seq<Option<Seq<char>>>) -> Seq<char>
    decreases directories.len(),
{
    if directories.len() == 0 {
        Seq::empty()
    } else {
        found_text(directories.drop_last()) + match directories.last() {
            Some(d) => painted(CyanANSI.spec_value(), "Path: "@) + painted(
                crate::terminal::ansi_sequences::WhiteANSI.spec_value(),
                "["@ + d + "]"@,
            ) + seq!['\n'],
            None => Seq::empty(),
        }
    }
}

/// The search for virtual environments below the current directory.
pub struct VirtualEnvSearch {
    deep_search: bool,
}

impl VirtualEnvSearch {
    /// Whether the search goes below a directory where it found one.
    pub closed spec fn deep(&self) -> bool {
        self.deep_search
    }

    /// The search; `deep_search` makes it go below every directory.
    pub fn new(deep_search: bool) -> (r: Self)
        ensures
            r.deep() == deep_search,
    {
        VirtualEnvSearch { deep_search }
    }

    /// True when the search leaves a directory once it found a
    /// configuration there.
    pub fn quit_directory_on_match(&self) -> (r: bool)
        ensures
            r == !self.deep(),
    {
        !self.deep_search
    }

    /// The search for configuration files below `root`: files named
    /// `pyvenv.cfg` by their start, leaving a directory once one is found
    /// there unless the search is deep.
    pub fn config_file_search(&self, root: &str) -> (r: FileSearch)
        ensures
            r.root_view() == Some(root@),
            r.filename_view() == "pyvenv.cfg"@,
            r.regex_view() is None,
            r.extensions_view() == Seq::<Seq<char>>::empty(),
            r.excluded_view() == Seq::<Seq<char>>::empty(),
            r.quit_view() == !self.deep(),
    {
        let mut file_search: FileSearch = FileSearch::new();
        file_search.set_root(root);
        file_search.set_exclusive_filename("pyvenv.cfg");
        file_search.set_quit_directory_on_match(!self.deep_search);
        file_search
    }

    /// Writes the environments found, given the canonical path of each one's
    /// directory (`None` when it has none). False, after a red notice, when
    /// none was found; true otherwise, and the caller then asks whether to
    /// go on.
    pub fn confirm_search(&self, directories: &Vec<Option<String>>, terminal: &mut Terminal) -> (r: bool)
        ensures
            r == (directories@.len() > 0),
            final(terminal).code() == old(terminal).code(),
            directories@.len() == 0 ==> final(terminal).output() == old(terminal).output() + painted(
                RedANSI.spec_value(),
                "\nNo environments were found.\nTry creating one with: arranger python venv\n"@,
            ) + seq!['\n'],
            directories@.len() > 0 ==> final(terminal).output() == old(terminal).output() + painted(
                GreenANSI.spec_value(),
                "\nFound Environments:"@,
            ) + seq!['\n'] + found_text(
                directories@.map_values(|d: Option<String>| opt_view(d)),
            ),
    {
        if directories.len() == 0 {
            let string: &str =
                "\nNo environments were found.\nTry creating one with: arranger python venv\n";
            terminal.writeln_ansi(string, &RedANSI);
            return false;
        }
        terminal.writeln_ansi("\nFound Environments:", &GreenANSI);
        let ghost start = terminal.output();
        let ghost ds = directories@.map_values(|d: Option<String>| opt_view(d));
        let mut i: usize = 0;
        while i < directories.len()
            invariant
                i <= directories@.len(),
                ds == directories@.map_values(|d: Option<String>| opt_view(d)),
                terminal.code() == old(terminal).code(),
                terminal.output() == start + found_text(ds.take(i as int)),
            decreases directories@.len() - i,
        {
            assert(ds.take(i + 1).drop_last() =~= ds.take(i as int));
            assert(ds.take(i + 1).last() == opt_view(directories@[i as int]));
            if let Some(directory_string) = &directories[i] {
                let mut path_str: String = String::from_str("[");
                push_str(&mut path_str, directory_string.as_str());
                push_str(&mut path_str, "]");
                let parts: [&str; 2] = ["Path: ", path_str.as_str()];
                terminal.writeln_parameter(&parts, &CyanANSI);
            }
            i = i + 1;
        }
        assert(ds.take(i as int) =~= ds);
        true
    }
}

} // verus!
