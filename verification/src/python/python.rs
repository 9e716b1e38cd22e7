//! A Python installation: its version, its folder, its executable and its
//! pip. Whether the folder exists, and what pip answers, is found out by the
//! caller.
use vstd::prelude::*;

use crate::general::path::{joined_path, open_base, path_separator, plain_component, WPath};
use crate::general::terminal::{ANSICode, RedANSI, Terminal, painted};
use crate::general::version::{two_part_text, version_text, SemanticVersion};
use crate::languages::python::ftp::{version_parts, VersionParts};
use crate::python::pip::Pip;
use crate::text::{decimal, push_char, push_str, push_usize};

verus! {

/// The folder of an installation: `Python<major><minor>\`.
pub open spec fn python_folder(major: usize, minor: usize) -> Seq<char> {
    "Python"@ + decimal(major as nat) + decimal(minor as nat) + seq!['\\']
}

/// A Python installation.
pub struct PythonEnvironment {
    python_version: SemanticVersion,
    python_path: WPath,
    python_executable: WPath,
    pip: Pip,
}

impl PythonEnvironment {
    /// The version of the installation.
    pub closed spec fn version_view(&self) -> VersionParts {
        version_parts(self.python_version)
    }

    /// The folder of the installation.
    pub closed spec fn path_view(&self) -> Seq<char> {
        self.python_path.text()
    }

    /// The executable of the installation.
    pub closed spec fn executable_view(&self) -> Seq<char> {
        self.python_executable.text()
    }

    /// The version of its pip.
    pub closed spec fn pip_view(&self) -> VersionParts {
        self.pip.version_view()
    }

    /// The folder where `version` is installed below `base_path`; the caller
    /// checks that it exists.
    pub fn get_python_path(base_path: &WPath, version: &SemanticVersion) -> (r: WPath)
        ensures
            r.text() == joined_path(base_path.text(), python_folder(version.major, version.minor)),
            !r.canonical(),
    {
        let mut folder_name: String = String::from_str("Python");
        push_usize(&mut folder_name, version.major);
        push_usize(&mut folder_name, version.minor);
        push_char(&mut folder_name, '\\');
        assert(folder_name@ =~= python_folder(version.major, version.minor));
        base_path.join(folder_name.as_str())
    }

    /// The executable in an installation folder: `python.exe` in it.
    pub fn get_python_executable_path(python_path: &WPath) -> (r: WPath)
        ensures
            r.text() == joined_path(python_path.text(), "python.exe"@),
            r.text() == python_path.text() + seq!['/'] + "python.exe"@ || r.text()
                == python_path.text() + seq!['\\'] + "python.exe"@ || !open_base(python_path.text()),
            !r.canonical(),
    {
        let r: WPath = python_path.join("python.exe");
        proof {
            reveal_strlit("python.exe");
            assert("python.exe"@.len() == 10);
            assert("python.exe"@ != seq!['.']);
            assert("python.exe"@ != seq!['.', '.']);
            assert(plain_component("python.exe"@));
            if open_base(python_path.text()) {
                let sep = choose|sep: char|
                    path_separator(sep) && r.text() == python_path.text() + seq![sep] + "python.exe"@;
                assert(sep == '/' || sep == '\\');
            }
        }
        r
    }

    /// The installation of `version` in `python_path`, `None` when that
    /// folder does not exist, with the pip that its executable answered
    /// for, `None` when pip did not answer. A missing folder is written in
    /// red.
    pub fn new(
        python_path: Option<WPath>,
        version: &SemanticVersion,
        pip: Option<Pip>,
        terminal: &mut Terminal,
    ) -> (r: Option<Self>)
        ensures
            final(terminal).code() == old(terminal).code(),
            match python_path {
                Some(p) => {
                    &&& final(terminal).output() == old(terminal).output()
                    &&& match pip {
                        Some(q) => r matches Some(e) && e.version_view() == version_parts(*version)
                            && e.path_view() == p.text() && e.executable_view() == joined_path(
                            p.text(),
                            "python.exe"@,
                        ) && e.pip_view() == q.version_view(),
                        None => r is None,
                    }
                },
                None => r is None && final(terminal).output() == old(terminal).output() + painted(
                    RedANSI.spec_value(),
                    "Unable to retrieve Python "@ + two_part_text(version.major, version.minor)
                        + "."@,
                ) + seq!['\n'],
            },
    {
        match python_path {
            Some(python_path) => {
                let python_executable: WPath = Self::get_python_executable_path(&python_path);
                match pip {
                    Some(pip) => {
                        let python_version: SemanticVersion = version.duplicate();
                        Some(PythonEnvironment { python_version, python_path, python_executable, pip })
                    },
                    None => None,
                }
            },
            None => {
                let version_string: String = version.get_2p_string();
                let mut string: String = String::from_str("Unable to retrieve Python ");
                push_str(&mut string, version_string.as_str());
                push_str(&mut string, ".");
                terminal.writeln_ansi(string.as_str(), &RedANSI);
                None
            },
        }
    }

    /// The installation at a given folder and executable, with the pip that
    /// the executable answered for; `None` when pip did not answer.
    pub fn from_custom_path(
        python_path: &WPath,
        python_executable: &WPath,
        version: &SemanticVersion,
        pip: Option<Pip>,
    ) -> (r: Option<PythonEnvironment>)
        ensures
            match pip {
                Some(q) => r matches Some(e) && e.version_view() == version_parts(*version)
                    && e.path_view() == python_path.text() && e.executable_view()
                    == python_executable.text() && e.pip_view() == q.version_view(),
                None => r is None,
            },
    {
        match pip {
            Some(pip) => Some(
                PythonEnvironment {
                    python_version: version.duplicate(),
                    python_path: python_path.duplicate(),
                    python_executable: python_executable.duplicate(),
                    pip,
                },
            ),
            None => None,
        }
    }

    /// The executable.
    pub fn get_python_executable(&self) -> (r: &WPath)
        ensures
            r.text() == self.executable_view(),
    {
        &self.python_executable
    }

    /// The version.
    pub fn get_python_version(&self) -> (r: &SemanticVersion)
        ensures
            version_parts(*r) == self.version_view(),
    {
        &self.python_version
    }

    /// The pip.
    pub fn get_pip(&self) -> (r: &Pip)
        ensures
            r.version_view() == self.pip_view(),
    {
        &self.pip
    }

    /// A copy of the installation.
    pub fn duplicate(&self) -> (r: Self)
        ensures
            r.version_view() == self.version_view(),
            r.path_view() == self.path_view(),
            r.executable_view() == self.executable_view(),
            r.pip_view() == self.pip_view(),
    {
        PythonEnvironment {
            python_version: self.python_version.duplicate(),
            python_path: self.python_path.duplicate(),
            python_executable: self.python_executable.duplicate(),
            pip: self.pip.duplicate(),
        }
    }
}

} // verus!
