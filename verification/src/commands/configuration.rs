//! The options of the command line, as the commands read them.
use vstd::prelude::*;

use crate::general::version::SemanticVersion;
use crate::text::{parse_usize, parse_usize_spec, str_eq};

verus! {

/// The command line.
#[derive(Debug)]
pub struct Cli {
    pub command: Commands,
}

/// The commands.
#[derive(Debug)]
pub enum Commands {
    /// Python tools.
    Python(PythonCommand),
    /// Rust tools.
    Rust(RustCommand),
    /// The file search.
    Search(SearchOption),
}

/// The Python tools.
#[derive(Debug)]
pub struct PythonCommand {
    pub subcommands: PythonSubCommands,
}

/// The Python tools.
#[derive(Debug)]
pub enum PythonSubCommands {
    /// Creates a virtual environment (`venv`).
    VirtualEnv(VirtualEnvOption),
    /// Fixes virtual environments (`fix-venv`).
    FixVirtualEnvironments(FixVirtualEnvOption),
    /// Runs a command in virtual environments (`execute`).
    VirtualEnvExecute(VirtualEnvExecuteOption),
    /// Lists the packages of virtual environments (`packages`).
    EnvPackages(PackagesOption),
    /// Downloads a Python release (`download`).
    PythonDownload(PythonDownloadOption),
}

/// The options of `download`.
#[derive(Debug)]
pub struct PythonDownloadOption {
    /// The Python version.
    pub version: SemanticVersion,
    /// Look for the most recent patch.
    pub recent_patch: bool,
    /// List the files of the version instead of downloading.
    pub list_structure: bool,
    /// The architecture: `amd64`, `arm64` or `n/a`.
    pub architecture: String,
    /// The platform: `windows`, `macos` or `any`.
    pub platform: String,
    /// The package type: `standard`, `webinstall`, `embed` or `source`.
    pub package_type: String,
}

/// The options of `venv`.
#[derive(Debug)]
pub struct VirtualEnvOption {
    /// The Python version.
    pub version: SemanticVersion,
}

/// The options of `fix-venv`.
#[derive(Debug)]
pub struct FixVirtualEnvOption {
    /// Search below every directory, not only down to the first match.
    pub deep_search: bool,
}

/// The options of `execute`.
#[derive(Debug)]
pub struct VirtualEnvExecuteOption {
    /// Search below every directory, not only down to the first match.
    pub deep_search: bool,
    /// The command to run in each environment.
    pub command: String,
}

/// The options of `packages`.
#[derive(Debug)]
pub struct PackagesOption {
    /// Search below every directory, not only down to the first match.
    pub deep_search: bool,
    /// Save the package list of each environment.
    pub save: bool,
    /// Keep only packages that no other package depends on.
    pub distill: bool,
}

/// The Rust tools.
#[derive(Debug)]
pub struct RustCommand {
    pub subcommands: RustSubCommands,
}

/// The Rust tools.
#[derive(Debug)]
pub enum RustSubCommands {
    /// Generates VS Code tasks (`vscode-tasks`).
    RustVSCodeTasks(RustVSCodeTasksOption),
}

/// The options of `vscode-tasks`.
#[derive(Debug)]
pub struct RustVSCodeTasksOption {
    /// Generate the run task.
    pub run_task: bool,
}

/// The options of the file search.
#[derive(Debug)]
pub struct SearchOption {
    /// The file name, matched by its start unless as a regular expression.
    pub filename: Option<String>,
    /// The extensions to look for.
    pub extensions: Vec<String>,
    /// The directories to leave out.
    pub excluded_dirs: Vec<String>,
    /// The order of the results.
    pub sort: Option<SearchSort>,
    /// The most results to show.
    pub limit: Option<usize>,
    /// Match the file name as a regular expression.
    pub regex: bool,
    /// The number of threads.
    pub threads: usize,
}

/// The order of search results.
#[derive(Debug, Clone, Copy, PartialEq, Eq, Structural)]
pub enum SearchSort {
    SizeAsc,
    SizeDesc,
    CreatedAsc,
    CreatedDesc,
    ModifiedAsc,
    ModifiedDesc,
}

/// The order that a sort option names.
pub open spec fn search_sort_spec(s: Seq<char>) -> Option<SearchSort> {
    if s == "size_asc"@ {
        Some(SearchSort::SizeAsc)
    } else if s == "size_desc"@ {
        Some(SearchSort::SizeDesc)
    } else if s == "created_asc"@ {
        Some(SearchSort::CreatedAsc)
    } else if s == "created_desc"@ {
        Some(SearchSort::CreatedDesc)
    } else if s == "modified_asc"@ {
        Some(SearchSort::ModifiedAsc)
    } else if s == "modified_desc"@ {
        Some(SearchSort::ModifiedDesc)
    } else {
        None
    }
}

/// The name of an order as it is printed.
pub open spec fn search_sort_name(s: SearchSort) -> Seq<char> {
    match s {
        SearchSort::SizeAsc => "SizeAsc"@,
        SearchSort::SizeDesc => "SizeDesc"@,
        SearchSort::CreatedAsc => "CreatedAsc"@,
        SearchSort::CreatedDesc => "CreatedDesc"@,
        SearchSort::ModifiedAsc => "ModifiedAsc"@,
        SearchSort::ModifiedDesc => "ModifiedDesc"@,
    }
}

impl SearchSort {
    /// The order named by a sort option such as `size_asc`; the error
    /// `Invalid Sorting Option` for any other text.
    pub fn from_str(s: &str) -> (r: Result<Self, String>)
        ensures
            match search_sort_spec(s@) {
                Some(o) => r == Ok::<SearchSort, String>(o),
                None => r matches Err(e) && e@ == "Invalid Sorting Option"@,
            },
    {
        if str_eq(s, "size_asc") {
            Ok(SearchSort::SizeAsc)
        } else if str_eq(s, "size_desc") {
            Ok(SearchSort::SizeDesc)
        } else if str_eq(s, "created_asc") {
            Ok(SearchSort::CreatedAsc)
        } else if str_eq(s, "created_desc") {
            Ok(SearchSort::CreatedDesc)
        } else if str_eq(s, "modified_asc") {
            Ok(SearchSort::ModifiedAsc)
        } else if str_eq(s, "modified_desc") {
            Ok(SearchSort::ModifiedDesc)
        } else {
            Err(String::from_str("Invalid Sorting Option"))
        }
    }

    /// The name of the order as it is printed, such as `SizeAsc`.
    pub fn name(&self) -> (r: &str)
        ensures
            r@ == search_sort_name(*self),
    {
        match self {
            SearchSort::SizeAsc => "SizeAsc",
            SearchSort::SizeDesc => "SizeDesc",
            SearchSort::CreatedAsc => "CreatedAsc",
            SearchSort::CreatedDesc => "CreatedDesc",
            SearchSort::ModifiedAsc => "ModifiedAsc",
            SearchSort::ModifiedDesc => "ModifiedDesc",
        }
    }
}

impl std::str::FromStr for SearchSort {
    type Err = String;

    fn from_str(s: &str) -> Result<Self, Self::Err> {
        SearchSort::from_str(s)
    }
}

/// What the limit option accepts: a number above 0.
pub open spec fn search_limit_spec(value: Seq<char>) -> Result<usize, Seq<char>> {
    match parse_usize_spec(value) {
        Some(n) => if n == 0 {
            Err("value must be greater than 0"@)
        } else {
            Ok(n)
        },
        None => Err("invalid digit found in string"@),
    }
}

/// Reads the limit option: a number above 0.
pub fn parse_search_option_limit(value: &str) -> (r: Result<usize, &'static str>)
    ensures
        match search_limit_spec(value@) {
            Ok(n) => r == Ok::<usize, &str>(n),
            Err(m) => r matches Err(e) && e@ == m,
        },
{
    match parse_usize(value) {
        Ok(0) => Err("value must be greater than 0"),
        Ok(val) => Ok(val),
        Err(_) => Err("invalid digit found in string"),
    }
}

} // verus!
