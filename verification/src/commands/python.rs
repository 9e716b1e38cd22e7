//! The Python commands: their options and the text they write about them.
use vstd::prelude::*;

use crate::commands::configuration::{
    FixVirtualEnvOption, PackagesOption, PythonDownloadOption, VirtualEnvExecuteOption,
    VirtualEnvOption,
};
use crate::general::terminal::{ANSICode, GreenANSI, RedANSI, Terminal, WhiteANSI, YellowANSI, painted};
use crate::python::pip::PipPackage;
use crate::text::{bool_text, decimal, push_bool, push_str, split_whitespace, usize_to_string, views, words};

verus! {

/// What `writeln_parameter` writes: the name in yellow, the value in white, a
/// line break.
pub open spec fn parameter_line(name: Seq<char>, value: Seq<char>) -> Seq<char> {
    painted(YellowANSI.spec_value(), name) + painted(WhiteANSI.spec_value(), value) + seq!['\n']
}

/// The search parameters of a command that only searches: `Deep Search: [..]`.
pub open spec fn deep_search_text(deep_search: bool) -> Seq<char> {
    "Deep Search: ["@ + bool_text(deep_search) + "]"@
}

/// Writes `Search Parameters: ` and `parameters`, then an empty line.
fn write_search_parameters(terminal: &mut Terminal, parameters: &str)
    ensures
        final(terminal).code() == old(terminal).code(),
        final(terminal).output() == old(terminal).output() + parameter_line(
            "Search Parameters: "@,
            parameters@,
        ) + seq!['\n'],
{
    let parts: [&str; 2] = ["Search Parameters: ", parameters];
    terminal.writeln_parameter(&parts, &YellowANSI);
    terminal.write_raw("\n");
    proof {
        reveal_strlit("\n");
    }
}

/// The text `Deep Search: [..]`.
fn deep_search_string(deep_search: bool) -> (r: String)
    ensures
        r@ == deep_search_text(deep_search),
{
    let mut parameters: String = String::from_str("Deep Search: [");
    push_bool(&mut parameters, deep_search);
    push_str(&mut parameters, "]");
    parameters
}

/// The command that creates a virtual environment.
pub struct PythonCreateEnvCommand {
    option: VirtualEnvOption,
}

impl PythonCreateEnvCommand {
    /// The command with its options.
    pub fn new(option: VirtualEnvOption) -> (r: Self)
        ensures
            r.option() == option,
    {
        PythonCreateEnvCommand { option }
    }

    /// The options of the command.
    pub closed spec fn option(&self) -> VirtualEnvOption {
        self.option
    }
}

/// The command that fixes virtual environments.
pub struct PythonFixEnvCommand {
    option: FixVirtualEnvOption,
    terminal: Terminal,
}

impl PythonFixEnvCommand {
    /// The command with its options.
    pub fn new(option: FixVirtualEnvOption) -> (r: Self)
        ensures
            r.option() == option,
            r.output() == Seq::<char>::empty(),
    {
        let terminal: Terminal = Terminal::new();
        PythonFixEnvCommand { option, terminal }
    }

    /// The options of the command.
    pub closed spec fn option(&self) -> FixVirtualEnvOption {
        self.option
    }

    /// What has been written and not yet taken.
    pub closed spec fn output(&self) -> Seq<char> {
        self.terminal.output()
    }

    /// Writes the search parameters.
    pub fn print_search_parameters(&mut self)
        ensures
            final(self).option() == old(self).option(),
            final(self).output() == old(self).output() + parameter_line(
                "Search Parameters: "@,
                deep_search_text(old(self).option().deep_search),
            ) + seq!['\n'],
    {
        let parameters: String = deep_search_string(self.option.deep_search);
        write_search_parameters(&mut self.terminal, parameters.as_str());
    }

    /// Writes that the environment at `directory` is being fixed.
    pub fn print_fix_attempt(&mut self, directory: &str)
        ensures
            final(self).option() == old(self).option(),
            final(self).output() == old(self).output() + parameter_line(
                "Attempting Environment Fix: "@,
                directory@,
            ),
    {
        let parts: [&str; 2] = ["Attempting Environment Fix: ", directory];
        self.terminal.writeln_parameter(&parts, &YellowANSI);
    }

    /// Takes what has been written, leaving the output empty.
    pub fn take_output(&mut self) -> (r: String)
        ensures
            r@ == old(self).output(),
            final(self).output() == Seq::<char>::empty(),
            final(self).option() == old(self).option(),
    {
        self.terminal.take_output()
    }
}

/// The command that runs a command in virtual environments.
pub struct PythonExecuteCommand {
    option: VirtualEnvExecuteOption,
    terminal: Terminal,
}

impl PythonExecuteCommand {
    /// The command with its options.
    pub fn new(option: VirtualEnvExecuteOption) -> (r: Self)
        ensures
            r.option() == option,
            r.output() == Seq::<char>::empty(),
    {
        let terminal: Terminal = Terminal::new();
        PythonExecuteCommand { option, terminal }
    }

    /// The options of the command.
    pub closed spec fn option(&self) -> VirtualEnvExecuteOption {
        self.option
    }

    /// What has been written and not yet taken.
    pub closed spec fn output(&self) -> Seq<char> {
        self.terminal.output()
    }

    /// The words of the command to run.
    pub fn get_command_args(&self) -> (r: Vec<String>)
        ensures
            views(r@) == words(self.option().command@),
    {
        split_whitespace(self.option.command.as_str())
    }

    /// Writes the search parameters and the command.
    pub fn print_search_parameters(&mut self)
        ensures
            final(self).option() == old(self).option(),
            final(self).output() == old(self).output() + parameter_line(
                "Search Parameters: "@,
                deep_search_text(old(self).option().deep_search),
            ) + seq!['\n'] + parameter_line(
                "Command: "@,
                "["@ + old(self).option().command@ + "]\n"@,
            ),
    {
        let parameters: String = deep_search_string(self.option.deep_search);
        write_search_parameters(&mut self.terminal, parameters.as_str());
        let mut command_string: String = String::from_str("[");
        push_str(&mut command_string, self.option.command.as_str());
        push_str(&mut command_string, "]\n");
        let parts: [&str; 2] = ["Command: ", command_string.as_str()];
        self.terminal.writeln_parameter(&parts, &YellowANSI);
    }

    /// Writes a line per package and their number.
    pub fn list_packages(&mut self, packages: &Vec<PipPackage>)
        ensures
            final(self).option() == old(self).option(),
            final(self).output() == old(self).output() + package_lines(packages@, packages@.len() as int)
                + parameter_line("Total Packages: "@, decimal(packages@.len() as nat)),
    {
        let mut i: usize = 0;
        while i < packages.len()
            invariant
                i <= packages@.len(),
                self.option() == old(self).option(),
                self.output() == old(self).output() + package_lines(packages@, i as int),
            decreases packages@.len() - i,
        {
            let line: String = packages[i].get_string();
            self.terminal.write_raw(line.as_str());
            self.terminal.write_raw("\n");
            proof {
                reveal_strlit("\n");
            }
            i = i + 1;
        }
        let count: String = usize_to_string(packages.len());
        let parts: [&str; 2] = ["Total Packages: ", count.as_str()];
        self.terminal.writeln_parameter(&parts, &YellowANSI);
    }

    /// The text of the saved package list: a requirement line per package.
    pub fn requirements_text(&self, packages: &Vec<PipPackage>) -> (r: String)
        ensures
            r@ == requirement_lines(packages@, packages@.len() as int),
    {
        let mut text: String = String::new();
        let mut i: usize = 0;
        while i < packages.len()
            invariant
                i <= packages@.len(),
                text@ == requirement_lines(packages@, i as int),
            decreases packages@.len() - i,
        {
            let line: String = packages[i].get_requirement_string();
            push_str(&mut text, line.as_str());
            crate::text::push_char(&mut text, '\n');
            i = i + 1;
        }
        text
    }

    /// Writes the heading of the environment at `directory`.
    pub fn print_environment(&mut self, directory: &str)
        ensures
            final(self).option() == old(self).option(),
            final(self).output() == old(self).output() + painted(
                YellowANSI.spec_value(),
                "[Environment -> "@ + directory@ + "]"@,
            ) + seq!['\n'],
    {
        let mut string: String = String::from_str("[Environment -> ");
        push_str(&mut string, directory);
        push_str(&mut string, "]");
        self.terminal.writeln_ansi(string.as_str(), &YellowANSI);
    }

    /// Takes what has been written, leaving the output empty.
    pub fn take_output(&mut self) -> (r: String)
        ensures
            r@ == old(self).output(),
            final(self).output() == Seq::<char>::empty(),
            final(self).option() == old(self).option(),
    {
        self.terminal.take_output()
    }
}

/// The lines `Name: .. | Version: ..` of the first `n` packages.
pub open spec fn package_lines(packages: Seq<PipPackage>, n: int) -> Seq<char>
    decreases n,
{
    if n <= 0 {
        Seq::empty()
    } else {
        let p = packages[n - 1];
        package_lines(packages, n - 1) + "Name: "@ + p.name_view() + " | Version: "@ + p.version_string()
            + seq!['\n']
    }
}

/// The requirement lines `name==version` of the first `n` packages.
pub open spec fn requirement_lines(packages: Seq<PipPackage>, n: int) -> Seq<char>
    decreases n,
{
    if n <= 0 {
        Seq::empty()
    } else {
        let p = packages[n - 1];
        requirement_lines(packages, n - 1) + p.name_view() + "=="@ + p.version_string() + seq!['\n']
    }
}

/// The command that lists the packages of virtual environments.
pub struct PythonPackagesCommand {
    option: PackagesOption,
    terminal: Terminal,
}

impl PythonPackagesCommand {
    /// The command with its options.
    pub fn new(option: PackagesOption) -> (r: Self)
        ensures
            r.option() == option,
            r.output() == Seq::<char>::empty(),
    {
        let terminal: Terminal = Terminal::new();
        PythonPackagesCommand { option, terminal }
    }

    /// The options of the command.
    pub closed spec fn option(&self) -> PackagesOption {
        self.option
    }

    /// What has been written and not yet taken.
    pub closed spec fn output(&self) -> Seq<char> {
        self.terminal.output()
    }

    /// Writes the search parameters.
    pub fn print_search_parameters(&mut self)
        ensures
            final(self).option() == old(self).option(),
            final(self).output() == old(self).output() + parameter_line(
                "Search Parameters: "@,
                deep_search_text(old(self).option().deep_search) + " | Distill: ["@ + bool_text(
                    old(self).option().distill,
                ) + "] | Save: ["@ + bool_text(old(self).option().save) + "]"@,
            ) + seq!['\n'],
    {
        let mut parameters: String = deep_search_string(self.option.deep_search);
        push_str(&mut parameters, " | Distill: [");
        push_bool(&mut parameters, self.option.distill);
        push_str(&mut parameters, "] | Save: [");
        push_bool(&mut parameters, self.option.save);
        push_str(&mut parameters, "]");
        write_search_parameters(&mut self.terminal, parameters.as_str());
    }

    /// The name of the file that the package list is saved in.
    pub fn get_filename_from_option(&self) -> (r: &str)
        ensures
            r@ == if self.option().distill {
                "distilled_packages.txt"@
            } else {
                "packages.txt"@
            },
    {
        if self.option.distill {
            "distilled_packages.txt"
        } else {
            "packages.txt"
        }
    }

    /// Writes a line per package and their number.
    pub fn list_packages(&mut self, packages: &Vec<PipPackage>)
        ensures
            final(self).option() == old(self).option(),
            final(self).output() == old(self).output() + package_lines(packages@, packages@.len() as int)
                + parameter_line("Total Packages: "@, decimal(packages@.len() as nat)),
    {
        let mut i: usize = 0;
        while i < packages.len()
            invariant
                i <= packages@.len(),
                self.option() == old(self).option(),
                self.output() == old(self).output() + package_lines(packages@, i as int),
            decreases packages@.len() - i,
        {
            let line: String = packages[i].get_string();
            self.terminal.write_raw(line.as_str());
            self.terminal.write_raw("\n");
            proof {
                reveal_strlit("\n");
            }
            i = i + 1;
        }
        let count: String = usize_to_string(packages.len());
        let parts: [&str; 2] = ["Total Packages: ", count.as_str()];
        self.terminal.writeln_parameter(&parts, &YellowANSI);
    }

    /// The text of the saved package list: a requirement line per package.
    pub fn requirements_text(&self, packages: &Vec<PipPackage>) -> (r: String)
        ensures
            r@ == requirement_lines(packages@, packages@.len() as int),
    {
        let mut text: String = String::new();
        let mut i: usize = 0;
        while i < packages.len()
            invariant
                i <= packages@.len(),
                text@ == requirement_lines(packages@, i as int),
            decreases packages@.len() - i,
        {
            let line: String = packages[i].get_requirement_string();
            push_str(&mut text, line.as_str());
            crate::text::push_char(&mut text, '\n');
            i = i + 1;
        }
        text
    }

    /// Writes the heading of the environment at `directory`.
    pub fn print_environment(&mut self, directory: &str)
        ensures
            final(self).option() == old(self).option(),
            final(self).output() == old(self).output() + painted(
                YellowANSI.spec_value(),
                "[Environment -> "@ + directory@ + "]"@,
            ) + seq!['\n'],
    {
        let mut string: String = String::from_str("[Environment -> ");
        push_str(&mut string, directory);
        push_str(&mut string, "]");
        self.terminal.writeln_ansi(string.as_str(), &YellowANSI);
    }

    /// Takes what has been written, leaving the output empty.
    pub fn take_output(&mut self) -> (r: String)
        ensures
            r@ == old(self).output(),
            final(self).output() == Seq::<char>::empty(),
            final(self).option() == old(self).option(),
    {
        self.terminal.take_output()
    }
}

/// The command that downloads a Python release.
pub struct PythonDLCommand {
    option: PythonDownloadOption,
}

impl PythonDLCommand {
    /// The command with its options.
    pub fn new(option: PythonDownloadOption) -> (r: Self)
        ensures
            r.option() == option,
    {
        PythonDLCommand { option }
    }

    /// The options of the command.
    pub closed spec fn option(&self) -> PythonDownloadOption {
        self.option
    }

    /// Writes the architecture, platform and package type searched for.
    pub fn print_search_parameters(&self, terminal: &mut Terminal)
        ensures
            final(terminal).code() == old(terminal).code(),
            final(terminal).output() == old(terminal).output() + parameter_line(
                "Search Parameters: "@,
                "Arch: ["@ + self.option().architecture@ + "] | Platform: ["@
                    + self.option().platform@ + "] | Type: ["@ + self.option().package_type@
                    + "]\n"@,
            ),
    {
        let mut parameters: String = String::from_str("Arch: [");
        push_str(&mut parameters, self.option.architecture.as_str());
        push_str(&mut parameters, "] | Platform: [");
        push_str(&mut parameters, self.option.platform.as_str());
        push_str(&mut parameters, "] | Type: [");
        push_str(&mut parameters, self.option.package_type.as_str());
        push_str(&mut parameters, "]\n");
        let parts: [&str; 2] = ["Search Parameters: ", parameters.as_str()];
        terminal.writeln_parameter(&parts, &YellowANSI);
    }

    /// Writes the address of the setup file found; the caller then
    /// downloads it.
    pub fn print_found_version(&self, url: &str, terminal: &mut Terminal)
        ensures
            final(terminal).code() == old(terminal).code(),
            final(terminal).output() == old(terminal).output() + painted(GreenANSI.spec_value(), "Found version: "@)
                + painted(WhiteANSI.spec_value(), url@) + seq!['\n'],
    {
        let parts: [&str; 2] = ["Found version: ", url];
        terminal.writeln_parameter(&parts, &GreenANSI);
    }

    /// Writes how the download went: the name of the file saved; or the
    /// error, then that the version was not found; or, when there was no
    /// address to download (`None`), that the version was not found.
    pub fn report_download(&self, result: Option<Result<String, String>>, terminal: &mut Terminal)
        ensures
            final(terminal).code() == old(terminal).code(),
            final(terminal).output() == old(terminal).output() + match result {
                Some(Ok(f)) => painted(GreenANSI.spec_value(), "File Downloaded: "@) + painted(
                    WhiteANSI.spec_value(),
                    f@,
                ) + seq!['\n'],
                Some(Err(e)) => painted(RedANSI.spec_value(), "Error: "@) + painted(WhiteANSI.spec_value(), e@)
                    + seq!['\n'] + painted(RedANSI.spec_value(), "Python version not found."@) + seq!['\n'],
                None => painted(RedANSI.spec_value(), "Python version not found."@) + seq!['\n'],
            },
    {
        match result {
            Some(Ok(file_name)) => {
                let parts: [&str; 2] = ["File Downloaded: ", file_name.as_str()];
                terminal.writeln_parameter(&parts, &GreenANSI);
                return;
            },
            Some(Err(error)) => {
                let parts: [&str; 2] = ["Error: ", error.as_str()];
                terminal.writeln_parameter(&parts, &RedANSI);
            },
            None => {},
        }
        terminal.writeln_ansi("Python version not found.", &RedANSI);
    }
}

} // verus!
