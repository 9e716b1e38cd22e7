//! The Rust commands.
use vstd::prelude::*;

use crate::commands::configuration::RustVSCodeTasksOption;
use crate::terminal::ansi_sequences::{ANSICode, CyanANSI};
use crate::terminal::terminal::{painted, Terminal};

verus! {

/// The command that generates VS Code tasks.
pub struct RustVSCodeTaskCommand {
    option: RustVSCodeTasksOption,
    terminal: Terminal,
}

impl RustVSCodeTaskCommand {
    /// The command with its options.
    pub fn new(option: RustVSCodeTasksOption) -> (r: Self)
        ensures
            r.option() == option,
            r.output() == Seq::<char>::empty(),
    {
        let terminal: Terminal = Terminal::new();
        RustVSCodeTaskCommand { option, terminal }
    }

    /// The options of the command.
    pub closed spec fn option(&self) -> RustVSCodeTasksOption {
        self.option
    }

    /// What has been written and not yet taken.
    pub closed spec fn output(&self) -> Seq<char> {
        self.terminal.output()
    }

    /// Announces the run task when it is asked for, and says whether it is:
    /// the caller then generates it.
    pub fn execute_command(&mut self) -> (r: bool)
        ensures
            r == old(self).option().run_task,
            final(self).option() == old(self).option(),
            r ==> final(self).output() == old(self).output() + painted(
                CyanANSI.spec_value(),
                "[Generating Run Task]"@,
            ) + seq!['\n'],
            !r ==> final(self).output() == old(self).output(),
    {
        if self.option.run_task {
            let string: &str = "[Generating Run Task]";
            self.terminal.writeln_ansi(string, &CyanANSI);
            return true;
        }
        false
    }

    /// Takes what has been written, leaving the output empty.
    pub fn take_output(&mut self) -> (r: String)
        ensures
            r@ == old(self).output(),
            final(self).output() == Seq::<char>::empty(),
            final(self).option() == old(self).option(),
    {
        self.terminal.take_output()
    }
}

} // verus!
