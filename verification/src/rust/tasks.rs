//! Adding a "cargo run" task to a VS Code tasks file. The decisions are made
//! here, one step at a time: each step takes what the caller found on disk
//! and says what the caller does next. The caller reads and writes the
//! files; the text of the tasks file is read and extended here, with
//! `serde_json`.
use vstd::prelude::*;

use crate::general::path::WPath;
use crate::general::terminal::{ANSICode, CyanANSI, GreenANSI, RedANSI, Terminal, WhiteANSI, painted};
use crate::text::str_eq;

verus! {

/// Where the generation of the run task stands.
#[derive(Clone, Copy, PartialEq, Eq, Structural, Debug)]
pub enum TaskPhase {
    /// Waiting to learn whether the `.vscode` directory exists.
    Directory,
    /// Waiting for the directory to be created.
    Creating,
    /// Waiting to learn whether the tasks file exists.
    File,
    /// Waiting for a new tasks file to be written.
    Writing,
    /// Waiting for the labels of the tasks in the file.
    Labels,
    /// Waiting for the run task to be added to the file.
    Adding,
    /// Done.
    Finished,
}

/// What the caller does next.
#[derive(Clone, Copy, PartialEq, Eq, Structural, Debug)]
pub enum TaskAction {
    /// Find out whether the `.vscode` directory exists.
    CheckDirectory,
    /// Create the `.vscode` directory and its parents.
    CreateDirectory,
    /// Find out whether the tasks file exists.
    CheckFile,
    /// Write a new tasks file: the text that `pending_text` gives.
    WriteFile,
    /// Read the text of the tasks file.
    ReadFile,
    /// Write the text that `pending_text` gives (the file with the run task
    /// added) to the tasks file.
    AddTask,
    /// Nothing more to do.
    Done,
}

/// What the caller found.
pub enum TaskEvent {
    /// Whether the `.vscode` directory exists.
    DirectoryChecked(bool),
    /// The outcome of creating the directory, with the error's text.
    DirectoryCreated(Result<(), String>),
    /// Whether the tasks file exists.
    FileChecked(bool),
    /// The outcome of writing a new tasks file: the canonical path of the
    /// file as shown (empty when it has none), or the error's text.
    FileWritten(Result<String, String>),
    /// The text of the tasks file, or the error's text when it could not be
    /// read.
    FileRead(Result<String, String>),
    /// The outcome of adding the run task.
    TaskAdded(Result<(), String>),
}

/// The label of the run task.
pub open spec fn run_task_label() -> Seq<char> {
    "rust: cargo run"@
}

/// What `serde_json` reads from the JSON text `text`: for each entry of its
/// `tasks` array, the entry's `label` when that is a string; `None` when
/// `tasks` is not an array; or the parse error's text.
pub uninterp spec fn json_task_labels(text: Seq<char>) -> Result<Option<Seq<Option<Seq<char>>>>, Seq<char>>;

/// Parses `text` with `serde_json::from_str` into a `serde_json::Value` and
/// picks the labels of its `tasks` array (`Value::as_array`, then
/// `Value::as_str` on each task's `label`). The result is named, not stated:
/// the JSON grammar is `serde_json`'s.
#[verifier::external_body]
pub(crate) fn task_labels(text: &str) -> (r: Result<Option<Vec<Option<String>>>, String>)
    ensures
        json_task_labels(text@) == match r {
            Ok(tasks) => Ok::<Option<Seq<Option<Seq<char>>>>, Seq<char>>(labels_view(tasks)),
            Err(e) => Err::<Option<Seq<Option<Seq<char>>>>, Seq<char>>(e@),
        },
{
    match serde_json::from_str::<serde_json::Value>(text) {
        Ok(json) => Ok(json["tasks"].as_array().map(
            |tasks| tasks.iter().map(|task| task["label"].as_str().map(String::from)).collect(),
        )),
        Err(error) => Err(error.to_string()),
    }
}

/// The JSON text that `serde_json::to_string_pretty` writes for the JSON
/// `text` with the JSON value `task` appended to its `tasks` array; `None`
/// when `text` has no `tasks` entry that is an array; or the parse error's
/// text.
pub uninterp spec fn json_with_task(text: Seq<char>, task: Seq<char>) -> Result<Option<Seq<char>>, Seq<char>>;

/// Parses `text` and `task` with `serde_json::from_str`, takes the `tasks`
/// entry of `text` with `Value::get_mut` (which gives `None`, and does not
/// panic, when `text` is not an object), pushes `task` onto it when it is a
/// `Value::Array`, and writes the result with `serde_json::to_string_pretty`;
/// `None` for any other shape. The result is named, not stated.
#[verifier::external_body]
fn append_task(text: &str, task: &str) -> (r: Result<Option<String>, String>)
    ensures
        json_with_task(text@, task@) == match r {
            Ok(Some(t)) => Ok::<Option<Seq<char>>, Seq<char>>(Some(t@)),
            Ok(None) => Ok::<Option<Seq<char>>, Seq<char>>(None),
            Err(e) => Err::<Option<Seq<char>>, Seq<char>>(e@),
        },
{
    let mut json: serde_json::Value = serde_json::from_str(text).map_err(|e| e.to_string())?;
    let task: serde_json::Value = serde_json::from_str(task).map_err(|e| e.to_string())?;
    match json.get_mut("tasks") {
        Some(serde_json::Value::Array(tasks)) => tasks.push(task),
        _ => return Ok(None),
    }
    serde_json::to_string_pretty(&json).map(Some).map_err(|e| e.to_string())
}

/// The JSON text that `serde_json::to_string_pretty` writes for the JSON
/// `text`, or the parse error's text.
pub uninterp spec fn json_reformatted(text: Seq<char>) -> Result<Seq<char>, Seq<char>>;

/// Parses `text` with `serde_json::from_str` into a `serde_json::Value` and
/// writes it back with `serde_json::to_string_pretty`. The result is named,
/// not stated.
#[verifier::external_body]
fn reformat_json(text: &str) -> (r: Result<String, String>)
    ensures
        json_reformatted(text@) == match r {
            Ok(t) => Ok::<Seq<char>, Seq<char>>(t@),
            Err(e) => Err::<Seq<char>, Seq<char>>(e@),
        },
{
    let json: serde_json::Value = serde_json::from_str(text).map_err(|e| e.to_string())?;
    serde_json::to_string_pretty(&json).map_err(|e| e.to_string())
}

/// The text of a new tasks file: version `2.0.0` and one task, the run task
/// as the default of the `build` group, written as `serde_json`'s pretty
/// printer writes it (two spaces of indentation, one entry per line).
pub open spec fn default_tasks_text() -> Seq<char> {
    "{\n  \"version\": \"2.0.0\",\n  \"tasks\": [\n    {\n      \"type\": \"shell\",\n      \"command\": \"cargo run --release\",\n      \"problemMatcher\": [\n        \"$rustc\"\n      ],\n      \"label\": \"rust: cargo run\",\n      \"group\": {\n        \"kind\": \"build\",\n        \"isDefault\": true\n      }\n    }\n  ]\n}"@
}

/// The text of a new tasks file that holds the run task.
pub fn default_tasks_json() -> (r: &'static str)
    ensures
        r@ == default_tasks_text(),
{
    "{\n  \"version\": \"2.0.0\",\n  \"tasks\": [\n    {\n      \"type\": \"shell\",\n      \"command\": \"cargo run --release\",\n      \"problemMatcher\": [\n        \"$rustc\"\n      ],\n      \"label\": \"rust: cargo run\",\n      \"group\": {\n        \"kind\": \"build\",\n        \"isDefault\": true\n      }\n    }\n  ]\n}"
}

/// The message when the `tasks` entry cannot take the run task.
pub open spec fn no_task_array_message() -> Seq<char> {
    "The tasks entry of [tasks.json] is not an array."@
}

/// The run task as JSON: a shell task running `cargo run --release`, with
/// the `$rustc` problem matcher, in the `build` group.
pub open spec fn run_task_text() -> Seq<char> {
    "{\"type\": \"shell\", \"command\": \"cargo run --release\", \"problemMatcher\": [\"$rustc\"], \"label\": \"rust: cargo run\", \"group\": \"build\"}"@
}

/// The run task as JSON.
pub fn run_task_json() -> (r: &'static str)
    ensures
        r@ == run_task_text(),
{
    "{\"type\": \"shell\", \"command\": \"cargo run --release\", \"problemMatcher\": [\"$rustc\"], \"label\": \"rust: cargo run\", \"group\": \"build\"}"
}

/// What adding the run task makes of the tasks file `text`: the error when
/// it is not JSON; `None` when a task already has the run task's label
/// (nothing is added twice); the text with the run task appended to its
/// `tasks` array when it has one; and, when it has none, the text written
/// back as it is (nothing is added).
pub open spec fn run_task_added(text: Seq<char>) -> Result<Option<Seq<char>>, Seq<char>> {
    match json_task_labels(text) {
        Err(e) => Err(e),
        Ok(None) => match json_reformatted(text) {
            Ok(t) => Ok(Some(t)),
            Err(e) => Err(e),
        },
        Ok(Some(labels)) => if label_present(Some(labels), run_task_label()) {
            Ok(None)
        } else {
            match json_with_task(text, run_task_text()) {
                Ok(Some(t)) => Ok(Some(t)),
                Ok(None) => Err(no_task_array_message()),
                Err(e) => Err(e),
            }
        },
    }
}

/// True when a task of the JSON tasks file `text` has the label `label`;
/// `false` when its `tasks` entry is not an array; the parse error when it is
/// not JSON.
pub fn is_task_label_present(text: &str, label: &str) -> (r: Result<bool, String>)
    ensures
        match json_task_labels(text@) {
            Ok(tasks) => r == Ok::<bool, String>(label_present(tasks, label@)),
            Err(e) => r matches Err(m) && m@ == e,
        },
{
    match task_labels(text) {
        Ok(tasks) => Ok(labels_hold(&tasks, label)),
        Err(e) => Err(e),
    }
}

/// The tasks file `text` with the run task added, `None` when it has it
/// already, or the error.
pub fn add_run_task(text: &str) -> (r: Result<Option<String>, String>)
    ensures
        run_task_added(text@) == match r {
            Ok(Some(t)) => Ok::<Option<Seq<char>>, Seq<char>>(Some(t@)),
            Ok(None) => Ok::<Option<Seq<char>>, Seq<char>>(None),
            Err(e) => Err::<Option<Seq<char>>, Seq<char>>(e@),
        },
{
    proof {
        reveal_strlit("rust: cargo run");
    }
    match task_labels(text) {
        Err(e) => Err(e),
        Ok(None) => match reformat_json(text) {
            Ok(t) => Ok(Some(t)),
            Err(e) => Err(e),
        },
        Ok(Some(labels)) => {
            let tasks: Option<Vec<Option<String>>> = Some(labels);
            if labels_hold(&tasks, "rust: cargo run") {
                Ok(None)
            } else {
                match append_task(text, run_task_json()) {
                    Ok(Some(t)) => Ok(Some(t)),
                    Ok(None) => Err(String::from_str("The tasks entry of [tasks.json] is not an array.")),
                    Err(e) => Err(e),
                }
            }
        },
    }
}

/// The labels of the tasks as text.
pub open spec fn labels_view(tasks: Option<Vec<Option<String>>>) -> Option<Seq<Option<Seq<char>>>> {
    match tasks {
        Some(t) => Some(t@.map_values(|o: Option<String>| match o {
            Some(s) => Some(s@),
            None => None,
        })),
        None => None,
    }
}

/// True when one of the tasks has `label` as its label.
pub open spec fn label_present(tasks: Option<Seq<Option<Seq<char>>>>, label: Seq<char>) -> bool {
    match tasks {
        Some(t) => exists|i: int| 0 <= i < t.len() && #[trigger] t[i] == Some(label),
        None => false,
    }
}

/// A line of `text` in the colour `code`.
pub open spec fn colour_line(code: Seq<char>, text: Seq<char>) -> Seq<char> {
    painted(code, text) + seq!['\n']
}

/// A name in the colour `code` and its value in white, on a line.
pub open spec fn parameter_line(code: Seq<char>, name: Seq<char>, value: Seq<char>) -> Seq<char> {
    painted(code, name) + painted(WhiteANSI.spec_value(), value) + seq!['\n']
}

/// The report of an error.
pub open spec fn error_line(error: Seq<char>) -> Seq<char> {
    parameter_line(RedANSI.spec_value(), "Error: "@, error)
}

/// One step: the phase that follows, what the caller does next, and what is
/// written. An event that does not belong to the phase ends the generation
/// with nothing written.
pub open spec fn task_step(phase: TaskPhase, event: TaskEvent) -> (TaskPhase, TaskAction, Seq<char>) {
    match (phase, event) {
        (TaskPhase::Directory, TaskEvent::DirectoryChecked(exists)) => if exists {
            (TaskPhase::File, TaskAction::CheckFile, Seq::empty())
        } else {
            (
                TaskPhase::Creating,
                TaskAction::CreateDirectory,
                colour_line(CyanANSI.spec_value(), "[Creating Directory Structure]"@),
            )
        },
        (TaskPhase::Creating, TaskEvent::DirectoryCreated(outcome)) => match outcome {
            Ok(_) => (TaskPhase::File, TaskAction::CheckFile, Seq::empty()),
            Err(e) => (TaskPhase::Finished, TaskAction::Done, error_line(e@)),
        },
        (TaskPhase::File, TaskEvent::FileChecked(exists)) => if exists {
            (TaskPhase::Labels, TaskAction::ReadFile, Seq::empty())
        } else {
            (TaskPhase::Writing, TaskAction::WriteFile, Seq::empty())
        },
        (TaskPhase::Writing, TaskEvent::FileWritten(outcome)) => match outcome {
            Ok(shown) => (
                TaskPhase::Finished,
                TaskAction::Done,
                colour_line(GreenANSI.spec_value(), "New tasks file has been created."@)
                    + parameter_line(GreenANSI.spec_value(), "File: "@, shown@),
            ),
            Err(e) => (TaskPhase::Finished, TaskAction::Done, error_line(e@)),
        },
        (TaskPhase::Labels, TaskEvent::FileRead(outcome)) => match outcome {
            Ok(text) => match run_task_added(text@) {
                Ok(None) => (
                    TaskPhase::Finished,
                    TaskAction::Done,
                    colour_line(RedANSI.spec_value(), "Run task already exists in [tasks.json]."@),
                ),
                Ok(Some(_)) => (TaskPhase::Adding, TaskAction::AddTask, Seq::empty()),
                Err(e) => (TaskPhase::Finished, TaskAction::Done, error_line(e)),
            },
            Err(e) => (TaskPhase::Finished, TaskAction::Done, error_line(e@)),
        },
        (TaskPhase::Adding, TaskEvent::TaskAdded(outcome)) => match outcome {
            Ok(_) => (
                TaskPhase::Finished,
                TaskAction::Done,
                colour_line(GreenANSI.spec_value(), "Run task has been added to [tasks.json]"@),
            ),
            Err(e) => (TaskPhase::Finished, TaskAction::Done, error_line(e@)),
        },
        _ => (TaskPhase::Finished, TaskAction::Done, Seq::empty()),
    }
}


/// The order of the phases.
pub open spec fn phase_rank(phase: TaskPhase) -> int {
    match phase {
        TaskPhase::Directory => 0,
        TaskPhase::Creating => 1,
        TaskPhase::File => 2,
        TaskPhase::Writing => 3,
        TaskPhase::Labels => 3,
        TaskPhase::Adding => 4,
        TaskPhase::Finished => 5,
    }
}

/// The text written when a step asks to write the tasks file: a new file
/// with the run task, or the file read with the run task added.
pub open spec fn pending_after(event: TaskEvent) -> Seq<char> {
    match event {
        TaskEvent::FileChecked(false) => default_tasks_text(),
        TaskEvent::FileRead(Ok(text)) => match run_task_added(text@) {
            Ok(Some(t)) => t,
            _ => Seq::empty(),
        },
        _ => Seq::empty(),
    }
}

/// Every step moves the generation forward, so it ends after at most five
/// steps; and when the file read already has a task with the run task's
/// label, the run task is not added again.
pub proof fn law_generation_progresses(phase: TaskPhase, event: TaskEvent)
    requires
        phase != TaskPhase::Finished,
    ensures
        phase_rank(task_step(phase, event).0) > phase_rank(phase),
        phase == TaskPhase::Labels && (event matches TaskEvent::FileRead(Ok(text))
            && json_task_labels(text@) matches Ok(tasks) && label_present(tasks, run_task_label()))
            ==> task_step(phase, event).1 == TaskAction::Done,
{
}

/// True when one of the tasks has `label` as its label.
fn labels_hold(tasks: &Option<Vec<Option<String>>>, label: &str) -> (r: bool)
    ensures
        r == label_present(labels_view(*tasks), label@),
{
    match tasks {
        Some(t) => {
            let ghost lv = labels_view(*tasks).unwrap();
            let mut i: usize = 0;
            while i < t.len()
                invariant
                    i <= t@.len(),
                    labels_view(*tasks) == Some(lv),
                    lv == t@.map_values(|o: Option<String>| match o {
                        Some(s) => Some(s@),
                        None => None,
                    }),
                    forall|j: int| 0 <= j < i ==> lv[j] != Some(label@),
                decreases t@.len() - i,
            {
                match &t[i] {
                    Some(task_label) => {
                        if str_eq(task_label.as_str(), label) {
                            assert(lv[i as int] == Some(label@));
                            return true;
                        }
                    },
                    None => {},
                }
                i = i + 1;
            }
            false
        },
        None => false,
    }
}

/// The generation of a "cargo run" task in `./.vscode/tasks.json`.
pub struct RustVSCodeTask {
    path: WPath,
    terminal: Terminal,
    phase: TaskPhase,
    pending: String,
}

impl RustVSCodeTask {
    /// The path of the tasks file.
    pub closed spec fn path_text(&self) -> Seq<char> {
        self.path.text()
    }

    /// Where the generation stands.
    pub closed spec fn phase(&self) -> TaskPhase {
        self.phase
    }

    /// What has been written and not yet taken.
    pub closed spec fn output(&self) -> Seq<char> {
        self.terminal.output()
    }

    /// The text to write to the tasks file when the action is `WriteFile`
    /// or `AddTask`.
    pub closed spec fn pending_view(&self) -> Seq<char> {
        self.pending@
    }

    /// The text to write to the tasks file when the action is `WriteFile`
    /// or `AddTask`.
    pub fn pending_text(&self) -> (r: &str)
        ensures
            r@ == self.pending_view(),
    {
        self.pending.as_str()
    }

    /// The generation for `./.vscode/tasks.json`, not yet started.
    pub fn new() -> (r: Self)
        ensures
            r.path_text() == "./.vscode/tasks.json"@,
            r.phase() == TaskPhase::Finished,
            r.output() == Seq::<char>::empty(),
    {
        let path: WPath = WPath::from_string("./.vscode/tasks.json");
        let terminal: Terminal = Terminal::new();
        RustVSCodeTask { path, terminal, phase: TaskPhase::Finished, pending: String::new() }
    }

    /// The directory that holds the tasks file.
    pub fn directory(&self) -> (r: &'static str)
        ensures
            r@ == "./.vscode/"@,
    {
        "./.vscode/"
    }

    /// The path of the tasks file.
    pub fn path(&self) -> (r: &str)
        ensures
            r@ == self.path_text(),
    {
        self.path.get_path_buf()
    }

    /// Starts the generation: the caller first finds out whether the
    /// directory exists.
    pub fn generate_run_task(&mut self) -> (r: TaskAction)
        ensures
            r == TaskAction::CheckDirectory,
            final(self).phase() == TaskPhase::Directory,
            final(self).output() == old(self).output(),
            final(self).path_text() == old(self).path_text(),
    {
        self.phase = TaskPhase::Directory;
        TaskAction::CheckDirectory
    }

    /// Takes what the caller found and says what it does next.
    pub fn next(&mut self, event: TaskEvent) -> (r: TaskAction)
        ensures
            ({
                let (phase, action, written) = task_step(old(self).phase(), event);
                &&& r == action
                &&& final(self).phase() == phase
                &&& final(self).output() == old(self).output() + written
            }),
            task_step(old(self).phase(), event).1 == TaskAction::AddTask || task_step(
                old(self).phase(),
                event,
            ).1 == TaskAction::WriteFile ==> final(self).pending_view() == pending_after(event),
            final(self).path_text() == old(self).path_text(),
    {
        let ghost before = self.output();
        let phase: TaskPhase = self.phase;
        let (next_phase, action) = match (phase, event) {
            (TaskPhase::Directory, TaskEvent::DirectoryChecked(exists)) => {
                if exists {
                    (TaskPhase::File, TaskAction::CheckFile)
                } else {
                    self.terminal.writeln_ansi("[Creating Directory Structure]", &CyanANSI);
                    (TaskPhase::Creating, TaskAction::CreateDirectory)
                }
            },
            (TaskPhase::Creating, TaskEvent::DirectoryCreated(outcome)) => match outcome {
                Ok(_) => (TaskPhase::File, TaskAction::CheckFile),
                Err(e) => {
                    self.write_error(e.as_str());
                    (TaskPhase::Finished, TaskAction::Done)
                },
            },
            (TaskPhase::File, TaskEvent::FileChecked(exists)) => {
                if exists {
                    (TaskPhase::Labels, TaskAction::ReadFile)
                } else {
                    self.pending = String::from_str(default_tasks_json());
                    (TaskPhase::Writing, TaskAction::WriteFile)
                }
            },
            (TaskPhase::Writing, TaskEvent::FileWritten(outcome)) => match outcome {
                Ok(shown) => {
                    self.terminal.writeln_ansi("New tasks file has been created.", &GreenANSI);
                    let parts: [&str; 2] = ["File: ", shown.as_str()];
                    self.terminal.writeln_parameter(&parts, &GreenANSI);
                    (TaskPhase::Finished, TaskAction::Done)
                },
                Err(e) => {
                    self.write_error(e.as_str());
                    (TaskPhase::Finished, TaskAction::Done)
                },
            },
            (TaskPhase::Labels, TaskEvent::FileRead(outcome)) => match outcome {
                Ok(text) => match add_run_task(text.as_str()) {
                    Ok(None) => {
                        self.terminal.writeln_ansi("Run task already exists in [tasks.json].", &RedANSI);
                        (TaskPhase::Finished, TaskAction::Done)
                    },
                    Ok(Some(added)) => {
                        self.pending = added;
                        (TaskPhase::Adding, TaskAction::AddTask)
                    },
                    Err(e) => {
                        self.write_error(e.as_str());
                        (TaskPhase::Finished, TaskAction::Done)
                    },
                },
                Err(e) => {
                    self.write_error(e.as_str());
                    (TaskPhase::Finished, TaskAction::Done)
                },
            },
            (TaskPhase::Adding, TaskEvent::TaskAdded(outcome)) => match outcome {
                Ok(_) => {
                    self.terminal.writeln_ansi("Run task has been added to [tasks.json]", &GreenANSI);
                    (TaskPhase::Finished, TaskAction::Done)
                },
                Err(e) => {
                    self.write_error(e.as_str());
                    (TaskPhase::Finished, TaskAction::Done)
                },
            },
            _ => (TaskPhase::Finished, TaskAction::Done),
        };
        self.phase = next_phase;
        action
    }

    fn write_error(&mut self, error: &str)
        ensures
            final(self).output() == old(self).output() + error_line(error@),
            final(self).phase() == old(self).phase(),
            final(self).path_text() == old(self).path_text(),
    {
        let parts: [&str; 2] = ["Error: ", error];
        self.terminal.writeln_parameter(&parts, &RedANSI);
    }

    /// Takes what has been written, leaving the output empty.
    pub fn take_output(&mut self) -> (r: String)
        ensures
            r@ == old(self).output(),
            final(self).output() == Seq::<char>::empty(),
            final(self).phase() == old(self).phase(),
            final(self).path_text() == old(self).path_text(),
    {
        self.terminal.take_output()
    }
}

} // verus!
