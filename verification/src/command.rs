//! Commands, what each of them yields, and the dispatcher.
//!
//! A command that only looks at the text of its paths is answered at once.
//! A command that has to look at the filesystem is answered in two steps:
//! the dispatcher says what must be asked, the caller asks, and the answer
//! is turned into the outcome.

use vstd::prelude::*;
use crate::ops::{component, component_at, contains_separator, join, join_all};
use crate::platform;
use crate::platform::{
    extension_of,
    has_separator,
    parent_of,
    path_components,
    path_file_name,
    path_is_absolute,
    stem_of,
    with_extension_of,
    with_file_name_of,
};

verus! {

/// One request: an operation together with the arguments it needs.
#[derive(Debug, Clone, PartialEq, Eq)]
pub enum Command {
    /// The canonical, absolute form of the path, links resolved.
    Canonicalize { path: String },
    /// The component of the path that the signed index `n` addresses.
    Component { path: String, n: i32 },
    /// Whether the path exists.
    Exists { path: String },
    /// The extension of the file name.
    Extension { path: String },
    /// The file name.
    Filename { path: String },
    /// Whether the path is absolute.
    IsAbsolute { path: String },
    /// Whether the path is a directory.
    IsDir { path: String },
    /// Whether the path is a file.
    IsFile { path: String },
    /// Whether the path is relative.
    IsRelative { path: String },
    /// Whether the path is a symbolic link.
    IsSymlink { path: String },
    /// The paths joined from left to right.
    Join { paths: Vec<String> },
    /// The path without its last component.
    Parent { path: String },
    /// The path that a symbolic link points to.
    ResolveLink { path: String },
    /// The file name without its extension.
    Stem { path: String },
    /// The path with another file name in the same directory.
    WithFileName { path: String, filename: String },
    /// The path with another extension. A suffix that holds a path
    /// separator cannot be applied.
    WithSuffix { path: String, suffix: String },
}

/// How a command ended.
#[derive(Debug, Clone, PartialEq, Eq)]
pub enum Outcome {
    /// Success with a value, to be printed on a line of its own.
    Line(String),
    /// Success of a yes/no question: nothing is printed.
    Silent,
    /// Failure: nothing is printed.
    Failure,
}

/// A yes/no question to the filesystem.
#[derive(Debug, Clone, Copy, PartialEq, Eq)]
pub enum Probe {
    Exists,
    IsDir,
    IsFile,
    IsSymlink,
}

/// A question to the filesystem that is answered with a path.
#[derive(Debug, Clone, Copy, PartialEq, Eq)]
pub enum Lookup {
    Canonicalize,
    ReadLink,
}

/// What the dispatcher makes of a command: its outcome, or the one
/// question whose answer decides it.
#[derive(Debug, Clone, PartialEq, Eq)]
pub enum Step {
    /// The command is answered.
    Done(Outcome),
    /// The outcome is `Outcome::of_flag` of the filesystem's answer.
    Probe { probe: Probe, path: String },
    /// The outcome is `Outcome::of_value` of the filesystem's answer.
    Lookup { lookup: Lookup, path: String },
}

/// An `Outcome` with its line as a sequence of characters.
pub enum OutcomeView {
    Line(Seq<char>),
    Silent,
    Failure,
}

/// A `Step` with its texts as sequences of characters.
pub enum StepView {
    Done(OutcomeView),
    Probe { probe: Probe, path: Seq<char> },
    Lookup { lookup: Lookup, path: Seq<char> },
}

impl View for Outcome {
    type V = OutcomeView;

    open spec fn view(&self) -> OutcomeView {
        match self {
            Outcome::Line(line) => OutcomeView::Line(line@),
            Outcome::Silent => OutcomeView::Silent,
            Outcome::Failure => OutcomeView::Failure,
        }
    }
}

impl View for Step {
    type V = StepView;

    open spec fn view(&self) -> StepView {
        match self {
            Step::Done(outcome) => StepView::Done(outcome@),
            Step::Probe { probe, path } => StepView::Probe { probe: *probe, path: path@ },
            Step::Lookup { lookup, path } => StepView::Lookup { lookup: *lookup, path: path@ },
        }
    }
}

/// The outcome of a yes/no question: silent success or failure.
pub open spec fn flag_outcome(holds: bool) -> OutcomeView {
    if holds {
        OutcomeView::Silent
    } else {
        OutcomeView::Failure
    }
}

/// The outcome of a question for a value: the value on a line, or failure
/// where there is none.
pub open spec fn value_outcome(value: Option<Seq<char>>) -> OutcomeView {
    match value {
        Some(line) => OutcomeView::Line(line),
        None => OutcomeView::Failure,
    }
}

/// The exit status that reports an outcome: 0 for success, 1 for failure.
pub open spec fn exit_status(outcome: OutcomeView) -> int {
    if outcome is Failure {
        1
    } else {
        0
    }
}

/// What the dispatcher owes for each command.
pub open spec fn planned_step(command: Command) -> StepView {
    match command {
        Command::Canonicalize { path } => StepView::Lookup {
            lookup: Lookup::Canonicalize,
            path: path@,
        },
        Command::Component { path, n } => StepView::Done(
            value_outcome(component_at(path_components(path@), n as int)),
        ),
        Command::Exists { path } => StepView::Probe { probe: Probe::Exists, path: path@ },
        Command::Extension { path } => StepView::Done(value_outcome(extension_of(path@))),
        Command::Filename { path } => StepView::Done(value_outcome(path_file_name(path@))),
        Command::IsAbsolute { path } => StepView::Done(flag_outcome(path_is_absolute(path@))),
        Command::IsDir { path } => StepView::Probe { probe: Probe::IsDir, path: path@ },
        Command::IsFile { path } => StepView::Probe { probe: Probe::IsFile, path: path@ },
        Command::IsRelative { path } => StepView::Done(flag_outcome(!path_is_absolute(path@))),
        Command::IsSymlink { path } => StepView::Probe { probe: Probe::IsSymlink, path: path@ },
        Command::Join { paths } => StepView::Done(value_outcome(join_all(paths.deep_view()))),
        Command::Parent { path } => StepView::Done(value_outcome(parent_of(path@))),
        Command::ResolveLink { path } => StepView::Lookup {
            lookup: Lookup::ReadLink,
            path: path@,
        },
        Command::Stem { path } => StepView::Done(value_outcome(stem_of(path@))),
        Command::WithFileName { path, filename } => StepView::Done(
            OutcomeView::Line(with_file_name_of(path@, filename@)),
        ),
        Command::WithSuffix { path, suffix } => StepView::Done(
            OutcomeView::Line(with_extension_of(path@, suffix@)),
        ),
    }
}

impl Outcome {
    /// The outcome of a yes/no question that was answered with `holds`.
    pub fn of_flag(holds: bool) -> (outcome: Outcome)
        ensures
            outcome@ == flag_outcome(holds),
    {
        if holds {
            Outcome::Silent
        } else {
            Outcome::Failure
        }
    }

    /// The outcome of a question for a value that was answered with
    /// `value`.
    pub fn of_value(value: Option<String>) -> (outcome: Outcome)
        ensures
            outcome@ == value_outcome(value.deep_view()),
    {
        match value {
            Some(line) => Outcome::Line(line),
            None => Outcome::Failure,
        }
    }

    /// The exit status that reports this outcome.
    pub fn exit_code(&self) -> (code: u8)
        ensures
            code == exit_status(self@),
    {
        match self {
            Outcome::Failure => 1,
            _ => 0,
        }
    }
}

impl Command {
    /// Whether the command can be carried out: a new suffix must not hold
    /// a path separator.
    pub open spec fn runnable(self) -> bool {
        self matches Command::WithSuffix { suffix, .. } ==> !has_separator(suffix@)
    }

    /// Tests whether the command can be carried out.
    pub fn is_runnable(&self) -> (runnable: bool)
        ensures
            runnable == self.runnable(),
    {
        match self {
            Command::WithSuffix { suffix, .. } => !contains_separator(suffix.as_str()),
            _ => true,
        }
    }
}

/// Carries out one command as far as it goes without the filesystem: a
/// command on the text of its paths is answered, a command on the
/// filesystem is turned into the question to ask.
pub fn process(command: Command) -> (step: Step)
    requires
        command.runnable(),
    ensures
        step@ == planned_step(command),
{
    match command {
        Command::Canonicalize { path } => Step::Lookup { lookup: Lookup::Canonicalize, path },
        Command::Component { path, n } => Step::Done(
            Outcome::of_value(component(path.as_str(), n)),
        ),
        Command::Exists { path } => Step::Probe { probe: Probe::Exists, path },
        Command::Extension { path } => Step::Done(
            Outcome::of_value(platform::extension(path.as_str())),
        ),
        Command::Filename { path } => Step::Done(
            Outcome::of_value(platform::file_name(path.as_str())),
        ),
        Command::IsAbsolute { path } => Step::Done(
            Outcome::of_flag(platform::is_absolute(path.as_str())),
        ),
        Command::IsDir { path } => Step::Probe { probe: Probe::IsDir, path },
        Command::IsFile { path } => Step::Probe { probe: Probe::IsFile, path },
        Command::IsRelative { path } => Step::Done(
            Outcome::of_flag(platform::is_relative(path.as_str())),
        ),
        Command::IsSymlink { path } => Step::Probe { probe: Probe::IsSymlink, path },
        Command::Join { paths } => Step::Done(Outcome::of_value(join(&paths))),
        Command::Parent { path } => Step::Done(
            Outcome::of_value(platform::parent(path.as_str())),
        ),
        Command::ResolveLink { path } => Step::Lookup { lookup: Lookup::ReadLink, path },
        Command::Stem { path } => Step::Done(
            Outcome::of_value(platform::file_stem(path.as_str())),
        ),
        Command::WithFileName { path, filename } => Step::Done(
            Outcome::Line(platform::with_file_name(path.as_str(), filename.as_str())),
        ),
        Command::WithSuffix { path, suffix } => Step::Done(
            Outcome::Line(platform::with_extension(path.as_str(), suffix.as_str())),
        ),
    }
}

/// Carries out one command if it can be carried out, and says so if not.
pub fn try_process(command: Command) -> (step: Option<Step>)
    ensures
        step is Some <==> command.runnable(),
        step matches Some(taken) ==> taken@ == planned_step(command),
{
    if command.is_runnable() {
        Some(process(command))
    } else {
        None
    }
}

} // verus!
