//! The per-line verdict of parsing and its conversion to line errors.
use crate::line_error::LineError;
use crate::project::Project;
use crate::project_error::ProjectError;
use crate::task::Task;
use crate::text::{join_lines, join_nl};
use crate::time::{End, Start};
use vstd::prelude::*;

verus! {

/// A timestamp segment does not have the expected shape.
#[derive(Debug, PartialEq, Eq, Structural, Clone, Copy)]
pub enum DateTimeParseError {
    NotConvertible,
}

impl DateTimeParseError {
    /// The characters of the report message.
    pub open spec fn message_spec(&self) -> Seq<char> {
        "String is not convertable to date time"@
    }

    /// The report message.
    pub fn message(&self) -> (r: String)
        ensures
            r@ == self.message_spec(),
    {
        "String is not convertable to date time".to_owned()
    }
}

/// A field-level failure, tagged by the field it belongs to.
#[derive(Debug, PartialEq, Eq, Structural, Clone, Copy)]
pub enum ArgumentParseError {
    Start(DateTimeParseError),
    End(DateTimeParseError),
    ProjectAndTask(ProjectError),
}

impl ArgumentParseError {
    /// The characters of the report message.
    pub open spec fn message_spec(&self) -> Seq<char> {
        match self {
            ArgumentParseError::Start(error) => "Start | ParseError: "@ + error.message_spec(),
            ArgumentParseError::End(error) => "End | ParseError: "@ + error.message_spec(),
            ArgumentParseError::ProjectAndTask(error) => error.message_spec(),
        }
    }

    /// The report message.
    pub fn message(&self) -> (r: String)
        ensures
            r@ == self.message_spec(),
    {
        match self {
            ArgumentParseError::Start(error) => {
                let mut s = "Start | ParseError: ".to_owned();
                let m = error.message();
                s.append(m.as_str());
                s
            },
            ArgumentParseError::End(error) => {
                let mut s = "End | ParseError: ".to_owned();
                let m = error.message();
                s.append(m.as_str());
                s
            },
            ArgumentParseError::ProjectAndTask(error) => error.message(),
        }
    }
}

/// The fixed structural message of a line that cannot be decomposed.
pub open spec fn too_few_arguments_message() -> Seq<char> {
    "All | ParseError: Too few arguments given"@
}

/// The errors among the three field evaluations, in the fixed order start,
/// end, project/task.
pub open spec fn argument_errors(
    start: Result<Start, DateTimeParseError>,
    end: Result<End, DateTimeParseError>,
    project_and_task: Result<(Project, Task), ProjectError>,
) -> Seq<ArgumentParseError> {
    (match start {
        Err(e) => seq![ArgumentParseError::Start(e)],
        Ok(_) => seq![],
    }) + (match end {
        Err(e) => seq![ArgumentParseError::End(e)],
        Ok(_) => seq![],
    }) + (match project_and_task {
        Err(e) => seq![ArgumentParseError::ProjectAndTask(e)],
        Ok(_) => seq![],
    })
}

/// The verdict for one line: either the line cannot be decomposed into
/// fields at all, or a non-empty list of field-level failures.
#[derive(Debug, PartialEq)]
pub enum ParseError {
    TooFewArguments,
    ArgumentErrors(Vec<ArgumentParseError>),
}

impl ParseError {
    /// The report messages: a lone structural message for an undecomposable
    /// line, else one message per field failure, in field order.
    pub open spec fn messages_spec(self) -> Seq<Seq<char>> {
        match self {
            ParseError::TooFewArguments => seq![too_few_arguments_message()],
            ParseError::ArgumentErrors(errors) => errors@.map_values(
                |e: ArgumentParseError| e.message_spec(),
            ),
        }
    }

    /// The characters of the rendered verdict, messages joined by newlines.
    pub open spec fn message_spec(self) -> Seq<char> {
        join_nl(self.messages_spec())
    }

    /// Renders this value as report text, joining several field-failure
    /// messages with newlines.
    pub fn message(&self) -> (r: String)
        ensures
            r@ == self.message_spec(),
    {
        match self {
            ParseError::TooFewArguments => "All | ParseError: Too few arguments given".to_owned(),
            ParseError::ArgumentErrors(errors) => {
                let mut msgs: Vec<String> = Vec::new();
                let mut i: usize = 0;
                while i < errors.len()
                    invariant
                        i <= errors@.len(),
                        errors@.len() == errors.len(),
                        msgs@.len() == i,
                        forall|j: int| 0 <= j < i ==> msgs@[j]@ == errors@[j].message_spec(),
                    decreases errors@.len() - i,
                {
                    let m = errors[i].message();
                    msgs.push(m);
                    i += 1;
                }
                proof {
                    assert(msgs.deep_view() =~~= errors@.map_values(
                        |e: ArgumentParseError| e.message_spec(),
                    ));
                }
                join_lines(&msgs)
            },
        }
    }

    /// Collects the failing field evaluations, in the fixed order start,
    /// end, project/task; succeeds when none failed.
    pub fn from_arguments(
        start: &Result<Start, DateTimeParseError>,
        end: &Result<End, DateTimeParseError>,
        project_and_task: &Result<(Project, Task), ProjectError>,
    ) -> (r: Result<(), ParseError>)
        ensures
            ({
                let errs = argument_errors(*start, *end, *project_and_task);
                if errs.len() == 0 {
                    r is Ok
                } else {
                    r matches Err(ParseError::ArgumentErrors(v)) && v@ == errs
                }
            }),
    {
        let mut errors: Vec<ArgumentParseError> = Vec::new();
        if let Err(e) = start {
            errors.push(ArgumentParseError::Start(*e));
        }
        if let Err(e) = end {
            errors.push(ArgumentParseError::End(*e));
        }
        if let Err(e) = project_and_task {
            errors.push(ArgumentParseError::ProjectAndTask(*e));
        }
        proof {
            assert(errors@ =~= argument_errors(*start, *end, *project_and_task));
        }
        if errors.len() == 0 {
            Ok(())
        } else {
            Err(ParseError::ArgumentErrors(errors))
        }
    }

    /// Expands the verdict into line errors, every one tagged with the given
    /// line number, in the order of `messages_spec`.
    pub fn at_line(self, line_number: usize) -> (r: Vec<LineError>)
        ensures
            r@.len() == self.messages_spec().len(),
            forall|i: int|
                0 <= i < r@.len() ==> (#[trigger] r@[i]).0 == line_number && r@[i].1@
                    == self.messages_spec()[i],
    {
        let ghost msgs = self.messages_spec();
        match self {
            ParseError::TooFewArguments => {
                let mut v: Vec<LineError> = Vec::new();
                let message = "All | ParseError: Too few arguments given".to_owned();
                v.push(LineError::new(line_number, message));
                proof {
                    assert(msgs =~= seq![too_few_arguments_message()]);
                }
                v
            },
            ParseError::ArgumentErrors(errors) => {
                proof {
                    assert(msgs.len() == errors@.len());
                }
                let mut v: Vec<LineError> = Vec::new();
                let mut i: usize = 0;
                while i < errors.len()
                    invariant
                        i <= errors@.len(),
                        errors@.len() == errors.len(),
                        msgs.len() == errors@.len(),
                        forall|j: int| 0 <= j < errors@.len() ==> msgs[j] == errors@[
                            j
                        ].message_spec(),
                        v@.len() == i,
                        forall|j: int|
                            0 <= j < i ==> (#[trigger] v@[j]).0 == line_number && v@[j].1@
                                == msgs[j],
                    decreases errors@.len() - i,
                {
                    let m = errors[i].message();
                    v.push(LineError::new(line_number, m));
                    i += 1;
                }
                v
            },
        }
    }
}

} // verus!
