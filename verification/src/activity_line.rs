//! One raw timesheet line and its parsing: split into fields, evaluate every
//! field, and either build the typed result or collect all field failures.
use crate::activity::ParsedActivity;
use crate::parse_error::{
    ArgumentParseError, DateTimeParseError, ParseError, argument_errors,
};
use crate::project::ProjectWithTasks;
use crate::projects::{Projects, resolve_error};
use crate::text::{split_spec, split_str};
use crate::time::timestamp_of;
use vstd::prelude::*;

verus! {

/// The fixed three-character column delimiter.
pub open spec fn field_separator() -> Seq<char> {
    seq![' ', '|', ' ']
}

/// The field-level failures of a well-formed line, in the fixed order
/// start, end, project/task.  Every field is evaluated; no failure hides
/// another.
pub open spec fn line_field_errors(
    line: Seq<char>,
    projects: Seq<ProjectWithTasks>,
) -> Seq<ArgumentParseError>
    recommends
        split_spec(line, field_separator()).len() >= 7,
{
    let parts = split_spec(line, field_separator());
    (if timestamp_of(parts[1]) is None {
        seq![ArgumentParseError::Start(DateTimeParseError::NotConvertible)]
    } else {
        seq![]
    }) + (if timestamp_of(parts[2]) is None {
        seq![ArgumentParseError::End(DateTimeParseError::NotConvertible)]
    } else {
        seq![]
    }) + (match resolve_error(projects, parts[3], parts[4]) {
        Some(e) => seq![ArgumentParseError::ProjectAndTask(e)],
        None => seq![],
    })
}

/// A well-formed line whose start timestamp cannot be parsed, while its end
/// timestamp parses and its project and task resolve, yields exactly one
/// field error, tagged as the start's.
pub proof fn lemma_start_error_alone(line: Seq<char>, projects: Seq<ProjectWithTasks>)
    requires
        split_spec(line, field_separator()).len() >= 7,
        timestamp_of(split_spec(line, field_separator())[1]) is None,
        timestamp_of(split_spec(line, field_separator())[2]) is Some,
        resolve_error(
            projects,
            split_spec(line, field_separator())[3],
            split_spec(line, field_separator())[4],
        ) is None,
    ensures
        line_field_errors(line, projects) =~= seq![
            ArgumentParseError::Start(DateTimeParseError::NotConvertible),
        ],
{
}

/// When both timestamps of a well-formed line are unparseable and its
/// project and task resolve, exactly two field errors are produced, the
/// start's before the end's: the order is fixed by field, not by discovery.
pub proof fn lemma_start_end_error_order(line: Seq<char>, projects: Seq<ProjectWithTasks>)
    requires
        split_spec(line, field_separator()).len() >= 7,
        timestamp_of(split_spec(line, field_separator())[1]) is None,
        timestamp_of(split_spec(line, field_separator())[2]) is None,
        resolve_error(
            projects,
            split_spec(line, field_separator())[3],
            split_spec(line, field_separator())[4],
        ) is None,
    ensures
        line_field_errors(line, projects) =~= seq![
            ArgumentParseError::Start(DateTimeParseError::NotConvertible),
            ArgumentParseError::End(DateTimeParseError::NotConvertible),
        ],
{
}

/// One raw line of the timesheet.
pub struct ActivityLine {
    pub line: String,
}

impl ActivityLine {
    pub fn new(line: &str) -> (r: Self)
        ensures
            r.line@ == line@,
    {
        ActivityLine { line: line.to_owned() }
    }

    /// Parses the line against the catalog.  A line with fewer than seven
    /// fields fails with the structural verdict at once; otherwise the
    /// start, the end and the project/task pair are each evaluated, and
    /// either all succeed and the typed result is built, or every failure
    /// is reported, in the fixed field order.
    pub fn parse(&self, projects: &Projects) -> (r: Result<ParsedActivity, ParseError>)
        ensures
            ({
                let parts = split_spec(self.line@, field_separator());
                let errs = line_field_errors(self.line@, projects.projects@);
                if parts.len() < 7 {
                    r matches Err(ParseError::TooFewArguments)
                } else if errs.len() == 0 {
                    r matches Ok(a) && Some(a.start) == timestamp_of(parts[1]) && Some(a.end)
                        == timestamp_of(parts[2]) && a.project@ == parts[3] && a.task@ == parts[4]
                        && a.description@ == parts[5]
                } else {
                    r matches Err(ParseError::ArgumentErrors(v)) && v@ == errs
                }
            }),
    {
        proof {
            reveal_strlit(" | ");
            assert(" | "@ =~= field_separator());
        }
        let parts = split_str(self.line.as_str(), " | ");
        let ghost sparts = split_spec(self.line@, field_separator());
        proof {
            assert(parts.deep_view() == sparts);
            assert(parts@.len() == sparts.len());
        }
        if parts.len() < 7 {
            return Err(ParseError::TooFewArguments);
        }
        proof {
            assert(parts@[1]@ == sparts[1]);
            assert(parts@[2]@ == sparts[2]);
            assert(parts@[3]@ == sparts[3]);
            assert(parts@[4]@ == sparts[4]);
            assert(parts@[5]@ == sparts[5]);
        }
        let start_result = crate::time::start(parts[1].as_str());
        let end_result = crate::time::end(parts[2].as_str());
        let project_and_task = projects.get_project_with_task(
            parts[3].as_str(),
            parts[4].as_str(),
        );
        let ghost errs = line_field_errors(self.line@, projects.projects@);
        proof {
            assert(argument_errors(start_result, end_result, project_and_task) =~= errs);
        }
        match ParseError::from_arguments(&start_result, &end_result, &project_and_task) {
            Err(e) => Err(e),
            Ok(_) => {
                proof {
                    assert(errs.len() == 0);
                    assert(start_result is Ok);
                    assert(end_result is Ok);
                }
                let start = match start_result {
                    Ok(s) => s,
                    Err(_) => unreached(),
                };
                let end = match end_result {
                    Ok(e) => e,
                    Err(_) => unreached(),
                };
                Ok(
                    ParsedActivity::from(
                        start.date,
                        end.date,
                        parts[3].clone(),
                        parts[4].clone(),
                        parts[5].clone(),
                    ),
                )
            },
        }
    }
}

} // verus!
