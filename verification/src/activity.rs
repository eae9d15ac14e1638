//! Activities: the raw typed result of parsing a line, and the fully
//! resolved activity.
use crate::project::Project;
use crate::project_error::ProjectError;
use crate::projects::{Projects, resolve_error, resolved_pair};
use crate::task::Task;
use crate::time::{End, Start, Timestamp};
use vstd::prelude::*;

verus! {

/// An opaque text payload, stored verbatim, never validated.
#[derive(Debug, PartialEq)]
pub struct Description {
    pub text: String,
}

impl Description {
    pub fn new(text: String) -> (r: Self)
        ensures
            r.text == text,
    {
        Self { text }
    }
}

/// The fully validated result of one line: both timestamps, the resolved
/// project and task, and the description.
#[derive(Debug, PartialEq)]
pub struct Activity {
    pub start: Start,
    pub end: End,
    pub project: Project,
    pub task: Task,
    pub description: Description,
}

impl Activity {
    pub fn from(
        start: Start,
        end: End,
        project: Project,
        task: Task,
        description: Description,
    ) -> (r: Self)
        ensures
            r.start == start,
            r.end == end,
            r.project == project,
            r.task == task,
            r.description == description,
    {
        Self { start, end, project, task, description }
    }
}

/// What a well-formed line says before its names are resolved: the parsed
/// timestamps and the raw project, task and description texts.
#[derive(Debug, PartialEq)]
pub struct ParsedActivity {
    pub start: Timestamp,
    pub end: Timestamp,
    pub project: String,
    pub task: String,
    pub description: String,
}

impl ParsedActivity {
    pub fn from(
        start: Timestamp,
        end: Timestamp,
        project: String,
        task: String,
        description: String,
    ) -> (r: Self)
        ensures
            r.start == start,
            r.end == end,
            r.project == project,
            r.task == task,
            r.description == description,
    {
        Self { start, end, project, task, description }
    }

    /// Resolves the raw project and task names against the catalog, turning
    /// this parsed line into a full activity.
    pub fn into_activity(self, projects: &Projects) -> (r: Result<Activity, ProjectError>)
        ensures
            match r {
                Ok(a) => resolve_error(projects.projects@, self.project@, self.task@) is None
                    && resolved_pair(
                    projects.projects@,
                    self.project@,
                    self.task@,
                    a.project,
                    a.task,
                ) && a.start.date == self.start && a.end.date == self.end && a.description.text@
                    == self.description@,
                Err(e) => resolve_error(projects.projects@, self.project@, self.task@)
                    == Some(e),
            },
    {
        let (project, task) = match projects.get_project_with_task(
            self.project.as_str(),
            self.task.as_str(),
        ) {
            Ok(pt) => pt,
            Err(e) => {
                return Err(e);
            },
        };
        Ok(
            Activity::from(
                Start::new(self.start),
                End::new(self.end),
                project,
                task,
                Description::new(self.description),
            ),
        )
    }
}

} // verus!
