//! Projects: with their task lists, and stripped to identifier and name.
use crate::list_with_names::{ListWithNames, match_count};
use crate::named::{Named, name_matches};
use crate::project_error::ProjectError;
use crate::task::Task;
use crate::tasks::{Tasks, TasksBuilder};
use vstd::prelude::*;

verus! {

/// A project together with its known tasks.
#[derive(Debug, PartialEq, Clone)]
pub struct ProjectWithTasks {
    pub id: u32,
    pub name: String,
    pub tasks: Tasks,
}

impl Named for ProjectWithTasks {
    open spec fn name_spec(&self) -> Seq<char> {
        self.name@
    }

    fn name(&self) -> (r: &str) {
        self.name.as_str()
    }
}

impl ProjectWithTasks {
    /// Finds the single task of this project whose name holds the query,
    /// ignoring case; failure is attributed to the task half of the lookup.
    pub fn find_task(&self, search_string: &str) -> (r: Result<&Task, ProjectError>)
        ensures
            match r {
                Ok(t) => match_count(self.tasks.tasks@, search_string@) == 1 && name_matches(
                    t.name_spec(),
                    search_string@,
                ) && exists|i: int|
                    0 <= i < self.tasks.tasks@.len() && self.tasks.tasks@[i] == *t,
                Err(ProjectError::Task(crate::project_error::SearchError::NotFound)) =>
                    match_count(self.tasks.tasks@, search_string@) == 0,
                Err(ProjectError::Task(crate::project_error::SearchError::FoundMoreThanOne)) =>
                    match_count(self.tasks.tasks@, search_string@) >= 2,
                Err(ProjectError::Project(_)) => false,
            },
    {
        match self.tasks.find(search_string) {
            Ok(t) => Ok(t),
            Err(e) => Err(ProjectError::Task(e)),
        }
    }
}

/// Builds a project with tasks, starting from placeholder values.
pub struct ProjectWithTasksBuilder {
    pub id: u32,
    pub name: String,
    pub tasks: Tasks,
}

impl ProjectWithTasksBuilder {
    pub fn new() -> (r: Self)
        ensures
            r.id == 1,
            r.name@ == "project"@,
            r.tasks.tasks@ =~= Seq::<Task>::empty(),
    {
        Self { id: 1, name: "project".to_owned(), tasks: TasksBuilder::empty().build() }
    }

    pub fn with_name(self, name: String) -> (r: Self)
        ensures
            r.id == self.id,
            r.name == name,
            r.tasks == self.tasks,
    {
        Self { id: self.id, name, tasks: self.tasks }
    }

    pub fn with_id(self, id: u32) -> (r: Self)
        ensures
            r.id == id,
            r.name == self.name,
            r.tasks == self.tasks,
    {
        Self { id, name: self.name, tasks: self.tasks }
    }

    pub fn with_tasks(self, tasks: Tasks) -> (r: Self)
        ensures
            r.id == self.id,
            r.name == self.name,
            r.tasks == tasks,
    {
        Self { id: self.id, name: self.name, tasks }
    }

    pub fn build(self) -> (r: ProjectWithTasks)
        ensures
            r.id == self.id,
            r.name == self.name,
            r.tasks == self.tasks,
    {
        ProjectWithTasks { id: self.id, name: self.name, tasks: self.tasks }
    }
}

/// A resolved project: identifier and name only, tasks stripped.
#[derive(Debug, PartialEq, Clone)]
pub struct Project {
    pub id: u32,
    pub name: String,
}

impl Project {
    /// Strips a project to its identification.
    pub fn new(project_with_tasks: &ProjectWithTasks) -> (r: Self)
        ensures
            r.id == project_with_tasks.id,
            r.name@ == project_with_tasks.name@,
    {
        Self { id: project_with_tasks.id, name: project_with_tasks.name.clone() }
    }
}

/// Builds a stripped project, starting from placeholder values.
pub struct ProjectBuilder {
    pub id: u32,
    pub name: String,
}

impl ProjectBuilder {
    pub fn new() -> (r: Self)
        ensures
            r.id == 1,
            r.name@ == "project"@,
    {
        Self { id: 1, name: "project".to_owned() }
    }

    pub fn with_name(self, name: String) -> (r: Self)
        ensures
            r.id == self.id,
            r.name == name,
    {
        Self { id: self.id, name }
    }

    pub fn with_id(self, id: u32) -> (r: Self)
        ensures
            r.id == id,
            r.name == self.name,
    {
        Self { id, name: self.name }
    }

    pub fn build(self) -> (r: Project)
        ensures
            r.id == self.id,
            r.name == self.name,
    {
        Project { id: self.id, name: self.name }
    }
}

} // verus!
