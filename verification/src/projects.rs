//! The catalog of known projects, and the combined project-and-task lookup.
use crate::list_with_names::{
    ListWithNames, lemma_match_exists, lemma_match_unique, match_count,
};
use crate::named::{Named, name_matches};
use crate::project::{Project, ProjectWithTasks};
use crate::project_error::{ProjectError, SearchError};
use crate::task::Task;
use vstd::prelude::*;

verus! {

/// The error, if any, of resolving a project query and then a task query
/// against a catalog: the project is resolved first, and a task is only
/// looked for inside the single matching project.
pub open spec fn resolve_error(
    projects: Seq<ProjectWithTasks>,
    project_query: Seq<char>,
    task_query: Seq<char>,
) -> Option<ProjectError> {
    if match_count(projects, project_query) == 0 {
        Some(ProjectError::Project(SearchError::NotFound))
    } else if match_count(projects, project_query) != 1 {
        Some(ProjectError::Project(SearchError::FoundMoreThanOne))
    } else {
        let i = choose|i: int|
            0 <= i < projects.len() && name_matches(
                #[trigger] projects[i].name_spec(),
                project_query,
            );
        if match_count(projects[i].tasks.tasks@, task_query) == 0 {
            Some(ProjectError::Task(SearchError::NotFound))
        } else if match_count(projects[i].tasks.tasks@, task_query) != 1 {
            Some(ProjectError::Task(SearchError::FoundMoreThanOne))
        } else {
            None
        }
    }
}

/// A successful resolution: some project matches the project query, the
/// returned project carries its identification, and some task of that
/// project matches the task query and is returned.
pub open spec fn resolved_pair(
    projects: Seq<ProjectWithTasks>,
    project_query: Seq<char>,
    task_query: Seq<char>,
    project: Project,
    task: Task,
) -> bool {
    exists|i: int|
        0 <= i < projects.len() && name_matches(#[trigger] projects[i].name_spec(), project_query)
            && project.id == projects[i].id && project.name@ == projects[i].name@ && exists|j: int|
            0 <= j < projects[i].tasks.tasks@.len() && name_matches(
                #[trigger] projects[i].tasks.tasks@[j].name_spec(),
                task_query,
            ) && task.id == projects[i].tasks.tasks@[j].id && task.name@
                == projects[i].tasks.tasks@[j].name@
}

/// The catalog: an ordered collection of projects, read-only during a
/// validation run.
#[derive(Debug, PartialEq)]
pub struct Projects {
    pub projects: Vec<ProjectWithTasks>,
}

impl ListWithNames<ProjectWithTasks> for Projects {
    open spec fn items_spec(&self) -> Seq<ProjectWithTasks> {
        self.projects@
    }

    fn items(&self) -> (r: &Vec<ProjectWithTasks>) {
        &self.projects
    }
}

impl Projects {
    /// Resolves a project query, then a task query inside the resolved
    /// project.  Succeeds exactly when both queries have a single match;
    /// the returned project is stripped to its identification.
    pub fn get_project_with_task(
        &self,
        project_string: &str,
        task_string: &str,
    ) -> (r: Result<(Project, Task), ProjectError>)
        ensures
            match r {
                Ok((project, task)) => resolve_error(
                    self.projects@,
                    project_string@,
                    task_string@,
                ) is None && resolved_pair(
                    self.projects@,
                    project_string@,
                    task_string@,
                    project,
                    task,
                ),
                Err(e) => resolve_error(self.projects@, project_string@, task_string@)
                    == Some(e),
            },
    {
        let project_with_tasks = match self.find(project_string) {
            Ok(p) => p,
            Err(e) => {
                return Err(ProjectError::Project(e));
            },
        };
        proof {
            lemma_match_exists(self.projects@, project_string@);
            let c = choose|i: int|
                0 <= i < self.projects@.len() && name_matches(
                    #[trigger] self.projects@[i].name_spec(),
                    project_string@,
                );
            let w = choose|i: int|
                0 <= i < self.projects@.len() && self.projects@[i] == *project_with_tasks;
            lemma_match_unique(self.projects@, project_string@, c, w);
        }
        let project = Project::new(project_with_tasks);
        let task = match project_with_tasks.find_task(task_string) {
            Ok(t) => t,
            Err(e) => {
                return Err(e);
            },
        };
        Ok((project, Task { id: task.id, name: task.name.clone() }))
    }
}

/// Builds a catalog.
pub struct ProjectsBuilder {
    pub projects: Vec<ProjectWithTasks>,
}

impl ProjectsBuilder {
    pub fn new() -> (r: Self)
        ensures
            r.projects@ =~= Seq::<ProjectWithTasks>::empty(),
    {
        Self::empty()
    }

    pub fn empty() -> (r: Self)
        ensures
            r.projects@ =~= Seq::<ProjectWithTasks>::empty(),
    {
        Self { projects: Vec::new() }
    }

    pub fn with_projects(self, projects: Vec<ProjectWithTasks>) -> (r: Self)
        ensures
            r.projects == projects,
    {
        Self { projects }
    }

    pub fn build(self) -> (r: Projects)
        ensures
            r.projects == self.projects,
    {
        Projects { projects: self.projects }
    }
}

} // verus!
