//! The shape of an external tracking system's project export, and its
//! conversion into the catalog.  Reading the export document itself is an
//! outer concern; this module only converts the typed shape.
use crate::project::{ProjectWithTasks, ProjectWithTasksBuilder};
use crate::projects::{Projects, ProjectsBuilder};
use crate::task::{Task, TaskBuilder};
use crate::tasks::{Tasks, TasksBuilder};
use vstd::prelude::*;

verus! {

/// One task assignment of the export: the task's identification.
#[derive(Debug, PartialEq)]
pub struct HarvestTask {
    pub task: HarvestTaskIdentification,
}

/// A task's identifier and name as the export carries them.
#[derive(Debug, PartialEq)]
pub struct HarvestTaskIdentification {
    pub id: u32,
    pub name: String,
}

impl HarvestTask {
    /// Converts the exported task into a catalog task.
    pub fn into_task(self) -> (r: Task)
        ensures
            r.id == self.task.id,
            r.name == self.task.name,
    {
        TaskBuilder::new().with_id(self.task.id).with_name(self.task.name).build()
    }
}

/// The task assignments of one exported project, on their own.
#[derive(Debug, PartialEq)]
pub struct HarvestTaskAssignments {
    pub task_assignments: Vec<HarvestTask>,
}

impl HarvestTaskAssignments {
    /// Converts the exported task assignments into a task list, in export
    /// order.
    pub fn to_tasks(self) -> (r: Tasks)
        ensures
            r.tasks@.len() == self.task_assignments@.len(),
            forall|i: int|
                0 <= i < self.task_assignments@.len() ==> (#[trigger] r.tasks@[i]).id
                    == self.task_assignments@[i].task.id && r.tasks@[i].name
                    == self.task_assignments@[i].task.name,
    {
        let ghost assignments = self.task_assignments@;
        let mut tasks: Vec<Task> = Vec::new();
        let mut remaining = self.task_assignments;
        while remaining.len() > 0
            invariant
                remaining@ =~= assignments.skip(tasks@.len() as int),
                tasks@.len() <= assignments.len(),
                forall|i: int|
                    0 <= i < tasks@.len() ==> (#[trigger] tasks@[i]).id == assignments[
                        i
                    ].task.id && tasks@[i].name == assignments[i].task.name,
            decreases remaining@.len(),
        {
            let ghost k = tasks@.len() as int;
            let harvest_task = remaining.remove(0);
            proof {
                assert(harvest_task == assignments.skip(k)[0]);
                assert(assignments.skip(k)[0] == assignments[k]);
                assert(assignments.skip(k).remove(0) =~= assignments.skip(k + 1));
            }
            let task = harvest_task.into_task();
            tasks.push(task);
        }
        TasksBuilder::new().with_tasks(tasks).build()
    }
}

/// One project assignment of the export: the project's identification and
/// its task assignments.
#[derive(Debug, PartialEq)]
pub struct HarvestProject {
    pub project: HarvestProjectIdentification,
    pub task_assignments: Vec<HarvestTask>,
}

/// The catalog project `p` is the faithful conversion of the exported
/// project `hp`: same identification, and the same tasks in the same order.
pub open spec fn converted_project(hp: HarvestProject, p: ProjectWithTasks) -> bool {
    p.id == hp.project.id && p.name == hp.project.name && p.tasks.tasks@.len()
        == hp.task_assignments@.len() && forall|j: int|
        0 <= j < hp.task_assignments@.len() ==> (#[trigger] p.tasks.tasks@[j]).id
            == hp.task_assignments@[j].task.id && p.tasks.tasks@[j].name
            == hp.task_assignments@[j].task.name
}

/// A project's identifier and name as the export carries them.
#[derive(Debug, PartialEq)]
pub struct HarvestProjectIdentification {
    pub id: u32,
    pub name: String,
}

impl HarvestProject {
    /// Converts the exported project and its task assignments into a
    /// catalog project, tasks in export order.
    pub fn into_project(self) -> (r: ProjectWithTasks)
        ensures
            converted_project(self, r),
    {
        let ghost assignments = self.task_assignments@;
        let mut tasks: Vec<Task> = Vec::new();
        let mut remaining = self.task_assignments;
        while remaining.len() > 0
            invariant
                remaining@ =~= assignments.skip(tasks@.len() as int),
                tasks@.len() <= assignments.len(),
                forall|i: int|
                    0 <= i < tasks@.len() ==> (#[trigger] tasks@[i]).id == assignments[
                        i
                    ].task.id && tasks@[i].name == assignments[i].task.name,
            decreases remaining@.len(),
        {
            let ghost k = tasks@.len() as int;
            let harvest_task = remaining.remove(0);
            proof {
                assert(harvest_task == assignments.skip(k)[0]);
                assert(assignments.skip(k)[0] == assignments[k]);
                assert(assignments.skip(k).remove(0) =~= assignments.skip(k + 1));
            }
            let task = harvest_task.into_task();
            tasks.push(task);
        }
        ProjectWithTasksBuilder::new().with_name(self.project.name).with_id(
            self.project.id,
        ).with_tasks(TasksBuilder::new().with_tasks(tasks).build()).build()
    }
}

/// The whole export: a list of project assignments.
#[derive(Debug, PartialEq)]
pub struct HarvestProjectAssignments {
    pub project_assignments: Vec<HarvestProject>,
}

impl HarvestProjectAssignments {
    /// Converts the export into the catalog, projects in export order, each
    /// project's tasks in export order.
    pub fn to_projects(self) -> (r: Projects)
        ensures
            r.projects@.len() == self.project_assignments@.len(),
            forall|i: int|
                0 <= i < self.project_assignments@.len() ==> converted_project(
                    self.project_assignments@[i],
                    #[trigger] r.projects@[i],
                ),
    {
        let ghost assignments = self.project_assignments@;
        let mut projects: Vec<ProjectWithTasks> = Vec::new();
        let mut remaining = self.project_assignments;
        while remaining.len() > 0
            invariant
                remaining@ =~= assignments.skip(projects@.len() as int),
                projects@.len() <= assignments.len(),
                forall|i: int|
                    0 <= i < projects@.len() ==> converted_project(
                        assignments[i],
                        #[trigger] projects@[i],
                    ),
            decreases remaining@.len(),
        {
            let ghost k = projects@.len() as int;
            let harvest_project = remaining.remove(0);
            proof {
                assert(harvest_project == assignments.skip(k)[0]);
                assert(assignments.skip(k)[0] == assignments[k]);
                assert(assignments.skip(k).remove(0) =~= assignments.skip(k + 1));
            }
            let project = harvest_project.into_project();
            projects.push(project);
        }
        ProjectsBuilder::new().with_projects(projects).build()
    }
}

} // verus!
