//! The ordered task list of a project.
use crate::list_with_names::ListWithNames;
use crate::task::Task;
use vstd::prelude::*;

verus! {

/// The tasks of a project, in insertion order; names need not be unique.
#[derive(Debug, PartialEq, Clone)]
pub struct Tasks {
    pub tasks: Vec<Task>,
}

impl ListWithNames<Task> for Tasks {
    open spec fn items_spec(&self) -> Seq<Task> {
        self.tasks@
    }

    fn items(&self) -> (r: &Vec<Task>) {
        &self.tasks
    }
}

/// Builds a task list.
pub struct TasksBuilder {
    pub tasks: Vec<Task>,
}

impl TasksBuilder {
    pub fn new() -> (r: Self)
        ensures
            r.tasks@ =~= Seq::<Task>::empty(),
    {
        Self::empty()
    }

    pub fn empty() -> (r: Self)
        ensures
            r.tasks@ =~= Seq::<Task>::empty(),
    {
        Self { tasks: Vec::new() }
    }

    pub fn with_tasks(self, tasks: Vec<Task>) -> (r: Self)
        ensures
            r.tasks == tasks,
    {
        Self { tasks }
    }

    pub fn build(self) -> (r: Tasks)
        ensures
            r.tasks == self.tasks,
    {
        Tasks { tasks: self.tasks }
    }
}

} // verus!
