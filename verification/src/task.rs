//! A task of a project.
use crate::named::Named;
use vstd::prelude::*;

verus! {

/// A task: an identifier and a human-readable label.
#[derive(Debug, PartialEq, Clone)]
pub struct Task {
    pub id: u32,
    pub name: String,
}

impl Named for Task {
    open spec fn name_spec(&self) -> Seq<char> {
        self.name@
    }

    fn name(&self) -> (r: &str) {
        self.name.as_str()
    }
}

/// Builds a task, starting from a placeholder identifier and name.
pub struct TaskBuilder {
    pub id: u32,
    pub name: String,
}

impl TaskBuilder {
    pub fn new() -> (r: Self)
        ensures
            r.id == 1,
            r.name@ == "task"@,
    {
        Self { id: 1, name: "task".to_owned() }
    }

    pub fn with_id(self, id: u32) -> (r: Self)
        ensures
            r.id == id,
            r.name == self.name,
    {
        Self { id, name: self.name }
    }

    pub fn with_name(self, name: String) -> (r: Self)
        ensures
            r.id == self.id,
            r.name == name,
    {
        Self { id: self.id, name }
    }

    pub fn build(self) -> (r: Task)
        ensures
            r.id == self.id,
            r.name == self.name,
    {
        Task { id: self.id, name: self.name }
    }
}

} // verus!
