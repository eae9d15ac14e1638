//! The errors a catalog lookup can produce, and their report messages.
use vstd::prelude::*;

verus! {

/// Outcome of a name search that did not find exactly one match.
#[derive(Debug, PartialEq, Eq, Structural, Clone, Copy)]
pub enum SearchError {
    NotFound,
    FoundMoreThanOne,
}

impl SearchError {
    /// The characters of the report message.
    pub open spec fn message_spec(&self) -> Seq<char> {
        match self {
            SearchError::NotFound => "No match was found"@,
            SearchError::FoundMoreThanOne => "More than one match was found"@,
        }
    }

    /// The report message.
    pub fn message(&self) -> (r: String)
        ensures
            r@ == self.message_spec(),
    {
        match self {
            SearchError::NotFound => "No match was found".to_owned(),
            SearchError::FoundMoreThanOne => "More than one match was found".to_owned(),
        }
    }
}

/// A search error attributed to the half of a combined lookup that failed.
#[derive(Debug, PartialEq, Eq, Structural, Clone, Copy)]
pub enum ProjectError {
    Project(SearchError),
    Task(SearchError),
}

impl ProjectError {
    /// The characters of the report message.
    pub open spec fn message_spec(&self) -> Seq<char> {
        match self {
            ProjectError::Project(error) => "Project | ProjectError: "@ + error.message_spec(),
            ProjectError::Task(error) => "Task | ProjectError: "@ + error.message_spec(),
        }
    }

    /// The report message.
    pub fn message(&self) -> (r: String)
        ensures
            r@ == self.message_spec(),
    {
        match self {
            ProjectError::Project(error) => {
                let mut s = "Project | ProjectError: ".to_owned();
                let m = error.message();
                s.append(m.as_str());
                s
            },
            ProjectError::Task(error) => {
                let mut s = "Task | ProjectError: ".to_owned();
                let m = error.message();
                s.append(m.as_str());
                s
            },
        }
    }
}

} // verus!
