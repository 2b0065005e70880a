//! The data model: groups of subjects, their integer attributes, the traits
//! that can be attached to them, and runnable jobs with their results.

use vstd::prelude::*;

verus! {

/// Groups multiple subjects together.
#[derive(Debug, Clone, PartialEq, Eq, Structural)]
pub struct Group {
    /// The group's unique ID.
    pub id: i32,
}

/// Contains information about a single subject for analysis.
#[derive(Debug, Clone, PartialEq, Eq, Structural)]
pub struct Subject {
    /// The subject's unique ID.
    pub id: i32,
    /// The ID of the group the subject belongs to.
    pub group_id: i32,
    /// The subject's age.
    pub age: i16,
    /// The subject's length of stay.
    pub length_of_stay: i16,
}

/// Contains a single trait which can be applied to subjects.
#[derive(Debug, Clone)]
pub struct SubjectTrait {
    /// The ID of the entity.
    pub id: i32,
    /// The ID of the parent, if one exists.
    pub parent_id: i32,
    /// The name of the trait.
    pub trait_name: String,
}

/// Represents the status of a single job.
#[derive(Debug, Clone, Copy, PartialEq, Eq, Structural)]
pub enum JobStatus {
    /// Represents an inactive job.
    Inactive,
    /// Represents a running job.
    Active,
}

/// Represents a runnable job.
#[derive(Debug, Clone)]
pub struct Job {
    /// The job's unique ID.
    pub id: i32,
    /// The raw code of the script.
    pub code_raw: String,
    /// The job's status.
    pub status: JobStatus,
}

/// Represents the result of running a job.
#[derive(Debug, Clone)]
pub struct JobResult {
    /// The job result's unique ID.
    pub id: i32,
    /// The ID of the job the result is attached to.
    pub job_id: i32,
    /// Whether or not there was an error.
    pub error: bool,
    /// The result as a single line.
    pub single_line: String,
}

impl vstd::std_specs::convert::FromSpecImpl<i16> for JobStatus {
    open spec fn obeys_from_spec() -> bool {
        true
    }

    open spec fn from_spec(status: i16) -> JobStatus {
        if status == 1 {
            JobStatus::Active
        } else {
            JobStatus::Inactive
        }
    }
}

impl From<i16> for JobStatus {
    /// A stored status code of `1` is an active job; every other code,
    /// including unknown ones, is read as inactive.
    fn from(status: i16) -> (r: JobStatus) {
        match status {
            1 => JobStatus::Active,
            _ => JobStatus::Inactive,
        }
    }
}

/// A node with an optional parent.
#[derive(Debug)]
pub struct Node {
    has_parent: bool,
    parent_id: u64,
}

impl Node {
    /// Whether the node has a parent.
    pub closed spec fn spec_has_parent(&self) -> bool {
        self.has_parent
    }

    /// The parent's ID; meaningful only when the node has a parent.
    pub closed spec fn spec_parent_id(&self) -> u64 {
        self.parent_id
    }

    /// Creates a node without a parent.
    pub fn new() -> (n: Node)
        ensures
            !n.spec_has_parent(),
            n.spec_parent_id() == 0,
    {
        Node { has_parent: false, parent_id: 0 }
    }

    /// Creates a node attached to the given parent.
    pub fn new_with_parent(parent_id: u64) -> (n: Node)
        ensures
            n.spec_has_parent(),
            n.spec_parent_id() == parent_id,
    {
        Node { has_parent: true, parent_id }
    }
}

} // verus!
