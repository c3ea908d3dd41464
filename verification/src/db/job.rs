//! A job record as stored by the server's database.

use vstd::prelude::*;

verus! {

/// Abstract view of a job record.
pub struct JobView {
    pub id: i64,
    pub job_id: Option<i64>,
    pub scheduler_id: Option<i64>,
    pub submitting: bool,
    pub submitting_count: i32,
    pub bundle_hash: Seq<char>,
    pub working_directory: Seq<char>,
    pub running: bool,
    pub deleted: bool,
    pub deleting: bool,
}

/// A job record.
#[derive(Clone, Debug, PartialEq, Eq)]
pub struct Model {
    pub id: i64,
    pub job_id: Option<i64>,
    pub scheduler_id: Option<i64>,
    pub submitting: bool,
    pub submitting_count: i32,
    pub bundle_hash: String,
    pub working_directory: String,
    pub running: bool,
    pub deleted: bool,
    pub deleting: bool,
}

impl View for Model {
    type V = JobView;

    open spec fn view(&self) -> JobView {
        JobView {
            id: self.id,
            job_id: self.job_id,
            scheduler_id: self.scheduler_id,
            submitting: self.submitting,
            submitting_count: self.submitting_count,
            bundle_hash: self.bundle_hash@,
            working_directory: self.working_directory@,
            running: self.running,
            deleted: self.deleted,
            deleting: self.deleting,
        }
    }
}

/// The record of a job that does not exist yet: every field zero, empty or false.
pub open spec fn default_job() -> JobView {
    JobView {
        id: 0,
        job_id: None,
        scheduler_id: None,
        submitting: false,
        submitting_count: 0,
        bundle_hash: Seq::empty(),
        working_directory: Seq::empty(),
        running: false,
        deleted: false,
        deleting: false,
    }
}

impl Default for Model {
    fn default() -> (m: Model)
        ensures
            m@ == default_job(),
    {
        Model {
            id: 0,
            job_id: None,
            scheduler_id: None,
            submitting: false,
            submitting_count: 0,
            bundle_hash: String::new(),
            working_directory: String::new(),
            running: false,
            deleted: false,
            deleting: false,
        }
    }
}

impl Model {
    /// A copy of this record whose view is the same.
    pub fn duplicate(&self) -> (m: Model)
        ensures
            m@ == self@,
    {
        Model {
            id: self.id,
            job_id: self.job_id,
            scheduler_id: self.scheduler_id,
            submitting: self.submitting,
            submitting_count: self.submitting_count,
            bundle_hash: self.bundle_hash.clone(),
            working_directory: self.working_directory.clone(),
            running: self.running,
            deleted: self.deleted,
            deleting: self.deleting,
        }
    }
}

} // verus!
