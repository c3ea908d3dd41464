//! A job status record: the state of one aspect (`what`) of a job.

use vstd::prelude::*;

verus! {

/// Abstract view of a job status record.
pub struct StatusView {
    pub id: i64,
    pub what: Seq<char>,
    pub state: i32,
    pub job_id: i64,
}

/// A job status record.
#[derive(Clone, Debug, PartialEq, Eq)]
pub struct Model {
    pub id: i64,
    pub what: String,
    pub state: i32,
    pub job_id: i64,
}

impl View for Model {
    type V = StatusView;

    open spec fn view(&self) -> StatusView {
        StatusView { id: self.id, what: self.what@, state: self.state, job_id: self.job_id }
    }
}

impl Model {
    /// A copy of this record whose view is the same.
    pub fn duplicate(&self) -> (m: Model)
        ensures
            m@ == self@,
    {
        Model { id: self.id, what: self.what.clone(), state: self.state, job_id: self.job_id }
    }
}

} // verus!
