//! Job lifecycle decisions: submitting a job, folding the statuses a bundle
//! reports into the database, detecting completion, cancelling and deleting.
//!
//! The caller performs the database requests, bundle calls and sends; each
//! function here decides what the next step is from the values it has.

use vstd::prelude::*;
use crate::db::job;
use crate::db::jobstatus;
use crate::message::{
    fresh_spec, pop_string_spec, pop_u32_spec, push_string_spec, push_u32_spec, Message,
    MessageView, Priority, CANCELLED, COMPLETED, DELETED, ERROR, JOB_COMPLETION_SOURCE, RUNNING,
    SUBMITTED, SYSTEM_SOURCE, UPDATE_JOB,
};
use crate::text::{i64_to_decimal, signed_decimal};

verus! {

/// Submission checks after which a job still marked as submitting is assumed lost.
pub const MAX_SUBMIT_COUNT: i32 = 60;

/// Name of the archive written into a finished job's working directory.
pub const ARCHIVE_FILE_NAME: &'static str = "archive.tar.gz";

pub const SUBMIT_FAILED_TEXT: &'static str = "Unable to submit job. Please check the logs as to why.";
pub const SUBMITTED_TEXT: &'static str = "Job submitted successfully";
pub const COMPLETED_TEXT: &'static str = "Job has completed";
pub const CANCELLED_TEXT: &'static str = "Job has been cancelled";
pub const DELETED_TEXT: &'static str = "Job has been deleted";

/// A job update to send to the server.
pub struct JobUpdate {
    pub job_id: i64,
    pub source: String,
    pub status: u32,
    pub message: String,
}

/// Abstract view of a job update.
pub struct JobUpdateView {
    pub job_id: i64,
    pub source: Seq<char>,
    pub status: u32,
    pub message: Seq<char>,
}

impl View for JobUpdate {
    type V = JobUpdateView;

    open spec fn view(&self) -> JobUpdateView {
        JobUpdateView {
            job_id: self.job_id,
            source: self.source@,
            status: self.status,
            message: self.message@,
        }
    }
}

/// The update with the given fields.
pub open spec fn update_view(job_id: i64, source: Seq<char>, status: u32, message: Seq<char>) -> JobUpdateView {
    JobUpdateView { job_id, source, status, message }
}

fn job_update(job_id: i64, source: &str, status: u32, message: &str) -> (u: JobUpdate)
    ensures
        u@ == update_view(job_id, source@, status, message@),
{
    JobUpdate { job_id, source: source.to_owned(), status, message: message.to_owned() }
}

/// The wire form of a job update: sent from the job's id, carrying the id
/// (as a `u32`), the source, the status and the message.
pub open spec fn job_update_message_spec(u: JobUpdateView) -> MessageView {
    push_string_spec(
        push_u32_spec(
            push_string_spec(
                push_u32_spec(fresh_spec(UPDATE_JOB, Priority::Medium, signed_decimal(u.job_id as int)), u.job_id as u32),
                u.source,
            ),
            u.status,
        ),
        u.message,
    )
}

/// Builds the message for a job update.
pub fn build_job_update(update: &JobUpdate) -> (m: Message)
    ensures
        m@ == job_update_message_spec(update@),
{
    let source = i64_to_decimal(update.job_id);
    let mut msg = Message::new(UPDATE_JOB, Priority::Medium, source.as_str());
    msg.push_uint(update.job_id as u32);
    msg.push_string(update.source.as_str());
    msg.push_uint(update.status);
    msg.push_string(update.message.as_str());
    msg
}

/// A job submission request.
pub struct SubmitRequest {
    pub job_id: i64,
    pub bundle_hash: String,
    pub params: String,
}

/// Decodes a job submission: job id, bundle hash, parameters.
pub fn parse_submit_request(msg: &mut Message) -> (r: SubmitRequest)
    ensures
        ({
            let (job_id, m1) = pop_u32_spec(old(msg)@);
            let (bundle_hash, m2) = pop_string_spec(m1);
            let (params, m3) = pop_string_spec(m2);
            &&& r.job_id == job_id as i64
            &&& r.bundle_hash@ == bundle_hash
            &&& r.params@ == params
            &&& final(msg)@ == m3
        }),
{
    let job_id = msg.pop_uint() as i64;
    let bundle_hash = msg.pop_string();
    let params = msg.pop_string();
    SubmitRequest { job_id, bundle_hash, params }
}

/// Decodes the job id of a cancel or delete request.
pub fn parse_job_id_request(msg: &mut Message) -> (job_id: i64)
    ensures
        job_id == pop_u32_spec(old(msg)@).0 as i64,
        final(msg)@ == pop_u32_spec(old(msg)@).1,
{
    msg.pop_uint() as i64
}

/// What a submission request leads to.
pub enum SubmitPlan {
    /// The job is still being submitted: save the bumped check count and stop.
    SaveOnly(job::Model),
    /// The job was already submitted: check its status (with notification) instead.
    CheckStatus(job::Model),
    /// Save this record (now marked as submitting) and submit the job.
    Submit(job::Model),
}

/// The job record after a submission check of a job marked as submitting:
/// the check count goes up, and at the limit it is reset and the job's
/// server id cleared so that the job is submitted again.
pub open spec fn bumped_submit_count(j: job::JobView) -> job::JobView {
    let count = j.submitting_count + 1;
    if count >= MAX_SUBMIT_COUNT {
        job::JobView { submitting_count: 0, job_id: Some(0), ..j }
    } else {
        job::JobView { submitting_count: count as i32, ..j }
    }
}

/// Decides what to do with a submission of `job_id` for `bundle_hash`,
/// given the job's current record.
pub fn plan_submit(job: job::Model, job_id: i64, bundle_hash: &str) -> (p: SubmitPlan)
    requires
        job.submitting ==> job.submitting_count < i32::MAX,
    ensures
        ({
            let j1 = if job@.submitting { bumped_submit_count(job@) } else { job@ };
            if job@.submitting && job@.submitting_count + 1 < MAX_SUBMIT_COUNT {
                p matches SubmitPlan::SaveOnly(s) && s@ == j1 && s@ == (job::JobView {
                    submitting_count: (job@.submitting_count + 1) as i32,
                    ..job@
                })
            } else if job_id != 0 && j1.job_id == Some(job_id) {
                p matches SubmitPlan::CheckStatus(s) && s@ == j1
            } else {
                p matches SubmitPlan::Submit(s) && s@ == (job::JobView {
                    job_id: Some(job_id),
                    bundle_hash: bundle_hash@,
                    submitting: true,
                    working_directory: Seq::empty(),
                    ..j1
                })
            }
        }),
{
    let mut job = job;
    if job.submitting {
        job.submitting_count = job.submitting_count + 1;
        if job.submitting_count >= MAX_SUBMIT_COUNT {
            job.submitting_count = 0;
            job.job_id = Some(0);
        } else {
            return SubmitPlan::SaveOnly(job);
        }
    }
    if job_id != 0 && job.job_id == Some(job_id) {
        return SubmitPlan::CheckStatus(job);
    }
    job.job_id = Some(job_id);
    job.bundle_hash = bundle_hash.to_owned();
    job.submitting = true;
    job.working_directory = String::new();
    SubmitPlan::Submit(job)
}

/// A job marked as submitting never carries a check count at or above the limit
/// once a submission check has run.
pub proof fn law_submit_count_below_limit(j: job::JobView)
    requires
        j.submitting,
        j.submitting_count < i32::MAX,
    ensures
        bumped_submit_count(j).submitting_count < MAX_SUBMIT_COUNT,
        bumped_submit_count(j).submitting_count >= 0 || j.submitting_count < 0,
{
}

/// A submission check of a job marked as submitting counts up by one and
/// changes nothing else while the count stays below the limit of 60; only
/// when the count reaches the limit is it reset to 0 and the job's server id
/// cleared, so that the job is submitted again.
pub proof fn law_submit_check_counts_to_limit(j: job::JobView)
    requires
        j.submitting,
        j.submitting_count < i32::MAX,
    ensures
        MAX_SUBMIT_COUNT == 60,
        j.submitting_count + 1 < 60 ==> bumped_submit_count(j) == (job::JobView {
            submitting_count: (j.submitting_count + 1) as i32,
            ..j
        }),
        j.submitting_count + 1 >= 60 ==> bumped_submit_count(j) == (job::JobView {
            submitting_count: 0,
            job_id: Some(0),
            ..j
        }),
        bumped_submit_count(j).job_id != j.job_id ==> j.submitting_count + 1 >= 60,
{
}

/// What a finished submission leads to.
pub enum SubmitOutcome {
    /// The bundle could not submit the job: delete record `record_id` and
    /// send both updates.
    Failed { record_id: i64, updates: Vec<JobUpdate> },
    /// The job was submitted: save the record and send the update.
    Submitted { job: job::Model, update: JobUpdate },
}

/// Decides the outcome of a submission from the scheduler id the bundle
/// returned (0 means the submission failed).
pub fn submit_outcome(job: job::Model, job_id: i64, scheduler_id: u64) -> (o: SubmitOutcome)
    ensures
        scheduler_id == 0 ==> (o matches SubmitOutcome::Failed { record_id, updates } && record_id
            == job.id && updates@.len() == 2 && updates@[0]@ == update_view(
            job_id,
            SYSTEM_SOURCE@,
            ERROR,
            SUBMIT_FAILED_TEXT@,
        ) && updates@[1]@ == update_view(job_id, JOB_COMPLETION_SOURCE@, ERROR, SUBMIT_FAILED_TEXT@)),
        scheduler_id != 0 ==> (o matches SubmitOutcome::Submitted { job: s, update } && s@ == (
        job::JobView {
            scheduler_id: Some(scheduler_id as i64),
            submitting: false,
            running: true,
            ..job@
        }) && update@ == update_view(job_id, SYSTEM_SOURCE@, SUBMITTED, SUBMITTED_TEXT@)),
{
    let mut job = job;
    job.scheduler_id = Some(scheduler_id as i64);
    if scheduler_id == 0 {
        let mut updates: Vec<JobUpdate> = Vec::new();
        updates.push(job_update(job_id, SYSTEM_SOURCE, ERROR, SUBMIT_FAILED_TEXT));
        updates.push(job_update(job_id, JOB_COMPLETION_SOURCE, ERROR, SUBMIT_FAILED_TEXT));
        SubmitOutcome::Failed { record_id: job.id, updates }
    } else {
        job.submitting = false;
        job.running = true;
        SubmitOutcome::Submitted {
            job,
            update: job_update(job_id, SYSTEM_SOURCE, SUBMITTED, SUBMITTED_TEXT),
        }
    }
}

/// The `status` field of one entry of a bundle's status report.
pub enum StatusField {
    /// Missing or `null`: the entry is skipped.
    Null,
    /// An unsigned integer.
    Unsigned(u64),
    /// Any other value, read as 0.
    NotUnsigned,
}

/// One entry of a bundle's status report.
pub struct StatusEntry {
    pub info: String,
    pub status: StatusField,
    pub what: String,
}

/// What to do for one entry of a status report.
pub struct EntryDecision {
    /// Duplicate status records to delete (empty for none).
    pub delete_ids: Vec<i64>,
    /// The status record to save, if the status changed (or a notification is forced).
    pub save: Option<jobstatus::Model>,
    /// The update to send along with the save.
    pub update: Option<JobUpdate>,
}

/// The status value an entry reports (non-integers read as 0, truncated to 32 bits).
pub open spec fn entry_status(f: StatusField) -> u32 {
    match f {
        StatusField::Unsigned(v) => v as u32,
        _ => 0,
    }
}

/// Ids of a sequence of status records.
pub open spec fn status_ids(s: Seq<jobstatus::Model>) -> Seq<i64> {
    s.map_values(|m: jobstatus::Model| m.id)
}

fn ids_of(statuses: &Vec<jobstatus::Model>) -> (ids: Vec<i64>)
    ensures
        ids@ == status_ids(statuses@),
{
    let mut ids: Vec<i64> = Vec::new();
    let mut i: usize = 0;
    while i < statuses.len()
        invariant
            i <= statuses@.len(),
            ids@ == status_ids(statuses@).take(i as int),
        decreases statuses@.len() - i,
    {
        ids.push(statuses[i].id);
        assert(status_ids(statuses@).take(i as int + 1) =~= status_ids(statuses@).take(i as int).push(statuses@[i as int].id));
        i = i + 1;
    }
    assert(status_ids(statuses@).take(statuses@.len() as int) =~= status_ids(statuses@));
    ids
}

/// Decides how one reported status is recorded. `existing` are the job's
/// stored records for the entry's `what`; more than one is a duplicate set
/// that is deleted and treated as none. The status is saved (into the stored
/// record, or a new one for job record `record_id`) and announced when no
/// record exists, the state differs, or a notification is forced.
pub fn decide_status_entry(
    record_id: i64,
    job_id: i64,
    entry: &StatusEntry,
    existing: Vec<jobstatus::Model>,
    force_notification: bool,
) -> (d: EntryDecision)
    ensures
        match entry.status {
            StatusField::Null => d.delete_ids@.len() == 0 && d.save is None && d.update is None,
            _ => {
                let status = entry_status(entry.status);
                let dup = existing@.len() > 1;
                let current = if dup { Seq::<jobstatus::Model>::empty() } else { existing@ };
                &&& d.delete_ids@ == (if dup { status_ids(existing@) } else { Seq::<i64>::empty() })
                &&& if force_notification || current.len() == 0 || status != current[0].state as u32 {
                    &&& d.save matches Some(s) && s@ == (if current.len() == 0 {
                        jobstatus::StatusView { id: 0, job_id: record_id, what: entry.what@, state: status as i32 }
                    } else {
                        jobstatus::StatusView { what: entry.what@, state: status as i32, ..current[0]@ }
                    })
                    &&& d.update matches Some(u) && u@ == update_view(job_id, entry.what@, status, entry.info@)
                } else {
                    d.save is None && d.update is None
                }
            },
        },
{
    let status: u32 = match entry.status {
        StatusField::Null => {
            return EntryDecision { delete_ids: Vec::new(), save: None, update: None };
        },
        StatusField::Unsigned(v) => v as u32,
        StatusField::NotUnsigned => 0,
    };
    let mut delete_ids: Vec<i64> = Vec::new();
    let mut current = existing;
    if current.len() > 1 {
        delete_ids = ids_of(&current);
        current = Vec::new();
    }
    if force_notification || current.len() == 0 || status != current[0].state as u32 {
        let mut item = if current.len() == 0 {
            jobstatus::Model { id: 0, job_id: record_id, what: entry.what.clone(), state: status as i32 }
        } else {
            current[0].duplicate()
        };
        item.what = entry.what.clone();
        item.state = status as i32;
        let update = JobUpdate {
            job_id,
            source: entry.what.clone(),
            status,
            message: entry.info.clone(),
        };
        EntryDecision { delete_ids, save: Some(item), update: Some(update) }
    } else {
        EntryDecision { delete_ids, save: None, update: None }
    }
}

/// The error state of a job: the last stored state above `RUNNING` that is
/// not `COMPLETED`, or 0 when there is none.
pub open spec fn job_error_spec(states: Seq<jobstatus::StatusView>) -> u32
    decreases states.len(),
{
    if states.len() == 0 {
        0
    } else {
        let s = states.last().state as u32;
        if s > RUNNING && s != COMPLETED {
            s
        } else {
            job_error_spec(states.drop_last())
        }
    }
}

/// Whether every stored state is `COMPLETED`.
pub open spec fn all_completed(states: Seq<jobstatus::StatusView>) -> bool {
    forall|i: int| 0 <= i < states.len() ==> #[trigger] states[i].state as u32 == COMPLETED
}

/// Views of status records.
pub open spec fn views(s: Seq<jobstatus::Model>) -> Seq<jobstatus::StatusView> {
    s.map_values(|m: jobstatus::Model| m@)
}

/// The job's error state from its stored statuses.
pub fn job_error(statuses: &Vec<jobstatus::Model>) -> (e: u32)
    ensures
        e == job_error_spec(views(statuses@)),
{
    let mut i: usize = statuses.len();
    assert(views(statuses@).take(i as int) =~= views(statuses@));
    while i > 0
        invariant
            i <= statuses@.len(),
            job_error_spec(views(statuses@)) == job_error_spec(views(statuses@).take(i as int)),
        decreases i,
    {
        let s = statuses[i - 1].state as u32;
        assert(views(statuses@).take(i as int).drop_last() =~= views(statuses@).take(i as int - 1));
        assert(views(statuses@).take(i as int).last() == statuses@[i - 1]@);
        if s > RUNNING && s != COMPLETED {
            return s;
        }
        i = i - 1;
    }
    assert(views(statuses@).take(0) =~= Seq::<jobstatus::StatusView>::empty());
    0
}

/// Whether every stored status is `COMPLETED`.
pub fn job_complete(statuses: &Vec<jobstatus::Model>) -> (b: bool)
    ensures
        b == all_completed(views(statuses@)),
        b <==> (forall|i: int| 0 <= i < statuses@.len() ==> #[trigger] statuses@[i].state as u32 == COMPLETED),
{
    let mut i: usize = 0;
    while i < statuses.len()
        invariant
            i <= statuses@.len(),
            forall|j: int| 0 <= j < i ==> #[trigger] statuses@[j].state as u32 == COMPLETED,
        decreases statuses@.len() - i,
    {
        if statuses[i].state as u32 != COMPLETED {
            assert(views(statuses@)[i as int].state as u32 != COMPLETED);
            return false;
        }
        i = i + 1;
    }
    assert forall|j: int| 0 <= j < views(statuses@).len() implies #[trigger] views(statuses@)[j].state as u32 == COMPLETED by {
        assert(views(statuses@)[j] == statuses@[j]@);
    }
    true
}

/// A job counts as completed only when every one of its statuses is
/// `COMPLETED`: none is for no status, one status that is not `COMPLETED`
/// (wherever it stands) rules completion out, and adding a status keeps
/// completion exactly when the added status is `COMPLETED`.
pub proof fn law_completion_needs_every_status(
    statuses: Seq<jobstatus::StatusView>,
    extra: jobstatus::StatusView,
    i: int,
)
    ensures
        all_completed(Seq::<jobstatus::StatusView>::empty()),
        0 <= i < statuses.len() && statuses[i].state as u32 != COMPLETED ==> !all_completed(statuses),
        all_completed(statuses.push(extra)) <==> (all_completed(statuses) && extra.state as u32
            == COMPLETED),
{
    if 0 <= i < statuses.len() && statuses[i].state as u32 != COMPLETED {
        assert(!all_completed(statuses));
    }
    let t = statuses.push(extra);
    if all_completed(t) {
        assert(t[statuses.len() as int] == extra);
        assert forall|k: int| 0 <= k < statuses.len() implies #[trigger] statuses[k].state as u32
            == COMPLETED by {
            assert(t[k] == statuses[k]);
        }
    }
    if all_completed(statuses) && extra.state as u32 == COMPLETED {
        assert forall|k: int| 0 <= k < t.len() implies #[trigger] t[k].state as u32 == COMPLETED by {
            if k < statuses.len() {
                assert(t[k] == statuses[k]);
            }
        }
    }
}

/// What completing a job involves: save the record as no longer running,
/// archive its directory, and send the completion update.
pub struct Completion {
    pub job: job::Model,
    pub update: JobUpdate,
}

/// Decides whether a job has finished after a status check: it has when a
/// stored status is an error, or the bundle reports completion and every
/// stored status is `COMPLETED`. The completion update carries the error
/// state, or `COMPLETED`.
pub fn decide_completion(
    job: &job::Model,
    job_id: i64,
    statuses: &Vec<jobstatus::Model>,
    bundle_reports_complete: bool,
) -> (c: Option<Completion>)
    ensures
        ({
            let err = job_error_spec(views(statuses@));
            if err != 0 || (bundle_reports_complete && all_completed(views(statuses@))) {
                c matches Some(comp) && comp.job@ == (job::JobView { running: false, ..job@ })
                    && comp.update@ == update_view(
                    job_id,
                    JOB_COMPLETION_SOURCE@,
                    if err != 0 { err } else { COMPLETED },
                    COMPLETED_TEXT@,
                )
            } else {
                c is None
            }
        }),
{
    let err = job_error(statuses);
    let complete = job_complete(statuses);
    if err != 0 || (bundle_reports_complete && complete) {
        let mut j = job.duplicate();
        j.running = false;
        let status = if err != 0 { err } else { COMPLETED };
        Some(Completion { job: j, update: job_update(job_id, JOB_COMPLETION_SOURCE, status, COMPLETED_TEXT) })
    } else {
        None
    }
}

/// A job whose error state is non-zero is always completed by a status check.
pub proof fn law_error_state_completes(statuses: Seq<jobstatus::StatusView>)
    requires
        exists|i: int| 0 <= i < statuses.len() && (#[trigger] statuses[i].state as u32) > RUNNING
            && statuses[i].state as u32 != COMPLETED,
    ensures
        job_error_spec(statuses) != 0,
        job_error_spec(statuses) > RUNNING,
    decreases statuses.len(),
{
    let i = choose|i: int| 0 <= i < statuses.len() && (#[trigger] statuses[i].state as u32) > RUNNING
        && statuses[i].state as u32 != COMPLETED;
    let s = statuses.last().state as u32;
    if !(s > RUNNING && s != COMPLETED) {
        assert(i != statuses.len() - 1);
        assert(statuses.drop_last()[i] == statuses[i]);
        law_error_state_completes(statuses.drop_last());
    }
}

/// Whether a stored status already records the cancellation.
pub fn is_cancelled(statuses: &Vec<jobstatus::Model>) -> (b: bool)
    ensures
        b == exists|i: int| 0 <= i < statuses@.len() && #[trigger] statuses@[i].state as u32 == CANCELLED,
{
    let mut i: usize = 0;
    while i < statuses.len()
        invariant
            i <= statuses@.len(),
            forall|j: int| 0 <= j < i ==> #[trigger] statuses@[j].state as u32 != CANCELLED,
        decreases statuses@.len() - i,
    {
        if statuses[i].state as u32 == CANCELLED {
            return true;
        }
        i = i + 1;
    }
    false
}

/// What a cancel request does before asking the bundle.
pub enum CancelPrecheck {
    /// The job can be cancelled.
    Proceed,
    /// The job cannot be cancelled; send the update when there is one.
    Abort(Option<JobUpdate>),
}

/// Checks a cancel request: a job that does not exist, is not running or is
/// still being submitted is not cancelled; unless it is being submitted, the
/// server is told it is cancelled.
pub fn cancel_precheck(job: &job::Model, job_id: i64) -> (c: CancelPrecheck)
    ensures
        if job.id == 0 || !job.running || job.submitting {
            c matches CancelPrecheck::Abort(u) && if job.submitting {
                u is None
            } else {
                u matches Some(up) && up@ == update_view(job_id, JOB_COMPLETION_SOURCE@, CANCELLED, CANCELLED_TEXT@)
            }
        } else {
            c is Proceed
        },
{
    if job.id == 0 || !job.running || job.submitting {
        if !job.submitting {
            CancelPrecheck::Abort(Some(job_update(job_id, JOB_COMPLETION_SOURCE, CANCELLED, CANCELLED_TEXT)))
        } else {
            CancelPrecheck::Abort(None)
        }
    } else {
        CancelPrecheck::Proceed
    }
}

/// The record reloaded after a step of a cancel; none (abort) when the job
/// disappeared or the database failed.
pub fn reloaded_job(found: Result<Option<job::Model>, String>) -> (j: Option<job::Model>)
    ensures
        match found {
            Ok(Some(m)) => j matches Some(r) && r@ == m@,
            _ => j is None,
        },
{
    match found {
        Ok(Some(m)) => Some(m),
        _ => None,
    }
}

/// The end of a successful cancel: the record is saved as no longer
/// running, and the cancellation is announced.
pub fn finish_cancel(job: job::Model, job_id: i64) -> (res: (job::Model, JobUpdate))
    ensures
        res.0@ == (job::JobView { running: false, ..job@ }),
        res.1@ == update_view(job_id, JOB_COMPLETION_SOURCE@, CANCELLED, CANCELLED_TEXT@),
{
    let mut j = job;
    j.running = false;
    (j, job_update(job_id, JOB_COMPLETION_SOURCE, CANCELLED, CANCELLED_TEXT))
}

/// What a delete request does before asking the bundle.
pub enum DeletePrecheck {
    /// Mark this record as deleting, save it and ask the bundle.
    Proceed(job::Model),
    /// The job cannot be deleted; send the update when there is one.
    Abort(Option<JobUpdate>),
    /// A delete is already under way: nothing to do.
    AlreadyDeleting,
}

/// Checks a delete request: a job that does not exist, is running, is being
/// submitted or is already deleted is not deleted (the server is told it is
/// deleted when it does not exist or already is); a job being deleted is
/// left alone; otherwise the record is marked as deleting.
pub fn delete_precheck(job: job::Model, job_id: i64) -> (d: DeletePrecheck)
    ensures
        if job.id == 0 || job.running || job.submitting || job.deleted {
            d matches DeletePrecheck::Abort(u) && if job.id == 0 || job.deleted {
                u matches Some(up) && up@ == update_view(job_id, JOB_COMPLETION_SOURCE@, DELETED, DELETED_TEXT@)
            } else {
                u is None
            }
        } else if job.deleting {
            d is AlreadyDeleting
        } else {
            d matches DeletePrecheck::Proceed(j) && j@ == (job::JobView { deleting: true, ..job@ })
        },
{
    if job.id == 0 || job.running || job.submitting || job.deleted {
        if job.id == 0 || job.deleted {
            DeletePrecheck::Abort(Some(job_update(job_id, JOB_COMPLETION_SOURCE, DELETED, DELETED_TEXT)))
        } else {
            DeletePrecheck::Abort(None)
        }
    } else if job.deleting {
        DeletePrecheck::AlreadyDeleting
    } else {
        let mut j = job;
        j.deleting = true;
        DeletePrecheck::Proceed(j)
    }
}

/// The end of a delete once the bundle answered: on success the record is
/// saved as deleted and the deletion announced; otherwise it is saved as no
/// longer deleting and nothing is announced.
pub fn finish_delete(job: job::Model, job_id: i64, deleted: bool) -> (res: (job::Model, Option<JobUpdate>))
    ensures
        deleted ==> res.0@ == (job::JobView { deleting: false, deleted: true, ..job@ }) && (res.1 matches Some(
            u,
        ) && u@ == update_view(job_id, JOB_COMPLETION_SOURCE@, DELETED, DELETED_TEXT@)),
        !deleted ==> res.0@ == (job::JobView { deleting: false, ..job@ }) && res.1 is None,
{
    let mut j = job;
    j.deleting = false;
    if deleted {
        j.deleted = true;
        (j, Some(job_update(job_id, JOB_COMPLETION_SOURCE, DELETED, DELETED_TEXT)))
    } else {
        (j, None)
    }
}

} // verus!
