//! The database protocol: the requests sent to the server's database and the
//! decoding of its responses into job and job status records.
//!
//! Sending a request and waiting for the reply is done by the caller; this
//! module builds each request message and interprets each reply.

pub mod bridge;
pub mod job;
pub mod jobstatus;

use vstd::prelude::*;
use vstd::utf8::encode_utf8;
use crate::message::{
    decode_string, decode_u32, decode_u64, decode_u8, encode_bool, encode_header, encode_string,
    law_bool_roundtrip, law_string_roundtrip, law_u32_roundtrip, law_u64_roundtrip,
    lemma_text_of_encoded, le_u32, le_u64, fresh_spec, pop_bool_spec, pop_string_spec, pop_u32_spec, pop_u64_spec, push_bool_spec,
    push_string_spec, push_u32_spec, push_u64_spec, remaining_spec, Message, MessageView, Priority,
    DB_JOBSTATUS_DELETE_BY_ID_LIST, DB_JOBSTATUS_GET_BY_JOB_ID, DB_JOBSTATUS_GET_BY_JOB_ID_AND_WHAT,
    DB_JOBSTATUS_SAVE, DB_JOB_DELETE, DB_JOB_GET_RUNNING_JOBS, DB_JOB_SAVE,
};

verus! {

/// Error returned when saving a job yields no record id.
pub const SAVE_JOB_ERROR: &'static str = "Database operation failed to save job";

/// Error returned when saving a job status yields no record id.
pub const SAVE_STATUS_ERROR: &'static str = "Database operation failed to save job status";

/// Source name of every database request.
pub const DATABASE_SOURCE: &'static str = "database";

/// An optional id on the wire: 0 stands for "none".
pub open spec fn optional_id(v: u64) -> Option<i64> {
    if v as i64 != 0 {
        Some(v as i64)
    } else {
        None
    }
}

/// The job record read from the message's read position, and the message after it.
pub open spec fn parse_job_spec(m: MessageView) -> (job::JobView, MessageView) {
    let (id, m1) = pop_u64_spec(m);
    let (job_id, m2) = pop_u64_spec(m1);
    let (scheduler_id, m3) = pop_u64_spec(m2);
    let (submitting, m4) = pop_bool_spec(m3);
    let (submitting_count, m5) = pop_u32_spec(m4);
    let (bundle_hash, m6) = pop_string_spec(m5);
    let (working_directory, m7) = pop_string_spec(m6);
    let (running, m8) = pop_bool_spec(m7);
    let (deleting, m9) = pop_bool_spec(m8);
    let (deleted, m10) = pop_bool_spec(m9);
    (
        job::JobView {
            id: id as i64,
            job_id: optional_id(job_id),
            scheduler_id: optional_id(scheduler_id),
            submitting: submitting,
            submitting_count: submitting_count as i32,
            bundle_hash: bundle_hash,
            working_directory: working_directory,
            running: running,
            deleted: deleted,
            deleting: deleting,
        },
        m10,
    )
}

/// The job status record read from the message's read position, and the message after it.
pub open spec fn parse_status_spec(m: MessageView) -> (jobstatus::StatusView, MessageView) {
    let (id, m1) = pop_u64_spec(m);
    let (job_id, m2) = pop_u64_spec(m1);
    let (what, m3) = pop_string_spec(m2);
    let (state, m4) = pop_u32_spec(m3);
    (jobstatus::StatusView { id: id as i64, what: what, state: state as i32, job_id: job_id as i64 }, m4)
}

/// `n` job records read one after the other.
pub open spec fn parse_jobs_spec(m: MessageView, n: nat) -> (Seq<job::JobView>, MessageView)
    decreases n,
{
    if n == 0 {
        (Seq::empty(), m)
    } else {
        let (jobs, m1) = parse_jobs_spec(m, (n - 1) as nat);
        let (j, m2) = parse_job_spec(m1);
        (jobs.push(j), m2)
    }
}

/// `n` job status records read one after the other.
pub open spec fn parse_statuses_spec(m: MessageView, n: nat) -> (Seq<jobstatus::StatusView>, MessageView)
    decreases n,
{
    if n == 0 {
        (Seq::empty(), m)
    } else {
        let (statuses, m1) = parse_statuses_spec(m, (n - 1) as nat);
        let (s, m2) = parse_status_spec(m1);
        (statuses.push(s), m2)
    }
}

/// The number of records a list response announces, bounded by the number of
/// bytes left in it (a record takes at least one byte).
pub open spec fn bounded_count(m: MessageView) -> nat {
    let (count, m1) = pop_u32_spec(m);
    if count as int <= remaining_spec(m1) {
        count as nat
    } else {
        remaining_spec(m1) as nat
    }
}

/// Views of a sequence of job records.
pub open spec fn job_views(jobs: Seq<job::Model>) -> Seq<job::JobView> {
    jobs.map_values(|j: job::Model| j@)
}

/// Views of a sequence of job status records.
pub open spec fn status_views(statuses: Seq<jobstatus::Model>) -> Seq<jobstatus::StatusView> {
    statuses.map_values(|s: jobstatus::Model| s@)
}

/// A copy of a response message that reads its payload from the current position.
pub fn parse_response(resp: &Message) -> (m: Message)
    ensures
        m@ == resp@,
{
    resp.clone_for_payload_reading()
}

/// Reads an optional id: 0 stands for none.
pub fn pop_optional_id(resp: &mut Message) -> (id: Option<i64>)
    ensures
        ({
            let (v, m) = pop_u64_spec(old(resp)@);
            id == optional_id(v) && final(resp)@ == m
        }),
{
    let v = resp.pop_ulong() as i64;
    if v != 0 {
        Some(v)
    } else {
        None
    }
}

/// Reads one job record.
pub fn parse_job(resp: &mut Message) -> (job: job::Model)
    ensures
        (job@, final(resp)@) == parse_job_spec(old(resp)@),
{
    let id = resp.pop_ulong() as i64;
    let job_id = pop_optional_id(resp);
    let scheduler_id = pop_optional_id(resp);
    let submitting = resp.pop_bool();
    let submitting_count = resp.pop_uint() as i32;
    let bundle_hash = resp.pop_string();
    let working_directory = resp.pop_string();
    let running = resp.pop_bool();
    let deleting = resp.pop_bool();
    let deleted = resp.pop_bool();
    job::Model {
        id,
        job_id,
        scheduler_id,
        submitting,
        submitting_count,
        bundle_hash,
        working_directory,
        running,
        deleted,
        deleting,
    }
}

/// Reads one job status record.
pub fn parse_status(resp: &mut Message) -> (status: jobstatus::Model)
    ensures
        (status@, final(resp)@) == parse_status_spec(old(resp)@),
{
    let id = resp.pop_ulong() as i64;
    let job_id = resp.pop_ulong() as i64;
    let what = resp.pop_string();
    let state = resp.pop_uint() as i32;
    jobstatus::Model { id, what, state, job_id }
}

fn pop_bounded_count(resp: &mut Message) -> (n: usize)
    ensures
        n == bounded_count(old(resp)@),
        final(resp)@ == pop_u32_spec(old(resp)@).1,
{
    let count = resp.pop_uint() as usize;
    let remaining = resp.remaining_len();
    if count <= remaining {
        count
    } else {
        remaining
    }
}

/// Request for every running job.
pub fn build_get_running_jobs_request() -> (m: Message)
    ensures
        m@ == fresh_spec(DB_JOB_GET_RUNNING_JOBS, Priority::Medium, DATABASE_SOURCE@),
{
    Message::new(DB_JOB_GET_RUNNING_JOBS, Priority::Medium, DATABASE_SOURCE)
}

/// Request for one job, looked up by record id (`DB_JOB_GET_BY_ID`) or by
/// server job id (`DB_JOB_GET_BY_JOB_ID`).
pub fn build_get_job_request(msg_type: u32, id: i64) -> (m: Message)
    ensures
        m@ == push_u64_spec(fresh_spec(msg_type, Priority::Medium, DATABASE_SOURCE@), id as u64),
{
    let mut msg = Message::new(msg_type, Priority::Medium, DATABASE_SOURCE);
    msg.push_ulong(id as u64);
    msg
}

/// Request to delete a job record.
pub fn build_delete_job_request(id: i64) -> (m: Message)
    ensures
        m@ == push_u64_spec(fresh_spec(DB_JOB_DELETE, Priority::Medium, DATABASE_SOURCE@), id as u64),
{
    let mut msg = Message::new(DB_JOB_DELETE, Priority::Medium, DATABASE_SOURCE);
    msg.push_ulong(id as u64);
    msg
}

/// Request for the statuses of a job that concern `what`.
pub fn build_get_job_status_by_job_id_and_what_request(job_id: i64, what: &str) -> (m: Message)
    ensures
        m@ == push_string_spec(
            push_u64_spec(
                fresh_spec(DB_JOBSTATUS_GET_BY_JOB_ID_AND_WHAT, Priority::Medium, DATABASE_SOURCE@),
                job_id as u64,
            ),
            what@,
        ),
{
    let mut msg = Message::new(DB_JOBSTATUS_GET_BY_JOB_ID_AND_WHAT, Priority::Medium, DATABASE_SOURCE);
    msg.push_ulong(job_id as u64);
    msg.push_string(what);
    msg
}

/// Request for every status of a job.
pub fn build_get_job_status_by_job_id_request(job_id: i64) -> (m: Message)
    ensures
        m@ == push_u64_spec(
            fresh_spec(DB_JOBSTATUS_GET_BY_JOB_ID, Priority::Medium, DATABASE_SOURCE@),
            job_id as u64,
        ),
{
    let mut msg = Message::new(DB_JOBSTATUS_GET_BY_JOB_ID, Priority::Medium, DATABASE_SOURCE);
    msg.push_ulong(job_id as u64);
    msg
}

/// The message after appending each id, in order, as a `u64`.
pub open spec fn push_ids_spec(m: MessageView, ids: Seq<i64>) -> MessageView
    decreases ids.len(),
{
    if ids.len() == 0 {
        m
    } else {
        push_u64_spec(push_ids_spec(m, ids.drop_last()), ids.last() as u64)
    }
}

/// Request to delete status records: the count, then each id.
pub fn build_delete_status_by_id_list_request(ids: &[i64]) -> (m: Message)
    ensures
        m@ == push_ids_spec(
            push_u32_spec(
                fresh_spec(DB_JOBSTATUS_DELETE_BY_ID_LIST, Priority::Medium, DATABASE_SOURCE@),
                ids@.len() as u32,
            ),
            ids@,
        ),
{
    let mut msg = Message::new(DB_JOBSTATUS_DELETE_BY_ID_LIST, Priority::Medium, DATABASE_SOURCE);
    msg.push_uint(ids.len() as u32);
    let ghost start = msg@;
    let mut i: usize = 0;
    while i < ids.len()
        invariant
            i <= ids@.len(),
            msg@ == push_ids_spec(start, ids@.take(i as int)),
        decreases ids@.len() - i,
    {
        msg.push_ulong(ids[i] as u64);
        assert(ids@.take(i as int + 1).drop_last() =~= ids@.take(i as int));
        i = i + 1;
    }
    assert(ids@.take(ids@.len() as int) =~= ids@);
    msg
}

/// A job record's fields appended to a message, in the server's order.
pub open spec fn job_fields_spec(m: MessageView, job: job::JobView) -> MessageView {
    let m1 = push_u64_spec(m, job.id as u64);
    let m2 = push_u64_spec(m1, (match job.job_id { Some(v) => v, None => 0 }) as u64);
    let m3 = push_u64_spec(m2, (match job.scheduler_id { Some(v) => v, None => 0 }) as u64);
    let m4 = push_bool_spec(m3, job.submitting);
    let m5 = push_u32_spec(m4, job.submitting_count as u32);
    let m6 = push_string_spec(m5, job.bundle_hash);
    let m7 = push_string_spec(m6, job.working_directory);
    let m8 = push_bool_spec(m7, job.running);
    let m9 = push_bool_spec(m8, job.deleting);
    push_bool_spec(m9, job.deleted)
}

/// The request that saves a job record.
pub open spec fn save_job_request_spec(job: job::JobView) -> MessageView {
    job_fields_spec(fresh_spec(DB_JOB_SAVE, Priority::Medium, DATABASE_SOURCE@), job)
}

/// A job status record's fields appended to a message, in the server's order.
pub open spec fn status_fields_spec(m: MessageView, status: jobstatus::StatusView) -> MessageView {
    push_u32_spec(
        push_string_spec(push_u64_spec(push_u64_spec(m, status.id as u64), status.job_id as u64), status.what),
        status.state as u32,
    )
}

/// Request to save a job record, fields in the server's order.
pub fn build_save_job_request(job: &job::Model) -> (m: Message)
    ensures
        m@ == save_job_request_spec(job@),
{
    let mut msg = Message::new(DB_JOB_SAVE, Priority::Medium, DATABASE_SOURCE);
    msg.push_ulong(job.id as u64);
    let job_id = match job.job_id {
        Some(v) => v,
        None => 0,
    };
    msg.push_ulong(job_id as u64);
    let scheduler_id = match job.scheduler_id {
        Some(v) => v,
        None => 0,
    };
    msg.push_ulong(scheduler_id as u64);
    msg.push_bool(job.submitting);
    msg.push_uint(job.submitting_count as u32);
    msg.push_string(job.bundle_hash.as_str());
    msg.push_string(job.working_directory.as_str());
    msg.push_bool(job.running);
    msg.push_bool(job.deleting);
    msg.push_bool(job.deleted);
    msg
}

/// Request to save a job status record: id, job id, what, state.
pub fn build_save_status_request(status: &jobstatus::Model) -> (m: Message)
    ensures
        m@ == status_fields_spec(fresh_spec(DB_JOBSTATUS_SAVE, Priority::Medium, DATABASE_SOURCE@), status@),
{
    let mut msg = Message::new(DB_JOBSTATUS_SAVE, Priority::Medium, DATABASE_SOURCE);
    msg.push_ulong(status.id as u64);
    msg.push_ulong(status.job_id as u64);
    msg.push_string(status.what.as_str());
    msg.push_uint(status.state as u32);
    msg
}

/// The running jobs listed in a response: a count (bounded by the bytes
/// left), then that many job records.
pub fn parse_running_jobs_response(raw: &Message) -> (jobs: Vec<job::Model>)
    ensures
        job_views(jobs@) == parse_jobs_spec(pop_u32_spec(raw@).1, bounded_count(raw@)).0,
{
    let mut resp = parse_response(raw);
    let count = pop_bounded_count(&mut resp);
    let ghost start = resp@;
    let mut jobs: Vec<job::Model> = Vec::new();
    let mut i: usize = 0;
    while i < count
        invariant
            i <= count,
            (job_views(jobs@), resp@) == parse_jobs_spec(start, i as nat),
        decreases count - i,
    {
        let j = parse_job(&mut resp);
        jobs.push(j);
        assert(job_views(jobs@) =~= parse_jobs_spec(start, (i + 1) as nat).0);
        i = i + 1;
    }
    jobs
}

/// The job in a single-job response: none when the count is 0.
pub fn parse_job_lookup_response(raw: &Message) -> (job: Option<job::Model>)
    ensures
        ({
            let (count, m1) = pop_u32_spec(raw@);
            if count == 0 {
                job is None
            } else {
                job matches Some(j) && j@ == parse_job_spec(m1).0
            }
        }),
{
    let mut resp = parse_response(raw);
    let count = resp.pop_uint();
    if count == 0 {
        None
    } else {
        Some(parse_job(&mut resp))
    }
}

/// The statuses listed in a response: a count (bounded by the bytes left),
/// then that many status records.
pub fn parse_job_statuses_response(raw: &Message) -> (statuses: Vec<jobstatus::Model>)
    ensures
        status_views(statuses@) == parse_statuses_spec(pop_u32_spec(raw@).1, bounded_count(raw@)).0,
{
    let mut resp = parse_response(raw);
    let count = pop_bounded_count(&mut resp);
    let ghost start = resp@;
    let mut statuses: Vec<jobstatus::Model> = Vec::new();
    let mut i: usize = 0;
    while i < count
        invariant
            i <= count,
            (status_views(statuses@), resp@) == parse_statuses_spec(start, i as nat),
        decreases count - i,
    {
        let s = parse_status(&mut resp);
        statuses.push(s);
        assert(status_views(statuses@) =~= parse_statuses_spec(start, (i + 1) as nat).0);
        i = i + 1;
    }
    statuses
}

/// The record id a save response carries; 0 means the save failed, reported
/// with `error_string`.
pub fn parse_save_response(raw: &Message, error_string: &str) -> (res: Result<i64, String>)
    ensures
        ({
            let saved = pop_u64_spec(raw@).0 as i64;
            if saved == 0 {
                res matches Err(e) && e@ == error_string@
            } else {
                res == Ok::<i64, String>(saved)
            }
        }),
{
    let mut resp = parse_response(raw);
    let saved_id = resp.pop_ulong() as i64;
    if saved_id == 0 {
        Err(error_string.to_owned())
    } else {
        Ok(saved_id)
    }
}

/// A job record carrying the id the database assigned.
pub fn job_with_saved_id(job: job::Model, saved_id: i64) -> (res: job::Model)
    ensures
        res@ == (job::JobView { id: saved_id, ..job@ }),
{
    job::Model { id: saved_id, ..job }
}

/// A status record carrying the id the database assigned.
pub fn status_with_saved_id(status: jobstatus::Model, saved_id: i64) -> (res: jobstatus::Model)
    ensures
        res@ == (jobstatus::StatusView { id: saved_id, ..status@ }),
{
    jobstatus::Model { id: saved_id, ..status }
}

/// The job found, or a fresh default record when there is none.
pub fn job_or_default(found: Option<job::Model>) -> (res: job::Model)
    ensures
        match found {
            Some(j) => res@ == j@,
            None => res@ == job::default_job(),
        },
{
    match found {
        Some(j) => j,
        None => job::Model::default(),
    }
}

proof fn lemma_i64_through_u64(x: i64)
    ensures
        (x as u64) as i64 == x,
{
    assert((x as u64) as i64 == x) by (bit_vector);
}

proof fn lemma_i32_through_u32(x: i32)
    ensures
        (x as u32) as i32 == x,
{
    assert((x as u32) as i32 == x) by (bit_vector);
}

/// Whether `d` begins with the bytes of `p`.
#[verifier::opaque]
spec fn prefix_of(p: Seq<u8>, d: Seq<u8>) -> bool {
    p.len() <= d.len() && forall|j: int| 0 <= j < p.len() ==> #[trigger] d[j] == p[j]
}

proof fn lemma_prefix_extend(p: Seq<u8>, e: Seq<u8>)
    ensures
        prefix_of(p, p + e),
{
    reveal(prefix_of);
}

proof fn lemma_prefix_self(p: Seq<u8>)
    ensures
        prefix_of(p, p),
{
    reveal(prefix_of);
}

proof fn lemma_read_u64_field(prev: Seq<u8>, v: u64, d: Seq<u8>)
    requires
        prefix_of(prev + le_u64(v), d),
    ensures
        decode_u64(d, prev.len() as int) == Some((v, prev.len() + 8int)),
{
    reveal(prefix_of);
    let w = prev + le_u64(v);
    assert(w =~= prev + le_u64(v) + Seq::<u8>::empty());
    law_u64_roundtrip(prev, v, Seq::<u8>::empty());
    let i = prev.len() as int;
    assert(d[i] == w[i] && d[i + 1] == w[i + 1] && d[i + 2] == w[i + 2] && d[i + 3] == w[i + 3]);
    assert(d[i + 4] == w[i + 4] && d[i + 5] == w[i + 5] && d[i + 6] == w[i + 6] && d[i + 7] == w[i + 7]);
}

proof fn lemma_read_u32_field(prev: Seq<u8>, v: u32, d: Seq<u8>)
    requires
        prefix_of(prev + le_u32(v), d),
    ensures
        decode_u32(d, prev.len() as int) == Some((v, prev.len() + 4int)),
{
    reveal(prefix_of);
    let w = prev + le_u32(v);
    assert(w =~= prev + le_u32(v) + Seq::<u8>::empty());
    law_u32_roundtrip(prev, v, Seq::<u8>::empty());
    let i = prev.len() as int;
    assert(d[i] == w[i] && d[i + 1] == w[i + 1] && d[i + 2] == w[i + 2] && d[i + 3] == w[i + 3]);
}

proof fn lemma_read_bool_field(prev: Seq<u8>, b: bool, d: Seq<u8>)
    requires
        prefix_of(prev + encode_bool(b), d),
    ensures
        decode_u8(d, prev.len() as int) == Some((if b { 1u8 } else { 0u8 }, prev.len() + 1int)),
{
    reveal(prefix_of);
    let w = prev + encode_bool(b);
    assert(w =~= prev + encode_bool(b) + Seq::<u8>::empty());
    law_bool_roundtrip(prev, b, Seq::<u8>::empty());
    assert(d[prev.len() as int] == w[prev.len() as int]);
}

proof fn lemma_read_string_field(prev: Seq<u8>, s: Seq<char>, d: Seq<u8>)
    requires
        prefix_of(prev + encode_string(s), d),
        encode_utf8(s).len() <= u64::MAX,
    ensures
        decode_string(d, prev.len() as int) == Some((s, (prev.len() + encode_string(s).len()) as int)),
{
    reveal(prefix_of);
    let w = prev + encode_string(s);
    let b = encode_utf8(s);
    assert(w =~= prev + le_u64(b.len() as u64) + b);
    assert(prefix_of(prev + le_u64(b.len() as u64), d)) by {
        assert forall|j: int| 0 <= j < (prev + le_u64(b.len() as u64)).len() implies #[trigger] d[j]
            == (prev + le_u64(b.len() as u64))[j] by {
            assert(w[j] == (prev + le_u64(b.len() as u64))[j]);
        }
    }
    lemma_read_u64_field(prev, b.len() as u64, d);
    let start = prev.len() + 8int;
    assert(d.subrange(start, start + b.len()) =~= b) by {
        assert forall|j: int| 0 <= j < b.len() implies #[trigger] d.subrange(start, start + b.len())[j]
            == b[j] by {
            assert(w[start + j] == b[j]);
            assert(d[start + j] == w[start + j]);
        }
    }
    lemma_text_of_encoded(s);
}

/// What a job status record must satisfy to be read back as written: its
/// text fits the length field.
pub open spec fn status_record_fits(status: jobstatus::StatusView) -> bool {
    encode_utf8(status.what).len() <= u64::MAX
}

/// Reading a job status record at the position where `m`'s data ends, in
/// data that begins with `m`'s data followed by the record.
proof fn lemma_status_record_at(r: MessageView, m: MessageView, status: jobstatus::StatusView)
    requires
        r.index == m.data.len(),
        prefix_of(status_fields_spec(m, status).data, r.data),
        status_record_fits(status),
    ensures
        parse_status_spec(r) == (
            status,
            MessageView { index: status_fields_spec(m, status).data.len() as int, ..r },
        ),
{
    let m1 = push_u64_spec(m, status.id as u64);
    let m2 = push_u64_spec(m1, status.job_id as u64);
    let m3 = push_string_spec(m2, status.what);
    let m4 = push_u32_spec(m3, status.state as u32);
    let d = r.data;
    assert(m4 == status_fields_spec(m, status));
    lemma_prefix_extend(m3.data, le_u32(status.state as u32));
    lemma_prefix_extend(m2.data, encode_string(status.what));
    lemma_prefix_extend(m1.data, le_u64(status.job_id as u64));
    lemma_prefix_trans(m3.data, m4.data, d);
    lemma_prefix_trans(m2.data, m3.data, d);
    lemma_prefix_trans(m1.data, m2.data, d);
    lemma_read_u64_field(m.data, status.id as u64, d);
    lemma_read_u64_field(m1.data, status.job_id as u64, d);
    lemma_read_string_field(m2.data, status.what, d);
    lemma_read_u32_field(m3.data, status.state as u32, d);
    lemma_i64_through_u64(status.id);
    lemma_i64_through_u64(status.job_id);
    lemma_i32_through_u32(status.state);
}

/// A job status record written in the save request's layout is read back by
/// the status parser as the same record, leaving the read position after it.
pub proof fn law_status_record_roundtrip(m: MessageView, status: jobstatus::StatusView)
    requires
        m.index == m.data.len(),
        status_record_fits(status),
    ensures
        parse_status_spec(status_fields_spec(m, status)) == (
            status,
            MessageView {
                index: status_fields_spec(m, status).data.len() as int,
                ..status_fields_spec(m, status)
            },
        ),
{
    let w = status_fields_spec(m, status);
    lemma_prefix_self(w.data);
    lemma_status_record_at(w, m, status);
}

/// Job status records appended one after the other.
pub open spec fn statuses_fields_spec(m: MessageView, statuses: Seq<jobstatus::StatusView>) -> MessageView
    decreases statuses.len(),
{
    if statuses.len() == 0 {
        m
    } else {
        status_fields_spec(statuses_fields_spec(m, statuses.drop_last()), statuses.last())
    }
}

/// A status list reply as the server writes it: the number of records, then the records.
pub open spec fn status_list_spec(m: MessageView, statuses: Seq<jobstatus::StatusView>) -> MessageView {
    statuses_fields_spec(push_u32_spec(m, statuses.len() as u32), statuses)
}

proof fn lemma_status_fields_extend(m: MessageView, status: jobstatus::StatusView)
    ensures
        prefix_of(m.data, status_fields_spec(m, status).data),
        status_fields_spec(m, status).data.len() >= m.data.len() + 1,
        status_fields_spec(m, status).index == m.index,
{
    reveal(prefix_of);
    let d = status_fields_spec(m, status).data;
    assert forall|j: int| 0 <= j < m.data.len() implies #[trigger] d[j] == m.data[j] by {}
}

proof fn lemma_statuses_fields_grow(m: MessageView, statuses: Seq<jobstatus::StatusView>)
    ensures
        prefix_of(m.data, statuses_fields_spec(m, statuses).data),
        statuses_fields_spec(m, statuses).data.len() >= m.data.len() + statuses.len(),
        statuses_fields_spec(m, statuses).index == m.index,
    decreases statuses.len(),
{
    if statuses.len() == 0 {
        lemma_prefix_self(m.data);
    } else {
        let before = statuses_fields_spec(m, statuses.drop_last());
        lemma_statuses_fields_grow(m, statuses.drop_last());
        lemma_status_fields_extend(before, statuses.last());
        lemma_prefix_trans(m.data, before.data, statuses_fields_spec(m, statuses).data);
    }
}

proof fn lemma_statuses_fields_prefix(m: MessageView, statuses: Seq<jobstatus::StatusView>, k: int)
    requires
        0 <= k <= statuses.len(),
    ensures
        prefix_of(statuses_fields_spec(m, statuses.take(k)).data, statuses_fields_spec(m, statuses).data),
    decreases statuses.len() - k,
{
    if k == statuses.len() {
        assert(statuses.take(k) =~= statuses);
        lemma_prefix_self(statuses_fields_spec(m, statuses).data);
    } else {
        lemma_statuses_fields_prefix(m, statuses, k + 1);
        assert(statuses.take(k + 1).drop_last() =~= statuses.take(k));
        lemma_status_fields_extend(statuses_fields_spec(m, statuses.take(k)), statuses.take(k + 1).last());
        lemma_prefix_trans(
            statuses_fields_spec(m, statuses.take(k)).data,
            statuses_fields_spec(m, statuses.take(k + 1)).data,
            statuses_fields_spec(m, statuses).data,
        );
    }
}

proof fn lemma_parse_statuses_written(
    x: MessageView,
    statuses: Seq<jobstatus::StatusView>,
    w: MessageView,
    k: int,
)
    requires
        0 <= k <= statuses.len(),
        w.data == statuses_fields_spec(x, statuses).data,
        forall|i: int| 0 <= i < statuses.len() ==> status_record_fits(#[trigger] statuses[i]),
    ensures
        parse_statuses_spec(MessageView { index: x.data.len() as int, ..w }, k as nat) == (
            statuses.take(k),
            MessageView { index: statuses_fields_spec(x, statuses.take(k)).data.len() as int, ..w },
        ),
    decreases k,
{
    if k == 0 {
        assert(statuses.take(0) =~= Seq::<jobstatus::StatusView>::empty());
    } else {
        lemma_parse_statuses_written(x, statuses, w, k - 1);
        let before = statuses_fields_spec(x, statuses.take(k - 1));
        let r = MessageView { index: before.data.len() as int, ..w };
        assert(statuses.take(k).drop_last() =~= statuses.take(k - 1));
        assert(statuses.take(k).last() == statuses[k - 1]);
        lemma_statuses_fields_prefix(x, statuses, k);
        lemma_status_record_at(r, before, statuses[k - 1]);
        assert(statuses.take(k - 1).push(statuses[k - 1]) =~= statuses.take(k));
    }
}

/// A list of job status records, as the server writes it, is read back by
/// the list parser as the same records.
pub proof fn law_status_list_roundtrip(m: MessageView, statuses: Seq<jobstatus::StatusView>)
    requires
        m.index == m.data.len(),
        statuses.len() <= u32::MAX,
        forall|i: int| 0 <= i < statuses.len() ==> status_record_fits(#[trigger] statuses[i]),
    ensures
        bounded_count(status_list_spec(m, statuses)) == statuses.len(),
        parse_statuses_spec(
            pop_u32_spec(status_list_spec(m, statuses)).1,
            bounded_count(status_list_spec(m, statuses)),
        ).0 == statuses,
{
    let x = push_u32_spec(m, statuses.len() as u32);
    let w = status_list_spec(m, statuses);
    lemma_statuses_fields_grow(x, statuses);
    lemma_read_u32_field(m.data, statuses.len() as u32, w.data);
    assert(pop_u32_spec(w).1 == MessageView { index: x.data.len() as int, ..w });
    lemma_parse_statuses_written(x, statuses, w, statuses.len() as int);
    assert(statuses.take(statuses.len() as int) =~= statuses);
}

/// What a job record must satisfy to be read back as written: a present id
/// is not 0 (0 stands for none) and its texts fit the length field.
pub open spec fn job_record_fits(job: job::JobView) -> bool {
    &&& job.job_id != Some(0i64)
    &&& job.scheduler_id != Some(0i64)
    &&& encode_utf8(job.bundle_hash).len() <= u64::MAX
    &&& encode_utf8(job.working_directory).len() <= u64::MAX
}

/// Reading a job record at the position where `m`'s data ends, in data that
/// begins with `m`'s data followed by the record.
#[verifier::spinoff_prover]
#[verifier::rlimit(40)]
proof fn lemma_job_record_at(r: MessageView, m: MessageView, job: job::JobView)
    requires
        r.index == m.data.len(),
        prefix_of(job_fields_spec(m, job).data, r.data),
        job_record_fits(job),
    ensures
        parse_job_spec(r) == (job, MessageView { index: job_fields_spec(m, job).data.len() as int, ..r }),
{
    let jid = (match job.job_id { Some(v) => v, None => 0 }) as u64;
    let sid = (match job.scheduler_id { Some(v) => v, None => 0 }) as u64;
    let m1 = push_u64_spec(m, job.id as u64);
    let m2 = push_u64_spec(m1, jid);
    let m3 = push_u64_spec(m2, sid);
    let m4 = push_bool_spec(m3, job.submitting);
    let m5 = push_u32_spec(m4, job.submitting_count as u32);
    let m6 = push_string_spec(m5, job.bundle_hash);
    let m7 = push_string_spec(m6, job.working_directory);
    let m8 = push_bool_spec(m7, job.running);
    let m9 = push_bool_spec(m8, job.deleting);
    let m10 = push_bool_spec(m9, job.deleted);
    let d = r.data;
    assert(m10 == job_fields_spec(m, job));
    lemma_prefix_extend(m9.data, encode_bool(job.deleted));
    lemma_prefix_extend(m8.data, encode_bool(job.deleting));
    lemma_prefix_extend(m7.data, encode_bool(job.running));
    lemma_prefix_extend(m6.data, encode_string(job.working_directory));
    lemma_prefix_extend(m5.data, encode_string(job.bundle_hash));
    lemma_prefix_extend(m4.data, le_u32(job.submitting_count as u32));
    lemma_prefix_extend(m3.data, encode_bool(job.submitting));
    lemma_prefix_extend(m2.data, le_u64(sid));
    lemma_prefix_extend(m1.data, le_u64(jid));
    lemma_prefix_trans(m9.data, m10.data, d);
    lemma_prefix_trans(m8.data, m9.data, d);
    lemma_prefix_trans(m7.data, m8.data, d);
    lemma_prefix_trans(m6.data, m7.data, d);
    lemma_prefix_trans(m5.data, m6.data, d);
    lemma_prefix_trans(m4.data, m5.data, d);
    lemma_prefix_trans(m3.data, m4.data, d);
    lemma_prefix_trans(m2.data, m3.data, d);
    lemma_prefix_trans(m1.data, m2.data, d);
    lemma_read_u64_field(m.data, job.id as u64, d);
    lemma_read_u64_field(m1.data, jid, d);
    lemma_read_u64_field(m2.data, sid, d);
    lemma_read_bool_field(m3.data, job.submitting, d);
    lemma_read_u32_field(m4.data, job.submitting_count as u32, d);
    lemma_read_string_field(m5.data, job.bundle_hash, d);
    lemma_read_string_field(m6.data, job.working_directory, d);
    lemma_read_bool_field(m7.data, job.running, d);
    lemma_read_bool_field(m8.data, job.deleting, d);
    lemma_read_bool_field(m9.data, job.deleted, d);
    lemma_i64_through_u64(job.id);
    lemma_i32_through_u32(job.submitting_count);
    match job.job_id {
        Some(v) => lemma_i64_through_u64(v),
        None => {},
    }
    match job.scheduler_id {
        Some(v) => lemma_i64_through_u64(v),
        None => {},
    }
}

/// A job record written in the save request's layout is read back by the
/// record parser as the same record (an id of 0 stands for none, so a
/// present id must not be 0), leaving the read position after it.
pub proof fn law_job_record_roundtrip(m: MessageView, job: job::JobView)
    requires
        m.index == m.data.len(),
        job_record_fits(job),
    ensures
        parse_job_spec(job_fields_spec(m, job)) == (
            job,
            MessageView { index: job_fields_spec(m, job).data.len() as int, ..job_fields_spec(m, job) },
        ),
{
    let w = job_fields_spec(m, job);
    lemma_prefix_self(w.data);
    lemma_job_record_at(w, m, job);
}

/// The bytes of a job record, field by field: id, job id, scheduler id
/// (each a `u64`, 0 for none), submitting flag, submission check count
/// (`u32`), bundle hash, working directory, running, deleting and deleted
/// flags.
pub proof fn law_job_fields_layout(m: MessageView, job: job::JobView)
    ensures
        job_fields_spec(m, job) == (MessageView {
            data: m.data
                + le_u64(job.id as u64)
                + le_u64((match job.job_id { Some(v) => v, None => 0 }) as u64)
                + le_u64((match job.scheduler_id { Some(v) => v, None => 0 }) as u64)
                + encode_bool(job.submitting)
                + le_u32(job.submitting_count as u32)
                + encode_string(job.bundle_hash)
                + encode_string(job.working_directory)
                + encode_bool(job.running)
                + encode_bool(job.deleting)
                + encode_bool(job.deleted),
            ..m
        }),
{
}

/// The save request of a job is the `DB_JOB_SAVE` header from the database
/// source followed by the job's fields in the server's order: submitting as
/// the fourth field and running as the eighth.
pub proof fn law_save_job_request_layout(job: job::JobView)
    ensures
        save_job_request_spec(job).data == encode_header(DB_JOB_SAVE, DATABASE_SOURCE@)
            + le_u64(job.id as u64)
            + le_u64((match job.job_id { Some(v) => v, None => 0 }) as u64)
            + le_u64((match job.scheduler_id { Some(v) => v, None => 0 }) as u64)
            + encode_bool(job.submitting)
            + le_u32(job.submitting_count as u32)
            + encode_string(job.bundle_hash)
            + encode_string(job.working_directory)
            + encode_bool(job.running)
            + encode_bool(job.deleting)
            + encode_bool(job.deleted),
        save_job_request_spec(job).id == DB_JOB_SAVE,
        save_job_request_spec(job).source == DATABASE_SOURCE@,
{
    law_job_fields_layout(fresh_spec(DB_JOB_SAVE, Priority::Medium, DATABASE_SOURCE@), job);
}

/// The job record made of values as they stand on the wire.
spec fn job_view_of_fields(
    id: u64,
    job_id: u64,
    scheduler_id: u64,
    submitting: bool,
    submitting_count: u32,
    bundle_hash: Seq<char>,
    working_directory: Seq<char>,
    running: bool,
    deleting: bool,
    deleted: bool,
) -> job::JobView {
    job::JobView {
        id: id as i64,
        job_id: optional_id(job_id),
        scheduler_id: optional_id(scheduler_id),
        submitting: submitting,
        submitting_count: submitting_count as i32,
        bundle_hash: bundle_hash,
        working_directory: working_directory,
        running: running,
        deleted: deleted,
        deleting: deleting,
    }
}

proof fn lemma_job_view_of_fields_bytes(
    m: MessageView,
    id: u64,
    job_id: u64,
    scheduler_id: u64,
    submitting: bool,
    submitting_count: u32,
    bundle_hash: Seq<char>,
    working_directory: Seq<char>,
    running: bool,
    deleting: bool,
    deleted: bool,
)
    ensures
        job_fields_spec(
            m,
            job_view_of_fields(
                id,
                job_id,
                scheduler_id,
                submitting,
                submitting_count,
                bundle_hash,
                working_directory,
                running,
                deleting,
                deleted,
            ),
        ).data == m.data + le_u64(id) + le_u64(job_id) + le_u64(scheduler_id) + encode_bool(submitting)
            + le_u32(submitting_count) + encode_string(bundle_hash) + encode_string(working_directory)
            + encode_bool(running) + encode_bool(deleting) + encode_bool(deleted),
        job_record_fits(
            job_view_of_fields(
                id,
                job_id,
                scheduler_id,
                submitting,
                submitting_count,
                bundle_hash,
                working_directory,
                running,
                deleting,
                deleted,
            ),
        ) <== (encode_utf8(bundle_hash).len() <= u64::MAX && encode_utf8(working_directory).len()
            <= u64::MAX),
{
    assert((id as i64) as u64 == id) by (bit_vector);
    assert((job_id as i64) as u64 == job_id) by (bit_vector);
    assert((scheduler_id as i64) as u64 == scheduler_id) by (bit_vector);
    assert(job_id as i64 == 0 ==> job_id == 0) by (bit_vector);
    assert(scheduler_id as i64 == 0 ==> scheduler_id == 0) by (bit_vector);
    assert((submitting_count as i32) as u32 == submitting_count) by (bit_vector);
}

/// Reading a job record from bytes laid out as the server writes them (a
/// `u64` id, job id and scheduler id, the submitting flag, a `u32` check
/// count, the bundle hash, the working directory, then the running,
/// deleting and deleted flags) gives back each value from its own position;
/// a job id or scheduler id of 0 reads as none. The read position ends after
/// the record.
pub proof fn law_parse_job_layout(
    m: MessageView,
    prev: Seq<u8>,
    rest: Seq<u8>,
    id: u64,
    job_id: u64,
    scheduler_id: u64,
    submitting: bool,
    submitting_count: u32,
    bundle_hash: Seq<char>,
    working_directory: Seq<char>,
    running: bool,
    deleting: bool,
    deleted: bool,
)
    requires
        m.index == prev.len(),
        m.data == prev + le_u64(id) + le_u64(job_id) + le_u64(scheduler_id) + encode_bool(submitting)
            + le_u32(submitting_count) + encode_string(bundle_hash) + encode_string(working_directory)
            + encode_bool(running) + encode_bool(deleting) + encode_bool(deleted) + rest,
        encode_utf8(bundle_hash).len() <= u64::MAX,
        encode_utf8(working_directory).len() <= u64::MAX,
    ensures
        ({
            let (j, m2) = parse_job_spec(m);
            &&& j.id == id as i64
            &&& j.job_id == optional_id(job_id)
            &&& j.scheduler_id == optional_id(scheduler_id)
            &&& j.submitting == submitting
            &&& j.submitting_count == submitting_count as i32
            &&& j.bundle_hash == bundle_hash
            &&& j.working_directory == working_directory
            &&& j.running == running
            &&& j.deleting == deleting
            &&& j.deleted == deleted
            &&& m2 == MessageView { index: m.data.len() - rest.len(), ..m }
        }),
{
    let jv = job_view_of_fields(
        id,
        job_id,
        scheduler_id,
        submitting,
        submitting_count,
        bundle_hash,
        working_directory,
        running,
        deleting,
        deleted,
    );
    let mm = MessageView { data: prev, index: prev.len() as int, ..m };
    lemma_job_view_of_fields_bytes(
        mm,
        id,
        job_id,
        scheduler_id,
        submitting,
        submitting_count,
        bundle_hash,
        working_directory,
        running,
        deleting,
        deleted,
    );
    let w = job_fields_spec(mm, jv).data;
    assert(m.data == w + rest);
    lemma_prefix_extend(w, rest);
    lemma_job_record_at(m, mm, jv);
}

/// Job records appended one after the other.
pub open spec fn jobs_fields_spec(m: MessageView, jobs: Seq<job::JobView>) -> MessageView
    decreases jobs.len(),
{
    if jobs.len() == 0 {
        m
    } else {
        job_fields_spec(jobs_fields_spec(m, jobs.drop_last()), jobs.last())
    }
}

/// A list reply as the server writes it: the number of records, then the records.
pub open spec fn job_list_spec(m: MessageView, jobs: Seq<job::JobView>) -> MessageView {
    jobs_fields_spec(push_u32_spec(m, jobs.len() as u32), jobs)
}

proof fn lemma_prefix_trans(a: Seq<u8>, b: Seq<u8>, c: Seq<u8>)
    requires
        prefix_of(a, b),
        prefix_of(b, c),
    ensures
        prefix_of(a, c),
{
    reveal(prefix_of);
    assert forall|j: int| 0 <= j < a.len() implies #[trigger] c[j] == a[j] by {
        assert(b[j] == a[j]);
        assert(c[j] == b[j]);
    }
}

proof fn lemma_job_fields_extend(m: MessageView, job: job::JobView)
    ensures
        prefix_of(m.data, job_fields_spec(m, job).data),
        job_fields_spec(m, job).data.len() >= m.data.len() + 1,
        job_fields_spec(m, job).index == m.index,
{
    reveal(prefix_of);
    let d = job_fields_spec(m, job).data;
    assert forall|j: int| 0 <= j < m.data.len() implies #[trigger] d[j] == m.data[j] by {}
}

proof fn lemma_jobs_fields_grow(m: MessageView, jobs: Seq<job::JobView>)
    ensures
        prefix_of(m.data, jobs_fields_spec(m, jobs).data),
        jobs_fields_spec(m, jobs).data.len() >= m.data.len() + jobs.len(),
        jobs_fields_spec(m, jobs).index == m.index,
    decreases jobs.len(),
{
    if jobs.len() == 0 {
        lemma_prefix_self(m.data);
    } else {
        let before = jobs_fields_spec(m, jobs.drop_last());
        lemma_jobs_fields_grow(m, jobs.drop_last());
        lemma_job_fields_extend(before, jobs.last());
        lemma_prefix_trans(m.data, before.data, jobs_fields_spec(m, jobs).data);
    }
}

proof fn lemma_jobs_fields_prefix(m: MessageView, jobs: Seq<job::JobView>, k: int)
    requires
        0 <= k <= jobs.len(),
    ensures
        prefix_of(jobs_fields_spec(m, jobs.take(k)).data, jobs_fields_spec(m, jobs).data),
    decreases jobs.len() - k,
{
    if k == jobs.len() {
        assert(jobs.take(k) =~= jobs);
        lemma_prefix_self(jobs_fields_spec(m, jobs).data);
    } else {
        lemma_jobs_fields_prefix(m, jobs, k + 1);
        assert(jobs.take(k + 1).drop_last() =~= jobs.take(k));
        lemma_job_fields_extend(jobs_fields_spec(m, jobs.take(k)), jobs.take(k + 1).last());
        lemma_prefix_trans(
            jobs_fields_spec(m, jobs.take(k)).data,
            jobs_fields_spec(m, jobs.take(k + 1)).data,
            jobs_fields_spec(m, jobs).data,
        );
    }
}

proof fn lemma_parse_jobs_written(x: MessageView, jobs: Seq<job::JobView>, w: MessageView, k: int)
    requires
        0 <= k <= jobs.len(),
        w.data == jobs_fields_spec(x, jobs).data,
        forall|i: int| 0 <= i < jobs.len() ==> job_record_fits(#[trigger] jobs[i]),
    ensures
        parse_jobs_spec(MessageView { index: x.data.len() as int, ..w }, k as nat) == (
            jobs.take(k),
            MessageView { index: jobs_fields_spec(x, jobs.take(k)).data.len() as int, ..w },
        ),
    decreases k,
{
    if k == 0 {
        assert(jobs.take(0) =~= Seq::<job::JobView>::empty());
    } else {
        lemma_parse_jobs_written(x, jobs, w, k - 1);
        let before = jobs_fields_spec(x, jobs.take(k - 1));
        let r = MessageView { index: before.data.len() as int, ..w };
        assert(jobs.take(k).drop_last() =~= jobs.take(k - 1));
        assert(jobs.take(k).last() == jobs[k - 1]);
        lemma_jobs_fields_prefix(x, jobs, k);
        lemma_job_record_at(r, before, jobs[k - 1]);
        assert(jobs.take(k - 1).push(jobs[k - 1]) =~= jobs.take(k));
    }
}

/// A list of job records, as the server writes it, is read back by the list
/// parser as the same records: the announced count is within the bytes left,
/// and each record reads back as written.
pub proof fn law_job_list_roundtrip(m: MessageView, jobs: Seq<job::JobView>)
    requires
        m.index == m.data.len(),
        jobs.len() <= u32::MAX,
        forall|i: int| 0 <= i < jobs.len() ==> job_record_fits(#[trigger] jobs[i]),
    ensures
        bounded_count(job_list_spec(m, jobs)) == jobs.len(),
        parse_jobs_spec(pop_u32_spec(job_list_spec(m, jobs)).1, bounded_count(job_list_spec(m, jobs))).0
            == jobs,
{
    let x = push_u32_spec(m, jobs.len() as u32);
    let w = job_list_spec(m, jobs);
    lemma_jobs_fields_grow(x, jobs);
    lemma_read_u32_field(m.data, jobs.len() as u32, w.data);
    assert(pop_u32_spec(w).1 == MessageView { index: x.data.len() as int, ..w });
    lemma_parse_jobs_written(x, jobs, w, jobs.len() as int);
    assert(jobs.take(jobs.len() as int) =~= jobs);
}

} // verus!
