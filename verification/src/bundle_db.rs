//! The job database as seen by bundles: the requests a bundle's
//! `create_or_update_job`, `get_job_by_id` and `delete_job` calls send, and
//! the interpretation of the replies.

use vstd::prelude::*;
use crate::message::{
    fresh_spec, pop_string_spec, pop_u32_spec, pop_u64_spec, push_string_spec, push_u64_spec,
    Message, Priority, DB_BUNDLE_CREATE_OR_UPDATE_JOB, DB_BUNDLE_DELETE_JOB, DB_BUNDLE_GET_JOB_BY_ID,
};
use crate::db::parse_response;
use crate::text::{chars_of, concat_str, decimal_digits, u64_to_decimal};

verus! {

pub const CREATE_OR_UPDATE_FAILED_TEXT: &'static str = "Job was unable to be created or updated.";
pub const JOB_ID_REQUIRED_TEXT: &'static str = "Job ID must be provided.";
pub const INTERNAL_ERROR_TEXT: &'static str = "Internal error";

/// Request to create or update a bundle's job: job id, job data (JSON), bundle hash.
pub fn build_bundle_create_or_update_message(bundle_hash: &str, job_id: u64, job_data_json: &str) -> (m: Message)
    ensures
        m@ == push_string_spec(
            push_string_spec(
                push_u64_spec(
                    fresh_spec(DB_BUNDLE_CREATE_OR_UPDATE_JOB, Priority::Medium, "database"@),
                    job_id,
                ),
                job_data_json@,
            ),
            bundle_hash@,
        ),
{
    let mut msg = Message::new(DB_BUNDLE_CREATE_OR_UPDATE_JOB, Priority::Medium, "database");
    msg.push_ulong(job_id);
    msg.push_string(job_data_json);
    msg.push_string(bundle_hash);
    msg
}

/// Request for one of a bundle's jobs: just the job id.
pub fn build_bundle_get_by_id_message(job_id: u64) -> (m: Message)
    ensures
        m@ == push_u64_spec(fresh_spec(DB_BUNDLE_GET_JOB_BY_ID, Priority::Medium, "database"@), job_id),
{
    let mut msg = Message::new(DB_BUNDLE_GET_JOB_BY_ID, Priority::Medium, "database");
    msg.push_ulong(job_id);
    msg
}

/// Request to delete one of a bundle's jobs: just the job id.
pub fn build_bundle_delete_message(job_id: u64) -> (m: Message)
    ensures
        m@ == push_u64_spec(fresh_spec(DB_BUNDLE_DELETE_JOB, Priority::Medium, "database"@), job_id),
{
    let mut msg = Message::new(DB_BUNDLE_DELETE_JOB, Priority::Medium, "database");
    msg.push_ulong(job_id);
    msg
}

/// The job id a create-or-update reply carries; 0 means the request failed.
pub fn parse_create_or_update_response(response: &Message) -> (res: Result<u64, String>)
    ensures
        ({
            let id = pop_u64_spec(response@).0;
            if id == 0 {
                res matches Err(e) && e@ == CREATE_OR_UPDATE_FAILED_TEXT@
            } else {
                res == Ok::<u64, String>(id)
            }
        }),
{
    let mut resp = parse_response(response);
    let new_job_id = resp.pop_ulong();
    if new_job_id == 0 {
        return Err(CREATE_OR_UPDATE_FAILED_TEXT.to_owned());
    }
    Ok(new_job_id)
}

/// The error for a job that does not exist.
pub open spec fn missing_job_text(job_id: u64) -> Seq<char> {
    "Job with ID "@ + decimal_digits(job_id as nat) + " does not exist."@
}

/// The job data a get-by-id reply carries: a count (0 when the job does not
/// exist), the job id, then the job data.
pub fn parse_get_job_by_id_response(response: &Message, requested_job_id: u64) -> (res: Result<String, String>)
    ensures
        ({
            let (count, m1) = pop_u32_spec(response@);
            if count == 0 {
                res matches Err(e) && e@ == missing_job_text(requested_job_id)
            } else {
                res matches Ok(s) && s@ == pop_string_spec(pop_u64_spec(m1).1).0
            }
        }),
{
    let mut resp = parse_response(response);
    let count = resp.pop_uint();
    if count == 0 {
        let n = u64_to_decimal(requested_job_id);
        let a = concat_str("Job with ID ", n.as_str());
        return Err(concat_str(a.as_str(), " does not exist."));
    }
    let _resp_job_id = resp.pop_ulong();
    Ok(resp.pop_string())
}

/// The text of an error message handed to the interpreter as a C string:
/// the message itself, or a fixed text when it holds a NUL character.
pub fn err_cstring(msg: &str) -> (s: String)
    ensures
        (exists|i: int| 0 <= i < msg@.len() && msg@[i] == '\0') ==> s@ == INTERNAL_ERROR_TEXT@,
        !(exists|i: int| 0 <= i < msg@.len() && msg@[i] == '\0') ==> s@ == msg@,
{
    let cs = chars_of(msg);
    let mut i: usize = 0;
    while i < cs.len()
        invariant
            i <= cs@.len(),
            cs@ == msg@,
            forall|j: int| 0 <= j < i ==> cs@[j] != '\0',
        decreases cs@.len() - i,
    {
        if cs[i] == '\0' {
            return INTERNAL_ERROR_TEXT.to_owned();
        }
        i = i + 1;
    }
    msg.to_owned()
}

/// A delete needs a job id: 0 means none was given.
pub fn check_delete_job_id(job_id: u64) -> (res: Result<(), String>)
    ensures
        job_id == 0 ==> (res matches Err(e) && e@ == JOB_ID_REQUIRED_TEXT@),
        job_id != 0 ==> res is Ok,
{
    if job_id == 0 {
        Err(JOB_ID_REQUIRED_TEXT.to_owned())
    } else {
        Ok(())
    }
}

/// The error reported when a database request fails.
pub fn db_error_text(e: &str) -> (s: String)
    ensures
        s@ == "DB error: "@ + e@,
{
    concat_str("DB error: ", e)
}

} // verus!
