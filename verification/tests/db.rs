use adacs_job_client::db::bridge::{
    disconnected_rejection, exchange_answer, queue_backlogged, ExchangeEnd,
};
use adacs_job_client::db::{
    build_delete_job_request, build_delete_status_by_id_list_request,
    build_get_job_request, build_get_job_status_by_job_id_and_what_request,
    build_get_job_status_by_job_id_request, build_get_running_jobs_request,
    build_save_job_request, build_save_status_request, job, job_or_default, job_with_saved_id,
    jobstatus, parse_job, parse_job_lookup_response, parse_job_statuses_response,
    parse_running_jobs_response, parse_save_response, parse_status, status_with_saved_id,
    SAVE_JOB_ERROR, SAVE_STATUS_ERROR,
};
use adacs_job_client::message::{
    Message, Priority, DB_JOBSTATUS_DELETE_BY_ID_LIST,
    DB_JOBSTATUS_GET_BY_JOB_ID, DB_JOBSTATUS_GET_BY_JOB_ID_AND_WHAT, DB_JOBSTATUS_SAVE,
    DB_JOB_DELETE, DB_JOB_GET_BY_ID, DB_JOB_GET_BY_JOB_ID, DB_JOB_GET_RUNNING_JOBS, DB_JOB_SAVE,
    DB_RESPONSE,
};

fn make_job_response() -> Message {
    let mut resp = Message::new(DB_RESPONSE, Priority::Highest, "database");
    resp.push_uint(1);
    resp.push_ulong(11);
    resp.push_ulong(22);
    resp.push_ulong(33);
    resp.push_bool(true);
    resp.push_uint(4);
    resp.push_string("bundle-hash");
    resp.push_string("/tmp/workdir");
    resp.push_bool(true);
    resp.push_bool(false);
    resp.push_bool(false);
    resp
}

fn make_huge_count_job_response() -> Message {
    let mut resp = Message::new(DB_RESPONSE, Priority::Highest, "database");
    resp.push_uint(u32::MAX);
    resp.push_ulong(11);
    resp.push_ulong(22);
    resp.push_ulong(33);
    resp.push_bool(true);
    resp.push_uint(4);
    resp.push_string("bundle-hash");
    resp.push_string("/tmp/workdir");
    resp.push_bool(true);
    resp.push_bool(false);
    resp.push_bool(false);
    resp
}

fn two_status_response() -> Message {
    let mut resp = Message::new(DB_RESPONSE, Priority::Highest, "database");
    resp.push_uint(2);
    resp.push_ulong(11);
    resp.push_ulong(42);
    resp.push_string("scheduler_id");
    resp.push_uint(500);
    resp.push_ulong(12);
    resp.push_ulong(42);
    resp.push_string("state");
    resp.push_uint(1);
    resp
}

fn empty_count_response() -> Message {
    let mut resp = Message::new(DB_RESPONSE, Priority::Highest, "database");
    resp.push_uint(0);
    resp
}

#[test]
fn get_running_jobs_sends_header_only_request() {
    let expected_data = Message::new(DB_JOB_GET_RUNNING_JOBS, Priority::Medium, "database")
        .get_data()
        .clone();
    let message = build_get_running_jobs_request();
    assert_eq!(message.get_data(), &expected_data);

    let jobs = parse_running_jobs_response(&empty_count_response());
    assert!(jobs.is_empty());
}

#[test]
fn get_running_jobs_parses_server_payload_without_success_flag() {
    let jobs = parse_running_jobs_response(&make_job_response());

    assert_eq!(jobs.len(), 1);
    assert_eq!(jobs[0].id, 11);
    assert_eq!(jobs[0].job_id, Some(22));
    assert_eq!(jobs[0].scheduler_id, Some(33));
    assert_eq!(jobs[0].bundle_hash, "bundle-hash");
}

#[test]
fn get_running_jobs_parses_response_after_request_id_consumed() {
    let mut wire_resp = Message::new(DB_RESPONSE, Priority::Highest, "system");
    wire_resp.push_uint(7);
    wire_resp.push_uint(1);
    wire_resp.push_ulong(11);
    wire_resp.push_ulong(22);
    wire_resp.push_ulong(33);
    wire_resp.push_bool(true);
    wire_resp.push_uint(4);
    wire_resp.push_string("bundle-hash");
    wire_resp.push_string("/tmp/workdir");
    wire_resp.push_bool(true);
    wire_resp.push_bool(false);
    wire_resp.push_bool(false);

    let mut delivered = Message::from_data(wire_resp.get_data().clone());
    assert_eq!(delivered.pop_uint(), 7);

    let jobs = parse_running_jobs_response(&delivered);
    assert_eq!(jobs.len(), 1);
    assert_eq!(jobs[0].id, 11);
    assert_eq!(jobs[0].job_id, Some(22));
    assert_eq!(jobs[0].scheduler_id, Some(33));
    assert_eq!(jobs[0].bundle_hash, "bundle-hash");
}

#[test]
fn get_running_jobs_clamps_count_to_remaining_bytes() {
    let mut parsed = Message::from_data(make_huge_count_job_response().get_data().clone());
    parsed.pop_uint();
    let expected = parsed.remaining_len();

    let jobs = parse_running_jobs_response(&make_huge_count_job_response());

    assert_eq!(jobs.len(), expected);
    assert_eq!(jobs[0].id, 11);
}

#[test]
fn parse_job_reads_deleted_flag() {
    let mut msg = Message::new(DB_RESPONSE, Priority::Highest, "database");
    msg.push_ulong(5);
    msg.push_ulong(0);
    msg.push_ulong(0);
    msg.push_bool(false);
    msg.push_uint(0);
    msg.push_string("hash");
    msg.push_string("/work");
    msg.push_bool(false);
    msg.push_bool(false);
    msg.push_bool(true);

    let mut resp = Message::from_data(msg.get_data().clone());
    let model = parse_job(&mut resp);

    assert_eq!(model.id, 5);
    assert_eq!(model.job_id, None);
    assert_eq!(model.scheduler_id, None);
    assert!(!model.running);
    assert!(!model.deleting);
    assert!(model.deleted);
}

#[test]
fn parse_status_reads_state_as_uint() {
    let mut msg = Message::new(DB_RESPONSE, Priority::Highest, "database");
    msg.push_ulong(99); // id
    msg.push_ulong(42); // job_id
    msg.push_string("scheduler_id"); // what
    msg.push_uint(500); // state (as u32, matching server)

    let mut resp = Message::from_data(msg.get_data().clone());
    // from_data consumes header (source + id), cursor is at payload

    let model = parse_status(&mut resp);
    assert_eq!(model.id, 99);
    assert_eq!(model.job_id, 42);
    assert_eq!(model.what, "scheduler_id");
    assert_eq!(model.state, 500);
}

#[test]
fn get_job_status_by_job_id_returns_empty_when_count_zero() {
    let message = build_get_job_status_by_job_id_request(42);
    let mut parsed = Message::from_data(message.get_data().clone());
    assert_eq!(parsed.id, DB_JOBSTATUS_GET_BY_JOB_ID);
    assert_eq!(parsed.pop_ulong(), 42);

    let statuses = parse_job_statuses_response(&empty_count_response());
    assert!(statuses.is_empty());
}

#[test]
fn get_job_status_by_job_id_sends_job_id_ulong_only_and_parses_statuses() {
    let expected_data = {
        let mut msg = Message::new(DB_JOBSTATUS_GET_BY_JOB_ID, Priority::Medium, "database");
        msg.push_ulong(42);
        msg.get_data().clone()
    };
    let message = build_get_job_status_by_job_id_request(42);
    assert_eq!(message.get_data(), &expected_data);

    let statuses = parse_job_statuses_response(&two_status_response());

    assert_eq!(statuses.len(), 2);
    assert_eq!(statuses[0].id, 11);
    assert_eq!(statuses[0].job_id, 42);
    assert_eq!(statuses[0].what, "scheduler_id");
    assert_eq!(statuses[0].state, 500);
    assert_eq!(statuses[1].id, 12);
    assert_eq!(statuses[1].job_id, 42);
    assert_eq!(statuses[1].what, "state");
    assert_eq!(statuses[1].state, 1);
}

#[test]
fn get_job_status_by_job_id_and_what_sends_job_id_ulong_then_what_string() {
    let message = build_get_job_status_by_job_id_and_what_request(42, "scheduler_id");
    let mut parsed = Message::from_data(message.get_data().clone());
    assert_eq!(parsed.id, DB_JOBSTATUS_GET_BY_JOB_ID_AND_WHAT);
    assert_eq!(parsed.pop_ulong(), 42);
    assert_eq!(parsed.pop_string(), "scheduler_id");

    let statuses = parse_job_statuses_response(&empty_count_response());
    assert!(statuses.is_empty());
}

#[test]
fn get_job_status_by_job_id_and_what_parses_count_then_statuses() {
    let statuses = parse_job_statuses_response(&two_status_response());

    assert_eq!(statuses.len(), 2);
    assert_eq!(statuses[0].id, 11);
    assert_eq!(statuses[0].job_id, 42);
    assert_eq!(statuses[0].what, "scheduler_id");
    assert_eq!(statuses[0].state, 500);
    assert_eq!(statuses[1].id, 12);
    assert_eq!(statuses[1].job_id, 42);
    assert_eq!(statuses[1].what, "state");
    assert_eq!(statuses[1].state, 1);
}

#[test]
fn save_status_sends_job_id_before_status_fields() {
    let status = jobstatus::Model {
        id: 0,
        job_id: 42,
        what: "scheduler_id".to_string(),
        state: 500,
    };
    let message = build_save_status_request(&status);
    let mut parsed = Message::from_data(message.get_data().clone());
    assert_eq!(parsed.id, DB_JOBSTATUS_SAVE);
    assert_eq!(parsed.pop_ulong(), 0);
    assert_eq!(parsed.pop_ulong(), 42);
    assert_eq!(parsed.pop_string(), "scheduler_id");
    assert_eq!(parsed.pop_uint(), 500);

    let mut resp = Message::new(DB_RESPONSE, Priority::Highest, "database");
    resp.push_ulong(77);
    let saved_id = parse_save_response(&resp, SAVE_STATUS_ERROR).unwrap();
    let saved = status_with_saved_id(status, saved_id);
    assert_eq!(saved.id, 77);
    assert_eq!(saved.what, "scheduler_id");
}

#[test]
fn delete_status_by_id_list_sends_count_then_ids() {
    let message = build_delete_status_by_id_list_request(&[11, 22, 33]);
    let mut parsed = Message::from_data(message.get_data().clone());
    assert_eq!(parsed.id, DB_JOBSTATUS_DELETE_BY_ID_LIST);
    assert_eq!(parsed.pop_uint(), 3);
    assert_eq!(parsed.pop_ulong(), 11);
    assert_eq!(parsed.pop_ulong(), 22);
    assert_eq!(parsed.pop_ulong(), 33);
    assert_eq!(parsed.remaining_len(), 0);
}

fn sample_job() -> job::Model {
    job::Model {
        id: 1,
        job_id: Some(22),
        scheduler_id: Some(33),
        submitting: true,
        submitting_count: 5,
        bundle_hash: "bundle-hash".to_string(),
        working_directory: "/tmp/workdir".to_string(),
        running: true,
        deleting: false,
        deleted: false,
    }
}

#[test]
fn save_job_sends_fields_in_wire_order() {
    let job = sample_job();
    let message = build_save_job_request(&job);
    let mut parsed = Message::from_data(message.get_data().clone());
    assert_eq!(parsed.id, DB_JOB_SAVE);
    assert_eq!(parsed.pop_ulong(), 1);
    assert_eq!(parsed.pop_ulong(), 22);
    assert_eq!(parsed.pop_ulong(), 33);
    assert!(parsed.pop_bool());
    assert_eq!(parsed.pop_uint(), 5);
    assert_eq!(parsed.pop_string(), "bundle-hash");
    assert_eq!(parsed.pop_string(), "/tmp/workdir");
    assert!(parsed.pop_bool());
    assert!(!parsed.pop_bool());
    assert!(!parsed.pop_bool());

    let mut resp = Message::new(DB_RESPONSE, Priority::Highest, "database");
    resp.push_ulong(99);
    let saved_id = parse_save_response(&resp, SAVE_JOB_ERROR).unwrap();
    let saved = job_with_saved_id(job, saved_id);
    assert_eq!(saved.id, 99);
}

#[test]
fn save_job_writes_missing_ids_as_zero() {
    let mut job = sample_job();
    job.job_id = None;
    job.scheduler_id = None;
    let mut parsed = Message::from_data(build_save_job_request(&job).get_data().clone());
    assert_eq!(parsed.pop_ulong(), 1);
    assert_eq!(parsed.pop_ulong(), 0);
    assert_eq!(parsed.pop_ulong(), 0);
}

#[test]
fn delete_job_sends_db_job_delete_with_job_id() {
    let message = build_delete_job_request(42);
    let mut parsed = Message::from_data(message.get_data().clone());
    assert_eq!(parsed.id, DB_JOB_DELETE);
    assert_eq!(parsed.pop_ulong(), 42);
}

#[test]
fn get_job_by_id_sends_id_only_request_and_parses_job() {
    let message = build_get_job_request(DB_JOB_GET_BY_ID, 42);
    let mut parsed = Message::from_data(message.get_data().clone());
    assert_eq!(parsed.id, DB_JOB_GET_BY_ID);
    assert_eq!(parsed.pop_ulong(), 42);

    let job = parse_job_lookup_response(&make_job_response());
    assert_eq!(job.as_ref().unwrap().id, 11);
    assert_eq!(job.as_ref().unwrap().job_id, Some(22));
    assert_eq!(job.as_ref().unwrap().scheduler_id, Some(33));
    assert_eq!(job.as_ref().unwrap().bundle_hash, "bundle-hash");
}

#[test]
fn get_job_by_id_returns_none_when_count_zero() {
    let message = build_get_job_request(DB_JOB_GET_BY_ID, 42);
    let mut parsed = Message::from_data(message.get_data().clone());
    assert_eq!(parsed.id, DB_JOB_GET_BY_ID);
    assert_eq!(parsed.pop_ulong(), 42);

    let job = parse_job_lookup_response(&empty_count_response());
    assert!(job.is_none());
}

#[test]
fn get_job_by_job_id_sends_id_only_request_and_parses_job() {
    let message = build_get_job_request(DB_JOB_GET_BY_JOB_ID, 42);
    let mut parsed = Message::from_data(message.get_data().clone());
    assert_eq!(parsed.id, DB_JOB_GET_BY_JOB_ID);
    assert_eq!(parsed.pop_ulong(), 42);

    let job = parse_job_lookup_response(&make_job_response());
    assert_eq!(job.as_ref().unwrap().id, 11);
    assert_eq!(job.as_ref().unwrap().job_id, Some(22));
    assert_eq!(job.as_ref().unwrap().scheduler_id, Some(33));
    assert_eq!(job.as_ref().unwrap().bundle_hash, "bundle-hash");
}

#[test]
fn get_or_create_by_job_id_returns_existing_job_when_found() {
    let message = build_get_job_request(DB_JOB_GET_BY_JOB_ID, 22);
    let mut parsed = Message::from_data(message.get_data().clone());
    assert_eq!(parsed.id, DB_JOB_GET_BY_JOB_ID);
    assert_eq!(parsed.pop_ulong(), 22);

    let job = job_or_default(parse_job_lookup_response(&make_job_response()));
    assert_eq!(job.id, 11);
    assert_eq!(job.job_id, Some(22));
    assert_eq!(job.scheduler_id, Some(33));
    assert_eq!(job.bundle_hash, "bundle-hash");
}

#[test]
fn get_or_create_by_job_id_returns_default_when_missing() {
    let job = job_or_default(parse_job_lookup_response(&empty_count_response()));
    assert_eq!(job, job::Model::default());
}

#[test]
fn save_job_errors_when_saved_id_is_zero() {
    let mut resp = Message::new(DB_RESPONSE, Priority::Highest, "database");
    resp.push_ulong(0);
    let result = parse_save_response(&resp, SAVE_JOB_ERROR);
    assert_eq!(result.unwrap_err(), "Database operation failed to save job");
}

#[test]
fn save_status_errors_when_saved_id_is_zero() {
    let mut resp = Message::new(DB_RESPONSE, Priority::Highest, "database");
    resp.push_ulong(0);
    let result = parse_save_response(&resp, SAVE_STATUS_ERROR);
    assert_eq!(
        result.unwrap_err(),
        "Database operation failed to save job status"
    );
}

#[test]
fn default_job_is_all_zero_and_empty() {
    let job = job::Model::default();
    assert_eq!(job.id, 0);
    assert_eq!(job.job_id, None);
    assert_eq!(job.scheduler_id, None);
    assert!(!job.submitting);
    assert_eq!(job.submitting_count, 0);
    assert_eq!(job.bundle_hash, "");
    assert_eq!(job.working_directory, "");
    assert!(!job.running && !job.deleted && !job.deleting);
}

#[test]
fn saved_job_round_trips_through_wire_format() {
    let job = sample_job();
    let mut delivered = Message::from_data(build_save_job_request(&job).get_data().clone());
    let parsed = parse_job(&mut delivered);
    assert_eq!(parsed, job);
}

// --- bridge decisions ---

#[test]
fn bridge_rejects_requests_while_disconnected() {
    assert_eq!(
        disconnected_rejection(true, false).as_deref(),
        Some("DB request error: WebSocket is disconnected")
    );
    assert!(disconnected_rejection(false, false).is_some());
    assert!(disconnected_rejection(true, true).is_some());
    assert_eq!(disconnected_rejection(false, true), None);
}

#[test]
fn bridge_answers_each_end_of_an_exchange() {
    let mut reply = Message::new(DB_RESPONSE, Priority::Medium, "database");
    reply.push_bool(true);
    reply.push_ulong(42);
    let answered = exchange_answer(ExchangeEnd::Replied(reply)).unwrap();
    let mut parsed = Message::from_data(answered.get_data().clone());
    assert!(parsed.pop_bool());
    assert_eq!(parsed.pop_ulong(), 42);

    assert_eq!(
        exchange_answer(ExchangeEnd::Failed("db connection failed".to_string())).err().unwrap(),
        "DB request error: db connection failed"
    );
    assert_eq!(
        exchange_answer(ExchangeEnd::TimedOut).err().unwrap(),
        "DB request timed out after 30s"
    );
}

#[test]
fn bridge_backlog_threshold_is_fifty() {
    assert!(!queue_backlogged(50));
    assert!(queue_backlogged(51));
    assert!(!queue_backlogged(0));
}

#[test]
fn saved_status_round_trips_through_wire_format() {
    let status = jobstatus::Model { id: -3, job_id: 42, what: "état ✓".to_string(), state: -1 };
    let mut delivered = Message::from_data(build_save_status_request(&status).get_data().clone());
    let parsed = parse_status(&mut delivered);
    assert_eq!(parsed, status);
    assert_eq!(delivered.remaining_len(), 0);
}

#[test]
fn saved_job_with_zero_ids_reads_back_as_none() {
    let mut job = sample_job();
    job.job_id = Some(0);
    let mut delivered = Message::from_data(build_save_job_request(&job).get_data().clone());
    assert_eq!(parse_job(&mut delivered).job_id, None);
}
