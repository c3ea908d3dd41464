use adacs_job_client::db::{job, jobstatus, job_with_saved_id, parse_save_response, SAVE_JOB_ERROR};
use adacs_job_client::jobs::{
    build_job_update, cancel_precheck, decide_completion, decide_status_entry, delete_precheck,
    finish_cancel, finish_delete, is_cancelled, job_complete, job_error, parse_job_id_request,
    parse_submit_request, plan_submit, reloaded_job, submit_outcome, CancelPrecheck,
    DeletePrecheck, JobUpdate, StatusEntry, StatusField, SubmitOutcome, SubmitPlan,
    MAX_SUBMIT_COUNT,
};
use adacs_job_client::message::{
    Message, Priority, CANCELLED, COMPLETED, DB_RESPONSE, DELETED, ERROR, JOB_COMPLETION_SOURCE,
    RUNNING, SUBMITTED, SUBMIT_JOB, SYSTEM_SOURCE, UPDATE_JOB,
};

fn make_job_model() -> job::Model {
    job::Model {
        id: 7,
        job_id: Some(1234),
        scheduler_id: Some(4321),
        submitting: false,
        submitting_count: 0,
        bundle_hash: "old-hash".to_string(),
        working_directory: "/old".to_string(),
        running: true,
        deleting: false,
        deleted: false,
    }
}

fn assert_update(u: &JobUpdate, job_id: i64, source: &str, status: u32, message: &str) {
    assert_eq!(u.job_id, job_id);
    assert_eq!(u.source, source);
    assert_eq!(u.status, status);
    assert_eq!(u.message, message);
}

#[test]
fn queue_job_update_queues_update_job_wire_format() {
    let update = JobUpdate {
        job_id: 42,
        source: SYSTEM_SOURCE.to_string(),
        status: ERROR,
        message: "Job has failed".to_string(),
    };
    let message = build_job_update(&update);
    assert_eq!(message.priority, Priority::Medium);
    let mut msg = Message::from_data(message.get_data().clone());
    assert_eq!(msg.id, UPDATE_JOB);
    assert_eq!(msg.source, "42");
    assert_eq!(msg.pop_uint(), 42);
    assert_eq!(msg.pop_string(), SYSTEM_SOURCE);
    assert_eq!(msg.pop_uint(), ERROR);
    assert_eq!(msg.pop_string(), "Job has failed");
}

#[test]
fn job_update_source_is_signed_decimal_of_job_id() {
    let update = JobUpdate { job_id: -5, source: "s".to_string(), status: 1, message: String::new() };
    let msg = Message::from_data(build_job_update(&update).get_data().clone());
    assert_eq!(msg.source, "-5");
}

fn found_job_response() -> Message {
    let mut resp = Message::new(DB_RESPONSE, Priority::Highest, "database");
    resp.push_uint(1);
    resp.push_ulong(99);
    resp.push_ulong(1234);
    resp.push_ulong(4321);
    resp.push_bool(false);
    resp.push_uint(0);
    resp.push_string("bundle-hash");
    resp.push_string("/tmp/workdir");
    resp.push_bool(false);
    resp.push_bool(false);
    resp.push_bool(false);
    resp
}

#[test]
fn reload_job_or_abort_reloads_job_when_found() {
    let found = adacs_job_client::db::parse_job_lookup_response(&found_job_response());
    let job_model = reloaded_job(Ok(found)).expect("job should be reloaded");
    assert_eq!(job_model.id, 99);
    assert_eq!(job_model.job_id, Some(1234));
    assert_eq!(job_model.scheduler_id, Some(4321));
    assert_eq!(job_model.bundle_hash, "bundle-hash");
    assert_eq!(job_model.working_directory, "/tmp/workdir");
    assert!(!job_model.running);
}

#[test]
fn reload_job_or_abort_aborts_when_job_disappeared() {
    let job_model = make_job_model();
    assert!(reloaded_job(Ok(None)).is_none());
    assert_eq!(job_model.id, 7);
    assert_eq!(job_model.job_id, Some(1234));
    assert!(job_model.running);
}

#[test]
fn reload_job_or_abort_aborts_on_db_error() {
    let job_model = make_job_model();
    assert!(reloaded_job(Err("db connection failed".to_string())).is_none());
    assert_eq!(job_model.id, 7);
    assert_eq!(job_model.job_id, Some(1234));
    assert!(job_model.running);
}

#[test]
fn save_job_or_abort_returns_saved_job_on_success() {
    let mut resp = Message::new(DB_RESPONSE, Priority::Highest, "database");
    resp.push_ulong(99);
    let saved_id = parse_save_response(&resp, SAVE_JOB_ERROR).unwrap();
    let saved = job_with_saved_id(make_job_model(), saved_id);
    assert_eq!(saved.id, 99);
    assert_eq!(saved.job_id, Some(1234));
    assert_eq!(saved.scheduler_id, Some(4321));
    assert_eq!(saved.bundle_hash, "old-hash");
    assert_eq!(saved.working_directory, "/old");
}

// --- requests ---

#[test]
fn submit_request_is_read_in_wire_order() {
    let mut msg = Message::new(SUBMIT_JOB, Priority::Medium, "server");
    msg.push_uint(12);
    msg.push_string("hash");
    msg.push_string("{\"p\":1}");
    let mut delivered = Message::from_data(msg.get_data().clone());
    let req = parse_submit_request(&mut delivered);
    assert_eq!(req.job_id, 12);
    assert_eq!(req.bundle_hash, "hash");
    assert_eq!(req.params, "{\"p\":1}");
}

#[test]
fn job_id_request_reads_u32() {
    let mut msg = Message::new(SUBMIT_JOB, Priority::Medium, "server");
    msg.push_uint(u32::MAX);
    let mut delivered = Message::from_data(msg.get_data().clone());
    assert_eq!(parse_job_id_request(&mut delivered), 4294967295);
}

// --- submission ---

#[test]
fn plan_submit_new_job_is_submitted() {
    let plan = plan_submit(job::Model::default(), 12, "hash");
    match plan {
        SubmitPlan::Submit(j) => {
            assert_eq!(j.job_id, Some(12));
            assert_eq!(j.bundle_hash, "hash");
            assert!(j.submitting);
            assert_eq!(j.working_directory, "");
        }
        _ => panic!("expected a submission"),
    }
}

#[test]
fn plan_submit_while_submitting_only_counts() {
    let mut job = make_job_model();
    job.submitting = true;
    job.submitting_count = 3;
    match plan_submit(job, 1234, "hash") {
        SubmitPlan::SaveOnly(j) => assert_eq!(j.submitting_count, 4),
        _ => panic!("expected the count to be saved"),
    }
}

#[test]
fn plan_submit_resubmits_after_too_many_attempts() {
    let mut job = make_job_model();
    job.submitting = true;
    job.submitting_count = MAX_SUBMIT_COUNT - 1;
    match plan_submit(job, 1234, "hash") {
        SubmitPlan::Submit(j) => {
            assert_eq!(j.submitting_count, 0);
            assert_eq!(j.job_id, Some(1234));
        }
        _ => panic!("expected a new submission"),
    }
}

#[test]
fn plan_submit_known_job_checks_status() {
    match plan_submit(make_job_model(), 1234, "hash") {
        SubmitPlan::CheckStatus(j) => assert_eq!(j.bundle_hash, "old-hash"),
        _ => panic!("expected a status check"),
    }
}

#[test]
fn submit_outcome_without_scheduler_id_fails_with_two_updates() {
    match submit_outcome(make_job_model(), 1234, 0) {
        SubmitOutcome::Failed { record_id, updates } => {
            assert_eq!(record_id, 7);
            assert_eq!(updates.len(), 2);
            let text = "Unable to submit job. Please check the logs as to why.";
            assert_update(&updates[0], 1234, SYSTEM_SOURCE, ERROR, text);
            assert_update(&updates[1], 1234, JOB_COMPLETION_SOURCE, ERROR, text);
        }
        _ => panic!("expected a failure"),
    }
}

#[test]
fn submit_outcome_with_scheduler_id_marks_running() {
    let mut job = make_job_model();
    job.submitting = true;
    job.running = false;
    match submit_outcome(job, 1234, 555) {
        SubmitOutcome::Submitted { job, update } => {
            assert_eq!(job.scheduler_id, Some(555));
            assert!(!job.submitting);
            assert!(job.running);
            assert_update(&update, 1234, SYSTEM_SOURCE, SUBMITTED, "Job submitted successfully");
        }
        _ => panic!("expected a submission"),
    }
}

// --- status checks ---

fn status(id: i64, what: &str, state: i32) -> jobstatus::Model {
    jobstatus::Model { id, job_id: 7, what: what.to_string(), state }
}

#[test]
fn status_entry_new_state_is_saved_and_announced() {
    let entry = StatusEntry {
        info: "running now".to_string(),
        status: StatusField::Unsigned(RUNNING as u64),
        what: "run".to_string(),
    };
    let d = decide_status_entry(7, 1234, &entry, vec![], false);
    assert!(d.delete_ids.is_empty());
    let saved = d.save.unwrap();
    assert_eq!(saved.id, 0);
    assert_eq!(saved.job_id, 7);
    assert_eq!(saved.what, "run");
    assert_eq!(saved.state, RUNNING as i32);
    assert_update(&d.update.unwrap(), 1234, "run", RUNNING, "running now");
}

#[test]
fn status_entry_unchanged_state_is_quiet_unless_forced() {
    let entry = StatusEntry {
        info: "i".to_string(),
        status: StatusField::Unsigned(RUNNING as u64),
        what: "run".to_string(),
    };
    let d = decide_status_entry(7, 1234, &entry, vec![status(3, "run", RUNNING as i32)], false);
    assert!(d.save.is_none() && d.update.is_none());
    let d = decide_status_entry(7, 1234, &entry, vec![status(3, "run", RUNNING as i32)], true);
    assert_eq!(d.save.unwrap().id, 3);
}

#[test]
fn status_entry_duplicates_are_deleted_and_replaced() {
    let entry = StatusEntry {
        info: "i".to_string(),
        status: StatusField::Unsigned(COMPLETED as u64),
        what: "run".to_string(),
    };
    let d = decide_status_entry(7, 1, &entry, vec![status(3, "run", 0), status(4, "run", 0)], false);
    assert_eq!(d.delete_ids, vec![3, 4]);
    assert_eq!(d.save.unwrap().id, 0);
}

#[test]
fn status_entry_null_status_is_ignored_and_non_integer_is_zero() {
    let null_entry = StatusEntry { info: String::new(), status: StatusField::Null, what: "w".to_string() };
    let d = decide_status_entry(7, 1, &null_entry, vec![], true);
    assert!(d.delete_ids.is_empty() && d.save.is_none() && d.update.is_none());

    let bad_entry = StatusEntry { info: String::new(), status: StatusField::NotUnsigned, what: "w".to_string() };
    let d = decide_status_entry(7, 1, &bad_entry, vec![], false);
    assert_eq!(d.save.unwrap().state, 0);
}

#[test]
fn job_error_reports_last_error_state() {
    assert_eq!(job_error(&vec![]), 0);
    assert_eq!(job_error(&vec![status(1, "a", RUNNING as i32), status(2, "b", COMPLETED as i32)]), 0);
    assert_eq!(job_error(&vec![status(1, "a", ERROR as i32), status(2, "b", 401)]), 401);
    assert_eq!(job_error(&vec![status(1, "a", ERROR as i32), status(2, "b", COMPLETED as i32)]), ERROR);
}

#[test]
fn job_complete_requires_every_status_completed() {
    assert!(job_complete(&vec![]));
    assert!(job_complete(&vec![status(1, "a", COMPLETED as i32)]));
    assert!(!job_complete(&vec![status(1, "a", COMPLETED as i32), status(2, "b", RUNNING as i32)]));
}

#[test]
fn completion_on_error_even_if_bundle_disagrees() {
    let statuses = vec![status(1, "a", ERROR as i32)];
    let c = decide_completion(&make_job_model(), 1234, &statuses, false).unwrap();
    assert!(!c.job.running);
    assert_update(&c.update, 1234, JOB_COMPLETION_SOURCE, ERROR, "Job has completed");
}

#[test]
fn completion_when_all_completed_and_bundle_agrees() {
    let statuses = vec![status(1, "a", COMPLETED as i32)];
    assert!(decide_completion(&make_job_model(), 1234, &statuses, false).is_none());
    let c = decide_completion(&make_job_model(), 1234, &statuses, true).unwrap();
    assert_update(&c.update, 1234, JOB_COMPLETION_SOURCE, COMPLETED, "Job has completed");
    let running = vec![status(1, "a", RUNNING as i32)];
    assert!(decide_completion(&make_job_model(), 1234, &running, true).is_none());
}

#[test]
fn cancelled_state_is_detected() {
    assert!(is_cancelled(&vec![status(1, "a", RUNNING as i32), status(2, "b", CANCELLED as i32)]));
    assert!(!is_cancelled(&vec![status(1, "a", RUNNING as i32)]));
}

// --- cancel and delete ---

#[test]
fn cancel_precheck_cases() {
    assert!(matches!(cancel_precheck(&make_job_model(), 1234), CancelPrecheck::Proceed));

    let mut stopped = make_job_model();
    stopped.running = false;
    match cancel_precheck(&stopped, 1234) {
        CancelPrecheck::Abort(Some(u)) => {
            assert_update(&u, 1234, JOB_COMPLETION_SOURCE, CANCELLED, "Job has been cancelled")
        }
        _ => panic!("expected an announced abort"),
    }

    let mut submitting = make_job_model();
    submitting.submitting = true;
    assert!(matches!(cancel_precheck(&submitting, 1234), CancelPrecheck::Abort(None)));
}

#[test]
fn finish_cancel_stops_job_and_announces() {
    let (job, update) = finish_cancel(make_job_model(), 1234);
    assert!(!job.running);
    assert_eq!(job.id, 7);
    assert_update(&update, 1234, JOB_COMPLETION_SOURCE, CANCELLED, "Job has been cancelled");
}

#[test]
fn delete_precheck_cases() {
    let mut idle = make_job_model();
    idle.running = false;
    match delete_precheck(idle.clone(), 1234) {
        DeletePrecheck::Proceed(j) => assert!(j.deleting),
        _ => panic!("expected the delete to proceed"),
    }

    assert!(matches!(delete_precheck(make_job_model(), 1234), DeletePrecheck::Abort(None)));

    let mut deleted = idle.clone();
    deleted.deleted = true;
    match delete_precheck(deleted, 1234) {
        DeletePrecheck::Abort(Some(u)) => {
            assert_update(&u, 1234, JOB_COMPLETION_SOURCE, DELETED, "Job has been deleted")
        }
        _ => panic!("expected an announced abort"),
    }

    let mut deleting = idle;
    deleting.deleting = true;
    assert!(matches!(delete_precheck(deleting, 1234), DeletePrecheck::AlreadyDeleting));

    assert!(matches!(
        delete_precheck(job::Model::default(), 1234),
        DeletePrecheck::Abort(Some(_))
    ));
}

#[test]
fn finish_delete_outcomes() {
    let mut j = make_job_model();
    j.deleting = true;
    let (saved, update) = finish_delete(j.clone(), 1234, true);
    assert!(saved.deleted && !saved.deleting);
    assert_update(&update.unwrap(), 1234, JOB_COMPLETION_SOURCE, DELETED, "Job has been deleted");

    let (saved, update) = finish_delete(j, 1234, false);
    assert!(!saved.deleted && !saved.deleting);
    assert!(update.is_none());
}

#[test]
fn get_or_create_job_or_abort_returns_job_on_success() {
    let mut resp = Message::new(DB_RESPONSE, Priority::Highest, "database");
    resp.push_uint(1);
    resp.push_ulong(11);
    resp.push_ulong(22);
    resp.push_ulong(33);
    resp.push_bool(true);
    resp.push_uint(4);
    resp.push_string("bundle-hash");
    resp.push_string("/tmp/workdir");
    resp.push_bool(true);
    resp.push_bool(false);
    resp.push_bool(false);
    let job = adacs_job_client::db::job_or_default(adacs_job_client::db::parse_job_lookup_response(&resp));
    assert_eq!(job.id, 11);
    assert_eq!(job.job_id, Some(22));
    assert_eq!(job.scheduler_id, Some(33));
    assert_eq!(job.bundle_hash, "bundle-hash");
    assert_eq!(job.working_directory, "/tmp/workdir");
}
