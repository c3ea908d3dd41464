use adacs_job_client::bundle_db::{
    build_bundle_create_or_update_message, build_bundle_delete_message,
    build_bundle_get_by_id_message, check_delete_job_id, db_error_text, err_cstring,
    parse_create_or_update_response, parse_get_job_by_id_response,
};
use adacs_job_client::bundle_interface::fallback_value_text;
use adacs_job_client::bundle_logging::{get_last_log_message, BundleLog};
use adacs_job_client::bundle_manager::{
    get_default_bundle_path, load_failure_message, run_bundle_bool_result, run_bundle_json_text,
    run_bundle_string_result, run_bundle_uint64_result, scope_failure_message, BundleCall,
};
use adacs_job_client::message::{
    Message, Priority, DB_BUNDLE_CREATE_OR_UPDATE_JOB, DB_BUNDLE_DELETE_JOB,
    DB_BUNDLE_GET_JOB_BY_ID, DB_RESPONSE,
};

#[test]
fn err_cstring_preserves_well_formed_message() {
    let cstr = err_cstring("Job with ID 9 does not exist.");
    assert_eq!(cstr.as_str(), "Job with ID 9 does not exist.");
}

#[test]
fn err_cstring_falls_back_on_interior_nul() {
    let cstr = err_cstring("bad\x00message");
    assert_eq!(cstr.as_str(), "Internal error");
}

#[test]
fn build_bundle_create_or_update_message_matches_server_order() {
    let mut msg = Message::from_data(
        build_bundle_create_or_update_message("hash-1", 42, "{\"a\":1}")
            .get_data()
            .clone(),
    );

    assert_eq!(msg.id, DB_BUNDLE_CREATE_OR_UPDATE_JOB);
    assert_eq!(msg.pop_ulong(), 42);
    assert_eq!(msg.pop_string(), "{\"a\":1}");
    assert_eq!(msg.pop_string(), "hash-1");
}

#[test]
fn build_bundle_get_by_id_message_sends_only_job_id() {
    let mut msg = Message::from_data(build_bundle_get_by_id_message(9).get_data().clone());

    assert_eq!(msg.id, DB_BUNDLE_GET_JOB_BY_ID);
    assert_eq!(msg.pop_ulong(), 9);
}

#[test]
fn build_bundle_delete_message_sends_only_job_id() {
    let mut msg = Message::from_data(build_bundle_delete_message(9).get_data().clone());

    assert_eq!(msg.id, DB_BUNDLE_DELETE_JOB);
    assert_eq!(msg.pop_ulong(), 9);
}

#[test]
fn parse_get_job_by_id_response_reads_count_then_payload() {
    let mut response = Message::new(DB_RESPONSE, Priority::Highest, "database");
    response.push_uint(1);
    response.push_ulong(9);
    response.push_string("{\"job_id\":9}");

    let payload = parse_get_job_by_id_response(&response, 9).unwrap();
    assert_eq!(payload, "{\"job_id\":9}");
}

#[test]
fn parse_create_or_update_response_after_request_id_consumed() {
    let mut wire_response = Message::new(DB_RESPONSE, Priority::Highest, "system");
    wire_response.push_uint(42);
    wire_response.push_ulong(1234);

    let mut delivered = Message::from_data(wire_response.get_data().clone());
    assert_eq!(delivered.pop_uint(), 42);

    assert_eq!(parse_create_or_update_response(&delivered).unwrap(), 1234);
}

#[test]
fn parse_get_job_by_id_response_after_request_id_consumed() {
    let mut wire_response = Message::new(DB_RESPONSE, Priority::Highest, "system");
    wire_response.push_uint(42);
    wire_response.push_uint(1);
    wire_response.push_ulong(9);
    wire_response.push_string("{\"job_id\":9}");

    let mut delivered = Message::from_data(wire_response.get_data().clone());
    assert_eq!(delivered.pop_uint(), 42);

    let payload = parse_get_job_by_id_response(&delivered, 9).unwrap();
    assert_eq!(payload, "{\"job_id\":9}");
}

#[test]
fn parse_create_or_update_response_rejects_zero_job_id() {
    let mut response = Message::new(DB_RESPONSE, Priority::Highest, "database");
    response.push_ulong(0);

    let err = parse_create_or_update_response(&response).unwrap_err();
    assert_eq!(err, "Job was unable to be created or updated.");
}

#[test]
fn parse_get_job_by_id_response_rejects_missing_job() {
    let mut response = Message::new(DB_RESPONSE, Priority::Highest, "database");
    response.push_uint(0);

    let err = parse_get_job_by_id_response(&response, 9).unwrap_err();
    assert_eq!(err, "Job with ID 9 does not exist.");
}

#[test]
fn parse_get_job_by_id_response_reports_requested_id_for_large_ids() {
    let mut response = Message::new(DB_RESPONSE, Priority::Highest, "database");
    response.push_uint(0);

    let err = parse_get_job_by_id_response(&response, 18446744073709551615).unwrap_err();
    assert_eq!(err, "Job with ID 18446744073709551615 does not exist.");
}

#[test]
fn parse_get_job_by_id_response_with_empty_payload_is_ok() {
    let mut response = Message::new(DB_RESPONSE, Priority::Highest, "database");
    response.push_uint(1);
    response.push_ulong(3);
    response.push_string("");

    assert_eq!(parse_get_job_by_id_response(&response, 3).unwrap(), "");
}

#[test]
fn check_delete_job_id_rejects_zero_and_accepts_others() {
    assert_eq!(check_delete_job_id(0).unwrap_err(), "Job ID must be provided.");
    assert!(check_delete_job_id(5).is_ok());
}

#[test]
fn db_error_text_prefixes_reason() {
    assert_eq!(db_error_text("timeout"), "DB error: timeout");
}

#[test]
fn prefers_display_when_nonempty() {
    assert_eq!(fallback_value_text("display", "repr"), "display");
}

#[test]
fn uses_repr_when_display_empty() {
    assert_eq!(fallback_value_text("", "repr"), "repr");
}

#[test]
fn write_log_joins_pieces_until_newline() {
    let mut log = BundleLog::new();
    assert_eq!(get_last_log_message(&log), None);
    assert_eq!(log.write("abc", "hello ", true), None);
    assert_eq!(log.write("abc", "world", true), None);
    assert_eq!(
        log.write("abc", "\n", true),
        Some(("Bundle [abc]: hello world".to_string(), true))
    );
    assert_eq!(
        get_last_log_message(&log),
        Some(("Bundle [abc]: hello world".to_string(), true))
    );
}

#[test]
fn write_log_starts_a_new_line_after_newline() {
    let mut log = BundleLog::new();
    log.write("h", "first", false);
    log.write("h", "\n", false);
    log.write("h", "second", false);
    assert_eq!(
        log.write("h", "\n", false),
        Some(("Bundle [h]: second".to_string(), false))
    );
}

#[test]
fn write_log_lone_newline_logs_empty_line() {
    let mut log = BundleLog::new();
    assert_eq!(
        log.write("h", "\n", true),
        Some(("Bundle [h]: ".to_string(), true))
    );
}

#[test]
fn write_log_text_with_trailing_newline_is_a_piece() {
    let mut log = BundleLog::new();
    assert_eq!(log.write("h", "line\n", true), None);
    assert_eq!(
        log.write("h", "\n", true),
        Some(("Bundle [h]: line\n".to_string(), true))
    );
}

#[test]
fn get_default_bundle_path_appends_bundles_dir() {
    let path = get_default_bundle_path("/opt/client/adacs_job_client");
    let suffix = std::path::Path::new(&path)
        .file_name()
        .and_then(|n| n.to_str());
    assert_eq!(suffix, Some("bundles"));
}

#[test]
fn get_default_bundle_path_is_sibling_of_executable() {
    assert_eq!(
        get_default_bundle_path("/opt/client/adacs_job_client"),
        "/opt/client/bundles"
    );
    assert_eq!(get_default_bundle_path("/adacs_job_client"), "/bundles");
    assert_eq!(get_default_bundle_path("adacs_job_client"), "bundles");
    assert_eq!(get_default_bundle_path("/opt//client//exe"), "/opt//client/bundles");
    assert_eq!(get_default_bundle_path("/opt/client/exe/"), "/opt/client/bundles");
}

#[test]
fn get_default_bundle_path_agrees_with_path_buf() {
    let cases = [
        "", "/", "//", ".", "./", "..", "../exe", "./exe", ".exe", ".exe/x", "a/.", "a/./",
        "/a/./b", "/a/b/.", "/a/b/./", "/./exe", "/.", "/./", "./.", "././exe", "a//b///",
        "/opt/client/exe", "exe/..", "/..", "a/b/../c", "./a/./b/.", ".//exe", "x/./.",
    ];
    for case in cases {
        let mut expected = std::path::PathBuf::from(case);
        expected.pop();
        expected.push("bundles");
        assert_eq!(
            get_default_bundle_path(case),
            expected.to_string_lossy().to_string(),
            "executable path {case:?}"
        );
    }
}

fn error_field(text: &str) -> String {
    let parsed: serde_json::Value = serde_json::from_str(text).expect("result should be valid JSON");
    parsed["error"].as_str().unwrap_or_default().to_string()
}

#[test]
fn run_bundle_string_returns_error_json_when_thread_scope_fails() {
    let result = run_bundle_string_result("fail", BundleCall::ScopeFailed("boom".to_string()));
    assert_eq!(error_field(&result), "Failed to create thread scope: boom");
}

#[test]
fn run_bundle_uint64_returns_zero_when_thread_scope_fails() {
    assert_eq!(run_bundle_uint64_result(BundleCall::ScopeFailed("boom".to_string())), 0);
}

#[test]
fn run_bundle_bool_returns_false_when_thread_scope_fails() {
    assert!(!run_bundle_bool_result(BundleCall::ScopeFailed("boom".to_string())));
}

#[test]
fn run_bundle_json_returns_null_when_thread_scope_fails() {
    assert_eq!(
        run_bundle_json_text(BundleCall::ScopeFailed("boom".to_string())),
        None
    );
}

#[test]
fn run_bundle_string_returns_error_json_when_load_fails() {
    let result = run_bundle_string_result(
        "missing",
        BundleCall::LoadFailed("no bundle.py".to_string()),
    );
    let error = error_field(&result);
    assert!(error.starts_with("Failed to load bundle"), "unexpected error: {error}");
    assert_eq!(error, "Failed to load bundle missing: no bundle.py");
}

#[test]
fn run_bundle_uint64_returns_zero_when_load_fails() {
    assert_eq!(run_bundle_uint64_result(BundleCall::LoadFailed("x".to_string())), 0);
}

#[test]
fn run_bundle_bool_returns_false_when_load_fails() {
    assert!(!run_bundle_bool_result(BundleCall::LoadFailed("x".to_string())));
}

#[test]
fn run_bundle_json_returns_null_when_load_fails() {
    assert_eq!(run_bundle_json_text(BundleCall::LoadFailed("x".to_string())), None);
}

#[test]
fn run_bundle_results_pass_returned_values_through() {
    assert_eq!(
        run_bundle_string_result("h", BundleCall::Returned("out".to_string())),
        "out"
    );
    assert_eq!(run_bundle_string_result("h", BundleCall::ReturnedNone), "");
    assert_eq!(run_bundle_uint64_result(BundleCall::Returned(77)), 77);
    assert_eq!(run_bundle_uint64_result(BundleCall::ReturnedNone), 0);
    assert!(run_bundle_bool_result(BundleCall::Returned(true)));
    assert_eq!(
        run_bundle_json_text(BundleCall::Returned(Ok("{\"a\":1}".to_string()))),
        Some("{\"a\":1}".to_string())
    );
    assert_eq!(run_bundle_json_text(BundleCall::ReturnedNone), None);
}

#[test]
fn run_bundle_json_reports_serialize_failure_as_error_object() {
    let text = run_bundle_json_text(BundleCall::Returned(Err("bad".to_string()))).unwrap();
    assert_eq!(error_field(&text), "Failed to serialize result: bad");
}

#[test]
fn error_json_escapes_quotes() {
    let result = run_bundle_string_result("h", BundleCall::ScopeFailed("say \"hi\"".to_string()));
    assert_eq!(error_field(&result), "Failed to create thread scope: say \"hi\"");
    assert_eq!(
        result,
        "{\"error\":\"Failed to create thread scope: say \\\"hi\\\"\"}"
    );
}

#[test]
fn failure_messages_have_fixed_shape() {
    assert_eq!(load_failure_message("h", "r"), "Failed to load bundle h: r");
    assert_eq!(scope_failure_message("r"), "Failed to create thread scope: r");
}

#[test]
fn error_json_escapes_control_characters() {
    let result = run_bundle_string_result(
        "h",
        BundleCall::ScopeFailed("a\u{1}\n\\b\t\u{8}\u{c}\r\u{1f}é\u{7f}/".to_string()),
    );
    assert_eq!(
        result,
        "{\"error\":\"Failed to create thread scope: a\\u0001\\n\\\\b\\t\\b\\f\\r\\u001fé\u{7f}/\"}"
    );
}
