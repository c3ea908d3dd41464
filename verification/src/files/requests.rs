//! The messages of the file protocol: decoding file list, download and
//! upload requests, building their replies, the `SERVER_READY` handshake
//! and the outcome of a job's working-directory lookup.

use vstd::prelude::*;
use vstd::utf8::encode_utf8;
use crate::config::{get_ws_endpoint_from_config, with_trailing_slash, ClientConfig, EntryView, DEFAULT_WEBSOCKET_ENDPOINT};
use crate::db::job;
use crate::message::{
    fresh_spec, from_data_spec, pop_bool_spec, pop_string_spec, pop_u32_spec, pop_u64_spec,
    push_bool_spec, push_string_spec, push_u32_spec, push_u64_spec, Message, MessageView, Priority,
    encode_bool, encode_string, le_u64,
    FILE_DOWNLOAD_DETAILS, FILE_LIST, FILE_LIST_ERROR, SERVER_READY,
};
use crate::text::{concat_str, decimal_digits, u64_to_decimal};
use super::timeouts::SERVER_READY_TIMEOUT_SECS;

verus! {

/// Sent when the directory to list does not exist.
pub const LIST_PATH_MISSING_TEXT: &'static str = "Path to list files does not exist";

/// Sent when the directory to list lies outside the working directory.
pub const LIST_PATH_OUTSIDE_TEXT: &'static str = "Path to list files is outside the working directory";

/// Sent when the path to list is not a directory.
pub const LIST_PATH_NOT_DIR_TEXT: &'static str = "Path to list files is not a directory";

/// Sent when the file to download does not exist.
pub const DOWNLOAD_PATH_MISSING_TEXT: &'static str = "Path to file download does not exist";

/// Sent when the file to download lies outside the working directory.
pub const DOWNLOAD_PATH_OUTSIDE_TEXT: &'static str = "Path to file download is outside the working directory";

/// Sent when the path to download is not a regular file.
pub const DOWNLOAD_NOT_FILE_TEXT: &'static str = "Path to file download is not a file";

/// Sent when the file to download cannot be opened.
pub const DOWNLOAD_OPEN_FAILED_TEXT: &'static str = "Failed to open file for download";

/// The error sent when the file's metadata cannot be read.
pub fn metadata_error(reason: &str) -> (s: String)
    ensures
        s@ == "Failed to get file metadata: "@ + reason@,
{
    concat_str("Failed to get file metadata: ", reason)
}

/// The primary error recorded when the handshake of a download fails.
pub fn handshake_primary_error(reason: &str) -> (s: String)
    ensures
        s@ == "SERVER_READY validation failed: "@ + reason@,
{
    concat_str("SERVER_READY validation failed: ", reason)
}

/// The primary error recorded when the job lookup of a download fails.
pub fn lookup_primary_error(client_message: &str) -> (s: String)
    ensures
        s@ == "job lookup failed: "@ + client_message@,
{
    concat_str("job lookup failed: ", client_message)
}

/// A file list request: which job's (or bundle's) directory to list.
pub struct FileListRequest {
    pub job_id: i64,
    pub uuid: String,
    pub bundle_hash: String,
    pub dir_path: String,
    pub is_recursive: bool,
}

/// Decodes a file list request: job id, uuid, bundle hash, directory, recursive flag.
pub fn parse_file_list_request(msg: &mut Message) -> (r: FileListRequest)
    ensures
        ({
            let (job_id, m1) = pop_u32_spec(old(msg)@);
            let (uuid, m2) = pop_string_spec(m1);
            let (bundle_hash, m3) = pop_string_spec(m2);
            let (dir_path, m4) = pop_string_spec(m3);
            let (is_recursive, m5) = pop_bool_spec(m4);
            &&& r.job_id == job_id as i64
            &&& r.uuid@ == uuid
            &&& r.bundle_hash@ == bundle_hash
            &&& r.dir_path@ == dir_path
            &&& r.is_recursive == is_recursive
            &&& final(msg)@ == m5
        }),
{
    let job_id = msg.pop_uint() as i64;
    let uuid = msg.pop_string();
    let bundle_hash = msg.pop_string();
    let dir_path = msg.pop_string();
    let is_recursive = msg.pop_bool();
    FileListRequest { job_id, uuid, bundle_hash, dir_path, is_recursive }
}

/// One entry of a file listing.
pub struct FileEntry {
    pub path: String,
    pub is_dir: bool,
    pub size: u64,
}

/// Abstract view of a file listing entry.
pub struct FileEntryView {
    pub path: Seq<char>,
    pub is_dir: bool,
    pub size: u64,
}

impl View for FileEntry {
    type V = FileEntryView;

    open spec fn view(&self) -> FileEntryView {
        FileEntryView { path: self.path@, is_dir: self.is_dir, size: self.size }
    }
}

/// The message after appending each entry: path, directory flag, size.
pub open spec fn push_entries_spec(m: MessageView, entries: Seq<FileEntryView>) -> MessageView
    decreases entries.len(),
{
    if entries.len() == 0 {
        m
    } else {
        let e = entries.last();
        push_u64_spec(
            push_bool_spec(push_string_spec(push_entries_spec(m, entries.drop_last()), e.path), e.is_dir),
            e.size,
        )
    }
}

/// Every listed entry, directory or not, adds its path, its directory flag
/// and its size (a `u64`) after the entries before it, and nothing else;
/// with no entries the message is unchanged.
pub proof fn law_listing_entry_layout(m: MessageView, entries: Seq<FileEntryView>, e: FileEntryView)
    ensures
        push_entries_spec(m, Seq::empty()) == m,
        push_entries_spec(m, entries.push(e)) == (MessageView {
            data: push_entries_spec(m, entries).data + encode_string(e.path) + encode_bool(e.is_dir)
                + le_u64(e.size),
            ..push_entries_spec(m, entries)
        }),
        push_entries_spec(m, entries.push(e)).data.len() == push_entries_spec(m, entries).data.len()
            + 8 + encode_utf8(e.path).len() + 1 + 8,
{
    assert(entries.push(e).drop_last() =~= entries);
    lemma_push_entries_keeps_header(m, entries);
}

proof fn lemma_push_entries_keeps_header(m: MessageView, entries: Seq<FileEntryView>)
    ensures
        push_entries_spec(m, entries) == (MessageView { data: push_entries_spec(m, entries).data, ..m }),
    decreases entries.len(),
{
    if entries.len() > 0 {
        lemma_push_entries_keeps_header(m, entries.drop_last());
    }
}

/// The listing count on the wire: the number of entries, saturated to `u32::MAX`.
pub open spec fn listing_count(n: nat) -> u32 {
    if n <= u32::MAX {
        n as u32
    } else {
        u32::MAX
    }
}

/// The reply to a file list request: the uuid, the entry count, then every entry.
pub fn build_file_list_response(uuid: &str, entries: &[FileEntry]) -> (m: Message)
    ensures
        m@ == push_entries_spec(
            push_u32_spec(
                push_string_spec(fresh_spec(FILE_LIST, Priority::Highest, uuid@), uuid@),
                listing_count(entries@.len()),
            ),
            entries@.map_values(|e: FileEntry| e@),
        ),
{
    let mut result = Message::new(FILE_LIST, Priority::Highest, uuid);
    result.push_string(uuid);
    let n = entries.len();
    let count: u32 = if n <= 0xffff_ffffusize { n as u32 } else { u32::MAX };
    result.push_uint(count);
    let ghost start = result@;
    let ghost ev = entries@.map_values(|e: FileEntry| e@);
    let mut i: usize = 0;
    while i < n
        invariant
            n == entries@.len(),
            i <= n,
            ev == entries@.map_values(|e: FileEntry| e@),
            result@ == push_entries_spec(start, ev.take(i as int)),
        decreases n - i,
    {
        let e = &entries[i];
        result.push_string(e.path.as_str());
        result.push_bool(e.is_dir);
        result.push_ulong(e.size);
        assert(ev.take(i as int + 1).drop_last() =~= ev.take(i as int));
        assert(ev.take(i as int + 1).last() == e@);
        i = i + 1;
    }
    assert(ev.take(n as int) =~= ev);
    result
}

/// The error reply to a file list request: the uuid, then the error text.
pub fn build_file_list_error(uuid: &str, error_msg: &str) -> (m: Message)
    ensures
        m@ == push_string_spec(
            push_string_spec(fresh_spec(FILE_LIST_ERROR, Priority::Highest, uuid@), uuid@),
            error_msg@,
        ),
{
    let mut result = Message::new(FILE_LIST_ERROR, Priority::Highest, uuid);
    result.push_string(uuid);
    result.push_string(error_msg);
    result
}

/// A file download request.
pub struct FileDownloadRequest {
    pub job_id: i64,
    pub uuid: String,
    pub bundle_hash: String,
    pub file_path: String,
}

/// Decodes a file download request: job id, uuid, bundle hash, file path.
pub fn parse_file_download_request(msg: &mut Message) -> (r: FileDownloadRequest)
    ensures
        ({
            let (job_id, m1) = pop_u32_spec(old(msg)@);
            let (uuid, m2) = pop_string_spec(m1);
            let (bundle_hash, m3) = pop_string_spec(m2);
            let (file_path, m4) = pop_string_spec(m3);
            &&& r.job_id == job_id as i64
            &&& r.uuid@ == uuid
            &&& r.bundle_hash@ == bundle_hash
            &&& r.file_path@ == file_path
            &&& final(msg)@ == m4
        }),
{
    let job_id = msg.pop_uint() as i64;
    let uuid = msg.pop_string();
    let bundle_hash = msg.pop_string();
    let file_path = msg.pop_string();
    FileDownloadRequest { job_id, uuid, bundle_hash, file_path }
}

/// The message announcing a download's size.
pub fn build_download_details(uuid: &str, file_size: u64) -> (m: Message)
    ensures
        m@ == push_u64_spec(fresh_spec(FILE_DOWNLOAD_DETAILS, Priority::Highest, uuid@), file_size),
{
    let mut msg = Message::new(FILE_DOWNLOAD_DETAILS, Priority::Highest, uuid);
    msg.push_ulong(file_size);
    msg
}

/// A file transfer error message with the given id: just the error text.
pub fn build_file_error(msg_id: u32, uuid: &str, error_msg: &str) -> (m: Message)
    ensures
        m@ == push_string_spec(fresh_spec(msg_id, Priority::Highest, uuid@), error_msg@),
{
    let mut result = Message::new(msg_id, Priority::Highest, uuid);
    result.push_string(error_msg);
    result
}

/// The first frame received on a file connection (or why there is none).
pub enum HandshakeFrame {
    /// A binary frame.
    Binary(Vec<u8>),
    /// A frame of another kind.
    Other,
    /// A receive error, with its text.
    Error(String),
    /// The peer closed the stream.
    Closed,
    /// Nothing arrived in time.
    TimedOut,
}

/// Why the handshake failed, for each kind of first frame; none when a
/// binary frame carries the `SERVER_READY` id.
pub open spec fn handshake_failure(frame: HandshakeFrame) -> Option<Seq<char>> {
    match frame {
        HandshakeFrame::Binary(d) => {
            let id = from_data_spec(d@).id;
            if id == SERVER_READY {
                None
            } else {
                Some("expected SERVER_READY, got "@ + decimal_digits(id as nat))
            }
        },
        HandshakeFrame::Other => Some("expected binary SERVER_READY, got unexpected frame"@),
        HandshakeFrame::Error(e) => Some("handshake error: "@ + e@),
        HandshakeFrame::Closed => Some("server closed connection before sending SERVER_READY"@),
        HandshakeFrame::TimedOut => Some(
            "timeout waiting for SERVER_READY after "@ + decimal_digits(SERVER_READY_TIMEOUT_SECS as nat)
                + "s"@,
        ),
    }
}

/// Checks the first frame of a file connection: it must be a binary
/// `SERVER_READY` message; otherwise the reason is returned.
pub fn validate_server_ready(frame: HandshakeFrame) -> (res: Result<(), String>)
    ensures
        match handshake_failure(frame) {
            None => res is Ok,
            Some(reason) => res matches Err(e) && e@ == reason,
        },
{
    match frame {
        HandshakeFrame::Binary(data) => {
            let msg = Message::from_data(data);
            let id = msg.get_id();
            if id == SERVER_READY {
                Ok(())
            } else {
                let n = u64_to_decimal(id as u64);
                Err(concat_str("expected SERVER_READY, got ", n.as_str()))
            }
        },
        HandshakeFrame::Other => Err("expected binary SERVER_READY, got unexpected frame".to_owned()),
        HandshakeFrame::Error(e) => Err(concat_str("handshake error: ", e.as_str())),
        HandshakeFrame::Closed => Err("server closed connection before sending SERVER_READY".to_owned()),
        HandshakeFrame::TimedOut => {
            let n = u64_to_decimal(SERVER_READY_TIMEOUT_SECS);
            let a = concat_str("timeout waiting for SERVER_READY after ", n.as_str());
            Err(concat_str(a.as_str(), "s"))
        },
    }
}

/// Client-facing error from a working-directory lookup.
#[derive(Debug, PartialEq, Eq)]
pub enum JobLookupError {
    NotSubmitted,
    NotFound,
    Database(String),
}

/// The exact text sent to the client for a lookup error.
pub open spec fn lookup_error_text(e: JobLookupError) -> Seq<char> {
    match e {
        JobLookupError::NotSubmitted => "Job is not submitted"@,
        JobLookupError::NotFound => "Job does not exist"@,
        JobLookupError::Database(m) => "Database error: "@ + m@,
    }
}

impl JobLookupError {
    /// The exact error string sent to the client over the wire.
    pub fn client_message(&self) -> (s: String)
        ensures
            s@ == lookup_error_text(*self),
    {
        match self {
            JobLookupError::NotSubmitted => "Job is not submitted".to_owned(),
            JobLookupError::NotFound => "Job does not exist".to_owned(),
            JobLookupError::Database(e) => concat_str("Database error: ", e.as_str()),
        }
    }
}

/// The working directory of a looked-up job: found jobs that are still being
/// submitted are refused, missing jobs and database errors are reported.
pub fn lookup_job_working_directory(found: Result<Option<job::Model>, String>) -> (res: Result<String, JobLookupError>)
    ensures
        match found {
            Ok(Some(j)) => if j.submitting {
                res == Err::<String, JobLookupError>(JobLookupError::NotSubmitted)
            } else {
                res matches Ok(wd) && wd@ == j.working_directory@
            },
            Ok(None) => res == Err::<String, JobLookupError>(JobLookupError::NotFound),
            Err(e) => res matches Err(JobLookupError::Database(m)) && m@ == e@,
        },
{
    match found {
        Ok(Some(j)) => {
            if j.submitting {
                Err(JobLookupError::NotSubmitted)
            } else {
                Ok(j.working_directory)
            }
        },
        Ok(None) => Err(JobLookupError::NotFound),
        Err(e) => Err(JobLookupError::Database(e)),
    }
}

/// The fields of an upload request.
pub struct UploadFields {
    pub uuid: String,
    pub job_id: i64,
    pub bundle_hash: String,
    pub target_path: String,
    pub file_size: u64,
}

/// The fields an upload request decodes to, from the message's read position.
pub open spec fn upload_fields_spec(m: MessageView) -> (Seq<char>, i64, Seq<char>, Seq<char>, u64, MessageView) {
    let (uuid, m1) = pop_string_spec(m);
    let (job_id, m2) = pop_u32_spec(m1);
    let (bundle_hash, m3) = pop_string_spec(m2);
    let (target_path, m4) = pop_string_spec(m3);
    let (file_size, m5) = pop_u64_spec(m4);
    (uuid, job_id as i64, bundle_hash, target_path, file_size, m5)
}

/// Decodes an upload request: uuid, job id, bundle hash, target path, size.
pub fn parse_upload_fields(msg: &mut Message) -> (f: UploadFields)
    ensures
        ({
            let (uuid, job_id, bundle_hash, target_path, file_size, m) = upload_fields_spec(old(msg)@);
            &&& f.uuid@ == uuid
            &&& f.job_id == job_id
            &&& f.bundle_hash@ == bundle_hash
            &&& f.target_path@ == target_path
            &&& f.file_size == file_size
            &&& final(msg)@ == m
        }),
{
    let uuid = msg.pop_string();
    let job_id = msg.pop_uint() as i64;
    let bundle_hash = msg.pop_string();
    let target_path = msg.pop_string();
    let file_size = msg.pop_ulong();
    UploadFields { uuid, job_id, bundle_hash, target_path, file_size }
}

/// An upload to run: the request's fields and the endpoint to connect to.
pub struct UploadRequest {
    pub fields: UploadFields,
    pub ws_endpoint: String,
}

/// Prepares an upload: decodes the request and takes the WebSocket endpoint
/// from the configuration (as read before the upload starts).
pub fn handle_file_upload(msg: &mut Message, config: &ClientConfig) -> (r: UploadRequest)
    ensures
        ({
            let (uuid, job_id, bundle_hash, target_path, file_size, m) = upload_fields_spec(old(msg)@);
            &&& r.fields.uuid@ == uuid
            &&& r.fields.job_id == job_id
            &&& r.fields.bundle_hash@ == bundle_hash
            &&& r.fields.target_path@ == target_path
            &&& r.fields.file_size == file_size
            &&& final(msg)@ == m
            &&& r.ws_endpoint@ == match config.websocket_endpoint@ {
                EntryView::Text(s) => with_trailing_slash(s),
                _ => with_trailing_slash(DEFAULT_WEBSOCKET_ENDPOINT@),
            }
        }),
{
    let fields = parse_upload_fields(msg);
    let ws_endpoint = get_ws_endpoint_from_config(config);
    UploadRequest { fields, ws_endpoint }
}

/// Prepares an upload to the given endpoint.
pub fn handle_file_upload_with_url(msg: &mut Message, ws_endpoint: String) -> (r: UploadRequest)
    ensures
        ({
            let (uuid, job_id, bundle_hash, target_path, file_size, m) = upload_fields_spec(old(msg)@);
            &&& r.fields.uuid@ == uuid
            &&& r.fields.job_id == job_id
            &&& r.fields.bundle_hash@ == bundle_hash
            &&& r.fields.target_path@ == target_path
            &&& r.fields.file_size == file_size
            &&& final(msg)@ == m
            &&& r.ws_endpoint == ws_endpoint
        }),
{
    let fields = parse_upload_fields(msg);
    UploadRequest { fields, ws_endpoint }
}

} // verus!
