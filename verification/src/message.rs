//! The binary message format exchanged with the job controller server.
//!
//! A message is a byte buffer that starts with a header (the source string
//! followed by the message id) and continues with a payload of little-endian
//! integers, booleans, length-prefixed UTF-8 strings and length-prefixed byte
//! blobs. Values are appended with the `push_*` methods and read back, in the
//! order they were written, with the `pop_*` methods. Reading past the end of
//! the buffer never panics: the read yields the type's zero value and leaves
//! the read position where it was.

use vstd::prelude::*;
use vstd::utf8::*;
use vstd::slice::slice_subrange;

verus! {

/// Scheduling priority used when a message is queued for sending.
#[derive(Clone, Copy, Debug, PartialEq, Eq, Structural)]
pub enum Priority {
    Lowest,
    Medium,
    Highest,
}

pub const SERVER_READY: u32 = 1000;
pub const SUBMIT_JOB: u32 = 2000;
pub const UPDATE_JOB: u32 = 2001;
pub const CANCEL_JOB: u32 = 2002;
pub const DELETE_JOB: u32 = 2003;
pub const DOWNLOAD_FILE: u32 = 4000;
pub const FILE_DOWNLOAD_DETAILS: u32 = 4001;
pub const FILE_DOWNLOAD_ERROR: u32 = 4002;
pub const FILE_CHUNK: u32 = 4003;
pub const PAUSE_FILE_CHUNK_STREAM: u32 = 4004;
pub const RESUME_FILE_CHUNK_STREAM: u32 = 4005;
pub const FILE_LIST: u32 = 4006;
pub const FILE_LIST_ERROR: u32 = 4007;
pub const UPLOAD_FILE: u32 = 4008;
pub const FILE_UPLOAD_CHUNK: u32 = 4009;
pub const FILE_UPLOAD_ERROR: u32 = 4010;
pub const FILE_UPLOAD_COMPLETE: u32 = 4011;
pub const DB_JOB_GET_BY_JOB_ID: u32 = 5000;
pub const DB_JOB_GET_BY_ID: u32 = 5001;
pub const DB_JOB_GET_RUNNING_JOBS: u32 = 5002;
pub const DB_JOB_DELETE: u32 = 5003;
pub const DB_JOB_SAVE: u32 = 5004;
pub const DB_JOBSTATUS_GET_BY_JOB_ID_AND_WHAT: u32 = 5005;
pub const DB_JOBSTATUS_GET_BY_JOB_ID: u32 = 5006;
pub const DB_JOBSTATUS_DELETE_BY_ID_LIST: u32 = 5007;
pub const DB_JOBSTATUS_SAVE: u32 = 5008;
pub const DB_RESPONSE: u32 = 5009;
pub const DB_BUNDLE_CREATE_OR_UPDATE_JOB: u32 = 5010;
pub const DB_BUNDLE_GET_JOB_BY_ID: u32 = 5011;
pub const DB_BUNDLE_DELETE_JOB: u32 = 5012;

/// Job states reported to the server.
pub const PENDING: u32 = 0;
pub const SUBMITTING: u32 = 10;
pub const SUBMITTED: u32 = 20;
pub const QUEUED: u32 = 30;
pub const RUNNING: u32 = 40;
pub const CANCELLING: u32 = 50;
pub const CANCELLED: u32 = 60;
pub const DELETING: u32 = 70;
pub const DELETED: u32 = 80;
pub const ERROR: u32 = 400;
pub const WALL_TIME_EXCEEDED: u32 = 401;
pub const OUT_OF_MEMORY: u32 = 402;
pub const COMPLETED: u32 = 500;

/// Source names used in job update messages.
pub const SYSTEM_SOURCE: &'static str = "system";
pub const JOB_COMPLETION_SOURCE: &'static str = "_job_completion_";

// ----- wire encodings -----

/// Little-endian bytes of a `u32`.
pub open spec fn le_u32(v: u32) -> Seq<u8> {
    seq![v as u8, (v >> 8) as u8, (v >> 16) as u8, (v >> 24) as u8]
}

/// Little-endian bytes of a `u64`.
pub open spec fn le_u64(v: u64) -> Seq<u8> {
    seq![
        v as u8, (v >> 8) as u8, (v >> 16) as u8, (v >> 24) as u8,
        (v >> 32) as u8, (v >> 40) as u8, (v >> 48) as u8, (v >> 56) as u8,
    ]
}

/// A boolean is one byte, 1 for true and 0 for false.
pub open spec fn encode_bool(b: bool) -> Seq<u8> {
    seq![if b { 1u8 } else { 0u8 }]
}

/// A byte blob is its length as a `u64` followed by the bytes.
pub open spec fn encode_bytes(b: Seq<u8>) -> Seq<u8> {
    le_u64(b.len() as u64) + b
}

/// A string is its UTF-8 bytes, encoded as a byte blob.
pub open spec fn encode_string(s: Seq<char>) -> Seq<u8> {
    encode_bytes(encode_utf8(s))
}

/// The header of a message: the source string, then the id.
pub open spec fn encode_header(id: u32, source: Seq<char>) -> Seq<u8> {
    encode_string(source) + le_u32(id)
}

/// The `u32` stored little-endian at `d[i..i + 4]`.
pub open spec fn read_u32_at(d: Seq<u8>, i: int) -> u32 {
    (d[i] as u32) | ((d[i + 1] as u32) << 8u32) | ((d[i + 2] as u32) << 16u32) | ((d[i + 3] as u32)
        << 24u32)
}

/// The `u64` stored little-endian at `d[i..i + 8]`.
pub open spec fn read_u64_at(d: Seq<u8>, i: int) -> u64 {
    (d[i] as u64) | ((d[i + 1] as u64) << 8u64) | ((d[i + 2] as u64) << 16u64) | ((d[i + 3] as u64)
        << 24u64) | ((d[i + 4] as u64) << 32u64) | ((d[i + 5] as u64) << 40u64) | ((d[i + 6] as u64)
        << 48u64) | ((d[i + 7] as u64) << 56u64)
}

/// Text decoded from bytes that are not valid UTF-8 (invalid sequences are
/// replaced, as `String::from_utf8_lossy` does).
pub uninterp spec fn lossy_text(bytes: Seq<u8>) -> Seq<char>;

/// The text a string field's bytes stand for.
#[verifier::opaque]
pub open spec fn text_of(bytes: Seq<u8>) -> Seq<char> {
    if valid_utf8(bytes) {
        decode_utf8(bytes)
    } else {
        lossy_text(bytes)
    }
}

/// Decoding of a `u8` at position `i`: the value and the position after it.
pub open spec fn decode_u8(d: Seq<u8>, i: int) -> Option<(u8, int)> {
    if 0 <= i && i + 1 <= d.len() {
        Some((d[i], i + 1))
    } else {
        None
    }
}

/// Decoding of a `u32` at position `i`.
pub open spec fn decode_u32(d: Seq<u8>, i: int) -> Option<(u32, int)> {
    if 0 <= i && i + 4 <= d.len() {
        Some((read_u32_at(d, i), i + 4))
    } else {
        None
    }
}

/// Decoding of a `u64` at position `i`.
pub open spec fn decode_u64(d: Seq<u8>, i: int) -> Option<(u64, int)> {
    if 0 <= i && i + 8 <= d.len() {
        Some((read_u64_at(d, i), i + 8))
    } else {
        None
    }
}

/// Decoding of a byte blob at position `i`.
pub open spec fn decode_bytes(d: Seq<u8>, i: int) -> Option<(Seq<u8>, int)> {
    match decode_u64(d, i) {
        Some((n, j)) => if j + n <= d.len() {
            Some((d.subrange(j, j + n), j + n))
        } else {
            None
        },
        None => None,
    }
}

/// Decoding of a string at position `i`.
pub open spec fn decode_string(d: Seq<u8>, i: int) -> Option<(Seq<char>, int)> {
    match decode_bytes(d, i) {
        Some((b, j)) => Some((text_of(b), j)),
        None => None,
    }
}

// ----- encoding laws -----

proof fn lemma_u32_bytes(v: u32)
    ensures
        ((v as u8) as u32) | ((((v >> 8) as u8) as u32) << 8u32) | ((((v >> 16) as u8) as u32)
            << 16u32) | ((((v >> 24) as u8) as u32) << 24u32) == v,
{
    assert(((v as u8) as u32) | ((((v >> 8) as u8) as u32) << 8u32) | ((((v >> 16) as u8) as u32)
        << 16u32) | ((((v >> 24) as u8) as u32) << 24u32) == v) by (bit_vector);
}

proof fn lemma_u64_bytes(v: u64)
    ensures
        ((v as u8) as u64) | ((((v >> 8) as u8) as u64) << 8u64) | ((((v >> 16) as u8) as u64)
            << 16u64) | ((((v >> 24) as u8) as u64) << 24u64) | ((((v >> 32) as u8) as u64)
            << 32u64) | ((((v >> 40) as u8) as u64) << 40u64) | ((((v >> 48) as u8) as u64)
            << 48u64) | ((((v >> 56) as u8) as u64) << 56u64) == v,
{
    assert(((v as u8) as u64) | ((((v >> 8) as u8) as u64) << 8u64) | ((((v >> 16) as u8) as u64)
        << 16u64) | ((((v >> 24) as u8) as u64) << 24u64) | ((((v >> 32) as u8) as u64)
        << 32u64) | ((((v >> 40) as u8) as u64) << 40u64) | ((((v >> 48) as u8) as u64)
        << 48u64) | ((((v >> 56) as u8) as u64) << 56u64) == v) by (bit_vector);
}

/// A `u32` written between any prefix and suffix reads back as itself.
pub proof fn law_u32_roundtrip(prefix: Seq<u8>, v: u32, suffix: Seq<u8>)
    ensures
        decode_u32(prefix + le_u32(v) + suffix, prefix.len() as int) == Some(
            (v, prefix.len() + 4int),
        ),
{
    let d = prefix + le_u32(v) + suffix;
    let i = prefix.len() as int;
    assert(d[i] == v as u8);
    assert(d[i + 1] == (v >> 8) as u8);
    assert(d[i + 2] == (v >> 16) as u8);
    assert(d[i + 3] == (v >> 24) as u8);
    lemma_u32_bytes(v);
}

/// A `u64` written between any prefix and suffix reads back as itself.
pub proof fn law_u64_roundtrip(prefix: Seq<u8>, v: u64, suffix: Seq<u8>)
    ensures
        decode_u64(prefix + le_u64(v) + suffix, prefix.len() as int) == Some(
            (v, prefix.len() + 8int),
        ),
{
    let d = prefix + le_u64(v) + suffix;
    let i = prefix.len() as int;
    assert(d[i] == v as u8);
    assert(d[i + 1] == (v >> 8) as u8);
    assert(d[i + 2] == (v >> 16) as u8);
    assert(d[i + 3] == (v >> 24) as u8);
    assert(d[i + 4] == (v >> 32) as u8);
    assert(d[i + 5] == (v >> 40) as u8);
    assert(d[i + 6] == (v >> 48) as u8);
    assert(d[i + 7] == (v >> 56) as u8);
    lemma_u64_bytes(v);
}

/// A boolean written between any prefix and suffix reads back as itself.
pub proof fn law_bool_roundtrip(prefix: Seq<u8>, b: bool, suffix: Seq<u8>)
    ensures
        decode_u8(prefix + encode_bool(b) + suffix, prefix.len() as int) == Some(
            (if b { 1u8 } else { 0u8 }, prefix.len() + 1int),
        ),
{
    let d = prefix + encode_bool(b) + suffix;
    assert(d[prefix.len() as int] == (if b { 1u8 } else { 0u8 }));
}

/// A byte blob written between any prefix and suffix reads back as itself.
pub proof fn law_bytes_roundtrip(prefix: Seq<u8>, b: Seq<u8>, suffix: Seq<u8>)
    requires
        b.len() <= u64::MAX,
    ensures
        decode_bytes(prefix + encode_bytes(b) + suffix, prefix.len() as int) == Some(
            (b, prefix.len() + 8int + b.len()),
        ),
{
    let d = prefix + encode_bytes(b) + suffix;
    let i = prefix.len() as int;
    assert(d =~= prefix + le_u64(b.len() as u64) + (b + suffix));
    law_u64_roundtrip(prefix, b.len() as u64, b + suffix);
    assert(d.subrange(i + 8, i + 8 + b.len()) =~= b);
}

/// A string written between any prefix and suffix reads back as itself.
#[verifier::spinoff_prover]
#[verifier::rlimit(40)]
pub proof fn law_string_roundtrip(prefix: Seq<u8>, s: Seq<char>, suffix: Seq<u8>)
    requires
        encode_utf8(s).len() <= u64::MAX,
    ensures
        decode_string(prefix + encode_string(s) + suffix, prefix.len() as int) == Some(
            (s, prefix.len() + encode_string(s).len() as int),
        ),
{
    let bytes = encode_utf8(s);
    law_bytes_roundtrip(prefix, bytes, suffix);
    assert(prefix + encode_string(s) + suffix == prefix + encode_bytes(bytes) + suffix);
    let r = decode_bytes(prefix + encode_bytes(bytes) + suffix, prefix.len() as int);
    assert(r == Some((bytes, prefix.len() + 8int + bytes.len())));
    lemma_text_of_encoded(s);
    assert(encode_string(s).len() == 8 + bytes.len());
}

/// The text of a string's UTF-8 encoding is the string.
pub proof fn lemma_text_of_encoded(s: Seq<char>)
    ensures
        text_of(encode_utf8(s)) == s,
{
    reveal(text_of);
    encode_utf8_valid_utf8(s);
    encode_utf8_decode_utf8(s);
}

// ----- conversions trusted from std -----

/// `String::from_utf8_lossy`: valid UTF-8 is decoded as is; other input is
/// decoded with replacement characters (left unstated beyond the name).
#[verifier::external_body]
fn utf8_lossy(bytes: &[u8]) -> (res: String)
    ensures
        res@ == (if valid_utf8(bytes@) {
            decode_utf8(bytes@)
        } else {
            lossy_text(bytes@)
        }),
{
    String::from_utf8_lossy(bytes).into_owned()
}

// ----- the message type -----

/// Abstract view of a message: header fields, the encoded bytes and the read position.
pub struct MessageView {
    pub id: u32,
    pub source: Seq<char>,
    pub priority: Priority,
    pub data: Seq<u8>,
    pub index: int,
}

/// A message being built or read.
pub struct Message {
    pub id: u32,
    pub source: String,
    pub priority: Priority,
    data: Vec<u8>,
    index: usize,
}

impl View for Message {
    type V = MessageView;

    closed spec fn view(&self) -> MessageView {
        MessageView {
            id: self.id,
            source: self.source@,
            priority: self.priority,
            data: self.data@,
            index: self.index as int,
        }
    }
}

fn read_u8(d: &Vec<u8>, i: usize) -> (res: Option<(u8, usize)>)
    ensures
        match decode_u8(d@, i as int) {
            Some((v, j)) => res matches Some((r, k)) && r == v && k == j,
            None => res is None,
        },
{
    if i < d.len() {
        Some((d[i], i + 1))
    } else {
        None
    }
}

fn read_u32(d: &Vec<u8>, i: usize) -> (res: Option<(u32, usize)>)
    ensures
        match decode_u32(d@, i as int) {
            Some((v, j)) => res matches Some((r, k)) && r == v && k == j,
            None => res is None,
        },
{
    if i <= d.len() && d.len() - i >= 4 {
        let v = (d[i] as u32) | ((d[i + 1] as u32) << 8u32) | ((d[i + 2] as u32) << 16u32) | ((d[i
            + 3] as u32) << 24u32);
        Some((v, i + 4))
    } else {
        None
    }
}

fn read_u64(d: &Vec<u8>, i: usize) -> (res: Option<(u64, usize)>)
    ensures
        match decode_u64(d@, i as int) {
            Some((v, j)) => res matches Some((r, k)) && r == v && k == j,
            None => res is None,
        },
{
    if i <= d.len() && d.len() - i >= 8 {
        let v = (d[i] as u64) | ((d[i + 1] as u64) << 8u64) | ((d[i + 2] as u64) << 16u64) | ((d[i
            + 3] as u64) << 24u64) | ((d[i + 4] as u64) << 32u64) | ((d[i + 5] as u64) << 40u64)
            | ((d[i + 6] as u64) << 48u64) | ((d[i + 7] as u64) << 56u64);
        Some((v, i + 8))
    } else {
        None
    }
}

fn read_bytes(d: &Vec<u8>, i: usize) -> (res: Option<(Vec<u8>, usize)>)
    ensures
        match decode_bytes(d@, i as int) {
            Some((b, j)) => res matches Some((r, k)) && r@ == b && k == j,
            None => res is None,
        },
{
    match read_u64(d, i) {
        Some((n, j)) => {
            if n <= (d.len() - j) as u64 {
                let end = j + n as usize;
                let s = slice_subrange(d.as_slice(), j, end);
                let mut out: Vec<u8> = Vec::new();
                out.extend_from_slice(s);
                assert(out@ =~= d@.subrange(j as int, end as int));
                Some((out, end))
            } else {
                None
            }
        },
        None => None,
    }
}

fn read_string(d: &Vec<u8>, i: usize) -> (res: Option<(String, usize)>)
    ensures
        match decode_string(d@, i as int) {
            Some((s, j)) => res matches Some((r, k)) && r@ == s && k == j,
            None => res is None,
        },
{
    reveal(text_of);
    match read_bytes(d, i) {
        Some((b, j)) => Some((utf8_lossy(b.as_slice()), j)),
        None => None,
    }
}



fn append_u32(d: &mut Vec<u8>, v: u32)
    ensures
        final(d)@ == old(d)@ + le_u32(v),
{
    d.push(v as u8);
    d.push((v >> 8) as u8);
    d.push((v >> 16) as u8);
    d.push((v >> 24) as u8);
    assert(d@ =~= old(d)@ + le_u32(v));
}

fn append_u64(d: &mut Vec<u8>, v: u64)
    ensures
        final(d)@ == old(d)@ + le_u64(v),
{
    d.push(v as u8);
    d.push((v >> 8) as u8);
    d.push((v >> 16) as u8);
    d.push((v >> 24) as u8);
    d.push((v >> 32) as u8);
    d.push((v >> 40) as u8);
    d.push((v >> 48) as u8);
    d.push((v >> 56) as u8);
    assert(d@ =~= old(d)@ + le_u64(v));
}

fn append_bytes(d: &mut Vec<u8>, b: &[u8])
    ensures
        final(d)@ == old(d)@ + encode_bytes(b@),
{
    append_u64(d, b.len() as u64);
    let ghost mid = d@;
    d.extend_from_slice(b);
    assert(d@ =~= mid + b@);
    assert(d@ =~= old(d)@ + encode_bytes(b@));
}

/// Result of reading a `u8` from a message: the value and the message after the read.
pub open spec fn pop_u8_spec(m: MessageView) -> (u8, MessageView) {
    match decode_u8(m.data, m.index) {
        Some((v, j)) => (v, MessageView { index: j, ..m }),
        None => (0u8, m),
    }
}

/// Result of reading a boolean: a byte equal to 1 reads as true.
pub open spec fn pop_bool_spec(m: MessageView) -> (bool, MessageView) {
    let (v, m2) = pop_u8_spec(m);
    (v == 1, m2)
}

/// Result of reading a `u32`.
pub open spec fn pop_u32_spec(m: MessageView) -> (u32, MessageView) {
    match decode_u32(m.data, m.index) {
        Some((v, j)) => (v, MessageView { index: j, ..m }),
        None => (0u32, m),
    }
}

/// Result of reading a `u64`.
pub open spec fn pop_u64_spec(m: MessageView) -> (u64, MessageView) {
    match decode_u64(m.data, m.index) {
        Some((v, j)) => (v, MessageView { index: j, ..m }),
        None => (0u64, m),
    }
}

/// Result of reading a string.
pub open spec fn pop_string_spec(m: MessageView) -> (Seq<char>, MessageView) {
    match decode_string(m.data, m.index) {
        Some((v, j)) => (v, MessageView { index: j, ..m }),
        None => (Seq::empty(), m),
    }
}

/// Result of reading a byte blob.
pub open spec fn pop_bytes_spec(m: MessageView) -> (Seq<u8>, MessageView) {
    match decode_bytes(m.data, m.index) {
        Some((v, j)) => (v, MessageView { index: j, ..m }),
        None => (Seq::empty(), m),
    }
}

/// The message a buffer received from the wire stands for: its source and id
/// are read from the header and the read position is left after them.
pub open spec fn from_data_spec(data: Seq<u8>) -> MessageView {
    let start = MessageView {
        id: 0,
        source: Seq::empty(),
        priority: Priority::Medium,
        data: data,
        index: 0,
    };
    let (source, m1) = pop_string_spec(start);
    let (id, m2) = pop_u32_spec(m1);
    MessageView { id: id, source: source, ..m2 }
}

/// A freshly created message: header written, read position after it.
pub open spec fn fresh_spec(id: u32, priority: Priority, source: Seq<char>) -> MessageView {
    MessageView {
        id: id,
        source: source,
        priority: priority,
        data: encode_header(id, source),
        index: encode_header(id, source).len() as int,
    }
}

/// The message after appending a `u32`.
pub open spec fn push_u32_spec(m: MessageView, v: u32) -> MessageView {
    MessageView { data: m.data + le_u32(v), ..m }
}

/// The message after appending a `u64`.
pub open spec fn push_u64_spec(m: MessageView, v: u64) -> MessageView {
    MessageView { data: m.data + le_u64(v), ..m }
}

/// The message after appending a boolean.
pub open spec fn push_bool_spec(m: MessageView, b: bool) -> MessageView {
    MessageView { data: m.data + encode_bool(b), ..m }
}

/// The message after appending a string.
pub open spec fn push_string_spec(m: MessageView, s: Seq<char>) -> MessageView {
    MessageView { data: m.data + encode_string(s), ..m }
}

/// The message after appending a byte blob.
pub open spec fn push_bytes_spec(m: MessageView, b: Seq<u8>) -> MessageView {
    MessageView { data: m.data + encode_bytes(b), ..m }
}

/// Number of bytes not yet read.
pub open spec fn remaining_spec(m: MessageView) -> int {
    if m.index <= m.data.len() {
        m.data.len() - m.index
    } else {
        0
    }
}

impl Message {
    /// Creates a message with the given id, priority and source; the header is
    /// written and the read position stands after it.
    pub fn new(id: u32, priority: Priority, source: &str) -> (m: Message)
        ensures
            m@ == fresh_spec(id, priority, source@),
    {
        let mut data: Vec<u8> = Vec::new();
        append_bytes(&mut data, source.as_bytes());
        append_u32(&mut data, id);
        assert(data@ =~= encode_header(id, source@));
        let index = data.len();
        Message { id, source: source.to_owned(), priority, data, index }
    }

    /// Reads a message from bytes received from the wire.
    pub fn from_data(data: Vec<u8>) -> (m: Message)
        ensures
            m@ == from_data_spec(data@),
    {
        let mut m = Message {
            id: 0,
            source: String::new(),
            priority: Priority::Medium,
            data,
            index: 0,
        };
        let source = m.pop_string();
        let id = m.pop_uint();
        m.source = source;
        m.id = id;
        m
    }

    /// The encoded bytes of the message.
    pub fn get_data(&self) -> (d: &Vec<u8>)
        ensures
            d@ == self@.data,
    {
        &self.data
    }

    /// The message id.
    pub fn get_id(&self) -> (id: u32)
        ensures
            id == self@.id,
    {
        self.id
    }

    /// The encoded bytes of the message, taking ownership.
    pub fn into_data(self) -> (d: Vec<u8>)
        ensures
            d@ == self@.data,
    {
        self.data
    }

    /// Number of bytes left to read.
    pub fn remaining_len(&self) -> (n: usize)
        ensures
            n == remaining_spec(self@),
    {
        if self.index <= self.data.len() {
            self.data.len() - self.index
        } else {
            0
        }
    }

    /// A copy of this message that reads from the same position.
    pub fn clone_for_payload_reading(&self) -> (m: Message)
        ensures
            m@ == self@,
    {
        let mut data: Vec<u8> = Vec::new();
        data.extend_from_slice(self.data.as_slice());
        assert(data@ =~= self.data@);
        Message {
            id: self.id,
            source: self.source.clone(),
            priority: self.priority,
            data,
            index: self.index,
        }
    }

    pub fn push_ubyte(&mut self, v: u8)
        ensures
            final(self)@ == (MessageView { data: old(self)@.data.push(v), ..old(self)@ }),
    {
        self.data.push(v);
    }

    pub fn push_bool(&mut self, b: bool)
        ensures
            final(self)@ == push_bool_spec(old(self)@, b),
    {
        self.data.push(if b { 1u8 } else { 0u8 });
        assert(self@.data =~= old(self)@.data + encode_bool(b));
    }

    pub fn push_uint(&mut self, v: u32)
        ensures
            final(self)@ == push_u32_spec(old(self)@, v),
    {
        append_u32(&mut self.data, v);
    }

    pub fn push_ulong(&mut self, v: u64)
        ensures
            final(self)@ == push_u64_spec(old(self)@, v),
    {
        append_u64(&mut self.data, v);
    }

    pub fn push_string(&mut self, s: &str)
        ensures
            final(self)@ == push_string_spec(old(self)@, s@),
    {
        append_bytes(&mut self.data, s.as_bytes());
    }

    pub fn push_bytes(&mut self, b: &[u8])
        ensures
            final(self)@ == push_bytes_spec(old(self)@, b@),
    {
        append_bytes(&mut self.data, b);
    }

    pub fn pop_ubyte(&mut self) -> (v: u8)
        ensures
            (v, final(self)@) == pop_u8_spec(old(self)@),
    {
        match read_u8(&self.data, self.index) {
            Some((v, j)) => {
                self.index = j;
                v
            },
            None => 0,
        }
    }

    pub fn pop_bool(&mut self) -> (b: bool)
        ensures
            (b, final(self)@) == pop_bool_spec(old(self)@),
    {
        self.pop_ubyte() == 1
    }

    pub fn pop_uint(&mut self) -> (v: u32)
        ensures
            (v, final(self)@) == pop_u32_spec(old(self)@),
    {
        match read_u32(&self.data, self.index) {
            Some((v, j)) => {
                self.index = j;
                v
            },
            None => 0,
        }
    }

    pub fn pop_ulong(&mut self) -> (v: u64)
        ensures
            (v, final(self)@) == pop_u64_spec(old(self)@),
    {
        match read_u64(&self.data, self.index) {
            Some((v, j)) => {
                self.index = j;
                v
            },
            None => 0,
        }
    }

    pub fn pop_string(&mut self) -> (s: String)
        ensures
            (s@, final(self)@) == pop_string_spec(old(self)@),
    {
        match read_string(&self.data, self.index) {
            Some((s, j)) => {
                self.index = j;
                s
            },
            None => String::new(),
        }
    }

    pub fn pop_bytes(&mut self) -> (b: Vec<u8>)
        ensures
            (b@, final(self)@) == pop_bytes_spec(old(self)@),
    {
        match read_bytes(&self.data, self.index) {
            Some((b, j)) => {
                self.index = j;
                b
            },
            None => Vec::new(),
        }
    }
}


// ----- message laws -----

/// Reading a freshly received buffer recovers the header written by `new`:
/// the id, the source, and a read position at the first payload byte.
pub proof fn law_header_roundtrip(id: u32, source: Seq<char>, payload: Seq<u8>)
    requires
        encode_utf8(source).len() <= u64::MAX,
    ensures
        from_data_spec(encode_header(id, source) + payload).id == id,
        from_data_spec(encode_header(id, source) + payload).source == source,
        from_data_spec(encode_header(id, source) + payload).index == encode_header(id, source).len(),
        from_data_spec(encode_header(id, source) + payload).data == encode_header(id, source) + payload,
{
    let d = encode_header(id, source) + payload;
    let empty: Seq<u8> = Seq::empty();
    assert(d =~= empty + encode_string(source) + (le_u32(id) + payload));
    law_string_roundtrip(empty, source, le_u32(id) + payload);
    let j = encode_string(source).len();
    assert(d =~= encode_string(source) + le_u32(id) + payload);
    law_u32_roundtrip(encode_string(source), id, payload);
}

/// When every written byte has been read, a `u32` pushed next is the value popped next.
pub proof fn law_push_pop_uint(m: MessageView, v: u32)
    requires
        m.index == m.data.len(),
    ensures
        pop_u32_spec(MessageView { data: m.data + le_u32(v), ..m }) == (
            v,
            MessageView { data: m.data + le_u32(v), index: m.data.len() + 4int, ..m },
        ),
{
    assert(m.data + le_u32(v) =~= m.data + le_u32(v) + Seq::<u8>::empty());
    law_u32_roundtrip(m.data, v, Seq::<u8>::empty());
}

/// When every written byte has been read, a `u64` pushed next is the value popped next.
pub proof fn law_push_pop_ulong(m: MessageView, v: u64)
    requires
        m.index == m.data.len(),
    ensures
        pop_u64_spec(MessageView { data: m.data + le_u64(v), ..m }) == (
            v,
            MessageView { data: m.data + le_u64(v), index: m.data.len() + 8int, ..m },
        ),
{
    assert(m.data + le_u64(v) =~= m.data + le_u64(v) + Seq::<u8>::empty());
    law_u64_roundtrip(m.data, v, Seq::<u8>::empty());
}

/// When every written byte has been read, a boolean pushed next is the value popped next.
pub proof fn law_push_pop_bool(m: MessageView, b: bool)
    requires
        m.index == m.data.len(),
    ensures
        pop_bool_spec(MessageView { data: m.data + encode_bool(b), ..m }) == (
            b,
            MessageView { data: m.data + encode_bool(b), index: m.data.len() + 1int, ..m },
        ),
{
    assert(m.data + encode_bool(b) =~= m.data + encode_bool(b) + Seq::<u8>::empty());
    law_bool_roundtrip(m.data, b, Seq::<u8>::empty());
}

/// When every written byte has been read, a string pushed next is the value popped next.
pub proof fn law_push_pop_string(m: MessageView, s: Seq<char>)
    requires
        m.index == m.data.len(),
        encode_utf8(s).len() <= u64::MAX,
    ensures
        pop_string_spec(MessageView { data: m.data + encode_string(s), ..m }) == (
            s,
            MessageView {
                data: m.data + encode_string(s),
                index: (m.data.len() + encode_string(s).len()) as int,
                ..m
            },
        ),
{
    assert(m.data + encode_string(s) =~= m.data + encode_string(s) + Seq::<u8>::empty());
    law_string_roundtrip(m.data, s, Seq::<u8>::empty());
}

/// When every written byte has been read, a byte blob pushed next is the value popped next.
pub proof fn law_push_pop_bytes(m: MessageView, b: Seq<u8>)
    requires
        m.index == m.data.len(),
        b.len() <= u64::MAX,
    ensures
        pop_bytes_spec(MessageView { data: m.data + encode_bytes(b), ..m }) == (
            b,
            MessageView {
                data: m.data + encode_bytes(b),
                index: (m.data.len() + encode_bytes(b).len()) as int,
                ..m
            },
        ),
{
    assert(m.data + encode_bytes(b) =~= m.data + encode_bytes(b) + Seq::<u8>::empty());
    law_bytes_roundtrip(m.data, b, Seq::<u8>::empty());
}

/// Pushing never disturbs what is still to be read: a value that decodes at
/// the read position before a push decodes the same after it.
pub proof fn law_push_preserves_pending_u32(m: MessageView, extra: Seq<u8>)
    ensures
        decode_u32(m.data, m.index) is Some ==> decode_u32(m.data + extra, m.index) == decode_u32(
            m.data,
            m.index,
        ),
{
    if decode_u32(m.data, m.index) is Some {
        let d2 = m.data + extra;
        assert(d2[m.index] == m.data[m.index]);
        assert(d2[m.index + 1] == m.data[m.index + 1]);
        assert(d2[m.index + 2] == m.data[m.index + 2]);
        assert(d2[m.index + 3] == m.data[m.index + 3]);
    }
}

} // verus!
