//! Bundle calls: where bundles live, and what a bundle call returns for
//! each way it can end (bundle not loadable, no interpreter thread, no
//! result, a result).

use vstd::prelude::*;
use crate::text::{chars_of, concat_str, string_from_chars};

verus! {

/// Length of the part of a path that a parent never drops: the root `/`,
/// or a leading `.` component of a relative path.
pub open spec fn path_start_len(s: Seq<char>) -> int {
    if s.len() > 0 && s[0] == '/' {
        1
    } else if s.len() > 0 && s[0] == '.' && (s.len() == 1 || s[1] == '/') {
        1
    } else {
        0
    }
}

/// The path without the empty and `.` components at its end, never cutting
/// into its first `start` characters.
pub open spec fn trim_path_end(s: Seq<char>, start: int) -> Seq<char>
    decreases s.len(),
{
    if 0 <= start < s.len() {
        if s.last() == '/' {
            trim_path_end(s.drop_last(), start)
        } else if s.last() == '.' && s.len() - 1 == start {
            trim_path_end(s.drop_last(), start)
        } else if s.last() == '.' && s.len() >= 2 && s[s.len() - 2] == '/' && s.len() - 2
            >= start {
            trim_path_end(s.drop_last().drop_last(), start)
        } else {
            s
        }
    } else {
        s
    }
}

/// Position of the last `/` at or after `start`, or `start` when there is
/// none: where the last component of the path begins, less its separator.
pub open spec fn last_sep_from(s: Seq<char>, start: int) -> int
    decreases s.len(),
{
    if s.len() == 0 || s.len() <= start {
        start
    } else if s.last() == '/' {
        s.len() - 1
    } else {
        last_sep_from(s.drop_last(), start)
    }
}

/// The parent directory of a path: the path less its last component and
/// the empty and `.` components around it; the empty path for a path that
/// is only a leading `.`; none for the empty path and the root.
pub open spec fn parent_spec(s: Seq<char>) -> Option<Seq<char>> {
    let start = path_start_len(s);
    let t = trim_path_end(s, start);
    if t.len() > start {
        Some(trim_path_end(t.take(last_sep_from(t, start)), start))
    } else if start == 1 && s[0] == '.' {
        Some(Seq::empty())
    } else {
        None
    }
}

/// `name` appended to `base` as a path component.
pub open spec fn join_spec(base: Seq<char>, name: Seq<char>) -> Seq<char> {
    if base.len() == 0 {
        name
    } else if base.last() == '/' {
        base + name
    } else {
        base.push('/') + name
    }
}

/// Directory, next to the executable, that holds the bundles.
pub const BUNDLES_DIR_NAME: &'static str = "bundles";

fn trim_path_end_len(cs: &Vec<char>, end: usize, start: usize) -> (k: usize)
    requires
        start <= end <= cs@.len(),
    ensures
        start <= k <= end,
        trim_path_end(cs@.take(end as int), start as int) == cs@.take(k as int),
{
    let mut k = end;
    while k > start && (cs[k - 1] == '/' || (cs[k - 1] == '.' && (k - 1 == start || (k >= 2
        && k - 2 >= start && cs[k - 2] == '/'))))
        invariant
            start <= k <= end <= cs@.len(),
            trim_path_end(cs@.take(end as int), start as int) == trim_path_end(
                cs@.take(k as int),
                start as int,
            ),
        decreases k,
    {
        let ghost s = cs@.take(k as int);
        assert(s.drop_last() =~= cs@.take(k - 1));
        assert(s.last() == cs@[k - 1]);
        if cs[k - 1] == '/' || k - 1 == start {
            k = k - 1;
        } else {
            assert(s[s.len() - 2] == cs@[k - 2]);
            assert(s.drop_last().drop_last() =~= cs@.take(k - 2));
            k = k - 2;
        }
    }
    proof {
        let s = cs@.take(k as int);
        if k > start {
            assert(s.last() == cs@[k - 1]);
            if k >= 2 {
                assert(s[s.len() - 2] == cs@[k - 2]);
            }
        }
    }
    k
}

fn last_sep_pos(cs: &Vec<char>, end: usize, start: usize) -> (c: usize)
    requires
        start <= end <= cs@.len(),
    ensures
        start <= c <= end,
        c == last_sep_from(cs@.take(end as int), start as int),
{
    let mut i = end;
    while i > start && cs[i - 1] != '/'
        invariant
            start <= i <= end <= cs@.len(),
            last_sep_from(cs@.take(end as int), start as int) == last_sep_from(
                cs@.take(i as int),
                start as int,
            ),
        decreases i,
    {
        assert(cs@.take(i as int).drop_last() =~= cs@.take(i - 1));
        assert(cs@.take(i as int).last() == cs@[i - 1]);
        i = i - 1;
    }
    if i > start {
        assert(cs@.take(i as int).last() == cs@[i - 1]);
        i - 1
    } else {
        start
    }
}

fn prefix_of_chars(cs: &Vec<char>, k: usize) -> (v: Vec<char>)
    requires
        k <= cs@.len(),
    ensures
        v@ == cs@.take(k as int),
{
    let mut v: Vec<char> = Vec::new();
    let mut j: usize = 0;
    while j < k
        invariant
            j <= k <= cs@.len(),
            v@ == cs@.take(j as int),
        decreases k - j,
    {
        v.push(cs[j]);
        assert(cs@.take(j as int).push(cs@[j as int]) =~= cs@.take(j as int + 1));
        j = j + 1;
    }
    v
}

/// The bundle directory for an executable at `executable_path`: the
/// `bundles` entry of the executable's directory.
pub fn get_default_bundle_path(executable_path: &str) -> (p: String)
    ensures
        p@ == join_spec(
            match parent_spec(executable_path@) {
                Some(d) => d,
                None => executable_path@,
            },
            BUNDLES_DIR_NAME@,
        ),
{
    let cs = chars_of(executable_path);
    let n = cs.len();
    assert(cs@.take(n as int) =~= cs@);
    let start: usize = if n > 0 && cs[0] == '/' {
        1
    } else if n > 0 && cs[0] == '.' && (n == 1 || cs[1] == '/') {
        1
    } else {
        0
    };
    let t = trim_path_end_len(&cs, n, start);
    let base: Vec<char>;
    if t > start {
        let c = last_sep_pos(&cs, t, start);
        let k = trim_path_end_len(&cs, c, start);
        proof {
            assert(cs@.take(t as int).take(c as int) =~= cs@.take(c as int));
        }
        base = prefix_of_chars(&cs, k);
    } else if start == 1 && cs[0] == '.' {
        base = Vec::new();
    } else {
        base = cs;
    }
    let b = string_from_chars(base.as_slice());
    let bn = base.len();
    if bn == 0 {
        BUNDLES_DIR_NAME.to_owned()
    } else if base[bn - 1] == '/' {
        concat_str(b.as_str(), BUNDLES_DIR_NAME)
    } else {
        let mut with_sep = base;
        with_sep.push('/');
        let bs = string_from_chars(with_sep.as_slice());
        concat_str(bs.as_str(), BUNDLES_DIR_NAME)
    }
}

/// How a bundle call ended.
pub enum BundleCall<T> {
    /// The bundle could not be loaded; the reason.
    LoadFailed(String),
    /// No interpreter thread could be set up; the reason.
    ScopeFailed(String),
    /// The bundle function failed or returned `None`.
    ReturnedNone,
    /// The bundle function returned a value.
    Returned(T),
}

/// A lowercase hexadecimal digit.
pub open spec fn hex_digit(n: int) -> char {
    seq!['0', '1', '2', '3', '4', '5', '6', '7', '8', '9', 'a', 'b', 'c', 'd', 'e', 'f'][n]
}

/// How a JSON string writes one character: `"` and `\` are escaped with a
/// backslash, the control characters with their short escapes where JSON
/// has one and as `\u00XX` otherwise; everything else stands as it is.
pub open spec fn json_char_escape(c: char) -> Seq<char> {
    if c == '"' {
        seq!['\\', '"']
    } else if c == '\\' {
        seq!['\\', '\\']
    } else if c == '\u{8}' {
        seq!['\\', 'b']
    } else if c == '\t' {
        seq!['\\', 't']
    } else if c == '\n' {
        seq!['\\', 'n']
    } else if c == '\u{c}' {
        seq!['\\', 'f']
    } else if c == '\r' {
        seq!['\\', 'r']
    } else if (c as u32) < 0x20 {
        seq!['\\', 'u', '0', '0', hex_digit((c as u32) as int / 16), hex_digit((c as u32) as int % 16)]
    } else {
        seq![c]
    }
}

/// The contents of a JSON string holding `s`.
pub open spec fn json_escaped(s: Seq<char>) -> Seq<char>
    decreases s.len(),
{
    if s.len() == 0 {
        Seq::empty()
    } else {
        json_escaped(s.drop_last()) + json_char_escape(s.last())
    }
}

/// The compact JSON text of the object `{"error": msg}`.
pub open spec fn error_object_json(msg: Seq<char>) -> Seq<char> {
    "{\"error\":\""@ + json_escaped(msg) + "\"}"@
}

/// Writes `{"error": msg}` with `serde_json`'s compact formatter: the key and
/// the escaped message in quotes, with no spaces.
#[verifier::external_body]
fn error_json(msg: &str) -> (s: String)
    ensures
        s@ == error_object_json(msg@),
{
    let mut object = serde_json::Map::new();
    object.insert("error".to_string(), serde_json::Value::String(msg.to_string()));
    serde_json::Value::Object(object).to_string()
}

/// The reason reported when a bundle cannot be loaded.
pub open spec fn load_failure_text(bundle_hash: Seq<char>, reason: Seq<char>) -> Seq<char> {
    "Failed to load bundle "@ + bundle_hash + ": "@ + reason
}

/// The reason reported when no interpreter thread can be set up.
pub open spec fn scope_failure_text(reason: Seq<char>) -> Seq<char> {
    "Failed to create thread scope: "@ + reason
}

/// The reason reported when a bundle result cannot be written as JSON.
pub open spec fn serialize_failure_text(reason: Seq<char>) -> Seq<char> {
    "Failed to serialize result: "@ + reason
}

/// The reason a bundle could not be loaded.
pub fn load_failure_message(bundle_hash: &str, reason: &str) -> (s: String)
    ensures
        s@ == load_failure_text(bundle_hash@, reason@),
{
    let a = concat_str("Failed to load bundle ", bundle_hash);
    let b = concat_str(a.as_str(), ": ");
    concat_str(b.as_str(), reason)
}

/// The reason no interpreter thread could be set up.
pub fn scope_failure_message(reason: &str) -> (s: String)
    ensures
        s@ == scope_failure_text(reason@),
{
    concat_str("Failed to create thread scope: ", reason)
}

/// The string a bundle call yields: the result; an empty string when there
/// is none; a JSON error object when the bundle or its thread could not be set up.
pub fn run_bundle_string_result(bundle_hash: &str, call: BundleCall<String>) -> (s: String)
    ensures
        match call {
            BundleCall::LoadFailed(e) => s@ == error_object_json(load_failure_text(bundle_hash@, e@)),
            BundleCall::ScopeFailed(e) => s@ == error_object_json(scope_failure_text(e@)),
            BundleCall::ReturnedNone => s@.len() == 0,
            BundleCall::Returned(r) => s == r,
        },
{
    match call {
        BundleCall::LoadFailed(e) => {
            let m = load_failure_message(bundle_hash, e.as_str());
            error_json(m.as_str())
        },
        BundleCall::ScopeFailed(e) => {
            let m = scope_failure_message(e.as_str());
            error_json(m.as_str())
        },
        BundleCall::ReturnedNone => String::new(),
        BundleCall::Returned(r) => r,
    }
}

/// The number a bundle call yields: the result, or 0.
pub fn run_bundle_uint64_result(call: BundleCall<u64>) -> (v: u64)
    ensures
        match call {
            BundleCall::Returned(r) => v == r,
            _ => v == 0,
        },
{
    match call {
        BundleCall::Returned(r) => r,
        _ => 0,
    }
}

/// The flag a bundle call yields: the result, or false.
pub fn run_bundle_bool_result(call: BundleCall<bool>) -> (b: bool)
    ensures
        match call {
            BundleCall::Returned(r) => b == r,
            _ => !b,
        },
{
    match call {
        BundleCall::Returned(r) => r,
        _ => false,
    }
}

/// The JSON text a bundle call yields (to be parsed, `null` when none): the
/// result as written by the interpreter, or an error object when it could
/// not be written; none when the call yielded nothing.
pub fn run_bundle_json_text(call: BundleCall<Result<String, String>>) -> (t: Option<String>)
    ensures
        match call {
            BundleCall::Returned(Ok(s)) => t == Some(s),
            BundleCall::Returned(Err(e)) => t matches Some(s) && s@ == error_object_json(
                serialize_failure_text(e@),
            ),
            _ => t is None,
        },
{
    match call {
        BundleCall::Returned(Ok(s)) => Some(s),
        BundleCall::Returned(Err(e)) => {
            let m = concat_str("Failed to serialize result: ", e.as_str());
            Some(error_json(m.as_str()))
        },
        _ => None,
    }
}

} // verus!
