//! Client configuration: the values read from `config.json` and the rules
//! that validate them and derive settings from them.

use vstd::prelude::*;
use crate::text::{chars_of, string_from_chars, trim, trim_spec};

verus! {

/// One entry of the configuration file, as far as the client reads it.
#[derive(Clone, Debug, PartialEq, Eq)]
pub enum ConfigEntry {
    /// The key is not present.
    Absent,
    /// The key holds `null`.
    Null,
    /// The key holds a string.
    Text(String),
    /// The key holds a value of another JSON type.
    Other,
}

/// The configuration entries the client reads.
#[derive(Clone, Debug)]
pub struct ClientConfig {
    pub python_library: ConfigEntry,
    pub websocket_endpoint: ConfigEntry,
    pub log_level: ConfigEntry,
    pub ltk: ConfigEntry,
}

/// Abstract view of a configuration entry.
pub enum EntryView {
    Absent,
    Null,
    Text(Seq<char>),
    Other,
}

impl View for ConfigEntry {
    type V = EntryView;

    open spec fn view(&self) -> EntryView {
        match self {
            ConfigEntry::Absent => EntryView::Absent,
            ConfigEntry::Null => EntryView::Null,
            ConfigEntry::Text(s) => EntryView::Text(s@),
            ConfigEntry::Other => EntryView::Other,
        }
    }
}

/// Endpoint used when the configuration names none.
pub const DEFAULT_WEBSOCKET_ENDPOINT: &'static str = "ws://127.0.0.1:8001/ws/";

/// Log level used when the configuration names none.
pub const DEFAULT_LOG_LEVEL: &'static str = "info";

/// Whether a string is empty once surrounding whitespace is removed.
pub open spec fn blank(s: Seq<char>) -> bool {
    trim_spec(s).len() == 0
}

/// The errors a required string entry contributes to validation.
pub open spec fn required_entry_errors(
    entry: EntryView,
    missing: Seq<char>,
    empty: Seq<char>,
    not_string: Seq<char>,
) -> Seq<Seq<char>> {
    match entry {
        EntryView::Absent => seq![missing],
        EntryView::Null => seq![missing],
        EntryView::Text(s) => if blank(s) {
            seq![empty]
        } else {
            Seq::empty()
        },
        EntryView::Other => seq![not_string],
    }
}

/// The errors the optional log level entry contributes to validation.
pub open spec fn log_level_errors(entry: EntryView) -> Seq<Seq<char>> {
    match entry {
        EntryView::Text(s) => if blank(s) {
            seq!["logLevel is empty"@]
        } else {
            Seq::empty()
        },
        EntryView::Other => seq!["logLevel must be a string"@],
        _ => Seq::empty(),
    }
}

/// Every validation error of a configuration, in reporting order.
pub open spec fn config_errors(
    python_library: EntryView,
    websocket_endpoint: EntryView,
    log_level: EntryView,
) -> Seq<Seq<char>> {
    required_entry_errors(
        python_library,
        "pythonLibrary is missing or null"@,
        "pythonLibrary is empty"@,
        "pythonLibrary must be a string"@,
    ) + required_entry_errors(
        websocket_endpoint,
        "websocketEndpoint is missing or null"@,
        "websocketEndpoint is empty"@,
        "websocketEndpoint must be a string"@,
    ) + log_level_errors(log_level)
}

/// A configuration is valid exactly when `pythonLibrary` and
/// `websocketEndpoint` are non-blank strings and `logLevel` is absent, null
/// or a non-blank string; the log level adds an error only when it is a
/// blank string or a value of another type, so an absent or null log level
/// leaves the errors as they would be without it.
pub proof fn law_config_valid_exactly(
    python_library: EntryView,
    websocket_endpoint: EntryView,
    log_level: EntryView,
)
    ensures
        config_errors(python_library, websocket_endpoint, log_level).len() == 0 <==> ({
            &&& python_library matches EntryView::Text(p) && !blank(p)
            &&& websocket_endpoint matches EntryView::Text(w) && !blank(w)
            &&& match log_level {
                EntryView::Absent => true,
                EntryView::Null => true,
                EntryView::Text(l) => !blank(l),
                EntryView::Other => false,
            }
        }),
        (log_level is Absent || log_level is Null) ==> config_errors(
            python_library,
            websocket_endpoint,
            log_level,
        ) == config_errors(python_library, websocket_endpoint, EntryView::Absent),
        config_errors(python_library, websocket_endpoint, EntryView::Null) == config_errors(
            python_library,
            websocket_endpoint,
            EntryView::Absent,
        ),
{
    let a = required_entry_errors(
        python_library,
        "pythonLibrary is missing or null"@,
        "pythonLibrary is empty"@,
        "pythonLibrary must be a string"@,
    );
    let b = required_entry_errors(
        websocket_endpoint,
        "websocketEndpoint is missing or null"@,
        "websocketEndpoint is empty"@,
        "websocketEndpoint must be a string"@,
    );
    assert(log_level_errors(EntryView::Null) =~= Seq::<Seq<char>>::empty());
    assert(log_level_errors(EntryView::Absent) =~= Seq::<Seq<char>>::empty());
    assert((a + b + log_level_errors(log_level)).len() == a.len() + b.len() + log_level_errors(
        log_level,
    ).len());
}

/// Views of a sequence of strings.
pub open spec fn string_views(v: Seq<String>) -> Seq<Seq<char>> {
    v.map_values(|s: String| s@)
}

/// Whether `s` is blank (empty once trimmed).
pub fn is_blank(s: &str) -> (b: bool)
    ensures
        b == blank(s@),
{
    let t = trim(s);
    t.as_str().is_empty()
}

fn push_error(errors: &mut Vec<String>, message: &str)
    ensures
        string_views(final(errors)@) == string_views(old(errors)@).push(message@),
{
    errors.push(message.to_owned());
    assert(string_views(errors@) =~= string_views(old(errors)@).push(message@));
}

fn check_required(
    errors: &mut Vec<String>,
    entry: &ConfigEntry,
    missing: &str,
    empty: &str,
    not_string: &str,
)
    ensures
        string_views(final(errors)@) == string_views(old(errors)@) + required_entry_errors(
            entry@,
            missing@,
            empty@,
            not_string@,
        ),
{
    match entry {
        ConfigEntry::Absent | ConfigEntry::Null => push_error(errors, missing),
        ConfigEntry::Text(s) => {
            if is_blank(s.as_str()) {
                push_error(errors, empty);
            }
        },
        ConfigEntry::Other => push_error(errors, not_string),
    }
    assert(string_views(errors@) =~= string_views(old(errors)@) + required_entry_errors(
        entry@,
        missing@,
        empty@,
        not_string@,
    ));
}

/// Checks the configuration: `pythonLibrary` and `websocketEndpoint` must be
/// non-blank strings; `logLevel`, when present and not null, must be a
/// non-blank string. Returns every error found, in that order.
pub fn validate_config(config: &ClientConfig) -> (res: Result<(), Vec<String>>)
    ensures
        config_errors(config.python_library@, config.websocket_endpoint@, config.log_level@).len()
            == 0 ==> res is Ok,
        config_errors(config.python_library@, config.websocket_endpoint@, config.log_level@).len()
            > 0 ==> (res matches Err(errors) && string_views(errors@) == config_errors(
            config.python_library@,
            config.websocket_endpoint@,
            config.log_level@,
        )),
{
    let mut errors: Vec<String> = Vec::new();
    assert(string_views(errors@) =~= Seq::empty());
    check_required(
        &mut errors,
        &config.python_library,
        "pythonLibrary is missing or null",
        "pythonLibrary is empty",
        "pythonLibrary must be a string",
    );
    check_required(
        &mut errors,
        &config.websocket_endpoint,
        "websocketEndpoint is missing or null",
        "websocketEndpoint is empty",
        "websocketEndpoint must be a string",
    );
    let ghost before = string_views(errors@);
    match &config.log_level {
        ConfigEntry::Text(s) => {
            if is_blank(s.as_str()) {
                push_error(&mut errors, "logLevel is empty");
            }
        },
        ConfigEntry::Other => push_error(&mut errors, "logLevel must be a string"),
        _ => {},
    }
    assert(string_views(errors@) =~= before + log_level_errors(config.log_level@));
    assert(string_views(errors@) =~= config_errors(
        config.python_library@,
        config.websocket_endpoint@,
        config.log_level@,
    ));
    if errors.len() == 0 {
        Ok(())
    } else {
        Err(errors)
    }
}

/// The trimmed text of an entry, when it is a non-blank string.
pub open spec fn trimmed_text(entry: EntryView) -> Option<Seq<char>> {
    match entry {
        EntryView::Text(s) => if blank(s) {
            None
        } else {
            Some(trim_spec(s))
        },
        _ => None,
    }
}

fn trimmed_entry(entry: &ConfigEntry) -> (res: Option<String>)
    ensures
        match trimmed_text(entry@) {
            Some(t) => res matches Some(r) && r@ == t,
            None => res is None,
        },
{
    match entry {
        ConfigEntry::Text(s) => {
            let t = trim(s.as_str());
            if t.as_str().is_empty() {
                None
            } else {
                Some(t)
            }
        },
        _ => None,
    }
}

/// The long-term WebSocket token, trimmed, when the configuration holds a non-blank one.
pub fn get_ltk_from_config(config: &ClientConfig) -> (res: Option<String>)
    ensures
        match trimmed_text(config.ltk@) {
            Some(t) => res matches Some(r) && r@ == t,
            None => res is None,
        },
{
    trimmed_entry(&config.ltk)
}

/// The configured log level, trimmed; `info` when none is configured.
pub fn get_log_level(config: &ClientConfig) -> (res: String)
    ensures
        match trimmed_text(config.log_level@) {
            Some(t) => res@ == t,
            None => res@ == DEFAULT_LOG_LEVEL@,
        },
{
    match trimmed_entry(&config.log_level) {
        Some(t) => t,
        None => DEFAULT_LOG_LEVEL.to_owned(),
    }
}

/// The Python library path: the environment variable's value when it is
/// set, otherwise the configured path, trimmed, when it is non-blank;
/// `None` when neither gives one.
pub fn get_python_library_path(env_value: Option<String>, config: &ClientConfig) -> (res: Option<String>)
    ensures
        match env_value {
            Some(v) => res == Some(v),
            None => match trimmed_text(config.python_library@) {
                Some(t) => res matches Some(r) && r@ == t,
                None => res is None,
            },
        },
{
    match env_value {
        Some(v) => Some(v),
        None => trimmed_entry(&config.python_library),
    }
}

/// The endpoint with a `/` appended unless it already ends with one.
pub open spec fn with_trailing_slash(s: Seq<char>) -> Seq<char> {
    if s.len() > 0 && s.last() == '/' {
        s
    } else {
        s.push('/')
    }
}

/// Ensures the WebSocket endpoint URL ends with a trailing slash.
pub fn ensure_websocket_endpoint_trailing_slash(endpoint: &str) -> (res: String)
    ensures
        res@ == with_trailing_slash(endpoint@),
{
    let mut cs = chars_of(endpoint);
    let n = cs.len();
    if n > 0 && cs[n - 1] == '/' {
        string_from_chars(cs.as_slice())
    } else {
        cs.push('/');
        string_from_chars(cs.as_slice())
    }
}

/// The configured endpoint (or the default one when none is a string),
/// with a trailing slash.
pub fn get_ws_endpoint_from_config(config: &ClientConfig) -> (res: String)
    ensures
        match config.websocket_endpoint@ {
            EntryView::Text(s) => res@ == with_trailing_slash(s),
            _ => res@ == with_trailing_slash(DEFAULT_WEBSOCKET_ENDPOINT@),
        },
{
    match &config.websocket_endpoint {
        ConfigEntry::Text(s) => ensure_websocket_endpoint_trailing_slash(s.as_str()),
        _ => ensure_websocket_endpoint_trailing_slash(DEFAULT_WEBSOCKET_ENDPOINT),
    }
}

/// Error when both a configured and a command-line token are given.
pub const BOTH_TOKENS_ERROR: &'static str =
    "Both config.json 'ltk' and a CLI WebSocket token were provided. Remove one.";

/// Error when no token is given.
pub const NO_TOKEN_ERROR: &'static str =
    "No WebSocket token configured. Set config.json 'ltk' or pass a CLI token.";

/// Chooses the WebSocket token: exactly one of the configured long-term
/// token and the (trimmed, non-blank) first command-line argument must be
/// given. The flag tells whether the configured token was chosen.
pub fn resolve_websocket_token(args: &[String], config: &ClientConfig) -> (res: Result<(String, bool), String>)
    ensures
        ({
            let cli = if args@.len() > 1 && !blank(args@[1]@) {
                Some(trim_spec(args@[1]@))
            } else {
                None::<Seq<char>>
            };
            match (trimmed_text(config.ltk@), cli) {
                (Some(_), Some(_)) => res matches Err(e) && e@ == BOTH_TOKENS_ERROR@,
                (Some(t), None) => res matches Ok((tok, flag)) && tok@ == t && flag,
                (None, Some(c)) => res matches Ok((tok, flag)) && tok@ == c && !flag,
                (None, None) => res matches Err(e) && e@ == NO_TOKEN_ERROR@,
            }
        }),
{
    let config_ltk = get_ltk_from_config(config);
    let cli: Option<String> = if args.len() > 1 {
        let t = trim(args[1].as_str());
        if t.as_str().is_empty() {
            None
        } else {
            Some(t)
        }
    } else {
        None
    };
    match (config_ltk, cli) {
        (Some(_), Some(_)) => Err(BOTH_TOKENS_ERROR.to_owned()),
        (Some(token), None) => Ok((token, true)),
        (None, Some(token)) => Ok((token, false)),
        (None, None) => Err(NO_TOKEN_ERROR.to_owned()),
    }
}

} // verus!
