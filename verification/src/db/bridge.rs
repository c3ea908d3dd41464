//! Decisions of the database bridge: the single worker that forwards
//! database requests to the server one at a time and hands each caller its
//! reply.
//!
//! The worker itself (its queue, thread and clock) lives with the caller;
//! this module decides whether a request may be sent and what the caller is
//! answered for each way the exchange can end.

use vstd::prelude::*;
use crate::message::Message;
use crate::text::concat_str;

verus! {

/// Seconds the bridge waits for the server's reply to one request.
pub const DB_REQUEST_TIMEOUT_SECS: u64 = 30;

/// Queue depth above which the bridge reports a backlog.
pub const QUEUE_DEPTH_WARNING: usize = 50;

/// Answer to a request made while the connection is down.
pub const DISCONNECTED_TEXT: &'static str = "DB request error: WebSocket is disconnected";

/// Prefix of the answer to a request the server failed.
pub const REQUEST_ERROR_PREFIX: &'static str = "DB request error: ";

/// Answer to a request whose reply did not come in time.
pub const TIMED_OUT_TEXT: &'static str = "DB request timed out after 30s";

/// How one exchange with the server ended.
pub enum ExchangeEnd {
    /// The server replied.
    Replied(Message),
    /// Sending failed, with the transport's reason.
    Failed(String),
    /// No reply came before the deadline.
    TimedOut,
}

/// The answer to a request made while the connection is closed or the
/// server has not announced that it is ready; `None` when the request may go.
pub fn disconnected_rejection(connection_closed: bool, server_ready: bool) -> (res: Option<String>)
    ensures
        res.is_some() <==> (connection_closed || !server_ready),
        res matches Some(e) ==> e@ == DISCONNECTED_TEXT@,
{
    if connection_closed || !server_ready {
        Some(DISCONNECTED_TEXT.to_owned())
    } else {
        None
    }
}

/// What the caller of the bridge is answered for each end of an exchange.
pub fn exchange_answer(end: ExchangeEnd) -> (res: Result<Message, String>)
    ensures
        match end {
            ExchangeEnd::Replied(m) => res == Ok::<Message, String>(m),
            ExchangeEnd::Failed(e) => res matches Err(r) && r@ == REQUEST_ERROR_PREFIX@ + e@,
            ExchangeEnd::TimedOut => res matches Err(r) && r@ == TIMED_OUT_TEXT@,
        },
{
    match end {
        ExchangeEnd::Replied(m) => Ok(m),
        ExchangeEnd::Failed(e) => Err(concat_str(REQUEST_ERROR_PREFIX, e.as_str())),
        ExchangeEnd::TimedOut => Err(TIMED_OUT_TEXT.to_owned()),
    }
}

/// Whether a queue of `depth` pending requests is reported as a backlog.
pub fn queue_backlogged(depth: usize) -> (res: bool)
    ensures
        res <==> depth > QUEUE_DEPTH_WARNING,
{
    depth > QUEUE_DEPTH_WARNING
}

} // verus!
