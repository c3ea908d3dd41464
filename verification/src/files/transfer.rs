//! The decisions of a file download: which result of a transfer is
//! authoritative, how transmitted bytes are accounted for, and how each event
//! of the transfer loop (a peer frame, a file read, a chunk send) moves the
//! transfer on.
//!
//! The loop itself (reading the file, sending frames, waiting on the socket)
//! is driven by the caller, which hands each outcome to this module and
//! performs the step it returns.

use vstd::prelude::*;
use crate::message::{
    fresh_spec, push_bytes_spec, Message, Priority, FILE_CHUNK, PAUSE_FILE_CHUNK_STREAM,
    RESUME_FILE_CHUNK_STREAM, from_data_spec,
};
use crate::text::{concat_str, decimal_digits, u64_to_decimal};

verus! {

/// Abstract view of a transfer result.
pub enum AuthView {
    Pending,
    PrimaryError(Seq<char>),
    PeerTerminal(Seq<char>),
    CleanEof,
}

/// The result of a download transfer, as selected so far. Once a primary
/// operation failure has been selected, later peer terminal events and
/// cleanup failures cannot replace it.
#[derive(Debug, PartialEq, Eq)]
pub enum AuthoritativeResult {
    /// No result yet.
    Pending,
    /// An operation of this side failed.
    PrimaryError(String),
    /// The peer sent Close, ended the stream or failed to receive.
    PeerTerminal(String),
    /// Every byte was sent and the file ended where expected.
    CleanEof,
}

impl View for AuthoritativeResult {
    type V = AuthView;

    open spec fn view(&self) -> AuthView {
        match self {
            AuthoritativeResult::Pending => AuthView::Pending,
            AuthoritativeResult::PrimaryError(m) => AuthView::PrimaryError(m@),
            AuthoritativeResult::PeerTerminal(m) => AuthView::PeerTerminal(m@),
            AuthoritativeResult::CleanEof => AuthView::CleanEof,
        }
    }
}

/// Abstract view of a final transfer outcome.
pub enum OutcomeView {
    PrimaryError(Seq<char>),
    PeerTerminal(Seq<char>),
    CleanEof,
}

/// A finished transfer's outcome (a result without the pending state).
#[derive(Debug, PartialEq, Eq)]
pub enum TransferOutcome {
    PrimaryError(String),
    PeerTerminal(String),
    CleanEof,
}

impl View for TransferOutcome {
    type V = OutcomeView;

    open spec fn view(&self) -> OutcomeView {
        match self {
            TransferOutcome::PrimaryError(m) => OutcomeView::PrimaryError(m@),
            TransferOutcome::PeerTerminal(m) => OutcomeView::PeerTerminal(m@),
            TransferOutcome::CleanEof => OutcomeView::CleanEof,
        }
    }
}

/// Message of the outcome of a transfer that ended with no result.
pub const NO_RESULT_TEXT: &'static str = "exited without result";

impl AuthoritativeResult {
    /// Whether no result has been selected yet.
    pub fn is_pending(&self) -> (b: bool)
        ensures
            b == (self@ is Pending),
    {
        match self {
            AuthoritativeResult::Pending => true,
            _ => false,
        }
    }

    /// Whether a primary operation failure has been selected.
    pub fn is_primary(&self) -> (b: bool)
        ensures
            b == (self@ is PrimaryError),
    {
        match self {
            AuthoritativeResult::PrimaryError(_) => true,
            _ => false,
        }
    }

    /// A copy with the same view.
    pub fn duplicate(&self) -> (r: AuthoritativeResult)
        ensures
            r@ == self@,
    {
        match self {
            AuthoritativeResult::Pending => AuthoritativeResult::Pending,
            AuthoritativeResult::PrimaryError(m) => AuthoritativeResult::PrimaryError(m.clone()),
            AuthoritativeResult::PeerTerminal(m) => AuthoritativeResult::PeerTerminal(m.clone()),
            AuthoritativeResult::CleanEof => AuthoritativeResult::CleanEof,
        }
    }

    /// The outcome reported for this result; a pending result counts as the
    /// peer having gone away.
    pub fn into_outcome(self) -> (o: TransferOutcome)
        ensures
            match self@ {
                AuthView::Pending => o@ == OutcomeView::PeerTerminal(NO_RESULT_TEXT@),
                AuthView::PrimaryError(m) => o@ == OutcomeView::PrimaryError(m),
                AuthView::PeerTerminal(m) => o@ == OutcomeView::PeerTerminal(m),
                AuthView::CleanEof => o@ == OutcomeView::CleanEof,
            },
    {
        match self {
            AuthoritativeResult::Pending => TransferOutcome::PeerTerminal(NO_RESULT_TEXT.to_owned()),
            AuthoritativeResult::PrimaryError(m) => TransferOutcome::PrimaryError(m),
            AuthoritativeResult::PeerTerminal(m) => TransferOutcome::PeerTerminal(m),
            AuthoritativeResult::CleanEof => TransferOutcome::CleanEof,
        }
    }
}

/// The result after `candidate` is offered to a transfer whose result is
/// `current`: a selected primary error is only replaced by another primary error.
pub open spec fn select(current: AuthView, candidate: AuthView) -> AuthView {
    if current is PrimaryError && !(candidate is PrimaryError) {
        current
    } else {
        candidate
    }
}

/// The result after offering each candidate in turn.
pub open spec fn select_all(current: AuthView, candidates: Seq<AuthView>) -> AuthView
    decreases candidates.len(),
{
    if candidates.len() == 0 {
        current
    } else {
        select(select_all(current, candidates.drop_last()), candidates.last())
    }
}

/// Once a primary error has been selected, the result stays a primary
/// error whatever is offered afterwards.
pub proof fn law_primary_error_stays(current: AuthView, candidates: Seq<AuthView>)
    requires
        current is PrimaryError,
    ensures
        select_all(current, candidates) is PrimaryError,
    decreases candidates.len(),
{
    if candidates.len() > 0 {
        law_primary_error_stays(current, candidates.drop_last());
    }
}

/// Once a primary error has been selected, no sequence of peer terminal
/// events, clean-EOF or pending results changes it.
pub proof fn law_primary_error_not_replaced(current: AuthView, candidates: Seq<AuthView>)
    requires
        current is PrimaryError,
        forall|i: int| 0 <= i < candidates.len() ==> !(#[trigger] candidates[i] is PrimaryError),
    ensures
        select_all(current, candidates) == current,
    decreases candidates.len(),
{
    if candidates.len() > 0 {
        assert forall|i: int| 0 <= i < candidates.drop_last().len() implies !(
        #[trigger] candidates.drop_last()[i] is PrimaryError) by {
            assert(candidates.drop_last()[i] == candidates[i]);
        }
        law_primary_error_not_replaced(current, candidates.drop_last());
        assert(!(candidates[candidates.len() - 1] is PrimaryError));
    }
}

/// Abstract view of the per-transfer state.
pub struct TransferView {
    pub authoritative: AuthView,
    pub transmitted_bytes: u64,
    pub expected_size: u64,
    pub pending_chunk: Option<Seq<u8>>,
    pub pending_chunk_len: usize,
}

/// Per-transfer state: the selected result, the bytes sent so far, the
/// expected size, and the chunk waiting to be sent.
#[derive(Debug)]
pub struct TransferState {
    pub authoritative: AuthoritativeResult,
    pub transmitted_bytes: u64,
    pub expected_size: u64,
    pub pending_chunk_bytes: Option<Vec<u8>>,
    pub pending_chunk_len: usize,
}

impl View for TransferState {
    type V = TransferView;

    open spec fn view(&self) -> TransferView {
        TransferView {
            authoritative: self.authoritative@,
            transmitted_bytes: self.transmitted_bytes,
            expected_size: self.expected_size,
            pending_chunk: match self.pending_chunk_bytes {
                Some(b) => Some(b@),
                None => None,
            },
            pending_chunk_len: self.pending_chunk_len,
        }
    }
}

/// The state of a transfer of `expected_size` bytes that has not started.
pub open spec fn fresh_transfer(expected_size: u64) -> TransferView {
    TransferView {
        authoritative: AuthView::Pending,
        transmitted_bytes: 0,
        expected_size: expected_size,
        pending_chunk: None,
        pending_chunk_len: 0,
    }
}

impl TransferState {
    /// A transfer of `expected_size` bytes that has not started.
    pub fn new(expected_size: u64) -> (s: TransferState)
        ensures
            s@ == fresh_transfer(expected_size),
    {
        TransferState {
            authoritative: AuthoritativeResult::Pending,
            transmitted_bytes: 0,
            expected_size,
            pending_chunk_bytes: None,
            pending_chunk_len: 0,
        }
    }

    /// Bytes sent successfully so far.
    pub fn total_bytes(&self) -> (n: u64)
        ensures
            n == self.transmitted_bytes,
    {
        self.transmitted_bytes
    }

    /// The size the file had when the transfer started.
    pub fn expected_size(&self) -> (n: u64)
        ensures
            n == self.expected_size,
    {
        self.expected_size
    }

    /// The result selected so far.
    pub fn authoritative(&self) -> (r: &AuthoritativeResult)
        ensures
            r@ == self.authoritative@,
    {
        &self.authoritative
    }

    /// The result selected, consuming the state.
    pub fn take_authoritative(self) -> (r: AuthoritativeResult)
        ensures
            r@ == self.authoritative@,
    {
        self.authoritative
    }

    /// Offers a result: it replaces the current one unless a primary error is
    /// selected and the offered result is not a primary error.
    pub fn set_authoritative(&mut self, result: AuthoritativeResult)
        ensures
            final(self)@ == (TransferView {
                authoritative: select(old(self)@.authoritative, result@),
                ..old(self)@
            }),
    {
        if self.authoritative.is_primary() && !result.is_primary() {
            return;
        }
        self.authoritative = result;
    }

    /// Selects a primary error with the given message and returns it.
    pub fn primary(&mut self, msg: &str) -> (r: AuthoritativeResult)
        ensures
            r@ == AuthView::PrimaryError(msg@),
            final(self)@ == (TransferView {
                authoritative: AuthView::PrimaryError(msg@),
                ..old(self)@
            }),
    {
        let result = AuthoritativeResult::PrimaryError(msg.to_owned());
        let copy = result.duplicate();
        self.set_authoritative(copy);
        result
    }

    /// Records a peer terminal event. When a primary error was already
    /// selected, it is kept and returned instead.
    pub fn peer_terminal(&mut self, msg: String) -> (r: AuthoritativeResult)
        ensures
            old(self)@.authoritative is PrimaryError ==> r@ == old(self)@.authoritative
                && final(self)@ == old(self)@,
            !(old(self)@.authoritative is PrimaryError) ==> r@ == AuthView::PeerTerminal(msg@)
                && final(self)@ == (TransferView {
                authoritative: AuthView::PeerTerminal(msg@),
                ..old(self)@
            }),
    {
        if self.authoritative.is_primary() {
            return self.authoritative.duplicate();
        }
        let result = AuthoritativeResult::PeerTerminal(msg);
        self.authoritative = result.duplicate();
        result
    }
}

/// A frame (or the lack of one) received from the peer during a transfer.
pub enum IncomingFrame {
    /// The stream ended.
    End,
    /// A Close frame.
    Close,
    /// A binary frame.
    Binary(Vec<u8>),
    /// Any other frame.
    Other,
    /// A receive error, with its text.
    Error(String),
}

/// What a peer frame means to the transfer.
#[derive(Debug, PartialEq, Eq)]
pub enum IncomingEvent {
    Pause,
    Resume,
    Close,
    Eof,
    Error(String),
    Ignored,
}

/// Classifies a peer frame: binary frames carrying the pause or resume
/// message ids pause or resume the stream; other binary and non-binary
/// frames are ignored.
pub fn classify_incoming(frame: IncomingFrame) -> (e: IncomingEvent)
    ensures
        match frame {
            IncomingFrame::End => e == IncomingEvent::Eof,
            IncomingFrame::Close => e == IncomingEvent::Close,
            IncomingFrame::Binary(d) => {
                let id = from_data_spec(d@).id;
                if id == PAUSE_FILE_CHUNK_STREAM {
                    e == IncomingEvent::Pause
                } else if id == RESUME_FILE_CHUNK_STREAM {
                    e == IncomingEvent::Resume
                } else {
                    e == IncomingEvent::Ignored
                }
            },
            IncomingFrame::Other => e == IncomingEvent::Ignored,
            IncomingFrame::Error(m) => e matches IncomingEvent::Error(t) && t@ == m@,
        },
{
    match frame {
        IncomingFrame::End => IncomingEvent::Eof,
        IncomingFrame::Close => IncomingEvent::Close,
        IncomingFrame::Binary(data) => {
            let msg = Message::from_data(data);
            let id = msg.get_id();
            if id == PAUSE_FILE_CHUNK_STREAM {
                IncomingEvent::Pause
            } else if id == RESUME_FILE_CHUNK_STREAM {
                IncomingEvent::Resume
            } else {
                IncomingEvent::Ignored
            }
        },
        IncomingFrame::Other => IncomingEvent::Ignored,
        IncomingFrame::Error(m) => IncomingEvent::Error(m),
    }
}

/// Whether the loop reads the file or sends the pending chunk next.
#[derive(Clone, Copy, Debug, PartialEq, Eq, Structural)]
pub enum ChunkState {
    Reading,
    Sending,
}

/// What the transfer loop does after an event.
#[derive(Debug)]
pub enum LoopStep {
    /// Keep going in the same phase.
    Continue,
    /// Switch phase.
    SetState(ChunkState),
    /// Stop with this result.
    Finish(AuthoritativeResult),
}

/// Abstract view of a loop step.
pub enum StepView {
    Continue,
    SetState(ChunkState),
    Finish(AuthView),
}

impl View for LoopStep {
    type V = StepView;

    open spec fn view(&self) -> StepView {
        match self {
            LoopStep::Continue => StepView::Continue,
            LoopStep::SetState(s) => StepView::SetState(*s),
            LoopStep::Finish(r) => StepView::Finish(r@),
        }
    }
}

pub const PEER_CLOSE_TEXT: &'static str = "peer Close";
pub const PEER_EOF_TEXT: &'static str = "peer EOF";
pub const PEER_RECEIVE_ERROR_PREFIX: &'static str = "peer receive error: ";
pub const READ_FAILED_TEXT: &'static str = "file read failed";
pub const READ_FAILED_CLIENT_TEXT: &'static str = "Exception reading file";
pub const SEND_FAILED_TEXT: &'static str = "chunk send failed";

/// Abstract view of the download loop's control state.
pub struct ControlView {
    pub state: TransferView,
    pub chunk_state: ChunkState,
    pub is_paused: bool,
}

/// The download loop's control state: the transfer state, the current
/// phase and whether the peer paused the stream.
pub struct DownloadControl {
    pub state: TransferState,
    pub chunk_state: ChunkState,
    pub is_paused: bool,
}

impl View for DownloadControl {
    type V = ControlView;

    open spec fn view(&self) -> ControlView {
        ControlView { state: self.state@, chunk_state: self.chunk_state, is_paused: self.is_paused }
    }
}

/// The peer-terminal result for a terminal peer event: the primary error if
/// one is selected, otherwise a peer terminal with the event's text.
pub open spec fn terminal_result(current: AuthView, text: Seq<char>) -> AuthView {
    if current is PrimaryError {
        current
    } else {
        AuthView::PeerTerminal(text)
    }
}

/// The text of a terminal peer event.
pub open spec fn terminal_text(e: IncomingEvent) -> Seq<char> {
    match e {
        IncomingEvent::Close => PEER_CLOSE_TEXT@,
        IncomingEvent::Eof => PEER_EOF_TEXT@,
        IncomingEvent::Error(m) => PEER_RECEIVE_ERROR_PREFIX@ + m@,
        _ => Seq::empty(),
    }
}

/// The text of the size-mismatch error sent to the peer.
pub open spec fn size_mismatch_client_text(expected: u64, transmitted: u64) -> Seq<char> {
    "File size mismatch: expected "@ + decimal_digits(expected as nat) + ", got "@
        + decimal_digits(transmitted as nat)
}

/// The text of the primary error selected on a premature end of file.
pub open spec fn unexpected_eof_text(expected: u64, transmitted: u64) -> Seq<char> {
    "unexpected EOF: transmitted "@ + decimal_digits(transmitted as nat) + " of "@
        + decimal_digits(expected as nat) + " bytes"@
}

/// What to do when the file read returned zero bytes.
#[derive(Debug)]
pub enum EofDecision {
    /// Every byte was sent: poll once for a peer terminal event, then finish.
    PollPeer,
    /// A primary error was already selected: finish with it.
    Keep(AuthoritativeResult),
    /// The file ended early: send `client_error` to the peer and finish with `result`.
    SizeMismatch { client_error: String, result: AuthoritativeResult },
}

/// What the zero-duration poll at the end of file found.
pub enum BoundaryPoll {
    /// A Close frame was ready.
    CloseReady,
    /// The stream had ended or failed.
    EndOrError,
    /// Another frame, or nothing, was ready.
    Nothing,
}

fn concat3(a: &str, b: &str, c: &str) -> (r: String)
    ensures
        r@ == a@ + b@ + c@,
{
    let ab = concat_str(a, b);
    concat_str(ab.as_str(), c)
}

impl DownloadControl {
    /// The control state at the start of a transfer of `expected_size` bytes.
    pub fn new(expected_size: u64) -> (c: DownloadControl)
        ensures
            c@.state == fresh_transfer(expected_size),
            c@.chunk_state == ChunkState::Reading,
            !c@.is_paused,
    {
        DownloadControl {
            state: TransferState::new(expected_size),
            chunk_state: ChunkState::Reading,
            is_paused: false,
        }
    }

    /// Applies a peer event. Pause and resume toggle the pause flag (the
    /// flag returned asks the caller to wake a waiter on resume); Close, end
    /// of stream and receive errors finish the transfer with a peer terminal
    /// result (or the primary error already selected); other frames are ignored.
    pub fn apply_incoming(&mut self, event: IncomingEvent) -> (res: (LoopStep, bool))
        ensures
            match event {
                IncomingEvent::Pause => res.0@ == StepView::Continue && !res.1 && final(self)@
                    == (ControlView { is_paused: true, ..old(self)@ }),
                IncomingEvent::Resume => res.0@ == StepView::Continue && res.1 && final(self)@
                    == (ControlView { is_paused: false, ..old(self)@ }),
                IncomingEvent::Ignored => res.0@ == StepView::Continue && !res.1 && final(self)@
                    == old(self)@,
                _ => {
                    let r = terminal_result(old(self)@.state.authoritative, terminal_text(event));
                    &&& res.0@ == StepView::Finish(r)
                    &&& !res.1
                    &&& final(self)@ == (ControlView {
                        state: TransferView { authoritative: r, ..old(self)@.state },
                        ..old(self)@
                    })
                },
            },
    {
        match event {
            IncomingEvent::Pause => {
                self.is_paused = true;
                (LoopStep::Continue, false)
            },
            IncomingEvent::Resume => {
                self.is_paused = false;
                (LoopStep::Continue, true)
            },
            IncomingEvent::Close => {
                let r = self.state.peer_terminal(PEER_CLOSE_TEXT.to_owned());
                (LoopStep::Finish(r), false)
            },
            IncomingEvent::Eof => {
                let r = self.state.peer_terminal(PEER_EOF_TEXT.to_owned());
                (LoopStep::Finish(r), false)
            },
            IncomingEvent::Error(m) => {
                let text = concat_str(PEER_RECEIVE_ERROR_PREFIX, m.as_str());
                let r = self.state.peer_terminal(text);
                (LoopStep::Finish(r), false)
            },
            IncomingEvent::Ignored => (LoopStep::Continue, false),
        }
    }

    /// Whether the reading phase must wait for the peer instead of reading:
    /// a primary error is selected, or the stream is paused.
    pub fn must_wait_before_reading(&self) -> (b: bool)
        ensures
            b == (self@.state.authoritative is PrimaryError || self@.is_paused),
    {
        self.state.authoritative.is_primary() || self.is_paused
    }

    /// A read returned `chunk` (non-empty): the chunk message for `uuid` is
    /// built and waits to be sent; the loop switches to sending.
    pub fn on_read_data(&mut self, uuid: &str, chunk: &[u8]) -> (step: LoopStep)
        ensures
            step@ == StepView::SetState(ChunkState::Sending),
            final(self)@ == (ControlView {
                state: TransferView {
                    pending_chunk: Some(
                        push_bytes_spec(fresh_spec(FILE_CHUNK, Priority::Highest, uuid@), chunk@).data,
                    ),
                    pending_chunk_len: chunk@.len() as usize,
                    ..old(self)@.state
                },
                ..old(self)@
            }),
    {
        let mut msg = Message::new(FILE_CHUNK, Priority::Highest, uuid);
        msg.push_bytes(chunk);
        self.state.pending_chunk_bytes = Some(msg.into_data());
        self.state.pending_chunk_len = chunk.len();
        LoopStep::SetState(ChunkState::Sending)
    }

    /// A read failed: the peer is told the file could not be read and the
    /// transfer finishes with a primary error.
    pub fn on_read_failed(&mut self) -> (res: (LoopStep, String))
        ensures
            res.0@ == StepView::Finish(AuthView::PrimaryError(READ_FAILED_TEXT@)),
            res.1@ == READ_FAILED_CLIENT_TEXT@,
            final(self)@ == (ControlView {
                state: TransferView {
                    authoritative: AuthView::PrimaryError(READ_FAILED_TEXT@),
                    ..old(self)@.state
                },
                ..old(self)@
            }),
    {
        let r = self.state.primary(READ_FAILED_TEXT);
        (LoopStep::Finish(r), READ_FAILED_CLIENT_TEXT.to_owned())
    }

    /// The file read returned zero bytes. When every expected byte was sent
    /// and no primary error is selected, the peer is polled once; when a
    /// primary error is selected it is kept; otherwise the file ended early.
    pub fn on_read_eof(&self) -> (d: EofDecision)
        ensures
            ({
                let st = self@.state;
                if st.transmitted_bytes == st.expected_size && !(st.authoritative is PrimaryError) {
                    d is PollPeer
                } else if st.transmitted_bytes == st.expected_size {
                    d matches EofDecision::Keep(r) && r@ == st.authoritative
                } else {
                    d matches EofDecision::SizeMismatch { client_error, result } && client_error@
                        == size_mismatch_client_text(st.expected_size, st.transmitted_bytes)
                        && result@ == AuthView::PrimaryError(
                        unexpected_eof_text(st.expected_size, st.transmitted_bytes),
                    )
                }
            }),
    {
        let expected = self.state.expected_size;
        let transmitted = self.state.transmitted_bytes;
        if transmitted == expected && !self.state.authoritative.is_primary() {
            EofDecision::PollPeer
        } else if transmitted == expected {
            EofDecision::Keep(self.state.authoritative.duplicate())
        } else {
            let e = u64_to_decimal(expected);
            let t = u64_to_decimal(transmitted);
            let a = concat3("File size mismatch: expected ", e.as_str(), ", got ");
            let client_error = concat_str(a.as_str(), t.as_str());
            let b = concat3("unexpected EOF: transmitted ", t.as_str(), " of ");
            let msg = concat3(b.as_str(), e.as_str(), " bytes");
            EofDecision::SizeMismatch { client_error, result: AuthoritativeResult::PrimaryError(msg) }
        }
    }

    /// After the end-of-file poll: a ready Close or end of stream finishes
    /// the transfer as a peer terminal event; otherwise it finishes clean.
    pub fn on_eof_poll(&mut self, poll: BoundaryPoll) -> (step: LoopStep)
        requires
            old(self)@.state.transmitted_bytes == old(self)@.state.expected_size,
            !(old(self)@.state.authoritative is PrimaryError),
        ensures
            match poll {
                BoundaryPoll::CloseReady => step@ == StepView::Finish(AuthView::PeerTerminal(PEER_CLOSE_TEXT@))
                    && final(self)@ == (ControlView {
                    state: TransferView {
                        authoritative: AuthView::PeerTerminal(PEER_CLOSE_TEXT@),
                        ..old(self)@.state
                    },
                    ..old(self)@
                }),
                BoundaryPoll::EndOrError => step@ == StepView::Finish(AuthView::PeerTerminal(PEER_EOF_TEXT@))
                    && final(self)@ == (ControlView {
                    state: TransferView {
                        authoritative: AuthView::PeerTerminal(PEER_EOF_TEXT@),
                        ..old(self)@.state
                    },
                    ..old(self)@
                }),
                BoundaryPoll::Nothing => step@ == StepView::Finish(AuthView::CleanEof) && final(self)@
                    == old(self)@,
            },
    {
        match poll {
            BoundaryPoll::CloseReady => LoopStep::Finish(self.state.peer_terminal(PEER_CLOSE_TEXT.to_owned())),
            BoundaryPoll::EndOrError => LoopStep::Finish(self.state.peer_terminal(PEER_EOF_TEXT.to_owned())),
            BoundaryPoll::Nothing => LoopStep::Finish(AuthoritativeResult::CleanEof),
        }
    }

    /// Takes the chunk waiting to be sent, if any (its length stays recorded
    /// until the send completes).
    pub fn take_pending_chunk(&mut self) -> (c: Option<Vec<u8>>)
        ensures
            match old(self)@.state.pending_chunk {
                Some(b) => c matches Some(v) && v@ == b,
                None => c is None,
            },
            final(self)@ == (ControlView {
                state: TransferView { pending_chunk: None, ..old(self)@.state },
                ..old(self)@
            }),
    {
        self.state.pending_chunk_bytes.take()
    }

    /// Puts back a chunk whose send lost the race against a peer frame, so
    /// that it is sent again.
    pub fn restore_pending_chunk(&mut self, chunk: Vec<u8>)
        ensures
            final(self)@ == (ControlView {
                state: TransferView { pending_chunk: Some(chunk@), ..old(self)@.state },
                ..old(self)@
            }),
    {
        self.state.pending_chunk_bytes = Some(chunk);
    }

    /// A chunk send completed. On success the chunk's bytes are counted as
    /// transmitted (only then) and the loop goes back to reading; the flag
    /// tells whether that was the final chunk. On failure the transfer
    /// finishes with a primary error.
    pub fn on_send_result(&mut self, sent: bool) -> (res: (LoopStep, bool))
        requires
            old(self)@.state.transmitted_bytes + old(self)@.state.pending_chunk_len <= u64::MAX,
        ensures
            sent ==> ({
                let t = (old(self)@.state.transmitted_bytes + old(self)@.state.pending_chunk_len) as u64;
                &&& res.0@ == StepView::SetState(ChunkState::Reading)
                &&& res.1 == (t == old(self)@.state.expected_size)
                &&& final(self)@ == (ControlView {
                    state: TransferView {
                        transmitted_bytes: t,
                        pending_chunk: None,
                        pending_chunk_len: 0,
                        ..old(self)@.state
                    },
                    ..old(self)@
                })
            }),
            !sent ==> res.0@ == StepView::Finish(AuthView::PrimaryError(SEND_FAILED_TEXT@)) && !res.1
                && final(self)@ == (ControlView {
                state: TransferView {
                    authoritative: AuthView::PrimaryError(SEND_FAILED_TEXT@),
                    pending_chunk: None,
                    pending_chunk_len: 0,
                    ..old(self)@.state
                },
                ..old(self)@
            }),
    {
        let chunk_len = self.state.pending_chunk_len;
        self.state.pending_chunk_bytes = None;
        self.state.pending_chunk_len = 0;
        if sent {
            self.state.transmitted_bytes = self.state.transmitted_bytes + chunk_len as u64;
            let is_final = self.state.transmitted_bytes == self.state.expected_size;
            (LoopStep::SetState(ChunkState::Reading), is_final)
        } else {
            let r = self.state.primary(SEND_FAILED_TEXT);
            (LoopStep::Finish(r), false)
        }
    }

    /// Applies a loop step: a phase switch changes the phase, a finish offers
    /// its result to the transfer state.
    pub fn apply_step(&mut self, step: LoopStep) -> (done: bool)
        ensures
            match step@ {
                StepView::Continue => !done && final(self)@ == old(self)@,
                StepView::SetState(s) => !done && final(self)@ == (ControlView {
                    chunk_state: s,
                    ..old(self)@
                }),
                StepView::Finish(r) => done && final(self)@ == (ControlView {
                    state: TransferView {
                        authoritative: select(old(self)@.state.authoritative, r),
                        ..old(self)@.state
                    },
                    ..old(self)@
                }),
            },
    {
        match step {
            LoopStep::Continue => false,
            LoopStep::SetState(s) => {
                self.chunk_state = s;
                false
            },
            LoopStep::Finish(r) => {
                self.state.set_authoritative(r);
                true
            },
        }
    }
}

/// The primary error message that cleanup must preserve, if any.
pub fn cleanup_primary_error(result: &AuthoritativeResult) -> (m: Option<String>)
    ensures
        match result@ {
            AuthView::PrimaryError(t) => m matches Some(s) && s@ == t,
            _ => m is None,
        },
{
    match result {
        AuthoritativeResult::PrimaryError(msg) => Some(msg.clone()),
        _ => None,
    }
}

} // verus!
