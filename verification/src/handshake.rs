//! The handshake: one announcement and one acknowledgement, each answered by
//! the peer.
//!
//! The handshake is a state machine.  It does no I/O: it is told what
//! happened on the connection, and answers with what to do next.  Whoever
//! owns the connection carries that out and reports back.

use crate::enums::{Command, ServiceIdentifier};
use crate::errors::{BitcoinMessageError, ErrorView};
use crate::message::{
    frame_len, BitcoinDeserialize, BitcoinSerialize, Message, MessageView, Payload, PayloadView,
    random_nonce, SocketAddress, VersionData,
};
use vstd::prelude::*;

verus! {

/// How an exchange went in which a message was sent and an answer read.
#[derive(Debug, Clone, Copy, PartialEq, Eq, Structural)]
pub enum ExchangeResult {
    /// The peer answered with the command that was expected.
    Complete,
    /// The peer answered with a well-formed message of another command, or
    /// of a command that this crate does not know.
    Partial,
}

/// Why a handshake failed.
#[derive(Debug, Clone, PartialEq, Eq)]
pub enum FailureReason {
    /// A message could not be written, or the answer could not be read as a
    /// message.
    Message(BitcoinMessageError),
    /// The peer announced itself with the nonce that this side had sent: the
    /// connection leads back to this node.
    SelfConnection,
    /// The peer answered the announcement with something else than its own
    /// announcement.
    AnnouncementNotAnswered,
    /// The connection could not be opened, written to or read from.
    Transport,
    /// The peer took too long.
    Timeout,
    /// The handshake was told of something that cannot happen in the state
    /// it was in.
    OutOfOrder,
}

/// The mathematical value of a [`FailureReason`].
pub enum FailureView {
    Message(ErrorView),
    SelfConnection,
    AnnouncementNotAnswered,
    Transport,
    Timeout,
    OutOfOrder,
}

impl View for FailureReason {
    type V = FailureView;

    open spec fn view(&self) -> FailureView {
        match self {
            FailureReason::Message(e) => FailureView::Message(e@),
            FailureReason::SelfConnection => FailureView::SelfConnection,
            FailureReason::AnnouncementNotAnswered => FailureView::AnnouncementNotAnswered,
            FailureReason::Transport => FailureView::Transport,
            FailureReason::Timeout => FailureView::Timeout,
            FailureReason::OutOfOrder => FailureView::OutOfOrder,
        }
    }
}

/// How a handshake ended.
#[derive(Debug, Clone, PartialEq, Eq)]
pub enum HandshakeOutcome {
    /// Both exchanges went as expected.
    Success,
    /// The announcement was answered as expected, the acknowledgement with a
    /// well-formed message of another command.
    PartialSuccess,
    /// The handshake failed.
    Failure(FailureReason),
}

/// The mathematical value of a [`HandshakeOutcome`].
pub enum OutcomeView {
    Success,
    PartialSuccess,
    Failure(FailureView),
}

impl View for HandshakeOutcome {
    type V = OutcomeView;

    open spec fn view(&self) -> OutcomeView {
        match self {
            HandshakeOutcome::Success => OutcomeView::Success,
            HandshakeOutcome::PartialSuccess => OutcomeView::PartialSuccess,
            HandshakeOutcome::Failure(reason) => OutcomeView::Failure(reason@),
        }
    }
}

/// The nonce that a sent payload carries, if it carries one.
pub open spec fn nonce_of(payload: PayloadView) -> Option<u64> {
    match payload {
        PayloadView::Empty => None,
        PayloadView::Version(version) => Some(version.nonce),
    }
}

/// How the exchange went in which a message of the command `expected` was
/// sent, carrying the nonce `nonce` if any, and the bytes `data` came back.
///
/// An answer that cannot be read fails the exchange, but for one whose
/// command is unknown: that exchange is partial.  An answer that announces
/// the very nonce that was sent fails it too.  Any other answer completes the
/// exchange if it has the expected command, and else leaves it partial.
pub open spec fn exchange_outcome(expected: Command, nonce: Option<u64>, data: Seq<u8>) -> Result<
    ExchangeResult,
    FailureView,
> {
    match MessageView::parsed(data) {
        Err(ErrorView::CommandNameUnknown(_)) => Ok(ExchangeResult::Partial),
        Err(e) => Err(FailureView::Message(e)),
        Ok(received) => {
            if nonce is Some && nonce_of(received.payload) == nonce {
                Err(FailureView::SelfConnection)
            } else if received.command != expected {
                Ok(ExchangeResult::Partial)
            } else {
                Ok(ExchangeResult::Complete)
            }
        },
    }
}

/// The mathematical value of the result of an exchange.
pub open spec fn exchange_view(r: Result<ExchangeResult, FailureReason>) -> Result<
    ExchangeResult,
    FailureView,
> {
    match r {
        Ok(result) => Ok(result),
        Err(reason) => Err(reason@),
    }
}

/// Decides how an exchange went: a message of the command `expected` was
/// sent, carrying the nonce `nonce` if any, and the bytes `data` came back.
pub fn classify_response(expected: Command, nonce: Option<u64>, data: &[u8]) -> (r: Result<
    ExchangeResult,
    FailureReason,
>)
    ensures
        exchange_view(r) == exchange_outcome(expected, nonce, data@),
{
    let received = match Message::from_bytes(data) {
        Ok(message) => message,
        Err(BitcoinMessageError::CommandNameUnknown(_)) => return Ok(ExchangeResult::Partial),
        Err(e) => return Err(FailureReason::Message(e)),
    };
    if let Some(sent) = nonce {
        if let Payload::Version(version) = received.payload() {
            if *version.nonce() == sent {
                return Err(FailureReason::SelfConnection);
            }
        }
    }
    if *received.command() != expected {
        return Ok(ExchangeResult::Partial);
    }
    Ok(ExchangeResult::Complete)
}

/// Decides how an exchange went in which `sent` was sent and the bytes
/// `data` came back: the command of `sent` is expected, and its nonce, if
/// it carries one, must not come back.
pub fn expect_response(sent: &Message, data: &[u8]) -> (r: Result<ExchangeResult, FailureReason>)
    ensures
        exchange_view(r) == exchange_outcome(sent@.command, nonce_of(sent@.payload), data@),
{
    let nonce = match sent.payload() {
        Payload::Empty => None,
        Payload::Version(version) => Some(*version.nonce()),
    };
    classify_response(*sent.command(), nonce, data)
}

/// Where a handshake stands.
#[derive(Debug, Clone, PartialEq, Eq)]
pub enum HandshakeState {
    /// Nothing was sent yet.
    Start,
    /// The announcement went out with the nonce `nonce`; the peer's answer
    /// is awaited.
    AnnouncementSent { nonce: u64 },
    /// The peer answered the announcement with its own.
    AnnouncementAcked,
    /// The acknowledgement went out; the peer's answer is awaited.
    AcknowledgementSent,
    /// The handshake is over.
    Done(HandshakeOutcome),
}

/// The mathematical value of a [`HandshakeState`].
pub enum StateView {
    Start,
    AnnouncementSent { nonce: u64 },
    AnnouncementAcked,
    AcknowledgementSent,
    Done(OutcomeView),
}

impl View for HandshakeState {
    type V = StateView;

    open spec fn view(&self) -> StateView {
        match self {
            HandshakeState::Start => StateView::Start,
            HandshakeState::AnnouncementSent { nonce } => StateView::AnnouncementSent {
                nonce: *nonce,
            },
            HandshakeState::AnnouncementAcked => StateView::AnnouncementAcked,
            HandshakeState::AcknowledgementSent => StateView::AcknowledgementSent,
            HandshakeState::Done(outcome) => StateView::Done(outcome@),
        }
    }
}

/// What happened on the connection.
#[derive(Debug, Clone, PartialEq, Eq)]
pub enum HandshakeEvent {
    /// The connection stands, at the time `timestamp` in Unix seconds,
    /// between the address `local` on this side and `remote` on the peer's.
    Connected { timestamp: i64, local: SocketAddress, remote: SocketAddress },
    /// The bytes that were to be sent went out, and these bytes were there
    /// to be read afterwards.
    Received(Vec<u8>),
    /// The bytes that were to be consumed are consumed.
    Consumed,
    /// Opening the connection, writing to it or reading from it failed.
    TransportFailed,
    /// The time allowed for the handshake ran out.
    TimedOut,
}

/// The mathematical value of a [`HandshakeEvent`].
pub enum EventView {
    Connected { timestamp: i64, local: SocketAddress, remote: SocketAddress },
    Received(Seq<u8>),
    Consumed,
    TransportFailed,
    TimedOut,
}

impl View for HandshakeEvent {
    type V = EventView;

    open spec fn view(&self) -> EventView {
        match self {
            HandshakeEvent::Connected { timestamp, local, remote } => EventView::Connected {
                timestamp: *timestamp,
                local: *local,
                remote: *remote,
            },
            HandshakeEvent::Received(data) => EventView::Received(data@),
            HandshakeEvent::Consumed => EventView::Consumed,
            HandshakeEvent::TransportFailed => EventView::TransportFailed,
            HandshakeEvent::TimedOut => EventView::TimedOut,
        }
    }
}

/// What to do on the connection next.
#[derive(Debug, Clone, PartialEq, Eq)]
pub enum HandshakeAction {
    /// Write these bytes, then read what is there to be read, without
    /// consuming it, and report it as `Received`.
    Send(Vec<u8>),
    /// Consume this many of the bytes that were last read, and report
    /// `Consumed`.
    Consume(usize),
    /// Consume this many of the bytes that were last read, and stop: the
    /// handshake is over.
    Close(usize),
}

/// The mathematical value of a [`HandshakeAction`].
pub enum ActionView {
    Send(Seq<u8>),
    Consume(nat),
    Close(nat),
}

impl View for HandshakeAction {
    type V = ActionView;

    open spec fn view(&self) -> ActionView {
        match self {
            HandshakeAction::Send(bytes) => ActionView::Send(bytes@),
            HandshakeAction::Consume(n) => ActionView::Consume(*n as nat),
            HandshakeAction::Close(n) => ActionView::Close(*n as nat),
        }
    }
}

/// The announcement that opens a handshake: a `version` message of a full
/// node with no user agent and no blocks, that does not ask for relay.  The
/// receiving node is the peer, at the remote address; the transmitting node
/// is this one, at the local address.
pub open spec fn announcement(
    start_string: Seq<u8>,
    timestamp: i64,
    local: SocketAddress,
    remote: SocketAddress,
    nonce: u64,
) -> MessageView {
    MessageView {
        start_string,
        command: Command::Version,
        payload: PayloadView::Version(
            VersionData::built(
                ServiceIdentifier { bits: 0x01 },
                timestamp,
                ServiceIdentifier { bits: 0x01 },
                remote,
                ServiceIdentifier { bits: 0x01 },
                local,
                nonce,
                Seq::empty(),
                0,
                false,
            ),
        ),
    }
}

/// The acknowledgement: a `verack` message, which has no payload.
pub open spec fn acknowledgement(start_string: Seq<u8>) -> MessageView {
    MessageView { start_string, command: Command::VerAck, payload: PayloadView::Empty }
}

/// The failure that ends a handshake with nothing to consume.
pub open spec fn failed(reason: FailureView) -> (StateView, ActionView) {
    (StateView::Done(OutcomeView::Failure(reason)), ActionView::Close(0))
}

/// The state that follows `state` when `event` happens, and what to do then.
/// `nonce` is the nonce that an announcement gets, should one be sent.
///
/// A handshake that is over stays as it is.  A failure of the transport and
/// a timeout end it at once.  Else:
/// - at the start, the connection being there, the announcement is sent;
/// - the announcement sent, the answer is classified: a complete exchange
///   leads on, a partial one is a failure, for there is nothing to
///   acknowledge;
/// - the answer consumed, the acknowledgement is sent;
/// - the acknowledgement sent, the answer is classified, and the handshake
///   ends accordingly: in success, in partial success or in failure.
/// After an answer, the bytes of the message at the start of that answer
/// are consumed, however the answer was classified.  An event that cannot
/// happen in the state is a failure.
pub open spec fn next(start_string: Seq<u8>, state: StateView, event: EventView, nonce: u64) -> (
    StateView,
    ActionView,
) {
    match (state, event) {
        (StateView::Done(outcome), _) => (state, ActionView::Close(0)),
        (_, EventView::TransportFailed) => failed(FailureView::Transport),
        (_, EventView::TimedOut) => failed(FailureView::Timeout),
        (StateView::Start, EventView::Connected { timestamp, local, remote }) => (
            StateView::AnnouncementSent { nonce },
            ActionView::Send(announcement(start_string, timestamp, local, remote, nonce).wire()),
        ),
        (StateView::AnnouncementSent { nonce: sent }, EventView::Received(data)) => {
            match exchange_outcome(Command::Version, Some(sent), data) {
                Ok(ExchangeResult::Complete) => (
                    StateView::AnnouncementAcked,
                    ActionView::Consume(frame_len(data)),
                ),
                Ok(ExchangeResult::Partial) => (
                    StateView::Done(OutcomeView::Failure(FailureView::AnnouncementNotAnswered)),
                    ActionView::Close(frame_len(data)),
                ),
                Err(reason) => (
                    StateView::Done(OutcomeView::Failure(reason)),
                    ActionView::Close(frame_len(data)),
                ),
            }
        },
        (StateView::AnnouncementAcked, EventView::Consumed) => (
            StateView::AcknowledgementSent,
            ActionView::Send(acknowledgement(start_string).wire()),
        ),
        (StateView::AcknowledgementSent, EventView::Received(data)) => {
            match exchange_outcome(Command::VerAck, None, data) {
                Ok(ExchangeResult::Complete) => (
                    StateView::Done(OutcomeView::Success),
                    ActionView::Close(frame_len(data)),
                ),
                Ok(ExchangeResult::Partial) => (
                    StateView::Done(OutcomeView::PartialSuccess),
                    ActionView::Close(frame_len(data)),
                ),
                Err(reason) => (
                    StateView::Done(OutcomeView::Failure(reason)),
                    ActionView::Close(frame_len(data)),
                ),
            }
        },
        _ => failed(FailureView::OutOfOrder),
    }
}

/// One handshake on one connection.
#[derive(Debug, Clone)]
pub struct Handshake {
    /// The start string of the network that the handshake is made on.
    start_string: [u8; 4],
    /// Where the handshake stands.
    state: HandshakeState,
}

/// The mathematical value of a [`Handshake`].
pub struct HandshakeView {
    pub start_string: Seq<u8>,
    pub state: StateView,
}

impl View for Handshake {
    type V = HandshakeView;

    closed spec fn view(&self) -> HandshakeView {
        HandshakeView { start_string: self.start_string@, state: self.state@ }
    }
}

impl Handshake {
    /// A handshake at its start, on the network with the start string
    /// `start_string`.
    pub fn new(start_string: [u8; 4]) -> (handshake: Handshake)
        ensures
            handshake@ == (HandshakeView { start_string: start_string@, state: StateView::Start }),
    {
        Handshake { start_string, state: HandshakeState::Start }
    }

    /// Where the handshake stands.
    pub fn state(&self) -> (state: &HandshakeState)
        ensures
            state@ == self@.state,
    {
        &self.state
    }

    /// How the handshake ended, once it is over.
    pub fn outcome(&self) -> (outcome: Option<&HandshakeOutcome>)
        ensures
            match self@.state {
                StateView::Done(ended) => outcome matches Some(o) && o@ == ended,
                _ => outcome is None,
            },
    {
        match &self.state {
            HandshakeState::Done(outcome) => Some(outcome),
            _ => None,
        }
    }

    /// The bytes of the announcement, see [`announcement`].
    fn announce(&self, timestamp: i64, local: SocketAddress, remote: SocketAddress, nonce: u64) -> (r:
        Result<Vec<u8>, BitcoinMessageError>)
        ensures
            r matches Ok(bytes) && bytes@ == announcement(
                self@.start_string,
                timestamp,
                local,
                remote,
                nonce,
            ).wire(),
    {
        let version = match VersionData::with_nonce(
            ServiceIdentifier::node_network(),
            timestamp,
            ServiceIdentifier::node_network(),
            remote,
            ServiceIdentifier::node_network(),
            local,
            nonce,
            String::new(),
            0,
            false,
        ) {
            Ok(version) => version,
            Err(e) => return Err(e),
        };
        Message::new(self.start_string, Command::Version, Payload::Version(version)).to_bytes()
    }

    /// The bytes of the acknowledgement, see [`acknowledgement`].
    fn acknowledge(&self) -> (r: Result<Vec<u8>, BitcoinMessageError>)
        ensures
            r matches Ok(bytes) && bytes@ == acknowledgement(self@.start_string).wire(),
    {
        Message::new(self.start_string, Command::VerAck, Payload::Empty).to_bytes()
    }

    /// Takes the handshake from its state to the next one, given what
    /// happened, and says what to do then.  `nonce` is the nonce that the
    /// announcement gets, should this step send it.
    pub fn step_with_nonce(&mut self, event: HandshakeEvent, nonce: u64) -> (action: HandshakeAction)
        ensures
            final(self)@.start_string == old(self)@.start_string,
            (final(self)@.state, action@) == next(
                old(self)@.start_string,
                old(self)@.state,
                event@,
                nonce,
            ),
    {
        let (state, action) = match (&self.state, event) {
            (HandshakeState::Done(_), _) => return HandshakeAction::Close(0),
            (_, HandshakeEvent::TransportFailed) => (
                HandshakeState::Done(HandshakeOutcome::Failure(FailureReason::Transport)),
                HandshakeAction::Close(0),
            ),
            (_, HandshakeEvent::TimedOut) => (
                HandshakeState::Done(HandshakeOutcome::Failure(FailureReason::Timeout)),
                HandshakeAction::Close(0),
            ),
            (HandshakeState::Start, HandshakeEvent::Connected { timestamp, local, remote }) => {
                match self.announce(timestamp, local, remote, nonce) {
                    Ok(bytes) => (
                        HandshakeState::AnnouncementSent { nonce },
                        HandshakeAction::Send(bytes),
                    ),
                    Err(e) => (
                        HandshakeState::Done(HandshakeOutcome::Failure(FailureReason::Message(e))),
                        HandshakeAction::Close(0),
                    ),
                }
            },
            (HandshakeState::AnnouncementSent { nonce: sent }, HandshakeEvent::Received(data)) => {
                let consume = Message::frame_len(data.as_slice());
                match classify_response(Command::Version, Some(*sent), data.as_slice()) {
                    Ok(ExchangeResult::Complete) => (
                        HandshakeState::AnnouncementAcked,
                        HandshakeAction::Consume(consume),
                    ),
                    Ok(ExchangeResult::Partial) => (
                        HandshakeState::Done(
                            HandshakeOutcome::Failure(FailureReason::AnnouncementNotAnswered),
                        ),
                        HandshakeAction::Close(consume),
                    ),
                    Err(reason) => (
                        HandshakeState::Done(HandshakeOutcome::Failure(reason)),
                        HandshakeAction::Close(consume),
                    ),
                }
            },
            (HandshakeState::AnnouncementAcked, HandshakeEvent::Consumed) => {
                match self.acknowledge() {
                    Ok(bytes) => (HandshakeState::AcknowledgementSent, HandshakeAction::Send(bytes)),
                    Err(e) => (
                        HandshakeState::Done(HandshakeOutcome::Failure(FailureReason::Message(e))),
                        HandshakeAction::Close(0),
                    ),
                }
            },
            (HandshakeState::AcknowledgementSent, HandshakeEvent::Received(data)) => {
                let consume = Message::frame_len(data.as_slice());
                match classify_response(Command::VerAck, None, data.as_slice()) {
                    Ok(ExchangeResult::Complete) => (
                        HandshakeState::Done(HandshakeOutcome::Success),
                        HandshakeAction::Close(consume),
                    ),
                    Ok(ExchangeResult::Partial) => (
                        HandshakeState::Done(HandshakeOutcome::PartialSuccess),
                        HandshakeAction::Close(consume),
                    ),
                    Err(reason) => (
                        HandshakeState::Done(HandshakeOutcome::Failure(reason)),
                        HandshakeAction::Close(consume),
                    ),
                }
            },
            _ => (
                HandshakeState::Done(HandshakeOutcome::Failure(FailureReason::OutOfOrder)),
                HandshakeAction::Close(0),
            ),
        };
        self.state = state;
        action
    }

    /// Takes the handshake from its state to the next one, given what
    /// happened, and says what to do then.  Should this step send the
    /// announcement, the announcement gets a fresh random nonce.
    pub fn step(&mut self, event: HandshakeEvent) -> (action: HandshakeAction)
        ensures
            final(self)@.start_string == old(self)@.start_string,
            exists|nonce: u64|
                (final(self)@.state, action@) == #[trigger] next(
                    old(self)@.start_string,
                    old(self)@.state,
                    event@,
                    nonce,
                ),
    {
        self.step_with_nonce(event, random_nonce())
    }
}

/// How many handshakes ended in each of the three ways.
#[derive(Debug, Clone, Copy, PartialEq, Eq, Structural)]
pub struct HandshakeSummary {
    /// How many succeeded.
    pub success: usize,
    /// How many succeeded in part.
    pub partial: usize,
    /// How many failed.
    pub failure: usize,
}

/// How many of `outcomes` are successes.
pub open spec fn successes(outcomes: Seq<HandshakeOutcome>) -> nat {
    outcomes.filter(|o: HandshakeOutcome| o is Success).len()
}

/// How many of `outcomes` are partial successes.
pub open spec fn partial_successes(outcomes: Seq<HandshakeOutcome>) -> nat {
    outcomes.filter(|o: HandshakeOutcome| o is PartialSuccess).len()
}

/// How many of `outcomes` are failures.
pub open spec fn failures(outcomes: Seq<HandshakeOutcome>) -> nat {
    outcomes.filter(|o: HandshakeOutcome| o is Failure).len()
}

/// Counts the outcomes of each kind.  Every outcome is counted once.
pub fn summarize(outcomes: &[HandshakeOutcome]) -> (summary: HandshakeSummary)
    ensures
        summary.success == successes(outcomes@),
        summary.partial == partial_successes(outcomes@),
        summary.failure == failures(outcomes@),
        summary.success + summary.partial + summary.failure == outcomes@.len(),
{
    let mut summary = HandshakeSummary { success: 0, partial: 0, failure: 0 };
    let mut i: usize = 0;
    assert(outcomes@.take(0) =~= Seq::empty());
    while i < outcomes.len()
        invariant
            i <= outcomes@.len(),
            summary.success == successes(outcomes@.take(i as int)),
            summary.partial == partial_successes(outcomes@.take(i as int)),
            summary.failure == failures(outcomes@.take(i as int)),
            summary.success + summary.partial + summary.failure == i,
        decreases outcomes@.len() - i,
    {
        proof {
            let seen = outcomes@.take(i as int);
            let one = outcomes@[i as int];
            assert(outcomes@.take(i + 1) =~= seen.push(one));
            seen.lemma_filter_len_push(|o: HandshakeOutcome| o is Success, one);
            seen.lemma_filter_len_push(|o: HandshakeOutcome| o is PartialSuccess, one);
            seen.lemma_filter_len_push(|o: HandshakeOutcome| o is Failure, one);
        }
        match &outcomes[i] {
            HandshakeOutcome::Success => {
                summary.success += 1;
            },
            HandshakeOutcome::PartialSuccess => {
                summary.partial += 1;
            },
            HandshakeOutcome::Failure(_) => {
                summary.failure += 1;
            },
        }
        i += 1;
    }
    assert(outcomes@.take(i as int) =~= outcomes@);
    summary
}

} // verus!
