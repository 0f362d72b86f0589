//! What holds of every handshake, whatever the peer sends.

use crate::enums::Command;
use crate::handshake::{
    exchange_outcome, next, ActionView, EventView, ExchangeResult, FailureView, OutcomeView,
    StateView,
};
use crate::message::{frame_len, strip_nuls, MessageView, PayloadView, SocketAddress};
use crate::message_lemmas::{
    header_command, lemma_frame_len_of_written, lemma_message_round_trip,
};
use crate::wire::window;
use vstd::prelude::*;
use vstd::utf8::*;

verus! {

/// The state in which a handshake stands after the connection came to
/// stand, the peer answered the announcement with the bytes `first`, these
/// were consumed, and the peer answered the acknowledgement with the bytes
/// `second`.  Where the first answer ends the handshake, the second plays no
/// part.
pub open spec fn state_after_answers(
    start_string: Seq<u8>,
    timestamp: i64,
    local: SocketAddress,
    remote: SocketAddress,
    nonce: u64,
    first: Seq<u8>,
    second: Seq<u8>,
) -> StateView {
    let connected = next(
        start_string,
        StateView::Start,
        EventView::Connected { timestamp, local, remote },
        nonce,
    ).0;
    let answered = next(start_string, connected, EventView::Received(first), nonce).0;
    let consumed = next(start_string, answered, EventView::Consumed, nonce).0;
    next(start_string, consumed, EventView::Received(second), nonce).0
}

/// The bytes `data` start with a header whose name is in order and names no
/// command of this crate.
pub open spec fn names_unknown_command(data: Seq<u8>) -> bool {
    &&& data.len() >= 16
    &&& valid_utf8(strip_nuls(window(data, 4, 12)))
    &&& header_command(data) is None
}

/// A handshake that is over stays over, with the same outcome, and asks for
/// nothing more.
pub proof fn lemma_done_is_final(
    start_string: Seq<u8>,
    outcome: OutcomeView,
    event: EventView,
    nonce: u64,
)
    ensures
        next(start_string, StateView::Done(outcome), event, nonce) == (
            StateView::Done(outcome),
            ActionView::Close(0),
        ),
{
}

/// A failure of the transport, or a timeout, ends a handshake that is not
/// over in failure, wherever it stands.
pub proof fn lemma_transport_failure_ends_the_handshake(
    start_string: Seq<u8>,
    state: StateView,
    nonce: u64,
)
    requires
        !(state is Done),
    ensures
        next(start_string, state, EventView::TransportFailed, nonce).0 == StateView::Done(
            OutcomeView::Failure(FailureView::Transport),
        ),
        next(start_string, state, EventView::TimedOut, nonce).0 == StateView::Done(
            OutcomeView::Failure(FailureView::Timeout),
        ),
{
}

/// After every answer, the bytes of the message at the start of that answer
/// are to be consumed, however the answer was classified.
pub proof fn lemma_answers_are_consumed(
    start_string: Seq<u8>,
    state: StateView,
    data: Seq<u8>,
    nonce: u64,
)
    requires
        state is AnnouncementSent || state is AcknowledgementSent,
    ensures
        ({
            let action = next(start_string, state, EventView::Received(data), nonce).1;
            action == ActionView::Consume(frame_len(data)) || action == ActionView::Close(
                frame_len(data),
            )
        }),
{
}

/// A handshake succeeds when the peer answers the announcement with a
/// well-formed announcement of its own, under another nonce, and the
/// acknowledgement with a well-formed acknowledgement, whatever bytes follow
/// either answer.  Of the first answer, the announcement alone is consumed.
pub proof fn lemma_answered_handshake_succeeds(
    start_string: Seq<u8>,
    timestamp: i64,
    local: SocketAddress,
    remote: SocketAddress,
    nonce: u64,
    peer_announcement: MessageView,
    after_announcement: Seq<u8>,
    peer_acknowledgement: MessageView,
    after_acknowledgement: Seq<u8>,
)
    requires
        peer_announcement.well_formed(),
        peer_announcement.payload matches PayloadView::Version(version)
            && version.user_agent_len() <= 255 && version.nonce != nonce,
        peer_acknowledgement.well_formed(),
        peer_acknowledgement.command == Command::VerAck,
    ensures
        state_after_answers(
            start_string,
            timestamp,
            local,
            remote,
            nonce,
            peer_announcement.wire() + after_announcement,
            peer_acknowledgement.wire() + after_acknowledgement,
        ) == StateView::Done(OutcomeView::Success),
        next(
            start_string,
            StateView::AnnouncementSent { nonce },
            EventView::Received(peer_announcement.wire() + after_announcement),
            nonce,
        ) == (
            StateView::AnnouncementAcked,
            ActionView::Consume(peer_announcement.wire().len()),
        ),
{
    lemma_message_round_trip(peer_announcement, after_announcement);
    lemma_frame_len_of_written(peer_announcement, after_announcement);
    lemma_message_round_trip(peer_acknowledgement, after_acknowledgement);
}

/// A handshake fails, as a connection of the node to itself, when the peer
/// answers the announcement with a well-formed announcement that carries the
/// nonce that was sent.
pub proof fn lemma_echoed_nonce_fails_the_handshake(
    start_string: Seq<u8>,
    timestamp: i64,
    local: SocketAddress,
    remote: SocketAddress,
    nonce: u64,
    peer_announcement: MessageView,
    after_announcement: Seq<u8>,
    second: Seq<u8>,
)
    requires
        peer_announcement.well_formed(),
        peer_announcement.payload matches PayloadView::Version(version)
            && version.user_agent_len() <= 255 && version.nonce == nonce,
    ensures
        state_after_answers(
            start_string,
            timestamp,
            local,
            remote,
            nonce,
            peer_announcement.wire() + after_announcement,
            second,
        ) == StateView::Done(OutcomeView::Failure(FailureView::SelfConnection)),
{
    lemma_message_round_trip(peer_announcement, after_announcement);
}

/// A handshake fails when the peer answers the announcement with a command
/// that this crate does not know, or with an acknowledgement: there is
/// nothing to acknowledge.
pub proof fn lemma_unanswered_announcement_fails_the_handshake(
    start_string: Seq<u8>,
    timestamp: i64,
    local: SocketAddress,
    remote: SocketAddress,
    nonce: u64,
    first: Seq<u8>,
    second: Seq<u8>,
)
    requires
        names_unknown_command(first) || exists|acknowledgement: MessageView, rest: Seq<u8>|
            #![trigger acknowledgement.wire() + rest]
            acknowledgement.well_formed() && acknowledgement.command == Command::VerAck && first
                == acknowledgement.wire() + rest,
    ensures
        state_after_answers(start_string, timestamp, local, remote, nonce, first, second)
            == StateView::Done(OutcomeView::Failure(FailureView::AnnouncementNotAnswered)),
{
    if !names_unknown_command(first) {
        let (acknowledgement, rest): (MessageView, Seq<u8>) = choose|
            acknowledgement: MessageView,
            rest: Seq<u8>,
        |
            #![trigger acknowledgement.wire() + rest]
            acknowledgement.well_formed() && acknowledgement.command == Command::VerAck && first
                == acknowledgement.wire() + rest;
        lemma_message_round_trip(acknowledgement, rest);
    }
}

/// A handshake succeeds in part when the peer answers the announcement as
/// it should, and the acknowledgement with a command that this crate does
/// not know.
pub proof fn lemma_unknown_command_after_acknowledgement_is_partial(
    start_string: Seq<u8>,
    timestamp: i64,
    local: SocketAddress,
    remote: SocketAddress,
    nonce: u64,
    peer_announcement: MessageView,
    after_announcement: Seq<u8>,
    second: Seq<u8>,
)
    requires
        peer_announcement.well_formed(),
        peer_announcement.payload matches PayloadView::Version(version)
            && version.user_agent_len() <= 255 && version.nonce != nonce,
        names_unknown_command(second),
    ensures
        state_after_answers(
            start_string,
            timestamp,
            local,
            remote,
            nonce,
            peer_announcement.wire() + after_announcement,
            second,
        ) == StateView::Done(OutcomeView::PartialSuccess),
{
    lemma_message_round_trip(peer_announcement, after_announcement);
}

/// An exchange is never partial because an answer could not be read: but
/// for an unknown command, every answer that is no message fails the
/// exchange with the reason why it is none.
pub proof fn lemma_unreadable_answer_fails_the_exchange(
    expected: Command,
    nonce: Option<u64>,
    data: Seq<u8>,
)
    requires
        MessageView::parsed(data) is Err,
        !(MessageView::parsed(data)->Err_0 is CommandNameUnknown),
    ensures
        exchange_outcome(expected, nonce, data) == Err::<ExchangeResult, FailureView>(
            FailureView::Message(MessageView::parsed(data)->Err_0),
        ),
{
}

} // verus!
