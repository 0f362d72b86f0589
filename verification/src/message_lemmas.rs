//! What holds of the wire format: reading gives back what was written, and
//! a header that lies is refused.

use crate::enums::Command;
use crate::errors::ErrorView;
use crate::message::{
    frame_len, padded_name, strip_nuls, MessageView, PayloadView, SocketAddress, VersionDataView,
    IPV4_MAPPED_PREFIX, MAX_SIZE,
};
use crate::utils::checksum_of;
use crate::wire::{
    be_bytes, be_value, le_bytes, le_value, lemma_be_bytes_of_value, lemma_be_round_trip,
    lemma_le_bytes_len, lemma_le_bytes_step, lemma_le_value_of_bytes, lemma_radix_values,
    lemma_signed_of_unsigned, unsigned, window,
};
use vstd::prelude::*;
use vstd::utf8::*;

verus! {

/// Reading an address that was written gives the address.
proof fn lemma_address_round_trip(address: SocketAddress)
    ensures
        address.wire().len() == 18,
        be_value(window(address.wire(), 0, 16)) == address.ip,
        be_value(window(address.wire(), 16, 2)) == address.port,
{
    lemma_radix_values();
    lemma_be_round_trip(address.ip as nat, 16);
    lemma_be_round_trip(address.port as nat, 2);
    assert(window(address.wire(), 0, 16) =~= be_bytes(address.ip as nat, 16));
    assert(window(address.wire(), 16, 2) =~= be_bytes(address.port as nat, 2));
}

/// Reading a `version` payload that was written gives back the payload,
/// whatever bytes follow it, as long as one byte can hold the length of the
/// user agent.
pub proof fn lemma_version_round_trip(version: VersionDataView, rest: Seq<u8>)
    requires
        version.user_agent_len() <= 255,
    ensures
        VersionDataView::parsed(version.wire() + rest) == Ok::<VersionDataView, ErrorView>(version),
{
    lemma_radix_values();
    let agent = encode_utf8(version.user_agent);
    let n = agent.len() as int;
    let p0 = le_bytes(unsigned(version.version as int, 4), 4);
    let p1 = le_bytes(version.services.bits as nat, 8);
    let p2 = le_bytes(unsigned(version.timestamp as int, 8), 8);
    let p3 = le_bytes(version.addr_recv_services.bits as nat, 8);
    let p4 = version.addr_recv_socket_address.wire();
    let p5 = le_bytes(version.addr_trans_services.bits as nat, 8);
    let p6 = version.addr_trans_socket_address.wire();
    let p7 = le_bytes(version.nonce as nat, 8);
    let p8 = seq![(version.user_agent_len() % 256) as u8];
    let p9 = agent;
    let p10 = le_bytes(unsigned(version.start_height as int, 4), 4);
    let p11 = seq![if version.relay { 1u8 } else { 0u8 }];
    lemma_le_bytes_len(unsigned(version.version as int, 4), 4);
    lemma_le_bytes_len(version.services.bits as nat, 8);
    lemma_le_bytes_len(unsigned(version.timestamp as int, 8), 8);
    lemma_le_bytes_len(version.addr_recv_services.bits as nat, 8);
    lemma_address_round_trip(version.addr_recv_socket_address);
    lemma_le_bytes_len(version.addr_trans_services.bits as nat, 8);
    lemma_address_round_trip(version.addr_trans_socket_address);
    lemma_le_bytes_len(version.nonce as nat, 8);
    lemma_le_bytes_len(unsigned(version.start_height as int, 4), 4);
    let data = version.wire() + rest;
    assert(data.len() == 86 + n + rest.len());
    assert(window(data, 0, 4) =~= p0);
    assert(window(data, 4, 8) =~= p1);
    assert(window(data, 12, 8) =~= p2);
    assert(window(data, 20, 8) =~= p3);
    assert(window(data, 28, 16) =~= window(p4, 0, 16));
    assert(window(data, 44, 2) =~= window(p4, 16, 2));
    assert(window(data, 46, 8) =~= p5);
    assert(window(data, 54, 16) =~= window(p6, 0, 16));
    assert(window(data, 70, 2) =~= window(p6, 16, 2));
    assert(window(data, 72, 8) =~= p7);
    assert(data[80] == p8[0]);
    assert(window(data, 81, n) =~= p9);
    assert(window(data, 81 + n, 4) =~= p10);
    assert(data[85 + n] == p11[0]);
    lemma_signed_of_unsigned(version.version as int, 4);
    lemma_le_value_of_bytes(unsigned(version.version as int, 4), 4);
    lemma_le_value_of_bytes(version.services.bits as nat, 8);
    lemma_signed_of_unsigned(version.timestamp as int, 8);
    lemma_le_value_of_bytes(unsigned(version.timestamp as int, 8), 8);
    lemma_le_value_of_bytes(version.addr_recv_services.bits as nat, 8);
    lemma_le_value_of_bytes(version.addr_trans_services.bits as nat, 8);
    lemma_le_value_of_bytes(version.nonce as nat, 8);
    lemma_signed_of_unsigned(version.start_height as int, 4);
    lemma_le_value_of_bytes(unsigned(version.start_height as int, 4), 4);
    encode_utf8_valid_utf8(version.user_agent);
    encode_utf8_decode_utf8(version.user_agent);
}

/// Taking the NUL bytes off a padded name gives the name, when the name
/// does not itself end in NUL.
proof fn lemma_strip_padding(name: Seq<u8>, padding: nat)
    requires
        name.len() == 0 || name.last() != 0,
    ensures
        strip_nuls(name + Seq::new(padding, |i: int| 0u8)) == name,
    decreases padding,
{
    let padded = name + Seq::new(padding, |i: int| 0u8);
    if padding == 0 {
        assert(padded =~= name);
    } else {
        assert(padded.last() == 0);
        assert(padded.drop_last() =~= name + Seq::new((padding - 1) as nat, |i: int| 0u8));
        lemma_strip_padding(name, (padding - 1) as nat);
    }
}

/// Reading a message that was written gives back the message, whatever
/// bytes follow it: every field comes back, service flags that have no name
/// and addresses of either family among them.  The message has to be well
/// formed, and one byte has to be able to hold the length of its user agent.
pub proof fn lemma_message_round_trip(message: MessageView, rest: Seq<u8>)
    requires
        message.well_formed(),
        message.payload matches PayloadView::Version(version) ==> version.user_agent_len() <= 255,
    ensures
        MessageView::parsed(message.wire() + rest) == Ok::<MessageView, ErrorView>(message),
{
    let payload = message.payload.wire();
    let name = message.command.name_bytes();
    let data = message.wire() + rest;
    message.command.lemma_name_bytes();
    message.command.lemma_names_are_distinct(message.command.name(), name);
    lemma_strip_padding(name, (12 - name.len()) as nat);
    encode_utf8_valid_utf8(message.command.name());
    encode_utf8_decode_utf8(message.command.name());
    match message.payload {
        PayloadView::Empty => {},
        PayloadView::Version(version) => {
            version.lemma_wire_len();
            lemma_version_round_trip(version, Seq::empty());
            assert(version.wire() + Seq::<u8>::empty() =~= version.wire());
        },
    }
    lemma_radix_values();
    lemma_le_bytes_len(payload.len(), 4);
    lemma_le_value_of_bytes(payload.len(), 4);
    assert(window(data, 0, 4) =~= message.start_string);
    assert(window(data, 4, 12) =~= padded_name(name));
    assert(window(data, 16, 4) =~= le_bytes(payload.len(), 4));
    assert(window(data, 20, 4) =~= checksum_of(payload));
    assert(window(data, 24, payload.len() as int) =~= payload);
}

/// The command that the header at the start of `data` names, if `data`
/// holds the 16 bytes of start string and name and the name names one.
pub open spec fn header_command(data: Seq<u8>) -> Option<Command> {
    if data.len() >= 16 && valid_utf8(strip_nuls(window(data, 4, 12))) {
        Command::named(decode_utf8(strip_nuls(window(data, 4, 12))))
    } else {
        None
    }
}

/// The length of the payload that the header at the start of `data`
/// declares.
pub open spec fn header_payload_len(data: Seq<u8>) -> nat {
    le_value(window(data, 16, 4))
}

/// A message whose header carries another checksum than that of its payload
/// is refused for that, and its payload is not read: the answer is the same
/// whatever the payload holds.
pub proof fn lemma_checksum_mismatch_is_refused(data: Seq<u8>)
    requires
        header_command(data) is Some,
        header_payload_len(data) <= MAX_SIZE,
        data.len() >= 24 + header_payload_len(data),
        window(data, 20, 4) != checksum_of(window(data, 24, header_payload_len(data) as int)),
    ensures
        MessageView::parsed(data) == Err::<MessageView, ErrorView>(ErrorView::ChecksumMismatch),
{
}

/// A header that declares a payload of more than [`MAX_SIZE`] bytes is
/// refused for that as soon as its first 20 bytes are there: whether the
/// bytes that it declares follow, or any at all, plays no part.
pub proof fn lemma_oversized_payload_is_refused(data: Seq<u8>)
    requires
        header_command(data) is Some,
        data.len() >= 20,
        header_payload_len(data) > MAX_SIZE,
    ensures
        MessageView::parsed(data) == Err::<MessageView, ErrorView>(ErrorView::PayloadTooBig),
{
}

/// A header whose name names no command is reported with that name, and
/// nothing behind the name is read.
pub proof fn lemma_unknown_command_is_reported(data: Seq<u8>)
    requires
        data.len() >= 16,
        valid_utf8(strip_nuls(window(data, 4, 12))),
        header_command(data) is None,
    ensures
        MessageView::parsed(data) == Err::<MessageView, ErrorView>(
            ErrorView::CommandNameUnknown(decode_utf8(strip_nuls(window(data, 4, 12)))),
        ),
{
}

/// A message that was written takes exactly its own bytes of what it stands
/// at the start of: consuming that many leaves what follows it untouched.
pub proof fn lemma_frame_len_of_written(message: MessageView, rest: Seq<u8>)
    requires
        message.well_formed(),
    ensures
        message.wire().len() == 24 + message.payload.wire().len(),
        frame_len(message.wire() + rest) == message.wire().len(),
{
    let payload = message.payload.wire();
    let name = message.command.name_bytes();
    let data = message.wire() + rest;
    message.command.lemma_name_bytes();
    match message.payload {
        PayloadView::Empty => {},
        PayloadView::Version(version) => {
            version.lemma_wire_len();
        },
    }
    lemma_radix_values();
    lemma_le_bytes_len(payload.len(), 4);
    lemma_le_value_of_bytes(payload.len(), 4);
    assert(window(data, 16, 4) =~= le_bytes(payload.len(), 4));
}

/// Reading a message looks at no byte behind the message: where `data`
/// starts with a message, the message takes its header and the payload that
/// the header declares, and is read from those bytes alone.
pub proof fn lemma_message_is_read_from_its_frame(data: Seq<u8>)
    requires
        MessageView::parsed(data) is Ok,
    ensures
        frame_len(data) == 24 + header_payload_len(data),
        frame_len(data) <= data.len(),
        MessageView::parsed(data.subrange(0, frame_len(data) as int)) == MessageView::parsed(data),
{
    let len = header_payload_len(data) as int;
    let frame = data.subrange(0, 24 + len);
    assert(window(frame, 0, 4) =~= window(data, 0, 4));
    assert(window(frame, 4, 12) =~= window(data, 4, 12));
    assert(window(frame, 16, 4) =~= window(data, 16, 4));
    assert(window(frame, 20, 4) =~= window(data, 20, 4));
    assert(window(frame, 24, len) =~= window(data, 24, len));
}

/// On the wire an IPv6 address is its sixteen octets; the high byte of the
/// port and its low byte follow.
pub proof fn lemma_ipv6_on_the_wire(octets: Seq<u8>, port: u16)
    requires
        octets.len() == 16,
    ensures
        be_value(octets) <= u128::MAX,
        (SocketAddress { ip: be_value(octets) as u128, port }).wire() == octets + seq![
            (port / 256) as u8,
            (port % 256) as u8,
        ],
{
    lemma_radix_values();
    lemma_be_bytes_of_value(octets);
    lemma_port_on_the_wire(port);
}

/// On the wire a port is its high byte and its low byte.
proof fn lemma_port_on_the_wire(port: u16)
    ensures
        be_bytes(port as nat, 2) == seq![(port / 256) as u8, (port % 256) as u8],
{
    lemma_le_bytes_step(port as nat, 2, (port % 256) as u8, (port / 256) as nat);
    lemma_le_bytes_step((port / 256) as nat, 1, (port / 256) as u8, 0);
    assert(le_bytes(port as nat, 2) =~= seq![(port % 256) as u8, (port / 256) as u8]);
    assert(be_bytes(port as nat, 2) =~= seq![(port / 256) as u8, (port % 256) as u8]);
}

/// Zero in any number of bytes is that many bytes of zero.
proof fn lemma_le_bytes_of_zero(len: nat)
    ensures
        le_bytes(0, len).len() == len,
        forall|i: int| 0 <= i < len ==> #[trigger] le_bytes(0, len)[i] == 0,
    decreases len,
{
    if len > 0 {
        lemma_le_bytes_of_zero((len - 1) as nat);
        assert forall|i: int| 0 <= i < len implies #[trigger] le_bytes(0, len)[i] == 0 by {
            if i > 0 {
                assert(le_bytes(0, len)[i] == le_bytes(0, (len - 1) as nat)[i - 1]);
            }
        }
    }
}

/// On the wire an IPv4 address `a.b.c.d` is ten bytes of zero, two of
/// `0xff`, and `a`, `b`, `c`, `d`; the high byte of the port and its low
/// byte follow.
pub proof fn lemma_ipv4_on_the_wire(a: u8, b: u8, c: u8, d: u8, port: u16)
    ensures
        (SocketAddress {
            ip: (IPV4_MAPPED_PREFIX + a * 0x100_0000 + b * 0x1_0000 + c * 0x100 + d) as u128,
            port,
        }).wire() == seq![0u8, 0u8, 0u8, 0u8, 0u8, 0u8, 0u8, 0u8, 0u8, 0u8, 0xffu8, 0xffu8, a, b, c, d]
            + seq![(port / 256) as u8, (port % 256) as u8],
{
    let n0 = (0xffff_0000_0000 + a * 0x100_0000 + b * 0x1_0000 + c * 0x100 + d) as nat;
    let n1 = (0xff_ff00_0000 + a * 0x1_0000 + b * 0x100 + c) as nat;
    let n2 = (0xffff_0000 + a * 0x100 + b) as nat;
    let n3 = (0xff_ff00 + a) as nat;
    let low = le_bytes(n0, 16);
    lemma_le_bytes_step(n0, 16, d, n1);
    lemma_le_bytes_step(n1, 15, c, n2);
    lemma_le_bytes_step(n2, 14, b, n3);
    lemma_le_bytes_step(n3, 13, a, 0xffff);
    lemma_le_bytes_step(0xffff, 12, 0xff, 0xff);
    lemma_le_bytes_step(0xff, 11, 0xff, 0);
    lemma_le_bytes_of_zero(10);
    let zeros = le_bytes(0, 10);
    assert(low =~= seq![d, c, b, a, 0xffu8, 0xffu8] + zeros);
    assert forall|i: int| 6 <= i < 16 implies low[i] == 0 by {
        assert(low[i] == zeros[i - 6]);
    }
    assert(be_bytes(n0, 16) =~= seq![
        0u8,
        0u8,
        0u8,
        0u8,
        0u8,
        0u8,
        0u8,
        0u8,
        0u8,
        0u8,
        0xffu8,
        0xffu8,
        a,
        b,
        c,
        d,
    ]);
    lemma_port_on_the_wire(port);
}

} // verus!
