//! Messages, their payloads, and their bytes on the wire.
//!
//! A message is a header of 24 bytes and a payload: the network's start
//! string (4 bytes), the command name padded with NUL to 12 bytes, the
//! payload's length (4 bytes, least significant first), the payload's
//! checksum (4 bytes), then the payload.

use crate::enums::{Command, ServiceIdentifier};
use crate::errors::{result_view, BitcoinMessageError, ErrorView};
use crate::utils::{checksum, checksum_of, CHECKSUM_SIZE};
use crate::wire::{
    be_bytes, be_value, get_i32_le, get_i64_le, get_u128_be, get_u16_be, get_u32_le, get_u64_le,
    get_u8, le_bytes, le_value, put_bytes, put_i32_le, put_i64_le, put_u128_be, put_u16_be,
    lemma_le_bytes_len, lemma_le_bytes_of_low_part, put_u32_le, put_u64_le, same_bytes, signed,
    string_from_utf8, take, u128_from_be_bytes, unsigned, window,
};
use crate::PROTOCOL_VERSION;
use vstd::prelude::*;
use vstd::slice::slice_to_vec;
use vstd::utf8::*;

verus! {

/// Maximum length of `user_agent` in [`VersionData`], in bytes.
pub const MAX_USER_AGENT_LEN: usize = 256;

/// Maximum size of a payload, in bytes.
pub const MAX_SIZE: usize = 32 * 1024 * 1024;

/// The width of the command name in a header.
pub const COMMAND_NAME_SIZE: usize = 12;

/// The length of a header.
pub const HEADER_SIZE: usize = 24;

/// The start string of mainnet.
pub const START_STRING_MAINNET: [u8; 4] = [0xf9, 0xbe, 0xb4, 0xd9];

/// A data structure that can be written as Bitcoin wire data without any
/// outside input.
pub trait BitcoinSerialize {
    /// The bytes of the value on the wire.
    spec fn wire(&self) -> Seq<u8>;

    /// Performs the serialization.
    fn to_bytes(&self) -> (r: Result<Vec<u8>, BitcoinMessageError>)
        ensures
            r matches Ok(bytes) ==> bytes@ == self.wire(),
    ;
}

/// A data structure that can be read from Bitcoin wire data without any
/// outside input.
pub trait BitcoinDeserialize: Sized + View {
    /// What the bytes `data` hold, read from their start: the value, or the
    /// reason why there is none.
    spec fn parsed(data: Seq<u8>) -> Result<Self::V, ErrorView>;

    /// Constructs `Self` from binary data.
    fn from_bytes(data: &[u8]) -> (r: Result<Self, BitcoinMessageError>)
        ensures
            result_view(r) == Self::parsed(data@),
    ;
}

/// An address and a port.  The address is held as the protocol transmits it:
/// as the 128 bits of an IPv6 address, with an IPv4 address mapped into
/// `::ffff:a.b.c.d`.
#[derive(Debug, Clone, Copy, PartialEq, Eq, Structural)]
pub struct SocketAddress {
    /// The sixteen octets of the address, read as one number, first octet
    /// most significant.
    pub ip: u128,
    /// The port.
    pub port: u16,
}

/// The number that maps an IPv4 address into IPv6: `::ffff:0.0.0.0`.
pub const IPV4_MAPPED_PREFIX: u128 = 0xffff_0000_0000;

impl SocketAddress {
    /// The address with the sixteen octets `octets` and the port `port`.
    pub fn from_ipv6(octets: [u8; 16], port: u16) -> (address: SocketAddress)
        ensures
            address.ip == be_value(octets@),
            address.port == port,
    {
        SocketAddress { ip: u128_from_be_bytes(&octets), port }
    }

    /// The IPv4 address `a.b.c.d`, given as its four octets, mapped into
    /// IPv6 as `::ffff:a.b.c.d`, and the port `port`.
    pub fn from_ipv4(octets: [u8; 4], port: u16) -> (address: SocketAddress)
        ensures
            address.ip == IPV4_MAPPED_PREFIX + octets[0] * 0x100_0000 + octets[1] * 0x1_0000
                + octets[2] * 0x100 + octets[3],
            address.port == port,
    {
        let low: u32 = octets[0] as u32 * 0x100_0000 + octets[1] as u32 * 0x1_0000 + octets[2] as u32
            * 0x100 + octets[3] as u32;
        SocketAddress { ip: IPV4_MAPPED_PREFIX + low as u128, port }
    }

    /// The sixteen octets of the address as the wire carries them, then the
    /// two of the port, all most significant byte first.
    pub open spec fn wire(self) -> Seq<u8> {
        be_bytes(self.ip as nat, 16) + be_bytes(self.port as nat, 2)
    }
}

/// `version` message payload.
#[derive(Debug)]
pub struct VersionData {
    /// The highest protocol version understood by the transmitting node.
    version: i32,
    /// The services supported by the transmitting node.
    services: ServiceIdentifier,
    /// The current Unix epoch time according to the transmitting node's clock.
    timestamp: i64,
    /// The services supported by the receiving node as perceived by the
    /// transmitting node.
    addr_recv_services: ServiceIdentifier,
    /// The address of the receiving node as perceived by the transmitting
    /// node.
    addr_recv_socket_address: SocketAddress,
    /// The services supported by the transmitting node, once more.
    addr_trans_services: ServiceIdentifier,
    /// The address of the transmitting node.
    addr_trans_socket_address: SocketAddress,
    /// A random nonce which can help a node detect a connection to itself.
    nonce: u64,
    /// User agent as defined by BIP14.
    user_agent: String,
    /// The height of the transmitting node's best block chain.
    start_height: i32,
    /// Transaction relay flag.
    relay: bool,
}

/// The mathematical value of a [`VersionData`]: its fields, with the user
/// agent as a sequence of characters.
pub struct VersionDataView {
    pub version: i32,
    pub services: ServiceIdentifier,
    pub timestamp: i64,
    pub addr_recv_services: ServiceIdentifier,
    pub addr_recv_socket_address: SocketAddress,
    pub addr_trans_services: ServiceIdentifier,
    pub addr_trans_socket_address: SocketAddress,
    pub nonce: u64,
    pub user_agent: Seq<char>,
    pub start_height: i32,
    pub relay: bool,
}

impl VersionDataView {
    /// The length of the user agent in bytes, that is, in UTF-8.
    pub open spec fn user_agent_len(self) -> nat {
        encode_utf8(self.user_agent).len()
    }

    /// The user agent is no longer than a `version` message may carry.
    pub open spec fn well_formed(self) -> bool {
        self.user_agent_len() <= MAX_USER_AGENT_LEN
    }

    /// The bytes of the payload: the fields in their order, integers least
    /// significant byte first but for the addresses, the user agent behind
    /// one byte that holds its length modulo 256.
    pub open spec fn wire(self) -> Seq<u8> {
        le_bytes(unsigned(self.version as int, 4), 4)
            + le_bytes(self.services.bits as nat, 8)
            + le_bytes(unsigned(self.timestamp as int, 8), 8)
            + le_bytes(self.addr_recv_services.bits as nat, 8)
            + self.addr_recv_socket_address.wire()
            + le_bytes(self.addr_trans_services.bits as nat, 8)
            + self.addr_trans_socket_address.wire()
            + le_bytes(self.nonce as nat, 8)
            + seq![(self.user_agent_len() % 256) as u8]
            + encode_utf8(self.user_agent)
            + le_bytes(unsigned(self.start_height as int, 4), 4)
            + seq![if self.relay { 1u8 } else { 0u8 }]
    }

    /// A payload has 86 bytes and those of the user agent.
    pub proof fn lemma_wire_len(self)
        ensures
            self.wire().len() == 86 + self.user_agent_len(),
    {
        lemma_le_bytes_len(unsigned(self.version as int, 4), 4);
        lemma_le_bytes_len(self.services.bits as nat, 8);
        lemma_le_bytes_len(unsigned(self.timestamp as int, 8), 8);
        lemma_le_bytes_len(self.addr_recv_services.bits as nat, 8);
        lemma_le_bytes_len(self.addr_recv_socket_address.ip as nat, 16);
        lemma_le_bytes_len(self.addr_recv_socket_address.port as nat, 2);
        lemma_le_bytes_len(self.addr_trans_services.bits as nat, 8);
        lemma_le_bytes_len(self.addr_trans_socket_address.ip as nat, 16);
        lemma_le_bytes_len(self.addr_trans_socket_address.port as nat, 2);
        lemma_le_bytes_len(self.nonce as nat, 8);
        lemma_le_bytes_len(unsigned(self.start_height as int, 4), 4);
    }

    /// What the bytes `data` hold when read as a `version` payload.  The
    /// fixed fields take 80 bytes, the byte after them is the length of the
    /// user agent, and 5 more bytes follow the user agent; bytes after those
    /// are not looked at.  Input that ends before a field does is refused,
    /// and so is a user agent that is not UTF-8.  Every number fits the type
    /// of its field, for it is read from as many bytes as the type has.
    pub open spec fn parsed(data: Seq<u8>) -> Result<VersionDataView, ErrorView> {
        if data.len() < 81 {
            Err(ErrorView::SerializationError)
        } else {
            let n = data[80] as int;
            if data.len() < 81 + n {
                Err(ErrorView::SerializationError)
            } else if !valid_utf8(window(data, 81, n)) {
                Err(ErrorView::Utf8DeserializationError)
            } else if data.len() < 86 + n {
                Err(ErrorView::SerializationError)
            } else {
                Ok(
                    VersionDataView {
                        version: signed(le_value(window(data, 0, 4)), 4) as i32,
                        services: ServiceIdentifier { bits: le_value(window(data, 4, 8)) as u64 },
                        timestamp: signed(le_value(window(data, 12, 8)), 8) as i64,
                        addr_recv_services: ServiceIdentifier {
                            bits: le_value(window(data, 20, 8)) as u64,
                        },
                        addr_recv_socket_address: SocketAddress {
                            ip: be_value(window(data, 28, 16)) as u128,
                            port: be_value(window(data, 44, 2)) as u16,
                        },
                        addr_trans_services: ServiceIdentifier {
                            bits: le_value(window(data, 46, 8)) as u64,
                        },
                        addr_trans_socket_address: SocketAddress {
                            ip: be_value(window(data, 54, 16)) as u128,
                            port: be_value(window(data, 70, 2)) as u16,
                        },
                        nonce: le_value(window(data, 72, 8)) as u64,
                        user_agent: decode_utf8(window(data, 81, n)),
                        start_height: signed(le_value(window(data, 81 + n, 4)), 4) as i32,
                        relay: data[85 + n] != 0,
                    },
                )
            }
        }
    }
}

impl View for VersionData {
    type V = VersionDataView;

    closed spec fn view(&self) -> VersionDataView {
        VersionDataView {
            version: self.version,
            services: self.services,
            timestamp: self.timestamp,
            addr_recv_services: self.addr_recv_services,
            addr_recv_socket_address: self.addr_recv_socket_address,
            addr_trans_services: self.addr_trans_services,
            addr_trans_socket_address: self.addr_trans_socket_address,
            nonce: self.nonce,
            user_agent: self.user_agent@,
            start_height: self.start_height,
            relay: self.relay,
        }
    }
}

impl Clone for VersionData {
    fn clone(&self) -> (copy: Self)
        ensures
            copy@ == self@,
    {
        proof {
            use_type_invariant(self);
        }
        VersionData {
            version: self.version,
            services: self.services,
            timestamp: self.timestamp,
            addr_recv_services: self.addr_recv_services,
            addr_recv_socket_address: self.addr_recv_socket_address,
            addr_trans_services: self.addr_trans_services,
            addr_trans_socket_address: self.addr_trans_socket_address,
            nonce: self.nonce,
            user_agent: self.user_agent.clone(),
            start_height: self.start_height,
            relay: self.relay,
        }
    }
}

/// `rand::random` at `u64`: a number of which nothing is known.
#[verifier::external_body]
pub(crate) fn random_nonce() -> u64 {
    rand::random()
}

impl VersionData {
    /// Every `VersionData` carries a user agent of at most
    /// [`MAX_USER_AGENT_LEN`] bytes.
    #[verifier::type_invariant]
    pub open spec fn user_agent_fits(&self) -> bool {
        self@.well_formed()
    }

    /// The value that [`VersionData::with_nonce`] builds from its arguments.
    pub open spec fn built(
        services: ServiceIdentifier,
        timestamp: i64,
        addr_recv_services: ServiceIdentifier,
        addr_recv_socket_address: SocketAddress,
        addr_trans_services: ServiceIdentifier,
        addr_trans_socket_address: SocketAddress,
        nonce: u64,
        user_agent: Seq<char>,
        start_height: i32,
        relay: bool,
    ) -> VersionDataView {
        VersionDataView {
            version: PROTOCOL_VERSION,
            services,
            timestamp,
            addr_recv_services,
            addr_recv_socket_address,
            addr_trans_services,
            addr_trans_socket_address,
            nonce,
            user_agent,
            start_height,
            relay,
        }
    }

    /// Creates a new [`VersionData`] with the nonce `nonce`.  The version is
    /// always [`PROTOCOL_VERSION`].  A user agent of more than
    /// [`MAX_USER_AGENT_LEN`] bytes is refused.
    pub fn with_nonce(
        services: ServiceIdentifier,
        timestamp: i64,
        addr_recv_services: ServiceIdentifier,
        addr_recv_socket_address: SocketAddress,
        addr_trans_services: ServiceIdentifier,
        addr_trans_socket_address: SocketAddress,
        nonce: u64,
        user_agent: String,
        start_height: i32,
        relay: bool,
    ) -> (r: Result<VersionData, BitcoinMessageError>)
        ensures
            result_view(r) == (if encode_utf8(user_agent@).len() <= MAX_USER_AGENT_LEN {
                Ok(
                    VersionData::built(
                        services,
                        timestamp,
                        addr_recv_services,
                        addr_recv_socket_address,
                        addr_trans_services,
                        addr_trans_socket_address,
                        nonce,
                        user_agent@,
                        start_height,
                        relay,
                    ),
                )
            } else {
                Err(ErrorView::UserAgentTooLong)
            }),
    {
        if user_agent.as_str().as_bytes().len() > MAX_USER_AGENT_LEN {
            return Err(BitcoinMessageError::UserAgentTooLong);
        }
        Ok(
            VersionData {
                version: PROTOCOL_VERSION,
                services,
                timestamp,
                addr_recv_services,
                addr_recv_socket_address,
                addr_trans_services,
                addr_trans_socket_address,
                nonce,
                user_agent,
                start_height,
                relay,
            },
        )
    }

    /// Creates a new [`VersionData`] with a fresh random nonce.  The version
    /// is always [`PROTOCOL_VERSION`].  A user agent of more than
    /// [`MAX_USER_AGENT_LEN`] bytes is refused.
    pub fn new(
        services: ServiceIdentifier,
        timestamp: i64,
        addr_recv_services: ServiceIdentifier,
        addr_recv_socket_address: SocketAddress,
        addr_trans_services: ServiceIdentifier,
        addr_trans_socket_address: SocketAddress,
        user_agent: String,
        start_height: i32,
        relay: bool,
    ) -> (r: Result<VersionData, BitcoinMessageError>)
        ensures
            r is Ok <==> encode_utf8(user_agent@).len() <= MAX_USER_AGENT_LEN,
            r matches Ok(data) ==> data@ == VersionData::built(
                services,
                timestamp,
                addr_recv_services,
                addr_recv_socket_address,
                addr_trans_services,
                addr_trans_socket_address,
                data@.nonce,
                user_agent@,
                start_height,
                relay,
            ),
            r matches Err(e) ==> e@ == ErrorView::UserAgentTooLong,
    {
        VersionData::with_nonce(
            services,
            timestamp,
            addr_recv_services,
            addr_recv_socket_address,
            addr_trans_services,
            addr_trans_socket_address,
            random_nonce(),
            user_agent,
            start_height,
            relay,
        )
    }

    /// The highest protocol version understood by the transmitting node.
    pub fn version(&self) -> (r: &i32)
        ensures
            *r == self@.version,
    {
        &self.version
    }

    /// The services supported by the transmitting node.
    pub fn services(&self) -> (r: &ServiceIdentifier)
        ensures
            *r == self@.services,
    {
        &self.services
    }

    /// The Unix epoch time according to the transmitting node's clock.
    pub fn timestamp(&self) -> (r: &i64)
        ensures
            *r == self@.timestamp,
    {
        &self.timestamp
    }

    /// The services of the receiving node as the transmitting node sees them.
    pub fn addr_recv_services(&self) -> (r: &ServiceIdentifier)
        ensures
            *r == self@.addr_recv_services,
    {
        &self.addr_recv_services
    }

    /// The address of the receiving node as the transmitting node sees it.
    pub fn addr_recv_socket_address(&self) -> (r: &SocketAddress)
        ensures
            *r == self@.addr_recv_socket_address,
    {
        &self.addr_recv_socket_address
    }

    /// The services supported by the transmitting node, once more.
    pub fn addr_trans_services(&self) -> (r: &ServiceIdentifier)
        ensures
            *r == self@.addr_trans_services,
    {
        &self.addr_trans_services
    }

    /// The address of the transmitting node.
    pub fn addr_trans_socket_address(&self) -> (r: &SocketAddress)
        ensures
            *r == self@.addr_trans_socket_address,
    {
        &self.addr_trans_socket_address
    }

    /// The nonce by which a node detects a connection to itself.
    pub fn nonce(&self) -> (r: &u64)
        ensures
            *r == self@.nonce,
    {
        &self.nonce
    }

    /// The user agent.
    pub fn user_agent(&self) -> (r: &String)
        ensures
            r@ == self@.user_agent,
    {
        &self.user_agent
    }

    /// The height of the transmitting node's best block chain.
    pub fn start_height(&self) -> (r: &i32)
        ensures
            *r == self@.start_height,
    {
        &self.start_height
    }

    /// Transaction relay flag.
    pub fn relay(&self) -> (r: &bool)
        ensures
            *r == self@.relay,
    {
        &self.relay
    }
}

impl BitcoinSerialize for VersionData {
    open spec fn wire(&self) -> Seq<u8> {
        self@.wire()
    }

    /// Writes the payload.  This never fails.
    fn to_bytes(&self) -> (r: Result<Vec<u8>, BitcoinMessageError>)
        ensures
            r is Ok,
    {
        proof {
            use_type_invariant(self);
        }
        let agent = self.user_agent.as_str().as_bytes();
        let mut buf: Vec<u8> = Vec::with_capacity(86 + agent.len());
        put_i32_le(&mut buf, self.version);
        assert(buf@ =~= le_bytes(unsigned(self.version as int, 4), 4));
        put_u64_le(&mut buf, self.services.bits());
        put_i64_le(&mut buf, self.timestamp);
        put_u64_le(&mut buf, self.addr_recv_services.bits());
        let ghost before_recv = buf@;
        put_u128_be(&mut buf, self.addr_recv_socket_address.ip);
        put_u16_be(&mut buf, self.addr_recv_socket_address.port);
        assert(buf@ =~= before_recv + self.addr_recv_socket_address.wire());
        put_u64_le(&mut buf, self.addr_trans_services.bits());
        let ghost before_trans = buf@;
        put_u128_be(&mut buf, self.addr_trans_socket_address.ip);
        put_u16_be(&mut buf, self.addr_trans_socket_address.port);
        assert(buf@ =~= before_trans + self.addr_trans_socket_address.wire());
        put_u64_le(&mut buf, self.nonce);
        let ghost before_len = buf@;
        buf.push((agent.len() % 256) as u8);
        assert(buf@ =~= before_len + seq![(self@.user_agent_len() % 256) as u8]);
        put_bytes(&mut buf, agent);
        put_i32_le(&mut buf, self.start_height);
        let ghost before_relay = buf@;
        buf.push(if self.relay { 1 } else { 0 });
        assert(buf@ =~= before_relay + seq![if self.relay { 1u8 } else { 0u8 }]);
        Ok(buf)
    }
}

impl BitcoinDeserialize for VersionData {
    open spec fn parsed(data: Seq<u8>) -> Result<VersionDataView, ErrorView> {
        VersionDataView::parsed(data)
    }

    /// Reads a payload from the start of `data`.
    fn from_bytes(data: &[u8]) -> (r: Result<Self, BitcoinMessageError>) {
        let mut pos: usize = 0;
        let version = match get_i32_le(data, &mut pos) {
            Some(n) => n,
            None => return Err(BitcoinMessageError::SerializationError),
        };
        let services = match get_u64_le(data, &mut pos) {
            Some(n) => ServiceIdentifier::from_bits_retain(n),
            None => return Err(BitcoinMessageError::SerializationError),
        };
        let timestamp = match get_i64_le(data, &mut pos) {
            Some(n) => n,
            None => return Err(BitcoinMessageError::SerializationError),
        };
        let addr_recv_services = match get_u64_le(data, &mut pos) {
            Some(n) => ServiceIdentifier::from_bits_retain(n),
            None => return Err(BitcoinMessageError::SerializationError),
        };
        let recv_ip = match get_u128_be(data, &mut pos) {
            Some(n) => n,
            None => return Err(BitcoinMessageError::SerializationError),
        };
        let recv_port = match get_u16_be(data, &mut pos) {
            Some(n) => n,
            None => return Err(BitcoinMessageError::SerializationError),
        };
        let addr_trans_services = match get_u64_le(data, &mut pos) {
            Some(n) => ServiceIdentifier::from_bits_retain(n),
            None => return Err(BitcoinMessageError::SerializationError),
        };
        let trans_ip = match get_u128_be(data, &mut pos) {
            Some(n) => n,
            None => return Err(BitcoinMessageError::SerializationError),
        };
        let trans_port = match get_u16_be(data, &mut pos) {
            Some(n) => n,
            None => return Err(BitcoinMessageError::SerializationError),
        };
        let nonce = match get_u64_le(data, &mut pos) {
            Some(n) => n,
            None => return Err(BitcoinMessageError::SerializationError),
        };
        let user_agent_len = match get_u8(data, &mut pos) {
            Some(n) => n,
            None => return Err(BitcoinMessageError::SerializationError),
        };
        let user_agent_bytes = match take(data, &mut pos, user_agent_len as usize) {
            Some(bytes) => bytes,
            None => return Err(BitcoinMessageError::SerializationError),
        };
        let user_agent = match string_from_utf8(slice_to_vec(user_agent_bytes)) {
            Some(text) => text,
            None => return Err(BitcoinMessageError::Utf8DeserializationError),
        };
        let start_height = match get_i32_le(data, &mut pos) {
            Some(n) => n,
            None => return Err(BitcoinMessageError::SerializationError),
        };
        let relay = match get_u8(data, &mut pos) {
            Some(n) => n != 0x00,
            None => return Err(BitcoinMessageError::SerializationError),
        };
        proof {
            decode_utf8_encode_utf8(user_agent_bytes@);
        }
        Ok(
            VersionData {
                version,
                services,
                timestamp,
                addr_recv_services,
                addr_recv_socket_address: SocketAddress { ip: recv_ip, port: recv_port },
                addr_trans_services,
                addr_trans_socket_address: SocketAddress { ip: trans_ip, port: trans_port },
                nonce,
                user_agent,
                start_height,
                relay,
            },
        )
    }
}

/// Bitcoin's message payload.
#[derive(Debug, Clone)]
pub enum Payload {
    /// An empty payload.
    Empty,
    /// Payload of the `version` command.
    Version(VersionData),
}

/// The mathematical value of a [`Payload`].
pub enum PayloadView {
    Empty,
    Version(VersionDataView),
}

impl PayloadView {
    /// The bytes of the payload.
    pub open spec fn wire(self) -> Seq<u8> {
        match self {
            PayloadView::Empty => Seq::empty(),
            PayloadView::Version(data) => data.wire(),
        }
    }

    /// What the bytes `data` hold when read as the payload of `command`:
    /// `version` carries a [`VersionData`], `verack` carries nothing and
    /// looks at no byte.
    pub open spec fn parsed(data: Seq<u8>, command: Command) -> Result<PayloadView, ErrorView> {
        match command {
            Command::Version => match VersionDataView::parsed(data) {
                Ok(version) => Ok(PayloadView::Version(version)),
                Err(e) => Err(e),
            },
            Command::VerAck => Ok(PayloadView::Empty),
        }
    }
}

impl View for Payload {
    type V = PayloadView;

    open spec fn view(&self) -> PayloadView {
        match self {
            Payload::Empty => PayloadView::Empty,
            Payload::Version(data) => PayloadView::Version(data@),
        }
    }
}

impl Payload {
    /// Deserializes the [`Payload`] of `command` from the start of `data`.
    pub fn from_bytes(data: &[u8], command: &Command) -> (r: Result<Payload, BitcoinMessageError>)
        ensures
            result_view(r) == PayloadView::parsed(data@, *command),
    {
        match command {
            Command::Version => match VersionData::from_bytes(data) {
                Ok(version) => Ok(Payload::Version(version)),
                Err(e) => Err(e),
            },
            Command::VerAck => Ok(Payload::Empty),
        }
    }
}

impl BitcoinSerialize for Payload {
    open spec fn wire(&self) -> Seq<u8> {
        self@.wire()
    }

    /// Writes the payload.  This never fails: no payload of this crate comes
    /// near [`MAX_SIZE`].
    fn to_bytes(&self) -> (r: Result<Vec<u8>, BitcoinMessageError>)
        ensures
            r is Ok,
            r matches Ok(bytes) ==> bytes@.len() <= MAX_SIZE,
    {
        let data = match self {
            Payload::Empty => Ok(Vec::new()),
            Payload::Version(data) => {
                proof {
                    use_type_invariant(data);
                    data@.lemma_wire_len();
                }
                data.to_bytes()
            },
        };
        if let Ok(ref d) = data {
            if d.len() > MAX_SIZE {
                return Err(BitcoinMessageError::PayloadTooBig);
            }
        }
        data
    }
}

/// `name`, filled with NUL up to the width of the name in a header.
pub open spec fn padded_name(name: Seq<u8>) -> Seq<u8> {
    name + Seq::new((COMMAND_NAME_SIZE - name.len()) as nat, |i: int| 0u8)
}

/// `bytes` without the NUL bytes at its end.
pub open spec fn strip_nuls(bytes: Seq<u8>) -> Seq<u8>
    decreases bytes.len(),
{
    if bytes.len() > 0 && bytes.last() == 0 {
        strip_nuls(bytes.drop_last())
    } else {
        bytes
    }
}

/// The name field of a header for the command name `name`: the padded name,
/// or the reason why `name` cannot stand in a header.
pub open spec fn name_field(name: Seq<u8>) -> Result<Seq<u8>, ErrorView> {
    if name.len() > COMMAND_NAME_SIZE {
        Err(ErrorView::CommandNameTooLong)
    } else if exists|i: int| 0 <= i < name.len() && #[trigger] name[i] >= 0x80 {
        Err(ErrorView::CommandNameNonAscii)
    } else {
        Ok(padded_name(name))
    }
}

/// The name field of a header for the command name `name`.  A name of more
/// than twelve bytes is refused as too long, a shorter one that holds a byte
/// outside ASCII as not ASCII.
pub fn pad_command_name(name: &[u8]) -> (r: Result<Vec<u8>, BitcoinMessageError>)
    ensures
        result_view(r) == name_field(name@),
{
    if name.len() > COMMAND_NAME_SIZE {
        return Err(BitcoinMessageError::CommandNameTooLong);
    }
    let mut i: usize = 0;
    while i < name.len()
        invariant
            i <= name@.len() <= COMMAND_NAME_SIZE,
            forall|j: int| 0 <= j < i ==> #[trigger] name@[j] < 0x80,
        decreases name@.len() - i,
    {
        if name[i] >= 0x80 {
            assert(name@[i as int] >= 0x80);
            return Err(BitcoinMessageError::CommandNameNonAscii);
        }
        i += 1;
    }
    let mut field: Vec<u8> = Vec::with_capacity(COMMAND_NAME_SIZE);
    put_padded_name(&mut field, name);
    assert(field@ =~= padded_name(name@));
    Ok(field)
}

/// Appends to `buf` the name `name`, filled with NUL up to the width of the
/// name in a header.
fn put_padded_name(buf: &mut Vec<u8>, name: &[u8])
    requires
        name@.len() <= COMMAND_NAME_SIZE,
    ensures
        final(buf)@ == old(buf)@ + padded_name(name@),
{
    put_bytes(buf, name);
    let mut i: usize = name.len();
    assert(buf@ =~= old(buf)@ + (name@ + Seq::new(0, |j: int| 0u8)));
    while i < COMMAND_NAME_SIZE
        invariant
            name@.len() <= i <= COMMAND_NAME_SIZE,
            buf@ == old(buf)@ + (name@ + Seq::new((i - name@.len()) as nat, |j: int| 0u8)),
        decreases COMMAND_NAME_SIZE - i,
    {
        buf.push(0x00);
        i += 1;
        assert(buf@ =~= old(buf)@ + (name@ + Seq::new((i - name@.len()) as nat, |j: int| 0u8)));
    }
}

/// The bytes of a message of the command `command` on the network with the
/// start string `start_string`, whose payload is `payload` and whose header
/// is to carry `sum` as the checksum: start string, padded command name,
/// length of the payload in four bytes, `sum`, payload.  The four bytes hold
/// the length modulo 2^32.
pub fn frame(start_string: &[u8; 4], command: Command, payload: &[u8], sum: &[u8; 4]) -> (bytes:
    Vec<u8>)
    ensures
        bytes@ == start_string@ + padded_name(command.name_bytes()) + le_bytes(payload@.len(), 4)
            + sum@ + payload@,
{
    proof {
        command.lemma_name_bytes();
        lemma_le_bytes_of_low_part(payload@.len());
    }
    let declared = (payload.len() as u64 % 0x1_0000_0000) as u32;
    let mut bytes: Vec<u8> = Vec::new();
    put_bytes(&mut bytes, start_string.as_slice());
    assert(bytes@ =~= start_string@);
    put_padded_name(&mut bytes, command.to_bytes().as_slice());
    put_u32_le(&mut bytes, declared);
    put_bytes(&mut bytes, sum.as_slice());
    put_bytes(&mut bytes, payload);
    bytes
}

/// The payload of `command` that the bytes `payload` hold, once the checksum
/// `declared` that came in the header is held against the checksum
/// `computed` of those bytes: where the two differ, the payload is refused
/// for that and not read.
pub fn checked_payload(command: &Command, declared: &[u8], computed: &[u8; 4], payload: &[u8]) -> (r:
    Result<Payload, BitcoinMessageError>)
    ensures
        result_view(r) == (if declared@ != computed@ {
            Err(ErrorView::ChecksumMismatch)
        } else {
            PayloadView::parsed(payload@, *command)
        }),
{
    if !same_bytes(declared, computed.as_slice()) {
        return Err(BitcoinMessageError::ChecksumMismatch);
    }
    Payload::from_bytes(payload, command)
}

/// How many bytes of `bytes` are left when the NUL bytes at its end are
/// taken off.
fn stripped_len(bytes: &[u8]) -> (end: usize)
    ensures
        end <= bytes@.len(),
        bytes@.subrange(0, end as int) == strip_nuls(bytes@),
{
    let mut end = bytes.len();
    assert(bytes@.subrange(0, end as int) =~= bytes@);
    while end > 0 && bytes[end - 1] == 0
        invariant
            end <= bytes@.len(),
            strip_nuls(bytes@) == strip_nuls(bytes@.subrange(0, end as int)),
        decreases end,
    {
        assert(bytes@.subrange(0, end as int).drop_last() =~= bytes@.subrange(0, end - 1));
        end -= 1;
    }
    end
}

/// Defines a Bitcoin protocol message.
#[derive(Debug, Clone)]
pub struct Message {
    /// Magic bytes indicating the originating network.
    start_string: [u8; 4],
    /// Identifies what message type is contained in the payload.
    command: Command,
    /// The payload of this message.
    payload: Payload,
}

/// The mathematical value of a [`Message`].
pub struct MessageView {
    pub start_string: Seq<u8>,
    pub command: Command,
    pub payload: PayloadView,
}

impl MessageView {
    /// The start string has four bytes, the payload is the one that the
    /// command carries, and a `version` payload is well formed.
    pub open spec fn well_formed(self) -> bool {
        &&& self.start_string.len() == 4
        &&& match self.payload {
            PayloadView::Empty => self.command == Command::VerAck,
            PayloadView::Version(data) => self.command == Command::Version && data.well_formed(),
        }
    }

    /// The bytes of the message: start string, padded command name, length
    /// of the payload, checksum of the payload, payload.
    pub open spec fn wire(self) -> Seq<u8> {
        let payload = self.payload.wire();
        self.start_string + padded_name(self.command.name_bytes()) + le_bytes(payload.len(), 4)
            + checksum_of(payload) + payload
    }

    /// What the bytes `data` hold when read as a message from their start.
    ///
    /// The first 16 bytes are the start string and the name.  The name, with
    /// the NUL bytes at its end taken off, has to be UTF-8 and has to name a
    /// command: a name that names none ends the reading there, and is
    /// reported.  Then come the length, which may not exceed [`MAX_SIZE`],
    /// the checksum and as many bytes of payload as the length says; the
    /// checksum is held against them before the payload is read.  Bytes
    /// after the payload are not looked at.
    pub open spec fn parsed(data: Seq<u8>) -> Result<MessageView, ErrorView> {
        if data.len() < 16 {
            Err(ErrorView::SerializationError)
        } else {
            let name = strip_nuls(window(data, 4, 12));
            if !valid_utf8(name) {
                Err(ErrorView::Utf8DeserializationError)
            } else {
                match Command::named(decode_utf8(name)) {
                    None => Err(ErrorView::CommandNameUnknown(decode_utf8(name))),
                    Some(command) => {
                        let len = le_value(window(data, 16, 4)) as int;
                        if data.len() < 20 {
                            Err(ErrorView::SerializationError)
                        } else if len > MAX_SIZE {
                            Err(ErrorView::PayloadTooBig)
                        } else if data.len() < 24 + len {
                            Err(ErrorView::SerializationError)
                        } else if window(data, 20, 4) != checksum_of(window(data, 24, len)) {
                            Err(ErrorView::ChecksumMismatch)
                        } else {
                            match PayloadView::parsed(window(data, 24, len), command) {
                                Ok(payload) => Ok(
                                    MessageView { start_string: window(data, 0, 4), command, payload },
                                ),
                                Err(e) => Err(e),
                            }
                        }
                    },
                }
            }
        }
    }
}

/// How many of the bytes `data` the message at their start takes: its
/// header and the payload that the header declares, and no more than there
/// are; all of them when they do not hold a whole header.
pub open spec fn frame_len(data: Seq<u8>) -> nat {
    if data.len() < HEADER_SIZE {
        data.len()
    } else if HEADER_SIZE + le_value(window(data, 16, 4)) <= data.len() {
        HEADER_SIZE as nat + le_value(window(data, 16, 4))
    } else {
        data.len()
    }
}

impl View for Message {
    type V = MessageView;

    closed spec fn view(&self) -> MessageView {
        MessageView {
            start_string: self.start_string@,
            command: self.command,
            payload: self.payload@,
        }
    }
}

impl Message {
    /// Creates a new [`Message`].
    pub fn new(start_string: [u8; 4], command: Command, payload: Payload) -> (message: Message)
        ensures
            message@ == (MessageView { start_string: start_string@, command, payload: payload@ }),
    {
        Message { start_string, command, payload }
    }

    /// Magic bytes indicating the originating network.
    pub fn start_string(&self) -> (r: &[u8; 4])
        ensures
            r@ == self@.start_string,
    {
        &self.start_string
    }

    /// Identifies what message type is contained in the payload.
    pub fn command(&self) -> (r: &Command)
        ensures
            *r == self@.command,
    {
        &self.command
    }

    /// The payload of this message.
    pub fn payload(&self) -> (r: &Payload)
        ensures
            r@ == self@.payload,
    {
        &self.payload
    }

    /// How many of the bytes `data` the message at their start takes: what
    /// a reader has to consume to stand at the next message.
    pub fn frame_len(data: &[u8]) -> (len: usize)
        ensures
            len == frame_len(data@),
    {
        let mut pos: usize = 16;
        match get_u32_le(data, &mut pos) {
            Some(declared) => {
                if data.len() < HEADER_SIZE || declared as usize > data.len() - HEADER_SIZE {
                    data.len()
                } else {
                    HEADER_SIZE + declared as usize
                }
            },
            None => data.len(),
        }
    }
}

impl BitcoinSerialize for Message {
    open spec fn wire(&self) -> Seq<u8> {
        self@.wire()
    }

    /// Writes the message.  This never fails: the names of the commands fit
    /// the header, and no payload of this crate comes near [`MAX_SIZE`].
    fn to_bytes(&self) -> (r: Result<Vec<u8>, BitcoinMessageError>)
        ensures
            r is Ok,
    {
        let payload = match self.payload.to_bytes() {
            Ok(bytes) => bytes,
            Err(e) => return Err(e),
        };
        let payload_checksum = checksum(payload.as_slice());
        Ok(frame(&self.start_string, self.command, payload.as_slice(), &payload_checksum))
    }
}

impl BitcoinDeserialize for Message {
    open spec fn parsed(data: Seq<u8>) -> Result<MessageView, ErrorView> {
        MessageView::parsed(data)
    }

    /// Reads a message from the start of `data`.
    fn from_bytes(data: &[u8]) -> (r: Result<Self, BitcoinMessageError>) {
        let mut pos: usize = 0;
        let start = match take(data, &mut pos, 4) {
            Some(bytes) => bytes,
            None => return Err(BitcoinMessageError::SerializationError),
        };
        let start_string = [start[0], start[1], start[2], start[3]];
        assert(start_string@ =~= window(data@, 0, 4));
        let name_field = match take(data, &mut pos, COMMAND_NAME_SIZE) {
            Some(bytes) => bytes,
            None => return Err(BitcoinMessageError::SerializationError),
        };
        let name_len = stripped_len(name_field);
        let command_name = match string_from_utf8(slice_to_vec(&name_field[0..name_len])) {
            Some(text) => text,
            None => return Err(BitcoinMessageError::Utf8DeserializationError),
        };
        let command = match Command::try_from(command_name.as_str()) {
            Ok(command) => command,
            Err(e) => return Err(e),
        };
        let payload_len = match get_u32_le(data, &mut pos) {
            Some(n) => n as usize,
            None => return Err(BitcoinMessageError::SerializationError),
        };
        if payload_len > MAX_SIZE {
            return Err(BitcoinMessageError::PayloadTooBig);
        }
        let payload_checksum = match take(data, &mut pos, CHECKSUM_SIZE) {
            Some(bytes) => bytes,
            None => return Err(BitcoinMessageError::SerializationError),
        };
        let payload_bytes = match take(data, &mut pos, payload_len) {
            Some(bytes) => bytes,
            None => return Err(BitcoinMessageError::SerializationError),
        };
        let computed = checksum(payload_bytes);
        let payload = match checked_payload(&command, payload_checksum, &computed, payload_bytes) {
            Ok(payload) => payload,
            Err(e) => return Err(e),
        };
        Ok(Message { start_string, command, payload })
    }
}

} // verus!
