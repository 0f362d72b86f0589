//! Service flags and command names.
//!
//! The two are unlike on purpose.  The commands are a closed set: a name that
//! is not in it is reported.  The service flags are an open set of bits: bits
//! that this crate has no name for are kept as they are.

use crate::errors::BitcoinMessageError;
use vstd::prelude::*;
use vstd::utf8::*;

verus! {

/// Service identifier flags: a set of bits, of which the protocol names a
/// few.
#[derive(Debug, Clone, Copy, PartialEq, Eq, Structural)]
pub struct ServiceIdentifier {
    /// The bits of the set.
    pub bits: u64,
}

impl ServiceIdentifier {
    /// The set with no flag: a node that is not a full node.
    pub fn unnamed() -> (flags: ServiceIdentifier)
        ensures
            flags.bits == 0x00,
    {
        ServiceIdentifier { bits: 0x00 }
    }

    /// A full node that can be asked for full blocks.
    pub fn node_network() -> (flags: ServiceIdentifier)
        ensures
            flags.bits == 0x01,
    {
        ServiceIdentifier { bits: 0x01 }
    }

    /// A full node that answers the getutxo request.
    pub fn node_getutxo() -> (flags: ServiceIdentifier)
        ensures
            flags.bits == 0x02,
    {
        ServiceIdentifier { bits: 0x02 }
    }

    /// A full node that handles bloom-filtered connections.
    pub fn node_bloom() -> (flags: ServiceIdentifier)
        ensures
            flags.bits == 0x04,
    {
        ServiceIdentifier { bits: 0x04 }
    }

    /// A full node that serves witness data.
    pub fn node_witness() -> (flags: ServiceIdentifier)
        ensures
            flags.bits == 0x08,
    {
        ServiceIdentifier { bits: 0x08 }
    }

    /// A full node that supports Xtreme Thinblocks.
    pub fn node_xthin() -> (flags: ServiceIdentifier)
        ensures
            flags.bits == 0x10,
    {
        ServiceIdentifier { bits: 0x10 }
    }

    /// As `node_network`, but the node keeps only the last 288 blocks.
    pub fn node_network_limited() -> (flags: ServiceIdentifier)
        ensures
            flags.bits == 0x0400,
    {
        ServiceIdentifier { bits: 0x0400 }
    }

    /// The set with exactly the bits of `bits`, named or not.
    pub fn from_bits_retain(bits: u64) -> (flags: ServiceIdentifier)
        ensures
            flags.bits == bits,
    {
        ServiceIdentifier { bits }
    }

    /// The bits of the set.
    pub fn bits(&self) -> (raw: u64)
        ensures
            raw == self.bits,
    {
        self.bits
    }

    /// The set with no bit.
    pub fn empty() -> (flags: ServiceIdentifier)
        ensures
            flags.bits == 0,
    {
        ServiceIdentifier { bits: 0 }
    }

    /// Whether the set has no bit.
    pub fn is_empty(&self) -> (none: bool)
        ensures
            none == (self.bits == 0),
    {
        self.bits == 0
    }

    /// The bits that are in `self` or in `other`.
    pub fn union(self, other: ServiceIdentifier) -> (flags: ServiceIdentifier)
        ensures
            flags.bits == self.bits | other.bits,
    {
        ServiceIdentifier { bits: self.bits | other.bits }
    }

    /// The bits that are in `self` and in `other`.
    pub fn intersection(self, other: ServiceIdentifier) -> (flags: ServiceIdentifier)
        ensures
            flags.bits == self.bits & other.bits,
    {
        ServiceIdentifier { bits: self.bits & other.bits }
    }

    /// Whether every bit of `other` is in `self`.
    pub fn contains(&self, other: ServiceIdentifier) -> (all: bool)
        ensures
            all == (self.bits & other.bits == other.bits),
    {
        self.bits & other.bits == other.bits
    }
}

/// Enum corresponding to the `command_name` of a message header.
#[derive(Debug, Clone, Copy, PartialEq, Eq, Structural)]
pub enum Command {
    /// `version` command name.
    Version,
    /// `verack` command name.
    VerAck,
}

impl Command {
    /// The name of the command, as characters.
    pub open spec fn name(self) -> Seq<char> {
        match self {
            Command::Version => "version"@,
            Command::VerAck => "verack"@,
        }
    }

    /// The name of the command, as the ASCII bytes that go on the wire.
    pub open spec fn name_bytes(self) -> Seq<u8> {
        match self {
            Command::Version => seq![0x76u8, 0x65u8, 0x72u8, 0x73u8, 0x69u8, 0x6fu8, 0x6eu8],
            Command::VerAck => seq![0x76u8, 0x65u8, 0x72u8, 0x61u8, 0x63u8, 0x6bu8],
        }
    }

    /// The command that `name` names, if it names one.
    pub open spec fn named(name: Seq<char>) -> Option<Command> {
        if name == Command::Version.name() {
            Some(Command::Version)
        } else if name == Command::VerAck.name() {
            Some(Command::VerAck)
        } else {
            None
        }
    }

    /// The command whose name `bytes` spell, if they spell one.
    pub open spec fn named_by_bytes(bytes: Seq<u8>) -> Option<Command> {
        if bytes == Command::Version.name_bytes() {
            Some(Command::Version)
        } else if bytes == Command::VerAck.name_bytes() {
            Some(Command::VerAck)
        } else {
            None
        }
    }

    /// A name is ASCII, at most twelve bytes long and free of NUL, and its
    /// bytes are its UTF-8 encoding.
    pub proof fn lemma_name_bytes(self)
        ensures
            is_ascii_chars(self.name()),
            encode_utf8(self.name()) == self.name_bytes(),
            0 < self.name_bytes().len() <= 12,
            forall|i: int| 0 <= i < self.name_bytes().len() ==> 0 < #[trigger] self.name_bytes()[i] < 0x80,
    {
        reveal_strlit("version");
        reveal_strlit("verack");
        let chars = self.name();
        assert(is_ascii_chars(chars));
        is_ascii_chars_encode_utf8(chars);
        assert(encode_utf8(chars) =~= self.name_bytes());
    }

    /// Names and commands correspond one to one: a command is the one that
    /// its name names, and a name that names a command is that command's
    /// name.  The same holds of the names as bytes.
    pub proof fn lemma_names_are_distinct(self, name: Seq<char>, bytes: Seq<u8>)
        ensures
            Command::named(self.name()) == Some(self),
            Command::named(name) == Some(self) <==> name == self.name(),
            Command::named_by_bytes(self.name_bytes()) == Some(self),
            Command::named_by_bytes(bytes) == Some(self) <==> bytes == self.name_bytes(),
            Command::named_by_bytes(encode_utf8(name)) == Command::named(name),
    {
        reveal_strlit("version");
        reveal_strlit("verack");
        assert(Command::Version.name().len() != Command::VerAck.name().len());
        assert(Command::Version.name_bytes().len() != Command::VerAck.name_bytes().len());
        Command::Version.lemma_name_bytes();
        Command::VerAck.lemma_name_bytes();
        encode_utf8_decode_utf8(name);
        encode_utf8_decode_utf8(Command::Version.name());
        encode_utf8_decode_utf8(Command::VerAck.name());
    }

    /// Converts [`Command`] into its name as a byte vector.
    pub fn to_bytes(&self) -> (bytes: Vec<u8>)
        ensures
            bytes@ == self.name_bytes(),
    {
        proof {
            self.lemma_name_bytes();
        }
        self.to_string().as_str().as_bytes_vec()
    }

    /// The name of the command as a string.
    pub fn to_string(&self) -> (name: String)
        ensures
            name@ == self.name(),
    {
        match self {
            Command::Version => "version".to_owned(),
            Command::VerAck => "verack".to_owned(),
        }
    }
}

impl TryFrom<&str> for Command {
    type Error = BitcoinMessageError;

    /// The command that `value` names.  A string that is not the name of a
    /// command is handed back in `CommandNameUnknown`.
    fn try_from(value: &str) -> (r: Result<Self, Self::Error>)
        ensures
            match Command::named(value@) {
                Some(command) => r == Ok::<Command, BitcoinMessageError>(command),
                None => r matches Err(e) && e@ == crate::errors::ErrorView::CommandNameUnknown(
                    value@,
                ),
            },
    {
        proof {
            encode_utf8_decode_utf8(value@);
            encode_utf8_decode_utf8("version"@);
            encode_utf8_decode_utf8("verack"@);
        }
        if crate::wire::same_bytes(value.as_bytes(), "version".as_bytes()) {
            Ok(Command::Version)
        } else if crate::wire::same_bytes(value.as_bytes(), "verack".as_bytes()) {
            Ok(Command::VerAck)
        } else {
            Err(BitcoinMessageError::CommandNameUnknown(value.to_owned()))
        }
    }
}

/// What `try_from` returns is stated on `try_from` itself: an error carries a
/// `String`, and ghost code has no way to write one down.
impl vstd::std_specs::convert::TryFromSpecImpl<&str> for Command {
    open spec fn obeys_try_from_spec() -> bool {
        false
    }

    open spec fn try_from_spec(value: &str) -> Result<Self, Self::Error> {
        arbitrary()
    }
}

impl From<Command> for String {
    /// The name of the command.
    fn from(c: Command) -> (name: String)
        ensures
            name@ == c.name(),
    {
        c.to_string()
    }
}

/// What `from` returns is stated on `from` itself: ghost code has no way to
/// write a `String` down.
impl vstd::std_specs::convert::FromSpecImpl<Command> for String {
    open spec fn obeys_from_spec() -> bool {
        false
    }

    open spec fn from_spec(c: Command) -> String {
        arbitrary()
    }
}

impl From<Command> for Vec<u8> {
    /// The name of the command as bytes.
    fn from(c: Command) -> (bytes: Vec<u8>)
        ensures
            bytes@ == c.name_bytes(),
    {
        c.to_bytes()
    }
}

/// What `from` returns is stated on `from` itself: ghost code has no way to
/// write a `Vec` down.
impl vstd::std_specs::convert::FromSpecImpl<Command> for Vec<u8> {
    open spec fn obeys_from_spec() -> bool {
        false
    }

    open spec fn from_spec(c: Command) -> Vec<u8> {
        arbitrary()
    }
}

} // verus!
