use bitcoin_handshake::enums::{Command, ServiceIdentifier};
use bitcoin_handshake::errors::BitcoinMessageError;
use bitcoin_handshake::message::{
    checked_payload, frame, pad_command_name, BitcoinDeserialize, BitcoinSerialize, Message,
    Payload, SocketAddress, VersionData, MAX_SIZE, MAX_USER_AGENT_LEN, START_STRING_MAINNET,
};
use bitcoin_handshake::utils::checksum;
use bitcoin_handshake::{PORT_MAINNET, PROTOCOL_VERSION};

fn hex(text: &str) -> Vec<u8> {
    (0..text.len() / 2).map(|i| u8::from_str_radix(&text[2 * i..2 * i + 2], 16).unwrap()).collect()
}

fn localhost(port: u16) -> SocketAddress {
    SocketAddress::from_ipv4([127, 0, 0, 1], port)
}

fn sample_version() -> VersionData {
    VersionData::with_nonce(
        ServiceIdentifier::from_bits_retain(0x0409),
        1_600_000_000,
        ServiceIdentifier::node_network(),
        localhost(PORT_MAINNET),
        ServiceIdentifier::from_bits_retain(0x8000_0000_0000_0001),
        SocketAddress::from_ipv6(
            [0x20, 0x01, 0x0d, 0xb8, 0, 0, 0, 0, 0, 0, 0, 0, 0, 0, 0, 1],
            18333,
        ),
        0x1122_3344_5566_7788,
        "/Satoshi:0.21.0/".to_string(),
        650_000,
        true,
    )
    .unwrap()
}

const SAMPLE_PAYLOAD: &str = "7f110100090400000000000000105e5f00000000010000000000000000000000000000000000ffff7f000001208d010000000000008020010db8000000000000000000000001479d8877665544332211102f5361746f7368693a302e32312e302f10eb090001";

const SAMPLE_MESSAGE: &str = "f9beb4d976657273696f6e000000000066000000448ed49c7f110100090400000000000000105e5f00000000010000000000000000000000000000000000ffff7f000001208d010000000000008020010db8000000000000000000000001479d8877665544332211102f5361746f7368693a302e32312e302f10eb090001";

fn framed(name: &[u8], payload: &[u8]) -> Vec<u8> {
    let mut bytes = START_STRING_MAINNET.to_vec();
    bytes.extend_from_slice(name);
    bytes.resize(16, 0);
    bytes.extend_from_slice(&(payload.len() as u32).to_le_bytes());
    bytes.extend_from_slice(&checksum(payload));
    bytes.extend_from_slice(payload);
    bytes
}

fn assert_same_version(a: &VersionData, b: &VersionData) {
    assert_eq!(a.version(), b.version());
    assert_eq!(a.services(), b.services());
    assert_eq!(a.timestamp(), b.timestamp());
    assert_eq!(a.addr_recv_services(), b.addr_recv_services());
    assert_eq!(a.addr_recv_socket_address(), b.addr_recv_socket_address());
    assert_eq!(a.addr_trans_services(), b.addr_trans_services());
    assert_eq!(a.addr_trans_socket_address(), b.addr_trans_socket_address());
    assert_eq!(a.nonce(), b.nonce());
    assert_eq!(a.user_agent(), b.user_agent());
    assert_eq!(a.start_height(), b.start_height());
    assert_eq!(a.relay(), b.relay());
}

fn assert_same_message(a: &Message, b: &Message) {
    assert_eq!(a.start_string(), b.start_string());
    assert_eq!(a.command(), b.command());
    match (a.payload(), b.payload()) {
        (Payload::Empty, Payload::Empty) => {}
        (Payload::Version(x), Payload::Version(y)) => assert_same_version(x, y),
        _ => panic!("payloads of different shapes"),
    }
}

#[test]
fn deserialization_checks_checksum() {
    // verack with invalid checksum:
    let data = hex("f9beb4d976657261636b000000000000000000005df6e0e1");

    let result = Message::from_bytes(&data);

    assert!(matches!(result, Err(BitcoinMessageError::ChecksumMismatch)));
}

#[test]
fn verack_deserialization() {
    // verack:
    let data = hex("f9beb4d976657261636b000000000000000000005df6e0e2");

    let result = Message::from_bytes(&data);

    assert!(matches!(result, Ok(_)));
}

#[test]
#[should_panic]
fn version_data_new_with_user_agent_longer_than_max_length_panics() {
    let user_agent = (0..MAX_USER_AGENT_LEN + 1).map(|_| 'a').collect::<String>();
    let _ = VersionData::new(
        ServiceIdentifier::node_network(),
        1_700_000_000,
        ServiceIdentifier::node_network(),
        localhost(8080),
        ServiceIdentifier::node_network(),
        localhost(8080),
        user_agent,
        0,
        false,
    )
    .unwrap();
}

#[test]
fn user_agent_longer_than_the_maximum_is_refused_at_construction() {
    let too_long = "a".repeat(MAX_USER_AGENT_LEN + 1);
    let result = VersionData::new(
        ServiceIdentifier::node_network(),
        0,
        ServiceIdentifier::node_network(),
        localhost(8080),
        ServiceIdentifier::node_network(),
        localhost(8080),
        too_long.clone(),
        0,
        false,
    );
    assert!(matches!(result, Err(BitcoinMessageError::UserAgentTooLong)));
    let result = VersionData::with_nonce(
        ServiceIdentifier::node_network(),
        0,
        ServiceIdentifier::node_network(),
        localhost(8080),
        ServiceIdentifier::node_network(),
        localhost(8080),
        7,
        too_long,
        0,
        false,
    );
    assert!(matches!(result, Err(BitcoinMessageError::UserAgentTooLong)));
    // The limit counts bytes, not characters.
    let wide = "é".repeat(129);
    assert_eq!(wide.len(), 258);
    let result = VersionData::with_nonce(
        ServiceIdentifier::node_network(),
        0,
        ServiceIdentifier::node_network(),
        localhost(8080),
        ServiceIdentifier::node_network(),
        localhost(8080),
        7,
        wide,
        0,
        false,
    );
    assert!(matches!(result, Err(BitcoinMessageError::UserAgentTooLong)));
}

#[test]
fn user_agent_of_the_maximum_length_is_accepted() {
    let longest = "b".repeat(MAX_USER_AGENT_LEN);
    let version = VersionData::with_nonce(
        ServiceIdentifier::node_network(),
        0,
        ServiceIdentifier::node_network(),
        localhost(8080),
        ServiceIdentifier::node_network(),
        localhost(8080),
        7,
        longest.clone(),
        0,
        false,
    )
    .unwrap();
    assert_eq!(version.user_agent(), &longest);
    let bytes = version.to_bytes().unwrap();
    assert_eq!(bytes.len(), 86 + 256);
    // One byte holds the length modulo 256.
    assert_eq!(bytes[80], 0);
    assert_eq!(&bytes[81..81 + 256], longest.as_bytes());
    // So this one length does not come back: the payload reads as one
    // without a user agent.
    let back = VersionData::from_bytes(&bytes).unwrap();
    assert_eq!(back.user_agent(), "");
    // One byte less, and it does.
    let agent = "b".repeat(MAX_USER_AGENT_LEN - 1);
    let version = VersionData::with_nonce(
        ServiceIdentifier::node_network(),
        0,
        ServiceIdentifier::node_network(),
        localhost(8080),
        ServiceIdentifier::node_network(),
        localhost(8080),
        7,
        agent,
        0,
        false,
    )
    .unwrap();
    let bytes = version.to_bytes().unwrap();
    assert_eq!(bytes[80], 255);
    assert_same_version(&VersionData::from_bytes(&bytes).unwrap(), &version);
}

#[test]
fn constructed_version_data_has_the_protocol_version() {
    assert_eq!(PROTOCOL_VERSION, 70015);
    assert_eq!(*sample_version().version(), PROTOCOL_VERSION);
    let made = VersionData::new(
        ServiceIdentifier::node_bloom(),
        -5,
        ServiceIdentifier::empty(),
        localhost(1),
        ServiceIdentifier::node_witness(),
        localhost(2),
        "agent".to_string(),
        9,
        true,
    )
    .unwrap();
    assert_eq!(*made.version(), PROTOCOL_VERSION);
    assert_eq!(*made.services(), ServiceIdentifier::node_bloom());
    assert_eq!(*made.timestamp(), -5);
    assert_eq!(*made.addr_recv_services(), ServiceIdentifier::empty());
    assert_eq!(*made.addr_recv_socket_address(), localhost(1));
    assert_eq!(*made.addr_trans_services(), ServiceIdentifier::node_witness());
    assert_eq!(*made.addr_trans_socket_address(), localhost(2));
    assert_eq!(made.user_agent(), "agent");
    assert_eq!(*made.start_height(), 9);
    assert!(*made.relay());
}

#[test]
fn version_data_with_nonce_keeps_its_arguments() {
    let version = sample_version();
    assert_eq!(*version.services(), ServiceIdentifier::from_bits_retain(0x0409));
    assert_eq!(*version.timestamp(), 1_600_000_000);
    assert_eq!(*version.nonce(), 0x1122_3344_5566_7788);
    assert_eq!(version.user_agent(), "/Satoshi:0.21.0/");
    assert_eq!(*version.start_height(), 650_000);
    assert!(*version.relay());
    let copy = version.clone();
    assert_same_version(&version, &copy);
}

#[test]
fn ipv4_addresses_are_mapped_into_ipv6() {
    let address = SocketAddress::from_ipv4([127, 0, 0, 1], 8333);
    assert_eq!(address.ip, 0x0000_0000_0000_0000_0000_ffff_7f00_0001);
    assert_eq!(address.port, 8333);
    let address = SocketAddress::from_ipv4([255, 254, 253, 252], 0);
    assert_eq!(address.ip, 0xffff_fffe_fdfc);
    let mapped = SocketAddress::from_ipv6(
        [0, 0, 0, 0, 0, 0, 0, 0, 0, 0, 0xff, 0xff, 10, 1, 2, 3],
        65535,
    );
    assert_eq!(mapped, SocketAddress::from_ipv4([10, 1, 2, 3], 65535));
    let v6 = SocketAddress::from_ipv6([0x20, 0x01, 0x0d, 0xb8, 0, 0, 0, 0, 0, 0, 0, 0, 0, 0, 0, 1], 1);
    assert_eq!(v6.ip, 0x2001_0db8_0000_0000_0000_0000_0000_0001);
}

#[test]
fn version_payload_encodes_to_known_bytes() {
    assert_eq!(sample_version().to_bytes().unwrap(), hex(SAMPLE_PAYLOAD));
    assert_eq!(Payload::Version(sample_version()).to_bytes().unwrap(), hex(SAMPLE_PAYLOAD));
    assert_eq!(Payload::Empty.to_bytes().unwrap(), Vec::<u8>::new());
}

#[test]
fn version_payload_with_negative_fields_encodes_to_known_bytes() {
    let version = VersionData::with_nonce(
        ServiceIdentifier::node_network(),
        -1,
        ServiceIdentifier::node_network(),
        localhost(8080),
        ServiceIdentifier::node_network(),
        localhost(8080),
        0,
        String::new(),
        -5,
        false,
    )
    .unwrap();
    let expected = hex("7f1101000100000000000000ffffffffffffffff010000000000000000000000000000000000ffff7f0000011f90010000000000000000000000000000000000ffff7f0000011f90000000000000000000fbffffff00");
    assert_eq!(version.to_bytes().unwrap(), expected);
    let back = VersionData::from_bytes(&expected).unwrap();
    assert_same_version(&back, &version);
}

#[test]
fn version_message_encodes_to_known_bytes() {
    let message =
        Message::new(START_STRING_MAINNET, Command::Version, Payload::Version(sample_version()));
    assert_eq!(message.to_bytes().unwrap(), hex(SAMPLE_MESSAGE));
}

#[test]
fn verack_message_encodes_to_known_bytes() {
    let message = Message::new(START_STRING_MAINNET, Command::VerAck, Payload::Empty);
    assert_eq!(
        message.to_bytes().unwrap(),
        hex("f9beb4d976657261636b000000000000000000005df6e0e2")
    );
    let testnet = Message::new([0x0b, 0x11, 0x09, 0x07], Command::VerAck, Payload::Empty);
    assert_eq!(
        testnet.to_bytes().unwrap(),
        hex("0b11090776657261636b000000000000000000005df6e0e2")
    );
}

#[test]
fn version_message_decodes_from_known_bytes() {
    let message = Message::from_bytes(&hex(SAMPLE_MESSAGE)).unwrap();
    assert_eq!(message.start_string(), &START_STRING_MAINNET);
    assert_eq!(*message.command(), Command::Version);
    match message.payload() {
        Payload::Version(version) => assert_same_version(version, &sample_version()),
        Payload::Empty => panic!("a version message carries a payload"),
    }
}

#[test]
fn version_from_the_wire_keeps_the_version_of_the_peer() {
    let mut payload = hex(SAMPLE_PAYLOAD);
    payload[0..4].copy_from_slice(&60002i32.to_le_bytes());
    let version = VersionData::from_bytes(&payload).unwrap();
    assert_eq!(*version.version(), 60002);
    payload[0..4].copy_from_slice(&(-1i32).to_le_bytes());
    let version = VersionData::from_bytes(&payload).unwrap();
    assert_eq!(*version.version(), -1);
}

#[test]
fn relay_is_set_by_any_byte_but_zero() {
    let mut payload = hex(SAMPLE_PAYLOAD);
    let last = payload.len() - 1;
    payload[last] = 0;
    assert!(!*VersionData::from_bytes(&payload).unwrap().relay());
    payload[last] = 1;
    assert!(*VersionData::from_bytes(&payload).unwrap().relay());
    payload[last] = 0xff;
    assert!(*VersionData::from_bytes(&payload).unwrap().relay());
}

#[test]
fn messages_round_trip() {
    let addresses = [
        localhost(8333),
        SocketAddress::from_ipv4([0, 0, 0, 0], 0),
        SocketAddress::from_ipv4([255, 255, 255, 255], 65535),
        SocketAddress::from_ipv6([0; 16], 1),
        SocketAddress::from_ipv6([0xff; 16], 2),
        SocketAddress::from_ipv6(
            [0xfe, 0x80, 0, 0, 0, 0, 0, 0, 1, 2, 3, 4, 5, 6, 7, 8],
            18444,
        ),
    ];
    let flags = [0u64, 1, 0x0409, 0x1f, u64::MAX, 0x8000_0000_0000_0000, 0xdead_beef_0000_0400];
    let agents = ["", "/Satoshi:0.21.0/", "héllo wörld ✓", &"x".repeat(255)];
    let mut count = 0u64;
    for (i, receiver) in addresses.iter().enumerate() {
        for (j, bits) in flags.iter().enumerate() {
            for agent in agents.iter() {
                let sender = addresses[(i + j) % addresses.len()];
                let version = VersionData::with_nonce(
                    ServiceIdentifier::from_bits_retain(*bits),
                    i64::MIN + count as i64 * 1_000_003,
                    ServiceIdentifier::from_bits_retain(!*bits),
                    *receiver,
                    ServiceIdentifier::from_bits_retain(bits.rotate_left(7)),
                    sender,
                    count.wrapping_mul(0x9e37_79b9_7f4a_7c15),
                    agent.to_string(),
                    i32::MAX - count as i32 * 77,
                    count % 2 == 0,
                )
                .unwrap();
                let start = [count as u8, 0xbe, 0xb4, (count >> 8) as u8];
                let message = Message::new(start, Command::Version, Payload::Version(version));
                let bytes = message.to_bytes().unwrap();
                assert_eq!(Message::frame_len(&bytes), bytes.len());
                let back = Message::from_bytes(&bytes).unwrap();
                assert_same_message(&back, &message);
                assert_eq!(back.to_bytes().unwrap(), bytes);
                count += 1;
            }
        }
    }
    let verack = Message::new([1, 2, 3, 4], Command::VerAck, Payload::Empty);
    let back = Message::from_bytes(&verack.to_bytes().unwrap()).unwrap();
    assert_same_message(&back, &verack);
}

#[test]
fn decoding_leaves_what_follows_the_message() {
    let first = hex(SAMPLE_MESSAGE);
    let second = hex("f9beb4d976657261636b000000000000000000005df6e0e2");
    let mut stream = first.clone();
    stream.extend_from_slice(&second);
    stream.extend_from_slice(&[1, 2, 3]);
    let message = Message::from_bytes(&stream).unwrap();
    assert_eq!(*message.command(), Command::Version);
    let used = Message::frame_len(&stream);
    assert_eq!(used, first.len());
    let message = Message::from_bytes(&stream[used..]).unwrap();
    assert_eq!(*message.command(), Command::VerAck);
    assert_eq!(Message::frame_len(&stream[used..]), second.len());
}

#[test]
fn frame_len_is_header_and_declared_payload_as_far_as_there() {
    assert_eq!(Message::frame_len(&[]), 0);
    assert_eq!(Message::frame_len(&[0; 23]), 23);
    assert_eq!(Message::frame_len(&[0; 24]), 24);
    assert_eq!(Message::frame_len(&[0; 30]), 24);
    let unknown = hex("f9beb4d9666f6f000000000000000000030000004f8b42c2616263");
    assert_eq!(Message::frame_len(&unknown), 27);
    let mut longer = unknown.clone();
    longer.extend_from_slice(&[9; 10]);
    assert_eq!(Message::frame_len(&longer), 27);
    assert_eq!(Message::frame_len(&unknown[..26]), 26);
    let mut huge = unknown.clone();
    huge[16..20].copy_from_slice(&[0xff; 4]);
    assert_eq!(Message::frame_len(&huge), huge.len());
}

#[test]
fn truncated_messages_are_refused() {
    let whole = hex(SAMPLE_MESSAGE);
    for len in 0..whole.len() {
        let result = Message::from_bytes(&whole[..len]);
        assert!(
            matches!(result, Err(BitcoinMessageError::SerializationError)),
            "{} bytes of {}",
            len,
            whole.len()
        );
    }
    let verack = hex("f9beb4d976657261636b000000000000000000005df6e0e2");
    for len in 0..verack.len() {
        assert_eq!(
            Message::from_bytes(&verack[..len]).err(),
            Some(BitcoinMessageError::SerializationError)
        );
    }
}

#[test]
fn truncated_version_payloads_are_refused() {
    let whole = hex(SAMPLE_PAYLOAD);
    for len in 0..whole.len() {
        assert_eq!(
            VersionData::from_bytes(&whole[..len]).err(),
            Some(BitcoinMessageError::SerializationError)
        );
        assert_eq!(
            Payload::from_bytes(&whole[..len], &Command::Version).err(),
            Some(BitcoinMessageError::SerializationError)
        );
    }
    // A payload that is whole in itself, under a header that declares less.
    let short = framed(b"version", &whole[..90]);
    assert_eq!(Message::from_bytes(&short).err(), Some(BitcoinMessageError::SerializationError));
}

#[test]
fn payload_bytes_after_the_fields_are_not_looked_at() {
    let mut payload = hex(SAMPLE_PAYLOAD);
    payload.extend_from_slice(&[0xde, 0xad]);
    let version = VersionData::from_bytes(&payload).unwrap();
    assert_same_version(&version, &sample_version());
    let message = Message::from_bytes(&framed(b"version", &payload)).unwrap();
    assert_eq!(*message.command(), Command::Version);
    let verack = Message::from_bytes(&framed(b"verack", &[1, 2, 3])).unwrap();
    assert!(matches!(verack.payload(), Payload::Empty));
    assert!(matches!(Payload::from_bytes(&[1, 2, 3], &Command::VerAck), Ok(Payload::Empty)));
}

#[test]
fn checksum_mismatch_is_refused_before_the_payload_is_read() {
    let mut bytes = hex(SAMPLE_MESSAGE);
    bytes[20] ^= 0x01;
    assert_eq!(Message::from_bytes(&bytes).err(), Some(BitcoinMessageError::ChecksumMismatch));
    let mut bytes = hex(SAMPLE_MESSAGE);
    let last = bytes.len() - 1;
    bytes[last] ^= 0x80;
    assert_eq!(Message::from_bytes(&bytes).err(), Some(BitcoinMessageError::ChecksumMismatch));
    // The payload is no version payload at all, and still the checksum is what is reported.
    let mut bytes = framed(b"version", &[1, 2, 3]);
    bytes[23] ^= 0xff;
    assert_eq!(Message::from_bytes(&bytes).err(), Some(BitcoinMessageError::ChecksumMismatch));
    // With the right checksum the payload is read, and found too short.
    let bytes = framed(b"version", &[1, 2, 3]);
    assert_eq!(Message::from_bytes(&bytes).err(), Some(BitcoinMessageError::SerializationError));
}

#[test]
fn oversized_payload_length_is_refused_before_the_payload_is_read() {
    // 32 MiB + 1 declared, nothing behind the length.
    let mut bytes = hex("f9beb4d976657261636b000000000000");
    bytes.extend_from_slice(&(MAX_SIZE as u32 + 1).to_le_bytes());
    assert_eq!(Message::from_bytes(&bytes).err(), Some(BitcoinMessageError::PayloadTooBig));
    bytes.extend_from_slice(&[0; 100]);
    assert_eq!(Message::from_bytes(&bytes).err(), Some(BitcoinMessageError::PayloadTooBig));
    let mut bytes = hex("f9beb4d976657273696f6e0000000000ffffffff");
    assert_eq!(Message::from_bytes(&bytes).err(), Some(BitcoinMessageError::PayloadTooBig));
    // Exactly 32 MiB is within the limit: the input is merely too short.
    bytes[16..20].copy_from_slice(&(MAX_SIZE as u32).to_le_bytes());
    assert_eq!(Message::from_bytes(&bytes).err(), Some(BitcoinMessageError::SerializationError));
    assert_eq!(MAX_SIZE, 32 * 1024 * 1024);
}

#[test]
fn unknown_command_is_reported_with_its_name() {
    let bytes = hex("f9beb4d9666f6f000000000000000000030000004f8b42c2616263");
    assert_eq!(
        Message::from_bytes(&bytes).err(),
        Some(BitcoinMessageError::CommandNameUnknown("foo".to_string()))
    );
    // The name alone decides: nothing behind it is read.
    assert_eq!(
        Message::from_bytes(&bytes[..16]).err(),
        Some(BitcoinMessageError::CommandNameUnknown("foo".to_string()))
    );
    let twelve = framed(b"sendheaders!", &[]);
    assert_eq!(
        Message::from_bytes(&twelve).err(),
        Some(BitcoinMessageError::CommandNameUnknown("sendheaders!".to_string()))
    );
    let empty = framed(b"", &[]);
    assert_eq!(
        Message::from_bytes(&empty).err(),
        Some(BitcoinMessageError::CommandNameUnknown(String::new()))
    );
}

#[test]
fn only_nul_bytes_at_the_end_of_a_name_are_taken_off() {
    let inner = framed(b"ver\0ack", &[]);
    assert_eq!(
        Message::from_bytes(&inner).err(),
        Some(BitcoinMessageError::CommandNameUnknown("ver\0ack".to_string()))
    );
    let leading = framed(b"\0verack", &[]);
    assert_eq!(
        Message::from_bytes(&leading).err(),
        Some(BitcoinMessageError::CommandNameUnknown("\0verack".to_string()))
    );
}

#[test]
fn names_that_are_not_utf8_are_refused() {
    let bytes = framed(&[0xff, 0xfe], &[]);
    assert_eq!(
        Message::from_bytes(&bytes).err(),
        Some(BitcoinMessageError::Utf8DeserializationError)
    );
    let bytes = framed(&[b'v', b'e', b'r', 0xc3], &[]);
    assert_eq!(
        Message::from_bytes(&bytes).err(),
        Some(BitcoinMessageError::Utf8DeserializationError)
    );
}

#[test]
fn user_agents_that_are_not_utf8_are_refused() {
    let mut payload = hex(SAMPLE_PAYLOAD);
    payload[82] = 0xff;
    assert_eq!(
        VersionData::from_bytes(&payload).err(),
        Some(BitcoinMessageError::Utf8DeserializationError)
    );
    assert_eq!(
        Message::from_bytes(&framed(b"version", &payload)).err(),
        Some(BitcoinMessageError::Utf8DeserializationError)
    );
    // The user agent is judged before the fields behind it are missed.
    assert_eq!(
        VersionData::from_bytes(&payload[..81 + 16]).err(),
        Some(BitcoinMessageError::Utf8DeserializationError)
    );
}

#[test]
fn command_names_are_padded_with_nul() {
    assert_eq!(pad_command_name(b"version").unwrap(), b"version\0\0\0\0\0");
    assert_eq!(pad_command_name(b"").unwrap(), [0u8; 12]);
    assert_eq!(pad_command_name(b"sendheaders!").unwrap(), b"sendheaders!");
    assert_eq!(pad_command_name(&[0x7f]).unwrap()[0], 0x7f);
}

#[test]
fn command_names_that_do_not_fit_a_header_are_refused() {
    assert_eq!(
        pad_command_name(b"thirteenchars"),
        Err(BitcoinMessageError::CommandNameTooLong)
    );
    assert_eq!(pad_command_name(&[b'a'; 100]), Err(BitcoinMessageError::CommandNameTooLong));
    assert_eq!(pad_command_name("vérack".as_bytes()), Err(BitcoinMessageError::CommandNameNonAscii));
    assert_eq!(pad_command_name(&[0x80]), Err(BitcoinMessageError::CommandNameNonAscii));
    assert_eq!(
        pad_command_name(&[b'a', b'b', b'c', b'd', b'e', b'f', b'g', b'h', b'i', b'j', b'k', 0xff]),
        Err(BitcoinMessageError::CommandNameNonAscii)
    );
    // Too long is found first.
    assert_eq!(pad_command_name(&[0xff; 13]), Err(BitcoinMessageError::CommandNameTooLong));
}

#[test]
fn decoding_any_bytes_gives_an_answer() {
    let mut state = 0x2545_f491_4f6c_dd1du64;
    let mut next = move || {
        state ^= state << 13;
        state ^= state >> 7;
        state ^= state << 17;
        state
    };
    for len in 0..300usize {
        let noise: Vec<u8> = (0..len).map(|_| next() as u8).collect();
        let _ = Message::from_bytes(&noise);
        let _ = VersionData::from_bytes(&noise);
        let _ = Payload::from_bytes(&noise, &Command::Version);
        let _ = Message::frame_len(&noise);
        // The same noise behind a header that is in order.
        let _ = Message::from_bytes(&framed(b"version", &noise));
        let _ = Message::from_bytes(&framed(b"verack", &noise));
        let mut header = hex("f9beb4d976657273696f6e0000000000");
        header.extend_from_slice(&noise);
        let _ = Message::from_bytes(&header);
    }
    for byte in 0..=255u8 {
        let _ = Message::from_bytes(&[byte; 24]);
        let _ = VersionData::from_bytes(&[byte; 86]);
        let _ = VersionData::from_bytes(&[byte; 400]);
    }
}

#[test]
fn frames_are_header_and_payload() {
    let bytes = frame(&START_STRING_MAINNET, Command::VerAck, &[], &[0x5d, 0xf6, 0xe0, 0xe2]);
    assert_eq!(bytes, hex("f9beb4d976657261636b000000000000000000005df6e0e2"));
    // The checksum is written as it is given, whatever the payload.
    let bytes = frame(&[1, 2, 3, 4], Command::Version, &[0xaa, 0xbb, 0xcc], &[9, 8, 7, 6]);
    assert_eq!(bytes, hex("0102030476657273696f6e00000000000300000009080706aabbcc"));
    let payload = vec![0x11u8; 0x0102];
    let bytes = frame(&START_STRING_MAINNET, Command::VerAck, &payload, &[0; 4]);
    assert_eq!(&bytes[..16], &hex("f9beb4d976657261636b000000000000")[..]);
    assert_eq!(&bytes[16..20], &[0x02, 0x01, 0x00, 0x00]);
    assert_eq!(&bytes[20..24], &[0; 4]);
    assert_eq!(&bytes[24..], &payload[..]);
    // With the checksum of the payload, the frame is the message.
    let payload = hex(SAMPLE_PAYLOAD);
    let bytes = frame(&START_STRING_MAINNET, Command::Version, &payload, &checksum(&payload));
    assert_eq!(bytes, hex(SAMPLE_MESSAGE));
}

#[test]
fn payloads_are_read_once_the_checksums_agree() {
    let payload = hex(SAMPLE_PAYLOAD);
    let read = checked_payload(&Command::Version, &[1, 2, 3, 4], &[1, 2, 3, 4], &payload).unwrap();
    match read {
        Payload::Version(version) => assert_same_version(&version, &sample_version()),
        Payload::Empty => panic!("a version payload was to be read"),
    }
    assert!(matches!(
        checked_payload(&Command::VerAck, &[0; 4], &[0; 4], &[]),
        Ok(Payload::Empty)
    ));
    // Checksums that agree, and a payload that breaks off.
    assert_eq!(
        checked_payload(&Command::Version, &[0; 4], &[0; 4], &payload[..50]).err(),
        Some(BitcoinMessageError::SerializationError)
    );
}

#[test]
fn payloads_are_refused_when_the_checksums_differ() {
    let payload = hex(SAMPLE_PAYLOAD);
    assert_eq!(
        checked_payload(&Command::Version, &[1, 2, 3, 4], &[1, 2, 3, 5], &payload).err(),
        Some(BitcoinMessageError::ChecksumMismatch)
    );
    assert_eq!(
        checked_payload(&Command::VerAck, &[0, 0, 0, 1], &[0; 4], &[]).err(),
        Some(BitcoinMessageError::ChecksumMismatch)
    );
    // A declared checksum of another length never agrees.
    assert_eq!(
        checked_payload(&Command::VerAck, &[0, 0, 0], &[0; 4], &[]).err(),
        Some(BitcoinMessageError::ChecksumMismatch)
    );
    // The checksums are looked at first: the payload here is none.
    assert_eq!(
        checked_payload(&Command::Version, &[1; 4], &[2; 4], &[1, 2, 3]).err(),
        Some(BitcoinMessageError::ChecksumMismatch)
    );
}
