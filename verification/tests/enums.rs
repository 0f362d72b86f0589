use bitcoin_handshake::enums::{Command, ServiceIdentifier};
use bitcoin_handshake::errors::BitcoinMessageError;

#[test]
fn command_as_string() {
    assert_eq!(Command::Version.to_string(), "version");
    assert_eq!(Command::VerAck.to_string(), "verack");
}

#[test]
fn string_as_command() {
    assert_eq!(Command::try_from("version").unwrap(), Command::Version);
    assert_eq!(Command::try_from("verack").unwrap(), Command::VerAck);
}

#[test]
fn command_as_bytes() {
    assert_eq!(Command::Version.to_bytes(), b"version");
    assert_eq!(Command::VerAck.to_bytes(), b"verack");
}

#[test]
fn unknown_string_is_no_command() {
    assert_eq!(
        Command::try_from("ping"),
        Err(BitcoinMessageError::CommandNameUnknown("ping".to_string()))
    );
    assert_eq!(
        Command::try_from(""),
        Err(BitcoinMessageError::CommandNameUnknown(String::new()))
    );
    assert_eq!(
        Command::try_from("Version"),
        Err(BitcoinMessageError::CommandNameUnknown("Version".to_string()))
    );
    assert_eq!(
        Command::try_from("version "),
        Err(BitcoinMessageError::CommandNameUnknown("version ".to_string()))
    );
    assert_eq!(
        Command::try_from("vérack"),
        Err(BitcoinMessageError::CommandNameUnknown("vérack".to_string()))
    );
}

#[test]
fn command_names_round_trip() {
    for command in [Command::Version, Command::VerAck] {
        let name = command.to_string();
        assert_eq!(Command::try_from(name.as_str()), Ok(command));
        assert_eq!(command.to_bytes(), name.as_bytes());
        assert!(name.len() <= 12);
        assert!(name.is_ascii());
    }
}

#[test]
fn named_service_flags_have_their_bits() {
    assert_eq!(ServiceIdentifier::unnamed().bits(), 0x00);
    assert_eq!(ServiceIdentifier::node_network().bits(), 0x01);
    assert_eq!(ServiceIdentifier::node_getutxo().bits(), 0x02);
    assert_eq!(ServiceIdentifier::node_bloom().bits(), 0x04);
    assert_eq!(ServiceIdentifier::node_witness().bits(), 0x08);
    assert_eq!(ServiceIdentifier::node_xthin().bits(), 0x10);
    assert_eq!(ServiceIdentifier::node_network_limited().bits(), 0x0400);
    assert_eq!(ServiceIdentifier::empty().bits(), 0);
    assert!(ServiceIdentifier::empty().is_empty());
    assert!(!ServiceIdentifier::node_bloom().is_empty());
}

#[test]
fn service_flags_keep_bits_without_a_name() {
    let raw = 0x8000_0000_0000_0409u64;
    let flags = ServiceIdentifier::from_bits_retain(raw);
    assert_eq!(flags.bits(), raw);
    assert!(flags.contains(ServiceIdentifier::node_network()));
    assert!(flags.contains(ServiceIdentifier::node_witness()));
    assert!(flags.contains(ServiceIdentifier::node_network_limited()));
    assert!(!flags.contains(ServiceIdentifier::node_bloom()));
    assert_eq!(ServiceIdentifier::from_bits_retain(u64::MAX).bits(), u64::MAX);
}

#[test]
fn service_flags_combine() {
    let network = ServiceIdentifier::node_network();
    let witness = ServiceIdentifier::node_witness();
    let both = network.union(witness);
    assert_eq!(both.bits(), 0x09);
    assert!(both.contains(network));
    assert!(both.contains(witness));
    assert!(both.contains(both));
    assert!(both.contains(ServiceIdentifier::empty()));
    assert!(!network.contains(both));
    assert_eq!(both.intersection(witness), witness);
    assert_eq!(network.intersection(witness), ServiceIdentifier::empty());
    assert_eq!(both.union(ServiceIdentifier::empty()), both);
}

#[test]
fn commands_convert_into_their_names() {
    assert_eq!(String::from(Command::Version), "version");
    assert_eq!(String::from(Command::VerAck), "verack");
    assert_eq!(Vec::<u8>::from(Command::Version), b"version");
    assert_eq!(Vec::<u8>::from(Command::VerAck), b"verack");
    let name: String = Command::VerAck.into();
    assert_eq!(name, "verack");
    let command: Result<Command, BitcoinMessageError> = "version".try_into();
    assert_eq!(command, Ok(Command::Version));
    let command: Result<Command, BitcoinMessageError> = "getaddr".try_into();
    assert_eq!(command, Err(BitcoinMessageError::CommandNameUnknown("getaddr".to_string())));
}
