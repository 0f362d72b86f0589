use bitcoin_handshake::utils::{checksum, CHECKSUM_SIZE};

#[test]
fn checksum_of_empty_data() {
    let data = vec![];
    assert_eq!(checksum(&data), [0x5d, 0xf6, 0xe0, 0xe2]);
}

#[test]
fn checksum_of_known_data() {
    assert_eq!(checksum(b"hello"), [0x95, 0x95, 0xc9, 0xdf]);
    assert_eq!(checksum(b"abc"), [0x4f, 0x8b, 0x42, 0xc2]);
    assert_eq!(checksum(&[0u8]), [0x14, 0x06, 0xe0, 0x58]);
    assert_eq!(checksum(&[0u8; 8]), [0x7e, 0xf0, 0xca, 0x62]);
}

#[test]
fn checksum_is_the_same_on_every_call() {
    let data: Vec<u8> = (0..1000u32).map(|i| (i * 7 % 251) as u8).collect();
    let first = checksum(&data);
    for _ in 0..10 {
        assert_eq!(checksum(&data), first);
    }
    assert_eq!(first.len(), CHECKSUM_SIZE);
    assert_eq!(checksum(&data.clone()), first);
}

#[test]
fn checksum_tells_inputs_apart() {
    assert_ne!(checksum(b"abc"), checksum(b"abd"));
    assert_ne!(checksum(b""), checksum(&[0u8]));
}
