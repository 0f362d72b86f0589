use bitcoin_handshake::wire::{
    get_i32_le, get_i64_le, get_u128_be, get_u16_be, get_u32_le, get_u64_le, get_u8, put_bytes,
    put_i32_le, put_i64_le, put_u128_be, put_u16_be, put_u32_le, put_u64_le, same_bytes, take,
};

#[test]
fn little_endian_integers_are_written_low_byte_first() {
    let mut buf = vec![0xaa];
    put_u32_le(&mut buf, 0x0102_0304);
    assert_eq!(buf, [0xaa, 0x04, 0x03, 0x02, 0x01]);
    let mut buf = vec![];
    put_u64_le(&mut buf, 0x0102_0304_0506_0708);
    assert_eq!(buf, [0x08, 0x07, 0x06, 0x05, 0x04, 0x03, 0x02, 0x01]);
    let mut buf = vec![];
    put_i32_le(&mut buf, 70015);
    assert_eq!(buf, [0x7f, 0x11, 0x01, 0x00]);
    let mut buf = vec![];
    put_i32_le(&mut buf, -2);
    assert_eq!(buf, [0xfe, 0xff, 0xff, 0xff]);
    let mut buf = vec![];
    put_i64_le(&mut buf, -1);
    assert_eq!(buf, [0xff; 8]);
    let mut buf = vec![];
    put_i64_le(&mut buf, i64::MIN);
    assert_eq!(buf, [0, 0, 0, 0, 0, 0, 0, 0x80]);
}

#[test]
fn big_endian_integers_are_written_high_byte_first() {
    let mut buf = vec![];
    put_u16_be(&mut buf, 8333);
    assert_eq!(buf, [0x20, 0x8d]);
    let mut buf = vec![0x01];
    put_u128_be(&mut buf, 0x0001_0203_0405_0607_0809_0a0b_0c0d_0e0f);
    assert_eq!(buf, [1, 0, 1, 2, 3, 4, 5, 6, 7, 8, 9, 10, 11, 12, 13, 14, 15]);
}

#[test]
fn little_endian_integers_are_read_low_byte_first() {
    let data = [0x04, 0x03, 0x02, 0x01, 0xff, 0xff, 0xff, 0xff];
    let mut pos = 0;
    assert_eq!(get_u32_le(&data, &mut pos), Some(0x0102_0304));
    assert_eq!(pos, 4);
    assert_eq!(get_i32_le(&data, &mut pos), Some(-1));
    assert_eq!(pos, 8);
    let mut pos = 0;
    assert_eq!(get_u64_le(&data, &mut pos), Some(0xffff_ffff_0102_0304));
    let mut pos = 0;
    assert_eq!(get_i64_le(&data, &mut pos), Some(-4278058236));
    let mut pos = 0;
    assert_eq!(get_i32_le(&[0x00, 0x00, 0x00, 0x80], &mut pos), Some(i32::MIN));
}

#[test]
fn big_endian_integers_are_read_high_byte_first() {
    let data = [0x20, 0x8d, 0x00];
    let mut pos = 0;
    assert_eq!(get_u16_be(&data, &mut pos), Some(8333));
    assert_eq!(pos, 2);
    let data: Vec<u8> = (0..16).collect();
    let mut pos = 0;
    assert_eq!(get_u128_be(&data, &mut pos), Some(0x0001_0203_0405_0607_0809_0a0b_0c0d_0e0f));
    assert_eq!(pos, 16);
}

#[test]
fn reads_stop_at_the_end_of_the_data() {
    let data = [1u8, 2, 3];
    let mut pos = 0;
    assert_eq!(get_u32_le(&data, &mut pos), None);
    assert_eq!(pos, 0);
    assert_eq!(get_u16_be(&data, &mut pos), Some(0x0102));
    assert_eq!(get_u16_be(&data, &mut pos), None);
    assert_eq!(pos, 2);
    assert_eq!(get_u8(&data, &mut pos), Some(3));
    assert_eq!(get_u8(&data, &mut pos), None);
    assert_eq!(pos, 3);
    assert_eq!(get_u64_le(&data, &mut pos), None);
    assert_eq!(get_i64_le(&data, &mut pos), None);
    assert_eq!(get_i32_le(&data, &mut pos), None);
    assert_eq!(get_u128_be(&data, &mut pos), None);
    let mut far = 10;
    assert_eq!(get_u8(&data, &mut far), None);
    assert_eq!(far, 10);
    let mut edge = usize::MAX;
    assert_eq!(take(&data, &mut edge, 2), None);
    assert_eq!(edge, usize::MAX);
}

#[test]
fn take_hands_out_windows() {
    let data = [1u8, 2, 3, 4, 5];
    let mut pos = 1;
    assert_eq!(take(&data, &mut pos, 3), Some(&data[1..4]));
    assert_eq!(pos, 4);
    assert_eq!(take(&data, &mut pos, 0), Some(&data[4..4]));
    assert_eq!(take(&data, &mut pos, 2), None);
    assert_eq!(pos, 4);
    assert_eq!(take(&data, &mut pos, 1), Some(&data[4..]));
    assert_eq!(pos, 5);
    assert_eq!(take(&data, &mut pos, usize::MAX), None);
}

#[test]
fn written_integers_read_back() {
    let mut buf = vec![];
    put_i32_le(&mut buf, -70015);
    put_u64_le(&mut buf, u64::MAX - 5);
    put_i64_le(&mut buf, -1_600_000_000);
    put_u128_be(&mut buf, u128::MAX / 3);
    put_u16_be(&mut buf, 65535);
    put_u32_le(&mut buf, 33_554_433);
    put_bytes(&mut buf, &[9, 8, 7]);
    let mut pos = 0;
    assert_eq!(get_i32_le(&buf, &mut pos), Some(-70015));
    assert_eq!(get_u64_le(&buf, &mut pos), Some(u64::MAX - 5));
    assert_eq!(get_i64_le(&buf, &mut pos), Some(-1_600_000_000));
    assert_eq!(get_u128_be(&buf, &mut pos), Some(u128::MAX / 3));
    assert_eq!(get_u16_be(&buf, &mut pos), Some(65535));
    assert_eq!(get_u32_le(&buf, &mut pos), Some(33_554_433));
    assert_eq!(take(&buf, &mut pos, 3), Some(&[9u8, 8, 7][..]));
    assert_eq!(pos, buf.len());
}

#[test]
fn same_bytes_compares_contents() {
    assert!(same_bytes(&[], &[]));
    assert!(same_bytes(&[1, 2, 3], &[1, 2, 3]));
    assert!(!same_bytes(&[1, 2, 3], &[1, 2, 4]));
    assert!(!same_bytes(&[1, 2, 3], &[1, 2]));
    assert!(!same_bytes(&[], &[0]));
    assert!(!same_bytes(&[0, 2, 3], &[1, 2, 3]));
}
