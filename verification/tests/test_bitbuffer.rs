use bluestation::bitbuffer::{BitBuffer, EncodeErr, MAX_AUTOEXPAND_BITS};

#[test]
fn bitstr_and_dump_are_inverse() {
    let buf = BitBuffer::from_bitstr("00110000010010");
    assert_eq!(buf.get_len(), 14);
    assert_eq!(buf.get_pos(), 0);
    assert!(!buf.is_autoexpand());
    assert_eq!(buf.dump_bin(), "00110000010010");
    assert_eq!(BitBuffer::from_bitstr("").dump_bin(), "");
    // Any character but '1' is a clear bit.
    assert_eq!(BitBuffer::from_bitstr("1x 1").dump_bin(), "1001");
}

#[test]
fn peek_leaves_the_cursor_and_read_moves_it() {
    let mut buf = BitBuffer::from_bitstr("00110000010010");
    assert_eq!(buf.peek_bits(4), Some(3));
    assert_eq!(buf.get_pos(), 0);
    assert_eq!(buf.read_bits(4), Some(3));
    assert_eq!(buf.get_pos(), 4);
    assert_eq!(buf.read_bits(6), Some(1));
    assert_eq!(buf.peek_bits(0), Some(0));
    assert_eq!(buf.read_bits(4), Some(2));
    assert_eq!(buf.get_len_remaining(), 0);
    assert_eq!(buf.read_bits(0), Some(0));
}

#[test]
fn peek_past_the_end_gives_nothing_and_leaves_the_cursor() {
    let mut buf = BitBuffer::from_bitstr("101");
    assert_eq!(buf.peek_bits(4), None);
    assert_eq!(buf.get_pos(), 0);
    assert_eq!(buf.read_bits(2), Some(2));
    assert_eq!(buf.read_bits(2), None);
    assert_eq!(buf.get_pos(), 2);
    assert_eq!(buf.peek_bits(1), Some(1));
}

#[test]
fn sixty_four_bits_at_once() {
    let mut buf = BitBuffer::new_autoexpand(64);
    buf.write_bits(0xfedc_ba98_7654_3210, 64).unwrap();
    buf.write_bits(1, 1).unwrap();
    assert_eq!(buf.get_len(), 65);
    buf.seek(0);
    assert_eq!(buf.read_bits(64), Some(0xfedc_ba98_7654_3210));
    buf.seek(1);
    assert_eq!(buf.read_bits(64), Some(0xfdb9_7530_eca8_6421));
}

#[test]
fn write_takes_the_low_bits() {
    let mut buf = BitBuffer::new_autoexpand(8);
    buf.write_bits(0xff, 3).unwrap();
    buf.write_bits(0x12, 4).unwrap();
    buf.write_bits(5, 0).unwrap();
    assert_eq!(buf.dump_bin(), "1110010");
    assert_eq!(buf.get_pos(), 7);
}

#[test]
fn fixed_buffer_refuses_what_does_not_fit() {
    let mut buf = BitBuffer::new(10);
    assert_eq!(buf.dump_bin(), "0000000000");
    assert_eq!(buf.write_bits(0x3ff, 10), Ok(()));
    assert_eq!(buf.write_bits(1, 1), Err(EncodeErr::NoSpace));
    buf.seek(8);
    assert_eq!(buf.write_bits(0, 3), Err(EncodeErr::NoSpace));
    // The refused write changed nothing.
    assert_eq!(buf.dump_bin(), "1111111111");
    assert_eq!(buf.get_pos(), 8);
    assert_eq!(buf.write_bits(0, 2), Ok(()));
    assert_eq!(buf.dump_bin(), "1111111100");
    assert_eq!(buf.check_room(1), Err(EncodeErr::NoSpace));
    assert_eq!(buf.check_room(0), Ok(()));
}

#[test]
fn write_in_the_middle_overwrites() {
    let mut buf = BitBuffer::from_bitstr("1111111111");
    buf.seek(3);
    buf.write_bits(0, 4).unwrap();
    assert_eq!(buf.dump_bin(), "1110000111");
    assert_eq!(buf.get_pos(), 7);

    let mut buf = BitBuffer::new_autoexpand(0);
    buf.write_bits(0b1111, 4).unwrap();
    buf.seek(2);
    buf.write_bits(0, 5).unwrap();
    assert_eq!(buf.dump_bin(), "1100000");
}

#[test]
fn autoexpand_grows_up_to_its_limit() {
    assert_eq!(MAX_AUTOEXPAND_BITS, 2595);
    let mut buf = BitBuffer::new_autoexpand(32);
    assert!(buf.is_autoexpand());
    assert_eq!(buf.get_len(), 0);
    for _ in 0..40 {
        assert_eq!(buf.write_bits(u64::MAX, 64), Ok(()));
    }
    assert_eq!(buf.get_len(), 2560);
    assert_eq!(buf.write_bits(0, 36), Err(EncodeErr::LengthOverflow));
    assert_eq!(buf.get_len(), 2560);
    assert_eq!(buf.check_room(35), Ok(()));
    assert_eq!(buf.check_room(36), Err(EncodeErr::LengthOverflow));
    assert_eq!(buf.write_bits(0, 35), Ok(()));
    assert_eq!(buf.get_len(), 2595);
    assert_eq!(buf.write_bits(0, 1), Err(EncodeErr::LengthOverflow));
    // An auto-expanding buffer never says that it has no space.
    buf.seek(2590);
    assert_eq!(buf.write_bits(0, 6), Err(EncodeErr::LengthOverflow));
    assert_eq!(buf.write_bits(0x1f, 5), Ok(()));
    buf.seek(2559);
    assert_eq!(buf.read_bits(36), Some(0x8_0000_001f));
}

#[test]
fn clone_is_a_copy() {
    let mut buf = BitBuffer::from_bitstr("1010");
    buf.seek(2);
    let mut copy = buf.clone();
    assert_eq!(copy.get_pos(), 2);
    copy.write_bits(3, 2).unwrap();
    assert_eq!(copy.dump_bin(), "1011");
    assert_eq!(buf.dump_bin(), "1010");
}
