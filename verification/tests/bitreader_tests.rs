use iipdp::bitreader::BitReader;
use iipdp::DecodeError;
use iipdp::utils::EHandle;
use iipdp::utils::log2_of_x_plus_one;

fn put_bits(buf: &mut Vec<u8>, bitpos: &mut usize, value: u64, n: usize) {
    let mut i = 0;
    while i < n {
        let byte = *bitpos / 8;
        while buf.len() <= byte {
            buf.push(0);
        }
        if (value >> i) & 1 == 1 {
            buf[byte] |= 1 << (*bitpos % 8);
        }
        *bitpos += 1;
        i += 1;
    }
}

#[test]
fn reread_same_bits_gives_same_value() {
    let bytes = vec![0xA5, 0x5A, 0xF0, 0x0F, 0x12, 0x34, 0x56, 0x78, 0x9A];
    for n in 1..=64usize {
        let mut a = BitReader::new(bytes.clone());
        let mut b = BitReader::new(bytes.clone());
        let va = a.read_bits(n).unwrap();
        let vb = b.read_bits(n).unwrap();
        assert_eq!(va, vb);
        assert_eq!(a.pos, n);
    }
}

#[test]
fn split_and_skip_snapshot_rereads_same_bits() {
    let bytes = vec![0xDE, 0xAD, 0xBE, 0xEF, 0x01, 0x02, 0x03, 0x04];
    let mut main = BitReader::new(bytes.clone());
    main.read_bits(5).unwrap();
    let before = main.pos;
    let mut snap = main.split_and_skip(24).unwrap();
    assert_eq!(main.pos, before + 24);
    assert_eq!(snap.pos, before);
    let mut direct = BitReader::new(bytes);
    direct.read_bits(5).unwrap();
    assert_eq!(snap.read_bits(24).unwrap(), direct.read_bits(24).unwrap());
}

#[test]
fn sign_extension_eight_bits() {
    let mut r = BitReader::new(vec![0b1000_0000]);
    assert_eq!(r.read_signed_int(8).unwrap(), -128);
    let mut r = BitReader::new(vec![0b0111_1111]);
    assert_eq!(r.read_signed_int(8).unwrap(), 127);
}

#[test]
fn cursor_advances_exactly_and_failed_read_moves_nothing() {
    let mut r = BitReader::new(vec![0xFF]);
    assert!(r.read_bits(4).is_ok());
    assert_eq!(r.pos, 4);
    assert_eq!(r.read_bits(8), Err(DecodeError::BufferExhausted));
    assert_eq!(r.pos, 4);
    assert!(r.read_bits(4).is_ok());
    assert_eq!(r.pos, 8);
}

#[test]
fn little_endian_bit_order() {
    // 0x01 means the first-read bit of the byte is set.
    let mut r = BitReader::new(vec![0x01, 0x80]);
    assert_eq!(r.read_bits(1).unwrap(), 1);
    assert_eq!(r.read_bits(7).unwrap(), 0);
    assert_eq!(r.read_bits(8).unwrap(), 0x80);
}

#[test]
fn read_int_reads_le_dword() {
    let mut r = BitReader::new(vec![0x78, 0x56, 0x34, 0x12]);
    assert_eq!(r.read_int(32).unwrap(), 0x12345678);
}

#[test]
fn var_int32_lengths() {
    let mut r = BitReader::new(vec![0x05]);
    assert_eq!(r.read_var_int32().unwrap(), 5);
    assert_eq!(r.pos, 8);

    let mut r = BitReader::new(vec![0x85, 0x01]);
    assert_eq!(r.read_var_int32().unwrap(), 5 | (1 << 7));
    assert_eq!(r.pos, 16);

    let mut r = BitReader::new(vec![0xFF, 0xFF, 0xFF, 0xFF, 0x0F]);
    assert_eq!(r.read_var_int32().unwrap(), -1);
    assert_eq!(r.pos, 40);

    let mut r = BitReader::new(vec![0x85]);
    assert_eq!(r.read_var_int32(), Err(DecodeError::BufferExhausted));
    assert_eq!(r.pos, 0);
}

#[test]
fn fixed_string_trims_trailing_nuls() {
    let mut r = BitReader::new(vec![b'A', b'B', 0, 0]);
    assert_eq!(r.read_ascii_string(32).unwrap(), "AB");
    assert_eq!(r.pos, 32);
}

#[test]
fn nulled_string_reads_terminator() {
    let mut r = BitReader::new(vec![b'h', b'i', 0, b'x']);
    assert_eq!(r.read_ascii_string_nulled().unwrap(), "hi");
    assert_eq!(r.pos, 24);
    let mut r = BitReader::new(vec![b'h', b'i']);
    assert_eq!(r.read_ascii_string_nulled(), Err(DecodeError::BufferExhausted));
    assert_eq!(r.pos, 0);
}

#[test]
fn quantized_coordinate_zero_consumes_two_bits() {
    // Both presence bits clear; everything after them must stay unread.
    let mut r = BitReader::new(vec![0b1111_1100]);
    let v = r.read_vector_coord().unwrap();
    assert_eq!(v.numer, 0);
    assert_eq!(v.denom, 32);
    assert_eq!(r.pos, 2);
}

#[test]
fn quantized_coordinate_value() {
    // has_int=1, has_frac=1, sign=1, int part 5 (14 bits), frac part 3 (5 bits).
    let mut buf = Vec::new();
    let mut p = 0;
    put_bits(&mut buf, &mut p, 1, 1);
    put_bits(&mut buf, &mut p, 1, 1);
    put_bits(&mut buf, &mut p, 1, 1);
    put_bits(&mut buf, &mut p, 5, 14);
    put_bits(&mut buf, &mut p, 3, 5);
    let mut r = BitReader::new(buf);
    let v = r.read_vector_coord().unwrap();
    assert_eq!(v.numer, -(5 * 32 + 3));
    assert_eq!(v.denom, 32);
    assert_eq!(r.pos, 22);
}

#[test]
fn bit_angle_quarter_turn() {
    let mut buf = Vec::new();
    let mut p = 0;
    put_bits(&mut buf, &mut p, 0x4000, 16);
    let mut r = BitReader::new(buf);
    let a = r.read_bit_angle(16).unwrap();
    assert_eq!(a.numer, 0x4000 * 360);
    assert_eq!(a.denom, 65536);
    assert_eq!(a.numer as f64 / a.denom as f64, 90.0);
}

#[test]
fn u_bit_var_selects_width() {
    let mut buf = Vec::new();
    let mut p = 0;
    put_bits(&mut buf, &mut p, 0, 2);
    put_bits(&mut buf, &mut p, 9, 4);
    let mut r = BitReader::new(buf);
    assert_eq!(r.read_u_bit_var().unwrap(), 9);
    assert_eq!(r.pos, 6);
}

#[test]
fn field_index_short_circuit_and_sentinel() {
    let mut r = BitReader::new(vec![0x01]);
    assert_eq!(r.read_field_index(7, true).unwrap(), 8);
    assert_eq!(r.pos, 1);

    // Old way: 5 bits of 31, selector 3, then 7 bits of 127: 31 + 32*127 = 0xfff.
    let mut buf = Vec::new();
    let mut p = 0;
    put_bits(&mut buf, &mut p, 31, 5);
    put_bits(&mut buf, &mut p, 3, 2);
    put_bits(&mut buf, &mut p, 127, 7);
    let mut r = BitReader::new(buf);
    assert_eq!(r.read_field_index(7, false).unwrap(), -1);
}

#[test]
fn ehandle_splits_index_and_serial() {
    let h = EHandle { val: (5 << 11) | 123 };
    assert_eq!(h.ent_index(), 123);
    assert_eq!(h.serial(), 5);
}

#[test]
fn log2_of_x_plus_one_values() {
    assert_eq!(log2_of_x_plus_one(0), 0);
    assert_eq!(log2_of_x_plus_one(1), 1);
    assert_eq!(log2_of_x_plus_one(2), 2);
    assert_eq!(log2_of_x_plus_one(3), 2);
    assert_eq!(log2_of_x_plus_one(4), 3);
    assert_eq!(log2_of_x_plus_one(255), 8);
    assert_eq!(log2_of_x_plus_one(256), 9);
    assert_eq!(log2_of_x_plus_one(-1), 32);
}

#[test]
fn read_bytes_and_uint64() {
    let mut r = BitReader::new(vec![1, 2, 3, 4, 5, 6, 7, 8, 9]);
    assert_eq!(r.read_bytes(2).unwrap(), vec![1, 2]);
    let mut r = BitReader::new(vec![1, 0, 0, 0, 0, 0, 0, 0]);
    assert_eq!(r.read_uint_64().unwrap(), 1);
}

#[test]
fn optional_reads_follow_presence_bit() {
    // Presence bit set, then 8-bit value 42; then a clear presence bit.
    let mut buf = Vec::new();
    let mut p = 0;
    put_bits(&mut buf, &mut p, 1, 1);
    put_bits(&mut buf, &mut p, 42, 8);
    put_bits(&mut buf, &mut p, 0, 1);
    let mut r = BitReader::new(buf);
    assert_eq!(r.read_int_if_exists(8).unwrap(), Some(42));
    assert_eq!(r.read_int_if_exists(8).unwrap(), None);
    assert_eq!(r.pos, 10);
}
