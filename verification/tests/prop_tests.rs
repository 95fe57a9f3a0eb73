use iipdp::bitreader::BitReader;
use iipdp::data_manager::DataManager;
use iipdp::prop_reading::{FloatValue, NormalZ};
use iipdp::send_table::{
    FloatParseType, PropFlag, SendPropType, SendTableProp, PROP_COORD, PROP_NORMAL, PROP_UNSIGNED,
};
use iipdp::DecodeError;

fn put_bits(buf: &mut Vec<u8>, bitpos: &mut usize, value: u64, n: usize) {
    let mut i = 0;
    while i < n {
        let byte = *bitpos / 8;
        while buf.len() <= byte {
            buf.push(0);
        }
        if (value >> i) & 1 == 1 {
            buf[byte] |= 1 << (*bitpos % 8);
        }
        *bitpos += 1;
        i += 1;
    }
}

fn prop(t: SendPropType, flags: i32, num_bits: Option<i32>) -> SendTableProp {
    SendTableProp {
        send_prop_type: t,
        name: "p".to_string(),
        flags: PropFlag { bits: flags },
        exclude_dt_name: None,
        low_value_bits: None,
        high_value_bits: None,
        num_bits,
        num_elements: None,
        float_parse_type: FloatParseType::Unset,
    }
}

#[test]
fn decode_string_reads_bit_length_then_bytes() {
    let mut buf = Vec::new();
    let mut p = 0;
    put_bits(&mut buf, &mut p, 16, 9);
    put_bits(&mut buf, &mut p, b'A' as u64, 8);
    put_bits(&mut buf, &mut p, b'B' as u64, 8);
    let mut r = BitReader::new(buf);
    assert_eq!(r.decode_string().unwrap(), "AB");
    assert_eq!(r.pos, 9 + 16);
}

#[test]
fn decode_int_respects_unsigned_flag() {
    let signed = prop(SendPropType::Int, 0, Some(8));
    let unsigned = prop(SendPropType::Int, PROP_UNSIGNED, Some(8));
    let mut r = BitReader::new(vec![0x80]);
    assert_eq!(r.decode_int(&signed).unwrap(), -128);
    let mut r = BitReader::new(vec![0x80]);
    assert_eq!(r.decode_int(&unsigned).unwrap(), 128);
}

#[test]
fn u_bit_int_heads() {
    let mut buf = Vec::new();
    let mut p = 0;
    put_bits(&mut buf, &mut p, 1, 4);
    put_bits(&mut buf, &mut p, 7, 4);
    let mut r = BitReader::new(buf);
    assert_eq!(r.read_u_bit_int().unwrap(), 1 + 16 * 7);

    let mut buf = Vec::new();
    let mut p = 0;
    put_bits(&mut buf, &mut p, 0, 4);
    let mut r = BitReader::new(buf);
    assert_eq!(r.read_u_bit_int().unwrap(), 0);

    let mut buf = Vec::new();
    let mut p = 0;
    put_bits(&mut buf, &mut p, 9, 4);
    let mut r = BitReader::new(buf);
    assert!(matches!(r.read_u_bit_int(), Err(DecodeError::UnknownVariant)));
}

#[test]
fn bit_normal_is_signed_magnitude_over_2047() {
    let mut buf = Vec::new();
    let mut p = 0;
    put_bits(&mut buf, &mut p, 1, 1);
    put_bits(&mut buf, &mut p, 1024, 11);
    let mut r = BitReader::new(buf);
    let v = r.read_bit_normal().unwrap();
    assert_eq!(v.numer, -1024);
    assert_eq!(v.denom, 2047);
}

#[test]
fn coord_mp_low_precision_uses_three_fraction_bits() {
    // has_int=0, has_frac=1, sign=0, 3-bit fraction of 5.
    let mut buf = Vec::new();
    let mut p = 0;
    put_bits(&mut buf, &mut p, 0, 1);
    put_bits(&mut buf, &mut p, 1, 1);
    put_bits(&mut buf, &mut p, 0, 1);
    put_bits(&mut buf, &mut p, 5, 3);
    let mut pr = prop(SendPropType::Float, 0, None);
    pr.float_parse_type = FloatParseType::BitCoordMpLp;
    let mut r = BitReader::new(buf);
    let v = r.read_bit_coord_mp(&pr).unwrap();
    assert_eq!(v.numer, 5);
    assert_eq!(v.denom, 8);
}

#[test]
fn decode_float_resolves_coord_from_flags() {
    // Coord-flagged property: both presence bits clear decodes exact zero.
    let mut pr = prop(SendPropType::Float, PROP_COORD, None);
    let mut r = BitReader::new(vec![0]);
    let v = r.decode_float(&mut pr).unwrap();
    assert!(matches!(pr.float_parse_type, FloatParseType::Coord));
    match v {
        FloatValue::Fixed(f) => {
            assert_eq!(f.numer, 0);
            assert_eq!(f.denom, 32);
        }
        _ => panic!("expected a fixed-point value"),
    }
    assert_eq!(r.pos, 2);
}

#[test]
fn decode_float_without_special_flags_reads_interp_numerator() {
    let mut pr = prop(SendPropType::Float, 0, Some(10));
    let mut buf = Vec::new();
    let mut p = 0;
    put_bits(&mut buf, &mut p, 517, 10);
    let mut r = BitReader::new(buf);
    let v = r.decode_float(&mut pr).unwrap();
    assert!(matches!(v, FloatValue::Interp { raw: 517 }));
    assert_eq!(r.pos, 10);
}

#[test]
fn normal_vector_derives_third_component() {
    let mut pr = prop(SendPropType::Vector3, PROP_NORMAL, None);
    let mut buf = Vec::new();
    let mut p = 0;
    // Two normal components, then the derived-z sign bit.
    put_bits(&mut buf, &mut p, 0, 1);
    put_bits(&mut buf, &mut p, 100, 11);
    put_bits(&mut buf, &mut p, 1, 1);
    put_bits(&mut buf, &mut p, 200, 11);
    put_bits(&mut buf, &mut p, 1, 1);
    let mut r = BitReader::new(buf);
    let v = r.decode_vector_3(&mut pr).unwrap();
    match v.x {
        FloatValue::Fixed(f) => assert_eq!(f.numer, 100),
        _ => panic!("expected fixed x"),
    }
    match v.y {
        FloatValue::Fixed(f) => assert_eq!(f.numer, -200),
        _ => panic!("expected fixed y"),
    }
    assert!(matches!(v.z, NormalZ::DerivedFromNormal { negative: true }));
}

#[test]
fn prop_with_out_of_range_type_index_is_unknown_variant() {
    let mut mgr = DataManager::new();
    let mut h = iipdp::demo_header::DemoHeader::new();
    h.network_protocol = 15;
    mgr.get_info_from_header(&h);
    let mut buf = Vec::new();
    let mut p = 0;
    put_bits(&mut buf, &mut p, 20, 5);
    let mut r = BitReader::new(buf);
    assert!(matches!(
        SendTableProp::parse(&mut r, &mgr),
        Err(DecodeError::UnknownVariant)
    ));
}
