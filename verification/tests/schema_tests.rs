use iipdp::bitreader::BitReader;
use iipdp::data_manager::DataManager;
use iipdp::datatables_manager::{sort_props, DataTablesManager, FlattenedProp};
use iipdp::packet_data_types::DataTables;
use iipdp::send_table::{
    FloatParseType, PropFlag, SendPropType, SendTable, SendTableProp, PROP_CHANGES_OFTEN,
    PROP_UNSIGNED,
};
use iipdp::utils::ServerClass;
use iipdp::DecodeError;

fn put_bits(buf: &mut Vec<u8>, bitpos: &mut usize, value: u64, n: usize) {
    let mut i = 0;
    while i < n {
        let byte = *bitpos / 8;
        while buf.len() <= byte {
            buf.push(0);
        }
        if (value >> i) & 1 == 1 {
            buf[byte] |= 1 << (*bitpos % 8);
        }
        *bitpos += 1;
        i += 1;
    }
}

fn put_cstr(buf: &mut Vec<u8>, bitpos: &mut usize, s: &str) {
    for b in s.bytes() {
        put_bits(buf, bitpos, b as u64, 8);
    }
    put_bits(buf, bitpos, 0, 8);
}

fn mgr_with_protocol(network_protocol: i32) -> DataManager {
    let mut mgr = DataManager::new();
    let mut h = iipdp::demo_header::DemoHeader::new();
    h.network_protocol = network_protocol;
    mgr.get_info_from_header(&h);
    mgr
}

fn int_prop(name: &str, flags: i32) -> SendTableProp {
    SendTableProp {
        send_prop_type: SendPropType::Int,
        name: name.to_string(),
        flags: PropFlag { bits: flags },
        exclude_dt_name: None,
        low_value_bits: None,
        high_value_bits: None,
        num_bits: Some(8),
        num_elements: None,
        float_parse_type: FloatParseType::Unset,
    }
}

fn fprop(name: &str, flags: i32) -> FlattenedProp {
    FlattenedProp::new(name.to_string(), int_prop(name, flags), None)
}

#[test]
fn stable_partition_often_changing_first() {
    let mut props = vec![
        fprop("A", 0),
        fprop("B", PROP_CHANGES_OFTEN),
        fprop("C", 0),
    ];
    sort_props(&mut props);
    let names: Vec<&str> = props.iter().map(|p| p.name.as_str()).collect();
    assert_eq!(names, vec!["B", "A", "C"]);
}

#[test]
fn stable_partition_keeps_relative_order_of_both_parts() {
    let mut props = vec![
        fprop("a0", PROP_CHANGES_OFTEN),
        fprop("a1", 0),
        fprop("a2", 0),
        fprop("a3", PROP_CHANGES_OFTEN),
    ];
    sort_props(&mut props);
    let names: Vec<&str> = props.iter().map(|p| p.name.as_str()).collect();
    assert_eq!(names, vec!["a0", "a3", "a1", "a2"]);
}

#[test]
fn send_table_prop_parses_numeric_declaration() {
    // Type index 0 (Int), name, flags = Unsigned, low/high range bits, then
    // a 7-bit quantization bit count (newer variant).
    let mut buf = Vec::new();
    let mut p = 0;
    put_bits(&mut buf, &mut p, 0, 5);
    put_cstr(&mut buf, &mut p, "m_iHealth");
    put_bits(&mut buf, &mut p, PROP_UNSIGNED as u64, 16);
    put_bits(&mut buf, &mut p, 0, 32);
    put_bits(&mut buf, &mut p, 0x42c80000, 32);
    put_bits(&mut buf, &mut p, 10, 7);
    let mut r = BitReader::new(buf);
    let mgr = mgr_with_protocol(15);
    let prop = SendTableProp::parse(&mut r, &mgr).unwrap();
    assert!(matches!(prop.send_prop_type, SendPropType::Int));
    assert_eq!(prop.name, "m_iHealth");
    assert_eq!(prop.flags.bits, PROP_UNSIGNED);
    assert_eq!(prop.low_value_bits, Some(0));
    assert_eq!(prop.high_value_bits, Some(0x42c80000));
    assert_eq!(prop.num_bits, Some(10));
    assert_eq!(prop.num_elements, None);
}

#[test]
fn send_table_parses_header_and_count() {
    let mut buf = Vec::new();
    let mut p = 0;
    put_bits(&mut buf, &mut p, 1, 1);
    put_cstr(&mut buf, &mut p, "DT_Test");
    put_bits(&mut buf, &mut p, 1, 10);
    // One Int property.
    put_bits(&mut buf, &mut p, 0, 5);
    put_cstr(&mut buf, &mut p, "m_i");
    put_bits(&mut buf, &mut p, 0, 16);
    put_bits(&mut buf, &mut p, 0, 32);
    put_bits(&mut buf, &mut p, 0, 32);
    put_bits(&mut buf, &mut p, 8, 7);
    let mut r = BitReader::new(buf);
    let mgr = mgr_with_protocol(15);
    let table = SendTable::parse(&mut r, &mgr).unwrap();
    assert!(table.needs_decoder);
    assert_eq!(table.name, "DT_Test");
    assert_eq!(table.prop_count, 1);
    assert_eq!(table.prop_list.len(), 1);
    assert_eq!(table.prop_list[0].name, "m_i");
}

#[test]
fn flatten_one_class_sorts_often_changing_first() {
    let table = SendTable {
        needs_decoder: false,
        name: "DT_A".to_string(),
        prop_count: 2,
        prop_list: vec![int_prop("plain", 0), int_prop("hot", PROP_CHANGES_OFTEN)],
    };
    let mut dt = DataTables::new();
    dt.send_tables.push(table);
    let mut mgr = DataTablesManager::new(dt, 1);
    let classes = vec![ServerClass {
        datatable_id: 0,
        class_name: "CTest".to_string(),
        data_table_name: "DT_A".to_string(),
    }];
    mgr.flatten_classes(&classes);
    assert_eq!(mgr.prop_lookup.len(), 1);
    assert_eq!(mgr.prop_lookup[0].0.class_name, "CTest");
    let names: Vec<&str> = mgr.prop_lookup[0].1.iter().map(|p| p.name.as_str()).collect();
    assert_eq!(names, vec!["hot", "plain"]);
}

#[test]
fn class_with_missing_table_is_skipped() {
    let mut mgr = DataTablesManager::new(DataTables::new(), 1);
    let classes = vec![ServerClass {
        datatable_id: 5,
        class_name: "CGone".to_string(),
        data_table_name: "DT_Gone".to_string(),
    }];
    mgr.flatten_classes(&classes);
    assert_eq!(mgr.prop_lookup.len(), 0);
}

#[test]
fn missing_table_reference_is_schema_inconsistency() {
    // A class binding a table id with no declared table behind it.
    let mgr = DataTablesManager::new(DataTables::new(), 1);
    let class = ServerClass {
        datatable_id: 0,
        class_name: "CTest".to_string(),
        data_table_name: "DT_A".to_string(),
    };
    assert!(matches!(mgr.flatten_one_class(&class), Err(DecodeError::SchemaInconsistency)));

    // A table whose sub-table property names a table nobody declared.
    let sub_ref = SendTableProp {
        send_prop_type: SendPropType::DataTable,
        name: "baseclass".to_string(),
        flags: PropFlag { bits: 0 },
        exclude_dt_name: Some("DT_Missing".to_string()),
        low_value_bits: None,
        high_value_bits: None,
        num_bits: None,
        num_elements: None,
        float_parse_type: FloatParseType::Unset,
    };
    let table = SendTable {
        needs_decoder: false,
        name: "DT_A".to_string(),
        prop_count: 1,
        prop_list: vec![sub_ref],
    };
    let mut dt = DataTables::new();
    dt.send_tables.push(table);
    let mgr = DataTablesManager::new(dt, 1);
    assert!(matches!(mgr.flatten_one_class(&class), Err(DecodeError::SchemaInconsistency)));
}

#[test]
fn excluded_property_is_left_out() {
    // DT_A holds an exclusion of DT_B's "secret" and includes DT_B, whose
    // flattening must then omit it.
    let excl = SendTableProp {
        send_prop_type: SendPropType::Int,
        name: "secret".to_string(),
        flags: PropFlag { bits: 64 },
        exclude_dt_name: Some("DT_B".to_string()),
        low_value_bits: None,
        high_value_bits: None,
        num_bits: None,
        num_elements: None,
        float_parse_type: FloatParseType::Unset,
    };
    let include_b = SendTableProp {
        send_prop_type: SendPropType::DataTable,
        name: "baseclass".to_string(),
        flags: PropFlag { bits: 0 },
        exclude_dt_name: Some("DT_B".to_string()),
        low_value_bits: None,
        high_value_bits: None,
        num_bits: None,
        num_elements: None,
        float_parse_type: FloatParseType::Unset,
    };
    let table_a = SendTable {
        needs_decoder: false,
        name: "DT_A".to_string(),
        prop_count: 2,
        prop_list: vec![excl, include_b],
    };
    let table_b = SendTable {
        needs_decoder: false,
        name: "DT_B".to_string(),
        prop_count: 2,
        prop_list: vec![int_prop("secret", 0), int_prop("visible", 0)],
    };
    let mut dt = DataTables::new();
    dt.send_tables.push(table_a);
    dt.send_tables.push(table_b);
    let mgr = DataTablesManager::new(dt, 1);
    let class = ServerClass {
        datatable_id: 0,
        class_name: "CTest".to_string(),
        data_table_name: "DT_A".to_string(),
    };
    let props = mgr.flatten_one_class(&class).unwrap();
    let names: Vec<&str> = props.iter().map(|p| p.name.as_str()).collect();
    assert_eq!(names, vec!["visible"]);
}

#[test]
fn prop_flags_contains_checks_all_bits() {
    let f = PropFlag { bits: PROP_CHANGES_OFTEN | PROP_UNSIGNED };
    assert!(f.contains(PROP_CHANGES_OFTEN));
    assert!(f.contains(PROP_UNSIGNED | PROP_CHANGES_OFTEN));
    assert!(!f.contains(64));
    let t = PropFlag::from_bits_truncate(0x7fff_ffff);
    assert_eq!(t.bits, 0xffff);
}
