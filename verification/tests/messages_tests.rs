use iipdp::bitreader::BitReader;
use iipdp::netsvc_types::{
    NetSetConVar, SvcFixAngle, SvcGameEvent, SvcGameEventList, SvcPrefetch, SvcUpdateStringTable,
};
use iipdp::data_manager::DataManager;
use iipdp::stringtable::{LightStyle, PrecacheData, StringTable, StringTableEntry};
use iipdp::user_cmd_info::UserCmdInfo;
use iipdp::user_message::{Battery, UserMessage, UserMessageDataType, UserMessageType};
use iipdp::utils::{GameEvent, GameEventDescriptor, GameEventKeyTypes, GameEventList};

fn put_bits(buf: &mut Vec<u8>, bitpos: &mut usize, value: u64, n: usize) {
    let mut i = 0;
    while i < n {
        let byte = *bitpos / 8;
        while buf.len() <= byte {
            buf.push(0);
        }
        if (value >> i) & 1 == 1 {
            buf[byte] |= 1 << (*bitpos % 8);
        }
        *bitpos += 1;
        i += 1;
    }
}

fn put_cstr(buf: &mut Vec<u8>, bitpos: &mut usize, s: &str) {
    for b in s.bytes() {
        put_bits(buf, bitpos, b as u64, 8);
    }
    put_bits(buf, bitpos, 0, 8);
}

#[test]
fn set_convar_reads_all_pairs() {
    let mut buf = Vec::new();
    let mut p = 0;
    put_bits(&mut buf, &mut p, 2, 8);
    put_cstr(&mut buf, &mut p, "sv_cheats");
    put_cstr(&mut buf, &mut p, "1");
    put_cstr(&mut buf, &mut p, "host_timescale");
    put_cstr(&mut buf, &mut p, "0.5");
    let mut r = BitReader::new(buf);
    let m = NetSetConVar::parse(&mut r).unwrap();
    assert_eq!(m.length, 2);
    assert_eq!(m.convars.len(), 2);
    assert_eq!(m.convars[0].convar_name, "sv_cheats");
    assert_eq!(m.convars[0].convar_value, "1");
    assert_eq!(m.convars[1].convar_name, "host_timescale");
    assert_eq!(m.convars[1].convar_value, "0.5");
}

#[test]
fn fix_angle_scales_by_360_over_65536() {
    let mut buf = Vec::new();
    let mut p = 0;
    put_bits(&mut buf, &mut p, 1, 1);
    put_bits(&mut buf, &mut p, 0x4000, 16);
    put_bits(&mut buf, &mut p, 0x8000, 16);
    put_bits(&mut buf, &mut p, 0, 16);
    let mut r = BitReader::new(buf);
    let m = SvcFixAngle::parse(&mut r).unwrap();
    assert!(m.relative);
    assert_eq!(m.angle.len(), 3);
    assert_eq!(m.angle[0].numer as f64 / m.angle[0].denom as f64, 90.0);
    assert_eq!(m.angle[1].numer as f64 / m.angle[1].denom as f64, 180.0);
    assert_eq!(m.angle[2].numer, 0);
}

#[test]
fn game_event_descriptor_reads_typed_keys_in_order() {
    let mut buf = Vec::new();
    let mut p = 0;
    put_bits(&mut buf, &mut p, 42, 9);
    put_cstr(&mut buf, &mut p, "player_jump");
    put_bits(&mut buf, &mut p, 3, 3);
    put_cstr(&mut buf, &mut p, "userid");
    put_bits(&mut buf, &mut p, 6, 3);
    put_cstr(&mut buf, &mut p, "crouched");
    put_bits(&mut buf, &mut p, 0, 3);
    let mut r = BitReader::new(buf);
    let d = GameEventDescriptor::parse(&mut r).unwrap();
    assert_eq!(d.event_id, 42);
    assert_eq!(d.name, "player_jump");
    assert_eq!(d.keys.len(), 2);
    assert_eq!(d.keys[0].0, "userid");
    assert_eq!(d.keys[0].1, 3);
    assert_eq!(d.keys[1].0, "crouched");
    assert_eq!(d.keys[1].1, 6);
}

#[test]
fn game_event_decodes_keys_by_descriptor() {
    let descriptor = GameEventDescriptor {
        event_id: 42,
        name: "player_jump".to_string(),
        keys: vec![("userid".to_string(), 3), ("crouched".to_string(), 6)],
    };
    let list = GameEventList {
        events: 1,
        length: 0,
        data: vec![GameEvent { descriptor, keys: Vec::new() }],
    };
    let mut buf = Vec::new();
    let mut p = 0;
    put_bits(&mut buf, &mut p, 50, 11);
    put_bits(&mut buf, &mut p, 42, 9);
    put_bits(&mut buf, &mut p, 1337, 32);
    put_bits(&mut buf, &mut p, 1, 1);
    let mut r = BitReader::new(buf);
    let m = SvcGameEvent::parse(&mut r, &list).unwrap();
    assert_eq!(m.length, 50);
    assert_eq!(m.data.descriptor.event_id, 42);
    assert_eq!(m.data.keys.len(), 2);
    assert_eq!(m.data.keys[0].0, "userid");
    assert!(matches!(m.data.keys[0].1, GameEventKeyTypes::Int32(1337)));
    assert!(matches!(m.data.keys[1].1, GameEventKeyTypes::Boolean(true)));
}

#[test]
fn game_event_list_fills_catalog() {
    let mut buf = Vec::new();
    let mut p = 0;
    put_bits(&mut buf, &mut p, 1, 9);
    put_bits(&mut buf, &mut p, 123, 20);
    put_bits(&mut buf, &mut p, 7, 9);
    put_cstr(&mut buf, &mut p, "map_loaded");
    put_bits(&mut buf, &mut p, 0, 3);
    let mut r = BitReader::new(buf);
    let mut catalog = GameEventList::new();
    let m = SvcGameEventList::parse(&mut r, &mut catalog).unwrap();
    assert_eq!(m.events, 1);
    assert_eq!(m.length, 123);
    assert_eq!(catalog.data.len(), 1);
    assert_eq!(catalog.data[0].descriptor.event_id, 7);
    assert_eq!(catalog.data[0].descriptor.name, "map_loaded");
}

#[test]
fn battery_user_message_through_dispatch() {
    let mut buf = Vec::new();
    let mut p = 0;
    put_bits(&mut buf, &mut p, 99, 16);
    let mut r = BitReader::new(buf);
    let m = UserMessage::parse(&mut r, UserMessageType::Battery, 16).unwrap();
    assert!(matches!(m.msg_type, UserMessageType::Battery));
    match m.data {
        UserMessageDataType::Battery(b) => assert_eq!(b.battery_val, 99),
        _ => panic!("wrong payload variant"),
    }
}

#[test]
fn unknown_user_message_skips_declared_length() {
    let mut buf = Vec::new();
    let mut p = 0;
    put_bits(&mut buf, &mut p, 0xFFFF, 16);
    let mut r = BitReader::new(buf);
    let m = UserMessage::parse(&mut r, UserMessageType::GameTitle, 10).unwrap();
    assert!(matches!(m.msg_type, UserMessageType::Unknown));
    assert_eq!(r.pos, 10);
}

#[test]
fn battery_parse_exact_value() {
    let mut r = BitReader::new(vec![0x2A, 0x00]);
    let b = Battery::parse(&mut r).unwrap();
    assert_eq!(b.battery_val, 42);
}

#[test]
fn user_cmd_all_fields_absent() {
    // Thirteen clear presence bits, padded out to two bytes.
    let mut r = BitReader::new(vec![0, 0]);
    let u = UserCmdInfo::parse(&mut r).unwrap();
    assert!(u.command_number.is_none());
    assert!(u.tick_count.is_none());
    assert_eq!(u.buttons, 0);
    assert!(u.weapon_select.is_none());
    assert!(u.weapon_subtype.is_none());
    assert_eq!(r.pos, 13);
}

#[test]
fn user_cmd_weapon_subtype_follows_selection() {
    let mut buf = Vec::new();
    let mut p = 0;
    // Nine clear bits, a clear impulse bit, then weapon select present.
    put_bits(&mut buf, &mut p, 0, 10);
    put_bits(&mut buf, &mut p, 1, 1);
    put_bits(&mut buf, &mut p, 77, 11);
    put_bits(&mut buf, &mut p, 5, 6);
    put_bits(&mut buf, &mut p, 0, 2);
    let mut r = BitReader::new(buf);
    let u = UserCmdInfo::parse(&mut r).unwrap();
    assert_eq!(u.weapon_select, Some(77));
    assert_eq!(u.weapon_subtype, Some(5));
    assert!(u.mouse_dx.is_none());
    assert!(u.mouse_dy.is_none());
}

#[test]
fn string_table_with_plain_entries() {
    let mut buf = Vec::new();
    let mut p = 0;
    put_cstr(&mut buf, &mut p, "things");
    put_bits(&mut buf, &mut p, 2, 16);
    put_cstr(&mut buf, &mut p, "first");
    put_bits(&mut buf, &mut p, 0, 1);
    put_cstr(&mut buf, &mut p, "second");
    put_bits(&mut buf, &mut p, 0, 1);
    put_bits(&mut buf, &mut p, 0, 1);
    let mut r = BitReader::new(buf);
    let t = StringTable::parse(&mut r).unwrap();
    assert_eq!(t.name, "things");
    assert_eq!(t.entry_count, 2);
    assert_eq!(t.table_entries.len(), 2);
    assert_eq!(t.table_entries[0].name, "first");
    assert_eq!(t.table_entries[1].name, "second");
    assert_eq!(t.class_count, 0);
}

#[test]
fn light_style_maps_pattern_letters() {
    let mut buf = Vec::new();
    let mut p = 0;
    put_cstr(&mut buf, &mut p, "abz");
    let mut r = BitReader::new(buf);
    let ls = LightStyle::parse(&mut r).unwrap();
    assert_eq!(ls.values, vec![0, 22, (25 * 22 % 256) as u8]);
}

#[test]
fn precache_entry_data_flags() {
    let mut r = BitReader::new(vec![0b11]);
    let d = PrecacheData::parse(&mut r).unwrap();
    assert_eq!(d.flags, 3);
}

#[test]
fn unknown_table_entry_payload_is_skipped() {
    // Entry payload for a table with no known layout: presence bit set,
    // 16-bit byte length 2, then two payload bytes.
    let mut buf = Vec::new();
    let mut p = 0;
    put_cstr(&mut buf, &mut p, "e");
    put_bits(&mut buf, &mut p, 1, 1);
    put_bits(&mut buf, &mut p, 2, 16);
    put_bits(&mut buf, &mut p, 0xBEEF, 16);
    let mut r = BitReader::new(buf);
    let mut entry = StringTableEntry::new();
    let table_name = "mystery".to_string();
    entry.parse(&mut r, &table_name).unwrap();
    assert_eq!(entry.name, "e");
    assert_eq!(r.pos, 16 + 1 + 16 + 16);
}

#[test]
fn prefetch_resolves_name_through_sound_table() {
    let mut table = StringTable::new();
    table.name = "soundprecache".to_string();
    let mut e = StringTableEntry::new();
    e.name = "weapons/portalgun.wav".to_string();
    table.table_entries.push(e);
    let mut mgr = DataManager::new();
    mgr.network_protocol = 15;
    mgr.stringtables.push(table);
    let mut buf = Vec::new();
    let mut p = 0;
    put_bits(&mut buf, &mut p, 0, 13);
    let mut r = BitReader::new(buf);
    let m = SvcPrefetch::parse(&mut r, &mgr).unwrap();
    assert_eq!(m.sound_index, 0);
    assert_eq!(m.sound_name, "weapons/portalgun.wav");
}

#[test]
fn update_string_table_skips_declared_bits() {
    let mut buf = Vec::new();
    let mut p = 0;
    put_bits(&mut buf, &mut p, 3, 5);
    put_bits(&mut buf, &mut p, 0, 1);
    put_bits(&mut buf, &mut p, 12, 20);
    put_bits(&mut buf, &mut p, 0, 12);
    let mut r = BitReader::new(buf);
    let m = SvcUpdateStringTable::parse(&mut r).unwrap();
    assert_eq!(m.table_id, 3);
    assert_eq!(m.num_changed_entries, 1);
    assert_eq!(m.length, 12);
    assert_eq!(r.pos, 5 + 1 + 20 + 12);
}

#[test]
fn string_table_packet_records_tables_for_prefetch() {
    // A string-table packet in full-decode mode: one table named
    // soundprecache with one entry, then a prefetch message that resolves
    // index 0 through the recorded table.
    let mut body = Vec::new();
    let mut p = 0;
    // Body region: count byte + table.
    let mut region = Vec::new();
    let mut rp = 0;
    put_bits(&mut region, &mut rp, 1, 8); // one table
    put_cstr(&mut region, &mut rp, "soundprecache");
    put_bits(&mut region, &mut rp, 1, 16); // one entry
    put_cstr(&mut region, &mut rp, "common/null.wav");
    put_bits(&mut region, &mut rp, 0, 1); // no entry payload
    put_bits(&mut region, &mut rp, 0, 1); // no classes
    while region.len() * 8 > rp {
        put_bits(&mut region, &mut rp, 0, 1);
    }
    put_bits(&mut body, &mut p, region.len() as u64, 32);
    for b in &region {
        put_bits(&mut body, &mut p, *b as u64, 8);
    }
    let mut mgr = iipdp::data_manager::DataManager::new();
    mgr.network_protocol = 15;
    mgr.dumping = true;
    let mut r = iipdp::bitreader::BitReader::new(body);
    let data = iipdp::parser::read_packet_data(
        &mut r,
        iipdp::packet::PacketType::StringTables,
        &mut mgr,
        0,
    )
    .unwrap();
    let st = data.as_string_tables().unwrap();
    assert_eq!(st.table_count, 1);
    assert_eq!(st.tables[0].name, "soundprecache");
    assert_eq!(mgr.stringtables.len(), 1);
    assert_eq!(mgr.stringtables[0].table_entries[0].name, "common/null.wav");

    let mut pb = Vec::new();
    let mut pp = 0;
    put_bits(&mut pb, &mut pp, 0, 13);
    let mut pr = iipdp::bitreader::BitReader::new(pb);
    let m = SvcPrefetch::parse(&mut pr, &mgr).unwrap();
    assert_eq!(m.sound_name, "common/null.wav");
}

#[test]
fn unknown_protocol_still_gets_default_widths() {
    let mut mgr = iipdp::data_manager::DataManager::new();
    let mut h = iipdp::demo_header::DemoHeader::new();
    h.network_protocol = 99;
    mgr.get_info_from_header(&h);
    assert_eq!(mgr.net_svc_type_bits, 6);
    assert_eq!(mgr.send_prop_amount_of_bits_to_get_num_bits, 7);
}
