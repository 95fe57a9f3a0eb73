//! The packet framer: the top-level loop over the stream body.
//!
//! Each iteration reads a kind byte and a tick (4 bytes, or 3 for the
//! terminal kind), decodes the kind's body, and stops after the terminal
//! packet.  Every body either decodes fully or is skipped over its declared
//! length, so the cursor position after a packet depends only on the buffer
//! and the packet kind, never on the decode mode.

use vstd::prelude::*;
use crate::DecodeError;
use crate::bitreader::{BitReader, bits_ok, fixed_str_at, int_at};
use crate::cmd_info::{vec3_pinned, CmdInfo};
use crate::data_manager::DataManager;
use crate::demo::Demo;
use crate::net_svc_message;
use crate::packet::{Packet, PacketDataType, PacketType};
use crate::packet_data_types::{
    ConsoleCmd, DataTables, PP, Stop, StringTables, SyncTick, UserCmd,
};
use crate::send_table::SendTable;
use crate::stringtable::StringTable;
use crate::user_cmd_info::UserCmdInfo;
use crate::utils::{self, ServerClass};

verus! {

/// How many bits a packet body (everything after the kind byte and tick)
/// occupies, as a function of the buffer, the position just after the tick,
/// and the kind alone.  The decode mode never enters: a body is skipped or
/// decoded over exactly this many bits either way.
pub open spec fn body_advance(buf: Seq<u8>, p: int, t: PacketType) -> int {
    match t {
        PacketType::SignOn => 704 + 8 * int_at(buf, p + 672, 32),
        PacketType::Packet => 704 + 8 * int_at(buf, p + 672, 32),
        PacketType::ConsoleCmd => 32 + 8 * int_at(buf, p, 32),
        PacketType::UserCmd => 64 + 8 * int_at(buf, p + 32, 32),
        PacketType::DataTables => 32 + 8 * int_at(buf, p, 32),
        PacketType::StringTables => 32 + 8 * int_at(buf, p, 32),
        PacketType::SyncTick => 0,
        PacketType::Stop => 0,
        PacketType::Unknown => 0,
    }
}

/// Skip-mode byte-exactness: the cursor position after a packet body is the
/// same in "skip bodies" and "full decode" modes, because either way it is
/// the position after the tick plus `body_advance`, which depends on the
/// buffer, the position, and the packet kind alone.
pub proof fn lemma_skip_mode_byte_exactness(
    buf: Seq<u8>,
    p: int,
    t: PacketType,
    pos_full_decode: int,
    pos_skip_mode: int,
)
    requires
        pos_full_decode == p + body_advance(buf, p, t),
        pos_skip_mode == p + body_advance(buf, p, t),
    ensures
        pos_full_decode == pos_skip_mode,
{
}

/// The body variant belongs to the packet kind.
pub open spec fn packet_data_matches(t: PacketType, d: PacketDataType) -> bool {
    match t {
        PacketType::SignOn => d is Packet,
        PacketType::Packet => d is Packet,
        PacketType::SyncTick => d is SyncTick,
        PacketType::ConsoleCmd => d is ConsoleCmd,
        PacketType::UserCmd => d is UserCmd,
        PacketType::DataTables => d is DataTables,
        PacketType::Stop => d is Stop,
        PacketType::StringTables => d is StringTables,
        PacketType::Unknown => d is Unknown,
    }
}

/// A full-update body at bit `p` fits the buffer and holds a decodable
/// sub-message run (`msg_run_fits`): the orientation block, the counters
/// and the byte length are readable, the declared region is present, and
/// the message stream inside it decodes under the given protocol context.
pub open spec fn full_update_fits(
    buf: Seq<u8>,
    p: int,
    game: crate::data_manager::Game,
    np: int,
    dp: int,
    width: nat,
) -> bool {
    &&& bits_ok(buf, p, 704)
    &&& int_at(buf, p + 672, 32) >= 0
    &&& bits_ok(buf, p + 704, (8 * int_at(buf, p + 672, 32)) as nat)
    &&& net_svc_message::msg_run_fits(
        buf,
        width,
        p + 704,
        p + 704 + 8 * int_at(buf, p + 672, 32),
        game,
        np,
        dp,
    )
}

/// The body of a packet of kind `t` at bit `p` is decodable in skip mode:
/// a full update satisfies `full_update_fits`, a length-prefixed body
/// declares a nonnegative length whose region is present, and the bodiless
/// kinds always fit.
pub open spec fn body_fits(
    buf: Seq<u8>,
    p: int,
    t: PacketType,
    game: crate::data_manager::Game,
    np: int,
    dp: int,
    width: nat,
) -> bool {
    match t {
        PacketType::SignOn => full_update_fits(buf, p, game, np, dp, width),
        PacketType::Packet => full_update_fits(buf, p, game, np, dp, width),
        PacketType::ConsoleCmd => bits_ok(buf, p, 32) && int_at(buf, p, 32) >= 0 && bits_ok(
            buf,
            p + 32,
            (8 * int_at(buf, p, 32)) as nat,
        ),
        PacketType::DataTables => bits_ok(buf, p, 32) && int_at(buf, p, 32) >= 0 && bits_ok(
            buf,
            p + 32,
            (8 * int_at(buf, p, 32)) as nat,
        ),
        PacketType::StringTables => bits_ok(buf, p, 32) && int_at(buf, p, 32) >= 0 && bits_ok(
            buf,
            p + 32,
            (8 * int_at(buf, p, 32)) as nat,
        ),
        PacketType::UserCmd => bits_ok(buf, p, 64) && int_at(buf, p + 32, 32) >= 0 && bits_ok(
            buf,
            p + 64,
            (8 * int_at(buf, p + 32, 32)) as nat,
        ),
        PacketType::SyncTick => true,
        PacketType::Stop => true,
        PacketType::Unknown => true,
    }
}

/// The stream from bit `pos` holds a decodable packet run in skip mode:
/// each kind byte is readable, every non-terminal packet carries a 4-byte
/// tick and a body that fits (`body_fits`), and the run reaches a terminal
/// kind with its 3-byte tick.  When this holds of a stream decoded in skip
/// mode, the framer is guaranteed to succeed.
pub open spec fn packet_run_fits(
    buf: Seq<u8>,
    pos: int,
    game: crate::data_manager::Game,
    np: int,
    dp: int,
    width: nat,
) -> bool
    decreases (if 8 * buf.len() - pos > 0 {
        8 * buf.len() - pos
    } else {
        0int
    }),
{
    if !bits_ok(buf, pos, 8) {
        false
    } else {
        let t = PacketType::spec_from_int(int_at(buf, pos, 8) as int);
        if t is Stop {
            bits_ok(buf, pos, 32)
        } else {
            &&& bits_ok(buf, pos, 40)
            &&& body_fits(buf, pos + 40, t, game, np, dp, width)
            &&& packet_run_fits(
                buf,
                pos + 40 + body_advance(buf, pos + 40, t),
                game,
                np,
                dp,
                width,
            )
        }
    }
}

/// Decodes a full-update body: the orientation block, two sequence counters,
/// the byte length, and the sub-message stream read from a snapshot cursor
/// while this cursor advances past exactly the declared length.
#[verifier::loop_isolation(false)]
fn parse_full_update(reader: &mut BitReader, demo_data_mgr: &mut DataManager) -> (r: Result<
    PP,
    DecodeError,
>)
    requires
        old(reader).wf(),
        old(demo_data_mgr).wf(),
    ensures
        final(reader).wf(),
        final(reader).buf() == old(reader).buf(),
        final(reader).pos >= old(reader).pos,
        final(demo_data_mgr).wf(),
        final(demo_data_mgr).net_svc_type_bits == old(demo_data_mgr).net_svc_type_bits,
        final(demo_data_mgr).game == old(demo_data_mgr).game,
        final(demo_data_mgr).network_protocol == old(demo_data_mgr).network_protocol,
        final(demo_data_mgr).demo_protocol == old(demo_data_mgr).demo_protocol,
        final(demo_data_mgr).dumping == old(demo_data_mgr).dumping,
        full_update_fits(
            old(reader).buf(),
            old(reader).pos as int,
            old(demo_data_mgr).game,
            old(demo_data_mgr).network_protocol as int,
            old(demo_data_mgr).demo_protocol as int,
            old(demo_data_mgr).net_svc_type_bits as nat,
        ) ==> r is Ok,
        r matches Ok(pp) ==> ({
            let buf = old(reader).buf();
            let p = old(reader).pos as int;
            &&& bits_ok(buf, p, 704)
            &&& pp.cmd_info.flags == int_at(buf, p, 32)
            &&& vec3_pinned(pp.cmd_info.view_origin, buf, p + 32)
            &&& vec3_pinned(pp.cmd_info.view_angles, buf, p + 128)
            &&& vec3_pinned(pp.cmd_info.local_view_angles, buf, p + 224)
            &&& vec3_pinned(pp.cmd_info.view_origin2, buf, p + 320)
            &&& vec3_pinned(pp.cmd_info.view_angles2, buf, p + 416)
            &&& vec3_pinned(pp.cmd_info.local_view_angles2, buf, p + 512)
            &&& pp.in_sequence == int_at(buf, p + 608, 32)
            &&& pp.out_sequence == int_at(buf, p + 640, 32)
            &&& pp.size == int_at(buf, p + 672, 32)
            &&& pp.size >= 0
            &&& final(reader).pos == p + 704 + 8 * pp.size
        }),
        r matches Err(e) ==> (e == DecodeError::BufferExhausted || e
            == DecodeError::UnknownVariant),
{
    let cmd_info = CmdInfo::parse(reader)?;
    let in_sequence = reader.read_int(32)?;
    let out_sequence = reader.read_int(32)?;
    let size = reader.read_int(32)?;
    if size < 0 {
        return Err(DecodeError::BufferExhausted);
    }
    let rem: usize = reader.bits.len() * 8 - reader.pos;
    if size as u64 > (rem as u64) / 8 {
        return Err(DecodeError::BufferExhausted);
    }
    let mut sub = reader.split_and_skip((size as usize) * 8)?;
    let messages = net_svc_message::parse(&mut sub, demo_data_mgr, size)?;
    match net_svc_message::check_for_pause(&messages) {
        Some(paused) => {
            demo_data_mgr.paused = paused;
        },
        None => {},
    }
    Ok(PP { cmd_info, in_sequence, out_sequence, size, messages })
}

/// Decodes a console-command body: a byte length, then that many bytes of
/// NUL-padded command text.
fn parse_console_cmd(reader: &mut BitReader) -> (r: Result<ConsoleCmd, DecodeError>)
    requires
        old(reader).wf(),
    ensures
        final(reader).wf(),
        final(reader).buf() == old(reader).buf(),
        final(reader).pos >= old(reader).pos,
        ({
            let buf = old(reader).buf();
            let p = old(reader).pos as int;
            r is Ok <==> bits_ok(buf, p, 32) && int_at(buf, p, 32) >= 0 && bits_ok(
                buf,
                p + 32,
                (8 * int_at(buf, p, 32)) as nat,
            )
        }),
        r matches Ok(cc) ==> ({
            let buf = old(reader).buf();
            let p = old(reader).pos as int;
            &&& cc.size == int_at(buf, p, 32)
            &&& cc.data@ == fixed_str_at(buf, p + 32, cc.size as nat)
            &&& final(reader).pos == p + 32 + 8 * cc.size
        }),
        r is Err ==> r == Err::<ConsoleCmd, DecodeError>(DecodeError::BufferExhausted),
{
    let size = reader.read_int(32)?;
    if size < 0 {
        return Err(DecodeError::BufferExhausted);
    }
    let rem: usize = reader.bits.len() * 8 - reader.pos;
    if size as u64 > (rem as u64) / 8 {
        return Err(DecodeError::BufferExhausted);
    }
    let data = reader.read_ascii_string((size as usize) * 8)?;
    proof {
        assert(8 * ((8 * size) / 8) == 8 * size);
    }
    Ok(ConsoleCmd { size, data })
}

/// Decodes a schema-table body.  In full-decode mode the declared tables and
/// class bindings are read from a snapshot cursor; either way this cursor
/// advances past exactly the declared length.
#[verifier::loop_isolation(false)]
fn parse_data_tables(reader: &mut BitReader, demo_data_mgr: &DataManager) -> (r: Result<
    DataTables,
    DecodeError,
>)
    requires
        old(reader).wf(),
        demo_data_mgr.wf(),
    ensures
        final(reader).wf(),
        final(reader).buf() == old(reader).buf(),
        final(reader).pos >= old(reader).pos,
        !demo_data_mgr.dumping ==> ({
            let buf = old(reader).buf();
            let p = old(reader).pos as int;
            r is Ok <==> bits_ok(buf, p, 32) && int_at(buf, p, 32) >= 0 && bits_ok(
                buf,
                p + 32,
                (8 * int_at(buf, p, 32)) as nat,
            )
        }),
        r matches Ok(d) ==> ({
            let buf = old(reader).buf();
            let p = old(reader).pos as int;
            &&& d.size == int_at(buf, p, 32)
            &&& d.size >= 0
            &&& final(reader).pos == p + 32 + 8 * d.size
        }),
        r matches Err(e) ==> (e == DecodeError::BufferExhausted || e
            == DecodeError::UnknownVariant),
{
    let ghost buf = reader.bits@;
    let size = reader.read_int(32)?;
    if size < 0 {
        return Err(DecodeError::BufferExhausted);
    }
    let rem: usize = reader.bits.len() * 8 - reader.pos;
    if size as u64 > (rem as u64) / 8 {
        return Err(DecodeError::BufferExhausted);
    }
    let mut sub = reader.split_and_skip((size as usize) * 8)?;
    let mut send_tables: Vec<SendTable> = Vec::new();
    let mut server_classes: Vec<ServerClass> = Vec::new();
    let mut class_count: i32 = 0;
    if demo_data_mgr.dumping {
        while sub.read_bool()?
            invariant
                sub.wf(),
                sub.buf() == buf,
            decreases sub.bit_len() - sub.pos,
        {
            let table = SendTable::parse(&mut sub, demo_data_mgr)?;
            send_tables.push(table);
        }
        let ghost ccpos = sub.pos as int;
        class_count = sub.read_int(16)?;
        proof {
            crate::bitreader::lemma_int_at_small(buf, ccpos, 16);
        }
        let id_bits: usize = if demo_data_mgr.server_class_info.len() == 0 {
            16
        } else {
            let b = utils::log2_of_x_plus_one(demo_data_mgr.server_class_info.len() as i32);
            if b < 1 {
                1
            } else {
                b as usize
            }
        };
        let mut i: i32 = 0;
        let count = class_count;
        while i < count
            invariant
                sub.wf(),
                sub.buf() == buf,
                0 <= count,
                1 <= id_bits <= 32,
            decreases count - i,
        {
            let datatable_id = sub.read_int(id_bits)?;
            let class_name = sub.read_ascii_string_nulled()?;
            let data_table_name = sub.read_ascii_string_nulled()?;
            server_classes.push(ServerClass { datatable_id, class_name, data_table_name });
            i = i + 1;
        }
    }
    let send_table_count: i32 = if send_tables.len() <= i32::MAX as usize {
        send_tables.len() as i32
    } else {
        i32::MAX
    };
    Ok(DataTables { size, send_table_count, send_tables, class_count, server_classes })
}

/// Decodes a string-table body.  In full-decode mode the tables are read
/// from a snapshot cursor and also recorded in the protocol context for
/// later name lookups; either way this cursor advances past exactly the
/// declared length.
#[verifier::loop_isolation(false)]
fn parse_string_tables(reader: &mut BitReader, demo_data_mgr: &mut DataManager) -> (r: Result<
    StringTables,
    DecodeError,
>)
    requires
        old(reader).wf(),
        old(demo_data_mgr).wf(),
    ensures
        final(reader).wf(),
        final(reader).buf() == old(reader).buf(),
        final(reader).pos >= old(reader).pos,
        final(demo_data_mgr).wf(),
        final(demo_data_mgr).net_svc_type_bits == old(demo_data_mgr).net_svc_type_bits,
        final(demo_data_mgr).game == old(demo_data_mgr).game,
        final(demo_data_mgr).network_protocol == old(demo_data_mgr).network_protocol,
        final(demo_data_mgr).demo_protocol == old(demo_data_mgr).demo_protocol,
        final(demo_data_mgr).dumping == old(demo_data_mgr).dumping,
        !old(demo_data_mgr).dumping ==> ({
            let buf = old(reader).buf();
            let p = old(reader).pos as int;
            r is Ok <==> bits_ok(buf, p, 32) && int_at(buf, p, 32) >= 0 && bits_ok(
                buf,
                p + 32,
                (8 * int_at(buf, p, 32)) as nat,
            )
        }),
        r matches Ok(d) ==> ({
            let buf = old(reader).buf();
            let p = old(reader).pos as int;
            &&& d.size == int_at(buf, p, 32)
            &&& d.size >= 0
            &&& final(reader).pos == p + 32 + 8 * d.size
        }),
        r is Err ==> r == Err::<StringTables, DecodeError>(DecodeError::BufferExhausted),
{
    let ghost buf = reader.bits@;
    let size = reader.read_int(32)?;
    if size < 0 {
        return Err(DecodeError::BufferExhausted);
    }
    let rem: usize = reader.bits.len() * 8 - reader.pos;
    if size as u64 > (rem as u64) / 8 {
        return Err(DecodeError::BufferExhausted);
    }
    let mut sub = reader.split_and_skip((size as usize) * 8)?;
    let mut table_count: i32 = 0;
    let mut tables: Vec<StringTable> = Vec::new();
    if demo_data_mgr.dumping {
        let ghost tcpos = sub.pos as int;
        table_count = sub.read_int(8)?;
        proof {
            crate::bitreader::lemma_int_at_small(buf, tcpos, 8);
        }
        let count = table_count;
        let mut i: i32 = 0;
        while i < count
            invariant
                sub.wf(),
                sub.buf() == buf,
                demo_data_mgr.wf(),
                demo_data_mgr.net_svc_type_bits == old(demo_data_mgr).net_svc_type_bits,
                demo_data_mgr.game == old(demo_data_mgr).game,
                demo_data_mgr.network_protocol == old(demo_data_mgr).network_protocol,
                demo_data_mgr.demo_protocol == old(demo_data_mgr).demo_protocol,
                demo_data_mgr.dumping == old(demo_data_mgr).dumping,
                0 <= count,
            decreases count - i,
        {
            let table = StringTable::parse(&mut sub)?;
            demo_data_mgr.stringtables.push(crate::stringtable::clone_table(&table));
            tables.push(table);
            i = i + 1;
        }
    }
    Ok(StringTables { size, table_count, tables })
}

/// Decodes a per-tick user-input body: a command id, a byte length, and, in
/// full-decode mode, the conditional input fields read from a snapshot
/// cursor; either way this cursor advances past exactly the declared length.
fn parse_user_cmd(reader: &mut BitReader, demo_data_mgr: &DataManager) -> (r: Result<
    UserCmd,
    DecodeError,
>)
    requires
        old(reader).wf(),
    ensures
        final(reader).wf(),
        final(reader).buf() == old(reader).buf(),
        final(reader).pos >= old(reader).pos,
        !demo_data_mgr.dumping ==> ({
            let buf = old(reader).buf();
            let p = old(reader).pos as int;
            r is Ok <==> bits_ok(buf, p, 64) && int_at(buf, p + 32, 32) >= 0 && bits_ok(
                buf,
                p + 64,
                (8 * int_at(buf, p + 32, 32)) as nat,
            )
        }),
        r matches Ok(uc) ==> ({
            let buf = old(reader).buf();
            let p = old(reader).pos as int;
            &&& uc.cmd == int_at(buf, p, 32)
            &&& uc.size == int_at(buf, p + 32, 32)
            &&& uc.size >= 0
            &&& final(reader).pos == p + 64 + 8 * uc.size
        }),
        r is Err ==> r == Err::<UserCmd, DecodeError>(DecodeError::BufferExhausted),
{
    let cmd = reader.read_int(32)?;
    let size = reader.read_int(32)?;
    if size < 0 {
        return Err(DecodeError::BufferExhausted);
    }
    let rem: usize = reader.bits.len() * 8 - reader.pos;
    if size as u64 > (rem as u64) / 8 {
        return Err(DecodeError::BufferExhausted);
    }
    let mut sub = reader.split_and_skip((size as usize) * 8)?;
    let data: UserCmdInfo;
    if demo_data_mgr.dumping {
        data = UserCmdInfo::parse(&mut sub)?;
    } else {
        data = UserCmdInfo::new();
    }
    Ok(UserCmd { cmd, size, data })
}

/// Decodes the body of one packet of kind `packet_type`, the cursor standing
/// just after the tick.  On success the returned variant matches the kind,
/// its prefix fields equal the decoded region, and the cursor has advanced
/// by exactly `body_advance`, whatever the decode mode.  `cur_tick` is the
/// packet's tick; decoding never depends on it, and it is threaded through
/// only so callers layering tick policies over the stream see it beside the
/// body.
#[verifier::rlimit(60)]
pub fn read_packet_data(
    reader: &mut BitReader,
    packet_type: PacketType,
    demo_data_mgr: &mut DataManager,
    _cur_tick: i32,
) -> (r: Result<PacketDataType, DecodeError>)
    requires
        old(reader).wf(),
        old(demo_data_mgr).wf(),
    ensures
        final(reader).wf(),
        final(reader).buf() == old(reader).buf(),
        final(reader).pos >= old(reader).pos,
        final(demo_data_mgr).wf(),
        final(demo_data_mgr).net_svc_type_bits == old(demo_data_mgr).net_svc_type_bits,
        final(demo_data_mgr).game == old(demo_data_mgr).game,
        final(demo_data_mgr).network_protocol == old(demo_data_mgr).network_protocol,
        final(demo_data_mgr).demo_protocol == old(demo_data_mgr).demo_protocol,
        final(demo_data_mgr).dumping == old(demo_data_mgr).dumping,
        (!old(demo_data_mgr).dumping && body_fits(
            old(reader).buf(),
            old(reader).pos as int,
            packet_type,
            old(demo_data_mgr).game,
            old(demo_data_mgr).network_protocol as int,
            old(demo_data_mgr).demo_protocol as int,
            old(demo_data_mgr).net_svc_type_bits as nat,
        )) ==> r is Ok,
        r is Ok ==> final(reader).pos == old(reader).pos + body_advance(
            old(reader).buf(),
            old(reader).pos as int,
            packet_type,
        ),
        r matches Ok(d) ==> packet_data_matches(packet_type, d),
        (packet_type is SyncTick || packet_type is Stop || packet_type is Unknown) ==> r is Ok,
        packet_type is ConsoleCmd ==> ({
            let buf = old(reader).buf();
            let p = old(reader).pos as int;
            &&& (r is Ok <==> bits_ok(buf, p, 32) && int_at(buf, p, 32) >= 0 && bits_ok(
                buf,
                p + 32,
                (8 * int_at(buf, p, 32)) as nat,
            ))
            &&& (r matches Ok(d) ==> (d matches PacketDataType::ConsoleCmd(cc) && cc.size
                == int_at(buf, p, 32) && cc.data@ == fixed_str_at(buf, p + 32, cc.size as nat)))
        }),
        (packet_type is Packet || packet_type is SignOn) ==> (r matches Ok(d) ==> (d matches
            PacketDataType::Packet(pp) && pp.in_sequence == int_at(
            old(reader).buf(),
            old(reader).pos as int + 608,
            32,
        ) && pp.out_sequence == int_at(old(reader).buf(), old(reader).pos as int + 640, 32)
            && pp.size == int_at(old(reader).buf(), old(reader).pos as int + 672, 32))),
        packet_type is UserCmd ==> (r matches Ok(d) ==> (d matches PacketDataType::UserCmd(uc)
            && uc.cmd == int_at(old(reader).buf(), old(reader).pos as int, 32) && uc.size
            == int_at(old(reader).buf(), old(reader).pos as int + 32, 32))),
        !old(demo_data_mgr).dumping && packet_type is UserCmd ==> ({
            let buf = old(reader).buf();
            let p = old(reader).pos as int;
            r is Ok <==> bits_ok(buf, p, 64) && int_at(buf, p + 32, 32) >= 0 && bits_ok(
                buf,
                p + 64,
                (8 * int_at(buf, p + 32, 32)) as nat,
            )
        }),
        !old(demo_data_mgr).dumping && (packet_type is DataTables || packet_type
            is StringTables) ==> ({
            let buf = old(reader).buf();
            let p = old(reader).pos as int;
            r is Ok <==> bits_ok(buf, p, 32) && int_at(buf, p, 32) >= 0 && bits_ok(
                buf,
                p + 32,
                (8 * int_at(buf, p, 32)) as nat,
            )
        }),
        r matches Err(e) ==> (e == DecodeError::BufferExhausted || e
            == DecodeError::UnknownVariant),
{
    match packet_type {
        PacketType::Packet | PacketType::SignOn => {
            let data = parse_full_update(reader, demo_data_mgr)?;
            Ok(PacketDataType::Packet(data))
        },
        PacketType::ConsoleCmd => {
            let data = parse_console_cmd(reader)?;
            Ok(PacketDataType::ConsoleCmd(data))
        },
        PacketType::DataTables => {
            let data = parse_data_tables(reader, demo_data_mgr)?;
            Ok(PacketDataType::DataTables(data))
        },
        PacketType::Stop => Ok(PacketDataType::Stop(Stop)),
        PacketType::StringTables => {
            let data = parse_string_tables(reader, demo_data_mgr)?;
            Ok(PacketDataType::StringTables(data))
        },
        PacketType::SyncTick => Ok(PacketDataType::SyncTick(SyncTick)),
        PacketType::Unknown => Ok(PacketDataType::Unknown),
        PacketType::UserCmd => {
            let data = parse_user_cmd(reader, demo_data_mgr)?;
            Ok(PacketDataType::UserCmd(data))
        },
    }
}

/// `pk` with `endp` is exactly the packet run the stream holds from bit
/// `pos` on: each element's kind byte stands where the previous packet
/// ended, a non-terminal kind is followed by a 4-byte tick and a body of
/// exactly `body_advance` bits, and the run closes with the terminal kind
/// and its 3-byte tick ending at bit `endp`.
pub open spec fn packet_seq_at(
    buf: Seq<u8>,
    pos: int,
    pk: Seq<(PacketType, i32)>,
    endp: int,
) -> bool
    decreases pk.len(),
{
    if pk.len() == 0 {
        false
    } else if pk.len() == 1 {
        &&& bits_ok(buf, pos, 32)
        &&& PacketType::spec_from_int(int_at(buf, pos, 8) as int) is Stop
        &&& pk[0].0 is Stop
        &&& pk[0].1 == int_at(buf, pos + 8, 24)
        &&& endp == pos + 32
    } else {
        let t = PacketType::spec_from_int(int_at(buf, pos, 8) as int);
        &&& bits_ok(buf, pos, 8)
        &&& !(t is Stop)
        &&& pk[0].0 == t
        &&& pk[0].1 == int_at(buf, pos + 8, 32)
        &&& packet_seq_at(buf, pos + 40 + body_advance(buf, pos + 40, t), pk.skip(1), endp)
    }
}

/// Drives the framer until the terminal packet: reads a kind byte, then a
/// 4-byte tick (or the terminal kind's 3-byte tick), decodes the body, and
/// collects the packet.
///
/// On success the returned run is exactly the one the buffer holds from the
/// starting position (`packet_seq_at`): kinds and ticks pinned at successive
/// positions, bodies spanning exactly their `body_advance`, and the single
/// terminal packet closing the run at the final cursor position.  A stream
/// holding no such run — in particular one that ends before its terminal
/// packet — can therefore never return `Ok`.
#[verifier::loop_isolation(false)]
pub fn get_packets(reader: &mut BitReader, demo: &mut Demo) -> (r: Result<Vec<Packet>, DecodeError>)
    requires
        old(reader).wf(),
        old(demo).data_manager.wf(),
    ensures
        final(reader).wf(),
        final(reader).buf() == old(reader).buf(),
        final(demo).data_manager.wf(),
        r matches Ok(v) ==> ({
            &&& v@.len() >= 1
            &&& v@[v@.len() - 1].packet_type is Stop
            &&& forall|i: int| 0 <= i < v@.len() - 1 ==> !((#[trigger] v@[i]).packet_type is Stop)
            &&& forall|i: int|
                0 <= i < v@.len() ==> packet_data_matches(
                    (#[trigger] v@[i]).packet_type,
                    v@[i].data,
                )
            &&& packet_seq_at(
                old(reader).buf(),
                old(reader).pos as int,
                v@.map_values(|pk: Packet| (pk.packet_type, pk.tick)),
                final(reader).pos as int,
            )
        }),
        r matches Err(e) ==> (e == DecodeError::BufferExhausted || e
            == DecodeError::UnknownVariant),
        (!old(demo).data_manager.dumping && packet_run_fits(
            old(reader).buf(),
            old(reader).pos as int,
            old(demo).data_manager.game,
            old(demo).data_manager.network_protocol as int,
            old(demo).data_manager.demo_protocol as int,
            old(demo).data_manager.net_svc_type_bits as nat,
        )) ==> r is Ok,
{
    let ghost buf = reader.bits@;
    let ghost p0 = reader.pos as int;
    let ghost g0 = demo.data_manager.game;
    let ghost np0 = demo.data_manager.network_protocol as int;
    let ghost dp0 = demo.data_manager.demo_protocol as int;
    let ghost w0 = demo.data_manager.net_svc_type_bits as nat;
    let mut packets: Vec<Packet> = Vec::new();
    loop
        invariant
            reader.wf(),
            reader.bits@ == buf,
            demo.data_manager.wf(),
            demo.data_manager.net_svc_type_bits == old(demo).data_manager.net_svc_type_bits,
            demo.data_manager.game == old(demo).data_manager.game,
            demo.data_manager.network_protocol == old(demo).data_manager.network_protocol,
            demo.data_manager.demo_protocol == old(demo).data_manager.demo_protocol,
            demo.data_manager.dumping == old(demo).data_manager.dumping,
            packet_run_fits(buf, p0, g0, np0, dp0, w0) ==> packet_run_fits(
                buf,
                reader.pos as int,
                g0,
                np0,
                dp0,
                w0,
            ),
            forall|i: int| 0 <= i < packets@.len() ==> !((#[trigger] packets@[i]).packet_type
                is Stop),
            forall|i: int|
                0 <= i < packets@.len() ==> packet_data_matches(
                    (#[trigger] packets@[i]).packet_type,
                    packets@[i].data,
                ),
            forall|rest: Seq<(PacketType, i32)>, endp: int|
                #[trigger] packet_seq_at(buf, reader.pos as int, rest, endp) ==> packet_seq_at(
                    buf,
                    p0,
                    packets@.map_values(|pk: Packet| (pk.packet_type, pk.tick)) + rest,
                    endp,
                ),
        decreases reader.bit_len() - reader.pos,
    {
        let ghost cur = reader.pos as int;
        let ghost acc = packets@.map_values(|pk: Packet| (pk.packet_type, pk.tick));
        let packet_type_raw = reader.read_int(8)?;
        let packet_type = PacketType::from_int(packet_type_raw);
        proof {
            crate::bitreader::lemma_int_at_small(buf, cur, 8);
        }
        if !matches!(packet_type, PacketType::Stop) {
            let tick = reader.read_int(32)?;
            if tick > 0 {
                demo.data_manager.last_packet_tick = tick;
            }
            let data = read_packet_data(reader, packet_type, &mut demo.data_manager, tick)?;
            packets.push(Packet { packet_type, tick, slot: None, data });
            proof {
                if packet_run_fits(buf, p0, g0, np0, dp0, w0) {
                    assert(packet_run_fits(buf, cur, g0, np0, dp0, w0));
                    assert(reader.pos as int == cur + 40 + body_advance(buf, cur + 40, packet_type));
                    assert(packet_run_fits(buf, reader.pos as int, g0, np0, dp0, w0));
                }
                let acc2 = packets@.map_values(|pk: Packet| (pk.packet_type, pk.tick));
                assert(acc2 =~= acc + seq![(packet_type, tick)]);
                assert forall|rest: Seq<(PacketType, i32)>, endp: int|
                    #[trigger] packet_seq_at(buf, reader.pos as int, rest, endp) implies
                    packet_seq_at(buf, p0, acc2 + rest, endp) by {
                    let one = seq![(packet_type, tick)] + rest;
                    assert(one.skip(1) =~= rest);
                    assert(packet_seq_at(buf, cur, one, endp));
                    assert(acc + one =~= acc2 + rest);
                }
            }
        } else {
            let tick = reader.read_int(24)?;
            let data = read_packet_data(reader, packet_type, &mut demo.data_manager, tick)?;
            packets.push(Packet { packet_type, tick, slot: None, data });
            proof {
                let acc2 = packets@.map_values(|pk: Packet| (pk.packet_type, pk.tick));
                let one: Seq<(PacketType, i32)> = seq![(packet_type, tick)];
                assert(acc2 =~= acc + one);
                assert(packet_seq_at(buf, cur, one, reader.pos as int));
            }
            return Ok(packets);
        }
    }
}

} // verus!
