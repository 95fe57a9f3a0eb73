//! The network messages carried inside a full-update packet body, one record
//! type per tag.  Layouts follow the negotiated protocol variant kept in the
//! protocol context; length-prefixed payloads this crate does not interpret
//! are skipped by exactly their declared length.

use vstd::prelude::*;
use crate::DecodeError;
use crate::bitreader::{
    BitReader, after_cstr, bits_ok, bool_at, cstr_at, has_cstr, int_at, uint_at, varint_at,
};
use crate::data_manager::{DataManager, Game};
use crate::user_message::{UserMessage, UserMessageType};
use crate::utils::{
    self, ConVar, FixedPoint, GameEvent, GameEventDescriptor, GameEventKeyTypes, ServerClass,
};

verus! {

impl BitReader {
    /// Reads an `n`-bit angle: the raw value scaled by `360 / 2^n`, kept as
    /// the exact rational `raw * 360 / 2^n`.
    pub fn read_bit_angle(&mut self, n: usize) -> (r: Result<FixedPoint, DecodeError>)
        requires
            old(self).wf(),
            1 <= n <= 16,
        ensures
            final(self).wf(),
            final(self).buf() == old(self).buf(),
            match r {
                Ok(v) => {
                    &&& bits_ok(old(self).buf(), old(self).pos as int, n as nat)
                    &&& final(self).pos == old(self).pos + n
                    &&& v.numer == uint_at(old(self).buf(), old(self).pos as int, n as nat) * 360
                    &&& v.denom as nat == vstd::arithmetic::power2::pow2(n as nat)
                },
                Err(e) => {
                    &&& e == DecodeError::BufferExhausted
                    &&& !bits_ok(old(self).buf(), old(self).pos as int, n as nat)
                    &&& final(self).pos == old(self).pos
                },
            },
    {
        let raw = self.read_bits(n)?;
        proof {
            if n < 16 {
                vstd::arithmetic::power2::lemma_pow2_strictly_increases(n as nat, 16);
            }
            vstd::arithmetic::power2::lemma2_to64();
            crate::utils::lemma_shift_u32_pow2(n as nat);
        }
        let denom: u32 = 1u32 << (n as u32);
        let numer: i32 = (raw as i32) * 360;
        Ok(FixedPoint { numer, denom })
    }
}

/// Carries no data.
#[derive(Clone, Debug)]
pub struct NetNop;

/// A disconnect notice with its reason text.
#[derive(Clone, Debug)]
pub struct NetDisconnect {
    pub text: String,
}

impl NetDisconnect {
    pub fn parse(reader: &mut BitReader) -> (r: Result<Self, DecodeError>)
        requires
            old(reader).wf(),
        ensures
            final(reader).wf(),
            final(reader).buf() == old(reader).buf(),
            final(reader).pos >= old(reader).pos,
            r is Ok <==> has_cstr(old(reader).buf(), old(reader).pos as int),
            r matches Ok(m) ==> m.text@ == cstr_at(old(reader).buf(), old(reader).pos as int)
                && final(reader).pos == after_cstr(old(reader).buf(), old(reader).pos as int),
            r is Err ==> r == Err::<Self, DecodeError>(DecodeError::BufferExhausted),
    {
        Ok(Self { text: reader.read_ascii_string_nulled()? })
    }
}

/// A file-transfer request or acknowledgement.
#[derive(Clone, Debug)]
pub struct NetFile {
    pub transfer_id: i32,
    pub filename: String,
    pub file_requested: bool,
}

impl NetFile {
    pub fn parse(reader: &mut BitReader) -> (r: Result<Self, DecodeError>)
        requires
            old(reader).wf(),
        ensures
            final(reader).wf(),
            final(reader).buf() == old(reader).buf(),
            final(reader).pos >= old(reader).pos,
            ({
                let buf = old(reader).buf();
                let p = old(reader).pos as int;
                let q = after_cstr(buf, p + 32);
                &&& (r is Ok <==> bits_ok(buf, p, 32) && has_cstr(buf, p + 32) && bits_ok(buf, q, 1))
                &&& (r matches Ok(m) ==> {
                    &&& m.transfer_id == int_at(buf, p, 32)
                    &&& m.filename@ == cstr_at(buf, p + 32)
                    &&& m.file_requested == bool_at(buf, q)
                    &&& final(reader).pos == q + 1
                })
                &&& (r is Err ==> r == Err::<Self, DecodeError>(DecodeError::BufferExhausted))
            }),
    {
        let transfer_id = reader.read_int(32)?;
        let filename = reader.read_ascii_string_nulled()?;
        let file_requested = reader.read_bool()?;
        Ok(Self { transfer_id, filename, file_requested })
    }
}

/// The split-screen user toggle.
#[derive(Clone, Debug)]
pub struct NetSplitScreenUser {
    pub unknown: bool,
}

impl NetSplitScreenUser {
    pub fn parse(reader: &mut BitReader) -> (r: Result<Self, DecodeError>)
        requires
            old(reader).wf(),
        ensures
            final(reader).wf(),
            final(reader).buf() == old(reader).buf(),
            final(reader).pos >= old(reader).pos,
            r is Ok <==> bits_ok(old(reader).buf(), old(reader).pos as int, 1),
            r matches Ok(m) ==> m.unknown == bool_at(old(reader).buf(), old(reader).pos as int)
                && final(reader).pos == old(reader).pos + 1,
            r is Err ==> r == Err::<Self, DecodeError>(DecodeError::BufferExhausted),
    {
        Ok(Self { unknown: reader.read_bool()? })
    }
}

/// The server tick and its frame-time statistics (in hundredths of a
/// millisecond).
#[derive(Clone, Debug)]
pub struct NetTick {
    pub tick: i32,
    pub host_frame_time: i32,
    pub host_frame_time_standard_deviation: i32,
}

impl NetTick {
    pub fn parse(reader: &mut BitReader) -> (r: Result<Self, DecodeError>)
        requires
            old(reader).wf(),
        ensures
            final(reader).wf(),
            final(reader).buf() == old(reader).buf(),
            final(reader).pos >= old(reader).pos,
            r is Ok <==> bits_ok(old(reader).buf(), old(reader).pos as int, 64),
            r matches Ok(m) ==> ({
                let buf = old(reader).buf();
                let p = old(reader).pos as int;
                &&& m.tick == int_at(buf, p, 32)
                &&& m.host_frame_time == int_at(buf, p + 32, 16)
                &&& m.host_frame_time_standard_deviation == int_at(buf, p + 48, 16)
                &&& final(reader).pos == old(reader).pos + 64
            }),
            r is Err ==> r == Err::<Self, DecodeError>(DecodeError::BufferExhausted),
    {
        let tick = reader.read_int(32)?;
        let host_frame_time = reader.read_int(16)?;
        let host_frame_time_standard_deviation = reader.read_int(16)?;
        Ok(Self { tick, host_frame_time, host_frame_time_standard_deviation })
    }
}

/// A console command forwarded as a string.
#[derive(Clone, Debug)]
pub struct NetStringCmd {
    pub command: String,
}

impl NetStringCmd {
    pub fn parse(reader: &mut BitReader) -> (r: Result<Self, DecodeError>)
        requires
            old(reader).wf(),
        ensures
            final(reader).wf(),
            final(reader).buf() == old(reader).buf(),
            final(reader).pos >= old(reader).pos,
            r is Ok <==> has_cstr(old(reader).buf(), old(reader).pos as int),
            r matches Ok(m) ==> m.command@ == cstr_at(old(reader).buf(), old(reader).pos as int)
                && final(reader).pos == after_cstr(old(reader).buf(), old(reader).pos as int),
            r is Err ==> r == Err::<Self, DecodeError>(DecodeError::BufferExhausted),
    {
        Ok(Self { command: reader.read_ascii_string_nulled()? })
    }
}

/// A batch of console-variable assignments.
#[derive(Clone, Debug)]
pub struct NetSetConVar {
    pub length: i32,
    pub convars: Vec<ConVar>,
}

impl NetSetConVar {
    /// Reads an 8-bit pair count, then that many name/value string pairs.
    #[verifier::loop_isolation(false)]
    #[verifier::rlimit(60)]
    pub fn parse(reader: &mut BitReader) -> (r: Result<Self, DecodeError>)
        requires
            old(reader).wf(),
        ensures
            final(reader).wf(),
            final(reader).buf() == old(reader).buf(),
            final(reader).pos >= old(reader).pos,
            r is Ok <==> (bits_ok(old(reader).buf(), old(reader).pos as int, 8)
                && utils::cstr_pairs_exist(
                old(reader).buf(),
                old(reader).pos as int + 8,
                uint_at(old(reader).buf(), old(reader).pos as int, 8),
            )),
            r matches Ok(m) ==> ({
                let buf = old(reader).buf();
                let p = old(reader).pos as int;
                &&& bits_ok(buf, p, 8)
                &&& m.length == int_at(buf, p, 8)
                &&& m.convars@.len() == m.length
                &&& utils::cstr_pairs_at(
                    buf,
                    p + 8,
                    m.length as nat,
                    m.convars@.map_values(|c: ConVar| (c.convar_name@, c.convar_value@)),
                    final(reader).pos as int,
                )
                &&& final(reader).pos == utils::cstr_pairs_end(buf, p + 8, m.length as nat)
            }),
            r is Err ==> r == Err::<Self, DecodeError>(DecodeError::BufferExhausted),
    {
        let ghost buf = reader.bits@;
        let ghost p = reader.pos as int;
        let length = reader.read_int(8)?;
        proof {
            crate::bitreader::lemma_int_at_small(buf, p, 8);
        }
        let ghost kpos0 = reader.pos as int;
        let mut convars: Vec<ConVar> = Vec::new();
        let mut i: i32 = 0;
        while i < length
            invariant
                reader.wf(),
                reader.bits@ == buf,
                reader.pos >= old(reader).pos,
                0 <= i <= length,
                convars@.len() == i,
                utils::cstr_pairs_exist(buf, kpos0, length as nat) <==> utils::cstr_pairs_exist(
                    buf,
                    reader.pos as int,
                    (length - i) as nat,
                ),
                forall|rest: Seq<(Seq<char>, Seq<char>)>, end: int|
                    #[trigger] utils::cstr_pairs_at(
                        buf,
                        reader.pos as int,
                        (length - i) as nat,
                        rest,
                        end,
                    ) ==> utils::cstr_pairs_at(
                        buf,
                        kpos0,
                        length as nat,
                        convars@.map_values(|c: ConVar| (c.convar_name@, c.convar_value@)) + rest,
                        end,
                    ),
            decreases length - i,
        {
            let ghost cur = reader.pos as int;
            let ghost acc = convars@.map_values(|c: ConVar| (c.convar_name@, c.convar_value@));
            let convar_name = reader.read_ascii_string_nulled()?;
            let convar_value = reader.read_ascii_string_nulled()?;
            let ghost nv = (convar_name@, convar_value@);
            convars.push(ConVar { convar_name, convar_value });
            i = i + 1;
            proof {
                let acc2 = convars@.map_values(|c: ConVar| (c.convar_name@, c.convar_value@));
                assert(acc2 =~= acc + seq![nv]);
                assert forall|rest: Seq<(Seq<char>, Seq<char>)>, end: int|
                    #[trigger] utils::cstr_pairs_at(
                        buf,
                        reader.pos as int,
                        (length - i) as nat,
                        rest,
                        end,
                    ) implies utils::cstr_pairs_at(buf, kpos0, length as nat, acc2 + rest, end) by {
                    let one = seq![nv] + rest;
                    assert(one.skip(1) =~= rest);
                    assert(utils::cstr_pairs_at(buf, cur, (length - i + 1) as nat, one, end));
                    assert(acc + one =~= acc2 + rest);
                }
                if utils::cstr_pairs_exist(buf, cur, (length - i + 1) as nat) {
                    let (kvs0, end0) = choose|kvs0: Seq<(Seq<char>, Seq<char>)>, end0: int|
                        #[trigger] utils::cstr_pairs_at(buf, cur, (length - i + 1) as nat, kvs0, end0);
                    assert(utils::cstr_pairs_at(
                        buf,
                        reader.pos as int,
                        (length - i) as nat,
                        kvs0.skip(1),
                        end0,
                    ));
                }
                if utils::cstr_pairs_exist(buf, reader.pos as int, (length - i) as nat) {
                    let (kvs0, end0) = choose|kvs0: Seq<(Seq<char>, Seq<char>)>, end0: int|
                        #[trigger] utils::cstr_pairs_at(buf, reader.pos as int, (length - i) as nat, kvs0, end0);
                    let one = seq![nv] + kvs0;
                    assert(one.skip(1) =~= kvs0);
                    assert(utils::cstr_pairs_at(buf, cur, (length - i + 1) as nat, one, end0));
                }
            }
        }
        proof {
            let done = Seq::<(Seq<char>, Seq<char>)>::empty();
            assert(utils::cstr_pairs_at(buf, reader.pos as int, 0, done, reader.pos as int));
            assert(convars@.map_values(|c: ConVar| (c.convar_name@, c.convar_value@)) + done
                =~= convars@.map_values(|c: ConVar| (c.convar_name@, c.convar_value@)));
            assert(utils::cstr_pairs_at(
                buf,
                kpos0,
                length as nat,
                convars@.map_values(|c: ConVar| (c.convar_name@, c.convar_value@)),
                reader.pos as int,
            ));
            utils::lemma_cstr_pairs_end(
                buf,
                kpos0,
                length as nat,
                convars@.map_values(|c: ConVar| (c.convar_name@, c.convar_value@)),
                reader.pos as int,
            );
        }
        Ok(Self { length, convars })
    }
}

/// The sign-on handshake state.
#[derive(Clone, Debug)]
pub struct NetSignonState {
    pub signon_state: i32,
    pub spawn_count: i32,
}

impl NetSignonState {
    pub fn parse(reader: &mut BitReader) -> (r: Result<Self, DecodeError>)
        requires
            old(reader).wf(),
        ensures
            final(reader).wf(),
            final(reader).buf() == old(reader).buf(),
            final(reader).pos >= old(reader).pos,
            r is Ok <==> bits_ok(old(reader).buf(), old(reader).pos as int, 40),
            r matches Ok(m) ==> ({
                let buf = old(reader).buf();
                let p = old(reader).pos as int;
                &&& m.signon_state == int_at(buf, p, 8)
                &&& m.spawn_count == int_at(buf, p + 8, 32)
                &&& final(reader).pos == old(reader).pos + 40
            }),
            r is Err ==> r == Err::<Self, DecodeError>(DecodeError::BufferExhausted),
    {
        let signon_state = reader.read_int(8)?;
        let spawn_count = reader.read_int(32)?;
        Ok(Self { signon_state, spawn_count })
    }
}

/// A console print forwarded from the server.
#[derive(Clone, Debug)]
pub struct SvcPrint {
    pub message: String,
}

impl SvcPrint {
    pub fn parse(reader: &mut BitReader) -> (r: Result<Self, DecodeError>)
        requires
            old(reader).wf(),
        ensures
            final(reader).wf(),
            final(reader).buf() == old(reader).buf(),
            final(reader).pos >= old(reader).pos,
            r is Ok <==> has_cstr(old(reader).buf(), old(reader).pos as int),
            r matches Ok(m) ==> m.message@ == cstr_at(old(reader).buf(), old(reader).pos as int)
                && final(reader).pos == after_cstr(old(reader).buf(), old(reader).pos as int),
            r is Err ==> r == Err::<Self, DecodeError>(DecodeError::BufferExhausted),
    {
        Ok(Self { message: reader.read_ascii_string_nulled()? })
    }
}

/// The server-info block sent once per session.  The map checksum is a CRC
/// on older variants and an MD5 digest on the newest; `tick_interval_bits`
/// keeps the raw IEEE-754 pattern.
#[derive(Clone, Debug)]
pub struct SvcServerInfo {
    pub protocol: i32,
    pub server_count: i32,
    pub is_hltv: bool,
    pub is_dedicated: bool,
    pub client_crc: i32,
    pub max_classes: i32,
    pub tick_interval_bits: u32,
    pub map_crc: Option<i32>,
    pub map_md5: Option<Vec<u8>>,
    pub player_slot: i32,
    pub max_clients: i32,
    pub platform: char,
    pub game_dir: String,
    pub map_name: String,
    pub sky_name: String,
    pub host_name: String,
    pub has_replay: Option<bool>,
}

impl SvcServerInfo {
    /// Reads the block; the checksum field and the trailing replay flag
    /// depend on the protocol variant.
    pub fn parse(reader: &mut BitReader, data_mgr: &DataManager) -> (r: Result<Self, DecodeError>)
        requires
            old(reader).wf(),
        ensures
            final(reader).wf(),
            final(reader).buf() == old(reader).buf(),
            final(reader).pos >= old(reader).pos,
            r is Ok <==> ({
                let buf = old(reader).buf();
                let p = old(reader).pos as int;
                let sp = data_mgr.game is PORTAL_1_1910503;
                let c2 = p + 98 + (if sp {
                    128int
                } else {
                    32int
                }) + 56;
                let q1 = after_cstr(buf, c2);
                let q2 = after_cstr(buf, q1);
                let q3 = after_cstr(buf, q2);
                let q4 = after_cstr(buf, q3);
                &&& bits_ok(buf, p, (c2 - p) as nat)
                &&& has_cstr(buf, c2)
                &&& has_cstr(buf, q1)
                &&& has_cstr(buf, q2)
                &&& has_cstr(buf, q3)
                &&& (sp ==> bits_ok(buf, q4, 1))
            }),
            r matches Ok(m) ==> ({
                let buf = old(reader).buf();
                let p = old(reader).pos as int;
                let sp = data_mgr.game is PORTAL_1_1910503;
                let c1 = p + 98 + (if sp {
                    128int
                } else {
                    32int
                });
                let c2 = c1 + 56;
                let q1 = after_cstr(buf, c2);
                let q2 = after_cstr(buf, q1);
                let q3 = after_cstr(buf, q2);
                let q4 = after_cstr(buf, q3);
                &&& m.protocol == int_at(buf, p, 16)
                &&& m.server_count == int_at(buf, p + 16, 32)
                &&& m.is_hltv == bool_at(buf, p + 48)
                &&& m.is_dedicated == bool_at(buf, p + 49)
                &&& m.client_crc == int_at(buf, p + 50, 32)
                &&& m.max_classes == int_at(buf, p + 82, 16)
                &&& (m.map_md5 is Some <==> sp)
                &&& (m.map_md5 matches Some(v) ==> v@ == crate::bitreader::bytes_at(buf, p + 98, 16))
                &&& (m.map_crc is Some <==> !sp)
                &&& (m.map_crc matches Some(x) ==> x == int_at(buf, p + 98, 32))
                &&& m.player_slot == int_at(buf, c1, 8)
                &&& m.max_clients == int_at(buf, c1 + 8, 8)
                &&& m.tick_interval_bits as nat == uint_at(buf, c1 + 16, 32)
                &&& m.platform == ((uint_at(buf, c1 + 48, 8) as u8) as char)
                &&& m.game_dir@ == cstr_at(buf, c2)
                &&& m.map_name@ == cstr_at(buf, q1)
                &&& m.sky_name@ == cstr_at(buf, q2)
                &&& m.host_name@ == cstr_at(buf, q3)
                &&& (m.has_replay is Some <==> sp)
                &&& (m.has_replay matches Some(b) ==> b == bool_at(buf, q4))
                &&& final(reader).pos == q4 + (if sp {
                    1int
                } else {
                    0int
                })
            }),
            r is Err ==> r == Err::<Self, DecodeError>(DecodeError::BufferExhausted),
    {
        let protocol = reader.read_int(16)?;
        let server_count = reader.read_int(32)?;
        let is_hltv = reader.read_bool()?;
        let is_dedicated = reader.read_bool()?;
        let client_crc = reader.read_int(32)?;
        let max_classes = reader.read_int(16)?;
        let mut map_crc: Option<i32> = None;
        let mut map_md5: Option<Vec<u8>> = None;
        let steampipe = matches!(data_mgr.game, Game::PORTAL_1_1910503);
        if steampipe {
            map_md5 = Some(reader.read_bytes(16)?);
        } else {
            map_crc = Some(reader.read_int(32)?);
        }
        let player_slot = reader.read_int(8)?;
        let max_clients = reader.read_int(8)?;
        let tick_interval_bits = reader.read_f32_bits()?;
        let platform_byte = reader.read_bits(8)? as u8;
        let platform = platform_byte as char;
        let game_dir = reader.read_ascii_string_nulled()?;
        let map_name = reader.read_ascii_string_nulled()?;
        let sky_name = reader.read_ascii_string_nulled()?;
        let host_name = reader.read_ascii_string_nulled()?;
        let mut has_replay: Option<bool> = None;
        if steampipe {
            has_replay = Some(reader.read_bool()?);
        }
        Ok(
            Self {
                protocol,
                server_count,
                is_hltv,
                is_dedicated,
                client_crc,
                max_classes,
                tick_interval_bits,
                map_crc,
                map_md5,
                player_slot,
                max_clients,
                platform,
                game_dir,
                map_name,
                sky_name,
                host_name,
                has_replay,
            },
        )
    }
}

/// A schema-table announcement carrying an inline property blob.
#[derive(Clone, Debug)]
pub struct SvcSendTable {
    pub needs_decoder: bool,
    pub length: i32,
    pub props: i32,
}

impl SvcSendTable {
    /// Reads the decoder bit, an 8-bit bit-length, and the low 32 bits of
    /// the prop blob, skipping whatever of the declared length remains.
    pub fn parse(reader: &mut BitReader) -> (r: Result<Self, DecodeError>)
        requires
            old(reader).wf(),
        ensures
            final(reader).wf(),
            final(reader).buf() == old(reader).buf(),
            final(reader).pos >= old(reader).pos,
            r is Ok <==> bits_ok(
                old(reader).buf(),
                old(reader).pos as int,
                (9 + uint_at(old(reader).buf(), old(reader).pos as int + 1, 8)) as nat,
            ),
            r matches Ok(m) ==> ({
                let buf = old(reader).buf();
                let p = old(reader).pos as int;
                &&& m.needs_decoder == bool_at(buf, p)
                &&& m.length == int_at(buf, p + 1, 8)
                &&& (m.length <= 32 ==> m.props == int_at(buf, p + 9, m.length as nat))
                &&& (m.length > 32 ==> m.props == int_at(buf, p + 9, 32))
                &&& final(reader).pos == old(reader).pos + 9 + m.length
            }),
            r is Err ==> r == Err::<Self, DecodeError>(DecodeError::BufferExhausted),
    {
        let ghost buf = reader.bits@;
        let needs_decoder = reader.read_bool()?;
        let ghost lpos = reader.pos as int;
        let length = reader.read_int(8)?;
        proof {
            crate::bitreader::lemma_int_at_small(buf, lpos, 8);
        }
        let props: i32;
        if length <= 32 {
            props = reader.read_int(length as usize)?;
        } else {
            props = reader.read_int(32)?;
            reader.skip((length - 32) as usize)?;
        }
        Ok(Self { needs_decoder, length, props })
    }
}

/// A run of `n` class bindings stands at bit `pos`, each an `idb`-bit id
/// followed by two NUL-terminated names, ending at bit `end`.
pub open spec fn class_run_at(bytes: Seq<u8>, pos: int, idb: int, n: nat, end: int) -> bool
    decreases n,
{
    if n == 0 {
        end == pos
    } else {
        &&& bits_ok(bytes, pos, idb as nat)
        &&& has_cstr(bytes, pos + idb)
        &&& has_cstr(bytes, after_cstr(bytes, pos + idb))
        &&& class_run_at(
            bytes,
            after_cstr(bytes, after_cstr(bytes, pos + idb)),
            idb,
            (n - 1) as nat,
            end,
        )
    }
}

/// The bit position just past a run of `n` class bindings at `pos`.
pub open spec fn class_run_end(bytes: Seq<u8>, pos: int, idb: int, n: nat) -> int
    decreases n,
{
    if n == 0 {
        pos
    } else {
        class_run_end(
            bytes,
            after_cstr(bytes, after_cstr(bytes, pos + idb)),
            idb,
            (n - 1) as nat,
        )
    }
}

/// A class run's recorded end is the functional end position.
pub proof fn lemma_class_run_end(bytes: Seq<u8>, pos: int, idb: int, n: nat, end: int)
    requires
        class_run_at(bytes, pos, idb, n, end),
    ensures
        end == class_run_end(bytes, pos, idb, n),
    decreases n,
{
    if n > 0 {
        lemma_class_run_end(
            bytes,
            after_cstr(bytes, after_cstr(bytes, pos + idb)),
            idb,
            (n - 1) as nat,
            end,
        );
    }
}

/// Some run of `n` class bindings stands at bit `pos`.
pub open spec fn class_run_exists(bytes: Seq<u8>, pos: int, idb: int, n: nat) -> bool {
    exists|end: int| #[trigger] class_run_at(bytes, pos, idb, n, end)
}

/// The class-id-to-table bindings, when they are sent explicitly.
#[derive(Clone, Debug)]
pub struct SvcClassInfo {
    pub length: i32,
    pub create_on_client: bool,
    pub server_classes: Vec<ServerClass>,
}

impl SvcClassInfo {
    /// Reads the class count and, unless the client creates its own
    /// bindings, one `{id, class name, table name}` triple per class; the
    /// decoded list also replaces the protocol context's class catalog.
    #[verifier::loop_isolation(false)]
    pub fn parse(reader: &mut BitReader, data_mgr: &mut DataManager) -> (r: Result<
        Self,
        DecodeError,
    >)
        requires
            old(reader).wf(),
        ensures
            final(reader).wf(),
            final(reader).buf() == old(reader).buf(),
            final(reader).pos >= old(reader).pos,
            final(data_mgr).wf() == old(data_mgr).wf(),
            final(data_mgr).net_svc_type_bits == old(data_mgr).net_svc_type_bits,
            final(data_mgr).send_prop_amount_of_bits_to_get_num_bits == old(
                data_mgr,
            ).send_prop_amount_of_bits_to_get_num_bits,
            final(data_mgr).send_prop_type_list == old(data_mgr).send_prop_type_list,
            final(data_mgr).game == old(data_mgr).game,
            final(data_mgr).network_protocol == old(data_mgr).network_protocol,
            final(data_mgr).demo_protocol == old(data_mgr).demo_protocol,
            final(data_mgr).dumping == old(data_mgr).dumping,
            r is Ok <==> ({
                let buf = old(reader).buf();
                let p = old(reader).pos as int;
                &&& bits_ok(buf, p, 17)
                &&& (!bool_at(buf, p + 16) ==> class_run_exists(
                    buf,
                    p + 17,
                    crate::utils::spec_bit_width(uint_at(buf, p, 16) as int),
                    uint_at(buf, p, 16),
                ))
            }),
            r matches Ok(m) ==> ({
                let buf = old(reader).buf();
                let p = old(reader).pos as int;
                &&& m.length == int_at(buf, p, 16)
                &&& m.create_on_client == bool_at(buf, p + 16)
                &&& (!m.create_on_client ==> m.server_classes@.len() == m.length
                    && final(data_mgr).server_class_info@ == m.server_classes@
                    && final(reader).pos == class_run_end(
                    buf,
                    p + 17,
                    crate::utils::spec_bit_width(uint_at(buf, p, 16) as int),
                    uint_at(buf, p, 16),
                ))
                &&& (m.create_on_client ==> m.server_classes@.len() == 0
                    && final(data_mgr).server_class_info@ == old(data_mgr).server_class_info@
                    && final(reader).pos == p + 17)
            }),
            r is Err ==> r == Err::<Self, DecodeError>(DecodeError::BufferExhausted),
    {
        let ghost buf = reader.bits@;
        let ghost p = reader.pos as int;
        let length = reader.read_int(16)?;
        proof {
            crate::bitreader::lemma_int_at_small(buf, p, 16);
        }
        let create_on_client = reader.read_bool()?;
        let mut server_classes: Vec<ServerClass> = Vec::new();
        if !create_on_client {
            let id_bits = utils::log2_of_x_plus_one(length);
            let ghost idb = id_bits as int;
            let ghost kpos0 = reader.pos as int;
            let mut i: i32 = 0;
            while i < length
                invariant
                    reader.wf(),
                    reader.bits@ == buf,
                    reader.pos >= old(reader).pos,
                    0 <= i <= length,
                    server_classes@.len() == i,
                    0 <= id_bits <= 32,
                    idb == id_bits as int,
                    class_run_end(buf, kpos0, idb, length as nat) == class_run_end(
                        buf,
                        reader.pos as int,
                        idb,
                        (length - i) as nat,
                    ),
                    class_run_exists(buf, kpos0, idb, length as nat) <==> class_run_exists(
                        buf,
                        reader.pos as int,
                        idb,
                        (length - i) as nat,
                    ),
                decreases length - i,
            {
                let ghost cur = reader.pos as int;
                let datatable_id = reader.read_int(id_bits as usize)?;
                let class_name = reader.read_ascii_string_nulled()?;
                let data_table_name = reader.read_ascii_string_nulled()?;
                server_classes.push(ServerClass { datatable_id, class_name, data_table_name });
                i = i + 1;
                proof {
                    if class_run_exists(buf, cur, idb, (length - i + 1) as nat) {
                        let end0 = choose|end0: int|
                            #[trigger] class_run_at(buf, cur, idb, (length - i + 1) as nat, end0);
                        assert(class_run_at(
                            buf,
                            reader.pos as int,
                            idb,
                            (length - i) as nat,
                            end0,
                        ));
                    }
                    if class_run_exists(buf, reader.pos as int, idb, (length - i) as nat) {
                        let end0 = choose|end0: int|
                            #[trigger] class_run_at(
                                buf,
                                reader.pos as int,
                                idb,
                                (length - i) as nat,
                                end0,
                            );
                        assert(class_run_at(buf, cur, idb, (length - i + 1) as nat, end0));
                    }
                }
            }
            proof {
                assert(class_run_at(buf, reader.pos as int, idb, 0, reader.pos as int));
            }
            data_mgr.server_class_info = clone_server_classes(&server_classes);
        }
        Ok(Self { length, create_on_client, server_classes })
    }
}

/// Copies a class list; the copy's contents equal the original's.
fn clone_server_classes(v: &Vec<ServerClass>) -> (r: Vec<ServerClass>)
    ensures
        r@ == v@,
{
    let mut out: Vec<ServerClass> = Vec::new();
    let mut i: usize = 0;
    while i < v.len()
        invariant
            i <= v@.len(),
            out@ == v@.take(i as int),
        decreases v@.len() - i,
    {
        let c = &v[i];
        let copied = ServerClass {
            datatable_id: c.datatable_id,
            class_name: c.class_name.clone(),
            data_table_name: c.data_table_name.clone(),
        };
        proof {
            assert(copied == v@[i as int]);
        }
        out.push(copied);
        i = i + 1;
        proof {
            assert(out@ =~= v@.take(i as int));
        }
    }
    proof {
        assert(v@.take(v@.len() as int) =~= v@);
    }
    out
}

/// The pause toggle.
#[derive(Clone, Debug)]
pub struct SvcSetPause {
    pub paused: bool,
}

impl SvcSetPause {
    pub fn parse(reader: &mut BitReader) -> (r: Result<Self, DecodeError>)
        requires
            old(reader).wf(),
        ensures
            final(reader).wf(),
            final(reader).buf() == old(reader).buf(),
            final(reader).pos >= old(reader).pos,
            r is Ok <==> bits_ok(old(reader).buf(), old(reader).pos as int, 1),
            r matches Ok(m) ==> m.paused == bool_at(old(reader).buf(), old(reader).pos as int)
                && final(reader).pos == old(reader).pos + 1,
            r is Err ==> r == Err::<Self, DecodeError>(DecodeError::BufferExhausted),
    {
        Ok(Self { paused: reader.read_bool()? })
    }
}

/// A string-table creation announcement; the table contents are skipped by
/// their declared bit length.
#[derive(Clone, Debug)]
pub struct SvcCreateStringTable {
    pub name: String,
    pub max_entries: i32,
    pub num_entries: i32,
    pub length: i32,
    pub user_data_fixed_size: bool,
    pub user_data_size: Option<i32>,
    pub user_data_size_bits: Option<i32>,
    pub flags: Option<i32>,
    pub string_data: utils::StringTable,
}

impl SvcCreateStringTable {
    /// Reads the table header; the entry-count width follows from the
    /// maximum entry count, and the bit-length field is a variable-length
    /// integer on the newest variant and a fixed 20-bit field otherwise.
    pub fn parse(reader: &mut BitReader, data_mgr: &DataManager) -> (r: Result<Self, DecodeError>)
        requires
            old(reader).wf(),
        ensures
            final(reader).wf(),
            final(reader).buf() == old(reader).buf(),
            final(reader).pos >= old(reader).pos,
            r is Ok <==> ({
                let buf = old(reader).buf();
                let p = old(reader).pos as int;
                let sp = data_mgr.game is PORTAL_1_1910503;
                let q0 = after_cstr(buf, p);
                let w = crate::utils::spec_bit_width(uint_at(buf, q0, 16) as int);
                let qn = q0 + 16 + w;
                let la: int = if sp {
                    qn + 8 * crate::bitreader::varint_len_at(buf, qn, 0).unwrap_or(0)
                } else {
                    qn + 20
                };
                let len: int = if sp {
                    varint_at(buf, qn) as int
                } else {
                    uint_at(buf, qn, 20) as int
                };
                let qa = la + 1 + (if bool_at(buf, la) {
                    16int
                } else {
                    0int
                });
                let fw: int = if data_mgr.network_protocol >= 15 {
                    if data_mgr.demo_protocol == 4 {
                        2int
                    } else {
                        1int
                    }
                } else {
                    0int
                };
                &&& has_cstr(buf, p)
                &&& bits_ok(buf, q0, 16)
                &&& bits_ok(buf, q0 + 16, w as nat)
                &&& (sp ==> crate::bitreader::varint_len_at(buf, qn, 0) is Some && varint_at(
                    buf,
                    qn,
                ) >= 0)
                &&& (!sp ==> bits_ok(buf, qn, 20))
                &&& bits_ok(buf, la, 1)
                &&& (bool_at(buf, la) ==> bits_ok(buf, la + 1, 16))
                &&& bits_ok(buf, qa, fw as nat)
                &&& bits_ok(buf, qa + fw, len as nat)
            }),
            r matches Ok(m) ==> ({
                let buf = old(reader).buf();
                let p = old(reader).pos as int;
                let sp = data_mgr.game is PORTAL_1_1910503;
                let q0 = after_cstr(buf, p);
                let w = crate::utils::spec_bit_width(uint_at(buf, q0, 16) as int);
                let qn = q0 + 16 + w;
                let la: int = if sp {
                    qn + 8 * crate::bitreader::varint_len_at(buf, qn, 0).unwrap_or(0)
                } else {
                    qn + 20
                };
                let qa = la + 1 + (if bool_at(buf, la) {
                    16int
                } else {
                    0int
                });
                let fw: int = if data_mgr.network_protocol >= 15 {
                    if data_mgr.demo_protocol == 4 {
                        2int
                    } else {
                        1int
                    }
                } else {
                    0int
                };
                &&& has_cstr(buf, p)
                &&& m.name@ == cstr_at(buf, p)
                &&& m.max_entries == int_at(buf, q0, 16)
                &&& m.num_entries == int_at(buf, q0 + 16, w as nat)
                &&& (sp ==> m.length == varint_at(buf, qn))
                &&& (!sp ==> m.length == int_at(buf, qn, 20))
                &&& m.length >= 0
                &&& m.user_data_fixed_size == bool_at(buf, la)
                &&& (m.user_data_size is Some <==> m.user_data_fixed_size)
                &&& (m.user_data_size matches Some(v) ==> v == int_at(buf, la + 1, 12))
                &&& (m.user_data_size_bits is Some <==> m.user_data_fixed_size)
                &&& (m.user_data_size_bits matches Some(v) ==> v == int_at(buf, la + 13, 4))
                &&& (m.flags is Some <==> data_mgr.network_protocol >= 15)
                &&& (m.flags matches Some(f) ==> f == int_at(buf, qa, fw as nat))
                &&& final(reader).pos == qa + fw + m.length
            }),
            r is Err ==> r == Err::<Self, DecodeError>(DecodeError::BufferExhausted),
    {
        let ghost buf = reader.bits@;
        let name = reader.read_ascii_string_nulled()?;
        let ghost mpos = reader.pos as int;
        let max_entries = reader.read_int(16)?;
        proof {
            crate::bitreader::lemma_int_at_small(buf, mpos, 16);
        }
        proof {
            if max_entries > 0 {
                crate::utils::lemma_bit_width_bounds(max_entries as int);
                vstd::arithmetic::power2::lemma2_to64();
                if crate::utils::spec_bit_width(max_entries as int) < 16 {
                    vstd::arithmetic::power2::lemma_pow2_strictly_increases(
                        crate::utils::spec_bit_width(max_entries as int) as nat,
                        16,
                    );
                }
            }
        }
        let num_entries = reader.read_int(utils::log2_of_x_plus_one(max_entries) as usize)?;
        let length: i32 = if matches!(data_mgr.game, Game::PORTAL_1_1910503) {
            let v = reader.read_var_int32()?;
            if v < 0 {
                return Err(DecodeError::BufferExhausted);
            }
            v
        } else {
            let ghost lpos = reader.pos as int;
            let v = reader.read_int(20)?;
            proof {
                crate::bitreader::lemma_int_at_small(buf, lpos, 20);
            }
            v
        };
        let user_data_fixed_size = reader.read_bool()?;
        let mut user_data_size: Option<i32> = None;
        let mut user_data_size_bits: Option<i32> = None;
        if user_data_fixed_size {
            user_data_size = Some(reader.read_int(12)?);
            user_data_size_bits = Some(reader.read_int(4)?);
        }
        let mut flags: Option<i32> = None;
        if data_mgr.network_protocol >= 15 {
            let width: usize = if data_mgr.demo_protocol == 4 {
                2
            } else {
                1
            };
            flags = Some(reader.read_int(width)?);
        }
        let string_data = utils::StringTable::new();
        reader.skip(length as usize)?;
        Ok(
            Self {
                name,
                max_entries,
                num_entries,
                length,
                user_data_fixed_size,
                user_data_size,
                user_data_size_bits,
                flags,
                string_data,
            },
        )
    }
}

/// A string-table delta; the changed entries are skipped by their declared
/// bit length.
#[derive(Clone, Debug)]
pub struct SvcUpdateStringTable {
    pub table_id: i32,
    pub num_changed_entries: i32,
    pub length: i32,
    pub data: utils::StringTable,
}

impl SvcUpdateStringTable {
    pub fn parse(reader: &mut BitReader) -> (r: Result<Self, DecodeError>)
        requires
            old(reader).wf(),
        ensures
            final(reader).wf(),
            final(reader).buf() == old(reader).buf(),
            final(reader).pos >= old(reader).pos,
            r is Ok <==> ({
                let buf = old(reader).buf();
                let p = old(reader).pos as int;
                let q = p + 5 + 1 + (if bool_at(buf, p + 5) {
                    16int
                } else {
                    0int
                });
                bits_ok(buf, p, ((q + 20 + uint_at(buf, q, 20)) - p) as nat)
            }),
            r matches Ok(m) ==> ({
                let buf = old(reader).buf();
                let p = old(reader).pos as int;
                let q = p + 5 + 1 + (if bool_at(buf, p + 5) {
                    16int
                } else {
                    0int
                });
                &&& bits_ok(buf, p, 6)
                &&& m.table_id == int_at(buf, p, 5)
                &&& (bool_at(buf, p + 5) ==> m.num_changed_entries == int_at(buf, p + 6, 16))
                &&& (!bool_at(buf, p + 5) ==> m.num_changed_entries == 1)
                &&& m.length == int_at(buf, q, 20)
                &&& final(reader).pos == q + 20 + m.length
            }),
            r is Err ==> r == Err::<Self, DecodeError>(DecodeError::BufferExhausted),
    {
        let ghost buf = reader.bits@;
        let table_id = reader.read_int(5)?;
        let num_changed_entries = match reader.read_int_if_exists(16)? {
            Some(n) => n,
            None => 1,
        };
        let ghost lpos = reader.pos as int;
        let length = reader.read_int(20)?;
        proof {
            crate::bitreader::lemma_int_at_small(buf, lpos, 20);
        }
        let data = utils::StringTable::new();
        reader.skip(length as usize)?;
        Ok(Self { table_id, num_changed_entries, length, data })
    }
}

/// The voice-codec announcement.
#[derive(Clone, Debug)]
pub struct SvcVoiceInit {
    pub codec: String,
    pub quality: i32,
    pub sample_rate: Option<i32>,
}

impl SvcVoiceInit {
    pub fn parse(reader: &mut BitReader) -> (r: Result<Self, DecodeError>)
        requires
            old(reader).wf(),
        ensures
            final(reader).wf(),
            final(reader).buf() == old(reader).buf(),
            final(reader).pos >= old(reader).pos,
            r is Ok <==> ({
                let buf = old(reader).buf();
                let p = old(reader).pos as int;
                let q = after_cstr(buf, p);
                has_cstr(buf, p) && bits_ok(
                    buf,
                    q,
                    (8 + (if uint_at(buf, q, 8) == 255 {
                        32int
                    } else {
                        0int
                    })) as nat,
                )
            }),
            r matches Ok(m) ==> ({
                let buf = old(reader).buf();
                let p = old(reader).pos as int;
                let q = after_cstr(buf, p);
                &&& has_cstr(buf, p)
                &&& m.codec@ == cstr_at(buf, p)
                &&& m.quality == int_at(buf, q, 8)
                &&& (m.sample_rate is Some <==> int_at(buf, q, 8) == 255)
                &&& (m.sample_rate matches Some(sr) ==> sr == int_at(buf, q + 8, 32)
                    && final(reader).pos == q + 40)
                &&& (m.sample_rate is None ==> final(reader).pos == q + 8)
            }),
            r is Err ==> r == Err::<Self, DecodeError>(DecodeError::BufferExhausted),
    {
        let ghost buf = reader.bits@;
        let codec = reader.read_ascii_string_nulled()?;
        let ghost qpos = reader.pos as int;
        let quality = reader.read_int(8)?;
        proof {
            crate::bitreader::lemma_int_at_small(buf, qpos, 8);
        }
        let mut sample_rate: Option<i32> = None;
        if quality == 255 {
            sample_rate = Some(reader.read_int(32)?);
        }
        Ok(Self { codec, quality, sample_rate })
    }
}

/// A voice-data frame; the audio payload is skipped by its declared length.
#[derive(Clone, Debug)]
pub struct SvcVoiceData {
    pub client: i32,
    pub proximity: i32,
    pub length: i32,
    pub audible: Vec<bool>,
    pub data: utils::VoiceData,
}

impl SvcVoiceData {
    pub fn parse(reader: &mut BitReader) -> (r: Result<Self, DecodeError>)
        requires
            old(reader).wf(),
        ensures
            final(reader).wf(),
            final(reader).buf() == old(reader).buf(),
            final(reader).pos >= old(reader).pos,
            r is Ok <==> bits_ok(
                old(reader).buf(),
                old(reader).pos as int,
                (33 + uint_at(old(reader).buf(), old(reader).pos as int + 16, 16)) as nat,
            ),
            r matches Ok(m) ==> ({
                let buf = old(reader).buf();
                let p = old(reader).pos as int;
                &&& bits_ok(buf, p, 33)
                &&& m.client == int_at(buf, p, 8)
                &&& m.proximity == int_at(buf, p + 8, 8)
                &&& m.length == int_at(buf, p + 16, 16)
                &&& m.audible@.len() == 1
                &&& m.audible@[0] == bool_at(buf, p + 32)
                &&& final(reader).pos == p + 33 + m.length
            }),
            r is Err ==> r == Err::<Self, DecodeError>(DecodeError::BufferExhausted),
    {
        let ghost buf = reader.bits@;
        let client = reader.read_int(8)?;
        let proximity = reader.read_int(8)?;
        let ghost lpos = reader.pos as int;
        let length = reader.read_int(16)?;
        proof {
            crate::bitreader::lemma_int_at_small(buf, lpos, 16);
        }
        let mut audible: Vec<bool> = Vec::new();
        let a0 = reader.read_bool()?;
        audible.push(a0);
        let data = utils::VoiceData::new();
        reader.skip(length as usize)?;
        Ok(Self { client, proximity, length, audible, data })
    }
}

/// A sound batch; the sound payload is skipped by its declared bit length.
#[derive(Clone, Debug)]
pub struct SvcSounds {
    pub reliable_sound: bool,
    pub num_sounds: i32,
    pub length: i32,
    pub data: Vec<utils::SoundInfo>,
}

impl SvcSounds {
    pub fn parse(reader: &mut BitReader) -> (r: Result<Self, DecodeError>)
        requires
            old(reader).wf(),
        ensures
            final(reader).wf(),
            final(reader).buf() == old(reader).buf(),
            final(reader).pos >= old(reader).pos,
            r is Ok <==> ({
                let buf = old(reader).buf();
                let p = old(reader).pos as int;
                if bool_at(buf, p) {
                    bits_ok(buf, p, (9 + uint_at(buf, p + 1, 8)) as nat)
                } else {
                    bits_ok(buf, p, (25 + uint_at(buf, p + 9, 16)) as nat)
                }
            }),
            r matches Ok(m) ==> ({
                let buf = old(reader).buf();
                let p = old(reader).pos as int;
                &&& bits_ok(buf, p, 1)
                &&& m.reliable_sound == bool_at(buf, p)
                &&& (m.reliable_sound ==> m.num_sounds == 1 && m.length == int_at(buf, p + 1, 8)
                    && final(reader).pos == p + 9 + m.length)
                &&& (!m.reliable_sound ==> m.num_sounds == int_at(buf, p + 1, 8) && m.length
                    == int_at(buf, p + 9, 16) && final(reader).pos == p + 25 + m.length)
            }),
            r is Err ==> r == Err::<Self, DecodeError>(DecodeError::BufferExhausted),
    {
        let ghost buf = reader.bits@;
        let reliable_sound = reader.read_bool()?;
        let num_sounds: i32;
        let length: i32;
        if reliable_sound {
            num_sounds = 1;
            let ghost lpos = reader.pos as int;
            length = reader.read_int(8)?;
            proof {
                crate::bitreader::lemma_int_at_small(buf, lpos, 8);
            }
        } else {
            num_sounds = reader.read_int(8)?;
            let ghost lpos = reader.pos as int;
            length = reader.read_int(16)?;
            proof {
                crate::bitreader::lemma_int_at_small(buf, lpos, 16);
            }
        }
        let data: Vec<utils::SoundInfo> = Vec::new();
        reader.skip(length as usize)?;
        Ok(Self { reliable_sound, num_sounds, length, data })
    }
}

/// The view-entity selection.
#[derive(Clone, Debug)]
pub struct SvcSetView {
    pub entity_index: i32,
}

impl SvcSetView {
    pub fn parse(reader: &mut BitReader) -> (r: Result<Self, DecodeError>)
        requires
            old(reader).wf(),
        ensures
            final(reader).wf(),
            final(reader).buf() == old(reader).buf(),
            final(reader).pos >= old(reader).pos,
            r is Ok <==> bits_ok(old(reader).buf(), old(reader).pos as int, 11),
            r matches Ok(m) ==> m.entity_index == int_at(old(reader).buf(), old(reader).pos as int, 11)
                && final(reader).pos == old(reader).pos + 11,
            r is Err ==> r == Err::<Self, DecodeError>(DecodeError::BufferExhausted),
    {
        Ok(Self { entity_index: reader.read_int(11)? })
    }
}

/// A forced view-angle correction: three 16-bit angles scaled by `360/2^16`.
#[derive(Clone, Debug)]
pub struct SvcFixAngle {
    pub relative: bool,
    pub angle: Vec<FixedPoint>,
}

impl SvcFixAngle {
    pub fn parse(reader: &mut BitReader) -> (r: Result<Self, DecodeError>)
        requires
            old(reader).wf(),
        ensures
            final(reader).wf(),
            final(reader).buf() == old(reader).buf(),
            final(reader).pos >= old(reader).pos,
            r is Ok <==> bits_ok(old(reader).buf(), old(reader).pos as int, 49),
            r matches Ok(m) ==> ({
                let buf = old(reader).buf();
                let p = old(reader).pos as int;
                &&& m.relative == bool_at(buf, p)
                &&& m.angle@.len() == 3
                &&& m.angle@[0].numer == uint_at(buf, p + 1, 16) * 360
                &&& m.angle@[1].numer == uint_at(buf, p + 17, 16) * 360
                &&& m.angle@[2].numer == uint_at(buf, p + 33, 16) * 360
                &&& m.angle@[0].denom == 65536
                &&& m.angle@[1].denom == 65536
                &&& m.angle@[2].denom == 65536
                &&& final(reader).pos == old(reader).pos + 49
            }),
            r is Err ==> r == Err::<Self, DecodeError>(DecodeError::BufferExhausted),
    {
        let relative = reader.read_bool()?;
        let mut angle: Vec<FixedPoint> = Vec::new();
        let a0 = reader.read_bit_angle(16)?;
        let a1 = reader.read_bit_angle(16)?;
        let a2 = reader.read_bit_angle(16)?;
        proof {
            vstd::arithmetic::power2::lemma2_to64();
        }
        angle.push(a0);
        angle.push(a1);
        angle.push(a2);
        Ok(Self { relative, angle })
    }
}

/// The crosshair angle: three 16-bit angles scaled by `360/2^16`.
#[derive(Clone, Debug)]
pub struct SvcCrosshairAngle {
    pub angle: Vec<FixedPoint>,
}

impl SvcCrosshairAngle {
    pub fn parse(reader: &mut BitReader) -> (r: Result<Self, DecodeError>)
        requires
            old(reader).wf(),
        ensures
            final(reader).wf(),
            final(reader).buf() == old(reader).buf(),
            final(reader).pos >= old(reader).pos,
            r is Ok <==> bits_ok(old(reader).buf(), old(reader).pos as int, 48),
            r matches Ok(m) ==> ({
                let buf = old(reader).buf();
                let p = old(reader).pos as int;
                &&& m.angle@.len() == 3
                &&& m.angle@[0].numer == uint_at(buf, p, 16) * 360
                &&& m.angle@[1].numer == uint_at(buf, p + 16, 16) * 360
                &&& m.angle@[2].numer == uint_at(buf, p + 32, 16) * 360
                &&& final(reader).pos == old(reader).pos + 48
            }),
            r is Err ==> r == Err::<Self, DecodeError>(DecodeError::BufferExhausted),
    {
        let mut angle: Vec<FixedPoint> = Vec::new();
        let a0 = reader.read_bit_angle(16)?;
        let a1 = reader.read_bit_angle(16)?;
        let a2 = reader.read_bit_angle(16)?;
        angle.push(a0);
        angle.push(a1);
        angle.push(a2);
        Ok(Self { angle })
    }
}

/// A decal applied to the world or to a brush model.
#[derive(Clone, Debug)]
pub struct SvcBspDecal {
    pub pos: Vec<Option<FixedPoint>>,
    pub decal_texture_index: i32,
    pub entity_index: Option<i32>,
    pub model_index: Option<i32>,
    pub low_priority: bool,
}

impl SvcBspDecal {
    pub fn parse(reader: &mut BitReader) -> (r: Result<Self, DecodeError>)
        requires
            old(reader).wf(),
        ensures
            final(reader).wf(),
            final(reader).buf() == old(reader).buf(),
            final(reader).pos >= old(reader).pos,
            r is Ok <==> ({
                let buf = old(reader).buf();
                let p = old(reader).pos as int;
                let e = crate::bitreader::vcoords_end(buf, p);
                &&& bits_ok(buf, p, (e - p) as nat)
                &&& bits_ok(buf, e, 10)
                &&& (bool_at(buf, e + 9) ==> bits_ok(buf, e + 10, 22))
                &&& bits_ok(
                    buf,
                    e + 10 + (if bool_at(buf, e + 9) {
                        22int
                    } else {
                        0int
                    }),
                    1,
                )
            }),
            r matches Ok(m) ==> ({
                let buf = old(reader).buf();
                let p = old(reader).pos as int;
                let e = crate::bitreader::vcoords_end(buf, p);
                &&& m.pos@.len() == 3
                &&& m.decal_texture_index == int_at(buf, e, 9)
                &&& (m.entity_index is Some <==> bool_at(buf, e + 9))
                &&& (m.entity_index is Some <==> m.model_index is Some)
                &&& final(reader).pos == e + 10 + (if bool_at(buf, e + 9) {
                    22int
                } else {
                    0int
                }) + 1
            }),
            r is Err ==> r == Err::<Self, DecodeError>(DecodeError::BufferExhausted),
    {
        let pos = reader.read_vector_coords()?;
        let decal_texture_index = reader.read_int(9)?;
        let mut entity_index: Option<i32> = None;
        let mut model_index: Option<i32> = None;
        if reader.read_bool()? {
            entity_index = Some(reader.read_int(11)?);
            model_index = Some(reader.read_int(11)?);
        }
        let low_priority = reader.read_bool()?;
        Ok(Self { pos, decal_texture_index, entity_index, model_index, low_priority })
    }
}

/// A split-screen control message; its payload is skipped.
#[derive(Clone, Debug)]
pub struct SvcSplitScreen {
    pub s_type: i32,
    pub length: i32,
    pub data: utils::SplitScreenData,
}

impl SvcSplitScreen {
    pub fn parse(reader: &mut BitReader) -> (r: Result<Self, DecodeError>)
        requires
            old(reader).wf(),
        ensures
            final(reader).wf(),
            final(reader).buf() == old(reader).buf(),
            final(reader).pos >= old(reader).pos,
            r is Ok <==> bits_ok(
                old(reader).buf(),
                old(reader).pos as int,
                (12 + uint_at(old(reader).buf(), old(reader).pos as int + 1, 11)) as nat,
            ),
            r matches Ok(m) ==> ({
                let buf = old(reader).buf();
                let p = old(reader).pos as int;
                &&& bits_ok(buf, p, 12)
                &&& m.s_type == int_at(buf, p, 1)
                &&& m.length == int_at(buf, p + 1, 11)
                &&& final(reader).pos == p + 12 + m.length
            }),
            r is Err ==> r == Err::<Self, DecodeError>(DecodeError::BufferExhausted),
    {
        let ghost buf = reader.bits@;
        let s_type = reader.read_int(1)?;
        let ghost lpos = reader.pos as int;
        let length = reader.read_int(11)?;
        proof {
            crate::bitreader::lemma_int_at_small(buf, lpos, 11);
        }
        let data = utils::SplitScreenData::new();
        reader.skip(length as usize)?;
        Ok(Self { s_type, length, data })
    }
}

/// A user-interface message: an 8-bit type index into the variant's catalog
/// and an 11-bit payload bit length.
#[derive(Clone, Debug)]
pub struct SvcUserMessage {
    pub length: i32,
    pub data: UserMessage,
}

impl SvcUserMessage {
    /// Resolves the type index through the catalog and decodes the payload;
    /// an index beyond the catalog skips the declared length.
    pub fn parse(reader: &mut BitReader, user_message_event_list: &Vec<UserMessageType>) -> (r:
        Result<Self, DecodeError>)
        requires
            old(reader).wf(),
        ensures
            final(reader).wf(),
            final(reader).buf() == old(reader).buf(),
            final(reader).pos >= old(reader).pos,
            r is Ok <==> ({
                let buf = old(reader).buf();
                let p = old(reader).pos as int;
                let idx = uint_at(buf, p, 8);
                let len = uint_at(buf, p + 8, 11);
                &&& bits_ok(buf, p, 19)
                &&& (if idx >= user_message_event_list@.len() {
                    bits_ok(buf, p + 19, len)
                } else {
                    let t = user_message_event_list@[idx as int];
                    if crate::user_message::um_decoded(t) {
                        crate::user_message::um_fits(t, buf, p + 19, old(reader).bit_len())
                    } else {
                        bits_ok(buf, p + 19, len)
                    }
                })
            }),
            r matches Ok(m) ==> ({
                let buf = old(reader).buf();
                let p = old(reader).pos as int;
                &&& m.length == int_at(buf, p + 8, 11)
                &&& (int_at(buf, p, 8) >= user_message_event_list@.len() ==> final(reader).pos == p
                    + 19 + m.length && m.data.msg_type is Unknown)
                &&& (int_at(buf, p, 8) < user_message_event_list@.len() ==> ({
                    let t = user_message_event_list@[int_at(buf, p, 8) as int];
                    &&& (crate::user_message::um_decoded(t) ==> m.data.msg_type == t
                        && crate::user_message::um_data_matches(t, m.data.data))
                    &&& (!crate::user_message::um_decoded(t) ==> m.data.msg_type is Unknown
                        && m.data.data is Unknown && final(reader).pos == p + 19 + m.length)
                }))
            }),
            r is Err ==> r == Err::<Self, DecodeError>(DecodeError::BufferExhausted),
    {
        let ghost buf = reader.bits@;
        let ghost p = reader.pos as int;
        let msg_type = reader.read_int(8)?;
        proof {
            crate::bitreader::lemma_int_at_small(buf, p, 8);
        }
        let ghost lpos = reader.pos as int;
        let length = reader.read_int(11)?;
        proof {
            crate::bitreader::lemma_int_at_small(buf, lpos, 11);
        }
        if msg_type as usize >= user_message_event_list.len() {
            reader.skip(length as usize)?;
            Ok(Self { length, data: UserMessage::new() })
        } else {
            let t = user_message_event_list[msg_type as usize];
            let data = UserMessage::parse(reader, t, length)?;
            Ok(Self { length, data })
        }
    }
}

/// An entity-targeted message; its payload is skipped.
#[derive(Clone, Debug)]
pub struct SvcEntityMessage {
    pub entity_index: i32,
    pub class_id: i32,
    pub length: i32,
    pub data: utils::EntityMessageData,
}

impl SvcEntityMessage {
    pub fn parse(reader: &mut BitReader) -> (r: Result<Self, DecodeError>)
        requires
            old(reader).wf(),
        ensures
            final(reader).wf(),
            final(reader).buf() == old(reader).buf(),
            final(reader).pos >= old(reader).pos,
            r is Ok <==> bits_ok(
                old(reader).buf(),
                old(reader).pos as int,
                (31 + uint_at(old(reader).buf(), old(reader).pos as int + 20, 11)) as nat,
            ),
            r matches Ok(m) ==> ({
                let buf = old(reader).buf();
                let p = old(reader).pos as int;
                &&& bits_ok(buf, p, 31)
                &&& m.entity_index == int_at(buf, p, 11)
                &&& m.class_id == int_at(buf, p + 11, 9)
                &&& m.length == int_at(buf, p + 20, 11)
                &&& final(reader).pos == p + 31 + m.length
            }),
            r is Err ==> r == Err::<Self, DecodeError>(DecodeError::BufferExhausted),
    {
        let ghost buf = reader.bits@;
        let entity_index = reader.read_int(11)?;
        let class_id = reader.read_int(9)?;
        let ghost lpos = reader.pos as int;
        let length = reader.read_int(11)?;
        proof {
            crate::bitreader::lemma_int_at_small(buf, lpos, 11);
        }
        let data = utils::EntityMessageData::new();
        reader.skip(length as usize)?;
        Ok(Self { entity_index, class_id, length, data })
    }
}

/// A game-event key value has the variant its declared 3-bit type tag calls
/// for.
pub open spec fn event_value_matches(tag: i32, v: GameEventKeyTypes) -> bool {
    if tag == 1 {
        v is KeyString
    } else if tag == 2 {
        v is FloatBits
    } else if tag == 3 {
        v is Int32
    } else if tag == 4 {
        v is Int16
    } else if tag == 5 {
        v is Int8
    } else if tag == 6 {
        v is Boolean
    } else if tag == 7 {
        v is UInt64
    } else {
        v is NoValue
    }
}

/// The index of the first declared event with this id, searching from `j`.
pub open spec fn spec_find_event(events: Seq<GameEvent>, id: int, j: nat) -> Option<int>
    decreases events.len() - j,
{
    if j >= events.len() {
        None
    } else if events[j as int].descriptor.event_id == id {
        Some(j as int)
    } else {
        spec_find_event(events, id, j + 1)
    }
}

/// `vals` with `end` is exactly the run of key values at bit `pos` that the
/// descriptor keys from index `j` on call for: one value per key, of the
/// width and kind its 3-bit type tag selects, in declared order.
pub open spec fn event_keys_at(
    bytes: Seq<u8>,
    pos: int,
    dkeys: Seq<(String, i32)>,
    j: nat,
    vals: Seq<(String, GameEventKeyTypes)>,
    end: int,
) -> bool
    decreases dkeys.len() - j,
{
    if j >= dkeys.len() {
        &&& vals.len() == 0
        &&& end == pos
    } else {
        let t = dkeys[j as int].1;
        &&& vals.len() == dkeys.len() - j
        &&& vals[0].0 == dkeys[j as int].0
        &&& if t == 1 {
            &&& has_cstr(bytes, pos)
            &&& (vals[0].1 matches GameEventKeyTypes::KeyString(sv) && sv@ == cstr_at(bytes, pos))
            &&& event_keys_at(bytes, after_cstr(bytes, pos), dkeys, j + 1, vals.skip(1), end)
        } else if t == 2 {
            &&& bits_ok(bytes, pos, 32)
            &&& (vals[0].1 matches GameEventKeyTypes::FloatBits(b) && b as nat == uint_at(
                bytes,
                pos,
                32,
            ))
            &&& event_keys_at(bytes, pos + 32, dkeys, j + 1, vals.skip(1), end)
        } else if t == 3 {
            &&& bits_ok(bytes, pos, 32)
            &&& (vals[0].1 matches GameEventKeyTypes::Int32(v) && v == int_at(bytes, pos, 32))
            &&& event_keys_at(bytes, pos + 32, dkeys, j + 1, vals.skip(1), end)
        } else if t == 4 {
            &&& bits_ok(bytes, pos, 16)
            &&& (vals[0].1 matches GameEventKeyTypes::Int16(v) && v == int_at(bytes, pos, 16))
            &&& event_keys_at(bytes, pos + 16, dkeys, j + 1, vals.skip(1), end)
        } else if t == 5 {
            &&& bits_ok(bytes, pos, 8)
            &&& (vals[0].1 matches GameEventKeyTypes::Int8(v) && v == int_at(bytes, pos, 8))
            &&& event_keys_at(bytes, pos + 8, dkeys, j + 1, vals.skip(1), end)
        } else if t == 6 {
            &&& bits_ok(bytes, pos, 1)
            &&& (vals[0].1 matches GameEventKeyTypes::Boolean(v) && v == bool_at(bytes, pos))
            &&& event_keys_at(bytes, pos + 1, dkeys, j + 1, vals.skip(1), end)
        } else if t == 7 {
            &&& bits_ok(bytes, pos, 64)
            &&& (vals[0].1 matches GameEventKeyTypes::UInt64(v) && v as nat == uint_at(
                bytes,
                pos,
                64,
            ))
            &&& event_keys_at(bytes, pos + 64, dkeys, j + 1, vals.skip(1), end)
        } else {
            &&& vals[0].1 is NoValue
            &&& event_keys_at(bytes, pos, dkeys, j + 1, vals.skip(1), end)
        }
    }
}

/// Some run of values for these descriptor keys stands at bit `pos`.
pub open spec fn event_keys_exist(
    bytes: Seq<u8>,
    pos: int,
    dkeys: Seq<(String, i32)>,
    j: nat,
) -> bool {
    exists|vals: Seq<(String, GameEventKeyTypes)>, end: int|
        #[trigger] event_keys_at(bytes, pos, dkeys, j, vals, end)
}

/// A game-event instance: looked up by id in the declared catalog, its keys
/// decoded in declared order with the declared types.
#[derive(Clone, Debug)]
pub struct SvcGameEvent {
    pub length: i32,
    pub data: GameEvent,
}

impl SvcGameEvent {
    /// Reads the declared bit length and event id, finds the first declared
    /// descriptor with that id, and decodes one value per descriptor key in
    /// order.  Without a matching descriptor the event is returned empty.
    #[verifier::loop_isolation(false)]
    pub fn parse(reader: &mut BitReader, game_event_list: &utils::GameEventList) -> (r: Result<
        Self,
        DecodeError,
    >)
        requires
            old(reader).wf(),
        ensures
            final(reader).wf(),
            final(reader).buf() == old(reader).buf(),
            final(reader).pos >= old(reader).pos,
            r is Ok <==> ({
                let buf = old(reader).buf();
                let p = old(reader).pos as int;
                &&& bits_ok(buf, p, 20)
                &&& (spec_find_event(
                    game_event_list.data@,
                    uint_at(buf, p + 11, 9) as int,
                    0,
                ) matches Some(f) ==> event_keys_exist(
                    buf,
                    p + 20,
                    game_event_list.data@[f].descriptor.keys@,
                    0,
                ))
            }),
            r matches Ok(m) ==> ({
                let buf = old(reader).buf();
                let p = old(reader).pos as int;
                &&& m.length == int_at(buf, p, 11)
                &&& m.data.keys@.len() == m.data.descriptor.keys@.len()
                &&& (spec_find_event(
                    game_event_list.data@,
                    uint_at(buf, p + 11, 9) as int,
                    0,
                ) matches Some(f) ==> m.data.descriptor.keys@
                    == game_event_list.data@[f].descriptor.keys@ && event_keys_at(
                    buf,
                    p + 20,
                    game_event_list.data@[f].descriptor.keys@,
                    0,
                    m.data.keys@,
                    final(reader).pos as int,
                ))
                &&& (spec_find_event(game_event_list.data@, uint_at(buf, p + 11, 9) as int, 0)
                    is None ==> m.data.keys@.len() == 0)
            }),
            r is Err ==> r == Err::<Self, DecodeError>(DecodeError::BufferExhausted),
    {
        let ghost buf = reader.bits@;
        let ghost p = reader.pos as int;
        let length = reader.read_int(11)?;
        proof {
            crate::bitreader::lemma_int_at_small(buf, p, 11);
        }
        let ghost idpos = reader.pos as int;
        let event_id = reader.read_int(9)?;
        proof {
            crate::bitreader::lemma_int_at_small(buf, idpos, 9);
        }
        let mut found: Option<usize> = None;
        let mut k: usize = 0;
        while k < game_event_list.data.len()
            invariant
                k <= game_event_list.data@.len(),
                found is None ==> spec_find_event(game_event_list.data@, event_id as int, 0)
                    == spec_find_event(game_event_list.data@, event_id as int, k as nat),
                found matches Some(f) ==> f < game_event_list.data@.len() && spec_find_event(
                    game_event_list.data@,
                    event_id as int,
                    0,
                ) == Some(f as int),
            decreases game_event_list.data@.len() - k,
        {
            if game_event_list.data[k].descriptor.event_id == event_id && found.is_none() {
                found = Some(k);
            }
            k = k + 1;
        }
        match found {
            None => Ok(Self { length, data: GameEvent::new() }),
            Some(f) => {
                let descriptor = clone_descriptor(&game_event_list.data[f].descriptor);
                let ghost dkeys = descriptor.keys@;
                let ghost kpos0 = reader.pos as int;
                let mut keys: Vec<(String, GameEventKeyTypes)> = Vec::new();
                let mut j: usize = 0;
                while j < descriptor.keys.len()
                    invariant
                        reader.wf(),
                        reader.bits@ == buf,
                        reader.pos >= old(reader).pos,
                        j <= descriptor.keys@.len(),
                        keys@.len() == j,
                        dkeys == descriptor.keys@,
                        forall|x: int|
                            0 <= x < j ==> (#[trigger] keys@[x]).0 == descriptor.keys@[x].0
                                && event_value_matches(descriptor.keys@[x].1, keys@[x].1),
                        event_keys_exist(buf, kpos0, dkeys, 0) <==> event_keys_exist(
                            buf,
                            reader.pos as int,
                            dkeys,
                            j as nat,
                        ),
                        forall|rest: Seq<(String, GameEventKeyTypes)>, end: int|
                            #[trigger] event_keys_at(
                                buf,
                                reader.pos as int,
                                dkeys,
                                j as nat,
                                rest,
                                end,
                            ) ==> event_keys_at(buf, kpos0, dkeys, 0, keys@ + rest, end),
                    decreases descriptor.keys@.len() - j,
                {
                    let ghost cur = reader.pos as int;
                    let ghost acc = keys@;
                    let kname = descriptor.keys[j].0.clone();
                    let ktype = descriptor.keys[j].1;
                    let value: GameEventKeyTypes = if ktype == 1 {
                        GameEventKeyTypes::KeyString(reader.read_ascii_string_nulled()?)
                    } else if ktype == 2 {
                        GameEventKeyTypes::FloatBits(reader.read_f32_bits()?)
                    } else if ktype == 3 {
                        GameEventKeyTypes::Int32(reader.read_int(32)?)
                    } else if ktype == 4 {
                        GameEventKeyTypes::Int16(reader.read_int(16)?)
                    } else if ktype == 5 {
                        GameEventKeyTypes::Int8(reader.read_int(8)?)
                    } else if ktype == 6 {
                        GameEventKeyTypes::Boolean(reader.read_bool()?)
                    } else if ktype == 7 {
                        GameEventKeyTypes::UInt64(reader.read_uint_64()?)
                    } else {
                        GameEventKeyTypes::NoValue
                    };
                    keys.push((kname, value));
                    j = j + 1;
                    proof {
                        let one = (kname, value);
                        assert(keys@ =~= acc + seq![one]);
                        assert forall|rest: Seq<(String, GameEventKeyTypes)>, end: int|
                            #[trigger] event_keys_at(
                                buf,
                                reader.pos as int,
                                dkeys,
                                j as nat,
                                rest,
                                end,
                            ) implies event_keys_at(buf, kpos0, dkeys, 0, keys@ + rest, end) by {
                            let run = seq![one] + rest;
                            assert(run.skip(1) =~= rest);
                            assert(event_keys_at(buf, cur, dkeys, (j - 1) as nat, run, end));
                            assert(acc + run =~= keys@ + rest);
                        }
                        if event_keys_exist(buf, cur, dkeys, (j - 1) as nat) {
                            let (vals0, end0) = choose|
                                vals0: Seq<(String, GameEventKeyTypes)>,
                                end0: int,
                            |
                                #[trigger] event_keys_at(
                                    buf,
                                    cur,
                                    dkeys,
                                    (j - 1) as nat,
                                    vals0,
                                    end0,
                                );
                            assert(event_keys_at(
                                buf,
                                reader.pos as int,
                                dkeys,
                                j as nat,
                                vals0.skip(1),
                                end0,
                            ));
                        }
                        if event_keys_exist(buf, reader.pos as int, dkeys, j as nat) {
                            let (vals0, end0) = choose|
                                vals0: Seq<(String, GameEventKeyTypes)>,
                                end0: int,
                            |
                                #[trigger] event_keys_at(
                                    buf,
                                    reader.pos as int,
                                    dkeys,
                                    j as nat,
                                    vals0,
                                    end0,
                                );
                            let run = seq![one] + vals0;
                            assert(run.skip(1) =~= vals0);
                            assert(event_keys_at(buf, cur, dkeys, (j - 1) as nat, run, end0));
                        }
                    }
                }
                proof {
                    assert(event_keys_at(
                        buf,
                        reader.pos as int,
                        dkeys,
                        j as nat,
                        Seq::<(String, GameEventKeyTypes)>::empty(),
                        reader.pos as int,
                    ));
                    assert(keys@ + Seq::<(String, GameEventKeyTypes)>::empty() =~= keys@);
                    assert(event_keys_at(buf, kpos0, dkeys, 0, keys@, reader.pos as int));
                }
                Ok(Self { length, data: GameEvent { descriptor, keys } })
            },
        }
    }
}

/// Copies a descriptor; the copy's contents equal the original's.
fn clone_descriptor(d: &GameEventDescriptor) -> (r: GameEventDescriptor)
    ensures
        r.event_id == d.event_id,
        r.name == d.name,
        r.keys@ == d.keys@,
{
    let mut keys: Vec<(String, i32)> = Vec::new();
    let mut i: usize = 0;
    while i < d.keys.len()
        invariant
            i <= d.keys@.len(),
            keys@ == d.keys@.take(i as int),
        decreases d.keys@.len() - i,
    {
        let pair = (d.keys[i].0.clone(), d.keys[i].1);
        proof {
            assert(pair == d.keys@[i as int]);
        }
        keys.push(pair);
        i = i + 1;
        proof {
            assert(keys@ =~= d.keys@.take(i as int));
        }
    }
    proof {
        assert(d.keys@.take(d.keys@.len() as int) =~= d.keys@);
    }
    GameEventDescriptor { event_id: d.event_id, name: d.name.clone(), keys }
}

/// An entity-delta frame; the delta payload is skipped by its declared bit
/// length.
#[derive(Clone, Debug)]
pub struct SvcPacketEntities {
    pub max_entries: i32,
    pub is_delta: bool,
    pub delta_from: Option<i32>,
    pub base_line: bool,
    pub updated_entries: i32,
    pub length: i32,
    pub update_baseline: bool,
    pub data: utils::PacketEntitiesData,
}

impl SvcPacketEntities {
    pub fn parse(reader: &mut BitReader) -> (r: Result<Self, DecodeError>)
        requires
            old(reader).wf(),
        ensures
            final(reader).wf(),
            final(reader).buf() == old(reader).buf(),
            final(reader).pos >= old(reader).pos,
            r is Ok <==> ({
                let buf = old(reader).buf();
                let p = old(reader).pos as int;
                let q = p + 12 + (if bool_at(buf, p + 11) {
                    32int
                } else {
                    0int
                });
                bits_ok(buf, p, ((q + 33 + uint_at(buf, q + 12, 20)) - p) as nat)
            }),
            r matches Ok(m) ==> ({
                let buf = old(reader).buf();
                let p = old(reader).pos as int;
                let q = p + 12 + (if bool_at(buf, p + 11) {
                    32int
                } else {
                    0int
                });
                &&& bits_ok(buf, p, 12)
                &&& m.max_entries == int_at(buf, p, 11)
                &&& m.is_delta == bool_at(buf, p + 11)
                &&& (m.delta_from is Some <==> m.is_delta)
                &&& m.base_line == bool_at(buf, q)
                &&& m.updated_entries == int_at(buf, q + 1, 11)
                &&& m.length == int_at(buf, q + 12, 20)
                &&& m.update_baseline == bool_at(buf, q + 32)
                &&& final(reader).pos == q + 33 + m.length
            }),
            r is Err ==> r == Err::<Self, DecodeError>(DecodeError::BufferExhausted),
    {
        let ghost buf = reader.bits@;
        let max_entries = reader.read_int(11)?;
        let is_delta = reader.read_bool()?;
        let mut delta_from: Option<i32> = None;
        if is_delta {
            delta_from = Some(reader.read_int(32)?);
        }
        let base_line = reader.read_bool()?;
        let updated_entries = reader.read_int(11)?;
        let ghost lpos = reader.pos as int;
        let length = reader.read_int(20)?;
        proof {
            crate::bitreader::lemma_int_at_small(buf, lpos, 20);
        }
        let update_baseline = reader.read_bool()?;
        let data = utils::PacketEntitiesData::new();
        reader.skip(length as usize)?;
        Ok(
            Self {
                max_entries,
                is_delta,
                delta_from,
                base_line,
                updated_entries,
                length,
                update_baseline,
                data,
            },
        )
    }
}

/// A temp-entity batch; the payload is skipped.  The bit-length field is a
/// variable-length integer on the newest variant, 17 fixed bits otherwise.
#[derive(Clone, Debug)]
pub struct SvcTempEntities {
    pub num_entries: i32,
    pub length: i32,
    pub data: utils::TempEntitiesData,
}

impl SvcTempEntities {
    pub fn parse(reader: &mut BitReader, data_mgr: &DataManager) -> (r: Result<Self, DecodeError>)
        requires
            old(reader).wf(),
        ensures
            final(reader).wf(),
            final(reader).buf() == old(reader).buf(),
            final(reader).pos >= old(reader).pos,
            !(data_mgr.game is PORTAL_1_1910503) ==> (r is Ok <==> bits_ok(
                old(reader).buf(),
                old(reader).pos as int,
                (25 + uint_at(old(reader).buf(), old(reader).pos as int + 8, 17)) as nat,
            )),
            data_mgr.game is PORTAL_1_1910503 ==> (r is Ok <==> ({
                let buf = old(reader).buf();
                let p = old(reader).pos as int;
                &&& bits_ok(buf, p, 8)
                &&& crate::bitreader::varint_len_at(buf, p + 8, 0) is Some
                &&& varint_at(buf, p + 8) >= 0
                &&& bits_ok(
                    buf,
                    p + 8 + 8 * crate::bitreader::varint_len_at(buf, p + 8, 0).unwrap(),
                    varint_at(buf, p + 8) as nat,
                )
            })),
            r matches Ok(m) ==> ({
                let buf = old(reader).buf();
                let p = old(reader).pos as int;
                &&& bits_ok(buf, p, 8)
                &&& m.num_entries == int_at(buf, p, 8)
                &&& m.length >= 0
                &&& (!(data_mgr.game is PORTAL_1_1910503) ==> m.length == int_at(buf, p + 8, 17)
                    && final(reader).pos == p + 25 + m.length)
                &&& (data_mgr.game is PORTAL_1_1910503 ==> m.length == varint_at(buf, p + 8)
                    && final(reader).pos == p + 8 + 8 * crate::bitreader::varint_len_at(
                    buf,
                    p + 8,
                    0,
                ).unwrap_or(0) + m.length)
            }),
            r is Err ==> r == Err::<Self, DecodeError>(DecodeError::BufferExhausted),
    {
        let ghost buf = reader.bits@;
        let num_entries = reader.read_int(8)?;
        let length: i32;
        if matches!(data_mgr.game, Game::PORTAL_1_1910503) {
            let v = reader.read_var_int32()?;
            if v < 0 {
                return Err(DecodeError::BufferExhausted);
            }
            length = v;
        } else {
            let ghost lpos = reader.pos as int;
            let v = reader.read_int(17)?;
            proof {
                crate::bitreader::lemma_int_at_small(buf, lpos, 17);
            }
            length = v;
        }
        let data = utils::TempEntitiesData::new();
        reader.skip(length as usize)?;
        Ok(Self { num_entries, length, data })
    }
}

/// A sound-precache hint: an index, resolved to a name through the
/// `soundprecache` string table when that table has been decoded.
#[derive(Clone, Debug)]
pub struct SvcPrefetch {
    pub sound_index: i32,
    pub sound_name: String,
}

/// The index of the first table named `soundprecache`, if one exists.
#[verifier::loop_isolation(false)]
fn find_soundprecache(tables: &Vec<crate::stringtable::StringTable>) -> (r: Option<usize>)
    ensures
        r is None ==> forall|j: int|
            0 <= j < tables@.len() ==> !((#[trigger] tables@[j]).name@ == "soundprecache"@),
        r matches Some(i) ==> 0 <= i < tables@.len() && tables@[i as int].name@
            == "soundprecache"@ && (forall|j: int|
            0 <= j < i ==> !((#[trigger] tables@[j]).name@ == "soundprecache"@)),
{
    let mut t: usize = 0;
    while t < tables.len()
        invariant
            t <= tables@.len(),
            forall|j: int| 0 <= j < t ==> !((#[trigger] tables@[j]).name@ == "soundprecache"@),
        decreases tables@.len() - t,
    {
        if crate::stringtable::string_eq_lit(&tables[t].name, "soundprecache") {
            return Some(t);
        }
        t = t + 1;
    }
    None
}

impl SvcPrefetch {
    /// Reads the index (14 bits on the newest variant, 13 otherwise) and
    /// resolves it against the first `soundprecache` table; an out-of-range
    /// index, or no such table, leaves the name `"None"`.
    #[verifier::loop_isolation(false)]
    pub fn parse(reader: &mut BitReader, data_mgr: &DataManager) -> (r: Result<Self, DecodeError>)
        requires
            old(reader).wf(),
        ensures
            final(reader).wf(),
            final(reader).buf() == old(reader).buf(),
            final(reader).pos >= old(reader).pos,
            r is Ok <==> bits_ok(
                old(reader).buf(),
                old(reader).pos as int,
                if data_mgr.network_protocol == 24 {
                    14nat
                } else {
                    13nat
                },
            ),
            r matches Ok(m) ==> ({
                let buf = old(reader).buf();
                let p = old(reader).pos as int;
                let w: nat = if data_mgr.network_protocol == 24 {
                    14nat
                } else {
                    13nat
                };
                &&& bits_ok(buf, p, w)
                &&& m.sound_index == int_at(buf, p, w)
                &&& final(reader).pos == p + w
                &&& ({
                    let ts = data_mgr.stringtables@;
                    &&& ((forall|j: int|
                        0 <= j < ts.len() ==> !((#[trigger] ts[j]).name@ == "soundprecache"@))
                        ==> m.sound_name@ == "None"@)
                    &&& (forall|i: int|
                        (0 <= i < ts.len() && (#[trigger] ts[i]).name@ == "soundprecache"@
                            && (forall|j: int|
                            0 <= j < i ==> !((#[trigger] ts[j]).name@ == "soundprecache"@))) ==> ({
                            &&& (m.sound_index < ts[i].table_entries@.len()
                                ==> m.sound_name@ == ts[i].table_entries@[m.sound_index as int].name@)
                            &&& (m.sound_index >= ts[i].table_entries@.len()
                                ==> m.sound_name@ == "None"@)
                        }))
                })
            }),
            r is Err ==> r == Err::<Self, DecodeError>(DecodeError::BufferExhausted),
    {
        let width: usize = if data_mgr.network_protocol == 24 {
            14
        } else {
            13
        };
        let ghost buf = reader.bits@;
        let ghost p = reader.pos as int;
        let sound_index = reader.read_int(width)?;
        proof {
            crate::bitreader::lemma_int_at_small(buf, p, width as nat);
        }
        let mut sound_name = String::from_str("None");
        match find_soundprecache(&data_mgr.stringtables) {
            Some(ti) => {
                let table = &data_mgr.stringtables[ti];
                if (sound_index as usize) < table.table_entries.len() {
                    sound_name = table.table_entries[sound_index as usize].name.clone();
                }
            },
            None => {},
        }
        Ok(Self { sound_index, sound_name })
    }
}

/// A menu request; its key-value payload is left in the stream unread, as
/// the length field counts bytes the following messages re-align over.
#[derive(Clone, Debug)]
pub struct SvcMenu {
    pub menu_type: i32,
    pub length: i32,
    pub data: utils::MenuData,
}

impl SvcMenu {
    pub fn parse(reader: &mut BitReader) -> (r: Result<Self, DecodeError>)
        requires
            old(reader).wf(),
        ensures
            final(reader).wf(),
            final(reader).buf() == old(reader).buf(),
            final(reader).pos >= old(reader).pos,
            r is Ok <==> bits_ok(old(reader).buf(), old(reader).pos as int, 48),
            r matches Ok(m) ==> ({
                let buf = old(reader).buf();
                let p = old(reader).pos as int;
                &&& m.menu_type == int_at(buf, p, 16)
                &&& m.length == int_at(buf, p + 16, 32)
                &&& final(reader).pos == old(reader).pos + 48
            }),
            r is Err ==> r == Err::<Self, DecodeError>(DecodeError::BufferExhausted),
    {
        let menu_type = reader.read_int(16)?;
        let length = reader.read_int(32)?;
        let data = utils::MenuData::new();
        Ok(Self { menu_type, length, data })
    }
}

/// The game-event catalog declaration: its descriptors are appended to the
/// protocol context for later event decoding.
#[derive(Clone, Debug)]
pub struct SvcGameEventList {
    pub events: i32,
    pub length: i32,
}

impl SvcGameEventList {
    /// Reads the event count and bit length, then one descriptor per event,
    /// appending each to the context's catalog.
    #[verifier::loop_isolation(false)]
    pub fn parse(reader: &mut BitReader, game_event_list: &mut utils::GameEventList) -> (r: Result<
        Self,
        DecodeError,
    >)
        requires
            old(reader).wf(),
        ensures
            final(reader).wf(),
            final(reader).buf() == old(reader).buf(),
            final(reader).pos >= old(reader).pos,
            r matches Ok(m) ==> ({
                let buf = old(reader).buf();
                let p = old(reader).pos as int;
                &&& bits_ok(buf, p, 29)
                &&& m.events == int_at(buf, p, 9)
                &&& m.length == int_at(buf, p + 9, 20)
                &&& final(game_event_list).events == m.events
                &&& final(game_event_list).length == m.length
                &&& final(game_event_list).data@.len() == old(game_event_list).data@.len()
                    + m.events
            }),
            r is Err ==> r == Err::<Self, DecodeError>(DecodeError::BufferExhausted),
    {
        let ghost buf = reader.bits@;
        let ghost p = reader.pos as int;
        let events = reader.read_int(9)?;
        proof {
            crate::bitreader::lemma_int_at_small(buf, p, 9);
        }
        let ghost lpos = reader.pos as int;
        let length = reader.read_int(20)?;
        proof {
            crate::bitreader::lemma_int_at_small(buf, lpos, 20);
        }
        game_event_list.events = events;
        game_event_list.length = length;
        let ghost n0 = game_event_list.data@.len();
        let mut i: i32 = 0;
        while i < events
            invariant
                reader.wf(),
                reader.bits@ == buf,
                reader.pos >= old(reader).pos,
                0 <= i <= events,
                game_event_list.data@.len() == n0 + i,
                game_event_list.events == events,
                game_event_list.length == length,
            decreases events - i,
        {
            let cur_event_desc = GameEventDescriptor::parse(reader)?;
            game_event_list.data.push(GameEvent { descriptor: cur_event_desc, keys: Vec::new() });
            i = i + 1;
        }
        Ok(Self { events, length })
    }
}

/// A console-variable query: a 4-byte cookie and the variable's name.
#[derive(Clone, Debug)]
pub struct SvcGetCvarValue {
    pub cookie: String,
    pub cvar_name: String,
}

impl SvcGetCvarValue {
    pub fn parse(reader: &mut BitReader) -> (r: Result<Self, DecodeError>)
        requires
            old(reader).wf(),
        ensures
            final(reader).wf(),
            final(reader).buf() == old(reader).buf(),
            final(reader).pos >= old(reader).pos,
            ({
                let buf = old(reader).buf();
                let p = old(reader).pos as int;
                &&& (r is Ok <==> bits_ok(buf, p, 32) && has_cstr(buf, p + 32))
                &&& (r matches Ok(m) ==> {
                    &&& m.cookie@ == crate::bitreader::fixed_str_at(buf, p, 4)
                    &&& m.cvar_name@ == cstr_at(buf, p + 32)
                    &&& final(reader).pos == after_cstr(buf, p + 32)
                })
                &&& (r is Err ==> r == Err::<Self, DecodeError>(DecodeError::BufferExhausted))
            }),
    {
        let cookie = reader.read_ascii_string(32)?;
        let cvar_name = reader.read_ascii_string_nulled()?;
        Ok(Self { cookie, cvar_name })
    }
}

/// A key-values command; its payload is skipped by its declared byte length.
#[derive(Clone, Debug)]
pub struct SvcCmdKeyValues {
    pub length: i32,
    pub data: utils::CmdKeyValuesData,
}

impl SvcCmdKeyValues {
    pub fn parse(reader: &mut BitReader) -> (r: Result<Self, DecodeError>)
        requires
            old(reader).wf(),
        ensures
            final(reader).wf(),
            final(reader).buf() == old(reader).buf(),
            final(reader).pos >= old(reader).pos,
            r is Ok <==> (bits_ok(old(reader).buf(), old(reader).pos as int, 32) && int_at(
                old(reader).buf(),
                old(reader).pos as int,
                32,
            ) >= 0 && bits_ok(
                old(reader).buf(),
                old(reader).pos as int + 32,
                (8 * int_at(old(reader).buf(), old(reader).pos as int, 32)) as nat,
            )),
            r matches Ok(m) ==> ({
                let buf = old(reader).buf();
                let p = old(reader).pos as int;
                &&& bits_ok(buf, p, 32)
                &&& m.length == int_at(buf, p, 32)
                &&& m.length >= 0
                &&& final(reader).pos == p + 32 + 8 * m.length
            }),
            r is Err ==> r == Err::<Self, DecodeError>(DecodeError::BufferExhausted),
    {
        let length = reader.read_int(32)?;
        if length < 0 {
            return Err(DecodeError::BufferExhausted);
        }
        let rem_bytes: usize = (reader.bits.len() * 8 - reader.pos) / 8;
        if length as usize > rem_bytes {
            return Err(DecodeError::BufferExhausted);
        }
        let data = utils::CmdKeyValuesData::new();
        reader.skip((length as usize) * 8)?;
        Ok(Self { length, data })
    }
}

/// A paint-map blob; its payload is skipped by its declared bit length.
#[derive(Clone, Debug)]
pub struct SvcPaintmapData {
    pub length: i32,
    pub data: utils::PaintmapData,
}

impl SvcPaintmapData {
    pub fn parse(reader: &mut BitReader) -> (r: Result<Self, DecodeError>)
        requires
            old(reader).wf(),
        ensures
            final(reader).wf(),
            final(reader).buf() == old(reader).buf(),
            final(reader).pos >= old(reader).pos,
            r is Ok <==> (bits_ok(old(reader).buf(), old(reader).pos as int, 32) && int_at(
                old(reader).buf(),
                old(reader).pos as int,
                32,
            ) >= 0 && bits_ok(
                old(reader).buf(),
                old(reader).pos as int + 32,
                int_at(old(reader).buf(), old(reader).pos as int, 32) as nat,
            )),
            r matches Ok(m) ==> ({
                let buf = old(reader).buf();
                let p = old(reader).pos as int;
                &&& bits_ok(buf, p, 32)
                &&& m.length == int_at(buf, p, 32)
                &&& m.length >= 0
                &&& final(reader).pos == p + 32 + m.length
            }),
            r is Err ==> r == Err::<Self, DecodeError>(DecodeError::BufferExhausted),
    {
        let length = reader.read_int(32)?;
        if length < 0 {
            return Err(DecodeError::BufferExhausted);
        }
        let data = utils::PaintmapData::new();
        reader.skip(length as usize)?;
        Ok(Self { length, data })
    }
}

} // verus!
