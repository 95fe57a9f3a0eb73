//! Small record types shared across the decoders: entity handles, console
//! variables, server classes, game-event descriptors, and the exact
//! fixed-point values the quantized codecs produce.

use vstd::prelude::*;
use crate::DecodeError;
use crate::bitreader::{BitReader, bits_ok, cstr_at, cstr_len_at, int_at, uint_at};

verus! {

/// A networked entity handle: the low 11 bits are the entity index, the rest
/// the serial number.
#[derive(Clone, Copy, PartialEq, Eq, Structural, Debug)]
pub struct EHandle {
    pub val: i32,
}

impl EHandle {
    /// The low 11 bits of the handle.
    pub fn ent_index(&self) -> (r: i32)
        ensures
            r == self.val & 0x7ff,
            0 <= r < 2048,
            self.val >= 0 ==> r == self.val % 2048,
    {
        proof {
            let v = self.val;
            assert(0 <= (v & 0x7ff) < 2048) by (bit_vector);
            assert(v >= 0 ==> (v & 0x7ff) == v % 2048) by (bit_vector);
        }
        self.val & 0x7ff
    }

    /// The handle shifted past the entity index.
    pub fn serial(&self) -> (r: i32)
        ensures
            r == self.val >> 11u32,
            self.val >= 0 ==> r == self.val / 2048,
    {
        proof {
            let v = self.val;
            assert(v >= 0 ==> (v >> 11u32) == v / 2048) by (bit_vector);
        }
        self.val >> 11u32
    }
}

/// A console variable transmitted in a `NetSetConVar` message.
#[derive(Clone, Debug)]
pub struct ConVar {
    pub convar_name: String,
    pub convar_value: String,
}

impl ConVar {
    pub fn new() -> (r: Self)
        ensures
            r.convar_name@ == Seq::<char>::empty(),
            r.convar_value@ == Seq::<char>::empty(),
    {
        Self { convar_name: String::new(), convar_value: String::new() }
    }
}

/// One declared server class: its schema-table id and the two names that bind
/// it to a schema table.
#[derive(Clone, Debug)]
pub struct ServerClass {
    pub datatable_id: i32,
    pub class_name: String,
    pub data_table_name: String,
}

impl ServerClass {
    pub fn new() -> (r: Self)
        ensures
            r.datatable_id == 0,
            r.class_name@ == Seq::<char>::empty(),
            r.data_table_name@ == Seq::<char>::empty(),
    {
        Self { datatable_id: 0, class_name: String::new(), data_table_name: String::new() }
    }
}

/// Placeholder for string-table payloads that are skipped, not decoded.
#[derive(Clone, Debug)]
pub struct StringTable;

impl StringTable {
    pub fn new() -> Self {
        Self
    }
}

/// Placeholder for voice payloads that are skipped, not decoded.
#[derive(Clone, Debug)]
pub struct VoiceData;

impl VoiceData {
    pub fn new() -> Self {
        Self
    }
}

/// Placeholder for sound payloads that are skipped, not decoded.
#[derive(Clone, Debug)]
pub struct SoundInfo;

/// Placeholder for split-screen payloads that are skipped, not decoded.
#[derive(Clone, Debug)]
pub struct SplitScreenData;

impl SplitScreenData {
    pub fn new() -> Self {
        Self
    }
}

/// Placeholder for entity-message payloads that are skipped, not decoded.
#[derive(Clone, Debug)]
pub struct EntityMessageData;

impl EntityMessageData {
    pub fn new() -> Self {
        Self
    }
}

/// Placeholder for entity-delta payloads that are skipped, not decoded.
#[derive(Clone, Debug)]
pub struct PacketEntitiesData;

impl PacketEntitiesData {
    pub fn new() -> Self {
        Self
    }
}

/// Placeholder for temp-entity payloads that are skipped, not decoded.
#[derive(Clone, Debug)]
pub struct TempEntitiesData;

impl TempEntitiesData {
    pub fn new() -> Self {
        Self
    }
}

/// Placeholder for menu payloads that are skipped, not decoded.
#[derive(Clone, Debug)]
pub struct MenuData;

impl MenuData {
    pub fn new() -> Self {
        Self
    }
}

/// Placeholder for key-value payloads that are skipped, not decoded.
#[derive(Clone, Debug)]
pub struct CmdKeyValuesData;

impl CmdKeyValuesData {
    pub fn new() -> Self {
        Self
    }
}

/// Placeholder for paint-map payloads that are skipped, not decoded.
#[derive(Clone, Debug)]
pub struct PaintmapData;

impl PaintmapData {
    pub fn new() -> Self {
        Self
    }
}

/// `kvs` with `end` is exactly the run of `n` pairs of NUL-terminated strings
/// starting at bit `pos`; `end` is the bit position just past the last pair.
pub open spec fn cstr_pairs_at(
    bytes: Seq<u8>,
    pos: int,
    n: nat,
    kvs: Seq<(Seq<char>, Seq<char>)>,
    end: int,
) -> bool
    decreases n,
{
    if n == 0 {
        &&& kvs.len() == 0
        &&& end == pos
    } else {
        &&& crate::bitreader::has_cstr(bytes, pos)
        &&& crate::bitreader::has_cstr(bytes, crate::bitreader::after_cstr(bytes, pos))
        &&& kvs.len() == n
        &&& kvs[0] == (
            cstr_at(bytes, pos),
            cstr_at(bytes, crate::bitreader::after_cstr(bytes, pos)),
        )
        &&& cstr_pairs_at(
            bytes,
            crate::bitreader::after_cstr(
                bytes,
                crate::bitreader::after_cstr(bytes, pos),
            ),
            (n - 1) as nat,
            kvs.skip(1),
            end,
        )
    }
}

/// The bit position just past a run of `n` string pairs at `pos`.
pub open spec fn cstr_pairs_end(bytes: Seq<u8>, pos: int, n: nat) -> int
    decreases n,
{
    if n == 0 {
        pos
    } else {
        cstr_pairs_end(
            bytes,
            crate::bitreader::after_cstr(bytes, crate::bitreader::after_cstr(bytes, pos)),
            (n - 1) as nat,
        )
    }
}

/// A pair run's recorded end is the functional end position.
pub proof fn lemma_cstr_pairs_end(
    bytes: Seq<u8>,
    pos: int,
    n: nat,
    kvs: Seq<(Seq<char>, Seq<char>)>,
    end: int,
)
    requires
        cstr_pairs_at(bytes, pos, n, kvs, end),
    ensures
        end == cstr_pairs_end(bytes, pos, n),
    decreases n,
{
    if n > 0 {
        lemma_cstr_pairs_end(
            bytes,
            crate::bitreader::after_cstr(bytes, crate::bitreader::after_cstr(bytes, pos)),
            (n - 1) as nat,
            kvs.skip(1),
            end,
        );
    }
}

/// Some run of `n` string pairs stands at bit `pos`.
pub open spec fn cstr_pairs_exist(bytes: Seq<u8>, pos: int, n: nat) -> bool {
    exists|kvs: Seq<(Seq<char>, Seq<char>)>, end: int|
        #[trigger] cstr_pairs_at(bytes, pos, n, kvs, end)
}

/// A decoded game-event key value; the variant is picked by the 3-bit type
/// tag stored in the event's descriptor.
#[derive(Clone, Debug)]
pub enum GameEventKeyTypes {
    NoValue,
    KeyString(String),
    /// A 32-bit IEEE-754 value, kept as its raw bit pattern.
    FloatBits(u32),
    Int32(i32),
    Int16(i32),
    Int8(i32),
    Boolean(bool),
    UInt64(u64),
}

/// A declared game event: its id, its name, and the ordered, typed keys every
/// instance of the event carries.  Key order is the decode order.
#[derive(Clone, Debug)]
pub struct GameEventDescriptor {
    pub event_id: i32,
    pub name: String,
    pub keys: Vec<(String, i32)>,
}

/// `keys` with `end` is exactly what the key-declaration list starting at bit
/// `pos` holds: 3-bit type tags, each nonzero tag followed by a
/// NUL-terminated key name, the list closed by a zero tag; `end` is the bit
/// position just past the closing tag.
pub open spec fn ged_keys_at(
    bytes: Seq<u8>,
    pos: int,
    keys: Seq<(Seq<char>, i32)>,
    end: int,
) -> bool
    decreases keys.len(),
{
    if keys.len() == 0 {
        &&& bits_ok(bytes, pos, 3)
        &&& uint_at(bytes, pos, 3) == 0
        &&& end == pos + 3
    } else {
        &&& bits_ok(bytes, pos, 3)
        &&& uint_at(bytes, pos, 3) != 0
        &&& keys[0].1 == int_at(bytes, pos, 3)
        &&& cstr_len_at(bytes, pos + 3) is Some
        &&& keys[0].0 == cstr_at(bytes, pos + 3)
        &&& ged_keys_at(
            bytes,
            pos + 3 + 8 * (cstr_len_at(bytes, pos + 3).unwrap() + 1),
            keys.skip(1),
            end,
        )
    }
}

/// Some key-declaration run closed by a zero tag stands at bit `pos`.
pub open spec fn ged_keys_exist(bytes: Seq<u8>, pos: int) -> bool {
    exists|keys: Seq<(Seq<char>, i32)>, end: int| #[trigger] ged_keys_at(bytes, pos, keys, end)
}

impl GameEventDescriptor {
    pub fn new() -> (r: Self)
        ensures
            r.event_id == 0,
            r.name@ == Seq::<char>::empty(),
            r.keys@ == Seq::<(String, i32)>::empty(),
    {
        Self { event_id: 0, name: String::new(), keys: Vec::new() }
    }

    /// Reads one descriptor: a 9-bit event id, the event name, then the key
    /// declarations up to and including their closing zero tag.
    #[verifier::loop_isolation(false)]
    #[verifier::rlimit(60)]
    pub fn parse(reader: &mut BitReader) -> (r: Result<Self, DecodeError>)
        requires
            old(reader).wf(),
        ensures
            final(reader).wf(),
            final(reader).buf() == old(reader).buf(),
            final(reader).pos >= old(reader).pos,
            r is Ok <==> ({
                let buf = old(reader).buf();
                let p0 = old(reader).pos as int;
                &&& bits_ok(buf, p0, 9)
                &&& cstr_len_at(buf, p0 + 9) is Some
                &&& ged_keys_exist(buf, crate::bitreader::after_cstr(buf, p0 + 9))
            }),
            match r {
                Ok(d) => {
                    let buf = old(reader).buf();
                    let p0 = old(reader).pos as int;
                    &&& bits_ok(buf, p0, 9)
                    &&& d.event_id == int_at(buf, p0, 9)
                    &&& cstr_len_at(buf, p0 + 9) is Some
                    &&& d.name@ == cstr_at(buf, p0 + 9)
                    &&& ged_keys_at(
                        buf,
                        p0 + 9 + 8 * (cstr_len_at(buf, p0 + 9).unwrap() + 1),
                        d.keys@.map_values(|kv: (String, i32)| (kv.0@, kv.1)),
                        final(reader).pos as int,
                    )
                },
                Err(e) => e == DecodeError::BufferExhausted,
            },
    {
        let ghost buf = reader.bits@;
        let event_id = reader.read_int(9)?;
        let name = reader.read_ascii_string_nulled()?;
        let ghost kpos0 = reader.pos as int;
        let mut keys: Vec<(String, i32)> = Vec::new();
        loop
            invariant
                reader.wf(),
                reader.bits@ == buf,
                reader.pos >= 0,
                reader.pos >= old(reader).pos,
                ged_keys_exist(buf, kpos0) <==> ged_keys_exist(buf, reader.pos as int),
                forall|rest: Seq<(Seq<char>, i32)>, end: int|
                    #[trigger] ged_keys_at(buf, reader.pos as int, rest, end) ==> ged_keys_at(
                        buf,
                        kpos0,
                        keys@.map_values(|kv: (String, i32)| (kv.0@, kv.1)) + rest,
                        end,
                    ),
            decreases reader.bit_len() - reader.pos,
        {
            let ghost cur = reader.pos as int;
            let ghost acc = keys@.map_values(|kv: (String, i32)| (kv.0@, kv.1));
            let value_type = reader.read_int(3)?;
            proof {
                crate::bitreader::lemma_int_at_small(buf, cur, 3);
            }
            if value_type == 0 {
                proof {
                    let done = Seq::<(Seq<char>, i32)>::empty();
                    assert(ged_keys_at(buf, cur, done, cur + 3));
                    assert(acc + done =~= acc);
                    assert(ged_keys_at(buf, kpos0, acc, cur + 3));
                }
                return Ok(Self { event_id, name, keys });
            }
            let key_name = reader.read_ascii_string_nulled()?;
            keys.push((key_name, value_type));
            proof {
                let acc2 = keys@.map_values(|kv: (String, i32)| (kv.0@, kv.1));
                assert(acc2 =~= acc + seq![(key_name@, value_type)]);
                assert forall|rest: Seq<(Seq<char>, i32)>, end: int|
                    #[trigger] ged_keys_at(buf, reader.pos as int, rest, end) implies ged_keys_at(
                    buf,
                    kpos0,
                    acc2 + rest,
                    end,
                ) by {
                    let one = seq![(key_name@, value_type)] + rest;
                    assert(one.skip(1) =~= rest);
                    assert(ged_keys_at(buf, cur, one, end));
                    assert(acc + one =~= acc2 + rest);
                }
                if ged_keys_exist(buf, cur) {
                    let (keys0, end0) = choose|keys0: Seq<(Seq<char>, i32)>, end0: int|
                        ged_keys_at(buf, cur, keys0, end0);
                    assert(keys0.len() != 0);
                    assert(ged_keys_at(buf, reader.pos as int, keys0.skip(1), end0));
                }
                if ged_keys_exist(buf, reader.pos as int) {
                    let (keys0, end0) = choose|keys0: Seq<(Seq<char>, i32)>, end0: int|
                        ged_keys_at(buf, reader.pos as int, keys0, end0);
                    let one = seq![(key_name@, value_type)] + keys0;
                    assert(one.skip(1) =~= keys0);
                    assert(ged_keys_at(buf, cur, one, end0));
                }
            }
        }
    }
}

/// A decoded game-event instance: the descriptor it follows and one decoded
/// value per descriptor key, in descriptor order.
#[derive(Clone, Debug)]
pub struct GameEvent {
    pub descriptor: GameEventDescriptor,
    pub keys: Vec<(String, GameEventKeyTypes)>,
}

impl GameEvent {
    pub fn new() -> (r: Self)
        ensures
            r.keys@ == Seq::<(String, GameEventKeyTypes)>::empty(),
            r.descriptor.event_id == 0,
            r.descriptor.name@ == Seq::<char>::empty(),
            r.descriptor.keys@ == Seq::<(String, i32)>::empty(),
    {
        Self { descriptor: GameEventDescriptor::new(), keys: Vec::new() }
    }
}

/// The catalog of declared game events, filled by the event-list message and
/// consulted by every later game-event message.
#[derive(Clone, Debug)]
pub struct GameEventList {
    pub events: i32,
    pub length: i32,
    pub data: Vec<GameEvent>,
}

impl GameEventList {
    pub fn new() -> (r: Self)
        ensures
            r.events == 0,
            r.length == 0,
            r.data@ == Seq::<GameEvent>::empty(),
    {
        Self { events: 0, length: 0, data: Vec::new() }
    }
}

/// Three 32-bit IEEE-754 components, kept as raw bit patterns; interpreting
/// them as floating point is left to callers outside the decoder.
#[derive(Clone, Copy, PartialEq, Eq, Structural, Debug)]
pub struct Vec3 {
    pub x_bits: u32,
    pub y_bits: u32,
    pub z_bits: u32,
}

impl Vec3 {
    pub fn new() -> (r: Vec3)
        ensures
            r.x_bits == 0,
            r.y_bits == 0,
            r.z_bits == 0,
    {
        Vec3 { x_bits: 0, y_bits: 0, z_bits: 0 }
    }
}

/// An exact rational `numer / denom`, the result of the quantized coordinate
/// and angle codecs.
#[derive(Clone, Copy, PartialEq, Eq, Structural, Debug)]
pub struct FixedPoint {
    pub numer: i32,
    pub denom: u32,
}

/// The number of bits needed to hold values up to `x`: zero for zero, one
/// more than for the halved value otherwise, and the full word for negative
/// values.
pub open spec fn spec_bit_width(x: int) -> int
    decreases (if x > 0 {
        x
    } else {
        0int
    }),
{
    if x < 0 {
        32int
    } else if x == 0 {
        0int
    } else {
        1 + spec_bit_width(x / 2)
    }
}

/// `spec_bit_width` brackets a positive value between consecutive powers of
/// two.
pub proof fn lemma_bit_width_bounds(x: int)
    requires
        x > 0,
    ensures
        spec_bit_width(x) >= 1,
        vstd::arithmetic::power2::pow2((spec_bit_width(x) - 1) as nat) <= x,
        x < vstd::arithmetic::power2::pow2(spec_bit_width(x) as nat),
    decreases x,
{
    vstd::arithmetic::power2::lemma2_to64();
    if x == 1 {
        assert(spec_bit_width(1) == 1 + spec_bit_width(0));
    } else {
        lemma_bit_width_bounds(x / 2);
        let b = spec_bit_width(x / 2);
        vstd::arithmetic::power2::lemma_pow2_unfold((b + 1) as nat);
        vstd::arithmetic::power2::lemma_pow2_unfold(b as nat);
        assert(2 * (x / 2) <= x);
        assert(x <= 2 * (x / 2) + 1);
    }
}

/// Position of the highest set bit, plus one: the number of bits needed to
/// hold values up to `x`.  Used for the width of class-id fields.
#[verifier::loop_isolation(false)]
pub fn log2_of_x_plus_one(x: i32) -> (r: i32)
    ensures
        0 <= r <= 32,
        r == spec_bit_width(x as int),
        x >= 0 ==> (x as nat) < vstd::arithmetic::power2::pow2(r as nat),
        x > 0 ==> vstd::arithmetic::power2::pow2((r - 1) as nat) <= x,
        x == 0 ==> r == 0,
        x < 0 ==> r == 32,
{
    proof {
        if x > 0 {
            lemma_bit_width_bounds(x as int);
        }
    }
    let u: u32 = x as u32;
    let mut j: i32 = 31;
    proof {
        vstd::arithmetic::power2::lemma2_to64();
        vstd::arithmetic::power2::lemma2_to64_rest();
        assert(x < 0 ==> (x as u32) & (1u32 << 31u32) != 0) by (bit_vector);
        assert(x >= 0 ==> (x as u32) == x) by (bit_vector);
        assert((u as nat) < pow2_u32(32)) by {
            assert(u < 0x1_0000_0000);
        }
    }
    while j >= 0 && (u & (1u32 << (j as u32))) == 0
        invariant
            -1 <= j <= 31,
            (u as nat) < pow2_u32((j + 1) as nat),
            x < 0 ==> j == 31,
        decreases j + 1,
    {
        proof {
            let jj = j as u32;
            if x < 0 {
                assert(!(u & (1u32 << jj) == 0 && jj == 31 && u & (1u32 << 31u32) != 0))
                    by (bit_vector);
            }
            if jj == 31 {
                assert(u & (1u32 << 31u32) == 0 ==> u < 0x8000_0000u32) by (bit_vector);
            } else {
                assert((u & (1u32 << jj)) == 0 && (u as u64) < (1u64 << vstd::prelude::add(
                    jj as u64,
                    1,
                )) ==> (u as u64) < (1u64 << (jj as u64))) by (bit_vector)
                    requires
                        jj < 31,
                ;
                lemma_shifts_are_pow2((j + 1) as nat);
            }
            lemma_shifts_are_pow2(j as nat);
        }
        j = j - 1;
    }
    proof {
        if j >= 0 {
            let jj = j as u32;
            assert((u & (1u32 << jj)) != 0 ==> (u as u64) >= (1u64 << (jj as u64)))
                by (bit_vector)
                requires
                    jj < 32,
            ;
            lemma_shifts_are_pow2(j as nat);
        }
        if x > 0 {
            let b = spec_bit_width(x as int);
            let r0 = j + 1;
            if r0 < b {
                vstd::arithmetic::power2::lemma_pow2_strictly_increases(
                    r0 as nat,
                    b as nat,
                );
                assert(pow2_u32((b - 1) as nat) >= pow2_u32(r0 as nat)) by {
                    if r0 < b - 1 {
                        vstd::arithmetic::power2::lemma_pow2_strictly_increases(
                            r0 as nat,
                            (b - 1) as nat,
                        );
                    }
                }
                assert(false);
            }
            if b < r0 {
                vstd::arithmetic::power2::lemma_pow2_strictly_increases(
                    b as nat,
                    r0 as nat,
                );
                assert(pow2_u32((r0 - 1) as nat) >= pow2_u32(b as nat)) by {
                    if b < r0 - 1 {
                        vstd::arithmetic::power2::lemma_pow2_strictly_increases(
                            b as nat,
                            (r0 - 1) as nat,
                        );
                    }
                }
                assert(false);
            }
        }
    }
    j + 1
}

/// `pow2` restricted to the exponents a `u32` can shift by.
pub open spec fn pow2_u32(n: nat) -> nat {
    vstd::arithmetic::power2::pow2(n)
}

/// The 32-bit left shift of one equals `pow2` for exponents below 32.
pub proof fn lemma_shift_u32_pow2(n: nat)
    requires
        n <= 31,
    ensures
        (1u32 << (n as u32)) as nat == vstd::arithmetic::power2::pow2(n),
{
    vstd::bits::lemma_u32_pow2_no_overflow(n);
    vstd::bits::lemma_u32_shl_is_mul(1u32, n as u32);
}

/// The 64-bit left shift of one equals `pow2` for exponents below 33.
proof fn lemma_shifts_are_pow2(n: nat)
    requires
        n <= 32,
    ensures
        (1u64 << (n as u64)) as nat == vstd::arithmetic::power2::pow2(n),
{
    vstd::arithmetic::power2::lemma2_to64();
    vstd::arithmetic::power2::lemma2_to64_rest();
    vstd::bits::lemma_u64_shl_is_mul(1u64, n as u64);
}

} // verus!
