//! String tables: mid-stream-declared maps from small indices to names, with
//! optional per-entry payloads whose layout depends on the table's name.

use vstd::prelude::*;
use vstd::string::StringExecFns;
use crate::DecodeError;
use crate::bitreader::{
    BitReader, after_cstr, bits_ok, bool_at, bytes_at, cstr_at, cstr_len_at, fixed_str_at,
    has_cstr, int_at, uint_at,
};

verus! {

/// One decoded string table.
#[derive(Clone, Debug)]
pub struct StringTable {
    pub name: String,
    pub entry_count: i32,
    pub class_count: i32,
    pub table_entries: Vec<StringTableEntry>,
    pub classes: Vec<StringTableClass>,
}

impl StringTable {
    pub fn new() -> (r: Self)
        ensures
            r.name@ == Seq::<char>::empty(),
            r.entry_count == 0,
            r.class_count == 0,
            r.table_entries@.len() == 0,
            r.classes@.len() == 0,
    {
        Self {
            name: String::new(),
            entry_count: 0,
            class_count: 0,
            table_entries: Vec::new(),
            classes: Vec::new(),
        }
    }

    /// Reads one table: its name, a 16-bit entry count and that many
    /// entries, then, behind a presence bit, a 16-bit class count and that
    /// many classes.
    #[verifier::loop_isolation(false)]
    pub fn parse(reader: &mut BitReader) -> (r: Result<Self, DecodeError>)
        requires
            old(reader).wf(),
        ensures
            final(reader).wf(),
            final(reader).buf() == old(reader).buf(),
            final(reader).pos >= old(reader).pos,
            r matches Ok(t) ==> ({
                let buf = old(reader).buf();
                let p = old(reader).pos as int;
                &&& has_cstr(buf, p)
                &&& t.name@ == cstr_at(buf, p)
                &&& t.entry_count == int_at(buf, after_cstr(buf, p), 16)
                &&& t.table_entries@.len() == t.entry_count
                &&& t.class_count >= 0
                &&& t.classes@.len() == t.class_count
            }),
            r is Err ==> r == Err::<Self, DecodeError>(DecodeError::BufferExhausted),
    {
        let ghost buf = reader.bits@;
        let name = reader.read_ascii_string_nulled()?;
        let ghost cpos = reader.pos as int;
        let entry_count = reader.read_int(16)?;
        proof {
            crate::bitreader::lemma_int_at_small(buf, cpos, 16);
        }
        let mut class_count: i32 = 0;
        let mut table_entries: Vec<StringTableEntry> = Vec::new();
        let mut classes: Vec<StringTableClass> = Vec::new();
        let mut i: i32 = 0;
        while i < entry_count
            invariant
                reader.wf(),
                reader.bits@ == buf,
                reader.pos >= old(reader).pos,
                0 <= i <= entry_count,
                table_entries@.len() == i,
            decreases entry_count - i,
        {
            let mut entry = StringTableEntry::new();
            entry.parse(reader, &name)?;
            table_entries.push(entry);
            i = i + 1;
        }
        if reader.read_bool()? {
            let ghost ccpos = reader.pos as int;
            class_count = reader.read_int(16)?;
            proof {
                crate::bitreader::lemma_int_at_small(buf, ccpos, 16);
            }
            let mut j: i32 = 0;
            while j < class_count
                invariant
                    reader.wf(),
                    reader.bits@ == buf,
                    reader.pos >= old(reader).pos,
                    0 <= j <= class_count,
                    classes@.len() == j,
                decreases class_count - j,
            {
                let mut class = StringTableClass::new();
                class.parse(reader)?;
                classes.push(class);
                j = j + 1;
            }
        }
        Ok(Self { name, entry_count, class_count, table_entries, classes })
    }
}

/// One table entry: its name and, when present, a typed payload decoded from
/// a length-prefixed region.
#[derive(Clone, Debug)]
pub struct StringTableEntry {
    pub name: String,
    pub entry_data: StringTableEntryDataTypes,
}

impl StringTableEntry {
    pub fn new() -> (r: Self)
        ensures
            r.name@ == Seq::<char>::empty(),
            r.entry_data is Absent,
    {
        Self { name: String::new(), entry_data: StringTableEntryDataTypes::Absent }
    }

    /// Reads the entry name and, behind a presence bit, a 16-bit byte length
    /// and the payload.  The payload is decoded from a snapshot cursor while
    /// this cursor advances past exactly the declared length, so the outer
    /// position never depends on the payload's internal layout.
    pub fn parse(&mut self, reader: &mut BitReader, table_name: &String) -> (r: Result<
        (),
        DecodeError,
    >)
        requires
            old(reader).wf(),
        ensures
            final(reader).wf(),
            final(reader).buf() == old(reader).buf(),
            final(reader).pos >= old(reader).pos,
            r is Ok <==> ({
                let buf = old(reader).buf();
                let p = old(reader).pos as int;
                let q = after_cstr(buf, p);
                &&& has_cstr(buf, p)
                &&& bits_ok(buf, q, 1)
                &&& (bool_at(buf, q) ==> bits_ok(buf, q + 1, (16 + 8 * uint_at(
                    buf,
                    q + 1,
                    16,
                )) as nat) && entry_payload_fits(table_name@, buf, q + 17))
            }),
            r is Ok ==> ({
                let buf = old(reader).buf();
                let p = old(reader).pos as int;
                let q = after_cstr(buf, p);
                &&& final(self).name@ == cstr_at(buf, p)
                &&& !bool_at(buf, q) ==> final(self).entry_data == old(self).entry_data
                    && final(reader).pos == q + 1
                &&& bool_at(buf, q) ==> final(reader).pos == q + 17 + 8 * (int_at(
                    buf,
                    q + 1,
                    16,
                ) as int)
                &&& bool_at(buf, q) ==> ({
                    let n = table_name@;
                    &&& n == "userinfo"@ ==> final(self).entry_data is PlayerInfo
                    &&& n == "server_query_info"@ ==> final(self).entry_data is QueryPort
                    &&& (n == "GameRulesCreation"@ || n
                        == "InfoPanel"@) ==> final(self).entry_data is StringEntryData
                    &&& n == "lightstyles"@ ==> final(self).entry_data is LightStyle
                    &&& (n == "modelprecache"@ || n == "soundprecache"@ || n == "genericprecache"@
                        || n == "decalprecache"@) ==> final(self).entry_data is PrecacheData
                })
            }),
            r is Err ==> r == Err::<(), DecodeError>(DecodeError::BufferExhausted),
    {
        let ghost buf = reader.bits@;
        self.name = reader.read_ascii_string_nulled()?;
        if reader.read_bool()? {
            let ghost lpos = reader.pos as int;
            let length = reader.read_int(16)?;
            proof {
                crate::bitreader::lemma_int_at_small(buf, lpos, 16);
            }
            proof {
                vstd::arithmetic::power2::lemma2_to64();
            }
            let mut sub = reader.split_and_skip((length as usize) * 8)?;
            self.entry_data = Self::parse_entry_data(&mut sub, table_name, length)?;
        }
        Ok(())
    }

    /// Decodes a payload whose layout is picked by the table's name; a name
    /// without a known layout skips the declared length and yields `Unknown`.
    pub fn parse_entry_data(reader: &mut BitReader, table_name: &String, length: i32) -> (r: Result<
        StringTableEntryDataTypes,
        DecodeError,
    >)
        requires
            old(reader).wf(),
            0 <= length,
            8 * length <= old(reader).bits_left(),
        ensures
            final(reader).wf(),
            final(reader).buf() == old(reader).buf(),
            final(reader).pos >= old(reader).pos,
            r is Ok <==> entry_payload_fits(
                table_name@,
                old(reader).buf(),
                old(reader).pos as int,
            ),
            r matches Ok(d) ==> ({
                let n = table_name@;
                &&& n == "userinfo"@ ==> d is PlayerInfo
                &&& n == "server_query_info"@ ==> d is QueryPort
                &&& (n == "GameRulesCreation"@ || n == "InfoPanel"@) ==> d is StringEntryData
                &&& n == "lightstyles"@ ==> d is LightStyle
                &&& (n == "modelprecache"@ || n == "soundprecache"@ || n == "genericprecache"@ || n
                    == "decalprecache"@) ==> d is PrecacheData
            }),
            r is Err ==> r == Err::<StringTableEntryDataTypes, DecodeError>(
                DecodeError::BufferExhausted,
            ),
    {
        proof {
            reveal_strlit("userinfo");
            reveal_strlit("server_query_info");
            reveal_strlit("GameRulesCreation");
            reveal_strlit("InfoPanel");
            reveal_strlit("lightstyles");
            reveal_strlit("modelprecache");
            reveal_strlit("soundprecache");
            reveal_strlit("genericprecache");
            reveal_strlit("decalprecache");
            assert("server_query_info"@ != "GameRulesCreation"@) by {
                assert("server_query_info"@[0] == 's');
                assert("GameRulesCreation"@[0] == 'G');
            }
            assert("userinfo"@.len() == 8);
            assert("server_query_info"@.len() == 17);
            assert("GameRulesCreation"@.len() == 17);
            assert("InfoPanel"@.len() == 9);
            assert("lightstyles"@.len() == 11);
            assert("modelprecache"@.len() == 13);
            assert("soundprecache"@.len() == 13);
            assert("genericprecache"@.len() == 15);
            assert("decalprecache"@.len() == 13);
        }
        if string_eq_lit(table_name, "userinfo") {
            Ok(StringTableEntryDataTypes::PlayerInfo(PlayerInfo::parse(reader)?))
        } else if string_eq_lit(table_name, "server_query_info") {
            Ok(StringTableEntryDataTypes::QueryPort(QueryPort::parse(reader)?))
        } else if string_eq_lit(table_name, "GameRulesCreation") || string_eq_lit(
            table_name,
            "InfoPanel",
        ) {
            Ok(StringTableEntryDataTypes::StringEntryData(StringEntryData::parse(reader)?))
        } else if string_eq_lit(table_name, "lightstyles") {
            Ok(StringTableEntryDataTypes::LightStyle(LightStyle::parse(reader)?))
        } else if string_eq_lit(table_name, "modelprecache") || string_eq_lit(
            table_name,
            "soundprecache",
        ) || string_eq_lit(table_name, "genericprecache") || string_eq_lit(
            table_name,
            "decalprecache",
        ) {
            Ok(StringTableEntryDataTypes::PrecacheData(PrecacheData::parse(reader)?))
        } else {
            match reader.skip((length as usize) * 8) {
                Ok(()) => {},
                Err(e) => {
                    proof {
                        assert(false);
                    }
                    return Err(e);
                },
            }
            Ok(StringTableEntryDataTypes::Unknown)
        }
    }
}

/// Compares a string against a literal by contents.
pub fn string_eq_lit(name: &String, lit: &str) -> (r: bool)
    ensures
        r == (name@ == lit@),
{
    let tmp = String::from_str(lit);
    <String as PartialEq>::eq(name, &tmp)
}

/// The typed payload the table's name selects fits the buffer at `pos`; a
/// name without a known layout always fits, since its declared length is
/// skipped instead of decoded.
pub open spec fn entry_payload_fits(name: Seq<char>, buf: Seq<u8>, pos: int) -> bool {
    if name == "userinfo"@ {
        bits_ok(buf, pos, 1020)
    } else if name == "server_query_info"@ {
        bits_ok(buf, pos, 32)
    } else if name == "GameRulesCreation"@ || name == "InfoPanel"@ {
        has_cstr(buf, pos)
    } else if name == "lightstyles"@ {
        has_cstr(buf, pos)
    } else if name == "modelprecache"@ || name == "soundprecache"@ || name == "genericprecache"@
        || name == "decalprecache"@ {
        bits_ok(buf, pos, 2)
    } else {
        true
    }
}

/// The decodable per-entry payload kinds.
#[derive(Clone, Debug)]
pub enum StringTableEntryDataTypes {
    Absent,
    Unknown,
    PlayerInfo(PlayerInfo),
    QueryPort(QueryPort),
    StringEntryData(StringEntryData),
    LightStyle(LightStyle),
    PrecacheData(PrecacheData),
}

/// One table class: a name and an optional length-prefixed data string.
#[derive(Clone, Debug)]
pub struct StringTableClass {
    pub name: String,
    pub data: String,
}

impl StringTableClass {
    pub fn new() -> (r: Self)
        ensures
            r.name@ == Seq::<char>::empty(),
            r.data@ == Seq::<char>::empty(),
    {
        Self { name: String::new(), data: String::new() }
    }

    /// Reads the class name and, behind a presence bit, a 16-bit byte length
    /// and that many bytes of data.
    pub fn parse(&mut self, reader: &mut BitReader) -> (r: Result<(), DecodeError>)
        requires
            old(reader).wf(),
        ensures
            final(reader).wf(),
            final(reader).buf() == old(reader).buf(),
            final(reader).pos >= old(reader).pos,
            r is Ok <==> ({
                let buf = old(reader).buf();
                let p = old(reader).pos as int;
                let q = after_cstr(buf, p);
                &&& has_cstr(buf, p)
                &&& bits_ok(buf, q, 1)
                &&& (bool_at(buf, q) ==> bits_ok(buf, q, (17 + 8 * uint_at(buf, q + 1, 16)) as nat))
            }),
            r is Ok ==> ({
                let buf = old(reader).buf();
                let p = old(reader).pos as int;
                let q = after_cstr(buf, p);
                &&& final(self).name@ == cstr_at(buf, p)
                &&& bool_at(buf, q) ==> final(self).data@ == fixed_str_at(
                    buf,
                    q + 17,
                    int_at(buf, q + 1, 16) as nat,
                )
                &&& !bool_at(buf, q) ==> final(reader).pos == q + 1
            }),
            r is Err ==> r == Err::<(), DecodeError>(DecodeError::BufferExhausted),
    {
        let ghost buf = reader.bits@;
        self.name = reader.read_ascii_string_nulled()?;
        if reader.read_bool()? {
            let ghost lpos = reader.pos as int;
            let length = reader.read_int(16)?;
            proof {
                crate::bitreader::lemma_int_at_small(buf, lpos, 16);
            }
            proof {
                vstd::arithmetic::power2::lemma2_to64();
            }
            self.data = reader.read_ascii_string((length as usize) * 8)?;
            proof {
                assert(8 * ((8 * length) / 8) == 8 * length);
            }
        }
        Ok(())
    }
}

/// A player-info entry from the `userinfo` table.
#[derive(Clone, Debug)]
pub struct PlayerInfo {
    pub name: String,
    pub user_id: i32,
    pub guid: String,
    pub friends_id: i32,
    pub friends_name: String,
    pub fake_player: bool,
    pub is_hltv: bool,
    pub custom_files: Vec<i32>,
    pub files_downloaded: i32,
}

impl PlayerInfo {
    /// Reads the fixed player-info record, padding skips included.
    pub fn parse(reader: &mut BitReader) -> (r: Result<Self, DecodeError>)
        requires
            old(reader).wf(),
        ensures
            final(reader).wf(),
            final(reader).buf() == old(reader).buf(),
            final(reader).pos >= old(reader).pos,
            r is Ok <==> bits_ok(old(reader).buf(), old(reader).pos as int, 1020),
            r matches Ok(m) ==> ({
                let buf = old(reader).buf();
                let p = old(reader).pos as int;
                &&& m.name@ == fixed_str_at(buf, p, 32)
                &&& m.user_id == int_at(buf, p + 256, 32)
                &&& m.guid@ == fixed_str_at(buf, p + 288, 33)
                &&& m.friends_id == int_at(buf, p + 576, 32)
                &&& m.friends_name@ == fixed_str_at(buf, p + 608, 32)
                &&& m.fake_player == (int_at(buf, p + 864, 8) != 0)
                &&& m.is_hltv == (int_at(buf, p + 872, 8) != 0)
                &&& m.custom_files@.len() == 4
                &&& m.custom_files@[0] == int_at(buf, p + 896, 23)
                &&& m.custom_files@[1] == int_at(buf, p + 919, 23)
                &&& m.custom_files@[2] == int_at(buf, p + 942, 23)
                &&& m.custom_files@[3] == int_at(buf, p + 965, 23)
                &&& m.files_downloaded == int_at(buf, p + 988, 8)
                &&& final(reader).pos == old(reader).pos + 1020
            }),
            r is Err ==> r == Err::<Self, DecodeError>(DecodeError::BufferExhausted),
    {
        let name = reader.read_ascii_string(32 * 8)?;
        let user_id = reader.read_int(32)?;
        let guid = reader.read_ascii_string(33 * 8)?;
        reader.skip(24)?;
        let friends_id = reader.read_int(32)?;
        let friends_name = reader.read_ascii_string(32 * 8)?;
        let fake_player = reader.read_int(8)? != 0;
        let is_hltv = reader.read_int(8)? != 0;
        reader.skip(16)?;
        let mut custom_files: Vec<i32> = Vec::new();
        let c0 = reader.read_int(23)?;
        let c1 = reader.read_int(23)?;
        let c2 = reader.read_int(23)?;
        let c3 = reader.read_int(23)?;
        custom_files.push(c0);
        custom_files.push(c1);
        custom_files.push(c2);
        custom_files.push(c3);
        let files_downloaded = reader.read_int(8)?;
        reader.skip(24)?;
        Ok(
            Self {
                name,
                user_id,
                guid,
                friends_id,
                friends_name,
                fake_player,
                is_hltv,
                custom_files,
                files_downloaded,
            },
        )
    }
}

/// Placeholder for per-class baseline payloads, which this decoder does not
/// interpret.
#[derive(Clone, Debug)]
pub struct InstanceBaseline;

/// The query port from the `server_query_info` table.
#[derive(Clone, Debug)]
pub struct QueryPort {
    pub port: i32,
}

impl QueryPort {
    pub fn parse(reader: &mut BitReader) -> (r: Result<Self, DecodeError>)
        requires
            old(reader).wf(),
        ensures
            final(reader).wf(),
            final(reader).buf() == old(reader).buf(),
            final(reader).pos >= old(reader).pos,
            r is Ok <==> bits_ok(old(reader).buf(), old(reader).pos as int, 32),
            r matches Ok(m) ==> m.port == int_at(old(reader).buf(), old(reader).pos as int, 32)
                && final(reader).pos == old(reader).pos + 32,
            r is Err ==> r == Err::<Self, DecodeError>(DecodeError::BufferExhausted),
    {
        Ok(Self { port: reader.read_int(32)? })
    }
}

/// A single-string entry payload.
#[derive(Clone, Debug)]
pub struct StringEntryData {
    pub value: String,
}

impl StringEntryData {
    pub fn parse(reader: &mut BitReader) -> (r: Result<Self, DecodeError>)
        requires
            old(reader).wf(),
        ensures
            final(reader).wf(),
            final(reader).buf() == old(reader).buf(),
            final(reader).pos >= old(reader).pos,
            r is Ok <==> has_cstr(old(reader).buf(), old(reader).pos as int),
            r matches Ok(m) ==> m.value@ == cstr_at(old(reader).buf(), old(reader).pos as int)
                && final(reader).pos == after_cstr(old(reader).buf(), old(reader).pos as int),
            r is Err ==> r == Err::<Self, DecodeError>(DecodeError::BufferExhausted),
    {
        Ok(Self { value: reader.read_ascii_string_nulled()? })
    }
}

/// The brightness ramp value a light-style byte stands for: the byte taken
/// relative to the letter `a`, scaled by 22, modulo one byte.
pub open spec fn light_style_val(b: u8) -> u8 {
    (((if b >= 97 {
        (b - 97) as int
    } else {
        b + 159
    }) * 22) % 256) as u8
}

/// A `lightstyles` entry: one brightness value per pattern letter.
#[derive(Clone, Debug)]
pub struct LightStyle {
    pub values: Vec<u8>,
}

impl LightStyle {
    /// Reads the NUL-terminated pattern and maps each letter to its
    /// brightness value.
    #[verifier::loop_isolation(false)]
    pub fn parse(reader: &mut BitReader) -> (r: Result<Self, DecodeError>)
        requires
            old(reader).wf(),
        ensures
            final(reader).wf(),
            final(reader).buf() == old(reader).buf(),
            final(reader).pos >= old(reader).pos,
            r is Ok <==> has_cstr(old(reader).buf(), old(reader).pos as int),
            r matches Ok(m) ==> ({
                let buf = old(reader).buf();
                let p = old(reader).pos as int;
                let k = cstr_len_at(buf, p).unwrap_or(0);
                &&& m.values@ == bytes_at(buf, p, k).map_values(|b: u8| light_style_val(b))
                &&& final(reader).pos == after_cstr(buf, p)
            }),
            r is Err ==> r == Err::<Self, DecodeError>(DecodeError::BufferExhausted),
    {
        let ghost buf = reader.bits@;
        let start = reader.pos;
        let ghost pos0 = start as int;
        let mut values: Vec<u8> = Vec::new();
        loop
            invariant
                reader.wf(),
                reader.bits@ == buf,
                pos0 >= 0,
                reader.pos == pos0 + 8 * values@.len(),
                values@ == bytes_at(buf, pos0, values@.len()).map_values(
                    |b: u8| light_style_val(b),
                ),
                forall|j: int|
                    0 <= j < values@.len() ==> #[trigger] uint_at(buf, pos0 + 8 * j, 8) != 0,
                crate::bitreader::has_cstr(buf, pos0) <==> crate::bitreader::has_cstr(
                    buf,
                    reader.pos as int,
                ),
                crate::bitreader::has_cstr(buf, pos0) ==> cstr_len_at(buf, pos0).unwrap()
                    == values@.len() + cstr_len_at(buf, reader.pos as int).unwrap(),
            decreases reader.bit_len() - reader.pos,
        {
            let ghost cur = reader.pos as int;
            let b = match reader.read_bits(8) {
                Ok(b) => b,
                Err(_) => {
                    reader.pos = start;
                    return Err(DecodeError::BufferExhausted);
                },
            };
            proof {
                vstd::arithmetic::power2::lemma2_to64();
            }
            if b == 0 {
                proof {
                    assert(cstr_len_at(buf, cur) == Some(0nat));
                }
                return Ok(Self { values });
            }
            let byte = b as u8;
            let d: u32 = if byte >= 97 {
                (byte - 97) as u32
            } else {
                byte as u32 + 159
            };
            let e: u32 = d * 22;
            let v: u8 = (e & 0xff) as u8;
            proof {
                assert(e & 0xff == e % 256) by (bit_vector);
                assert(e & 0xff < 256) by (bit_vector);
            }
            values.push(v);
            proof {
                assert(values@ =~= bytes_at(buf, pos0, values@.len()).map_values(
                    |bb: u8| light_style_val(bb),
                ));
            }
        }
    }
}

/// Copies a vector of plain integers; the copy's contents equal the
/// original's.
fn clone_i32s(v: &Vec<i32>) -> (r: Vec<i32>)
    ensures
        r@ == v@,
{
    let mut out: Vec<i32> = Vec::new();
    let mut i: usize = 0;
    while i < v.len()
        invariant
            i <= v@.len(),
            out@ == v@.take(i as int),
        decreases v@.len() - i,
    {
        out.push(v[i]);
        i = i + 1;
        proof {
            assert(out@ =~= v@.take(i as int));
        }
    }
    proof {
        assert(v@.take(v@.len() as int) =~= v@);
    }
    out
}

/// The two payloads hold the same decoded content (fields equal, vector
/// fields equal element for element).
pub open spec fn entry_data_like(a: StringTableEntryDataTypes, b: StringTableEntryDataTypes) -> bool {
    match (a, b) {
        (StringTableEntryDataTypes::Absent, StringTableEntryDataTypes::Absent) => true,
        (StringTableEntryDataTypes::Unknown, StringTableEntryDataTypes::Unknown) => true,
        (
            StringTableEntryDataTypes::PlayerInfo(x),
            StringTableEntryDataTypes::PlayerInfo(y),
        ) => {
            &&& x.name == y.name
            &&& x.user_id == y.user_id
            &&& x.guid == y.guid
            &&& x.friends_id == y.friends_id
            &&& x.friends_name == y.friends_name
            &&& x.fake_player == y.fake_player
            &&& x.is_hltv == y.is_hltv
            &&& x.custom_files@ == y.custom_files@
            &&& x.files_downloaded == y.files_downloaded
        },
        (StringTableEntryDataTypes::QueryPort(x), StringTableEntryDataTypes::QueryPort(y)) => x
            == y,
        (
            StringTableEntryDataTypes::StringEntryData(x),
            StringTableEntryDataTypes::StringEntryData(y),
        ) => x == y,
        (StringTableEntryDataTypes::LightStyle(x), StringTableEntryDataTypes::LightStyle(y)) => x
            .values@ == y.values@,
        (
            StringTableEntryDataTypes::PrecacheData(x),
            StringTableEntryDataTypes::PrecacheData(y),
        ) => x == y,
        _ => false,
    }
}

/// The two tables hold the same decoded content.
pub open spec fn table_like(a: StringTable, b: StringTable) -> bool {
    &&& a.name == b.name
    &&& a.entry_count == b.entry_count
    &&& a.class_count == b.class_count
    &&& a.table_entries@.len() == b.table_entries@.len()
    &&& forall|i: int|
        0 <= i < a.table_entries@.len() ==> (#[trigger] a.table_entries@[i]).name
            == b.table_entries@[i].name && entry_data_like(
            a.table_entries@[i].entry_data,
            b.table_entries@[i].entry_data,
        )
    &&& a.classes@ == b.classes@
}

/// Copies an entry payload; the copy holds the same content.
fn clone_entry_data(d: &StringTableEntryDataTypes) -> (r: StringTableEntryDataTypes)
    ensures
        entry_data_like(r, *d),
{
    match d {
        StringTableEntryDataTypes::Absent => StringTableEntryDataTypes::Absent,
        StringTableEntryDataTypes::Unknown => StringTableEntryDataTypes::Unknown,
        StringTableEntryDataTypes::PlayerInfo(p) => StringTableEntryDataTypes::PlayerInfo(
            PlayerInfo {
                name: p.name.clone(),
                user_id: p.user_id,
                guid: p.guid.clone(),
                friends_id: p.friends_id,
                friends_name: p.friends_name.clone(),
                fake_player: p.fake_player,
                is_hltv: p.is_hltv,
                custom_files: clone_i32s(&p.custom_files),
                files_downloaded: p.files_downloaded,
            },
        ),
        StringTableEntryDataTypes::QueryPort(q) => StringTableEntryDataTypes::QueryPort(
            QueryPort { port: q.port },
        ),
        StringTableEntryDataTypes::StringEntryData(sd) => StringTableEntryDataTypes::StringEntryData(
            StringEntryData { value: sd.value.clone() },
        ),
        StringTableEntryDataTypes::LightStyle(ls) => {
            let mut values: Vec<u8> = Vec::new();
            let mut i: usize = 0;
            while i < ls.values.len()
                invariant
                    i <= ls.values@.len(),
                    values@ == ls.values@.take(i as int),
                decreases ls.values@.len() - i,
            {
                values.push(ls.values[i]);
                i = i + 1;
                proof {
                    assert(values@ =~= ls.values@.take(i as int));
                }
            }
            proof {
                assert(ls.values@.take(ls.values@.len() as int) =~= ls.values@);
            }
            StringTableEntryDataTypes::LightStyle(LightStyle { values })
        },
        StringTableEntryDataTypes::PrecacheData(pd) => StringTableEntryDataTypes::PrecacheData(
            PrecacheData { flags: pd.flags },
        ),
    }
}

/// Copies one decoded string table; the copy holds the same content.  Used
/// to record the table in the protocol context while the packet keeps its
/// own.
pub fn clone_table(t: &StringTable) -> (r: StringTable)
    ensures
        table_like(r, *t),
{
    let mut table_entries: Vec<StringTableEntry> = Vec::new();
    let mut i: usize = 0;
    while i < t.table_entries.len()
        invariant
            i <= t.table_entries@.len(),
            table_entries@.len() == i,
            forall|k: int|
                0 <= k < i ==> (#[trigger] table_entries@[k]).name == t.table_entries@[k].name
                    && entry_data_like(
                    table_entries@[k].entry_data,
                    t.table_entries@[k].entry_data,
                ),
        decreases t.table_entries@.len() - i,
    {
        let e = &t.table_entries[i];
        let copied = StringTableEntry {
            name: e.name.clone(),
            entry_data: clone_entry_data(&e.entry_data),
        };
        table_entries.push(copied);
        i = i + 1;
    }
    let mut classes: Vec<StringTableClass> = Vec::new();
    let mut j: usize = 0;
    while j < t.classes.len()
        invariant
            j <= t.classes@.len(),
            classes@ == t.classes@.take(j as int),
        decreases t.classes@.len() - j,
    {
        let c = &t.classes[j];
        let copied = StringTableClass { name: c.name.clone(), data: c.data.clone() };
        proof {
            assert(copied == t.classes@[j as int]);
        }
        classes.push(copied);
        j = j + 1;
        proof {
            assert(classes@ =~= t.classes@.take(j as int));
        }
    }
    proof {
        assert(t.classes@.take(t.classes@.len() as int) =~= t.classes@);
    }
    StringTable {
        name: t.name.clone(),
        entry_count: t.entry_count,
        class_count: t.class_count,
        table_entries,
        classes,
    }
}

/// A precache entry's 2-bit flag field, kept raw.
#[derive(Clone, Debug)]
pub struct PrecacheData {
    pub flags: i32,
}

impl PrecacheData {
    pub fn parse(reader: &mut BitReader) -> (r: Result<Self, DecodeError>)
        requires
            old(reader).wf(),
        ensures
            final(reader).wf(),
            final(reader).buf() == old(reader).buf(),
            final(reader).pos >= old(reader).pos,
            r is Ok <==> bits_ok(old(reader).buf(), old(reader).pos as int, 2),
            r matches Ok(m) ==> m.flags == int_at(old(reader).buf(), old(reader).pos as int, 2)
                && final(reader).pos == old(reader).pos + 2,
            r is Err ==> r == Err::<Self, DecodeError>(DecodeError::BufferExhausted),
    {
        Ok(Self { flags: reader.read_int(2)? })
    }
}

} // verus!
