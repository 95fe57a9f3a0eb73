//! Raw schema tables as they are declared in the stream: a named, ordered
//! list of property declarations, later flattened per server class.

use vstd::prelude::*;
use crate::DecodeError;
use crate::bitreader::{
    BitReader, after_cstr, bits_ok, bool_at, cstr_at, has_cstr, int_at, uint_at,
};
use crate::data_manager::DataManager;

verus! {

/// Property flag: the value is an unsigned integer.
pub const PROP_UNSIGNED: i32 = 1;

/// Property flag: the value is a quantized coordinate.
pub const PROP_COORD: i32 = 2;

/// Property flag: the value is an unquantized 32-bit float.
pub const PROP_NOSCALE: i32 = 4;

/// Property flag: round the quantized value down.
pub const PROP_ROUNDDOWN: i32 = 8;

/// Property flag: round the quantized value up.
pub const PROP_ROUNDUP: i32 = 16;

/// Property flag: the value is a normalized component.
pub const PROP_NORMAL: i32 = 32;

/// Property flag: the declaration excludes a property of another table.
pub const PROP_EXCLUDE: i32 = 64;

/// Property flag: XYZE encoding.
pub const PROP_XYZE: i32 = 128;

/// Property flag: the property is an element inside an array.
pub const PROP_INSIDE_ARRAY: i32 = 256;

/// Property flag: the proxy always accepts the value.
pub const PROP_PROXY_ALWAYS_YES: i32 = 512;

/// Property flag: the property changes often and is sorted first.
pub const PROP_CHANGES_OFTEN: i32 = 1024;

/// Property flag: the value is a vector element.
pub const PROP_IS_VECTOR_ELEM: i32 = 2048;

/// Property flag: a sub-table whose properties collapse into the parent.
pub const PROP_COLLAPSIBLE: i32 = 4096;

/// Property flag: the value is a multiplayer quantized coordinate.
pub const PROP_COORD_MP: i32 = 8192;

/// Property flag: low-precision multiplayer quantized coordinate.
pub const PROP_COORD_MP_LP: i32 = 16384;

/// Property flag: integral multiplayer quantized coordinate.
pub const PROP_COORD_MP_INT: i32 = 32768;

/// The mask of all sixteen known property flags.
pub const PROP_FLAG_MASK: i32 = 0xffff;

/// A property's declared flag bits.
#[derive(Clone, Copy, PartialEq, Eq, Structural, Debug)]
pub struct PropFlag {
    pub bits: i32,
}

impl PropFlag {
    /// Keeps only the known flag bits of `v`.
    pub fn from_bits_truncate(v: i32) -> (r: Self)
        ensures
            r.bits == v & PROP_FLAG_MASK,
    {
        PropFlag { bits: v & PROP_FLAG_MASK }
    }

    /// All the bits of `mask` are set.
    pub fn contains(&self, mask: i32) -> (r: bool)
        ensures
            r == (self.bits & mask == mask),
    {
        self.bits & mask == mask
    }
}

/// The declared type tag of a schema property.
#[derive(Debug, Clone, Copy, PartialEq, Eq, Structural)]
pub enum SendPropType {
    Int,
    Float,
    Vector3,
    Vector2,
    String,
    Array,
    DataTable,
}

/// How a float property's bits are read, resolved from its flags.
#[derive(Debug, PartialEq, Eq, Structural, Clone, Copy)]
pub enum FloatParseType {
    Unset,
    Standard,
    Coord,
    BitCoordMp,
    BitCoordMpLp,
    BitCoordMpInt,
    NoScale,
    Normal,
    BitCellChord,
    BitCellChordLp,
    BitCellChordInt,
}

/// One declared property.  `low_value_bits` and `high_value_bits` keep the
/// declared range endpoints as raw IEEE-754 patterns.
#[derive(Clone, Debug)]
pub struct SendTableProp {
    pub send_prop_type: SendPropType,
    pub name: String,
    pub flags: PropFlag,
    pub exclude_dt_name: Option<String>,
    pub low_value_bits: Option<u32>,
    pub high_value_bits: Option<u32>,
    pub num_bits: Option<i32>,
    pub num_elements: Option<i32>,
    pub float_parse_type: FloatParseType,
}

impl SendTableProp {
    /// Reads one property declaration: a 5-bit type-table index, the name,
    /// 16 flag bits, then either an exclusion-table name, a numeric range
    /// with a quantization bit count, or an array element count.
    ///
    /// A type index outside the variant's type table is `UnknownVariant`, as
    /// no declared length bounds the shape that would follow.
    pub fn parse(reader: &mut BitReader, data_mgr: &DataManager) -> (r: Result<Self, DecodeError>)
        requires
            old(reader).wf(),
            data_mgr.wf(),
        ensures
            final(reader).wf(),
            final(reader).buf() == old(reader).buf(),
            final(reader).pos >= old(reader).pos,
            r is Ok <==> ({
                let buf = old(reader).buf();
                let p0 = old(reader).pos as int;
                let idx = uint_at(buf, p0, 5);
                let npos = p0 + 5;
                let q0 = after_cstr(buf, npos);
                let q1 = q0 + 16;
                &&& bits_ok(buf, p0, 5)
                &&& idx < data_mgr.send_prop_type_list@.len()
                &&& has_cstr(buf, npos)
                &&& bits_ok(buf, q0, 16)
                &&& ({
                    let t = data_mgr.send_prop_type_list@[idx as int];
                    if t is DataTable || (int_at(buf, q0, 16) & PROP_FLAG_MASK) & PROP_EXCLUDE
                        == PROP_EXCLUDE {
                        has_cstr(buf, q1)
                    } else if t is Array {
                        bits_ok(buf, q1, 10)
                    } else {
                        bits_ok(
                            buf,
                            q1,
                            (64 + data_mgr.send_prop_amount_of_bits_to_get_num_bits) as nat,
                        )
                    }
                })
            }),
            r matches Ok(p) ==> ({
                let buf = old(reader).buf();
                let p0 = old(reader).pos as int;
                let idx = uint_at(buf, p0, 5);
                let npos = p0 + 5;
                let q0 = after_cstr(buf, npos);
                let q1 = q0 + 16;
                &&& bits_ok(buf, p0, 5)
                &&& idx < data_mgr.send_prop_type_list@.len()
                &&& p.send_prop_type == data_mgr.send_prop_type_list@[idx as int]
                &&& has_cstr(buf, npos)
                &&& p.name@ == cstr_at(buf, npos)
                &&& p.flags.bits == int_at(buf, q0, 16) & PROP_FLAG_MASK
                &&& p.float_parse_type is Unset
                &&& if p.send_prop_type is DataTable || p.flags.bits & PROP_EXCLUDE
                    == PROP_EXCLUDE {
                    &&& has_cstr(buf, q1)
                    &&& p.exclude_dt_name matches Some(n) && n@ == cstr_at(buf, q1)
                    &&& p.low_value_bits is None
                    &&& p.high_value_bits is None
                    &&& p.num_bits is None
                    &&& p.num_elements is None
                    &&& final(reader).pos == after_cstr(buf, q1)
                } else if p.send_prop_type is Array {
                    &&& p.exclude_dt_name is None
                    &&& p.num_elements matches Some(n) && n == int_at(buf, q1, 10)
                    &&& p.num_bits is None
                    &&& final(reader).pos == q1 + 10
                } else {
                    let w = data_mgr.send_prop_amount_of_bits_to_get_num_bits;
                    &&& p.exclude_dt_name is None
                    &&& p.low_value_bits matches Some(lo) && lo as nat == uint_at(buf, q1, 32)
                    &&& p.high_value_bits matches Some(hi) && hi as nat == uint_at(
                        buf,
                        q1 + 32,
                        32,
                    )
                    &&& p.num_bits matches Some(nb) && nb == int_at(buf, q1 + 64, w as nat)
                    &&& final(reader).pos == q1 + 64 + w
                }
            }),
            r matches Err(e) ==> (e == DecodeError::BufferExhausted || e
                == DecodeError::UnknownVariant),
            r == Err::<Self, DecodeError>(DecodeError::UnknownVariant) ==> bits_ok(
                old(reader).buf(),
                old(reader).pos as int,
                5,
            ) && uint_at(old(reader).buf(), old(reader).pos as int, 5)
                >= data_mgr.send_prop_type_list@.len(),
    {
        let ghost buf = reader.bits@;
        let ghost p0 = reader.pos as int;
        let idx = reader.read_int(5)?;
        proof {
            crate::bitreader::lemma_int_at_small(buf, p0, 5);
        }
        if idx < 0 || idx as usize >= data_mgr.send_prop_type_list.len() {
            return Err(DecodeError::UnknownVariant);
        }
        let send_prop_type = data_mgr.send_prop_type_list[idx as usize];
        let name = reader.read_ascii_string_nulled()?;
        let flags = PropFlag::from_bits_truncate(reader.read_int(16)?);
        proof {
            let q0 = after_cstr(buf, p0 + 5);
            crate::bitreader::lemma_int_at_small(buf, q0, 16);
            let f = int_at(buf, q0, 16);
            assert(0 <= f < 65536 ==> f & 0xffff == f) by (bit_vector);
        }
        let mut exclude_dt_name: Option<String> = None;
        let mut low_value_bits: Option<u32> = None;
        let mut high_value_bits: Option<u32> = None;
        let mut num_bits: Option<i32> = None;
        let mut num_elements: Option<i32> = None;
        let is_dt = matches!(send_prop_type, SendPropType::DataTable);
        if is_dt || flags.contains(PROP_EXCLUDE) {
            exclude_dt_name = Some(reader.read_ascii_string_nulled()?);
        } else if matches!(send_prop_type, SendPropType::Array) {
            num_elements = Some(reader.read_int(10)?);
        } else {
            low_value_bits = Some(reader.read_f32_bits()?);
            high_value_bits = Some(reader.read_f32_bits()?);
            num_bits = Some(reader.read_int(data_mgr.send_prop_amount_of_bits_to_get_num_bits)?);
        }
        Ok(
            Self {
                send_prop_type,
                name,
                flags,
                exclude_dt_name,
                low_value_bits,
                high_value_bits,
                num_bits,
                num_elements,
                float_parse_type: FloatParseType::Unset,
            },
        )
    }
}

/// One declared schema table: its name and its ordered property list.
#[derive(Clone, Debug)]
pub struct SendTable {
    pub needs_decoder: bool,
    pub name: String,
    pub prop_count: i32,
    pub prop_list: Vec<SendTableProp>,
}

impl SendTable {
    /// Reads one table declaration: a decoder bit, the table name, a 10-bit
    /// property count, then that many property declarations in order.
    #[verifier::loop_isolation(false)]
    pub fn parse(reader: &mut BitReader, data_mgr: &DataManager) -> (r: Result<Self, DecodeError>)
        requires
            old(reader).wf(),
            data_mgr.wf(),
        ensures
            final(reader).wf(),
            final(reader).buf() == old(reader).buf(),
            final(reader).pos >= old(reader).pos,
            r matches Ok(t) ==> ({
                let buf = old(reader).buf();
                let p0 = old(reader).pos as int;
                &&& bits_ok(buf, p0, 1)
                &&& t.needs_decoder == bool_at(buf, p0)
                &&& has_cstr(buf, p0 + 1)
                &&& t.name@ == cstr_at(buf, p0 + 1)
                &&& t.prop_count == int_at(buf, after_cstr(buf, p0 + 1), 10)
                &&& t.prop_list@.len() == t.prop_count
            }),
            r matches Err(e) ==> (e == DecodeError::BufferExhausted || e
                == DecodeError::UnknownVariant),
    {
        let ghost buf = reader.bits@;
        let needs_decoder = reader.read_bool()?;
        let name = reader.read_ascii_string_nulled()?;
        let ghost cpos = reader.pos as int;
        let prop_count = reader.read_int(10)?;
        proof {
            crate::bitreader::lemma_int_at_small(buf, cpos, 10);
        }
        let mut prop_list: Vec<SendTableProp> = Vec::new();
        let mut i: i32 = 0;
        while i < prop_count
            invariant
                reader.wf(),
                reader.bits@ == buf,
                reader.pos >= old(reader).pos,
                0 <= i <= prop_count,
                prop_list@.len() == i,
            decreases prop_count - i,
        {
            let cur_prop = SendTableProp::parse(reader, data_mgr)?;
            prop_list.push(cur_prop);
            i = i + 1;
        }
        Ok(Self { needs_decoder, name, prop_count, prop_list })
    }
}

} // verus!
