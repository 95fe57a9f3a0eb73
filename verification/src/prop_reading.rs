//! The value codecs used when entity property data is decoded: compact
//! variable-width integers, field-index deltas, and the quantized float
//! encodings a property's resolved kind selects.  Every quantized result is
//! exact: a fixed-point numerator over a power-of-two (or `2^11 - 1`)
//! denominator, never a rounded binary float.

use vstd::prelude::*;
use vstd::arithmetic::power2::pow2;
use crate::DecodeError;
use crate::bitreader::{
    BitReader, bits_ok, bool_at, fixed_str_at, int_at, qcoord_len_at, qcoord_numer_at, uint_at,
};
use crate::send_table::{
    FloatParseType, PropFlag, SendTableProp, PROP_COORD, PROP_COORD_MP, PROP_COORD_MP_INT,
    PROP_NORMAL, PROP_NOSCALE, PROP_UNSIGNED,
};
use crate::utils::FixedPoint;

verus! {

/// A decoded float property value, exact as decoded.
#[derive(Clone, Copy, PartialEq, Eq, Structural, Debug)]
pub enum FloatValue {
    /// The raw interpolation numerator of a range-quantized value; the float
    /// value is `low + (high - low) * raw / (2^num_bits - 1)`.
    Interp { raw: u32 },
    /// An exact fixed-point value from one of the coordinate codecs.
    Fixed(FixedPoint),
    /// An unquantized value, kept as its IEEE-754 bit pattern.
    RawBits(u32),
}

/// The third component of a decoded 3-vector.
#[derive(Clone, Copy, PartialEq, Eq, Structural, Debug)]
pub enum NormalZ {
    /// Read from the stream like the other components.
    Value(FloatValue),
    /// Derived from the first two components of a normal: the magnitude is
    /// `sqrt(1 - x^2 - y^2)` when that is real, else zero, with this sign.
    DerivedFromNormal { negative: bool },
}

/// A decoded 3-vector property value.
#[derive(Clone, Copy, PartialEq, Eq, Structural, Debug)]
pub struct Vec3Value {
    pub x: FloatValue,
    pub y: FloatValue,
    pub z: NormalZ,
}

/// A decoded 2-vector property value.
#[derive(Clone, Copy, PartialEq, Eq, Structural, Debug)]
pub struct Vec2Value {
    pub x: FloatValue,
    pub y: FloatValue,
}

impl BitReader {
    /// Reads a compact unsigned integer: a 2-bit width selector, then 4, 8,
    /// 12 or 32 bits of value.
    pub fn read_u_bit_var(&mut self) -> (r: Result<i32, DecodeError>)
        requires
            old(self).wf(),
        ensures
            final(self).wf(),
            final(self).buf() == old(self).buf(),
            final(self).pos >= old(self).pos,
            r is Ok <==> bits_ok(
                old(self).buf(),
                old(self).pos as int,
                (2 + ubitvar_width(old(self).buf(), old(self).pos as int)) as nat,
            ),
            r matches Ok(v) ==> ({
                let buf = old(self).buf();
                let p = old(self).pos as int;
                let w = ubitvar_width(buf, p) as nat;
                &&& v == int_at(buf, p + 2, w)
                &&& final(self).pos == p + 2 + w
            }),
            r is Err ==> r == Err::<i32, DecodeError>(DecodeError::BufferExhausted),
    {
        let ghost buf = self.bits@;
        let ghost p = self.pos as int;
        let sel = self.read_int(2)?;
        proof {
            crate::bitreader::lemma_int_at_small(buf, p, 2);
        }
        if sel == 0 {
            self.read_int(4)
        } else if sel == 1 {
            self.read_int(8)
        } else if sel == 2 {
            self.read_int(12)
        } else {
            self.read_int(32)
        }
    }

    /// Reads a compact integer whose low 4 bits select how many more bits
    /// follow: none for 0, and 4, 8 or 28 shifted past the low bits for 1,
    /// 2 or 3.  A low value above 3 has no encoding and is refused.
    pub fn read_u_bit_int(&mut self) -> (r: Result<i32, DecodeError>)
        requires
            old(self).wf(),
        ensures
            final(self).wf(),
            final(self).buf() == old(self).buf(),
            final(self).pos >= old(self).pos,
            r is Ok <==> (bits_ok(old(self).buf(), old(self).pos as int, 4) && uint_at(
                old(self).buf(),
                old(self).pos as int,
                4,
            ) <= 3 && bits_ok(
                old(self).buf(),
                old(self).pos as int,
                (4 + ubitint_ext(old(self).buf(), old(self).pos as int)) as nat,
            )),
            r == Err::<i32, DecodeError>(DecodeError::UnknownVariant) <==> (bits_ok(
                old(self).buf(),
                old(self).pos as int,
                4,
            ) && uint_at(old(self).buf(), old(self).pos as int, 4) > 3),
            r matches Ok(v) ==> ({
                let buf = old(self).buf();
                let p = old(self).pos as int;
                let head = uint_at(buf, p, 4);
                &&& head <= 3
                &&& (head == 0 ==> v == 0 && final(self).pos == p + 4)
                &&& (head == 1 ==> v == 1 + 16 * uint_at(buf, p + 4, 4) && final(self).pos == p
                    + 8)
                &&& (head == 2 ==> v == 2 + 16 * uint_at(buf, p + 4, 8) && final(self).pos == p
                    + 12)
                &&& (head == 3 ==> v == ((3 + 16 * uint_at(buf, p + 4, 28))
                    % 0x1_0000_0000) as u32 as i32 && final(self).pos == p + 32)
            }),
            r matches Err(e) ==> (e == DecodeError::BufferExhausted || e
                == DecodeError::UnknownVariant),
    {
        let ghost buf = self.bits@;
        let ghost p = self.pos as int;
        let head = self.read_int(4)?;
        proof {
            crate::bitreader::lemma_int_at_small(buf, p, 4);
        }
        if head == 0 {
            Ok(0)
        } else if head == 1 {
            let ghost q = self.pos as int;
            let ext = self.read_int(4)?;
            proof {
                crate::bitreader::lemma_int_at_small(buf, q, 4);
                vstd::arithmetic::power2::lemma2_to64();
            }
            Ok(head + 16 * ext)
        } else if head == 2 {
            let ghost q = self.pos as int;
            let ext = self.read_int(8)?;
            proof {
                crate::bitreader::lemma_int_at_small(buf, q, 8);
                vstd::arithmetic::power2::lemma2_to64();
            }
            Ok(head + 16 * ext)
        } else if head == 3 {
            let ghost q = self.pos as int;
            let ext = self.read_int(28)?;
            proof {
                crate::bitreader::lemma_int_at_small(buf, q, 28);
                vstd::arithmetic::power2::lemma2_to64();
            }
            let v32: u32 = (head as u32) + 16u32 * (ext as u32);
            Ok(v32 as i32)
        } else {
            Err(DecodeError::UnknownVariant)
        }
    }

    /// Reads one changed-field index.  With the new-way flag a single set
    /// bit means "previous index plus one"; otherwise a short or escalating
    /// read yields a delta, and the all-ones value `0xfff` is the
    /// no-more-fields sentinel, returned as `-1`.
    pub fn read_field_index(&mut self, last_index: i32, b_new_way: bool) -> (r: Result<
        i32,
        DecodeError,
    >)
        requires
            old(self).wf(),
            -1 <= last_index <= 0x7fff_ffff - 4096,
        ensures
            final(self).wf(),
            final(self).buf() == old(self).buf(),
            final(self).pos >= old(self).pos,
            r is Ok <==> bits_ok(
                old(self).buf(),
                old(self).pos as int,
                (field_index_end(old(self).buf(), old(self).pos as int, b_new_way) - old(
                    self,
                ).pos) as nat,
            ),
            r matches Ok(v) ==> ({
                let buf = old(self).buf();
                let p = old(self).pos as int;
                if b_new_way && bool_at(buf, p) {
                    v == last_index + 1 && final(self).pos == p + 1
                } else {
                    let p1: int = if b_new_way {
                        p + 1
                    } else {
                        p
                    };
                    if b_new_way && bool_at(buf, p1) {
                        v == last_index + 1 + uint_at(buf, p1 + 1, 3) && final(self).pos == p1 + 4
                    } else {
                        let p2: int = if b_new_way {
                            p1 + 1
                        } else {
                            p1
                        };
                        let sel = uint_at(buf, p2 + 5, 2);
                        let ext: nat = if sel == 0 {
                            0nat
                        } else if sel == 1 {
                            2nat
                        } else if sel == 2 {
                            4nat
                        } else {
                            7nat
                        };
                        let delta = uint_at(buf, p2, 5) + 32 * uint_at(buf, p2 + 7, ext);
                        &&& final(self).pos == p2 + 7 + ext
                        &&& (delta == 0xfff ==> v == -1)
                        &&& (delta != 0xfff ==> v == last_index + 1 + delta)
                    }
                }
            }),
            r is Err ==> r == Err::<i32, DecodeError>(DecodeError::BufferExhausted),
    {
        let ghost buf = self.bits@;
        if b_new_way && self.read_bool()? {
            return Ok(last_index + 1);
        }
        if b_new_way && self.read_bool()? {
            let ghost q = self.pos as int;
            let v = self.read_int(3)?;
            proof {
                crate::bitreader::lemma_int_at_small(buf, q, 3);
                vstd::arithmetic::power2::lemma2_to64();
            }
            return Ok(last_index + 1 + v);
        }
        let ghost q5 = self.pos as int;
        let base = self.read_int(5)?;
        proof {
            crate::bitreader::lemma_int_at_small(buf, q5, 5);
            vstd::arithmetic::power2::lemma2_to64();
        }
        let ghost qs = self.pos as int;
        let sel = self.read_int(2)?;
        proof {
            crate::bitreader::lemma_int_at_small(buf, qs, 2);
        }
        let ghost qe = self.pos as int;
        let ret: i32;
        if sel == 0 {
            ret = base;
        } else if sel == 1 {
            let ext = self.read_int(2)?;
            proof {
                crate::bitreader::lemma_int_at_small(buf, qe, 2);
                vstd::arithmetic::power2::lemma2_to64();
            }
            ret = base + 32 * ext;
        } else if sel == 2 {
            let ext = self.read_int(4)?;
            proof {
                crate::bitreader::lemma_int_at_small(buf, qe, 4);
                vstd::arithmetic::power2::lemma2_to64();
            }
            ret = base + 32 * ext;
        } else {
            let ext = self.read_int(7)?;
            proof {
                crate::bitreader::lemma_int_at_small(buf, qe, 7);
                vstd::arithmetic::power2::lemma2_to64();
            }
            ret = base + 32 * ext;
        }
        proof {
            vstd::arithmetic::power2::lemma2_to64();
        }
        if ret == 0xfff {
            Ok(-1)
        } else {
            Ok(last_index + 1 + ret)
        }
    }

    /// Reads a string property: a 9-bit bit-length, then that many bits of
    /// NUL-padded characters (whole bytes).
    pub fn decode_string(&mut self) -> (r: Result<String, DecodeError>)
        requires
            old(self).wf(),
        ensures
            final(self).wf(),
            final(self).buf() == old(self).buf(),
            final(self).pos >= old(self).pos,
            r is Ok <==> bits_ok(
                old(self).buf(),
                old(self).pos as int,
                (9 + 8 * (uint_at(old(self).buf(), old(self).pos as int, 9) / 8)) as nat,
            ),
            r matches Ok(s) ==> ({
                let buf = old(self).buf();
                let p = old(self).pos as int;
                let x = int_at(buf, p, 9);
                &&& s@ == fixed_str_at(buf, p + 9, (x / 8) as nat)
                &&& final(self).pos == p + 9 + 8 * (x / 8)
            }),
            r is Err ==> r == Err::<String, DecodeError>(DecodeError::BufferExhausted),
    {
        let ghost buf = self.bits@;
        let ghost p = self.pos as int;
        let x = self.read_int(9)?;
        proof {
            crate::bitreader::lemma_int_at_small(buf, p, 9);
        }
        self.read_ascii_string(x as usize)
    }

    /// Reads a full-precision quantized coordinate: 14 integer bits and 5
    /// fractional bits in units of 1/32.
    pub fn read_bit_coord(&mut self) -> (r: Result<FixedPoint, DecodeError>)
        requires
            old(self).wf(),
        ensures
            final(self).wf(),
            final(self).buf() == old(self).buf(),
            final(self).pos >= old(self).pos,
            r is Ok <==> bits_ok(
                old(self).buf(),
                old(self).pos as int,
                qcoord_len_at(old(self).buf(), old(self).pos as int, 14, 5) as nat,
            ),
            match r {
                Ok(v) => {
                    let buf = old(self).buf();
                    let p = old(self).pos as int;
                    &&& final(self).pos == p + qcoord_len_at(buf, p, 14, 5)
                    &&& v.numer == qcoord_numer_at(buf, p, 14, 5)
                    &&& v.denom == 32
                },
                Err(e) => e == DecodeError::BufferExhausted,
            },
    {
        proof {
            vstd::arithmetic::power2::lemma2_to64();
        }
        self.read_qcoord(14, 5)
    }

    /// Reads a reduced-precision quantized coordinate: 11 integer bits, with
    /// 5, 3 or no fractional bits as the property's resolved kind selects.
    pub fn read_bit_coord_mp(&mut self, prop: &SendTableProp) -> (r: Result<
        FixedPoint,
        DecodeError,
    >)
        requires
            old(self).wf(),
            prop.float_parse_type is BitCoordMp || prop.float_parse_type is BitCoordMpLp
                || prop.float_parse_type is BitCoordMpInt,
        ensures
            final(self).wf(),
            final(self).buf() == old(self).buf(),
            final(self).pos >= old(self).pos,
            r is Ok <==> bits_ok(
                old(self).buf(),
                old(self).pos as int,
                qcoord_len_at(
                    old(self).buf(),
                    old(self).pos as int,
                    11,
                    mp_frac_bits(prop.float_parse_type),
                ) as nat,
            ),
            match r {
                Ok(v) => {
                    let buf = old(self).buf();
                    let p = old(self).pos as int;
                    let fb = mp_frac_bits(prop.float_parse_type);
                    &&& final(self).pos == p + qcoord_len_at(buf, p, 11, fb)
                    &&& v.numer == qcoord_numer_at(buf, p, 11, fb)
                    &&& v.denom as nat == pow2(fb)
                },
                Err(e) => e == DecodeError::BufferExhausted,
            },
    {
        proof {
            vstd::arithmetic::power2::lemma2_to64();
        }
        if matches!(prop.float_parse_type, FloatParseType::BitCoordMp) {
            self.read_qcoord(11, 5)
        } else if matches!(prop.float_parse_type, FloatParseType::BitCoordMpLp) {
            self.read_qcoord(11, 3)
        } else {
            self.read_qcoord(11, 0)
        }
    }

    /// Reads a normalized component: a sign bit and an 11-bit magnitude in
    /// units of `1 / (2^11 - 1)`.
    pub fn read_bit_normal(&mut self) -> (r: Result<FixedPoint, DecodeError>)
        requires
            old(self).wf(),
        ensures
            final(self).wf(),
            final(self).buf() == old(self).buf(),
            final(self).pos >= old(self).pos,
            r is Ok <==> bits_ok(old(self).buf(), old(self).pos as int, 12),
            match r {
                Ok(v) => {
                    let buf = old(self).buf();
                    let p = old(self).pos as int;
                    let mag = uint_at(buf, p + 1, 11) as int;
                    &&& final(self).pos == p + 12
                    &&& v.numer == (if bool_at(buf, p) {
                        -mag
                    } else {
                        mag
                    })
                    &&& v.denom == 2047
                },
                Err(e) => e == DecodeError::BufferExhausted,
            },
    {
        let start = self.pos;
        let sign = self.read_bool()?;
        let mag = match self.read_bits(11) {
            Ok(m) => m,
            Err(e) => {
                self.pos = start;
                return Err(e);
            },
        };
        proof {
            vstd::arithmetic::power2::lemma2_to64();
        }
        let numer: i32 = if sign {
            -(mag as i32)
        } else {
            mag as i32
        };
        Ok(FixedPoint { numer, denom: 2047 })
    }

    /// Reads a cell coordinate: `num_bits` integer bits, then, unless the
    /// kind is integral, 5 or 3 fractional bits.
    pub fn read_bit_cell_coord(&mut self, prop: &SendTableProp) -> (r: Result<
        FixedPoint,
        DecodeError,
    >)
        requires
            old(self).wf(),
            prop.num_bits matches Some(nb) && 1 <= nb <= 25,
            prop.float_parse_type is BitCellChord || prop.float_parse_type is BitCellChordLp
                || prop.float_parse_type is BitCellChordInt,
        ensures
            final(self).wf(),
            final(self).buf() == old(self).buf(),
            final(self).pos >= old(self).pos,
            r is Ok <==> bits_ok(
                old(self).buf(),
                old(self).pos as int,
                (prop.num_bits.unwrap() + cell_frac_bits(prop.float_parse_type)) as nat,
            ),
            match r {
                Ok(v) => {
                    let buf = old(self).buf();
                    let p = old(self).pos as int;
                    let nb = prop.num_bits.unwrap() as nat;
                    let fb = cell_frac_bits(prop.float_parse_type);
                    &&& final(self).pos == p + nb + fb
                    &&& v.numer == uint_at(buf, p, nb) * pow2(fb) + uint_at(buf, p + nb, fb)
                    &&& v.denom as nat == pow2(fb)
                },
                Err(e) => e == DecodeError::BufferExhausted,
            },
    {
        let start = self.pos;
        let nb = match prop.num_bits {
            Some(nb) => nb,
            None => {
                proof {
                    assert(false);
                }
                return Err(DecodeError::BufferExhausted);
            },
        };
        let int_val = self.read_bits(nb as usize)?;
        proof {
            vstd::arithmetic::power2::lemma2_to64();
            if nb < 25 {
                vstd::arithmetic::power2::lemma_pow2_strictly_increases(nb as nat, 25);
            }
        }
        let fb: usize = if matches!(prop.float_parse_type, FloatParseType::BitCellChordInt) {
            0
        } else if matches!(prop.float_parse_type, FloatParseType::BitCellChordLp) {
            3
        } else {
            5
        };
        let frac = match self.read_bits(fb) {
            Ok(f) => f,
            Err(e) => {
                self.pos = start;
                return Err(e);
            },
        };
        proof {
            crate::utils::lemma_shift_u32_pow2(fb as nat);
            vstd::arithmetic::power2::lemma2_to64();
            if fb < 5 {
                vstd::arithmetic::power2::lemma_pow2_strictly_increases(fb as nat, 5);
            }
        }
        let denom: u32 = 1u32 << (fb as u32);
        proof {
            assert(int_val * (denom as u64) <= 0x1ffffff * 32) by (nonlinear_arith)
                requires
                    int_val <= 0x1ffffff,
                    denom <= 32,
            ;
        }
        let numer64: u64 = int_val * (denom as u64) + frac;
        proof {
            assert(int_val as nat * (denom as u64) as nat == int_val as nat * pow2(fb as nat))
                by (nonlinear_arith)
                requires
                    (denom as u64) as nat == pow2(fb as nat),
            ;
        }
        Ok(FixedPoint { numer: numer64 as i32, denom })
    }

    /// Resolves a float property's parse kind from its flags, in the fixed
    /// priority order the protocol uses.  A property with none of the
    /// special flags is left unresolved and decodes as a range-quantized
    /// value.
    pub fn set_float_parse_type(&mut self, prop: &mut SendTableProp)
        ensures
            *final(self) == *old(self),
            final(prop).send_prop_type == old(prop).send_prop_type,
            final(prop).name == old(prop).name,
            final(prop).flags == old(prop).flags,
            final(prop).num_bits == old(prop).num_bits,
            final(prop).float_parse_type == spec_float_parse_type(old(prop).flags),
    {
        let mut ptype = FloatParseType::Unset;
        if prop.flags.contains(PROP_COORD) {
            ptype = FloatParseType::Coord;
        } else if prop.flags.contains(PROP_COORD_MP) {
            ptype = FloatParseType::BitCoordMp;
        } else if prop.flags.contains(PROP_COORD_MP_INT) {
            ptype = FloatParseType::BitCoordMpInt;
        } else if prop.flags.contains(PROP_NOSCALE) {
            ptype = FloatParseType::NoScale;
        } else if prop.flags.contains(PROP_NORMAL) {
            ptype = FloatParseType::Normal;
        }
        prop.float_parse_type = ptype;
    }

    /// Reads an integer property: `num_bits` bits, sign-extended unless the
    /// property is flagged unsigned.
    pub fn decode_int(&mut self, prop: &SendTableProp) -> (r: Result<i32, DecodeError>)
        requires
            old(self).wf(),
            prop.num_bits matches Some(nb) && 1 <= nb <= 32,
        ensures
            final(self).wf(),
            final(self).buf() == old(self).buf(),
            final(self).pos >= old(self).pos,
            match r {
                Ok(v) => {
                    let buf = old(self).buf();
                    let p = old(self).pos as int;
                    let nb = prop.num_bits.unwrap() as nat;
                    &&& bits_ok(buf, p, nb)
                    &&& final(self).pos == p + nb
                    &&& (prop.flags.bits & PROP_UNSIGNED == PROP_UNSIGNED ==> v == int_at(
                        buf,
                        p,
                        nb,
                    ))
                    &&& (prop.flags.bits & PROP_UNSIGNED != PROP_UNSIGNED ==> v as int
                        == crate::bitreader::sint_at(buf, p, nb))
                },
                Err(e) => {
                    &&& e == DecodeError::BufferExhausted
                    &&& final(self).pos == old(self).pos
                    &&& !bits_ok(
                        old(self).buf(),
                        old(self).pos as int,
                        prop.num_bits.unwrap() as nat,
                    )
                },
            },
    {
        let nb = match prop.num_bits {
            Some(nb) => nb,
            None => {
                proof {
                    assert(false);
                }
                return Err(DecodeError::BufferExhausted);
            },
        };
        if prop.flags.contains(PROP_UNSIGNED) {
            self.read_int(nb as usize)
        } else {
            self.read_signed_int(nb as usize)
        }
    }
}

/// The parse kind a property decodes with: its resolved kind, or the one
/// its flags select when it has not been resolved yet.
pub open spec fn effective_parse_type(prop: SendTableProp) -> FloatParseType {
    if prop.float_parse_type is Unset {
        spec_float_parse_type(prop.flags)
    } else {
        prop.float_parse_type
    }
}

impl BitReader {
    /// Reads one float property value with the codec the property's
    /// resolved kind selects, resolving it from the flags first when
    /// needed.  A property with no special encoding reads `num_bits` bits
    /// of interpolation numerator.
    pub fn decode_float(&mut self, prop: &mut SendTableProp) -> (r: Result<
        FloatValue,
        DecodeError,
    >)
        requires
            old(self).wf(),
            (effective_parse_type(*old(prop)) is Unset || effective_parse_type(*old(prop))
                is Standard) ==> (old(prop).num_bits matches Some(nb) && 1 <= nb <= 32),
            (effective_parse_type(*old(prop)) is BitCellChord || effective_parse_type(*old(prop))
                is BitCellChordLp || effective_parse_type(*old(prop)) is BitCellChordInt) ==> (
            old(prop).num_bits matches Some(nb) && 1 <= nb <= 25),
        ensures
            final(self).wf(),
            final(self).buf() == old(self).buf(),
            final(self).pos >= old(self).pos,
            final(prop).float_parse_type == effective_parse_type(*old(prop)),
            final(prop).num_bits == old(prop).num_bits,
            final(prop).flags == old(prop).flags,
            r is Ok <==> bits_ok(
                old(self).buf(),
                old(self).pos as int,
                float_len(
                    old(self).buf(),
                    old(self).pos as int,
                    effective_parse_type(*old(prop)),
                    old(prop).num_bits.unwrap_or(0) as int,
                ) as nat,
            ),
            r matches Ok(v) ==> ({
                let flen = float_len(
                    old(self).buf(),
                    old(self).pos as int,
                    effective_parse_type(*old(prop)),
                    old(prop).num_bits.unwrap_or(0) as int,
                );
                &&& final(self).pos == old(self).pos + flen
            }),
            r matches Ok(v) ==> ({
                let t = effective_parse_type(*old(prop));
                &&& ((t is Unset || t is Standard) ==> v is Interp)
                &&& ((t is Coord || t is BitCoordMp || t is BitCoordMpLp || t is BitCoordMpInt
                    || t is Normal || t is BitCellChord || t is BitCellChordLp
                    || t is BitCellChordInt) ==> v is Fixed)
                &&& (t is NoScale ==> (v matches FloatValue::RawBits(b) && b as nat == uint_at(
                    old(self).buf(),
                    old(self).pos as int,
                    32,
                )))
            }),
            r is Err ==> r == Err::<FloatValue, DecodeError>(DecodeError::BufferExhausted),
    {
        if matches!(prop.float_parse_type, FloatParseType::Unset) {
            self.set_float_parse_type(prop);
        }
        match prop.float_parse_type {
            FloatParseType::Coord => {
                let v = self.read_bit_coord()?;
                Ok(FloatValue::Fixed(v))
            },
            FloatParseType::BitCoordMp | FloatParseType::BitCoordMpLp
                | FloatParseType::BitCoordMpInt => {
                let v = self.read_bit_coord_mp(prop)?;
                Ok(FloatValue::Fixed(v))
            },
            FloatParseType::NoScale => {
                let v = self.read_f32_bits()?;
                Ok(FloatValue::RawBits(v))
            },
            FloatParseType::Normal => {
                let v = self.read_bit_normal()?;
                Ok(FloatValue::Fixed(v))
            },
            FloatParseType::BitCellChord | FloatParseType::BitCellChordLp
                | FloatParseType::BitCellChordInt => {
                let v = self.read_bit_cell_coord(prop)?;
                Ok(FloatValue::Fixed(v))
            },
            FloatParseType::Unset | FloatParseType::Standard => {
                let nb = match prop.num_bits {
                    Some(nb) => nb,
                    None => {
                        proof {
                            assert(false);
                        }
                        return Err(DecodeError::BufferExhausted);
                    },
                };
                let raw = self.read_bits(nb as usize)?;
                proof {
                    vstd::arithmetic::power2::lemma2_to64();
                    vstd::arithmetic::power2::lemma2_to64_rest();
                    if nb < 32 {
                        vstd::arithmetic::power2::lemma_pow2_strictly_increases(nb as nat, 32);
                    }
                }
                Ok(FloatValue::Interp { raw: raw as u32 })
            },
        }
    }

    /// Reads a 3-vector property: two components with the property's float
    /// codec, and a third that is read the same way except for normals,
    /// whose third component is derived from the first two and a sign bit.
    pub fn decode_vector_3(&mut self, prop: &mut SendTableProp) -> (r: Result<
        Vec3Value,
        DecodeError,
    >)
        requires
            old(self).wf(),
            (effective_parse_type(*old(prop)) is Unset || effective_parse_type(*old(prop))
                is Standard) ==> (old(prop).num_bits matches Some(nb) && 1 <= nb <= 32),
            (effective_parse_type(*old(prop)) is BitCellChord || effective_parse_type(*old(prop))
                is BitCellChordLp || effective_parse_type(*old(prop)) is BitCellChordInt) ==> (
            old(prop).num_bits matches Some(nb) && 1 <= nb <= 25),
        ensures
            final(self).wf(),
            final(self).buf() == old(self).buf(),
            final(self).pos >= old(self).pos,
            final(prop).num_bits == old(prop).num_bits,
            final(prop).flags == old(prop).flags,
            r is Ok <==> ({
                let buf = old(self).buf();
                let p = old(self).pos as int;
                let t = effective_parse_type(*old(prop));
                let nb = old(prop).num_bits.unwrap_or(0) as int;
                let e1 = p + float_len(buf, p, t, nb);
                let e2 = e1 + float_len(buf, e1, t, nb);
                &&& bits_ok(buf, p, float_len(buf, p, t, nb) as nat)
                &&& bits_ok(buf, e1, float_len(buf, e1, t, nb) as nat)
                &&& (if t is Normal {
                    bits_ok(buf, e2, 1)
                } else {
                    bits_ok(buf, e2, float_len(buf, e2, t, nb) as nat)
                })
            }),
            r matches Ok(v) ==> ({
                let t = effective_parse_type(*old(prop));
                &&& (v.z is DerivedFromNormal <==> t is Normal)
            }),
            r is Err ==> r == Err::<Vec3Value, DecodeError>(DecodeError::BufferExhausted),
    {
        let x = self.decode_float(prop)?;
        let y = self.decode_float(prop)?;
        if matches!(prop.float_parse_type, FloatParseType::Normal) {
            let negative = self.read_bool()?;
            Ok(Vec3Value { x, y, z: NormalZ::DerivedFromNormal { negative } })
        } else {
            let z = self.decode_float(prop)?;
            Ok(Vec3Value { x, y, z: NormalZ::Value(z) })
        }
    }

    /// Reads a 2-vector property: two components with the property's float
    /// codec.
    pub fn decode_vector_2(&mut self, prop: &mut SendTableProp) -> (r: Result<
        Vec2Value,
        DecodeError,
    >)
        requires
            old(self).wf(),
            (effective_parse_type(*old(prop)) is Unset || effective_parse_type(*old(prop))
                is Standard) ==> (old(prop).num_bits matches Some(nb) && 1 <= nb <= 32),
            (effective_parse_type(*old(prop)) is BitCellChord || effective_parse_type(*old(prop))
                is BitCellChordLp || effective_parse_type(*old(prop)) is BitCellChordInt) ==> (
            old(prop).num_bits matches Some(nb) && 1 <= nb <= 25),
        ensures
            final(self).wf(),
            final(self).buf() == old(self).buf(),
            final(self).pos >= old(self).pos,
            final(prop).num_bits == old(prop).num_bits,
            final(prop).flags == old(prop).flags,
            r is Ok <==> ({
                let buf = old(self).buf();
                let p = old(self).pos as int;
                let t = effective_parse_type(*old(prop));
                let nb = old(prop).num_bits.unwrap_or(0) as int;
                let e1 = p + float_len(buf, p, t, nb);
                &&& bits_ok(buf, p, float_len(buf, p, t, nb) as nat)
                &&& bits_ok(buf, e1, float_len(buf, e1, t, nb) as nat)
            }),
            r is Err ==> r == Err::<Vec2Value, DecodeError>(DecodeError::BufferExhausted),
    {
        let x = self.decode_float(prop)?;
        let y = self.decode_float(prop)?;
        Ok(Vec2Value { x, y })
    }
}

/// The payload width the 2-bit selector of a compact integer picks.
pub open spec fn ubitvar_width(bytes: Seq<u8>, p: int) -> int {
    let sel = uint_at(bytes, p, 2);
    if sel == 0 {
        4int
    } else if sel == 1 {
        8int
    } else if sel == 2 {
        12int
    } else {
        32int
    }
}

/// The extension width the low nibble of a compact integer selects (zero
/// for nibbles with no encoding).
pub open spec fn ubitint_ext(bytes: Seq<u8>, p: int) -> int {
    let head = uint_at(bytes, p, 4);
    if head == 0 {
        0int
    } else if head == 1 {
        4int
    } else if head == 2 {
        8int
    } else if head == 3 {
        28int
    } else {
        0int
    }
}

/// The bit position just past the field-index encoding at `p`.
pub open spec fn field_index_end(bytes: Seq<u8>, p: int, b_new_way: bool) -> int {
    if b_new_way && bool_at(bytes, p) {
        p + 1
    } else {
        let p1: int = if b_new_way {
            p + 1
        } else {
            p
        };
        if b_new_way && bool_at(bytes, p1) {
            p1 + 4
        } else {
            let p2: int = if b_new_way {
                p1 + 1
            } else {
                p1
            };
            let sel = uint_at(bytes, p2 + 5, 2);
            let ext: int = if sel == 0 {
                0int
            } else if sel == 1 {
                2int
            } else if sel == 2 {
                4int
            } else {
                7int
            };
            p2 + 7 + ext
        }
    }
}

/// The fractional width a multiplayer coordinate kind selects.
pub open spec fn mp_frac_bits(t: FloatParseType) -> nat {
    if t is BitCoordMp {
        5nat
    } else if t is BitCoordMpLp {
        3nat
    } else {
        0nat
    }
}

/// The fractional width a cell coordinate kind selects.
pub open spec fn cell_frac_bits(t: FloatParseType) -> nat {
    if t is BitCellChordInt {
        0nat
    } else if t is BitCellChordLp {
        3nat
    } else {
        5nat
    }
}

/// The bits one float property value occupies at `p`, by its resolved
/// kind; `nb` is the property's declared quantization bit count.
pub open spec fn float_len(bytes: Seq<u8>, p: int, t: FloatParseType, nb: int) -> int {
    if t is Coord {
        qcoord_len_at(bytes, p, 14, 5)
    } else if t is BitCoordMp || t is BitCoordMpLp || t is BitCoordMpInt {
        qcoord_len_at(bytes, p, 11, mp_frac_bits(t))
    } else if t is NoScale {
        32int
    } else if t is Normal {
        12int
    } else if t is BitCellChord || t is BitCellChordLp || t is BitCellChordInt {
        nb + cell_frac_bits(t)
    } else {
        nb
    }
}

/// The parse kind a property's flags resolve to.
pub open spec fn spec_float_parse_type(flags: PropFlag) -> FloatParseType {
    if flags.bits & PROP_COORD == PROP_COORD {
        FloatParseType::Coord
    } else if flags.bits & PROP_COORD_MP == PROP_COORD_MP {
        FloatParseType::BitCoordMp
    } else if flags.bits & PROP_COORD_MP_INT == PROP_COORD_MP_INT {
        FloatParseType::BitCoordMpInt
    } else if flags.bits & PROP_NOSCALE == PROP_NOSCALE {
        FloatParseType::NoScale
    } else if flags.bits & PROP_NORMAL == PROP_NORMAL {
        FloatParseType::Normal
    } else {
        FloatParseType::Unset
    }
}

} // verus!
