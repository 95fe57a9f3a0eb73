//! The bit-level cursor every other decoder is built on.
//!
//! Bits are read little-endian at the bit level: bit 0 of byte 0 is the
//! least-significant, first-read bit.  Every read either returns a value with
//! the cursor advanced by exactly the requested number of bits, or fails with
//! `BufferExhausted` leaving the cursor where it was.

use vstd::prelude::*;
use vstd::arithmetic::power2::pow2;
use crate::DecodeError;

verus! {

/// The bit of `bytes` at absolute bit index `i` (LSB-first within each byte).
pub open spec fn bit_of(bytes: Seq<u8>, i: int) -> u8 {
    (bytes[i / 8] >> ((i % 8) as u8)) & 1u8
}

/// The unsigned value of the `n` bits of `bytes` starting at bit `pos`,
/// least-significant bit first.
pub open spec fn uint_at(bytes: Seq<u8>, pos: int, n: nat) -> nat
    decreases n,
{
    if n == 0 {
        0
    } else {
        bit_of(bytes, pos) as nat + 2 * uint_at(bytes, pos + 1, (n - 1) as nat)
    }
}

/// `n` bits read at `pos` stay inside the buffer.
pub open spec fn bits_ok(bytes: Seq<u8>, pos: int, n: nat) -> bool {
    0 <= pos && pos + n <= bytes.len() * 8
}

/// The value `read_int` returns: the `n`-bit unsigned value reinterpreted as
/// a 32-bit two's-complement integer (for `n <= 32` the value itself when it
/// fits in an `i32`).
pub open spec fn int_at(bytes: Seq<u8>, pos: int, n: nat) -> i32 {
    (uint_at(bytes, pos, n) % 0x1_0000_0000) as u32 as i32
}

/// The value of the single bit at `pos` as a boolean.
pub open spec fn bool_at(bytes: Seq<u8>, pos: int) -> bool {
    bit_of(bytes, pos) == 1
}

/// Two's-complement sign extension of the `n`-bit value at `pos`.
pub open spec fn sint_at(bytes: Seq<u8>, pos: int, n: nat) -> int {
    let v = uint_at(bytes, pos, n);
    if v < pow2((n - 1) as nat) {
        v as int
    } else {
        v - pow2(n)
    }
}

pub proof fn lemma_uint_at_bound(bytes: Seq<u8>, pos: int, n: nat)
    ensures
        uint_at(bytes, pos, n) < pow2(n),
    decreases n,
{
    if n == 0 {
        assert(pow2(0) == 1) by {
            vstd::arithmetic::power2::lemma2_to64();
        }
    } else {
        vstd::arithmetic::power2::lemma_pow2_unfold(n);
        lemma_uint_at_bound(bytes, pos + 1, (n - 1) as nat);
        let byte = bytes[pos / 8];
        let sh = (pos % 8) as u8;
        assert((byte >> sh) & 1u8 <= 1) by (bit_vector);
    }
}

/// Appending one more bit at the top adds it scaled by `pow2(n)`.
pub proof fn lemma_uint_at_snoc(bytes: Seq<u8>, pos: int, n: nat)
    ensures
        uint_at(bytes, pos, n + 1) == uint_at(bytes, pos, n) + bit_of(
            bytes,
            pos + n,
        ) as nat * pow2(n),
    decreases n,
{
    if n == 0 {
        assert(pow2(0) == 1) by {
            vstd::arithmetic::power2::lemma2_to64();
        }
        assert(uint_at(bytes, pos, 1) == bit_of(bytes, pos) as nat + 2 * uint_at(
            bytes,
            pos + 1,
            0,
        ));
        assert(uint_at(bytes, pos + 1, 0) == 0);
        assert(bit_of(bytes, pos) as nat * pow2(0) == bit_of(bytes, pos) as nat)
            by (nonlinear_arith)
            requires
                pow2(0) == 1,
        ;
    } else {
        lemma_uint_at_snoc(bytes, pos + 1, (n - 1) as nat);
        vstd::arithmetic::power2::lemma_pow2_unfold(n);
        let b0 = bit_of(bytes, pos) as nat;
        let bn = bit_of(bytes, pos + n) as nat;
        let tail = uint_at(bytes, pos + 1, (n - 1) as nat);
        let p = pow2((n - 1) as nat);
        assert(uint_at(bytes, pos, n + 1) == b0 + 2 * uint_at(bytes, pos + 1, n));
        assert(uint_at(bytes, pos + 1, n) == tail + bn * p);
        assert(uint_at(bytes, pos, n) == b0 + 2 * tail);
        assert(2 * (tail + bn * p) == 2 * tail + 2 * (bn * p)) by (nonlinear_arith);
        assert(2 * (bn * p) == bn * (2 * p)) by (nonlinear_arith);
        assert(pow2(n) == 2 * p);
        assert(bn * pow2(n) == bn * (2 * p)) by (nonlinear_arith)
            requires
                pow2(n) == 2 * p,
        ;
    }
}

/// For widths below 32 the 32-bit reinterpretation is the unsigned value
/// itself.
/// `int_at` and `uint_at` agree at every position for widths under 32,
/// all at once.
pub proof fn lemma_int_at_small_all(bytes: Seq<u8>)
    ensures
        forall|pos: int, n: nat|
            n <= 31 ==> #[trigger] int_at(bytes, pos, n) == uint_at(bytes, pos, n),
{
    assert forall|pos: int, n: nat| n <= 31 implies #[trigger] int_at(bytes, pos, n) == uint_at(
        bytes,
        pos,
        n,
    ) by {
        lemma_int_at_small(bytes, pos, n);
    }
}

pub proof fn lemma_int_at_small(bytes: Seq<u8>, pos: int, n: nat)
    requires
        n <= 31,
    ensures
        int_at(bytes, pos, n) == uint_at(bytes, pos, n),
        0 <= int_at(bytes, pos, n),
        (int_at(bytes, pos, n) as nat) < pow2(n),
{
    lemma_uint_at_bound(bytes, pos, n);
    if n < 31 {
        vstd::arithmetic::power2::lemma_pow2_strictly_increases(n, 31);
    }
    vstd::arithmetic::power2::lemma2_to64();
}

/// Re-reading the same bits gives the same value: two cursors over the same
/// buffer at the same position whose `n`-bit reads succeed obtain equal
/// values, because `read_bits` pins its result to `uint_at`, a function of
/// the buffer and the starting position alone.
pub proof fn lemma_reread_equal(r1: BitReader, r2: BitReader, n: nat, v1: u64, v2: u64)
    requires
        r1.buf() == r2.buf(),
        r1.pos == r2.pos,
        v1 as nat == uint_at(r1.buf(), r1.pos as int, n),
        v2 as nat == uint_at(r2.buf(), r2.pos as int, n),
    ensures
        v1 == v2,
{
}

/// The `k` bytes of `bytes` starting at bit `pos` (each byte read LSB-first).
pub open spec fn bytes_at(bytes: Seq<u8>, pos: int, k: nat) -> Seq<u8> {
    Seq::new(k, |j: int| uint_at(bytes, pos + 8 * j, 8) as u8)
}

/// The length of `s` once trailing NUL bytes are dropped.
pub open spec fn trim_nul_len(s: Seq<u8>) -> nat
    decreases s.len(),
{
    if s.len() > 0 && s[s.len() - 1] == 0 {
        trim_nul_len(s.drop_last())
    } else {
        s.len()
    }
}

/// Each byte as the character with the same code point.
pub open spec fn ascii_chars(s: Seq<u8>) -> Seq<char> {
    s.map_values(|b: u8| b as char)
}

/// What `read_ascii_string(8 * k)` returns: `k` bytes with trailing NULs
/// stripped, one character per byte.
pub open spec fn fixed_str_at(bytes: Seq<u8>, pos: int, k: nat) -> Seq<char> {
    let raw = bytes_at(bytes, pos, k);
    ascii_chars(raw.take(trim_nul_len(raw) as int))
}

/// Number of bytes before the NUL terminator of the byte string starting at
/// bit `pos`, or `None` when the buffer ends before any NUL.
pub open spec fn cstr_len_at(bytes: Seq<u8>, pos: int) -> Option<nat>
    decreases bytes.len() * 8 - pos,
{
    if pos < 0 || pos + 8 > bytes.len() * 8 {
        None
    } else if uint_at(bytes, pos, 8) == 0 {
        Some(0)
    } else {
        match cstr_len_at(bytes, pos + 8) {
            Some(k) => Some((k + 1) as nat),
            None => None,
        }
    }
}

/// The characters of the NUL-terminated byte string starting at bit `pos`
/// (meaningful when `cstr_len_at` is `Some`).
pub open spec fn cstr_at(bytes: Seq<u8>, pos: int) -> Seq<char> {
    ascii_chars(bytes_at(bytes, pos, cstr_len_at(bytes, pos).unwrap_or(0)))
}

/// There is a NUL-terminated byte string at bit `pos`.
pub open spec fn has_cstr(bytes: Seq<u8>, pos: int) -> bool {
    cstr_len_at(bytes, pos) is Some
}

/// The bit position just past the NUL-terminated byte string at `pos`,
/// terminator included.
pub open spec fn after_cstr(bytes: Seq<u8>, pos: int) -> int {
    pos + 8 * (cstr_len_at(bytes, pos).unwrap_or(0) + 1)
}

/// How many bytes the variable-length 32-bit integer at bit `pos` occupies
/// (little-endian base-128, 7 data bits and one continuation bit per byte,
/// at most 5 bytes), or `None` when the buffer ends inside it.  `i` is the
/// byte index within the encoding; use `0` at the start.
pub open spec fn varint_len_at(bytes: Seq<u8>, pos: int, i: nat) -> Option<nat>
    decreases 5 - i,
{
    if i >= 5 {
        Some(5)
    } else if pos + 8 * i + 8 > bytes.len() * 8 || pos < 0 {
        None
    } else if uint_at(bytes, pos + 8 * i, 8) >= 128 {
        varint_len_at(bytes, pos, i + 1)
    } else {
        Some((i + 1) as nat)
    }
}

/// The accumulated value of the variable-length integer at bit `pos`, summed
/// from byte index `i` on (7 low bits per byte, scaled by the byte's place).
pub open spec fn varint_raw_at(bytes: Seq<u8>, pos: int, i: nat) -> nat
    decreases 5 - i,
{
    if i >= 5 {
        0
    } else {
        let b = uint_at(bytes, pos + 8 * i, 8);
        (b % 128) * pow2(7 * i) + if b >= 128 {
            varint_raw_at(bytes, pos, i + 1)
        } else {
            0
        }
    }
}

/// The value `read_var_int32` returns, truncated to 32 bits.
pub open spec fn varint_at(bytes: Seq<u8>, pos: int) -> i32 {
    (varint_raw_at(bytes, pos, 0) % 0x1_0000_0000) as u32 as i32
}

/// Number of bits a quantized coordinate with the given integer and
/// fractional widths occupies at `pos`: two presence bits, then, when either
/// part is present, a sign bit and the present parts.
pub open spec fn qcoord_len_at(bytes: Seq<u8>, pos: int, ibits: nat, fbits: nat) -> int {
    let has_int = bool_at(bytes, pos);
    let has_frac = bool_at(bytes, pos + 1);
    if has_int || has_frac {
        2 + 1 + (if has_int {
            ibits as int
        } else {
            0
        }) + (if has_frac {
            fbits as int
        } else {
            0
        })
    } else {
        2
    }
}

/// The numerator of the quantized coordinate at `pos`, in units of
/// `1 / pow2(fbits)`: `integer_part * pow2(fbits) + fraction`, negated when
/// the sign bit is set; exactly zero when neither part is present.
pub open spec fn qcoord_numer_at(bytes: Seq<u8>, pos: int, ibits: nat, fbits: nat) -> int {
    let has_int = bool_at(bytes, pos);
    let has_frac = bool_at(bytes, pos + 1);
    if has_int || has_frac {
        let sign = bool_at(bytes, pos + 2);
        let ip: int = if has_int {
            uint_at(bytes, pos + 3, ibits) as int
        } else {
            0
        };
        let fp: int = if has_frac {
            uint_at(bytes, pos + 3 + (if has_int { ibits as int } else { 0 }), fbits) as int
        } else {
            0
        };
        let mag = ip * pow2(fbits) + fp;
        if sign {
            -mag
        } else {
            mag
        }
    } else {
        0
    }
}

/// The bit position just past the three-component quantized coordinate
/// block at `pos`: three presence bits, then one full-precision quantized
/// coordinate per set bit.
pub open spec fn vcoords_end(bytes: Seq<u8>, pos: int) -> int {
    let p3 = pos + 3;
    let e1 = p3 + if bool_at(bytes, pos) {
        qcoord_len_at(bytes, p3, 14, 5)
    } else {
        0
    };
    let e2 = e1 + if bool_at(bytes, pos + 1) {
        qcoord_len_at(bytes, e1, 14, 5)
    } else {
        0
    };
    e2 + if bool_at(bytes, pos + 2) {
        qcoord_len_at(bytes, e2, 14, 5)
    } else {
        0
    }
}

/// A quantized coordinate that encodes the value zero consumes exactly its
/// two presence bits, whatever follows them in the buffer.
pub proof fn lemma_qcoord_zero(bytes: Seq<u8>, pos: int, ibits: nat, fbits: nat)
    requires
        !bool_at(bytes, pos),
        !bool_at(bytes, pos + 1),
    ensures
        qcoord_numer_at(bytes, pos, ibits, fbits) == 0,
        qcoord_len_at(bytes, pos, ibits, fbits) == 2,
{
}

/// A cursor over a byte buffer, positioned at a bit offset.
///
/// Invariant (`wf`): `pos <= bits.len() * 8`.
pub struct BitReader {
    pub bits: Vec<u8>,
    pub pos: usize,
}

impl BitReader {
    /// The cursor is inside the buffer and the buffer's bit count fits in a
    /// `usize`.
    pub open spec fn wf(self) -> bool {
        &&& self.pos <= self.bits@.len() * 8
        &&& self.bits@.len() * 8 <= usize::MAX
    }

    /// The buffer, as a mathematical sequence of bytes.
    pub open spec fn buf(self) -> Seq<u8> {
        self.bits@
    }

    /// Total number of bits in the buffer.
    pub open spec fn bit_len(self) -> int {
        (self.bits@.len() * 8) as int
    }

    /// Number of unread bits left in the buffer.
    pub open spec fn bits_left(self) -> int {
        self.bit_len() - self.pos
    }

    pub fn new(bits: Vec<u8>) -> (r: BitReader)
        requires
            bits@.len() * 8 <= usize::MAX,
        ensures
            r.wf(),
            r.buf() == bits@,
            r.pos == 0,
    {
        BitReader { bits, pos: 0 }
    }

    /// Reads `amount <= 64` bits as an unsigned integer, LSB first.
    #[verifier::loop_isolation(false)]
    pub fn read_bits(&mut self, amount: usize) -> (r: Result<u64, DecodeError>)
        requires
            old(self).wf(),
            amount <= 64,
        ensures
            final(self).wf(),
            final(self).buf() == old(self).buf(),
            match r {
                Ok(v) => {
                    &&& bits_ok(old(self).buf(), old(self).pos as int, amount as nat)
                    &&& final(self).pos == old(self).pos + amount
                    &&& v as nat == uint_at(old(self).buf(), old(self).pos as int, amount as nat)
                    &&& (v as nat) < pow2(amount as nat)
                },
                Err(e) => {
                    &&& e == DecodeError::BufferExhausted
                    &&& !bits_ok(old(self).buf(), old(self).pos as int, amount as nat)
                    &&& final(self).pos == old(self).pos
                },
            },
    {
        proof {
            lemma_uint_at_bound(self.bits@, self.pos as int, amount as nat);
        }
        if amount > self.bits.len() * 8 - self.pos {
            return Err(DecodeError::BufferExhausted);
        }
        let ghost buf = self.bits@;
        let ghost pos0 = self.pos as int;
        proof {
            vstd::arithmetic::power2::lemma2_to64();
        }
        let mut res: u64 = 0;
        let mut scale: u64 = 1;
        let mut i: usize = 0;
        while i < amount
            invariant
                self.wf(),
                self.bits@ == buf,
                i <= amount,
                amount <= 64,
                pos0 + amount <= self.bit_len(),
                self.pos == pos0 + i,
                i < amount ==> scale as nat == pow2(i as nat),
                res as nat == uint_at(buf, pos0, i as nat),
                (res as nat) < pow2(i as nat),
            decreases amount - i,
        {
            proof {
                vstd::arithmetic::power2::lemma_pow2_unfold((i + 1) as nat);
                if i + 1 < 64 {
                    vstd::arithmetic::power2::lemma_pow2_strictly_increases((i + 1) as nat, 64);
                }
                vstd::arithmetic::power2::lemma2_to64_rest();
                lemma_uint_at_snoc(buf, pos0, i as nat);
                assert(self.pos / 8 < self.bits@.len()) by (nonlinear_arith)
                    requires
                        self.pos < self.bits@.len() * 8,
                ;
            }
            let byte = self.bits[self.pos / 8];
            let sh: u8 = (self.pos % 8) as u8;
            let b: u8 = (byte >> sh) & 1u8;
            assert((byte >> sh) & 1u8 <= 1) by (bit_vector);
            assert(b == bit_of(buf, pos0 + i));
            let ghost i0 = i as nat;
            let ghost res0 = res;
            if b == 1 {
                res = res + scale;
            }
            proof {
                assert(res as nat == res0 as nat + (b as nat) * pow2(i0)) by (nonlinear_arith)
                    requires
                        b <= 1,
                        scale as nat == pow2(i0),
                        res == res0 + if b == 1 { scale } else { 0u64 },
                ;
                assert(res as nat == uint_at(buf, pos0, i0 + 1));
            }
            self.pos = self.pos + 1;
            i = i + 1;
            if i < amount {
                proof {
                    vstd::arithmetic::power2::lemma_pow2_unfold(i as nat);
                    vstd::arithmetic::power2::lemma_pow2_strictly_increases(i as nat, 64);
                    vstd::arithmetic::power2::lemma2_to64_rest();
                }
                scale = scale * 2;
            }
        }
        Ok(res)
    }

    /// Advances the cursor by `amount` bits without interpreting them.
    pub fn skip(&mut self, amount: usize) -> (r: Result<(), DecodeError>)
        requires
            old(self).wf(),
        ensures
            final(self).wf(),
            final(self).buf() == old(self).buf(),
            match r {
                Ok(()) => {
                    &&& bits_ok(old(self).buf(), old(self).pos as int, amount as nat)
                    &&& final(self).pos == old(self).pos + amount
                },
                Err(e) => {
                    &&& e == DecodeError::BufferExhausted
                    &&& !bits_ok(old(self).buf(), old(self).pos as int, amount as nat)
                    &&& final(self).pos == old(self).pos
                },
            },
    {
        if amount > self.bits.len() * 8 - self.pos {
            return Err(DecodeError::BufferExhausted);
        }
        self.pos = self.pos + amount;
        Ok(())
    }

    /// Reads a single bit as a boolean.
    pub fn read_bool(&mut self) -> (r: Result<bool, DecodeError>)
        requires
            old(self).wf(),
        ensures
            final(self).wf(),
            final(self).buf() == old(self).buf(),
            match r {
                Ok(v) => {
                    &&& bits_ok(old(self).buf(), old(self).pos as int, 1)
                    &&& final(self).pos == old(self).pos + 1
                    &&& v == bool_at(old(self).buf(), old(self).pos as int)
                },
                Err(e) => {
                    &&& e == DecodeError::BufferExhausted
                    &&& !bits_ok(old(self).buf(), old(self).pos as int, 1)
                    &&& final(self).pos == old(self).pos
                },
            },
    {
        let v = self.read_bits(1)?;
        proof {
            vstd::arithmetic::power2::lemma2_to64();
        }
        Ok(v == 1)
    }

    /// Reads `amount <= 32` bits as a 32-bit integer (the raw bit pattern,
    /// zero-extended to 32 bits, reinterpreted as two's complement).
    pub fn read_int(&mut self, amount: usize) -> (r: Result<i32, DecodeError>)
        requires
            old(self).wf(),
            amount <= 32,
        ensures
            final(self).wf(),
            final(self).buf() == old(self).buf(),
            match r {
                Ok(v) => {
                    &&& bits_ok(old(self).buf(), old(self).pos as int, amount as nat)
                    &&& final(self).pos == old(self).pos + amount
                    &&& v == int_at(old(self).buf(), old(self).pos as int, amount as nat)
                },
                Err(e) => {
                    &&& e == DecodeError::BufferExhausted
                    &&& !bits_ok(old(self).buf(), old(self).pos as int, amount as nat)
                    &&& final(self).pos == old(self).pos
                },
            },
    {
        let v = self.read_bits(amount)?;
        proof {
            vstd::arithmetic::power2::lemma_pow2_adds(amount as nat, (32 - amount) as nat);
            vstd::arithmetic::power2::lemma_pow2_pos((32 - amount) as nat);
            vstd::arithmetic::power2::lemma2_to64();
            assert(pow2(amount as nat) * pow2((32 - amount) as nat) >= pow2(amount as nat) * 1)
                by (nonlinear_arith)
                requires
                    pow2((32 - amount) as nat) >= 1,
            ;
        }
        Ok(v as u32 as i32)
    }

    /// Reads a 64-bit unsigned integer.
    pub fn read_uint_64(&mut self) -> (r: Result<u64, DecodeError>)
        requires
            old(self).wf(),
        ensures
            final(self).wf(),
            final(self).buf() == old(self).buf(),
            match r {
                Ok(v) => {
                    &&& bits_ok(old(self).buf(), old(self).pos as int, 64)
                    &&& final(self).pos == old(self).pos + 64
                    &&& v as nat == uint_at(old(self).buf(), old(self).pos as int, 64)
                },
                Err(e) => {
                    &&& e == DecodeError::BufferExhausted
                    &&& !bits_ok(old(self).buf(), old(self).pos as int, 64)
                    &&& final(self).pos == old(self).pos
                },
            },
    {
        self.read_bits(64)
    }

    /// Reads `amount` bits and sign-extends from bit `amount - 1`.
    pub fn read_signed_int(&mut self, amount: usize) -> (r: Result<i32, DecodeError>)
        requires
            old(self).wf(),
            1 <= amount <= 32,
        ensures
            final(self).wf(),
            final(self).buf() == old(self).buf(),
            match r {
                Ok(v) => {
                    &&& bits_ok(old(self).buf(), old(self).pos as int, amount as nat)
                    &&& final(self).pos == old(self).pos + amount
                    &&& v as int == sint_at(old(self).buf(), old(self).pos as int, amount as nat)
                },
                Err(e) => {
                    &&& e == DecodeError::BufferExhausted
                    &&& !bits_ok(old(self).buf(), old(self).pos as int, amount as nat)
                    &&& final(self).pos == old(self).pos
                },
            },
    {
        let v = self.read_bits(amount)?;
        proof {
            vstd::arithmetic::power2::lemma_pow2_strictly_increases(
                (amount - 1) as nat,
                amount as nat,
            );
            if amount < 32 {
                vstd::arithmetic::power2::lemma_pow2_strictly_increases(amount as nat, 32);
            }
            vstd::arithmetic::power2::lemma2_to64();
        }
        let half: u64 = 1u64 << ((amount - 1) as u64);
        proof {
            vstd::bits::lemma_u64_shl_is_mul(1u64, (amount - 1) as u64);
        }
        if v >= half {
            let signed: i64 = v as i64 - (2 * half) as i64;
            proof {
                vstd::arithmetic::power2::lemma_pow2_unfold(amount as nat);
            }
            Ok(signed as i32)
        } else {
            Ok(v as i32)
        }
    }

    /// Reads `amount` whole bytes.
    #[verifier::loop_isolation(false)]
    pub fn read_bytes(&mut self, amount: usize) -> (r: Result<Vec<u8>, DecodeError>)
        requires
            old(self).wf(),
        ensures
            final(self).wf(),
            final(self).buf() == old(self).buf(),
            match r {
                Ok(v) => {
                    &&& bits_ok(old(self).buf(), old(self).pos as int, (8 * amount) as nat)
                    &&& final(self).pos == old(self).pos + 8 * amount
                    &&& v@ == bytes_at(old(self).buf(), old(self).pos as int, amount as nat)
                },
                Err(e) => {
                    &&& e == DecodeError::BufferExhausted
                    &&& !bits_ok(old(self).buf(), old(self).pos as int, (8 * amount) as nat)
                    &&& final(self).pos == old(self).pos
                },
            },
    {
        let rem: usize = self.bits.len() * 8 - self.pos;
        if amount > rem / 8 {
            return Err(DecodeError::BufferExhausted);
        }
        let ghost buf = self.bits@;
        let ghost pos0 = self.pos as int;
        let mut v: Vec<u8> = Vec::new();
        let mut i: usize = 0;
        while i < amount
            invariant
                self.wf(),
                self.bits@ == buf,
                i <= amount,
                pos0 + 8 * amount <= self.bit_len(),
                self.pos == pos0 + 8 * i,
                v@ == bytes_at(buf, pos0, i as nat),
            decreases amount - i,
        {
            let b = match self.read_bits(8) {
                Ok(b) => b,
                Err(e) => {
                    proof {
                        assert(false);
                    }
                    return Err(e);
                },
            };
            proof {
                vstd::arithmetic::power2::lemma2_to64();
            }
            v.push(b as u8);
            i = i + 1;
            proof {
                assert(v@ =~= bytes_at(buf, pos0, i as nat));
            }
        }
        Ok(v)
    }

    /// Returns an independent cursor over the same buffer at the current
    /// position, and advances this cursor past the next `amount` bits.  The
    /// parent's final position does not depend on what the snapshot later
    /// reads.
    pub fn split_and_skip(&mut self, amount: usize) -> (r: Result<BitReader, DecodeError>)
        requires
            old(self).wf(),
        ensures
            final(self).wf(),
            final(self).buf() == old(self).buf(),
            match r {
                Ok(sub) => {
                    &&& bits_ok(old(self).buf(), old(self).pos as int, amount as nat)
                    &&& final(self).pos == old(self).pos + amount
                    &&& sub.wf()
                    &&& sub.buf() == old(self).buf()
                    &&& sub.pos == old(self).pos
                },
                Err(e) => {
                    &&& e == DecodeError::BufferExhausted
                    &&& !bits_ok(old(self).buf(), old(self).pos as int, amount as nat)
                    &&& final(self).pos == old(self).pos
                },
            },
    {
        if amount > self.bits.len() * 8 - self.pos {
            return Err(DecodeError::BufferExhausted);
        }
        let bits2 = self.bits.clone();
        proof {
            assert forall|i: int| 0 <= i < self.bits@.len() implies bits2@[i] == self.bits@[i] by {
                assert(cloned::<u8>(self.bits@[i], bits2@[i]));
            }
            assert(bits2@ =~= self.bits@);
        }
        let sub = BitReader { bits: bits2, pos: self.pos };
        self.pos = self.pos + amount;
        Ok(sub)
    }

    /// Reads `amount / 8` bytes and strips trailing NUL bytes; one character
    /// per remaining byte.
    #[verifier::loop_isolation(false)]
    pub fn read_ascii_string(&mut self, amount: usize) -> (r: Result<String, DecodeError>)
        requires
            old(self).wf(),
        ensures
            final(self).wf(),
            final(self).buf() == old(self).buf(),
            match r {
                Ok(s) => {
                    &&& bits_ok(old(self).buf(), old(self).pos as int, (8 * (amount / 8)) as nat)
                    &&& final(self).pos == old(self).pos + 8 * (amount / 8)
                    &&& s@ == fixed_str_at(old(self).buf(), old(self).pos as int, (amount / 8) as nat)
                },
                Err(e) => {
                    &&& e == DecodeError::BufferExhausted
                    &&& !bits_ok(old(self).buf(), old(self).pos as int, (8 * (amount / 8)) as nat)
                    &&& final(self).pos == old(self).pos
                },
            },
    {
        let k = amount / 8;
        let mut v = self.read_bytes(k)?;
        let ghost raw = v@;
        proof {
            assert(raw.take(v@.len() as int) =~= raw);
        }
        let mut end: usize = v.len();
        while end > 0 && v[end - 1] == 0
            invariant
                v@ == raw,
                end <= v@.len(),
                trim_nul_len(raw) == trim_nul_len(raw.take(end as int)),
            decreases end,
        {
            proof {
                assert(raw.take(end - 1) =~= raw.take(end as int).drop_last());
            }
            end = end - 1;
        }
        proof {
            assert(raw.take(end as int).len() == end);
            if end > 0 {
                assert(trim_nul_len(raw.take(end as int)) == end);
            }
        }
        v.truncate(end);
        let s = bytes_to_string(&v);
        proof {
            assert(v@ == raw.take(trim_nul_len(raw) as int));
        }
        Ok(s)
    }

    /// Reads bytes until a NUL byte, consuming the terminator; one character
    /// per byte read before the NUL.  Fails, leaving the cursor where it
    /// started, when the buffer ends before any NUL.
    #[verifier::loop_isolation(false)]
    pub fn read_ascii_string_nulled(&mut self) -> (r: Result<String, DecodeError>)
        requires
            old(self).wf(),
        ensures
            final(self).wf(),
            final(self).buf() == old(self).buf(),
            match r {
                Ok(s) => {
                    &&& cstr_len_at(old(self).buf(), old(self).pos as int).is_some()
                    &&& final(self).pos == old(self).pos + 8 * (cstr_len_at(
                        old(self).buf(),
                        old(self).pos as int,
                    ).unwrap() + 1)
                    &&& s@ == cstr_at(old(self).buf(), old(self).pos as int)
                },
                Err(e) => {
                    &&& e == DecodeError::BufferExhausted
                    &&& cstr_len_at(old(self).buf(), old(self).pos as int).is_none()
                    &&& final(self).pos == old(self).pos
                },
            },
    {
        let ghost buf = self.bits@;
        let start = self.pos;
        let ghost pos0 = start as int;
        let mut v: Vec<u8> = Vec::new();
        loop
            invariant
                self.wf(),
                self.bits@ == buf,
                self.pos == pos0 + 8 * v@.len(),
                pos0 >= 0,
                v@ == bytes_at(buf, pos0, v@.len()),
                forall|j: int| 0 <= j < v@.len() ==> v@[j] != 0,
                cstr_len_at(buf, pos0).is_some() <==> cstr_len_at(buf, self.pos as int).is_some(),
                cstr_len_at(buf, pos0).is_some() ==> cstr_len_at(buf, pos0).unwrap() == v@.len()
                    + cstr_len_at(buf, self.pos as int).unwrap(),
            decreases self.bit_len() - self.pos,
        {
            let ghost cur = self.pos as int;
            let b = match self.read_bits(8) {
                Ok(b) => b,
                Err(_) => {
                    self.pos = start;
                    return Err(DecodeError::BufferExhausted);
                },
            };
            proof {
                vstd::arithmetic::power2::lemma2_to64();
            }
            if b == 0 {
                let s = bytes_to_string(&v);
                proof {
                    assert(cstr_len_at(buf, cur) == Some(0nat));
                    assert(v@ == bytes_at(buf, pos0, cstr_len_at(buf, pos0).unwrap_or(0)));
                }
                return Ok(s);
            }
            v.push(b as u8);
            proof {
                assert(v@ =~= bytes_at(buf, pos0, v@.len()));
            }
        }
    }

    /// Reads a variable-length 32-bit integer: up to 5 bytes, 7 data bits per
    /// byte little-endian, the high bit of each byte flagging continuation.
    #[verifier::loop_isolation(false)]
    pub fn read_var_int32(&mut self) -> (r: Result<i32, DecodeError>)
        requires
            old(self).wf(),
        ensures
            final(self).wf(),
            final(self).buf() == old(self).buf(),
            match r {
                Ok(v) => {
                    &&& varint_len_at(old(self).buf(), old(self).pos as int, 0).is_some()
                    &&& final(self).pos == old(self).pos + 8 * varint_len_at(
                        old(self).buf(),
                        old(self).pos as int,
                        0,
                    ).unwrap()
                    &&& v == varint_at(old(self).buf(), old(self).pos as int)
                },
                Err(e) => {
                    &&& e == DecodeError::BufferExhausted
                    &&& varint_len_at(old(self).buf(), old(self).pos as int, 0).is_none()
                    &&& final(self).pos == old(self).pos
                },
            },
    {
        let ghost buf = self.bits@;
        let start = self.pos;
        let ghost pos0 = start as int;
        proof {
            vstd::arithmetic::power2::lemma2_to64();
        }
        let mut res: u64 = 0;
        let mut i: usize = 0;
        while i < 5
            invariant
                self.wf(),
                self.bits@ == buf,
                i <= 5,
                pos0 >= 0,
                self.pos == pos0 + 8 * i,
                res as nat + varint_raw_at(buf, pos0, i as nat) == varint_raw_at(buf, pos0, 0),
                (res as nat) < pow2((7 * i) as nat),
                varint_len_at(buf, pos0, 0) == varint_len_at(buf, pos0, i as nat),
            decreases 5 - i,
        {
            let b = match self.read_bits(8) {
                Ok(b) => b,
                Err(_) => {
                    self.pos = start;
                    return Err(DecodeError::BufferExhausted);
                },
            };
            let ghost i0 = i as nat;
            proof {
                vstd::arithmetic::power2::lemma2_to64();
                vstd::arithmetic::power2::lemma2_to64_rest();
                assert(b & 0x7f == b % 128) by (bit_vector);
                assert(b & 0x7f <= 127) by (bit_vector);
                assert((b & 0x80 == 0) == (b % 256 < 128)) by (bit_vector);
                if 7 * i < 28 {
                    vstd::arithmetic::power2::lemma_pow2_strictly_increases((7 * i) as nat, 28);
                }
                assert((b & 0x7f) * pow2((7 * i) as nat) <= 127 * pow2(28)) by (nonlinear_arith)
                    requires
                        b & 0x7f <= 127,
                        pow2((7 * i) as nat) <= pow2(28),
                ;
                vstd::bits::lemma_u64_shl_is_mul(b & 0x7f, (7 * i) as u64);
            }
            let piece: u64 = (b & 0x7f) << ((7 * i) as u64);
            proof {
                vstd::arithmetic::power2::lemma_pow2_adds(7, (7 * i) as nat);
                assert(res as nat + (b & 0x7f) as nat * pow2((7 * i) as nat) < pow2(7) * pow2(
                    (7 * i) as nat,
                )) by (nonlinear_arith)
                    requires
                        (res as nat) < pow2((7 * i) as nat),
                        ((b & 0x7f) as nat) < pow2(7),
                ;
                assert(varint_raw_at(buf, pos0, i0) == (uint_at(buf, pos0 + 8 * i0, 8) % 128)
                    * pow2(7 * i0) + if uint_at(buf, pos0 + 8 * i0, 8) >= 128 {
                    varint_raw_at(buf, pos0, i0 + 1)
                } else {
                    0
                });
            }
            res = res + piece;
            i = i + 1;
            proof {
                assert(b < 256);
                assert(b % 256 == b);
                assert(piece as nat == (b as nat % 128) * pow2(7 * i0));
            }
            if b & 0x80 == 0 {
                proof {
                    assert(b < 128);
                    assert(uint_at(buf, pos0 + 8 * i0, 8) < 128);
                    assert(varint_len_at(buf, pos0, i0) == Some((i0 + 1) as nat));
                    assert(varint_raw_at(buf, pos0, i0) == (b as nat % 128) * pow2(7 * i0));
                    assert(res as nat == varint_raw_at(buf, pos0, 0));
                }
                let lo: u64 = res & 0xffff_ffff;
                proof {
                    assert(res & 0xffff_ffff == res % 0x1_0000_0000) by (bit_vector);
                }
                return Ok(lo as u32 as i32);
            }
            proof {
                assert(b >= 128);
                assert(uint_at(buf, pos0 + 8 * i0, 8) >= 128);
                assert(varint_len_at(buf, pos0, i0) == varint_len_at(buf, pos0, i0 + 1));
                assert(varint_raw_at(buf, pos0, i0) == (b as nat % 128) * pow2(7 * i0)
                    + varint_raw_at(buf, pos0, i0 + 1));
            }
        }
        proof {
            assert(varint_raw_at(buf, pos0, 5) == 0);
            assert(varint_len_at(buf, pos0, 5) == Some(5nat));
            assert(res & 0xffff_ffff == res % 0x1_0000_0000) by (bit_vector);
        }
        let lo: u64 = res & 0xffff_ffff;
        Ok(lo as u32 as i32)
    }

    /// Reads 32 bits and returns them unchanged: the IEEE-754 pattern of a
    /// 32-bit float field, left uninterpreted by the decoder.
    pub fn read_f32_bits(&mut self) -> (r: Result<u32, DecodeError>)
        requires
            old(self).wf(),
        ensures
            final(self).wf(),
            final(self).buf() == old(self).buf(),
            match r {
                Ok(v) => {
                    &&& bits_ok(old(self).buf(), old(self).pos as int, 32)
                    &&& final(self).pos == old(self).pos + 32
                    &&& v as nat == uint_at(old(self).buf(), old(self).pos as int, 32)
                },
                Err(e) => {
                    &&& e == DecodeError::BufferExhausted
                    &&& !bits_ok(old(self).buf(), old(self).pos as int, 32)
                    &&& final(self).pos == old(self).pos
                },
            },
    {
        let v = self.read_bits(32)?;
        proof {
            vstd::arithmetic::power2::lemma2_to64();
            vstd::arithmetic::power2::lemma2_to64_rest();
        }
        Ok(v as u32)
    }

    /// Reads three 32-bit IEEE-754 bit patterns.
    pub fn read_vec3(&mut self) -> (r: Result<crate::utils::Vec3, DecodeError>)
        requires
            old(self).wf(),
        ensures
            final(self).pos >= old(self).pos,
            final(self).wf(),
            final(self).buf() == old(self).buf(),
            match r {
                Ok(v) => {
                    &&& bits_ok(old(self).buf(), old(self).pos as int, 96)
                    &&& final(self).pos == old(self).pos + 96
                    &&& v.x_bits as nat == uint_at(old(self).buf(), old(self).pos as int, 32)
                    &&& v.y_bits as nat == uint_at(old(self).buf(), old(self).pos as int + 32, 32)
                    &&& v.z_bits as nat == uint_at(old(self).buf(), old(self).pos as int + 64, 32)
                },
                Err(e) => e == DecodeError::BufferExhausted && !bits_ok(
                    old(self).buf(),
                    old(self).pos as int,
                    96,
                ),
            },
    {
        let start = self.pos;
        let x_bits = self.read_f32_bits()?;
        let r2 = self.read_f32_bits();
        let r3 = match r2 {
            Ok(y_bits) => {
                match self.read_f32_bits() {
                    Ok(z_bits) => {
                        return Ok(crate::utils::Vec3 { x_bits, y_bits, z_bits });
                    },
                    Err(e) => Err(e),
                }
            },
            Err(e) => Err(e),
        };
        match r3 {
            Ok(v) => Ok(v),
            Err(e) => {
                self.pos = start;
                Err(e)
            },
        }
    }

    /// Reads a 32-bit entity handle.
    pub fn read_ehandle(&mut self) -> (r: Result<crate::utils::EHandle, DecodeError>)
        requires
            old(self).wf(),
        ensures
            final(self).wf(),
            final(self).buf() == old(self).buf(),
            match r {
                Ok(v) => {
                    &&& bits_ok(old(self).buf(), old(self).pos as int, 32)
                    &&& final(self).pos == old(self).pos + 32
                    &&& v.val == int_at(old(self).buf(), old(self).pos as int, 32)
                },
                Err(e) => {
                    &&& e == DecodeError::BufferExhausted
                    &&& !bits_ok(old(self).buf(), old(self).pos as int, 32)
                    &&& final(self).pos == old(self).pos
                },
            },
    {
        Ok(crate::utils::EHandle { val: self.read_int(32)? })
    }

    /// Reads a quantized coordinate with the given integer and fractional
    /// bit widths; the result is exact, in units of `1 / 2^fbits`.
    pub fn read_qcoord(&mut self, ibits: usize, fbits: usize) -> (r: Result<
        crate::utils::FixedPoint,
        DecodeError,
    >)
        requires
            old(self).wf(),
            ibits <= 14,
            fbits <= 5,
        ensures
            final(self).pos >= old(self).pos,
            final(self).wf(),
            final(self).buf() == old(self).buf(),
            r is Ok <==> bits_ok(
                old(self).buf(),
                old(self).pos as int,
                qcoord_len_at(old(self).buf(), old(self).pos as int, ibits as nat, fbits as nat) as nat,
            ),
            match r {
                Ok(v) => {
                    let buf = old(self).buf();
                    let p = old(self).pos as int;
                    &&& final(self).pos == p + qcoord_len_at(buf, p, ibits as nat, fbits as nat)
                    &&& v.numer == qcoord_numer_at(buf, p, ibits as nat, fbits as nat)
                    &&& v.denom as nat == pow2(fbits as nat)
                },
                Err(e) => e == DecodeError::BufferExhausted,
            },
    {
        proof {
            vstd::arithmetic::power2::lemma2_to64();
        }
        let denom: u32 = 1u32 << (fbits as u32);
        proof {
            crate::utils::lemma_shift_u32_pow2(fbits as nat);
        }
        let has_int = self.read_bool()?;
        let has_frac = self.read_bool()?;
        if !has_int && !has_frac {
            return Ok(crate::utils::FixedPoint { numer: 0, denom });
        }
        let sign = self.read_bool()?;
        let mut ip: u64 = 0;
        let mut fp: u64 = 0;
        if has_int {
            ip = self.read_bits(ibits)?;
        }
        if has_frac {
            fp = self.read_bits(fbits)?;
        }
        proof {
            if ibits < 14 {
                vstd::arithmetic::power2::lemma_pow2_strictly_increases(ibits as nat, 14);
            }
            if fbits < 5 {
                vstd::arithmetic::power2::lemma_pow2_strictly_increases(fbits as nat, 5);
            }
            vstd::arithmetic::power2::lemma2_to64();
            assert(ip * (denom as u64) <= 16383 * 32) by (nonlinear_arith)
                requires
                    ip <= 16383,
                    denom <= 32,
            ;
        }
        let mag: u64 = ip * (denom as u64) + fp;
        proof {
            assert(ip as nat * (denom as u64) as nat == ip as nat * pow2(fbits as nat))
                by (nonlinear_arith)
                requires
                    (denom as u64) as nat == pow2(fbits as nat),
            ;
        }
        let numer: i32 = if sign {
            -((mag as i64) as i32)
        } else {
            (mag as i64) as i32
        };
        Ok(crate::utils::FixedPoint { numer, denom })
    }

    /// Reads a full-precision quantized coordinate: 14 integer bits, 5
    /// fractional bits in units of 1/32.
    pub fn read_vector_coord(&mut self) -> (r: Result<crate::utils::FixedPoint, DecodeError>)
        requires
            old(self).wf(),
        ensures
            final(self).pos >= old(self).pos,
            final(self).wf(),
            final(self).buf() == old(self).buf(),
            r is Ok <==> bits_ok(
                old(self).buf(),
                old(self).pos as int,
                qcoord_len_at(old(self).buf(), old(self).pos as int, 14, 5) as nat,
            ),
            match r {
                Ok(v) => {
                    let buf = old(self).buf();
                    let p = old(self).pos as int;
                    &&& final(self).pos == p + qcoord_len_at(buf, p, 14, 5)
                    &&& v.numer == qcoord_numer_at(buf, p, 14, 5)
                    &&& v.denom == 32
                },
                Err(e) => e == DecodeError::BufferExhausted,
            },
    {
        proof {
            vstd::arithmetic::power2::lemma2_to64();
        }
        self.read_qcoord(14, 5)
    }

    /// Reads three presence bits, then one quantized coordinate for each
    /// component whose bit was set.
    pub fn read_vector_coords(&mut self) -> (r: Result<
        Vec<Option<crate::utils::FixedPoint>>,
        DecodeError,
    >)
        requires
            old(self).wf(),
        ensures
            final(self).pos >= old(self).pos,
            final(self).wf(),
            final(self).buf() == old(self).buf(),
            r is Ok <==> bits_ok(
                old(self).buf(),
                old(self).pos as int,
                (vcoords_end(old(self).buf(), old(self).pos as int) - old(self).pos) as nat,
            ),
            match r {
                Ok(v) => {
                    let buf = old(self).buf();
                    let p = old(self).pos as int;
                    &&& v@.len() == 3
                    &&& (v@[0] is Some <==> bool_at(buf, p))
                    &&& (v@[1] is Some <==> bool_at(buf, p + 1))
                    &&& (v@[2] is Some <==> bool_at(buf, p + 2))
                    &&& final(self).pos == vcoords_end(buf, p)
                },
                Err(e) => e == DecodeError::BufferExhausted,
            },
    {
        let x = self.read_bool()?;
        let y = self.read_bool()?;
        let z = self.read_bool()?;
        let mut coords: Vec<Option<crate::utils::FixedPoint>> = Vec::new();
        if x {
            let c = self.read_vector_coord()?;
            coords.push(Some(c));
        } else {
            coords.push(None);
        }
        if y {
            let c = self.read_vector_coord()?;
            coords.push(Some(c));
        } else {
            coords.push(None);
        }
        if z {
            let c = self.read_vector_coord()?;
            coords.push(Some(c));
        } else {
            coords.push(None);
        }
        Ok(coords)
    }

    /// Reads one presence bit; when it is set, reads an `amount`-bit integer.
    pub fn read_int_if_exists(&mut self, amount: usize) -> (r: Result<
        Option<i32>,
        DecodeError,
    >)
        requires
            old(self).wf(),
            amount <= 32,
        ensures
            final(self).wf(),
            final(self).buf() == old(self).buf(),
            match r {
                Ok(opt) => {
                    &&& bits_ok(old(self).buf(), old(self).pos as int, 1)
                    &&& if bool_at(old(self).buf(), old(self).pos as int) {
                        &&& bits_ok(old(self).buf(), old(self).pos as int + 1, amount as nat)
                        &&& opt == Some(
                            int_at(old(self).buf(), old(self).pos as int + 1, amount as nat),
                        )
                        &&& final(self).pos == old(self).pos + 1 + amount
                    } else {
                        &&& opt is None
                        &&& final(self).pos == old(self).pos + 1
                    }
                },
                Err(e) => {
                    &&& e == DecodeError::BufferExhausted
                    &&& final(self).pos == old(self).pos
                    &&& (!bits_ok(old(self).buf(), old(self).pos as int, 1) || (bool_at(
                        old(self).buf(),
                        old(self).pos as int,
                    ) && !bits_ok(old(self).buf(), old(self).pos as int + 1, amount as nat)))
                },
            },
    {
        let start = self.pos;
        let present = self.read_bool()?;
        if present {
            match self.read_int(amount) {
                Ok(v) => Ok(Some(v)),
                Err(e) => {
                    self.pos = start;
                    Err(e)
                },
            }
        } else {
            Ok(None)
        }
    }

    /// Reads one presence bit; when it is set, reads an `amount`-bit
    /// sign-extended integer.
    pub fn read_signed_int_if_exists(&mut self, amount: usize) -> (r: Result<
        Option<i32>,
        DecodeError,
    >)
        requires
            old(self).wf(),
            1 <= amount <= 32,
        ensures
            final(self).wf(),
            final(self).buf() == old(self).buf(),
            match r {
                Ok(opt) => {
                    &&& bits_ok(old(self).buf(), old(self).pos as int, 1)
                    &&& if bool_at(old(self).buf(), old(self).pos as int) {
                        &&& bits_ok(old(self).buf(), old(self).pos as int + 1, amount as nat)
                        &&& opt matches Some(v) && v as int == sint_at(
                            old(self).buf(),
                            old(self).pos as int + 1,
                            amount as nat,
                        )
                        &&& final(self).pos == old(self).pos + 1 + amount
                    } else {
                        &&& opt is None
                        &&& final(self).pos == old(self).pos + 1
                    }
                },
                Err(e) => {
                    &&& e == DecodeError::BufferExhausted
                    &&& final(self).pos == old(self).pos
                    &&& (!bits_ok(old(self).buf(), old(self).pos as int, 1) || (bool_at(
                        old(self).buf(),
                        old(self).pos as int,
                    ) && !bits_ok(old(self).buf(), old(self).pos as int + 1, amount as nat)))
                },
            },
    {
        let start = self.pos;
        let present = self.read_bool()?;
        if present {
            match self.read_signed_int(amount) {
                Ok(v) => Ok(Some(v)),
                Err(e) => {
                    self.pos = start;
                    Err(e)
                },
            }
        } else {
            Ok(None)
        }
    }
}

/// Builds a `String` holding one `char` per input byte, each character the
/// byte's own code point.  Relies on `u8 as char` and on `String`'s
/// `FromIterator<char>`: the collected string holds exactly the mapped
/// characters in order.
#[verifier::external_body]
fn bytes_to_string(v: &Vec<u8>) -> (r: String)
    ensures
        r@ == ascii_chars(v@),
{
    v.iter().map(|b| *b as char).collect()
}

} // verus!
