//! The per-tick user input: a fixed-order run of conditional fields, each
//! behind its own presence bit except the weapon subtype, which is present
//! exactly when a weapon selection is.

use vstd::prelude::*;
use crate::DecodeError;
use crate::bitreader::{BitReader, bits_ok, bool_at, int_at, sint_at, uint_at};

verus! {

/// The position just past one conditional field at `q`: the presence bit,
/// plus `w` more bits when it is set.
pub open spec fn cond_step(buf: Seq<u8>, q: int, w: int) -> int {
    q + 1 + (if bool_at(buf, q) {
        w
    } else {
        0int
    })
}

/// The bit position just past the per-tick input record at `p`: one
/// presence bit per field plus each present field's width, the weapon
/// subtype riding along with the weapon selection.
pub open spec fn ucmd_end(buf: Seq<u8>, p: int) -> int {
    let q1 = cond_step(buf, p, 32);
    let q2 = cond_step(buf, q1, 32);
    let q3 = cond_step(buf, q2, 32);
    let q4 = cond_step(buf, q3, 32);
    let q5 = cond_step(buf, q4, 32);
    let q6 = cond_step(buf, q5, 32);
    let q7 = cond_step(buf, q6, 32);
    let q8 = cond_step(buf, q7, 32);
    let q9 = cond_step(buf, q8, 32);
    let q10 = cond_step(buf, q9, 8);
    let q11 = cond_step(buf, q10, 17);
    let q12 = cond_step(buf, q11, 16);
    cond_step(buf, q12, 16)
}

/// The decoded input fields; angle and movement components keep their raw
/// IEEE-754 patterns.
#[derive(Clone, Debug)]
pub struct UserCmdInfo {
    pub command_number: Option<i32>,
    pub tick_count: Option<i32>,
    pub view_angles_x_bits: Option<u32>,
    pub view_angles_y_bits: Option<u32>,
    pub view_angles_z_bits: Option<u32>,
    pub forward_move_bits: Option<u32>,
    pub side_move_bits: Option<u32>,
    pub up_move_bits: Option<u32>,
    /// The button bitmask; zero when its presence bit was clear.
    pub buttons: i32,
    pub impulse: Option<i32>,
    pub weapon_select: Option<i32>,
    pub weapon_subtype: Option<i32>,
    pub mouse_dx: Option<i32>,
    pub mouse_dy: Option<i32>,
}

impl UserCmdInfo {
    pub fn new() -> (r: Self)
        ensures
            r.command_number is None,
            r.tick_count is None,
            r.buttons == 0,
            r.weapon_select is None,
            r.weapon_subtype is None,
            r.mouse_dx is None,
            r.mouse_dy is None,
    {
        Self {
            command_number: None,
            tick_count: None,
            view_angles_x_bits: None,
            view_angles_y_bits: None,
            view_angles_z_bits: None,
            forward_move_bits: None,
            side_move_bits: None,
            up_move_bits: None,
            buttons: 0,
            impulse: None,
            weapon_select: None,
            weapon_subtype: None,
            mouse_dx: None,
            mouse_dy: None,
        }
    }

    /// Reads the conditional fields in their fixed order.  The weapon
    /// subtype has no presence bit of its own: it is read exactly when the
    /// weapon selection was present.
    #[verifier::rlimit(100)]
    #[verifier::spinoff_prover]
    pub fn parse(reader: &mut BitReader) -> (r: Result<Self, DecodeError>)
        requires
            old(reader).wf(),
        ensures
            final(reader).wf(),
            final(reader).buf() == old(reader).buf(),
            final(reader).pos >= old(reader).pos,
            r is Ok <==> bits_ok(
                old(reader).buf(),
                old(reader).pos as int,
                (ucmd_end(old(reader).buf(), old(reader).pos as int) - old(reader).pos) as nat,
            ),
            r matches Ok(m) ==> ({
                let buf = old(reader).buf();
                let q0 = old(reader).pos as int;
                let q1 = q0 + 1 + (if bool_at(buf, q0) { 32int } else { 0int });
                let q2 = q1 + 1 + (if bool_at(buf, q1) { 32int } else { 0int });
                let q3 = q2 + 1 + (if bool_at(buf, q2) { 32int } else { 0int });
                let q4 = q3 + 1 + (if bool_at(buf, q3) { 32int } else { 0int });
                let q5 = q4 + 1 + (if bool_at(buf, q4) { 32int } else { 0int });
                let q6 = q5 + 1 + (if bool_at(buf, q5) { 32int } else { 0int });
                let q7 = q6 + 1 + (if bool_at(buf, q6) { 32int } else { 0int });
                let q8 = q7 + 1 + (if bool_at(buf, q7) { 32int } else { 0int });
                let q9 = q8 + 1 + (if bool_at(buf, q8) { 32int } else { 0int });
                let q10 = q9 + 1 + (if bool_at(buf, q9) { 8int } else { 0int });
                let q11 = q10 + 1 + (if bool_at(buf, q10) { 11 + 6int } else { 0int });
                let q12 = q11 + 1 + (if bool_at(buf, q11) { 16int } else { 0int });
                &&& (m.command_number is Some <==> bool_at(buf, q0))
                &&& (m.command_number matches Some(v) ==> v == int_at(buf, q0 + 1, 32))
                &&& (m.tick_count is Some <==> bool_at(buf, q1))
                &&& (m.tick_count matches Some(v) ==> v == int_at(buf, q1 + 1, 32))
                &&& (m.view_angles_x_bits is Some <==> bool_at(buf, q2))
                &&& (m.view_angles_x_bits matches Some(v) ==> v as nat == uint_at(
                    buf,
                    q2 + 1,
                    32,
                ))
                &&& (m.view_angles_y_bits is Some <==> bool_at(buf, q3))
                &&& (m.view_angles_z_bits is Some <==> bool_at(buf, q4))
                &&& (m.forward_move_bits is Some <==> bool_at(buf, q5))
                &&& (m.side_move_bits is Some <==> bool_at(buf, q6))
                &&& (m.up_move_bits is Some <==> bool_at(buf, q7))
                &&& (bool_at(buf, q8) ==> m.buttons == int_at(buf, q8 + 1, 32))
                &&& (!bool_at(buf, q8) ==> m.buttons == 0)
                &&& (m.impulse is Some <==> bool_at(buf, q9))
                &&& (m.weapon_select is Some <==> bool_at(buf, q10))
                &&& (m.weapon_select matches Some(v) ==> v == int_at(buf, q10 + 1, 11))
                &&& (m.weapon_subtype is Some <==> bool_at(buf, q10))
                &&& (m.weapon_subtype matches Some(v) ==> v == int_at(buf, q10 + 12, 6))
                &&& (m.mouse_dx is Some <==> bool_at(buf, q11))
                &&& (m.mouse_dx matches Some(v) ==> v as int == sint_at(buf, q11 + 1, 16))
                &&& (m.mouse_dy is Some <==> bool_at(buf, q12))
                &&& (m.mouse_dy matches Some(v) ==> v as int == sint_at(buf, q12 + 1, 16))
                &&& final(reader).pos == q12 + 1 + (if bool_at(buf, q12) {
                    16int
                } else {
                    0int
                })
            }),
            r is Err ==> r == Err::<Self, DecodeError>(DecodeError::BufferExhausted),
    {
        let ghost buf = reader.bits@;
        let ghost g0 = reader.pos as int;
        let command_number = reader.read_int_if_exists(32)?;
        proof {
            assert(reader.pos as int == cond_step(buf, g0, 32));
        }
        let ghost g1 = reader.pos as int;
        let tick_count = reader.read_int_if_exists(32)?;
        proof {
            assert(reader.pos as int == cond_step(buf, g1, 32));
        }
        let ghost g2 = reader.pos as int;
        let view_angles_x_bits = read_f32_bits_if_exists(reader)?;
        proof {
            assert(reader.pos as int == cond_step(buf, g2, 32));
        }
        let ghost g3 = reader.pos as int;
        let view_angles_y_bits = read_f32_bits_if_exists(reader)?;
        proof {
            assert(reader.pos as int == cond_step(buf, g3, 32));
        }
        let ghost g4 = reader.pos as int;
        let view_angles_z_bits = read_f32_bits_if_exists(reader)?;
        proof {
            assert(reader.pos as int == cond_step(buf, g4, 32));
        }
        let ghost g5 = reader.pos as int;
        let forward_move_bits = read_f32_bits_if_exists(reader)?;
        proof {
            assert(reader.pos as int == cond_step(buf, g5, 32));
        }
        let ghost g6 = reader.pos as int;
        let side_move_bits = read_f32_bits_if_exists(reader)?;
        proof {
            assert(reader.pos as int == cond_step(buf, g6, 32));
        }
        let ghost g7 = reader.pos as int;
        let up_move_bits = read_f32_bits_if_exists(reader)?;
        proof {
            assert(reader.pos as int == cond_step(buf, g7, 32));
        }
        let ghost g8 = reader.pos as int;
        let buttons = match reader.read_int_if_exists(32)? {
            Some(b) => b,
            None => 0,
        };
        proof {
            assert(reader.pos as int == cond_step(buf, g8, 32));
        }
        let ghost g9 = reader.pos as int;
        let impulse = reader.read_int_if_exists(8)?;
        proof {
            assert(reader.pos as int == cond_step(buf, g9, 8));
        }
        let ghost g10 = reader.pos as int;
        let weapon_select = reader.read_int_if_exists(11)?;
        let mut weapon_subtype: Option<i32> = None;
        if weapon_select.is_some() {
            weapon_subtype = Some(reader.read_int(6)?);
        }
        proof {
            assert(reader.pos as int == cond_step(buf, g10, 17));
        }
        let ghost g11 = reader.pos as int;
        let mouse_dx = reader.read_signed_int_if_exists(16)?;
        proof {
            assert(reader.pos as int == cond_step(buf, g11, 16));
        }
        let ghost g12 = reader.pos as int;
        let mouse_dy = reader.read_signed_int_if_exists(16)?;
        proof {
            assert(reader.pos as int == cond_step(buf, g12, 16));
            assert(reader.pos as int == ucmd_end(buf, g0));
        }
        Ok(
            Self {
                command_number,
                tick_count,
                view_angles_x_bits,
                view_angles_y_bits,
                view_angles_z_bits,
                forward_move_bits,
                side_move_bits,
                up_move_bits,
                buttons,
                impulse,
                weapon_select,
                weapon_subtype,
                mouse_dx,
                mouse_dy,
            },
        )
    }
}

/// Reads one presence bit; when it is set, reads a raw 32-bit IEEE-754
/// pattern.
fn read_f32_bits_if_exists(reader: &mut BitReader) -> (r: Result<Option<u32>, DecodeError>)
    requires
        old(reader).wf(),
    ensures
        final(reader).wf(),
        final(reader).buf() == old(reader).buf(),
        final(reader).pos >= old(reader).pos,
        match r {
            Ok(opt) => {
                let buf = old(reader).buf();
                let p = old(reader).pos as int;
                &&& bits_ok(buf, p, 1)
                &&& (opt is Some <==> bool_at(buf, p))
                &&& (opt matches Some(v) ==> v as nat == uint_at(buf, p + 1, 32)
                    && final(reader).pos == old(reader).pos + 33)
                &&& (opt is None ==> final(reader).pos == old(reader).pos + 1)
            },
            Err(e) => {
                &&& e == DecodeError::BufferExhausted
                &&& final(reader).pos == old(reader).pos
                &&& (!bits_ok(old(reader).buf(), old(reader).pos as int, 1) || (bool_at(
                    old(reader).buf(),
                    old(reader).pos as int,
                ) && !bits_ok(old(reader).buf(), old(reader).pos as int + 1, 32)))
            },
        },
{
    let start = reader.pos;
    let present = reader.read_bool()?;
    if present {
        match reader.read_f32_bits() {
            Ok(v) => Ok(Some(v)),
            Err(e) => {
                reader.pos = start;
                Err(e)
            },
        }
    } else {
        Ok(None)
    }
}

} // verus!
