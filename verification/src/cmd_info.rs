//! The per-split-view orientation block at the head of every full-update
//! packet: interpolation flags and six three-component vectors, all kept as
//! raw IEEE-754 bit patterns.

use vstd::prelude::*;
use crate::DecodeError;
use crate::bitreader::{BitReader, bits_ok, int_at, uint_at};
use crate::utils::Vec3;

verus! {

/// The vector's three components are the three 32-bit patterns at `p`.
pub open spec fn vec3_pinned(v: Vec3, buf: Seq<u8>, p: int) -> bool {
    &&& v.x_bits as nat == uint_at(buf, p, 32)
    &&& v.y_bits as nat == uint_at(buf, p + 32, 32)
    &&& v.z_bits as nat == uint_at(buf, p + 64, 32)
}

/// The orientation block: flags and six vectors (origin, angles, and local
/// angles for each of the two views).
#[derive(Clone, Debug)]
pub struct CmdInfo {
    pub flags: i32,
    pub view_origin: Vec3,
    pub view_angles: Vec3,
    pub local_view_angles: Vec3,
    pub view_origin2: Vec3,
    pub view_angles2: Vec3,
    pub local_view_angles2: Vec3,
}

impl CmdInfo {
    pub fn new() -> (r: Self)
        ensures
            r.flags == 0,
            r.view_origin == (Vec3 { x_bits: 0, y_bits: 0, z_bits: 0 }),
    {
        Self {
            flags: 0,
            view_origin: Vec3::new(),
            view_angles: Vec3::new(),
            local_view_angles: Vec3::new(),
            view_origin2: Vec3::new(),
            view_angles2: Vec3::new(),
            local_view_angles2: Vec3::new(),
        }
    }

    /// Reads the 32-bit flag word and the six vectors: 76 bytes in all.
    pub fn parse(reader: &mut BitReader) -> (r: Result<Self, DecodeError>)
        requires
            old(reader).wf(),
        ensures
            final(reader).wf(),
            final(reader).buf() == old(reader).buf(),
            final(reader).pos >= old(reader).pos,
            r is Ok <==> bits_ok(old(reader).buf(), old(reader).pos as int, 608),
            r matches Ok(m) ==> ({
                let buf = old(reader).buf();
                let p = old(reader).pos as int;
                &&& m.flags == int_at(buf, p, 32)
                &&& vec3_pinned(m.view_origin, buf, p + 32)
                &&& vec3_pinned(m.view_angles, buf, p + 128)
                &&& vec3_pinned(m.local_view_angles, buf, p + 224)
                &&& vec3_pinned(m.view_origin2, buf, p + 320)
                &&& vec3_pinned(m.view_angles2, buf, p + 416)
                &&& vec3_pinned(m.local_view_angles2, buf, p + 512)
                &&& final(reader).pos == old(reader).pos + 608
            }),
            r is Err ==> r == Err::<Self, DecodeError>(DecodeError::BufferExhausted),
    {
        let flags = reader.read_int(32)?;
        let view_origin = reader.read_vec3()?;
        let view_angles = reader.read_vec3()?;
        let local_view_angles = reader.read_vec3()?;
        let view_origin2 = reader.read_vec3()?;
        let view_angles2 = reader.read_vec3()?;
        let local_view_angles2 = reader.read_vec3()?;
        Ok(
            Self {
                flags,
                view_origin,
                view_angles,
                local_view_angles,
                view_origin2,
                view_angles2,
                local_view_angles2,
            },
        )
    }
}

} // verus!
