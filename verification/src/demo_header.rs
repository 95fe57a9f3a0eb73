//! The fixed 1072-byte preamble of a demo file.
//!
//! The layout never depends on the protocol version: an 8-byte magic stamp,
//! two 32-bit protocol numbers, four 260-byte NUL-padded name strings, a
//! 32-bit playback time (IEEE-754, kept as its bit pattern), and three more
//! 32-bit counters.

use vstd::prelude::*;
use crate::DecodeError;
use crate::bitreader::{BitReader, bits_ok, fixed_str_at, int_at, uint_at};

verus! {

/// The expected magic stamp, `"HL2DEMO\0"`, as byte values.
pub open spec fn magic_stamp() -> Seq<u8> {
    seq![0x48u8, 0x4cu8, 0x32u8, 0x44u8, 0x45u8, 0x4du8, 0x4fu8, 0x00u8]
}

/// The decoded header.  `playback_time_bits` is the raw IEEE-754 pattern of
/// the 32-bit playback time; interpreting it is left to callers outside the
/// decoder.
#[derive(Clone, Debug)]
pub struct DemoHeader {
    pub demo_file_stamp: String,
    pub demo_protocol: i32,
    pub network_protocol: i32,
    pub server_name: String,
    pub client_name: String,
    pub map_name: String,
    pub game_directory: String,
    pub playback_time_bits: u32,
    pub playback_ticks: i32,
    pub playback_frames: i32,
    pub sign_on_length: i32,
}

impl DemoHeader {
    pub fn new() -> (r: Self)
        ensures
            r.demo_file_stamp@ == Seq::<char>::empty(),
            r.demo_protocol == 0,
            r.network_protocol == 0,
            r.playback_time_bits == 0,
            r.playback_ticks == 0,
            r.playback_frames == 0,
            r.sign_on_length == 0,
    {
        Self {
            demo_file_stamp: String::new(),
            demo_protocol: 0,
            network_protocol: 0,
            server_name: String::new(),
            client_name: String::new(),
            map_name: String::new(),
            game_directory: String::new(),
            playback_time_bits: 0,
            playback_ticks: 0,
            playback_frames: 0,
            sign_on_length: 0,
        }
    }

    /// Decodes the header from a cursor at the start of the file.
    ///
    /// Succeeds exactly when at least 1072 bytes remain and the first 8 hold
    /// the magic stamp; a wrong stamp is `MalformedHeader`, a short buffer
    /// `BufferExhausted`.  Name fields have trailing NULs stripped.
    pub fn parse(reader: &mut BitReader) -> (r: Result<Self, DecodeError>)
        requires
            old(reader).wf(),
        ensures
            final(reader).wf(),
            final(reader).buf() == old(reader).buf(),
            ({
                let buf = old(reader).buf();
                let p = old(reader).pos as int;
                match r {
                    Ok(h) => {
                        &&& bits_ok(buf, p, 8576)
                        &&& crate::bitreader::bytes_at(buf, p, 8) == magic_stamp()
                        &&& final(reader).pos == old(reader).pos + 8576
                        &&& h.demo_file_stamp@ == fixed_str_at(buf, p, 8)
                        &&& h.demo_protocol == int_at(buf, p + 64, 32)
                        &&& h.network_protocol == int_at(buf, p + 96, 32)
                        &&& h.server_name@ == fixed_str_at(buf, p + 128, 260)
                        &&& h.client_name@ == fixed_str_at(buf, p + 2208, 260)
                        &&& h.map_name@ == fixed_str_at(buf, p + 4288, 260)
                        &&& h.game_directory@ == fixed_str_at(buf, p + 6368, 260)
                        &&& h.playback_time_bits as nat == uint_at(buf, p + 8448, 32)
                        &&& h.playback_ticks == int_at(buf, p + 8480, 32)
                        &&& h.playback_frames == int_at(buf, p + 8512, 32)
                        &&& h.sign_on_length == int_at(buf, p + 8544, 32)
                    },
                    Err(DecodeError::BufferExhausted) => !bits_ok(buf, p, 8576),
                    Err(DecodeError::MalformedHeader) => {
                        &&& bits_ok(buf, p, 8576)
                        &&& crate::bitreader::bytes_at(buf, p, 8) != magic_stamp()
                        &&& final(reader).pos == old(reader).pos
                    },
                    Err(_) => false,
                }
            }),
    {
        let start = reader.pos;
        if reader.bits.len() * 8 - reader.pos < 8576 {
            return Err(DecodeError::BufferExhausted);
        }
        let ghost buf = reader.bits@;
        let ghost p = reader.pos as int;
        let stamp_bytes = reader.read_bytes(8)?;
        let same = stamp_bytes[0] == 0x48 && stamp_bytes[1] == 0x4c && stamp_bytes[2] == 0x32
            && stamp_bytes[3] == 0x44 && stamp_bytes[4] == 0x45 && stamp_bytes[5] == 0x4d
            && stamp_bytes[6] == 0x4f && stamp_bytes[7] == 0x00;
        proof {
            if same {
                assert(stamp_bytes@ =~= magic_stamp());
            } else {
                if stamp_bytes@ == magic_stamp() {
                    assert(stamp_bytes@[0] == magic_stamp()[0]);
                    assert(stamp_bytes@[1] == magic_stamp()[1]);
                    assert(stamp_bytes@[2] == magic_stamp()[2]);
                    assert(stamp_bytes@[3] == magic_stamp()[3]);
                    assert(stamp_bytes@[4] == magic_stamp()[4]);
                    assert(stamp_bytes@[5] == magic_stamp()[5]);
                    assert(stamp_bytes@[6] == magic_stamp()[6]);
                    assert(stamp_bytes@[7] == magic_stamp()[7]);
                    assert(false);
                }
            }
        }
        if !same {
            reader.pos = start;
            return Err(DecodeError::MalformedHeader);
        }
        // Re-read the stamp region as a trimmed string for the record.
        reader.pos = start;
        let demo_file_stamp = reader.read_ascii_string(64)?;
        let demo_protocol = reader.read_int(32)?;
        let network_protocol = reader.read_int(32)?;
        let server_name = reader.read_ascii_string(2080)?;
        let client_name = reader.read_ascii_string(2080)?;
        let map_name = reader.read_ascii_string(2080)?;
        let game_directory = reader.read_ascii_string(2080)?;
        let playback_time_bits = reader.read_bits(32)? as u32;
        let playback_ticks = reader.read_int(32)?;
        let playback_frames = reader.read_int(32)?;
        let sign_on_length = reader.read_int(32)?;
        proof {
            crate::bitreader::lemma_uint_at_bound(buf, p + 8448, 32);
            vstd::arithmetic::power2::lemma2_to64();
            vstd::arithmetic::power2::lemma2_to64_rest();
        }
        Ok(
            Self {
                demo_file_stamp,
                demo_protocol,
                network_protocol,
                server_name,
                client_name,
                map_name,
                game_directory,
                playback_time_bits,
                playback_ticks,
                playback_frames,
                sign_on_length,
            },
        )
    }
}

} // verus!
