//! Decoder for the HL2DEMO replay container: a bit-packed, self-describing
//! stream of typed packets whose layout depends on the negotiated network
//! protocol and on schemas declared mid-stream.

pub mod bitreader;
pub mod cmd_info;
pub mod data_manager;
pub mod datatables_manager;
pub mod demo;
pub mod demo_header;
pub mod net_svc_message;
pub mod netsvc_types;
pub mod packet;
pub mod packet_data_types;
pub mod parser;
pub mod prop_reading;
pub mod send_table;
pub mod stringtable;
pub mod user_cmd_info;
pub mod user_message;
pub mod utils;

use vstd::prelude::*;

verus! {

/// How a decode can fail.
///
/// `BufferExhausted` is the only error the bit-level reads produce: a read
/// that would cross the end of the buffer fails without moving the cursor.
#[derive(Clone, Copy, PartialEq, Eq, Structural, Debug)]
pub enum DecodeError {
    /// The 8-byte magic stamp at the start of the file is wrong.
    MalformedHeader,
    /// A fixed-width read would cross the end of the buffer.
    BufferExhausted,
    /// A type tag (packet kind, schema property type) has no decoder.
    UnknownVariant,
    /// A referenced schema table or exclusion has no matching declaration.
    SchemaInconsistency,
}

} // verus!
