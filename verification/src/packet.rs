//! The top-level packet record: a kind tag, a tick, and a kind-specific
//! body.

use vstd::prelude::*;
use crate::packet_data_types as pdt;

verus! {

/// Every packet kind the container names.  Kind 7 is the terminal marker,
/// whose tick field is 3 bytes instead of 4.
#[derive(Clone, Copy, PartialEq, Eq, Structural, Debug)]
pub enum PacketType {
    Unknown,
    SignOn,
    Packet,
    SyncTick,
    ConsoleCmd,
    UserCmd,
    DataTables,
    Stop,
    StringTables,
}

impl PacketType {
    /// The packet kind a tag byte names.
    pub open spec fn spec_from_int(value: int) -> PacketType {
        if value == 1 {
            PacketType::SignOn
        } else if value == 2 {
            PacketType::Packet
        } else if value == 3 {
            PacketType::SyncTick
        } else if value == 4 {
            PacketType::ConsoleCmd
        } else if value == 5 {
            PacketType::UserCmd
        } else if value == 6 {
            PacketType::DataTables
        } else if value == 7 {
            PacketType::Stop
        } else if value == 8 {
            PacketType::StringTables
        } else {
            PacketType::Unknown
        }
    }

    /// Maps a tag byte to its packet kind; values outside 1 through 8 map
    /// to `Unknown`.
    pub fn from_int(value: i32) -> (r: Self)
        ensures
            r == PacketType::spec_from_int(value as int),
    {
        match value {
            1 => PacketType::SignOn,
            2 => PacketType::Packet,
            3 => PacketType::SyncTick,
            4 => PacketType::ConsoleCmd,
            5 => PacketType::UserCmd,
            6 => PacketType::DataTables,
            7 => PacketType::Stop,
            8 => PacketType::StringTables,
            _ => PacketType::Unknown,
        }
    }
}

/// The body of a packet, one variant per kind.
#[derive(Debug)]
pub enum PacketDataType {
    Unknown,
    Packet(pdt::PP),
    SyncTick(pdt::SyncTick),
    ConsoleCmd(pdt::ConsoleCmd),
    UserCmd(pdt::UserCmd),
    DataTables(pdt::DataTables),
    Stop(pdt::Stop),
    StringTables(pdt::StringTables),
}

impl PacketDataType {
    /// The full-update body, when this packet carries one.
    pub fn as_packet(&self) -> (r: Option<&pdt::PP>)
        ensures
            r is Some <==> self is Packet,
            r matches Some(v) ==> self == PacketDataType::Packet(*v),
    {
        match self {
            PacketDataType::Packet(v) => Some(v),
            _ => None,
        }
    }

    /// The console-command body, when this packet carries one.
    pub fn as_console_cmd(&self) -> (r: Option<&pdt::ConsoleCmd>)
        ensures
            r is Some <==> self is ConsoleCmd,
            r matches Some(v) ==> self == PacketDataType::ConsoleCmd(*v),
    {
        match self {
            PacketDataType::ConsoleCmd(v) => Some(v),
            _ => None,
        }
    }

    /// The user-input body, when this packet carries one.
    pub fn as_user_cmd(&self) -> (r: Option<&pdt::UserCmd>)
        ensures
            r is Some <==> self is UserCmd,
            r matches Some(v) ==> self == PacketDataType::UserCmd(*v),
    {
        match self {
            PacketDataType::UserCmd(v) => Some(v),
            _ => None,
        }
    }

    /// The schema-table body, when this packet carries one.
    pub fn as_data_tables(&self) -> (r: Option<&pdt::DataTables>)
        ensures
            r is Some <==> self is DataTables,
            r matches Some(v) ==> self == PacketDataType::DataTables(*v),
    {
        match self {
            PacketDataType::DataTables(v) => Some(v),
            _ => None,
        }
    }

    /// The string-table body, when this packet carries one.
    pub fn as_string_tables(&self) -> (r: Option<&pdt::StringTables>)
        ensures
            r is Some <==> self is StringTables,
            r matches Some(v) ==> self == PacketDataType::StringTables(*v),
    {
        match self {
            PacketDataType::StringTables(v) => Some(v),
            _ => None,
        }
    }
}

/// One decoded packet.
#[derive(Debug)]
pub struct Packet {
    pub packet_type: PacketType,
    pub tick: i32,
    pub slot: Option<i32>,
    pub data: PacketDataType,
}

impl Packet {
    pub fn new() -> (r: Self)
        ensures
            r.packet_type is Unknown,
            r.tick == 0,
            r.slot is None,
            r.data is Unknown,
    {
        Self { packet_type: PacketType::Unknown, tick: 0, slot: None, data: PacketDataType::Unknown }
    }
}

} // verus!
