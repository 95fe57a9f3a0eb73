//! The body records of the top-level packet kinds.

use vstd::prelude::*;
use crate::cmd_info::CmdInfo;
use crate::net_svc_message::NetSvcMessage;
use crate::send_table::SendTable;
use crate::stringtable::StringTable;
use crate::user_cmd_info::UserCmdInfo;
use crate::utils::ServerClass;

verus! {

/// A full-update packet body: the orientation block, two sequence counters,
/// the declared byte length, and the decoded message stream.
#[derive(Debug)]
pub struct PP {
    pub cmd_info: CmdInfo,
    pub in_sequence: i32,
    pub out_sequence: i32,
    pub size: i32,
    pub messages: Vec<NetSvcMessage>,
}

impl PP {
    pub fn new() -> (r: Self)
        ensures
            r.in_sequence == 0,
            r.out_sequence == 0,
            r.size == 0,
            r.messages@.len() == 0,
    {
        Self {
            cmd_info: CmdInfo::new(),
            in_sequence: 0,
            out_sequence: 0,
            size: 0,
            messages: Vec::new(),
        }
    }
}

/// The sync marker carries no data.
#[derive(Clone, Debug)]
pub struct SyncTick;

/// A console command captured into the stream.
#[derive(Clone, Debug)]
pub struct ConsoleCmd {
    pub size: i32,
    pub data: String,
}

impl ConsoleCmd {
    pub fn new() -> (r: Self)
        ensures
            r.size == 0,
            r.data@ == Seq::<char>::empty(),
    {
        Self { size: 0, data: String::new() }
    }
}

/// A per-tick user input record.
#[derive(Debug)]
pub struct UserCmd {
    pub cmd: i32,
    pub size: i32,
    pub data: UserCmdInfo,
}

impl UserCmd {
    pub fn new() -> (r: Self)
        ensures
            r.cmd == 0,
            r.size == 0,
    {
        Self { cmd: 0, size: 0, data: UserCmdInfo::new() }
    }
}

/// A schema-table packet body: the declared tables and the class bindings.
#[derive(Debug)]
pub struct DataTables {
    pub size: i32,
    pub send_table_count: i32,
    pub send_tables: Vec<SendTable>,
    pub class_count: i32,
    pub server_classes: Vec<ServerClass>,
}

impl DataTables {
    pub fn new() -> (r: Self)
        ensures
            r.size == 0,
            r.send_table_count == 0,
            r.send_tables@.len() == 0,
            r.class_count == 0,
            r.server_classes@.len() == 0,
    {
        Self {
            size: 0,
            send_table_count: 0,
            send_tables: Vec::new(),
            class_count: 0,
            server_classes: Vec::new(),
        }
    }
}

/// The terminal marker carries no data.
#[derive(Clone, Debug)]
pub struct Stop;

/// A string-table packet body.
#[derive(Debug)]
pub struct StringTables {
    pub size: i32,
    pub table_count: i32,
    pub tables: Vec<StringTable>,
}

impl StringTables {
    pub fn new() -> (r: Self)
        ensures
            r.size == 0,
            r.table_count == 0,
            r.tables@.len() == 0,
    {
        Self { size: 0, table_count: 0, tables: Vec::new() }
    }
}

} // verus!
