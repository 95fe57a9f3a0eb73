//! Everything decoded from one file: the header, the packet list, and the
//! protocol context that accumulated while decoding.

use vstd::prelude::*;
use crate::data_manager::DataManager;
use crate::demo_header::DemoHeader;
use crate::packet::Packet;

verus! {

/// One decoded demo.
pub struct Demo {
    pub header: DemoHeader,
    pub packets: Vec<Packet>,
    pub data_manager: DataManager,
}

impl Demo {
    pub fn new() -> (r: Self)
        ensures
            r.packets@.len() == 0,
            r.data_manager.wf(),
    {
        Self { header: DemoHeader::new(), packets: Vec::new(), data_manager: DataManager::new() }
    }
}

} // verus!
