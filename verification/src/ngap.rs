//! The NGAP messages of NG setup, held as plain values.

use vstd::prelude::*;

verus! {

/// A network slice: its type and, where it has one, its differentiator.
#[derive(Debug, Clone, Copy, PartialEq, Eq)]
pub struct Snssai {
    pub sst: u8,
    pub sd: Option<[u8; 3]>,
}

#[derive(Debug, Clone, PartialEq, Eq)]
pub struct BroadcastPlmnItem {
    pub plmn_identity: [u8; 3],
    pub tai_slice_support_list: Vec<Snssai>,
}

#[derive(Debug, Clone, PartialEq, Eq)]
pub struct SupportedTaItem {
    pub tac: [u8; 3],
    pub broadcast_plmn_list: Vec<BroadcastPlmnItem>,
}

#[derive(Debug, Clone, Copy, PartialEq, Eq, Structural)]
pub enum PagingDrx {
    V32,
    V64,
    V128,
    V256,
}

/// The worker's gNB, as the core knows it.
#[derive(Debug, Clone, Copy, PartialEq, Eq)]
pub struct GlobalRanNodeId {
    pub plmn_identity: [u8; 3],
    pub gnb_id: u32,
    /// How many bits of `gnb_id` count: 22 to 32.
    pub gnb_id_bits: u8,
}

#[derive(Debug, Clone, PartialEq, Eq)]
pub struct NgSetupRequest {
    pub global_ran_node_id: GlobalRanNodeId,
    pub ran_node_name: Option<String>,
    pub supported_ta_list: Vec<SupportedTaItem>,
    pub default_paging_drx: PagingDrx,
}

#[derive(Debug, Clone, PartialEq, Eq)]
pub struct NgSetupResponse {
    pub amf_name: Option<String>,
}

} // verus!
