//! The F1AP messages that the worker and its F1 peer exchange, held as plain
//! values. Encoded containers are byte strings; the codec is not part of
//! this crate.

use vstd::prelude::*;

verus! {

/// A copy of `bytes`.
pub fn copy_bytes(bytes: &Vec<u8>) -> (r: Vec<u8>)
    ensures
        r@ == bytes@,
{
    let mut r: Vec<u8> = Vec::new();
    let mut i: usize = 0;
    while i < bytes.len()
        invariant
            i <= bytes@.len(),
            r@ == bytes@.take(i as int),
        decreases bytes@.len() - i,
    {
        r.push(bytes[i]);
        proof {
            assert(bytes@.take(i + 1) =~= bytes@.take(i as int).push(bytes@[i as int]));
        }
        i = i + 1;
    }
    proof {
        assert(bytes@.take(bytes@.len() as int) =~= bytes@);
    }
    r
}

/// Whether two byte strings are equal.
pub fn same_bytes(a: &Vec<u8>, b: &Vec<u8>) -> (eq: bool)
    ensures
        eq == (a@ == b@),
{
    if a.len() != b.len() {
        return false;
    }
    let mut i: usize = 0;
    while i < a.len()
        invariant
            a@.len() == b@.len(),
            i <= a@.len(),
            a@.take(i as int) == b@.take(i as int),
        decreases a@.len() - i,
    {
        if a[i] != b[i] {
            return false;
        }
        proof {
            assert(a@.take(i + 1) =~= a@.take(i as int).push(a@[i as int]));
            assert(b@.take(i + 1) =~= b@.take(i as int).push(b@[i as int]));
        }
        i = i + 1;
    }
    proof {
        assert(a@.take(a@.len() as int) =~= a@);
        assert(b@.take(b@.len() as int) =~= b@);
    }
    true
}

/// An IP address as the octets that go on the wire: four for IPv4, sixteen
/// for IPv6.
#[derive(Debug, Clone, PartialEq, Eq)]
pub struct TransportLayerAddress {
    pub octets: Vec<u8>,
}

impl TransportLayerAddress {
    pub open spec fn wf(&self) -> bool {
        self.octets@.len() == 4 || self.octets@.len() == 16
    }

    /// Accepts exactly the octet strings of an IPv4 or an IPv6 address.
    pub fn from_octets(octets: Vec<u8>) -> (r: Option<TransportLayerAddress>)
        ensures
            r is Some <==> (octets@.len() == 4 || octets@.len() == 16),
            r is Some ==> r->0.octets == octets,
    {
        if octets.len() == 4 || octets.len() == 16 {
            Some(TransportLayerAddress { octets })
        } else {
            None
        }
    }

    pub fn duplicate(&self) -> (r: TransportLayerAddress)
        ensures
            r.octets@ == self.octets@,
    {
        TransportLayerAddress { octets: copy_bytes(&self.octets) }
    }
}

/// One end of a GTP-U tunnel.
#[derive(Debug, Clone, PartialEq, Eq)]
pub struct GtpTunnel {
    pub transport_layer_address: TransportLayerAddress,
    pub gtp_teid: [u8; 4],
}

impl GtpTunnel {
    /// The tunnel's address octets and its endpoint identifier.
    pub open spec fn view(&self) -> (Seq<u8>, [u8; 4]) {
        (self.transport_layer_address.octets@, self.gtp_teid)
    }

    pub fn duplicate(&self) -> (r: GtpTunnel)
        ensures
            r@ == self@,
    {
        GtpTunnel {
            transport_layer_address: self.transport_layer_address.duplicate(),
            gtp_teid: self.gtp_teid,
        }
    }
}

#[derive(Debug, Clone, PartialEq, Eq)]
pub struct NrCgi {
    pub plmn_identity: [u8; 3],
    /// 36 bits.
    pub nr_cell_identity: u64,
}

#[derive(Debug, Clone, PartialEq, Eq)]
pub struct F1SetupRequest {
    pub transaction_id: u8,
    pub gnb_du_id: u64,
    /// Three bits.
    pub latest_rrc_version: u8,
}

#[derive(Debug, Clone, PartialEq, Eq)]
pub struct F1SetupResponse {
    pub transaction_id: u8,
}

#[derive(Debug, Clone, PartialEq, Eq)]
pub struct InitialUlRrcMessageTransfer {
    pub gnb_du_ue_f1ap_id: u32,
    pub nr_cgi: NrCgi,
    pub c_rnti: u16,
    pub rrc_container: Vec<u8>,
    pub du_to_cu_rrc_container: Option<Vec<u8>>,
    pub transaction_id: Option<u8>,
}

#[derive(Debug, Clone, PartialEq, Eq)]
pub struct DlRrcMessageTransfer {
    pub gnb_cu_ue_f1ap_id: u32,
    pub gnb_du_ue_f1ap_id: u32,
    pub srb_id: u8,
    pub rrc_container: Vec<u8>,
}

#[derive(Debug, Clone, PartialEq, Eq)]
pub struct UlRrcMessageTransfer {
    pub gnb_cu_ue_f1ap_id: u32,
    pub gnb_du_ue_f1ap_id: u32,
    pub srb_id: u8,
    pub rrc_container: Vec<u8>,
}

#[derive(Debug, Clone, PartialEq, Eq)]
pub struct DrbsToBeSetupItem {
    pub drb_id: u8,
    /// Never empty on the wire.
    pub ul_up_tnl_information_to_be_setup_list: Vec<GtpTunnel>,
}

#[derive(Debug, Clone, PartialEq, Eq)]
pub struct UeContextSetupRequest {
    pub gnb_cu_ue_f1ap_id: u32,
    pub gnb_du_ue_f1ap_id: Option<u32>,
    /// Never empty on the wire where it is present.
    pub drbs_to_be_setup_list: Option<Vec<DrbsToBeSetupItem>>,
}

#[derive(Debug, Clone, PartialEq, Eq)]
pub struct DrbsSetupItem {
    pub drb_id: u8,
    pub dl_up_tnl_information_to_be_setup_list: Vec<GtpTunnel>,
}

#[derive(Debug, Clone, PartialEq, Eq)]
pub struct UeContextSetupResponse {
    pub gnb_cu_ue_f1ap_id: u32,
    pub gnb_du_ue_f1ap_id: u32,
    pub cell_group_config: Vec<u8>,
    pub drbs_setup_list: Option<Vec<DrbsSetupItem>>,
}

#[derive(Debug, Clone, PartialEq, Eq)]
pub struct UeContextReleaseCommand {
    pub gnb_cu_ue_f1ap_id: u32,
    pub gnb_du_ue_f1ap_id: u32,
}

#[derive(Debug, Clone, PartialEq, Eq)]
pub struct UeContextReleaseComplete {
    pub gnb_cu_ue_f1ap_id: u32,
    pub gnb_du_ue_f1ap_id: u32,
}

#[derive(Debug, Clone, PartialEq, Eq)]
pub enum CpTransportLayerAddress {
    EndpointIpAddress(TransportLayerAddress),
    EndpointIpAddressAndPort(TransportLayerAddress, u16),
}

#[derive(Debug, Clone, Copy, PartialEq, Eq)]
pub enum TnlAssociationUsage {
    Ue,
    NonUe,
    Both,
}

#[derive(Debug, Clone, PartialEq, Eq)]
pub struct GnbCuTnlAssociationToAddItem {
    pub tnl_association_transport_layer_address: CpTransportLayerAddress,
    pub tnl_association_usage: TnlAssociationUsage,
}

#[derive(Debug, Clone, PartialEq, Eq)]
pub struct GnbCuConfigurationUpdate {
    pub transaction_id: u8,
    /// Never empty on the wire where it is present.
    pub gnb_cu_tnl_association_to_add_list: Option<Vec<GnbCuTnlAssociationToAddItem>>,
}

#[derive(Debug, Clone, PartialEq, Eq)]
pub struct GnbCuConfigurationUpdateAcknowledge {
    pub transaction_id: u8,
    pub gnb_cu_tnl_association_setup_list: Option<Vec<CpTransportLayerAddress>>,
}

#[derive(Debug, Clone, PartialEq, Eq)]
pub struct GnbDuConfigurationUpdate {
    pub transaction_id: u8,
}

#[derive(Debug, Clone, PartialEq, Eq)]
pub struct GnbDuConfigurationUpdateAcknowledge {
    pub transaction_id: u8,
}

#[derive(Debug, Clone, PartialEq, Eq)]
pub enum InitiatingMessage {
    F1SetupRequest(F1SetupRequest),
    InitialUlRrcMessageTransfer(InitialUlRrcMessageTransfer),
    DlRrcMessageTransfer(DlRrcMessageTransfer),
    UlRrcMessageTransfer(UlRrcMessageTransfer),
    UeContextSetupRequest(UeContextSetupRequest),
    UeContextReleaseCommand(UeContextReleaseCommand),
    GnbCuConfigurationUpdate(GnbCuConfigurationUpdate),
    GnbDuConfigurationUpdate(GnbDuConfigurationUpdate),
}

#[derive(Debug, Clone, PartialEq, Eq)]
pub enum SuccessfulOutcome {
    F1SetupResponse(F1SetupResponse),
    UeContextSetupResponse(UeContextSetupResponse),
    UeContextReleaseComplete(UeContextReleaseComplete),
    GnbCuConfigurationUpdateAcknowledge(GnbCuConfigurationUpdateAcknowledge),
    GnbDuConfigurationUpdateAcknowledge(GnbDuConfigurationUpdateAcknowledge),
}

/// A failure reply, by the transaction that it answers.
#[derive(Debug, Clone, PartialEq, Eq)]
pub struct UnsuccessfulOutcome {
    pub transaction_id: u8,
}

#[derive(Debug, Clone, PartialEq, Eq)]
pub enum F1apPdu {
    InitiatingMessage(InitiatingMessage),
    SuccessfulOutcome(SuccessfulOutcome),
    UnsuccessfulOutcome(UnsuccessfulOutcome),
}

} // verus!
