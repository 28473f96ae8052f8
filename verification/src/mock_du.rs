//! The DU side of the F1 interface, as far as it takes to drive a CU-CP
//! through F1 setup, UE attach, bearer setup and release. Every function
//! here decides or builds; sending, receiving and the codecs are the
//! caller's.

use crate::f1ap::{
    copy_bytes, same_bytes, CpTransportLayerAddress, DlRrcMessageTransfer, DrbsSetupItem, F1SetupRequest,
    F1apPdu, GnbCuConfigurationUpdateAcknowledge, GnbDuConfigurationUpdate, GtpTunnel,
    InitialUlRrcMessageTransfer, InitiatingMessage, NrCgi, SuccessfulOutcome,
    TransportLayerAddress, UeContextReleaseComplete, UeContextSetupRequest,
    UeContextSetupResponse, UlRrcMessageTransfer,
};
use crate::net::{socket_address, socket_address_spec, ConnectRequest, F1AP_BIND_PORT, F1AP_SCTP_PPID};
use crate::rrc::{
    CellGroupConfig, DlCcchMessage, DlDcchMessage, EstablishmentCause, RrcReconfigurationComplete,
    RrcSetup, RrcSetupComplete, RrcSetupRequest, SecurityModeCommand, SecurityModeComplete,
    UlCcchMessage, UlDcchMessage, UlInformationTransfer,
};
use rand::Rng;
use vstd::prelude::*;

verus! {

/// Why the DU gave up on a step.
#[derive(Debug, Clone, Copy, PartialEq, Eq, Structural)]
pub enum MockError {
    UnexpectedF1apMessage,
    UnexpectedRrcMessage,
    BadUeId,
    DrbAlreadySet,
    NoDrbsSupplied,
    BadTransportLayerAddress,
    CuF1apIdNotSet,
    DrbNotSet,
    NoNasMessageList,
    NoPduSession,
}

/// The association that carries a UE's signalling.
#[derive(Debug, Clone, Copy, PartialEq, Eq, Structural)]
pub struct Binding {
    pub assoc_id: u32,
}

/// A data radio bearer and the two ends of its tunnel.
#[derive(Debug, Clone, PartialEq, Eq)]
pub struct Drb {
    pub remote_tunnel_info: GtpTunnel,
    pub local_teid: [u8; 4],
    pub drb_id: u8,
}

impl Drb {
    /// The remote tunnel end, the local endpoint identifier and the bearer's
    /// identifier.
    pub open spec fn view(&self) -> ((Seq<u8>, [u8; 4]), [u8; 4], u8) {
        (self.remote_tunnel_info@, self.local_teid, self.drb_id)
    }
}

/// What the DU knows of one UE.
#[derive(Debug, Clone, PartialEq, Eq)]
pub struct UeContext {
    pub ue_id: u32,
    pub gnb_cu_ue_f1ap_id: Option<u32>,
    pub binding: Binding,
    pub drb: Option<Drb>,
}

pub struct MockDu {
    pub local_ip: String,
    pub local_address: TransportLayerAddress,
}

/// The UE context setup request that `pdu` carries.
pub open spec fn setup_request_of(pdu: F1apPdu) -> Option<UeContextSetupRequest> {
    match pdu {
        F1apPdu::InitiatingMessage(InitiatingMessage::UeContextSetupRequest(r)) => Some(r),
        _ => None,
    }
}

/// The lists of a request are never empty where the logic reads their head.
pub open spec fn setup_lists_nonempty(pdu: F1apPdu) -> bool {
    match setup_request_of(pdu) {
        Some(r) => match r.drbs_to_be_setup_list {
            Some(l) => l@.len() >= 1 && l@[0].ul_up_tnl_information_to_be_setup_list@.len() >= 1,
            None => true,
        },
        None => true,
    }
}

/// The first reason, in the order in which the DU looks, for which it
/// refuses `pdu` as a UE context setup for `ctx`.
pub open spec fn setup_rejection(ctx: UeContext, pdu: F1apPdu) -> Option<MockError> {
    match setup_request_of(pdu) {
        None => Some(MockError::UnexpectedF1apMessage),
        Some(r) => if r.gnb_du_ue_f1ap_id != Some(ctx.ue_id) {
            Some(MockError::BadUeId)
        } else if ctx.drb is Some {
            Some(MockError::DrbAlreadySet)
        } else {
            match r.drbs_to_be_setup_list {
                None => Some(MockError::NoDrbsSupplied),
                Some(l) => if !l@[0].ul_up_tnl_information_to_be_setup_list@[0].transport_layer_address.wf() {
                    Some(MockError::BadTransportLayerAddress)
                } else if ctx.gnb_cu_ue_f1ap_id is None {
                    Some(MockError::CuF1apIdNotSet)
                } else {
                    None
                },
            }
        },
    }
}

/// `pdu` is the UE context setup response for the given identifiers that
/// offers one bearer with one downlink tunnel end.
pub open spec fn is_setup_response(
    pdu: F1apPdu,
    gnb_cu_ue_f1ap_id: u32,
    gnb_du_ue_f1ap_id: u32,
    cell_group_config: Seq<u8>,
    drb_id: u8,
    tunnel: (Seq<u8>, [u8; 4]),
) -> bool {
    match pdu {
        F1apPdu::SuccessfulOutcome(SuccessfulOutcome::UeContextSetupResponse(r)) => {
            &&& r.gnb_cu_ue_f1ap_id == gnb_cu_ue_f1ap_id
            &&& r.gnb_du_ue_f1ap_id == gnb_du_ue_f1ap_id
            &&& r.cell_group_config@ == cell_group_config
            &&& match r.drbs_setup_list {
                Some(l) => {
                    &&& l@.len() == 1
                    &&& l@[0].drb_id == drb_id
                    &&& l@[0].dl_up_tnl_information_to_be_setup_list@.len() == 1
                    &&& l@[0].dl_up_tnl_information_to_be_setup_list@[0]@ == tunnel
                },
                None => false,
            }
        },
        _ => false,
    }
}

/// What accepting `pdu` with the local endpoint identifier `teid` makes of
/// the context `before` and gives back.
pub open spec fn setup_outcome(
    du: MockDu,
    before: UeContext,
    pdu: F1apPdu,
    teid: [u8; 4],
    cell_group_config: Seq<u8>,
    after: UeContext,
    r: Result<F1apPdu, MockError>,
) -> bool {
    let rejection = setup_rejection(before, pdu);
    &&& after.ue_id == before.ue_id
    &&& after.gnb_cu_ue_f1ap_id == before.gnb_cu_ue_f1ap_id
    &&& after.binding == before.binding
    &&& if rejection is None || rejection == Some(MockError::CuF1apIdNotSet) {
        let first = setup_request_of(pdu)->0.drbs_to_be_setup_list->0@[0];
        &&& after.drb is Some
        &&& after.drb->0@ == (
            first.ul_up_tnl_information_to_be_setup_list@[0]@,
            teid,
            first.drb_id,
        )
    } else {
        after.drb == before.drb
    }
    &&& match r {
        Ok(response) => {
            &&& rejection is None
            &&& is_setup_response(
                response,
                before.gnb_cu_ue_f1ap_id->0,
                before.ue_id,
                cell_group_config,
                setup_request_of(pdu)->0.drbs_to_be_setup_list->0@[0].drb_id,
                (du.local_address.octets@, teid),
            )
        },
        Err(e) => rejection == Some(e),
    }
}

/// Draws a tunnel endpoint identifier with `rand::thread_rng().gen()`, which
/// fills the four bytes from the thread's generator. Nothing is claimed of
/// the bytes.
#[verifier::external_body]
fn random_teid() -> (teid: [u8; 4]) {
    rand::thread_rng().gen::<[u8; 4]>()
}

/// The cell group configuration that this DU reports for every UE.
pub fn make_rrc_cell_group_config() -> (c: CellGroupConfig)
    ensures
        c.cell_group_id == 1,
{
    CellGroupConfig { cell_group_id: 1 }
}

impl MockDu {
    pub fn new(local_ip: String, local_address: TransportLayerAddress) -> (du: MockDu)
        ensures
            du.local_ip == local_ip,
            du.local_address == local_address,
    {
        MockDu { local_ip, local_address }
    }

    /// A context for the UE `ue_id`, which no CU knows yet and which has no
    /// bearer.
    pub fn new_ue_context(&self, ue_id: u32, binding: Binding) -> (ctx: UeContext)
        ensures
            ctx.ue_id == ue_id,
            ctx.binding == binding,
            ctx.gnb_cu_ue_f1ap_id is None,
            ctx.drb is None,
    {
        UeContext { ue_id, binding, gnb_cu_ue_f1ap_id: None, drb: None }
    }

    /// Where to connect for F1 setup with the worker at `worker_ip`, and from
    /// where.
    pub fn perform_f1_setup(&self, worker_ip: &str) -> (c: ConnectRequest)
        ensures
            c.remote_address@ == socket_address_spec(worker_ip@, 38472),
            c.bind_address@ == self.local_ip@,
            c.ppid == 62,
    {
        ConnectRequest {
            remote_address: socket_address(worker_ip, F1AP_BIND_PORT),
            bind_address: self.local_ip.clone(),
            ppid: F1AP_SCTP_PPID,
        }
    }

    pub fn send_f1_setup_request(&self) -> (pdu: F1apPdu)
        ensures
            pdu == F1apPdu::InitiatingMessage(
                InitiatingMessage::F1SetupRequest(
                    (F1SetupRequest { transaction_id: 0, gnb_du_id: 123, latest_rrc_version: 0 }),
                ),
            ),
    {
        F1apPdu::InitiatingMessage(
            InitiatingMessage::F1SetupRequest(
                F1SetupRequest { transaction_id: 0, gnb_du_id: 123, latest_rrc_version: 0 },
            ),
        )
    }

    pub fn receive_f1_setup_response(&self, pdu: F1apPdu) -> (r: Result<(), MockError>)
        ensures
            r is Ok <==> pdu matches F1apPdu::SuccessfulOutcome(
                SuccessfulOutcome::F1SetupResponse(_),
            ),
            r is Err ==> r == Err::<(), MockError>(MockError::UnexpectedF1apMessage),
    {
        match pdu {
            F1apPdu::SuccessfulOutcome(SuccessfulOutcome::F1SetupResponse(_)) => Ok(()),
            _ => Err(MockError::UnexpectedF1apMessage),
        }
    }

    /// The connection request of a UE that answers a page.
    pub fn rrc_setup_request(&self) -> (m: UlCcchMessage)
        ensures
            m == UlCcchMessage::RrcSetupRequest(
                (RrcSetupRequest {
                    ng_5g_s_tmsi_part1: 0,
                    establishment_cause: EstablishmentCause::MtAccess,
                }),
            ),
    {
        UlCcchMessage::RrcSetupRequest(
            RrcSetupRequest {
                ng_5g_s_tmsi_part1: 0,
                establishment_cause: EstablishmentCause::MtAccess,
            },
        )
    }

    /// Wraps an encoded connection request as the UE's first uplink message.
    pub fn send_rrc_setup_request(
        &self,
        ue_context: &UeContext,
        rrc_setup_request: Vec<u8>,
        du_to_cu_rrc_container: Vec<u8>,
    ) -> (pdu: F1apPdu)
        ensures
            match pdu {
                F1apPdu::InitiatingMessage(InitiatingMessage::InitialUlRrcMessageTransfer(t)) => {
                    &&& t.gnb_du_ue_f1ap_id == ue_context.ue_id
                    &&& t.nr_cgi.plmn_identity@ == seq![0u8, 1u8, 2u8]
                    &&& t.nr_cgi.nr_cell_identity == 0
                    &&& t.c_rnti == 14
                    &&& t.rrc_container == rrc_setup_request
                    &&& t.du_to_cu_rrc_container == Some(du_to_cu_rrc_container)
                    &&& t.transaction_id == Some(1u8)
                },
                _ => false,
            },
    {
        let plmn_identity: [u8; 3] = [0, 1, 2];
        assert(plmn_identity@ =~= seq![0u8, 1u8, 2u8]);
        F1apPdu::InitiatingMessage(
            InitiatingMessage::InitialUlRrcMessageTransfer(
                InitialUlRrcMessageTransfer {
                    gnb_du_ue_f1ap_id: ue_context.ue_id,
                    nr_cgi: NrCgi { plmn_identity, nr_cell_identity: 0 },
                    c_rnti: 14,
                    rrc_container: rrc_setup_request,
                    du_to_cu_rrc_container: Some(du_to_cu_rrc_container),
                    transaction_id: Some(1),
                },
            ),
        )
    }

    /// Takes the container of the CU's first downlink message and learns
    /// from it the identifier that the CU gave the UE.
    pub fn receive_rrc_setup(&self, ue_context: &mut UeContext, pdu: F1apPdu) -> (r: Result<
        Vec<u8>,
        MockError,
    >)
        requires
            dl_rrc_of(pdu) is Some ==> dl_rrc_of(pdu)->0.srb_id == 0,
        ensures
            final(ue_context).ue_id == old(ue_context).ue_id,
            final(ue_context).binding == old(ue_context).binding,
            final(ue_context).drb == old(ue_context).drb,
            match dl_rrc_of(pdu) {
                Some(t) => {
                    &&& r == Ok::<Vec<u8>, MockError>(t.rrc_container)
                    &&& final(ue_context).gnb_cu_ue_f1ap_id == Some(t.gnb_cu_ue_f1ap_id)
                },
                None => {
                    &&& r == Err::<Vec<u8>, MockError>(MockError::UnexpectedF1apMessage)
                    &&& final(ue_context).gnb_cu_ue_f1ap_id == old(ue_context).gnb_cu_ue_f1ap_id
                },
            },
    {
        match pdu {
            F1apPdu::InitiatingMessage(InitiatingMessage::DlRrcMessageTransfer(t)) => {
                ue_context.gnb_cu_ue_f1ap_id = Some(t.gnb_cu_ue_f1ap_id);
                Ok(t.rrc_container)
            },
            _ => Err(MockError::UnexpectedF1apMessage),
        }
    }

    /// The setup that a decoded downlink CCCH message carries.
    pub fn rrc_setup_of(&self, message: DlCcchMessage) -> (r: Result<RrcSetup, MockError>)
        ensures
            match message {
                DlCcchMessage::RrcSetup(s) => r == Ok::<RrcSetup, MockError>(s),
                _ => r == Err::<RrcSetup, MockError>(MockError::UnexpectedRrcMessage),
            },
    {
        match message {
            DlCcchMessage::RrcSetup(s) => Ok(s),
            _ => Err(MockError::UnexpectedRrcMessage),
        }
    }

    /// The UE's answer to `rrc_setup`, carrying its first NAS message.
    pub fn send_rrc_setup_complete(&self, rrc_setup: RrcSetup, nas_message: Vec<u8>) -> (m:
        UlDcchMessage)
        ensures
            m == UlDcchMessage::RrcSetupComplete(
                (RrcSetupComplete {
                    rrc_transaction_identifier: rrc_setup.rrc_transaction_identifier,
                    selected_plmn_identity: 1,
                    dedicated_nas_message: nas_message,
                }),
            ),
    {
        UlDcchMessage::RrcSetupComplete(
            RrcSetupComplete {
                rrc_transaction_identifier: rrc_setup.rrc_transaction_identifier,
                selected_plmn_identity: 1,
                dedicated_nas_message: nas_message,
            },
        )
    }

    /// An uplink NAS message on its way to the core.
    pub fn send_nas(&self, nas_bytes: Vec<u8>) -> (m: UlDcchMessage)
        ensures
            m == UlDcchMessage::UlInformationTransfer(
                (UlInformationTransfer { dedicated_nas_message: Some(nas_bytes) }),
            ),
    {
        UlDcchMessage::UlInformationTransfer(
            UlInformationTransfer { dedicated_nas_message: Some(nas_bytes) },
        )
    }

    /// Wraps a PDCP-framed uplink RRC message for the first signalling
    /// bearer.
    pub fn send_ul_rrc(&self, ue_context: &UeContext, pdcp_pdu: Vec<u8>) -> (pdu: F1apPdu)
        requires
            ue_context.gnb_cu_ue_f1ap_id is Some,
        ensures
            pdu == F1apPdu::InitiatingMessage(
                InitiatingMessage::UlRrcMessageTransfer(
                    (UlRrcMessageTransfer {
                        gnb_cu_ue_f1ap_id: ue_context.gnb_cu_ue_f1ap_id->0,
                        gnb_du_ue_f1ap_id: ue_context.ue_id,
                        srb_id: 1,
                        rrc_container: pdcp_pdu,
                    }),
                ),
            ),
    {
        let gnb_cu_ue_f1ap_id = match ue_context.gnb_cu_ue_f1ap_id {
            Some(id) => id,
            None => 0,
        };
        F1apPdu::InitiatingMessage(
            InitiatingMessage::UlRrcMessageTransfer(
                UlRrcMessageTransfer {
                    gnb_cu_ue_f1ap_id,
                    gnb_du_ue_f1ap_id: ue_context.ue_id,
                    srb_id: 1,
                    rrc_container: pdcp_pdu,
                },
            ),
        )
    }

    /// The downlink RRC transfer that arrived for `ue_context` on the
    /// association `assoc_id`.
    pub fn receive_dl_rrc(&self, ue_context: &UeContext, pdu: F1apPdu, assoc_id: u32) -> (r:
        Result<DlRrcMessageTransfer, MockError>)
        requires
            assoc_id == ue_context.binding.assoc_id,
            dl_rrc_of(pdu) is Some ==> dl_rrc_of(pdu)->0.gnb_du_ue_f1ap_id == ue_context.ue_id,
        ensures
            match dl_rrc_of(pdu) {
                Some(t) => r == Ok::<DlRrcMessageTransfer, MockError>(t),
                None => r == Err::<DlRrcMessageTransfer, MockError>(
                    MockError::UnexpectedF1apMessage,
                ),
            },
    {
        match pdu {
            F1apPdu::InitiatingMessage(InitiatingMessage::DlRrcMessageTransfer(t)) => Ok(t),
            _ => Err(MockError::UnexpectedF1apMessage),
        }
    }

    /// The NAS message that a decoded downlink information transfer carries.
    pub fn receive_nas(&self, message: DlDcchMessage) -> (r: Result<Vec<u8>, MockError>)
        ensures
            r == nas_of_dl_transfer(message),
    {
        nas_from_dl_transfer_rrc_container(message)
    }

    /// The security mode command in a decoded message that came on the
    /// signalling bearer `srb_id`.
    pub fn receive_security_mode_command(&self, srb_id: u8, message: DlDcchMessage) -> (r: Result<
        SecurityModeCommand,
        MockError,
    >)
        requires
            srb_id == 1,
        ensures
            match message {
                DlDcchMessage::SecurityModeCommand(c) => r == Ok::<SecurityModeCommand, MockError>(
                    c,
                ),
                _ => r == Err::<SecurityModeCommand, MockError>(MockError::UnexpectedRrcMessage),
            },
    {
        match message {
            DlDcchMessage::SecurityModeCommand(c) => Ok(c),
            _ => Err(MockError::UnexpectedRrcMessage),
        }
    }

    /// Accepts `pdu` as the setup request for `ue_context`, with the given
    /// local tunnel endpoint identifier: records the bearer and builds the
    /// response.
    pub fn accept_ue_context_setup(
        &self,
        ue_context: &mut UeContext,
        pdu: F1apPdu,
        local_teid: [u8; 4],
        cell_group_config: Vec<u8>,
    ) -> (r: Result<F1apPdu, MockError>)
        requires
            setup_lists_nonempty(pdu),
        ensures
            setup_outcome(
                *self,
                *old(ue_context),
                pdu,
                local_teid,
                cell_group_config@,
                *final(ue_context),
                r,
            ),
    {
        let request = match self.check_ue_context_setup_request(pdu, ue_context) {
            Ok(request) => request,
            Err(e) => {
                return Err(e);
            },
        };
        if ue_context.drb.is_some() {
            return Err(MockError::DrbAlreadySet);
        }
        let drbs_to_be_setup_list = match request.drbs_to_be_setup_list {
            Some(l) => l,
            None => {
                return Err(MockError::NoDrbsSupplied);
            },
        };
        let first_drb = &drbs_to_be_setup_list[0];
        let remote_tunnel_info = &first_drb.ul_up_tnl_information_to_be_setup_list[0];
        let n = remote_tunnel_info.transport_layer_address.octets.len();
        if !(n == 4 || n == 16) {
            return Err(MockError::BadTransportLayerAddress);
        }
        ue_context.drb = Some(
            Drb {
                drb_id: first_drb.drb_id,
                remote_tunnel_info: remote_tunnel_info.duplicate(),
                local_teid,
            },
        );
        self.build_ue_context_setup_response(ue_context, cell_group_config)
    }

    /// As `accept_ue_context_setup`, with a local tunnel endpoint identifier
    /// drawn at random.
    pub fn handle_ue_context_setup(
        &self,
        ue_context: &mut UeContext,
        pdu: F1apPdu,
        cell_group_config: Vec<u8>,
    ) -> (r: Result<F1apPdu, MockError>)
        requires
            setup_lists_nonempty(pdu),
        ensures
            exists|teid: [u8; 4]|
                setup_outcome(
                    *self,
                    *old(ue_context),
                    pdu,
                    teid,
                    cell_group_config@,
                    *final(ue_context),
                    r,
                ),
    {
        let teid = random_teid();
        self.accept_ue_context_setup(ue_context, pdu, teid, cell_group_config)
    }

    /// The setup request in `pdu`, if it is one for the UE of `ue_context`.
    pub fn check_ue_context_setup_request(&self, pdu: F1apPdu, ue_context: &UeContext) -> (r:
        Result<UeContextSetupRequest, MockError>)
        ensures
            match setup_request_of(pdu) {
                Some(request) => if request.gnb_du_ue_f1ap_id == Some(ue_context.ue_id) {
                    r == Ok::<UeContextSetupRequest, MockError>(request)
                } else {
                    r == Err::<UeContextSetupRequest, MockError>(MockError::BadUeId)
                },
                None => r == Err::<UeContextSetupRequest, MockError>(
                    MockError::UnexpectedF1apMessage,
                ),
            },
    {
        match pdu {
            F1apPdu::InitiatingMessage(InitiatingMessage::UeContextSetupRequest(request)) => {
                let matches_ue = match request.gnb_du_ue_f1ap_id {
                    Some(x) => x == ue_context.ue_id,
                    None => false,
                };
                if matches_ue {
                    Ok(request)
                } else {
                    Err(MockError::BadUeId)
                }
            },
            _ => Err(MockError::UnexpectedF1apMessage),
        }
    }

    /// The response that reports the bearer of `ue_context` with the DU's
    /// own end of its tunnel.
    pub fn build_ue_context_setup_response(
        &self,
        ue_context: &UeContext,
        cell_group_config: Vec<u8>,
    ) -> (r: Result<F1apPdu, MockError>)
        ensures
            match r {
                Ok(pdu) => {
                    &&& ue_context.gnb_cu_ue_f1ap_id is Some
                    &&& ue_context.drb is Some
                    &&& is_setup_response(
                        pdu,
                        ue_context.gnb_cu_ue_f1ap_id->0,
                        ue_context.ue_id,
                        cell_group_config@,
                        ue_context.drb->0.drb_id,
                        (self.local_address.octets@, ue_context.drb->0.local_teid),
                    )
                },
                Err(e) => if ue_context.gnb_cu_ue_f1ap_id is None {
                    e == MockError::CuF1apIdNotSet
                } else {
                    ue_context.drb is None && e == MockError::DrbNotSet
                },
            },
    {
        let gnb_cu_ue_f1ap_id = match ue_context.gnb_cu_ue_f1ap_id {
            Some(id) => id,
            None => {
                return Err(MockError::CuF1apIdNotSet);
            },
        };
        let drb = match &ue_context.drb {
            Some(drb) => drb,
            None => {
                return Err(MockError::DrbNotSet);
            },
        };
        let mut tunnels: Vec<GtpTunnel> = Vec::new();
        tunnels.push(
            GtpTunnel {
                transport_layer_address: self.local_address.duplicate(),
                gtp_teid: drb.local_teid,
            },
        );
        let mut drbs_setup_list: Vec<DrbsSetupItem> = Vec::new();
        drbs_setup_list.push(
            DrbsSetupItem { drb_id: drb.drb_id, dl_up_tnl_information_to_be_setup_list: tunnels },
        );
        Ok(
            F1apPdu::SuccessfulOutcome(
                SuccessfulOutcome::UeContextSetupResponse(
                    UeContextSetupResponse {
                        gnb_cu_ue_f1ap_id,
                        gnb_du_ue_f1ap_id: ue_context.ue_id,
                        cell_group_config,
                        drbs_setup_list: Some(drbs_setup_list),
                    },
                ),
            ),
        )
    }

    /// Answers the release command for the UE of `ue_context` with a release
    /// complete that echoes both identifiers.
    pub fn handle_ue_context_release(&self, ue_context: &UeContext, pdu: F1apPdu) -> (r: Result<
        F1apPdu,
        MockError,
    >)
        ensures
            match pdu {
                F1apPdu::InitiatingMessage(InitiatingMessage::UeContextReleaseCommand(c)) => if c.gnb_du_ue_f1ap_id
                    == ue_context.ue_id {
                    r == Ok::<F1apPdu, MockError>(
                        F1apPdu::SuccessfulOutcome(
                            SuccessfulOutcome::UeContextReleaseComplete(
                                (UeContextReleaseComplete {
                                    gnb_cu_ue_f1ap_id: c.gnb_cu_ue_f1ap_id,
                                    gnb_du_ue_f1ap_id: c.gnb_du_ue_f1ap_id,
                                }),
                            ),
                        ),
                    )
                } else {
                    r == Err::<F1apPdu, MockError>(MockError::BadUeId)
                },
                _ => r == Err::<F1apPdu, MockError>(MockError::UnexpectedF1apMessage),
            },
    {
        match pdu {
            F1apPdu::InitiatingMessage(InitiatingMessage::UeContextReleaseCommand(c)) => {
                if ue_context.ue_id != c.gnb_du_ue_f1ap_id {
                    return Err(MockError::BadUeId);
                }
                Ok(
                    F1apPdu::SuccessfulOutcome(
                        SuccessfulOutcome::UeContextReleaseComplete(
                            UeContextReleaseComplete {
                                gnb_cu_ue_f1ap_id: c.gnb_cu_ue_f1ap_id,
                                gnb_du_ue_f1ap_id: c.gnb_du_ue_f1ap_id,
                            },
                        ),
                    ),
                )
            },
            _ => Err(MockError::UnexpectedF1apMessage),
        }
    }

    /// The UE's answer to `security_mode_command`.
    pub fn send_security_mode_complete(&self, security_mode_command: &SecurityModeCommand) -> (m:
        UlDcchMessage)
        ensures
            m == UlDcchMessage::SecurityModeComplete(
                (SecurityModeComplete {
                    rrc_transaction_identifier: security_mode_command.rrc_transaction_identifier,
                }),
            ),
    {
        UlDcchMessage::SecurityModeComplete(
            SecurityModeComplete {
                rrc_transaction_identifier: security_mode_command.rrc_transaction_identifier,
            },
        )
    }

    /// The first NAS message that a decoded reconfiguration carries.
    pub fn receive_rrc_reconfiguration(&self, message: DlDcchMessage) -> (r: Result<
        Vec<u8>,
        MockError,
    >)
        requires
            nas_list_of(message) is Some ==> nas_list_of(message)->0@.len() >= 1,
        ensures
            match nas_list_of(message) {
                Some(l) => r is Ok && r->Ok_0@ == l@[0]@,
                None => r == Err::<Vec<u8>, MockError>(MockError::NoNasMessageList),
            },
    {
        match message {
            DlDcchMessage::RrcReconfiguration(c) => match c.dedicated_nas_message_list {
                Some(l) => Ok(copy_bytes(&l[0])),
                None => Err(MockError::NoNasMessageList),
            },
            _ => Err(MockError::NoNasMessageList),
        }
    }

    pub fn send_rrc_reconfiguration_complete(&self) -> (m: UlDcchMessage)
        ensures
            m == UlDcchMessage::RrcReconfigurationComplete(
                (RrcReconfigurationComplete { rrc_transaction_identifier: 0 }),
            ),
    {
        UlDcchMessage::RrcReconfigurationComplete(
            RrcReconfigurationComplete { rrc_transaction_identifier: 0 },
        )
    }

    /// Where to connect once the CU has announced `expected_addr_string` as
    /// a further endpoint.
    pub fn handle_cu_configuration_update(&self, expected_addr_string: &str) -> (c: ConnectRequest)
        ensures
            c.remote_address@ == socket_address_spec(expected_addr_string@, 38472),
            c.bind_address@ == "0.0.0.0"@,
            c.ppid == 62,
    {
        ConnectRequest {
            remote_address: socket_address(expected_addr_string, F1AP_BIND_PORT),
            bind_address: String::from_str("0.0.0.0"),
            ppid: F1AP_SCTP_PPID,
        }
    }

    /// The transaction of the CU's configuration update in `pdu`, with the
    /// association that it came on.
    pub fn receive_gnb_cu_configuration_update(
        &self,
        pdu: F1apPdu,
        expected_address: &TransportLayerAddress,
        assoc_id: u32,
    ) -> (r: Result<(u8, u32), MockError>)
        requires
            announces_endpoint(pdu, expected_address.octets@),
        ensures
            match pdu {
                F1apPdu::InitiatingMessage(InitiatingMessage::GnbCuConfigurationUpdate(u)) => r
                    == Ok::<(u8, u32), MockError>((u.transaction_id, assoc_id)),
                _ => r == Err::<(u8, u32), MockError>(MockError::UnexpectedF1apMessage),
            },
    {
        match pdu {
            F1apPdu::InitiatingMessage(InitiatingMessage::GnbCuConfigurationUpdate(u)) => Ok(
                (u.transaction_id, assoc_id),
            ),
            _ => Err(MockError::UnexpectedF1apMessage),
        }
    }

    /// The acknowledgement of the CU's configuration update that confirms
    /// the one endpoint it announced.
    pub fn send_gnb_cu_configuration_update_acknowledge(
        &self,
        transaction_id: u8,
        transport_layer_address: TransportLayerAddress,
    ) -> (pdu: F1apPdu)
        ensures
            match pdu {
                F1apPdu::SuccessfulOutcome(
                    SuccessfulOutcome::GnbCuConfigurationUpdateAcknowledge(a),
                ) => {
                    &&& a.transaction_id == transaction_id
                    &&& a.gnb_cu_tnl_association_setup_list is Some
                    &&& a.gnb_cu_tnl_association_setup_list->0@ == seq![
                        CpTransportLayerAddress::EndpointIpAddress(transport_layer_address),
                    ]
                },
                _ => false,
            },
    {
        let mut setup_list: Vec<CpTransportLayerAddress> = Vec::new();
        setup_list.push(CpTransportLayerAddress::EndpointIpAddress(transport_layer_address));
        assert(setup_list@ =~= seq![
            CpTransportLayerAddress::EndpointIpAddress(transport_layer_address),
        ]);
        F1apPdu::SuccessfulOutcome(
            SuccessfulOutcome::GnbCuConfigurationUpdateAcknowledge(
                GnbCuConfigurationUpdateAcknowledge {
                    transaction_id,
                    gnb_cu_tnl_association_setup_list: Some(setup_list),
                },
            ),
        )
    }

    pub fn send_gnb_du_configuration_update(&self) -> (pdu: F1apPdu)
        ensures
            pdu == F1apPdu::InitiatingMessage(
                InitiatingMessage::GnbDuConfigurationUpdate(
                    (GnbDuConfigurationUpdate { transaction_id: 1 }),
                ),
            ),
    {
        F1apPdu::InitiatingMessage(
            InitiatingMessage::GnbDuConfigurationUpdate(
                GnbDuConfigurationUpdate { transaction_id: 1 },
            ),
        )
    }

    pub fn receive_gnb_du_configuration_update_acknowledge(&self, pdu: F1apPdu) -> (r: Result<
        (),
        MockError,
    >)
        ensures
            r is Ok <==> pdu matches F1apPdu::SuccessfulOutcome(
                SuccessfulOutcome::GnbDuConfigurationUpdateAcknowledge(_),
            ),
            r is Err ==> r == Err::<(), MockError>(MockError::UnexpectedF1apMessage),
    {
        match pdu {
            F1apPdu::SuccessfulOutcome(
                SuccessfulOutcome::GnbDuConfigurationUpdateAcknowledge(_),
            ) => Ok(()),
            _ => Err(MockError::UnexpectedF1apMessage),
        }
    }

    /// The remote end of the tunnel on which the UE's uplink data goes.
    pub fn send_data_packet<'a>(&self, ue_context: &'a UeContext) -> (r: Result<
        &'a GtpTunnel,
        MockError,
    >)
        ensures
            match ue_context.drb {
                None => r == Err::<&GtpTunnel, MockError>(MockError::NoPduSession),
                Some(drb) => if drb.remote_tunnel_info.transport_layer_address.wf() {
                    r == Ok::<&GtpTunnel, MockError>(&drb.remote_tunnel_info)
                } else {
                    r == Err::<&GtpTunnel, MockError>(MockError::BadTransportLayerAddress)
                },
            },
    {
        match &ue_context.drb {
            None => Err(MockError::NoPduSession),
            Some(drb) => {
                let n = drb.remote_tunnel_info.transport_layer_address.octets.len();
                if n == 4 || n == 16 {
                    Ok(&drb.remote_tunnel_info)
                } else {
                    Err(MockError::BadTransportLayerAddress)
                }
            },
        }
    }

    /// The local tunnel endpoint on which the UE's downlink data arrives.
    pub fn recv_data_packet(&self, ue_context: &UeContext) -> (r: Result<[u8; 4], MockError>)
        ensures
            match ue_context.drb {
                None => r == Err::<[u8; 4], MockError>(MockError::NoPduSession),
                Some(drb) => r == Ok::<[u8; 4], MockError>(drb.local_teid),
            },
    {
        match &ue_context.drb {
            None => Err(MockError::NoPduSession),
            Some(drb) => Ok(drb.local_teid),
        }
    }
}

/// The downlink RRC transfer that `pdu` carries.
pub open spec fn dl_rrc_of(pdu: F1apPdu) -> Option<DlRrcMessageTransfer> {
    match pdu {
        F1apPdu::InitiatingMessage(InitiatingMessage::DlRrcMessageTransfer(t)) => Some(t),
        _ => None,
    }
}

/// The list of NAS messages that a reconfiguration carries.
pub open spec fn nas_list_of(message: DlDcchMessage) -> Option<Vec<Vec<u8>>> {
    match message {
        DlDcchMessage::RrcReconfiguration(c) => c.dedicated_nas_message_list,
        _ => None,
    }
}

/// The NAS message of a downlink information transfer; any other message,
/// or a transfer without one, is unexpected.
pub open spec fn nas_of_dl_transfer(message: DlDcchMessage) -> Result<Vec<u8>, MockError> {
    match message {
        DlDcchMessage::DlInformationTransfer(t) => match t.dedicated_nas_message {
            Some(x) => Ok(x),
            None => Err(MockError::UnexpectedRrcMessage),
        },
        _ => Err(MockError::UnexpectedRrcMessage),
    }
}

/// If `pdu` is a CU configuration update, the first endpoint that it adds
/// is the bare IP address `octets`.
pub open spec fn announces_endpoint(pdu: F1apPdu, octets: Seq<u8>) -> bool {
    match pdu {
        F1apPdu::InitiatingMessage(InitiatingMessage::GnbCuConfigurationUpdate(u)) => match u.gnb_cu_tnl_association_to_add_list {
            Some(l) => l@.len() >= 1 && match l@[0].tnl_association_transport_layer_address {
                CpTransportLayerAddress::EndpointIpAddress(a) => a.octets@ == octets,
                CpTransportLayerAddress::EndpointIpAddressAndPort(_, _) => false,
            },
            None => false,
        },
        _ => true,
    }
}

/// Whether `pdu` may be handed to `MockDu::accept_ue_context_setup`.
pub fn check_setup_lists_nonempty(pdu: &F1apPdu) -> (b: bool)
    ensures
        b == setup_lists_nonempty(*pdu),
{
    match pdu {
        F1apPdu::InitiatingMessage(InitiatingMessage::UeContextSetupRequest(r)) => match &r.drbs_to_be_setup_list {
            Some(l) => l.len() >= 1 && l[0].ul_up_tnl_information_to_be_setup_list.len() >= 1,
            None => true,
        },
        _ => true,
    }
}

/// Whether `pdu` may be handed to `MockDu::receive_gnb_cu_configuration_update`.
pub fn check_announces_endpoint(pdu: &F1apPdu, expected_address: &TransportLayerAddress) -> (b:
    bool)
    ensures
        b == announces_endpoint(*pdu, expected_address.octets@),
{
    match pdu {
        F1apPdu::InitiatingMessage(InitiatingMessage::GnbCuConfigurationUpdate(u)) => match &u.gnb_cu_tnl_association_to_add_list {
            Some(l) => {
                if l.len() == 0 {
                    return false;
                }
                match &l[0].tnl_association_transport_layer_address {
                    CpTransportLayerAddress::EndpointIpAddress(a) => same_bytes(
                        &a.octets,
                        &expected_address.octets,
                    ),
                    CpTransportLayerAddress::EndpointIpAddressAndPort(_, _) => false,
                }
            },
            None => false,
        },
        _ => true,
    }
}

/// The NAS message of a decoded downlink information transfer.
pub fn nas_from_dl_transfer_rrc_container(message: DlDcchMessage) -> (r: Result<
    Vec<u8>,
    MockError,
>)
    ensures
        r == nas_of_dl_transfer(message),
{
    match message {
        DlDcchMessage::DlInformationTransfer(t) => match t.dedicated_nas_message {
            Some(x) => Ok(x),
            None => Err(MockError::UnexpectedRrcMessage),
        },
        _ => Err(MockError::UnexpectedRrcMessage),
    }
}

} // verus!
