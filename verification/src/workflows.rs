//! The signalling workflows, turn by turn: what a workflow sends next, and
//! what it makes of the answer. The caller performs the sends and hands the
//! answers back.

use crate::config::Config;
use crate::datastore::{deleted, expiry, MemoryStore, UeState};
use crate::f1ap::{
    CpTransportLayerAddress, DlRrcMessageTransfer, F1SetupRequest, F1SetupResponse,
    GnbCuConfigurationUpdate, GnbCuConfigurationUpdateAcknowledge, GnbCuTnlAssociationToAddItem,
    InitialUlRrcMessageTransfer, TnlAssociationUsage, TransportLayerAddress,
    UeContextReleaseCommand, UeContextReleaseComplete,
};
use crate::rrc_transaction::RrcTransaction;
use crate::worker::Worker;
use crate::ngap::{
    BroadcastPlmnItem, GlobalRanNodeId, NgSetupRequest, NgSetupResponse, PagingDrx, Snssai,
    SupportedTaItem,
};
use crate::stack::{RequestError, Stack};
use vstd::prelude::*;

verus! {

/// Why a workflow was abandoned.
#[derive(Debug, Clone, Copy, PartialEq, Eq, Structural)]
pub enum WorkflowError {
    /// The AMF could not be reached; the caller may try again.
    ConnectFailed,
    /// The association is down or was reset.
    Transport,
    /// A PDU could not be encoded.
    Codec,
    /// No response came in time.
    Timeout,
    /// The peer answered with a failure.
    Protocol,
    /// An invariant of the worker was violated.
    Internal,
}

/// What a workflow does once it has succeeded.
#[derive(Debug, Clone, Copy, PartialEq, Eq, Structural)]
pub enum FollowUp {
    /// Tell the coordinator of the new peer, from a task of its own that
    /// the workflow does not wait for.
    SpawnAssociateConnection,
    /// Announce the worker's F1 endpoint to the DU.
    RunGnbCuConfigurationUpdate,
}

/// The kind of error that a failed request is to a workflow.
pub open spec fn error_kind<F>(e: RequestError<F>) -> WorkflowError {
    match e {
        RequestError::NoAssociation => WorkflowError::Transport,
        RequestError::EncodeFailed => WorkflowError::Codec,
        RequestError::Timeout => WorkflowError::Timeout,
        RequestError::UnsuccessfulOutcome(_) => WorkflowError::Protocol,
        RequestError::PeerReset => WorkflowError::Transport,
        RequestError::Internal => WorkflowError::Internal,
    }
}

pub fn request_error_kind<F>(e: &RequestError<F>) -> (k: WorkflowError)
    ensures
        k == error_kind(*e),
{
    match e {
        RequestError::NoAssociation => WorkflowError::Transport,
        RequestError::EncodeFailed => WorkflowError::Codec,
        RequestError::Timeout => WorkflowError::Timeout,
        RequestError::UnsuccessfulOutcome(_) => WorkflowError::Protocol,
        RequestError::PeerReset => WorkflowError::Transport,
        RequestError::Internal => WorkflowError::Internal,
    }
}

/// The text that reports a failure to connect to the AMF at `amf_ip_address`.
pub fn connect_failure_message(amf_ip_address: &str) -> (m: String)
    ensures
        m@ == "Failed to connect to AMF "@ + amf_ip_address@ + " (will retry)"@,
{
    let mut m = String::from_str("Failed to connect to AMF ");
    m.append(amf_ip_address);
    m.append(" (will retry)");
    m
}

/// `r` is the NG setup request of a worker with the given identity, name
/// and PLMN: one tracking area, code 0-0-1, broadcasting that PLMN with
/// three slices of type 1 (no differentiator, 0-0-0 and 0-0-1), and a default paging cycle of 128 frames.
pub open spec fn is_ng_setup_request(
    r: NgSetupRequest,
    global_ran_node_id: GlobalRanNodeId,
    name: Option<String>,
    plmn: [u8; 3],
) -> bool {
    &&& r.global_ran_node_id == global_ran_node_id
    &&& match (r.ran_node_name, name) {
        (Some(a), Some(b)) => a@ == b@,
        (None, None) => true,
        _ => false,
    }
    &&& r.default_paging_drx == PagingDrx::V128
    &&& r.supported_ta_list@.len() == 1
    &&& r.supported_ta_list@[0].tac@ == seq![0u8, 0u8, 1u8]
    &&& r.supported_ta_list@[0].broadcast_plmn_list@.len() == 1
    &&& r.supported_ta_list@[0].broadcast_plmn_list@[0].plmn_identity == plmn
    &&& r.supported_ta_list@[0].broadcast_plmn_list@[0].tai_slice_support_list@.len() == 3
    &&& forall|i: int|
        0 <= i < 3 ==> {
            let s = #[trigger] r.supported_ta_list@[0].broadcast_plmn_list@[0].tai_slice_support_list@[i];
            &&& s.sst == 1
            &&& match s.sd {
                Some(sd) => i >= 1 && sd@ == seq![0u8, 0u8, (i - 1) as u8],
                None => i == 0,
            }
        }
}

/// `ue` is the state of a UE that is known by its two F1 identifiers and by
/// nothing else yet.
pub open spec fn is_initial_state(ue: UeState, key: u32, gnb_du_ue_f1ap_id: u32) -> bool {
    &&& ue.key == key
    &&& ue.gnb_du_ue_f1ap_id == gnb_du_ue_f1ap_id
    &&& ue.amf_ue_ngap_id is None
    &&& ue.security is None
    &&& ue.drbs@ == Seq::<crate::datastore::DrbState>::empty()
}

/// `u` announces `octets` as one further F1 endpoint of the CU, for UE and
/// non-UE signalling alike, in the transaction `transaction_id`.
pub open spec fn is_configuration_update(
    u: GnbCuConfigurationUpdate,
    octets: Seq<u8>,
    transaction_id: u8,
) -> bool {
    &&& u.transaction_id == transaction_id
    &&& match u.gnb_cu_tnl_association_to_add_list {
        Some(l) => {
            &&& l@.len() == 1
            &&& l@[0].tnl_association_usage == TnlAssociationUsage::Both
            &&& match l@[0].tnl_association_transport_layer_address {
                CpTransportLayerAddress::EndpointIpAddress(a) => a.octets@ == octets,
                _ => false,
            }
        },
        None => false,
    }
}

/// A configuration update that is sent in the transaction that the F1 stack
/// gives its request carries an identifier that no request outstanding on
/// that stack has.
pub proof fn lemma_configuration_update_id_distinct<R>(
    f1ap: Stack<R>,
    id: u32,
    u: GnbCuConfigurationUpdate,
    octets: Seq<u8>,
    outstanding: u32,
)
    requires
        f1ap.is_next_free(id as int),
        id <= u8::MAX,
        is_configuration_update(u, octets, id as u8),
        f1ap@.contains_key(outstanding),
    ensures
        u.transaction_id as u32 != outstanding,
{
}

/// What `format!("{:?}", s)` writes for the string `s`: the text between
/// double quotes, with the characters escaped that `Debug` escapes.
pub uninterp spec fn debug_text(s: Seq<char>) -> Seq<char>;

/// The line that reports a completed NG setup, given the AMF's name as
/// `Debug` writes it, if the AMF gave one.
pub open spec fn ng_setup_log_line_spec(quoted_name: Option<Seq<char>>) -> Seq<char> {
    "NGAP interface initialized with "@ + (match quoted_name {
        Some(q) => "Some(RanNodeName("@ + q + "))"@,
        None => "None"@,
    })
}

/// Writes `s` with `format!("{:?}", s)`, that is, by `Debug` for `str`.
/// The result is only named.
#[verifier::external_body]
fn debug_quoted(s: &str) -> (quoted: String)
    ensures
        quoted@ == debug_text(s@),
{
    format!("{:?}", s)
}

/// The line that reports a completed NG setup, given the AMF's name as
/// `Debug` writes it, if the AMF gave one.
pub fn ng_setup_log_line_of(quoted_name: Option<&str>) -> (line: String)
    ensures
        line@ == ng_setup_log_line_spec(
            match quoted_name {
                Some(q) => Some(q@),
                None => None,
            },
        ),
{
    let mut line = String::from_str("NGAP interface initialized with ");
    match quoted_name {
        Some(q) => {
            line.append("Some(RanNodeName(");
            line.append(q);
            line.append("))");
            proof {
                assert(line@ =~= "NGAP interface initialized with "@ + ("Some(RanNodeName("@ + q@
                    + "))"@));
            }
        },
        None => {
            line.append("None");
        },
    }
    line
}

/// The line that reports a completed NG setup with an AMF of the name
/// `amf_name`.
pub fn ng_setup_log_line(amf_name: &Option<String>) -> (line: String)
    ensures
        line@ == ng_setup_log_line_spec(
            match *amf_name {
                Some(n) => Some(debug_text(n@)),
                None => None,
            },
        ),
{
    match amf_name {
        Some(n) => {
            let quoted = debug_quoted(n.as_str());
            ng_setup_log_line_of(Some(quoted.as_str()))
        },
        None => ng_setup_log_line_of(None),
    }
}

/// The workflows of a worker with the configuration `config`.
pub struct Workflow<'a> {
    pub config: &'a Config,
}

impl<'a> Workflow<'a> {
    pub fn new(config: &'a Config) -> (w: Self)
        ensures
            w.config == config,
    {
        Workflow { config }
    }

    /// NG setup, once the AMF has or has not been reached: the request to
    /// send, or the failure to report.
    pub fn ng_setup(&self, connected: bool, global_ran_node_id: GlobalRanNodeId) -> (r: Result<
        NgSetupRequest,
        WorkflowError,
    >)
        ensures
            match r {
                Ok(request) => connected && is_ng_setup_request(
                    request,
                    global_ran_node_id,
                    self.config.name,
                    self.config.plmn,
                ),
                Err(e) => !connected && e == WorkflowError::ConnectFailed,
            },
    {
        if !connected {
            return Err(WorkflowError::ConnectFailed);
        }
        let ran_node_name = match &self.config.name {
            Some(n) => Some(n.clone()),
            None => None,
        };
        let sd0: [u8; 3] = [0, 0, 0];
        let sd1: [u8; 3] = [0, 0, 1];
        let tac: [u8; 3] = [0, 0, 1];
        let mut tai_slice_support_list: Vec<Snssai> = Vec::new();
        tai_slice_support_list.push(Snssai { sst: 1, sd: None });
        tai_slice_support_list.push(Snssai { sst: 1, sd: Some(sd0) });
        tai_slice_support_list.push(Snssai { sst: 1, sd: Some(sd1) });
        let mut broadcast_plmn_list: Vec<BroadcastPlmnItem> = Vec::new();
        broadcast_plmn_list.push(
            BroadcastPlmnItem { plmn_identity: self.config.plmn, tai_slice_support_list },
        );
        let mut supported_ta_list: Vec<SupportedTaItem> = Vec::new();
        supported_ta_list.push(SupportedTaItem { tac, broadcast_plmn_list });
        proof {
            assert(tac@ =~= seq![0u8, 0u8, 1u8]);
            assert(sd0@ =~= seq![0u8, 0u8, 0u8]);
            assert(sd1@ =~= seq![0u8, 0u8, 1u8]);
        }
        Ok(
            NgSetupRequest {
                global_ran_node_id,
                ran_node_name,
                supported_ta_list,
                default_paging_drx: PagingDrx::V128,
            },
        )
    }

    /// NG setup, once the request has been answered or has failed: the
    /// AMF's name, or the kind of the failure.
    pub fn ng_setup_response<F>(&self, answer: Result<NgSetupResponse, RequestError<F>>) -> (r:
        Result<Option<String>, WorkflowError>)
        ensures
            match answer {
                Ok(response) => r == Ok::<Option<String>, WorkflowError>(response.amf_name),
                Err(e) => r == Err::<Option<String>, WorkflowError>(error_kind(e)),
            },
    {
        match answer {
            Ok(response) => Ok(response.amf_name),
            Err(e) => Err(request_error_kind(&e)),
        }
    }

    /// F1 setup, on a DU's request: the response, in the DU's transaction,
    /// and the workflow to run once it is sent.
    pub fn f1_setup(&self, request: &F1SetupRequest) -> (r: (F1SetupResponse, FollowUp))
        ensures
            r.0 == (F1SetupResponse { transaction_id: request.transaction_id }),
            r.1 == FollowUp::RunGnbCuConfigurationUpdate,
    {
        (
            F1SetupResponse { transaction_id: request.transaction_id },
            FollowUp::RunGnbCuConfigurationUpdate,
        )
    }

    /// Initial access, on a UE's first uplink message: the UE gets the key
    /// `ue_key`, under which its initial state is stored to live `ttl_secs`
    /// seconds from `now`; an RRC transaction is started for its answer; and
    /// the encoded setup `rrc_setup` goes to it on signalling bearer 0. The
    /// flag says whether a transaction was pending for that key and has been
    /// replaced.
    pub fn initial_access<R, H>(
        &self,
        worker: &mut Worker<R, H>,
        transfer: &InitialUlRrcMessageTransfer,
        ue_key: u32,
        rrc_setup: Vec<u8>,
        ttl_secs: usize,
        now: u64,
    ) -> (r: (DlRrcMessageTransfer, RrcTransaction, bool))
        requires
            old(worker).wf(),
        ensures
            final(worker).wf(),
            r.0 == (DlRrcMessageTransfer {
                gnb_cu_ue_f1ap_id: ue_key,
                gnb_du_ue_f1ap_id: transfer.gnb_du_ue_f1ap_id,
                srb_id: 0,
                rrc_container: rrc_setup,
            }),
            r.1.ue_key == ue_key,
            r.2 == old(worker).rrc_transactions@.contains_key(ue_key),
            final(worker).ue_store@.contains_key(ue_key),
            final(worker).ue_store@ == old(worker).ue_store@.insert(
                ue_key,
                final(worker).ue_store@[ue_key],
            ),
            final(worker).ue_store@[ue_key].expires_at == expiry(now, ttl_secs),
            is_initial_state(
                final(worker).ue_store@[ue_key].value,
                ue_key,
                transfer.gnb_du_ue_f1ap_id,
            ),
            final(worker).rrc_transactions@.contains_key(ue_key),
            final(worker).rrc_transactions@ == old(worker).rrc_transactions@.insert(
                ue_key,
                final(worker).rrc_transactions@[ue_key],
            ),
            final(worker).worker_id == old(worker).worker_id,
            final(worker).config == old(worker).config,
            final(worker).ngap == old(worker).ngap,
            final(worker).f1ap == old(worker).f1ap,
            final(worker).e1ap == old(worker).e1ap,
            final(worker).shutdown_handles == old(worker).shutdown_handles,
    {
        let ue = UeState::new(ue_key, transfer.gnb_du_ue_f1ap_id);
        let message = worker.send_rrc_to_ue(&ue, 0, rrc_setup);
        let (transaction, replaced) = worker.new_rrc_transaction(&ue);
        let _ = worker.store(ue_key, ue, ttl_secs, now);
        (message, transaction, replaced)
    }

    /// UE release: the command that has the DU let go of `ue`.
    pub fn ue_release(&self, ue: &UeState) -> (c: UeContextReleaseCommand)
        ensures
            c == (UeContextReleaseCommand {
                gnb_cu_ue_f1ap_id: ue.key,
                gnb_du_ue_f1ap_id: ue.gnb_du_ue_f1ap_id,
            }),
    {
        UeContextReleaseCommand {
            gnb_cu_ue_f1ap_id: ue.key,
            gnb_du_ue_f1ap_id: ue.gnb_du_ue_f1ap_id,
        }
    }

    /// UE release, once the DU has answered or the request has failed: on
    /// completion the state of the UE `ue_key` is deleted from `store`; on a
    /// failure the store is left as it is.
    pub fn ue_release_response<F>(
        &self,
        store: &mut MemoryStore<UeState>,
        ue_key: u32,
        answer: Result<UeContextReleaseComplete, RequestError<F>>,
    ) -> (r: Result<(), WorkflowError>)
        requires
            old(store).wf(),
        ensures
            final(store).wf(),
            match answer {
                Ok(_) => r is Ok && final(store)@ == deleted(old(store)@, ue_key),
                Err(e) => r == Err::<(), WorkflowError>(error_kind(e)) && final(store)@ == old(
                    store,
                )@,
            },
    {
        match answer {
            Ok(_) => {
                let _ = store.delete(ue_key);
                Ok(())
            },
            Err(e) => Err(request_error_kind(&e)),
        }
    }

    /// The configuration update that announces the worker's F1 endpoint, in
    /// the transaction that the F1 stack gave the request.
    pub fn gnb_cu_configuration_update(
        &self,
        f1ap_endpoint: TransportLayerAddress,
        transaction_id: u8,
    ) -> (u: GnbCuConfigurationUpdate)
        ensures
            is_configuration_update(u, f1ap_endpoint.octets@, transaction_id),
    {
        let mut to_add: Vec<GnbCuTnlAssociationToAddItem> = Vec::new();
        to_add.push(
            GnbCuTnlAssociationToAddItem {
                tnl_association_transport_layer_address: CpTransportLayerAddress::EndpointIpAddress(
                    f1ap_endpoint,
                ),
                tnl_association_usage: TnlAssociationUsage::Both,
            },
        );
        GnbCuConfigurationUpdate { transaction_id, gnb_cu_tnl_association_to_add_list: Some(to_add) }
    }

    /// The configuration update, once the DU has answered or the request
    /// has failed: on an acknowledgement the coordinator is to be told, in a
    /// task of its own; on a failure the workflow ends with its kind.
    pub fn gnb_cu_configuration_update_response<F>(
        &self,
        answer: Result<GnbCuConfigurationUpdateAcknowledge, RequestError<F>>,
    ) -> (r: Result<FollowUp, WorkflowError>)
        ensures
            match answer {
                Ok(_) => r == Ok::<FollowUp, WorkflowError>(FollowUp::SpawnAssociateConnection),
                Err(e) => r == Err::<FollowUp, WorkflowError>(error_kind(e)),
            },
    {
        match answer {
            Ok(_) => Ok(FollowUp::SpawnAssociateConnection),
            Err(e) => Err(request_error_kind(&e)),
        }
    }
}

} // verus!
