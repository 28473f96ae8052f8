//! The RRC messages that cross the F1 interface inside containers, held as
//! plain values.

use vstd::prelude::*;

verus! {

#[derive(Debug, Clone, Copy, PartialEq, Eq)]
pub enum EstablishmentCause {
    Emergency,
    HighPriorityAccess,
    MtAccess,
    MoSignalling,
    MoData,
    MoVoiceCall,
    MoVideoCall,
    MoSms,
    MpsPriorityAccess,
    McsPriorityAccess,
}

/// The first message of a UE that asks for a connection.
#[derive(Debug, Clone, PartialEq, Eq)]
pub struct RrcSetupRequest {
    /// The low 39 bits of the UE's temporary identity.
    pub ng_5g_s_tmsi_part1: u64,
    pub establishment_cause: EstablishmentCause,
}

#[derive(Debug, Clone, PartialEq, Eq)]
pub enum UlCcchMessage {
    RrcSetupRequest(RrcSetupRequest),
}

#[derive(Debug, Clone, PartialEq, Eq)]
pub struct RrcSetup {
    pub rrc_transaction_identifier: u8,
}

#[derive(Debug, Clone, PartialEq, Eq)]
pub enum DlCcchMessage {
    RrcReject,
    RrcSetup(RrcSetup),
}

#[derive(Debug, Clone, PartialEq, Eq)]
pub struct RrcSetupComplete {
    pub rrc_transaction_identifier: u8,
    pub selected_plmn_identity: u8,
    pub dedicated_nas_message: Vec<u8>,
}

#[derive(Debug, Clone, PartialEq, Eq)]
pub struct UlInformationTransfer {
    pub dedicated_nas_message: Option<Vec<u8>>,
}

#[derive(Debug, Clone, PartialEq, Eq)]
pub struct SecurityModeComplete {
    pub rrc_transaction_identifier: u8,
}

#[derive(Debug, Clone, PartialEq, Eq)]
pub struct RrcReconfigurationComplete {
    pub rrc_transaction_identifier: u8,
}

#[derive(Debug, Clone, PartialEq, Eq)]
pub enum UlDcchMessage {
    RrcSetupComplete(RrcSetupComplete),
    UlInformationTransfer(UlInformationTransfer),
    SecurityModeComplete(SecurityModeComplete),
    RrcReconfigurationComplete(RrcReconfigurationComplete),
}

#[derive(Debug, Clone, PartialEq, Eq)]
pub struct SecurityModeCommand {
    pub rrc_transaction_identifier: u8,
    pub ciphering_algorithm: u8,
    pub integrity_prot_algorithm: Option<u8>,
}

#[derive(Debug, Clone, PartialEq, Eq)]
pub struct DlInformationTransfer {
    pub rrc_transaction_identifier: u8,
    pub dedicated_nas_message: Option<Vec<u8>>,
}

#[derive(Debug, Clone, PartialEq, Eq)]
pub struct RrcReconfiguration {
    pub rrc_transaction_identifier: u8,
    /// Never empty on the wire where it is present.
    pub dedicated_nas_message_list: Option<Vec<Vec<u8>>>,
}

#[derive(Debug, Clone, PartialEq, Eq)]
pub enum DlDcchMessage {
    RrcReconfiguration(RrcReconfiguration),
    SecurityModeCommand(SecurityModeCommand),
    DlInformationTransfer(DlInformationTransfer),
    RrcRelease,
}

/// The cell group configuration that a DU reports to the CU.
#[derive(Debug, Clone, PartialEq, Eq)]
pub struct CellGroupConfig {
    pub cell_group_id: u8,
}

} // verus!
