//! The worker: its three stacks, its pending RRC transactions, its UE
//! store and its shutdown handles, and what it decides at startup, at each
//! refresh and at shutdown.

use crate::config::{Config, ConnectionStyle};
use crate::datastore::{lookup, deleted, stored, Entry, MemoryStore, StoreError, UeState};
use crate::f1ap::DlRrcMessageTransfer;
use crate::net::{
    socket_address, socket_address_spec, ConnectRequest, ListenRequest, E1AP_BIND_PORT,
    E1AP_SCTP_PPID, F1AP_BIND_PORT, F1AP_SCTP_PPID, NGAP_BIND_PORT, NGAP_SCTP_PPID,
};
use crate::rrc::UlDcchMessage;
use crate::rrc_transaction::{PendingRrcTransactions, RrcTransaction};
use crate::stack::Stack;
use async_channel::Sender;
use uuid::Uuid;
use vstd::prelude::*;

verus! {

/// `uuid::Uuid`, the worker's identity. The worker carries it and never
/// looks inside.
#[verifier::external_type_specification]
#[verifier::external_body]
pub struct ExUuid(Uuid);

/// Seconds between two refreshes of the coordinator.
pub const REFRESH_INTERVAL_SECS: u64 = 10;

/// The number of transaction identifiers of each of the three protocols.
pub const TRANSACTION_ID_SPACE: u32 = 256;

/// Where the coordinator reaches the worker.
#[derive(Debug, Clone, PartialEq, Eq)]
pub struct WorkerInfo {
    pub connection_api_url: String,
    pub f1_address: String,
    pub e1_address: String,
}

/// Which of the worker's interfaces have a peer.
#[derive(Debug, Clone, Copy, PartialEq, Eq, Structural)]
pub struct ConnectionState {
    pub ng_up: bool,
    pub f1_up: bool,
    pub e1_up: bool,
}

/// The liveness record that the worker sends to the coordinator.
#[derive(Debug, PartialEq, Eq)]
pub struct RefreshWorker {
    pub worker_id: Uuid,
    pub worker_info: WorkerInfo,
    pub connection_state: ConnectionState,
}

/// One server that the worker starts.
#[derive(Debug, Clone, PartialEq, Eq)]
pub enum StartupStep {
    ListenF1ap(ListenRequest),
    ListenE1ap(ListenRequest),
    /// Serve the connection API at this address.
    ServeConnectionApi(String),
}

/// One thing that the worker shuts down.
#[derive(Debug, PartialEq, Eq)]
pub enum ShutdownStep<H> {
    /// A server, by its handle.
    Server(H),
    /// The NG stack.
    NgapStack,
}

/// The shutdown steps for the servers that were started in the order of
/// `handles`: the servers from the last started to the first, then the NG
/// stack.
pub open spec fn shutdown_order<H>(handles: Seq<H>) -> Seq<ShutdownStep<H>> {
    Seq::new(
        handles.len() + 1,
        |i: int|
            if i < handles.len() {
                ShutdownStep::Server(handles[handles.len() - 1 - i])
            } else {
                ShutdownStep::NgapStack
            },
    )
}

/// How the worker is brought up.
#[derive(Debug, Clone, PartialEq, Eq)]
pub enum Launch {
    /// With a coordinator of its own in the same process, which is shut
    /// down after the worker. The servers start inside the worker's task.
    Autonomous { fast_start: bool, amf_address: String, worker_refresh_interval_secs: u16 },
    /// With a client of the coordinator at this base path. The servers start
    /// before the worker's task, so that a failure reaches the caller.
    Coordinated { coordinator_base_path: String },
}

/// How a wait between two refreshes ended.
#[derive(Debug, Clone, Copy, PartialEq, Eq, Structural)]
pub enum WaitOutcome {
    IntervalElapsed,
    Stopped,
}

/// What the refresh task does next.
#[derive(Debug, Clone, Copy, PartialEq, Eq, Structural)]
pub enum RefreshAction {
    /// Send a refresh; then wait this long, or until the worker is stopped.
    RefreshThenWait { secs: u64 },
    Exit,
}

/// How `config` has the worker brought up.
pub fn spawn(config: &Config) -> (l: Launch)
    ensures
        match config.connection_style {
            ConnectionStyle::Autonomous(c) => match l {
                Launch::Autonomous { fast_start, amf_address, worker_refresh_interval_secs } => {
                    &&& fast_start == c.fast_start
                    &&& amf_address@ == c.amf_address@
                    &&& worker_refresh_interval_secs == c.worker_refresh_interval_secs
                },
                _ => false,
            },
            ConnectionStyle::Coordinated(c) => match l {
                Launch::Coordinated { coordinator_base_path } => coordinator_base_path@
                    == c.coordinator_base_path@,
                _ => false,
            },
        },
{
    match &config.connection_style {
        ConnectionStyle::Autonomous(c) => Launch::Autonomous {
            fast_start: c.fast_start,
            amf_address: c.amf_address.clone(),
            worker_refresh_interval_secs: c.worker_refresh_interval_secs,
        },
        ConnectionStyle::Coordinated(c) => Launch::Coordinated {
            coordinator_base_path: c.coordinator_base_path.clone(),
        },
    }
}

/// The next action of the refresh task: at its start (`None`) and after
/// every wait that ran its full length it refreshes and then waits one
/// interval; after a wait that the stop cut short it exits, and only then.
pub open spec fn next_refresh_action(waited: Option<WaitOutcome>) -> RefreshAction {
    if waited == Some(WaitOutcome::Stopped) {
        RefreshAction::Exit
    } else {
        RefreshAction::RefreshThenWait { secs: REFRESH_INTERVAL_SECS }
    }
}

/// What the refresh task does next, given how its last wait ended (`None`
/// where it has not waited yet).
pub fn send_periodic_refreshes_to_coordinator(waited: Option<WaitOutcome>) -> (a: RefreshAction)
    ensures
        a == next_refresh_action(waited),
{
    match waited {
        Some(WaitOutcome::Stopped) => RefreshAction::Exit,
        _ => RefreshAction::RefreshThenWait { secs: REFRESH_INTERVAL_SECS },
    }
}

/// A task that is stopped while it waits exits within one interval of the
/// stop. The wait that `previous` led to began at `wait_began`; the stop
/// fires at `stopped_at`, during that wait; the wait ends at `woke_at`, no
/// later than it was asked to last, and is then found to have been stopped.
/// All times are in seconds.
pub proof fn lemma_refresh_exits_within_one_interval(
    previous: Option<WaitOutcome>,
    wait_began: nat,
    stopped_at: nat,
    woke_at: nat,
)
    requires
        next_refresh_action(previous) is RefreshThenWait,
        wait_began <= stopped_at <= woke_at,
        woke_at <= wait_began + next_refresh_action(previous)->secs,
    ensures
        next_refresh_action(Some(WaitOutcome::Stopped)) == RefreshAction::Exit,
        woke_at - stopped_at <= REFRESH_INTERVAL_SECS,
{
}

/// A worker. `R` is the slot on which a request waits for its response and
/// `H` the handle by which a server is shut down.
pub struct Worker<R, H> {
    pub worker_id: Uuid,
    pub config: Config,
    pub ngap: Stack<R>,
    pub f1ap: Stack<R>,
    pub e1ap: Stack<R>,
    pub ue_store: MemoryStore<UeState>,
    pub rrc_transactions: PendingRrcTransactions<Sender<UlDcchMessage>>,
    pub shutdown_handles: Vec<H>,
}

impl<R, H> Worker<R, H> {
    pub open spec fn wf(&self) -> bool {
        &&& self.ngap.wf()
        &&& self.f1ap.wf()
        &&& self.e1ap.wf()
        &&& self.ue_store.wf()
        &&& self.rrc_transactions.wf()
    }

    /// Which interfaces have a peer.
    pub open spec fn connection_state(&self) -> ConnectionState {
        ConnectionState {
            ng_up: self.ngap.peers().len() > 0,
            f1_up: self.f1ap.peers().len() > 0,
            e1_up: self.e1ap.peers().len() > 0,
        }
    }

    /// A worker without peers, UEs, transactions or servers.
    pub fn new(config: Config, worker_id: Uuid) -> (w: Self)
        ensures
            w.wf(),
            w.worker_id == worker_id,
            w.config == config,
            w.ngap@ == Map::<u32, R>::empty() && w.ngap.peers().len() == 0,
            w.f1ap@ == Map::<u32, R>::empty() && w.f1ap.peers().len() == 0,
            w.e1ap@ == Map::<u32, R>::empty() && w.e1ap.peers().len() == 0,
            w.ngap.id_space() == 256 && w.f1ap.id_space() == 256 && w.e1ap.id_space() == 256,
            w.ue_store@ == Map::<u32, Entry<UeState>>::empty(),
            w.rrc_transactions@ == Map::<u32, Sender<UlDcchMessage>>::empty(),
            w.shutdown_handles@ == Seq::<H>::empty(),
    {
        Worker {
            worker_id,
            config,
            ngap: Stack::new(TRANSACTION_ID_SPACE),
            f1ap: Stack::new(TRANSACTION_ID_SPACE),
            e1ap: Stack::new(TRANSACTION_ID_SPACE),
            ue_store: MemoryStore::new(),
            rrc_transactions: PendingRrcTransactions::new(),
            shutdown_handles: Vec::new(),
        }
    }

    /// The servers to start, in order: F1AP, E1AP and, where an outside
    /// coordinator manages the worker, the connection API.
    pub fn start_servers(&self) -> (steps: Vec<StartupStep>)
        ensures
            steps@.len() == (if self.config.connection_style is Coordinated {
                3nat
            } else {
                2nat
            }),
            match steps@[0] {
                StartupStep::ListenF1ap(l) => l.ppid == 62 && l.address@ == socket_address_spec(
                    self.config.ip_addr@,
                    38472,
                ),
                _ => false,
            },
            match steps@[1] {
                StartupStep::ListenE1ap(l) => l.ppid == 64 && l.address@ == socket_address_spec(
                    self.config.ip_addr@,
                    38462,
                ),
                _ => false,
            },
            match self.config.connection_style {
                ConnectionStyle::Coordinated(c) => match steps@[2] {
                    StartupStep::ServeConnectionApi(a) => a@ == socket_address_spec(
                        self.config.ip_addr@,
                        c.connection_api_bind_port,
                    ),
                    _ => false,
                },
                ConnectionStyle::Autonomous(_) => true,
            },
    {
        let mut steps: Vec<StartupStep> = Vec::new();
        steps.push(StartupStep::ListenF1ap(self.serve_f1ap()));
        steps.push(StartupStep::ListenE1ap(self.serve_e1ap()));
        match &self.config.connection_style {
            ConnectionStyle::Coordinated(c) => {
                steps.push(
                    StartupStep::ServeConnectionApi(
                        self.serve_connection_api(c.connection_api_bind_port),
                    ),
                );
            },
            ConnectionStyle::Autonomous(_) => {},
        }
        steps
    }

    /// What to shut down once the worker is stopped, in order: the servers
    /// in the reverse of the order in which their handles were added, and
    /// the NG stack last. The handles leave the worker.
    pub fn run(&mut self) -> (steps: Vec<ShutdownStep<H>>)
        ensures
            steps@ == shutdown_order(old(self).shutdown_handles@),
            final(self).shutdown_handles@ == Seq::<H>::empty(),
            final(self).worker_id == old(self).worker_id,
            final(self).config == old(self).config,
            final(self).ngap == old(self).ngap,
            final(self).f1ap == old(self).f1ap,
            final(self).e1ap == old(self).e1ap,
            final(self).ue_store == old(self).ue_store,
            final(self).rrc_transactions == old(self).rrc_transactions,
    {
        let mut steps: Vec<ShutdownStep<H>> = Vec::new();
        let ghost all = self.shutdown_handles@;
        while self.shutdown_handles.len() > 0
            invariant
                self.shutdown_handles@.len() + steps@.len() == all.len(),
                self.shutdown_handles@ == all.take(self.shutdown_handles@.len() as int),
                forall|i: int|
                    0 <= i < steps@.len() ==> steps@[i] == ShutdownStep::Server(
                        all[all.len() - 1 - i],
                    ),
                self.worker_id == old(self).worker_id,
                self.config == old(self).config,
                self.ngap == old(self).ngap,
                self.f1ap == old(self).f1ap,
                self.e1ap == old(self).e1ap,
                self.ue_store == old(self).ue_store,
                self.rrc_transactions == old(self).rrc_transactions,
            decreases self.shutdown_handles@.len(),
        {
            match self.shutdown_handles.pop() {
                Some(h) => {
                    steps.push(ShutdownStep::Server(h));
                    proof {
                        assert(self.shutdown_handles@ =~= all.take(
                            self.shutdown_handles@.len() as int,
                        ));
                    }
                },
                None => {},
            }
        }
        steps.push(ShutdownStep::NgapStack);
        proof {
            assert(self.shutdown_handles@ =~= Seq::<H>::empty());
            assert(steps@ =~= shutdown_order(all));
        }
        steps
    }

    /// The liveness record of the worker as it is now.
    pub fn send_refresh_worker(&self) -> (r: RefreshWorker)
        ensures
            r.worker_id == self.worker_id,
            r.worker_info.connection_api_url@ == self.config.connection_api_url_spec(),
            r.worker_info.f1_address@ == self.config.ip_addr@,
            r.worker_info.e1_address@ == self.config.ip_addr@,
            r.connection_state == self.connection_state(),
    {
        let ng_up = self.ngap.is_up();
        let f1_up = self.f1ap.is_up();
        let e1_up = self.e1ap.is_up();
        let connection_api_url = self.config.connection_api_url();
        let worker_ip = self.config.ip_addr.clone();
        RefreshWorker {
            worker_id: self.worker_id,
            worker_info: WorkerInfo {
                connection_api_url,
                f1_address: worker_ip.clone(),
                e1_address: worker_ip,
            },
            connection_state: ConnectionState { ng_up, f1_up, e1_up },
        }
    }

    /// The record that tells the coordinator of a newly set up peer: the
    /// same as a periodic refresh. The caller sends it from a task of its
    /// own and never waits for it, since the coordinator may itself be
    /// waiting for the caller.
    pub fn associate_connection(&self) -> (r: RefreshWorker)
        ensures
            r.worker_id == self.worker_id,
            r.worker_info.connection_api_url@ == self.config.connection_api_url_spec(),
            r.worker_info.f1_address@ == self.config.ip_addr@,
            r.worker_info.e1_address@ == self.config.ip_addr@,
            r.connection_state == self.connection_state(),
    {
        self.send_refresh_worker()
    }

    /// Where the worker listens for DUs.
    pub fn serve_f1ap(&self) -> (l: ListenRequest)
        ensures
            l.address@ == socket_address_spec(self.config.ip_addr@, 38472),
            l.ppid == 62,
    {
        ListenRequest { address: self.worker_listen_address(F1AP_BIND_PORT), ppid: F1AP_SCTP_PPID }
    }

    /// Where the worker listens for CU-UPs.
    pub fn serve_e1ap(&self) -> (l: ListenRequest)
        ensures
            l.address@ == socket_address_spec(self.config.ip_addr@, 38462),
            l.ppid == 64,
    {
        ListenRequest { address: self.worker_listen_address(E1AP_BIND_PORT), ppid: E1AP_SCTP_PPID }
    }

    /// Where the worker serves its connection API.
    pub fn serve_connection_api(&self, port: u16) -> (address: String)
        ensures
            address@ == socket_address_spec(self.config.ip_addr@, port),
    {
        self.worker_listen_address(port)
    }

    pub fn worker_listen_address(&self, port: u16) -> (address: String)
        ensures
            address@ == socket_address_spec(self.config.ip_addr@, port),
    {
        socket_address(self.config.ip_addr.as_str(), port)
    }

    pub fn add_shutdown_handle(&mut self, shutdown_handle: H)
        ensures
            final(self).shutdown_handles@ == old(self).shutdown_handles@.push(shutdown_handle),
            final(self).worker_id == old(self).worker_id,
            final(self).config == old(self).config,
            final(self).ngap == old(self).ngap,
            final(self).f1ap == old(self).f1ap,
            final(self).e1ap == old(self).e1ap,
            final(self).ue_store == old(self).ue_store,
            final(self).rrc_transactions == old(self).rrc_transactions,
    {
        self.shutdown_handles.push(shutdown_handle);
    }

    pub fn config(&self) -> (c: &Config)
        ensures
            *c == self.config,
    {
        &self.config
    }

    /// How to reach the AMF at `amf_ip_address`.
    pub fn ngap_connect(&self, amf_ip_address: &str) -> (c: ConnectRequest)
        ensures
            c.remote_address@ == socket_address_spec(amf_ip_address@, 38412),
            c.bind_address@ == self.config.ip_addr@,
            c.ppid == 60,
    {
        ConnectRequest {
            remote_address: socket_address(amf_ip_address, NGAP_BIND_PORT),
            bind_address: self.config.ip_addr.clone(),
            ppid: NGAP_SCTP_PPID,
        }
    }

    /// What a request to connect to the AMF at `amf_ip_address` takes: how to
    /// reach it, or nothing where the NG stack is connected to it already.
    pub fn connect_amf(&self, amf_ip_address: &str) -> (c: Option<ConnectRequest>)
        ensures
            c is None <==> (exists|i: int|
                0 <= i < self.ngap.peers().len() && self.ngap.peers()[i]@ == socket_address_spec(
                    amf_ip_address@,
                    38412,
                )),
            c is Some ==> {
                &&& c->0.remote_address@ == socket_address_spec(amf_ip_address@, 38412)
                &&& c->0.bind_address@ == self.config.ip_addr@
                &&& c->0.ppid == 60
            },
    {
        let request = self.ngap_connect(amf_ip_address);
        if self.ngap.is_connected_to(&request.remote_address) {
            None
        } else {
            Some(request)
        }
    }

    /// Records that the NG association is gone. With none there, nothing
    /// changes.
    pub fn disconnect_amf(&mut self)
        requires
            old(self).wf(),
        ensures
            final(self).wf(),
            final(self).ngap.peers() == Seq::<String>::empty(),
            final(self).ngap@ == old(self).ngap@,
            final(self).ngap.id_space() == old(self).ngap.id_space(),
            final(self).ngap.next_id() == old(self).ngap.next_id(),
            final(self).worker_id == old(self).worker_id,
            final(self).config == old(self).config,
            final(self).f1ap == old(self).f1ap,
            final(self).e1ap == old(self).e1ap,
            final(self).ue_store == old(self).ue_store,
            final(self).rrc_transactions == old(self).rrc_transactions,
            final(self).shutdown_handles == old(self).shutdown_handles,
    {
        self.ngap.associations_down();
    }

    /// Writes `s` under `k` in the UE store.
    pub fn store(&mut self, k: u32, s: UeState, ttl_secs: usize, now: u64) -> (r: Result<
        (),
        StoreError,
    >)
        requires
            old(self).wf(),
        ensures
            final(self).wf(),
            r is Ok,
            final(self).ue_store@ == stored(old(self).ue_store@, k, s, ttl_secs, now),
            final(self).worker_id == old(self).worker_id,
            final(self).config == old(self).config,
            final(self).ngap == old(self).ngap,
            final(self).f1ap == old(self).f1ap,
            final(self).e1ap == old(self).e1ap,
            final(self).rrc_transactions == old(self).rrc_transactions,
            final(self).shutdown_handles == old(self).shutdown_handles,
    {
        self.ue_store.store(k, s, ttl_secs, now)
    }

    /// Reads the state of the UE `k` from the UE store.
    pub fn retrieve(&self, k: u32, now: u64) -> (r: Result<&UeState, StoreError>)
        requires
            self.wf(),
        ensures
            match lookup(self.ue_store@, k, now) {
                Ok(v) => r is Ok && *r->Ok_0 == v,
                Err(e) => r == Err::<&UeState, StoreError>(e),
            },
    {
        self.ue_store.retrieve(k, now)
    }

    /// Deletes the state of the UE `k` from the UE store.
    pub fn delete(&mut self, k: u32) -> (r: Result<(), StoreError>)
        requires
            old(self).wf(),
        ensures
            final(self).wf(),
            r is Ok,
            final(self).ue_store@ == deleted(old(self).ue_store@, k),
            final(self).worker_id == old(self).worker_id,
            final(self).config == old(self).config,
            final(self).ngap == old(self).ngap,
            final(self).f1ap == old(self).f1ap,
            final(self).e1ap == old(self).e1ap,
            final(self).rrc_transactions == old(self).rrc_transactions,
            final(self).shutdown_handles == old(self).shutdown_handles,
    {
        self.ue_store.delete(k)
    }

    /// Starts an RRC transaction with `ue`: its next uplink DCCH message
    /// arrives on the transaction that is handed back. A transaction that
    /// was pending for the same UE is replaced, and the flag says so.
    pub fn new_rrc_transaction(&mut self, ue: &UeState) -> (started: (RrcTransaction, bool))
        requires
            old(self).wf(),
        ensures
            final(self).wf(),
            started.0.ue_key == ue.key,
            started.1 == old(self).rrc_transactions@.contains_key(ue.key),
            final(self).rrc_transactions@.contains_key(ue.key),
            final(self).rrc_transactions@ == old(self).rrc_transactions@.insert(
                ue.key,
                final(self).rrc_transactions@[ue.key],
            ),
            final(self).worker_id == old(self).worker_id,
            final(self).config == old(self).config,
            final(self).ngap == old(self).ngap,
            final(self).f1ap == old(self).f1ap,
            final(self).e1ap == old(self).e1ap,
            final(self).ue_store == old(self).ue_store,
            final(self).shutdown_handles == old(self).shutdown_handles,
    {
        self.rrc_transactions.open_transaction(ue.key)
    }

    /// The sending end of the RRC transaction that is pending for the UE
    /// `ue_id`, if there is one: it takes the UE's message, and the
    /// transaction is over.
    pub fn match_rrc_transaction(&mut self, ue_id: u32) -> (slot: Option<Sender<UlDcchMessage>>)
        requires
            old(self).wf(),
        ensures
            final(self).wf(),
            final(self).rrc_transactions@ == old(self).rrc_transactions@.remove(ue_id),
            slot == (if old(self).rrc_transactions@.contains_key(ue_id) {
                Some(old(self).rrc_transactions@[ue_id])
            } else {
                None
            }),
            final(self).worker_id == old(self).worker_id,
            final(self).config == old(self).config,
            final(self).ngap == old(self).ngap,
            final(self).f1ap == old(self).f1ap,
            final(self).e1ap == old(self).e1ap,
            final(self).ue_store == old(self).ue_store,
            final(self).shutdown_handles == old(self).shutdown_handles,
    {
        self.rrc_transactions.match_transaction(ue_id)
    }

    /// The F1 message that carries `rrc_container` to `ue` on the
    /// signalling bearer `srb_id`.
    pub fn send_rrc_to_ue(&self, ue: &UeState, srb_id: u8, rrc_container: Vec<u8>) -> (m:
        DlRrcMessageTransfer)
        ensures
            m == (DlRrcMessageTransfer {
                gnb_cu_ue_f1ap_id: ue.key,
                gnb_du_ue_f1ap_id: ue.gnb_du_ue_f1ap_id,
                srb_id,
                rrc_container,
            }),
    {
        DlRrcMessageTransfer {
            gnb_cu_ue_f1ap_id: ue.key,
            gnb_du_ue_f1ap_id: ue.gnb_du_ue_f1ap_id,
            srb_id,
            rrc_container,
        }
    }
}

} // verus!
