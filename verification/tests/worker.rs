use gnb_cu_cp::config::{
    Config, ConnectionControlConfig, ConnectionStyle, WorkerConnectionManagementConfig,
};
use gnb_cu_cp::datastore::{StoreError, UeState};
use gnb_cu_cp::f1ap::{
    CpTransportLayerAddress, DlRrcMessageTransfer, F1SetupRequest, F1SetupResponse, F1apPdu,
    GnbCuConfigurationUpdateAcknowledge, InitiatingMessage, SuccessfulOutcome,
    TnlAssociationUsage, TransportLayerAddress, UeContextReleaseCommand,
    UeContextReleaseComplete,
};
use gnb_cu_cp::mock_du::{Binding, MockDu};
use gnb_cu_cp::net::{push_decimal, socket_address, ConnectRequest, ListenRequest};
use gnb_cu_cp::ngap::{GlobalRanNodeId, NgSetupResponse, PagingDrx, Snssai};
use gnb_cu_cp::rrc::{SecurityModeComplete, UlDcchMessage};
use gnb_cu_cp::stack::{Dispatch, PduKind, RequestError};
use gnb_cu_cp::worker::{
    send_periodic_refreshes_to_coordinator, spawn, ConnectionState, Launch, RefreshAction,
    ShutdownStep, StartupStep, WaitOutcome, Worker,
};
use gnb_cu_cp::workflows::{
    connect_failure_message, ng_setup_log_line, ng_setup_log_line_of, request_error_kind,
    FollowUp, Workflow, WorkflowError,
};
use uuid::Uuid;

fn autonomous_config() -> Config {
    Config {
        ip_addr: "127.0.0.1".to_string(),
        plmn: [0x02, 0xf8, 0x39],
        name: Some("Alsoran".to_string()),
        connection_style: ConnectionStyle::Autonomous(ConnectionControlConfig {
            fast_start: true,
            amf_address: "127.0.0.1".to_string(),
            worker_refresh_interval_secs: 30,
        }),
    }
}

fn coordinated_config() -> Config {
    Config {
        ip_addr: "10.1.2.3".to_string(),
        plmn: [0x02, 0xf8, 0x39],
        name: None,
        connection_style: ConnectionStyle::Coordinated(WorkerConnectionManagementConfig {
            connection_api_bind_port: 50312,
            connection_api_base_path: "http://10.1.2.3:50312".to_string(),
            coordinator_base_path: "http://10.1.2.1:23156".to_string(),
        }),
    }
}

fn worker(config: Config) -> Worker<u8, &'static str> {
    Worker::new(config, Uuid::from_u128(0x1234))
}

#[test]
fn socket_address_joins_ip_and_port() {
    assert_eq!(socket_address("127.0.0.1", 38472), "127.0.0.1:38472");
    assert_eq!(socket_address("::1", 0), "::1:0");
    assert_eq!(socket_address("", 65535), ":65535");
    assert_eq!(socket_address("h", 10), "h:10");
    assert_eq!(socket_address("h", 9), "h:9");
}

#[test]
fn push_decimal_writes_every_port_as_std_does() {
    for n in [0u16, 1, 9, 10, 99, 100, 1000, 9999, 10000, 38412, 38462, 38472, 65535] {
        let mut s = String::from("x");
        push_decimal(&mut s, n);
        assert_eq!(s, format!("x{}", n));
    }
}

#[test]
fn new_worker_has_nothing() {
    let w = worker(autonomous_config());
    assert_eq!(w.worker_id, Uuid::from_u128(0x1234));
    assert_eq!(w.config(), &autonomous_config());
    assert!(!w.ngap.is_up());
    assert!(!w.f1ap.is_up());
    assert!(!w.e1ap.is_up());
    assert_eq!(w.rrc_transactions.len(), 0);
    assert!(w.shutdown_handles.is_empty());
    assert_eq!(w.retrieve(1, 0), Err(StoreError::NotFound));
}

#[test]
fn spawn_goes_by_the_connection_style() {
    assert_eq!(
        spawn(&autonomous_config()),
        Launch::Autonomous {
            fast_start: true,
            amf_address: "127.0.0.1".to_string(),
            worker_refresh_interval_secs: 30
        }
    );
    assert_eq!(
        spawn(&coordinated_config()),
        Launch::Coordinated { coordinator_base_path: "http://10.1.2.1:23156".to_string() }
    );
}

#[test]
fn autonomous_worker_starts_two_servers() {
    let w = worker(autonomous_config());
    assert_eq!(
        w.start_servers(),
        vec![
            StartupStep::ListenF1ap(ListenRequest {
                address: "127.0.0.1:38472".to_string(),
                ppid: 62
            }),
            StartupStep::ListenE1ap(ListenRequest {
                address: "127.0.0.1:38462".to_string(),
                ppid: 64
            }),
        ]
    );
}

#[test]
fn coordinated_worker_also_serves_the_connection_api() {
    let w = worker(coordinated_config());
    assert_eq!(
        w.start_servers(),
        vec![
            StartupStep::ListenF1ap(ListenRequest {
                address: "10.1.2.3:38472".to_string(),
                ppid: 62
            }),
            StartupStep::ListenE1ap(ListenRequest {
                address: "10.1.2.3:38462".to_string(),
                ppid: 64
            }),
            StartupStep::ServeConnectionApi("10.1.2.3:50312".to_string()),
        ]
    );
    assert_eq!(w.serve_connection_api(8080), "10.1.2.3:8080");
    assert_eq!(w.worker_listen_address(1), "10.1.2.3:1");
}

#[test]
fn shutdown_handles_come_out_in_reverse() {
    let mut w = worker(coordinated_config());
    w.add_shutdown_handle("f1ap");
    w.add_shutdown_handle("e1ap");
    w.add_shutdown_handle("connection api");
    assert_eq!(
        w.run(),
        vec![
            ShutdownStep::Server("connection api"),
            ShutdownStep::Server("e1ap"),
            ShutdownStep::Server("f1ap"),
            ShutdownStep::NgapStack,
        ]
    );
    assert!(w.shutdown_handles.is_empty());
    assert_eq!(w.run(), vec![ShutdownStep::NgapStack]);
}

#[test]
fn refresh_of_an_autonomous_worker() {
    let mut w = worker(autonomous_config());
    let r = w.send_refresh_worker();
    assert_eq!(r.worker_id, Uuid::from_u128(0x1234));
    assert_eq!(r.worker_info.connection_api_url, "");
    assert_eq!(r.worker_info.f1_address, "127.0.0.1");
    assert_eq!(r.worker_info.e1_address, "127.0.0.1");
    assert_eq!(r.connection_state, ConnectionState { ng_up: false, f1_up: false, e1_up: false });
    w.f1ap.association_up("127.0.0.2:38472".to_string());
    let r = w.send_refresh_worker();
    assert_eq!(r.connection_state, ConnectionState { ng_up: false, f1_up: true, e1_up: false });
}

#[test]
fn refresh_of_a_coordinated_worker() {
    let mut w = worker(coordinated_config());
    w.ngap.association_up("10.0.0.9:38412".to_string());
    w.e1ap.association_up("10.0.0.8:38462".to_string());
    let r = w.associate_connection();
    assert_eq!(r.worker_info.connection_api_url, "http://10.1.2.3:50312");
    assert_eq!(r.worker_info.f1_address, "10.1.2.3");
    assert_eq!(r.worker_info.e1_address, "10.1.2.3");
    assert_eq!(r.connection_state, ConnectionState { ng_up: true, f1_up: false, e1_up: true });
    assert_eq!(r, w.send_refresh_worker());
}

#[test]
fn refresh_task_exits_on_stop_and_only_then() {
    let refresh = RefreshAction::RefreshThenWait { secs: 10 };
    assert_eq!(send_periodic_refreshes_to_coordinator(None), refresh);
    assert_eq!(
        send_periodic_refreshes_to_coordinator(Some(WaitOutcome::IntervalElapsed)),
        refresh
    );
    assert_eq!(
        send_periodic_refreshes_to_coordinator(Some(WaitOutcome::Stopped)),
        RefreshAction::Exit
    );
}

#[test]
fn ngap_connect_targets_the_amf_port() {
    let w = worker(autonomous_config());
    assert_eq!(
        w.ngap_connect("127.0.0.1"),
        ConnectRequest {
            remote_address: "127.0.0.1:38412".to_string(),
            bind_address: "127.0.0.1".to_string(),
            ppid: 60
        }
    );
    assert_eq!(
        w.serve_f1ap(),
        ListenRequest { address: "127.0.0.1:38472".to_string(), ppid: 62 }
    );
    assert_eq!(
        w.serve_e1ap(),
        ListenRequest { address: "127.0.0.1:38462".to_string(), ppid: 64 }
    );
}

#[test]
fn worker_store_round_trip() {
    let mut w = worker(autonomous_config());
    assert_eq!(w.store(7, UeState::new(7, 1), 30, 100), Ok(()));
    assert_eq!(w.retrieve(7, 129), Ok(&UeState::new(7, 1)));
    assert_eq!(w.retrieve(7, 130), Err(StoreError::NotFound));
    assert_eq!(w.delete(7), Ok(()));
    assert_eq!(w.retrieve(7, 100), Err(StoreError::NotFound));
    assert_eq!(w.delete(7), Ok(()));
}

fn security_mode_complete() -> UlDcchMessage {
    UlDcchMessage::SecurityModeComplete(SecurityModeComplete { rrc_transaction_identifier: 1 })
}

#[test]
fn worker_rrc_transactions() {
    let mut w = worker(autonomous_config());
    let ue = UeState::new(7, 1);
    assert!(w.match_rrc_transaction(7).is_none());
    let (first, replaced) = w.new_rrc_transaction(&ue);
    assert!(!replaced);
    assert_eq!(first.ue_key, 7);
    let (second, replaced) = w.new_rrc_transaction(&ue);
    assert!(replaced);
    assert_eq!(w.rrc_transactions.len(), 1);
    assert!(w.match_rrc_transaction(8).is_none());

    let sender = w.match_rrc_transaction(7).unwrap();
    assert!(sender.try_send(security_mode_complete()).is_ok());
    assert_eq!(second.receiver.try_recv(), Ok(security_mode_complete()));
    // The replaced transaction never hears of the message, and its channel
    // is closed.
    assert!(first.receiver.try_recv().is_err());
    assert!(first.receiver.is_closed());
    assert!(w.match_rrc_transaction(7).is_none());
}

#[test]
fn rrc_slot_holds_one_message() {
    let mut w = worker(autonomous_config());
    let (transaction, _) = w.new_rrc_transaction(&UeState::new(7, 1));
    let sender = w.match_rrc_transaction(7).unwrap();
    assert_eq!(sender.capacity(), Some(1));
    assert!(sender.try_send(security_mode_complete()).is_ok());
    assert!(sender.try_send(security_mode_complete()).is_err());
    assert_eq!(transaction.receiver.try_recv(), Ok(security_mode_complete()));
}

#[test]
fn transactions_of_two_ues_do_not_mix() {
    let mut w = worker(autonomous_config());
    let (a, _) = w.new_rrc_transaction(&UeState::new(1, 10));
    let (b, _) = w.new_rrc_transaction(&UeState::new(2, 20));
    let to_b = w.match_rrc_transaction(2).unwrap();
    assert!(to_b.try_send(security_mode_complete()).is_ok());
    assert!(a.receiver.try_recv().is_err());
    assert_eq!(b.receiver.try_recv(), Ok(security_mode_complete()));
    assert!(w.rrc_transactions.is_pending(1));
}

#[test]
fn timed_out_transaction_is_unregistered() {
    let mut w = worker(autonomous_config());
    let (_transaction, _) = w.new_rrc_transaction(&UeState::new(1, 10));
    assert!(w.rrc_transactions.cancel_transaction(1));
    assert!(!w.rrc_transactions.cancel_transaction(1));
    assert!(w.match_rrc_transaction(1).is_none());
}

#[test]
fn connecting_to_the_connected_amf_reopens_nothing() {
    let mut w = worker(autonomous_config());
    let request = w.connect_amf("127.0.0.9").unwrap();
    assert_eq!(request, w.ngap_connect("127.0.0.9"));
    assert!(w.ngap.association_up(request.remote_address));
    assert_eq!(w.connect_amf("127.0.0.9"), None);
    assert!(w.connect_amf("127.0.0.8").is_some());
}

#[test]
fn downlink_rrc_transfer_names_both_ue_ids() {
    let w = worker(autonomous_config());
    let ue = UeState::new(42, 1);
    assert_eq!(
        w.send_rrc_to_ue(&ue, 0, vec![1, 2, 3]),
        DlRrcMessageTransfer {
            gnb_cu_ue_f1ap_id: 42,
            gnb_du_ue_f1ap_id: 1,
            srb_id: 0,
            rrc_container: vec![1, 2, 3]
        }
    );
}

fn ran_node() -> GlobalRanNodeId {
    GlobalRanNodeId { plmn_identity: [0x02, 0xf8, 0x39], gnb_id: 1, gnb_id_bits: 22 }
}

#[test]
fn ng_setup_happy_path() {
    let config = autonomous_config();
    let w = worker(autonomous_config());
    assert_eq!(w.ngap_connect("127.0.0.1").remote_address, "127.0.0.1:38412");
    let workflow = Workflow::new(&config);
    let request = workflow.ng_setup(true, ran_node()).unwrap();
    assert_eq!(request.default_paging_drx, PagingDrx::V128);
    assert_eq!(request.global_ran_node_id, ran_node());
    assert_eq!(request.ran_node_name, Some("Alsoran".to_string()));
    assert_eq!(request.supported_ta_list.len(), 1);
    assert_eq!(request.supported_ta_list[0].tac, [0, 0, 1]);
    let plmns = &request.supported_ta_list[0].broadcast_plmn_list;
    assert_eq!(plmns.len(), 1);
    assert_eq!(plmns[0].plmn_identity, [0x02, 0xf8, 0x39]);
    assert_eq!(
        plmns[0].tai_slice_support_list,
        vec![
            Snssai { sst: 1, sd: None },
            Snssai { sst: 1, sd: Some([0, 0, 0]) },
            Snssai { sst: 1, sd: Some([0, 0, 1]) },
        ]
    );
    let response = NgSetupResponse { amf_name: Some("mock-amf".to_string()) };
    let amf_name = workflow.ng_setup_response::<()>(Ok(response)).unwrap();
    assert_eq!(amf_name, Some("mock-amf".to_string()));
    assert_eq!(
        ng_setup_log_line(&amf_name),
        "NGAP interface initialized with Some(RanNodeName(\"mock-amf\"))"
    );
}

#[test]
fn ng_setup_without_a_name() {
    let config = coordinated_config();
    let request = Workflow::new(&config).ng_setup(true, ran_node()).unwrap();
    assert_eq!(request.ran_node_name, None);
}

#[test]
fn ng_setup_fails_when_the_amf_is_not_reached() {
    let config = autonomous_config();
    let workflow = Workflow::new(&config);
    assert_eq!(workflow.ng_setup(false, ran_node()), Err(WorkflowError::ConnectFailed));
    assert_eq!(
        connect_failure_message("127.0.0.1"),
        "Failed to connect to AMF 127.0.0.1 (will retry)"
    );
}

#[test]
fn ng_setup_fails_with_the_kind_of_the_request_error() {
    let config = autonomous_config();
    let workflow = Workflow::new(&config);
    assert_eq!(
        workflow.ng_setup_response(Err(RequestError::UnsuccessfulOutcome("cause"))),
        Err(WorkflowError::Protocol)
    );
    assert_eq!(
        workflow.ng_setup_response::<()>(Err(RequestError::Timeout)),
        Err(WorkflowError::Timeout)
    );
}

#[test]
fn every_request_error_has_its_kind() {
    assert_eq!(request_error_kind::<()>(&RequestError::NoAssociation), WorkflowError::Transport);
    assert_eq!(request_error_kind::<()>(&RequestError::PeerReset), WorkflowError::Transport);
    assert_eq!(request_error_kind::<()>(&RequestError::EncodeFailed), WorkflowError::Codec);
    assert_eq!(request_error_kind::<()>(&RequestError::Timeout), WorkflowError::Timeout);
    assert_eq!(request_error_kind(&RequestError::UnsuccessfulOutcome(1)), WorkflowError::Protocol);
    assert_eq!(request_error_kind::<()>(&RequestError::Internal), WorkflowError::Internal);
}

#[test]
fn configuration_update_announces_the_f1_endpoint() {
    let config = autonomous_config();
    let workflow = Workflow::new(&config);
    let address = TransportLayerAddress::from_octets(vec![127, 0, 0, 1]).unwrap();
    let update = workflow.gnb_cu_configuration_update(address, 7);
    assert_eq!(update.transaction_id, 7);
    let list = update.gnb_cu_tnl_association_to_add_list.unwrap();
    assert_eq!(list.len(), 1);
    assert_eq!(list[0].tnl_association_usage, TnlAssociationUsage::Both);
    assert_eq!(
        list[0].tnl_association_transport_layer_address,
        CpTransportLayerAddress::EndpointIpAddress(TransportLayerAddress {
            octets: vec![127, 0, 0, 1]
        })
    );
}

#[test]
fn acknowledged_configuration_update_spawns_the_association() {
    let config = autonomous_config();
    let workflow = Workflow::new(&config);
    let ack = GnbCuConfigurationUpdateAcknowledge {
        transaction_id: 1,
        gnb_cu_tnl_association_setup_list: None,
    };
    assert_eq!(
        workflow.gnb_cu_configuration_update_response::<()>(Ok(ack)),
        Ok(FollowUp::SpawnAssociateConnection)
    );
    assert_eq!(
        workflow.gnb_cu_configuration_update_response::<()>(Err(RequestError::PeerReset)),
        Err(WorkflowError::Transport)
    );
}

fn mock_du() -> MockDu {
    MockDu::new("127.0.0.2".to_string(), TransportLayerAddress { octets: vec![127, 0, 0, 2] })
}

#[test]
fn f1_setup_then_configuration_update() {
    let config = autonomous_config();
    let workflow = Workflow::new(&config);
    let du = mock_du();

    let request = match du.send_f1_setup_request() {
        F1apPdu::InitiatingMessage(InitiatingMessage::F1SetupRequest(r)) => r,
        other => panic!("unexpected {:?}", other),
    };
    assert_eq!(request.gnb_du_id, 123);
    let (response, then) = workflow.f1_setup(&request);
    assert_eq!(response, F1SetupResponse { transaction_id: 0 });
    assert_eq!(then, FollowUp::RunGnbCuConfigurationUpdate);
    let response = F1apPdu::SuccessfulOutcome(SuccessfulOutcome::F1SetupResponse(response));
    assert_eq!(du.receive_f1_setup_response(response), Ok(()));

    let mut w = worker(autonomous_config());
    w.f1ap.association_up("127.0.0.2:38472".to_string());
    let id = w.f1ap.begin_request::<()>(0).unwrap();
    assert_eq!(id, 0);
    let worker_ip = TransportLayerAddress::from_octets(vec![127, 0, 0, 1]).unwrap();
    let update = workflow.gnb_cu_configuration_update(worker_ip.duplicate(), id as u8);
    let update = F1apPdu::InitiatingMessage(InitiatingMessage::GnbCuConfigurationUpdate(update));
    let (transaction_id, assoc_id) =
        du.receive_gnb_cu_configuration_update(update, &worker_ip, 9).unwrap();
    assert_eq!((transaction_id, assoc_id), (0, 9));
    let ack = match du.send_gnb_cu_configuration_update_acknowledge(transaction_id, worker_ip) {
        F1apPdu::SuccessfulOutcome(SuccessfulOutcome::GnbCuConfigurationUpdateAcknowledge(a)) => a,
        other => panic!("unexpected {:?}", other),
    };
    assert_eq!(ack.transaction_id, 0);
    assert_eq!(
        w.f1ap.dispatch(PduKind::SuccessfulOutcome, Some(ack.transaction_id as u32)),
        Dispatch::Complete(0)
    );
    assert_eq!(
        workflow.gnb_cu_configuration_update_response::<()>(Ok(ack)),
        Ok(FollowUp::SpawnAssociateConnection)
    );
}

#[test]
fn configuration_updates_in_flight_carry_distinct_ids() {
    let config = autonomous_config();
    let workflow = Workflow::new(&config);
    let mut w = worker(autonomous_config());
    w.f1ap.association_up("127.0.0.2:38472".to_string());
    let address = || TransportLayerAddress::from_octets(vec![127, 0, 0, 1]).unwrap();

    // Another request holds identifier 1 while the updates are sent.
    assert_eq!(w.f1ap.begin_request::<()>(10), Ok(0));
    assert_eq!(w.f1ap.begin_request::<()>(11), Ok(1));
    assert_eq!(w.f1ap.cancel(0), Some(10));

    let first = w.f1ap.begin_request::<()>(12).unwrap();
    let first = workflow.gnb_cu_configuration_update(address(), first as u8);
    let second = w.f1ap.begin_request::<()>(13).unwrap();
    let second = workflow.gnb_cu_configuration_update(address(), second as u8);
    assert_eq!(first.transaction_id, 2);
    assert_eq!(second.transaction_id, 3);
    assert!(w.f1ap.is_outstanding(1));
    assert_ne!(first.transaction_id, 1);
    assert_ne!(second.transaction_id, 1);
    assert_ne!(first.transaction_id, second.transaction_id);
}

#[test]
fn ng_setup_log_line_names_the_amf() {
    assert_eq!(
        ng_setup_log_line(&Some("mock-amf".to_string())),
        "NGAP interface initialized with Some(RanNodeName(\"mock-amf\"))"
    );
    assert_eq!(ng_setup_log_line(&None), "NGAP interface initialized with None");
    assert_eq!(
        ng_setup_log_line(&Some("a\"b\\c\n".to_string())),
        "NGAP interface initialized with Some(RanNodeName(\"a\\\"b\\\\c\\n\"))"
    );
    assert_eq!(
        ng_setup_log_line(&Some(String::new())),
        "NGAP interface initialized with Some(RanNodeName(\"\"))"
    );
}

#[test]
fn ng_setup_log_line_of_a_written_name() {
    assert_eq!(
        ng_setup_log_line_of(Some("\"mock-amf\"")),
        "NGAP interface initialized with Some(RanNodeName(\"mock-amf\"))"
    );
    assert_eq!(ng_setup_log_line_of(Some("")), "NGAP interface initialized with Some(RanNodeName())");
    assert_eq!(ng_setup_log_line_of(None), "NGAP interface initialized with None");
}

#[test]
fn f1_setup_answers_in_the_transaction_of_the_request() {
    let config = autonomous_config();
    let request = F1SetupRequest { transaction_id: 200, gnb_du_id: 5, latest_rrc_version: 0 };
    let (response, _) = Workflow::new(&config).f1_setup(&request);
    assert_eq!(response.transaction_id, 200);
}

#[test]
fn initial_access_stores_the_ue_and_awaits_its_answer() {
    let config = autonomous_config();
    let workflow = Workflow::new(&config);
    let mut w = worker(autonomous_config());
    let du = mock_du();
    let mut ctx = du.new_ue_context(1, Binding { assoc_id: 3 });

    let first = match du.send_rrc_setup_request(&ctx, vec![0xaa], vec![0xbb]) {
        F1apPdu::InitiatingMessage(InitiatingMessage::InitialUlRrcMessageTransfer(t)) => t,
        other => panic!("unexpected {:?}", other),
    };
    let (setup, transaction, replaced) =
        workflow.initial_access(&mut w, &first, 4711, vec![0xcc], 30, 100);
    assert!(!replaced);
    assert_eq!(transaction.ue_key, 4711);
    assert_eq!(
        setup,
        DlRrcMessageTransfer {
            gnb_cu_ue_f1ap_id: 4711,
            gnb_du_ue_f1ap_id: 1,
            srb_id: 0,
            rrc_container: vec![0xcc]
        }
    );
    assert_eq!(w.retrieve(4711, 100), Ok(&UeState::new(4711, 1)));
    assert_eq!(w.retrieve(4711, 129), Ok(&UeState::new(4711, 1)));
    assert_eq!(w.retrieve(4711, 130), Err(StoreError::NotFound));

    let setup = F1apPdu::InitiatingMessage(InitiatingMessage::DlRrcMessageTransfer(setup));
    assert_eq!(du.receive_rrc_setup(&mut ctx, setup), Ok(vec![0xcc]));
    assert_eq!(ctx.gnb_cu_ue_f1ap_id, Some(4711));

    // The UE's answer reaches the task that waits for it.
    let answer = security_mode_complete();
    let slot = w.match_rrc_transaction(4711).unwrap();
    assert!(slot.try_send(answer).is_ok());
    assert_eq!(transaction.receiver.try_recv(), Ok(security_mode_complete()));
}

#[test]
fn released_ue_is_not_found_thereafter() {
    let config = autonomous_config();
    let workflow = Workflow::new(&config);
    let mut w = worker(autonomous_config());
    w.store(7, UeState::new(7, 1), 600, 100).unwrap();
    assert_eq!(
        workflow.ue_release(&UeState::new(7, 1)),
        UeContextReleaseCommand { gnb_cu_ue_f1ap_id: 7, gnb_du_ue_f1ap_id: 1 }
    );
    let complete = UeContextReleaseComplete { gnb_cu_ue_f1ap_id: 7, gnb_du_ue_f1ap_id: 1 };
    assert_eq!(workflow.ue_release_response::<()>(&mut w.ue_store, 7, Ok(complete)), Ok(()));
    assert_eq!(w.retrieve(7, 101), Err(StoreError::NotFound));
}

#[test]
fn failed_release_leaves_the_ue_state() {
    let config = autonomous_config();
    let workflow = Workflow::new(&config);
    let mut w = worker(autonomous_config());
    w.store(7, UeState::new(7, 1), 600, 100).unwrap();
    assert_eq!(
        workflow.ue_release_response::<()>(&mut w.ue_store, 7, Err(RequestError::Timeout)),
        Err(WorkflowError::Timeout)
    );
    assert_eq!(w.retrieve(7, 101), Ok(&UeState::new(7, 1)));
}

#[test]
fn disconnecting_the_amf_twice() {
    let mut w = worker(autonomous_config());
    w.ngap.association_up("127.0.0.9:38412".to_string());
    assert!(w.send_refresh_worker().connection_state.ng_up);
    w.disconnect_amf();
    assert!(!w.send_refresh_worker().connection_state.ng_up);
    w.disconnect_amf();
    assert!(!w.ngap.is_up());
    assert!(w.connect_amf("127.0.0.9").is_some());
}

#[test]
fn transport_layer_address_takes_ipv4_and_ipv6_octets_only() {
    assert!(TransportLayerAddress::from_octets(vec![1, 2, 3, 4]).is_some());
    assert!(TransportLayerAddress::from_octets(vec![0; 16]).is_some());
    assert!(TransportLayerAddress::from_octets(vec![]).is_none());
    assert!(TransportLayerAddress::from_octets(vec![1, 2, 3]).is_none());
    assert!(TransportLayerAddress::from_octets(vec![0; 8]).is_none());
    let a = TransportLayerAddress::from_octets(vec![1, 2, 3, 4]).unwrap();
    assert_eq!(a.duplicate(), a);
}
