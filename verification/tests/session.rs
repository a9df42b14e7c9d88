use rbfrt::bfrt::{
    BFRTData, BFRTFieldType, BFRTInfo, BFRTSingleton, BFRTTableKeyObject, BFRTTableObject, LearnFilterField,
    LearnFilterObject, TableMatchTypes, TableType,
};
use rbfrt::connection::{
    bind_request, find_program, is_acknowledged, merge_schema, upload_request, SessionAction, SessionEvent,
    SessionState, SwitchConnection, WireCall, DIGEST_QUEUE_SIZE,
};
use rbfrt::error::RBFRTError;
use rbfrt::protos::bfrt_proto::{
    ConfigAction, DataField, DataValue, DevInitMode, DigestList, Entity, ForwardingPipelineConfig, KeyField,
    MatchType, Notifications, Profile, StreamMessageResponse, Subscribe, TableData, TableEntry as WireEntry,
    TableKey, TableValue, TargetDevice, UpdateType,
};
use rbfrt::table::table_entry::{clear_requests, tag_requests};
use rbfrt::table::{MatchValue, Request, RequestType, TableOperation};
use rbfrt::util::digest::{decode_digest_list, decode_notification, decode_record, relay_filter};

fn ty(name: &str, width: Option<u32>) -> BFRTFieldType {
    BFRTFieldType::from_name(name, width).unwrap()
}

fn simple_table(name: &str, id: u32) -> BFRTTableObject {
    BFRTTableObject::new(
        name.to_string(),
        id,
        TableType::Register,
        1,
        None,
        vec![BFRTTableKeyObject::new(1, "k".to_string(), None, true, TableMatchTypes::Exact, ty("uint16", None))],
        None,
        Some(vec![BFRTData::new(false, false, BFRTSingleton::new(2, "v".to_string(), Some(ty("uint32", None)), None))]),
    )
}

fn filter() -> LearnFilterObject {
    LearnFilterObject {
        name: "pipe.ingress.digest".to_string(),
        id: 7,
        fields: vec![LearnFilterField::new(1, "a".to_string()), LearnFilterField::new(2, "b".to_string())],
    }
}

fn program() -> BFRTInfo {
    BFRTInfo::new(vec![simple_table("pipe.ingress.t1", 1), simple_table("ingress.t2", 2)], Some(vec![filter()]))
}

fn platform() -> BFRTInfo {
    BFRTInfo::new(vec![simple_table("$PORT", 100)], None)
}

fn ack(code: i32) -> StreamMessageResponse {
    StreamMessageResponse::Subscribe(Subscribe { is_master: true, device_id: 0, notifications: None, status: Some(code) })
}

fn ready() -> SwitchConnection {
    let c = SwitchConnection::builder("localhost", 50052).device_id(3).client_id(4).p4_name("prog").build();
    let (c, _) = c.handshake(SessionEvent::TransportUp);
    let (c, _) = c.handshake(SessionEvent::SubscribeReply(ack(0)));
    let (c, _) = c.handshake(SessionEvent::BindAccepted);
    let (c, a) = c.handshake(SessionEvent::SchemaFetched { program: Some(program()), platform: platform() });
    assert!(matches!(a, SessionAction::StartNotifications));
    c
}

fn abort_of(action: SessionAction) -> RBFRTError {
    match action {
        SessionAction::Abort(e) => e,
        other => panic!("unexpected: {:?}", other),
    }
}

#[test]
fn handshake_runs_through() {
    let c = SwitchConnection::builder("localhost", 50052).device_id(3).client_id(4).p4_name("prog").build();
    assert_eq!(c.state(), SessionState::Disconnected);
    assert_eq!(c.ip(), "localhost");
    assert_eq!(c.port(), 50052);
    assert_eq!(c.device_id(), 3);
    assert_eq!(c.client_id(), 4);
    assert_eq!(c.p4_name(), Some("prog"));
    assert!(c.bfrt_info().is_none());
    assert_eq!(c.get_target_device(), TargetDevice { device_id: 3, pipe_id: 0xffff, direction: 0xff, prsr_id: 0xff });

    let (c, action) = c.handshake(SessionEvent::TransportUp);
    assert_eq!(c.state(), SessionState::Connected);
    match action {
        SessionAction::Subscribe(req) => {
            assert_eq!(req.client_id, 4);
            assert_eq!(
                req.subscribe,
                Subscribe {
                    is_master: true,
                    device_id: 3,
                    notifications: Some(Notifications {
                        enable_learn_notifications: true,
                        enable_idletimeout_notifications: true,
                        enable_port_status_change_notifications: true,
                    }),
                    status: None,
                }
            );
            assert_eq!(req, c.subscribe_request());
        }
        other => panic!("unexpected: {:?}", other),
    }

    let (c, action) = c.handshake(SessionEvent::SubscribeReply(ack(0)));
    assert_eq!(c.state(), SessionState::Subscribed);
    match action {
        SessionAction::Bind { p4_name } => assert_eq!(p4_name, "prog"),
        other => panic!("unexpected: {:?}", other),
    }

    let (c, action) = c.handshake(SessionEvent::BindAccepted);
    assert_eq!(c.state(), SessionState::Bound);
    assert!(matches!(action, SessionAction::FetchSchema { device_id: 3, client_id: 4 }));
    assert!(c.bfrt_info().is_none());

    let (c, action) = c.handshake(SessionEvent::SchemaFetched { program: Some(program()), platform: platform() });
    assert_eq!(c.state(), SessionState::Ready);
    assert!(c.is_ready());
    assert!(matches!(action, SessionAction::StartNotifications));
    assert!(c.has_table("ingress.t1"));
    assert!(c.has_table("ingress.t2"));
    assert!(c.has_table("$PORT"));
    assert!(!c.has_table("t3"));
    assert_eq!(c.bfrt_info().unwrap().learn_filter_get(7).unwrap().name, "pipe.ingress.digest");
}

#[test]
fn ready_session_stays_ready() {
    let c = ready();
    let (c, action) = c.handshake(SessionEvent::TransportDown { reason: "late".to_string() });
    assert_eq!(c.state(), SessionState::Ready);
    assert!(matches!(abort_of(action), RBFRTError::HandshakeError { .. }));
    assert!(c.has_table("$PORT"));
}

#[test]
fn handshake_with_config_uploads_first() {
    let c = SwitchConnection::builder("sw", 1).config("/tmp/conf.json").build();
    let (c, action) = c.handshake(SessionEvent::TransportUp);
    assert_eq!(c.state(), SessionState::Connected);
    match action {
        SessionAction::UploadConfig { path } => assert_eq!(path, "/tmp/conf.json"),
        other => panic!("unexpected: {:?}", other),
    }
    let (c, action) = c.handshake(SessionEvent::ConfigAccepted { p4_name: "loaded".to_string() });
    assert_eq!(c.state(), SessionState::Connected);
    assert!(matches!(action, SessionAction::Subscribe(_)));
    assert_eq!(c.p4_name(), Some("loaded"));
    let (c, action) = c.handshake(SessionEvent::SubscribeReply(ack(0)));
    assert_eq!(c.state(), SessionState::Subscribed);
    match action {
        SessionAction::Bind { p4_name } => assert_eq!(p4_name, "loaded"),
        other => panic!("unexpected: {:?}", other),
    }
}

#[test]
fn handshake_failures_are_fatal() {
    let start = || SwitchConnection::builder("sw", 9).p4_name("prog").build();

    let (c, a) = start().handshake(SessionEvent::TransportDown { reason: "refused".to_string() });
    assert_eq!(c.state(), SessionState::Failed);
    assert_eq!(
        abort_of(a),
        RBFRTError::ConnectionError { ip: "sw".to_string(), port: 9, orig_e: "refused".to_string() }
    );

    let (c, a) = SwitchConnection::builder("sw", 9).build().handshake(SessionEvent::TransportUp);
    assert_eq!(c.state(), SessionState::Failed);
    assert!(matches!(abort_of(a), RBFRTError::HandshakeError { .. }));

    let (c, _) = SwitchConnection::builder("sw", 9).config("c").build().handshake(SessionEvent::TransportUp);
    let (c, a) = c.handshake(SessionEvent::ConfigRejected { message: "m".to_string(), details: "d".to_string() });
    assert_eq!(c.state(), SessionState::Failed);
    assert_eq!(abort_of(a), RBFRTError::GRPCError { message: "m".to_string(), details: "d".to_string() });

    let (c, _) = start().handshake(SessionEvent::TransportUp);
    let (c, a) = c.handshake(SessionEvent::SubscribeReply(ack(1)));
    assert_eq!(c.state(), SessionState::Failed);
    assert!(matches!(abort_of(a), RBFRTError::HandshakeError { .. }));

    let (c, _) = start().handshake(SessionEvent::TransportUp);
    let (c, a) = c.handshake(SessionEvent::SubscribeReply(StreamMessageResponse::IdleTimeoutNotification));
    assert_eq!(c.state(), SessionState::Failed);
    assert!(matches!(abort_of(a), RBFRTError::HandshakeError { .. }));

    let (c, _) = start().handshake(SessionEvent::TransportUp);
    let (c, _) = c.handshake(SessionEvent::SubscribeReply(ack(0)));
    let (c, a) = c.handshake(SessionEvent::BindRejected { message: "m".to_string(), details: "d".to_string() });
    assert_eq!(c.state(), SessionState::Failed);
    assert!(matches!(abort_of(a), RBFRTError::GRPCError { .. }));

    let (c, _) = start().handshake(SessionEvent::TransportUp);
    let (c, _) = c.handshake(SessionEvent::SubscribeReply(ack(0)));
    let (c, _) = c.handshake(SessionEvent::BindAccepted);
    let (c, a) = c.handshake(SessionEvent::SchemaFetched { program: None, platform: platform() });
    assert_eq!(c.state(), SessionState::Failed);
    assert!(c.bfrt_info().is_none());
    assert_eq!(abort_of(a), RBFRTError::P4ProgramError { name: "prog".to_string() });

    let (c, _) = start().handshake(SessionEvent::TransportUp);
    let (c, _) = c.handshake(SessionEvent::SubscribeReply(ack(0)));
    let (c, _) = c.handshake(SessionEvent::BindAccepted);
    let (c, a) = c.handshake(SessionEvent::SchemaRefused { reason: "r".to_string() });
    assert_eq!(c.state(), SessionState::Failed);
    assert_eq!(
        abort_of(a),
        RBFRTError::GetForwardingPipelineError { device_id: 0, client_id: 1, orig_e: "r".to_string() }
    );

    // out of turn
    let (c, a) = start().handshake(SessionEvent::BindAccepted);
    assert_eq!(c.state(), SessionState::Failed);
    assert!(matches!(abort_of(a), RBFRTError::HandshakeError { .. }));
    let (c, a) = c.handshake(SessionEvent::TransportUp);
    assert_eq!(c.state(), SessionState::Failed);
    assert!(matches!(abort_of(a), RBFRTError::HandshakeError { .. }));
}

#[test]
fn acknowledgement_needs_status_zero() {
    assert!(is_acknowledged(&ack(0)));
    assert!(!is_acknowledged(&ack(2)));
    assert!(!is_acknowledged(&StreamMessageResponse::Subscribe(Subscribe {
        is_master: true,
        device_id: 0,
        notifications: None,
        status: None
    })));
    assert!(!is_acknowledged(&StreamMessageResponse::PortStatusChangeNotification));
}

#[test]
fn program_is_found_by_name() {
    let names = vec!["a".to_string(), "prog".to_string(), "prog".to_string()];
    assert_eq!(find_program(&names, "prog"), Some(1));
    assert_eq!(find_program(&names, "b"), None);
    assert_eq!(find_program(&vec![], "b"), None);
}

#[test]
fn merge_appends_platform_tables() {
    let merged = merge_schema(program(), platform());
    assert!(merged.learn_filter_get(7).is_ok());
    let tables = merged.tables();
    let names: Vec<&str> = tables.iter().map(|t| t.name()).collect();
    assert_eq!(names, vec!["pipe.ingress.t1", "ingress.t2", "$PORT"]);
    let two = BFRTInfo::new(vec![simple_table("x", 1), simple_table("y", 2), simple_table("z", 3)], None);
    let merged = merge_schema(BFRTInfo::new(vec![], None), two);
    let tables = merged.tables();
    let names: Vec<&str> = tables.iter().map(|t| t.name()).collect();
    assert_eq!(names, vec!["x", "y", "z"]);
}

#[test]
fn dispatch_of_empty_batch_is_refused() {
    let c = ready();
    assert_eq!(c.dispatch_request(&vec![]).unwrap_err(), RBFRTError::RequestEmpty {});
}

#[test]
fn dispatch_read_batch() {
    let c = ready();
    let batch = vec![
        Request::new("ingress.t1").match_key("k", MatchValue::exact(5u8)),
        Request::new("$PORT").pipe(1),
    ];
    match c.dispatch_request(&batch).unwrap() {
        WireCall::Read(req) => {
            assert_eq!(req.client_id, 4);
            assert_eq!(req.p4_name, "prog");
            assert_eq!(req.target, TargetDevice { device_id: 3, pipe_id: 0xffff, direction: 0xff, prsr_id: 0xff });
            assert_eq!(req.entities.len(), 2);
            match &req.entities[0] {
                Entity::TableEntry(e) => {
                    assert_eq!(e.table_id, 1);
                    assert_eq!(
                        e.value,
                        Some(TableValue::Key(TableKey {
                            fields: vec![KeyField { field_id: 1, match_type: MatchType::Exact { value: vec![0, 5] } }]
                        }))
                    );
                }
                other => panic!("unexpected: {:?}", other),
            }
            match &req.entities[1] {
                Entity::TableEntry(e) => {
                    assert_eq!(e.table_id, 100);
                    assert_eq!(e.entry_tgt.unwrap().pipe_id, 1);
                    assert_eq!(e.entry_tgt.unwrap().device_id, 3);
                }
                other => panic!("unexpected: {:?}", other),
            }
        }
        other => panic!("unexpected: {:?}", other),
    }
}

#[test]
fn dispatch_write_kinds() {
    let c = ready();
    let base = Request::new("ingress.t2").match_key("k", MatchValue::exact(5u8)).action_data("v", 1u8);
    for (kind, expected) in [
        (RequestType::Write, UpdateType::Insert),
        (RequestType::Update, UpdateType::Modify),
        (RequestType::Delete, UpdateType::Delete),
        (RequestType::Operation, UpdateType::Insert),
    ] {
        let batch = vec![base.clone().request_type(kind), base.clone().request_type(kind)];
        match c.dispatch_request(&batch).unwrap() {
            WireCall::Write(req) => {
                assert_eq!(req.atomicity, 0);
                assert_eq!(req.p4_name, "prog");
                assert_eq!(req.client_id, 4);
                assert_eq!(req.updates.len(), 2);
                assert_eq!(req.updates[0].update_type, expected);
                match (&kind, &req.updates[1].entity) {
                    (RequestType::Operation, Entity::TableOperation(o)) => assert_eq!(o.table_id, 2),
                    (RequestType::Delete, Entity::TableEntry(e)) => assert_eq!(e.data, None),
                    (_, Entity::TableEntry(e)) => assert!(e.data.is_some()),
                    other => panic!("unexpected: {:?}", other),
                }
            }
            other => panic!("unexpected: {:?}", other),
        }
    }
}

#[test]
fn dispatch_goes_by_first_request() {
    let c = ready();
    let batch = vec![
        Request::new("ingress.t2").request_type(RequestType::Read),
        Request::new("ingress.t2").request_type(RequestType::Write).operation(TableOperation::SyncCounters),
    ];
    assert!(matches!(c.dispatch_request(&batch).unwrap(), WireCall::Read(_)));
}

#[test]
fn dispatch_reports_first_error() {
    let c = ready();
    let batch = vec![Request::new("ingress.t1"), Request::new("nope"), Request::new("nope2")];
    assert_eq!(
        c.dispatch_request(&batch).unwrap_err(),
        RBFRTError::UnknownTable { table_name: "nope".to_string() }
    );
    let batch = vec![Request::new("ingress.t1").match_key("x", MatchValue::exact(1u8)).request_type(RequestType::Delete)];
    assert!(matches!(c.dispatch_request(&batch), Err(RBFRTError::UnknownKeyName { .. })));
}

fn read_entity(table_id: u32, key: u8, value: u8) -> Entity {
    Entity::TableEntry(WireEntry {
        table_id,
        data: Some(TableData {
            action_id: 0,
            fields: vec![DataField { field_id: 2, value: DataValue::Stream(vec![0, 0, 0, value]) }],
        }),
        is_default_entry: false,
        entry_tgt: None,
        value: Some(TableValue::Key(TableKey {
            fields: vec![KeyField { field_id: 1, match_type: MatchType::Exact { value: vec![0, key] } }],
        })),
    })
}

#[test]
fn read_response_is_decoded_entry_by_entry() {
    let c = ready();
    let entries = c.parse_read_response(vec![read_entity(2, 1, 10), read_entity(1, 2, 20)]).unwrap();
    assert_eq!(entries.len(), 2);
    assert_eq!(entries[0].table_name, "ingress.t2");
    assert_eq!(entries[0].table_id, 2);
    assert_eq!(entries[0].get_key("k").unwrap(), &MatchValue::ExactValue { bytes: vec![0, 1] });
    assert_eq!(entries[0].get_action_data("v").unwrap().as_u32(), 10);
    assert_eq!(entries[0].action, "NoAction");
    assert_eq!(entries[1].table_name, "pipe.ingress.t1");
    assert_eq!(entries[1].get_action_data("v").unwrap().as_u32(), 20);
    assert_eq!(c.parse_read_response(vec![]).unwrap().len(), 0);
}

#[test]
fn read_response_errors() {
    let c = ready();
    assert_eq!(
        c.parse_read_response(vec![read_entity(1, 1, 1), Entity::TableUsage]).unwrap_err(),
        RBFRTError::UnknownReadResult {}
    );
    assert_eq!(
        c.parse_read_response(vec![read_entity(55, 1, 1)]).unwrap_err(),
        RBFRTError::UnknownTableId { table_id: 55 }
    );
}

fn record(fields: Vec<(u32, DataValue)>) -> TableData {
    TableData {
        action_id: 0,
        fields: fields.into_iter().map(|(field_id, value)| DataField { field_id, value }).collect(),
    }
}

#[test]
fn digest_record_is_decoded_by_field_names() {
    let d = decode_record(&filter(), &record(vec![(1, DataValue::Stream(vec![5])), (2, DataValue::Stream(vec![9]))]));
    assert_eq!(d.name, "pipe.ingress.digest");
    assert_eq!(d.data.len(), 2);
    assert_eq!(d.data.get("a"), Some(&vec![5u8]));
    assert_eq!(d.data.get("b"), Some(&vec![9u8]));
}

#[test]
fn digest_record_skips_what_does_not_resolve() {
    let d = decode_record(
        &filter(),
        &record(vec![
            (1, DataValue::Stream(vec![5])),
            (3, DataValue::Stream(vec![7])),
            (2, DataValue::Stream(vec![9])),
        ]),
    );
    assert_eq!(d.data.len(), 2);
    assert_eq!(d.data.get("a"), Some(&vec![5u8]));
    assert_eq!(d.data.get("b"), Some(&vec![9u8]));
    let d = decode_record(&filter(), &record(vec![(1, DataValue::BoolVal(true)), (3, DataValue::Stream(vec![7]))]));
    assert_eq!(d.name, "pipe.ingress.digest");
    assert!(d.data.is_empty());
    let d = decode_record(&filter(), &record(vec![(1, DataValue::Stream(vec![1])), (1, DataValue::Stream(vec![2]))]));
    assert_eq!(d.data.len(), 1);
    assert_eq!(d.data.get("a"), Some(&vec![2u8]));
}

#[test]
fn digest_list_gives_one_digest_per_record() {
    let info = program();
    let list = DigestList {
        digest_id: 7,
        list_id: 1,
        data: vec![record(vec![(1, DataValue::Stream(vec![1]))]), record(vec![]), record(vec![(2, DataValue::Stream(vec![2]))])],
        target: None,
    };
    let digests = decode_digest_list(&info, &list);
    assert_eq!(digests.len(), 3);
    assert_eq!(digests[0].data.get("a"), Some(&vec![1u8]));
    assert!(digests[1].data.is_empty());
    assert_eq!(digests[2].data.get("b"), Some(&vec![2u8]));
    let unknown = DigestList { digest_id: 8, list_id: 1, data: vec![record(vec![])], target: None };
    assert!(decode_digest_list(&info, &unknown).is_empty());
    assert!(decode_digest_list(&platform(), &list).is_empty());
}

#[test]
fn only_digests_are_decoded_and_only_two_kinds_relayed() {
    let info = program();
    let list = DigestList { digest_id: 7, list_id: 1, data: vec![record(vec![])], target: None };
    assert_eq!(decode_notification(&info, &StreamMessageResponse::Digest(list.clone())).len(), 1);
    assert!(decode_notification(&info, &ack(0)).is_empty());
    assert!(decode_notification(&info, &StreamMessageResponse::IdleTimeoutNotification).is_empty());
    assert!(relay_filter(&ack(0)));
    assert!(relay_filter(&StreamMessageResponse::Digest(list)));
    assert!(!relay_filter(&StreamMessageResponse::IdleTimeoutNotification));
    assert!(!relay_filter(&StreamMessageResponse::PortStatusChangeNotification));
    assert!(!relay_filter(&StreamMessageResponse::SetForwardingPipelineConfigResponse));
    assert_eq!(DIGEST_QUEUE_SIZE, 10000);
}

#[test]
fn bind_and_upload_requests() {
    let bind = bind_request(3, 4, "prog");
    assert_eq!(bind.device_id, 3);
    assert_eq!(bind.client_id, 4);
    assert_eq!(bind.action, ConfigAction::Bind);
    assert_eq!(bind.dev_init_mode, DevInitMode::FastReconfig);
    assert_eq!(bind.base_path, "");
    assert_eq!(
        bind.config,
        vec![ForwardingPipelineConfig { p4_name: "prog".to_string(), bfruntime_info: vec![], profiles: vec![] }]
    );
    let program = ForwardingPipelineConfig {
        p4_name: "p".to_string(),
        bfruntime_info: vec![1],
        profiles: vec![Profile {
            profile_name: "pipe".to_string(),
            context: vec![2],
            binary: vec![3],
            pipe_scope: vec![0, 1],
        }],
    };
    let upload = upload_request(1, 2, vec![program.clone()]);
    assert_eq!(upload.device_id, 1);
    assert_eq!(upload.client_id, 2);
    assert_eq!(upload.action, ConfigAction::VerifyAndWarmInitBeginAndEnd);
    assert_eq!(upload.dev_init_mode, DevInitMode::FastReconfig);
    assert_eq!(upload.base_path, "");
    assert_eq!(upload.config, vec![program]);
}

#[test]
fn requests_are_tagged_with_the_kind_of_the_batch() {
    let batch = vec![Request::new("a").pipe(1), Request::new("b").request_type(RequestType::Delete)];
    let tagged = tag_requests(&batch, RequestType::Update);
    assert_eq!(tagged.len(), 2);
    assert_eq!(*tagged[0].get_type(), RequestType::Update);
    assert_eq!(*tagged[1].get_type(), RequestType::Update);
    assert_eq!(tagged[0].get_table_name(), "a");
    assert_eq!(tagged[0].get_pipe(), Some(1));
    assert_eq!(*batch[0].get_type(), RequestType::Read);
    let clear = clear_requests(&vec!["t1".to_string(), "t2".to_string()]);
    assert_eq!(clear.len(), 2);
    assert_eq!(clear[1].get_table_name(), "t2");
    assert_eq!(*clear[1].get_type(), RequestType::Delete);
    assert!(clear[1].get_match_keys().is_empty());
}

#[test]
fn prepare_tags_and_dispatches() {
    let c = ready();
    let batch = vec![Request::new("ingress.t2").match_key("k", MatchValue::exact(5u8)).action_data("v", 1u8)];
    match c.prepare(&batch, RequestType::Update).unwrap() {
        WireCall::Write(req) => assert_eq!(req.updates[0].update_type, UpdateType::Modify),
        other => panic!("unexpected: {:?}", other),
    }
    assert!(matches!(c.prepare(&batch, RequestType::Read).unwrap(), WireCall::Read(_)));
    assert_eq!(c.prepare(&vec![], RequestType::Write).unwrap_err(), RBFRTError::RequestEmpty {});
}

#[test]
fn schema_snapshot_equals_the_schema() {
    let c = ready();
    let snapshot = c.schema_snapshot().unwrap();
    assert_eq!(snapshot.table_get("ingress.t1").unwrap().id(), 1);
    assert_eq!(snapshot.table_get("$PORT").unwrap().id(), 100);
    assert_eq!(snapshot.table_get("ingress.t2").unwrap().get_key_by_name("k").unwrap().id(), 1);
    assert_eq!(snapshot.table_get("ingress.t2").unwrap().get_singleton_by_id(2).unwrap().name(), "v");
    assert_eq!(snapshot.learn_filter_get(7).unwrap().get_data_field_name_by_id(2).unwrap(), "b");
    assert_eq!(snapshot.tables().len(), 3);
    let fresh = SwitchConnection::builder("sw", 1).build();
    assert!(fresh.schema_snapshot().is_none());
}
