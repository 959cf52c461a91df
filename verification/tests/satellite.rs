use tornado_monitoring::icinga::check_result::{
    CheckResultParams, Command, HostCheckResult, HostState,
};
use tornado_monitoring::icinga::config::{Host, Service};
use tornado_monitoring::icinga::log_position::LogPosition;
use tornado_monitoring::icinga::object_store::IcingaObjectStore;
use tornado_monitoring::icinga::rpc::{IcingaMethods, JsonRpc};
use tornado_monitoring::icinga::timestamp::IcingaTimestamp;
use tornado_monitoring::icinga::update_object::{
    DeleteObject, IcingaObjectType, UpdateObjectParams, UpdateObjectParamsCreationError,
};
use tornado_monitoring::metrics::{increment_processing_attempt_counter, ActionMeter, AttemptResult};
use tornado_monitoring::executor::ExecutorError;
use tornado_monitoring::parallel::{schedule, IcingaObjectId, Params, Scheduling};
use tornado_monitoring::satellite::{
    acknowledge_step, acknowledge_stored, ca_file_name, cert_file_name, check_icinga_hello,
    collect_remaining, connection_address, fpr_file_name, icinga_hello_message, key_file_name,
    merge_dropped, plan_send, receiver_step, sender_step, QueueEvent, QueueStep, ReadOutcome,
    ReceiverDecision, SenderDecision, SenderIoAction, SetStateRequest, UpdateObject,
};
use tornado_monitoring::value::FloatBits;
use tornado_monitoring::icinga::certification::RequestCertificate;
use tornado_monitoring::icinga::hello::{Capabilities, IcingaHelloParams};
use tornado_monitoring::satellite::{heartbeat_message, request_certificate_message, ICINGA_VERSION};

fn host(name: &str) -> Host {
    Host {
        name: name.to_string(),
        check_command: Some(Command::String("dummy".to_string())),
        ..Host::default()
    }
}

fn request(host_name: &str, service: Option<&str>) -> SetStateRequest {
    SetStateRequest {
        host: host(host_name),
        service: service.map(|s| Service { name: s.to_string(), ..Service::default() }),
        check_result: CheckResultParams::for_host(
            host_name.to_string(),
            HostCheckResult { state: HostState::UP, cr: Box::default() },
        ),
    }
}

#[test]
fn unknown_host_is_created_before_its_check_result() {
    let store = IcingaObjectStore::new();
    let plan = plan_send(&store, &request("myHost", None));
    assert!(plan.refused.is_none());
    assert_eq!(plan.updates.len(), 1);
    let params = &plan.updates[0];
    assert_eq!(params.name(), "myHost");
    assert_eq!(params.object_type(), IcingaObjectType::Host);
    assert_eq!(
        params.config(),
        &Some("object Host \"myHost\" {\n    check_command = \"dummy\"\n}".to_string())
    );
}

#[test]
fn known_host_needs_no_creation() {
    let mut store = IcingaObjectStore::new();
    store.insert("myHost".to_string());
    let plan = plan_send(&store, &request("myHost", None));
    assert!(plan.updates.is_empty());
    assert!(plan.refused.is_none());
}

#[test]
fn service_of_unknown_host_is_created_with_the_host_configuration() {
    let store = IcingaObjectStore::new();
    let plan = plan_send(&store, &request("h", Some("ping")));
    assert_eq!(plan.updates.len(), 2);
    assert_eq!(plan.updates[1].name(), "h!ping");
    assert_eq!(plan.updates[1].object_type(), IcingaObjectType::Service);
    assert_eq!(plan.updates[1].config(), plan.updates[0].config());
}

#[test]
fn host_name_with_separator_drops_the_request() {
    let store = IcingaObjectStore::new();
    let plan = plan_send(&store, &request("a!b", None));
    assert!(plan.updates.is_empty());
    assert_eq!(
        plan.refused,
        Some(UpdateObjectParamsCreationError::InvalidName(
            "Invalid name for host. Object can not contain an exclamation point: a!b".to_string()
        ))
    );
}

#[test]
fn refused_service_keeps_the_host_creation() {
    let store = IcingaObjectStore::new();
    let plan = plan_send(&store, &request("h", Some("x!y")));
    assert_eq!(plan.updates.len(), 1);
    assert!(plan.refused.is_some());
}

#[test]
fn sender_steps_update_the_known_objects() {
    let mut store = IcingaObjectStore::new();
    let decision = sender_step(
        &mut store,
        Some(SenderIoAction::UpdateState(UpdateObject::Update { name: "myHost".to_string() })),
    );
    assert!(matches!(decision, SenderDecision::Continue));
    match sender_step(&mut store, Some(SenderIoAction::Send(request("myHost", None)))) {
        SenderDecision::Send(r, plan) => {
            assert_eq!(r.host.name, "myHost");
            assert!(plan.updates.is_empty());
        }
        _ => panic!("expected a send"),
    }
    sender_step(
        &mut store,
        Some(SenderIoAction::UpdateState(UpdateObject::Delete { name: "myHost".to_string() })),
    );
    assert!(!store.exists_object("myHost"));
    assert!(matches!(sender_step(&mut store, Some(SenderIoAction::Heartbeat)), SenderDecision::SendHeartbeat));
    assert!(matches!(sender_step(&mut store, Some(SenderIoAction::Abort)), SenderDecision::Abort));
    assert!(matches!(sender_step(&mut store, None), SenderDecision::Stop));
}

#[test]
fn receiver_forwards_object_updates() {
    let update = UpdateObjectParams::create_host("myHost").unwrap().build();
    let decision = receiver_step(ReadOutcome::Message(JsonRpc::from_method(IcingaMethods::UpdateObject(update))));
    match decision {
        ReceiverDecision::Forward(UpdateObject::Update { name }) => assert_eq!(name, "myHost"),
        other => panic!("unexpected {:?}", other),
    }
    let delete = DeleteObject::from_parts("h!s".to_string(), IcingaObjectType::Service, FloatBits { bits: 0 });
    match receiver_step(ReadOutcome::Message(JsonRpc::from_method(IcingaMethods::DeleteObject(delete)))) {
        ReceiverDecision::Forward(UpdateObject::Delete { name }) => assert_eq!(name, "h!s"),
        other => panic!("unexpected {:?}", other),
    }
    assert!(matches!(receiver_step(ReadOutcome::Malformed), ReceiverDecision::Continue));
    assert!(matches!(receiver_step(ReadOutcome::Timeout), ReceiverDecision::Stop));
    assert!(matches!(receiver_step(ReadOutcome::ConnectionError), ReceiverDecision::Stop));
    assert!(matches!(
        receiver_step(ReadOutcome::Message(JsonRpc::from_method(IcingaMethods::HeartBeats {}))),
        ReceiverDecision::HeartbeatReceived
    ));
    assert!(matches!(
        receiver_step(ReadOutcome::Message(JsonRpc::from_method(IcingaMethods::SetNextCheck {}))),
        ReceiverDecision::Continue
    ));
    let position = LogPosition::at(IcingaTimestamp::from_parts(3, 0));
    match receiver_step(ReadOutcome::Message(JsonRpc::from_method(IcingaMethods::SetLogPosition(position)))) {
        ReceiverDecision::Acknowledge(p) => assert_eq!(p, position),
        other => panic!("unexpected {:?}", other),
    }
}

#[test]
fn acknowledged_calls_are_dropped() {
    let position = LogPosition::at(IcingaTimestamp::from_parts(10, 0));
    let mut stored = Some((IcingaTimestamp::from_parts(9, 0), request("old", None)));
    assert!(!acknowledge_stored(&mut stored, position));
    assert!(stored.is_none());
    let step = acknowledge_step(&mut stored, QueueEvent::Received((IcingaTimestamp::from_parts(9, 999_999), request("older", None))), position);
    assert_eq!(step, QueueStep::Continue);
    assert!(stored.is_none());
    let step = acknowledge_step(&mut stored, QueueEvent::Received((IcingaTimestamp::from_parts(10, 0), request("new", None))), position);
    assert_eq!(step, QueueStep::Done);
    assert_eq!(stored.as_ref().unwrap().1.host.name, "new");
    assert!(acknowledge_stored(&mut stored, position));
    assert!(stored.is_some());
    let mut empty = None;
    assert_eq!(acknowledge_step(&mut empty, QueueEvent::Empty, position), QueueStep::Done);
    assert_eq!(acknowledge_step(&mut empty, QueueEvent::Disconnected, position), QueueStep::Closed);
}

#[test]
fn remaining_requests_keep_their_order() {
    let stored = Some((IcingaTimestamp::null(), request("a", None)));
    let queued = vec![
        (IcingaTimestamp::null(), request("b", None)),
        (IcingaTimestamp::null(), request("c", None)),
    ];
    let names: Vec<String> = collect_remaining(stored, queued).into_iter().map(|r| r.host.name).collect();
    assert_eq!(names, vec!["a", "b", "c"]);
    let merged = merge_dropped(Some(vec![request("x", None)]), Some(vec![request("y", None)])).unwrap();
    let names: Vec<String> = merged.into_iter().map(|r| r.host.name).collect();
    assert_eq!(names, vec!["x", "y"]);
    assert!(merge_dropped(None, Some(vec![request("y", None)])).is_none());
}

#[test]
fn describe_request() {
    assert_eq!(
        request("h", Some("s")).describe(),
        "SetStateRequest { object Host \"h\" {\n    check_command = \"dummy\"\n}!s }"
    );
}

#[test]
fn hello_and_files() {
    let hello = icinga_hello_message();
    match hello.method() {
        IcingaMethods::Hello(p) => {
            assert_eq!(p.version, 21300);
            assert!(!p.capabilities.execute_arbitrary_command());
        }
        _ => panic!("expected hello"),
    }
    assert!(check_icinga_hello(hello).is_ok());
    assert_eq!(
        check_icinga_hello(JsonRpc::from_method(IcingaMethods::HeartBeats {})),
        Err("Expected icinga::Hello as first message.".to_string())
    );
    assert_eq!(connection_address("icinga-master", 5665), "icinga-master:5665");
    assert_eq!(ca_file_name(), "ca.crt");
    assert_eq!(cert_file_name("sat"), "sat.crt");
    assert_eq!(key_file_name("sat"), "sat.key");
    assert_eq!(fpr_file_name("sat"), "sat.fingerprint");
}

#[test]
fn scheduling_waits_for_the_same_object() {
    let id = |h: &str, s: Option<&str>| IcingaObjectId { host: Some(h.to_string()), service: s.map(|x| x.to_string()) };
    let running = vec![id("a", None), id("b", Some("x")), id("b", None)];
    assert_eq!(schedule(&running, &id("b", None), 10), Scheduling::WaitFor(2));
    assert_eq!(schedule(&running, &id("c", None), 3), Scheduling::WaitForAny);
    assert_eq!(schedule(&running, &id("c", None), 4), Scheduling::Start);
}

#[test]
fn random_choices_cover_all_weights() {
    let params = Params { host: 1, service: 1, weights: Some(vec![5, 1, 3]) };
    let (weights, choices) = params.get_random().unwrap();
    assert_eq!(weights, &[5, 1, 3]);
    assert_eq!(choices, vec![0, 1, 2]);
    assert!(Params { host: 1, service: 1, weights: None }.get_random().is_none());
}

#[test]
fn attempts_are_counted_per_action_and_outcome() {
    let mut meter = ActionMeter::new();
    increment_processing_attempt_counter(&Ok(()), "a".to_string(), &mut meter);
    increment_processing_attempt_counter(&Ok(()), "a".to_string(), &mut meter);
    increment_processing_attempt_counter(
        &Err(ExecutorError::ConfigurationError { message: "x".to_string() }),
        "a".to_string(),
        &mut meter,
    );
    assert_eq!(meter.count("a", AttemptResult::Success), 2);
    assert_eq!(meter.count("a", AttemptResult::Failure), 1);
    assert_eq!(meter.count("b", AttemptResult::Success), 0);
}

fn set_host_state_test_request() -> SetStateRequest {
    SetStateRequest {
        host: Host {
            name: "myHost".to_string(),
            import: None,
            check_command: Some("dummy".to_string().into()),
            zone: None,
            groups: None,
            address: None,
            address6: None,
            max_check_attempts: None,
            check_interval: None,
            retry_interval: None,
            enable_active_checks: None,
            vars: None,
        },
        service: None,
        check_result: CheckResultParams::for_host(
            "myHost".to_string(),
            HostCheckResult { state: HostState::UP, cr: Box::default() },
        ),
    }
}

#[test]
fn should_send_icinga_hello() {
    let hello = icinga_hello_message();
    assert_eq!(hello.get_timestamp(), None);
    match hello.method() {
        IcingaMethods::Hello(params) => {
            assert_eq!(params.version, 21300);
            assert_eq!(params.version, ICINGA_VERSION);
            assert_eq!(params.capabilities.bits(), 0);
        }
        other => panic!("unexpected {other:?}"),
    }
}

#[test]
fn should_receive_icinga_hello() {
    let params = IcingaHelloParams { capabilities: Capabilities::from_bits(0), version: 21300 };
    let received = JsonRpc::from_method(IcingaMethods::Hello(params));
    assert_eq!(check_icinga_hello(received), Ok(params));
    assert_eq!(
        check_icinga_hello(heartbeat_message()),
        Err("Expected icinga::Hello as first message.".to_string())
    );
}

#[test]
fn should_send_request_certificate() {
    let message = request_certificate_message(
        "2e37eb916e2aef528b517bc7c49e530b70582329".to_string(),
        "-----BEGIN CERTIFICATE REQUEST-----".to_string(),
    );
    assert_eq!(
        message.method(),
        &IcingaMethods::RequestCertificate(RequestCertificate {
            ticket: "2e37eb916e2aef528b517bc7c49e530b70582329".to_string(),
            cert_request: Some("-----BEGIN CERTIFICATE REQUEST-----".to_string()),
        })
    );
    assert_eq!(message.get_timestamp(), None);
}

#[test]
fn test_create_object_before_check_result() {
    let mut store = IcingaObjectStore::new();
    match sender_step(&mut store, Some(SenderIoAction::Send(set_host_state_test_request()))) {
        SenderDecision::Send(request, plan) => {
            assert_eq!(request, set_host_state_test_request());
            assert!(plan.refused.is_none());
            assert_eq!(plan.updates.len(), 1);
            let create = &plan.updates[0];
            assert_eq!(create.name(), "myHost");
            assert_eq!(create.object_type(), IcingaObjectType::Host);
            assert_eq!(create.version(), FloatBits { bits: 0.0f64.to_bits() });
            assert_eq!(
                create.config(),
                &Some("object Host \"myHost\" {\n    check_command = \"dummy\"\n}".to_string())
            );
        }
        other => panic!("unexpected {other:?}"),
    }
}

#[test]
fn test_sender_check_result_on_existing_object() {
    let mut store = IcingaObjectStore::new();
    let update = SenderIoAction::UpdateState(UpdateObject::Update { name: "myHost".to_string() });
    assert!(matches!(sender_step(&mut store, Some(update)), SenderDecision::Continue));
    match sender_step(&mut store, Some(SenderIoAction::Send(set_host_state_test_request()))) {
        SenderDecision::Send(request, plan) => {
            assert_eq!(request, set_host_state_test_request());
            assert!(plan.refused.is_none());
            assert!(plan.updates.is_empty());
        }
        other => panic!("unexpected {other:?}"),
    }
}

#[test]
fn test_receiver_handle_update_object_messages() {
    let update_object_request = JsonRpc::from_method(IcingaMethods::UpdateObject(
        UpdateObjectParams::create_host("myHost").unwrap().build(),
    ));
    match receiver_step(ReadOutcome::Message(update_object_request)) {
        ReceiverDecision::Forward(update) => {
            assert_eq!(UpdateObject::Update { name: "myHost".to_string() }, update)
        }
        other => panic!("unexpected {other:?}"),
    }
}

#[test]
fn test_receiver_return_dropped_messages() {
    assert!(matches!(receiver_step(ReadOutcome::ConnectionError), ReceiverDecision::Stop));
    let remaining =
        collect_remaining(None, vec![(IcingaTimestamp::now(), set_host_state_test_request())]);
    assert_eq!(vec![set_host_state_test_request()], remaining);
}

#[test]
fn undelivered_request_comes_before_the_rest() {
    let rest = vec![request("b", None), request("c", Some("s"))];
    let res = tornado_monitoring::satellite::undelivered(request("a", None), rest);
    assert_eq!(res, vec![request("a", None), request("b", None), request("c", Some("s"))]);
}


#[test]
fn check_result_is_queued_and_a_failed_send_stops() {
    let ts = IcingaTimestamp::from_parts(1_700_000_000, 42);
    let now = IcingaTimestamp::from_parts(1_800_000_000, 7);
    let ((queued_ts, queued), stop) =
        tornado_monitoring::satellite::after_check_result(request("h", None), Some(Some(ts)), now);
    assert_eq!(queued_ts, ts);
    assert_eq!(queued, request("h", None));
    assert!(!stop);

    let ((queued_ts, queued), stop) =
        tornado_monitoring::satellite::after_check_result(request("h", Some("s")), None, now);
    assert_eq!(queued_ts, now);
    assert_eq!(queued, request("h", Some("s")));
    assert!(stop);

    let ((queued_ts, _), stop) =
        tornado_monitoring::satellite::after_check_result(request("h", None), Some(None), now);
    assert_eq!(queued_ts, now);
    assert!(!stop);
}

#[test]
fn pending_calls_wait_under_the_message_timestamp() {
    let ts = IcingaTimestamp::from_parts(5, 6);
    let now = IcingaTimestamp::from_parts(9, 0);
    assert_eq!(tornado_monitoring::satellite::pending_call_timestamp(Some(ts), now), ts);
    assert_eq!(tornado_monitoring::satellite::pending_call_timestamp(None, now), now);
}

fn pending(sec: u64, host: &str) -> tornado_monitoring::satellite::IcingaPendingCall {
    (IcingaTimestamp::from_parts(sec, 0), request(host, None))
}

fn drain(
    stored: &mut Option<tornado_monitoring::satellite::IcingaPendingCall>,
    position: u64,
    queue: Vec<QueueEvent>,
) -> (Result<(), ()>, usize) {
    let queue = std::cell::RefCell::new(queue);
    let res = tornado_monitoring::satellite::drop_acknowledged(
        stored,
        LogPosition::at(IcingaTimestamp::from_parts(position, 0)),
        || queue.borrow_mut().remove(0),
    );
    let left = queue.borrow().len();
    (res, left)
}

#[test]
fn drain_keeps_a_stored_call_that_still_waits() {
    let mut stored = Some(pending(10, "a"));
    let (res, left) = drain(&mut stored, 10, vec![QueueEvent::Received(pending(1, "b"))]);
    assert_eq!(res, Ok(()));
    assert_eq!(left, 1);
    assert_eq!(stored, Some(pending(10, "a")));
}

#[test]
fn drain_drops_acknowledged_calls_in_order_and_keeps_the_first_waiting() {
    let mut stored = Some(pending(1, "a"));
    let queue = vec![
        QueueEvent::Received(pending(2, "b")),
        QueueEvent::Received(pending(3, "c")),
        QueueEvent::Received(pending(5, "d")),
        QueueEvent::Received(pending(1, "e")),
    ];
    let (res, left) = drain(&mut stored, 4, queue);
    assert_eq!(res, Ok(()));
    assert_eq!(left, 1);
    assert_eq!(stored, Some(pending(5, "d")));
}

#[test]
fn drain_of_an_empty_or_closed_queue() {
    let mut stored = None;
    let (res, _) = drain(&mut stored, 4, vec![QueueEvent::Received(pending(2, "b")), QueueEvent::Empty]);
    assert_eq!(res, Ok(()));
    assert_eq!(stored, None);
    let (res, _) = drain(&mut stored, 4, vec![QueueEvent::Disconnected]);
    assert_eq!(res, Err(()));
    assert_eq!(stored, None);
}
