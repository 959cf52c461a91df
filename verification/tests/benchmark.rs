use tornado_monitoring::benchmark;
use tornado_monitoring::icinga::check_result::{CheckResultParams, Command, HostState, ServiceState};
use tornado_monitoring::parallel::{
    generate_requests, generate_requests_random, requests_for_hosts, Params,
    SimpleCreateAndProcess,
};
use tornado_monitoring::satellite::{check_root_certificates, first_private_key};
use tornado_monitoring::value::{Value, ValueMap};

fn text<'a>(map: &'a ValueMap, key: &str) -> &'a str {
    map.get(key).and_then(|v| v.get_text()).map(|s| s.as_str()).unwrap()
}

fn keys(map: &ValueMap) -> Vec<&str> {
    map.entries.iter().map(|(k, _)| k.as_str()).collect()
}

fn assert_parallel_request(r: &SimpleCreateAndProcess, host_number: usize, with_service: bool) {
    assert_eq!(keys(&r.host), vec!["address", "check_command", "object_name", "vars"]);
    assert_eq!(text(&r.host, "object_name"), format!("myhost-{host_number:06}"));
    assert_eq!(text(&r.host, "address"), "127.0.0.1");
    assert_eq!(text(&r.host, "check_command"), "hostalive");
    let vars = r.host.get("vars").and_then(|v| v.get_map()).unwrap();
    assert_eq!(text(vars, "location"), "Rome");
    assert_eq!(vars.len(), 1);
    assert_eq!(keys(&r.check_result), vec!["exit_status", "plugin_output"]);
    assert_eq!(text(&r.check_result, "exit_status"), "2");
    assert_eq!(text(&r.check_result, "plugin_output"), "Output message");
    match &r.service {
        None => assert!(!with_service),
        Some(service) => {
            assert!(with_service);
            assert_eq!(keys(service), vec!["check_command", "object_name"]);
            assert_eq!(text(service, "object_name"), "myservice");
            assert_eq!(text(service, "check_command"), "ping");
        }
    }
}

#[test]
fn parallel_requests_come_host_first_then_services() {
    let requests = generate_requests(3, 2);
    assert_eq!(requests.len(), 9);
    for h in 0..3 {
        assert_parallel_request(&requests[h * 3], h, false);
        assert_parallel_request(&requests[h * 3 + 1], h, true);
        assert_parallel_request(&requests[h * 3 + 2], h, true);
    }
}

#[test]
fn parallel_requests_without_hosts_are_empty() {
    assert!(generate_requests(0, 5).is_empty());
    let only_hosts = generate_requests(2, 0);
    assert_eq!(only_hosts.len(), 2);
    assert_parallel_request(&only_hosts[1], 1, false);
}

#[test]
fn requests_for_given_hosts_follow_their_order() {
    let requests = requests_for_hosts(&[7, 1234567, 7], 1);
    assert_eq!(requests.len(), 6);
    assert_parallel_request(&requests[0], 7, false);
    assert_parallel_request(&requests[1], 7, true);
    assert_parallel_request(&requests[2], 1234567, false);
    assert_eq!(text(&requests[2].host, "object_name"), "myhost-1234567");
    assert_parallel_request(&requests[5], 7, true);
}

#[test]
fn random_requests_only_draw_weighted_hosts() {
    let params = Params { host: 20, service: 1, weights: Some(vec![0, 3, 0, 1]) };
    let (weights, choices) = params.get_random().unwrap();
    assert_eq!(choices, vec![0, 1, 2, 3]);
    let requests = generate_requests_random(20, 1, weights, &choices);
    assert_eq!(requests.len(), 40);
    for h in 0..20 {
        let name = text(&requests[h * 2].host, "object_name").to_string();
        assert!(name == "myhost-000001" || name == "myhost-000003", "{name}");
        let n: usize = name["myhost-".len()..].parse().unwrap();
        assert_parallel_request(&requests[h * 2], n, false);
        assert_parallel_request(&requests[h * 2 + 1], n, true);
    }
}

#[test]
fn random_requests_with_one_weight_always_draw_it() {
    let requests = generate_requests_random(3, 0, &[5], &[42]);
    assert_eq!(requests.len(), 3);
    for r in &requests {
        assert_parallel_request(r, 42, false);
    }
}

#[test]
fn params_without_weights_are_not_random() {
    let params = Params { host: 1, service: 1, weights: None };
    assert!(params.get_random().is_none());
}

#[test]
fn satellite_requests_of_the_benchmark() {
    let requests = benchmark::generate_requests(2, 2);
    assert_eq!(requests.len(), 6);

    let first = &requests[0];
    assert_eq!(first.host.name, "host-number-000000");
    assert_eq!(first.host.check_command, Some(Command::String("dummy".to_string())));
    assert_eq!(first.host.zone.as_deref(), Some("master"));
    assert_eq!(first.host.address.as_deref(), Some("127.0.0.0"));
    assert_eq!(first.host.max_check_attempts.as_deref(), Some("4"));
    assert_eq!(first.host.enable_active_checks, Some(false));
    assert!(first.service.is_none());

    let service = &requests[4];
    assert_eq!(service.host.name, "host-number-000001");
    assert_eq!(service.host.address.as_deref(), Some("127.0.0.1"));
    assert_eq!(service.host.max_check_attempts.as_deref(), Some("5"));
    let s = service.service.as_ref().unwrap();
    assert_eq!(s.name, "service-number-000");
    assert_eq!(s.host.as_deref(), Some("host-number-000001"));
    assert_eq!(s.enable_active_checks, Some(false));
    assert_eq!(requests[5].service.as_ref().unwrap().name, "service-number-001");

    match &requests[3].check_result {
        CheckResultParams::Host { host, cr } => {
            assert_eq!(host, "host-number-000001");
            assert_eq!(cr.state, HostState::UP);
            assert_eq!(cr.cr.output.as_deref(), Some("host-number-00000002-number-host"));
        }
        other => panic!("unexpected {other:?}"),
    }
}

#[test]
fn check_results_of_the_benchmark() {
    match benchmark::generate_cr(12, 15) {
        CheckResultParams::Host { host, cr } => {
            assert_eq!(host, "host-number-000012");
            assert_eq!(cr.state, HostState::UP);
            assert_eq!(cr.cr.output.as_deref(), Some("host-number-000000b4-number-host"));
            assert_eq!(cr.cr.check_source.as_deref(), Some("host-number-000012"));
            assert_eq!(cr.cr.active, Some(false));
            assert!(cr.cr.exit_status.is_none());
        }
        other => panic!("unexpected {other:?}"),
    }
    match benchmark::generate_cr_service(3, 7) {
        CheckResultParams::Service { host, service, cr } => {
            assert_eq!(host, "host-number-000003");
            assert_eq!(service, "service-number-007");
            assert_eq!(cr.state, ServiceState::OK);
            assert_eq!(cr.cr.output.as_deref(), Some("host-number-00000015-number-host"));
        }
        other => panic!("unexpected {other:?}"),
    }
}

#[test]
fn root_certificates_need_one_and_no_ignored() {
    assert_eq!(check_root_certificates(1, 0), Ok(()));
    assert_eq!(
        check_root_certificates(0, 0),
        Err("Could not load root ca for the icinga satellite. Added: 0, Ignored: 0".to_string())
    );
    assert_eq!(
        check_root_certificates(3, 2),
        Err("Could not load root ca for the icinga satellite. Added: 3, Ignored: 2".to_string())
    );
}

#[test]
fn first_private_key_or_error() {
    assert_eq!(first_private_key(vec![vec![1, 2], vec![3]], "a.key"), Ok(vec![1, 2]));
    assert_eq!(
        first_private_key(vec![], "certs/sat.key"),
        Err("Could not find a rsa key in the file 'certs/sat.key'".to_string())
    );
}

#[test]
fn values_of_requests_are_plain_text() {
    let requests = generate_requests(1, 0);
    assert_eq!(requests[0].host.get("address"), Some(&Value::Text("127.0.0.1".to_string())));
}
