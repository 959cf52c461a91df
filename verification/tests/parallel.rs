use tornado_monitoring::parallel::{schedule, start_request, IcingaObjectId, Scheduling};

fn id(host: &str, service: Option<&str>) -> IcingaObjectId {
    IcingaObjectId { host: Some(host.to_string()), service: service.map(|s| s.to_string()) }
}

#[test]
fn finished_requests_leave_and_the_new_one_comes_last() {
    let running = vec![(id("a", None), 1), (id("b", None), 2), (id("c", None), 3)];
    let res = start_request(running, &vec![false, true, false], (id("d", None), 4));
    assert_eq!(res, vec![(id("a", None), 1), (id("c", None), 3), (id("d", None), 4)]);
}

#[test]
fn request_for_a_running_object_replaces_it() {
    let running = vec![(id("a", None), 1), (id("b", Some("x")), 2)];
    let objects: Vec<IcingaObjectId> = running.iter().map(|r| r.0.clone()).collect();
    let next = id("b", Some("x"));
    assert_eq!(schedule(&objects, &next, 2), Scheduling::WaitFor(1));
    let res = start_request(running, &vec![false, true], (next.clone(), 3));
    assert_eq!(res, vec![(id("a", None), 1), (next, 3)]);
}

#[test]
fn full_executor_frees_a_place_first() {
    let running = vec![(id("a", None), 1), (id("b", None), 2)];
    let objects: Vec<IcingaObjectId> = running.iter().map(|r| r.0.clone()).collect();
    assert_eq!(schedule(&objects, &id("c", None), 2), Scheduling::WaitForAny);
    let res = start_request(running, &vec![true, false], (id("c", None), 3));
    assert_eq!(res.len(), 2);
    assert!(!res[0].0.same_as(&res[1].0));
}

#[test]
fn nothing_running_starts_at_once() {
    assert_eq!(schedule(&vec![], &id("a", None), 1), Scheduling::Start);
    let res = start_request(Vec::new(), &vec![], (id("a", None), 0u8));
    assert_eq!(res, vec![(id("a", None), 0)]);
}

#[test]
fn a_run_keeps_one_request_per_object() {
    let mut running: Vec<(IcingaObjectId, u32)> = Vec::new();
    let objects = |r: &Vec<(IcingaObjectId, u32)>| r.iter().map(|x| x.0.clone()).collect::<Vec<_>>();

    assert_eq!(schedule(&objects(&running), &id("a", None), 2), Scheduling::Start);
    running = start_request(running, &vec![], (id("a", None), 1));
    assert_eq!(schedule(&objects(&running), &id("b", None), 2), Scheduling::Start);
    running = start_request(running, &vec![false], (id("b", None), 2));
    assert_eq!(schedule(&objects(&running), &id("a", None), 2), Scheduling::WaitFor(0));
    running = start_request(running, &vec![true, false], (id("a", None), 3));
    assert_eq!(running, vec![(id("b", None), 2), (id("a", None), 3)]);
    assert_eq!(schedule(&objects(&running), &id("c", None), 2), Scheduling::WaitForAny);
    running = start_request(running, &vec![false, true], (id("c", None), 4));
    assert_eq!(running, vec![(id("b", None), 2), (id("c", None), 4)]);
}
