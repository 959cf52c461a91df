use vstd::prelude::*;
use crate::value::str_eq;
use rand::distributions::{Distribution, WeightedError, WeightedIndex};

verus! {

/// The configuration of the parallel smart monitoring executor: how many requests may run at
/// once.
#[derive(Clone, Copy, Debug, PartialEq, Eq)]
pub struct ParallelSmartMonitoringConfig {
    pub max_parallel_requests: usize,
}

/// The object a monitoring request is about: a host, a service of a host, or neither.
#[derive(Clone, Debug, PartialEq, Eq)]
pub struct IcingaObjectId {
    pub host: Option<String>,
    pub service: Option<String>,
}

/// The content of an optional name.
pub open spec fn opt_name(n: Option<String>) -> Option<Seq<char>> {
    match n {
        Some(s) => Some(s@),
        None => None,
    }
}

/// Whether `a` and `b` name the same object.
pub open spec fn same_object(a: IcingaObjectId, b: IcingaObjectId) -> bool {
    opt_name(a.host) == opt_name(b.host) && opt_name(a.service) == opt_name(b.service)
}

fn opt_str_eq(a: &Option<String>, b: &Option<String>) -> (res: bool)
    ensures
        res == (opt_name(*a) == opt_name(*b)),
{
    match (a, b) {
        (Some(x), Some(y)) => str_eq(x.as_str(), y.as_str()),
        (None, None) => true,
        _ => false,
    }
}

impl IcingaObjectId {
    /// Whether `self` and `other` name the same object.
    pub fn same_as(&self, other: &IcingaObjectId) -> (res: bool)
        ensures
            res == same_object(*self, *other),
    {
        opt_str_eq(&self.host, &other.host) && opt_str_eq(&self.service, &other.service)
    }
}

/// What to wait for before a new request starts.
#[derive(Clone, Copy, Debug, PartialEq, Eq)]
pub enum Scheduling {
    /// A request for the same object runs at this index: wait for it and take it out.
    WaitFor(usize),
    /// As many requests as allowed run: wait until any of them ends.
    WaitForAny,
    /// Start at once.
    Start,
}

/// What to wait for before a request about `id` starts, given the objects of the requests that
/// run (`running`) and the most that may run at once: a request for the same object has to end
/// first; else, when the limit is reached, any request.
pub fn schedule(running: &Vec<IcingaObjectId>, id: &IcingaObjectId, max_parallel_requests: usize) -> (res: Scheduling)
    ensures
        is_schedule(running@, *id, max_parallel_requests as nat, res),
{
    let mut i: usize = 0;
    while i < running.len()
        invariant
            i <= running@.len(),
            forall|k: int| 0 <= k < i ==> !same_object(running@[k], *id),
        decreases running.len() - i,
    {
        if running[i].same_as(id) {
            return Scheduling::WaitFor(i);
        }
        i = i + 1;
    }
    if running.len() == max_parallel_requests {
        Scheduling::WaitForAny
    } else {
        Scheduling::Start
    }
}

/// Whether `res` is what `schedule` decides for a request about `id`, given the objects of the
/// requests that run and the most that may run at once.
pub open spec fn is_schedule(running: Seq<IcingaObjectId>, id: IcingaObjectId, max_parallel_requests: nat, res: Scheduling) -> bool {
    match res {
        Scheduling::WaitFor(i) => i < running.len() && same_object(running[i as int], id)
            && forall|k: int| 0 <= k < i ==> !same_object(running[k], id),
        Scheduling::WaitForAny => running.len() == max_parallel_requests
            && forall|k: int| 0 <= k < running.len() ==> !same_object(running[k], id),
        Scheduling::Start => running.len() != max_parallel_requests
            && forall|k: int| 0 <= k < running.len() ==> !same_object(running[k], id),
    }
}

/// Whether no two of `running` are about the same object.
pub open spec fn distinct_objects(running: Seq<IcingaObjectId>) -> bool {
    forall|i: int, j: int| 0 <= i < j < running.len() ==> !same_object(#[trigger] running[i], #[trigger] running[j])
}

/// The requests of `running` that keep running, those whose `finished` flag is not set, in
/// order.
pub open spec fn unfinished<T>(running: Seq<T>, finished: Seq<bool>) -> Seq<T>
    decreases running.len(),
{
    if running.len() == 0 {
        Seq::empty()
    } else {
        let rest = unfinished(running.drop_last(), finished);
        if finished[running.len() - 1] {
            rest
        } else {
            rest.push(running.last())
        }
    }
}

proof fn lemma_unfinished<T>(running: Seq<T>, finished: Seq<bool>)
    ensures
        unfinished(running, finished).len() <= running.len(),
        (exists|j: int| 0 <= j < running.len() && finished[j]) ==> unfinished(running, finished).len() < running.len(),
        forall|x: int| 0 <= x < unfinished(running, finished).len() ==> exists|k: int|
            0 <= k < running.len() && !finished[k] && #[trigger] unfinished(running, finished)[x] == running[k],
    decreases running.len(),
{
    if running.len() > 0 {
        let prefix = running.drop_last();
        let last: int = running.len() - 1;
        lemma_unfinished(prefix, finished);
        let rest = unfinished(prefix, finished);
        assert forall|x: int| 0 <= x < unfinished(running, finished).len() implies exists|k: int|
            0 <= k < running.len() && !finished[k] && #[trigger] unfinished(running, finished)[x] == running[k] by {
            if x < rest.len() {
                let k = choose|k: int| 0 <= k < prefix.len() && !finished[k] && rest[x] == prefix[k];
                assert(running[k] == prefix[k]);
            } else {
                assert(unfinished(running, finished)[x] == running[last]);
            }
        }
        if exists|j: int| 0 <= j < running.len() && finished[j] {
            let j = choose|j: int| 0 <= j < running.len() && finished[j];
            if j < last {
                assert(prefix[j] == running[j]);
            }
        }
    }
}

proof fn lemma_unfinished_distinct(running: Seq<IcingaObjectId>, finished: Seq<bool>)
    requires
        distinct_objects(running),
    ensures
        distinct_objects(unfinished(running, finished)),
    decreases running.len(),
{
    if running.len() > 0 {
        let prefix = running.drop_last();
        let last: int = running.len() - 1;
        assert(distinct_objects(prefix)) by {
            assert forall|i: int, j: int| 0 <= i < j < prefix.len() implies !same_object(#[trigger] prefix[i], #[trigger] prefix[j]) by {
                assert(prefix[i] == running[i] && prefix[j] == running[j]);
            }
        }
        lemma_unfinished_distinct(prefix, finished);
        lemma_unfinished(prefix, finished);
        let rest = unfinished(prefix, finished);
        if !finished[last] {
            let all = rest.push(running[last]);
            assert forall|i: int, j: int| 0 <= i < j < all.len() implies !same_object(#[trigger] all[i], #[trigger] all[j]) by {
                if j == rest.len() {
                    let k = choose|k: int| 0 <= k < prefix.len() && !finished[k] && rest[i] == prefix[k];
                    assert(prefix[k] == running[k]);
                    assert(!same_object(running[k], running[last]));
                } else {
                    assert(all[i] == rest[i] && all[j] == rest[j]);
                }
            }
        }
    }
}

/// The objects of the requests in `running`.
pub open spec fn running_objects<T>(running: Seq<(IcingaObjectId, T)>) -> Seq<IcingaObjectId> {
    running.map_values(|r: (IcingaObjectId, T)| r.0)
}

proof fn lemma_unfinished_objects<T>(running: Seq<(IcingaObjectId, T)>, finished: Seq<bool>)
    ensures
        running_objects(unfinished(running, finished)) == unfinished(running_objects(running), finished),
    decreases running.len(),
{
    if running.len() > 0 {
        lemma_unfinished_objects(running.drop_last(), finished);
        assert(running_objects(running).drop_last() =~= running_objects(running.drop_last()));
        let rest = unfinished(running.drop_last(), finished);
        assert(running_objects(rest.push(running.last())) =~= running_objects(rest).push(running.last().0));
    } else {
        assert(running_objects(unfinished(running, finished)) =~= unfinished(running_objects(running), finished));
    }
}

/// The requests that run once `request` starts: those of `running` whose `finished` flag
/// is not set, in order, and then `request`.
pub fn start_request<T>(running: Vec<(IcingaObjectId, T)>, finished: &Vec<bool>, request: (IcingaObjectId, T)) -> (res: Vec<(IcingaObjectId, T)>)
    requires
        finished@.len() == running@.len(),
    ensures
        res@ == unfinished(running@, finished@).push(request),
        running_objects(res@) == unfinished(running_objects(running@), finished@).push(request.0),
{
    let ghost all = running@;
    let ghost first = request.0;
    let mut rest = running;
    let mut kept: Vec<(IcingaObjectId, T)> = Vec::new();
    let mut i: usize = 0;
    while i < finished.len()
        invariant
            i <= finished@.len(),
            finished@.len() == all.len(),
            rest@ == all.subrange(i as int, all.len() as int),
            kept@ == unfinished(all.subrange(0, i as int), finished@),
        decreases finished.len() - i,
    {
        let r = rest.remove(0);
        proof {
            assert(all.subrange(0, i + 1).drop_last() =~= all.subrange(0, i as int));
            assert(all.subrange(0, i + 1).last() == all[i as int]);
        }
        if !finished[i] {
            kept.push(r);
        }
        proof {
            assert(rest@ =~= all.subrange(i + 1, all.len() as int));
        }
        i = i + 1;
    }
    proof {
        assert(all.subrange(0, all.len() as int) =~= all);
    }
    kept.push(request);
    proof {
        lemma_unfinished_objects(all, finished@);
        assert(running_objects(kept@) =~= running_objects(unfinished(all, finished@)).push(first));
    }
    kept
}

/// Starting a request keeps the parallel executor's promises: among the requests that run,
/// no two are about the same object, and no more run than allowed. The request about `id`
/// starts once the requests it was scheduled to wait for finished: the one about the same
/// object, or, when as many run as allowed, at least one of them.
pub proof fn law_starting_keeps_requests_apart(
    running: Seq<IcingaObjectId>,
    finished: Seq<bool>,
    id: IcingaObjectId,
    max_parallel_requests: nat,
    decision: Scheduling,
)
    requires
        distinct_objects(running),
        running.len() <= max_parallel_requests,
        finished.len() == running.len(),
        is_schedule(running, id, max_parallel_requests, decision),
        decision matches Scheduling::WaitFor(i) ==> finished[i as int],
        decision is WaitForAny ==> exists|j: int| 0 <= j < finished.len() && finished[j],
    ensures
        distinct_objects(unfinished(running, finished).push(id)),
        unfinished(running, finished).push(id).len() <= max_parallel_requests,
{
    lemma_unfinished(running, finished);
    lemma_unfinished_distinct(running, finished);
    let rest = unfinished(running, finished);
    assert forall|x: int| 0 <= x < rest.len() implies !same_object(#[trigger] rest[x], id) by {
        let k = choose|k: int| 0 <= k < running.len() && !finished[k] && rest[x] == running[k];
        if let Scheduling::WaitFor(i) = decision {
            if k < i {
            } else if k > i {
                assert(!same_object(running[i as int], running[k]));
            }
        }
    }
    let all = rest.push(id);
    assert forall|i: int, j: int| 0 <= i < j < all.len() implies !same_object(#[trigger] all[i], #[trigger] all[j]) by {
        if j == rest.len() {
            assert(all[i] == rest[i]);
        } else {
            assert(all[i] == rest[i] && all[j] == rest[j]);
        }
    }
    if let Scheduling::WaitFor(i) = decision {
        assert(exists|j: int| 0 <= j < running.len() && finished[j]) by {
            assert(finished[i as int]);
        }
    }
}

/// The requests that run after the requests about `ids` were started one after the other:
/// before the request `n` starts, those whose flag in `finished[n]` is set have finished and
/// leave.
pub open spec fn run_after(ids: Seq<IcingaObjectId>, finished: Seq<Seq<bool>>) -> Seq<IcingaObjectId>
    decreases ids.len(),
{
    if ids.len() == 0 {
        Seq::empty()
    } else {
        unfinished(run_after(ids.drop_last(), finished), finished[ids.len() - 1]).push(ids.last())
    }
}

/// Whether a request about `id` starts as `schedule` asks, given the requests that run, the
/// flags of those that finished before it starts, and the decision of `schedule`: it waits for
/// the request about the same object, or for one request when as many run as allowed.
pub open spec fn starts_as_scheduled(
    running: Seq<IcingaObjectId>,
    finished: Seq<bool>,
    id: IcingaObjectId,
    decision: Scheduling,
    max_parallel_requests: nat,
) -> bool {
    &&& finished.len() == running.len()
    &&& is_schedule(running, id, max_parallel_requests, decision)
    &&& decision matches Scheduling::WaitFor(i) ==> finished[i as int]
    &&& decision is WaitForAny ==> exists|j: int| 0 <= j < finished.len() && finished[j]
}

/// Whether every request about `ids` started as `schedule` asked, with the decisions
/// `decisions` and the flags `finished`.
pub open spec fn run_as_scheduled(
    ids: Seq<IcingaObjectId>,
    finished: Seq<Seq<bool>>,
    decisions: Seq<Scheduling>,
    max_parallel_requests: nat,
) -> bool {
    &&& finished.len() == ids.len()
    &&& decisions.len() == ids.len()
    &&& forall|n: int| 0 <= n < ids.len() ==> #[trigger] starts_as_scheduled(
        run_after(ids.take(n), finished),
        finished[n],
        ids[n],
        decisions[n],
        max_parallel_requests,
    )
}

/// Over any sequence of requests started as `schedule` asks, at every moment no more requests
/// run than allowed, and no two of them are about the same object: a request about an object
/// starts only once the one before it about that object has finished, so the requests about
/// one object run one at a time, in the order they came.
pub proof fn law_runs_keep_requests_apart(
    ids: Seq<IcingaObjectId>,
    finished: Seq<Seq<bool>>,
    decisions: Seq<Scheduling>,
    max_parallel_requests: nat,
)
    requires
        run_as_scheduled(ids, finished, decisions, max_parallel_requests),
    ensures
        forall|n: int| 0 <= n <= ids.len() ==> {
            &&& distinct_objects(#[trigger] run_after(ids.take(n), finished))
            &&& run_after(ids.take(n), finished).len() <= max_parallel_requests
        },
{
    assert forall|n: int| 0 <= n <= ids.len() implies {
        &&& distinct_objects(#[trigger] run_after(ids.take(n), finished))
        &&& run_after(ids.take(n), finished).len() <= max_parallel_requests
    } by {
        lemma_run_prefix(ids, finished, decisions, max_parallel_requests, n);
    }
}

proof fn lemma_run_prefix(
    ids: Seq<IcingaObjectId>,
    finished: Seq<Seq<bool>>,
    decisions: Seq<Scheduling>,
    max_parallel_requests: nat,
    n: int,
)
    requires
        run_as_scheduled(ids, finished, decisions, max_parallel_requests),
        0 <= n <= ids.len(),
    ensures
        distinct_objects(run_after(ids.take(n), finished)),
        run_after(ids.take(n), finished).len() <= max_parallel_requests,
    decreases n,
{
    if n == 0 {
        assert(run_after(ids.take(0), finished) =~= Seq::<IcingaObjectId>::empty());
    } else {
        lemma_run_prefix(ids, finished, decisions, max_parallel_requests, n - 1);
        let before = run_after(ids.take(n - 1), finished);
        assert(ids.take(n).drop_last() =~= ids.take(n - 1));
        assert(ids.take(n).last() == ids[n - 1]);
        assert(run_after(ids.take(n), finished) == unfinished(before, finished[n - 1]).push(ids[n - 1]));
        assert(starts_as_scheduled(before, finished[n - 1], ids[n - 1], decisions[n - 1], max_parallel_requests));
        law_starting_keeps_requests_apart(before, finished[n - 1], ids[n - 1], max_parallel_requests, decisions[n - 1]);
    }
}

/// The parameters of the benchmark of the parallel executor: numbers of hosts and of services
/// per host, and optional weights with which hosts are drawn.
#[derive(Clone, Debug, PartialEq, Eq)]
pub struct Params {
    pub host: usize,
    pub service: usize,
    pub weights: Option<Vec<u32>>,
}

impl Params {
    /// The weights and the indices they weigh, `0..weights.len()`, when weights are given.
    pub fn get_random(&self) -> (res: Option<(&[u32], Vec<usize>)>)
        ensures
            match (self.weights, res) {
                (None, None) => true,
                (Some(w), Some((ws, cs))) => ws@ == w@ && cs@.len() == w@.len()
                    && forall|i: int| 0 <= i < w@.len() ==> #[trigger] cs@[i] == i,
                _ => false,
            },
    {
        match &self.weights {
            None => None,
            Some(weights) => {
                let mut choices: Vec<usize> = Vec::new();
                let mut i: usize = 0;
                while i < weights.len()
                    invariant
                        i <= weights@.len(),
                        choices@.len() == i,
                        forall|k: int| 0 <= k < i ==> #[trigger] choices@[k] == k,
                    decreases weights.len() - i,
                {
                    choices.push(i);
                    i = i + 1;
                }
                Some((weights.as_slice(), choices))
            },
        }
    }
}

} // verus!

verus! {

/// A request of the smart monitoring executor: the host to create if needed, optionally the
/// service, and the check result to process, each as the payload that describes it.
#[derive(Debug, PartialEq)]
pub struct SimpleCreateAndProcess {
    pub check_result: crate::value::ValueMap,
    pub host: crate::value::ValueMap,
    pub service: Option<crate::value::ValueMap>,
}

/// The payload of the host number `n` of the benchmark, its keys in ascending order.
pub open spec fn bench_host_payload(n: nat) -> Seq<(Seq<char>, crate::value::ValueView)> {
    seq![
        ("address"@, crate::value::ValueView::Text("127.0.0.1"@)),
        ("check_command"@, crate::value::ValueView::Text("hostalive"@)),
        ("object_name"@, crate::value::ValueView::Text("myhost-"@ + crate::text::zero_padded(crate::text::decimal(n), 6))),
        ("vars"@, crate::value::ValueView::Object(seq![("location"@, crate::value::ValueView::Text("Rome"@))])),
    ]
}

/// The payload of every service of the benchmark.
pub open spec fn bench_service_payload() -> Seq<(Seq<char>, crate::value::ValueView)> {
    seq![
        ("check_command"@, crate::value::ValueView::Text("ping"@)),
        ("object_name"@, crate::value::ValueView::Text("myservice"@)),
    ]
}

/// The payload of every check result of the benchmark.
pub open spec fn bench_cr_payload() -> Seq<(Seq<char>, crate::value::ValueView)> {
    seq![
        ("exit_status"@, crate::value::ValueView::Text("2"@)),
        ("plugin_output"@, crate::value::ValueView::Text("Output message"@)),
    ]
}

fn text_value(s: &str) -> (res: crate::value::Value)
    ensures
        res@ == crate::value::ValueView::Text(s@),
{
    crate::value::Value::Text(crate::text::to_owned_string(s))
}

fn entries2(k1: &str, v1: crate::value::Value, k2: &str, v2: crate::value::Value) -> (res: crate::value::ValueMap)
    ensures
        res@ == seq![(k1@, v1@), (k2@, v2@)],
{
    let mut entries: Vec<(String, crate::value::Value)> = Vec::new();
    entries.push((crate::text::to_owned_string(k1), v1));
    entries.push((crate::text::to_owned_string(k2), v2));
    let res = crate::value::ValueMap { entries };
    proof {
        reveal_with_fuel(crate::value::entries_view, 3);
        assert(res.entries@.subrange(0, 1).subrange(0, 0) =~= Seq::<(String, crate::value::Value)>::empty());
        assert(res.entries@.subrange(0, 1) =~= seq![res.entries@[0]]);
        assert(res@ =~= seq![(k1@, v1@), (k2@, v2@)]);
    }
    res
}

fn host_payload(n: usize) -> (res: crate::value::ValueMap)
    ensures
        res@ == bench_host_payload(n as nat),
{
    let mut name = String::new();
    crate::text::push_str(&mut name, "myhost-");
    crate::text::push_decimal_padded(&mut name, n as u64, 6);
    let mut location: Vec<(String, crate::value::Value)> = Vec::new();
    location.push((crate::text::to_owned_string("location"), text_value("Rome")));
    let vars = crate::value::ValueMap { entries: location };
    proof {
        reveal_with_fuel(crate::value::entries_view, 2);
        assert(vars.entries@.subrange(0, 0) =~= Seq::<(String, crate::value::Value)>::empty());
        assert(vars@ =~= seq![("location"@, crate::value::ValueView::Text("Rome"@))]);
    }
    let vars_value = crate::value::Value::Object(vars);
    let mut entries: Vec<(String, crate::value::Value)> = Vec::new();
    entries.push((crate::text::to_owned_string("address"), text_value("127.0.0.1")));
    entries.push((crate::text::to_owned_string("check_command"), text_value("hostalive")));
    let ghost name_view = name@;
    entries.push((crate::text::to_owned_string("object_name"), crate::value::Value::Text(name)));
    entries.push((crate::text::to_owned_string("vars"), vars_value));
    let res = crate::value::ValueMap { entries };
    proof {
        let e = res.entries@;
        reveal_with_fuel(crate::value::entries_view, 5);
        assert(e.subrange(0, 3).subrange(0, 2).subrange(0, 1).subrange(0, 0) =~= Seq::<(String, crate::value::Value)>::empty());
        assert(e.subrange(0, 3).subrange(0, 2).subrange(0, 1) =~= seq![e[0]]);
        assert(e.subrange(0, 3).subrange(0, 2) =~= seq![e[0], e[1]]);
        assert(e.subrange(0, 3) =~= seq![e[0], e[1], e[2]]);
        assert(res@ =~= bench_host_payload(n as nat));
    }
    res
}

/// Whether `r` is the request of the benchmark for the host number `host_number`: the first
/// one of the host (`k == 0`) has no service, the others the service of the benchmark.
pub open spec fn is_bench_request(r: SimpleCreateAndProcess, host_number: nat, k: int) -> bool {
    &&& r.host@ == bench_host_payload(host_number)
    &&& r.check_result@ == bench_cr_payload()
    &&& if k == 0 {
        r.service is None
    } else {
        r.service is Some && r.service->0@ == bench_service_payload()
    }
}

/// Whether the requests of the host at position `h` of `requests`, `services_per_host + 1` of
/// them, are those of the benchmark for the host number `host_number`.
pub open spec fn is_bench_host_block(
    requests: Seq<SimpleCreateAndProcess>,
    h: int,
    services_per_host: nat,
    host_number: nat,
) -> bool {
    forall|k: int|
        0 <= k <= services_per_host ==> is_bench_request(
            #[trigger] requests[h * (services_per_host + 1) + k],
            host_number,
            k,
        )
}

fn push_host_requests(requests: &mut Vec<SimpleCreateAndProcess>, host_number: usize, services_per_host: usize)
    ensures
        final(requests)@.len() == old(requests)@.len() + services_per_host + 1,
        forall|i: int| 0 <= i < old(requests)@.len() ==> #[trigger] final(requests)@[i] == old(requests)@[i],
        forall|k: int|
            0 <= k <= services_per_host ==> is_bench_request(
                #[trigger] final(requests)@[old(requests)@.len() + k],
                host_number as nat,
                k,
            ),
{
    let ghost start = old(requests)@;
    let ghost base = start.len();
    requests.push(SimpleCreateAndProcess {
        check_result: entries2("exit_status", text_value("2"), "plugin_output", text_value("Output message")),
        host: host_payload(host_number),
        service: None,
    });
    let mut service_number: usize = 0;
    while service_number < services_per_host
        invariant
            service_number <= services_per_host,
            requests@.len() == base + 1 + service_number,
            forall|i: int| 0 <= i < base ==> #[trigger] requests@[i] == start[i],
            forall|k: int|
                0 <= k <= service_number ==> is_bench_request(
                    #[trigger] requests@[base + k],
                    host_number as nat,
                    k,
                ),
        decreases services_per_host - service_number,
    {
        let ghost before = requests@;
        requests.push(SimpleCreateAndProcess {
            check_result: entries2("exit_status", text_value("2"), "plugin_output", text_value("Output message")),
            host: host_payload(host_number),
            service: Some(entries2("check_command", text_value("ping"), "object_name", text_value("myservice"))),
        });
        proof {
            assert forall|i: int| 0 <= i < base implies #[trigger] requests@[i] == start[i] by {
                assert(requests@[i] == before[i]);
            }
            assert forall|k: int| 0 <= k <= service_number + 1 implies is_bench_request(
                #[trigger] requests@[base + k],
                host_number as nat,
                k,
            ) by {
                if k <= service_number {
                    assert(requests@[base + k] == before[base + k]);
                }
            }
        }
        service_number = service_number + 1;
    }
}

proof fn lemma_block_index(h: int, k: int, n: int, per: int)
    requires
        0 <= h < n,
        0 <= k < per,
    ensures
        0 <= h * per + k < n * per,
        h * per + k < (h + 1) * per,
        (h + 1) * per == h * per + per,
{
    assert(h * per + k < n * per) by (nonlinear_arith)
        requires
            0 <= h < n,
            0 <= k < per,
    ;
    assert(0 <= h * per) by (nonlinear_arith)
        requires
            0 <= h,
            0 <= per,
    ;
    assert((h + 1) * per == h * per + per) by (nonlinear_arith);
}

proof fn lemma_blocks_kept(
    before: Seq<SimpleCreateAndProcess>,
    after: Seq<SimpleCreateAndProcess>,
    h: int,
    services_per_host: nat,
    host_number: nat,
    n: int,
)
    requires
        0 <= h < n,
        before.len() == n * (services_per_host + 1),
        after.len() >= before.len(),
        forall|i: int| 0 <= i < before.len() ==> #[trigger] after[i] == before[i],
        is_bench_host_block(before, h, services_per_host, host_number),
    ensures
        is_bench_host_block(after, h, services_per_host, host_number),
{
    let per = services_per_host + 1;
    assert forall|k: int| 0 <= k <= services_per_host implies is_bench_request(
        #[trigger] after[h * per + k],
        host_number,
        k,
    ) by {
        lemma_block_index(h, k, n, per as int);
        assert(after[h * per + k] == before[h * per + k]);
    }
}

/// The requests of the benchmark for the hosts numbered `host_numbers`, in this order: for each
/// host a request for the host and then one for each of `services_per_host` services, all with
/// the same check result.
pub fn requests_for_hosts(host_numbers: &[usize], services_per_host: usize) -> (res: Vec<SimpleCreateAndProcess>)
    requires
        host_numbers@.len() * (services_per_host + 1) <= usize::MAX,
    ensures
        res@.len() == host_numbers@.len() * (services_per_host + 1),
        forall|h: int|
            0 <= h < host_numbers@.len() ==> #[trigger] is_bench_host_block(
                res@,
                h,
                services_per_host as nat,
                host_numbers@[h] as nat,
            ),
{
    let ghost per: int = services_per_host + 1;
    let mut requests: Vec<SimpleCreateAndProcess> = Vec::new();
    let mut i: usize = 0;
    while i < host_numbers.len()
        invariant
            i <= host_numbers@.len(),
            per == services_per_host + 1,
            requests@.len() == i * per,
            forall|h: int|
                0 <= h < i ==> #[trigger] is_bench_host_block(
                    requests@,
                    h,
                    services_per_host as nat,
                    host_numbers@[h] as nat,
                ),
        decreases host_numbers.len() - i,
    {
        let ghost before = requests@;
        push_host_requests(&mut requests, host_numbers[i], services_per_host);
        proof {
            lemma_block_index(i as int, 0, i as int + 1, per);
            assert forall|h: int| 0 <= h < i + 1 implies #[trigger] is_bench_host_block(
                requests@,
                h,
                services_per_host as nat,
                host_numbers@[h] as nat,
            ) by {
                if h < i {
                    lemma_blocks_kept(before, requests@, h, services_per_host as nat, host_numbers@[h] as nat, i as int);
                } else {
                    assert(h * per == before.len());
                }
            }
        }
        i = i + 1;
    }
    requests
}

/// The requests of the benchmark of the parallel executor: for each of `hosts` hosts, in
/// order, a request for the host and then one for each of `services_per_host` services, all
/// with the same check result.
pub fn generate_requests(hosts: usize, services_per_host: usize) -> (res: Vec<SimpleCreateAndProcess>)
    requires
        hosts * (services_per_host + 1) <= usize::MAX,
    ensures
        res@.len() == hosts * (services_per_host + 1),
        forall|h: int|
            0 <= h < hosts ==> #[trigger] is_bench_host_block(res@, h, services_per_host as nat, h as nat),
{
    let ghost per: int = services_per_host + 1;
    let mut requests: Vec<SimpleCreateAndProcess> = Vec::new();
    let mut host_number: usize = 0;
    while host_number < hosts
        invariant
            host_number <= hosts,
            per == services_per_host + 1,
            requests@.len() == host_number * per,
            forall|h: int|
                0 <= h < host_number ==> #[trigger] is_bench_host_block(
                    requests@,
                    h,
                    services_per_host as nat,
                    h as nat,
                ),
        decreases hosts - host_number,
    {
        let ghost before = requests@;
        push_host_requests(&mut requests, host_number, services_per_host);
        proof {
            lemma_block_index(host_number as int, 0, host_number as int + 1, per);
            assert forall|h: int| 0 <= h < host_number + 1 implies #[trigger] is_bench_host_block(
                requests@,
                h,
                services_per_host as nat,
                h as nat,
            ) by {
                if h < host_number {
                    lemma_blocks_kept(before, requests@, h, services_per_host as nat, h as nat, host_number as int);
                } else {
                    assert(h * per == before.len());
                }
            }
        }
        host_number = host_number + 1;
    }
    requests
}

/// The sum of `weights`.
pub open spec fn weight_sum(weights: Seq<u32>) -> nat
    decreases weights.len(),
{
    if weights.len() == 0 {
        0
    } else {
        weight_sum(weights.drop_last()) + weights.last() as nat
    }
}

/// A distribution over the indices of a list of `u32` weights, as
/// `rand::distributions::WeightedIndex` draws them.
#[verifier::external_body]
pub struct WeightedChoice {
    dist: WeightedIndex<u32>,
}

#[verifier::external_type_specification]
#[verifier::external_body]
pub struct ExWeightedError(WeightedError);

/// The weights that a weighted choice was made with.
pub uninterp spec fn weighted_choice_weights(choice: WeightedChoice) -> Seq<u32>;

/// Makes the distribution of `rand::distributions::WeightedIndex::new` over `weights`. That
/// function fails exactly when there is no weight or when the weights sum to zero (a `u32`
/// weight is never negative); it sums them in a `u32`, so the sum has to fit.
#[verifier::external_body]
fn new_weighted_choice(weights: &[u32]) -> (res: Result<WeightedChoice, WeightedError>)
    requires
        weight_sum(weights@) <= u32::MAX,
    ensures
        res is Ok <==> (weights@.len() > 0 && weight_sum(weights@) > 0),
        res matches Ok(choice) ==> weighted_choice_weights(choice) == weights@,
{
    match WeightedIndex::new(weights) {
        Ok(dist) => Ok(WeightedChoice { dist }),
        Err(e) => Err(e),
    }
}

/// Draws an index with the thread's random generator, through the `sample` of
/// `rand::distributions::Distribution` for `WeightedIndex`: the index of one of the weights,
/// never of a zero weight. Which index comes out is left open.
#[verifier::external_body]
fn sample_weighted_choice(choice: &WeightedChoice) -> (res: usize)
    ensures
        res < weighted_choice_weights(*choice).len(),
        weighted_choice_weights(*choice)[res as int] > 0,
{
    choice.dist.sample(&mut rand::thread_rng())
}

/// Whether the requests of the host at position `h` of `requests` are those of the benchmark
/// for a host `choices[i]` whose index `i` has a weight that is not zero.
pub open spec fn is_drawn_host_block(
    requests: Seq<SimpleCreateAndProcess>,
    h: int,
    services_per_host: nat,
    weights: Seq<u32>,
    choices: Seq<usize>,
) -> bool {
    exists|i: int|
        0 <= i < weights.len() && weights[i] > 0 && #[trigger] is_bench_host_block(
            requests,
            h,
            services_per_host,
            choices[i] as nat,
        )
}

/// The requests of the benchmark of the parallel executor for `hosts` hosts drawn at random:
/// each host is `choices[i]` for an index `i` drawn with the weight `weights[i]`, and gets a
/// request for the host and then one for each of `services_per_host` services.
pub fn generate_requests_random(
    hosts: usize,
    services_per_host: usize,
    weights: &[u32],
    choices: &[usize],
) -> (res: Vec<SimpleCreateAndProcess>)
    requires
        hosts * (services_per_host + 1) <= usize::MAX,
        weights@.len() > 0,
        0 < weight_sum(weights@) <= u32::MAX,
        weights@.len() <= choices@.len(),
    ensures
        res@.len() == hosts * (services_per_host + 1),
        forall|h: int|
            0 <= h < hosts ==> #[trigger] is_drawn_host_block(
                res@,
                h,
                services_per_host as nat,
                weights@,
                choices@,
            ),
{
    let dist = match new_weighted_choice(weights) {
        Ok(dist) => dist,
        Err(_) => {
            proof {
                assert(false);
            }
            return Vec::new();
        },
    };
    let mut drawn: Vec<usize> = Vec::new();
    let mut host_numbers: Vec<usize> = Vec::new();
    let mut n: usize = 0;
    while n < hosts
        invariant
            n <= hosts,
            weighted_choice_weights(dist) == weights@,
            weights@.len() <= choices@.len(),
            drawn@.len() == n,
            host_numbers@.len() == n,
            forall|h: int|
                0 <= h < n ==> {
                    &&& 0 <= #[trigger] drawn@[h] < weights@.len()
                    &&& weights@[drawn@[h] as int] > 0
                    &&& host_numbers@[h] == choices@[drawn@[h] as int]
                },
        decreases hosts - n,
    {
        let index = sample_weighted_choice(&dist);
        drawn.push(index);
        host_numbers.push(choices[index]);
        n = n + 1;
    }
    let res = requests_for_hosts(host_numbers.as_slice(), services_per_host);
    proof {
        assert forall|h: int| 0 <= h < hosts implies #[trigger] is_drawn_host_block(
            res@,
            h,
            services_per_host as nat,
            weights@,
            choices@,
        ) by {
            assert(is_bench_host_block(res@, h, services_per_host as nat, host_numbers@[h] as nat));
            let i = drawn@[h] as int;
            assert(host_numbers@[h] == choices@[i]);
        }
    }
    res
}

/// Two requests are about the same object exactly when they name the same host and the same
/// service; a request waits for a running request only when that one names the same host and
/// the same service, and starts or waits for any request only when none does.
pub proof fn law_same_object_is_same_host_and_service(
    a: IcingaObjectId,
    b: IcingaObjectId,
    running: Seq<IcingaObjectId>,
    max_parallel_requests: nat,
    decision: Scheduling,
)
    ensures
        same_object(a, b) <==> (opt_name(a.host) == opt_name(b.host) && opt_name(a.service) == opt_name(b.service)),
        is_schedule(running, a, max_parallel_requests, decision) ==> match decision {
            Scheduling::WaitFor(i) => opt_name(running[i as int].host) == opt_name(a.host)
                && opt_name(running[i as int].service) == opt_name(a.service),
            _ => forall|k: int| 0 <= k < running.len() ==> !(opt_name(#[trigger] running[k].host) == opt_name(a.host)
                && opt_name(running[k].service) == opt_name(a.service)),
        },
{
}

} // verus!
