use vstd::prelude::*;
use crate::icinga::check_result::{
    CheckResultParams, Command, HostCheckResult, HostState, ServiceCheckResult, ServiceState,
    SharedCheckResult,
};
use crate::icinga::config::{Host, Service};
use crate::satellite::SetStateRequest;
use crate::text::{decimal, hex, push_decimal, push_decimal_padded, push_hex_padded, push_str, zero_padded};

verus! {

/// The name of the host number `n` of the benchmark: `host-number-<n, six digits>`.
pub open spec fn bench_host_name(n: nat) -> Seq<char> {
    "host-number-"@ + zero_padded(decimal(n), 6)
}

/// The name of the service number `n` of the benchmark: `service-number-<n, three digits>`.
pub open spec fn bench_service_name(n: nat) -> Seq<char> {
    "service-number-"@ + zero_padded(decimal(n), 3)
}

/// The output of the check results of the benchmark for the host number `h` and the factor
/// `f`: `host-number-<h * f, eight hexadecimal digits>-number-host`.
pub open spec fn bench_output(h: nat, f: nat) -> Seq<char> {
    "host-number-"@ + zero_padded(hex(h * f), 8) + "-number-host"@
}

/// Whether `shared` is the shared check result data of the benchmark for the host number `h`
/// and the factor `f`: passive, with the host as source and the output named after `h * f`.
pub open spec fn is_bench_shared(shared: SharedCheckResult, h: nat, f: nat) -> bool {
    &&& shared.performance_data@.len() == 0
    &&& shared.output is Some && shared.output->0@ == bench_output(h, f)
    &&& shared.exit_status is None
    &&& shared.check_source is Some && shared.check_source->0@ == bench_host_name(h)
    &&& shared.command is None
    &&& shared.execution_start is None
    &&& shared.execution_end is None
    &&& shared.schedule_start is None
    &&& shared.schedule_end is None
    &&& shared.active == Some(false)
    &&& shared.vars_before is None
    &&& shared.vars_after is None
    &&& shared.ttl is None
}

/// Whether `host` is the host number `h` of the benchmark.
pub open spec fn is_bench_host(host: Host, h: nat) -> bool {
    &&& host.name@ == bench_host_name(h)
    &&& host.import is None
    &&& host.check_command matches Some(Command::String(c)) && c@ == "dummy"@
    &&& host.zone is Some && host.zone->0@ == "master"@
    &&& host.groups is None
    &&& host.address is Some && host.address->0@ == "127.0.0."@ + decimal(h % 255)
    &&& host.address6 is None
    &&& host.max_check_attempts is Some && host.max_check_attempts->0@ == decimal(h % 5 + 4)
    &&& host.check_interval is None
    &&& host.retry_interval is None
    &&& host.enable_active_checks == Some(false)
    &&& host.vars is None
}

/// Whether `service` is the service number `s` of the host number `h` of the benchmark.
pub open spec fn is_bench_service(service: Service, h: nat, s: nat) -> bool {
    &&& service.name@ == bench_service_name(s)
    &&& service.import is None
    &&& service.host is Some && service.host->0@ == bench_host_name(h)
    &&& service.check_command is None
    &&& service.command_endpoint is None
    &&& service.enable_notifications is None
    &&& service.enable_active_checks == Some(false)
    &&& service.enable_passive_checks is None
    &&& service.enable_event_handler is None
    &&& service.enable_flapping is None
    &&& service.enable_perfdata is None
    &&& service.volatile is None
    &&& service.vars is None
}

/// Whether `cr` is the check result of the benchmark for the host number `h`, with the factor
/// `f` in its output: the host is up.
pub open spec fn is_bench_host_cr(cr: CheckResultParams, h: nat, f: nat) -> bool {
    cr matches CheckResultParams::Host { host, cr } && host@ == bench_host_name(h) && cr.state
        == HostState::UP && is_bench_shared(*cr.cr, h, f)
}

/// Whether `cr` is the check result of the benchmark for the service number `s` of the host
/// number `h`: the service is ok.
pub open spec fn is_bench_service_cr(cr: CheckResultParams, h: nat, s: nat) -> bool {
    cr matches CheckResultParams::Service { host, service, cr } && host@ == bench_host_name(h)
        && service@ == bench_service_name(s) && cr.state == ServiceState::OK && is_bench_shared(
        *cr.cr,
        h,
        s,
    )
}

fn host_name(n: usize) -> (res: String)
    ensures
        res@ == bench_host_name(n as nat),
{
    let mut res = String::new();
    push_str(&mut res, "host-number-");
    push_decimal_padded(&mut res, n as u64, 6);
    res
}

fn service_name(n: usize) -> (res: String)
    ensures
        res@ == bench_service_name(n as nat),
{
    let mut res = String::new();
    push_str(&mut res, "service-number-");
    push_decimal_padded(&mut res, n as u64, 3);
    res
}

fn shared(host_number: usize, factor: usize) -> (res: SharedCheckResult)
    requires
        host_number * factor <= usize::MAX,
    ensures
        is_bench_shared(res, host_number as nat, factor as nat),
{
    let mut res = SharedCheckResult::default();
    res.active = Some(false);
    res.check_source = Some(host_name(host_number));
    let mut output = String::new();
    push_str(&mut output, "host-number-");
    let product: usize = host_number * factor;
    push_hex_padded(&mut output, product as u64, 8);
    push_str(&mut output, "-number-host");
    res.output = Some(output);
    res
}

/// The check result of the host number `host_number`, with the factor `service_number` in its
/// output.
pub fn generate_cr(host_number: usize, service_number: usize) -> (res: CheckResultParams)
    requires
        host_number * service_number <= usize::MAX,
    ensures
        is_bench_host_cr(res, host_number as nat, service_number as nat),
{
    CheckResultParams::Host {
        host: host_name(host_number),
        cr: HostCheckResult { state: HostState::UP, cr: Box::new(shared(host_number, service_number)) },
    }
}

/// The check result of the service number `service_number` of the host number `host_number`.
pub fn generate_cr_service(host_number: usize, service_number: usize) -> (res: CheckResultParams)
    requires
        host_number * service_number <= usize::MAX,
    ensures
        is_bench_service_cr(res, host_number as nat, service_number as nat),
{
    CheckResultParams::Service {
        host: host_name(host_number),
        service: service_name(service_number),
        cr: ServiceCheckResult { state: ServiceState::OK, cr: Box::new(shared(host_number, service_number)) },
    }
}

fn bench_host(host_number: usize) -> (res: Host)
    ensures
        is_bench_host(res, host_number as nat),
{
    let mut address = String::new();
    push_str(&mut address, "127.0.0.");
    push_decimal(&mut address, (host_number % 255) as u64);
    let mut attempts = String::new();
    push_decimal(&mut attempts, (host_number % 5 + 4) as u64);
    let mut dummy = String::new();
    push_str(&mut dummy, "dummy");
    let mut zone = String::new();
    push_str(&mut zone, "master");
    Host {
        name: host_name(host_number),
        import: None,
        check_command: Some(Command::String(dummy)),
        zone: Some(zone),
        groups: None,
        address: Some(address),
        address6: None,
        max_check_attempts: Some(attempts),
        check_interval: None,
        retry_interval: None,
        enable_active_checks: Some(false),
        vars: None,
    }
}

/// Whether `r` is the request number `k` of the host number `h` of the benchmark with
/// `services` services per host: the host itself first (`k == 0`), then its services.
pub open spec fn is_bench_request(r: SetStateRequest, h: nat, k: nat, services: nat) -> bool {
    &&& is_bench_host(r.host, h)
    &&& if k == 0 {
        r.service is None && is_bench_host_cr(r.check_result, h, services)
    } else {
        r.service is Some && is_bench_service(r.service->0, h, (k - 1) as nat)
            && is_bench_service_cr(r.check_result, h, (k - 1) as nat)
    }
}

proof fn lemma_index_below(h: int, k: int, n: int, per: int)
    requires
        0 <= h < n,
        0 <= k < per,
    ensures
        0 <= h * per + k < n * per,
{
    assert(h * per + k < n * per) by (nonlinear_arith)
        requires
            0 <= h < n,
            0 <= k < per,
    ;
    assert(0 <= h * per) by (nonlinear_arith)
        requires
            0 <= h,
            0 <= per,
    ;
}

/// The requests of the benchmark: for each of `hosts` hosts, the state of the host and then of
/// each of its `services_per_host` services.
pub fn generate_requests(hosts: usize, services_per_host: usize) -> (res: Vec<SetStateRequest>)
    requires
        hosts * (services_per_host + 1) <= usize::MAX,
    ensures
        res@.len() == hosts * (services_per_host + 1),
        forall|h: int, k: int|
            0 <= h < hosts && 0 <= k <= services_per_host ==> is_bench_request(
                #[trigger] res@[h * (services_per_host + 1) + k],
                h as nat,
                k as nat,
                services_per_host as nat,
            ),
{
    let ghost per: int = services_per_host + 1;
    let mut requests: Vec<SetStateRequest> = Vec::new();
    let mut host_number: usize = 0;
    while host_number < hosts
        invariant
            host_number <= hosts,
            per == services_per_host + 1,
            hosts * per <= usize::MAX,
            requests@.len() == host_number * per,
            forall|h: int, k: int|
                0 <= h < host_number && 0 <= k <= services_per_host ==> is_bench_request(
                    #[trigger] requests@[h * per + k],
                    h as nat,
                    k as nat,
                    services_per_host as nat,
                ),
        decreases hosts - host_number,
    {
        proof {
            assert(host_number * services_per_host <= hosts * per) by (nonlinear_arith)
                requires
                    host_number < hosts,
                    per == services_per_host + 1,
                    services_per_host >= 0,
            ;
            assert((host_number + 1) * per <= hosts * per) by (nonlinear_arith)
                requires
                    host_number < hosts,
                    per >= 1,
            ;
            assert((host_number + 1) * per == host_number * per + per) by (nonlinear_arith);
        }
        let ghost base: int = host_number * per;
        let ghost before = requests@;
        requests.push(SetStateRequest {
            host: bench_host(host_number),
            service: None,
            check_result: generate_cr(host_number, services_per_host),
        });
        proof {
            assert forall|h: int, k: int|
                0 <= h < host_number && 0 <= k <= services_per_host implies is_bench_request(
                    #[trigger] requests@[h * per + k],
                    h as nat,
                    k as nat,
                    services_per_host as nat,
                ) by {
                lemma_index_below(h, k, host_number as int, per);
                assert(requests@[h * per + k] == before[h * per + k]);
            }
            assert(requests@[base + 0] == requests@[base]);
        }
        let mut service_number: usize = 0;
        while service_number < services_per_host
            invariant
                host_number < hosts,
                service_number <= services_per_host,
                per == services_per_host + 1,
                base == host_number * per,
                host_number * services_per_host <= usize::MAX,
                requests@.len() == base + 1 + service_number,
                forall|h: int, k: int|
                    0 <= h < host_number && 0 <= k <= services_per_host ==> is_bench_request(
                        #[trigger] requests@[h * per + k],
                        h as nat,
                        k as nat,
                        services_per_host as nat,
                    ),
                forall|k: int|
                    0 <= k <= service_number ==> is_bench_request(
                        #[trigger] requests@[base + k],
                        host_number as nat,
                        k as nat,
                        services_per_host as nat,
                    ),
            decreases services_per_host - service_number,
        {
            proof {
                assert(host_number * service_number <= host_number * services_per_host) by (nonlinear_arith)
                    requires
                        service_number < services_per_host,
                ;
            }
            let mut hname = String::new();
            push_str(&mut hname, "host-number-");
            push_decimal_padded(&mut hname, host_number as u64, 6);
            let mut sname = String::new();
            push_str(&mut sname, "service-number-");
            push_decimal_padded(&mut sname, service_number as u64, 3);
            let service = Service {
                name: sname,
                import: None,
                host: Some(hname),
                check_command: None,
                command_endpoint: None,
                enable_notifications: None,
                enable_active_checks: Some(false),
                enable_passive_checks: None,
                enable_event_handler: None,
                enable_flapping: None,
                enable_perfdata: None,
                volatile: None,
                vars: None,
            };
            let ghost inner = requests@;
            requests.push(SetStateRequest {
                host: bench_host(host_number),
                service: Some(service),
                check_result: generate_cr_service(host_number, service_number),
            });
            proof {
                assert forall|h: int, k: int|
                    0 <= h < host_number && 0 <= k <= services_per_host implies is_bench_request(
                        #[trigger] requests@[h * per + k],
                        h as nat,
                        k as nat,
                        services_per_host as nat,
                    ) by {
                    lemma_index_below(h, k, host_number as int, per);
                    assert(requests@[h * per + k] == inner[h * per + k]);
                }
                assert forall|k: int|
                    0 <= k <= service_number + 1 implies is_bench_request(
                        #[trigger] requests@[base + k],
                        host_number as nat,
                        k as nat,
                        services_per_host as nat,
                    ) by {
                    if k <= service_number {
                        assert(requests@[base + k] == inner[base + k]);
                    }
                }
            }
            service_number = service_number + 1;
        }
        proof {
            assert forall|h: int, k: int|
                0 <= h < host_number + 1 && 0 <= k <= services_per_host implies is_bench_request(
                    #[trigger] requests@[h * per + k],
                    h as nat,
                    k as nat,
                    services_per_host as nat,
                ) by {
                if h == host_number {
                    assert(h * per + k == base + k);
                }
            }
        }
        host_number = host_number + 1;
    }
    requests
}

} // verus!
