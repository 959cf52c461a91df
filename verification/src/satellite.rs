use vstd::prelude::*;
use crate::icinga::certification::{RequestCertificate, UpdateCertificate};
use crate::icinga::check_result::CheckResultParams;
use crate::icinga::config::{host_text, Host, Service};
use crate::icinga::hello::{Capabilities, IcingaHelloParams};
use crate::icinga::log_position::LogPosition;
use crate::icinga::object_store::{after_delete, after_insert, object_known, IcingaObjectStore};
use crate::icinga::rpc::{IcingaMethods, JsonRpc};
use crate::icinga::timestamp::{ts_le, IcingaTimestamp};
use crate::icinga::update_object::{
    IcingaObjectType, UpdateObjectParams, UpdateObjectParamsCreationError, INVALID_HOST_NAME,
    INVALID_SERVICE_NAME,
};
use crate::text::{decimal, push_char, push_decimal, push_str};
use crate::value::{copy_opt_map, FloatBits, ValueMap};
use tokio_rustls::rustls::RootCertStore;

verus! {

/// The icinga2 version this satellite announces.
pub const ICINGA_VERSION: u32 = 21300;

/// A request to set the state of a host, or of a service of the host, creating the objects in
/// the master when they are not known to exist.
#[derive(Debug, PartialEq)]
pub struct SetStateRequest {
    pub host: Host,
    pub service: Option<Service>,
    pub check_result: CheckResultParams,
}

/// The description of `r` in logs: the configuration of the host, followed by `!<service>`
/// when the request is for a service.
pub open spec fn set_state_request_text(r: SetStateRequest) -> Seq<char> {
    "SetStateRequest { "@ + host_text(r.host) + match r.service {
        Some(s) => seq!['!'] + s.name@,
        None => Seq::empty(),
    } + " }"@
}

impl SetStateRequest {
    /// The description of the request in logs.
    pub fn describe(&self) -> (res: String)
        ensures
            res@ == set_state_request_text(*self),
    {
        let mut res = String::new();
        push_str(&mut res, "SetStateRequest { ");
        let host = self.host.to_string();
        push_str(&mut res, host.as_str());
        if let Some(service) = &self.service {
            push_char(&mut res, '!');
            push_str(&mut res, service.name.as_str());
        }
        push_str(&mut res, " }");
        res
    }
}

/// A request waiting for the master to acknowledge it, with the timestamp it was sent at.
pub type IcingaPendingCall = (IcingaTimestamp, SetStateRequest);

/// A change of the known objects that the master announced.
#[derive(Debug, PartialEq, Eq)]
pub enum UpdateObject {
    Update { name: String },
    Delete { name: String },
}

/// What the sender of a connection is asked to do next.
#[derive(Debug)]
pub enum SenderIoAction {
    Send(SetStateRequest),
    UpdateState(UpdateObject),
    Heartbeat,
    Abort,
}

/// The messages that create the objects of a request before its check result goes out, and
/// whether the request is refused (then its check result is not sent).
#[derive(Debug)]
pub struct SendPlan {
    pub updates: Vec<UpdateObjectParams>,
    pub refused: Option<UpdateObjectParamsCreationError>,
}

/// Whether `p` creates the host `host`: named after it, with its configuration, its variables
/// as modified attributes, version 0.0 and no package.
pub open spec fn creates_host(p: UpdateObjectParams, host: Host) -> bool {
    &&& p.spec_name()@ == host.name@
    &&& p.spec_object_type() == IcingaObjectType::Host
    &&& p.spec_version() == (FloatBits { bits: 0 })
    &&& p.spec_config() is Some && p.spec_config()->0@ == host_text(host)
    &&& p.spec_modified_attributes() is Some == host.vars is Some
    &&& host.vars is Some ==> p.spec_modified_attributes()->0@ == host.vars->0@
    &&& p.spec_original_attributes() is None
    &&& p.spec_package() is None
}

/// Whether `p` creates the service `service` of the host `host`: named `<host>!<service>`,
/// with the configuration and the variables of the host, version 0.0 and no package.
pub open spec fn creates_service(p: UpdateObjectParams, host: Host, service: Service) -> bool {
    &&& p.spec_name()@ == host.name@ + seq!['!'] + service.name@
    &&& p.spec_object_type() == IcingaObjectType::Service
    &&& p.spec_version() == (FloatBits { bits: 0 })
    &&& p.spec_config() is Some && p.spec_config()->0@ == host_text(host)
    &&& p.spec_modified_attributes() is Some == host.vars is Some
    &&& host.vars is Some ==> p.spec_modified_attributes()->0@ == host.vars->0@
    &&& p.spec_original_attributes() is None
    &&& p.spec_package() is None
}

/// Whether the host of `r` is created first: it is not known.
pub open spec fn host_creation_needed(known: Map<Seq<char>, Set<Seq<char>>>, r: SetStateRequest) -> bool {
    !object_known(known, r.host.name@)
}

/// Whether the service of `r` is created: there is one, and its host is not known.
pub open spec fn service_creation_needed(known: Map<Seq<char>, Set<Seq<char>>>, r: SetStateRequest) -> bool {
    r.service is Some && !known.contains_key(r.host.name@)
}

/// Whether the creation of the host of `r` is refused: it is needed and the name holds a `!`.
pub open spec fn host_refused(known: Map<Seq<char>, Set<Seq<char>>>, r: SetStateRequest) -> bool {
    host_creation_needed(known, r) && r.host.name@.contains('!')
}

/// Whether the creation of the service of `r` is refused: it is needed and a name holds a `!`.
pub open spec fn service_refused(known: Map<Seq<char>, Set<Seq<char>>>, r: SetStateRequest) -> bool {
    service_creation_needed(known, r) && (r.host.name@.contains('!') || r.service->0.name@.contains('!'))
}

/// Once the master announced the host of a request, the request needs neither the creation of
/// its host nor that of its service.
pub proof fn law_announced_host_needs_no_creation(known: Map<Seq<char>, Set<Seq<char>>>, r: SetStateRequest)
    requires
        !r.host.name@.contains('!'),
    ensures
        !host_creation_needed(after_insert(known, r.host.name@), r),
        !service_creation_needed(after_insert(known, r.host.name@), r),
{
    crate::icinga::object_store::law_inserted_object_is_known(known, r.host.name@);
    crate::icinga::object_store::law_inserted_object_host_is_known(known, r.host.name@);
}

fn host_creation(host: &Host) -> (res: Result<UpdateObjectParams, UpdateObjectParamsCreationError>)
    ensures
        host.name@.contains('!') <==> res is Err,
        match res {
            Ok(p) => creates_host(p, *host),
            Err(UpdateObjectParamsCreationError::InvalidName(m)) => m@ == INVALID_HOST_NAME@ + host.name@,
        },
{
    match UpdateObjectParams::create_host(host.name.as_str()) {
        Ok(mut builder) => {
            builder.set_config(Some(host.to_string()));
            builder.set_zone(crate::value::copy_opt_string(&host.zone));
            builder.set_modified_attributes(copy_opt_map(&host.vars));
            Ok(builder.build())
        },
        Err(e) => Err(e),
    }
}

fn service_creation(host: &Host, service: &Service) -> (res: Result<UpdateObjectParams, UpdateObjectParamsCreationError>)
    ensures
        (host.name@.contains('!') || service.name@.contains('!')) <==> res is Err,
        match res {
            Ok(p) => creates_service(p, *host, *service),
            Err(UpdateObjectParamsCreationError::InvalidName(m)) => m@ == (if host.name@.contains('!') {
                INVALID_HOST_NAME@
            } else {
                INVALID_SERVICE_NAME@
            }) + host.name@,
        },
{
    match UpdateObjectParams::create_service(host.name.as_str(), service.name.as_str()) {
        Ok(mut builder) => {
            builder.set_config(Some(host.to_string()));
            builder.set_modified_attributes(copy_opt_map(&host.vars));
            Ok(builder.build())
        },
        Err(e) => Err(e),
    }
}

/// Whether `plan` holds the messages that create the objects of `request` unknown to
/// `known`, in order, and the refusal of a creation, as `plan_send` makes them.
pub open spec fn is_send_plan(known: Map<Seq<char>, Set<Seq<char>>>, request: SetStateRequest, plan: SendPlan) -> bool {
    &&& (plan.refused is Some <==> (host_refused(known, request) || service_refused(known, request)))
    &&& host_refused(known, request) ==> plan.updates@.len() == 0
        && plan.refused->0->InvalidName_0@ == INVALID_HOST_NAME@ + request.host.name@
    &&& !host_refused(known, request) ==> {
        let first: int = if host_creation_needed(known, request) { 1 } else { 0 };
        &&& plan.updates@.len() == first + (if service_creation_needed(known, request) && !service_refused(known, request) { 1int } else { 0int })
        &&& host_creation_needed(known, request) ==> creates_host(plan.updates@[0], request.host)
        &&& service_creation_needed(known, request) && !service_refused(known, request)
            ==> creates_service(plan.updates@[first], request.host, request.service->0)
        &&& service_refused(known, request) ==> plan.refused->0->InvalidName_0@ == (if request.host.name@.contains('!') {
            INVALID_HOST_NAME@
        } else {
            INVALID_SERVICE_NAME@
        }) + request.host.name@
    }
}

/// The messages that create the objects of `request` unknown to `known`, in order: the host,
/// then the service. A refused creation stops the plan there, and the request is dropped; the
/// host message, when one was planned before a refused service, still goes out.
pub fn plan_send(known: &IcingaObjectStore, request: &SetStateRequest) -> (res: SendPlan)
    ensures
        is_send_plan(known@, *request, res),
{
    let mut updates: Vec<UpdateObjectParams> = Vec::new();
    if !known.exists_object(request.host.name.as_str()) {
        match host_creation(&request.host) {
            Ok(p) => updates.push(p),
            Err(e) => {
                return SendPlan { updates, refused: Some(e) };
            },
        }
    }
    if let Some(service) = &request.service {
        if !known.exists_service(request.host.name.as_str(), service.name.as_str()) {
            match service_creation(&request.host, service) {
                Ok(p) => updates.push(p),
                Err(e) => {
                    return SendPlan { updates, refused: Some(e) };
                },
            }
        }
    }
    SendPlan { updates, refused: None }
}

/// The timestamp a sent check result waits under: the one of the message, or the time `now`
/// when the message had none.
pub fn pending_call_timestamp(sent: Option<IcingaTimestamp>, now: IcingaTimestamp) -> (res: IcingaTimestamp)
    ensures
        res == match sent {
            Some(ts) => ts,
            None => now,
        },
{
    match sent {
        Some(ts) => ts,
        None => now,
    }
}

/// What follows the sending of the check result of `request` at the time `now`, given what the
/// sending gave (`None` when it failed, else the timestamp of the message if it had one): the
/// call that waits for the master's acknowledgement, queued in any case, under the message's
/// timestamp or `now`; and whether the sender stops, which it does when the sending failed.
pub fn after_check_result(request: SetStateRequest, sent: Option<Option<IcingaTimestamp>>, now: IcingaTimestamp) -> (res: (IcingaPendingCall, bool))
    ensures
        res.0.1 == request,
        res.0.0 == match sent {
            Some(Some(ts)) => ts,
            _ => now,
        },
        res.1 == (sent is None),
{
    let ts = match sent {
        Some(message_ts) => pending_call_timestamp(message_ts, now),
        None => now,
    };
    ((ts, request), sent.is_none())
}

/// What the sender does after an action.
#[derive(Debug)]
pub enum SenderDecision {
    /// Send the creation messages of the plan, then, unless it is refused, the check result of
    /// the request, and queue the request as pending.
    Send(SetStateRequest, SendPlan),
    /// Send a heartbeat.
    SendHeartbeat,
    /// Close the connection and stop.
    Abort,
    /// Go on with the next action.
    Continue,
    /// The connection closed: stop.
    Stop,
}

/// One step of the sender: what to do with the next action (`None` when none can come any
/// more), given the known objects, which announcements of the master update.
pub fn sender_step(known: &mut IcingaObjectStore, action: Option<SenderIoAction>) -> (res: SenderDecision)
    ensures
        match action {
            Some(SenderIoAction::Send(request)) => final(known)@ == old(known)@ && match res {
                SenderDecision::Send(r, plan) => r == request && is_send_plan(old(known)@, request, plan),
                _ => false,
            },
            Some(SenderIoAction::UpdateState(UpdateObject::Update { name })) => res is Continue
                && final(known)@ == after_insert(old(known)@, name@),
            Some(SenderIoAction::UpdateState(UpdateObject::Delete { name })) => res is Continue
                && final(known)@ == after_delete(old(known)@, name@),
            Some(SenderIoAction::Heartbeat) => res is SendHeartbeat && final(known)@ == old(known)@,
            Some(SenderIoAction::Abort) => res is Abort && final(known)@ == old(known)@,
            None => res is Stop && final(known)@ == old(known)@,
        },
{
    match action {
        Some(SenderIoAction::Send(request)) => {
            let plan = plan_send(known, &request);
            SenderDecision::Send(request, plan)
        },
        Some(SenderIoAction::UpdateState(UpdateObject::Update { name })) => {
            known.insert(name);
            SenderDecision::Continue
        },
        Some(SenderIoAction::UpdateState(UpdateObject::Delete { name })) => {
            known.delete(name.as_str());
            SenderDecision::Continue
        },
        Some(SenderIoAction::Heartbeat) => SenderDecision::SendHeartbeat,
        Some(SenderIoAction::Abort) => SenderDecision::Abort,
        None => SenderDecision::Stop,
    }
}

/// The message that opens a connection: `icinga::Hello` with this satellite's version and no
/// capabilities.
pub fn icinga_hello_message() -> (res: JsonRpc)
    ensures
        res.spec_method() matches IcingaMethods::Hello(p) && p.version == ICINGA_VERSION
            && p.capabilities.spec_bits() == 0,
        res.spec_timestamp() is None,
{
    JsonRpc::from_method(IcingaMethods::Hello(IcingaHelloParams {
        capabilities: Capabilities::from_bits(0),
        version: ICINGA_VERSION,
    }))
}

/// The message that expects no answer but keeps the connection alive.
pub fn heartbeat_message() -> (res: JsonRpc)
    ensures
        res.spec_method() == (IcingaMethods::HeartBeats {}),
        res.spec_timestamp() is None,
{
    JsonRpc::from_method(IcingaMethods::HeartBeats {})
}

/// The message that asks the master to sign the certificate request `cert_request` for the
/// ticket `ticket`.
pub fn request_certificate_message(ticket: String, cert_request: String) -> (res: JsonRpc)
    ensures
        res.spec_method() == IcingaMethods::RequestCertificate(RequestCertificate {
            ticket,
            cert_request: Some(cert_request),
        }),
        res.spec_timestamp() is None,
{
    JsonRpc::from_method(IcingaMethods::RequestCertificate(RequestCertificate {
        ticket,
        cert_request: Some(cert_request),
    }))
}

/// The error text when the first message of the peer is not `icinga::Hello`.
pub const EXPECTED_HELLO: &'static str = "Expected icinga::Hello as first message.";

/// The parameters of the first message of the peer, which has to be `icinga::Hello`; else the
/// protocol error.
pub fn check_icinga_hello(message: JsonRpc) -> (res: Result<IcingaHelloParams, String>)
    ensures
        match message.spec_method() {
            IcingaMethods::Hello(params) => res == Ok::<IcingaHelloParams, String>(params),
            _ => res is Err && res->Err_0@ == EXPECTED_HELLO@,
        },
{
    let m = message.into_method();
    match m {
        IcingaMethods::Hello(params) => Ok(params),
        _ => {
            let mut text = String::new();
            push_str(&mut text, EXPECTED_HELLO);
            Err(text)
        },
    }
}

/// The address to connect to: `<host>:<port>`.
pub fn connection_address(host: &str, port: u16) -> (res: String)
    ensures
        res@ == host@ + seq![':'] + decimal(port as nat),
{
    let mut res = String::new();
    push_str(&mut res, host);
    push_char(&mut res, ':');
    push_decimal(&mut res, port as u64);
    res
}

/// The file of the certificate of the authority, under the certificate directory.
pub fn ca_file_name() -> (res: String)
    ensures
        res@ == "ca.crt"@,
{
    let mut res = String::new();
    push_str(&mut res, "ca.crt");
    res
}

fn file_name(host_name: &str, extension: &str) -> (res: String)
    ensures
        res@ == host_name@ + extension@,
{
    let mut res = String::new();
    push_str(&mut res, host_name);
    push_str(&mut res, extension);
    res
}

/// The file of the certificate of the endpoint `host_name`: `<host_name>.crt`.
pub fn cert_file_name(host_name: &str) -> (res: String)
    ensures
        res@ == host_name@ + ".crt"@,
{
    file_name(host_name, ".crt")
}

/// The file of the private key of the endpoint `host_name`: `<host_name>.key`.
pub fn key_file_name(host_name: &str) -> (res: String)
    ensures
        res@ == host_name@ + ".key"@,
{
    file_name(host_name, ".key")
}

/// The file of the fingerprint of the endpoint `host_name`: `<host_name>.fingerprint`.
pub fn fpr_file_name(host_name: &str) -> (res: String)
    ensures
        res@ == host_name@ + ".fingerprint"@,
{
    file_name(host_name, ".fingerprint")
}

/// The text of the error when the root certificates could not all be loaded.
pub open spec fn root_certificates_error(added: nat, ignored: nat) -> Seq<char> {
    "Could not load root ca for the icinga satellite. Added: "@ + decimal(added) + ", Ignored: "@
        + decimal(ignored)
}

/// Whether the root certificates that were read make a usable store: at least one was added
/// and none was ignored; else the configuration error.
pub fn check_root_certificates(added: usize, ignored: usize) -> (res: Result<(), String>)
    ensures
        res is Ok <==> (ignored == 0 && added > 0),
        res matches Err(text) ==> text@ == root_certificates_error(added as nat, ignored as nat),
{
    if ignored > 0 || added == 0 {
        let mut text = String::new();
        push_str(&mut text, "Could not load root ca for the icinga satellite. Added: ");
        push_decimal(&mut text, added as u64);
        push_str(&mut text, ", Ignored: ");
        push_decimal(&mut text, ignored as u64);
        Err(text)
    } else {
        Ok(())
    }
}

/// The text of the error when the key file `path` holds no private key.
pub open spec fn missing_key_error(path: Seq<char>) -> Seq<char> {
    "Could not find a rsa key in the file '"@ + path + seq!['\'']
}

/// The first of the private keys read from the key file `path`; else the configuration error.
pub fn first_private_key(keys: Vec<Vec<u8>>, path: &str) -> (res: Result<Vec<u8>, String>)
    ensures
        keys@.len() > 0 ==> res == Ok::<Vec<u8>, String>(keys@[0]),
        keys@.len() == 0 ==> res is Err && res->Err_0@ == missing_key_error(path@),
{
    let mut keys = keys;
    if keys.len() == 0 {
        let mut text = String::new();
        push_str(&mut text, "Could not find a rsa key in the file '");
        push_str(&mut text, path);
        push_char(&mut text, '\'');
        Err(text)
    } else {
        Ok(keys.swap_remove(0))
    }
}

/// The DER contents of the certificates of the PEM text `pem`, in order; `None` when the text
/// is no readable PEM.
pub uninterp spec fn pem_certificates(pem: Seq<u8>) -> Option<Seq<Seq<u8>>>;

/// The DER contents of the PKCS#8 private keys of the PEM text `pem`, in order; `None` when
/// the text is no readable PEM.
pub uninterp spec fn pem_pkcs8_keys(pem: Seq<u8>) -> Option<Seq<Seq<u8>>>;

/// The trust anchor that a root store makes of the DER certificate `der`: its subject (without
/// the outer SEQUENCE), its subject public key info and its name constraints; `None` when the
/// certificate does not parse as a trust anchor.
pub uninterp spec fn certificate_anchor(der: Seq<u8>) -> Option<(Seq<u8>, Seq<u8>, Option<Seq<u8>>)>;

/// The trust anchors of a root store, in the order they were added, each as its subject, its
/// subject public key info and its name constraints.
pub uninterp spec fn root_store_anchors(store: RootCertStore) -> Seq<(Seq<u8>, Seq<u8>, Option<Seq<u8>>)>;

/// Whether `der` is a certificate that a root store can take as a trust anchor.
pub open spec fn parsable_certificate(der: Seq<u8>) -> bool {
    certificate_anchor(der) is Some
}

/// The trust anchors of those of `ders` that parse, in order.
pub open spec fn anchors_of(ders: Seq<Seq<u8>>) -> Seq<(Seq<u8>, Seq<u8>, Option<Seq<u8>>)>
    decreases ders.len(),
{
    if ders.len() == 0 {
        Seq::empty()
    } else {
        anchors_of(ders.drop_last()) + match certificate_anchor(ders.last()) {
            Some(anchor) => seq![anchor],
            None => Seq::empty(),
        }
    }
}

/// The contents of `items`.
pub open spec fn byte_strings(items: Seq<Vec<u8>>) -> Seq<Seq<u8>> {
    items.map_values(|c: Vec<u8>| c@)
}

/// How many of `ders` a root store can take.
pub open spec fn parsable_count(ders: Seq<Seq<u8>>) -> nat
    decreases ders.len(),
{
    if ders.len() == 0 {
        0
    } else {
        parsable_count(ders.drop_last()) + if parsable_certificate(ders.last()) {
            1nat
        } else {
            0nat
        }
    }
}

/// `rustls_pemfile::certs` on `pem`: the DER contents of its certificates, in order, or the
/// error of the first PEM section that cannot be read.
#[verifier::external_body]
fn read_pem_certificates(pem: &[u8]) -> (res: Result<Vec<Vec<u8>>, std::io::Error>)
    ensures
        res is Ok == pem_certificates(pem@) is Some,
        res matches Ok(v) ==> byte_strings(v@) == pem_certificates(pem@)->0,
{
    let mut reader = pem;
    rustls_pemfile::certs(&mut reader)
}

/// `rustls_pemfile::pkcs8_private_keys` on `pem`: the DER contents of its PKCS#8 keys, in
/// order, or the error of the first PEM section that cannot be read.
#[verifier::external_body]
fn read_pem_pkcs8_keys(pem: &[u8]) -> (res: Result<Vec<Vec<u8>>, std::io::Error>)
    ensures
        res is Ok == pem_pkcs8_keys(pem@) is Some,
        res matches Ok(v) ==> byte_strings(v@) == pem_pkcs8_keys(pem@)->0,
{
    let mut reader = pem;
    rustls_pemfile::pkcs8_private_keys(&mut reader)
}

/// `RootCertStore::empty`: a store with no trust anchor.
#[verifier::external_body]
fn empty_root_store() -> (res: RootCertStore)
    ensures
        root_store_anchors(res) == Seq::<(Seq<u8>, Seq<u8>, Option<Seq<u8>>)>::empty(),
{
    RootCertStore::empty()
}

/// `RootCertStore::add_parsable_certificates`: appends to the store the trust anchor of each
/// certificate of `certs` that parses, in order, and gives how many were added and how many
/// ignored.
#[verifier::external_body]
fn add_parsable_certificates(store: &mut RootCertStore, certs: &Vec<Vec<u8>>) -> (res: (usize, usize))
    ensures
        res.0 + res.1 == certs@.len(),
        res.0 == parsable_count(byte_strings(certs@)),
        res.1 == 0 <==> forall|i: int| 0 <= i < certs@.len() ==> #[trigger] certificate_anchor(certs@[i]@) is Some,
        root_store_anchors(*final(store)) == root_store_anchors(*old(store)) + anchors_of(byte_strings(certs@)),
{
    store.add_parsable_certificates(certs)
}

#[verifier::external_type_specification]
#[verifier::external_body]
pub struct ExRootCertStore(RootCertStore);

#[verifier::external_type_specification]
#[verifier::external_body]
pub struct ExIoError(std::io::Error);

/// Why the certificates or the key of the satellite could not be loaded.
#[derive(Debug)]
pub enum CertificateLoadError {
    /// The PEM text could not be read.
    Io(std::io::Error),
    /// What was read is not usable.
    Configuration(String),
}

/// The store of the root certificates of the PEM text `pem`: the trust anchors of all of its
/// certificates, in order, of which there has to be at least one and each has to parse; else
/// the configuration error, or the error of the unreadable PEM text.
pub fn root_certificates(pem: &[u8]) -> (res: Result<RootCertStore, CertificateLoadError>)
    ensures
        match pem_certificates(pem@) {
            None => res matches Err(CertificateLoadError::Io(_)),
            Some(certs) => {
                &&& res is Ok <==> (certs.len() > 0 && parsable_count(certs) == certs.len())
                &&& res matches Ok(store) ==> root_store_anchors(store) == anchors_of(certs)
                &&& res is Err ==> (res matches Err(CertificateLoadError::Configuration(text))
                    && text@ == root_certificates_error(
                    parsable_count(certs),
                    (certs.len() - parsable_count(certs)) as nat,
                ))
            },
        },
{
    match read_pem_certificates(pem) {
        Err(e) => Err(CertificateLoadError::Io(e)),
        Ok(certs) => {
            let mut store = empty_root_store();
            let (added, ignored) = add_parsable_certificates(&mut store, &certs);
            match check_root_certificates(added, ignored) {
                Ok(()) => Ok(store),
                Err(text) => Err(CertificateLoadError::Configuration(text)),
            }
        },
    }
}

/// The certificate chain of the PEM text `pem`: the DER contents of its certificates, in
/// order; else the error of the unreadable PEM text.
pub fn certificate_chain(pem: &[u8]) -> (res: Result<Vec<Vec<u8>>, CertificateLoadError>)
    ensures
        match pem_certificates(pem@) {
            None => res matches Err(CertificateLoadError::Io(_)),
            Some(certs) => res matches Ok(v) && byte_strings(v@) == certs,
        },
{
    match read_pem_certificates(pem) {
        Err(e) => Err(CertificateLoadError::Io(e)),
        Ok(certs) => Ok(certs),
    }
}

/// The private key of the key file `path` whose PEM text is `pem`: the first of its PKCS#8
/// keys; else the configuration error when it holds none, or the error of the unreadable PEM
/// text.
pub fn private_key(pem: &[u8], path: &str) -> (res: Result<Vec<u8>, CertificateLoadError>)
    ensures
        match pem_pkcs8_keys(pem@) {
            None => res matches Err(CertificateLoadError::Io(_)),
            Some(keys) => if keys.len() > 0 {
                res matches Ok(k) && k@ == keys[0]
            } else {
                res matches Err(CertificateLoadError::Configuration(text)) && text@ == missing_key_error(path@)
            },
        },
{
    match read_pem_pkcs8_keys(pem) {
        Err(e) => Err(CertificateLoadError::Io(e)),
        Ok(keys) => {
            let ghost all = keys@;
            match first_private_key(keys, path) {
                Ok(k) => {
                    assert(byte_strings(all)[0] == all[0]@);
                    Ok(k)
                },
                Err(text) => Err(CertificateLoadError::Configuration(text)),
            }
        },
    }
}

/// What came of an attempt to read the next message of the master.
#[derive(Debug)]
pub enum ReadOutcome {
    Message(JsonRpc),
    /// A message that is no valid JSON-RPC message of icinga2.
    Malformed,
    /// The connection failed.
    ConnectionError,
    /// No message and no heartbeat came for a minute.
    Timeout,
}

/// What the receiver does after a read.
#[derive(Debug)]
pub enum ReceiverDecision {
    /// Drop the pending calls acknowledged by the position.
    Acknowledge(LogPosition),
    /// Pass the change of the known objects on to the sender.
    Forward(UpdateObject),
    /// Store the signed certificate, then close the connection.
    UpdateCertificate(UpdateCertificate),
    /// Restart the heartbeat timer.
    HeartbeatReceived,
    /// Read the next message.
    Continue,
    /// Close the connection.
    Stop,
}

/// One step of the receiver: what to do with what a read brought.
pub fn receiver_step(outcome: ReadOutcome) -> (res: ReceiverDecision)
    ensures
        match outcome {
            ReadOutcome::Message(m) => match m.spec_method() {
                IcingaMethods::SetLogPosition(p) => res == ReceiverDecision::Acknowledge(p),
                IcingaMethods::UpdateObject(o) => res is Forward && res->Forward_0 == (UpdateObject::Update { name: o.spec_name() }),
                IcingaMethods::DeleteObject(o) => res is Forward && res->Forward_0 == (UpdateObject::Delete { name: o.spec_name() }),
                IcingaMethods::UpdateCertificate(c) => res == ReceiverDecision::UpdateCertificate(c),
                IcingaMethods::HeartBeats {} => res is HeartbeatReceived,
                _ => res is Continue,
            },
            ReadOutcome::Malformed => res is Continue,
            ReadOutcome::ConnectionError => res is Stop,
            ReadOutcome::Timeout => res is Stop,
        },
{
    match outcome {
        ReadOutcome::Message(m) => {
            let method = m.into_method();
            match method {
                IcingaMethods::SetLogPosition(p) => ReceiverDecision::Acknowledge(p),
                IcingaMethods::UpdateObject(o) => ReceiverDecision::Forward(UpdateObject::Update { name: o.into_name() }),
                IcingaMethods::DeleteObject(o) => ReceiverDecision::Forward(UpdateObject::Delete { name: o.into_name() }),
                IcingaMethods::UpdateCertificate(c) => ReceiverDecision::UpdateCertificate(c),
                IcingaMethods::HeartBeats {} => ReceiverDecision::HeartbeatReceived,
                _ => ReceiverDecision::Continue,
            }
        },
        ReadOutcome::Malformed => ReceiverDecision::Continue,
        ReadOutcome::ConnectionError => ReceiverDecision::Stop,
        ReadOutcome::Timeout => ReceiverDecision::Stop,
    }
}

/// The time `call` was sent at.
pub open spec fn sent_at(call: IcingaPendingCall) -> IcingaTimestamp {
    call.0
}

/// Whether a call sent at `sent` still waits once the master acknowledged up to `position`:
/// it was sent at or after the position.
pub open spec fn still_pending(sent: IcingaTimestamp, position: LogPosition) -> bool {
    ts_le(position.spec_ts(), sent)
}

/// Starts dropping the calls acknowledged by `position`: a stored call that still waits stays
/// and the work is done (`true`); else it is dropped and the queue is to be read (`false`).
pub fn acknowledge_stored(stored: &mut Option<IcingaPendingCall>, position: LogPosition) -> (done: bool)
    ensures
        done <==> ((*old(stored)) is Some && still_pending(sent_at((*old(stored))->0), position)),
        done ==> *final(stored) == *old(stored),
        !done ==> (*final(stored)) is None,
{
    let current = stored.take();
    match current {
        Some(call) => {
            if call.0.is_at_least(&position.ts()) {
                *stored = Some(call);
                true
            } else {
                false
            }
        },
        None => false,
    }
}

/// What came of an attempt to take the next pending call from the queue.
#[derive(Debug)]
pub enum QueueEvent {
    Received(IcingaPendingCall),
    Empty,
    Disconnected,
}

/// What to do after a call was taken from the queue, or none could be.
#[derive(Debug, PartialEq, Eq)]
pub enum QueueStep {
    /// Take the next call.
    Continue,
    /// Done; the queue still works.
    Done,
    /// The queue is closed.
    Closed,
}

/// One step of dropping the acknowledged calls from the queue, after `acknowledge_stored`
/// asked for it: the first call that still waits is stored and ends the work; earlier ones are
/// dropped.
pub fn acknowledge_step(stored: &mut Option<IcingaPendingCall>, event: QueueEvent, position: LogPosition) -> (res: QueueStep)
    requires
        (*old(stored)) is None,
    ensures
        match event {
            QueueEvent::Received(call) => if still_pending(call.0, position) {
                res == QueueStep::Done && *final(stored) == Some(call)
            } else {
                res == QueueStep::Continue && (*final(stored)) is None
            },
            QueueEvent::Empty => res == QueueStep::Done && (*final(stored)) is None,
            QueueEvent::Disconnected => res == QueueStep::Closed && (*final(stored)) is None,
        },
        (*final(stored)) is Some ==> still_pending(sent_at((*final(stored))->0), position),
{
    match event {
        QueueEvent::Received(call) => {
            if call.0.is_at_least(&position.ts()) {
                *stored = Some(call);
                QueueStep::Done
            } else {
                QueueStep::Continue
            }
        },
        QueueEvent::Empty => QueueStep::Done,
        QueueEvent::Disconnected => QueueStep::Closed,
    }
}

/// Where a drain of the acknowledged calls ends, given the last event it met: the call that
/// still waits is stored; no call stays when the queue was empty, when it was closed (then the
/// drain fails), or when the drain paused after an acknowledged call.
pub open spec fn drain_end(last: QueueEvent, position: LogPosition) -> (Option<IcingaPendingCall>, Result<(), ()>) {
    match last {
        QueueEvent::Received(call) => if still_pending(call.0, position) {
            (Some(call), Ok(()))
        } else {
            (None, Ok(()))
        },
        QueueEvent::Empty => (None, Ok(())),
        QueueEvent::Disconnected => (None, Err(())),
    }
}

/// Whether the event `e` is a call that the log position `position` acknowledged.
pub open spec fn acknowledged_call(e: QueueEvent, position: LogPosition) -> bool {
    e matches QueueEvent::Received(call) && !still_pending(call.0, position)
}

/// Whether `events` are what a drain met, in order: calls that `position` acknowledged, which
/// are dropped, and a last event that ends the drain; the last may be an acknowledged call
/// only when the drain paused after `usize::MAX` of them.
pub open spec fn drain_events(events: Seq<QueueEvent>, position: LogPosition) -> bool {
    &&& 0 < events.len() <= usize::MAX
    &&& forall|i: int| 0 <= i < events.len() - 1 ==> #[trigger] acknowledged_call(events[i], position)
    &&& acknowledged_call(events.last(), position) ==> events.len() == usize::MAX
}

/// Drops the calls that the log position `position` acknowledged: a stored call that still waits
/// stays, and nothing else happens. Else the stored call is dropped and calls are taken from
/// the queue with `next_call`, in order, and dropped while the position acknowledged them; the
/// first that still waits is stored. The drain fails only when the queue is closed, and pauses
/// after `usize::MAX` dropped calls.
pub fn drop_acknowledged<F: Fn() -> QueueEvent>(
    stored: &mut Option<IcingaPendingCall>,
    position: LogPosition,
    next_call: F,
) -> (res: Result<(), ()>)
    requires
        forall|u: ()| #[trigger] next_call.requires(u),
    ensures
        ((*old(stored)) is Some && still_pending(sent_at((*old(stored))->0), position)) ==> {
            &&& *final(stored) == *old(stored)
            &&& res is Ok
        },
        !((*old(stored)) is Some && still_pending(sent_at((*old(stored))->0), position)) ==> exists|events: Seq<QueueEvent>|
            {
                &&& #[trigger] drain_events(events, position)
                &&& forall|i: int| 0 <= i < events.len() ==> next_call.ensures((), #[trigger] events[i])
                &&& (*final(stored), res) == drain_end(events.last(), position)
            },
{
    if acknowledge_stored(stored, position) {
        return Ok(());
    }
    let ghost mut events: Seq<QueueEvent> = Seq::empty();
    let mut count: usize = 0;
    loop
        invariant
            !((*old(stored)) is Some && still_pending(sent_at((*old(stored))->0), position)),
            (*stored) is None,
            events.len() == count,
            count < usize::MAX,
            forall|u: ()| #[trigger] next_call.requires(u),
            forall|i: int| 0 <= i < events.len() ==> #[trigger] acknowledged_call(events[i], position),
            forall|i: int| 0 <= i < events.len() ==> next_call.ensures((), #[trigger] events[i]),
        decreases usize::MAX - count,
    {
        let event = next_call();
        let ghost seen = event;
        proof {
            events = events.push(seen);
        }
        let step = acknowledge_step(stored, event, position);
        proof {
            assert(events.last() == seen);
            assert(forall|i: int| 0 <= i < events.len() - 1 ==> events[i] == events.drop_last()[i]);
        }
        match step {
            QueueStep::Continue => {
                if count == usize::MAX - 1 {
                    assert(drain_events(events, position));
                    return Ok(());
                }
                count = count + 1;
            },
            QueueStep::Done => {
                assert(drain_events(events, position));
                return Ok(());
            },
            QueueStep::Closed => {
                assert(drain_events(events, position));
                return Err(());
            },
        }
    }
}

/// The request of the stored call, if any.
pub open spec fn stored_requests(stored: Option<IcingaPendingCall>) -> Seq<SetStateRequest> {
    match stored {
        Some(call) => seq![call.1],
        None => Seq::empty(),
    }
}

/// The requests left when a connection closes: the stored pending call, then those still in
/// the queue, in order.
pub fn collect_remaining(stored: Option<IcingaPendingCall>, queued: Vec<IcingaPendingCall>) -> (res: Vec<SetStateRequest>)
    ensures
        res@ == stored_requests(stored) + queued@.map_values(|c: IcingaPendingCall| c.1),
{
    let mut res: Vec<SetStateRequest> = Vec::new();
    let ghost first = stored_requests(stored);
    if let Some(call) = stored {
        res.push(call.1);
    }
    let ghost q = queued@;
    let mut queued = queued;
    let mut rest: Vec<SetStateRequest> = Vec::new();
    while queued.len() > 0
        invariant
            rest@ + queued@.map_values(|c: IcingaPendingCall| c.1).reverse() =~= q.map_values(|c: IcingaPendingCall| c.1).reverse(),
        decreases queued.len(),
    {
        let ghost before = queued@;
        let call = queued.pop().unwrap();
        assert(before.map_values(|c: IcingaPendingCall| c.1).reverse() =~= seq![call.1] + queued@.map_values(|c: IcingaPendingCall| c.1).reverse());
        rest.push(call.1);
    }
    while rest.len() > 0
        invariant
            res@ + rest@.reverse() =~= first + q.map_values(|c: IcingaPendingCall| c.1),
        decreases rest.len(),
    {
        let ghost before = rest@;
        let r = rest.pop().unwrap();
        assert(before.reverse() =~= seq![r] + rest@.reverse());
        res.push(r);
    }
    res
}

/// The requests still to hand over when handing `failed` over failed: `failed` first, then
/// `rest` in its order.
pub fn undelivered(failed: SetStateRequest, rest: Vec<SetStateRequest>) -> (res: Vec<SetStateRequest>)
    ensures
        res@ == seq![failed] + rest@,
{
    let mut res = rest;
    res.insert(0, failed);
    proof {
        assert(res@ =~= seq![failed] + rest@);
    }
    res
}

/// The requests to send again on the next connection: those the receiver returned, followed by
/// those the worker could not hand over; none when the receiver was lost.
pub fn merge_dropped(from_receiver: Option<Vec<SetStateRequest>>, not_handed_over: Option<Vec<SetStateRequest>>) -> (res: Option<Vec<SetStateRequest>>)
    ensures
        match from_receiver {
            None => res is None,
            Some(r) => res is Some && res->0@ == r@ + match not_handed_over {
                Some(n) => n@,
                None => Seq::empty(),
            },
        },
{
    match from_receiver {
        None => None,
        Some(mut dropped) => {
            match not_handed_over {
                None => {
                    assert(dropped@ + Seq::<SetStateRequest>::empty() =~= dropped@);
                },
                Some(mut remaining) => {
                    dropped.append(&mut remaining);
                },
            }
            Some(dropped)
        },
    }
}

} // verus!
