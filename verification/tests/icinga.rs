use tornado_monitoring::icinga::check_result::{
    CheckResultParams, HostCheckResult, HostState, ServiceCheckResult, ServiceState,
    SharedCheckResult,
};
use tornado_monitoring::icinga::hello::{Capabilities, IcingaHelloParams};
use tornado_monitoring::icinga::log_position::LogPosition;
use tornado_monitoring::icinga::object_store::{split_once_on, IcingaObjectStore};
use tornado_monitoring::icinga::rpc::{is_expected_value, IcingaMethods, JsonRpc, JSON_RPC_VERSION};
use tornado_monitoring::icinga::timestamp::IcingaTimestamp;
use tornado_monitoring::icinga::update_object::{
    IcingaObjectType, UpdateObjectParams, UpdateObjectParamsCreationError,
};
use tornado_monitoring::text::{decimal_string, equals_ignore_ascii_case};
use tornado_monitoring::value::{FloatBits, Value, ValueMap};

#[test]
fn store_knows_inserted_hosts_and_services() {
    let mut store = IcingaObjectStore::new();
    assert!(!store.exists_object("myHost"));
    store.insert("myHost".to_string());
    assert!(store.exists_object("myHost"));
    assert!(!store.exists_object("myHost!ping"));
    store.insert("myHost!ping".to_string());
    assert!(store.exists_object("myHost!ping"));
    store.insert("other!disk".to_string());
    assert!(store.exists_object("other"));
    assert!(store.exists_object("other!disk"));
    assert!(!store.exists_object("other!ping"));
}

#[test]
fn store_forgets_deleted_objects() {
    let mut store = IcingaObjectStore::new();
    store.insert("h!a".to_string());
    store.insert("h!b".to_string());
    store.delete("h!a");
    assert!(!store.exists_object("h!a"));
    assert!(store.exists_object("h!b"));
    assert!(store.exists_object("h"));
    store.delete("h");
    assert!(!store.exists_object("h"));
    assert!(!store.exists_object("h!b"));
    store.delete("missing!x");
    assert!(!store.exists_object("missing"));
}

#[test]
fn store_insert_twice_is_insert_once() {
    let mut store = IcingaObjectStore::new();
    store.insert("h!a".to_string());
    store.insert("h!a".to_string());
    store.delete("h!a");
    assert!(!store.exists_object("h!a"));
    assert!(store.exists_object("h"));
}

#[test]
fn exists_service_only_asks_for_the_host() {
    let mut store = IcingaObjectStore::new();
    assert!(!store.exists_service("h", "a"));
    store.insert("h".to_string());
    assert!(store.exists_service("h", "a"));
}

#[test]
fn split_on_first_separator() {
    assert_eq!(split_once_on("a!b!c", '!'), ("a".to_string(), Some("b!c".to_string())));
    assert_eq!(split_once_on("abc", '!'), ("abc".to_string(), None));
    assert_eq!(split_once_on("!", '!'), ("".to_string(), Some("".to_string())));
    assert_eq!(split_once_on("h!", '!'), ("h".to_string(), Some("".to_string())));
    assert_eq!(split_once_on("a:b:c", ':'), ("a".to_string(), Some("b:c".to_string())));
    assert_eq!(split_once_on("a!b", ':'), ("a!b".to_string(), None));
}

#[test]
fn host_state_parsing() {
    assert_eq!(HostState::from_code(0), HostState::UP);
    assert_eq!(HostState::from_code(1), HostState::DOWN);
    assert_eq!(HostState::from_code(17), HostState::DOWN);
    assert_eq!(HostState::from_name("up"), Some(HostState::UP));
    assert_eq!(HostState::from_name("Down"), Some(HostState::DOWN));
    assert_eq!(HostState::from_name("sideways"), None);
    assert_eq!(HostState::DOWN.code(), 1);
}

#[test]
fn service_state_parsing() {
    assert_eq!(ServiceState::from_code(2), ServiceState::ERROR);
    assert_eq!(ServiceState::from_code(99), ServiceState::UNKNOWN);
    assert_eq!(ServiceState::from_name("warning"), Some(ServiceState::WARNING));
    assert_eq!(ServiceState::from_name("Unknown"), Some(ServiceState::UNKNOWN));
    assert_eq!(ServiceState::from_name("OKAY"), None);
    assert_eq!(ServiceState::UNKNOWN.code(), 3);
}

#[test]
fn ascii_case_is_ignored_only_for_ascii() {
    assert!(equals_ignore_ascii_case("HeLLo", "hello"));
    assert!(!equals_ignore_ascii_case("É", "é"));
    assert!(!equals_ignore_ascii_case("ab", "abc"));
}

#[test]
fn check_result_names() {
    let host = CheckResultParams::for_host(
        "my_host".to_owned(),
        HostCheckResult { state: HostState::UP, cr: Box::default() },
    );
    assert_eq!(host.name(), "my_host");
    let service = CheckResultParams::for_service(
        "my_host".to_owned(),
        "my_service".to_owned(),
        ServiceCheckResult { state: ServiceState::OK, cr: Box::new(SharedCheckResult::default()) },
    );
    assert_eq!(service.name(), "my_host!my_service");
}

#[test]
fn hello_description() {
    let params = IcingaHelloParams { capabilities: Capabilities::from_bits(1), version: 21307 };
    assert_eq!(params.get_version(), 21307);
    assert!(params.get_permissions().execute_arbitrary_command());
    assert_eq!(params.to_string(), "Version: 2.13.7, Permissions: execute_arbitrary_command");
    let none = IcingaHelloParams { capabilities: Capabilities::from_bits(2), version: 21300 };
    assert_eq!(none.to_string(), "Version: 2.13.0, Permissions: none");
}

#[test]
fn timestamps_compare_by_seconds_then_micros() {
    let a = IcingaTimestamp::from_parts(10, 500);
    let b = IcingaTimestamp::from_parts(10, 499);
    let c = IcingaTimestamp::from_parts(9, 999_999);
    assert!(a.is_at_least(&b));
    assert!(!b.is_at_least(&a));
    assert!(b.is_at_least(&c));
    assert!(a.is_at_least(&a));
    assert_eq!(IcingaTimestamp::null(), IcingaTimestamp::from_parts(0, 0));
    assert!(IcingaTimestamp::now().micros() < 1_000_000);
    assert!(IcingaTimestamp::now().is_at_least(&IcingaTimestamp::from_parts(1_600_000_000, 0)));
    assert_eq!(LogPosition::at(a).ts(), a);
    assert!(LogPosition::now().ts().is_at_least(&a));
}

#[test]
fn host_creation_refuses_exclamation_points() {
    let error = UpdateObjectParams::create_host("a!b").unwrap_err();
    assert_eq!(
        error,
        UpdateObjectParamsCreationError::InvalidName(
            "Invalid name for host. Object can not contain an exclamation point: a!b".to_string()
        )
    );
    assert_eq!(
        error.to_string(),
        "UpdateObjectParamsCreationError::InvalidName: Invalid name for host. Object can not contain an exclamation point: a!b"
    );
}

#[test]
fn service_creation_refusal_names_the_host() {
    let error = UpdateObjectParams::create_service("host", "s!x").unwrap_err();
    assert_eq!(
        error,
        UpdateObjectParamsCreationError::InvalidName(
            "Invalid name for service. Object can not contain an exclamation point: host".to_string()
        )
    );
}

#[test]
fn default_host_configuration() {
    let mut builder = UpdateObjectParams::create_host("myHost").unwrap();
    builder.set_zone(Some("master".to_string()));
    let params = builder.build();
    assert_eq!(params.name(), "myHost");
    assert_eq!(params.object_type(), IcingaObjectType::Host);
    assert_eq!(params.version(), FloatBits { bits: 0 });
    assert_eq!(
        params.config(),
        &Some("object Host \"myHost\" {\n\tcheck_command = \"dummy\"\n\tzone = \"master\"\n}".to_string())
    );
    assert_eq!(params.package(), &None);
}

#[test]
fn default_service_configuration() {
    let mut builder = UpdateObjectParams::create_service("h", "s").unwrap();
    let mut vars = ValueMap::new();
    vars.insert("a".to_string(), Value::Null);
    builder.set_modified_attributes(Some(vars));
    let params = builder.build();
    assert_eq!(params.name(), "h!s");
    assert_eq!(params.object_type(), IcingaObjectType::Service);
    assert_eq!(
        params.config(),
        &Some("object Service \"h!s\" {\n\thost_name = \"h\"\n\tcheck_command = \"dummy\"\n}".to_string())
    );
    assert_eq!(params.modified_attributes().as_ref().unwrap().len(), 1);
}

#[test]
fn own_configuration_is_kept() {
    let mut builder = UpdateObjectParams::create_host("h").unwrap();
    builder.set_config(Some("object Host \"h\" {}".to_string()));
    let params = builder.build();
    assert_eq!(params.config(), &Some("object Host \"h\" {}".to_string()));
}

#[test]
fn json_rpc_messages() {
    let rpc = JsonRpc::from_method(IcingaMethods::HeartBeats {});
    assert_eq!(rpc.get_timestamp(), None);
    let ts = IcingaTimestamp::from_parts(5, 6);
    let rpc = JsonRpc::with_timestamp(IcingaMethods::ConfigUpdate {}, Some(ts));
    assert_eq!(rpc.get_timestamp(), Some(ts));
    assert_eq!(rpc.method(), &IcingaMethods::ConfigUpdate {});
    assert!(is_expected_value("2.0", JSON_RPC_VERSION));
    assert!(!is_expected_value("3.0", JSON_RPC_VERSION));
}

#[test]
fn decimal_notation() {
    assert_eq!(decimal_string(0), "0");
    assert_eq!(decimal_string(1234567890), "1234567890");
    assert_eq!(decimal_string(u64::MAX), u64::MAX.to_string());
}

#[test]
fn value_map_keeps_first_key_order() {
    let mut map = ValueMap::new();
    map.insert("b".to_string(), Value::Bool(true));
    map.insert("a".to_string(), Value::Null);
    map.insert("b".to_string(), Value::Bool(false));
    assert_eq!(map.len(), 2);
    assert_eq!(map.get("b"), Some(&Value::Bool(false)));
    assert_eq!(map.get("c"), None);
    assert_eq!(map.entries[0].0, "b");
    assert!(!map.is_empty());
}
