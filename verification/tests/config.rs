use tornado_monitoring::icinga::check_result::Command;
use tornado_monitoring::icinga::config::{ConfigProvider, Host, Service};
use tornado_monitoring::value::{Number, Value, ValueMap};

fn text(s: &str) -> Value {
    Value::Text(s.to_string())
}

fn object(entries: Vec<(&str, Value)>) -> Value {
    let mut map = ValueMap::new();
    for (key, value) in entries {
        map.insert(key.to_string(), value);
    }
    Value::Object(map)
}

fn map(entries: Vec<(&str, Value)>) -> ValueMap {
    match object(entries) {
        Value::Object(m) => m,
        _ => unreachable!(),
    }
}

fn test_data() -> Value {
    object(vec![(
        "test_data",
        Value::Array(vec![text("linux"), Value::Bool(true), object(vec![("name", text("anton"))])]),
    )])
}

#[test]
fn should_render_host_config_with_host_name() {
    let host = Host { name: "my-host".to_string(), ..Host::default() };

    let expected = r#"object Host "my-host" {
}"#;

    let result = host.to_string();

    assert_eq!(result, expected)
}

#[test]
fn should_render_host_import() {
    let host = Host {
        name: "my-host".to_string(),
        import: Some("neteye-local-template".to_string()),
        ..Host::default()
    };

    let expected = r#"object Host "my-host" {
    import "neteye-local-template"
}"#;

    let result = host.to_string();

    assert_eq!(result, expected)
}

#[test]
fn should_render_host_check_command() {
    let host = Host {
        name: "my-host".to_string(),
        import: Some("neteye-local-template".to_string()),
        check_command: Some(Command::String("hostalive".to_string())),
        ..Host::default()
    };

    let expected = r#"object Host "my-host" {
    import "neteye-local-template"
    check_command = "hostalive"
}"#;

    let result = host.to_string();

    assert_eq!(result, expected)
}

#[test]
fn should_render_host_array_command() {
    let host = Host {
        name: "my-host".to_string(),
        import: Some("neteye-local-template".to_string()),
        check_command: Some(Command::Vec(vec![
            "ping".to_string(),
            "127.0.0.1".to_string(),
            "-c".to_string(),
            "10".to_string(),
        ])),
        ..Host::default()
    };

    let expected = r#"object Host "my-host" {
    import "neteye-local-template"
    check_command = ["ping", "127.0.0.1", "-c", "10"]
}"#;

    let result = host.to_string();

    assert_eq!(result, expected)
}

#[test]
fn should_render_host_vars() {
    let vars = map(vec![("os", text("linux"))]);

    let host = Host {
        name: "my-host".to_string(),
        import: Some("neteye-local-template".to_string()),
        check_command: Some(Command::String("hostalive".to_string())),
        vars: Some(vars),
        ..Host::default()
    };

    let expected = r#"object Host "my-host" {
    import "neteye-local-template"
    check_command = "hostalive"
    vars = {
        os = "linux"
    }
}"#;

    let result = host.to_string();

    assert_eq!(result, expected)
}

#[test]
fn should_render_host_complex_vars() {
    let vars = map(vec![("os", text("linux")), ("other", test_data())]);

    let host = Host {
        name: "my-host".to_string(),
        import: Some("neteye-local-template".to_string()),
        check_command: Some(Command::String("hostalive".to_string())),
        vars: Some(vars),
        ..Host::default()
    };

    let expected = r#"object Host "my-host" {
    import "neteye-local-template"
    check_command = "hostalive"
    vars = {
        os = "linux"
        other = {
            test_data = [
                "linux",
                true,
                {
                    name = "anton"
                }
            ]
        }
    }
}"#;

    let result = host.to_string();

    assert_eq!(result, expected)
}

#[test]
fn should_render_host_group() {
    let host = Host {
        name: "my-host".to_string(),
        groups: Some(vec!["neteye".to_string(), "uibk".to_string()]),
        ..Host::default()
    };

    let expected = r#"object Host "my-host" {
    groups = ["neteye", "uibk"]
}"#;

    let result = host.to_string();

    assert_eq!(result, expected)
}

#[test]
fn should_render_host_whole_config() {
    let vars = map(vec![("os", test_data())]);

    let host = Host {
        name: "my-host".to_string(),
        check_command: Some(Command::String("hostalive".to_string())),
        zone: Some("master".to_string()),
        import: Some("neteye-local-template".to_string()),
        address: Some("uibk.ac.at".to_string()),
        address6: Some("::1".to_string()),
        max_check_attempts: Some("3".to_string()),
        check_interval: Some("1s".to_string()),
        retry_interval: Some("30s".to_string()),
        groups: Some(vec!["neteye".to_string(), "uibk".to_string()]),
        vars: Some(vars),
        enable_active_checks: Some(true),
    };

    let expected = r#"object Host "my-host" {
    import "neteye-local-template"
    check_command = "hostalive"
    zone = "master"
    groups = ["neteye", "uibk"]
    address = "uibk.ac.at"
    address6 = "::1"
    max_check_attempts = "3"
    check_interval = "1s"
    retry_interval = "30s"
    enable_active_checks = true
    vars = {
        os = {
            test_data = [
                "linux",
                true,
                {
                    name = "anton"
                }
            ]
        }
    }
}"#;

    let result = host.to_string();

    assert_eq!(expected, result)
}

#[test]
fn should_render_host_creation_function() {
    let host = Host {
        name: "my-host".to_string(),
        check_command: Some(Command::String("hostalive".to_string())),
        zone: Some("master".to_string()),
        ..Host::default()
    };

    let result = host.configuration();

    println!("{}", result)
}

#[test]
fn should_render_service() {
    let service = Service { name: "my-service".to_string(), ..Service::default() };

    let expected = r#"object Service "my-service" {
}"#;

    let result = service.to_string();

    assert_eq!(result, expected)
}

#[test]
fn should_render_service_whole_config() {
    let vars = map(vec![("os", text("linux")), ("other", test_data())]);

    let service = Service {
        name: "my-service".to_string(),
        import: Some("neteye-service-template".to_string()),
        host: Some("uibk.ac.at".to_string()),
        check_command: Some(Command::String("hostalive".to_string())),
        command_endpoint: Some("uibk.ac.at".to_string()),
        enable_notifications: Some(true),
        enable_active_checks: Some(false),
        enable_passive_checks: Some(true),
        enable_event_handler: Some(true),
        enable_flapping: Some(false),
        enable_perfdata: Some(true),
        volatile: Some(true),
        vars: Some(vars),
    };

    let expected = r#"object Service "my-service" {
    import "neteye-service-template"
    host = "uibk.ac.at"
    check_command = "hostalive"
    command_endpoint = "uibk.ac.at"
    enable_notifications = true
    enable_active_checks = false
    enable_passive_checks = true
    enable_event_handler = true
    enable_flapping = false
    enable_perfdata = true
    volatile = true
    vars = {
        os = "linux"
        other = {
            test_data = [
                "linux",
                true,
                {
                    name = "anton"
                }
            ]
        }
    }
}"#;

    let result = service.to_string();

    assert_eq!(result, expected)
}

#[test]
fn host_creation_function_wraps_lookup_and_configuration() {
    let host = Host {
        name: "my-host".to_string(),
        check_command: Some(Command::String("hostalive".to_string())),
        ..Host::default()
    };

    let result = host.live_creation_function(&());

    let expected = "existing = get_host(\"my-host\")\nif (existing) {\n    \"ObjectAlreadyExistingError\"\n} else {\n    result = Internal.run_with_activation_context(function () {\n        object Host \"my-host\" {\n    check_command = \"hostalive\"\n}\n    })\n    \n    if (result) {\n        \"Success\"\n    } else {\n        \"ObjectCreationFailureError\"\n    }\n}";
    assert_eq!(result, expected);
}

#[test]
fn service_getter_escapes_names() {
    let service = Service { name: "disk \"C:\"".to_string(), ..Service::default() };
    let host: &str = "host\n1";
    assert_eq!(service.getter_function(&host), "get_service(\"disk \\\"C:\\\"\", \"host\\n1\")");
}

#[test]
fn names_with_special_characters_are_escaped() {
    let host = Host {
        name: "it's\tmé".to_string(),
        groups: Some(vec![]),
        vars: Some(map(vec![
            ("plain_key", Value::Null),
            ("key with space", Value::Number(Number::PosInt(42))),
            ("négatif", Value::Number(Number::NegInt(-7))),
            ("empty", Value::Array(vec![])),
            ("ratio", Value::Number(Number::Float("0.5".to_string()))),
        ])),
        ..Host::default()
    };

    let expected = "object Host \"it\\'s\\tm\\u{e9}\" {\n    groups = []\n    vars = {\n        plain_key = null\n        key with space = 42\n        \"n\\u{e9}gatif\" = -7\n        empty = [\n\n        ]\n        ratio = 0.5\n    }\n}";
    assert_eq!(host.to_string(), expected);
}

#[test]
fn array_check_command_of_service_is_listed() {
    let service = Service {
        name: "ping".to_string(),
        check_command: Some(Command::from(vec!["ping".to_string(), "-4".to_string()])),
        ..Service::default()
    };
    assert_eq!(service.to_string(), "object Service \"ping\" {\n    check_command = [\"ping\", \"-4\"]\n}");
}
