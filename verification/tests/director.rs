use std::sync::{Arc, Mutex};
use tornado_monitoring::director::{
    DirectorAction, DirectorActionName, DirectorExecutor, DIRECTOR_ACTION_LIVE_CREATION_KEY,
    DIRECTOR_ACTION_NAME_KEY, DIRECTOR_ACTION_PAYLOAD_KEY,
};
use tornado_monitoring::executor::{Action, ExecutorError};
use tornado_monitoring::value::{Value, ValueMap};

fn filter_map() -> ValueMap {
    let mut map = ValueMap::new();
    map.insert("filter".to_owned(), Value::Text("filter_value".to_owned()));
    map.insert("type".to_owned(), Value::Text("Host".to_owned()));
    map
}

#[test]
fn should_fail_if_action_missing() {
    // Arrange
    let callback_called = Arc::new(Mutex::new(None));

    let mut executor = DirectorExecutor::new(|director_action| {
        let mut called = callback_called.lock().unwrap();
        *called = Some(director_action);
        Ok(())
    });

    let action = Action::new("");

    // Act
    let result = executor.execute(action);

    // Assert
    assert!(result.is_err());
    assert_eq!(
        Err(ExecutorError::MissingArgumentError {
            message: "Director Action not specified".to_owned()
        }),
        result
    );
    assert_eq!(None, *callback_called.lock().unwrap());
}

#[test]
fn should_have_empty_payload_if_action_does_not_contains_one() {
    // Arrange
    let callback_called = Arc::new(Mutex::new(None));
    let mut executor = DirectorExecutor::new(|director_action| {
        let mut called = callback_called.lock().unwrap();
        *called = Some(director_action);
        Ok(())
    });

    let mut action = Action::new("");
    action
        .payload
        .insert(DIRECTOR_ACTION_NAME_KEY.to_owned(), Value::Text("create_service".to_owned()));
    action.payload.insert(DIRECTOR_ACTION_LIVE_CREATION_KEY.to_owned(), Value::Bool(true));

    // Act
    let result = executor.execute(action);

    // Assert
    assert!(result.is_ok());
    assert_eq!(
        Some(DirectorAction {
            name: DirectorActionName::CreateService,
            payload: ValueMap::new(),
            live_creation: true
        }),
        *callback_called.lock().unwrap()
    );
}

#[test]
fn should_call_the_callback_if_valid_action() {
    // Arrange
    let callback_called = Arc::new(Mutex::new(None));
    let mut executor = DirectorExecutor::new(|director_action| {
        let mut called = callback_called.lock().unwrap();
        *called = Some(director_action);
        Ok(())
    });

    let mut action = Action::new("");
    action
        .payload
        .insert(DIRECTOR_ACTION_NAME_KEY.to_owned(), Value::Text("create_host".to_owned()));
    action.payload.insert(DIRECTOR_ACTION_PAYLOAD_KEY.to_owned(), Value::Object(filter_map()));

    // Act
    let result = executor.execute(action);

    println!("{:?}", result);
    // Assert
    assert!(result.is_ok());
    assert_eq!(
        Some(DirectorAction {
            name: DirectorActionName::CreateHost,
            payload: filter_map(),
            live_creation: false
        }),
        *callback_called.lock().unwrap()
    );
}

#[test]
fn unknown_action_name_is_refused_without_calling_back() {
    let called = Arc::new(Mutex::new(false));
    let mut executor = DirectorExecutor::new(|_| {
        *called.lock().unwrap() = true;
        Ok(())
    });
    let mut action = Action::new("id");
    action.payload.insert(DIRECTOR_ACTION_NAME_KEY.to_owned(), Value::Text("delete_host".to_owned()));

    let result = executor.execute(action);

    assert_eq!(
        Err(ExecutorError::UnknownArgumentError {
            message: "Invalid action_name value. Found: 'delete_host'. Expected valid action_name. Refer to the documentation".to_owned()
        }),
        result
    );
    assert!(!*called.lock().unwrap());
}

#[test]
fn action_name_that_is_no_text_counts_as_missing() {
    let mut executor = DirectorExecutor::new(|_| Ok(()));
    let mut action = Action::new("id");
    action.payload.insert(DIRECTOR_ACTION_NAME_KEY.to_owned(), Value::Bool(true));

    let result = executor.execute(action);

    assert!(matches!(result, Err(ExecutorError::MissingArgumentError { .. })));
}

#[test]
fn callback_error_is_the_result() {
    let mut executor = DirectorExecutor::new(|_| {
        Err(ExecutorError::ConfigurationError { message: "down".to_owned() })
    });
    let mut action = Action::new("id");
    action.payload.insert(DIRECTOR_ACTION_NAME_KEY.to_owned(), Value::Text("create_host".to_owned()));
    action.payload.insert(DIRECTOR_ACTION_LIVE_CREATION_KEY.to_owned(), Value::Text("yes".to_owned()));

    let result = executor.execute(action);

    assert_eq!(Err(ExecutorError::ConfigurationError { message: "down".to_owned() }), result);
}

#[test]
fn api_subpaths() {
    assert_eq!(DirectorActionName::CreateHost.to_director_api_subpath(), "host");
    assert_eq!(DirectorActionName::CreateService.to_director_api_subpath(), "service");
}
