use wlroots::error::{check_call, check_created, WlrError};

#[test]
fn message_of_a_destroyed_object_names_its_type() {
    let e = WlrError::ObjectDestroyed("wlr_output".to_string());
    assert_eq!(e.message(), "use of destroyed wlr_output");
}

#[test]
fn message_of_a_failed_call_names_the_operation() {
    let e = WlrError::CallFailed("wlr_output_commit".to_string());
    assert_eq!(e.message(), "call to wlr_output_commit failed");
}

#[test]
fn fatal_message_of_a_destroyed_object_names_the_operation_on_it() {
    let e = WlrError::ObjectDestroyed("wlr_output".to_string());
    assert_eq!(e.fatal_message(), "operation on destroyed wlr_output");
    assert_eq!(WlrError::ObjectDestroyed(String::new()).fatal_message(), "operation on destroyed ");
}

#[test]
fn fatal_message_of_a_failed_call_is_its_message() {
    let e = WlrError::CallFailed("wlr_output_commit".to_string());
    assert_eq!(e.fatal_message(), "call to wlr_output_commit failed");
    assert_eq!(e.fatal_message(), e.message());
}

#[test]
fn messages_of_empty_names() {
    assert_eq!(WlrError::ObjectDestroyed(String::new()).message(), "use of destroyed ");
    assert_eq!(WlrError::CallFailed(String::new()).message(), "call to  failed");
}

#[test]
fn check_created_passes_a_reference_on() {
    assert_eq!(check_created(Some(7usize), "make").unwrap(), 7);
}

#[test]
fn check_created_turns_null_into_the_failure_of_the_constructor() {
    match check_created(None::<usize>, "wlr_scene_create") {
        Err(WlrError::CallFailed(name)) => assert_eq!(name, "wlr_scene_create"),
        _ => panic!("null must be a failed call"),
    }
}

#[test]
fn check_call_passes_true_and_fails_false() {
    assert!(check_call(true, "wlr_output_commit").is_ok());
    match check_call(false, "wlr_output_commit") {
        Err(WlrError::CallFailed(name)) => assert_eq!(name, "wlr_output_commit"),
        _ => panic!("false must be a failed call"),
    }
}
