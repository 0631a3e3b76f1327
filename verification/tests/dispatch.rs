use lumpcli::command::{validate, ArgumentError, Command, DeviceId, Request};
use lumpcli::lump_id::LumpId;
use lumpcli::output::{
    dispatch, render_delete, render_get, render_head, render_list, CliOutcome, LumpHeaderInfo,
    ReplyBody, TransportError,
};

fn lines_of(outcome: CliOutcome) -> Vec<String> {
    match outcome {
        CliOutcome::Success(lines) => lines,
        CliOutcome::Fatal(message) => panic!("unexpected fatal outcome: {}", message),
    }
}

fn fatal_of(outcome: CliOutcome) -> String {
    match outcome {
        CliOutcome::Success(_) => panic!("unexpected success"),
        CliOutcome::Fatal(message) => message,
    }
}

fn transport(message: &str) -> TransportError {
    TransportError {
        message: message.to_string(),
    }
}

#[test]
fn commands_needing_a_lump_id_fail_without_one() {
    // No request object exists, so no network call can follow.
    assert_eq!(
        validate(Command::Get, None),
        Err(ArgumentError::MissingLumpId)
    );
    assert_eq!(
        validate(Command::Head, None),
        Err(ArgumentError::MissingLumpId)
    );
    assert_eq!(
        validate(Command::Delete, None),
        Err(ArgumentError::MissingLumpId)
    );
    assert_eq!(validate(Command::List, None), Ok(Request::List));
}

#[test]
fn malformed_lump_id_text_is_rejected_before_any_request() {
    assert_eq!(
        validate(Command::Get, Some("not-hex")),
        Err(ArgumentError::MalformedLumpId)
    );
    assert_eq!(
        validate(Command::Delete, Some("")),
        Err(ArgumentError::MalformedLumpId)
    );
}

#[test]
fn well_formed_arguments_build_the_typed_request() {
    let id = LumpId::new(0xff);
    assert_eq!(validate(Command::Get, Some("ff")), Ok(Request::Get(id)));
    assert_eq!(validate(Command::Head, Some("ff")), Ok(Request::Head(id)));
    assert_eq!(
        validate(Command::Delete, Some("ff")),
        Ok(Request::Delete(id))
    );
    // An enumeration ignores the identifier text entirely.
    assert_eq!(validate(Command::List, Some("not-hex")), Ok(Request::List));
}

#[test]
fn device_id_must_be_non_empty() {
    assert!(DeviceId::new(String::new()).is_err());
    let device = DeviceId::new("dev1".to_string()).unwrap();
    assert_eq!(device.as_text(), "dev1");
}

#[test]
fn enumerate_prints_count_then_descriptors() {
    let empty = lines_of(render_list(Ok(vec![])));
    assert_eq!(empty, vec!["listed.len() = 0".to_string()]);

    let ids = vec![LumpId::new(1), LumpId::new(0xab12), LumpId::new(u128::MAX)];
    let lines = lines_of(render_list(Ok(ids)));
    assert_eq!(lines.len(), 4);
    assert_eq!(lines[0], "listed.len() = 3");
    assert_eq!(lines[1], "00000000000000000000000000000001");
    assert_eq!(lines[2], "0000000000000000000000000000ab12");
    assert_eq!(lines[3], "ffffffffffffffffffffffffffffffff");
}

#[test]
fn fetching_a_missing_lump_reports_absence_as_success() {
    let id = LumpId::from_text("0000000000000000000000000000000001").unwrap();
    let lines = lines_of(render_get(id, Ok(None)));
    assert_eq!(
        lines,
        vec!["00000000000000000000000000000001 does not exist".to_string()]
    );

    let lines = lines_of(render_head(id, Ok(None)));
    assert_eq!(
        lines,
        vec!["00000000000000000000000000000001 does not exist".to_string()]
    );
}

#[test]
fn fetching_a_present_lump_prints_its_bytes() {
    let id = LumpId::new(3);
    let lines = lines_of(render_get(id, Ok(Some(vec![1, 2, 255]))));
    assert_eq!(lines, vec!["[1, 2, 255]".to_string()]);

    let lines = lines_of(render_get(id, Ok(Some(vec![]))));
    assert_eq!(lines, vec!["[]".to_string()]);

    let lines = lines_of(render_get(id, Ok(Some(vec![9]))));
    assert_eq!(lines, vec!["[9]".to_string()]);
}

#[test]
fn fetching_metadata_prints_the_record() {
    let id = LumpId::new(3);
    let info = LumpHeaderInfo {
        approximate_data_size: 42,
    };
    let lines = lines_of(render_head(id, Ok(Some(info))));
    assert_eq!(
        lines,
        vec!["LumpHeader { approximate_data_size: 42 }".to_string()]
    );
}

#[test]
fn remove_reports_presence_then_absence() {
    let id = LumpId::new(0xab);
    // First removal: an entry existed.
    let lines = lines_of(render_delete(id, Ok(true)));
    assert_eq!(
        lines,
        vec!["Removed 000000000000000000000000000000ab".to_string()]
    );
    // Removing it again: nothing is left to remove.
    let lines = lines_of(render_delete(id, Ok(false)));
    assert_eq!(
        lines,
        vec!["There is no 000000000000000000000000000000ab".to_string()]
    );
}

#[test]
fn transport_errors_are_fatal_for_every_command() {
    let id = LumpId::new(1);
    let requests = vec![
        Request::List,
        Request::Get(id),
        Request::Head(id),
        Request::Delete(id),
    ];
    for request in requests {
        let outcome = dispatch(&request, Err(transport("connection refused"))).unwrap();
        assert_eq!(fatal_of(outcome), "connection refused");
    }
}

#[test]
fn transport_errors_are_fatal_in_each_branch() {
    let id = LumpId::new(1);
    assert_eq!(
        fatal_of(render_list(Err(transport("broken pipe")))),
        "broken pipe"
    );
    assert_eq!(
        fatal_of(render_get(id, Err(transport("broken pipe")))),
        "broken pipe"
    );
    assert_eq!(
        fatal_of(render_head(id, Err(transport("broken pipe")))),
        "broken pipe"
    );
    assert_eq!(
        fatal_of(render_delete(id, Err(transport("broken pipe")))),
        "broken pipe"
    );
}

#[test]
fn dispatch_routes_each_command_to_its_branch() {
    let id = LumpId::new(7);
    let lines = lines_of(
        dispatch(&Request::List, Ok(ReplyBody::Listed(vec![id]))).unwrap(),
    );
    assert_eq!(lines[0], "listed.len() = 1");

    let lines = lines_of(
        dispatch(&Request::Get(id), Ok(ReplyBody::Value(Some(vec![8])))).unwrap(),
    );
    assert_eq!(lines, vec!["[8]".to_string()]);

    let lines = lines_of(
        dispatch(&Request::Delete(id), Ok(ReplyBody::Removed(true))).unwrap(),
    );
    assert_eq!(
        lines,
        vec!["Removed 00000000000000000000000000000007".to_string()]
    );
}

#[test]
fn dispatch_refuses_a_reply_of_the_wrong_shape() {
    let outcome = dispatch(&Request::List, Ok(ReplyBody::Removed(true)));
    assert!(outcome.is_none());
}
