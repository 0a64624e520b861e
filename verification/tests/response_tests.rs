use wom_rs::handle_response;
use wom_rs::WomError;

#[test]
fn success_status_hands_body_through() {
    let body = r#"[{"id":1},{"id":2}]"#.to_string();
    let result = handle_response(Ok((200, body.clone())));
    assert_eq!(result, Ok(body));
}

#[test]
fn error_status_surfaces_envelope_message() {
    let body = r#"{"message":"Player not found."}"#.to_string();
    let result = handle_response(Ok((404, body)));
    assert_eq!(
        result,
        Err(WomError::Upstream("Player not found.".to_string()))
    );
}

#[test]
fn any_non_success_status_reads_the_envelope() {
    let body = r#"{"message":"Too many requests."}"#.to_string();
    let result = handle_response(Ok((429, body)));
    assert_eq!(
        result,
        Err(WomError::Upstream("Too many requests.".to_string()))
    );
}

#[test]
fn unreadable_envelope_becomes_decode_error() {
    let result = handle_response(Ok((404, "<html>oops</html>".to_string())));
    assert_eq!(
        result,
        Err(WomError::Decode("<html>oops</html>".to_string()))
    );
}

#[test]
fn envelope_without_message_field_becomes_decode_error() {
    let result = handle_response(Ok((500, r#"{"error":"boom"}"#.to_string())));
    assert_eq!(result, Err(WomError::Decode(r#"{"error":"boom"}"#.to_string())));
}

#[test]
fn envelope_with_non_string_message_becomes_decode_error() {
    let result = handle_response(Ok((500, r#"{"message":7}"#.to_string())));
    assert_eq!(result, Err(WomError::Decode(r#"{"message":7}"#.to_string())));
}

#[test]
fn transport_failure_is_surfaced_unchanged() {
    let result = handle_response(Err("connection reset by peer".to_string()));
    assert_eq!(
        result,
        Err(WomError::Transport("connection reset by peer".to_string()))
    );
}

#[test]
fn error_messages_are_readable() {
    assert_eq!(WomError::Transport("t".to_string()).message(), "t");
    assert_eq!(WomError::Decode("d".to_string()).message(), "d");
    assert_eq!(WomError::Upstream("u".to_string()).message(), "u");
    assert_eq!(WomError::UnknownMetric("m".to_string()).message(), "m");
}
