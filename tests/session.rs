use gpsd::{
    GpsdError, LineStep, ParseError, Response, SessionState, devices_command, poll_command,
    version_command, watch_command,
};

#[test]
fn command_lines() {
    assert_eq!(
        watch_command(true, true, 0),
        "?WATCH={\"class\":\"WATCH\",\"enable\":true,\"json\":true,\"raw\":0}\n"
    );
    assert_eq!(
        watch_command(false, false, 1),
        "?WATCH={\"class\":\"WATCH\",\"enable\":false,\"json\":false,\"raw\":1}\n"
    );
    assert_eq!(
        watch_command(true, false, 42),
        "?WATCH={\"class\":\"WATCH\",\"enable\":true,\"json\":false,\"raw\":42}\n"
    );
    assert_eq!(
        watch_command(true, true, 255),
        "?WATCH={\"class\":\"WATCH\",\"enable\":true,\"json\":true,\"raw\":255}\n"
    );
    assert_eq!(watch_command(true, true, 100).as_bytes(), b"?WATCH={\"class\":\"WATCH\",\"enable\":true,\"json\":true,\"raw\":100}\n");
    assert_eq!(poll_command().as_bytes(), b"?POLL;\n");
    assert_eq!(version_command().as_bytes(), b"?VERSION;\n");
    assert_eq!(devices_command().as_bytes(), b"?DEVICES;\n");
}

#[test]
fn new_session_is_not_raw() {
    assert!(!SessionState::new().raw_mode);
}

#[test]
fn watch_sets_raw_mode_from_level() {
    let mut s = SessionState::new();
    s.watch_sent(1);
    assert!(s.raw_mode);
    s.watch_sent(0);
    assert!(!s.raw_mode);
    s.watch_sent(2);
    assert!(s.raw_mode);
}

#[test]
fn blank_lines_are_read_past() {
    let s = SessionState::new();
    assert_eq!(s.on_line("\n".to_string(), 1), LineStep::ReadAgain);
    assert_eq!(s.on_line(" \t\r\n".to_string(), 4), LineStep::ReadAgain);
}

#[test]
fn zero_byte_read_is_connection_closed() {
    let s = SessionState::new();
    assert_eq!(s.on_line(String::new(), 0), LineStep::Done(Err(GpsdError::ConnectionClosed)));
}

#[test]
fn raw_mode_passes_unparsed_lines_through() {
    let mut s = SessionState::new();
    s.watch_sent(1);
    let line = "$GPGGA,123519,4807.038,N*47\n".to_string();
    assert_eq!(s.on_line(line.clone(), line.len()), LineStep::Done(Ok(Response::Raw(line))));
}

#[test]
fn unparsed_line_fails_outside_raw_mode() {
    let s = SessionState::new();
    let line = "$GPGGA,123519,4807.038,N*47\n".to_string();
    assert_eq!(
        s.on_line(line.clone(), line.len()),
        LineStep::Done(Err(GpsdError::DeserializationFailed(line, ParseError::Syntax)))
    );
}

#[test]
fn classified_line_is_returned() {
    let s = SessionState::new();
    let line = "{\"class\":\"ERROR\",\"message\":\"bad\"}\n".to_string();
    assert_eq!(
        s.on_line(line.clone(), line.len()),
        LineStep::Done(Ok(Response::Error { message: "bad".to_string() }))
    );
    let mut raw = SessionState::new();
    raw.watch_sent(2);
    assert_eq!(
        raw.on_line(line.clone(), line.len()),
        LineStep::Done(Ok(Response::Error { message: "bad".to_string() }))
    );
}
