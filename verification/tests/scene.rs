use trippy::events::{respond, EventResponse, InputEvent, KEY_Q};
use trippy::info_log::{
    compile_failure_message, link_failure_message, missing_compile_log_message,
    missing_link_log_message,
};
use trippy::setup::{buffers_created, first_missing_input, MissingInput, GL_INVALID_INDEX};

#[test]
fn quitting_and_q_stop_the_loop() {
    assert_eq!(respond(&InputEvent::Quit), EventResponse::Stop);
    assert_eq!(
        respond(&InputEvent::KeyDown { keycode: Some(KEY_Q), timestamp: 5 }),
        EventResponse::Stop
    );
}

#[test]
fn other_keys_are_reported() {
    assert_eq!(
        respond(&InputEvent::KeyDown { keycode: Some(97), timestamp: 12 }),
        EventResponse::ReportKey { keycode: 97, timestamp: 12 }
    );
    assert_eq!(
        respond(&InputEvent::KeyDown { keycode: None, timestamp: 12 }),
        EventResponse::ReportUnknown
    );
    assert_eq!(respond(&InputEvent::Other), EventResponse::ReportUnknown);
}

#[test]
fn missing_inputs_are_found_in_order() {
    assert_eq!(first_missing_input(0, 1, 2), None);
    assert_eq!(
        first_missing_input(GL_INVALID_INDEX, GL_INVALID_INDEX, GL_INVALID_INDEX),
        Some(MissingInput::Coords)
    );
    assert_eq!(
        first_missing_input(0, GL_INVALID_INDEX, GL_INVALID_INDEX),
        Some(MissingInput::Position)
    );
    assert_eq!(first_missing_input(0, 1, GL_INVALID_INDEX), Some(MissingInput::UniformBlock));
}

#[test]
fn buffer_names_must_all_be_real() {
    assert!(buffers_created(&[1, 2, 3, 4]));
    assert!(!buffers_created(&[1, 2, 0, 4]));
    assert!(!buffers_created(&[0, 0, 0, 0]));
}

#[test]
fn failure_messages() {
    assert_eq!(compile_failure_message(b"ERROR: 0:1".to_vec()), "COMPILEFAIL: ERROR: 0:1");
    assert_eq!(compile_failure_message(Vec::new()), "COMPILEFAIL: ");
    assert_eq!(
        compile_failure_message(vec![0x80]),
        "Could not convert compilation log from buffer: invalid utf-8 sequence of 1 bytes from index 0"
    );
    assert_eq!(link_failure_message("日本".as_bytes().to_vec()), "LINKFAIL: 日本");
    assert_eq!(
        link_failure_message(vec![b'a', 0xe6, 0x97]),
        "Could not decode shader log incomplete utf-8 byte sequence from index 1"
    );
    assert_eq!(missing_compile_log_message(), "No shader info log?");
    assert_eq!(missing_link_log_message(), "No program link log :|");
}
