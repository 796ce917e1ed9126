use teewrap::channel::{prefix_str, transcript_line, Channel};
use teewrap::mux::{event_is_enabled, step, Action, Event, SessionState};

#[test]
fn new_session_has_every_channel_open() {
    let s = SessionState::new();
    assert!(s.input_open);
    assert!(s.output_open);
    assert!(s.error_open);
    assert!(s.running);
}

#[test]
fn prefixes_match_the_transcript_format() {
    assert_eq!(prefix_str(Channel::Input), "-->");
    assert_eq!(prefix_str(Channel::Output), "<--");
    assert_eq!(prefix_str(Channel::Error), "!--");
}

#[test]
fn transcript_line_is_prefix_space_line() {
    assert_eq!(transcript_line(Channel::Input, "ping\n"), "--> ping\n");
    assert_eq!(transcript_line(Channel::Output, "hello\n"), "<-- hello\n");
    assert_eq!(transcript_line(Channel::Error, "oops\n"), "!-- oops\n");
    assert_eq!(transcript_line(Channel::Output, ""), "<-- ");
}

#[test]
fn input_line_forwards_and_changes_nothing() {
    let mut s = SessionState::new();
    let a = step(&mut s, &Event::InputLine(String::from("hi\n")));
    assert_eq!(a, Action::ForwardInput);
    assert_eq!(s, SessionState::new());
}

#[test]
fn input_eof_closes_the_channel_and_releases_the_child_pipe() {
    let mut s = SessionState::new();
    let a = step(&mut s, &Event::InputEof);
    assert_eq!(a, Action::CloseChildInput);
    assert!(!s.input_open);
    assert!(s.running);
    assert!(s.output_open);
    assert!(s.error_open);
}

#[test]
fn no_input_event_is_enabled_after_input_eof() {
    let mut s = SessionState::new();
    step(&mut s, &Event::InputEof);
    assert!(!event_is_enabled(&s, &Event::InputLine(String::from("x\n"))));
    assert!(!event_is_enabled(&s, &Event::InputEof));
}

#[test]
fn output_eof_terminates_while_stderr_is_still_open() {
    let mut s = SessionState::new();
    let a = step(&mut s, &Event::OutputEof);
    assert_eq!(a, Action::Terminate);
    assert!(!s.running);
    assert!(s.error_open);
}

#[test]
fn error_eof_terminates_while_stdout_is_still_open() {
    let mut s = SessionState::new();
    let a = step(&mut s, &Event::ErrorEof);
    assert_eq!(a, Action::Terminate);
    assert!(!s.running);
    assert!(s.output_open);
}

#[test]
fn output_and_error_lines_forward_to_their_streams() {
    let mut s = SessionState::new();
    let a = step(&mut s, &Event::OutputLine(String::from("a\n")));
    assert_eq!(a, Action::ForwardOutput);
    let b = step(&mut s, &Event::ErrorLine(String::from("b\n")));
    assert_eq!(b, Action::ForwardError);
    assert_eq!(s, SessionState::new());
}

#[test]
fn child_wait_is_armed_only_after_input_eof() {
    let mut s = SessionState::new();
    assert!(!event_is_enabled(&s, &Event::ChildExited));
    step(&mut s, &Event::InputEof);
    assert!(event_is_enabled(&s, &Event::ChildExited));
    let a = step(&mut s, &Event::ChildExited);
    assert_eq!(a, Action::Terminate);
    assert!(!s.running);
}

#[test]
fn nothing_is_enabled_after_termination() {
    let mut s = SessionState::new();
    step(&mut s, &Event::OutputEof);
    assert!(!event_is_enabled(&s, &Event::InputLine(String::from("x\n"))));
    assert!(!event_is_enabled(&s, &Event::InputEof));
    assert!(!event_is_enabled(&s, &Event::OutputLine(String::from("x\n"))));
    assert!(!event_is_enabled(&s, &Event::OutputEof));
    assert!(!event_is_enabled(&s, &Event::ErrorLine(String::from("x\n"))));
    assert!(!event_is_enabled(&s, &Event::ErrorEof));
    assert!(!event_is_enabled(&s, &Event::ChildExited));
}
