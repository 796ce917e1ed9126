use teewrap::mux::{replay, Event, SessionState};
use teewrap::sink::{select_sink, SinkChoice};

#[test]
fn echo_hello_with_the_default_sink() {
    // `echo hello` writes one line and closes stdout; nothing was typed.
    let sink = select_sink(None, false).unwrap();
    assert_eq!(sink, SinkChoice::OperatorStdout);
    let events = vec![Event::OutputLine(String::from("hello\n")), Event::OutputEof];
    let out = replay(&events).unwrap();
    assert_eq!(out.operator_out, vec![String::from("hello\n")]);
    assert_eq!(out.transcript, vec![String::from("<-- hello\n")]);
    assert!(out.child_feed.is_empty());
    assert!(out.operator_err.is_empty());
    assert!(!out.state.running);
}

#[test]
fn cat_ping_with_a_file_sink() {
    // `cat` echoes the one typed line; input is then closed and cat exits.
    let sink = select_sink(Some(String::from("t.log")), false).unwrap();
    assert_eq!(sink, SinkChoice::TranscriptFile(String::from("t.log")));
    let events = vec![
        Event::InputLine(String::from("ping\n")),
        Event::OutputLine(String::from("ping\n")),
        Event::InputEof,
        Event::ChildExited,
    ];
    let out = replay(&events).unwrap();
    assert_eq!(out.child_feed, vec![String::from("ping\n")]);
    assert_eq!(out.operator_out, vec![String::from("ping\n")]);
    assert_eq!(
        out.transcript,
        vec![String::from("--> ping\n"), String::from("<-- ping\n")]
    );
    assert!(!out.state.running);
    assert!(!out.state.input_open);
}

#[test]
fn stderr_lines_reach_the_operator_and_the_sink_once() {
    let events = vec![Event::ErrorLine(String::from("oops\n")), Event::ErrorEof];
    let out = replay(&events).unwrap();
    assert_eq!(out.operator_err, vec![String::from("oops\n")]);
    assert_eq!(out.transcript, vec![String::from("!-- oops\n")]);
    assert!(out.operator_out.is_empty());
    assert!(!out.state.running);
}

#[test]
fn every_line_event_appears_in_the_sink_exactly_once() {
    let events = vec![
        Event::InputLine(String::from("one\n")),
        Event::OutputLine(String::from("two\n")),
        Event::ErrorLine(String::from("three\n")),
        Event::OutputLine(String::from("four\n")),
        Event::InputEof,
        Event::ChildExited,
    ];
    let out = replay(&events).unwrap();
    assert_eq!(
        out.transcript,
        vec![
            String::from("--> one\n"),
            String::from("<-- two\n"),
            String::from("!-- three\n"),
            String::from("<-- four\n"),
        ]
    );
}

#[test]
fn an_empty_history_leaves_the_session_untouched() {
    let events: Vec<Event> = Vec::new();
    let out = replay(&events).unwrap();
    assert_eq!(out.state, SessionState::new());
    assert!(out.transcript.is_empty());
}

#[test]
fn input_after_eof_is_not_a_possible_history() {
    let events = vec![Event::InputEof, Event::InputLine(String::from("x\n"))];
    assert!(replay(&events).is_none());
}

#[test]
fn events_after_termination_are_not_a_possible_history() {
    let events = vec![Event::OutputEof, Event::ErrorEof];
    assert!(replay(&events).is_none());
}

#[test]
fn child_wait_while_input_is_open_is_not_a_possible_history() {
    let events = vec![Event::ChildExited];
    assert!(replay(&events).is_none());
}
