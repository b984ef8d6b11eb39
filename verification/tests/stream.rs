use codex_loop::event::{event_message, handle_item, Event, Item};
use codex_loop::output::{Channel, Output};
use codex_loop::stream::{
    consume_line, consume_stderr_line, finish_output, handle_event, handle_line, next_line,
    StreamResult,
};

fn stdout(text: &str) -> Output {
    Output {
        channel: Channel::Stdout,
        text: text.to_string(),
    }
}

fn stderr(text: &str) -> Output {
    Output {
        channel: Channel::Stderr,
        text: text.to_string(),
    }
}

/// What is shown of a line that leaves the stream as it was.
fn shown(line: &str, verbose: bool) -> Vec<Output> {
    let mut result = StreamResult::default();
    let outputs = consume_line(line, &mut result, verbose);
    assert_eq!(result, StreamResult::default());
    outputs
}

fn event(kind: &str) -> Event {
    Event {
        kind: kind.to_string(),
        message: None,
        error_message: None,
        item: None,
    }
}

fn item(kind: &str) -> Item {
    Item {
        kind: kind.to_string(),
        text: None,
        command: None,
        aggregated_output: None,
    }
}

#[test]
fn a_completion_event_completes_the_stream() {
    let mut result = StreamResult::default();

    let outputs = consume_line(r#"{"type":"turn.completed","usage":{}}"#, &mut result, true);

    assert!(outputs.is_empty());
    assert!(result.completed);
    assert_eq!(result.failure, None);
}

#[test]
fn the_last_failure_counts() {
    let mut result = StreamResult::default();
    for line in [
        r#"{"type":"error","message":"first"}"#,
        r#"{"type":"turn.failed","error":{"message":"second"}}"#,
        r#"{"type":"turn.completed"}"#,
        "no json",
    ] {
        consume_line(line, &mut result, false);
    }

    assert_eq!(
        result,
        StreamResult {
            completed: true,
            failure: Some("second".to_string()),
        }
    );
}

#[test]
fn failures_are_shown() {
    let mut result = StreamResult::default();
    let mut consume = |line: &str| consume_line(line, &mut result, false);

    assert_eq!(
        consume(r#"{"type":"error","message":"own","error":{"message":"inner"}}"#),
        vec![stderr("[codex] error: own\n")]
    );
    assert_eq!(
        consume(r#"{"type":"error","message":7,"error":{"message":"inner"}}"#),
        vec![stderr("[codex] error: inner\n")]
    );
    assert_eq!(
        consume(r#"{"type":"turn.failed","error":"plain"}"#),
        vec![stderr("[codex] error: turn.failed\n")]
    );
    assert_eq!(result.failure, Some("turn.failed".to_string()));
    assert!(!result.completed);
}

#[test]
fn lines_that_are_no_json_are_passed_on() {
    assert_eq!(shown("warming up", false), vec![stdout("warming up\n")]);
    assert_eq!(
        shown("{", true),
        vec![
            stdout("{\n"),
            stderr(
                "[codex-loop] ignored malformed JSON event: \
                 EOF while parsing an object at line 1 column 1\n"
            ),
        ]
    );
}

#[test]
fn unknown_events_are_named_if_asked_for() {
    assert_eq!(shown(r#"{"type":"thread.started"}"#, false), vec![]);
    assert_eq!(
        shown(r#"{"type":"thread.started"}"#, true),
        vec![stderr("[codex-loop] Codex event: thread.started\n")]
    );
    for line in [r#"{"type":1}"#, "{}", "3", r#""turn.completed""#, "[]", "null"] {
        assert_eq!(shown(line, true), vec![stderr("[codex-loop] Codex event: \n")]);
    }
}

#[test]
fn agent_messages_go_to_standard_output() {
    let line = r#"{"type":"item.completed","item":{"type":"agent_message","text":"héllo\n"}}"#;
    assert_eq!(shown(line, false), vec![stdout("h\u{e9}llo\n\n")]);

    let silent = r#"{"type":"item.completed","item":{"type":"agent_message"}}"#;
    assert_eq!(shown(silent, true), vec![]);

    let early = r#"{"type":"item.started","item":{"type":"agent_message","text":"x"}}"#;
    assert_eq!(shown(early, false), vec![]);
    assert_eq!(
        shown(early, true),
        vec![stderr("[codex-loop] Codex item: agent_message\n")]
    );
}

#[test]
fn reasoning_goes_to_standard_error() {
    let line = r#"{"type":"item.completed","item":{"type":"reasoning","text":"hm"}}"#;
    assert_eq!(shown(line, false), vec![stderr("[codex] hm\n")]);
}

#[test]
fn commands_are_shown_with_their_output() {
    let started = r#"{"type":"item.started","item":{"type":"command_execution","command":"ls"}}"#;
    assert_eq!(shown(started, false), vec![stderr("[codex] $ ls\n")]);

    let completed = |output: &str| {
        format!(
            r#"{{"type":"item.completed","item":{{"type":"command_execution","aggregated_output":"{}"}}}}"#,
            output
        )
    };
    assert_eq!(shown(&completed(""), true), vec![]);
    assert_eq!(shown(&completed("a"), false), vec![stdout("a\n")]);
    assert_eq!(shown(&completed(r"a\nb\n"), false), vec![stdout("a\nb\n")]);
    assert_eq!(shown(&completed(r"\n"), false), vec![stdout("\n")]);
}

#[test]
fn items_are_needed_in_item_events() {
    assert_eq!(shown(r#"{"type":"item.completed"}"#, true), vec![]);
    assert_eq!(
        shown(r#"{"type":"item.completed","item":7}"#, true),
        vec![stderr("[codex-loop] Codex item: \n")]
    );
}

#[test]
fn an_event_prefers_its_own_message() {
    let mut failed = event("error");
    assert_eq!(event_message(&failed), None);
    failed.error_message = Some("inner".to_string());
    assert_eq!(event_message(&failed), Some("inner".to_string()));
    failed.message = Some("own".to_string());
    assert_eq!(event_message(&failed), Some("own".to_string()));
}

#[test]
fn handles_given_events() {
    let mut result = StreamResult::default();

    let output = handle_event(&event("error"), &mut result, false);
    assert_eq!(output, Some(stderr("[codex] error: error\n")));
    assert_eq!(result.failure, Some("error".to_string()));

    assert_eq!(handle_event(&event("turn.completed"), &mut result, true), None);
    assert!(result.completed);
    assert_eq!(result.failure, Some("error".to_string()));
}

#[test]
fn handles_given_items() {
    let mut command = item("command_execution");
    command.command = Some("make".to_string());
    command.aggregated_output = Some("done".to_string());

    assert_eq!(
        handle_item("item.started", &command, false),
        Some(stderr("[codex] $ make\n"))
    );
    assert_eq!(
        handle_item("item.completed", &command, false),
        Some(stdout("done\n"))
    );
    assert_eq!(handle_item("item.updated", &command, false), None);
    assert_eq!(
        handle_item("item.updated", &command, true),
        Some(stderr("[codex-loop] Codex item: command_execution\n"))
    );
}

#[test]
fn handles_given_parse_errors() {
    let mut result = StreamResult::default();
    let parsed = Err("why".to_string());

    assert_eq!(
        handle_line("text", &parsed, &mut result, false),
        vec![stdout("text\n")]
    );
    assert_eq!(
        handle_line("text", &parsed, &mut result, true),
        vec![
            stdout("text\n"),
            stderr("[codex-loop] ignored malformed JSON event: why\n"),
        ]
    );
    assert_eq!(result, StreamResult::default());
}

#[test]
fn standard_error_is_passed_on() {
    assert_eq!(consume_stderr_line("oops"), stderr("[codex] oops\n"));
}

#[test]
fn a_lost_stream_is_an_empty_one() {
    assert_eq!(finish_output(None), StreamResult::default());
    let complete = || StreamResult {
        completed: true,
        failure: None,
    };
    assert_eq!(finish_output(Some(complete())), complete());
}

#[test]
fn the_reading_stops_at_a_line_that_cannot_be_read() {
    let completed = r#"{"type":"turn.completed"}"#;
    let failed = r#"{"type":"turn.failed"}"#;
    let reads = [
        Ok(Some(completed.to_string())),
        Ok(Some(String::new())),
        Err("stream did not contain valid UTF-8".to_string()),
        Ok(Some(failed.to_string())),
    ];

    let mut lines = Vec::new();
    let mut result = StreamResult::default();
    for read in reads {
        let Some(line) = next_line(read) else {
            break;
        };
        consume_line(&line, &mut result, false);
        lines.push(line);
    }

    assert_eq!(lines, vec![completed.to_string(), String::new()]);
    assert_eq!(
        result,
        StreamResult {
            completed: true,
            failure: None,
        }
    );
}

#[test]
fn the_reading_ends_with_the_output() {
    assert_eq!(next_line(Ok(None)), None);
    assert_eq!(next_line(Err("why".to_string())), None);
    assert_eq!(next_line(Ok(Some("line".to_string()))), Some("line".to_string()));
}

#[test]
fn a_stream_can_be_read_in_two_pieces() {
    let first = [r#"{"type":"turn.completed"}"#, r#"{"type":"error","message":"early"}"#];
    let second = [r#"{"type":"turn.failed","message":"late"}"#, "noise"];
    let read = |lines: &[&str]| {
        let mut result = StreamResult::default();
        for line in lines {
            consume_line(line, &mut result, false);
        }
        (result.completed, result.failure)
    };

    assert_eq!(read(&first), (true, Some("early".to_string())));
    assert_eq!(read(&second), (false, Some("late".to_string())));
    assert_eq!(
        read(&[first, second].concat()),
        (true, Some("late".to_string()))
    );
}
