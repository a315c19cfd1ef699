use server_launcher::relay::{handle_command_event, relay_output, LogLine, ServerEvent, Stream};

fn line(stream: Stream, text: &str) -> LogLine {
    LogLine { stream, text: text.to_string() }
}

#[test]
fn stdout_line_is_tagged_on_stdout() {
    assert_eq!(
        handle_command_event(ServerEvent::Stdout(b"listening on 3333".to_vec())),
        Some(line(Stream::Stdout, "[server] listening on 3333"))
    );
}

#[test]
fn stderr_line_is_tagged_on_stderr() {
    assert_eq!(
        handle_command_event(ServerEvent::Stderr(b"warning: slow".to_vec())),
        Some(line(Stream::Stderr, "[server] warning: slow"))
    );
}

#[test]
fn empty_line_is_relayed_as_the_bare_tag() {
    assert_eq!(
        handle_command_event(ServerEvent::Stdout(Vec::new())),
        Some(line(Stream::Stdout, "[server] "))
    );
}

#[test]
fn multibyte_text_is_decoded() {
    let bytes = "h\u{e9}llo \u{2713} \u{1f600}".as_bytes().to_vec();
    assert_eq!(
        handle_command_event(ServerEvent::Stdout(bytes)),
        Some(line(Stream::Stdout, "[server] h\u{e9}llo \u{2713} \u{1f600}"))
    );
}

#[test]
fn trailing_newline_is_kept() {
    assert_eq!(
        handle_command_event(ServerEvent::Stderr(b"oops\n".to_vec())),
        Some(line(Stream::Stderr, "[server] oops\n"))
    );
}

#[test]
fn undecodable_stdout_line_is_dropped() {
    assert_eq!(handle_command_event(ServerEvent::Stdout(vec![0xff, 0xfe])), None);
}

#[test]
fn undecodable_stderr_line_is_dropped() {
    assert_eq!(handle_command_event(ServerEvent::Stderr(vec![b'o', b'k', 0x80])), None);
}

#[test]
fn truncated_overlong_and_surrogate_encodings_are_dropped() {
    assert_eq!(handle_command_event(ServerEvent::Stdout(vec![0xe2, 0x82])), None);
    assert_eq!(handle_command_event(ServerEvent::Stdout(vec![0xc0, 0x80])), None);
    assert_eq!(handle_command_event(ServerEvent::Stdout(vec![0xed, 0xa0, 0x80])), None);
    assert_eq!(handle_command_event(ServerEvent::Stdout(vec![0xf4, 0x90, 0x80, 0x80])), None);
}

#[test]
fn channel_error_goes_to_stderr_with_its_own_tag() {
    assert_eq!(
        handle_command_event(ServerEvent::Error("broken pipe".to_string())),
        Some(line(Stream::Stderr, "[server error] broken pipe"))
    );
}

#[test]
fn termination_is_noted_on_stdout_with_the_status() {
    let status = "TerminatedPayload { code: Some(0), signal: None }".to_string();
    assert_eq!(
        handle_command_event(ServerEvent::Terminated(status)),
        Some(line(
            Stream::Stdout,
            "[server] terminated with status: TerminatedPayload { code: Some(0), signal: None }"
        ))
    );
}

#[test]
fn other_events_log_nothing() {
    assert_eq!(handle_command_event(ServerEvent::Other), None);
}

#[test]
fn empty_channel_gives_an_empty_log() {
    assert_eq!(relay_output(Vec::new()), Vec::<LogLine>::new());
}

#[test]
fn relay_keeps_arrival_order_across_streams() {
    let events = vec![
        ServerEvent::Stdout(b"one".to_vec()),
        ServerEvent::Stderr(b"two".to_vec()),
        ServerEvent::Stdout(b"three".to_vec()),
        ServerEvent::Error("four".to_string()),
        ServerEvent::Stdout(b"five".to_vec()),
    ];
    assert_eq!(
        relay_output(events),
        vec![
            line(Stream::Stdout, "[server] one"),
            line(Stream::Stderr, "[server] two"),
            line(Stream::Stdout, "[server] three"),
            line(Stream::Stderr, "[server error] four"),
            line(Stream::Stdout, "[server] five"),
        ]
    );
}

#[test]
fn relay_drops_only_the_undecodable_line() {
    let events = vec![
        ServerEvent::Stdout(b"before".to_vec()),
        ServerEvent::Stdout(vec![0xff]),
        ServerEvent::Other,
        ServerEvent::Stdout(b"after".to_vec()),
    ];
    assert_eq!(
        relay_output(events),
        vec![line(Stream::Stdout, "[server] before"), line(Stream::Stdout, "[server] after")]
    );
}

#[test]
fn forwarded_stdout_holds_every_stdout_line_in_order() {
    let received = ["a", "b", "c", "d"];
    let mut events = Vec::new();
    for text in received {
        events.push(ServerEvent::Stdout(text.as_bytes().to_vec()));
        events.push(ServerEvent::Stderr(text.to_uppercase().into_bytes()));
    }
    let log = relay_output(events);
    let stdout: Vec<String> =
        log.iter().filter(|l| l.stream == Stream::Stdout).map(|l| l.text.clone()).collect();
    let stderr: Vec<String> =
        log.iter().filter(|l| l.stream == Stream::Stderr).map(|l| l.text.clone()).collect();
    assert_eq!(stdout, vec!["[server] a", "[server] b", "[server] c", "[server] d"]);
    assert_eq!(stderr, vec!["[server] A", "[server] B", "[server] C", "[server] D"]);
}

#[test]
fn exit_notice_is_the_last_line_when_termination_comes_last() {
    let events = vec![
        ServerEvent::Stdout(b"bye".to_vec()),
        ServerEvent::Terminated("TerminatedPayload { code: Some(1), signal: None }".to_string()),
    ];
    let log = relay_output(events);
    assert_eq!(log.len(), 2);
    assert_eq!(
        log[1],
        line(
            Stream::Stdout,
            "[server] terminated with status: TerminatedPayload { code: Some(1), signal: None }"
        )
    );
}

#[test]
fn relay_is_the_handler_applied_event_by_event() {
    let events = vec![
        ServerEvent::Stderr(b"x".to_vec()),
        ServerEvent::Stdout(vec![0xc3]),
        ServerEvent::Terminated("gone".to_string()),
        ServerEvent::Error(String::new()),
    ];
    let one_by_one: Vec<LogLine> =
        events.clone().into_iter().filter_map(handle_command_event).collect();
    assert_eq!(relay_output(events), one_by_one);
}
