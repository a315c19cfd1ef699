//! Relaying the server's console output to the shell's own logs.

use vstd::prelude::*;
use vstd::utf8::{decode_utf8, valid_utf8};

verus! {

/// One of the shell's two log streams.
#[derive(Clone, Copy, Debug, PartialEq, Eq, Structural)]
pub enum Stream {
    /// Standard output.
    Stdout,
    /// Standard error.
    Stderr,
}

/// One line for the shell's logs, without its line terminator.
#[derive(Clone, Debug, PartialEq, Eq)]
pub struct LogLine {
    /// The stream that the line goes to.
    pub stream: Stream,
    /// The text of the line.
    pub text: String,
}

/// The mathematical value of a [`LogLine`].
pub struct LogLineView {
    pub stream: Stream,
    pub text: Seq<char>,
}

impl View for LogLine {
    type V = LogLineView;

    open spec fn view(&self) -> LogLineView {
        LogLineView { stream: self.stream, text: self.text@ }
    }
}

impl DeepView for LogLine {
    type V = LogLineView;

    open spec fn deep_view(&self) -> LogLineView {
        self@
    }
}

/// An event on the output channel of the spawned server process.
#[derive(Clone, Debug, PartialEq, Eq)]
pub enum ServerEvent {
    /// A line that the server wrote to its standard output, as raw bytes.
    Stdout(Vec<u8>),
    /// A line that the server wrote to its standard error, as raw bytes.
    Stderr(Vec<u8>),
    /// A failure reported by the channel itself, with its message.
    Error(String),
    /// The server process ended; holds the representation of its exit status.
    Terminated(String),
    /// An event of a kind that is not relayed.
    Other,
}

/// The mathematical value of a [`ServerEvent`].
pub enum ServerEventView {
    Stdout(Seq<u8>),
    Stderr(Seq<u8>),
    Error(Seq<char>),
    Terminated(Seq<char>),
    Other,
}

impl View for ServerEvent {
    type V = ServerEventView;

    open spec fn view(&self) -> ServerEventView {
        match self {
            ServerEvent::Stdout(bytes) => ServerEventView::Stdout(bytes@),
            ServerEvent::Stderr(bytes) => ServerEventView::Stderr(bytes@),
            ServerEvent::Error(message) => ServerEventView::Error(message@),
            ServerEvent::Terminated(status) => ServerEventView::Terminated(status@),
            ServerEvent::Other => ServerEventView::Other,
        }
    }
}

impl DeepView for ServerEvent {
    type V = ServerEventView;

    open spec fn deep_view(&self) -> ServerEventView {
        self@
    }
}

/// The tag in front of every relayed output line and of the exit notice.
pub open spec fn server_tag() -> Seq<char> {
    "[server] "@
}

/// The tag in front of a failure reported by the output channel.
pub open spec fn error_tag() -> Seq<char> {
    "[server error] "@
}

/// The words between the tag and the exit status in the exit notice.
pub open spec fn terminated_notice() -> Seq<char> {
    "terminated with status: "@
}

/// The line that an output line of the server is relayed as: the tag, then
/// the decoded text. A line that is not valid UTF-8 is dropped.
pub open spec fn relayed_output(stream: Stream, bytes: Seq<u8>) -> Option<LogLineView> {
    if valid_utf8(bytes) {
        Some(LogLineView { stream, text: server_tag() + decode_utf8(bytes) })
    } else {
        None
    }
}

/// The log line, if any, that an event is relayed as.
pub open spec fn relayed_line(event: ServerEventView) -> Option<LogLineView> {
    match event {
        ServerEventView::Stdout(bytes) => relayed_output(Stream::Stdout, bytes),
        ServerEventView::Stderr(bytes) => relayed_output(Stream::Stderr, bytes),
        ServerEventView::Error(message) => Some(
            LogLineView { stream: Stream::Stderr, text: error_tag() + message },
        ),
        ServerEventView::Terminated(status) => Some(
            LogLineView { stream: Stream::Stdout, text: server_tag() + terminated_notice() + status },
        ),
        ServerEventView::Other => None,
    }
}

/// `String::from_utf8`: the text that `bytes` encode in UTF-8, or nothing
/// when they are not valid UTF-8.
#[verifier::external_body]
fn decode_line(bytes: Vec<u8>) -> (text: Option<String>)
    ensures
        text is Some <==> valid_utf8(bytes@),
        text matches Some(s) ==> s@ == decode_utf8(bytes@),
{
    String::from_utf8(bytes).ok()
}

/// A log line on `stream` whose text is `tag` followed by `body`.
fn tagged_line(stream: Stream, tag: &str, body: &str) -> (line: LogLine)
    ensures
        line@ == (LogLineView { stream, text: tag@ + body@ }),
{
    let mut text = String::from_str(tag);
    text.append(body);
    LogLine { stream, text }
}

/// Relays one output line of the server to `stream`.
fn relay_bytes(stream: Stream, bytes: Vec<u8>) -> (line: Option<LogLine>)
    ensures
        line is Some <==> relayed_output(stream, bytes@) is Some,
        line matches Some(l) ==> relayed_output(stream, bytes@) == Some(l@),
{
    match decode_line(bytes) {
        Some(text) => Some(tagged_line(stream, "[server] ", text.as_str())),
        None => None,
    }
}

/// Decides what to log for one event of the server's output channel.
///
/// An output line goes to the stream it came from, behind the tag; a line
/// that is not valid UTF-8 is dropped without a trace. A channel failure goes
/// to standard error behind its own tag. The end of the process is noted on
/// standard output with the exit status. Any other event logs nothing.
pub fn handle_command_event(event: ServerEvent) -> (line: Option<LogLine>)
    ensures
        line is Some <==> relayed_line(event@) is Some,
        line matches Some(l) ==> relayed_line(event@) == Some(l@),
{
    match event {
        ServerEvent::Stdout(bytes) => relay_bytes(Stream::Stdout, bytes),
        ServerEvent::Stderr(bytes) => relay_bytes(Stream::Stderr, bytes),
        ServerEvent::Error(message) => Some(
            tagged_line(Stream::Stderr, "[server error] ", message.as_str()),
        ),
        ServerEvent::Terminated(status) => {
            let mut line = tagged_line(Stream::Stdout, "[server] ", "terminated with status: ");
            line.text.append(status.as_str());
            Some(line)
        },
        ServerEvent::Other => None,
    }
}

/// The log that a run of events is relayed as: the lines of the events that
/// log something, in the order of the events.
pub open spec fn relay_log(events: Seq<ServerEventView>) -> Seq<LogLineView> {
    events.filter_map(|event: ServerEventView| relayed_line(event))
}

/// Relays the events of the server's output channel, in arrival order, until
/// the channel is exhausted. No event is skipped and none is reordered.
pub fn relay_output(events: Vec<ServerEvent>) -> (lines: Vec<LogLine>)
    ensures
        lines.deep_view() == relay_log(events.deep_view()),
{
    let ghost all = events.deep_view();
    let mut lines: Vec<LogLine> = Vec::new();
    assert(lines.deep_view() =~= relay_log(all.take(0)));
    for event in it: events
        invariant
            it.seq().len() == all.len(),
            forall|k: int| 0 <= k < all.len() ==> it.seq()[k]@ == all[k],
            lines.deep_view() == relay_log(all.take(it.index() as int)),
    {
        let ghost before = lines.deep_view();
        proof {
            lemma_relay_log_step(all, it.index() as int);
        }
        match handle_command_event(event) {
            Some(line) => {
                lines.push(line);
                assert(lines.deep_view() =~= before.push(line@));
            },
            None => {},
        }
    }
    assert(all.take(all.len() as int) =~= all);
    lines
}

/// The log of the first `n + 1` events is the log of the first `n`, followed
/// by the line of the event at `n` if it logs one.
pub proof fn lemma_relay_log_step(events: Seq<ServerEventView>, n: int)
    requires
        0 <= n < events.len(),
    ensures
        relay_log(events.take(n + 1)) == match relayed_line(events[n]) {
            Some(line) => relay_log(events.take(n)).push(line),
            None => relay_log(events.take(n)),
        },
{
    let upto = events.take(n + 1);
    assert(upto.drop_last() =~= events.take(n));
    assert(upto.last() == events[n]);
    match relayed_line(events[n]) {
        Some(line) => {
            assert(relay_log(events.take(n)) + seq![line] =~= relay_log(events.take(n)).push(line));
        },
        None => {},
    }
}

/// The texts that a log holds for `stream`, in order.
pub open spec fn stream_texts(log: Seq<LogLineView>, stream: Stream) -> Seq<Seq<char>> {
    log.filter(|line: LogLineView| line.stream == stream).map_values(
        |line: LogLineView| line.text,
    )
}

/// What the shell writes to `stream` while it relays `events`.
pub open spec fn forwarded(events: Seq<ServerEventView>, stream: Stream) -> Seq<Seq<char>> {
    stream_texts(relay_log(events), stream)
}

/// True when `event` is a line that the server wrote to `stream` and that
/// is valid UTF-8.
pub open spec fn is_output_line(event: ServerEventView, stream: Stream) -> bool {
    match event {
        ServerEventView::Stdout(bytes) => stream == Stream::Stdout && valid_utf8(bytes),
        ServerEventView::Stderr(bytes) => stream == Stream::Stderr && valid_utf8(bytes),
        _ => false,
    }
}

/// The decoded text of an output line of the server.
pub open spec fn output_text(event: ServerEventView) -> Seq<char> {
    match event {
        ServerEventView::Stdout(bytes) => decode_utf8(bytes),
        ServerEventView::Stderr(bytes) => decode_utf8(bytes),
        _ => Seq::empty(),
    }
}

/// What is written to `stream` for the first `n + 1` events is what is
/// written for the first `n`, followed by the text of the event at `n` if it
/// logs a line on `stream`.
pub proof fn lemma_forwarded_step(events: Seq<ServerEventView>, stream: Stream, n: int)
    requires
        0 <= n < events.len(),
    ensures
        forwarded(events.take(n + 1), stream) == match relayed_line(events[n]) {
            Some(line) => if line.stream == stream {
                forwarded(events.take(n), stream).push(line.text)
            } else {
                forwarded(events.take(n), stream)
            },
            None => forwarded(events.take(n), stream),
        },
{
    lemma_relay_log_step(events, n);
    let on_stream = |line: LogLineView| line.stream == stream;
    let text_of = |line: LogLineView| line.text;
    let earlier = relay_log(events.take(n));
    match relayed_line(events[n]) {
        Some(line) => {
            earlier.lemma_filter_push(line, on_stream);
            if line.stream == stream {
                earlier.filter(on_stream).lemma_push_map_commute(text_of, line);
            }
        },
        None => {},
    }
}

/// Relaying more events only appends: what is written to `stream` for the
/// first `m` events stays in place when the first `n >= m` events are
/// relayed.
pub proof fn lemma_forwarded_prefix(events: Seq<ServerEventView>, stream: Stream, m: int, n: int)
    requires
        0 <= m <= n <= events.len(),
    ensures
        forwarded(events.take(m), stream).len() <= forwarded(events.take(n), stream).len(),
        forall|k: int|
            0 <= k < forwarded(events.take(m), stream).len() ==> forwarded(
                events.take(n),
                stream,
            )[k] == forwarded(events.take(m), stream)[k],
    decreases n - m,
{
    if m < n {
        lemma_forwarded_prefix(events, stream, m, n - 1);
        lemma_forwarded_step(events, stream, n - 1);
    }
}

/// Every line that the server writes to one of its streams, and that is
/// valid UTF-8, appears behind the tag in what the shell writes to the same
/// stream, and two such lines appear in the order in which they arrived.
///
/// The place of a line is the number of texts written to the stream for the
/// events before it.
pub proof fn lemma_output_forwarded_in_order(
    events: Seq<ServerEventView>,
    stream: Stream,
    i: int,
    j: int,
)
    requires
        0 <= i <= j < events.len(),
        is_output_line(events[i], stream),
        is_output_line(events[j], stream),
    ensures
        ({
            let written = forwarded(events, stream);
            let p = forwarded(events.take(i), stream).len() as int;
            let q = forwarded(events.take(j), stream).len() as int;
            &&& p <= q < written.len()
            &&& i < j ==> p < q
            &&& written[p] == server_tag() + output_text(events[i])
            &&& written[q] == server_tag() + output_text(events[j])
        }),
{
    let len = events.len() as int;
    assert(events.take(len) =~= events);
    lemma_forwarded_step(events, stream, i);
    lemma_forwarded_step(events, stream, j);
    lemma_forwarded_prefix(events, stream, i + 1, len);
    lemma_forwarded_prefix(events, stream, j + 1, len);
    if i < j {
        lemma_forwarded_prefix(events, stream, i + 1, j);
    }
}

/// When the end of the process is the last event on the channel, the exit
/// notice is the last line of the log.
pub proof fn lemma_exit_notice_is_last(events: Seq<ServerEventView>, status: Seq<char>)
    requires
        events.len() > 0,
        events.last() == ServerEventView::Terminated(status),
    ensures
        relay_log(events).len() > 0,
        relay_log(events).last() == (LogLineView {
            stream: Stream::Stdout,
            text: server_tag() + terminated_notice() + status,
        }),
{
    let n = events.len() - 1;
    assert(events.take(n + 1) =~= events);
    lemma_relay_log_step(events, n);
}

} // verus!
