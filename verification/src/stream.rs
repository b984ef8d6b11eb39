//! What the event stream of one Codex process amounts to.

use vstd::prelude::*;
use vstd::string::*;

use crate::event::{
    event_message, event_of, event_output, failure_of, handle_item, is_completion, is_failure,
    law_agent_message_is_shown_whole, law_command_output_is_shown_whole, lemma_event_kinds_differ,
    read_event, Event, EventModel,
};
use crate::json::{json_error_text, member, parse_json, parsed_json, text_member, Json};
use crate::output::{
    all_written, maybe_written, stderr_line, stdout_line, Channel, Output, Written,
};
use crate::text::{maybe_text, same_text};

verus! {

/// What the events of one process said so far.
#[derive(Debug, PartialEq, Eq)]
pub struct StreamResult {
    /// Whether the turn was said to be complete.
    pub completed: bool,
    /// The last failure that was reported.
    pub failure: Option<String>,
}

/// The model of a [`StreamResult`].
pub struct StreamModel {
    pub completed: bool,
    pub failure: Option<Seq<char>>,
}

impl View for StreamResult {
    type V = StreamModel;

    open spec fn view(&self) -> StreamModel {
        StreamModel { completed: self.completed, failure: maybe_text(self.failure) }
    }
}

/// A stream without events.
pub open spec fn empty_stream() -> StreamModel {
    StreamModel { completed: false, failure: None }
}

impl Default for StreamResult {
    fn default() -> (result: StreamResult)
        ensures
            result@ == empty_stream(),
    {
        StreamResult { completed: false, failure: None }
    }
}

/// What a stream amounts to after one more event.
pub open spec fn after_event(stream: StreamModel, event: EventModel) -> StreamModel {
    if is_completion(event) {
        StreamModel { completed: true, ..stream }
    } else if is_failure(event) {
        StreamModel { failure: Some(failure_of(event)), ..stream }
    } else {
        stream
    }
}

/// The line that a read of the output has brought, if the reading goes on: it ends at the end
/// of the output, and at a line that cannot be read.
pub open spec fn line_read(read: Result<Option<String>, String>) -> Option<String> {
    match read {
        Ok(line) => line,
        Err(_) => None,
    }
}

/// Takes the line out of a read of the output. Without a line, the reading is over.
pub fn next_line(read: Result<Option<String>, String>) -> (line: Option<String>)
    ensures
        line == line_read(read),
{
    match read {
        Ok(line) => line,
        Err(_) => None,
    }
}

/// Records an event, and says what is shown of it.
pub fn handle_event(event: &Event, result: &mut StreamResult, verbose: bool) -> (output: Option<
    Output,
>)
    ensures
        final(result)@ == after_event(old(result)@, event@),
        maybe_written(output) == event_output(event@, verbose),
{
    let kind = event.kind.as_str();
    if same_text(kind, "turn.completed") {
        result.completed = true;
        None
    } else if same_text(kind, "turn.failed") || same_text(kind, "error") {
        let message = match event_message(event) {
            Some(message) => message,
            None => kind.to_owned(),
        };
        let output = Output::stderr_message("[codex] error: ", message.as_str());
        result.failure = Some(message);
        Some(output)
    } else if same_text(kind, "item.started") || same_text(kind, "item.completed") {
        match &event.item {
            Some(item) => handle_item(kind, item, verbose),
            None => None,
        }
    } else if verbose {
        Some(Output::stderr_message("[codex-loop] Codex event: ", kind))
    } else {
        None
    }
}

/// The event that a parsed line describes, or the message of the parse error.
pub open spec fn event_in(parsed: Result<Json, Seq<char>>) -> Result<EventModel, Seq<char>> {
    match parsed {
        Ok(value) => Ok(event_of(value)),
        Err(error) => Err(error),
    }
}

/// A parsed line by its model.
pub open spec fn parsed_event(parsed: Result<Event, String>) -> Result<EventModel, Seq<char>> {
    match parsed {
        Ok(event) => Ok(event@),
        Err(error) => Err(error@),
    }
}

/// What a stream amounts to after one more line: a line that is no JSON changes nothing.
pub open spec fn after_line(
    stream: StreamModel,
    parsed: Result<EventModel, Seq<char>>,
) -> StreamModel {
    match parsed {
        Ok(event) => after_event(stream, event),
        Err(_) => stream,
    }
}

/// What is shown of a line: of an event what it calls for; a line that is no JSON as it
/// stands.
pub open spec fn line_output(
    line: Seq<char>,
    parsed: Result<EventModel, Seq<char>>,
    verbose: bool,
) -> Seq<Written> {
    match parsed {
        Ok(event) => match event_output(event, verbose) {
            Some(output) => seq![output],
            None => seq![],
        },
        Err(error) => if verbose {
            seq![
                stdout_line(line),
                stderr_line("[codex-loop] ignored malformed JSON event: "@ + error),
            ]
        } else {
            seq![stdout_line(line)]
        },
    }
}

/// Records a line of the stream that has been parsed, and says what is shown of it.
pub fn handle_line(
    line: &str,
    parsed: &Result<Event, String>,
    result: &mut StreamResult,
    verbose: bool,
) -> (outputs: Vec<Output>)
    ensures
        final(result)@ == after_line(old(result)@, parsed_event(*parsed)),
        all_written(outputs@) == line_output(line@, parsed_event(*parsed), verbose),
{
    let mut outputs: Vec<Output> = Vec::new();
    match parsed {
        Ok(event) => {
            if let Some(output) = handle_event(event, result, verbose) {
                outputs.push(output);
            }
        },
        Err(error) => {
            outputs.push(Output::stdout_line(line));
            if verbose {
                outputs.push(
                    Output::stderr_message(
                        "[codex-loop] ignored malformed JSON event: ",
                        error.as_str(),
                    ),
                );
            }
        },
    }
    assert(all_written(outputs@) =~= line_output(line@, parsed_event(*parsed), verbose));
    outputs
}

/// Records a line of the stream, and says what is shown of it.
pub fn consume_line(line: &str, result: &mut StreamResult, verbose: bool) -> (outputs: Vec<Output>)
    ensures
        final(result)@ == after_line(old(result)@, event_in(parsed_json(line@))),
        all_written(outputs@) == line_output(line@, event_in(parsed_json(line@)), verbose),
{
    let parsed = match parse_json(line) {
        Ok(value) => Ok(read_event(&value)),
        Err(error) => Err(json_error_text(&error)),
    };
    handle_line(line, &parsed, result, verbose)
}

/// A line that Codex wrote to its standard error is passed on to standard error.
pub fn consume_stderr_line(line: &str) -> (output: Output)
    ensures
        output@ == stderr_line("[codex] "@ + line@),
{
    Output::stderr_message("[codex] ", line)
}

/// What the stream amounted to: a reader that was never started, or that came to grief,
/// counts as one that saw nothing.
pub fn finish_output(read: Option<StreamResult>) -> (result: StreamResult)
    ensures
        result@ == match read {
            Some(stream) => stream@,
            None => empty_stream(),
        },
{
    match read {
        Some(stream) => stream,
        None => StreamResult::default(),
    }
}

/// What a stream of lines amounts to.
pub open spec fn stream_of(lines: Seq<Seq<char>>) -> StreamModel
    decreases lines.len(),
{
    if lines.len() == 0 {
        empty_stream()
    } else {
        after_line(stream_of(lines.drop_last()), event_in(parsed_json(lines.last())))
    }
}

/// The lines of an output, given what one read of it after the other would bring.
pub open spec fn lines_of(reads: Seq<Result<Option<String>, String>>) -> Seq<Seq<char>>
    decreases reads.len(),
{
    if reads.len() == 0 {
        seq![]
    } else {
        match line_read(reads.first()) {
            Some(line) => seq![line@] + lines_of(reads.drop_first()),
            None => seq![],
        }
    }
}

/// The reading stops at the first line that cannot be read, as it does at the end of the
/// output: the lines before it are read, and nothing behind it matters.
pub proof fn law_reading_stops(reads: Seq<Result<Option<String>, String>>, end: int)
    requires
        0 <= end < reads.len(),
        line_read(reads[end]) is None,
        forall|i: int| 0 <= i < end ==> line_read(#[trigger] reads[i]) is Some,
    ensures
        lines_of(reads) == lines_of(reads.take(end)),
        lines_of(reads) == Seq::new(end as nat, |i: int| line_read(reads[i])->0@),
    decreases end,
{
    let taken = reads.take(end);
    if end > 0 {
        let rest = reads.drop_first();
        assert(line_read(reads[0]) is Some);
        assert forall|i: int| 0 <= i < end - 1 implies line_read(#[trigger] rest[i]) is Some by {
            assert(rest[i] == reads[i + 1]);
        }
        law_reading_stops(rest, end - 1);
        assert(taken.drop_first() =~= rest.take(end - 1));
        assert(taken.first() == reads.first());
    }
    assert(lines_of(reads) =~= Seq::new(end as nat, |i: int| line_read(reads[i])->0@));
}

/// Whether a line is an event that says that the turn is complete.
pub open spec fn completes(line: Seq<char>) -> bool {
    event_in(parsed_json(line)) matches Ok(event) && is_completion(event)
}

/// Whether a line is an event that says that the turn has failed.
pub open spec fn fails(line: Seq<char>) -> bool {
    event_in(parsed_json(line)) matches Ok(event) && is_failure(event)
}

proof fn lemma_kinds_differ(event: EventModel)
    ensures
        !(is_completion(event) && is_failure(event)),
{
    reveal_strlit("turn.completed");
    reveal_strlit("turn.failed");
    reveal_strlit("error");
    assert("turn.completed"@.len() > "turn.failed"@.len() > "error"@.len());
}

/// A stream is complete if and only if one of its lines says so.
pub proof fn law_stream_completes(lines: Seq<Seq<char>>)
    ensures
        stream_of(lines).completed <==> exists|i: int|
            0 <= i < lines.len() && completes(#[trigger] lines[i]),
    decreases lines.len(),
{
    if lines.len() > 0 {
        let earlier = lines.drop_last();
        law_stream_completes(earlier);
        if stream_of(earlier).completed {
            let i = choose|i: int| 0 <= i < earlier.len() && completes(#[trigger] earlier[i]);
            assert(lines[i] == earlier[i]);
        }
        if completes(lines.last()) {
            assert(lines[lines.len() - 1] == lines.last());
        }
        if exists|i: int| 0 <= i < lines.len() && completes(#[trigger] lines[i]) {
            let i = choose|i: int| 0 <= i < lines.len() && completes(#[trigger] lines[i]);
            if i < earlier.len() {
                assert(earlier[i] == lines[i]);
            }
        }
    }
}

/// A stream in two pieces amounts to what they amount to together: it is complete if one of
/// them is, and a failure in the second one takes the place of one in the first.
pub proof fn law_stream_in_two_pieces(first: Seq<Seq<char>>, second: Seq<Seq<char>>)
    ensures
        stream_of(first + second) == (StreamModel {
            completed: stream_of(first).completed || stream_of(second).completed,
            failure: match stream_of(second).failure {
                Some(failure) => Some(failure),
                None => stream_of(first).failure,
            },
        }),
    decreases second.len(),
{
    if second.len() == 0 {
        assert(first + second =~= first);
    } else {
        law_stream_in_two_pieces(first, second.drop_last());
        assert((first + second).drop_last() =~= first + second.drop_last());
    }
}

/// A stream without a line that says that the turn has failed has no failure.
pub proof fn law_stream_without_failure(lines: Seq<Seq<char>>)
    requires
        forall|i: int| 0 <= i < lines.len() ==> !fails(#[trigger] lines[i]),
    ensures
        stream_of(lines).failure is None,
    decreases lines.len(),
{
    if lines.len() > 0 {
        let earlier = lines.drop_last();
        assert forall|i: int| 0 <= i < earlier.len() implies !fails(#[trigger] earlier[i]) by {
            assert(earlier[i] == lines[i]);
        }
        law_stream_without_failure(earlier);
        assert(lines.last() == lines[lines.len() - 1]);
    }
}

/// The failure of a stream is the one that its last failure event tells of, whatever other
/// lines follow it.
pub proof fn law_last_failure_counts(lines: Seq<Seq<char>>, last: int)
    requires
        0 <= last < lines.len(),
        fails(lines[last]),
        forall|i: int| last < i < lines.len() ==> !fails(#[trigger] lines[i]),
    ensures
        stream_of(lines).failure == Some(failure_of(event_in(parsed_json(lines[last]))->Ok_0)),
    decreases lines.len(),
{
    if last < lines.len() - 1 {
        let earlier = lines.drop_last();
        assert(earlier[last] == lines[last]);
        assert forall|i: int| last < i < earlier.len() implies !fails(#[trigger] earlier[i]) by {
            assert(earlier[i] == lines[i]);
        }
        law_last_failure_counts(earlier, last);
        assert(lines.last() == lines[lines.len() - 1]);
    } else {
        lemma_kinds_differ(event_in(parsed_json(lines[last]))->Ok_0);
    }
}

/// A stream with a line that says that the turn has failed has a failure.
pub(crate) proof fn lemma_some_failure_counts(lines: Seq<Seq<char>>)
    requires
        exists|i: int| 0 <= i < lines.len() && fails(#[trigger] lines[i]),
    ensures
        stream_of(lines).failure is Some,
    decreases lines.len(),
{
    let earlier = lines.drop_last();
    if fails(lines.last()) {
        lemma_kinds_differ(event_in(parsed_json(lines.last()))->Ok_0);
    } else {
        let i = choose|i: int| 0 <= i < lines.len() && fails(#[trigger] lines[i]);
        assert(earlier[i] == lines[i]);
        lemma_some_failure_counts(earlier);
    }
}

/// Saying more adds to what is shown of a line, and takes nothing away.
pub proof fn law_verbose_adds_to_lines(line: Seq<char>, parsed: Result<EventModel, Seq<char>>)
    ensures
        line_output(line, parsed, false).is_prefix_of(line_output(line, parsed, true)),
{
}

/// An event completes a stream if and only if its kind is exactly `turn.completed`. It
/// records a failure if and only if its kind is exactly `turn.failed` or `error`: with its own
/// message, or else that of its error, or else its kind. An event of any other kind leaves
/// the stream as it was.
pub proof fn law_event_is_recorded(stream: StreamModel, event: EventModel)
    ensures
        after_event(stream, event).completed <==> stream.completed || event.kind
            == "turn.completed"@,
        after_event(stream, event).failure == if event.kind == "turn.failed"@ || event.kind
            == "error"@ {
            Some(
                match event.message {
                    Some(message) => message,
                    None => match event.error_message {
                        Some(message) => message,
                        None => event.kind,
                    },
                },
            )
        } else {
            stream.failure
        },
        event.kind != "turn.completed"@ && event.kind != "turn.failed"@ && event.kind != "error"@
            ==> after_event(stream, event) == stream,
{
    lemma_event_kinds_differ();
}

/// A line says that the turn is complete if and only if it is a JSON object whose `type` is
/// the string `turn.completed`, and that it has failed if and only if that string is
/// `turn.failed` or `error`.
pub proof fn law_lines_that_count(line: Seq<char>)
    ensures
        completes(line) <==> {
            &&& parsed_json(line) matches Ok(value)
            &&& text_member(value, "type"@) == Some("turn.completed"@)
        },
        fails(line) <==> {
            &&& parsed_json(line) matches Ok(value)
            &&& text_member(value, "type"@) == Some("turn.failed"@) || text_member(value, "type"@)
                == Some("error"@)
        },
{
    lemma_event_kinds_differ();
}

/// A line changes a stream only if it is a JSON object whose `type` is the string
/// `turn.completed`, `turn.failed` or `error`. The first of these completes it; the others
/// give it a failure.
pub proof fn law_line_is_recorded(stream: StreamModel, line: Seq<char>)
    ensures
        ({
            let after = after_line(stream, event_in(parsed_json(line)));
            match parsed_json(line) {
                Ok(value) => {
                    let kind = text_member(value, "type"@);
                    &&& after.completed <==> stream.completed || kind == Some("turn.completed"@)
                    &&& kind == Some("turn.failed"@) || kind == Some("error"@) ==> after.failure
                        is Some
                    &&& kind != Some("turn.failed"@) && kind != Some("error"@) ==> after.failure
                        == stream.failure
                },
                Err(_) => after == stream,
            }
        }),
{
    lemma_event_kinds_differ();
}

/// The failure that a line gives a stream is its string `message`, or else the string
/// `message` of its `error`, or else its `type`.
pub proof fn law_failure_has_its_message(
    stream: StreamModel,
    line: Seq<char>,
    value: Json,
    kind: Seq<char>,
    message: Seq<char>,
)
    requires
        parsed_json(line) == Ok::<Json, Seq<char>>(value),
        text_member(value, "type"@) == Some(kind),
        kind == "turn.failed"@ || kind == "error"@,
    ensures
        ({
            let after = after_line(stream, event_in(parsed_json(line)));
            let own = text_member(value, "message"@);
            let error = member(value, "error"@);
            let inner = error is Some && text_member(error->0, "message"@) is Some;
            &&& own == Some(message) ==> after.failure == Some(message)
            &&& own is None && inner ==> after.failure == text_member(error->0, "message"@)
            &&& own is None && !inner ==> after.failure == Some(kind)
            &&& after.completed == stream.completed
        }),
{
    lemma_event_kinds_differ();
}

/// A line in which the agent says something shows the whole text on standard output, and one
/// line feed behind it.
pub proof fn law_agent_message_line_is_shown_whole(
    line: Seq<char>,
    value: Json,
    item: Json,
    text: Seq<char>,
    verbose: bool,
)
    requires
        parsed_json(line) == Ok::<Json, Seq<char>>(value),
        text_member(value, "type"@) == Some("item.completed"@),
        member(value, "item"@) == Some(item),
        text_member(item, "type"@) == Some("agent_message"@),
        text_member(item, "text"@) == Some(text),
    ensures
        ({
            let shown = line_output(line, event_in(parsed_json(line)), verbose);
            &&& shown.len() == 1
            &&& shown[0].channel == Channel::Stdout
            &&& shown[0].text.len() == text.len() + 1
            &&& text.is_prefix_of(shown[0].text)
            &&& shown[0].text.last() == '\n'
        }),
{
    lemma_event_kinds_differ();
    law_agent_message_is_shown_whole(event_of(value).item->0, verbose);
}

/// A line in which a command is completed shows the whole of its output on standard output,
/// and ends the last line of it.
pub proof fn law_command_output_line_is_shown_whole(
    line: Seq<char>,
    value: Json,
    item: Json,
    output: Seq<char>,
    verbose: bool,
)
    requires
        parsed_json(line) == Ok::<Json, Seq<char>>(value),
        text_member(value, "type"@) == Some("item.completed"@),
        member(value, "item"@) == Some(item),
        text_member(item, "type"@) == Some("command_execution"@),
        text_member(item, "aggregated_output"@) == Some(output),
        output.len() > 0,
    ensures
        ({
            let shown = line_output(line, event_in(parsed_json(line)), verbose);
            &&& shown.len() == 1
            &&& shown[0].channel == Channel::Stdout
            &&& output.is_prefix_of(shown[0].text)
            &&& shown[0].text.last() == '\n'
            &&& shown[0].text.len() <= output.len() + 1
        }),
{
    lemma_event_kinds_differ();
    law_command_output_is_shown_whole(event_of(value).item->0, verbose);
}

/// A line that is no JSON is passed on whole to standard output; why it is none is shown on
/// standard error, if much is to be said. Of a line that is an event, what the event calls
/// for is shown, and nothing else.
pub proof fn law_line_output(
    line: Seq<char>,
    parsed: Result<EventModel, Seq<char>>,
    verbose: bool,
)
    ensures
        ({
            let shown = line_output(line, parsed, verbose);
            match parsed {
                Ok(event) => {
                    &&& shown.len() <= 1
                    &&& shown.len() == 0 <==> event_output(event, verbose) is None
                    &&& shown.len() == 1 ==> event_output(event, verbose) == Some(shown[0])
                },
                Err(error) => {
                    &&& shown.len() == if verbose {
                        2int
                    } else {
                        1int
                    }
                    &&& shown[0].channel == Channel::Stdout
                    &&& shown[0].text == line + seq!['\n']
                    &&& verbose ==> shown[1].channel == Channel::Stderr
                    &&& verbose ==> shown[1].text
                        == "[codex-loop] ignored malformed JSON event: "@ + error + seq!['\n']
                },
            }
        }),
{
    reveal_strlit("\n");
}

/// What was parsed of a line is taken as it stands, and so is what a stream amounts to.
pub proof fn law_stream_models(
    parsed: Result<Event, String>,
    value: Result<Json, Seq<char>>,
    stream: StreamResult,
)
    ensures
        match parsed {
            Ok(event) => parsed_event(parsed) == Ok::<EventModel, Seq<char>>(event@),
            Err(error) => parsed_event(parsed) == Err::<EventModel, Seq<char>>(error@),
        },
        match value {
            Ok(value) => event_in(Ok(value)) == Ok::<EventModel, Seq<char>>(event_of(value)),
            Err(error) => event_in(Err(error)) == Err::<EventModel, Seq<char>>(error),
        },
        stream@.completed == stream.completed,
        stream@.failure == maybe_text(stream.failure),
        !empty_stream().completed,
        empty_stream().failure is None,
{
}

/// A read brings a line if and only if it succeeded and was not at the end.
pub proof fn law_line_read(read: Result<Option<String>, String>, line: String)
    ensures
        line_read(read) == Some(line) <==> read == Ok::<Option<String>, String>(Some(line)),
{
}

} // verus!
