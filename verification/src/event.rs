//! The events that Codex reports, and what is shown of them.

use vstd::prelude::*;
use vstd::string::*;

use crate::json::{get_member, get_text, json, member, text_member, Json};
use crate::output::{maybe_written, stderr_line, stdout_line, Channel, Output, Written};
use crate::text::{ends_with_newline, maybe_text, same_text};

verus! {

/// An item of work, as an event describes it. The fields that are absent from it, or that
/// are no strings, are `None`; its kind is then empty.
#[derive(Debug, PartialEq, Eq)]
pub struct Item {
    pub kind: String,
    pub text: Option<String>,
    pub command: Option<String>,
    pub aggregated_output: Option<String>,
}

/// An event. The fields that are absent from it, or that are no strings, are `None`; its
/// kind is then empty.
#[derive(Debug, PartialEq, Eq)]
pub struct Event {
    pub kind: String,
    /// The `message` of the event itself.
    pub message: Option<String>,
    /// The `message` of its `error`.
    pub error_message: Option<String>,
    pub item: Option<Item>,
}

/// The model of an [`Item`].
pub struct ItemModel {
    pub kind: Seq<char>,
    pub text: Option<Seq<char>>,
    pub command: Option<Seq<char>>,
    pub aggregated_output: Option<Seq<char>>,
}

/// The model of an [`Event`].
pub struct EventModel {
    pub kind: Seq<char>,
    pub message: Option<Seq<char>>,
    pub error_message: Option<Seq<char>>,
    pub item: Option<ItemModel>,
}

impl View for Item {
    type V = ItemModel;

    open spec fn view(&self) -> ItemModel {
        ItemModel {
            kind: self.kind@,
            text: maybe_text(self.text),
            command: maybe_text(self.command),
            aggregated_output: maybe_text(self.aggregated_output),
        }
    }
}

impl View for Event {
    type V = EventModel;

    open spec fn view(&self) -> EventModel {
        EventModel {
            kind: self.kind@,
            message: maybe_text(self.message),
            error_message: maybe_text(self.error_message),
            item: match self.item {
                Some(item) => Some(item@),
                None => None,
            },
        }
    }
}

/// The `type` of an event or an item, empty if it has none.
pub open spec fn kind_of(value: Json) -> Seq<char> {
    match text_member(value, "type"@) {
        Some(kind) => kind,
        None => Seq::empty(),
    }
}

/// The item that a JSON value describes.
pub open spec fn item_of(value: Json) -> ItemModel {
    ItemModel {
        kind: kind_of(value),
        text: text_member(value, "text"@),
        command: text_member(value, "command"@),
        aggregated_output: text_member(value, "aggregated_output"@),
    }
}

/// The event that a JSON value describes.
pub open spec fn event_of(value: Json) -> EventModel {
    EventModel {
        kind: kind_of(value),
        message: text_member(value, "message"@),
        error_message: match member(value, "error"@) {
            Some(error) => text_member(error, "message"@),
            None => None,
        },
        item: match member(value, "item"@) {
            Some(item) => Some(item_of(item)),
            None => None,
        },
    }
}

fn read_kind(value: &serde_json::Value) -> (kind: String)
    ensures
        kind@ == kind_of(json(*value)),
{
    match get_text(value, "type") {
        Some(kind) => kind,
        None => String::new(),
    }
}

fn read_item(value: &serde_json::Value) -> (item: Item)
    ensures
        item@ == item_of(json(*value)),
{
    Item {
        kind: read_kind(value),
        text: get_text(value, "text"),
        command: get_text(value, "command"),
        aggregated_output: get_text(value, "aggregated_output"),
    }
}

/// Reads the event that a JSON value describes.
pub fn read_event(value: &serde_json::Value) -> (event: Event)
    ensures
        event@ == event_of(json(*value)),
{
    let error_message = match get_member(value, "error") {
        Some(error) => get_text(error, "message"),
        None => None,
    };
    let item = match get_member(value, "item") {
        Some(item) => Some(read_item(item)),
        None => None,
    };
    Event { kind: read_kind(value), message: get_text(value, "message"), error_message, item }
}

/// The message of an event: its own, or else that of its error.
pub open spec fn message_of(event: EventModel) -> Option<Seq<char>> {
    match event.message {
        Some(message) => Some(message),
        None => event.error_message,
    }
}

/// The message of an event: its own, or else that of its error.
pub fn event_message(event: &Event) -> (message: Option<String>)
    ensures
        maybe_text(message) == message_of(event@),
{
    match &event.message {
        Some(message) => Some(message.clone()),
        None => match &event.error_message {
            Some(message) => Some(message.clone()),
            None => None,
        },
    }
}

/// Whether an event says that the turn is complete.
pub open spec fn is_completion(event: EventModel) -> bool {
    event.kind == "turn.completed"@
}

/// Whether an event says that the turn has failed.
pub open spec fn is_failure(event: EventModel) -> bool {
    event.kind == "turn.failed"@ || event.kind == "error"@
}

/// What a failure is recorded as: the message of the event, or else its kind.
pub open spec fn failure_of(event: EventModel) -> Seq<char> {
    match message_of(event) {
        Some(message) => message,
        None => event.kind,
    }
}

/// The output of a command with a line end behind it, unless it has one.
pub open spec fn command_output(output: Seq<char>) -> Written {
    if output.last() == '\n' {
        Written { channel: Channel::Stdout, text: output }
    } else {
        stdout_line(output)
    }
}

/// What is shown of an item.
pub open spec fn item_output(event_kind: Seq<char>, item: ItemModel, verbose: bool) -> Option<
    Written,
> {
    let started = event_kind == "item.started"@;
    let completed = event_kind == "item.completed"@;
    if completed && item.kind == "agent_message"@ {
        match item.text {
            Some(text) => Some(stdout_line(text)),
            None => None,
        }
    } else if completed && item.kind == "reasoning"@ {
        match item.text {
            Some(text) => Some(stderr_line("[codex] "@ + text)),
            None => None,
        }
    } else if started && item.kind == "command_execution"@ {
        match item.command {
            Some(command) => Some(stderr_line("[codex] $ "@ + command)),
            None => None,
        }
    } else if completed && item.kind == "command_execution"@ {
        match item.aggregated_output {
            Some(output) => if output.len() > 0 {
                Some(command_output(output))
            } else {
                None
            },
            None => None,
        }
    } else if verbose {
        Some(stderr_line("[codex-loop] Codex item: "@ + item.kind))
    } else {
        None
    }
}

/// What is shown of an event.
pub open spec fn event_output(event: EventModel, verbose: bool) -> Option<Written> {
    if is_completion(event) {
        None
    } else if is_failure(event) {
        Some(stderr_line("[codex] error: "@ + failure_of(event)))
    } else if event.kind == "item.started"@ || event.kind == "item.completed"@ {
        match event.item {
            Some(item) => item_output(event.kind, item, verbose),
            None => None,
        }
    } else if verbose {
        Some(stderr_line("[codex-loop] Codex event: "@ + event.kind))
    } else {
        None
    }
}

/// Shows an item: what the agent says on standard output, what it thinks and runs on
/// standard error, and the output of a command on standard output.
pub fn handle_item(event_kind: &str, item: &Item, verbose: bool) -> (output: Option<Output>)
    ensures
        maybe_written(output) == item_output(event_kind@, item@, verbose),
{
    let started = same_text(event_kind, "item.started");
    let completed = same_text(event_kind, "item.completed");
    let kind = item.kind.as_str();
    if completed && same_text(kind, "agent_message") {
        match &item.text {
            Some(text) => Some(Output::stdout_line(text.as_str())),
            None => None,
        }
    } else if completed && same_text(kind, "reasoning") {
        match &item.text {
            Some(text) => Some(Output::stderr_message("[codex] ", text.as_str())),
            None => None,
        }
    } else if started && same_text(kind, "command_execution") {
        match &item.command {
            Some(command) => Some(Output::stderr_message("[codex] $ ", command.as_str())),
            None => None,
        }
    } else if completed && same_text(kind, "command_execution") {
        match &item.aggregated_output {
            Some(output) => {
                let output = output.as_str();
                if output.is_empty() {
                    None
                } else if ends_with_newline(output) {
                    Some(Output { channel: Channel::Stdout, text: output.to_owned() })
                } else {
                    Some(Output::stdout_line(output))
                }
            },
            None => None,
        }
    } else if verbose {
        Some(Output::stderr_message("[codex-loop] Codex item: ", kind))
    } else {
        None
    }
}

/// The kinds of events that mean something are all different.
pub(crate) proof fn lemma_event_kinds_differ()
    ensures
        "turn.completed"@ != "turn.failed"@,
        "turn.completed"@ != "error"@,
        "turn.failed"@ != "error"@,
        "turn.completed"@ != "item.started"@,
        "turn.completed"@ != "item.completed"@,
        "turn.failed"@ != "item.started"@,
        "turn.failed"@ != "item.completed"@,
        "error"@ != "item.started"@,
        "error"@ != "item.completed"@,
        "item.started"@ != "item.completed"@,
        "turn.completed"@.len() > 0,
        "turn.failed"@.len() > 0,
        "error"@.len() > 0,
        "item.started"@.len() > 0,
        "item.completed"@.len() > 0,
{
    reveal_strlit("turn.completed");
    reveal_strlit("turn.failed");
    reveal_strlit("error");
    reveal_strlit("item.started");
    reveal_strlit("item.completed");
    assert("turn.completed"@[0] != "item.completed"@[0]);
    assert("turn.completed"@.len() == 14);
    assert("turn.failed"@.len() == 11);
    assert("error"@.len() == 5);
    assert("item.started"@.len() == 12);
    assert("item.completed"@.len() == 14);
}

/// The kinds of items that mean something are all different.
proof fn lemma_item_kinds_differ()
    ensures
        "agent_message"@ != "reasoning"@,
        "agent_message"@ != "command_execution"@,
        "reasoning"@ != "command_execution"@,
{
    reveal_strlit("agent_message");
    reveal_strlit("reasoning");
    reveal_strlit("command_execution");
    assert("agent_message"@.len() == 13);
    assert("reasoning"@.len() == 9);
    assert("command_execution"@.len() == 17);
}

/// An event has the strings that stand in its JSON value under their keys, whole, and no
/// others: its type, its message, and the message of its error. It has an item if and only
/// if it has a member of that name.
pub proof fn law_event_is_read_whole(value: Json, text: Seq<char>)
    ensures
        text_member(value, "type"@) == Some(text) ==> event_of(value).kind == text,
        text_member(value, "type"@) is None ==> event_of(value).kind.len() == 0,
        event_of(value).message == Some(text) <==> text_member(value, "message"@) == Some(text),
        event_of(value).error_message == Some(text) <==> exists|error: Json| #[trigger]
            member(value, "error"@) == Some(error) && text_member(error, "message"@) == Some(text),
        event_of(value).item is Some <==> member(value, "item"@) is Some,
{
    if event_of(value).error_message == Some(text) {
        let error = member(value, "error"@)->0;
        assert(member(value, "error"@) == Some(error));
    }
}

/// The item of an event has the strings that stand in its JSON value under their keys, whole,
/// and no others.
pub proof fn law_item_is_read_whole(value: Json, inner: Json, text: Seq<char>)
    requires
        member(value, "item"@) == Some(inner),
    ensures
        ({
            let item = event_of(value).item->0;
            &&& text_member(inner, "type"@) == Some(text) ==> item.kind == text
            &&& text_member(inner, "type"@) is None ==> item.kind.len() == 0
            &&& item.text == Some(text) <==> text_member(inner, "text"@) == Some(text)
            &&& item.command == Some(text) <==> text_member(inner, "command"@) == Some(text)
            &&& item.aggregated_output == Some(text) <==> text_member(inner, "aggregated_output"@)
                == Some(text)
        }),
{
}

/// The fields of an event and of its item are taken as they stand.
pub proof fn law_event_model(event: Event, item: Item)
    ensures
        event@.kind == event.kind@,
        event@.message == maybe_text(event.message),
        event@.error_message == maybe_text(event.error_message),
        event@.item is Some <==> event.item is Some,
        event.item == Some(item) ==> event@.item == Some(item@),
        item@.kind == item.kind@,
        item@.text == maybe_text(item.text),
        item@.command == maybe_text(item.command),
        item@.aggregated_output == maybe_text(item.aggregated_output),
{
}

/// The message of an event comes before that of its error, and either is taken whole. A
/// failure without a message is known by its kind.
pub proof fn law_own_message_comes_first(event: EventModel, message: Seq<char>)
    ensures
        event.message == Some(message) ==> message_of(event) == Some(message),
        event.message is None ==> message_of(event) == event.error_message,
        event.message == Some(message) ==> failure_of(event) == message,
        event.message is None && event.error_message == Some(message) ==> failure_of(event)
            == message,
        event.message is None && event.error_message is None ==> failure_of(event) == event.kind,
{
}

/// Whatever the agent says is shown on standard output: the whole text, and one line feed
/// behind it. A message without a text shows nothing.
pub proof fn law_agent_message_is_shown_whole(item: ItemModel, verbose: bool)
    requires
        item.kind == "agent_message"@,
    ensures
        match item.text {
            Some(text) => {
                &&& item_output("item.completed"@, item, verbose) matches Some(shown)
                &&& shown.channel == Channel::Stdout
                &&& shown.text.len() == text.len() + 1
                &&& text.is_prefix_of(shown.text)
                &&& shown.text.last() == '\n'
            },
            None => item_output("item.completed"@, item, verbose) is None,
        },
{
    reveal_strlit("\n");
}

/// Whatever the agent thinks is shown on standard error, behind a mark: the whole text, and
/// one line feed behind it. Reasoning without a text shows nothing.
pub proof fn law_reasoning_is_shown_whole(item: ItemModel, verbose: bool)
    requires
        item.kind == "reasoning"@,
    ensures
        match item.text {
            Some(text) => {
                &&& item_output("item.completed"@, item, verbose) matches Some(shown)
                &&& shown.channel == Channel::Stderr
                &&& shown.text == "[codex] "@ + text + seq!['\n']
            },
            None => item_output("item.completed"@, item, verbose) is None,
        },
{
    lemma_item_kinds_differ();
    reveal_strlit("\n");
}

/// A command is shown on standard error when it is started, behind a mark: the whole
/// command, and one line feed behind it. An item without a command shows nothing.
pub proof fn law_command_is_shown_whole(item: ItemModel, verbose: bool)
    requires
        item.kind == "command_execution"@,
    ensures
        match item.command {
            Some(command) => {
                &&& item_output("item.started"@, item, verbose) matches Some(shown)
                &&& shown.channel == Channel::Stderr
                &&& shown.text == "[codex] $ "@ + command + seq!['\n']
            },
            None => item_output("item.started"@, item, verbose) is None,
        },
{
    lemma_event_kinds_differ();
    lemma_item_kinds_differ();
    reveal_strlit("\n");
}

/// The output of a command is shown on standard output when it is completed: the whole
/// output, with a line feed behind it only if it does not end with one. Nothing is shown of
/// an output that is empty or absent.
pub proof fn law_command_output_is_shown_whole(item: ItemModel, verbose: bool)
    requires
        item.kind == "command_execution"@,
    ensures
        match item.aggregated_output {
            Some(output) => if output.len() > 0 {
                &&& item_output("item.completed"@, item, verbose) matches Some(shown)
                &&& shown.channel == Channel::Stdout
                &&& output.is_prefix_of(shown.text)
                &&& shown.text.last() == '\n'
                &&& shown.text.len() == output.len() + if output.last() == '\n' {
                    0int
                } else {
                    1int
                }
            } else {
                item_output("item.completed"@, item, verbose) is None
            },
            None => item_output("item.completed"@, item, verbose) is None,
        },
{
    lemma_event_kinds_differ();
    lemma_item_kinds_differ();
    reveal_strlit("\n");
}

/// Of every other item only its kind is shown, on standard error, and only if much is to be
/// said. So are items that the agent has not completed, save for commands.
pub proof fn law_other_items_are_named(event_kind: Seq<char>, item: ItemModel)
    requires
        event_kind == "item.completed"@ ==> item.kind != "agent_message"@ && item.kind
            != "reasoning"@ && item.kind != "command_execution"@,
        event_kind == "item.started"@ ==> item.kind != "command_execution"@,
    ensures
        item_output(event_kind, item, false) is None,
        item_output(event_kind, item, true) matches Some(shown) && shown.channel == Channel::Stderr
            && shown.text == "[codex-loop] Codex item: "@ + item.kind + seq!['\n'],
{
    reveal_strlit("\n");
}

/// An event of an item shows what the item shows, and nothing if it has no item.
pub proof fn law_items_are_shown(event: EventModel, verbose: bool)
    requires
        event.kind == "item.started"@ || event.kind == "item.completed"@,
    ensures
        event.item matches Some(item) ==> event_output(event, verbose) == item_output(
            event.kind,
            item,
            verbose,
        ),
        event.item is None ==> event_output(event, verbose) is None,
{
    lemma_event_kinds_differ();
}

/// A failure is shown on standard error with its whole message: its own, or else that of its
/// error, or else its kind.
pub proof fn law_failures_are_shown(event: EventModel, verbose: bool, message: Seq<char>)
    requires
        event.kind == "turn.failed"@ || event.kind == "error"@,
        match event.message {
            Some(own) => message == own,
            None => match event.error_message {
                Some(inner) => message == inner,
                None => message == event.kind,
            },
        },
    ensures
        event_output(event, verbose) matches Some(shown) && shown.channel == Channel::Stderr
            && shown.text == "[codex] error: "@ + message + seq!['\n'],
{
    lemma_event_kinds_differ();
    reveal_strlit("\n");
}

/// The completion of a turn shows nothing. Of every event that is neither that nor a failure,
/// nor of an item, only its kind is shown, on standard error, and only if much is to be said.
pub proof fn law_other_events_are_named(event: EventModel, verbose: bool)
    requires
        event.kind != "turn.failed"@,
        event.kind != "error"@,
        event.kind != "item.started"@,
        event.kind != "item.completed"@,
    ensures
        event_output(event, verbose) is Some <==> verbose && event.kind != "turn.completed"@,
        event_output(event, verbose) matches Some(shown) ==> shown.channel == Channel::Stderr
            && shown.text == "[codex-loop] Codex event: "@ + event.kind + seq!['\n'],
{
    reveal_strlit("\n");
}

} // verus!
