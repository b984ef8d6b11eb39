//! What the program writes to its standard streams.

use vstd::prelude::*;
use vstd::string::*;

verus! {

/// A standard stream.
#[derive(Clone, Copy, Debug, PartialEq, Eq, Structural)]
pub enum Channel {
    Stdout,
    Stderr,
}

/// A text to be written to a standard stream as it stands.
#[derive(Debug, PartialEq, Eq)]
pub struct Output {
    pub channel: Channel,
    pub text: String,
}

/// The model of an [`Output`].
pub struct Written {
    pub channel: Channel,
    pub text: Seq<char>,
}

impl View for Output {
    type V = Written;

    open spec fn view(&self) -> Written {
        Written { channel: self.channel, text: self.text@ }
    }
}

/// A line on standard output.
pub open spec fn stdout_line(text: Seq<char>) -> Written {
    Written { channel: Channel::Stdout, text: text + "\n"@ }
}

/// A line on standard error.
pub open spec fn stderr_line(text: Seq<char>) -> Written {
    Written { channel: Channel::Stderr, text: text + "\n"@ }
}

/// Several outputs, in the order in which they are written.
pub open spec fn all_written(outputs: Seq<Output>) -> Seq<Written> {
    outputs.map_values(|output: Output| output@)
}

/// An output that may be absent.
pub open spec fn maybe_written(output: Option<Output>) -> Option<Written> {
    match output {
        Some(output) => Some(output@),
        None => None,
    }
}

impl Output {
    /// A line on standard output.
    pub(crate) fn stdout_line(text: &str) -> (output: Output)
        ensures
            output@ == stdout_line(text@),
    {
        Output { channel: Channel::Stdout, text: text.to_owned().concat("\n") }
    }

    /// A line on standard error.
    pub(crate) fn stderr_line(text: &str) -> (output: Output)
        ensures
            output@ == stderr_line(text@),
    {
        Output { channel: Channel::Stderr, text: text.to_owned().concat("\n") }
    }

    /// The line `label` + `text` on standard error.
    pub(crate) fn stderr_message(label: &str, text: &str) -> (output: Output)
        ensures
            output@ == stderr_line(label@ + text@),
    {
        Output::stderr_line(label.to_owned().concat(text).as_str())
    }
}

/// A line holds the whole text, and one line feed behind it.
pub proof fn law_line_holds_whole_text(text: Seq<char>)
    ensures
        stdout_line(text).channel == Channel::Stdout,
        stdout_line(text).text == text + seq!['\n'],
        stderr_line(text).channel == Channel::Stderr,
        stderr_line(text).text == text + seq!['\n'],
{
    reveal_strlit("\n");
}

/// Outputs are written as they stand, all of them and in their order.
pub proof fn law_outputs_are_written_as_they_stand(outputs: Seq<Output>, i: int)
    requires
        0 <= i < outputs.len(),
    ensures
        all_written(outputs).len() == outputs.len(),
        all_written(outputs)[i].channel == outputs[i].channel,
        all_written(outputs)[i].text == outputs[i].text@,
        maybe_written(Some(outputs[i])) == Some(all_written(outputs)[i]),
        maybe_written(None) is None,
{
}

} // verus!
