use vstd::prelude::*;
use vstd::string::StringExecFns;

verus! {

/// One of the three directional byte flows a session tracks: operator input
/// (forwarded to the child), child output and child error (forwarded to the
/// operator's own streams).
#[derive(Clone, Copy, Debug, PartialEq, Eq, Structural)]
pub enum Channel {
    Input,
    Output,
    Error,
}

/// The prefix label a channel's lines carry in the transcript.
pub open spec fn prefix_spec(c: Channel) -> Seq<char> {
    match c {
        Channel::Input => "-->"@,
        Channel::Output => "<--"@,
        Channel::Error => "!--"@,
    }
}

/// How one transcript line is rendered: the channel's prefix, one space,
/// then the line content (line terminator included, if the source had one).
pub open spec fn rendered_entry(c: Channel, line: Seq<char>) -> Seq<char> {
    prefix_spec(c) + " "@ + line
}

/// The prefix label of a channel, as written to the sink.
pub fn prefix_str(c: Channel) -> (r: &'static str)
    ensures
        r@ == prefix_spec(c),
{
    match c {
        Channel::Input => "-->",
        Channel::Output => "<--",
        Channel::Error => "!--",
    }
}

/// Renders one transcript line: prefix, a single space, then the line.
pub fn transcript_line(c: Channel, line: &str) -> (r: String)
    ensures
        r@ == rendered_entry(c, line@),
{
    let mut s = String::from_str(prefix_str(c));
    s.append(" ");
    s.append(line);
    s
}

} // verus!
