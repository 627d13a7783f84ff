//! The commands of the text interface and how a line of input names one.

use vstd::prelude::*;
use vstd::string::StrSliceExecFns;

verus! {

/// What the player can ask for.
#[derive(Clone, Copy, Debug, PartialEq, Eq, Structural)]
pub enum Action {
    MoveUp,
    MoveDown,
    MoveLeft,
    MoveRight,
    Expose,
    Score,
    Quit,
}

/// What is left of a line when the white space at its two ends is taken
/// away, as `str::trim` of the standard library does it.
pub uninterp spec fn trimmed(line: Seq<char>) -> Seq<char>;

/// Takes the white space off both ends of `line`, by `str::trim`.
///
/// Trusted, not proved: the result depends on the line alone, and which
/// characters count as white space is the standard library's matter, so the
/// result only gets a name.
#[verifier::external_body]
fn trim(line: &str) -> (rest: &str)
    ensures
        rest@ == trimmed(line@),
{
    line.trim()
}

/// The action that a key stands for.
pub open spec fn action_for_key(key: char) -> Option<Action> {
    if key == 'u' {
        Some(Action::MoveUp)
    } else if key == 'd' {
        Some(Action::MoveDown)
    } else if key == 'l' {
        Some(Action::MoveLeft)
    } else if key == 'r' {
        Some(Action::MoveRight)
    } else if key == 'e' {
        Some(Action::Expose)
    } else if key == 's' {
        Some(Action::Score)
    } else if key == 'q' {
        Some(Action::Quit)
    } else {
        None
    }
}

/// The action that a text names: the text is one key and nothing else.
pub open spec fn command_in(text: Seq<char>) -> Option<Action> {
    if text.len() == 1 {
        action_for_key(text[0])
    } else {
        None
    }
}

/// The action that `key` stands for, or `None` if it stands for none.
pub fn action_for(key: char) -> (action: Option<Action>)
    ensures
        action == action_for_key(key),
{
    match key {
        'u' => Some(Action::MoveUp),
        'd' => Some(Action::MoveDown),
        'l' => Some(Action::MoveLeft),
        'r' => Some(Action::MoveRight),
        'e' => Some(Action::Expose),
        's' => Some(Action::Score),
        'q' => Some(Action::Quit),
        _ => None,
    }
}

/// The action that `text` names, or `None` if it is not exactly one key
/// that stands for an action.
pub fn read_command(text: &str) -> (action: Option<Action>)
    ensures
        action == command_in(text@),
{
    if text.unicode_len() == 1 {
        action_for(text.get_char(0))
    } else {
        None
    }
}

/// The action that a line of input names once the white space around it is
/// taken away, or `None` for an invalid command.
pub fn parse_command(line: &str) -> (action: Option<Action>)
    ensures
        action == command_in(trimmed(line@)),
{
    read_command(trim(line))
}

} // verus!
