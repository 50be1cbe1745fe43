//! The admin dashboard's window for adding a chat command: the value that
//! it hands over, and the file that a submitted value asks for.

use vstd::prelude::*;
use vstd::string::*;
use crate::text::{text, copy_bytes, push_all, matches_at, occurs_at, slice_of};
use crate::chat_commands::{add_command, Store, WriteRequest};

verus! {

/// The component that adds a chat command.
#[derive(Clone, Copy, Debug, Default)]
pub struct AddCommand;

/// The sender of messages between components.
#[derive(Clone, Copy, Debug, Default)]
pub struct MessageSender {}

/// A message between components.
pub trait ComponentMessage {
    /// The name of the message's kind.
    fn get_type(&self) -> Vec<u8>;
}

/// A chat command as the window holds it: name, output, and both joined by
/// `::::` as they travel between components.
#[derive(Clone, Debug)]
pub struct Command {
    pub name: Vec<u8>,
    pub output: Vec<u8>,
    pub common: Vec<u8>,
}

/// What separates name and output.
pub open spec fn separator() -> Seq<u8> {
    "::::".spec_bytes()
}

/// The first index at or after `from` where the separator stands in `s`;
/// the length of `s` where it stands nowhere.
pub open spec fn separator_from(s: Seq<u8>, from: int) -> int
    decreases s.len() - from,
{
    if from < 0 || from >= s.len() {
        s.len() as int
    } else if occurs_at(s, separator(), from) {
        from
    } else {
        separator_from(s, from + 1)
    }
}

/// Whether `out` is the command that the travelling value `value` holds:
/// name and output are what stands before and behind the first separator;
/// a value without separator holds the empty command.
pub open spec fn is_command_of(value: Seq<u8>, out: Command) -> bool {
    let at = separator_from(value, 0);
    if at < value.len() {
        &&& out.name@ == value.subrange(0, at)
        &&& out.output@ == value.subrange(at + separator().len(), value.len() as int)
        &&& out.common@ == out.name@ + separator() + out.output@
    } else {
        out.name@.len() == 0 && out.output@.len() == 0 && out.common@ == separator()
    }
}

impl Command {
    /// Reads a command from its travelling form.
    pub fn from(value: &[u8]) -> (out: Command)
        ensures
            is_command_of(value@, out),
    {
        let mark = "::::".as_bytes();
        let mut at: usize = 0;
        while at < value.len() && !matches_at(value, mark, at)
            invariant
                at <= value.len(),
                mark@ == separator(),
                separator_from(value@, 0) == separator_from(value@, at as int),
            decreases value.len() - at,
        {
            at += 1;
        }
        if at < value.len() {
            assert(occurs_at(value@, separator(), at as int));
            let name = slice_of(value, 0, at);
            let output = slice_of(value, at + mark.len(), value.len());
            let mut common = copy_bytes(name.as_slice());
            push_all(&mut common, mark);
            push_all(&mut common, output.as_slice());
            Command { name, output, common }
        } else {
            Command { name: Vec::new(), output: Vec::new(), common: text("::::") }
        }
    }

    /// The file that the submitted command asks for: a chat command without
    /// period.
    pub fn submit(&self) -> (request: WriteRequest)
        ensures
            request.store == Store::ChatCommands,
            request.name@ == self.name@,
            request.contents@ == self.output@,
    {
        add_command(self.name.as_slice(), self.output.as_slice(), None)
    }
}

/// The state of the window that adds a chat command.
#[derive(Clone, Debug)]
pub struct AddCommandState {
    pub command: Command,
}

impl AddCommandState {
    /// The state of a fresh window: the empty command.
    pub fn new() -> (out: AddCommandState)
        ensures
            out.command.name@.len() == 0,
            out.command.output@.len() == 0,
            out.command.common@ == separator(),
    {
        AddCommandState {
            command: Command { name: Vec::new(), output: Vec::new(), common: text("::::") },
        }
    }
}

} // verus!
