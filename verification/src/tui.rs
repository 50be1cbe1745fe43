//! What the chat-line source does with a chat post: answer a chat command,
//! or run the program of a chat-line action and say its output in chat.

use vstd::prelude::*;
use vstd::string::*;
use crate::text::{text, views, copy_bytes, push_all, bytes_equal, is_text, split_once, split_first, trim, trimmed};
use crate::messages::{ChatMessage, TwitchMessage};
use crate::notifications::{ActionOutcome, ExternalCommand, command_name, sub_command};

verus! {

/// The chat post that calls the item `item`: `!` and the item's name.
pub open spec fn call_of(item: Seq<u8>) -> Seq<u8> {
    "!".spec_bytes() + item
}

/// The items among the first `n` whose call is `message`, in order.
pub open spec fn called_among(message: Seq<u8>, items: Seq<Vec<u8>>, n: int) -> Seq<Seq<u8>>
    decreases n,
{
    if n <= 0 {
        Seq::empty()
    } else if message == call_of(items[n - 1]@) {
        called_among(message, items, n - 1).push(items[n - 1]@)
    } else {
        called_among(message, items, n - 1)
    }
}

/// The items that a chat post calls.
pub fn called_items(message: &[u8], items: &Vec<Vec<u8>>) -> (out: Vec<Vec<u8>>)
    ensures
        views(out@) == called_among(message@, items@, items@.len() as int),
{
    let mut out: Vec<Vec<u8>> = Vec::new();
    let mut i: usize = 0;
    while i < items.len()
        invariant
            i <= items.len(),
            views(out@) =~= called_among(message@, items@, i as int),
        decreases items.len() - i,
    {
        let mut call = text("!");
        push_all(&mut call, items[i].as_slice());
        if bytes_equal(message, call.as_slice()) {
            let item = copy_bytes(items[i].as_slice());
            let ghost before = views(out@);
            out.push(item);
            assert(views(out@) =~= before.push(item@));
        }
        i += 1;
    }
    out
}

/// The chat-line actions that a chat post calls.
pub fn check_for_irc_actions(message: &[u8], actions: &Vec<Vec<u8>>) -> (out: Vec<Vec<u8>>)
    ensures
        views(out@) == called_among(message@, actions@, actions@.len() as int),
{
    called_items(message, actions)
}

/// What a chat post asks of the chat commands.
#[derive(Clone, Debug)]
pub enum ChatCommand {
    /// Say this line, which names every command.
    Say { message: Vec<u8> },
    /// Say what the files of these commands hold.
    Run { commands: Vec<Vec<u8>> },
}

/// The names of the first `n` commands as calls, separated by `, `.
pub open spec fn calls_joined(commands: Seq<Vec<u8>>, n: int) -> Seq<u8>
    decreases n,
{
    if n <= 0 {
        Seq::empty()
    } else if n == 1 {
        call_of(commands[0]@)
    } else {
        calls_joined(commands, n - 1) + ", ".spec_bytes() + call_of(commands[n - 1]@)
    }
}

/// The line that names every command.
pub open spec fn commands_line(commands: Seq<Vec<u8>>) -> Seq<u8> {
    "Available commands: ".spec_bytes() + calls_joined(commands, commands.len() as int)
}

/// What a chat post asks of the chat commands: the post `!commands` asks
/// for the line that names them all; any other post asks for the commands
/// that it calls.
pub fn check_for_chat_commands(message: &[u8], commands: &Vec<Vec<u8>>) -> (out: ChatCommand)
    ensures
        match out {
            ChatCommand::Say { message: line } => message@ == "!commands".spec_bytes() && line@
                == commands_line(commands@),
            ChatCommand::Run { commands: called } => message@ != "!commands".spec_bytes() && views(
                called@,
            ) == called_among(message@, commands@, commands@.len() as int),
        },
{
    if is_text(message, "!commands") {
        let mut joined: Vec<u8> = Vec::new();
        let mut i: usize = 0;
        while i < commands.len()
            invariant
                i <= commands.len(),
                joined@ == calls_joined(commands@, i as int),
            decreases commands.len() - i,
        {
            if i > 0 {
                push_all(&mut joined, ", ".as_bytes());
            }
            push_all(&mut joined, "!".as_bytes());
            push_all(&mut joined, commands[i].as_slice());
            i += 1;
        }
        let mut line = text("Available commands: ");
        push_all(&mut line, joined.as_slice());
        ChatCommand::Say { message: line }
    } else {
        ChatCommand::Run { commands: called_items(message, commands) }
    }
}

/// The program of a chat-line action, and whether its output goes to chat.
#[derive(Clone, Debug)]
pub struct IrcAction {
    pub command: ExternalCommand,
    pub option: Vec<u8>,
}

/// The arguments of a chat-line action's program: the subcommand and the
/// chatter's name, each where it is not empty.
pub open spec fn action_args(mapping: Seq<u8>, display_name: Seq<u8>) -> Seq<Seq<u8>> {
    let sub = sub_command(mapping);
    let first = if sub.len() > 0 {
        seq![sub]
    } else {
        Seq::empty()
    };
    let second = if display_name.len() > 0 {
        seq![display_name]
    } else {
        Seq::empty()
    };
    first + second
}

/// Chooses the program of a chat-line action. `found` is what is stored
/// for the action, if anything: `name[:sub] option`. Without stored text,
/// or without a space in it, nothing is to be run.
pub fn execute_command(found: Option<&[u8]>, display_name: &[u8]) -> (out: Option<IrcAction>)
    ensures
        match found {
            None => out is None,
            Some(stored) => match split_first(stored@, 32) {
                None => out is None,
                Some((mapping, option)) => out is Some && out.unwrap().option@ == option
                    && out.unwrap().command.name@ == command_name(mapping) && views(
                    out.unwrap().command.args@,
                ) == action_args(mapping, display_name@),
            },
        },
{
    match found {
        None => None,
        Some(stored) => match split_once(stored, 32) {
            None => None,
            Some((mapping, option)) => {
                let (name, sub) = match split_once(mapping.as_slice(), 58) {
                    Some((name, sub)) => (name, sub),
                    None => (copy_bytes(mapping.as_slice()), Vec::new()),
                };
                let mut args: Vec<Vec<u8>> = Vec::new();
                if sub.len() > 0 {
                    args.push(sub);
                }
                if display_name.len() > 0 {
                    args.push(copy_bytes(display_name));
                }
                assert(views(args@) =~= action_args(mapping@, display_name@));
                Some(IrcAction { command: ExternalCommand { name, args }, option })
            },
        },
    }
}

/// What a chat-line action says in chat once its program has ended: what
/// the program wrote, where it succeeded and the action's option is `chat`.
pub fn action_reply(action: &IrcAction, outcome: &ActionOutcome) -> (out: Option<Vec<u8>>)
    ensures
        match outcome {
            ActionOutcome::Exited { success, stdout } => if *success && action.option@
                == "chat".spec_bytes() {
                out is Some && out.unwrap()@ == stdout@
            } else {
                out is None
            },
            ActionOutcome::SpawnFailed => out is None,
        },
{
    match outcome {
        ActionOutcome::Exited { success, stdout } => {
            if *success && is_text(action.option.as_slice(), "chat") {
                Some(copy_bytes(stdout.as_slice()))
            } else {
                None
            }
        },
        ActionOutcome::SpawnFailed => None,
    }
}


/// The line that shows a chat post: the nickname, a colon and a space, and
/// the trimmed text.
pub open spec fn post_line(message: ChatMessage) -> Seq<u8> {
    message.nickname@ + ": ".spec_bytes() + trimmed(message.message@)
}

/// The lines that show a chat post: for a chatter's first post a line that
/// says so, then the post itself.
pub fn print_message(message: &ChatMessage) -> (lines: Vec<Vec<u8>>)
    ensures
        lines@.len() == (if message.first_msg {
            2int
        } else {
            1int
        }),
        message.first_msg ==> lines@[0]@ == "\u{2728} First Time Chat:".spec_bytes(),
        lines@[lines@.len() - 1]@ == post_line(*message),
{
    let mut lines: Vec<Vec<u8>> = Vec::new();
    if message.first_msg {
        lines.push(text("\u{2728} First Time Chat:"));
    }
    let mut line = copy_bytes(message.nickname.as_slice());
    push_all(&mut line, ": ".as_bytes());
    push_all(&mut line, trim(message.message.as_slice()).as_slice());
    lines.push(line);
    lines
}


/// The lines that show a parsed chat line: those of a chat post, and none
/// for anything else.
pub fn output(message: &TwitchMessage) -> (lines: Vec<Vec<u8>>)
    ensures
        match *message {
            TwitchMessage::PrivMessage { message: post } => {
                &&& lines@.len() == (if post.first_msg {
                    2int
                } else {
                    1int
                })
                &&& post.first_msg ==> lines@[0]@ == "\u{2728} First Time Chat:".spec_bytes()
                &&& lines@[lines@.len() - 1]@ == post_line(post)
            },
            _ => lines@.len() == 0,
        },
{
    match message {
        TwitchMessage::PrivMessage { message: post } => print_message(post),
        _ => Vec::new(),
    }
}

} // verus!
