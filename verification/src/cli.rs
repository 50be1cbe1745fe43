//! The command line, once parsed: what each command asks the program to do.

use vstd::prelude::*;
use crate::chat_commands::{add_action, add_command, add_reward, command_contents, Store, WriteRequest};

verus! {

/// The parsed command line.
#[derive(Clone, Debug)]
pub struct Cli {
    pub commands: Cmds,
}

/// The commands of the program.
#[derive(Clone, Debug)]
pub enum Cmds {
    /// Open the admin dashboard.
    Admin,
    /// Start the chat client.
    Chat {
        twitch_name: Option<Vec<u8>>,
        oauth_token: Option<Vec<u8>>,
        client_id: Option<Vec<u8>>,
        skip_announcements: bool,
    },
    /// Manage chat commands.
    Commands { cmd: SubCmds },
    /// Manage chat rewards.
    Rewards { cmd: RewardSubCmds },
    /// Manage chat-line actions.
    IrcActions { cmd: IrcActionSubCmds },
    /// Log in and get a token.
    Login,
}

/// What to do with chat commands.
#[derive(Clone, Debug)]
pub enum SubCmds {
    List,
    Add { name: Vec<u8>, message: Vec<u8>, timing: Option<usize> },
    Remove { name: Vec<u8> },
}

/// What to do with rewards.
#[derive(Clone, Debug)]
pub enum RewardSubCmds {
    List,
    Add { name: Vec<u8>, cli: Vec<u8> },
    Remove { name: Vec<u8> },
}

/// What to do with chat-line actions.
#[derive(Clone, Debug)]
pub enum IrcActionSubCmds {
    List,
    Add { name: Vec<u8>, cli: Vec<u8> },
    Remove { name: Vec<u8> },
}

/// What a command asks the program to do.
#[derive(Clone, Debug)]
pub enum Task {
    /// Nothing.
    Nothing,
    /// Start the chat client with what was given of the credentials.
    StartChat {
        twitch_name: Option<Vec<u8>>,
        oauth_token: Option<Vec<u8>>,
        client_id: Option<Vec<u8>>,
        skip_announcements: bool,
    },
    /// Show the items of a store; for the chat commands the announcements
    /// follow.
    List { store: Store },
    /// Write a file.
    Write { request: WriteRequest },
    /// Remove a chat command, or the announcement of that name.
    RemoveCommand { name: Vec<u8> },
    /// Remove an item of a store.
    RemoveItem { store: Store, name: Vec<u8> },
    /// Run the login.
    Login,
}

/// Whether `task` is what the command line `cli` asks for.
pub open spec fn is_task_of(cli: Cli, task: Task) -> bool {
    match cli.commands {
        Cmds::Admin => task is Nothing,
        Cmds::Chat { twitch_name, oauth_token, client_id, skip_announcements } => task == (
        Task::StartChat { twitch_name, oauth_token, client_id, skip_announcements }),
        Cmds::Commands { cmd } => match cmd {
            SubCmds::List => task == (Task::List { store: Store::ChatCommands }),
            SubCmds::Add { name, message, timing } => task matches Task::Write { request }
                && request.store == (if timing is Some {
                Store::ChatAnnouncements
            } else {
                Store::ChatCommands
            }) && request.name@ == name@ && request.contents@ == command_contents(message@, timing),
            SubCmds::Remove { name } => task == (Task::RemoveCommand { name }),
        },
        Cmds::IrcActions { cmd } => match cmd {
            IrcActionSubCmds::List => task == (Task::List { store: Store::IrcActions }),
            IrcActionSubCmds::Add { name, cli } => task matches Task::Write { request }
                && request.store == Store::IrcActions && request.name@ == name@ && request.contents@
                == cli@,
            IrcActionSubCmds::Remove { name } => task == (
            Task::RemoveItem { store: Store::IrcActions, name }),
        },
        Cmds::Rewards { cmd } => match cmd {
            RewardSubCmds::List => task == (Task::List { store: Store::ChatRewards }),
            RewardSubCmds::Add { name, cli } => task matches Task::Write { request }
                && request.store == Store::ChatRewards && request.name@ == name@
                && request.contents@ == cli@,
            RewardSubCmds::Remove { name } => task == (
            Task::RemoveItem { store: Store::ChatRewards, name }),
        },
        Cmds::Login => task is Login,
    }
}

/// Dispatches the parsed command line.
pub fn command(cli: Cli) -> (task: Task)
    ensures
        is_task_of(cli, task),
{
    match cli.commands {
        Cmds::Admin => Task::Nothing,
        Cmds::Chat { twitch_name, oauth_token, client_id, skip_announcements } => Task::StartChat {
            twitch_name,
            oauth_token,
            client_id,
            skip_announcements,
        },
        Cmds::Commands { cmd } => match cmd {
            SubCmds::List => Task::List { store: Store::ChatCommands },
            SubCmds::Add { name, message, timing } => Task::Write {
                request: add_command(name.as_slice(), message.as_slice(), timing),
            },
            SubCmds::Remove { name } => Task::RemoveCommand { name },
        },
        Cmds::IrcActions { cmd } => match cmd {
            IrcActionSubCmds::List => Task::List { store: Store::IrcActions },
            IrcActionSubCmds::Add { name, cli } => Task::Write {
                request: add_action(name.as_slice(), cli.as_slice()),
            },
            IrcActionSubCmds::Remove { name } => Task::RemoveItem { store: Store::IrcActions, name },
        },
        Cmds::Rewards { cmd } => match cmd {
            RewardSubCmds::List => Task::List { store: Store::ChatRewards },
            RewardSubCmds::Add { name, cli } => Task::Write {
                request: add_reward(name.as_slice(), cli.as_slice()),
            },
            RewardSubCmds::Remove { name } => Task::RemoveItem { store: Store::ChatRewards, name },
        },
        Cmds::Login => Task::Login,
    }
}

} // verus!
