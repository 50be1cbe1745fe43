//! Chat commands, announcements, chat-line actions and rewards on disk, as
//! the requests and listings that the caller carries out: which file to
//! write or remove, and which lines to show.

use vstd::prelude::*;
use vstd::string::*;
use crate::text::{text, views, copy_bytes, push_all, decimal, decimal_digits};

verus! {

/// One of the four stores, each a directory of files named by item.
#[derive(Clone, Copy, Debug, PartialEq, Eq, Structural)]
pub enum Store {
    ChatCommands,
    ChatAnnouncements,
    IrcActions,
    ChatRewards,
}

impl Store {
    /// The name of the store's directory, as bytes.
    pub open spec fn directory(self) -> Seq<u8> {
        match self {
            Store::ChatCommands => "chat_commands".spec_bytes(),
            Store::ChatAnnouncements => "chat_announcements".spec_bytes(),
            Store::IrcActions => "irc_actions".spec_bytes(),
            Store::ChatRewards => "chat_rewards".spec_bytes(),
        }
    }

    /// The name of the store's directory.
    pub fn directory_name(&self) -> (name: &'static str)
        ensures
            name.spec_bytes() == self.directory(),
    {
        match self {
            Store::ChatCommands => "chat_commands",
            Store::ChatAnnouncements => "chat_announcements",
            Store::IrcActions => "irc_actions",
            Store::ChatRewards => "chat_rewards",
        }
    }
}

/// A file to write: the store, the item's name, and the contents.
#[derive(Clone, Debug)]
pub struct WriteRequest {
    pub store: Store,
    pub name: Vec<u8>,
    pub contents: Vec<u8>,
}

/// A file to remove: the store and the item's name.
#[derive(Clone, Debug)]
pub struct RemoveRequest {
    pub store: Store,
    pub name: Vec<u8>,
}

/// An entry of a store's directory.
#[derive(Clone, Debug)]
pub struct Entry {
    pub name: Vec<u8>,
    pub is_file: bool,
}

/// The names of the files among the first `n` entries, in order.
pub open spec fn files_among(entries: Seq<Entry>, n: int) -> Seq<Seq<u8>>
    decreases n,
{
    if n <= 0 {
        Seq::empty()
    } else if entries[n - 1].is_file {
        files_among(entries, n - 1).push(entries[n - 1].name@)
    } else {
        files_among(entries, n - 1)
    }
}

/// The items of a store: the names of the files in its directory.
pub fn get_list(entries: &Vec<Entry>) -> (items: Vec<Vec<u8>>)
    ensures
        views(items@) == files_among(entries@, entries@.len() as int),
{
    let mut items: Vec<Vec<u8>> = Vec::new();
    let mut i: usize = 0;
    while i < entries.len()
        invariant
            i <= entries.len(),
            views(items@) =~= files_among(entries@, i as int),
        decreases entries.len() - i,
    {
        if entries[i].is_file {
            let name = copy_bytes(entries[i].name.as_slice());
            let ghost before = views(items@);
            items.push(name);
            assert(views(items@) =~= before.push(name@));
        }
        i += 1;
    }
    items
}

/// The chat commands: the files of the chat-command store.
pub fn get_list_commands(entries: &Vec<Entry>) -> (items: Vec<Vec<u8>>)
    ensures
        views(items@) == files_among(entries@, entries@.len() as int),
{
    get_list(entries)
}

/// The announcements: the files of the announcement store.
pub fn get_list_announcements(entries: &Vec<Entry>) -> (items: Vec<Vec<u8>>)
    ensures
        views(items@) == files_among(entries@, entries@.len() as int),
{
    get_list(entries)
}

/// The contents of a command's file: the message, and before it, for an
/// announcement, its period in minutes and a line feed.
pub open spec fn command_contents(message: Seq<u8>, timing: Option<usize>) -> Seq<u8> {
    match timing {
        Some(minutes) => decimal_digits(minutes as nat) + "\n".spec_bytes() + message,
        None => message,
    }
}

/// The file that adds a chat command or, with a period, an announcement.
pub fn add_command(command_name: &[u8], message: &[u8], timing: Option<usize>) -> (request:
    WriteRequest)
    ensures
        request.store == (if timing is Some {
            Store::ChatAnnouncements
        } else {
            Store::ChatCommands
        }),
        request.name@ == command_name@,
        request.contents@ == command_contents(message@, timing),
{
    match timing {
        Some(minutes) => {
            let mut contents = decimal(minutes as u64);
            push_all(&mut contents, "\n".as_bytes());
            push_all(&mut contents, message);
            WriteRequest {
                store: Store::ChatAnnouncements,
                name: copy_bytes(command_name),
                contents,
            }
        },
        None => WriteRequest {
            store: Store::ChatCommands,
            name: copy_bytes(command_name),
            contents: copy_bytes(message),
        },
    }
}

/// The file to remove for a command: the chat command of that name where
/// there is one, else the announcement of that name where there is one.
pub fn remove_command(command_name: &[u8], is_command: bool, is_announcement: bool) -> (request:
    Option<RemoveRequest>)
    ensures
        match request {
            Some(r) => r.name@ == command_name@ && (is_command || is_announcement) && r.store == (
            if is_command {
                Store::ChatCommands
            } else {
                Store::ChatAnnouncements
            }),
            None => !is_command && !is_announcement,
        },
{
    if is_command {
        Some(RemoveRequest { store: Store::ChatCommands, name: copy_bytes(command_name) })
    } else if is_announcement {
        Some(RemoveRequest { store: Store::ChatAnnouncements, name: copy_bytes(command_name) })
    } else {
        None
    }
}

/// The file that adds an item to a store: its contents are the command line.
pub fn add_item(item_name: &[u8], cli: &[u8], item_type: Store) -> (request: WriteRequest)
    ensures
        request.store == item_type,
        request.name@ == item_name@,
        request.contents@ == cli@,
{
    WriteRequest { store: item_type, name: copy_bytes(item_name), contents: copy_bytes(cli) }
}

/// The file to remove for an item, where the store has it.
pub fn remove_item(item_name: &[u8], item_type: Store, exists: bool) -> (request: Option<
    RemoveRequest,
>)
    ensures
        match request {
            Some(r) => exists && r.store == item_type && r.name@ == item_name@,
            None => !exists,
        },
{
    if exists {
        Some(RemoveRequest { store: item_type, name: copy_bytes(item_name) })
    } else {
        None
    }
}

/// The file that adds a chat-line action.
pub fn add_action(action_name: &[u8], cli: &[u8]) -> (request: WriteRequest)
    ensures
        request.store == Store::IrcActions,
        request.name@ == action_name@,
        request.contents@ == cli@,
{
    add_item(action_name, cli, Store::IrcActions)
}

/// The file to remove for a chat-line action, where there is one.
pub fn remove_action(action_name: &[u8], exists: bool) -> (request: Option<RemoveRequest>)
    ensures
        match request {
            Some(r) => exists && r.store == Store::IrcActions && r.name@ == action_name@,
            None => !exists,
        },
{
    remove_item(action_name, Store::IrcActions, exists)
}

/// The file that adds a reward's command line.
pub fn add_reward(reward_name: &[u8], cli: &[u8]) -> (request: WriteRequest)
    ensures
        request.store == Store::ChatRewards,
        request.name@ == reward_name@,
        request.contents@ == cli@,
{
    add_item(reward_name, cli, Store::ChatRewards)
}

/// The file to remove for a reward, where there is one.
pub fn remove_reward(reward_name: &[u8], exists: bool) -> (request: Option<RemoveRequest>)
    ensures
        match request {
            Some(r) => exists && r.store == Store::ChatRewards && r.name@ == reward_name@,
            None => !exists,
        },
{
    remove_item(reward_name, Store::ChatRewards, exists)
}

/// A store's name as people read it: with a space for every underscore.
pub open spec fn readable(directory: Seq<u8>) -> Seq<u8> {
    directory.map_values(|b: u8| if b == 95 { 32u8 } else { b })
}

/// Writes a store's name with a space for every underscore.
pub fn human_readable(directory: &[u8]) -> (out: Vec<u8>)
    ensures
        out@ == readable(directory@),
{
    let mut out: Vec<u8> = Vec::new();
    let mut i: usize = 0;
    while i < directory.len()
        invariant
            i <= directory.len(),
            out@ =~= readable(directory@).subrange(0, i as int),
        decreases directory.len() - i,
    {
        if directory[i] == 95 {
            out.push(32);
        } else {
            out.push(directory[i]);
        }
        i += 1;
    }
    assert(readable(directory@).subrange(0, directory@.len() as int) =~= readable(directory@));
    out
}

/// The line of one item in a listing.
pub open spec fn item_line(item: Seq<u8>) -> Seq<u8> {
    "- ".spec_bytes() + item
}

/// Appends one line per item to `lines`.
pub fn push_items(lines: &mut Vec<Vec<u8>>, items: &Vec<Vec<u8>>)
    ensures
        final(lines)@.len() == old(lines)@.len() + items@.len(),
        forall|i: int| 0 <= i < old(lines)@.len() ==> final(lines)@[i] == old(lines)@[i],
        forall|i: int|
            0 <= i < items@.len() ==> (#[trigger] final(lines)@[old(lines)@.len() + i])@ == item_line(
                items@[i]@,
            ),
{
    let mut i: usize = 0;
    while i < items.len()
        invariant
            i <= items.len(),
            lines@.len() == old(lines)@.len() + i,
            forall|j: int| 0 <= j < old(lines)@.len() ==> lines@[j] == old(lines)@[j],
            forall|j: int|
                0 <= j < i ==> (#[trigger] lines@[old(lines)@.len() + j])@ == item_line(items@[j]@),
        decreases items.len() - i,
    {
        let mut line = text("- ");
        push_all(&mut line, items[i].as_slice());
        lines.push(line);
        i += 1;
    }
}

/// The line that says that a store is empty.
pub open spec fn empty_line(directory: Seq<u8>) -> Seq<u8> {
    "Currently no ".spec_bytes() + readable(directory) + " have been added.".spec_bytes()
}

/// The line that heads a store's listing.
pub open spec fn heading_line(directory: Seq<u8>) -> Seq<u8> {
    "Available ".spec_bytes() + readable(directory) + ":".spec_bytes()
}

/// Whether `lines` is the listing of a store with the items `items`: for an
/// empty store the line that says so, then in any case the heading, then
/// one line per item.
pub open spec fn is_listing(lines: Seq<Vec<u8>>, store: Store, items: Seq<Vec<u8>>) -> bool {
    let lead: int = if items.len() == 0 {
        2
    } else {
        1
    };
    &&& lines.len() == lead + items.len()
    &&& items.len() == 0 ==> lines[0]@ == empty_line(store.directory())
    &&& lines[lead - 1]@ == heading_line(store.directory())
    &&& forall|i: int| 0 <= i < items.len() ==> (#[trigger] lines[lead + i])@ == item_line(items[i]@)
}

/// The lines that list a store.
pub fn list(list_type: Store, items: &Vec<Vec<u8>>) -> (lines: Vec<Vec<u8>>)
    ensures
        is_listing(lines@, list_type, items@),
{
    let readable_name = human_readable(list_type.directory_name().as_bytes());
    let mut lines: Vec<Vec<u8>> = Vec::new();
    if items.len() == 0 {
        let mut line = text("Currently no ");
        push_all(&mut line, readable_name.as_slice());
        push_all(&mut line, " have been added.".as_bytes());
        lines.push(line);
    }
    let mut heading = text("Available ");
    push_all(&mut heading, readable_name.as_slice());
    push_all(&mut heading, ":".as_bytes());
    lines.push(heading);
    push_items(&mut lines, items);
    lines
}

/// The lines that list the chat-line actions.
pub fn list_actions(items: &Vec<Vec<u8>>) -> (lines: Vec<Vec<u8>>)
    ensures
        is_listing(lines@, Store::IrcActions, items@),
{
    list(Store::IrcActions, items)
}

/// The lines that list the rewards.
pub fn list_rewards(items: &Vec<Vec<u8>>) -> (lines: Vec<Vec<u8>>)
    ensures
        is_listing(lines@, Store::ChatRewards, items@),
{
    list(Store::ChatRewards, items)
}

/// The line that says that there is nothing to list.
pub open spec fn nothing_line() -> Seq<u8> {
    "Currently no chat announcements have been added.".spec_bytes()
}

/// Whether `lines` lists the announcements `items`: the line that says
/// that there are none, or a heading and one line per item.
pub open spec fn is_announcement_listing(lines: Seq<Vec<u8>>, items: Seq<Vec<u8>>) -> bool {
    if items.len() == 0 {
        lines.len() == 1 && lines[0]@ == nothing_line()
    } else {
        &&& lines.len() == 1 + items.len()
        &&& lines[0]@ == "Current chat announcements:".spec_bytes()
        &&& forall|i: int| 0 <= i < items.len() ==> (#[trigger] lines[1 + i])@ == item_line(items[i]@)
    }
}

/// The lines that list the announcements.
pub fn list_announcements(items: &Vec<Vec<u8>>) -> (lines: Vec<Vec<u8>>)
    ensures
        is_announcement_listing(lines@, items@),
{
    let mut lines: Vec<Vec<u8>> = Vec::new();
    if items.len() == 0 {
        lines.push(text("Currently no chat announcements have been added."));
    } else {
        lines.push(text("Current chat announcements:"));
        push_items(&mut lines, items);
    }
    lines
}

/// The lines that list the chat commands and, behind them, the
/// announcements. Without any chat command the listing is the one line
/// that says that there is nothing to list, and the announcements are not
/// listed.
pub fn list_commands(commands: &Vec<Vec<u8>>, announcements: &Vec<Vec<u8>>) -> (lines: Vec<Vec<u8>>)
    ensures
        commands@.len() == 0 ==> lines@.len() == 1 && lines@[0]@ == nothing_line(),
        commands@.len() > 0 ==> {
            let n = commands@.len() as int;
            &&& lines@.len() > n
            &&& lines@[0]@ == "Available chat commands:".spec_bytes()
            &&& forall|i: int| 0 <= i < n ==> (#[trigger] lines@[1 + i])@ == item_line(commands@[i]@)
            &&& is_announcement_listing(lines@.subrange(1 + n, lines@.len() as int), announcements@)
        },
{
    let mut lines: Vec<Vec<u8>> = Vec::new();
    if commands.len() == 0 {
        lines.push(text("Currently no chat announcements have been added."));
        return lines;
    }
    lines.push(text("Available chat commands:"));
    push_items(&mut lines, commands);
    let mut rest = list_announcements(announcements);
    let ghost tail = rest@;
    let ghost head = lines@;
    lines.append(&mut rest);
    assert(lines@.subrange(1 + commands@.len() as int, lines@.len() as int) =~= tail);
    lines
}

} // verus!
