//! The chat frontend's log: what it keeps of the messages that the bus
//! brings.

use vstd::prelude::*;
use crate::text::{views, copy_bytes, copy_texts};
use crate::channel::ChannelMessages;
use crate::deserialization::{Cheermote, Emote, Fragment, FragmentType, Mention};

verus! {

/// What a fragment of a log entry is.
#[derive(Clone, Copy, Debug, PartialEq, Eq, Structural)]
pub enum LogEntryFragmentType {
    Text,
    Cheermote,
    Emote,
    Mention,
    Unknown,
}

impl LogEntryFragmentType {
    /// The kind of log fragment that shows a fragment of the given kind.
    pub open spec fn of(kind: FragmentType) -> LogEntryFragmentType {
        match kind {
            FragmentType::Text => LogEntryFragmentType::Text,
            FragmentType::Cheermote => LogEntryFragmentType::Cheermote,
            FragmentType::Emote => LogEntryFragmentType::Emote,
            FragmentType::Mention => LogEntryFragmentType::Mention,
            FragmentType::Unknown => LogEntryFragmentType::Unknown,
        }
    }

    /// The kind of log fragment that shows a fragment of the given kind.
    pub fn from_fragment_type(kind: FragmentType) -> (out: LogEntryFragmentType)
        ensures
            out == LogEntryFragmentType::of(kind),
    {
        match kind {
            FragmentType::Text => LogEntryFragmentType::Text,
            FragmentType::Cheermote => LogEntryFragmentType::Cheermote,
            FragmentType::Emote => LogEntryFragmentType::Emote,
            FragmentType::Mention => LogEntryFragmentType::Mention,
            FragmentType::Unknown => LogEntryFragmentType::Unknown,
        }
    }

    /// The kind's name as the templates read it.
    pub fn to_common(&self) -> (name: &'static str)
        ensures
            name@ == match *self {
                LogEntryFragmentType::Text => "Text"@,
                LogEntryFragmentType::Cheermote => "Cheermote"@,
                LogEntryFragmentType::Emote => "Emote"@,
                LogEntryFragmentType::Mention => "Mention"@,
                LogEntryFragmentType::Unknown => "Unknown"@,
            },
    {
        match self {
            LogEntryFragmentType::Text => "Text",
            LogEntryFragmentType::Cheermote => "Cheermote",
            LogEntryFragmentType::Emote => "Emote",
            LogEntryFragmentType::Mention => "Mention",
            LogEntryFragmentType::Unknown => "Unknown",
        }
    }
}

/// The cheermote of a log fragment.
#[derive(Clone, Debug)]
pub struct LogEntryCheermote {
    pub prefix: Vec<u8>,
    pub bits: u16,
    pub tier: u8,
}

/// The emote of a log fragment.
#[derive(Clone, Debug)]
pub struct LogEntryEmote {
    pub id: Vec<u8>,
    pub emote_set_id: Vec<u8>,
    pub owner_id: Vec<u8>,
    pub format: Vec<Vec<u8>>,
}

/// The chatter whom a log fragment mentions.
#[derive(Clone, Debug)]
pub struct LogEntryMention {
    pub user_id: Vec<u8>,
    pub user_name: Vec<u8>,
    pub user_login: Vec<u8>,
}

/// One fragment of a log entry.
#[derive(Clone, Debug)]
pub struct LogEntryFragment {
    pub kind: LogEntryFragmentType,
    pub text: Vec<u8>,
    pub cheermote: Option<LogEntryCheermote>,
    pub emote: Option<LogEntryEmote>,
    pub mention: Option<LogEntryMention>,
}

/// One entry of the chat log.
#[derive(Clone, Debug)]
pub struct LogEntry {
    pub chatter_user_name: Vec<u8>,
    pub color: Vec<u8>,
    pub fragments: Vec<LogEntryFragment>,
}

/// Whether a log fragment's cheermote is that of a message fragment.
pub open spec fn shows_cheermote(out: Option<LogEntryCheermote>, part: Option<Cheermote>) -> bool {
    match (out, part) {
        (Some(o), Some(p)) => o.prefix@ == p.prefix@ && o.bits == p.bits && o.tier == p.tier,
        (None, None) => true,
        _ => false,
    }
}

/// Whether a log fragment's emote is that of a message fragment.
pub open spec fn shows_emote(out: Option<LogEntryEmote>, part: Option<Emote>) -> bool {
    match (out, part) {
        (Some(o), Some(p)) => o.id@ == p.id@ && o.emote_set_id@ == p.emote_set_id@ && o.owner_id@
            == p.owner_id@ && views(o.format@) == views(p.format@),
        (None, None) => true,
        _ => false,
    }
}

/// Whether a log fragment's mention is that of a message fragment.
pub open spec fn shows_mention(out: Option<LogEntryMention>, part: Option<Mention>) -> bool {
    match (out, part) {
        (Some(o), Some(p)) => o.user_id@ == p.user_id@ && o.user_name@ == p.user_name@
            && o.user_login@ == p.user_login@,
        (None, None) => true,
        _ => false,
    }
}

/// Whether `out` shows the fragment `fragment`: its kind, its text, and
/// its cheermote, emote and mention where it has them.
pub open spec fn shows(out: LogEntryFragment, fragment: Fragment) -> bool {
    &&& out.kind == LogEntryFragmentType::of(fragment.kind)
    &&& out.text@ == fragment.text@
    &&& shows_cheermote(out.cheermote, fragment.cheermote)
    &&& shows_emote(out.emote, fragment.emote)
    &&& shows_mention(out.mention, fragment.mention)
}

impl LogEntryFragment {
    /// The log fragment that shows a fragment of a message.
    pub fn from(value: &Fragment) -> (out: LogEntryFragment)
        ensures
            shows(out, *value),
    {
        LogEntryFragment {
            kind: LogEntryFragmentType::from_fragment_type(value.kind),
            text: copy_bytes(value.text.as_slice()),
            cheermote: match &value.cheermote {
                Some(c) => Some(
                    LogEntryCheermote {
                        prefix: copy_bytes(c.prefix.as_slice()),
                        bits: c.bits,
                        tier: c.tier,
                    },
                ),
                None => None,
            },
            emote: match &value.emote {
                Some(e) => Some(
                    LogEntryEmote {
                        id: copy_bytes(e.id.as_slice()),
                        emote_set_id: copy_bytes(e.emote_set_id.as_slice()),
                        owner_id: copy_bytes(e.owner_id.as_slice()),
                        format: copy_texts(&e.format),
                    },
                ),
                None => None,
            },
            mention: match &value.mention {
                Some(m) => Some(
                    LogEntryMention {
                        user_id: copy_bytes(m.user_id.as_slice()),
                        user_name: copy_bytes(m.user_name.as_slice()),
                        user_login: copy_bytes(m.user_login.as_slice()),
                    },
                ),
                None => None,
            },
        }
    }
}

/// Whether `entry` is the log entry of `message`: the chatter, the colour
/// and one fragment per fragment of the text. Only a chat message has one.
pub open spec fn is_entry_of(message: ChannelMessages, entry: LogEntry) -> bool {
    match message {
        ChannelMessages::ChatMessage { message: event } => {
            &&& entry.chatter_user_name@ == event.chatter_user_name@
            &&& entry.color@ == event.color@
            &&& entry.fragments@.len() == event.message.fragments@.len()
            &&& forall|i: int|
                0 <= i < entry.fragments@.len() ==> shows(
                    #[trigger] entry.fragments@[i],
                    event.message.fragments@[i],
                )
        },
        _ => false,
    }
}

/// The log entry of a message from the bus, where it has one.
pub fn log_entry(message: &ChannelMessages) -> (out: Option<LogEntry>)
    ensures
        match out {
            Some(entry) => is_entry_of(*message, entry),
            None => !(message is ChatMessage),
        },
{
    match message {
        ChannelMessages::ChatMessage { message: event } => {
            let mut fragments: Vec<LogEntryFragment> = Vec::new();
            let mut i: usize = 0;
            while i < event.message.fragments.len()
                invariant
                    i <= event.message.fragments@.len(),
                    fragments@.len() == i,
                    forall|j: int|
                        0 <= j < i ==> shows(#[trigger] fragments@[j], event.message.fragments@[j]),
                decreases event.message.fragments@.len() - i,
            {
                fragments.push(LogEntryFragment::from(&event.message.fragments[i]));
                i += 1;
            }
            Some(
                LogEntry {
                    chatter_user_name: copy_bytes(event.chatter_user_name.as_slice()),
                    color: copy_bytes(event.color.as_slice()),
                    fragments,
                },
            )
        },
        _ => None,
    }
}

/// What the frontend shows: the chat log, oldest entry first.
#[derive(Clone, Debug)]
pub struct AppState {
    pub log: Vec<LogEntry>,
}

/// The chat frontend.
#[derive(Clone, Copy, Debug)]
pub struct App {}

impl App {
    /// A frontend.
    pub fn new() -> App {
        App {  }
    }

    /// An ad break leaves the log as it is.
    pub fn ad_break(&self, _message: &ChannelMessages, state: &mut AppState)
        ensures
            *final(state) == *old(state),
    {
    }

    /// A chat message adds its entry at the end of the log; any other
    /// message leaves the log as it is.
    pub fn chat_message(&self, message: &ChannelMessages, state: &mut AppState)
        ensures
            message is ChatMessage ==> final(state).log@.len() == old(state).log@.len() + 1
                && final(state).log@.drop_last() == old(state).log@ && is_entry_of(
                *message,
                final(state).log@.last(),
            ),
            !(message is ChatMessage) ==> *final(state) == *old(state),
    {
        match log_entry(message) {
            Some(entry) => {
                let ghost before = state.log@;
                state.log.push(entry);
                assert(state.log@.drop_last() =~= before);
            },
            None => {},
        }
    }

    /// An announcement leaves the log as it is.
    pub fn bot_announcement(&self, _message: &ChannelMessages, state: &mut AppState)
        ensures
            *final(state) == *old(state),
    {
    }

    /// Clearing a chatter's messages leaves the log as it is.
    pub fn clear_messages_by_user(&self, _message: &ChannelMessages, state: &mut AppState)
        ensures
            *final(state) == *old(state),
    {
    }

    /// A refund leaves the log as it is.
    pub fn redeem_refund(&self, _message: &ChannelMessages, state: &mut AppState)
        ensures
            *final(state) == *old(state),
    {
    }

    /// Takes one message from the bus: a chat message adds its entry at the
    /// end of the log, and every other message leaves the log as it is.
    pub fn tick(&self, message: &ChannelMessages, state: &mut AppState)
        ensures
            message is ChatMessage ==> final(state).log@.len() == old(state).log@.len() + 1
                && final(state).log@.drop_last() == old(state).log@ && is_entry_of(
                *message,
                final(state).log@.last(),
            ),
            !(message is ChatMessage) ==> *final(state) == *old(state),
    {
        match message {
            ChannelMessages::AdBreakStarted { .. } => self.ad_break(message, state),
            ChannelMessages::ChatMessage { .. } => self.chat_message(message, state),
            ChannelMessages::Announcement { .. } => self.bot_announcement(message, state),
            ChannelMessages::ClearMessagesByUser { .. } => self.clear_messages_by_user(message, state),
            ChannelMessages::RedeemRefund { .. } => self.redeem_refund(message, state),
        }
    }
}

} // verus!
