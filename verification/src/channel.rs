//! The messages that cross from the ingestion workers to the consumers, and
//! the bus that hands every consumer its own copy of each.

use vstd::prelude::*;
use crate::text::{copy_bytes, copy_option, same_option};
use crate::notice_type::NoticeType;
use crate::deserialization::{message_same_laws, FragmentType, Message};
use crate::messages::{ChatMessage, TwitchMessage};

verus! {

/// A chat message or chat notification in the one shape that consumers read.
#[derive(Clone, Debug)]
pub struct ChatEvent {
    pub chatter_user_id: Vec<u8>,
    pub chatter_user_login: Vec<u8>,
    pub chatter_user_name: Vec<u8>,
    pub color: Vec<u8>,
    pub message_id: Vec<u8>,
    pub message: Message,
    /// The platform's own line about a notification; absent on a plain chat
    /// message.
    pub system_message: Option<Vec<u8>>,
    /// The kind of a notification; absent on a plain chat message.
    pub notice_type: Option<NoticeType>,
}

impl ChatEvent {
    /// Whether two chat events hold the same values.
    pub open spec fn same(self, other: ChatEvent) -> bool {
        &&& self.chatter_user_id@ == other.chatter_user_id@
        &&& self.chatter_user_login@ == other.chatter_user_login@
        &&& self.chatter_user_name@ == other.chatter_user_name@
        &&& self.color@ == other.color@
        &&& self.message_id@ == other.message_id@
        &&& self.message.same(other.message)
        &&& same_option(self.system_message, other.system_message)
        &&& self.notice_type == other.notice_type
    }

    /// A copy that holds the same values.
    pub fn duplicate(&self) -> (out: ChatEvent)
        ensures
            self.same(out),
    {
        ChatEvent {
            chatter_user_id: copy_bytes(self.chatter_user_id.as_slice()),
            chatter_user_login: copy_bytes(self.chatter_user_login.as_slice()),
            chatter_user_name: copy_bytes(self.chatter_user_name.as_slice()),
            color: copy_bytes(self.color.as_slice()),
            message_id: copy_bytes(self.message_id.as_slice()),
            message: self.message.duplicate(),
            system_message: copy_option(&self.system_message),
            notice_type: self.notice_type,
        }
    }
}

/// What the ingestion workers tell the consumers.
#[derive(Clone, Debug)]
pub enum ChannelMessages {
    ChatMessage { message: ChatEvent },
    Announcement { message: Vec<u8> },
    AdBreakStarted { message: Vec<u8> },
    ClearMessagesByUser { target_user_name: Vec<u8> },
    RedeemRefund { message: Vec<u8>, command_output: Vec<u8> },
}

impl ChannelMessages {
    /// Whether two messages are equal by value.
    pub open spec fn same(self, other: ChannelMessages) -> bool {
        match (self, other) {
            (
                ChannelMessages::ChatMessage { message: a },
                ChannelMessages::ChatMessage { message: b },
            ) => a.same(b),
            (
                ChannelMessages::Announcement { message: a },
                ChannelMessages::Announcement { message: b },
            ) => a@ == b@,
            (
                ChannelMessages::AdBreakStarted { message: a },
                ChannelMessages::AdBreakStarted { message: b },
            ) => a@ == b@,
            (
                ChannelMessages::ClearMessagesByUser { target_user_name: a },
                ChannelMessages::ClearMessagesByUser { target_user_name: b },
            ) => a@ == b@,
            (
                ChannelMessages::RedeemRefund { message: a, command_output: x },
                ChannelMessages::RedeemRefund { message: b, command_output: y },
            ) => a@ == b@ && x@ == y@,
            _ => false,
        }
    }

    /// A copy that is equal by value and shares nothing with this message.
    pub fn duplicate(&self) -> (out: ChannelMessages)
        ensures
            self.same(out),
    {
        match self {
            ChannelMessages::ChatMessage { message } => ChannelMessages::ChatMessage {
                message: message.duplicate(),
            },
            ChannelMessages::Announcement { message } => ChannelMessages::Announcement {
                message: copy_bytes(message.as_slice()),
            },
            ChannelMessages::AdBreakStarted { message } => ChannelMessages::AdBreakStarted {
                message: copy_bytes(message.as_slice()),
            },
            ChannelMessages::ClearMessagesByUser {
                target_user_name,
            } => ChannelMessages::ClearMessagesByUser {
                target_user_name: copy_bytes(target_user_name.as_slice()),
            },
            ChannelMessages::RedeemRefund { message, command_output } => ChannelMessages::RedeemRefund {
                message: copy_bytes(message.as_slice()),
                command_output: copy_bytes(command_output.as_slice()),
            },
        }
    }
}

/// Whether `event` is the chat event of a chat post from the chat-line
/// source: the chatter by nickname and display name, the colour, and the
/// text as one fragment of text.
pub open spec fn is_event_of_post(post: ChatMessage, event: ChatEvent) -> bool {
    &&& event.chatter_user_id@.len() == 0
    &&& event.chatter_user_login@ == post.nickname@
    &&& event.chatter_user_name@ == post.display_name@
    &&& event.color@ == post.color@
    &&& event.message_id@.len() == 0
    &&& event.message.text@ == post.message@
    &&& event.message.fragments@.len() == 1
    &&& event.message.fragments@[0].kind == FragmentType::Text
    &&& event.message.fragments@[0].text@ == post.message@
    &&& event.message.fragments@[0].cheermote is None
    &&& event.message.fragments@[0].emote is None
    &&& event.message.fragments@[0].mention is None
    &&& event.system_message is None
    &&& event.notice_type is None
}

/// Whether `event` is the chat event of a raid notice from the chat-line
/// source: the raider's identifier, the notice as the platform's line, and
/// no text.
pub open spec fn is_event_of_raid(user_id: Seq<u8>, raid_notice: Seq<u8>, event: ChatEvent) -> bool {
    &&& event.chatter_user_id@ == user_id
    &&& event.chatter_user_login@.len() == 0
    &&& event.chatter_user_name@.len() == 0
    &&& event.color@.len() == 0
    &&& event.message_id@.len() == 0
    &&& event.message.text@.len() == 0
    &&& event.message.fragments@.len() == 0
    &&& event.system_message is Some
    &&& event.system_message.unwrap()@ == raid_notice
    &&& event.notice_type == Some(NoticeType::Raid)
}

/// What the chat-line source publishes for a parsed line: always a chat
/// message, of a chat post or of a raid notice.
pub fn from_chat_line(line: &TwitchMessage) -> (out: ChannelMessages)
    ensures
        match (*line, out) {
            (
                TwitchMessage::PrivMessage { message },
                ChannelMessages::ChatMessage { message: event },
            ) => is_event_of_post(message, event),
            (
                TwitchMessage::RaidMessage { user_id, raid_notice },
                ChannelMessages::ChatMessage { message: event },
            ) => is_event_of_raid(user_id@, raid_notice@, event),
            _ => false,
        },
{
    match line {
        TwitchMessage::PrivMessage { message } => {
            let mut fragments: Vec<crate::deserialization::Fragment> = Vec::new();
            fragments.push(
                crate::deserialization::Fragment {
                    kind: FragmentType::Text,
                    text: copy_bytes(message.message.as_slice()),
                    cheermote: None,
                    emote: None,
                    mention: None,
                },
            );
            ChannelMessages::ChatMessage {
                message: ChatEvent {
                    chatter_user_id: Vec::new(),
                    chatter_user_login: copy_bytes(message.nickname.as_slice()),
                    chatter_user_name: copy_bytes(message.display_name.as_slice()),
                    color: copy_bytes(message.color.as_slice()),
                    message_id: Vec::new(),
                    message: Message { text: copy_bytes(message.message.as_slice()), fragments },
                    system_message: None,
                    notice_type: None,
                },
            }
        },
        TwitchMessage::RaidMessage { user_id, raid_notice } => ChannelMessages::ChatMessage {
            message: ChatEvent {
                chatter_user_id: copy_bytes(user_id.as_slice()),
                chatter_user_login: Vec::new(),
                chatter_user_name: Vec::new(),
                color: Vec::new(),
                message_id: Vec::new(),
                message: Message { text: Vec::new(), fragments: Vec::new() },
                system_message: Some(copy_bytes(raid_notice.as_slice())),
                notice_type: Some(NoticeType::Raid),
            },
        },
    }
}

/// One consumer of the bus: its name, whether it is still there, and what
/// it has yet to read, oldest first.
#[derive(Clone, Debug)]
pub struct Consumer {
    pub name: Vec<u8>,
    pub connected: bool,
    pub queue: Vec<ChannelMessages>,
}

/// The fan-out bus: a registry of consumers, each with an unbounded queue of
/// its own. Publishing never waits for a consumer: a message is appended to
/// the queue of every connected consumer, and a consumer that has gone is
/// counted and passed over.
#[derive(Clone, Debug)]
pub struct Bus {
    pub consumers: Vec<Consumer>,
}

/// Whether `after` is the bus `before` once `message` was published: the
/// consumers are the same; every connected consumer has, behind all that it
/// had yet to read, one more message, equal by value to `message`; and a
/// consumer that has gone has what it had.
pub open spec fn delivered(before: Bus, message: ChannelMessages, after: Bus) -> bool {
    &&& after.len() == before.len()
    &&& forall|i: int|
        0 <= i < before.len() ==> (#[trigger] after.consumers@[i]).name == before.consumers@[i].name
            && after.consumers@[i].connected == before.consumers@[i].connected
    &&& forall|i: int|
        0 <= i < before.len() && before.is_connected(i) ==> {
            &&& (#[trigger] after.pending(i)).len() == before.pending(i).len() + 1
            &&& after.pending(i).drop_last() == before.pending(i)
            &&& message.same(after.pending(i).last())
        }
    &&& forall|i: int|
        0 <= i < before.len() && !before.is_connected(i) ==> (#[trigger] after.pending(i))
            == before.pending(i)
}

impl Bus {
    /// The number of registered consumers.
    pub open spec fn len(self) -> int {
        self.consumers@.len() as int
    }

    /// What consumer `id` has yet to read, oldest first.
    pub open spec fn pending(self, id: int) -> Seq<ChannelMessages> {
        self.consumers@[id].queue@
    }

    /// Whether consumer `id` is still there.
    pub open spec fn is_connected(self, id: int) -> bool {
        self.consumers@[id].connected
    }

    /// How many of the first `n` consumers have gone.
    pub open spec fn gone_among(self, n: int) -> int
        decreases n,
    {
        if n <= 0 {
            0
        } else if self.is_connected(n - 1) {
            self.gone_among(n - 1)
        } else {
            self.gone_among(n - 1) + 1
        }
    }

    /// A bus without consumers.
    pub fn new() -> (bus: Bus)
        ensures
            bus.len() == 0,
    {
        Bus { consumers: Vec::new() }
    }

    /// Registers a consumer and gives its number. Its queue starts empty,
    /// and no other consumer changes.
    pub fn register(&mut self, name: &[u8]) -> (id: usize)
        ensures
            id == old(self).len(),
            final(self).len() == old(self).len() + 1,
            final(self).consumers@[id as int].name@ == name@,
            final(self).is_connected(id as int),
            final(self).pending(id as int).len() == 0,
            forall|i: int|
                0 <= i < old(self).len() ==> final(self).consumers@[i] == old(self).consumers@[i],
    {
        let id = self.consumers.len();
        self.consumers.push(Consumer { name: copy_bytes(name), connected: true, queue: Vec::new() });
        id
    }

    /// Marks consumer `id` as gone: later messages pass it over. A number
    /// that names no consumer changes nothing.
    pub fn disconnect(&mut self, id: usize)
        ensures
            final(self).len() == old(self).len(),
            forall|i: int|
                0 <= i < old(self).len() && i != id ==> final(self).consumers@[i] == old(self).consumers@[i],
            id < old(self).len() ==> !final(self).is_connected(id as int) && final(self).pending(
                id as int,
            ) == old(self).pending(id as int) && final(self).consumers@[id as int].name == old(self).consumers@[id as int].name,
    {
        if id < self.consumers.len() {
            self.consumers[id].connected = false;
        }
    }

    /// Delivers a copy of `message` to every connected consumer, in the
    /// order of registration, and says how many consumers had gone. A
    /// consumer that has gone keeps its queue as it was and hinders no other.
    pub fn publish(&mut self, message: &ChannelMessages) -> (failed: usize)
        ensures
            delivered(*old(self), *message, *final(self)),
            failed == old(self).gone_among(old(self).len()),
    {
        let mut failed: usize = 0;
        let mut i: usize = 0;
        while i < self.consumers.len()
            invariant
                i <= self.consumers@.len(),
                self.len() == old(self).len(),
                failed == old(self).gone_among(i as int),
                failed <= i,
                forall|j: int|
                    0 <= j < self.len() ==> (#[trigger] self.consumers@[j]).name == old(self).consumers@[j].name && self.consumers@[j].connected == old(self).consumers@[j].connected,
                forall|j: int|
                    0 <= j < i && old(self).is_connected(j) ==> {
                        &&& (#[trigger] self.pending(j)).len() == old(self).pending(j).len() + 1
                        &&& self.pending(j).drop_last() == old(self).pending(j)
                        &&& message.same(self.pending(j).last())
                    },
                forall|j: int|
                    0 <= j < i && !old(self).is_connected(j) ==> (#[trigger] self.pending(j)) == old(self).pending(j),
                forall|j: int|
                    i <= j < self.len() ==> (#[trigger] self.pending(j)) == old(self).pending(j),
            decreases self.consumers@.len() - i,
        {
            let ghost prev = *self;
            assert(prev.pending(i as int) == old(self).pending(i as int));
            assert(prev.consumers@[i as int].connected == old(self).consumers@[i as int].connected);
            if self.consumers[i].connected {
                let copy = message.duplicate();
                self.consumers[i].queue.push(copy);
                assert(self.pending(i as int) == prev.pending(i as int).push(copy));
                assert(self.pending(i as int).drop_last() =~= prev.pending(i as int));
                assert(forall|j: int|
                    0 <= j < prev.len() && j != i ==> #[trigger] self.consumers@[j]
                        == prev.consumers@[j]);
                assert(forall|j: int|
                    0 <= j < prev.len() && j != i ==> #[trigger] self.pending(j) == prev.pending(j));
            } else {
                failed += 1;
            }
            i += 1;
        }
        failed
    }

    /// Takes everything that consumer `id` has yet to read, oldest first. A
    /// number that names no consumer has nothing to read.
    pub fn drain(&mut self, id: usize) -> (out: Vec<ChannelMessages>)
        ensures
            final(self).len() == old(self).len(),
            forall|i: int|
                0 <= i < old(self).len() && i != id ==> final(self).consumers@[i] == old(self).consumers@[i],
            id < old(self).len() ==> out@ == old(self).pending(id as int) && final(self).pending(
                id as int,
            ).len() == 0 && final(self).is_connected(id as int) == old(self).is_connected(id as int)
                && final(self).consumers@[id as int].name == old(self).consumers@[id as int].name,
            id >= old(self).len() ==> out@.len() == 0,
    {
        let mut out: Vec<ChannelMessages> = Vec::new();
        if id < self.consumers.len() {
            std::mem::swap(&mut out, &mut self.consumers[id].queue);
        }
        out
    }
}

/// Publishes one message to every consumer of the bus and says how many
/// consumers could not be reached.
pub fn send_to_channels(channel_message: ChannelMessages, bus: &mut Bus) -> (failed: usize)
    ensures
        delivered(*old(bus), channel_message, *final(bus)),
        failed == old(bus).gone_among(old(bus).len()),
{
    bus.publish(&channel_message)
}

/// Being equal by value is an equivalence on chat events.
pub proof fn chat_event_same_laws(a: ChatEvent, b: ChatEvent, c: ChatEvent)
    ensures
        a.same(a),
        a.same(b) ==> b.same(a),
        a.same(b) && b.same(c) ==> a.same(c),
{
    message_same_laws(a.message, b.message, c.message);
}

/// Being equal by value is an equivalence on channel messages.
pub proof fn same_laws(a: ChannelMessages, b: ChannelMessages, c: ChannelMessages)
    ensures
        a.same(a),
        a.same(b) ==> b.same(a),
        a.same(b) && b.same(c) ==> a.same(c),
{
    match (a, b, c) {
        (
            ChannelMessages::ChatMessage { message: x },
            ChannelMessages::ChatMessage { message: y },
            ChannelMessages::ChatMessage { message: z },
        ) => {
            chat_event_same_laws(x, y, z);
        },
        (ChannelMessages::ChatMessage { message: x }, ChannelMessages::ChatMessage { message: y }, _) => {
            chat_event_same_laws(x, y, y);
        },
        (ChannelMessages::ChatMessage { message: x }, _, _) => {
            chat_event_same_laws(x, x, x);
        },
        _ => {},
    }
}

/// One published message reaches every connected consumer: each of two
/// connected consumers finds, as the newest message it has yet to read, a
/// copy equal by value to the published message, and so the two copies
/// are equal to one another; what each had before is untouched.
pub proof fn consumers_see_equal_copies(
    before: Bus,
    message: ChannelMessages,
    after: Bus,
    first: int,
    second: int,
)
    requires
        delivered(before, message, after),
        0 <= first < before.len(),
        0 <= second < before.len(),
        before.is_connected(first),
        before.is_connected(second),
    ensures
        message.same(after.pending(first).last()),
        message.same(after.pending(second).last()),
        after.pending(first).last().same(after.pending(second).last()),
        after.pending(first).drop_last() == before.pending(first),
        after.pending(second).drop_last() == before.pending(second),
{
    let x = after.pending(first).last();
    let y = after.pending(second).last();
    same_laws(message, x, y);
    same_laws(x, message, y);
}

// What follows is the data of the platform's topic feed: points, subscriptions
// and bits as that feed reports them.

/// A bits badge tier that a chatter reached.
#[derive(Clone, Debug)]
pub struct BitsBadgeTier {
    pub tier: u8,
}

/// A donation to a charity campaign.
#[derive(Clone, Debug)]
pub struct CharityDonation {
    pub charity_name: Vec<u8>,
    pub amount: Amount,
}

/// An amount of money in the smallest unit of its currency.
#[derive(Clone, Debug)]
pub struct Amount {
    pub value: u32,
    pub decimal_place: u8,
    pub currency: Vec<u8>,
}

/// Subscriptions given to the community.
#[derive(Clone, Debug)]
pub struct CommunitySubGift {
    pub id: Vec<u8>,
    pub total: u16,
    pub sub_tier: Vec<u8>,
    pub cumulative_total: Option<u16>,
}

/// An upgrade from a gifted subscription to a paid one.
#[derive(Clone, Debug)]
pub struct GiftPaidUpgrade {
    pub gifter_is_anonymous: bool,
    pub gifter_user_id: Option<Vec<u8>>,
    pub gifter_user_name: Option<Vec<u8>>,
    pub gifter_user_login: Option<Vec<u8>>,
}

/// The text of an event message and its fragments.
#[derive(Clone, Debug)]
pub struct SubscriptionEventMessage {
    pub text: Vec<u8>,
    pub fragments: Vec<Fragment>,
}

/// One fragment of a chat message.
#[derive(Clone, Debug)]
pub struct Fragment {
    pub kind: Vec<u8>,
    pub text: Vec<u8>,
    pub cheermote: Option<Cheermote>,
    pub emote: Option<FragmentEmote>,
    pub mention: Option<Mention>,
}

/// The cheermote that a fragment shows.
#[derive(Clone, Debug)]
pub struct Cheermote {
    pub prefix: Vec<u8>,
    pub bits: u64,
    pub tier: u8,
}

/// The emote that a fragment shows.
#[derive(Clone, Debug)]
pub struct FragmentEmote {
    pub id: Vec<u8>,
    pub emote_set_id: Vec<u8>,
    pub owner_id: Vec<u8>,
    pub format: Vec<Vec<u8>>,
}

/// A chatter whom a fragment mentions.
#[derive(Clone, Debug)]
pub struct Mention {
    pub user_id: Vec<u8>,
    pub user_name: Vec<u8>,
    pub user_login: Vec<u8>,
}

/// An upgrade from a prime subscription to a paid one.
#[derive(Clone, Debug)]
pub struct PrimePaidUpgrade {
    pub sub_tier: Vec<u8>,
}

/// A raid on the channel.
#[derive(Clone, Debug)]
pub struct Raid {
    pub user_id: Vec<u8>,
    pub user_name: Vec<u8>,
    pub user_login: Vec<u8>,
    pub viewer_count: u64,
    pub profile_image_url: Vec<u8>,
}

/// A renewed subscription.
#[derive(Clone, Debug)]
pub struct Resub {
    pub cumulative_months: u16,
    pub duration_months: u16,
    pub streak_months: u16,
    pub sub_tier: Vec<u8>,
    pub is_prime: Option<bool>,
    pub is_gift: bool,
    pub gifter_is_anonymous: Option<bool>,
    pub gifter_user_id: Option<Vec<u8>>,
    pub gifter_user_name: Option<Vec<u8>>,
    pub gifter_user_login: Option<Vec<u8>>,
}

/// A new subscription.
#[derive(Clone, Debug)]
pub struct Sub {
    pub sub_tier: Vec<u8>,
    pub is_prime: bool,
    pub duration_months: u16,
}

/// A subscription given to one chatter.
#[derive(Clone, Debug)]
pub struct SubGift {
    pub duration_months: u16,
    pub cumulative_total: Option<u16>,
    pub recipient_user_id: Vec<u8>,
    pub recipient_user_name: Vec<u8>,
    pub recipient_user_login: Vec<u8>,
    pub sub_tier: Vec<u8>,
    pub community_gift_id: Option<Vec<u8>>,
}

/// An event of a subscription, every field that any kind may carry.
#[derive(Clone, Debug)]
pub struct SubscriptionEvent {
    pub announcement: Option<Announcement>,
    pub badges: Option<Vec<BadgeInfo>>,
    pub bits_badge_tier: Option<BitsBadgeTier>,
    pub broadcaster_user_id: Vec<u8>,
    pub broadcaster_user_login: Vec<u8>,
    pub broadcaster_user_name: Vec<u8>,
    pub charity_donation: Option<CharityDonation>,
    pub chatter_user_id: Option<Vec<u8>>,
    pub chatter_user_login: Option<Vec<u8>>,
    pub chatter_user_name: Option<Vec<u8>>,
    pub chatter_is_anonymouse: Option<bool>,
    pub color: Option<Vec<u8>>,
    pub community_sub_gift: Option<CommunitySubGift>,
    pub duration_seconds: Option<u64>,
    pub gift_paid_upgrade: Option<GiftPaidUpgrade>,
    pub is_automatic: bool,
    pub message: Option<SubscriptionEventMessage>,
    pub message_id: Option<Vec<u8>>,
    pub notice_type: Option<Vec<u8>>,
    pub pay_it_forward: Option<GiftPaidUpgrade>,
    pub prime_paid_upgrade: Option<PrimePaidUpgrade>,
    pub raid: Option<Raid>,
    pub requester_user_id: Option<Vec<u8>>,
    pub requester_user_login: Option<Vec<u8>>,
    pub requester_user_name: Option<Vec<u8>>,
    pub resub: Option<Resub>,
    pub started_at: Vec<u8>,
    pub sub: Option<Sub>,
    pub sub_gift: Option<SubGift>,
    pub system_message: Option<Vec<u8>>,
    pub target_user_id: Option<Vec<u8>>,
    pub target_user_login: Option<Vec<u8>>,
    pub target_user_name: Option<Vec<u8>>,
    pub unraid: Option<Unraid>,
}

/// The end of a raid; it carries nothing.
#[derive(Clone, Debug)]
pub struct Unraid {
}

/// A chat badge.
#[derive(Clone, Debug)]
pub struct BadgeInfo {
    pub set_id: Vec<u8>,
    pub id: Vec<u8>,
    pub info: Vec<u8>,
}

/// A timed announcement: its text, its period in seconds, and the second its period began.
#[derive(Clone, Debug)]
pub struct Announcement {
    pub name: Vec<u8>,
    pub timing: u64,
    pub message: Vec<u8>,
    pub start: u64,
    pub area: Option<Rect>,
}

/// A message of the topic feed.
#[derive(Clone, Debug)]
pub struct MessageData {
    pub data: SubMessage,
}

/// A subscription reported by the topic feed.
#[derive(Clone, Debug)]
pub struct SubscribeEvent {
    pub area: Option<Rect>,
    pub topic: Vec<u8>,
    pub message: SubscribeMessage,
}

/// Bits reported by the topic feed.
#[derive(Clone, Debug)]
pub struct BitsEvent {
    pub area: Option<Rect>,
    pub is_anonymous: bool,
    pub message_type: Vec<u8>,
    pub data: BitsEventData,
}

/// Who used how many bits, and the message that came with them.
#[derive(Clone, Debug)]
pub struct BitsEventData {
    pub user_name: Vec<u8>,
    pub chat_message: Vec<u8>,
    pub bits_used: u64,
    pub total_bits_used: u64,
    pub context: Vec<u8>,
}

/// Who subscribed, for how long, and the message that came with it.
#[derive(Clone, Debug)]
pub struct SubscribeMessage {
    pub display_name: Vec<u8>,
    pub cumulative_months: u64,
    pub streak_months: u64,
    pub context: Vec<u8>,
    pub sub_message: Vec<u8>,
}

/// A rectangle of the screen.
#[derive(Clone, Debug)]
pub struct Rect {
    pub x: u16,
    pub y: u16,
    pub width: u16,
    pub height: u16,
}

/// A redemption reported by the topic feed.
#[derive(Clone, Debug)]
pub struct ChannelPointsData {
    pub timestamp: Vec<u8>,
    pub redemption: Redemption,
}

/// A redeemed reward.
#[derive(Clone, Debug)]
pub struct Redemption {
    pub id: Vec<u8>,
    pub user: UserReference,
    pub user_input: Option<Vec<u8>>,
    pub status: Vec<u8>,
    pub reward: Reward,
}

/// A channel points reward.
#[derive(Clone, Debug)]
pub struct Reward {
    pub id: Vec<u8>,
    pub title: Vec<u8>,
    pub prompt: Vec<u8>,
    pub cost: u64,
}

/// A user as an event refers to them.
#[derive(Clone, Debug)]
pub struct UserReference {
    pub id: Vec<u8>,
    pub login: Vec<u8>,
    pub display_name: Vec<u8>,
    pub profile_url: Option<Vec<u8>>,
}


/// What the topic feed reports: points, a subscription, or bits.
#[derive(Clone, Debug)]
pub enum SubMessage {
    Points(ChannelPointsData),
    Sub(SubscribeEvent),
    Bits(BitsEvent),
}

} // verus!
