//! The data of the event-subscription protocol: frames, sessions,
//! subscriptions and notification events, and the wire names of the small
//! enumerations among them.

use vstd::prelude::*;
use vstd::string::*;
use vstd::utf8::encode_utf8_decode_utf8;
use crate::text::{is_text, views, copy_bytes, copy_texts};
use crate::subscription_type::SubscriptionType;
use crate::notice_type::NoticeType;

verus! {

/// How a subscription delivers its events.
#[derive(Clone, Copy, Debug, PartialEq, Eq, Structural)]
pub enum MethodType {
    WebSocket,
    WebHook,
    Unknown,
}

impl MethodType {
    /// The wire name of a method, as bytes.
    pub open spec fn wire(self) -> Seq<u8> {
        match self {
            MethodType::WebSocket => "websocket".spec_bytes(),
            MethodType::WebHook => "webhook".spec_bytes(),
            MethodType::Unknown => "unknown".spec_bytes(),
        }
    }

    /// What a wire name decodes to; `Unknown` for every name but the two
    /// that are known.
    pub open spec fn decoded(name: Seq<u8>) -> MethodType {
        if name == "websocket".spec_bytes() {
            MethodType::WebSocket
        } else if name == "webhook".spec_bytes() {
            MethodType::WebHook
        } else {
            MethodType::Unknown
        }
    }

    /// The wire name of a method.
    pub fn to_wire(&self) -> (name: &'static str)
        ensures
            name.spec_bytes() == self.wire(),
    {
        match self {
            MethodType::WebSocket => "websocket",
            MethodType::WebHook => "webhook",
            MethodType::Unknown => "unknown",
        }
    }

    /// Decodes a wire name. Decoding never fails.
    pub fn from_wire(name: &[u8]) -> (method: MethodType)
        ensures
            method == MethodType::decoded(name@),
    {
        if is_text(name, "websocket") {
            MethodType::WebSocket
        } else if is_text(name, "webhook") {
            MethodType::WebHook
        } else {
            MethodType::Unknown
        }
    }
}

/// Encoding then decoding a method gives the method back.
pub proof fn method_round_trip(method: MethodType)
    ensures
        MethodType::decoded(method.wire()) == method,
{
    reveal_strlit("websocket");
    reveal_strlit("webhook");
    reveal_strlit("unknown");
    encode_utf8_decode_utf8("websocket"@);
    encode_utf8_decode_utf8("webhook"@);
    encode_utf8_decode_utf8("unknown"@);
    assert("websocket"@.len() == 9 && "webhook"@.len() == 7 && "unknown"@.len() == 7);
    assert("webhook"@[0] == 'w' && "unknown"@[0] == 'u');
}

/// The kind that a frame's metadata announces.
#[derive(Clone, Copy, Debug, PartialEq, Eq, Structural)]
pub enum MessageTypes {
    SessionWelcome,
    SessionKeepalive,
    Notification,
    SessionReconnect,
    Revocation,
    Unknown,
}

impl MessageTypes {
    /// What a wire name decodes to; `Unknown` for every name but the five
    /// that are known.
    pub open spec fn decoded(name: Seq<u8>) -> MessageTypes {
        if name == "session_welcome".spec_bytes() {
            MessageTypes::SessionWelcome
        } else if name == "session_keepalive".spec_bytes() {
            MessageTypes::SessionKeepalive
        } else if name == "notification".spec_bytes() {
            MessageTypes::Notification
        } else if name == "session_reconnect".spec_bytes() {
            MessageTypes::SessionReconnect
        } else if name == "revocation".spec_bytes() {
            MessageTypes::Revocation
        } else {
            MessageTypes::Unknown
        }
    }

    /// Decodes a wire name. Decoding never fails.
    pub fn from_wire(name: &[u8]) -> (kind: MessageTypes)
        ensures
            kind == MessageTypes::decoded(name@),
    {
        if is_text(name, "session_welcome") {
            MessageTypes::SessionWelcome
        } else if is_text(name, "session_keepalive") {
            MessageTypes::SessionKeepalive
        } else if is_text(name, "notification") {
            MessageTypes::Notification
        } else if is_text(name, "session_reconnect") {
            MessageTypes::SessionReconnect
        } else if is_text(name, "revocation") {
            MessageTypes::Revocation
        } else {
            MessageTypes::Unknown
        }
    }
}

/// What a fragment of a chat message is.
#[derive(Clone, Copy, Debug, PartialEq, Eq, Structural)]
pub enum FragmentType {
    Text,
    Cheermote,
    Emote,
    Mention,
    Unknown,
}

impl FragmentType {
    /// What a wire name decodes to; `Unknown` for every name but the four
    /// that are known.
    pub open spec fn decoded(name: Seq<u8>) -> FragmentType {
        if name == "text".spec_bytes() {
            FragmentType::Text
        } else if name == "cheermote".spec_bytes() {
            FragmentType::Cheermote
        } else if name == "emote".spec_bytes() {
            FragmentType::Emote
        } else if name == "mention".spec_bytes() {
            FragmentType::Mention
        } else {
            FragmentType::Unknown
        }
    }

    /// Decodes a wire name. Decoding never fails.
    pub fn from_wire(name: &[u8]) -> (kind: FragmentType)
        ensures
            kind == FragmentType::decoded(name@),
    {
        if is_text(name, "text") {
            FragmentType::Text
        } else if is_text(name, "cheermote") {
            FragmentType::Cheermote
        } else if is_text(name, "emote") {
            FragmentType::Emote
        } else if is_text(name, "mention") {
            FragmentType::Mention
        } else {
            FragmentType::Unknown
        }
    }
}

/// A decoded frame of the event-subscription protocol.
#[derive(Clone, Debug)]
pub enum Messages {
    Welcome { metadata: WelcomeMetadata, payload: WelcomePayload },
    KeepAlive { metadata: KeepAliveMetadata, payload: KeepAlivePayload },
    Notification { metadata: NotificationMetadata, payload: NotificationPayload },
    Reconnect { metadata: ReconnectMetadata, payload: ReconnectPayload },
    Revocation { metadata: RevocationMetadata, payload: RevocationPayload },
}

/// The event of a notification. Which fields an event has depends on its
/// kind; a part that the platform may leave out is an `Option`.
#[derive(Clone, Debug)]
pub enum NotificationEvent {
    ChannelAdBreak {
        duration_seconds: usize,
        started_at: Vec<u8>,
        is_automatic: bool,
        broadcaster_user_id: Vec<u8>,
        broadcaster_user_login: Vec<u8>,
        broadcaster_user_name: Vec<u8>,
        requester_user_id: Vec<u8>,
        requester_user_login: Vec<u8>,
        requester_user_name: Vec<u8>,
    },
    ChannelChatMessage {
        broadcaster_user_id: Vec<u8>,
        broadcaster_user_login: Vec<u8>,
        broadcaster_user_name: Vec<u8>,
        chatter_user_id: Vec<u8>,
        chatter_user_login: Vec<u8>,
        chatter_user_name: Vec<u8>,
        message_id: Vec<u8>,
        message: Message,
        color: Vec<u8>,
        badges: Vec<Badge>,
    },
    ChannelNotification {
        broadcaster_user_id: Vec<u8>,
        broadcaster_user_login: Vec<u8>,
        broadcaster_user_name: Vec<u8>,
        chatter_user_id: Vec<u8>,
        chatter_user_login: Vec<u8>,
        chatter_user_name: Vec<u8>,
        chatter_is_anonymous: bool,
        color: Vec<u8>,
        badges: Vec<Badge>,
        system_message: Vec<u8>,
        message_id: Vec<u8>,
        message: Message,
        notice_type: NoticeType,
        sub: Option<Sub>,
        resub: Option<Resub>,
        sub_gift: Option<SubGift>,
        community_sub_gift: Option<CommunitySubGift>,
        gift_paid_upgrade: Option<GiftPaidUpgrade>,
        prime_paid_upgrade: Option<PrimePaidUpgrade>,
        pay_it_forward: Option<PayItForward>,
        raid: Option<Raid>,
        unraid: Option<Unraid>,
        announcement: Option<Announcement>,
        bits_badge_tier: Option<BitsBadgeTier>,
        charity_donation: Option<CharityDonation>,
        source_broadcaster_user_id: Option<Vec<u8>>,
        source_broadcaster_user_name: Option<Vec<u8>>,
        source_broadcaster_user_login: Option<Vec<u8>>,
        source_message_id: Option<Vec<u8>>,
        source_badges: Option<Vec<Emote>>,
        shared_chat_sub: Option<Sub>,
        shared_chat_resub: Option<Resub>,
        shared_chat_sub_gift: Option<SubGift>,
        shared_chat_community_sub_gift: Option<CommunitySubGift>,
        shared_chat_gift_paid_upgrade: Option<GiftPaidUpgrade>,
        shared_chat_prime_paid_upgrade: Option<PrimePaidUpgrade>,
        shared_chat_pay_it_forward: Option<PayItForward>,
        shared_chat_raid: Option<Raid>,
        shared_chat_announcement: Option<Announcement>,
    },
    ChannelPointsCustomRewardRedemptionAdd {
        id: Vec<u8>,
        broadcaster_user_id: Vec<u8>,
        broadcaster_user_login: Vec<u8>,
        broadcaster_user_name: Vec<u8>,
        user_id: Vec<u8>,
        user_login: Vec<u8>,
        user_name: Vec<u8>,
        user_input: Vec<u8>,
        status: Vec<u8>,
        reward: Reward,
        redeemed_at: Vec<u8>,
    },
    ChannelChatClearUserMessages {
        broadcaster_user_id: Vec<u8>,
        broadcaster_user_name: Vec<u8>,
        broadcaster_user_login: Vec<u8>,
        target_user_id: Vec<u8>,
        target_user_name: Vec<u8>,
        target_user_login: Vec<u8>,
    },
    AutomodMessageHold {},
}

/// The metadata of a revocation frame.
#[derive(Clone, Debug)]
pub struct RevocationMetadata {
    pub message_id: Vec<u8>,
    pub message_type: MessageTypes,
    pub message_timestamp: Vec<u8>,
    pub subscription_type: SubscriptionType,
    pub subscription_version: Vec<u8>,
}

/// The subscription that a revocation frame takes away.
#[derive(Clone, Debug)]
pub struct RevocationPayload {
    pub id: Vec<u8>,
    pub status: Vec<u8>,
    pub kind: SubscriptionType,
    pub version: Vec<u8>,
    pub cost: usize,
    pub condition: Condition,
    pub transport: Transport,
    pub created_at: Vec<u8>,
}

/// The metadata of a reconnect frame.
#[derive(Clone, Debug)]
pub struct ReconnectMetadata {
    pub message_id: Vec<u8>,
    pub message_type: MessageTypes,
    pub message_timestamp: Vec<u8>,
}

/// The payload of a reconnect frame.
#[derive(Clone, Debug)]
pub struct ReconnectPayload {
    pub session: ReconnectPayloadSession,
}

/// The session that a reconnect frame carries, with the address to reconnect to.
#[derive(Clone, Debug)]
pub struct ReconnectPayloadSession {
    pub id: Vec<u8>,
    pub status: Vec<u8>,
    pub keepalive_timeout_seconds: usize,
    pub reconnect_url: Option<Vec<u8>>,
    pub recovery_url: Option<Vec<u8>>,
    pub connected_at: Vec<u8>,
}

/// The metadata of a notification frame.
#[derive(Clone, Debug)]
pub struct NotificationMetadata {
    pub message_id: Vec<u8>,
    pub message_type: MessageTypes,
    pub message_timestamp: Vec<u8>,
    pub subscription_type: SubscriptionType,
    pub subscription_version: Vec<u8>,
}

/// A notification: the subscription it answers, and its event.
#[derive(Clone, Debug)]
pub struct NotificationPayload {
    pub subscription: NotificationPayloadSubscription,
    pub event: NotificationEvent,
}

/// A donation to a charity campaign.
#[derive(Clone, Debug)]
pub struct CharityDonation {
    pub charity_name: Vec<u8>,
    pub amount: Amount,
}

/// An amount of money in the smallest unit of its currency.
#[derive(Clone, Debug)]
pub struct Amount {
    pub value: u32,
    pub decimal_place: u8,
    pub currency: Vec<u8>,
}

/// A bits badge tier that a chatter reached.
#[derive(Clone, Debug)]
pub struct BitsBadgeTier {
    pub tier: u8,
}

/// An announcement in chat.
#[derive(Clone, Debug)]
pub struct Announcement {
    pub color: Vec<u8>,
}

/// The end of a raid; it carries nothing.
#[derive(Clone, Debug)]
pub struct Unraid {
}

/// A raid on the channel.
#[derive(Clone, Debug)]
pub struct Raid {
    pub user_id: Vec<u8>,
    pub user_name: Vec<u8>,
    pub user_login: Vec<u8>,
    pub viewer_count: u64,
    pub profile_image_url: Vec<u8>,
}

/// A gift that a gifted chatter passes on.
#[derive(Clone, Debug)]
pub struct PayItForward {
    pub gifter_is_anonymous: bool,
    pub gifter_user_id: Option<Vec<u8>>,
    pub gifter_user_name: Option<Vec<u8>>,
    pub gifter_user_login: Option<Vec<u8>>,
}

/// An upgrade from a prime subscription to a paid one.
#[derive(Clone, Debug)]
pub struct PrimePaidUpgrade {
    pub sub_tier: Vec<u8>,
}

/// An upgrade from a gifted subscription to a paid one.
#[derive(Clone, Debug)]
pub struct GiftPaidUpgrade {
    pub gifter_is_anonymous: bool,
    pub gifter_user_id: Option<Vec<u8>>,
    pub gifter_user_name: Option<Vec<u8>>,
    pub gifter_user_login: Option<Vec<u8>>,
}

/// Subscriptions given to the community.
#[derive(Clone, Debug)]
pub struct CommunitySubGift {
    pub id: Vec<u8>,
    pub total: u16,
    pub sub_tier: Vec<u8>,
    pub cumulative_total: Option<u16>,
}

/// A subscription given to one chatter.
#[derive(Clone, Debug)]
pub struct SubGift {
    pub duration_months: u8,
    pub cumulative_total: u8,
    pub recipient_user_id: Vec<u8>,
    pub recipient_user_name: Vec<u8>,
    pub recipient_user_login: Vec<u8>,
    pub sub_tier: Vec<u8>,
    pub community_gift_id: Option<Vec<u8>>,
}

/// A renewed subscription.
#[derive(Clone, Debug)]
pub struct Resub {
    pub cumulative_months: u8,
    pub duration_months: u8,
    pub streak_months: u8,
    pub sub_tier: Vec<u8>,
    pub is_prime: Option<bool>,
    pub is_gift: bool,
    pub gifter_is_anonymous: Option<bool>,
    pub gifter_user_id: Option<Vec<u8>>,
    pub gifter_user_name: Option<Vec<u8>>,
    pub gifter_user_login: Option<Vec<u8>>,
}

/// A new subscription.
#[derive(Clone, Debug)]
pub struct Sub {
    pub sub_tier: Vec<u8>,
    pub is_prime: bool,
    pub duration_months: u16,
}

/// The text of a chat message and its fragments.
#[derive(Clone, Debug)]
pub struct Message {
    pub text: Vec<u8>,
    pub fragments: Vec<Fragment>,
}

/// One fragment of a chat message.
#[derive(Clone, Debug)]
pub struct Fragment {
    pub kind: FragmentType,
    pub text: Vec<u8>,
    pub cheermote: Option<Cheermote>,
    pub emote: Option<Emote>,
    pub mention: Option<Mention>,
}

/// A chatter whom a fragment mentions.
#[derive(Clone, Debug)]
pub struct Mention {
    pub user_id: Vec<u8>,
    pub user_name: Vec<u8>,
    pub user_login: Vec<u8>,
}

/// The emote that a fragment shows.
#[derive(Clone, Debug)]
pub struct Emote {
    pub id: Vec<u8>,
    pub emote_set_id: Vec<u8>,
    pub owner_id: Vec<u8>,
    pub format: Vec<Vec<u8>>,
}

/// The cheermote that a fragment shows.
#[derive(Clone, Debug)]
pub struct Cheermote {
    pub prefix: Vec<u8>,
    pub bits: u16,
    pub tier: u8,
}

/// A chat badge.
#[derive(Clone, Debug)]
pub struct Badge {
    pub set_id: Vec<u8>,
    pub id: Vec<u8>,
    pub info: Vec<u8>,
}

/// A channel points reward.
#[derive(Clone, Debug)]
pub struct Reward {
    pub id: Vec<u8>,
    pub title: Vec<u8>,
    pub cost: usize,
    pub prompt: Vec<u8>,
}

/// A subscription to create: one event kind, its condition and its transport.
#[derive(Clone, Debug)]
pub struct Subscription {
    pub kind: SubscriptionType,
    pub condition: Condition,
    pub version: Vec<u8>,
    pub transport: Transport,
    pub status: Option<Vec<u8>>,
    pub created_at: Option<Vec<u8>>,
}

/// The subscription that a notification answers.
#[derive(Clone, Debug)]
pub struct NotificationPayloadSubscription {
    pub id: Vec<u8>,
    pub status: Vec<u8>,
    pub kind: SubscriptionType,
    pub version: Vec<u8>,
    pub cost: usize,
    pub condition: Condition,
    pub transport: Transport,
    pub created_at: Vec<u8>,
}

/// The condition of a subscription.
#[derive(Clone, Debug)]
pub struct Condition {
    pub to_broadcaster_user_id: Option<Vec<u8>>,
    pub broadcaster_user_id: Option<Vec<u8>>,
    pub moderator_user_id: Option<Vec<u8>>,
    pub user_id: Option<Vec<u8>>,
    pub reward_id: Option<Vec<u8>>,
    pub client_id: Option<Vec<u8>>,
    pub organization_id: Option<Vec<u8>>,
    pub category_id: Option<Vec<u8>>,
    pub campaign_id: Option<Vec<u8>>,
    pub extension_client_id: Option<Vec<u8>>,
}

/// How a subscription delivers: the method and the session it is tied to.
#[derive(Clone, Debug)]
pub struct Transport {
    pub method: MethodType,
    pub session_id: Vec<u8>,
}

/// The metadata of a keepalive frame.
#[derive(Clone, Debug)]
pub struct KeepAliveMetadata {
    pub message_id: Vec<u8>,
    pub message_type: MessageTypes,
    pub message_timestamp: Vec<u8>,
}

/// The payload of a keepalive frame; it carries nothing.
#[derive(Clone, Debug)]
pub struct KeepAlivePayload {
}

/// The metadata of a welcome frame.
#[derive(Clone, Debug)]
pub struct WelcomeMetadata {
    pub message_id: Vec<u8>,
    pub message_type: MessageTypes,
    pub message_timestamp: Vec<u8>,
}

/// The payload of a welcome frame.
#[derive(Clone, Debug)]
pub struct WelcomePayload {
    pub session: WelcomePayloadSession,
}

/// The session that a welcome frame opens.
#[derive(Clone, Debug)]
pub struct WelcomePayloadSession {
    pub id: Vec<u8>,
    pub status: Vec<u8>,
    pub keepalive_timeout_seconds: usize,
    pub connected_at: Vec<u8>,
    pub reconnect_url: Option<Vec<u8>>,
    pub recovery_url: Option<Vec<u8>>,
}


impl Mention {
    /// Whether two mentions hold the same values.
    pub open spec fn same(self, other: Mention) -> bool {
        &&& self.user_id@ == other.user_id@
        &&& self.user_name@ == other.user_name@
        &&& self.user_login@ == other.user_login@
    }

    /// A copy that holds the same values.
    pub fn duplicate(&self) -> (out: Mention)
        ensures
            self.same(out),
    {
        Mention {
            user_id: copy_bytes(self.user_id.as_slice()),
            user_name: copy_bytes(self.user_name.as_slice()),
            user_login: copy_bytes(self.user_login.as_slice()),
        }
    }
}

impl Cheermote {
    /// Whether two cheermotes hold the same values.
    pub open spec fn same(self, other: Cheermote) -> bool {
        &&& self.prefix@ == other.prefix@
        &&& self.bits == other.bits
        &&& self.tier == other.tier
    }

    /// A copy that holds the same values.
    pub fn duplicate(&self) -> (out: Cheermote)
        ensures
            self.same(out),
    {
        Cheermote { prefix: copy_bytes(self.prefix.as_slice()), bits: self.bits, tier: self.tier }
    }
}

impl Emote {
    /// Whether two emotes hold the same values.
    pub open spec fn same(self, other: Emote) -> bool {
        &&& self.id@ == other.id@
        &&& self.emote_set_id@ == other.emote_set_id@
        &&& self.owner_id@ == other.owner_id@
        &&& views(self.format@) == views(other.format@)
    }

    /// A copy that holds the same values.
    pub fn duplicate(&self) -> (out: Emote)
        ensures
            self.same(out),
    {
        Emote {
            id: copy_bytes(self.id.as_slice()),
            emote_set_id: copy_bytes(self.emote_set_id.as_slice()),
            owner_id: copy_bytes(self.owner_id.as_slice()),
            format: copy_texts(&self.format),
        }
    }
}

impl Fragment {
    /// Whether two fragments hold the same values.
    pub open spec fn same(self, other: Fragment) -> bool {
        &&& self.kind == other.kind
        &&& self.text@ == other.text@
        &&& match (self.cheermote, other.cheermote) {
            (Some(a), Some(b)) => a.same(b),
            (None, None) => true,
            _ => false,
        }
        &&& match (self.emote, other.emote) {
            (Some(a), Some(b)) => a.same(b),
            (None, None) => true,
            _ => false,
        }
        &&& match (self.mention, other.mention) {
            (Some(a), Some(b)) => a.same(b),
            (None, None) => true,
            _ => false,
        }
    }

    /// A copy that holds the same values.
    pub fn duplicate(&self) -> (out: Fragment)
        ensures
            self.same(out),
    {
        Fragment {
            kind: self.kind,
            text: copy_bytes(self.text.as_slice()),
            cheermote: match &self.cheermote {
                Some(c) => Some(c.duplicate()),
                None => None,
            },
            emote: match &self.emote {
                Some(e) => Some(e.duplicate()),
                None => None,
            },
            mention: match &self.mention {
                Some(m) => Some(m.duplicate()),
                None => None,
            },
        }
    }
}

impl Message {
    /// Whether two messages hold the same text and the same fragments.
    pub open spec fn same(self, other: Message) -> bool {
        &&& self.text@ == other.text@
        &&& self.fragments@.len() == other.fragments@.len()
        &&& forall|i: int|
            0 <= i < self.fragments@.len() ==> (#[trigger] self.fragments@[i]).same(
                other.fragments@[i],
            )
    }

    /// A copy that holds the same values.
    pub fn duplicate(&self) -> (out: Message)
        ensures
            self.same(out),
    {
        let mut fragments: Vec<Fragment> = Vec::new();
        let mut i: usize = 0;
        while i < self.fragments.len()
            invariant
                i <= self.fragments.len(),
                fragments@.len() == i,
                forall|j: int|
                    0 <= j < i ==> (#[trigger] self.fragments@[j]).same(fragments@[j]),
            decreases self.fragments.len() - i,
        {
            fragments.push(self.fragments[i].duplicate());
            i += 1;
        }
        Message { text: copy_bytes(self.text.as_slice()), fragments }
    }
}


/// Holding the same values is an equivalence on fragments.
pub proof fn fragment_same_laws(a: Fragment, b: Fragment, c: Fragment)
    ensures
        a.same(a),
        a.same(b) ==> b.same(a),
        a.same(b) && b.same(c) ==> a.same(c),
{
}

/// Holding the same values is an equivalence on messages.
pub proof fn message_same_laws(a: Message, b: Message, c: Message)
    ensures
        a.same(a),
        a.same(b) ==> b.same(a),
        a.same(b) && b.same(c) ==> a.same(c),
{
    assert forall|i: int| 0 <= i < a.fragments@.len() implies (#[trigger] a.fragments@[i]).same(
        a.fragments@[i],
    ) by {
        fragment_same_laws(a.fragments@[i], a.fragments@[i], a.fragments@[i]);
    }
    if a.same(b) {
        assert forall|i: int| 0 <= i < b.fragments@.len() implies (#[trigger] b.fragments@[i]).same(
            a.fragments@[i],
        ) by {
            assert(a.fragments@[i].same(b.fragments@[i]));
            fragment_same_laws(a.fragments@[i], b.fragments@[i], b.fragments@[i]);
        }
        if b.same(c) {
            assert forall|i: int| 0 <= i < a.fragments@.len() implies (
            #[trigger] a.fragments@[i]).same(c.fragments@[i]) by {
                assert(b.fragments@[i].same(c.fragments@[i]));
                fragment_same_laws(a.fragments@[i], b.fragments@[i], c.fragments@[i]);
            }
        }
    }
}

} // verus!
