//! The event-subscription client as a state machine: what came from the
//! socket goes in, and what is to be done comes out. The caller owns the
//! socket and the requests; the machine owns the session and the decisions.

use vstd::prelude::*;
use vstd::string::*;
use crate::text::{text, copy_bytes};
use crate::api::User;
use crate::channel::ChannelMessages;
use crate::deserialization::{Condition, Messages, MessageTypes, MethodType, NotificationPayload, ReconnectMetadata, ReconnectPayload, ReconnectPayloadSession, Subscription, Transport, WelcomeMetadata, WelcomePayload, WelcomePayloadSession};
use crate::notifications::{handle_notification, published, redemption_of, shape_fits, RewardRedemption, Routed};
use crate::subscription_type::SubscriptionType;

verus! {

/// The address of the event-subscription socket, with the keepalive period
/// that the client asks for.
pub open spec fn event_sub_url() -> Seq<u8> {
    "wss://eventsub.wss.twitch.tv:443/ws?keepalive_timeout_seconds=30".spec_bytes()
}

/// The address that takes subscription requests.
pub open spec fn subscriptions_url() -> Seq<u8> {
    "https://api.twitch.tv/helix/eventsub/subscriptions".spec_bytes()
}

/// The client's state: the session that the last welcome opened, if it
/// still stands.
#[derive(Clone, Debug)]
pub struct Client {
    pub session: Option<WelcomePayloadSession>,
}

/// What the socket brought.
#[derive(Clone, Debug)]
pub enum Event {
    /// A text frame that decoded to a message.
    Frame { message: Messages },
    /// A text frame that did not decode.
    Undecodable,
    /// A ping with its payload.
    Ping { payload: Vec<u8> },
    /// The socket was closed.
    Closed,
    /// Nothing came for `seconds` seconds.
    Silence { seconds: usize },
    /// Any other frame.
    Other,
}

/// What the caller is to do.
#[derive(Clone, Debug)]
pub enum Action {
    /// Create one subscription of this kind, tied to this session.
    Subscribe { subscription_type: SubscriptionType, session_id: Vec<u8> },
    /// Publish one message on the bus.
    Publish { message: ChannelMessages },
    /// Settle one redemption.
    Settle { redemption: RewardRedemption },
    /// Drop the connection and open one to this address.
    Connect { url: Vec<u8> },
    /// Answer a ping with this payload.
    Pong { payload: Vec<u8> },
    /// Note that the platform took a subscription away.
    ReportRevocation { subscription_type: SubscriptionType, status: Vec<u8> },
    /// Note that a frame did not decode.
    ReportUndecodable,
}

/// What a decoded frame is to the client. A frame counts only where the
/// kind that its metadata announces agrees with the shape it was decoded
/// to. A welcome and a reconnect have the same shape: there the announced
/// kind decides. Any other disagreement makes the frame undecodable.
pub open spec fn event_of(message: Messages) -> Event {
    match message {
        Messages::Welcome { metadata, payload } => match metadata.message_type {
            MessageTypes::SessionWelcome => Event::Frame { message },
            MessageTypes::SessionReconnect => Event::Frame {
                message: Messages::Reconnect {
                    metadata: ReconnectMetadata {
                        message_id: metadata.message_id,
                        message_type: metadata.message_type,
                        message_timestamp: metadata.message_timestamp,
                    },
                    payload: ReconnectPayload {
                        session: ReconnectPayloadSession {
                            id: payload.session.id,
                            status: payload.session.status,
                            keepalive_timeout_seconds: payload.session.keepalive_timeout_seconds,
                            reconnect_url: payload.session.reconnect_url,
                            recovery_url: payload.session.recovery_url,
                            connected_at: payload.session.connected_at,
                        },
                    },
                },
            },
            _ => Event::Undecodable,
        },
        Messages::Reconnect { metadata, payload } => match metadata.message_type {
            MessageTypes::SessionReconnect => Event::Frame { message },
            MessageTypes::SessionWelcome => Event::Frame {
                message: Messages::Welcome {
                    metadata: WelcomeMetadata {
                        message_id: metadata.message_id,
                        message_type: metadata.message_type,
                        message_timestamp: metadata.message_timestamp,
                    },
                    payload: WelcomePayload {
                        session: WelcomePayloadSession {
                            id: payload.session.id,
                            status: payload.session.status,
                            keepalive_timeout_seconds: payload.session.keepalive_timeout_seconds,
                            connected_at: payload.session.connected_at,
                            reconnect_url: payload.session.reconnect_url,
                            recovery_url: payload.session.recovery_url,
                        },
                    },
                },
            },
            _ => Event::Undecodable,
        },
        Messages::KeepAlive { metadata, .. } => if metadata.message_type
            == MessageTypes::SessionKeepalive {
            Event::Frame { message }
        } else {
            Event::Undecodable
        },
        Messages::Notification { metadata, .. } => if metadata.message_type
            == MessageTypes::Notification {
            Event::Frame { message }
        } else {
            Event::Undecodable
        },
        Messages::Revocation { metadata, .. } => if metadata.message_type
            == MessageTypes::Revocation {
            Event::Frame { message }
        } else {
            Event::Undecodable
        },
    }
}

/// Turns a decoded frame into the event that the client sees.
pub fn frame_event(message: Messages) -> (event: Event)
    ensures
        event == event_of(message),
{
    match message {
        Messages::Welcome { metadata, payload } => match metadata.message_type {
            MessageTypes::SessionWelcome => Event::Frame {
                message: Messages::Welcome { metadata, payload },
            },
            MessageTypes::SessionReconnect => Event::Frame {
                message: Messages::Reconnect {
                    metadata: ReconnectMetadata {
                        message_id: metadata.message_id,
                        message_type: metadata.message_type,
                        message_timestamp: metadata.message_timestamp,
                    },
                    payload: ReconnectPayload {
                        session: ReconnectPayloadSession {
                            id: payload.session.id,
                            status: payload.session.status,
                            keepalive_timeout_seconds: payload.session.keepalive_timeout_seconds,
                            reconnect_url: payload.session.reconnect_url,
                            recovery_url: payload.session.recovery_url,
                            connected_at: payload.session.connected_at,
                        },
                    },
                },
            },
            _ => Event::Undecodable,
        },
        Messages::Reconnect { metadata, payload } => match metadata.message_type {
            MessageTypes::SessionReconnect => Event::Frame {
                message: Messages::Reconnect { metadata, payload },
            },
            MessageTypes::SessionWelcome => Event::Frame {
                message: Messages::Welcome {
                    metadata: WelcomeMetadata {
                        message_id: metadata.message_id,
                        message_type: metadata.message_type,
                        message_timestamp: metadata.message_timestamp,
                    },
                    payload: WelcomePayload {
                        session: WelcomePayloadSession {
                            id: payload.session.id,
                            status: payload.session.status,
                            keepalive_timeout_seconds: payload.session.keepalive_timeout_seconds,
                            connected_at: payload.session.connected_at,
                            reconnect_url: payload.session.reconnect_url,
                            recovery_url: payload.session.recovery_url,
                        },
                    },
                },
            },
            _ => Event::Undecodable,
        },
        Messages::KeepAlive { metadata, payload } => {
            if metadata.message_type == MessageTypes::SessionKeepalive {
                Event::Frame { message: Messages::KeepAlive { metadata, payload } }
            } else {
                Event::Undecodable
            }
        },
        Messages::Notification { metadata, payload } => {
            if metadata.message_type == MessageTypes::Notification {
                Event::Frame { message: Messages::Notification { metadata, payload } }
            } else {
                Event::Undecodable
            }
        },
        Messages::Revocation { metadata, payload } => {
            if metadata.message_type == MessageTypes::Revocation {
                Event::Frame { message: Messages::Revocation { metadata, payload } }
            } else {
                Event::Undecodable
            }
        },
    }
}

/// The kinds of event that the client subscribes to, in the order in which
/// it asks for them.
pub open spec fn desired_types() -> Seq<SubscriptionType> {
    seq![
        SubscriptionType::ChannelAdBreakBegin,
        SubscriptionType::ChannelChatClearUserMessages,
        SubscriptionType::ChannelChatNotification,
        SubscriptionType::ChannelPointsCustomRewardRedemptionAdd,
        SubscriptionType::ChannelPointsCustomRewardRedemptionUpdate,
        SubscriptionType::ChannelPointsAutomaticRewardRedemption,
        SubscriptionType::ChannelChatMessage,
    ]
}

/// The kinds of event that the client subscribes to.
pub fn desired_subscriptions() -> (kinds: Vec<SubscriptionType>)
    ensures
        kinds@ == desired_types(),
{
    let kinds = vec![
        SubscriptionType::ChannelAdBreakBegin,
        SubscriptionType::ChannelChatClearUserMessages,
        SubscriptionType::ChannelChatNotification,
        SubscriptionType::ChannelPointsCustomRewardRedemptionAdd,
        SubscriptionType::ChannelPointsCustomRewardRedemptionUpdate,
        SubscriptionType::ChannelPointsAutomaticRewardRedemption,
        SubscriptionType::ChannelChatMessage,
    ];
    assert(kinds@ =~= desired_types());
    kinds
}

/// Whether `action` asks for a subscription of `kind` tied to `session_id`.
pub open spec fn is_subscribe(action: Action, kind: SubscriptionType, session_id: Seq<u8>) -> bool {
    match action {
        Action::Subscribe { subscription_type, session_id: id } => subscription_type == kind && id@
            == session_id,
        _ => false,
    }
}

/// Whether `actions` asks for exactly one subscription of every desired
/// kind, in order, each tied to `session_id`.
pub open spec fn subscribes_all(actions: Seq<Action>, session_id: Seq<u8>) -> bool {
    &&& actions.len() == desired_types().len()
    &&& forall|i: int|
        0 <= i < actions.len() ==> is_subscribe(#[trigger] actions[i], desired_types()[i], session_id)
}

/// The subscriptions to create once a session stands: one of every desired
/// kind, each tied to the session of the welcome.
pub fn create_subscriptions(payload: &WelcomePayload) -> (actions: Vec<Action>)
    ensures
        subscribes_all(actions@, payload.session.id@),
{
    let kinds = desired_subscriptions();
    let mut actions: Vec<Action> = Vec::new();
    let mut i: usize = 0;
    while i < kinds.len()
        invariant
            i <= kinds.len(),
            kinds@ == desired_types(),
            actions@.len() == i,
            forall|j: int|
                0 <= j < i ==> is_subscribe(#[trigger] actions@[j], desired_types()[j], payload.session.id@),
        decreases kinds.len() - i,
    {
        actions.push(
            Action::Subscribe {
                subscription_type: kinds[i],
                session_id: copy_bytes(payload.session.id.as_slice()),
            },
        );
        i += 1;
    }
    actions
}

/// The condition of every subscription of the client: events of the user's
/// own channel, asked for by the user.
pub fn get_condition(user: &User) -> (condition: Condition)
    ensures
        condition.broadcaster_user_id is Some,
        condition.broadcaster_user_id.unwrap()@ == user.id@,
        condition.user_id is Some,
        condition.user_id.unwrap()@ == user.id@,
        condition.to_broadcaster_user_id is None,
        condition.moderator_user_id is None,
        condition.reward_id is None,
        condition.client_id is None,
        condition.organization_id is None,
        condition.category_id is None,
        condition.campaign_id is None,
        condition.extension_client_id is None,
{
    Condition {
        to_broadcaster_user_id: None,
        broadcaster_user_id: Some(copy_bytes(user.id.as_slice())),
        moderator_user_id: None,
        user_id: Some(copy_bytes(user.id.as_slice())),
        reward_id: None,
        client_id: None,
        organization_id: None,
        category_id: None,
        campaign_id: None,
        extension_client_id: None,
    }
}

/// A subscription request of version `1` for one kind of event.
pub fn get_subscription(
    kind: SubscriptionType,
    condition: Condition,
    session_id: &[u8],
    method: MethodType,
) -> (subscription: Subscription)
    ensures
        subscription.kind == kind,
        subscription.condition == condition,
        subscription.version@ == "1".spec_bytes(),
        subscription.transport.method == method,
        subscription.transport.session_id@ == session_id@,
        subscription.status is None,
        subscription.created_at is None,
{
    Subscription {
        kind,
        condition,
        version: text("1"),
        transport: Transport { method, session_id: copy_bytes(session_id) },
        status: None,
        created_at: None,
    }
}

/// The body of the request that creates a subscription of `kind` for
/// `user`, delivered to the session `session_id`.
pub fn get_eventsub_subscription(
    session_id: &[u8],
    kind: SubscriptionType,
    method: MethodType,
    user: &User,
) -> (subscription: Subscription)
    ensures
        subscription.kind == kind,
        subscription.version@ == "1".spec_bytes(),
        subscription.transport.method == method,
        subscription.transport.session_id@ == session_id@,
        subscription.status is None,
        subscription.created_at is None,
        subscription.condition.broadcaster_user_id is Some,
        subscription.condition.broadcaster_user_id.unwrap()@ == user.id@,
        subscription.condition.user_id is Some,
        subscription.condition.user_id.unwrap()@ == user.id@,
{
    let condition = get_condition(user);
    get_subscription(kind, condition, session_id, method)
}

/// Whether `actions` is what routing the notification `payload` asks for:
/// nothing, one message, or one redemption to settle.
pub open spec fn routed_actions(payload: NotificationPayload, actions: Seq<Action>) -> bool {
    if actions.len() == 0 {
        !shape_fits(payload.subscription.kind, payload.event)
    } else if actions.len() == 1 {
        match actions[0] {
            Action::Publish { message } => published(
                payload.subscription.kind,
                payload.event,
                message,
            ),
            Action::Settle { redemption } => payload.subscription.kind
                == SubscriptionType::ChannelPointsCustomRewardRedemptionAdd && redemption_of(
                payload.event,
                redemption,
            ),
            _ => false,
        }
    } else {
        false
    }
}

/// The address to reconnect to: the one supplied, or the socket's own
/// address where none was.
pub open spec fn reconnect_target(supplied: Option<Vec<u8>>) -> Seq<u8> {
    match supplied {
        Some(url) => url@,
        None => event_sub_url(),
    }
}

/// Whether `actions` is one connection attempt to `url` and nothing else.
pub open spec fn connects_once(actions: Seq<Action>, url: Seq<u8>) -> bool {
    actions.len() == 1 && match actions[0] {
        Action::Connect { url: target } => target@ == url,
        _ => false,
    }
}

/// Whether the session `session` has been silent for too long after
/// `seconds` seconds without a frame.
pub open spec fn timed_out(session: Option<WelcomePayloadSession>, seconds: usize) -> bool {
    match session {
        Some(s) => seconds > s.keepalive_timeout_seconds,
        None => false,
    }
}

/// Whether the client that was `before` is `after` once it has seen `event`,
/// and `actions` is what it asks for.
pub open spec fn listened(before: Client, event: Event, after: Client, actions: Seq<Action>) -> bool {
    match event {
        Event::Frame { message } => match message {
            Messages::Welcome { payload, .. } => after.session == Some(payload.session)
                && subscribes_all(actions, payload.session.id@),
            Messages::KeepAlive { .. } => after == before && actions.len() == 0,
            Messages::Notification { payload, .. } => after == before && routed_actions(
                payload,
                actions,
            ),
            Messages::Reconnect { payload, .. } => after.session is None && connects_once(
                actions,
                reconnect_target(payload.session.reconnect_url),
            ),
            Messages::Revocation { payload, .. } => after == before && actions.len() == 1
                && match actions[0] {
                Action::ReportRevocation { subscription_type, status } => subscription_type
                    == payload.kind && status@ == payload.status@,
                _ => false,
            },
        },
        Event::Undecodable => after == before && actions.len() == 1 && actions[0]
            is ReportUndecodable,
        Event::Ping { payload } => after == before && actions.len() == 1 && match actions[0] {
            Action::Pong { payload: answer } => answer@ == payload@,
            _ => false,
        },
        Event::Closed => after.session is None && connects_once(actions, event_sub_url()),
        Event::Silence { seconds } => if timed_out(before.session, seconds) {
            after.session is None && connects_once(actions, event_sub_url())
        } else {
            after == before && actions.len() == 0
        },
        Event::Other => after == before && actions.len() == 0,
    }
}

/// A client without session, and the first thing to do: connect.
pub fn start_eventsub() -> (out: (Client, Vec<Action>))
    ensures
        out.0.session is None,
        connects_once(out.1@, event_sub_url()),
{
    let mut actions: Vec<Action> = Vec::new();
    actions.push(
        Action::Connect {
            url: text("wss://eventsub.wss.twitch.tv:443/ws?keepalive_timeout_seconds=30"),
        },
    );
    (Client { session: None }, actions)
}

/// One step of the client: takes what the socket brought, updates the
/// session and says what to do.
///
/// A welcome opens a session and asks for every desired subscription
/// against it. A keepalive changes nothing. A notification is routed. A
/// reconnect drops the session and asks for one connection to the supplied
/// address. A revocation is reported and nothing else. A ping is answered
/// with its own payload. A frame that does not decode is reported and the
/// client goes on. A closed socket drops the session and asks for a new
/// connection, and so does silence beyond the session's keepalive period.
pub fn listen(client: &mut Client, event: Event) -> (actions: Vec<Action>)
    ensures
        listened(*old(client), event, *final(client), actions@),
{
    let mut actions: Vec<Action> = Vec::new();
    match event {
        Event::Frame { message } => match message {
            Messages::Welcome { metadata: _, payload } => {
                actions = create_subscriptions(&payload);
                client.session = Some(payload.session);
            },
            Messages::KeepAlive { .. } => {},
            Messages::Notification { metadata, payload } => {
                match handle_notification(&metadata, &payload) {
                    Routed::Nothing => {},
                    Routed::Publish { message } => {
                        actions.push(Action::Publish { message });
                    },
                    Routed::Settle { redemption } => {
                        actions.push(Action::Settle { redemption });
                    },
                }
            },
            Messages::Reconnect { metadata: _, payload } => {
                let url = match &payload.session.reconnect_url {
                    Some(url) => copy_bytes(url.as_slice()),
                    None => text("wss://eventsub.wss.twitch.tv:443/ws?keepalive_timeout_seconds=30"),
                };
                client.session = None;
                actions.push(Action::Connect { url });
            },
            Messages::Revocation { metadata: _, payload } => {
                actions.push(
                    Action::ReportRevocation {
                        subscription_type: payload.kind,
                        status: copy_bytes(payload.status.as_slice()),
                    },
                );
            },
        },
        Event::Undecodable => {
            actions.push(Action::ReportUndecodable);
        },
        Event::Ping { payload } => {
            actions.push(Action::Pong { payload });
        },
        Event::Closed => {
            client.session = None;
            actions.push(
                Action::Connect {
                    url: text("wss://eventsub.wss.twitch.tv:443/ws?keepalive_timeout_seconds=30"),
                },
            );
        },
        Event::Silence { seconds } => {
            let late = match &client.session {
                Some(session) => seconds > session.keepalive_timeout_seconds,
                None => false,
            };
            if late {
                client.session = None;
                actions.push(
                    Action::Connect {
                        url: text("wss://eventsub.wss.twitch.tv:443/ws?keepalive_timeout_seconds=30"),
                    },
                );
            }
        },
        Event::Other => {},
    }
    actions
}

/// After a welcome the client asks for exactly as many subscriptions as
/// there are desired kinds, one of each kind and no kind twice, and every
/// one of them names the session that the welcome opened.
pub proof fn welcome_subscribes_each_kind_once(
    before: Client,
    event: Event,
    after: Client,
    actions: Seq<Action>,
)
    requires
        listened(before, event, after, actions),
        event matches Event::Frame { message } && message is Welcome,
    ensures
        actions.len() == desired_types().len(),
        desired_types().len() == 7,
        forall|i: int, j: int|
            0 <= i < j < desired_types().len() ==> desired_types()[i] != desired_types()[j],
        forall|i: int|
            0 <= i < actions.len() ==> is_subscribe(
                #[trigger] actions[i],
                desired_types()[i],
                event->message->Welcome_payload.session.id@,
            ),
        after.session == Some(event->message->Welcome_payload.session),
{
}

/// A reconnect drops the old session and asks for exactly one connection,
/// to the supplied address. When the welcome of the new connection
/// arrives, every subscription that the client asks for names the new
/// session: none is carried over.
pub proof fn reconnect_starts_afresh(
    before: Client,
    reconnect: Event,
    between: Client,
    first: Seq<Action>,
    welcome: Event,
    after: Client,
    second: Seq<Action>,
)
    requires
        listened(before, reconnect, between, first),
        listened(between, welcome, after, second),
        reconnect matches Event::Frame { message } && message is Reconnect,
        welcome matches Event::Frame { message } && message is Welcome,
    ensures
        between.session is None,
        connects_once(
            first,
            reconnect_target(reconnect->message->Reconnect_payload.session.reconnect_url),
        ),
        after.session == Some(welcome->message->Welcome_payload.session),
        subscribes_all(second, welcome->message->Welcome_payload.session.id@),
{
}

} // verus!
