//! The notification router and the settlement of reward redemptions.
//!
//! The router maps a notification to at most one thing to do. A redemption
//! is settled in steps: the command to run is chosen, the caller runs it,
//! and its outcome decides the one settlement request and the message, if
//! any, that tells chat of a refund.

use vstd::prelude::*;
use vstd::string::*;
use crate::text::{text, views, copy_bytes, push_all, split_once, split_first, decimal, decimal_digits, equal_ignoring_case, lowered};
use crate::channel::{ChannelMessages, ChatEvent};
use crate::deserialization::{NotificationEvent, NotificationMetadata, NotificationPayload, Reward};
use crate::subscription_type::SubscriptionType;

verus! {

/// A redeemed reward that waits for settlement.
#[derive(Clone, Debug)]
pub struct RewardRedemption {
    pub id: Vec<u8>,
    pub broadcaster_id: Vec<u8>,
    pub user_name: Vec<u8>,
    pub reward: Reward,
    pub user_input: Vec<u8>,
    pub status: Vec<u8>,
}

/// What a notification asks for.
#[derive(Clone, Debug)]
pub enum Routed {
    /// Nothing: the kind has no handler, or the event is not of the kind's
    /// shape.
    Nothing,
    /// One message for the bus.
    Publish { message: ChannelMessages },
    /// One redemption to settle.
    Settle { redemption: RewardRedemption },
}

/// The line that tells chat of an ad break of `seconds` seconds.
pub open spec fn ad_break_text(seconds: usize) -> Seq<u8> {
    "Starting ".spec_bytes() + decimal_digits(seconds as nat)
        + " second ad break...".spec_bytes()
}

/// Whether `message` is what an ad-break event publishes.
pub open spec fn is_ad_break_message(event: NotificationEvent, message: ChannelMessages) -> bool {
    match (event, message) {
        (
            NotificationEvent::ChannelAdBreak { duration_seconds, .. },
            ChannelMessages::AdBreakStarted { message: line },
        ) => line@ == ad_break_text(duration_seconds),
        _ => false,
    }
}

/// An ad break began: one message that says for how long.
pub fn channel_ad_break_begin(payload: &NotificationPayload) -> (out: Option<ChannelMessages>)
    ensures
        match out {
            Some(message) => is_ad_break_message(payload.event, message),
            None => !(payload.event is ChannelAdBreak),
        },
{
    match &payload.event {
        NotificationEvent::ChannelAdBreak { duration_seconds, .. } => {
            let mut message = text("Starting ");
            push_all(&mut message, decimal(*duration_seconds as u64).as_slice());
            push_all(&mut message, " second ad break...".as_bytes());
            Some(ChannelMessages::AdBreakStarted { message })
        },
        _ => None,
    }
}

/// Whether `message` is what a clear-by-user event publishes.
pub open spec fn is_clear_message(event: NotificationEvent, message: ChannelMessages) -> bool {
    match (event, message) {
        (
            NotificationEvent::ChannelChatClearUserMessages { target_user_name, .. },
            ChannelMessages::ClearMessagesByUser { target_user_name: name },
        ) => name@ == target_user_name@,
        _ => false,
    }
}

/// A moderator cleared a chatter's messages: one message that names the
/// chatter.
pub fn channel_chat_clear_user_messages(payload: &NotificationPayload) -> (out: Option<
    ChannelMessages,
>)
    ensures
        match out {
            Some(message) => is_clear_message(payload.event, message),
            None => !(payload.event is ChannelChatClearUserMessages),
        },
{
    match &payload.event {
        NotificationEvent::ChannelChatClearUserMessages { target_user_name, .. } => Some(
            ChannelMessages::ClearMessagesByUser {
                target_user_name: copy_bytes(target_user_name.as_slice()),
            },
        ),
        _ => None,
    }
}

/// Whether `message` is what a chat message or a chat notification
/// publishes: the chatter, the colour and the text with all its fragments;
/// for a notification also the platform's line and the kind of notice.
pub open spec fn is_chat_message(event: NotificationEvent, message: ChannelMessages) -> bool {
    match (event, message) {
        (
            NotificationEvent::ChannelChatMessage {
                chatter_user_id,
                chatter_user_login,
                chatter_user_name,
                color,
                message_id,
                message: body,
                ..
            },
            ChannelMessages::ChatMessage { message: out },
        ) => {
            &&& out.chatter_user_id@ == chatter_user_id@
            &&& out.chatter_user_login@ == chatter_user_login@
            &&& out.chatter_user_name@ == chatter_user_name@
            &&& out.color@ == color@
            &&& out.message_id@ == message_id@
            &&& body.same(out.message)
            &&& out.system_message is None
            &&& out.notice_type is None
        },
        (
            NotificationEvent::ChannelNotification {
                chatter_user_id,
                chatter_user_login,
                chatter_user_name,
                color,
                message_id,
                message: body,
                system_message,
                notice_type,
                ..
            },
            ChannelMessages::ChatMessage { message: out },
        ) => {
            &&& out.chatter_user_id@ == chatter_user_id@
            &&& out.chatter_user_login@ == chatter_user_login@
            &&& out.chatter_user_name@ == chatter_user_name@
            &&& out.color@ == color@
            &&& out.message_id@ == message_id@
            &&& body.same(out.message)
            &&& out.system_message is Some
            &&& out.system_message.unwrap()@ == system_message@
            &&& out.notice_type == Some(notice_type)
        },
        _ => false,
    }
}

/// A chat message: one message for the bus.
pub fn channel_chat_message(payload: &NotificationPayload) -> (out: Option<ChannelMessages>)
    ensures
        match out {
            Some(message) => payload.event is ChannelChatMessage && is_chat_message(
                payload.event,
                message,
            ),
            None => !(payload.event is ChannelChatMessage),
        },
{
    match &payload.event {
        NotificationEvent::ChannelChatMessage {
            chatter_user_id,
            chatter_user_login,
            chatter_user_name,
            color,
            message_id,
            message,
            ..
        } => Some(
            ChannelMessages::ChatMessage {
                message: ChatEvent {
                    chatter_user_id: copy_bytes(chatter_user_id.as_slice()),
                    chatter_user_login: copy_bytes(chatter_user_login.as_slice()),
                    chatter_user_name: copy_bytes(chatter_user_name.as_slice()),
                    color: copy_bytes(color.as_slice()),
                    message_id: copy_bytes(message_id.as_slice()),
                    message: message.duplicate(),
                    system_message: None,
                    notice_type: None,
                },
            },
        ),
        _ => None,
    }
}

/// A chat notification: one message for the bus. The parts that only some
/// kinds of notice carry may all be absent.
pub fn channel_chat_notification(payload: &NotificationPayload) -> (out: Option<ChannelMessages>)
    ensures
        match out {
            Some(message) => payload.event is ChannelNotification && is_chat_message(
                payload.event,
                message,
            ),
            None => !(payload.event is ChannelNotification),
        },
{
    match &payload.event {
        NotificationEvent::ChannelNotification {
            chatter_user_id,
            chatter_user_login,
            chatter_user_name,
            color,
            message_id,
            message,
            system_message,
            notice_type,
            ..
        } => Some(
            ChannelMessages::ChatMessage {
                message: ChatEvent {
                    chatter_user_id: copy_bytes(chatter_user_id.as_slice()),
                    chatter_user_login: copy_bytes(chatter_user_login.as_slice()),
                    chatter_user_name: copy_bytes(chatter_user_name.as_slice()),
                    color: copy_bytes(color.as_slice()),
                    message_id: copy_bytes(message_id.as_slice()),
                    message: message.duplicate(),
                    system_message: Some(copy_bytes(system_message.as_slice())),
                    notice_type: Some(*notice_type),
                },
            },
        ),
        _ => None,
    }
}

/// Whether `out` is the redemption that `event` reports.
pub open spec fn redemption_of(event: NotificationEvent, out: RewardRedemption) -> bool {
    match event {
        NotificationEvent::ChannelPointsCustomRewardRedemptionAdd {
            id,
            broadcaster_user_id,
            user_name,
            user_input,
            status,
            reward,
            ..
        } => {
            &&& out.id@ == id@
            &&& out.broadcaster_id@ == broadcaster_user_id@
            &&& out.user_name@ == user_name@
            &&& out.user_input@ == user_input@
            &&& out.status@ == status@
            &&& out.reward.id@ == reward.id@
            &&& out.reward.title@ == reward.title@
            &&& out.reward.cost == reward.cost
            &&& out.reward.prompt@ == reward.prompt@
        },
        _ => false,
    }
}

/// A reward was redeemed: the redemption to settle.
pub fn channel_points_custom_reward_redemption_add(payload: &NotificationPayload) -> (out: Option<
    RewardRedemption,
>)
    ensures
        match out {
            Some(redemption) => redemption_of(payload.event, redemption),
            None => !(payload.event is ChannelPointsCustomRewardRedemptionAdd),
        },
{
    match &payload.event {
        NotificationEvent::ChannelPointsCustomRewardRedemptionAdd {
            id,
            broadcaster_user_id,
            user_name,
            user_input,
            status,
            reward,
            ..
        } => Some(
            RewardRedemption {
                id: copy_bytes(id.as_slice()),
                broadcaster_id: copy_bytes(broadcaster_user_id.as_slice()),
                user_name: copy_bytes(user_name.as_slice()),
                reward: Reward {
                    id: copy_bytes(reward.id.as_slice()),
                    title: copy_bytes(reward.title.as_slice()),
                    cost: reward.cost,
                    prompt: copy_bytes(reward.prompt.as_slice()),
                },
                user_input: copy_bytes(user_input.as_slice()),
                status: copy_bytes(status.as_slice()),
            },
        ),
        _ => None,
    }
}

/// Whether an event has the shape that the handler of `kind` reads. A kind
/// without handler reads none.
pub open spec fn shape_fits(kind: SubscriptionType, event: NotificationEvent) -> bool {
    match kind {
        SubscriptionType::ChannelAdBreakBegin => event is ChannelAdBreak,
        SubscriptionType::ChannelChatClearUserMessages => event is ChannelChatClearUserMessages,
        SubscriptionType::ChannelChatMessage => event is ChannelChatMessage,
        SubscriptionType::ChannelChatNotification => event is ChannelNotification,
        SubscriptionType::ChannelPointsCustomRewardRedemptionAdd => event is ChannelPointsCustomRewardRedemptionAdd,
        _ => false,
    }
}

/// Whether `message` is what the handler of `kind` publishes for `event`.
pub open spec fn published(
    kind: SubscriptionType,
    event: NotificationEvent,
    message: ChannelMessages,
) -> bool {
    match kind {
        SubscriptionType::ChannelAdBreakBegin => is_ad_break_message(event, message),
        SubscriptionType::ChannelChatClearUserMessages => is_clear_message(event, message),
        SubscriptionType::ChannelChatMessage => event is ChannelChatMessage && is_chat_message(
            event,
            message,
        ),
        SubscriptionType::ChannelChatNotification => event is ChannelNotification && is_chat_message(
            event,
            message,
        ),
        _ => false,
    }
}

/// Routes a notification by the kind of its subscription. A kind without
/// handler asks for nothing, and so does an event that is not of the shape
/// that its kind's handler reads; a redemption is handed on for settlement;
/// every other handled event gives exactly one message.
pub fn handle_notification(_metadata: &NotificationMetadata, payload: &NotificationPayload) -> (out:
    Routed)
    ensures
        match out {
            Routed::Nothing => !shape_fits(payload.subscription.kind, payload.event),
            Routed::Publish { message } => published(
                payload.subscription.kind,
                payload.event,
                message,
            ),
            Routed::Settle { redemption } => payload.subscription.kind
                == SubscriptionType::ChannelPointsCustomRewardRedemptionAdd && redemption_of(
                payload.event,
                redemption,
            ),
        },
{
    match payload.subscription.kind {
        SubscriptionType::ChannelAdBreakBegin => wrap(channel_ad_break_begin(payload)),
        SubscriptionType::ChannelChatClearUserMessages => wrap(
            channel_chat_clear_user_messages(payload),
        ),
        SubscriptionType::ChannelChatMessage => wrap(channel_chat_message(payload)),
        SubscriptionType::ChannelChatNotification => wrap(channel_chat_notification(payload)),
        SubscriptionType::ChannelPointsCustomRewardRedemptionAdd => {
            match channel_points_custom_reward_redemption_add(payload) {
                Some(redemption) => Routed::Settle { redemption },
                None => Routed::Nothing,
            }
        },
        _ => Routed::Nothing,
    }
}

/// A handler's message as a routing result.
fn wrap(published: Option<ChannelMessages>) -> (out: Routed)
    ensures
        match published {
            Some(message) => out == (Routed::Publish { message }),
            None => out is Nothing,
        },
{
    match published {
        Some(message) => Routed::Publish { message },
        None => Routed::Nothing,
    }
}


/// A program to run, with its arguments in order.
#[derive(Clone, Debug)]
pub struct ExternalCommand {
    pub name: Vec<u8>,
    pub args: Vec<Vec<u8>>,
}

/// How a reward's program ended.
#[derive(Clone, Debug)]
pub enum ActionOutcome {
    /// The program could not be started.
    SpawnFailed,
    /// The program ran; `success` says whether it exited with status zero.
    Exited { success: bool, stdout: Vec<u8> },
}

/// The two ways to settle a redemption.
#[derive(Clone, Copy, Debug, PartialEq, Eq, Structural)]
pub enum SettlementStatus {
    Fulfilled,
    Canceled,
}

impl SettlementStatus {
    /// The status as the settlement request writes it.
    pub fn to_wire(&self) -> (name: &'static str)
        ensures
            name@ == match *self {
                SettlementStatus::Fulfilled => "FULFILLED"@,
                SettlementStatus::Canceled => "CANCELED"@,
            },
    {
        match self {
            SettlementStatus::Fulfilled => "FULFILLED",
            SettlementStatus::Canceled => "CANCELED",
        }
    }
}

/// One settlement request: which redemption of which reward of which
/// broadcaster, and the status to give it.
#[derive(Clone, Debug)]
pub struct SettlementRequest {
    pub id: Vec<u8>,
    pub broadcaster_id: Vec<u8>,
    pub reward_id: Vec<u8>,
    pub status: SettlementStatus,
}

/// The program that a mapping `name[:sub]` names.
pub open spec fn command_name(mapping: Seq<u8>) -> Seq<u8> {
    match split_first(mapping, 58) {
        Some((name, _)) => name,
        None => mapping,
    }
}

/// The subcommand of a mapping `name[:sub]`; empty where it has none.
pub open spec fn sub_command(mapping: Seq<u8>) -> Seq<u8> {
    match split_first(mapping, 58) {
        Some((_, sub)) => sub,
        None => Seq::empty(),
    }
}

/// The arguments of a reward's program: the subcommand where it is not
/// empty, the redeemer's name, and the redeemer's input where it is not
/// empty, in this order.
pub open spec fn reward_args(mapping: Seq<u8>, user_name: Seq<u8>, user_input: Seq<u8>) -> Seq<
    Seq<u8>,
> {
    let sub = sub_command(mapping);
    let first = if sub.len() > 0 {
        seq![sub]
    } else {
        Seq::empty()
    };
    let last = if user_input.len() > 0 {
        seq![user_input]
    } else {
        Seq::empty()
    };
    first + seq![user_name] + last
}

/// Chooses the program to run for a redemption. `mapping` is what is
/// configured for the reward's title; without one nothing is to be done and
/// the redemption stays as the platform has it.
pub fn reward_command(redemption: &RewardRedemption, mapping: Option<&[u8]>) -> (out: Option<
    ExternalCommand,
>)
    ensures
        match mapping {
            None => out is None,
            Some(m) => out is Some && out.unwrap().name@ == command_name(m@) && views(
                out.unwrap().args@,
            ) == reward_args(m@, redemption.user_name@, redemption.user_input@),
        },
{
    match mapping {
        None => None,
        Some(m) => {
            let (name, sub) = match split_once(m, 58) {
                Some((name, sub)) => (name, sub),
                None => (copy_bytes(m), Vec::new()),
            };
            let mut args: Vec<Vec<u8>> = Vec::new();
            if sub.len() > 0 {
                args.push(sub);
            }
            args.push(copy_bytes(redemption.user_name.as_slice()));
            if redemption.user_input.len() > 0 {
                args.push(copy_bytes(redemption.user_input.as_slice()));
            }
            assert(views(args@) =~= reward_args(m@, redemption.user_name@, redemption.user_input@));
            Some(ExternalCommand { name, args })
        },
    }
}

/// Whether a redemption's status says that it is not settled yet, whatever
/// the case of its letters.
pub open spec fn is_unfulfilled(status: Seq<u8>) -> bool {
    lowered(status) == lowered("unfulfilled".spec_bytes())
}

/// How a redemption is settled once its program has ended: a program that
/// could not be started or that failed cancels it; a program that
/// succeeded fulfils it where it is still unfulfilled; otherwise it is left
/// alone. The cases exclude one another, so no redemption is settled twice.
pub open spec fn settlement_kind(status: Seq<u8>, outcome: ActionOutcome) -> Option<
    SettlementStatus,
> {
    match outcome {
        ActionOutcome::SpawnFailed => Some(SettlementStatus::Canceled),
        ActionOutcome::Exited { success, .. } => if !success {
            Some(SettlementStatus::Canceled)
        } else if is_unfulfilled(status) {
            Some(SettlementStatus::Fulfilled)
        } else {
            None
        },
    }
}

/// The request that settles `redemption` with `status`.
pub fn settlement_request(redemption: &RewardRedemption, status: SettlementStatus) -> (out:
    SettlementRequest)
    ensures
        out.id@ == redemption.id@,
        out.broadcaster_id@ == redemption.broadcaster_id@,
        out.reward_id@ == redemption.reward.id@,
        out.status == status,
{
    SettlementRequest {
        id: copy_bytes(redemption.id.as_slice()),
        broadcaster_id: copy_bytes(redemption.broadcaster_id.as_slice()),
        reward_id: copy_bytes(redemption.reward.id.as_slice()),
        status,
    }
}

/// The request that fulfils a redemption.
pub fn reward_fulfilled(redemption: &RewardRedemption) -> (out: SettlementRequest)
    ensures
        out.id@ == redemption.id@,
        out.broadcaster_id@ == redemption.broadcaster_id@,
        out.reward_id@ == redemption.reward.id@,
        out.status == SettlementStatus::Fulfilled,
{
    settlement_request(redemption, SettlementStatus::Fulfilled)
}

/// The one settlement request, if any, that the outcome of a redemption's
/// program asks for.
pub fn settlement_for(redemption: &RewardRedemption, outcome: &ActionOutcome) -> (out: Option<
    SettlementRequest,
>)
    ensures
        match out {
            Some(request) => {
                &&& settlement_kind(redemption.status@, *outcome) == Some(request.status)
                &&& request.id@ == redemption.id@
                &&& request.broadcaster_id@ == redemption.broadcaster_id@
                &&& request.reward_id@ == redemption.reward.id@
            },
            None => settlement_kind(redemption.status@, *outcome) is None,
        },
{
    match outcome {
        ActionOutcome::SpawnFailed => Some(
            settlement_request(redemption, SettlementStatus::Canceled),
        ),
        ActionOutcome::Exited { success, .. } => {
            if !*success {
                Some(settlement_request(redemption, SettlementStatus::Canceled))
            } else if equal_ignoring_case(redemption.status.as_slice(), "unfulfilled".as_bytes()) {
                Some(reward_fulfilled(redemption))
            } else {
                None
            }
        },
    }
}

/// What a failed program wrote; nothing where it never started.
pub open spec fn output_of(outcome: ActionOutcome) -> Seq<u8> {
    match outcome {
        ActionOutcome::SpawnFailed => Seq::empty(),
        ActionOutcome::Exited { stdout, .. } => stdout@,
    }
}

/// The line that tells chat whether the points of a redemption went back.
pub open spec fn refund_text(cost: usize, refunded: bool, user_name: Seq<u8>) -> Seq<u8> {
    decimal_digits(cost as nat) + " points ".spec_bytes() + (if refunded {
        "were".spec_bytes()
    } else {
        "could not be".spec_bytes()
    }) + " refunded to ".spec_bytes() + user_name
}

/// The message that follows a cancel request: it says whether the request
/// itself went through, whatever made the program fail, and carries what
/// the program wrote.
pub fn refund_points(redemption: &RewardRedemption, refunded: bool, outcome: &ActionOutcome) -> (out:
    ChannelMessages)
    ensures
        match out {
            ChannelMessages::RedeemRefund { message, command_output } => message@ == refund_text(
                redemption.reward.cost,
                refunded,
                redemption.user_name@,
            ) && command_output@ == output_of(*outcome),
            _ => false,
        },
{
    let mut message = decimal(redemption.reward.cost as u64);
    push_all(&mut message, " points ".as_bytes());
    if refunded {
        push_all(&mut message, "were".as_bytes());
    } else {
        push_all(&mut message, "could not be".as_bytes());
    }
    push_all(&mut message, " refunded to ".as_bytes());
    push_all(&mut message, redemption.user_name.as_slice());
    let command_output = match outcome {
        ActionOutcome::SpawnFailed => Vec::new(),
        ActionOutcome::Exited { stdout, .. } => copy_bytes(stdout.as_slice()),
    };
    ChannelMessages::RedeemRefund { message, command_output }
}

/// The message, if any, that ends a settlement. `request_succeeded` says
/// whether the settlement request went through. Only a refund is told to
/// chat; a fulfilled redemption and one left alone are silent.
pub fn settle(redemption: &RewardRedemption, outcome: &ActionOutcome, request_succeeded: bool) -> (out:
    Option<ChannelMessages>)
    ensures
        match out {
            Some(ChannelMessages::RedeemRefund { message, command_output }) => {
                &&& settlement_kind(redemption.status@, *outcome) == Some(SettlementStatus::Canceled)
                &&& message@ == refund_text(
                    redemption.reward.cost,
                    request_succeeded,
                    redemption.user_name@,
                )
                &&& command_output@ == output_of(*outcome)
            },
            Some(_) => false,
            None => settlement_kind(redemption.status@, *outcome) != Some(SettlementStatus::Canceled),
        },
{
    let failed = match outcome {
        ActionOutcome::SpawnFailed => true,
        ActionOutcome::Exited { success, .. } => !*success,
    };
    if failed {
        Some(refund_points(redemption, request_succeeded, outcome))
    } else {
        None
    }
}

/// A redemption whose program could not be started or failed is settled by
/// exactly one cancel request, which is followed by a message; one whose
/// program succeeded while it was unfulfilled is settled by exactly one
/// fulfil request, without a message. No outcome asks for both.
pub proof fn settlement_is_exclusive(status: Seq<u8>, outcome: ActionOutcome)
    ensures
        (outcome is SpawnFailed || (outcome matches ActionOutcome::Exited { success, .. } && !success))
            ==> settlement_kind(status, outcome) == Some(SettlementStatus::Canceled),
        (outcome matches ActionOutcome::Exited { success, .. } && success) && is_unfulfilled(status)
            ==> settlement_kind(status, outcome) == Some(SettlementStatus::Fulfilled),
        (outcome matches ActionOutcome::Exited { success, .. } && success) && !is_unfulfilled(status)
            ==> settlement_kind(status, outcome) is None,
{
}

} // verus!
