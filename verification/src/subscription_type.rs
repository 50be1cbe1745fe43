//! The kinds of event subscription and their wire names.

use vstd::prelude::*;
use vstd::string::*;
use vstd::utf8::{encode_utf8, encode_utf8_decode_utf8};
use crate::text::is_text;

verus! {

/// A kind of event subscription. `Unknown` stands for every wire name that
/// the table does not hold.
#[derive(Clone, Copy, Debug, PartialEq, Eq, Structural)]
pub enum SubscriptionType {
    AutomodMessageHold,
    AutomodMessageHoldV2,
    AutomodMessageUpdate,
    AutomodMessageUpdateV2,
    AutomodSettingsUpdate,
    AutomodTermsUpdate,
    ChannelUpdate,
    ChannelFollow,
    ChannelAdBreakBegin,
    ChannelChatClear,
    ChannelChatClearUserMessages,
    ChannelChatMessage,
    ChannelChatMessageDelete,
    ChannelChatNotification,
    ChannelChatSettingsUpdate,
    ChannelChatUserMessageHold,
    ChannelChatUserMessageUpdate,
    ChannelSharedChatSessionBegin,
    ChannelSharedChatSessionUpdate,
    ChannelSharedChatSessionEnd,
    ChannelSubscribe,
    ChannelSubscriptionEnd,
    ChannelSubscriptionGift,
    ChannelSubscriptionMessage,
    ChannelCheer,
    ChannelRaid,
    ChannelBan,
    ChannelUnban,
    ChannelUnbanRequestCreate,
    ChannelUnbanRequestResolve,
    ChannelModerate,
    ChannelModerateV2,
    ChannelModeratorAdd,
    ChannelModeratorRemove,
    ChannelGuestStarSessionBegin,
    ChannelGuestStarSessionEnd,
    ChannelGuestStarGuestUpdate,
    ChannelGuestStarSettingsUpdate,
    ChannelPointsAutomaticRewardRedemption,
    ChannelPointsCustomRewardAdd,
    ChannelPointsCustomRewardUpdate,
    ChannelPointsCustomRewardRemove,
    ChannelPointsCustomRewardRedemptionAdd,
    ChannelPointsCustomRewardRedemptionUpdate,
    ChannelPollBegin,
    ChannelPollProgress,
    ChannelPollEnd,
    ChannelPredictionBegin,
    ChannelPredictionProgress,
    ChannelPredictionLock,
    ChannelPredictionEnd,
    ChannelSuspiciousUserMessage,
    ChannelSuspiciousUserUpdate,
    ChannelVIPAdd,
    ChannelVIPRemove,
    ChannelWarningAcknowledgement,
    ChannelWarningSend,
    CharityDonation,
    CharityCampaignStart,
    CharityCampaignProgress,
    CharityCampaignStop,
    ConduitShardDisabled,
    DropEntitlementGrant,
    ExtensionBitsTransactionCreate,
    GoalBegin,
    GoalProgress,
    GoalEnd,
    HypeTrainBegin,
    HypeTrainProgress,
    HypeTrainEnd,
    ShieldModeBegin,
    ShieldModeEnd,
    ShoutoutCreate,
    ShoutoutReceived,
    StreamOnline,
    StreamOffline,
    UserAuthorizationGrant,
    UserAuthorizationRevoke,
    UserUpdate,
    WhisperReceived,
    Unknown,
}

impl SubscriptionType {
    /// The wire name of a kind, as characters.
    pub open spec fn wire_chars(self) -> Seq<char> {
        match self {
            SubscriptionType::AutomodMessageHold => "automod.message.hold"@,
            SubscriptionType::AutomodMessageHoldV2 => "automod.message.hold"@,
            SubscriptionType::AutomodMessageUpdate => "automod.message.update"@,
            SubscriptionType::AutomodMessageUpdateV2 => "automod.message.update"@,
            SubscriptionType::AutomodSettingsUpdate => "automod.settings.update"@,
            SubscriptionType::AutomodTermsUpdate => "automod.terms.update"@,
            SubscriptionType::ChannelUpdate => "channel.update"@,
            SubscriptionType::ChannelFollow => "channel.follow"@,
            SubscriptionType::ChannelAdBreakBegin => "channel.ad_break.begin"@,
            SubscriptionType::ChannelChatClear => "channel.chat.clear"@,
            SubscriptionType::ChannelChatClearUserMessages => "channel.chat.clear_user_messages"@,
            SubscriptionType::ChannelChatMessage => "channel.chat.message"@,
            SubscriptionType::ChannelChatMessageDelete => "channel.chat.message_delete"@,
            SubscriptionType::ChannelChatNotification => "channel.chat.notification"@,
            SubscriptionType::ChannelChatSettingsUpdate => "channel.chat_settings.update"@,
            SubscriptionType::ChannelChatUserMessageHold => "channel.chat.user_message_hold"@,
            SubscriptionType::ChannelChatUserMessageUpdate => "channel.chat.user_message_update"@,
            SubscriptionType::ChannelSharedChatSessionBegin => "channel.shared_chat.begin"@,
            SubscriptionType::ChannelSharedChatSessionUpdate => "channel.shared_chat.update"@,
            SubscriptionType::ChannelSharedChatSessionEnd => "channel.shared_chat.end"@,
            SubscriptionType::ChannelSubscribe => "channel.subscribe"@,
            SubscriptionType::ChannelSubscriptionEnd => "channel.subscription.end"@,
            SubscriptionType::ChannelSubscriptionGift => "channel.subscription.gift"@,
            SubscriptionType::ChannelSubscriptionMessage => "channel.subscription.message"@,
            SubscriptionType::ChannelCheer => "channel.cheer"@,
            SubscriptionType::ChannelRaid => "channel.raid"@,
            SubscriptionType::ChannelBan => "channel.ban"@,
            SubscriptionType::ChannelUnban => "channel.unban"@,
            SubscriptionType::ChannelUnbanRequestCreate => "channel.unban_request.create"@,
            SubscriptionType::ChannelUnbanRequestResolve => "channel.unban_request.resolve"@,
            SubscriptionType::ChannelModerate => "channel.moderate"@,
            SubscriptionType::ChannelModerateV2 => "channel.moderate"@,
            SubscriptionType::ChannelModeratorAdd => "channel.moderator.add"@,
            SubscriptionType::ChannelModeratorRemove => "channel.moderator.remove"@,
            SubscriptionType::ChannelGuestStarSessionBegin => "channel.guest_star_session.begin"@,
            SubscriptionType::ChannelGuestStarSessionEnd => "channel.guest_star_session.end"@,
            SubscriptionType::ChannelGuestStarGuestUpdate => "channel.guest_star_guest.update"@,
            SubscriptionType::ChannelGuestStarSettingsUpdate => "channel.guest_star_settings.update"@,
            SubscriptionType::ChannelPointsAutomaticRewardRedemption => "channel.channel_points_automatic_reward_redemption.add"@,
            SubscriptionType::ChannelPointsCustomRewardAdd => "channel.channel_points_custom_reward.add"@,
            SubscriptionType::ChannelPointsCustomRewardUpdate => "channel.channel_points_custom_reward.update"@,
            SubscriptionType::ChannelPointsCustomRewardRemove => "channel.channel_points_custom_reward.remove"@,
            SubscriptionType::ChannelPointsCustomRewardRedemptionAdd => "channel.channel_points_custom_reward_redemption.add"@,
            SubscriptionType::ChannelPointsCustomRewardRedemptionUpdate => "channel.channel_points_custom_reward_redemption.update"@,
            SubscriptionType::ChannelPollBegin => "channel.poll.begin"@,
            SubscriptionType::ChannelPollProgress => "channel.poll.progress"@,
            SubscriptionType::ChannelPollEnd => "channel.poll.end"@,
            SubscriptionType::ChannelPredictionBegin => "channel.prediction.begin"@,
            SubscriptionType::ChannelPredictionProgress => "channel.prediction.progress"@,
            SubscriptionType::ChannelPredictionLock => "channel.prediction.lock"@,
            SubscriptionType::ChannelPredictionEnd => "channel.prediction.end"@,
            SubscriptionType::ChannelSuspiciousUserMessage => "channel.suspicious_user.message"@,
            SubscriptionType::ChannelSuspiciousUserUpdate => "channel.suspicious_user.update"@,
            SubscriptionType::ChannelVIPAdd => "channel.vip.add"@,
            SubscriptionType::ChannelVIPRemove => "channel.vip.remove"@,
            SubscriptionType::ChannelWarningAcknowledgement => "channel.warning.acknowledge"@,
            SubscriptionType::ChannelWarningSend => "channel.warning.send"@,
            SubscriptionType::CharityDonation => "channel.charity_campaign.donate"@,
            SubscriptionType::CharityCampaignStart => "channel.charity_campaign.start"@,
            SubscriptionType::CharityCampaignProgress => "channel.charity_campaign.progress"@,
            SubscriptionType::CharityCampaignStop => "channel.charity_campaign.stop"@,
            SubscriptionType::ConduitShardDisabled => "conduit.shard.disabled"@,
            SubscriptionType::DropEntitlementGrant => "drop.entitlement.grant"@,
            SubscriptionType::ExtensionBitsTransactionCreate => "extension.bits_transaction.create"@,
            SubscriptionType::GoalBegin => "channel.goal.begin"@,
            SubscriptionType::GoalProgress => "channel.goal.progress"@,
            SubscriptionType::GoalEnd => "channel.goal.end"@,
            SubscriptionType::HypeTrainBegin => "channel.hype_train.begin"@,
            SubscriptionType::HypeTrainProgress => "channel.hype_train.progress"@,
            SubscriptionType::HypeTrainEnd => "channel.hype_train.end"@,
            SubscriptionType::ShieldModeBegin => "channel.shield_mode.begin"@,
            SubscriptionType::ShieldModeEnd => "channel.shield_mode.end"@,
            SubscriptionType::ShoutoutCreate => "channel.shoutout.create"@,
            SubscriptionType::ShoutoutReceived => "channel.shoutout.receive"@,
            SubscriptionType::StreamOnline => "stream.online"@,
            SubscriptionType::StreamOffline => "stream.offline"@,
            SubscriptionType::UserAuthorizationGrant => "user.authorization.grant"@,
            SubscriptionType::UserAuthorizationRevoke => "user.authorization.revoke"@,
            SubscriptionType::UserUpdate => "user.update"@,
            SubscriptionType::WhisperReceived => "user.whisper.message"@,
            SubscriptionType::Unknown => "Unknown"@,
        }
    }

    /// Whether an earlier kind of the table has this kind's wire name, so
    /// that decoding the name yields that earlier kind.
    pub open spec fn is_shadowed(self) -> bool {
        self == SubscriptionType::AutomodMessageHoldV2 || self == SubscriptionType::AutomodMessageUpdateV2 || self == SubscriptionType::ChannelModerateV2
    }

    /// The mark of a kind's wire name: its length, its eleventh character
    /// and its fifth character from the end.
    pub open spec fn wire_mark(self) -> (int, char, char) {
        match self {
            SubscriptionType::AutomodMessageHold => (20, 's', '.'),
            SubscriptionType::AutomodMessageHoldV2 => (20, 's', '.'),
            SubscriptionType::AutomodMessageUpdate => (22, 's', 'p'),
            SubscriptionType::AutomodMessageUpdateV2 => (22, 's', 'p'),
            SubscriptionType::AutomodSettingsUpdate => (23, 't', 'p'),
            SubscriptionType::AutomodTermsUpdate => (20, 'r', 'p'),
            SubscriptionType::ChannelUpdate => (14, 'd', 'p'),
            SubscriptionType::ChannelFollow => (14, 'l', 'o'),
            SubscriptionType::ChannelAdBreakBegin => (22, '_', 'b'),
            SubscriptionType::ChannelChatClear => (18, 'a', 'c'),
            SubscriptionType::ChannelChatClearUserMessages => (32, 'a', 's'),
            SubscriptionType::ChannelChatMessage => (20, 'a', 's'),
            SubscriptionType::ChannelChatMessageDelete => (27, 'a', 'e'),
            SubscriptionType::ChannelChatNotification => (25, 'a', 'a'),
            SubscriptionType::ChannelChatSettingsUpdate => (28, 'a', 'p'),
            SubscriptionType::ChannelChatUserMessageHold => (30, 'a', '_'),
            SubscriptionType::ChannelChatUserMessageUpdate => (32, 'a', 'p'),
            SubscriptionType::ChannelSharedChatSessionBegin => (25, 'a', 'b'),
            SubscriptionType::ChannelSharedChatSessionUpdate => (26, 'a', 'p'),
            SubscriptionType::ChannelSharedChatSessionEnd => (23, 'a', 't'),
            SubscriptionType::ChannelSubscribe => (17, 'b', 'c'),
            SubscriptionType::ChannelSubscriptionEnd => (24, 'b', 'n'),
            SubscriptionType::ChannelSubscriptionGift => (25, 'b', '.'),
            SubscriptionType::ChannelSubscriptionMessage => (28, 'b', 's'),
            SubscriptionType::ChannelCheer => (13, 'e', 'c'),
            SubscriptionType::ChannelRaid => (12, 'i', '.'),
            SubscriptionType::ChannelBan => (11, 'n', 'l'),
            SubscriptionType::ChannelUnban => (13, 'b', 'u'),
            SubscriptionType::ChannelUnbanRequestCreate => (28, 'b', 'r'),
            SubscriptionType::ChannelUnbanRequestResolve => (29, 'b', 's'),
            SubscriptionType::ChannelModerate => (16, 'd', 'e'),
            SubscriptionType::ChannelModerateV2 => (16, 'd', 'e'),
            SubscriptionType::ChannelModeratorAdd => (21, 'd', 'r'),
            SubscriptionType::ChannelModeratorRemove => (24, 'd', 'e'),
            SubscriptionType::ChannelGuestStarSessionBegin => (32, 'e', 'b'),
            SubscriptionType::ChannelGuestStarSessionEnd => (30, 'e', 'n'),
            SubscriptionType::ChannelGuestStarGuestUpdate => (31, 'e', 'p'),
            SubscriptionType::ChannelGuestStarSettingsUpdate => (34, 'e', 'p'),
            SubscriptionType::ChannelPointsAutomaticRewardRedemption => (54, 'a', 'n'),
            SubscriptionType::ChannelPointsCustomRewardAdd => (40, 'a', 'd'),
            SubscriptionType::ChannelPointsCustomRewardUpdate => (43, 'a', 'p'),
            SubscriptionType::ChannelPointsCustomRewardRemove => (43, 'a', 'e'),
            SubscriptionType::ChannelPointsCustomRewardRedemptionAdd => (51, 'a', 'n'),
            SubscriptionType::ChannelPointsCustomRewardRedemptionUpdate => (54, 'a', 'p'),
            SubscriptionType::ChannelPollBegin => (18, 'l', 'b'),
            SubscriptionType::ChannelPollProgress => (21, 'l', 'g'),
            SubscriptionType::ChannelPollEnd => (16, 'l', 'l'),
            SubscriptionType::ChannelPredictionBegin => (24, 'e', 'b'),
            SubscriptionType::ChannelPredictionProgress => (27, 'e', 'g'),
            SubscriptionType::ChannelPredictionLock => (23, 'e', '.'),
            SubscriptionType::ChannelPredictionEnd => (22, 'e', 'n'),
            SubscriptionType::ChannelSuspiciousUserMessage => (31, 's', 's'),
            SubscriptionType::ChannelSuspiciousUserUpdate => (30, 's', 'p'),
            SubscriptionType::ChannelVIPAdd => (15, 'p', 'p'),
            SubscriptionType::ChannelVIPRemove => (18, 'p', 'e'),
            SubscriptionType::ChannelWarningAcknowledgement => (27, 'r', 'l'),
            SubscriptionType::ChannelWarningSend => (20, 'r', '.'),
            SubscriptionType::CharityDonation => (31, 'a', 'o'),
            SubscriptionType::CharityCampaignStart => (30, 'a', 's'),
            SubscriptionType::CharityCampaignProgress => (33, 'a', 'g'),
            SubscriptionType::CharityCampaignStop => (29, 'a', '.'),
            SubscriptionType::ConduitShardDisabled => (22, 'a', 'a'),
            SubscriptionType::DropEntitlementGrant => (22, 'l', 'g'),
            SubscriptionType::ExtensionBitsTransactionCreate => (33, 'b', 'r'),
            SubscriptionType::GoalBegin => (18, 'a', 'b'),
            SubscriptionType::GoalProgress => (21, 'a', 'g'),
            SubscriptionType::GoalEnd => (16, 'a', 'l'),
            SubscriptionType::HypeTrainBegin => (24, 'p', 'b'),
            SubscriptionType::HypeTrainProgress => (27, 'p', 'g'),
            SubscriptionType::HypeTrainEnd => (22, 'p', 'n'),
            SubscriptionType::ShieldModeBegin => (25, 'i', 'b'),
            SubscriptionType::ShieldModeEnd => (23, 'i', 'e'),
            SubscriptionType::ShoutoutCreate => (23, 'o', 'r'),
            SubscriptionType::ShoutoutReceived => (24, 'o', 'c'),
            SubscriptionType::StreamOnline => (13, 'i', 'n'),
            SubscriptionType::StreamOffline => (14, 'l', 'f'),
            SubscriptionType::UserAuthorizationGrant => (24, 'r', 'g'),
            SubscriptionType::UserAuthorizationRevoke => (25, 'r', 'e'),
            SubscriptionType::UserUpdate => (11, 'e', 'p'),
            SubscriptionType::WhisperReceived => (20, 'e', 's'),
            SubscriptionType::Unknown => (7, ' ', 'k'),
        }
    }

    /// The wire name of a kind, as bytes.
    pub open spec fn wire(self) -> Seq<u8> {
        encode_utf8(self.wire_chars())
    }

    /// The wire name of a kind.
    pub fn to_wire(&self) -> (name: &'static str)
        ensures
            name.spec_bytes() == self.wire(),
    {
        match self {
            SubscriptionType::AutomodMessageHold => "automod.message.hold",
            SubscriptionType::AutomodMessageHoldV2 => "automod.message.hold",
            SubscriptionType::AutomodMessageUpdate => "automod.message.update",
            SubscriptionType::AutomodMessageUpdateV2 => "automod.message.update",
            SubscriptionType::AutomodSettingsUpdate => "automod.settings.update",
            SubscriptionType::AutomodTermsUpdate => "automod.terms.update",
            SubscriptionType::ChannelUpdate => "channel.update",
            SubscriptionType::ChannelFollow => "channel.follow",
            SubscriptionType::ChannelAdBreakBegin => "channel.ad_break.begin",
            SubscriptionType::ChannelChatClear => "channel.chat.clear",
            SubscriptionType::ChannelChatClearUserMessages => "channel.chat.clear_user_messages",
            SubscriptionType::ChannelChatMessage => "channel.chat.message",
            SubscriptionType::ChannelChatMessageDelete => "channel.chat.message_delete",
            SubscriptionType::ChannelChatNotification => "channel.chat.notification",
            SubscriptionType::ChannelChatSettingsUpdate => "channel.chat_settings.update",
            SubscriptionType::ChannelChatUserMessageHold => "channel.chat.user_message_hold",
            SubscriptionType::ChannelChatUserMessageUpdate => "channel.chat.user_message_update",
            SubscriptionType::ChannelSharedChatSessionBegin => "channel.shared_chat.begin",
            SubscriptionType::ChannelSharedChatSessionUpdate => "channel.shared_chat.update",
            SubscriptionType::ChannelSharedChatSessionEnd => "channel.shared_chat.end",
            SubscriptionType::ChannelSubscribe => "channel.subscribe",
            SubscriptionType::ChannelSubscriptionEnd => "channel.subscription.end",
            SubscriptionType::ChannelSubscriptionGift => "channel.subscription.gift",
            SubscriptionType::ChannelSubscriptionMessage => "channel.subscription.message",
            SubscriptionType::ChannelCheer => "channel.cheer",
            SubscriptionType::ChannelRaid => "channel.raid",
            SubscriptionType::ChannelBan => "channel.ban",
            SubscriptionType::ChannelUnban => "channel.unban",
            SubscriptionType::ChannelUnbanRequestCreate => "channel.unban_request.create",
            SubscriptionType::ChannelUnbanRequestResolve => "channel.unban_request.resolve",
            SubscriptionType::ChannelModerate => "channel.moderate",
            SubscriptionType::ChannelModerateV2 => "channel.moderate",
            SubscriptionType::ChannelModeratorAdd => "channel.moderator.add",
            SubscriptionType::ChannelModeratorRemove => "channel.moderator.remove",
            SubscriptionType::ChannelGuestStarSessionBegin => "channel.guest_star_session.begin",
            SubscriptionType::ChannelGuestStarSessionEnd => "channel.guest_star_session.end",
            SubscriptionType::ChannelGuestStarGuestUpdate => "channel.guest_star_guest.update",
            SubscriptionType::ChannelGuestStarSettingsUpdate => "channel.guest_star_settings.update",
            SubscriptionType::ChannelPointsAutomaticRewardRedemption => "channel.channel_points_automatic_reward_redemption.add",
            SubscriptionType::ChannelPointsCustomRewardAdd => "channel.channel_points_custom_reward.add",
            SubscriptionType::ChannelPointsCustomRewardUpdate => "channel.channel_points_custom_reward.update",
            SubscriptionType::ChannelPointsCustomRewardRemove => "channel.channel_points_custom_reward.remove",
            SubscriptionType::ChannelPointsCustomRewardRedemptionAdd => "channel.channel_points_custom_reward_redemption.add",
            SubscriptionType::ChannelPointsCustomRewardRedemptionUpdate => "channel.channel_points_custom_reward_redemption.update",
            SubscriptionType::ChannelPollBegin => "channel.poll.begin",
            SubscriptionType::ChannelPollProgress => "channel.poll.progress",
            SubscriptionType::ChannelPollEnd => "channel.poll.end",
            SubscriptionType::ChannelPredictionBegin => "channel.prediction.begin",
            SubscriptionType::ChannelPredictionProgress => "channel.prediction.progress",
            SubscriptionType::ChannelPredictionLock => "channel.prediction.lock",
            SubscriptionType::ChannelPredictionEnd => "channel.prediction.end",
            SubscriptionType::ChannelSuspiciousUserMessage => "channel.suspicious_user.message",
            SubscriptionType::ChannelSuspiciousUserUpdate => "channel.suspicious_user.update",
            SubscriptionType::ChannelVIPAdd => "channel.vip.add",
            SubscriptionType::ChannelVIPRemove => "channel.vip.remove",
            SubscriptionType::ChannelWarningAcknowledgement => "channel.warning.acknowledge",
            SubscriptionType::ChannelWarningSend => "channel.warning.send",
            SubscriptionType::CharityDonation => "channel.charity_campaign.donate",
            SubscriptionType::CharityCampaignStart => "channel.charity_campaign.start",
            SubscriptionType::CharityCampaignProgress => "channel.charity_campaign.progress",
            SubscriptionType::CharityCampaignStop => "channel.charity_campaign.stop",
            SubscriptionType::ConduitShardDisabled => "conduit.shard.disabled",
            SubscriptionType::DropEntitlementGrant => "drop.entitlement.grant",
            SubscriptionType::ExtensionBitsTransactionCreate => "extension.bits_transaction.create",
            SubscriptionType::GoalBegin => "channel.goal.begin",
            SubscriptionType::GoalProgress => "channel.goal.progress",
            SubscriptionType::GoalEnd => "channel.goal.end",
            SubscriptionType::HypeTrainBegin => "channel.hype_train.begin",
            SubscriptionType::HypeTrainProgress => "channel.hype_train.progress",
            SubscriptionType::HypeTrainEnd => "channel.hype_train.end",
            SubscriptionType::ShieldModeBegin => "channel.shield_mode.begin",
            SubscriptionType::ShieldModeEnd => "channel.shield_mode.end",
            SubscriptionType::ShoutoutCreate => "channel.shoutout.create",
            SubscriptionType::ShoutoutReceived => "channel.shoutout.receive",
            SubscriptionType::StreamOnline => "stream.online",
            SubscriptionType::StreamOffline => "stream.offline",
            SubscriptionType::UserAuthorizationGrant => "user.authorization.grant",
            SubscriptionType::UserAuthorizationRevoke => "user.authorization.revoke",
            SubscriptionType::UserUpdate => "user.update",
            SubscriptionType::WhisperReceived => "user.whisper.message",
            SubscriptionType::Unknown => "Unknown",
        }
    }

    /// Decodes a wire name: the first kind of the table with that name, and
    /// `Unknown` for a name that the table does not hold. Decoding never fails.
    pub fn from_wire(name: &[u8]) -> (kind: SubscriptionType)
        ensures
            kind == decoded(name@),
    {
        let table = known_table();
        let mut i: usize = 0;
        while i < table.len()
            invariant
                i <= table.len(),
                table@ == known_types(),
                first_named(known_types(), name@, 0) == first_named(known_types(), name@, i as int),
            decreases table.len() - i,
        {
            let candidate = table[i];
            if is_text(name, candidate.to_wire()) {
                return candidate;
            }
            i += 1;
        }
        SubscriptionType::Unknown
    }
}

/// The table of kinds, in decoding order. Where two kinds share a wire name,
/// decoding yields the earlier one.
pub open spec fn known_types() -> Seq<SubscriptionType> {
    seq![
        SubscriptionType::AutomodMessageHold,
        SubscriptionType::AutomodMessageHoldV2,
        SubscriptionType::AutomodMessageUpdate,
        SubscriptionType::AutomodMessageUpdateV2,
        SubscriptionType::AutomodSettingsUpdate,
        SubscriptionType::AutomodTermsUpdate,
        SubscriptionType::ChannelUpdate,
        SubscriptionType::ChannelFollow,
        SubscriptionType::ChannelAdBreakBegin,
        SubscriptionType::ChannelChatClear,
        SubscriptionType::ChannelChatClearUserMessages,
        SubscriptionType::ChannelChatMessage,
        SubscriptionType::ChannelChatMessageDelete,
        SubscriptionType::ChannelChatNotification,
        SubscriptionType::ChannelChatSettingsUpdate,
        SubscriptionType::ChannelChatUserMessageHold,
        SubscriptionType::ChannelChatUserMessageUpdate,
        SubscriptionType::ChannelSharedChatSessionBegin,
        SubscriptionType::ChannelSharedChatSessionUpdate,
        SubscriptionType::ChannelSharedChatSessionEnd,
        SubscriptionType::ChannelSubscribe,
        SubscriptionType::ChannelSubscriptionEnd,
        SubscriptionType::ChannelSubscriptionGift,
        SubscriptionType::ChannelSubscriptionMessage,
        SubscriptionType::ChannelCheer,
        SubscriptionType::ChannelRaid,
        SubscriptionType::ChannelBan,
        SubscriptionType::ChannelUnban,
        SubscriptionType::ChannelUnbanRequestCreate,
        SubscriptionType::ChannelUnbanRequestResolve,
        SubscriptionType::ChannelModerate,
        SubscriptionType::ChannelModerateV2,
        SubscriptionType::ChannelModeratorAdd,
        SubscriptionType::ChannelModeratorRemove,
        SubscriptionType::ChannelGuestStarSessionBegin,
        SubscriptionType::ChannelGuestStarSessionEnd,
        SubscriptionType::ChannelGuestStarGuestUpdate,
        SubscriptionType::ChannelGuestStarSettingsUpdate,
        SubscriptionType::ChannelPointsAutomaticRewardRedemption,
        SubscriptionType::ChannelPointsCustomRewardAdd,
        SubscriptionType::ChannelPointsCustomRewardUpdate,
        SubscriptionType::ChannelPointsCustomRewardRemove,
        SubscriptionType::ChannelPointsCustomRewardRedemptionAdd,
        SubscriptionType::ChannelPointsCustomRewardRedemptionUpdate,
        SubscriptionType::ChannelPollBegin,
        SubscriptionType::ChannelPollProgress,
        SubscriptionType::ChannelPollEnd,
        SubscriptionType::ChannelPredictionBegin,
        SubscriptionType::ChannelPredictionProgress,
        SubscriptionType::ChannelPredictionLock,
        SubscriptionType::ChannelPredictionEnd,
        SubscriptionType::ChannelSuspiciousUserMessage,
        SubscriptionType::ChannelSuspiciousUserUpdate,
        SubscriptionType::ChannelVIPAdd,
        SubscriptionType::ChannelVIPRemove,
        SubscriptionType::ChannelWarningAcknowledgement,
        SubscriptionType::ChannelWarningSend,
        SubscriptionType::CharityDonation,
        SubscriptionType::CharityCampaignStart,
        SubscriptionType::CharityCampaignProgress,
        SubscriptionType::CharityCampaignStop,
        SubscriptionType::ConduitShardDisabled,
        SubscriptionType::DropEntitlementGrant,
        SubscriptionType::ExtensionBitsTransactionCreate,
        SubscriptionType::GoalBegin,
        SubscriptionType::GoalProgress,
        SubscriptionType::GoalEnd,
        SubscriptionType::HypeTrainBegin,
        SubscriptionType::HypeTrainProgress,
        SubscriptionType::HypeTrainEnd,
        SubscriptionType::ShieldModeBegin,
        SubscriptionType::ShieldModeEnd,
        SubscriptionType::ShoutoutCreate,
        SubscriptionType::ShoutoutReceived,
        SubscriptionType::StreamOnline,
        SubscriptionType::StreamOffline,
        SubscriptionType::UserAuthorizationGrant,
        SubscriptionType::UserAuthorizationRevoke,
        SubscriptionType::UserUpdate,
        SubscriptionType::WhisperReceived,
    ]
}

/// The table of kinds as a vector.
pub fn known_table() -> (table: Vec<SubscriptionType>)
    ensures
        table@ == known_types(),
{
    let table = vec![
        SubscriptionType::AutomodMessageHold,
        SubscriptionType::AutomodMessageHoldV2,
        SubscriptionType::AutomodMessageUpdate,
        SubscriptionType::AutomodMessageUpdateV2,
        SubscriptionType::AutomodSettingsUpdate,
        SubscriptionType::AutomodTermsUpdate,
        SubscriptionType::ChannelUpdate,
        SubscriptionType::ChannelFollow,
        SubscriptionType::ChannelAdBreakBegin,
        SubscriptionType::ChannelChatClear,
        SubscriptionType::ChannelChatClearUserMessages,
        SubscriptionType::ChannelChatMessage,
        SubscriptionType::ChannelChatMessageDelete,
        SubscriptionType::ChannelChatNotification,
        SubscriptionType::ChannelChatSettingsUpdate,
        SubscriptionType::ChannelChatUserMessageHold,
        SubscriptionType::ChannelChatUserMessageUpdate,
        SubscriptionType::ChannelSharedChatSessionBegin,
        SubscriptionType::ChannelSharedChatSessionUpdate,
        SubscriptionType::ChannelSharedChatSessionEnd,
        SubscriptionType::ChannelSubscribe,
        SubscriptionType::ChannelSubscriptionEnd,
        SubscriptionType::ChannelSubscriptionGift,
        SubscriptionType::ChannelSubscriptionMessage,
        SubscriptionType::ChannelCheer,
        SubscriptionType::ChannelRaid,
        SubscriptionType::ChannelBan,
        SubscriptionType::ChannelUnban,
        SubscriptionType::ChannelUnbanRequestCreate,
        SubscriptionType::ChannelUnbanRequestResolve,
        SubscriptionType::ChannelModerate,
        SubscriptionType::ChannelModerateV2,
        SubscriptionType::ChannelModeratorAdd,
        SubscriptionType::ChannelModeratorRemove,
        SubscriptionType::ChannelGuestStarSessionBegin,
        SubscriptionType::ChannelGuestStarSessionEnd,
        SubscriptionType::ChannelGuestStarGuestUpdate,
        SubscriptionType::ChannelGuestStarSettingsUpdate,
        SubscriptionType::ChannelPointsAutomaticRewardRedemption,
        SubscriptionType::ChannelPointsCustomRewardAdd,
        SubscriptionType::ChannelPointsCustomRewardUpdate,
        SubscriptionType::ChannelPointsCustomRewardRemove,
        SubscriptionType::ChannelPointsCustomRewardRedemptionAdd,
        SubscriptionType::ChannelPointsCustomRewardRedemptionUpdate,
        SubscriptionType::ChannelPollBegin,
        SubscriptionType::ChannelPollProgress,
        SubscriptionType::ChannelPollEnd,
        SubscriptionType::ChannelPredictionBegin,
        SubscriptionType::ChannelPredictionProgress,
        SubscriptionType::ChannelPredictionLock,
        SubscriptionType::ChannelPredictionEnd,
        SubscriptionType::ChannelSuspiciousUserMessage,
        SubscriptionType::ChannelSuspiciousUserUpdate,
        SubscriptionType::ChannelVIPAdd,
        SubscriptionType::ChannelVIPRemove,
        SubscriptionType::ChannelWarningAcknowledgement,
        SubscriptionType::ChannelWarningSend,
        SubscriptionType::CharityDonation,
        SubscriptionType::CharityCampaignStart,
        SubscriptionType::CharityCampaignProgress,
        SubscriptionType::CharityCampaignStop,
        SubscriptionType::ConduitShardDisabled,
        SubscriptionType::DropEntitlementGrant,
        SubscriptionType::ExtensionBitsTransactionCreate,
        SubscriptionType::GoalBegin,
        SubscriptionType::GoalProgress,
        SubscriptionType::GoalEnd,
        SubscriptionType::HypeTrainBegin,
        SubscriptionType::HypeTrainProgress,
        SubscriptionType::HypeTrainEnd,
        SubscriptionType::ShieldModeBegin,
        SubscriptionType::ShieldModeEnd,
        SubscriptionType::ShoutoutCreate,
        SubscriptionType::ShoutoutReceived,
        SubscriptionType::StreamOnline,
        SubscriptionType::StreamOffline,
        SubscriptionType::UserAuthorizationGrant,
        SubscriptionType::UserAuthorizationRevoke,
        SubscriptionType::UserUpdate,
        SubscriptionType::WhisperReceived,
    ];
    assert(table@ =~= known_types());
    table
}

/// The first kind at or after `from` in `table` whose wire name is `name`,
/// or `Unknown`.
pub open spec fn first_named(table: Seq<SubscriptionType>, name: Seq<u8>, from: int) -> SubscriptionType
    decreases table.len() - from,
{
    if from < 0 || from >= table.len() {
        SubscriptionType::Unknown
    } else if table[from].wire() == name {
        table[from]
    } else {
        first_named(table, name, from + 1)
    }
}

/// What a wire name decodes to.
pub open spec fn decoded(name: Seq<u8>) -> SubscriptionType {
    first_named(known_types(), name, 0)
}

/// The position of a kind in the table.
pub open spec fn table_index(kind: SubscriptionType) -> int {
    match kind {
        SubscriptionType::AutomodMessageHold => 0,
        SubscriptionType::AutomodMessageHoldV2 => 1,
        SubscriptionType::AutomodMessageUpdate => 2,
        SubscriptionType::AutomodMessageUpdateV2 => 3,
        SubscriptionType::AutomodSettingsUpdate => 4,
        SubscriptionType::AutomodTermsUpdate => 5,
        SubscriptionType::ChannelUpdate => 6,
        SubscriptionType::ChannelFollow => 7,
        SubscriptionType::ChannelAdBreakBegin => 8,
        SubscriptionType::ChannelChatClear => 9,
        SubscriptionType::ChannelChatClearUserMessages => 10,
        SubscriptionType::ChannelChatMessage => 11,
        SubscriptionType::ChannelChatMessageDelete => 12,
        SubscriptionType::ChannelChatNotification => 13,
        SubscriptionType::ChannelChatSettingsUpdate => 14,
        SubscriptionType::ChannelChatUserMessageHold => 15,
        SubscriptionType::ChannelChatUserMessageUpdate => 16,
        SubscriptionType::ChannelSharedChatSessionBegin => 17,
        SubscriptionType::ChannelSharedChatSessionUpdate => 18,
        SubscriptionType::ChannelSharedChatSessionEnd => 19,
        SubscriptionType::ChannelSubscribe => 20,
        SubscriptionType::ChannelSubscriptionEnd => 21,
        SubscriptionType::ChannelSubscriptionGift => 22,
        SubscriptionType::ChannelSubscriptionMessage => 23,
        SubscriptionType::ChannelCheer => 24,
        SubscriptionType::ChannelRaid => 25,
        SubscriptionType::ChannelBan => 26,
        SubscriptionType::ChannelUnban => 27,
        SubscriptionType::ChannelUnbanRequestCreate => 28,
        SubscriptionType::ChannelUnbanRequestResolve => 29,
        SubscriptionType::ChannelModerate => 30,
        SubscriptionType::ChannelModerateV2 => 31,
        SubscriptionType::ChannelModeratorAdd => 32,
        SubscriptionType::ChannelModeratorRemove => 33,
        SubscriptionType::ChannelGuestStarSessionBegin => 34,
        SubscriptionType::ChannelGuestStarSessionEnd => 35,
        SubscriptionType::ChannelGuestStarGuestUpdate => 36,
        SubscriptionType::ChannelGuestStarSettingsUpdate => 37,
        SubscriptionType::ChannelPointsAutomaticRewardRedemption => 38,
        SubscriptionType::ChannelPointsCustomRewardAdd => 39,
        SubscriptionType::ChannelPointsCustomRewardUpdate => 40,
        SubscriptionType::ChannelPointsCustomRewardRemove => 41,
        SubscriptionType::ChannelPointsCustomRewardRedemptionAdd => 42,
        SubscriptionType::ChannelPointsCustomRewardRedemptionUpdate => 43,
        SubscriptionType::ChannelPollBegin => 44,
        SubscriptionType::ChannelPollProgress => 45,
        SubscriptionType::ChannelPollEnd => 46,
        SubscriptionType::ChannelPredictionBegin => 47,
        SubscriptionType::ChannelPredictionProgress => 48,
        SubscriptionType::ChannelPredictionLock => 49,
        SubscriptionType::ChannelPredictionEnd => 50,
        SubscriptionType::ChannelSuspiciousUserMessage => 51,
        SubscriptionType::ChannelSuspiciousUserUpdate => 52,
        SubscriptionType::ChannelVIPAdd => 53,
        SubscriptionType::ChannelVIPRemove => 54,
        SubscriptionType::ChannelWarningAcknowledgement => 55,
        SubscriptionType::ChannelWarningSend => 56,
        SubscriptionType::CharityDonation => 57,
        SubscriptionType::CharityCampaignStart => 58,
        SubscriptionType::CharityCampaignProgress => 59,
        SubscriptionType::CharityCampaignStop => 60,
        SubscriptionType::ConduitShardDisabled => 61,
        SubscriptionType::DropEntitlementGrant => 62,
        SubscriptionType::ExtensionBitsTransactionCreate => 63,
        SubscriptionType::GoalBegin => 64,
        SubscriptionType::GoalProgress => 65,
        SubscriptionType::GoalEnd => 66,
        SubscriptionType::HypeTrainBegin => 67,
        SubscriptionType::HypeTrainProgress => 68,
        SubscriptionType::HypeTrainEnd => 69,
        SubscriptionType::ShieldModeBegin => 70,
        SubscriptionType::ShieldModeEnd => 71,
        SubscriptionType::ShoutoutCreate => 72,
        SubscriptionType::ShoutoutReceived => 73,
        SubscriptionType::StreamOnline => 74,
        SubscriptionType::StreamOffline => 75,
        SubscriptionType::UserAuthorizationGrant => 76,
        SubscriptionType::UserAuthorizationRevoke => 77,
        SubscriptionType::UserUpdate => 78,
        SubscriptionType::WhisperReceived => 79,
        SubscriptionType::Unknown => 80,
    }
}

/// Every kind but `Unknown` stands in the table, at its index.
pub proof fn table_holds_every_kind(kind: SubscriptionType)
    requires
        kind != SubscriptionType::Unknown,
    ensures
        0 <= table_index(kind) < known_types().len(),
        known_types()[table_index(kind)] == kind,
{
}

/// The table does not hold `Unknown`.
pub proof fn table_lacks_unknown()
    ensures
        forall|i: int| 0 <= i < known_types().len() ==> known_types()[i] != SubscriptionType::Unknown,
{
}

/// A search that starts at or before an entry with the wanted name finds a
/// kind with that name.
pub proof fn first_named_finds(table: Seq<SubscriptionType>, name: Seq<u8>, from: int, at: int)
    requires
        0 <= from <= at < table.len(),
        table[at].wire() == name,
        forall|i: int| 0 <= i < table.len() ==> table[i] != SubscriptionType::Unknown,
    ensures
        first_named(table, name, from) != SubscriptionType::Unknown,
        first_named(table, name, from).wire() == name,
    decreases at - from,
{
    if table[from].wire() != name {
        first_named_finds(table, name, from + 1, at);
    }
}

/// A decoded kind other than `Unknown` has the decoded name as its wire name.
pub proof fn decoded_has_name(table: Seq<SubscriptionType>, name: Seq<u8>, from: int)
    requires
        0 <= from,
    ensures
        first_named(table, name, from) != SubscriptionType::Unknown ==> first_named(
            table,
            name,
            from,
        ).wire() == name,
    decreases table.len() - from,
{
    if from < table.len() && table[from].wire() != name {
        decoded_has_name(table, name, from + 1);
    }
}

/// A name that no kind of the table has decodes to `Unknown`.
pub proof fn unlisted_decodes_to_unknown(table: Seq<SubscriptionType>, name: Seq<u8>, from: int)
    requires
        0 <= from,
        forall|i: int| 0 <= i < table.len() ==> table[i].wire() != name,
    ensures
        first_named(table, name, from) == SubscriptionType::Unknown,
    decreases table.len() - from,
{
    if from < table.len() {
        unlisted_decodes_to_unknown(table, name, from + 1);
    }
}

/// Encoding a kind and decoding the result gives a kind with the same wire
/// name, never `Unknown`; decoding any name gives `Unknown` or a kind that
/// encodes to that name again; and a name that the table lacks decodes to
/// `Unknown`.
pub proof fn wire_round_trip(kind: SubscriptionType, name: Seq<u8>)
    ensures
        kind != SubscriptionType::Unknown ==> decoded(kind.wire()) != SubscriptionType::Unknown
            && decoded(kind.wire()).wire() == kind.wire(),
        decoded(name) != SubscriptionType::Unknown ==> decoded(name).wire() == name,
        (forall|i: int| 0 <= i < known_types().len() ==> known_types()[i].wire() != name)
            ==> decoded(name) == SubscriptionType::Unknown,
{
    decoded_has_name(known_types(), name, 0);
    if forall|i: int| 0 <= i < known_types().len() ==> known_types()[i].wire() != name {
        unlisted_decodes_to_unknown(known_types(), name, 0);
    }
    if kind != SubscriptionType::Unknown {
        table_holds_every_kind(kind);
        table_lacks_unknown();
        first_named_finds(known_types(), kind.wire(), 0, table_index(kind));
    }
}


/// The mark of a name: its length, its eleventh character and its fifth
/// character from the end, with a space where the name is too short.
pub open spec fn mark_of(name: Seq<char>) -> (int, char, char) {
    (
        name.len() as int,
        if name.len() > 10 {
            name[10]
        } else {
            ' '
        },
        if name.len() >= 5 {
            name[name.len() - 5]
        } else {
            ' '
        },
    )
}

/// Every kind's wire name has the mark that the table of marks gives it.
pub proof fn wire_has_its_mark(kind: SubscriptionType)
    ensures
        mark_of(kind.wire_chars()) == kind.wire_mark(),
{
    match kind {
        SubscriptionType::AutomodMessageHold => {
            reveal_strlit("automod.message.hold");
        },
        SubscriptionType::AutomodMessageHoldV2 => {
            reveal_strlit("automod.message.hold");
        },
        SubscriptionType::AutomodMessageUpdate => {
            reveal_strlit("automod.message.update");
        },
        SubscriptionType::AutomodMessageUpdateV2 => {
            reveal_strlit("automod.message.update");
        },
        SubscriptionType::AutomodSettingsUpdate => {
            reveal_strlit("automod.settings.update");
        },
        SubscriptionType::AutomodTermsUpdate => {
            reveal_strlit("automod.terms.update");
        },
        SubscriptionType::ChannelUpdate => {
            reveal_strlit("channel.update");
        },
        SubscriptionType::ChannelFollow => {
            reveal_strlit("channel.follow");
        },
        SubscriptionType::ChannelAdBreakBegin => {
            reveal_strlit("channel.ad_break.begin");
        },
        SubscriptionType::ChannelChatClear => {
            reveal_strlit("channel.chat.clear");
        },
        SubscriptionType::ChannelChatClearUserMessages => {
            reveal_strlit("channel.chat.clear_user_messages");
        },
        SubscriptionType::ChannelChatMessage => {
            reveal_strlit("channel.chat.message");
        },
        SubscriptionType::ChannelChatMessageDelete => {
            reveal_strlit("channel.chat.message_delete");
        },
        SubscriptionType::ChannelChatNotification => {
            reveal_strlit("channel.chat.notification");
        },
        SubscriptionType::ChannelChatSettingsUpdate => {
            reveal_strlit("channel.chat_settings.update");
        },
        SubscriptionType::ChannelChatUserMessageHold => {
            reveal_strlit("channel.chat.user_message_hold");
        },
        SubscriptionType::ChannelChatUserMessageUpdate => {
            reveal_strlit("channel.chat.user_message_update");
        },
        SubscriptionType::ChannelSharedChatSessionBegin => {
            reveal_strlit("channel.shared_chat.begin");
        },
        SubscriptionType::ChannelSharedChatSessionUpdate => {
            reveal_strlit("channel.shared_chat.update");
        },
        SubscriptionType::ChannelSharedChatSessionEnd => {
            reveal_strlit("channel.shared_chat.end");
        },
        SubscriptionType::ChannelSubscribe => {
            reveal_strlit("channel.subscribe");
        },
        SubscriptionType::ChannelSubscriptionEnd => {
            reveal_strlit("channel.subscription.end");
        },
        SubscriptionType::ChannelSubscriptionGift => {
            reveal_strlit("channel.subscription.gift");
        },
        SubscriptionType::ChannelSubscriptionMessage => {
            reveal_strlit("channel.subscription.message");
        },
        SubscriptionType::ChannelCheer => {
            reveal_strlit("channel.cheer");
        },
        SubscriptionType::ChannelRaid => {
            reveal_strlit("channel.raid");
        },
        SubscriptionType::ChannelBan => {
            reveal_strlit("channel.ban");
        },
        SubscriptionType::ChannelUnban => {
            reveal_strlit("channel.unban");
        },
        SubscriptionType::ChannelUnbanRequestCreate => {
            reveal_strlit("channel.unban_request.create");
        },
        SubscriptionType::ChannelUnbanRequestResolve => {
            reveal_strlit("channel.unban_request.resolve");
        },
        SubscriptionType::ChannelModerate => {
            reveal_strlit("channel.moderate");
        },
        SubscriptionType::ChannelModerateV2 => {
            reveal_strlit("channel.moderate");
        },
        SubscriptionType::ChannelModeratorAdd => {
            reveal_strlit("channel.moderator.add");
        },
        SubscriptionType::ChannelModeratorRemove => {
            reveal_strlit("channel.moderator.remove");
        },
        SubscriptionType::ChannelGuestStarSessionBegin => {
            reveal_strlit("channel.guest_star_session.begin");
        },
        SubscriptionType::ChannelGuestStarSessionEnd => {
            reveal_strlit("channel.guest_star_session.end");
        },
        SubscriptionType::ChannelGuestStarGuestUpdate => {
            reveal_strlit("channel.guest_star_guest.update");
        },
        SubscriptionType::ChannelGuestStarSettingsUpdate => {
            reveal_strlit("channel.guest_star_settings.update");
        },
        SubscriptionType::ChannelPointsAutomaticRewardRedemption => {
            reveal_strlit("channel.channel_points_automatic_reward_redemption.add");
        },
        SubscriptionType::ChannelPointsCustomRewardAdd => {
            reveal_strlit("channel.channel_points_custom_reward.add");
        },
        SubscriptionType::ChannelPointsCustomRewardUpdate => {
            reveal_strlit("channel.channel_points_custom_reward.update");
        },
        SubscriptionType::ChannelPointsCustomRewardRemove => {
            reveal_strlit("channel.channel_points_custom_reward.remove");
        },
        SubscriptionType::ChannelPointsCustomRewardRedemptionAdd => {
            reveal_strlit("channel.channel_points_custom_reward_redemption.add");
        },
        SubscriptionType::ChannelPointsCustomRewardRedemptionUpdate => {
            reveal_strlit("channel.channel_points_custom_reward_redemption.update");
        },
        SubscriptionType::ChannelPollBegin => {
            reveal_strlit("channel.poll.begin");
        },
        SubscriptionType::ChannelPollProgress => {
            reveal_strlit("channel.poll.progress");
        },
        SubscriptionType::ChannelPollEnd => {
            reveal_strlit("channel.poll.end");
        },
        SubscriptionType::ChannelPredictionBegin => {
            reveal_strlit("channel.prediction.begin");
        },
        SubscriptionType::ChannelPredictionProgress => {
            reveal_strlit("channel.prediction.progress");
        },
        SubscriptionType::ChannelPredictionLock => {
            reveal_strlit("channel.prediction.lock");
        },
        SubscriptionType::ChannelPredictionEnd => {
            reveal_strlit("channel.prediction.end");
        },
        SubscriptionType::ChannelSuspiciousUserMessage => {
            reveal_strlit("channel.suspicious_user.message");
        },
        SubscriptionType::ChannelSuspiciousUserUpdate => {
            reveal_strlit("channel.suspicious_user.update");
        },
        SubscriptionType::ChannelVIPAdd => {
            reveal_strlit("channel.vip.add");
        },
        SubscriptionType::ChannelVIPRemove => {
            reveal_strlit("channel.vip.remove");
        },
        SubscriptionType::ChannelWarningAcknowledgement => {
            reveal_strlit("channel.warning.acknowledge");
        },
        SubscriptionType::ChannelWarningSend => {
            reveal_strlit("channel.warning.send");
        },
        SubscriptionType::CharityDonation => {
            reveal_strlit("channel.charity_campaign.donate");
        },
        SubscriptionType::CharityCampaignStart => {
            reveal_strlit("channel.charity_campaign.start");
        },
        SubscriptionType::CharityCampaignProgress => {
            reveal_strlit("channel.charity_campaign.progress");
        },
        SubscriptionType::CharityCampaignStop => {
            reveal_strlit("channel.charity_campaign.stop");
        },
        SubscriptionType::ConduitShardDisabled => {
            reveal_strlit("conduit.shard.disabled");
        },
        SubscriptionType::DropEntitlementGrant => {
            reveal_strlit("drop.entitlement.grant");
        },
        SubscriptionType::ExtensionBitsTransactionCreate => {
            reveal_strlit("extension.bits_transaction.create");
        },
        SubscriptionType::GoalBegin => {
            reveal_strlit("channel.goal.begin");
        },
        SubscriptionType::GoalProgress => {
            reveal_strlit("channel.goal.progress");
        },
        SubscriptionType::GoalEnd => {
            reveal_strlit("channel.goal.end");
        },
        SubscriptionType::HypeTrainBegin => {
            reveal_strlit("channel.hype_train.begin");
        },
        SubscriptionType::HypeTrainProgress => {
            reveal_strlit("channel.hype_train.progress");
        },
        SubscriptionType::HypeTrainEnd => {
            reveal_strlit("channel.hype_train.end");
        },
        SubscriptionType::ShieldModeBegin => {
            reveal_strlit("channel.shield_mode.begin");
        },
        SubscriptionType::ShieldModeEnd => {
            reveal_strlit("channel.shield_mode.end");
        },
        SubscriptionType::ShoutoutCreate => {
            reveal_strlit("channel.shoutout.create");
        },
        SubscriptionType::ShoutoutReceived => {
            reveal_strlit("channel.shoutout.receive");
        },
        SubscriptionType::StreamOnline => {
            reveal_strlit("stream.online");
        },
        SubscriptionType::StreamOffline => {
            reveal_strlit("stream.offline");
        },
        SubscriptionType::UserAuthorizationGrant => {
            reveal_strlit("user.authorization.grant");
        },
        SubscriptionType::UserAuthorizationRevoke => {
            reveal_strlit("user.authorization.revoke");
        },
        SubscriptionType::UserUpdate => {
            reveal_strlit("user.update");
        },
        SubscriptionType::WhisperReceived => {
            reveal_strlit("user.whisper.message");
        },
        SubscriptionType::Unknown => {
            reveal_strlit("Unknown");
        },
    }
}

/// Two kinds with different marks have different wire names.
pub proof fn marks_tell_names_apart(a: SubscriptionType, b: SubscriptionType)
    requires
        a.wire_mark() != b.wire_mark(),
    ensures
        a.wire() != b.wire(),
{
    wire_has_its_mark(a);
    wire_has_its_mark(b);
    encode_utf8_decode_utf8(a.wire_chars());
    encode_utf8_decode_utf8(b.wire_chars());
}

/// A search from the start of the table that meets no entry with the wanted
/// name before index `at`, and one with it at `at`, yields that entry.
pub proof fn first_named_is(table: Seq<SubscriptionType>, name: Seq<u8>, from: int, at: int)
    requires
        0 <= from <= at < table.len(),
        table[at].wire() == name,
        forall|j: int| from <= j < at ==> (#[trigger] table[j]).wire() != name,
    ensures
        first_named(table, name, from) == table[at],
    decreases at - from,
{
    if from < at {
        first_named_is(table, name, from + 1, at);
    }
}

/// Before a kind's place in the table no kind has its mark.
pub proof fn marks_are_new(kind: SubscriptionType, j: int)
    requires
        kind != SubscriptionType::Unknown,
        !kind.is_shadowed(),
        0 <= j < table_index(kind),
    ensures
        known_types()[j].wire_mark() != kind.wire_mark(),
{
}

/// Encoding then decoding gives the kind back: for every kind but
/// `Unknown` and the kinds whose wire name an earlier kind of the table
/// has, decoding its wire name yields the kind itself.
pub proof fn decoding_inverts_encoding(kind: SubscriptionType)
    requires
        kind != SubscriptionType::Unknown,
        !kind.is_shadowed(),
    ensures
        decoded(kind.wire()) == kind,
{
    table_holds_every_kind(kind);
    let at = table_index(kind);
    assert forall|j: int| 0 <= j < at implies (#[trigger] known_types()[j]).wire() != kind.wire() by {
        marks_are_new(kind, j);
        marks_tell_names_apart(known_types()[j], kind);
    }
    first_named_is(known_types(), kind.wire(), 0, at);
}

} // verus!
