use sergeant::api::{get_user, TwitchApiResponse, User};
use sergeant::channel::ChannelMessages;
use sergeant::deserialization::{
    Condition, Fragment, FragmentType, KeepAliveMetadata, KeepAlivePayload, Message, MessageTypes,
    Messages, MethodType, NotificationEvent, NotificationMetadata, NotificationPayload,
    NotificationPayloadSubscription, ReconnectMetadata, ReconnectPayload, ReconnectPayloadSession,
    RevocationMetadata, RevocationPayload, Reward, Transport, WelcomeMetadata, WelcomePayload,
    WelcomePayloadSession,
};
use sergeant::eventsub::{
    create_subscriptions, desired_subscriptions, frame_event, get_condition,
    get_eventsub_subscription, listen, start_eventsub, Action, Client, Event,
};
use sergeant::notice_type::NoticeType;
use sergeant::notifications::{
    handle_notification, refund_points, reward_command, reward_fulfilled, settle, settlement_for,
    ActionOutcome, RewardRedemption, Routed, SettlementStatus,
};
use sergeant::subscription_type::{known_table, SubscriptionType};

const SOCKET: &str = "wss://eventsub.wss.twitch.tv:443/ws?keepalive_timeout_seconds=30";

fn b(s: &str) -> Vec<u8> {
    s.as_bytes().to_vec()
}

fn session(id: &str) -> WelcomePayloadSession {
    WelcomePayloadSession {
        id: b(id),
        status: b("connected"),
        keepalive_timeout_seconds: 30,
        connected_at: b("2024-01-01T00:00:00Z"),
        reconnect_url: None,
        recovery_url: None,
    }
}

fn welcome(id: &str) -> Event {
    Event::Frame {
        message: Messages::Welcome {
            metadata: WelcomeMetadata {
                message_id: b("m1"),
                message_type: MessageTypes::SessionWelcome,
                message_timestamp: b("t"),
            },
            payload: WelcomePayload { session: session(id) },
        },
    }
}

fn reconnect(url: Option<&str>) -> Event {
    Event::Frame {
        message: Messages::Reconnect {
            metadata: ReconnectMetadata {
                message_id: b("m2"),
                message_type: MessageTypes::SessionReconnect,
                message_timestamp: b("t"),
            },
            payload: ReconnectPayload {
                session: ReconnectPayloadSession {
                    id: b("old"),
                    status: b("reconnecting"),
                    keepalive_timeout_seconds: 30,
                    reconnect_url: url.map(b),
                    recovery_url: None,
                    connected_at: b("t"),
                },
            },
        },
    }
}

fn condition() -> Condition {
    Condition {
        to_broadcaster_user_id: None,
        broadcaster_user_id: Some(b("42")),
        moderator_user_id: None,
        user_id: Some(b("42")),
        reward_id: None,
        client_id: None,
        organization_id: None,
        category_id: None,
        campaign_id: None,
        extension_client_id: None,
    }
}

fn metadata(kind: SubscriptionType) -> NotificationMetadata {
    NotificationMetadata {
        message_id: b("n1"),
        message_type: MessageTypes::Notification,
        message_timestamp: b("t"),
        subscription_type: kind,
        subscription_version: b("1"),
    }
}

fn payload(kind: SubscriptionType, event: NotificationEvent) -> NotificationPayload {
    NotificationPayload {
        subscription: NotificationPayloadSubscription {
            id: b("s1"),
            status: b("enabled"),
            kind,
            version: b("1"),
            cost: 0,
            condition: condition(),
            transport: Transport { method: MethodType::WebSocket, session_id: b("abc") },
            created_at: b("t"),
        },
        event,
    }
}

fn ad_break(seconds: usize) -> NotificationEvent {
    NotificationEvent::ChannelAdBreak {
        duration_seconds: seconds,
        started_at: b("t"),
        is_automatic: false,
        broadcaster_user_id: b("42"),
        broadcaster_user_login: b("ann"),
        broadcaster_user_name: b("Ann"),
        requester_user_id: b("42"),
        requester_user_login: b("ann"),
        requester_user_name: b("Ann"),
    }
}

fn redemption_event(status: &str, input: &str) -> NotificationEvent {
    NotificationEvent::ChannelPointsCustomRewardRedemptionAdd {
        id: b("red-1"),
        broadcaster_user_id: b("42"),
        broadcaster_user_login: b("ann"),
        broadcaster_user_name: b("Ann"),
        user_id: b("7"),
        user_login: b("bob"),
        user_name: b("Bob"),
        user_input: b(input),
        status: b(status),
        reward: Reward { id: b("rew-9"), title: b("Hydrate"), cost: 150, prompt: b("drink") },
        redeemed_at: b("t"),
    }
}

fn redemption(status: &str, input: &str) -> RewardRedemption {
    let p = payload(SubscriptionType::ChannelPointsCustomRewardRedemptionAdd, redemption_event(status, input));
    match handle_notification(&metadata(p.subscription.kind), &p) {
        Routed::Settle { redemption } => redemption,
        other => panic!("not handed on: {:?}", other),
    }
}

fn chat_text() -> Message {
    Message {
        text: b("hi @bob"),
        fragments: vec![
            Fragment { kind: FragmentType::Text, text: b("hi "), cheermote: None, emote: None, mention: None },
            Fragment { kind: FragmentType::Mention, text: b("@bob"), cheermote: None, emote: None, mention: None },
        ],
    }
}

#[test]
fn welcome_asks_for_one_subscription_per_kind_with_the_new_session() {
    let mut client = Client { session: None };
    let actions = listen(&mut client, welcome("sess-1"));
    let kinds = desired_subscriptions();
    assert_eq!(7, kinds.len());
    assert_eq!(kinds.len(), actions.len());
    for (action, kind) in actions.iter().zip(kinds.iter()) {
        match action {
            Action::Subscribe { subscription_type, session_id } => {
                assert_eq!(kind, subscription_type);
                assert_eq!(&b("sess-1"), session_id);
            }
            other => panic!("unexpected action {:?}", other),
        }
    }
    assert_eq!(Some(b("sess-1")), client.session.map(|s| s.id));
    assert_eq!(SubscriptionType::ChannelAdBreakBegin, kinds[0]);
    assert_eq!(SubscriptionType::ChannelChatMessage, kinds[6]);
}

#[test]
fn reconnect_drops_the_session_and_connects_once_then_welcome_starts_afresh() {
    let mut client = Client { session: Some(session("old")) };
    let actions = listen(&mut client, reconnect(Some("wss://example.test/next")));
    assert!(client.session.is_none());
    assert_eq!(1, actions.len());
    assert!(matches!(&actions[0], Action::Connect { url } if url == &b("wss://example.test/next")));
    let actions = listen(&mut client, welcome("new"));
    assert_eq!(7, actions.len());
    for action in actions.iter() {
        assert!(matches!(action, Action::Subscribe { session_id, .. } if session_id == &b("new")));
    }
}

#[test]
fn reconnect_without_address_goes_to_the_socket_address() {
    let mut client = Client { session: Some(session("old")) };
    let actions = listen(&mut client, reconnect(None));
    assert!(matches!(&actions[0], Action::Connect { url } if url == &b(SOCKET)));
}

#[test]
fn start_connects_to_the_socket_address() {
    let (client, actions) = start_eventsub();
    assert!(client.session.is_none());
    assert_eq!(1, actions.len());
    assert!(matches!(&actions[0], Action::Connect { url } if url == &b(SOCKET)));
}

#[test]
fn keepalive_other_and_undecodable_leave_the_session() {
    let mut client = Client { session: Some(session("s")) };
    let keepalive = Event::Frame {
        message: Messages::KeepAlive {
            metadata: KeepAliveMetadata {
                message_id: b("k"),
                message_type: MessageTypes::SessionKeepalive,
                message_timestamp: b("t"),
            },
            payload: KeepAlivePayload {},
        },
    };
    assert!(listen(&mut client, keepalive).is_empty());
    assert!(listen(&mut client, Event::Other).is_empty());
    let actions = listen(&mut client, Event::Undecodable);
    assert!(matches!(actions.as_slice(), [Action::ReportUndecodable]));
    assert_eq!(Some(b("s")), client.session.as_ref().map(|s| s.id.clone()));
}

#[test]
fn ping_is_answered_with_its_payload() {
    let mut client = Client { session: None };
    let actions = listen(&mut client, Event::Ping { payload: vec![9, 8, 7] });
    assert!(matches!(actions.as_slice(), [Action::Pong { payload }] if payload == &vec![9, 8, 7]));
}

#[test]
fn close_drops_the_session_and_reconnects() {
    let mut client = Client { session: Some(session("s")) };
    let actions = listen(&mut client, Event::Closed);
    assert!(matches!(actions.as_slice(), [Action::Connect { url }] if url == &b(SOCKET)));
    assert!(client.session.is_none());
}

#[test]
fn silence_beyond_the_keepalive_period_reconnects() {
    let mut client = Client { session: Some(session("s")) };
    assert!(listen(&mut client, Event::Silence { seconds: 30 }).is_empty());
    assert!(client.session.is_some());
    let actions = listen(&mut client, Event::Silence { seconds: 31 });
    assert!(matches!(actions.as_slice(), [Action::Connect { url }] if url == &b(SOCKET)));
    assert!(client.session.is_none());
    assert!(listen(&mut client, Event::Silence { seconds: 1000 }).is_empty());
}

#[test]
fn revocation_is_reported_and_nothing_else() {
    let mut client = Client { session: Some(session("s")) };
    let event = Event::Frame {
        message: Messages::Revocation {
            metadata: RevocationMetadata {
                message_id: b("r"),
                message_type: MessageTypes::Revocation,
                message_timestamp: b("t"),
                subscription_type: SubscriptionType::ChannelFollow,
                subscription_version: b("1"),
            },
            payload: RevocationPayload {
                id: b("s1"),
                status: b("authorization_revoked"),
                kind: SubscriptionType::ChannelFollow,
                version: b("1"),
                cost: 0,
                condition: condition(),
                transport: Transport { method: MethodType::WebSocket, session_id: b("s") },
                created_at: b("t"),
            },
        },
    };
    let actions = listen(&mut client, event);
    assert!(matches!(
        actions.as_slice(),
        [Action::ReportRevocation { subscription_type: SubscriptionType::ChannelFollow, status }]
            if status == &b("authorization_revoked")
    ));
    assert!(client.session.is_some());
}

#[test]
fn notification_in_a_frame_is_routed() {
    let mut client = Client { session: Some(session("s")) };
    let event = Event::Frame {
        message: Messages::Notification {
            metadata: metadata(SubscriptionType::ChannelAdBreakBegin),
            payload: payload(SubscriptionType::ChannelAdBreakBegin, ad_break(90)),
        },
    };
    let actions = listen(&mut client, event);
    assert!(matches!(
        actions.as_slice(),
        [Action::Publish { message: ChannelMessages::AdBreakStarted { message } }]
            if message == &b("Starting 90 second ad break...")
    ));
}

#[test]
fn ad_break_message_names_the_seconds() {
    let p = payload(SubscriptionType::ChannelAdBreakBegin, ad_break(0));
    match handle_notification(&metadata(p.subscription.kind), &p) {
        Routed::Publish { message: ChannelMessages::AdBreakStarted { message } } => {
            assert_eq!(b("Starting 0 second ad break..."), message)
        }
        other => panic!("{:?}", other),
    }
}

#[test]
fn clear_by_user_names_the_chatter() {
    let event = NotificationEvent::ChannelChatClearUserMessages {
        broadcaster_user_id: b("42"),
        broadcaster_user_name: b("Ann"),
        broadcaster_user_login: b("ann"),
        target_user_id: b("7"),
        target_user_name: b("Bob"),
        target_user_login: b("bob"),
    };
    let p = payload(SubscriptionType::ChannelChatClearUserMessages, event);
    assert!(matches!(
        handle_notification(&metadata(p.subscription.kind), &p),
        Routed::Publish { message: ChannelMessages::ClearMessagesByUser { target_user_name } }
            if target_user_name == b("Bob")
    ));
}

#[test]
fn chat_message_keeps_its_fragments() {
    let event = NotificationEvent::ChannelChatMessage {
        broadcaster_user_id: b("42"),
        broadcaster_user_login: b("ann"),
        broadcaster_user_name: b("Ann"),
        chatter_user_id: b("7"),
        chatter_user_login: b("bob"),
        chatter_user_name: b("Bob"),
        message_id: b("mid"),
        message: chat_text(),
        color: b("#00FF00"),
        badges: vec![],
    };
    let p = payload(SubscriptionType::ChannelChatMessage, event);
    match handle_notification(&metadata(p.subscription.kind), &p) {
        Routed::Publish { message: ChannelMessages::ChatMessage { message } } => {
            assert_eq!(b("Bob"), message.chatter_user_name);
            assert_eq!(b("#00FF00"), message.color);
            assert_eq!(b("hi @bob"), message.message.text);
            assert_eq!(2, message.message.fragments.len());
            assert_eq!(FragmentType::Mention, message.message.fragments[1].kind);
            assert_eq!(None, message.system_message);
            assert_eq!(None, message.notice_type);
        }
        other => panic!("{:?}", other),
    }
}

#[test]
fn chat_notification_without_optional_parts_is_published() {
    let event = NotificationEvent::ChannelNotification {
        broadcaster_user_id: b("42"),
        broadcaster_user_login: b("ann"),
        broadcaster_user_name: b("Ann"),
        chatter_user_id: b("7"),
        chatter_user_login: b("bob"),
        chatter_user_name: b("Bob"),
        chatter_is_anonymous: false,
        color: b(""),
        badges: vec![],
        system_message: b("Bob subscribed"),
        message_id: b("mid"),
        message: chat_text(),
        notice_type: NoticeType::Sub,
        sub: None,
        resub: None,
        sub_gift: None,
        community_sub_gift: None,
        gift_paid_upgrade: None,
        prime_paid_upgrade: None,
        pay_it_forward: None,
        raid: None,
        unraid: None,
        announcement: None,
        bits_badge_tier: None,
        charity_donation: None,
        source_broadcaster_user_id: None,
        source_broadcaster_user_name: None,
        source_broadcaster_user_login: None,
        source_message_id: None,
        source_badges: None,
        shared_chat_sub: None,
        shared_chat_resub: None,
        shared_chat_sub_gift: None,
        shared_chat_community_sub_gift: None,
        shared_chat_gift_paid_upgrade: None,
        shared_chat_prime_paid_upgrade: None,
        shared_chat_pay_it_forward: None,
        shared_chat_raid: None,
        shared_chat_announcement: None,
    };
    let p = payload(SubscriptionType::ChannelChatNotification, event);
    match handle_notification(&metadata(p.subscription.kind), &p) {
        Routed::Publish { message: ChannelMessages::ChatMessage { message } } => {
            assert_eq!(Some(b("Bob subscribed")), message.system_message);
            assert_eq!(Some(NoticeType::Sub), message.notice_type);
        }
        other => panic!("{:?}", other),
    }
}

#[test]
fn unhandled_kind_and_wrong_shape_ask_for_nothing() {
    let p = payload(SubscriptionType::ChannelFollow, ad_break(5));
    assert!(matches!(handle_notification(&metadata(p.subscription.kind), &p), Routed::Nothing));
    let p = payload(SubscriptionType::ChannelPointsCustomRewardRedemptionUpdate, redemption_event("fulfilled", ""));
    assert!(matches!(handle_notification(&metadata(p.subscription.kind), &p), Routed::Nothing));
    let p = payload(SubscriptionType::ChannelAdBreakBegin, redemption_event("unfulfilled", ""));
    assert!(matches!(handle_notification(&metadata(p.subscription.kind), &p), Routed::Nothing));
    let p = payload(SubscriptionType::Unknown, NotificationEvent::AutomodMessageHold {});
    assert!(matches!(handle_notification(&metadata(p.subscription.kind), &p), Routed::Nothing));
}

#[test]
fn reward_command_orders_its_arguments() {
    let r = redemption("unfulfilled", "cheers");
    assert!(reward_command(&r, None).is_none());
    let c = reward_command(&r, Some(b"lights:blink")).unwrap();
    assert_eq!(b("lights"), c.name);
    assert_eq!(vec![b("blink"), b("Bob"), b("cheers")], c.args);
    let r = redemption("unfulfilled", "");
    let c = reward_command(&r, Some(b"lights")).unwrap();
    assert_eq!(b("lights"), c.name);
    assert_eq!(vec![b("Bob")], c.args);
    let c = reward_command(&r, Some(b"a:b:c")).unwrap();
    assert_eq!(b("a"), c.name);
    assert_eq!(vec![b("b:c"), b("Bob")], c.args);
}

#[test]
fn failed_action_is_canceled_once_and_told_to_chat() {
    let r = redemption("unfulfilled", "");
    let outcome = ActionOutcome::Exited { success: false, stdout: b("boom") };
    let request = settlement_for(&r, &outcome).unwrap();
    assert_eq!(SettlementStatus::Canceled, request.status);
    assert_eq!("CANCELED", request.status.to_wire());
    assert_eq!((b("red-1"), b("42"), b("rew-9")), (request.id, request.broadcaster_id, request.reward_id));
    match settle(&r, &outcome, true) {
        Some(ChannelMessages::RedeemRefund { message, command_output }) => {
            assert_eq!(b("150 points were refunded to Bob"), message);
            assert_eq!(b("boom"), command_output);
        }
        other => panic!("{:?}", other),
    }
    match settle(&r, &outcome, false) {
        Some(ChannelMessages::RedeemRefund { message, .. }) => {
            assert_eq!(b("150 points could not be refunded to Bob"), message)
        }
        other => panic!("{:?}", other),
    }
}

#[test]
fn action_that_did_not_start_is_canceled() {
    let r = redemption("FULFILLED", "");
    let request = settlement_for(&r, &ActionOutcome::SpawnFailed).unwrap();
    assert_eq!(SettlementStatus::Canceled, request.status);
    match refund_points(&r, true, &ActionOutcome::SpawnFailed) {
        ChannelMessages::RedeemRefund { command_output, .. } => assert!(command_output.is_empty()),
        other => panic!("{:?}", other),
    }
}

#[test]
fn successful_action_is_fulfilled_once_and_silent() {
    let outcome = ActionOutcome::Exited { success: true, stdout: b("ok") };
    for status in ["unfulfilled", "UNFULFILLED", "Unfulfilled"] {
        let r = redemption(status, "");
        let request = settlement_for(&r, &outcome).unwrap();
        assert_eq!(SettlementStatus::Fulfilled, request.status);
        assert_eq!("FULFILLED", request.status.to_wire());
        assert!(settle(&r, &outcome, true).is_none());
    }
    let r = redemption("fulfilled", "");
    assert!(settlement_for(&r, &outcome).is_none());
    assert!(settle(&r, &outcome, true).is_none());
    assert_eq!(SettlementStatus::Fulfilled, reward_fulfilled(&r).status);
}

#[test]
fn subscription_request_names_user_and_session() {
    let user = User {
        id: b("42"),
        login: b("ann"),
        display_name: b("Ann"),
        kind: b(""),
        broadcaster_type: b(""),
        description: b(""),
        profile_image_url: b(""),
        offline_image_url: b(""),
        created_at: b(""),
    };
    let s = get_eventsub_subscription(b"sess", SubscriptionType::ChannelChatMessage, MethodType::WebSocket, &user);
    assert_eq!(SubscriptionType::ChannelChatMessage, s.kind);
    assert_eq!(b("1"), s.version);
    assert_eq!(b("sess"), s.transport.session_id);
    assert_eq!(MethodType::WebSocket, s.transport.method);
    assert_eq!(Some(b("42")), s.condition.broadcaster_user_id);
    assert_eq!(Some(b("42")), s.condition.user_id);
    assert_eq!(None, s.condition.reward_id);
    assert_eq!(None, s.status);
    let c = get_condition(&user);
    assert_eq!(None, c.moderator_user_id);
    let actions = create_subscriptions(&WelcomePayload { session: session("x") });
    assert_eq!(7, actions.len());
    assert_eq!(Some(b("42")), get_user(TwitchApiResponse { data: vec![user] }).map(|u| u.id));
    assert!(get_user(TwitchApiResponse { data: vec![] }).is_none());
}

#[test]
fn unknown_wire_name_decodes_to_unknown() {
    assert_eq!(SubscriptionType::Unknown, SubscriptionType::from_wire(b"channel.brand_new.thing"));
    assert_eq!(SubscriptionType::Unknown, SubscriptionType::from_wire(b""));
    assert_eq!(SubscriptionType::Unknown, SubscriptionType::from_wire(b"Unknown"));
    assert_eq!("Unknown", SubscriptionType::Unknown.to_wire());
    assert_eq!(NoticeType::Unknown, NoticeType::from_wire(b"brand_new"));
    assert_eq!(MethodType::Unknown, MethodType::from_wire(b"conduit"));
    assert_eq!(MessageTypes::Unknown, MessageTypes::from_wire(b"x"));
    assert_eq!(FragmentType::Unknown, FragmentType::from_wire(b"Text"));
}

#[test]
fn wire_names_are_exact() {
    assert_eq!("channel.chat.message", SubscriptionType::ChannelChatMessage.to_wire());
    assert_eq!("channel.ad_break.begin", SubscriptionType::ChannelAdBreakBegin.to_wire());
    assert_eq!(
        "channel.channel_points_custom_reward_redemption.add",
        SubscriptionType::ChannelPointsCustomRewardRedemptionAdd.to_wire()
    );
    assert_eq!(
        SubscriptionType::ChannelPointsCustomRewardRedemptionAdd,
        SubscriptionType::from_wire(b"channel.channel_points_custom_reward_redemption.add")
    );
    assert_eq!(SubscriptionType::WhisperReceived, SubscriptionType::from_wire(b"user.whisper.message"));
    assert_eq!(MethodType::WebSocket, MethodType::from_wire(b"websocket"));
    assert_eq!("webhook", MethodType::WebHook.to_wire());
    assert_eq!(MessageTypes::SessionReconnect, MessageTypes::from_wire(b"session_reconnect"));
    assert_eq!(NoticeType::SharedChatCommunitySubGift, NoticeType::from_wire(b"shared_chat_community_sub_gift"));
    assert_eq!("shared_chat_prime_paid_upgrade", NoticeType::SharedChatPrimePaidUpgrade.to_wire());
    assert_eq!(FragmentType::Cheermote, FragmentType::from_wire(b"cheermote"));
}

#[test]
fn every_kind_decodes_to_a_kind_with_its_wire_name() {
    let table = known_table();
    assert_eq!(80, table.len());
    for kind in table.iter() {
        let back = SubscriptionType::from_wire(kind.to_wire().as_bytes());
        assert_ne!(SubscriptionType::Unknown, back);
        assert_eq!(kind.to_wire(), back.to_wire());
    }
    // two kinds share a wire name: the earlier one is decoded
    assert_eq!(
        SubscriptionType::AutomodMessageHold,
        SubscriptionType::from_wire(SubscriptionType::AutomodMessageHoldV2.to_wire().as_bytes())
    );
}

#[test]
fn announced_kind_decides_between_welcome_and_reconnect() {
    let as_welcome = Messages::Welcome {
        metadata: WelcomeMetadata {
            message_id: b("m"),
            message_type: MessageTypes::SessionReconnect,
            message_timestamp: b("t"),
        },
        payload: WelcomePayload {
            session: WelcomePayloadSession {
                id: b("s"),
                status: b("reconnecting"),
                keepalive_timeout_seconds: 10,
                connected_at: b("t"),
                reconnect_url: Some(b("wss://example.test/next")),
                recovery_url: None,
            },
        },
    };
    let mut client = Client { session: Some(session("old")) };
    let actions = listen(&mut client, frame_event(as_welcome));
    assert!(client.session.is_none());
    assert!(matches!(actions.as_slice(), [Action::Connect { url }] if url == &b("wss://example.test/next")));

    match frame_event(match reconnect(None) {
        Event::Frame { message: Messages::Reconnect { mut metadata, payload } } => {
            metadata.message_type = MessageTypes::SessionWelcome;
            Messages::Reconnect { metadata, payload }
        }
        other => panic!("{:?}", other),
    }) {
        Event::Frame { message: Messages::Welcome { payload, .. } } => assert_eq!(b("old"), payload.session.id),
        other => panic!("{:?}", other),
    }
}

#[test]
fn frame_whose_kind_and_shape_disagree_is_undecodable() {
    let keepalive_shape = Messages::KeepAlive {
        metadata: KeepAliveMetadata {
            message_id: b("k"),
            message_type: MessageTypes::Notification,
            message_timestamp: b("t"),
        },
        payload: KeepAlivePayload {},
    };
    assert!(matches!(frame_event(keepalive_shape), Event::Undecodable));
    let unknown = Messages::Notification {
        metadata: NotificationMetadata {
            message_id: b("n"),
            message_type: MessageTypes::Unknown,
            message_timestamp: b("t"),
            subscription_type: SubscriptionType::ChannelFollow,
            subscription_version: b("1"),
        },
        payload: payload(SubscriptionType::ChannelFollow, ad_break(1)),
    };
    assert!(matches!(frame_event(unknown), Event::Undecodable));
    assert!(matches!(frame_event(match welcome("s") {
        Event::Frame { message } => message,
        other => panic!("{:?}", other),
    }), Event::Frame { message: Messages::Welcome { .. } }));
}
