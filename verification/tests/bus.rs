use sergeant::announcements::{
    announce, announce_due, check_announcement, get_announcements, reload, Announcement,
    AnnouncementError, AnnouncementFile,
};
use sergeant::assets::{badge_file_name, get_badges, BadgeItem, BadgeVersion};
use sergeant::channel::{from_chat_line, send_to_channels, Bus, ChannelMessages, ChatEvent};
use sergeant::messages::{ChatMessage, TwitchMessage};
use sergeant::notice_type::NoticeType;
use sergeant::chat::{log_entry, App, AppState, LogEntryFragmentType};
use sergeant::deserialization::{Cheermote, Emote, Fragment, FragmentType, Mention, Message};

fn b(s: &str) -> Vec<u8> {
    s.as_bytes().to_vec()
}

fn refund() -> ChannelMessages {
    ChannelMessages::RedeemRefund { message: b("150 points were refunded to Bob"), command_output: b("out") }
}

fn chat() -> ChannelMessages {
    ChannelMessages::ChatMessage {
        message: ChatEvent {
            chatter_user_id: b("7"),
            chatter_user_login: b("bob"),
            chatter_user_name: b("Bob"),
            color: b("#00FF00"),
            message_id: b("mid"),
            message: Message {
                text: b("hi Kappa @ann cheer100"),
                fragments: vec![
                    Fragment { kind: FragmentType::Text, text: b("hi "), cheermote: None, emote: None, mention: None },
                    Fragment {
                        kind: FragmentType::Emote,
                        text: b("Kappa"),
                        cheermote: None,
                        emote: Some(Emote { id: b("25"), emote_set_id: b("0"), owner_id: b("1"), format: vec![b("static"), b("animated")] }),
                        mention: None,
                    },
                    Fragment {
                        kind: FragmentType::Mention,
                        text: b("@ann"),
                        cheermote: None,
                        emote: None,
                        mention: Some(Mention { user_id: b("42"), user_name: b("Ann"), user_login: b("ann") }),
                    },
                    Fragment {
                        kind: FragmentType::Cheermote,
                        text: b("cheer100"),
                        cheermote: Some(Cheermote { prefix: b("cheer"), bits: 100, tier: 1 }),
                        emote: None,
                        mention: None,
                    },
                ],
            },
            system_message: None,
            notice_type: None,
        },
    }
}

fn show(message: &ChannelMessages) -> String {
    format!("{:?}", message)
}

#[test]
fn both_consumers_see_an_equal_copy() {
    let mut bus = Bus::new();
    let tui = bus.register(b"tui");
    let socket = bus.register(b"websocket");
    assert_eq!((0, 1), (tui, socket));
    let message = chat();
    let failed = bus.publish(&message);
    assert_eq!(0, failed);
    let first = bus.drain(tui);
    let second = bus.drain(socket);
    assert_eq!(1, first.len());
    assert_eq!(1, second.len());
    assert_eq!(show(&message), show(&first[0]));
    assert_eq!(show(&message), show(&second[0]));
    assert!(bus.drain(tui).is_empty());
}

#[test]
fn messages_arrive_in_publish_order() {
    let mut bus = Bus::new();
    let id = bus.register(b"only");
    bus.publish(&ChannelMessages::Announcement { message: b("one") });
    bus.publish(&ChannelMessages::AdBreakStarted { message: b("two") });
    assert_eq!(0, send_to_channels(refund(), &mut bus));
    let seen = bus.drain(id);
    assert_eq!(3, seen.len());
    assert!(matches!(&seen[0], ChannelMessages::Announcement { message } if message == &b("one")));
    assert!(matches!(&seen[1], ChannelMessages::AdBreakStarted { message } if message == &b("two")));
    assert_eq!(show(&refund()), show(&seen[2]));
}

#[test]
fn a_consumer_that_has_gone_hinders_no_other() {
    let mut bus = Bus::new();
    let gone = bus.register(b"gone");
    let here = bus.register(b"here");
    bus.publish(&ChannelMessages::ClearMessagesByUser { target_user_name: b("Bob") });
    bus.disconnect(gone);
    let failed = bus.publish(&refund());
    assert_eq!(1, failed);
    assert_eq!(1, bus.drain(gone).len());
    assert_eq!(2, bus.drain(here).len());
}

#[test]
fn a_bus_without_consumers_takes_messages() {
    let mut bus = Bus::new();
    assert_eq!(0, bus.publish(&refund()));
    let late = bus.register(b"late");
    assert!(bus.drain(late).is_empty());
}

#[test]
fn duplicate_shares_nothing() {
    let original = chat();
    let mut copy = original.duplicate();
    assert_eq!(show(&original), show(&copy));
    if let ChannelMessages::ChatMessage { message } = &mut copy {
        message.message.fragments[1].text.push(b'!');
    }
    assert_ne!(show(&original), show(&copy));
}

#[test]
fn log_entry_shows_chatter_colour_and_fragments() {
    let entry = log_entry(&chat()).unwrap();
    assert_eq!(b("Bob"), entry.chatter_user_name);
    assert_eq!(b("#00FF00"), entry.color);
    assert_eq!(4, entry.fragments.len());
    assert_eq!(LogEntryFragmentType::Emote, entry.fragments[1].kind);
    assert_eq!(b("@ann"), entry.fragments[2].text);
    assert_eq!("Cheermote", entry.fragments[3].kind.to_common());
    assert_eq!(Some(b("25")), entry.fragments[1].emote.as_ref().map(|e| e.id.clone()));
    assert_eq!(Some(b("Ann")), entry.fragments[2].mention.as_ref().map(|m| m.user_name.clone()));
    assert_eq!(Some(100), entry.fragments[3].cheermote.as_ref().map(|c| c.bits));
    assert!(entry.fragments[0].emote.is_none());
    assert!(log_entry(&refund()).is_none());
    let app = App::new();
    let mut state = AppState { log: Vec::new() };
    app.tick(&refund(), &mut state);
    app.tick(&ChannelMessages::AdBreakStarted { message: b("x") }, &mut state);
    assert!(state.log.is_empty());
    app.tick(&chat(), &mut state);
    app.chat_message(&chat(), &mut state);
    app.chat_message(&refund(), &mut state);
    assert_eq!(2, state.log.len());
    assert_eq!(b("Bob"), state.log[1].chatter_user_name);
    assert_eq!(LogEntryFragmentType::Unknown, LogEntryFragmentType::from_fragment_type(FragmentType::Unknown));
}

#[test]
fn announcement_is_due_after_its_period() {
    let a = Announcement { name: b("a"), timing: 60, message: b("drink water"), start: 1000 };
    assert!(!check_announcement(&a, 1000));
    assert!(!check_announcement(&a, 1060));
    assert!(check_announcement(&a, 1061));
    assert!(!check_announcement(&a, 999));
    assert!(matches!(announce(&a), ChannelMessages::Announcement { message } if message == b("drink water")));
}

#[test]
fn announcement_files_hold_minutes_and_text() {
    let files = vec![
        AnnouncementFile { name: b("water"), contents: b("5\ndrink\nwater") },
        AnnouncementFile { name: b("plain"), contents: b("no line feed") },
        AnnouncementFile { name: b("zero"), contents: b("0\n") },
    ];
    let got = get_announcements(&files, 77).unwrap();
    assert_eq!(2, got.len());
    assert_eq!((b("water"), 300, b("drink\nwater"), 77), (got[0].name.clone(), got[0].timing, got[0].message.clone(), got[0].start));
    assert_eq!((b("zero"), 0, b("")), (got[1].name.clone(), got[1].timing, got[1].message.clone()));
    let bad = vec![AnnouncementFile { name: b("x"), contents: b("soon\nhello") }];
    assert_eq!(Some(AnnouncementError::BadTiming), get_announcements(&bad, 0).err());
    let huge = vec![AnnouncementFile { name: b("x"), contents: b("18446744073709551615\nhello") }];
    assert_eq!(Some(AnnouncementError::BadTiming), get_announcements(&huge, 0).err());
}

#[test]
fn only_badges_without_file_are_fetched() {
    let items = vec![
        BadgeItem {
            set_id: b("vip"),
            versions: vec![
                BadgeVersion { id: b("1"), image_url_1x: b("https://example.test/vip1") },
                BadgeVersion { id: b("2"), image_url_1x: b("https://example.test/vip2") },
            ],
        },
        BadgeItem { set_id: b("empty"), versions: vec![] },
        BadgeItem {
            set_id: b("mod"),
            versions: vec![BadgeVersion { id: b("1"), image_url_1x: b("https://example.test/mod1") }],
        },
    ];
    assert_eq!(b("vip_1.txt"), badge_file_name(b"vip", b"1"));
    let downloads = get_badges(&items, &vec![b("vip_1.txt"), b("other.txt")]);
    assert_eq!(2, downloads.len());
    assert_eq!((b("vip_2.txt"), b("https://example.test/vip2")), (downloads[0].file_name.clone(), downloads[0].url.clone()));
    assert_eq!((b("mod_1.txt"), b("https://example.test/mod1")), (downloads[1].file_name.clone(), downloads[1].url.clone()));
    assert_eq!(3, get_badges(&items, &Vec::new()).len());
}

#[test]
fn chat_lines_become_chat_messages() {
    let post = TwitchMessage::PrivMessage {
        message: ChatMessage {
            badges: vec![],
            emotes: vec![],
            nickname: b("bob"),
            display_name: b(" Bob"),
            first_msg: false,
            returning_chatter: false,
            subscriber: false,
            moderator: false,
            message: b("hello"),
            color: b("#FF9912"),
            channel: b("#ann"),
            raid: false,
            raid_notice: vec![],
        },
    };
    match from_chat_line(&post) {
        ChannelMessages::ChatMessage { message } => {
            assert_eq!((b("bob"), b(" Bob"), b("#FF9912")), (message.chatter_user_login, message.chatter_user_name, message.color));
            assert_eq!(b("hello"), message.message.text);
            assert_eq!(1, message.message.fragments.len());
            assert_eq!(b("hello"), message.message.fragments[0].text);
            assert_eq!(FragmentType::Text, message.message.fragments[0].kind);
            assert_eq!(None, message.notice_type);
        }
        other => panic!("{:?}", other),
    }
    let raid = TwitchMessage::RaidMessage { user_id: b("9"), raid_notice: b("3 raiders") };
    match from_chat_line(&raid) {
        ChannelMessages::ChatMessage { message } => {
            assert_eq!(b("9"), message.chatter_user_id);
            assert_eq!(Some(b("3 raiders")), message.system_message);
            assert_eq!(Some(NoticeType::Raid), message.notice_type);
            assert!(message.message.fragments.is_empty());
        }
        other => panic!("{:?}", other),
    }
}

#[test]
fn due_announcements_are_said_and_begin_anew() {
    let mut all = vec![
        Announcement { name: b("a"), timing: 60, message: b("one"), start: 0 },
        Announcement { name: b("b"), timing: 600, message: b("two"), start: 0 },
        Announcement { name: b("c"), timing: 0, message: b("three"), start: 99 },
    ];
    let said = announce_due(&mut all, 100);
    assert_eq!(2, said.len());
    assert!(matches!(&said[0], ChannelMessages::Announcement { message } if message == &b("one")));
    assert!(matches!(&said[1], ChannelMessages::Announcement { message } if message == &b("three")));
    assert_eq!(vec![100, 0, 100], all.iter().map(|a| a.start).collect::<Vec<u64>>());
    assert!(announce_due(&mut all, 100).is_empty());
    let fresh = vec![Announcement { name: b("d"), timing: 1, message: b("four"), start: 100 }];
    assert_eq!(1, reload(all.clone(), fresh.clone()).len());
    let same_number = vec![fresh[0].clone(), fresh[0].clone(), fresh[0].clone()];
    assert_eq!(b("a"), reload(all, same_number)[0].name);
}
