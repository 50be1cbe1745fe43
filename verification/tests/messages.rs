use irc::proto::message::Tag as IrcTag;
use irc::proto::{Command as IrcCommand, Message as IrcMessage};
use sergeant::image_protocols::{
    encode_base64, get_emote_image, get_encoded_image, get_iterm_encoded_image,
    get_iterm_image_encoding, reencode_png,
};
use sergeant::messages::{
    add_emotes, parse, parse_emote_entry, parse_fetched, parse_privmsg, png_table, process_emotes,
    reencode_all, replace, requested_emotes, resolve_name,
    set_badges, BadgeImage, ChatMessage, Command, Emote, EmoteImage, Message, ParseError, Tag,
    TwitchMessage,
};

const EMOTES: &str = "303147449:0-13/emotesv2_a388006c5b8c4826906248a22b50d0a3:15-28";
const NICK: &str = "rayslash!rayslash@rayslash.tmi.twitch.tv";
const TEXT: &str = "This is a message from twitch";

fn b(s: &str) -> Vec<u8> {
    s.as_bytes().to_vec()
}

fn line(tags: Vec<IrcTag>, prefix: &str, command: &str, args: Vec<&str>) -> Message {
    let msg = IrcMessage::with_tags(Some(tags), Some(prefix), command, args).unwrap();
    let nickname = msg.source_nickname().map(b);
    let whole = msg.to_string();
    let command = match &msg.command {
        IrcCommand::PRIVMSG(target, text) => Command::Privmsg { target: b(target), text: b(text) },
        IrcCommand::Raw(_, _) => Command::Raw { line: b(&whole) },
        _ => Command::Other,
    };
    let tags = msg.tags.map(|tags| {
        tags.into_iter()
            .map(|IrcTag(key, value)| Tag { key: b(&key), value: value.map(|v| b(&v)) })
            .collect()
    });
    Message { tags, nickname, command }
}

fn privmsg(tags: Vec<IrcTag>, prefix: &str) -> ChatMessage {
    let msg = line(tags, prefix, "PRIVMSG", vec!["#s9tpepper_", TEXT]);
    match parse(&msg, &Vec::new(), &Vec::new(), false) {
        Ok(TwitchMessage::PrivMessage { message }) => message,
        other => panic!("no chat message: {:?}", other),
    }
}

fn tag(key: &str, value: &str) -> IrcTag {
    IrcTag(key.to_string(), Some(value.to_string()))
}

#[test]
fn test_parse_raid_message() {
    let tags = vec![
        tag("emotes", EMOTES),
        tag("msg-id", "raid"),
        tag("system-msg", "system-msg=1\\sraiders\\sfrom\\svei_bean\\shave\\sjoined!"),
    ];
    let msg = line(tags, NICK, "USERNOTICE", vec!["#s9tpepper_"]);
    println!("{:?}", msg.nickname);
    println!("{:?}", msg.command);
    match parse(&msg, &Vec::new(), &Vec::new(), false) {
        Ok(TwitchMessage::RaidMessage { raid_notice, user_id }) => {
            assert_eq!(b("system-msg=1\\sraiders\\sfrom\\svei_bean\\shave\\sjoined!"), raid_notice);
            assert_eq!(b(""), user_id);
        }
        other => panic!("no raid notice: {:?}", other),
    }
}

#[test]
fn test_parse_emotes_attaching() {
    let msg = line(vec![tag("emotes", EMOTES)], NICK, "PRIVMSG", vec!["#s9tpepper_", TEXT]);
    let asked = requested_emotes(&msg);
    assert_eq!(2, asked.len());
    let images = vec![
        EmoteImage { url: asked[0].url.clone(), image: vec![1, 2, 3, 4, 5] },
        EmoteImage { url: asked[1].url.clone(), image: vec![250, 251, 252] },
    ];
    let first = b("\x1b]1337;File=inline=1;height=20px;width=20px;preserveAspectRatio=1:AQIDBAU=\x07");
    let second = b("\x1b]1337;File=inline=1;height=20px;width=20px;preserveAspectRatio=1:+vv8\x07");
    let mut expected = first.clone();
    expected.extend_from_slice(b"a");
    expected.extend_from_slice(&second);
    match parse(&msg, &images, &Vec::new(), false) {
        Ok(TwitchMessage::PrivMessage { message }) => {
            assert_eq!(expected, message.message);
            assert_eq!(b("This is a mess"), message.emotes[0].name);
            assert_eq!(b("ge from twitch"), message.emotes[1].name);
        }
        other => panic!("no chat message: {:?}", other),
    }
}

#[test]
fn test_parse_emotes_length() {
    let message = privmsg(vec![tag("emotes", EMOTES)], NICK);
    assert_eq!(2, message.emotes.len());
}

#[test]
fn test_parse_emotes_url() {
    let message = privmsg(vec![tag("emotes", EMOTES)], NICK);
    assert_eq!(
        b("https://static-cdn.jtvnw.net/emoticons/v2/303147449/default/dark/1.0"),
        message.emotes[0].url
    );
}

#[test]
fn test_parse_emotes_position() {
    let message = privmsg(vec![tag("emotes", EMOTES)], NICK);
    assert_eq!(0, message.emotes[0].start);
    assert_eq!(13, message.emotes[0].end);
}

#[test]
fn test_parse_message() {
    let message = privmsg(vec![tag("badges", "broadcaster/1,premium/1")], NICK);
    assert_eq!(b("This is a message from twitch"), message.message);
}

#[test]
fn test_parse_nickname() {
    let message = privmsg(vec![tag("badges", "broadcaster/1,premium/1")], NICK);
    assert_eq!(b("rayslash"), message.nickname);
}

#[test]
fn test_parse_display_name() {
    let message = privmsg(vec![tag("display-name", "s9tpepper_")], "");
    assert_eq!(b(" s9tpepper_"), message.display_name);
}

#[test]
fn test_parse_color() {
    let message = privmsg(vec![tag("color", "#8A2BE2")], "");
    assert_eq!(b("#8A2BE2"), message.color);
}

#[test]
fn test_parse_returning_chatter_is_true() {
    let message = privmsg(vec![tag("returning-chatter", "1")], "");
    assert_eq!(true, message.returning_chatter);
}

#[test]
fn test_parse_returning_chatter_is_false() {
    let message = privmsg(vec![tag("returning-chatter", "0")], "");
    assert_eq!(false, message.returning_chatter);
}

#[test]
fn test_parse_subscriber_is_true() {
    let message = privmsg(vec![tag("subscriber", "1")], "");
    assert_eq!(true, message.subscriber);
}

#[test]
fn test_parse_subscriber_is_false() {
    let message = privmsg(vec![tag("subscriber", "0")], "");
    assert_eq!(false, message.subscriber);
}

#[test]
fn test_parse_moderator_is_true() {
    let message = privmsg(vec![tag("mod", "1")], "");
    assert_eq!(true, message.moderator);
}

#[test]
fn test_parse_moderator_is_false() {
    let message = privmsg(vec![tag("mod", "0")], "");
    assert_eq!(false, message.moderator);
}

#[test]
fn test_parse_first_msg_is_true() {
    let message = privmsg(vec![tag("first-msg", "1")], "");
    assert_eq!(true, message.first_msg);
}

#[test]
fn test_parse_first_msg_is_false() {
    let message = privmsg(vec![tag("first-msg", "0")], "");
    assert_eq!(false, message.first_msg);
}

#[test]
fn first_msg_absent_is_false() {
    let message = privmsg(vec![tag("color", "#8A2BE2")], "");
    assert!(!message.first_msg);
    assert!(!message.subscriber);
    assert!(!message.returning_chatter);
    assert!(!message.moderator);
}

#[test]
fn flag_without_value_is_false_and_other_text_is_true() {
    let message = privmsg(vec![IrcTag("first-msg".to_string(), None), tag("mod", "yes")], "");
    assert!(!message.first_msg);
    assert!(message.moderator);
}

#[test]
fn last_flag_tag_decides() {
    let message = privmsg(vec![tag("subscriber", "1"), tag("subscriber", "0")], "");
    assert!(!message.subscriber);
}

#[test]
fn badge_with_version_zero_is_left_out() {
    let message = privmsg(vec![tag("badges", "broadcaster/1,premium/0")], NICK);
    assert_eq!(vec![b("broadcaster")], message.badges);
}

#[test]
fn badges_without_version_or_with_other_version_are_left_out() {
    let mut badges: Vec<Vec<u8>> = vec![b("kept")];
    set_badges(b"vip,moderator/2,subscriber/1/x,/1,founder/1", &mut badges);
    assert_eq!(vec![b("kept"), b("subscriber"), b(""), b("founder")], badges);
}

#[test]
fn empty_badges_value_names_none() {
    let mut badges: Vec<Vec<u8>> = Vec::new();
    set_badges(b"", &mut badges);
    assert!(badges.is_empty());
}

#[test]
fn color_defaults_when_absent_or_empty() {
    assert_eq!(b("#FF9912"), privmsg(vec![], "").color);
    assert_eq!(b("#FF9912"), privmsg(vec![tag("color", "")], "").color);
}

#[test]
fn display_name_is_trimmed() {
    let message = privmsg(vec![tag("display-name", "  padded name \t")], "");
    assert_eq!(b(" padded name"), message.display_name);
}

#[test]
fn only_first_range_of_an_emote_counts() {
    let mut emotes: Vec<Emote> = Vec::new();
    process_emotes(b"25:0-4,6-10/1902:12-16", &mut emotes);
    assert_eq!(2, emotes.len());
    assert_eq!((0, 4), (emotes[0].start, emotes[0].end));
    assert_eq!((12, 16), (emotes[1].start, emotes[1].end));
    assert_eq!(b("https://static-cdn.jtvnw.net/emoticons/v2/1902/default/dark/1.0"), emotes[1].url);
    assert!(emotes[0].name.is_empty());
}

#[test]
fn malformed_emote_entries_are_skipped() {
    let mut emotes: Vec<Emote> = Vec::new();
    process_emotes(b"25/26:/27:3/28:a-4/29:4-b/30:1-2/31:99999999999999999999999-5", &mut emotes);
    assert_eq!(1, emotes.len());
    assert_eq!((1, 2), (emotes[0].start, emotes[0].end));
    assert!(parse_emote_entry(b"").is_none());
    assert!(parse_emote_entry(b"5:+3-+4").is_some());
    assert!(parse_emote_entry(b"5:-3-4").is_none());
}

#[test]
fn emote_name_is_the_slice_of_the_received_text() {
    assert_eq!(b("Kappa"), resolve_name(b"Kappa hello", 0, 4));
    assert_eq!(b("o"), resolve_name(b"Kappa hello", 10, 10));
    assert_eq!(b(""), resolve_name(b"Kappa hello", 10, 11));
    assert_eq!(b(""), resolve_name(b"Kappa hello", 5, 4));
    assert_eq!(b(""), resolve_name(b"Kappa hello", 3, usize::MAX));
    // a range that cuts a character in two names nothing
    assert_eq!(b(""), resolve_name("héllo".as_bytes(), 0, 1));
    assert_eq!(b("hé"), resolve_name("héllo".as_bytes(), 0, 2));
}

#[test]
fn names_are_taken_before_any_substitution() {
    let mut message = b("Kappa and LUL");
    let mut emotes = vec![
        Emote { start: 0, end: 4, url: b("u1"), name: Vec::new() },
        Emote { start: 10, end: 12, url: b("u2"), name: Vec::new() },
    ];
    let images = vec![
        EmoteImage { url: b("u1"), image: vec![0; 30] },
        EmoteImage { url: b("u2"), image: vec![7] },
    ];
    add_emotes(&mut message, &mut emotes, &images, false);
    assert_eq!(b("Kappa"), emotes[0].name);
    assert_eq!(b("LUL"), emotes[1].name);
    let one = get_emote_image(&get_iterm_image_encoding(&[0; 30]).unwrap(), false);
    let two = get_emote_image(&get_iterm_image_encoding(&[7]).unwrap(), false);
    let mut expected = one;
    expected.extend_from_slice(b" and ");
    expected.extend_from_slice(&two);
    assert_eq!(expected, message);
}

#[test]
fn same_emote_twice_is_replaced_twice_and_missing_image_changes_nothing() {
    let mut message = b("LUL LUL x");
    let mut emotes = vec![
        Emote { start: 0, end: 2, url: b("u"), name: Vec::new() },
        Emote { start: 8, end: 8, url: b("none"), name: Vec::new() },
    ];
    let images = vec![EmoteImage { url: b("u"), image: vec![255] }];
    add_emotes(&mut message, &mut emotes, &images, true);
    let inline = b("\x1bPtmux;\x1b\x1b]1337;File=inline=1;height=20px;width=20px;preserveAspectRatio=1:/w==\x07\x1b\\.");
    let mut expected = inline.clone();
    expected.extend_from_slice(b" ");
    expected.extend_from_slice(&inline);
    expected.extend_from_slice(b" x");
    assert_eq!(expected, message);
    assert_eq!(b("x"), emotes[1].name);
}

#[test]
fn base64_is_the_standard_encoding_with_padding() {
    assert_eq!(Some(b("aGVsbG8gd29ybGR+")), get_iterm_image_encoding(b"hello world~"));
    assert_eq!(Some(b("/+wgVQA=")), get_iterm_image_encoding(b"\xFF\xEC\x20\x55\0"));
    assert_eq!(Some(b("")), get_iterm_image_encoding(b""));
}

#[test]
fn replace_scans_from_the_left() {
    assert_eq!(b("xa"), replace(b"aaa", b"aa", b"x"));
    assert_eq!(b("abc"), replace(b"abc", b"", b"x"));
    assert_eq!(b(""), replace(b"", b"a", b"x"));
    assert_eq!(b("1-2-3"), replace(b"1, 2, 3", b", ", b"-"));
}

#[test]
fn badge_images_stand_before_the_display_name() {
    let msg = line(
        vec![tag("badges", "vip/1,unknown/1"), tag("display-name", "Ann")],
        NICK,
        "PRIVMSG",
        vec!["#chan", "hi"],
    );
    let art = vec![
        BadgeImage { name: b("unknown_2.txt"), base64: b("eA==") },
        BadgeImage { name: b("vip_1.txt"), base64: b("QUJD") },
    ];
    match parse(&msg, &Vec::new(), &art, false) {
        Ok(TwitchMessage::PrivMessage { message }) => {
            let mut expected = get_iterm_encoded_image(b"QUJD");
            assert_eq!(
                b("\x1b]1337;File=inline=1;height=20px;preserveAspectRatio=1:QUJD\x07"),
                expected
            );
            expected.extend_from_slice(b" Ann");
            assert_eq!(expected, message.display_name);
            assert_eq!(b("#chan"), message.channel);
            assert!(!message.raid);
        }
        other => panic!("no chat message: {:?}", other),
    }
}

#[test]
fn other_commands_are_errors() {
    let ping = line(vec![], NICK, "PING", vec!["x"]);
    assert_eq!(Some(ParseError::UnhandledCommand), parse(&ping, &vec![], &vec![], false).err());
    let notice = line(vec![tag("msg-id", "sub")], NICK, "USERNOTICE", vec!["#c"]);
    assert_eq!(Some(ParseError::NotRaid), parse(&notice, &vec![], &vec![], false).err());
    let raw = line(vec![tag("msg-id", "raid"), tag("system-msg", "x")], NICK, "CLEARCHAT", vec!["#c"]);
    assert_eq!(Some(ParseError::NotRaid), parse(&raw, &vec![], &vec![], false).err());
    assert_eq!(Some(ParseError::NotChatPost), parse_privmsg(&ping, &vec![], &vec![], false).err());
    assert_eq!(Some(ParseError::NotChatPost), parse_privmsg(&raw, &vec![], &vec![], false).err());
    assert_eq!("Unhandled Command", ParseError::UnhandledCommand.message());
    assert_eq!("oops", ParseError::NotRaid.message());
    assert_eq!("This shoulnt happen", ParseError::NotChatPost.message());
}

#[test]
fn nickname_color_reads_hex_pairs() {
    let mut message = privmsg(vec![tag("color", "#8A2BE2")], "");
    assert_eq!(Some((0x8A, 0x2B, 0xE2)), message.get_nickname_color());
    message.color = b("#ff9912");
    assert_eq!(Some((255, 0x99, 0x12)), message.get_nickname_color());
    message.color = b("blue");
    assert_eq!(None, message.get_nickname_color());
    message.color = b("#12345g");
    assert_eq!(None, message.get_nickname_color());
}

fn one_pixel_png() -> Vec<u8> {
    let pixel = image::DynamicImage::ImageRgba8(image::RgbaImage::from_pixel(1, 1, image::Rgba([255, 0, 0, 255])));
    let mut bytes: Vec<u8> = Vec::new();
    pixel.write_to(&mut std::io::Cursor::new(&mut bytes), image::ImageOutputFormat::Png).unwrap();
    bytes
}

#[test]
fn images_are_written_anew_as_png() {
    let png = reencode_png(&one_pixel_png()).unwrap();
    assert_eq!(b"\x89PNG\r\n\x1a\n".to_vec(), png[..8].to_vec());
    let back = image::load_from_memory(&png).unwrap();
    assert_eq!((1, 1), (back.width(), back.height()));
    assert_eq!(vec![255, 0, 0, 255], back.to_rgba8().into_raw());
    let mut padded = one_pixel_png();
    padded.extend_from_slice(b"bytes behind the end of the image");
    assert_eq!(Some(png.clone()), reencode_png(&padded));
    assert_eq!(None, reencode_png(b"no image at all"));
    assert_eq!(None, reencode_png(b""));
    assert_eq!(encode_base64(&png), get_encoded_image(&one_pixel_png()));
    assert_eq!(None, get_encoded_image(b"no image"));
}

#[test]
fn fetched_images_that_are_no_images_are_left_out() {
    let fetched = vec![
        EmoteImage { url: b("u1"), image: b("broken") },
        EmoteImage { url: b("u2"), image: one_pixel_png() },
    ];
    let pngs = reencode_all(&fetched);
    assert_eq!(2, pngs.len());
    assert!(pngs[0].is_none());
    let table = png_table(&fetched, &pngs);
    assert_eq!(1, table.len());
    assert_eq!(b("u2"), table[0].url);
    assert_eq!(pngs[1].clone().unwrap(), table[0].image);
    assert!(png_table(&fetched, &Vec::new()).is_empty());
}

#[test]
fn line_is_parsed_with_images_as_fetched() {
    let msg = line(vec![tag("emotes", "25:0-4/26:6-8")], NICK, "PRIVMSG", vec!["#c", "Kappa LUL"]);
    let asked = requested_emotes(&msg);
    let fetched = vec![
        EmoteImage { url: asked[0].url.clone(), image: one_pixel_png() },
        EmoteImage { url: asked[1].url.clone(), image: b("broken") },
    ];
    let inline = get_emote_image(&get_encoded_image(&one_pixel_png()).unwrap(), false);
    let mut expected = inline;
    expected.extend_from_slice(b" LUL");
    match parse_fetched(&msg, &fetched, &Vec::new(), false) {
        Ok(TwitchMessage::PrivMessage { message }) => assert_eq!(expected, message.message),
        other => panic!("no chat message: {:?}", other),
    }
}
