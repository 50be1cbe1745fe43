use sergeant::admin::{AddCommandState, Command};
use sergeant::auth::{
    bearer, create_token_url, get_credentials, login_step, refresh_url, refreshed_credentials,
    token_status_url, validation_authorization, CredentialsError, LoginStep, TokenStatus,
};
use sergeant::chat_commands::{
    add_action, add_command, add_item, add_reward, get_list, get_list_announcements, get_list_commands,
    human_readable, list_actions, list_announcements, list_commands, list_rewards, remove_action,
    remove_command, remove_item, remove_reward, Entry, Store,
};
use sergeant::cli::{command, Cli, Cmds, IrcActionSubCmds, RewardSubCmds, SubCmds, Task};
use sergeant::notifications::ActionOutcome;
use sergeant::text::{
    contains, decimal, equal_ignoring_case, parse_usize, split, split_once, text, trim,
};
use sergeant::messages::{ChatMessage, TwitchMessage};
use sergeant::tui::{
    action_reply, check_for_chat_commands, check_for_irc_actions, execute_command, output,
    print_message, ChatCommand,
};

fn b(s: &str) -> Vec<u8> {
    s.as_bytes().to_vec()
}

fn lines(items: &[&str]) -> Vec<Vec<u8>> {
    items.iter().map(|s| b(s)).collect()
}

#[test]
fn stores_have_their_directories() {
    assert_eq!("chat_commands", Store::ChatCommands.directory_name());
    assert_eq!("chat_announcements", Store::ChatAnnouncements.directory_name());
    assert_eq!("irc_actions", Store::IrcActions.directory_name());
    assert_eq!("chat_rewards", Store::ChatRewards.directory_name());
    assert_eq!(b("irc actions"), human_readable(b"irc_actions"));
}

#[test]
fn only_files_are_listed() {
    let entries = vec![
        Entry { name: b("hello"), is_file: true },
        Entry { name: b("dir"), is_file: false },
        Entry { name: b("bye"), is_file: true },
    ];
    assert_eq!(lines(&["hello", "bye"]), get_list(&entries));
    assert_eq!(lines(&["hello", "bye"]), get_list_commands(&entries));
    assert_eq!(lines(&["hello", "bye"]), get_list_announcements(&entries));
    assert!(get_list(&Vec::new()).is_empty());
}

#[test]
fn command_with_period_is_an_announcement() {
    let r = add_command(b"water", b"drink water", Some(15));
    assert_eq!((Store::ChatAnnouncements, b("water"), b("15\ndrink water")), (r.store, r.name, r.contents));
    let r = add_command(b"hello", b"hi there", None);
    assert_eq!((Store::ChatCommands, b("hello"), b("hi there")), (r.store, r.name, r.contents));
}

#[test]
fn command_is_removed_before_announcement() {
    assert_eq!(Some(Store::ChatCommands), remove_command(b"x", true, true).map(|r| r.store));
    assert_eq!(Some(Store::ChatAnnouncements), remove_command(b"x", false, true).map(|r| r.store));
    assert_eq!(Some(b("x")), remove_command(b"x", true, false).map(|r| r.name));
    assert!(remove_command(b"x", false, false).is_none());
}

#[test]
fn items_go_to_their_store() {
    let r = add_action(b"JOIN", b"greet:loud chat");
    assert_eq!((Store::IrcActions, b("JOIN"), b("greet:loud chat")), (r.store, r.name, r.contents));
    let r = add_reward(b"Hydrate", b"lights:blink");
    assert_eq!((Store::ChatRewards, b("Hydrate"), b("lights:blink")), (r.store, r.name, r.contents));
    assert_eq!(Store::ChatCommands, add_item(b"a", b"b", Store::ChatCommands).store);
    assert_eq!(Some(Store::IrcActions), remove_action(b"JOIN", true).map(|r| r.store));
    assert_eq!(Some(Store::ChatRewards), remove_reward(b"Hydrate", true).map(|r| r.store));
    assert!(remove_action(b"JOIN", false).is_none());
    assert!(remove_reward(b"Hydrate", false).is_none());
    assert_eq!(Some(b("n")), remove_item(b"n", Store::ChatAnnouncements, true).map(|r| r.name));
}

#[test]
fn listings_have_heading_and_items() {
    assert_eq!(
        lines(&["Available irc actions:", "- JOIN", "- PART"]),
        list_actions(&lines(&["JOIN", "PART"]))
    );
    assert_eq!(
        lines(&["Currently no chat rewards have been added.", "Available chat rewards:"]),
        list_rewards(&Vec::new())
    );
    assert_eq!(
        lines(&["Currently no chat announcements have been added."]),
        list_announcements(&Vec::new())
    );
    assert_eq!(
        lines(&["Current chat announcements:", "- water"]),
        list_announcements(&lines(&["water"]))
    );
    assert_eq!(
        lines(&["Available chat commands:", "- hello", "- bye", "Current chat announcements:", "- water"]),
        list_commands(&lines(&["hello", "bye"]), &lines(&["water"]))
    );
    assert_eq!(
        lines(&["Available chat commands:", "- hello", "Currently no chat announcements have been added."]),
        list_commands(&lines(&["hello"]), &Vec::new())
    );
    assert_eq!(
        lines(&["Currently no chat announcements have been added."]),
        list_commands(&Vec::new(), &lines(&["water"]))
    );
}

#[test]
fn command_line_is_dispatched() {
    let add = Cli { commands: Cmds::Commands { cmd: SubCmds::Add { name: b("hi"), message: b("hello"), timing: Some(2) } } };
    match command(add) {
        Task::Write { request } => {
            assert_eq!((Store::ChatAnnouncements, b("hi"), b("2\nhello")), (request.store, request.name, request.contents))
        }
        other => panic!("{:?}", other),
    }
    assert!(matches!(command(Cli { commands: Cmds::Commands { cmd: SubCmds::List } }), Task::List { store: Store::ChatCommands }));
    assert!(matches!(command(Cli { commands: Cmds::Rewards { cmd: RewardSubCmds::List } }), Task::List { store: Store::ChatRewards }));
    assert!(matches!(command(Cli { commands: Cmds::IrcActions { cmd: IrcActionSubCmds::List } }), Task::List { store: Store::IrcActions }));
    assert!(matches!(
        command(Cli { commands: Cmds::Commands { cmd: SubCmds::Remove { name: b("x") } } }),
        Task::RemoveCommand { name } if name == b("x")
    ));
    assert!(matches!(
        command(Cli { commands: Cmds::Rewards { cmd: RewardSubCmds::Remove { name: b("x") } } }),
        Task::RemoveItem { store: Store::ChatRewards, name } if name == b("x")
    ));
    assert!(matches!(
        command(Cli { commands: Cmds::IrcActions { cmd: IrcActionSubCmds::Add { name: b("JOIN"), cli: b("greet chat") } } }),
        Task::Write { request } if request.store == Store::IrcActions && request.contents == b("greet chat")
    ));
    assert!(matches!(
        command(Cli { commands: Cmds::Rewards { cmd: RewardSubCmds::Add { name: b("r"), cli: b("c") } } }),
        Task::Write { request } if request.store == Store::ChatRewards
    ));
    assert!(matches!(command(Cli { commands: Cmds::Login }), Task::Login));
    assert!(matches!(command(Cli { commands: Cmds::Admin }), Task::Nothing));
    let chat = Cli {
        commands: Cmds::Chat { twitch_name: Some(b("ann")), oauth_token: None, client_id: None, skip_announcements: true },
    };
    assert!(matches!(
        command(chat),
        Task::StartChat { twitch_name: Some(name), oauth_token: None, client_id: None, skip_announcements: true } if name == b("ann")
    ));
}

fn stored(success: bool) -> TokenStatus {
    TokenStatus {
        success,
        id: b("id"),
        scopes: None,
        token: Some(b("tok")),
        refresh: Some(b("ref")),
        username: Some(b("ann")),
        client_id: Some(b("cid")),
        message: None,
        error: None,
    }
}

#[test]
fn given_credentials_win_over_the_stored_token() {
    let c = get_credentials(Some(b"bob"), Some(b"oauth:x"), Some(b"c1"), Some(&stored(true))).unwrap();
    assert_eq!((b("bob"), b("oauth:x"), b("c1"), b("")), (c.twitch_name, c.oauth_token, c.client_id, c.refresh));
}

#[test]
fn stored_token_gets_the_oauth_prefix() {
    let c = get_credentials(Some(b"bob"), None, Some(b"c1"), Some(&stored(true))).unwrap();
    assert_eq!((b("ann"), b("oauth:tok"), b("cid"), b("ref")), (c.twitch_name, c.oauth_token, c.client_id, c.refresh));
}

#[test]
fn missing_or_failed_token_is_an_error() {
    assert_eq!(Some(CredentialsError::NoStoredToken), get_credentials(None, None, None, None).err());
    assert_eq!(Some(CredentialsError::LoginNeeded), get_credentials(None, None, None, Some(&stored(false))).err());
    let mut partial = stored(true);
    partial.refresh = None;
    assert_eq!(Some(CredentialsError::LoginNeeded), get_credentials(None, None, None, Some(&partial)).err());
}

#[test]
fn refreshed_token_replaces_what_it_names() {
    assert_eq!((b("t"), b("c")), refreshed_credentials(b("t"), b("c"), None));
    assert_eq!((b("tok"), b("cid")), refreshed_credentials(b("t"), b("c"), Some(&stored(true))));
    let mut partial = stored(true);
    partial.token = None;
    assert_eq!((b("t"), b("cid")), refreshed_credentials(b("t"), b("c"), Some(&partial)));
}

#[test]
fn login_gives_up_after_eighteen_answers() {
    assert_eq!(LoginStep::Store, login_step(0, true));
    assert_eq!(LoginStep::Wait, login_step(17, false));
    assert_eq!(LoginStep::GiveUp, login_step(18, false));
    assert_eq!(LoginStep::GiveUp, login_step(18, true));
}

#[test]
fn chat_post_calls_commands_and_actions() {
    let commands = lines(&["hello", "bye", "hello"]);
    match check_for_chat_commands(b"!commands", &commands) {
        ChatCommand::Say { message } => assert_eq!(b("Available commands: !hello, !bye, !hello"), message),
        other => panic!("{:?}", other),
    }
    match check_for_chat_commands(b"!commands", &Vec::new()) {
        ChatCommand::Say { message } => assert_eq!(b("Available commands: "), message),
        other => panic!("{:?}", other),
    }
    match check_for_chat_commands(b"!hello", &commands) {
        ChatCommand::Run { commands } => assert_eq!(lines(&["hello", "hello"]), commands),
        other => panic!("{:?}", other),
    }
    match check_for_chat_commands(b"hello", &commands) {
        ChatCommand::Run { commands } => assert!(commands.is_empty()),
        other => panic!("{:?}", other),
    }
    assert_eq!(lines(&["so"]), check_for_irc_actions(b"!so", &lines(&["so", "lurk"])));
    assert!(check_for_irc_actions(b"!so now", &lines(&["so", "lurk"])).is_empty());
}

#[test]
fn irc_action_runs_its_program_and_may_answer() {
    assert!(execute_command(None, b"Bob").is_none());
    assert!(execute_command(Some(b"greet:loud"), b"Bob").is_none());
    let action = execute_command(Some(b"greet:loud chat"), b"Bob").unwrap();
    assert_eq!(b("greet"), action.command.name);
    assert_eq!(lines(&["loud", "Bob"]), action.command.args);
    assert_eq!(b("chat"), action.option);
    let ok = ActionOutcome::Exited { success: true, stdout: b("welcome Bob") };
    assert_eq!(Some(b("welcome Bob")), action_reply(&action, &ok));
    let failed = ActionOutcome::Exited { success: false, stdout: b("x") };
    assert_eq!(None, action_reply(&action, &failed));
    assert_eq!(None, action_reply(&action, &ActionOutcome::SpawnFailed));
    let quiet = execute_command(Some(b"greet quiet"), b"").unwrap();
    assert!(quiet.command.args.is_empty());
    assert_eq!(None, action_reply(&quiet, &ok));
}

#[test]
fn admin_command_travels_with_a_separator() {
    let c = Command::from(b"hello::::hi there");
    assert_eq!((b("hello"), b("hi there"), b("hello::::hi there")), (c.name.clone(), c.output.clone(), c.common.clone()));
    let r = c.submit();
    assert_eq!((Store::ChatCommands, b("hello"), b("hi there")), (r.store, r.name, r.contents));
    let c = Command::from(b"a::::b::::c");
    assert_eq!((b("a"), b("b::::c")), (c.name, c.output));
    let c = Command::from(b"no separator");
    assert_eq!((b(""), b(""), b("::::")), (c.name, c.output, c.common));
    let c = Command::from(b":::::");
    assert_eq!((b(""), b(":")), (c.name, c.output));
    let s = AddCommandState::new();
    assert_eq!(b("::::"), s.command.common);
}

#[test]
fn text_helpers_compute_exact_values() {
    assert_eq!(b("0"), decimal(0));
    assert_eq!(b("18446744073709551615"), decimal(u64::MAX));
    assert_eq!(b("1050"), decimal(1050));
    assert_eq!(Some(0), parse_usize(b"0"));
    assert_eq!(Some(7), parse_usize(b"007"));
    assert_eq!(Some(12), parse_usize(b"+12"));
    assert_eq!(Some(usize::MAX), parse_usize(usize::MAX.to_string().as_bytes()));
    assert_eq!(None, parse_usize(b"18446744073709551616"));
    assert_eq!(None, parse_usize(b""));
    assert_eq!(None, parse_usize(b"+"));
    assert_eq!(None, parse_usize(b"1 "));
    assert_eq!(None, parse_usize(b"-1"));
    assert_eq!(lines(&["a", "", "b", ""]), split(b"a,,b,", b','));
    assert_eq!(lines(&[""]), split(b"", b','));
    assert_eq!(Some((b("a"), b("b:c"))), split_once(b"a:b:c", b':'));
    assert_eq!(None, split_once(b"abc", b':'));
    assert_eq!(b("a b"), trim(b" \t a b\r\n"));
    assert_eq!(b(""), trim(b"   "));
    assert!(contains(b"xxUSERNOTICExx", b"USERNOTICE"));
    assert!(contains(b"abc", b""));
    assert!(!contains(b"USERNOTIC", b"USERNOTICE"));
    assert!(equal_ignoring_case(b"UnFulfilled", b"unfulfilled"));
    assert!(!equal_ignoring_case(b"unfulfille", b"unfulfilled"));
    assert_eq!(b("abc"), text("abc"));
}

#[test]
fn first_post_is_marked() {
    let mut post = ChatMessage {
        badges: vec![],
        emotes: vec![],
        nickname: b("bob"),
        display_name: b(" Bob"),
        first_msg: true,
        returning_chatter: false,
        subscriber: false,
        moderator: false,
        message: b("  hello there \n"),
        color: b("#FF9912"),
        channel: b("#ann"),
        raid: false,
        raid_notice: vec![],
    };
    assert_eq!(lines(&["\u{2728} First Time Chat:", "bob: hello there"]), print_message(&post));
    post.first_msg = false;
    assert_eq!(lines(&["bob: hello there"]), print_message(&post));
    assert_eq!(lines(&["bob: hello there"]), output(&TwitchMessage::PrivMessage { message: post }));
    assert!(output(&TwitchMessage::RaidMessage { user_id: b("1"), raid_notice: b("x") }).is_empty());
}

#[test]
fn requests_carry_the_bare_token() {
    assert_eq!(b("Bearer abc123"), bearer(b"oauth:abc123"));
    assert_eq!(b("Bearer abc123"), bearer(b"abc123"));
    assert_eq!(b("OAuth abc123"), validation_authorization(b"oauth:abc123"));
    assert_eq!(b("https://twitchtokengenerator.com/api/status/xyz"), token_status_url(b"xyz"));
    assert_eq!(b("https://twitchtokengenerator.com/api/refresh/r1"), refresh_url(b"r1"));
    assert_eq!(
        Some(b("https://twitchtokengenerator.com/api/create/c2VyZ2VhbnQ=/channel:read:subscriptions+chat:read+chat:edit+channel:moderate+channel:read:redemptions+channel:manage:redemptions+channel:bot+user:write:chat+moderator:manage:shoutouts+user_read+chat_login+bits:read+channel:moderate+channel:read:ads+user:read:chat+user:bot+channel:bot")),
        create_token_url(b"sergeant")
    );
}
