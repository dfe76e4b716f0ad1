//! The room, its commands, its cards and what arrives from outside.

use lark_arena::bot::cards::{
    build_bot_added_welcome_card, build_help_card, build_lobby_card, build_lobby_card_with,
    build_member_welcome_card, build_refused_card, build_reset_card, error_toast, toast,
};
use lark_arena::bot::commands::{command_of, parse_command, said_to, Command, Mention};
use lark_arena::bot::dedupe::Seen;
use lark_arena::bot::room::{ai_seats_needed, RoomError};
use lark_arena::bot::routing::{reads_message, route_press, serves_chat, Press, RoomAction};
use lark_arena::feishu::events::{
    message_text, parse_bot_added, parse_card_action, parse_inbound_message, parse_member_added,
    read_action_part, said_in,
};
use lark_arena::json::{merge, obj1, obj2, obj3, text, Json};
use lark_arena::persona::Persona;
use lark_arena::server::{
    card_in, challenge_reply, event_in, inbound_card, inbound_event, ok_reply, CardRequest, Inbound,
};
use lark_arena::values::{parse_body, write_json};
use lark_arena::werewolf::error::GameError;
use lark_arena::werewolf::state::WolfGame;
use lark_arena::werewolf::types::{Role, Stage};

fn room(n: usize) -> WolfGame {
    let mut g = WolfGame::new("oc_room".into());
    for i in 0..n {
        g.add_player(format!("p{i}"), format!("P{i}")).unwrap();
    }
    g
}

fn mention(key: &str, open_id: &str) -> Mention {
    Mention { key: key.into(), open_id: open_id.into() }
}

#[test]
fn ai_fill_targets_minimum_nine_players() {
    assert_eq!(ai_seats_needed(0), 9);
    assert_eq!(ai_seats_needed(4), 5);
    assert_eq!(ai_seats_needed(9), 0);
    assert_eq!(ai_seats_needed(12), 0);
}

#[test]
fn lobby_contains_one_click_ai_fill_action() {
    let game = WolfGame::new("oc_test".into());
    let encoded = write_json(&build_lobby_card(&game));
    assert!(encoded.contains("AI 补齐人数"));
    assert!(encoded.contains("fill_ai_lobby"));
}

#[test]
fn command_parser_only_accepts_werewolf_namespace() {
    assert_eq!(
        parse_command("/wolf join", &[], "", false),
        Some(Command::WolfJoin)
    );
    assert_eq!(parse_command("/unknown join", &[], "", false), None);
}

#[test]
fn every_command_has_an_english_and_a_chinese_name() {
    for (word, command) in [
        ("join", Command::WolfJoin),
        ("加入", Command::WolfJoin),
        ("leave", Command::WolfLeave),
        ("离开", Command::WolfLeave),
        ("start", Command::WolfStart),
        ("begin", Command::WolfStart),
        ("go", Command::WolfStart),
        ("开始", Command::WolfStart),
        ("reset", Command::WolfReset),
        ("重置", Command::WolfReset),
        ("help", Command::WolfHelp),
        ("帮助", Command::WolfHelp),
        ("?", Command::WolfHelp),
        ("", Command::WolfHelp),
    ] {
        assert_eq!(command_of(word, None), Some(command), "{word}");
        assert_eq!(command_of("wolf", Some(word)), Some(command), "{word}");
        assert_eq!(
            parse_command(&format!("/wolf {word}"), &[], "", false),
            Some(command),
            "{word}"
        );
    }
    assert_eq!(command_of("fold", None), None);
    assert_eq!(command_of("狼人", None), Some(Command::WolfHelp));
}

#[test]
fn commands_are_read_whatever_the_case() {
    assert_eq!(parse_command("/wolf JOIN", &[], "", false), Some(Command::WolfJoin));
    assert_eq!(parse_command("Wolf Start", &[], "", true), Some(Command::WolfStart));
    assert_eq!(parse_command("/狼人杀 加入", &[], "", false), Some(Command::WolfJoin));
    assert_eq!(parse_command("/狼 离开", &[], "", false), Some(Command::WolfLeave));
}

#[test]
fn a_mention_addresses_the_bot() {
    let m = [mention("@_user_1", "ou_bot")];
    assert_eq!(parse_command("@_user_1 开始", &m, "ou_bot", false), Some(Command::WolfStart));
    assert_eq!(parse_command("@_user_1 开始", &m, "ou_other", false), None);
    assert_eq!(parse_command("开始", &[], "ou_bot", false), None);
    assert_eq!(parse_command("开始", &[], "ou_bot", true), Some(Command::WolfStart));
    assert_eq!(
        said_to("  @_user_1 wolf  join ", &m, "ou_bot", false),
        Some("wolf  join".to_string())
    );
}

#[test]
fn players_join_and_leave() {
    let mut g = room(2);
    assert_eq!(g.leave("p9"), Err(RoomError::NotJoined));
    assert_eq!(g.leave("p0"), Ok(()));
    assert_eq!(g.players.len(), 1);
    assert_eq!(g.players[0].open_id, "p1");
    g.add_player("p0".into(), "P0".into()).unwrap();
    assert_eq!(g.leave("p0"), Ok(()));
    assert_eq!(g.players.len(), 1);
}

#[test]
fn nobody_leaves_or_joins_a_running_game() {
    let mut g = room(9);
    g.start_room().unwrap();
    assert_eq!(g.leave("p0"), Err(RoomError::LeaveRunning));
    assert_eq!(g.fill_ai_lobby(true), Err(RoomError::AlreadyStarted));
    assert_eq!(g.add_ai(true), Err(RoomError::AlreadyStarted));
    assert_eq!(g.remove_ai(), Err(RoomError::AlreadyStarted));
    assert_eq!(g.start_room(), Err(RoomError::Running));
}

#[test]
fn ais_fill_the_room_up_to_nine() {
    let mut g = room(3);
    assert_eq!(g.fill_ai_lobby(false), Err(RoomError::NoModel));
    assert_eq!(g.players.len(), 3);
    assert_eq!(g.fill_ai_lobby(true), Ok(()));
    assert_eq!(g.players.len(), 9);
    assert_eq!(g.players[3].open_id, "ai:1");
    assert_eq!(g.players[8].open_id, "ai:6");
    assert!(g.players[8].is_ai);
    assert!(g.players[8].name.ends_with(" #9"));
    assert_eq!(g.fill_ai_lobby(true), Ok(()));
    assert_eq!(g.players.len(), 9);
}

#[test]
fn fresh_ais_are_numbered_after_the_largest() {
    let mut g = WolfGame::new("c".into());
    g.add_ai_player("ai:7".into(), "A".into(), Persona::Maniac).unwrap();
    g.add_player("ai:x".into(), "B".into()).unwrap();
    g.add_player("ai:+3".into(), "C".into()).unwrap();
    assert_eq!(g.last_ai_number(), 7);
    g.add_ai(true).unwrap();
    assert_eq!(g.players[3].open_id, "ai:8");
    assert!(g.is_well_formed());
}

#[test]
fn ais_join_one_by_one_up_to_twelve_and_the_last_leaves_first() {
    let mut g = room(11);
    assert_eq!(g.add_ai(true), Ok(()));
    assert_eq!(g.add_ai(true), Err(RoomError::Game(GameError::TableFull)));
    g.leave("p3").unwrap();
    assert_eq!(g.remove_ai(), Ok(()));
    assert_eq!(g.players.len(), 10);
    assert!(g.players.iter().all(|p| !p.is_ai));
    assert_eq!(g.remove_ai(), Err(RoomError::NoAi));
}

#[test]
fn personas_fill_in_the_given_order() {
    let mut g = WolfGame::new("c".into());
    let styles = vec![Persona::Maniac, Persona::TightWeak];
    g.fill_with(&styles).unwrap();
    assert_eq!(g.players[0].persona, Some(Persona::Maniac));
    assert_eq!(g.players[1].persona, Some(Persona::TightWeak));
    assert_eq!(g.players[0].name, format!("{} #1", Persona::Maniac.label()));
    assert_eq!(g.players[1].name, format!("{} #2", Persona::TightWeak.label()));
}

#[test]
fn a_room_starts_with_nine_to_twelve() {
    let mut g = room(8);
    assert_eq!(g.start_room(), Err(RoomError::PlayerCount(8)));
    g.add_player("p8".into(), "P8".into()).unwrap();
    assert_eq!(g.start_room(), Ok(()));
    assert!(g.running());
    let cards = g.role_cards();
    assert_eq!(cards.len(), 9);
    assert_eq!(cards[0].0, "p0");
    assert!(write_json(&cards[0].1).contains("你的身份是"));
}

#[test]
fn ais_get_no_role_card() {
    let mut g = room(4);
    g.fill_ai_lobby(true).unwrap();
    g.start_room().unwrap();
    let ids: Vec<String> = g.role_cards().into_iter().map(|c| c.0).collect();
    assert_eq!(ids, vec!["p0", "p1", "p2", "p3"]);
}

#[test]
fn refusals_of_the_room_have_their_texts() {
    for (e, t) in [
        (RoomError::Game(GameError::AlreadySeated), "你已经在桌上了"),
        (RoomError::NoRoom, "当前没有狼人杀房间"),
        (RoomError::LeaveRunning, "狼人杀进行中，不能离开"),
        (RoomError::NotJoined, "你还没有加入房间"),
        (RoomError::NoModel, "机器人未配置 OPENAI_API_KEY，暂时无法使用 AI 补齐"),
        (RoomError::AlreadyStarted, "狼人杀已经开始"),
        (RoomError::NoAi, "房间里没有 AI"),
        (RoomError::NoPlayers, "当前没有玩家，先加入房间"),
        (RoomError::PlayerCount(8), "狼人杀需要 9-12 名玩家，当前 8"),
        (RoomError::Running, "狼人杀正在进行中"),
    ] {
        assert_eq!(e.to_string(), t);
    }
}

#[test]
fn the_lobby_shows_what_can_be_done() {
    let empty = write_json(&build_lobby_card(&WolfGame::new("oc".into())));
    assert!(empty.contains("房间空空如也"));
    assert!(empty.contains("join_lobby"));
    assert!(!empty.contains("leave_lobby"));
    assert!(!empty.contains("remove_ai_lobby"));
    assert!(empty.contains("还差 9 人"));
    assert!(empty.contains("已就座 0 人 · 需要 9-12 人"));

    let mut g = room(3);
    g.fill_ai_lobby(true).unwrap();
    let full = write_json(&build_lobby_card(&g));
    assert!(full.contains("add_ai_lobby"));
    assert!(full.contains("remove_ai_lobby"));
    assert!(full.contains("start_wolf_lobby"));
    assert!(full.contains("leave_lobby"));
    assert!(full.contains("• 👤P0"));
    assert!(full.contains("person_list"));

    let without = write_json(&build_lobby_card_with(&g, false));
    assert!(!without.contains("add_ai_lobby"));
    assert!(without.contains("fill_ai_lobby"));

    g.start_room().unwrap();
    let running = write_json(&build_lobby_card(&g));
    assert!(running.contains("狼人杀进行中，结束后大厅会重新开放。"));
    assert!(!running.contains("join_lobby"));
    assert!(running.contains("第 1 天"));
}

#[test]
fn small_cards_say_what_they_should() {
    assert_eq!(
        write_json(&toast("好")),
        "{\"toast\":{\"content\":\"好\",\"type\":\"info\"}}"
    );
    assert!(write_json(&build_refused_card("不行")).contains("不行"));
    assert!(write_json(&build_reset_card()).contains("房间已重置"));
    let hello = write_json(&build_member_welcome_card("小明", "oc_1"));
    assert!(hello.contains("👋 **小明**，点击下方按钮加入房间。"));
    assert!(hello.contains("oc_1"));
    assert!(write_json(&build_bot_added_welcome_card(true, "")).contains("狼人杀机器人已加入本群。"));
    let thanks = write_json(&build_bot_added_welcome_card(false, "ou_1"));
    assert!(thanks.contains("ou_1"));
    assert!(thanks.contains("OPENAI_API_KEY"));
    assert!(write_json(&build_help_card()).contains("屠边"));
}

#[test]
fn an_event_counts_once_within_two_minutes() {
    let mut s = Seen::new();
    assert!(!s.is_duplicate_event("e1", 1000));
    assert!(s.is_duplicate_event("e1", 1000 + 119_999));
    assert!(!s.is_duplicate_event("e2", 2000));
    let mut s = Seen::new();
    assert!(!s.is_duplicate_event("e1", 1000));
    assert!(!s.is_duplicate_event("e1", 121_000));
    assert!(!s.is_duplicate_event("", 5));
    assert!(!s.is_duplicate_event("", 5));
}

#[test]
fn a_press_counts_once_within_three_seconds() {
    let mut s = Seen::new();
    assert!(!s.repeats(7, 0));
    assert!(s.repeats(7, 2999));
    assert!(!s.repeats(7, 3000));
    assert!(!s.repeats(8, 3001));
    assert!(!s.repeats(7, 13_000));
}

#[test]
fn presses_of_different_values_or_players_are_told_apart() {
    let mut s = Seen::new();
    let one = obj1("a", Json::Int(1));
    let two = obj1("a", Json::Int(2));
    assert!(!s.is_duplicate_action("ou_1", &one, 10));
    assert!(s.is_duplicate_action("ou_1", &one, 20));
    assert!(!s.is_duplicate_action("ou_1", &two, 30));
    assert!(!s.is_duplicate_action("ou_2", &one, 40));
    assert!(!s.is_duplicate_action("ou_1", &Json::Null, 50));
    assert!(s.is_duplicate_action("ou_1", &one, 3009));
    assert!(!s.is_duplicate_action("ou_1", &one, 3010));
}

#[test]
fn only_the_allowed_chat_is_served() {
    let one = Some("oc_1".to_string());
    assert!(serves_chat(&one, "oc_1"));
    assert!(!serves_chat(&one, "oc_2"));
    assert!(serves_chat(&None, "oc_2"));
    assert!(reads_message(&one, "text", "oc_1", "group"));
    assert!(reads_message(&one, "text", "oc_2", "p2p"));
    assert!(!reads_message(&one, "text", "oc_2", "group"));
    assert!(!reads_message(&None, "image", "oc_1", "group"));
}

#[test]
fn buttons_go_to_the_room_or_to_the_game() {
    let none = obj1("x", text("y"));
    let form = obj1("message", text("hi"));
    assert!(matches!(route_press(&none, &form, "u", "oc"), Press::Nothing));
    for (name, action) in [
        ("join_lobby", RoomAction::Join),
        ("leave_lobby", RoomAction::Leave),
        ("fill_ai_lobby", RoomAction::FillAi),
        ("add_ai_lobby", RoomAction::AddAi),
        ("remove_ai_lobby", RoomAction::RemoveAi),
        ("start_wolf_lobby", RoomAction::Start),
        ("reset_lobby", RoomAction::Reset),
        ("else", RoomAction::Unknown),
    ] {
        let v = merge(obj1("chat_id", text("oc_room")), obj1("action", text(name)));
        match route_press(&v, &form, "u", "oc") {
            Press::Room { chat_id, action: a } => {
                assert_eq!(chat_id, "oc_room");
                assert_eq!(a, action);
            }
            other => panic!("{other:?}"),
        }
    }
    let v = obj2("action", text("wolf_chat_send"), "game", Json::Int(4));
    match route_press(&v, &form, "u", "oc") {
        Press::Game { chat_id, click } => {
            assert_eq!(chat_id, "oc");
            assert_eq!(click.action, "wolf_chat_send");
            assert_eq!(click.open_id, "u");
            assert_eq!(click.actor, "");
            assert_eq!(click.game, 4);
            assert_eq!(click.target, None);
            assert_eq!(click.message, "hi");
            assert_eq!(click.speech, "");
        }
        other => panic!("{other:?}"),
    }
}

fn event(kind: &str, token: &str, event: Json) -> Json {
    obj2(
        "header",
        obj3("event_type", text(kind), "token", text(token), "event_id", text("e1")),
        "event",
        event,
    )
}

#[test]
fn requests_are_sorted_by_kind_and_token() {
    let token = Some("secret".to_string());
    let challenge = obj2("type", text("url_verification"), "challenge", text("abc"));
    assert!(matches!(inbound_event(&challenge, &token), Inbound::Challenge(c) if c == "abc"));
    assert!(matches!(inbound_card(&challenge, &token), CardRequest::Challenge(c) if c == "abc"));
    for (kind, message, member, bot) in [
        ("im.message.receive_v1", true, false, false),
        ("im.chat.member.user.added_v1", false, true, false),
        ("im.chat.member.bot.added_v1", false, false, true),
        ("im.other", false, false, false),
    ] {
        let r = inbound_event(&event(kind, "secret", obj1("x", text("y"))), &token);
        assert_eq!(matches!(r, Inbound::Message), message);
        assert_eq!(matches!(r, Inbound::MemberAdded), member);
        assert_eq!(matches!(r, Inbound::BotAdded), bot);
        let bad = event(kind, "wrong", obj1("x", text("y")));
        assert!(matches!(inbound_event(&bad, &token), Inbound::BadToken));
        assert!(matches!(inbound_card(&bad, &token), CardRequest::BadToken));
        assert!(matches!(inbound_card(&bad, &None), CardRequest::Press));
        assert!(matches!(inbound_card(&bad, &Some(String::new())), CardRequest::Press));
    }
    let later = event("url_verification", "secret", obj1("challenge", text("xyz")));
    assert!(matches!(inbound_event(&later, &token), Inbound::Challenge(c) if c == "xyz"));
    let old = obj1("token", text("secret"));
    assert!(matches!(inbound_event(&old, &token), Inbound::Ignored));
    assert_eq!(write_json(&challenge_reply("q")), "{\"challenge\":\"q\"}");
    assert_eq!(write_json(&ok_reply()), "{\"ok\":true}");
    assert_eq!(
        write_json(&error_toast("坏了")),
        "{\"toast\":{\"content\":\"坏了\",\"type\":\"error\"}}"
    );
}

#[test]
fn the_text_of_a_message_is_read() {
    let content = obj2("lang", text("zh"), "text", text("@_user_1 加入"));
    assert_eq!(message_text(&content), "@_user_1 加入");
    assert_eq!(message_text(&obj1("title", text("加入"))), "");
    assert_eq!(message_text(&obj1("text", Json::Int(1))), "");
    assert_eq!(message_text(&Json::Null), "");
    assert_eq!(said_in("{\"text\":\"@_user_1 \\u52a0入\"}"), "@_user_1 加入");
    assert_eq!(said_in("{\"title\":\"加入\"}"), "");
    assert_eq!(said_in("{\"text\":\"加入\""), "");
    assert_eq!(said_in("加入"), "");
}

#[test]
fn requests_are_read_from_their_bytes() {
    let token = Some("secret".to_string());
    let challenge = "{\"type\":\"url_verification\",\"challenge\":\"abc\"}".as_bytes();
    assert!(matches!(event_in(challenge, &token), Inbound::Challenge(c) if c == "abc"));
    assert!(matches!(card_in(challenge, &token), CardRequest::Challenge(c) if c == "abc"));
    let message =
        "{\"header\":{\"token\":\"secret\",\"event_type\":\"im.message.receive_v1\"}}".as_bytes();
    assert!(matches!(event_in(message, &token), Inbound::Message));
    assert!(matches!(card_in(message, &token), CardRequest::Press));
    assert!(matches!(event_in(message, &Some("other".into())), Inbound::BadToken));
    assert!(matches!(card_in(message, &Some("other".into())), CardRequest::BadToken));
    let null = "{\"header\":{\"token\":null},\"token\":\"secret\"}".as_bytes();
    assert!(matches!(event_in(null, &token), Inbound::BadToken));
}

#[test]
fn malformed_requests_are_skipped() {
    for bytes in [&b""[..], b"{", b"challenge", b"{\"type\":}", b"\xff\xfe", b"{} {}"] {
        assert!(matches!(event_in(bytes, &None), Inbound::Ignored));
        assert!(matches!(card_in(bytes, &None), CardRequest::Press));
        assert!(parse_card_action(&parse_body(bytes)).is_none());
        assert!(parse_inbound_message(&parse_body(bytes)).is_none());
        let token = Some("secret".to_string());
        assert!(matches!(event_in(bytes, &token), Inbound::BadToken));
        assert!(matches!(card_in(bytes, &token), CardRequest::BadToken));
    }
}

#[test]
fn events_are_read() {
    let message = obj3(
        "chat_id",
        text("oc_1"),
        "mentions",
        Json::List(vec![obj2(
            "key",
            text("@_user_1"),
            "id",
            obj1("open_id", text("ou_bot")),
        )]),
        "message_type",
        text("text"),
    );
    let sender = obj1("sender_id", obj1("open_id", text("ou_9")));
    let body = event("im.message.receive_v1", "", obj2("message", message, "sender", sender));
    let m = parse_inbound_message(&body).unwrap();
    assert_eq!(m.event_id, "e1");
    assert_eq!(m.chat_id, "oc_1");
    assert_eq!(m.sender_open_id, "ou_9");
    assert_eq!(m.message_type, "text");
    assert_eq!(m.chat_type, "");
    assert_eq!(m.mentions.len(), 1);
    assert_eq!(m.mentions[0].key, "@_user_1");
    assert_eq!(m.mentions[0].open_id, "ou_bot");
    assert!(parse_inbound_message(&obj1("a", text("b"))).is_none());

    let users = Json::List(vec![obj2(
        "name",
        text("小明"),
        "user_id",
        obj1("open_id", text("ou_2")),
    )]);
    let body = event("x", "", obj2("chat_id", text("oc_2"), "users", users));
    let a = parse_member_added(&body);
    assert_eq!(a.chat_id, "oc_2");
    assert_eq!(a.users, vec![("小明".to_string(), "ou_2".to_string())]);

    let op = obj1("open_id", text("ou_3"));
    let b = parse_bot_added(&event("x", "", obj2("chat_id", text("oc_3"), "operator_id", op)));
    assert_eq!(b.chat_id, "oc_3");
    assert_eq!(b.operator_open_id, "ou_3");
    assert_eq!(b.event_id, "e1");

    let action = obj1("value", obj1("action", text("join_lobby")));
    let who = obj1("open_id", text("ou_4"));
    let place = obj1("open_chat_id", text("oc_4"));
    let body = event("x", "", obj3("action", action, "operator", who, "context", place));
    let c = parse_card_action(&body).unwrap();
    assert_eq!(c.open_id, "ou_4");
    assert_eq!(c.open_chat_id, "oc_4");
    let value = read_action_part(&body, "value").unwrap();
    assert_eq!(value.text_at("action"), Some("join_lobby".to_string()));
    assert!(read_action_part(&body, "form_value").is_none());
    assert!(parse_card_action(&obj1("a", text("b"))).is_none());
}

#[test]
fn a_started_room_is_dealt_a_board() {
    let mut g = room(12);
    g.start_room().unwrap();
    let count = |r: Role| g.players.iter().filter(|p| p.role == Some(r)).count();
    assert_eq!(count(Role::Werewolf), 3);
    assert_eq!(count(Role::WolfKing), 1);
    assert_eq!(count(Role::Villager), 4);
    assert_eq!(g.stage, Stage::GuardPick);
    assert_eq!(g.game_count, 1);
}

#[test]
fn deals_and_styles_are_random() {
    let mut orders: Vec<Vec<Option<Role>>> = vec![];
    let mut styles: Vec<Persona> = vec![];
    for _ in 0..60 {
        let mut g = room(9);
        g.start_room().unwrap();
        let order: Vec<Option<Role>> = g.players.iter().map(|p| p.role).collect();
        if !orders.contains(&order) {
            orders.push(order);
        }
        let style = Persona::random();
        if !styles.contains(&style) {
            styles.push(style);
        }
    }
    assert!(orders.len() > 1);
    assert!(styles.len() > 1);
}

#[test]
fn fields_written_over_others_are_read_back() {
    let a = obj2("x", text("1"), "y", text("2"));
    let b = obj2("y", text("3"), "z", Json::Int(4));
    let m = merge(a, b);
    assert_eq!(m.text_at("x"), Some("1".to_string()));
    assert_eq!(m.text_at("y"), Some("3".to_string()));
    assert_eq!(m.int_at("z"), Some(4));
    assert_eq!(m.int_at("y"), None);
    assert_eq!(m.text_or_empty("w"), "");
}
