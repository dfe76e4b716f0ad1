//! What an AI player is asked and what its replies mean.

use lark_arena::persona::Persona;
use lark_arena::werewolf::answers::Answer;
use lark_arena::werewolf::asking::ModelReply;
use lark_arena::werewolf::attempts::Question;
use lark_arena::werewolf::llm::{
    badge_pass, badge_pass_prompt, chat_with_history, day_speech, day_speech_prompt,
    dying_hunter_combined, dying_hunter_prompt, guard_pick, guard_pick_prompt, hunter_pick,
    hunter_pick_prompt, json_payload, last_words, last_words_prompt, norm_thinking, persona_line,
    seer_pick, seer_pick_prompt, sheriff_direction, sheriff_direction_prompt, sheriff_run,
    sheriff_run_prompt, sheriff_speech, sheriff_speech_prompt, sheriff_vote, sheriff_vote_prompt,
    vote_pick, vote_pick_prompt, witch_decide, witch_decide_word, witch_prompt, wolf_pick,
    wolf_pick_prompt, DyingShooterResp, MaybeSeatResp, Prompt, SeatResp, SpeechResp,
    WitchDecision, WitchResp, WolfPickResp, YesNoResp,
};
use lark_arena::werewolf::recap::render_recap;
use lark_arena::werewolf::state::WolfGame;
use lark_arena::werewolf::types::{Role, Stage, ThinkingKind};
use lark_arena::werewolf::view::build_view;

fn board() -> Vec<Role> {
    vec![
        Role::Werewolf,
        Role::Werewolf,
        Role::WolfKing,
        Role::Seer,
        Role::Witch,
        Role::Hunter,
        Role::Guard,
        Role::Villager,
        Role::Villager,
        Role::Villager,
    ]
}

/// Ten AIs: two wolves, the wolf king, seer, witch, hunter, guard and three villagers.
fn table() -> WolfGame {
    let mut g = WolfGame::new("oc".into());
    for i in 0..10 {
        g.add_ai_player(format!("ai:{i}"), format!("P{i}"), Persona::at(i % 5)).unwrap();
    }
    g.start_with_roles(&board());
    g
}

fn speech(raw: &str) -> SpeechResp {
    let v: serde_json::Value = sonic_rs::from_str(json_payload(raw)).unwrap();
    let field = |k: &str| v.get(k).and_then(|x| x.as_str()).map(|x| x.to_string());
    SpeechResp { speech: field("speech"), thinking: field("thinking") }
}

fn seat(t: usize) -> Option<SeatResp> {
    Some(SeatResp { target_idx: t, thinking: Some(" 想 ".into()) })
}

fn maybe(t: i64) -> Option<MaybeSeatResp> {
    Some(MaybeSeatResp { target_idx: t, thinking: None })
}

#[test]
fn persona_line_renders() {
    let line = persona_line(Some(Persona::Maniac));
    assert!(line.contains("头铁") || line.contains("Maniac") || line.contains("梭哈"));
}

#[test]
fn parses_json_from_markdown_fence() {
    let raw = "  ```json\n{\"speech\":\"继续盘逻辑\",\"thinking\":\"隐藏推理\"}\n```  ";
    let parsed = speech(raw);
    assert_eq!(parsed.speech.as_deref(), Some("继续盘逻辑"));
    assert_eq!(parsed.thinking.as_deref(), Some("隐藏推理"));
}

#[test]
fn parses_unfenced_json_unchanged() {
    let raw = "{\"speech\":\"正常发言\"}";
    let parsed = speech(raw);
    assert_eq!(parsed.speech.as_deref(), Some("正常发言"));
}

#[test]
fn fences_are_taken_off_only_in_pairs() {
    assert_eq!(json_payload("```\n{}\n```"), "{}");
    assert_eq!(json_payload(" {} "), "{}");
    assert_eq!(json_payload("```JSON\n{}\n ``` "), "{}");
    assert_eq!(json_payload("```json {\"a\":1}"), "```json {\"a\":1}");
    assert_eq!(json_payload("```rust\n{}\n```"), "```rust\n{}\n```");
    assert_eq!(json_payload("```\n{}"), "```\n{}");
}

#[test]
fn thoughts_are_trimmed() {
    assert_eq!(norm_thinking(Some("  a b ".into())).as_deref(), Some("a b"));
    assert_eq!(norm_thinking(Some(" \n ".into())), None);
    assert_eq!(norm_thinking(None), None);
}

#[test]
fn refused_answers_come_back_with_the_reason() {
    let p = Prompt { system: "s".into(), user: "u".into() };
    let history = vec![("{}".to_string(), "不行".to_string())];
    let chat = chat_with_history(p, &history);
    assert_eq!(chat.len(), 4);
    assert_eq!(chat[0], ("system".to_string(), "s".to_string()));
    assert_eq!(chat[1], ("user".to_string(), "u".to_string()));
    assert_eq!(chat[2], ("assistant".to_string(), "{}".to_string()));
    assert_eq!(chat[3].0, "user");
    assert!(chat[3].1.contains("不行"));
}

#[test]
fn the_guard_may_not_repeat() {
    let mut g = table();
    g.last_guard_target = Some(3);
    let view = build_view(&g, 6);
    let p = guard_pick_prompt(&view, &g).unwrap();
    assert!(p.system.contains("守卫"));
    assert_eq!(guard_pick(&view, &g, seat(7)), (7, Some("想".to_string())));
    assert_eq!(guard_pick(&view, &g, seat(3)).0, 6);
    assert_eq!(guard_pick(&view, &g, None), (6, None));
}

#[test]
fn wolves_pick_whom_they_name() {
    let mut g = table();
    g.stage = Stage::WolvesPick;
    let view = build_view(&g, 0);
    assert!(wolf_pick_prompt(&view, &g, true).is_some());
    let reply = Some(WolfPickResp { target_idx: 8, chat: Some(" 刀他 ".into()), thinking: None });
    let (d, _) = wolf_pick(&view, true, reply.clone());
    assert_eq!(d.target_idx, 8);
    assert_eq!(d.chat.as_deref(), Some("刀他"));
    let (d, _) = wolf_pick(&view, false, reply);
    assert_eq!(d.chat, None);
    let (d, _) = wolf_pick(&view, true, None);
    assert_eq!(d.target_idx, 0);
}

#[test]
fn the_seer_checks_whom_it_names() {
    let mut g = table();
    g.stage = Stage::SeerPick;
    let view = build_view(&g, 3);
    assert!(seer_pick_prompt(&view).is_some());
    assert_eq!(seer_pick(&view, seat(0)).0, 0);
    assert_eq!(seer_pick(&view, seat(3)).0, 0);
    assert_eq!(seer_pick(&view, None), (0, None));
}

#[test]
fn the_witch_does_what_she_says() {
    let mut g = table();
    g.stage = Stage::WitchAct;
    g.night_victim = Some(7);
    let view = build_view(&g, 4);
    assert!(witch_prompt(&view, &g).user.contains("P7"));
    let say = |action: &str, t: Option<usize>| {
        let r = WitchResp { action: action.into(), poison_target_idx: t, thinking: None };
        witch_decide(&view, &g, Some(r)).0
    };
    assert_eq!(say("save", None), WitchDecision::Save);
    assert_eq!(say("SAVE", None), WitchDecision::Save);
    assert_eq!(say("poison", Some(0)), WitchDecision::Poison(0));
    assert_eq!(say("poison", None), WitchDecision::Skip);
    assert_eq!(say("??", Some(0)), WitchDecision::Skip);
    assert_eq!(witch_decide(&view, &g, None).0, WitchDecision::Skip);
    assert_eq!(witch_decide_word(&view, &g, "skip", None), WitchDecision::Skip);
}

#[test]
fn votes_name_a_seat_or_none() {
    let mut g = table();
    g.stage = Stage::DayVote;
    let view = build_view(&g, 7);
    assert!(vote_pick_prompt(&view, &g).user.contains("P0"));
    assert_eq!(vote_pick(&view, &g, maybe(0)).0.target_idx, Some(0));
    assert_eq!(vote_pick(&view, &g, maybe(-1)).0.target_idx, None);
    assert_eq!(vote_pick(&view, &g, maybe(7)).0.target_idx, None);
    assert_eq!(vote_pick(&view, &g, maybe(99)).0.target_idx, None);
    assert_eq!(vote_pick(&view, &g, None).0.target_idx, None);
}

#[test]
fn shots_and_badges_name_a_seat_or_none() {
    let g = table();
    let view = build_view(&g, 5);
    assert!(hunter_pick_prompt(&view).is_some());
    assert!(badge_pass_prompt(&view).is_some());
    assert_eq!(hunter_pick(&view, maybe(1)).0, Some(1));
    assert_eq!(hunter_pick(&view, maybe(5)).0, None);
    assert_eq!(badge_pass(&view, maybe(1)).0, Some(1));
    assert_eq!(badge_pass(&view, maybe(-2)).0, None);
}

#[test]
fn the_election_is_asked_about() {
    let mut g = table();
    g.stage = Stage::SheriffVote;
    let view = build_view(&g, 7);
    assert!(sheriff_run_prompt(&view).user.len() > 0);
    assert_eq!(sheriff_run(&view, Some(YesNoResp { yes: true, thinking: None })).0, true);
    assert_eq!(sheriff_run(&view, Some(YesNoResp { yes: false, thinking: None })).0, false);
    let candidates = vec![(1usize, "P1".to_string()), (2, "P2".to_string())];
    let p = sheriff_vote_prompt(&view, &candidates).unwrap();
    assert!(p.user.contains("P2"));
    assert_eq!(sheriff_vote(&candidates, maybe(2)).0, Some(2));
    assert_eq!(sheriff_vote(&candidates, maybe(3)).0, None);
    assert!(sheriff_direction_prompt(&view).system.len() > 0);
    assert_eq!(sheriff_direction(Some(YesNoResp { yes: false, thinking: None })).0, false);
}

#[test]
fn speeches_are_taken_over() {
    let g = table();
    let view = build_view(&g, 5);
    let say = |t: &str| Some(SpeechResp { speech: Some(t.into()), thinking: Some("x".into()) });
    assert_eq!(day_speech(say(" 过 ")).0, "过");
    assert_eq!(day_speech(say("过")).1.as_deref(), Some("x"));
    assert_eq!(last_words(say("再见")).0, "再见");
    assert_eq!(sheriff_speech(say("投我")).0, "投我");
    for p in [day_speech_prompt(&view), last_words_prompt(&view), sheriff_speech_prompt(&view)] {
        assert!(p.system.contains(Persona::at(0).werewolf_description()));
        assert!(p.user.contains("P5"));
    }
}

#[test]
fn a_dying_hunter_speaks_and_shoots_at_once() {
    let mut g = table();
    g.players[5].alive = false;
    let view = build_view(&g, 5);
    assert!(dying_hunter_prompt(&view).user.contains("P1"));
    let r = DyingShooterResp {
        speech: Some("带走".into()),
        target_idx: Some(1),
        thinking: None,
    };
    let (d, thought) = dying_hunter_combined(&view, Some(r));
    assert_eq!(d.speech, "带走");
    assert_eq!(d.target, Some(1));
    assert_eq!(thought, None);
}

#[test]
fn the_recap_tells_the_night() {
    let mut g = table();
    g.guard_pick("ai:6", "ai:7").unwrap();
    g.wolf_pick("ai:0", "ai:8").unwrap();
    g.wolf_pick("ai:1", "ai:8").unwrap();
    g.wolf_pick("ai:2", "ai:8").unwrap();
    g.advance_after_wolves().unwrap();
    assert_eq!(g.seer_check("ai:3", "ai:2"), Ok(true));
    let text = render_recap(&g).join("\n");
    assert!(text.contains("P7"));
    assert!(text.contains("P8"));
    assert!(text.contains("P2"));
}

#[test]
fn only_the_own_thoughts_are_shown() {
    let mut g = table();
    g.push_thinking(0, ThinkingKind::WolfPick, "我的秘密".into());
    g.push_thinking(1, ThinkingKind::WolfPick, "别人的秘密".into());
    let s = build_view(&g, 0).render();
    assert!(s.contains("我的秘密"));
    assert!(!s.contains("别人的秘密"));
}

#[test]
fn roles_are_secret() {
    let g = table();
    let wolf = build_view(&g, 0).render();
    assert!(wolf.contains("P2"));
    let villager = build_view(&g, 8);
    assert!(villager.teammates.is_empty());
    assert!(villager.seer_log.is_empty());
    assert_eq!(build_view(&g, 0).teammates.len(), 2);
    assert_eq!(build_view(&g, 0).teammates[1].0, 2);
}

#[test]
fn questions_are_put_to_the_model() {
    let mut g = table();
    let p = g.ask(6, Question::Guard).unwrap();
    let view = build_view(&g, 6);
    let q = guard_pick_prompt(&view, &g).unwrap();
    assert_eq!((p.system, p.user), (q.system, q.user));
    assert!(g.ask(6, Question::Stay).is_none());
    g.stage = Stage::SheriffVote;
    assert!(g.ask(7, Question::Elect).is_none());
    g.sheriff_nominations = vec![(1, true), (2, false)];
    let p = g.ask(7, Question::Elect).unwrap();
    assert!(p.user.contains("1 = P1"));
    let every = [
        Question::Wolf { speak: true },
        Question::Seer,
        Question::Witch,
        Question::Run,
        Question::SheriffSpeech,
        Question::Direction,
        Question::DaySpeech,
        Question::Vote,
        Question::LastWords,
        Question::Dying,
        Question::Shoot,
        Question::Badge,
    ];
    for q in every {
        let p = g.ask(7, q).unwrap();
        assert!(p.system.contains("JSON"), "{q:?}");
        assert!(p.user.contains("P7"), "{q:?}");
    }
}

#[test]
fn replies_of_the_model_are_understood() {
    let mut g = table();
    let guard = ModelReply::Seat(SeatResp { target_idx: 8, thinking: Some(" 守 ".into()) });
    let (a, t) = g.understand(6, Question::Guard, Some(guard));
    assert!(matches!(a, Answer::Guard(8)));
    assert_eq!(t.as_deref(), Some("守"));
    let wrong = ModelReply::Speech(SpeechResp { speech: Some("?".into()), thinking: None });
    let (a, t) = g.understand(6, Question::Guard, Some(wrong));
    assert!(matches!(a, Answer::Guard(6)));
    assert_eq!(t, None);
    g.stage = Stage::WitchAct;
    let far = ModelReply::Witch(WitchResp {
        action: "poison".into(),
        poison_target_idx: Some(77),
        thinking: None,
    });
    let (a, _) = g.understand(4, Question::Witch, Some(far));
    assert!(matches!(a, Answer::Witch(WitchDecision::Skip)));
    let near = ModelReply::Witch(WitchResp {
        action: "Poison".into(),
        poison_target_idx: Some(1),
        thinking: None,
    });
    let (a, _) = g.understand(4, Question::Witch, Some(near));
    assert!(matches!(a, Answer::Witch(WitchDecision::Poison(1))));
    let (a, _) = g.understand(7, Question::SheriffSpeech, None);
    assert!(matches!(a, Answer::SheriffSpeech(s) if s == "我先表态。"));
    let (a, _) = g.understand(3, Question::Run, None);
    assert!(matches!(a, Answer::Run(true)));
    let (a, _) = g.understand(7, Question::Stay, None);
    assert!(matches!(a, Answer::Stay(true)));
    let vote = ModelReply::MaybeSeat(MaybeSeatResp { target_idx: 2, thinking: None });
    let (a, _) = g.understand(7, Question::Badge, Some(vote));
    assert!(matches!(a, Answer::Badge(Some(2))));
}
