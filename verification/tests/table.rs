//! Tables that run by themselves: plans, buttons, AI answers and public cards.

use lark_arena::bot::cards::answer;
use lark_arena::json::{merge, obj1, obj2, text, Json};
use lark_arena::persona::Persona;
use lark_arena::values::write_json;
use lark_arena::werewolf::actions::{Action, Outcome};
use lark_arena::werewolf::answers::{Answer, MAX_ATTEMPTS};
use lark_arena::werewolf::attempts::{Question, Verdict};
use lark_arena::werewolf::cards::build_guard_night_card;
use lark_arena::werewolf::clicks::{reply_without_table, Click};
use lark_arena::werewolf::error::GameError;
use lark_arena::werewolf::llm::WitchDecision;
use lark_arena::werewolf::notices::Slot;
use lark_arena::werewolf::plan::{asked_together, Next};
use lark_arena::werewolf::recap::render_recap;
use lark_arena::werewolf::state::WolfGame;
use lark_arena::werewolf::types::{Role, Stage};
use lark_arena::werewolf::view::build_view;

fn roles_9() -> Vec<Role> {
    vec![
        Role::Werewolf,
        Role::Werewolf,
        Role::Werewolf,
        Role::Seer,
        Role::Witch,
        Role::Hunter,
        Role::Villager,
        Role::Villager,
        Role::Villager,
    ]
}

fn roles_10() -> Vec<Role> {
    vec![
        Role::Werewolf,
        Role::Werewolf,
        Role::WolfKing,
        Role::Seer,
        Role::Witch,
        Role::Hunter,
        Role::Guard,
        Role::Villager,
        Role::Villager,
        Role::Villager,
    ]
}

/// A started table whose first `humans` seats are humans.
fn table(roles: Vec<Role>, humans: usize) -> WolfGame {
    let mut g = WolfGame::new("oc".into());
    for i in 0..roles.len() {
        if i < humans {
            g.add_player(format!("p{i}"), format!("P{i}")).unwrap();
        } else {
            g.add_ai_player(format!("p{i}"), format!("P{i}"), Persona::at(i % 5)).unwrap();
        }
    }
    g.start_with_roles(&roles);
    g
}

fn click(g: &WolfGame, who: &str, action: &str, target: Option<&str>) -> Click {
    Click {
        action: action.into(),
        open_id: who.into(),
        actor: who.into(),
        game: g.game_count as u64,
        target: target.map(|t| t.to_string()),
        message: String::new(),
        speech: String::new(),
    }
}

fn shown(g: &WolfGame) -> String {
    format!("{g:?}")
}

/// Lets a table of AIs play, each giving the answer it gives without a model.
fn play_out(g: &mut WolfGame) -> usize {
    let mut steps = 0;
    while g.stage != Stage::Ended && steps < 400 {
        assert!(g.is_well_formed());
        steps += 1;
        let plan = g.plan();
        assert!(plan.humans.is_empty());
        for seat in plan.ais {
            if let Some(r) = g.attempt_foregone(seat) {
                assert_eq!(r.verdict, Verdict::Done);
                continue;
            }
            let mut history = vec![];
            loop {
                let Some(q) = g.question(seat) else { break };
                let a = g.plain_answer(seat, q);
                let r = g.attempt(seat, &a, &mut history);
                assert!(history.len() <= MAX_ATTEMPTS);
                if r.verdict != Verdict::Retry {
                    break;
                }
            }
        }
        match plan.next {
            Next::Wait => panic!("an AI table waits at {:?}", g.stage),
            Next::Again => {}
            Next::Settle => {
                if g.plan().next == Next::Settle {
                    g.settle();
                }
            }
        }
        if let Some(n) = g.public_notice() {
            g.note_public(n.slot, "om_1".into());
        }
    }
    steps
}

#[test]
fn ai_tables_always_end() {
    for n in 9..=12 {
        for _ in 0..5 {
            let mut g = WolfGame::new("oc".into());
            for i in 0..n {
                g.add_ai_player(format!("ai:{i}"), format!("A{i}"), Persona::random()).unwrap();
            }
            g.start_game().unwrap();
            play_out(&mut g);
            assert_eq!(g.stage, Stage::Ended, "{n}");
            assert!(g.victory().is_some());
            assert!(write_json(&g.announce_end().unwrap()).contains("A0"));
            assert!(!render_recap(&g).is_empty());
        }
    }
}

#[test]
fn a_new_game_begins_after_the_end() {
    let mut g = table(roles_9(), 0);
    play_out(&mut g);
    assert_eq!(g.stage, Stage::Ended);
    g.start_game().unwrap();
    assert_eq!(g.game_count, 2);
    assert_eq!(g.day, 1);
    assert!(g.players.iter().all(|p| p.alive));
    assert!(g.is_well_formed());
}

#[test]
fn humans_get_cards_and_ais_get_questions() {
    let mut g = table(roles_9(), 2);
    assert_eq!(g.stage, Stage::WolvesPick);
    let plan = g.plan();
    assert_eq!(plan.humans, vec![0, 1]);
    assert!(plan.ais.is_empty());
    assert_eq!(plan.next, Next::Wait);
    for who in ["p0", "p1"] {
        let r = g.click(&click(&g, who, "wolf_kill", Some("p6")));
        assert_eq!(r.toast.as_deref(), Some("已选目标 · 改主意可再点"));
        assert!(r.saved && r.wolves && r.progress && r.advance);
        let r = g.click(&click(&g, who, "wolf_ready", None));
        assert_eq!(r.toast.as_deref(), Some("已就绪 · 等队友"));
    }
    let plan = g.plan();
    assert_eq!(plan.humans, vec![0, 1]);
    assert_eq!(plan.ais, vec![2]);
    assert_eq!(g.question(2), Some(Question::Wolf { speak: true }));
    let bite = Answer::Wolf { target: 6, chat: None };
    assert_eq!(g.attempt(2, &bite, &mut vec![]).verdict, Verdict::Done);
    let plan = g.plan();
    assert_eq!(plan.humans, vec![0, 1]);
    assert!(plan.ais.is_empty());
    assert_eq!(plan.next, Next::Settle);
    g.settle();
    assert_eq!(g.stage, Stage::SeerPick);
}

#[test]
fn buttons_of_other_games_and_players_are_refused() {
    let mut g = table(roles_9(), 9);
    let before = shown(&g);
    let mut c = click(&g, "p0", "wolf_kill", Some("p6"));
    c.game = 7;
    assert_eq!(g.click(&c).toast.as_deref(), Some("这是上一局的按钮"));
    let mut c = click(&g, "p0", "wolf_kill", Some("p6"));
    c.actor = "p1".into();
    assert_eq!(g.click(&c).toast.as_deref(), Some("这张卡片不是给你的"));
    let r = g.click(&click(&g, "p3", "wolf_kill", Some("p6")));
    assert_eq!(r.toast.as_deref(), Some("你不是存活的狼人"));
    assert!(!r.saved && !r.advance);
    let r = g.click(&click(&g, "p0", "something", None));
    assert_eq!(r.toast, None);
    assert_eq!(shown(&g), before);
}

#[test]
fn buttons_without_a_table_say_so() {
    let g = table(roles_9(), 9);
    let c = click(&g, "p0", "wolf_vote_abstain", None);
    assert_eq!(reply_without_table(&c).toast.as_deref(), Some("游戏不存在"));
    let c = click(&g, "p0", "else", None);
    assert_eq!(reply_without_table(&c).toast, None);
    assert_eq!(write_json(&answer(&None)), "{}");
    assert!(write_json(&answer(&Some("好".into()))).contains("\"content\":\"好\""));
}

#[test]
fn a_button_is_read_back_from_its_card() {
    let value = merge(
        obj2("game", Json::Int(3), "actor", text("p6")),
        obj2("action", text("wolf_guard_pick"), "target", text("p8")),
    );
    let form = obj1("speech", text("话"));
    let c = Click::read(&value, &form, "wolf_guard_pick", "p6");
    assert_eq!(c.game, 3);
    assert_eq!(c.actor, "p6");
    assert_eq!(c.target.as_deref(), Some("p8"));
    assert_eq!(c.speech, "话");
    assert!(matches!(c.wanted(), Some(Ok(Action::GuardPick(t))) if t == "p8"));
}

#[test]
fn buttons_that_pick_nobody_are_refused() {
    let g = table(roles_9(), 9);
    for action in ["wolf_kill", "wolf_guard_pick", "wolf_seer_check", "wolf_vote"] {
        let c = click(&g, "p0", action, None);
        assert!(matches!(c.wanted(), Some(Err(_))), "{action}");
    }
    let c = click(&g, "p0", "wolf_chat_send", None);
    assert!(matches!(c.wanted(), Some(Err(_))));
}

#[test]
fn the_seer_is_told_privately() {
    let mut g = table(roles_9(), 9);
    for who in ["p0", "p1", "p2"] {
        g.wolf_pick(who, "p6").unwrap();
    }
    g.advance_after_wolves().unwrap();
    let r = g.click(&click(&g, "p3", "wolf_seer_check", Some("p0")));
    assert_eq!(r.toast, None);
    assert!(r.announce.is_none());
    assert!(write_json(&r.private.unwrap()).contains("P0"));
    assert_eq!(g.seer_history[0].target_idx, 0);
    assert!(g.seer_history[0].is_wolf);
}

#[test]
fn public_cards_hide_choices() {
    let mut g = table(roles_9(), 9);
    let night = write_json(&g.public_notice().unwrap().card);
    g.wolf_pick("p0", "p6").unwrap();
    assert_eq!(write_json(&g.public_notice().unwrap().card), night);
    g.stage = Stage::DayVote;
    let mut h = g.clone();
    g.cast_vote("p0", Some("p6")).unwrap();
    h.cast_vote("p0", Some("p7")).unwrap();
    assert_eq!(
        write_json(&g.public_notice().unwrap().card),
        write_json(&h.public_notice().unwrap().card)
    );
}

#[test]
fn a_public_card_is_updated_in_place() {
    let mut g = table(roles_9(), 9);
    let n = g.public_notice().unwrap();
    assert_eq!(n.existing, None);
    assert!(matches!(n.slot, Slot::Night(1)));
    g.note_public(n.slot, "om_7".into());
    assert_eq!(g.public_notice().unwrap().existing.as_deref(), Some("om_7"));
}

#[test]
fn private_cards_are_replaced() {
    let mut g = table(roles_9(), 9);
    assert!(g.private_card(0).is_some());
    assert_eq!(g.replaced_msg(0), None);
    g.note_private(Stage::WolvesPick, 0, "om_1".into());
    assert_eq!(g.wolf_night_msg(0), Some("om_1"));
    assert!(g.warned_wolves().is_empty());
}

#[test]
fn an_illegal_answer_is_asked_for_again_and_then_decided() {
    let mut g = table(roles_10(), 0);
    assert_eq!(g.stage, Stage::GuardPick);
    assert_eq!(g.question(6), Some(Question::Guard));
    g.last_guard_target = Some(3);
    let mut history = vec![];
    let bad = Answer::Guard(3);
    assert_eq!(g.attempt(6, &bad, &mut history).verdict, Verdict::Retry);
    assert_eq!(history.len(), 1);
    assert_eq!(history[0].0, "{\"target_idx\": 3}");
    assert!(history[0].1.contains("不能连续两晚守护同一个人"));
    assert_eq!(g.stage, Stage::GuardPick);
    assert_eq!(g.attempt(6, &bad, &mut history).verdict, Verdict::Retry);
    assert_eq!(g.attempt(6, &bad, &mut history).verdict, Verdict::GaveUp);
    assert_eq!(g.stage, Stage::WolvesPick);
    let r = g.attempt(6, &bad, &mut vec![]);
    assert_eq!(r.verdict, Verdict::Stale);
}

#[test]
fn answers_are_shown_to_who_gave_them() {
    assert_eq!(Answer::Vote(None).repr(), "{\"target_idx\": -1}");
    assert_eq!(Answer::Witch(WitchDecision::Save).repr(), "{\"action\": \"save\"}");
    assert_eq!(
        Answer::Witch(WitchDecision::Poison(4)).repr(),
        "{\"action\": \"poison\", \"poison_target_idx\": 4}"
    );
}

#[test]
fn actions_have_outcomes() {
    let mut g = table(roles_9(), 9);
    let a = Action::WolfPick("p6".into());
    assert_eq!(g.act("p0", a), Ok(Outcome::Nothing));
    let a = Action::SeerCheck("p0".into());
    assert_eq!(g.act("p3", a), Err(GameError::NotSeerStage));
}

#[test]
fn thoughts_are_saved_under_their_question() {
    let mut g = table(roles_9(), 0);
    let bite = Answer::Wolf { target: 6, chat: None };
    g.save_thinking(0, Question::Wolf { speak: false }, &bite, Some("想法".into()));
    g.save_thinking(0, Question::Seer, &Answer::Seer(1), None);
    g.save_thinking(0, Question::Stay, &Answer::Stay(true), Some("留下".into()));
    assert_eq!(g.thinking_log.len(), 1);
    assert!(build_view(&g, 0).render().contains("想法"));
    // Even an answer that will be refused leaves its thought.
    let beyond = Answer::Seer(99);
    g.save_thinking(3, Question::Seer, &beyond, Some("越界".into()));
    assert_eq!(g.thinking_log.len(), 2);
}

#[test]
fn a_dying_player_is_remembered_for_a_legal_shot_only() {
    let mut g = table(roles_9(), 0);
    g.players[1].alive = false;
    for (target, kept) in [(Some(1), 0), (Some(5), 0), (Some(9), 0), (Some(2), 1), (None, 2)] {
        let a = Answer::Dying { speech: "再见".into(), target };
        g.save_thinking(5, Question::Dying, &a, Some("想法".into()));
        assert_eq!(g.thinking_log.len(), kept);
    }
}

#[test]
fn hidden_choices_are_asked_for_together() {
    assert!(asked_together(Stage::SheriffNominate));
    assert!(asked_together(Stage::SheriffVote));
    assert!(asked_together(Stage::DayVote));
    assert!(!asked_together(Stage::WolvesPick));
    assert!(!asked_together(Stage::DaySpeech));
    assert!(!asked_together(Stage::SheriffWithdraw));
}

#[test]
fn the_guard_card_offers_everybody_but_the_last_and_a_pass() {
    let mut g = table(roles_10(), 10);
    g.last_guard_target = Some(8);
    let card = write_json(&build_guard_night_card(&g, &g.players[6]));
    assert!(card.contains("wolf_guard_skip"));
    assert!(card.contains("\"target\":\"p7\""));
    assert!(!card.contains("\"target\":\"p8\""));
}

#[test]
fn a_changed_seat_is_noticed() {
    let mut g = table(roles_9(), 9);
    assert!(g.is_well_formed());
    g.night_victim = Some(40);
    assert!(!g.is_well_formed());
}
