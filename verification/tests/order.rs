//! What follows what, and what stays dark.

use lark_arena::persona::Persona;
use lark_arena::values::{value_of, write_json};
use lark_arena::werewolf::answers::Answer;
use lark_arena::werewolf::attempts::{Question, Verdict};
use lark_arena::werewolf::clicks::Click;
use lark_arena::werewolf::lobby::{shuffle_by, shuffle_in_place};
use lark_arena::werewolf::plan::Next;
use lark_arena::werewolf::state::WolfGame;
use lark_arena::werewolf::types::{Role, Stage};
use lark_arena::werewolf::vote_cards::{build_explosion_announce_card, build_hunter_announce_card};

fn roles(n: usize) -> Vec<Role> {
    let mut r = vec![
        Role::Werewolf,
        Role::Werewolf,
        if n == 9 { Role::Werewolf } else { Role::WolfKing },
        Role::Seer,
        Role::Witch,
        Role::Hunter,
    ];
    if n > 9 {
        r.push(Role::Guard);
    }
    while r.len() < n {
        r.push(Role::Villager);
    }
    r
}

fn table(n: usize, ai: bool) -> WolfGame {
    let mut g = WolfGame::new("c".into());
    for i in 0..n {
        if ai {
            g.add_ai_player(format!("p{i}"), format!("P{i}"), Persona::at(i % 5)).unwrap();
        } else {
            g.add_player(format!("p{i}"), format!("P{i}")).unwrap();
        }
    }
    g.start_with_roles(&roles(n));
    g
}

/// The other deal of the same board: the roles go round by one seat.
fn dealt_otherwise(g: &WolfGame) -> WolfGame {
    let mut h = g.clone();
    let n = h.players.len();
    for i in 0..n {
        h.players[i].role = g.players[(i + 1) % n].role;
    }
    h
}

fn night(g: &mut WolfGame, victim: &str) {
    if g.stage == Stage::GuardPick {
        g.guard_skip("p6").unwrap();
    }
    for w in ["p0", "p1", "p2"] {
        g.wolf_pick(w, victim).unwrap();
    }
    g.advance_after_wolves().unwrap();
    g.seer_check("p3", "p0").unwrap();
    g.witch_act("p4", false, None).unwrap();
}

#[test]
fn the_election_comes_before_the_news() {
    let mut g = table(10, false);
    night(&mut g, "p8");
    assert_eq!(g.stage, Stage::SheriffNominate);
    assert_eq!(g.last_night_deaths, vec![8]);
    for i in 0..10 {
        g.nominate_sheriff(&format!("p{i}"), i == 3).unwrap();
    }
    g.finish_sheriff_nominate().unwrap();
    assert_eq!(g.stage, Stage::DayReveal);
    assert_eq!(g.sheriff_idx, Some(3));
    assert_eq!(g.last_night_deaths, vec![8]);
    let mut g = table(9, false);
    night(&mut g, "p8");
    assert_eq!(g.stage, Stage::DayReveal);
}

#[test]
fn boards_of_nine_never_have_a_sheriff() {
    let mut g = table(9, true);
    let mut steps = 0;
    while g.stage != Stage::Ended && steps < 400 {
        steps += 1;
        let plan = g.plan();
        for seat in plan.ais {
            if let Some(q) = g.question(seat) {
                let a = g.plain_answer(seat, q);
                g.attempt(seat, &a, &mut vec![]);
            }
        }
        if plan.next == Next::Settle && g.plan().next == Next::Settle {
            g.settle();
        }
        assert_eq!(g.sheriff_idx, None);
        assert!(!g.sheriff_enabled);
        assert_ne!(g.stage, Stage::SheriffNominate);
    }
    assert_eq!(g.stage, Stage::Ended);
}

#[test]
fn only_the_guard_changes_whom_the_guard_protected() {
    let mut g = table(10, false);
    g.guard_pick("p6", "p7").unwrap();
    for w in ["p0", "p1", "p2"] {
        g.wolf_pick(w, "p8").unwrap();
    }
    g.advance_after_wolves().unwrap();
    g.seer_check("p3", "p0").unwrap();
    g.witch_act("p4", false, None).unwrap();
    g.self_explode("p0").unwrap();
    assert_eq!(g.last_guard_target, Some(7));
}

#[test]
fn the_badge_goes_to_whom_the_dead_sheriff_names() {
    let mut g = table(10, false);
    g.stage = Stage::BadgePass;
    g.sheriff_idx = Some(1);
    g.pending_badge = Some(1);
    g.players[1].alive = false;
    assert_eq!(g.transfer_badge("p1", Some("p4")), Ok(Some(4)));
    assert_eq!(g.sheriff_idx, Some(4));
}

#[test]
fn a_killed_sheriff_and_a_killed_hunter_have_steps_coming() {
    let mut g = table(10, false);
    g.day = 2;
    g.sheriff_idx = Some(5);
    night(&mut g, "p5");
    assert_eq!(g.pending_hunter, Some(5));
    assert_eq!(g.pending_badge, Some(5));
    assert!(g.last_words_queue.is_empty());
}

#[test]
fn a_banished_wolf_king_shoots_after_the_last_words() {
    let mut g = table(10, false);
    g.stage = Stage::DayVote;
    g.sheriff_idx = Some(2);
    for i in [0, 1, 3, 4, 5, 6, 7, 8, 9] {
        g.cast_vote(&format!("p{i}"), Some("p2")).unwrap();
    }
    assert_eq!(g.resolve_lynch(), Ok(Some(2)));
    g.advance_after_vote().unwrap();
    assert_eq!(g.stage, Stage::LastWords);
    g.submit_last_words("p2", "".into()).unwrap();
    g.finish_last_words().unwrap();
    assert_eq!(g.stage, Stage::HunterShoot);
    g.hunter_shoot("p2", Some("p3")).unwrap();
    assert_eq!(g.stage, Stage::BadgePass);
}

#[test]
fn public_cards_are_the_same_whoever_holds_which_role() {
    let mut g = table(10, false);
    let stages = [
        Stage::GuardPick,
        Stage::SheriffNominate,
        Stage::SheriffSpeech,
        Stage::SheriffVote,
        Stage::DaySpeech,
        Stage::DayVote,
        Stage::LastWords,
        Stage::HunterShoot,
        Stage::BadgePass,
    ];
    g.sheriff_speech_order = vec![1, 2];
    g.day_speech_order = vec![3, 4];
    g.day_speeches = vec![(3, "过".into())];
    g.last_words_queue = vec![5];
    g.pending_hunter = Some(5);
    g.pending_badge = Some(5);
    for stage in stages {
        g.stage = stage;
        let h = dealt_otherwise(&g);
        assert_eq!(
            value_of(&g.public_notice().unwrap().card),
            value_of(&h.public_notice().unwrap().card),
            "{stage:?}"
        );
    }
    let h = dealt_otherwise(&g);
    assert_eq!(
        value_of(&build_hunter_announce_card(&g.players[5], Some(&g.players[1]))),
        value_of(&build_hunter_announce_card(&h.players[5], Some(&h.players[1])))
    );
    assert_eq!(
        value_of(&build_explosion_announce_card(&g.players[0])),
        value_of(&build_explosion_announce_card(&h.players[0]))
    );
}

#[test]
fn a_dying_ai_shoots_whom_it_said() {
    let mut g = table(10, true);
    g.stage = Stage::LastWords;
    g.players[5].alive = false;
    g.last_words_queue = vec![5];
    g.pending_hunter = Some(5);
    g.pending_hunter_post_stage = Some(Stage::DayVote);
    assert_eq!(g.question(5), Some(Question::Dying));
    let a = Answer::Dying { speech: "带走 P1".into(), target: Some(1) };
    assert_eq!(g.attempt(5, &a, &mut vec![]).verdict, Verdict::Done);
    g.settle();
    assert_eq!(g.stage, Stage::HunterShoot);
    let shot = g.foregone(5).unwrap();
    assert!(matches!(shot, Answer::Shoot(Some(1))));
    assert_eq!(g.attempt(5, &shot, &mut vec![]).verdict, Verdict::Done);
    assert!(!g.players[1].alive);
}

/// A table where the dead AI hunter in seat 5 has decided to shoot seat 1.
fn decided_shot() -> WolfGame {
    let mut g = table(10, true);
    g.stage = Stage::HunterShoot;
    g.players[5].alive = false;
    g.pending_hunter = Some(5);
    g.pending_hunter_post_stage = Some(Stage::DayVote);
    g.pending_hunter_ai_decision = Some(Some(1));
    g
}

#[test]
fn a_shot_decided_before_is_taken_at_once() {
    let mut g = decided_shot();
    assert!(g.attempt_foregone(4).is_none());
    assert!(g.players[1].alive);
    let r = g.attempt_foregone(5).unwrap();
    assert_eq!(r.verdict, Verdict::Done);
    assert_eq!(
        value_of(&r.announce.unwrap()),
        value_of(&build_hunter_announce_card(&g.players[5], Some(&g.players[1])))
    );
    assert!(!g.players[1].alive);
    assert_ne!(g.stage, Stage::HunterShoot);
    assert!(g.attempt_foregone(5).is_none());
}

#[test]
fn a_refused_shot_decided_before_leaves_all_attempts() {
    let mut g = decided_shot();
    g.players[1].alive = false;
    let before = format!("{g:?}");
    assert!(g.attempt_foregone(5).is_none());
    assert_eq!(format!("{g:?}"), before);
    let mut history = vec![];
    let again = Answer::Shoot(Some(1));
    assert_eq!(g.attempt(5, &again, &mut history).verdict, Verdict::Retry);
    assert_eq!(g.attempt(5, &again, &mut history).verdict, Verdict::Retry);
    assert_eq!(g.attempt(5, &again, &mut history).verdict, Verdict::GaveUp);
    assert_eq!(history.len(), 3);
    assert_ne!(g.stage, Stage::HunterShoot);
}

#[test]
fn a_shuffle_exchanges_what_is_drawn() {
    let mut v = vec!['a', 'b', 'c', 'd'];
    shuffle_by(&mut v, &vec![0, 1, 2, 3]);
    assert_eq!(v, vec!['a', 'b', 'c', 'd']);
    shuffle_by(&mut v, &vec![0, 0, 0, 0]);
    assert_eq!(v, vec!['b', 'c', 'd', 'a']);
    let mut w = vec!['a', 'b', 'c', 'd'];
    shuffle_by(&mut w, &vec![0, 1, 0, 1]);
    assert_eq!(w, vec!['c', 'd', 'a', 'b']);
    let mut nobody: Vec<char> = vec![];
    shuffle_by(&mut nobody, &vec![]);
    assert!(nobody.is_empty());
}

#[test]
fn a_shuffle_reaches_every_order_of_three() {
    let mut orders = vec![];
    for j in 0..=1 {
        for k in 0..=2 {
            let mut v = vec![1, 2, 3];
            shuffle_by(&mut v, &vec![0, j, k]);
            orders.push(v);
        }
    }
    orders.sort();
    assert_eq!(
        orders,
        vec![
            vec![1, 2, 3],
            vec![1, 3, 2],
            vec![2, 1, 3],
            vec![2, 3, 1],
            vec![3, 1, 2],
            vec![3, 2, 1],
        ]
    );
}

#[test]
fn a_random_shuffle_keeps_what_there_is() {
    let mut moved = false;
    for _ in 0..50 {
        let mut v: Vec<usize> = (0..12).collect();
        shuffle_in_place(&mut v);
        moved = moved || v != (0..12).collect::<Vec<usize>>();
        v.sort();
        assert_eq!(v, (0..12).collect::<Vec<usize>>());
    }
    assert!(moved);
}

#[test]
fn all_roles_are_told_when_a_button_ends_the_game() {
    let mut g = table(10, false);
    for i in [1, 2] {
        g.players[i].alive = false;
    }
    g.stage = Stage::DaySpeech;
    g.day_speech_order = vec![3];
    let press = |who: &str, action: &str| Click {
        action: action.into(),
        open_id: who.into(),
        actor: who.into(),
        game: 1,
        target: None,
        message: String::new(),
        speech: "过".into(),
    };
    let r = g.click(&press("p3", "wolf_day_speech_submit"));
    assert!(r.saved);
    assert!(r.summary.is_none());
    let r = g.click(&press("p0", "wolf_self_explode"));
    assert_eq!(g.stage, Stage::Ended);
    let card = write_json(&r.summary.unwrap());
    assert!(card.contains(Role::WolfKing.label()));
    assert!(card.contains(Role::Guard.label()));
    assert!(g.announce_end().is_some());
}
