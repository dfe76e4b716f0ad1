//! What the rules refuse, each with its reason, and what they promise.

use lark_arena::persona::Persona;
use lark_arena::werewolf::error::GameError;
use lark_arena::werewolf::state::WolfGame;
use lark_arena::werewolf::types::{DeathCause, RecapEvent, Role, Stage, Winner};
use lark_arena::werewolf::view::build_view;

/// Ten humans: two wolves, the wolf king, seer, witch, hunter, guard, three villagers.
fn table() -> WolfGame {
    let mut g = WolfGame::new("c".into());
    for i in 0..10 {
        g.add_player(format!("p{i}"), format!("P{i}")).unwrap();
    }
    g.start_with_roles(&vec![
        Role::Werewolf,
        Role::Werewolf,
        Role::WolfKing,
        Role::Seer,
        Role::Witch,
        Role::Hunter,
        Role::Guard,
        Role::Villager,
        Role::Villager,
        Role::Villager,
    ]);
    g
}

fn at(stage: Stage) -> WolfGame {
    let mut g = table();
    g.stage = stage;
    g
}

fn refused<T: std::fmt::Debug + PartialEq>(
    g: &mut WolfGame,
    e: GameError,
    act: fn(&mut WolfGame) -> Result<T, GameError>,
) {
    let before = format!("{g:?}");
    assert_eq!(act(g), Err(e));
    assert_eq!(format!("{g:?}"), before);
}

#[test]
fn the_lobby_refuses() {
    let mut g = table();
    refused(&mut g, GameError::AlreadyStarted(Stage::GuardPick), |g| g.start_game());
    refused(&mut g, GameError::GameRunning, |g| g.add_player("x".into(), "X".into()));
    let mut g = WolfGame::new("c".into());
    refused(&mut g, GameError::PlayerCount(0), |g| g.start_game());
    g.add_player("x".into(), "X".into()).unwrap();
    refused(&mut g, GameError::AlreadySeated, |g| g.add_player("x".into(), "Y".into()));
    refused(&mut g, GameError::AlreadySeated, |g| {
        g.add_ai_player("x".into(), "Y".into(), Persona::Maniac)
    });
    for i in 0..11 {
        g.add_player(format!("p{i}"), String::new()).unwrap();
    }
    refused(&mut g, GameError::TableFull, |g| g.add_player("y".into(), "Y".into()));
    assert_eq!(
        GameError::AlreadyStarted(Stage::Lobby).to_string(),
        format!("已经在游戏中（{}）。如需重置请用 reset", Stage::Lobby.label())
    );
    assert_eq!(GameError::PlayerCount(8).to_string(), "狼人杀需要 9-12 名玩家，当前 8");
    assert_eq!(GameError::TableFull.to_string(), "人数已满 (12)");
}

#[test]
fn the_guard_is_refused() {
    refused(&mut at(Stage::Lobby), GameError::NotGuardStage, |g| g.guard_pick("p6", "p7"));
    refused(&mut at(Stage::Lobby), GameError::NotGuardStage, |g| g.guard_skip("p6"));
    let mut g = table();
    refused(&mut g, GameError::NotSeated, |g| g.guard_pick("x", "p7"));
    refused(&mut g, GameError::NotLivingGuard, |g| g.guard_pick("p0", "p7"));
    refused(&mut g, GameError::TargetMissing, |g| g.guard_pick("p6", "x"));
    g.players[7].alive = false;
    refused(&mut g, GameError::GuardDeadTarget, |g| g.guard_pick("p6", "p7"));
    g.last_guard_target = Some(8);
    refused(&mut g, GameError::GuardSameTarget, |g| g.guard_pick("p6", "p8"));
    g.guard_skip("p6").unwrap();
    assert_eq!(g.last_guard_target, None);
}

#[test]
fn the_wolves_are_refused() {
    refused(&mut table(), GameError::NotWolfPickStage, |g| g.wolf_pick("p0", "p7"));
    refused(&mut table(), GameError::NotWolfStage, |g| g.wolf_say("p0", "嗨".into()));
    refused(&mut table(), GameError::NotWolfStage, |g| g.wolf_mark_ready("p0"));
    refused(&mut table(), GameError::NotWolfStage, |g| g.advance_after_wolves());
    let mut g = at(Stage::WolvesPick);
    refused(&mut g, GameError::NotLivingWolf, |g| g.wolf_pick("p3", "p7"));
    refused(&mut g, GameError::EmptyMessage, |g| g.wolf_say("p0", "  ".into()));
    refused(&mut g, GameError::WolfNoTarget, |g| g.wolf_mark_ready("p0"));
    g.players[7].alive = false;
    refused(&mut g, GameError::WolfDeadTarget, |g| g.wolf_pick("p0", "p7"));
    g.wolf_pick("p0", "p8").unwrap();
    g.wolf_mark_ready("p0").unwrap();
    refused(&mut g, GameError::WolfAlreadyReady, |g| g.wolf_pick("p0", "p9"));
    assert!(g.is_wolf_ready(0));
    assert!(!g.all_alive_wolves_ready());
    g.wolf_say("p1", " 刀 8 ".into()).unwrap();
    assert_eq!(g.wolf_chat, vec![(1, "刀 8".to_string())]);
}

#[test]
fn the_seer_and_the_witch_are_refused() {
    refused(&mut table(), GameError::NotSeerStage, |g| g.seer_check("p3", "p0"));
    let mut g = at(Stage::SeerPick);
    refused(&mut g, GameError::NotLivingSeer, |g| g.seer_check("p0", "p1"));
    refused(&mut g, GameError::SeerSelf, |g| g.seer_check("p3", "p3"));
    g.players[7].alive = false;
    refused(&mut g, GameError::SeerDeadTarget, |g| g.seer_check("p3", "p7"));

    refused(&mut table(), GameError::NotWitchStage, |g| g.witch_act("p4", false, None));
    let mut g = at(Stage::WitchAct);
    refused(&mut g, GameError::NotLivingWitch, |g| g.witch_act("p0", false, None));
    refused(&mut g, GameError::NothingToSave, |g| g.witch_act("p4", true, None));
    g.night_victim = Some(7);
    refused(&mut g, GameError::SaveAndPoison, |g| g.witch_act("p4", true, Some("p0")));
    refused(&mut g, GameError::PoisonMissing, |g| g.witch_act("p4", false, Some("x")));
    refused(&mut g, GameError::PoisonSelf, |g| g.witch_act("p4", false, Some("p4")));
    g.players[8].alive = false;
    refused(&mut g, GameError::PoisonDead, |g| g.witch_act("p4", false, Some("p8")));
    g.witch_poison_used = true;
    g.witch_save_used = true;
    refused(&mut g, GameError::PoisonUsed, |g| g.witch_act("p4", false, Some("p0")));
    refused(&mut g, GameError::SaveUsed, |g| g.witch_act("p4", true, None));
}

#[test]
fn the_election_refuses() {
    refused(&mut table(), GameError::NotNominateStage, |g| g.nominate_sheriff("p0", true));
    refused(&mut table(), GameError::NotNominateStage, |g| g.finish_sheriff_nominate());
    let mut g = at(Stage::SheriffNominate);
    refused(&mut g, GameError::NotSeated, |g| g.nominate_sheriff("x", true));
    g.players[9].alive = false;
    refused(&mut g, GameError::NotEligible, |g| g.nominate_sheriff("p9", true));

    refused(&mut table(), GameError::NotSheriffSpeechStage, |g| {
        g.submit_sheriff_speech("p0", "x".into())
    });
    let mut g = at(Stage::SheriffSpeech);
    g.sheriff_speech_order = vec![1, 2];
    refused(&mut g, GameError::NotYourTurn, |g| g.submit_sheriff_speech("p2", "x".into()));
    refused(&mut g, GameError::SpeechesPending, |g| g.finish_sheriff_speeches());
    g.sheriff_speech_idx = 2;
    refused(&mut g, GameError::SpeechesOver, |g| g.submit_sheriff_speech("p2", "x".into()));

    refused(&mut table(), GameError::NotWithdrawStage, |g| g.decide_sheriff_withdraw("p1", true));
    let mut g = at(Stage::SheriffWithdraw);
    g.sheriff_original_candidates = vec![1, 2];
    g.sheriff_nominations = vec![(1, true), (2, true)];
    refused(&mut g, GameError::NotYourWithdraw, |g| g.decide_sheriff_withdraw("p2", true));
    refused(&mut g, GameError::WithdrawPending, |g| g.finish_sheriff_withdraw());

    refused(&mut table(), GameError::NotSheriffVoteStage, |g| g.cast_sheriff_vote("p0", None));
    let mut g = at(Stage::SheriffVote);
    g.sheriff_original_candidates = vec![1, 2];
    g.sheriff_nominations = vec![(1, true), (2, true)];
    refused(&mut g, GameError::CandidateCannotVote, |g| g.cast_sheriff_vote("p1", None));
    refused(&mut g, GameError::NotCandidate, |g| g.cast_sheriff_vote("p3", Some("p4")));
}

#[test]
fn the_day_refuses() {
    refused(&mut table(), GameError::NotRevealStage, |g| g.enter_day_discuss());
    refused(&mut table(), GameError::NotDirectionStage, |g| g.pick_sheriff_direction("p0", true));
    let mut g = at(Stage::SheriffPickDirection);
    g.sheriff_idx = Some(1);
    refused(&mut g, GameError::NotYourDirection, |g| g.pick_sheriff_direction("p0", true));

    refused(&mut table(), GameError::NotDaySpeechStage, |g| {
        g.submit_day_speech("p0", "x".into())
    });
    let mut g = at(Stage::DaySpeech);
    g.day_speech_order = vec![1, 2];
    refused(&mut g, GameError::NotYourTurn, |g| g.submit_day_speech("p0", "x".into()));
    g.day_speech_idx = 2;
    refused(&mut g, GameError::SpeechesOver, |g| g.submit_day_speech("p0", "x".into()));
    refused(&mut table(), GameError::NotSpeechStage, |g| g.enter_day_vote());

    refused(&mut table(), GameError::NotVoteStage, |g| g.cast_vote("p0", None));
    let mut g = at(Stage::DayVote);
    g.players[9].alive = false;
    refused(&mut g, GameError::CannotVote, |g| g.cast_vote("p9", None));
    refused(&mut g, GameError::VoteSelf, |g| g.cast_vote("p0", Some("p0")));
    refused(&mut g, GameError::VoteDead, |g| g.cast_vote("p0", Some("p9")));
    g.day_vote_round = 1;
    g.day_pk_candidates = vec![1, 2];
    refused(&mut g, GameError::CannotVote, |g| g.cast_vote("p1", None));
    refused(&mut g, GameError::NotOnBallot, |g| g.cast_vote("p0", Some("p3")));
}

#[test]
fn the_dead_are_refused() {
    refused(&mut table(), GameError::NotLastWordsStage, |g| g.submit_last_words("p0", "x".into()));
    let mut g = at(Stage::LastWords);
    g.last_words_queue = vec![1];
    refused(&mut g, GameError::NotYourLastWords, |g| g.submit_last_words("p0", "x".into()));
    refused(&mut g, GameError::LastWordsPending, |g| g.finish_last_words());
    g.last_words_idx = 1;
    refused(&mut g, GameError::LastWordsOver, |g| g.submit_last_words("p1", "x".into()));

    refused(&mut table(), GameError::NotBadgeStage, |g| g.transfer_badge("p0", None));
    let mut g = at(Stage::BadgePass);
    g.pending_badge = Some(1);
    g.players[1].alive = false;
    g.players[9].alive = false;
    refused(&mut g, GameError::NotYourBadge, |g| g.transfer_badge("p0", None));
    refused(&mut g, GameError::BadgeToDead, |g| g.transfer_badge("p1", Some("p9")));

    refused(&mut table(), GameError::NotShootStage, |g| g.hunter_shoot("p5", None));
    let mut g = at(Stage::HunterShoot);
    g.pending_hunter = Some(5);
    g.players[5].alive = false;
    g.players[9].alive = false;
    refused(&mut g, GameError::NotYourShot, |g| g.hunter_shoot("p0", None));
    refused(&mut g, GameError::ShootDead, |g| g.hunter_shoot("p5", Some("p9")));

    refused(&mut table(), GameError::CannotExplode, |g| g.self_explode("p0"));
}

/// Plays a night: whom the guard protects, whom the wolves attack, what the witch does.
fn night(g: &mut WolfGame, guard: &str, victim: &str, save: bool, poison: Option<&str>) {
    g.guard_pick("p6", guard).unwrap();
    for w in ["p0", "p1", "p2"] {
        g.wolf_pick(w, victim).unwrap();
    }
    g.advance_after_wolves().unwrap();
    g.seer_check("p3", "p0").unwrap();
    g.witch_act("p4", save, poison).unwrap();
}

#[test]
fn poison_kills_whoever_is_guarded() {
    let mut g = table();
    night(&mut g, "p7", "p8", false, Some("p7"));
    assert!(!g.players[7].alive);
    assert!(!g.players[8].alive);
    assert_eq!(g.last_night_deaths.len(), 2);
    assert!(g.witch_poison_used);
    assert!(!g.witch_save_used);
    let ready = g.deaths.iter().find(|d| d.player_idx == 7).unwrap();
    assert_eq!(ready.cause, DeathCause::Poison);
}

#[test]
fn a_poisoned_hunter_does_not_shoot() {
    let mut g = table();
    night(&mut g, "p7", "p8", false, Some("p5"));
    assert_eq!(g.pending_hunter, None);
    let mut g = table();
    night(&mut g, "p7", "p5", false, None);
    assert_eq!(g.pending_hunter, Some(5));
}

#[test]
fn a_guarded_victim_lives() {
    let mut g = table();
    night(&mut g, "p8", "p8", false, None);
    assert!(g.last_night_deaths.is_empty());
    assert!(g.players.iter().all(|p| p.alive));
}

#[test]
fn who_ran_never_votes() {
    let mut g = at(Stage::SheriffNominate);
    for i in 0..10 {
        g.nominate_sheriff(&format!("p{i}"), i < 3).unwrap();
    }
    g.finish_sheriff_nominate().unwrap();
    for w in ["p0", "p1", "p2"] {
        let _ = g.submit_sheriff_speech(w, "投我".into());
    }
    assert_eq!(g.sheriff_original_candidates.len(), 3);
    assert!(g.sheriff_voters().iter().all(|i| *i >= 3));
}

#[test]
fn everybody_speaks_once_without_a_sheriff() {
    let mut g = at(Stage::DayReveal);
    g.players[4].alive = false;
    g.start_day_speech_at(7);
    assert_eq!(g.day_speech_order, vec![7, 8, 9, 0, 1, 2, 3, 5, 6]);
    assert_eq!(g.current_day_speaker(), Some(7));
}

#[test]
fn the_sheriff_speaks_last() {
    let mut g = at(Stage::SheriffPickDirection);
    g.sheriff_idx = Some(4);
    g.pick_sheriff_direction("p4", true).unwrap();
    assert_eq!(g.day_speech_order.len(), 10);
    assert_eq!(g.day_speech_order.last(), Some(&4));
    assert_eq!(g.stage, Stage::DaySpeech);
}

#[test]
fn winners_follow_from_the_seats() {
    let mut g = table();
    assert_eq!(g.victory(), None);
    for i in [3, 4, 5, 6] {
        g.players[i].alive = false;
    }
    assert_eq!(g.victory(), Some(Winner::Wolves));
    for i in [0, 1, 2] {
        g.players[i].alive = false;
    }
    assert_eq!(g.victory(), Some(Winner::Good));
}

#[test]
fn night_deaths_look_alike() {
    let g = table();
    let view = build_view(&g, 8);
    assert_eq!(
        view.cause_label_for_view(DeathCause::WolfKill, true),
        view.cause_label_for_view(DeathCause::Poison, true)
    );
}

#[test]
fn secret_moves_are_in_nobodys_file() {
    let mut g = table();
    g.recap_log.push(RecapEvent::GuardProtect { day: 1, target: 7 });
    g.recap_log.push(RecapEvent::SeerCheck { day: 1, target: 7, is_wolf: false });
    let view = build_view(&g, 8);
    assert!(view.build_dossiers().iter().all(|d| d.3.is_empty()));
}

#[test]
fn a_seat_is_found_by_its_player() {
    let g = table();
    assert_eq!(g.find_player("p7"), Some(7));
    assert_eq!(g.find_player("nobody"), None);
}

#[test]
fn a_later_write_is_read() {
    let mut g = table();
    g.set_day_vote_msg("p1", "om_1".into());
    g.set_day_vote_msg("p2", "om_2".into());
    g.set_day_vote_msg("p1", "om_3".into());
    assert_eq!(g.day_vote_msg("p1"), Some("om_3"));
    assert_eq!(g.day_vote_msg("p2"), Some("om_2"));
    assert_eq!(g.day_vote_msgs.len(), 2);
    g.set_wolf_night_msg(2, "om_4".into());
    assert_eq!(g.wolf_night_msg(2), Some("om_4"));
    assert_eq!(g.wolf_night_msg(1), None);
}

#[test]
fn rounds_are_over_when_everybody_has_acted() {
    let mut g = at(Stage::WolvesPick);
    assert!(!g.all_wolves_voted());
    for w in ["p0", "p1", "p2"] {
        g.wolf_pick(w, "p7").unwrap();
    }
    assert!(g.all_wolves_voted());
    assert!(g.is_witch(4));
    assert!(!g.is_witch(3));

    let mut g = at(Stage::SheriffNominate);
    for i in 0..9 {
        g.nominate_sheriff(&format!("p{i}"), i == 1).unwrap();
        assert!(!g.all_alive_nominated());
    }
    g.nominate_sheriff("p9", false).unwrap();
    assert!(g.all_alive_nominated());

    let mut g = at(Stage::SheriffVote);
    g.sheriff_nominations = vec![(1, true), (2, true)];
    g.sheriff_original_candidates = vec![1, 2];
    assert!(!g.all_sheriff_voters_cast());
    for i in [0, 3, 4, 5, 6, 7, 8, 9] {
        g.cast_sheriff_vote(&format!("p{i}"), Some("p1")).unwrap();
    }
    assert!(g.all_sheriff_voters_cast());
    assert_eq!(g.resolve_sheriff_vote(), Ok(Some(1)));

    let mut g = at(Stage::DayVote);
    for i in 0..10 {
        assert!(!g.all_alive_voted());
        g.cast_vote(&format!("p{i}"), None).unwrap();
    }
    assert!(g.all_alive_voted());

    let mut g = at(Stage::LastWords);
    g.last_words_queue = vec![1];
    assert!(!g.all_last_words_done());
    g.submit_last_words("p1", "再见".into()).unwrap();
    assert!(g.all_last_words_done() || g.stage != Stage::LastWords);
}
