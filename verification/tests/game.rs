//! Whole games and single rules, played through the public interface.

use lark_arena::werewolf::lobby::{has_sheriff_election, role_distribution};
use lark_arena::werewolf::state::WolfGame;
use lark_arena::werewolf::types::{DeathCause, DeathEvent, RecapEvent, Role, Stage, Winner};

fn add(g: &mut WolfGame, id: &str, name: &str) {
    g.add_player(id.into(), name.into()).unwrap();
}

/// 9 人板锁定：P0/1/2 狼，P3 预言家，P4 女巫，P5 猎人，P6/7/8 村民。
fn lock_roles_9(g: &mut WolfGame) {
    g.players[0].role = Some(Role::Werewolf);
    g.players[1].role = Some(Role::Werewolf);
    g.players[2].role = Some(Role::Werewolf);
    g.players[3].role = Some(Role::Seer);
    g.players[4].role = Some(Role::Witch);
    g.players[5].role = Some(Role::Hunter);
    g.players[6].role = Some(Role::Villager);
    g.players[7].role = Some(Role::Villager);
    g.players[8].role = Some(Role::Villager);
}

/// 10 人板锁定：P0/1 狼，P2 狼王，P3 预言家，P4 女巫，P5 猎人，P6 守卫，P7-9 村民。
fn lock_roles_10(g: &mut WolfGame) {
    g.players[0].role = Some(Role::Werewolf);
    g.players[1].role = Some(Role::Werewolf);
    g.players[2].role = Some(Role::WolfKing);
    g.players[3].role = Some(Role::Seer);
    g.players[4].role = Some(Role::Witch);
    g.players[5].role = Some(Role::Hunter);
    g.players[6].role = Some(Role::Guard);
    g.players[7].role = Some(Role::Villager);
    g.players[8].role = Some(Role::Villager);
    g.players[9].role = Some(Role::Villager);
}

/// 12 人板锁定：P0-2 狼，P3 狼王，P4 预言家，P5 女巫，P6 猎人，P7 守卫，P8-11 村民。
fn lock_roles_12(g: &mut WolfGame) {
    g.players[0].role = Some(Role::Werewolf);
    g.players[1].role = Some(Role::Werewolf);
    g.players[2].role = Some(Role::Werewolf);
    g.players[3].role = Some(Role::WolfKing);
    g.players[4].role = Some(Role::Seer);
    g.players[5].role = Some(Role::Witch);
    g.players[6].role = Some(Role::Hunter);
    g.players[7].role = Some(Role::Guard);
    g.players[8].role = Some(Role::Villager);
    g.players[9].role = Some(Role::Villager);
    g.players[10].role = Some(Role::Villager);
    g.players[11].role = Some(Role::Villager);
}

fn make_n(n: usize) -> WolfGame {
    let mut g = WolfGame::new("c".into());
    for i in 0..n {
        add(&mut g, &format!("p{i}"), &format!("P{i}"));
    }
    g.start_game().unwrap();
    g
}

#[test]
fn role_dist_9_to_12() {
    for n in 9..=12 {
        let r = role_distribution(n).unwrap();
        assert_eq!(r.len(), n);
        // 用 is_wolf 算总狼数（含狼王）
        let total_wolves = r.iter().filter(|x| x.is_wolf()).count();
        let expected_total = if n == 12 { 4 } else { 3 };
        assert_eq!(total_wolves, expected_total, "{n} 人板狼总数错误");
        // 10+ 板必须有狼王
        if n >= 10 {
            assert!(
                r.iter().any(|x| matches!(x, Role::WolfKing)),
                "{n} 人板应当有狼王"
            );
        }
        // 9 人板没狼王
        if n == 9 {
            assert!(!r.iter().any(|x| matches!(x, Role::WolfKing)));
        }
        assert!(r.iter().any(|x| matches!(x, Role::Seer)));
        assert!(r.iter().any(|x| matches!(x, Role::Witch)));
        assert!(r.iter().any(|x| matches!(x, Role::Hunter)));
        if n >= 10 {
            assert!(r.iter().any(|x| matches!(x, Role::Guard)), "{n} 人板缺守卫");
        }
    }
}

#[test]
fn wolfking_lynched_can_shoot() {
    let mut g = make_n(10);
    g.players[0].role = Some(Role::Werewolf);
    g.players[1].role = Some(Role::Werewolf);
    g.players[2].role = Some(Role::WolfKing); // 狼王
    g.players[3].role = Some(Role::Seer);
    g.players[4].role = Some(Role::Witch);
    g.players[5].role = Some(Role::Hunter);
    g.players[6].role = Some(Role::Guard);
    g.players[7].role = Some(Role::Villager);
    g.players[8].role = Some(Role::Villager);
    g.players[9].role = Some(Role::Villager);

    // 强行进入投票阶段，把狼王投死
    g.stage = Stage::DayVote;
    g.last_day_lynched = Some(2);
    g.players[2].alive = false;
    g.deaths.push(DeathEvent {
        day: 1,
        night: false,
        player_idx: 2,
        cause: DeathCause::Lynch,
    });

    g.advance_after_vote().unwrap();
    // 放逐者先说遗言
    assert_eq!(g.stage, Stage::LastWords);
    assert_eq!(g.last_words_queue, vec![2]);
    g.submit_last_words("p2", "".into()).unwrap();
    g.finish_last_words().unwrap();
    // 遗言完毕 → 进入 HunterShoot
    assert_eq!(g.stage, Stage::HunterShoot);
    assert_eq!(g.pending_hunter, Some(2));

    // 狼王开枪打死 P3 (预言家)
    let shot = g.hunter_shoot("p2", Some("p3")).unwrap();
    assert_eq!(shot, Some(3));
    assert!(!g.players[3].alive);
}

#[test]
fn is_wolf_includes_wolfking() {
    assert!(Role::WolfKing.is_wolf());
    assert!(Role::Werewolf.is_wolf());
    assert!(!Role::Seer.is_wolf());

    let mut game = make_n(10);
    game.players[0].role = Some(Role::WolfKing);
    assert!(game.is_wolf(0));
}

#[test]
fn wolfking_can_use_wolf_actions_and_is_checked_as_wolf() {
    let mut game = make_n(10);
    game.players[0].role = Some(Role::WolfKing);
    game.players[1].role = Some(Role::Werewolf);
    game.players[2].role = Some(Role::Werewolf);
    game.players[3].role = Some(Role::Seer);
    game.stage = Stage::WolvesPick;

    game.wolf_pick("p0", "p7").unwrap();
    game.wolf_say("p0", "统一刀 7".into()).unwrap();
    game.wolf_mark_ready("p0").unwrap();
    assert!(game.is_wolf_ready(0));

    game.stage = Stage::SeerPick;
    assert!(game.seer_check("p3", "p0").unwrap());
}

#[test]
fn wolves_disagreeing_produces_an_empty_kill() {
    let mut game = make_n(9);
    lock_roles_9(&mut game);
    game.wolf_pick("p0", "p6").unwrap();
    game.wolf_pick("p1", "p7").unwrap();
    game.wolf_pick("p2", "p6").unwrap();
    game.advance_after_wolves().unwrap();
    assert_eq!(game.night_victim, None);
}

#[test]
fn recap_log_captures_night_actions() {
    let mut g = make_n(9);
    lock_roles_9(&mut g);

    g.wolf_pick("p0", "p8").unwrap();
    g.wolf_pick("p1", "p8").unwrap();
    g.wolf_pick("p2", "p8").unwrap();
    g.advance_after_wolves().unwrap();
    g.seer_check("p3", "p0").unwrap();
    g.witch_act("p4", false, None).unwrap();

    // 应当至少包含：WolfFinalTarget(P8), SeerCheck(P0=狼), Witch(skip), Death(P8 wolf-kill)
    assert!(matches!(
        g.recap_log.iter().find(|e| matches!(e, RecapEvent::WolfFinalTarget { target: Some(8), .. })),
        Some(_)
    ));
    assert!(matches!(
        g.recap_log.iter().find(|e| matches!(e, RecapEvent::SeerCheck { target: 0, is_wolf: true, .. })),
        Some(_)
    ));
    assert!(matches!(
        g.recap_log.iter().find(|e| matches!(e, RecapEvent::Witch { save: false, poison: None, .. })),
        Some(_)
    ));
    assert!(matches!(
        g.recap_log.iter().find(|e| matches!(e, RecapEvent::Death { player: 8, cause: DeathCause::WolfKill, .. })),
        Some(_)
    ));
}

#[test]
fn night_deaths_after_first_night_have_no_last_words() {
    let mut g = make_n(9);
    lock_roles_9(&mut g);
    // 狼空刀（投自己人也行，简化用同一个目标但跳过狼刀）
    g.wolf_pick("p0", "p8").unwrap();
    g.wolf_pick("p1", "p8").unwrap();
    g.wolf_pick("p2", "p8").unwrap();
    g.advance_after_wolves().unwrap();
    g.seer_check("p3", "p0").unwrap();
    // 首夜救人，第二夜再制造夜间死亡。
    g.witch_act("p4", true, None).unwrap();
    // P8 被救，首夜无人死亡。
    assert_eq!(g.stage, Stage::DayReveal);
    assert!(g.last_night_deaths.is_empty());

    // 进白天，全员沉默，全员弃权 → 无放逐 → 进第二夜
    g.enter_day_discuss().unwrap();
    while !g.all_day_speeches_done() {
        let cur = g.current_day_speaker().unwrap();
        let oid = g.players[cur].open_id.clone();
        g.submit_day_speech(&oid, "".into()).unwrap();
    }
    g.enter_day_vote().unwrap();
    for i in g
        .alive_indices()
        .iter()
        .map(|x| g.players[*x].open_id.clone())
        .collect::<Vec<_>>()
    {
        g.cast_vote(&i, None).unwrap();
    }
    g.resolve_lynch().unwrap();
    g.advance_after_vote().unwrap();

    // 第二夜：狼空刀（P0 选自己已死的目标也不行；让狼刀某个非神）
    // 简化：跳过狼刀阶段，直接女巫毒人测试
    assert_eq!(g.stage, Stage::WolvesPick);
    g.wolf_pick("p0", "p8").unwrap();
    g.wolf_pick("p1", "p8").unwrap();
    g.wolf_pick("p2", "p8").unwrap();
    g.advance_after_wolves().unwrap();
    g.seer_check("p3", "p1").unwrap();
    // 女巫毒 P7（村民）。狼刀 P8 也死。两人都不进 last_words——夜里没有遗言阶段。
    g.witch_act("p4", false, Some("p7")).unwrap();
    assert_eq!(g.stage, Stage::DayReveal);
    assert!(g.last_words_queue.is_empty());
    assert!(!g.players[8].alive); // P8 死于狼刀
    assert!(!g.players[7].alive); // P7 死于毒
}

#[test]
fn sheriff_picks_direction_then_speaks_last() {
    let mut g = make_n(10);
    g.players[0].role = Some(Role::Werewolf);
    g.players[1].role = Some(Role::Werewolf);
    g.players[2].role = Some(Role::WolfKing);
    g.players[3].role = Some(Role::Seer);
    g.players[4].role = Some(Role::Witch);
    g.players[5].role = Some(Role::Hunter);
    g.players[6].role = Some(Role::Guard);
    g.players[7].role = Some(Role::Villager);
    g.players[8].role = Some(Role::Villager);
    g.players[9].role = Some(Role::Villager);
    g.sheriff_idx = Some(3);
    g.stage = Stage::DayReveal;
    g.day = 2;

    g.enter_day_discuss().unwrap();
    // 警长存活 → 先选方向
    assert_eq!(g.stage, Stage::SheriffPickDirection);

    // 警长选警上（顺时针）
    g.pick_sheriff_direction("p3", true).unwrap();
    assert_eq!(g.stage, Stage::DaySpeech);
    // 顺序：4,5,6,7,8,9,0,1,2,3 → 警长末位归票
    assert_eq!(g.day_speech_order[0], 4);
    assert_eq!(g.day_speech_order.last(), Some(&3));

    // 没轮到不能插话
    let err = g
        .submit_day_speech("p3", "我先说".into())
        .unwrap_err();
    assert!(err.to_string().contains("还没轮到"));
}

#[test]
fn sheriff_picks_downward_reverses_order() {
    let mut g = make_n(10);
    g.players[0].role = Some(Role::Werewolf);
    g.players[1].role = Some(Role::Werewolf);
    g.players[2].role = Some(Role::WolfKing);
    g.players[3].role = Some(Role::Seer);
    g.players[4].role = Some(Role::Witch);
    g.players[5].role = Some(Role::Hunter);
    g.players[6].role = Some(Role::Guard);
    g.players[7].role = Some(Role::Villager);
    g.players[8].role = Some(Role::Villager);
    g.players[9].role = Some(Role::Villager);
    g.sheriff_idx = Some(3);
    g.stage = Stage::DayReveal;
    g.day = 2;
    g.enter_day_discuss().unwrap();
    // 选警下（逆时针）
    g.pick_sheriff_direction("p3", false).unwrap();
    // 顺序：2,1,0,9,8,7,6,5,4,3
    assert_eq!(g.day_speech_order[0], 2);
    assert_eq!(g.day_speech_order[1], 1);
    assert_eq!(g.day_speech_order.last(), Some(&3));
}

#[test]
fn multi_candidate_sheriff_goes_to_speech_then_vote() {
    let mut g = make_n(10);
    g.players[0].role = Some(Role::Werewolf);
    g.players[1].role = Some(Role::Werewolf);
    g.players[2].role = Some(Role::WolfKing);
    g.players[3].role = Some(Role::Seer);
    g.players[4].role = Some(Role::Witch);
    g.players[5].role = Some(Role::Hunter);
    g.players[6].role = Some(Role::Guard);
    g.players[7].role = Some(Role::Villager);
    g.players[8].role = Some(Role::Villager);
    g.players[9].role = Some(Role::Villager);
    g.stage = Stage::SheriffNominate;

    // P0 + P3 都上警
    for i in 0..10 {
        let id = format!("p{i}");
        let run = i == 3 || i == 0;
        g.nominate_sheriff(&id, run).unwrap();
    }
    g.finish_sheriff_nominate().unwrap();
    assert_eq!(g.stage, Stage::SheriffSpeech);
    assert_eq!(g.sheriff_speech_order, vec![0, 3]);

    g.submit_sheriff_speech("p0", "我是预言家".into()).unwrap();
    g.submit_sheriff_speech("p3", "他悍跳，我才是真预言家".into())
        .unwrap();
    assert!(g.all_sheriff_speeches_done());

    g.finish_sheriff_speeches().unwrap();
    assert_eq!(g.stage, Stage::SheriffWithdraw);
    g.decide_sheriff_withdraw("p0", true).unwrap();
    g.decide_sheriff_withdraw("p3", true).unwrap();
    g.finish_sheriff_withdraw().unwrap();
    assert_eq!(g.stage, Stage::SheriffVote);
}

#[test]
fn first_night_dead_player_can_join_and_vote_in_sheriff_election() {
    let mut g = make_n(10);
    g.day = 1;
    g.stage = Stage::SheriffNominate;
    g.players[9].alive = false;
    g.last_night_deaths = vec![9];

    assert!(g.sheriff_eligible_indices().contains(&9));
    for i in 0..10 {
        g.nominate_sheriff(&format!("p{i}"), i == 0 || i == 3)
            .unwrap();
    }
    g.finish_sheriff_nominate().unwrap();
    g.submit_sheriff_speech("p0", "竞选".into()).unwrap();
    g.submit_sheriff_speech("p3", "竞选".into()).unwrap();
    g.finish_sheriff_speeches().unwrap();
    g.decide_sheriff_withdraw("p0", true).unwrap();
    g.decide_sheriff_withdraw("p3", true).unwrap();
    g.finish_sheriff_withdraw().unwrap();

    assert!(g.sheriff_voters().contains(&9));
    g.cast_sheriff_vote("p9", Some("p0")).unwrap();
}

#[test]
fn withdrawn_candidate_cannot_vote_for_sheriff() {
    let mut g = make_n(10);
    g.stage = Stage::SheriffNominate;
    for i in 0..10 {
        g.nominate_sheriff(&format!("p{i}"), matches!(i, 0 | 3 | 4))
            .unwrap();
    }
    g.finish_sheriff_nominate().unwrap();
    for idx in [0, 3, 4] {
        g.submit_sheriff_speech(&format!("p{idx}"), "竞选".into())
            .unwrap();
    }
    g.finish_sheriff_speeches().unwrap();
    g.decide_sheriff_withdraw("p0", false).unwrap();
    g.decide_sheriff_withdraw("p3", true).unwrap();
    g.decide_sheriff_withdraw("p4", true).unwrap();
    g.finish_sheriff_withdraw().unwrap();

    assert_eq!(g.sheriff_candidates(), vec![3, 4]);
    assert!(!g.sheriff_voters().contains(&0));
    assert!(g.cast_sheriff_vote("p0", Some("p3")).is_err());
}

#[test]
fn sheriff_tie_enters_pk_and_revote_can_elect() {
    let mut g = make_n(10);
    g.stage = Stage::SheriffVote;
    g.sheriff_nominations = vec![(0, true), (3, true)];
    g.sheriff_original_candidates = vec![0, 3];
    for voter in [1, 2, 4, 5] {
        g.cast_sheriff_vote(&format!("p{voter}"), Some("p0"))
            .unwrap();
    }
    for voter in [6, 7, 8, 9] {
        g.cast_sheriff_vote(&format!("p{voter}"), Some("p3"))
            .unwrap();
    }

    assert_eq!(g.resolve_sheriff_vote().unwrap(), None);
    assert_eq!(g.stage, Stage::SheriffSpeech);
    assert_eq!(g.sheriff_vote_round, 1);
    for candidate in [0, 3] {
        g.submit_sheriff_speech(&format!("p{candidate}"), "PK".into())
            .unwrap();
    }
    g.finish_sheriff_speeches().unwrap();
    for voter in [1, 2, 4, 5, 6] {
        g.cast_sheriff_vote(&format!("p{voter}"), Some("p0"))
            .unwrap();
    }
    for voter in [7, 8, 9] {
        g.cast_sheriff_vote(&format!("p{voter}"), Some("p3"))
            .unwrap();
    }

    assert_eq!(g.resolve_sheriff_vote().unwrap(), Some(0));
    assert_eq!(g.sheriff_idx, Some(0));
    assert_eq!(g.stage, Stage::DayReveal);
}

#[test]
fn sheriff_second_tie_loses_the_badge() {
    let mut g = make_n(10);
    g.stage = Stage::SheriffVote;
    g.sheriff_nominations = vec![(0, true), (3, true)];
    g.sheriff_original_candidates = vec![0, 3];

    for _round in 0..2 {
        for voter in [1, 2, 4, 5] {
            g.cast_sheriff_vote(&format!("p{voter}"), Some("p0"))
                .unwrap();
        }
        for voter in [6, 7, 8, 9] {
            g.cast_sheriff_vote(&format!("p{voter}"), Some("p3"))
                .unwrap();
        }
        assert_eq!(g.resolve_sheriff_vote().unwrap(), None);
        if g.sheriff_vote_round == 1 && g.stage == Stage::SheriffSpeech {
            for candidate in [0, 3] {
                g.submit_sheriff_speech(&format!("p{candidate}"), "PK".into())
                    .unwrap();
            }
            g.finish_sheriff_speeches().unwrap();
        }
    }

    assert_eq!(g.sheriff_idx, None);
    assert_eq!(g.stage, Stage::DayReveal);
}

#[test]
fn role_dist_rejects_out_of_range() {
    assert!(role_distribution(8).is_err());
    assert!(role_distribution(13).is_err());
    assert!(role_distribution(4).is_err());
}

#[test]
fn sheriff_election_only_for_10_plus() {
    assert!(!has_sheriff_election(9));
    assert!(has_sheriff_election(10));
    assert!(has_sheriff_election(11));
    assert!(has_sheriff_election(12));
}

#[test]
fn start_rejects_too_few_players() {
    let mut g = WolfGame::new("c".into());
    for i in 0..8 {
        add(&mut g, &format!("p{i}"), &format!("P{i}"));
    }
    let err = g.start_game().unwrap_err();
    assert!(err.to_string().contains("9-12"));
}

#[test]
fn nine_player_starts_at_wolves_pick_no_guard() {
    let g = make_n(9);
    // 9 人没守卫，直接进狼人阶段
    assert_eq!(g.stage, Stage::WolvesPick);
    assert_eq!(g.day, 1);
    assert!(!g.sheriff_enabled);
}

#[test]
fn twelve_player_starts_at_guard_pick_with_sheriff() {
    let g = make_n(12);
    assert_eq!(g.stage, Stage::GuardPick);
    assert!(g.sheriff_enabled);
}

#[test]
fn full_round_9p_lynch_a_wolf() {
    let mut g = make_n(9);
    lock_roles_9(&mut g);

    g.wolf_pick("p0", "p8").unwrap();
    g.wolf_pick("p1", "p8").unwrap();
    g.wolf_pick("p2", "p8").unwrap();
    g.advance_after_wolves().unwrap();
    assert_eq!(g.stage, Stage::SeerPick);

    let is_wolf = g.seer_check("p3", "p0").unwrap();
    assert!(is_wolf);
    assert_eq!(g.stage, Stage::WitchAct);

    g.witch_act("p4", false, None).unwrap();
    // 首夜先公布死讯，再进入死亡玩家遗言。
    assert_eq!(g.stage, Stage::DayReveal);
    assert_eq!(g.last_night_deaths, vec![8]);

    g.enter_day_discuss().unwrap();
    assert_eq!(g.stage, Stage::LastWords);
    g.submit_last_words("p8", "首夜遗言".into()).unwrap();
    g.finish_last_words().unwrap();
    assert_eq!(g.stage, Stage::DaySpeech);
    while !g.all_day_speeches_done() {
        let speaker_idx = g.current_day_speaker().unwrap();
        let oid = g.players[speaker_idx].open_id.clone();
        g.submit_day_speech(&oid, "".into()).unwrap();
    }
    g.enter_day_vote().unwrap();

    let alive: Vec<String> = g
        .alive_indices()
        .iter()
        .map(|i| g.players[*i].open_id.clone())
        .collect();
    for id in &alive {
        let target = if id == "p0" { "p1" } else { "p0" };
        g.cast_vote(id, Some(target)).unwrap();
    }
    let lynched = g.resolve_lynch().unwrap();
    assert_eq!(lynched, Some(0));

    g.advance_after_vote().unwrap();
    // 放逐者遗言
    assert_eq!(g.stage, Stage::LastWords);
    g.submit_last_words("p0", "".into()).unwrap();
    g.finish_last_words().unwrap();
    // 没猎人 / 警长 → 直接进下一夜
    assert_eq!(g.stage, Stage::WolvesPick);
    assert_eq!(g.day, 2);
}

#[test]
fn witch_save_blocks_kill() {
    let mut g = make_n(9);
    lock_roles_9(&mut g);

    g.wolf_pick("p0", "p6").unwrap();
    g.wolf_pick("p1", "p6").unwrap();
    g.wolf_pick("p2", "p6").unwrap();
    g.advance_after_wolves().unwrap();
    g.seer_check("p3", "p0").unwrap();
    g.witch_act("p4", true, None).unwrap();
    assert_eq!(g.stage, Stage::DayReveal);
    assert!(g.last_night_deaths.is_empty(), "P6 should be saved");
    assert!(g.witch_save_used);
}

#[test]
fn hunter_shot_after_wolf_kill() {
    let mut g = make_n(9);
    lock_roles_9(&mut g);

    g.wolf_pick("p0", "p5").unwrap();
    g.wolf_pick("p1", "p5").unwrap();
    g.wolf_pick("p2", "p5").unwrap();
    g.advance_after_wolves().unwrap();
    g.seer_check("p3", "p0").unwrap();
    g.witch_act("p4", false, None).unwrap();
    assert_eq!(g.stage, Stage::DayReveal);
    g.enter_day_discuss().unwrap();
    assert_eq!(g.stage, Stage::LastWords);
    g.submit_last_words("p5", "猎人遗言".into()).unwrap();
    g.finish_last_words().unwrap();
    assert_eq!(g.stage, Stage::HunterShoot);

    let shot = g.hunter_shoot("p5", Some("p0")).unwrap();
    assert_eq!(shot, Some(0));
    assert!(!g.players[0].alive);
    assert_eq!(g.stage, Stage::DaySpeech);
}

#[test]
fn witch_cannot_save_and_poison_same_night() {
    let mut g = make_n(9);
    lock_roles_9(&mut g);

    g.wolf_pick("p0", "p8").unwrap();
    g.wolf_pick("p1", "p8").unwrap();
    g.wolf_pick("p2", "p8").unwrap();
    g.advance_after_wolves().unwrap();
    g.seer_check("p3", "p0").unwrap();
    let r = g.witch_act("p4", true, Some("p1"));
    assert!(r.is_err(), "save+poison should reject");
}

#[test]
fn guard_blocks_wolf_kill() {
    let mut g = make_n(12);
    lock_roles_12(&mut g);
    g.sheriff_enabled = false;
    // P7 是守卫，守 P8 (村民)
    g.guard_pick("p7", "p8").unwrap();
    assert_eq!(g.stage, Stage::WolvesPick);

    // 三狼刀 P8
    g.wolf_pick("p0", "p8").unwrap();
    g.wolf_pick("p1", "p8").unwrap();
    g.wolf_pick("p2", "p8").unwrap();
    g.wolf_pick("p3", "p8").unwrap();
    g.advance_after_wolves().unwrap();
    g.seer_check("p4", "p0").unwrap();
    g.witch_act("p5", false, None).unwrap();
    assert_eq!(g.stage, Stage::DayReveal);
    assert!(g.last_night_deaths.is_empty(), "守卫应当挡住狼刀");
    assert!(g.players[8].alive);
}

#[test]
fn double_protect_kills_target() {
    // 同守同救：守卫守 P8 + 女巫救 P8 = P8 依然死亡
    let mut g = make_n(12);
    lock_roles_12(&mut g);
    g.sheriff_enabled = false;
    g.guard_pick("p7", "p8").unwrap();
    g.wolf_pick("p0", "p8").unwrap();
    g.wolf_pick("p1", "p8").unwrap();
    g.wolf_pick("p2", "p8").unwrap();
    g.wolf_pick("p3", "p8").unwrap();
    g.advance_after_wolves().unwrap();
    g.seer_check("p4", "p0").unwrap();
    g.witch_act("p5", true, None).unwrap();
    // P8 首夜死亡，先进入 DayReveal，之后再处理遗言。
    assert_eq!(g.stage, Stage::DayReveal);
    assert_eq!(g.last_night_deaths, vec![8], "同守同救应当死亡");
}

#[test]
fn guard_cannot_repeat_target() {
    let mut g = make_n(12);
    lock_roles_12(&mut g);
    g.sheriff_enabled = false;
    g.guard_pick("p7", "p8").unwrap();
    // 跑完一夜进第二夜
    g.wolf_pick("p0", "p8").unwrap();
    g.wolf_pick("p1", "p8").unwrap();
    g.wolf_pick("p2", "p8").unwrap();
    g.wolf_pick("p3", "p8").unwrap();
    g.advance_after_wolves().unwrap();
    g.seer_check("p4", "p0").unwrap();
    g.witch_act("p5", false, None).unwrap();
    // 一直推到下一夜
    g.enter_day_discuss().unwrap();
    // 12 人启用上警，跳过流程：让所有人不上警
    if g.stage == Stage::SheriffNominate {
        for id in g
            .alive_indices()
            .iter()
            .map(|i| g.players[*i].open_id.clone())
            .collect::<Vec<_>>()
        {
            g.nominate_sheriff(&id, false).unwrap();
        }
        g.finish_sheriff_nominate().unwrap();
    }
    // 全员沉默跳过白天发言
    while !g.all_day_speeches_done() {
        let speaker_idx = g.current_day_speaker().unwrap();
        let oid = g.players[speaker_idx].open_id.clone();
        g.submit_day_speech(&oid, "".into()).unwrap();
    }
    g.enter_day_vote().unwrap();
    // 全员弃权 → 没人放逐
    for id in g
        .alive_indices()
        .iter()
        .map(|i| g.players[*i].open_id.clone())
        .collect::<Vec<_>>()
    {
        g.cast_vote(&id, None).unwrap();
    }
    g.resolve_lynch().unwrap();
    g.advance_after_vote().unwrap();
    // 进入第二夜守卫阶段
    assert_eq!(g.stage, Stage::GuardPick);
    // 不能继续守 P8
    let r = g.guard_pick("p7", "p8");
    assert!(r.is_err(), "连续两晚守同一人应被拒");
}

#[test]
fn guard_skip_breaks_consecutive_protection() {
    let mut g = make_n(12);
    lock_roles_12(&mut g);
    g.guard_pick("p7", "p8").unwrap();
    assert_eq!(g.last_guard_target, Some(8));

    g.stage = Stage::GuardPick;
    g.guard_skip("p7").unwrap();
    assert_eq!(g.guard_target, None);
    assert_eq!(g.last_guard_target, None);

    g.stage = Stage::GuardPick;
    g.guard_pick("p7", "p8").unwrap();
    assert_eq!(g.last_guard_target, Some(8));
}

#[test]
fn sheriff_election_single_candidate_auto_elected() {
    let mut g = make_n(10);
    // 10 人板：3 狼 + 预女猎守 + 3 民。开局先经历 GuardPick (默认守自己) → 狼 → 预 → 女
    g.players[0].role = Some(Role::Werewolf);
    g.players[1].role = Some(Role::Werewolf);
    g.players[2].role = Some(Role::WolfKing);
    g.players[3].role = Some(Role::Seer);
    g.players[4].role = Some(Role::Witch);
    g.players[5].role = Some(Role::Hunter);
    g.players[6].role = Some(Role::Guard);
    g.players[7].role = Some(Role::Villager);
    g.players[8].role = Some(Role::Villager);
    g.players[9].role = Some(Role::Villager);

    g.guard_pick("p6", "p6").unwrap();
    g.wolf_pick("p0", "p9").unwrap();
    g.wolf_pick("p1", "p9").unwrap();
    g.wolf_pick("p2", "p9").unwrap();
    g.advance_after_wolves().unwrap();
    g.seer_check("p3", "p0").unwrap();
    g.witch_act("p4", false, None).unwrap();
    // 首夜先竞选警长，再公布死讯。
    assert_eq!(g.stage, Stage::SheriffNominate);

    // 全员决定：只有 P3 上警
    for id in g
        .sheriff_eligible_indices()
        .iter()
        .map(|i| g.players[*i].open_id.clone())
        .collect::<Vec<_>>()
    {
        let run = id == "p3";
        g.nominate_sheriff(&id, run).unwrap();
    }
    g.finish_sheriff_nominate().unwrap();
    // 唯一候选自动当选，但必须先公布死讯并处理首夜遗言。
    assert_eq!(g.sheriff_idx, Some(3));
    assert_eq!(g.stage, Stage::DayReveal);
    g.enter_day_discuss().unwrap();
    assert_eq!(g.stage, Stage::LastWords);
    g.submit_last_words("p9", "首夜遗言".into()).unwrap();
    g.finish_last_words().unwrap();
    assert_eq!(g.stage, Stage::SheriffPickDirection);
}

#[test]
fn sheriff_15x_vote_weight() {
    let mut g = make_n(10);
    g.players[0].role = Some(Role::Werewolf);
    g.players[1].role = Some(Role::Werewolf);
    g.players[2].role = Some(Role::WolfKing);
    g.players[3].role = Some(Role::Seer);
    g.players[4].role = Some(Role::Witch);
    g.players[5].role = Some(Role::Hunter);
    g.players[6].role = Some(Role::Guard);
    g.players[7].role = Some(Role::Villager);
    g.players[8].role = Some(Role::Villager);
    g.players[9].role = Some(Role::Villager);
    g.sheriff_idx = Some(3); // 直接设警长

    // 强行进入投票阶段
    g.stage = Stage::DayVote;
    // 5 人投 P0，4 人（含警长）投 P1：
    // 普通 5 票 = 10 权重投 P0
    // 警长 1 票 (3 权重) + 普通 3 票 (6 权重) = 9 权重投 P1
    // → P0 得票 10，P1 得票 9，P0 被放逐
    for i in [4, 5, 6, 7, 8] {
        let id = format!("p{i}");
        g.cast_vote(&id, Some("p0")).unwrap();
    }
    for i in [3, 9, 1, 2] {
        let id = format!("p{i}");
        // P1/P2 自己不能投自己 → 让他们投 P0 也可以，但这里 they vote P1 to test weight
        // 实际上 P1/P2 投自己会失败，让他们 abstain
        if i == 1 || i == 2 {
            g.cast_vote(&id, None).unwrap();
        } else {
            g.cast_vote(&id, Some("p1")).unwrap();
        }
    }
    let lynched = g.resolve_lynch().unwrap();
    assert_eq!(lynched, Some(0));
}

#[test]
fn day_vote_tie_enters_pk_and_only_off_stage_players_revote() {
    let mut g = make_n(9);
    lock_roles_9(&mut g);
    g.stage = Stage::DayVote;

    for voter in [0, 2, 3, 4] {
        g.cast_vote(&format!("p{voter}"), Some("p1")).unwrap();
    }
    for voter in [1, 5, 6, 7] {
        g.cast_vote(&format!("p{voter}"), Some("p0")).unwrap();
    }
    g.cast_vote("p8", None).unwrap();

    assert_eq!(g.resolve_lynch().unwrap(), None);
    assert_eq!(g.stage, Stage::DaySpeech);
    assert_eq!(g.day_vote_round, 1);
    assert_eq!(g.day_pk_candidates.len(), 2);
    while let Some(candidate) = g.current_day_speaker() {
        let open_id = g.players[candidate].open_id.clone();
        g.submit_day_speech(&open_id, "PK".into()).unwrap();
    }
    g.enter_day_vote().unwrap();

    assert!(g.cast_vote("p0", Some("p1")).is_err());
    assert!(g.cast_vote("p2", Some("p3")).is_err());
    for voter in [2, 3, 4, 5] {
        g.cast_vote(&format!("p{voter}"), Some("p0")).unwrap();
    }
    for voter in [6, 7, 8] {
        g.cast_vote(&format!("p{voter}"), Some("p1")).unwrap();
    }
    assert_eq!(g.resolve_lynch().unwrap(), Some(0));
}

#[test]
fn self_explode_ends_the_day_without_revealing_other_roles() {
    let mut g = make_n(9);
    lock_roles_9(&mut g);
    g.stage = Stage::DaySpeech;

    assert_eq!(g.self_explode("p0").unwrap(), 0);
    assert!(!g.players[0].alive);
    assert!(matches!(
        g.deaths.last(),
        Some(DeathEvent {
            player_idx: 0,
            cause: DeathCause::SelfExplode,
            ..
        })
    ));
    assert_eq!(g.day, 2);
    assert_eq!(g.stage, Stage::WolvesPick);
}

#[test]
fn election_self_explode_cancels_badge_and_skips_the_day_after_reveal() {
    let mut g = make_n(10);
    lock_roles_10(&mut g);
    g.players[9].alive = false;
    g.last_night_deaths = vec![9];
    g.last_words_queue = vec![9];
    g.stage = Stage::SheriffSpeech;

    g.self_explode("p0").unwrap();
    assert_eq!(g.stage, Stage::DayReveal);
    assert!(g.skip_day_after_reveal);
    assert_eq!(g.sheriff_idx, None);
    g.enter_day_discuss().unwrap();
    assert_eq!(g.stage, Stage::LastWords);
    g.submit_last_words("p9", "遗言".into()).unwrap();
    g.finish_last_words().unwrap();

    assert_eq!(g.day, 2);
    assert_eq!(g.stage, Stage::GuardPick);
    assert!(!g.sheriff_enabled);
}

#[test]
fn sheriff_dies_triggers_badge_pass() {
    let mut g = make_n(10);
    g.players[0].role = Some(Role::Werewolf);
    g.players[1].role = Some(Role::Werewolf);
    g.players[2].role = Some(Role::WolfKing);
    g.players[3].role = Some(Role::Seer);
    g.players[4].role = Some(Role::Witch);
    g.players[5].role = Some(Role::Hunter);
    g.players[6].role = Some(Role::Guard);
    g.players[7].role = Some(Role::Villager);
    g.players[8].role = Some(Role::Villager);
    g.players[9].role = Some(Role::Villager);
    g.sheriff_idx = Some(3);

    // 守卫不守警长，让狼刀杀掉警长
    g.guard_pick("p6", "p6").unwrap();
    g.wolf_pick("p0", "p3").unwrap();
    g.wolf_pick("p1", "p3").unwrap();
    g.wolf_pick("p2", "p3").unwrap();
    g.advance_after_wolves().unwrap();
    // 夜间死亡在女巫行动后统一结算；这里直接进入女巫阶段，聚焦测试警徽流转。
    g.stage = Stage::WitchAct;
    g.night_victim = Some(3);
    g.witch_act("p4", false, None).unwrap();
    // 首夜先公布死讯，死者说完遗言后再处理警徽。
    assert_eq!(g.stage, Stage::DayReveal);
    assert_eq!(g.pending_badge, Some(3));
    g.enter_day_discuss().unwrap();
    assert_eq!(g.stage, Stage::LastWords);
    g.submit_last_words("p3", "警徽撕掉".into()).unwrap();
    g.finish_last_words().unwrap();
    assert_eq!(g.stage, Stage::BadgePass);

    // 撕毁警徽
    let new_holder = g.transfer_badge("p3", None).unwrap();
    assert_eq!(new_holder, None);
    assert_eq!(g.sheriff_idx, None);
    assert_eq!(g.stage, Stage::DaySpeech);
}

#[test]
fn victory_when_all_wolves_dead() {
    let mut g = make_n(9);
    lock_roles_9(&mut g);
    g.players[0].alive = false;
    g.players[1].alive = false;
    g.players[2].alive = false;
    assert_eq!(g.victory(), Some(Winner::Good));
}

#[test]
fn victory_when_all_gods_are_dead() {
    let mut g = make_n(9);
    lock_roles_9(&mut g);
    for i in 3..=5 {
        g.players[i].alive = false;
    }
    assert_eq!(g.victory(), Some(Winner::Wolves));
}

#[test]
fn victory_when_all_villagers_are_dead() {
    let mut g = make_n(9);
    lock_roles_9(&mut g);
    for i in 6..=8 {
        g.players[i].alive = false;
    }
    assert_eq!(g.victory(), Some(Winner::Wolves));
}

#[test]
fn victory_does_not_depend_on_parity_or_sheriff() {
    let mut g = make_n(9);
    lock_roles_9(&mut g);
    g.players[1].alive = false;
    g.players[2].alive = false;
    g.players[4].alive = false;
    g.players[5].alive = false;
    g.players[7].alive = false;
    g.players[8].alive = false;
    g.sheriff_idx = Some(3);
    assert_eq!(g.alive_wolf_count(), 1);
    assert_eq!(g.alive_count(), 3);
    assert_eq!(g.victory(), None, "民和神均未被屠，不应按人数判狼胜");
}
