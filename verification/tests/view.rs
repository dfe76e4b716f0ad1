//! What an AI player is shown.

use lark_arena::werewolf::state::WolfGame;
use lark_arena::werewolf::types::{DeathCause, RecapEvent, Stage};
use lark_arena::werewolf::view::build_view;

#[test]
fn render_view_shows_role() {
    let mut g = WolfGame::new("c".into());
    for i in 0..9 {
        g.add_player(format!("p{i}"), format!("P{i}")).unwrap();
    }
    g.start_game().unwrap();
    let view = build_view(&g, 0);
    let s = view.render();
    assert!(s.contains("P0"));
    assert!(s.contains("第 1 天"));
}

#[test]
fn first_night_death_is_hidden_during_sheriff_election() {
    let mut g = WolfGame::new("c".into());
    for i in 0..10 {
        g.add_player(format!("p{i}"), format!("P{i}")).unwrap();
    }
    g.start_game().unwrap();
    g.players[9].alive = false;
    g.last_night_deaths = vec![9];
    g.event_log.push("第 1 夜：P9 死亡".into());
    g.recap_log.push(RecapEvent::Death {
        day: 1,
        night: true,
        player: 9,
        cause: DeathCause::WolfKill,
    });
    g.stage = Stage::SheriffNominate;

    let hidden = build_view(&g, 0).render();
    assert!(hidden.contains("存活："));
    assert!(hidden.contains("P9"));
    assert!(!hidden.contains("第 1 夜：P9 死亡"));
    assert!(!hidden.contains("【D1 夜】夜里死亡"));

    g.stage = Stage::DayReveal;
    let revealed = build_view(&g, 0).render();
    assert!(revealed.contains("第 1 夜：P9 死亡"));
    assert!(revealed.contains("【D1 夜】夜里死亡"));
}

#[test]
fn ai_sees_completed_vote_round_but_not_live_revote_ballots() {
    let mut g = WolfGame::new("c".into());
    for i in 0..9 {
        g.add_player(format!("p{i}"), format!("P{i}")).unwrap();
    }
    g.start_game().unwrap();
    g.stage = Stage::DayVote;
    g.cast_vote("p0", Some("p1")).unwrap();
    g.cast_vote("p1", Some("p0")).unwrap();
    g.cast_vote("p2", Some("p1")).unwrap();
    g.cast_vote("p3", Some("p0")).unwrap();
    assert_eq!(g.resolve_lynch().unwrap(), None);

    let first_round = build_view(&g, 4).render();
    assert!(first_round.contains("【D1 第1轮投票 →】P1"));
    while let Some(candidate) = g.current_day_speaker() {
        let open_id = g.players[candidate].open_id.clone();
        g.submit_day_speech(&open_id, "PK".into()).unwrap();
    }
    g.enter_day_vote().unwrap();
    g.cast_vote("p2", Some("p0")).unwrap();

    let revote_in_progress = build_view(&g, 4).render();
    assert!(revote_in_progress.contains("【D1 第1轮投票 →】P1"));
    assert!(!revote_in_progress.contains("【D1 第2轮投票 →】"));
}
