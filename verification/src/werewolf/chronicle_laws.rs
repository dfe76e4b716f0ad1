//! What is written down of a game: who died when and of what, and what everybody may read of it.

use vstd::prelude::*;
use crate::assoc::has_key;
use crate::feishu::reading::says;
use crate::seqs::lemma_indices_where;
use crate::text::decimal_text;
use crate::werewolf::election_laws::has_decided;
use crate::werewolf::plan::Next;
use crate::werewolf::round_laws::{law_progress_is_told, turns_to};
use crate::werewolf::state::GameView;
use crate::werewolf::types::{DeathCause, DeathEvent, RecapView, Stage};

verus! {

proof fn lemma_death_written(g: GameView, d: Seq<(usize, DeathCause)>, k: int)
    requires
        0 <= k < d.len(),
        forall|i: int| 0 <= i < d.len() ==> (#[trigger] d[i]).0 < g.players.len(),
    ensures
        ({
            let h = g.dying(d);
            let name = g.players[d[k].0 as int].name;
            &&& h.deaths.contains(
                DeathEvent { day: g.day, night: true, player_idx: d[k].0, cause: d[k].1 },
            )
            &&& h.event_log.contains(
                "第 "@ + decimal_text(g.day as nat) + " 夜："@ + name + " 死亡"@,
            )
            &&& h.recap_log.contains(
                RecapView::Death { day: g.day, night: true, player: d[k].0, cause: d[k].1 },
            )
        }),
    decreases d.len(),
{
    let rest = d.drop_last();
    let before = g.dying(rest);
    let h = g.dying(d);
    crate::werewolf::night::lemma_dying(g, rest);
    if k == d.len() - 1 {
        assert(before.day == g.day);
        assert(before.players[d[k].0 as int].name == g.players[d[k].0 as int].name);
        assert(h.deaths.last() == (DeathEvent {
            day: g.day,
            night: true,
            player_idx: d[k].0,
            cause: d[k].1,
        }));
        assert(h.event_log.last() == "第 "@ + decimal_text(g.day as nat) + " 夜："@
            + g.players[d[k].0 as int].name + " 死亡"@);
        assert(h.recap_log.last() == (RecapView::Death {
            day: g.day,
            night: true,
            player: d[k].0,
            cause: d[k].1,
        }));
    } else {
        assert(rest[k] == d[k]);
        lemma_death_written(g, rest, k);
        lemma_still_there(before.deaths, h.deaths.last());
        lemma_still_there(before.event_log, h.event_log.last());
        lemma_still_there(before.recap_log, h.recap_log.last());
    }
}

proof fn lemma_still_there<T>(s: Seq<T>, x: T)
    ensures
        forall|y: T| s.contains(y) ==> #[trigger] s.push(x).contains(y),
{
    assert forall|y: T| s.contains(y) implies #[trigger] s.push(x).contains(y) by {
        let i = choose|i: int| 0 <= i < s.len() && s[i] == y;
        assert(s.push(x)[i] == y);
    }
}

/// Who dies in the night is written down: as killed by the wolves if the attack was not averted,
/// else as poisoned. In the history everybody reads only that the player died.
pub proof fn law_dead_of_the_night_are_recorded(g: GameView, i: usize)
    requires
        g.wf(),
        g.in_play(),
        i < g.players.len(),
    ensures
        ({
            let h = g.after_night_step(Stage::WitchAct);
            let guarded = g.guard_target == Some(i);
            let saved = g.witch_save_choice == Some(true);
            let killed = g.night_victim == Some(i) && guarded == saved;
            let poisoned = g.witch_poison_target == Some(i);
            let line = "第 "@ + decimal_text(g.day as nat) + " 夜："@ + g.players[i as int].name
                + " 死亡"@;
            &&& killed ==> h.deaths.contains(
                DeathEvent {
                    day: g.day,
                    night: true,
                    player_idx: i,
                    cause: DeathCause::WolfKill,
                },
            ) && h.event_log.contains(line)
            &&& poisoned && !killed ==> h.deaths.contains(
                DeathEvent { day: g.day, night: true, player_idx: i, cause: DeathCause::Poison },
            ) && h.event_log.contains(line)
        }),
{
    let base = g.potions_spent();
    let d = g.night_deaths();
    let killed = g.night_victim == Some(i) && (g.guard_target == Some(i)) == (g.witch_save_choice
        == Some(true));
    assert(forall|k: int| 0 <= k < d.len() ==> (#[trigger] d[k]).0 < g.players.len());
    if killed {
        assert(d[0] == (i, DeathCause::WolfKill));
        lemma_death_written(base, d, 0);
    } else if g.witch_poison_target == Some(i) {
        assert(d.last() == (i, DeathCause::Poison));
        lemma_death_written(base, d, d.len() - 1);
    }
}

/// A shot is written down with who fired it and whom it took.
pub proof fn law_shot_is_recorded(g: GameView, s: usize, t: usize)
    requires
        s < g.players.len(),
        t < g.players.len(),
    ensures
        ({
            let h = g.shot_done(s, Some(t));
            let held = g.shot_done(s, None);
            &&& h.recap_log.contains(RecapView::HunterShot { day: g.day, shooter: s, target: Some(t) })
            &&& held.recap_log.contains(
                RecapView::HunterShot { day: g.day, shooter: s, target: None },
            )
            &&& h.event_log == g.event_log.push(
                g.players[s as int].name + " 临死前开枪带走 "@ + g.players[t as int].name,
            )
            &&& held.event_log == g.event_log.push(g.players[s as int].name + " 选择不开枪"@)
            &&& !h.players[t as int].alive
            &&& held.players == g.players
        }),
{
    let h = g.shot_done(s, Some(t));
    let held = g.shot_done(s, None);
    assert(h.recap_log.last() == (RecapView::HunterShot { day: g.day, shooter: s, target: Some(t) }));
    assert(held.recap_log.last() == (RecapView::HunterShot {
        day: g.day,
        shooter: s,
        target: None,
    }));
}

/// While candidates decide whether to stay, the table turns to the first who has not decided, and
/// closes the step when all have.
pub proof fn law_withdrawal_turns(g: GameView, k: int)
    requires
        g.wf(),
        g.stage == Stage::SheriffWithdraw,
    ensures
        0 <= k < g.sheriff_original_candidates.len() && (forall|j: int|
            0 <= j < k ==> has_decided(g, #[trigger] g.sheriff_original_candidates[j]))
            && !has_decided(g, g.sheriff_original_candidates[k]) ==> turns_to(
            g,
            g.sheriff_original_candidates[k],
        ),
        (forall|j: int|
            0 <= j < g.sheriff_original_candidates.len() ==> has_decided(
                g,
                #[trigger] g.sheriff_original_candidates[j],
            )) ==> g.plan().next == Next::Settle,
{
    let c = g.sheriff_original_candidates;
    let n = c.len() as int;
    let open = g.undecided();
    crate::seqs::lemma_first_from(0, n, open);
    let f = crate::seqs::first_from(0, n, open);
    assert forall|j: int| 0 <= j < n implies #[trigger] open(j) == !has_decided(g, c[j]) by {
        crate::werewolf::election_laws::lemma_has_decided(g, c[j]);
    }
    if f < n {
        assert(open(f));
    }
    if 0 <= k < n && (forall|j: int| 0 <= j < k ==> has_decided(g, #[trigger] c[j]))
        && !has_decided(g, c[k]) {
        assert(open(k));
        if f < k {
            assert(has_decided(g, c[f]));
        }
        assert(f == k);
        assert(g.withdrawer() == Some(c[k]));
    }
}

/// During a vote everybody reads of each voter whether the player has voted.
pub proof fn law_vote_progress_is_told(g: GameView, s: usize)
    requires
        g.players.len() <= usize::MAX,
        g.stage == Stage::DayVote,
        g.day_vote_round == 0,
        s < g.players.len(),
        g.players[s as int].alive,
    ensures
        g.public_notice() is Some,
        has_key(g.day_votes, s) ==> says(
            g.public_notice()->0.card,
            "✅ "@ + g.players[s as int].name,
        ),
        !has_key(g.day_votes, s) ==> says(
            g.public_notice()->0.card,
            "⏳ "@ + g.players[s as int].name,
        ),
{
    lemma_indices_where(g.players.len(), g.votes());
    assert((g.votes())(s as int));
    let seats = g.voter_seats();
    assert(seats.contains(s));
    let k = choose|k: int| 0 <= k < seats.len() && seats[k] == s;
    law_progress_is_told(g, "🗳️ 投票进度"@, "blue"@, seats, g.has_voted(), k);
    lemma_vote_notice(g);
}

proof fn lemma_vote_notice(g: GameView)
    requires
        g.stage == Stage::DayVote,
    ensures
        g.public_notice() is Some,
        g.public_notice()->0.card == g.done_card(
            "🗳️ 投票进度"@,
            "blue"@,
            g.voter_seats(),
            g.has_voted(),
        ),
{
}

/// The name of a stage tells whether it is night or day.
pub proof fn law_stage_names_tell_the_time(stage: Stage)
    ensures
        ({
            let night = stage == Stage::GuardPick || stage == Stage::WolvesPick || stage
                == Stage::SeerPick || stage == Stage::WitchAct;
            let day = stage == Stage::DayReveal || stage == Stage::SheriffNominate || stage
                == Stage::SheriffSpeech || stage == Stage::SheriffWithdraw || stage
                == Stage::SheriffVote || stage == Stage::SheriffPickDirection || stage
                == Stage::DaySpeech || stage == Stage::DayVote;
            &&& night <==> "夜·"@.is_prefix_of(stage.label_text())
            &&& day <==> "白天·"@.is_prefix_of(stage.label_text())
        }),
{
    reveal_strlit("夜·");
    reveal_strlit("白天·");
    reveal_strlit("等待玩家");
    reveal_strlit("夜·守卫行动");
    reveal_strlit("夜·狼人行动");
    reveal_strlit("夜·预言家查验");
    reveal_strlit("夜·女巫行动");
    reveal_strlit("白天·公布死讯");
    reveal_strlit("白天·上警阶段");
    reveal_strlit("白天·上警发言");
    reveal_strlit("白天·上警退水");
    reveal_strlit("白天·警长投票");
    reveal_strlit("白天·警长选择方向");
    reveal_strlit("白天·轮流发言");
    reveal_strlit("白天·投票");
    reveal_strlit("死亡遗言");
    reveal_strlit("猎人开枪");
    reveal_strlit("警徽流转");
    reveal_strlit("游戏结束");
    let t = stage.label_text();
    assert(t.len() >= 4);
    if t[0] == '夜' {
        assert(t.subrange(0, 2) =~= "夜·"@);
    } else {
        if "夜·"@.is_prefix_of(t) {
            assert(t.subrange(0, 2)[0] == t[0]);
        }
    }
    if t[0] == '白' {
        assert(t.subrange(0, 3) =~= "白天·"@);
    } else {
        if "白天·"@.is_prefix_of(t) {
            assert(t.subrange(0, 3)[0] == t[0]);
        }
    }
}

} // verus!
