//! With which words a move is refused.

use vstd::prelude::*;
use crate::seqs::lemma_indices_where;
use crate::text::trimmed;
use crate::werewolf::error::GameError;
use crate::werewolf::laws::law_seat_of;
use crate::werewolf::night_laws::{lemma_stranger, wolf_role};
use crate::werewolf::state::GameView;
use crate::werewolf::types::{Role, Stage};

verus! {

/// Whether a move is refused with these words.
pub open spec fn refused_with<T>(r: Result<T, GameError>, words: Seq<char>) -> bool {
    r is Err && r->Err_0.text() == words
}

/// The guard is told why the guard may not protect somebody.
pub proof fn law_guard_refusals(g: GameView, s: usize, t: usize)
    requires
        g.wf(),
        s < g.players.len(),
        t < g.players.len(),
    ensures
        ({
            let p = g.players[s as int];
            let r = g.guard_pick(p.open_id, g.players[t as int].open_id);
            let guard = p.role == Some(Role::Guard) && p.alive;
            let turn = g.stage == Stage::GuardPick;
            &&& !turn ==> refused_with(r, "当前不是守卫阶段"@)
            &&& turn && !guard ==> refused_with(r, "你不是存活的守卫"@)
            &&& turn && guard && !g.players[t as int].alive ==> refused_with(r, "不能守护已死亡的玩家"@)
            &&& turn && guard && g.players[t as int].alive && g.last_guard_target == Some(t)
                ==> refused_with(r, "不能连续两晚守护同一个人"@)
        }),
{
    law_seat_of(g, s);
    law_seat_of(g, t);
}

/// A wolf is told why the wolf may not pick somebody or confirm.
pub proof fn law_wolf_refusals(g: GameView, s: usize, t: usize, message: Seq<char>)
    requires
        g.wf(),
        s < g.players.len(),
        t < g.players.len(),
    ensures
        ({
            let p = g.players[s as int];
            let r = g.wolf_pick(p.open_id, g.players[t as int].open_id);
            let said = g.wolf_say(p.open_id, message);
            let ready = g.wolf_mark_ready(p.open_id);
            let wolf = wolf_role(p.role) && p.alive;
            let turn = g.stage == Stage::WolvesPick;
            &&& !turn ==> refused_with(r, "当前不是狼人投票阶段"@) && refused_with(said, "当前不是狼人阶段"@)
                && refused_with(ready, "当前不是狼人阶段"@)
            &&& turn && !wolf ==> refused_with(r, "你不是存活的狼人"@) && refused_with(
                said,
                "你不是存活的狼人"@,
            ) && refused_with(ready, "你不是存活的狼人"@)
            &&& turn && wolf && g.wolf_ready.contains(s) ==> refused_with(r, "你已确认目标，不能再修改"@)
            &&& turn && wolf && !g.wolf_ready.contains(s) && !g.players[t as int].alive
                ==> refused_with(r, "不能选择已死亡的玩家"@)
            &&& turn && wolf && trimmed(message).len() == 0 ==> refused_with(said, "消息为空"@)
            &&& turn && wolf && (forall|k: int|
                0 <= k < g.wolf_kill_votes.len() ==> (#[trigger] g.wolf_kill_votes[k]).0 != s)
                ==> refused_with(ready, "请先选目标再确认"@)
        }),
{
    law_seat_of(g, s);
    law_seat_of(g, t);
    crate::assoc::lemma_key_pos(g.wolf_kill_votes, s);
}

/// The seer is told why the seer may not check somebody.
pub proof fn law_seer_refusals(g: GameView, s: usize, t: usize)
    requires
        g.wf(),
        s < g.players.len(),
        t < g.players.len(),
    ensures
        ({
            let p = g.players[s as int];
            let r = g.seer_check(p.open_id, g.players[t as int].open_id);
            let seer = p.role == Some(Role::Seer) && p.alive;
            let turn = g.stage == Stage::SeerPick;
            &&& !turn ==> refused_with(r, "当前不是预言家阶段"@)
            &&& turn && !seer ==> refused_with(r, "你不是存活的预言家"@)
            &&& turn && seer && !g.players[t as int].alive ==> refused_with(r, "不能查验已死亡的玩家"@)
            &&& turn && seer && s == t ==> refused_with(r, "不能查验自己"@)
        }),
{
    law_seat_of(g, s);
    law_seat_of(g, t);
}

/// The witch is told why she may not use a potion.
pub proof fn law_witch_refusals(g: GameView, s: usize, t: usize)
    requires
        g.wf(),
        s < g.players.len(),
        t < g.players.len(),
    ensures
        ({
            let p = g.players[s as int];
            let save = g.witch_act(p.open_id, true, None);
            let poison = g.witch_act(p.open_id, false, Some(g.players[t as int].open_id));
            let both = g.witch_act(p.open_id, true, Some(g.players[t as int].open_id));
            let witch = p.role == Some(Role::Witch) && p.alive;
            let turn = g.stage == Stage::WitchAct;
            let here = turn && witch;
            &&& !turn ==> refused_with(save, "当前不是女巫阶段"@)
            &&& turn && !witch ==> refused_with(save, "你不是存活的女巫"@)
            &&& here ==> refused_with(both, "同一晚不能同时使用救药和毒药"@)
            &&& here && g.witch_save_used ==> refused_with(save, "救药已经用过了"@)
            &&& here && !g.witch_save_used && g.night_victim is None ==> refused_with(
                save,
                "今晚是空刀，没人需要救"@,
            )
            &&& here && g.witch_poison_used ==> refused_with(poison, "毒药已经用过了"@)
            &&& here && !g.witch_poison_used && !g.players[t as int].alive ==> refused_with(
                poison,
                "不能毒已死亡的玩家"@,
            )
            &&& here && !g.witch_poison_used && s == t ==> refused_with(poison, "不能毒自己"@)
        }),
{
    law_seat_of(g, s);
    law_seat_of(g, t);
}

/// A voter is told why a vote does not count.
pub proof fn law_vote_refusals(g: GameView, s: usize, t: usize)
    requires
        g.wf(),
        g.in_play(),
        s < g.players.len(),
        t < g.players.len(),
    ensures
        ({
            let p = g.players[s as int];
            let r = g.cast_vote(p.open_id, Some(g.players[t as int].open_id));
            let turn = g.stage == Stage::DayVote && g.day_vote_round == 0;
            &&& g.stage != Stage::DayVote ==> refused_with(r, "当前不是投票阶段"@)
            &&& turn && !p.alive ==> refused_with(r, "你不能参与本轮投票"@)
            &&& turn && p.alive && !g.players[t as int].alive ==> refused_with(r, "不能投死人"@)
            &&& turn && p.alive && s == t ==> refused_with(r, "不能投自己"@)
        }),
{
    law_seat_of(g, s);
    law_seat_of(g, t);
    lemma_indices_where(g.players.len(), g.votes());
    lemma_indices_where(g.players.len(), g.living());
    assert((g.votes())(s as int) == (g.players[s as int].alive && (g.day_vote_round == 0
        || !g.day_pk_candidates.contains(s))));
    assert((g.living())(t as int) == g.players[t as int].alive);
}

/// Who is not at the table is told so, whatever the move.
pub proof fn law_strangers_are_refused(g: GameView, id: Seq<char>, start: usize)
    requires
        g.wf(),
        forall|i: int| 0 <= i < g.players.len() ==> (#[trigger] g.players[i]).open_id != id,
    ensures
        g.stage == Stage::GuardPick ==> refused_with(g.guard_skip(id), "你不在桌上"@),
        g.stage == Stage::WolvesPick ==> refused_with(g.wolf_mark_ready(id), "你不在桌上"@),
        g.stage == Stage::WitchAct ==> refused_with(g.witch_act(id, false, None), "你不在桌上"@),
        g.stage == Stage::SheriffNominate ==> refused_with(g.nominate_sheriff(id, true), "你不在桌上"@),
        g.stage == Stage::DayVote ==> refused_with(g.cast_vote(id, None), "你不在桌上"@),
        g.stage == Stage::HunterShoot ==> refused_with(g.hunter_shoot(id, None, start), "你不在桌上"@),
        g.stage == Stage::BadgePass ==> refused_with(g.transfer_badge(id, None, start), "你不在桌上"@),
{
    lemma_stranger(g, id);
}

/// Who may not speak, shoot, pass the badge or pick the direction is told that it is not the
/// player's turn.
pub proof fn law_out_of_turn(g: GameView, s: usize, start: usize, text: Seq<char>)
    requires
        g.wf(),
        g.in_play(),
        s < g.players.len(),
    ensures
        ({
            let id = g.players[s as int].open_id;
            &&& g.stage == Stage::DaySpeech && g.day_speech_idx < g.day_speech_order.len()
                && g.day_speech_order[g.day_speech_idx as int] != s ==> refused_with(
                g.submit_day_speech(id, text),
                "还没轮到你发言"@,
            )
            &&& g.stage == Stage::DaySpeech && g.day_speech_idx >= g.day_speech_order.len()
                ==> refused_with(g.submit_day_speech(id, text), "发言已结束"@)
            &&& g.stage != Stage::DaySpeech ==> refused_with(
                g.submit_day_speech(id, text),
                "当前不是白天发言阶段"@,
            )
            &&& g.stage == Stage::SheriffPickDirection && g.sheriff_idx != Some(s) ==> refused_with(
                g.pick_sheriff_direction(id, true),
                "不是你来选"@,
            )
            &&& g.stage != Stage::SheriffPickDirection ==> refused_with(
                g.pick_sheriff_direction(id, true),
                "当前不是选择方向阶段"@,
            )
        }),
{
    law_seat_of(g, s);
}

/// Who may shoot or pass the badge is told why not at somebody; anybody else is told that it is
/// not the player's to do.
pub proof fn law_dying_refusals(g: GameView, s: usize, t: usize, start: usize)
    requires
        g.wf(),
        s < g.players.len(),
        t < g.players.len(),
    ensures
        ({
            let id = g.players[s as int].open_id;
            let shot = g.hunter_shoot(id, Some(g.players[t as int].open_id), start);
            let badge = g.transfer_badge(id, Some(g.players[t as int].open_id), start);
            let shoots = g.stage == Stage::HunterShoot;
            let passes = g.stage == Stage::BadgePass;
            &&& !shoots ==> refused_with(shot, "当前不是猎人开枪阶段"@)
            &&& shoots && g.pending_hunter != Some(s) ==> refused_with(shot, "不是你开枪"@)
            &&& shoots && g.pending_hunter == Some(s) && !g.players[t as int].alive ==> refused_with(
                shot,
                "不能枪杀已死亡的玩家"@,
            )
            &&& shoots && g.pending_hunter == Some(s) && g.players[t as int].alive && s == t
                ==> refused_with(shot, "不能枪杀自己"@)
            &&& !passes ==> refused_with(badge, "当前不是警徽流转阶段"@)
            &&& passes && g.pending_badge != Some(s) ==> refused_with(badge, "不是你来移交警徽"@)
            &&& passes && g.pending_badge == Some(s) && !g.players[t as int].alive ==> refused_with(
                badge,
                "不能给死人警徽"@,
            )
            &&& passes && g.pending_badge == Some(s) && g.players[t as int].alive && s == t
                ==> refused_with(badge, "不能给自己"@)
        }),
{
    law_seat_of(g, s);
    law_seat_of(g, t);
}

/// In the election a player is told why the player may not run, speak, withdraw or vote.
pub proof fn law_election_refusals(g: GameView, s: usize, text: Seq<char>)
    requires
        g.wf(),
        s < g.players.len(),
    ensures
        ({
            let id = g.players[s as int].open_id;
            let part = g.players[s as int].alive || g.day == 1 && g.last_night_deaths.contains(s);
            &&& g.stage != Stage::SheriffNominate ==> refused_with(
                g.nominate_sheriff(id, true),
                "当前不是上警阶段"@,
            )
            &&& g.stage == Stage::SheriffNominate && !part ==> refused_with(
                g.nominate_sheriff(id, true),
                "你不能参与本次上警"@,
            )
            &&& g.stage != Stage::SheriffSpeech ==> refused_with(
                g.submit_sheriff_speech(id, text),
                "当前不是上警发言阶段"@,
            )
            &&& g.stage != Stage::SheriffWithdraw ==> refused_with(
                g.decide_sheriff_withdraw(id, true),
                "当前不是退水阶段"@,
            )
            &&& g.stage != Stage::SheriffVote ==> refused_with(
                g.cast_sheriff_vote(id, None),
                "当前不是警长投票阶段"@,
            )
            &&& g.stage == Stage::SheriffVote && g.sheriff_original_candidates.contains(s)
                ==> refused_with(g.cast_sheriff_vote(id, None), "候选人不能参与警长投票"@)
            &&& g.stage != Stage::LastWords ==> refused_with(
                g.submit_last_words(id, text),
                "当前不是遗言阶段"@,
            )
        }),
{
    law_seat_of(g, s);
    lemma_indices_where(g.players.len(), g.eligible());
    lemma_indices_where(g.players.len(), g.elects());
    assert((g.eligible())(s as int) == (g.players[s as int].alive || g.day == 1
        && g.last_night_deaths.contains(s)));
    assert((g.elects())(s as int) ==> !g.sheriff_original_candidates.contains(s));
}

} // verus!
