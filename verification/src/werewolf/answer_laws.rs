//! What becomes of an AI's answers: done, asked for again, or given up on.

use vstd::prelude::*;
use crate::assoc::{get_key, key_pos, lemma_key_pos};
use crate::feishu::reading::{holds_part, lemma_holds};
use crate::seqs::{first_from, lemma_first_from, lemma_pick_from};
use crate::text::{decimal_text, trimmed};
use crate::werewolf::ai_laws::{lemma_offered, lemma_sees_living};
use crate::werewolf::answers::{requoted, AnswerView};
use crate::werewolf::attempts::{recorded, thought_kind, Question, Verdict};
use crate::werewolf::clicks::{no_table, ClickView};
use crate::werewolf::day_laws::{law_badge, law_day_vote, law_shot};
use crate::werewolf::laws::{kept, law_seat_of};
use crate::werewolf::llm::{choosable, seat_and_name, WitchDecision};
use crate::werewolf::night_laws::{law_guard_protects, law_seer_learns_the_side, law_witch_decides,
    law_wolf_picks, wolf_role};
use crate::werewolf::state::GameView;
use crate::werewolf::types::{Role, Stage, ThinkingKind};
use crate::werewolf::view::Outlook;

verus! {

/// An answer counts only if the AI is asked. A legal one is done; an illegal one changes nothing
/// and is asked for again, until the third, after which something is decided for the AI.
pub proof fn law_attempts(g: GameView, seat: usize, a: AnswerView, earlier: nat, start: usize)
    ensures
        ({
            let r = g.attempted(seat, a, earlier, start);
            let asked = g.plan().ais.contains(seat);
            let legal = g.answered(seat, a, start) is Ok;
            &&& !asked ==> r.verdict == Verdict::Stale && r.table == g && r.announce is None
            &&& asked && legal ==> r.verdict == Verdict::Done && r.reason is None && r.table
                == g.answered(seat, a, start)->Ok_0.0
            &&& asked && !legal && a.retried() && earlier < 2 ==> r.verdict == Verdict::Retry
                && r.table == g && r.announce is None && r.reason == Some(
                g.answered(seat, a, start)->Err_0,
            )
            &&& asked && !legal && earlier >= 2 ==> r.verdict == Verdict::GaveUp
            &&& asked && !legal && !a.retried() ==> r.verdict == Verdict::GaveUp
        }),
{
}

/// What picks a player or a potion is asked for again; what says yes, no or a speech is not.
pub proof fn law_what_is_asked_again(t: usize, o: Option<usize>, d: WitchDecision, b: bool, s: Seq<char>)
    ensures
        AnswerView::Guard(t).retried(),
        AnswerView::Seer(t).retried(),
        (AnswerView::Wolf { target: t, chat: None }).retried(),
        AnswerView::Witch(d).retried(),
        AnswerView::Elect(o).retried(),
        AnswerView::Vote(o).retried(),
        AnswerView::Badge(o).retried(),
        AnswerView::Shoot(o).retried(),
        !AnswerView::Run(b).retried(),
        !AnswerView::Stay(b).retried(),
        !AnswerView::Direction(b).retried(),
        !AnswerView::SheriffSpeech(s).retried(),
        !AnswerView::DaySpeech(s).retried(),
        !AnswerView::LastWords(s).retried(),
{
}

/// An AI that is given up on abstains, holds fire, destroys the badge, or uses no potion.
pub proof fn law_given_up_does_nothing_rash(g: GameView, seat: usize, o: Option<usize>, d: WitchDecision, start: usize)
    requires
        g.wf(),
        seat < g.players.len(),
    ensures
        g.stage == Stage::DayVote && g.players[seat as int].alive && g.day_vote_round == 0
            ==> get_key(g.given_up(seat, AnswerView::Vote(o), start).0.day_votes, seat) == Some(
            None::<usize>,
        ),
        g.stage == Stage::HunterShoot && g.pending_hunter == Some(seat) ==> forall|i: int|
            0 <= i < g.players.len() ==> (#[trigger] g.given_up(
                seat,
                AnswerView::Shoot(o),
                start,
            ).0.players[i]).alive == g.players[i].alive,
        g.stage == Stage::BadgePass && g.pending_badge == Some(seat) ==> g.given_up(
            seat,
            AnswerView::Badge(o),
            start,
        ).0.sheriff_idx is None,
        g.stage == Stage::WitchAct && g.players[seat as int].role == Some(Role::Witch)
            && g.players[seat as int].alive ==> ({
            let h = g.given_up(seat, AnswerView::Witch(d), start).0;
            h.witch_save_used == g.witch_save_used && h.witch_poison_used == g.witch_poison_used
        }),
{
    lemma_abstains(g, seat);
    if g.stage == Stage::HunterShoot && g.pending_hunter == Some(seat) {
        let h = g.given_up(seat, AnswerView::Shoot(o), start).0;
        assert forall|i: int| 0 <= i < g.players.len() implies (#[trigger] h.players[i]).alive
            == g.players[i].alive by {
            law_shot(g, seat, None, start, i as usize);
        }
    }
    if g.stage == Stage::BadgePass {
        law_badge(g, seat, None, start);
    }
    law_witch_decides(g, seat, false, None, seat);
}

proof fn lemma_abstains(g: GameView, seat: usize)
    requires
        g.wf(),
        seat < g.players.len(),
    ensures
        g.stage == Stage::DayVote && g.players[seat as int].alive && g.day_vote_round == 0 ==> ({
            let r = g.cast_vote(g.players[seat as int].open_id, None);
            r is Ok && get_key(r->Ok_0.day_votes, seat) == Some(None::<usize>)
        }),
{
    if g.stage == Stage::DayVote {
        law_day_vote(g, seat, None, seat);
    }
}

/// A guard that is given up on protects somebody whom the guard may, if there is anybody, and a
/// seer that is given up on checks somebody else.
pub proof fn law_given_up_still_acts(g: GameView, seat: usize, t: usize, u: usize, start: usize)
    requires
        g.wf(),
        seat < g.players.len(),
        t < g.players.len(),
        g.players[t as int].alive,
        g.players[seat as int].alive,
    ensures
        g.stage == Stage::GuardPick && g.players[seat as int].role == Some(Role::Guard)
            && g.last_guard_target != Some(t) ==> ({
            let h = g.given_up(seat, AnswerView::Guard(u), start).0;
            &&& h.guard_target is Some
            &&& h.guard_target->0 < g.players.len()
            &&& g.players[h.guard_target->0 as int].alive
            &&& h.guard_target != g.last_guard_target
            &&& h.stage == Stage::WolvesPick
        }),
        g.stage == Stage::SeerPick && g.players[seat as int].role == Some(Role::Seer) && t != seat
            ==> ({
            let h = g.given_up(seat, AnswerView::Seer(u), start).0;
            &&& h.seer_history.len() == g.seer_history.len() + 1
            &&& h.seer_history.last().target_idx < g.players.len()
            &&& h.seer_history.last().target_idx != seat
            &&& h.seer_history.last().is_wolf == wolf_role(
                g.players[h.seer_history.last().target_idx as int].role,
            )
        }),
{
    let n = g.players.len() as int;
    if g.stage == Stage::GuardPick && g.players[seat as int].role == Some(Role::Guard)
        && g.last_guard_target != Some(t) {
        lemma_first_from(0, n, g.guardable());
        assert((g.guardable())(t as int));
        let x = first_from(0, n, g.guardable()) as usize;
        law_guard_protects(g, seat, x);
    }
    if g.stage == Stage::SeerPick && g.players[seat as int].role == Some(Role::Seer) && t != seat {
        lemma_first_from(0, n, g.living_besides(seat));
        assert((g.living_besides(seat))(t as int));
        let x = first_from(0, n, g.living_besides(seat)) as usize;
        law_seer_learns_the_side(g, seat, x);
    }
}

/// An answer without a model is one that the rules allow, if they allow any: the guard protects
/// somebody alive who was not protected last, a wolf attacks somebody alive who is no wolf, the
/// seer checks somebody else alive, and only the seer runs for sheriff.
pub proof fn law_plain_answers(g: GameView, seat: usize, t: usize)
    requires
        g.wf(),
        seat < g.players.len(),
        t < g.players.len(),
        g.players[t as int].alive,
        g.players[seat as int].alive,
    ensures
        g.last_guard_target != Some(t) ==> ({
            let x = g.plain_answer(seat, Question::Guard)->Guard_0;
            x < g.players.len() && g.players[x as int].alive && g.last_guard_target != Some(x)
        }),
        !wolf_role(g.players[t as int].role) ==> ({
            let x = g.plain_answer(seat, Question::Wolf { speak: true })->Wolf_target;
            x < g.players.len() && g.players[x as int].alive && !wolf_role(g.players[x as int].role)
        }),
        t != seat ==> ({
            let x = g.plain_answer(seat, Question::Seer)->Seer_0;
            x < g.players.len() && g.players[x as int].alive && x != seat
        }),
        g.plain_answer(seat, Question::Run) == AnswerView::Run(
            g.players[seat as int].role == Some(Role::Seer),
        ),
        g.plain_answer(seat, Question::Witch) == AnswerView::Witch(WitchDecision::Skip),
{
    let n = g.players.len() as int;
    lemma_first_from(0, n, g.guardable());
    lemma_first_from(0, n, g.prey());
    lemma_first_from(0, n, g.living_besides(seat));
    assert((g.guardable())(t as int) == (g.players[t as int].alive && g.last_guard_target
        != Some(t)));
    assert((g.prey())(t as int) == (g.players[t as int].alive && !g.seat_is_wolf(t)));
    assert((g.living_besides(seat))(t as int) == (g.players[t as int].alive && t != seat));
    let x = first_from(0, n, g.guardable());
    let y = first_from(0, n, g.prey());
    if x < n {
        assert((g.guardable())(x));
    }
    if y < n {
        assert((g.prey())(y));
    }
}

/// What an AI thinks is kept with who thought it and when, unless it thinks nothing.
pub proof fn law_thoughts_are_kept(g: GameView, player: usize, kind: ThinkingKind, thinking: Seq<char>)
    ensures
        ({
            let h = g.with_thought(player, kind, thinking);
            &&& trimmed(thinking).len() == 0 ==> h == g
            &&& trimmed(thinking).len() > 0 ==> {
                &&& h.thinking_log.len() == g.thinking_log.len() + 1
                &&& h.thinking_log.last().player == player
                &&& h.thinking_log.last().day == g.day
                &&& h.thinking_log.last().kind == kind
                &&& h.thinking_log.last().thinking == trimmed(thinking)
            }
        }),
{
}

/// A thought is kept under the decision that it was about.
pub proof fn law_thoughts_have_their_kind()
    ensures
        thought_kind(Question::Guard) == Some(ThinkingKind::GuardPick),
        thought_kind(Question::Wolf { speak: true }) == Some(ThinkingKind::WolfPick),
        thought_kind(Question::Seer) == Some(ThinkingKind::SeerCheck),
        thought_kind(Question::Witch) == Some(ThinkingKind::WitchAct),
        thought_kind(Question::Run) == Some(ThinkingKind::SheriffRun),
        thought_kind(Question::Elect) == Some(ThinkingKind::SheriffVote),
        thought_kind(Question::Vote) == Some(ThinkingKind::DayVote),
        thought_kind(Question::Shoot) == Some(ThinkingKind::HunterShoot),
        thought_kind(Question::Badge) == Some(ThinkingKind::BadgePass),
{
}

/// A refused answer is shown to the model again with the seat that it named, or with -1 if it
/// named nobody.
pub proof fn law_refused_answers_are_shown(t: usize)
    requires
        t <= i64::MAX,
    ensures
        holds_part(AnswerView::Guard(t).repr(), decimal_text(t as nat)),
        holds_part(AnswerView::Seer(t).repr(), decimal_text(t as nat)),
        holds_part((AnswerView::Wolf { target: t, chat: None }).repr(), decimal_text(t as nat)),
        holds_part(AnswerView::Vote(Some(t)).repr(), decimal_text(t as nat)),
        holds_part(AnswerView::Elect(Some(t)).repr(), decimal_text(t as nat)),
        holds_part(AnswerView::Badge(Some(t)).repr(), decimal_text(t as nat)),
        holds_part(AnswerView::Shoot(Some(t)).repr(), decimal_text(t as nat)),
        holds_part(AnswerView::Vote(None).repr(), "-1"@),
        holds_part(
            AnswerView::Witch(WitchDecision::Poison(t)).repr(),
            "{\"action\": \"poison\", \"poison_target_idx\": "@,
        ),
{
    let d = decimal_text(t as nat);
    lemma_holds("{\"target_idx\": "@, d, "}"@);
    lemma_holds("{\"target_idx\": "@, "-1"@, "}"@);
    let p = "{\"action\": \"poison\", \"poison_target_idx\": "@;
    lemma_holds(Seq::empty(), p, d + "}"@);
    assert(Seq::<char>::empty() + p + (d + "}"@) =~= p + d + "}"@);
}

/// In a refused answer every double quote of a speech stands as a single one, and nothing else is
/// changed.
pub proof fn law_quotes_are_softened(s: Seq<char>, i: int)
    requires
        0 <= i < s.len(),
    ensures
        requoted(s).len() == s.len(),
        s[i] == '"' ==> requoted(s)[i] == '\'',
        s[i] != '"' ==> requoted(s)[i] == s[i],
{
}

/// What an AI thought about a question is kept as its own, unless the answer to it was a shot that
/// cannot be fired.
pub proof fn law_thought_is_noted(g: GameView, player: usize, q: Question, a: AnswerView, t: Seq<char>)
    requires
        thought_kind(q) is Some,
        trimmed(t).len() > 0,
        !(a is Dying),
    ensures
        ({
            let h = g.thought_noted(player, q, a, Some(t));
            &&& h.thinking_log.len() == g.thinking_log.len() + 1
            &&& h.thinking_log.last().player == player
            &&& Some(h.thinking_log.last().kind) == thought_kind(q)
            &&& h.thinking_log.last().thinking == trimmed(t)
            &&& g.thought_noted(player, q, a, None) == g
        }),
{
}

/// A refused answer is remembered with why it was refused, behind the earlier ones.
pub proof fn law_refusals_are_remembered(
    history: Seq<(Seq<char>, Seq<char>)>,
    a: AnswerView,
    reason: Seq<char>,
)
    ensures
        recorded(history, a, Some(reason)) == history.push((a.repr(), reason)),
        recorded(history, a, None) == history,
{
}

/// A shot that was decided with the last words is fired without asking again, if it still can be.
pub proof fn law_decided_shot_is_fired(g: GameView, seat: usize, t: usize, start: usize)
    requires
        g.wf(),
        g.stage == Stage::HunterShoot,
        seat < g.players.len(),
        t < g.players.len(),
        g.pending_hunter == Some(seat),
        g.players[seat as int].is_ai,
        g.pending_hunter_ai_decision == Some(Some(t)),
        g.players[t as int].alive,
        t != seat,
    ensures
        ({
            let r = g.foregone_attempted(seat, start);
            &&& r is Some
            &&& r->0.verdict == Verdict::Done
            &&& !r->0.table.players[t as int].alive
        }),
{
    law_shot(g, seat, Some(t), start, t);
    assert(g.plan().ais == seq![seat]);
    assert(g.plan().ais[0] == seat);
}

/// A button whose table is gone does nothing: its presser is told so, or that it is somebody
/// else's.
pub proof fn law_lost_tables(c: ClickView)
    ensures
        !no_table(c).saved && no_table(c).announce is None && no_table(c).private is None,
        c.actor.len() > 0 && c.actor != c.open_id ==> no_table(c).toast == Some("这张卡片不是给你的"@),
        (c.actor.len() == 0 || c.actor == c.open_id) && c.wanted() is Some && c.wanted()->0 is Ok
            ==> no_table(c).toast == Some("游戏不存在"@),
        (c.actor.len() == 0 || c.actor == c.open_id) && c.wanted() is None ==> no_table(c).toast
            is None,
{
}

/// A button of an earlier game, or of somebody else's card, changes nothing, and its presser is
/// told which it is.
pub proof fn law_foreign_buttons(g: GameView, c: ClickView, start: usize)
    ensures
        c.game != 0 && c.game as u32 != g.game_count ==> g.clicked(c, start).0 == g && g.clicked(
            c,
            start,
        ).1.toast == Some("这是上一局的按钮"@),
        (c.game == 0 || c.game as u32 == g.game_count) && c.actor.len() > 0 && c.actor != c.open_id
            ==> g.clicked(c, start).0 == g && g.clicked(c, start).1.toast == Some(
            "这张卡片不是给你的"@,
        ),
{
}

/// A wolf that is given up on attacks somebody alive who is no wolf, if there is anybody, and
/// confirms it.
pub proof fn law_given_up_wolf(g: GameView, seat: usize, t: usize, a: AnswerView, start: usize)
    requires
        g.wf(),
        g.stage == Stage::WolvesPick,
        seat < g.players.len(),
        t < g.players.len(),
        wolf_role(g.players[seat as int].role),
        g.players[seat as int].alive,
        !g.wolf_ready.contains(seat),
        g.players[t as int].alive,
        !wolf_role(g.players[t as int].role),
        g.human_wolves().len() > 0,
        a is Wolf,
    ensures
        ({
            let h = g.given_up(seat, a, start).0;
            let x = get_key(h.wolf_kill_votes, seat);
            &&& x is Some
            &&& x->0 < g.players.len()
            &&& g.players[x->0 as int].alive
            &&& !wolf_role(g.players[x->0 as int].role)
        }),
{
    let n = g.players.len() as int;
    lemma_first_from(0, n, g.prey());
    assert((g.prey())(t as int) == (g.players[t as int].alive && !g.seat_is_wolf(t)));
    let y = first_from(0, n, g.prey());
    assert(y <= t);
    assert((g.prey())(y));
    law_wolf_picks(g, seat, y as usize, seat);
    law_seat_of(g, seat);
    let h = g.wolf_pick(g.id_at(seat), g.id_at(y as usize))->Ok_0;
    assert(g.easy_prey() == Some(y as usize));
    assert(kept(h, h.wolf_mark_ready(g.id_at(seat))).wolf_kill_votes == h.wolf_kill_votes);
}

/// Without a usable reply the seer checks somebody whom the seer has not checked, if there is
/// anybody.
pub proof fn law_silent_seer_checks_anew(g: GameView, seat: usize, t: usize)
    requires
        g.wf(),
        seat < g.players.len(),
        t < g.players.len(),
        t != seat,
        g.players[t as int].alive,
        !g.in_election(),
        g.players[seat as int].role == Some(Role::Seer),
        forall|j: int|
            0 <= j < g.seer_history.len() ==> g.players[(#[trigger] g.seer_history[j]).target_idx as int].name
                != g.players[t as int].name,
    ensures
        ({
            let x = g.understood(seat, Question::Seer, None).0->Seer_0;
            x < g.players.len() && forall|j: int|
                0 <= j < g.seer_history.len() ==> g.players[(
                #[trigger] g.seer_history[j]).target_idx as int].name != g.players[x as int].name
        }),
{
    let o = g.outlook(seat);
    let cs = o.other_choices();
    let n = cs.len() as int;
    lemma_sees_living(g, seat, t);
    lemma_offered(o, Some(o.me_idx), None, None, t);
    lemma_key_pos(cs, t);
    let k = key_pos(cs, t);
    lemma_first_from(0, n, o.unchecked(cs));
    let i = first_from(0, n, o.unchecked(cs));
    lemma_named_choice(o, k);
    assert(forall|j: int| 0 <= j < o.seer_log.len() ==> (#[trigger] o.seer_log[j]).1
        == g.players[g.seer_history[j].target_idx as int].name);
    assert((o.unchecked(cs))(k));
    assert(i <= k);
    assert((o.unchecked(cs))(i));
    lemma_named_choice(o, i);
    let x = cs[i].0;
    assert(cs[i].1 == g.players[x as int].name);
    assert forall|j: int| 0 <= j < g.seer_history.len() implies g.players[(
    #[trigger] g.seer_history[j]).target_idx as int].name != g.players[x as int].name by {
        assert(o.seer_log[j].1 != cs[i].1);
    }
}

/// A choice is a seat with the name of who sits there.
proof fn lemma_named_choice(o: Outlook, k: int)
    requires
        o.wf(),
        0 <= k < o.other_choices().len(),
    ensures
        o.other_choices()[k].0 < o.players.len(),
        o.other_choices()[k].1 == o.players[o.other_choices()[k].0 as int].1,
{
    let i = lemma_pick_from(
        o.players,
        choosable(Some(o.me_idx), None, None),
        seat_and_name(),
        k,
    );
    assert(o.players[i].0 == i);
}

} // verus!
