//! Why no table stands still on an AI, and why the public cards give nothing away.

use vstd::prelude::*;
use crate::assoc::{has_key, law_put_get, put_key};
use crate::seqs::{first_where, lemma_first_from, lemma_indices_where};
use crate::werewolf::actions::{quiet, ActionView};
use crate::werewolf::answers::AnswerView;
use crate::werewolf::attempts::{lemma_asked, lemma_round_asks, lemma_wolves_asked, Question};
use crate::werewolf::clicks::ClickView;
use crate::werewolf::error::GameError;
use crate::werewolf::laws::{kept, law_seat_of, law_steady, steady, Move};
use crate::werewolf::plan::lemma_kept_seats;
use crate::werewolf::state::GameView;
use crate::werewolf::types::{Role, Stage};

verus! {

/// Whether an answer is of the kind that is asked for.
pub open spec fn suits(q: Question, a: AnswerView) -> bool {
    match q {
        Question::Guard => a is Guard,
        Question::Wolf { .. } => a is Wolf,
        Question::Seer => a is Seer,
        Question::Witch => a is Witch,
        Question::Run => a is Run,
        Question::SheriffSpeech => a is SheriffSpeech,
        Question::Stay => a is Stay,
        Question::Elect => a is Elect,
        Question::Direction => a is Direction,
        Question::DaySpeech => a is DaySpeech,
        Question::Vote => a is Vote,
        Question::LastWords => a is LastWords,
        Question::Dying => a is Dying,
        Question::Shoot => a is Shoot,
        Question::Badge => a is Badge,
    }
}

/// Whether the table no longer waits for the same answer of the AI in a seat: the stage
/// is over, the AI is no longer asked, or the next in the queue of last words is up.
pub open spec fn moved_on(g: GameView, h: GameView, seat: usize) -> bool {
    ||| h.stage != g.stage
    ||| !h.plan().ais.contains(seat)
    ||| h.last_words_idx == g.last_words_idx + 1
}

/// What an asked AI says is always accepted: speeches, last words without a shot, whether
/// to run or to stay, and the direction of the speeches are never refused.
pub proof fn law_asked_speech_is_accepted(g: GameView, seat: usize, a: AnswerView, start: usize)
    requires
        g.wf(),
        g.plan().ais.contains(seat),
        g.question(seat) is Some,
        suits(g.question(seat)->0, a),
        !a.retried() || (a is Dying && a->Dying_target is None),
    ensures
        g.answered(seat, a, start) is Ok,
{
    lemma_asked(g, seat);
    law_seat_of(g, seat);
    lemma_indices_where(g.players.len(), g.eligible());
    if g.stage == Stage::SheriffNominate {
        lemma_indices_ok_all(g);
        lemma_round_asks(
            g,
            g.eligible_seats(),
            g.sheriff_nominations,
            g.sheriff_nominate_msgs,
            seat,
        );
    }
}

proof fn lemma_indices_ok_all(g: GameView)
    requires
        g.players.len() <= usize::MAX,
    ensures
        crate::werewolf::table::seats_ok(g.eligible_seats(), g.players.len()),
        crate::werewolf::table::seats_ok(g.elector_seats(), g.players.len()),
        crate::werewolf::table::seats_ok(g.voter_seats(), g.players.len()),
        crate::werewolf::table::seats_ok(g.wolf_seats(), g.players.len()),
{
    crate::werewolf::cards::lemma_indices_ok(g.players.len(), g.eligible());
    crate::werewolf::cards::lemma_indices_ok(g.players.len(), g.elects());
    crate::werewolf::cards::lemma_indices_ok(g.players.len(), g.votes());
    crate::werewolf::cards::lemma_indices_ok(g.players.len(), g.living_wolf());
}

proof fn lemma_guard_moves_on(g: GameView, seat: usize)
    requires
        g.stage == Stage::GuardPick,
    ensures
        g.guard_gives_up(seat).stage != g.stage,
{
}

proof fn lemma_wolf_moves_on(g: GameView, seat: usize)
    requires
        g.wf(),
        g.stage == Stage::WolvesPick,
        g.plan().ais.contains(seat),
        g.human_wolves().len() > 0,
    ensures
        !g.wolf_gives_up(seat).plan().ais.contains(seat),
{
    lemma_asked(g, seat);
    lemma_wolves_asked(g, seat);
    law_seat_of(g, seat);
    lemma_indices_where(g.players.len(), g.living_wolf());
    lemma_first_from(0, g.players.len() as int, g.prey());
    lemma_first_from(0, g.players.len() as int, g.living());
    lemma_kept_seats(g.ai_wolves(), |i: usize| !g.wolf_ready.contains(i));
    assert((g.living_wolf())(seat as int));
    assert((g.living())(seat as int));
    assert(g.easy_prey() is Some);
    let t = g.easy_prey()->0;
    law_seat_of(g, t);
    let picked = g.wolf_pick(g.id_at(seat), g.id_at(t));
    assert(!g.wolf_ready.contains(seat));
    assert(picked is Ok);
    let p = picked->Ok_0;
    law_put_get(g.wolf_kill_votes, seat, t, seat);
    assert(has_key(p.wolf_kill_votes, seat));
    assert(p.seat_of(g.id_at(seat)) == Some(seat)) by {
        assert(p.has_id(g.id_at(seat)) =~= g.has_id(g.id_at(seat)));
    }
    let h = g.wolf_gives_up(seat);
    assert(h == (GameView { wolf_ready: g.wolf_ready.push(seat), ..p }));
    assert(h.wolf_ready.contains(seat)) by {
        assert(h.wolf_ready[g.wolf_ready.len() as int] == seat);
    }
    assert(h.living_wolf() =~= g.living_wolf());
    assert(h.human_wolves() =~= g.human_wolves()) by {
        assert((|i: usize| !h.players[i as int].is_ai) =~= (|i: usize|
            !g.players[i as int].is_ai));
    }
    lemma_kept_seats(h.ai_wolves(), |i: usize| !h.wolf_ready.contains(i));
}

proof fn lemma_seer_moves_on(g: GameView, seat: usize)
    requires
        g.wf(),
        g.stage == Stage::SeerPick,
        g.plan().ais.contains(seat),
        g.players[seat as int].alive,
        first_where(g.players.len(), g.living_besides(seat)) is Some,
    ensures
        g.seer_gives_up(seat).stage != g.stage,
{
    lemma_asked(g, seat);
    law_seat_of(g, seat);
    lemma_first_from(0, g.players.len() as int, g.holder(Role::Seer));
    lemma_first_from(0, g.players.len() as int, g.living_besides(seat));
    let t = first_where(g.players.len(), g.living_besides(seat))->0;
    law_seat_of(g, t);
    assert((g.living_besides(seat))(t as int));
    assert((g.holder(Role::Seer))(seat as int));
}

proof fn lemma_ballot_moves_on(g: GameView, seat: usize, a: AnswerView, start: usize)
    requires
        g.wf(),
        g.plan().ais.contains(seat),
        (g.stage == Stage::SheriffVote && a is Elect) || (g.stage == Stage::DayVote && a is Vote),
    ensures
        !g.given_up(seat, a, start).0.plan().ais.contains(seat),
{
    lemma_asked(g, seat);
    law_seat_of(g, seat);
    lemma_indices_ok_all(g);
    let h = g.given_up(seat, a, start).0;
    assert(h.eligible() =~= g.eligible());
    assert(h.elects() =~= g.elects());
    assert(h.votes() =~= g.votes());
    if g.stage == Stage::SheriffVote {
        lemma_round_asks(g, g.elector_seats(), g.sheriff_votes, g.sheriff_vote_msgs, seat);
        law_put_get(g.sheriff_votes, seat, None, seat);
        assert(h.sheriff_votes == put_key(g.sheriff_votes, seat, None));
        if h.plan().ais.contains(seat) {
            lemma_round_asks(h, h.elector_seats(), h.sheriff_votes, h.sheriff_vote_msgs, seat);
        }
    } else {
        lemma_round_asks(g, g.voter_seats(), g.day_votes, g.day_vote_msgs, seat);
        law_put_get(g.day_votes, seat, None, seat);
        assert(h.day_votes == put_key(g.day_votes, seat, None));
        if h.plan().ais.contains(seat) {
            lemma_round_asks(h, h.voter_seats(), h.day_votes, h.day_vote_msgs, seat);
        }
    }
}

proof fn lemma_witch_moves_on(g: GameView, seat: usize, a: AnswerView, start: usize)
    requires
        g.wf(),
        g.stage == Stage::WitchAct,
        g.plan().ais.contains(seat),
        g.players[seat as int].alive,
        a is Witch,
    ensures
        g.given_up(seat, a, start).0.stage != g.stage,
{
    lemma_asked(g, seat);
    law_seat_of(g, seat);
    lemma_first_from(0, g.players.len() as int, g.holder(Role::Witch));
    assert((g.holder(Role::Witch))(seat as int));
    let h = g.witch_act(g.id_at(seat), false, None);
    assert(h is Ok);
}

proof fn lemma_continued_badge(g: GameView, post: Option<Stage>, start: usize)
    requires
        g.pending_badge is None,
    ensures
        g.continued(post, start).pending_badge is None,
{
}

proof fn lemma_badge_moves_on(g: GameView, seat: usize, a: AnswerView, start: usize)
    requires
        g.wf(),
        g.stage == Stage::BadgePass,
        g.plan().ais.contains(seat),
        a is Badge,
    ensures
        moved_on(g, g.given_up(seat, a, start).0, seat),
{
    lemma_asked(g, seat);
    law_seat_of(g, seat);
    let r = g.transfer_badge(g.id_at(seat), None, start);
    assert(r is Ok);
    let h = g.given_up(seat, a, start).0;
    assert(h == r->Ok_0.0);
    lemma_continued_badge(g.badge_passed(seat, None), g.pending_badge_post_stage, start);
    assert(h.pending_badge is None);
}

proof fn lemma_shot_moves_on(g: GameView, seat: usize, a: AnswerView, start: usize)
    requires
        g.wf(),
        g.stage == Stage::HunterShoot,
        g.plan().ais.contains(seat),
        a is Shoot,
    ensures
        moved_on(g, g.given_up(seat, a, start).0, seat),
{
    lemma_asked(g, seat);
    law_seat_of(g, seat);
    let r = g.hunter_shoot(g.id_at(seat), None, start);
    assert(r is Ok);
    let h = g.given_up(seat, a, start).0;
    assert(h == r->Ok_0.0);
    assert(h.stage == Stage::HunterShoot ==> h.pending_hunter is None);
}

proof fn lemma_last_words_move_on(g: GameView, seat: usize, a: AnswerView, start: usize)
    requires
        g.wf(),
        g.stage == Stage::LastWords,
        g.plan().ais.contains(seat),
        g.last_words_queue.len() <= usize::MAX,
        a is Dying,
    ensures
        moved_on(g, g.given_up(seat, a, start).0, seat),
{
    lemma_asked(g, seat);
    law_seat_of(g, seat);
    let r = g.submit_last_words(g.id_at(seat), Seq::empty());
    assert(r is Ok);
    let h = g.given_up(seat, a, start).0;
    assert(h.last_words_idx == g.last_words_idx + 1);
}

/// No table stands still on an AI: once its answers have been refused too often and
/// something is decided for it, the table no longer waits for that answer. AI wolves
/// among themselves need no such rule, since their step closes anyhow; the seer and the
/// witch act only while they live, and the seer only while somebody else does.
pub proof fn law_nobody_is_stuck(g: GameView, seat: usize, a: AnswerView, start: usize)
    requires
        g.wf(),
        g.last_words_queue.len() <= usize::MAX,
        g.plan().ais.contains(seat),
        g.question(seat) is Some,
        suits(g.question(seat)->0, a),
        a.retried(),
        a is Wolf ==> g.human_wolves().len() > 0,
        a is Seer || a is Witch ==> g.players[seat as int].alive,
        a is Seer ==> first_where(g.players.len(), g.living_besides(seat)) is Some,
    ensures
        moved_on(g, g.given_up(seat, a, start).0, seat),
{
    lemma_asked(g, seat);
    law_seat_of(g, seat);
    match a {
        AnswerView::Guard(_) => lemma_guard_moves_on(g, seat),
        AnswerView::Wolf { .. } => lemma_wolf_moves_on(g, seat),
        AnswerView::Seer(_) => lemma_seer_moves_on(g, seat),
        AnswerView::Elect(_) => lemma_ballot_moves_on(g, seat, a, start),
        AnswerView::Vote(_) => lemma_ballot_moves_on(g, seat, a, start),
        AnswerView::Witch(_) => lemma_witch_moves_on(g, seat, a, start),
        AnswerView::Badge(_) => lemma_badge_moves_on(g, seat, a, start),
        AnswerView::Shoot(_) => lemma_shot_moves_on(g, seat, a, start),
        AnswerView::Dying { .. } => lemma_last_words_move_on(g, seat, a, start),
        _ => {},
    }
}

/// The move that an action is.
pub open spec fn move_of(who: Seq<char>, a: ActionView, start: usize) -> Move {
    match a {
        ActionView::GuardPick(target) => Move::GuardPick { who, target },
        ActionView::GuardSkip => Move::GuardSkip { who },
        ActionView::WolfPick(target) => Move::WolfPick { who, target },
        ActionView::WolfSay(message) => Move::WolfSay { who, message },
        ActionView::WolfReady => Move::WolfReady { who },
        ActionView::SeerCheck(target) => Move::SeerCheck { who, target },
        ActionView::Witch { save, poison } => Move::WitchAct { who, save, poison },
        ActionView::Nominate(run) => Move::Nominate { who, run },
        ActionView::SheriffSpeech(text) => Move::SheriffSpeech { who, text },
        ActionView::Stay(stay) => Move::Withdraw { who, stay },
        ActionView::Elect(target) => Move::SheriffVote { who, target },
        ActionView::Direction(clockwise) => Move::Direction { who, clockwise },
        ActionView::DaySpeech(text) => Move::DaySpeech { who, text },
        ActionView::Vote(target) => Move::DayVote { who, target },
        ActionView::LastWords(text) => Move::LastWords { who, text },
        ActionView::Shoot(target) => Move::Shoot { who, target, start },
        ActionView::Badge(target) => Move::PassBadge { who, target, start },
        ActionView::Explode => Move::Explode { who },
    }
}

/// What a player does by a button or an answer is a move of the game.
#[verifier::rlimit(60)]
#[verifier::spinoff_prover]
pub proof fn law_actions_are_moves(g: GameView, who: Seq<char>, a: ActionView, start: usize)
    requires
        g.tried(who, a, start) is Ok,
    ensures
        g.tried(who, a, start)->Ok_0.0 == g.played(move_of(who, a, start)),
{
    match a {
        ActionView::GuardPick(t) => lemma_quiet(g, g.guard_pick(who, t)),
        ActionView::GuardSkip => lemma_quiet(g, g.guard_skip(who)),
        ActionView::WolfPick(t) => lemma_quiet(g, g.wolf_pick(who, t)),
        ActionView::WolfSay(m) => lemma_quiet(g, g.wolf_say(who, m)),
        ActionView::WolfReady => lemma_quiet(g, g.wolf_mark_ready(who)),
        ActionView::SeerCheck(t) => {},
        ActionView::Witch { save, poison } => lemma_quiet(g, g.witch_act(who, save, poison)),
        ActionView::Nominate(b) => lemma_quiet(g, g.nominate_sheriff(who, b)),
        ActionView::SheriffSpeech(t) => lemma_quiet(g, g.submit_sheriff_speech(who, t)),
        ActionView::Stay(b) => lemma_quiet(g, g.decide_sheriff_withdraw(who, b)),
        ActionView::Elect(t) => lemma_quiet(g, g.cast_sheriff_vote(who, t)),
        ActionView::Direction(b) => lemma_quiet(g, g.pick_sheriff_direction(who, b)),
        ActionView::DaySpeech(t) => lemma_quiet(g, g.submit_day_speech(who, t)),
        ActionView::Vote(t) => lemma_quiet(g, g.cast_vote(who, t)),
        ActionView::LastWords(t) => lemma_quiet(g, g.submit_last_words(who, t)),
        ActionView::Shoot(t) => {},
        ActionView::Badge(t) => {},
        ActionView::Explode => {},
    }
}

proof fn lemma_quiet(g: GameView, r: Result<GameView, GameError>)
    ensures
        quiet(r) is Ok ==> quiet(r)->Ok_0.0 == kept(g, r),
{
}

/// Whatever button is pressed during a game, it undoes nothing that the game has settled.
pub proof fn law_clicks_are_steady(g: GameView, c: ClickView, start: usize)
    requires
        g.wf(),
        g.in_play(),
        g.day < u32::MAX,
    ensures
        steady(g, g.clicked(c, start).0),
{
    if g.clicked(c, start).1.saved {
        let a = c.wanted()->0->Ok_0;
        law_actions_are_moves(g, c.open_id, a, start);
        law_steady(g, move_of(c.open_id, a, start));
    } else {
        reveal(steady);
    }
}

/// The public card of a vote shows who has voted and not for whom: two tables that differ
/// in the choices alone show the same card.
pub proof fn law_vote_card_hides_choices(g: GameView, h: GameView)
    requires
        g.stage == Stage::SheriffNominate || g.stage == Stage::SheriffVote || g.stage
            == Stage::DayVote,
        h == (GameView {
            sheriff_nominations: h.sheriff_nominations,
            sheriff_votes: h.sheriff_votes,
            day_votes: h.day_votes,
            ..g
        }),
        forall|i: usize| #[trigger]
            has_key(g.sheriff_nominations, i) == has_key(h.sheriff_nominations, i),
        forall|i: usize| #[trigger] has_key(g.sheriff_votes, i) == has_key(h.sheriff_votes, i),
        forall|i: usize| #[trigger] has_key(g.day_votes, i) == has_key(h.day_votes, i),
    ensures
        g.public_notice() == h.public_notice(),
{
    assert(g.has_nominated() =~= h.has_nominated());
    assert(g.has_elected() =~= h.has_elected());
    assert(g.has_voted() =~= h.has_voted());
    assert(g.eligible() =~= h.eligible());
    assert(g.elects() =~= h.elects());
    assert(g.votes() =~= h.votes());
    assert((|i: usize| g.done_line((i, (g.has_nominated())(i)))) =~= (|i: usize|
        h.done_line((i, (h.has_nominated())(i)))));
    assert((|i: usize| g.done_line((i, (g.has_elected())(i)))) =~= (|i: usize|
        h.done_line((i, (h.has_elected())(i)))));
    assert((|i: usize| g.done_line((i, (g.has_voted())(i)))) =~= (|i: usize|
        h.done_line((i, (h.has_voted())(i)))));
}

/// The public card of the night shows the step and nothing of who acts and on whom: two
/// tables that differ in the secret choices and lives alone show the same card.
pub proof fn law_night_card_hides_moves(g: GameView, h: GameView)
    requires
        g.stage == Stage::GuardPick || g.stage == Stage::WolvesPick || g.stage == Stage::SeerPick
            || g.stage == Stage::WitchAct || g.stage == Stage::DayReveal,
        h.stage == g.stage,
        h.day == g.day,
        h.night_progress_public_msg == g.night_progress_public_msg,
        h.role_seat(Role::Guard) is Some == g.role_seat(Role::Guard) is Some,
    ensures
        g.public_notice() == h.public_notice(),
{
    assert(g.step_line() =~= h.step_line());
    assert(g.step_lines() =~= h.step_lines());
}

} // verus!
