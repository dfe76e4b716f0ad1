//! What everybody is shown tells nobody's role before the game is over.

use vstd::prelude::*;
use crate::seqs::{indices_where, lemma_indices_where};
use crate::werewolf::answers::AnswerView;
use crate::werewolf::day_cards::lemma_candidates_ok;
use crate::werewolf::state::GameView;
use crate::werewolf::table::{seat_ok, seats_ok, speakers_ok, votes_ok};
use crate::werewolf::tally::{leaders, lemma_leaders};
use crate::werewolf::types::{PlayerView, Role, Stage};
use crate::werewolf::vote_cards::{badge_announced, explosion_announced, shot_announced};

verus! {

/// Whether two tables have the same players, but for their roles.
pub open spec fn same_faces(g: GameView, h: GameView) -> bool {
    &&& h.players.len() == g.players.len()
    &&& forall|i: int|
        0 <= i < g.players.len() ==> #[trigger] h.players[i] == (PlayerView {
            role: h.players[i].role,
            ..g.players[i]
        })
}

/// Whether two tables differ in the roles at most, on the same board.
pub open spec fn alike_but_roles(g: GameView, h: GameView) -> bool {
    &&& h == (GameView { players: h.players, ..g })
    &&& same_faces(g, h)
    &&& (h.role_seat(Role::Guard) is Some) == (g.role_seat(Role::Guard) is Some)
}

proof fn lemma_same_indices(n: nat, a: spec_fn(int) -> bool, b: spec_fn(int) -> bool)
    requires
        forall|i: int| 0 <= i < n ==> #[trigger] a(i) == b(i),
    ensures
        indices_where(n, a) == indices_where(n, b),
    decreases n,
{
    if n > 0 {
        lemma_same_indices((n - 1) as nat, a, b);
        assert(a(n - 1) == b(n - 1));
    }
}

proof fn lemma_same_voters(g: GameView, h: GameView)
    requires
        alike_but_roles(g, h),
    ensures
        g.alive_seats() == h.alive_seats(),
        g.eligible_seats() == h.eligible_seats(),
        g.elector_seats() == h.elector_seats(),
        g.voter_seats() == h.voter_seats(),
{
    let n = g.players.len();
    assert forall|i: int| 0 <= i < n implies #[trigger] (g.living())(i) == (h.living())(i) by {
        assert(h.players[i].alive == g.players[i].alive);
    }
    lemma_same_indices(n, g.living(), h.living());
    assert forall|i: int| 0 <= i < n implies #[trigger] (g.eligible())(i) == (h.eligible())(i) by {
        assert(h.players[i].alive == g.players[i].alive);
    }
    lemma_same_indices(n, g.eligible(), h.eligible());
    assert forall|i: int| 0 <= i < n implies #[trigger] (g.elects())(i) == (h.elects())(i) by {
        assert((g.eligible())(i) == (h.eligible())(i));
    }
    lemma_same_indices(n, g.elects(), h.elects());
    assert forall|i: int| 0 <= i < n implies #[trigger] (g.votes())(i) == (h.votes())(i) by {
        assert(h.players[i].alive == g.players[i].alive);
    }
    lemma_same_indices(n, g.votes(), h.votes());
}

proof fn lemma_same_done_card(
    g: GameView,
    h: GameView,
    title: Seq<char>,
    template: Seq<char>,
    keep: spec_fn(int) -> bool,
    done: spec_fn(usize) -> bool,
)
    requires
        alike_but_roles(g, h),
        g.players.len() <= usize::MAX,
    ensures
        g.done_card(title, template, indices_where(g.players.len(), keep), done) == h.done_card(
            title,
            template,
            indices_where(g.players.len(), keep),
            done,
        ),
{
    let seats = indices_where(g.players.len(), keep);
    lemma_indices_where(g.players.len(), keep);
    let a = |i: usize| g.done_line((i, done(i)));
    let b = |i: usize| h.done_line((i, done(i)));
    assert(seats.map_values(a) =~= seats.map_values(b)) by {
        assert forall|k: int| 0 <= k < seats.len() implies a(#[trigger] seats[k]) == b(
            seats[k],
        ) by {
            assert(seats.contains(seats[k]));
            assert(h.players[seats[k] as int].name == g.players[seats[k] as int].name);
        }
    }
}

proof fn lemma_same_speech_parts(
    g: GameView,
    h: GameView,
    order: Seq<usize>,
    speeches: Seq<(usize, Seq<char>)>,
    cur: int,
    mark: Seq<char>,
    label: Seq<char>,
)
    requires
        alike_but_roles(g, h),
        seats_ok(order, g.players.len()),
        speakers_ok(speeches, g.players.len()),
        0 <= cur,
    ensures
        Seq::new(order.len(), g.order_entry(order, cur)) == Seq::new(
            order.len(),
            h.order_entry(order, cur),
        ),
        Seq::new(order.len(), g.queue_entry(order, cur)) == Seq::new(
            order.len(),
            h.queue_entry(order, cur),
        ),
        g.said_part(mark, speeches) == h.said_part(mark, speeches),
        g.turn_part(label, order, cur) == h.turn_part(label, order, cur),
{
    assert forall|i: int| 0 <= i < order.len() implies (#[trigger] order[i]) < g.players.len()
        && h.players[order[i] as int] == (PlayerView {
        role: h.players[order[i] as int].role,
        ..g.players[order[i] as int]
    }) by {}
    let a = Seq::new(order.len(), g.order_entry(order, cur));
    let b = Seq::new(order.len(), h.order_entry(order, cur));
    assert forall|i: int| 0 <= i < order.len() implies #[trigger] a[i] == b[i] by {
        assert(order[i] < g.players.len());
    }
    assert(a =~= b);
    let c = Seq::new(order.len(), g.queue_entry(order, cur));
    let d = Seq::new(order.len(), h.queue_entry(order, cur));
    assert forall|i: int| 0 <= i < order.len() implies #[trigger] c[i] == d[i] by {
        assert(order[i] < g.players.len());
    }
    assert(c =~= d);
    assert(speeches.map_values(g.said_line(mark)) =~= speeches.map_values(h.said_line(mark))) by {
        assert forall|k: int| 0 <= k < speeches.len() implies (g.said_line(mark))(
            #[trigger] speeches[k],
        ) == (h.said_line(mark))(speeches[k]) by {
            assert(h.players[speeches[k].0 as int].name == g.players[speeches[k].0 as int].name);
        }
    }
    if cur < order.len() {
        assert(order[cur] < g.players.len());
    }
}

/// Roles are dark: the card that everybody sees at a stage is the same whoever holds which
/// role.
pub proof fn law_public_cards_hide_roles(g: GameView, h: GameView)
    requires
        g.wf(),
        g.in_play(),
        alike_but_roles(g, h),
    ensures
        g.public_notice() == h.public_notice(),
{
    lemma_same_voters(g, h);
    assert(g.step_line() =~= h.step_line());
    assert(g.step_lines() =~= h.step_lines());
    assert(g.has_nominated() =~= h.has_nominated());
    assert(g.has_elected() =~= h.has_elected());
    assert(g.has_voted() =~= h.has_voted());
    match g.stage {
        Stage::SheriffNominate => lemma_same_done_card(
            g,
            h,
            "🎖️ 上警进度"@,
            "yellow"@,
            g.eligible(),
            g.has_nominated(),
        ),
        Stage::SheriffVote => lemma_same_done_card(
            g,
            h,
            "🎖️ 警长投票进度"@,
            "yellow"@,
            g.elects(),
            g.has_elected(),
        ),
        Stage::DayVote => lemma_same_done_card(
            g,
            h,
            "🗳️ 投票进度"@,
            "blue"@,
            g.votes(),
            g.has_voted(),
        ),
        Stage::SheriffSpeech => lemma_same_speech_parts(
            g,
            h,
            g.sheriff_speech_order,
            g.sheriff_speeches,
            g.sheriff_speech_idx as int,
            "✅ **"@,
            "🎤 **当前发言**："@,
        ),
        Stage::DaySpeech => lemma_same_speech_parts(
            g,
            h,
            g.day_speech_order,
            g.day_speeches,
            g.day_speech_idx as int,
            "✅ **"@,
            "🎤 **当前发言**："@,
        ),
        Stage::LastWords => lemma_same_speech_parts(
            g,
            h,
            g.last_words_queue,
            g.last_words_speeches,
            g.last_words_idx as int,
            "🪦 **"@,
            "🎤 **正在发表遗言**："@,
        ),
        _ => {},
    }
}

proof fn lemma_same_tally(g: GameView, h: GameView)
    requires
        same_faces(g, h),
        h.day == g.day,
        h.day_votes == g.day_votes,
        h.last_day_lynched == g.last_day_lynched,
        seat_ok(g.last_day_lynched, g.players.len()),
        votes_ok(g.day_votes, g.players.len()),
    ensures
        g.tally_card() == h.tally_card(),
{
    assert(g.day_votes.map_values(g.tally_line()) =~= g.day_votes.map_values(h.tally_line())) by {
        assert forall|k: int| 0 <= k < g.day_votes.len() implies (g.tally_line())(
            #[trigger] g.day_votes[k],
        ) == (h.tally_line())(g.day_votes[k]) by {
            let v = g.day_votes[k];
            assert(h.players[v.0 as int].shown() == g.players[v.0 as int].shown());
            if v.1 is Some {
                assert(h.players[v.1->0 as int].shown() == g.players[v.1->0 as int].shown());
            }
        }
    }
}

/// What is announced when a step closes, the dead of the night and the outcome of a vote
/// among it, is the same whoever holds which role.
pub proof fn law_outcomes_hide_roles(g: GameView, h: GameView)
    requires
        g.wf(),
        g.in_play(),
        alike_but_roles(g, h),
    ensures
        g.closing_card() == h.closing_card(),
{
    lemma_same_voters(g, h);
    lemma_candidates_ok(g);
    match g.stage {
        Stage::DayReveal => {
            assert(g.last_night_deaths.map_values(g.seat_shown())
                =~= g.last_night_deaths.map_values(h.seat_shown())) by {
                assert forall|k: int| 0 <= k < g.last_night_deaths.len() implies (g.seat_shown())(
                    #[trigger] g.last_night_deaths[k],
                ) == (h.seat_shown())(g.last_night_deaths[k]) by {
                    let i = g.last_night_deaths[k] as int;
                    assert(h.players[i].shown() == g.players[i].shown());
                }
            }
        },
        Stage::SheriffNominate => {
            let c = g.candidates();
            assert(c.map_values(g.candidate_line()) =~= c.map_values(h.candidate_line())) by {
                assert forall|k: int| 0 <= k < c.len() implies (g.candidate_line())(
                    #[trigger] c[k],
                ) == (h.candidate_line())(c[k]) by {
                    assert(h.players[c[k] as int].shown() == g.players[c[k] as int].shown());
                }
            }
        },
        Stage::DayVote => {
            let top = leaders(g.day_votes, g.day_weights());
            lemma_leaders(g.day_votes, g.day_weights(), g.players.len());
            let a = g.resolve_lynch()->Ok_0.0;
            let b = h.resolve_lynch()->Ok_0.0;
            if top.len() == 1 {
                assert(h.players[top[0] as int].name == g.players[top[0] as int].name);
            }
            assert(a.players.len() == g.players.len());
            assert forall|i: int| 0 <= i < a.players.len() implies #[trigger] b.players[i] == (
            PlayerView { role: b.players[i].role, ..a.players[i] }) by {
                assert(h.players[i] == (PlayerView { role: h.players[i].role, ..g.players[i] }));
            }
            lemma_same_tally(a, b);
        },
        _ => {},
    }
}

/// What is announced of a shot, a badge or an explosion tells nobody's role beyond what
/// was done.
pub proof fn law_announcements_hide_roles(
    a: PlayerView,
    b: PlayerView,
    ra: Option<Role>,
    rb: Option<Role>,
)
    ensures
        shot_announced(a, Some(b)) == shot_announced(
            PlayerView { role: ra, ..a },
            Some(PlayerView { role: rb, ..b }),
        ),
        shot_announced(a, None) == shot_announced(PlayerView { role: ra, ..a }, None),
        badge_announced(a, Some(b)) == badge_announced(
            PlayerView { role: ra, ..a },
            Some(PlayerView { role: rb, ..b }),
        ),
        badge_announced(a, None) == badge_announced(PlayerView { role: ra, ..a }, None),
        explosion_announced(a) == explosion_announced(PlayerView { role: ra, ..a }),
{
}

/// What a dying AI decides along with its last words is what it does: the shot it named
/// then is the shot it takes when its turn comes.
pub proof fn law_dying_shot_is_kept(
    g: GameView,
    seat: usize,
    speech: Seq<char>,
    target: Option<usize>,
    start: usize,
)
    requires
        g.pending_hunter == Some(seat),
        g.answered(seat, AnswerView::Dying { speech, target }, start) is Ok,
    ensures
        ({
            let h = g.answered(seat, AnswerView::Dying { speech, target }, start)->Ok_0.0;
            &&& h.pending_hunter_ai_decision == Some(target)
            &&& h.pending_hunter == Some(seat)
            &&& h.stage == Stage::LastWords
            &&& h.last_words_idx >= h.last_words_queue.len() ==> h.finish_last_words(
                start,
            )->Ok_0.foregone(seat) == Some(AnswerView::Shoot(target))
        }),
{
}

} // verus!
