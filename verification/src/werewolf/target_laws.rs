//! Whom the cards of the players let them pick: those whom they may, and nobody else.

use vstd::prelude::*;
use crate::feishu::cards::card_view;
use crate::feishu::reading::{lemma_card, parts_of};
use crate::json::JsonView;
use crate::seqs::{indices_where, lemma_indices_where};
use crate::werewolf::election_laws::{law_running_are_those_who_said_so, says_yes};
use crate::werewolf::laws::law_seat_of;
use crate::werewolf::state::GameView;
use crate::werewolf::types::Stage;

verus! {

/// Whether some parts of a card are the buttons that pick exactly the players wanted.
pub open spec fn picks_exactly(
    g: GameView,
    parts: Seq<JsonView>,
    actor: Seq<char>,
    action: Seq<char>,
    style: Seq<char>,
    wanted: spec_fn(usize) -> bool,
) -> bool {
    exists|seats: Seq<usize>|
        parts == #[trigger] g.target_grid(actor, action, seats, style) && seats.no_duplicates()
            && forall|x: usize| #[trigger] seats.contains(x) <==> x < g.players.len() && wanted(x)
}

proof fn lemma_picks(
    g: GameView,
    head: JsonView,
    parts: Seq<JsonView>,
    from: int,
    after: int,
    actor: Seq<char>,
    action: Seq<char>,
    seats: Seq<usize>,
    style: Seq<char>,
    wanted: spec_fn(usize) -> bool,
)
    requires
        0 <= from,
        0 <= after,
        parts.len() == from + g.target_grid(actor, action, seats, style).len() + after,
        forall|i: int|
            0 <= i < g.target_grid(actor, action, seats, style).len() ==> parts[from + i]
                == #[trigger] g.target_grid(actor, action, seats, style)[i],
        seats.no_duplicates(),
        forall|x: usize| #[trigger] seats.contains(x) <==> x < g.players.len() && wanted(x),
    ensures
        picks_exactly(
            g,
            parts_of(card_view(head, parts)).subrange(
                from,
                parts_of(card_view(head, parts)).len() - after,
            ),
            actor,
            action,
            style,
            wanted,
        ),
{
    lemma_card(head, parts);
    let grid = g.target_grid(actor, action, seats, style);
    assert(parts.subrange(from, parts.len() - after) =~= grid);
}

/// The vote card has buttons for the others who live, and for nobody else.
pub proof fn law_vote_card_targets(g: GameView, s: usize)
    requires
        g.wf(),
        s < g.players.len(),
    ensures
        ({
            let parts = parts_of(g.vote_card(g.players[s as int]));
            let from: int = 1;
            picks_exactly(
                g,
                parts.subrange(from, parts.len() - 2),
                g.players[s as int].open_id,
                "wolf_vote"@,
                "primary"@,
                |x: usize| g.players[x as int].alive && x != s,
            )
        }),
{
    let p = g.players[s as int];
    let c = g.vote_card(p);
    let head = c->Object_0[2].1;
    let parts = c->Object_0[3].1->Object_0[3].1->List_0;
    assert(c == card_view(head, parts));
    let seats = g.others_alive(p.open_id);
    let wanted = |x: usize| g.players[x as int].alive && x != s;
    lemma_indices_where(g.players.len(), g.other_living(p.open_id));
    assert forall|x: usize| #[trigger] seats.contains(x) <==> x < g.players.len() && wanted(x) by {
        if x < g.players.len() {
            law_seat_of(g, x);
            law_seat_of(g, s);
            assert((g.other_living(p.open_id))(x as int) == wanted(x));
        }
    }
    assert(seats.no_duplicates());
    let from: int = 1;
    lemma_picks(g, head, parts, from, 2, p.open_id, "wolf_vote"@, seats, "primary"@, wanted);
}

/// The card of who may shoot has buttons for the others who live, and for nobody else.
pub proof fn law_shooter_card_targets(g: GameView, s: usize)
    requires
        g.wf(),
        s < g.players.len(),
    ensures
        ({
            let parts = parts_of(g.shooter_card(g.players[s as int]));
            let from: int = 1;
            picks_exactly(
                g,
                parts.subrange(from, parts.len() - 2),
                g.players[s as int].open_id,
                "wolf_hunter_shoot"@,
                "danger"@,
                |x: usize| g.players[x as int].alive && x != s,
            )
        }),
{
    let p = g.players[s as int];
    let c = g.shooter_card(p);
    let head = c->Object_0[2].1;
    let parts = c->Object_0[3].1->Object_0[3].1->List_0;
    assert(c == card_view(head, parts));
    let seats = g.others_alive(p.open_id);
    let wanted = |x: usize| g.players[x as int].alive && x != s;
    lemma_indices_where(g.players.len(), g.other_living(p.open_id));
    assert forall|x: usize| #[trigger] seats.contains(x) <==> x < g.players.len() && wanted(x) by {
        if x < g.players.len() {
            law_seat_of(g, x);
            law_seat_of(g, s);
            assert((g.other_living(p.open_id))(x as int) == wanted(x));
        }
    }
    assert(seats.no_duplicates());
    let from: int = 1;
    lemma_picks(g, head, parts, from, 2, p.open_id, "wolf_hunter_shoot"@, seats, "danger"@, wanted);
}

/// The card of a dead sheriff has buttons for the others who live, and for nobody else.
pub proof fn law_badge_card_targets(g: GameView, s: usize)
    requires
        g.wf(),
        s < g.players.len(),
    ensures
        ({
            let parts = parts_of(g.badge_card(g.players[s as int]));
            let from: int = 1;
            picks_exactly(
                g,
                parts.subrange(from, parts.len() - 2),
                g.players[s as int].open_id,
                "wolf_badge_pass"@,
                "primary"@,
                |x: usize| g.players[x as int].alive && x != s,
            )
        }),
{
    let p = g.players[s as int];
    let c = g.badge_card(p);
    let head = c->Object_0[2].1;
    let parts = c->Object_0[3].1->Object_0[3].1->List_0;
    assert(c == card_view(head, parts));
    let seats = g.others_alive(p.open_id);
    let wanted = |x: usize| g.players[x as int].alive && x != s;
    lemma_indices_where(g.players.len(), g.other_living(p.open_id));
    assert forall|x: usize| #[trigger] seats.contains(x) <==> x < g.players.len() && wanted(x) by {
        if x < g.players.len() {
            law_seat_of(g, x);
            law_seat_of(g, s);
            assert((g.other_living(p.open_id))(x as int) == wanted(x));
        }
    }
    assert(seats.no_duplicates());
    let from: int = 1;
    lemma_picks(g, head, parts, from, 2, p.open_id, "wolf_badge_pass"@, seats, "primary"@, wanted);
}

/// The seer's card has buttons for the others who live, and for nobody else.
pub proof fn law_seer_card_targets(g: GameView, s: usize)
    requires
        g.wf(),
        s < g.players.len(),
    ensures
        ({
            let parts = parts_of(g.seer_card(g.players[s as int]));
            let from: int = if g.seer_history.len() == 0 {
                1int
            } else {
                2int
            };
            picks_exactly(
                g,
                parts.subrange(from, parts.len() - 1),
                g.players[s as int].open_id,
                "wolf_seer_check"@,
                "primary"@,
                |x: usize| g.players[x as int].alive && x != s,
            )
        }),
{
    let p = g.players[s as int];
    let c = g.seer_card(p);
    let head = c->Object_0[2].1;
    let parts = c->Object_0[3].1->Object_0[3].1->List_0;
    assert(c == card_view(head, parts));
    let seats = g.others_alive(p.open_id);
    let wanted = |x: usize| g.players[x as int].alive && x != s;
    lemma_indices_where(g.players.len(), g.other_living(p.open_id));
    assert forall|x: usize| #[trigger] seats.contains(x) <==> x < g.players.len() && wanted(x) by {
        if x < g.players.len() {
            law_seat_of(g, x);
            law_seat_of(g, s);
            assert((g.other_living(p.open_id))(x as int) == wanted(x));
        }
    }
    assert(seats.no_duplicates());
    let from: int = if g.seer_history.len() == 0 {
        1int
    } else {
        2int
    };
    lemma_picks(g, head, parts, from, 1, p.open_id, "wolf_seer_check"@, seats, "primary"@, wanted);
}

/// While she has the poison, the witch's card has buttons for the others who live, and for nobody
/// else.
pub proof fn law_witch_card_targets(g: GameView, s: usize)
    requires
        g.wf(),
        s < g.players.len(),
        !g.witch_poison_used,
    ensures
        ({
            let parts = parts_of(g.witch_card(g.players[s as int]));
            let from: int = 4;
            picks_exactly(
                g,
                parts.subrange(from, parts.len() - 1),
                g.players[s as int].open_id,
                "wolf_witch_poison"@,
                "danger"@,
                |x: usize| g.players[x as int].alive && x != s,
            )
        }),
{
    let p = g.players[s as int];
    let c = g.witch_card(p);
    let head = c->Object_0[2].1;
    let parts = c->Object_0[3].1->Object_0[3].1->List_0;
    assert(c == card_view(head, parts));
    let seats = g.others_alive(p.open_id);
    let wanted = |x: usize| g.players[x as int].alive && x != s;
    lemma_indices_where(g.players.len(), g.other_living(p.open_id));
    assert forall|x: usize| #[trigger] seats.contains(x) <==> x < g.players.len() && wanted(x) by {
        if x < g.players.len() {
            law_seat_of(g, x);
            law_seat_of(g, s);
            assert((g.other_living(p.open_id))(x as int) == wanted(x));
        }
    }
    assert(seats.no_duplicates());
    let from: int = 4;
    lemma_picks(g, head, parts, from, 1, p.open_id, "wolf_witch_poison"@, seats, "danger"@, wanted);
}

/// The guard's card has buttons for all who live but the one protected last, and for nobody else.
pub proof fn law_guard_card_targets(g: GameView, s: usize)
    requires
        g.wf(),
        s < g.players.len(),
    ensures
        ({
            let parts = parts_of(g.guard_card(g.players[s as int]));
            let from: int = if g.last_guard_target is None {
                2int
            } else {
                3int
            };
            picks_exactly(
                g,
                parts.subrange(from, parts.len() - 2),
                g.players[s as int].open_id,
                "wolf_guard_pick"@,
                "primary"@,
                |x: usize| g.players[x as int].alive && g.last_guard_target != Some(x),
            )
        }),
{
    let p = g.players[s as int];
    let c = g.guard_card(p);
    let head = c->Object_0[2].1;
    let parts = c->Object_0[3].1->Object_0[3].1->List_0;
    assert(c == card_view(head, parts));
    let seats = indices_where(g.players.len(), g.may_guard());
    let wanted = |x: usize| g.players[x as int].alive && g.last_guard_target != Some(x);
    lemma_indices_where(g.players.len(), g.may_guard());
    assert forall|x: usize| #[trigger] seats.contains(x) <==> x < g.players.len() && wanted(x) by {
        if x < g.players.len() {
            law_seat_of(g, x);
            law_seat_of(g, s);
            assert((g.may_guard())(x as int) == wanted(x));
        }
    }
    assert(seats.no_duplicates());
    let from: int = if g.last_guard_target is None {
        2int
    } else {
        3int
    };
    lemma_picks(g, head, parts, from, 2, p.open_id, "wolf_guard_pick"@, seats, "primary"@, wanted);
}

/// A wolf's card has buttons for all who live, and for nobody else.
pub proof fn law_wolf_card_targets(g: GameView, s: usize, id: Seq<char>)
    requires
        g.wf(),
        s < g.players.len(),
    ensures
        ({
            let parts = parts_of(g.wolf_card(g.players[s as int], id));
            let from: int = if g.wolf_chat.len() == 0 {
                5int
            } else {
                7int
            };
            picks_exactly(
                g,
                parts.subrange(from, parts.len() - 2),
                g.players[s as int].open_id,
                "wolf_kill"@,
                "danger"@,
                |x: usize| g.players[x as int].alive,
            )
        }),
{
    let p = g.players[s as int];
    let c = g.wolf_card(p, id);
    let head = c->Object_0[2].1;
    let parts = c->Object_0[3].1->Object_0[3].1->List_0;
    assert(c == card_view(head, parts));
    let seats = g.alive_seats();
    let wanted = |x: usize| g.players[x as int].alive;
    lemma_indices_where(g.players.len(), g.living());
    assert forall|x: usize| #[trigger] seats.contains(x) <==> x < g.players.len() && wanted(x) by {
        if x < g.players.len() {
            law_seat_of(g, x);
            law_seat_of(g, s);
            assert((g.living())(x as int) == wanted(x));
        }
    }
    assert(seats.no_duplicates());
    let from: int = if g.wolf_chat.len() == 0 {
        5int
    } else {
        7int
    };
    lemma_picks(g, head, parts, from, 2, p.open_id, "wolf_kill"@, seats, "danger"@, wanted);
}

/// The election card has buttons for those who run, and for nobody else.
pub proof fn law_election_card_targets(g: GameView, s: usize)
    requires
        g.wf(),
        g.stage == Stage::SheriffVote,
        g.sheriff_vote_round == 0,
        s < g.players.len(),
    ensures
        ({
            let parts = parts_of(g.election_card(g.players[s as int]));
            picks_exactly(
                g,
                parts.subrange(1, parts.len() - 2),
                g.players[s as int].open_id,
                "wolf_sheriff_vote"@,
                "primary"@,
                |x: usize| says_yes(g.sheriff_nominations, x),
            )
        }),
{
    let p = g.players[s as int];
    let c = g.election_card(p);
    let head = c->Object_0[2].1;
    let parts = c->Object_0[3].1->Object_0[3].1->List_0;
    assert(c == card_view(head, parts));
    let seats = g.candidates();
    let wanted = |x: usize| says_yes(g.sheriff_nominations, x);
    law_running_are_those_who_said_so(g.sheriff_nominations, s);
    assert forall|x: usize| #[trigger] seats.contains(x) <==> x < g.players.len() && wanted(x) by {
        law_running_are_those_who_said_so(g.sheriff_nominations, x);
        if seats.contains(x) {
            crate::werewolf::election::lemma_running(g.sheriff_nominations, g.players.len());
        }
    }
    lemma_picks(
        g,
        head,
        parts,
        1,
        2,
        p.open_id,
        "wolf_sheriff_vote"@,
        seats,
        "primary"@,
        wanted,
    );
}

} // verus!
