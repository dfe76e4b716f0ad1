//! Who speaks during the day, and in which order.

use vstd::prelude::*;
use crate::seqs::lemma_indices_where;
use crate::werewolf::laws::law_seat_of;
use crate::werewolf::state::GameView;
use crate::werewolf::table::MAX_SEATS;
use crate::werewolf::types::Stage;

verus! {

/// How many seats upward, going round, `x` is from `from`.
pub open spec fn distance(from: int, x: int, n: int) -> int {
    if x >= from {
        x - from
    } else {
        x - from + n
    }
}

/// A remainder of a number below twice the divisor.
proof fn lemma_wrap(a: int, n: int)
    by (nonlinear_arith)
    requires
        0 <= a < 2 * n,
        n > 0,
    ensures
        a % n == (if a < n {
            a
        } else {
            a - n
        }),
{
}

proof fn lemma_upward_is(g: GameView, start: int, k: nat)
    requires
        0 <= start < g.players.len() <= MAX_SEATS,
        k <= g.players.len(),
    ensures
        forall|x: usize| #[trigger]
            g.upward_from(start, k).contains(x) <==> x < g.players.len()
                && g.players[x as int].alive && distance(start, x as int, g.players.len() as int)
                < k,
        g.upward_from(start, k).no_duplicates(),
        k > 0 && g.players[start].alive ==> g.upward_from(start, k).len() > 0 && g.upward_from(
            start,
            k,
        )[0] == start,
    decreases k,
{
    if k > 0 {
        let n = g.players.len() as int;
        let less = g.upward_from(start, (k - 1) as nat);
        let more = g.upward_from(start, k);
        lemma_upward_is(g, start, (k - 1) as nat);
        lemma_wrap(start + k - 1, n);
        let seat = (start + k - 1) % n;
        assert(distance(start, seat, n) == k - 1);
        assert forall|x: usize| #[trigger] more.contains(x) <==> x < n && g.players[x as int].alive
            && distance(start, x as int, n) < k by {
            if more.contains(x) {
                let i = choose|i: int| 0 <= i < more.len() && more[i] == x;
                if i < less.len() {
                    assert(less[i] == x);
                    assert(less.contains(x));
                }
            }
            if x < n && g.players[x as int].alive && distance(start, x as int, n) < k {
                if x == seat {
                    assert(more[more.len() - 1] == x);
                } else {
                    assert(less.contains(x));
                    let i = choose|i: int| 0 <= i < less.len() && less[i] == x;
                    assert(more[i] == x);
                }
            }
        }
        assert(!less.contains(seat as usize));
        assert(more.no_duplicates());
    }
}

/// Without a living sheriff everybody alive speaks exactly once, the first drawn first.
pub proof fn law_everybody_speaks_once(g: GameView, start: usize)
    requires
        g.players.len() <= MAX_SEATS,
        g.may_start(start),
        !g.living_sheriff(),
    ensures
        g.day_begun(start).stage == Stage::DaySpeech,
        g.day_begun(start).day_speech_order.no_duplicates(),
        forall|x: usize| #[trigger]
            g.day_begun(start).day_speech_order.contains(x) <==> x < g.players.len()
                && g.players[x as int].alive,
        g.alive_seats().len() > 0 ==> g.day_begun(start).day_speech_order[0] == start,
{
    lemma_indices_where(g.players.len(), g.living());
    let n = g.players.len();
    let order = g.day_begun(start).day_speech_order;
    assert(order == g.upward_from(start as int, n));
    if g.alive_seats().len() > 0 {
        assert((g.living())(start as int));
        lemma_upward_is(g, start as int, n);
    } else if n > 0 {
        lemma_upward_is(g, 0, n);
    }
}

proof fn lemma_beside_is(g: GameView, from: int, clockwise: bool, k: nat)
    requires
        0 <= from < g.players.len() <= MAX_SEATS,
        k < g.players.len(),
    ensures
        forall|x: usize| #[trigger]
            g.beside(from, clockwise, k).contains(x) <==> x < g.players.len()
                && g.players[x as int].alive && (if clockwise {
                1 <= distance(from, x as int, g.players.len() as int) <= k
            } else {
                1 <= distance(x as int, from, g.players.len() as int) <= k
            }),
        g.beside(from, clockwise, k).no_duplicates(),
    decreases k,
{
    if k > 0 {
        let n = g.players.len() as int;
        let less = g.beside(from, clockwise, (k - 1) as nat);
        let more = g.beside(from, clockwise, k);
        lemma_beside_is(g, from, clockwise, (k - 1) as nat);
        lemma_wrap(from + k, n);
        lemma_wrap(from + n - k, n);
        let seat = if clockwise {
            (from + k) % n
        } else {
            (from + n - k) % n
        };
        assert forall|x: usize| #[trigger] more.contains(x) <==> x < n && g.players[x as int].alive
            && (if clockwise {
            1 <= distance(from, x as int, n) <= k
        } else {
            1 <= distance(x as int, from, n) <= k
        }) by {
            if more.contains(x) {
                let i = choose|i: int| 0 <= i < more.len() && more[i] == x;
                if i < less.len() {
                    assert(less[i] == x);
                    assert(less.contains(x));
                }
            }
            if x < n && g.players[x as int].alive && (if clockwise {
                1 <= distance(from, x as int, n) <= k
            } else {
                1 <= distance(x as int, from, n) <= k
            }) {
                if x == seat {
                    assert(more[more.len() - 1] == x);
                } else {
                    assert(less.contains(x));
                    let i = choose|i: int| 0 <= i < less.len() && less[i] == x;
                    assert(more[i] == x);
                }
            }
        }
        assert(!less.contains(seat as usize));
        assert(more.no_duplicates());
    }
}

/// Whichever direction the sheriff picks, everybody alive speaks exactly once and the
/// sheriff speaks last.
pub proof fn law_sheriff_speaks_last(g: GameView, who: Seq<char>, clockwise: bool)
    requires
        g.wf(),
        g.in_play(),
        g.living_sheriff(),
        g.pick_sheriff_direction(who, clockwise) is Ok,
    ensures
        ({
            let order = g.pick_sheriff_direction(who, clockwise)->Ok_0.day_speech_order;
            &&& order.len() > 0
            &&& Some(order[order.len() - 1]) == g.sheriff_idx
            &&& order.no_duplicates()
            &&& forall|x: usize| #[trigger]
                order.contains(x) <==> x < g.players.len() && g.players[x as int].alive
        }),
{
    let n = g.players.len() as int;
    let s = g.sheriff_idx->0;
    let rest = g.beside(s as int, clockwise, (n - 1) as nat);
    let order = g.pick_sheriff_direction(who, clockwise)->Ok_0.day_speech_order;
    assert(order == rest.push(s));
    lemma_beside_is(g, s as int, clockwise, (n - 1) as nat);
    assert(!rest.contains(s));
    assert forall|x: usize| #[trigger] order.contains(x) <==> x < n && g.players[x as int].alive by {
        if order.contains(x) {
            let i = choose|i: int| 0 <= i < order.len() && order[i] == x;
            if i < rest.len() {
                assert(rest[i] == x);
                assert(rest.contains(x));
            }
        }
        if x < n && g.players[x as int].alive {
            if x == s {
                assert(order[order.len() - 1] == x);
            } else {
                assert(rest.contains(x));
                let i = choose|i: int| 0 <= i < rest.len() && rest[i] == x;
                assert(order[i] == x);
            }
        }
    }
}

proof fn lemma_upward_in_order(g: GameView, start: int, k: nat)
    requires
        0 <= start < g.players.len() <= MAX_SEATS,
        k <= g.players.len(),
    ensures
        forall|i: int, j: int|
            0 <= i < j < g.upward_from(start, k).len() ==> distance(
                start,
                #[trigger] g.upward_from(start, k)[i] as int,
                g.players.len() as int,
            ) < distance(
                start,
                #[trigger] g.upward_from(start, k)[j] as int,
                g.players.len() as int,
            ),
    decreases k,
{
    if k > 0 {
        let n = g.players.len() as int;
        let less = g.upward_from(start, (k - 1) as nat);
        let more = g.upward_from(start, k);
        lemma_upward_in_order(g, start, (k - 1) as nat);
        lemma_upward_is(g, start, (k - 1) as nat);
        lemma_wrap(start + k - 1, n);
        assert forall|i: int, j: int| 0 <= i < j < more.len() implies distance(
            start,
            #[trigger] more[i] as int,
            n,
        ) < distance(start, #[trigger] more[j] as int, n) by {
            assert(more[i] == less[i]);
            assert(less.contains(less[i]));
            if j < less.len() {
                assert(more[j] == less[j]);
            }
        }
    }
}

/// Without a living sheriff the speeches go round upward from the first: who sits nearer to the
/// first, counted upward, speaks earlier.
pub proof fn law_speeches_go_round(g: GameView, start: usize, i: int, j: int)
    requires
        g.players.len() <= MAX_SEATS,
        start < g.players.len(),
        !g.living_sheriff(),
        0 <= i < j < g.day_begun(start).day_speech_order.len(),
    ensures
        ({
            let order = g.day_begun(start).day_speech_order;
            let n = g.players.len() as int;
            distance(start as int, order[i] as int, n) < distance(start as int, order[j] as int, n)
        }),
{
    let order = g.day_begun(start).day_speech_order;
    lemma_upward_in_order(g, start as int, g.players.len());
    assert(order == g.upward_from(start as int, g.players.len()));
}

proof fn lemma_beside_in_order(g: GameView, from: int, clockwise: bool, k: nat)
    requires
        0 <= from < g.players.len() <= MAX_SEATS,
        k < g.players.len(),
    ensures
        ({
            let s = g.beside(from, clockwise, k);
            let n = g.players.len() as int;
            &&& clockwise ==> forall|i: int, j: int|
                0 <= i < j < s.len() ==> distance(from, #[trigger] s[i] as int, n) < distance(
                    from,
                    #[trigger] s[j] as int,
                    n,
                )
            &&& !clockwise ==> forall|i: int, j: int|
                0 <= i < j < s.len() ==> distance(#[trigger] s[i] as int, from, n) < distance(
                    #[trigger] s[j] as int,
                    from,
                    n,
                )
        }),
    decreases k,
{
    if k > 0 {
        let n = g.players.len() as int;
        let less = g.beside(from, clockwise, (k - 1) as nat);
        let more = g.beside(from, clockwise, k);
        lemma_beside_in_order(g, from, clockwise, (k - 1) as nat);
        lemma_beside_is(g, from, clockwise, (k - 1) as nat);
        lemma_wrap(from + k, n);
        lemma_wrap(from + n - k, n);
        assert forall|i: int, j: int| 0 <= i < j < more.len() implies (if clockwise {
            distance(from, (#[trigger] more[i]) as int, n) < distance(
                from,
                (#[trigger] more[j]) as int,
                n,
            )
        } else {
            distance(more[i] as int, from, n) < distance(more[j] as int, from, n)
        }) by {
            assert(more[i] == less[i]);
            assert(less.contains(less[i]));
            if j < less.len() {
                assert(more[j] == less[j]);
            }
        }
    }
}

/// Only the sheriff picks the direction. Clockwise, who sits nearer to the sheriff counted
/// upward speaks earlier; the other way, who sits nearer counted downward.
pub proof fn law_direction_decides_the_order(
    g: GameView,
    s: usize,
    clockwise: bool,
    i: int,
    j: int,
)
    requires
        g.wf(),
        g.in_play(),
        s < g.players.len(),
    ensures
        ({
            let r = g.pick_sheriff_direction(g.players[s as int].open_id, clockwise);
            let order = r->Ok_0.day_speech_order;
            let n = g.players.len() as int;
            &&& r is Ok <==> g.stage == Stage::SheriffPickDirection && g.sheriff_idx == Some(s)
            &&& r is Ok ==> r->Ok_0.stage == Stage::DaySpeech && r->Ok_0.day_speech_idx == 0
                && r->Ok_0.players == g.players
            &&& r is Ok && clockwise && 0 <= i < j < order.len() - 1 ==> distance(
                s as int,
                order[i] as int,
                n,
            ) < distance(s as int, order[j] as int, n)
            &&& r is Ok && !clockwise && 0 <= i < j < order.len() - 1 ==> distance(
                order[i] as int,
                s as int,
                n,
            ) < distance(order[j] as int, s as int, n)
        }),
{
    law_seat_of(g, s);
    let n = g.players.len() as int;
    let r = g.pick_sheriff_direction(g.players[s as int].open_id, clockwise);
    if r is Ok {
        let rest = g.beside(s as int, clockwise, (n - 1) as nat);
        let order = r->Ok_0.day_speech_order;
        assert(order == rest.push(s));
        lemma_beside_in_order(g, s as int, clockwise, (n - 1) as nat);
        if 0 <= i < j < order.len() - 1 {
            assert(order[i] == rest[i] && order[j] == rest[j]);
        }
    }
}

} // verus!
