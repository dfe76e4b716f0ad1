//! What an AI player cannot learn from what it is shown.

use vstd::prelude::*;
use crate::seqs::lemma_pick_from;
use crate::werewolf::state::GameView;
use crate::werewolf::types::{DeathCause, RecapView, Role};
use crate::werewolf::view::{own_thought, same_line, same_thought, Outlook};

verus! {

/// The thoughts a player is shown are its own.
pub proof fn law_thoughts_are_private(g: GameView, me: usize, k: int)
    requires
        0 <= k < g.outlook(me).my_thinking_history.len(),
    ensures
        g.outlook(me).my_thinking_history[k].player == me,
        g.thinking_log.contains(g.outlook(me).my_thinking_history[k]),
{
    let i = lemma_pick_from(g.thinking_log, own_thought(me), same_thought(), k);
    assert(g.thinking_log[i] == g.outlook(me).my_thinking_history[k]);
}

/// Only wolves are shown wolves, and only the seer is shown checks.
pub proof fn law_roles_are_secret(g: GameView, me: usize)
    requires
        g.players[me as int].role is Some,
    ensures
        !g.players[me as int].role->0.wolfish() ==> g.outlook(me).teammates.len() == 0,
        g.players[me as int].role != Some(Role::Seer) ==> g.outlook(me).seer_log.len() == 0,
{
}

/// Whom a wolf is shown as a fellow is another wolf.
pub proof fn law_mates_are_wolves(g: GameView, me: usize, n: nat, k: int)
    requires
        n <= g.players.len() <= usize::MAX,
        0 <= k < g.mates_of(me, n).len(),
    ensures
        g.seat_is_wolf(g.mates_of(me, n)[k].0),
        g.mates_of(me, n)[k].0 != me,
    decreases n,
{
    if n > 0 && k < g.mates_of(me, (n - 1) as nat).len() {
        law_mates_are_wolves(g, me, (n - 1) as nat, k);
    }
}

/// A death of the first night is not shown while the election lasts: the dead counts as
/// alive, no line of the history tells of it, and no file holds it.
pub proof fn law_unannounced_deaths_are_hidden(
    g: GameView,
    me: usize,
    dead: usize,
    line: int,
    day: u32,
    cause: DeathCause,
    who: usize,
)
    requires
        dead < g.players.len(),
        g.unannounced().contains(dead),
    ensures
        g.outlook(me).players[dead as int].2,
        0 <= line < g.outlook(me).event_log.len() ==> g.outlook(me).event_log[line]
            != g.night_death_line(dead),
        !g.outlook(me).shown_death(
            RecapView::Death { day, night: true, player: dead, cause },
            who,
        ),
{
    if 0 <= line < g.outlook(me).event_log.len() {
        let i = lemma_pick_from(g.event_log, g.announced_line(), same_line(), line);
        let k = choose|k: int| 0 <= k < g.unannounced().len() && g.unannounced()[k] == dead;
        assert(g.event_log[i] != g.night_death_line(g.unannounced()[k]));
    }
}

/// Votes that are not counted yet are not shown: the outlook does not depend on them.
pub proof fn law_open_ballots_are_hidden(
    g: GameView,
    me: usize,
    day_votes: Seq<(usize, Option<usize>)>,
    sheriff_votes: Seq<(usize, Option<usize>)>,
)
    ensures
        (GameView { day_votes, sheriff_votes, ..g }).outlook(me) == g.outlook(me),
{
    let h = GameView { day_votes, sheriff_votes, ..g };
    assert(h.seen_player() =~= g.seen_player());
    assert(h.remembered_check() =~= g.remembered_check());
    assert(h.announced_line() =~= g.announced_line());
    lemma_mates_same(h, g, me, g.players.len());
}

proof fn lemma_mates_same(g: GameView, h: GameView, me: usize, n: nat)
    requires
        g.players == h.players,
    ensures
        g.mates_of(me, n) == h.mates_of(me, n),
    decreases n,
{
    if n > 0 {
        lemma_mates_same(g, h, me, (n - 1) as nat);
    }
}

/// What happens in secret leaves no line in anybody's file: the guard's, wolves', seer's
/// and witch's moves, and single votes.
pub proof fn law_secret_moves_leave_no_line(o: Outlook, e: RecapView, who: usize)
    requires
        e is GuardProtect || e is WolfFinalTarget || e is SeerCheck || e is Witch || e is DayVoteCast,
    ensures
        o.file_lines(e, who).len() == 0,
        !o.shown_death(e, who),
{
}

/// A death at night by wolves and one by poison look the same.
pub proof fn law_night_causes_look_alike(o: Outlook, day: u32, player: usize)
    ensures
        o.death_line(
            RecapView::Death { day, night: true, player, cause: DeathCause::WolfKill },
        ) == o.death_line(
            RecapView::Death { day, night: true, player, cause: DeathCause::Poison },
        ),
{
}

} // verus!
