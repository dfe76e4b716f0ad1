//! What each step of the night does, said of the seats and their roles.

use vstd::prelude::*;
use crate::assoc::{get_key, has_key, law_put_get, lemma_key_pos};
use crate::seqs::{lemma_first_from, lemma_first_is};
use crate::text::trimmed;
use crate::werewolf::laws::{law_seat_of, lemma_seat_exists};
use crate::werewolf::night::lemma_dying;
use crate::werewolf::rule_laws::law_wolves_must_agree;
use crate::werewolf::state::GameView;
use crate::werewolf::types::{DeathCause, RecapView, Role, SeerCheck, Stage};

verus! {

/// Whether a role is one of the two wolves' roles.
pub open spec fn wolf_role(role: Option<Role>) -> bool {
    role == Some(Role::Werewolf) || role == Some(Role::WolfKing)
}

/// Whether a role is one of the two that shoot when they die.
pub open spec fn shooting_role(role: Option<Role>) -> bool {
    role == Some(Role::Hunter) || role == Some(Role::WolfKing)
}

/// Nobody sits under an open id that no seat has.
pub proof fn lemma_stranger(g: GameView, id: Seq<char>)
    requires
        g.players.len() <= usize::MAX,
        forall|i: int| 0 <= i < g.players.len() ==> (#[trigger] g.players[i]).open_id != id,
    ensures
        g.seat_of(id) is None,
{
    lemma_first_from(0, g.players.len() as int, g.has_id(id));
}

/// The history of what happened only grows while the dead of a night are noted.
proof fn lemma_dying_adds(g: GameView, d: Seq<(usize, DeathCause)>)
    ensures
        g.dying(d).recap_log.len() == g.recap_log.len() + d.len(),
        forall|i: int|
            0 <= i < g.recap_log.len() ==> #[trigger] g.dying(d).recap_log[i] == g.recap_log[i],
    decreases d.len(),
{
    if d.len() > 0 {
        lemma_dying_adds(g, d.drop_last());
    }
}

/// Who is dead at dawn: the wolves' victim unless guarded or saved, but not both, and whom
/// the witch poisoned. Nobody else dies, and nobody comes back.
pub proof fn law_who_is_dead_at_dawn(g: GameView, i: usize)
    requires
        g.wf(),
        g.in_play(),
        i < g.players.len(),
    ensures
        ({
            let h = g.after_night_step(Stage::WitchAct);
            let guarded = g.guard_target == Some(i);
            let saved = g.witch_save_choice == Some(true);
            let killed = g.night_victim == Some(i) && !(guarded && !saved) && !(saved && !guarded);
            let poisoned = g.witch_poison_target == Some(i);
            &&& h.players.len() == g.players.len()
            &&& h.players[i as int].alive == (g.players[i as int].alive && !killed && !poisoned)
            &&& h.players[i as int].role == g.players[i as int].role
            &&& h.players[i as int].open_id == g.players[i as int].open_id
            &&& h.players[i as int].name == g.players[i as int].name
            &&& h.last_night_deaths.contains(i) == (killed || poisoned)
        }),
{
    let base = g.potions_spent();
    let d = g.night_deaths();
    let h = g.after_night_step(Stage::WitchAct);
    lemma_dying(base, d);
    reveal_with_fuel(GameView::dying, 3);
    let s = d.map_values(|x: (usize, DeathCause)| x.0);
    assert(h.last_night_deaths == base.last_night_deaths + s);
    assert(base.last_night_deaths + s =~= s);
    if d.len() == 1 {
        assert(d.drop_last() =~= Seq::empty());
        assert(s[0] == d[0].0);
    } else if d.len() == 2 {
        assert(d.drop_last().drop_last() =~= Seq::empty());
        assert(s[0] == d[0].0 && s[1] == d[1].0);
    }
    assert(base.players == g.players);
    assert(h.players == base.dying(d).players);
    if s.contains(i) {
        let k = choose|k: int| 0 <= k < s.len() && s[k] == i;
        assert(d[k].0 == i);
    }
}

/// What a night takes from the table: the potions used are gone, and nothing of the seats,
/// the checks and the sheriff but lives.
proof fn lemma_dawn_keeps(g: GameView)
    requires
        g.wf(),
        g.in_play(),
    ensures
        ({
            let h = g.after_night_step(Stage::WitchAct);
            &&& h.seer_history == g.seer_history
            &&& h.seer_check_target == g.seer_check_target
            &&& h.day == g.day
            &&& h.sheriff_idx == g.sheriff_idx
            &&& h.guard_target == g.guard_target
            &&& h.last_guard_target == g.last_guard_target
            &&& h.recap_log.len() >= g.recap_log.len()
            &&& forall|i: int|
                0 <= i < g.recap_log.len() ==> #[trigger] h.recap_log[i] == g.recap_log[i]
        }),
{
    lemma_dying(g.potions_spent(), g.night_deaths());
    lemma_dying_adds(g.potions_spent(), g.night_deaths());
}

/// The guard protects a living player: exactly then is the step done when a living guard
/// names one who was not protected the night before.
pub proof fn law_guard_protects(g: GameView, s: usize, t: usize)
    requires
        g.wf(),
        s < g.players.len(),
        t < g.players.len(),
    ensures
        ({
            let r = g.guard_pick(g.players[s as int].open_id, g.players[t as int].open_id);
            &&& r is Ok <==> {
                &&& g.stage == Stage::GuardPick
                &&& g.players[s as int].role == Some(Role::Guard)
                &&& g.players[s as int].alive
                &&& g.players[t as int].alive
                &&& g.last_guard_target != Some(t)
            }
            &&& r is Ok ==> {
                let h = r->Ok_0;
                &&& h.guard_target == Some(t)
                &&& h.last_guard_target == Some(t)
                &&& h.players == g.players
                &&& h.stage == Stage::WolvesPick
                &&& h.recap_log == g.recap_log.push(
                    RecapView::GuardProtect { day: g.day, target: t },
                )
            }
        }),
{
    law_seat_of(g, s);
    law_seat_of(g, t);
}

/// A living guard may pass, and then nobody is protected.
pub proof fn law_guard_passes(g: GameView, s: usize)
    requires
        g.wf(),
        s < g.players.len(),
    ensures
        ({
            let r = g.guard_skip(g.players[s as int].open_id);
            &&& r is Ok <==> {
                &&& g.stage == Stage::GuardPick
                &&& g.players[s as int].role == Some(Role::Guard)
                &&& g.players[s as int].alive
            }
            &&& r is Ok ==> r->Ok_0.guard_target is None && r->Ok_0.last_guard_target is None
                && r->Ok_0.players == g.players && r->Ok_0.stage == Stage::WolvesPick
        }),
{
    law_seat_of(g, s);
}

/// A living wolf that has not confirmed picks any living player, and its pick replaces its
/// last one and nobody else's.
pub proof fn law_wolf_picks(g: GameView, s: usize, t: usize, other: usize)
    requires
        g.wf(),
        s < g.players.len(),
        t < g.players.len(),
    ensures
        ({
            let r = g.wolf_pick(g.players[s as int].open_id, g.players[t as int].open_id);
            &&& r is Ok <==> {
                &&& g.stage == Stage::WolvesPick
                &&& wolf_role(g.players[s as int].role)
                &&& g.players[s as int].alive
                &&& g.players[t as int].alive
                &&& !g.wolf_ready.contains(s)
            }
            &&& r is Ok ==> get_key(r->Ok_0.wolf_kill_votes, s) == Some(t)
            &&& r is Ok && other != s ==> get_key(r->Ok_0.wolf_kill_votes, other) == get_key(
                g.wolf_kill_votes,
                other,
            )
            &&& r is Ok ==> r->Ok_0.players == g.players && r->Ok_0.stage == Stage::WolvesPick
        }),
{
    law_seat_of(g, s);
    law_seat_of(g, t);
    law_put_get(g.wolf_kill_votes, s, t, other);
}

/// What a living wolf says reaches the wolves' channel under its own seat, unless it is
/// blank.
pub proof fn law_wolf_speaks(g: GameView, s: usize, message: Seq<char>)
    requires
        g.wf(),
        s < g.players.len(),
    ensures
        ({
            let r = g.wolf_say(g.players[s as int].open_id, message);
            &&& r is Ok <==> {
                &&& g.stage == Stage::WolvesPick
                &&& wolf_role(g.players[s as int].role)
                &&& g.players[s as int].alive
                &&& trimmed(message).len() > 0
            }
            &&& r is Ok ==> r->Ok_0.wolf_chat == g.wolf_chat.push((s, trimmed(message)))
                && r->Ok_0.wolf_kill_votes == g.wolf_kill_votes && r->Ok_0.players == g.players
        }),
{
    law_seat_of(g, s);
}

/// A living wolf confirms once it has picked, and is then among the confirmed; nobody else
/// becomes so.
pub proof fn law_wolf_confirms(g: GameView, s: usize, other: usize)
    requires
        g.wf(),
        s < g.players.len(),
    ensures
        ({
            let r = g.wolf_mark_ready(g.players[s as int].open_id);
            &&& r is Ok <==> {
                &&& g.stage == Stage::WolvesPick
                &&& wolf_role(g.players[s as int].role)
                &&& g.players[s as int].alive
                &&& exists|k: int|
                    0 <= k < g.wolf_kill_votes.len() && (#[trigger] g.wolf_kill_votes[k]).0 == s
            }
            &&& r is Ok ==> r->Ok_0.wolf_ready.contains(s)
            &&& r is Ok && other != s ==> r->Ok_0.wolf_ready.contains(other)
                == g.wolf_ready.contains(other)
            &&& r is Ok ==> r->Ok_0.wolf_kill_votes == g.wolf_kill_votes
        }),
{
    law_seat_of(g, s);
    lemma_key_pos(g.wolf_kill_votes, s);
    let p = g.wolf_ready.push(s);
    assert(p[p.len() - 1] == s);
    if g.wolf_ready.contains(other) {
        let k = choose|k: int| 0 <= k < g.wolf_ready.len() && g.wolf_ready[k] == other;
        assert(p[k] == other);
    }
    if has_key(g.wolf_kill_votes, s) {
        assert(g.wolf_kill_votes[crate::assoc::key_pos(g.wolf_kill_votes, s)].0 == s);
    }
}

/// The wolves' step ends with the victim that every living wolf has picked, if they all
/// picked the same one, and else with none. The seer is next if one lives.
pub proof fn law_wolves_kill_whom_all_picked(g: GameView, t: usize)
    requires
        g.wf(),
        g.stage == Stage::WolvesPick,
    ensures
        g.advance_after_wolves() is Ok,
        ({
            let h = g.advance_after_wolves()->Ok_0;
            &&& h.night_victim == Some(t) <==> {
                &&& exists|i: int|
                    0 <= i < g.players.len() && (#[trigger] g.players[i]).alive && wolf_role(
                        g.players[i].role,
                    )
                &&& forall|i: int|
                    0 <= i < g.players.len() && (#[trigger] g.players[i]).alive && wolf_role(
                        g.players[i].role,
                    ) ==> get_key(g.wolf_kill_votes, i as usize) == Some(t)
            }
            &&& g.role_alive(Role::Seer) ==> h.stage == Stage::SeerPick
        }),
{
    law_wolves_must_agree(g, t);
    let v = GameView {
        night_victim: g.wolf_target(),
        recap_log: g.recap_log.push(
            RecapView::WolfFinalTarget { day: g.day, target: g.wolf_target() },
        ),
        ..g
    };
    if g.wolf_target() is Some {
        lemma_key_pos(g.wolf_kill_votes, g.wolf_seats()[0]);
    }
    assert(v.wf());
    lemma_dying(v.potions_spent(), v.night_deaths());
    assert(g.advance_after_wolves()->Ok_0.night_victim == g.wolf_target());
    if exists|i: int| 0 <= i < g.players.len() && #[trigger] (g.living_wolf())(i) {
        let i = choose|i: int| 0 <= i < g.players.len() && #[trigger] (g.living_wolf())(i);
        assert(g.players[i].alive && wolf_role(g.players[i].role));
    }
    if exists|i: int|
        0 <= i < g.players.len() && (#[trigger] g.players[i]).alive && wolf_role(
            g.players[i].role,
        ) {
        let i = choose|i: int|
            0 <= i < g.players.len() && (#[trigger] g.players[i]).alive && wolf_role(
                g.players[i].role,
            );
        assert((g.living_wolf())(i));
    }
    if forall|i: int|
        0 <= i < g.players.len() && (#[trigger] g.players[i]).alive && wolf_role(
            g.players[i].role,
        ) ==> get_key(g.wolf_kill_votes, i as usize) == Some(t) {
        assert forall|i: int| 0 <= i < g.players.len() && #[trigger] (g.living_wolf())(
            i,
        ) implies get_key(g.wolf_kill_votes, i as usize) == Some(t) by {
            assert(g.players[i].alive && wolf_role(g.players[i].role));
        }
    }
    assert forall|i: int|
        0 <= i < g.players.len() && (#[trigger] g.players[i]).alive && wolf_role(
            g.players[i].role,
        ) && g.wolf_target() == Some(t) implies get_key(g.wolf_kill_votes, i as usize) == Some(t) by {
        assert((g.living_wolf())(i));
    }
}

/// A seer who names another living player learns what that player is: a wolf exactly if the
/// role is that of a werewolf or the wolf king. The same is noted among the checks and for
/// the summary.
pub proof fn law_seer_learns_the_side(g: GameView, s: usize, t: usize)
    requires
        g.wf(),
        s < g.players.len(),
        t < g.players.len(),
    ensures
        ({
            let r = g.seer_check(g.players[s as int].open_id, g.players[t as int].open_id);
            &&& r is Ok <==> {
                &&& g.stage == Stage::SeerPick
                &&& g.players[s as int].role == Some(Role::Seer)
                &&& g.players[s as int].alive
                &&& g.players[t as int].alive
                &&& s != t
            }
            &&& r is Ok ==> {
                let h = r->Ok_0.0;
                let is_wolf = wolf_role(g.players[t as int].role);
                &&& r->Ok_0.1 == is_wolf
                &&& h.seer_history == g.seer_history.push(
                    SeerCheck { day: g.day, target_idx: t, is_wolf },
                )
                &&& h.recap_log.len() > g.recap_log.len()
                &&& h.recap_log[g.recap_log.len() as int] == (RecapView::SeerCheck {
                    day: g.day,
                    target: t,
                    is_wolf,
                })
            }
        }),
{
    law_seat_of(g, s);
    law_seat_of(g, t);
    let is_wolf = wolf_role(g.players[t as int].role);
    if g.seer_check(g.players[s as int].open_id, g.players[t as int].open_id) is Ok {
        let h = GameView {
            seer_check_target: Some(t),
            seer_history: g.seer_history.push(SeerCheck { day: g.day, target_idx: t, is_wolf }),
            recap_log: g.recap_log.push(RecapView::SeerCheck { day: g.day, target: t, is_wolf }),
            ..g
        };
        assert(h.wf());
        lemma_dawn_keeps(h);
        assert(h.recap_log[g.recap_log.len() as int] == (RecapView::SeerCheck {
            day: g.day,
            target: t,
            is_wolf,
        }));
    }
}

/// Whatever the seer names: an answer is given only of a seated player, and it tells that
/// player's side.
pub proof fn law_seer_is_never_misled(g: GameView, who: Seq<char>, target: Seq<char>)
    requires
        g.wf(),
        g.seer_check(who, target) is Ok,
    ensures
        exists|t: usize|
            t < g.players.len() && (#[trigger] g.players[t as int]).open_id == target
                && g.seer_check(who, target)->Ok_0.1 == wolf_role(g.players[t as int].role),
{
    lemma_seat_exists(g, who);
    lemma_seat_exists(g, target);
    let s = g.seat_of(who)->0;
    let t = g.seat_of(target)->0;
    law_seer_learns_the_side(g, s, t);
    assert(g.players[t as int].open_id == target);
}

/// The witch with her potions: she saves if she has the antidote and there is a victim,
/// poisons another living player if she has the poison, or passes, never both. The night
/// then ends: whom she poisons is dead, and whom she saves lives unless the guard was there
/// too.
pub proof fn law_witch_decides(g: GameView, w: usize, save: bool, poison: Option<usize>, i: usize)
    requires
        g.wf(),
        w < g.players.len(),
        poison is Some ==> poison->0 < g.players.len(),
        i < g.players.len(),
    ensures
        ({
            let r = g.witch_act(
                g.players[w as int].open_id,
                save,
                match poison {
                    Some(t) => Some(g.players[t as int].open_id),
                    None => None,
                },
            );
            &&& r is Ok <==> {
                &&& g.stage == Stage::WitchAct
                &&& g.players[w as int].role == Some(Role::Witch)
                &&& g.players[w as int].alive
                &&& !(save && poison is Some)
                &&& save ==> !g.witch_save_used && g.night_victim is Some
                &&& poison is Some ==> !g.witch_poison_used && g.players[poison->0 as int].alive
                    && poison->0 != w
            }
            &&& r is Ok ==> {
                let h = r->Ok_0;
                let victim = g.night_victim == Some(i);
                let guarded = g.guard_target == Some(i);
                &&& poison == Some(i) ==> !h.players[i as int].alive
                    && h.last_night_deaths.contains(i)
                &&& victim && save && !guarded && poison != Some(i) ==> h.players[i as int].alive
                    == g.players[i as int].alive && !h.last_night_deaths.contains(i)
                &&& victim && save && guarded ==> !h.players[i as int].alive
                    && h.last_night_deaths.contains(i)
                &&& victim && !save && !guarded ==> !h.players[i as int].alive
                    && h.last_night_deaths.contains(i)
                &&& victim && !save && guarded && poison != Some(i) ==> h.players[i as int].alive
                    == g.players[i as int].alive && !h.last_night_deaths.contains(i)
                &&& !victim && poison != Some(i) ==> h.players[i as int].alive
                    == g.players[i as int].alive && !h.last_night_deaths.contains(i)
                &&& h.witch_save_used == (g.witch_save_used || save)
                &&& h.witch_poison_used == (g.witch_poison_used || poison is Some)
                &&& h.recap_log.len() > g.recap_log.len()
                &&& h.recap_log[g.recap_log.len() as int] == (RecapView::Witch {
                    day: g.day,
                    save,
                    poison,
                })
            }
        }),
{
    law_seat_of(g, w);
    if poison is Some {
        law_seat_of(g, poison->0);
    }
    let id = match poison {
        Some(t) => Some(g.players[t as int].open_id),
        None => None,
    };
    if g.witch_act(g.players[w as int].open_id, save, id) is Ok {
        let h = GameView {
            witch_save_choice: Some(save),
            witch_poison_target: poison,
            witch_acted: true,
            recap_log: g.recap_log.push(RecapView::Witch { day: g.day, save, poison }),
            ..g
        };
        assert(h.wf());
        law_who_is_dead_at_dawn(h, i);
        lemma_dawn_keeps(h);
        lemma_dying(h.potions_spent(), h.night_deaths());
        assert(h.recap_log[g.recap_log.len() as int] == (RecapView::Witch {
            day: g.day,
            save,
            poison,
        }));
    }
}

/// The only seat with a role is found, and counts as living exactly if its player lives.
pub proof fn lemma_only_holder(g: GameView, role: Role, s: usize)
    requires
        s < g.players.len(),
        g.players[s as int].role == Some(role),
        forall|i: int| 0 <= i < s ==> (#[trigger] g.players[i]).role != Some(role),
    ensures
        g.role_seat(role) == Some(s),
        g.role_alive(role) == g.players[s as int].alive,
{
    assert forall|j: int| 0 <= j < s implies !#[trigger] (g.holder(role))(j) by {
        assert(g.players[j].role != Some(role));
    }
    lemma_first_is(g.players.len() as int, g.holder(role), s as int);
}

/// A role that nobody holds is not found.
pub proof fn lemma_no_holder(g: GameView, role: Role)
    requires
        g.players.len() <= usize::MAX,
        forall|i: int| 0 <= i < g.players.len() ==> (#[trigger] g.players[i]).role != Some(role),
    ensures
        g.role_seat(role) is None,
        !g.role_alive(role),
{
    lemma_first_from(0, g.players.len() as int, g.holder(role));
}

/// At a table with one seer and one witch the night goes from the wolves to the seer, from
/// the seer to the witch, and from the witch to dawn; the step of a dead one is left out.
pub proof fn law_night_goes_on(g: GameView, seer: usize, witch: usize)
    requires
        g.wf(),
        g.in_play(),
        seer < g.players.len(),
        witch < g.players.len(),
        forall|i: int|
            0 <= i < g.players.len() ==> ((#[trigger] g.players[i]).role == Some(Role::Seer)
                <==> i == seer),
        forall|i: int|
            0 <= i < g.players.len() ==> ((#[trigger] g.players[i]).role == Some(Role::Witch)
                <==> i == witch),
    ensures
        ({
            let seer_lives = g.players[seer as int].alive;
            let witch_lives = g.players[witch as int].alive;
            let a = g.after_night_step(Stage::WolvesPick).stage;
            let b = g.after_night_step(Stage::SeerPick).stage;
            let c = g.after_night_step(Stage::WitchAct).stage;
            &&& seer_lives ==> a == Stage::SeerPick
            &&& !seer_lives && witch_lives ==> a == Stage::WitchAct
            &&& !seer_lives && !witch_lives ==> a == c
            &&& witch_lives ==> b == Stage::WitchAct
            &&& !witch_lives ==> b == c
            &&& c == Stage::DayReveal || c == Stage::SheriffNominate
            &&& c == Stage::SheriffNominate <==> g.day == 1 && g.sheriff_enabled && g.sheriff_idx
                is None
        }),
{
    assert(g.players[seer as int].role == Some(Role::Seer));
    assert(g.players[witch as int].role == Some(Role::Witch));
    lemma_only_holder(g, Role::Seer, seer);
    lemma_only_holder(g, Role::Witch, witch);
    lemma_dying(g.potions_spent(), g.night_deaths());
}

/// A hunter or wolf king whom the wolves killed has a shot coming at dawn; nobody else has,
/// and poison takes the shot away.
pub proof fn law_who_shoots_at_dawn(g: GameView, i: usize)
    requires
        g.wf(),
        g.in_play(),
        i < g.players.len(),
        g.pending_hunter is None,
    ensures
        ({
            let h = g.after_night_step(Stage::WitchAct);
            let guarded = g.guard_target == Some(i);
            let saved = g.witch_save_choice == Some(true);
            let killed = g.night_victim == Some(i) && !(guarded && !saved) && !(saved && !guarded);
            &&& h.pending_hunter == Some(i) <==> killed && shooting_role(g.players[i as int].role)
            &&& g.witch_poison_target == Some(i) && !killed ==> h.pending_hunter != Some(i)
        }),
{
    lemma_dying(g.potions_spent(), g.night_deaths());
}

} // verus!
