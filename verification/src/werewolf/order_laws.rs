//! What comes after what: news after the election, second rounds after ties, shots and
//! badges after deaths; and what each of them leaves alone.

use vstd::prelude::*;
use crate::assoc::lemma_key_pos;
use crate::werewolf::election::equal_weights;
use crate::werewolf::laws::{lemma_seat_exists, Move};
use crate::werewolf::night::lemma_dying;
use crate::werewolf::state::GameView;
use crate::werewolf::tally::leaders;
use crate::werewolf::types::{DeathCause, RecapView, Role, SeerCheck, Stage};

verus! {

/// The night runs from the guard over the wolves and the seer to the witch; who is dead is
/// left out, and dawn follows the last of them.
pub proof fn law_night_order(g: GameView)
    ensures
        g.after_night_step(Stage::WolvesPick) == (if g.role_alive(Role::Seer) {
            GameView { stage: Stage::SeerPick, ..g }
        } else {
            g.after_night_step(Stage::SeerPick)
        }),
        g.after_night_step(Stage::SeerPick) == (if g.role_alive(Role::Witch) {
            GameView { stage: Stage::WitchAct, ..g }
        } else {
            g.after_night_step(Stage::WitchAct)
        }),
        g.after_night_step(Stage::WitchAct) == g.night_resolved(),
        forall|who: Seq<char>, target: Seq<char>| #[trigger]
            g.guard_pick(who, target) is Ok ==> g.guard_pick(who, target)->Ok_0.stage
                == Stage::WolvesPick,
        forall|who: Seq<char>| #[trigger]
            g.guard_skip(who) is Ok ==> g.guard_skip(who)->Ok_0.stage == Stage::WolvesPick,
{
}

/// Whoever dies in a night sits at the table.
proof fn lemma_deaths_seated(g: GameView)
    requires
        g.wf(),
        g.in_play(),
    ensures
        forall|i: int|
            0 <= i < g.night_deaths().len() ==> (#[trigger] g.night_deaths()[i]).0
                < g.players.len(),
{
}

/// On a board with an election the first night leads to it, and its dead are announced
/// only after it; without one, and on every later day, the news come at once.
pub proof fn law_election_before_news(g: GameView)
    requires
        g.wf(),
        g.in_play(),
    ensures
        g.day == 1 && g.sheriff_enabled && g.sheriff_idx is None ==> g.night_resolved().stage
            == Stage::SheriffNominate,
        g.day != 1 || !g.sheriff_enabled ==> g.night_resolved().stage == Stage::DayReveal,
{
    lemma_deaths_seated(g);
    lemma_dying(g.potions_spent(), g.night_deaths());
}

/// However the election ends, the news follow: nobody but a blown up wolf dies in it.
pub proof fn law_news_after_election(g: GameView)
    ensures
        g.finish_sheriff_nominate() is Ok ==> ({
            let h = g.finish_sheriff_nominate()->Ok_0;
            (h.stage == Stage::DayReveal || h.stage == Stage::SheriffSpeech) && h.players
                == g.players && h.last_night_deaths == g.last_night_deaths
        }),
        g.finish_sheriff_withdraw() is Ok ==> ({
            let h = g.finish_sheriff_withdraw()->Ok_0.0;
            (h.stage == Stage::DayReveal || h.stage == Stage::SheriffVote) && h.players
                == g.players && h.last_night_deaths == g.last_night_deaths
        }),
        g.resolve_sheriff_vote() is Ok ==> ({
            let h = g.resolve_sheriff_vote()->Ok_0.0;
            (h.stage == Stage::DayReveal || h.stage == Stage::SheriffSpeech) && h.players
                == g.players && h.last_night_deaths == g.last_night_deaths
        }),
{
}

/// A first tie in the election leads to speeches of the tied and a vote among them.
pub proof fn law_election_tie_is_voted_again(g: GameView)
    requires
        g.stage == Stage::SheriffVote,
        g.sheriff_vote_round == 0,
        leaders(g.sheriff_votes, equal_weights()).len() > 1,
    ensures
        ({
            let h = g.resolve_sheriff_vote()->Ok_0.0;
            &&& g.resolve_sheriff_vote() is Ok
            &&& g.resolve_sheriff_vote()->Ok_0.1 is None
            &&& h.stage == Stage::SheriffSpeech
            &&& h.sheriff_vote_round == 1
            &&& h.candidates() == leaders(g.sheriff_votes, equal_weights())
            &&& h.sheriff_speech_order == h.candidates()
            &&& h.sheriff_idx == g.sheriff_idx
        }),
{
}

/// A first tie in the vote of the day leads to speeches of the tied and a vote on them, in
/// which they have no vote; nobody has died.
pub proof fn law_day_tie_is_voted_again(g: GameView)
    requires
        g.stage == Stage::DayVote,
        g.day_vote_round == 0,
        leaders(g.day_votes, g.day_weights()).len() > 1,
    ensures
        ({
            let top = leaders(g.day_votes, g.day_weights());
            let h = g.resolve_lynch()->Ok_0.0;
            &&& g.resolve_lynch() is Ok
            &&& g.resolve_lynch()->Ok_0.1 is None
            &&& h.stage == Stage::DaySpeech
            &&& h.day_vote_round == 1
            &&& h.vote_candidates() == top
            &&& h.day_speech_order == top
            &&& h.players == g.players
            &&& h.advance_after_vote() == h
            &&& forall|i: int| #[trigger] top.contains(i as usize) ==> !(h.votes())(i)
        }),
{
    let h = g.resolve_lynch()->Ok_0.0;
    let top = leaders(g.day_votes, g.day_weights());
    assert forall|i: int| #[trigger] top.contains(i as usize) implies !(h.votes())(i) by {
        assert(h.day_pk_candidates == top);
    }
}

/// The vote of the day has at most two rounds: a second tie banishes nobody, and the night
/// follows, or the end.
pub proof fn law_second_day_round_decides(g: GameView)
    requires
        g.stage == Stage::DayVote,
        g.day_vote_round == 1,
        leaders(g.day_votes, g.day_weights()).len() != 1,
    ensures
        ({
            let h = g.resolve_lynch()->Ok_0.0;
            &&& g.resolve_lynch() is Ok
            &&& g.resolve_lynch()->Ok_0.1 is None
            &&& h.players == g.players
            &&& h.advance_after_vote() == h.next_night()
        }),
{
}

/// The sheriff's vote weighs one and a half times anybody else's.
pub proof fn law_sheriff_weight(g: GameView, sheriff: usize, other: usize)
    requires
        g.sheriff_idx == Some(sheriff),
        other != sheriff,
    ensures
        2 * g.day_weights().of(sheriff) == 3 * g.day_weights().of(other),
{
}

/// Who is banished has last words; a banished hunter or wolf king then shoots, and a
/// banished sheriff passes the badge on.
pub proof fn law_banished_act(g: GameView, i: usize)
    requires
        g.stage == Stage::DayVote,
        leaders(g.day_votes, g.day_weights()) == seq![i],
        i < g.players.len(),
    ensures
        ({
            let h = g.resolve_lynch()->Ok_0.0.advance_after_vote();
            &&& g.resolve_lynch() is Ok
            &&& g.resolve_lynch()->Ok_0.1 == Some(i)
            &&& !h.players[i as int].alive
            &&& h.stage == Stage::LastWords
            &&& h.last_words_queue == seq![i]
            &&& g.players[i as int].role is Some && g.players[i as int].role->0.shoots()
                ==> h.pending_hunter == Some(i)
            &&& g.sheriff_idx == Some(i) ==> h.pending_badge == Some(i)
        }),
{
}

/// After last words comes the shot that is due, after it the badge, and only then the game
/// goes on.
pub proof fn law_shot_then_badge(g: GameView, start: usize)
    requires
        g.stage == Stage::LastWords,
        g.last_words_idx >= g.last_words_queue.len(),
    ensures
        g.finish_last_words(start) is Ok,
        g.pending_hunter is Some ==> g.finish_last_words(start)->Ok_0.stage == Stage::HunterShoot,
        g.pending_hunter is None && g.pending_badge is Some
            ==> g.finish_last_words(start)->Ok_0.stage == Stage::BadgePass,
{
}

/// A hunter or wolf king whom the wolves kill may shoot.
pub proof fn law_killed_shooter_shoots(g: GameView, i: usize)
    requires
        g.wf(),
        g.in_play(),
        g.night_deaths().contains((i, DeathCause::WolfKill)),
        g.players[i as int].role is Some,
        g.players[i as int].role->0.shoots(),
    ensures
        g.night_resolved().pending_hunter == Some(i),
{
    lemma_deaths_seated(g);
    lemma_dying(g.potions_spent(), g.night_deaths());
    let k = choose|k: int|
        0 <= k < g.night_deaths().len() && g.night_deaths()[k] == (i, DeathCause::WolfKill);
    assert(g.night_deaths()[k].1 == DeathCause::WolfKill);
}

/// A sheriff who dies, however, has the badge to pass on: at night, by the vote, by a shot
/// or by blowing up.
pub proof fn law_dead_sheriff_has_badge(
    g: GameView,
    s: usize,
    who: Seq<char>,
    target: Option<Seq<char>>,
    start: usize,
)
    requires
        g.wf(),
        g.in_play(),
        g.sheriff_idx == Some(s),
    ensures
        g.dead_seats().contains(s) ==> g.night_resolved().pending_badge == Some(s),
        g.hunter_shoot(who, target, start) is Ok && g.hunter_shoot(who, target, start)->Ok_0.1
            == Some(s) ==> g.hunter_shoot(who, target, start)->Ok_0.0.pending_badge == Some(s)
            && g.hunter_shoot(who, target, start)->Ok_0.0.stage == Stage::BadgePass,
        g.in_open_day() && g.self_explode(who) is Ok && g.self_explode(who)->Ok_0.1 == s
            ==> g.self_explode(who)->Ok_0.0.pending_badge == Some(s)
            && g.self_explode(who)->Ok_0.0.stage == Stage::BadgePass,
{
    lemma_deaths_seated(g);
    lemma_dying(g.potions_spent(), g.night_deaths());
}

/// The badge goes to whom the dead sheriff names, and to nobody dead; destroyed, it is
/// gone.
pub proof fn law_badge_goes_to_named(
    g: GameView,
    who: Seq<char>,
    target: Option<Seq<char>>,
    start: usize,
)
    requires
        g.transfer_badge(who, target, start) is Ok,
    ensures
        g.transfer_badge(who, target, start)->Ok_0.0.sheriff_idx == g.transfer_badge(
            who,
            target,
            start,
        )->Ok_0.1,
        target is None ==> g.transfer_badge(who, target, start)->Ok_0.1 is None,
        target is Some ==> g.transfer_badge(who, target, start)->Ok_0.1 == g.seat_of(target->0)
            && g.players[g.seat_of(target->0)->0 as int].alive,
{
}

impl GameView {
    /// Whether the game has no sheriff and no election.
    pub open spec fn sheriffless(self) -> bool {
        !self.sheriff_enabled && self.sheriff_idx is None && self.pending_badge is None
            && !self.in_election()
    }
}

/// Whether the guard's last target is as it was, and a game without a sheriff is still one.
#[verifier::opaque]
spec fn left_alone(g: GameView, h: GameView) -> bool {
    h.last_guard_target == g.last_guard_target && (g.sheriffless() ==> h.sheriffless())
}

proof fn lemma_night_left_alone(g: GameView, finished: Stage)
    requires
        g.wf(),
        g.in_play(),
        !g.in_election(),
    ensures
        left_alone(g, g.after_night_step(finished)),
{
    reveal(left_alone);
    lemma_deaths_seated(g);
    lemma_dying(g.potions_spent(), g.night_deaths());
}

proof fn lemma_witch_left_alone(g: GameView, who: Seq<char>, save: bool, poison: Option<Seq<char>>)
    requires
        g.wf(),
        g.in_play(),
        g.witch_act(who, save, poison) is Ok,
    ensures
        left_alone(g, g.witch_act(who, save, poison)->Ok_0),
{
    reveal(left_alone);
    let w = g.seat_of(who)->0;
    let p = g.poison_seat(w, poison)->Ok_0;
    if poison is Some {
        lemma_seat_exists(g, poison->0);
    }
    let h = GameView {
        witch_save_choice: Some(save),
        witch_poison_target: p,
        witch_acted: true,
        recap_log: g.recap_log.push(RecapView::Witch { day: g.day, save, poison: p }),
        ..g
    };
    assert(h.wf());
    lemma_night_left_alone(h, Stage::WitchAct);
}

proof fn lemma_wolves_left_alone(g: GameView)
    requires
        g.wf(),
        g.stage == Stage::WolvesPick,
    ensures
        left_alone(g, g.advance_after_wolves()->Ok_0),
{
    reveal(left_alone);
    let h = GameView {
        night_victim: g.wolf_target(),
        recap_log: g.recap_log.push(
            RecapView::WolfFinalTarget { day: g.day, target: g.wolf_target() },
        ),
        ..g
    };
    if g.wolf_target() is Some {
        lemma_key_pos(g.wolf_kill_votes, g.wolf_seats()[0]);
    }
    assert(h.wf());
    lemma_night_left_alone(h, Stage::WolvesPick);
}

proof fn lemma_seer_left_alone(g: GameView, who: Seq<char>, target: Seq<char>)
    requires
        g.wf(),
        g.in_play(),
        g.seer_check(who, target) is Ok,
    ensures
        left_alone(g, g.seer_check(who, target)->Ok_0.0),
{
    reveal(left_alone);
    lemma_seat_exists(g, target);
    let t = g.seat_of(target)->0;
    let is_wolf = g.seat_is_wolf(t);
    let h = GameView {
        seer_check_target: Some(t),
        seer_history: g.seer_history.push(SeerCheck { day: g.day, target_idx: t, is_wolf }),
        recap_log: g.recap_log.push(RecapView::SeerCheck { day: g.day, target: t, is_wolf }),
        ..g
    };
    assert(h.wf());
    lemma_night_left_alone(h, Stage::SeerPick);
}

proof fn lemma_wolf_moves_left_alone(g: GameView, m: Move)
    requires
        m is WolfPick || m is WolfSay || m is WolfReady,
    ensures
        left_alone(g, g.played(m)),
{
    reveal(left_alone);
}

proof fn lemma_nominations_left_alone(g: GameView, m: Move)
    requires
        m is Nominate || m is EndNominations || m is SheriffSpeech || m is EndSheriffSpeeches,
    ensures
        left_alone(g, g.played(m)),
{
    reveal(left_alone);
}

proof fn lemma_elections_left_alone(g: GameView, m: Move)
    requires
        m is Withdraw || m is EndWithdrawals || m is SheriffVote || m is CountSheriffVotes,
    ensures
        left_alone(g, g.played(m)),
{
    reveal(left_alone);
}

proof fn lemma_speeches_left_alone(g: GameView, m: Move)
    requires
        m is Direction || m is DaySpeech || m is LastWords || m is OpenVote || m is DayVote,
    ensures
        left_alone(g, g.played(m)),
{
    reveal(left_alone);
}

proof fn lemma_count_left_alone(g: GameView, m: Move)
    requires
        m is CountDayVotes || m is AfterVote,
    ensures
        left_alone(g, g.played(m)),
{
    reveal(left_alone);
}

proof fn lemma_reveal_left_alone(g: GameView, m: Move)
    requires
        m is EndReveal,
    ensures
        left_alone(g, g.played(m)),
{
    reveal(left_alone);
}

proof fn lemma_last_words_left_alone(g: GameView, m: Move)
    requires
        m is EndLastWords,
    ensures
        left_alone(g, g.played(m)),
{
    reveal(left_alone);
}

proof fn lemma_shot_left_alone(g: GameView, m: Move)
    requires
        m is Shoot,
    ensures
        left_alone(g, g.played(m)),
{
    reveal(left_alone);
}

proof fn lemma_badge_left_alone(g: GameView, m: Move)
    requires
        m is PassBadge,
    ensures
        left_alone(g, g.played(m)),
{
    reveal(left_alone);
}

proof fn lemma_explosion_left_alone(g: GameView, m: Move)
    requires
        m is Explode,
    ensures
        left_alone(g, g.played(m)),
{
    reveal(left_alone);
}

proof fn lemma_night_moves_left_alone(g: GameView, m: Move)
    requires
        g.wf(),
        g.in_play(),
        m is WolvesDone || m is SeerCheck || m is WitchAct,
    ensures
        left_alone(g, g.played(m)),
{
    reveal(left_alone);
    match m {
        Move::WolvesDone => if g.stage == Stage::WolvesPick {
            lemma_wolves_left_alone(g);
        },
        Move::SeerCheck { who, target } => if g.seer_check(who, target) is Ok {
            lemma_seer_left_alone(g, who, target);
        },
        Move::WitchAct { who, save, poison } => if g.witch_act(who, save, poison) is Ok {
            lemma_witch_left_alone(g, who, save, poison);
        },
        _ => {},
    }
}

proof fn lemma_guard_left_alone(g: GameView, m: Move)
    requires
        m is GuardPick || m is GuardSkip,
        g.sheriffless(),
    ensures
        g.played(m).sheriffless(),
{
}

proof fn lemma_left_alone(g: GameView, m: Move)
    requires
        g.wf(),
        g.in_play(),
        !(m is GuardPick),
        !(m is GuardSkip),
    ensures
        left_alone(g, g.played(m)),
{
    match m {
        Move::GuardPick { .. } => {},
        Move::GuardSkip { .. } => {},
        Move::WolvesDone => lemma_night_moves_left_alone(g, m),
        Move::SeerCheck { .. } => lemma_night_moves_left_alone(g, m),
        Move::WitchAct { .. } => lemma_night_moves_left_alone(g, m),
        Move::WolfPick { .. } => lemma_wolf_moves_left_alone(g, m),
        Move::WolfSay { .. } => lemma_wolf_moves_left_alone(g, m),
        Move::WolfReady { .. } => lemma_wolf_moves_left_alone(g, m),
        Move::Nominate { .. } => lemma_nominations_left_alone(g, m),
        Move::EndNominations => lemma_nominations_left_alone(g, m),
        Move::SheriffSpeech { .. } => lemma_nominations_left_alone(g, m),
        Move::EndSheriffSpeeches => lemma_nominations_left_alone(g, m),
        Move::Withdraw { .. } => lemma_elections_left_alone(g, m),
        Move::EndWithdrawals => lemma_elections_left_alone(g, m),
        Move::SheriffVote { .. } => lemma_elections_left_alone(g, m),
        Move::CountSheriffVotes => lemma_elections_left_alone(g, m),
        Move::Direction { .. } => lemma_speeches_left_alone(g, m),
        Move::DaySpeech { .. } => lemma_speeches_left_alone(g, m),
        Move::LastWords { .. } => lemma_speeches_left_alone(g, m),
        Move::OpenVote => lemma_speeches_left_alone(g, m),
        Move::DayVote { .. } => lemma_speeches_left_alone(g, m),
        Move::CountDayVotes => lemma_count_left_alone(g, m),
        Move::AfterVote => lemma_count_left_alone(g, m),
        Move::EndReveal { .. } => lemma_reveal_left_alone(g, m),
        Move::EndLastWords { .. } => lemma_last_words_left_alone(g, m),
        Move::Shoot { .. } => lemma_shot_left_alone(g, m),
        Move::PassBadge { .. } => lemma_badge_left_alone(g, m),
        Move::Explode { .. } => lemma_explosion_left_alone(g, m),
    }
}

/// Nothing but the guard's own step changes whom the guard protected last; so the guard
/// can never protect the same player in two nights in a row.
pub proof fn law_only_guard_changes_guarded(g: GameView, m: Move)
    requires
        g.wf(),
        g.in_play(),
        !(m is GuardPick),
        !(m is GuardSkip),
    ensures
        g.played(m).last_guard_target == g.last_guard_target,
{
    lemma_left_alone(g, m);
    reveal(left_alone);
}

/// A board of nine has no sheriff: it starts without one, and no move brings one or an
/// election.
pub proof fn law_small_boards_have_no_sheriff(g: GameView, roles: Seq<Role>, m: Move)
    ensures
        g.players.len() < 10 ==> g.started(roles).sheriffless(),
        g.wf() && g.in_play() && g.sheriffless() ==> g.played(m).sheriffless(),
{
    if g.wf() && g.in_play() && g.sheriffless() {
        if m is GuardPick || m is GuardSkip {
            lemma_guard_left_alone(g, m);
        } else {
            lemma_left_alone(g, m);
            reveal(left_alone);
        }
    }
}

} // verus!
