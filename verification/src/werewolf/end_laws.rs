//! A game that ends is decided, and its end is told with all roles.

use vstd::prelude::*;
use crate::werewolf::clicks::ClickView;
use crate::werewolf::error::GameError;
use crate::werewolf::laws::Move;
use crate::werewolf::progress_laws::{law_actions_are_moves, move_of};
use crate::werewolf::rule_laws::law_victory_by_seats;
use crate::werewolf::state::GameView;
use crate::werewolf::types::{DeathCause, Stage};

verus! {

/// Whether somebody has won if the game is over.
#[verifier::opaque]
pub open spec fn decided(g: GameView) -> bool {
    g.stage == Stage::Ended ==> g.winner() is Some
}

proof fn lemma_next_night_decided(g: GameView)
    ensures
        decided(g.next_night()),
{
    reveal(decided);
    law_victory_by_seats(g, GameView { stage: Stage::Ended, ..g });
}

proof fn lemma_continued_decided(g: GameView, post: Option<Stage>, start: usize)
    ensures
        decided(g.continued(post, start)),
{
    lemma_next_night_decided(GameView { skip_day_after_reveal: false, ..g });
    law_victory_by_seats(g, GameView { stage: Stage::Ended, ..g });
    reveal(decided);
}

proof fn lemma_guard_and_wolves_decided(g: GameView, m: Move)
    requires
        g.in_play(),
        m is GuardPick || m is GuardSkip || m is WolfPick || m is WolfSay || m is WolfReady,
    ensures
        decided(g.played(m)),
{
    reveal(decided);
}

proof fn lemma_nominations_decided(g: GameView, m: Move)
    requires
        g.in_play(),
        m is Nominate || m is EndNominations || m is SheriffSpeech || m is EndSheriffSpeeches,
    ensures
        decided(g.played(m)),
{
    reveal(decided);
}

proof fn lemma_elections_decided(g: GameView, m: Move)
    requires
        g.in_play(),
        m is Withdraw || m is EndWithdrawals || m is SheriffVote || m is CountSheriffVotes,
    ensures
        decided(g.played(m)),
{
    reveal(decided);
}

proof fn lemma_speeches_decided(g: GameView, m: Move)
    requires
        g.in_play(),
        m is Direction || m is DaySpeech || m is LastWords || m is OpenVote || m is DayVote,
    ensures
        decided(g.played(m)),
{
    reveal(decided);
}

proof fn lemma_count_decided(g: GameView, m: Move)
    requires
        g.in_play(),
        m is CountDayVotes,
    ensures
        decided(g.played(m)),
{
    reveal(decided);
}

proof fn lemma_night_decided(g: GameView, m: Move)
    requires
        g.in_play(),
        m is WolvesDone || m is SeerCheck || m is WitchAct,
    ensures
        decided(g.played(m)),
{
    reveal(decided);
}

proof fn lemma_reveal_decided(g: GameView, start: usize)
    requires
        g.in_play(),
    ensures
        decided(g.played(Move::EndReveal { start })),
{
    if g.stage == Stage::DayReveal {
        let h = g.post_noted();
        lemma_next_night_decided(GameView { skip_day_after_reveal: false, ..h });
        law_victory_by_seats(h, GameView { stage: Stage::Ended, ..h });
    }
    reveal(decided);
}

proof fn lemma_last_words_decided(g: GameView, start: usize)
    requires
        g.in_play(),
    ensures
        decided(g.played(Move::EndLastWords { start })),
{
    lemma_continued_decided(
        GameView { last_words_post_stage: None, ..g },
        g.last_words_post_stage,
        start,
    );
    reveal(decided);
}

proof fn lemma_advance_decided(h: GameView)
    requires
        h.in_play(),
    ensures
        decided(h.advance_after_vote()),
{
    lemma_next_night_decided(h);
    reveal(decided);
}

proof fn lemma_shot_decided(g: GameView, who: Seq<char>, target: Option<Seq<char>>, start: usize)
    requires
        g.in_play(),
    ensures
        decided(g.played(Move::Shoot { who, target, start })),
{
    if let Ok(p) = g.hunter_shoot(who, target, start) {
        let h = g.shot_done(g.seat_of(who)->0, p.1);
        lemma_continued_decided(h, g.pending_hunter_post_stage, start);
    }
    reveal(decided);
}

proof fn lemma_badge_decided(g: GameView, who: Seq<char>, target: Option<Seq<char>>, start: usize)
    requires
        g.in_play(),
    ensures
        decided(g.played(Move::PassBadge { who, target, start })),
{
    if let Ok(p) = g.transfer_badge(who, target, start) {
        let h = g.badge_passed(g.seat_of(who)->0, p.1);
        lemma_continued_decided(h, g.pending_badge_post_stage, start);
    }
    reveal(decided);
}

proof fn lemma_explosion_decided(g: GameView, who: Seq<char>)
    requires
        g.in_play(),
    ensures
        decided(g.played(Move::Explode { who })),
{
    if let Ok(p) = g.self_explode(who) {
        let h = g.die_by_day(
            p.1,
            DeathCause::SelfExplode,
            g.day_line(g.players[p.1 as int].name + " 自爆。"@),
        );
        lemma_next_night_decided(h);
    }
    reveal(decided);
}

/// A game ends only when somebody has won.
pub proof fn law_end_is_decided(g: GameView, m: Move)
    requires
        g.in_play(),
    ensures
        decided(g.played(m)),
{
    match m {
        Move::EndReveal { start } => lemma_reveal_decided(g, start),
        Move::EndLastWords { start } => lemma_last_words_decided(g, start),
        Move::AfterVote => lemma_advance_decided(g),
        Move::Shoot { who, target, start } => lemma_shot_decided(g, who, target, start),
        Move::PassBadge { who, target, start } => lemma_badge_decided(g, who, target, start),
        Move::Explode { who } => lemma_explosion_decided(g, who),
        Move::WolvesDone => lemma_night_decided(g, m),
        Move::SeerCheck { .. } => lemma_night_decided(g, m),
        Move::WitchAct { .. } => lemma_night_decided(g, m),
        Move::GuardPick { .. } => lemma_guard_and_wolves_decided(g, m),
        Move::GuardSkip { .. } => lemma_guard_and_wolves_decided(g, m),
        Move::WolfPick { .. } => lemma_guard_and_wolves_decided(g, m),
        Move::WolfSay { .. } => lemma_guard_and_wolves_decided(g, m),
        Move::WolfReady { .. } => lemma_guard_and_wolves_decided(g, m),
        Move::Nominate { .. } => lemma_nominations_decided(g, m),
        Move::EndNominations => lemma_nominations_decided(g, m),
        Move::SheriffSpeech { .. } => lemma_nominations_decided(g, m),
        Move::EndSheriffSpeeches => lemma_nominations_decided(g, m),
        Move::Withdraw { .. } => lemma_elections_decided(g, m),
        Move::EndWithdrawals => lemma_elections_decided(g, m),
        Move::SheriffVote { .. } => lemma_elections_decided(g, m),
        Move::CountSheriffVotes => lemma_elections_decided(g, m),
        Move::Direction { .. } => lemma_speeches_decided(g, m),
        Move::DaySpeech { .. } => lemma_speeches_decided(g, m),
        Move::LastWords { .. } => lemma_speeches_decided(g, m),
        Move::OpenVote => lemma_speeches_decided(g, m),
        Move::DayVote { .. } => lemma_speeches_decided(g, m),
        Move::CountDayVotes => lemma_count_decided(g, m),
    }
}

/// If a button ends the game, all roles are told.
pub proof fn law_end_by_button_is_told(g: GameView, c: ClickView, start: usize)
    requires
        g.in_play(),
        g.clicked(c, start).0.stage == Stage::Ended,
    ensures
        g.clicked(c, start).1.summary is Some,
        g.clicked(c, start).1.saved,
{
    let a = c.wanted()->0->Ok_0;
    law_actions_are_moves(g, c.open_id, a, start);
    law_end_is_decided(g, move_of(c.open_id, a, start));
    reveal(decided);
}

proof fn lemma_close_of_wolves(g: GameView, start: usize)
    requires
        g.stage == Stage::WolvesPick,
        g.settled(start) is Ok,
    ensures
        decided(g.settled(start)->Ok_0),
{
    law_end_is_decided(g, Move::WolvesDone);
}

proof fn lemma_close_of_news(g: GameView, start: usize)
    requires
        g.stage == Stage::DayReveal,
        g.settled(start) is Ok,
    ensures
        decided(g.settled(start)->Ok_0),
{
    law_end_is_decided(g, Move::EndReveal { start });
}

proof fn lemma_close_of_nominations(g: GameView, start: usize)
    requires
        g.stage == Stage::SheriffNominate,
        g.settled(start) is Ok,
    ensures
        decided(g.settled(start)->Ok_0),
{
    law_end_is_decided(g, Move::EndNominations);
}

proof fn lemma_close_of_speeches(g: GameView, start: usize)
    requires
        g.stage == Stage::SheriffSpeech,
        g.settled(start) is Ok,
    ensures
        decided(g.settled(start)->Ok_0),
{
    law_end_is_decided(g, Move::EndSheriffSpeeches);
}

proof fn lemma_close_of_withdrawals(g: GameView, start: usize)
    requires
        g.stage == Stage::SheriffWithdraw,
        g.settled(start) is Ok,
    ensures
        decided(g.settled(start)->Ok_0),
{
    law_end_is_decided(g, Move::EndWithdrawals);
}

proof fn lemma_close_of_election(g: GameView, start: usize)
    requires
        g.stage == Stage::SheriffVote,
        g.settled(start) is Ok,
    ensures
        decided(g.settled(start)->Ok_0),
{
    law_end_is_decided(g, Move::CountSheriffVotes);
}

proof fn lemma_close_of_last_words(g: GameView, start: usize)
    requires
        g.stage == Stage::LastWords,
        g.settled(start) is Ok,
    ensures
        decided(g.settled(start)->Ok_0),
{
    law_end_is_decided(g, Move::EndLastWords { start });
}

proof fn lemma_counted_in_play(g: GameView)
    requires
        g.stage == Stage::DayVote,
    ensures
        g.resolve_lynch() is Ok,
        g.resolve_lynch()->Ok_0.0.in_play(),
{
}

proof fn lemma_close_of_vote(g: GameView, start: usize)
    requires
        g.stage == Stage::DayVote,
    ensures
        decided(g.settled(start)->Ok_0),
{
    lemma_counted_in_play(g);
    let counted = g.resolve_lynch();
    let h = counted->Ok_0.0;
    lemma_advance_decided(h);
    assert(g.settled(start) == g.vote_settled());
    assert(g.vote_settled() == Ok::<GameView, GameError>(h.advance_after_vote()));
}

/// If the close of a step ends the game, all roles are told.
pub proof fn law_end_by_close_is_told(g: GameView, start: usize)
    requires
        g.in_play(),
        g.settled(start) is Ok,
        g.settled(start)->Ok_0.stage == Stage::Ended,
    ensures
        g.settled(start)->Ok_0.final_card() is Some,
{
    match g.stage {
        Stage::WolvesPick => lemma_close_of_wolves(g, start),
        Stage::DayReveal => lemma_close_of_news(g, start),
        Stage::SheriffNominate => lemma_close_of_nominations(g, start),
        Stage::SheriffSpeech => lemma_close_of_speeches(g, start),
        Stage::SheriffWithdraw => lemma_close_of_withdrawals(g, start),
        Stage::SheriffVote => lemma_close_of_election(g, start),
        Stage::LastWords => lemma_close_of_last_words(g, start),
        Stage::DayVote => lemma_close_of_vote(g, start),
        _ => {},
    }
    reveal(decided);
}

} // verus!
