//! How a step closes.

use vstd::prelude::*;
use crate::feishu::cards::{card, card_view, header, header_view, markdown, markdown_view};
use crate::json::{items1, Json, JsonView};
use crate::werewolf::day_cards::{build_day_reveal_card, build_sheriff_candidates_card};
use crate::werewolf::error::GameError;
use crate::werewolf::flow::lemma_some_start;
use crate::werewolf::plan::Next;
use crate::werewolf::state::{GameView, WolfGame};
use crate::werewolf::table::follows;
use crate::werewolf::types::Stage;
use crate::werewolf::vote_cards::{build_summary_card, build_vote_tally_card};

verus! {

/// The card that opens the vote of the day.
pub open spec fn vote_opened_card() -> JsonView {
    card_view(
        header_view("🗳️ 投票开始"@, "blue"@),
        seq![markdown_view("发言结束。每位存活玩家请通过私密卡投票。"@)],
    )
}

/// The table after a rule with a result.
pub open spec fn table_of<T>(r: Result<(GameView, T), GameError>) -> Result<GameView, GameError> {
    match r {
        Ok(p) => Ok(p.0),
        Err(e) => Err(e),
    }
}

impl GameView {
    /// The table after the vote of the day is counted and the day goes on.
    pub open spec fn vote_settled(self) -> Result<GameView, GameError> {
        match self.resolve_lynch() {
            Ok(p) => Ok(p.0.advance_after_vote()),
            Err(e) => Err(e),
        }
    }

    /// The table after the step closes; if day speeches begin without a sheriff, they
    /// begin at seat `start`.
    pub open spec fn settled(self, start: usize) -> Result<GameView, GameError> {
        match self.stage {
            Stage::GuardPick => Ok(GameView { stage: Stage::WolvesPick, ..self }),
            Stage::WolvesPick => self.advance_after_wolves(),
            Stage::DayReveal => self.enter_day_discuss(start),
            Stage::SheriffNominate => self.finish_sheriff_nominate(),
            Stage::SheriffSpeech => self.finish_sheriff_speeches(),
            Stage::SheriffWithdraw => table_of(self.finish_sheriff_withdraw()),
            Stage::SheriffVote => table_of(self.resolve_sheriff_vote()),
            Stage::DaySpeech => self.enter_day_vote(),
            Stage::DayVote => self.vote_settled(),
            Stage::LastWords => self.finish_last_words(start),
            _ => Ok(self),
        }
    }

    /// What is announced when the step closes.
    pub open spec fn closing_card(self) -> Option<JsonView> {
        match self.stage {
            Stage::DayReveal => Some(self.day_reveal_card()),
            Stage::SheriffNominate => Some(self.candidates_card()),
            Stage::DaySpeech => Some(vote_opened_card()),
            Stage::DayVote => match self.resolve_lynch() {
                Ok(p) => Some(p.0.tally_card()),
                Err(_) => None,
            },
            _ => None,
        }
    }

    /// What is announced when the game is over.
    pub open spec fn final_card(self) -> Option<JsonView> {
        if self.stage != Stage::Ended {
            None
        } else {
            match self.winner() {
                Some(w) => Some(self.summary_card(w)),
                None => None,
            }
        }
    }
}

/// The view of a card, if any.
pub open spec fn model_of(c: Option<Json>) -> Option<JsonView> {
    match c {
        Some(j) => Some(j.model()),
        None => None,
    }
}

impl WolfGame {
    fn settle_vote(&mut self) -> (r: Json)
        requires
            old(self)@.wf(),
            old(self).stage == Stage::DayVote,
            old(self).day < u32::MAX,
        ensures
            final(self)@.wf(),
            Ok::<GameView, GameError>(final(self)@) == old(self)@.vote_settled(),
            Some(r.model()) == old(self)@.closing_card(),
    {
        let counted = self.resolve_lynch();
        assert(counted is Ok);
        assert(self@.in_play());
        let tally = build_vote_tally_card(self);
        let moved = self.advance_after_vote();
        tally
    }

    /// Closes the step and hands back what is announced.
    pub fn settle(&mut self) -> (r: Option<Json>)
        requires
            old(self)@.wf(),
            old(self).day < u32::MAX,
            old(self)@.plan().next == Next::Settle,
        ensures
            final(self)@.wf(),
            exists|start: usize|
                final(self)@.may_start(start) && Ok::<GameView, GameError>(final(self)@)
                    == #[trigger] old(self)@.settled(start),
            model_of(r) == old(self)@.closing_card(),
    {
        let ghost g = self@;
        let stage = self.stage;
        if stage == Stage::DayReveal {
            let c = build_day_reveal_card(self);
            let done = self.enter_day_discuss();
            proof {
                let start = choose|start: usize|
                    self@.may_start(start) && follows(
                        done,
                        g,
                        self@,
                        #[trigger] g.enter_day_discuss(start),
                    );
                assert(Ok::<GameView, GameError>(self@) == g.settled(start));
            }
            return Some(c);
        }
        if stage == Stage::LastWords {
            let done = self.finish_last_words();
            proof {
                let start = choose|start: usize|
                    self@.may_start(start) && follows(
                        done,
                        g,
                        self@,
                        #[trigger] g.finish_last_words(start),
                    );
                assert(Ok::<GameView, GameError>(self@) == g.settled(start));
            }
            return None;
        }
        let mut card_out: Option<Json> = None;
        if stage == Stage::GuardPick {
            self.stage = Stage::WolvesPick;
        } else if stage == Stage::WolvesPick {
            let done = self.advance_after_wolves();
        } else if stage == Stage::SheriffNominate {
            card_out = Some(build_sheriff_candidates_card(self));
            let done = self.finish_sheriff_nominate();
        } else if stage == Stage::SheriffSpeech {
            let done = self.finish_sheriff_speeches();
        } else if stage == Stage::SheriffWithdraw {
            let done = self.finish_sheriff_withdraw();
        } else if stage == Stage::SheriffVote {
            let done = self.resolve_sheriff_vote();
        } else if stage == Stage::DaySpeech {
            let done = self.enter_day_vote();
            card_out = Some(
                card(
                    header("🗳️ 投票开始", "blue"),
                    items1(markdown("发言结束。每位存活玩家请通过私密卡投票。")),
                ),
            );
        } else if stage == Stage::DayVote {
            card_out = Some(self.settle_vote());
        }
        proof {
            let start = lemma_some_start(self@);
            assert(Ok::<GameView, GameError>(self@) == g.settled(start));
        }
        card_out
    }

    /// What is announced when the game is over.
    pub fn announce_end(&self) -> (r: Option<Json>)
        ensures
            model_of(r) == self@.final_card(),
    {
        if self.stage != Stage::Ended {
            return None;
        }
        match self.victory() {
            Some(w) => Some(build_summary_card(self, w)),
            None => None,
        }
    }
}

} // verus!
