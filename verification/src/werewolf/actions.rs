//! What a player can do, whether a human by a button or an AI by an answer.

use vstd::prelude::*;
use crate::werewolf::error::GameError;
use crate::werewolf::flow::lemma_some_start;
use crate::werewolf::state::{GameView, WolfGame};
use crate::werewolf::table::follows_with;

verus! {

/// What a player does. Others are named by their open ids.
#[derive(Debug)]
pub enum Action {
    GuardPick(String),
    GuardSkip,
    WolfPick(String),
    WolfSay(String),
    WolfReady,
    SeerCheck(String),
    Witch { save: bool, poison: Option<String> },
    Nominate(bool),
    SheriffSpeech(String),
    Stay(bool),
    Elect(Option<String>),
    Direction(bool),
    DaySpeech(String),
    Vote(Option<String>),
    LastWords(String),
    Shoot(Option<String>),
    Badge(Option<String>),
    Explode,
}

/// What a player does.
pub enum ActionView {
    GuardPick(Seq<char>),
    GuardSkip,
    WolfPick(Seq<char>),
    WolfSay(Seq<char>),
    WolfReady,
    SeerCheck(Seq<char>),
    Witch { save: bool, poison: Option<Seq<char>> },
    Nominate(bool),
    SheriffSpeech(Seq<char>),
    Stay(bool),
    Elect(Option<Seq<char>>),
    Direction(bool),
    DaySpeech(Seq<char>),
    Vote(Option<Seq<char>>),
    LastWords(Seq<char>),
    Shoot(Option<Seq<char>>),
    Badge(Option<Seq<char>>),
    Explode,
}

impl DeepView for Action {
    type V = ActionView;

    open spec fn deep_view(&self) -> ActionView {
        match *self {
            Action::GuardPick(t) => ActionView::GuardPick(t@),
            Action::GuardSkip => ActionView::GuardSkip,
            Action::WolfPick(t) => ActionView::WolfPick(t@),
            Action::WolfSay(m) => ActionView::WolfSay(m@),
            Action::WolfReady => ActionView::WolfReady,
            Action::SeerCheck(t) => ActionView::SeerCheck(t@),
            Action::Witch { save, poison } => ActionView::Witch {
                save,
                poison: poison.deep_view(),
            },
            Action::Nominate(b) => ActionView::Nominate(b),
            Action::SheriffSpeech(s) => ActionView::SheriffSpeech(s@),
            Action::Stay(b) => ActionView::Stay(b),
            Action::Elect(t) => ActionView::Elect(t.deep_view()),
            Action::Direction(b) => ActionView::Direction(b),
            Action::DaySpeech(s) => ActionView::DaySpeech(s@),
            Action::Vote(t) => ActionView::Vote(t.deep_view()),
            Action::LastWords(s) => ActionView::LastWords(s@),
            Action::Shoot(t) => ActionView::Shoot(t.deep_view()),
            Action::Badge(t) => ActionView::Badge(t.deep_view()),
            Action::Explode => ActionView::Explode,
        }
    }
}

/// What comes of an action beside the new state of the table.
#[derive(Debug, Clone, Copy, PartialEq, Eq, Structural)]
pub enum Outcome {
    /// Nothing.
    Nothing,
    /// The seer learns whether the checked is a wolf.
    Check(bool),
    /// Who was shot, who has the badge now, or who blew up.
    Seat(Option<usize>),
}

impl Outcome {
    /// The seat that came of the action, if one did.
    pub open spec fn seat_told(self) -> Option<usize> {
        match self {
            Outcome::Seat(o) => o,
            _ => None,
        }
    }

    /// Whether the seer has found a wolf.
    pub open spec fn wolf_found(self) -> bool {
        self == Outcome::Check(true)
    }

    /// The seat that came of the action, if one did.
    pub fn seat(self) -> (r: Option<usize>)
        ensures
            r == self.seat_told(),
    {
        match self {
            Outcome::Seat(o) => o,
            _ => None,
        }
    }

    /// Whether the seer has found a wolf.
    pub fn is_wolf(self) -> (r: bool)
        ensures
            r == self.wolf_found(),
    {
        match self {
            Outcome::Check(b) => b,
            _ => false,
        }
    }
}

/// A rule without a result.
pub open spec fn quiet(r: Result<GameView, GameError>) -> Result<(GameView, Outcome), GameError> {
    match r {
        Ok(g) => Ok((g, Outcome::Nothing)),
        Err(e) => Err(e),
    }
}

/// A rule whose result is a seat or none.
pub open spec fn seated_outcome(r: Result<(GameView, Option<usize>), GameError>) -> Result<
    (GameView, Outcome),
    GameError,
> {
    match r {
        Ok(p) => Ok((p.0, Outcome::Seat(p.1))),
        Err(e) => Err(e),
    }
}

impl GameView {
    /// What comes of an action of a player; if day speeches begin without a sheriff, they
    /// begin at seat `start`.
    pub open spec fn tried(self, who: Seq<char>, a: ActionView, start: usize) -> Result<
        (GameView, Outcome),
        GameError,
    > {
        match a {
            ActionView::GuardPick(t) => quiet(self.guard_pick(who, t)),
            ActionView::GuardSkip => quiet(self.guard_skip(who)),
            ActionView::WolfPick(t) => quiet(self.wolf_pick(who, t)),
            ActionView::WolfSay(m) => quiet(self.wolf_say(who, m)),
            ActionView::WolfReady => quiet(self.wolf_mark_ready(who)),
            ActionView::SeerCheck(t) => match self.seer_check(who, t) {
                Ok(p) => Ok((p.0, Outcome::Check(p.1))),
                Err(e) => Err(e),
            },
            ActionView::Witch { save, poison } => quiet(self.witch_act(who, save, poison)),
            ActionView::Nominate(b) => quiet(self.nominate_sheriff(who, b)),
            ActionView::SheriffSpeech(s) => quiet(self.submit_sheriff_speech(who, s)),
            ActionView::Stay(b) => quiet(self.decide_sheriff_withdraw(who, b)),
            ActionView::Elect(t) => quiet(self.cast_sheriff_vote(who, t)),
            ActionView::Direction(b) => quiet(self.pick_sheriff_direction(who, b)),
            ActionView::DaySpeech(s) => quiet(self.submit_day_speech(who, s)),
            ActionView::Vote(t) => quiet(self.cast_vote(who, t)),
            ActionView::LastWords(s) => quiet(self.submit_last_words(who, s)),
            ActionView::Shoot(t) => seated_outcome(self.hunter_shoot(who, t, start)),
            ActionView::Badge(t) => seated_outcome(self.transfer_badge(who, t, start)),
            ActionView::Explode => match self.self_explode(who) {
                Ok(p) => Ok((p.0, Outcome::Seat(Some(p.1)))),
                Err(e) => Err(e),
            },
        }
    }
}

fn quietly(r: Result<(), GameError>) -> (q: Result<Outcome, GameError>)
    ensures
        match r {
            Ok(_) => q == Ok::<Outcome, GameError>(Outcome::Nothing),
            Err(e) => q == Err::<Outcome, GameError>(e),
        },
{
    match r {
        Ok(_) => Ok(Outcome::Nothing),
        Err(e) => Err(e),
    }
}

/// A text by reference.
pub fn borrowed(t: &Option<String>) -> (r: Option<&str>)
    ensures
        r.deep_view() == t.deep_view(),
{
    match t {
        Some(s) => Some(s.as_str()),
        None => None,
    }
}

impl WolfGame {
    fn act_shoot(&mut self, who: &str, target: Option<&str>) -> (r: Result<Outcome, GameError>)
        requires
            old(self)@.wf(),
            old(self).day < u32::MAX,
        ensures
            final(self)@.wf(),
            exists|start: usize|
                final(self)@.may_start(start) && follows_with(
                    r,
                    old(self)@,
                    final(self)@,
                    #[trigger] old(self)@.tried(who@, ActionView::Shoot(target.deep_view()), start),
                ),
    {
        let ghost g = self@;
        let ghost a = ActionView::Shoot(target.deep_view());
        let shot = self.hunter_shoot(who, target);
        let ghost start = choose|start: usize|
            self@.may_start(start) && follows_with(
                shot,
                g,
                self@,
                #[trigger] g.hunter_shoot(who@, target.deep_view(), start),
            );
        let r = match shot {
            Ok(t) => Ok(Outcome::Seat(t)),
            Err(e) => Err(e),
        };
        assert(follows_with(r, g, self@, g.tried(who@, a, start)));
        r
    }

    fn act_badge(&mut self, who: &str, target: Option<&str>) -> (r: Result<Outcome, GameError>)
        requires
            old(self)@.wf(),
            old(self).day < u32::MAX,
        ensures
            final(self)@.wf(),
            exists|start: usize|
                final(self)@.may_start(start) && follows_with(
                    r,
                    old(self)@,
                    final(self)@,
                    #[trigger] old(self)@.tried(who@, ActionView::Badge(target.deep_view()), start),
                ),
    {
        let ghost g = self@;
        let ghost a = ActionView::Badge(target.deep_view());
        let passed = self.transfer_badge(who, target);
        let ghost start = choose|start: usize|
            self@.may_start(start) && follows_with(
                passed,
                g,
                self@,
                #[trigger] g.transfer_badge(who@, target.deep_view(), start),
            );
        let r = match passed {
            Ok(t) => Ok(Outcome::Seat(t)),
            Err(e) => Err(e),
        };
        assert(follows_with(r, g, self@, g.tried(who@, a, start)));
        r
    }

    /// A player acts.
    pub fn act(&mut self, who: &str, action: Action) -> (r: Result<Outcome, GameError>)
        requires
            old(self)@.wf(),
            old(self).day < u32::MAX,
        ensures
            final(self)@.wf(),
            exists|start: usize|
                final(self)@.may_start(start) && follows_with(
                    r,
                    old(self)@,
                    final(self)@,
                    #[trigger] old(self)@.tried(who@, action.deep_view(), start),
                ),
    {
        let ghost g = self@;
        let ghost a = action.deep_view();
        let r = match action {
            Action::Shoot(t) => {
                return self.act_shoot(who, borrowed(&t));
            },
            Action::Badge(t) => {
                return self.act_badge(who, borrowed(&t));
            },
            Action::GuardPick(t) => quietly(self.guard_pick(who, t.as_str())),
            Action::GuardSkip => quietly(self.guard_skip(who)),
            Action::WolfPick(t) => quietly(self.wolf_pick(who, t.as_str())),
            Action::WolfSay(m) => quietly(self.wolf_say(who, m)),
            Action::WolfReady => quietly(self.wolf_mark_ready(who)),
            Action::SeerCheck(t) => match self.seer_check(who, t.as_str()) {
                Ok(b) => Ok(Outcome::Check(b)),
                Err(e) => Err(e),
            },
            Action::Witch { save, poison } => quietly(
                self.witch_act(who, save, borrowed(&poison)),
            ),
            Action::Nominate(b) => quietly(self.nominate_sheriff(who, b)),
            Action::SheriffSpeech(s) => quietly(self.submit_sheriff_speech(who, s)),
            Action::Stay(b) => quietly(self.decide_sheriff_withdraw(who, b)),
            Action::Elect(t) => quietly(self.cast_sheriff_vote(who, borrowed(&t))),
            Action::Direction(b) => quietly(self.pick_sheriff_direction(who, b)),
            Action::DaySpeech(s) => quietly(self.submit_day_speech(who, s)),
            Action::Vote(t) => quietly(self.cast_vote(who, borrowed(&t))),
            Action::LastWords(s) => quietly(self.submit_last_words(who, s)),
            Action::Explode => match self.self_explode(who) {
                Ok(i) => Ok(Outcome::Seat(Some(i))),
                Err(e) => Err(e),
            },
        };
        proof {
            let start = lemma_some_start(self@);
            assert(follows_with(r, g, self@, g.tried(who@, a, start)));
        }
        r
    }
}

} // verus!
