//! What happens next at a table: who is handed a card, who is asked, and whether the
//! step closes.

use vstd::prelude::*;
use crate::assoc::{find_key, find_name, has_key};
use crate::seqs::{lemma_pick_step, lemma_take_ends, pick};
use crate::werewolf::cards::lemma_indices_ok;
use crate::werewolf::state::{GameView, WolfGame};
use crate::werewolf::table::{seat_ok, seats_ok};
use crate::werewolf::types::{Role, Stage};

verus! {

/// How the table goes on after the cards are handed out and the AIs have answered.
#[derive(Debug, Clone, Copy, PartialEq, Eq, Structural)]
pub enum Next {
    /// Nothing happens until somebody presses a button.
    Wait,
    /// Plan again.
    Again,
    /// The step closes.
    Settle,
}

/// Whether the AIs of a step are asked all at once: in the rounds where nobody hears what the
/// others choose. In the other steps each is asked when the one before has answered.
pub fn asked_together(stage: Stage) -> (r: bool)
    ensures
        r == (stage == Stage::SheriffNominate || stage == Stage::SheriffVote || stage
            == Stage::DayVote),
{
    matches!(stage, Stage::SheriffNominate | Stage::SheriffVote | Stage::DayVote)
}

/// What happens next at a table.
#[derive(Debug)]
pub struct Plan {
    /// The seats of the humans who are handed a card.
    pub humans: Vec<usize>,
    /// The seats of the AIs that are asked.
    pub ais: Vec<usize>,
    /// How the table goes on after that.
    pub next: Next,
}

/// What happens next at a table.
#[verifier::ext_equal]
pub struct PlanView {
    pub humans: Seq<usize>,
    pub ais: Seq<usize>,
    pub next: Next,
}

impl View for Plan {
    type V = PlanView;

    open spec fn view(&self) -> PlanView {
        PlanView { humans: self.humans@, ais: self.ais@, next: self.next }
    }
}

/// The seats that satisfy a condition, in order.
pub open spec fn kept_seats(seats: Seq<usize>, keep: spec_fn(usize) -> bool) -> Seq<usize> {
    pick(seats, keep, |i: usize| i)
}

impl GameView {
    /// The table waits, or nothing is left to do.
    pub open spec fn idle(self) -> PlanView {
        PlanView { humans: Seq::empty(), ais: Seq::empty(), next: Next::Wait }
    }

    /// The step closes.
    pub open spec fn closing(self) -> PlanView {
        PlanView { humans: Seq::empty(), ais: Seq::empty(), next: Next::Settle }
    }

    /// It is the turn of one player.
    pub open spec fn turn(self, i: usize) -> PlanView {
        if self.players[i as int].is_ai {
            PlanView { humans: Seq::empty(), ais: seq![i], next: Next::Again }
        } else {
            PlanView { humans: seq![i], ais: Seq::empty(), next: Next::Wait }
        }
    }

    /// It is the turn of one player, if there is one; else the table stands still.
    pub open spec fn turn_or_wait(self, who: Option<usize>) -> PlanView {
        match who {
            Some(i) => self.turn(i),
            None => self.idle(),
        }
    }

    /// It is the turn of one player, if there is one; else the step closes.
    pub open spec fn turn_or_close(self, who: Option<usize>) -> PlanView {
        match who {
            Some(i) => self.turn(i),
            None => self.closing(),
        }
    }

    /// Everybody answers at the same time. A human who has not answered is handed a card
    /// once. The step closes when all have answered.
    pub open spec fn round<V>(
        self,
        seats: Seq<usize>,
        answers: Seq<(usize, V)>,
        cards: Seq<(Seq<char>, Seq<char>)>,
    ) -> PlanView {
        let open = kept_seats(seats, |i: usize| !has_key(answers, i));
        let ais = kept_seats(open, |i: usize| self.players[i as int].is_ai);
        let humans = kept_seats(
            open,
            |i: usize|
                !self.players[i as int].is_ai && !has_key(cards, self.players[i as int].open_id),
        );
        PlanView {
            humans,
            ais,
            next: if open.len() == 0 {
                Next::Settle
            } else if ais.len() > 0 {
                Next::Again
            } else {
                Next::Wait
            },
        }
    }

    /// The human wolves alive.
    pub open spec fn human_wolves(self) -> Seq<usize> {
        kept_seats(self.wolf_seats(), |i: usize| !self.players[i as int].is_ai)
    }

    /// The AI wolves alive.
    pub open spec fn ai_wolves(self) -> Seq<usize> {
        kept_seats(self.wolf_seats(), |i: usize| self.players[i as int].is_ai)
    }

    /// The wolves' step. AI wolves among themselves pick, and the step closes. With a
    /// human among them the humans come first: they are handed their cards, and while one
    /// has not confirmed, the AIs wait.
    pub open spec fn wolves_plan(self) -> PlanView {
        let humans = self.human_wolves();
        if humans.len() == 0 {
            PlanView {
                humans,
                ais: kept_seats(
                    self.wolf_seats(),
                    |i: usize| !has_key(self.wolf_kill_votes, i),
                ),
                next: Next::Settle,
            }
        } else if kept_seats(humans, |i: usize| !self.wolf_ready.contains(i)).len() > 0 {
            PlanView { humans, ais: Seq::empty(), next: Next::Wait }
        } else {
            let ais = kept_seats(self.ai_wolves(), |i: usize| !self.wolf_ready.contains(i));
            PlanView {
                humans,
                ais,
                next: if ais.len() > 0 {
                    Next::Again
                } else {
                    Next::Settle
                },
            }
        }
    }

    /// The guard's step, which is left out when the guard is dead.
    pub open spec fn guard_plan(self) -> PlanView {
        match self.role_seat(Role::Guard) {
            None => self.idle(),
            Some(i) => if !self.players[i as int].alive {
                self.closing()
            } else {
                self.turn(i)
            },
        }
    }

    /// What happens next.
    pub open spec fn plan(self) -> PlanView {
        match self.stage {
            Stage::Lobby => self.idle(),
            Stage::Ended => self.idle(),
            Stage::GuardPick => self.guard_plan(),
            Stage::WolvesPick => self.wolves_plan(),
            Stage::SeerPick => self.turn_or_wait(self.role_seat(Role::Seer)),
            Stage::WitchAct => self.turn_or_wait(self.role_seat(Role::Witch)),
            Stage::DayReveal => self.closing(),
            Stage::SheriffNominate => self.round(
                self.eligible_seats(),
                self.sheriff_nominations,
                self.sheriff_nominate_msgs,
            ),
            Stage::SheriffSpeech => self.turn_or_close(self.sheriff_speaker()),
            Stage::SheriffWithdraw => self.turn_or_close(self.withdrawer()),
            Stage::SheriffVote => self.round(
                self.elector_seats(),
                self.sheriff_votes,
                self.sheriff_vote_msgs,
            ),
            Stage::SheriffPickDirection => self.turn_or_wait(self.sheriff_idx),
            Stage::DaySpeech => self.turn_or_close(self.day_speaker()),
            Stage::DayVote => self.round(self.voter_seats(), self.day_votes, self.day_vote_msgs),
            Stage::LastWords => self.turn_or_close(self.last_words_speaker()),
            Stage::HunterShoot => self.turn_or_wait(self.pending_hunter),
            Stage::BadgePass => self.turn_or_wait(self.pending_badge),
        }
    }
}

/// What is kept of seats lies among them.
pub proof fn lemma_kept_seats(seats: Seq<usize>, keep: spec_fn(usize) -> bool)
    ensures
        forall|x: usize| #[trigger] kept_seats(seats, keep).contains(x) <==> (seats.contains(x)
            && keep(x)),
        kept_seats(seats, keep).len() <= seats.len(),
    decreases seats.len(),
{
    let t = kept_seats(seats, keep);
    if seats.len() > 0 {
        let s = seats.drop_last();
        let u = kept_seats(s, keep);
        lemma_kept_seats(s, keep);
        assert forall|x: usize| #[trigger] t.contains(x) <==> (seats.contains(x) && keep(x)) by {
            if t.contains(x) {
                let i = choose|i: int| 0 <= i < t.len() && t[i] == x;
                if i < u.len() {
                    assert(u[i] == x);
                    assert(u.contains(x));
                    let j = choose|j: int| 0 <= j < s.len() && s[j] == x;
                    assert(seats[j] == x);
                } else {
                    assert(seats[seats.len() - 1] == x);
                }
            }
            if seats.contains(x) && keep(x) {
                let j = choose|j: int| 0 <= j < seats.len() && seats[j] == x;
                if j < s.len() {
                    assert(s[j] == x);
                    assert(s.contains(x));
                    assert(u.contains(x));
                    let i = choose|i: int| 0 <= i < u.len() && u[i] == x;
                    assert(t[i] == x);
                } else {
                    assert(t[t.len() - 1] == x);
                }
            }
        }
    }
}

/// What is kept of seats of the table are seats of the table.
pub proof fn lemma_kept_ok(seats: Seq<usize>, keep: spec_fn(usize) -> bool, n: nat)
    requires
        seats_ok(seats, n),
    ensures
        seats_ok(kept_seats(seats, keep), n),
{
    lemma_kept_seats(seats, keep);
    let t = kept_seats(seats, keep);
    assert forall|i: int| 0 <= i < t.len() implies #[trigger] t[i] < n by {
        assert(t.contains(t[i]));
        let j = choose|j: int| 0 <= j < seats.len() && seats[j] == t[i];
        assert(seats[j] < n);
    }
}

fn no_seats() -> (r: Vec<usize>)
    ensures
        r@ == Seq::<usize>::empty(),
{
    Vec::new()
}

fn one_seat(i: usize) -> (r: Vec<usize>)
    ensures
        r@ == seq![i],
{
    let mut r: Vec<usize> = Vec::new();
    r.push(i);
    assert(r@ =~= seq![i]);
    r
}

/// The seats without an entry.
fn without_entry<V>(seats: &Vec<usize>, entries: &Vec<(usize, V)>) -> (r: Vec<usize>)
    ensures
        r@ == kept_seats(seats@, |i: usize| !has_key(entries@, i)),
{
    let ghost keep = |i: usize| !has_key(entries@, i);
    let ghost f = |i: usize| i;
    let mut r: Vec<usize> = Vec::new();
    let mut i: usize = 0;
    proof {
        lemma_take_ends(seats@);
    }
    while i < seats.len()
        invariant
            i <= seats.len(),
            keep == (|i: usize| !has_key(entries@, i)),
            f == (|i: usize| i),
            r@ == pick(seats@.take(i as int), keep, f),
        decreases seats.len() - i,
    {
        proof {
            lemma_pick_step(seats@, keep, f, i as int);
        }
        let seat: usize = seats[i];
        let open = find_key(entries, seat) >= entries.len();
        assert(open == keep(seat));
        if open {
            r.push(seat);
        }
        i = i + 1;
    }
    proof {
        lemma_take_ends(seats@);
    }
    r
}

/// The seats of AIs, or those of humans.
fn of_kind(game: &WolfGame, seats: &Vec<usize>, ai: bool) -> (r: Vec<usize>)
    requires
        seats_ok(seats@, game@.players.len()),
    ensures
        r@ == kept_seats(seats@, |i: usize| game@.players[i as int].is_ai == ai),
{
    let ghost keep = |i: usize| game@.players[i as int].is_ai == ai;
    let ghost f = |i: usize| i;
    let mut r: Vec<usize> = Vec::new();
    let mut i: usize = 0;
    proof {
        lemma_take_ends(seats@);
    }
    while i < seats.len()
        invariant
            i <= seats.len(),
            seats_ok(seats@, game@.players.len()),
            keep == (|i: usize| game@.players[i as int].is_ai == ai),
            f == (|i: usize| i),
            r@ == pick(seats@.take(i as int), keep, f),
        decreases seats.len() - i,
    {
        proof {
            lemma_pick_step(seats@, keep, f, i as int);
            assert(seats@[i as int] < game@.players.len());
        }
        let seat: usize = seats[i];
        let kept = game.players[seat].is_ai == ai;
        assert(kept == keep(seat));
        if kept {
            r.push(seat);
        }
        i = i + 1;
    }
    proof {
        lemma_take_ends(seats@);
    }
    r
}

/// The human seats that were not handed a card.
fn without_card(game: &WolfGame, seats: &Vec<usize>, cards: &Vec<(String, String)>) -> (r: Vec<
    usize,
>)
    requires
        seats_ok(seats@, game@.players.len()),
    ensures
        r@ == kept_seats(
            seats@,
            |i: usize|
                !game@.players[i as int].is_ai && !has_key(
                    cards.deep_view(),
                    game@.players[i as int].open_id,
                ),
        ),
{
    let ghost keep = |i: usize|
        !game@.players[i as int].is_ai && !has_key(
            cards.deep_view(),
            game@.players[i as int].open_id,
        );
    let ghost f = |i: usize| i;
    let mut r: Vec<usize> = Vec::new();
    let mut i: usize = 0;
    proof {
        lemma_take_ends(seats@);
    }
    while i < seats.len()
        invariant
            i <= seats.len(),
            seats_ok(seats@, game@.players.len()),
            keep == (|i: usize|
                !game@.players[i as int].is_ai && !has_key(
                    cards.deep_view(),
                    game@.players[i as int].open_id,
                )),
            f == (|i: usize| i),
            r@ == pick(seats@.take(i as int), keep, f),
        decreases seats.len() - i,
    {
        proof {
            lemma_pick_step(seats@, keep, f, i as int);
            assert(seats@[i as int] < game@.players.len());
        }
        let seat: usize = seats[i];
        let kept = !game.players[seat].is_ai && find_name(
            cards,
            game.players[seat].open_id.as_str(),
        ) >= cards.len();
        assert(kept == keep(seat));
        if kept {
            r.push(seat);
        }
        i = i + 1;
    }
    proof {
        lemma_take_ends(seats@);
    }
    r
}

/// The wolves that have not confirmed.
fn unready(game: &WolfGame, seats: &Vec<usize>) -> (r: Vec<usize>)
    ensures
        r@ == kept_seats(seats@, |i: usize| !game@.wolf_ready.contains(i)),
{
    let ghost keep = |i: usize| !game@.wolf_ready.contains(i);
    let ghost f = |i: usize| i;
    let mut r: Vec<usize> = Vec::new();
    let mut i: usize = 0;
    proof {
        lemma_take_ends(seats@);
    }
    while i < seats.len()
        invariant
            i <= seats.len(),
            keep == (|i: usize| !game@.wolf_ready.contains(i)),
            f == (|i: usize| i),
            r@ == pick(seats@.take(i as int), keep, f),
        decreases seats.len() - i,
    {
        proof {
            lemma_pick_step(seats@, keep, f, i as int);
        }
        let seat: usize = seats[i];
        let kept = !game.is_wolf_ready(seat);
        assert(kept == keep(seat));
        if kept {
            r.push(seat);
        }
        i = i + 1;
    }
    proof {
        lemma_take_ends(seats@);
    }
    r
}

impl WolfGame {
    fn plan_idle(&self) -> (r: Plan)
        ensures
            r@ == self@.idle(),
    {
        Plan { humans: no_seats(), ais: no_seats(), next: Next::Wait }
    }

    fn plan_closing(&self) -> (r: Plan)
        ensures
            r@ == self@.closing(),
    {
        Plan { humans: no_seats(), ais: no_seats(), next: Next::Settle }
    }

    fn plan_turn(&self, i: usize) -> (r: Plan)
        requires
            i < self@.players.len(),
        ensures
            r@ == self@.turn(i),
    {
        if self.players[i].is_ai {
            Plan { humans: no_seats(), ais: one_seat(i), next: Next::Again }
        } else {
            Plan { humans: one_seat(i), ais: no_seats(), next: Next::Wait }
        }
    }

    fn plan_turn_or_wait(&self, who: Option<usize>) -> (r: Plan)
        requires
            seat_ok(who, self@.players.len()),
        ensures
            r@ == self@.turn_or_wait(who),
    {
        match who {
            Some(i) => self.plan_turn(i),
            None => self.plan_idle(),
        }
    }

    fn plan_turn_or_close(&self, who: Option<usize>) -> (r: Plan)
        requires
            seat_ok(who, self@.players.len()),
        ensures
            r@ == self@.turn_or_close(who),
    {
        match who {
            Some(i) => self.plan_turn(i),
            None => self.plan_closing(),
        }
    }

    fn plan_round<V>(
        &self,
        seats: &Vec<usize>,
        answers: &Vec<(usize, V)>,
        cards: &Vec<(String, String)>,
    ) -> (r: Plan)
        requires
            seats_ok(seats@, self@.players.len()),
        ensures
            r@ == self@.round(seats@, answers@, cards.deep_view()),
    {
        let open = without_entry(seats, answers);
        proof {
            lemma_kept_ok(
                seats@,
                |i: usize| !has_key(answers@, i),
                self@.players.len(),
            );
        }
        let ais = of_kind(self, &open, true);
        assert((|i: usize| self@.players[i as int].is_ai == true) =~= (|i: usize|
            self@.players[i as int].is_ai));
        let humans = without_card(self, &open, cards);
        let next = if open.len() == 0 {
            Next::Settle
        } else if ais.len() > 0 {
            Next::Again
        } else {
            Next::Wait
        };
        Plan { humans, ais, next }
    }

    /// The human wolves alive.
    pub fn list_human_wolves(&self) -> (r: Vec<usize>)
        ensures
            r@ == self@.human_wolves(),
    {
        let n: usize = self.players.len();
        let wolves = self.alive_wolves();
        proof {
            lemma_indices_ok(n as nat, self@.living_wolf());
        }
        let r = of_kind(self, &wolves, false);
        assert((|i: usize| self@.players[i as int].is_ai == false) =~= (|i: usize|
            !self@.players[i as int].is_ai));
        r
    }

    fn plan_wolves(&self) -> (r: Plan)
        ensures
            r@ == self@.wolves_plan(),
    {
        let n: usize = self.players.len();
        let wolves = self.alive_wolves();
        proof {
            lemma_indices_ok(n as nat, self@.living_wolf());
        }
        let humans = self.list_human_wolves();
        if humans.len() == 0 {
            return Plan {
                humans,
                ais: without_entry(&wolves, &self.wolf_kill_votes),
                next: Next::Settle,
            };
        }
        if unready(self, &humans).len() > 0 {
            return Plan { humans, ais: no_seats(), next: Next::Wait };
        }
        let all = of_kind(self, &wolves, true);
        assert((|i: usize| self@.players[i as int].is_ai == true) =~= (|i: usize|
            self@.players[i as int].is_ai));
        let ais = unready(self, &all);
        let next = if ais.len() > 0 {
            Next::Again
        } else {
            Next::Settle
        };
        Plan { humans, ais, next }
    }

    /// What happens next.
    pub fn plan(&self) -> (r: Plan)
        requires
            self@.wf(),
        ensures
            r@ == self@.plan(),
    {
        let n: usize = self.players.len();
        match self.stage {
            Stage::Lobby => self.plan_idle(),
            Stage::Ended => self.plan_idle(),
            Stage::GuardPick => match self.role_idx(Role::Guard) {
                None => self.plan_idle(),
                Some(i) => if !self.players[i].alive {
                    self.plan_closing()
                } else {
                    self.plan_turn(i)
                },
            },
            Stage::WolvesPick => self.plan_wolves(),
            Stage::SeerPick => self.plan_turn_or_wait(self.role_idx(Role::Seer)),
            Stage::WitchAct => self.plan_turn_or_wait(self.role_idx(Role::Witch)),
            Stage::DayReveal => self.plan_closing(),
            Stage::SheriffNominate => {
                let seats = self.sheriff_eligible_indices();
                proof {
                    lemma_indices_ok(n as nat, self@.eligible());
                }
                self.plan_round(&seats, &self.sheriff_nominations, &self.sheriff_nominate_msgs)
            },
            Stage::SheriffSpeech => {
                assert(seat_ok(self@.sheriff_speaker(), n as nat));
                self.plan_turn_or_close(self.current_sheriff_speaker())
            },
            Stage::SheriffWithdraw => {
                assert(seat_ok(self@.withdrawer(), n as nat)) by {
                    crate::seqs::lemma_first_from(
                        0,
                        self@.sheriff_original_candidates.len() as int,
                        self@.undecided(),
                    );
                }
                self.plan_turn_or_close(self.current_sheriff_withdrawer())
            },
            Stage::SheriffVote => {
                let seats = self.sheriff_voters();
                proof {
                    lemma_indices_ok(n as nat, self@.elects());
                }
                self.plan_round(&seats, &self.sheriff_votes.votes, &self.sheriff_vote_msgs)
            },
            Stage::SheriffPickDirection => self.plan_turn_or_wait(self.sheriff_idx),
            Stage::DaySpeech => {
                assert(seat_ok(self@.day_speaker(), n as nat));
                self.plan_turn_or_close(self.current_day_speaker())
            },
            Stage::DayVote => {
                let seats = self.day_voters();
                proof {
                    lemma_indices_ok(n as nat, self@.votes());
                }
                self.plan_round(&seats, &self.day_votes.votes, &self.day_vote_msgs)
            },
            Stage::LastWords => {
                assert(seat_ok(self@.last_words_speaker(), n as nat));
                self.plan_turn_or_close(self.current_last_words_speaker())
            },
            Stage::HunterShoot => self.plan_turn_or_wait(self.pending_hunter),
            Stage::BadgePass => self.plan_turn_or_wait(self.pending_badge),
        }
    }
}

} // verus!
