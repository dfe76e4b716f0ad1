//! How an AI is asked: what, how often, and what happens if it gives no legal answer.

use vstd::prelude::*;
use crate::json::{Json, JsonView};
use crate::seqs::{first_where, holds};
use crate::werewolf::actions::{ActionView, Outcome};
use crate::werewolf::answers::{goes_as, Answer, AnswerView, MAX_ATTEMPTS};
use crate::werewolf::day_cards::build_sheriff_direction_announce;
use crate::werewolf::flow::lemma_some_start;
use crate::werewolf::cards::lemma_indices_ok;
use crate::werewolf::llm::{AttemptHistory, WitchDecision};
use crate::werewolf::plan::{kept_seats, lemma_kept_seats};
use crate::werewolf::settle::model_of;
use crate::werewolf::state::{GameView, WolfGame};
use crate::werewolf::table::seats_ok;
use crate::werewolf::types::{Role, Stage, ThinkingKind};
use crate::werewolf::vote_cards::{build_badge_announce_card, build_hunter_announce_card};

verus! {

/// What an AI is asked.
#[derive(Debug, Clone, Copy, PartialEq, Eq, Structural)]
pub enum Question {
    Guard,
    /// Whom to attack, and what to say to the fellows if humans are among them.
    Wolf { speak: bool },
    Seer,
    Witch,
    Run,
    SheriffSpeech,
    Stay,
    Elect,
    Direction,
    DaySpeech,
    Vote,
    LastWords,
    /// Last words and whom to shoot, at once.
    Dying,
    Shoot,
    Badge,
}

impl GameView {
    /// What the AI in a seat is asked.
    pub open spec fn question(self, seat: usize) -> Option<Question> {
        match self.stage {
            Stage::GuardPick => Some(Question::Guard),
            Stage::WolvesPick => Some(
                Question::Wolf { speak: self.human_wolves().len() > 0 },
            ),
            Stage::SeerPick => Some(Question::Seer),
            Stage::WitchAct => Some(Question::Witch),
            Stage::SheriffNominate => Some(Question::Run),
            Stage::SheriffSpeech => Some(Question::SheriffSpeech),
            Stage::SheriffWithdraw => Some(Question::Stay),
            Stage::SheriffVote => Some(Question::Elect),
            Stage::SheriffPickDirection => Some(Question::Direction),
            Stage::DaySpeech => Some(Question::DaySpeech),
            Stage::DayVote => Some(Question::Vote),
            Stage::LastWords => Some(
                if self.pending_hunter == Some(seat) {
                    Question::Dying
                } else {
                    Question::LastWords
                },
            ),
            Stage::HunterShoot => Some(Question::Shoot),
            Stage::BadgePass => Some(Question::Badge),
            _ => None,
        }
    }

    /// The answer of an AI without a model behind it.
    pub open spec fn plain_answer(self, seat: usize, q: Question) -> AnswerView {
        match q {
            Question::Guard => AnswerView::Guard(
                if self.last_guard_target != Some(seat) {
                    seat
                } else {
                    match first_where(self.players.len(), self.guardable()) {
                        Some(t) => t,
                        None => seat,
                    }
                },
            ),
            Question::Wolf { .. } => AnswerView::Wolf {
                target: match first_where(self.players.len(), self.prey()) {
                    Some(t) => t,
                    None => 0,
                },
                chat: None,
            },
            Question::Seer => AnswerView::Seer(
                match first_where(self.players.len(), self.living_besides(seat)) {
                    Some(t) => t,
                    None => 0,
                },
            ),
            Question::Witch => AnswerView::Witch(WitchDecision::Skip),
            Question::Run => AnswerView::Run(self.seat_is(seat, Role::Seer)),
            Question::SheriffSpeech => AnswerView::SheriffSpeech("我支持公平选举。"@),
            Question::Stay => AnswerView::Stay(true),
            Question::Elect => AnswerView::Elect(
                if self.candidates().len() > 0 {
                    Some(self.candidates()[0])
                } else {
                    None
                },
            ),
            Question::Direction => AnswerView::Direction(true),
            Question::DaySpeech => AnswerView::DaySpeech(Seq::empty()),
            Question::Vote => AnswerView::Vote(None),
            Question::LastWords => AnswerView::LastWords(Seq::empty()),
            Question::Dying => AnswerView::Dying { speech: Seq::empty(), target: None },
            Question::Shoot => AnswerView::Shoot(None),
            Question::Badge => AnswerView::Badge(None),
        }
    }

    /// The shot that a dying AI has decided on along with its last words.
    pub open spec fn foregone(self, seat: usize) -> Option<AnswerView> {
        if self.stage == Stage::HunterShoot && self.pending_hunter == Some(seat) {
            match self.pending_hunter_ai_decision {
                Some(t) => Some(AnswerView::Shoot(t)),
                None => None,
            }
        } else {
            None
        }
    }

    /// What everybody is told of an answer that led to this table.
    pub open spec fn answer_announced(self, who: Seq<char>, a: AnswerView, out: Outcome) -> Option<
        JsonView,
    > {
        match a {
            AnswerView::Direction(up) => self.announced(who, ActionView::Direction(up), out),
            AnswerView::Shoot(_) => self.announced(who, ActionView::Shoot(None), out),
            AnswerView::Badge(_) => self.announced(who, ActionView::Badge(None), out),
            _ => None,
        }
    }
}

/// Under which head a private thought is noted.
pub open spec fn thought_kind(q: Question) -> Option<ThinkingKind> {
    match q {
        Question::Guard => Some(ThinkingKind::GuardPick),
        Question::Wolf { .. } => Some(ThinkingKind::WolfPick),
        Question::Seer => Some(ThinkingKind::SeerCheck),
        Question::Witch => Some(ThinkingKind::WitchAct),
        Question::Run => Some(ThinkingKind::SheriffRun),
        Question::SheriffSpeech => Some(ThinkingKind::SheriffSpeech),
        Question::Stay => None,
        Question::Elect => Some(ThinkingKind::SheriffVote),
        Question::Direction => Some(ThinkingKind::SheriffDirection),
        Question::DaySpeech => Some(ThinkingKind::DaySpeech),
        Question::Vote => Some(ThinkingKind::DayVote),
        Question::LastWords => Some(ThinkingKind::LastWords),
        Question::Dying => Some(ThinkingKind::DyingShoot),
        Question::Shoot => Some(ThinkingKind::HunterShoot),
        Question::Badge => Some(ThinkingKind::BadgePass),
    }
}

impl GameView {
    /// The table with the thought behind an answer noted. What a dying player thought is
    /// noted only if they name nobody or somebody whom they may shoot at.
    pub open spec fn thought_noted(
        self,
        player: usize,
        q: Question,
        a: AnswerView,
        thinking: Option<Seq<char>>,
    ) -> GameView {
        if a matches AnswerView::Dying { target: Some(t), .. } && !self.may_hit(player, t) {
            self
        } else {
            match (thought_kind(q), thinking) {
                (Some(k), Some(t)) => self.with_thought(player, k, t),
                _ => self,
            }
        }
    }
}

/// What has become of an answer.
#[derive(Debug, Clone, Copy, PartialEq, Eq, Structural)]
pub enum Verdict {
    /// The AI is no longer asked; nothing has happened.
    Stale,
    /// The answer was accepted.
    Done,
    /// The answer was refused; the AI is asked again.
    Retry,
    /// The answer was refused once too often; something was decided for the AI.
    GaveUp,
}

/// What has become of an answer.
#[derive(Debug)]
pub struct Attempt {
    pub verdict: Verdict,
    /// A card for everybody.
    pub announce: Option<Json>,
}

/// What becomes of an answer: the table, the verdict, the card for everybody, and the
/// reason for which it is refused, if the AI is to hear it.
pub struct AttemptView {
    pub table: GameView,
    pub verdict: Verdict,
    pub announce: Option<JsonView>,
    pub reason: Option<Seq<char>>,
}

impl GameView {
    /// What becomes of an answer after `earlier` refused ones.
    pub open spec fn attempted(self, seat: usize, a: AnswerView, earlier: nat, start: usize)
        -> AttemptView {
        if !self.plan().ais.contains(seat) {
            AttemptView { table: self, verdict: Verdict::Stale, announce: None, reason: None }
        } else {
            match self.answered(seat, a, start) {
                Ok(p) => AttemptView {
                    table: p.0,
                    verdict: Verdict::Done,
                    announce: p.0.answer_announced(self.id_at(seat), a, p.1),
                    reason: None,
                },
                Err(reason) => if a.retried() && earlier + 1 < MAX_ATTEMPTS {
                    AttemptView {
                        table: self,
                        verdict: Verdict::Retry,
                        announce: None,
                        reason: Some(reason),
                    }
                } else {
                    let p = self.given_up(seat, a, start);
                    AttemptView {
                        table: p.0,
                        verdict: Verdict::GaveUp,
                        announce: p.0.answer_announced(self.id_at(seat), a, p.1),
                        reason: Some(reason),
                    }
                },
            }
        }
    }
}

impl GameView {
    /// What becomes of the answer that the AI in a seat has decided on before it is asked. A
    /// refused one counts for nothing: the AI is asked as though it had decided on none.
    pub open spec fn foregone_attempted(self, seat: usize, start: usize) -> Option<AttemptView> {
        match self.foregone(seat) {
            Some(a) => {
                let rule = self.attempted(seat, a, 0, start);
                if rule.verdict == Verdict::Done {
                    Some(rule)
                } else {
                    None
                }
            },
            None => None,
        }
    }
}

/// The refused answers with one more.
pub open spec fn recorded(
    history: Seq<(Seq<char>, Seq<char>)>,
    a: AnswerView,
    reason: Option<Seq<char>>,
) -> Seq<(Seq<char>, Seq<char>)> {
    match reason {
        Some(r) => history.push((a.repr(), r)),
        None => history,
    }
}

impl Question {
    /// Under which head a private thought is noted.
    pub fn thinking_kind(self) -> (r: Option<ThinkingKind>)
        ensures
            r == thought_kind(self),
    {
        match self {
            Question::Guard => Some(ThinkingKind::GuardPick),
            Question::Wolf { .. } => Some(ThinkingKind::WolfPick),
            Question::Seer => Some(ThinkingKind::SeerCheck),
            Question::Witch => Some(ThinkingKind::WitchAct),
            Question::Run => Some(ThinkingKind::SheriffRun),
            Question::SheriffSpeech => Some(ThinkingKind::SheriffSpeech),
            Question::Stay => None,
            Question::Elect => Some(ThinkingKind::SheriffVote),
            Question::Direction => Some(ThinkingKind::SheriffDirection),
            Question::DaySpeech => Some(ThinkingKind::DaySpeech),
            Question::Vote => Some(ThinkingKind::DayVote),
            Question::LastWords => Some(ThinkingKind::LastWords),
            Question::Dying => Some(ThinkingKind::DyingShoot),
            Question::Shoot => Some(ThinkingKind::HunterShoot),
            Question::Badge => Some(ThinkingKind::BadgePass),
        }
    }
}

impl WolfGame {
    /// What the AI in a seat is asked.
    pub fn question(&self, seat: usize) -> (r: Option<Question>)
        ensures
            r == self@.question(seat),
    {
        match self.stage {
            Stage::GuardPick => Some(Question::Guard),
            Stage::WolvesPick => Some(
                Question::Wolf { speak: self.list_human_wolves().len() > 0 },
            ),
            Stage::SeerPick => Some(Question::Seer),
            Stage::WitchAct => Some(Question::Witch),
            Stage::SheriffNominate => Some(Question::Run),
            Stage::SheriffSpeech => Some(Question::SheriffSpeech),
            Stage::SheriffWithdraw => Some(Question::Stay),
            Stage::SheriffVote => Some(Question::Elect),
            Stage::SheriffPickDirection => Some(Question::Direction),
            Stage::DaySpeech => Some(Question::DaySpeech),
            Stage::DayVote => Some(Question::Vote),
            Stage::LastWords => Some(
                if self.pending_hunter == Some(seat) {
                    Question::Dying
                } else {
                    Question::LastWords
                },
            ),
            Stage::HunterShoot => Some(Question::Shoot),
            Stage::BadgePass => Some(Question::Badge),
            _ => None,
        }
    }

    /// The answer of an AI without a model behind it.
    pub fn plain_answer(&self, seat: usize, q: Question) -> (r: Answer)
        ensures
            r.deep_view() == self@.plain_answer(seat, q),
    {
        match q {
            Question::Guard => Answer::Guard(
                if self.last_guard_target != Some(seat) {
                    seat
                } else {
                    match self.first_guardable() {
                        Some(t) => t,
                        None => seat,
                    }
                },
            ),
            Question::Wolf { .. } => Answer::Wolf {
                target: match self.first_prey() {
                    Some(t) => t,
                    None => 0,
                },
                chat: None,
            },
            Question::Seer => Answer::Seer(
                match self.first_besides(seat) {
                    Some(t) => t,
                    None => 0,
                },
            ),
            Question::Witch => Answer::Witch(WitchDecision::Skip),
            Question::Run => Answer::Run(self.is_seer(seat)),
            Question::SheriffSpeech => Answer::SheriffSpeech("我支持公平选举。".to_owned()),
            Question::Stay => Answer::Stay(true),
            Question::Elect => {
                let candidates = self.sheriff_candidates();
                Answer::Elect(
                    if candidates.len() > 0 {
                        Some(candidates[0])
                    } else {
                        None
                    },
                )
            },
            Question::Direction => Answer::Direction(true),
            Question::DaySpeech => Answer::DaySpeech(String::new()),
            Question::Vote => Answer::Vote(None),
            Question::LastWords => Answer::LastWords(String::new()),
            Question::Dying => Answer::Dying { speech: String::new(), target: None },
            Question::Shoot => Answer::Shoot(None),
            Question::Badge => Answer::Badge(None),
        }
    }

    /// The shot that a dying AI has decided on along with its last words.
    pub fn foregone(&self, seat: usize) -> (r: Option<Answer>)
        ensures
            match r {
                Some(a) => self@.foregone(seat) == Some(a.deep_view()),
                None => self@.foregone(seat) is None,
            },
    {
        if self.stage == Stage::HunterShoot && self.pending_hunter == Some(seat) {
            match self.pending_hunter_ai_decision {
                Some(t) => Some(Answer::Shoot(t)),
                None => None,
            }
        } else {
            None
        }
    }

    /// Notes the private thought behind an answer of an AI, if it had one.
    pub fn save_thinking(
        &mut self,
        player: usize,
        q: Question,
        answer: &Answer,
        thinking: Option<String>,
    )
        ensures
            final(self)@ == old(self)@.thought_noted(
                player,
                q,
                answer.deep_view(),
                thinking.deep_view(),
            ),
    {
        if let Answer::Dying { target: Some(t), .. } = answer {
            if !(*t < self.players.len() && self.players[*t].alive && *t != player) {
                return;
            }
        }
        if let Some(kind) = q.thinking_kind() {
            if let Some(t) = thinking {
                self.push_thinking(player, kind, t);
            }
        }
    }

    fn announce_answer(&self, id: &str, answer: &Answer, out: Outcome) -> (r: Option<Json>)
        ensures
            model_of(r) == self@.answer_announced(id@, answer.deep_view(), out),
    {
        match answer {
            Answer::Direction(up) => match self.at_seat(self.sheriff_idx) {
                Some(p) => Some(build_sheriff_direction_announce(self, p, *up)),
                None => None,
            },
            Answer::Shoot(_) => match self.at_seat(self.find_player(id)) {
                Some(p) => Some(build_hunter_announce_card(p, self.at_seat(out.seat()))),
                None => None,
            },
            Answer::Badge(_) => match self.at_seat(self.find_player(id)) {
                Some(p) => Some(build_badge_announce_card(p, self.at_seat(out.seat()))),
                None => None,
            },
            _ => None,
        }
    }

    fn guard_gives_up(&mut self, seat: usize)
        requires
            old(self)@.wf(),
            old(self)@.in_play(),
            seat < old(self)@.players.len(),
        ensures
            final(self)@.wf(),
            final(self)@ == old(self)@.guard_gives_up(seat),
    {
        let id = self.players[seat].open_id.clone();
        let mut done = false;
        if let Some(t) = self.first_guardable() {
            let target = self.players[t].open_id.clone();
            done = self.guard_pick(id.as_str(), target.as_str()).is_ok();
        }
        if !done {
            self.stage = Stage::WolvesPick;
        }
    }

    fn wolf_gives_up(&mut self, seat: usize)
        requires
            old(self)@.wf(),
            seat < old(self)@.players.len(),
        ensures
            final(self)@.wf(),
            final(self)@ == old(self)@.wolf_gives_up(seat),
    {
        if self.list_human_wolves().len() == 0 {
            return;
        }
        let id = self.players[seat].open_id.clone();
        let prey = match self.first_prey() {
            Some(t) => Some(t),
            None => self.first_alive(),
        };
        if let Some(t) = prey {
            let target = self.players[t].open_id.clone();
            let picked = self.wolf_pick(id.as_str(), target.as_str());
        }
        let ready = self.wolf_mark_ready(id.as_str());
    }

    fn seer_gives_up(&mut self, seat: usize)
        requires
            old(self)@.wf(),
            seat < old(self)@.players.len(),
        ensures
            final(self)@.wf(),
            final(self)@ == old(self)@.seer_gives_up(seat),
    {
        let id = self.players[seat].open_id.clone();
        if let Some(t) = self.first_besides(seat) {
            let target = self.players[t].open_id.clone();
            let checked = self.seer_check(id.as_str(), target.as_str());
        }
    }

    /// Decides for an AI that has given no legal answer.
    pub fn give_up(&mut self, seat: usize, answer: &Answer) -> (r: Outcome)
        requires
            old(self)@.wf(),
            old(self)@.in_play(),
            old(self).day < u32::MAX,
            seat < old(self)@.players.len(),
        ensures
            final(self)@.wf(),
            exists|start: usize|
                final(self)@.may_start(start) && (final(self)@, r) == #[trigger] old(
                    self,
                )@.given_up(seat, answer.deep_view(), start),
    {
        let ghost g = self@;
        let ghost a = answer.deep_view();
        match answer {
            Answer::Guard(_) => {
                self.guard_gives_up(seat);
            },
            Answer::Wolf { .. } => {
                self.wolf_gives_up(seat);
            },
            Answer::Seer(_) => {
                self.seer_gives_up(seat);
            },
            _ => {
                if let Some(b) = answer.stand_in() {
                    let tried = self.try_answer(seat, &b);
                    let ghost start = choose|start: usize|
                        self@.may_start(start) && goes_as(
                            tried,
                            g,
                            self@,
                            #[trigger] g.answered(seat, b.deep_view(), start),
                        );
                    let out = match tried {
                        Ok(out) => out,
                        Err(_) => Outcome::Nothing,
                    };
                    assert((self@, out) == g.given_up(seat, a, start));
                    return out;
                }
            },
        }
        proof {
            let start = lemma_some_start(self@);
            assert((self@, Outcome::Nothing) == g.given_up(seat, a, start));
        }
        Outcome::Nothing
    }
}

impl WolfGame {
    /// Hands in an answer of the AI in a seat. A refused one is noted with the reason, for
    /// the AI to hear; once it has been refused too often, something is decided for it.
    pub fn attempt(&mut self, seat: usize, answer: &Answer, history: &mut AttemptHistory) -> (r:
        Attempt)
        requires
            old(self)@.wf(),
            old(self).day < u32::MAX,
            answer.deep_view().poisons_seat(old(self)@.players.len()),
        ensures
            final(self)@.wf(),
            exists|start: usize|
                final(self)@.may_start(start) && ({
                    let rule = #[trigger] old(self)@.attempted(
                        seat,
                        answer.deep_view(),
                        old(history)@.len(),
                        start,
                    );
                    &&& final(self)@ == rule.table
                    &&& r.verdict == rule.verdict
                    &&& model_of(r.announce) == rule.announce
                    &&& final(history).deep_view() == recorded(
                        old(history).deep_view(),
                        answer.deep_view(),
                        rule.reason,
                    )
                }),
    {
        let ghost g = self@;
        let ghost a = answer.deep_view();
        let ghost n = history@.len();
        let ghost told = history.deep_view();
        let plan = self.plan();
        if !holds(&plan.ais, seat) {
            proof {
                let start = lemma_some_start(g);
                assert(g.attempted(seat, a, n, start).table == g);
            }
            return Attempt { verdict: Verdict::Stale, announce: None };
        }
        proof {
            lemma_asked(g, seat);
        }
        let id = self.players[seat].open_id.clone();
        let tried = self.try_answer(seat, answer);
        let ghost start = choose|start: usize|
            self@.may_start(start) && goes_as(
                tried,
                g,
                self@,
                #[trigger] g.answered(seat, a, start),
            );
        match tried {
            Ok(out) => {
                let announce = self.announce_answer(id.as_str(), answer, out);
                assert(g.attempted(seat, a, n, start).table == self@);
                Attempt { verdict: Verdict::Done, announce }
            },
            Err(reason) => {
                let again = answer.retried() && history.len() < MAX_ATTEMPTS - 1;
                let ghost why = reason@;
                history.push((answer.repr(), reason));
                assert(history.deep_view() =~= told.push((a.repr(), why)));
                if again {
                    assert(g.attempted(seat, a, n, start).table == self@);
                    return Attempt { verdict: Verdict::Retry, announce: None };
                }
                let out = self.give_up(seat, answer);
                let ghost second = choose|start: usize|
                    self@.may_start(start) && (self@, out) == #[trigger] g.given_up(
                        seat,
                        a,
                        start,
                    );
                proof {
                    lemma_refused_alike(g, seat, a, start, second);
                }
                let announce = self.announce_answer(id.as_str(), answer, out);
                assert(g.attempted(seat, a, n, second).table == self@);
                Attempt { verdict: Verdict::GaveUp, announce }
            },
        }
    }
}

impl WolfGame {
    /// Hands in the answer that the AI in a seat has decided on before it is asked. Nothing
    /// happens if there is none, if the AI is not asked, or if the answer is refused; the AI
    /// is then to be asked, with all its attempts before it.
    pub fn attempt_foregone(&mut self, seat: usize) -> (r: Option<Attempt>)
        requires
            old(self)@.wf(),
            old(self).day < u32::MAX,
        ensures
            final(self)@.wf(),
            exists|start: usize|
                final(self)@.may_start(start) && (match (
                    r,
                    #[trigger] old(self)@.foregone_attempted(seat, start),
                ) {
                    (Some(done), Some(rule)) => {
                        &&& final(self)@ == rule.table
                        &&& done.verdict == rule.verdict
                        &&& model_of(done.announce) == rule.announce
                    },
                    (None, None) => final(self)@ == old(self)@,
                    _ => false,
                }),
    {
        let ghost g = self@;
        let answer = match self.foregone(seat) {
            Some(answer) => answer,
            None => {
                proof {
                    let start = lemma_some_start(g);
                    assert(g.foregone_attempted(seat, start) is None);
                }
                return None;
            },
        };
        let ghost a = answer.deep_view();
        let plan = self.plan();
        if !holds(&plan.ais, seat) {
            proof {
                let start = lemma_some_start(g);
                assert(g.foregone_attempted(seat, start) is None);
            }
            return None;
        }
        proof {
            lemma_asked(g, seat);
        }
        let id = self.players[seat].open_id.clone();
        let tried = self.try_answer(seat, &answer);
        let ghost start = choose|start: usize|
            self@.may_start(start) && goes_as(
                tried,
                g,
                self@,
                #[trigger] g.answered(seat, a, start),
            );
        match tried {
            Ok(out) => {
                let announce = self.announce_answer(id.as_str(), &answer, out);
                assert(g.foregone_attempted(seat, start)->0.table == self@);
                Some(Attempt { verdict: Verdict::Done, announce })
            },
            Err(_) => {
                assert(g.foregone_attempted(seat, start) is None);
                None
            },
        }
    }
}

/// Whoever is asked sits at the table of a running game.
pub proof fn lemma_asked(g: GameView, seat: usize)
    requires
        g.wf(),
        g.plan().ais.contains(seat),
    ensures
        seat < g.players.len(),
        g.in_play(),
        g.players[seat as int].is_ai,
{
    lemma_indices_ok(g.players.len(), g.eligible());
    lemma_indices_ok(g.players.len(), g.elects());
    lemma_indices_ok(g.players.len(), g.votes());
    lemma_indices_ok(g.players.len(), g.living_wolf());
    crate::werewolf::table::lemma_first_in_range(g.players.len(), g.holder(Role::Guard));
    crate::werewolf::table::lemma_first_in_range(g.players.len(), g.holder(Role::Seer));
    crate::werewolf::table::lemma_first_in_range(g.players.len(), g.holder(Role::Witch));
    crate::seqs::lemma_first_from(
        0,
        g.sheriff_original_candidates.len() as int,
        g.undecided(),
    );
    if g.stage == Stage::SheriffNominate {
        lemma_round_asks(g, g.eligible_seats(), g.sheriff_nominations, g.sheriff_nominate_msgs, seat);
    } else if g.stage == Stage::SheriffVote {
        lemma_round_asks(g, g.elector_seats(), g.sheriff_votes, g.sheriff_vote_msgs, seat);
    } else if g.stage == Stage::DayVote {
        lemma_round_asks(g, g.voter_seats(), g.day_votes, g.day_vote_msgs, seat);
    } else if g.stage == Stage::WolvesPick {
        lemma_wolves_asked(g, seat);
    }
}

/// Whoever is asked in a round takes part in it and has not answered.
pub proof fn lemma_round_asks<V>(
    g: GameView,
    seats: Seq<usize>,
    answers: Seq<(usize, V)>,
    cards: Seq<(Seq<char>, Seq<char>)>,
    seat: usize,
)
    requires
        seats_ok(seats, g.players.len()),
        g.round(seats, answers, cards).ais.contains(seat),
    ensures
        seat < g.players.len(),
        g.players[seat as int].is_ai,
        seats.contains(seat),
        !crate::assoc::has_key(answers, seat),
{
    let open = kept_seats(seats, |i: usize| !crate::assoc::has_key(answers, i));
    lemma_kept_seats(seats, |i: usize| !crate::assoc::has_key(answers, i));
    lemma_kept_seats(open, |i: usize| g.players[i as int].is_ai);
    assert(open.contains(seat));
    let j = choose|j: int| 0 <= j < seats.len() && seats[j] == seat;
    assert(seats[j] < g.players.len());
}

/// Whoever is asked among the wolves is an AI wolf alive.
pub proof fn lemma_wolves_asked(g: GameView, seat: usize)
    requires
        g.players.len() <= usize::MAX,
        g.wolves_plan().ais.contains(seat),
    ensures
        seat < g.players.len(),
        g.players[seat as int].is_ai,
        g.wolf_seats().contains(seat),
{
    lemma_indices_ok(g.players.len(), g.living_wolf());
    let wolves = g.wolf_seats();
    lemma_kept_seats(wolves, |i: usize| !g.players[i as int].is_ai);
    lemma_kept_seats(wolves, |i: usize| g.players[i as int].is_ai);
    lemma_kept_seats(wolves, |i: usize| !crate::assoc::has_key(g.wolf_kill_votes, i));
    lemma_kept_seats(g.ai_wolves(), |i: usize| !g.wolf_ready.contains(i));
    assert(wolves.contains(seat));
    let j = choose|j: int| 0 <= j < wolves.len() && wolves[j] == seat;
    assert(wolves[j] < g.players.len());
    if g.human_wolves().len() == 0 && !g.players[seat as int].is_ai {
        assert(g.human_wolves().contains(seat));
    }
}

proof fn lemma_refused_alike(g: GameView, seat: usize, a: AnswerView, s: usize, t: usize)
    requires
        g.answered(seat, a, s) is Err,
    ensures
        g.answered(seat, a, t) == g.answered(seat, a, s),
{
}

} // verus!
