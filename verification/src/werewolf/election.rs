//! The sheriff election of the first day.

use vstd::prelude::*;
use crate::assoc::{find_key, get_key, get_name, has_key, put, put_key, put_name};
use crate::seqs::{copy_of, first_from, holds, indices_where, lemma_first_is};
use crate::text::{cat2, cat4, trim, trimmed};
use crate::werewolf::error::GameError;
use crate::werewolf::state::{GameView, WolfGame};
use crate::werewolf::table::{follows, follows_with, lemma_put_keys_ok, lemma_put_votes_ok,
    seats_ok};
use crate::werewolf::tally::{leaders, lemma_keys_few, lemma_leaders, vote_leaders, Weights};
use crate::werewolf::types::{RecapEvent, RecapView, Stage};

verus! {

/// What stands in the record for what somebody said: the text without the white
/// space around it, or a mark of silence.
pub open spec fn spoken(text: Seq<char>) -> Seq<char> {
    if trimmed(text).len() == 0 {
        "(沉默)"@
    } else {
        trimmed(text)
    }
}

/// What stands in the record for what somebody said.
pub fn speech_text(text: &str) -> (r: String)
    ensures
        r@ == spoken(text@),
{
    let t = trim(text);
    if t.is_empty() {
        "(沉默)".to_owned()
    } else {
        t.to_owned()
    }
}

/// Those who run, in the order in which they answered.
pub open spec fn running(noms: Seq<(usize, bool)>) -> Seq<usize>
    decreases noms.len(),
{
    if noms.len() == 0 {
        Seq::empty()
    } else if noms.last().1 {
        running(noms.drop_last()).push(noms.last().0)
    } else {
        running(noms.drop_last())
    }
}

/// In the election every vote counts one.
pub open spec fn equal_weights() -> Weights {
    Weights { heavy: None, light: 1, big: 1 }
}

impl GameView {
    /// Whether the player in seat `i` takes part in the election. It is held before the
    /// deaths of the first night are announced, so their victims take part too.
    pub open spec fn eligible(self) -> spec_fn(int) -> bool {
        |i: int|
            self.players[i].alive || (self.day == 1 && self.last_night_deaths.contains(i as usize))
    }

    /// Who takes part in the election.
    pub open spec fn eligible_seats(self) -> Seq<usize> {
        indices_where(self.players.len(), self.eligible())
    }

    /// Whether the player in seat `i` votes in the election: who ran does not, whether
    /// or not the candidacy stands.
    pub open spec fn elects(self) -> spec_fn(int) -> bool {
        |i: int|
            (self.eligible())(i) && !self.sheriff_original_candidates.contains(i as usize)
    }

    /// Who votes in the election.
    pub open spec fn elector_seats(self) -> Seq<usize> {
        indices_where(self.players.len(), self.elects())
    }

    /// Who can be elected: in the second round those tied in the first.
    pub open spec fn candidates(self) -> Seq<usize> {
        if self.sheriff_vote_round == 1 && self.sheriff_pk_candidates.len() > 0 {
            self.sheriff_pk_candidates
        } else {
            running(self.sheriff_nominations)
        }
    }

    /// Somebody says whether to run for sheriff.
    pub open spec fn nominate_sheriff(self, who: Seq<char>, run: bool) -> Result<
        GameView,
        GameError,
    > {
        if self.stage != Stage::SheriffNominate {
            Err(GameError::NotNominateStage)
        } else {
            match self.seat_of(who) {
                None => Err(GameError::NotSeated),
                Some(i) => if !self.eligible_seats().contains(i) {
                    Err(GameError::NotEligible)
                } else {
                    Ok(
                        GameView {
                            sheriff_nominations: put_key(self.sheriff_nominations, i, run),
                            ..self
                        },
                    )
                },
            }
        }
    }

    /// The election ends with this sheriff, or with none, and this line in the history.
    pub open spec fn elected(self, sheriff: Option<usize>, line: Seq<char>) -> GameView {
        GameView {
            sheriff_idx: if sheriff is Some {
                sheriff
            } else {
                self.sheriff_idx
            },
            event_log: self.event_log.push(line),
            recap_log: self.recap_log.push(RecapView::SheriffElected { player: sheriff }),
            stage: Stage::DayReveal,
            ..self
        }
    }

    /// The candidates speak in this order.
    pub open spec fn candidates_speak(self, order: Seq<usize>) -> GameView {
        GameView {
            sheriff_speech_order: order,
            sheriff_speech_idx: 0,
            sheriff_speeches: Seq::empty(),
            sheriff_speech_public_msg: None,
            sheriff_speech_private_msg: None,
            stage: Stage::SheriffSpeech,
            ..self
        }
    }

    /// The vote is open and nobody has voted.
    pub open spec fn election_opened(self) -> GameView {
        GameView {
            sheriff_votes: Seq::empty(),
            sheriff_vote_msgs: Seq::empty(),
            sheriff_vote_public_msg: None,
            stage: Stage::SheriffVote,
            ..self
        }
    }

    /// Nominations close: no candidate, no sheriff; a single one is elected; several speak.
    pub open spec fn finish_sheriff_nominate(self) -> Result<GameView, GameError> {
        if self.stage != Stage::SheriffNominate {
            Err(GameError::NotNominateStage)
        } else {
            let c = self.candidates();
            let g = GameView {
                sheriff_original_candidates: c,
                sheriff_vote_round: 0,
                sheriff_pk_candidates: Seq::empty(),
                recap_log: self.recap_log.push(RecapView::SheriffCandidates { candidates: c }),
                ..self
            };
            Ok(
                if c.len() == 0 {
                    g.elected(None, "无人上警，本局无警长。"@)
                } else if c.len() == 1 {
                    g.elected(
                        Some(c[0]),
                        self.players[c[0] as int].name + " 唯一上警，自动当选警长。"@,
                    )
                } else {
                    g.candidates_speak(c)
                },
            )
        }
    }

    /// Which candidate is to speak.
    pub open spec fn sheriff_speaker(self) -> Option<usize> {
        if self.sheriff_speech_idx < self.sheriff_speech_order.len() {
            Some(self.sheriff_speech_order[self.sheriff_speech_idx as int])
        } else {
            None
        }
    }

    /// A candidate speaks when it is the candidate's turn.
    pub open spec fn submit_sheriff_speech(self, who: Seq<char>, text: Seq<char>) -> Result<
        GameView,
        GameError,
    > {
        if self.stage != Stage::SheriffSpeech {
            Err(GameError::NotSheriffSpeechStage)
        } else {
            match self.seat_of(who) {
                None => Err(GameError::NotSeated),
                Some(i) => if self.sheriff_speaker() is None {
                    Err(GameError::SpeechesOver)
                } else if self.sheriff_speaker() != Some(i) {
                    Err(GameError::NotYourTurn)
                } else {
                    Ok(
                        GameView {
                            event_log: self.event_log.push(
                                "上警发言 · "@ + self.players[i as int].name + "："@ + spoken(text),
                            ),
                            recap_log: self.recap_log.push(
                                RecapView::SheriffSpeech { player: i, text: spoken(text) },
                            ),
                            sheriff_speeches: self.sheriff_speeches.push((i, spoken(text))),
                            sheriff_speech_idx: (self.sheriff_speech_idx + 1) as usize,
                            sheriff_speech_private_msg: None,
                            ..self
                        },
                    )
                },
            }
        }
    }

    /// All candidates have spoken: in the first round they may withdraw, in the second
    /// the vote opens.
    pub open spec fn finish_sheriff_speeches(self) -> Result<GameView, GameError> {
        if self.stage != Stage::SheriffSpeech {
            Err(GameError::NotSheriffSpeechStage)
        } else if self.sheriff_speech_idx < self.sheriff_speech_order.len() {
            Err(GameError::SpeechesPending)
        } else if self.sheriff_vote_round == 0 {
            Ok(
                GameView {
                    sheriff_withdrawals: Seq::empty(),
                    stage: Stage::SheriffWithdraw,
                    ..self
                },
            )
        } else {
            Ok(self.election_opened())
        }
    }

    /// Whether the candidate at this position has not said whether to stay.
    pub open spec fn undecided(self) -> spec_fn(int) -> bool {
        |i: int| !has_key(self.sheriff_withdrawals, self.sheriff_original_candidates[i])
    }

    /// Which candidate is to say whether to stay.
    pub open spec fn withdrawer(self) -> Option<usize> {
        let i = first_from(0, self.sheriff_original_candidates.len() as int, self.undecided());
        if i < self.sheriff_original_candidates.len() {
            Some(self.sheriff_original_candidates[i])
        } else {
            None
        }
    }

    /// A candidate stays or withdraws.
    pub open spec fn decide_sheriff_withdraw(self, who: Seq<char>, stay: bool) -> Result<
        GameView,
        GameError,
    > {
        if self.stage != Stage::SheriffWithdraw {
            Err(GameError::NotWithdrawStage)
        } else {
            match self.seat_of(who) {
                None => Err(GameError::NotSeated),
                Some(i) => if self.withdrawer() != Some(i) {
                    Err(GameError::NotYourWithdraw)
                } else {
                    let g = GameView {
                        sheriff_withdrawals: self.sheriff_withdrawals.push((i, stay)),
                        ..self
                    };
                    Ok(
                        if stay {
                            g
                        } else {
                            GameView {
                                sheriff_nominations: if has_key(self.sheriff_nominations, i) {
                                    put_key(self.sheriff_nominations, i, false)
                                } else {
                                    self.sheriff_nominations
                                },
                                event_log: self.event_log.push(
                                    self.players[i as int].name + " 退出警长竞选。"@,
                                ),
                                ..g
                            }
                        },
                    )
                },
            }
        }
    }

    /// Withdrawals close: no candidate left, no sheriff; a single one is elected; else
    /// the vote opens.
    pub open spec fn finish_sheriff_withdraw(self) -> Result<
        (GameView, Option<usize>),
        GameError,
    > {
        if self.stage != Stage::SheriffWithdraw {
            Err(GameError::NotWithdrawStage)
        } else if self.withdrawer() is Some {
            Err(GameError::WithdrawPending)
        } else {
            let c = self.candidates();
            Ok(
                if c.len() == 0 {
                    (self.elected(None, "所有候选人退水，本局无警长。"@), None)
                } else if c.len() == 1 {
                    (
                        self.elected(
                            Some(c[0]),
                            self.players[c[0] as int].name + " 成为唯一候选人，当选警长。"@,
                        ),
                        Some(c[0]),
                    )
                } else {
                    (self.election_opened(), None)
                },
            )
        }
    }

    /// An elector votes for a candidate or abstains.
    pub open spec fn cast_sheriff_vote(self, who: Seq<char>, target: Option<Seq<char>>) -> Result<
        GameView,
        GameError,
    > {
        if self.stage != Stage::SheriffVote {
            Err(GameError::NotSheriffVoteStage)
        } else {
            match self.seat_of(who) {
                None => Err(GameError::NotSeated),
                Some(v) => if !self.elector_seats().contains(v) {
                    Err(GameError::CandidateCannotVote)
                } else {
                    match target {
                        None => Ok(
                            GameView { sheriff_votes: put_key(self.sheriff_votes, v, None), ..self },
                        ),
                        Some(id) => match self.seat_of(id) {
                            None => Err(GameError::TargetMissing),
                            Some(t) => if !self.candidates().contains(t) {
                                Err(GameError::NotCandidate)
                            } else {
                                Ok(
                                    GameView {
                                        sheriff_votes: put_key(self.sheriff_votes, v, Some(t)),
                                        ..self
                                    },
                                )
                            },
                        },
                    }
                },
            }
        }
    }

    /// The vote is counted: the leader is elected; a first tie leads to a second round
    /// among the tied, a second tie or no vote to no sheriff.
    pub open spec fn resolve_sheriff_vote(self) -> Result<(GameView, Option<usize>), GameError> {
        if self.stage != Stage::SheriffVote {
            Err(GameError::NotSheriffVoteStage)
        } else {
            let g = GameView {
                recap_log: self.recap_log.push(
                    RecapView::SheriffVoteRound {
                        round: (self.sheriff_vote_round + 1) as u8,
                        votes: self.sheriff_votes,
                    },
                ),
                ..self
            };
            let top = leaders(self.sheriff_votes, equal_weights());
            Ok(
                if top.len() == 0 {
                    (g.elected(None, "警长投票全员弃权，本局无警长。"@), None)
                } else if top.len() > 1 && self.sheriff_vote_round == 0 {
                    (
                        GameView {
                            sheriff_vote_round: 1,
                            sheriff_pk_candidates: top,
                            event_log: self.event_log.push("警长投票平票，进入 PK 发言。"@),
                            ..g
                        }.candidates_speak(top),
                        None,
                    )
                } else if top.len() > 1 {
                    (g.elected(None, "警长 PK 再次平票，本局无警长。"@), None)
                } else {
                    (
                        g.elected(
                            Some(top[0]),
                            self.players[top[0] as int].name + " 当选警长。"@,
                        ),
                        Some(top[0]),
                    )
                },
            )
        }
    }
}

/// Those who run are seats that answered.
pub proof fn lemma_running(noms: Seq<(usize, bool)>, n: nat)
    requires
        forall|i: int| 0 <= i < noms.len() ==> (#[trigger] noms[i]).0 < n,
    ensures
        seats_ok(running(noms), n),
        forall|i: int|
            0 <= i < running(noms).len() ==> exists|j: int|
                0 <= j < noms.len() && #[trigger] noms[j] == (#[trigger] running(noms)[i], true),
    decreases noms.len(),
{
    if noms.len() > 0 {
        let rest = noms.drop_last();
        assert forall|i: int| 0 <= i < rest.len() implies (#[trigger] rest[i]).0 < n by {
            assert(rest[i] == noms[i]);
        }
        lemma_running(rest, n);
        assert(noms.last() == noms[noms.len() - 1]);
        assert forall|i: int| 0 <= i < running(noms).len() implies exists|j: int|
            0 <= j < noms.len() && #[trigger] noms[j] == (#[trigger] running(noms)[i], true) by {
            if i < running(rest).len() {
                assert(running(noms)[i] == running(rest)[i]);
                let j = choose|j: int|
                    0 <= j < rest.len() && #[trigger] rest[j] == (running(rest)[i], true);
                assert(noms[j] == (running(noms)[i], true));
            } else {
                assert(noms[noms.len() - 1] == (running(noms)[i], true));
            }
        }
    }
}

impl WolfGame {
    /// Somebody says whether to run for sheriff, or says otherwise than before.
    pub fn nominate_sheriff(&mut self, voter_open_id: &str, running: bool) -> (r: Result<
        (),
        GameError,
    >)
        requires
            old(self)@.wf(),
        ensures
            final(self)@.wf(),
            follows(
                r,
                old(self)@,
                final(self)@,
                old(self)@.nominate_sheriff(voter_open_id@, running),
            ),
    {
        if self.stage != Stage::SheriffNominate {
            return Err(GameError::NotNominateStage);
        }
        let i: usize = match self.find_player(voter_open_id) {
            None => {
                return Err(GameError::NotSeated);
            },
            Some(i) => i,
        };
        if !holds(&self.sheriff_eligible_indices(), i) {
            return Err(GameError::NotEligible);
        }
        proof {
            lemma_put_keys_ok(self@.sheriff_nominations, i, running, self@.players.len());
        }
        put(&mut self.sheriff_nominations, i, running);
        Ok(())
    }

    /// Whether everybody who takes part has said whether to run.
    pub fn all_alive_nominated(&self) -> (r: bool)
        ensures
            r == (forall|i: int|
                0 <= i < self@.eligible_seats().len() ==> has_key(
                    self@.sheriff_nominations,
                    #[trigger] self@.eligible_seats()[i],
                )),
    {
        let seats = self.sheriff_eligible_indices();
        let mut i: usize = 0;
        while i < seats.len()
            invariant
                i <= seats.len(),
                seats@ == self@.eligible_seats(),
                forall|k: int|
                    0 <= k < i ==> has_key(
                        self@.sheriff_nominations,
                        #[trigger] self@.eligible_seats()[k],
                    ),
            decreases seats.len() - i,
        {
            if find_key(&self.sheriff_nominations, seats[i]) >= self.sheriff_nominations.len() {
                assert(!has_key(self@.sheriff_nominations, self@.eligible_seats()[i as int]));
                return false;
            }
            i = i + 1;
        }
        true
    }

    /// Who takes part in the election, the dead of the first night among them.
    pub fn sheriff_eligible_indices(&self) -> (r: Vec<usize>)
        ensures
            r@ == self@.eligible_seats(),
    {
        let mut r: Vec<usize> = Vec::new();
        let mut i: usize = 0;
        while i < self.players.len()
            invariant
                i <= self.players.len(),
                r@ == indices_where(i as nat, self@.eligible()),
            decreases self.players.len() - i,
        {
            if self.players[i].alive || (self.day == 1 && holds(&self.last_night_deaths, i)) {
                r.push(i);
            }
            i = i + 1;
        }
        r
    }

    /// Notes the nomination card of a player.
    pub fn set_sheriff_nominate_msg(&mut self, open_id: &str, msg_id: String)
        ensures
            final(self)@ == (GameView {
                sheriff_nominate_msgs: put_key(
                    old(self)@.sheriff_nominate_msgs,
                    open_id@,
                    msg_id@,
                ),
                ..old(self)@
            }),
    {
        put_name(&mut self.sheriff_nominate_msgs, open_id, msg_id);
    }

    /// The nomination card of a player.
    pub fn sheriff_nominate_msg(&self, open_id: &str) -> (r: Option<&str>)
        ensures
            r.deep_view() == get_key(self@.sheriff_nominate_msgs, open_id@),
    {
        get_name(&self.sheriff_nominate_msgs, open_id)
    }

    /// Who can be elected.
    pub fn sheriff_candidates(&self) -> (r: Vec<usize>)
        ensures
            r@ == self@.candidates(),
    {
        if self.sheriff_vote_round == 1 && self.sheriff_pk_candidates.len() > 0 {
            return copy_of(&self.sheriff_pk_candidates);
        }
        let mut r: Vec<usize> = Vec::new();
        let mut i: usize = 0;
        assert(self.sheriff_nominations@.take(0) =~= Seq::empty());
        while i < self.sheriff_nominations.len()
            invariant
                i <= self.sheriff_nominations.len(),
                r@ == running(self.sheriff_nominations@.take(i as int)),
            decreases self.sheriff_nominations.len() - i,
        {
            proof {
                let t = self.sheriff_nominations@.take(i + 1);
                assert(t.drop_last() =~= self.sheriff_nominations@.take(i as int));
                assert(t.last() == self.sheriff_nominations@[i as int]);
            }
            if self.sheriff_nominations[i].1 {
                r.push(self.sheriff_nominations[i].0);
            }
            i = i + 1;
        }
        assert(self.sheriff_nominations@.take(i as int) =~= self.sheriff_nominations@);
        r
    }

    /// The election ends.
    fn close_election(&mut self, sheriff: Option<usize>, line: String)
        ensures
            final(self)@ == old(self)@.elected(sheriff, line@),
    {
        if sheriff.is_some() {
            self.sheriff_idx = sheriff;
        }
        self.event_log.push(line);
        self.recap_log.push(RecapEvent::SheriffElected { player: sheriff });
        self.stage = Stage::DayReveal;
    }

    /// The candidates speak in this order.
    fn let_candidates_speak(&mut self, order: Vec<usize>)
        ensures
            final(self)@ == old(self)@.candidates_speak(order@),
    {
        self.sheriff_speech_order = order;
        self.sheriff_speech_idx = 0;
        self.sheriff_speeches.clear();
        self.sheriff_speech_public_msg = None;
        self.sheriff_speech_private_msg = None;
        self.stage = Stage::SheriffSpeech;
    }

    /// The vote opens.
    fn open_election(&mut self)
        ensures
            final(self)@ == old(self)@.election_opened(),
    {
        self.sheriff_votes.clear();
        self.sheriff_vote_msgs.clear();
        self.sheriff_vote_public_msg = None;
        self.stage = Stage::SheriffVote;
    }

    /// Nominations close.
    pub fn finish_sheriff_nominate(&mut self) -> (r: Result<(), GameError>)
        requires
            old(self)@.wf(),
        ensures
            final(self)@.wf(),
            follows(r, old(self)@, final(self)@, old(self)@.finish_sheriff_nominate()),
    {
        if self.stage != Stage::SheriffNominate {
            return Err(GameError::NotNominateStage);
        }
        let ghost g = self@;
        let candidates = self.sheriff_candidates();
        proof {
            lemma_running(g.sheriff_nominations, g.players.len());
            assert(seats_ok(candidates@, g.players.len()));
        }
        self.sheriff_original_candidates = copy_of(&candidates);
        self.sheriff_vote_round = 0;
        self.sheriff_pk_candidates.clear();
        self.recap_log.push(RecapEvent::SheriffCandidates { candidates: copy_of(&candidates) });
        assert(self@ == GameView {
            sheriff_original_candidates: candidates@,
            sheriff_vote_round: 0,
            sheriff_pk_candidates: Seq::empty(),
            recap_log: g.recap_log.push(
                RecapView::SheriffCandidates { candidates: candidates@ },
            ),
            ..g
        });
        if candidates.len() == 0 {
            self.close_election(None, "无人上警，本局无警长。".to_owned());
        } else if candidates.len() == 1 {
            let only: usize = candidates[0];
            let line = cat2(self.players[only].name.as_str(), " 唯一上警，自动当选警长。");
            self.close_election(Some(only), line);
        } else {
            self.let_candidates_speak(candidates);
        }
        Ok(())
    }

    /// Which candidate is to speak.
    pub fn current_sheriff_speaker(&self) -> (r: Option<usize>)
        ensures
            r == self@.sheriff_speaker(),
    {
        if self.sheriff_speech_idx < self.sheriff_speech_order.len() {
            Some(self.sheriff_speech_order[self.sheriff_speech_idx])
        } else {
            None
        }
    }

    /// A candidate speaks.
    pub fn submit_sheriff_speech(&mut self, speaker_open_id: &str, text: String) -> (r: Result<
        (),
        GameError,
    >)
        requires
            old(self)@.wf(),
        ensures
            final(self)@.wf(),
            follows(
                r,
                old(self)@,
                final(self)@,
                old(self)@.submit_sheriff_speech(speaker_open_id@, text@),
            ),
    {
        if self.stage != Stage::SheriffSpeech {
            return Err(GameError::NotSheriffSpeechStage);
        }
        let i: usize = match self.find_player(speaker_open_id) {
            None => {
                return Err(GameError::NotSeated);
            },
            Some(i) => i,
        };
        let turn: usize = self.sheriff_speech_idx;
        if turn >= self.sheriff_speech_order.len() {
            return Err(GameError::SpeechesOver);
        }
        if i != self.sheriff_speech_order[turn] {
            return Err(GameError::NotYourTurn);
        }
        let display = speech_text(text.as_str());
        let line = cat4(
            "上警发言 · ",
            self.players[i].name.as_str(),
            "：",
            display.as_str(),
        );
        self.event_log.push(line);
        self.recap_log.push(RecapEvent::SheriffSpeech { player: i, text: display.clone() });
        self.sheriff_speeches.push((i, display));
        self.sheriff_speech_idx = turn + 1;
        self.sheriff_speech_private_msg = None;
        assert(self@.sheriff_speeches == old(self)@.sheriff_speeches.push((i, spoken(text@))));
        Ok(())
    }

    /// Whether all candidates have spoken.
    pub fn all_sheriff_speeches_done(&self) -> (r: bool)
        ensures
            r == (self@.sheriff_speaker() is None),
    {
        self.sheriff_speech_idx >= self.sheriff_speech_order.len()
    }

    /// The candidates' speeches are over.
    pub fn finish_sheriff_speeches(&mut self) -> (r: Result<(), GameError>)
        requires
            old(self)@.wf(),
        ensures
            final(self)@.wf(),
            follows(r, old(self)@, final(self)@, old(self)@.finish_sheriff_speeches()),
    {
        if self.stage != Stage::SheriffSpeech {
            return Err(GameError::NotSheriffSpeechStage);
        }
        if !self.all_sheriff_speeches_done() {
            return Err(GameError::SpeechesPending);
        }
        if self.sheriff_vote_round == 0 {
            self.sheriff_withdrawals.clear();
            self.stage = Stage::SheriffWithdraw;
        } else {
            self.open_election();
        }
        Ok(())
    }

    /// Which candidate is to say whether to stay.
    pub fn current_sheriff_withdrawer(&self) -> (r: Option<usize>)
        ensures
            r == self@.withdrawer(),
    {
        let n: usize = self.sheriff_original_candidates.len();
        let mut i: usize = 0;
        while i < n && find_key(&self.sheriff_withdrawals, self.sheriff_original_candidates[i])
            < self.sheriff_withdrawals.len()
            invariant
                i <= n,
                n == self.sheriff_original_candidates.len(),
                forall|j: int| 0 <= j < i ==> !#[trigger] (self@.undecided())(j),
            decreases n - i,
        {
            i = i + 1;
        }
        proof {
            lemma_first_is(n as int, self@.undecided(), i as int);
        }
        if i < n {
            Some(self.sheriff_original_candidates[i])
        } else {
            None
        }
    }

    /// A candidate stays or withdraws.
    pub fn decide_sheriff_withdraw(&mut self, open_id: &str, stay: bool) -> (r: Result<
        (),
        GameError,
    >)
        requires
            old(self)@.wf(),
        ensures
            final(self)@.wf(),
            follows(
                r,
                old(self)@,
                final(self)@,
                old(self)@.decide_sheriff_withdraw(open_id@, stay),
            ),
    {
        if self.stage != Stage::SheriffWithdraw {
            return Err(GameError::NotWithdrawStage);
        }
        let i: usize = match self.find_player(open_id) {
            None => {
                return Err(GameError::NotSeated);
            },
            Some(i) => i,
        };
        if self.current_sheriff_withdrawer() != Some(i) {
            return Err(GameError::NotYourWithdraw);
        }
        self.sheriff_withdrawals.push((i, stay));
        if !stay {
            proof {
                lemma_put_keys_ok(self@.sheriff_nominations, i, false, self@.players.len());
            }
            if find_key(&self.sheriff_nominations, i) < self.sheriff_nominations.len() {
                put(&mut self.sheriff_nominations, i, false);
            }
            let line = cat2(self.players[i].name.as_str(), " 退出警长竞选。");
            self.event_log.push(line);
        }
        Ok(())
    }

    /// Withdrawals close.
    pub fn finish_sheriff_withdraw(&mut self) -> (r: Result<Option<usize>, GameError>)
        requires
            old(self)@.wf(),
        ensures
            final(self)@.wf(),
            follows_with(r, old(self)@, final(self)@, old(self)@.finish_sheriff_withdraw()),
    {
        if self.stage != Stage::SheriffWithdraw {
            return Err(GameError::NotWithdrawStage);
        }
        if self.current_sheriff_withdrawer().is_some() {
            return Err(GameError::WithdrawPending);
        }
        let candidates = self.sheriff_candidates();
        proof {
            lemma_running(self@.sheriff_nominations, self@.players.len());
            assert(seats_ok(candidates@, self@.players.len()));
        }
        if candidates.len() == 0 {
            self.close_election(None, "所有候选人退水，本局无警长。".to_owned());
            Ok(None)
        } else if candidates.len() == 1 {
            let only: usize = candidates[0];
            let line = cat2(self.players[only].name.as_str(), " 成为唯一候选人，当选警长。");
            self.close_election(Some(only), line);
            Ok(Some(only))
        } else {
            self.open_election();
            Ok(None)
        }
    }

    /// An elector votes for a candidate, or abstains.
    pub fn cast_sheriff_vote(&mut self, voter_open_id: &str, target_open_id: Option<&str>) -> (r:
        Result<(), GameError>)
        requires
            old(self)@.wf(),
        ensures
            final(self)@.wf(),
            follows(
                r,
                old(self)@,
                final(self)@,
                old(self)@.cast_sheriff_vote(voter_open_id@, target_open_id.deep_view()),
            ),
    {
        if self.stage != Stage::SheriffVote {
            return Err(GameError::NotSheriffVoteStage);
        }
        let v: usize = match self.find_player(voter_open_id) {
            None => {
                return Err(GameError::NotSeated);
            },
            Some(v) => v,
        };
        if !holds(&self.sheriff_voters(), v) {
            return Err(GameError::CandidateCannotVote);
        }
        let mut target: Option<usize> = None;
        if let Some(id) = target_open_id {
            let t: usize = match self.find_player(id) {
                None => {
                    return Err(GameError::TargetMissing);
                },
                Some(t) => t,
            };
            if !holds(&self.sheriff_candidates(), t) {
                return Err(GameError::NotCandidate);
            }
            target = Some(t);
        }
        proof {
            lemma_put_votes_ok(self@.sheriff_votes, v, target, self@.players.len());
        }
        self.sheriff_votes.cast(v, target);
        Ok(())
    }

    /// Whether every elector has voted or abstained.
    pub fn all_sheriff_voters_cast(&self) -> (r: bool)
        ensures
            r == (forall|i: int|
                0 <= i < self@.elector_seats().len() ==> has_key(
                    self@.sheriff_votes,
                    #[trigger] self@.elector_seats()[i],
                )),
    {
        let seats = self.sheriff_voters();
        let mut i: usize = 0;
        while i < seats.len()
            invariant
                i <= seats.len(),
                seats@ == self@.elector_seats(),
                forall|k: int|
                    0 <= k < i ==> has_key(
                        self@.sheriff_votes,
                        #[trigger] self@.elector_seats()[k],
                    ),
            decreases seats.len() - i,
        {
            if self.sheriff_votes.for_voter(seats[i]).is_none() {
                assert(!has_key(self@.sheriff_votes, self@.elector_seats()[i as int]));
                return false;
            }
            i = i + 1;
        }
        true
    }

    /// Who votes in the election.
    pub fn sheriff_voters(&self) -> (r: Vec<usize>)
        ensures
            r@ == self@.elector_seats(),
    {
        let mut r: Vec<usize> = Vec::new();
        let mut i: usize = 0;
        while i < self.players.len()
            invariant
                i <= self.players.len(),
                r@ == indices_where(i as nat, self@.elects()),
            decreases self.players.len() - i,
        {
            if (self.players[i].alive || (self.day == 1 && holds(&self.last_night_deaths, i)))
                && !holds(&self.sheriff_original_candidates, i) {
                r.push(i);
            }
            i = i + 1;
        }
        r
    }

    /// Notes the election card of a player.
    pub fn set_sheriff_vote_msg(&mut self, open_id: &str, msg_id: String)
        ensures
            final(self)@ == (GameView {
                sheriff_vote_msgs: put_key(old(self)@.sheriff_vote_msgs, open_id@, msg_id@),
                ..old(self)@
            }),
    {
        put_name(&mut self.sheriff_vote_msgs, open_id, msg_id);
    }

    /// The election card of a player.
    pub fn sheriff_vote_msg(&self, open_id: &str) -> (r: Option<&str>)
        ensures
            r.deep_view() == get_key(self@.sheriff_vote_msgs, open_id@),
    {
        get_name(&self.sheriff_vote_msgs, open_id)
    }

    /// Counts the election.
    pub fn resolve_sheriff_vote(&mut self) -> (r: Result<Option<usize>, GameError>)
        requires
            old(self)@.wf(),
        ensures
            final(self)@.wf(),
            follows_with(r, old(self)@, final(self)@, old(self)@.resolve_sheriff_vote()),
    {
        if self.stage != Stage::SheriffVote {
            return Err(GameError::NotSheriffVoteStage);
        }
        let ghost g = self@;
        proof {
            lemma_keys_few(g.sheriff_votes, g.players.len());
            lemma_leaders(g.sheriff_votes, equal_weights(), g.players.len());
        }
        let top = vote_leaders(
            &self.sheriff_votes.votes,
            Weights { heavy: None, light: 1, big: 1 },
        );
        let votes = self.sheriff_votes.copy_votes();
        self.recap_log.push(
            RecapEvent::SheriffVoteRound { round: self.sheriff_vote_round + 1, votes },
        );
        let ghost h = self@;
        assert(h == GameView {
            recap_log: g.recap_log.push(
                RecapView::SheriffVoteRound {
                    round: (g.sheriff_vote_round + 1) as u8,
                    votes: g.sheriff_votes,
                },
            ),
            ..g
        });
        if top.len() == 0 {
            self.close_election(None, "警长投票全员弃权，本局无警长。".to_owned());
            return Ok(None);
        }
        if top.len() > 1 {
            if self.sheriff_vote_round == 0 {
                self.sheriff_vote_round = 1;
                self.sheriff_pk_candidates = copy_of(&top);
                self.event_log.push("警长投票平票，进入 PK 发言。".to_owned());
                assert(self@ == GameView {
                    sheriff_vote_round: 1,
                    sheriff_pk_candidates: top@,
                    event_log: g.event_log.push("警长投票平票，进入 PK 发言。"@),
                    ..h
                });
                self.let_candidates_speak(top);
            } else {
                self.close_election(None, "警长 PK 再次平票，本局无警长。".to_owned());
            }
            return Ok(None);
        }
        let elected: usize = top[0];
        let line = cat2(self.players[elected].name.as_str(), " 当选警长。");
        self.close_election(Some(elected), line);
        Ok(Some(elected))
    }
}

} // verus!
