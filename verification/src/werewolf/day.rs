//! The day: speeches, the vote, last words, shots, badges and wolves that blow up.

use vstd::prelude::*;
use crate::assoc::{get_key, get_name, has_key, put_key, put_name};
use crate::seqs::{copy_of, holds, indices_where};
use crate::text::{cat2, cat3, cat4, cat5, cat6, decimal, decimal_text};
use crate::werewolf::election::{speech_text, spoken};
use crate::werewolf::error::GameError;
use crate::werewolf::flow::lemma_some_start;
use crate::werewolf::state::{GameView, WolfGame};
use crate::werewolf::table::{follows, follows_with, lemma_put_votes_ok, seat_ok, seats_ok,
    MAX_SEATS};
use crate::werewolf::tally::{leaders, lemma_keys_few, lemma_leaders, vote_leaders, Weights};
use crate::werewolf::types::{DeathCause, DeathEvent, RecapEvent, RecapView, Role, Stage};

verus! {

/// Whether the last death of this player on this day was in the night.
pub open spec fn died_at_night(deaths: Seq<DeathEvent>, player: usize, day: u32) -> bool
    decreases deaths.len(),
{
    if deaths.len() == 0 {
        false
    } else if deaths.last().player_idx == player && deaths.last().day == day {
        deaths.last().night
    } else {
        died_at_night(deaths.drop_last(), player, day)
    }
}

impl GameView {
    /// The first `k` seats met from the one beside `from` on, in one direction, that
    /// are of living players.
    pub open spec fn beside(self, from: int, clockwise: bool, k: nat) -> Seq<usize>
        decreases k,
    {
        if k == 0 {
            Seq::empty()
        } else {
            let n = self.players.len() as int;
            let seat = if clockwise {
                (from + k) % n
            } else {
                (from + n - k) % n
            };
            if self.players[seat].alive {
                self.beside(from, clockwise, (k - 1) as nat).push(seat as usize)
            } else {
                self.beside(from, clockwise, (k - 1) as nat)
            }
        }
    }

    /// The sheriff picks the direction of the speeches and speaks last.
    pub open spec fn pick_sheriff_direction(self, who: Seq<char>, clockwise: bool) -> Result<
        GameView,
        GameError,
    > {
        if self.stage != Stage::SheriffPickDirection {
            Err(GameError::NotDirectionStage)
        } else {
            match self.seat_of(who) {
                None => Err(GameError::NotSeated),
                Some(i) => if self.sheriff_idx != Some(i) {
                    Err(GameError::NotYourDirection)
                } else {
                    Ok(
                        GameView {
                            event_log: self.event_log.push(
                                "警长 "@ + self.players[i as int].name + " 选择 "@ + (if clockwise {
                                    "警上 (顺时针)"@
                                } else {
                                    "警下 (逆时针)"@
                                }) + " 起手"@,
                            ),
                            recap_log: self.recap_log.push(
                                RecapView::SheriffDirection { clockwise },
                            ),
                            ..self.speeches_begin(
                                self.beside(
                                    i as int,
                                    clockwise,
                                    (self.players.len() - 1) as nat,
                                ).push(i),
                            )
                        },
                    )
                },
            }
        }
    }

    /// Who is to speak.
    pub open spec fn day_speaker(self) -> Option<usize> {
        if self.day_speech_idx < self.day_speech_order.len() {
            Some(self.day_speech_order[self.day_speech_idx as int])
        } else {
            None
        }
    }

    /// A player speaks when it is the player's turn.
    pub open spec fn submit_day_speech(self, who: Seq<char>, text: Seq<char>) -> Result<
        GameView,
        GameError,
    > {
        if self.stage != Stage::DaySpeech {
            Err(GameError::NotDaySpeechStage)
        } else {
            match self.seat_of(who) {
                None => Err(GameError::NotSeated),
                Some(i) => if self.day_speaker() is None {
                    Err(GameError::SpeechesOver)
                } else if self.day_speaker() != Some(i) {
                    Err(GameError::NotYourTurn)
                } else {
                    Ok(
                        GameView {
                            event_log: self.event_log.push(
                                "第 "@ + decimal_text(self.day as nat) + " 天 · "@
                                    + self.players[i as int].name + " 发言："@ + spoken(text),
                            ),
                            recap_log: self.recap_log.push(
                                RecapView::DaySpeech {
                                    day: self.day,
                                    player: i,
                                    text: spoken(text),
                                },
                            ),
                            day_speeches: self.day_speeches.push((i, spoken(text))),
                            day_speech_idx: (self.day_speech_idx + 1) as usize,
                            day_speech_private_msg: None,
                            ..self
                        },
                    )
                },
            }
        }
    }

    /// Whose last words are due.
    pub open spec fn last_words_speaker(self) -> Option<usize> {
        if self.last_words_idx < self.last_words_queue.len() {
            Some(self.last_words_queue[self.last_words_idx as int])
        } else {
            None
        }
    }

    /// Somebody says last words when it is the player's turn.
    pub open spec fn submit_last_words(self, who: Seq<char>, text: Seq<char>) -> Result<
        GameView,
        GameError,
    > {
        if self.stage != Stage::LastWords {
            Err(GameError::NotLastWordsStage)
        } else {
            match self.seat_of(who) {
                None => Err(GameError::NotSeated),
                Some(i) => if self.last_words_speaker() is None {
                    Err(GameError::LastWordsOver)
                } else if self.last_words_speaker() != Some(i) {
                    Err(GameError::NotYourLastWords)
                } else {
                    Ok(
                        GameView {
                            event_log: self.event_log.push(
                                self.players[i as int].name + " 的遗言："@ + spoken(text),
                            ),
                            recap_log: self.recap_log.push(
                                RecapView::LastWords {
                                    day: self.day,
                                    night: died_at_night(self.deaths, i, self.day),
                                    player: i,
                                    text: spoken(text),
                                },
                            ),
                            last_words_speeches: self.last_words_speeches.push((i, spoken(text))),
                            last_words_idx: (self.last_words_idx + 1) as usize,
                            last_words_private_msg: None,
                            ..self
                        },
                    )
                },
            }
        }
    }

    /// The last words are over: a shot, then a badge, come next if they are due.
    pub open spec fn finish_last_words(self, start: usize) -> Result<GameView, GameError> {
        if self.stage != Stage::LastWords {
            Err(GameError::NotLastWordsStage)
        } else if self.last_words_idx < self.last_words_queue.len() {
            Err(GameError::LastWordsPending)
        } else if self.pending_hunter is Some {
            Ok(GameView { stage: Stage::HunterShoot, ..self })
        } else if self.pending_badge is Some {
            Ok(GameView { stage: Stage::BadgePass, ..self })
        } else {
            Ok(
                GameView { last_words_post_stage: None, ..self }.continued(
                    self.last_words_post_stage,
                    start,
                ),
            )
        }
    }

    /// The new sheriff, if the old one names somebody who may have the badge.
    pub open spec fn badge_target(self, from: usize, target: Option<Seq<char>>) -> Result<
        Option<usize>,
        GameError,
    > {
        match target {
            None => Ok(None),
            Some(id) => match self.living_target(
                id,
                GameError::TargetMissing,
                GameError::BadgeToDead,
            ) {
                Err(e) => Err(e),
                Ok(t) => if t == from {
                    Err(GameError::BadgeToSelf)
                } else {
                    Ok(Some(t))
                },
            },
        }
    }

    /// The badge of `from` has gone to `to`, or is destroyed.
    pub open spec fn badge_passed(self, from: usize, to: Option<usize>) -> GameView {
        GameView {
            sheriff_idx: to,
            event_log: self.event_log.push(
                match to {
                    Some(t) => "警徽从 "@ + self.players[from as int].name + " 移交给 "@
                        + self.players[t as int].name,
                    None => self.players[from as int].name + " 撕毁警徽"@,
                },
            ),
            recap_log: self.recap_log.push(RecapView::BadgePass { day: self.day, from, to }),
            pending_badge: None,
            pending_badge_post_stage: None,
            ..self
        }
    }

    /// A dead sheriff passes the badge on or destroys it.
    pub open spec fn transfer_badge(
        self,
        who: Seq<char>,
        target: Option<Seq<char>>,
        start: usize,
    ) -> Result<(GameView, Option<usize>), GameError> {
        if self.stage != Stage::BadgePass {
            Err(GameError::NotBadgeStage)
        } else {
            match self.seat_of(who) {
                None => Err(GameError::NotSeated),
                Some(s) => if self.pending_badge != Some(s) {
                    Err(GameError::NotYourBadge)
                } else {
                    match self.badge_target(s, target) {
                        Err(e) => Err(e),
                        Ok(to) => Ok(
                            (
                                self.badge_passed(s, to).continued(
                                    self.pending_badge_post_stage,
                                    start,
                                ),
                                to,
                            ),
                        ),
                    }
                },
            }
        }
    }

    /// The speeches end and the vote opens.
    pub open spec fn enter_day_vote(self) -> Result<GameView, GameError> {
        if self.stage != Stage::DaySpeech {
            Err(GameError::NotSpeechStage)
        } else {
            Ok(
                GameView {
                    stage: Stage::DayVote,
                    day_votes: Seq::empty(),
                    day_vote_msgs: Seq::empty(),
                    day_vote_public_msg: None,
                    ..self
                },
            )
        }
    }

    /// Who can be voted for: in the second round those tied in the first.
    pub open spec fn vote_candidates(self) -> Seq<usize> {
        if self.day_vote_round == 1 {
            self.day_pk_candidates
        } else {
            self.alive_seats()
        }
    }

    /// Whether the player in seat `i` votes: the living do, but in the second round not
    /// those who stand in it.
    pub open spec fn votes(self) -> spec_fn(int) -> bool {
        |i: int|
            self.players[i].alive && (self.day_vote_round == 0 || !self.day_pk_candidates.contains(
                i as usize,
            ))
    }

    /// Who votes.
    pub open spec fn voter_seats(self) -> Seq<usize> {
        indices_where(self.players.len(), self.votes())
    }

    /// What the votes of the day weigh: 3 of the sheriff, 2 of anybody else.
    pub open spec fn day_weights(self) -> Weights {
        Weights { heavy: self.sheriff_idx, light: 2, big: 3 }
    }

    /// The seat that a voter votes for.
    pub open spec fn vote_target(self, voter: usize, target: Option<Seq<char>>) -> Result<
        Option<usize>,
        GameError,
    > {
        match target {
            None => Ok(None),
            Some(id) => match self.living_target(
                id,
                GameError::TargetMissing,
                GameError::VoteDead,
            ) {
                Err(e) => Err(e),
                Ok(t) => if !self.vote_candidates().contains(t) {
                    Err(GameError::NotOnBallot)
                } else if t == voter {
                    Err(GameError::VoteSelf)
                } else {
                    Ok(Some(t))
                },
            },
        }
    }

    /// Somebody votes for another candidate or abstains.
    pub open spec fn cast_vote(self, who: Seq<char>, target: Option<Seq<char>>) -> Result<
        GameView,
        GameError,
    > {
        if self.stage != Stage::DayVote {
            Err(GameError::NotVoteStage)
        } else {
            match self.seat_of(who) {
                None => Err(GameError::NotSeated),
                Some(v) => if !self.voter_seats().contains(v) {
                    Err(GameError::CannotVote)
                } else {
                    match self.vote_target(v, target) {
                        Err(e) => Err(e),
                        Ok(t) => Ok(
                            GameView {
                                day_votes: put_key(self.day_votes, v, t),
                                recap_log: self.recap_log.push(
                                    RecapView::DayVoteCast {
                                        day: self.day,
                                        voter: v,
                                        target: t,
                                        weight: self.day_weights().of(v) as u32,
                                    },
                                ),
                                ..self
                            },
                        ),
                    }
                },
            }
        }
    }

    /// A line of the day's history.
    pub open spec fn day_line(self, rest: Seq<char>) -> Seq<char> {
        "第 "@ + decimal_text(self.day as nat) + " 天："@ + rest
    }

    /// Somebody dies during the day.
    pub open spec fn die_by_day(self, i: usize, cause: DeathCause, line: Seq<char>) -> GameView {
        GameView {
            players: self.players_without(i),
            deaths: self.deaths.push(
                DeathEvent { day: self.day, night: false, player_idx: i, cause },
            ),
            recap_log: self.recap_log.push(
                RecapView::Death { day: self.day, night: false, player: i, cause },
            ),
            event_log: self.event_log.push(line),
            ..self
        }
    }

    /// Nobody is banished.
    pub open spec fn nobody_lynched(self, line: Seq<char>) -> GameView {
        GameView {
            last_day_lynched: None,
            event_log: self.event_log.push(line),
            recap_log: self.recap_log.push(RecapView::DayLynch { day: self.day, target: None }),
            ..self
        }
    }

    /// The vote is counted: the leader is banished; a first tie leads to a second round
    /// among the tied, a second tie or no vote to nobody's banishment.
    pub open spec fn resolve_lynch(self) -> Result<(GameView, Option<usize>), GameError> {
        if self.stage != Stage::DayVote {
            Err(GameError::NotVoteStage)
        } else {
            let g = GameView {
                recap_log: self.recap_log.push(
                    RecapView::DayVoteRound {
                        day: self.day,
                        round: (self.day_vote_round + 1) as u8,
                        votes: self.day_votes,
                    },
                ),
                ..self
            };
            let top = leaders(self.day_votes, self.day_weights());
            Ok(
                if top.len() == 0 {
                    (g.nobody_lynched(self.day_line("全员弃权，无人放逐。"@)), None)
                } else if top.len() > 1 && self.day_vote_round == 0 {
                    (
                        GameView {
                            last_day_lynched: None,
                            day_vote_round: 1,
                            day_pk_candidates: top,
                            event_log: self.event_log.push(
                                self.day_line("投票平票，进入 PK 发言。"@),
                            ),
                            ..g
                        }.speeches_begin(top),
                        None,
                    )
                } else if top.len() > 1 {
                    (g.nobody_lynched(self.day_line("PK 再次平票，无人放逐。"@)), None)
                } else {
                    let h = g.die_by_day(
                        top[0],
                        DeathCause::Lynch,
                        self.day_line(self.players[top[0] as int].name + " 被投票放逐。"@),
                    );
                    (
                        GameView {
                            last_day_lynched: Some(top[0]),
                            recap_log: h.recap_log.push(
                                RecapView::DayLynch { day: self.day, target: Some(top[0]) },
                            ),
                            ..h
                        },
                        Some(top[0]),
                    )
                },
            )
        }
    }

    /// After the vote: the banished has last words, then may shoot, then passes the
    /// badge on; with nobody banished the night follows. In a second round the game stays.
    pub open spec fn advance_after_vote(self) -> GameView {
        if self.stage == Stage::DaySpeech && self.day_vote_round == 1 {
            self
        } else {
            match self.last_day_lynched {
                Some(i) => {
                    let shoots = self.players[i as int].role is Some
                        && self.players[i as int].role->0.shoots();
                    let badge = self.sheriff_idx == Some(i);
                    GameView {
                        pending_hunter: if shoots {
                            Some(i)
                        } else {
                            self.pending_hunter
                        },
                        pending_hunter_post_stage: if shoots {
                            Some(Stage::DayVote)
                        } else {
                            self.pending_hunter_post_stage
                        },
                        pending_badge: if badge {
                            Some(i)
                        } else {
                            self.pending_badge
                        },
                        pending_badge_post_stage: if badge {
                            Some(Stage::DayVote)
                        } else {
                            self.pending_badge_post_stage
                        },
                        last_words_queue: seq![i],
                        last_words_idx: 0,
                        last_words_speeches: Seq::empty(),
                        last_words_public_msg: None,
                        last_words_private_msg: None,
                        last_words_post_stage: Some(Stage::DayVote),
                        stage: Stage::LastWords,
                        ..self
                    }
                },
                None => self.next_night(),
            }
        }
    }

    /// Whether the sheriff election is going on.
    pub open spec fn in_election(self) -> bool {
        ||| self.stage == Stage::SheriffNominate
        ||| self.stage == Stage::SheriffSpeech
        ||| self.stage == Stage::SheriffWithdraw
        ||| self.stage == Stage::SheriffVote
    }

    /// Whether the day is on and the dead are announced.
    pub open spec fn in_open_day(self) -> bool {
        ||| self.stage == Stage::SheriffPickDirection
        ||| self.stage == Stage::DaySpeech
        ||| self.stage == Stage::DayVote
    }

    /// A wolf blows up, which ends the day; during the election there will be no sheriff.
    pub open spec fn self_explode(self, who: Seq<char>) -> Result<(GameView, usize), GameError> {
        if !self.in_election() && !self.in_open_day() {
            Err(GameError::CannotExplode)
        } else {
            match self.living_wolf_seat(who) {
                Err(e) => Err(e),
                Ok(i) => {
                    let g = self.die_by_day(
                        i,
                        DeathCause::SelfExplode,
                        self.day_line(self.players[i as int].name + " 自爆。"@),
                    );
                    Ok(
                        (
                            if self.in_election() {
                                GameView {
                                    sheriff_enabled: false,
                                    sheriff_idx: None,
                                    sheriff_votes: Seq::empty(),
                                    sheriff_pk_candidates: Seq::empty(),
                                    skip_day_after_reveal: true,
                                    stage: Stage::DayReveal,
                                    ..g
                                }
                            } else if self.sheriff_idx == Some(i) {
                                GameView {
                                    pending_badge: Some(i),
                                    pending_badge_post_stage: Some(Stage::DayVote),
                                    stage: Stage::BadgePass,
                                    ..g
                                }
                            } else {
                                g.next_night()
                            },
                            i,
                        ),
                    )
                },
            }
        }
    }

    /// The seat that a shooter shoots at.
    pub open spec fn shot_target(self, shooter: usize, target: Option<Seq<char>>) -> Result<
        Option<usize>,
        GameError,
    > {
        match target {
            None => Ok(None),
            Some(id) => match self.living_target(
                id,
                GameError::TargetMissing,
                GameError::ShootDead,
            ) {
                Err(e) => Err(e),
                Ok(t) => if t == shooter {
                    Err(GameError::ShootSelf)
                } else {
                    Ok(Some(t))
                },
            },
        }
    }

    /// The shot at `t`, announced without the shooter's role.
    pub open spec fn shot(self, shooter: usize, t: usize) -> GameView {
        let night = self.pending_hunter_post_stage == Some(Stage::DayReveal);
        GameView {
            players: self.players_without(t),
            deaths: self.deaths.push(
                DeathEvent {
                    day: self.day,
                    night,
                    player_idx: t,
                    cause: DeathCause::HunterShot,
                },
            ),
            recap_log: self.recap_log.push(
                RecapView::Death {
                    day: self.day,
                    night,
                    player: t,
                    cause: DeathCause::HunterShot,
                },
            ),
            event_log: self.event_log.push(
                self.players[shooter as int].name + " 临死前开枪带走 "@
                    + self.players[t as int].name,
            ),
            last_night_deaths: if night {
                self.last_night_deaths.push(t)
            } else {
                self.last_night_deaths
            },
            ..self
        }
    }

    /// The shooter has shot or held fire.
    pub open spec fn shot_done(self, shooter: usize, target: Option<usize>) -> GameView {
        let g = match target {
            Some(t) => self.shot(shooter, t),
            None => GameView {
                event_log: self.event_log.push(
                    self.players[shooter as int].name + " 选择不开枪"@,
                ),
                ..self
            },
        };
        GameView {
            recap_log: g.recap_log.push(
                RecapView::HunterShot { day: self.day, shooter, target },
            ),
            pending_hunter: None,
            pending_hunter_post_stage: None,
            pending_hunter_ai_decision: None,
            ..g
        }
    }

    /// A dead hunter or wolf king shoots somebody or holds fire; a dead sheriff's badge
    /// comes next.
    pub open spec fn hunter_shoot(
        self,
        who: Seq<char>,
        target: Option<Seq<char>>,
        start: usize,
    ) -> Result<(GameView, Option<usize>), GameError> {
        if self.stage != Stage::HunterShoot {
            Err(GameError::NotShootStage)
        } else {
            match self.seat_of(who) {
                None => Err(GameError::NotSeated),
                Some(h) => if self.pending_hunter != Some(h) {
                    Err(GameError::NotYourShot)
                } else {
                    match self.shot_target(h, target) {
                        Err(e) => Err(e),
                        Ok(t) => {
                            let post = self.pending_hunter_post_stage;
                            let g = self.shot_done(h, t);
                            Ok(
                                (
                                    if g.sheriff_idx is Some
                                        && !g.players[g.sheriff_idx->0 as int].alive {
                                        GameView {
                                            pending_badge: g.sheriff_idx,
                                            pending_badge_post_stage: post,
                                            stage: Stage::BadgePass,
                                            ..g
                                        }
                                    } else {
                                        g.continued(post, start)
                                    },
                                    t,
                                ),
                            )
                        },
                    }
                },
            }
        }
    }
}

/// The order of the speeches names seats of the table.
proof fn lemma_beside(g: GameView, from: int, clockwise: bool, k: nat)
    requires
        0 <= from < g.players.len(),
        k < g.players.len(),
    ensures
        seats_ok(g.beside(from, clockwise, k), g.players.len()),
    decreases k,
{
    if k > 0 {
        lemma_beside(g, from, clockwise, (k - 1) as nat);
    }
}

impl WolfGame {
    /// The sheriff picks the direction of the speeches: upward from the seat after the
    /// sheriff's, or downward from the seat before it. The sheriff speaks last.
    pub fn pick_sheriff_direction(&mut self, sheriff_open_id: &str, clockwise: bool) -> (r: Result<
        (),
        GameError,
    >)
        requires
            old(self)@.wf(),
        ensures
            final(self)@.wf(),
            follows(
                r,
                old(self)@,
                final(self)@,
                old(self)@.pick_sheriff_direction(sheriff_open_id@, clockwise),
            ),
    {
        if self.stage != Stage::SheriffPickDirection {
            return Err(GameError::NotDirectionStage);
        }
        let i: usize = match self.find_player(sheriff_open_id) {
            None => {
                return Err(GameError::NotSeated);
            },
            Some(i) => i,
        };
        if self.sheriff_idx != Some(i) {
            return Err(GameError::NotYourDirection);
        }
        let n: usize = self.players.len();
        let mut order: Vec<usize> = Vec::new();
        let mut k: usize = 1;
        while k < n
            invariant
                1 <= k <= n,
                i < n,
                n == self.players.len(),
                n <= MAX_SEATS,
                order@ == self@.beside(i as int, clockwise, (k - 1) as nat),
            decreases n - k,
        {
            let seat: usize = if clockwise {
                (i + k) % n
            } else {
                (i + n - k) % n
            };
            if self.players[seat].alive {
                order.push(seat);
            }
            k = k + 1;
        }
        proof {
            lemma_beside(self@, i as int, clockwise, (n - 1) as nat);
        }
        order.push(i);
        let line = cat5(
            "警长 ",
            self.players[i].name.as_str(),
            " 选择 ",
            if clockwise {
                "警上 (顺时针)"
            } else {
                "警下 (逆时针)"
            },
            " 起手",
        );
        self.begin_speeches(order);
        self.event_log.push(line);
        self.recap_log.push(RecapEvent::SheriffDirection { clockwise });
        Ok(())
    }

    /// Who is to speak; nobody when all have spoken.
    pub fn current_day_speaker(&self) -> (r: Option<usize>)
        ensures
            r == self@.day_speaker(),
    {
        if self.day_speech_idx < self.day_speech_order.len() {
            Some(self.day_speech_order[self.day_speech_idx])
        } else {
            None
        }
    }

    /// A player speaks; a blank text is silence.
    pub fn submit_day_speech(&mut self, speaker_open_id: &str, text: String) -> (r: Result<
        (),
        GameError,
    >)
        requires
            old(self)@.wf(),
        ensures
            final(self)@.wf(),
            follows(
                r,
                old(self)@,
                final(self)@,
                old(self)@.submit_day_speech(speaker_open_id@, text@),
            ),
    {
        if self.stage != Stage::DaySpeech {
            return Err(GameError::NotDaySpeechStage);
        }
        let i: usize = match self.find_player(speaker_open_id) {
            None => {
                return Err(GameError::NotSeated);
            },
            Some(i) => i,
        };
        let turn: usize = self.day_speech_idx;
        if turn >= self.day_speech_order.len() {
            return Err(GameError::SpeechesOver);
        }
        if i != self.day_speech_order[turn] {
            return Err(GameError::NotYourTurn);
        }
        let display = speech_text(text.as_str());
        let line = cat6(
            "第 ",
            decimal(self.day as u64).as_str(),
            " 天 · ",
            self.players[i].name.as_str(),
            " 发言：",
            display.as_str(),
        );
        self.event_log.push(line);
        self.recap_log.push(
            RecapEvent::DaySpeech { day: self.day, player: i, text: display.clone() },
        );
        self.day_speeches.push((i, display));
        self.day_speech_idx = turn + 1;
        self.day_speech_private_msg = None;
        assert(self@.day_speeches == old(self)@.day_speeches.push((i, spoken(text@))));
        Ok(())
    }

    /// Whether everybody has spoken.
    pub fn all_day_speeches_done(&self) -> (r: bool)
        ensures
            r == (self@.day_speaker() is None),
    {
        self.day_speech_idx >= self.day_speech_order.len()
    }

    /// Whose last words are due.
    pub fn current_last_words_speaker(&self) -> (r: Option<usize>)
        ensures
            r == self@.last_words_speaker(),
    {
        if self.last_words_idx < self.last_words_queue.len() {
            Some(self.last_words_queue[self.last_words_idx])
        } else {
            None
        }
    }

    /// Whether the last death of this player on this day was in the night.
    fn last_death_at_night(&self, player: usize) -> (r: bool)
        ensures
            r == died_at_night(self@.deaths, player, self@.day),
    {
        let mut i: usize = self.deaths.len();
        assert(self.deaths@.take(i as int) =~= self.deaths@);
        while i > 0
            invariant
                i <= self.deaths.len(),
                died_at_night(self@.deaths, player, self@.day) == died_at_night(
                    self.deaths@.take(i as int),
                    player,
                    self@.day,
                ),
            decreases i,
        {
            i = i - 1;
            assert(self.deaths@.take(i + 1).drop_last() =~= self.deaths@.take(i as int));
            if self.deaths[i].player_idx == player && self.deaths[i].day == self.day {
                return self.deaths[i].night;
            }
        }
        false
    }

    /// Somebody says last words; a blank text is silence.
    pub fn submit_last_words(&mut self, speaker_open_id: &str, text: String) -> (r: Result<
        (),
        GameError,
    >)
        requires
            old(self)@.wf(),
        ensures
            final(self)@.wf(),
            follows(
                r,
                old(self)@,
                final(self)@,
                old(self)@.submit_last_words(speaker_open_id@, text@),
            ),
    {
        if self.stage != Stage::LastWords {
            return Err(GameError::NotLastWordsStage);
        }
        let i: usize = match self.find_player(speaker_open_id) {
            None => {
                return Err(GameError::NotSeated);
            },
            Some(i) => i,
        };
        let turn: usize = self.last_words_idx;
        if turn >= self.last_words_queue.len() {
            return Err(GameError::LastWordsOver);
        }
        if i != self.last_words_queue[turn] {
            return Err(GameError::NotYourLastWords);
        }
        let display = speech_text(text.as_str());
        let line = cat3(self.players[i].name.as_str(), " 的遗言：", display.as_str());
        let night: bool = self.last_death_at_night(i);
        self.event_log.push(line);
        self.recap_log.push(
            RecapEvent::LastWords { day: self.day, night, player: i, text: display.clone() },
        );
        self.last_words_speeches.push((i, display));
        self.last_words_idx = turn + 1;
        self.last_words_private_msg = None;
        assert(self@.last_words_speeches == old(self)@.last_words_speeches.push(
            (i, spoken(text@)),
        ));
        Ok(())
    }

    /// Whether all last words are said.
    pub fn all_last_words_done(&self) -> (r: bool)
        ensures
            r == (self@.last_words_speaker() is None),
    {
        self.last_words_idx >= self.last_words_queue.len()
    }

    /// The last words are over.
    pub fn finish_last_words(&mut self) -> (r: Result<(), GameError>)
        requires
            old(self)@.wf(),
            old(self).day < u32::MAX,
        ensures
            final(self)@.wf(),
            exists|start: usize|
                final(self)@.may_start(start) && follows(
                    r,
                    old(self)@,
                    final(self)@,
                    #[trigger] old(self)@.finish_last_words(start),
                ),
    {
        let ghost g = self@;
        proof {
            let start = lemma_some_start(g);
            assert(g.finish_last_words(start) is Ok || g.finish_last_words(start) is Err);
        }
        if self.stage != Stage::LastWords {
            return Err(GameError::NotLastWordsStage);
        }
        if self.last_words_idx < self.last_words_queue.len() {
            return Err(GameError::LastWordsPending);
        }
        if self.pending_hunter.is_some() {
            self.stage = Stage::HunterShoot;
        } else if self.pending_badge.is_some() {
            self.stage = Stage::BadgePass;
        } else {
            let post = self.last_words_post_stage;
            self.last_words_post_stage = None;
            let ghost h = self@;
            assert(h == GameView { last_words_post_stage: None, ..g });
            self.continue_after_special_stage(post);
            proof {
                let start = choose|start: usize|
                    self@.may_start(start) && self@ == (#[trigger] h.continued(post, start));
                assert(g.finish_last_words(start) == Ok::<GameView, GameError>(self@));
            }
            return Ok(());
        }
        proof {
            let start = lemma_some_start(self@);
            assert(g.finish_last_words(start) == Ok::<GameView, GameError>(self@));
        }
        Ok(())
    }

    /// What a vote of this seat weighs.
    fn vote_weight(&self, voter_idx: usize) -> (r: u32)
        ensures
            r == self@.day_weights().of(voter_idx),
    {
        if self.sheriff_idx == Some(voter_idx) {
            3
        } else {
            2
        }
    }

    /// The badge of `from` goes to `to`, or is destroyed.
    fn pass_badge(&mut self, from: usize, to: Option<usize>)
        requires
            from < old(self).players.len(),
            seat_ok(to, old(self).players@.len()),
        ensures
            final(self)@ == old(self)@.badge_passed(from, to),
    {
        let line = match to {
            Some(t) => cat4(
                "警徽从 ",
                self.players[from].name.as_str(),
                " 移交给 ",
                self.players[t].name.as_str(),
            ),
            None => cat2(self.players[from].name.as_str(), " 撕毁警徽"),
        };
        self.sheriff_idx = to;
        self.event_log.push(line);
        self.recap_log.push(RecapEvent::BadgePass { day: self.day, from, to });
        self.pending_badge = None;
        self.pending_badge_post_stage = None;
    }

    /// A dead sheriff passes the badge on, or destroys it.
    pub fn transfer_badge(&mut self, sheriff_open_id: &str, target_open_id: Option<&str>) -> (r:
        Result<Option<usize>, GameError>)
        requires
            old(self)@.wf(),
            old(self).day < u32::MAX,
        ensures
            final(self)@.wf(),
            exists|start: usize|
                final(self)@.may_start(start) && follows_with(
                    r,
                    old(self)@,
                    final(self)@,
                    #[trigger] old(self)@.transfer_badge(
                        sheriff_open_id@,
                        target_open_id.deep_view(),
                        start,
                    ),
                ),
    {
        let ghost g = self@;
        let ghost who = sheriff_open_id@;
        let ghost target = target_open_id.deep_view();
        proof {
            let start = lemma_some_start(g);
            assert(g.transfer_badge(who, target, start) is Ok || g.transfer_badge(who, target, start) is Err);
        }
        if self.stage != Stage::BadgePass {
            return Err(GameError::NotBadgeStage);
        }
        let s: usize = match self.find_player(sheriff_open_id) {
            None => {
                return Err(GameError::NotSeated);
            },
            Some(s) => s,
        };
        if self.pending_badge != Some(s) {
            return Err(GameError::NotYourBadge);
        }
        let mut to: Option<usize> = None;
        if let Some(id) = target_open_id {
            let t: usize = match self.seat_of_target(
                id,
                GameError::TargetMissing,
                GameError::BadgeToDead,
            ) {
                Err(e) => {
                    return Err(e);
                },
                Ok(t) => t,
            };
            if t == s {
                return Err(GameError::BadgeToSelf);
            }
            to = Some(t);
        }
        let post = self.pending_badge_post_stage;
        self.pass_badge(s, to);
        let ghost h = self@;
        self.continue_after_special_stage(post);
        proof {
            let start = choose|start: usize|
                self@.may_start(start) && self@ == (#[trigger] h.continued(post, start));
            assert(g.transfer_badge(who, target, start) == Ok::<
                (GameView, Option<usize>),
                GameError,
            >((self@, to)));
        }
        Ok(to)
    }

    /// The speeches end and the vote opens.
    pub fn enter_day_vote(&mut self) -> (r: Result<(), GameError>)
        requires
            old(self)@.wf(),
        ensures
            final(self)@.wf(),
            follows(r, old(self)@, final(self)@, old(self)@.enter_day_vote()),
    {
        if self.stage != Stage::DaySpeech {
            return Err(GameError::NotSpeechStage);
        }
        self.stage = Stage::DayVote;
        self.day_votes.clear();
        self.day_vote_msgs.clear();
        self.day_vote_public_msg = None;
        Ok(())
    }

    /// Notes the vote card of a player.
    pub fn set_day_vote_msg(&mut self, open_id: &str, msg_id: String)
        ensures
            final(self)@ == (GameView {
                day_vote_msgs: put_key(old(self)@.day_vote_msgs, open_id@, msg_id@),
                ..old(self)@
            }),
    {
        put_name(&mut self.day_vote_msgs, open_id, msg_id);
    }

    /// The vote card of a player.
    pub fn day_vote_msg(&self, open_id: &str) -> (r: Option<&str>)
        ensures
            r.deep_view() == get_key(self@.day_vote_msgs, open_id@),
    {
        get_name(&self.day_vote_msgs, open_id)
    }

    /// Somebody votes for another player, or abstains.
    pub fn cast_vote(&mut self, voter_open_id: &str, target_open_id: Option<&str>) -> (r: Result<
        (),
        GameError,
    >)
        requires
            old(self)@.wf(),
        ensures
            final(self)@.wf(),
            follows(
                r,
                old(self)@,
                final(self)@,
                old(self)@.cast_vote(voter_open_id@, target_open_id.deep_view()),
            ),
    {
        if self.stage != Stage::DayVote {
            return Err(GameError::NotVoteStage);
        }
        let v: usize = match self.find_player(voter_open_id) {
            None => {
                return Err(GameError::NotSeated);
            },
            Some(v) => v,
        };
        if !holds(&self.day_voters(), v) {
            return Err(GameError::CannotVote);
        }
        let mut target: Option<usize> = None;
        if let Some(id) = target_open_id {
            let t: usize = match self.seat_of_target(
                id,
                GameError::TargetMissing,
                GameError::VoteDead,
            ) {
                Err(e) => {
                    return Err(e);
                },
                Ok(t) => t,
            };
            if !holds(&self.day_vote_candidates(), t) {
                return Err(GameError::NotOnBallot);
            }
            if t == v {
                return Err(GameError::VoteSelf);
            }
            target = Some(t);
        }
        proof {
            lemma_put_votes_ok(self@.day_votes, v, target, self@.players.len());
        }
        let weight: u32 = self.vote_weight(v);
        self.day_votes.cast(v, target);
        self.recap_log.push(RecapEvent::DayVoteCast { day: self.day, voter: v, target, weight });
        Ok(())
    }

    /// Whether everybody who votes has voted or abstained.
    pub fn all_alive_voted(&self) -> (r: bool)
        ensures
            r == (forall|i: int|
                0 <= i < self@.voter_seats().len() ==> has_key(
                    self@.day_votes,
                    #[trigger] self@.voter_seats()[i],
                )),
    {
        let seats = self.day_voters();
        let mut i: usize = 0;
        while i < seats.len()
            invariant
                i <= seats.len(),
                seats@ == self@.voter_seats(),
                forall|k: int|
                    0 <= k < i ==> has_key(self@.day_votes, #[trigger] self@.voter_seats()[k]),
            decreases seats.len() - i,
        {
            if self.day_votes.for_voter(seats[i]).is_none() {
                assert(!has_key(self@.day_votes, self@.voter_seats()[i as int]));
                return false;
            }
            i = i + 1;
        }
        true
    }

    /// Who can be voted for.
    pub fn day_vote_candidates(&self) -> (r: Vec<usize>)
        ensures
            r@ == self@.vote_candidates(),
    {
        if self.day_vote_round == 1 {
            copy_of(&self.day_pk_candidates)
        } else {
            self.alive_indices()
        }
    }

    /// Who votes.
    pub fn day_voters(&self) -> (r: Vec<usize>)
        ensures
            r@ == self@.voter_seats(),
    {
        let mut r: Vec<usize> = Vec::new();
        let mut i: usize = 0;
        while i < self.players.len()
            invariant
                i <= self.players.len(),
                r@ == indices_where(i as nat, self@.votes()),
            decreases self.players.len() - i,
        {
            if self.players[i].alive && (self.day_vote_round == 0 || !holds(
                &self.day_pk_candidates,
                i,
            )) {
                r.push(i);
            }
            i = i + 1;
        }
        r
    }

    /// A line of the day's history.
    fn line_of_day(&self, rest: &str) -> (r: String)
        ensures
            r@ == self@.day_line(rest@),
    {
        cat4("第 ", decimal(self.day as u64).as_str(), " 天：", rest)
    }

    /// Somebody dies during the day.
    fn apply_day_death(&mut self, idx: usize, cause: DeathCause, line: String)
        requires
            idx < old(self).players.len(),
        ensures
            final(self)@ == old(self)@.die_by_day(idx, cause, line@),
    {
        self.players[idx].alive = false;
        self.deaths.push(DeathEvent { day: self.day, night: false, player_idx: idx, cause });
        self.recap_log.push(RecapEvent::Death { day: self.day, night: false, player: idx, cause });
        self.event_log.push(line);
    }

    /// Nobody is banished.
    fn banish_nobody(&mut self, line: String)
        ensures
            final(self)@ == old(self)@.nobody_lynched(line@),
    {
        self.last_day_lynched = None;
        self.event_log.push(line);
        self.recap_log.push(RecapEvent::DayLynch { day: self.day, target: None });
    }

    /// Counts the vote of the day.
    pub fn resolve_lynch(&mut self) -> (r: Result<Option<usize>, GameError>)
        requires
            old(self)@.wf(),
        ensures
            final(self)@.wf(),
            follows_with(r, old(self)@, final(self)@, old(self)@.resolve_lynch()),
    {
        if self.stage != Stage::DayVote {
            return Err(GameError::NotVoteStage);
        }
        let ghost g = self@;
        proof {
            lemma_keys_few(g.day_votes, g.players.len());
            lemma_leaders(g.day_votes, g.day_weights(), g.players.len());
        }
        let top = vote_leaders(
            &self.day_votes.votes,
            Weights { heavy: self.sheriff_idx, light: 2, big: 3 },
        );
        let votes = self.day_votes.copy_votes();
        self.recap_log.push(
            RecapEvent::DayVoteRound { day: self.day, round: self.day_vote_round + 1, votes },
        );
        let ghost h = self@;
        assert(h == GameView {
            recap_log: g.recap_log.push(
                RecapView::DayVoteRound {
                    day: g.day,
                    round: (g.day_vote_round + 1) as u8,
                    votes: g.day_votes,
                },
            ),
            ..g
        });
        if top.len() == 0 {
            let line = self.line_of_day("全员弃权，无人放逐。");
            self.banish_nobody(line);
            return Ok(None);
        }
        if top.len() > 1 {
            if self.day_vote_round == 0 {
                let line = self.line_of_day("投票平票，进入 PK 发言。");
                self.last_day_lynched = None;
                self.day_vote_round = 1;
                self.day_pk_candidates = copy_of(&top);
                self.event_log.push(line);
                assert(self@ == GameView {
                    last_day_lynched: None,
                    day_vote_round: 1,
                    day_pk_candidates: top@,
                    event_log: g.event_log.push(g.day_line("投票平票，进入 PK 发言。"@)),
                    ..h
                });
                self.begin_speeches(top);
            } else {
                let line = self.line_of_day("PK 再次平票，无人放逐。");
                self.banish_nobody(line);
            }
            return Ok(None);
        }
        let lynched: usize = top[0];
        let line = self.line_of_day(
            cat2(self.players[lynched].name.as_str(), " 被投票放逐。").as_str(),
        );
        self.apply_day_death(lynched, DeathCause::Lynch, line);
        self.last_day_lynched = Some(lynched);
        self.recap_log.push(RecapEvent::DayLynch { day: self.day, target: Some(lynched) });
        Ok(Some(lynched))
    }

    /// Goes on after the vote.
    pub fn advance_after_vote(&mut self) -> (r: Result<(), GameError>)
        requires
            old(self)@.wf(),
            seat_ok(old(self).last_day_lynched, old(self).players@.len()),
            old(self).day < u32::MAX,
        ensures
            old(self)@.in_play() ==> final(self)@.wf(),
            r == Ok::<(), GameError>(()),
            final(self)@ == old(self)@.advance_after_vote(),
    {
        if self.stage == Stage::DaySpeech && self.day_vote_round == 1 {
            return Ok(());
        }
        if let Some(lynched) = self.last_day_lynched {
            if self.holds_role(lynched, Role::Hunter) || self.holds_role(lynched, Role::WolfKing) {
                self.pending_hunter = Some(lynched);
                self.pending_hunter_post_stage = Some(Stage::DayVote);
            }
            if self.sheriff_idx == Some(lynched) {
                self.pending_badge = Some(lynched);
                self.pending_badge_post_stage = Some(Stage::DayVote);
            }
            let mut queue: Vec<usize> = Vec::new();
            queue.push(lynched);
            self.last_words_queue = queue;
            self.last_words_idx = 0;
            self.last_words_speeches.clear();
            self.last_words_public_msg = None;
            self.last_words_private_msg = None;
            self.last_words_post_stage = Some(Stage::DayVote);
            self.stage = Stage::LastWords;
            return Ok(());
        }
        self.advance_to_next_night_or_end();
        Ok(())
    }

    /// A wolf blows up.
    pub fn self_explode(&mut self, wolf_open_id: &str) -> (r: Result<usize, GameError>)
        requires
            old(self)@.wf(),
            old(self).day < u32::MAX,
        ensures
            final(self)@.wf(),
            follows_with(r, old(self)@, final(self)@, old(self)@.self_explode(wolf_open_id@)),
    {
        let during_election: bool = matches!(
            self.stage,
            Stage::SheriffNominate | Stage::SheriffSpeech | Stage::SheriffWithdraw
                | Stage::SheriffVote
        );
        if !during_election && !matches!(
            self.stage,
            Stage::SheriffPickDirection | Stage::DaySpeech | Stage::DayVote
        ) {
            return Err(GameError::CannotExplode);
        }
        let i: usize = match self.seat_of_wolf(wolf_open_id) {
            Err(e) => {
                return Err(e);
            },
            Ok(i) => i,
        };
        let line = self.line_of_day(cat2(self.players[i].name.as_str(), " 自爆。").as_str());
        self.apply_day_death(i, DeathCause::SelfExplode, line);
        if during_election {
            self.sheriff_enabled = false;
            self.sheriff_idx = None;
            self.sheriff_votes.clear();
            self.sheriff_pk_candidates.clear();
            self.skip_day_after_reveal = true;
            self.stage = Stage::DayReveal;
        } else if self.sheriff_idx == Some(i) {
            self.pending_badge = Some(i);
            self.pending_badge_post_stage = Some(Stage::DayVote);
            self.stage = Stage::BadgePass;
        } else {
            self.advance_to_next_night_or_end();
        }
        Ok(i)
    }

    /// The shooter shoots at a seat, or holds fire.
    fn apply_shot(&mut self, shooter: usize, target: Option<usize>)
        requires
            shooter < old(self).players.len(),
            seat_ok(target, old(self).players@.len()),
        ensures
            final(self)@ == old(self)@.shot_done(shooter, target),
    {
        let night: bool = self.pending_hunter_post_stage == Some(Stage::DayReveal);
        match target {
            Some(t) => {
                let line = cat3(
                    self.players[shooter].name.as_str(),
                    " 临死前开枪带走 ",
                    self.players[t].name.as_str(),
                );
                self.players[t].alive = false;
                self.deaths.push(
                    DeathEvent {
                        day: self.day,
                        night,
                        player_idx: t,
                        cause: DeathCause::HunterShot,
                    },
                );
                self.recap_log.push(
                    RecapEvent::Death {
                        day: self.day,
                        night,
                        player: t,
                        cause: DeathCause::HunterShot,
                    },
                );
                self.event_log.push(line);
                if night {
                    self.last_night_deaths.push(t);
                }
            },
            None => {
                let line = cat2(self.players[shooter].name.as_str(), " 选择不开枪");
                self.event_log.push(line);
            },
        }
        self.recap_log.push(RecapEvent::HunterShot { day: self.day, shooter, target });
        self.pending_hunter = None;
        self.pending_hunter_post_stage = None;
        self.pending_hunter_ai_decision = None;
    }

    /// A dead hunter or wolf king shoots, or holds fire.
    pub fn hunter_shoot(&mut self, hunter_open_id: &str, target_open_id: Option<&str>) -> (r:
        Result<Option<usize>, GameError>)
        requires
            old(self)@.wf(),
            old(self).day < u32::MAX,
        ensures
            final(self)@.wf(),
            exists|start: usize|
                final(self)@.may_start(start) && follows_with(
                    r,
                    old(self)@,
                    final(self)@,
                    #[trigger] old(self)@.hunter_shoot(
                        hunter_open_id@,
                        target_open_id.deep_view(),
                        start,
                    ),
                ),
    {
        let ghost g = self@;
        let ghost who = hunter_open_id@;
        let ghost target = target_open_id.deep_view();
        proof {
            let start = lemma_some_start(g);
            assert(g.hunter_shoot(who, target, start) is Ok || g.hunter_shoot(who, target, start) is Err);
        }
        if self.stage != Stage::HunterShoot {
            return Err(GameError::NotShootStage);
        }
        let h: usize = match self.find_player(hunter_open_id) {
            None => {
                return Err(GameError::NotSeated);
            },
            Some(h) => h,
        };
        if self.pending_hunter != Some(h) {
            return Err(GameError::NotYourShot);
        }
        let mut shot: Option<usize> = None;
        if let Some(id) = target_open_id {
            let t: usize = match self.seat_of_target(
                id,
                GameError::TargetMissing,
                GameError::ShootDead,
            ) {
                Err(e) => {
                    return Err(e);
                },
                Ok(t) => t,
            };
            if t == h {
                return Err(GameError::ShootSelf);
            }
            shot = Some(t);
        }
        let post = self.pending_hunter_post_stage;
        self.apply_shot(h, shot);
        let ghost k = self@;
        let mut badge: bool = false;
        if let Some(s) = self.sheriff_idx {
            badge = !self.players[s].alive;
        }
        if badge {
            self.pending_badge = self.sheriff_idx;
            self.pending_badge_post_stage = post;
            self.stage = Stage::BadgePass;
            proof {
                let start = lemma_some_start(self@);
                assert(g.hunter_shoot(who, target, start) == Ok::<
                    (GameView, Option<usize>),
                    GameError,
                >((self@, shot)));
            }
        } else {
            self.continue_after_special_stage(post);
            proof {
                let start = choose|start: usize|
                    self@.may_start(start) && self@ == (#[trigger] k.continued(post, start));
                assert(g.hunter_shoot(who, target, start) == Ok::<
                    (GameView, Option<usize>),
                    GameError,
                >((self@, shot)));
            }
        }
        Ok(shot)
    }
}

} // verus!
