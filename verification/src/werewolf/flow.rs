//! How one part of the game leads to the next: into the day's speeches, into the
//! next night, or to the end.

use vstd::prelude::*;
use crate::random::random_below;
use crate::seqs::lemma_indices_where;
use crate::text::{cat3, decimal, decimal_text};
use crate::werewolf::error::GameError;
use crate::werewolf::state::{GameView, WolfGame};
use crate::werewolf::table::{follows, seats_ok, MAX_SEATS};
use crate::werewolf::types::{Role, Stage};

verus! {

impl GameView {
    /// The end of the game if it is decided, else the next night with everything that
    /// belonged to the day and the night before taken back.
    pub open spec fn next_night(self) -> GameView {
        if self.winner() is Some {
            GameView { stage: Stage::Ended, ..self }
        } else {
            GameView {
                day: (self.day + 1) as u32,
                stage: if self.role_alive(Role::Guard) {
                    Stage::GuardPick
                } else {
                    Stage::WolvesPick
                },
                wolf_kill_votes: Seq::empty(),
                wolf_chat: Seq::empty(),
                wolf_ready: Seq::empty(),
                wolf_night_msgs: Seq::empty(),
                night_progress_public_msg: None,
                day_vote_msgs: Seq::empty(),
                day_vote_public_msg: None,
                seer_check_target: None,
                witch_save_choice: None,
                witch_poison_target: None,
                guard_target: None,
                night_victim: None,
                witch_acted: false,
                last_night_deaths: Seq::empty(),
                last_day_lynched: None,
                day_speech_order: Seq::empty(),
                day_speech_idx: 0,
                day_speeches: Seq::empty(),
                day_speech_public_msg: None,
                day_speech_private_msg: None,
                day_votes: Seq::empty(),
                day_vote_round: 0,
                day_pk_candidates: Seq::empty(),
                skip_day_after_reveal: false,
                event_log: self.event_log.push(
                    "第 "@ + decimal_text((self.day + 1) as nat) + " 夜开始。"@,
                ),
                ..self
            }
        }
    }

    /// The first `k` seats met from `start` on, going up and round, that are of living
    /// players.
    pub open spec fn upward_from(self, start: int, k: nat) -> Seq<usize>
        decreases k,
    {
        if k == 0 {
            Seq::empty()
        } else {
            let seat = (start + k - 1) % (self.players.len() as int);
            if self.players[seat].alive {
                self.upward_from(start, (k - 1) as nat).push(seat as usize)
            } else {
                self.upward_from(start, (k - 1) as nat)
            }
        }
    }

    /// Whether the speeches may begin at this seat: at a living player's, or at the
    /// first seat when nobody lives.
    pub open spec fn may_start(self, start: usize) -> bool {
        if self.alive_seats().len() == 0 {
            start == 0
        } else {
            self.alive_seats().contains(start)
        }
    }

    /// Whether there is a sheriff and the sheriff lives.
    pub open spec fn living_sheriff(self) -> bool {
        self.sheriff_idx is Some && self.players[self.sheriff_idx->0 as int].alive
    }

    /// The speeches in this order, none spoken yet.
    pub open spec fn speeches_begin(self, order: Seq<usize>) -> GameView {
        GameView {
            day_speech_order: order,
            day_speech_idx: 0,
            day_speeches: Seq::empty(),
            day_speech_public_msg: None,
            day_speech_private_msg: None,
            stage: Stage::DaySpeech,
            ..self
        }
    }

    /// The day begins: a living sheriff picks the direction of the speeches; without
    /// one everybody alive speaks, from `start` upward.
    pub open spec fn day_begun(self, start: usize) -> GameView {
        let g = GameView { day_vote_round: 0, day_pk_candidates: Seq::empty(), ..self };
        if self.living_sheriff() {
            GameView { stage: Stage::SheriffPickDirection, ..g }
        } else {
            g.speeches_begin(self.upward_from(start as int, self.players.len()))
        }
    }

    /// Where the game goes on after last words, a shot or a badge.
    pub open spec fn continued(self, post: Option<Stage>, start: usize) -> GameView {
        if post == Some(Stage::DayReveal) {
            GameView { stage: Stage::DayReveal, ..self }
        } else if post == Some(Stage::DaySpeech) {
            if self.winner() is Some {
                GameView { stage: Stage::Ended, ..self }
            } else {
                self.day_begun(start)
            }
        } else {
            GameView { skip_day_after_reveal: false, ..self }.next_night()
        }
    }

    /// The dead sheriff whose badge has to be passed on, if none is known yet.
    pub open spec fn badge_due(self) -> Option<usize> {
        if self.pending_badge is None && self.sheriff_idx is Some
            && !self.players[self.sheriff_idx->0 as int].alive {
            self.sheriff_idx
        } else {
            self.pending_badge
        }
    }

    /// Where the game goes on when all that follows the announcement is done: to the
    /// speeches, or into the night when a wolf blew up.
    pub open spec fn post_stage(self) -> Stage {
        if self.skip_day_after_reveal {
            Stage::DayVote
        } else {
            Stage::DaySpeech
        }
    }

    /// Each step that is due knows where the game goes on after it.
    pub open spec fn post_noted(self) -> GameView {
        GameView {
            pending_badge: self.badge_due(),
            last_words_post_stage: Some(self.post_stage()),
            pending_hunter_post_stage: if self.pending_hunter is Some {
                Some(self.post_stage())
            } else {
                self.pending_hunter_post_stage
            },
            pending_badge_post_stage: if self.badge_due() is Some {
                Some(self.post_stage())
            } else {
                self.pending_badge_post_stage
            },
            ..self
        }
    }

    /// The announcement is over: last words, a shot and a badge come first, in this
    /// order; then the day's speeches, or the night when a wolf blew up.
    pub open spec fn enter_day_discuss(self, start: usize) -> Result<GameView, GameError> {
        if self.stage != Stage::DayReveal {
            Err(GameError::NotRevealStage)
        } else {
            let g = self.post_noted();
            Ok(
                if g.last_words_queue.len() > 0 {
                    GameView { stage: Stage::LastWords, ..g }
                } else if g.pending_hunter is Some {
                    GameView { stage: Stage::HunterShoot, ..g }
                } else if g.pending_badge is Some {
                    GameView { stage: Stage::BadgePass, ..g }
                } else if g.skip_day_after_reveal {
                    GameView { skip_day_after_reveal: false, ..g }.next_night()
                } else if g.winner() is Some {
                    GameView { stage: Stage::Ended, ..g }
                } else {
                    g.day_begun(start)
                },
            )
        }
    }
}

/// The order of the speeches names seats of the table.
pub proof fn lemma_upward(g: GameView, start: int, k: nat)
    requires
        0 <= start,
        0 < g.players.len() <= MAX_SEATS,
    ensures
        seats_ok(g.upward_from(start, k), g.players.len()),
    decreases k,
{
    if k > 0 {
        lemma_upward(g, start, (k - 1) as nat);
        let seat = (start + k - 1) % (g.players.len() as int);
        assert(0 <= seat < g.players.len());
    }
}

impl WolfGame {
    /// Ends the game if it is decided, else enters the next night.
    pub(crate) fn advance_to_next_night_or_end(&mut self)
        requires
            old(self).day < u32::MAX,
        ensures
            old(self)@.wf() && old(self)@.in_play() ==> final(self)@.wf(),
            final(self)@ == old(self)@.next_night(),
    {
        if self.victory().is_some() {
            self.stage = Stage::Ended;
            return;
        }
        let guard_alive: bool = self.role_is_alive(Role::Guard);
        self.day = self.day + 1;
        self.stage = if guard_alive {
            Stage::GuardPick
        } else {
            Stage::WolvesPick
        };
        self.wolf_kill_votes.clear();
        self.wolf_chat.clear();
        self.wolf_ready.clear();
        self.wolf_night_msgs.clear();
        self.night_progress_public_msg = None;
        self.day_vote_msgs.clear();
        self.day_vote_public_msg = None;
        self.seer_check_target = None;
        self.witch_save_choice = None;
        self.witch_poison_target = None;
        self.guard_target = None;
        self.night_victim = None;
        self.witch_acted = false;
        self.last_night_deaths.clear();
        self.last_day_lynched = None;
        self.day_speech_order.clear();
        self.day_speech_idx = 0;
        self.day_speeches.clear();
        self.day_speech_public_msg = None;
        self.day_speech_private_msg = None;
        self.day_votes.clear();
        self.day_vote_round = 0;
        self.day_pk_candidates.clear();
        self.skip_day_after_reveal = false;
        self.event_log.push(cat3("第 ", decimal(self.day as u64).as_str(), " 夜开始。"));
    }

    /// Sets the order of the speeches, none spoken yet.
    pub(crate) fn begin_speeches(&mut self, order: Vec<usize>)
        ensures
            final(self)@ == old(self)@.speeches_begin(order@),
    {
        self.day_speech_order = order;
        self.day_speech_idx = 0;
        self.day_speeches.clear();
        self.day_speech_public_msg = None;
        self.day_speech_private_msg = None;
        self.stage = Stage::DaySpeech;
    }

    /// Begins the day: a living sheriff picks the direction of the speeches; without one
    /// everybody alive speaks, from `start` upward.
    pub fn start_day_speech_at(&mut self, start: usize)
        requires
            old(self)@.wf(),
            old(self)@.in_play(),
            start < old(self).players.len() || start == 0,
        ensures
            final(self)@.wf(),
            final(self)@ == old(self)@.day_begun(start),
    {
        self.day_vote_round = 0;
        self.day_pk_candidates.clear();
        if let Some(s) = self.sheriff_idx {
            if self.players[s].alive {
                self.stage = Stage::SheriffPickDirection;
                return;
            }
        }
        let n: usize = self.players.len();
        let mut order: Vec<usize> = Vec::new();
        let mut k: usize = 0;
        while k < n
            invariant
                k <= n,
                n == self.players.len(),
                n <= MAX_SEATS,
                start < n || start == 0,
                order@ == self@.upward_from(start as int, k as nat),
            decreases n - k,
        {
            let seat: usize = (start + k) % n;
            if self.players[seat].alive {
                order.push(seat);
            }
            k = k + 1;
        }
        proof {
            if n > 0 {
                lemma_upward(self@, start as int, n as nat);
            }
            assert(forall|k: nat|
                self@.upward_from(start as int, k) == old(self)@.upward_from(start as int, k)) by {
                assert forall|k: nat|
                    self@.upward_from(start as int, k) == old(self)@.upward_from(
                        start as int,
                        k,
                    ) by {
                    lemma_upward_same(self@, old(self)@, start as int, k);
                }
            }
        }
        self.begin_speeches(order);
    }

    /// Begins the day; without a living sheriff the first speaker is a living player
    /// drawn at random.
    fn start_day_speech(&mut self)
        requires
            old(self)@.wf(),
            old(self)@.in_play(),
        ensures
            final(self)@.wf(),
            exists|start: usize|
                final(self)@.may_start(start) && final(self)@ == (#[trigger] old(self)@.day_begun(
                    start,
                )),
    {
        let alive = self.alive_indices();
        let ghost g = self@;
        let mut start: usize = 0;
        proof {
            lemma_indices_where(self@.players.len(), self@.living());
        }
        if alive.len() > 0 {
            let i: usize = random_below(alive.len());
            start = alive[i];
            assert(g.alive_seats().contains(start));
        }
        self.start_day_speech_at(start);
        proof {
            lemma_day_begun_lives(g, start);
        }
    }

    /// Goes on after last words, a shot or a badge.
    pub(crate) fn continue_after_special_stage(&mut self, requested_post: Option<Stage>)
        requires
            old(self)@.wf(),
            old(self)@.in_play(),
            old(self).day < u32::MAX,
        ensures
            final(self)@.wf(),
            exists|start: usize|
                final(self)@.may_start(start) && final(self)@ == (#[trigger] old(self)@.continued(
                    requested_post,
                    start,
                )),
    {
        let ghost g = self@;
        match requested_post {
            Some(Stage::DayReveal) => {
                self.stage = Stage::DayReveal;
                proof {
                    let start = lemma_some_start(self@);
                    assert(self@ == g.continued(requested_post, start));
                }
            },
            Some(Stage::DaySpeech) => {
                if self.victory().is_some() {
                    self.stage = Stage::Ended;
                    proof {
                        let start = lemma_some_start(self@);
                        assert(self@ == g.continued(requested_post, start));
                    }
                } else {
                    self.start_day_speech();
                    proof {
                        let start = choose|start: usize|
                            self@.may_start(start) && self@ == (#[trigger] g.day_begun(start));
                        assert(self@ == g.continued(requested_post, start));
                    }
                }
            },
            _ => {
                self.skip_day_after_reveal = false;
                assert(self@ == GameView { skip_day_after_reveal: false, ..g });
                self.advance_to_next_night_or_end();
                proof {
                    let start = lemma_some_start(self@);
                    assert(self@ == g.continued(requested_post, start));
                }
            },
        }
    }

    /// Notes where the game goes on after each step that is due.
    fn note_post_stage(&mut self)
        requires
            old(self)@.wf(),
            old(self)@.in_play(),
        ensures
            final(self)@.wf(),
            final(self)@ == old(self)@.post_noted(),
    {
        if self.pending_badge.is_none() {
            if let Some(s) = self.sheriff_idx {
                if !self.players[s].alive {
                    self.pending_badge = Some(s);
                }
            }
        }
        let post: Stage = if self.skip_day_after_reveal {
            Stage::DayVote
        } else {
            Stage::DaySpeech
        };
        self.last_words_post_stage = Some(post);
        if self.pending_hunter.is_some() {
            self.pending_hunter_post_stage = Some(post);
        }
        if self.pending_badge.is_some() {
            self.pending_badge_post_stage = Some(post);
        }
    }

    /// Ends the announcement of the night's deaths.
    pub fn enter_day_discuss(&mut self) -> (r: Result<(), GameError>)
        requires
            old(self)@.wf(),
            old(self).day < u32::MAX,
        ensures
            final(self)@.wf(),
            exists|start: usize|
                final(self)@.may_start(start) && follows(
                    r,
                    old(self)@,
                    final(self)@,
                    #[trigger] old(self)@.enter_day_discuss(start),
                ),
    {
        let ghost g = self@;
        if self.stage != Stage::DayReveal {
            proof {
                let start = lemma_some_start(self@);
                assert(g.enter_day_discuss(start) is Err);
            }
            return Err(GameError::NotRevealStage);
        }
        self.note_post_stage();
        let ghost h = self@;
        if self.last_words_queue.len() > 0 {
            self.stage = Stage::LastWords;
        } else if self.pending_hunter.is_some() {
            self.stage = Stage::HunterShoot;
        } else if self.pending_badge.is_some() {
            self.stage = Stage::BadgePass;
        } else if self.skip_day_after_reveal {
            self.skip_day_after_reveal = false;
            assert(self@ == GameView { skip_day_after_reveal: false, ..h });
            self.advance_to_next_night_or_end();
        } else if self.victory().is_some() {
            self.stage = Stage::Ended;
        } else {
            self.start_day_speech();
            proof {
                let start = choose|start: usize|
                    self@.may_start(start) && self@ == (#[trigger] h.day_begun(start));
                assert(g.enter_day_discuss(start) == Ok::<GameView, GameError>(self@));
            }
            return Ok(());
        }
        proof {
            let start = lemma_some_start(self@);
            assert(g.enter_day_discuss(start) == Ok::<GameView, GameError>(self@));
        }
        Ok(())
    }
}

/// There is a seat at which the speeches may begin.
pub proof fn lemma_some_start(g: GameView) -> (start: usize)
    ensures
        g.may_start(start),
{
    if g.alive_seats().len() == 0 {
        0
    } else {
        assert(g.alive_seats().contains(g.alive_seats()[0]));
        g.alive_seats()[0]
    }
}

/// The order of the speeches depends on the seats alone.
pub proof fn lemma_upward_same(g: GameView, h: GameView, start: int, k: nat)
    requires
        g.players == h.players,
    ensures
        g.upward_from(start, k) == h.upward_from(start, k),
    decreases k,
{
    if k > 0 {
        lemma_upward_same(g, h, start, (k - 1) as nat);
    }
}

/// Lists of seats that depend on the seats alone.
pub proof fn lemma_alive_same(g: GameView, h: GameView)
    requires
        g.players == h.players,
    ensures
        g.alive_seats() == h.alive_seats(),
        g.wolf_seats() == h.wolf_seats(),
{
    assert(g.living() =~= h.living());
    assert(g.living_wolf() =~= h.living_wolf());
}

/// Beginning the day keeps everybody alive who was.
proof fn lemma_day_begun_lives(g: GameView, start: usize)
    ensures
        g.may_start(start) ==> g.day_begun(start).may_start(start),
{
    lemma_alive_same(g, g.day_begun(start));
}

} // verus!
