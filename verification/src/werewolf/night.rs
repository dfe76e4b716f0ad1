//! The night: the guard, the wolves, the seer, the witch, and who is dead at dawn.

use vstd::prelude::*;
use crate::assoc::{find_key, get_key, get_text, has_key, law_put_distinct, lemma_key_pos, put,
    put_key, put_text};
use crate::seqs::holds;
use crate::text::{cat5, decimal, decimal_text, trim, trimmed};
use crate::werewolf::error::GameError;
use crate::werewolf::state::{GameView, WolfGame};
use crate::werewolf::table::{follows, follows_with, seats_ok};
use crate::werewolf::types::{DeathCause, DeathEvent, PlayerView, RecapEvent, RecapView, Role,
    SeerCheck, Stage};

verus! {

impl GameView {
    /// The seat of a player who may act at this stage with this role.
    pub open spec fn living_holder(
        self,
        who: Seq<char>,
        role: Role,
        refusal: GameError,
    ) -> Result<usize, GameError> {
        match self.seat_of(who) {
            None => Err(GameError::NotSeated),
            Some(i) => if self.seat_is(i, role) && self.players[i as int].alive {
                Ok(i)
            } else {
                Err(refusal)
            },
        }
    }

    /// The seat of a player who is a living wolf.
    pub open spec fn living_wolf_seat(self, who: Seq<char>) -> Result<usize, GameError> {
        match self.seat_of(who) {
            None => Err(GameError::NotSeated),
            Some(i) => if self.seat_is_wolf(i) && self.players[i as int].alive {
                Ok(i)
            } else {
                Err(GameError::NotLivingWolf)
            },
        }
    }

    /// The seat of a living player, or why the player may not be the target.
    pub open spec fn living_target(
        self,
        who: Seq<char>,
        missing: GameError,
        dead: GameError,
    ) -> Result<usize, GameError> {
        match self.seat_of(who) {
            None => Err(missing),
            Some(i) => if self.players[i as int].alive {
                Ok(i)
            } else {
                Err(dead)
            },
        }
    }

    /// The guard protects a living player, but nobody twice in a row.
    pub open spec fn guard_pick(self, who: Seq<char>, target: Seq<char>) -> Result<
        GameView,
        GameError,
    > {
        if self.stage != Stage::GuardPick {
            Err(GameError::NotGuardStage)
        } else {
            match self.living_holder(who, Role::Guard, GameError::NotLivingGuard) {
                Err(e) => Err(e),
                Ok(_) => match self.living_target(
                    target,
                    GameError::TargetMissing,
                    GameError::GuardDeadTarget,
                ) {
                    Err(e) => Err(e),
                    Ok(t) => if self.last_guard_target == Some(t) {
                        Err(GameError::GuardSameTarget)
                    } else {
                        Ok(
                            GameView {
                                guard_target: Some(t),
                                last_guard_target: Some(t),
                                recap_log: self.recap_log.push(
                                    RecapView::GuardProtect { day: self.day, target: t },
                                ),
                                stage: Stage::WolvesPick,
                                ..self
                            },
                        )
                    },
                },
            }
        }
    }

    /// The guard protects nobody, which ends a row of protections.
    pub open spec fn guard_skip(self, who: Seq<char>) -> Result<GameView, GameError> {
        if self.stage != Stage::GuardPick {
            Err(GameError::NotGuardStage)
        } else {
            match self.living_holder(who, Role::Guard, GameError::NotLivingGuard) {
                Err(e) => Err(e),
                Ok(_) => Ok(
                    GameView {
                        guard_target: None,
                        last_guard_target: None,
                        stage: Stage::WolvesPick,
                        ..self
                    },
                ),
            }
        }
    }

    /// A wolf picks a living victim, its fellows and itself among them, until it confirms.
    pub open spec fn wolf_pick(self, who: Seq<char>, target: Seq<char>) -> Result<
        GameView,
        GameError,
    > {
        if self.stage != Stage::WolvesPick {
            Err(GameError::NotWolfPickStage)
        } else {
            match self.living_wolf_seat(who) {
                Err(e) => Err(e),
                Ok(w) => if self.wolf_ready.contains(w) {
                    Err(GameError::WolfAlreadyReady)
                } else {
                    match self.living_target(
                        target,
                        GameError::TargetMissing,
                        GameError::WolfDeadTarget,
                    ) {
                        Err(e) => Err(e),
                        Ok(t) => Ok(
                            GameView {
                                wolf_kill_votes: put_key(self.wolf_kill_votes, w, t),
                                ..self
                            },
                        ),
                    }
                },
            }
        }
    }

    /// A wolf says something to its fellows.
    pub open spec fn wolf_say(self, who: Seq<char>, message: Seq<char>) -> Result<
        GameView,
        GameError,
    > {
        if self.stage != Stage::WolvesPick {
            Err(GameError::NotWolfStage)
        } else {
            match self.living_wolf_seat(who) {
                Err(e) => Err(e),
                Ok(w) => if trimmed(message).len() == 0 {
                    Err(GameError::EmptyMessage)
                } else {
                    Ok(GameView { wolf_chat: self.wolf_chat.push((w, trimmed(message))), ..self })
                },
            }
        }
    }

    /// A wolf confirms its pick.
    pub open spec fn wolf_mark_ready(self, who: Seq<char>) -> Result<GameView, GameError> {
        if self.stage != Stage::WolvesPick {
            Err(GameError::NotWolfStage)
        } else {
            match self.living_wolf_seat(who) {
                Err(e) => Err(e),
                Ok(w) => if !has_key(self.wolf_kill_votes, w) {
                    Err(GameError::WolfNoTarget)
                } else if self.wolf_ready.contains(w) {
                    Ok(self)
                } else {
                    Ok(GameView { wolf_ready: self.wolf_ready.push(w), ..self })
                },
            }
        }
    }

    /// Whether all living wolves have picked the same victim.
    pub open spec fn wolves_agree_on(self, t: usize) -> bool {
        forall|i: int|
            0 <= i < self.wolf_seats().len() ==> get_key(
                self.wolf_kill_votes,
                #[trigger] self.wolf_seats()[i],
            ) == Some(t)
    }

    /// The victim: the one that all living wolves have picked, else nobody.
    pub open spec fn wolf_target(self) -> Option<usize> {
        if self.wolf_seats().len() == 0 {
            None
        } else {
            match get_key(self.wolf_kill_votes, self.wolf_seats()[0]) {
                Some(t) => if self.wolves_agree_on(t) {
                    Some(t)
                } else {
                    None
                },
                None => None,
            }
        }
    }

    /// The wolves are done.
    pub open spec fn advance_after_wolves(self) -> Result<GameView, GameError> {
        if self.stage != Stage::WolvesPick {
            Err(GameError::NotWolfStage)
        } else {
            Ok(
                GameView {
                    night_victim: self.wolf_target(),
                    recap_log: self.recap_log.push(
                        RecapView::WolfFinalTarget { day: self.day, target: self.wolf_target() },
                    ),
                    ..self
                }.after_night_step(Stage::WolvesPick),
            )
        }
    }

    /// The seer learns whether another living player is a wolf.
    pub open spec fn seer_check(self, who: Seq<char>, target: Seq<char>) -> Result<
        (GameView, bool),
        GameError,
    > {
        if self.stage != Stage::SeerPick {
            Err(GameError::NotSeerStage)
        } else {
            match self.living_holder(who, Role::Seer, GameError::NotLivingSeer) {
                Err(e) => Err(e),
                Ok(s) => match self.living_target(
                    target,
                    GameError::TargetMissing,
                    GameError::SeerDeadTarget,
                ) {
                    Err(e) => Err(e),
                    Ok(t) => if t == s {
                        Err(GameError::SeerSelf)
                    } else {
                        let is_wolf = self.seat_is_wolf(t);
                        Ok(
                            (
                                GameView {
                                    seer_check_target: Some(t),
                                    seer_history: self.seer_history.push(
                                        SeerCheck { day: self.day, target_idx: t, is_wolf },
                                    ),
                                    recap_log: self.recap_log.push(
                                        RecapView::SeerCheck { day: self.day, target: t, is_wolf },
                                    ),
                                    ..self
                                }.after_night_step(Stage::SeerPick),
                                is_wolf,
                            ),
                        )
                    },
                },
            }
        }
    }

    /// The seat the witch poisons, if she names one.
    pub open spec fn poison_seat(self, witch: usize, poison: Option<Seq<char>>) -> Result<
        Option<usize>,
        GameError,
    > {
        match poison {
            None => Ok(None),
            Some(id) => if self.witch_poison_used {
                Err(GameError::PoisonUsed)
            } else {
                match self.living_target(id, GameError::PoisonMissing, GameError::PoisonDead) {
                    Err(e) => Err(e),
                    Ok(t) => if t == witch {
                        Err(GameError::PoisonSelf)
                    } else {
                        Ok(Some(t))
                    },
                }
            },
        }
    }

    /// The witch saves the victim, poisons somebody else, or passes.
    pub open spec fn witch_act(self, who: Seq<char>, save: bool, poison: Option<Seq<char>>) -> Result<
        GameView,
        GameError,
    > {
        if self.stage != Stage::WitchAct {
            Err(GameError::NotWitchStage)
        } else {
            match self.living_holder(who, Role::Witch, GameError::NotLivingWitch) {
                Err(e) => Err(e),
                Ok(w) => if save && poison is Some {
                    Err(GameError::SaveAndPoison)
                } else if save && self.witch_save_used {
                    Err(GameError::SaveUsed)
                } else if save && self.night_victim is None {
                    Err(GameError::NothingToSave)
                } else {
                    match self.poison_seat(w, poison) {
                        Err(e) => Err(e),
                        Ok(p) => Ok(
                            GameView {
                                witch_save_choice: Some(save),
                                witch_poison_target: p,
                                witch_acted: true,
                                recap_log: self.recap_log.push(
                                    RecapView::Witch { day: self.day, save, poison: p },
                                ),
                                ..self
                            }.after_night_step(Stage::WitchAct),
                        ),
                    }
                },
            }
        }
    }

    /// Whether the wolves' victim dies: unprotected, or both guarded and saved.
    pub open spec fn victim_dies(self) -> bool {
        self.night_victim is Some && ((self.witch_save_choice == Some(true)) == (self.guard_target
            == self.night_victim))
    }

    /// Who dies tonight, and why: the wolves' victim, then whom the witch poisoned.
    pub open spec fn night_deaths(self) -> Seq<(usize, DeathCause)> {
        let killed: Seq<(usize, DeathCause)> = if self.victim_dies() {
            seq![(self.night_victim->0, DeathCause::WolfKill)]
        } else {
            Seq::empty()
        };
        if self.witch_poison_target is Some && !(self.victim_dies() && self.night_victim
            == self.witch_poison_target) {
            killed.push((self.witch_poison_target->0, DeathCause::Poison))
        } else {
            killed
        }
    }

    /// The seats with one player dead.
    pub open spec fn players_without(self, i: usize) -> Seq<PlayerView> {
        self.players.update(i as int, PlayerView { alive: false, ..self.players[i as int] })
    }

    /// One death of the night, announced without its cause.
    pub open spec fn die_tonight(self, i: usize, cause: DeathCause) -> GameView {
        GameView {
            players: self.players_without(i),
            last_night_deaths: self.last_night_deaths.push(i),
            deaths: self.deaths.push(
                DeathEvent { day: self.day, night: true, player_idx: i, cause },
            ),
            recap_log: self.recap_log.push(
                RecapView::Death { day: self.day, night: true, player: i, cause },
            ),
            event_log: self.event_log.push(
                "第 "@ + decimal_text(self.day as nat) + " 夜："@ + self.players[i as int].name
                    + " 死亡"@,
            ),
            ..self
        }
    }

    /// The deaths of the night, one after the other.
    pub open spec fn dying(self, deaths: Seq<(usize, DeathCause)>) -> GameView
        decreases deaths.len(),
    {
        if deaths.len() == 0 {
            self
        } else {
            self.dying(deaths.drop_last()).die_tonight(deaths.last().0, deaths.last().1)
        }
    }

    /// The seats of the dead of the night.
    pub open spec fn dead_seats(self) -> Seq<usize> {
        self.night_deaths().map_values(|d: (usize, DeathCause)| d.0)
    }

    /// The wolves' victim, if it dies and may shoot.
    pub open spec fn dead_shooter(self) -> Option<usize> {
        if self.victim_dies() && self.players[self.night_victim->0 as int].role is Some
            && self.players[self.night_victim->0 as int].role->0.shoots() {
            self.night_victim
        } else {
            None
        }
    }

    /// The potions used tonight are spent, and nobody is dead yet.
    pub open spec fn potions_spent(self) -> GameView {
        GameView {
            witch_save_used: self.witch_save_used || self.witch_save_choice == Some(true),
            witch_poison_used: self.witch_poison_used || self.witch_poison_target is Some,
            last_night_deaths: Seq::empty(),
            ..self
        }
    }

    /// What follows the deaths of a night: a shooter killed by wolves and a dead
    /// sheriff have a step coming; the dead of the first night have last words; and
    /// the first day begins with the election where there is one.
    pub open spec fn dawn(self, dead: Seq<usize>, shooter: Option<usize>) -> GameView {
        let election = self.day == 1 && self.sheriff_enabled && self.sheriff_idx is None;
        let badge = self.sheriff_idx is Some && dead.contains(self.sheriff_idx->0);
        GameView {
            pending_hunter: if shooter is Some {
                shooter
            } else {
                self.pending_hunter
            },
            pending_hunter_post_stage: if shooter is Some {
                Some(Stage::DaySpeech)
            } else {
                self.pending_hunter_post_stage
            },
            pending_badge: if badge {
                self.sheriff_idx
            } else {
                self.pending_badge
            },
            pending_badge_post_stage: if badge {
                Some(Stage::DaySpeech)
            } else {
                self.pending_badge_post_stage
            },
            last_words_queue: if self.day == 1 {
                dead
            } else {
                Seq::empty()
            },
            last_words_idx: 0,
            last_words_speeches: Seq::empty(),
            last_words_post_stage: Some(Stage::DaySpeech),
            sheriff_nominations: if election {
                Seq::empty()
            } else {
                self.sheriff_nominations
            },
            sheriff_nominate_msgs: if election {
                Seq::empty()
            } else {
                self.sheriff_nominate_msgs
            },
            sheriff_nominate_public_msg: if election {
                None
            } else {
                self.sheriff_nominate_public_msg
            },
            stage: if election {
                Stage::SheriffNominate
            } else {
                Stage::DayReveal
            },
            ..self
        }
    }

    /// The night comes to its end: potions, deaths, and what follows them.
    pub open spec fn night_resolved(self) -> GameView {
        self.potions_spent().dying(self.night_deaths()).dawn(self.dead_seats(), self.dead_shooter())
    }

    /// The stage after a step of the night: the seer's and the witch's steps come if
    /// they live, then dawn.
    pub open spec fn after_night_step(self, finished: Stage) -> GameView {
        if finished == Stage::WolvesPick && self.role_alive(Role::Seer) {
            GameView { stage: Stage::SeerPick, ..self }
        } else if (finished == Stage::WolvesPick || finished == Stage::SeerPick) && self.role_alive(
            Role::Witch,
        ) {
            GameView { stage: Stage::WitchAct, ..self }
        } else if finished == Stage::WolvesPick || finished == Stage::SeerPick || finished
            == Stage::WitchAct {
            self.night_resolved()
        } else {
            self
        }
    }
}

/// The deaths of a night touch the seats' lives and the logs only.
pub proof fn lemma_dying(g: GameView, d: Seq<(usize, DeathCause)>)
    requires
        forall|i: int| 0 <= i < d.len() ==> (#[trigger] d[i]).0 < g.players.len(),
    ensures
        g.dying(d) == (GameView {
            players: g.dying(d).players,
            last_night_deaths: g.last_night_deaths + d.map_values(|x: (usize, DeathCause)| x.0),
            deaths: g.dying(d).deaths,
            recap_log: g.dying(d).recap_log,
            event_log: g.dying(d).event_log,
            ..g
        }),
        g.dying(d).players.len() == g.players.len(),
        forall|i: int|
            0 <= i < g.players.len() ==> #[trigger] g.dying(d).players[i] == (PlayerView {
                alive: g.dying(d).players[i].alive,
                ..g.players[i]
            }),
    decreases d.len(),
{
    if d.len() > 0 {
        lemma_dying(g, d.drop_last());
        assert(d.map_values(|x: (usize, DeathCause)| x.0) =~= d.drop_last().map_values(
            |x: (usize, DeathCause)| x.0,
        ).push(d.last().0));
    } else {
        assert(g.last_night_deaths + d.map_values(|x: (usize, DeathCause)| x.0)
            =~= g.last_night_deaths);
    }
}

/// Dawn keeps the table well formed.
pub proof fn lemma_night_resolved_wf(g: GameView)
    requires
        g.wf(),
        g.in_play(),
    ensures
        g.night_resolved().wf(),
{
    let base = g.potions_spent();
    let d = g.night_deaths();
    lemma_dying(base, d);
    let h = g.night_resolved();
    assert forall|i: int, j: int| 0 <= i < j < h.players.len() implies (
    #[trigger] h.players[i]).open_id != (#[trigger] h.players[j]).open_id by {
        assert(h.players[i] == base.dying(d).players[i]);
        assert(h.players[j] == base.dying(d).players[j]);
        assert(g.players[i].open_id != g.players[j].open_id);
    }
    let s = d.map_values(|x: (usize, DeathCause)| x.0);
    assert(g.dead_seats() =~= s);
    assert(base.last_night_deaths + s =~= s);
    assert(seats_ok(s, g.players.len()));
}

impl WolfGame {
    /// The seat of a living player with this role.
    fn seat_of_holder(&self, who: &str, role: Role, refusal: GameError) -> (r: Result<
        usize,
        GameError,
    >)
        ensures
            r == self@.living_holder(who@, role, refusal),
            r is Ok ==> r->Ok_0 < self.players.len(),
    {
        match self.find_player(who) {
            None => Err(GameError::NotSeated),
            Some(i) => if self.holds_role(i, role) && self.players[i].alive {
                Ok(i)
            } else {
                Err(refusal)
            },
        }
    }

    /// The seat of a living wolf.
    pub(crate) fn seat_of_wolf(&self, who: &str) -> (r: Result<usize, GameError>)
        ensures
            r == self@.living_wolf_seat(who@),
            r is Ok ==> r->Ok_0 < self.players.len(),
    {
        match self.find_player(who) {
            None => Err(GameError::NotSeated),
            Some(i) => if self.is_wolf(i) && self.players[i].alive {
                Ok(i)
            } else {
                Err(GameError::NotLivingWolf)
            },
        }
    }

    /// The seat of a living target.
    pub(crate) fn seat_of_target(&self, who: &str, missing: GameError, dead: GameError) -> (r:
        Result<usize, GameError>)
        ensures
            r == self@.living_target(who@, missing, dead),
            r is Ok ==> r->Ok_0 < self.players.len(),
    {
        match self.find_player(who) {
            None => Err(missing),
            Some(i) => if self.players[i].alive {
                Ok(i)
            } else {
                Err(dead)
            },
        }
    }

    /// The guard protects a living player, the guard's own seat among them, but nobody
    /// twice in a row.
    pub fn guard_pick(&mut self, guard_open_id: &str, target_open_id: &str) -> (r: Result<
        (),
        GameError,
    >)
        requires
            old(self)@.wf(),
        ensures
            final(self)@.wf(),
            follows(
                r,
                old(self)@,
                final(self)@,
                old(self)@.guard_pick(guard_open_id@, target_open_id@),
            ),
    {
        if self.stage != Stage::GuardPick {
            return Err(GameError::NotGuardStage);
        }
        match self.seat_of_holder(guard_open_id, Role::Guard, GameError::NotLivingGuard) {
            Err(e) => {
                return Err(e);
            },
            Ok(_) => {},
        }
        let t: usize = match self.seat_of_target(
            target_open_id,
            GameError::TargetMissing,
            GameError::GuardDeadTarget,
        ) {
            Err(e) => {
                return Err(e);
            },
            Ok(t) => t,
        };
        if self.last_guard_target == Some(t) {
            return Err(GameError::GuardSameTarget);
        }
        self.guard_target = Some(t);
        self.last_guard_target = Some(t);
        self.recap_log.push(RecapEvent::GuardProtect { day: self.day, target: t });
        self.stage = Stage::WolvesPick;
        Ok(())
    }

    /// The guard protects nobody tonight.
    pub fn guard_skip(&mut self, guard_open_id: &str) -> (r: Result<(), GameError>)
        requires
            old(self)@.wf(),
        ensures
            final(self)@.wf(),
            follows(r, old(self)@, final(self)@, old(self)@.guard_skip(guard_open_id@)),
    {
        if self.stage != Stage::GuardPick {
            return Err(GameError::NotGuardStage);
        }
        match self.seat_of_holder(guard_open_id, Role::Guard, GameError::NotLivingGuard) {
            Err(e) => {
                return Err(e);
            },
            Ok(_) => {},
        }
        self.guard_target = None;
        self.last_guard_target = None;
        self.stage = Stage::WolvesPick;
        Ok(())
    }

    /// A wolf picks a victim or changes its pick.
    pub fn wolf_pick(&mut self, wolf_open_id: &str, target_open_id: &str) -> (r: Result<
        (),
        GameError,
    >)
        requires
            old(self)@.wf(),
        ensures
            final(self)@.wf(),
            follows(
                r,
                old(self)@,
                final(self)@,
                old(self)@.wolf_pick(wolf_open_id@, target_open_id@),
            ),
    {
        if self.stage != Stage::WolvesPick {
            return Err(GameError::NotWolfPickStage);
        }
        let w: usize = match self.seat_of_wolf(wolf_open_id) {
            Err(e) => {
                return Err(e);
            },
            Ok(w) => w,
        };
        if self.is_wolf_ready(w) {
            return Err(GameError::WolfAlreadyReady);
        }
        let t: usize = match self.seat_of_target(
            target_open_id,
            GameError::TargetMissing,
            GameError::WolfDeadTarget,
        ) {
            Err(e) => {
                return Err(e);
            },
            Ok(t) => t,
        };
        proof {
            law_put_distinct(self@.wolf_kill_votes, w, t);
            lemma_key_pos(self@.wolf_kill_votes, w);
        }
        put(&mut self.wolf_kill_votes, w, t);
        Ok(())
    }

    /// Whether every living wolf has picked a victim.
    pub fn all_wolves_voted(&self) -> (r: bool)
        ensures
            r == (forall|i: int|
                0 <= i < self@.wolf_seats().len() ==> has_key(
                    self@.wolf_kill_votes,
                    #[trigger] self@.wolf_seats()[i],
                )),
    {
        let wolves = self.alive_wolves();
        let mut i: usize = 0;
        while i < wolves.len()
            invariant
                i <= wolves.len(),
                wolves@ == self@.wolf_seats(),
                forall|k: int|
                    0 <= k < i ==> has_key(
                        self@.wolf_kill_votes,
                        #[trigger] self@.wolf_seats()[k],
                    ),
            decreases wolves.len() - i,
        {
            if find_key(&self.wolf_kill_votes, wolves[i]) >= self.wolf_kill_votes.len() {
                assert(!has_key(self@.wolf_kill_votes, self@.wolf_seats()[i as int]));
                return false;
            }
            i = i + 1;
        }
        true
    }

    /// A wolf says something to its fellows.
    pub fn wolf_say(&mut self, wolf_open_id: &str, message: String) -> (r: Result<(), GameError>)
        requires
            old(self)@.wf(),
        ensures
            final(self)@.wf(),
            follows(
                r,
                old(self)@,
                final(self)@,
                old(self)@.wolf_say(wolf_open_id@, message@),
            ),
    {
        if self.stage != Stage::WolvesPick {
            return Err(GameError::NotWolfStage);
        }
        let w: usize = match self.seat_of_wolf(wolf_open_id) {
            Err(e) => {
                return Err(e);
            },
            Ok(w) => w,
        };
        let text = trim(message.as_str());
        if text.is_empty() {
            return Err(GameError::EmptyMessage);
        }
        self.wolf_chat.push((w, text.to_owned()));
        assert(self@.wolf_chat == old(self)@.wolf_chat.push((w, text@)));
        Ok(())
    }

    /// A wolf confirms its pick and may no longer change it.
    pub fn wolf_mark_ready(&mut self, wolf_open_id: &str) -> (r: Result<(), GameError>)
        requires
            old(self)@.wf(),
        ensures
            final(self)@.wf(),
            follows(r, old(self)@, final(self)@, old(self)@.wolf_mark_ready(wolf_open_id@)),
    {
        if self.stage != Stage::WolvesPick {
            return Err(GameError::NotWolfStage);
        }
        let w: usize = match self.seat_of_wolf(wolf_open_id) {
            Err(e) => {
                return Err(e);
            },
            Ok(w) => w,
        };
        if find_key(&self.wolf_kill_votes, w) >= self.wolf_kill_votes.len() {
            return Err(GameError::WolfNoTarget);
        }
        if !holds(&self.wolf_ready, w) {
            self.wolf_ready.push(w);
        }
        Ok(())
    }

    /// Whether the wolf in this seat has confirmed its pick.
    pub fn is_wolf_ready(&self, idx: usize) -> (r: bool)
        ensures
            r == self@.wolf_ready.contains(idx),
    {
        holds(&self.wolf_ready, idx)
    }

    /// Whether there are living wolves and all of them have confirmed.
    pub fn all_alive_wolves_ready(&self) -> (r: bool)
        ensures
            r == (self@.wolf_seats().len() > 0 && forall|i: int|
                0 <= i < self@.wolf_seats().len() ==> self@.wolf_ready.contains(
                    #[trigger] self@.wolf_seats()[i],
                )),
    {
        let wolves = self.alive_wolves();
        let mut i: usize = 0;
        while i < wolves.len()
            invariant
                i <= wolves.len(),
                wolves@ == self@.wolf_seats(),
                forall|k: int|
                    0 <= k < i ==> self@.wolf_ready.contains(#[trigger] self@.wolf_seats()[k]),
            decreases wolves.len() - i,
        {
            if !holds(&self.wolf_ready, wolves[i]) {
                assert(!self@.wolf_ready.contains(self@.wolf_seats()[i as int]));
                return false;
            }
            i = i + 1;
        }
        wolves.len() > 0
    }

    /// Notes the action card of a wolf.
    pub fn set_wolf_night_msg(&mut self, wolf_idx: usize, msg_id: String)
        ensures
            final(self)@ == (GameView {
                wolf_night_msgs: put_key(old(self)@.wolf_night_msgs, wolf_idx, msg_id@),
                ..old(self)@
            }),
    {
        put_text(&mut self.wolf_night_msgs, wolf_idx, msg_id);
    }

    /// The action card of a wolf.
    pub fn wolf_night_msg(&self, wolf_idx: usize) -> (r: Option<&str>)
        ensures
            r.deep_view() == get_key(self@.wolf_night_msgs, wolf_idx),
    {
        get_text(&self.wolf_night_msgs, wolf_idx)
    }

    /// The victim that all living wolves have picked.
    fn resolve_wolf_kill(&self) -> (r: Option<usize>)
        ensures
            r == self@.wolf_target(),
    {
        let wolves = self.alive_wolves();
        if wolves.len() == 0 {
            return None;
        }
        let first: usize = find_key(&self.wolf_kill_votes, wolves[0]);
        if first >= self.wolf_kill_votes.len() {
            return None;
        }
        let t: usize = self.wolf_kill_votes[first].1;
        let mut i: usize = 0;
        while i < wolves.len()
            invariant
                i <= wolves.len(),
                wolves@ == self@.wolf_seats(),
                wolves.len() > 0,
                get_key(self@.wolf_kill_votes, self@.wolf_seats()[0]) == Some(t),
                forall|k: int|
                    0 <= k < i ==> get_key(
                        self@.wolf_kill_votes,
                        #[trigger] self@.wolf_seats()[k],
                    ) == Some(t),
            decreases wolves.len() - i,
        {
            let p: usize = find_key(&self.wolf_kill_votes, wolves[i]);
            if p >= self.wolf_kill_votes.len() || self.wolf_kill_votes[p].1 != t {
                assert(get_key(self@.wolf_kill_votes, self@.wolf_seats()[i as int]) != Some(t));
                return None;
            }
            i = i + 1;
        }
        Some(t)
    }

    /// Ends the wolves' step: the victim is settled and the next step begins.
    pub fn advance_after_wolves(&mut self) -> (r: Result<(), GameError>)
        requires
            old(self)@.wf(),
        ensures
            final(self)@.wf(),
            follows(r, old(self)@, final(self)@, old(self)@.advance_after_wolves()),
    {
        if self.stage != Stage::WolvesPick {
            return Err(GameError::NotWolfStage);
        }
        let victim = self.resolve_wolf_kill();
        proof {
            if victim is Some {
                lemma_key_pos(self@.wolf_kill_votes, self@.wolf_seats()[0]);
            }
        }
        self.night_victim = victim;
        self.recap_log.push(RecapEvent::WolfFinalTarget { day: self.day, target: victim });
        assert(self@ == GameView {
            night_victim: victim,
            recap_log: old(self)@.recap_log.push(
                RecapView::WolfFinalTarget { day: self.day, target: victim },
            ),
            ..old(self)@
        });
        self.next_night_stage_after(Stage::WolvesPick);
        Ok(())
    }

    /// The seer checks another living player and learns whether it is a wolf.
    pub fn seer_check(&mut self, seer_open_id: &str, target_open_id: &str) -> (r: Result<
        bool,
        GameError,
    >)
        requires
            old(self)@.wf(),
        ensures
            final(self)@.wf(),
            follows_with(
                r,
                old(self)@,
                final(self)@,
                old(self)@.seer_check(seer_open_id@, target_open_id@),
            ),
    {
        if self.stage != Stage::SeerPick {
            return Err(GameError::NotSeerStage);
        }
        let s: usize = match self.seat_of_holder(
            seer_open_id,
            Role::Seer,
            GameError::NotLivingSeer,
        ) {
            Err(e) => {
                return Err(e);
            },
            Ok(s) => s,
        };
        let t: usize = match self.seat_of_target(
            target_open_id,
            GameError::TargetMissing,
            GameError::SeerDeadTarget,
        ) {
            Err(e) => {
                return Err(e);
            },
            Ok(t) => t,
        };
        if t == s {
            return Err(GameError::SeerSelf);
        }
        let is_wolf: bool = self.is_wolf(t);
        self.seer_check_target = Some(t);
        self.seer_history.push(SeerCheck { day: self.day, target_idx: t, is_wolf });
        self.recap_log.push(RecapEvent::SeerCheck { day: self.day, target: t, is_wolf });
        assert(self@ == GameView {
            seer_check_target: Some(t),
            seer_history: old(self)@.seer_history.push(
                SeerCheck { day: self.day, target_idx: t, is_wolf },
            ),
            recap_log: old(self)@.recap_log.push(
                RecapView::SeerCheck { day: self.day, target: t, is_wolf },
            ),
            ..old(self)@
        });
        self.next_night_stage_after(Stage::SeerPick);
        Ok(is_wolf)
    }

    /// The witch saves the victim, poisons somebody else, or passes.
    pub fn witch_act(
        &mut self,
        witch_open_id: &str,
        save_victim: bool,
        poison_target_open_id: Option<&str>,
    ) -> (r: Result<(), GameError>)
        requires
            old(self)@.wf(),
        ensures
            final(self)@.wf(),
            follows(
                r,
                old(self)@,
                final(self)@,
                old(self)@.witch_act(
                    witch_open_id@,
                    save_victim,
                    poison_target_open_id.deep_view(),
                ),
            ),
    {
        if self.stage != Stage::WitchAct {
            return Err(GameError::NotWitchStage);
        }
        let w: usize = match self.seat_of_holder(
            witch_open_id,
            Role::Witch,
            GameError::NotLivingWitch,
        ) {
            Err(e) => {
                return Err(e);
            },
            Ok(w) => w,
        };
        if save_victim && poison_target_open_id.is_some() {
            return Err(GameError::SaveAndPoison);
        }
        if save_victim && self.witch_save_used {
            return Err(GameError::SaveUsed);
        }
        if save_victim && self.night_victim.is_none() {
            return Err(GameError::NothingToSave);
        }
        let mut poison: Option<usize> = None;
        if let Some(target_id) = poison_target_open_id {
            if self.witch_poison_used {
                return Err(GameError::PoisonUsed);
            }
            let t: usize = match self.seat_of_target(
                target_id,
                GameError::PoisonMissing,
                GameError::PoisonDead,
            ) {
                Err(e) => {
                    return Err(e);
                },
                Ok(t) => t,
            };
            if t == w {
                return Err(GameError::PoisonSelf);
            }
            poison = Some(t);
        }
        self.witch_save_choice = Some(save_victim);
        self.witch_poison_target = poison;
        self.witch_acted = true;
        self.recap_log.push(RecapEvent::Witch { day: self.day, save: save_victim, poison });
        assert(self@ == GameView {
            witch_save_choice: Some(save_victim),
            witch_poison_target: poison,
            witch_acted: true,
            recap_log: old(self)@.recap_log.push(
                RecapView::Witch { day: self.day, save: save_victim, poison },
            ),
            ..old(self)@
        });
        self.next_night_stage_after(Stage::WitchAct);
        Ok(())
    }

    /// Who dies tonight, and why.
    fn list_night_deaths(&self) -> (r: Vec<(usize, DeathCause)>)
        ensures
            r@ == self@.night_deaths(),
    {
        let mut deaths: Vec<(usize, DeathCause)> = Vec::new();
        if let Some(victim) = self.night_victim {
            let saved: bool = self.witch_save_choice == Some(true);
            let guarded: bool = self.guard_target == Some(victim);
            if saved == guarded {
                deaths.push((victim, DeathCause::WolfKill));
            }
        }
        if let Some(t) = self.witch_poison_target {
            if !(deaths.len() > 0 && deaths[0].0 == t) {
                deaths.push((t, DeathCause::Poison));
            }
        }
        deaths
    }

    /// One death of the night.
    fn apply_night_death(&mut self, idx: usize, cause: DeathCause)
        requires
            idx < old(self).players.len(),
        ensures
            final(self)@ == old(self)@.die_tonight(idx, cause),
    {
        let line = cat5(
            "第 ",
            decimal(self.day as u64).as_str(),
            " 夜：",
            self.players[idx].name.as_str(),
            " 死亡",
        );
        self.players[idx].alive = false;
        self.last_night_deaths.push(idx);
        self.deaths.push(DeathEvent { day: self.day, night: true, player_idx: idx, cause });
        self.recap_log.push(RecapEvent::Death { day: self.day, night: true, player: idx, cause });
        self.event_log.push(line);
    }

    /// The deaths of the night, one after the other.
    fn apply_night_deaths(&mut self, deaths: &Vec<(usize, DeathCause)>)
        requires
            forall|k: int|
                0 <= k < deaths.len() ==> (#[trigger] deaths@[k]).0 < old(self).players.len(),
        ensures
            final(self)@ == old(self)@.dying(deaths@),
    {
        let ghost base = self@;
        let mut i: usize = 0;
        assert(deaths@.take(0) =~= Seq::empty());
        while i < deaths.len()
            invariant
                i <= deaths.len(),
                forall|k: int|
                    0 <= k < deaths.len() ==> (#[trigger] deaths@[k]).0 < base.players.len(),
                self@ == base.dying(deaths@.take(i as int)),
            decreases deaths.len() - i,
        {
            proof {
                lemma_dying(base, deaths@.take(i as int));
                assert(deaths@.take(i + 1).drop_last() =~= deaths@.take(i as int));
                assert(deaths@.take(i + 1).last() == deaths@[i as int]);
                assert(self.players.len() == self@.players.len());
            }
            self.apply_night_death(deaths[i].0, deaths[i].1);
            i = i + 1;
        }
        assert(deaths@.take(i as int) =~= deaths@);
    }

    /// The wolves' victim, if it dies and may shoot.
    fn find_dead_shooter(&self, deaths: &Vec<(usize, DeathCause)>) -> (r: Option<usize>)
        requires
            deaths@ == self@.night_deaths(),
            self@.wf(),
            self@.in_play(),
        ensures
            r == self@.dead_shooter(),
    {
        if deaths.len() > 0 && deaths[0].1 == DeathCause::WolfKill {
            let victim: usize = deaths[0].0;
            if self.holds_role(victim, Role::Hunter) || self.holds_role(victim, Role::WolfKing) {
                return Some(victim);
            }
        }
        None
    }

    /// What follows the deaths of a night.
    fn settle_dawn(&mut self, dead: Vec<usize>, shooter: Option<usize>)
        ensures
            final(self)@ == old(self)@.dawn(dead@, shooter),
    {
        if shooter.is_some() {
            self.pending_hunter = shooter;
            self.pending_hunter_post_stage = Some(Stage::DaySpeech);
        }
        if let Some(s) = self.sheriff_idx {
            if holds(&dead, s) {
                self.pending_badge = Some(s);
                self.pending_badge_post_stage = Some(Stage::DaySpeech);
            }
        }
        if self.day == 1 {
            self.last_words_queue = dead;
        } else {
            self.last_words_queue.clear();
        }
        self.last_words_idx = 0;
        self.last_words_speeches.clear();
        self.last_words_post_stage = Some(Stage::DaySpeech);
        if self.day == 1 && self.sheriff_enabled && self.sheriff_idx.is_none() {
            self.sheriff_nominations.clear();
            self.sheriff_nominate_msgs.clear();
            self.sheriff_nominate_public_msg = None;
            self.stage = Stage::SheriffNominate;
        } else {
            self.stage = Stage::DayReveal;
        }
    }

    /// Dawn: applies the deaths of the night and settles what comes next.
    fn resolve_night(&mut self)
        requires
            old(self)@.wf(),
            old(self)@.in_play(),
        ensures
            final(self)@.wf(),
            final(self)@ == old(self)@.night_resolved(),
    {
        let ghost start = self@;
        proof {
            lemma_night_resolved_wf(start);
        }
        let deaths = self.list_night_deaths();
        let shooter = self.find_dead_shooter(&deaths);
        let mut dead: Vec<usize> = Vec::new();
        let mut i: usize = 0;
        while i < deaths.len()
            invariant
                i <= deaths.len(),
                dead@ == deaths@.take(i as int).map_values(|d: (usize, DeathCause)| d.0),
            decreases deaths.len() - i,
        {
            dead.push(deaths[i].0);
            i = i + 1;
            assert(dead@ =~= deaths@.take(i as int).map_values(|d: (usize, DeathCause)| d.0));
        }
        assert(deaths@.take(i as int) =~= deaths@);
        if self.witch_save_choice == Some(true) {
            self.witch_save_used = true;
        }
        if self.witch_poison_target.is_some() {
            self.witch_poison_used = true;
        }
        self.last_night_deaths.clear();
        assert(self@ == start.potions_spent());
        self.apply_night_deaths(&deaths);
        self.settle_dawn(dead, shooter);
    }

    /// Enters the step of the night that follows a finished one.
    fn next_night_stage_after(&mut self, just_finished: Stage)
        requires
            old(self)@.wf(),
            old(self)@.in_play(),
        ensures
            final(self)@.wf(),
            final(self)@ == old(self)@.after_night_step(just_finished),
    {
        if just_finished == Stage::WolvesPick && self.role_is_alive(Role::Seer) {
            self.stage = Stage::SeerPick;
        } else if (just_finished == Stage::WolvesPick || just_finished == Stage::SeerPick)
            && self.role_is_alive(Role::Witch) {
            self.stage = Stage::WitchAct;
        } else if just_finished == Stage::WolvesPick || just_finished == Stage::SeerPick
            || just_finished == Stage::WitchAct {
            self.resolve_night();
        }
    }
}

} // verus!
