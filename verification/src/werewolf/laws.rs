//! What holds of every game, whichever moves are made.

use vstd::prelude::*;
use crate::assoc::lemma_key_pos;
use crate::seqs::{lemma_first_from, lemma_first_is};
use crate::werewolf::election::equal_weights;
use crate::werewolf::state::GameView;
use crate::werewolf::table::{seat_ok, MAX_SEATS};
use crate::werewolf::tally::leaders;
use crate::werewolf::types::{DeathCause, PlayerView, RecapView, SeerCheck, Stage};

verus! {

/// The moves of a running game.
pub enum Move {
    GuardPick { who: Seq<char>, target: Seq<char> },
    GuardSkip { who: Seq<char> },
    WolfPick { who: Seq<char>, target: Seq<char> },
    WolfSay { who: Seq<char>, message: Seq<char> },
    WolfReady { who: Seq<char> },
    WolvesDone,
    SeerCheck { who: Seq<char>, target: Seq<char> },
    WitchAct { who: Seq<char>, save: bool, poison: Option<Seq<char>> },
    EndReveal { start: usize },
    Nominate { who: Seq<char>, run: bool },
    EndNominations,
    SheriffSpeech { who: Seq<char>, text: Seq<char> },
    EndSheriffSpeeches,
    Withdraw { who: Seq<char>, stay: bool },
    EndWithdrawals,
    SheriffVote { who: Seq<char>, target: Option<Seq<char>> },
    CountSheriffVotes,
    Direction { who: Seq<char>, clockwise: bool },
    DaySpeech { who: Seq<char>, text: Seq<char> },
    OpenVote,
    DayVote { who: Seq<char>, target: Option<Seq<char>> },
    CountDayVotes,
    AfterVote,
    LastWords { who: Seq<char>, text: Seq<char> },
    EndLastWords { start: usize },
    Shoot { who: Seq<char>, target: Option<Seq<char>>, start: usize },
    PassBadge { who: Seq<char>, target: Option<Seq<char>>, start: usize },
    Explode { who: Seq<char> },
}

/// The table after a move that was tried: as the rule says, or as it was.
pub open spec fn kept<E>(g: GameView, r: Result<GameView, E>) -> GameView {
    match r {
        Ok(h) => h,
        Err(_) => g,
    }
}

/// The table after a move with a result.
pub open spec fn kept_with<T, E>(g: GameView, r: Result<(GameView, T), E>) -> GameView {
    match r {
        Ok(p) => p.0,
        Err(_) => g,
    }
}

impl GameView {
    /// The table after a move was tried.
    pub open spec fn played(self, m: Move) -> GameView {
        match m {
            Move::GuardPick { who, target } => kept(self, self.guard_pick(who, target)),
            Move::GuardSkip { who } => kept(self, self.guard_skip(who)),
            Move::WolfPick { who, target } => kept(self, self.wolf_pick(who, target)),
            Move::WolfSay { who, message } => kept(self, self.wolf_say(who, message)),
            Move::WolfReady { who } => kept(self, self.wolf_mark_ready(who)),
            Move::WolvesDone => kept(self, self.advance_after_wolves()),
            Move::SeerCheck { who, target } => kept_with(self, self.seer_check(who, target)),
            Move::WitchAct { who, save, poison } => kept(self, self.witch_act(who, save, poison)),
            Move::EndReveal { start } => kept(self, self.enter_day_discuss(start)),
            Move::Nominate { who, run } => kept(self, self.nominate_sheriff(who, run)),
            Move::EndNominations => kept(self, self.finish_sheriff_nominate()),
            Move::SheriffSpeech { who, text } => kept(self, self.submit_sheriff_speech(who, text)),
            Move::EndSheriffSpeeches => kept(self, self.finish_sheriff_speeches()),
            Move::Withdraw { who, stay } => kept(self, self.decide_sheriff_withdraw(who, stay)),
            Move::EndWithdrawals => kept_with(self, self.finish_sheriff_withdraw()),
            Move::SheriffVote { who, target } => kept(self, self.cast_sheriff_vote(who, target)),
            Move::CountSheriffVotes => kept_with(self, self.resolve_sheriff_vote()),
            Move::Direction { who, clockwise } => kept(
                self,
                self.pick_sheriff_direction(who, clockwise),
            ),
            Move::DaySpeech { who, text } => kept(self, self.submit_day_speech(who, text)),
            Move::OpenVote => kept(self, self.enter_day_vote()),
            Move::DayVote { who, target } => kept(self, self.cast_vote(who, target)),
            Move::CountDayVotes => kept_with(self, self.resolve_lynch()),
            Move::AfterVote => self.advance_after_vote(),
            Move::LastWords { who, text } => kept(self, self.submit_last_words(who, text)),
            Move::EndLastWords { start } => kept(self, self.finish_last_words(start)),
            Move::Shoot { who, target, start } => kept_with(
                self,
                self.hunter_shoot(who, target, start),
            ),
            Move::PassBadge { who, target, start } => kept_with(
                self,
                self.transfer_badge(who, target, start),
            ),
            Move::Explode { who } => kept_with(self, self.self_explode(who)),
        }
    }
}

/// Whether `b` goes on where `a` ends.
pub open spec fn extends<T>(a: Seq<T>, b: Seq<T>) -> bool {
    a.len() <= b.len() && forall|i: int| 0 <= i < a.len() ==> #[trigger] b[i] == a[i]
}

/// Whether the same players sit with the same roles and nobody has come back to life.
pub open spec fn same_seats(a: Seq<PlayerView>, b: Seq<PlayerView>) -> bool {
    a.len() == b.len() && forall|i: int|
        0 <= i < a.len() ==> #[trigger] b[i] == (PlayerView {
            alive: b[i].alive,
            ..a[i]
        }) && (b[i].alive ==> a[i].alive)
}

/// What no move of a game undoes: the seats, names and roles stay, the dead stay dead,
/// a spent potion stays spent, the histories only grow, and the day goes on by at most one.
#[verifier::opaque]
pub open spec fn steady(g: GameView, h: GameView) -> bool {
    &&& same_seats(g.players, h.players)
    &&& h.chat_id == g.chat_id
    &&& h.game_count == g.game_count
    &&& g.witch_save_used ==> h.witch_save_used
    &&& g.witch_poison_used ==> h.witch_poison_used
    &&& extends(g.event_log, h.event_log)
    &&& extends(g.deaths, h.deaths)
    &&& extends(g.recap_log, h.recap_log)
    &&& extends(g.seer_history, h.seer_history)
    &&& extends(g.thinking_log, h.thinking_log)
    &&& g.day <= h.day <= g.day + 1
}

/// Whether the two agree on all that `steady` speaks of.
spec fn settled_alike(g: GameView, h: GameView) -> bool {
    &&& h.players == g.players
    &&& h.chat_id == g.chat_id
    &&& h.game_count == g.game_count
    &&& h.witch_save_used == g.witch_save_used
    &&& h.witch_poison_used == g.witch_poison_used
    &&& h.event_log == g.event_log
    &&& h.deaths == g.deaths
    &&& h.recap_log == g.recap_log
    &&& h.seer_history == g.seer_history
    &&& h.thinking_log == g.thinking_log
    &&& h.day == g.day
}

proof fn lemma_alike(g: GameView, h: GameView)
    requires
        settled_alike(g, h),
    ensures
        steady(g, h),
{
    reveal(steady);
}

proof fn lemma_trans(a: GameView, b: GameView, c: GameView)
    requires
        steady(a, b),
        steady(b, c),
        a.day == b.day || b.day == c.day,
    ensures
        steady(a, c),
{
    reveal(steady);
    assert(same_seats(a.players, c.players)) by {
        assert forall|i: int| 0 <= i < a.players.len() implies #[trigger] c.players[i] == (
        PlayerView { alive: c.players[i].alive, ..a.players[i] }) && (c.players[i].alive
            ==> a.players[i].alive) by {
            assert(b.players[i] == b.players[i]);
        }
    }
    assert(extends(a.event_log, c.event_log)) by {
        assert forall|i: int| 0 <= i < a.event_log.len() implies #[trigger] c.event_log[i]
            == a.event_log[i] by {
            assert(b.event_log[i] == a.event_log[i]);
        }
    }
    assert(extends(a.deaths, c.deaths)) by {
        assert forall|i: int| 0 <= i < a.deaths.len() implies #[trigger] c.deaths[i]
            == a.deaths[i] by {
            assert(b.deaths[i] == a.deaths[i]);
        }
    }
    assert(extends(a.recap_log, c.recap_log)) by {
        assert forall|i: int| 0 <= i < a.recap_log.len() implies #[trigger] c.recap_log[i]
            == a.recap_log[i] by {
            assert(b.recap_log[i] == a.recap_log[i]);
        }
    }
    assert(extends(a.seer_history, c.seer_history)) by {
        assert forall|i: int| 0 <= i < a.seer_history.len() implies #[trigger] c.seer_history[i]
            == a.seer_history[i] by {
            assert(b.seer_history[i] == a.seer_history[i]);
        }
    }
    assert(extends(a.thinking_log, c.thinking_log)) by {
        assert forall|i: int| 0 <= i < a.thinking_log.len() implies #[trigger] c.thinking_log[i]
            == a.thinking_log[i] by {
            assert(b.thinking_log[i] == a.thinking_log[i]);
        }
    }
}

proof fn lemma_steady_next_night(g: GameView)
    requires
        g.day < u32::MAX,
    ensures
        steady(g, g.next_night()),
{
    reveal(steady);
}

proof fn lemma_steady_continued(g: GameView, post: Option<Stage>, start: usize)
    requires
        g.day < u32::MAX,
    ensures
        steady(g, g.continued(post, start)),
{
    let h = GameView { skip_day_after_reveal: false, ..g };
    lemma_alike(g, h);
    lemma_steady_next_night(h);
    lemma_trans(g, h, h.next_night());
    lemma_alike(g, GameView { stage: Stage::DayReveal, ..g });
    lemma_alike(g, GameView { stage: Stage::Ended, ..g });
    lemma_alike(g, g.day_begun(start));
}

proof fn lemma_steady_die_tonight(g: GameView, i: usize, cause: DeathCause)
    requires
        i < g.players.len(),
    ensures
        steady(g, g.die_tonight(i, cause)),
        g.die_tonight(i, cause).day == g.day,
{
    reveal(steady);
}

proof fn lemma_steady_die_by_day(g: GameView, i: usize, cause: DeathCause, line: Seq<char>)
    requires
        i < g.players.len(),
    ensures
        steady(g, g.die_by_day(i, cause, line)),
        g.die_by_day(i, cause, line).day == g.day,
{
    reveal(steady);
}

proof fn lemma_steady_dying(g: GameView, d: Seq<(usize, DeathCause)>)
    requires
        forall|i: int| 0 <= i < d.len() ==> (#[trigger] d[i]).0 < g.players.len(),
    ensures
        steady(g, g.dying(d)),
        g.dying(d).day == g.day,
        g.dying(d).players.len() == g.players.len(),
    decreases d.len(),
{
    if d.len() > 0 {
        let e = d.drop_last();
        lemma_steady_dying(g, e);
        assert(d.last() == d[d.len() - 1]);
        lemma_steady_die_tonight(g.dying(e), d.last().0, d.last().1);
        lemma_trans(g, g.dying(e), g.dying(d));
    } else {
        lemma_alike(g, g);
    }
}

proof fn lemma_steady_night_step(g: GameView, finished: Stage)
    requires
        seat_ok(g.night_victim, g.players.len()),
        seat_ok(g.witch_poison_target, g.players.len()),
    ensures
        steady(g, g.after_night_step(finished)),
{
    let p = g.potions_spent();
    let d = p.dying(g.night_deaths());
    assert(steady(g, p)) by {
        reveal(steady);
    }
    lemma_steady_dying(p, g.night_deaths());
    lemma_trans(g, p, d);
    lemma_alike(d, d.dawn(g.dead_seats(), g.dead_shooter()));
    lemma_trans(g, d, g.night_resolved());
    lemma_alike(g, GameView { stage: Stage::SeerPick, ..g });
    lemma_alike(g, GameView { stage: Stage::WitchAct, ..g });
    lemma_alike(g, g);
}

proof fn lemma_steady_wolves_done(g: GameView)
    requires
        g.wf(),
        g.in_play(),
    ensures
        steady(g, kept(g, g.advance_after_wolves())),
{
    lemma_alike(g, g);
    if g.stage == Stage::WolvesPick {
        if g.wolf_target() is Some {
            lemma_key_pos(g.wolf_kill_votes, g.wolf_seats()[0]);
        }
        let h = GameView {
            night_victim: g.wolf_target(),
            recap_log: g.recap_log.push(
                RecapView::WolfFinalTarget { day: g.day, target: g.wolf_target() },
            ),
            ..g
        };
        assert(steady(g, h)) by {
            reveal(steady);
        }
        lemma_steady_night_step(h, Stage::WolvesPick);
        lemma_trans(g, h, h.after_night_step(Stage::WolvesPick));
    }
}

proof fn lemma_steady_seer_check(g: GameView, who: Seq<char>, target: Seq<char>)
    requires
        g.wf(),
        g.in_play(),
    ensures
        steady(g, kept_with(g, g.seer_check(who, target))),
{
    lemma_alike(g, g);
    if g.seer_check(who, target) is Ok {
        let t = g.seat_of(target)->0;
        let is_wolf = g.seat_is_wolf(t);
        let h = GameView {
            seer_check_target: Some(t),
            seer_history: g.seer_history.push(SeerCheck { day: g.day, target_idx: t, is_wolf }),
            recap_log: g.recap_log.push(RecapView::SeerCheck { day: g.day, target: t, is_wolf }),
            ..g
        };
        assert(steady(g, h)) by {
            reveal(steady);
        }
        lemma_steady_night_step(h, Stage::SeerPick);
        lemma_trans(g, h, h.after_night_step(Stage::SeerPick));
    }
}

proof fn lemma_steady_witch_act(
    g: GameView,
    who: Seq<char>,
    save: bool,
    poison: Option<Seq<char>>,
)
    requires
        g.wf(),
        g.in_play(),
    ensures
        steady(g, kept(g, g.witch_act(who, save, poison))),
{
    lemma_alike(g, g);
    if g.witch_act(who, save, poison) is Ok {
        let w = g.seat_of(who)->0;
        let p = g.poison_seat(w, poison)->Ok_0;
        lemma_seat_exists(g, who);
        if poison is Some {
            lemma_seat_exists(g, poison->0);
        }
        let h = GameView {
            witch_save_choice: Some(save),
            witch_poison_target: p,
            witch_acted: true,
            recap_log: g.recap_log.push(RecapView::Witch { day: g.day, save, poison: p }),
            ..g
        };
        assert(steady(g, h)) by {
            reveal(steady);
        }
        lemma_steady_night_step(h, Stage::WitchAct);
        lemma_trans(g, h, h.after_night_step(Stage::WitchAct));
    }
}

proof fn lemma_steady_end_reveal(g: GameView, start: usize)
    requires
        g.day < u32::MAX,
    ensures
        steady(g, kept(g, g.enter_day_discuss(start))),
{
    lemma_alike(g, g);
    if g.stage == Stage::DayReveal {
        let h = g.post_noted();
        let k = g.enter_day_discuss(start)->Ok_0;
        if g.last_words_queue.len() == 0 && g.pending_hunter is None && g.badge_due() is None
            && g.skip_day_after_reveal {
            let n = GameView { skip_day_after_reveal: false, ..h };
            lemma_alike(g, n);
            lemma_steady_next_night(n);
            lemma_trans(g, n, n.next_night());
        } else {
            assert(settled_alike(g, k));
            lemma_alike(g, k);
        }
    }
}

proof fn lemma_steady_count_day_votes(g: GameView)
    requires
        g.wf(),
        g.in_play(),
    ensures
        steady(g, kept_with(g, g.resolve_lynch())),
{
    lemma_alike(g, g);
    lemma_leaders_seats(g);
    if g.stage == Stage::DayVote {
        let top = leaders(g.day_votes, g.day_weights());
        let k = g.resolve_lynch()->Ok_0.0;
        if top.len() == 1 {
            let h = GameView {
                recap_log: g.recap_log.push(
                    RecapView::DayVoteRound {
                        day: g.day,
                        round: (g.day_vote_round + 1) as u8,
                        votes: g.day_votes,
                    },
                ),
                ..g
            };
            let line = g.day_line(g.players[top[0] as int].name + " 被投票放逐。"@);
            assert(steady(g, h)) by {
                reveal(steady);
            }
            assert(top[0] < g.players.len());
            lemma_steady_die_by_day(h, top[0], DeathCause::Lynch, line);
            let d = h.die_by_day(top[0], DeathCause::Lynch, line);
            lemma_trans(g, h, d);
            assert(steady(d, k)) by {
                reveal(steady);
            }
            lemma_trans(g, d, k);
        } else {
            assert(steady(g, k)) by {
                reveal(steady);
            }
        }
    }
}

proof fn lemma_steady_after_vote(g: GameView)
    requires
        g.day < u32::MAX,
    ensures
        steady(g, g.advance_after_vote()),
{
    lemma_steady_next_night(g);
    if !(g.last_day_lynched is None) || (g.stage == Stage::DaySpeech && g.day_vote_round == 1) {
        lemma_alike(g, g.advance_after_vote());
    }
}

proof fn lemma_steady_end_last_words(g: GameView, start: usize)
    requires
        g.day < u32::MAX,
    ensures
        steady(g, kept(g, g.finish_last_words(start))),
{
    let h = GameView { last_words_post_stage: None, ..g };
    lemma_alike(g, g);
    lemma_alike(g, h);
    lemma_steady_continued(h, g.last_words_post_stage, start);
    lemma_trans(g, h, h.continued(g.last_words_post_stage, start));
    lemma_alike(g, GameView { stage: Stage::HunterShoot, ..g });
    lemma_alike(g, GameView { stage: Stage::BadgePass, ..g });
}

proof fn lemma_steady_shot_done(g: GameView, h: usize, t: Option<usize>)
    requires
        seat_ok(t, g.players.len()),
    ensures
        steady(g, g.shot_done(h, t)),
        g.shot_done(h, t).day == g.day,
{
    reveal(steady);
}

proof fn lemma_steady_shoot(
    g: GameView,
    who: Seq<char>,
    target: Option<Seq<char>>,
    start: usize,
)
    requires
        g.players.len() <= MAX_SEATS,
        g.day < u32::MAX,
    ensures
        steady(g, kept_with(g, g.hunter_shoot(who, target, start))),
{
    lemma_alike(g, g);
    if g.hunter_shoot(who, target, start) is Ok {
        let h = g.seat_of(who)->0;
        let t = g.shot_target(h, target)->Ok_0;
        if target is Some {
            lemma_seat_exists(g, target->0);
        }
        let post = g.pending_hunter_post_stage;
        let d = g.shot_done(h, t);
        lemma_steady_shot_done(g, h, t);
        let k = g.hunter_shoot(who, target, start)->Ok_0.0;
        if d.sheriff_idx is Some && !d.players[d.sheriff_idx->0 as int].alive {
            lemma_alike(d, k);
        } else {
            lemma_steady_continued(d, post, start);
        }
        lemma_trans(g, d, k);
    }
}

proof fn lemma_steady_pass_badge(
    g: GameView,
    who: Seq<char>,
    target: Option<Seq<char>>,
    start: usize,
)
    requires
        g.day < u32::MAX,
    ensures
        steady(g, kept_with(g, g.transfer_badge(who, target, start))),
{
    lemma_alike(g, g);
    if g.transfer_badge(who, target, start) is Ok {
        let s = g.seat_of(who)->0;
        let to = g.badge_target(s, target)->Ok_0;
        let h = g.badge_passed(s, to);
        assert(steady(g, h)) by {
            reveal(steady);
        }
        lemma_steady_continued(h, g.pending_badge_post_stage, start);
        lemma_trans(g, h, h.continued(g.pending_badge_post_stage, start));
    }
}

proof fn lemma_steady_explode(g: GameView, who: Seq<char>)
    requires
        g.players.len() <= MAX_SEATS,
        g.day < u32::MAX,
    ensures
        steady(g, kept_with(g, g.self_explode(who))),
{
    lemma_alike(g, g);
    if g.self_explode(who) is Ok {
        let i = g.seat_of(who)->0;
        lemma_seat_exists(g, who);
        let line = g.day_line(g.players[i as int].name + " 自爆。"@);
        lemma_steady_die_by_day(g, i, DeathCause::SelfExplode, line);
        let d = g.die_by_day(i, DeathCause::SelfExplode, line);
        let k = g.self_explode(who)->Ok_0.0;
        lemma_steady_next_night(d);
        if g.in_election() || g.sheriff_idx == Some(i) {
            lemma_alike(d, k);
        }
        lemma_trans(g, d, k);
    }
}

proof fn lemma_steady_quiet_night(g: GameView, m: Move)
    requires
        m is GuardPick || m is GuardSkip || m is WolfPick || m is WolfSay || m is WolfReady,
    ensures
        steady(g, g.played(m)),
{
    lemma_alike(g, g);
    match m {
        Move::GuardPick { who, target } => {
            if g.guard_pick(who, target) is Ok {
                assert(steady(g, g.guard_pick(who, target)->Ok_0)) by {
                    reveal(steady);
                }
            }
        },
        _ => {
            lemma_alike(g, g.played(m));
        },
    }
}

proof fn lemma_steady_elected(g: GameView, sheriff: Option<usize>, line: Seq<char>)
    ensures
        steady(g, g.elected(sheriff, line)),
        g.elected(sheriff, line).day == g.day,
{
    reveal(steady);
}

proof fn lemma_steady_end_nominations(g: GameView)
    ensures
        steady(g, kept(g, g.finish_sheriff_nominate())),
{
    lemma_alike(g, g);
    if g.stage == Stage::SheriffNominate {
        let c = g.candidates();
        let h = GameView {
            sheriff_original_candidates: c,
            sheriff_vote_round: 0,
            sheriff_pk_candidates: Seq::empty(),
            recap_log: g.recap_log.push(RecapView::SheriffCandidates { candidates: c }),
            ..g
        };
        assert(steady(g, h)) by {
            reveal(steady);
        }
        let k = g.finish_sheriff_nominate()->Ok_0;
        if c.len() == 0 {
            lemma_steady_elected(h, None, "无人上警，本局无警长。"@);
        } else if c.len() == 1 {
            lemma_steady_elected(
                h,
                Some(c[0]),
                g.players[c[0] as int].name + " 唯一上警，自动当选警长。"@,
            );
        } else {
            lemma_alike(h, k);
        }
        lemma_trans(g, h, k);
    }
}

proof fn lemma_steady_end_withdrawals(g: GameView)
    ensures
        steady(g, kept_with(g, g.finish_sheriff_withdraw())),
{
    lemma_alike(g, g);
    let c = g.candidates();
    lemma_steady_elected(g, None, "所有候选人退水，本局无警长。"@);
    lemma_steady_elected(
        g,
        Some(c[0]),
        g.players[c[0] as int].name + " 成为唯一候选人，当选警长。"@,
    );
    lemma_alike(g, g.election_opened());
}

proof fn lemma_steady_count_sheriff_votes(g: GameView)
    ensures
        steady(g, kept_with(g, g.resolve_sheriff_vote())),
{
    lemma_alike(g, g);
    if g.stage == Stage::SheriffVote {
        let top = leaders(g.sheriff_votes, equal_weights());
        let h = GameView {
            recap_log: g.recap_log.push(
                RecapView::SheriffVoteRound {
                    round: (g.sheriff_vote_round + 1) as u8,
                    votes: g.sheriff_votes,
                },
            ),
            ..g
        };
        assert(steady(g, h)) by {
            reveal(steady);
        }
        let k = g.resolve_sheriff_vote()->Ok_0.0;
        lemma_steady_elected(h, None, "警长投票全员弃权，本局无警长。"@);
        lemma_steady_elected(h, None, "警长 PK 再次平票，本局无警长。"@);
        lemma_steady_elected(
            h,
            Some(top[0]),
            g.players[top[0] as int].name + " 当选警长。"@,
        );
        if top.len() > 1 && g.sheriff_vote_round == 0 {
            assert(steady(h, k)) by {
                reveal(steady);
            }
        }
        lemma_trans(g, h, k);
    }
}

proof fn lemma_steady_election(g: GameView, m: Move)
    requires
        m is Nominate || m is SheriffSpeech || m is EndSheriffSpeeches || m is Withdraw
            || m is SheriffVote,
    ensures
        steady(g, g.played(m)),
{
    lemma_alike(g, g);
    match m {
        Move::SheriffSpeech { who, text } => {
            let r = g.submit_sheriff_speech(who, text);
            if r is Ok {
                assert(steady(g, r->Ok_0)) by {
                    reveal(steady);
                }
            }
        },
        Move::Withdraw { who, stay } => {
            let r = g.decide_sheriff_withdraw(who, stay);
            if r is Ok {
                assert(steady(g, r->Ok_0)) by {
                    reveal(steady);
                }
            }
        },
        _ => {
            lemma_alike(g, g.played(m));
        },
    }
}

proof fn lemma_steady_quiet_day(g: GameView, m: Move)
    requires
        m is Direction || m is DaySpeech || m is OpenVote || m is DayVote || m is LastWords,
    ensures
        steady(g, g.played(m)),
{
    lemma_alike(g, g);
    match m {
        Move::Direction { who, clockwise } => {
            let r = g.pick_sheriff_direction(who, clockwise);
            if r is Ok {
                assert(steady(g, r->Ok_0)) by {
                    reveal(steady);
                }
            }
        },
        Move::DaySpeech { who, text } => {
            let r = g.submit_day_speech(who, text);
            if r is Ok {
                assert(steady(g, r->Ok_0)) by {
                    reveal(steady);
                }
            }
        },
        Move::DayVote { who, target } => {
            let r = g.cast_vote(who, target);
            if r is Ok {
                assert(steady(g, r->Ok_0)) by {
                    reveal(steady);
                }
            }
        },
        Move::LastWords { who, text } => {
            let r = g.submit_last_words(who, text);
            if r is Ok {
                assert(steady(g, r->Ok_0)) by {
                    reveal(steady);
                }
            }
        },
        _ => {
            lemma_alike(g, g.played(m));
        },
    }
}

/// No move undoes what a game has settled: see `steady`.
pub proof fn law_steady(g: GameView, m: Move)
    requires
        g.wf(),
        g.in_play(),
        g.day < u32::MAX,
    ensures
        steady(g, g.played(m)),
{
    match m {
        Move::WolvesDone => lemma_steady_wolves_done(g),
        Move::SeerCheck { who, target } => lemma_steady_seer_check(g, who, target),
        Move::WitchAct { who, save, poison } => lemma_steady_witch_act(g, who, save, poison),
        Move::EndReveal { start } => lemma_steady_end_reveal(g, start),
        Move::CountDayVotes => lemma_steady_count_day_votes(g),
        Move::AfterVote => lemma_steady_after_vote(g),
        Move::EndLastWords { start } => lemma_steady_end_last_words(g, start),
        Move::Shoot { who, target, start } => lemma_steady_shoot(g, who, target, start),
        Move::PassBadge { who, target, start } => lemma_steady_pass_badge(g, who, target, start),
        Move::Explode { who } => lemma_steady_explode(g, who),
        Move::EndNominations => lemma_steady_end_nominations(g),
        Move::EndWithdrawals => lemma_steady_end_withdrawals(g),
        Move::CountSheriffVotes => lemma_steady_count_sheriff_votes(g),
        Move::GuardPick { .. } => lemma_steady_quiet_night(g, m),
        Move::GuardSkip { .. } => lemma_steady_quiet_night(g, m),
        Move::WolfPick { .. } => lemma_steady_quiet_night(g, m),
        Move::WolfSay { .. } => lemma_steady_quiet_night(g, m),
        Move::WolfReady { .. } => lemma_steady_quiet_night(g, m),
        Move::Nominate { .. } => lemma_steady_election(g, m),
        Move::SheriffSpeech { .. } => lemma_steady_election(g, m),
        Move::EndSheriffSpeeches => lemma_steady_election(g, m),
        Move::Withdraw { .. } => lemma_steady_election(g, m),
        Move::SheriffVote { .. } => lemma_steady_election(g, m),
        Move::Direction { .. } => lemma_steady_quiet_day(g, m),
        Move::DaySpeech { .. } => lemma_steady_quiet_day(g, m),
        Move::OpenVote => lemma_steady_quiet_day(g, m),
        Move::DayVote { .. } => lemma_steady_quiet_day(g, m),
        Move::LastWords { .. } => lemma_steady_quiet_day(g, m),
    }
}

/// A seat that is found exists and is of the player asked for.
pub proof fn lemma_seat_exists(g: GameView, id: Seq<char>)
    requires
        g.players.len() <= MAX_SEATS,
    ensures
        g.seat_of(id) is Some ==> g.seat_of(id)->0 < g.players.len()
            && g.players[g.seat_of(id)->0 as int].open_id == id,
{
    lemma_first_from(0, g.players.len() as int, g.has_id(id));
}

/// The seat of a seated player is found by the player's open id.
pub proof fn law_seat_of(g: GameView, i: usize)
    requires
        g.wf(),
        i < g.players.len(),
    ensures
        g.seat_of(g.players[i as int].open_id) == Some(i),
{
    let id = g.players[i as int].open_id;
    assert forall|j: int| 0 <= j < i implies !#[trigger] (g.has_id(id))(j) by {
        assert(g.players[j].open_id != g.players[i as int].open_id);
    }
    lemma_first_is(g.players.len() as int, g.has_id(id), i as int);
}

proof fn lemma_leaders_seats(g: GameView)
    requires
        g.wf(),
        g.in_play(),
    ensures
        forall|i: int|
            0 <= i < leaders(g.day_votes, g.day_weights()).len() ==> #[trigger] leaders(
                g.day_votes,
                g.day_weights(),
            )[i] < g.players.len(),
{
    crate::werewolf::tally::lemma_leaders(g.day_votes, g.day_weights(), g.players.len());
}

} // verus!
