//! What one AI player knows: the public history, and of the secrets only its own.

use vstd::prelude::*;
use crate::persona::Persona;
use crate::seqs::{copy_of, holds, lemma_map_step, lemma_pick_step, lemma_take_ends, pick};
use crate::text::{cat2, cat3, cat4, cat5, cat6, decimal, decimal_text, holds_text, join, joined, wrap,
    wrapped};
use crate::werewolf::state::{GameView, WolfGame};
use crate::werewolf::table::{checks_ok, seats_ok};
use crate::werewolf::types::{DeathCause, RecapEvent, RecapView, Role, SeerCheck, Stage,
    ThinkingEntry, ThinkingView};

verus! {

/// What one AI player sees of a game.
pub struct PublicView<'a> {
    pub day: u32,
    pub stage_label: &'a str,
    pub me_idx: usize,
    pub me_name: &'a str,
    pub me_role: Role,
    pub persona: Option<Persona>,
    /// Seat, name and whether alive as far as is known.
    pub players: Vec<(usize, String, bool)>,
    /// Of a wolf: seat, name and role of each fellow.
    pub teammates: Vec<(usize, String, &'a str)>,
    /// Of the seer: day, name and result of each check.
    pub seer_log: Vec<(u32, String, bool)>,
    /// The public history, without deaths not announced yet.
    pub event_log: Vec<&'a str>,
    /// What the player itself has said in public.
    pub my_statements: Vec<String>,
    /// All events; only the public ones are ever shown.
    pub recap_log: &'a Vec<RecapEvent>,
    /// Who is dead without its being announced.
    pub hidden_night_deaths: Vec<usize>,
    /// The player's own private thoughts.
    pub my_thinking_history: Vec<&'a ThinkingEntry>,
}

/// What one AI player sees, with texts and lists as sequences.
#[verifier::ext_equal]
pub struct Outlook {
    pub day: u32,
    pub stage_label: Seq<char>,
    pub me_idx: usize,
    pub me_name: Seq<char>,
    pub me_role: Role,
    pub persona: Option<Persona>,
    pub players: Seq<(usize, Seq<char>, bool)>,
    pub teammates: Seq<(usize, Seq<char>, Seq<char>)>,
    pub seer_log: Seq<(u32, Seq<char>, bool)>,
    pub event_log: Seq<Seq<char>>,
    pub my_statements: Seq<Seq<char>>,
    pub recap_log: Seq<RecapView>,
    pub hidden_night_deaths: Seq<usize>,
    pub my_thinking_history: Seq<ThinkingView>,
}

impl<'a> View for PublicView<'a> {
    type V = Outlook;

    open spec fn view(&self) -> Outlook {
        Outlook {
            day: self.day,
            stage_label: self.stage_label@,
            me_idx: self.me_idx,
            me_name: self.me_name@,
            me_role: self.me_role,
            persona: self.persona,
            players: self.players.deep_view(),
            teammates: self.teammates.deep_view(),
            seer_log: self.seer_log.deep_view(),
            event_log: self.event_log.deep_view(),
            my_statements: self.my_statements.deep_view(),
            recap_log: self.recap_log.deep_view(),
            hidden_night_deaths: self.hidden_night_deaths@,
            my_thinking_history: self.my_thinking_history.deep_view(),
        }
    }
}

/// The cause of a death as the public knows it: of a death at night by wolves or poison
/// only that it happened at night.
pub open spec fn public_cause(cause: DeathCause, night: bool) -> Seq<char> {
    if night && (cause == DeathCause::WolfKill || cause == DeathCause::Poison) {
        "夜里死亡"@
    } else {
        cause.label_text()
    }
}

impl Outlook {
    /// Well-formedness: the players are listed by seat.
    pub open spec fn wf(self) -> bool {
        forall|i: int| 0 <= i < self.players.len() ==> (#[trigger] self.players[i]).0 == i
    }

    /// The name of a seat.
    pub open spec fn name_of(self, seat: usize) -> Option<Seq<char>> {
        if seat < self.players.len() {
            Some(self.players[seat as int].1)
        } else {
            None
        }
    }

    /// The name of a seat, or a question mark.
    pub open spec fn shown_name(self, seat: usize) -> Seq<char> {
        match self.name_of(seat) {
            Some(n) => n,
            None => "?"@,
        }
    }

    /// Whom a vote was for.
    pub open spec fn vote_text(self, target: Option<usize>) -> Seq<char> {
        match target {
            Some(t) => self.shown_name(t),
            None => "弃权"@,
        }
    }

    /// The lines that the votes of one round add to the file of `who`.
    pub open spec fn vote_lines(
        self,
        votes: Seq<(usize, Option<usize>)>,
        head: Seq<char>,
        who: usize,
    ) -> Seq<Seq<char>>
        decreases votes.len(),
    {
        if votes.len() == 0 {
            Seq::empty()
        } else {
            let rest = self.vote_lines(votes.drop_last(), head, who);
            if votes.last().0 == who {
                rest.push(head + self.vote_text(votes.last().1))
            } else {
                rest
            }
        }
    }

    /// The lines that an event adds to the public file of `who`. What happens at night
    /// in secret adds none.
    pub open spec fn file_lines(self, e: RecapView, who: usize) -> Seq<Seq<char>> {
        match e {
            RecapView::SheriffSpeech { player, text } => if player == who {
                seq!["【上警发言】"@ + text]
            } else {
                Seq::empty()
            },
            RecapView::SheriffVoteRound { round, votes } => self.vote_lines(
                votes,
                "【警长第"@ + decimal_text(round as nat) + "轮投票 →】"@,
                who,
            ),
            RecapView::DaySpeech { day, player, text } => if player == who {
                seq!["【D"@ + decimal_text(day as nat) + " 发言】"@ + text]
            } else {
                Seq::empty()
            },
            RecapView::DayVoteRound { day, round, votes } => self.vote_lines(
                votes,
                "【D"@ + decimal_text(day as nat) + " 第"@ + decimal_text(round as nat)
                    + "轮投票 →】"@,
                who,
            ),
            RecapView::LastWords { day, night, player, text } => if player == who {
                seq![
                    "【D"@ + decimal_text(day as nat) + (if night {
                        " 夜遗言"@
                    } else {
                        " 放逐遗言"@
                    }) + "】"@ + text,
                ]
            } else {
                Seq::empty()
            },
            RecapView::HunterShot { day, shooter, target } => if shooter == who {
                seq![
                    "【D"@ + decimal_text(day as nat) + " 临死开枪】"@ + (match target {
                        Some(t) => "带走 "@ + self.shown_name(t),
                        None => "选择不开枪"@,
                    }),
                ]
            } else {
                Seq::empty()
            },
            RecapView::BadgePass { day, from, to } => if from == who {
                seq![
                    "【D"@ + decimal_text(day as nat) + " 警徽】"@ + (match to {
                        Some(t) => "传给 "@ + self.shown_name(t),
                        None => "撕毁"@,
                    }),
                ]
            } else {
                Seq::empty()
            },
            _ => Seq::empty(),
        }
    }

    /// What is on file of `who` from these events, but for deaths.
    pub open spec fn acts_on_file(self, log: Seq<RecapView>, who: usize) -> Seq<Seq<char>>
        decreases log.len(),
    {
        if log.len() == 0 {
            Seq::empty()
        } else {
            self.acts_on_file(log.drop_last(), who) + self.file_lines(log.last(), who)
        }
    }

    /// Whether the event is an announced death of `who`.
    pub open spec fn shown_death(self, e: RecapView, who: usize) -> bool {
        match e {
            RecapView::Death { day, night, player, cause } => player == who && !(night
                && self.hidden_night_deaths.contains(player)),
            _ => false,
        }
    }

    /// The line of a death.
    pub open spec fn death_line(self, e: RecapView) -> Seq<char> {
        match e {
            RecapView::Death { day, night, player, cause } => "☠ 【D"@ + decimal_text(day as nat)
                + (if night {
                " 夜"@
            } else {
                " 白天"@
            }) + "】"@ + public_cause(cause, night),
            _ => Seq::empty(),
        }
    }

    /// The announced deaths of `who`, the last first.
    pub open spec fn deaths_on_file(self, log: Seq<RecapView>, who: usize) -> Seq<Seq<char>>
        decreases log.len(),
    {
        if log.len() == 0 {
            Seq::empty()
        } else {
            let rest = self.deaths_on_file(log.drop_last(), who);
            if self.shown_death(log.last(), who) {
                seq![self.death_line(log.last())] + rest
            } else {
                rest
            }
        }
    }

    /// The public file of `who`: deaths first, then what the player said and voted.
    pub open spec fn file_of(self, who: usize) -> Seq<Seq<char>> {
        self.deaths_on_file(self.recap_log, who) + self.acts_on_file(self.recap_log, who)
    }

    /// One player's part of the files; players without lines have none.
    pub open spec fn file_text(self, who: usize) -> Seq<char> {
        let p = self.players[who as int];
        if self.file_of(who).len() == 0 {
            Seq::empty()
        } else {
            "\n### "@ + p.1 + "（"@ + (if p.2 {
                "存活"@
            } else {
                "出局"@
            }) + "）"@ + (if who == self.me_idx {
                "  ← 你"@
            } else {
                ""@
            }) + "\n"@ + wrapped(self.file_of(who), "  "@, "\n"@)
        }
    }

    /// The files of the first `k` players.
    pub open spec fn file_texts(self, k: nat) -> Seq<char>
        decreases k,
    {
        if k == 0 {
            Seq::empty()
        } else {
            self.file_texts((k - 1) as nat) + self.file_text((k - 1) as usize)
        }
    }

    /// Whether one of the first `k` players has lines on file.
    pub open spec fn any_file(self, k: nat) -> bool
        decreases k,
    {
        k > 0 && (self.any_file((k - 1) as nat) || self.file_of((k - 1) as usize).len() > 0)
    }

    /// Where the game stands and who the player is.
    pub open spec fn head_text(self) -> Seq<char> {
        "## 局面\n第 "@ + decimal_text(self.day as nat) + " 天 · 阶段："@ + self.stage_label
            + "\n你是 **"@ + self.me_name + "**，身份 **"@ + self.me_role.label_text() + "**\n"@
    }

    /// Who is alive and who is out.
    pub open spec fn roster_text(self) -> Seq<char> {
        let alive = pick(self.players, seen_alive(), seen_name());
        let dead = pick(self.players, seen_dead(), seen_name());
        "存活："@ + joined(alive, " · "@) + "\n"@ + (if dead.len() == 0 {
            Seq::empty()
        } else {
            "出局："@ + joined(dead, " · "@) + "\n"@
        })
    }

    /// The fellow wolves.
    pub open spec fn mates_text(self) -> Seq<char> {
        if self.teammates.len() == 0 {
            Seq::empty()
        } else {
            "【狼队友】"@ + joined(self.teammates.map_values(mate_line()), "、"@) + "\n"@
        }
    }

    /// The seer's checks.
    pub open spec fn checks_text(self) -> Seq<char> {
        if self.seer_log.len() == 0 {
            Seq::empty()
        } else {
            "\n## 🔮 你的查验记录\n"@ + wrapped(
                self.seer_log.map_values(check_line()),
                "  第 "@,
                "**\n"@,
            )
        }
    }

    /// What the player has said.
    pub open spec fn statements_text(self) -> Seq<char> {
        if self.my_statements.len() == 0 {
            Seq::empty()
        } else {
            "\n## ⚡ 你之前的公开发言（保持一致！前后矛盾会暴露你）\n"@ + wrapped(
                self.my_statements,
                "  "@,
                "\n"@,
            )
        }
    }

    /// What the player has thought.
    pub open spec fn thoughts_text(self) -> Seq<char> {
        if self.my_thinking_history.len() == 0 {
            Seq::empty()
        } else {
            "\n## 🧠 你的内心独白历史（你过去几轮的 thinking，外人看不到）\n"@ + wrapped(
                self.my_thinking_history.map_values(thought_line()),
                "\n### D"@,
                "\n"@,
            )
        }
    }

    /// The files of all players.
    pub open spec fn files_text(self) -> Seq<char> {
        if self.any_file(self.players.len()) {
            "\n## 📒 玩家档案（每人公开发言 + 投票轨迹，是判读真假的核心信号）\n"@
                + self.file_texts(self.players.len())
        } else {
            Seq::empty()
        }
    }

    /// The public history.
    pub open spec fn history_text(self) -> Seq<char> {
        if self.event_log.len() == 0 {
            Seq::empty()
        } else {
            "\n## 📜 事件历史（按时间）\n"@ + wrapped(self.event_log, "  "@, "\n"@)
        }
    }

    /// All that the player knows, as the prompts show it.
    pub open spec fn text(self) -> Seq<char> {
        self.head_text() + self.roster_text() + self.mates_text() + self.checks_text()
            + self.statements_text() + self.thoughts_text() + self.files_text()
            + self.history_text()
    }
}

/// Whether a listed player counts as alive.
pub open spec fn seen_alive() -> spec_fn((usize, Seq<char>, bool)) -> bool {
    |p: (usize, Seq<char>, bool)| p.2
}

/// Whether a listed player counts as dead.
pub open spec fn seen_dead() -> spec_fn((usize, Seq<char>, bool)) -> bool {
    |p: (usize, Seq<char>, bool)| !p.2
}

/// The name of a listed player.
pub open spec fn seen_name() -> spec_fn((usize, Seq<char>, bool)) -> Seq<char> {
    |p: (usize, Seq<char>, bool)| p.1
}

/// A fellow wolf with its role.
pub open spec fn mate_line() -> spec_fn((usize, Seq<char>, Seq<char>)) -> Seq<char> {
    |p: (usize, Seq<char>, Seq<char>)| p.1 + " ("@ + p.2 + ")"@
}

/// A check with its result.
pub open spec fn check_line() -> spec_fn((u32, Seq<char>, bool)) -> Seq<char> {
    |c: (u32, Seq<char>, bool)|
        decimal_text(c.0 as nat) + " 夜 · "@ + c.1 + " → **"@ + (if c.2 {
            "狼人"@
        } else {
            "好人"@
        })
}

/// A thought with its occasion.
pub open spec fn thought_line() -> spec_fn(ThinkingView) -> Seq<char> {
    |t: ThinkingView| decimal_text(t.day as nat) + " · "@ + t.kind.label_text() + "\n"@ + t.thinking
}

impl<'a> PublicView<'a> {
    /// The name of a seat.
    pub fn player_name(&self, idx: usize) -> (r: Option<&str>)
        requires
            self@.wf(),
        ensures
            r.deep_view() == self@.name_of(idx),
    {
        if idx < self.players.len() {
            Some(self.players[idx].1.as_str())
        } else {
            None
        }
    }

    fn shown(&self, idx: usize) -> (r: &str)
        requires
            self@.wf(),
        ensures
            r@ == self@.shown_name(idx),
    {
        match self.player_name(idx) {
            Some(n) => n,
            None => "?",
        }
    }

    fn vote_shown(&self, target: Option<usize>) -> (r: &str)
        requires
            self@.wf(),
        ensures
            r@ == self@.vote_text(target),
    {
        match target {
            Some(t) => self.shown(t),
            None => "弃权",
        }
    }

    /// Adds the lines of one round of votes.
    fn add_vote_lines(
        &self,
        out: &mut Vec<String>,
        votes: &Vec<(usize, Option<usize>)>,
        head: &str,
        who: usize,
    )
        requires
            self@.wf(),
        ensures
            final(out).deep_view() == old(out).deep_view() + self@.vote_lines(votes@, head@, who),
    {
        let ghost start = out.deep_view();
        let mut i: usize = 0;
        proof {
            lemma_take_ends(votes@);
            assert(start + Seq::<Seq<char>>::empty() =~= start);
        }
        while i < votes.len()
            invariant
                self@.wf(),
                i <= votes.len(),
                out.deep_view() == start + self@.vote_lines(votes@.take(i as int), head@, who),
            decreases votes.len() - i,
        {
            let ghost before = out.deep_view();
            proof {
                assert(votes@.take(i + 1).drop_last() =~= votes@.take(i as int));
            }
            if votes[i].0 == who {
                let line = cat2(head, self.vote_shown(votes[i].1));
                out.push(line);
                assert(out.deep_view() =~= before.push(line@));
                assert(out.deep_view() =~= start + self@.vote_lines(
                    votes@.take(i + 1),
                    head@,
                    who,
                ));
            }
            i = i + 1;
        }
        proof {
            lemma_take_ends(votes@);
        }
    }

    /// Adds the lines of one event.
    fn add_file_lines(&self, out: &mut Vec<String>, e: &RecapEvent, who: usize)
        requires
            self@.wf(),
        ensures
            final(out).deep_view() == old(out).deep_view() + self@.file_lines(e.deep_view(), who),
    {
        let ghost start = out.deep_view();
        proof {
            assert(start + Seq::<Seq<char>>::empty() =~= start);
        }
        match e {
            RecapEvent::SheriffSpeech { player, text } => {
                if *player == who {
                    out.push(cat2("【上警发言】", text.as_str()));
                }
            },
            RecapEvent::SheriffVoteRound { round, votes } => {
                let head = cat3("【警长第", decimal(*round as u64).as_str(), "轮投票 →】");
                self.add_vote_lines(out, votes, head.as_str(), who);
            },
            RecapEvent::DaySpeech { day, player, text } => {
                if *player == who {
                    out.push(
                        cat4("【D", decimal(*day as u64).as_str(), " 发言】", text.as_str()),
                    );
                }
            },
            RecapEvent::DayVoteRound { day, round, votes } => {
                let head = cat5(
                    "【D",
                    decimal(*day as u64).as_str(),
                    " 第",
                    decimal(*round as u64).as_str(),
                    "轮投票 →】",
                );
                self.add_vote_lines(out, votes, head.as_str(), who);
            },
            RecapEvent::LastWords { day, night, player, text } => {
                if *player == who {
                    let kind = if *night {
                        " 夜遗言"
                    } else {
                        " 放逐遗言"
                    };
                    out.push(
                        cat5("【D", decimal(*day as u64).as_str(), kind, "】", text.as_str()),
                    );
                }
            },
            RecapEvent::HunterShot { day, shooter, target } => {
                if *shooter == who {
                    let what = match target {
                        Some(t) => cat2("带走 ", self.shown(*t)),
                        None => "选择不开枪".to_owned(),
                    };
                    out.push(
                        cat4("【D", decimal(*day as u64).as_str(), " 临死开枪】", what.as_str()),
                    );
                }
            },
            RecapEvent::BadgePass { day, from, to } => {
                if *from == who {
                    let what = match to {
                        Some(t) => cat2("传给 ", self.shown(*t)),
                        None => "撕毁".to_owned(),
                    };
                    out.push(
                        cat4("【D", decimal(*day as u64).as_str(), " 警徽】", what.as_str()),
                    );
                }
            },
            _ => {},
        }
        assert(out.deep_view() =~= start + self@.file_lines(e.deep_view(), who));
    }

    /// The cause of a death as the public knows it.
    pub fn cause_label_for_view(&self, cause: DeathCause, night: bool) -> (r: &'static str)
        ensures
            r@ == public_cause(cause, night),
    {
        if night && (cause == DeathCause::WolfKill || cause == DeathCause::Poison) {
            "夜里死亡"
        } else {
            cause.label()
        }
    }

    /// The public file of one player.
    fn file(&self, who: usize) -> (r: Vec<String>)
        requires
            self@.wf(),
        ensures
            r.deep_view() == self@.file_of(who),
    {
        let ghost log = self@.recap_log;
        let mut out: Vec<String> = Vec::new();
        let mut i: usize = self.recap_log.len();
        proof {
            lemma_take_ends(log);
            assert(out.deep_view() =~= Seq::empty());
            assert(out.deep_view() + self@.deaths_on_file(log, who) =~= self@.deaths_on_file(
                log,
                who,
            ));
        }
        while i > 0
            invariant
                self@.wf(),
                log == self@.recap_log,
                log.len() == self.recap_log.len(),
                i <= log.len(),
                out.deep_view() + self@.deaths_on_file(log.take(i as int), who)
                    == self@.deaths_on_file(log, who),
            decreases i,
        {
            let ghost before = out.deep_view();
            i = i - 1;
            proof {
                assert(log.take(i + 1).drop_last() =~= log.take(i as int));
                assert(log.take(i + 1).last() == self.recap_log@[i as int].deep_view());
            }
            match &self.recap_log[i] {
                RecapEvent::Death { day, night, player, cause } => {
                    if *player == who && !(*night && holds(&self.hidden_night_deaths, *player)) {
                        let part = if *night {
                            " 夜"
                        } else {
                            " 白天"
                        };
                        let line = cat5(
                            "☠ 【D",
                            decimal(*day as u64).as_str(),
                            part,
                            "】",
                            self.cause_label_for_view(*cause, *night),
                        );
                        out.push(line);
                        proof {
                            let rest = self@.deaths_on_file(log.take(i as int), who);
                            assert(line@ == self@.death_line(log[i as int]));
                            assert(out.deep_view() =~= before.push(line@));
                            assert(out.deep_view() + rest =~= before + (seq![line@] + rest));
                        }
                    }
                },
                _ => {},
            }
        }
        proof {
            lemma_take_ends(log);
            assert(out.deep_view() + Seq::<Seq<char>>::empty() =~= out.deep_view());
        }
        let ghost deaths = out.deep_view();
        let mut k: usize = 0;
        proof {
            assert(deaths + Seq::<Seq<char>>::empty() =~= deaths);
        }
        while k < self.recap_log.len()
            invariant
                self@.wf(),
                log == self@.recap_log,
                log.len() == self.recap_log.len(),
                k <= log.len(),
                out.deep_view() == deaths + self@.acts_on_file(log.take(k as int), who),
            decreases log.len() - k,
        {
            proof {
                assert(log.take(k + 1).drop_last() =~= log.take(k as int));
                assert(log.take(k + 1).last() == self.recap_log@[k as int].deep_view());
            }
            let ghost before = out.deep_view();
            self.add_file_lines(&mut out, &self.recap_log[k], who);
            proof {
                let done = self@.acts_on_file(log.take(k as int), who);
                let more = self@.file_lines(log[k as int], who);
                assert(out.deep_view() =~= deaths + (done + more));
            }
            k = k + 1;
        }
        proof {
            lemma_take_ends(log);
        }
        out
    }

    /// The public files by seat: seat, name, whether alive, lines.
    pub fn build_dossiers(&self) -> (r: Vec<(usize, String, bool, Vec<String>)>)
        requires
            self@.wf(),
        ensures
            r.len() == self@.players.len(),
            forall|i: int|
                #![trigger r@[i]]
                0 <= i < r.len() ==> r@[i].0 == i && r@[i].1@ == self@.players[i].1 && r@[i].2
                    == self@.players[i].2 && r@[i].3.deep_view() == self@.file_of(i as usize),
    {
        let mut r: Vec<(usize, String, bool, Vec<String>)> = Vec::new();
        let mut i: usize = 0;
        while i < self.players.len()
            invariant
                self@.wf(),
                i <= self.players.len(),
                r.len() == i,
                forall|k: int|
                    #![trigger r@[k]]
                    0 <= k < i ==> r@[k].0 == k && r@[k].1@ == self@.players[k].1 && r@[k].2
                        == self@.players[k].2 && r@[k].3.deep_view() == self@.file_of(k as usize),
            decreases self.players.len() - i,
        {
            let lines = self.file(i);
            r.push((i, self.players[i].1.clone(), self.players[i].2, lines));
            i = i + 1;
        }
        r
    }
}

impl<'a> PublicView<'a> {
    /// The names of the players seen alive, or of those seen dead.
    fn names_seen(&self, alive: bool) -> (r: Vec<String>)
        ensures
            alive ==> r.deep_view() == pick(self@.players, seen_alive(), seen_name()),
            !alive ==> r.deep_view() == pick(self@.players, seen_dead(), seen_name()),
    {
        let ghost ps = self@.players;
        let ghost keep = if alive {
            seen_alive()
        } else {
            seen_dead()
        };
        let mut r: Vec<String> = Vec::new();
        let mut i: usize = 0;
        proof {
            lemma_take_ends(ps);
            assert(r.deep_view() =~= Seq::empty());
        }
        while i < self.players.len()
            invariant
                i <= self.players.len(),
                ps == self@.players,
                ps.len() == self.players.len(),
                keep == (if alive {
                    seen_alive()
                } else {
                    seen_dead()
                }),
                r.deep_view() == pick(ps.take(i as int), keep, seen_name()),
            decreases self.players.len() - i,
        {
            proof {
                lemma_pick_step(ps, keep, seen_name(), i as int);
            }
            let ghost before = r.deep_view();
            if self.players[i].2 == alive {
                r.push(self.players[i].1.clone());
                assert(r.deep_view() =~= before.push(ps[i as int].1));
            }
            i = i + 1;
        }
        proof {
            lemma_take_ends(ps);
        }
        r
    }

    fn render_roster(&self) -> (r: String)
        ensures
            r@ == self@.roster_text(),
    {
        let alive = self.names_seen(true);
        let dead = self.names_seen(false);
        let mut out = cat3("存活：", join(&alive, " · ").as_str(), "\n");
        let tail = if dead.len() == 0 {
            String::new()
        } else {
            cat3("出局：", join(&dead, " · ").as_str(), "\n")
        };
        out.append(tail.as_str());
        out
    }

    fn render_mates(&self) -> (r: String)
        ensures
            r@ == self@.mates_text(),
    {
        if self.teammates.len() == 0 {
            return String::new();
        }
        let ghost ms = self@.teammates;
        let mut lines: Vec<String> = Vec::new();
        let mut i: usize = 0;
        proof {
            assert(lines.deep_view() =~= ms.take(0).map_values(mate_line()));
        }
        while i < self.teammates.len()
            invariant
                i <= self.teammates.len(),
                ms == self@.teammates,
                ms.len() == self.teammates.len(),
                lines.deep_view() == ms.take(i as int).map_values(mate_line()),
            decreases self.teammates.len() - i,
        {
            proof {
                lemma_map_step(ms, mate_line(), i as int);
            }
            let ghost before = lines.deep_view();
            let line = cat4(self.teammates[i].1.as_str(), " (", self.teammates[i].2, ")");
            lines.push(line);
            assert(lines.deep_view() =~= before.push(line@));
            i = i + 1;
        }
        proof {
            lemma_take_ends(ms);
        }
        cat3("【狼队友】", join(&lines, "、").as_str(), "\n")
    }

    fn render_checks(&self) -> (r: String)
        ensures
            r@ == self@.checks_text(),
    {
        if self.seer_log.len() == 0 {
            return String::new();
        }
        let ghost cs = self@.seer_log;
        let mut lines: Vec<String> = Vec::new();
        let mut i: usize = 0;
        proof {
            assert(lines.deep_view() =~= cs.take(0).map_values(check_line()));
        }
        while i < self.seer_log.len()
            invariant
                i <= self.seer_log.len(),
                cs == self@.seer_log,
                cs.len() == self.seer_log.len(),
                lines.deep_view() == cs.take(i as int).map_values(check_line()),
            decreases self.seer_log.len() - i,
        {
            proof {
                lemma_map_step(cs, check_line(), i as int);
            }
            let ghost before = lines.deep_view();
            let verdict = if self.seer_log[i].2 {
                "狼人"
            } else {
                "好人"
            };
            let line = cat5(
                decimal(self.seer_log[i].0 as u64).as_str(),
                " 夜 · ",
                self.seer_log[i].1.as_str(),
                " → **",
                verdict,
            );
            lines.push(line);
            assert(lines.deep_view() =~= before.push(line@));
            i = i + 1;
        }
        proof {
            lemma_take_ends(cs);
        }
        cat2("\n## 🔮 你的查验记录\n", wrap(&lines, "  第 ", "**\n").as_str())
    }

    fn render_statements(&self) -> (r: String)
        ensures
            r@ == self@.statements_text(),
    {
        if self.my_statements.len() == 0 {
            return String::new();
        }
        cat2(
            "\n## ⚡ 你之前的公开发言（保持一致！前后矛盾会暴露你）\n",
            wrap(&self.my_statements, "  ", "\n").as_str(),
        )
    }

    fn render_thoughts(&self) -> (r: String)
        ensures
            r@ == self@.thoughts_text(),
    {
        if self.my_thinking_history.len() == 0 {
            return String::new();
        }
        let ghost ts = self@.my_thinking_history;
        let mut lines: Vec<String> = Vec::new();
        let mut i: usize = 0;
        proof {
            assert(lines.deep_view() =~= ts.take(0).map_values(thought_line()));
        }
        while i < self.my_thinking_history.len()
            invariant
                i <= self.my_thinking_history.len(),
                ts == self@.my_thinking_history,
                ts.len() == self.my_thinking_history.len(),
                lines.deep_view() == ts.take(i as int).map_values(thought_line()),
            decreases self.my_thinking_history.len() - i,
        {
            proof {
                lemma_map_step(ts, thought_line(), i as int);
            }
            let ghost before = lines.deep_view();
            let entry = self.my_thinking_history[i];
            let line = cat5(
                decimal(entry.day as u64).as_str(),
                " · ",
                entry.kind.label(),
                "\n",
                entry.thinking.as_str(),
            );
            lines.push(line);
            assert(lines.deep_view() =~= before.push(line@));
            i = i + 1;
        }
        proof {
            lemma_take_ends(ts);
        }
        cat2(
            "\n## 🧠 你的内心独白历史（你过去几轮的 thinking，外人看不到）\n",
            wrap(&lines, "\n### D", "\n").as_str(),
        )
    }

    fn render_files(&self) -> (r: String)
        requires
            self@.wf(),
        ensures
            r@ == self@.files_text(),
    {
        let files = self.build_dossiers();
        let mut any: bool = false;
        let mut out = "\n## 📒 玩家档案（每人公开发言 + 投票轨迹，是判读真假的核心信号）\n".to_owned();
        let ghost head = out@;
        let mut i: usize = 0;
        proof {
            assert(head + Seq::<char>::empty() =~= head);
        }
        while i < files.len()
            invariant
                i <= files.len(),
                files.len() == self@.players.len(),
                forall|k: int|
                    #![trigger files@[k]]
                    0 <= k < files.len() ==> files@[k].0 == k && files@[k].1@
                        == self@.players[k].1 && files@[k].2 == self@.players[k].2
                        && files@[k].3.deep_view() == self@.file_of(k as usize),
                out@ == head + self@.file_texts(i as nat),
                any == self@.any_file(i as nat),
            decreases files.len() - i,
        {
            let ghost before = out@;
            if files[i].3.len() > 0 {
                any = true;
                let status = if files[i].2 {
                    "存活"
                } else {
                    "出局"
                };
                let mark = if i == self.me_idx {
                    "  ← 你"
                } else {
                    ""
                };
                let title = cat6("\n### ", files[i].1.as_str(), "（", status, "）", mark);
                let part = cat3(title.as_str(), "\n", wrap(&files[i].3, "  ", "\n").as_str());
                out.append(part.as_str());
                assert(part@ =~= self@.file_text(i));
            }
            i = i + 1;
            assert(out@ =~= head + self@.file_texts(i as nat));
        }
        if any {
            out
        } else {
            String::new()
        }
    }

    fn render_history(&self) -> (r: String)
        ensures
            r@ == self@.history_text(),
    {
        if self.event_log.len() == 0 {
            return String::new();
        }
        let ghost es = self@.event_log;
        let mut lines: Vec<String> = Vec::new();
        let mut i: usize = 0;
        while i < self.event_log.len()
            invariant
                i <= self.event_log.len(),
                es == self@.event_log,
                es.len() == self.event_log.len(),
                lines.len() == i,
                forall|k: int| 0 <= k < i ==> (#[trigger] lines@[k])@ == es[k],
            decreases self.event_log.len() - i,
        {
            lines.push(self.event_log[i].to_owned());
            i = i + 1;
        }
        assert(lines.deep_view() =~= es);
        cat2("\n## 📜 事件历史（按时间）\n", wrap(&lines, "  ", "\n").as_str())
    }

    /// All that the player knows, as the prompts show it.
    pub fn render(&self) -> (r: String)
        requires
            self@.wf(),
        ensures
            r@ == self@.text(),
    {
        let mut out = cat5(
            "## 局面\n第 ",
            decimal(self.day as u64).as_str(),
            " 天 · 阶段：",
            self.stage_label,
            "\n你是 **",
        );
        out.append(self.me_name);
        out.append("**，身份 **");
        out.append(self.me_role.label());
        out.append("**\n");
        out.append(self.render_roster().as_str());
        out.append(self.render_mates().as_str());
        out.append(self.render_checks().as_str());
        out.append(self.render_statements().as_str());
        out.append(self.render_thoughts().as_str());
        out.append(self.render_files().as_str());
        out.append(self.render_history().as_str());
        out
    }
}

/// A player's own public statement, if the event is one.
pub open spec fn own_statement(who: usize) -> spec_fn(RecapView) -> bool {
    |e: RecapView|
        match e {
            RecapView::SheriffSpeech { player, text } => player == who,
            RecapView::DaySpeech { day, player, text } => player == who,
            RecapView::LastWords { day, night, player, text } => player == who,
            _ => false,
        }
}

/// How a statement is shown to the player who made it.
pub open spec fn statement_text() -> spec_fn(RecapView) -> Seq<char> {
    |e: RecapView|
        match e {
            RecapView::SheriffSpeech { player, text } => "[上警发言] "@ + text,
            RecapView::DaySpeech { day, player, text } => "[第 "@ + decimal_text(day as nat)
                + " 天发言] "@ + text,
            RecapView::LastWords { day, night, player, text } => "[遗言] "@ + text,
            _ => Seq::empty(),
        }
}

/// Whether a thought is of this player.
pub open spec fn own_thought(who: usize) -> spec_fn(ThinkingView) -> bool {
    |t: ThinkingView| t.player == who
}

/// A thought as it is.
pub open spec fn same_thought() -> spec_fn(ThinkingView) -> ThinkingView {
    |t: ThinkingView| t
}

/// A line as it is.
pub open spec fn same_line() -> spec_fn(Seq<char>) -> Seq<char> {
    |l: Seq<char>| l
}

impl GameView {
    /// Who is dead without its being announced: the dead of the first night while the
    /// election lasts.
    pub open spec fn unannounced(self) -> Seq<usize> {
        if self.day == 1 && self.in_election() {
            self.last_night_deaths
        } else {
            Seq::empty()
        }
    }

    /// The history line of a death last night.
    pub open spec fn night_death_line(self, i: usize) -> Seq<char> {
        "第 "@ + decimal_text(self.day as nat) + " 夜："@ + self.players[i as int].name + " 死亡"@
    }

    /// Whether a line of the history tells of nobody's unannounced death.
    pub open spec fn announced_line(self) -> spec_fn(Seq<char>) -> bool {
        |l: Seq<char>|
            forall|k: int|
                0 <= k < self.unannounced().len() ==> l != self.night_death_line(
                    #[trigger] self.unannounced()[k],
                )
    }

    /// A player as the others see it.
    pub open spec fn seen_player(self) -> spec_fn(int) -> (usize, Seq<char>, bool) {
        |i: int|
            (
                i as usize,
                self.players[i].name,
                self.players[i].alive || self.unannounced().contains(i as usize),
            )
    }

    /// The other wolves among the first `k` players.
    pub open spec fn mates_of(self, me: usize, k: nat) -> Seq<(usize, Seq<char>, Seq<char>)>
        decreases k,
    {
        if k == 0 {
            Seq::empty()
        } else {
            let i = (k - 1) as usize;
            let rest = self.mates_of(me, (k - 1) as nat);
            if self.seat_is_wolf(i) && i != me {
                rest.push(
                    (i, self.players[i as int].name, self.players[i as int].role->0.label_text()),
                )
            } else {
                rest
            }
        }
    }

    /// The checks as the seer remembers them.
    pub open spec fn remembered_check(self) -> spec_fn(SeerCheck) -> (u32, Seq<char>, bool) {
        |c: SeerCheck| (c.day, self.players[c.target_idx as int].name, c.is_wolf)
    }

    /// What the player in seat `me` sees: its own role and persona, its fellows if it is
    /// a wolf, its checks if it is the seer, its own statements and thoughts, and what
    /// is public.
    pub open spec fn outlook(self, me: usize) -> Outlook {
        let role = self.players[me as int].role->0;
        Outlook {
            day: self.day,
            stage_label: self.stage.label_text(),
            me_idx: me,
            me_name: self.players[me as int].name,
            me_role: role,
            persona: self.players[me as int].persona,
            players: Seq::new(self.players.len(), self.seen_player()),
            teammates: if role.wolfish() {
                self.mates_of(me, self.players.len())
            } else {
                Seq::empty()
            },
            seer_log: if role == Role::Seer {
                self.seer_history.map_values(self.remembered_check())
            } else {
                Seq::empty()
            },
            event_log: pick(self.event_log, self.announced_line(), same_line()),
            my_statements: pick(self.recap_log, own_statement(me), statement_text()),
            recap_log: self.recap_log,
            hidden_night_deaths: self.unannounced(),
            my_thinking_history: pick(self.thinking_log, own_thought(me), same_thought()),
        }
    }
}

impl WolfGame {
    /// Who is dead without its being announced.
    fn unannounced_deaths(&self) -> (r: Vec<usize>)
        ensures
            r@ == self@.unannounced(),
    {
        if self.day == 1 && matches!(
            self.stage,
            Stage::SheriffNominate | Stage::SheriffSpeech | Stage::SheriffWithdraw
                | Stage::SheriffVote
        ) {
            copy_of(&self.last_night_deaths)
        } else {
            Vec::new()
        }
    }

    /// The players as one sees the others.
    fn players_seen(&self, hidden: &Vec<usize>) -> (r: Vec<(usize, String, bool)>)
        requires
            hidden@ == self@.unannounced(),
        ensures
            r.deep_view() == Seq::new(self@.players.len(), self@.seen_player()),
    {
        let mut r: Vec<(usize, String, bool)> = Vec::new();
        let mut i: usize = 0;
        while i < self.players.len()
            invariant
                i <= self.players.len(),
                hidden@ == self@.unannounced(),
                r.len() == i,
                forall|k: int|
                    0 <= k < i ==> (#[trigger] r@[k]).deep_view() == (self@.seen_player())(k),
            decreases self.players.len() - i,
        {
            r.push(
                (i, self.players[i].name.clone(), self.players[i].alive || holds(hidden, i)),
            );
            i = i + 1;
        }
        assert(r.deep_view() =~= Seq::new(self@.players.len(), self@.seen_player()));
        r
    }

    /// The history without deaths that are not announced.
    fn history_seen<'a>(&'a self, hidden: &Vec<usize>) -> (r: Vec<&'a str>)
        requires
            hidden@ == self@.unannounced(),
            seats_ok(self@.unannounced(), self@.players.len()),
        ensures
            r.deep_view() == pick(self@.event_log, self@.announced_line(), same_line()),
    {
        let mut secret: Vec<String> = Vec::new();
        let mut i: usize = 0;
        while i < hidden.len()
            invariant
                i <= hidden.len(),
                hidden@ == self@.unannounced(),
                seats_ok(self@.unannounced(), self@.players.len()),
                secret.len() == i,
                forall|k: int|
                    0 <= k < i ==> (#[trigger] secret@[k])@ == self@.night_death_line(
                        self@.unannounced()[k],
                    ),
            decreases hidden.len() - i,
        {
            let who: usize = hidden[i];
            assert(self@.unannounced()[i as int] < self@.players.len());
            let line = cat5(
                "第 ",
                decimal(self.day as u64).as_str(),
                " 夜：",
                self.players[who].name.as_str(),
                " 死亡",
            );
            secret.push(line);
            i = i + 1;
        }
        let ghost log = self@.event_log;
        let mut r: Vec<&'a str> = Vec::new();
        let mut j: usize = 0;
        proof {
            lemma_take_ends(log);
            assert(r.deep_view() =~= Seq::empty());
        }
        while j < self.event_log.len()
            invariant
                j <= self.event_log.len(),
                log == self@.event_log,
                log.len() == self.event_log.len(),
                secret.len() == self@.unannounced().len(),
                forall|k: int|
                    0 <= k < secret.len() ==> (#[trigger] secret@[k])@ == self@.night_death_line(
                        self@.unannounced()[k],
                    ),
                r.deep_view() == pick(log.take(j as int), self@.announced_line(), same_line()),
            decreases self.event_log.len() - j,
        {
            let ghost before = r.deep_view();
            let known: bool = holds_text(&secret, self.event_log[j].as_str());
            proof {
                lemma_pick_step(log, self@.announced_line(), same_line(), j as int);
                let l = log[j as int];
                if known {
                    let k = choose|k: int| 0 <= k < secret.len() && (#[trigger] secret@[k])@ == l;
                    assert(l == self@.night_death_line(self@.unannounced()[k]));
                } else {
                    assert forall|k: int| 0 <= k < self@.unannounced().len() implies l
                        != self@.night_death_line(#[trigger] self@.unannounced()[k]) by {
                        assert(secret@[k]@ != l);
                    }
                }
            }
            if !known {
                r.push(self.event_log[j].as_str());
                assert(r.deep_view() =~= before.push(log[j as int]));
            }
            j = j + 1;
        }
        proof {
            lemma_take_ends(log);
        }
        r
    }

    /// The other wolves.
    fn mates_seen<'a>(&'a self, me: usize) -> (r: Vec<(usize, String, &'a str)>)
        ensures
            r.deep_view() == self@.mates_of(me, self@.players.len()),
    {
        let mut r: Vec<(usize, String, &'a str)> = Vec::new();
        let mut i: usize = 0;
        assert(r.deep_view() =~= Seq::empty());
        while i < self.players.len()
            invariant
                i <= self.players.len(),
                r.deep_view() == self@.mates_of(me, i as nat),
            decreases self.players.len() - i,
        {
            let ghost before = r.deep_view();
            if self.is_wolf(i) && i != me {
                if let Some(role) = self.players[i].role {
                    r.push((i, self.players[i].name.clone(), role.label()));
                    assert(r.deep_view() =~= before.push(
                        (i, self@.players[i as int].name, role.label_text()),
                    ));
                }
            }
            i = i + 1;
        }
        r
    }

    /// The seer's checks.
    fn checks_seen(&self) -> (r: Vec<(u32, String, bool)>)
        requires
            checks_ok(self@.seer_history, self@.players.len()),
        ensures
            r.deep_view() == self@.seer_history.map_values(self@.remembered_check()),
    {
        let mut r: Vec<(u32, String, bool)> = Vec::new();
        let mut i: usize = 0;
        while i < self.seer_history.len()
            invariant
                checks_ok(self@.seer_history, self@.players.len()),
                i <= self.seer_history.len(),
                r.len() == i,
                forall|k: int|
                    0 <= k < i ==> (#[trigger] r@[k]).deep_view() == (self@.remembered_check())(
                        self@.seer_history[k],
                    ),
            decreases self.seer_history.len() - i,
        {
            let c = self.seer_history[i];
            assert(self@.seer_history[i as int].target_idx < self@.players.len());
            r.push((c.day, self.players[c.target_idx].name.clone(), c.is_wolf));
            i = i + 1;
        }
        assert(r.deep_view() =~= self@.seer_history.map_values(self@.remembered_check()));
        r
    }

    /// What a player has said in public.
    fn statements_of(&self, me: usize) -> (r: Vec<String>)
        ensures
            r.deep_view() == pick(self@.recap_log, own_statement(me), statement_text()),
    {
        let ghost log = self@.recap_log;
        let mut r: Vec<String> = Vec::new();
        let mut i: usize = 0;
        proof {
            lemma_take_ends(log);
            assert(r.deep_view() =~= Seq::empty());
        }
        while i < self.recap_log.len()
            invariant
                i <= self.recap_log.len(),
                log == self@.recap_log,
                log.len() == self.recap_log.len(),
                r.deep_view() == pick(log.take(i as int), own_statement(me), statement_text()),
            decreases self.recap_log.len() - i,
        {
            let ghost before = r.deep_view();
            proof {
                lemma_pick_step(log, own_statement(me), statement_text(), i as int);
            }
            match &self.recap_log[i] {
                RecapEvent::SheriffSpeech { player, text } => {
                    if *player == me {
                        r.push(cat2("[上警发言] ", text.as_str()));
                        assert(r.deep_view() =~= before.push((statement_text())(log[i as int])));
                    }
                },
                RecapEvent::DaySpeech { day, player, text } => {
                    if *player == me {
                        r.push(
                            cat4(
                                "[第 ",
                                decimal(*day as u64).as_str(),
                                " 天发言] ",
                                text.as_str(),
                            ),
                        );
                        assert(r.deep_view() =~= before.push((statement_text())(log[i as int])));
                    }
                },
                RecapEvent::LastWords { day: _, night: _, player, text } => {
                    if *player == me {
                        r.push(cat2("[遗言] ", text.as_str()));
                        assert(r.deep_view() =~= before.push((statement_text())(log[i as int])));
                    }
                },
                _ => {},
            }
            i = i + 1;
        }
        proof {
            lemma_take_ends(log);
        }
        r
    }

    /// What a player has thought.
    fn thoughts_of<'a>(&'a self, me: usize) -> (r: Vec<&'a ThinkingEntry>)
        ensures
            r.deep_view() == pick(self@.thinking_log, own_thought(me), same_thought()),
    {
        let ghost log = self@.thinking_log;
        let mut r: Vec<&'a ThinkingEntry> = Vec::new();
        let mut i: usize = 0;
        proof {
            lemma_take_ends(log);
            assert(r.deep_view() =~= Seq::empty());
        }
        while i < self.thinking_log.len()
            invariant
                i <= self.thinking_log.len(),
                log == self@.thinking_log,
                log.len() == self.thinking_log.len(),
                r.deep_view() == pick(log.take(i as int), own_thought(me), same_thought()),
            decreases self.thinking_log.len() - i,
        {
            let ghost before = r.deep_view();
            proof {
                lemma_pick_step(log, own_thought(me), same_thought(), i as int);
            }
            if self.thinking_log[i].player == me {
                r.push(&self.thinking_log[i]);
                assert(r.deep_view() =~= before.push(log[i as int]));
            }
            i = i + 1;
        }
        proof {
            lemma_take_ends(log);
        }
        r
    }
}

/// What the player in a seat sees of a game.
pub fn build_view<'a>(game: &'a WolfGame, ai_idx: usize) -> (r: PublicView<'a>)
    requires
        ai_idx < game.players.len(),
        game.players[ai_idx as int].role is Some,
        seats_ok(game@.unannounced(), game@.players.len()),
        game.players[ai_idx as int].role == Some(Role::Seer) ==> checks_ok(
            game@.seer_history,
            game@.players.len(),
        ),
    ensures
        r@ == game@.outlook(ai_idx),
        r@.wf(),
{
    let hidden = game.unannounced_deaths();
    let role = game.players[ai_idx].role.unwrap();
    let players = game.players_seen(&hidden);
    let event_log = game.history_seen(&hidden);
    let teammates = if role.is_wolf() {
        game.mates_seen(ai_idx)
    } else {
        Vec::new()
    };
    let seer_log = if role == Role::Seer {
        game.checks_seen()
    } else {
        Vec::new()
    };
    let my_statements = game.statements_of(ai_idx);
    let my_thinking_history = game.thoughts_of(ai_idx);
    PublicView {
        day: game.day,
        stage_label: game.stage.label(),
        me_idx: ai_idx,
        me_name: game.players[ai_idx].name.as_str(),
        me_role: role,
        persona: game.players[ai_idx].persona,
        players,
        teammates,
        seer_log,
        event_log,
        my_statements,
        recap_log: &game.recap_log,
        hidden_night_deaths: hidden,
        my_thinking_history,
    }
}

} // verus!
