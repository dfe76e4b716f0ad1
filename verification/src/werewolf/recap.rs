//! The summary of a finished game, a block per phase.

use vstd::prelude::*;
use crate::seqs::{lemma_map_step, lemma_take_ends};
use crate::text::{cat2, cat3, cat4, cat5, decimal, decimal_text, join, joined};
use crate::werewolf::state::{GameView, WolfGame};
use crate::werewolf::types::{RecapEvent, RecapView};

verus! {

/// The phase a block of the summary is about.
#[derive(Debug, Clone, Copy, PartialEq, Eq, Structural)]
pub enum Section {
    Night(u32),
    Dawn(u32),
    Sheriff,
    DaySpeech(u32),
    DayVote(u32),
    Skill,
}

impl Section {
    /// The title of the block.
    pub open spec fn title_text(self) -> Seq<char> {
        match self {
            Section::Night(d) => "🌒 **第 "@ + decimal_text(d as nat) + " 夜**"@,
            Section::Dawn(d) => "🌅 **第 "@ + decimal_text(d as nat) + " 天 黎明**"@,
            Section::Sheriff => "🎖️ **上警阶段**"@,
            Section::DaySpeech(d) => "🎙️ **第 "@ + decimal_text(d as nat) + " 天 轮流发言**"@,
            Section::DayVote(d) => "🗳️ **第 "@ + decimal_text(d as nat) + " 天 投票**"@,
            Section::Skill => "🏹 **技能 · 警徽流转**"@,
        }
    }

    /// The title of the block.
    pub fn title(self) -> (r: String)
        ensures
            r@ == self.title_text(),
    {
        match self {
            Section::Night(d) => cat3("🌒 **第 ", decimal(d as u64).as_str(), " 夜**"),
            Section::Dawn(d) => cat3("🌅 **第 ", decimal(d as u64).as_str(), " 天 黎明**"),
            Section::Sheriff => "🎖️ **上警阶段**".to_owned(),
            Section::DaySpeech(d) => cat3(
                "🎙️ **第 ",
                decimal(d as u64).as_str(),
                " 天 轮流发言**",
            ),
            Section::DayVote(d) => cat3("🗳️ **第 ", decimal(d as u64).as_str(), " 天 投票**"),
            Section::Skill => "🏹 **技能 · 警徽流转**".to_owned(),
        }
    }
}

/// The block an event belongs to.
pub open spec fn section_of(e: RecapView) -> Section {
    match e {
        RecapView::GuardProtect { day, .. } => Section::Night(day),
        RecapView::WolfFinalTarget { day, .. } => Section::Night(day),
        RecapView::SeerCheck { day, .. } => Section::Night(day),
        RecapView::Witch { day, .. } => Section::Night(day),
        RecapView::Death { day, night, .. } => if night {
            Section::Dawn(day)
        } else {
            Section::DayVote(day)
        },
        RecapView::LastWords { day, night, .. } => if night {
            Section::Dawn(day)
        } else {
            Section::DayVote(day)
        },
        RecapView::SheriffCandidates { .. } => Section::Sheriff,
        RecapView::SheriffSpeech { .. } => Section::Sheriff,
        RecapView::SheriffVoteRound { .. } => Section::Sheriff,
        RecapView::SheriffElected { .. } => Section::Sheriff,
        RecapView::SheriffDirection { .. } => Section::Sheriff,
        RecapView::DaySpeech { day, .. } => Section::DaySpeech(day),
        RecapView::DayVoteCast { day, .. } => Section::DayVote(day),
        RecapView::DayVoteRound { day, .. } => Section::DayVote(day),
        RecapView::DayLynch { day, .. } => Section::DayVote(day),
        RecapView::HunterShot { .. } => Section::Skill,
        RecapView::BadgePass { .. } => Section::Skill,
    }
}

/// The block an event belongs to.
pub fn classify(e: &RecapEvent) -> (r: Section)
    ensures
        r == section_of(e.deep_view()),
{
    match e {
        RecapEvent::GuardProtect { day, .. } => Section::Night(*day),
        RecapEvent::WolfFinalTarget { day, .. } => Section::Night(*day),
        RecapEvent::SeerCheck { day, .. } => Section::Night(*day),
        RecapEvent::Witch { day, .. } => Section::Night(*day),
        RecapEvent::Death { day, night, .. } => if *night {
            Section::Dawn(*day)
        } else {
            Section::DayVote(*day)
        },
        RecapEvent::LastWords { day, night, .. } => if *night {
            Section::Dawn(*day)
        } else {
            Section::DayVote(*day)
        },
        RecapEvent::SheriffCandidates { .. } => Section::Sheriff,
        RecapEvent::SheriffSpeech { .. } => Section::Sheriff,
        RecapEvent::SheriffVoteRound { .. } => Section::Sheriff,
        RecapEvent::SheriffElected { .. } => Section::Sheriff,
        RecapEvent::SheriffDirection { .. } => Section::Sheriff,
        RecapEvent::DaySpeech { day, .. } => Section::DaySpeech(*day),
        RecapEvent::DayVoteCast { day, .. } => Section::DayVote(*day),
        RecapEvent::DayVoteRound { day, .. } => Section::DayVote(*day),
        RecapEvent::DayLynch { day, .. } => Section::DayVote(*day),
        RecapEvent::HunterShot { .. } => Section::Skill,
        RecapEvent::BadgePass { .. } => Section::Skill,
    }
}

/// The mark of the result of a check.
pub open spec fn check_mark(is_wolf: bool) -> Seq<char> {
    if is_wolf {
        "🐺 狼人"@
    } else {
        "✅ 好人"@
    }
}

/// The mark of the result of a check.
pub fn check_badge(is_wolf: bool) -> (r: &'static str)
    ensures
        r@ == check_mark(is_wolf),
{
    if is_wolf {
        "🐺 狼人"
    } else {
        "✅ 好人"
    }
}

/// The name of a direction.
pub open spec fn direction_text(clockwise: bool) -> Seq<char> {
    if clockwise {
        "警上 (顺时针)"@
    } else {
        "警下 (逆时针)"@
    }
}

/// The name of a direction.
pub fn direction_label(clockwise: bool) -> (r: &'static str)
    ensures
        r@ == direction_text(clockwise),
{
    if clockwise {
        "警上 (顺时针)"
    } else {
        "警下 (逆时针)"
    }
}

impl GameView {
    /// The name of a seat, or a question mark.
    pub open spec fn name_at(self, i: usize) -> Seq<char> {
        if i < self.players.len() {
            self.players[i as int].name
        } else {
            "?"@
        }
    }

    /// The names of seats.
    pub open spec fn seat_name(self) -> spec_fn(usize) -> Seq<char> {
        |i: usize| self.name_at(i)
    }

    /// Who voted for whom.
    pub open spec fn vote_entry(self) -> spec_fn((usize, Option<usize>)) -> Seq<char> {
        |v: (usize, Option<usize>)|
            self.name_at(v.0) + " → "@ + (match v.1 {
                Some(t) => self.name_at(t),
                None => "弃权"@,
            })
    }

    /// What the witch did, in words.
    pub open spec fn witch_words(self, save: bool, poison: Option<usize>) -> Seq<char> {
        match poison {
            Some(t) => if save {
                "救人 + 毒杀 **"@ + self.name_at(t) + "**"@
            } else {
                "毒杀 **"@ + self.name_at(t) + "**"@
            },
            None => if save {
                "救人"@
            } else {
                "跳过"@
            },
        }
    }

    /// The line of an event in the summary.
    pub open spec fn recap_line(self, e: RecapView) -> Seq<char> {
        match e {
            RecapView::GuardProtect { day, target } => "  🛡️ 守卫守了 **"@ + self.name_at(target)
                + "**"@,
            RecapView::WolfFinalTarget { day, target } => match target {
                Some(t) => "  🐺 狼人合议 → **"@ + self.name_at(t) + "**"@,
                None => "  🐺 狼人空刀"@,
            },
            RecapView::SeerCheck { day, target, is_wolf } => "  🔮 预言家查验 **"@ + self.name_at(
                target,
            ) + "** → "@ + check_mark(is_wolf),
            RecapView::Witch { day, save, poison } => "  🧪 女巫 "@ + self.witch_words(save, poison),
            RecapView::Death { day, night, player, cause } => "  ☠️ **"@ + self.name_at(player)
                + "** "@ + cause.label_text(),
            RecapView::LastWords { day, night, player, text } => "  💬 **"@ + self.name_at(player)
                + "** 遗言："@ + text,
            RecapView::SheriffCandidates { candidates } => if candidates.len() == 0 {
                "  无人上警"@
            } else {
                "  候选人："@ + joined(candidates.map_values(self.seat_name()), " / "@)
            },
            RecapView::SheriffSpeech { player, text } => "  🎤 **"@ + self.name_at(player)
                + "** (上警发言)："@ + text,
            RecapView::SheriffVoteRound { round, votes } => "  🗳️ 警长第 "@ + decimal_text(
                round as nat,
            ) + " 轮票型："@ + joined(votes.map_values(self.vote_entry()), "、"@),
            RecapView::SheriffElected { player } => match player {
                Some(p) => "  🎖️ **"@ + self.name_at(p) + "** 当选警长"@,
                None => "  ⚠️ 流局，本局无警长"@,
            },
            RecapView::SheriffDirection { clockwise } => "  ➡️ 警长选择 **"@ + direction_text(
                clockwise,
            ) + "** 起手，警长本人末位归票"@,
            RecapView::DaySpeech { day, player, text } => "  🎤 **"@ + self.name_at(player) + "**："@
                + text,
            RecapView::DayVoteCast { day, voter, target, weight } => "  "@ + self.name_at(voter)
                + " "@ + (match target {
                Some(t) => "→ **"@ + self.name_at(t) + "**"@,
                None => "→ 弃权"@,
            }) + (if weight == 3 {
                " (警徽 ×1.5)"@
            } else {
                ""@
            }),
            RecapView::DayVoteRound { day, round, votes } => "  🗳️ 第 "@ + decimal_text(
                round as nat,
            ) + " 轮票型："@ + joined(votes.map_values(self.vote_entry()), "、"@),
            RecapView::DayLynch { day, target } => match target {
                Some(t) => "  🪦 **"@ + self.name_at(t) + "** 被放逐"@,
                None => "  🤝 流局，无人放逐"@,
            },
            RecapView::HunterShot { day, shooter, target } => match target {
                Some(t) => "  🏹 **"@ + self.name_at(shooter) + "** 开枪带走 **"@ + self.name_at(t)
                    + "**"@,
                None => "  🏹 **"@ + self.name_at(shooter) + "** 选择不开枪"@,
            },
            RecapView::BadgePass { day, from, to } => match to {
                Some(t) => "  🎖️ 警徽从 **"@ + self.name_at(from) + "** 移交给 **"@ + self.name_at(t)
                    + "**"@,
                None => "  ✂️ **"@ + self.name_at(from) + "** 撕毁警徽"@,
            },
        }
    }

    /// The blocks of the summary: events of one phase that follow each other share one.
    pub open spec fn recap_blocks(self, log: Seq<RecapView>) -> Seq<Seq<char>>
        decreases log.len(),
    {
        if log.len() == 0 {
            Seq::empty()
        } else {
            let e = log.last();
            let before = log.drop_last();
            let blocks = self.recap_blocks(before);
            let line = self.recap_line(e) + "\n"@;
            if before.len() > 0 && section_of(before.last()) == section_of(e) {
                blocks.drop_last().push(blocks.last() + line)
            } else {
                blocks.push(section_of(e).title_text() + "\n"@ + line)
            }
        }
    }
}

/// There is a block where there is an event.
proof fn lemma_blocks_nonempty(g: GameView, log: Seq<RecapView>)
    ensures
        log.len() > 0 ==> g.recap_blocks(log).len() > 0,
    decreases log.len(),
{
    if log.len() > 0 {
        lemma_blocks_nonempty(g, log.drop_last());
    }
}

/// The name of a seat, or a question mark.
pub fn name_or_mark(game: &WolfGame, i: usize) -> (r: &str)
    ensures
        r@ == game@.name_at(i),
{
    if i < game.players.len() {
        game.players[i].name.as_str()
    } else {
        "?"
    }
}

fn names_of(game: &WolfGame, seats: &Vec<usize>) -> (r: Vec<String>)
    ensures
        r.deep_view() == seats@.map_values(game@.seat_name()),
{
    let mut r: Vec<String> = Vec::new();
    let mut i: usize = 0;
    assert(r.deep_view() =~= seats@.take(0).map_values(game@.seat_name()));
    while i < seats.len()
        invariant
            i <= seats.len(),
            r.deep_view() == seats@.take(i as int).map_values(game@.seat_name()),
        decreases seats.len() - i,
    {
        let ghost before = r.deep_view();
        proof {
            lemma_map_step(seats@, game@.seat_name(), i as int);
        }
        let n = name_or_mark(game, seats[i]).to_owned();
        r.push(n);
        assert(r.deep_view() =~= before.push(n@));
        i = i + 1;
    }
    proof {
        lemma_take_ends(seats@);
    }
    r
}

fn vote_entries(game: &WolfGame, votes: &Vec<(usize, Option<usize>)>) -> (r: Vec<String>)
    ensures
        r.deep_view() == votes@.map_values(game@.vote_entry()),
{
    let mut r: Vec<String> = Vec::new();
    let mut i: usize = 0;
    assert(r.deep_view() =~= votes@.take(0).map_values(game@.vote_entry()));
    while i < votes.len()
        invariant
            i <= votes.len(),
            r.deep_view() == votes@.take(i as int).map_values(game@.vote_entry()),
        decreases votes.len() - i,
    {
        let ghost before = r.deep_view();
        proof {
            lemma_map_step(votes@, game@.vote_entry(), i as int);
        }
        let target = match votes[i].1 {
            Some(t) => name_or_mark(game, t),
            None => "弃权",
        };
        let entry = cat3(name_or_mark(game, votes[i].0), " → ", target);
        r.push(entry);
        assert(r.deep_view() =~= before.push(entry@));
        i = i + 1;
    }
    proof {
        lemma_take_ends(votes@);
    }
    r
}

fn witch_did(game: &WolfGame, save: bool, poison: Option<usize>) -> (r: String)
    ensures
        r@ == game@.witch_words(save, poison),
{
    match poison {
        Some(t) => if save {
            cat3("救人 + 毒杀 **", name_or_mark(game, t), "**")
        } else {
            cat3("毒杀 **", name_or_mark(game, t), "**")
        },
        None => if save {
            "救人".to_owned()
        } else {
            "跳过".to_owned()
        },
    }
}

/// The line of an event in the summary.
fn event_line(game: &WolfGame, e: &RecapEvent) -> (r: String)
    ensures
        r@ == game@.recap_line(e.deep_view()),
{
    match e {
        RecapEvent::GuardProtect { day: _, target } => cat3(
            "  🛡️ 守卫守了 **",
            name_or_mark(game, *target),
            "**",
        ),
        RecapEvent::WolfFinalTarget { day: _, target } => match target {
            Some(t) => cat3("  🐺 狼人合议 → **", name_or_mark(game, *t), "**"),
            None => "  🐺 狼人空刀".to_owned(),
        },
        RecapEvent::SeerCheck { day: _, target, is_wolf } => cat4(
            "  🔮 预言家查验 **",
            name_or_mark(game, *target),
            "** → ",
            check_badge(*is_wolf),
        ),
        RecapEvent::Witch { day: _, save, poison } => cat2(
            "  🧪 女巫 ",
            witch_did(game, *save, *poison).as_str(),
        ),
        RecapEvent::Death { day: _, night: _, player, cause } => cat4(
            "  ☠️ **",
            name_or_mark(game, *player),
            "** ",
            cause.label(),
        ),
        RecapEvent::LastWords { day: _, night: _, player, text } => cat4(
            "  💬 **",
            name_or_mark(game, *player),
            "** 遗言：",
            text.as_str(),
        ),
        RecapEvent::SheriffCandidates { candidates } => if candidates.len() == 0 {
            "  无人上警".to_owned()
        } else {
            cat2("  候选人：", join(&names_of(game, candidates), " / ").as_str())
        },
        RecapEvent::SheriffSpeech { player, text } => cat4(
            "  🎤 **",
            name_or_mark(game, *player),
            "** (上警发言)：",
            text.as_str(),
        ),
        RecapEvent::SheriffVoteRound { round, votes } => cat4(
            "  🗳️ 警长第 ",
            decimal(*round as u64).as_str(),
            " 轮票型：",
            join(&vote_entries(game, votes), "、").as_str(),
        ),
        RecapEvent::SheriffElected { player } => match player {
            Some(p) => cat3("  🎖️ **", name_or_mark(game, *p), "** 当选警长"),
            None => "  ⚠️ 流局，本局无警长".to_owned(),
        },
        RecapEvent::SheriffDirection { clockwise } => cat3(
            "  ➡️ 警长选择 **",
            direction_label(*clockwise),
            "** 起手，警长本人末位归票",
        ),
        RecapEvent::DaySpeech { day: _, player, text } => cat4(
            "  🎤 **",
            name_or_mark(game, *player),
            "**：",
            text.as_str(),
        ),
        RecapEvent::DayVoteCast { day: _, voter, target, weight } => {
            let arrow = match target {
                Some(t) => cat3("→ **", name_or_mark(game, *t), "**"),
                None => "→ 弃权".to_owned(),
            };
            let mark = if *weight == 3 {
                " (警徽 ×1.5)"
            } else {
                ""
            };
            cat5("  ", name_or_mark(game, *voter), " ", arrow.as_str(), mark)
        },
        RecapEvent::DayVoteRound { day: _, round, votes } => cat4(
            "  🗳️ 第 ",
            decimal(*round as u64).as_str(),
            " 轮票型：",
            join(&vote_entries(game, votes), "、").as_str(),
        ),
        RecapEvent::DayLynch { day: _, target } => match target {
            Some(t) => cat3("  🪦 **", name_or_mark(game, *t), "** 被放逐"),
            None => "  🤝 流局，无人放逐".to_owned(),
        },
        RecapEvent::HunterShot { day: _, shooter, target } => match target {
            Some(t) => cat5(
                "  🏹 **",
                name_or_mark(game, *shooter),
                "** 开枪带走 **",
                name_or_mark(game, *t),
                "**",
            ),
            None => cat3("  🏹 **", name_or_mark(game, *shooter), "** 选择不开枪"),
        },
        RecapEvent::BadgePass { day: _, from, to } => match to {
            Some(t) => cat5(
                "  🎖️ 警徽从 **",
                name_or_mark(game, *from),
                "** 移交给 **",
                name_or_mark(game, *t),
                "**",
            ),
            None => cat3("  ✂️ **", name_or_mark(game, *from), "** 撕毁警徽"),
        },
    }
}

/// The blocks of the summary.
pub fn render_recap(game: &WolfGame) -> (r: Vec<String>)
    ensures
        r.deep_view() == game@.recap_blocks(game@.recap_log),
{
    let ghost log = game@.recap_log;
    let mut out: Vec<String> = Vec::new();
    let mut last: Section = Section::Skill;
    let mut i: usize = 0;
    proof {
        lemma_take_ends(log);
        assert(out.deep_view() =~= Seq::empty());
    }
    while i < game.recap_log.len()
        invariant
            i <= game.recap_log.len(),
            log == game@.recap_log,
            log.len() == game.recap_log.len(),
            i > 0 ==> last == section_of(log[i - 1]),
            out.deep_view() == game@.recap_blocks(log.take(i as int)),
        decreases game.recap_log.len() - i,
    {
        let ghost blocks = out.deep_view();
        proof {
            lemma_blocks_nonempty(game@, log.take(i as int));
            assert(log.take(i + 1).drop_last() =~= log.take(i as int));
            assert(log.take(i + 1).last() == game.recap_log@[i as int].deep_view());
            if i > 0 {
                assert(log.take(i as int).last() == log[i - 1]);
            }
        }
        let section = classify(&game.recap_log[i]);
        let line = cat2(event_line(game, &game.recap_log[i]).as_str(), "\n");
        if i > 0 && section == last {
            let ghost before = out@;
            let mut buf = match out.pop() {
                Some(b) => b,
                None => String::new(),
            };
            assert(out.deep_view() =~= blocks.drop_last());
            let ghost kept = out.deep_view();
            buf.append(line.as_str());
            out.push(buf);
            assert(out.deep_view() =~= kept.push(blocks.last() + line@));
        } else {
            let title = section.title();
            let buf = cat3(title.as_str(), "\n", line.as_str());
            out.push(buf);
            assert(out.deep_view() =~= blocks.push(buf@));
        }
        last = section;
        i = i + 1;
    }
    proof {
        lemma_take_ends(log);
    }
    out
}

} // verus!
