//! How a game is retold when it is over.

use vstd::prelude::*;
use crate::feishu::cards::{card_view, hr_view, markdown_view};
use crate::feishu::reading::{holds_part, lemma_card, lemma_holds, lemma_holds_self,
    lemma_holds_side, lemma_joined_holds, lemma_paragraph, paragraph, parts_of};
use crate::text::{decimal_text, joined};
use crate::werewolf::state::GameView;
use crate::werewolf::types::{DeathCause, RecapView, Winner};
use crate::werewolf::vote_cards::block;

verus! {

/// Under which heading an event is retold: what the night's roles did under the night, who died
/// in it under the dawn, the election under the election, and so on.
pub open spec fn heading(e: RecapView) -> Seq<char> {
    match e {
        RecapView::GuardProtect { day, .. } | RecapView::WolfFinalTarget { day, .. } |
        RecapView::SeerCheck { day, .. } | RecapView::Witch { day, .. } => "🌒 **第 "@ + decimal_text(
            day as nat,
        ) + " 夜**"@,
        RecapView::Death { day, night: true, .. } | RecapView::LastWords { day, night: true, .. }
            => "🌅 **第 "@ + decimal_text(day as nat) + " 天 黎明**"@,
        RecapView::Death { day, night: false, .. } | RecapView::LastWords { day, night: false, .. } |
        RecapView::DayVoteCast { day, .. } | RecapView::DayVoteRound { day, .. } |
        RecapView::DayLynch { day, .. } => "🗳️ **第 "@ + decimal_text(day as nat) + " 天 投票**"@,
        RecapView::DaySpeech { day, .. } => "🎙️ **第 "@ + decimal_text(day as nat)
            + " 天 轮流发言**"@,
        RecapView::HunterShot { .. } | RecapView::BadgePass { .. } => "🏹 **技能 · 警徽流转**"@,
        _ => "🎖️ **上警阶段**"@,
    }
}

proof fn lemma_prefix_kept(p: Seq<char>, s: Seq<char>, more: Seq<char>)
    requires
        p.is_prefix_of(s),
    ensures
        p.is_prefix_of(s + more),
{
    assert((s + more).subrange(0, p.len() as int) =~= s.subrange(0, p.len() as int));
}

/// The blocks of a recap: each event stands in one, under its heading.
proof fn lemma_block_of(g: GameView, log: Seq<RecapView>, k: int) -> (b: int)
    requires
        0 <= k < log.len(),
    ensures
        0 <= b < g.recap_blocks(log).len(),
        k == log.len() - 1 ==> b == g.recap_blocks(log).len() - 1,
        heading(log[k]).is_prefix_of(g.recap_blocks(log)[b]),
        holds_part(g.recap_blocks(log)[b], g.recap_line(log[k]) + "\n"@),
    decreases log.len(),
{
    let e = log.last();
    let before = log.drop_last();
    let blocks = g.recap_blocks(before);
    let all = g.recap_blocks(log);
    let line = g.recap_line(e) + "\n"@;
    let same = before.len() > 0 && crate::werewolf::recap::section_of(before.last())
        == crate::werewolf::recap::section_of(e);
    if k < before.len() {
        let b = lemma_block_of(g, before, k);
        assert(before[k] == log[k]);
        if same && b == blocks.len() - 1 {
            assert(all[b] == blocks[b] + line);
            lemma_prefix_kept(heading(log[k]), blocks[b], line);
            lemma_holds_side(blocks[b], line, g.recap_line(log[k]) + "\n"@);
        } else {
            assert(all[b] == blocks[b]);
        }
        b
    } else {
        let last = all.len() - 1;
        lemma_holds_self(line);
        if same {
            let b = lemma_block_of(g, before, before.len() - 1);
            assert(b == blocks.len() - 1);
            assert(all[last] == blocks[b] + line);
            lemma_headings(before.last(), e);
            lemma_prefix_kept(heading(e), blocks[b], line);
            lemma_holds_side(blocks[b], line, line);
        } else {
            let title = heading(e);
            assert(all[last] == title + "\n"@ + line);
            assert((title + "\n"@ + line).subrange(0, title.len() as int) =~= title);
            lemma_holds_side(title + "\n"@, line, line);
        }
        last
    }
}

/// Events of one section have one heading.
proof fn lemma_headings(a: RecapView, b: RecapView)
    requires
        crate::werewolf::recap::section_of(a) == crate::werewolf::recap::section_of(b),
    ensures
        heading(a) == heading(b),
{
}

/// Everything that happened is retold on the card at the end, under its heading.
pub proof fn law_everything_is_retold(g: GameView, winner: Winner, k: int)
    requires
        0 <= k < g.recap_log.len(),
    ensures
        exists|i: int|
            0 <= i < parts_of(g.summary_card(winner)).len() && heading(
                g.recap_log[k],
            ).is_prefix_of(paragraph(#[trigger] parts_of(g.summary_card(winner))[i])) && holds_part(
                paragraph(parts_of(g.summary_card(winner))[i]),
                g.recap_line(g.recap_log[k]) + "\n"@,
            ),
{
    let c = g.summary_card(winner);
    let head = c->Object_0[2].1;
    let parts = c->Object_0[3].1->Object_0[3].1->List_0;
    assert(c == card_view(head, parts));
    lemma_card(head, parts);
    let b = lemma_block_of(g, g.recap_log, k);
    let blocks = g.recap_blocks(g.recap_log);
    assert(g.recap_part() == seq![hr_view(), markdown_view("**🎬 全局复盘**"@)] + blocks.map_values(
        block(),
    ));
    assert(g.recap_part()[b + 2] == markdown_view(blocks[b]));
    assert(parts[b + 3] == markdown_view(blocks[b]));
    lemma_paragraph(blocks[b]);
    assert(paragraph(parts_of(c)[b + 3]) == blocks[b]);
}

/// A text of up to five parts holds two or three of them that follow each other.
proof fn lemma_pair(a: Seq<char>, b: Seq<char>, c: Seq<char>)
    ensures
        holds_part(a + b, a + b),
        holds_part(a + b, b),
        holds_part(a + b + c, a + b),
        holds_part(a + b + c, b + c),
        holds_part(a + b + c, b),
{
    lemma_holds_self(a + b);
    lemma_holds_self(b);
    lemma_holds_side(a, b, b);
    lemma_holds_side(a + b, c, a + b);
    lemma_holds_self(b + c);
    lemma_holds_side(a, b + c, b + c);
    assert(a + b + c =~= a + (b + c));
    lemma_holds(a, b, c);
}

proof fn lemma_rest(a: Seq<char>, b: Seq<char>, c: Seq<char>, d: Seq<char>)
    ensures
        holds_part(a + b + c + d, b + c + d),
{
    assert(a + b + c + d =~= a + (b + c + d));
    lemma_holds_self(b + c + d);
    lemma_holds_side(a, b + c + d, b + c + d);
}

proof fn lemma_middle(a: Seq<char>, b: Seq<char>, c: Seq<char>, d: Seq<char>, e: Seq<char>)
    ensures
        holds_part(a + b + c + d + e, b + c + d),
{
    lemma_rest(a, b, c, d);
    lemma_holds_side(a + b + c + d, e, b + c + d);
}

/// How the deeds of a night are retold: whom the guard protected, whom the wolves attacked,
/// whom the seer checked with which result, and what the witch did.
pub proof fn law_night_is_retold(g: GameView, day: u32, t: usize)
    requires
        t < g.players.len(),
    ensures
        ({
            let name = g.players[t as int].name;
            &&& holds_part(
                g.recap_line(RecapView::GuardProtect { day, target: t }),
                "  🛡️ 守卫守了 **"@ + name,
            )
            &&& holds_part(
                g.recap_line(RecapView::WolfFinalTarget { day, target: Some(t) }),
                "  🐺 狼人合议 → **"@ + name,
            )
            &&& g.recap_line(RecapView::WolfFinalTarget { day, target: None }) == "  🐺 狼人空刀"@
            &&& holds_part(
                g.recap_line(RecapView::SeerCheck { day, target: t, is_wolf: true }),
                name + "** → "@ + "🐺 狼人"@,
            )
            &&& holds_part(
                g.recap_line(RecapView::SeerCheck { day, target: t, is_wolf: false }),
                name + "** → "@ + "✅ 好人"@,
            )
            &&& holds_part(g.recap_line(RecapView::Witch { day, save: true, poison: None }), "救人"@)
            &&& holds_part(
                g.recap_line(RecapView::Witch { day, save: false, poison: None }),
                "跳过"@,
            )
            &&& holds_part(
                g.recap_line(RecapView::Witch { day, save: false, poison: Some(t) }),
                "毒杀 **"@ + name + "**"@,
            )
        }),
{
    let name = g.players[t as int].name;
    lemma_pair("  🛡️ 守卫守了 **"@, name, "**"@);
    lemma_pair("  🐺 狼人合议 → **"@, name, "**"@);
    lemma_rest("  🔮 预言家查验 **"@, name, "** → "@, "🐺 狼人"@);
    lemma_rest("  🔮 预言家查验 **"@, name, "** → "@, "✅ 好人"@);
    lemma_pair("  🧪 女巫 "@, "救人"@, Seq::empty());
    lemma_pair("  🧪 女巫 "@, "跳过"@, Seq::empty());
    lemma_pair("  🧪 女巫 "@, "毒杀 **"@ + name + "**"@, Seq::empty());
}

/// Of what a player died.
pub open spec fn cause_word(cause: DeathCause) -> Seq<char> {
    match cause {
        DeathCause::WolfKill => "被狼人杀害"@,
        DeathCause::Poison => "被毒杀"@,
        DeathCause::Lynch => "被投票放逐"@,
        DeathCause::HunterShot => "被猎人开枪带走"@,
        DeathCause::SelfExplode => "狼人自爆"@,
    }
}

/// How deaths are retold: who died, of what, and what the dead said last.
pub proof fn law_deaths_are_retold(
    g: GameView,
    day: u32,
    night: bool,
    player: usize,
    cause: DeathCause,
    text: Seq<char>,
)
    requires
        player < g.players.len(),
    ensures
        holds_part(
            g.recap_line(RecapView::Death { day, night, player, cause }),
            g.players[player as int].name + "** "@ + cause_word(cause),
        ),
        holds_part(
            g.recap_line(RecapView::LastWords { day, night, player, text }),
            g.players[player as int].name + "** 遗言："@ + text,
        ),
{
    let name = g.players[player as int].name;
    lemma_rest("  ☠️ **"@, name, "** "@, cause_word(cause));
    lemma_rest("  💬 **"@, name, "** 遗言："@, text);
}

/// How the election is retold: who ran, who said what, who won or that nobody did, and the
/// direction that the sheriff picked.
pub proof fn law_election_is_retold(g: GameView, player: usize, text: Seq<char>)
    requires
        player < g.players.len(),
    ensures
        ({
            let name = g.players[player as int].name;
            &&& holds_part(
                g.recap_line(RecapView::SheriffSpeech { player, text }),
                name + "** (上警发言)："@ + text,
            )
            &&& holds_part(
                g.recap_line(RecapView::SheriffElected { player: Some(player) }),
                name + "** 当选警长"@,
            )
            &&& g.recap_line(RecapView::SheriffElected { player: None }) == "  ⚠️ 流局，本局无警长"@
            &&& holds_part(
                g.recap_line(RecapView::SheriffDirection { clockwise: true }),
                "警上 (顺时针)"@,
            )
            &&& holds_part(
                g.recap_line(RecapView::SheriffDirection { clockwise: false }),
                "警下 (逆时针)"@,
            )
            &&& g.recap_line(RecapView::SheriffCandidates { candidates: Seq::empty() })
                == "  无人上警"@
        }),
{
    let name = g.players[player as int].name;
    lemma_rest("  🎤 **"@, name, "** (上警发言)："@, text);
    lemma_pair("  🎖️ **"@, name, "** 当选警长"@);
    lemma_pair("  ➡️ 警长选择 **"@, "警上 (顺时针)"@, "** 起手，警长本人末位归票"@);
    lemma_pair("  ➡️ 警长选择 **"@, "警下 (逆时针)"@, "** 起手，警长本人末位归票"@);
}

/// Every candidate is named when the candidates are retold.
pub proof fn law_candidates_are_retold(g: GameView, candidates: Seq<usize>, k: int)
    requires
        0 <= k < candidates.len(),
        candidates[k] < g.players.len(),
    ensures
        holds_part(
            g.recap_line(RecapView::SheriffCandidates { candidates }),
            g.players[candidates[k] as int].name,
        ),
{
    let names = candidates.map_values(g.seat_name());
    let list = joined(names, " / "@);
    lemma_joined_holds(names, " / "@, k);
    lemma_holds_side("  候选人："@, list, names[k]);
}

/// How a day is retold: who said what, who voted for whom or abstained, whether with the
/// sheriff's weight, and who was banished or that nobody was.
pub proof fn law_day_is_retold(
    g: GameView,
    day: u32,
    player: usize,
    t: usize,
    text: Seq<char>,
    weight: u32,
)
    requires
        player < g.players.len(),
        t < g.players.len(),
    ensures
        ({
            let name = g.players[player as int].name;
            let other = g.players[t as int].name;
            &&& holds_part(
                g.recap_line(RecapView::DaySpeech { day, player, text }),
                name + "**："@ + text,
            )
            &&& holds_part(
                g.recap_line(
                    RecapView::DayVoteCast { day, voter: player, target: Some(t), weight },
                ),
                name + " "@ + ("→ **"@ + other + "**"@),
            )
            &&& holds_part(
                g.recap_line(RecapView::DayVoteCast { day, voter: player, target: None, weight }),
                name + " "@ + "→ 弃权"@,
            )
            &&& holds_part(
                g.recap_line(
                    RecapView::DayVoteCast { day, voter: player, target: Some(t), weight: 3 },
                ),
                " (警徽 ×1.5)"@,
            )
            &&& holds_part(
                g.recap_line(RecapView::DayLynch { day, target: Some(t) }),
                other + "** 被放逐"@,
            )
            &&& g.recap_line(RecapView::DayLynch { day, target: None }) == "  🤝 流局，无人放逐"@
        }),
{
    let name = g.players[player as int].name;
    let other = g.players[t as int].name;
    let extra = if weight == 3 {
        " (警徽 ×1.5)"@
    } else {
        ""@
    };
    lemma_rest("  🎤 **"@, name, "**："@, text);
    lemma_middle("  "@, name, " "@, "→ **"@ + other + "**"@, extra);
    lemma_middle("  "@, name, " "@, "→ 弃权"@, extra);
    lemma_pair("  🪦 **"@, other, "** 被放逐"@);
    let front = "  "@ + name + " "@ + ("→ **"@ + other + "**"@);
    lemma_holds_self(" (警徽 ×1.5)"@);
    lemma_holds_side(front, " (警徽 ×1.5)"@, " (警徽 ×1.5)"@);
}

/// How a round of votes is retold: of everybody, for whom the vote was.
pub proof fn law_rounds_are_retold(
    g: GameView,
    day: u32,
    round: u8,
    votes: Seq<(usize, Option<usize>)>,
    k: int,
)
    requires
        0 <= k < votes.len(),
        votes[k].0 < g.players.len(),
        votes[k].1 is Some ==> votes[k].1->0 < g.players.len(),
    ensures
        ({
            let entry = g.players[votes[k].0 as int].name + " → "@ + (match votes[k].1 {
                Some(t) => g.players[t as int].name,
                None => "弃权"@,
            });
            &&& holds_part(g.recap_line(RecapView::SheriffVoteRound { round, votes }), entry)
            &&& holds_part(g.recap_line(RecapView::DayVoteRound { day, round, votes }), entry)
        }),
{
    let entries = votes.map_values(g.vote_entry());
    let list = joined(entries, "、"@);
    lemma_joined_holds(entries, "、"@, k);
    lemma_holds_side(
        "  🗳️ 警长第 "@ + decimal_text(round as nat) + " 轮票型："@,
        list,
        entries[k],
    );
    lemma_holds_side("  🗳️ 第 "@ + decimal_text(round as nat) + " 轮票型："@, list, entries[k]);
}

/// How a shot and the way of the badge are retold.
pub proof fn law_skills_are_retold(g: GameView, day: u32, s: usize, t: usize)
    requires
        s < g.players.len(),
        t < g.players.len(),
    ensures
        ({
            let name = g.players[s as int].name;
            let other = g.players[t as int].name;
            &&& holds_part(
                g.recap_line(RecapView::HunterShot { day, shooter: s, target: Some(t) }),
                name + "** 开枪带走 **"@ + other,
            )
            &&& holds_part(
                g.recap_line(RecapView::HunterShot { day, shooter: s, target: None }),
                name + "** 选择不开枪"@,
            )
            &&& holds_part(
                g.recap_line(RecapView::BadgePass { day, from: s, to: Some(t) }),
                name + "** 移交给 **"@ + other,
            )
            &&& holds_part(
                g.recap_line(RecapView::BadgePass { day, from: s, to: None }),
                name + "** 撕毁警徽"@,
            )
        }),
{
    let name = g.players[s as int].name;
    let other = g.players[t as int].name;
    lemma_middle("  🏹 **"@, name, "** 开枪带走 **"@, other, "**"@);
    lemma_pair("  🏹 **"@, name, "** 选择不开枪"@);
    lemma_middle("  🎖️ 警徽从 **"@, name, "** 移交给 **"@, other, "**"@);
    lemma_pair("  ✂️ **"@, name, "** 撕毁警徽"@);
}

} // verus!
