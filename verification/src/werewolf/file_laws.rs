//! What an AI player is told of what everybody has said and done, and of its own past.

use vstd::prelude::*;
use crate::feishu::reading::{holds_part, lemma_holds, lemma_holds_self, lemma_holds_side,
    lemma_holds_through, lemma_wrapped_holds};
use crate::text::{decimal_text, wrapped};
use crate::werewolf::outlook_laws::{lemma_later_holds, lemma_pick_has};
use crate::werewolf::recap_laws::cause_word;
use crate::werewolf::state::GameView;
use crate::werewolf::types::{DeathCause, RecapView};
use crate::werewolf::view::{own_statement, own_thought, same_thought, statement_text,
    thought_line, Outlook};

verus! {

/// Whether an AI reads this in the file of a player, which begins with the player's name and
/// whether the player is alive as far as the AI knows.
pub open spec fn on_file(o: Outlook, who: usize, line: Seq<char>) -> bool {
    exists|file: Seq<char>| #[trigger]
        holds_part(o.text(), file) && ("\n### "@ + o.players[who as int].1 + "（"@ + (if o.players[
        who as int].2 {
            "存活"@
        } else {
            "出局"@
        }) + "）"@).is_prefix_of(file) && holds_part(file, "  "@ + line + "\n"@)
}

proof fn lemma_any_file(o: Outlook, who: usize, n: nat)
    requires
        who < n <= o.players.len() <= usize::MAX,
        o.file_of(who).len() > 0,
    ensures
        o.any_file(n),
        holds_part(o.file_texts(n), o.file_text(who)),
    decreases n,
{
    let last = (n - 1) as usize;
    if last == who {
        lemma_holds_self(o.file_text(who));
        lemma_holds_side(o.file_texts((n - 1) as nat), o.file_text(who), o.file_text(who));
    } else {
        lemma_any_file(o, who, (n - 1) as nat);
        lemma_holds_side(o.file_texts((n - 1) as nat), o.file_text(last), o.file_text(who));
    }
}

proof fn lemma_file_begins(title: Seq<char>, mine: Seq<char>, lines: Seq<char>)
    ensures
        title.is_prefix_of(title + mine + "\n"@ + lines),
        holds_part(title + mine + "\n"@ + lines, lines),
{
    let file = title + mine + "\n"@ + lines;
    assert(file.subrange(0, title.len() as int) =~= title);
    lemma_holds_self(lines);
    lemma_holds_side(title + mine + "\n"@, lines, lines);
}

proof fn lemma_on_file(o: Outlook, who: usize, j: int)
    requires
        who < o.players.len() <= usize::MAX,
        0 <= j < o.file_of(who).len(),
    ensures
        on_file(o, who, o.file_of(who)[j]),
{
    let line = o.file_of(who)[j];
    let p = o.players[who as int];
    let title = "\n### "@ + p.1 + "（"@ + (if p.2 {
        "存活"@
    } else {
        "出局"@
    }) + "）"@;
    let mine = if who == o.me_idx {
        "  ← 你"@
    } else {
        ""@
    };
    let lines = wrapped(o.file_of(who), "  "@, "\n"@);
    let file = o.file_text(who);
    assert(file == title + mine + "\n"@ + lines);
    lemma_file_begins(title, mine, lines);
    lemma_wrapped_holds(o.file_of(who), "  "@, "\n"@, j);
    lemma_holds_through(file, lines, "  "@ + line + "\n"@);
    lemma_any_file(o, who, o.players.len());
    let head = "\n## 📒 玩家档案（每人公开发言 + 投票轨迹，是判读真假的核心信号）\n"@;
    lemma_holds_side(head, o.file_texts(o.players.len()), file);
    lemma_later_holds(o, file);
}

proof fn lemma_act(o: Outlook, log: Seq<RecapView>, who: usize, k: int, i: int) -> (j: int)
    requires
        0 <= k < log.len(),
        0 <= i < o.file_lines(log[k], who).len(),
    ensures
        0 <= j < o.acts_on_file(log, who).len(),
        o.acts_on_file(log, who)[j] == o.file_lines(log[k], who)[i],
    decreases log.len(),
{
    let rest = log.drop_last();
    if k == log.len() - 1 {
        o.acts_on_file(rest, who).len() + i
    } else {
        assert(rest[k] == log[k]);
        lemma_act(o, rest, who, k, i)
    }
}

proof fn lemma_act_on_file(o: Outlook, who: usize, k: int, i: int)
    requires
        who < o.players.len() <= usize::MAX,
        0 <= k < o.recap_log.len(),
        0 <= i < o.file_lines(o.recap_log[k], who).len(),
    ensures
        on_file(o, who, o.file_lines(o.recap_log[k], who)[i]),
{
    let j = lemma_act(o, o.recap_log, who, k, i);
    let n = o.deaths_on_file(o.recap_log, who).len() as int;
    assert(o.file_of(who)[n + j] == o.acts_on_file(o.recap_log, who)[j]);
    lemma_on_file(o, who, n + j);
}

/// What a player has said in public stands in the player's file.
pub proof fn law_speeches_are_on_file(o: Outlook, k: int)
    requires
        o.players.len() <= usize::MAX,
        0 <= k < o.recap_log.len(),
    ensures
        o.recap_log[k] matches RecapView::DaySpeech { day, player, text } ==> player
            < o.players.len() ==> on_file(
            o,
            player,
            "【D"@ + decimal_text(day as nat) + " 发言】"@ + text,
        ),
        o.recap_log[k] matches RecapView::SheriffSpeech { player, text } ==> player
            < o.players.len() ==> on_file(o, player, "【上警发言】"@ + text),
        o.recap_log[k] matches RecapView::LastWords { day, night, player, text } ==> player
            < o.players.len() ==> on_file(
            o,
            player,
            "【D"@ + decimal_text(day as nat) + (if night {
                " 夜遗言"@
            } else {
                " 放逐遗言"@
            }) + "】"@ + text,
        ),
{
    match o.recap_log[k] {
        RecapView::DaySpeech { day, player, text } => {
            if player < o.players.len() {
                lemma_act_on_file(o, player, k, 0);
            }
        },
        RecapView::SheriffSpeech { player, text } => {
            if player < o.players.len() {
                lemma_act_on_file(o, player, k, 0);
            }
        },
        RecapView::LastWords { day, night, player, text } => {
            if player < o.players.len() {
                lemma_act_on_file(o, player, k, 0);
            }
        },
        _ => {},
    }
}

/// What a player did when dying stands in the player's file: whom the shot took, and who got the
/// badge.
pub proof fn law_skills_are_on_file(o: Outlook, k: int)
    requires
        o.players.len() <= usize::MAX,
        0 <= k < o.recap_log.len(),
    ensures
        o.recap_log[k] matches RecapView::HunterShot { day, shooter, target: Some(t) } ==> shooter
            < o.players.len() && t < o.players.len() ==> on_file(
            o,
            shooter,
            "【D"@ + decimal_text(day as nat) + " 临死开枪】"@ + ("带走 "@ + o.players[t as int].1),
        ),
        o.recap_log[k] matches RecapView::HunterShot { day, shooter, target: None } ==> shooter
            < o.players.len() ==> on_file(
            o,
            shooter,
            "【D"@ + decimal_text(day as nat) + " 临死开枪】"@ + "选择不开枪"@,
        ),
        o.recap_log[k] matches RecapView::BadgePass { day, from, to: Some(t) } ==> from
            < o.players.len() && t < o.players.len() ==> on_file(
            o,
            from,
            "【D"@ + decimal_text(day as nat) + " 警徽】"@ + ("传给 "@ + o.players[t as int].1),
        ),
        o.recap_log[k] matches RecapView::BadgePass { day, from, to: None } ==> from
            < o.players.len() ==> on_file(
            o,
            from,
            "【D"@ + decimal_text(day as nat) + " 警徽】"@ + "撕毁"@,
        ),
{
    match o.recap_log[k] {
        RecapView::HunterShot { day, shooter, target } => {
            if shooter < o.players.len() {
                lemma_act_on_file(o, shooter, k, 0);
            }
        },
        RecapView::BadgePass { day, from, to } => {
            if from < o.players.len() {
                lemma_act_on_file(o, from, k, 0);
            }
        },
        _ => {},
    }
}

proof fn lemma_vote_line(
    o: Outlook,
    votes: Seq<(usize, Option<usize>)>,
    head: Seq<char>,
    m: int,
) -> (i: int)
    requires
        0 <= m < votes.len(),
    ensures
        0 <= i < o.vote_lines(votes, head, votes[m].0).len(),
        o.vote_lines(votes, head, votes[m].0)[i] == head + o.vote_text(votes[m].1),
    decreases votes.len(),
{
    let rest = votes.drop_last();
    if m == votes.len() - 1 {
        o.vote_lines(rest, head, votes[m].0).len() as int
    } else {
        assert(rest[m] == votes[m]);
        lemma_vote_line(o, rest, head, m)
    }
}

/// For whom a player has voted stands in the player's file.
pub proof fn law_votes_are_on_file(o: Outlook, k: int, m: int)
    requires
        o.players.len() <= usize::MAX,
        0 <= k < o.recap_log.len(),
    ensures
        o.recap_log[k] matches RecapView::DayVoteRound { day, round, votes } ==> 0 <= m
            < votes.len() && votes[m].0 < o.players.len() && (votes[m].1 is Some ==> votes[m].1->0
            < o.players.len()) ==> on_file(
            o,
            votes[m].0,
            "【D"@ + decimal_text(day as nat) + " 第"@ + decimal_text(round as nat) + "轮投票 →】"@ + (
            match votes[m].1 {
                Some(t) => o.players[t as int].1,
                None => "弃权"@,
            }),
        ),
        o.recap_log[k] matches RecapView::SheriffVoteRound { round, votes } ==> 0 <= m
            < votes.len() && votes[m].0 < o.players.len() && (votes[m].1 is Some ==> votes[m].1->0
            < o.players.len()) ==> on_file(
            o,
            votes[m].0,
            "【警长第"@ + decimal_text(round as nat) + "轮投票 →】"@ + (match votes[m].1 {
                Some(t) => o.players[t as int].1,
                None => "弃权"@,
            }),
        ),
{
    match o.recap_log[k] {
        RecapView::DayVoteRound { day, round, votes } => {
            if 0 <= m < votes.len() && votes[m].0 < o.players.len() {
                let head = "【D"@ + decimal_text(day as nat) + " 第"@ + decimal_text(round as nat)
                    + "轮投票 →】"@;
                let i = lemma_vote_line(o, votes, head, m);
                lemma_act_on_file(o, votes[m].0, k, i);
            }
        },
        RecapView::SheriffVoteRound { round, votes } => {
            if 0 <= m < votes.len() && votes[m].0 < o.players.len() {
                let head = "【警长第"@ + decimal_text(round as nat) + "轮投票 →】"@;
                let i = lemma_vote_line(o, votes, head, m);
                lemma_act_on_file(o, votes[m].0, k, i);
            }
        },
        _ => {},
    }
}

proof fn lemma_death(o: Outlook, log: Seq<RecapView>, who: usize, k: int) -> (j: int)
    requires
        0 <= k < log.len(),
        o.shown_death(log[k], who),
    ensures
        0 <= j < o.deaths_on_file(log, who).len(),
        o.deaths_on_file(log, who)[j] == o.death_line(log[k]),
    decreases log.len(),
{
    let rest = log.drop_last();
    if k == log.len() - 1 {
        0
    } else {
        assert(rest[k] == log[k]);
        let j = lemma_death(o, rest, who, k);
        if o.shown_death(log.last(), who) {
            j + 1
        } else {
            j
        }
    }
}

/// A death that is announced stands in the file of the dead: when, and of what, but for who died
/// in the night only that.
pub proof fn law_deaths_are_on_file(o: Outlook, k: int)
    requires
        o.players.len() <= usize::MAX,
        0 <= k < o.recap_log.len(),
    ensures
        o.recap_log[k] matches RecapView::Death { day, night, player, cause } ==> player
            < o.players.len() && !(night && o.hidden_night_deaths.contains(player)) ==> on_file(
            o,
            player,
            "☠ 【D"@ + decimal_text(day as nat) + (if night {
                " 夜"@
            } else {
                " 白天"@
            }) + "】"@ + (if night && (cause == DeathCause::WolfKill || cause
                == DeathCause::Poison) {
                "夜里死亡"@
            } else {
                cause_word(cause)
            }),
        ),
{
    match o.recap_log[k] {
        RecapView::Death { day, night, player, cause } => {
            if player < o.players.len() && !(night && o.hidden_night_deaths.contains(player)) {
                let j = lemma_death(o, o.recap_log, player, k);
                assert(o.file_of(player)[j] == o.deaths_on_file(o.recap_log, player)[j]);
                lemma_on_file(o, player, j);
            }
        },
        _ => {},
    }
}

/// What an AI has said in public it is reminded of.
pub proof fn law_own_words_are_remembered(g: GameView, me: usize, k: int)
    requires
        0 <= k < g.recap_log.len(),
    ensures
        g.recap_log[k] matches RecapView::DaySpeech { day, player, text } ==> player == me
            ==> holds_part(
            g.outlook(me).text(),
            "[第 "@ + decimal_text(day as nat) + " 天发言] "@ + text,
        ),
        g.recap_log[k] matches RecapView::SheriffSpeech { player, text } ==> player == me
            ==> holds_part(g.outlook(me).text(), "[上警发言] "@ + text),
        g.recap_log[k] matches RecapView::LastWords { day, night, player, text } ==> player == me
            ==> holds_part(g.outlook(me).text(), "[遗言] "@ + text),
{
    if (own_statement(me))(g.recap_log[k]) {
        lemma_statement(g, me, k);
    }
}

proof fn lemma_statement(g: GameView, me: usize, k: int)
    requires
        0 <= k < g.recap_log.len(),
        (own_statement(me))(g.recap_log[k]),
    ensures
        holds_part(g.outlook(me).text(), (statement_text())(g.recap_log[k])),
{
    let o = g.outlook(me);
    let j = lemma_pick_has(g.recap_log, own_statement(me), statement_text(), k);
    let line = o.my_statements[j];
    let list = wrapped(o.my_statements, "  "@, "\n"@);
    lemma_wrapped_holds(o.my_statements, "  "@, "\n"@, j);
    lemma_holds("  "@, line, "\n"@);
    lemma_holds_through(list, "  "@ + line + "\n"@, line);
    lemma_holds_side("\n## ⚡ 你之前的公开发言（保持一致！前后矛盾会暴露你）\n"@, list, line);
    lemma_later_holds(o, line);
}

/// What an AI has thought it is reminded of.
pub proof fn law_own_thoughts_are_remembered(g: GameView, me: usize, k: int)
    requires
        0 <= k < g.thinking_log.len(),
        g.thinking_log[k].player == me,
    ensures
        holds_part(g.outlook(me).text(), "\n"@ + g.thinking_log[k].thinking + "\n"@),
{
    let o = g.outlook(me);
    let j = lemma_pick_has(g.thinking_log, own_thought(me), same_thought(), k);
    let t = g.thinking_log[k];
    assert(o.my_thinking_history[j] == t);
    let lines = o.my_thinking_history.map_values(thought_line());
    let list = wrapped(lines, "\n### D"@, "\n"@);
    lemma_wrapped_holds(lines, "\n### D"@, "\n"@, j);
    let about = decimal_text(t.day as nat) + " · "@ + t.kind.label_text();
    assert(lines[j] == about + "\n"@ + t.thinking);
    let want = "\n"@ + t.thinking + "\n"@;
    let line = "\n### D"@ + lines[j] + "\n"@;
    lemma_thought("\n### D"@, about, t.thinking);
    lemma_holds_through(list, line, want);
    lemma_holds_side("\n## 🧠 你的内心独白历史（你过去几轮的 thinking，外人看不到）\n"@, list, want);
    lemma_later_holds(o, want);
}

proof fn lemma_thought(a: Seq<char>, b: Seq<char>, c: Seq<char>)
    ensures
        holds_part(a + (b + "\n"@ + c) + "\n"@, "\n"@ + c + "\n"@),
{
    let want = "\n"@ + c + "\n"@;
    assert(a + (b + "\n"@ + c) + "\n"@ =~= (a + b) + want);
    lemma_holds_self(want);
    lemma_holds_side(a + b, want, want);
}

} // verus!
