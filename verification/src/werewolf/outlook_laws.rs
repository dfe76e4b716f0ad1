//! What an AI player is told in every question: the table as it stands, and of the secrets its
//! own.

use vstd::prelude::*;
use crate::feishu::reading::{holds_part, lemma_holds_side, lemma_joined_holds, lemma_wrapped_holds};
use crate::seqs::pick;
use crate::text::{decimal_text, joined, wrapped};
use crate::werewolf::card_laws::role_word;
use crate::werewolf::night_laws::wolf_role;
use crate::werewolf::state::GameView;
use crate::werewolf::types::{Role, Stage};
use crate::werewolf::view::{Outlook, seen_alive, seen_dead, seen_name};

verus! {

/// What is picked is what a filter leaves, each entry turned into what is wanted of it.
pub proof fn lemma_pick_filters<A, B>(
    s: Seq<A>,
    keep: spec_fn(A) -> bool,
    f: spec_fn(A) -> B,
)
    ensures
        pick(s, keep, f) == s.filter(keep).map_values(f),
    decreases s.len(),
{
    reveal(Seq::filter);
    if s.len() > 0 {
        lemma_pick_filters(s.drop_last(), keep, f);
        if keep(s.last()) {
            assert(s.filter(keep) =~= s.drop_last().filter(keep).push(s.last()));
            assert(s.drop_last().filter(keep).push(s.last()).map_values(f)
                =~= s.drop_last().filter(keep).map_values(f).push(f(s.last())));
        }
    } else {
        assert(s.filter(keep).map_values(f) =~= Seq::<B>::empty());
    }
}

/// What is picked holds what comes of each entry that is wanted.
pub proof fn lemma_pick_has<A, B>(
    s: Seq<A>,
    keep: spec_fn(A) -> bool,
    f: spec_fn(A) -> B,
    i: int,
) -> (k: int)
    requires
        0 <= i < s.len(),
        keep(s[i]),
    ensures
        0 <= k < pick(s, keep, f).len(),
        pick(s, keep, f)[k] == f(s[i]),
    decreases s.len(),
{
    if i == s.len() - 1 {
        pick(s, keep, f).len() - 1
    } else {
        lemma_pick_has(s.drop_last(), keep, f, i)
    }
}

/// The names of those whom the view marks alive, by seat.
pub open spec fn marked_alive(o: Outlook) -> Seq<Seq<char>> {
    o.players.filter(|p: (usize, Seq<char>, bool)| p.2).map_values(
        |p: (usize, Seq<char>, bool)| p.1,
    )
}

/// The names of those whom the view marks dead, by seat.
pub open spec fn marked_dead(o: Outlook) -> Seq<Seq<char>> {
    o.players.filter(|p: (usize, Seq<char>, bool)| !p.2).map_values(
        |p: (usize, Seq<char>, bool)| p.1,
    )
}

/// All after who is alive and who is out.
spec fn later_text(o: Outlook) -> Seq<char> {
    o.mates_text() + o.checks_text() + o.statements_text() + o.thoughts_text() + o.files_text()
        + o.history_text()
}

proof fn lemma_text_parts(o: Outlook)
    ensures
        o.text() == o.head_text() + o.roster_text() + later_text(o),
{
    assert(o.text() =~= o.head_text() + o.roster_text() + later_text(o));
}

/// What follows a text that is empty or begins with one of two characters begins with one of
/// them if both do.
spec fn opens_section(s: Seq<char>) -> bool {
    s.len() == 0 || s[0] == '\n' || s[0] == '【'
}

proof fn lemma_sections(a: Seq<char>, b: Seq<char>)
    requires
        opens_section(a),
        opens_section(b),
    ensures
        opens_section(a + b),
{
    if a.len() == 0 {
        assert(a + b =~= b);
    }
}

proof fn lemma_later_opens(o: Outlook)
    ensures
        opens_section(later_text(o)),
{
    reveal_strlit("【狼队友】");
    reveal_strlit("\n## 🔮 你的查验记录\n");
    reveal_strlit("\n## ⚡ 你之前的公开发言（保持一致！前后矛盾会暴露你）\n");
    reveal_strlit("\n## 🧠 你的内心独白历史（你过去几轮的 thinking，外人看不到）\n");
    reveal_strlit("\n## 📒 玩家档案（每人公开发言 + 投票轨迹，是判读真假的核心信号）\n");
    reveal_strlit("\n## 📜 事件历史（按时间）\n");
    assert(opens_section(o.mates_text()));
    assert(opens_section(o.checks_text()));
    assert(opens_section(o.statements_text()));
    assert(opens_section(o.thoughts_text()));
    assert(opens_section(o.files_text()));
    assert(opens_section(o.history_text()));
    lemma_sections(o.mates_text(), o.checks_text());
    lemma_sections(o.mates_text() + o.checks_text(), o.statements_text());
    lemma_sections(o.mates_text() + o.checks_text() + o.statements_text(), o.thoughts_text());
    lemma_sections(
        o.mates_text() + o.checks_text() + o.statements_text() + o.thoughts_text(),
        o.files_text(),
    );
    lemma_sections(
        o.mates_text() + o.checks_text() + o.statements_text() + o.thoughts_text()
            + o.files_text(),
        o.history_text(),
    );
}

/// What an AI is told begins with the day, the stage and who it is, and goes on with exactly
/// those whom its view marks alive, by seat. Exactly those marked dead follow as out; if there
/// are none, no such line comes.
pub proof fn law_roster_is_as_marked(o: Outlook)
    ensures
        ({
            let head = "## 局面\n第 "@ + decimal_text(o.day as nat) + " 天 · 阶段："@ + o.stage_label
                + "\n你是 **"@ + o.me_name + "**，身份 **"@ + role_word(o.me_role) + "**\n"@;
            let alive = "存活："@ + joined(marked_alive(o), " · "@) + "\n"@;
            let dead = "出局："@ + joined(marked_dead(o), " · "@) + "\n"@;
            &&& marked_dead(o).len() > 0 ==> (head + alive + dead).is_prefix_of(o.text())
            &&& marked_dead(o).len() == 0 ==> (head + alive).is_prefix_of(o.text()) && !(head
                + alive + "出局："@).is_prefix_of(o.text())
        }),
{
    let head = o.head_text();
    let alive = "存活："@ + joined(marked_alive(o), " · "@) + "\n"@;
    let dead = "出局："@ + joined(marked_dead(o), " · "@) + "\n"@;
    lemma_pick_filters(o.players, seen_alive(), seen_name());
    lemma_pick_filters(o.players, seen_dead(), seen_name());
    assert(seen_alive() =~= (|p: (usize, Seq<char>, bool)| p.2));
    assert(seen_dead() =~= (|p: (usize, Seq<char>, bool)| !p.2));
    assert(seen_name() =~= (|p: (usize, Seq<char>, bool)| p.1));
    lemma_text_parts(o);
    let rest = later_text(o);
    if marked_dead(o).len() > 0 {
        assert(o.roster_text() == alive + dead);
        assert(o.text() =~= (head + alive + dead) + rest);
        assert(o.text().subrange(0, (head + alive + dead).len() as int) =~= head + alive + dead);
    } else {
        assert(o.roster_text() =~= alive);
        assert(o.text() =~= (head + alive) + rest);
        assert(o.text().subrange(0, (head + alive).len() as int) =~= head + alive);
        let wrong = head + alive + "出局："@;
        reveal_strlit("出局：");
        lemma_later_opens(o);
        if wrong.is_prefix_of(o.text()) {
            let n = (head + alive).len() as int;
            assert(o.text().subrange(0, wrong.len() as int)[n] == wrong[n]);
            assert(wrong[n] == '出');
            assert(o.text()[n] == rest[0]);
        }
    }
}

/// An AI sees every seat by name, as alive if the player lives, or is dead of the first night
/// while the election keeps that secret; and it sees its own name, role and style.
pub proof fn law_view_shows_the_seats(g: GameView, me: usize, i: int)
    requires
        0 <= i < g.players.len() <= usize::MAX,
        me < g.players.len(),
        g.players[me as int].role is Some,
    ensures
        ({
            let o = g.outlook(me);
            let secret = g.day == 1 && (g.stage == Stage::SheriffNominate || g.stage
                == Stage::SheriffSpeech || g.stage == Stage::SheriffWithdraw || g.stage
                == Stage::SheriffVote) && g.last_night_deaths.contains(i as usize);
            &&& o.players.len() == g.players.len()
            &&& o.players[i].0 == i
            &&& o.players[i].1 == g.players[i].name
            &&& o.players[i].2 == (g.players[i].alive || secret)
            &&& o.me_idx == me
            &&& o.me_name == g.players[me as int].name
            &&& Some(o.me_role) == g.players[me as int].role
            &&& o.persona == g.players[me as int].persona
            &&& o.day == g.day
        }),
{
}

pub proof fn lemma_later_holds(o: Outlook, part: Seq<char>)
    requires
        holds_part(o.mates_text(), part) || holds_part(o.checks_text(), part) || holds_part(
            o.statements_text(),
            part,
        ) || holds_part(o.thoughts_text(), part) || holds_part(o.files_text(), part) || holds_part(
            o.history_text(),
            part,
        ),
    ensures
        holds_part(o.text(), part),
{
    let a = o.head_text() + o.roster_text();
    let b = a + o.mates_text();
    let c = b + o.checks_text();
    let d = c + o.statements_text();
    let e = d + o.thoughts_text();
    let f = e + o.files_text();
    lemma_holds_side(a, o.mates_text(), part);
    lemma_holds_side(b, o.checks_text(), part);
    lemma_holds_side(c, o.statements_text(), part);
    lemma_holds_side(d, o.thoughts_text(), part);
    lemma_holds_side(e, o.files_text(), part);
    lemma_holds_side(f, o.history_text(), part);
}

proof fn lemma_mate_listed(g: GameView, me: usize, i: usize, n: nat) -> (k: int)
    requires
        i < n <= g.players.len() <= usize::MAX,
        wolf_role(g.players[i as int].role),
        i != me,
    ensures
        0 <= k < g.mates_of(me, n).len(),
        g.mates_of(me, n)[k] == (i, g.players[i as int].name, role_word(g.players[i as int].role->0)),
    decreases n,
{
    if i == n - 1 {
        g.mates_of(me, n).len() - 1
    } else {
        lemma_mate_listed(g, me, i, (n - 1) as nat)
    }
}

/// A wolf is told each of its fellows with the role.
pub proof fn law_wolf_knows_its_fellows(g: GameView, me: usize, i: usize)
    requires
        g.players.len() <= usize::MAX,
        me < g.players.len(),
        i < g.players.len(),
        i != me,
        wolf_role(g.players[me as int].role),
        wolf_role(g.players[i as int].role),
    ensures
        holds_part(
            g.outlook(me).text(),
            g.players[i as int].name + " ("@ + role_word(g.players[i as int].role->0) + ")"@,
        ),
{
    let o = g.outlook(me);
    let k = lemma_mate_listed(g, me, i, g.players.len());
    let lines = o.teammates.map_values(crate::werewolf::view::mate_line());
    let line = g.players[i as int].name + " ("@ + role_word(g.players[i as int].role->0) + ")"@;
    assert(lines[k] == line);
    lemma_joined_holds(lines, "、"@, k);
    let all = joined(lines, "、"@);
    lemma_holds_side("【狼队友】"@, all, line);
    lemma_holds_side("【狼队友】"@ + all, "\n"@, line);
    lemma_later_holds(o, line);
}

/// The seer is told each check with whom it was of and whether that player is a wolf.
pub proof fn law_seer_knows_the_checks(g: GameView, me: usize, k: int)
    requires
        g.players[me as int].role == Some(Role::Seer),
        0 <= k < g.seer_history.len(),
    ensures
        ({
            let c = g.seer_history[k];
            holds_part(
                g.outlook(me).text(),
                "  第 "@ + (decimal_text(c.day as nat) + " 夜 · "@
                    + g.players[c.target_idx as int].name + " → **"@ + (if c.is_wolf {
                    "狼人"@
                } else {
                    "好人"@
                })) + "**\n"@,
            )
        }),
{
    let o = g.outlook(me);
    let c = g.seer_history[k];
    let lines = o.seer_log.map_values(crate::werewolf::view::check_line());
    assert(o.seer_log[k] == (c.day, g.players[c.target_idx as int].name, c.is_wolf));
    lemma_wrapped_holds(lines, "  第 "@, "**\n"@, k);
    let line = "  第 "@ + lines[k] + "**\n"@;
    lemma_holds_side(
        "\n## 🔮 你的查验记录\n"@,
        wrapped(lines, "  第 "@, "**\n"@),
        line,
    );
    lemma_later_holds(o, line);
}

/// Every line of the public history reaches every AI, but for deaths that are still secret.
pub proof fn law_history_reaches_everybody(g: GameView, me: usize, k: int)
    requires
        0 <= k < g.event_log.len(),
        !(g.day == 1 && (g.stage == Stage::SheriffNominate || g.stage == Stage::SheriffSpeech
            || g.stage == Stage::SheriffWithdraw || g.stage == Stage::SheriffVote)) || forall|i: int|
            0 <= i < g.last_night_deaths.len() ==> g.event_log[k] != "第 "@ + decimal_text(
                g.day as nat,
            ) + " 夜："@ + g.players[#[trigger] g.last_night_deaths[i] as int].name + " 死亡"@,
    ensures
        holds_part(g.outlook(me).text(), "  "@ + g.event_log[k] + "\n"@),
{
    let o = g.outlook(me);
    assert((g.announced_line())(g.event_log[k]));
    let m = lemma_pick_has(
        g.event_log,
        g.announced_line(),
        crate::werewolf::view::same_line(),
        k,
    );
    lemma_wrapped_holds(o.event_log, "  "@, "\n"@, m);
    let line = "  "@ + g.event_log[k] + "\n"@;
    lemma_holds_side("\n## 📜 事件历史（按时间）\n"@, wrapped(o.event_log, "  "@, "\n"@), line);
    lemma_later_holds(o, line);
}

} // verus!
