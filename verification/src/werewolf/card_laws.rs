//! What the cards tell, as somebody reads it who looks at them.

use vstd::prelude::*;
use crate::feishu::cards::{card_view, markdown_view, titled_view};
use crate::feishu::reading::{holds_part, lemma_card, lemma_holds, lemma_holds_self,
    lemma_holds_side, lemma_holds_through, lemma_joined_holds, lemma_paragraph, lemma_says,
    lemma_two_heads, lemma_wrapped_holds, paragraph, parts_of, says, title_of};
use crate::json::JsonView;
use crate::seqs::{count_where, lemma_indices_where};
use crate::text::{decimal_text, joined, wrapped};
use crate::werewolf::day_laws::{law_who_has_won, some_god_lives, some_villager_lives,
    some_wolf_lives};
use crate::werewolf::state::GameView;
use crate::werewolf::types::{PlayerView, Role, Stage, Winner};

verus! {

/// By what everybody recognises a player on a card: a human by a mention, an AI by its name.
pub open spec fn known_as(p: PlayerView) -> Seq<char> {
    if p.is_ai {
        "**"@ + p.name + "**"@
    } else {
        "<at id=\""@ + p.open_id + "\"></at>"@
    }
}

/// The word for a role.
pub open spec fn role_word(role: Role) -> Seq<char> {
    match role {
        Role::Werewolf => "狼人"@,
        Role::WolfKing => "狼王"@,
        Role::Villager => "村民"@,
        Role::Seer => "预言家"@,
        Role::Witch => "女巫"@,
        Role::Hunter => "猎人"@,
        Role::Guard => "守卫"@,
    }
}

/// How a player is shown is how the player is recognised.
pub proof fn law_players_are_recognised(p: PlayerView)
    ensures
        holds_part(p.shown(), known_as(p)),
        !p.is_ai ==> p.shown() == known_as(p),
{
    if p.is_ai {
        let e = match p.persona {
            Some(q) => q.emoji_text(),
            None => "🤖"@,
        };
        reveal_strlit(" **");
        reveal_strlit(" ");
        reveal_strlit("**");
        assert(p.shown() =~= (e + " "@) + known_as(p) + Seq::<char>::empty());
        lemma_holds(e + " "@, known_as(p), Seq::empty());
    } else {
        lemma_holds_self(known_as(p));
    }
}

pub proof fn lemma_card_says(
    head: JsonView,
    parts: Seq<JsonView>,
    i: int,
    content: Seq<char>,
    part: Seq<char>,
)
    requires
        0 <= i < parts.len(),
        parts[i] == markdown_view(content),
        holds_part(content, part),
    ensures
        says(card_view(head, parts), part),
{
    lemma_card(head, parts);
    lemma_says(card_view(head, parts), i, content, part);
}

/// How many players live.
pub open spec fn living_count(players: Seq<PlayerView>) -> nat {
    players.filter(|p: PlayerView| p.alive).len()
}

proof fn lemma_living_count(g: GameView, n: nat)
    requires
        n <= g.players.len(),
    ensures
        count_where(n, g.living()) == living_count(g.players.take(n as int)),
    decreases n,
{
    reveal(Seq::filter);
    if n > 0 {
        let s = g.players.take(n as int);
        lemma_living_count(g, (n - 1) as nat);
        assert(s.drop_last() =~= g.players.take(n - 1));
        assert(s.last() == g.players[n - 1]);
    } else {
        assert(g.players.take(0) =~= Seq::empty());
    }
}

/// The news at dawn: they begin with a peaceful night or with the dead, and end with how many
/// are left.
proof fn lemma_dawn_text(g: GameView)
    ensures
        ({
            let t = g.deaths_text();
            let peace = "🌅 **平安夜**，昨夜无人死亡。"@;
            let news = "🌅 昨夜以下玩家死亡：\n"@;
            &&& peace.is_prefix_of(t) <==> g.last_night_deaths.len() == 0
            &&& news.is_prefix_of(t) <==> g.last_night_deaths.len() > 0
            &&& holds_part(
                t,
                "\n仍在场：**"@ + decimal_text(g.alive_seats().len()) + "** 人。"@,
            )
        }),
{
    let t = g.deaths_text();
    let peace = "🌅 **平安夜**，昨夜无人死亡。"@;
    let news = "🌅 昨夜以下玩家死亡：\n"@;
    let list = wrapped(g.last_night_deaths.map_values(g.seat_shown()), "• "@, " 出局\n"@);
    let n = decimal_text(g.alive_seats().len());
    let left = "\n仍在场：**"@ + n + "** 人。"@;
    let first = if g.last_night_deaths.len() == 0 {
        peace
    } else {
        news + list
    };
    lemma_add3(first, "\n仍在场：**"@, n, "** 人。"@);
    assert(t == first + left);
    lemma_holds_self(left);
    lemma_holds_side(first, left, left);
    assert(peace.len() > 2 && news.len() > 2 && peace[2] != news[2]) by {
        reveal_strlit("🌅 **平安夜**，昨夜无人死亡。");
        reveal_strlit("🌅 昨夜以下玩家死亡：\n");
    }
    if g.last_night_deaths.len() == 0 {
        lemma_prefixes(peace, left, news);
    } else {
        lemma_prefixes(news, list + left, peace);
        assert(news + (list + left) =~= (news + list) + left);
    }
}

proof fn lemma_add3(a: Seq<char>, b: Seq<char>, c: Seq<char>, d: Seq<char>)
    ensures
        a + b + c + d == a + (b + c + d),
{
    assert(a + b + c + d =~= a + (b + c + d));
}

/// A text begins with its first part, and not with a text that differs from that early on.
proof fn lemma_prefixes(first: Seq<char>, rest: Seq<char>, other: Seq<char>)
    requires
        first.len() > 2,
        other.len() > 2,
        first[2] != other[2],
    ensures
        first.is_prefix_of(first + rest),
        !other.is_prefix_of(first + rest),
{
    let t = first + rest;
    assert(t.subrange(0, first.len() as int) =~= first);
    assert(t[2] == first[2]);
    if other.is_prefix_of(t) {
        assert(t.subrange(0, other.len() as int)[2] == other[2]);
    }
}

/// Everybody who died in the night stands in the news at dawn.
proof fn lemma_dawn_names(g: GameView, k: int)
    requires
        0 <= k < g.last_night_deaths.len(),
    ensures
        holds_part(
            g.deaths_text(),
            known_as(g.players[g.last_night_deaths[k] as int]) + " 出局\n"@,
        ),
{
    let p = g.players[g.last_night_deaths[k] as int];
    let want = known_as(p) + " 出局\n"@;
    let names = g.last_night_deaths.map_values(g.seat_shown());
    let list = wrapped(names, "• "@, " 出局\n"@);
    let news = "🌅 昨夜以下玩家死亡：\n"@;
    let n = decimal_text(g.alive_seats().len());
    assert(names[k] == p.shown());
    lemma_wrapped_holds(names, "• "@, " 出局\n"@, k);
    lemma_shown_then(p, "• "@, " 出局\n"@);
    lemma_holds_through(list, "• "@ + p.shown() + " 出局\n"@, want);
    lemma_holds_side(news, list, want);
    lemma_holds_side(news + list, "\n仍在场：**"@, want);
    lemma_holds_side(news + list + "\n仍在场：**"@, n, want);
    lemma_holds_side(news + list + "\n仍在场：**"@ + n, "** 人。"@, want);
}

/// At dawn everybody who died in the night is named as out, and a peaceful night is announced
/// exactly if nobody died. The card tells how many are left.
pub proof fn law_dawn_is_told(g: GameView, k: int)
    requires
        g.players.len() <= usize::MAX,
    ensures
        ({
            let c = g.day_reveal_card();
            let peace = "🌅 **平安夜**，昨夜无人死亡。"@;
            let news = "🌅 昨夜以下玩家死亡：\n"@;
            &&& title_of(c) == Some("🌅 "@ + ("第 "@ + decimal_text(g.day as nat) + " 天"@) + " · 黎明"@)
            &&& parts_of(c).len() == 1
            &&& peace.is_prefix_of(paragraph(parts_of(c)[0])) <==> g.last_night_deaths.len() == 0
            &&& news.is_prefix_of(paragraph(parts_of(c)[0])) <==> g.last_night_deaths.len() > 0
            &&& 0 <= k < g.last_night_deaths.len() ==> says(
                c,
                known_as(g.players[g.last_night_deaths[k] as int]) + " 出局\n"@,
            )
            &&& says(c, "\n仍在场：**"@ + decimal_text(living_count(g.players)) + "** 人。"@)
        }),
{
    let t = g.deaths_text();
    let title = "🌅 "@ + g.day_title() + " · 黎明"@;
    let parts = seq![markdown_view(t)];
    let head = titled_view(title, "天亮了，请讨论再投票"@, "yellow"@);
    lemma_two_heads(title, "天亮了，请讨论再投票"@, "yellow"@, parts);
    lemma_card(head, parts);
    lemma_paragraph(t);
    lemma_dawn_text(g);
    lemma_indices_where(g.players.len(), g.living());
    lemma_living_count(g, g.players.len());
    assert(g.players.take(g.players.len() as int) =~= g.players);
    let left = "\n仍在场：**"@ + decimal_text(living_count(g.players)) + "** 人。"@;
    lemma_card_says(head, parts, 0, t, left);
    if 0 <= k < g.last_night_deaths.len() {
        let want = known_as(g.players[g.last_night_deaths[k] as int]) + " 出局\n"@;
        lemma_dawn_names(g, k);
        lemma_card_says(head, parts, 0, t, want);
    }
}

/// How a player is shown ends with how the player is recognised, so that what follows it
/// follows that.
pub proof fn lemma_shown_then(p: PlayerView, before: Seq<char>, after: Seq<char>)
    ensures
        holds_part(before + p.shown() + after, known_as(p) + after),
{
    let e = if p.is_ai {
        (match p.persona {
            Some(q) => q.emoji_text(),
            None => "🤖"@,
        }) + " "@
    } else {
        Seq::empty()
    };
    reveal_strlit(" **");
    reveal_strlit(" ");
    reveal_strlit("**");
    assert(p.shown() =~= e + known_as(p));
    assert(before + p.shown() + after =~= (before + e) + (known_as(p) + after)
        + Seq::<char>::empty());
    lemma_holds(before + e, known_as(p) + after, Seq::empty());
}

/// What follows after how a player is shown, with something before it.
pub proof fn lemma_shown_between(p: PlayerView, before: Seq<char>, after: Seq<char>)
    ensures
        holds_part(before + p.shown() + after, known_as(p) + after),
        holds_part(before + p.shown() + after, known_as(p)),
        holds_part(before + p.shown(), known_as(p)),
{
    lemma_shown_then(p, before, after);
    lemma_holds_self(known_as(p));
    lemma_holds_side(known_as(p), after, known_as(p));
    lemma_holds_through(before + p.shown() + after, known_as(p) + after, known_as(p));
    law_players_are_recognised(p);
    lemma_holds_side(before, p.shown(), known_as(p));
}

/// The card at the end is titled with the side that has won.
pub proof fn law_end_names_the_winner(g: GameView)
    ensures
        title_of(g.summary_card(Winner::Good)) == Some("🎉 好人阵营胜利"@),
        title_of(g.summary_card(Winner::Wolves)) == Some("🐺 狼人阵营胜利"@),
{
    let sub = "第 "@ + decimal_text(g.game_count as nat) + " 局 · 共 "@ + decimal_text(g.day as nat)
        + " 天"@;
    let a = g.summary_card(Winner::Good)->Object_0[3].1->Object_0[3].1->List_0;
    let b = g.summary_card(Winner::Wolves)->Object_0[3].1->Object_0[3].1->List_0;
    lemma_two_heads("🎉 好人阵营胜利"@, sub, "turquoise"@, a);
    lemma_two_heads("🐺 狼人阵营胜利"@, sub, "carmine"@, b);
}

/// When a game has ended, everybody is told who has won, as it follows from who lives: the good
/// side if no wolf does, the wolves if one does and the villagers are all dead, or the seer,
/// witch, hunter and guard are.
pub proof fn law_end_is_told_as_it_came(g: GameView)
    requires
        g.wf(),
        g.stage == Stage::Ended,
    ensures
        !some_wolf_lives(g) ==> g.final_card() is Some && title_of(g.final_card()->0) == Some(
            "🎉 好人阵营胜利"@,
        ),
        some_wolf_lives(g) && (!some_villager_lives(g) || !some_god_lives(g)) ==> g.final_card()
            is Some && title_of(g.final_card()->0) == Some("🐺 狼人阵营胜利"@),
{
    law_who_has_won(g);
    law_end_names_the_winner(g);
}

/// The card at the end tells everybody's role and whether the player has survived.
pub proof fn law_end_reveals_everybody(g: GameView, winner: Winner, i: int)
    requires
        0 <= i < g.players.len(),
        g.players[i].role is Some,
    ensures
        exists|line: Seq<char>| #[trigger]
            says(g.summary_card(winner), line) && holds_part(line, known_as(g.players[i]))
                && holds_part(
                line,
                " "@ + role_word(g.players[i].role->0) + "** · "@ + (if g.players[i].alive {
                    "✓ 存活"@
                } else {
                    "☠ 出局"@
                }),
            ),
{
    let p = g.players[i];
    let r = p.role->0;
    let fate = if p.alive {
        "✓ 存活"@
    } else {
        "☠ 出局"@
    };
    let lines = g.players.map_values(crate::werewolf::vote_cards::fate_line());
    let body = "**真身揭晓：**\n"@ + joined(lines, "\n"@);
    let c = g.summary_card(winner);
    let parts = c->Object_0[3].1->Object_0[3].1->List_0;
    let head = c->Object_0[2].1;
    assert(c == card_view(head, parts));
    assert(parts[0] == markdown_view(body));
    let line = lines[i];
    lemma_joined_holds(lines, "\n"@, i);
    lemma_holds_side("**真身揭晓：**\n"@, joined(lines, "\n"@), line);
    lemma_card_says(head, parts, 0, body, line);
    lemma_fate_line(p);
}

proof fn lemma_eight(
    a: Seq<char>,
    b: Seq<char>,
    c: Seq<char>,
    d: Seq<char>,
    e: Seq<char>,
    f: Seq<char>,
    g: Seq<char>,
    h: Seq<char>,
)
    ensures
        a + b + c + (d + e + f) + g + h == (a + b + c + d) + (e + f + g + h) + Seq::<char>::empty(),
        a + b + c + (d + e + f) + g + h == a + b + (c + (d + e + f) + g + h),
{
    assert(a + b + c + (d + e + f) + g + h =~= (a + b + c + d) + (e + f + g + h)
        + Seq::<char>::empty());
    assert(a + b + c + (d + e + f) + g + h =~= a + b + (c + (d + e + f) + g + h));
}

proof fn lemma_fate_line(p: PlayerView)
    requires
        p.role is Some,
    ensures
        ({
            let line = (crate::werewolf::vote_cards::fate_line())(p);
            &&& holds_part(line, known_as(p))
            &&& holds_part(
                line,
                " "@ + role_word(p.role->0) + "** · "@ + (if p.alive {
                    "✓ 存活"@
                } else {
                    "☠ 出局"@
                }),
            )
        }),
{
    let r = p.role->0;
    let fate = if p.alive {
        "✓ 存活"@
    } else {
        "☠ 出局"@
    };
    lemma_eight("• "@, p.shown(), " — **"@, r.emoji_text(), " "@, r.label_text(), "** · "@, fate);
    lemma_holds(
        "• "@ + p.shown() + " — **"@ + r.emoji_text(),
        " "@ + role_word(r) + "** · "@ + fate,
        Seq::empty(),
    );
    lemma_shown_between(
        p,
        "• "@,
        " — **"@ + (r.emoji_text() + " "@ + r.label_text()) + "** · "@ + fate,
    );
}

/// The result of a check is told to the seer in words: a wolf as one, and nobody else.
#[verifier::spinoff_prover]
#[verifier::rlimit(50)]
pub proof fn law_check_is_told(g: GameView, target: PlayerView, is_wolf: bool)
    ensures
        is_wolf ==> says(g.seer_result_card(target, is_wolf), target.name + " 的身份是 🐺 **狼人**"@),
        !is_wolf ==> says(g.seer_result_card(target, is_wolf), target.name + " 的身份是 ✅ **好人**"@),
        is_wolf != says(g.seer_result_card(target, is_wolf), target.name + " 的身份是 ✅ **好人**"@),
{
    let word = if is_wolf {
        "🐺 **狼人**"@
    } else {
        "✅ **好人**"@
    };
    let c = g.seer_result_card(target, is_wolf);
    let head = c->Object_0[2].1;
    let parts = c->Object_0[3].1->Object_0[3].1->List_0;
    let text = target.name + " 的身份是 "@ + word;
    reveal_strlit(" 的身份是 ");
    reveal_strlit("🐺 **狼人**");
    reveal_strlit("✅ **好人**");
    reveal_strlit(" 的身份是 🐺 **狼人**");
    reveal_strlit(" 的身份是 ✅ **好人**");
    reveal_strlit("仅你可见 · 别说漏嘴");
    assert(" 的身份是 🐺 **狼人**"@ =~= " 的身份是 "@ + "🐺 **狼人**"@);
    assert(" 的身份是 ✅ **好人**"@ =~= " 的身份是 "@ + "✅ **好人**"@);
    let want = target.name + (" 的身份是 "@ + word);
    assert(text =~= want);
    lemma_holds_self(text);
    lemma_card_says(head, parts, 0, text, want);
    let other = target.name + " 的身份是 ✅ **好人**"@;
    if is_wolf && says(c, other) {
        lemma_card(head, parts);
        let i = choose|i: int|
            0 <= i < parts_of(c).len() && holds_part(paragraph(#[trigger] parts_of(c)[i]), other);
        lemma_paragraph(text);
        lemma_paragraph("仅你可见 · 别说漏嘴"@);
        if i == 0 {
            assert(text.len() == other.len());
            let k = choose|k: int|
                0 <= k <= text.len() - other.len() && #[trigger] text.subrange(k, k + other.len())
                    == other;
            assert(k == 0);
            let n = target.name.len() as int + 7;
            assert(text.subrange(0, other.len() as int)[n - 1] == other[n - 1]);
            assert(text[target.name.len() as int + 6] == '🐺');
            assert(other[target.name.len() as int + 6] == '✅');
        } else {
            assert(parts_of(c)[1] == crate::feishu::cards::note_view("仅你可见 · 别说漏嘴"@));
            let t = "仅你可见 · 别说漏嘴"@;
            let k = choose|k: int|
                0 <= k <= t.len() - other.len() && #[trigger] t.subrange(k, k + other.len()) == other;
            assert(t.subrange(k, k + other.len())[other.len() - 1] == other[other.len() - 1]);
            assert(other[other.len() - 1] == '*');
        }
    }
}

} // verus!
