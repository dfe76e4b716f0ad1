//! What is announced to everybody, and what a player's own cards tell the player.

use vstd::prelude::*;
use crate::assoc::get_key;
use crate::feishu::cards::{card_view, header_view, markdown_view, titled_view};
use crate::feishu::reading::{holds_part, lemma_card, lemma_head, lemma_holds, lemma_holds_self,
    lemma_holds_side, lemma_holds_through, lemma_joined_holds, lemma_two_heads, parts_of, says,
    subtitle_of, title_of};
use crate::seqs::lemma_indices_where;
use crate::text::{decimal_text, joined};
use crate::werewolf::card_laws::{known_as, law_players_are_recognised, lemma_card_says,
    lemma_shown_between, lemma_shown_then, role_word};
use crate::werewolf::cards::{fellow_text, fellow_wolf};
use crate::werewolf::day_cards::direction_announced;
use crate::werewolf::election_laws::{law_running_are_those_who_said_so, says_yes};
use crate::werewolf::laws::law_seat_of;
use crate::werewolf::night_laws::wolf_role;
use crate::werewolf::outlook_laws::lemma_pick_has;
use crate::werewolf::state::GameView;
use crate::werewolf::types::{PlayerView, Role, Stage};
use crate::werewolf::vote_cards::{badge_announced, explosion_announced, shot_announced};

verus! {

/// A text of three parts holds each of them, and each two that follow each other.
proof fn lemma_three(a: Seq<char>, b: Seq<char>, c: Seq<char>)
    ensures
        holds_part(a + b + c, a),
        holds_part(a + b + c, b),
        holds_part(a + b + c, c),
        holds_part(a + b + c, b + c),
        holds_part(a + b + c, a + b),
{
    lemma_holds(a, b, c);
    lemma_holds_self(a + b);
    lemma_holds_side(a + b, c, a + b);
    lemma_holds_self(a);
    lemma_holds_side(a, b, a);
    lemma_holds_side(a + b, c, a);
    lemma_holds_self(c);
    lemma_holds_side(a + b, c, c);
    lemma_holds_self(b + c);
    assert(a + b + c =~= a + (b + c));
    lemma_holds_side(a, b + c, b + c);
}

/// A shot is announced with who fired it, and with whom it took or that it took nobody.
pub proof fn law_shot_is_told(shooter: PlayerView, target: PlayerView)
    ensures
        says(shot_announced(shooter, Some(target)), known_as(shooter) + " 临死前开枪，带走了 "@),
        says(shot_announced(shooter, Some(target)), " 临死前开枪，带走了 "@ + target.shown()),
        says(shot_announced(shooter, None), known_as(shooter) + " 选择不开枪"@),
{
    let head = header_view("🏹 开枪"@, "carmine"@);
    let a = "🏹 "@ + shooter.shown() + " 临死前开枪，带走了 "@;
    let t = a + target.shown();
    let first = known_as(shooter) + " 临死前开枪，带走了 "@;
    lemma_shown_then(shooter, "🏹 "@, " 临死前开枪，带走了 "@);
    lemma_holds_side(a, target.shown(), first);
    lemma_card_says(head, seq![markdown_view(t)], 0, t, first);
    lemma_three("🏹 "@ + shooter.shown(), " 临死前开枪，带走了 "@, target.shown());
    lemma_card_says(
        head,
        seq![markdown_view(t)],
        0,
        t,
        " 临死前开枪，带走了 "@ + target.shown(),
    );
    let u = "🏹 "@ + shooter.shown() + " 选择不开枪"@;
    lemma_shown_then(shooter, "🏹 "@, " 选择不开枪"@);
    lemma_card_says(head, seq![markdown_view(u)], 0, u, known_as(shooter) + " 选择不开枪"@);
}

/// What becomes of the badge is announced with who had it, and with who has it now or that
/// nobody has.
pub proof fn law_badge_is_told(sheriff: PlayerView, holder: PlayerView)
    ensures
        says(badge_announced(sheriff, Some(holder)), known_as(sheriff) + " 临死前移交警徽给 "@),
        says(badge_announced(sheriff, Some(holder)), " 临死前移交警徽给 "@ + holder.shown()),
        says(badge_announced(sheriff, None), known_as(sheriff) + " 撕毁了警徽，本局不再有警长"@),
{
    let head = header_view("🎖️ 警徽流转"@, "yellow"@);
    let a = "🎖️ "@ + sheriff.shown() + " 临死前移交警徽给 "@;
    let t = a + holder.shown();
    let first = known_as(sheriff) + " 临死前移交警徽给 "@;
    lemma_shown_then(sheriff, "🎖️ "@, " 临死前移交警徽给 "@);
    lemma_holds_side(a, holder.shown(), first);
    lemma_card_says(head, seq![markdown_view(t)], 0, t, first);
    lemma_three("🎖️ "@ + sheriff.shown(), " 临死前移交警徽给 "@, holder.shown());
    lemma_card_says(head, seq![markdown_view(t)], 0, t, " 临死前移交警徽给 "@ + holder.shown());
    let u = "✂️ "@ + sheriff.shown() + " 撕毁了警徽，本局不再有警长"@;
    lemma_shown_then(sheriff, "✂️ "@, " 撕毁了警徽，本局不再有警长"@);
    lemma_card_says(
        head,
        seq![markdown_view(u)],
        0,
        u,
        known_as(sheriff) + " 撕毁了警徽，本局不再有警长"@,
    );
}

/// An explosion is announced with who blew up.
pub proof fn law_explosion_is_told(wolf: PlayerView)
    ensures
        says(explosion_announced(wolf), known_as(wolf) + " 自爆，当天结束。"@),
{
    let t = "💥 "@ + wolf.shown() + " 自爆，当天结束。"@;
    lemma_shown_then(wolf, "💥 "@, " 自爆，当天结束。"@);
    lemma_card_says(
        header_view("💥 狼人自爆"@, "carmine"@),
        seq![markdown_view(t)],
        0,
        t,
        known_as(wolf) + " 自爆，当天结束。"@,
    );
}

/// The direction of the speeches is announced with who picked it and which it is.
pub proof fn law_direction_is_told(sheriff: PlayerView)
    ensures
        says(direction_announced(sheriff, true), known_as(sheriff) + " 选择 **"@),
        says(direction_announced(sheriff, true), " 选择 **"@ + "警上 (顺时针)"@),
        says(direction_announced(sheriff, false), known_as(sheriff) + " 选择 **"@),
        says(direction_announced(sheriff, false), " 选择 **"@ + "警下 (逆时针)"@),
{
    lemma_direction_is_told(sheriff, "警上 (顺时针)"@);
    lemma_direction_is_told(sheriff, "警下 (逆时针)"@);
}

proof fn lemma_direction_is_told(sheriff: PlayerView, word: Seq<char>)
    ensures
        ({
            let c = card_view(
                header_view("🎖️ 警长指示"@, "yellow"@),
                seq![
                    markdown_view(
                        "🎖️ "@ + sheriff.shown() + " 选择 **"@ + word + "** 起手 · 警长本人末位归票"@,
                    ),
                ],
            );
            &&& says(c, known_as(sheriff) + " 选择 **"@)
            &&& says(c, " 选择 **"@ + word)
        }),
{
    let a = "🎖️ "@ + sheriff.shown() + " 选择 **"@;
    let t = a + word + "** 起手 · 警长本人末位归票"@;
    let head = header_view("🎖️ 警长指示"@, "yellow"@);
    let first = known_as(sheriff) + " 选择 **"@;
    lemma_shown_then(sheriff, "🎖️ "@, " 选择 **"@);
    lemma_holds_side(a, word, first);
    lemma_holds_side(a + word, "** 起手 · 警长本人末位归票"@, first);
    lemma_card_says(head, seq![markdown_view(t)], 0, t, first);
    lemma_three("🎖️ "@ + sheriff.shown(), " 选择 **"@, word);
    lemma_holds_side(a + word, "** 起手 · 警长本人末位归票"@, " 选择 **"@ + word);
    lemma_card_says(head, seq![markdown_view(t)], 0, t, " 选择 **"@ + word);
}

/// The result of a vote tells who is banished, or that nobody is.
pub proof fn law_banishment_is_told(g: GameView)
    ensures
        g.last_day_lynched is Some ==> says(
            g.tally_card(),
            known_as(g.players[g.last_day_lynched->0 as int]) + " 被投票放逐。"@,
        ),
        g.last_day_lynched is None ==> says(g.tally_card(), "🤝 平票或全员弃权，无人放逐。"@),
{
    let c = g.tally_card();
    let head = c->Object_0[2].1;
    let parts = c->Object_0[3].1->Object_0[3].1->List_0;
    assert(c == card_view(head, parts));
    let t = g.outcome_text();
    assert(parts[0] == markdown_view(t));
    match g.last_day_lynched {
        Some(i) => {
            let p = g.players[i as int];
            lemma_shown_then(p, "🪦 "@, " 被投票放逐。"@);
            lemma_card_says(head, parts, 0, t, known_as(p) + " 被投票放逐。"@);
        },
        None => {
            lemma_holds_self(t);
            lemma_card_says(head, parts, 0, t, t);
        },
    }
}

proof fn lemma_tally_line(p: PlayerView, rest: Seq<char>)
    ensures
        holds_part("• "@ + p.shown() + " → "@ + rest, known_as(p) + " → "@ + rest),
{
    lemma_shown_then(p, "• "@, " → "@ + rest);
    assert("• "@ + p.shown() + " → "@ + rest =~= "• "@ + p.shown() + (" → "@ + rest));
    assert(known_as(p) + " → "@ + rest =~= known_as(p) + (" → "@ + rest));
}

/// The result of a vote tells of everybody who voted for whom, or that the player abstained.
pub proof fn law_votes_are_told(g: GameView, k: int)
    requires
        0 <= k < g.day_votes.len(),
    ensures
        ({
            let voter = g.players[g.day_votes[k].0 as int];
            &&& g.day_votes[k].1 is Some ==> says(
                g.tally_card(),
                known_as(voter) + " → "@ + g.players[g.day_votes[k].1->0 as int].shown(),
            )
            &&& g.day_votes[k].1 is None ==> says(g.tally_card(), known_as(voter) + " → "@ + "弃权"@)
        }),
{
    let c = g.tally_card();
    let head = c->Object_0[2].1;
    let parts = c->Object_0[3].1->Object_0[3].1->List_0;
    assert(c == card_view(head, parts));
    let lines = g.day_votes.map_values(g.tally_line());
    let t = joined(lines, "\n"@);
    assert(parts[2] == markdown_view(t));
    let voter = g.players[g.day_votes[k].0 as int];
    let rest = match g.day_votes[k].1 {
        Some(i) => g.players[i as int].shown(),
        None => "弃权"@,
    };
    assert(lines[k] == "• "@ + voter.shown() + " → "@ + rest);
    lemma_joined_holds(lines, "\n"@, k);
    lemma_tally_line(voter, rest);
    lemma_holds_through(t, lines[k], known_as(voter) + " → "@ + rest);
    lemma_card_says(head, parts, 2, t, known_as(voter) + " → "@ + rest);
}

/// When the nominations close, everybody who runs is told, or that nobody does.
pub proof fn law_candidates_are_told(g: GameView, c: usize)
    requires
        g.wf(),
        g.stage == Stage::SheriffNominate,
        g.sheriff_vote_round == 0,
    ensures
        says_yes(g.sheriff_nominations, c) ==> says(
            g.candidates_card(),
            known_as(g.players[c as int]),
        ),
        (forall|x: usize| !#[trigger] says_yes(g.sheriff_nominations, x)) ==> says(
            g.candidates_card(),
            "⚠️ 无人参选，本局无警长。"@,
        ),
{
    let head = header_view("🎖️ 警长候选人"@, "yellow"@);
    let cs = g.candidates();
    law_running_are_those_who_said_so(g.sheriff_nominations, c);
    if says_yes(g.sheriff_nominations, c) {
        let k = choose|k: int| 0 <= k < cs.len() && cs[k] == c;
        let lines = cs.map_values(g.candidate_line());
        let p = g.players[c as int];
        let t = "候选人：\n"@ + joined(lines, "\n"@);
        assert(lines[k] == "• "@ + p.shown());
        lemma_joined_holds(lines, "\n"@, k);
        lemma_shown_between(p, "• "@, Seq::empty());
        lemma_holds_through(joined(lines, "\n"@), lines[k], known_as(p));
        lemma_holds_side("候选人：\n"@, joined(lines, "\n"@), known_as(p));
        lemma_card_says(head, seq![markdown_view(t)], 0, t, known_as(p));
    }
    if forall|x: usize| !#[trigger] says_yes(g.sheriff_nominations, x) {
        if cs.len() > 0 {
            law_running_are_those_who_said_so(g.sheriff_nominations, cs[0]);
            assert(cs.contains(cs[0]));
        }
        let t = "⚠️ 无人参选，本局无警长。"@;
        lemma_holds_self(t);
        lemma_card_says(head, seq![markdown_view(t)], 0, t, t);
    }
}

/// While players speak in turn, everybody reads who speaks now, and who has said what.
pub proof fn law_speeches_are_told(
    g: GameView,
    title: Seq<char>,
    template: Seq<char>,
    order: Seq<usize>,
    speeches: Seq<(usize, Seq<char>)>,
    cur: int,
    k: int,
)
    ensures
        ({
            let c = g.speech_card(title, template, order, speeches, cur);
            &&& title_of(c) == Some(title)
            &&& 0 <= cur < order.len() ==> says(
                c,
                "🎤 **当前发言**："@ + g.players[order[cur] as int].shown(),
            )
            &&& 0 <= k < speeches.len() ==> says(
                c,
                g.players[speeches[k].0 as int].name + "**："@ + speeches[k].1,
            )
        }),
{
    let c = g.speech_card(title, template, order, speeches, cur);
    let head = header_view(title, template);
    let line = joined(Seq::new(order.len(), g.order_entry(order, cur)), " → "@);
    let first = seq![markdown_view("**发言顺序**\n"@ + line)];
    let said = g.said_part("✅ **"@, speeches);
    let turn = g.turn_part("🎤 **当前发言**："@, order, cur);
    let parts = first + said + turn;
    assert(c == card_view(head, parts));
    lemma_head(title, template, parts);
    if 0 <= cur < order.len() {
        let t = "🎤 **当前发言**："@ + g.players[order[cur] as int].shown();
        assert(parts[(first.len() + said.len() + 1) as int] == turn[1]);
        lemma_holds_self(t);
        lemma_card_says(head, parts, (first.len() + said.len() + 1) as int, t, t);
    }
    if 0 <= k < speeches.len() {
        assert(parts[2] == said[1]);
        lemma_said(g, "✅ **"@, speeches, k);
        let t = joined(speeches.map_values(g.said_line("✅ **"@)), "\n\n"@);
        lemma_card_says(
            head,
            parts,
            2,
            t,
            g.players[speeches[k].0 as int].name + "**："@ + speeches[k].1,
        );
    }
}

proof fn lemma_said(g: GameView, mark: Seq<char>, speeches: Seq<(usize, Seq<char>)>, k: int)
    requires
        0 <= k < speeches.len(),
    ensures
        holds_part(
            joined(speeches.map_values(g.said_line(mark)), "\n\n"@),
            g.players[speeches[k].0 as int].name + "**："@ + speeches[k].1,
        ),
{
    let lines = speeches.map_values(g.said_line(mark));
    let name = g.players[speeches[k].0 as int].name;
    let want = name + "**："@ + speeches[k].1;
    lemma_joined_holds(lines, "\n\n"@, k);
    assert(lines[k] == mark + name + "**："@ + speeches[k].1);
    assert(lines[k] =~= mark + want);
    lemma_holds_self(want);
    lemma_holds_side(mark, want, want);
    lemma_holds_through(joined(lines, "\n\n"@), lines[k], want);
}

/// While the dead speak, everybody reads who speaks now, and who has said what.
pub proof fn law_last_words_are_told(
    g: GameView,
    queue: Seq<usize>,
    speeches: Seq<(usize, Seq<char>)>,
    cur: int,
    k: int,
)
    requires
        queue.len() > 0,
    ensures
        ({
            let c = g.last_words_card(queue, speeches, cur);
            &&& 0 <= cur < queue.len() ==> says(
                c,
                "🎤 **正在发表遗言**："@ + g.players[queue[cur] as int].shown(),
            )
            &&& 0 <= k < speeches.len() ==> says(
                c,
                g.players[speeches[k].0 as int].name + "**："@ + speeches[k].1,
            )
        }),
{
    let c = g.last_words_card(queue, speeches, cur);
    let head = header_view("🪦 死亡遗言"@, "wathet"@);
    let line = joined(Seq::new(queue.len(), g.queue_entry(queue, cur)), " → "@);
    let first = seq![markdown_view("**遗言顺序**\n"@ + line)];
    let said = g.said_part("🪦 **"@, speeches);
    let turn = g.turn_part("🎤 **正在发表遗言**："@, queue, cur);
    let parts = first + said + turn;
    assert(c == card_view(head, parts));
    if 0 <= cur < queue.len() {
        let t = "🎤 **正在发表遗言**："@ + g.players[queue[cur] as int].shown();
        assert(parts[(first.len() + said.len() + 1) as int] == turn[1]);
        lemma_holds_self(t);
        lemma_card_says(head, parts, (first.len() + said.len() + 1) as int, t, t);
    }
    if 0 <= k < speeches.len() {
        assert(parts[2] == said[1]);
        lemma_said(g, "🪦 **"@, speeches, k);
        let t = joined(speeches.map_values(g.said_line("🪦 **"@)), "\n\n"@);
        lemma_card_says(
            head,
            parts,
            2,
            t,
            g.players[speeches[k].0 as int].name + "**："@ + speeches[k].1,
        );
    }
}

/// In the order of the speeches, those who have spoken are ticked off, the one who speaks has
/// the microphone, and the others wait.
pub proof fn law_order_is_told(
    g: GameView,
    title: Seq<char>,
    template: Seq<char>,
    order: Seq<usize>,
    speeches: Seq<(usize, Seq<char>)>,
    cur: int,
    i: int,
)
    requires
        0 <= i < order.len(),
        !g.players[order[i] as int].is_ai,
    ensures
        ({
            let c = g.speech_card(title, template, order, speeches, cur);
            let name = g.players[order[i] as int].name;
            &&& i < cur ==> says(c, "✓"@ + " "@ + name)
            &&& i == cur ==> says(c, "🎤"@ + " "@ + name)
            &&& i > cur ==> says(c, "·"@ + " "@ + name)
        }),
{
    let c = g.speech_card(title, template, order, speeches, cur);
    let head = header_view(title, template);
    let entries = Seq::new(order.len(), g.order_entry(order, cur));
    let t = "**发言顺序**\n"@ + joined(entries, " → "@);
    let parts = seq![markdown_view(t)] + g.said_part("✅ **"@, speeches) + g.turn_part(
        "🎤 **当前发言**："@,
        order,
        cur,
    );
    assert(c == card_view(head, parts));
    lemma_joined_holds(entries, " → "@, i);
    lemma_holds_side("**发言顺序**\n"@, joined(entries, " → "@), entries[i]);
    lemma_card_says(head, parts, 0, t, entries[i]);
}

/// The witch is told whom the wolves attack, or that they attack nobody.
pub proof fn law_witch_is_told_the_victim(g: GameView, w: PlayerView)
    ensures
        g.night_victim is Some ==> says(
            g.witch_card(w),
            "** · 今晚狼人选择杀害 **"@ + g.players[g.night_victim->0 as int].name + "**。"@,
        ),
        g.night_victim is None ==> says(g.witch_card(w), "** · 今晚狼人空刀，没有目标。"@),
{
    let c = g.witch_card(w);
    let head = c->Object_0[2].1;
    let parts = c->Object_0[3].1->Object_0[3].1->List_0;
    assert(c == card_view(head, parts));
    let news = match g.night_victim {
        Some(v) => "** · 今晚狼人选择杀害 **"@ + g.players[v as int].name + "**。"@,
        None => "** · 今晚狼人空刀，没有目标。"@,
    };
    let t = "🌑 **"@ + g.night_title() + news;
    assert(parts[0] == markdown_view(t));
    lemma_three("🌑 **"@, g.night_title(), news);
    lemma_card_says(head, parts, 0, t, news);
}

/// The witch is told which of her potions are left.
pub proof fn law_witch_is_told_her_potions(g: GameView, w: PlayerView)
    ensures
        g.witch_save_used ==> says(g.witch_card(w), "**药剂状态：** 救药 "@ + "✗ 已用"@),
        !g.witch_save_used ==> says(g.witch_card(w), "**药剂状态：** 救药 "@ + "✓ 可用"@),
        g.witch_poison_used ==> says(g.witch_card(w), " · 毒药 "@ + "✗ 已用"@),
        !g.witch_poison_used ==> says(g.witch_card(w), " · 毒药 "@ + "✓ 可用"@),
{
    let c = g.witch_card(w);
    let head = c->Object_0[2].1;
    let parts = c->Object_0[3].1->Object_0[3].1->List_0;
    assert(c == card_view(head, parts));
    let a = if g.witch_save_used {
        "✗ 已用"@
    } else {
        "✓ 可用"@
    };
    let b = if g.witch_poison_used {
        "✗ 已用"@
    } else {
        "✓ 可用"@
    };
    let first = "**药剂状态：** 救药 "@ + a;
    let last = " · 毒药 "@ + b;
    let t = "**药剂状态：** 救药 "@ + a + " · 毒药 "@ + b;
    assert(t =~= first + last);
    assert(parts[1] == markdown_view(t));
    lemma_holds_self(first);
    lemma_holds_self(last);
    lemma_holds_side(first, last, first);
    lemma_holds_side(first, last, last);
    lemma_card_says(head, parts, 1, t, first);
    lemma_card_says(head, parts, 1, t, last);
}

/// Everybody is told the own role.
pub proof fn law_role_is_told(g: GameView, p: PlayerView)
    requires
        p.role is Some,
    ensures
        says(g.role_reveal_card(p), " 你的身份是 **"@ + role_word(p.role->0) + "**"@),
        title_of(g.role_reveal_card(p)) == Some("🪪 你的身份"@),
{
    let c = g.role_reveal_card(p);
    let parts = c->Object_0[3].1->Object_0[3].1->List_0;
    let sub = "第 "@ + decimal_text(g.game_count as nat) + " 局"@;
    let head = titled_view("🪪 你的身份"@, sub, "purple"@);
    assert(c == card_view(head, parts));
    lemma_two_heads("🪪 你的身份"@, sub, "purple"@, parts);
    let e = p.role->0.emoji_text();
    let want = " 你的身份是 **"@ + role_word(p.role->0) + "**"@;
    let t = e + " 你的身份是 **"@ + p.role->0.label_text() + "**"@;
    assert(t =~= e + want);
    assert(parts[0] == markdown_view(t));
    lemma_holds_self(want);
    lemma_holds_side(e, want, want);
    lemma_card_says(head, parts, 0, t, want);
}

/// A wolf is told every other wolf with that wolf's role.
pub proof fn law_wolf_is_told_its_fellows(g: GameView, s: usize, i: usize)
    requires
        g.wf(),
        s < g.players.len(),
        i < g.players.len(),
        s != i,
        wolf_role(g.players[s as int].role),
        wolf_role(g.players[i as int].role),
    ensures
        says(
            g.role_reveal_card(g.players[s as int]),
            g.players[i as int].name + " ("@ + role_word(g.players[i as int].role->0) + ")"@,
        ),
{
    let p = g.players[s as int];
    let q = g.players[i as int];
    law_seat_of(g, s);
    law_seat_of(g, i);
    let k = lemma_pick_has(g.players, fellow_wolf(p.open_id), fellow_text(), i as int);
    let fellows = g.fellows(p.open_id);
    let want = q.name + " ("@ + role_word(q.role->0) + ")"@;
    assert(fellows[k] == want);
    let list = joined(fellows, "、"@);
    lemma_joined_holds(fellows, "、"@, k);
    let t = "🐺 你的狼队友：**"@ + list + "**"@;
    lemma_holds_side("🐺 你的狼队友：**"@, list, want);
    lemma_holds_side("🐺 你的狼队友：**"@ + list, "**"@, want);
    let c = g.role_reveal_card(p);
    let head = c->Object_0[2].1;
    let parts = c->Object_0[3].1->Object_0[3].1->List_0;
    assert(c == card_view(head, parts));
    assert(parts[2] == markdown_view(t));
    lemma_card_says(head, parts, 2, t, want);
}

/// The role card of who is no wolf tells nothing of the wolves: it has a paragraph less.
pub proof fn law_only_wolves_are_told_of_wolves(g: GameView, p: PlayerView)
    requires
        p.role is Some,
    ensures
        parts_of(g.role_reveal_card(p)).len() == (if wolf_role(p.role) {
            4nat
        } else {
            3nat
        }),
{
    let c = g.role_reveal_card(p);
    let head = c->Object_0[2].1;
    let parts = c->Object_0[3].1->Object_0[3].1->List_0;
    assert(c == card_view(head, parts));
    lemma_card(head, parts);
}

/// When a game starts, everybody reads who is at the table.
pub proof fn law_start_names_everybody(g: GameView, i: int)
    requires
        0 <= i < g.players.len(),
    ensures
        says(g.game_start_card(), known_as(g.players[i])),
        title_of(g.game_start_card()) == Some(
            "🌒 第 "@ + decimal_text(g.game_count as nat) + " 局开始 · 入夜"@,
        ),
{
    let c = g.game_start_card();
    let title = "🌒 第 "@ + decimal_text(g.game_count as nat) + " 局开始 · 入夜"@;
    let sub = subtitle_text(g);
    let parts = c->Object_0[3].1->Object_0[3].1->List_0;
    let head = titled_view(title, sub, "purple"@);
    assert(c == card_view(head, parts));
    lemma_two_heads(title, sub, "purple"@, parts);
    let names = g.players.map_values(crate::werewolf::cards::player_shown());
    let list = joined(names, " · "@);
    let p = g.players[i];
    lemma_joined_holds(names, " · "@, i);
    law_players_are_recognised(p);
    assert(names[i] == p.shown());
    lemma_holds_through(list, names[i], known_as(p));
    let t = "**入夜玩家：**\n"@ + list;
    lemma_holds_side("**入夜玩家：**\n"@, list, known_as(p));
    assert(parts[0] == markdown_view(t));
    lemma_card_says(head, parts, 0, t, known_as(p));
}

spec fn subtitle_text(g: GameView) -> Seq<char> {
    decimal_text(g.players.len()) + " 人 · "@ + crate::werewolf::cards::board_text(g.players.len())
}

/// On the seer's card stands every check with its night, its target and its result.
pub proof fn law_past_checks_are_told(g: GameView, p: PlayerView, k: int)
    requires
        0 <= k < g.seer_history.len(),
    ensures
        ({
            let check = g.seer_history[k];
            let about = "• 第 "@ + decimal_text(check.day as nat) + " 夜："@
                + g.players[check.target_idx as int].name + " 是 "@;
            &&& check.is_wolf ==> says(g.seer_card(p), about + "🐺 狼人"@)
            &&& !check.is_wolf ==> says(g.seer_card(p), about + "✅ 好人"@)
        }),
{
    let c = g.seer_card(p);
    let head = c->Object_0[2].1;
    let parts = c->Object_0[3].1->Object_0[3].1->List_0;
    assert(c == card_view(head, parts));
    let lines = g.seer_history.map_values(g.check_line());
    let t = "**历史查验：**\n"@ + joined(lines, "\n"@);
    lemma_joined_holds(lines, "\n"@, k);
    lemma_holds_side("**历史查验：**\n"@, joined(lines, "\n"@), lines[k]);
    assert(parts[1] == markdown_view(t));
    lemma_card_says(head, parts, 1, t, lines[k]);
}

/// On a wolf's card stands of every living wolf whom that wolf has picked, and whether the wolf
/// has confirmed it.
pub proof fn law_wolves_see_the_picks(g: GameView, p: PlayerView, id: Seq<char>, w: usize)
    requires
        g.players.len() <= usize::MAX,
        w < g.players.len(),
        g.players[w as int].alive,
        wolf_role(g.players[w as int].role),
    ensures
        ({
            let picked = match get_key(g.wolf_kill_votes, w) {
                Some(t) => g.players[t as int].name,
                None => "未选"@,
            };
            let state = if g.wolf_ready.contains(w) {
                "✅ 就绪"@
            } else {
                "—"@
            };
            exists|line: Seq<char>| #[trigger]
                says(g.wolf_card(p, id), line) && ("• "@ + g.players[w as int].name).is_prefix_of(
                    line,
                ) && holds_part(line, " → **"@ + picked + "** · "@ + state)
        }),
{
    let c = g.wolf_card(p, id);
    let head = c->Object_0[2].1;
    let parts = c->Object_0[3].1->Object_0[3].1->List_0;
    assert(c == card_view(head, parts));
    let me = g.viewer_seat(p.open_id);
    let seats = g.wolf_seats();
    lemma_indices_where(g.players.len(), g.living_wolf());
    assert((g.living_wolf())(w as int));
    assert(seats.contains(w));
    let k = choose|k: int| 0 <= k < seats.len() && seats[k] == w;
    let lines = seats.map_values(g.wolf_progress(me));
    let t = "**队伍进度：**\n"@ + joined(lines, "\n"@);
    lemma_joined_holds(lines, "\n"@, k);
    lemma_holds_side("**队伍进度：**\n"@, joined(lines, "\n"@), lines[k]);
    assert(parts[1] == markdown_view(t));
    lemma_card_says(head, parts, 1, t, lines[k]);
    lemma_pick_line(
        "• "@ + g.players[w as int].name,
        if w == me {
            " (你)"@
        } else {
            ""@
        },
        g.picked_name(w),
        if g.wolf_ready.contains(w) {
            "✅ 就绪"@
        } else {
            "—"@
        },
    );
}

proof fn lemma_pick_line(a: Seq<char>, b: Seq<char>, c: Seq<char>, d: Seq<char>)
    ensures
        a.is_prefix_of(a + b + " → **"@ + c + "** · "@ + d),
        holds_part(a + b + " → **"@ + c + "** · "@ + d, " → **"@ + c + "** · "@ + d),
{
    let line = a + b + " → **"@ + c + "** · "@ + d;
    let want = " → **"@ + c + "** · "@ + d;
    assert(line =~= (a + b) + want);
    lemma_holds_self(want);
    lemma_holds_side(a + b, want, want);
    assert(line.subrange(0, a.len() as int) =~= a);
}

proof fn lemma_regroup(a: Seq<char>, b: Seq<char>, c: Seq<char>, d: Seq<char>, e: Seq<char>)
    ensures
        a + b + c + d + e == a + (b + (c + d) + e),
{
    assert(a + b + c + d + e =~= a + (b + (c + d) + e));
}

proof fn lemma_chat_line(name: Seq<char>, text: Seq<char>)
    ensures
        holds_part("🐺 **"@ + name + "**"@ + "："@ + text, name + "**："@ + text),
{
    let want = name + "**："@ + text;
    assert("**："@ == "**"@ + "："@) by {
        reveal_strlit("**");
        reveal_strlit("：");
        reveal_strlit("**：");
        assert("**："@ =~= "**"@ + "："@);
    }
    lemma_regroup("🐺 **"@, name, "**"@, "："@, text);
    lemma_holds_self(want);
    lemma_holds_side("🐺 **"@, want, want);
}

/// The part of a chat that holds a line holds what the line holds.
proof fn lemma_chat(g: GameView, me: usize, k: int, part: Seq<char>)
    requires
        0 <= k < g.wolf_chat.len(),
        holds_part((g.wolf_said(me))(g.wolf_chat[k]), part),
    ensures
        holds_part(
            "**狼人聊天：**\n"@ + joined(g.wolf_chat.map_values(g.wolf_said(me)), "\n"@),
            part,
        ),
{
    let lines = g.wolf_chat.map_values(g.wolf_said(me));
    lemma_joined_holds(lines, "\n"@, k);
    lemma_holds_through(joined(lines, "\n"@), lines[k], part);
    lemma_holds_side("**狼人聊天：**\n"@, joined(lines, "\n"@), part);
}

/// What the wolves say to each other stands on their cards, with who said it.
pub proof fn law_wolves_read_their_chat(g: GameView, p: PlayerView, id: Seq<char>, k: int)
    requires
        0 <= k < g.wolf_chat.len(),
    ensures
        says(g.wolf_card(p, id), "："@ + g.wolf_chat[k].1),
        g.wolf_chat[k].0 != g.viewer_seat(p.open_id) ==> says(
            g.wolf_card(p, id),
            g.players[g.wolf_chat[k].0 as int].name + "**："@ + g.wolf_chat[k].1,
        ),
{
    let c = g.wolf_card(p, id);
    let head = c->Object_0[2].1;
    let parts = c->Object_0[3].1->Object_0[3].1->List_0;
    assert(c == card_view(head, parts));
    let me = g.viewer_seat(p.open_id);
    let t = "**狼人聊天：**\n"@ + joined(g.wolf_chat.map_values(g.wolf_said(me)), "\n"@);
    assert(parts[3] == markdown_view(t));
    let text = g.wolf_chat[k].1;
    let name = g.players[g.wolf_chat[k].0 as int].name;
    let who = if g.wolf_chat[k].0 == me {
        "**你**"@
    } else {
        "🐺 **"@ + name + "**"@
    };
    lemma_three(who, "："@, text);
    lemma_chat(g, me, k, "："@ + text);
    lemma_card_says(head, parts, 3, t, "："@ + text);
    if g.wolf_chat[k].0 != me {
        lemma_chat_line(name, text);
        lemma_chat(g, me, k, name + "**："@ + text);
        lemma_card_says(head, parts, 3, t, name + "**："@ + text);
    }
}

/// The guard is told whom not to protect again.
pub proof fn law_guard_is_told_the_last(g: GameView, p: PlayerView)
    requires
        g.last_guard_target is Some,
    ensures
        says(
            g.guard_card(p),
            "昨夜你守了 **"@ + g.players[g.last_guard_target->0 as int].name + "**（今夜不可再守此人）"@,
        ),
{
    let c = g.guard_card(p);
    let head = c->Object_0[2].1;
    let parts = c->Object_0[3].1->Object_0[3].1->List_0;
    assert(c == card_view(head, parts));
    let t = "昨夜你守了 **"@ + g.players[g.last_guard_target->0 as int].name + "**（今夜不可再守此人）"@;
    assert(parts[1] == markdown_view(t));
    lemma_holds_self(t);
    lemma_card_says(head, parts, 1, t, t);
}

/// Who is asked for a shot is asked as hunter or as wolf king.
pub proof fn law_shooter_is_addressed(g: GameView, p: PlayerView)
    ensures
        p.role == Some(Role::Hunter) ==> title_of(g.shooter_card(p)) == Some("🏹 猎人开枪"@),
        p.role == Some(Role::WolfKing) ==> title_of(g.shooter_card(p)) == Some("👑 狼王开枪"@),
        subtitle_of(g.shooter_card(p)) == Some("选择带走的人"@),
{
    let c = g.shooter_card(p);
    let parts = c->Object_0[3].1->Object_0[3].1->List_0;
    lemma_two_heads(GameView::shooter_title(p.role), "选择带走的人"@, "carmine"@, parts);
}

} // verus!
