//! What a model is shown when it is asked, and what is made of a reply that does not fit.

use vstd::prelude::*;
use crate::assoc::{get_key, has_key, key_pos, lemma_key_pos};
use crate::feishu::reading::{holds_part, lemma_holds, lemma_holds_self, lemma_holds_side,
    lemma_holds_through, lemma_joined_holds};
use crate::seqs::pick;
use crate::text::{alike, begins, char_pos, decimal_text, is_white, joined, trimmed, trimmed_end};
use crate::text_laws::{law_bare_text_stays, law_first_place};
use crate::werewolf::ai_laws::{lemma_not_empty, lemma_offered, lemma_sees_living};
use crate::werewolf::answers::AnswerView;
use crate::werewolf::asking::ModelReply;
use crate::werewolf::attempts::Question;
use crate::werewolf::card_laws::role_word;
use crate::werewolf::llm::{chat_line, choice_line, choices_text, conversation, others_pick,
    payload, pick_line, FENCE};
use crate::werewolf::night_laws::wolf_role;
use crate::werewolf::outlook_laws::lemma_pick_has;
use crate::werewolf::state::GameView;
use crate::werewolf::types::{Role, Stage};
use crate::werewolf::view::Outlook;

verus! {

/// What a question shows besides the task.
pub open spec fn question_text(g: GameView, seat: usize, q: Question) -> Seq<char> {
    match g.put(seat, q) {
        Some(p) => p.1,
        None => Seq::empty(),
    }
}

/// A text that begins with another holds it.
proof fn lemma_front(front: Seq<char>, more: Seq<char>)
    ensures
        holds_part(front + more, front),
{
    lemma_holds_self(front);
    lemma_holds_side(front, more, front);
}

/// Whatever a player is asked, the question shows the table as that player sees it.
pub proof fn law_question_shows_the_table(g: GameView, seat: usize, q: Question)
    requires
        g.put(seat, q) is Some,
    ensures
        holds_part(question_text(g, seat, q), g.outlook(seat).text()),
{
    let o = g.outlook(seat);
    let t = o.text();
    let user = question_text(g, seat, q);
    lemma_holds_self(t);
    match q {
        Question::Guard => {
            let cs = choices_text(o.guard_choices(g));
            lemma_holds_side(t, "\n\n"@, t);
            lemma_holds_side(t + "\n\n"@, g.last_guard_text(), t);
            lemma_holds_side(t + "\n\n"@ + g.last_guard_text(), "\n\n## 候选目标\n"@, t);
            lemma_holds_side(
                t + "\n\n"@ + g.last_guard_text() + "\n\n## 候选目标\n"@,
                cs,
                t,
            );
        },
        Question::Wolf { speak } => {
            lemma_wolf_user(g, o);
        },
        Question::Witch => {
            lemma_witch_user(g, o);
        },
        Question::Seer => {
            lemma_choice_user(o, "\n\n## 候选目标（仅这些 idx 合法）\n"@, o.other_choices(), ""@);
        },
        Question::Elect => {
            lemma_choice_user(
                o,
                "\n\n## 警长候选人（仅这些 idx 合法）\n"@,
                g.named_candidates(),
                ""@,
            );
        },
        Question::Vote => {
            lemma_choice_user(
                o,
                "\n\n## 候选目标（idx 合法值）\n"@,
                o.vote_choices(g),
                "\n-1 = 弃权"@,
            );
        },
        Question::Dying => {
            lemma_choice_user(
                o,
                "\n\n## 候选开枪目标（仅这些 idx 合法，或 -1 不开枪）\n"@,
                o.other_choices(),
                ""@,
            );
        },
        Question::Shoot => {
            lemma_choice_user(o, "\n\n## 候选目标\n"@, o.other_choices(), "\n-1 = 不开枪"@);
        },
        Question::Badge => {
            lemma_choice_user(o, "\n\n## 候选接警人\n"@, o.other_choices(), "\n-1 = 撕毁警徽"@);
        },
        _ => {
            assert(user == t);
        },
    }
}

proof fn lemma_choice_user(
    o: Outlook,
    title: Seq<char>,
    cs: Seq<(usize, Seq<char>)>,
    last: Seq<char>,
)
    ensures
        holds_part(o.choice_user(title, cs, last), o.text()),
        holds_part(o.choice_user(title, cs, last), choices_text(cs)),
{
    let t = o.text();
    let c = choices_text(cs);
    lemma_holds_self(t);
    lemma_holds_self(c);
    lemma_holds_side(t, title, t);
    lemma_holds_side(t + title, c, t);
    lemma_holds_side(t + title, c, c);
    lemma_holds_side(t + title + c, last, t);
    lemma_holds_side(t + title + c, last, c);
}

proof fn lemma_wolf_user(g: GameView, o: Outlook)
    ensures
        holds_part(o.wolf_user(g), o.text()),
        holds_part(o.wolf_user(g), choices_text(o.living_choices())),
        holds_part(o.wolf_user(g), g.picks_text(o.me_idx)),
        holds_part(o.wolf_user(g), g.wolf_chat_text()),
{
    let t = o.text();
    let title = "\n\n## 候选目标（仅这些 idx 是合法的）\n"@;
    let c = choices_text(o.living_choices());
    let p = g.picks_text(o.me_idx);
    let w = g.wolf_chat_text();
    lemma_holds_self(t);
    lemma_holds_self(c);
    lemma_holds_self(p);
    lemma_holds_self(w);
    lemma_holds_side(t, title, t);
    lemma_holds_side(t + title, c, t);
    lemma_holds_side(t + title, c, c);
    lemma_holds_side(t + title + c, "\n\n"@, t);
    lemma_holds_side(t + title + c, "\n\n"@, c);
    lemma_holds_side(t + title + c + "\n\n"@, p, t);
    lemma_holds_side(t + title + c + "\n\n"@, p, c);
    lemma_holds_side(t + title + c + "\n\n"@, p, p);
    let b = t + title + c + "\n\n"@ + p;
    lemma_holds_side(b, "\n\n"@, t);
    lemma_holds_side(b, "\n\n"@, c);
    lemma_holds_side(b, "\n\n"@, p);
    lemma_holds_side(b + "\n\n"@, w, t);
    lemma_holds_side(b + "\n\n"@, w, c);
    lemma_holds_side(b + "\n\n"@, w, p);
    lemma_holds_side(b + "\n\n"@, w, w);
}

proof fn lemma_potions(a: Seq<char>, save: Seq<char>, poison: Seq<char>)
    ensures
        holds_part(
            a + "\n\n药剂状态：救药 "@ + save + " · 毒药 "@ + poison,
            "救药 "@ + save + " · 毒药 "@ + poison,
        ),
{
    let want = "救药 "@ + save + " · 毒药 "@ + poison;
    assert("\n\n药剂状态：救药 "@ == "\n\n药剂状态："@ + "救药 "@) by {
        reveal_strlit("\n\n药剂状态：救药 ");
        reveal_strlit("\n\n药剂状态：");
        reveal_strlit("救药 ");
        assert("\n\n药剂状态：救药 "@ =~= "\n\n药剂状态："@ + "救药 "@);
    }
    assert(a + "\n\n药剂状态：救药 "@ + save + " · 毒药 "@ + poison =~= (a + "\n\n药剂状态："@) + want);
    lemma_holds_self(want);
    lemma_holds_side(a + "\n\n药剂状态："@, want, want);
}

proof fn lemma_witch_user(g: GameView, o: Outlook)
    ensures
        holds_part(o.witch_user(g), o.text()),
        holds_part(o.witch_user(g), g.victim_text()),
        holds_part(o.witch_user(g), choices_text(o.other_choices())),
        holds_part(
            o.witch_user(g),
            "救药 "@ + crate::werewolf::llm::potion_text(g.witch_save_used) + " · 毒药 "@
                + crate::werewolf::llm::potion_text(g.witch_poison_used),
        ),
{
    let t = o.text();
    let v = g.victim_text();
    let save = crate::werewolf::llm::potion_text(g.witch_save_used);
    let poison = crate::werewolf::llm::potion_text(g.witch_poison_used);
    let a = t + "\n\n"@ + v;
    let b = a + "\n\n药剂状态：救药 "@ + save + " · 毒药 "@ + poison;
    let title = "\n\n## 毒药候选目标（仅这些 idx 合法）\n"@;
    let c = choices_text(o.other_choices());
    let want = "救药 "@ + save + " · 毒药 "@ + poison;
    lemma_holds_self(t);
    lemma_holds_self(v);
    lemma_holds_self(c);
    lemma_holds_side(t, "\n\n"@, t);
    lemma_holds_side(t + "\n\n"@, v, t);
    lemma_holds_side(t + "\n\n"@, v, v);
    let rest = "\n\n药剂状态：救药 "@ + save + " · 毒药 "@ + poison;
    assert(b =~= a + rest);
    lemma_holds_side(a, rest, t);
    lemma_holds_side(a, rest, v);
    lemma_potions(a, save, poison);
    lemma_holds_side(b, title, t);
    lemma_holds_side(b, title, v);
    lemma_holds_side(b, title, want);
    lemma_holds_side(b + title, c, t);
    lemma_holds_side(b + title, c, v);
    lemma_holds_side(b + title, c, want);
    lemma_holds_side(b + title, c, c);
}

proof fn lemma_choice_listed(cs: Seq<(usize, Seq<char>)>, t: usize)
    requires
        has_key(cs, t),
    ensures
        holds_part(choices_text(cs), decimal_text(t as nat) + " = "@ + get_key(cs, t)->0),
{
    lemma_key_pos(cs, t);
    let k = key_pos(cs, t);
    let lines = cs.map_values(choice_line());
    lemma_joined_holds(lines, "\n"@, k);
    assert(lines[k] == decimal_text(t as nat) + " = "@ + cs[k].1);
}

/// Who is offered is offered by name.
proof fn lemma_offered_name(
    o: Outlook,
    not_me: Option<usize>,
    not_last: Option<usize>,
    only: Option<Seq<usize>>,
    t: usize,
)
    requires
        o.wf(),
        o.players.len() <= usize::MAX,
        has_key(o.choices(not_me, not_last, only), t),
    ensures
        get_key(o.choices(not_me, not_last, only), t) == Some(o.players[t as int].1),
{
    let cs = o.choices(not_me, not_last, only);
    let keep = crate::werewolf::llm::choosable(not_me, not_last, only);
    lemma_key_pos(cs, t);
    let k = key_pos(cs, t);
    let i = crate::seqs::lemma_pick_from(
        o.players,
        keep,
        crate::werewolf::llm::seat_and_name(),
        k,
    );
    assert(o.players[i].0 == i);
}

/// Whom the player may pick is listed in the question by seat and name: the guard anybody alive
/// but the last protected, a wolf anybody alive, the others anybody else alive.
pub proof fn law_question_lists_whom_to_pick(g: GameView, seat: usize, t: usize)
    requires
        g.wf(),
        seat < g.players.len(),
        t < g.players.len(),
        g.players[t as int].alive,
        !g.in_election(),
    ensures
        ({
            let line = decimal_text(t as nat) + " = "@ + g.players[t as int].name;
            let user = |q: Question| question_text(g, seat, q);
            &&& g.last_guard_target != Some(t) ==> g.put(seat, Question::Guard) is Some && holds_part(
                user(Question::Guard),
                line,
            )
            &&& g.put(seat, Question::Wolf { speak: true }) is Some && holds_part(
                user(Question::Wolf { speak: true }),
                line,
            )
            &&& t != seat ==> g.put(seat, Question::Seer) is Some && holds_part(
                user(Question::Seer),
                line,
            )
            &&& t != seat ==> holds_part(user(Question::Witch), line)
            &&& t != seat ==> holds_part(user(Question::Dying), line)
            &&& t != seat ==> g.put(seat, Question::Shoot) is Some && holds_part(
                user(Question::Shoot),
                line,
            )
            &&& t != seat ==> g.put(seat, Question::Badge) is Some && holds_part(
                user(Question::Badge),
                line,
            )
        }),
{
    let o = g.outlook(seat);
    lemma_sees_living(g, seat, t);
    lemma_offered(o, None, g.last_guard_target, None, t);
    lemma_offered(o, None, None, None, t);
    lemma_offered(o, Some(o.me_idx), None, None, t);
    let line = decimal_text(t as nat) + " = "@ + g.players[t as int].name;
    if g.last_guard_target != Some(t) {
        lemma_offered_name(o, None, g.last_guard_target, None, t);
        lemma_not_empty(o.guard_choices(g), t);
        lemma_guard_lists(g, seat, t, line);
    }
    lemma_offered_name(o, None, None, None, t);
    lemma_not_empty(o.living_choices(), t);
    lemma_choice_listed(o.living_choices(), t);
    lemma_wolf_user(g, o);
    lemma_holds_through(o.wolf_user(g), choices_text(o.living_choices()), line);
    if t != seat {
        lemma_offered_name(o, Some(o.me_idx), None, None, t);
        lemma_not_empty(o.other_choices(), t);
        lemma_choice_listed(o.other_choices(), t);
        lemma_witch_user(g, o);
        lemma_holds_through(o.witch_user(g), choices_text(o.other_choices()), line);
        lemma_others_listed(o, "\n\n## 候选目标（仅这些 idx 合法）\n"@, ""@, line);
        lemma_others_listed(o, "\n\n## 候选开枪目标（仅这些 idx 合法，或 -1 不开枪）\n"@, ""@, line);
        lemma_others_listed(o, "\n\n## 候选目标\n"@, "\n-1 = 不开枪"@, line);
        lemma_others_listed(o, "\n\n## 候选接警人\n"@, "\n-1 = 撕毁警徽"@, line);
    }
}

proof fn lemma_others_listed(o: Outlook, title: Seq<char>, last: Seq<char>, line: Seq<char>)
    requires
        holds_part(choices_text(o.other_choices()), line),
    ensures
        holds_part(o.choice_user(title, o.other_choices(), last), line),
{
    lemma_choice_user(o, title, o.other_choices(), last);
    lemma_holds_through(
        o.choice_user(title, o.other_choices(), last),
        choices_text(o.other_choices()),
        line,
    );
}

proof fn lemma_guard_lists(g: GameView, seat: usize, t: usize, line: Seq<char>)
    requires
        ({
            let cs = g.outlook(seat).guard_choices(g);
            has_key(cs, t) && cs.len() > 0 && line == decimal_text(t as nat) + " = "@ + get_key(
                cs,
                t,
            )->0
        }),
    ensures
        g.put(seat, Question::Guard) is Some,
        holds_part(question_text(g, seat, Question::Guard), line),
{
    let o = g.outlook(seat);
    let cs = choices_text(o.guard_choices(g));
    lemma_choice_listed(o.guard_choices(g), t);
    lemma_holds_side(
        o.text() + "\n\n"@ + g.last_guard_text() + "\n\n## 候选目标\n"@,
        cs,
        line,
    );
}

/// The questions of the day tell the player the own role and side.
pub proof fn law_question_tells_the_side(o: Outlook, head: Seq<char>, mid: Seq<char>, task: Seq<char>)
    ensures
        ({
            let system = o.part_with_role(head, mid, task);
            let side = if wolf_role(Some(o.me_role)) {
                "你的阵营是狼。"@
            } else {
                "你的阵营是好人。"@
            };
            &&& holds_part(system, head + role_word(o.me_role) + mid + side)
            &&& holds_part(system, task)
        }),
{
    let side = if wolf_role(Some(o.me_role)) {
        "你的阵营是狼。"@
    } else {
        "你的阵营是好人。"@
    };
    let a = head + role_word(o.me_role) + mid + side;
    let persona = crate::werewolf::llm::persona_text(o.persona);
    let rules = crate::werewolf::prompt_texts::RULES@;
    lemma_front(a, "\n"@);
    lemma_holds_side(a + "\n"@, persona, a);
    lemma_holds_side(a + "\n"@ + persona, "\n\n"@, a);
    lemma_holds_side(a + "\n"@ + persona + "\n\n"@, rules, a);
    lemma_holds_side(a + "\n"@ + persona + "\n\n"@ + rules, task, a);
    lemma_holds_self(task);
    lemma_holds_side(a + "\n"@ + persona + "\n\n"@ + rules, task, task);
}

/// A wolf is told what its fellows have picked and said.
pub proof fn law_wolf_is_told_the_counsel(g: GameView, seat: usize, k: int, m: int, speak: bool)
    requires
        g.put(seat, Question::Wolf { speak }) is Some,
    ensures
        ({
            let user = question_text(g, seat, Question::Wolf { speak });
            &&& 0 <= k < g.wolf_kill_votes.len() && g.wolf_kill_votes[k].0 != seat ==> holds_part(
                user,
                g.players[g.wolf_kill_votes[k].0 as int].name + " 选择杀 "@
                    + g.players[g.wolf_kill_votes[k].1 as int].name,
            )
            &&& 0 <= m < g.wolf_chat.len() ==> holds_part(
                user,
                g.players[g.wolf_chat[m].0 as int].name + ": "@ + g.wolf_chat[m].1,
            )
        }),
{
    let o = g.outlook(seat);
    let user = o.wolf_user(g);
    lemma_wolf_user(g, o);
    if 0 <= k < g.wolf_kill_votes.len() && g.wolf_kill_votes[k].0 != seat {
        let j = lemma_pick_has(g.wolf_kill_votes, others_pick(seat), pick_line(g), k);
        let lines = pick(g.wolf_kill_votes, others_pick(seat), pick_line(g));
        lemma_joined_holds(lines, "\n"@, j);
        lemma_holds_side("队友进度：\n"@, joined(lines, "\n"@), lines[j]);
        lemma_holds_through(user, g.picks_text(seat), lines[j]);
    }
    if 0 <= m < g.wolf_chat.len() {
        let lines = g.wolf_chat.map_values(chat_line(g));
        lemma_joined_holds(lines, "\n"@, m);
        lemma_holds_side("狼频道历史：\n"@, joined(lines, "\n"@), lines[m]);
        lemma_holds_through(user, g.wolf_chat_text(), lines[m]);
    }
}

/// The witch is told who is attacked, and which potions are left.
pub proof fn law_witch_is_asked_with_the_facts(g: GameView, seat: usize)
    ensures
        ({
            let user = question_text(g, seat, Question::Witch);
            let save = if g.witch_save_used {
                "✗ 已用"@
            } else {
                "✓ 可用"@
            };
            let poison = if g.witch_poison_used {
                "✗ 已用"@
            } else {
                "✓ 可用"@
            };
            &&& g.put(seat, Question::Witch) is Some
            &&& g.night_victim is Some ==> holds_part(
                user,
                "今晚狼刀目标："@ + g.players[g.night_victim->0 as int].name,
            )
            &&& g.night_victim is None ==> holds_part(user, "今晚狼人空刀，没人需要救"@)
            &&& holds_part(user, "救药 "@ + save + " · 毒药 "@ + poison)
        }),
{
    lemma_witch_user(g, g.outlook(seat));
}

/// Whatever a model replies, the guard, a wolf and the seer pick somebody whom they may, if there
/// is anybody.
pub proof fn law_answers_are_legal(g: GameView, seat: usize, r: Option<ModelReply>, t: usize)
    requires
        g.wf(),
        seat < g.players.len(),
        t < g.players.len(),
        g.players[t as int].alive,
        !g.in_election(),
    ensures
        g.last_guard_target != Some(t) ==> ({
            let a = g.understood(seat, Question::Guard, r).0->Guard_0;
            a < g.players.len() && g.players[a as int].alive && g.last_guard_target != Some(a)
        }),
        t != seat ==> ({
            let a = g.understood(seat, Question::Seer, r).0->Seer_0;
            a < g.players.len() && g.players[a as int].alive && a != seat
        }),
        ({
            let a = g.understood(seat, Question::Wolf { speak: true }, r).0->Wolf_target;
            a < g.players.len() && g.players[a as int].alive
        }),
{
    let o = g.outlook(seat);
    lemma_sees_living(g, seat, t);
    lemma_offered(o, None, g.last_guard_target, None, t);
    lemma_offered(o, Some(o.me_idx), None, None, t);
    lemma_offered(o, None, None, None, t);
    lemma_not_empty(o.living_choices(), t);
    lemma_entry(o.living_choices(), 0);
    let w = g.understood(seat, Question::Wolf { speak: true }, r).0->Wolf_target;
    assert(has_key(o.living_choices(), w));
    lemma_offered(o, None, None, None, w);
    lemma_sees_living(g, seat, w);
    if g.last_guard_target != Some(t) {
        lemma_not_empty(o.guard_choices(g), t);
        lemma_entry(o.guard_choices(g), 0);
        let a = g.understood(seat, Question::Guard, r).0->Guard_0;
        assert(has_key(o.guard_choices(g), a));
        lemma_offered(o, None, g.last_guard_target, None, a);
        lemma_sees_living(g, seat, a);
    }
    if t != seat {
        let cs = o.other_choices();
        lemma_not_empty(cs, t);
        let i = crate::seqs::first_from(0, cs.len() as int, o.unchecked(cs));
        crate::seqs::lemma_first_from(0, cs.len() as int, o.unchecked(cs));
        lemma_entry(cs, 0);
        if i < cs.len() {
            lemma_entry(cs, i);
        }
        let a = g.understood(seat, Question::Seer, r).0->Seer_0;
        assert(has_key(cs, a));
        lemma_offered(o, Some(o.me_idx), None, None, a);
        lemma_sees_living(g, seat, a);
    }
}

proof fn lemma_entry<V>(cs: Seq<(usize, V)>, i: int)
    requires
        0 <= i < cs.len(),
    ensures
        has_key(cs, cs[i].0),
{
    lemma_key_pos(cs, cs[i].0);
}

/// Without a reply the seer runs for sheriff and nobody else does, a candidate stays, and votes
/// and shots are withheld.
pub proof fn law_silent_model(g: GameView, seat: usize)
    requires
        seat < g.players.len(),
        g.players[seat as int].role is Some,
    ensures
        g.understood(seat, Question::Run, None).0 == AnswerView::Run(
            g.players[seat as int].role == Some(Role::Seer),
        ),
        g.understood(seat, Question::Stay, None).0 == AnswerView::Stay(true),
        g.understood(seat, Question::Vote, None).0 == AnswerView::Vote(None),
        g.understood(seat, Question::Elect, None).0 == AnswerView::Elect(None),
        g.understood(seat, Question::Shoot, None).0 == AnswerView::Shoot(None),
        g.understood(seat, Question::Badge, None).0 == AnswerView::Badge(None),
{
}

/// At each step of the game an AI is asked what is to be decided there; who dies with a shot left
/// is asked for it together with the last words.
pub proof fn law_question_fits_the_stage(g: GameView, seat: usize)
    ensures
        g.stage == Stage::GuardPick ==> g.question(seat) == Some(Question::Guard),
        g.stage == Stage::WolvesPick ==> g.question(seat) is Some && g.question(seat)->0 is Wolf,
        g.stage == Stage::SeerPick ==> g.question(seat) == Some(Question::Seer),
        g.stage == Stage::WitchAct ==> g.question(seat) == Some(Question::Witch),
        g.stage == Stage::SheriffNominate ==> g.question(seat) == Some(Question::Run),
        g.stage == Stage::SheriffSpeech ==> g.question(seat) == Some(Question::SheriffSpeech),
        g.stage == Stage::SheriffWithdraw ==> g.question(seat) == Some(Question::Stay),
        g.stage == Stage::SheriffVote ==> g.question(seat) == Some(Question::Elect),
        g.stage == Stage::SheriffPickDirection ==> g.question(seat) == Some(Question::Direction),
        g.stage == Stage::DaySpeech ==> g.question(seat) == Some(Question::DaySpeech),
        g.stage == Stage::DayVote ==> g.question(seat) == Some(Question::Vote),
        g.stage == Stage::LastWords ==> g.question(seat) == Some(
            if g.pending_hunter == Some(seat) {
                Question::Dying
            } else {
                Question::LastWords
            },
        ),
        g.stage == Stage::HunterShoot ==> g.question(seat) == Some(Question::Shoot),
        g.stage == Stage::BadgePass ==> g.question(seat) == Some(Question::Badge),
        g.stage == Stage::Lobby || g.stage == Stage::Ended || g.stage == Stage::DayReveal
            ==> g.question(seat) is None,
{
}

/// A model that is asked again sees the question first and then each refused answer followed by
/// why it was refused, in order.
pub proof fn law_refusals_follow_in_order(
    system: Seq<char>,
    user: Seq<char>,
    history: Seq<(Seq<char>, Seq<char>)>,
    k: int,
)
    ensures
        ({
            let c = conversation(system, user, history);
            &&& c.len() == 2 + 2 * history.len()
            &&& c[0] == ("system"@, system)
            &&& c[1] == ("user"@, user)
            &&& 0 <= k < history.len() ==> c[2 + 2 * k] == ("assistant"@, history[k].0) && c[3 + 2
                * k].0 == "user"@ && holds_part(c[3 + 2 * k].1, history[k].1)
        }),
    decreases history.len(),
{
    if history.len() > 0 {
        let rest = history.drop_last();
        law_refusals_follow_in_order(system, user, rest, k);
        if k == history.len() - 1 {
            lemma_holds(
                "⚠️ 上面的答案不合法："@,
                history[k].1,
                "\n请基于这个反馈**重新选择一个合法的答案**，仅返回新的 JSON 对象。"@,
            );
        }
    }
}

/// A reply that stands in a fence, with or without the word for JSON, is taken out of it.
pub proof fn law_fence_is_taken_off(x: Seq<char>, word: bool)
    requires
        x.len() > 0,
        !is_white(x[0]),
        !is_white(x.last()),
    ensures
        payload(
            "```"@ + (if word {
                "json"@
            } else {
                ""@
            }) + "\n"@ + x + "\n"@ + "```"@,
        ) == x,
{
    let lang = if word {
        "json"@
    } else {
        ""@
    };
    let s = "```"@ + lang + "\n"@ + x + "\n"@ + "```"@;
    reveal_strlit("```");
    reveal_strlit("json");
    reveal_strlit("");
    reveal_strlit("\n");
    let n = s.len() as int;
    assert(FENCE@ == "```"@);
    assert(s[0] == '`' && s[n - 1] == '`');
    law_bare_text_stays(s);
    assert(s.subrange(0, 3) =~= "```"@);
    let inner = s.subrange(3, n);
    let l = lang.len() as int;
    law_first_place(inner, '\n');
    let p = char_pos(inner, '\n');
    assert(inner[l] == '\n');
    assert forall|i: int| 0 <= i < l implies inner[i] == lang[i] && lang[i] != '\n' by {
        assert(inner[i] == s[3 + i]);
    }
    assert(p == l) by {
        if p < l {
            assert(inner[p] == lang[p]);
        }
    }
    assert(inner.subrange(0, p) =~= lang);
    law_bare_text_stays(lang);
    assert(alike("json"@, "json"@));
    let body = inner.subrange(p + 1, inner.len() as int);
    assert(body =~= x + "\n"@ + "```"@);
    assert(body.last() == '`');
    assert(trimmed_end(body) == body);
    assert(body.subrange(body.len() - 3, body.len() as int) =~= "```"@);
    let left = body.subrange(0, body.len() - 3);
    assert(left =~= x + "\n"@);
    lemma_line_end(x);
}

proof fn lemma_line_end(x: Seq<char>)
    requires
        x.len() > 0,
        !is_white(x[0]),
        !is_white(x.last()),
    ensures
        trimmed(x + "\n"@) == x,
{
    reveal_strlit("\n");
    let t = x + "\n"@;
    assert(t[0] == x[0]);
    assert(t.subrange(0, t.len() - 1) =~= x);
    assert(trimmed_end(x) == x);
    assert(is_white(t[t.len() - 1]));
}

/// A reply without a fence is only trimmed.
pub proof fn law_plain_reply_is_trimmed(s: Seq<char>)
    requires
        !begins(trimmed(s), "```"@),
    ensures
        payload(s) == trimmed(s),
{
}

} // verus!
