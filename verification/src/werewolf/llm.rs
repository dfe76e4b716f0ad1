//! The questions put to a language model for an AI player, and what is made of the
//! replies. A reply that is missing or not allowed leads to a safe default.

use vstd::prelude::*;
use crate::assoc::{find_key, has_key, lemma_key_pos_text};
use crate::persona::Persona;
use crate::seqs::{first_from, holds, lemma_first_is, lemma_map_step, lemma_pick_step,
    lemma_take_ends, pick};
use crate::text::{alike, alike_ignoring_case, begins, begins_with, cat2, cat3, cat4, cat5, cat7, char_pos,
    decimal, decimal_text, ends, ends_with, find_char, join, joined, lowercase, same, trim,
    trim_end, trimmed, trimmed_end, unicode_lowercase};
use crate::werewolf::prompt_texts::{BADGE_HEAD, BADGE_TASK, CAMPAIGN_HEAD, CAMPAIGN_TASK,
    DAY_SPEECH_HEAD, DAY_SPEECH_TASK, DIRECTION_HEAD, DIRECTION_TASK, DYING_HEAD, DYING_TASK,
    ELECT_HEAD, ELECT_TASK, GUARD_HEAD, GUARD_TASK, HUNTER_HEAD, HUNTER_TASK, LAST_WORDS_HEAD,
    LAST_WORDS_TASK, RESOURCES, RULES, RUN_HEAD, RUN_TASK, SEER_HEAD, SEER_TASK, VOTE_HEAD,
    VOTE_TASK, WITCH_HEAD, WITCH_TASK, WOLF_CHAT, WOLF_CHAT_FIELD, WOLF_HEAD, WOLF_REPLY,
    WOLF_REPLY_END, WOLF_TASK};
use crate::werewolf::state::{GameView, WolfGame};
use crate::werewolf::types::Role;
use crate::werewolf::view::{Outlook, PublicView};

verus! {

/// A question: what the model is told of its part, and what it is asked.
#[derive(Debug, Clone)]
pub struct Prompt {
    pub system: String,
    pub user: String,
}

/// Replies that were refused, each with the reason, in order.
pub type AttemptHistory = Vec<(String, String)>;

/// A text without the white space around it, if anything is left.
pub open spec fn nonblank(t: Option<Seq<char>>) -> Option<Seq<char>> {
    match t {
        Some(s) => if trimmed(s).len() == 0 {
            None
        } else {
            Some(trimmed(s))
        },
        None => None,
    }
}

/// A thought without the white space around it; a blank one is none.
pub fn norm_thinking(t: Option<String>) -> (r: Option<String>)
    ensures
        r.deep_view() == nonblank(t.deep_view()),
{
    match t {
        Some(s) => {
            let u = trim(s.as_str());
            if u.is_empty() {
                None
            } else {
                Some(u.to_owned())
            }
        },
        None => None,
    }
}

/// The words with which a refused reply is answered.
pub open spec fn refusal_text(reason: Seq<char>) -> Seq<char> {
    "⚠️ 上面的答案不合法："@ + reason
        + "\n请基于这个反馈**重新选择一个合法的答案**，仅返回新的 JSON 对象。"@
}

/// The conversation up to now: the question, then each refused reply with its refusal.
pub open spec fn conversation(
    system: Seq<char>,
    user: Seq<char>,
    history: Seq<(Seq<char>, Seq<char>)>,
) -> Seq<(Seq<char>, Seq<char>)>
    decreases history.len(),
{
    if history.len() == 0 {
        seq![("system"@, system), ("user"@, user)]
    } else {
        conversation(system, user, history.drop_last()).push(
            ("assistant"@, history.last().0),
        ).push(("user"@, refusal_text(history.last().1)))
    }
}

/// The conversation to put to the model: speakers and what they said.
pub fn chat_with_history(prompt: Prompt, history: &AttemptHistory) -> (r: Vec<(String, String)>)
    ensures
        r.deep_view() == conversation(prompt.system@, prompt.user@, history.deep_view()),
{
    let ghost h = history.deep_view();
    let ghost system = prompt.system@;
    let ghost user = prompt.user@;
    let mut msgs: Vec<(String, String)> = Vec::new();
    msgs.push(("system".to_owned(), prompt.system));
    msgs.push(("user".to_owned(), prompt.user));
    proof {
        lemma_take_ends(h);
        assert(msgs.deep_view() =~= conversation(system, user, h.take(0)));
    }
    let mut i: usize = 0;
    while i < history.len()
        invariant
            i <= history.len(),
            h == history.deep_view(),
            msgs.deep_view() == conversation(system, user, h.take(i as int)),
        decreases history.len() - i,
    {
        let ghost before = msgs.deep_view();
        proof {
            assert(h.take(i + 1).drop_last() =~= h.take(i as int));
            assert(h.take(i + 1).last() == (history@[i as int].0@, history@[i as int].1@));
        }
        msgs.push(("assistant".to_owned(), history[i].0.clone()));
        let reply = cat3(
            "⚠️ 上面的答案不合法：",
            history[i].1.as_str(),
            "\n请基于这个反馈**重新选择一个合法的答案**，仅返回新的 JSON 对象。",
        );
        msgs.push(("user".to_owned(), reply));
        assert(msgs.deep_view() =~= before.push(("assistant"@, h[i as int].0)).push(
            ("user"@, refusal_text(h[i as int].1)),
        ));
        i = i + 1;
    }
    proof {
        lemma_take_ends(h);
    }
    msgs
}

/// How a persona is put to the model.
pub open spec fn persona_text(persona: Option<Persona>) -> Seq<char> {
    match persona {
        Some(p) => RESOURCES@ + "## 你的流派烙印：**"@ + p.label_text() + "**\n"@
            + p.description_text(),
        None => RESOURCES@ + "你没有特定流派，按自己直觉决策。"@,
    }
}

/// How a persona is put to the model.
pub fn persona_line(persona: Option<Persona>) -> (r: String)
    ensures
        r@ == persona_text(persona),
{
    match persona {
        Some(p) => cat5(
            RESOURCES,
            "## 你的流派烙印：**",
            p.label(),
            "**\n",
            p.werewolf_description(),
        ),
        None => cat2(RESOURCES, "你没有特定流派，按自己直觉决策。"),
    }
}

/// The side of a role.
pub open spec fn side_text(role: Role) -> Seq<char> {
    if role.wolfish() {
        "你的阵营是狼。"@
    } else {
        "你的阵营是好人。"@
    }
}

fn side(role: Role) -> (r: &'static str)
    ensures
        r@ == side_text(role),
{
    if role.is_wolf() {
        "你的阵营是狼。"
    } else {
        "你的阵营是好人。"
    }
}

impl Outlook {
    /// The part of a player whose role the beginning names.
    pub open spec fn part(self, head: Seq<char>, task: Seq<char>) -> Seq<char> {
        head + persona_text(self.persona) + "\n\n"@ + RULES@ + task
    }

    /// The part of a player, with its role after the beginning.
    pub open spec fn part_with_role(self, head: Seq<char>, mid: Seq<char>, task: Seq<char>) -> Seq<
        char,
    > {
        (head + self.me_role.label_text() + mid + side_text(self.me_role) + "\n"@) + persona_text(
            self.persona,
        ) + "\n\n"@ + RULES@ + task
    }

    /// The players seen alive that a choice may fall on: not `not_me`, not `not_last`, and
    /// only those in `only`, as far as these are given.
    pub open spec fn choices(
        self,
        not_me: Option<usize>,
        not_last: Option<usize>,
        only: Option<Seq<usize>>,
    ) -> Seq<(usize, Seq<char>)> {
        pick(self.players, choosable(not_me, not_last, only), seat_and_name())
    }

    /// Everybody alive.
    pub open spec fn living_choices(self) -> Seq<(usize, Seq<char>)> {
        self.choices(None, None, None)
    }

    /// Everybody else alive.
    pub open spec fn other_choices(self) -> Seq<(usize, Seq<char>)> {
        self.choices(Some(self.me_idx), None, None)
    }

    /// Everybody alive whom the guard may protect.
    pub open spec fn guard_choices(self, g: GameView) -> Seq<(usize, Seq<char>)> {
        self.choices(None, g.last_guard_target, None)
    }

    /// Everybody else alive who stands in the day vote.
    pub open spec fn vote_choices(self, g: GameView) -> Seq<(usize, Seq<char>)> {
        self.choices(Some(self.me_idx), None, Some(g.vote_candidates()))
    }
}

/// Whether a choice may fall on a listed player.
pub open spec fn choosable(
    not_me: Option<usize>,
    not_last: Option<usize>,
    only: Option<Seq<usize>>,
) -> spec_fn((usize, Seq<char>, bool)) -> bool {
    |p: (usize, Seq<char>, bool)|
        p.2 && not_me != Some(p.0) && not_last != Some(p.0) && (only is None || only->0.contains(
            p.0,
        ))
}

/// The seat and name of a listed player.
pub open spec fn seat_and_name() -> spec_fn((usize, Seq<char>, bool)) -> (usize, Seq<char>) {
    |p: (usize, Seq<char>, bool)| (p.0, p.1)
}

/// A choice as it is put to the model.
pub open spec fn choice_line() -> spec_fn((usize, Seq<char>)) -> Seq<char> {
    |c: (usize, Seq<char>)| decimal_text(c.0 as nat) + " = "@ + c.1
}

/// The choices as they are put to the model, one per line.
pub open spec fn choices_text(cs: Seq<(usize, Seq<char>)>) -> Seq<char> {
    joined(cs.map_values(choice_line()), "\n"@)
}

fn choice_lines(cs: &Vec<(usize, String)>) -> (r: String)
    ensures
        r@ == choices_text(cs.deep_view()),
{
    let ghost d = cs.deep_view();
    let mut lines: Vec<String> = Vec::new();
    let mut i: usize = 0;
    proof {
        assert(lines.deep_view() =~= d.take(0).map_values(choice_line()));
    }
    while i < cs.len()
        invariant
            i <= cs.len(),
            d == cs.deep_view(),
            lines.deep_view() == d.take(i as int).map_values(choice_line()),
        decreases cs.len() - i,
    {
        let ghost before = lines.deep_view();
        proof {
            lemma_map_step(d, choice_line(), i as int);
        }
        let line = cat3(decimal(cs[i].0 as u64).as_str(), " = ", cs[i].1.as_str());
        lines.push(line);
        assert(lines.deep_view() =~= before.push(line@));
        i = i + 1;
    }
    proof {
        lemma_take_ends(d);
    }
    join(&lines, "\n")
}

/// Whether a choice is among those allowed.
fn allowed(cs: &Vec<(usize, String)>, i: usize) -> (r: bool)
    ensures
        r == has_key(cs.deep_view(), i),
{
    proof {
        lemma_key_pos_text(cs@, cs.deep_view(), i);
    }
    find_key(cs, i) < cs.len()
}

/// The seat a reply names, if the number is one of the choices.
pub open spec fn named_seat(cs: Seq<(usize, Seq<char>)>, t: i64) -> Option<usize> {
    if 0 <= t <= usize::MAX && has_key(cs, t as usize) {
        Some(t as usize)
    } else {
        None
    }
}

fn seat_named(cs: &Vec<(usize, String)>, t: i64) -> (r: Option<usize>)
    ensures
        r == named_seat(cs.deep_view(), t),
{
    if t < 0 || t as u64 > usize::MAX as u64 {
        return None;
    }
    let i: usize = t as usize;
    if allowed(cs, i) {
        Some(i)
    } else {
        None
    }
}

impl<'a> PublicView<'a> {
    fn system(&self, head: &str, task: &str) -> (r: String)
        ensures
            r@ == self@.part(head@, task@),
    {
        cat5(head, persona_line(self.persona).as_str(), "\n\n", RULES, task)
    }

    fn system_with_role(&self, head: &str, mid: &str, task: &str) -> (r: String)
        ensures
            r@ == self@.part_with_role(head@, mid@, task@),
    {
        let begin = cat5(head, self.me_role.label(), mid, side(self.me_role), "\n");
        cat5(begin.as_str(), persona_line(self.persona).as_str(), "\n\n", RULES, task)
    }

    /// The players that a choice may fall on.
    pub fn list_choices(
        &self,
        not_me: Option<usize>,
        not_last: Option<usize>,
        only: Option<&Vec<usize>>,
    ) -> (r: Vec<(usize, String)>)
        ensures
            r.deep_view() == self@.choices(
                not_me,
                not_last,
                match only {
                    Some(v) => Some(v@),
                    None => None,
                },
            ),
    {
        let ghost allow = match only {
            Some(v) => Some(v@),
            None => None,
        };
        let ghost keep = choosable(not_me, not_last, allow);
        let ghost ps = self@.players;
        let mut r: Vec<(usize, String)> = Vec::new();
        let mut i: usize = 0;
        proof {
            lemma_take_ends(ps);
            assert(r.deep_view() =~= Seq::empty());
        }
        while i < self.players.len()
            invariant
                i <= self.players.len(),
                ps == self@.players,
                ps.len() == self.players.len(),
                allow == (match only {
                    Some(v) => Some(v@),
                    None => None,
                }),
                keep == choosable(not_me, not_last, allow),
                r.deep_view() == pick(ps.take(i as int), keep, seat_and_name()),
            decreases self.players.len() - i,
        {
            let ghost before = r.deep_view();
            proof {
                lemma_pick_step(ps, keep, seat_and_name(), i as int);
            }
            let seat: usize = self.players[i].0;
            let listed: bool = match only {
                Some(v) => holds(v, seat),
                None => true,
            };
            if self.players[i].2 && not_me != Some(seat) && not_last != Some(seat) && listed {
                r.push((seat, self.players[i].1.clone()));
                assert(r.deep_view() =~= before.push((seat, ps[i as int].1)));
            }
            i = i + 1;
        }
        proof {
            lemma_take_ends(ps);
        }
        r
    }

    fn living(&self) -> (r: Vec<(usize, String)>)
        ensures
            r.deep_view() == self@.living_choices(),
    {
        self.list_choices(None, None, None)
    }

    fn others(&self) -> (r: Vec<(usize, String)>)
        ensures
            r.deep_view() == self@.other_choices(),
    {
        self.list_choices(Some(self.me_idx), None, None)
    }
}

/// A name and what its holder picked.
pub open spec fn pick_line(g: GameView) -> spec_fn((usize, usize)) -> Seq<char> {
    |p: (usize, usize)|
        g.players[p.0 as int].name + " 选择杀 "@ + g.players[p.1 as int].name
}

/// Whether a pick is another wolf's.
pub open spec fn others_pick(me: usize) -> spec_fn((usize, usize)) -> bool {
    |p: (usize, usize)| p.0 != me
}

/// A name and what its holder said.
pub open spec fn chat_line(g: GameView) -> spec_fn((usize, Seq<char>)) -> Seq<char> {
    |c: (usize, Seq<char>)| g.players[c.0 as int].name + ": "@ + c.1
}

impl GameView {
    /// What the other wolves have picked so far.
    pub open spec fn picks_text(self, me: usize) -> Seq<char> {
        let lines = pick(self.wolf_kill_votes, others_pick(me), pick_line(self));
        if lines.len() == 0 {
            "队友尚未提交选择"@
        } else {
            "队友进度：\n"@ + joined(lines, "\n"@)
        }
    }

    /// What the wolves have said to each other tonight.
    pub open spec fn wolf_chat_text(self) -> Seq<char> {
        if self.wolf_chat.len() == 0 {
            "狼频道暂无发言"@
        } else {
            "狼频道历史：\n"@ + joined(self.wolf_chat.map_values(chat_line(self)), "\n"@)
        }
    }

    /// What the witch is told of tonight.
    pub open spec fn victim_text(self) -> Seq<char> {
        match self.night_victim {
            Some(v) => "今晚狼刀目标："@ + self.players[v as int].name,
            None => "今晚狼人空刀，没人需要救"@,
        }
    }

    /// What the guard is told of last night.
    pub open spec fn last_guard_text(self) -> Seq<char> {
        match self.last_guard_target {
            Some(i) => "（昨夜守过："@ + self.players[i as int].name + "，本夜不可再守）"@,
            None => "（首夜，无限制）"@,
        }
    }
}

/// Whether a potion is left.
pub open spec fn potion_text(used: bool) -> Seq<char> {
    if used {
        "✗ 已用"@
    } else {
        "✓ 可用"@
    }
}

/// Whether a potion is left.
pub fn potion(used: bool) -> (r: &'static str)
    ensures
        r@ == potion_text(used),
{
    if used {
        "✗ 已用"
    } else {
        "✓ 可用"
    }
}

impl Outlook {
    /// The part of a wolf.
    pub open spec fn wolf_system(self, speak: bool) -> Seq<char> {
        (self.part(WOLF_HEAD@, WOLF_TASK@) + (if speak {
            WOLF_CHAT@
        } else {
            ""@
        })) + WOLF_REPLY@ + (if speak {
            WOLF_CHAT_FIELD@
        } else {
            ""@
        }) + WOLF_REPLY_END@
    }

    /// The question to a wolf.
    pub open spec fn wolf_user(self, g: GameView) -> Seq<char> {
        self.text() + "\n\n## 候选目标（仅这些 idx 是合法的）\n"@ + choices_text(
            self.living_choices(),
        ) + "\n\n"@ + g.picks_text(self.me_idx) + "\n\n"@ + g.wolf_chat_text()
    }

    /// The question to the witch.
    pub open spec fn witch_user(self, g: GameView) -> Seq<char> {
        (self.text() + "\n\n"@ + g.victim_text() + "\n\n药剂状态：救药 "@ + potion_text(
            g.witch_save_used,
        ) + " · 毒药 "@ + potion_text(g.witch_poison_used)) + "\n\n## 毒药候选目标（仅这些 idx 合法）\n"@
            + choices_text(self.other_choices())
    }

    /// A question with a list of choices under a title, and a last line.
    pub open spec fn choice_user(
        self,
        title: Seq<char>,
        cs: Seq<(usize, Seq<char>)>,
        last: Seq<char>,
    ) -> Seq<char> {
        self.text() + title + choices_text(cs) + last
    }

    /// The check the seer falls back on: the first choice not checked yet, by name, else
    /// the first.
    pub open spec fn seer_fallback(self) -> usize {
        let cs = self.other_choices();
        let i = first_from(0, cs.len() as int, self.unchecked(cs));
        if i < cs.len() {
            cs[i].0
        } else {
            cs[0].0
        }
    }

    /// Whether the name of a choice does not occur among the checks.
    pub open spec fn unchecked(self, cs: Seq<(usize, Seq<char>)>) -> spec_fn(int) -> bool {
        |i: int|
            forall|j: int| 0 <= j < self.seer_log.len() ==> (#[trigger] self.seer_log[j]).1 != cs[i].1
    }

    /// Whom the guard falls back on: the guard itself if allowed, else the first choice.
    pub open spec fn guard_fallback(self, g: GameView) -> usize {
        let cs = self.guard_choices(g);
        if has_key(cs, self.me_idx) {
            self.me_idx
        } else {
            cs[0].0
        }
    }
}

/// A reply to the wolves' question.
#[derive(Debug, Clone)]
pub struct WolfPickResp {
    pub target_idx: usize,
    pub chat: Option<String>,
    pub thinking: Option<String>,
}

/// What an AI wolf does: whom it picks, and what it says to its fellows.
#[derive(Debug, Clone)]
pub struct WolfPickDecision {
    pub target_idx: usize,
    pub chat: Option<String>,
}

/// A reply that names one seat.
#[derive(Debug, Clone)]
pub struct SeatResp {
    pub target_idx: usize,
    pub thinking: Option<String>,
}

/// A reply that names one seat or, by a negative number, none.
#[derive(Debug, Clone)]
pub struct MaybeSeatResp {
    pub target_idx: i64,
    pub thinking: Option<String>,
}

/// A reply of the witch: `save`, `poison` with a seat, or `skip`.
#[derive(Debug, Clone)]
pub struct WitchResp {
    pub action: String,
    pub poison_target_idx: Option<usize>,
    pub thinking: Option<String>,
}

/// A reply that is yes or no.
#[derive(Debug, Clone)]
pub struct YesNoResp {
    pub yes: bool,
    pub thinking: Option<String>,
}

/// A reply that is a speech.
#[derive(Debug, Clone)]
pub struct SpeechResp {
    pub speech: Option<String>,
    pub thinking: Option<String>,
}

/// A reply that is last words with a shot.
#[derive(Debug, Clone)]
pub struct DyingShooterResp {
    pub speech: Option<String>,
    pub target_idx: Option<i64>,
    pub thinking: Option<String>,
}

/// What an AI witch does.
#[derive(Debug, Clone, Copy, PartialEq, Eq, Structural)]
pub enum WitchDecision {
    Save,
    Poison(usize),
    Skip,
}

/// Whom an AI votes for; `None` is an abstention.
#[derive(Debug, Clone, Copy, PartialEq, Eq, Structural)]
pub struct VoteDecision {
    pub target_idx: Option<usize>,
}

/// The last words and the shot of a dying AI, decided together.
#[derive(Debug, Clone)]
pub struct DyingShooterDecision {
    pub speech: String,
    pub target: Option<usize>,
}

/// What the witch's word leads to: saving needs the antidote and a victim, poisoning the
/// poison and an allowed seat; anything else is a pass.
pub open spec fn witch_choice(
    word: Seq<char>,
    seat: Option<usize>,
    cs: Seq<(usize, Seq<char>)>,
    g: GameView,
) -> WitchDecision {
    if word == "save"@ {
        if !g.witch_save_used && g.night_victim is Some {
            WitchDecision::Save
        } else {
            WitchDecision::Skip
        }
    } else if word == "poison"@ && !g.witch_poison_used && seat is Some && has_key(cs, seat->0) {
        WitchDecision::Poison(seat->0)
    } else {
        WitchDecision::Skip
    }
}

/// The question to a wolf; none when nobody can be picked.
pub fn wolf_pick_prompt(view: &PublicView, game: &WolfGame, speak_enabled: bool) -> (r: Option<
    Prompt,
>)
    requires
        view@.wf(),
        game@.wf(),
        game@.in_play(),
    ensures
        r is None <==> view@.living_choices().len() == 0,
        r is Some ==> r->0.system@ == view@.wolf_system(speak_enabled) && r->0.user@
            == view@.wolf_user(game@),
{
    let cs = view.living();
    if cs.len() == 0 {
        return None;
    }
    let mut system = view.system(WOLF_HEAD, WOLF_TASK);
    system.append(
        if speak_enabled {
            WOLF_CHAT
        } else {
            ""
        },
    );
    system.append(WOLF_REPLY);
    system.append(
        if speak_enabled {
            WOLF_CHAT_FIELD
        } else {
            ""
        },
    );
    system.append(WOLF_REPLY_END);
    let user = cat7(
        view.render().as_str(),
        "\n\n## 候选目标（仅这些 idx 是合法的）\n",
        choice_lines(&cs).as_str(),
        "\n\n",
        mates_progress(game, view.me_idx).as_str(),
        "\n\n",
        mates_chat(game).as_str(),
    );
    Some(Prompt { system, user })
}

/// What the other wolves have picked so far.
fn mates_progress(game: &WolfGame, me: usize) -> (r: String)
    requires
        game@.wf(),
        game@.in_play(),
    ensures
        r@ == game@.picks_text(me),
{
    let ghost vs = game@.wolf_kill_votes;
    let mut lines: Vec<String> = Vec::new();
    let mut i: usize = 0;
    proof {
        lemma_take_ends(vs);
        assert(lines.deep_view() =~= Seq::empty());
    }
    while i < game.wolf_kill_votes.len()
        invariant
            game@.wf(),
            game@.in_play(),
            i <= game.wolf_kill_votes.len(),
            vs == game@.wolf_kill_votes,
            lines.deep_view() == pick(vs.take(i as int), others_pick(me), pick_line(game@)),
        decreases game.wolf_kill_votes.len() - i,
    {
        let ghost before = lines.deep_view();
        proof {
            lemma_pick_step(vs, others_pick(me), pick_line(game@), i as int);
        }
        let w: usize = game.wolf_kill_votes[i].0;
        let t: usize = game.wolf_kill_votes[i].1;
        assert(vs[i as int].0 < game@.players.len() && vs[i as int].1 < game@.players.len());
        if w != me {
            let line = cat3(game.players[w].name.as_str(), " 选择杀 ", game.players[t].name.as_str());
            lines.push(line);
            assert(lines.deep_view() =~= before.push(line@));
        }
        i = i + 1;
    }
    proof {
        lemma_take_ends(vs);
    }
    if lines.len() == 0 {
        "队友尚未提交选择".to_owned()
    } else {
        cat2("队友进度：\n", join(&lines, "\n").as_str())
    }
}

/// What the wolves have said to each other tonight.
fn mates_chat(game: &WolfGame) -> (r: String)
    requires
        game@.wf(),
        game@.in_play(),
    ensures
        r@ == game@.wolf_chat_text(),
{
    if game.wolf_chat.len() == 0 {
        return "狼频道暂无发言".to_owned();
    }
    let ghost cs = game@.wolf_chat;
    let mut lines: Vec<String> = Vec::new();
    let mut i: usize = 0;
    proof {
        assert(lines.deep_view() =~= cs.take(0).map_values(chat_line(game@)));
    }
    while i < game.wolf_chat.len()
        invariant
            game@.wf(),
            game@.in_play(),
            i <= game.wolf_chat.len(),
            cs == game@.wolf_chat,
            cs.len() == game.wolf_chat.len(),
            lines.deep_view() == cs.take(i as int).map_values(chat_line(game@)),
        decreases game.wolf_chat.len() - i,
    {
        let ghost before = lines.deep_view();
        proof {
            lemma_map_step(cs, chat_line(game@), i as int);
            assert(cs[i as int].0 < game@.players.len());
        }
        let w: usize = game.wolf_chat[i].0;
        let line = cat3(game.players[w].name.as_str(), ": ", game.wolf_chat[i].1.as_str());
        lines.push(line);
        assert(lines.deep_view() =~= before.push(line@));
        i = i + 1;
    }
    proof {
        lemma_take_ends(cs);
    }
    cat2("狼频道历史：\n", join(&lines, "\n").as_str())
}

/// Whom an AI wolf picks: whom the reply names if allowed, else the first choice. What it
/// says counts only where fellows listen.
pub fn wolf_pick(view: &PublicView, speak_enabled: bool, reply: Option<WolfPickResp>) -> (r: (
    WolfPickDecision,
    Option<String>,
))
    ensures
        ({
            let cs = view@.living_choices();
            if cs.len() == 0 {
                r.0.target_idx == 0 && r.0.chat is None && r.1 is None
            } else {
                match reply {
                    Some(p) => {
                        &&& r.0.target_idx == (if has_key(cs, p.target_idx) {
                            p.target_idx
                        } else {
                            cs[0].0
                        })
                        &&& r.0.chat.deep_view() == (if speak_enabled {
                            nonblank(p.chat.deep_view())
                        } else {
                            None
                        })
                        &&& r.1.deep_view() == nonblank(p.thinking.deep_view())
                    },
                    None => r.0.target_idx == cs[0].0 && r.0.chat is None && r.1 is None,
                }
            }
        }),
{
    let cs = view.living();
    if cs.len() == 0 {
        return (WolfPickDecision { target_idx: 0, chat: None }, None);
    }
    let fallback: usize = cs[0].0;
    match reply {
        Some(p) => {
            let target_idx: usize = if allowed(&cs, p.target_idx) {
                p.target_idx
            } else {
                fallback
            };
            let chat = if speak_enabled {
                norm_thinking(p.chat)
            } else {
                None
            };
            (WolfPickDecision { target_idx, chat }, norm_thinking(p.thinking))
        },
        None => (WolfPickDecision { target_idx: fallback, chat: None }, None),
    }
}

/// The question to the seer; none when nobody can be checked.
pub fn seer_pick_prompt(view: &PublicView) -> (r: Option<Prompt>)
    requires
        view@.wf(),
    ensures
        r is None <==> view@.other_choices().len() == 0,
        r is Some ==> r->0.system@ == view@.part(SEER_HEAD@, SEER_TASK@) && r->0.user@
            == view@.choice_user(
            "\n\n## 候选目标（仅这些 idx 合法）\n"@,
            view@.other_choices(),
            ""@,
        ),
{
    let cs = view.others();
    if cs.len() == 0 {
        return None;
    }
    let user = cat4(
        view.render().as_str(),
        "\n\n## 候选目标（仅这些 idx 合法）\n",
        choice_lines(&cs).as_str(),
        "",
    );
    Some(Prompt { system: view.system(SEER_HEAD, SEER_TASK), user })
}

/// Whether the seer has checked a player of this name.
fn has_checked(view: &PublicView, name: &str) -> (r: bool)
    ensures
        r == exists|j: int|
            0 <= j < view@.seer_log.len() && (#[trigger] view@.seer_log[j]).1 == name@,
{
    let x = name.to_owned();
    let mut j: usize = 0;
    while j < view.seer_log.len()
        invariant
            j <= view.seer_log.len(),
            x@ == name@,
            forall|k: int| 0 <= k < j ==> (#[trigger] view@.seer_log[k]).1 != name@,
        decreases view.seer_log.len() - j,
    {
        if view.seer_log[j].1 == x {
            assert(view@.seer_log[j as int].1 == name@);
            return true;
        }
        j = j + 1;
    }
    false
}

/// Whom an AI seer checks: whom the reply names if allowed, else the first not checked yet.
pub fn seer_pick(view: &PublicView, reply: Option<SeatResp>) -> (r: (usize, Option<String>))
    ensures
        ({
            let cs = view@.other_choices();
            if cs.len() == 0 {
                r.0 == 0 && r.1 is None
            } else {
                match reply {
                    Some(p) => r.0 == (if has_key(cs, p.target_idx) {
                        p.target_idx
                    } else {
                        view@.seer_fallback()
                    }) && r.1.deep_view() == nonblank(p.thinking.deep_view()),
                    None => r.0 == view@.seer_fallback() && r.1 is None,
                }
            }
        }),
{
    let cs = view.others();
    if cs.len() == 0 {
        return (0, None);
    }
    let ghost d = cs.deep_view();
    let mut i: usize = 0;
    while i < cs.len() && has_checked(view, cs[i].1.as_str())
        invariant
            i <= cs.len(),
            d == cs.deep_view(),
            forall|k: int| 0 <= k < i ==> !#[trigger] (view@.unchecked(d))(k),
        decreases cs.len() - i,
    {
        i = i + 1;
    }
    proof {
        lemma_first_is(d.len() as int, view@.unchecked(d), i as int);
    }
    let fallback: usize = if i < cs.len() {
        cs[i].0
    } else {
        cs[0].0
    };
    match reply {
        Some(p) => {
            let t: usize = if allowed(&cs, p.target_idx) {
                p.target_idx
            } else {
                fallback
            };
            (t, norm_thinking(p.thinking))
        },
        None => (fallback, None),
    }
}

/// The question to the witch.
pub fn witch_prompt(view: &PublicView, game: &WolfGame) -> (r: Prompt)
    requires
        view@.wf(),
        game@.wf(),
        game@.in_play(),
    ensures
        r.system@ == view@.part(WITCH_HEAD@, WITCH_TASK@),
        r.user@ == view@.witch_user(game@),
{
    let cs = view.others();
    let victim = match game.night_victim {
        Some(v) => cat2("今晚狼刀目标：", game.players[v].name.as_str()),
        None => "今晚狼人空刀，没人需要救".to_owned(),
    };
    let mut user = cat7(
        view.render().as_str(),
        "\n\n",
        victim.as_str(),
        "\n\n药剂状态：救药 ",
        potion(game.witch_save_used),
        " · 毒药 ",
        potion(game.witch_poison_used),
    );
    user.append("\n\n## 毒药候选目标（仅这些 idx 合法）\n");
    user.append(choice_lines(&cs).as_str());
    Prompt { system: view.system(WITCH_HEAD, WITCH_TASK), user }
}

/// What the witch's word leads to.
pub fn witch_decide_word(
    view: &PublicView,
    game: &WolfGame,
    word: &str,
    seat: Option<usize>,
) -> (r: WitchDecision)
    ensures
        r == witch_choice(word@, seat, view@.other_choices(), game@),
{
    if same(word, "save") {
        if !game.witch_save_used && game.night_victim.is_some() {
            WitchDecision::Save
        } else {
            WitchDecision::Skip
        }
    } else if same(word, "poison") && !game.witch_poison_used {
        let cs = view.others();
        match seat {
            Some(i) => if allowed(&cs, i) {
                WitchDecision::Poison(i)
            } else {
                WitchDecision::Skip
            },
            None => WitchDecision::Skip,
        }
    } else {
        WitchDecision::Skip
    }
}

/// What an AI witch does; without a reply she passes.
pub fn witch_decide(view: &PublicView, game: &WolfGame, reply: Option<WitchResp>) -> (r: (
    WitchDecision,
    Option<String>,
))
    ensures
        match reply {
            Some(p) => r.0 == witch_choice(
                unicode_lowercase(p.action@),
                p.poison_target_idx,
                view@.other_choices(),
                game@,
            ) && r.1.deep_view() == nonblank(p.thinking.deep_view()),
            None => r.0 == WitchDecision::Skip && r.1 is None,
        },
{
    match reply {
        Some(p) => {
            let word = lowercase(p.action.as_str());
            let d = witch_decide_word(view, game, word.as_str(), p.poison_target_idx);
            (d, norm_thinking(p.thinking))
        },
        None => (WitchDecision::Skip, None),
    }
}

/// The question to a voter of the day.
pub fn vote_pick_prompt(view: &PublicView, game: &WolfGame) -> (r: Prompt)
    requires
        view@.wf(),
    ensures
        r.system@ == view@.part_with_role(VOTE_HEAD@, "**。"@, VOTE_TASK@),
        r.user@ == view@.choice_user(
            "\n\n## 候选目标（idx 合法值）\n"@,
            view@.vote_choices(game@),
            "\n-1 = 弃权"@,
        ),
{
    let standing = game.day_vote_candidates();
    let cs = view.list_choices(Some(view.me_idx), None, Some(&standing));
    let user = cat4(
        view.render().as_str(),
        "\n\n## 候选目标（idx 合法值）\n",
        choice_lines(&cs).as_str(),
        "\n-1 = 弃权",
    );
    Prompt { system: view.system_with_role(VOTE_HEAD, "**。", VOTE_TASK), user }
}

/// Whom an AI votes for: whom the reply names if allowed, else nobody.
pub fn vote_pick(view: &PublicView, game: &WolfGame, reply: Option<MaybeSeatResp>) -> (r: (
    VoteDecision,
    Option<String>,
))
    ensures
        match reply {
            Some(p) => r.0.target_idx == named_seat(view@.vote_choices(game@), p.target_idx)
                && r.1.deep_view() == nonblank(p.thinking.deep_view()),
            None => r.0.target_idx is None && r.1 is None,
        },
{
    match reply {
        Some(p) => {
            let standing = game.day_vote_candidates();
            let cs = view.list_choices(Some(view.me_idx), None, Some(&standing));
            let t = seat_named(&cs, p.target_idx);
            (VoteDecision { target_idx: t }, norm_thinking(p.thinking))
        },
        None => (VoteDecision { target_idx: None }, None),
    }
}

/// The question to a dead hunter or wolf king; none when nobody can be shot.
pub fn hunter_pick_prompt(view: &PublicView) -> (r: Option<Prompt>)
    requires
        view@.wf(),
    ensures
        r is None <==> view@.other_choices().len() == 0,
        r is Some ==> r->0.system@ == view@.part_with_role(
            HUNTER_HEAD@,
            "**，刚刚死亡。"@,
            HUNTER_TASK@,
        ) && r->0.user@ == view@.choice_user(
            "\n\n## 候选目标\n"@,
            view@.other_choices(),
            "\n-1 = 不开枪"@,
        ),
{
    let cs = view.others();
    if cs.len() == 0 {
        return None;
    }
    let user = cat4(
        view.render().as_str(),
        "\n\n## 候选目标\n",
        choice_lines(&cs).as_str(),
        "\n-1 = 不开枪",
    );
    Some(
        Prompt {
            system: view.system_with_role(HUNTER_HEAD, "**，刚刚死亡。", HUNTER_TASK),
            user,
        },
    )
}

/// Whom a reply names among the others alive; without one, nobody.
fn other_named(view: &PublicView, reply: Option<MaybeSeatResp>) -> (r: (
    Option<usize>,
    Option<String>,
))
    ensures
        match reply {
            Some(p) => if view@.other_choices().len() == 0 {
                r.0 is None && r.1 is None
            } else {
                r.0 == named_seat(view@.other_choices(), p.target_idx) && r.1.deep_view()
                    == nonblank(p.thinking.deep_view())
            },
            None => r.0 is None && r.1 is None,
        },
{
    let cs = view.others();
    if cs.len() == 0 {
        return (None, None);
    }
    match reply {
        Some(p) => (seat_named(&cs, p.target_idx), norm_thinking(p.thinking)),
        None => (None, None),
    }
}

/// Whom an AI hunter or wolf king shoots: whom the reply names if allowed, else nobody.
pub fn hunter_pick(view: &PublicView, reply: Option<MaybeSeatResp>) -> (r: (
    Option<usize>,
    Option<String>,
))
    ensures
        match reply {
            Some(p) => if view@.other_choices().len() == 0 {
                r.0 is None && r.1 is None
            } else {
                r.0 == named_seat(view@.other_choices(), p.target_idx) && r.1.deep_view()
                    == nonblank(p.thinking.deep_view())
            },
            None => r.0 is None && r.1 is None,
        },
{
    other_named(view, reply)
}

/// The question to the guard; none when nobody can be protected.
pub fn guard_pick_prompt(view: &PublicView, game: &WolfGame) -> (r: Option<Prompt>)
    requires
        view@.wf(),
        game@.wf(),
        game@.in_play(),
    ensures
        r is None <==> view@.guard_choices(game@).len() == 0,
        r is Some ==> r->0.system@ == view@.part(GUARD_HEAD@, GUARD_TASK@) && r->0.user@
            == view@.text() + "\n\n"@ + game@.last_guard_text() + "\n\n## 候选目标\n"@
            + choices_text(view@.guard_choices(game@)),
{
    let cs = view.list_choices(None, game.last_guard_target, None);
    if cs.len() == 0 {
        return None;
    }
    let last = match game.last_guard_target {
        Some(i) => cat3("（昨夜守过：", game.players[i].name.as_str(), "，本夜不可再守）"),
        None => "（首夜，无限制）".to_owned(),
    };
    let user = cat5(
        view.render().as_str(),
        "\n\n",
        last.as_str(),
        "\n\n## 候选目标\n",
        choice_lines(&cs).as_str(),
    );
    Some(Prompt { system: view.system(GUARD_HEAD, GUARD_TASK), user })
}

/// Whom an AI guard protects: whom the reply names if allowed, else itself if allowed,
/// else the first choice.
pub fn guard_pick(view: &PublicView, game: &WolfGame, reply: Option<SeatResp>) -> (r: (
    usize,
    Option<String>,
))
    ensures
        ({
            let cs = view@.guard_choices(game@);
            if cs.len() == 0 {
                r.0 == view@.me_idx && r.1 is None
            } else {
                match reply {
                    Some(p) => r.0 == (if has_key(cs, p.target_idx) {
                        p.target_idx
                    } else {
                        view@.guard_fallback(game@)
                    }) && r.1.deep_view() == nonblank(p.thinking.deep_view()),
                    None => r.0 == view@.guard_fallback(game@) && r.1 is None,
                }
            }
        }),
{
    let cs = view.list_choices(None, game.last_guard_target, None);
    if cs.len() == 0 {
        return (view.me_idx, None);
    }
    let fallback: usize = if allowed(&cs, view.me_idx) {
        view.me_idx
    } else {
        cs[0].0
    };
    match reply {
        Some(p) => {
            let t: usize = if allowed(&cs, p.target_idx) {
                p.target_idx
            } else {
                fallback
            };
            (t, norm_thinking(p.thinking))
        },
        None => (fallback, None),
    }
}

/// The question whether to run for sheriff.
pub fn sheriff_run_prompt(view: &PublicView) -> (r: Prompt)
    requires
        view@.wf(),
    ensures
        r.system@ == view@.part_with_role(RUN_HEAD@, "**。"@, RUN_TASK@),
        r.user@ == view@.text(),
{
    Prompt { system: view.system_with_role(RUN_HEAD, "**。", RUN_TASK), user: view.render() }
}

/// Whether an AI runs for sheriff; without a reply the seer does and nobody else.
pub fn sheriff_run(view: &PublicView, reply: Option<YesNoResp>) -> (r: (bool, Option<String>))
    ensures
        match reply {
            Some(p) => r.0 == p.yes && r.1.deep_view() == nonblank(p.thinking.deep_view()),
            None => r.0 == (view@.me_role == Role::Seer) && r.1 is None,
        },
{
    match reply {
        Some(p) => (p.yes, norm_thinking(p.thinking)),
        None => (view.me_role == Role::Seer, None),
    }
}

/// The question to an elector; none when there is no candidate.
pub fn sheriff_vote_prompt(view: &PublicView, candidates: &Vec<(usize, String)>) -> (r: Option<
    Prompt,
>)
    requires
        view@.wf(),
    ensures
        r is None <==> candidates.len() == 0,
        r is Some ==> r->0.system@ == view@.part_with_role(ELECT_HEAD@, "**。"@, ELECT_TASK@)
            && r->0.user@ == view@.choice_user(
            "\n\n## 警长候选人（仅这些 idx 合法）\n"@,
            candidates.deep_view(),
            ""@,
        ),
{
    if candidates.len() == 0 {
        return None;
    }
    let user = cat4(
        view.render().as_str(),
        "\n\n## 警长候选人（仅这些 idx 合法）\n",
        choice_lines(candidates).as_str(),
        "",
    );
    Some(Prompt { system: view.system_with_role(ELECT_HEAD, "**。", ELECT_TASK), user })
}

/// Whom an AI elects: whom the reply names if a candidate, else nobody.
pub fn sheriff_vote(candidates: &Vec<(usize, String)>, reply: Option<MaybeSeatResp>) -> (r: (
    Option<usize>,
    Option<String>,
))
    ensures
        match reply {
            Some(p) => if candidates.len() == 0 {
                r.0 is None && r.1 is None
            } else {
                r.0 == named_seat(candidates.deep_view(), p.target_idx) && r.1.deep_view()
                    == nonblank(p.thinking.deep_view())
            },
            None => r.0 is None && r.1 is None,
        },
{
    if candidates.len() == 0 {
        return (None, None);
    }
    match reply {
        Some(p) => (seat_named(candidates, p.target_idx), norm_thinking(p.thinking)),
        None => (None, None),
    }
}

/// The question to a dead sheriff; none when nobody can have the badge.
pub fn badge_pass_prompt(view: &PublicView) -> (r: Option<Prompt>)
    requires
        view@.wf(),
    ensures
        r is None <==> view@.other_choices().len() == 0,
        r is Some ==> r->0.system@ == view@.part_with_role(BADGE_HEAD@, "**。"@, BADGE_TASK@)
            && r->0.user@ == view@.choice_user(
            "\n\n## 候选接警人\n"@,
            view@.other_choices(),
            "\n-1 = 撕毁警徽"@,
        ),
{
    let cs = view.others();
    if cs.len() == 0 {
        return None;
    }
    let user = cat4(
        view.render().as_str(),
        "\n\n## 候选接警人\n",
        choice_lines(&cs).as_str(),
        "\n-1 = 撕毁警徽",
    );
    Some(Prompt { system: view.system_with_role(BADGE_HEAD, "**。", BADGE_TASK), user })
}

/// To whom a dead AI sheriff gives the badge: whom the reply names if allowed, else nobody.
pub fn badge_pass(view: &PublicView, reply: Option<MaybeSeatResp>) -> (r: (
    Option<usize>,
    Option<String>,
))
    ensures
        match reply {
            Some(p) => if view@.other_choices().len() == 0 {
                r.0 is None && r.1 is None
            } else {
                r.0 == named_seat(view@.other_choices(), p.target_idx) && r.1.deep_view()
                    == nonblank(p.thinking.deep_view())
            },
            None => r.0 is None && r.1 is None,
        },
{
    other_named(view, reply)
}

/// The question to a candidate who is to speak.
pub fn sheriff_speech_prompt(view: &PublicView) -> (r: Prompt)
    requires
        view@.wf(),
    ensures
        r.system@ == view@.part_with_role(CAMPAIGN_HEAD@, "**。"@, CAMPAIGN_TASK@),
        r.user@ == view@.text(),
{
    Prompt {
        system: view.system_with_role(CAMPAIGN_HEAD, "**。", CAMPAIGN_TASK),
        user: view.render(),
    }
}

/// What an AI candidate says, with a default for a blank reply and one for no reply.
pub fn sheriff_speech(reply: Option<SpeechResp>) -> (r: (String, Option<String>))
    ensures
        match reply {
            Some(p) => r.0@ == (match nonblank(p.speech.deep_view()) {
                Some(s) => s,
                None => "我支持平和过渡，先听其他玩家。"@,
            }) && r.1.deep_view() == nonblank(p.thinking.deep_view()),
            None => r.0@ == "我先表态。"@ && r.1 is None,
        },
{
    match reply {
        Some(p) => {
            let speech = match norm_thinking(p.speech) {
                Some(s) => s,
                None => "我支持平和过渡，先听其他玩家。".to_owned(),
            };
            (speech, norm_thinking(p.thinking))
        },
        None => ("我先表态。".to_owned(), None),
    }
}

/// The question to a sheriff who is to pick the direction.
pub fn sheriff_direction_prompt(view: &PublicView) -> (r: Prompt)
    requires
        view@.wf(),
    ensures
        r.system@ == view@.part_with_role(DIRECTION_HEAD@, "**。"@, DIRECTION_TASK@),
        r.user@ == view@.text(),
{
    Prompt {
        system: view.system_with_role(DIRECTION_HEAD, "**。", DIRECTION_TASK),
        user: view.render(),
    }
}

/// The direction an AI sheriff picks; without a reply upward.
pub fn sheriff_direction(reply: Option<YesNoResp>) -> (r: (bool, Option<String>))
    ensures
        match reply {
            Some(p) => r.0 == p.yes && r.1.deep_view() == nonblank(p.thinking.deep_view()),
            None => r.0 && r.1 is None,
        },
{
    match reply {
        Some(p) => (p.yes, norm_thinking(p.thinking)),
        None => (true, None),
    }
}

/// What a speech comes to: the text without white space around it, or silence.
pub open spec fn said(reply: Option<Seq<char>>) -> Seq<char> {
    match nonblank(reply) {
        Some(s) => s,
        None => ""@,
    }
}

/// The speech of a reply and its thought.
fn plain_speech(reply: Option<SpeechResp>) -> (r: (String, Option<String>))
    ensures
        match reply {
            Some(p) => r.0@ == said(p.speech.deep_view()) && r.1.deep_view() == nonblank(
                p.thinking.deep_view(),
            ),
            None => r.0@ == ""@ && r.1 is None,
        },
{
    match reply {
        Some(p) => {
            let speech = match norm_thinking(p.speech) {
                Some(s) => s,
                None => "".to_owned(),
            };
            (speech, norm_thinking(p.thinking))
        },
        None => ("".to_owned(), None),
    }
}

/// The question to a dead player.
pub fn last_words_prompt(view: &PublicView) -> (r: Prompt)
    requires
        view@.wf(),
    ensures
        r.system@ == view@.part_with_role(LAST_WORDS_HEAD@, "**。"@, LAST_WORDS_TASK@),
        r.user@ == view@.text(),
{
    Prompt {
        system: view.system_with_role(LAST_WORDS_HEAD, "**。", LAST_WORDS_TASK),
        user: view.render(),
    }
}

/// The last words of an AI; without a reply none.
pub fn last_words(reply: Option<SpeechResp>) -> (r: (String, Option<String>))
    ensures
        match reply {
            Some(p) => r.0@ == said(p.speech.deep_view()) && r.1.deep_view() == nonblank(
                p.thinking.deep_view(),
            ),
            None => r.0@ == ""@ && r.1 is None,
        },
{
    plain_speech(reply)
}

/// The question to a dead hunter or wolf king, for last words and shot together.
pub fn dying_hunter_prompt(view: &PublicView) -> (r: Prompt)
    requires
        view@.wf(),
    ensures
        r.system@ == view@.part_with_role(DYING_HEAD@, "**，刚刚死亡。"@, DYING_TASK@),
        r.user@ == view@.choice_user(
            "\n\n## 候选开枪目标（仅这些 idx 合法，或 -1 不开枪）\n"@,
            view@.other_choices(),
            ""@,
        ),
{
    let cs = view.others();
    let user = cat4(
        view.render().as_str(),
        "\n\n## 候选开枪目标（仅这些 idx 合法，或 -1 不开枪）\n",
        choice_lines(&cs).as_str(),
        "",
    );
    Prompt { system: view.system_with_role(DYING_HEAD, "**，刚刚死亡。", DYING_TASK), user }
}

/// The last words and the shot of a dying AI; without a reply neither.
pub fn dying_hunter_combined(view: &PublicView, reply: Option<DyingShooterResp>) -> (r: (
    DyingShooterDecision,
    Option<String>,
))
    ensures
        match reply {
            Some(p) => {
                &&& r.0.speech@ == said(p.speech.deep_view())
                &&& r.0.target == (match p.target_idx {
                    Some(t) => named_seat(view@.other_choices(), t),
                    None => None,
                })
                &&& r.1.deep_view() == nonblank(p.thinking.deep_view())
            },
            None => r.0.speech@ == ""@ && r.0.target is None && r.1 is None,
        },
{
    match reply {
        Some(p) => {
            let cs = view.others();
            let speech = match norm_thinking(p.speech) {
                Some(s) => s,
                None => "".to_owned(),
            };
            let target = match p.target_idx {
                Some(t) => seat_named(&cs, t),
                None => None,
            };
            (DyingShooterDecision { speech, target }, norm_thinking(p.thinking))
        },
        None => (DyingShooterDecision { speech: "".to_owned(), target: None }, None),
    }
}

/// The question to a player who is to speak.
pub fn day_speech_prompt(view: &PublicView) -> (r: Prompt)
    requires
        view@.wf(),
    ensures
        r.system@ == view@.part_with_role(DAY_SPEECH_HEAD@, "**。"@, DAY_SPEECH_TASK@),
        r.user@ == view@.text(),
{
    Prompt {
        system: view.system_with_role(DAY_SPEECH_HEAD, "**。", DAY_SPEECH_TASK),
        user: view.render(),
    }
}

/// What an AI says during the day; without a reply nothing.
pub fn day_speech(reply: Option<SpeechResp>) -> (r: (String, Option<String>))
    ensures
        match reply {
            Some(p) => r.0@ == said(p.speech.deep_view()) && r.1.deep_view() == nonblank(
                p.thinking.deep_view(),
            ),
            None => r.0@ == ""@ && r.1 is None,
        },
{
    plain_speech(reply)
}

/// The mark of a fenced block.
pub const FENCE: &'static str = "```";

/// What a reply holds once a fence around it is taken off. Only a fence without a
/// language, or with the language `json`, that is closed at the end counts.
pub open spec fn payload(s: Seq<char>) -> Seq<char> {
    let t = trimmed(s);
    if !begins(t, FENCE@) {
        t
    } else {
        let inner = t.subrange(FENCE@.len() as int, t.len() as int);
        let p = char_pos(inner, '\n');
        if p >= inner.len() {
            t
        } else {
            let language = trimmed(inner.subrange(0, p));
            let body = trimmed_end(inner.subrange(p + 1, inner.len() as int));
            if (language.len() > 0 && !alike(language, "json"@)) || !ends(body, FENCE@) {
                t
            } else {
                trimmed(body.subrange(0, body.len() - FENCE@.len()))
            }
        }
    }
}

/// The JSON text of a reply, without a fence around it.
pub fn json_payload<'a>(s: &'a str) -> (r: &'a str)
    ensures
        r@ == payload(s@),
{
    let t = trim(s);
    if !begins_with(t, FENCE) {
        return t;
    }
    let k: usize = FENCE.unicode_len();
    let inner = t.substring_char(k, t.unicode_len());
    let n: usize = inner.unicode_len();
    let p: usize = find_char(inner, '\n');
    if p >= n {
        return t;
    }
    let language = trim(inner.substring_char(0, p));
    let body = trim_end(inner.substring_char(p + 1, n));
    if !language.is_empty() && !alike_ignoring_case(language, "json") {
        return t;
    }
    if !ends_with(body, FENCE) {
        return t;
    }
    trim(body.substring_char(0, body.unicode_len() - k))
}

} // verus!
