//! What comes of the answers of the AI players.

use vstd::prelude::*;
use crate::seqs::{first_where, lemma_first_is};
use crate::text::{cat2, cat3, cat5, decimal, decimal_text};
use crate::werewolf::actions::{Action, ActionView, Outcome};
use crate::werewolf::flow::lemma_some_start;
use crate::werewolf::laws::kept;
use crate::werewolf::llm::WitchDecision;
use crate::werewolf::state::{GameView, WolfGame};
use crate::werewolf::table::{follows_with, seat_ok};
use crate::werewolf::types::Stage;

verus! {

/// How often an AI is asked before somebody else decides for it.
pub const MAX_ATTEMPTS: usize = 3;

/// What an AI player has decided. Others are named by their seats.
#[derive(Debug)]
pub enum Answer {
    Guard(usize),
    Seer(usize),
    Wolf { target: usize, chat: Option<String> },
    Witch(WitchDecision),
    Run(bool),
    Stay(bool),
    Elect(Option<usize>),
    Vote(Option<usize>),
    Badge(Option<usize>),
    Shoot(Option<usize>),
    Direction(bool),
    SheriffSpeech(String),
    DaySpeech(String),
    LastWords(String),
    Dying { speech: String, target: Option<usize> },
}

/// What an AI player has decided.
pub enum AnswerView {
    Guard(usize),
    Seer(usize),
    Wolf { target: usize, chat: Option<Seq<char>> },
    Witch(WitchDecision),
    Run(bool),
    Stay(bool),
    Elect(Option<usize>),
    Vote(Option<usize>),
    Badge(Option<usize>),
    Shoot(Option<usize>),
    Direction(bool),
    SheriffSpeech(Seq<char>),
    DaySpeech(Seq<char>),
    LastWords(Seq<char>),
    Dying { speech: Seq<char>, target: Option<usize> },
}

impl DeepView for Answer {
    type V = AnswerView;

    open spec fn deep_view(&self) -> AnswerView {
        match *self {
            Answer::Guard(t) => AnswerView::Guard(t),
            Answer::Seer(t) => AnswerView::Seer(t),
            Answer::Wolf { target, chat } => AnswerView::Wolf { target, chat: chat.deep_view() },
            Answer::Witch(d) => AnswerView::Witch(d),
            Answer::Run(b) => AnswerView::Run(b),
            Answer::Stay(b) => AnswerView::Stay(b),
            Answer::Elect(t) => AnswerView::Elect(t),
            Answer::Vote(t) => AnswerView::Vote(t),
            Answer::Badge(t) => AnswerView::Badge(t),
            Answer::Shoot(t) => AnswerView::Shoot(t),
            Answer::Direction(b) => AnswerView::Direction(b),
            Answer::SheriffSpeech(s) => AnswerView::SheriffSpeech(s@),
            Answer::DaySpeech(s) => AnswerView::DaySpeech(s@),
            Answer::LastWords(s) => AnswerView::LastWords(s@),
            Answer::Dying { speech, target } => AnswerView::Dying { speech: speech@, target },
        }
    }
}

/// A seat as a signed number.
pub open spec fn signed_text(t: usize) -> Seq<char> {
    if t <= i64::MAX {
        decimal_text(t as nat)
    } else {
        "-"@ + decimal_text((0x1_0000_0000_0000_0000 - t) as nat)
    }
}

/// How an answer with a seat is shown to who gave it.
pub open spec fn seat_repr(text: Seq<char>) -> Seq<char> {
    "{\"target_idx\": "@ + text + "}"@
}

/// How an answer with a seat or none is shown to who gave it.
pub open spec fn choice_repr(o: Option<usize>) -> Seq<char> {
    seat_repr(
        match o {
            Some(t) => signed_text(t),
            None => "-1"@,
        },
    )
}

/// A text with single quotes for double ones.
pub open spec fn requoted(s: Seq<char>) -> Seq<char> {
    s.map_values(
        |c: char|
            if c == '"' {
                '\''
            } else {
                c
            },
    )
}

impl AnswerView {
    /// How a refused answer is shown to who gave it.
    pub open spec fn repr(self) -> Seq<char> {
        match self {
            AnswerView::Guard(t) => seat_repr(decimal_text(t as nat)),
            AnswerView::Seer(t) => seat_repr(decimal_text(t as nat)),
            AnswerView::Wolf { target, .. } => seat_repr(decimal_text(target as nat)),
            AnswerView::Witch(d) => match d {
                WitchDecision::Save => "{\"action\": \"save\"}"@,
                WitchDecision::Poison(t) => "{\"action\": \"poison\", \"poison_target_idx\": "@
                    + decimal_text(t as nat) + "}"@,
                WitchDecision::Skip => "{\"action\": \"skip\"}"@,
            },
            AnswerView::Elect(o) => choice_repr(o),
            AnswerView::Vote(o) => choice_repr(o),
            AnswerView::Badge(o) => choice_repr(o),
            AnswerView::Shoot(o) => choice_repr(o),
            AnswerView::Dying { speech, target } => match target {
                Some(t) => "{\"speech\": \""@ + requoted(speech) + "\", \"target_idx\": "@
                    + decimal_text(t as nat) + "}"@,
                None => Seq::empty(),
            },
            _ => Seq::empty(),
        }
    }

    /// Whether a refused answer is asked for again.
    pub open spec fn retried(self) -> bool {
        match self {
            AnswerView::Run(_) => false,
            AnswerView::Stay(_) => false,
            AnswerView::Direction(_) => false,
            AnswerView::SheriffSpeech(_) => false,
            AnswerView::DaySpeech(_) => false,
            AnswerView::LastWords(_) => false,
            _ => true,
        }
    }

    /// Whether the answer poisons a seat of a table of `n`, if it poisons at all.
    pub open spec fn poisons_seat(self, n: nat) -> bool {
        self matches AnswerView::Witch(WitchDecision::Poison(t)) ==> t < n
    }
}

impl GameView {
    /// The open id of a seat.
    pub open spec fn id_at(self, t: usize) -> Seq<char> {
        self.players[t as int].open_id
    }

    /// The open id of a seat, if it is a seat of the table.
    pub open spec fn id_of(self, o: Option<usize>) -> Option<Seq<char>> {
        match o {
            Some(t) => if t < self.players.len() {
                Some(self.id_at(t))
            } else {
                None
            },
            None => None,
        }
    }

    /// Whether a dying player may shoot at a seat.
    pub open spec fn may_hit(self, seat: usize, t: usize) -> bool {
        t < self.players.len() && self.players[t as int].alive && t != seat
    }

    /// The action that an answer means, or why it means none.
    pub open spec fn meant(self, seat: usize, a: AnswerView) -> Result<ActionView, Seq<char>> {
        match a {
            AnswerView::Guard(t) => if t < self.players.len() {
                Ok(ActionView::GuardPick(self.id_at(t)))
            } else {
                Err("idx "@ + decimal_text(t as nat) + " 越界，玩家不存在"@)
            },
            AnswerView::Seer(t) => if t < self.players.len() {
                Ok(ActionView::SeerCheck(self.id_at(t)))
            } else {
                Err("idx "@ + decimal_text(t as nat) + " 越界"@)
            },
            AnswerView::Wolf { target, .. } => if target < self.players.len() {
                Ok(ActionView::WolfPick(self.id_at(target)))
            } else {
                Err("idx "@ + decimal_text(target as nat) + " 越界"@)
            },
            AnswerView::Witch(d) => match d {
                WitchDecision::Save => Ok(ActionView::Witch { save: true, poison: None }),
                WitchDecision::Poison(t) => Ok(
                    ActionView::Witch { save: false, poison: Some(self.id_at(t)) },
                ),
                WitchDecision::Skip => Ok(ActionView::Witch { save: false, poison: None }),
            },
            AnswerView::Run(b) => Ok(ActionView::Nominate(b)),
            AnswerView::Stay(b) => Ok(ActionView::Stay(b)),
            AnswerView::Elect(o) => Ok(ActionView::Elect(self.id_of(o))),
            AnswerView::Vote(o) => Ok(ActionView::Vote(self.id_of(o))),
            AnswerView::Badge(o) => Ok(ActionView::Badge(self.id_of(o))),
            AnswerView::Shoot(o) => Ok(ActionView::Shoot(self.id_of(o))),
            AnswerView::Direction(b) => Ok(ActionView::Direction(b)),
            AnswerView::SheriffSpeech(s) => Ok(ActionView::SheriffSpeech(s)),
            AnswerView::DaySpeech(s) => Ok(ActionView::DaySpeech(s)),
            AnswerView::LastWords(s) => Ok(ActionView::LastWords(s)),
            AnswerView::Dying { speech, target } => match target {
                Some(t) => if self.may_hit(seat, t) {
                    Ok(ActionView::LastWords(speech))
                } else {
                    Err(
                        "idx "@ + decimal_text(t as nat)
                            + " 不是合法目标（必须是存活的非自己玩家）"@,
                    )
                },
                None => Ok(ActionView::LastWords(speech)),
            },
        }
    }

    /// An AI wolf with a human fellow says what it has to say and confirms.
    pub open spec fn wolf_confirmed(self, seat: usize, chat: Option<Seq<char>>) -> GameView {
        if self.human_wolves().len() == 0 {
            self
        } else {
            let g = match chat {
                Some(m) => kept(self, self.wolf_say(self.id_at(seat), m)),
                None => self,
            };
            kept(g, g.wolf_mark_ready(self.id_at(seat)))
        }
    }

    /// What else an answer does once its action is done.
    pub open spec fn after_answer(self, seat: usize, a: AnswerView) -> GameView {
        match a {
            AnswerView::Wolf { chat, .. } => self.wolf_confirmed(seat, chat),
            AnswerView::Dying { target, .. } => GameView {
                pending_hunter_ai_decision: Some(target),
                ..self
            },
            _ => self,
        }
    }

    /// What comes of an answer: the table and what is told, or why it is refused.
    pub open spec fn answered(self, seat: usize, a: AnswerView, start: usize) -> Result<
        (GameView, Outcome),
        Seq<char>,
    > {
        match self.meant(seat, a) {
            Err(reason) => Err(reason),
            Ok(m) => match self.tried(self.id_at(seat), m, start) {
                Err(e) => Err(e.text()),
                Ok(p) => Ok((p.0.after_answer(seat, a), p.1)),
            },
        }
    }
}

fn signed(t: usize) -> (r: String)
    ensures
        r@ == signed_text(t),
{
    let x: u64 = t as u64;
    if x <= 0x7fff_ffff_ffff_ffff {
        decimal(x)
    } else {
        cat2("-", decimal((u64::MAX - x) + 1).as_str())
    }
}

fn show_seat(t: usize) -> (r: String)
    ensures
        r@ == seat_repr(decimal_text(t as nat)),
{
    cat3("{\"target_idx\": ", decimal(t as u64).as_str(), "}")
}

fn show_choice(o: Option<usize>) -> (r: String)
    ensures
        r@ == choice_repr(o),
{
    match o {
        Some(t) => cat3("{\"target_idx\": ", signed(t).as_str(), "}"),
        None => cat3("{\"target_idx\": ", "-1", "}"),
    }
}

fn requote(s: &str) -> (r: String)
    ensures
        r@ == requoted(s@),
{
    let ghost f = |c: char|
        if c == '"' {
            '\''
        } else {
            c
        };
    let n: usize = s.unicode_len();
    let mut r = String::new();
    let mut i: usize = 0;
    assert(r@ =~= s@.take(0).map_values(f));
    while i < n
        invariant
            i <= n,
            n == s@.len(),
            f == (|c: char|
                if c == '"' {
                    '\''
                } else {
                    c
                }),
            r@ == s@.take(i as int).map_values(f),
        decreases n - i,
    {
        proof {
            reveal_strlit("'");
            crate::seqs::lemma_map_step(s@, f, i as int);
        }
        let ghost before = r@;
        let c = s.get_char(i);
        if c == '"' {
            r.append("'");
            assert(r@ =~= before.push(f(c)));
        } else {
            r.append(s.substring_char(i, i + 1));
            assert(r@ =~= before.push(f(c)));
        }
        i = i + 1;
    }
    assert(s@.take(n as int) =~= s@);
    assert(requoted(s@) =~= s@.map_values(f));
    r
}

impl Answer {
    /// How a refused answer is shown to who gave it.
    pub fn repr(&self) -> (r: String)
        ensures
            r@ == self.deep_view().repr(),
    {
        match self {
            Answer::Guard(t) => show_seat(*t),
            Answer::Seer(t) => show_seat(*t),
            Answer::Wolf { target, .. } => show_seat(*target),
            Answer::Witch(d) => match d {
                WitchDecision::Save => "{\"action\": \"save\"}".to_owned(),
                WitchDecision::Poison(t) => cat3(
                    "{\"action\": \"poison\", \"poison_target_idx\": ",
                    decimal(*t as u64).as_str(),
                    "}",
                ),
                WitchDecision::Skip => "{\"action\": \"skip\"}".to_owned(),
            },
            Answer::Elect(o) => show_choice(*o),
            Answer::Vote(o) => show_choice(*o),
            Answer::Badge(o) => show_choice(*o),
            Answer::Shoot(o) => show_choice(*o),
            Answer::Dying { speech, target } => match target {
                Some(t) => cat5(
                    "{\"speech\": \"",
                    requote(speech.as_str()).as_str(),
                    "\", \"target_idx\": ",
                    decimal(*t as u64).as_str(),
                    "}",
                ),
                None => String::new(),
            },
            _ => String::new(),
        }
    }

    /// Whether a refused answer is asked for again.
    pub fn retried(&self) -> (r: bool)
        ensures
            r == self.deep_view().retried(),
    {
        match self {
            Answer::Run(_) => false,
            Answer::Stay(_) => false,
            Answer::Direction(_) => false,
            Answer::SheriffSpeech(_) => false,
            Answer::DaySpeech(_) => false,
            Answer::LastWords(_) => false,
            _ => true,
        }
    }
}

/// The view of a meaning.
pub open spec fn meaning(m: Result<Action, String>) -> Result<ActionView, Seq<char>> {
    match m {
        Ok(a) => Ok(a.deep_view()),
        Err(e) => Err(e@),
    }
}

impl WolfGame {
    fn copy_id(&self, o: Option<usize>) -> (r: Option<String>)
        ensures
            r.deep_view() == self@.id_of(o),
    {
        match o {
            Some(t) => if t < self.players.len() {
                Some(self.players[t].open_id.clone())
            } else {
                None
            },
            None => None,
        }
    }

    /// The action that an answer means, or why it means none.
    pub fn meant(&self, seat: usize, answer: &Answer) -> (r: Result<Action, String>)
        requires
            answer.deep_view().poisons_seat(self@.players.len()),
        ensures
            meaning(r) == self@.meant(seat, answer.deep_view()),
    {
        match answer {
            Answer::Guard(t) => if *t < self.players.len() {
                Ok(Action::GuardPick(self.players[*t].open_id.clone()))
            } else {
                Err(cat3("idx ", decimal(*t as u64).as_str(), " 越界，玩家不存在"))
            },
            Answer::Seer(t) => if *t < self.players.len() {
                Ok(Action::SeerCheck(self.players[*t].open_id.clone()))
            } else {
                Err(cat3("idx ", decimal(*t as u64).as_str(), " 越界"))
            },
            Answer::Wolf { target, .. } => if *target < self.players.len() {
                Ok(Action::WolfPick(self.players[*target].open_id.clone()))
            } else {
                Err(cat3("idx ", decimal(*target as u64).as_str(), " 越界"))
            },
            Answer::Witch(d) => match d {
                WitchDecision::Save => Ok(Action::Witch { save: true, poison: None }),
                WitchDecision::Poison(t) => Ok(
                    Action::Witch { save: false, poison: Some(self.players[*t].open_id.clone()) },
                ),
                WitchDecision::Skip => Ok(Action::Witch { save: false, poison: None }),
            },
            Answer::Run(b) => Ok(Action::Nominate(*b)),
            Answer::Stay(b) => Ok(Action::Stay(*b)),
            Answer::Elect(o) => Ok(Action::Elect(self.copy_id(*o))),
            Answer::Vote(o) => Ok(Action::Vote(self.copy_id(*o))),
            Answer::Badge(o) => Ok(Action::Badge(self.copy_id(*o))),
            Answer::Shoot(o) => Ok(Action::Shoot(self.copy_id(*o))),
            Answer::Direction(b) => Ok(Action::Direction(*b)),
            Answer::SheriffSpeech(s) => Ok(Action::SheriffSpeech(s.clone())),
            Answer::DaySpeech(s) => Ok(Action::DaySpeech(s.clone())),
            Answer::LastWords(s) => Ok(Action::LastWords(s.clone())),
            Answer::Dying { speech, target } => match target {
                Some(t) => if *t < self.players.len() && self.players[*t].alive && *t != seat {
                    Ok(Action::LastWords(speech.clone()))
                } else {
                    Err(
                        cat3(
                            "idx ",
                            decimal(*t as u64).as_str(),
                            " 不是合法目标（必须是存活的非自己玩家）",
                        ),
                    )
                },
                None => Ok(Action::LastWords(speech.clone())),
            },
        }
    }
}

// ---- when an AI gives no legal answer ----

impl GameView {
    /// Whether the guard may protect the player in seat `i`.
    pub open spec fn guardable(self) -> spec_fn(int) -> bool {
        |i: int| self.players[i].alive && self.last_guard_target != Some(i as usize)
    }

    /// Whether the player in seat `i` is alive and no wolf.
    pub open spec fn prey(self) -> spec_fn(int) -> bool {
        |i: int| self.players[i].alive && !self.seat_is_wolf(i as usize)
    }

    /// Whether the player in seat `i` is alive and sits elsewhere.
    pub open spec fn living_besides(self, seat: usize) -> spec_fn(int) -> bool {
        |i: int| self.players[i].alive && i != seat
    }

    /// Whom the wolves attack when nothing else is decided: the first who is no wolf, or
    /// else the first alive.
    pub open spec fn easy_prey(self) -> Option<usize> {
        match first_where(self.players.len(), self.prey()) {
            Some(t) => Some(t),
            None => first_where(self.players.len(), self.living()),
        }
    }

    /// The guard protects the first who may be protected, or passes.
    pub open spec fn guard_gives_up(self, seat: usize) -> GameView {
        let pass = GameView { stage: Stage::WolvesPick, ..self };
        match first_where(self.players.len(), self.guardable()) {
            Some(t) => kept(pass, self.guard_pick(self.id_at(seat), self.id_at(t))),
            None => pass,
        }
    }

    /// A wolf with a human fellow picks the easiest prey and confirms; one without picks
    /// nobody.
    pub open spec fn wolf_gives_up(self, seat: usize) -> GameView {
        if self.human_wolves().len() == 0 {
            self
        } else {
            let g = match self.easy_prey() {
                Some(t) => kept(self, self.wolf_pick(self.id_at(seat), self.id_at(t))),
                None => self,
            };
            kept(g, g.wolf_mark_ready(self.id_at(seat)))
        }
    }

    /// The seer checks the first other player alive.
    pub open spec fn seer_gives_up(self, seat: usize) -> GameView {
        match first_where(self.players.len(), self.living_besides(seat)) {
            Some(t) => match self.seer_check(self.id_at(seat), self.id_at(t)) {
                Ok(p) => p.0,
                Err(_) => self,
            },
            None => self,
        }
    }

    /// The answer that stands in for one that was refused too often, if one does.
    pub open spec fn stand_in(a: AnswerView) -> Option<AnswerView> {
        match a {
            AnswerView::Witch(_) => Some(AnswerView::Witch(WitchDecision::Skip)),
            AnswerView::Elect(_) => Some(AnswerView::Elect(None)),
            AnswerView::Vote(_) => Some(AnswerView::Vote(None)),
            AnswerView::Badge(_) => Some(AnswerView::Badge(None)),
            AnswerView::Shoot(_) => Some(AnswerView::Shoot(None)),
            AnswerView::Dying { .. } => Some(
                AnswerView::Dying { speech: Seq::empty(), target: None },
            ),
            _ => None,
        }
    }

    /// The table and what is told when an AI has given no legal answer.
    pub open spec fn given_up(self, seat: usize, a: AnswerView, start: usize) -> (
        GameView,
        Outcome,
    ) {
        match a {
            AnswerView::Guard(_) => (self.guard_gives_up(seat), Outcome::Nothing),
            AnswerView::Wolf { .. } => (self.wolf_gives_up(seat), Outcome::Nothing),
            AnswerView::Seer(_) => (self.seer_gives_up(seat), Outcome::Nothing),
            _ => match Self::stand_in(a) {
                Some(b) => match self.answered(seat, b, start) {
                    Ok(p) => p,
                    Err(_) => (self, Outcome::Nothing),
                },
                None => (self, Outcome::Nothing),
            },
        }
    }
}

impl Answer {
    /// The answer that stands in for one that was refused too often, if one does.
    pub fn stand_in(&self) -> (r: Option<Answer>)
        ensures
            match r {
                Some(b) => GameView::stand_in(self.deep_view()) == Some(b.deep_view()),
                None => GameView::stand_in(self.deep_view()) is None,
            },
            r is Some ==> forall|n: nat| (#[trigger] r->0.deep_view().poisons_seat(n)),
    {
        match self {
            Answer::Witch(_) => Some(Answer::Witch(WitchDecision::Skip)),
            Answer::Elect(_) => Some(Answer::Elect(None)),
            Answer::Vote(_) => Some(Answer::Vote(None)),
            Answer::Badge(_) => Some(Answer::Badge(None)),
            Answer::Shoot(_) => Some(Answer::Shoot(None)),
            Answer::Dying { .. } => Some(Answer::Dying { speech: String::new(), target: None }),
            _ => None,
        }
    }
}

/// Whether an answer has gone as the rule says.
pub open spec fn goes_as(
    r: Result<Outcome, String>,
    before: GameView,
    after: GameView,
    rule: Result<(GameView, Outcome), Seq<char>>,
) -> bool {
    match rule {
        Ok(p) => r == Ok::<Outcome, String>(p.1) && after == p.0,
        Err(e) => r is Err && r->Err_0@ == e && after == before,
    }
}

impl WolfGame {
    /// The first who may be protected.
    pub fn first_guardable(&self) -> (r: Option<usize>)
        ensures
            r == first_where(self@.players.len(), self@.guardable()),
            seat_ok(r, self@.players.len()),
    {
        let n: usize = self.players.len();
        let mut i: usize = 0;
        while i < n && !(self.players[i].alive && self.last_guard_target != Some(i))
            invariant
                i <= n,
                n == self.players.len(),
                forall|j: int| 0 <= j < i ==> !#[trigger] (self@.guardable())(j),
            decreases n - i,
        {
            i = i + 1;
        }
        proof {
            lemma_first_is(n as int, self@.guardable(), i as int);
        }
        if i < n {
            Some(i)
        } else {
            None
        }
    }

    /// The first player alive.
    pub fn first_alive(&self) -> (r: Option<usize>)
        ensures
            r == first_where(self@.players.len(), self@.living()),
            seat_ok(r, self@.players.len()),
    {
        let n: usize = self.players.len();
        let mut i: usize = 0;
        while i < n && !self.players[i].alive
            invariant
                i <= n,
                n == self.players.len(),
                forall|j: int| 0 <= j < i ==> !#[trigger] (self@.living())(j),
            decreases n - i,
        {
            i = i + 1;
        }
        proof {
            lemma_first_is(n as int, self@.living(), i as int);
        }
        if i < n {
            Some(i)
        } else {
            None
        }
    }

    /// The first who is alive and no wolf.
    pub fn first_prey(&self) -> (r: Option<usize>)
        ensures
            r == first_where(self@.players.len(), self@.prey()),
            seat_ok(r, self@.players.len()),
    {
        let n: usize = self.players.len();
        let mut i: usize = 0;
        while i < n && !(self.players[i].alive && !self.is_wolf(i))
            invariant
                i <= n,
                n == self.players.len(),
                forall|j: int| 0 <= j < i ==> !#[trigger] (self@.prey())(j),
            decreases n - i,
        {
            i = i + 1;
        }
        proof {
            lemma_first_is(n as int, self@.prey(), i as int);
        }
        if i < n {
            Some(i)
        } else {
            None
        }
    }

    /// The first other player alive.
    pub fn first_besides(&self, seat: usize) -> (r: Option<usize>)
        ensures
            r == first_where(self@.players.len(), self@.living_besides(seat)),
            seat_ok(r, self@.players.len()),
    {
        let n: usize = self.players.len();
        let mut i: usize = 0;
        while i < n && !(self.players[i].alive && i != seat)
            invariant
                i <= n,
                n == self.players.len(),
                forall|j: int| 0 <= j < i ==> !#[trigger] (self@.living_besides(seat))(j),
            decreases n - i,
        {
            i = i + 1;
        }
        proof {
            lemma_first_is(n as int, self@.living_besides(seat), i as int);
        }
        if i < n {
            Some(i)
        } else {
            None
        }
    }

    fn confirm_wolf(&mut self, seat: usize, chat: &Option<String>)
        requires
            old(self)@.wf(),
            seat < old(self)@.players.len(),
        ensures
            final(self)@.wf(),
            final(self)@ == old(self)@.wolf_confirmed(seat, chat.deep_view()),
    {
        if self.list_human_wolves().len() == 0 {
            return;
        }
        let id = self.players[seat].open_id.clone();
        if let Some(m) = chat {
            let said = self.wolf_say(id.as_str(), m.clone());
        }
        let ready = self.wolf_mark_ready(id.as_str());
    }

    /// Tries an answer of the AI in a seat.
    pub fn try_answer(&mut self, seat: usize, answer: &Answer) -> (r: Result<Outcome, String>)
        requires
            old(self)@.wf(),
            old(self).day < u32::MAX,
            seat < old(self)@.players.len(),
            answer.deep_view().poisons_seat(old(self)@.players.len()),
        ensures
            final(self)@.wf(),
            exists|start: usize|
                final(self)@.may_start(start) && goes_as(
                    r,
                    old(self)@,
                    final(self)@,
                    #[trigger] old(self)@.answered(seat, answer.deep_view(), start),
                ),
    {
        let ghost g = self@;
        let ghost a = answer.deep_view();
        let action = match self.meant(seat, answer) {
            Err(reason) => {
                proof {
                    let start = lemma_some_start(g);
                    assert(g.answered(seat, a, start) == Err::<(GameView, Outcome), Seq<char>>(
                        reason@,
                    ));
                }
                return Err(reason);
            },
            Ok(action) => action,
        };
        let ghost m = action.deep_view();
        let id = self.players[seat].open_id.clone();
        let acted = self.act(id.as_str(), action);
        let ghost h = self@;
        let ghost start = choose|start: usize|
            h.may_start(start) && follows_with(acted, g, h, #[trigger] g.tried(id@, m, start));
        assert(g.id_at(seat) == id@);
        match acted {
            Err(e) => {
                let reason = e.to_string();
                assert(g.answered(seat, a, start) == Err::<(GameView, Outcome), Seq<char>>(
                    reason@,
                ));
                Err(reason)
            },
            Ok(out) => {
                match answer {
                    Answer::Wolf { chat, .. } => {
                        self.confirm_wolf(seat, chat);
                    },
                    Answer::Dying { target, .. } => {
                        self.pending_hunter_ai_decision = Some(*target);
                    },
                    _ => {},
                }
                assert(self@ == h.after_answer(seat, a));
                assert(g.answered(seat, a, start) == Ok::<(GameView, Outcome), Seq<char>>(
                    (self@, out),
                ));
                Ok(out)
            },
        }
    }
}

} // verus!
