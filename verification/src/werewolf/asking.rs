//! How a model plays for an AI: the question it is put, and what its reply means.

use vstd::prelude::*;
use crate::assoc::{has_key, key_pos, lemma_key_pos};
use crate::seqs::{lemma_map_step, lemma_pick_from, lemma_take_ends};
use crate::text::unicode_lowercase;
use crate::werewolf::answers::{Answer, AnswerView};
use crate::werewolf::attempts::Question;
use crate::werewolf::day_cards::lemma_candidates_ok;
use crate::werewolf::llm::{badge_pass, badge_pass_prompt, choices_text, choosable, day_speech,
    day_speech_prompt, dying_hunter_combined, dying_hunter_prompt, guard_pick, guard_pick_prompt,
    hunter_pick, hunter_pick_prompt, last_words, last_words_prompt, named_seat, nonblank, said, seat_and_name, seer_pick, seer_pick_prompt, sheriff_direction,
    sheriff_direction_prompt, sheriff_run, sheriff_run_prompt, sheriff_speech,
    sheriff_speech_prompt, sheriff_vote, sheriff_vote_prompt, vote_pick, vote_pick_prompt,
    witch_choice, witch_decide, witch_prompt, wolf_pick, wolf_pick_prompt, DyingShooterResp,
    MaybeSeatResp, Prompt, SeatResp, SpeechResp, WitchDecision, WitchResp, WolfPickResp,
    YesNoResp};
use crate::werewolf::prompt_texts::{BADGE_HEAD, BADGE_TASK, CAMPAIGN_HEAD, CAMPAIGN_TASK,
    DAY_SPEECH_HEAD, DAY_SPEECH_TASK, DIRECTION_HEAD, DIRECTION_TASK, DYING_HEAD, DYING_TASK,
    ELECT_HEAD, ELECT_TASK, GUARD_HEAD, GUARD_TASK, HUNTER_HEAD, HUNTER_TASK, LAST_WORDS_HEAD,
    LAST_WORDS_TASK, RUN_HEAD, RUN_TASK, SEER_HEAD, SEER_TASK, VOTE_HEAD, VOTE_TASK, WITCH_HEAD,
    WITCH_TASK};
use crate::werewolf::state::{GameView, WolfGame};
use crate::werewolf::table::seats_ok;
use crate::werewolf::types::Role;
use crate::werewolf::view::{build_view, Outlook, PublicView};

verus! {

/// A reply of the model. Which kind is wanted depends on the question; another kind counts
/// as no reply.
#[derive(Debug)]
pub enum ModelReply {
    Wolf(WolfPickResp),
    Seat(SeatResp),
    MaybeSeat(MaybeSeatResp),
    Witch(WitchResp),
    YesNo(YesNoResp),
    Speech(SpeechResp),
    Dying(DyingShooterResp),
}

/// The part that a model plays and what it is asked.
pub type Put = (Seq<char>, Seq<char>);

/// The seats of the candidates with their names.
pub open spec fn with_names(g: GameView) -> spec_fn(usize) -> (usize, Seq<char>) {
    |i: usize| (i, g.players[i as int].name)
}

impl GameView {
    /// The candidates as they are put to a voter.
    pub open spec fn named_candidates(self) -> Seq<(usize, Seq<char>)> {
        self.candidates().map_values(with_names(self))
    }

    /// What the model is told for the AI in a seat; nothing if it has no choice.
    pub open spec fn put(self, seat: usize, q: Question) -> Option<Put> {
        let o = self.outlook(seat);
        match q {
            Question::Guard => if o.guard_choices(self).len() == 0 {
                None
            } else {
                Some(
                    (
                        o.part(GUARD_HEAD@, GUARD_TASK@),
                        o.text() + "\n\n"@ + self.last_guard_text() + "\n\n## 候选目标\n"@
                            + choices_text(o.guard_choices(self)),
                    ),
                )
            },
            Question::Wolf { speak } => if o.living_choices().len() == 0 {
                None
            } else {
                Some((o.wolf_system(speak), o.wolf_user(self)))
            },
            Question::Seer => if o.other_choices().len() == 0 {
                None
            } else {
                Some(
                    (
                        o.part(SEER_HEAD@, SEER_TASK@),
                        o.choice_user(
                            "\n\n## 候选目标（仅这些 idx 合法）\n"@,
                            o.other_choices(),
                            ""@,
                        ),
                    ),
                )
            },
            Question::Witch => Some((o.part(WITCH_HEAD@, WITCH_TASK@), o.witch_user(self))),
            Question::Run => Some((o.part_with_role(RUN_HEAD@, "**。"@, RUN_TASK@), o.text())),
            Question::SheriffSpeech => Some(
                (o.part_with_role(CAMPAIGN_HEAD@, "**。"@, CAMPAIGN_TASK@), o.text()),
            ),
            Question::Stay => None,
            Question::Elect => if self.named_candidates().len() == 0 {
                None
            } else {
                Some(
                    (
                        o.part_with_role(ELECT_HEAD@, "**。"@, ELECT_TASK@),
                        o.choice_user(
                            "\n\n## 警长候选人（仅这些 idx 合法）\n"@,
                            self.named_candidates(),
                            ""@,
                        ),
                    ),
                )
            },
            Question::Direction => Some(
                (o.part_with_role(DIRECTION_HEAD@, "**。"@, DIRECTION_TASK@), o.text()),
            ),
            Question::DaySpeech => Some(
                (o.part_with_role(DAY_SPEECH_HEAD@, "**。"@, DAY_SPEECH_TASK@), o.text()),
            ),
            Question::Vote => Some(
                (
                    o.part_with_role(VOTE_HEAD@, "**。"@, VOTE_TASK@),
                    o.choice_user(
                        "\n\n## 候选目标（idx 合法值）\n"@,
                        o.vote_choices(self),
                        "\n-1 = 弃权"@,
                    ),
                ),
            ),
            Question::LastWords => Some(
                (o.part_with_role(LAST_WORDS_HEAD@, "**。"@, LAST_WORDS_TASK@), o.text()),
            ),
            Question::Dying => Some(
                (
                    o.part_with_role(DYING_HEAD@, "**，刚刚死亡。"@, DYING_TASK@),
                    o.choice_user(
                        "\n\n## 候选开枪目标（仅这些 idx 合法，或 -1 不开枪）\n"@,
                        o.other_choices(),
                        ""@,
                    ),
                ),
            ),
            Question::Shoot => if o.other_choices().len() == 0 {
                None
            } else {
                Some(
                    (
                        o.part_with_role(HUNTER_HEAD@, "**，刚刚死亡。"@, HUNTER_TASK@),
                        o.choice_user(
                            "\n\n## 候选目标\n"@,
                            o.other_choices(),
                            "\n-1 = 不开枪"@,
                        ),
                    ),
                )
            },
            Question::Badge => if o.other_choices().len() == 0 {
                None
            } else {
                Some(
                    (
                        o.part_with_role(BADGE_HEAD@, "**。"@, BADGE_TASK@),
                        o.choice_user(
                            "\n\n## 候选接警人\n"@,
                            o.other_choices(),
                            "\n-1 = 撕毁警徽"@,
                        ),
                    ),
                )
            },
        }
    }
}

/// The two texts of a prompt, if there is one.
pub open spec fn put_of(p: Option<Prompt>) -> Option<Put> {
    match p {
        Some(x) => Some((x.system@, x.user@)),
        None => None,
    }
}

impl WolfGame {
    fn name_candidates(&self) -> (r: Vec<(usize, String)>)
        requires
            seats_ok(self@.candidates(), self@.players.len()),
        ensures
            r.deep_view() == self@.named_candidates(),
    {
        let seats = self.sheriff_candidates();
        let mut r: Vec<(usize, String)> = Vec::new();
        let mut i: usize = 0;
        assert(r.deep_view() =~= seats@.take(0).map_values(with_names(self@)));
        while i < seats.len()
            invariant
                i <= seats.len(),
                seats@ == self@.candidates(),
                seats_ok(self@.candidates(), self@.players.len()),
                r.deep_view() == seats@.take(i as int).map_values(with_names(self@)),
            decreases seats.len() - i,
        {
            let ghost before = r.deep_view();
            proof {
                lemma_map_step(seats@, with_names(self@), i as int);
            }
            let seat: usize = seats[i];
            assert(self@.players[seat as int] == self.players@[seat as int].deep_view());
            let name = self.players[seat].name.as_str().to_owned();
            let ghost added = (seat, name@);
            r.push((seat, name));
            assert(r.deep_view() =~= before.push(added));
            i = i + 1;
        }
        proof {
            lemma_take_ends(seats@);
        }
        r
    }

    /// The question to the model behind the AI in a seat; none if it has no choice.
    pub fn ask(&self, seat: usize, q: Question) -> (r: Option<Prompt>)
        requires
            self@.wf(),
            self@.in_play(),
            seat < self@.players.len(),
            self@.players[seat as int].role is Some,
        ensures
            put_of(r) == self@.put(seat, q),
    {
        assert(self@.players[seat as int] == self.players@[seat as int].deep_view());
        let view = build_view(self, seat);
        match q {
            Question::Guard => guard_pick_prompt(&view, self),
            Question::Wolf { speak } => wolf_pick_prompt(&view, self, speak),
            Question::Seer => seer_pick_prompt(&view),
            Question::Witch => Some(witch_prompt(&view, self)),
            Question::Run => Some(sheriff_run_prompt(&view)),
            Question::SheriffSpeech => Some(sheriff_speech_prompt(&view)),
            Question::Stay => None,
            Question::Elect => {
                proof {
                    lemma_candidates_ok(self@);
                }
                let candidates = self.name_candidates();
                assert(candidates.deep_view().len() == candidates.len());
                sheriff_vote_prompt(&view, &candidates)
            },
            Question::Direction => Some(sheriff_direction_prompt(&view)),
            Question::DaySpeech => Some(day_speech_prompt(&view)),
            Question::Vote => Some(vote_pick_prompt(&view, self)),
            Question::LastWords => Some(last_words_prompt(&view)),
            Question::Dying => Some(dying_hunter_prompt(&view)),
            Question::Shoot => hunter_pick_prompt(&view),
            Question::Badge => badge_pass_prompt(&view),
        }
    }
}

/// An answer with the private thought behind it.
pub type Thought = (AnswerView, Option<Seq<char>>);

/// Seats named by a reply or none, with the thought behind it; without a choice nothing is
/// named and nothing thought.
pub open spec fn named_or_none(cs: Seq<(usize, Seq<char>)>, r: Option<MaybeSeatResp>) -> (
    Option<usize>,
    Option<Seq<char>>,
) {
    match r {
        Some(p) => if cs.len() == 0 {
            (None, None)
        } else {
            (named_seat(cs, p.target_idx), nonblank(p.thinking.deep_view()))
        },
        None => (None, None),
    }
}

/// The seat named by a reply if it is one of the choices, else another, with the thought
/// behind it.
pub open spec fn named_or(cs: Seq<(usize, Seq<char>)>, other: usize, r: Option<SeatResp>) -> (
    usize,
    Option<Seq<char>>,
) {
    match r {
        Some(p) => (
            if has_key(cs, p.target_idx) {
                p.target_idx
            } else {
                other
            },
            nonblank(p.thinking.deep_view()),
        ),
        None => (other, None),
    }
}

/// What a wolf does.
pub open spec fn wolf_understood(o: Outlook, speak: bool, r: Option<WolfPickResp>) -> Thought {
    let cs = o.living_choices();
    if cs.len() == 0 {
        (AnswerView::Wolf { target: 0, chat: None }, None)
    } else {
        match r {
            Some(p) => (
                AnswerView::Wolf {
                    target: if has_key(cs, p.target_idx) {
                        p.target_idx
                    } else {
                        cs[0].0
                    },
                    chat: if speak {
                        nonblank(p.chat.deep_view())
                    } else {
                        None
                    },
                },
                nonblank(p.thinking.deep_view()),
            ),
            None => (AnswerView::Wolf { target: cs[0].0, chat: None }, None),
        }
    }
}

/// What is said, with the thought behind it; without a reply, `mute`, and without a word,
/// `blank`.
pub open spec fn speech_understood(
    r: Option<SpeechResp>,
    mute: Seq<char>,
    blank: Seq<char>,
) -> (Seq<char>, Option<Seq<char>>) {
    match r {
        Some(p) => (
            match nonblank(p.speech.deep_view()) {
                Some(s) => s,
                None => blank,
            },
            nonblank(p.thinking.deep_view()),
        ),
        None => (mute, None),
    }
}

/// Yes or no, with the thought behind it.
pub open spec fn yes_or(r: Option<YesNoResp>, other: bool) -> (bool, Option<Seq<char>>) {
    match r {
        Some(p) => (p.yes, nonblank(p.thinking.deep_view())),
        None => (other, None),
    }
}

/// A reply of the kind that picks a victim.
pub open spec fn as_wolf(r: Option<ModelReply>) -> Option<WolfPickResp> {
    match r {
        Some(ModelReply::Wolf(p)) => Some(p),
        _ => None,
    }
}

/// A reply of the kind that names a seat.
pub open spec fn as_seat(r: Option<ModelReply>) -> Option<SeatResp> {
    match r {
        Some(ModelReply::Seat(p)) => Some(p),
        _ => None,
    }
}

/// A reply of the kind that names a seat or none.
pub open spec fn as_maybe(r: Option<ModelReply>) -> Option<MaybeSeatResp> {
    match r {
        Some(ModelReply::MaybeSeat(p)) => Some(p),
        _ => None,
    }
}

/// A reply of the kind that is yes or no.
pub open spec fn as_yes_no(r: Option<ModelReply>) -> Option<YesNoResp> {
    match r {
        Some(ModelReply::YesNo(p)) => Some(p),
        _ => None,
    }
}

/// A reply of the kind that is a speech.
pub open spec fn as_speech(r: Option<ModelReply>) -> Option<SpeechResp> {
    match r {
        Some(ModelReply::Speech(p)) => Some(p),
        _ => None,
    }
}

impl GameView {
    /// What the AI in a seat does after the model's reply, with the thought behind it.
    pub open spec fn understood(self, seat: usize, q: Question, r: Option<ModelReply>) -> Thought {
        let o = self.outlook(seat);
        match q {
            Question::Guard => {
                let cs = o.guard_choices(self);
                if cs.len() == 0 {
                    (AnswerView::Guard(seat), None)
                } else {
                    let p = named_or(cs, o.guard_fallback(self), as_seat(r));
                    (AnswerView::Guard(p.0), p.1)
                }
            },
            Question::Wolf { speak } => wolf_understood(o, speak, as_wolf(r)),
            Question::Seer => {
                let cs = o.other_choices();
                if cs.len() == 0 {
                    (AnswerView::Seer(0), None)
                } else {
                    let p = named_or(cs, o.seer_fallback(), as_seat(r));
                    (AnswerView::Seer(p.0), p.1)
                }
            },
            Question::Witch => match r {
                Some(ModelReply::Witch(p)) => (
                    AnswerView::Witch(
                        witch_choice(
                            unicode_lowercase(p.action@),
                            p.poison_target_idx,
                            o.other_choices(),
                            self,
                        ),
                    ),
                    nonblank(p.thinking.deep_view()),
                ),
                _ => (AnswerView::Witch(WitchDecision::Skip), None),
            },
            Question::Run => {
                let p = yes_or(as_yes_no(r), o.me_role == Role::Seer);
                (AnswerView::Run(p.0), p.1)
            },
            Question::SheriffSpeech => {
                let p = speech_understood(
                    as_speech(r),
                    "我先表态。"@,
                    "我支持平和过渡，先听其他玩家。"@,
                );
                (AnswerView::SheriffSpeech(p.0), p.1)
            },
            Question::Stay => (AnswerView::Stay(true), None),
            Question::Elect => {
                let p = named_or_none(self.named_candidates(), as_maybe(r));
                (AnswerView::Elect(p.0), p.1)
            },
            Question::Direction => {
                let p = yes_or(as_yes_no(r), true);
                (AnswerView::Direction(p.0), p.1)
            },
            Question::DaySpeech => {
                let p = speech_understood(as_speech(r), ""@, ""@);
                (AnswerView::DaySpeech(p.0), p.1)
            },
            Question::Vote => match as_maybe(r) {
                Some(p) => (
                    AnswerView::Vote(named_seat(o.vote_choices(self), p.target_idx)),
                    nonblank(p.thinking.deep_view()),
                ),
                None => (AnswerView::Vote(None), None),
            },
            Question::LastWords => {
                let p = speech_understood(as_speech(r), ""@, ""@);
                (AnswerView::LastWords(p.0), p.1)
            },
            Question::Dying => match r {
                Some(ModelReply::Dying(p)) => (
                    AnswerView::Dying {
                        speech: said(p.speech.deep_view()),
                        target: match p.target_idx {
                            Some(t) => named_seat(o.other_choices(), t),
                            None => None,
                        },
                    },
                    nonblank(p.thinking.deep_view()),
                ),
                _ => (AnswerView::Dying { speech: ""@, target: None }, None),
            },
            Question::Shoot => {
                let p = named_or_none(o.other_choices(), as_maybe(r));
                (AnswerView::Shoot(p.0), p.1)
            },
            Question::Badge => {
                let p = named_or_none(o.other_choices(), as_maybe(r));
                (AnswerView::Badge(p.0), p.1)
            },
        }
    }
}

/// Whoever is among the others is somebody at the table.
proof fn lemma_other_in_range(g: GameView, seat: usize, t: usize)
    requires
        g.players.len() <= usize::MAX,
        has_key(g.outlook(seat).other_choices(), t),
    ensures
        t < g.players.len(),
{
    let o = g.outlook(seat);
    let cs = o.other_choices();
    lemma_key_pos(cs, t);
    let i = lemma_pick_from(
        o.players,
        choosable(Some(o.me_idx), None, None),
        seat_and_name(),
        key_pos(cs, t),
    );
    assert(o.players[i].0 == i as usize);
}

impl WolfGame {
    fn understand_night(&self, seat: usize, q: Question, reply: Option<ModelReply>, view: &PublicView) -> (r:
        (Answer, Option<String>))
        requires
            view@ == self@.outlook(seat),
            q is Guard || q is Wolf || q is Seer || q is Witch,
        ensures
            (r.0.deep_view(), r.1.deep_view()) == self@.understood(seat, q, reply),
    {
        match q {
            Question::Guard => {
                let p = guard_pick(
                    view,
                    self,
                    match reply {
                        Some(ModelReply::Seat(p)) => Some(p),
                        _ => None,
                    },
                );
                (Answer::Guard(p.0), p.1)
            },
            Question::Wolf { speak } => {
                let p = wolf_pick(
                    view,
                    speak,
                    match reply {
                        Some(ModelReply::Wolf(p)) => Some(p),
                        _ => None,
                    },
                );
                (Answer::Wolf { target: p.0.target_idx, chat: p.0.chat }, p.1)
            },
            Question::Seer => {
                let p = seer_pick(
                    view,
                    match reply {
                        Some(ModelReply::Seat(p)) => Some(p),
                        _ => None,
                    },
                );
                (Answer::Seer(p.0), p.1)
            },
            _ => {
                let p = witch_decide(
                    view,
                    self,
                    match reply {
                        Some(ModelReply::Witch(p)) => Some(p),
                        _ => None,
                    },
                );
                (Answer::Witch(p.0), p.1)
            },
        }
    }

    fn understand_words(&self, seat: usize, q: Question, reply: Option<ModelReply>, view: &PublicView) -> (r:
        (Answer, Option<String>))
        requires
            view@ == self@.outlook(seat),
            q is Run || q is Direction || q is SheriffSpeech || q is DaySpeech || q is LastWords,
        ensures
            (r.0.deep_view(), r.1.deep_view()) == self@.understood(seat, q, reply),
    {
        match q {
            Question::Run => {
                let p = sheriff_run(
                    view,
                    match reply {
                        Some(ModelReply::YesNo(p)) => Some(p),
                        _ => None,
                    },
                );
                (Answer::Run(p.0), p.1)
            },
            Question::Direction => {
                let p = sheriff_direction(
                    match reply {
                        Some(ModelReply::YesNo(p)) => Some(p),
                        _ => None,
                    },
                );
                (Answer::Direction(p.0), p.1)
            },
            _ => {
                let words = match reply {
                    Some(ModelReply::Speech(p)) => Some(p),
                    _ => None,
                };
                match q {
                    Question::SheriffSpeech => {
                        let p = sheriff_speech(words);
                        (Answer::SheriffSpeech(p.0), p.1)
                    },
                    Question::DaySpeech => {
                        let p = day_speech(words);
                        (Answer::DaySpeech(p.0), p.1)
                    },
                    _ => {
                        let p = last_words(words);
                        (Answer::LastWords(p.0), p.1)
                    },
                }
            },
        }
    }

    /// What the AI in a seat does after the model's reply, with the thought behind it.
    /// Without a reply, or with one of another kind, it falls back on a safe answer.
    pub fn understand(&self, seat: usize, q: Question, reply: Option<ModelReply>) -> (r: (
        Answer,
        Option<String>,
    ))
        requires
            self@.wf(),
            self@.in_play(),
            seat < self@.players.len(),
            self@.players[seat as int].role is Some,
        ensures
            (r.0.deep_view(), r.1.deep_view()) == self@.understood(seat, q, reply),
            r.0.deep_view().poisons_seat(self@.players.len()),
    {
        assert(self@.players[seat as int] == self.players@[seat as int].deep_view());
        let view = build_view(self, seat);
        match q {
            Question::Guard | Question::Wolf { .. } | Question::Seer | Question::Witch => {
                let r = self.understand_night(seat, q, reply, &view);
                proof {
                    if let AnswerView::Witch(WitchDecision::Poison(t)) = r.0.deep_view() {
                        lemma_other_in_range(self@, seat, t);
                    }
                }
                r
            },
            Question::Stay => (Answer::Stay(true), None),
            Question::Dying => {
                let p = dying_hunter_combined(
                    &view,
                    match reply {
                        Some(ModelReply::Dying(p)) => Some(p),
                        _ => None,
                    },
                );
                (Answer::Dying { speech: p.0.speech, target: p.0.target }, p.1)
            },
            Question::Elect | Question::Vote | Question::Shoot | Question::Badge => {
                let named = match reply {
                    Some(ModelReply::MaybeSeat(p)) => Some(p),
                    _ => None,
                };
                match q {
                    Question::Elect => {
                        proof {
                            lemma_candidates_ok(self@);
                        }
                        let candidates = self.name_candidates();
                        assert(candidates.deep_view().len() == candidates.len());
                        let p = sheriff_vote(&candidates, named);
                        (Answer::Elect(p.0), p.1)
                    },
                    Question::Vote => {
                        let p = vote_pick(&view, self, named);
                        (Answer::Vote(p.0.target_idx), p.1)
                    },
                    Question::Shoot => {
                        let p = hunter_pick(&view, named);
                        (Answer::Shoot(p.0), p.1)
                    },
                    _ => {
                        let p = badge_pass(&view, named);
                        (Answer::Badge(p.0), p.1)
                    },
                }
            },
            _ => self.understand_words(seat, q, reply, &view),
        }
    }
}

} // verus!
