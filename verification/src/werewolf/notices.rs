//! Which card everybody sees, which card a player is handed, and where the ids of the
//! messages that carry them are kept.

use vstd::prelude::*;
use crate::assoc::{get_key, has_key, put_key};
use crate::feishu::cards::is_hex_id;
use crate::json::{Json, JsonView};
use crate::text::{cat7, decimal, decimal_text, same};
use crate::werewolf::cards::{build_guard_night_card, build_seer_night_card, build_witch_night_card,
    build_wolf_night_card};
use crate::werewolf::day_cards::{build_last_words_private_card, build_last_words_public_card,
    build_sheriff_direction_card, build_sheriff_nominate_card, build_sheriff_vote_card,
    build_sheriff_withdraw_card, build_speech_private_card, build_speech_public_card};
use crate::werewolf::progress_cards::{build_day_vote_progress_card, build_night_progress_card,
    build_sheriff_nominate_progress_card, build_sheriff_vote_progress_card,
    build_single_action_progress_card};
use crate::werewolf::settle::model_of;
use crate::werewolf::state::{GameView, WolfGame};
use crate::werewolf::table::seat_ok;
use crate::werewolf::types::Stage;
use crate::werewolf::vote_cards::{build_badge_pass_card, build_hunter_card, build_vote_card};

verus! {

/// Where the id of a public card is kept.
#[derive(Debug)]
pub enum Slot {
    /// The progress of the night of this day.
    Night(u32),
    /// A step of one player, with its key.
    Single { stage: Stage, key: String },
    Nominations,
    Election,
    DayVote,
    SheriffSpeeches,
    DaySpeeches,
    LastWords,
}

/// Where the id of a public card is kept.
pub enum SlotView {
    Night(u32),
    Single { stage: Stage, key: Seq<char> },
    Nominations,
    Election,
    DayVote,
    SheriffSpeeches,
    DaySpeeches,
    LastWords,
}

impl DeepView for Slot {
    type V = SlotView;

    open spec fn deep_view(&self) -> SlotView {
        match *self {
            Slot::Night(d) => SlotView::Night(d),
            Slot::Single { stage, key } => SlotView::Single { stage, key: key@ },
            Slot::Nominations => SlotView::Nominations,
            Slot::Election => SlotView::Election,
            Slot::DayVote => SlotView::DayVote,
            Slot::SheriffSpeeches => SlotView::SheriffSpeeches,
            Slot::DaySpeeches => SlotView::DaySpeeches,
            Slot::LastWords => SlotView::LastWords,
        }
    }
}

/// The card that everybody sees.
#[derive(Debug)]
pub struct Notice {
    pub card: Json,
    /// The message that carries it already, to be updated in place.
    pub existing: Option<String>,
    /// Where the id of a new message is kept.
    pub slot: Slot,
}

/// The card that everybody sees.
pub struct NoticeView {
    pub card: JsonView,
    pub existing: Option<Seq<char>>,
    pub slot: SlotView,
}

impl View for Notice {
    type V = NoticeView;

    open spec fn view(&self) -> NoticeView {
        NoticeView {
            card: self.card.model(),
            existing: self.existing.deep_view(),
            slot: self.slot.deep_view(),
        }
    }
}

/// The view of a notice, if any.
pub open spec fn notice_of(n: Option<Notice>) -> Option<NoticeView> {
    match n {
        Some(x) => Some(x@),
        None => None,
    }
}

/// What is said of a step of one player: the title, what the player does, the colour and
/// the name of the step in its key.
pub open spec fn single_texts(stage: Stage) -> (Seq<char>, Seq<char>, Seq<char>, Seq<char>) {
    match stage {
        Stage::SheriffPickDirection => (
            "🎖️ 等待警长指示"@,
            "选择白天发言方向"@,
            "yellow"@,
            "SheriffPickDirection"@,
        ),
        Stage::HunterShoot => (
            "🏹 临死技能处理中"@,
            "决定是否发动临死技能"@,
            "carmine"@,
            "HunterShoot"@,
        ),
        _ => ("🎖️ 等待警徽处理"@, "移交或撕毁警徽"@, "yellow"@, "BadgePass"@),
    }
}

impl GameView {
    /// The key of a step of one player.
    pub open spec fn single_key(self, actor: usize) -> Seq<char> {
        decimal_text(self.game_count as nat) + ":"@ + decimal_text(self.day as nat) + ":"@
            + single_texts(self.stage).3 + ":"@ + decimal_text(actor as nat)
    }

    /// The message of a step of one player, if it is of this very step.
    pub open spec fn single_msg(self, key: Seq<char>) -> Option<Seq<char>> {
        match self.stage_wait_public_msg {
            Some(p) => if p.0 == key {
                Some(p.1)
            } else {
                None
            },
            None => None,
        }
    }

    /// The card of a step of one player, if there is one.
    pub open spec fn single_notice(self, actor: Option<usize>) -> Option<NoticeView> {
        match actor {
            Some(i) => {
                let t = single_texts(self.stage);
                let key = self.single_key(i);
                Some(
                    NoticeView {
                        card: self.single_action_card(t.0, self.players[i as int], t.1, t.2),
                        existing: self.single_msg(key),
                        slot: SlotView::Single { stage: self.stage, key },
                    },
                )
            },
            None => None,
        }
    }

    /// The card that shows how far the night is.
    pub open spec fn night_notice(self) -> Option<NoticeView> {
        Some(
            NoticeView {
                card: self.night_progress_card(),
                existing: self.night_progress_public_msg,
                slot: SlotView::Night(self.day),
            },
        )
    }

    /// The card that everybody sees at this stage.
    pub open spec fn public_notice(self) -> Option<NoticeView> {
        match self.stage {
            Stage::GuardPick => self.night_notice(),
            Stage::WolvesPick => self.night_notice(),
            Stage::SeerPick => self.night_notice(),
            Stage::WitchAct => self.night_notice(),
            Stage::DayReveal => self.night_notice(),
            Stage::SheriffPickDirection => self.single_notice(self.sheriff_idx),
            Stage::HunterShoot => self.single_notice(self.pending_hunter),
            Stage::BadgePass => self.single_notice(self.pending_badge),
            Stage::SheriffNominate => Some(
                NoticeView {
                    card: self.done_card(
                        "🎖️ 上警进度"@,
                        "yellow"@,
                        self.eligible_seats(),
                        self.has_nominated(),
                    ),
                    existing: self.sheriff_nominate_public_msg,
                    slot: SlotView::Nominations,
                },
            ),
            Stage::SheriffVote => Some(
                NoticeView {
                    card: self.done_card(
                        "🎖️ 警长投票进度"@,
                        "yellow"@,
                        self.elector_seats(),
                        self.has_elected(),
                    ),
                    existing: self.sheriff_vote_public_msg,
                    slot: SlotView::Election,
                },
            ),
            Stage::DayVote => Some(
                NoticeView {
                    card: self.done_card(
                        "🗳️ 投票进度"@,
                        "blue"@,
                        self.voter_seats(),
                        self.has_voted(),
                    ),
                    existing: self.day_vote_public_msg,
                    slot: SlotView::DayVote,
                },
            ),
            Stage::SheriffSpeech => Some(
                NoticeView {
                    card: self.speech_card(
                        "🎙️ 上警·竞选发言"@,
                        "yellow"@,
                        self.sheriff_speech_order,
                        self.sheriff_speeches,
                        self.sheriff_speech_idx as int,
                    ),
                    existing: self.sheriff_speech_public_msg,
                    slot: SlotView::SheriffSpeeches,
                },
            ),
            Stage::DaySpeech => Some(
                NoticeView {
                    card: self.speech_card(
                        "🎙️ 白天·轮流发言"@,
                        "wathet"@,
                        self.day_speech_order,
                        self.day_speeches,
                        self.day_speech_idx as int,
                    ),
                    existing: self.day_speech_public_msg,
                    slot: SlotView::DaySpeeches,
                },
            ),
            Stage::LastWords => Some(
                NoticeView {
                    card: self.last_words_card(
                        self.last_words_queue,
                        self.last_words_speeches,
                        self.last_words_idx as int,
                    ),
                    existing: self.last_words_public_msg,
                    slot: SlotView::LastWords,
                },
            ),
            _ => None,
        }
    }

    /// The table after the id of a public card is noted; a card of a step that is over is
    /// forgotten.
    pub open spec fn public_noted(self, slot: SlotView, id: Seq<char>) -> GameView {
        match slot {
            SlotView::Night(day) => if self.day == day {
                GameView { night_progress_public_msg: Some(id), ..self }
            } else {
                self
            },
            SlotView::Single { stage, key } => if self.stage == stage {
                GameView { stage_wait_public_msg: Some((key, id)), ..self }
            } else {
                self
            },
            SlotView::Nominations => if self.stage == Stage::SheriffNominate {
                GameView { sheriff_nominate_public_msg: Some(id), ..self }
            } else {
                self
            },
            SlotView::Election => if self.stage == Stage::SheriffVote {
                GameView { sheriff_vote_public_msg: Some(id), ..self }
            } else {
                self
            },
            SlotView::DayVote => if self.stage == Stage::DayVote {
                GameView { day_vote_public_msg: Some(id), ..self }
            } else {
                self
            },
            SlotView::SheriffSpeeches => GameView { sheriff_speech_public_msg: Some(id), ..self },
            SlotView::DaySpeeches => GameView { day_speech_public_msg: Some(id), ..self },
            SlotView::LastWords => GameView { last_words_public_msg: Some(id), ..self },
        }
    }
}

fn same_opt(o: &Option<String>) -> (r: Option<String>)
    ensures
        r.deep_view() == o.deep_view(),
{
    match o {
        Some(s) => Some(s.clone()),
        None => None,
    }
}

impl WolfGame {
    fn notice_single(&self, actor: Option<usize>) -> (r: Option<Notice>)
        requires
            seat_ok(actor, self@.players.len()),
        ensures
            notice_of(r) == self@.single_notice(actor),
    {
        let i: usize = match actor {
            Some(i) => i,
            None => {
                return None;
            },
        };
        let (title, action, template, name) = match self.stage {
            Stage::SheriffPickDirection => (
                "🎖️ 等待警长指示",
                "选择白天发言方向",
                "yellow",
                "SheriffPickDirection",
            ),
            Stage::HunterShoot => (
                "🏹 临死技能处理中",
                "决定是否发动临死技能",
                "carmine",
                "HunterShoot",
            ),
            _ => ("🎖️ 等待警徽处理", "移交或撕毁警徽", "yellow", "BadgePass"),
        };
        let key = cat7(
            decimal(self.game_count as u64).as_str(),
            ":",
            decimal(self.day as u64).as_str(),
            ":",
            name,
            ":",
            decimal(i as u64).as_str(),
        );
        let existing = match &self.stage_wait_public_msg {
            Some(p) => if same(p.0.as_str(), key.as_str()) {
                Some(p.1.clone())
            } else {
                None
            },
            None => None,
        };
        Some(
            Notice {
                card: build_single_action_progress_card(
                    self,
                    title,
                    &self.players[i],
                    action,
                    template,
                ),
                existing,
                slot: Slot::Single { stage: self.stage, key },
            },
        )
    }

    fn notice_night(&self) -> (r: Option<Notice>)
        ensures
            notice_of(r) == self@.night_notice(),
    {
        Some(
            Notice {
                card: build_night_progress_card(self),
                existing: same_opt(&self.night_progress_public_msg),
                slot: Slot::Night(self.day),
            },
        )
    }

    fn notice_speeches(&self) -> (r: Option<Notice>)
        requires
            self@.wf(),
            self.stage == Stage::SheriffSpeech || self.stage == Stage::DaySpeech || self.stage
                == Stage::LastWords,
        ensures
            notice_of(r) == self@.public_notice(),
    {
        if self.stage == Stage::SheriffSpeech {
            Some(
                Notice {
                    card: build_speech_public_card(
                        self,
                        "🎙️ 上警·竞选发言",
                        "yellow",
                        self.sheriff_speech_order.as_slice(),
                        self.sheriff_speeches.as_slice(),
                        self.sheriff_speech_idx,
                    ),
                    existing: same_opt(&self.sheriff_speech_public_msg),
                    slot: Slot::SheriffSpeeches,
                },
            )
        } else if self.stage == Stage::DaySpeech {
            Some(
                Notice {
                    card: build_speech_public_card(
                        self,
                        "🎙️ 白天·轮流发言",
                        "wathet",
                        self.day_speech_order.as_slice(),
                        self.day_speeches.as_slice(),
                        self.day_speech_idx,
                    ),
                    existing: same_opt(&self.day_speech_public_msg),
                    slot: Slot::DaySpeeches,
                },
            )
        } else {
            Some(
                Notice {
                    card: build_last_words_public_card(
                        self,
                        self.last_words_queue.as_slice(),
                        self.last_words_speeches.as_slice(),
                        self.last_words_idx,
                    ),
                    existing: same_opt(&self.last_words_public_msg),
                    slot: Slot::LastWords,
                },
            )
        }
    }

    fn notice_ballots(&self) -> (r: Option<Notice>)
        requires
            self.stage == Stage::SheriffNominate || self.stage == Stage::SheriffVote || self.stage
                == Stage::DayVote,
        ensures
            notice_of(r) == self@.public_notice(),
    {
        if self.stage == Stage::SheriffNominate {
            Some(
                Notice {
                    card: build_sheriff_nominate_progress_card(self),
                    existing: same_opt(&self.sheriff_nominate_public_msg),
                    slot: Slot::Nominations,
                },
            )
        } else if self.stage == Stage::SheriffVote {
            Some(
                Notice {
                    card: build_sheriff_vote_progress_card(self),
                    existing: same_opt(&self.sheriff_vote_public_msg),
                    slot: Slot::Election,
                },
            )
        } else {
            Some(
                Notice {
                    card: build_day_vote_progress_card(self),
                    existing: same_opt(&self.day_vote_public_msg),
                    slot: Slot::DayVote,
                },
            )
        }
    }

    /// The card that everybody sees at this stage.
    pub fn public_notice(&self) -> (r: Option<Notice>)
        requires
            self@.wf(),
        ensures
            notice_of(r) == self@.public_notice(),
    {
        match self.stage {
            Stage::GuardPick => self.notice_night(),
            Stage::WolvesPick => self.notice_night(),
            Stage::SeerPick => self.notice_night(),
            Stage::WitchAct => self.notice_night(),
            Stage::DayReveal => self.notice_night(),
            Stage::SheriffPickDirection => self.notice_single(self.sheriff_idx),
            Stage::HunterShoot => self.notice_single(self.pending_hunter),
            Stage::BadgePass => self.notice_single(self.pending_badge),
            Stage::SheriffNominate => self.notice_ballots(),
            Stage::SheriffVote => self.notice_ballots(),
            Stage::DayVote => self.notice_ballots(),
            Stage::SheriffSpeech => self.notice_speeches(),
            Stage::DaySpeech => self.notice_speeches(),
            Stage::LastWords => self.notice_speeches(),
            _ => None,
        }
    }

    /// Notes the id of a public card.
    pub fn note_public(&mut self, slot: Slot, id: String)
        ensures
            final(self)@ == old(self)@.public_noted(slot.deep_view(), id@),
            old(self)@.wf() ==> final(self)@.wf(),
    {
        match slot {
            Slot::Night(day) => {
                if self.day == day {
                    self.night_progress_public_msg = Some(id);
                }
            },
            Slot::Single { stage, key } => {
                if self.stage == stage {
                    self.stage_wait_public_msg = Some((key, id));
                }
            },
            Slot::Nominations => {
                if self.stage == Stage::SheriffNominate {
                    self.sheriff_nominate_public_msg = Some(id);
                }
            },
            Slot::Election => {
                if self.stage == Stage::SheriffVote {
                    self.sheriff_vote_public_msg = Some(id);
                }
            },
            Slot::DayVote => {
                if self.stage == Stage::DayVote {
                    self.day_vote_public_msg = Some(id);
                }
            },
            Slot::SheriffSpeeches => {
                self.sheriff_speech_public_msg = Some(id);
            },
            Slot::DaySpeeches => {
                self.day_speech_public_msg = Some(id);
            },
            Slot::LastWords => {
                self.last_words_public_msg = Some(id);
            },
        }
    }
}

impl GameView {
    /// The card that the human in a seat is handed at this stage; `id` names its submit
    /// button, if it has one.
    pub open spec fn private_card(self, seat: usize, id: Seq<char>) -> Option<JsonView> {
        let p = self.players[seat as int];
        match self.stage {
            Stage::GuardPick => Some(self.guard_card(p)),
            Stage::WolvesPick => Some(self.wolf_card(p, id)),
            Stage::SeerPick => Some(self.seer_card(p)),
            Stage::WitchAct => Some(self.witch_card(p)),
            Stage::SheriffNominate => Some(self.nominate_card(p)),
            Stage::SheriffSpeech => Some(
                self.speech_input_card(
                    p,
                    "🎤 你的竞选发言"@,
                    "yellow"@,
                    "wolf_sheriff_speech_submit"@,
                    "wolf_sheriff_speech_skip"@,
                    "拉票 / 自报身份 / 攻击对手…"@,
                    id,
                ),
            ),
            Stage::SheriffWithdraw => Some(self.withdraw_card(p)),
            Stage::SheriffVote => Some(self.election_card(p)),
            Stage::SheriffPickDirection => Some(self.direction_card(p)),
            Stage::DaySpeech => Some(
                self.speech_input_card(
                    p,
                    "🎤 你的白天发言"@,
                    "wathet"@,
                    "wolf_day_speech_submit"@,
                    "wolf_day_speech_skip"@,
                    "分析 / 报查验 / 表态…"@,
                    id,
                ),
            ),
            Stage::DayVote => Some(self.vote_card(p)),
            Stage::LastWords => Some(self.last_words_input_card(p, id)),
            Stage::HunterShoot => Some(self.shooter_card(p)),
            Stage::BadgePass => Some(self.badge_card(p)),
            _ => None,
        }
    }

    /// The message with a card that a new one replaces.
    pub open spec fn replaced_msg(self, seat: usize) -> Option<Seq<char>> {
        match self.stage {
            Stage::WolvesPick => get_key(self.wolf_night_msgs, seat),
            Stage::SheriffSpeech => self.sheriff_speech_private_msg,
            Stage::DaySpeech => self.day_speech_private_msg,
            Stage::LastWords => self.last_words_private_msg,
            _ => None,
        }
    }

    /// The table after the id of a private card, sent at a stage, is noted. A ballot is
    /// noted once, and only while its stage lasts.
    pub open spec fn private_noted(self, stage: Stage, seat: usize, id: Seq<char>) -> GameView {
        let who = self.players[seat as int].open_id;
        match stage {
            Stage::WolvesPick => GameView {
                wolf_night_msgs: put_key(self.wolf_night_msgs, seat, id),
                ..self
            },
            Stage::SheriffNominate => if self.stage == stage && !has_key(
                self.sheriff_nominate_msgs,
                who,
            ) {
                GameView {
                    sheriff_nominate_msgs: put_key(self.sheriff_nominate_msgs, who, id),
                    ..self
                }
            } else {
                self
            },
            Stage::SheriffVote => if self.stage == stage && !has_key(self.sheriff_vote_msgs, who) {
                GameView { sheriff_vote_msgs: put_key(self.sheriff_vote_msgs, who, id), ..self }
            } else {
                self
            },
            Stage::DayVote => if self.stage == stage && !has_key(self.day_vote_msgs, who) {
                GameView { day_vote_msgs: put_key(self.day_vote_msgs, who, id), ..self }
            } else {
                self
            },
            Stage::SheriffSpeech => GameView { sheriff_speech_private_msg: Some(id), ..self },
            Stage::DaySpeech => GameView { day_speech_private_msg: Some(id), ..self },
            Stage::LastWords => GameView { last_words_private_msg: Some(id), ..self },
            _ => self,
        }
    }

    /// The human wolves who are handed the card with which to blow up: when the election
    /// or a round of speeches begins.
    pub open spec fn warned_wolves(self) -> Seq<usize> {
        if (self.stage == Stage::SheriffNominate && self.sheriff_nominate_public_msg is None)
            || (self.stage == Stage::DaySpeech && self.day_speech_public_msg is None) {
            self.human_wolves()
        } else {
            Seq::empty()
        }
    }
}

impl WolfGame {
    fn input_card(&self, seat: usize) -> (r: Json)
        requires
            self@.wf(),
            seat < self@.players.len(),
            self.stage == Stage::WolvesPick || self.stage == Stage::SheriffSpeech || self.stage
                == Stage::DaySpeech || self.stage == Stage::LastWords,
        ensures
            exists|id: Seq<char>|
                is_hex_id(id) && Some(r.model()) == #[trigger] self@.private_card(seat, id),
    {
        let p = &self.players[seat];
        let ghost v = p.deep_view();
        if self.stage == Stage::WolvesPick {
            let c = build_wolf_night_card(self, p);
            proof {
                let id = choose|id: Seq<char>|
                    is_hex_id(id) && c.model() == #[trigger] self@.wolf_card(v, id);
                assert(Some(c.model()) == self@.private_card(seat, id));
            }
            c
        } else if self.stage == Stage::LastWords {
            let c = build_last_words_private_card(self, p);
            proof {
                let id = choose|id: Seq<char>|
                    is_hex_id(id) && c.model() == #[trigger] self@.last_words_input_card(v, id);
                assert(Some(c.model()) == self@.private_card(seat, id));
            }
            c
        } else if self.stage == Stage::SheriffSpeech {
            let c = build_speech_private_card(
                self,
                p,
                "🎤 你的竞选发言",
                "yellow",
                "wolf_sheriff_speech_submit",
                "wolf_sheriff_speech_skip",
                "拉票 / 自报身份 / 攻击对手…",
            );
            proof {
                let id = choose|id: Seq<char>|
                    is_hex_id(id) && c.model() == #[trigger] self@.speech_input_card(
                        v,
                        "🎤 你的竞选发言"@,
                        "yellow"@,
                        "wolf_sheriff_speech_submit"@,
                        "wolf_sheriff_speech_skip"@,
                        "拉票 / 自报身份 / 攻击对手…"@,
                        id,
                    );
                assert(Some(c.model()) == self@.private_card(seat, id));
            }
            c
        } else {
            let c = build_speech_private_card(
                self,
                p,
                "🎤 你的白天发言",
                "wathet",
                "wolf_day_speech_submit",
                "wolf_day_speech_skip",
                "分析 / 报查验 / 表态…",
            );
            proof {
                let id = choose|id: Seq<char>|
                    is_hex_id(id) && c.model() == #[trigger] self@.speech_input_card(
                        v,
                        "🎤 你的白天发言"@,
                        "wathet"@,
                        "wolf_day_speech_submit"@,
                        "wolf_day_speech_skip"@,
                        "分析 / 报查验 / 表态…"@,
                        id,
                    );
                assert(Some(c.model()) == self@.private_card(seat, id));
            }
            c
        }
    }

    /// The card that the human in a seat is handed at this stage.
    pub fn private_card(&self, seat: usize) -> (r: Option<Json>)
        requires
            self@.wf(),
            seat < self@.players.len(),
        ensures
            exists|id: Seq<char>|
                is_hex_id(id) && model_of(r) == #[trigger] self@.private_card(seat, id),
    {
        let p = &self.players[seat];
        let c = match self.stage {
            Stage::WolvesPick => Some(self.input_card(seat)),
            Stage::SheriffSpeech => Some(self.input_card(seat)),
            Stage::DaySpeech => Some(self.input_card(seat)),
            Stage::LastWords => Some(self.input_card(seat)),
            Stage::GuardPick => Some(build_guard_night_card(self, p)),
            Stage::SeerPick => Some(build_seer_night_card(self, p)),
            Stage::WitchAct => Some(build_witch_night_card(self, p)),
            Stage::SheriffNominate => Some(build_sheriff_nominate_card(self, p)),
            Stage::SheriffWithdraw => Some(build_sheriff_withdraw_card(self, p)),
            Stage::SheriffVote => Some(build_sheriff_vote_card(self, p)),
            Stage::SheriffPickDirection => Some(build_sheriff_direction_card(self, p)),
            Stage::DayVote => Some(build_vote_card(self, p)),
            Stage::HunterShoot => Some(build_hunter_card(self, p)),
            Stage::BadgePass => Some(build_badge_pass_card(self, p)),
            _ => None,
        };
        proof {
            let z = Seq::new(32, |i: int| '0');
            assert(is_hex_id(z));
            assert(self@.private_card(seat, z) is Some || self@.private_card(seat, z) is None);
        }
        c
    }

    /// The message with a card that a new one replaces.
    pub fn replaced_msg(&self, seat: usize) -> (r: Option<String>)
        ensures
            r.deep_view() == self@.replaced_msg(seat),
    {
        match self.stage {
            Stage::WolvesPick => match self.wolf_night_msg(seat) {
                Some(m) => Some(m.to_owned()),
                None => None,
            },
            Stage::SheriffSpeech => same_opt(&self.sheriff_speech_private_msg),
            Stage::DaySpeech => same_opt(&self.day_speech_private_msg),
            Stage::LastWords => same_opt(&self.last_words_private_msg),
            _ => None,
        }
    }

    /// Notes the id of a private card that was sent at a stage.
    pub fn note_private(&mut self, stage: Stage, seat: usize, id: String)
        requires
            seat < old(self)@.players.len(),
        ensures
            final(self)@ == old(self)@.private_noted(stage, seat, id@),
            old(self)@.wf() ==> final(self)@.wf(),
    {
        proof {
            lemma_private_noted_wf(self@, stage, seat, id@);
        }
        match stage {
            Stage::WolvesPick => {
                self.set_wolf_night_msg(seat, id);
            },
            Stage::SheriffNominate => {
                let who = self.players[seat].open_id.clone();
                if self.stage == stage && self.sheriff_nominate_msg(who.as_str()).is_none() {
                    self.set_sheriff_nominate_msg(who.as_str(), id);
                }
            },
            Stage::SheriffVote => {
                let who = self.players[seat].open_id.clone();
                if self.stage == stage && self.sheriff_vote_msg(who.as_str()).is_none() {
                    self.set_sheriff_vote_msg(who.as_str(), id);
                }
            },
            Stage::DayVote => {
                let who = self.players[seat].open_id.clone();
                if self.stage == stage && self.day_vote_msg(who.as_str()).is_none() {
                    self.set_day_vote_msg(who.as_str(), id);
                }
            },
            Stage::SheriffSpeech => {
                self.sheriff_speech_private_msg = Some(id);
            },
            Stage::DaySpeech => {
                self.day_speech_private_msg = Some(id);
            },
            Stage::LastWords => {
                self.last_words_private_msg = Some(id);
            },
            _ => {},
        }
    }

    /// The human wolves who are handed the card with which to blow up.
    pub fn warned_wolves(&self) -> (r: Vec<usize>)
        ensures
            r@ == self@.warned_wolves(),
    {
        if (self.stage == Stage::SheriffNominate && self.sheriff_nominate_public_msg.is_none())
            || (self.stage == Stage::DaySpeech && self.day_speech_public_msg.is_none()) {
            self.list_human_wolves()
        } else {
            Vec::new()
        }
    }
}

/// A table on which a private card is noted is as well-formed as before.
proof fn lemma_private_noted_wf(g: GameView, stage: Stage, seat: usize, id: Seq<char>)
    requires
        seat < g.players.len(),
    ensures
        g.wf() ==> g.private_noted(stage, seat, id).wf(),
{
}

} // verus!
