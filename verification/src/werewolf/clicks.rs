//! What the buttons of the game do.

use vstd::prelude::*;
use crate::json::{Json, JsonView};
use crate::text::{same, trim, trimmed};
use crate::werewolf::actions::{Action, ActionView, Outcome};
use crate::werewolf::cards::build_seer_result_card;
use crate::werewolf::day_cards::{build_sheriff_direction_announce, direction_announced};
use crate::werewolf::flow::lemma_some_start;
use crate::werewolf::settle::model_of;
use crate::werewolf::state::{GameView, WolfGame};
use crate::werewolf::table::follows_with;
use crate::werewolf::types::{Player, PlayerView};
use crate::werewolf::vote_cards::{badge_announced, build_badge_announce_card,
    build_explosion_announce_card, build_hunter_announce_card, explosion_announced, seen, shot_announced};

verus! {

/// A button that was pressed.
#[derive(Debug)]
pub struct Click {
    /// What the button is for.
    pub action: String,
    /// Who pressed it.
    pub open_id: String,
    /// Who may press it; empty if anybody may.
    pub actor: String,
    /// The game it belongs to; zero if any.
    pub game: u64,
    /// The player it picks.
    pub target: Option<String>,
    /// What was typed for the wolves' chat.
    pub message: String,
    /// What was typed as a speech.
    pub speech: String,
}

/// A button that was pressed.
pub struct ClickView {
    pub action: Seq<char>,
    pub open_id: Seq<char>,
    pub actor: Seq<char>,
    pub game: u64,
    pub target: Option<Seq<char>>,
    pub message: Seq<char>,
    pub speech: Seq<char>,
}

impl View for Click {
    type V = ClickView;

    open spec fn view(&self) -> ClickView {
        ClickView {
            action: self.action@,
            open_id: self.open_id@,
            actor: self.actor@,
            game: self.game,
            target: self.target.deep_view(),
            message: self.message@,
            speech: self.speech@,
        }
    }
}

/// The button for an action, with the value it carries, pressed by somebody along with
/// what was typed into the form around it.
pub open spec fn pressed(
    value: JsonView,
    form: JsonView,
    action: Seq<char>,
    who: Seq<char>,
) -> ClickView {
    ClickView {
        action,
        open_id: who,
        actor: value.text_or_empty("actor"@),
        game: match value.int_at("game"@) {
            Some(n) => n,
            None => 0,
        },
        target: value.text_at("target"@),
        message: form.text_or_empty("message"@),
        speech: form.text_or_empty("speech"@),
    }
}

impl Click {
    /// Reads a button that was pressed.
    pub fn read(value: &Json, form: &Json, action: &str, who: &str) -> (r: Click)
        ensures
            r@ == pressed(value.model(), form.model(), action@, who@),
    {
        let game: u64 = match value.int_at("game") {
            Some(n) => n,
            None => 0,
        };
        Click {
            action: action.to_owned(),
            open_id: who.to_owned(),
            actor: value.text_or_empty("actor"),
            game,
            target: value.text_at("target"),
            message: form.text_or_empty("message"),
            speech: form.text_or_empty("speech"),
        }
    }
}

/// What is answered to a button.
#[derive(Debug)]
pub struct Reply {
    /// What is shown to who pressed it.
    pub toast: Option<String>,
    /// Whether the table has changed and is to be stored.
    pub saved: bool,
    /// A card for everybody.
    pub announce: Option<Json>,
    /// A card for who pressed it.
    pub private: Option<Json>,
    /// Whether the wolves' cards are to be refreshed.
    pub wolves: bool,
    /// Whether the public progress card is to be refreshed.
    pub progress: bool,
    /// Whether the table may go on.
    pub advance: bool,
    /// The card with all roles, if the game is over.
    pub summary: Option<Json>,
}

/// What is answered to a button.
pub struct ReplyView {
    pub toast: Option<Seq<char>>,
    pub saved: bool,
    pub announce: Option<JsonView>,
    pub private: Option<JsonView>,
    pub wolves: bool,
    pub progress: bool,
    pub advance: bool,
    pub summary: Option<JsonView>,
}

impl View for Reply {
    type V = ReplyView;

    open spec fn view(&self) -> ReplyView {
        ReplyView {
            toast: self.toast.deep_view(),
            saved: self.saved,
            announce: model_of(self.announce),
            private: model_of(self.private),
            wolves: self.wolves,
            progress: self.progress,
            advance: self.advance,
            summary: model_of(self.summary),
        }
    }
}

/// An answer that is only shown, or no answer at all.
pub open spec fn only_toast(t: Option<Seq<char>>) -> ReplyView {
    ReplyView {
        toast: t,
        saved: false,
        announce: None,
        private: None,
        wolves: false,
        progress: false,
        advance: false,
        summary: None,
    }
}

impl ClickView {
    /// The picked player, if one is picked.
    pub open spec fn pick(self) -> Result<Seq<char>, Seq<char>> {
        match self.target {
            Some(t) => Ok(t),
            None => Err("目标无效"@),
        }
    }

    /// What a button of the night is for; nothing if it is another button.
    pub open spec fn by_night(self) -> Option<Result<ActionView, Seq<char>>> {
        if self.action == "wolf_guard_pick"@ {
            Some(
                match self.pick() {
                    Ok(t) => Ok(ActionView::GuardPick(t)),
                    Err(e) => Err(e),
                },
            )
        } else if self.action == "wolf_guard_skip"@ {
            Some(Ok(ActionView::GuardSkip))
        } else if self.action == "wolf_kill"@ {
            Some(
                match self.pick() {
                    Ok(t) => Ok(ActionView::WolfPick(t)),
                    Err(e) => Err(e),
                },
            )
        } else if self.action == "wolf_chat_send"@ {
            Some(
                if trimmed(self.message).len() == 0 {
                    Err("发言为空"@)
                } else {
                    Ok(ActionView::WolfSay(trimmed(self.message)))
                },
            )
        } else if self.action == "wolf_ready"@ {
            Some(Ok(ActionView::WolfReady))
        } else if self.action == "wolf_seer_check"@ {
            Some(
                match self.pick() {
                    Ok(t) => Ok(ActionView::SeerCheck(t)),
                    Err(e) => Err(e),
                },
            )
        } else if self.action == "wolf_witch_save"@ {
            Some(Ok(ActionView::Witch { save: true, poison: None }))
        } else if self.action == "wolf_witch_skip"@ {
            Some(Ok(ActionView::Witch { save: false, poison: None }))
        } else if self.action == "wolf_witch_poison"@ {
            Some(
                match self.pick() {
                    Ok(t) => Ok(ActionView::Witch { save: false, poison: Some(t) }),
                    Err(e) => Err(e),
                },
            )
        } else {
            None
        }
    }

    /// What a button of the election is for; nothing if it is another button.
    pub open spec fn by_election(self) -> Option<Result<ActionView, Seq<char>>> {
        if self.action == "wolf_sheriff_run"@ {
            Some(Ok(ActionView::Nominate(true)))
        } else if self.action == "wolf_sheriff_skip"@ {
            Some(Ok(ActionView::Nominate(false)))
        } else if self.action == "wolf_sheriff_speech_submit"@ {
            Some(Ok(ActionView::SheriffSpeech(self.speech)))
        } else if self.action == "wolf_sheriff_speech_skip"@ {
            Some(Ok(ActionView::SheriffSpeech(Seq::empty())))
        } else if self.action == "wolf_sheriff_stay"@ {
            Some(Ok(ActionView::Stay(true)))
        } else if self.action == "wolf_sheriff_withdraw"@ {
            Some(Ok(ActionView::Stay(false)))
        } else if self.action == "wolf_sheriff_vote"@ {
            Some(
                match self.pick() {
                    Ok(t) => Ok(ActionView::Elect(Some(t))),
                    Err(e) => Err(e),
                },
            )
        } else if self.action == "wolf_sheriff_vote_abstain"@ {
            Some(Ok(ActionView::Elect(None)))
        } else if self.action == "wolf_sheriff_dir_up"@ {
            Some(Ok(ActionView::Direction(true)))
        } else if self.action == "wolf_sheriff_dir_down"@ {
            Some(Ok(ActionView::Direction(false)))
        } else {
            None
        }
    }

    /// What a button of the day is for; nothing if it is another button.
    pub open spec fn by_day(self) -> Option<Result<ActionView, Seq<char>>> {
        if self.action == "wolf_day_speech_submit"@ {
            Some(Ok(ActionView::DaySpeech(self.speech)))
        } else if self.action == "wolf_day_speech_skip"@ {
            Some(Ok(ActionView::DaySpeech(Seq::empty())))
        } else if self.action == "wolf_last_words_submit"@ {
            Some(Ok(ActionView::LastWords(self.speech)))
        } else if self.action == "wolf_last_words_skip"@ {
            Some(Ok(ActionView::LastWords(Seq::empty())))
        } else if self.action == "wolf_vote"@ {
            Some(
                match self.pick() {
                    Ok(t) => Ok(ActionView::Vote(Some(t))),
                    Err(e) => Err(e),
                },
            )
        } else if self.action == "wolf_vote_abstain"@ {
            Some(Ok(ActionView::Vote(None)))
        } else if self.action == "wolf_hunter_shoot"@ {
            Some(
                match self.pick() {
                    Ok(t) => Ok(ActionView::Shoot(Some(t))),
                    Err(e) => Err(e),
                },
            )
        } else if self.action == "wolf_hunter_skip"@ {
            Some(Ok(ActionView::Shoot(None)))
        } else if self.action == "wolf_badge_pass"@ {
            Some(
                match self.pick() {
                    Ok(t) => Ok(ActionView::Badge(Some(t))),
                    Err(e) => Err(e),
                },
            )
        } else if self.action == "wolf_badge_destroy"@ {
            Some(Ok(ActionView::Badge(None)))
        } else if self.action == "wolf_self_explode"@ {
            Some(Ok(ActionView::Explode))
        } else {
            None
        }
    }

    /// What the button is for: an action, a refusal, or nothing of the game.
    pub open spec fn wanted(self) -> Option<Result<ActionView, Seq<char>>> {
        if self.by_night() is Some {
            self.by_night()
        } else if self.by_election() is Some {
            self.by_election()
        } else {
            self.by_day()
        }
    }

    /// Whether somebody else may press the button.
    pub open spec fn not_yours(self) -> bool {
        self.actor.len() > 0 && self.open_id != self.actor
    }
}

/// The view of what a button is for.
pub open spec fn wish(w: Option<Result<Action, &'static str>>) -> Option<
    Result<ActionView, Seq<char>>,
> {
    match w {
        None => None,
        Some(Ok(a)) => Some(Ok(a.deep_view())),
        Some(Err(t)) => Some(Err(t@)),
    }
}

impl Click {
    fn is(&self, action: &str) -> (r: bool)
        ensures
            r == (self@.action == action@),
    {
        same(self.action.as_str(), action)
    }

    fn picked(&self) -> (r: Result<String, &'static str>)
        ensures
            match r {
                Ok(t) => self@.pick() == Ok::<Seq<char>, Seq<char>>(t@),
                Err(e) => self@.pick() == Err::<Seq<char>, Seq<char>>(e@),
            },
    {
        match &self.target {
            Some(t) => Ok(t.clone()),
            None => Err("目标无效"),
        }
    }

    fn wanted_by_night(&self) -> (r: Option<Result<Action, &'static str>>)
        ensures
            wish(r) == self@.by_night(),
    {
        if self.is("wolf_guard_pick") {
            Some(
                match self.picked() {
                    Ok(t) => Ok(Action::GuardPick(t)),
                    Err(e) => Err(e),
                },
            )
        } else if self.is("wolf_guard_skip") {
            Some(Ok(Action::GuardSkip))
        } else if self.is("wolf_kill") {
            Some(
                match self.picked() {
                    Ok(t) => Ok(Action::WolfPick(t)),
                    Err(e) => Err(e),
                },
            )
        } else if self.is("wolf_chat_send") {
            let said = trim(self.message.as_str());
            Some(
                if said.is_empty() {
                    Err("发言为空")
                } else {
                    Ok(Action::WolfSay(said.to_owned()))
                },
            )
        } else if self.is("wolf_ready") {
            Some(Ok(Action::WolfReady))
        } else if self.is("wolf_seer_check") {
            Some(
                match self.picked() {
                    Ok(t) => Ok(Action::SeerCheck(t)),
                    Err(e) => Err(e),
                },
            )
        } else if self.is("wolf_witch_save") {
            Some(Ok(Action::Witch { save: true, poison: None }))
        } else if self.is("wolf_witch_skip") {
            Some(Ok(Action::Witch { save: false, poison: None }))
        } else if self.is("wolf_witch_poison") {
            Some(
                match self.picked() {
                    Ok(t) => Ok(Action::Witch { save: false, poison: Some(t) }),
                    Err(e) => Err(e),
                },
            )
        } else {
            None
        }
    }

    fn wanted_by_election(&self) -> (r: Option<Result<Action, &'static str>>)
        ensures
            wish(r) == self@.by_election(),
    {
        if self.is("wolf_sheriff_run") {
            Some(Ok(Action::Nominate(true)))
        } else if self.is("wolf_sheriff_skip") {
            Some(Ok(Action::Nominate(false)))
        } else if self.is("wolf_sheriff_speech_submit") {
            Some(Ok(Action::SheriffSpeech(self.speech.clone())))
        } else if self.is("wolf_sheriff_speech_skip") {
            Some(Ok(Action::SheriffSpeech(String::new())))
        } else if self.is("wolf_sheriff_stay") {
            Some(Ok(Action::Stay(true)))
        } else if self.is("wolf_sheriff_withdraw") {
            Some(Ok(Action::Stay(false)))
        } else if self.is("wolf_sheriff_vote") {
            Some(
                match self.picked() {
                    Ok(t) => Ok(Action::Elect(Some(t))),
                    Err(e) => Err(e),
                },
            )
        } else if self.is("wolf_sheriff_vote_abstain") {
            Some(Ok(Action::Elect(None)))
        } else if self.is("wolf_sheriff_dir_up") {
            Some(Ok(Action::Direction(true)))
        } else if self.is("wolf_sheriff_dir_down") {
            Some(Ok(Action::Direction(false)))
        } else {
            None
        }
    }

    fn wanted_by_day(&self) -> (r: Option<Result<Action, &'static str>>)
        ensures
            wish(r) == self@.by_day(),
    {
        if self.is("wolf_day_speech_submit") {
            Some(Ok(Action::DaySpeech(self.speech.clone())))
        } else if self.is("wolf_day_speech_skip") {
            Some(Ok(Action::DaySpeech(String::new())))
        } else if self.is("wolf_last_words_submit") {
            Some(Ok(Action::LastWords(self.speech.clone())))
        } else if self.is("wolf_last_words_skip") {
            Some(Ok(Action::LastWords(String::new())))
        } else if self.is("wolf_vote") {
            Some(
                match self.picked() {
                    Ok(t) => Ok(Action::Vote(Some(t))),
                    Err(e) => Err(e),
                },
            )
        } else if self.is("wolf_vote_abstain") {
            Some(Ok(Action::Vote(None)))
        } else if self.is("wolf_hunter_shoot") {
            Some(
                match self.picked() {
                    Ok(t) => Ok(Action::Shoot(Some(t))),
                    Err(e) => Err(e),
                },
            )
        } else if self.is("wolf_hunter_skip") {
            Some(Ok(Action::Shoot(None)))
        } else if self.is("wolf_badge_pass") {
            Some(
                match self.picked() {
                    Ok(t) => Ok(Action::Badge(Some(t))),
                    Err(e) => Err(e),
                },
            )
        } else if self.is("wolf_badge_destroy") {
            Some(Ok(Action::Badge(None)))
        } else if self.is("wolf_self_explode") {
            Some(Ok(Action::Explode))
        } else {
            None
        }
    }

    /// What the button is for: an action, a refusal, or nothing of the game.
    pub fn wanted(&self) -> (r: Option<Result<Action, &'static str>>)
        ensures
            wish(r) == self@.wanted(),
    {
        let night = self.wanted_by_night();
        if night.is_some() {
            return night;
        }
        let election = self.wanted_by_election();
        if election.is_some() {
            return election;
        }
        self.wanted_by_day()
    }

    /// Whether somebody else may press the button.
    fn not_yours(&self) -> (r: bool)
        ensures
            r == self@.not_yours(),
    {
        !self.actor.as_str().is_empty() && !(self.open_id == self.actor)
    }
}

/// What is shown after an action.
pub open spec fn done_toast(a: ActionView) -> Option<Seq<char>> {
    match a {
        ActionView::GuardPick(_) => Some("已守护"@),
        ActionView::GuardSkip => Some("已空守"@),
        ActionView::WolfPick(_) => Some("已选目标 · 改主意可再点"@),
        ActionView::WolfSay(_) => None,
        ActionView::WolfReady => Some("已就绪 · 等队友"@),
        ActionView::SeerCheck(_) => None,
        ActionView::Witch { .. } => Some("已确认"@),
        ActionView::Nominate(run) => Some(
            if run {
                "已上警"@
            } else {
                "未上警"@
            },
        ),
        ActionView::SheriffSpeech(_) => Some("发言已提交"@),
        ActionView::Stay(stay) => Some(
            if stay {
                "继续参选"@
            } else {
                "已退水"@
            },
        ),
        ActionView::Elect(_) => Some("已投票"@),
        ActionView::Direction(up) => Some(
            if up {
                "已选警上"@
            } else {
                "已选警下"@
            },
        ),
        ActionView::DaySpeech(_) => Some("发言已提交"@),
        ActionView::Vote(t) => Some(
            if t is Some {
                "已投票"@
            } else {
                "已弃权"@
            },
        ),
        ActionView::LastWords(_) => Some("遗言已记录"@),
        ActionView::Shoot(_) => None,
        ActionView::Badge(_) => None,
        ActionView::Explode => None,
    }
}

impl GameView {
    /// The player in a seat, if there is one.
    pub open spec fn player_at(self, o: Option<usize>) -> Option<PlayerView> {
        match o {
            Some(i) => if i < self.players.len() {
                Some(self.players[i as int])
            } else {
                None
            },
            None => None,
        }
    }

    /// The card for everybody after an action.
    pub open spec fn announced(self, who: Seq<char>, a: ActionView, out: Outcome) -> Option<
        JsonView,
    > {
        match a {
            ActionView::Direction(up) => match self.player_at(self.sheriff_idx) {
                Some(p) => Some(direction_announced(p, up)),
                None => None,
            },
            ActionView::Shoot(_) => match self.player_at(self.seat_of(who)) {
                Some(p) => Some(shot_announced(p, self.player_at(out.seat_told()))),
                None => None,
            },
            ActionView::Badge(_) => match self.player_at(self.seat_of(who)) {
                Some(p) => Some(badge_announced(p, self.player_at(out.seat_told()))),
                None => None,
            },
            ActionView::Explode => match self.player_at(out.seat_told()) {
                Some(p) => Some(explosion_announced(p)),
                None => None,
            },
            _ => None,
        }
    }

    /// The card for who acted.
    pub open spec fn told(self, a: ActionView, out: Outcome) -> Option<JsonView> {
        match a {
            ActionView::SeerCheck(t) => match self.player_at(self.seat_of(t)) {
                Some(p) => Some(self.seer_result_card(p, out.wolf_found())),
                None => None,
            },
            _ => None,
        }
    }

    /// What is answered after an action that led to this table.
    pub open spec fn done(self, who: Seq<char>, a: ActionView, out: Outcome) -> ReplyView {
        ReplyView {
            toast: done_toast(a),
            saved: true,
            announce: self.announced(who, a, out),
            private: self.told(a, out),
            wolves: a is WolfPick || a is WolfSay || a is WolfReady,
            progress: a is WolfPick || a is WolfReady || a is Nominate || a is Elect || a is Vote,
            advance: !(a is WolfSay),
            summary: self.final_card(),
        }
    }

    /// Whether the button is of another game.
    pub open spec fn stale(self, c: ClickView) -> bool {
        c.game != 0 && c.game as u32 != self.game_count
    }

    /// The table and the answer after a button was pressed; if day speeches begin without
    /// a sheriff, they begin at seat `start`.
    pub open spec fn clicked(self, c: ClickView, start: usize) -> (GameView, ReplyView) {
        if self.stale(c) {
            (self, only_toast(Some("这是上一局的按钮"@)))
        } else if c.not_yours() {
            (self, only_toast(Some("这张卡片不是给你的"@)))
        } else {
            match c.wanted() {
                None => (self, only_toast(None)),
                Some(Err(t)) => (self, only_toast(Some(t))),
                Some(Ok(a)) => match self.tried(c.open_id, a, start) {
                    Ok(p) => (p.0, p.0.done(c.open_id, a, p.1)),
                    Err(e) => (self, only_toast(Some(e.text()))),
                },
            }
        }
    }
}

fn toast_only(t: Option<String>) -> (r: Reply)
    ensures
        r@ == only_toast(t.deep_view()),
{
    Reply {
        toast: t,
        saved: false,
        announce: None,
        private: None,
        wolves: false,
        progress: false,
        advance: false,
        summary: None,
    }
}

/// What is answered to a button when there is no table.
pub open spec fn no_table(c: ClickView) -> ReplyView {
    only_toast(
        if c.not_yours() {
            Some("这张卡片不是给你的"@)
        } else {
            match c.wanted() {
                None => None,
                Some(Err(t)) => Some(t),
                Some(Ok(_)) => Some("游戏不存在"@),
            }
        },
    )
}

/// Answers a button when there is no table.
pub fn reply_without_table(c: &Click) -> (r: Reply)
    ensures
        r@ == no_table(c@),
{
    if c.not_yours() {
        return toast_only(Some("这张卡片不是给你的".to_owned()));
    }
    match c.wanted() {
        None => toast_only(None),
        Some(Err(t)) => toast_only(Some(t.to_owned())),
        Some(Ok(_)) => toast_only(Some("游戏不存在".to_owned())),
    }
}

/// Which of the actions are told of, with what is told.
enum Telling {
    Direction(bool),
    Shot,
    Badge,
    Explosion,
    Check(String),
    Nothing,
}

impl Telling {
    spec fn fits(self, a: ActionView) -> bool {
        match a {
            ActionView::Direction(up) => self == Telling::Direction(up),
            ActionView::Shoot(_) => self is Shot,
            ActionView::Badge(_) => self is Badge,
            ActionView::Explode => self is Explosion,
            ActionView::SeerCheck(t) => self is Check && self->Check_0@ == t,
            _ => self is Nothing,
        }
    }
}

impl Action {
    fn telling(&self) -> (r: Telling)
        ensures
            r.fits(self.deep_view()),
    {
        match self {
            Action::Direction(up) => Telling::Direction(*up),
            Action::Shoot(_) => Telling::Shot,
            Action::Badge(_) => Telling::Badge,
            Action::Explode => Telling::Explosion,
            Action::SeerCheck(t) => Telling::Check(t.clone()),
            _ => Telling::Nothing,
        }
    }

    fn toast(&self) -> (r: Option<&'static str>)
        ensures
            r.deep_view() == done_toast(self.deep_view()),
    {
        match self {
            Action::GuardPick(_) => Some("已守护"),
            Action::GuardSkip => Some("已空守"),
            Action::WolfPick(_) => Some("已选目标 · 改主意可再点"),
            Action::WolfSay(_) => None,
            Action::WolfReady => Some("已就绪 · 等队友"),
            Action::SeerCheck(_) => None,
            Action::Witch { .. } => Some("已确认"),
            Action::Nominate(run) => if *run {
                Some("已上警")
            } else {
                Some("未上警")
            },
            Action::SheriffSpeech(_) => Some("发言已提交"),
            Action::Stay(stay) => if *stay {
                Some("继续参选")
            } else {
                Some("已退水")
            },
            Action::Elect(_) => Some("已投票"),
            Action::Direction(up) => if *up {
                Some("已选警上")
            } else {
                Some("已选警下")
            },
            Action::DaySpeech(_) => Some("发言已提交"),
            Action::Vote(t) => match t {
                Some(_) => Some("已投票"),
                None => Some("已弃权"),
            },
            Action::LastWords(_) => Some("遗言已记录"),
            Action::Shoot(_) => None,
            Action::Badge(_) => None,
            Action::Explode => None,
        }
    }

    fn is_wolf_talk(&self) -> (r: bool)
        ensures
            r == (self.deep_view() is WolfSay),
    {
        match self {
            Action::WolfSay(_) => true,
            _ => false,
        }
    }

    fn is_wolf_step(&self) -> (r: bool)
        ensures
            r == (self.deep_view() is WolfPick || self.deep_view() is WolfReady),
    {
        match self {
            Action::WolfPick(_) => true,
            Action::WolfReady => true,
            _ => false,
        }
    }

    fn is_ballot(&self) -> (r: bool)
        ensures
            r == (self.deep_view() is Nominate || self.deep_view() is Elect
                || self.deep_view() is Vote),
    {
        match self {
            Action::Nominate(_) => true,
            Action::Elect(_) => true,
            Action::Vote(_) => true,
            _ => false,
        }
    }
}

impl WolfGame {
    /// The player in a seat, if there is one.
    pub fn at_seat(&self, o: Option<usize>) -> (r: Option<&Player>)
        ensures
            seen(r) == self@.player_at(o),
    {
        match o {
            Some(i) => if i < self.players.len() {
                Some(&self.players[i])
            } else {
                None
            },
            None => None,
        }
    }

    fn tell_all(&self, who: &str, what: &Telling, out: Outcome, Ghost(a): Ghost<ActionView>) -> (r:
        Option<Json>)
        requires
            what.fits(a),
        ensures
            model_of(r) == self@.announced(who@, a, out),
    {
        match what {
            Telling::Direction(up) => match self.at_seat(self.sheriff_idx) {
                Some(p) => Some(build_sheriff_direction_announce(self, p, *up)),
                None => None,
            },
            Telling::Shot => match self.at_seat(self.find_player(who)) {
                Some(p) => Some(build_hunter_announce_card(p, self.at_seat(out.seat()))),
                None => None,
            },
            Telling::Badge => match self.at_seat(self.find_player(who)) {
                Some(p) => Some(build_badge_announce_card(p, self.at_seat(out.seat()))),
                None => None,
            },
            Telling::Explosion => match self.at_seat(out.seat()) {
                Some(p) => Some(build_explosion_announce_card(p)),
                None => None,
            },
            _ => None,
        }
    }

    fn tell_actor(&self, what: &Telling, out: Outcome, Ghost(a): Ghost<ActionView>) -> (r: Option<
        Json,
    >)
        requires
            what.fits(a),
        ensures
            model_of(r) == self@.told(a, out),
    {
        match what {
            Telling::Check(t) => match self.at_seat(self.find_player(t.as_str())) {
                Some(p) => Some(build_seer_result_card(self, p, out.is_wolf())),
                None => None,
            },
            _ => None,
        }
    }

    /// Somebody presses a button.
    pub fn click(&mut self, c: &Click) -> (r: Reply)
        requires
            old(self)@.wf(),
            old(self).day < u32::MAX,
        ensures
            final(self)@.wf(),
            exists|start: usize|
                final(self)@.may_start(start) && (final(self)@, r@) == #[trigger] old(
                    self,
                )@.clicked(c@, start),
    {
        let ghost g = self@;
        let ghost start = lemma_some_start(g);
        assert(g.clicked(c@, start).0 == g || g.clicked(c@, start).0 != g);
        if c.game != 0 && c.game as u32 != self.game_count {
            return toast_only(Some("这是上一局的按钮".to_owned()));
        }
        if c.not_yours() {
            return toast_only(Some("这张卡片不是给你的".to_owned()));
        }
        let action = match c.wanted() {
            None => {
                return toast_only(None);
            },
            Some(Err(t)) => {
                return toast_only(Some(t.to_owned()));
            },
            Some(Ok(a)) => a,
        };
        let ghost a = action.deep_view();
        let who = c.open_id.as_str();
        let what = action.telling();
        let toast = match action.toast() {
            Some(t) => Some(t.to_owned()),
            None => None,
        };
        let talk = action.is_wolf_talk();
        let step = action.is_wolf_step();
        let ballot = action.is_ballot();
        let acted = self.act(who, action);
        let ghost start = choose|start: usize|
            self@.may_start(start) && follows_with(
                acted,
                g,
                self@,
                #[trigger] g.tried(who@, a, start),
            );
        match acted {
            Err(e) => {
                let r = toast_only(Some(e.to_string()));
                assert((self@, r@) == g.clicked(c@, start));
                r
            },
            Ok(out) => {
                let r = Reply {
                    toast,
                    saved: true,
                    announce: self.tell_all(who, &what, out, Ghost(a)),
                    private: self.tell_actor(&what, out, Ghost(a)),
                    wolves: talk || step,
                    progress: step || ballot,
                    advance: !talk,
                    summary: self.announce_end(),
                };
                assert((self@, r@) == g.clicked(c@, start));
                r
            },
        }
    }
}

} // verus!
