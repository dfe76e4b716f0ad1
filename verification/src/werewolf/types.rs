//! The enumerations of the game and the records its logs are made of.

use vstd::prelude::*;
use crate::persona::Persona;

verus! {

/// The identities.
#[derive(Debug, Clone, Copy, PartialEq, Eq, Structural)]
pub enum Role {
    Werewolf,
    /// Of the wolves' side; shoots when banished or killed by wolves, not when poisoned.
    WolfKing,
    Villager,
    Seer,
    Witch,
    Hunter,
    Guard,
}

impl DeepView for Role {
    type V = Role;

    open spec fn deep_view(&self) -> Role {
        *self
    }
}

impl Role {
    /// The name of the role.
    pub open spec fn label_text(self) -> Seq<char> {
        match self {
            Role::Werewolf => "狼人"@,
            Role::WolfKing => "狼王"@,
            Role::Villager => "村民"@,
            Role::Seer => "预言家"@,
            Role::Witch => "女巫"@,
            Role::Hunter => "猎人"@,
            Role::Guard => "守卫"@,
        }
    }

    /// The name of the role.
    pub fn label(self) -> (r: &'static str)
        ensures
            r@ == self.label_text(),
    {
        match self {
            Role::Werewolf => "狼人",
            Role::WolfKing => "狼王",
            Role::Villager => "村民",
            Role::Seer => "预言家",
            Role::Witch => "女巫",
            Role::Hunter => "猎人",
            Role::Guard => "守卫",
        }
    }

    /// The emoji of the role.
    pub open spec fn emoji_text(self) -> Seq<char> {
        match self {
            Role::Werewolf => "🐺"@,
            Role::WolfKing => "👑"@,
            Role::Villager => "👨‍🌾"@,
            Role::Seer => "🔮"@,
            Role::Witch => "🧪"@,
            Role::Hunter => "🏹"@,
            Role::Guard => "🛡️"@,
        }
    }

    /// The emoji of the role.
    pub fn emoji(self) -> (r: &'static str)
        ensures
            r@ == self.emoji_text(),
    {
        match self {
            Role::Werewolf => "🐺",
            Role::WolfKing => "👑",
            Role::Villager => "👨‍🌾",
            Role::Seer => "🔮",
            Role::Witch => "🧪",
            Role::Hunter => "🏹",
            Role::Guard => "🛡️",
        }
    }

    /// The rule text of the role.
    pub open spec fn description_text(self) -> Seq<char> {
        match self {
            Role::Werewolf => "夜晚和狼队友统一击杀目标；未统一则空刀。白天可以自爆，立即结束当天。"@,
            Role::WolfKing => "狼阵营。夜晚参与统一击杀目标，白天可以自爆。被投票放逐或狼刀杀死时可开枪带走一人；**被毒不能开枪**。预言家查验显示为狼。"@,
            Role::Villager => "没有夜间技能。靠白天投票把狼找出来。"@,
            Role::Seer => "每晚可以查验一名玩家的身份（狼人 / 好人）。"@,
            Role::Witch => "知道当晚狼人要杀谁，可选用救药救人（仅 1 次，全局），或用毒药毒一人（仅 1 次，全局）。同晚不可同时救+毒。"@,
            Role::Hunter => "被投票放逐 / 被狼人杀害时可开枪带走任意一名玩家。被毒杀则不能开枪。"@,
            Role::Guard => "每晚可以守护一名存活玩家（含自己）或空守，不能连续两晚守同一个人。同守同救：被守 + 被救者依然死亡。"@,
        }
    }

    /// The rule text of the role.
    pub fn description(self) -> (r: &'static str)
        ensures
            r@ == self.description_text(),
    {
        match self {
            Role::Werewolf => "夜晚和狼队友统一击杀目标；未统一则空刀。白天可以自爆，立即结束当天。",
            Role::WolfKing => "狼阵营。夜晚参与统一击杀目标，白天可以自爆。被投票放逐或狼刀杀死时可开枪带走一人；**被毒不能开枪**。预言家查验显示为狼。",
            Role::Villager => "没有夜间技能。靠白天投票把狼找出来。",
            Role::Seer => "每晚可以查验一名玩家的身份（狼人 / 好人）。",
            Role::Witch => "知道当晚狼人要杀谁，可选用救药救人（仅 1 次，全局），或用毒药毒一人（仅 1 次，全局）。同晚不可同时救+毒。",
            Role::Hunter => "被投票放逐 / 被狼人杀害时可开枪带走任意一名玩家。被毒杀则不能开枪。",
            Role::Guard => "每晚可以守护一名存活玩家（含自己）或空守，不能连续两晚守同一个人。同守同救：被守 + 被救者依然死亡。",
        }
    }

    /// Whether the role is of the wolves' side.
    pub open spec fn wolfish(self) -> bool {
        self == Role::Werewolf || self == Role::WolfKing
    }

    /// Whether the role is of the good side and has a skill.
    pub open spec fn godly(self) -> bool {
        !self.wolfish() && self != Role::Villager
    }

    /// Whether a holder who dies otherwise than by poison may shoot.
    pub open spec fn shoots(self) -> bool {
        self == Role::Hunter || self == Role::WolfKing
    }

    /// Whether the role is of the wolves' side.
    pub fn is_wolf(self) -> (r: bool)
        ensures
            r == self.wolfish(),
    {
        matches!(self, Role::Werewolf | Role::WolfKing)
    }
}

/// The stages of a game.
#[derive(Debug, Clone, Copy, PartialEq, Eq, Structural)]
pub enum Stage {
    /// Players gather.
    Lobby,
    /// Night: the guard protects somebody.
    GuardPick,
    /// Night: the wolves agree on a victim.
    WolvesPick,
    /// Night: the seer checks somebody.
    SeerPick,
    /// Night: the witch saves, poisons or passes.
    WitchAct,
    /// Day: last night's deaths are announced.
    DayReveal,
    /// First day: everybody says whether to run for sheriff.
    SheriffNominate,
    /// First day: the candidates speak in turn.
    SheriffSpeech,
    /// First day: the candidates stay or withdraw in turn.
    SheriffWithdraw,
    /// First day: the others elect the sheriff.
    SheriffVote,
    /// The sheriff picks the direction of the day's speeches.
    SheriffPickDirection,
    /// Day: everybody speaks in turn.
    DaySpeech,
    /// Day: the vote on whom to banish.
    DayVote,
    /// The dead of the first night and the banished have their last words.
    LastWords,
    /// A hunter or wolf king who died may shoot.
    HunterShoot,
    /// A dead sheriff passes on or destroys the badge.
    BadgePass,
    /// The game is over.
    Ended,
}

impl DeepView for Stage {
    type V = Stage;

    open spec fn deep_view(&self) -> Stage {
        *self
    }
}

impl Stage {
    /// The name of the stage.
    pub open spec fn label_text(self) -> Seq<char> {
        match self {
            Stage::Lobby => "等待玩家"@,
            Stage::GuardPick => "夜·守卫行动"@,
            Stage::WolvesPick => "夜·狼人行动"@,
            Stage::SeerPick => "夜·预言家查验"@,
            Stage::WitchAct => "夜·女巫行动"@,
            Stage::DayReveal => "白天·公布死讯"@,
            Stage::SheriffNominate => "白天·上警阶段"@,
            Stage::SheriffSpeech => "白天·上警发言"@,
            Stage::SheriffWithdraw => "白天·上警退水"@,
            Stage::SheriffVote => "白天·警长投票"@,
            Stage::SheriffPickDirection => "白天·警长选择方向"@,
            Stage::DaySpeech => "白天·轮流发言"@,
            Stage::DayVote => "白天·投票"@,
            Stage::LastWords => "死亡遗言"@,
            Stage::HunterShoot => "猎人开枪"@,
            Stage::BadgePass => "警徽流转"@,
            Stage::Ended => "游戏结束"@,
        }
    }

    /// The name of the stage.
    pub fn label(self) -> (r: &'static str)
        ensures
            r@ == self.label_text(),
    {
        match self {
            Stage::Lobby => "等待玩家",
            Stage::GuardPick => "夜·守卫行动",
            Stage::WolvesPick => "夜·狼人行动",
            Stage::SeerPick => "夜·预言家查验",
            Stage::WitchAct => "夜·女巫行动",
            Stage::DayReveal => "白天·公布死讯",
            Stage::SheriffNominate => "白天·上警阶段",
            Stage::SheriffSpeech => "白天·上警发言",
            Stage::SheriffWithdraw => "白天·上警退水",
            Stage::SheriffVote => "白天·警长投票",
            Stage::SheriffPickDirection => "白天·警长选择方向",
            Stage::DaySpeech => "白天·轮流发言",
            Stage::DayVote => "白天·投票",
            Stage::LastWords => "死亡遗言",
            Stage::HunterShoot => "猎人开枪",
            Stage::BadgePass => "警徽流转",
            Stage::Ended => "游戏结束",
        }
    }
}

/// Why somebody died.
#[derive(Debug, Clone, Copy, PartialEq, Eq, Structural)]
pub enum DeathCause {
    WolfKill,
    Poison,
    Lynch,
    HunterShot,
    SelfExplode,
}

impl DeathCause {
    /// The name of the cause.
    pub open spec fn label_text(self) -> Seq<char> {
        match self {
            DeathCause::WolfKill => "被狼人杀害"@,
            DeathCause::Poison => "被毒杀"@,
            DeathCause::Lynch => "被投票放逐"@,
            DeathCause::HunterShot => "被猎人开枪带走"@,
            DeathCause::SelfExplode => "狼人自爆"@,
        }
    }

    /// The name of the cause.
    pub fn label(self) -> (r: &'static str)
        ensures
            r@ == self.label_text(),
    {
        match self {
            DeathCause::WolfKill => "被狼人杀害",
            DeathCause::Poison => "被毒杀",
            DeathCause::Lynch => "被投票放逐",
            DeathCause::HunterShot => "被猎人开枪带走",
            DeathCause::SelfExplode => "狼人自爆",
        }
    }
}

/// The side that has won.
#[derive(Debug, Clone, Copy, PartialEq, Eq, Structural)]
pub enum Winner {
    Good,
    Wolves,
}

/// The decision at which a private thought was noted.
#[derive(Debug, Clone, Copy, PartialEq, Eq, Structural)]
pub enum ThinkingKind {
    GuardPick,
    WolfPick,
    SeerCheck,
    WitchAct,
    SheriffRun,
    SheriffSpeech,
    SheriffVote,
    SheriffDirection,
    DaySpeech,
    DayVote,
    LastWords,
    DyingShoot,
    BadgePass,
    HunterShoot,
}

impl ThinkingKind {
    /// The name of the decision.
    pub open spec fn label_text(self) -> Seq<char> {
        match self {
            ThinkingKind::GuardPick => "守卫守护"@,
            ThinkingKind::WolfPick => "狼夜杀"@,
            ThinkingKind::SeerCheck => "预言家查验"@,
            ThinkingKind::WitchAct => "女巫行动"@,
            ThinkingKind::SheriffRun => "上警决定"@,
            ThinkingKind::SheriffSpeech => "上警发言"@,
            ThinkingKind::SheriffVote => "警长投票"@,
            ThinkingKind::SheriffDirection => "警上警下选向"@,
            ThinkingKind::DaySpeech => "白天发言"@,
            ThinkingKind::DayVote => "白天投票"@,
            ThinkingKind::LastWords => "遗言"@,
            ThinkingKind::DyingShoot => "临死开枪+遗言"@,
            ThinkingKind::BadgePass => "警徽流转"@,
            ThinkingKind::HunterShoot => "猎人开枪"@,
        }
    }

    /// The name of the decision.
    pub fn label(self) -> (r: &'static str)
        ensures
            r@ == self.label_text(),
    {
        match self {
            ThinkingKind::GuardPick => "守卫守护",
            ThinkingKind::WolfPick => "狼夜杀",
            ThinkingKind::SeerCheck => "预言家查验",
            ThinkingKind::WitchAct => "女巫行动",
            ThinkingKind::SheriffRun => "上警决定",
            ThinkingKind::SheriffSpeech => "上警发言",
            ThinkingKind::SheriffVote => "警长投票",
            ThinkingKind::SheriffDirection => "警上警下选向",
            ThinkingKind::DaySpeech => "白天发言",
            ThinkingKind::DayVote => "白天投票",
            ThinkingKind::LastWords => "遗言",
            ThinkingKind::DyingShoot => "临死开枪+遗言",
            ThinkingKind::BadgePass => "警徽流转",
            ThinkingKind::HunterShoot => "猎人开枪",
        }
    }
}

/// A seat at the table.
#[derive(Debug, Clone)]
pub struct Player {
    pub open_id: String,
    pub name: String,
    /// Dealt at the start of a game; `None` in the lobby.
    pub role: Option<Role>,
    pub alive: bool,
    pub is_ai: bool,
    pub persona: Option<Persona>,
}

/// What a seat is, with its texts as sequences.
#[verifier::ext_equal]
pub struct PlayerView {
    pub open_id: Seq<char>,
    pub name: Seq<char>,
    pub role: Option<Role>,
    pub alive: bool,
    pub is_ai: bool,
    pub persona: Option<Persona>,
}

impl DeepView for Player {
    type V = PlayerView;

    open spec fn deep_view(&self) -> PlayerView {
        PlayerView {
            open_id: self.open_id@,
            name: self.name@,
            role: self.role,
            alive: self.alive,
            is_ai: self.is_ai,
            persona: self.persona,
        }
    }
}

/// A death, as the final summary shows it.
#[derive(Debug, Clone, Copy, PartialEq, Eq, Structural)]
pub struct DeathEvent {
    pub day: u32,
    pub night: bool,
    pub player_idx: usize,
    pub cause: DeathCause,
}

/// What the seer has learnt in one night.
#[derive(Debug, Clone, Copy, PartialEq, Eq, Structural)]
pub struct SeerCheck {
    pub day: u32,
    pub target_idx: usize,
    pub is_wolf: bool,
}

/// A private thought of an AI player.
#[derive(Debug, Clone)]
pub struct ThinkingEntry {
    pub player: usize,
    pub day: u32,
    pub kind: ThinkingKind,
    pub thinking: String,
}

/// What a thought is, with its text as a sequence.
#[verifier::ext_equal]
pub struct ThinkingView {
    pub player: usize,
    pub day: u32,
    pub kind: ThinkingKind,
    pub thinking: Seq<char>,
}

impl DeepView for ThinkingEntry {
    type V = ThinkingView;

    open spec fn deep_view(&self) -> ThinkingView {
        ThinkingView {
            player: self.player,
            day: self.day,
            kind: self.kind,
            thinking: self.thinking@,
        }
    }
}

/// What happened, in the order it happened; the final summary groups these.
#[derive(Debug, Clone)]
pub enum RecapEvent {
    /// The guard protected somebody.
    GuardProtect { day: u32, target: usize },
    /// The victim the wolves agreed on; `None` for an empty kill.
    WolfFinalTarget { day: u32, target: Option<usize> },
    /// The seer checked somebody.
    SeerCheck { day: u32, target: usize, is_wolf: bool },
    /// What the witch did.
    Witch { day: u32, save: bool, poison: Option<usize> },
    /// Somebody died.
    Death { day: u32, night: bool, player: usize, cause: DeathCause },
    /// Somebody's last words.
    LastWords { day: u32, night: bool, player: usize, text: String },
    /// Who ran for sheriff.
    SheriffCandidates { candidates: Vec<usize> },
    /// A candidate spoke.
    SheriffSpeech { player: usize, text: String },
    /// A counted round of the sheriff vote; rounds count from one.
    SheriffVoteRound { round: u8, votes: Vec<(usize, Option<usize>)> },
    /// Who was elected; `None` when nobody was.
    SheriffElected { player: Option<usize> },
    /// The direction the sheriff picked.
    SheriffDirection { clockwise: bool },
    /// Somebody spoke during the day.
    DaySpeech { day: u32, player: usize, text: String },
    /// One vote with its weight: 3 of the sheriff, 2 of anybody else.
    DayVoteCast { day: u32, voter: usize, target: Option<usize>, weight: u32 },
    /// A counted round of the day vote; rounds count from one.
    DayVoteRound { day: u32, round: u8, votes: Vec<(usize, Option<usize>)> },
    /// Who was banished; `None` when nobody was.
    DayLynch { day: u32, target: Option<usize> },
    /// A hunter or wolf king shot or held fire.
    HunterShot { day: u32, shooter: usize, target: Option<usize> },
    /// The badge went on; `None` when it was destroyed.
    BadgePass { day: u32, from: usize, to: Option<usize> },
}

/// What an event is, with its texts and lists as sequences.
#[verifier::ext_equal]
pub enum RecapView {
    GuardProtect { day: u32, target: usize },
    WolfFinalTarget { day: u32, target: Option<usize> },
    SeerCheck { day: u32, target: usize, is_wolf: bool },
    Witch { day: u32, save: bool, poison: Option<usize> },
    Death { day: u32, night: bool, player: usize, cause: DeathCause },
    LastWords { day: u32, night: bool, player: usize, text: Seq<char> },
    SheriffCandidates { candidates: Seq<usize> },
    SheriffSpeech { player: usize, text: Seq<char> },
    SheriffVoteRound { round: u8, votes: Seq<(usize, Option<usize>)> },
    SheriffElected { player: Option<usize> },
    SheriffDirection { clockwise: bool },
    DaySpeech { day: u32, player: usize, text: Seq<char> },
    DayVoteCast { day: u32, voter: usize, target: Option<usize>, weight: u32 },
    DayVoteRound { day: u32, round: u8, votes: Seq<(usize, Option<usize>)> },
    DayLynch { day: u32, target: Option<usize> },
    HunterShot { day: u32, shooter: usize, target: Option<usize> },
    BadgePass { day: u32, from: usize, to: Option<usize> },
}

impl DeepView for RecapEvent {
    type V = RecapView;

    open spec fn deep_view(&self) -> RecapView {
        match *self {
            RecapEvent::GuardProtect { day, target } => RecapView::GuardProtect { day, target },
            RecapEvent::WolfFinalTarget { day, target } => RecapView::WolfFinalTarget { day, target },
            RecapEvent::SeerCheck { day, target, is_wolf } => RecapView::SeerCheck { day, target, is_wolf },
            RecapEvent::Witch { day, save, poison } => RecapView::Witch { day, save, poison },
            RecapEvent::Death { day, night, player, cause } => RecapView::Death { day, night, player, cause },
            RecapEvent::LastWords { day, night, player, text } => RecapView::LastWords { day, night, player, text: text@ },
            RecapEvent::SheriffCandidates { candidates } => RecapView::SheriffCandidates { candidates: candidates@ },
            RecapEvent::SheriffSpeech { player, text } => RecapView::SheriffSpeech { player, text: text@ },
            RecapEvent::SheriffVoteRound { round, votes } => RecapView::SheriffVoteRound { round, votes: votes@ },
            RecapEvent::SheriffElected { player } => RecapView::SheriffElected { player },
            RecapEvent::SheriffDirection { clockwise } => RecapView::SheriffDirection { clockwise },
            RecapEvent::DaySpeech { day, player, text } => RecapView::DaySpeech { day, player, text: text@ },
            RecapEvent::DayVoteCast { day, voter, target, weight } => RecapView::DayVoteCast { day, voter, target, weight },
            RecapEvent::DayVoteRound { day, round, votes } => RecapView::DayVoteRound { day, round, votes: votes@ },
            RecapEvent::DayLynch { day, target } => RecapView::DayLynch { day, target },
            RecapEvent::HunterShot { day, shooter, target } => RecapView::HunterShot { day, shooter, target },
            RecapEvent::BadgePass { day, from, to } => RecapView::BadgePass { day, from, to },
        }
    }
}

} // verus!
