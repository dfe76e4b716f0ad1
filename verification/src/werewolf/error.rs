//! Why a move of the game is refused.

use vstd::prelude::*;
use crate::text::{decimal, decimal_text};
use crate::werewolf::types::Stage;

verus! {

/// The reason for which a move is refused. A refused move leaves the game as it was.
#[derive(Debug, Clone, Copy, PartialEq, Eq, Structural)]
pub enum GameError {
    /// A game is running at the given stage and cannot be started again.
    AlreadyStarted(Stage),
    /// No board exists for the given number of players.
    PlayerCount(usize),
    GameRunning,
    AlreadySeated,
    TableFull,
    NotGuardStage,
    NotSeated,
    NotLivingGuard,
    TargetMissing,
    GuardDeadTarget,
    GuardSameTarget,
    NotWolfPickStage,
    NotLivingWolf,
    WolfAlreadyReady,
    WolfDeadTarget,
    NotWolfStage,
    EmptyMessage,
    WolfNoTarget,
    NotSeerStage,
    NotLivingSeer,
    SeerDeadTarget,
    SeerSelf,
    NotWitchStage,
    NotLivingWitch,
    SaveAndPoison,
    SaveUsed,
    NothingToSave,
    PoisonUsed,
    PoisonMissing,
    PoisonDead,
    PoisonSelf,
    NotRevealStage,
    NotDirectionStage,
    NotYourDirection,
    NotDaySpeechStage,
    SpeechesOver,
    NotYourTurn,
    NotNominateStage,
    NotEligible,
    NotSheriffSpeechStage,
    SpeechesPending,
    NotWithdrawStage,
    NotYourWithdraw,
    WithdrawPending,
    NotLastWordsStage,
    LastWordsOver,
    NotYourLastWords,
    LastWordsPending,
    NotSheriffVoteStage,
    CandidateCannotVote,
    NotCandidate,
    NotBadgeStage,
    NotYourBadge,
    BadgeToDead,
    BadgeToSelf,
    NotSpeechStage,
    NotVoteStage,
    CannotVote,
    VoteDead,
    NotOnBallot,
    VoteSelf,
    CannotExplode,
    NotShootStage,
    NotYourShot,
    ShootDead,
    ShootSelf,
}

impl GameError {
    /// The message shown to the player.
    pub open spec fn text(self) -> Seq<char> {
        match self {
            GameError::AlreadyStarted(stage) => "已经在游戏中（"@ + stage.label_text()
                + "）。如需重置请用 reset"@,
            GameError::PlayerCount(n) => "狼人杀需要 9-12 名玩家，当前 "@ + decimal_text(n as nat),
            GameError::GameRunning => "一局狼人杀正在进行中，等结束后再加入"@,
            GameError::AlreadySeated => "你已经在桌上了"@,
            GameError::TableFull => "人数已满 (12)"@,
            GameError::NotGuardStage => "当前不是守卫阶段"@,
            GameError::NotSeated => "你不在桌上"@,
            GameError::NotLivingGuard => "你不是存活的守卫"@,
            GameError::TargetMissing => "目标玩家不存在"@,
            GameError::GuardDeadTarget => "不能守护已死亡的玩家"@,
            GameError::GuardSameTarget => "不能连续两晚守护同一个人"@,
            GameError::NotWolfPickStage => "当前不是狼人投票阶段"@,
            GameError::NotLivingWolf => "你不是存活的狼人"@,
            GameError::WolfAlreadyReady => "你已确认目标，不能再修改"@,
            GameError::WolfDeadTarget => "不能选择已死亡的玩家"@,
            GameError::NotWolfStage => "当前不是狼人阶段"@,
            GameError::EmptyMessage => "消息为空"@,
            GameError::WolfNoTarget => "请先选目标再确认"@,
            GameError::NotSeerStage => "当前不是预言家阶段"@,
            GameError::NotLivingSeer => "你不是存活的预言家"@,
            GameError::SeerDeadTarget => "不能查验已死亡的玩家"@,
            GameError::SeerSelf => "不能查验自己"@,
            GameError::NotWitchStage => "当前不是女巫阶段"@,
            GameError::NotLivingWitch => "你不是存活的女巫"@,
            GameError::SaveAndPoison => "同一晚不能同时使用救药和毒药"@,
            GameError::SaveUsed => "救药已经用过了"@,
            GameError::NothingToSave => "今晚是空刀，没人需要救"@,
            GameError::PoisonUsed => "毒药已经用过了"@,
            GameError::PoisonMissing => "毒药目标不存在"@,
            GameError::PoisonDead => "不能毒已死亡的玩家"@,
            GameError::PoisonSelf => "不能毒自己"@,
            GameError::NotRevealStage => "当前不是 DayReveal 阶段"@,
            GameError::NotDirectionStage => "当前不是选择方向阶段"@,
            GameError::NotYourDirection => "不是你来选"@,
            GameError::NotDaySpeechStage => "当前不是白天发言阶段"@,
            GameError::SpeechesOver => "发言已结束"@,
            GameError::NotYourTurn => "还没轮到你发言"@,
            GameError::NotNominateStage => "当前不是上警阶段"@,
            GameError::NotEligible => "你不能参与本次上警"@,
            GameError::NotSheriffSpeechStage => "当前不是上警发言阶段"@,
            GameError::SpeechesPending => "还有候选人没发言"@,
            GameError::NotWithdrawStage => "当前不是退水阶段"@,
            GameError::NotYourWithdraw => "还没轮到你决定退水"@,
            GameError::WithdrawPending => "还有候选人未决定是否退水"@,
            GameError::NotLastWordsStage => "当前不是遗言阶段"@,
            GameError::LastWordsOver => "遗言已结束"@,
            GameError::NotYourLastWords => "还没轮到你说遗言"@,
            GameError::LastWordsPending => "还有人没说遗言"@,
            GameError::NotSheriffVoteStage => "当前不是警长投票阶段"@,
            GameError::CandidateCannotVote => "候选人不能参与警长投票"@,
            GameError::NotCandidate => "目标不是警长候选人"@,
            GameError::NotBadgeStage => "当前不是警徽流转阶段"@,
            GameError::NotYourBadge => "不是你来移交警徽"@,
            GameError::BadgeToDead => "不能给死人警徽"@,
            GameError::BadgeToSelf => "不能给自己"@,
            GameError::NotSpeechStage => "当前不是发言阶段"@,
            GameError::NotVoteStage => "当前不是投票阶段"@,
            GameError::CannotVote => "你不能参与本轮投票"@,
            GameError::VoteDead => "不能投死人"@,
            GameError::NotOnBallot => "目标不在本轮候选人中"@,
            GameError::VoteSelf => "不能投自己"@,
            GameError::CannotExplode => "当前不能自爆"@,
            GameError::NotShootStage => "当前不是猎人开枪阶段"@,
            GameError::NotYourShot => "不是你开枪"@,
            GameError::ShootDead => "不能枪杀已死亡的玩家"@,
            GameError::ShootSelf => "不能枪杀自己"@,
        }
    }

    /// The message shown to the player.
    pub fn to_string(&self) -> (r: String)
        ensures
            r@ == self.text(),
    {
        let fixed: &str = match self {
            GameError::AlreadyStarted(stage) => {
                let mut s = "已经在游戏中（".to_owned();
                s.append(stage.label());
                s.append("）。如需重置请用 reset");
                return s;
            },
            GameError::PlayerCount(n) => {
                let mut s = "狼人杀需要 9-12 名玩家，当前 ".to_owned();
                s.append(decimal(*n as u64).as_str());
                return s;
            },
            GameError::GameRunning => "一局狼人杀正在进行中，等结束后再加入",
            GameError::AlreadySeated => "你已经在桌上了",
            GameError::TableFull => "人数已满 (12)",
            GameError::NotGuardStage => "当前不是守卫阶段",
            GameError::NotSeated => "你不在桌上",
            GameError::NotLivingGuard => "你不是存活的守卫",
            GameError::TargetMissing => "目标玩家不存在",
            GameError::GuardDeadTarget => "不能守护已死亡的玩家",
            GameError::GuardSameTarget => "不能连续两晚守护同一个人",
            GameError::NotWolfPickStage => "当前不是狼人投票阶段",
            GameError::NotLivingWolf => "你不是存活的狼人",
            GameError::WolfAlreadyReady => "你已确认目标，不能再修改",
            GameError::WolfDeadTarget => "不能选择已死亡的玩家",
            GameError::NotWolfStage => "当前不是狼人阶段",
            GameError::EmptyMessage => "消息为空",
            GameError::WolfNoTarget => "请先选目标再确认",
            GameError::NotSeerStage => "当前不是预言家阶段",
            GameError::NotLivingSeer => "你不是存活的预言家",
            GameError::SeerDeadTarget => "不能查验已死亡的玩家",
            GameError::SeerSelf => "不能查验自己",
            GameError::NotWitchStage => "当前不是女巫阶段",
            GameError::NotLivingWitch => "你不是存活的女巫",
            GameError::SaveAndPoison => "同一晚不能同时使用救药和毒药",
            GameError::SaveUsed => "救药已经用过了",
            GameError::NothingToSave => "今晚是空刀，没人需要救",
            GameError::PoisonUsed => "毒药已经用过了",
            GameError::PoisonMissing => "毒药目标不存在",
            GameError::PoisonDead => "不能毒已死亡的玩家",
            GameError::PoisonSelf => "不能毒自己",
            GameError::NotRevealStage => "当前不是 DayReveal 阶段",
            GameError::NotDirectionStage => "当前不是选择方向阶段",
            GameError::NotYourDirection => "不是你来选",
            GameError::NotDaySpeechStage => "当前不是白天发言阶段",
            GameError::SpeechesOver => "发言已结束",
            GameError::NotYourTurn => "还没轮到你发言",
            GameError::NotNominateStage => "当前不是上警阶段",
            GameError::NotEligible => "你不能参与本次上警",
            GameError::NotSheriffSpeechStage => "当前不是上警发言阶段",
            GameError::SpeechesPending => "还有候选人没发言",
            GameError::NotWithdrawStage => "当前不是退水阶段",
            GameError::NotYourWithdraw => "还没轮到你决定退水",
            GameError::WithdrawPending => "还有候选人未决定是否退水",
            GameError::NotLastWordsStage => "当前不是遗言阶段",
            GameError::LastWordsOver => "遗言已结束",
            GameError::NotYourLastWords => "还没轮到你说遗言",
            GameError::LastWordsPending => "还有人没说遗言",
            GameError::NotSheriffVoteStage => "当前不是警长投票阶段",
            GameError::CandidateCannotVote => "候选人不能参与警长投票",
            GameError::NotCandidate => "目标不是警长候选人",
            GameError::NotBadgeStage => "当前不是警徽流转阶段",
            GameError::NotYourBadge => "不是你来移交警徽",
            GameError::BadgeToDead => "不能给死人警徽",
            GameError::BadgeToSelf => "不能给自己",
            GameError::NotSpeechStage => "当前不是发言阶段",
            GameError::NotVoteStage => "当前不是投票阶段",
            GameError::CannotVote => "你不能参与本轮投票",
            GameError::VoteDead => "不能投死人",
            GameError::NotOnBallot => "目标不在本轮候选人中",
            GameError::VoteSelf => "不能投自己",
            GameError::CannotExplode => "当前不能自爆",
            GameError::NotShootStage => "当前不是猎人开枪阶段",
            GameError::NotYourShot => "不是你开枪",
            GameError::ShootDead => "不能枪杀已死亡的玩家",
            GameError::ShootSelf => "不能枪杀自己",
        };
        fixed.to_owned()
    }
}

} // verus!
