//! The fixed parts of the prompts.

use vstd::prelude::*;

verus! {

/// The rules, as every prompt states them.
pub const RULES: &'static str = "## 规则速览\n- **胜负（屠边）**：好人胜 = 击杀全部狼（含狼王）；狼胜 = 所有村民或所有神职出局\n- **角色**：狼人 / 狼王 / 村民 / 预言家 / 女巫 / 猎人 / 守卫\n- **技能**：\n  - 预言家每晚验 1 人\n  - 女巫一局共 1 瓶救药 + 1 瓶毒药（同晚不可救+毒）\n  - 猎人 / 狼王被狼刀或被放逐可开枪，**被毒不能**\n  - 守卫每晚可守 1 人（含自己）或空守，不可连守同人；同守同救会死\n- **狼人行动**：狼队夜杀目标必须一致，否则空刀；狼人白天可以自爆结束当天\n- **警长** (10+ 板)：1.5x 票权（整数 = 3 vs 普通 2）；死亡时可移交 / 撕毁警徽\n- **平票**：警长投票和放逐首轮平票均进入 PK 发言与复投，第二次平票才流局\n- **暗牌**：普通出局不公开身份，游戏结算时统一揭晓；首夜先竞选警长再公布死讯\n- **预言家查验**：狼王也显示为狼人\n- **公开开枪广播不会标记角色**——猎人和狼王共享开枪技能\n- **只返回单个 JSON 对象，不要任何其他文字 / markdown / 代码块**";

/// What a player has to decide by, and how to note its thoughts.
pub const RESOURCES: &'static str = "## 决策时手头的资源\n- **玩家档案**：每位玩家的公开发言 + 投票轨迹，按 idx 聚合\n- **事件历史**：按时间的公开事件流（死讯 / 放逐 / 警徽流转 等）\n- **内心独白历史**：你过去几轮 thinking 字段写过什么——这是你的策略弧线\n- **你的公开发言**：你之前在场上说过的话，前后矛盾会被场上抓出\n\n## thinking 字段怎么写\n- 这段 thinking 是**给未来的你**看的，下一次决策时会回到你的上下文里\n- 你怎么打、按什么思路、押什么注，都写下来；越具体后面越好延续\n- 战术、跳什么、报不报身份、跟不跟票、要不要弃权——都你自己定，没标准答案\n\n";

/// The beginning of the prompt for the wolves' pick.
pub const WOLF_HEAD: &'static str = "你是飞书群里玩狼人杀的玩家，扮演**狼人**。你的阵营是狼，目标是狼方胜利。\n";

/// The task of the wolves.
pub const WOLF_TASK: &'static str = "\n\n## 任务\n你和狼队友需要合议夜杀一名玩家。\n**默认应该刀好人**(村民 / 神职),这是最常规的狼方收益。\n**自刀(刀狼队友 / 自己) 是合法的策略性选择**,但只在如下场景考虑:\n- 送验:队友被预言家公开查杀后,自刀让队友夜里死亡,制造『假预言家查错』的话术空间\n- 骗药:让女巫看到非狼死亡现场,套出救药 / 让她不敢用药\n- 自爆诱饵:用一个边缘队友换一个关键好人查验信息\n自刀有风险(直接减狼方人数 / 暴露身份),除非有清晰的局面收益,否则**优先刀好人**。\n";

/// The form of the reply, before an optional field.
pub const WOLF_REPLY: &'static str = "\n\n返回 JSON: {\"target_idx\": <整数>";

/// The form of the reply, after the optional field.
pub const WOLF_REPLY_END: &'static str = ", \"thinking\": \"...\"}";

/// The beginning of the prompt for the seer's check.
pub const SEER_HEAD: &'static str = "你是飞书群里玩狼人杀的玩家，扮演**预言家**。你的阵营是好人，目标是好人胜。\n";

/// The task of the seer's check.
pub const SEER_TASK: &'static str = "\n\n## 任务\n选一名存活的非自己玩家查验。\n\n返回 JSON: {\"target_idx\": <整数>, \"thinking\": \"...\"}";

/// The beginning of the prompt for the witch's decision.
pub const WITCH_HEAD: &'static str = "你是飞书群里玩狼人杀的玩家，扮演**女巫**。你的阵营是好人，目标是好人胜。\n";

/// The task of the witch's decision.
pub const WITCH_TASK: &'static str = "\n\n## 任务\n你看得到今晚被狼刀的人。三选一：\n- save: 用救药救今晚的猎物\n- poison: 用毒药毒一名存活的非自己玩家（需 poison_target_idx）\n- skip: 不动作\n\n返回 JSON: {\"action\": \"save|poison|skip\", \"poison_target_idx\": <可选整数>, \"thinking\": \"...\"}";

/// The beginning of the prompt for the day vote, up to the role.
pub const VOTE_HEAD: &'static str = "你是飞书群里玩狼人杀的玩家，正在白天投票阶段。你的真实身份是 **";

/// The task of the day vote.
pub const VOTE_TASK: &'static str = "\n\n## 任务\n投票放逐你认为应该被处决的玩家，或弃权 (target_idx = -1)。不能投自己。**只投票，不发言**——发言阶段已经结束。\n\n返回 JSON: {\"target_idx\": <整数 idx 或 -1>, \"thinking\": \"<给未来自己看的完整推理>\"}";

/// The beginning of the prompt for a shot, up to the role.
pub const HUNTER_HEAD: &'static str = "你是飞书群里的狼人杀玩家，扮演 **";

/// The task of a shot.
pub const HUNTER_TASK: &'static str = "\n\n## 任务\n可以选一名存活的非自己玩家开枪带走，或选择不开枪 (target_idx = -1)。\n注：公开广播只显示 \"X 临死前开枪带走 Y\"，不会标记你的身份。\n\n返回 JSON: {\"target_idx\": <整数 idx 或 -1>, \"thinking\": \"...\"}";

/// The beginning of the prompt for the guard's pick.
pub const GUARD_HEAD: &'static str = "你是飞书群里玩狼人杀的玩家，扮演**守卫**。你的阵营是好人，目标是好人胜。\n";

/// The task of the guard's pick.
pub const GUARD_TASK: &'static str = "\n\n## 任务\n选一名存活玩家守护（含自己），不能连续两晚守同一个人。\n\n返回 JSON: {\"target_idx\": <整数>, \"thinking\": \"...\"}";

/// The beginning of the prompt for the candidacy for sheriff, up to the role.
pub const RUN_HEAD: &'static str = "你是飞书群里玩狼人杀的玩家，正在第 1 天上警阶段。你的真实身份是 **";

/// The task of the candidacy for sheriff.
pub const RUN_TASK: &'static str = "\n\n## 任务\n决定是否参选警长。警长有 1.5x 票权，死亡时可移交 / 撕毁警徽。\n\n返回 JSON: {\"run\": <true/false>, \"thinking\": \"...\"}";

/// The beginning of the prompt for the sheriff election, up to the role.
pub const ELECT_HEAD: &'static str = "你是飞书群里玩狼人杀的玩家，正在警长投票阶段。你的真实身份是 **";

/// The task of the sheriff election.
pub const ELECT_TASK: &'static str = "\n\n## 任务\n在候选人中投出你支持的警长，或弃权 (target_idx = -1)。候选人不能投票（包含你自己若是候选人）。\n\n返回 JSON: {\"target_idx\": <整数 idx 或 -1>, \"thinking\": \"<给未来自己看的完整推理>\"}";

/// The beginning of the prompt for a dead sheriff's badge, up to the role.
pub const BADGE_HEAD: &'static str = "你是飞书群里的狼人杀玩家，刚刚作为警长死亡。你的真实身份是 **";

/// The task of a dead sheriff's badge.
pub const BADGE_TASK: &'static str = "\n\n## 任务\n决定警徽去向：移交给一名存活的非自己玩家（target_idx = idx），或撕毁 (target_idx = -1)。\n\n返回 JSON: {\"target_idx\": <整数 idx 或 -1>, \"thinking\": \"...\"}";

/// The beginning of the prompt for a candidate's speech, up to the role.
pub const CAMPAIGN_HEAD: &'static str = "你是飞书群里玩狼人杀的玩家，现在是第 1 天上警阶段，你正在做竞选发言。你的真实身份是 **";

/// The task of a candidate's speech.
pub const CAMPAIGN_TASK: &'static str = "\n\n## 任务\n发表一段公开广播的竞选发言。跳什么身份、报不报查验、怎么拉票——都你自己定。\n\n返回 JSON: {\"speech\": \"<发言>\", \"thinking\": \"<给未来自己看的完整推理>\"}";

/// The beginning of the prompt for the direction of the speeches, up to the role.
pub const DIRECTION_HEAD: &'static str = "你是新当选的警长，要决定白天发言起手方向。你的真实身份是 **";

/// The task of the direction of the speeches.
pub const DIRECTION_TASK: &'static str = "\n\n## 任务\n- clockwise=true（警上）：从你右手起手，顺时针\n- clockwise=false（警下）：从你左手起手，逆时针\n你本人将最后发言（归票）。\n\n返回 JSON: {\"clockwise\": <bool>, \"thinking\": \"...\"}";

/// The beginning of the prompt for last words, up to the role.
pub const LAST_WORDS_HEAD: &'static str = "你是飞书群里玩狼人杀的玩家，**你刚刚死亡，正在发表遗言**。你的真实身份是 **";

/// The task of last words.
pub const LAST_WORDS_TASK: &'static str = "\n\n## 任务\n发表你的遗言，会公开广播给所有玩家。说什么、报不报身份、留什么信号——都你自己定。可空（沉默）也行。\n\n返回 JSON: {\"speech\": \"<遗言>\", \"thinking\": \"<给未来自己看的完整推理>\"}";

/// The beginning of the prompt for last words with a shot, up to the role.
pub const DYING_HEAD: &'static str = "你是飞书群里的狼人杀玩家，扮演 **";

/// The task of last words with a shot.
pub const DYING_TASK: &'static str = "\n\n## 任务（一次性两件事）\n1. **遗言**：公开广播给所有玩家\n2. **开枪**：可选一名存活的非自己玩家带走 (target_idx = idx)，或选择不开枪 (target_idx = -1)\n\n**遗言和开枪决策必须一致**——遗言里说『我带走 N 号』就 target_idx = N；遗言里说不开枪 target_idx = -1；遗言里嫁祸 / 留推理也要配合开枪叙事。\n\n注：公开广播只显示『X 临死前开枪带走 Y』或『X 选择不开枪』，**不会标记你的身份**（猎人和狼王共享开枪技能，狼王惯例伪装成猎人）。\n\n返回 JSON: {\"speech\": \"<遗言>\", \"target_idx\": <整数 idx 或 -1>, \"thinking\": \"<给未来自己看的完整推理>\"}";

/// The beginning of the prompt for a speech of the day, up to the role.
pub const DAY_SPEECH_HEAD: &'static str = "你是飞书群里玩狼人杀的玩家，现在是白天，轮到你发言（一次性单次发言，提交后回合结束）。你的真实身份是 **";

/// The task of a speech of the day.
pub const DAY_SPEECH_TASK: &'static str = "\n\n## 任务\n发表一段公开广播给全场的看法。怎么说、说什么、要不要藏身份、跟不跟其他人——都你自己定。\n\n返回 JSON: {\"speech\": \"<发言>\", \"thinking\": \"<给未来自己看的完整推理>\"}";

/// The invitation to say something to human fellows.
pub const WOLF_CHAT: &'static str = "\n\n## 狼频道发言（仅狼可见）\n队伍里有人类狼，你可以在 \"chat\" 字段说一句协调队友的话（≤ 30 字，可选 / 可为 null）。";

/// The field for what is said to human fellows.
pub const WOLF_CHAT_FIELD: &'static str = ", \"chat\": \"<≤30 字发言, 不想说就 null>\"";

} // verus!
