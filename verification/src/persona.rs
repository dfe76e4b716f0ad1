//! The playing styles of the AI players.

use vstd::prelude::*;
use crate::random::random_below;

verus! {

/// The strategy style of an AI player.
#[derive(Debug, Clone, Copy, PartialEq, Eq, Structural)]
pub enum Persona {
    LooseAggressive,
    TightAggressive,
    LooseWeak,
    TightWeak,
    Maniac,
}

impl DeepView for Persona {
    type V = Persona;

    open spec fn deep_view(&self) -> Persona {
        *self
    }
}

/// How many styles there are.
pub const PERSONA_COUNT: usize = 5;

/// The styles in their fixed order; an index past the end gives the last one.
pub open spec fn persona_at(i: int) -> Persona {
    if i == 0 {
        Persona::LooseAggressive
    } else if i == 1 {
        Persona::TightAggressive
    } else if i == 2 {
        Persona::LooseWeak
    } else if i == 3 {
        Persona::TightWeak
    } else {
        Persona::Maniac
    }
}

impl Persona {
    /// The nickname of the style.
    pub open spec fn label_text(self) -> Seq<char> {
        match self {
            Persona::LooseAggressive => "莽哥"@,
            Persona::TightAggressive => "老炮"@,
            Persona::LooseWeak => "跟注站"@,
            Persona::TightWeak => "老抠"@,
            Persona::Maniac => "头铁"@,
        }
    }

    /// The nickname of the style.
    pub fn label(self) -> (r: &'static str)
        ensures
            r@ == self.label_text(),
    {
        match self {
            Persona::LooseAggressive => "莽哥",
            Persona::TightAggressive => "老炮",
            Persona::LooseWeak => "跟注站",
            Persona::TightWeak => "老抠",
            Persona::Maniac => "头铁",
        }
    }

    /// What the style means at a werewolf table.
    pub open spec fn description_text(self) -> Seq<char> {
        match self {
            Persona::LooseAggressive => "**悍跳激进流**。第一时间表态、抢警、爆身份，靠话术密度和节奏压迫对手。"@,
            Persona::TightAggressive => "**逻辑推理流**。回顾每轮信息，结论基于清晰的因果链条，不被气势带偏。"@,
            Persona::LooseWeak => "**节奏控场流**。梳理观点并主导讨论方向，关键票带头表态。"@,
            Persona::TightWeak => "**静水深流**。话少但精准，汇总信息后给出关键结论。"@,
            Persona::Maniac => "**反水诡道流**。伪装阵营、制造混乱，反直觉但每一步都经过算计。"@,
        }
    }

    /// What the style means at a werewolf table.
    pub fn werewolf_description(self) -> (r: &'static str)
        ensures
            r@ == self.description_text(),
    {
        match self {
            Persona::LooseAggressive => "**悍跳激进流**。第一时间表态、抢警、爆身份，靠话术密度和节奏压迫对手。",
            Persona::TightAggressive => "**逻辑推理流**。回顾每轮信息，结论基于清晰的因果链条，不被气势带偏。",
            Persona::LooseWeak => "**节奏控场流**。梳理观点并主导讨论方向，关键票带头表态。",
            Persona::TightWeak => "**静水深流**。话少但精准，汇总信息后给出关键结论。",
            Persona::Maniac => "**反水诡道流**。伪装阵营、制造混乱，反直觉但每一步都经过算计。",
        }
    }

    /// The emoji shown beside the name.
    pub open spec fn emoji_text(self) -> Seq<char> {
        match self {
            Persona::LooseAggressive => "🐺"@,
            Persona::TightAggressive => "🦈"@,
            Persona::LooseWeak => "🐟"@,
            Persona::TightWeak => "🪨"@,
            Persona::Maniac => "🤪"@,
        }
    }

    /// The emoji shown beside the name.
    pub fn emoji(self) -> (r: &'static str)
        ensures
            r@ == self.emoji_text(),
    {
        match self {
            Persona::LooseAggressive => "🐺",
            Persona::TightAggressive => "🦈",
            Persona::LooseWeak => "🐟",
            Persona::TightWeak => "🪨",
            Persona::Maniac => "🤪",
        }
    }

    /// The style at a position of the fixed order.
    pub fn at(i: usize) -> (r: Persona)
        ensures
            r == persona_at(i as int),
    {
        if i == 0 {
            Persona::LooseAggressive
        } else if i == 1 {
            Persona::TightAggressive
        } else if i == 2 {
            Persona::LooseWeak
        } else if i == 3 {
            Persona::TightWeak
        } else {
            Persona::Maniac
        }
    }

    /// A style drawn at random: the one at some position of the fixed order.
    pub fn random() -> (r: Persona)
        ensures
            exists|i: int| 0 <= i < PERSONA_COUNT && r == #[trigger] persona_at(i),
    {
        let i: usize = random_below(PERSONA_COUNT);
        let r = Persona::at(i);
        assert(r == persona_at(i as int));
        r
    }
}

} // verus!
