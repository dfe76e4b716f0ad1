//! What the bot shows in Feishu.

use vstd::prelude::*;

pub mod cards;
pub mod events;
pub mod reading;

verus! {

} // verus!
