//! A werewolf table for a Feishu group chat: the rules, the cards, the prompts
//! and the decisions of the bot, each stated as a contract and proved.

use vstd::prelude::*;

pub mod assoc;
pub mod bot;
pub mod config;
pub mod feishu;
pub mod json;
pub mod llm;
pub mod persona;
pub mod random;
pub mod seqs;
pub mod server;
pub mod service_laws;
pub mod storage;
pub mod text;
pub mod text_laws;
pub mod values;
pub mod werewolf;
pub mod words;

verus! {

} // verus!
