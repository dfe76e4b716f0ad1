//! The werewolf game: state, rules, prompts and cards.

use vstd::prelude::*;

pub mod actions;
pub mod ai_laws;
pub mod answer_laws;
pub mod answers;
pub mod asking;
pub mod attempts;
pub mod ballot;
pub mod button_laws;
pub mod card_laws;
pub mod cards;
pub mod check;
pub mod chronicle_laws;
pub mod clicks;
pub mod day;
pub mod day_cards;
pub mod day_laws;
pub mod deal_laws;
pub mod election;
pub mod election_laws;
pub mod end_laws;
pub mod error;
pub mod file_laws;
pub mod flow;
pub mod handler_laws;
pub mod laws;
pub mod llm;
pub mod lobby;
pub mod night;
pub mod news_laws;
pub mod night_laws;
pub mod notice_laws;
pub mod notices;
pub mod order_laws;
pub mod outlook_laws;
pub mod plan;
pub mod press_laws;
pub mod progress_cards;
pub mod progress_laws;
pub mod prompt_laws;
pub mod prompt_texts;
pub mod recap;
pub mod recap_laws;
pub mod refusal_laws;
pub mod round_laws;
pub mod rule_laws;
pub mod secrecy_laws;
pub mod settle;
pub mod speech_laws;
pub mod state;
pub mod table;
pub mod tally;
pub mod target_laws;
pub mod types;
pub mod view;
pub mod vote_cards;
pub mod view_laws;

verus! {

} // verus!
