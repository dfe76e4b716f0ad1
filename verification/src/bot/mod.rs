//! The room around the game: commands, the lobby and its cards.

use vstd::prelude::*;

pub mod cards;
pub mod commands;
pub mod dedupe;
pub mod lobby_laws;
pub mod room;
pub mod routing;

verus! {

} // verus!
