//! Which messages and button presses concern the room, and what they ask for.

use vstd::prelude::*;
use crate::assoc::lemma_key_pos_is;
use crate::bot::cards::room_value;
use crate::json::{law_merge_reads_back, Json, JsonView};
use crate::text::{begins, begins_with, same};
use crate::werewolf::clicks::{pressed, Click, ClickView};
use crate::werewolf::state::GameView;

verus! {

/// Whether a chat is served: any, unless one is named.
pub open spec fn serves(allowed: Option<Seq<char>>, chat_id: Seq<char>) -> bool {
    match allowed {
        Some(id) => id == chat_id,
        None => true,
    }
}

/// Whether a chat is served.
pub fn serves_chat(allowed: &Option<String>, chat_id: &str) -> (r: bool)
    ensures
        r == serves(allowed.deep_view(), chat_id@),
{
    match allowed {
        Some(id) => same(id.as_str(), chat_id),
        None => true,
    }
}

/// Whether a message is read: a text in a chat that is served, or in a chat with the bot
/// alone.
pub open spec fn reads(
    allowed: Option<Seq<char>>,
    message_type: Seq<char>,
    chat_id: Seq<char>,
    chat_type: Seq<char>,
) -> bool {
    message_type == "text"@ && (serves(allowed, chat_id) || chat_type == "p2p"@)
}

/// Whether a message is read.
pub fn reads_message(
    allowed: &Option<String>,
    message_type: &str,
    chat_id: &str,
    chat_type: &str,
) -> (r: bool)
    ensures
        r == reads(allowed.deep_view(), message_type@, chat_id@, chat_type@),
{
    same(message_type, "text") && (serves_chat(allowed, chat_id) || same(chat_type, "p2p"))
}

/// What a button of the room asks for.
#[derive(Debug, Clone, Copy, PartialEq, Eq, Structural)]
pub enum RoomAction {
    Join,
    Leave,
    FillAi,
    AddAi,
    RemoveAi,
    Start,
    Reset,
    Unknown,
}

/// What a button of the room asks for.
pub open spec fn room_action(action: Seq<char>) -> RoomAction {
    if action == "join_lobby"@ {
        RoomAction::Join
    } else if action == "leave_lobby"@ {
        RoomAction::Leave
    } else if action == "fill_ai_lobby"@ {
        RoomAction::FillAi
    } else if action == "add_ai_lobby"@ {
        RoomAction::AddAi
    } else if action == "remove_ai_lobby"@ {
        RoomAction::RemoveAi
    } else if action == "start_wolf_lobby"@ {
        RoomAction::Start
    } else if action == "reset_lobby"@ {
        RoomAction::Reset
    } else {
        RoomAction::Unknown
    }
}

fn read_room_action(action: &str) -> (r: RoomAction)
    ensures
        r == room_action(action@),
{
    if same(action, "join_lobby") {
        RoomAction::Join
    } else if same(action, "leave_lobby") {
        RoomAction::Leave
    } else if same(action, "fill_ai_lobby") {
        RoomAction::FillAi
    } else if same(action, "add_ai_lobby") {
        RoomAction::AddAi
    } else if same(action, "remove_ai_lobby") {
        RoomAction::RemoveAi
    } else if same(action, "start_wolf_lobby") {
        RoomAction::Start
    } else if same(action, "reset_lobby") {
        RoomAction::Reset
    } else {
        RoomAction::Unknown
    }
}

/// Where a button press goes.
#[derive(Debug)]
pub enum Press {
    /// The button asks for nothing.
    Nothing,
    /// To the game of a chat.
    Game { chat_id: String, click: Click },
    /// To the room of a chat.
    Room { chat_id: String, action: RoomAction },
}

/// Where a button press goes.
pub enum PressView {
    Nothing,
    Game { chat_id: Seq<char>, click: ClickView },
    Room { chat_id: Seq<char>, action: RoomAction },
}

impl View for Press {
    type V = PressView;

    open spec fn view(&self) -> PressView {
        match *self {
            Press::Nothing => PressView::Nothing,
            Press::Game { chat_id, click } => PressView::Game { chat_id: chat_id@, click: click@ },
            Press::Room { chat_id, action } => PressView::Room { chat_id: chat_id@, action },
        }
    }
}

/// The chat of a button: the one it names, or the one it was pressed in.
pub open spec fn chat_of(value: JsonView, open_chat_id: Seq<char>) -> Seq<char> {
    match value.text_at("chat_id"@) {
        Some(s) => s,
        None => open_chat_id,
    }
}

/// Where a button press goes: the actions of the game begin with `wolf_`.
pub open spec fn routed(
    value: JsonView,
    form: JsonView,
    who: Seq<char>,
    open_chat_id: Seq<char>,
) -> PressView {
    match value.text_at("action"@) {
        None => PressView::Nothing,
        Some(action) => if begins(action, "wolf_"@) {
            PressView::Game {
                chat_id: chat_of(value, open_chat_id),
                click: pressed(value, form, action, who),
            }
        } else {
            PressView::Room {
                chat_id: chat_of(value, open_chat_id),
                action: room_action(action),
            }
        },
    }
}

/// Where a button press goes.
pub fn route_press(value: &Json, form: &Json, who: &str, open_chat_id: &str) -> (r: Press)
    ensures
        r@ == routed(value.model(), form.model(), who@, open_chat_id@),
{
    let action = match value.text_at("action") {
        None => {
            return Press::Nothing;
        },
        Some(a) => a,
    };
    let chat_id = match value.text_at("chat_id") {
        Some(s) => s,
        None => open_chat_id.to_owned(),
    };
    if begins_with(action.as_str(), "wolf_") {
        Press::Game { chat_id, click: Click::read(value, form, action.as_str(), who) }
    } else {
        Press::Room { chat_id, action: read_room_action(action.as_str()) }
    }
}

/// A button of the lobby, pressed in any chat, reaches the room of the lobby's chat.
pub proof fn law_room_button_reaches_room(
    chat_id: Seq<char>,
    action: Seq<char>,
    form: JsonView,
    who: Seq<char>,
    elsewhere: Seq<char>,
)
    requires
        !begins(action, "wolf_"@),
    ensures
        routed(room_value(chat_id, action), form, who, elsewhere) == (PressView::Room {
            chat_id,
            action: room_action(action),
        }),
{
    reveal_strlit("chat_id");
    reveal_strlit("action");
    assert("chat_id"@.len() == 7);
    assert("action"@.len() == 6);
    let base = seq![("chat_id"@, JsonView::Text(chat_id))];
    let extra = seq![("action"@, JsonView::Text(action))];
    law_merge_reads_back(base, extra, "action"@);
    law_merge_reads_back(base, extra, "chat_id"@);
    lemma_key_pos_is(extra, "action"@, 0);
    lemma_key_pos_is(extra, "chat_id"@, 1);
    lemma_key_pos_is(base, "chat_id"@, 0);
}

/// A button of the game, pressed in any chat, reaches the game of its table.
pub proof fn law_game_button_reaches_game(
    g: GameView,
    actor: Seq<char>,
    action: Seq<char>,
    form: JsonView,
    who: Seq<char>,
    elsewhere: Seq<char>,
)
    requires
        begins(action, "wolf_"@),
    ensures
        routed(g.action_value(actor, action), form, who, elsewhere) == (PressView::Game {
            chat_id: g.chat_id,
            click: pressed(g.action_value(actor, action), form, action, who),
        }),
{
    reveal_strlit("chat_id");
    reveal_strlit("action");
    reveal_strlit("game");
    reveal_strlit("actor");
    assert("chat_id"@.len() == 7);
    assert("action"@.len() == 6);
    assert("game"@.len() == 4);
    assert("actor"@.len() == 5);
    let base = g.base_value(actor)->Object_0;
    let extra = seq![("action"@, JsonView::Text(action))];
    law_merge_reads_back(base, extra, "action"@);
    law_merge_reads_back(base, extra, "chat_id"@);
    lemma_key_pos_is(extra, "action"@, 0);
    lemma_key_pos_is(extra, "chat_id"@, 1);
    lemma_key_pos_is(base, "chat_id"@, 0);
}

} // verus!
