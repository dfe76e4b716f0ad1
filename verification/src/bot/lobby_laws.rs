//! Who may sit down, leave and start, and what the cards and commands of the lobby do.

use vstd::prelude::*;
use crate::assoc::lemma_key_pos_is;
use crate::bot::cards::{answer_view, greeting_card, lobby_line, refused_card, room_button,
    room_value, toast_view, welcome_card};
use crate::bot::commands::{commanded, second_word, command_words, names_game, said_to_bot, unmentioned, Command};
use crate::bot::room::{is_human, last_ai_seat, reveal_of, RoomError};
use crate::bot::routing::{law_room_button_reaches_room, reads, room_action, routed, PressView,
    RoomAction};
use crate::feishu::cards::{button_view, card_view, header_view, markdown_view, note_view, row_view};
use crate::feishu::reading::{has_button, holds_part, lemma_button, lemma_card, lemma_holds_self,
    lemma_holds_side, lemma_holds_through, lemma_joined_holds, lemma_paragraph, lemma_two_heads,
    lemma_within_card, lemma_within_row, paragraph, parts_of, says, subtitle_of};
use crate::json::JsonView;
use crate::seqs::{lemma_pick_from, pick};
use crate::text::{begins, decimal_text, is_white, joined, trimmed, trimmed_start,
    unicode_lowercase};
use crate::text_laws::{law_bare_text_stays, law_first_word_ends_at_a_blank};
use crate::werewolf::card_laws::lemma_card_says;
use crate::werewolf::error::GameError;
use crate::werewolf::laws::{law_seat_of, lemma_seat_exists};
use crate::werewolf::night_laws::{lemma_no_holder, lemma_stranger};
use crate::werewolf::outlook_laws::lemma_pick_has;
use crate::werewolf::state::GameView;
use crate::werewolf::types::{PlayerView, Role, Stage};
use crate::words::{after_word, first_word, rest};

verus! {

/// Whether somebody with this id is at the table.
pub open spec fn at_table(g: GameView, id: Seq<char>) -> bool {
    exists|i: int| 0 <= i < g.players.len() && (#[trigger] g.players[i]).open_id == id
}

proof fn lemma_at_table(g: GameView, id: Seq<char>)
    requires
        g.wf(),
    ensures
        g.seat_of(id) is Some <==> at_table(g, id),
{
    if at_table(g, id) {
        let i = choose|i: int| 0 <= i < g.players.len() && (#[trigger] g.players[i]).open_id == id;
        law_seat_of(g, i as usize);
    } else {
        lemma_stranger(g, id);
    }
}

/// Somebody new may sit down while no game runs and a seat of the twelve is free. The refusals
/// say which of these fails.
pub proof fn law_who_may_sit_down(g: GameView, id: Seq<char>)
    requires
        g.wf(),
    ensures
        ({
            let r = g.seat_refusal(id);
            &&& r is None <==> !g.in_play() && !at_table(g, id) && g.players.len() < 12
            &&& g.in_play() ==> r == Some(GameError::GameRunning)
            &&& !g.in_play() && at_table(g, id) ==> r == Some(GameError::AlreadySeated)
            &&& !g.in_play() && !at_table(g, id) && g.players.len() >= 12 ==> r == Some(
                GameError::TableFull,
            )
        }),
{
    lemma_at_table(g, id);
}

/// Who sits down takes the last seat, alive and without a role; nobody else is moved.
pub proof fn law_new_player_sits_last(
    g: GameView,
    id: Seq<char>,
    name: Seq<char>,
    is_ai: bool,
    persona: Option<crate::persona::Persona>,
    i: int,
)
    requires
        0 <= i < g.players.len(),
    ensures
        ({
            let h = g.seated(id, name, is_ai, persona);
            let p = h.players.last();
            &&& h.players.len() == g.players.len() + 1
            &&& h.players[i] == g.players[i]
            &&& p.open_id == id && p.name == name && p.is_ai == is_ai && p.persona == persona
            &&& p.alive && p.role is None
            &&& h.stage == Stage::Lobby
        }),
{
}

/// Who is at the table may leave it while no game runs, and is gone then, while everybody else
/// stays.
pub proof fn law_who_may_leave(g: GameView, id: Seq<char>, other: int)
    requires
        g.wf(),
    ensures
        ({
            let r = g.left(id);
            &&& r is Ok <==> !g.in_play() && at_table(g, id)
            &&& g.in_play() ==> r == Err::<GameView, RoomError>(RoomError::LeaveRunning)
            &&& !g.in_play() && !at_table(g, id) ==> r == Err::<GameView, RoomError>(
                RoomError::NotJoined,
            )
            &&& r is Ok ==> r->Ok_0.players.len() == g.players.len() - 1
            &&& r is Ok ==> !at_table(r->Ok_0, id)
            &&& r is Ok && 0 <= other < g.players.len() && g.players[other].open_id != id
                ==> r->Ok_0.players.contains(g.players[other])
        }),
{
    lemma_at_table(g, id);
    if g.left(id) is Ok {
        lemma_seat_exists(g, id);
        let k = g.seat_of(id)->0 as int;
        let h = g.left(id)->Ok_0;
        assert forall|i: int| 0 <= i < h.players.len() implies (#[trigger] h.players[i]).open_id
            != id by {
            let j = if i < k {
                i
            } else {
                i + 1
            };
            assert(h.players[i] == g.players[j]);
            assert(g.players[j].open_id != g.players[k].open_id);
        }
        if 0 <= other < g.players.len() && g.players[other].open_id != id {
            let j = if other < k {
                other
            } else {
                other - 1
            };
            assert(h.players[j] == g.players[other]);
        }
    }
}

proof fn lemma_last_ai_seat(players: Seq<PlayerView>)
    ensures
        last_ai_seat(players) < 0 <==> forall|i: int|
            0 <= i < players.len() ==> !(#[trigger] players[i]).is_ai,
        last_ai_seat(players) >= 0 ==> last_ai_seat(players) < players.len()
            && players[last_ai_seat(players)].is_ai && forall|i: int|
            last_ai_seat(players) < i < players.len() ==> !(#[trigger] players[i]).is_ai,
    decreases players.len(),
{
    if players.len() > 0 {
        let rest = players.drop_last();
        lemma_last_ai_seat(rest);
        assert(forall|i: int| 0 <= i < rest.len() ==> rest[i] == #[trigger] players[i]);
        if !players.last().is_ai {
            assert(players[players.len() - 1] == players.last());
            if last_ai_seat(players) < 0 {
                assert forall|i: int| 0 <= i < players.len() implies !(
                #[trigger] players[i]).is_ai by {
                    if i < rest.len() {
                        assert(rest[i] == players[i]);
                    }
                }
            } else {
                assert forall|i: int| last_ai_seat(players) < i < players.len() implies !(
                #[trigger] players[i]).is_ai by {
                    if i < rest.len() {
                        assert(rest[i] == players[i]);
                    }
                }
            }
        }
    }
}

/// The AI that sat down last is sent away, if no game runs and there is one; the humans stay.
pub proof fn law_an_ai_is_removed(g: GameView, i: int)
    requires
        0 <= i < g.players.len(),
    ensures
        ({
            let r = g.ai_removed();
            &&& g.in_play() ==> r == Err::<GameView, RoomError>(RoomError::AlreadyStarted)
            &&& !g.in_play() && g.players[i].is_ai ==> r is Ok
            &&& !g.in_play() && (forall|j: int|
                0 <= j < g.players.len() ==> !(#[trigger] g.players[j]).is_ai) ==> r == Err::<
                GameView,
                RoomError,
            >(RoomError::NoAi)
            &&& r is Ok ==> r->Ok_0.players.len() == g.players.len() - 1
            &&& r is Ok && !g.players[i].is_ai ==> r->Ok_0.players.contains(g.players[i])
            &&& r is Ok && g.players[i].is_ai && (exists|j: int|
                i < j < g.players.len() && (#[trigger] g.players[j]).is_ai)
                ==> r->Ok_0.players.contains(g.players[i])
        }),
{
    lemma_last_ai_seat(g.players);
    let k = last_ai_seat(g.players);
    if g.ai_removed() is Ok && i != k {
        let h = g.ai_removed()->Ok_0;
        let j = if i < k {
            i
        } else {
            i - 1
        };
        assert(h.players[j] == g.players[i]);
    }
}

/// A game starts with nine to twelve players while none runs.
pub proof fn law_who_may_start(g: GameView)
    requires
        g.players.len() <= 12,
    ensures
        g.room_start_refusal() is None <==> 9 <= g.players.len() && !g.in_play(),
        g.players.len() < 9 ==> g.room_start_refusal() == Some(
            RoomError::PlayerCount(g.players.len() as usize),
        ),
        9 <= g.players.len() && g.in_play() ==> g.room_start_refusal() == Some(RoomError::Running),
{
}

/// A game starts with the guard if there is one, else with the wolves; from ten players on a
/// sheriff is elected.
pub proof fn law_game_begins(g: GameView, roles: Seq<Role>, i: int)
    requires
        g.players.len() <= 12,
        roles.len() == g.players.len(),
        g.game_count < u32::MAX,
    ensures
        ({
            let h = g.started(roles);
            &&& 0 <= i < roles.len() && roles[i] == Role::Guard ==> h.stage == Stage::GuardPick
            &&& (forall|j: int| 0 <= j < roles.len() ==> #[trigger] roles[j] != Role::Guard)
                ==> h.stage == Stage::WolvesPick
            &&& h.sheriff_enabled <==> g.players.len() >= 10
            &&& h.game_count == g.game_count + 1
            &&& h.players.len() == g.players.len()
            &&& h.seer_history.len() == 0 && h.deaths.len() == 0 && h.recap_log.len() == 0
            &&& h.chat_id == g.chat_id
        }),
{
    let h = g.started(roles);
    assert(forall|j: int| 0 <= j < roles.len() ==> #[trigger] h.players[j].role == Some(roles[j]));
    if 0 <= i < roles.len() && roles[i] == Role::Guard {
        crate::seqs::lemma_first_from(0, h.players.len() as int, h.holder(Role::Guard));
        assert((h.holder(Role::Guard))(i));
        assert(h.role_seat(Role::Guard) is Some);
    }
    if forall|j: int| 0 <= j < roles.len() ==> #[trigger] roles[j] != Role::Guard {
        assert forall|j: int| 0 <= j < h.players.len() implies (#[trigger] h.players[j]).role
            != Some(Role::Guard) by {
            assert(roles[j] != Role::Guard);
        }
        lemma_no_holder(h, Role::Guard);
    }
}

/// Every human is sent the own role, and nobody anybody else's.
pub proof fn law_roles_are_sent(g: GameView, i: int)
    requires
        0 <= i < g.players.len(),
    ensures
        ({
            let sent = pick(g.players, is_human(), reveal_of(g));
            let p = g.players[i];
            &&& !p.is_ai ==> sent.contains((p.open_id, g.role_reveal_card(p)))
            &&& forall|k: int|
                0 <= k < sent.len() ==> exists|j: int|
                    0 <= j < g.players.len() && !(#[trigger] g.players[j]).is_ai
                        && #[trigger] sent[k] == (
                        g.players[j].open_id,
                        g.role_reveal_card(g.players[j]),
                    )
        }),
{
    let sent = pick(g.players, is_human(), reveal_of(g));
    if !g.players[i].is_ai {
        let k = lemma_pick_has(g.players, is_human(), reveal_of(g), i);
        assert(sent[k] == (g.players[i].open_id, g.role_reveal_card(g.players[i])));
    }
    assert forall|k: int| 0 <= k < sent.len() implies exists|j: int|
        0 <= j < g.players.len() && !(#[trigger] g.players[j]).is_ai && #[trigger] sent[k] == (
            g.players[j].open_id,
            g.role_reveal_card(g.players[j]),
        ) by {
        let j = lemma_pick_from(g.players, is_human(), reveal_of(g), k);
        assert(!g.players[j].is_ai);
    }
}

spec fn features(s: Seq<char>) -> (nat, char) {
    (s.len(), s[0])
}

proof fn lemma_room_actions()
    ensures
        features("join_lobby"@) == (10nat, 'j'),
        features("leave_lobby"@) == (11nat, 'l'),
        features("fill_ai_lobby"@) == (13nat, 'f'),
        features("add_ai_lobby"@) == (12nat, 'a'),
        features("remove_ai_lobby"@) == (15nat, 'r'),
        features("start_wolf_lobby"@) == (16nat, 's'),
        features("reset_lobby"@) == (11nat, 'r'),
        features("wolf_"@) == (5nat, 'w'),
{
    reveal_strlit("join_lobby");
    reveal_strlit("leave_lobby");
    reveal_strlit("fill_ai_lobby");
    reveal_strlit("add_ai_lobby");
    reveal_strlit("remove_ai_lobby");
    reveal_strlit("start_wolf_lobby");
    reveal_strlit("reset_lobby");
    reveal_strlit("wolf_");
}

/// What a button of the lobby asks for, pressed in whatever chat.
proof fn lemma_asks(
    chat_id: Seq<char>,
    action: Seq<char>,
    form: JsonView,
    who: Seq<char>,
    chat: Seq<char>,
)
    requires
        action.len() > 0,
        action[0] != 'w',
    ensures
        routed(room_value(chat_id, action), form, who, chat) == (PressView::Room {
            chat_id,
            action: room_action(action),
        }),
{
    lemma_room_actions();
    if begins(action, "wolf_"@) {
        assert(action.subrange(0, "wolf_"@.len() as int)[0] == action[0]);
    }
    law_room_button_reaches_room(chat_id, action, form, who, chat);
}

/// Whether a card has a button with this label that asks the room of this chat for this.
pub open spec fn asks_room(
    card: JsonView,
    label: Seq<char>,
    chat_id: Seq<char>,
    action: RoomAction,
    form: JsonView,
    who: Seq<char>,
    chat: Seq<char>,
) -> bool {
    exists|sent: JsonView| #[trigger]
        has_button(card, label, sent) && routed(sent, form, who, chat) == (PressView::Room {
            chat_id,
            action,
        })
}

proof fn lemma_lobby_button(
    g: GameView,
    ai_enabled: bool,
    j: int,
    label: Seq<char>,
    action: Seq<char>,
    style: Seq<char>,
    form: JsonView,
    who: Seq<char>,
    chat: Seq<char>,
)
    requires
        !g.in_play(),
        0 <= j < g.roster_buttons(ai_enabled).len(),
        g.roster_buttons(ai_enabled)[j] == room_button(label, g.chat_id, action, style),
        action.len() > 0,
        action[0] != 'w',
    ensures
        asks_room(
            g.lobby_card(ai_enabled),
            label,
            g.chat_id,
            room_action(action),
            form,
            who,
            chat,
        ),
{
    let c = g.lobby_card(ai_enabled);
    let head = c->Object_0[2].1;
    let parts = c->Object_0[3].1->Object_0[3].1->List_0;
    assert(c == card_view(head, parts));
    let n = parts.len() as int;
    let row = g.roster_buttons(ai_enabled);
    assert(parts[n - 2] == row_view(row));
    let v = room_value(g.chat_id, action);
    lemma_button(label, v, style);
    lemma_within_row(row, j);
    lemma_within_card(head, parts, n - 2, row[j]);
    lemma_asks(g.chat_id, action, form, who, chat);
    assert(has_button(c, label, v));
}

/// The buttons of an open lobby do what they are labelled with: join, fill up with AIs, reset;
/// leave if somebody is there; add an AI while there is a model and a seat; remove one if there
/// is one.
pub proof fn law_lobby_buttons(
    g: GameView,
    ai_enabled: bool,
    form: JsonView,
    who: Seq<char>,
    chat: Seq<char>,
)
    requires
        !g.in_play(),
    ensures
        ({
            let c = g.lobby_card(ai_enabled);
            let id = g.chat_id;
            &&& asks_room(c, "加入"@, id, RoomAction::Join, form, who, chat)
            &&& asks_room(c, "AI 补齐人数"@, id, RoomAction::FillAi, form, who, chat)
            &&& asks_room(c, "重置"@, id, RoomAction::Reset, form, who, chat)
            &&& g.players.len() > 0 ==> asks_room(c, "离开"@, id, RoomAction::Leave, form, who, chat)
            &&& ai_enabled && g.players.len() < 12 ==> asks_room(
                c,
                "加入 AI"@,
                id,
                RoomAction::AddAi,
                form,
                who,
                chat,
            )
            &&& (exists|i: int| 0 <= i < g.players.len() && (#[trigger] g.players[i]).is_ai)
                ==> asks_room(c, "移除 AI"@, id, RoomAction::RemoveAi, form, who, chat)
        }),
{
    lemma_room_actions();
    let row = g.roster_buttons(ai_enabled);
    let n = row.len() as int;
    lemma_lobby_button(g, ai_enabled, 0, "加入"@, "join_lobby"@, "primary"@, form, who, chat);
    lemma_lobby_button(
        g,
        ai_enabled,
        1,
        "AI 补齐人数"@,
        "fill_ai_lobby"@,
        "default"@,
        form,
        who,
        chat,
    );
    lemma_lobby_button(g, ai_enabled, n - 1, "重置"@, "reset_lobby"@, "default"@, form, who, chat);
    if g.players.len() > 0 {
        lemma_lobby_button(
            g,
            ai_enabled,
            n - 2,
            "离开"@,
            "leave_lobby"@,
            "default"@,
            form,
            who,
            chat,
        );
    }
    let more = ai_enabled && g.players.len() < 12;
    if more {
        lemma_lobby_button(
            g,
            ai_enabled,
            2,
            "加入 AI"@,
            "add_ai_lobby"@,
            "default"@,
            form,
            who,
            chat,
        );
    }
    if exists|i: int| 0 <= i < g.players.len() && (#[trigger] g.players[i]).is_ai {
        lemma_lobby_button(
            g,
            ai_enabled,
            if more {
                3
            } else {
                2
            },
            "移除 AI"@,
            "remove_ai_lobby"@,
            "default"@,
            form,
            who,
            chat,
        );
    }
}

/// A lobby with enough players has a button that starts the game.
pub proof fn law_start_button(
    g: GameView,
    ai_enabled: bool,
    form: JsonView,
    who: Seq<char>,
    chat: Seq<char>,
)
    requires
        !g.in_play(),
        9 <= g.players.len() <= 12,
    ensures
        asks_room(
            g.lobby_card(ai_enabled),
            "🐺 开始狼人杀"@,
            g.chat_id,
            RoomAction::Start,
            form,
            who,
            chat,
        ),
{
    lemma_room_actions();
    let c = g.lobby_card(ai_enabled);
    let head = c->Object_0[2].1;
    let parts = c->Object_0[3].1->Object_0[3].1->List_0;
    assert(c == card_view(head, parts));
    let n = parts.len() as int;
    let v = room_value(g.chat_id, "start_wolf_lobby"@);
    let b = button_view("🐺 开始狼人杀"@, v, "primary"@);
    assert(parts[n - 1] == b);
    lemma_button("🐺 开始狼人杀"@, v, "primary"@);
    lemma_within_card(head, parts, n - 1, b);
    lemma_asks(g.chat_id, "start_wolf_lobby"@, form, who, chat);
    assert(has_button(c, "🐺 开始狼人杀"@, v));
}

/// The lobby names everybody who is there.
pub proof fn law_lobby_names_everybody(g: GameView, ai_enabled: bool, i: int)
    requires
        0 <= i < g.players.len(),
    ensures
        says(g.lobby_card(ai_enabled), g.players[i].name),
        !g.players[i].is_ai ==> says(g.lobby_card(ai_enabled), "👤"@ + g.players[i].name),
{
    let c = g.lobby_card(ai_enabled);
    let head = c->Object_0[2].1;
    let parts = c->Object_0[3].1->Object_0[3].1->List_0;
    assert(c == card_view(head, parts));
    let k = g.roster_part().len() - 1;
    let lines = g.players.map_values(lobby_line());
    let t = joined(lines, "\n"@);
    assert(g.roster_part()[k] == markdown_view(t));
    assert(parts[k] == markdown_view(t));
    let p = g.players[i];
    let mark = if p.is_ai {
        match p.persona {
            Some(x) => x.emoji_text(),
            None => "🤖"@,
        }
    } else {
        "👤"@
    };
    let line = "• "@ + mark + p.name;
    assert(lines[i] == line);
    lemma_joined_holds(lines, "\n"@, i);
    lemma_holds_self(p.name);
    lemma_holds_side("• "@ + mark, p.name, p.name);
    lemma_holds_through(t, line, p.name);
    lemma_card_says(head, parts, k, t, p.name);
    if !p.is_ai {
        let want = "👤"@ + p.name;
        assert(line =~= "• "@ + want);
        lemma_holds_self(want);
        lemma_holds_side("• "@, want, want);
        lemma_holds_through(t, line, want);
        lemma_card_says(head, parts, k, t, want);
    }
}

/// A newcomer is greeted by name.
pub proof fn law_newcomer_is_greeted(name: Seq<char>, chat_id: Seq<char>)
    ensures
        says(welcome_card(name, chat_id), "👋 **"@ + name + "**，点击下方按钮加入房间。"@),
{
    let c = welcome_card(name, chat_id);
    let t = "👋 **"@ + name + "**，点击下方按钮加入房间。"@;
    let parts = c->Object_0[3].1->Object_0[3].1->List_0;
    let head = header_view("🐺 欢迎来到狼人杀"@, "turquoise"@);
    assert(c == card_view(head, parts));
    lemma_holds_self(t);
    lemma_card_says(head, parts, 0, t, t);
}

/// What is said in a chat is read if it is text and the chat is served, or if it is said to the
/// bot alone.
pub proof fn law_what_is_read(
    allowed: Option<Seq<char>>,
    kind: Seq<char>,
    chat_id: Seq<char>,
    chat_type: Seq<char>,
)
    ensures
        reads(allowed, kind, chat_id, chat_type) <==> {
            &&& kind == "text"@
            &&& chat_type == "p2p"@ || allowed is None || allowed == Some(chat_id)
        },
{
}

/// What is said to the bot alone or with a mention of it is taken without the mentions; what is
/// said otherwise is taken only if it begins with a slash.
pub proof fn law_who_is_spoken_to(
    text: Seq<char>,
    mentions: Seq<(Seq<char>, Seq<char>)>,
    bot_id: Seq<char>,
    p2p: bool,
)
    ensures
        ({
            let said = trimmed(unmentioned(text, mentions));
            let r = said_to_bot(text, mentions, bot_id, p2p);
            let meant = p2p || exists|i: int|
                0 <= i < mentions.len() && (#[trigger] mentions[i]).1 == bot_id;
            &&& meant ==> r is Some
            &&& meant && !(said.len() > 0 && said[0] == '/') ==> r == Some(said)
            &&& !meant && !(said.len() > 0 && said[0] == '/') ==> r is None
        }),
{
    reveal_strlit("/wolf");
    reveal_strlit("/狼人杀");
    reveal_strlit("/狼");
    let said = trimmed(unmentioned(text, mentions));
    assert("/wolf"@[0] == '/' && "/狼人杀"@[0] == '/' && "/狼"@[0] == '/');
    if begins(said, "/wolf"@) {
        assert(said.subrange(0, "/wolf"@.len() as int)[0] == said[0]);
    }
    if begins(said, "/狼人杀"@) {
        assert(said.subrange(0, "/狼人杀"@.len() as int)[0] == said[0]);
    }
    if begins(said, "/狼"@) {
        assert(said.subrange(0, "/狼"@.len() as int)[0] == said[0]);
    }
}

/// The word that a command turns on: the second if the first names the game, else the first.
pub open spec fn said_word(first: Seq<char>, second: Option<Seq<char>>) -> Seq<char> {
    if first == "wolf"@ || first == "狼"@ || first == "狼人"@ || first == "狼人杀"@ {
        match second {
            Some(w) => w,
            None => "help"@,
        }
    } else {
        first
    }
}

spec fn word_features(s: Seq<char>) -> (nat, char, char) {
    (s.len(), s[0], s[1])
}

proof fn lemma_words()
    ensures
        word_features("join"@) == (4nat, 'j', 'o'),
        word_features("加入"@) == (2nat, '加', '入'),
        word_features("leave"@) == (5nat, 'l', 'e'),
        word_features("离开"@) == (2nat, '离', '开'),
        word_features("start"@) == (5nat, 's', 't'),
        word_features("begin"@) == (5nat, 'b', 'e'),
        word_features("go"@) == (2nat, 'g', 'o'),
        word_features("开始"@) == (2nat, '开', '始'),
        word_features("reset"@) == (5nat, 'r', 'e'),
        word_features("重置"@) == (2nat, '重', '置'),
        word_features("help"@) == (4nat, 'h', 'e'),
        word_features("帮助"@) == (2nat, '帮', '助'),
        "?"@.len() == 1,
        ""@.len() == 0,
{
    reveal_strlit("join");
    reveal_strlit("加入");
    reveal_strlit("leave");
    reveal_strlit("离开");
    reveal_strlit("start");
    reveal_strlit("begin");
    reveal_strlit("go");
    reveal_strlit("开始");
    reveal_strlit("reset");
    reveal_strlit("重置");
    reveal_strlit("help");
    reveal_strlit("帮助");
    reveal_strlit("?");
    reveal_strlit("");
}

/// Each command has its words, in either language, and nothing else is a command.
pub proof fn law_commands_have_their_words(first: Seq<char>, second: Option<Seq<char>>)
    ensures
        ({
            let w = said_word(first, second);
            let r = command_words(first, second);
            &&& r == Some(Command::WolfJoin) <==> w == "join"@ || w == "加入"@
            &&& r == Some(Command::WolfLeave) <==> w == "leave"@ || w == "离开"@
            &&& r == Some(Command::WolfStart) <==> w == "start"@ || w == "begin"@ || w == "go"@
                || w == "开始"@
            &&& r == Some(Command::WolfReset) <==> w == "reset"@ || w == "重置"@
            &&& r == Some(Command::WolfHelp) <==> w == "help"@ || w == "帮助"@ || w == "?"@ || w
                == ""@
        }),
{
    lemma_words();
    assert(names_game(first) == (first == "wolf"@ || first == "狼"@ || first == "狼人"@ || first
        == "狼人杀"@));
    let w = said_word(first, second);
    assert(word_features(w) == word_features(w));
}

/// A toast shows what it was made for, and no toast shows nothing.
pub proof fn law_toast_is_read(content: Seq<char>)
    ensures
        answer_view(Some(content)).field("toast"@) is Some,
        answer_view(Some(content)).field("toast"@)->0.text_at("content"@) == Some(content),
        answer_view(None).field("toast"@) is None,
{
    reveal_strlit("type");
    reveal_strlit("content");
    assert("type"@.len() == 4 && "content"@.len() == 7);
    let f = toast_view(content)->Object_0;
    lemma_key_pos_is(f, "toast"@, 0);
    lemma_key_pos_is(f[0].1->Object_0, "content"@, 1);
    lemma_key_pos_is(Seq::<(Seq<char>, JsonView)>::empty(), "toast"@, 0);
}

/// What is refused is refused with the reason.
pub proof fn law_reason_is_told(reason: Seq<char>)
    ensures
        says(refused_card(reason), reason),
{
    lemma_holds_self(reason);
    lemma_card_says(
        header_view("无法执行"@, "red"@),
        seq![markdown_view(reason)],
        0,
        reason,
        reason,
    );
}

/// Who invites the bot is thanked by mention.
pub proof fn law_inviter_is_thanked(ai_enabled: bool, inviter: Seq<char>)
    requires
        inviter.len() > 0,
    ensures
        says(
            greeting_card(ai_enabled, inviter),
            "感谢 "@ + ("<at id=\""@ + inviter + "\"></at>"@) + " 把我拉进群。"@,
        ),
{
    let c = greeting_card(ai_enabled, inviter);
    let head = c->Object_0[2].1;
    let parts = c->Object_0[3].1->Object_0[3].1->List_0;
    assert(c == card_view(head, parts));
    let t = "感谢 "@ + ("<at id=\""@ + inviter + "\"></at>"@) + " 把我拉进群。"@;
    assert(parts[0] == markdown_view(t));
    lemma_holds_self(t);
    lemma_card_says(head, parts, 0, t, t);
}

/// An AI sits down as an AI, with its persona, a new id and a name that tells the persona and the
/// seat.
pub proof fn law_ai_sits_down(g: GameView, persona: crate::persona::Persona, number: nat)
    requires
        g.ai_joined(persona, number) is Ok,
    ensures
        ({
            let h = g.ai_joined(persona, number)->Ok_0;
            let p = h.players.last();
            &&& h.players.len() == g.players.len() + 1
            &&& p.is_ai
            &&& p.persona == Some(persona)
            &&& p.open_id == "ai:"@ + decimal_text(number)
            &&& p.name == persona.label_text() + " #"@ + decimal_text(h.players.len())
            &&& h.players.drop_last() == g.players
        }),
{
    let h = g.ai_joined(persona, number)->Ok_0;
    assert(h.players.drop_last() =~= g.players);
}

/// A word by itself is its own first word, and there is no second.
proof fn lemma_one_word(w: Seq<char>)
    requires
        w.len() > 0,
        forall|i: int| 0 <= i < w.len() ==> !is_white(#[trigger] w[i]),
    ensures
        trimmed(w) == w,
        first_word(w) == w,
        second_word(w) is None,
{
    assert(!is_white(w[0]));
    assert(!is_white(w[w.len() - 1]));
    law_bare_text_stays(w);
    assert(trimmed_start(w) == w);
    law_first_word_ends_at_a_blank(w);
    let f = first_word(w);
    let a = after_word(w);
    if a.len() > 0 {
        assert((f + a)[f.len() as int] == a[0]);
        assert(w[f.len() as int] == a[0]);
    }
    assert(f + a =~= f);
    assert(a =~= Seq::<char>::empty());
    law_first_word_ends_at_a_blank(a);
    assert(trimmed_start(a) == a);
    assert(first_word(a).len() == 0);
}

/// A word said to the bot alone is taken as a command, and so is the word behind the slash and the
/// name of the game, wherever it is said.
pub proof fn law_command_is_heard(w: Seq<char>, bot_id: Seq<char>, p2p: bool)
    requires
        w.len() > 0,
        forall|i: int| 0 <= i < w.len() ==> !is_white(#[trigger] w[i]),
        w[0] != '/',
    ensures
        commanded(w, Seq::empty(), bot_id, true) == command_words(unicode_lowercase(w), None),
        commanded(w, Seq::empty(), bot_id, false) is None,
        commanded("/wolf"@ + seq![' '] + w, Seq::empty(), bot_id, p2p) == command_words(
            unicode_lowercase(w),
            None,
        ),
{
    let none = Seq::<(Seq<char>, Seq<char>)>::empty();
    lemma_one_word(w);
    law_who_is_spoken_to(w, none, bot_id, true);
    law_who_is_spoken_to(w, none, bot_id, false);
    assert(unmentioned(w, none) == w);
    let t = "/wolf"@ + seq![' '] + w;
    assert(unmentioned(t, none) == t);
    reveal_strlit("/wolf");
    assert(t[0] == '/');
    assert(t.last() == w[w.len() - 1]);
    law_bare_text_stays(t);
    assert(t.subrange(0, 5) =~= "/wolf"@);
    let body = rest(t, 5);
    assert(body =~= seq![' '] + w);
    assert(body.subrange(1, body.len() as int) =~= w);
    assert(is_white(body[0]));
    assert(trimmed_start(w) == w);
    assert(trimmed_start(body) == w);
    assert(trimmed(body) == trimmed(w));
}

/// AIs are added only if there is a model to play them and while no game runs.
pub proof fn law_who_may_add_ais(g: GameView, has_model: bool)
    ensures
        g.ai_refusal(has_model) is None <==> has_model && !g.in_play(),
        !has_model ==> g.ai_refusal(has_model) == Some(RoomError::NoModel),
        has_model && g.in_play() ==> g.ai_refusal(has_model) == Some(RoomError::AlreadyStarted),
{
}

/// The rules start a game of nine to twelve players while none runs, and say why not otherwise.
pub proof fn law_rules_start_a_game(g: GameView)
    requires
        g.players.len() <= usize::MAX,
    ensures
        g.start_refusal() is None <==> !g.in_play() && 9 <= g.players.len() <= 12,
        g.in_play() ==> g.start_refusal() == Some(GameError::AlreadyStarted(g.stage)),
        !g.in_play() && !(9 <= g.players.len() <= 12) ==> g.start_refusal() == Some(
            GameError::PlayerCount(g.players.len() as usize),
        ),
{
}

/// An open lobby tells how many have sat down, and how many are missing to nine.
pub proof fn law_lobby_counts(g: GameView, ai_enabled: bool)
    requires
        !g.in_play(),
    ensures
        subtitle_of(g.lobby_card(ai_enabled)) == Some(
            "已就座 "@ + decimal_text(g.players.len()) + " 人 · 需要 9-12 人"@,
        ),
        g.players.len() < 9 ==> says(
            g.lobby_card(ai_enabled),
            "还差 "@ + decimal_text((9 - g.players.len()) as nat) + " 人，或点击 AI 补齐人数"@,
        ),
{
    let c = g.lobby_card(ai_enabled);
    let head = c->Object_0[2].1;
    let parts = c->Object_0[3].1->Object_0[3].1->List_0;
    assert(c == card_view(head, parts));
    lemma_two_heads("🐺 狼人杀 · 大厅"@, g.lobby_subtitle(), "turquoise"@, parts);
    if g.players.len() < 9 {
        let t = "还差 "@ + decimal_text((9 - g.players.len()) as nat) + " 人，或点击 AI 补齐人数"@;
        let n = parts.len() as int;
        assert(parts[n - 1] == note_view(t));
        lemma_card(head, parts);
        lemma_paragraph(t);
        lemma_holds_self(t);
        assert(holds_part(paragraph(parts_of(c)[n - 1]), t));
    }
}

} // verus!
