//! The cards of the room.

use vstd::prelude::*;
use crate::feishu::cards::{actions, at, at_text, button, button_view, card, card_view, div_md,
    header, header_view, header_with_subtitle, markdown, markdown_view, note, note_md, note_view,
    people_view, person_list, row_view, titled_view};
use crate::json::{add_item, fields, items1, items2, items3, merge, merged, models, obj1, obj2, object,
    text, Json, JsonView};
use crate::seqs::{lemma_map_step, lemma_pick_step, lemma_take_ends, pick};
use crate::text::{cat3, cat5, decimal, decimal_text, join, joined};
use crate::werewolf::state::{GameView, WolfGame};
use crate::werewolf::types::PlayerView;

verus! {

/// What a button of the room sends.
pub open spec fn room_value(chat_id: Seq<char>, action: Seq<char>) -> JsonView {
    merged(
        JsonView::Object(seq![("chat_id"@, JsonView::Text(chat_id))]),
        JsonView::Object(seq![("action"@, JsonView::Text(action))]),
    )
}

/// A button of the room.
pub open spec fn room_button(
    label: Seq<char>,
    chat_id: Seq<char>,
    action: Seq<char>,
    style: Seq<char>,
) -> JsonView {
    button_view(label, room_value(chat_id, action), style)
}

fn push_button(label: &str, chat_id: &str, action: &str, style: &str) -> (r: Json)
    ensures
        r.model() == room_button(label@, chat_id@, action@, style@),
{
    button(
        label,
        merge(obj1("chat_id", text(chat_id)), obj1("action", text(action))),
        style,
    )
}

/// A player in the list of the lobby.
pub open spec fn lobby_line() -> spec_fn(PlayerView) -> Seq<char> {
    |p: PlayerView|
        "• "@ + (if p.is_ai {
            match p.persona {
                Some(x) => x.emoji_text(),
                None => "🤖"@,
            }
        } else {
            "👤"@
        }) + p.name
}

/// Whether a player is human.
pub open spec fn human() -> spec_fn(PlayerView) -> bool {
    |p: PlayerView| !p.is_ai
}

/// The open id of a player.
pub open spec fn id_of_player() -> spec_fn(PlayerView) -> Seq<char> {
    |p: PlayerView| p.open_id
}

impl GameView {
    /// The open ids of the humans.
    pub open spec fn human_ids(self) -> Seq<Seq<char>> {
        pick(self.players, human(), id_of_player())
    }

    /// Whether an AI sits in the room.
    pub open spec fn seats_ai(self) -> bool {
        exists|i: int| 0 <= i < self.players.len() && (#[trigger] self.players[i]).is_ai
    }

    /// Who is in the room.
    pub open spec fn roster_part(self) -> Seq<JsonView> {
        if self.players.len() == 0 {
            seq![markdown_view("🪑 房间空空如也，点击加入狼人杀。"@)]
        } else {
            seq![markdown_view("**当前玩家**"@)] + (if self.human_ids().len() == 0 {
                Seq::empty()
            } else {
                seq![people_view(self.human_ids())]
            }) + seq![
                markdown_view(joined(self.players.map_values(lobby_line()), "\n"@)),
            ]
        }
    }

    /// The buttons of the room.
    pub open spec fn roster_buttons(self, ai_enabled: bool) -> Seq<JsonView> {
        let id = self.chat_id;
        let first = seq![
            room_button("加入"@, id, "join_lobby"@, "primary"@),
            room_button("AI 补齐人数"@, id, "fill_ai_lobby"@, "default"@),
        ];
        let add = if ai_enabled && self.players.len() < 12 {
            seq![room_button("加入 AI"@, id, "add_ai_lobby"@, "default"@)]
        } else {
            Seq::empty()
        };
        let remove = if self.seats_ai() {
            seq![room_button("移除 AI"@, id, "remove_ai_lobby"@, "default"@)]
        } else {
            Seq::empty()
        };
        let leave = if self.players.len() > 0 {
            seq![room_button("离开"@, id, "leave_lobby"@, "default"@)]
        } else {
            Seq::empty()
        };
        (first + add + remove + leave).push(
            room_button("重置"@, id, "reset_lobby"@, "default"@),
        )
    }

    /// What comes last in the lobby: the button that starts a game, or who is missing.
    pub open spec fn start_part(self) -> JsonView {
        if 9 <= self.players.len() <= 12 {
            room_button("🐺 开始狼人杀"@, self.chat_id, "start_wolf_lobby"@, "primary"@)
        } else {
            note_view(
                "还差 "@ + decimal_text(
                    (if self.players.len() < 9 {
                        9 - self.players.len()
                    } else {
                        0
                    }) as nat,
                ) + " 人，或点击 AI 补齐人数"@,
            )
        }
    }

    /// The line under the title of the lobby.
    pub open spec fn lobby_subtitle(self) -> Seq<char> {
        if self.in_play() {
            "狼人杀 · "@ + self.stage.label_text() + " · 第 "@ + decimal_text(self.day as nat)
                + " 天"@
        } else {
            "已就座 "@ + decimal_text(self.players.len()) + " 人 · 需要 9-12 人"@
        }
    }

    /// The card of the lobby; without a model behind the AIs none can be added one by one.
    pub open spec fn lobby_card(self, ai_enabled: bool) -> JsonView {
        card_view(
            titled_view(
                "🐺 狼人杀 · 大厅"@,
                self.lobby_subtitle(),
                if self.in_play() {
                    "wathet"@
                } else {
                    "turquoise"@
                },
            ),
            if self.in_play() {
                self.roster_part().push(note_view("狼人杀进行中，结束后大厅会重新开放。"@))
            } else {
                self.roster_part().push(row_view(self.roster_buttons(ai_enabled))).push(
                    self.start_part(),
                )
            },
        )
    }
}

fn list_lobby(game: &WolfGame) -> (r: Vec<String>)
    ensures
        r.deep_view() == game@.players.map_values(lobby_line()),
{
    let ghost ps = game@.players;
    let mut r: Vec<String> = Vec::new();
    let mut i: usize = 0;
    assert(r.deep_view() =~= ps.take(0).map_values(lobby_line()));
    while i < game.players.len()
        invariant
            i <= game.players.len(),
            ps == game@.players,
            ps.len() == game.players.len(),
            r.deep_view() == ps.take(i as int).map_values(lobby_line()),
        decreases game.players.len() - i,
    {
        let ghost before = r.deep_view();
        proof {
            lemma_map_step(ps, lobby_line(), i as int);
        }
        let p = &game.players[i];
        let mark = if p.is_ai {
            match p.persona {
                Some(x) => x.emoji(),
                None => "🤖",
            }
        } else {
            "👤"
        };
        let line = cat3("• ", mark, p.name.as_str());
        r.push(line);
        assert(r.deep_view() =~= before.push(line@));
        i = i + 1;
    }
    proof {
        lemma_take_ends(ps);
    }
    r
}

fn list_humans(game: &WolfGame) -> (r: Vec<String>)
    ensures
        r.deep_view() == game@.human_ids(),
{
    let ghost ps = game@.players;
    let mut r: Vec<String> = Vec::new();
    let mut i: usize = 0;
    proof {
        lemma_take_ends(ps);
        assert(r.deep_view() =~= Seq::empty());
    }
    while i < game.players.len()
        invariant
            i <= game.players.len(),
            ps == game@.players,
            ps.len() == game.players.len(),
            r.deep_view() == pick(ps.take(i as int), human(), id_of_player()),
        decreases game.players.len() - i,
    {
        let ghost before = r.deep_view();
        proof {
            lemma_pick_step(ps, human(), id_of_player(), i as int);
        }
        if !game.players[i].is_ai {
            let id = game.players[i].open_id.clone();
            r.push(id);
            assert(r.deep_view() =~= before.push(id@));
        }
        i = i + 1;
    }
    proof {
        lemma_take_ends(ps);
    }
    r
}

fn has_ai(game: &WolfGame) -> (r: bool)
    ensures
        r == game@.seats_ai(),
{
    let mut i: usize = 0;
    while i < game.players.len()
        invariant
            i <= game.players.len(),
            forall|j: int| 0 <= j < i ==> !(#[trigger] game@.players[j]).is_ai,
        decreases game.players.len() - i,
    {
        if game.players[i].is_ai {
            assert(game@.players[i as int].is_ai);
            return true;
        }
        i = i + 1;
    }
    false
}

fn roster(game: &WolfGame) -> (r: Vec<Json>)
    ensures
        models(r@) == game@.roster_part(),
{
    if game.players.len() == 0 {
        return items1(markdown("🪑 房间空空如也，点击加入狼人杀。"));
    }
    let mut elements = items1(markdown("**当前玩家**"));
    let ghost head = models(elements@);
    let ids = list_humans(game);
    if ids.len() > 0 {
        add_item(&mut elements, person_list(&ids));
        assert(models(elements@) =~= head + seq![people_view(game@.human_ids())]);
    } else {
        assert(models(elements@) =~= head + Seq::<JsonView>::empty());
    }
    let ghost mid = models(elements@);
    let lines = join(&list_lobby(game), "\n");
    add_item(&mut elements, markdown(lines.as_str()));
    assert(models(elements@) =~= mid + seq![markdown_view(lines@)]);
    elements
}

fn buttons(game: &WolfGame, ai_enabled: bool) -> (r: Vec<Json>)
    ensures
        models(r@) == game@.roster_buttons(ai_enabled),
{
    let id = game.chat_id.as_str();
    let mut r = items2(
        push_button("加入", id, "join_lobby", "primary"),
        push_button("AI 补齐人数", id, "fill_ai_lobby", "default"),
    );
    let ghost first = models(r@);
    if ai_enabled && game.players.len() < 12 {
        add_item(&mut r, push_button("加入 AI", id, "add_ai_lobby", "default"));
        assert(models(r@) =~= first + seq![
            room_button("加入 AI"@, id@, "add_ai_lobby"@, "default"@),
        ]);
    } else {
        assert(models(r@) =~= first + Seq::<JsonView>::empty());
    }
    let ghost second = models(r@);
    if has_ai(game) {
        add_item(&mut r, push_button("移除 AI", id, "remove_ai_lobby", "default"));
        assert(models(r@) =~= second + seq![
            room_button("移除 AI"@, id@, "remove_ai_lobby"@, "default"@),
        ]);
    } else {
        assert(models(r@) =~= second + Seq::<JsonView>::empty());
    }
    let ghost third = models(r@);
    if game.players.len() > 0 {
        add_item(&mut r, push_button("离开", id, "leave_lobby", "default"));
        assert(models(r@) =~= third + seq![
            room_button("离开"@, id@, "leave_lobby"@, "default"@),
        ]);
    } else {
        assert(models(r@) =~= third + Seq::<JsonView>::empty());
    }
    add_item(&mut r, push_button("重置", id, "reset_lobby", "default"));
    r
}

fn start_or_missing(game: &WolfGame) -> (r: Json)
    ensures
        r.model() == game@.start_part(),
{
    let n: usize = game.players.len();
    if 9 <= n && n <= 12 {
        push_button("🐺 开始狼人杀", game.chat_id.as_str(), "start_wolf_lobby", "primary")
    } else {
        let missing: u64 = if n < 9 {
            (9 - n) as u64
        } else {
            0
        };
        let line = cat3("还差 ", decimal(missing).as_str(), " 人，或点击 AI 补齐人数");
        note_md(line.as_str())
    }
}

/// The card of the lobby; without a model behind the AIs none can be added one by one.
pub fn build_lobby_card_with(game: &WolfGame, ai_enabled: bool) -> (r: Json)
    ensures
        r.model() == game@.lobby_card(ai_enabled),
{
    let running = game.running();
    let sub = if running {
        cat5(
            "狼人杀 · ",
            game.stage.label(),
            " · 第 ",
            decimal(game.day as u64).as_str(),
            " 天",
        )
    } else {
        cat3(
            "已就座 ",
            decimal(game.players.len() as u64).as_str(),
            " 人 · 需要 9-12 人",
        )
    };
    let mut elements = roster(game);
    if running {
        add_item(&mut elements, note_md("狼人杀进行中，结束后大厅会重新开放。"));
    } else {
        add_item(&mut elements, actions(buttons(game, ai_enabled)));
        add_item(&mut elements, start_or_missing(game));
    }
    let template = if running {
        "wathet"
    } else {
        "turquoise"
    };
    card(header_with_subtitle("🐺 狼人杀 · 大厅", sub.as_str(), template), elements)
}

/// The card of the lobby.
pub fn build_lobby_card(game: &WolfGame) -> (r: Json)
    ensures
        r.model() == game@.lobby_card(true),
{
    build_lobby_card_with(game, true)
}

/// What is shown at the top of the screen.
pub open spec fn toast_view(content: Seq<char>) -> JsonView {
    JsonView::Object(
        seq![
            (
                "toast"@,
                JsonView::Object(
                    seq![
                        ("type"@, JsonView::Text("info"@)),
                        ("content"@, JsonView::Text(content)),
                    ],
                ),
            ),
        ],
    )
}

/// What is shown at the top of the screen.
pub fn toast(content: &str) -> (r: Json)
    ensures
        r.model() == toast_view(content@),
{
    obj1("toast", obj2("type", text("info"), "content", text(content)))
}

/// What is shown at the top of the screen when a press has failed.
pub fn error_toast(content: &str) -> (r: Json)
    ensures
        r.model() == JsonView::Object(
            seq![
                (
                    "toast"@,
                    JsonView::Object(
                        seq![
                            ("type"@, JsonView::Text("error"@)),
                            ("content"@, JsonView::Text(content@)),
                        ],
                    ),
                ),
            ],
        ),
{
    obj1("toast", obj2("type", text("error"), "content", text(content)))
}

/// The answer to a button: what is shown at the top of the screen, or nothing.
pub open spec fn answer_view(content: Option<Seq<char>>) -> JsonView {
    match content {
        Some(c) => toast_view(c),
        None => JsonView::Object(Seq::empty()),
    }
}

/// The answer to a button: what is shown at the top of the screen, or nothing.
pub fn answer(content: &Option<String>) -> (r: Json)
    ensures
        r.model() == answer_view(content.deep_view()),
{
    match content {
        Some(c) => toast(c.as_str()),
        None => {
            let none: Vec<(String, Json)> = Vec::new();
            assert(fields(none@) =~= Seq::empty());
            object(none)
        },
    }
}

/// The card of something refused.
pub open spec fn refused_card(reason: Seq<char>) -> JsonView {
    card_view(header_view("无法执行"@, "red"@), seq![markdown_view(reason)])
}

/// The card of something refused.
pub fn build_refused_card(reason: &str) -> (r: Json)
    ensures
        r.model() == refused_card(reason@),
{
    card(header("无法执行", "red"), items1(div_md(reason)))
}

/// The card that announces that the room was reset.
pub open spec fn reset_card() -> JsonView {
    card_view(
        header_view("房间已重置"@, "wathet"@),
        seq![markdown_view("请在下方大厅卡片重新加入狼人杀。"@)],
    )
}

/// The card that announces that the room was reset.
pub fn build_reset_card() -> (r: Json)
    ensures
        r.model() == reset_card(),
{
    card(header("房间已重置", "wathet"), items1(div_md("请在下方大厅卡片重新加入狼人杀。")))
}

/// The card for somebody who has joined the chat.
pub open spec fn welcome_card(name: Seq<char>, chat_id: Seq<char>) -> JsonView {
    card_view(
        header_view("🐺 欢迎来到狼人杀"@, "turquoise"@),
        seq![
            markdown_view("👋 **"@ + name + "**，点击下方按钮加入房间。"@),
            button_view(
                "加入狼人杀"@,
                JsonView::Object(
                    seq![
                        ("action"@, JsonView::Text("join_lobby"@)),
                        ("chat_id"@, JsonView::Text(chat_id)),
                    ],
                ),
                "primary"@,
            ),
        ],
    )
}

/// The card for somebody who has joined the chat.
pub fn build_member_welcome_card(name: &str, chat_id: &str) -> (r: Json)
    ensures
        r.model() == welcome_card(name@, chat_id@),
{
    let line = cat3("👋 **", name, "**，点击下方按钮加入房间。");
    card(
        header("🐺 欢迎来到狼人杀", "turquoise"),
        items2(
            markdown(line.as_str()),
            button(
                "加入狼人杀",
                obj2("action", text("join_lobby"), "chat_id", text(chat_id)),
                "primary",
            ),
        ),
    )
}

/// The card with which the bot greets a chat.
pub open spec fn greeting_card(ai_enabled: bool, inviter: Seq<char>) -> JsonView {
    card_view(
        titled_view("🐺 夜局 · 狼人杀"@, "飞书群里的 AI 狼人杀"@, "turquoise"@),
        seq![
            markdown_view(
                if inviter.len() == 0 {
                    "狼人杀机器人已加入本群。"@
                } else {
                    "感谢 "@ + at_text(inviter) + " 把我拉进群。"@
                },
            ),
            markdown_view("点击大厅卡片加入，凑齐 9-12 人后开始。"@),
            note_view(
                if ai_enabled {
                    "人数不足时可点击 **AI 补齐人数**。"@
                } else {
                    "配置 OPENAI_API_KEY 后可使用 AI 补齐人数。"@
                },
            ),
        ],
    )
}

/// The card with which the bot greets a chat.
pub fn build_bot_added_welcome_card(ai_enabled: bool, inviter: &str) -> (r: Json)
    ensures
        r.model() == greeting_card(ai_enabled, inviter@),
{
    let thanks = if inviter.is_empty() {
        "狼人杀机器人已加入本群。".to_owned()
    } else {
        cat3("感谢 ", at(inviter).as_str(), " 把我拉进群。")
    };
    let ai_note = if ai_enabled {
        "人数不足时可点击 **AI 补齐人数**。"
    } else {
        "配置 OPENAI_API_KEY 后可使用 AI 补齐人数。"
    };
    card(
        header_with_subtitle("🐺 夜局 · 狼人杀", "飞书群里的 AI 狼人杀", "turquoise"),
        items3(
            markdown(thanks.as_str()),
            markdown("点击大厅卡片加入，凑齐 9-12 人后开始。"),
            note(ai_note),
        ),
    )
}

/// The text of the help.
pub const HELP: &'static str = "**操作方式**：先在大厅 [加入] 进房，然后点 [开始狼人杀] 按钮，或 `/wolf start`。可用 [加入 AI] 逐个加到 12 人，人数不足时也可点[AI 补齐人数] 一键补到 9 人；[移除 AI] 每次移除一名。\n\n• `wolf join` 加入房间\n• `wolf leave` 离开房间\n• `wolf start` 开狼人杀（9-12 名玩家）\n• `wolf reset` 重置房间\n\n**板娘配比**：\n• 9 人：3 狼 / 预 / 女 / 猎 / 3 民（不上警）\n• 10 人：2 狼 + **狼王** / 预 / 女 / 猎 / **守** / 3 民\n• 11 人：2 狼 + 狼王 / 预 / 女 / 猎 / 守 / 4 民\n• 12 人：3 狼 + 狼王 / 预 / 女 / 猎 / 守 / 4 民\n\n**关键规则**：\n• 狼王（10+ 板）被投票 / 反向送葬时可开枪，被毒不能\n• 守卫每晚守一人（含自己）或空守，不可连守同一人；同守同救会死\n• 10+ 板第 1 天有上警阶段，警长 1.5 倍票权，死亡可移交 / 撕毁警徽\n• 猎人被狼刀 / 放逐可开枪，被毒不能\n\n胜负：屠边——全部狼死（含狼王） = 好人胜；村民或神职全部出局 = 狼胜";

/// The card of the help.
pub open spec fn help_card() -> JsonView {
    card_view(
        header_view("🐺 狼人杀 帮助"@, "purple"@),
        seq![
            markdown_view(HELP@),
            note_view("身份卡 / 夜间技能 / 投票 全部以**仅本人可见**的群消息发出"@),
        ],
    )
}

/// The card of the help.
pub fn build_help_card() -> (r: Json)
    ensures
        r.model() == help_card(),
{
    card(
        header("🐺 狼人杀 帮助", "purple"),
        items2(
            markdown(HELP),
            note_md("身份卡 / 夜间技能 / 投票 全部以**仅本人可见**的群消息发出"),
        ),
    )
}

} // verus!
