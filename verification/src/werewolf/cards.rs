//! The cards of the game.

use vstd::prelude::*;
use crate::assoc::{find_key, get_key, has_key, lemma_key_pos};
use crate::feishu::cards::{actions, at, at_text, button, button_grid, button_view, card, card_view, column, column_set,
    column_set_view, column_view, form, form_view, grid_view, header, header_view,
    header_with_subtitle, hr, hr_view, input_field, input_view, is_hex_id, markdown,
    markdown_view, note, note_view, row_view, submit_button, submit_view, titled_view};
use crate::json::{add_item, add_items, items1, items2, merge, merged, models, obj1, obj2, obj3,
    text, Json, JsonView};
use crate::seqs::{indices_where, lemma_map_step, lemma_take_ends};
use crate::text::{cat2, cat3, cat4, cat6, cat7, decimal, decimal_text, join, joined};
use crate::werewolf::llm::{potion, potion_text};
use crate::werewolf::recap::{check_badge, check_mark};
use crate::werewolf::state::{GameView, WolfGame};
use crate::werewolf::table::{checks_ok, picks_ok, seat_ok, seats_ok, speakers_ok};
use crate::werewolf::types::{Player, PlayerView, SeerCheck};

verus! {

impl PlayerView {
    /// How a player is shown: a human by a mention, an AI by emoji and name.
    pub open spec fn shown(self) -> Seq<char> {
        if self.is_ai {
            (match self.persona {
                Some(p) => p.emoji_text(),
                None => "🤖"@,
            }) + " **"@ + self.name + "**"@
        } else {
            at_text(self.open_id)
        }
    }
}

/// How a player is shown.
pub fn display_name(p: &Player) -> (r: String)
    ensures
        r@ == p.deep_view().shown(),
{
    if p.is_ai {
        let emoji = match p.persona {
            Some(persona) => persona.emoji(),
            None => "🤖",
        };
        cat4(emoji, " **", p.name.as_str(), "**")
    } else {
        at(p.open_id.as_str())
    }
}

impl GameView {
    /// What every button of this table sends: the table, the game and who may press.
    pub open spec fn base_value(self, actor: Seq<char>) -> JsonView {
        JsonView::Object(
            seq![
                ("chat_id"@, JsonView::Text(self.chat_id)),
                ("game"@, JsonView::Int(self.game_count as u64)),
                ("actor"@, JsonView::Text(actor)),
            ],
        )
    }

    /// What a button for an action sends.
    pub open spec fn action_value(self, actor: Seq<char>, action: Seq<char>) -> JsonView {
        merged(
            self.base_value(actor),
            JsonView::Object(seq![("action"@, JsonView::Text(action))]),
        )
    }

    /// A button that picks a player.
    pub open spec fn target_button(
        self,
        actor: Seq<char>,
        action: Seq<char>,
        style: Seq<char>,
    ) -> spec_fn(usize) -> JsonView {
        |i: usize|
            button_view(
                self.players[i as int].name,
                merged(
                    self.action_value(actor, action),
                    JsonView::Object(
                        seq![
                            ("target"@, JsonView::Text(self.players[i as int].open_id)),
                            ("target_idx"@, JsonView::Int(i as u64)),
                        ],
                    ),
                ),
                style,
            )
    }

    /// Rows of three buttons that each pick a player.
    pub open spec fn target_grid(
        self,
        actor: Seq<char>,
        action: Seq<char>,
        targets: Seq<usize>,
        style: Seq<char>,
    ) -> Seq<JsonView> {
        grid_view(targets.map_values(self.target_button(actor, action, style)), 3)
    }

    /// Whether the player in seat `i` lives and is not `id`.
    pub open spec fn other_living(self, id: Seq<char>) -> spec_fn(int) -> bool {
        |i: int| self.players[i].alive && self.players[i].open_id != id
    }

    /// Everybody alive but `id`.
    pub open spec fn others_alive(self, id: Seq<char>) -> Seq<usize> {
        indices_where(self.players.len(), self.other_living(id))
    }

    /// Whether the player in seat `i` lives and may be protected tonight.
    pub open spec fn may_guard(self) -> spec_fn(int) -> bool {
        |i: int| self.players[i].alive && self.last_guard_target != Some(i as usize)
    }

    /// The number of the night, for a title.
    pub open spec fn night_title(self) -> Seq<char> {
        "第 "@ + decimal_text(self.day as nat) + " 夜"@
    }
}

/// What every button of this table sends.
pub fn base(game: &WolfGame, actor: &str) -> (r: Json)
    ensures
        r.model() == game@.base_value(actor@),
{
    obj3(
        "chat_id",
        text(game.chat_id.as_str()),
        "game",
        Json::Int(game.game_count as u64),
        "actor",
        text(actor),
    )
}

/// What a button for an action sends.
pub fn value(game: &WolfGame, actor: &str, action: &str) -> (r: Json)
    ensures
        r.model() == game@.action_value(actor@, action@),
{
    merge(base(game, actor), obj1("action", text(action)))
}

/// A button for each target.
pub fn target_buttons(
    game: &WolfGame,
    actor_open_id: &str,
    action: &str,
    targets: &Vec<usize>,
    style: &str,
) -> (r: Vec<Json>)
    requires
        seats_ok(targets@, game@.players.len()),
    ensures
        models(r@) == targets@.map_values(
            game@.target_button(actor_open_id@, action@, style@),
        ),
{
    let ghost f = game@.target_button(actor_open_id@, action@, style@);
    let mut r: Vec<Json> = Vec::new();
    let mut i: usize = 0;
    assert(models(r@) =~= targets@.take(0).map_values(f));
    while i < targets.len()
        invariant
            i <= targets.len(),
            seats_ok(targets@, game@.players.len()),
            f == game@.target_button(actor_open_id@, action@, style@),
            models(r@) == targets@.take(i as int).map_values(f),
        decreases targets.len() - i,
    {
        proof {
            lemma_map_step(targets@, f, i as int);
            assert(targets@[i as int] < game@.players.len());
        }
        let t: usize = targets[i];
        let v = merge(
            value(game, actor_open_id, action),
            obj2(
                "target",
                text(game.players[t].open_id.as_str()),
                "target_idx",
                Json::Int(t as u64),
            ),
        );
        add_item(&mut r, button(game.players[t].name.as_str(), v, style));
        i = i + 1;
    }
    proof {
        lemma_take_ends(targets@);
    }
    r
}

/// Rows of three buttons that each pick a player.
pub fn grid(game: &WolfGame, actor: &str, action: &str, targets: &Vec<usize>, style: &str) -> (r: Vec<
    Json,
>)
    requires
        seats_ok(targets@, game@.players.len()),
    ensures
        models(r@) == game@.target_grid(actor@, action@, targets@, style@),
{
    button_grid(target_buttons(game, actor, action, targets, style), 3)
}

/// Seats that satisfy a condition exist.
pub proof fn lemma_indices_ok(n: nat, keep: spec_fn(int) -> bool)
    requires
        n <= usize::MAX,
    ensures
        seats_ok(indices_where(n, keep), n),
{
    crate::seqs::lemma_indices_where(n, keep);
    let s = indices_where(n, keep);
    assert forall|i: int| 0 <= i < s.len() implies #[trigger] s[i] < n by {
        assert(s.contains(s[i]));
    }
}

/// Everybody alive but `id`.
pub fn living_others(game: &WolfGame, id: &str) -> (r: Vec<usize>)
    ensures
        r@ == game@.others_alive(id@),
        seats_ok(r@, game@.players.len()),
{
    let x = id.to_owned();
    let n: usize = game.players.len();
    let mut r: Vec<usize> = Vec::new();
    let mut i: usize = 0;
    while i < n
        invariant
            i <= n,
            n == game.players.len(),
            x@ == id@,
            r@ == indices_where(i as nat, game@.other_living(id@)),
        decreases n - i,
    {
        if game.players[i].alive && !(game.players[i].open_id == x) {
            r.push(i);
        }
        i = i + 1;
    }
    proof {
        lemma_indices_ok(n as nat, game@.other_living(id@));
    }
    r
}

/// The number of the night, for a title.
pub fn night_label(game: &WolfGame) -> (r: String)
    ensures
        r@ == game@.night_title(),
{
    cat3("第 ", decimal(game.day as u64).as_str(), " 夜")
}

// ---- the start ----

/// Whether a player is another wolf than the one with this open id.
pub open spec fn fellow_wolf(id: Seq<char>) -> spec_fn(PlayerView) -> bool {
    |p: PlayerView| p.role is Some && p.role->0.wolfish() && p.open_id != id
}

/// A fellow wolf with its role.
pub open spec fn fellow_text() -> spec_fn(PlayerView) -> Seq<char> {
    |p: PlayerView| p.name + " ("@ + p.role->0.label_text() + ")"@
}

impl GameView {
    /// The fellows of the wolf with this open id.
    pub open spec fn fellows(self, id: Seq<char>) -> Seq<Seq<char>> {
        crate::seqs::pick(self.players, fellow_wolf(id), fellow_text())
    }

    /// What a wolf is told of its fellows.
    pub open spec fn fellows_text(self, id: Seq<char>) -> Seq<char> {
        if self.fellows(id).len() == 0 {
            "🐺 你是独狼。"@
        } else {
            "🐺 你的狼队友：**"@ + joined(self.fellows(id), "、"@) + "**"@
        }
    }

    /// The card that tells a player its role.
    pub open spec fn role_reveal_card(self, viewer: PlayerView) -> JsonView {
        let role = viewer.role->0;
        let head = seq![
            markdown_view(
                role.emoji_text() + " 你的身份是 **"@ + role.label_text() + "**"@,
            ),
            markdown_view(role.description_text()),
        ];
        let mates = if role.wolfish() {
            seq![markdown_view(self.fellows_text(viewer.open_id))]
        } else {
            Seq::empty()
        };
        card_view(
            titled_view(
                "🪪 你的身份"@,
                "第 "@ + decimal_text(self.game_count as nat) + " 局"@,
                "purple"@,
            ),
            (head + mates).push(note_view("仅你可见 · 看完别外泄，外泄就没有狼人杀了"@)),
        )
    }
}

fn list_fellows(game: &WolfGame, id: &str) -> (r: Vec<String>)
    ensures
        r.deep_view() == game@.fellows(id@),
{
    let x = id.to_owned();
    let ghost ps = game@.players;
    let mut r: Vec<String> = Vec::new();
    let mut i: usize = 0;
    proof {
        lemma_take_ends(ps);
        assert(r.deep_view() =~= Seq::empty());
    }
    while i < game.players.len()
        invariant
            i <= game.players.len(),
            ps == game@.players,
            ps.len() == game.players.len(),
            x@ == id@,
            r.deep_view() == crate::seqs::pick(
                ps.take(i as int),
                fellow_wolf(id@),
                fellow_text(),
            ),
        decreases game.players.len() - i,
    {
        let ghost before = r.deep_view();
        proof {
            crate::seqs::lemma_pick_step(ps, fellow_wolf(id@), fellow_text(), i as int);
        }
        if let Some(role) = game.players[i].role {
            if role.is_wolf() && !(game.players[i].open_id == x) {
                let line = cat4(game.players[i].name.as_str(), " (", role.label(), ")");
                r.push(line);
                assert(r.deep_view() =~= before.push(line@));
            }
        }
        i = i + 1;
    }
    proof {
        lemma_take_ends(ps);
    }
    r
}

/// The card that tells a player its role.
pub fn build_role_reveal_card(game: &WolfGame, viewer: &Player) -> (r: Json)
    requires
        viewer.role is Some,
    ensures
        r.model() == game@.role_reveal_card(viewer.deep_view()),
{
    let role = viewer.role.unwrap();
    let title = cat4(role.emoji(), " 你的身份是 **", role.label(), "**");
    let mut elements = items2(markdown(title.as_str()), markdown(role.description()));
    let ghost head = models(elements@);
    if role.is_wolf() {
        let fellows = list_fellows(game, viewer.open_id.as_str());
        let line = if fellows.len() == 0 {
            "🐺 你是独狼。".to_owned()
        } else {
            cat3("🐺 你的狼队友：**", join(&fellows, "、").as_str(), "**")
        };
        add_item(&mut elements, markdown(line.as_str()));
        assert(models(elements@) =~= head + seq![
            markdown_view(game@.fellows_text(viewer.open_id@)),
        ]);
    } else {
        assert(models(elements@) =~= head + Seq::<JsonView>::empty());
    }
    add_item(&mut elements, note("仅你可见 · 看完别外泄，外泄就没有狼人杀了"));
    let sub = cat3("第 ", decimal(game.game_count as u64).as_str(), " 局");
    card(header_with_subtitle("🪪 你的身份", sub.as_str(), "purple"), elements)
}

/// The board of a number of players, in words.
pub open spec fn board_text(n: nat) -> Seq<char> {
    if n == 9 {
        "3 狼 / 预 / 女 / 猎 / 3 民（不上警）"@
    } else if n == 10 {
        "2 狼 + 狼王 / 预 / 女 / 猎 / 守 / 3 民"@
    } else if n == 11 {
        "2 狼 + 狼王 / 预 / 女 / 猎 / 守 / 4 民"@
    } else if n == 12 {
        "3 狼 + 狼王 / 预 / 女 / 猎 / 守 / 4 民"@
    } else {
        "未知"@
    }
}

/// A player as shown.
pub open spec fn player_shown() -> spec_fn(PlayerView) -> Seq<char> {
    |p: PlayerView| p.shown()
}

impl GameView {
    /// The card that opens a game.
    pub open spec fn game_start_card(self) -> JsonView {
        card_view(
            titled_view(
                "🌒 第 "@ + decimal_text(self.game_count as nat) + " 局开始 · 入夜"@,
                decimal_text(self.players.len()) + " 人 · "@ + board_text(self.players.len()),
                "purple"@,
            ),
            seq![
                markdown_view(
                    "**入夜玩家：**\n"@ + joined(self.players.map_values(player_shown()), " · "@),
                ),
                note_view("身份已通过私密卡发给每位玩家。屠边规则：所有村民或所有神职出局即狼胜。"@),
            ],
        )
    }
}

/// Everybody as shown.
pub fn list_shown(game: &WolfGame) -> (r: Vec<String>)
    ensures
        r.deep_view() == game@.players.map_values(player_shown()),
{
    let ghost ps = game@.players;
    let mut r: Vec<String> = Vec::new();
    let mut i: usize = 0;
    assert(r.deep_view() =~= ps.take(0).map_values(player_shown()));
    while i < game.players.len()
        invariant
            i <= game.players.len(),
            ps == game@.players,
            ps.len() == game.players.len(),
            r.deep_view() == ps.take(i as int).map_values(player_shown()),
        decreases game.players.len() - i,
    {
        let ghost before = r.deep_view();
        proof {
            lemma_map_step(ps, player_shown(), i as int);
        }
        let line = display_name(&game.players[i]);
        r.push(line);
        assert(r.deep_view() =~= before.push(line@));
        i = i + 1;
    }
    proof {
        lemma_take_ends(ps);
    }
    r
}

/// The card that opens a game.
pub fn build_game_start_card(game: &WolfGame) -> (r: Json)
    ensures
        r.model() == game@.game_start_card(),
{
    let n: usize = game.players.len();
    let board = if n == 9 {
        "3 狼 / 预 / 女 / 猎 / 3 民（不上警）"
    } else if n == 10 {
        "2 狼 + 狼王 / 预 / 女 / 猎 / 守 / 3 民"
    } else if n == 11 {
        "2 狼 + 狼王 / 预 / 女 / 猎 / 守 / 4 民"
    } else if n == 12 {
        "3 狼 + 狼王 / 预 / 女 / 猎 / 守 / 4 民"
    } else {
        "未知"
    };
    let title = cat3("🌒 第 ", decimal(game.game_count as u64).as_str(), " 局开始 · 入夜");
    let sub = cat3(decimal(n as u64).as_str(), " 人 · ", board);
    let who = cat2("**入夜玩家：**\n", join(&list_shown(game), " · ").as_str());
    card(
        header_with_subtitle(title.as_str(), sub.as_str(), "purple"),
        items2(
            markdown(who.as_str()),
            note("身份已通过私密卡发给每位玩家。屠边规则：所有村民或所有神职出局即狼胜。"),
        ),
    )
}

// ---- the night ----

impl GameView {
    /// The guard's card.
    pub open spec fn guard_card(self, viewer: PlayerView) -> JsonView {
        let head = seq![
            markdown_view(
                "🛡️ **"@ + self.night_title() + "** · 选择今晚守护的玩家（含自己）。"@,
            ),
        ];
        let last = match self.last_guard_target {
            Some(i) => seq![
                markdown_view(
                    "昨夜你守了 **"@ + self.players[i as int].name + "**（今夜不可再守此人）"@,
                ),
            ],
            None => Seq::empty(),
        };
        card_view(
            titled_view("🛡️ 守卫"@, self.night_title(), "blue"@),
            ((head + last).push(markdown_view("**选择守护目标：**"@)) + self.target_grid(
                viewer.open_id,
                "wolf_guard_pick"@,
                indices_where(self.players.len(), self.may_guard()),
                "primary"@,
            )).push(
                row_view(
                    seq![
                        button_view(
                            "空守"@,
                            self.action_value(viewer.open_id, "wolf_guard_skip"@),
                            "default"@,
                        ),
                    ],
                ),
            ).push(note_view("仅你可见 · 同守同救会导致目标依然死亡"@)),
        )
    }
}

/// The guard's card.
pub fn build_guard_night_card(game: &WolfGame, viewer: &Player) -> (r: Json)
    requires
        seat_ok(game.last_guard_target, game@.players.len()),
    ensures
        r.model() == game@.guard_card(viewer.deep_view()),
{
    let id = viewer.open_id.as_str();
    let intro = cat3("🛡️ **", night_label(game).as_str(), "** · 选择今晚守护的玩家（含自己）。");
    let mut elements = items1(markdown(intro.as_str()));
    let ghost head = models(elements@);
    if let Some(prev) = game.last_guard_target {
        let line = cat3(
            "昨夜你守了 **",
            game.players[prev].name.as_str(),
            "**（今夜不可再守此人）",
        );
        add_item(&mut elements, markdown(line.as_str()));
        assert(models(elements@) =~= head + seq![markdown_view(line@)]);
    } else {
        assert(models(elements@) =~= head + Seq::<JsonView>::empty());
    }
    add_item(&mut elements, markdown("**选择守护目标：**"));
    let n: usize = game.players.len();
    let mut targets: Vec<usize> = Vec::new();
    let mut i: usize = 0;
    while i < n
        invariant
            i <= n,
            n == game.players.len(),
            targets@ == indices_where(i as nat, game@.may_guard()),
        decreases n - i,
    {
        if game.players[i].alive && game.last_guard_target != Some(i) {
            targets.push(i);
        }
        i = i + 1;
    }
    proof {
        lemma_indices_ok(n as nat, game@.may_guard());
    }
    add_items(&mut elements, grid(game, id, "wolf_guard_pick", &targets, "primary"));
    add_item(
        &mut elements,
        actions(items1(button("空守", value(game, id, "wolf_guard_skip"), "default"))),
    );
    add_item(&mut elements, note("仅你可见 · 同守同救会导致目标依然死亡"));
    card(header_with_subtitle("🛡️ 守卫", night_label(game).as_str(), "blue"), elements)
}

impl GameView {
    /// The seat of a viewer; a stranger counts as in the first seat.
    pub open spec fn viewer_seat(self, id: Seq<char>) -> usize {
        match self.seat_of(id) {
            Some(i) => i,
            None => 0,
        }
    }

    /// What a wolf has picked, by name.
    pub open spec fn picked_name(self, w: usize) -> Seq<char> {
        match get_key(self.wolf_kill_votes, w) {
            Some(t) => self.players[t as int].name,
            None => "未选"@,
        }
    }

    /// How far a wolf is.
    pub open spec fn wolf_progress(self, me: usize) -> spec_fn(usize) -> Seq<char> {
        |w: usize|
            "• "@ + self.players[w as int].name + (if w == me {
                " (你)"@
            } else {
                ""@
            }) + " → **"@ + self.picked_name(w) + "** · "@ + (if self.wolf_ready.contains(w) {
                "✅ 就绪"@
            } else {
                "—"@
            })
    }

    /// What a wolf has said.
    pub open spec fn wolf_said(self, me: usize) -> spec_fn((usize, Seq<char>)) -> Seq<char> {
        |c: (usize, Seq<char>)|
            (if c.0 == me {
                "**你**"@
            } else {
                "🐺 **"@ + self.players[c.0 as int].name + "**"@
            }) + "："@ + c.1
    }

    /// The input with which a wolf talks to its fellows.
    pub open spec fn wolf_chat_form(self, viewer: PlayerView, id: Seq<char>) -> JsonView {
        form_view(
            "wolf_chat_form_"@ + decimal_text(self.day as nat),
            seq![
                column_set_view(
                    seq![
                        column_view(
                            seq![
                                input_view("message"@, "在这里和队友说话…"@, ""@, "发言"@),
                            ],
                            3,
                        ),
                        column_view(
                            seq![
                                submit_view(
                                    "💬 发送"@,
                                    self.action_value(viewer.open_id, "wolf_chat_send"@),
                                    "primary"@,
                                    id,
                                ),
                            ],
                            1,
                        ),
                    ],
                ),
            ],
        )
    }

    /// The button with which a wolf confirms.
    pub open spec fn ready_button(self, viewer: PlayerView) -> JsonView {
        let me = self.viewer_seat(viewer.open_id);
        let v = self.action_value(viewer.open_id, "wolf_ready"@);
        if !has_key(self.wolf_kill_votes, me) {
            button_view("🔒 先选目标"@, v, "default"@)
        } else if !self.wolf_ready.contains(me) {
            button_view("🔒 我决定了 (锁定后等队友)"@, v, "primary_filled"@)
        } else {
            button_view("✅ 已就绪 · 等队友"@, v, "default"@)
        }
    }

    /// A wolf's card.
    pub open spec fn wolf_card(self, viewer: PlayerView, id: Seq<char>) -> JsonView {
        let me = self.viewer_seat(viewer.open_id);
        let head = seq![
            markdown_view(
                "🌒 **"@ + self.night_title()
                    + "** · 选目标 → 在卡片里讨论 → 全员都点 [我决定了] 才进下一阶段。"@,
            ),
            markdown_view(
                "**队伍进度：**\n"@ + joined(
                    self.wolf_seats().map_values(self.wolf_progress(me)),
                    "\n"@,
                ),
            ),
        ];
        let chat = if self.wolf_chat.len() == 0 {
            Seq::empty()
        } else {
            seq![
                hr_view(),
                markdown_view(
                    "**狼人聊天：**\n"@ + joined(
                        self.wolf_chat.map_values(self.wolf_said(me)),
                        "\n"@,
                    ),
                ),
            ]
        };
        card_view(
            titled_view("🐺 狼人行动"@, self.night_title(), "carmine"@),
            ((head + chat).push(hr_view()).push(self.wolf_chat_form(viewer, id)).push(
                markdown_view("**选择目标：**"@),
            ) + self.target_grid(
                viewer.open_id,
                "wolf_kill"@,
                self.alive_seats(),
                "danger"@,
            )).push(row_view(seq![self.ready_button(viewer)])).push(
                note_view("仅狼队伍可见 · 选了目标后再点决定 · 全员决定才结夜"@),
            ),
        )
    }
}

fn wolf_progress_lines(game: &WolfGame, me: usize) -> (r: Vec<String>)
    requires
        picks_ok(game@.wolf_kill_votes, game@.players.len()),
    ensures
        r.deep_view() == game@.wolf_seats().map_values(game@.wolf_progress(me)),
{
    let wolves = game.alive_wolves();
    let ghost f = game@.wolf_progress(me);
    let n: usize = game.players.len();
    let mut r: Vec<String> = Vec::new();
    let mut i: usize = 0;
    proof {
        lemma_indices_ok(n as nat, game@.living_wolf());
        assert(r.deep_view() =~= wolves@.take(0).map_values(f));
    }
    while i < wolves.len()
        invariant
            i <= wolves.len(),
            wolves@ == game@.wolf_seats(),
            seats_ok(wolves@, game@.players.len()),
            picks_ok(game@.wolf_kill_votes, game@.players.len()),
            f == game@.wolf_progress(me),
            r.deep_view() == wolves@.take(i as int).map_values(f),
        decreases wolves.len() - i,
    {
        let ghost before = r.deep_view();
        let w: usize = wolves[i];
        proof {
            lemma_map_step(wolves@, f, i as int);
            assert(wolves@[i as int] < game@.players.len());
            lemma_key_pos(game@.wolf_kill_votes, w);
        }
        let p: usize = find_key(&game.wolf_kill_votes, w);
        let picked = if p < game.wolf_kill_votes.len() {
            assert(game@.wolf_kill_votes[p as int].1 < game@.players.len());
            let t: usize = game.wolf_kill_votes[p].1;
            game.players[t].name.as_str()
        } else {
            "未选"
        };
        let mark = if w == me {
            " (你)"
        } else {
            ""
        };
        let ready = if game.is_wolf_ready(w) {
            "✅ 就绪"
        } else {
            "—"
        };
        let line = cat7(
            "• ",
            game.players[w].name.as_str(),
            mark,
            " → **",
            picked,
            "** · ",
            ready,
        );
        r.push(line);
        assert(r.deep_view() =~= before.push(line@));
        i = i + 1;
    }
    proof {
        lemma_take_ends(wolves@);
    }
    r
}

fn wolf_chat_lines(game: &WolfGame, me: usize) -> (r: Vec<String>)
    requires
        speakers_ok(game@.wolf_chat, game@.players.len()),
    ensures
        r.deep_view() == game@.wolf_chat.map_values(game@.wolf_said(me)),
{
    let ghost cs = game@.wolf_chat;
    let ghost f = game@.wolf_said(me);
    let mut r: Vec<String> = Vec::new();
    let mut i: usize = 0;
    assert(r.deep_view() =~= cs.take(0).map_values(f));
    while i < game.wolf_chat.len()
        invariant
            i <= game.wolf_chat.len(),
            cs == game@.wolf_chat,
            cs.len() == game.wolf_chat.len(),
            speakers_ok(cs, game@.players.len()),
            f == game@.wolf_said(me),
            r.deep_view() == cs.take(i as int).map_values(f),
        decreases game.wolf_chat.len() - i,
    {
        let ghost before = r.deep_view();
        proof {
            lemma_map_step(cs, f, i as int);
            assert(cs[i as int].0 < game@.players.len());
        }
        let w: usize = game.wolf_chat[i].0;
        let who = if w == me {
            "**你**".to_owned()
        } else {
            cat3("🐺 **", game.players[w].name.as_str(), "**")
        };
        let line = cat3(who.as_str(), "：", game.wolf_chat[i].1.as_str());
        r.push(line);
        assert(r.deep_view() =~= before.push(line@));
        i = i + 1;
    }
    proof {
        lemma_take_ends(cs);
    }
    r
}

/// A wolf's card: how far the wolves are, what they say, whom to pick, and the button
/// to confirm.
pub fn build_wolf_night_card(game: &WolfGame, viewer: &Player) -> (r: Json)
    requires
        picks_ok(game@.wolf_kill_votes, game@.players.len()),
        speakers_ok(game@.wolf_chat, game@.players.len()),
    ensures
        exists|id: Seq<char>|
            is_hex_id(id) && r.model() == #[trigger] game@.wolf_card(viewer.deep_view(), id),
{
    let open_id = viewer.open_id.as_str();
    let ghost v = viewer.deep_view();
    let me: usize = match game.find_player(open_id) {
        Some(i) => i,
        None => 0,
    };
    let intro = cat3(
        "🌒 **",
        night_label(game).as_str(),
        "** · 选目标 → 在卡片里讨论 → 全员都点 [我决定了] 才进下一阶段。",
    );
    let progress = cat2("**队伍进度：**\n", join(&wolf_progress_lines(game, me), "\n").as_str());
    let mut elements = items2(markdown(intro.as_str()), markdown(progress.as_str()));
    let ghost head = models(elements@);
    if game.wolf_chat.len() > 0 {
        let chat = cat2("**狼人聊天：**\n", join(&wolf_chat_lines(game, me), "\n").as_str());
        add_item(&mut elements, hr());
        add_item(&mut elements, markdown(chat.as_str()));
        assert(models(elements@) =~= head + seq![hr_view(), markdown_view(chat@)]);
    } else {
        assert(models(elements@) =~= head + Seq::<JsonView>::empty());
    }
    add_item(&mut elements, hr());
    let submit = submit_button("💬 发送", value(game, open_id, "wolf_chat_send"), "primary");
    let ghost id = choose|id: Seq<char>|
        is_hex_id(id) && submit.model() == #[trigger] submit_view(
            "💬 发送"@,
            game@.action_value(open_id@, "wolf_chat_send"@),
            "primary"@,
            id,
        );
    let form_name = cat2("wolf_chat_form_", decimal(game.day as u64).as_str());
    add_item(
        &mut elements,
        form(
            form_name.as_str(),
            items1(
                column_set(
                    items2(
                        column(
                            items1(input_field("message", "在这里和队友说话…", "", "发言")),
                            3,
                        ),
                        column(items1(submit), 1),
                    ),
                ),
            ),
        ),
    );
    add_item(&mut elements, markdown("**选择目标：**"));
    let targets = game.alive_indices();
    let n: usize = game.players.len();
    proof {
        lemma_indices_ok(n as nat, game@.living());
    }
    add_items(&mut elements, grid(game, open_id, "wolf_kill", &targets, "danger"));
    let ready_value = value(game, open_id, "wolf_ready");
    let ready = if find_key(&game.wolf_kill_votes, me) >= game.wolf_kill_votes.len() {
        button("🔒 先选目标", ready_value, "default")
    } else if !game.is_wolf_ready(me) {
        button("🔒 我决定了 (锁定后等队友)", ready_value, "primary_filled")
    } else {
        button("✅ 已就绪 · 等队友", ready_value, "default")
    };
    add_item(&mut elements, actions(items1(ready)));
    add_item(&mut elements, note("仅狼队伍可见 · 选了目标后再点决定 · 全员决定才结夜"));
    let r = card(
        header_with_subtitle("🐺 狼人行动", night_label(game).as_str(), "carmine"),
        elements,
    );
    assert(r.model() == game@.wolf_card(v, id));
    r
}

impl GameView {
    /// A check of the seer, in words.
    pub open spec fn check_line(self) -> spec_fn(SeerCheck) -> Seq<char> {
        |c: SeerCheck|
            "• 第 "@ + decimal_text(c.day as nat) + " 夜："@ + self.players[c.target_idx as int].name
                + " 是 "@ + check_mark(c.is_wolf)
    }

    /// The seer's card.
    pub open spec fn seer_card(self, viewer: PlayerView) -> JsonView {
        let head = seq![
            markdown_view("🔮 **"@ + self.night_title() + "** · 选择一位玩家查验身份。"@),
        ];
        let past = if self.seer_history.len() == 0 {
            Seq::empty()
        } else {
            seq![
                markdown_view(
                    "**历史查验：**\n"@ + joined(
                        self.seer_history.map_values(self.check_line()),
                        "\n"@,
                    ),
                ),
            ]
        };
        card_view(
            titled_view("🔮 预言家"@, self.night_title(), "indigo"@),
            (head + past + self.target_grid(
                viewer.open_id,
                "wolf_seer_check"@,
                self.others_alive(viewer.open_id),
                "primary"@,
            )).push(note_view("仅你可见"@)),
        )
    }

    /// The card that tells the seer the result.
    pub open spec fn seer_result_card(self, target: PlayerView, is_wolf: bool) -> JsonView {
        card_view(
            header_view(
                "🔮 查验结果 · "@ + self.night_title(),
                if is_wolf {
                    "carmine"@
                } else {
                    "turquoise"@
                },
            ),
            seq![
                markdown_view(
                    target.name + " 的身份是 "@ + (if is_wolf {
                        "🐺 **狼人**"@
                    } else {
                        "✅ **好人**"@
                    }),
                ),
                note_view("仅你可见 · 别说漏嘴"@),
            ],
        )
    }
}

fn list_checks(game: &WolfGame) -> (r: Vec<String>)
    requires
        checks_ok(game@.seer_history, game@.players.len()),
    ensures
        r.deep_view() == game@.seer_history.map_values(game@.check_line()),
{
    let ghost cs = game@.seer_history;
    let ghost f = game@.check_line();
    let mut r: Vec<String> = Vec::new();
    let mut i: usize = 0;
    assert(r.deep_view() =~= cs.take(0).map_values(f));
    while i < game.seer_history.len()
        invariant
            i <= game.seer_history.len(),
            cs == game@.seer_history,
            cs.len() == game.seer_history.len(),
            checks_ok(cs, game@.players.len()),
            f == game@.check_line(),
            r.deep_view() == cs.take(i as int).map_values(f),
        decreases game.seer_history.len() - i,
    {
        let ghost before = r.deep_view();
        proof {
            lemma_map_step(cs, f, i as int);
            assert(cs[i as int].target_idx < game@.players.len());
        }
        let c = game.seer_history[i];
        let line = cat6(
            "• 第 ",
            decimal(c.day as u64).as_str(),
            " 夜：",
            game.players[c.target_idx].name.as_str(),
            " 是 ",
            check_badge(c.is_wolf),
        );
        r.push(line);
        assert(r.deep_view() =~= before.push(line@));
        i = i + 1;
    }
    proof {
        lemma_take_ends(cs);
    }
    r
}

/// The seer's card.
pub fn build_seer_night_card(game: &WolfGame, viewer: &Player) -> (r: Json)
    requires
        checks_ok(game@.seer_history, game@.players.len()),
    ensures
        r.model() == game@.seer_card(viewer.deep_view()),
{
    let id = viewer.open_id.as_str();
    let intro = cat3("🔮 **", night_label(game).as_str(), "** · 选择一位玩家查验身份。");
    let mut elements = items1(markdown(intro.as_str()));
    let ghost head = models(elements@);
    if game.seer_history.len() > 0 {
        let past = cat2("**历史查验：**\n", join(&list_checks(game), "\n").as_str());
        add_item(&mut elements, markdown(past.as_str()));
        assert(models(elements@) =~= head + seq![markdown_view(past@)]);
    } else {
        assert(models(elements@) =~= head + Seq::<JsonView>::empty());
    }
    let targets = living_others(game, id);
    add_items(&mut elements, grid(game, id, "wolf_seer_check", &targets, "primary"));
    add_item(&mut elements, note("仅你可见"));
    card(header_with_subtitle("🔮 预言家", night_label(game).as_str(), "indigo"), elements)
}

/// The card that tells the seer the result.
pub fn build_seer_result_card(game: &WolfGame, target: &Player, is_wolf: bool) -> (r: Json)
    ensures
        r.model() == game@.seer_result_card(target.deep_view(), is_wolf),
{
    let badge = if is_wolf {
        "🐺 **狼人**"
    } else {
        "✅ **好人**"
    };
    let template = if is_wolf {
        "carmine"
    } else {
        "turquoise"
    };
    let title = cat2("🔮 查验结果 · ", night_label(game).as_str());
    let line = cat3(target.name.as_str(), " 的身份是 ", badge);
    card(
        header(title.as_str(), template),
        items2(markdown(line.as_str()), note("仅你可见 · 别说漏嘴")),
    )
}

impl GameView {
    /// What the witch learns.
    pub open spec fn witch_news(self) -> Seq<JsonView> {
        seq![
            markdown_view(
                "🌑 **"@ + self.night_title() + (match self.night_victim {
                    Some(v) => "** · 今晚狼人选择杀害 **"@ + self.players[v as int].name + "**。"@,
                    None => "** · 今晚狼人空刀，没有目标。"@,
                }),
            ),
            markdown_view(
                "**药剂状态：** 救药 "@ + potion_text(self.witch_save_used) + " · 毒药 "@
                    + potion_text(self.witch_poison_used),
            ),
        ]
    }

    /// The witch's buttons but for the poison.
    pub open spec fn witch_row(self, id: Seq<char>) -> JsonView {
        let skip = button_view("跳过"@, self.action_value(id, "wolf_witch_skip"@), "default"@);
        row_view(
            if !self.witch_save_used && self.night_victim is Some {
                seq![
                    button_view(
                        "💊 救"@,
                        self.action_value(id, "wolf_witch_save"@),
                        "primary"@,
                    ),
                    skip,
                ]
            } else {
                seq![skip]
            },
        )
    }

    /// The witch's card.
    pub open spec fn witch_card(self, viewer: PlayerView) -> JsonView {
        let id = viewer.open_id;
        let head = self.witch_news().push(self.witch_row(id));
        card_view(
            titled_view("🧪 女巫"@, self.night_title(), "violet"@),
            if self.witch_poison_used {
                head.push(note_view("毒药已用 · 仅你可见"@))
            } else {
                (head.push(markdown_view("**或者使用毒药：**"@)) + self.target_grid(
                    id,
                    "wolf_witch_poison"@,
                    self.others_alive(id),
                    "danger"@,
                )).push(note_view("毒和救只能二选一 · 仅你可见"@))
            },
        )
    }
}

/// The witch's card.
pub fn build_witch_night_card(game: &WolfGame, viewer: &Player) -> (r: Json)
    requires
        seat_ok(game.night_victim, game@.players.len()),
    ensures
        r.model() == game@.witch_card(viewer.deep_view()),
{
    let id = viewer.open_id.as_str();
    let tail = match game.night_victim {
        Some(v) => cat3(
            "** · 今晚狼人选择杀害 **",
            game.players[v].name.as_str(),
            "**。",
        ),
        None => "** · 今晚狼人空刀，没有目标。".to_owned(),
    };
    let news = cat3("🌑 **", night_label(game).as_str(), tail.as_str());
    let potions = cat4(
        "**药剂状态：** 救药 ",
        potion(game.witch_save_used),
        " · 毒药 ",
        potion(game.witch_poison_used),
    );
    let mut elements = items2(markdown(news.as_str()), markdown(potions.as_str()));
    assert(models(elements@) == game@.witch_news());
    let skip = button("跳过", value(game, id, "wolf_witch_skip"), "default");
    let buttons = if !game.witch_save_used && game.night_victim.is_some() {
        items2(button("💊 救", value(game, id, "wolf_witch_save"), "primary"), skip)
    } else {
        items1(skip)
    };
    add_item(&mut elements, actions(buttons));
    assert(models(elements@) == game@.witch_news().push(game@.witch_row(id@)));
    if !game.witch_poison_used {
        let targets = living_others(game, id);
        add_item(&mut elements, markdown("**或者使用毒药：**"));
        add_items(&mut elements, grid(game, id, "wolf_witch_poison", &targets, "danger"));
        add_item(&mut elements, note("毒和救只能二选一 · 仅你可见"));
    } else {
        add_item(&mut elements, note("毒药已用 · 仅你可见"));
    }
    card(header_with_subtitle("🧪 女巫", night_label(game).as_str(), "violet"), elements)
}

} // verus!
