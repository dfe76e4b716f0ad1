//! The cards of the day: deaths, the election, speeches, votes, shots and the badge.

use vstd::prelude::*;
use crate::feishu::cards::{actions, button, button_view, card, card_view, form, form_view, header,
    header_view, header_with_subtitle, hr, hr_view, input_field, input_view, is_hex_id, markdown,
    markdown_view, note, note_view, row_view, submit_button, submit_view, titled_view};
use crate::json::{add_item, add_items, items1, items2, items3, models, Json, JsonView};
use crate::seqs::{lemma_map_step, lemma_take_ends};
use crate::text::{cat2, cat3, cat4, cat5, decimal, decimal_text, join, joined, wrap, wrapped};
use crate::werewolf::cards::{display_name, grid, value};
use crate::werewolf::recap::{direction_label, direction_text};
use crate::werewolf::state::{GameView, WolfGame};
use crate::werewolf::table::{keys_ok, seats_ok, speakers_ok};
use crate::werewolf::types::{Player, PlayerView};

verus! {

impl GameView {
    /// The number of the day, for a title.
    pub open spec fn day_title(self) -> Seq<char> {
        "第 "@ + decimal_text(self.day as nat) + " 天"@
    }

    /// A seat as shown.
    pub open spec fn seat_shown(self) -> spec_fn(usize) -> Seq<char> {
        |i: usize| self.players[i as int].shown()
    }

    /// The line of the card on last night's deaths.
    pub open spec fn deaths_text(self) -> Seq<char> {
        (if self.last_night_deaths.len() == 0 {
            "🌅 **平安夜**，昨夜无人死亡。"@
        } else {
            "🌅 昨夜以下玩家死亡：\n"@ + wrapped(
                self.last_night_deaths.map_values(self.seat_shown()),
                "• "@,
                " 出局\n"@,
            )
        }) + "\n仍在场：**"@ + decimal_text(self.alive_seats().len()) + "** 人。"@
    }

    /// The card on last night's deaths. It names no cause.
    pub open spec fn day_reveal_card(self) -> JsonView {
        card_view(
            titled_view(
                "🌅 "@ + self.day_title() + " · 黎明"@,
                "天亮了，请讨论再投票"@,
                "yellow"@,
            ),
            seq![markdown_view(self.deaths_text())],
        )
    }

    /// A button that needs no target.
    pub open spec fn plain_button(
        self,
        label: Seq<char>,
        actor: Seq<char>,
        action: Seq<char>,
        style: Seq<char>,
    ) -> JsonView {
        button_view(label, self.action_value(actor, action), style)
    }

    /// The card that asks whether to run for sheriff.
    pub open spec fn nominate_card(self, viewer: PlayerView) -> JsonView {
        card_view(
            titled_view("🎖️ 上警阶段"@, "决定是否参选警长"@, "yellow"@),
            seq![
                markdown_view(
                    "**第 1 天上警**：你可以选择参选警长。警长有 1.5 倍票权，死亡时可移交警徽。\n候选人不能投票，由其他玩家投出。"@,
                ),
                row_view(
                    seq![
                        self.plain_button(
                            "🎖️ 上警"@,
                            viewer.open_id,
                            "wolf_sheriff_run"@,
                            "primary"@,
                        ),
                        self.plain_button(
                            "不上警"@,
                            viewer.open_id,
                            "wolf_sheriff_skip"@,
                            "default"@,
                        ),
                    ],
                ),
                note_view("仅你可见"@),
            ],
        )
    }

    /// A candidate in the list of candidates.
    pub open spec fn candidate_line(self) -> spec_fn(usize) -> Seq<char> {
        |i: usize| "• "@ + self.players[i as int].shown()
    }

    /// The card that announces the candidates.
    pub open spec fn candidates_card(self) -> JsonView {
        card_view(
            header_view("🎖️ 警长候选人"@, "yellow"@),
            seq![
                markdown_view(
                    if self.candidates().len() == 0 {
                        "⚠️ 无人参选，本局无警长。"@
                    } else {
                        "候选人：\n"@ + joined(
                            self.candidates().map_values(self.candidate_line()),
                            "\n"@,
                        )
                    },
                ),
            ],
        )
    }

    /// The card that asks a candidate whether to stay.
    pub open spec fn withdraw_card(self, viewer: PlayerView) -> JsonView {
        card_view(
            titled_view("🎖️ 退水阶段"@, "决定是否留在警上"@, "yellow"@),
            seq![
                markdown_view("竞选发言结束。你可以继续参选，也可以退水；退水后不能参加警长投票。"@),
                row_view(
                    seq![
                        self.plain_button(
                            "🎖️ 继续参选"@,
                            viewer.open_id,
                            "wolf_sheriff_stay"@,
                            "primary"@,
                        ),
                        self.plain_button(
                            "💧 退水"@,
                            viewer.open_id,
                            "wolf_sheriff_withdraw"@,
                            "default"@,
                        ),
                    ],
                ),
                note_view("仅你可见"@),
            ],
        )
    }

    /// The card on which an elector votes.
    pub open spec fn election_card(self, viewer: PlayerView) -> JsonView {
        let head = seq![markdown_view("🗳️ **警长投票** · 选一位候选人当警长。"@)];
        card_view(
            header_view("🎖️ 警长投票"@, "yellow"@),
            (head + self.target_grid(
                viewer.open_id,
                "wolf_sheriff_vote"@,
                self.candidates(),
                "primary"@,
            )).push(
                row_view(
                    seq![
                        self.plain_button(
                            "弃权"@,
                            viewer.open_id,
                            "wolf_sheriff_vote_abstain"@,
                            "default"@,
                        ),
                    ],
                ),
            ).push(note_view("仅你可见 · 候选人本人不能投票"@)),
        )
    }
}

/// The number of the day, for a title.
pub fn day_label(game: &WolfGame) -> (r: String)
    ensures
        r@ == game@.day_title(),
{
    cat3("第 ", decimal(game.day as u64).as_str(), " 天")
}

/// A button that needs no target.
pub fn plain(game: &WolfGame, label: &str, actor: &str, action: &str, style: &str) -> (r: Json)
    ensures
        r.model() == game@.plain_button(label@, actor@, action@, style@),
{
    button(label, value(game, actor, action), style)
}

/// Seats as shown.
pub fn shown_seats(game: &WolfGame, seats: &Vec<usize>) -> (r: Vec<String>)
    requires
        seats_ok(seats@, game@.players.len()),
    ensures
        r.deep_view() == seats@.map_values(game@.seat_shown()),
{
    let ghost f = game@.seat_shown();
    let mut r: Vec<String> = Vec::new();
    let mut i: usize = 0;
    assert(r.deep_view() =~= seats@.take(0).map_values(f));
    while i < seats.len()
        invariant
            i <= seats.len(),
            seats_ok(seats@, game@.players.len()),
            f == game@.seat_shown(),
            r.deep_view() == seats@.take(i as int).map_values(f),
        decreases seats.len() - i,
    {
        let ghost before = r.deep_view();
        proof {
            lemma_map_step(seats@, f, i as int);
            assert(seats@[i as int] < game@.players.len());
        }
        let line = display_name(&game.players[seats[i]]);
        r.push(line);
        assert(r.deep_view() =~= before.push(line@));
        i = i + 1;
    }
    proof {
        lemma_take_ends(seats@);
    }
    r
}

/// The card on last night's deaths.
pub fn build_day_reveal_card(game: &WolfGame) -> (r: Json)
    requires
        seats_ok(game@.last_night_deaths, game@.players.len()),
    ensures
        r.model() == game@.day_reveal_card(),
{
    let news = if game.last_night_deaths.len() == 0 {
        "🌅 **平安夜**，昨夜无人死亡。".to_owned()
    } else {
        cat2(
            "🌅 昨夜以下玩家死亡：\n",
            wrap(&shown_seats(game, &game.last_night_deaths), "• ", " 出局\n").as_str(),
        )
    };
    let alive: usize = game.alive_indices().len();
    let body = cat4(
        news.as_str(),
        "\n仍在场：**",
        decimal(alive as u64).as_str(),
        "** 人。",
    );
    let title = cat3("🌅 ", day_label(game).as_str(), " · 黎明");
    card(
        header_with_subtitle(title.as_str(), "天亮了，请讨论再投票", "yellow"),
        items1(markdown(body.as_str())),
    )
}

/// The card that asks whether to run for sheriff.
pub fn build_sheriff_nominate_card(game: &WolfGame, viewer: &Player) -> (r: Json)
    ensures
        r.model() == game@.nominate_card(viewer.deep_view()),
{
    let id = viewer.open_id.as_str();
    card(
        header_with_subtitle("🎖️ 上警阶段", "决定是否参选警长", "yellow"),
        items3(
            markdown(
                "**第 1 天上警**：你可以选择参选警长。警长有 1.5 倍票权，死亡时可移交警徽。\n候选人不能投票，由其他玩家投出。",
            ),
            actions(
                items2(
                    plain(game, "🎖️ 上警", id, "wolf_sheriff_run", "primary"),
                    plain(game, "不上警", id, "wolf_sheriff_skip", "default"),
                ),
            ),
            note("仅你可见"),
        ),
    )
}

fn list_candidates(game: &WolfGame, seats: &Vec<usize>) -> (r: Vec<String>)
    requires
        seats_ok(seats@, game@.players.len()),
    ensures
        r.deep_view() == seats@.map_values(game@.candidate_line()),
{
    let ghost f = game@.candidate_line();
    let mut r: Vec<String> = Vec::new();
    let mut i: usize = 0;
    assert(r.deep_view() =~= seats@.take(0).map_values(f));
    while i < seats.len()
        invariant
            i <= seats.len(),
            seats_ok(seats@, game@.players.len()),
            f == game@.candidate_line(),
            r.deep_view() == seats@.take(i as int).map_values(f),
        decreases seats.len() - i,
    {
        let ghost before = r.deep_view();
        proof {
            lemma_map_step(seats@, f, i as int);
            assert(seats@[i as int] < game@.players.len());
        }
        let line = cat2("• ", display_name(&game.players[seats[i]]).as_str());
        r.push(line);
        assert(r.deep_view() =~= before.push(line@));
        i = i + 1;
    }
    proof {
        lemma_take_ends(seats@);
    }
    r
}

/// Whoever can be elected sits at the table.
pub proof fn lemma_candidates_ok(g: GameView)
    requires
        keys_ok(g.sheriff_nominations, g.players.len()),
        seats_ok(g.sheriff_pk_candidates, g.players.len()),
    ensures
        seats_ok(g.candidates(), g.players.len()),
{
    crate::werewolf::election::lemma_running(g.sheriff_nominations, g.players.len());
}

/// The card that announces the candidates.
pub fn build_sheriff_candidates_card(game: &WolfGame) -> (r: Json)
    requires
        keys_ok(game@.sheriff_nominations, game@.players.len()),
        seats_ok(game@.sheriff_pk_candidates, game@.players.len()),
    ensures
        r.model() == game@.candidates_card(),
{
    proof {
        lemma_candidates_ok(game@);
    }
    let candidates = game.sheriff_candidates();
    let body = if candidates.len() == 0 {
        "⚠️ 无人参选，本局无警长。".to_owned()
    } else {
        cat2("候选人：\n", join(&list_candidates(game, &candidates), "\n").as_str())
    };
    card(header("🎖️ 警长候选人", "yellow"), items1(markdown(body.as_str())))
}

/// The card that asks a candidate whether to stay.
pub fn build_sheriff_withdraw_card(game: &WolfGame, viewer: &Player) -> (r: Json)
    ensures
        r.model() == game@.withdraw_card(viewer.deep_view()),
{
    let id = viewer.open_id.as_str();
    card(
        header_with_subtitle("🎖️ 退水阶段", "决定是否留在警上", "yellow"),
        items3(
            markdown("竞选发言结束。你可以继续参选，也可以退水；退水后不能参加警长投票。"),
            actions(
                items2(
                    plain(game, "🎖️ 继续参选", id, "wolf_sheriff_stay", "primary"),
                    plain(game, "💧 退水", id, "wolf_sheriff_withdraw", "default"),
                ),
            ),
            note("仅你可见"),
        ),
    )
}

/// The card on which an elector votes.
pub fn build_sheriff_vote_card(game: &WolfGame, viewer: &Player) -> (r: Json)
    requires
        keys_ok(game@.sheriff_nominations, game@.players.len()),
        seats_ok(game@.sheriff_pk_candidates, game@.players.len()),
    ensures
        r.model() == game@.election_card(viewer.deep_view()),
{
    proof {
        lemma_candidates_ok(game@);
    }
    let id = viewer.open_id.as_str();
    let candidates = game.sheriff_candidates();
    let mut elements = items1(markdown("🗳️ **警长投票** · 选一位候选人当警长。"));
    add_items(&mut elements, grid(game, id, "wolf_sheriff_vote", &candidates, "primary"));
    add_item(
        &mut elements,
        actions(items1(plain(game, "弃权", id, "wolf_sheriff_vote_abstain", "default"))),
    );
    add_item(&mut elements, note("仅你可见 · 候选人本人不能投票"));
    card(header("🎖️ 警长投票", "yellow"), elements)
}

// ---- speeches ----

/// How a place in an order is marked: past, current or to come.
pub open spec fn turn_mark(i: int, cur: int, current: Seq<char>) -> Seq<char> {
    if i < cur {
        "✓"@
    } else if i == cur {
        current
    } else {
        "·"@
    }
}

/// How a place in an order is marked.
pub fn mark_turn(i: usize, cur: usize, current: &'static str) -> (r: &'static str)
    ensures
        r@ == turn_mark(i as int, cur as int, current@),
{
    if i < cur {
        "✓"
    } else if i == cur {
        current
    } else {
        "·"
    }
}

impl GameView {
    /// A speaker in the order of speeches.
    pub open spec fn order_entry(self, order: Seq<usize>, cur: int) -> spec_fn(int) -> Seq<char> {
        |i: int|
            turn_mark(i, cur, "🎤"@) + " "@ + (if self.players[order[i] as int].is_ai {
                "🤖 **"@ + self.players[order[i] as int].name + "**"@
            } else {
                self.players[order[i] as int].name
            })
    }

    /// Somebody in the order of last words.
    pub open spec fn queue_entry(self, order: Seq<usize>, cur: int) -> spec_fn(int) -> Seq<char> {
        |i: int| turn_mark(i, cur, "🪦"@) + " "@ + self.players[order[i] as int].name
    }

    /// What somebody has said.
    pub open spec fn said_line(self, mark: Seq<char>) -> spec_fn((usize, Seq<char>)) -> Seq<char> {
        |s: (usize, Seq<char>)| mark + self.players[s.0 as int].name + "**："@ + s.1
    }

    /// What has been said, after a rule; nothing if nothing has been said.
    pub open spec fn said_part(self, mark: Seq<char>, speeches: Seq<(usize, Seq<char>)>) -> Seq<
        JsonView,
    > {
        if speeches.len() == 0 {
            Seq::empty()
        } else {
            seq![
                hr_view(),
                markdown_view(joined(speeches.map_values(self.said_line(mark)), "\n\n"@)),
            ]
        }
    }

    /// Who is speaking, after a rule; nothing if all have spoken.
    pub open spec fn turn_part(self, label: Seq<char>, order: Seq<usize>, cur: int) -> Seq<
        JsonView,
    > {
        if cur < order.len() {
            seq![
                hr_view(),
                markdown_view(label + self.players[order[cur] as int].shown()),
            ]
        } else {
            Seq::empty()
        }
    }

    /// The public card of a round of speeches.
    pub open spec fn speech_card(
        self,
        title: Seq<char>,
        template: Seq<char>,
        order: Seq<usize>,
        speeches: Seq<(usize, Seq<char>)>,
        cur: int,
    ) -> JsonView {
        let line = joined(Seq::new(order.len(), self.order_entry(order, cur)), " → "@);
        card_view(
            header_view(title, template),
            seq![markdown_view("**发言顺序**\n"@ + line)] + self.said_part("✅ **"@, speeches)
                + self.turn_part("🎤 **当前发言**："@, order, cur),
        )
    }

    /// The public card of the last words.
    pub open spec fn last_words_card(
        self,
        queue: Seq<usize>,
        speeches: Seq<(usize, Seq<char>)>,
        cur: int,
    ) -> JsonView {
        let line = joined(Seq::new(queue.len(), self.queue_entry(queue, cur)), " → "@);
        card_view(
            header_view("🪦 死亡遗言"@, "wathet"@),
            if queue.len() == 0 {
                seq![markdown_view("本轮无遗言。"@)]
            } else {
                seq![markdown_view("**遗言顺序**\n"@ + line)] + self.said_part("🪦 **"@, speeches)
                    + self.turn_part("🎤 **正在发表遗言**："@, queue, cur)
            },
        )
    }

    /// The form with which somebody speaks.
    pub open spec fn speech_form(
        self,
        name: Seq<char>,
        placeholder: Seq<char>,
        label: Seq<char>,
        actor: Seq<char>,
        submit: Seq<char>,
        skip: Seq<char>,
        id: Seq<char>,
    ) -> JsonView {
        form_view(
            name + decimal_text(self.game_count as nat) + "_"@ + decimal_text(self.day as nat),
            seq![
                input_view("speech"@, placeholder, ""@, label),
                row_view(
                    seq![
                        submit_view(
                            "✅ 说完了"@,
                            self.action_value(actor, submit),
                            "primary_filled"@,
                            id,
                        ),
                        self.plain_button("⏭ 沉默"@, actor, skip, "default"@),
                    ],
                ),
            ],
        )
    }

    /// The card on which the current speaker speaks.
    pub open spec fn speech_input_card(
        self,
        viewer: PlayerView,
        title: Seq<char>,
        template: Seq<char>,
        submit: Seq<char>,
        skip: Seq<char>,
        placeholder: Seq<char>,
        id: Seq<char>,
    ) -> JsonView {
        card_view(
            header_view(title, template),
            seq![
                markdown_view("🎤 **轮到你发言**——直接说你的内容，或选择沉默。"@),
                self.speech_form(
                    "speech_form_"@,
                    placeholder,
                    "发言"@,
                    viewer.open_id,
                    submit,
                    skip,
                    id,
                ),
                note_view("仅你可见 · 提交即结束你的回合 · 200 字内"@),
            ],
        )
    }

    /// The card on which somebody speaks last words.
    pub open spec fn last_words_input_card(self, viewer: PlayerView, id: Seq<char>) -> JsonView {
        card_view(
            header_view("🎤 你的遗言"@, "carmine"@),
            seq![
                markdown_view("🪦 **你已死亡，请发表你的遗言**——爆身份、报查杀、留信息都行。"@),
                self.speech_form(
                    "last_words_form_"@,
                    "你的遗言…"@,
                    "遗言"@,
                    viewer.open_id,
                    "wolf_last_words_submit"@,
                    "wolf_last_words_skip"@,
                    id,
                ),
                note_view("仅你可见 · 提交即结束遗言 · 300 字内"@),
            ],
        )
    }
}

fn list_order(game: &WolfGame, order: &[usize], cur: usize) -> (r: Vec<String>)
    requires
        seats_ok(order@, game@.players.len()),
    ensures
        r.deep_view() == Seq::new(order@.len(), game@.order_entry(order@, cur as int)),
{
    let ghost f = game@.order_entry(order@, cur as int);
    let mut r: Vec<String> = Vec::new();
    let mut i: usize = 0;
    while i < order.len()
        invariant
            i <= order.len(),
            seats_ok(order@, game@.players.len()),
            f == game@.order_entry(order@, cur as int),
            r.deep_view() == Seq::new(i as nat, f),
        decreases order.len() - i,
    {
        let ghost before = r.deep_view();
        assert(order@[i as int] < game@.players.len());
        let p = &game.players[order[i]];
        let mark = mark_turn(i, cur, "🎤");
        let name = if p.is_ai {
            cat3("🤖 **", p.name.as_str(), "**")
        } else {
            p.name.as_str().to_owned()
        };
        let line = cat3(mark, " ", name.as_str());
        r.push(line);
        assert(r.deep_view() =~= before.push(line@));
        assert(before.push(line@) =~= Seq::new((i + 1) as nat, f));
        i = i + 1;
    }
    r
}

fn list_queue(game: &WolfGame, order: &[usize], cur: usize) -> (r: Vec<String>)
    requires
        seats_ok(order@, game@.players.len()),
    ensures
        r.deep_view() == Seq::new(order@.len(), game@.queue_entry(order@, cur as int)),
{
    let ghost f = game@.queue_entry(order@, cur as int);
    let mut r: Vec<String> = Vec::new();
    let mut i: usize = 0;
    while i < order.len()
        invariant
            i <= order.len(),
            seats_ok(order@, game@.players.len()),
            f == game@.queue_entry(order@, cur as int),
            r.deep_view() == Seq::new(i as nat, f),
        decreases order.len() - i,
    {
        let ghost before = r.deep_view();
        assert(order@[i as int] < game@.players.len());
        let mark = mark_turn(i, cur, "🪦");
        let line = cat3(mark, " ", game.players[order[i]].name.as_str());
        r.push(line);
        assert(r.deep_view() =~= before.push(line@));
        assert(before.push(line@) =~= Seq::new((i + 1) as nat, f));
        i = i + 1;
    }
    r
}

fn list_said(game: &WolfGame, mark: &str, speeches: &[(usize, String)]) -> (r: Vec<String>)
    requires
        speakers_ok(speeches.deep_view(), game@.players.len()),
    ensures
        r.deep_view() == speeches.deep_view().map_values(game@.said_line(mark@)),
{
    let ghost ss = speeches.deep_view();
    let ghost f = game@.said_line(mark@);
    let mut r: Vec<String> = Vec::new();
    let mut i: usize = 0;
    assert(r.deep_view() =~= ss.take(0).map_values(f));
    while i < speeches.len()
        invariant
            i <= speeches.len(),
            ss == speeches.deep_view(),
            ss.len() == speeches.len(),
            speakers_ok(ss, game@.players.len()),
            f == game@.said_line(mark@),
            r.deep_view() == ss.take(i as int).map_values(f),
        decreases speeches.len() - i,
    {
        let ghost before = r.deep_view();
        proof {
            lemma_map_step(ss, f, i as int);
            assert(ss[i as int].0 < game@.players.len());
            assert(ss[i as int] == (speeches@[i as int].0, speeches@[i as int].1@));
        }
        let line = cat4(
            mark,
            game.players[speeches[i].0].name.as_str(),
            "**：",
            speeches[i].1.as_str(),
        );
        r.push(line);
        assert(r.deep_view() =~= before.push(line@));
        i = i + 1;
    }
    proof {
        lemma_take_ends(ss);
    }
    r
}

fn add_said(elements: &mut Vec<Json>, game: &WolfGame, mark: &str, speeches: &[(usize, String)])
    requires
        speakers_ok(speeches.deep_view(), game@.players.len()),
    ensures
        models(final(elements)@) == models(old(elements)@) + game@.said_part(
            mark@,
            speeches.deep_view(),
        ),
{
    let ghost head = models(elements@);
    if speeches.len() > 0 {
        let said = join(&list_said(game, mark, speeches), "\n\n");
        add_item(elements, hr());
        add_item(elements, markdown(said.as_str()));
        assert(models(elements@) =~= head + seq![hr_view(), markdown_view(said@)]);
    } else {
        assert(models(elements@) =~= head + Seq::<JsonView>::empty());
    }
}

fn add_turn(elements: &mut Vec<Json>, game: &WolfGame, label: &str, order: &[usize], cur: usize)
    requires
        seats_ok(order@, game@.players.len()),
    ensures
        models(final(elements)@) == models(old(elements)@) + game@.turn_part(
            label@,
            order@,
            cur as int,
        ),
{
    let ghost head = models(elements@);
    if cur < order.len() {
        assert(order@[cur as int] < game@.players.len());
        let line = cat2(label, display_name(&game.players[order[cur]]).as_str());
        add_item(elements, hr());
        add_item(elements, markdown(line.as_str()));
        assert(models(elements@) =~= head + seq![hr_view(), markdown_view(line@)]);
    } else {
        assert(models(elements@) =~= head + Seq::<JsonView>::empty());
    }
}

/// The public card of a round of speeches: the order, what has been said, whose turn it
/// is.
pub fn build_speech_public_card(
    game: &WolfGame,
    title: &str,
    template: &str,
    order: &[usize],
    speeches: &[(usize, String)],
    cur_idx: usize,
) -> (r: Json)
    requires
        seats_ok(order@, game@.players.len()),
        speakers_ok(speeches.deep_view(), game@.players.len()),
    ensures
        r.model() == game@.speech_card(
            title@,
            template@,
            order@,
            speeches.deep_view(),
            cur_idx as int,
        ),
{
    let line = cat2("**发言顺序**\n", join(&list_order(game, order, cur_idx), " → ").as_str());
    let mut elements = items1(markdown(line.as_str()));
    add_said(&mut elements, game, "✅ **", speeches);
    add_turn(&mut elements, game, "🎤 **当前发言**：", order, cur_idx);
    card(header(title, template), elements)
}

/// The public card of the last words.
pub fn build_last_words_public_card(
    game: &WolfGame,
    queue: &[usize],
    speeches: &[(usize, String)],
    cur_idx: usize,
) -> (r: Json)
    requires
        seats_ok(queue@, game@.players.len()),
        speakers_ok(speeches.deep_view(), game@.players.len()),
    ensures
        r.model() == game@.last_words_card(queue@, speeches.deep_view(), cur_idx as int),
{
    let elements = if queue.len() == 0 {
        items1(markdown("本轮无遗言。"))
    } else {
        let line = cat2(
            "**遗言顺序**\n",
            join(&list_queue(game, queue, cur_idx), " → ").as_str(),
        );
        let mut elements = items1(markdown(line.as_str()));
        add_said(&mut elements, game, "🪦 **", speeches);
        add_turn(&mut elements, game, "🎤 **正在发表遗言**：", queue, cur_idx);
        elements
    };
    card(header("🪦 死亡遗言", "wathet"), elements)
}

/// The card on which the current speaker speaks.
pub fn build_speech_private_card(
    game: &WolfGame,
    viewer: &Player,
    title: &str,
    template: &str,
    submit_action: &str,
    skip_action: &str,
    placeholder: &str,
) -> (r: Json)
    ensures
        exists|id: Seq<char>|
            is_hex_id(id) && r.model() == #[trigger] game@.speech_input_card(
                viewer.deep_view(),
                title@,
                template@,
                submit_action@,
                skip_action@,
                placeholder@,
                id,
            ),
{
    let actor = viewer.open_id.as_str();
    let submit = submit_button("✅ 说完了", value(game, actor, submit_action), "primary_filled");
    let ghost id = choose|id: Seq<char>|
        is_hex_id(id) && submit.model() == #[trigger] submit_view(
            "✅ 说完了"@,
            game@.action_value(actor@, submit_action@),
            "primary_filled"@,
            id,
        );
    let name = cat4(
        "speech_form_",
        decimal(game.game_count as u64).as_str(),
        "_",
        decimal(game.day as u64).as_str(),
    );
    let r = card(
        header(title, template),
        items3(
            markdown("🎤 **轮到你发言**——直接说你的内容，或选择沉默。"),
            form(
                name.as_str(),
                items2(
                    input_field("speech", placeholder, "", "发言"),
                    actions(
                        items2(submit, plain(game, "⏭ 沉默", actor, skip_action, "default")),
                    ),
                ),
            ),
            note("仅你可见 · 提交即结束你的回合 · 200 字内"),
        ),
    );
    assert(r.model() == game@.speech_input_card(
        viewer.deep_view(),
        title@,
        template@,
        submit_action@,
        skip_action@,
        placeholder@,
        id,
    ));
    r
}

/// The card on which somebody speaks last words.
pub fn build_last_words_private_card(game: &WolfGame, viewer: &Player) -> (r: Json)
    ensures
        exists|id: Seq<char>|
            is_hex_id(id) && r.model() == #[trigger] game@.last_words_input_card(
                viewer.deep_view(),
                id,
            ),
{
    let actor = viewer.open_id.as_str();
    let submit = submit_button(
        "✅ 说完了",
        value(game, actor, "wolf_last_words_submit"),
        "primary_filled",
    );
    let ghost id = choose|id: Seq<char>|
        is_hex_id(id) && submit.model() == #[trigger] submit_view(
            "✅ 说完了"@,
            game@.action_value(actor@, "wolf_last_words_submit"@),
            "primary_filled"@,
            id,
        );
    let name = cat4(
        "last_words_form_",
        decimal(game.game_count as u64).as_str(),
        "_",
        decimal(game.day as u64).as_str(),
    );
    let r = card(
        header("🎤 你的遗言", "carmine"),
        items3(
            markdown("🪦 **你已死亡，请发表你的遗言**——爆身份、报查杀、留信息都行。"),
            form(
                name.as_str(),
                items2(
                    input_field("speech", "你的遗言…", "", "遗言"),
                    actions(
                        items2(
                            submit,
                            plain(game, "⏭ 沉默", actor, "wolf_last_words_skip", "default"),
                        ),
                    ),
                ),
            ),
            note("仅你可见 · 提交即结束遗言 · 300 字内"),
        ),
    );
    assert(r.model() == game@.last_words_input_card(viewer.deep_view(), id));
    r
}

impl GameView {
    /// The card on which the sheriff picks the direction of the speeches.
    pub open spec fn direction_card(self, viewer: PlayerView) -> JsonView {
        card_view(
            titled_view("🎖️ 警长决定方向"@, "你将末位归票"@, "yellow"@),
            seq![
                markdown_view(
                    "你当选了警长。请决定白天发言起手方向：\n- **警上 (顺时针)**：从你**右手第一位**起开始发言\n- **警下 (逆时针)**：从你**左手第一位**起开始发言\n\n你本人将**最后**发言（归票）。"@,
                ),
                row_view(
                    seq![
                        self.plain_button(
                            "🔁 警上"@,
                            viewer.open_id,
                            "wolf_sheriff_dir_up"@,
                            "primary_filled"@,
                        ),
                        self.plain_button(
                            "🔃 警下"@,
                            viewer.open_id,
                            "wolf_sheriff_dir_down"@,
                            "primary"@,
                        ),
                    ],
                ),
                note_view("仅你可见"@),
            ],
        )
    }
}

/// The card on which the sheriff picks the direction of the speeches.
pub fn build_sheriff_direction_card(game: &WolfGame, viewer: &Player) -> (r: Json)
    ensures
        r.model() == game@.direction_card(viewer.deep_view()),
{
    let id = viewer.open_id.as_str();
    card(
        header_with_subtitle("🎖️ 警长决定方向", "你将末位归票", "yellow"),
        items3(
            markdown(
                "你当选了警长。请决定白天发言起手方向：\n- **警上 (顺时针)**：从你**右手第一位**起开始发言\n- **警下 (逆时针)**：从你**左手第一位**起开始发言\n\n你本人将**最后**发言（归票）。",
            ),
            actions(
                items2(
                    plain(game, "🔁 警上", id, "wolf_sheriff_dir_up", "primary_filled"),
                    plain(game, "🔃 警下", id, "wolf_sheriff_dir_down", "primary"),
                ),
            ),
            note("仅你可见"),
        ),
    )
}

/// The card that announces the direction of the speeches.
pub open spec fn direction_announced(sheriff: PlayerView, clockwise: bool) -> JsonView {
    card_view(
        header_view("🎖️ 警长指示"@, "yellow"@),
        seq![
            markdown_view(
                "🎖️ "@ + sheriff.shown() + " 选择 **"@ + direction_text(clockwise)
                    + "** 起手 · 警长本人末位归票"@,
            ),
        ],
    )
}

/// The card that announces the direction of the speeches.
pub fn build_sheriff_direction_announce(_game: &WolfGame, sheriff: &Player, clockwise: bool) -> (r:
    Json)
    ensures
        r.model() == direction_announced(sheriff.deep_view(), clockwise),
{
    let line = cat5(
        "🎖️ ",
        display_name(sheriff).as_str(),
        " 选择 **",
        direction_label(clockwise),
        "** 起手 · 警长本人末位归票",
    );
    card(header("🎖️ 警长指示", "yellow"), items1(markdown(line.as_str())))
}

} // verus!
