//! The cards of the vote, the shot, the badge and the end of a game.

use vstd::prelude::*;
use crate::feishu::cards::{actions, card, card_view, header, header_view, header_with_subtitle, hr,
    hr_view, markdown, markdown_view, note, note_view, row_view, titled_view};
use crate::json::{add_item, add_items, items1, items3, models, Json, JsonView};
use crate::seqs::{lemma_map_step, lemma_take_ends};
use crate::text::{cat2, cat3, cat4, cat5, cat6, decimal, decimal_text, join, joined};
use crate::werewolf::cards::{display_name, grid, living_others};
use crate::werewolf::day_cards::{day_label, plain};
use crate::werewolf::recap::render_recap;
use crate::werewolf::state::{GameView, WolfGame};
use crate::werewolf::table::{seat_ok, votes_ok};
use crate::werewolf::types::{Player, PlayerView, Role, Winner};

verus! {

impl GameView {
    /// A card with a line of text, a button for everybody else alive, one more button
    /// and a note.
    pub open spec fn choice_elements(
        self,
        viewer: PlayerView,
        intro: Seq<char>,
        action: Seq<char>,
        style: Seq<char>,
        other: JsonView,
        last: Seq<char>,
    ) -> Seq<JsonView> {
        (seq![markdown_view(intro)] + self.target_grid(
            viewer.open_id,
            action,
            self.others_alive(viewer.open_id),
            style,
        )).push(row_view(seq![other])).push(note_view(last))
    }

    /// The card on which somebody votes.
    pub open spec fn vote_card(self, viewer: PlayerView) -> JsonView {
        card_view(
            titled_view("🗳️ 投票"@, self.day_title(), "blue"@),
            self.choice_elements(
                viewer,
                "🗳️ **"@ + self.day_title() + "** · 投出你怀疑的狼人。"@,
                "wolf_vote"@,
                "primary"@,
                self.plain_button("弃权"@, viewer.open_id, "wolf_vote_abstain"@, "default"@),
                "仅你可见 · 投错也救不了"@,
            ),
        )
    }

    /// The title of the card of who may shoot.
    pub open spec fn shooter_title(role: Option<Role>) -> Seq<char> {
        if role == Some(Role::WolfKing) {
            "👑 狼王开枪"@
        } else {
            "🏹 猎人开枪"@
        }
    }

    /// The text of the card of who may shoot.
    pub open spec fn shooter_intro(role: Option<Role>) -> Seq<char> {
        if role == Some(Role::WolfKing) {
            "👑 **狼王之死** · 选择带走一名玩家。"@
        } else {
            "🏹 **猎人之死** · 你被带走了，可以拉一个人陪葬。"@
        }
    }

    /// The card of who may shoot.
    pub open spec fn shooter_card(self, viewer: PlayerView) -> JsonView {
        card_view(
            titled_view(Self::shooter_title(viewer.role), "选择带走的人"@, "carmine"@),
            self.choice_elements(
                viewer,
                Self::shooter_intro(viewer.role),
                "wolf_hunter_shoot"@,
                "danger"@,
                self.plain_button("不开枪"@, viewer.open_id, "wolf_hunter_skip"@, "default"@),
                "仅你可见"@,
            ),
        )
    }

    /// The card of a sheriff who has died.
    pub open spec fn badge_card(self, viewer: PlayerView) -> JsonView {
        card_view(
            header_view("🎖️ 警徽流转"@, "yellow"@),
            self.choice_elements(
                viewer,
                "🎖️ **警长之死** · 你需要决定警徽去向。"@,
                "wolf_badge_pass"@,
                "primary"@,
                self.plain_button("✂️ 撕毁警徽"@, viewer.open_id, "wolf_badge_destroy"@, "danger"@),
                "仅你可见"@,
            ),
        )
    }

    /// The card on which a wolf may blow up.
    pub open spec fn explode_card(self, viewer: PlayerView) -> JsonView {
        card_view(
            titled_view("💥 自爆"@, self.day_title(), "carmine"@),
            seq![
                markdown_view("狼人白天可以自爆：你立即出局，当天结束，直接入夜。"@),
                row_view(
                    seq![
                        self.plain_button("💥 自爆"@, viewer.open_id, "wolf_self_explode"@, "danger"@),
                    ],
                ),
                note_view("仅你可见 · 不想自爆就忽略这张卡"@),
            ],
        )
    }

    /// A vote, in words.
    pub open spec fn tally_line(self) -> spec_fn((usize, Option<usize>)) -> Seq<char> {
        |v: (usize, Option<usize>)|
            "• "@ + self.players[v.0 as int].shown() + " → "@ + (match v.1 {
                Some(t) => self.players[t as int].shown(),
                None => "弃权"@,
            })
    }

    /// The outcome of a vote, in words.
    pub open spec fn outcome_text(self) -> Seq<char> {
        match self.last_day_lynched {
            Some(i) => "🪦 "@ + self.players[i as int].shown() + " 被投票放逐。"@,
            None => "🤝 平票或全员弃权，无人放逐。"@,
        }
    }

    /// The card with everybody's vote.
    pub open spec fn tally_card(self) -> JsonView {
        card_view(
            header_view("🗳️ "@ + self.day_title() + " · 投票结果"@, "blue"@),
            seq![markdown_view(self.outcome_text())] + (if self.day_votes.len() == 0 {
                Seq::empty()
            } else {
                seq![
                    hr_view(),
                    markdown_view(joined(self.day_votes.map_values(self.tally_line()), "\n"@)),
                ]
            }),
        )
    }
}

fn choice_items(
    game: &WolfGame,
    viewer: &Player,
    intro: &str,
    action: &str,
    style: &str,
    other: Json,
    last: &str,
) -> (r: Vec<Json>)
    ensures
        models(r@) == game@.choice_elements(
            viewer.deep_view(),
            intro@,
            action@,
            style@,
            other.model(),
            last@,
        ),
{
    let id = viewer.open_id.as_str();
    let targets = living_others(game, id);
    let mut elements = items1(markdown(intro));
    add_items(&mut elements, grid(game, id, action, &targets, style));
    add_item(&mut elements, actions(items1(other)));
    add_item(&mut elements, note(last));
    elements
}

/// The card on which somebody votes.
pub fn build_vote_card(game: &WolfGame, viewer: &Player) -> (r: Json)
    ensures
        r.model() == game@.vote_card(viewer.deep_view()),
{
    let intro = cat3("🗳️ **", day_label(game).as_str(), "** · 投出你怀疑的狼人。");
    let abstain = plain(
        game,
        "弃权",
        viewer.open_id.as_str(),
        "wolf_vote_abstain",
        "default",
    );
    card(
        header_with_subtitle("🗳️ 投票", day_label(game).as_str(), "blue"),
        choice_items(
            game,
            viewer,
            intro.as_str(),
            "wolf_vote",
            "primary",
            abstain,
            "仅你可见 · 投错也救不了",
        ),
    )
}

/// The card of who may shoot.
pub fn build_hunter_card(game: &WolfGame, viewer: &Player) -> (r: Json)
    ensures
        r.model() == game@.shooter_card(viewer.deep_view()),
{
    let king = viewer.role == Some(Role::WolfKing);
    let title = if king {
        "👑 狼王开枪"
    } else {
        "🏹 猎人开枪"
    };
    let intro = if king {
        "👑 **狼王之死** · 选择带走一名玩家。"
    } else {
        "🏹 **猎人之死** · 你被带走了，可以拉一个人陪葬。"
    };
    let skip = plain(
        game,
        "不开枪",
        viewer.open_id.as_str(),
        "wolf_hunter_skip",
        "default",
    );
    card(
        header_with_subtitle(title, "选择带走的人", "carmine"),
        choice_items(game, viewer, intro, "wolf_hunter_shoot", "danger", skip, "仅你可见"),
    )
}

/// The card of a sheriff who has died.
pub fn build_badge_pass_card(game: &WolfGame, viewer: &Player) -> (r: Json)
    ensures
        r.model() == game@.badge_card(viewer.deep_view()),
{
    let tear = plain(
        game,
        "✂️ 撕毁警徽",
        viewer.open_id.as_str(),
        "wolf_badge_destroy",
        "danger",
    );
    card(
        header("🎖️ 警徽流转", "yellow"),
        choice_items(
            game,
            viewer,
            "🎖️ **警长之死** · 你需要决定警徽去向。",
            "wolf_badge_pass",
            "primary",
            tear,
            "仅你可见",
        ),
    )
}

/// The card on which a wolf may blow up.
pub fn build_self_explode_card(game: &WolfGame, viewer: &Player) -> (r: Json)
    ensures
        r.model() == game@.explode_card(viewer.deep_view()),
{
    let id = viewer.open_id.as_str();
    card(
        header_with_subtitle("💥 自爆", day_label(game).as_str(), "carmine"),
        items3(
            markdown("狼人白天可以自爆：你立即出局，当天结束，直接入夜。"),
            actions(items1(plain(game, "💥 自爆", id, "wolf_self_explode", "danger"))),
            note("仅你可见 · 不想自爆就忽略这张卡"),
        ),
    )
}

fn list_votes(game: &WolfGame) -> (r: Vec<String>)
    requires
        votes_ok(game@.day_votes, game@.players.len()),
    ensures
        r.deep_view() == game@.day_votes.map_values(game@.tally_line()),
{
    let ghost vs = game@.day_votes;
    let ghost f = game@.tally_line();
    let mut r: Vec<String> = Vec::new();
    let mut i: usize = 0;
    assert(r.deep_view() =~= vs.take(0).map_values(f));
    while i < game.day_votes.votes.len()
        invariant
            i <= game.day_votes.votes.len(),
            vs == game@.day_votes,
            vs == game.day_votes.votes@,
            votes_ok(vs, game@.players.len()),
            f == game@.tally_line(),
            r.deep_view() == vs.take(i as int).map_values(f),
        decreases game.day_votes.votes.len() - i,
    {
        let ghost before = r.deep_view();
        proof {
            lemma_map_step(vs, f, i as int);
            assert(vs[i as int].0 < game@.players.len());
        }
        let voter: usize = game.day_votes.votes[i].0;
        let target = match game.day_votes.votes[i].1 {
            Some(t) => display_name(&game.players[t]),
            None => "弃权".to_owned(),
        };
        let line = cat4(
            "• ",
            display_name(&game.players[voter]).as_str(),
            " → ",
            target.as_str(),
        );
        r.push(line);
        assert(r.deep_view() =~= before.push(line@));
        i = i + 1;
    }
    proof {
        lemma_take_ends(vs);
    }
    r
}

/// The card with everybody's vote.
pub fn build_vote_tally_card(game: &WolfGame) -> (r: Json)
    requires
        votes_ok(game@.day_votes, game@.players.len()),
        seat_ok(game.last_day_lynched, game@.players.len()),
    ensures
        r.model() == game@.tally_card(),
{
    let outcome = match game.last_day_lynched {
        Some(i) => cat3("🪦 ", display_name(&game.players[i]).as_str(), " 被投票放逐。"),
        None => "🤝 平票或全员弃权，无人放逐。".to_owned(),
    };
    let mut elements = items1(markdown(outcome.as_str()));
    let ghost head = models(elements@);
    let lines = list_votes(game);
    if lines.len() > 0 {
        let votes = join(&lines, "\n");
        add_item(&mut elements, hr());
        add_item(&mut elements, markdown(votes.as_str()));
        assert(models(elements@) =~= head + seq![hr_view(), markdown_view(votes@)]);
    } else {
        assert(models(elements@) =~= head + Seq::<JsonView>::empty());
    }
    let title = cat3("🗳️ ", day_label(game).as_str(), " · 投票结果");
    card(header(title.as_str(), "blue"), elements)
}

/// The card that announces a shot. It does not tell a hunter from a wolf king.
pub open spec fn shot_announced(shooter: PlayerView, target: Option<PlayerView>) -> JsonView {
    card_view(
        header_view("🏹 开枪"@, "carmine"@),
        seq![
            markdown_view(
                match target {
                    Some(t) => "🏹 "@ + shooter.shown() + " 临死前开枪，带走了 "@ + t.shown(),
                    None => "🏹 "@ + shooter.shown() + " 选择不开枪"@,
                },
            ),
        ],
    )
}

/// The view of a player, if any.
pub open spec fn seen(p: Option<&Player>) -> Option<PlayerView> {
    match p {
        Some(q) => Some(q.deep_view()),
        None => None,
    }
}

/// The card that announces a shot.
pub fn build_hunter_announce_card(shooter: &Player, target: Option<&Player>) -> (r: Json)
    ensures
        r.model() == shot_announced(shooter.deep_view(), seen(target)),
{
    let who = display_name(shooter);
    let body = match target {
        Some(t) => cat4("🏹 ", who.as_str(), " 临死前开枪，带走了 ", display_name(t).as_str()),
        None => cat3("🏹 ", who.as_str(), " 选择不开枪"),
    };
    card(header("🏹 开枪", "carmine"), items1(markdown(body.as_str())))
}

/// The card that announces what became of the badge.
pub open spec fn badge_announced(sheriff: PlayerView, holder: Option<PlayerView>) -> JsonView {
    card_view(
        header_view("🎖️ 警徽流转"@, "yellow"@),
        seq![
            markdown_view(
                match holder {
                    Some(t) => "🎖️ "@ + sheriff.shown() + " 临死前移交警徽给 "@ + t.shown(),
                    None => "✂️ "@ + sheriff.shown() + " 撕毁了警徽，本局不再有警长"@,
                },
            ),
        ],
    )
}

/// The card that announces what became of the badge.
pub fn build_badge_announce_card(sheriff: &Player, new_holder: Option<&Player>) -> (r: Json)
    ensures
        r.model() == badge_announced(sheriff.deep_view(), seen(new_holder)),
{
    let who = display_name(sheriff);
    let body = match new_holder {
        Some(t) => cat4("🎖️ ", who.as_str(), " 临死前移交警徽给 ", display_name(t).as_str()),
        None => cat3("✂️ ", who.as_str(), " 撕毁了警徽，本局不再有警长"),
    };
    card(header("🎖️ 警徽流转", "yellow"), items1(markdown(body.as_str())))
}

/// The card that announces that a wolf has blown up.
pub open spec fn explosion_announced(wolf: PlayerView) -> JsonView {
    card_view(
        header_view("💥 狼人自爆"@, "carmine"@),
        seq![markdown_view("💥 "@ + wolf.shown() + " 自爆，当天结束。"@)],
    )
}

/// The card that announces that a wolf has blown up.
pub fn build_explosion_announce_card(wolf: &Player) -> (r: Json)
    ensures
        r.model() == explosion_announced(wolf.deep_view()),
{
    let body = cat3("💥 ", display_name(wolf).as_str(), " 自爆，当天结束。");
    card(header("💥 狼人自爆", "carmine"), items1(markdown(body.as_str())))
}

// ---- the end ----

/// A player with role and fate.
pub open spec fn fate_line() -> spec_fn(PlayerView) -> Seq<char> {
    |p: PlayerView|
        "• "@ + p.shown() + " — **"@ + (match p.role {
            Some(r) => r.emoji_text() + " "@ + r.label_text(),
            None => "无角色"@,
        }) + "** · "@ + (if p.alive {
            "✓ 存活"@
        } else {
            "☠ 出局"@
        })
}

/// A block of text.
pub open spec fn block() -> spec_fn(Seq<char>) -> JsonView {
    |s: Seq<char>| markdown_view(s)
}

impl GameView {
    /// What happened, block by block.
    pub open spec fn recap_part(self) -> Seq<JsonView> {
        let blocks = self.recap_blocks(self.recap_log);
        if blocks.len() == 0 {
            Seq::empty()
        } else {
            seq![hr_view(), markdown_view("**🎬 全局复盘**"@)] + blocks.map_values(block())
        }
    }

    /// The card at the end of a game: who won, who was who, what happened.
    pub open spec fn summary_card(self, winner: Winner) -> JsonView {
        card_view(
            titled_view(
                match winner {
                    Winner::Good => "🎉 好人阵营胜利"@,
                    Winner::Wolves => "🐺 狼人阵营胜利"@,
                },
                "第 "@ + decimal_text(self.game_count as nat) + " 局 · 共 "@ + decimal_text(
                    self.day as nat,
                ) + " 天"@,
                match winner {
                    Winner::Good => "turquoise"@,
                    Winner::Wolves => "carmine"@,
                },
            ),
            (seq![
                markdown_view(
                    "**真身揭晓：**\n"@ + joined(self.players.map_values(fate_line()), "\n"@),
                ),
            ] + self.recap_part()).push(note_view("点大厅卡的 [开局] 开下一局"@)),
        )
    }
}

fn list_fates(game: &WolfGame) -> (r: Vec<String>)
    ensures
        r.deep_view() == game@.players.map_values(fate_line()),
{
    let ghost ps = game@.players;
    let mut r: Vec<String> = Vec::new();
    let mut i: usize = 0;
    assert(r.deep_view() =~= ps.take(0).map_values(fate_line()));
    while i < game.players.len()
        invariant
            i <= game.players.len(),
            ps == game@.players,
            ps.len() == game.players.len(),
            r.deep_view() == ps.take(i as int).map_values(fate_line()),
        decreases game.players.len() - i,
    {
        let ghost before = r.deep_view();
        proof {
            lemma_map_step(ps, fate_line(), i as int);
        }
        let p = &game.players[i];
        let role = match p.role {
            Some(x) => cat3(x.emoji(), " ", x.label()),
            None => "无角色".to_owned(),
        };
        let fate = if p.alive {
            "✓ 存活"
        } else {
            "☠ 出局"
        };
        let line = cat6("• ", display_name(p).as_str(), " — **", role.as_str(), "** · ", fate);
        r.push(line);
        assert(r.deep_view() =~= before.push(line@));
        i = i + 1;
    }
    proof {
        lemma_take_ends(ps);
    }
    r
}

fn add_recap(elements: &mut Vec<Json>, game: &WolfGame)
    ensures
        models(final(elements)@) == models(old(elements)@) + game@.recap_part(),
{
    let ghost head = models(elements@);
    let blocks = render_recap(game);
    let ghost bs = blocks.deep_view();
    if blocks.len() > 0 {
        add_item(elements, hr());
        add_item(elements, markdown("**🎬 全局复盘**"));
        let ghost top = seq![hr_view(), markdown_view("**🎬 全局复盘**"@)];
        let mut i: usize = 0;
        assert(models(elements@) =~= head + (top + bs.take(0).map_values(block())));
        while i < blocks.len()
            invariant
                i <= blocks.len(),
                bs == blocks.deep_view(),
                bs.len() == blocks.len(),
                models(elements@) == head + (top + bs.take(i as int).map_values(block())),
            decreases blocks.len() - i,
        {
            proof {
                lemma_map_step(bs, block(), i as int);
            }
            add_item(elements, markdown(blocks[i].as_str()));
            i = i + 1;
            assert(models(elements@) =~= head + (top + bs.take(i as int).map_values(block())));
        }
        proof {
            lemma_take_ends(bs);
        }
    } else {
        assert(models(elements@) =~= head + Seq::<JsonView>::empty());
    }
}

/// The card at the end of a game.
pub fn build_summary_card(game: &WolfGame, winner: Winner) -> (r: Json)
    ensures
        r.model() == game@.summary_card(winner),
{
    let title = match winner {
        Winner::Good => "🎉 好人阵营胜利",
        Winner::Wolves => "🐺 狼人阵营胜利",
    };
    let template = match winner {
        Winner::Good => "turquoise",
        Winner::Wolves => "carmine",
    };
    let fates = cat2("**真身揭晓：**\n", join(&list_fates(game), "\n").as_str());
    let mut elements = items1(markdown(fates.as_str()));
    add_recap(&mut elements, game);
    add_item(&mut elements, note("点大厅卡的 [开局] 开下一局"));
    let sub = cat5(
        "第 ",
        decimal(game.game_count as u64).as_str(),
        " 局 · 共 ",
        decimal(game.day as u64).as_str(),
        " 天",
    );
    card(header_with_subtitle(title, sub.as_str(), template), elements)
}

} // verus!
