//! The public cards that show how far a step is, without telling what anybody chose.

use vstd::prelude::*;
use crate::assoc::{find_key, has_key};
use crate::feishu::cards::{card, card_view, header_with_subtitle, markdown, markdown_view, note,
    note_view, titled_view};
use crate::json::{items2, Json, JsonView};
use crate::seqs::{count_where, lemma_map_step, lemma_take_ends};
use crate::text::{cat2, cat3, cat4, cat5, decimal, decimal_text, join, joined};
use crate::werewolf::cards::{display_name, lemma_indices_ok, night_label};
use crate::werewolf::day_cards::{day_label, mark_turn, turn_mark};
use crate::werewolf::state::{GameView, WolfGame};
use crate::werewolf::table::seats_ok;
use crate::werewolf::types::{Player, PlayerView, Role, Stage};

verus! {

/// The place of a stage among the steps of a night.
pub open spec fn night_step(stage: Stage) -> nat {
    match stage {
        Stage::GuardPick => 0,
        Stage::WolvesPick => 1,
        Stage::SeerPick => 2,
        Stage::WitchAct => 3,
        _ => 4,
    }
}

/// The name of a step of a night.
pub open spec fn step_text(i: int) -> Seq<char> {
    if i == 0 {
        "🛡️ 守卫守护"@
    } else if i == 1 {
        "🐺 狼人行动"@
    } else if i == 2 {
        "🔮 预言家查验"@
    } else if i == 3 {
        "🧪 女巫用药"@
    } else {
        "🌅 天亮"@
    }
}

impl GameView {
    /// A step of the night with its mark.
    pub open spec fn step_line(self) -> spec_fn(int) -> Seq<char> {
        |i: int| turn_mark(i, night_step(self.stage) as int, "⏳"@) + " "@ + step_text(i)
    }

    /// The first step of a night: a board without a guard starts with the wolves.
    pub open spec fn first_step(self) -> int {
        if self.role_seat(Role::Guard) is Some {
            0
        } else {
            1
        }
    }

    /// The steps of the night.
    pub open spec fn step_lines(self) -> Seq<Seq<char>> {
        let first = self.first_step();
        Seq::new((5 - first) as nat, |i: int| (self.step_line())(first + i))
    }

    /// The card that shows how far the night is.
    pub open spec fn night_progress_card(self) -> JsonView {
        card_view(
            titled_view("🌒 夜间进度"@, self.night_title(), "purple"@),
            seq![
                markdown_view(joined(self.step_lines(), "\n"@)),
                note_view("只显示环节，不公开行动者与目标"@),
            ],
        )
    }

    /// The card that shows whom the game waits for.
    pub open spec fn single_action_card(
        self,
        title: Seq<char>,
        actor: PlayerView,
        action: Seq<char>,
        template: Seq<char>,
    ) -> JsonView {
        card_view(
            titled_view(title, self.day_title(), template),
            seq![
                markdown_view("⏳ 等待 "@ + actor.shown() + " "@ + action),
                note_view("完成后自动进入下一环节"@),
            ],
        )
    }

    /// A seat with the mark of whether its player is done.
    pub open spec fn done_line(self, entry: (usize, bool)) -> Seq<char> {
        (if entry.1 {
            "✅ "@
        } else {
            "⏳ "@
        }) + self.players[entry.0 as int].name
    }

    /// The card that shows who is done and who is not.
    pub open spec fn done_card(
        self,
        title: Seq<char>,
        template: Seq<char>,
        seats: Seq<usize>,
        done: spec_fn(usize) -> bool,
    ) -> JsonView {
        let lines = seats.map_values(|i: usize| self.done_line((i, done(i))));
        card_view(
            titled_view(title, self.day_title(), template),
            seq![
                markdown_view(
                    "已完成 **"@ + decimal_text(
                        count_where(seats.len(), |k: int| done(seats[k])),
                    ) + " / "@ + decimal_text(seats.len()) + "**\n"@ + joined(lines, "\n"@),
                ),
                note_view("只显示进度，不公开选择"@),
            ],
        )
    }

    /// Who has said whether to run.
    pub open spec fn has_nominated(self) -> spec_fn(usize) -> bool {
        |i: usize| has_key(self.sheriff_nominations, i)
    }

    /// Who has voted in the election.
    pub open spec fn has_elected(self) -> spec_fn(usize) -> bool {
        |i: usize| has_key(self.sheriff_votes, i)
    }

    /// Who has voted by day.
    pub open spec fn has_voted(self) -> spec_fn(usize) -> bool {
        |i: usize| has_key(self.day_votes, i)
    }
}

fn step_label(i: usize) -> (r: &'static str)
    ensures
        r@ == step_text(i as int),
{
    if i == 0 {
        "🛡️ 守卫守护"
    } else if i == 1 {
        "🐺 狼人行动"
    } else if i == 2 {
        "🔮 预言家查验"
    } else if i == 3 {
        "🧪 女巫用药"
    } else {
        "🌅 天亮"
    }
}

/// The card that shows how far the night is.
pub fn build_night_progress_card(game: &WolfGame) -> (r: Json)
    ensures
        r.model() == game@.night_progress_card(),
{
    let now: usize = match game.stage {
        Stage::GuardPick => 0,
        Stage::WolvesPick => 1,
        Stage::SeerPick => 2,
        Stage::WitchAct => 3,
        _ => 4,
    };
    let first: usize = if game.role_idx(Role::Guard).is_some() {
        0
    } else {
        1
    };
    let ghost f = |i: int| (game@.step_line())(first + i);
    let mut lines: Vec<String> = Vec::new();
    let mut i: usize = first;
    while i < 5
        invariant
            first <= i <= 5,
            first <= 1,
            now == night_step(game.stage),
            f == (|i: int| (game@.step_line())(first + i)),
            lines.deep_view() == Seq::new((i - first) as nat, f),
        decreases 5 - i,
    {
        let ghost before = lines.deep_view();
        let line = cat3(mark_turn(i, now, "⏳"), " ", step_label(i));
        lines.push(line);
        assert(line@ == f(i - first));
        assert(lines.deep_view() =~= before.push(line@));
        assert(before.push(line@) =~= Seq::new((i + 1 - first) as nat, f));
        i = i + 1;
    }
    assert(lines.deep_view() =~= game@.step_lines());
    card(
        header_with_subtitle("🌒 夜间进度", night_label(game).as_str(), "purple"),
        items2(
            markdown(join(&lines, "\n").as_str()),
            note("只显示环节，不公开行动者与目标"),
        ),
    )
}

/// The card that shows whom the game waits for.
pub fn build_single_action_progress_card(
    game: &WolfGame,
    title: &str,
    actor: &Player,
    action: &str,
    template: &str,
) -> (r: Json)
    ensures
        r.model() == game@.single_action_card(title@, actor.deep_view(), action@, template@),
{
    let line = cat4("⏳ 等待 ", display_name(actor).as_str(), " ", action);
    card(
        header_with_subtitle(title, day_label(game).as_str(), template),
        items2(markdown(line.as_str()), note("完成后自动进入下一环节")),
    )
}

fn done_card_of<V>(
    game: &WolfGame,
    title: &str,
    template: &str,
    seats: &Vec<usize>,
    entries: &Vec<(usize, V)>,
) -> (r: Json)
    requires
        seats_ok(seats@, game@.players.len()),
    ensures
        r.model() == game@.done_card(
            title@,
            template@,
            seats@,
            |i: usize| has_key(entries@, i),
        ),
{
    let ghost done = |i: usize| has_key(entries@, i);
    let ghost f = |i: usize| game@.done_line((i, done(i)));
    let ghost keep = |k: int| done(seats@[k]);
    let mut lines: Vec<String> = Vec::new();
    let mut count: usize = 0;
    let mut i: usize = 0;
    assert(lines.deep_view() =~= seats@.take(0).map_values(f));
    while i < seats.len()
        invariant
            i <= seats.len(),
            count <= i,
            seats_ok(seats@, game@.players.len()),
            done == (|i: usize| has_key(entries@, i)),
            f == (|i: usize| game@.done_line((i, done(i)))),
            keep == (|k: int| done(seats@[k])),
            count == count_where(i as nat, keep),
            lines.deep_view() == seats@.take(i as int).map_values(f),
        decreases seats.len() - i,
    {
        let ghost before = lines.deep_view();
        proof {
            lemma_map_step(seats@, f, i as int);
            assert(seats@[i as int] < game@.players.len());
        }
        let seat: usize = seats[i];
        let is_done = find_key(entries, seat) < entries.len();
        assert(is_done == done(seat));
        assert(keep(i as int) == is_done);
        let line = cat2(
            if is_done {
                "✅ "
            } else {
                "⏳ "
            },
            game.players[seat].name.as_str(),
        );
        if is_done {
            count = count + 1;
        }
        lines.push(line);
        assert(line@ == f(seat));
        assert(lines.deep_view() =~= before.push(line@));
        i = i + 1;
    }
    proof {
        lemma_take_ends(seats@);
    }
    let head = cat5(
        "已完成 **",
        decimal(count as u64).as_str(),
        " / ",
        decimal(seats.len() as u64).as_str(),
        "**\n",
    );
    let body = cat2(head.as_str(), join(&lines, "\n").as_str());
    card(
        header_with_subtitle(title, day_label(game).as_str(), template),
        items2(markdown(body.as_str()), note("只显示进度，不公开选择")),
    )
}

/// The card that shows who has said whether to run for sheriff.
pub fn build_sheriff_nominate_progress_card(game: &WolfGame) -> (r: Json)
    ensures
        r.model() == game@.done_card(
            "🎖️ 上警进度"@,
            "yellow"@,
            game@.eligible_seats(),
            game@.has_nominated(),
        ),
{
    let n: usize = game.players.len();
    let seats = game.sheriff_eligible_indices();
    proof {
        lemma_indices_ok(n as nat, game@.eligible());
    }
    let r = done_card_of(game, "🎖️ 上警进度", "yellow", &seats, &game.sheriff_nominations);
    assert(game@.has_nominated() =~= (|i: usize| has_key(game.sheriff_nominations@, i)));
    r
}

/// The card that shows who has voted in the election.
pub fn build_sheriff_vote_progress_card(game: &WolfGame) -> (r: Json)
    ensures
        r.model() == game@.done_card(
            "🎖️ 警长投票进度"@,
            "yellow"@,
            game@.elector_seats(),
            game@.has_elected(),
        ),
{
    let n: usize = game.players.len();
    let seats = game.sheriff_voters();
    proof {
        lemma_indices_ok(n as nat, game@.elects());
    }
    let r = done_card_of(game, "🎖️ 警长投票进度", "yellow", &seats, &game.sheriff_votes.votes);
    assert(game@.has_elected() =~= (|i: usize| has_key(game.sheriff_votes.votes@, i)));
    r
}

/// The card that shows who has voted by day.
pub fn build_day_vote_progress_card(game: &WolfGame) -> (r: Json)
    ensures
        r.model() == game@.done_card(
            "🗳️ 投票进度"@,
            "blue"@,
            game@.voter_seats(),
            game@.has_voted(),
        ),
{
    let n: usize = game.players.len();
    let seats = game.day_voters();
    proof {
        lemma_indices_ok(n as nat, game@.votes());
    }
    let r = done_card_of(game, "🗳️ 投票进度", "blue", &seats, &game.day_votes.votes);
    assert(game@.has_voted() =~= (|i: usize| has_key(game.day_votes.votes@, i)));
    r
}

} // verus!
