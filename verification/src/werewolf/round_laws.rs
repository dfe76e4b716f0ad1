//! Whom the table turns to, how its steps close, and how everybody sees that it goes on.

use vstd::prelude::*;
use crate::assoc::has_key;
use crate::feishu::cards::{card_view, markdown_view, titled_view};
use crate::feishu::reading::{holds_part, lemma_holds_self, lemma_holds_side, lemma_joined_holds,
    lemma_two_heads, says, title_of};
use crate::seqs::{count_where, lemma_indices_where};
use crate::text::{decimal_text, joined};
use crate::werewolf::card_laws::{known_as, lemma_card_says, lemma_shown_then};
use crate::werewolf::day_laws::{law_banished_have_their_say, law_most_voted_is_banished, halves};
use crate::werewolf::election_laws::is_named;
use crate::werewolf::night_laws::{lemma_only_holder, wolf_role};
use crate::werewolf::plan::{kept_seats, lemma_kept_seats, Next};
use crate::werewolf::state::GameView;
use crate::werewolf::types::{PlayerView, Role, Stage};

verus! {

/// Whether the table turns to the player of one seat alone: a human is handed a card and waited
/// for, an AI is asked, after which the table looks again.
pub open spec fn turns_to(g: GameView, s: usize) -> bool {
    let plan = g.plan();
    if g.players[s as int].is_ai {
        plan.ais == seq![s] && plan.humans.len() == 0 && plan.next == Next::Again
    } else {
        plan.humans == seq![s] && plan.ais.len() == 0 && plan.next == Next::Wait
    }
}

/// At night the table turns to the guard, the seer and the witch at their steps.
pub proof fn law_night_turns(g: GameView, s: usize, role: Role)
    requires
        s < g.players.len(),
        g.players[s as int].role == Some(role),
        g.players[s as int].alive,
        forall|i: int| 0 <= i < s ==> (#[trigger] g.players[i]).role != Some(role),
    ensures
        g.stage == Stage::GuardPick && role == Role::Guard ==> turns_to(g, s),
        g.stage == Stage::SeerPick && role == Role::Seer ==> turns_to(g, s),
        g.stage == Stage::WitchAct && role == Role::Witch ==> turns_to(g, s),
{
    lemma_only_holder(g, role, s);
}

/// Whose turn it is to speak, to shoot, to pass the badge or to pick the direction, the table
/// turns to.
pub proof fn law_day_turns(g: GameView, s: usize)
    ensures
        g.stage == Stage::SheriffSpeech && g.sheriff_speech_idx < g.sheriff_speech_order.len()
            && g.sheriff_speech_order[g.sheriff_speech_idx as int] == s ==> turns_to(g, s),
        g.stage == Stage::DaySpeech && g.day_speech_idx < g.day_speech_order.len()
            && g.day_speech_order[g.day_speech_idx as int] == s ==> turns_to(g, s),
        g.stage == Stage::LastWords && g.last_words_idx < g.last_words_queue.len()
            && g.last_words_queue[g.last_words_idx as int] == s ==> turns_to(g, s),
        g.stage == Stage::HunterShoot && g.pending_hunter == Some(s) ==> turns_to(g, s),
        g.stage == Stage::BadgePass && g.pending_badge == Some(s) ==> turns_to(g, s),
        g.stage == Stage::SheriffPickDirection && g.sheriff_idx == Some(s) ==> turns_to(g, s),
{
}

/// When everybody has spoken, the step closes.
pub proof fn law_speeches_close(g: GameView)
    ensures
        g.stage == Stage::SheriffSpeech && g.sheriff_speech_idx >= g.sheriff_speech_order.len()
            ==> g.plan().next == Next::Settle,
        g.stage == Stage::DaySpeech && g.day_speech_idx >= g.day_speech_order.len()
            ==> g.plan().next == Next::Settle,
        g.stage == Stage::LastWords && g.last_words_idx >= g.last_words_queue.len()
            ==> g.plan().next == Next::Settle,
        g.stage == Stage::DayReveal ==> g.plan().next == Next::Settle,
        g.stage == Stage::Lobby || g.stage == Stage::Ended ==> g.plan().next == Next::Wait
            && g.plan().humans.len() == 0 && g.plan().ais.len() == 0,
{
}

proof fn lemma_round<V>(
    g: GameView,
    seats: Seq<usize>,
    answers: Seq<(usize, V)>,
    cards: Seq<(Seq<char>, Seq<char>)>,
    s: usize,
)
    ensures
        ({
            let plan = g.round(seats, answers, cards);
            let open = seats.contains(s) && !has_key(answers, s);
            &&& plan.ais.contains(s) <==> open && g.players[s as int].is_ai
            &&& plan.humans.contains(s) <==> open && !g.players[s as int].is_ai && !has_key(
                cards,
                g.players[s as int].open_id,
            )
            &&& open ==> plan.next != Next::Settle
            &&& (forall|x: usize| #[trigger] seats.contains(x) ==> has_key(answers, x))
                ==> plan.next == Next::Settle
        }),
{
    let keep = |i: usize| !has_key(answers, i);
    let open = kept_seats(seats, keep);
    let ai = |i: usize| g.players[i as int].is_ai;
    let human = |i: usize|
        !g.players[i as int].is_ai && !has_key(cards, g.players[i as int].open_id);
    lemma_kept_seats(seats, keep);
    lemma_kept_seats(open, ai);
    lemma_kept_seats(open, human);
    if seats.contains(s) && !has_key(answers, s) {
        assert(open.contains(s));
        assert(open.len() > 0);
    }
    if forall|x: usize| #[trigger] seats.contains(x) ==> has_key(answers, x) {
        if open.len() > 0 {
            assert(open.contains(open[0]));
        }
    }
}

/// In a vote of the day, every voter who has not voted is asked or handed a card, and the vote
/// closes when all have voted.
pub proof fn law_day_vote_round(g: GameView, s: usize)
    requires
        g.players.len() <= usize::MAX,
        g.stage == Stage::DayVote,
        s < g.players.len(),
    ensures
        ({
            let p = g.players[s as int];
            let votes = p.alive && !(g.day_vote_round > 0 && g.day_pk_candidates.contains(s));
            let open = votes && !has_key(g.day_votes, s);
            &&& g.plan().ais.contains(s) <==> open && p.is_ai
            &&& g.plan().humans.contains(s) <==> open && !p.is_ai && !has_key(
                g.day_vote_msgs,
                p.open_id,
            )
            &&& open ==> g.plan().next != Next::Settle
        }),
        (forall|x: int|
            0 <= x < g.players.len() && (#[trigger] g.players[x]).alive ==> has_key(
                g.day_votes,
                x as usize,
            )) ==> g.plan().next == Next::Settle,
{
    lemma_indices_where(g.players.len(), g.votes());
    assert((g.votes())(s as int) == (g.players[s as int].alive && !(g.day_vote_round > 0
        && g.day_pk_candidates.contains(s))));
    lemma_round(g, g.voter_seats(), g.day_votes, g.day_vote_msgs, s);
    if forall|x: int|
        0 <= x < g.players.len() && (#[trigger] g.players[x]).alive ==> has_key(
            g.day_votes,
            x as usize,
        ) {
        assert forall|x: usize| #[trigger] g.voter_seats().contains(x) implies has_key(
            g.day_votes,
            x,
        ) by {
            assert((g.votes())(x as int));
            assert(g.players[x as int].alive);
        }
    }
}

/// When the nominations are open, everybody who takes part in the election is asked or handed a
/// card until the player has answered.
pub proof fn law_nomination_round(g: GameView, s: usize)
    requires
        g.players.len() <= usize::MAX,
        g.stage == Stage::SheriffNominate,
        s < g.players.len(),
    ensures
        ({
            let p = g.players[s as int];
            let open = (p.alive || g.day == 1 && g.last_night_deaths.contains(s)) && !has_key(
                g.sheriff_nominations,
                s,
            );
            &&& g.plan().ais.contains(s) <==> open && p.is_ai
            &&& g.plan().humans.contains(s) <==> open && !p.is_ai && !has_key(
                g.sheriff_nominate_msgs,
                p.open_id,
            )
            &&& open ==> g.plan().next != Next::Settle
        }),
{
    lemma_indices_where(g.players.len(), g.eligible());
    assert((g.eligible())(s as int) == (g.players[s as int].alive || g.day == 1
        && g.last_night_deaths.contains(s)));
    lemma_round(g, g.eligible_seats(), g.sheriff_nominations, g.sheriff_nominate_msgs, s);
}

/// In the election, everybody who takes part and did not run is asked or handed a card until the
/// player has voted.
pub proof fn law_election_round(g: GameView, s: usize)
    requires
        g.players.len() <= usize::MAX,
        g.stage == Stage::SheriffVote,
        s < g.players.len(),
    ensures
        ({
            let p = g.players[s as int];
            let open = (p.alive || g.day == 1 && g.last_night_deaths.contains(s))
                && !g.sheriff_original_candidates.contains(s) && !has_key(g.sheriff_votes, s);
            &&& g.plan().ais.contains(s) <==> open && p.is_ai
            &&& g.plan().humans.contains(s) <==> open && !p.is_ai && !has_key(
                g.sheriff_vote_msgs,
                p.open_id,
            )
            &&& open ==> g.plan().next != Next::Settle
        }),
{
    lemma_indices_where(g.players.len(), g.elects());
    assert((g.elects())(s as int) == ((g.players[s as int].alive || g.day == 1
        && g.last_night_deaths.contains(s)) && !g.sheriff_original_candidates.contains(s)));
    lemma_round(g, g.elector_seats(), g.sheriff_votes, g.sheriff_vote_msgs, s);
}

/// While the wolves confer, every living human wolf has a card, and the table waits until all of
/// them have confirmed; only a team without a human goes on at once.
pub proof fn law_wolves_round(g: GameView, s: usize)
    requires
        g.players.len() <= usize::MAX,
        g.stage == Stage::WolvesPick,
        s < g.players.len(),
        g.players[s as int].alive,
        wolf_role(g.players[s as int].role),
    ensures
        g.plan().humans.contains(s) <==> !g.players[s as int].is_ai,
        !g.players[s as int].is_ai && !g.wolf_ready.contains(s) ==> g.plan().next == Next::Wait,
        !g.players[s as int].is_ai && g.plan().next == Next::Settle ==> g.wolf_ready.contains(s),
        g.players[s as int].is_ai && g.plan().next == Next::Settle && g.plan().humans.len() > 0
            ==> g.wolf_ready.contains(s),
{
    lemma_indices_where(g.players.len(), g.living_wolf());
    assert((g.living_wolf())(s as int));
    let human = |i: usize| !g.players[i as int].is_ai;
    let ai = |i: usize| g.players[i as int].is_ai;
    let unready = |i: usize| !g.wolf_ready.contains(i);
    let undecided = |i: usize| !has_key(g.wolf_kill_votes, i);
    lemma_kept_seats(g.wolf_seats(), human);
    lemma_kept_seats(g.wolf_seats(), ai);
    lemma_kept_seats(g.wolf_seats(), undecided);
    lemma_kept_seats(g.human_wolves(), unready);
    lemma_kept_seats(g.ai_wolves(), unready);
    assert(g.wolf_seats().contains(s));
    if human(s) {
        assert(g.human_wolves().contains(s));
    } else {
        assert(g.ai_wolves().contains(s));
    }
    if human(s) && unready(s) {
        assert(kept_seats(g.human_wolves(), unready).contains(s));
    }
    if ai(s) && unready(s) {
        assert(kept_seats(g.ai_wolves(), unready).contains(s));
    }
}

/// How a step of the table closes: after the guard the wolves act, after the speeches the vote
/// opens with nobody having voted, and a vote sends the banished to the last words.
pub proof fn law_steps_close(g: GameView, t: usize, start: usize)
    requires
        g.wf(),
        t < g.players.len(),
    ensures
        g.stage == Stage::GuardPick ==> g.settled(start) is Ok && g.settled(start)->Ok_0.stage
            == Stage::WolvesPick && g.settled(start)->Ok_0.players == g.players,
        g.stage == Stage::DaySpeech ==> g.settled(start) is Ok && g.settled(start)->Ok_0.stage
            == Stage::DayVote && g.settled(start)->Ok_0.day_votes.len() == 0 && g.settled(
            start,
        )->Ok_0.day_vote_round == g.day_vote_round && g.settled(start)->Ok_0.players == g.players,
        g.stage == Stage::DayVote && is_named(g.day_votes, t) && (forall|u: usize|
            u != t ==> #[trigger] halves(g, u) < halves(g, t)) ==> {
            let r = g.settled(start);
            &&& r is Ok
            &&& r->Ok_0.stage == Stage::LastWords
            &&& r->Ok_0.last_words_queue == seq![t]
            &&& !r->Ok_0.players[t as int].alive
        },
        g.stage == Stage::WolvesPick ==> g.settled(start) == g.advance_after_wolves(),
        g.stage == Stage::DayReveal ==> g.settled(start) == g.enter_day_discuss(start),
        g.stage == Stage::SheriffNominate ==> g.settled(start) == g.finish_sheriff_nominate(),
        g.stage == Stage::SheriffSpeech ==> g.settled(start) == g.finish_sheriff_speeches(),
        g.stage == Stage::LastWords ==> g.settled(start) == g.finish_last_words(start),
        g.stage == Stage::SheriffWithdraw && g.finish_sheriff_withdraw() is Ok ==> g.settled(start)
            is Ok && g.settled(start)->Ok_0 == g.finish_sheriff_withdraw()->Ok_0.0,
        g.stage == Stage::SheriffVote && g.resolve_sheriff_vote() is Ok ==> g.settled(start) is Ok
            && g.settled(start)->Ok_0 == g.resolve_sheriff_vote()->Ok_0.0,
{
    if g.stage == Stage::DayVote {
        law_most_voted_is_banished(g, t, t, t);
        if is_named(g.day_votes, t) && (forall|u: usize|
            u != t ==> #[trigger] halves(g, u) < halves(g, t)) {
            law_banished_have_their_say(g.resolve_lynch()->Ok_0.0);
        }
    }
}

/// What everybody is told when a step closes: the dead of the night, the candidates, that the
/// vote opens, the result of the vote.
pub proof fn law_closing_is_told(g: GameView)
    ensures
        g.stage == Stage::DayReveal ==> g.closing_card() == Some(g.day_reveal_card()),
        g.stage == Stage::SheriffNominate ==> g.closing_card() == Some(g.candidates_card()),
        g.stage == Stage::DaySpeech ==> g.closing_card() is Some && title_of(g.closing_card()->0)
            == Some("🗳️ 投票开始"@),
        g.stage == Stage::DayVote && g.resolve_lynch() is Ok ==> g.closing_card() == Some(
            g.resolve_lynch()->Ok_0.0.tally_card(),
        ),
{
    crate::feishu::reading::lemma_head(
        "🗳️ 投票开始"@,
        "blue"@,
        seq![markdown_view("发言结束。每位存活玩家请通过私密卡投票。"@)],
    );
}

/// The progress of a round names everybody who takes part, with whether the player is done.
pub proof fn law_progress_is_told(
    g: GameView,
    title: Seq<char>,
    template: Seq<char>,
    seats: Seq<usize>,
    done: spec_fn(usize) -> bool,
    k: int,
)
    requires
        0 <= k < seats.len(),
    ensures
        ({
            let c = g.done_card(title, template, seats, done);
            let name = g.players[seats[k] as int].name;
            &&& title_of(c) == Some(title)
            &&& done(seats[k]) ==> says(c, "✅ "@ + name)
            &&& !done(seats[k]) ==> says(c, "⏳ "@ + name)
            &&& says(c, " / "@ + decimal_text(seats.len()) + "**\n"@)
        }),
{
    let c = g.done_card(title, template, seats, done);
    let head = titled_view(title, g.day_title(), template);
    let lines = seats.map_values(|i: usize| g.done_line((i, done(i))));
    let n = decimal_text(count_where(seats.len(), |j: int| done(seats[j])));
    let m = decimal_text(seats.len());
    let a = "已完成 **"@ + n;
    let b = " / "@ + m + "**\n"@;
    let list = joined(lines, "\n"@);
    let t = "已完成 **"@ + n + " / "@ + m + "**\n"@ + list;
    let parts = c->Object_0[3].1->Object_0[3].1->List_0;
    assert(c == card_view(head, parts));
    assert(parts[0] == markdown_view(t));
    lemma_two_heads(title, g.day_title(), template, parts);
    lemma_joined_holds(lines, "\n"@, k);
    lemma_holds_side("已完成 **"@ + n + " / "@ + m + "**\n"@, list, lines[k]);
    lemma_card_says(head, parts, 0, t, lines[k]);
    lemma_counted("已完成 **"@, n, m, list);
    lemma_card_says(head, parts, 0, t, b);
}

proof fn lemma_counted(a: Seq<char>, n: Seq<char>, m: Seq<char>, list: Seq<char>)
    ensures
        holds_part(a + n + " / "@ + m + "**\n"@ + list, " / "@ + m + "**\n"@),
{
    let b = " / "@ + m + "**\n"@;
    assert(a + n + " / "@ + m + "**\n"@ + list =~= (a + n) + b + list);
    lemma_holds_self(b);
    lemma_holds_side(a + n, b, b);
    lemma_holds_side((a + n) + b, list, b);
}

/// While one player decides, everybody reads for whom the table waits, and for what.
pub proof fn law_waiting_is_told(g: GameView, s: usize)
    requires
        s < g.players.len(),
    ensures
        g.stage == Stage::HunterShoot && g.pending_hunter == Some(s) ==> g.public_notice() is Some
            && says(
            g.public_notice()->0.card,
            known_as(g.players[s as int]) + " "@ + "决定是否发动临死技能"@,
        ),
        g.stage == Stage::BadgePass && g.pending_badge == Some(s) ==> g.public_notice() is Some
            && says(
            g.public_notice()->0.card,
            known_as(g.players[s as int]) + " "@ + "移交或撕毁警徽"@,
        ),
        g.stage == Stage::SheriffPickDirection && g.sheriff_idx == Some(s) ==> g.public_notice()
            is Some && says(
            g.public_notice()->0.card,
            known_as(g.players[s as int]) + " "@ + "选择白天发言方向"@,
        ),
{
    let p = g.players[s as int];
    lemma_waiting(g, "🏹 临死技能处理中"@, p, "决定是否发动临死技能"@, "carmine"@);
    lemma_waiting(g, "🎖️ 等待警徽处理"@, p, "移交或撕毁警徽"@, "yellow"@);
    lemma_waiting(g, "🎖️ 等待警长指示"@, p, "选择白天发言方向"@, "yellow"@);
    lemma_single(g, s);
}

proof fn lemma_single(g: GameView, s: usize)
    ensures
        ({
            let p = g.players[s as int];
            let n = g.public_notice();
            &&& g.stage == Stage::HunterShoot && g.pending_hunter == Some(s) ==> n is Some
                && n->0.card == g.single_action_card(
                "🏹 临死技能处理中"@,
                p,
                "决定是否发动临死技能"@,
                "carmine"@,
            )
            &&& g.stage == Stage::BadgePass && g.pending_badge == Some(s) ==> n is Some && n->0.card
                == g.single_action_card("🎖️ 等待警徽处理"@, p, "移交或撕毁警徽"@, "yellow"@)
            &&& g.stage == Stage::SheriffPickDirection && g.sheriff_idx == Some(s) ==> n is Some
                && n->0.card == g.single_action_card(
                "🎖️ 等待警长指示"@,
                p,
                "选择白天发言方向"@,
                "yellow"@,
            )
        }),
{
}

proof fn lemma_waiting(
    g: GameView,
    title: Seq<char>,
    p: PlayerView,
    action: Seq<char>,
    template: Seq<char>,
)
    ensures
        says(g.single_action_card(title, p, action, template), known_as(p) + " "@ + action),
{
    let c = g.single_action_card(title, p, action, template);
    let head = titled_view(title, g.day_title(), template);
    let parts = c->Object_0[3].1->Object_0[3].1->List_0;
    let t = "⏳ 等待 "@ + p.shown() + " "@ + action;
    assert(c == card_view(head, parts));
    assert(parts[0] == markdown_view(t));
    lemma_shown_then(p, "⏳ 等待 "@, " "@ + action);
    assert(t =~= "⏳ 等待 "@ + p.shown() + (" "@ + action));
    assert(known_as(p) + " "@ + action =~= known_as(p) + (" "@ + action));
    lemma_card_says(head, parts, 0, t, known_as(p) + " "@ + action);
}

/// At night everybody reads which step the night is at: the wolves', the seer's and the witch's
/// step are ticked off when they are over, and stand under way or to come before.
pub proof fn law_night_progress_is_told(g: GameView)
    ensures
        g.stage == Stage::WolvesPick ==> says(g.night_progress_card(), "⏳"@ + " "@ + "🐺 狼人行动"@)
            && says(g.night_progress_card(), "·"@ + " "@ + "🔮 预言家查验"@) && says(
            g.night_progress_card(),
            "·"@ + " "@ + "🧪 女巫用药"@,
        ),
        g.stage == Stage::SeerPick ==> says(g.night_progress_card(), "✓"@ + " "@ + "🐺 狼人行动"@)
            && says(g.night_progress_card(), "⏳"@ + " "@ + "🔮 预言家查验"@) && says(
            g.night_progress_card(),
            "·"@ + " "@ + "🧪 女巫用药"@,
        ),
        g.stage == Stage::WitchAct ==> says(g.night_progress_card(), "✓"@ + " "@ + "🐺 狼人行动"@)
            && says(g.night_progress_card(), "✓"@ + " "@ + "🔮 预言家查验"@) && says(
            g.night_progress_card(),
            "⏳"@ + " "@ + "🧪 女巫用药"@,
        ),
{
    lemma_step(g, 1);
    lemma_step(g, 2);
    lemma_step(g, 3);
}

proof fn lemma_step(g: GameView, i: int)
    requires
        1 <= i < 5,
    ensures
        says(g.night_progress_card(), (g.step_line())(i)),
{
    let c = g.night_progress_card();
    let head = c->Object_0[2].1;
    let parts = c->Object_0[3].1->Object_0[3].1->List_0;
    assert(c == card_view(head, parts));
    let lines = g.step_lines();
    let k = i - g.first_step();
    assert(lines[k] == (g.step_line())(i));
    lemma_joined_holds(lines, "\n"@, k);
    assert(parts[0] == markdown_view(joined(lines, "\n"@)));
    lemma_card_says(head, parts, 0, joined(lines, "\n"@), lines[k]);
}

} // verus!
