//! What holds of the buttons, the plans and the answers of the AI players.

use vstd::prelude::*;
use crate::assoc::{has_key, lemma_key_pos_is};
use crate::json::{law_merge_reads_back, merged, JsonView};
use crate::seqs::{lemma_first_from, lemma_indices_where};
use crate::werewolf::actions::ActionView;
use crate::werewolf::attempts::lemma_asked;
use crate::werewolf::clicks::{pressed, ClickView};
use crate::werewolf::plan::{kept_seats, lemma_kept_seats, Next};
use crate::werewolf::state::GameView;
use crate::werewolf::types::{Role, Stage};

verus! {

/// A step that is planned to close closes: the rules refuse none of it.
pub proof fn law_planned_close_succeeds(g: GameView, start: usize)
    requires
        g.wf(),
        g.plan().next == Next::Settle,
    ensures
        g.settled(start) is Ok,
{
}

/// An AI is never handed a card, and a human is never asked.
pub proof fn law_cards_for_humans_questions_for_ais(g: GameView, seat: usize)
    requires
        g.wf(),
    ensures
        g.plan().ais.contains(seat) ==> seat < g.players.len() && g.players[seat as int].is_ai,
        g.plan().humans.contains(seat) ==> seat < g.players.len()
            && !g.players[seat as int].is_ai,
{
    if g.plan().ais.contains(seat) {
        lemma_asked(g, seat);
    }
    if g.plan().humans.contains(seat) {
        lemma_handed(g, seat);
    }
}

proof fn lemma_handed(g: GameView, seat: usize)
    requires
        g.wf(),
        g.plan().humans.contains(seat),
    ensures
        seat < g.players.len(),
        !g.players[seat as int].is_ai,
{
    lemma_indices_where(g.players.len(), g.eligible());
    lemma_indices_where(g.players.len(), g.elects());
    lemma_indices_where(g.players.len(), g.votes());
    lemma_indices_where(g.players.len(), g.living_wolf());
    lemma_first_from(0, g.players.len() as int, g.holder(Role::Guard));
    lemma_first_from(0, g.players.len() as int, g.holder(Role::Seer));
    lemma_first_from(0, g.players.len() as int, g.holder(Role::Witch));
    lemma_first_from(0, g.sheriff_original_candidates.len() as int, g.undecided());
    if g.stage == Stage::SheriffNominate {
        lemma_round_hands(g, g.eligible_seats(), g.sheriff_nominations, g.sheriff_nominate_msgs, seat);
    } else if g.stage == Stage::SheriffVote {
        lemma_round_hands(g, g.elector_seats(), g.sheriff_votes, g.sheriff_vote_msgs, seat);
    } else if g.stage == Stage::DayVote {
        lemma_round_hands(g, g.voter_seats(), g.day_votes, g.day_vote_msgs, seat);
    } else if g.stage == Stage::WolvesPick {
        lemma_kept_seats(g.wolf_seats(), |i: usize| !g.players[i as int].is_ai);
        assert(g.human_wolves().contains(seat));
    }
}

proof fn lemma_round_hands<V>(
    g: GameView,
    seats: Seq<usize>,
    answers: Seq<(usize, V)>,
    cards: Seq<(Seq<char>, Seq<char>)>,
    seat: usize,
)
    requires
        g.round(seats, answers, cards).humans.contains(seat),
    ensures
        seats.contains(seat),
        !g.players[seat as int].is_ai,
{
    let open = kept_seats(seats, |i: usize| !has_key(answers, i));
    lemma_kept_seats(seats, |i: usize| !has_key(answers, i));
    lemma_kept_seats(
        open,
        |i: usize|
            !g.players[i as int].is_ai && !has_key(cards, g.players[i as int].open_id),
    );
    assert(open.contains(seat));
}

/// In the wolves' step the humans come first: while a human wolf has not confirmed, no AI
/// is asked and the table waits.
pub proof fn law_human_wolves_first(g: GameView, seat: usize)
    requires
        g.stage == Stage::WolvesPick,
        g.human_wolves().contains(seat),
        !g.wolf_ready.contains(seat),
    ensures
        g.plan().ais.len() == 0,
        g.plan().next == Next::Wait,
{
    let humans = g.human_wolves();
    let open = kept_seats(humans, |i: usize| !g.wolf_ready.contains(i));
    lemma_kept_seats(humans, |i: usize| !g.wolf_ready.contains(i));
    assert(open.contains(seat));
}

/// A button of another game, or one that is not for who pressed it, or one whose action
/// is refused, leaves the table as it was; only an action that the rules accept is stored.
pub proof fn law_refused_click_changes_nothing(g: GameView, c: ClickView, start: usize)
    ensures
        !g.clicked(c, start).1.saved ==> g.clicked(c, start).0 == g,
        g.stale(c) || c.not_yours() ==> !g.clicked(c, start).1.saved,
        g.clicked(c, start).1.saved ==> exists|a: ActionView| #[trigger]
            g.tried(c.open_id, a, start) is Ok && c.wanted() == Some(
                Ok::<ActionView, Seq<char>>(a),
            ),
{
    if g.clicked(c, start).1.saved {
        let a = c.wanted()->0->Ok_0;
        assert(g.tried(c.open_id, a, start) is Ok);
    }
}

proof fn lemma_names_differ()
    ensures
        "chat_id"@ != "game"@,
        "chat_id"@ != "actor"@,
        "chat_id"@ != "action"@,
        "chat_id"@ != "target"@,
        "game"@ != "actor"@,
        "game"@ != "action"@,
        "game"@ != "target"@,
        "game"@ != "target_idx"@,
        "actor"@ != "action"@,
        "actor"@ != "target"@,
        "actor"@ != "target_idx"@,
        "target"@ != "target_idx"@,
        "action"@ != "target"@,
{
    reveal_strlit("chat_id");
    reveal_strlit("game");
    reveal_strlit("actor");
    reveal_strlit("action");
    reveal_strlit("target");
    reveal_strlit("target_idx");
    assert("chat_id"@.len() == 7);
    assert("game"@.len() == 4);
    assert("actor"@.len() == 5);
    assert("action"@.len() == 6);
    assert("target"@.len() == 6);
    assert("target_idx"@.len() == 10);
    assert("action"@[0] != "target"@[0]);
}

/// What a button carries is what is read when it is pressed: its game, and who may press
/// it. So the button of a card, pressed by who was handed the card, is never refused as
/// stale or as somebody else's.
pub proof fn law_own_button_is_heard(
    g: GameView,
    actor: Seq<char>,
    action: Seq<char>,
    form: JsonView,
)
    ensures
        pressed(g.action_value(actor, action), form, action, actor).actor == actor,
        pressed(g.action_value(actor, action), form, action, actor).game == g.game_count,
        !g.stale(pressed(g.action_value(actor, action), form, action, actor)),
        !pressed(g.action_value(actor, action), form, action, actor).not_yours(),
{
    lemma_names_differ();
    let base = g.base_value(actor)->Object_0;
    let extra = seq![("action"@, JsonView::Text(action))];
    law_merge_reads_back(base, extra, "actor"@);
    law_merge_reads_back(base, extra, "game"@);
    lemma_key_pos_is(extra, "actor"@, 1);
    lemma_key_pos_is(extra, "game"@, 1);
    lemma_key_pos_is(base, "game"@, 1);
    lemma_key_pos_is(base, "actor"@, 2);
}

/// A button that picks a player names that player.
pub proof fn law_target_button_names_target(
    g: GameView,
    actor: Seq<char>,
    action: Seq<char>,
    form: JsonView,
    i: usize,
)
    ensures
        ({
            let v = merged(
                g.action_value(actor, action),
                JsonView::Object(
                    seq![
                        ("target"@, JsonView::Text(g.players[i as int].open_id)),
                        ("target_idx"@, JsonView::Int(i as u64)),
                    ],
                ),
            );
            let c = pressed(v, form, action, actor);
            &&& c.target == Some(g.players[i as int].open_id)
            &&& !g.stale(c)
            &&& !c.not_yours()
        }),
{
    lemma_names_differ();
    law_own_button_is_heard(g, actor, action, form);
    let base = g.action_value(actor, action)->Object_0;
    let extra = seq![
        ("target"@, JsonView::Text(g.players[i as int].open_id)),
        ("target_idx"@, JsonView::Int(i as u64)),
    ];
    law_merge_reads_back(base, extra, "target"@);
    law_merge_reads_back(base, extra, "actor"@);
    law_merge_reads_back(base, extra, "game"@);
    lemma_key_pos_is(extra, "target"@, 0);
    lemma_key_pos_is(extra, "actor"@, 2);
    lemma_key_pos_is(extra, "game"@, 2);
}

} // verus!
