//! The buttons that players are handed, and what happens when they press them.

use vstd::prelude::*;
use crate::assoc::{get_key, has_key, lemma_key_pos_is};
use crate::feishu::cards::{button_view, card_view, form_view, row_view, submit_view};
use crate::feishu::reading::{has_button, lemma_button, lemma_within_card, lemma_within_form,
    lemma_submit, lemma_within_grid, lemma_within_row};
use crate::json::{law_merge_reads_back, merged, JsonView};
use crate::seqs::{indices_where, lemma_indices_where};
use crate::text::trimmed;
use crate::text_laws::law_trimming_twice_is_once;
use crate::werewolf::actions::ActionView;
use crate::werewolf::clicks::{pressed, ClickView, ReplyView};
use crate::werewolf::day_laws::{law_badge, law_day_speech, law_day_vote, law_last_words, law_shot,
    law_wolf_blows_up};
use crate::werewolf::election_laws::{has_decided, law_candidate_speaks,
    law_candidate_stays_or_withdraws, law_election_vote, law_running_are_those_who_said_so,
    law_who_may_run, says_yes};
use crate::werewolf::handler_laws::{law_own_button_is_heard, law_target_button_names_target};
use crate::werewolf::laws::law_seat_of;
use crate::werewolf::night_laws::{law_guard_passes, law_guard_protects, law_seer_learns_the_side,
    law_witch_decides, law_wolf_confirms, law_wolf_picks, law_wolf_speaks, wolf_role};
use crate::werewolf::speech_laws::{distance, law_direction_decides_the_order};
use crate::werewolf::state::GameView;
use crate::werewolf::types::{Role, Stage};

verus! {

/// By what the names of the buttons' actions are told apart.
spec fn features(s: Seq<char>) -> (nat, char, char) {
    (s.len(), s[s.len() - 2], s[5])
}

proof fn lemma_actions_early()
    ensures
        features("wolf_guard_pick"@) == (15nat, 'c', 'g'),
        features("wolf_guard_skip"@) == (15nat, 'i', 'g'),
        features("wolf_kill"@) == (9nat, 'l', 'k'),
        features("wolf_chat_send"@) == (14nat, 'n', 'c'),
        features("wolf_ready"@) == (10nat, 'd', 'r'),
        features("wolf_seer_check"@) == (15nat, 'c', 's'),
        features("wolf_witch_save"@) == (15nat, 'v', 'w'),
        features("wolf_witch_skip"@) == (15nat, 'i', 'w'),
        features("wolf_witch_poison"@) == (17nat, 'o', 'w'),
        features("wolf_sheriff_run"@) == (16nat, 'u', 's'),
        features("wolf_sheriff_skip"@) == (17nat, 'i', 's'),
        features("wolf_sheriff_speech_submit"@) == (26nat, 'i', 's'),
        features("wolf_sheriff_speech_skip"@) == (24nat, 'i', 's'),
        features("wolf_sheriff_stay"@) == (17nat, 'a', 's'),
        features("wolf_sheriff_withdraw"@) == (21nat, 'a', 's'),
{
    reveal_strlit("wolf_guard_pick");
    reveal_strlit("wolf_guard_skip");
    reveal_strlit("wolf_kill");
    reveal_strlit("wolf_chat_send");
    reveal_strlit("wolf_ready");
    reveal_strlit("wolf_seer_check");
    reveal_strlit("wolf_witch_save");
    reveal_strlit("wolf_witch_skip");
    reveal_strlit("wolf_witch_poison");
    reveal_strlit("wolf_sheriff_run");
    reveal_strlit("wolf_sheriff_skip");
    reveal_strlit("wolf_sheriff_speech_submit");
    reveal_strlit("wolf_sheriff_speech_skip");
    reveal_strlit("wolf_sheriff_stay");
    reveal_strlit("wolf_sheriff_withdraw");
}

proof fn lemma_actions_late()
    ensures
        features("wolf_sheriff_vote"@) == (17nat, 't', 's'),
        features("wolf_sheriff_vote_abstain"@) == (25nat, 'i', 's'),
        features("wolf_sheriff_dir_up"@) == (19nat, 'u', 's'),
        features("wolf_sheriff_dir_down"@) == (21nat, 'w', 's'),
        features("wolf_day_speech_submit"@) == (22nat, 'i', 'd'),
        features("wolf_day_speech_skip"@) == (20nat, 'i', 'd'),
        features("wolf_last_words_submit"@) == (22nat, 'i', 'l'),
        features("wolf_last_words_skip"@) == (20nat, 'i', 'l'),
        features("wolf_vote"@) == (9nat, 't', 'v'),
        features("wolf_vote_abstain"@) == (17nat, 'i', 'v'),
        features("wolf_hunter_shoot"@) == (17nat, 'o', 'h'),
        features("wolf_hunter_skip"@) == (16nat, 'i', 'h'),
        features("wolf_badge_pass"@) == (15nat, 's', 'b'),
        features("wolf_badge_destroy"@) == (18nat, 'o', 'b'),
        features("wolf_self_explode"@) == (17nat, 'd', 's'),
{
    reveal_strlit("wolf_sheriff_vote");
    reveal_strlit("wolf_sheriff_vote_abstain");
    reveal_strlit("wolf_sheriff_dir_up");
    reveal_strlit("wolf_sheriff_dir_down");
    reveal_strlit("wolf_day_speech_submit");
    reveal_strlit("wolf_day_speech_skip");
    reveal_strlit("wolf_last_words_submit");
    reveal_strlit("wolf_last_words_skip");
    reveal_strlit("wolf_vote");
    reveal_strlit("wolf_vote_abstain");
    reveal_strlit("wolf_hunter_shoot");
    reveal_strlit("wolf_hunter_skip");
    reveal_strlit("wolf_badge_pass");
    reveal_strlit("wolf_badge_destroy");
    reveal_strlit("wolf_self_explode");
}

/// What happens when the player of a seat presses a button that sends this.
#[verifier::opaque]
pub open spec fn pressing(
    g: GameView,
    seat: usize,
    sent: JsonView,
    form: JsonView,
    start: usize,
) -> (GameView, ReplyView) {
    g.clicked(
        pressed(sent, form, sent.text_or_empty("action"@), g.players[seat as int].open_id),
        start,
    )
}

/// What a button that picks a player sends.
pub open spec fn picking(g: GameView, actor: Seq<char>, action: Seq<char>, i: usize) -> JsonView {
    merged(
        g.action_value(actor, action),
        JsonView::Object(
            seq![
                ("target"@, JsonView::Text(g.players[i as int].open_id)),
                ("target_idx"@, JsonView::Int(i as u64)),
            ],
        ),
    )
}

proof fn lemma_plain(g: GameView, seat: usize, action: Seq<char>, form: JsonView)
    ensures
        ({
            let id = g.players[seat as int].open_id;
            let v = g.action_value(id, action);
            let c = pressed(v, form, v.text_or_empty("action"@), id);
            &&& v.text_or_empty("action"@) == action
            &&& !g.stale(c)
            &&& !c.not_yours()
            &&& c.action == action
            &&& c.open_id == id
            &&& c.speech == form.text_or_empty("speech"@)
            &&& c.message == form.text_or_empty("message"@)
        }),
{
    let id = g.players[seat as int].open_id;
    let base = g.base_value(id)->Object_0;
    let extra = seq![("action"@, JsonView::Text(action))];
    law_merge_reads_back(base, extra, "action"@);
    lemma_key_pos_is(extra, "action"@, 0);
    law_own_button_is_heard(g, id, action, form);
}

proof fn lemma_picking(g: GameView, seat: usize, action: Seq<char>, i: usize, form: JsonView)
    ensures
        ({
            let id = g.players[seat as int].open_id;
            let v = picking(g, id, action, i);
            let c = pressed(v, form, v.text_or_empty("action"@), id);
            &&& v.text_or_empty("action"@) == action
            &&& !g.stale(c)
            &&& !c.not_yours()
            &&& c.action == action
            &&& c.open_id == id
            &&& c.target == Some(g.players[i as int].open_id)
        }),
{
    let id = g.players[seat as int].open_id;
    lemma_plain(g, seat, action, form);
    law_target_button_names_target(g, id, action, form, i);
    let base = g.action_value(id, action)->Object_0;
    let extra = seq![
        ("target"@, JsonView::Text(g.players[i as int].open_id)),
        ("target_idx"@, JsonView::Int(i as u64)),
    ];
    reveal_strlit("action");
    reveal_strlit("target");
    reveal_strlit("target_idx");
    assert("action"@[0] == 'a' && "target"@[0] == 't' && "target_idx"@[0] == 't');
    assert("target"@.len() == 6 && "target_idx"@.len() == 10);
    law_merge_reads_back(base, extra, "action"@);
    lemma_key_pos_is(extra, "action"@, 2);
}

/// A card shows the buttons of its rows.
proof fn lemma_row_button(
    head: JsonView,
    parts: Seq<JsonView>,
    k: int,
    buttons: Seq<JsonView>,
    j: int,
    label: Seq<char>,
    value: JsonView,
    style: Seq<char>,
)
    requires
        0 <= k < parts.len(),
        parts[k] == row_view(buttons),
        0 <= j < buttons.len(),
        buttons[j] == button_view(label, value, style),
    ensures
        has_button(card_view(head, parts), label, value),
{
    lemma_button(label, value, style);
    lemma_within_row(buttons, j);
    lemma_within_card(head, parts, k, buttons[j]);
}

/// A card shows the buttons of its grid.
proof fn lemma_grid_button(
    g: GameView,
    head: JsonView,
    before: Seq<JsonView>,
    after: Seq<JsonView>,
    actor: Seq<char>,
    action: Seq<char>,
    targets: Seq<usize>,
    style: Seq<char>,
    t: usize,
)
    requires
        targets.contains(t),
    ensures
        has_button(
            card_view(head, before + g.target_grid(actor, action, targets, style) + after),
            g.players[t as int].name,
            picking(g, actor, action, t),
        ),
{
    let j = choose|j: int| 0 <= j < targets.len() && targets[j] == t;
    let buttons = targets.map_values(g.target_button(actor, action, style));
    let b = button_view(g.players[t as int].name, picking(g, actor, action, t), style);
    assert(buttons[j] == b);
    lemma_button(g.players[t as int].name, picking(g, actor, action, t), style);
    let k = lemma_within_grid(buttons, 3, j);
    let grid = g.target_grid(actor, action, targets, style);
    let parts = before + grid + after;
    assert(parts[before.len() + k] == grid[k]);
    lemma_within_card(head, parts, before.len() + k, b);
}

/// What somebody wants who presses a button of the night.
proof fn lemma_wants_by_night(c: ClickView)
    ensures
        c.action == "wolf_guard_pick"@ && c.target is Some ==> c.wanted() == Some(
            Ok::<ActionView, Seq<char>>(ActionView::GuardPick(c.target->0)),
        ),
        c.action == "wolf_guard_skip"@ ==> c.wanted() == Some(
            Ok::<ActionView, Seq<char>>(ActionView::GuardSkip),
        ),
        c.action == "wolf_kill"@ && c.target is Some ==> c.wanted() == Some(
            Ok::<ActionView, Seq<char>>(ActionView::WolfPick(c.target->0)),
        ),
        c.action == "wolf_ready"@ ==> c.wanted() == Some(
            Ok::<ActionView, Seq<char>>(ActionView::WolfReady),
        ),
        c.action == "wolf_seer_check"@ && c.target is Some ==> c.wanted() == Some(
            Ok::<ActionView, Seq<char>>(ActionView::SeerCheck(c.target->0)),
        ),
        c.action == "wolf_witch_save"@ ==> c.wanted() == Some(
            Ok::<ActionView, Seq<char>>(ActionView::Witch { save: true, poison: None }),
        ),
        c.action == "wolf_witch_skip"@ ==> c.wanted() == Some(
            Ok::<ActionView, Seq<char>>(ActionView::Witch { save: false, poison: None }),
        ),
        c.action == "wolf_witch_poison"@ && c.target is Some ==> c.wanted() == Some(
            Ok::<ActionView, Seq<char>>(ActionView::Witch { save: false, poison: c.target }),
        ),
{
    lemma_actions_early();
    lemma_actions_late();
    assert(features(c.action) == features(c.action));
}

/// What somebody wants who presses a button of the election.
proof fn lemma_wants_by_election(c: ClickView)
    ensures
        c.action == "wolf_sheriff_run"@ ==> c.wanted() == Some(
            Ok::<ActionView, Seq<char>>(ActionView::Nominate(true)),
        ),
        c.action == "wolf_sheriff_skip"@ ==> c.wanted() == Some(
            Ok::<ActionView, Seq<char>>(ActionView::Nominate(false)),
        ),
        c.action == "wolf_sheriff_speech_submit"@ ==> c.wanted() == Some(
            Ok::<ActionView, Seq<char>>(ActionView::SheriffSpeech(c.speech)),
        ),
        c.action == "wolf_sheriff_speech_skip"@ ==> c.wanted() == Some(
            Ok::<ActionView, Seq<char>>(ActionView::SheriffSpeech(Seq::empty())),
        ),
        c.action == "wolf_sheriff_stay"@ ==> c.wanted() == Some(
            Ok::<ActionView, Seq<char>>(ActionView::Stay(true)),
        ),
        c.action == "wolf_sheriff_withdraw"@ ==> c.wanted() == Some(
            Ok::<ActionView, Seq<char>>(ActionView::Stay(false)),
        ),
        c.action == "wolf_sheriff_vote"@ && c.target is Some ==> c.wanted() == Some(
            Ok::<ActionView, Seq<char>>(ActionView::Elect(c.target)),
        ),
        c.action == "wolf_sheriff_vote_abstain"@ ==> c.wanted() == Some(
            Ok::<ActionView, Seq<char>>(ActionView::Elect(None)),
        ),
        c.action == "wolf_sheriff_dir_up"@ ==> c.wanted() == Some(
            Ok::<ActionView, Seq<char>>(ActionView::Direction(true)),
        ),
        c.action == "wolf_sheriff_dir_down"@ ==> c.wanted() == Some(
            Ok::<ActionView, Seq<char>>(ActionView::Direction(false)),
        ),
{
    lemma_actions_early();
    lemma_actions_late();
    assert(features(c.action) == features(c.action));
}

/// What somebody wants who presses a button of the day.
proof fn lemma_wants_by_day(c: ClickView)
    ensures
        c.action == "wolf_day_speech_submit"@ ==> c.wanted() == Some(
            Ok::<ActionView, Seq<char>>(ActionView::DaySpeech(c.speech)),
        ),
        c.action == "wolf_day_speech_skip"@ ==> c.wanted() == Some(
            Ok::<ActionView, Seq<char>>(ActionView::DaySpeech(Seq::empty())),
        ),
        c.action == "wolf_last_words_submit"@ ==> c.wanted() == Some(
            Ok::<ActionView, Seq<char>>(ActionView::LastWords(c.speech)),
        ),
        c.action == "wolf_last_words_skip"@ ==> c.wanted() == Some(
            Ok::<ActionView, Seq<char>>(ActionView::LastWords(Seq::empty())),
        ),
        c.action == "wolf_vote"@ && c.target is Some ==> c.wanted() == Some(
            Ok::<ActionView, Seq<char>>(ActionView::Vote(c.target)),
        ),
        c.action == "wolf_vote_abstain"@ ==> c.wanted() == Some(
            Ok::<ActionView, Seq<char>>(ActionView::Vote(None)),
        ),
        c.action == "wolf_hunter_shoot"@ && c.target is Some ==> c.wanted() == Some(
            Ok::<ActionView, Seq<char>>(ActionView::Shoot(c.target)),
        ),
        c.action == "wolf_hunter_skip"@ ==> c.wanted() == Some(
            Ok::<ActionView, Seq<char>>(ActionView::Shoot(None)),
        ),
        c.action == "wolf_badge_pass"@ && c.target is Some ==> c.wanted() == Some(
            Ok::<ActionView, Seq<char>>(ActionView::Badge(c.target)),
        ),
        c.action == "wolf_badge_destroy"@ ==> c.wanted() == Some(
            Ok::<ActionView, Seq<char>>(ActionView::Badge(None)),
        ),
        c.action == "wolf_self_explode"@ ==> c.wanted() == Some(
            Ok::<ActionView, Seq<char>>(ActionView::Explode),
        ),
{
    lemma_actions_early();
    lemma_actions_late();
    assert(features(c.action) == features(c.action));
}

/// What is wanted is done, if the rules allow it.
proof fn lemma_press(
    g: GameView,
    seat: usize,
    sent: JsonView,
    form: JsonView,
    start: usize,
    a: ActionView,
)
    requires
        ({
            let id = g.players[seat as int].open_id;
            let c = pressed(sent, form, sent.text_or_empty("action"@), id);
            &&& !g.stale(c)
            &&& !c.not_yours()
            &&& c.wanted() == Some(Ok::<ActionView, Seq<char>>(a))
            &&& g.tried(id, a, start) is Ok
        }),
    ensures
        ({
            let id = g.players[seat as int].open_id;
            let p = g.tried(id, a, start)->Ok_0;
            pressing(g, seat, sent, form, start) == (p.0, p.0.done(id, a, p.1))
        }),
{
    reveal(pressing);
}

pub proof fn lemma_press_guard_pick(g: GameView, s: usize, t: usize, form: JsonView, start: usize)
    requires
        g.tried(g.players[s as int].open_id, ActionView::GuardPick(g.players[t as int].open_id), start) is Ok,
    ensures
        ({
            let id = g.players[s as int].open_id;
            let a = ActionView::GuardPick(g.players[t as int].open_id);
            let p = g.tried(id, a, start)->Ok_0;
            pressing(g, s, picking(g, g.players[s as int].open_id, "wolf_guard_pick"@, t), form, start) == (p.0, p.0.done(id, a, p.1))
        }),
{
    let id = g.players[s as int].open_id;
    let sent = picking(g, g.players[s as int].open_id, "wolf_guard_pick"@, t);
    lemma_picking(g, s, "wolf_guard_pick"@, t, form);
    lemma_wants_by_night(pressed(sent, form, sent.text_or_empty("action"@), id));
    lemma_press(g, s, sent, form, start, ActionView::GuardPick(g.players[t as int].open_id));
}

pub proof fn lemma_press_guard_skip(g: GameView, s: usize, form: JsonView, start: usize)
    requires
        g.tried(g.players[s as int].open_id, ActionView::GuardSkip, start) is Ok,
    ensures
        ({
            let id = g.players[s as int].open_id;
            let a = ActionView::GuardSkip;
            let p = g.tried(id, a, start)->Ok_0;
            pressing(g, s, g.action_value(g.players[s as int].open_id, "wolf_guard_skip"@), form, start) == (p.0, p.0.done(id, a, p.1))
        }),
{
    let id = g.players[s as int].open_id;
    let sent = g.action_value(g.players[s as int].open_id, "wolf_guard_skip"@);
    lemma_plain(g, s, "wolf_guard_skip"@, form);
    lemma_wants_by_night(pressed(sent, form, sent.text_or_empty("action"@), id));
    lemma_press(g, s, sent, form, start, ActionView::GuardSkip);
}

pub proof fn lemma_press_kill(g: GameView, s: usize, t: usize, form: JsonView, start: usize)
    requires
        g.tried(g.players[s as int].open_id, ActionView::WolfPick(g.players[t as int].open_id), start) is Ok,
    ensures
        ({
            let id = g.players[s as int].open_id;
            let a = ActionView::WolfPick(g.players[t as int].open_id);
            let p = g.tried(id, a, start)->Ok_0;
            pressing(g, s, picking(g, g.players[s as int].open_id, "wolf_kill"@, t), form, start) == (p.0, p.0.done(id, a, p.1))
        }),
{
    let id = g.players[s as int].open_id;
    let sent = picking(g, g.players[s as int].open_id, "wolf_kill"@, t);
    lemma_picking(g, s, "wolf_kill"@, t, form);
    lemma_wants_by_night(pressed(sent, form, sent.text_or_empty("action"@), id));
    lemma_press(g, s, sent, form, start, ActionView::WolfPick(g.players[t as int].open_id));
}

pub proof fn lemma_press_ready(g: GameView, s: usize, form: JsonView, start: usize)
    requires
        g.tried(g.players[s as int].open_id, ActionView::WolfReady, start) is Ok,
    ensures
        ({
            let id = g.players[s as int].open_id;
            let a = ActionView::WolfReady;
            let p = g.tried(id, a, start)->Ok_0;
            pressing(g, s, g.action_value(g.players[s as int].open_id, "wolf_ready"@), form, start) == (p.0, p.0.done(id, a, p.1))
        }),
{
    let id = g.players[s as int].open_id;
    let sent = g.action_value(g.players[s as int].open_id, "wolf_ready"@);
    lemma_plain(g, s, "wolf_ready"@, form);
    lemma_wants_by_night(pressed(sent, form, sent.text_or_empty("action"@), id));
    lemma_press(g, s, sent, form, start, ActionView::WolfReady);
}

pub proof fn lemma_press_seer_check(g: GameView, s: usize, t: usize, form: JsonView, start: usize)
    requires
        g.tried(g.players[s as int].open_id, ActionView::SeerCheck(g.players[t as int].open_id), start) is Ok,
    ensures
        ({
            let id = g.players[s as int].open_id;
            let a = ActionView::SeerCheck(g.players[t as int].open_id);
            let p = g.tried(id, a, start)->Ok_0;
            pressing(g, s, picking(g, g.players[s as int].open_id, "wolf_seer_check"@, t), form, start) == (p.0, p.0.done(id, a, p.1))
        }),
{
    let id = g.players[s as int].open_id;
    let sent = picking(g, g.players[s as int].open_id, "wolf_seer_check"@, t);
    lemma_picking(g, s, "wolf_seer_check"@, t, form);
    lemma_wants_by_night(pressed(sent, form, sent.text_or_empty("action"@), id));
    lemma_press(g, s, sent, form, start, ActionView::SeerCheck(g.players[t as int].open_id));
}

pub proof fn lemma_press_witch_save(g: GameView, s: usize, form: JsonView, start: usize)
    requires
        g.tried(g.players[s as int].open_id, ActionView::Witch { save: true, poison: None }, start) is Ok,
    ensures
        ({
            let id = g.players[s as int].open_id;
            let a = ActionView::Witch { save: true, poison: None };
            let p = g.tried(id, a, start)->Ok_0;
            pressing(g, s, g.action_value(g.players[s as int].open_id, "wolf_witch_save"@), form, start) == (p.0, p.0.done(id, a, p.1))
        }),
{
    let id = g.players[s as int].open_id;
    let sent = g.action_value(g.players[s as int].open_id, "wolf_witch_save"@);
    lemma_plain(g, s, "wolf_witch_save"@, form);
    lemma_wants_by_night(pressed(sent, form, sent.text_or_empty("action"@), id));
    lemma_press(g, s, sent, form, start, ActionView::Witch { save: true, poison: None });
}

pub proof fn lemma_press_witch_skip(g: GameView, s: usize, form: JsonView, start: usize)
    requires
        g.tried(g.players[s as int].open_id, ActionView::Witch { save: false, poison: None }, start) is Ok,
    ensures
        ({
            let id = g.players[s as int].open_id;
            let a = ActionView::Witch { save: false, poison: None };
            let p = g.tried(id, a, start)->Ok_0;
            pressing(g, s, g.action_value(g.players[s as int].open_id, "wolf_witch_skip"@), form, start) == (p.0, p.0.done(id, a, p.1))
        }),
{
    let id = g.players[s as int].open_id;
    let sent = g.action_value(g.players[s as int].open_id, "wolf_witch_skip"@);
    lemma_plain(g, s, "wolf_witch_skip"@, form);
    lemma_wants_by_night(pressed(sent, form, sent.text_or_empty("action"@), id));
    lemma_press(g, s, sent, form, start, ActionView::Witch { save: false, poison: None });
}

pub proof fn lemma_press_witch_poison(g: GameView, s: usize, t: usize, form: JsonView, start: usize)
    requires
        g.tried(g.players[s as int].open_id, ActionView::Witch { save: false, poison: Some(g.players[t as int].open_id) }, start) is Ok,
    ensures
        ({
            let id = g.players[s as int].open_id;
            let a = ActionView::Witch { save: false, poison: Some(g.players[t as int].open_id) };
            let p = g.tried(id, a, start)->Ok_0;
            pressing(g, s, picking(g, g.players[s as int].open_id, "wolf_witch_poison"@, t), form, start) == (p.0, p.0.done(id, a, p.1))
        }),
{
    let id = g.players[s as int].open_id;
    let sent = picking(g, g.players[s as int].open_id, "wolf_witch_poison"@, t);
    lemma_picking(g, s, "wolf_witch_poison"@, t, form);
    lemma_wants_by_night(pressed(sent, form, sent.text_or_empty("action"@), id));
    lemma_press(g, s, sent, form, start, ActionView::Witch { save: false, poison: Some(g.players[t as int].open_id) });
}

pub proof fn lemma_press_sheriff_run(g: GameView, s: usize, form: JsonView, start: usize)
    requires
        g.tried(g.players[s as int].open_id, ActionView::Nominate(true), start) is Ok,
    ensures
        ({
            let id = g.players[s as int].open_id;
            let a = ActionView::Nominate(true);
            let p = g.tried(id, a, start)->Ok_0;
            pressing(g, s, g.action_value(g.players[s as int].open_id, "wolf_sheriff_run"@), form, start) == (p.0, p.0.done(id, a, p.1))
        }),
{
    let id = g.players[s as int].open_id;
    let sent = g.action_value(g.players[s as int].open_id, "wolf_sheriff_run"@);
    lemma_plain(g, s, "wolf_sheriff_run"@, form);
    lemma_wants_by_election(pressed(sent, form, sent.text_or_empty("action"@), id));
    lemma_press(g, s, sent, form, start, ActionView::Nominate(true));
}

pub proof fn lemma_press_sheriff_skip(g: GameView, s: usize, form: JsonView, start: usize)
    requires
        g.tried(g.players[s as int].open_id, ActionView::Nominate(false), start) is Ok,
    ensures
        ({
            let id = g.players[s as int].open_id;
            let a = ActionView::Nominate(false);
            let p = g.tried(id, a, start)->Ok_0;
            pressing(g, s, g.action_value(g.players[s as int].open_id, "wolf_sheriff_skip"@), form, start) == (p.0, p.0.done(id, a, p.1))
        }),
{
    let id = g.players[s as int].open_id;
    let sent = g.action_value(g.players[s as int].open_id, "wolf_sheriff_skip"@);
    lemma_plain(g, s, "wolf_sheriff_skip"@, form);
    lemma_wants_by_election(pressed(sent, form, sent.text_or_empty("action"@), id));
    lemma_press(g, s, sent, form, start, ActionView::Nominate(false));
}

pub proof fn lemma_press_sheriff_speech_submit(g: GameView, s: usize, form: JsonView, start: usize)
    requires
        g.tried(g.players[s as int].open_id, ActionView::SheriffSpeech(form.text_or_empty("speech"@)), start) is Ok,
    ensures
        ({
            let id = g.players[s as int].open_id;
            let a = ActionView::SheriffSpeech(form.text_or_empty("speech"@));
            let p = g.tried(id, a, start)->Ok_0;
            pressing(g, s, g.action_value(g.players[s as int].open_id, "wolf_sheriff_speech_submit"@), form, start) == (p.0, p.0.done(id, a, p.1))
        }),
{
    let id = g.players[s as int].open_id;
    let sent = g.action_value(g.players[s as int].open_id, "wolf_sheriff_speech_submit"@);
    lemma_plain(g, s, "wolf_sheriff_speech_submit"@, form);
    lemma_wants_by_election(pressed(sent, form, sent.text_or_empty("action"@), id));
    lemma_press(g, s, sent, form, start, ActionView::SheriffSpeech(form.text_or_empty("speech"@)));
}

pub proof fn lemma_press_sheriff_speech_skip(g: GameView, s: usize, form: JsonView, start: usize)
    requires
        g.tried(g.players[s as int].open_id, ActionView::SheriffSpeech(Seq::empty()), start) is Ok,
    ensures
        ({
            let id = g.players[s as int].open_id;
            let a = ActionView::SheriffSpeech(Seq::empty());
            let p = g.tried(id, a, start)->Ok_0;
            pressing(g, s, g.action_value(g.players[s as int].open_id, "wolf_sheriff_speech_skip"@), form, start) == (p.0, p.0.done(id, a, p.1))
        }),
{
    let id = g.players[s as int].open_id;
    let sent = g.action_value(g.players[s as int].open_id, "wolf_sheriff_speech_skip"@);
    lemma_plain(g, s, "wolf_sheriff_speech_skip"@, form);
    lemma_wants_by_election(pressed(sent, form, sent.text_or_empty("action"@), id));
    lemma_press(g, s, sent, form, start, ActionView::SheriffSpeech(Seq::empty()));
}

pub proof fn lemma_press_sheriff_stay(g: GameView, s: usize, form: JsonView, start: usize)
    requires
        g.tried(g.players[s as int].open_id, ActionView::Stay(true), start) is Ok,
    ensures
        ({
            let id = g.players[s as int].open_id;
            let a = ActionView::Stay(true);
            let p = g.tried(id, a, start)->Ok_0;
            pressing(g, s, g.action_value(g.players[s as int].open_id, "wolf_sheriff_stay"@), form, start) == (p.0, p.0.done(id, a, p.1))
        }),
{
    let id = g.players[s as int].open_id;
    let sent = g.action_value(g.players[s as int].open_id, "wolf_sheriff_stay"@);
    lemma_plain(g, s, "wolf_sheriff_stay"@, form);
    lemma_wants_by_election(pressed(sent, form, sent.text_or_empty("action"@), id));
    lemma_press(g, s, sent, form, start, ActionView::Stay(true));
}

pub proof fn lemma_press_sheriff_withdraw(g: GameView, s: usize, form: JsonView, start: usize)
    requires
        g.tried(g.players[s as int].open_id, ActionView::Stay(false), start) is Ok,
    ensures
        ({
            let id = g.players[s as int].open_id;
            let a = ActionView::Stay(false);
            let p = g.tried(id, a, start)->Ok_0;
            pressing(g, s, g.action_value(g.players[s as int].open_id, "wolf_sheriff_withdraw"@), form, start) == (p.0, p.0.done(id, a, p.1))
        }),
{
    let id = g.players[s as int].open_id;
    let sent = g.action_value(g.players[s as int].open_id, "wolf_sheriff_withdraw"@);
    lemma_plain(g, s, "wolf_sheriff_withdraw"@, form);
    lemma_wants_by_election(pressed(sent, form, sent.text_or_empty("action"@), id));
    lemma_press(g, s, sent, form, start, ActionView::Stay(false));
}

pub proof fn lemma_press_sheriff_vote(g: GameView, s: usize, t: usize, form: JsonView, start: usize)
    requires
        g.tried(g.players[s as int].open_id, ActionView::Elect(Some(g.players[t as int].open_id)), start) is Ok,
    ensures
        ({
            let id = g.players[s as int].open_id;
            let a = ActionView::Elect(Some(g.players[t as int].open_id));
            let p = g.tried(id, a, start)->Ok_0;
            pressing(g, s, picking(g, g.players[s as int].open_id, "wolf_sheriff_vote"@, t), form, start) == (p.0, p.0.done(id, a, p.1))
        }),
{
    let id = g.players[s as int].open_id;
    let sent = picking(g, g.players[s as int].open_id, "wolf_sheriff_vote"@, t);
    lemma_picking(g, s, "wolf_sheriff_vote"@, t, form);
    lemma_wants_by_election(pressed(sent, form, sent.text_or_empty("action"@), id));
    lemma_press(g, s, sent, form, start, ActionView::Elect(Some(g.players[t as int].open_id)));
}

pub proof fn lemma_press_sheriff_vote_abstain(g: GameView, s: usize, form: JsonView, start: usize)
    requires
        g.tried(g.players[s as int].open_id, ActionView::Elect(None), start) is Ok,
    ensures
        ({
            let id = g.players[s as int].open_id;
            let a = ActionView::Elect(None);
            let p = g.tried(id, a, start)->Ok_0;
            pressing(g, s, g.action_value(g.players[s as int].open_id, "wolf_sheriff_vote_abstain"@), form, start) == (p.0, p.0.done(id, a, p.1))
        }),
{
    let id = g.players[s as int].open_id;
    let sent = g.action_value(g.players[s as int].open_id, "wolf_sheriff_vote_abstain"@);
    lemma_plain(g, s, "wolf_sheriff_vote_abstain"@, form);
    lemma_wants_by_election(pressed(sent, form, sent.text_or_empty("action"@), id));
    lemma_press(g, s, sent, form, start, ActionView::Elect(None));
}

pub proof fn lemma_press_sheriff_dir_up(g: GameView, s: usize, form: JsonView, start: usize)
    requires
        g.tried(g.players[s as int].open_id, ActionView::Direction(true), start) is Ok,
    ensures
        ({
            let id = g.players[s as int].open_id;
            let a = ActionView::Direction(true);
            let p = g.tried(id, a, start)->Ok_0;
            pressing(g, s, g.action_value(g.players[s as int].open_id, "wolf_sheriff_dir_up"@), form, start) == (p.0, p.0.done(id, a, p.1))
        }),
{
    let id = g.players[s as int].open_id;
    let sent = g.action_value(g.players[s as int].open_id, "wolf_sheriff_dir_up"@);
    lemma_plain(g, s, "wolf_sheriff_dir_up"@, form);
    lemma_wants_by_election(pressed(sent, form, sent.text_or_empty("action"@), id));
    lemma_press(g, s, sent, form, start, ActionView::Direction(true));
}

pub proof fn lemma_press_sheriff_dir_down(g: GameView, s: usize, form: JsonView, start: usize)
    requires
        g.tried(g.players[s as int].open_id, ActionView::Direction(false), start) is Ok,
    ensures
        ({
            let id = g.players[s as int].open_id;
            let a = ActionView::Direction(false);
            let p = g.tried(id, a, start)->Ok_0;
            pressing(g, s, g.action_value(g.players[s as int].open_id, "wolf_sheriff_dir_down"@), form, start) == (p.0, p.0.done(id, a, p.1))
        }),
{
    let id = g.players[s as int].open_id;
    let sent = g.action_value(g.players[s as int].open_id, "wolf_sheriff_dir_down"@);
    lemma_plain(g, s, "wolf_sheriff_dir_down"@, form);
    lemma_wants_by_election(pressed(sent, form, sent.text_or_empty("action"@), id));
    lemma_press(g, s, sent, form, start, ActionView::Direction(false));
}

pub proof fn lemma_press_day_speech_submit(g: GameView, s: usize, form: JsonView, start: usize)
    requires
        g.tried(g.players[s as int].open_id, ActionView::DaySpeech(form.text_or_empty("speech"@)), start) is Ok,
    ensures
        ({
            let id = g.players[s as int].open_id;
            let a = ActionView::DaySpeech(form.text_or_empty("speech"@));
            let p = g.tried(id, a, start)->Ok_0;
            pressing(g, s, g.action_value(g.players[s as int].open_id, "wolf_day_speech_submit"@), form, start) == (p.0, p.0.done(id, a, p.1))
        }),
{
    let id = g.players[s as int].open_id;
    let sent = g.action_value(g.players[s as int].open_id, "wolf_day_speech_submit"@);
    lemma_plain(g, s, "wolf_day_speech_submit"@, form);
    lemma_wants_by_day(pressed(sent, form, sent.text_or_empty("action"@), id));
    lemma_press(g, s, sent, form, start, ActionView::DaySpeech(form.text_or_empty("speech"@)));
}

pub proof fn lemma_press_day_speech_skip(g: GameView, s: usize, form: JsonView, start: usize)
    requires
        g.tried(g.players[s as int].open_id, ActionView::DaySpeech(Seq::empty()), start) is Ok,
    ensures
        ({
            let id = g.players[s as int].open_id;
            let a = ActionView::DaySpeech(Seq::empty());
            let p = g.tried(id, a, start)->Ok_0;
            pressing(g, s, g.action_value(g.players[s as int].open_id, "wolf_day_speech_skip"@), form, start) == (p.0, p.0.done(id, a, p.1))
        }),
{
    let id = g.players[s as int].open_id;
    let sent = g.action_value(g.players[s as int].open_id, "wolf_day_speech_skip"@);
    lemma_plain(g, s, "wolf_day_speech_skip"@, form);
    lemma_wants_by_day(pressed(sent, form, sent.text_or_empty("action"@), id));
    lemma_press(g, s, sent, form, start, ActionView::DaySpeech(Seq::empty()));
}

pub proof fn lemma_press_last_words_submit(g: GameView, s: usize, form: JsonView, start: usize)
    requires
        g.tried(g.players[s as int].open_id, ActionView::LastWords(form.text_or_empty("speech"@)), start) is Ok,
    ensures
        ({
            let id = g.players[s as int].open_id;
            let a = ActionView::LastWords(form.text_or_empty("speech"@));
            let p = g.tried(id, a, start)->Ok_0;
            pressing(g, s, g.action_value(g.players[s as int].open_id, "wolf_last_words_submit"@), form, start) == (p.0, p.0.done(id, a, p.1))
        }),
{
    let id = g.players[s as int].open_id;
    let sent = g.action_value(g.players[s as int].open_id, "wolf_last_words_submit"@);
    lemma_plain(g, s, "wolf_last_words_submit"@, form);
    lemma_wants_by_day(pressed(sent, form, sent.text_or_empty("action"@), id));
    lemma_press(g, s, sent, form, start, ActionView::LastWords(form.text_or_empty("speech"@)));
}

pub proof fn lemma_press_last_words_skip(g: GameView, s: usize, form: JsonView, start: usize)
    requires
        g.tried(g.players[s as int].open_id, ActionView::LastWords(Seq::empty()), start) is Ok,
    ensures
        ({
            let id = g.players[s as int].open_id;
            let a = ActionView::LastWords(Seq::empty());
            let p = g.tried(id, a, start)->Ok_0;
            pressing(g, s, g.action_value(g.players[s as int].open_id, "wolf_last_words_skip"@), form, start) == (p.0, p.0.done(id, a, p.1))
        }),
{
    let id = g.players[s as int].open_id;
    let sent = g.action_value(g.players[s as int].open_id, "wolf_last_words_skip"@);
    lemma_plain(g, s, "wolf_last_words_skip"@, form);
    lemma_wants_by_day(pressed(sent, form, sent.text_or_empty("action"@), id));
    lemma_press(g, s, sent, form, start, ActionView::LastWords(Seq::empty()));
}

pub proof fn lemma_press_vote(g: GameView, s: usize, t: usize, form: JsonView, start: usize)
    requires
        g.tried(g.players[s as int].open_id, ActionView::Vote(Some(g.players[t as int].open_id)), start) is Ok,
    ensures
        ({
            let id = g.players[s as int].open_id;
            let a = ActionView::Vote(Some(g.players[t as int].open_id));
            let p = g.tried(id, a, start)->Ok_0;
            pressing(g, s, picking(g, g.players[s as int].open_id, "wolf_vote"@, t), form, start) == (p.0, p.0.done(id, a, p.1))
        }),
{
    let id = g.players[s as int].open_id;
    let sent = picking(g, g.players[s as int].open_id, "wolf_vote"@, t);
    lemma_picking(g, s, "wolf_vote"@, t, form);
    lemma_wants_by_day(pressed(sent, form, sent.text_or_empty("action"@), id));
    lemma_press(g, s, sent, form, start, ActionView::Vote(Some(g.players[t as int].open_id)));
}

pub proof fn lemma_press_vote_abstain(g: GameView, s: usize, form: JsonView, start: usize)
    requires
        g.tried(g.players[s as int].open_id, ActionView::Vote(None), start) is Ok,
    ensures
        ({
            let id = g.players[s as int].open_id;
            let a = ActionView::Vote(None);
            let p = g.tried(id, a, start)->Ok_0;
            pressing(g, s, g.action_value(g.players[s as int].open_id, "wolf_vote_abstain"@), form, start) == (p.0, p.0.done(id, a, p.1))
        }),
{
    let id = g.players[s as int].open_id;
    let sent = g.action_value(g.players[s as int].open_id, "wolf_vote_abstain"@);
    lemma_plain(g, s, "wolf_vote_abstain"@, form);
    lemma_wants_by_day(pressed(sent, form, sent.text_or_empty("action"@), id));
    lemma_press(g, s, sent, form, start, ActionView::Vote(None));
}

pub proof fn lemma_press_hunter_shoot(g: GameView, s: usize, t: usize, form: JsonView, start: usize)
    requires
        g.tried(g.players[s as int].open_id, ActionView::Shoot(Some(g.players[t as int].open_id)), start) is Ok,
    ensures
        ({
            let id = g.players[s as int].open_id;
            let a = ActionView::Shoot(Some(g.players[t as int].open_id));
            let p = g.tried(id, a, start)->Ok_0;
            pressing(g, s, picking(g, g.players[s as int].open_id, "wolf_hunter_shoot"@, t), form, start) == (p.0, p.0.done(id, a, p.1))
        }),
{
    let id = g.players[s as int].open_id;
    let sent = picking(g, g.players[s as int].open_id, "wolf_hunter_shoot"@, t);
    lemma_picking(g, s, "wolf_hunter_shoot"@, t, form);
    lemma_wants_by_day(pressed(sent, form, sent.text_or_empty("action"@), id));
    lemma_press(g, s, sent, form, start, ActionView::Shoot(Some(g.players[t as int].open_id)));
}

pub proof fn lemma_press_hunter_skip(g: GameView, s: usize, form: JsonView, start: usize)
    requires
        g.tried(g.players[s as int].open_id, ActionView::Shoot(None), start) is Ok,
    ensures
        ({
            let id = g.players[s as int].open_id;
            let a = ActionView::Shoot(None);
            let p = g.tried(id, a, start)->Ok_0;
            pressing(g, s, g.action_value(g.players[s as int].open_id, "wolf_hunter_skip"@), form, start) == (p.0, p.0.done(id, a, p.1))
        }),
{
    let id = g.players[s as int].open_id;
    let sent = g.action_value(g.players[s as int].open_id, "wolf_hunter_skip"@);
    lemma_plain(g, s, "wolf_hunter_skip"@, form);
    lemma_wants_by_day(pressed(sent, form, sent.text_or_empty("action"@), id));
    lemma_press(g, s, sent, form, start, ActionView::Shoot(None));
}

pub proof fn lemma_press_badge_pass(g: GameView, s: usize, t: usize, form: JsonView, start: usize)
    requires
        g.tried(g.players[s as int].open_id, ActionView::Badge(Some(g.players[t as int].open_id)), start) is Ok,
    ensures
        ({
            let id = g.players[s as int].open_id;
            let a = ActionView::Badge(Some(g.players[t as int].open_id));
            let p = g.tried(id, a, start)->Ok_0;
            pressing(g, s, picking(g, g.players[s as int].open_id, "wolf_badge_pass"@, t), form, start) == (p.0, p.0.done(id, a, p.1))
        }),
{
    let id = g.players[s as int].open_id;
    let sent = picking(g, g.players[s as int].open_id, "wolf_badge_pass"@, t);
    lemma_picking(g, s, "wolf_badge_pass"@, t, form);
    lemma_wants_by_day(pressed(sent, form, sent.text_or_empty("action"@), id));
    lemma_press(g, s, sent, form, start, ActionView::Badge(Some(g.players[t as int].open_id)));
}

pub proof fn lemma_press_badge_destroy(g: GameView, s: usize, form: JsonView, start: usize)
    requires
        g.tried(g.players[s as int].open_id, ActionView::Badge(None), start) is Ok,
    ensures
        ({
            let id = g.players[s as int].open_id;
            let a = ActionView::Badge(None);
            let p = g.tried(id, a, start)->Ok_0;
            pressing(g, s, g.action_value(g.players[s as int].open_id, "wolf_badge_destroy"@), form, start) == (p.0, p.0.done(id, a, p.1))
        }),
{
    let id = g.players[s as int].open_id;
    let sent = g.action_value(g.players[s as int].open_id, "wolf_badge_destroy"@);
    lemma_plain(g, s, "wolf_badge_destroy"@, form);
    lemma_wants_by_day(pressed(sent, form, sent.text_or_empty("action"@), id));
    lemma_press(g, s, sent, form, start, ActionView::Badge(None));
}

pub proof fn lemma_press_self_explode(g: GameView, s: usize, form: JsonView, start: usize)
    requires
        g.tried(g.players[s as int].open_id, ActionView::Explode, start) is Ok,
    ensures
        ({
            let id = g.players[s as int].open_id;
            let a = ActionView::Explode;
            let p = g.tried(id, a, start)->Ok_0;
            pressing(g, s, g.action_value(g.players[s as int].open_id, "wolf_self_explode"@), form, start) == (p.0, p.0.done(id, a, p.1))
        }),
{
    let id = g.players[s as int].open_id;
    let sent = g.action_value(g.players[s as int].open_id, "wolf_self_explode"@);
    lemma_plain(g, s, "wolf_self_explode"@, form);
    lemma_wants_by_day(pressed(sent, form, sent.text_or_empty("action"@), id));
    lemma_press(g, s, sent, form, start, ActionView::Explode);
}

proof fn lemma_guard_button(g: GameView, s: usize, t: usize)
    requires
        g.players.len() <= usize::MAX,
        t < g.players.len(),
        g.players[t as int].alive,
        g.last_guard_target != Some(t),
    ensures
        has_button(
            g.guard_card(g.players[s as int]),
            g.players[t as int].name,
            picking(g, g.players[s as int].open_id, "wolf_guard_pick"@, t),
        ),
        has_button(
            g.guard_card(g.players[s as int]),
            "空守"@,
            g.action_value(g.players[s as int].open_id, "wolf_guard_skip"@),
        ),
{
    let p = g.players[s as int];
    let c = g.guard_card(p);
    let head = c->Object_0[2].1;
    let parts = c->Object_0[3].1->Object_0[3].1->List_0;
    let targets = indices_where(g.players.len(), g.may_guard());
    lemma_indices_where(g.players.len(), g.may_guard());
    assert((g.may_guard())(t as int));
    let grid = g.target_grid(p.open_id, "wolf_guard_pick"@, targets, "primary"@);
    let n = parts.len() as int;
    let before = parts.take(n - 2 - grid.len());
    let after = parts.skip(n - 2);
    assert(parts =~= before + grid + after);
    assert(c == card_view(head, parts));
    lemma_grid_button(g, head, before, after, p.open_id, "wolf_guard_pick"@, targets, "primary"@, t);
    let v = g.action_value(p.open_id, "wolf_guard_skip"@);
    let row = seq![button_view("空守"@, v, "default"@)];
    lemma_row_button(head, parts, n - 2, row, 0, "空守"@, v, "default"@);
}

/// The guard is handed a button for everybody whom the guard may protect, which does so, and
/// one that protects nobody.
pub proof fn law_guard_button(g: GameView, s: usize, t: usize, form: JsonView, start: usize)
    requires
        g.wf(),
        g.stage == Stage::GuardPick,
        s < g.players.len(),
        t < g.players.len(),
        g.players[s as int].role == Some(Role::Guard),
        g.players[s as int].alive,
        g.players[t as int].alive,
        g.last_guard_target != Some(t),
    ensures
        exists|sent: JsonView| #[trigger]
            has_button(g.guard_card(g.players[s as int]), g.players[t as int].name, sent)
                && pressing(g, s, sent, form, start).0.guard_target == Some(t),
        exists|sent: JsonView| #[trigger]
            has_button(g.guard_card(g.players[s as int]), "空守"@, sent) && pressing(
                g,
                s,
                sent,
                form,
                start,
            ).0.guard_target is None,
{
    lemma_guard_button(g, s, t);
    law_guard_protects(g, s, t);
    law_guard_passes(g, s);
    lemma_press_guard_pick(g, s, t, form, start);
    lemma_press_guard_skip(g, s, form, start);
}

proof fn lemma_wolf_grid(g: GameView, s: usize, t: usize, id: Seq<char>)
    requires
        g.wf(),
        s < g.players.len(),
        t < g.players.len(),
        g.players[t as int].alive,
    ensures
        has_button(
            g.wolf_card(g.players[s as int], id),
            g.players[t as int].name,
            picking(g, g.players[s as int].open_id, "wolf_kill"@, t),
        ),
{
    let p = g.players[s as int];
    let c = g.wolf_card(g.players[s as int], id);
    let head = c->Object_0[2].1;
    let parts = c->Object_0[3].1->Object_0[3].1->List_0;
    let targets = g.alive_seats();
    lemma_indices_where(g.players.len(), g.living());
    assert((g.living())(t as int));
    let grid = g.target_grid(p.open_id, "wolf_kill"@, targets, "danger"@);
    let n = parts.len() as int;
    let before = parts.take(n - 2 - grid.len());
    let after = parts.skip(n - 2);
    assert(parts =~= before + grid + after);
    assert(c == card_view(head, parts));
    lemma_grid_button(g, head, before, after, p.open_id, "wolf_kill"@, targets, "danger"@, t);
}

proof fn lemma_seer_grid(g: GameView, s: usize, t: usize)
    requires
        g.wf(),
        s < g.players.len(),
        t < g.players.len(),
        g.players[t as int].alive,
        t != s,
    ensures
        has_button(
            g.seer_card(g.players[s as int]),
            g.players[t as int].name,
            picking(g, g.players[s as int].open_id, "wolf_seer_check"@, t),
        ),
{
    let p = g.players[s as int];
    let c = g.seer_card(g.players[s as int]);
    let head = c->Object_0[2].1;
    let parts = c->Object_0[3].1->Object_0[3].1->List_0;
    let targets = g.others_alive(p.open_id);
    law_seat_of(g, s);
    law_seat_of(g, t);
    lemma_indices_where(g.players.len(), g.other_living(p.open_id));
    assert((g.other_living(p.open_id))(t as int));
    let grid = g.target_grid(p.open_id, "wolf_seer_check"@, targets, "primary"@);
    let n = parts.len() as int;
    let before = parts.take(n - 1 - grid.len());
    let after = parts.skip(n - 1);
    assert(parts =~= before + grid + after);
    assert(c == card_view(head, parts));
    lemma_grid_button(g, head, before, after, p.open_id, "wolf_seer_check"@, targets, "primary"@, t);
}

proof fn lemma_witch_grid(g: GameView, s: usize, t: usize)
    requires
        g.wf(),
        s < g.players.len(),
        t < g.players.len(),
        g.players[t as int].alive,
        t != s,
        !g.witch_poison_used,
    ensures
        has_button(
            g.witch_card(g.players[s as int]),
            g.players[t as int].name,
            picking(g, g.players[s as int].open_id, "wolf_witch_poison"@, t),
        ),
{
    let p = g.players[s as int];
    let c = g.witch_card(g.players[s as int]);
    let head = c->Object_0[2].1;
    let parts = c->Object_0[3].1->Object_0[3].1->List_0;
    let targets = g.others_alive(p.open_id);
    law_seat_of(g, s);
    law_seat_of(g, t);
    lemma_indices_where(g.players.len(), g.other_living(p.open_id));
    assert((g.other_living(p.open_id))(t as int));
    let grid = g.target_grid(p.open_id, "wolf_witch_poison"@, targets, "danger"@);
    let n = parts.len() as int;
    let before = parts.take(n - 1 - grid.len());
    let after = parts.skip(n - 1);
    assert(parts =~= before + grid + after);
    assert(c == card_view(head, parts));
    lemma_grid_button(g, head, before, after, p.open_id, "wolf_witch_poison"@, targets, "danger"@, t);
}

proof fn lemma_election_grid(g: GameView, s: usize, t: usize)
    requires
        g.wf(),
        s < g.players.len(),
        t < g.players.len(),
        g.candidates().contains(t),
    ensures
        has_button(
            g.election_card(g.players[s as int]),
            g.players[t as int].name,
            picking(g, g.players[s as int].open_id, "wolf_sheriff_vote"@, t),
        ),
{
    let p = g.players[s as int];
    let c = g.election_card(g.players[s as int]);
    let head = c->Object_0[2].1;
    let parts = c->Object_0[3].1->Object_0[3].1->List_0;
    let targets = g.candidates();
    let grid = g.target_grid(p.open_id, "wolf_sheriff_vote"@, targets, "primary"@);
    let n = parts.len() as int;
    let before = parts.take(n - 2 - grid.len());
    let after = parts.skip(n - 2);
    assert(parts =~= before + grid + after);
    assert(c == card_view(head, parts));
    lemma_grid_button(g, head, before, after, p.open_id, "wolf_sheriff_vote"@, targets, "primary"@, t);
}

proof fn lemma_vote_grid(g: GameView, s: usize, t: usize)
    requires
        g.wf(),
        s < g.players.len(),
        t < g.players.len(),
        g.players[t as int].alive,
        t != s,
    ensures
        has_button(
            g.vote_card(g.players[s as int]),
            g.players[t as int].name,
            picking(g, g.players[s as int].open_id, "wolf_vote"@, t),
        ),
{
    let p = g.players[s as int];
    let c = g.vote_card(g.players[s as int]);
    let head = c->Object_0[2].1;
    let parts = c->Object_0[3].1->Object_0[3].1->List_0;
    let targets = g.others_alive(p.open_id);
    law_seat_of(g, s);
    law_seat_of(g, t);
    lemma_indices_where(g.players.len(), g.other_living(p.open_id));
    assert((g.other_living(p.open_id))(t as int));
    let grid = g.target_grid(p.open_id, "wolf_vote"@, targets, "primary"@);
    let n = parts.len() as int;
    let before = parts.take(n - 2 - grid.len());
    let after = parts.skip(n - 2);
    assert(parts =~= before + grid + after);
    assert(c == card_view(head, parts));
    lemma_grid_button(g, head, before, after, p.open_id, "wolf_vote"@, targets, "primary"@, t);
}

proof fn lemma_shooter_grid(g: GameView, s: usize, t: usize)
    requires
        g.wf(),
        s < g.players.len(),
        t < g.players.len(),
        g.players[t as int].alive,
        t != s,
    ensures
        has_button(
            g.shooter_card(g.players[s as int]),
            g.players[t as int].name,
            picking(g, g.players[s as int].open_id, "wolf_hunter_shoot"@, t),
        ),
{
    let p = g.players[s as int];
    let c = g.shooter_card(g.players[s as int]);
    let head = c->Object_0[2].1;
    let parts = c->Object_0[3].1->Object_0[3].1->List_0;
    let targets = g.others_alive(p.open_id);
    law_seat_of(g, s);
    law_seat_of(g, t);
    lemma_indices_where(g.players.len(), g.other_living(p.open_id));
    assert((g.other_living(p.open_id))(t as int));
    let grid = g.target_grid(p.open_id, "wolf_hunter_shoot"@, targets, "danger"@);
    let n = parts.len() as int;
    let before = parts.take(n - 2 - grid.len());
    let after = parts.skip(n - 2);
    assert(parts =~= before + grid + after);
    assert(c == card_view(head, parts));
    lemma_grid_button(g, head, before, after, p.open_id, "wolf_hunter_shoot"@, targets, "danger"@, t);
}

proof fn lemma_badge_grid(g: GameView, s: usize, t: usize)
    requires
        g.wf(),
        s < g.players.len(),
        t < g.players.len(),
        g.players[t as int].alive,
        t != s,
    ensures
        has_button(
            g.badge_card(g.players[s as int]),
            g.players[t as int].name,
            picking(g, g.players[s as int].open_id, "wolf_badge_pass"@, t),
        ),
{
    let p = g.players[s as int];
    let c = g.badge_card(g.players[s as int]);
    let head = c->Object_0[2].1;
    let parts = c->Object_0[3].1->Object_0[3].1->List_0;
    let targets = g.others_alive(p.open_id);
    law_seat_of(g, s);
    law_seat_of(g, t);
    lemma_indices_where(g.players.len(), g.other_living(p.open_id));
    assert((g.other_living(p.open_id))(t as int));
    let grid = g.target_grid(p.open_id, "wolf_badge_pass"@, targets, "primary"@);
    let n = parts.len() as int;
    let before = parts.take(n - 2 - grid.len());
    let after = parts.skip(n - 2);
    assert(parts =~= before + grid + after);
    assert(c == card_view(head, parts));
    lemma_grid_button(g, head, before, after, p.open_id, "wolf_badge_pass"@, targets, "primary"@, t);
}

proof fn lemma_witch_row_save(g: GameView, s: usize)
    requires
        !g.witch_save_used,
        g.night_victim is Some,
    ensures
        has_button(
            g.witch_card(g.players[s as int]),
            "💊 救"@,
            g.action_value(g.players[s as int].open_id, "wolf_witch_save"@),
        ),
        has_button(
            g.witch_card(g.players[s as int]),
            "跳过"@,
            g.action_value(g.players[s as int].open_id, "wolf_witch_skip"@),
        ),
{
    let me = g.players[s as int].open_id;
    let c = g.witch_card(g.players[s as int]);
    let head = c->Object_0[2].1;
    let parts = c->Object_0[3].1->Object_0[3].1->List_0;
    let n = parts.len() as int;
    assert(c == card_view(head, parts));
    let row = seq![button_view("💊 救"@, g.action_value(me, "wolf_witch_save"@), "primary"@), button_view("跳过"@, g.action_value(me, "wolf_witch_skip"@), "default"@)];
    lemma_row_button(
        head,
        parts,
        2,
        row,
        0,
        "💊 救"@,
        g.action_value(me, "wolf_witch_save"@),
        "primary"@,
    );
    lemma_row_button(
        head,
        parts,
        2,
        row,
        1,
        "跳过"@,
        g.action_value(me, "wolf_witch_skip"@),
        "default"@,
    );
}

proof fn lemma_witch_row_skip(g: GameView, s: usize)
    requires
        g.witch_save_used || g.night_victim is None,
    ensures
        has_button(
            g.witch_card(g.players[s as int]),
            "跳过"@,
            g.action_value(g.players[s as int].open_id, "wolf_witch_skip"@),
        ),
{
    let me = g.players[s as int].open_id;
    let c = g.witch_card(g.players[s as int]);
    let head = c->Object_0[2].1;
    let parts = c->Object_0[3].1->Object_0[3].1->List_0;
    let n = parts.len() as int;
    assert(c == card_view(head, parts));
    let row = seq![button_view("跳过"@, g.action_value(me, "wolf_witch_skip"@), "default"@)];
    lemma_row_button(
        head,
        parts,
        2,
        row,
        0,
        "跳过"@,
        g.action_value(me, "wolf_witch_skip"@),
        "default"@,
    );
}

proof fn lemma_nominate_row(g: GameView, s: usize)
    ensures
        has_button(
            g.nominate_card(g.players[s as int]),
            "🎖️ 上警"@,
            g.action_value(g.players[s as int].open_id, "wolf_sheriff_run"@),
        ),
        has_button(
            g.nominate_card(g.players[s as int]),
            "不上警"@,
            g.action_value(g.players[s as int].open_id, "wolf_sheriff_skip"@),
        ),
{
    let me = g.players[s as int].open_id;
    let c = g.nominate_card(g.players[s as int]);
    let head = c->Object_0[2].1;
    let parts = c->Object_0[3].1->Object_0[3].1->List_0;
    let n = parts.len() as int;
    assert(c == card_view(head, parts));
    let row = seq![button_view("🎖️ 上警"@, g.action_value(me, "wolf_sheriff_run"@), "primary"@), button_view("不上警"@, g.action_value(me, "wolf_sheriff_skip"@), "default"@)];
    lemma_row_button(
        head,
        parts,
        1,
        row,
        0,
        "🎖️ 上警"@,
        g.action_value(me, "wolf_sheriff_run"@),
        "primary"@,
    );
    lemma_row_button(
        head,
        parts,
        1,
        row,
        1,
        "不上警"@,
        g.action_value(me, "wolf_sheriff_skip"@),
        "default"@,
    );
}

proof fn lemma_withdraw_row(g: GameView, s: usize)
    ensures
        has_button(
            g.withdraw_card(g.players[s as int]),
            "🎖️ 继续参选"@,
            g.action_value(g.players[s as int].open_id, "wolf_sheriff_stay"@),
        ),
        has_button(
            g.withdraw_card(g.players[s as int]),
            "💧 退水"@,
            g.action_value(g.players[s as int].open_id, "wolf_sheriff_withdraw"@),
        ),
{
    let me = g.players[s as int].open_id;
    let c = g.withdraw_card(g.players[s as int]);
    let head = c->Object_0[2].1;
    let parts = c->Object_0[3].1->Object_0[3].1->List_0;
    let n = parts.len() as int;
    assert(c == card_view(head, parts));
    let row = seq![button_view("🎖️ 继续参选"@, g.action_value(me, "wolf_sheriff_stay"@), "primary"@), button_view("💧 退水"@, g.action_value(me, "wolf_sheriff_withdraw"@), "default"@)];
    lemma_row_button(
        head,
        parts,
        1,
        row,
        0,
        "🎖️ 继续参选"@,
        g.action_value(me, "wolf_sheriff_stay"@),
        "primary"@,
    );
    lemma_row_button(
        head,
        parts,
        1,
        row,
        1,
        "💧 退水"@,
        g.action_value(me, "wolf_sheriff_withdraw"@),
        "default"@,
    );
}

proof fn lemma_direction_row(g: GameView, s: usize)
    ensures
        has_button(
            g.direction_card(g.players[s as int]),
            "🔁 警上"@,
            g.action_value(g.players[s as int].open_id, "wolf_sheriff_dir_up"@),
        ),
        has_button(
            g.direction_card(g.players[s as int]),
            "🔃 警下"@,
            g.action_value(g.players[s as int].open_id, "wolf_sheriff_dir_down"@),
        ),
{
    let me = g.players[s as int].open_id;
    let c = g.direction_card(g.players[s as int]);
    let head = c->Object_0[2].1;
    let parts = c->Object_0[3].1->Object_0[3].1->List_0;
    let n = parts.len() as int;
    assert(c == card_view(head, parts));
    let row = seq![button_view("🔁 警上"@, g.action_value(me, "wolf_sheriff_dir_up"@), "primary_filled"@), button_view("🔃 警下"@, g.action_value(me, "wolf_sheriff_dir_down"@), "primary"@)];
    lemma_row_button(
        head,
        parts,
        1,
        row,
        0,
        "🔁 警上"@,
        g.action_value(me, "wolf_sheriff_dir_up"@),
        "primary_filled"@,
    );
    lemma_row_button(
        head,
        parts,
        1,
        row,
        1,
        "🔃 警下"@,
        g.action_value(me, "wolf_sheriff_dir_down"@),
        "primary"@,
    );
}

proof fn lemma_explode_row(g: GameView, s: usize)
    ensures
        has_button(
            g.explode_card(g.players[s as int]),
            "💥 自爆"@,
            g.action_value(g.players[s as int].open_id, "wolf_self_explode"@),
        ),
{
    let me = g.players[s as int].open_id;
    let c = g.explode_card(g.players[s as int]);
    let head = c->Object_0[2].1;
    let parts = c->Object_0[3].1->Object_0[3].1->List_0;
    let n = parts.len() as int;
    assert(c == card_view(head, parts));
    let row = seq![button_view("💥 自爆"@, g.action_value(me, "wolf_self_explode"@), "danger"@)];
    lemma_row_button(
        head,
        parts,
        1,
        row,
        0,
        "💥 自爆"@,
        g.action_value(me, "wolf_self_explode"@),
        "danger"@,
    );
}

proof fn lemma_election_row(g: GameView, s: usize)
    ensures
        has_button(
            g.election_card(g.players[s as int]),
            "弃权"@,
            g.action_value(g.players[s as int].open_id, "wolf_sheriff_vote_abstain"@),
        ),
{
    let me = g.players[s as int].open_id;
    let c = g.election_card(g.players[s as int]);
    let head = c->Object_0[2].1;
    let parts = c->Object_0[3].1->Object_0[3].1->List_0;
    let n = parts.len() as int;
    assert(c == card_view(head, parts));
    let row = seq![button_view("弃权"@, g.action_value(me, "wolf_sheriff_vote_abstain"@), "default"@)];
    lemma_row_button(
        head,
        parts,
        n - 2,
        row,
        0,
        "弃权"@,
        g.action_value(me, "wolf_sheriff_vote_abstain"@),
        "default"@,
    );
}

proof fn lemma_vote_row(g: GameView, s: usize)
    ensures
        has_button(
            g.vote_card(g.players[s as int]),
            "弃权"@,
            g.action_value(g.players[s as int].open_id, "wolf_vote_abstain"@),
        ),
{
    let me = g.players[s as int].open_id;
    let c = g.vote_card(g.players[s as int]);
    let head = c->Object_0[2].1;
    let parts = c->Object_0[3].1->Object_0[3].1->List_0;
    let n = parts.len() as int;
    assert(c == card_view(head, parts));
    let row = seq![button_view("弃权"@, g.action_value(me, "wolf_vote_abstain"@), "default"@)];
    lemma_row_button(
        head,
        parts,
        n - 2,
        row,
        0,
        "弃权"@,
        g.action_value(me, "wolf_vote_abstain"@),
        "default"@,
    );
}

proof fn lemma_shooter_row(g: GameView, s: usize)
    ensures
        has_button(
            g.shooter_card(g.players[s as int]),
            "不开枪"@,
            g.action_value(g.players[s as int].open_id, "wolf_hunter_skip"@),
        ),
{
    let me = g.players[s as int].open_id;
    let c = g.shooter_card(g.players[s as int]);
    let head = c->Object_0[2].1;
    let parts = c->Object_0[3].1->Object_0[3].1->List_0;
    let n = parts.len() as int;
    assert(c == card_view(head, parts));
    let row = seq![button_view("不开枪"@, g.action_value(me, "wolf_hunter_skip"@), "default"@)];
    lemma_row_button(
        head,
        parts,
        n - 2,
        row,
        0,
        "不开枪"@,
        g.action_value(me, "wolf_hunter_skip"@),
        "default"@,
    );
}

proof fn lemma_badge_row(g: GameView, s: usize)
    ensures
        has_button(
            g.badge_card(g.players[s as int]),
            "✂️ 撕毁警徽"@,
            g.action_value(g.players[s as int].open_id, "wolf_badge_destroy"@),
        ),
{
    let me = g.players[s as int].open_id;
    let c = g.badge_card(g.players[s as int]);
    let head = c->Object_0[2].1;
    let parts = c->Object_0[3].1->Object_0[3].1->List_0;
    let n = parts.len() as int;
    assert(c == card_view(head, parts));
    let row = seq![button_view("✂️ 撕毁警徽"@, g.action_value(me, "wolf_badge_destroy"@), "danger"@)];
    lemma_row_button(
        head,
        parts,
        n - 2,
        row,
        0,
        "✂️ 撕毁警徽"@,
        g.action_value(me, "wolf_badge_destroy"@),
        "danger"@,
    );
}

/// A wolf is handed a button for everybody alive, which picks that player.
pub proof fn law_wolf_button(
    g: GameView,
    s: usize,
    t: usize,
    id: Seq<char>,
    form: JsonView,
    start: usize,
)
    requires
        g.wf(),
        g.stage == Stage::WolvesPick,
        s < g.players.len(),
        t < g.players.len(),
        wolf_role(g.players[s as int].role),
        g.players[s as int].alive,
        g.players[t as int].alive,
        !g.wolf_ready.contains(s),
    ensures
        exists|sent: JsonView| #[trigger]
            has_button(g.wolf_card(g.players[s as int], id), g.players[t as int].name, sent) && ({
                let r = pressing(g, s, sent, form, start);
                get_key(r.0.wolf_kill_votes, s) == Some(t)
            }),
{
    lemma_wolf_grid(g, s, t, id);
    law_wolf_picks(g, s, t, s);
    lemma_press_kill(g, s, t, form, start);
}

/// The seer is handed a button for everybody else alive, which checks that player and enters the
/// player's side among the checks.
pub proof fn law_seer_button(g: GameView, s: usize, t: usize, form: JsonView, start: usize)
    requires
        g.wf(),
        g.stage == Stage::SeerPick,
        s < g.players.len(),
        t < g.players.len(),
        g.players[s as int].role == Some(Role::Seer),
        g.players[s as int].alive,
        g.players[t as int].alive,
        t != s,
    ensures
        exists|sent: JsonView| #[trigger]
            has_button(g.seer_card(g.players[s as int]), g.players[t as int].name, sent) && ({
                let r = pressing(g, s, sent, form, start);
                r.0.seer_history.len() > 0 && r.0.seer_history.last().target_idx == t
                    && r.0.seer_history.last().is_wolf == wolf_role(g.players[t as int].role)
            }),
{
    lemma_seer_grid(g, s, t);
    law_seer_learns_the_side(g, s, t);
    lemma_press_seer_check(g, s, t, form, start);
}

/// While she has the poison, the witch is handed a button for everybody else alive, which kills
/// that player.
pub proof fn law_witch_poison_button(g: GameView, s: usize, t: usize, form: JsonView, start: usize)
    requires
        g.wf(),
        g.stage == Stage::WitchAct,
        s < g.players.len(),
        t < g.players.len(),
        g.players[s as int].role == Some(Role::Witch),
        g.players[s as int].alive,
        g.players[t as int].alive,
        t != s,
        !g.witch_poison_used,
    ensures
        exists|sent: JsonView| #[trigger]
            has_button(g.witch_card(g.players[s as int]), g.players[t as int].name, sent) && ({
                let r = pressing(g, s, sent, form, start);
                !r.0.players[t as int].alive && r.0.witch_poison_used
            }),
{
    lemma_witch_grid(g, s, t);
    law_witch_decides(g, s, false, Some(t), t);
    lemma_press_witch_poison(g, s, t, form, start);
}

/// While she has the antidote and somebody is attacked, the witch is handed a button that saves
/// the attacked, who lives then if the guard does not stand there too.
pub proof fn law_witch_save_button(g: GameView, s: usize, t: usize, form: JsonView, start: usize)
    requires
        g.wf(),
        g.stage == Stage::WitchAct,
        s < g.players.len(),
        t < g.players.len(),
        g.players[s as int].role == Some(Role::Witch),
        g.players[s as int].alive,
        g.night_victim == Some(t),
        g.guard_target != Some(t),
        g.players[t as int].alive,
        !g.witch_save_used,
    ensures
        exists|sent: JsonView| #[trigger]
            has_button(g.witch_card(g.players[s as int]), "💊 救"@, sent) && ({
                let r = pressing(g, s, sent, form, start);
                r.0.players[t as int].alive && r.0.witch_save_used
            }),
{
    lemma_witch_row_save(g, s);
    law_witch_decides(g, s, true, None, t);
    lemma_press_witch_save(g, s, form, start);
}

/// The witch is handed a button with which she uses nothing, so that the attacked dies whom
/// nobody guards.
pub proof fn law_witch_skip_button(g: GameView, s: usize, t: usize, form: JsonView, start: usize)
    requires
        g.wf(),
        g.stage == Stage::WitchAct,
        s < g.players.len(),
        t < g.players.len(),
        g.players[s as int].role == Some(Role::Witch),
        g.players[s as int].alive,
        g.night_victim == Some(t),
        g.guard_target != Some(t),
    ensures
        exists|sent: JsonView| #[trigger]
            has_button(g.witch_card(g.players[s as int]), "跳过"@, sent) && ({
                let r = pressing(g, s, sent, form, start);
                !r.0.players[t as int].alive && r.0.witch_save_used == g.witch_save_used
                    && r.0.witch_poison_used == g.witch_poison_used
            }),
{
    if g.witch_save_used {
        lemma_witch_row_skip(g, s);
    } else {
        lemma_witch_row_save(g, s);
    }
    law_witch_decides(g, s, false, None, t);
    lemma_press_witch_skip(g, s, form, start);
}

/// Everybody is handed a button to run for sheriff and one not to.
pub proof fn law_nominate_buttons(g: GameView, s: usize, form: JsonView, start: usize)
    requires
        g.wf(),
        g.stage == Stage::SheriffNominate,
        s < g.players.len(),
        g.players[s as int].alive,
    ensures
        exists|sent: JsonView| #[trigger]
            has_button(g.nominate_card(g.players[s as int]), "🎖️ 上警"@, sent) && ({
                let r = pressing(g, s, sent, form, start);
                get_key(r.0.sheriff_nominations, s) == Some(true) && r.1.toast == Some("已上警"@)
            }),
        exists|sent: JsonView| #[trigger]
            has_button(g.nominate_card(g.players[s as int]), "不上警"@, sent) && ({
                let r = pressing(g, s, sent, form, start);
                get_key(r.0.sheriff_nominations, s) == Some(false) && r.1.toast == Some("未上警"@)
            }),
{
    lemma_nominate_row(g, s);
    law_who_may_run(g, s, true, s);
    law_who_may_run(g, s, false, s);
    lemma_press_sheriff_run(g, s, form, start);
    lemma_press_sheriff_skip(g, s, form, start);
}

/// The candidate whose turn it is has a button to stay a candidate and one to withdraw.
pub proof fn law_withdraw_buttons(g: GameView, k: int, form: JsonView, start: usize)
    requires
        g.wf(),
        g.stage == Stage::SheriffWithdraw,
        0 <= k < g.sheriff_original_candidates.len(),
        forall|j: int|
            0 <= j < k ==> has_decided(g, #[trigger] g.sheriff_original_candidates[j]),
        !has_decided(g, g.sheriff_original_candidates[k]),
    ensures
        exists|sent: JsonView| #[trigger]
            has_button(g.withdraw_card(g.players[g.sheriff_original_candidates[k] as int]), "🎖️ 继续参选"@, sent) && ({
                let s = g.sheriff_original_candidates[k];
                let r = pressing(g, s, sent, form, start);
                r.0.sheriff_nominations == g.sheriff_nominations && has_decided(r.0, s) && r.1.toast
                    == Some("继续参选"@)
            }),
        exists|sent: JsonView| #[trigger]
            has_button(g.withdraw_card(g.players[g.sheriff_original_candidates[k] as int]), "💧 退水"@, sent) && ({
                let s = g.sheriff_original_candidates[k];
                let r = pressing(g, s, sent, form, start);
                !says_yes(r.0.sheriff_nominations, s) && has_decided(r.0, s) && r.1.toast == Some(
                    "已退水"@,
                )
            }),
{
    let s = g.sheriff_original_candidates[k];
    lemma_withdraw_row(g, s);
    law_candidate_stays_or_withdraws(g, k, true, s);
    law_candidate_stays_or_withdraws(g, k, false, s);
    lemma_press_sheriff_stay(g, s, form, start);
    lemma_press_sheriff_withdraw(g, s, form, start);
}

/// Everybody who may vote in the election is handed a button for every candidate, and one to
/// abstain.
pub proof fn law_election_buttons(g: GameView, s: usize, t: usize, form: JsonView, start: usize)
    requires
        g.wf(),
        g.stage == Stage::SheriffVote,
        g.sheriff_vote_round == 0,
        s < g.players.len(),
        t < g.players.len(),
        g.players[s as int].alive,
        !g.sheriff_original_candidates.contains(s),
        says_yes(g.sheriff_nominations, t),
    ensures
        exists|sent: JsonView| #[trigger]
            has_button(g.election_card(g.players[s as int]), g.players[t as int].name, sent) && ({
                let r = pressing(g, s, sent, form, start);
                get_key(r.0.sheriff_votes, s) == Some(Some(t))
            }),
        exists|sent: JsonView| #[trigger]
            has_button(g.election_card(g.players[s as int]), "弃权"@, sent) && ({
                let r = pressing(g, s, sent, form, start);
                get_key(r.0.sheriff_votes, s) == Some(None::<usize>)
            }),
{
    law_running_are_those_who_said_so(g.sheriff_nominations, t);
    lemma_election_grid(g, s, t);
    lemma_election_row(g, s);
    law_election_vote(g, s, Some(t), s);
    law_election_vote(g, s, None, s);
    lemma_press_sheriff_vote(g, s, t, form, start);
    lemma_press_sheriff_vote_abstain(g, s, form, start);
}

/// Every living player is handed a button for every other, which votes for that player, and one
/// to abstain.
pub proof fn law_vote_buttons(g: GameView, s: usize, t: usize, form: JsonView, start: usize)
    requires
        g.wf(),
        g.stage == Stage::DayVote,
        g.day_vote_round == 0,
        s < g.players.len(),
        t < g.players.len(),
        g.players[s as int].alive,
        g.players[t as int].alive,
        t != s,
    ensures
        exists|sent: JsonView| #[trigger]
            has_button(g.vote_card(g.players[s as int]), g.players[t as int].name, sent) && ({
                let r = pressing(g, s, sent, form, start);
                get_key(r.0.day_votes, s) == Some(Some(t)) && r.1.toast == Some("已投票"@)
            }),
        exists|sent: JsonView| #[trigger]
            has_button(g.vote_card(g.players[s as int]), "弃权"@, sent) && ({
                let r = pressing(g, s, sent, form, start);
                get_key(r.0.day_votes, s) == Some(None::<usize>) && r.1.toast == Some("已弃权"@)
            }),
{
    lemma_vote_grid(g, s, t);
    lemma_vote_row(g, s);
    law_day_vote(g, s, Some(t), s);
    law_day_vote(g, s, None, s);
    lemma_press_vote(g, s, t, form, start);
    lemma_press_vote_abstain(g, s, form, start);
}

/// Who may shoot is handed a button for everybody else alive, which kills that player, and one
/// to hold fire, which kills nobody.
pub proof fn law_shot_buttons(g: GameView, s: usize, t: usize, form: JsonView, start: usize)
    requires
        g.wf(),
        g.stage == Stage::HunterShoot,
        s < g.players.len(),
        t < g.players.len(),
        g.pending_hunter == Some(s),
        g.players[t as int].alive,
        t != s,
    ensures
        exists|sent: JsonView| #[trigger]
            has_button(g.shooter_card(g.players[s as int]), g.players[t as int].name, sent) && ({
                let r = pressing(g, s, sent, form, start);
                !r.0.players[t as int].alive
            }),
        exists|sent: JsonView| #[trigger]
            has_button(g.shooter_card(g.players[s as int]), "不开枪"@, sent) && ({
                let r = pressing(g, s, sent, form, start);
                r.0.players[t as int].alive
            }),
{
    lemma_shooter_grid(g, s, t);
    lemma_shooter_row(g, s);
    law_shot(g, s, Some(t), start, t);
    law_shot(g, s, None, start, t);
    lemma_press_hunter_shoot(g, s, t, form, start);
    lemma_press_hunter_skip(g, s, form, start);
}

/// A dead sheriff is handed a button for everybody else alive, which makes that player sheriff,
/// and one that leaves the table without a sheriff.
pub proof fn law_badge_buttons(g: GameView, s: usize, t: usize, form: JsonView, start: usize)
    requires
        g.wf(),
        g.stage == Stage::BadgePass,
        s < g.players.len(),
        t < g.players.len(),
        g.pending_badge == Some(s),
        g.players[t as int].alive,
        t != s,
    ensures
        exists|sent: JsonView| #[trigger]
            has_button(g.badge_card(g.players[s as int]), g.players[t as int].name, sent) && ({
                let r = pressing(g, s, sent, form, start);
                r.0.sheriff_idx == Some(t)
            }),
        exists|sent: JsonView| #[trigger]
            has_button(g.badge_card(g.players[s as int]), "✂️ 撕毁警徽"@, sent) && ({
                let r = pressing(g, s, sent, form, start);
                r.0.sheriff_idx is None
            }),
{
    lemma_badge_grid(g, s, t);
    lemma_badge_row(g, s);
    law_badge(g, s, Some(t), start);
    law_badge(g, s, None, start);
    lemma_press_badge_pass(g, s, t, form, start);
    lemma_press_badge_destroy(g, s, form, start);
}

/// A living wolf is handed a button by day that blows the wolf up.
pub proof fn law_explosion_button(g: GameView, s: usize, form: JsonView, start: usize)
    requires
        g.wf(),
        g.stage == Stage::DaySpeech || g.stage == Stage::SheriffNominate,
        s < g.players.len(),
        wolf_role(g.players[s as int].role),
        g.players[s as int].alive,
    ensures
        exists|sent: JsonView| #[trigger]
            has_button(g.explode_card(g.players[s as int]), "💥 自爆"@, sent) && ({
                let r = pressing(g, s, sent, form, start);
                !r.0.players[s as int].alive
            }),
{
    lemma_explode_row(g, s);
    law_wolf_blows_up(g, s, s);
    lemma_press_self_explode(g, s, form, start);
}

/// The sheriff is handed a button with which the speeches go upward from the sheriff, and one with
/// which they go downward.
pub proof fn law_direction_buttons(
    g: GameView,
    s: usize,
    i: int,
    j: int,
    form: JsonView,
    start: usize,
)
    requires
        g.wf(),
        g.stage == Stage::SheriffPickDirection,
        s < g.players.len(),
        g.sheriff_idx == Some(s),
        0 <= i < j,
    ensures
        exists|sent: JsonView| #[trigger]
            has_button(g.direction_card(g.players[s as int]), "🔁 警上"@, sent) && ({
                let r = pressing(g, s, sent, form, start);
                r.0.stage == Stage::DaySpeech && r.1.toast == Some("已选警上"@) && (j
                    < r.0.day_speech_order.len() - 1 ==> distance(
                    s as int,
                    r.0.day_speech_order[i] as int,
                    g.players.len() as int,
                ) < distance(s as int, r.0.day_speech_order[j] as int, g.players.len() as int))
            }),
        exists|sent: JsonView| #[trigger]
            has_button(g.direction_card(g.players[s as int]), "🔃 警下"@, sent) && ({
                let r = pressing(g, s, sent, form, start);
                r.0.stage == Stage::DaySpeech && r.1.toast == Some("已选警下"@) && (j
                    < r.0.day_speech_order.len() - 1 ==> distance(
                    r.0.day_speech_order[i] as int,
                    s as int,
                    g.players.len() as int,
                ) < distance(r.0.day_speech_order[j] as int, s as int, g.players.len() as int))
            }),
{
    lemma_direction_row(g, s);
    law_direction_decides_the_order(g, s, true, i, j);
    law_direction_decides_the_order(g, s, false, i, j);
    lemma_press_sheriff_dir_up(g, s, form, start);
    lemma_press_sheriff_dir_down(g, s, form, start);
}

proof fn lemma_speech_form(
    g: GameView,
    s: usize,
    title: Seq<char>,
    template: Seq<char>,
    submit: Seq<char>,
    skip: Seq<char>,
    placeholder: Seq<char>,
    id: Seq<char>,
)
    ensures
        has_button(
            g.speech_input_card(
                g.players[s as int],
                title,
                template,
                submit,
                skip,
                placeholder,
                id,
            ),
            "✅ 说完了"@,
            g.action_value(g.players[s as int].open_id, submit),
        ),
        has_button(
            g.speech_input_card(
                g.players[s as int],
                title,
                template,
                submit,
                skip,
                placeholder,
                id,
            ),
            "⏭ 沉默"@,
            g.action_value(g.players[s as int].open_id, skip),
        ),
{
    let me = g.players[s as int].open_id;
    let c = g.speech_input_card(
                g.players[s as int],
                title,
                template,
                submit,
                skip,
                placeholder,
                id,
            );
    let head = c->Object_0[2].1;
    let parts = c->Object_0[3].1->Object_0[3].1->List_0;
    assert(c == card_view(head, parts));
    let elements = parts[1]->Object_0[2].1->List_0;
    let done = submit_view("✅ 说完了"@, g.action_value(me, submit), "primary_filled"@, id);
    let quiet = button_view("⏭ 沉默"@, g.action_value(me, skip), "default"@);
    let row = seq![done, quiet];
    assert(elements[1] == row_view(row));
    lemma_within_row(row, 0);
    lemma_within_row(row, 1);
    let name = parts[1]->Object_0[1].1->Text_0;
    assert(parts[1] == form_view(name, elements));
    lemma_within_form(name, elements, 1, done);
    lemma_within_form(name, elements, 1, quiet);
    lemma_within_card(head, parts, 1, done);
    lemma_within_card(head, parts, 1, quiet);
    lemma_submit("✅ 说完了"@, g.action_value(me, submit), "primary_filled"@, id);
    lemma_button("⏭ 沉默"@, g.action_value(me, skip), "default"@);
}

proof fn lemma_last_words_form(g: GameView, s: usize, id: Seq<char>)
    ensures
        has_button(
            g.last_words_input_card(g.players[s as int], id),
            "✅ 说完了"@,
            g.action_value(g.players[s as int].open_id, "wolf_last_words_submit"@),
        ),
        has_button(
            g.last_words_input_card(g.players[s as int], id),
            "⏭ 沉默"@,
            g.action_value(g.players[s as int].open_id, "wolf_last_words_skip"@),
        ),
{
    let me = g.players[s as int].open_id;
    let c = g.last_words_input_card(g.players[s as int], id);
    let head = c->Object_0[2].1;
    let parts = c->Object_0[3].1->Object_0[3].1->List_0;
    assert(c == card_view(head, parts));
    let elements = parts[1]->Object_0[2].1->List_0;
    let done = submit_view("✅ 说完了"@, g.action_value(me, "wolf_last_words_submit"@), "primary_filled"@, id);
    let quiet = button_view("⏭ 沉默"@, g.action_value(me, "wolf_last_words_skip"@), "default"@);
    let row = seq![done, quiet];
    assert(elements[1] == row_view(row));
    lemma_within_row(row, 0);
    lemma_within_row(row, 1);
    let name = parts[1]->Object_0[1].1->Text_0;
    assert(parts[1] == form_view(name, elements));
    lemma_within_form(name, elements, 1, done);
    lemma_within_form(name, elements, 1, quiet);
    lemma_within_card(head, parts, 1, done);
    lemma_within_card(head, parts, 1, quiet);
    lemma_submit("✅ 说完了"@, g.action_value(me, "wolf_last_words_submit"@), "primary_filled"@, id);
    lemma_button("⏭ 沉默"@, g.action_value(me, "wolf_last_words_skip"@), "default"@);
}

/// A candidate whose turn it is sends what was typed as the speech, or keeps silent.
pub proof fn law_candidate_speech_buttons(
    g: GameView,
    s: usize,
    title: Seq<char>,
    template: Seq<char>,
    placeholder: Seq<char>,
    id: Seq<char>,
    form: JsonView,
    start: usize,
)
    requires
        g.wf(),
        g.stage == Stage::SheriffSpeech,
        s < g.players.len(),
        g.sheriff_speech_idx < g.sheriff_speech_order.len() <= usize::MAX,
        g.sheriff_speech_order[g.sheriff_speech_idx as int] == s,
    ensures
        exists|sent: JsonView| #[trigger]
            has_button(g.speech_input_card(
                g.players[s as int],
                title,
                template,
                "wolf_sheriff_speech_submit"@,
                "wolf_sheriff_speech_skip"@,
                placeholder,
                id,
            ), "✅ 说完了"@, sent) && ({
                let r = pressing(g, s, sent, form, start);
                r.0.sheriff_speeches == g.sheriff_speeches.push(
                    (
                        s,
                        if trimmed(form.text_or_empty("speech"@)).len() == 0 {
                            "(沉默)"@
                        } else {
                            trimmed(form.text_or_empty("speech"@))
                        },
                    ),
                )
            }),
        exists|sent: JsonView| #[trigger]
            has_button(g.speech_input_card(
                g.players[s as int],
                title,
                template,
                "wolf_sheriff_speech_submit"@,
                "wolf_sheriff_speech_skip"@,
                placeholder,
                id,
            ), "⏭ 沉默"@, sent) && ({
                let r = pressing(g, s, sent, form, start);
                r.0.sheriff_speeches == g.sheriff_speeches.push((s, "(沉默)"@))
            }),
{
    lemma_speech_form(
        g,
        s,
        title,
        template,
        "wolf_sheriff_speech_submit"@,
        "wolf_sheriff_speech_skip"@,
        placeholder,
        id,
    );
    law_candidate_speaks(g, s, form.text_or_empty("speech"@));
    law_candidate_speaks(g, s, Seq::empty());
    assert(trimmed(Seq::<char>::empty()).len() == 0);
    lemma_press_sheriff_speech_submit(g, s, form, start);
    lemma_press_sheriff_speech_skip(g, s, form, start);
}

/// The player whose turn it is sends what was typed as the speech, or keeps silent.
pub proof fn law_day_speech_buttons(
    g: GameView,
    s: usize,
    title: Seq<char>,
    template: Seq<char>,
    placeholder: Seq<char>,
    id: Seq<char>,
    form: JsonView,
    start: usize,
)
    requires
        g.wf(),
        g.stage == Stage::DaySpeech,
        s < g.players.len(),
        g.day_speech_idx < g.day_speech_order.len() <= usize::MAX,
        g.day_speech_order[g.day_speech_idx as int] == s,
    ensures
        exists|sent: JsonView| #[trigger]
            has_button(g.speech_input_card(
                g.players[s as int],
                title,
                template,
                "wolf_day_speech_submit"@,
                "wolf_day_speech_skip"@,
                placeholder,
                id,
            ), "✅ 说完了"@, sent) && ({
                let r = pressing(g, s, sent, form, start);
                r.0.day_speeches == g.day_speeches.push(
                    (
                        s,
                        if trimmed(form.text_or_empty("speech"@)).len() == 0 {
                            "(沉默)"@
                        } else {
                            trimmed(form.text_or_empty("speech"@))
                        },
                    ),
                )
            }),
        exists|sent: JsonView| #[trigger]
            has_button(g.speech_input_card(
                g.players[s as int],
                title,
                template,
                "wolf_day_speech_submit"@,
                "wolf_day_speech_skip"@,
                placeholder,
                id,
            ), "⏭ 沉默"@, sent) && ({
                let r = pressing(g, s, sent, form, start);
                r.0.day_speeches == g.day_speeches.push((s, "(沉默)"@))
            }),
{
    lemma_speech_form(
        g,
        s,
        title,
        template,
        "wolf_day_speech_submit"@,
        "wolf_day_speech_skip"@,
        placeholder,
        id,
    );
    law_day_speech(g, s, form.text_or_empty("speech"@));
    law_day_speech(g, s, Seq::empty());
    assert(trimmed(Seq::<char>::empty()).len() == 0);
    lemma_press_day_speech_submit(g, s, form, start);
    lemma_press_day_speech_skip(g, s, form, start);
}

/// The dead player whose turn it is sends what was typed as last words, or keeps silent.
pub proof fn law_last_words_buttons(
    g: GameView,
    s: usize,
    id: Seq<char>,
    form: JsonView,
    start: usize,
)
    requires
        g.wf(),
        g.stage == Stage::LastWords,
        s < g.players.len(),
        g.last_words_idx < g.last_words_queue.len() <= usize::MAX,
        g.last_words_queue[g.last_words_idx as int] == s,
    ensures
        exists|sent: JsonView| #[trigger]
            has_button(g.last_words_input_card(g.players[s as int], id), "✅ 说完了"@, sent) && ({
                let r = pressing(g, s, sent, form, start);
                r.0.last_words_speeches == g.last_words_speeches.push(
                    (
                        s,
                        if trimmed(form.text_or_empty("speech"@)).len() == 0 {
                            "(沉默)"@
                        } else {
                            trimmed(form.text_or_empty("speech"@))
                        },
                    ),
                )
            }),
        exists|sent: JsonView| #[trigger]
            has_button(g.last_words_input_card(g.players[s as int], id), "⏭ 沉默"@, sent) && ({
                let r = pressing(g, s, sent, form, start);
                r.0.last_words_speeches == g.last_words_speeches.push((s, "(沉默)"@))
            }),
{
    lemma_last_words_form(g, s, id);
    law_last_words(g, s, form.text_or_empty("speech"@));
    law_last_words(g, s, Seq::empty());
    assert(trimmed(Seq::<char>::empty()).len() == 0);
    lemma_press_last_words_submit(g, s, form, start);
    lemma_press_last_words_skip(g, s, form, start);
}

/// Whose move it is is handed the card for it.
pub proof fn law_card_fits_the_stage(g: GameView, s: usize, id: Seq<char>)
    ensures
        ({
            let p = g.players[s as int];
            let c = g.private_card(s, id);
            &&& g.stage == Stage::GuardPick ==> c == Some(g.guard_card(p))
            &&& g.stage == Stage::WolvesPick ==> c == Some(g.wolf_card(p, id))
            &&& g.stage == Stage::SeerPick ==> c == Some(g.seer_card(p))
            &&& g.stage == Stage::WitchAct ==> c == Some(g.witch_card(p))
            &&& g.stage == Stage::SheriffNominate ==> c == Some(g.nominate_card(p))
            &&& g.stage == Stage::SheriffWithdraw ==> c == Some(g.withdraw_card(p))
            &&& g.stage == Stage::SheriffVote ==> c == Some(g.election_card(p))
            &&& g.stage == Stage::SheriffPickDirection ==> c == Some(g.direction_card(p))
            &&& g.stage == Stage::DayVote ==> c == Some(g.vote_card(p))
            &&& g.stage == Stage::LastWords ==> c == Some(g.last_words_input_card(p, id))
            &&& g.stage == Stage::HunterShoot ==> c == Some(g.shooter_card(p))
            &&& g.stage == Stage::BadgePass ==> c == Some(g.badge_card(p))
        }),
{
}

proof fn lemma_ready_row(g: GameView, s: usize, id: Seq<char>)
    requires
        g.wf(),
        s < g.players.len(),
        has_key(g.wolf_kill_votes, s),
        !g.wolf_ready.contains(s),
    ensures
        has_button(
            g.wolf_card(g.players[s as int], id),
            "🔒 我决定了 (锁定后等队友)"@,
            g.action_value(g.players[s as int].open_id, "wolf_ready"@),
        ),
{
    law_seat_of(g, s);
    let p = g.players[s as int];
    let c = g.wolf_card(p, id);
    let head = c->Object_0[2].1;
    let parts = c->Object_0[3].1->Object_0[3].1->List_0;
    let n = parts.len() as int;
    assert(c == card_view(head, parts));
    let v = g.action_value(p.open_id, "wolf_ready"@);
    let row = seq![button_view("🔒 我决定了 (锁定后等队友)"@, v, "primary_filled"@)];
    assert(parts[n - 2] == row_view(row));
    lemma_row_button(head, parts, n - 2, row, 0, "🔒 我决定了 (锁定后等队友)"@, v, "primary_filled"@);
}

/// A wolf that has picked somebody is handed a button that confirms the pick.
pub proof fn law_ready_button(
    g: GameView,
    s: usize,
    id: Seq<char>,
    form: JsonView,
    start: usize,
)
    requires
        g.wf(),
        g.stage == Stage::WolvesPick,
        s < g.players.len(),
        wolf_role(g.players[s as int].role),
        g.players[s as int].alive,
        has_key(g.wolf_kill_votes, s),
        !g.wolf_ready.contains(s),
    ensures
        exists|sent: JsonView| #[trigger]
            has_button(
                g.wolf_card(g.players[s as int], id),
                "🔒 我决定了 (锁定后等队友)"@,
                sent,
            ) && pressing(g, s, sent, form, start).0.wolf_ready.contains(s),
{
    lemma_ready_row(g, s, id);
    crate::assoc::lemma_key_pos(g.wolf_kill_votes, s);
    law_wolf_confirms(g, s, s);
    lemma_press_ready(g, s, form, start);
}

/// What a wolf types and sends is said to the other wolves.
pub proof fn law_chat_is_said(g: GameView, s: usize, form: JsonView, start: usize)
    requires
        g.wf(),
        g.stage == Stage::WolvesPick,
        s < g.players.len(),
        wolf_role(g.players[s as int].role),
        g.players[s as int].alive,
        trimmed(form.text_or_empty("message"@)).len() > 0,
    ensures
        ({
            let sent = g.action_value(g.players[s as int].open_id, "wolf_chat_send"@);
            pressing(g, s, sent, form, start).0.wolf_chat == g.wolf_chat.push(
                (s, trimmed(form.text_or_empty("message"@))),
            )
        }),
{
    let id = g.players[s as int].open_id;
    let sent = g.action_value(id, "wolf_chat_send"@);
    let typed = form.text_or_empty("message"@);
    lemma_plain(g, s, "wolf_chat_send"@, form);
    let c = pressed(sent, form, sent.text_or_empty("action"@), id);
    lemma_wants_chat(c);
    law_trimming_twice_is_once(typed);
    law_wolf_speaks(g, s, trimmed(typed));
    lemma_press(g, s, sent, form, start, ActionView::WolfSay(trimmed(typed)));
}

proof fn lemma_wants_chat(c: ClickView)
    requires
        c.action == "wolf_chat_send"@,
        trimmed(c.message).len() > 0,
    ensures
        c.wanted() == Some(Ok::<ActionView, Seq<char>>(ActionView::WolfSay(trimmed(c.message)))),
{
    lemma_actions_early();
    lemma_actions_late();
    assert(features(c.action) == features(c.action));
}

/// Who is to speak is handed a card on which what is typed is sent as the speech of that stage.
pub proof fn law_speaker_is_handed_the_form(g: GameView, s: usize, id: Seq<char>)
    ensures
        g.stage == Stage::DaySpeech ==> exists|title: Seq<char>, template: Seq<char>, hint: Seq<char>|
            g.private_card(s, id) == Some(
                #[trigger] g.speech_input_card(
                    g.players[s as int],
                    title,
                    template,
                    "wolf_day_speech_submit"@,
                    "wolf_day_speech_skip"@,
                    hint,
                    id,
                ),
            ),
        g.stage == Stage::SheriffSpeech ==> exists|
            title: Seq<char>,
            template: Seq<char>,
            hint: Seq<char>,
        |
            g.private_card(s, id) == Some(
                #[trigger] g.speech_input_card(
                    g.players[s as int],
                    title,
                    template,
                    "wolf_sheriff_speech_submit"@,
                    "wolf_sheriff_speech_skip"@,
                    hint,
                    id,
                ),
            ),
{
    let p = g.players[s as int];
    if g.stage == Stage::DaySpeech {
        let c = g.speech_input_card(
            p,
            "🎤 你的白天发言"@,
            "wathet"@,
            "wolf_day_speech_submit"@,
            "wolf_day_speech_skip"@,
            "分析 / 报查验 / 表态…"@,
            id,
        );
        assert(g.private_card(s, id) == Some(c));
    }
    if g.stage == Stage::SheriffSpeech {
        let c = g.speech_input_card(
            p,
            "🎤 你的竞选发言"@,
            "yellow"@,
            "wolf_sheriff_speech_submit"@,
            "wolf_sheriff_speech_skip"@,
            "拉票 / 自报身份 / 攻击对手…"@,
            id,
        );
        assert(g.private_card(s, id) == Some(c));
    }
}

} // verus!
