//! What is shown to whom when a button was pressed, and how the table goes on after a shot or the
//! badge.

use vstd::prelude::*;
use crate::json::JsonView;
use crate::feishu::reading::says;
use crate::werewolf::actions::{ActionView, Outcome};
use crate::werewolf::answers::AnswerView;
use crate::werewolf::attempts::Verdict;
use crate::werewolf::button_laws::{lemma_press_badge_destroy, lemma_press_badge_pass,
    lemma_press_hunter_shoot, lemma_press_hunter_skip, lemma_press_seer_check,
    lemma_press_self_explode, lemma_press_sheriff_dir_down, lemma_press_sheriff_dir_up, picking,
    pressing};
use crate::werewolf::card_laws::law_check_is_told;
use crate::werewolf::day_cards::direction_announced;
use crate::werewolf::day_laws::{law_badge, law_shot, law_wolf_blows_up, some_god_lives,
    some_villager_lives, some_wolf_lives};
use crate::werewolf::day_laws::law_who_has_won;
use crate::werewolf::laws::{law_seat_of, law_steady, same_seats, steady, Move};
use crate::werewolf::news_laws::{law_last_words_are_told, law_speeches_are_told};
use crate::werewolf::night_laws::{law_seer_learns_the_side, wolf_role};
use crate::werewolf::speech_laws::law_direction_decides_the_order;
use crate::werewolf::state::GameView;
use crate::werewolf::types::{PlayerView, Role, Stage};
use crate::werewolf::vote_cards::{badge_announced, explosion_announced, shot_announced};

verus! {

/// Whoever sits at the table is found in the same seat after a move.
proof fn lemma_same_seat(g: GameView, h: GameView, s: usize)
    requires
        g.wf(),
        s < g.players.len(),
        same_seats(g.players, h.players),
    ensures
        h.seat_of(g.players[s as int].open_id) == Some(s),
        h.player_at(Some(s)) == Some(h.players[s as int]),
        h.players[s as int].name == g.players[s as int].name,
        h.players[s as int].is_ai == g.players[s as int].is_ai,
        h.players[s as int].open_id == g.players[s as int].open_id,
{
    let id = g.players[s as int].open_id;
    let n = g.players.len() as int;
    assert(h.players[s as int] == (PlayerView {
        alive: h.players[s as int].alive,
        ..g.players[s as int]
    }));
    assert forall|j: int| 0 <= j < s implies !#[trigger] (h.has_id(id))(j) by {
        assert(h.players[j] == (PlayerView { alive: h.players[j].alive, ..g.players[j] }));
        assert(g.players[j].open_id != g.players[s as int].open_id);
    }
    crate::seqs::lemma_first_is(n, h.has_id(id), s as int);
}

/// A seer who presses the button of a player is told in private whether that player is a wolf.
pub proof fn law_seer_is_answered(g: GameView, s: usize, t: usize, form: JsonView, start: usize)
    requires
        g.wf(),
        g.day < u32::MAX,
        g.stage == Stage::SeerPick,
        s < g.players.len(),
        t < g.players.len(),
        t != s,
        g.players[s as int].role == Some(Role::Seer),
        g.players[s as int].alive,
        g.players[t as int].alive,
    ensures
        ({
            let me = g.players[s as int].open_id;
            let r = pressing(g, s, picking(g, me, "wolf_seer_check"@, t), form, start);
            let name = g.players[t as int].name;
            &&& r.1.private is Some
            &&& wolf_role(g.players[t as int].role) ==> says(
                r.1.private->0,
                name + " 的身份是 🐺 **狼人**"@,
            )
            &&& !wolf_role(g.players[t as int].role) ==> says(
                r.1.private->0,
                name + " 的身份是 ✅ **好人**"@,
            )
            &&& r.1.announce is None
        }),
{
    let me = g.players[s as int].open_id;
    let other = g.players[t as int].open_id;
    law_seer_learns_the_side(g, s, t);
    lemma_press_seer_check(g, s, t, form, start);
    let h = g.seer_check(me, other)->Ok_0.0;
    law_steady(g, Move::SeerCheck { who: me, target: other });
    reveal(steady);
    lemma_same_seat(g, h, t);
    let is_wolf = wolf_role(g.players[t as int].role);
    law_check_is_told(h, h.players[t as int], is_wolf);
}

/// Who fires the last shot, or holds fire, is announced with whom it took.
pub proof fn law_shot_is_announced(g: GameView, s: usize, t: usize, form: JsonView, start: usize)
    requires
        g.wf(),
        g.day < u32::MAX,
        g.stage == Stage::HunterShoot,
        s < g.players.len(),
        t < g.players.len(),
        t != s,
        g.pending_hunter == Some(s),
        g.players[t as int].alive,
    ensures
        ({
            let me = g.players[s as int].open_id;
            let hit = pressing(g, s, picking(g, me, "wolf_hunter_shoot"@, t), form, start);
            let held = pressing(g, s, g.action_value(me, "wolf_hunter_skip"@), form, start);
            &&& hit.1.announce == Some(
                shot_announced(hit.0.players[s as int], Some(hit.0.players[t as int])),
            )
            &&& held.1.announce == Some(shot_announced(held.0.players[s as int], None))
            &&& hit.0.players[s as int].name == g.players[s as int].name
            &&& hit.0.players[t as int].name == g.players[t as int].name
        }),
{
    let me = g.players[s as int].open_id;
    let other = g.players[t as int].open_id;
    lemma_shot_keeps(g, s, Some(t), start, s);
    lemma_shot_keeps(g, s, Some(t), start, t);
    lemma_shot_keeps(g, s, None, start, s);
    lemma_press_hunter_shoot(g, s, t, form, start);
    lemma_press_hunter_skip(g, s, form, start);
    let h = g.hunter_shoot(me, Some(other), start)->Ok_0.0;
    let k = g.hunter_shoot(me, None, start)->Ok_0.0;
    lemma_shot_announced(h, me, s, Some(other), Some(t));
    lemma_shot_announced(k, me, s, None, None);
}

#[verifier::rlimit(40)]
proof fn lemma_shot_keeps(g: GameView, s: usize, target: Option<usize>, start: usize, i: usize)
    requires
        g.wf(),
        g.day < u32::MAX,
        g.stage == Stage::HunterShoot,
        s < g.players.len(),
        i < g.players.len(),
        g.pending_hunter == Some(s),
        target is Some ==> target->0 < g.players.len() && g.players[target->0 as int].alive
            && target->0 != s,
    ensures
        ({
            let aim = match target {
                Some(t) => Some(g.players[t as int].open_id),
                None => None,
            };
            let r = g.hunter_shoot(g.players[s as int].open_id, aim, start);
            &&& r is Ok
            &&& r->Ok_0.1 == target
            &&& r->Ok_0.0.players.len() == g.players.len()
            &&& r->Ok_0.0.seat_of(g.players[i as int].open_id) == Some(i)
            &&& r->Ok_0.0.players[i as int].name == g.players[i as int].name
        }),
{
    let me = g.players[s as int].open_id;
    let aim = match target {
        Some(t) => Some(g.players[t as int].open_id),
        None => None,
    };
    law_shot(g, s, target, start, i);
    lemma_shot_seats(g, me, aim, start);
    lemma_same_seat(g, g.hunter_shoot(me, aim, start)->Ok_0.0, i);
}

proof fn lemma_shot_seats(g: GameView, who: Seq<char>, aim: Option<Seq<char>>, start: usize)
    requires
        g.wf(),
        g.in_play(),
        g.day < u32::MAX,
        g.hunter_shoot(who, aim, start) is Ok,
    ensures
        same_seats(g.players, g.hunter_shoot(who, aim, start)->Ok_0.0.players),
{
    let m = Move::Shoot { who, target: aim, start };
    law_steady(g, m);
    assert(g.played(m) == g.hunter_shoot(who, aim, start)->Ok_0.0);
    lemma_steady_seats(g, g.played(m));
}

proof fn lemma_steady_seats(g: GameView, h: GameView)
    requires
        steady(g, h),
    ensures
        same_seats(g.players, h.players),
{
    reveal(steady);
}

proof fn lemma_shot_announced(
    h: GameView,
    who: Seq<char>,
    s: usize,
    aim: Option<Seq<char>>,
    hit: Option<usize>,
)
    requires
        h.seat_of(who) == Some(s),
        s < h.players.len(),
        hit is Some ==> hit->0 < h.players.len(),
    ensures
        h.done(who, ActionView::Shoot(aim), Outcome::Seat(hit)).announce == Some(
            shot_announced(
                h.players[s as int],
                match hit {
                    Some(t) => Some(h.players[t as int]),
                    None => None,
                },
            ),
        ),
{
}

/// What becomes of the badge is announced with who had it and who has it.
pub proof fn law_badge_is_announced(g: GameView, s: usize, t: usize, form: JsonView, start: usize)
    requires
        g.wf(),
        g.day < u32::MAX,
        g.stage == Stage::BadgePass,
        s < g.players.len(),
        t < g.players.len(),
        t != s,
        g.pending_badge == Some(s),
        g.players[t as int].alive,
    ensures
        ({
            let me = g.players[s as int].open_id;
            let given = pressing(g, s, picking(g, me, "wolf_badge_pass"@, t), form, start);
            let torn = pressing(g, s, g.action_value(me, "wolf_badge_destroy"@), form, start);
            &&& given.1.announce == Some(
                badge_announced(g.players[s as int], Some(g.players[t as int])),
            )
            &&& torn.1.announce == Some(badge_announced(g.players[s as int], None))
        }),
{
    let me = g.players[s as int].open_id;
    law_badge(g, s, Some(t), start);
    law_badge(g, s, None, start);
    lemma_press_badge_pass(g, s, t, form, start);
    lemma_press_badge_destroy(g, s, form, start);
    law_seat_of(g, s);
    let h = g.transfer_badge(me, Some(g.players[t as int].open_id), start)->Ok_0.0;
    let k = g.transfer_badge(me, None, start)->Ok_0.0;
    lemma_found(g, h, me);
    lemma_found(g, k, me);
}

proof fn lemma_found(g: GameView, h: GameView, id: Seq<char>)
    requires
        h.players == g.players,
    ensures
        h.seat_of(id) == g.seat_of(id),
{
    assert(h.has_id(id) =~= g.has_id(id));
}

/// A wolf that blows up is announced to everybody.
pub proof fn law_explosion_is_announced(g: GameView, s: usize, form: JsonView, start: usize)
    requires
        g.wf(),
        g.stage == Stage::DaySpeech,
        s < g.players.len(),
        wolf_role(g.players[s as int].role),
        g.players[s as int].alive,
    ensures
        ({
            let me = g.players[s as int].open_id;
            let r = pressing(g, s, g.action_value(me, "wolf_self_explode"@), form, start);
            r.1.announce == Some(explosion_announced(r.0.players[s as int]))
        }),
{
    law_wolf_blows_up(g, s, s);
    lemma_press_self_explode(g, s, form, start);
}

/// A press that is taken is stored; the table goes on after it unless it was only talk among
/// wolves; and the wolves' cards are renewed after what the wolves do.
pub proof fn law_press_has_its_effects(g: GameView, who: Seq<char>, a: ActionView, out: Outcome)
    ensures
        ({
            let r = g.done(who, a, out);
            &&& r.saved
            &&& r.advance <==> !(a is WolfSay)
            &&& r.wolves <==> a is WolfPick || a is WolfSay || a is WolfReady
            &&& a is Vote || a is Elect || a is Nominate ==> r.progress
            &&& g.stage != Stage::Ended ==> r.summary is None
        }),
{
}

/// After the badge is passed the table goes on where it was to: to the news, to the day, or to
/// the night; and the game ends if a side has won.
pub proof fn law_after_the_badge(g: GameView, s: usize, target: Option<usize>, start: usize)
    requires
        g.wf(),
        g.day < u32::MAX,
        g.stage == Stage::BadgePass,
        s < g.players.len(),
        target is Some ==> target->0 < g.players.len(),
        g.pending_badge == Some(s),
        target is Some ==> g.players[target->0 as int].alive && target->0 != s,
    ensures
        ({
            let r = g.transfer_badge(
                g.players[s as int].open_id,
                match target {
                    Some(t) => Some(g.players[t as int].open_id),
                    None => None,
                },
                start,
            );
            let h = r->Ok_0.0;
            let post = g.pending_badge_post_stage;
            let over = !some_wolf_lives(g) || !some_villager_lives(g) || !some_god_lives(g);
            &&& r is Ok
            &&& post == Some(Stage::DayReveal) ==> h.stage == Stage::DayReveal
            &&& post == Some(Stage::DaySpeech) && over ==> h.stage == Stage::Ended
            &&& post == Some(Stage::DaySpeech) && !over && target is Some ==> h.stage
                == Stage::SheriffPickDirection
            &&& post == Some(Stage::DaySpeech) && !over && target is None ==> h.stage
                == Stage::DaySpeech
            &&& post == Some(Stage::DayVote) && over ==> h.stage == Stage::Ended
            &&& post == Some(Stage::DayVote) && !over ==> (h.stage == Stage::GuardPick || h.stage
                == Stage::WolvesPick) && h.day == g.day + 1
        }),
{
    law_badge(g, s, target, start);
    law_seat_of(g, s);
    match target {
        Some(t) => {
            law_seat_of(g, t);
        },
        None => {},
    }
    let x = g.badge_passed(s, target);
    law_who_has_won(g);
    lemma_same_winner(g, x);
    let y = GameView { skip_day_after_reveal: false, ..x };
    lemma_same_winner(g, y);
}

proof fn lemma_same_winner(g: GameView, h: GameView)
    requires
        h.players == g.players,
    ensures
        h.winner() == g.winner(),
{
    assert(h.living_wolf() =~= g.living_wolf());
    assert(h.living() =~= g.living());
}

/// The direction that a sheriff picks is announced.
pub proof fn law_direction_is_announced(g: GameView, s: usize, form: JsonView, start: usize)
    requires
        g.wf(),
        g.stage == Stage::SheriffPickDirection,
        s < g.players.len(),
        g.sheriff_idx == Some(s),
    ensures
        ({
            let me = g.players[s as int].open_id;
            let up = pressing(g, s, g.action_value(me, "wolf_sheriff_dir_up"@), form, start);
            let down = pressing(g, s, g.action_value(me, "wolf_sheriff_dir_down"@), form, start);
            &&& up.1.announce == Some(direction_announced(g.players[s as int], true))
            &&& down.1.announce == Some(direction_announced(g.players[s as int], false))
        }),
{
    law_direction_decides_the_order(g, s, true, 0, 1);
    law_direction_decides_the_order(g, s, false, 0, 1);
    lemma_press_sheriff_dir_up(g, s, form, start);
    lemma_press_sheriff_dir_down(g, s, form, start);
    law_seat_of(g, s);
}

/// What an AI does with its last shot is announced as a human's is.
pub proof fn law_ai_shot_is_announced(g: GameView, s: usize, t: usize, earlier: nat, start: usize)
    requires
        g.wf(),
        g.day < u32::MAX,
        g.stage == Stage::HunterShoot,
        s < g.players.len(),
        t < g.players.len(),
        t != s,
        g.pending_hunter == Some(s),
        g.players[s as int].is_ai,
        g.players[t as int].alive,
    ensures
        ({
            let r = g.attempted(s, AnswerView::Shoot(Some(t)), earlier, start);
            &&& r.verdict == Verdict::Done
            &&& r.announce == Some(
                shot_announced(r.table.players[s as int], Some(r.table.players[t as int])),
            )
        }),
{
    let me = g.players[s as int].open_id;
    let other = g.players[t as int].open_id;
    lemma_shot_keeps(g, s, Some(t), start, s);
    let h = g.hunter_shoot(me, Some(other), start)->Ok_0.0;
    lemma_shot_announced(h, me, s, None, Some(t));
    assert(g.plan().ais == seq![s]);
    assert(g.plan().ais[0] == s);
}

/// While players speak, everybody reads who speaks now.
pub proof fn law_speaker_is_shown(g: GameView, s: usize)
    requires
        s < g.players.len(),
    ensures
        g.stage == Stage::DaySpeech && g.day_speech_idx < g.day_speech_order.len()
            && g.day_speech_order[g.day_speech_idx as int] == s ==> g.public_notice() is Some && says(
            g.public_notice()->0.card,
            "🎤 **当前发言**："@ + g.players[s as int].shown(),
        ),
        g.stage == Stage::SheriffSpeech && g.sheriff_speech_idx < g.sheriff_speech_order.len()
            && g.sheriff_speech_order[g.sheriff_speech_idx as int] == s ==> g.public_notice() is Some
            && says(
            g.public_notice()->0.card,
            "🎤 **当前发言**："@ + g.players[s as int].shown(),
        ),
        g.stage == Stage::LastWords && g.last_words_idx < g.last_words_queue.len()
            && g.last_words_queue[g.last_words_idx as int] == s ==> g.public_notice() is Some && says(
            g.public_notice()->0.card,
            "🎤 **正在发表遗言**："@ + g.players[s as int].shown(),
        ),
{
    lemma_speech_notice(g);
    law_speeches_are_told(
        g,
        "🎙️ 白天·轮流发言"@,
        "wathet"@,
        g.day_speech_order,
        g.day_speeches,
        g.day_speech_idx as int,
        0,
    );
    law_speeches_are_told(
        g,
        "🎙️ 上警·竞选发言"@,
        "yellow"@,
        g.sheriff_speech_order,
        g.sheriff_speeches,
        g.sheriff_speech_idx as int,
        0,
    );
    if g.last_words_queue.len() > 0 {
        law_last_words_are_told(
            g,
            g.last_words_queue,
            g.last_words_speeches,
            g.last_words_idx as int,
            0,
        );
    }
}

proof fn lemma_speech_notice(g: GameView)
    ensures
        g.stage == Stage::DaySpeech ==> g.public_notice() is Some && g.public_notice()->0.card
            == g.speech_card(
            "🎙️ 白天·轮流发言"@,
            "wathet"@,
            g.day_speech_order,
            g.day_speeches,
            g.day_speech_idx as int,
        ),
        g.stage == Stage::SheriffSpeech ==> g.public_notice() is Some && g.public_notice()->0.card
            == g.speech_card(
            "🎙️ 上警·竞选发言"@,
            "yellow"@,
            g.sheriff_speech_order,
            g.sheriff_speeches,
            g.sheriff_speech_idx as int,
        ),
        g.stage == Stage::LastWords ==> g.public_notice() is Some && g.public_notice()->0.card
            == g.last_words_card(
            g.last_words_queue,
            g.last_words_speeches,
            g.last_words_idx as int,
        ),
{
}

} // verus!
