//! The messages that carry the table's cards: which is updated, and which card each stage shows.

use vstd::prelude::*;
use crate::assoc::{has_key, law_put_get};
use crate::seqs::lemma_indices_where;
use crate::werewolf::night_laws::wolf_role;
use crate::werewolf::notices::SlotView;
use crate::werewolf::plan::lemma_kept_seats;
use crate::werewolf::state::{empty_table, GameView};
use crate::werewolf::types::Stage;

verus! {

proof fn lemma_existing(g: GameView)
    ensures
        g.public_notice() is Some && (g.stage == Stage::GuardPick || g.stage == Stage::WolvesPick
            || g.stage == Stage::SeerPick || g.stage == Stage::WitchAct || g.stage
            == Stage::DayReveal) ==> g.public_notice()->0.existing == g.night_progress_public_msg
            && g.public_notice()->0.slot == SlotView::Night(g.day),
        g.stage == Stage::SheriffNominate ==> g.public_notice()->0.existing
            == g.sheriff_nominate_public_msg && g.public_notice()->0.slot == SlotView::Nominations,
        g.stage == Stage::SheriffVote ==> g.public_notice()->0.existing == g.sheriff_vote_public_msg
            && g.public_notice()->0.slot == SlotView::Election,
        g.stage == Stage::DayVote ==> g.public_notice()->0.existing == g.day_vote_public_msg
            && g.public_notice()->0.slot == SlotView::DayVote,
        g.stage == Stage::SheriffSpeech ==> g.public_notice()->0.existing
            == g.sheriff_speech_public_msg && g.public_notice()->0.slot
            == SlotView::SheriffSpeeches,
        g.stage == Stage::DaySpeech ==> g.public_notice()->0.existing == g.day_speech_public_msg
            && g.public_notice()->0.slot == SlotView::DaySpeeches,
        g.stage == Stage::LastWords ==> g.public_notice()->0.existing == g.last_words_public_msg
            && g.public_notice()->0.slot == SlotView::LastWords,
{
}

proof fn lemma_single_existing(g: GameView)
    ensures
        (g.stage == Stage::SheriffPickDirection || g.stage == Stage::HunterShoot || g.stage
            == Stage::BadgePass) && g.public_notice() is Some ==> ({
            let slot = g.public_notice()->0.slot;
            &&& slot is Single
            &&& slot->stage == g.stage
            &&& g.public_notice()->0.existing == g.single_msg(slot->key)
        }),
{
}

/// The message in which a public card was sent is the one that is updated the next time: what is
/// noted of a notice is found with the next notice of the same stage.
pub proof fn law_public_cards_are_updated(g: GameView, id: Seq<char>)
    requires
        g.public_notice() is Some,
    ensures
        ({
            let h = g.public_noted(g.public_notice()->0.slot, id);
            &&& h.stage == g.stage
            &&& h.players == g.players
            &&& h.public_notice() is Some
            &&& h.public_notice()->0.existing == Some(id)
        }),
{
    let h = g.public_noted(g.public_notice()->0.slot, id);
    lemma_existing(g);
    lemma_single_existing(g);
    lemma_existing(h);
    lemma_single_existing(h);
    lemma_same_slot(g, h);
}

proof fn lemma_same_slot(g: GameView, h: GameView)
    requires
        g.public_notice() is Some,
        h.stage == g.stage,
        h.players == g.players,
        h.day == g.day,
        h.game_count == g.game_count,
        h.sheriff_idx == g.sheriff_idx,
        h.pending_hunter == g.pending_hunter,
        h.pending_badge == g.pending_badge,
    ensures
        h.public_notice() is Some,
        h.public_notice()->0.slot == g.public_notice()->0.slot,
{
}

/// The wolves' cards and the cards of speakers are updated in the message that carried them.
pub proof fn law_private_cards_are_updated(g: GameView, seat: usize, id: Seq<char>)
    ensures
        g.stage == Stage::WolvesPick ==> g.private_noted(g.stage, seat, id).replaced_msg(seat)
            == Some(id),
        g.stage == Stage::SheriffSpeech ==> g.private_noted(g.stage, seat, id).replaced_msg(seat)
            == Some(id),
        g.stage == Stage::DaySpeech ==> g.private_noted(g.stage, seat, id).replaced_msg(seat)
            == Some(id),
        g.stage == Stage::LastWords ==> g.private_noted(g.stage, seat, id).replaced_msg(seat)
            == Some(id),
{
    law_put_get(g.wolf_night_msgs, seat, id, seat);
}

/// A card for a round is sent once: who was sent one is noted as having it.
pub proof fn law_round_cards_are_noted(g: GameView, seat: usize, id: Seq<char>)
    ensures
        ({
            let who = g.players[seat as int].open_id;
            let h = g.private_noted(g.stage, seat, id);
            &&& g.stage == Stage::SheriffNominate ==> has_key(h.sheriff_nominate_msgs, who)
            &&& g.stage == Stage::SheriffVote ==> has_key(h.sheriff_vote_msgs, who)
            &&& g.stage == Stage::DayVote ==> has_key(h.day_vote_msgs, who)
        }),
{
    let who = g.players[seat as int].open_id;
    law_put_get(g.sheriff_nominate_msgs, who, id, who);
    law_put_get(g.sheriff_vote_msgs, who, id, who);
    law_put_get(g.day_vote_msgs, who, id, who);
    let h = g.private_noted(g.stage, seat, id);
    crate::assoc::lemma_key_pos(h.sheriff_nominate_msgs, who);
    crate::assoc::lemma_key_pos(h.sheriff_vote_msgs, who);
    crate::assoc::lemma_key_pos(h.day_vote_msgs, who);
}

/// When a day or an election opens, every living human wolf is offered to blow up, and nobody
/// else is; when it is under way nobody is offered it again.
pub proof fn law_who_is_offered_to_blow_up(g: GameView, s: usize)
    requires
        g.players.len() <= usize::MAX,
        s < g.players.len(),
    ensures
        ({
            let p = g.players[s as int];
            let opens = g.stage == Stage::SheriffNominate && g.sheriff_nominate_public_msg is None
                || g.stage == Stage::DaySpeech && g.day_speech_public_msg is None;
            g.warned_wolves().contains(s) <==> opens && p.alive && wolf_role(p.role) && !p.is_ai
        }),
{
    lemma_indices_where(g.players.len(), g.living_wolf());
    assert((g.living_wolf())(s as int) == (g.players[s as int].alive && wolf_role(
        g.players[s as int].role,
    )));
    lemma_kept_seats(g.wolf_seats(), |i: usize| !g.players[i as int].is_ai);
}

/// A new table is an empty lobby of its chat.
pub proof fn law_new_table_is_empty(chat_id: Seq<char>)
    ensures
        ({
            let g = empty_table(chat_id);
            &&& g.chat_id == chat_id
            &&& g.players.len() == 0
            &&& g.stage == Stage::Lobby
            &&& g.game_count == 0
            &&& !g.in_play()
            &&& g.sheriff_idx is None && g.pending_hunter is None && g.pending_badge is None
            &&& g.deaths.len() == 0 && g.event_log.len() == 0 && g.recap_log.len() == 0
            &&& !g.witch_save_used && !g.witch_poison_used && g.last_guard_target is None
            &&& g.seer_history.len() == 0 && g.thinking_log.len() == 0
        }),
{
}

} // verus!
