//! Whether a table that comes from outside is well formed.

use vstd::prelude::*;
use crate::assoc::{find_key, lemma_key_pos};
use crate::seqs::lemma_first_from;
use crate::werewolf::state::WolfGame;
use crate::werewolf::table::{checks_ok, ids_distinct, keys_ok, picks_ok, seat_ok, seats_ok,
    speakers_ok, votes_ok, MAX_SEATS};
use crate::werewolf::types::SeerCheck;

verus! {

fn seat_fits(o: Option<usize>, n: usize) -> (r: bool)
    ensures
        r == seat_ok(o, n as nat),
{
    match o {
        Some(i) => i < n,
        None => true,
    }
}

fn seats_fit(v: &Vec<usize>, n: usize) -> (r: bool)
    ensures
        r == seats_ok(v@, n as nat),
{
    let mut i: usize = 0;
    while i < v.len()
        invariant
            i <= v.len(),
            forall|j: int| 0 <= j < i ==> #[trigger] v@[j] < n,
        decreases v.len() - i,
    {
        if v[i] >= n {
            assert(v@[i as int] >= n);
            return false;
        }
        i = i + 1;
    }
    true
}

fn firsts_fit<V>(v: &Vec<(usize, V)>, n: usize) -> (r: bool)
    ensures
        r == speakers_ok(v@, n as nat),
{
    let mut i: usize = 0;
    while i < v.len()
        invariant
            i <= v.len(),
            forall|j: int| 0 <= j < i ==> (#[trigger] v@[j]).0 < n,
        decreases v.len() - i,
    {
        if v[i].0 >= n {
            assert(v@[i as int].0 >= n);
            return false;
        }
        i = i + 1;
    }
    true
}

fn keys_fit<V>(v: &Vec<(usize, V)>, n: usize) -> (r: bool)
    ensures
        r == keys_ok(v@, n as nat),
{
    if !firsts_fit(v, n) {
        return false;
    }
    let mut i: usize = 0;
    while i < v.len()
        invariant
            i <= v.len(),
            speakers_ok(v@, n as nat),
            forall|j: int, k: int|
                0 <= j < k < i ==> (#[trigger] v@[j]).0 != (#[trigger] v@[k]).0,
        decreases v.len() - i,
    {
        let k: usize = v[i].0;
        proof {
            lemma_key_pos(v@, k);
        }
        let p: usize = find_key(v, k);
        if p < i {
            assert(v@[p as int].0 == v@[i as int].0);
            return false;
        }
        assert forall|j: int| 0 <= j < i implies (#[trigger] v@[j]).0 != v@[i as int].0 by {
            assert(v@[j].0 != k);
        }
        i = i + 1;
    }
    true
}

fn picks_fit(v: &Vec<(usize, usize)>, n: usize) -> (r: bool)
    ensures
        r == picks_ok(v@, n as nat),
{
    if !keys_fit(v, n) {
        return false;
    }
    let mut i: usize = 0;
    while i < v.len()
        invariant
            i <= v.len(),
            keys_ok(v@, n as nat),
            forall|j: int| 0 <= j < i ==> (#[trigger] v@[j]).1 < n,
        decreases v.len() - i,
    {
        if v[i].1 >= n {
            assert(v@[i as int].1 >= n);
            return false;
        }
        i = i + 1;
    }
    true
}

fn votes_fit(v: &Vec<(usize, Option<usize>)>, n: usize) -> (r: bool)
    ensures
        r == votes_ok(v@, n as nat),
{
    if !keys_fit(v, n) {
        return false;
    }
    let mut i: usize = 0;
    while i < v.len()
        invariant
            i <= v.len(),
            keys_ok(v@, n as nat),
            forall|j: int| 0 <= j < i ==> seat_ok((#[trigger] v@[j]).1, n as nat),
        decreases v.len() - i,
    {
        if !seat_fits(v[i].1, n) {
            assert(!seat_ok(v@[i as int].1, n as nat));
            return false;
        }
        i = i + 1;
    }
    true
}

fn checks_fit(v: &Vec<SeerCheck>, n: usize) -> (r: bool)
    ensures
        r == checks_ok(v@, n as nat),
{
    let mut i: usize = 0;
    while i < v.len()
        invariant
            i <= v.len(),
            forall|j: int| 0 <= j < i ==> (#[trigger] v@[j]).target_idx < n,
        decreases v.len() - i,
    {
        if v[i].target_idx >= n {
            assert(v@[i as int].target_idx >= n);
            return false;
        }
        i = i + 1;
    }
    true
}

proof fn lemma_speakers_alike(v: Vec<(usize, String)>, n: nat)
    ensures
        speakers_ok(v.deep_view(), n) == speakers_ok(v@, n),
{
    if speakers_ok(v@, n) {
        assert forall|i: int| 0 <= i < v.deep_view().len() implies (
        #[trigger] v.deep_view()[i]).0 < n by {
            assert(v@[i].0 < n);
        }
    }
    if speakers_ok(v.deep_view(), n) {
        assert forall|i: int| 0 <= i < v@.len() implies (#[trigger] v@[i]).0 < n by {
            assert(v.deep_view()[i].0 < n);
        }
    }
}

fn speakers_fit(v: &Vec<(usize, String)>, n: usize) -> (r: bool)
    ensures
        r == speakers_ok(v.deep_view(), n as nat),
{
    proof {
        lemma_speakers_alike(*v, n as nat);
    }
    firsts_fit(v, n)
}

impl WolfGame {
    fn ids_differ(&self) -> (r: bool)
        ensures
            r == ids_distinct(self@.players),
    {
        let n: usize = self.players.len();
        let mut i: usize = 0;
        while i < n
            invariant
                i <= n,
                n == self.players.len(),
                forall|j: int, k: int|
                    0 <= j < k < i ==> (#[trigger] self@.players[j]).open_id != (
                    #[trigger] self@.players[k]).open_id,
            decreases n - i,
        {
            let ghost id = self@.players[i as int].open_id;
            proof {
                lemma_first_from(0, n as int, self@.has_id(id));
                assert((self@.has_id(id))(i as int));
            }
            if self.find_player(self.players[i].open_id.as_str()) != Some(i) {
                proof {
                    let p = self@.seat_of(id)->0;
                    assert((self@.has_id(id))(p as int));
                    assert(self@.players[p as int].open_id == self@.players[i as int].open_id);
                }
                return false;
            }
            assert forall|j: int| 0 <= j < i implies (#[trigger] self@.players[j]).open_id
                != self@.players[i as int].open_id by {
                assert(!(self@.has_id(id))(j));
            }
            i = i + 1;
        }
        true
    }

    fn seats_exist(&self) -> (r: bool)
        ensures
            r == self@.seats_in_range(),
    {
        let n: usize = self.players.len();
        seat_fits(self.night_victim, n) && seat_fits(self.witch_poison_target, n) && seat_fits(
            self.last_guard_target,
            n,
        ) && seat_fits(self.sheriff_idx, n) && seat_fits(self.pending_badge, n) && seat_fits(
            self.pending_hunter,
            n,
        ) && seat_fits(self.last_day_lynched, n) && picks_fit(&self.wolf_kill_votes, n)
            && speakers_fit(&self.wolf_chat, n) && speakers_fit(&self.day_speeches, n)
            && speakers_fit(&self.sheriff_speeches, n) && speakers_fit(
            &self.last_words_speeches,
            n,
        ) && checks_fit(&self.seer_history, n) && keys_fit(&self.sheriff_nominations, n)
            && votes_fit(&self.day_votes.votes, n) && votes_fit(&self.sheriff_votes.votes, n)
            && seats_fit(&self.sheriff_pk_candidates, n) && seats_fit(
            &self.sheriff_original_candidates,
            n,
        ) && seats_fit(&self.sheriff_speech_order, n) && seats_fit(&self.day_pk_candidates, n)
            && seats_fit(&self.day_speech_order, n) && seats_fit(&self.last_words_queue, n)
            && seats_fit(&self.last_night_deaths, n) && self.sheriff_vote_round <= 1
            && self.day_vote_round <= 1
    }

    /// Whether the table is well formed.
    pub fn is_well_formed(&self) -> (r: bool)
        ensures
            r == self@.wf(),
    {
        self.players.len() <= MAX_SEATS && self.ids_differ() && (!self.running()
            || self.seats_exist())
    }
}

} // verus!
