//! Events and button presses that arrive more than once.

use vstd::prelude::*;
use crate::assoc::{get_key, has_key, key_pos, keys_distinct, law_put_get, lemma_key_pos,
    lemma_key_pos_is, put_key};
use crate::json::Json;
use crate::seqs::{lemma_pick_step, lemma_take_ends, pick};
use crate::values::{json_text, settled, write_json};

verus! {

/// How long an event is remembered, in milliseconds.
pub const EVENT_WINDOW: u64 = 120000;

/// How long a button press is remembered, in milliseconds.
pub const ACTION_MEMORY: u64 = 10000;

/// How long a button press counts as pressed again, in milliseconds.
pub const ACTION_WINDOW: u64 = 3000;

/// What has arrived lately, with the time of arrival in milliseconds.
#[derive(Debug)]
pub struct Seen {
    pub events: Vec<(String, u64)>,
    pub actions: Vec<(u64, u64)>,
}

/// What has arrived lately.
#[verifier::ext_equal]
pub struct SeenView {
    pub events: Seq<(Seq<char>, u64)>,
    pub actions: Seq<(u64, u64)>,
}

impl View for Seen {
    type V = SeenView;

    open spec fn view(&self) -> SeenView {
        SeenView { events: self.events.deep_view(), actions: self.actions@ }
    }
}

/// The time from `t` to `now`; none if `t` lies ahead.
pub open spec fn elapsed(t: u64, now: u64) -> u64 {
    if t < now {
        (now - t) as u64
    } else {
        0
    }
}

/// Whether something that arrived at a time is younger than `window`.
pub open spec fn young<K>(now: u64, window: u64) -> spec_fn((K, u64)) -> bool {
    |e: (K, u64)| elapsed(e.1, now) < window
}

/// What is younger than `window`.
pub open spec fn recent<K>(s: Seq<(K, u64)>, now: u64, window: u64) -> Seq<(K, u64)> {
    pick(s, young(now, window), |e: (K, u64)| e)
}

impl SeenView {
    /// Well-formedness: nothing is remembered twice.
    pub open spec fn wf(self) -> bool {
        keys_distinct(self.events) && keys_distinct(self.actions)
    }

    /// An event arrives: what is remembered then, and whether it has arrived before. An
    /// event without an id is never taken for another.
    pub open spec fn event_arrives(self, id: Seq<char>, now: u64) -> (SeenView, bool) {
        if id.len() == 0 {
            (self, false)
        } else {
            let kept = recent(self.events, now, EVENT_WINDOW);
            if has_key(kept, id) {
                (SeenView { events: kept, ..self }, true)
            } else {
                (SeenView { events: kept.push((id, now)), ..self }, false)
            }
        }
    }

    /// A button press with a key arrives: what is remembered then, and whether it repeats
    /// another.
    pub open spec fn action_arrives(self, key: u64, now: u64) -> (SeenView, bool) {
        let kept = recent(self.actions, now, ACTION_MEMORY);
        let again = match get_key(kept, key) {
            Some(t) => elapsed(t, now) < ACTION_WINDOW,
            None => false,
        };
        if again {
            (SeenView { actions: kept, ..self }, true)
        } else {
            (SeenView { actions: put_key(kept, key, now), ..self }, false)
        }
    }
}

fn since(t: u64, now: u64) -> (r: u64)
    ensures
        r == elapsed(t, now),
{
    if t < now {
        now - t
    } else {
        0
    }
}

fn recent_events(v: &Vec<(String, u64)>, now: u64, window: u64) -> (r: Vec<(String, u64)>)
    ensures
        r.deep_view() == recent(v.deep_view(), now, window),
{
    let ghost s = v.deep_view();
    let ghost keep = young::<Seq<char>>(now, window);
    let ghost f = |e: (Seq<char>, u64)| e;
    let mut r: Vec<(String, u64)> = Vec::new();
    let mut i: usize = 0;
    proof {
        lemma_take_ends(s);
        assert(r.deep_view() =~= Seq::empty());
    }
    while i < v.len()
        invariant
            i <= v.len(),
            s == v.deep_view(),
            s.len() == v.len(),
            keep == young::<Seq<char>>(now, window),
            f == (|e: (Seq<char>, u64)| e),
            r.deep_view() == pick(s.take(i as int), keep, f),
        decreases v.len() - i,
    {
        let ghost before = r.deep_view();
        proof {
            lemma_pick_step(s, keep, f, i as int);
        }
        let t: u64 = v[i].1;
        let kept = since(t, now) < window;
        assert(s[i as int] == (v@[i as int].0@, v@[i as int].1));
        assert(kept == keep(s[i as int]));
        if kept {
            r.push((v[i].0.clone(), t));
            assert(r.deep_view() =~= before.push(s[i as int]));
        }
        i = i + 1;
    }
    proof {
        lemma_take_ends(s);
    }
    r
}

fn recent_actions(v: &Vec<(u64, u64)>, now: u64, window: u64) -> (r: Vec<(u64, u64)>)
    ensures
        r@ == recent(v@, now, window),
{
    let ghost keep = young::<u64>(now, window);
    let ghost f = |e: (u64, u64)| e;
    let mut r: Vec<(u64, u64)> = Vec::new();
    let mut i: usize = 0;
    proof {
        lemma_take_ends(v@);
    }
    while i < v.len()
        invariant
            i <= v.len(),
            keep == young::<u64>(now, window),
            f == (|e: (u64, u64)| e),
            r@ == pick(v@.take(i as int), keep, f),
        decreases v.len() - i,
    {
        proof {
            lemma_pick_step(v@, keep, f, i as int);
        }
        let e = v[i];
        let kept = since(e.1, now) < window;
        assert(kept == keep(e));
        if kept {
            r.push(e);
        }
        i = i + 1;
    }
    proof {
        lemma_take_ends(v@);
    }
    r
}

fn find_event(v: &Vec<(String, u64)>, id: &str) -> (r: bool)
    ensures
        r == has_key(v.deep_view(), id@),
{
    let key = id.to_owned();
    let mut i: usize = 0;
    while i < v.len() && !(v[i].0 == key)
        invariant
            key@ == id@,
            i <= v.len(),
            forall|j: int| 0 <= j < i ==> (#[trigger] v.deep_view()[j]).0 != id@,
        decreases v.len() - i,
    {
        i = i + 1;
    }
    proof {
        lemma_key_pos_is(v.deep_view(), id@, i as int);
    }
    i < v.len()
}

fn find_action(v: &Vec<(u64, u64)>, key: u64) -> (r: usize)
    ensures
        r == key_pos(v@, key),
        r <= v.len(),
{
    let mut i: usize = 0;
    while i < v.len() && v[i].0 != key
        invariant
            i <= v.len(),
            forall|j: int| 0 <= j < i ==> (#[trigger] v@[j]).0 != key,
        decreases v.len() - i,
    {
        i = i + 1;
    }
    proof {
        lemma_key_pos_is(v@, key, i as int);
    }
    i
}

/// Whether a number is the hash of who pressed a button and of what the button carries, on
/// one machine or another.
pub uninterp spec fn hashes_to(open_id: Seq<char>, value: Seq<char>, key: u64) -> bool;

/// Hashes who pressed a button and what the button carries with the fixed hasher of
/// foldhash, as `foldhash::fast::FixedState`, the `Hash` of the two texts and `finish`
/// give it. The contract claims that the number is a hash of these two texts. Which one it
/// is depends on the width of the machine and is left open, and so is whether other texts
/// have it too.
#[verifier::external_body]
fn action_key(open_id: &str, value: &str) -> (r: u64)
    ensures
        hashes_to(open_id@, value@, r),
{
    let state = foldhash::fast::FixedState::default();
    let mut h = std::hash::BuildHasher::build_hasher(&state);
    std::hash::Hash::hash(open_id, &mut h);
    std::hash::Hash::hash(value, &mut h);
    std::hash::Hasher::finish(&h)
}

impl Seen {
    /// Nothing has arrived.
    pub fn new() -> (r: Self)
        ensures
            r@ == (SeenView { events: Seq::empty(), actions: Seq::empty() }),
            r@.wf(),
    {
        let r = Seen { events: Vec::new(), actions: Vec::new() };
        assert(r@.events =~= Seq::empty());
        r
    }

    /// Whether an event has arrived before.
    pub fn is_duplicate_event(&mut self, event_id: &str, now: u64) -> (r: bool)
        ensures
            (final(self)@, r) == old(self)@.event_arrives(event_id@, now),
            old(self)@.wf() ==> final(self)@.wf(),
    {
        proof {
            lemma_event_wf(self@, event_id@, now);
        }
        if event_id.is_empty() {
            return false;
        }
        let kept = recent_events(&self.events, now, EVENT_WINDOW);
        let known = find_event(&kept, event_id);
        let ghost k = kept.deep_view();
        self.events = kept;
        if known {
            return true;
        }
        self.events.push((event_id.to_owned(), now));
        assert(self@.events =~= k.push((event_id@, now)));
        false
    }

    /// Whether a button press with a key repeats another.
    pub fn repeats(&mut self, key: u64, now: u64) -> (r: bool)
        ensures
            (final(self)@, r) == old(self)@.action_arrives(key, now),
            old(self)@.wf() ==> final(self)@.wf(),
    {
        proof {
            lemma_action_wf(self@, key, now);
        }
        let mut kept = recent_actions(&self.actions, now, ACTION_MEMORY);
        let i: usize = find_action(&kept, key);
        if i < kept.len() && since(kept[i].1, now) < ACTION_WINDOW {
            self.actions = kept;
            return true;
        }
        if i < kept.len() {
            kept[i] = (key, now);
        } else {
            kept.push((key, now));
        }
        self.actions = kept;
        false
    }

    /// Whether a button press repeats another: of the same player, with the same value,
    /// within three seconds. The key of a press is the hash of the player's open id and of
    /// the text of the value; which presses share one is left to the hash.
    pub fn is_duplicate_action(&mut self, open_id: &str, value: &Json, now: u64) -> (r: bool)
        ensures
            exists|key: u64|
                hashes_to(open_id@, json_text(settled(value.model())), key) && (final(self)@, r)
                    == #[trigger] old(self)@.action_arrives(key, now),
            old(self)@.wf() ==> final(self)@.wf(),
    {
        let key: u64 = action_key(open_id, write_json(value).as_str());
        let r = self.repeats(key, now);
        assert((self@, r) == old(self)@.action_arrives(key, now));
        r
    }
}

proof fn lemma_recent<K>(s: Seq<(K, u64)>, now: u64, window: u64, k: K)
    ensures
        has_key(recent(s, now, window), k) <==> exists|i: int|
            0 <= i < s.len() && (#[trigger] s[i]).0 == k && elapsed(s[i].1, now) < window,
    decreases s.len(),
{
    let r = recent(s, now, window);
    if s.len() == 0 {
        lemma_key_pos(r, k);
    } else {
        let p = s.drop_last();
        let q = recent(p, now, window);
        lemma_recent(p, now, window, k);
        lemma_key_pos(q, k);
        lemma_key_pos(r, k);
        if elapsed(s.last().1, now) < window {
            assert(r == q.push(s.last()));
            if has_key(q, k) {
                lemma_key_pos_is(r, k, key_pos(q, k));
            } else if s.last().0 == k {
                assert forall|j: int| 0 <= j < q.len() implies (#[trigger] r[j]).0 != k by {
                    assert(q[j].0 != k);
                }
                lemma_key_pos_is(r, k, q.len() as int);
            } else {
                assert forall|j: int| 0 <= j < r.len() implies (#[trigger] r[j]).0 != k by {
                    if j < q.len() {
                        assert(q[j].0 != k);
                    }
                }
                lemma_key_pos_is(r, k, r.len() as int);
            }
        } else {
            assert(r == q);
        }
        if exists|i: int|
            0 <= i < s.len() && (#[trigger] s[i]).0 == k && elapsed(s[i].1, now) < window {
            let i = choose|i: int|
                0 <= i < s.len() && (#[trigger] s[i]).0 == k && elapsed(s[i].1, now) < window;
            if i < p.len() {
                assert(p[i] == s[i]);
            }
        }
        if has_key(q, k) {
            let i = choose|i: int|
                0 <= i < p.len() && (#[trigger] p[i]).0 == k && elapsed(p[i].1, now) < window;
            assert(s[i] == p[i]);
        }
        if elapsed(s.last().1, now) < window && s.last().0 == k {
            assert(s[s.len() - 1].0 == k);
        }
    }
}

proof fn lemma_event_wf(s: SeenView, id: Seq<char>, now: u64)
    ensures
        s.wf() ==> s.event_arrives(id, now).0.wf(),
{
    if s.wf() && id.len() > 0 {
        lemma_recent_distinct(s.events, now, EVENT_WINDOW);
        lemma_key_pos(recent(s.events, now, EVENT_WINDOW), id);
    }
}

proof fn lemma_action_wf(s: SeenView, key: u64, now: u64)
    ensures
        s.wf() ==> s.action_arrives(key, now).0.wf(),
{
    if s.wf() {
        lemma_recent_distinct(s.actions, now, ACTION_MEMORY);
        crate::assoc::law_put_distinct(recent(s.actions, now, ACTION_MEMORY), key, now);
    }
}

/// An event that has arrived is known for the next two minutes: until then it is taken
/// for a repetition.
pub proof fn law_event_is_heard_once(s: SeenView, id: Seq<char>, first: u64, second: u64)
    requires
        id.len() > 0,
        first <= second,
        second - first < EVENT_WINDOW,
        !s.event_arrives(id, first).1,
    ensures
        s.event_arrives(id, first).0.event_arrives(id, second).1,
{
    let t = s.event_arrives(id, first).0;
    lemma_recent(t.events, second, EVENT_WINDOW, id);
    assert(t.events[t.events.len() - 1] == (id, first));
}

/// After two minutes an event is forgotten.
pub proof fn law_event_is_forgotten(s: SeenView, id: Seq<char>, first: u64, second: u64)
    requires
        first <= second,
        second - first >= EVENT_WINDOW,
        !s.event_arrives(id, first).1,
    ensures
        !s.event_arrives(id, first).0.event_arrives(id, second).1,
{
    if id.len() > 0 {
        let kept = recent(s.events, first, EVENT_WINDOW);
        let t = s.event_arrives(id, first).0;
        lemma_key_pos(kept, id);
        lemma_recent(t.events, second, EVENT_WINDOW, id);
        assert(t.events == kept.push((id, first)));
        assert forall|i: int| 0 <= i < t.events.len() && (#[trigger] t.events[i]).0 == id implies
            elapsed(t.events[i].1, second) >= EVENT_WINDOW by {
            if i < kept.len() {
                assert(kept[i].0 != id);
            }
        }
    }
}

/// The same button pressed again within three seconds counts once.
pub proof fn law_press_counts_once(s: SeenView, key: u64, first: u64, second: u64)
    requires
        first <= second,
        second - first < ACTION_WINDOW,
        s.wf(),
        !s.action_arrives(key, first).1,
    ensures
        s.action_arrives(key, first).0.action_arrives(key, second).1,
{
    let kept = recent(s.actions, first, ACTION_MEMORY);
    let t = s.action_arrives(key, first).0;
    let later = recent(t.actions, second, ACTION_MEMORY);
    law_put_get(kept, key, first, key);
    lemma_recent_distinct(s.actions, first, ACTION_MEMORY);
    crate::assoc::law_put_distinct(kept, key, first);
    lemma_recent_get(t.actions, second, ACTION_MEMORY, key);
}

proof fn lemma_recent_among<K>(s: Seq<(K, u64)>, now: u64, window: u64, x: (K, u64))
    ensures
        recent(s, now, window).contains(x) ==> s.contains(x),
    decreases s.len(),
{
    let r = recent(s, now, window);
    if r.contains(x) && s.len() > 0 {
        let p = s.drop_last();
        let q = recent(p, now, window);
        lemma_recent_among(p, now, window, x);
        let i = choose|i: int| 0 <= i < r.len() && r[i] == x;
        if i < q.len() {
            assert(q[i] == x);
            assert(q.contains(x));
            let j = choose|j: int| 0 <= j < p.len() && p[j] == x;
            assert(s[j] == x);
        } else {
            assert(s[s.len() - 1] == x);
        }
    }
}

proof fn lemma_recent_distinct<K>(s: Seq<(K, u64)>, now: u64, window: u64)
    requires
        keys_distinct(s),
    ensures
        keys_distinct(recent(s, now, window)),
    decreases s.len(),
{
    if s.len() > 0 {
        let p = s.drop_last();
        let q = recent(p, now, window);
        let r = recent(s, now, window);
        assert(keys_distinct(p)) by {
            assert forall|i: int, j: int| 0 <= i < j < p.len() implies (#[trigger] p[i]).0 != (
            #[trigger] p[j]).0 by {
                assert(s[i].0 != s[j].0);
            }
        }
        lemma_recent_distinct(p, now, window);
        assert forall|i: int, j: int| 0 <= i < j < r.len() implies (#[trigger] r[i]).0 != (
        #[trigger] r[j]).0 by {
            if j < q.len() {
                assert(q[i].0 != q[j].0);
            } else {
                lemma_recent_among(p, now, window, r[i]);
                assert(q[i] == r[i]);
                assert(q.contains(r[i]));
                let k = choose|k: int| 0 <= k < p.len() && p[k] == r[i];
                assert(s[k].0 != s[s.len() - 1].0);
            }
        }
    }
}

proof fn lemma_recent_get<K>(s: Seq<(K, u64)>, now: u64, window: u64, k: K)
    requires
        keys_distinct(s),
        get_key(s, k) is Some,
        elapsed(get_key(s, k)->0, now) < window,
    ensures
        get_key(recent(s, now, window), k) == get_key(s, k),
{
    let r = recent(s, now, window);
    lemma_key_pos(s, k);
    let i = key_pos(s, k);
    lemma_recent(s, now, window, k);
    assert(s[i].0 == k);
    lemma_key_pos(r, k);
    let j = key_pos(r, k);
    assert(r.contains(r[j]));
    lemma_recent_among(s, now, window, r[j]);
    let n = choose|n: int| 0 <= n < s.len() && s[n] == r[j];
    if n < i {
        assert(s[n].0 != s[i].0);
    } else if n > i {
        assert(s[i].0 != s[n].0);
    }
}

} // verus!
