//! What can be asked of a table, when its state is well formed, and who has won.

use vstd::prelude::*;
use crate::assoc::{keys_distinct, law_put_distinct, lemma_key_pos, put_key};
use crate::seqs::{count_where, first_where, indices_where, lemma_first_is, lemma_indices_where};
use crate::werewolf::error::GameError;
use crate::werewolf::state::{GameView, WolfGame};
use crate::werewolf::types::{PlayerView, Role, SeerCheck, Stage, Winner};

verus! {

/// Whether a move that was tried has gone as the rule says: done, or refused with the
/// rule's reason and the table as it was.
pub open spec fn follows(
    r: Result<(), GameError>,
    before: GameView,
    after: GameView,
    rule: Result<GameView, GameError>,
) -> bool {
    match rule {
        Ok(g) => r == Ok::<(), GameError>(()) && after =~= g,
        Err(e) => r == Err::<(), GameError>(e) && after =~= before,
    }
}

/// Whether a move with a result has gone as the rule says.
pub open spec fn follows_with<T>(
    r: Result<T, GameError>,
    before: GameView,
    after: GameView,
    rule: Result<(GameView, T), GameError>,
) -> bool {
    match rule {
        Ok((g, t)) => r == Ok::<T, GameError>(t) && after =~= g,
        Err(e) => r == Err::<T, GameError>(e) && after =~= before,
    }
}

/// The largest number of seats.
pub const MAX_SEATS: usize = 12;

/// Whether an index, if there is one, lies below `n`.
pub open spec fn seat_ok(o: Option<usize>, n: nat) -> bool {
    o is Some ==> o->0 < n
}

/// Whether all indices lie below `n`.
pub open spec fn seats_ok(s: Seq<usize>, n: nat) -> bool {
    forall|i: int| 0 <= i < s.len() ==> #[trigger] s[i] < n
}

/// Whether all keys lie below `n` and no key occurs twice.
pub open spec fn keys_ok<V>(s: Seq<(usize, V)>, n: nat) -> bool {
    &&& keys_distinct(s)
    &&& forall|i: int| 0 <= i < s.len() ==> (#[trigger] s[i]).0 < n
}

/// Whether the votes are of distinct seats and for seats.
pub open spec fn votes_ok(s: Seq<(usize, Option<usize>)>, n: nat) -> bool {
    &&& keys_ok(s, n)
    &&& forall|i: int| 0 <= i < s.len() ==> seat_ok((#[trigger] s[i]).1, n)
}

/// Whether the picks are of distinct seats and for seats.
pub open spec fn picks_ok(s: Seq<(usize, usize)>, n: nat) -> bool {
    &&& keys_ok(s, n)
    &&& forall|i: int| 0 <= i < s.len() ==> (#[trigger] s[i]).1 < n
}

/// Whether all first components are seats.
pub open spec fn speakers_ok<V>(s: Seq<(usize, V)>, n: nat) -> bool {
    forall|i: int| 0 <= i < s.len() ==> (#[trigger] s[i]).0 < n
}

/// Whether all checks are of seats.
pub open spec fn checks_ok(s: Seq<SeerCheck>, n: nat) -> bool {
    forall|i: int| 0 <= i < s.len() ==> (#[trigger] s[i]).target_idx < n
}

/// Whether no two seats have the same open id.
pub open spec fn ids_distinct(players: Seq<PlayerView>) -> bool {
    forall|i: int, j: int|
        0 <= i < j < players.len() ==> (#[trigger] players[i]).open_id != (
        #[trigger] players[j]).open_id
}

/// The conditions under which somebody dies, is found, and so on, by seat.
impl GameView {
    /// Whether a game is running.
    pub open spec fn in_play(self) -> bool {
        self.stage != Stage::Lobby && self.stage != Stage::Ended
    }

    /// Whether everything that names a seat names one of this table.
    pub open spec fn seats_in_range(self) -> bool {
        let n = self.players.len();
        &&& seat_ok(self.night_victim, n)
        &&& seat_ok(self.witch_poison_target, n)
        &&& seat_ok(self.last_guard_target, n)
        &&& seat_ok(self.sheriff_idx, n)
        &&& seat_ok(self.pending_badge, n)
        &&& seat_ok(self.pending_hunter, n)
        &&& seat_ok(self.last_day_lynched, n)
        &&& picks_ok(self.wolf_kill_votes, n)
        &&& speakers_ok(self.wolf_chat, n)
        &&& speakers_ok(self.day_speeches, n)
        &&& speakers_ok(self.sheriff_speeches, n)
        &&& speakers_ok(self.last_words_speeches, n)
        &&& checks_ok(self.seer_history, n)
        &&& keys_ok(self.sheriff_nominations, n)
        &&& votes_ok(self.day_votes, n)
        &&& votes_ok(self.sheriff_votes, n)
        &&& seats_ok(self.sheriff_pk_candidates, n)
        &&& seats_ok(self.sheriff_original_candidates, n)
        &&& seats_ok(self.sheriff_speech_order, n)
        &&& seats_ok(self.day_pk_candidates, n)
        &&& seats_ok(self.day_speech_order, n)
        &&& seats_ok(self.last_words_queue, n)
        &&& seats_ok(self.last_night_deaths, n)
        &&& self.sheriff_vote_round <= 1
        &&& self.day_vote_round <= 1
    }

    /// Well-formedness: at most twelve seats, of distinct players; and while a game
    /// runs, whatever names a seat names one of the table.
    pub open spec fn wf(self) -> bool {
        &&& self.players.len() <= MAX_SEATS
        &&& ids_distinct(self.players)
        &&& self.in_play() ==> self.seats_in_range()
    }

    /// Whether seat `i` is taken by the player with this open id.
    pub open spec fn has_id(self, id: Seq<char>) -> spec_fn(int) -> bool {
        |i: int| self.players[i].open_id == id
    }

    /// The seat of the player with this open id.
    pub open spec fn seat_of(self, id: Seq<char>) -> Option<usize> {
        first_where(self.players.len(), self.has_id(id))
    }

    /// Whether the player in seat `i` is alive.
    pub open spec fn living(self) -> spec_fn(int) -> bool {
        |i: int| self.players[i].alive
    }

    /// Whether seat `i` holds this role.
    pub open spec fn holder(self, role: Role) -> spec_fn(int) -> bool {
        |i: int| self.players[i].role == Some(role)
    }

    /// Whether the player in seat `i` is a living wolf.
    pub open spec fn living_wolf(self) -> spec_fn(int) -> bool {
        |i: int|
            self.players[i].alive && self.players[i].role is Some && self.players[i].role->0.wolfish()
    }

    /// Whether the player in seat `i` is a living villager.
    pub open spec fn living_villager(self) -> spec_fn(int) -> bool {
        |i: int| self.players[i].alive && self.players[i].role == Some(Role::Villager)
    }

    /// Whether the player in seat `i` is a living good player with a skill.
    pub open spec fn living_god(self) -> spec_fn(int) -> bool {
        |i: int|
            self.players[i].alive && self.players[i].role is Some && self.players[i].role->0.godly()
    }

    /// The living, by seat.
    pub open spec fn alive_seats(self) -> Seq<usize> {
        indices_where(self.players.len(), self.living())
    }

    /// The living wolves, by seat.
    pub open spec fn wolf_seats(self) -> Seq<usize> {
        indices_where(self.players.len(), self.living_wolf())
    }

    /// The first seat that holds this role.
    pub open spec fn role_seat(self, role: Role) -> Option<usize> {
        first_where(self.players.len(), self.holder(role))
    }

    /// Whether the first seat that holds this role is of a living player.
    pub open spec fn role_alive(self, role: Role) -> bool {
        self.role_seat(role) is Some && self.players[self.role_seat(role)->0 as int].alive
    }

    /// Whether this seat exists and holds this role.
    pub open spec fn seat_is(self, i: usize, role: Role) -> bool {
        i < self.players.len() && self.players[i as int].role == Some(role)
    }

    /// Whether this seat exists and holds a wolf's role.
    pub open spec fn seat_is_wolf(self, i: usize) -> bool {
        i < self.players.len() && self.players[i as int].role is Some
            && self.players[i as int].role->0.wolfish()
    }

    /// Who has won. The good side wins when no wolf lives; else the wolves win when
    /// no villager or no good player with a skill lives.
    pub open spec fn winner(self) -> Option<Winner> {
        let n = self.players.len();
        if count_where(n, self.living_wolf()) == 0 {
            Some(Winner::Good)
        } else if count_where(n, self.living_villager()) == 0 || count_where(n, self.living_god()) == 0 {
            Some(Winner::Wolves)
        } else {
            None
        }
    }
}

/// The roles dealt to a number of players.
pub open spec fn board(n: nat) -> Option<Seq<Role>> {
    if n == 9 {
        Some(
            seq![
                Role::Werewolf, Role::Werewolf, Role::Werewolf, Role::Seer, Role::Witch,
                Role::Hunter, Role::Villager, Role::Villager, Role::Villager,
            ],
        )
    } else if n == 10 {
        Some(
            seq![
                Role::Werewolf, Role::Werewolf, Role::WolfKing, Role::Seer, Role::Witch,
                Role::Hunter, Role::Guard, Role::Villager, Role::Villager, Role::Villager,
            ],
        )
    } else if n == 11 {
        Some(
            seq![
                Role::Werewolf, Role::Werewolf, Role::WolfKing, Role::Seer, Role::Witch,
                Role::Hunter, Role::Guard, Role::Villager, Role::Villager, Role::Villager,
                Role::Villager,
            ],
        )
    } else if n == 12 {
        Some(
            seq![
                Role::Werewolf, Role::Werewolf, Role::Werewolf, Role::WolfKing, Role::Seer,
                Role::Witch, Role::Hunter, Role::Guard, Role::Villager, Role::Villager,
                Role::Villager, Role::Villager,
            ],
        )
    } else {
        None
    }
}

/// Writing at a seat keeps the keys seats.
pub proof fn lemma_put_keys_ok<V>(s: Seq<(usize, V)>, k: usize, v: V, n: nat)
    requires
        keys_ok(s, n),
        k < n,
    ensures
        keys_ok(put_key(s, k, v), n),
{
    law_put_distinct(s, k, v);
    lemma_key_pos(s, k);
}

/// Casting a vote keeps the votes of seats for seats.
pub proof fn lemma_put_votes_ok(
    s: Seq<(usize, Option<usize>)>,
    k: usize,
    v: Option<usize>,
    n: nat,
)
    requires
        votes_ok(s, n),
        k < n,
        seat_ok(v, n),
    ensures
        votes_ok(put_key(s, k, v), n),
{
    lemma_put_keys_ok(s, k, v, n);
    lemma_key_pos(s, k);
}

/// A seat found by its condition exists.
pub proof fn lemma_first_in_range(n: nat, keep: spec_fn(int) -> bool)
    requires
        n <= usize::MAX,
    ensures
        first_where(n, keep) is Some ==> first_where(n, keep)->0 < n && keep(
            first_where(n, keep)->0 as int,
        ),
{
    crate::seqs::lemma_first_from(0, n as int, keep);
}

impl WolfGame {
    /// The seat of the player with this open id.
    pub fn find_player(&self, open_id: &str) -> (r: Option<usize>)
        ensures
            r == self@.seat_of(open_id@),
            r is Some ==> r->0 < self.players.len() && self.players[r->0 as int].open_id@
                == open_id@,
    {
        let id = open_id.to_owned();
        let mut i: usize = 0;
        let n: usize = self.players.len();
        while i < n && !(self.players[i].open_id == id)
            invariant
                i <= n,
                n == self.players.len(),
                id@ == open_id@,
                forall|j: int| 0 <= j < i ==> !#[trigger] (self@.has_id(open_id@))(j),
            decreases n - i,
        {
            i = i + 1;
        }
        proof {
            lemma_first_is(n as int, self@.has_id(open_id@), i as int);
        }
        if i < n {
            Some(i)
        } else {
            None
        }
    }

    /// The seats of the living.
    pub fn alive_indices(&self) -> (r: Vec<usize>)
        ensures
            r@ == self@.alive_seats(),
    {
        let mut r: Vec<usize> = Vec::new();
        let mut i: usize = 0;
        while i < self.players.len()
            invariant
                i <= self.players.len(),
                r@ == indices_where(i as nat, self@.living()),
            decreases self.players.len() - i,
        {
            if self.players[i].alive {
                r.push(i);
            }
            i = i + 1;
        }
        r
    }

    /// The seats of the living wolves, the wolf king among them.
    pub fn alive_wolves(&self) -> (r: Vec<usize>)
        ensures
            r@ == self@.wolf_seats(),
    {
        let mut r: Vec<usize> = Vec::new();
        let mut i: usize = 0;
        while i < self.players.len()
            invariant
                i <= self.players.len(),
                r@ == indices_where(i as nat, self@.living_wolf()),
            decreases self.players.len() - i,
        {
            if self.players[i].alive && self.is_wolf(i) {
                r.push(i);
            }
            i = i + 1;
        }
        r
    }

    /// How many players live.
    pub fn alive_count(&self) -> (r: usize)
        ensures
            r == count_where(self@.players.len(), self@.living()),
            r == self@.alive_seats().len(),
    {
        let v = self.alive_indices();
        let n: usize = self.players.len();
        proof {
            lemma_indices_where(n as nat, self@.living());
        }
        v.len()
    }

    /// How many wolves live.
    pub fn alive_wolf_count(&self) -> (r: usize)
        ensures
            r == count_where(self@.players.len(), self@.living_wolf()),
            r == self@.wolf_seats().len(),
    {
        let v = self.alive_wolves();
        let n: usize = self.players.len();
        proof {
            lemma_indices_where(n as nat, self@.living_wolf());
        }
        v.len()
    }

    /// The first seat that holds this role.
    pub fn role_idx(&self, role: Role) -> (r: Option<usize>)
        ensures
            r == self@.role_seat(role),
            r is Some ==> r->0 < self.players.len(),
    {
        let mut i: usize = 0;
        let n: usize = self.players.len();
        while i < n && !self.holds_role(i, role)
            invariant
                i <= n,
                n == self.players.len(),
                forall|j: int| 0 <= j < i ==> !#[trigger] (self@.holder(role))(j),
            decreases n - i,
        {
            i = i + 1;
        }
        proof {
            lemma_first_is(n as int, self@.holder(role), i as int);
        }
        if i < n {
            Some(i)
        } else {
            None
        }
    }

    /// Whether the first seat that holds this role is of a living player.
    pub fn role_is_alive(&self, role: Role) -> (r: bool)
        ensures
            r == self@.role_alive(role),
    {
        match self.role_idx(role) {
            Some(i) => self.players[i].alive,
            None => false,
        }
    }

    /// Whether this seat exists and holds this role.
    pub fn holds_role(&self, idx: usize, role: Role) -> (r: bool)
        ensures
            r == self@.seat_is(idx, role),
    {
        if idx < self.players.len() {
            match self.players[idx].role {
                Some(x) => x == role,
                None => false,
            }
        } else {
            false
        }
    }

    /// Whether the seat is the witch's.
    pub fn is_witch(&self, idx: usize) -> (r: bool)
        ensures
            r == self@.seat_is(idx, Role::Witch),
    {
        self.holds_role(idx, Role::Witch)
    }

    /// Whether the seat is the seer's.
    pub fn is_seer(&self, idx: usize) -> (r: bool)
        ensures
            r == self@.seat_is(idx, Role::Seer),
    {
        self.holds_role(idx, Role::Seer)
    }

    /// Whether the seat is a wolf's.
    pub fn is_wolf(&self, idx: usize) -> (r: bool)
        ensures
            r == self@.seat_is_wolf(idx),
    {
        if idx < self.players.len() {
            match self.players[idx].role {
                Some(x) => x.is_wolf(),
                None => false,
            }
        } else {
            false
        }
    }

    /// Whether the seat is the guard's.
    pub fn is_guard(&self, idx: usize) -> (r: bool)
        ensures
            r == self@.seat_is(idx, Role::Guard),
    {
        self.holds_role(idx, Role::Guard)
    }

    /// Who has won, if anybody has.
    pub fn victory(&self) -> (r: Option<Winner>)
        ensures
            r == self@.winner(),
    {
        let wolves: usize = self.alive_wolf_count();
        if wolves == 0 {
            return Some(Winner::Good);
        }
        let mut villagers: usize = 0;
        let mut gods: usize = 0;
        let mut i: usize = 0;
        while i < self.players.len()
            invariant
                i <= self.players.len(),
                villagers <= i,
                gods <= i,
                villagers == count_where(i as nat, self@.living_villager()),
                gods == count_where(i as nat, self@.living_god()),
            decreases self.players.len() - i,
        {
            if self.players[i].alive {
                match self.players[i].role {
                    Some(role) => {
                        if role == Role::Villager {
                            villagers = villagers + 1;
                        } else if !role.is_wolf() {
                            gods = gods + 1;
                        }
                    },
                    None => {},
                }
            }
            i = i + 1;
        }
        if villagers == 0 || gods == 0 {
            Some(Winner::Wolves)
        } else {
            None
        }
    }
}

} // verus!
