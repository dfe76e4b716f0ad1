//! Who sits in the room of a chat before and between games.

use vstd::prelude::*;
use crate::json::{Json, JsonView};
use crate::persona::Persona;
use crate::seqs::{lemma_first_from, lemma_pick_step, lemma_take_ends, pick};
use crate::text::{begins, begins_with, cat2, cat3, decimal, decimal_text};
use crate::werewolf::cards::build_role_reveal_card;
use crate::werewolf::error::GameError;
use crate::werewolf::lobby::is_deal;
use crate::werewolf::state::{GameView, WolfGame};
use crate::werewolf::table::MAX_SEATS;
use crate::werewolf::types::{PlayerView, Role};
use crate::words::{law_number_reads_back, number_in, parse_u32, rest};

verus! {

/// The number of players up to which the room is filled.
pub const FILL_TARGET: usize = 9;

/// Why something in the room is refused.
#[derive(Debug, Clone, Copy, PartialEq, Eq, Structural)]
pub enum RoomError {
    /// The rules of the table refuse it.
    Game(GameError),
    NoRoom,
    LeaveRunning,
    NotJoined,
    NoModel,
    AlreadyStarted,
    NoAi,
    NoPlayers,
    PlayerCount(usize),
    Running,
}

impl RoomError {
    /// The message shown to the player.
    pub open spec fn text(self) -> Seq<char> {
        match self {
            RoomError::Game(e) => e.text(),
            RoomError::NoRoom => "当前没有狼人杀房间"@,
            RoomError::LeaveRunning => "狼人杀进行中，不能离开"@,
            RoomError::NotJoined => "你还没有加入房间"@,
            RoomError::NoModel => "机器人未配置 OPENAI_API_KEY，暂时无法使用 AI 补齐"@,
            RoomError::AlreadyStarted => "狼人杀已经开始"@,
            RoomError::NoAi => "房间里没有 AI"@,
            RoomError::NoPlayers => "当前没有玩家，先加入房间"@,
            RoomError::PlayerCount(n) => "狼人杀需要 9-12 名玩家，当前 "@ + decimal_text(n as nat),
            RoomError::Running => "狼人杀正在进行中"@,
        }
    }

    /// The message shown to the player.
    pub fn to_string(&self) -> (r: String)
        ensures
            r@ == self.text(),
    {
        match self {
            RoomError::Game(e) => e.to_string(),
            RoomError::NoRoom => "当前没有狼人杀房间".to_owned(),
            RoomError::LeaveRunning => "狼人杀进行中，不能离开".to_owned(),
            RoomError::NotJoined => "你还没有加入房间".to_owned(),
            RoomError::NoModel => "机器人未配置 OPENAI_API_KEY，暂时无法使用 AI 补齐".to_owned(),
            RoomError::AlreadyStarted => "狼人杀已经开始".to_owned(),
            RoomError::NoAi => "房间里没有 AI".to_owned(),
            RoomError::NoPlayers => "当前没有玩家，先加入房间".to_owned(),
            RoomError::PlayerCount(n) => cat2(
                "狼人杀需要 9-12 名玩家，当前 ",
                decimal(*n as u64).as_str(),
            ),
            RoomError::Running => "狼人杀正在进行中".to_owned(),
        }
    }
}

/// How many AIs it takes to fill the room.
pub fn ai_seats_needed(player_count: usize) -> (r: usize)
    ensures
        r == (if player_count < FILL_TARGET {
            FILL_TARGET - player_count
        } else {
            0
        }),
{
    if player_count < FILL_TARGET {
        FILL_TARGET - player_count
    } else {
        0
    }
}

/// The number in the open id of an AI.
pub open spec fn ai_number(id: Seq<char>) -> Option<u32> {
    if begins(id, "ai:"@) {
        number_in(rest(id, "ai:"@.len() as int))
    } else {
        None
    }
}

/// The largest number in the open id of an AI, or zero.
pub open spec fn last_ai(players: Seq<PlayerView>) -> nat
    decreases players.len(),
{
    if players.len() == 0 {
        0
    } else {
        let m = last_ai(players.drop_last());
        match ai_number(players.last().open_id) {
            Some(n) => if n > m {
                n as nat
            } else {
                m
            },
            None => m,
        }
    }
}

/// The position of the last AI, or -1.
pub open spec fn last_ai_seat(players: Seq<PlayerView>) -> int
    decreases players.len(),
{
    if players.len() == 0 {
        -1
    } else if players.last().is_ai {
        players.len() - 1
    } else {
        last_ai_seat(players.drop_last())
    }
}

/// The open id of the AI with a number.
pub open spec fn ai_id(number: nat) -> Seq<char> {
    "ai:"@ + decimal_text(number)
}

impl GameView {
    /// The table without the player in a seat.
    pub open spec fn without(self, i: int) -> GameView {
        GameView { players: self.players.remove(i), ..self }
    }

    /// Somebody leaves the room.
    pub open spec fn left(self, id: Seq<char>) -> Result<GameView, RoomError> {
        if self.in_play() {
            Err(RoomError::LeaveRunning)
        } else {
            match self.seat_of(id) {
                Some(i) => Ok(self.without(i as int)),
                None => Err(RoomError::NotJoined),
            }
        }
    }

    /// An AI with this style and number sits down.
    pub open spec fn ai_joined(self, persona: Persona, number: nat) -> Result<GameView, GameError> {
        match self.seat_refusal(ai_id(number)) {
            Some(e) => Err(e),
            None => Ok(
                self.seated(
                    ai_id(number),
                    persona.label_text() + " #"@ + decimal_text(self.players.len() + 1),
                    true,
                    Some(persona),
                ),
            ),
        }
    }

    /// AIs with these styles sit down, numbered from `number` on, until one is refused.
    pub open spec fn filled(self, personas: Seq<Persona>, number: nat) -> (
        GameView,
        Result<(), GameError>,
    )
        decreases personas.len(),
    {
        if personas.len() == 0 {
            (self, Ok(()))
        } else {
            match self.ai_joined(personas[0], number) {
                Err(e) => (self, Err(e)),
                Ok(g) => g.filled(personas.subrange(1, personas.len() as int), number + 1),
            }
        }
    }

    /// Why no AI may sit down.
    pub open spec fn ai_refusal(self, has_model: bool) -> Option<RoomError> {
        if !has_model {
            Some(RoomError::NoModel)
        } else if self.in_play() {
            Some(RoomError::AlreadyStarted)
        } else {
            None
        }
    }

    /// The last AI leaves.
    pub open spec fn ai_removed(self) -> Result<GameView, RoomError> {
        if self.in_play() {
            Err(RoomError::AlreadyStarted)
        } else if last_ai_seat(self.players) < 0 {
            Err(RoomError::NoAi)
        } else {
            Ok(self.without(last_ai_seat(self.players)))
        }
    }

    /// Why the room may not start a game.
    pub open spec fn room_start_refusal(self) -> Option<RoomError> {
        if self.players.len() < 9 || self.players.len() > 12 {
            Some(RoomError::PlayerCount(self.players.len() as usize))
        } else if self.in_play() {
            Some(RoomError::Running)
        } else {
            None
        }
    }
}

proof fn lemma_without_wf(g: GameView, i: int)
    requires
        g.wf(),
        !g.in_play(),
        0 <= i < g.players.len(),
    ensures
        g.without(i).wf(),
{
    let h = g.without(i);
    assert forall|a: int, b: int| 0 <= a < b < h.players.len() implies (
    #[trigger] h.players[a]).open_id != (#[trigger] h.players[b]).open_id by {
        let x = if a < i {
            a
        } else {
            a + 1
        };
        let y = if b < i {
            b
        } else {
            b + 1
        };
        assert(h.players[a] == g.players[x]);
        assert(h.players[b] == g.players[y]);
    }
}

proof fn lemma_last_ai(players: Seq<PlayerView>)
    ensures
        last_ai(players) <= u32::MAX,
        forall|i: int|
            0 <= i < players.len() && ai_number((#[trigger] players[i]).open_id) is Some
                ==> ai_number(players[i].open_id)->0 <= last_ai(players),
    decreases players.len(),
{
    if players.len() > 0 {
        lemma_last_ai(players.drop_last());
        assert forall|i: int|
            0 <= i < players.len() && ai_number((#[trigger] players[i]).open_id) is Some implies
            ai_number(players[i].open_id)->0 <= last_ai(players) by {
            if i < players.len() - 1 {
                assert(players.drop_last()[i] == players[i]);
            }
        }
    }
}

impl WolfGame {
    fn drop_seat(&mut self, i: usize)
        requires
            old(self)@.wf(),
            !old(self)@.in_play(),
            i < old(self)@.players.len(),
        ensures
            final(self)@.wf(),
            final(self)@ == old(self)@.without(i as int),
    {
        let ghost g = self@;
        let gone = self.players.remove(i);
        assert(self@.players =~= g.players.remove(i as int));
        assert(self@ == g.without(i as int));
        proof {
            lemma_without_wf(g, i as int);
        }
    }

    /// Somebody leaves the room.
    pub fn leave(&mut self, open_id: &str) -> (r: Result<(), RoomError>)
        requires
            old(self)@.wf(),
        ensures
            final(self)@.wf(),
            match old(self)@.left(open_id@) {
                Ok(g) => r == Ok::<(), RoomError>(()) && final(self)@ == g,
                Err(e) => r == Err::<(), RoomError>(e) && final(self)@ == old(self)@,
            },
    {
        if self.running() {
            return Err(RoomError::LeaveRunning);
        }
        match self.find_player(open_id) {
            Some(i) => {
                self.drop_seat(i);
                Ok(())
            },
            None => Err(RoomError::NotJoined),
        }
    }

    /// The largest number in the open id of an AI, or zero.
    pub fn last_ai_number(&self) -> (r: u32)
        ensures
            r == last_ai(self@.players),
    {
        let ghost ps = self@.players;
        let mut m: u32 = 0;
        let mut i: usize = 0;
        assert(ps.take(0) =~= Seq::empty());
        while i < self.players.len()
            invariant
                i <= self.players.len(),
                ps == self@.players,
                ps.len() == self.players.len(),
                m == last_ai(ps.take(i as int)),
            decreases self.players.len() - i,
        {
            assert(ps.take(i + 1).drop_last() =~= ps.take(i as int));
            assert(ps.take(i + 1).last() == ps[i as int]);
            let id = self.players[i].open_id.as_str();
            if begins_with(id, "ai:") {
                let k: usize = "ai:".unicode_len();
                if let Some(n) = parse_u32(id.substring_char(k, id.unicode_len())) {
                    if n > m {
                        m = n;
                    }
                }
            }
            i = i + 1;
        }
        assert(ps.take(i as int) =~= ps);
        m
    }

    fn seat_ai(&mut self, persona: Persona, number: u64) -> (r: Result<(), GameError>)
        requires
            old(self)@.wf(),
        ensures
            final(self)@.wf(),
            match old(self)@.ai_joined(persona, number as nat) {
                Ok(g) => r == Ok::<(), GameError>(()) && final(self)@ == g,
                Err(e) => r == Err::<(), GameError>(e) && final(self)@ == old(self)@,
            },
    {
        let id = cat2("ai:", decimal(number).as_str());
        let n: u64 = self.players.len() as u64;
        let name = cat3(persona.label(), " #", decimal(n + 1).as_str());
        self.add_ai_player(id, name, persona)
    }

    /// AIs with these styles sit down, until one is refused.
    pub fn fill_with(&mut self, personas: &Vec<Persona>) -> (r: Result<(), GameError>)
        requires
            old(self)@.wf(),
            personas.len() <= MAX_SEATS,
        ensures
            final(self)@.wf(),
            (final(self)@, r) == old(self)@.filled(
                personas@,
                last_ai(old(self)@.players) + 1,
            ),
    {
        let ghost whole = self@.filled(personas@, last_ai(self@.players) + 1);
        let mut number: u64 = self.last_ai_number() as u64 + 1;
        let mut i: usize = 0;
        assert(personas@.subrange(0, personas@.len() as int) =~= personas@);
        while i < personas.len()
            invariant
                i <= personas.len(),
                personas.len() <= MAX_SEATS,
                self@.wf(),
                number <= u32::MAX + 1 + i,
                whole == old(self)@.filled(personas@, last_ai(old(self)@.players) + 1),
                self@.filled(personas@.subrange(i as int, personas@.len() as int), number as nat)
                    == whole,
            decreases personas.len() - i,
        {
            let ghost left = personas@.subrange(i as int, personas@.len() as int);
            assert(left.subrange(1, left.len() as int) =~= personas@.subrange(
                i + 1,
                personas@.len() as int,
            ));
            match self.seat_ai(personas[i], number) {
                Err(e) => {
                    return Err(e);
                },
                Ok(_) => {},
            }
            number = number + 1;
            i = i + 1;
        }
        Ok(())
    }
}

fn draw_personas(n: usize) -> (r: Vec<Persona>)
    ensures
        r.len() == n,
{
    let mut r: Vec<Persona> = Vec::new();
    let mut i: usize = 0;
    while i < n
        invariant
            i <= n,
            r.len() == i,
        decreases n - i,
    {
        r.push(Persona::random());
        i = i + 1;
    }
    r
}

/// What is shown of the rules' refusal.
pub open spec fn as_room(r: Result<(), GameError>) -> Result<(), RoomError> {
    match r {
        Ok(_) => Ok(()),
        Err(e) => Err(RoomError::Game(e)),
    }
}

fn to_room(r: Result<(), GameError>) -> (q: Result<(), RoomError>)
    ensures
        q == as_room(r),
{
    match r {
        Ok(_) => Ok(()),
        Err(e) => Err(RoomError::Game(e)),
    }
}

impl WolfGame {
    fn join_ais(&mut self, count: usize) -> (r: Result<(), RoomError>)
        requires
            old(self)@.wf(),
            count <= MAX_SEATS,
        ensures
            final(self)@.wf(),
            exists|personas: Seq<Persona>|
                personas.len() == count && (final(self)@, r) == ({
                    let f = #[trigger] old(self)@.filled(
                        personas,
                        last_ai(old(self)@.players) + 1,
                    );
                    (f.0, as_room(f.1))
                }),
    {
        let ghost g = self@;
        let personas = draw_personas(count);
        let done = self.fill_with(&personas);
        let r = to_room(done);
        proof {
            let f = g.filled(personas@, last_ai(g.players) + 1);
            assert((self@, r) == (f.0, as_room(f.1)));
        }
        r
    }

    /// AIs of random styles fill the room up to nine players.
    pub fn fill_ai_lobby(&mut self, has_model: bool) -> (r: Result<(), RoomError>)
        requires
            old(self)@.wf(),
        ensures
            final(self)@.wf(),
            match old(self)@.ai_refusal(has_model) {
                Some(e) => r == Err::<(), RoomError>(e) && final(self)@ == old(self)@,
                None => exists|personas: Seq<Persona>|
                    personas.len() == (if old(self)@.players.len() < FILL_TARGET {
                        FILL_TARGET - old(self)@.players.len()
                    } else {
                        0
                    }) && (final(self)@, r) == ({
                        let f = #[trigger] old(self)@.filled(
                            personas,
                            last_ai(old(self)@.players) + 1,
                        );
                        (f.0, as_room(f.1))
                    }),
            },
    {
        if !has_model {
            return Err(RoomError::NoModel);
        }
        if self.running() {
            return Err(RoomError::AlreadyStarted);
        }
        self.join_ais(ai_seats_needed(self.players.len()))
    }

    /// One AI of a random style joins, up to twelve players.
    pub fn add_ai(&mut self, has_model: bool) -> (r: Result<(), RoomError>)
        requires
            old(self)@.wf(),
        ensures
            final(self)@.wf(),
            match old(self)@.ai_refusal(has_model) {
                Some(e) => r == Err::<(), RoomError>(e) && final(self)@ == old(self)@,
                None => exists|personas: Seq<Persona>|
                    personas.len() == 1 && (final(self)@, r) == ({
                        let f = #[trigger] old(self)@.filled(
                            personas,
                            last_ai(old(self)@.players) + 1,
                        );
                        (f.0, as_room(f.1))
                    }),
            },
    {
        if !has_model {
            return Err(RoomError::NoModel);
        }
        if self.running() {
            return Err(RoomError::AlreadyStarted);
        }
        self.join_ais(1)
    }

    /// The last AI leaves.
    pub fn remove_ai(&mut self) -> (r: Result<(), RoomError>)
        requires
            old(self)@.wf(),
        ensures
            final(self)@.wf(),
            match old(self)@.ai_removed() {
                Ok(g) => r == Ok::<(), RoomError>(()) && final(self)@ == g,
                Err(e) => r == Err::<(), RoomError>(e) && final(self)@ == old(self)@,
            },
    {
        if self.running() {
            return Err(RoomError::AlreadyStarted);
        }
        let ghost ps = self@.players;
        let mut i: usize = self.players.len();
        assert(ps.take(i as int) =~= ps);
        while i > 0 && !self.players[i - 1].is_ai
            invariant
                i <= self.players.len(),
                ps == self@.players,
                ps.len() == self.players.len(),
                last_ai_seat(ps) == last_ai_seat(ps.take(i as int)),
            decreases i,
        {
            assert(ps.take(i as int).drop_last() =~= ps.take(i - 1));
            assert(ps.take(i as int).last() == ps[i - 1]);
            i = i - 1;
        }
        if i == 0 {
            return Err(RoomError::NoAi);
        }
        assert(ps.take(i as int).last() == ps[i - 1]);
        self.drop_seat(i - 1);
        Ok(())
    }

    /// The room starts a game.
    pub fn start_room(&mut self) -> (r: Result<(), RoomError>)
        requires
            old(self)@.wf(),
            old(self).game_count < u32::MAX,
        ensures
            final(self)@.wf(),
            match old(self)@.room_start_refusal() {
                Some(e) => r == Err::<(), RoomError>(e) && final(self)@ == old(self)@,
                None => r == Ok::<(), RoomError>(()) && exists|roles: Seq<Role>|
                    is_deal(roles, old(self)@.players.len()) && final(self)@ == (
                    #[trigger] old(self)@.started(roles)),
            },
    {
        let n: usize = self.players.len();
        if n < 9 || n > 12 {
            return Err(RoomError::PlayerCount(n));
        }
        if self.running() {
            return Err(RoomError::Running);
        }
        let started = self.start_game();
        to_room(started)
    }
}

proof fn lemma_ai_id(number: nat)
    requires
        number <= u32::MAX,
    ensures
        ai_number(ai_id(number)) == Some(number as u32),
{
    let id = ai_id(number);
    let p = "ai:"@;
    law_number_reads_back(number as u32);
    assert(id.subrange(0, p.len() as int) =~= p);
    assert(rest(id, p.len() as int) =~= decimal_text(number));
}

proof fn lemma_new_ai_sits_down(g: GameView, persona: Persona, number: nat)
    requires
        g.players.len() < MAX_SEATS,
        !g.in_play(),
        last_ai(g.players) < number <= u32::MAX,
    ensures
        g.ai_joined(persona, number) is Ok,
        last_ai(g.ai_joined(persona, number)->Ok_0.players) == number,
{
    let id = ai_id(number);
    lemma_last_ai(g.players);
    lemma_ai_id(number);
    lemma_first_from(0, g.players.len() as int, g.has_id(id));
    if g.seat_of(id) is Some {
        let i = g.seat_of(id)->0;
        assert((g.has_id(id))(i as int));
        assert(ai_number(g.players[i as int].open_id) is Some);
    }
    let h = g.ai_joined(persona, number)->Ok_0;
    assert(h.players.drop_last() =~= g.players);
}

/// Filling succeeds: the AIs all sit down, after the players who were there, and the room
/// has as many players more as there are AIs.
pub proof fn law_fill_succeeds(g: GameView, personas: Seq<Persona>, number: nat)
    requires
        !g.in_play(),
        g.players.len() + personas.len() <= MAX_SEATS,
        last_ai(g.players) < number,
        number + personas.len() <= u32::MAX,
    ensures
        g.filled(personas, number).1 is Ok,
        g.filled(personas, number).0.players.len() == g.players.len() + personas.len(),
        g.filled(personas, number).0.players.take(g.players.len() as int) == g.players,
        forall|i: int|
            g.players.len() <= i < g.players.len() + personas.len() ==> (
            #[trigger] g.filled(personas, number).0.players[i]).is_ai,
    decreases personas.len(),
{
    if personas.len() > 0 {
        lemma_new_ai_sits_down(g, personas[0], number);
        let h = g.ai_joined(personas[0], number)->Ok_0;
        let more = personas.subrange(1, personas.len() as int);
        law_fill_succeeds(h, more, number + 1);
        let f = h.filled(more, number + 1).0;
        assert(g.filled(personas, number) == h.filled(more, number + 1));
        assert(f.players.take(g.players.len() as int) =~= g.players) by {
            assert forall|i: int| 0 <= i < g.players.len() implies #[trigger] f.players[i]
                == g.players[i] by {
                assert(f.players.take(h.players.len() as int)[i] == h.players[i]);
            }
        }
        assert forall|i: int|
            g.players.len() <= i < g.players.len() + personas.len() implies (
        #[trigger] f.players[i]).is_ai by {
            if i == g.players.len() {
                assert(f.players.take(h.players.len() as int)[i] == h.players[i]);
            }
        }
    } else {
        assert(g.players.take(g.players.len() as int) =~= g.players);
    }
}

/// Filling a room of at most nine leaves nine players in it.
pub proof fn law_fill_reaches_nine(g: GameView, personas: Seq<Persona>)
    requires
        !g.in_play(),
        g.players.len() <= FILL_TARGET,
        personas.len() == FILL_TARGET - g.players.len(),
        last_ai(g.players) + FILL_TARGET < u32::MAX,
    ensures
        g.filled(personas, last_ai(g.players) + 1).1 is Ok,
        g.filled(personas, last_ai(g.players) + 1).0.players.len() == 9,
{
    law_fill_succeeds(g, personas, last_ai(g.players) + 1);
}

/// Removing an AI undoes adding one: the players are those who were there.
pub proof fn law_remove_undoes_add(g: GameView, persona: Persona, number: nat)
    requires
        g.ai_joined(persona, number) is Ok,
    ensures
        g.ai_joined(persona, number)->Ok_0.ai_removed() is Ok,
        g.ai_joined(persona, number)->Ok_0.ai_removed()->Ok_0.players == g.players,
{
    let h = g.ai_joined(persona, number)->Ok_0;
    assert(h.players.last().is_ai);
    assert(h.players.remove(h.players.len() - 1) =~= g.players);
}

/// Leaving undoes joining: the players are those who were there.
pub proof fn law_leave_undoes_join(g: GameView, id: Seq<char>, name: Seq<char>)
    requires
        g.wf(),
        g.seat_refusal(id) is None,
    ensures
        g.seated(id, name, false, None).left(id) is Ok,
        g.seated(id, name, false, None).left(id)->Ok_0.players == g.players,
{
    let h = g.seated(id, name, false, None);
    let n = g.players.len() as int;
    lemma_first_from(0, n, g.has_id(id));
    assert forall|j: int| 0 <= j < n implies !#[trigger] (h.has_id(id))(j) by {
        assert(!(g.has_id(id))(j));
    }
    assert((h.has_id(id))(n));
    crate::seqs::lemma_first_is(n + 1, h.has_id(id), n);
    assert(h.players.remove(n) =~= g.players);
}

// ---- the role cards ----

/// A human with the card that tells the role.
pub open spec fn reveal_of(g: GameView) -> spec_fn(PlayerView) -> (Seq<char>, JsonView) {
    |p: PlayerView| (p.open_id, g.role_reveal_card(p))
}

/// Whether a player is human.
pub open spec fn is_human() -> spec_fn(PlayerView) -> bool {
    |p: PlayerView| !p.is_ai
}

/// The view of the role cards.
pub open spec fn reveal_views(v: Seq<(String, Json)>) -> Seq<(Seq<char>, JsonView)> {
    crate::json::fields(v)
}

impl WolfGame {
    /// The card of every human that tells the role.
    pub fn role_cards(&self) -> (r: Vec<(String, Json)>)
        requires
            forall|i: int|
                0 <= i < self@.players.len() ==> (#[trigger] self@.players[i]).role is Some,
        ensures
            reveal_views(r@) == pick(self@.players, is_human(), reveal_of(self@)),
    {
        let ghost ps = self@.players;
        let ghost f = reveal_of(self@);
        let mut r: Vec<(String, Json)> = Vec::new();
        let mut i: usize = 0;
        proof {
            lemma_take_ends(ps);
            assert(reveal_views(r@) =~= Seq::empty());
        }
        while i < self.players.len()
            invariant
                i <= self.players.len(),
                ps == self@.players,
                ps.len() == self.players.len(),
                f == reveal_of(self@),
                forall|j: int|
                    0 <= j < self@.players.len() ==> (#[trigger] self@.players[j]).role is Some,
                reveal_views(r@) == pick(ps.take(i as int), is_human(), f),
            decreases self.players.len() - i,
        {
            let ghost before = reveal_views(r@);
            proof {
                lemma_pick_step(ps, is_human(), f, i as int);
                assert(self@.players[i as int].role is Some);
            }
            let p = &self.players[i];
            if !p.is_ai {
                let c = build_role_reveal_card(self, p);
                let ghost m = c.model();
                r.push((p.open_id.clone(), c));
                assert(reveal_views(r@) =~= before.push((ps[i as int].open_id, m)));
            }
            i = i + 1;
        }
        proof {
            lemma_take_ends(ps);
        }
        r
    }
}

} // verus!
