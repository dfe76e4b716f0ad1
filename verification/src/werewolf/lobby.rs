//! Taking seats, dealing the roles and starting a game.

use vstd::prelude::*;
use crate::persona::Persona;
use crate::random::random_below;
use crate::seqs::lemma_first_from;
use crate::text::{cat3, decimal, decimal_text, trim, trimmed};
use crate::werewolf::error::GameError;
use crate::werewolf::state::{empty_table, GameView, WolfGame};
use crate::werewolf::table::{board, MAX_SEATS};
use crate::werewolf::types::{Player, PlayerView, Role, Stage, ThinkingEntry, ThinkingKind,
    ThinkingView};

verus! {

/// The roles dealt to `n` players, in a fixed order; only boards for nine to twelve
/// players exist.
pub fn role_distribution(n: usize) -> (r: Result<Vec<Role>, GameError>)
    ensures
        board(n as nat) is None ==> r == Err::<Vec<Role>, GameError>(GameError::PlayerCount(n)),
        board(n as nat) is Some ==> r is Ok && r->Ok_0@ == board(n as nat)->0,
{
    if n == 9 {
        Ok(
            vec![
                Role::Werewolf, Role::Werewolf, Role::Werewolf, Role::Seer, Role::Witch,
                Role::Hunter, Role::Villager, Role::Villager, Role::Villager,
            ],
        )
    } else if n == 10 {
        Ok(
            vec![
                Role::Werewolf, Role::Werewolf, Role::WolfKing, Role::Seer, Role::Witch,
                Role::Hunter, Role::Guard, Role::Villager, Role::Villager, Role::Villager,
            ],
        )
    } else if n == 11 {
        Ok(
            vec![
                Role::Werewolf, Role::Werewolf, Role::WolfKing, Role::Seer, Role::Witch,
                Role::Hunter, Role::Guard, Role::Villager, Role::Villager, Role::Villager,
                Role::Villager,
            ],
        )
    } else if n == 12 {
        Ok(
            vec![
                Role::Werewolf, Role::Werewolf, Role::Werewolf, Role::WolfKing, Role::Seer,
                Role::Witch, Role::Hunter, Role::Guard, Role::Villager, Role::Villager,
                Role::Villager, Role::Villager,
            ],
        )
    } else {
        Err(GameError::PlayerCount(n))
    }
}

/// Whether a board elects a sheriff: those of ten or more players do.
pub fn has_sheriff_election(n: usize) -> (r: bool)
    ensures
        r == (n >= 10),
{
    n >= 10
}

/// Exchanging two entries keeps the entries.
pub proof fn lemma_swap<T>(s: Seq<T>, i: int, j: int)
    requires
        0 <= i < s.len(),
        0 <= j < s.len(),
    ensures
        s.update(i, s[j]).update(j, s[i]).to_multiset() == s.to_multiset(),
{
    vstd::seq_lib::to_multiset_update(s, i, s[j]);
    vstd::seq_lib::to_multiset_update(s.update(i, s[j]), j, s[i]);
    s.to_multiset_ensures();
    assert(s.contains(s[i]));
    assert(s.contains(s[j]));
    assert(s.update(i, s[j]).update(j, s[i]).to_multiset() =~= s.to_multiset());
}

/// The entries after the exchanges from the last position down to `k`, each of a position
/// with the one drawn for it.
pub open spec fn shuffled<T>(s: Seq<T>, draws: Seq<usize>, k: nat) -> Seq<T>
    decreases s.len() - k,
{
    if k >= s.len() {
        s
    } else {
        let t = shuffled(s, draws, k + 1);
        let j = draws[k as int] as int;
        t.update(k as int, t[j]).update(j, t[k as int])
    }
}

/// Whether there is a draw for each of `n` positions, at or before the position.
pub open spec fn draws_fit(draws: Seq<usize>, n: nat) -> bool {
    draws.len() == n && forall|k: int| 0 <= k < n ==> #[trigger] draws[k] <= k
}

/// Exchanges each entry, from the last down to the second, with the one at the position
/// drawn for it.
pub fn shuffle_by<T: Copy>(v: &mut Vec<T>, draws: &Vec<usize>)
    requires
        draws_fit(draws@, old(v)@.len()),
    ensures
        final(v)@ == shuffled(old(v)@, draws@, 1),
        final(v)@.to_multiset() == old(v)@.to_multiset(),
        final(v)@.len() == old(v)@.len(),
{
    let ghost s = v@;
    let mut i: usize = v.len();
    if i == 0 {
        return ;
    }
    while i > 1
        invariant
            1 <= i <= v.len(),
            s == old(v)@,
            v@.len() == s.len(),
            draws_fit(draws@, s.len()),
            v@ == shuffled(s, draws@, i as nat),
            v@.to_multiset() == s.to_multiset(),
        decreases i,
    {
        i = i - 1;
        let j: usize = draws[i];
        proof {
            lemma_swap(v@, i as int, j as int);
        }
        let a = v[i];
        let b = v[j];
        v[i] = b;
        v[j] = a;
    }
}

/// Shuffles the list by exchanging each entry, from the last down, with a random one
/// at or before it. The result holds the same entries as often.
pub fn shuffle_in_place<T: Copy>(v: &mut Vec<T>)
    ensures
        final(v)@.to_multiset() == old(v)@.to_multiset(),
        final(v)@.len() == old(v)@.len(),
        exists|draws: Seq<usize>|
            draws_fit(draws, old(v)@.len()) && final(v)@ == #[trigger] shuffled(
                old(v)@,
                draws,
                1,
            ),
{
    let n: usize = v.len();
    let mut draws: Vec<usize> = vec![0; n];
    let mut i: usize = n;
    while i > 1
        invariant
            i <= n,
            draws_fit(draws@, n as nat),
        decreases i,
    {
        let j: usize = random_below(i);
        i = i - 1;
        draws[i] = j;
    }
    shuffle_by(v, &draws);
}

/// Seats with the roles dealt and everybody alive.
pub open spec fn dealt(players: Seq<PlayerView>, roles: Seq<Role>) -> Seq<PlayerView> {
    Seq::new(
        players.len(),
        |i: int| PlayerView { role: Some(roles[i]), alive: true, ..players[i] },
    )
}

/// Whether a board has this many entries of each role in these roles.
pub open spec fn is_deal(roles: Seq<Role>, n: nat) -> bool {
    board(n) is Some && roles.len() == n && roles.to_multiset() == board(n)->0.to_multiset()
}

impl GameView {
    /// Why a player with this open id may not sit down.
    pub open spec fn seat_refusal(self, id: Seq<char>) -> Option<GameError> {
        if self.in_play() {
            Some(GameError::GameRunning)
        } else if self.seat_of(id) is Some {
            Some(GameError::AlreadySeated)
        } else if self.players.len() >= MAX_SEATS {
            Some(GameError::TableFull)
        } else {
            None
        }
    }

    /// The table with one more player, back in the lobby.
    pub open spec fn seated(
        self,
        id: Seq<char>,
        name: Seq<char>,
        is_ai: bool,
        persona: Option<Persona>,
    ) -> GameView {
        GameView {
            stage: Stage::Lobby,
            players: self.players.push(
                PlayerView { open_id: id, name, role: None, alive: true, is_ai, persona },
            ),
            ..self
        }
    }

    /// Why a game may not start.
    pub open spec fn start_refusal(self) -> Option<GameError> {
        if self.in_play() {
            Some(GameError::AlreadyStarted(self.stage))
        } else if board(self.players.len()) is None {
            Some(GameError::PlayerCount(self.players.len() as usize))
        } else {
            None
        }
    }

    /// The first night of a game with these roles. Nothing of an earlier game is left
    /// but the seats, the number of games and the lobby card.
    pub open spec fn started(self, roles: Seq<Role>) -> GameView {
        let players = dealt(self.players, roles);
        let fresh = GameView {
            players,
            day: 1,
            game_count: (self.game_count + 1) as u32,
            lobby_msg_id: self.lobby_msg_id,
            sheriff_enabled: self.players.len() >= 10,
            event_log: seq![
                "第 1 夜开始，"@ + decimal_text(self.players.len()) + " 名玩家入夜。"@,
            ],
            ..empty_table(self.chat_id)
        };
        GameView {
            stage: if fresh.role_seat(Role::Guard) is Some {
                Stage::GuardPick
            } else {
                Stage::WolvesPick
            },
            ..fresh
        }
    }

    /// The table with a private thought noted; blank thoughts are not kept.
    pub open spec fn with_thought(
        self,
        player: usize,
        kind: ThinkingKind,
        thinking: Seq<char>,
    ) -> GameView {
        if trimmed(thinking).len() == 0 {
            self
        } else {
            GameView {
                thinking_log: self.thinking_log.push(
                    ThinkingView { player, day: self.day, kind, thinking: trimmed(thinking) },
                ),
                ..self
            }
        }
    }
}

impl WolfGame {
    /// Whether a game is running.
    pub fn running(&self) -> (r: bool)
        ensures
            r == self@.in_play(),
    {
        !matches!(self.stage, Stage::Lobby | Stage::Ended)
    }

    /// Notes a private thought of an AI player, without the white space around it.
    pub fn push_thinking(&mut self, player: usize, kind: ThinkingKind, thinking: String)
        ensures
            final(self)@ == old(self)@.with_thought(player, kind, thinking@),
    {
        let text = trim(thinking.as_str());
        if text.is_empty() {
            return;
        }
        self.thinking_log.push(
            ThinkingEntry { player, day: self.day, kind, thinking: text.to_owned() },
        );
    }

    /// A human takes a seat.
    pub fn add_player(&mut self, open_id: String, name: String) -> (r: Result<(), GameError>)
        requires
            old(self)@.wf(),
        ensures
            final(self)@.wf(),
            match old(self)@.seat_refusal(open_id@) {
                Some(e) => r == Err::<(), GameError>(e) && final(self)@ == old(self)@,
                None => r == Ok::<(), GameError>(()) && final(self)@ == old(self)@.seated(
                    open_id@,
                    name@,
                    false,
                    None,
                ),
            },
    {
        self.add_player_inner(open_id, name, false, None)
    }

    /// An AI takes a seat.
    pub fn add_ai_player(&mut self, open_id: String, name: String, persona: Persona) -> (r: Result<
        (),
        GameError,
    >)
        requires
            old(self)@.wf(),
        ensures
            final(self)@.wf(),
            match old(self)@.seat_refusal(open_id@) {
                Some(e) => r == Err::<(), GameError>(e) && final(self)@ == old(self)@,
                None => r == Ok::<(), GameError>(()) && final(self)@ == old(self)@.seated(
                    open_id@,
                    name@,
                    true,
                    Some(persona),
                ),
            },
    {
        self.add_player_inner(open_id, name, true, Some(persona))
    }

    fn add_player_inner(
        &mut self,
        open_id: String,
        name: String,
        is_ai: bool,
        persona: Option<Persona>,
    ) -> (r: Result<(), GameError>)
        requires
            old(self)@.wf(),
        ensures
            final(self)@.wf(),
            match old(self)@.seat_refusal(open_id@) {
                Some(e) => r == Err::<(), GameError>(e) && final(self)@ == old(self)@,
                None => r == Ok::<(), GameError>(()) && final(self)@ == old(self)@.seated(
                    open_id@,
                    name@,
                    is_ai,
                    persona,
                ),
            },
    {
        if self.running() {
            return Err(GameError::GameRunning);
        }
        if self.find_player(open_id.as_str()).is_some() {
            return Err(GameError::AlreadySeated);
        }
        if self.players.len() >= MAX_SEATS {
            return Err(GameError::TableFull);
        }
        let ghost before = self@;
        let ghost id = open_id@;
        self.stage = Stage::Lobby;
        self.players.push(Player { open_id, name, role: None, alive: true, is_ai, persona });
        proof {
            lemma_first_from(0, before.players.len() as int, before.has_id(id));
            assert(self@ == before.seated(id, name@, is_ai, persona));
            assert forall|i: int, j: int| 0 <= i < j < self@.players.len() implies (
            #[trigger] self@.players[i]).open_id != (#[trigger] self@.players[j]).open_id by {
                assert(self@.players[i] == before.players[i]);
                if j == before.players.len() {
                    assert(!(before.has_id(id))(i));
                } else {
                    assert(self@.players[j] == before.players[j]);
                }
            }
        }
        Ok(())
    }

    /// Starts a game with these roles, one per seat, in the order of the seats.
    pub fn start_with_roles(&mut self, roles: &Vec<Role>)
        requires
            roles.len() == old(self).players.len(),
            old(self).game_count < u32::MAX,
        ensures
            final(self)@ == old(self)@.started(roles@),
            old(self)@.wf() ==> final(self)@.wf(),
    {
        let n: usize = self.players.len();
        let mut i: usize = 0;
        while i < n
            invariant
                i <= n,
                n == roles.len(),
                self.players.len() == n,
                old(self).players.len() == n,
                self.chat_id == old(self).chat_id,
                self.game_count == old(self).game_count,
                self.lobby_msg_id == old(self).lobby_msg_id,
                forall|k: int|
                    #![trigger self.players@[k]]
                    #![trigger old(self).players@[k]]
                    0 <= k < n ==> self.players@[k].deep_view() == (if k < i {
                        dealt(old(self)@.players, roles@)[k]
                    } else {
                        old(self)@.players[k]
                    }),
            decreases n - i,
        {
            let role = roles[i];
            self.players[i].role = Some(role);
            self.players[i].alive = true;
            i = i + 1;
        }
        self.day = 1;
        self.game_count = self.game_count + 1;
        self.wolf_kill_votes.clear();
        self.wolf_chat.clear();
        self.wolf_ready.clear();
        self.wolf_night_msgs.clear();
        self.night_progress_public_msg = None;
        self.seer_check_target = None;
        self.witch_save_choice = None;
        self.witch_poison_target = None;
        self.guard_target = None;
        self.night_victim = None;
        self.witch_acted = false;
        self.witch_save_used = false;
        self.witch_poison_used = false;
        self.seer_history.clear();
        self.last_guard_target = None;
        self.day_votes.clear();
        self.day_vote_msgs.clear();
        self.day_vote_public_msg = None;
        self.last_night_deaths.clear();
        self.last_day_lynched = None;
        self.day_speech_order.clear();
        self.day_speech_idx = 0;
        self.day_speeches.clear();
        self.day_speech_public_msg = None;
        self.day_speech_private_msg = None;
        self.sheriff_idx = None;
        self.sheriff_enabled = has_sheriff_election(n);
        self.sheriff_nominations.clear();
        self.sheriff_nominate_msgs.clear();
        self.sheriff_nominate_public_msg = None;
        self.sheriff_votes.clear();
        self.sheriff_vote_msgs.clear();
        self.sheriff_vote_public_msg = None;
        self.sheriff_speech_order.clear();
        self.sheriff_speech_idx = 0;
        self.sheriff_speeches.clear();
        self.sheriff_speech_public_msg = None;
        self.sheriff_speech_private_msg = None;
        self.sheriff_original_candidates.clear();
        self.sheriff_withdrawals.clear();
        self.sheriff_vote_round = 0;
        self.sheriff_pk_candidates.clear();
        self.day_vote_round = 0;
        self.day_pk_candidates.clear();
        self.skip_day_after_reveal = false;
        self.last_words_queue.clear();
        self.last_words_idx = 0;
        self.last_words_speeches.clear();
        self.last_words_public_msg = None;
        self.last_words_private_msg = None;
        self.last_words_post_stage = None;
        self.pending_badge = None;
        self.pending_badge_post_stage = None;
        self.pending_hunter = None;
        self.pending_hunter_post_stage = None;
        self.pending_hunter_ai_decision = None;
        self.stage_wait_public_msg = None;
        self.event_log.clear();
        self.deaths.clear();
        self.recap_log.clear();
        self.thinking_log.clear();
        self.stage = Stage::Lobby;
        self.event_log.push(
            cat3("第 1 夜开始，", decimal(n as u64).as_str(), " 名玩家入夜。"),
        );
        assert(self@ == GameView {
            players: dealt(old(self)@.players, roles@),
            day: 1,
            game_count: (old(self)@.game_count + 1) as u32,
            lobby_msg_id: old(self)@.lobby_msg_id,
            sheriff_enabled: n >= 10,
            event_log: seq![
                "第 1 夜开始，"@ + decimal_text(n as nat) + " 名玩家入夜。"@,
            ],
            ..empty_table(old(self)@.chat_id)
        });
        self.stage = if self.role_idx(Role::Guard).is_some() {
            Stage::GuardPick
        } else {
            Stage::WolvesPick
        };
        assert(old(self)@.wf() ==> crate::werewolf::table::ids_distinct(self@.players)) by {
            assert(self@.players == dealt(old(self)@.players, roles@));
        }
    }

    /// Starts a game: deals the roles of the board at random and enters the first night.
    pub fn start_game(&mut self) -> (r: Result<(), GameError>)
        requires
            old(self)@.wf(),
            old(self).game_count < u32::MAX,
        ensures
            final(self)@.wf(),
            match old(self)@.start_refusal() {
                Some(e) => r == Err::<(), GameError>(e) && final(self)@ == old(self)@,
                None => r == Ok::<(), GameError>(()) && exists|roles: Seq<Role>|
                    is_deal(roles, old(self)@.players.len()) && final(self)@ == (
                    #[trigger] old(self)@.started(roles)),
            },
    {
        if self.running() {
            return Err(GameError::AlreadyStarted(self.stage));
        }
        let n: usize = self.players.len();
        let mut roles = match role_distribution(n) {
            Ok(roles) => roles,
            Err(e) => {
                return Err(e);
            },
        };
        shuffle_in_place(&mut roles);
        assert(is_deal(roles@, n as nat));
        self.start_with_roles(&roles);
        Ok(())
    }
}

} // verus!
