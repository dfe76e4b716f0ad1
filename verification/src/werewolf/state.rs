//! The state of a table and its mathematical view.

use vstd::prelude::*;
use crate::werewolf::ballot::Ballot;
use crate::werewolf::types::{
    DeathEvent, Player, PlayerView, RecapEvent, RecapView, SeerCheck, Stage, ThinkingEntry,
    ThinkingView,
};

verus! {

/// The whole state of a table.
#[derive(Debug, Clone)]
pub struct WolfGame {
    /// The chat this table belongs to.
    pub chat_id: String,
    /// The seats, in order.
    pub players: Vec<Player>,
    /// Where the game stands.
    pub stage: Stage,
    /// The number of the day, from one; the first night is of day one.
    pub day: u32,
    /// How many games this table has started; tells stale buttons apart.
    pub game_count: u32,
    /// The lobby card.
    pub lobby_msg_id: Option<String>,
    /// Tonight: each wolf and the victim it picked.
    pub wolf_kill_votes: Vec<(usize, usize)>,
    /// Tonight: what the wolves said to each other.
    pub wolf_chat: Vec<(usize, String)>,
    /// Tonight: the wolves that have confirmed their pick.
    pub wolf_ready: Vec<usize>,
    /// Tonight: the action card of each wolf.
    pub wolf_night_msgs: Vec<(usize, String)>,
    /// Tonight: the public progress card.
    pub night_progress_public_msg: Option<String>,
    /// The vote card of each player, by open id.
    pub day_vote_msgs: Vec<(String, String)>,
    /// The public progress card of the day vote.
    pub day_vote_public_msg: Option<String>,
    /// Tonight: whom the seer checked.
    pub seer_check_target: Option<usize>,
    /// Tonight: whether the witch saved the victim.
    pub witch_save_choice: Option<bool>,
    /// Tonight: whom the witch poisoned.
    pub witch_poison_target: Option<usize>,
    /// Tonight: whom the guard protects.
    pub guard_target: Option<usize>,
    /// Tonight: the victim the wolves agreed on.
    pub night_victim: Option<usize>,
    /// Tonight: whether the witch has decided.
    pub witch_acted: bool,
    /// Whether the antidote is spent.
    pub witch_save_used: bool,
    /// Whether the poison is spent.
    pub witch_poison_used: bool,
    /// All checks of the seer.
    pub seer_history: Vec<SeerCheck>,
    /// Whom the guard protected last, unless the guard then passed.
    pub last_guard_target: Option<usize>,
    /// The votes of the day.
    pub day_votes: Ballot,
    /// Who died last night.
    pub last_night_deaths: Vec<usize>,
    /// Whom the last vote banished.
    pub last_day_lynched: Option<usize>,
    /// The order of the day's speeches.
    pub day_speech_order: Vec<usize>,
    /// Whose turn it is in that order.
    pub day_speech_idx: usize,
    /// The speeches of the day so far.
    pub day_speeches: Vec<(usize, String)>,
    /// The public card of the day's speeches.
    pub day_speech_public_msg: Option<String>,
    /// The input card of the current speaker.
    pub day_speech_private_msg: Option<String>,
    /// The sheriff.
    pub sheriff_idx: Option<usize>,
    /// Whether this board elects a sheriff.
    pub sheriff_enabled: bool,
    /// Who has said whether to run for sheriff.
    pub sheriff_nominations: Vec<(usize, bool)>,
    /// The nomination card of each player, by open id.
    pub sheriff_nominate_msgs: Vec<(String, String)>,
    /// The public card of the nominations.
    pub sheriff_nominate_public_msg: Option<String>,
    /// The votes of the sheriff election.
    pub sheriff_votes: Ballot,
    /// The election card of each player, by open id.
    pub sheriff_vote_msgs: Vec<(String, String)>,
    /// The public card of the election.
    pub sheriff_vote_public_msg: Option<String>,
    /// The order of the candidates' speeches.
    pub sheriff_speech_order: Vec<usize>,
    /// Whose turn it is in that order.
    pub sheriff_speech_idx: usize,
    /// The candidates' speeches so far.
    pub sheriff_speeches: Vec<(usize, String)>,
    /// The public card of the candidates' speeches.
    pub sheriff_speech_public_msg: Option<String>,
    /// The input card of the current candidate.
    pub sheriff_speech_private_msg: Option<String>,
    /// Everybody who ran; who withdraws still may not vote.
    pub sheriff_original_candidates: Vec<usize>,
    /// Who has said whether to stay on the ballot.
    pub sheriff_withdrawals: Vec<(usize, bool)>,
    /// The round of the election: 0, then 1 after a tie.
    pub sheriff_vote_round: u8,
    /// The candidates of the second round.
    pub sheriff_pk_candidates: Vec<usize>,
    /// The round of the day vote: 0, then 1 after a tie.
    pub day_vote_round: u8,
    /// Who stands in the second round.
    pub day_pk_candidates: Vec<usize>,
    /// A wolf blew up during the election: the night follows the announcement.
    pub skip_day_after_reveal: bool,
    /// Who has last words to say, in order of death.
    pub last_words_queue: Vec<usize>,
    /// Whose turn it is in that queue.
    pub last_words_idx: usize,
    /// The last words so far.
    pub last_words_speeches: Vec<(usize, String)>,
    /// The public card of the last words.
    pub last_words_public_msg: Option<String>,
    /// The input card of who speaks last words.
    pub last_words_private_msg: Option<String>,
    /// Where the game goes on after the last words.
    pub last_words_post_stage: Option<Stage>,
    /// The dead sheriff whose badge has to be passed on.
    pub pending_badge: Option<usize>,
    /// Where the game goes on after that.
    pub pending_badge_post_stage: Option<Stage>,
    /// The dead hunter or wolf king who may shoot.
    pub pending_hunter: Option<usize>,
    /// Where the game goes on after that.
    pub pending_hunter_post_stage: Option<Stage>,
    /// What an AI shooter decided along with its last words.
    pub pending_hunter_ai_decision: Option<Option<usize>>,
    /// The public card of a one-player step, with the key of the step.
    pub stage_wait_public_msg: Option<(String, String)>,
    /// The public history, a line per event.
    pub event_log: Vec<String>,
    /// All deaths.
    pub deaths: Vec<DeathEvent>,
    /// The events of the final summary.
    pub recap_log: Vec<RecapEvent>,
    /// The private thoughts of the AI players.
    pub thinking_log: Vec<ThinkingEntry>,
}

/// The state of a table, with its texts and lists as sequences.
#[verifier::ext_equal]
pub struct GameView {
    pub chat_id: Seq<char>,
    pub players: Seq<PlayerView>,
    pub stage: Stage,
    pub day: u32,
    pub game_count: u32,
    pub lobby_msg_id: Option<Seq<char>>,
    pub wolf_kill_votes: Seq<(usize, usize)>,
    pub wolf_chat: Seq<(usize, Seq<char>)>,
    pub wolf_ready: Seq<usize>,
    pub wolf_night_msgs: Seq<(usize, Seq<char>)>,
    pub night_progress_public_msg: Option<Seq<char>>,
    pub day_vote_msgs: Seq<(Seq<char>, Seq<char>)>,
    pub day_vote_public_msg: Option<Seq<char>>,
    pub seer_check_target: Option<usize>,
    pub witch_save_choice: Option<bool>,
    pub witch_poison_target: Option<usize>,
    pub guard_target: Option<usize>,
    pub night_victim: Option<usize>,
    pub witch_acted: bool,
    pub witch_save_used: bool,
    pub witch_poison_used: bool,
    pub seer_history: Seq<SeerCheck>,
    pub last_guard_target: Option<usize>,
    pub day_votes: Seq<(usize, Option<usize>)>,
    pub last_night_deaths: Seq<usize>,
    pub last_day_lynched: Option<usize>,
    pub day_speech_order: Seq<usize>,
    pub day_speech_idx: usize,
    pub day_speeches: Seq<(usize, Seq<char>)>,
    pub day_speech_public_msg: Option<Seq<char>>,
    pub day_speech_private_msg: Option<Seq<char>>,
    pub sheriff_idx: Option<usize>,
    pub sheriff_enabled: bool,
    pub sheriff_nominations: Seq<(usize, bool)>,
    pub sheriff_nominate_msgs: Seq<(Seq<char>, Seq<char>)>,
    pub sheriff_nominate_public_msg: Option<Seq<char>>,
    pub sheriff_votes: Seq<(usize, Option<usize>)>,
    pub sheriff_vote_msgs: Seq<(Seq<char>, Seq<char>)>,
    pub sheriff_vote_public_msg: Option<Seq<char>>,
    pub sheriff_speech_order: Seq<usize>,
    pub sheriff_speech_idx: usize,
    pub sheriff_speeches: Seq<(usize, Seq<char>)>,
    pub sheriff_speech_public_msg: Option<Seq<char>>,
    pub sheriff_speech_private_msg: Option<Seq<char>>,
    pub sheriff_original_candidates: Seq<usize>,
    pub sheriff_withdrawals: Seq<(usize, bool)>,
    pub sheriff_vote_round: u8,
    pub sheriff_pk_candidates: Seq<usize>,
    pub day_vote_round: u8,
    pub day_pk_candidates: Seq<usize>,
    pub skip_day_after_reveal: bool,
    pub last_words_queue: Seq<usize>,
    pub last_words_idx: usize,
    pub last_words_speeches: Seq<(usize, Seq<char>)>,
    pub last_words_public_msg: Option<Seq<char>>,
    pub last_words_private_msg: Option<Seq<char>>,
    pub last_words_post_stage: Option<Stage>,
    pub pending_badge: Option<usize>,
    pub pending_badge_post_stage: Option<Stage>,
    pub pending_hunter: Option<usize>,
    pub pending_hunter_post_stage: Option<Stage>,
    pub pending_hunter_ai_decision: Option<Option<usize>>,
    pub stage_wait_public_msg: Option<(Seq<char>, Seq<char>)>,
    pub event_log: Seq<Seq<char>>,
    pub deaths: Seq<DeathEvent>,
    pub recap_log: Seq<RecapView>,
    pub thinking_log: Seq<ThinkingView>,
}

impl View for WolfGame {
    type V = GameView;

    open spec fn view(&self) -> GameView {
        GameView {
            chat_id: self.chat_id@,
            players: self.players.deep_view(),
            stage: self.stage,
            day: self.day,
            game_count: self.game_count,
            lobby_msg_id: self.lobby_msg_id.deep_view(),
            wolf_kill_votes: self.wolf_kill_votes@,
            wolf_chat: self.wolf_chat.deep_view(),
            wolf_ready: self.wolf_ready@,
            wolf_night_msgs: self.wolf_night_msgs.deep_view(),
            night_progress_public_msg: self.night_progress_public_msg.deep_view(),
            day_vote_msgs: self.day_vote_msgs.deep_view(),
            day_vote_public_msg: self.day_vote_public_msg.deep_view(),
            seer_check_target: self.seer_check_target,
            witch_save_choice: self.witch_save_choice,
            witch_poison_target: self.witch_poison_target,
            guard_target: self.guard_target,
            night_victim: self.night_victim,
            witch_acted: self.witch_acted,
            witch_save_used: self.witch_save_used,
            witch_poison_used: self.witch_poison_used,
            seer_history: self.seer_history@,
            last_guard_target: self.last_guard_target,
            day_votes: self.day_votes.votes@,
            last_night_deaths: self.last_night_deaths@,
            last_day_lynched: self.last_day_lynched,
            day_speech_order: self.day_speech_order@,
            day_speech_idx: self.day_speech_idx,
            day_speeches: self.day_speeches.deep_view(),
            day_speech_public_msg: self.day_speech_public_msg.deep_view(),
            day_speech_private_msg: self.day_speech_private_msg.deep_view(),
            sheriff_idx: self.sheriff_idx,
            sheriff_enabled: self.sheriff_enabled,
            sheriff_nominations: self.sheriff_nominations@,
            sheriff_nominate_msgs: self.sheriff_nominate_msgs.deep_view(),
            sheriff_nominate_public_msg: self.sheriff_nominate_public_msg.deep_view(),
            sheriff_votes: self.sheriff_votes.votes@,
            sheriff_vote_msgs: self.sheriff_vote_msgs.deep_view(),
            sheriff_vote_public_msg: self.sheriff_vote_public_msg.deep_view(),
            sheriff_speech_order: self.sheriff_speech_order@,
            sheriff_speech_idx: self.sheriff_speech_idx,
            sheriff_speeches: self.sheriff_speeches.deep_view(),
            sheriff_speech_public_msg: self.sheriff_speech_public_msg.deep_view(),
            sheriff_speech_private_msg: self.sheriff_speech_private_msg.deep_view(),
            sheriff_original_candidates: self.sheriff_original_candidates@,
            sheriff_withdrawals: self.sheriff_withdrawals@,
            sheriff_vote_round: self.sheriff_vote_round,
            sheriff_pk_candidates: self.sheriff_pk_candidates@,
            day_vote_round: self.day_vote_round,
            day_pk_candidates: self.day_pk_candidates@,
            skip_day_after_reveal: self.skip_day_after_reveal,
            last_words_queue: self.last_words_queue@,
            last_words_idx: self.last_words_idx,
            last_words_speeches: self.last_words_speeches.deep_view(),
            last_words_public_msg: self.last_words_public_msg.deep_view(),
            last_words_private_msg: self.last_words_private_msg.deep_view(),
            last_words_post_stage: self.last_words_post_stage,
            pending_badge: self.pending_badge,
            pending_badge_post_stage: self.pending_badge_post_stage,
            pending_hunter: self.pending_hunter,
            pending_hunter_post_stage: self.pending_hunter_post_stage,
            pending_hunter_ai_decision: self.pending_hunter_ai_decision,
            stage_wait_public_msg: self.stage_wait_public_msg.deep_view(),
            event_log: self.event_log.deep_view(),
            deaths: self.deaths@,
            recap_log: self.recap_log.deep_view(),
            thinking_log: self.thinking_log.deep_view(),
        }
    }
}

/// A table at which nobody sits yet.
pub open spec fn empty_table(chat_id: Seq<char>) -> GameView {
    GameView {
        chat_id,
        players: Seq::empty(),
        stage: Stage::Lobby,
        day: 0,
        game_count: 0,
        lobby_msg_id: None,
        wolf_kill_votes: Seq::empty(),
        wolf_chat: Seq::empty(),
        wolf_ready: Seq::empty(),
        wolf_night_msgs: Seq::empty(),
        night_progress_public_msg: None,
        day_vote_msgs: Seq::empty(),
        day_vote_public_msg: None,
        seer_check_target: None,
        witch_save_choice: None,
        witch_poison_target: None,
        guard_target: None,
        night_victim: None,
        witch_acted: false,
        witch_save_used: false,
        witch_poison_used: false,
        seer_history: Seq::empty(),
        last_guard_target: None,
        day_votes: Seq::empty(),
        last_night_deaths: Seq::empty(),
        last_day_lynched: None,
        day_speech_order: Seq::empty(),
        day_speech_idx: 0,
        day_speeches: Seq::empty(),
        day_speech_public_msg: None,
        day_speech_private_msg: None,
        sheriff_idx: None,
        sheriff_enabled: false,
        sheriff_nominations: Seq::empty(),
        sheriff_nominate_msgs: Seq::empty(),
        sheriff_nominate_public_msg: None,
        sheriff_votes: Seq::empty(),
        sheriff_vote_msgs: Seq::empty(),
        sheriff_vote_public_msg: None,
        sheriff_speech_order: Seq::empty(),
        sheriff_speech_idx: 0,
        sheriff_speeches: Seq::empty(),
        sheriff_speech_public_msg: None,
        sheriff_speech_private_msg: None,
        sheriff_original_candidates: Seq::empty(),
        sheriff_withdrawals: Seq::empty(),
        sheriff_vote_round: 0,
        sheriff_pk_candidates: Seq::empty(),
        day_vote_round: 0,
        day_pk_candidates: Seq::empty(),
        skip_day_after_reveal: false,
        last_words_queue: Seq::empty(),
        last_words_idx: 0,
        last_words_speeches: Seq::empty(),
        last_words_public_msg: None,
        last_words_private_msg: None,
        last_words_post_stage: None,
        pending_badge: None,
        pending_badge_post_stage: None,
        pending_hunter: None,
        pending_hunter_post_stage: None,
        pending_hunter_ai_decision: None,
        stage_wait_public_msg: None,
        event_log: Seq::empty(),
        deaths: Seq::empty(),
        recap_log: Seq::empty(),
        thinking_log: Seq::empty(),
    }
}

impl WolfGame {
    /// A table at which nobody sits yet.
    pub fn new(chat_id: String) -> (r: Self)
        ensures
            r@ == empty_table(chat_id@),
    {
        WolfGame {
            chat_id,
            players: Vec::new(),
            stage: Stage::Lobby,
            day: 0,
            game_count: 0,
            lobby_msg_id: None,
            wolf_kill_votes: Vec::new(),
            wolf_chat: Vec::new(),
            wolf_ready: Vec::new(),
            wolf_night_msgs: Vec::new(),
            night_progress_public_msg: None,
            day_vote_msgs: Vec::new(),
            day_vote_public_msg: None,
            seer_check_target: None,
            witch_save_choice: None,
            witch_poison_target: None,
            guard_target: None,
            night_victim: None,
            witch_acted: false,
            witch_save_used: false,
            witch_poison_used: false,
            seer_history: Vec::new(),
            last_guard_target: None,
            day_votes: Ballot::default(),
            last_night_deaths: Vec::new(),
            last_day_lynched: None,
            day_speech_order: Vec::new(),
            day_speech_idx: 0,
            day_speeches: Vec::new(),
            day_speech_public_msg: None,
            day_speech_private_msg: None,
            sheriff_idx: None,
            sheriff_enabled: false,
            sheriff_nominations: Vec::new(),
            sheriff_nominate_msgs: Vec::new(),
            sheriff_nominate_public_msg: None,
            sheriff_votes: Ballot::default(),
            sheriff_vote_msgs: Vec::new(),
            sheriff_vote_public_msg: None,
            sheriff_speech_order: Vec::new(),
            sheriff_speech_idx: 0,
            sheriff_speeches: Vec::new(),
            sheriff_speech_public_msg: None,
            sheriff_speech_private_msg: None,
            sheriff_original_candidates: Vec::new(),
            sheriff_withdrawals: Vec::new(),
            sheriff_vote_round: 0,
            sheriff_pk_candidates: Vec::new(),
            day_vote_round: 0,
            day_pk_candidates: Vec::new(),
            skip_day_after_reveal: false,
            last_words_queue: Vec::new(),
            last_words_idx: 0,
            last_words_speeches: Vec::new(),
            last_words_public_msg: None,
            last_words_private_msg: None,
            last_words_post_stage: None,
            pending_badge: None,
            pending_badge_post_stage: None,
            pending_hunter: None,
            pending_hunter_post_stage: None,
            pending_hunter_ai_decision: None,
            stage_wait_public_msg: None,
            event_log: Vec::new(),
            deaths: Vec::new(),
            recap_log: Vec::new(),
            thinking_log: Vec::new(),
        }
    }
}

} // verus!
