//! The session lifecycle controller.
//!
//! A finite state machine governs the application's way through asset
//! loading, the menus, connecting, a live round and the result screen, and
//! with it which input source feeds the simulation: a local self-test
//! session or a networked peer-to-peer session.  Its invariant is the heart
//! of resource ownership: the round context — session descriptor, actor set
//! and tick counter — exists exactly while the controller stands in a round
//! state, and is released unconditionally on every exit path, the error
//! paths included.

use vstd::prelude::*;
use crate::input::{Input, InputResolution, LocalHandles};
use crate::round::{
    Actor,
    FrameCount,
    models,
    all_ok,
    handles_ok,
    tick_all,
    spawn_model,
    spawn_players,
    advance_tick,
    lemma_tick_all_preserves_ok,
    MAX_PLAYERS,
    NUM_PLAYERS,
};

verus! {

/// Simulation tick rate, in ticks per second.
pub const FPS: usize = 60;

/// How many ticks the rollback engine may predict ahead.
pub const MAX_PREDICTION: usize = 12;

/// Input delay in ticks, traded against prediction depth.
pub const INPUT_DELAY: usize = 2;

/// Self-check distance of a local self-test session, in ticks.
pub const CHECK_DISTANCE: usize = 2;

/// The lifecycle states the application moves through.
#[derive(Clone, Copy, Debug, PartialEq, Eq, Structural, Hash, Default)]
pub enum AppState {
    #[default]
    AssetLoading,
    MenuMain,
    MenuOnline,
    MenuConnect,
    RoundLocal,
    RoundOnline,
    Win,
}

/// Which kind of session feeds the simulation, fixed for a round's lifetime.
#[derive(Clone, Copy, Debug, PartialEq, Eq, Structural)]
pub enum SessionMode {
    LocalSelfTest,
    NetworkedP2P,
}

/// Why a session could not be constructed.  Configuration errors are fatal
/// to round setup: no actor is spawned and the controller routes back to the
/// main menu.
#[derive(Clone, Copy, Debug, PartialEq, Eq, Structural)]
pub enum SetupError {
    InvalidPlayerCount,
    InvalidFps,
}

/// One slot of the transport's player list: hosted here or on a peer.
#[derive(Clone, Copy, Debug, PartialEq, Eq, Structural)]
pub enum PlayerKind {
    Local,
    Remote,
}

/// Everything the external rollback engine needs to run a session, with the
/// local slot assignment this process owns.
pub struct SessionConfig {
    pub mode: SessionMode,
    pub num_players: usize,
    pub fps: usize,
    pub input_delay: usize,
    pub max_prediction: usize,
    pub check_distance: usize,
    pub local_handles: LocalHandles,
}

/// A constructed session is always one a round can run on.
pub open spec fn config_ok(c: SessionConfig) -> bool {
    &&& 1 <= c.num_players <= MAX_PLAYERS
    &&& c.fps >= 1
}

/// The lobby identifier under edit in the online menu: up to four digits.
pub struct LobbyID(pub Vec<char>);

/// The lobby the user asked to join.
pub struct ConnectData {
    pub lobby_id: String,
}

/// The result payload carried to the result screen.
pub struct MatchData {
    pub result: String,
}

/// Whether a character is an ASCII digit.
pub open spec fn is_digit_char(c: char) -> bool {
    48 <= c as u32 <= 57
}

/// One keystroke applied to the lobby identifier: digits append while there
/// is room, anything else is ignored.
pub open spec fn lobby_push(cur: Seq<char>, c: char) -> Seq<char> {
    if cur.len() < 4 && is_digit_char(c) {
        cur.push(c)
    } else {
        cur
    }
}

/// A frame's keystrokes applied in order.
pub open spec fn lobby_grown(cur: Seq<char>, typed: Seq<char>) -> Seq<char>
    decreases typed.len(),
{
    if typed.len() == 0 {
        cur
    } else {
        lobby_push(lobby_grown(cur, typed.drop_last()), typed.last())
    }
}

/// The lobby identifier after one frame of editing: the keystrokes in
/// order, then one optional backspace.
pub open spec fn lobby_after(cur: Seq<char>, typed: Seq<char>, backspace: bool) -> Seq<char> {
    let grown: Seq<char> = lobby_grown(cur, typed);
    if backspace && grown.len() > 0 {
        grown.drop_last()
    } else {
        grown
    }
}

/// Feeding one frame of typed characters and an optional backspace into the
/// lobby identifier.
pub fn update_lobby_id(lobby: &mut LobbyID, typed: &Vec<char>, backspace: bool)
    ensures
        final(lobby).0@ == lobby_after(old(lobby).0@, typed@, backspace),
{
    let ghost orig: Seq<char> = lobby.0@;
    let n: usize = typed.len();
    let mut i: usize = 0;
    while i < n
        invariant
            i <= n,
            n == typed@.len(),
            lobby.0@ == lobby_grown(orig, typed@.take(i as int)),
        decreases n - i,
    {
        let c: char = typed[i];
        if lobby.0.len() < 4 && (c as u32) >= 48 && (c as u32) <= 57 {
            lobby.0.push(c);
        }
        proof {
            assert(typed@.take(i + 1).drop_last() =~= typed@.take(i as int));
            assert(typed@.take(i + 1).last() == typed@[i as int]);
        }
        i = i + 1;
    }
    proof {
        assert(typed@.take(n as int) =~= typed@);
    }
    if backspace && lobby.0.len() > 0 {
        lobby.0.pop();
    }
}

/// Whether the lobby identifier is complete and the join button enabled.
pub fn update_lobby_btn(lobby: &LobbyID) -> (enabled: bool)
    ensures
        enabled == (lobby.0@.len() == 4),
{
    lobby.0.len() == 4
}

/// The slots of the transport's player list that this process hosts, in
/// increasing order.
pub open spec fn local_handles_of(players: Seq<PlayerKind>) -> Seq<usize>
    decreases players.len(),
{
    if players.len() == 0 {
        Seq::empty()
    } else {
        local_handles_of(players.drop_last()) + if players.last() is Local {
            seq![(players.len() - 1) as usize]
        } else {
            Seq::empty()
        }
    }
}

/// Building the session description of a local self-test round: every slot
/// is local, and the engine checks the simulation against itself over a
/// small fixed distance.  Fails exactly on an invalid player count or an
/// invalid tick rate, before any round resource exists.
pub fn create_synctest_session(num_players: usize, fps: usize) -> (r: Result<
    SessionConfig,
    SetupError,
>)
    ensures
        (num_players < 1 || num_players > MAX_PLAYERS) ==> r matches Err(
            SetupError::InvalidPlayerCount,
        ),
        (1 <= num_players <= MAX_PLAYERS && fps < 1) ==> r matches Err(SetupError::InvalidFps),
        (1 <= num_players <= MAX_PLAYERS && fps >= 1) ==> (r matches Ok(cfg) && {
            &&& cfg.mode is LocalSelfTest
            &&& cfg.num_players == num_players
            &&& cfg.fps == fps
            &&& cfg.input_delay == INPUT_DELAY
            &&& cfg.max_prediction == MAX_PREDICTION
            &&& cfg.check_distance == CHECK_DISTANCE
            &&& cfg.local_handles.handles@.len() == num_players
            &&& forall|i: int|
                0 <= i < num_players ==> cfg.local_handles.handles@[i] == i
            &&& config_ok(cfg)
        }),
{
    if num_players < 1 || num_players > MAX_PLAYERS {
        return Err(SetupError::InvalidPlayerCount);
    }
    if fps < 1 {
        return Err(SetupError::InvalidFps);
    }
    let mut handles: Vec<usize> = Vec::new();
    let mut i: usize = 0;
    while i < num_players
        invariant
            i <= num_players,
            handles@.len() == i,
            forall|j: int| 0 <= j < i ==> handles@[j] == j,
        decreases num_players - i,
    {
        handles.push(i);
        i = i + 1;
    }
    Ok(
        SessionConfig {
            mode: SessionMode::LocalSelfTest,
            num_players,
            fps,
            input_delay: INPUT_DELAY,
            max_prediction: MAX_PREDICTION,
            check_distance: CHECK_DISTANCE,
            local_handles: LocalHandles { handles },
        },
    )
}

/// Building the session description of a peer-to-peer round from the
/// transport's player list.  Fails exactly on an invalid player count, a
/// player list of the wrong width, or an invalid tick rate.
pub fn create_ggrs_session(num_players: usize, fps: usize, players: &Vec<PlayerKind>) -> (r:
    Result<SessionConfig, SetupError>)
    ensures
        (num_players < 1 || num_players > MAX_PLAYERS || players@.len() != num_players)
            ==> r matches Err(SetupError::InvalidPlayerCount),
        (1 <= num_players <= MAX_PLAYERS && players@.len() == num_players && fps < 1)
            ==> r matches Err(SetupError::InvalidFps),
        (1 <= num_players <= MAX_PLAYERS && players@.len() == num_players && fps >= 1) ==> (
        r matches Ok(cfg) && {
            &&& cfg.mode is NetworkedP2P
            &&& cfg.num_players == num_players
            &&& cfg.fps == fps
            &&& cfg.input_delay == INPUT_DELAY
            &&& cfg.max_prediction == MAX_PREDICTION
            &&& cfg.local_handles.handles@ == local_handles_of(players@)
            &&& config_ok(cfg)
        }),
{
    if num_players < 1 || num_players > MAX_PLAYERS {
        return Err(SetupError::InvalidPlayerCount);
    }
    if players.len() != num_players {
        return Err(SetupError::InvalidPlayerCount);
    }
    if fps < 1 {
        return Err(SetupError::InvalidFps);
    }
    let mut handles: Vec<usize> = Vec::new();
    let n: usize = players.len();
    let mut i: usize = 0;
    while i < n
        invariant
            i <= n,
            n == players@.len(),
            handles@ == local_handles_of(players@.take(i as int)),
        decreases n - i,
    {
        let is_local: bool = match players[i] {
            PlayerKind::Local => true,
            PlayerKind::Remote => false,
        };
        if is_local {
            handles.push(i);
        }
        proof {
            assert(players@.take(i + 1).drop_last() =~= players@.take(i as int));
            assert(players@.take(i + 1).last() == players@[i as int]);
            if players@[i as int] is Local {
                assert(handles@ =~= local_handles_of(players@.take(i + 1)));
            } else {
                assert(handles@ =~= local_handles_of(players@.take(i + 1)));
            }
        }
        i = i + 1;
    }
    proof {
        assert(players@.take(n as int) =~= players@);
    }
    Ok(
        SessionConfig {
            mode: SessionMode::NetworkedP2P,
            num_players,
            fps,
            input_delay: INPUT_DELAY,
            max_prediction: MAX_PREDICTION,
            check_distance: 0,
            local_handles: LocalHandles { handles },
        },
    )
}

/// Everything that exists exactly while a round is live: the session
/// description, the actor set, and the tick counter.
pub struct RoundContext {
    pub session: SessionConfig,
    pub actors: Vec<Actor>,
    pub frame: FrameCount,
}

/// A live round is internally consistent: a valid session, exactly one
/// actor per configured player, all well formed, each indexing its own
/// command slot.
pub open spec fn round_ok(r: RoundContext) -> bool {
    &&& config_ok(r.session)
    &&& r.actors@.len() == r.session.num_players
    &&& all_ok(models(r.actors@))
    &&& handles_ok(models(r.actors@), r.session.num_players as int)
}

/// Allocating the round context for a constructed session: the tick counter
/// at zero and the actors freshly spawned on their circle.
pub fn setup_round(session: SessionConfig) -> (r: RoundContext)
    requires
        config_ok(session),
    ensures
        round_ok(r),
        r.session == session,
        r.frame.frame == 0,
        r.actors@.len() == session.num_players,
        forall|i: int|
            0 <= i < session.num_players ==> models(r.actors@)[i] == spawn_model(
                i,
                session.num_players as int,
            ),
{
    let actors: Vec<Actor> = spawn_players(session.num_players);
    RoundContext { session, actors, frame: FrameCount { frame: 0 } }
}

/// The lifecycle controller: the current state and the resources whose
/// existence is tied to it.
pub struct SessionController {
    pub state: AppState,
    pub round: Option<RoundContext>,
    pub connect: Option<ConnectData>,
    pub match_data: Option<MatchData>,
}

/// The controller's invariant: the round context exists if and only if the
/// controller stands in a round state, a live round is consistent, and its
/// session kind agrees with the state that owns it.
pub open spec fn controller_ok(c: SessionController) -> bool {
    &&& (c.round is Some <==> (c.state is RoundLocal || c.state is RoundOnline))
    &&& (c.round matches Some(r) ==> round_ok(r))
    &&& (c.state is RoundLocal ==> (c.round matches Some(r) ==> r.session.mode is LocalSelfTest))
    &&& (c.state is RoundOnline ==> (c.round matches Some(r) ==> r.session.mode is NetworkedP2P))
}

impl SessionController {
    /// A fresh controller: loading assets, owning nothing.
    pub fn new() -> (c: Self)
        ensures
            c.state is AssetLoading,
            c.round is None,
            c.connect is None,
            c.match_data is None,
            controller_ok(c),
    {
        SessionController { state: AppState::AssetLoading, round: None, connect: None, match_data: None }
    }

    /// Assets are in: enter the main menu.
    pub fn assets_loaded(&mut self)
        requires
            controller_ok(*old(self)),
            old(self).state is AssetLoading,
        ensures
            controller_ok(*final(self)),
            final(self).state is MenuMain,
            final(self).round is None,
            final(self).connect == old(self).connect,
            final(self).match_data == old(self).match_data,
    {
        self.state = AppState::MenuMain;
    }

    /// The user asked for an online match: enter the online menu.
    pub fn menu_online(&mut self)
        requires
            controller_ok(*old(self)),
            old(self).state is MenuMain,
        ensures
            controller_ok(*final(self)),
            final(self).state is MenuOnline,
            final(self).round is None,
    {
        self.state = AppState::MenuOnline;
    }

    /// The user confirmed a lobby: carry it and start connecting.
    pub fn online_lobby_chosen(&mut self, data: ConnectData)
        requires
            controller_ok(*old(self)),
            old(self).state is MenuOnline,
        ensures
            controller_ok(*final(self)),
            final(self).state is MenuConnect,
            final(self).round is None,
            final(self).connect matches Some(d) && d.lobby_id@ == data.lobby_id@,
    {
        self.connect = Some(data);
        self.state = AppState::MenuConnect;
    }

    /// The user asked for a local match: construct the self-test session and
    /// start the round at once.  The fixed configuration is valid, so this
    /// never fails.
    pub fn menu_local_match(&mut self)
        requires
            controller_ok(*old(self)),
            old(self).state is MenuMain,
        ensures
            controller_ok(*final(self)),
            final(self).state is RoundLocal,
            final(self).round matches Some(r) && {
                &&& r.session.mode is LocalSelfTest
                &&& r.session.num_players == NUM_PLAYERS
                &&& r.frame.frame == 0
                &&& r.actors@.len() == NUM_PLAYERS
                &&& forall|i: int|
                    0 <= i < NUM_PLAYERS ==> models(r.actors@)[i] == spawn_model(
                        i,
                        NUM_PLAYERS as int,
                    )
            },
    {
        let built: Result<SessionConfig, SetupError> = create_synctest_session(NUM_PLAYERS, FPS);
        match built {
            Ok(cfg) => {
                let ctx: RoundContext = setup_round(cfg);
                self.round = Some(ctx);
                self.state = AppState::RoundLocal;
            },
            Err(_) => {
                // Unreachable with the fixed constants; the configuration
                // failure path routes back to the menu without spawning.
                self.state = AppState::MenuMain;
            },
        }
    }

    /// One connect poll: the transport's current player list comes in; when
    /// the expected count is fully there, the peer-to-peer session forms and
    /// the online round starts.  Until then the controller keeps waiting,
    /// owning nothing round-scoped.
    pub fn connect(&mut self, players: &Vec<PlayerKind>)
        requires
            controller_ok(*old(self)),
            old(self).state is MenuConnect,
        ensures
            controller_ok(*final(self)),
            players@.len() == NUM_PLAYERS ==> {
                &&& final(self).state is RoundOnline
                &&& final(self).round matches Some(r) && {
                    &&& r.session.mode is NetworkedP2P
                    &&& r.session.num_players == NUM_PLAYERS
                    &&& r.session.local_handles.handles@ == local_handles_of(players@)
                    &&& r.frame.frame == 0
                    &&& forall|i: int|
                        0 <= i < NUM_PLAYERS ==> models(r.actors@)[i] == spawn_model(
                            i,
                            NUM_PLAYERS as int,
                        )
                }
            },
            players@.len() != NUM_PLAYERS ==> {
                &&& final(self).state is MenuConnect
                &&& final(self).round is None
                &&& final(self).connect == old(self).connect
            },
    {
        if players.len() == NUM_PLAYERS {
            let built: Result<SessionConfig, SetupError> = create_ggrs_session(
                NUM_PLAYERS,
                FPS,
                players,
            );
            match built {
                Ok(cfg) => {
                    let ctx: RoundContext = setup_round(cfg);
                    self.round = Some(ctx);
                    self.state = AppState::RoundOnline;
                },
                Err(_) => {
                    // Unreachable with the fixed constants and a list of the
                    // expected width; a pre-round failure would fall back to
                    // the main menu without spawning anything.
                    self.round = None;
                    self.state = AppState::MenuMain;
                },
            }
        }
    }

    /// One simulation tick of the live round, fed with one resolved command
    /// per configured player.
    pub fn round_tick(&mut self, inputs: &Vec<(Input, InputResolution)>)
        requires
            controller_ok(*old(self)),
            old(self).round matches Some(r) && {
                &&& inputs@.len() == r.session.num_players
                &&& r.frame.frame < u32::MAX
            },
        ensures
            controller_ok(*final(self)),
            final(self).state == old(self).state,
            old(self).round matches Some(r0) ==> final(self).round matches Some(r1) && {
                &&& models(r1.actors@) == tick_all(models(r0.actors@), inputs@)
                &&& r1.frame.frame == r0.frame.frame + 1
                &&& r1.session == r0.session
            },
    {
        match &mut self.round {
            Some(ctx) => {
                advance_tick(&mut ctx.actors, inputs, &mut ctx.frame);
                proof {
                    lemma_tick_all_preserves_ok(
                        models(old(self).round->Some_0.actors@),
                        inputs@,
                        old(self).round->Some_0.session.num_players as int,
                    );
                }
            },
            None => {
            },
        }
    }

    /// Releasing every round-scoped resource, unconditionally and
    /// idempotently: safe whether or not a round, a pending connect, or a
    /// partially formed session is live.
    pub fn cleanup(&mut self)
        ensures
            final(self).round is None,
            final(self).connect is None,
            final(self).state == old(self).state,
            final(self).match_data == old(self).match_data,
    {
        self.round = None;
        self.connect = None;
    }

    /// Back to the main menu from anywhere: the abort path.  Every
    /// round-scoped resource is released before a menu state is entered, so
    /// nothing leaks even when a connect was abandoned half-way.
    pub fn abort_to_menu(&mut self)
        ensures
            controller_ok(*final(self)),
            final(self).state is MenuMain,
            final(self).round is None,
            final(self).connect is None,
    {
        self.cleanup();
        self.state = AppState::MenuMain;
    }

    /// The round-end check: gameplay rules outside this core decide the
    /// condition; once it is confirmed the round is torn down and the result
    /// carried to the result screen.
    pub fn check_win(&mut self, condition: bool, result: MatchData)
        requires
            controller_ok(*old(self)),
        ensures
            controller_ok(*final(self)),
            (condition && (old(self).state is RoundLocal || old(self).state is RoundOnline))
                ==> {
                &&& final(self).state is Win
                &&& final(self).round is None
                &&& final(self).match_data matches Some(d) && d.result@ == result.result@
            },
            !(condition && (old(self).state is RoundLocal || old(self).state is RoundOnline))
                ==> {
                &&& final(self).state == old(self).state
                &&& final(self).round == old(self).round
                &&& final(self).match_data == old(self).match_data
            },
    {
        let in_round: bool = match self.state {
            AppState::RoundLocal => true,
            AppState::RoundOnline => true,
            _ => false,
        };
        if condition && in_round {
            self.round = None;
            self.match_data = Some(result);
            self.state = AppState::Win;
        }
    }

    /// The user acknowledged the result: back to the main menu.
    pub fn win_acknowledged(&mut self)
        requires
            controller_ok(*old(self)),
            old(self).state is Win,
        ensures
            controller_ok(*final(self)),
            final(self).state is MenuMain,
            final(self).round is None,
            final(self).match_data is None,
    {
        self.match_data = None;
        self.state = AppState::MenuMain;
    }
}

} // verus!
