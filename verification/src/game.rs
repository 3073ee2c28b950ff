//! One process of a game: the role it plays on the network, its game
//! state, and what it does with each message of its peer.
//!
//! A process starts undecided. It then plays alone, or listens for an
//! opponent and becomes the host once one has connected, or connects to a
//! host as its client. No role is ever left for an earlier one.

use crate::board::{chess_board, chess_representation_to_wire, rows, wire_board};
use crate::poller::{idle, payloads, polled, JsonPoller, Packet, PollerView, RawPacket};
use crate::session::{ChessState, RulesEngine, SessionView, UnsentNetMove};
use crate::wire::{
    ClientToServer, ClientToServerHandshake, Color, Features, Move, ServerToClient,
    ServerToClientHandshake,
};
use vstd::prelude::*;
use vstd::string::{StrSliceExecFns, StringExecFns};

verus! {

/// The address that a host listens on.
pub const LISTEN_ADDRESS: &'static str = "127.0.0.1:8483";

/// The address that the dialogue proposes for the host.
pub const DEFAULT_HOST: &'static str = "localhost";

/// What a client adds to a host address that names no port.
pub const DEFAULT_PORT: &'static str = ":8483";

/// What a host tells a client whose move was refused.
pub const BAD_MOVE: &'static str = "Bad move!";

/// A message that a host receives.
pub type ClientPacket = Packet<ClientToServerHandshake, ClientToServer>;

/// A message that a client receives.
pub type ServerPacket = Packet<ServerToClientHandshake, ServerToClient>;

/// The role of a process on the network.
pub enum GameMode {
    /// No role yet; holds the address of the host as typed so far.
    Undecided(String),
    /// Listening for an opponent.
    HostWaitForOpponent,
    /// Host of a game, with the poller of the stream from the client.
    Host(JsonPoller),
    /// Client of a host, with the poller of the stream from the host.
    Client(JsonPoller),
    /// Playing without a network.
    Local,
}

/// The mathematical value of a role.
pub enum RoleView {
    Undecided(Seq<char>),
    HostWaitForOpponent,
    Host(PollerView),
    Client(PollerView),
    Local,
}

impl RoleView {
    /// How far the role is from the start: 0 undecided, 1 listening, 2
    /// playing.
    pub open spec fn rank(self) -> nat {
        match self {
            RoleView::Undecided(_) => 0,
            RoleView::HostWaitForOpponent => 1,
            _ => 2,
        }
    }

    /// Whether one operation can take a process from role `self` to role
    /// `next`. An undecided process may stay undecided, play alone,
    /// listen, or become a client with a new poller; a listening one may
    /// become a host with a new poller; a host stays a host, a client a
    /// client, and a process that plays alone stays alone.
    pub open spec fn steps_to(self, next: RoleView) -> bool {
        match self {
            RoleView::Undecided(_) => {
                ||| next is Undecided
                ||| next is Local
                ||| next is HostWaitForOpponent
                ||| next == RoleView::Client(idle())
            },
            RoleView::HostWaitForOpponent => {
                ||| next is HostWaitForOpponent
                ||| next == RoleView::Host(idle())
            },
            RoleView::Host(_) => next is Host,
            RoleView::Client(_) => next is Client,
            RoleView::Local => next is Local,
        }
    }
}

/// No role is left for an earlier one: after any operation a process is
/// undecided only if it was before, and one that plays, alone, as host or
/// as client, keeps doing so.
pub proof fn lemma_roles_never_go_back(before: RoleView, after: RoleView)
    requires
        before.steps_to(after),
    ensures
        after.rank() >= before.rank(),
        after is Undecided ==> before is Undecided,
        before is Local ==> after is Local,
        before is Host ==> after is Host,
        before is Client ==> after is Client,
{
}

impl View for GameMode {
    type V = RoleView;

    open spec fn view(&self) -> RoleView {
        match *self {
            GameMode::Undecided(address) => RoleView::Undecided(address@),
            GameMode::HostWaitForOpponent => RoleView::HostWaitForOpponent,
            GameMode::Host(poller) => RoleView::Host(poller@),
            GameMode::Client(poller) => RoleView::Client(poller@),
            GameMode::Local => RoleView::Local,
        }
    }
}

impl GameMode {
    /// The invariant of a role: its poller, if it has one, is well
    /// formed.
    pub open spec fn wf(self) -> bool {
        match self {
            GameMode::Host(poller) => poller.wf(),
            GameMode::Client(poller) => poller.wf(),
            _ => true,
        }
    }
}

/// The address to connect to: the host address as it was typed where it
/// names a port, else with the default port behind it.
pub open spec fn with_port(address: Seq<char>) -> Seq<char> {
    if address.contains(':') {
        address
    } else {
        address + DEFAULT_PORT@
    }
}

/// The address to connect to for a host address as typed.
pub fn peer_address(address: &str) -> (full: String)
    ensures
        full@ == with_port(address@),
{
    let n = address.unicode_len();
    let mut names_port = false;
    let mut i: usize = 0;
    while i < n
        invariant
            i <= n,
            n == address@.len(),
            names_port ==> address@.contains(':'),
            !names_port ==> forall|j: int| 0 <= j < i ==> address@[j] != ':',
        decreases n - i,
    {
        if address.get_char(i) == ':' {
            names_port = true;
        }
        i = i + 1;
    }
    if names_port {
        String::from_str(address)
    } else {
        String::from_str(address).concat(DEFAULT_PORT)
    }
}

/// Whether `handshake` is the handshake of a host whose game is in state
/// `session`: the three rules that the host knows, the board, no list of
/// moves, and how the game stands.
pub open spec fn is_server_handshake(
    handshake: ServerToClientHandshake,
    session: SessionView,
) -> bool {
    &&& handshake.features@ == seq![Features::EnPassant, Features::Castling, Features::Promotion]
    &&& rows(handshake.board) == wire_board(session.board)
    &&& handshake.moves@.len() == 0
    &&& handshake.joever == session.joever()
}

/// Whether `message` tells of a refused move in a game in state
/// `session`.
pub open spec fn is_error_reply(message: ServerToClient, session: SessionView) -> bool {
    match message {
        ServerToClient::Error { board, moves, joever, message } => {
            &&& rows(board) == wire_board(session.board)
            &&& moves@.len() == 0
            &&& joever == session.joever()
            &&& message@ == BAD_MOVE@
        },
        _ => false,
    }
}

/// Whether `message` announces the state `session` of a game after the
/// move `move_made`.
pub open spec fn is_state_update(
    message: ServerToClient,
    session: SessionView,
    made: Move,
) -> bool {
    match message {
        ServerToClient::State { board, moves, joever, move_made } => {
            &&& rows(board) == wire_board(session.board)
            &&& moves@.len() == 0
            &&& joever == session.joever()
            &&& move_made == made
        },
        _ => false,
    }
}

/// The handshake with which a host answers a client's.
pub fn send_server_handshake<E: RulesEngine>(chess_state: &ChessState<E>) -> (handshake:
    ServerToClientHandshake)
    ensures
        is_server_handshake(handshake, chess_state@),
{
    let mut features: Vec<Features> = Vec::new();
    features.push(Features::EnPassant);
    features.push(Features::Castling);
    features.push(Features::Promotion);
    proof {
        assert(features@ =~= seq![Features::EnPassant, Features::Castling, Features::Promotion]);
    }
    ServerToClientHandshake {
        features,
        board: chess_representation_to_wire(chess_state.board()),
        moves: Vec::new(),
        joever: chess_state.to_joever(),
    }
}

/// What a host's game with the engine `engine` does with a move of the
/// client: the game and the engine afterwards, and whether the client is
/// told that its move was refused.
///
/// A move that comes on the host's own turn is dropped: nothing changes,
/// the engine is not asked, and the client is told nothing. Any other
/// move is tried on the game; the client is told exactly when it was not
/// made.
pub open spec fn client_move_handled<E: RulesEngine>(
    session: SessionView,
    engine: E,
    mv: Move,
    host_is_white: bool,
) -> (SessionView, E, bool) {
    if host_is_white == session.is_white_turn {
        (session, engine, false)
    } else {
        let tried = session.ingested(engine, mv);
        (tried.0, tried.1, !tried.2)
    }
}

/// Takes a move of the client on the host's game state; `host_is_white`
/// says which side the host plays. A move on the host's own turn is
/// dropped without an answer. Any other move is tried: where it is made
/// there is nothing to tell yet; where it is not, nothing changes and the
/// result is the message that tells the client so.
pub fn handle_client_move<E: RulesEngine>(
    mv: &Move,
    chess_state: &mut ChessState<E>,
    host_is_white: bool,
) -> (reply: Option<ServerToClient>)
    requires
        old(chess_state)@.wf(),
        !old(chess_state)@.is_client,
    ensures
        final(chess_state)@.wf(),
        host_is_white == old(chess_state)@.is_white_turn ==> reply is None
            && final(chess_state)@ == old(chess_state)@
            && final(chess_state).engine() == old(chess_state).engine(),
        (final(chess_state)@, final(chess_state).engine(), reply is Some) == client_move_handled(
            old(chess_state)@,
            old(chess_state).engine(),
            *mv,
            host_is_white,
        ),
        match reply {
            Some(message) => final(chess_state)@ == old(chess_state)@ && is_error_reply(
                message,
                old(chess_state)@,
            ),
            None => true,
        },
{
    if host_is_white == chess_state.is_white_turn() {
        return None;
    }
    let good = chess_state.ingest_client_move(mv);
    if !good {
        let board = chess_representation_to_wire(chess_state.board());
        Some(
            ServerToClient::Error {
                board,
                moves: Vec::new(),
                joever: chess_state.to_joever(),
                message: String::from_str(BAD_MOVE),
            },
        )
    } else {
        None
    }
}

/// The message with which a client sends its waiting move to the host,
/// if a move is ready; the move then waits no longer. A move can only be
/// ready on a mirror.
pub fn send_client_move<E: RulesEngine>(chess_state: &mut ChessState<E>) -> (message: Option<
    ClientToServer,
>)
    requires
        old(chess_state)@.unsent is Unsent ==> old(chess_state)@.is_client,
    ensures
        match old(chess_state)@.unsent {
            UnsentNetMove::Unsent(mv) => message == Some(ClientToServer::Move(mv))
                && final(chess_state)@ == old(chess_state)@.sent(),
            _ => message is None && final(chess_state)@ == old(chess_state)@,
        },
        final(chess_state).engine() == old(chess_state).engine(),
        old(chess_state)@.wf() ==> final(chess_state)@.wf(),
{
    match chess_state.take_unsent() {
        Some(mv) => Some(ClientToServer::Move(mv)),
        None => None,
    }
}

/// The message with which a host announces its game state after a move,
/// if a move is ready; the move then waits no longer.
pub fn synchronize_board_state<E: RulesEngine>(chess_state: &mut ChessState<E>) -> (message:
    Option<ServerToClient>)
    ensures
        match old(chess_state)@.unsent {
            UnsentNetMove::Unsent(mv) => final(chess_state)@ == old(chess_state)@.sent()
                && match message {
                Some(state) => is_state_update(state, old(chess_state)@, mv),
                None => false,
            },
            _ => message is None && final(chess_state)@ == old(chess_state)@,
        },
        final(chess_state).engine() == old(chess_state).engine(),
        old(chess_state)@.wf() ==> final(chess_state)@.wf(),
{
    match chess_state.take_unsent() {
        Some(move_made) => {
            let board = chess_representation_to_wire(chess_state.board());
            Some(
                ServerToClient::State {
                    board,
                    moves: Vec::new(),
                    joever: chess_state.to_joever(),
                    move_made,
                },
            )
        },
        None => None,
    }
}

/// What a host has to send, as far as the game fixes it.
pub enum Expected {
    /// Nothing is sent.
    Silence,
    /// The host's handshake for a game in the given state.
    Handshake(SessionView),
    /// The message that tells of a refused move in a game in the given
    /// state.
    Error(SessionView),
    /// The message that announces the given state of a game after the
    /// given move.
    State(SessionView, Move),
}

/// Whether `packet` is the message that `expected` describes.
pub open spec fn is_message(packet: ServerPacket, expected: Expected) -> bool {
    match expected {
        Expected::Silence => false,
        Expected::Handshake(session) => match packet {
            Packet::Handshake(handshake) => is_server_handshake(handshake, session),
            _ => false,
        },
        Expected::Error(session) => match packet {
            Packet::Data(message) => is_error_reply(message, session),
            _ => false,
        },
        Expected::State(session, made) => match packet {
            Packet::Data(message) => is_state_update(message, session, made),
            _ => false,
        },
    }
}

/// Whether `reply` is what `expected` describes: no message for silence,
/// else the message described.
pub open spec fn is_reply(reply: Option<ServerPacket>, expected: Expected) -> bool {
    match reply {
        Some(packet) => is_message(packet, expected),
        None => expected is Silence,
    }
}

/// Whether `replies` are the messages that `expected` describes, in
/// order.
pub open spec fn are_replies(replies: Seq<ServerPacket>, expected: Seq<Expected>) -> bool {
    &&& replies.len() == expected.len()
    &&& forall|i: int| 0 <= i < replies.len() ==> is_message(#[trigger] replies[i], expected[i])
}

/// The messages described, with every silence left out.
pub open spec fn spoken(expected: Expected) -> Seq<Expected> {
    if expected is Silence {
        Seq::empty()
    } else {
        seq![expected]
    }
}

/// The mathematical state of a process.
pub struct GameView {
    /// The game.
    pub session: SessionView,
    /// The role on the network.
    pub role: RoleView,
    /// Whether the host plays white.
    pub host_is_white: bool,
}

impl GameView {
    /// What a host with the engine `engine` does with a message of its
    /// client: the state and the engine afterwards, and what it answers.
    ///
    /// A process that is no host does nothing. A handshake fixes the
    /// host's side as the one the client asks for and is answered with
    /// the host's handshake. A move is handled as `client_move_handled`
    /// says: dropped in silence on the host's own turn, else tried, and
    /// answered with an error exactly when it was not made. Nothing else
    /// has an effect.
    pub open spec fn host_stepped<E: RulesEngine>(self, engine: E, packet: ClientPacket) -> (
        GameView,
        E,
        Expected,
    ) {
        if !(self.role is Host) {
            (self, engine, Expected::Silence)
        } else {
            match packet {
                Packet::Handshake(handshake) => (
                    GameView { host_is_white: handshake.server_color == Color::White, ..self },
                    engine,
                    Expected::Handshake(self.session),
                ),
                Packet::Data(ClientToServer::Move(mv)) => {
                    let handled = client_move_handled(
                        self.session,
                        engine,
                        mv,
                        self.host_is_white,
                    );
                    (
                        GameView { session: handled.0, ..self },
                        handled.1,
                        if handled.2 {
                            Expected::Error(self.session)
                        } else {
                            Expected::Silence
                        },
                    )
                },
                Packet::Data(_) => (self, engine, Expected::Silence),
            }
        }
    }

    /// What a host with the engine `engine` does with the messages of one
    /// tick, in order: the state and the engine afterwards, and what it
    /// answers.
    pub open spec fn host_ran<E: RulesEngine>(self, engine: E, packets: Seq<ClientPacket>) -> (
        GameView,
        E,
        Seq<Expected>,
    )
        decreases packets.len(),
    {
        if packets.len() == 0 {
            (self, engine, Seq::empty())
        } else {
            let before = self.host_ran(engine, packets.drop_last());
            let last = before.0.host_stepped(before.1, packets.last());
            (last.0, last.1, before.2 + spoken(last.2))
        }
    }

    /// What the announcement at the end of a host's tick does: the state
    /// afterwards, and what is sent. A move that is ready to be sent is
    /// announced with the state of the game, and waits no longer.
    pub open spec fn host_flushed(self) -> (GameView, Expected) {
        match self.session.unsent {
            UnsentNetMove::Unsent(mv) => (self.sent(), Expected::State(self.session, mv)),
            _ => (self, Expected::Silence),
        }
    }

    /// What a whole tick does to a host with the engine `engine`: the
    /// messages are handled in order, then the state is announced if a
    /// move is ready. A process that is no host does nothing.
    pub open spec fn host_ticked<E: RulesEngine>(self, engine: E, packets: Seq<ClientPacket>) -> (
        GameView,
        E,
        Seq<Expected>,
    ) {
        if !(self.role is Host) {
            (self, engine, Seq::empty())
        } else {
            let ran = self.host_ran(engine, packets);
            let flushed = ran.0.host_flushed();
            (flushed.0, ran.1, ran.2 + spoken(flushed.1))
        }
    }

    /// The state of a client after a message of its host. A process that
    /// is no client does nothing. The handshake makes the game a mirror
    /// of the host's board. A message that carries the state of the game,
    /// a resignation or a refusal brings the board and the standing of
    /// the game, and passes the turn. A draw brings the board and ends
    /// the game.
    pub open spec fn client_step(self, packet: ServerPacket) -> GameView {
        if !(self.role is Client) {
            self
        } else {
            match packet {
                Packet::Handshake(handshake) => GameView {
                    session: self.session.seeded(chess_board(rows(handshake.board))),
                    ..self
                },
                Packet::Data(ServerToClient::State { board, joever, .. })
                | Packet::Data(ServerToClient::Resigned { board, joever, .. })
                | Packet::Data(ServerToClient::Error { board, joever, .. }) => GameView {
                    session: self.session.updated(chess_board(rows(board)), joever),
                    ..self
                },
                Packet::Data(ServerToClient::Draw { board, .. }) => GameView {
                    session: self.session.drawn(chess_board(rows(board))),
                    ..self
                },
            }
        }
    }

    /// The state of a client after the messages of one tick, in order.
    pub open spec fn client_steps(self, packets: Seq<ServerPacket>) -> GameView
        decreases packets.len(),
    {
        if packets.len() == 0 {
            self
        } else {
            self.client_steps(packets.drop_last()).client_step(packets.last())
        }
    }

    /// The state with the waiting move of its game taken out.
    pub open spec fn sent(self) -> GameView {
        GameView { session: self.session.sent(), ..self }
    }

    /// Whether a move may be made on this process's board now: a host
    /// moves on its own turn only, every other role at any time.
    pub open spec fn can_move(self) -> bool {
        self.role is Host ==> self.host_is_white == self.session.is_white_turn
    }
}

/// One process of a game: its game state and its role on the network.
pub struct GameState<E: RulesEngine> {
    chess_state: ChessState<E>,
    mode: GameMode,
    host_is_white: bool,
}

impl<E: RulesEngine> View for GameState<E> {
    type V = GameView;

    closed spec fn view(&self) -> GameView {
        GameView {
            session: self.chess_state@,
            role: self.mode@,
            host_is_white: self.host_is_white,
        }
    }
}

impl<E: RulesEngine> GameState<E> {
    /// The invariant of a process: its game state and its poller are well
    /// formed, and only a client holds a mirror.
    pub closed spec fn wf(&self) -> bool {
        &&& self.chess_state@.wf()
        &&& self.mode.wf()
        &&& self.chess_state@.is_client ==> self.mode is Client
    }

    /// The rules engine of the game.
    pub closed spec fn engine(&self) -> E {
        self.chess_state.engine()
    }

    /// A process with a new game on the board that the engine shows, and
    /// no role yet.
    pub fn new_game(engine: E) -> (game: Self)
        ensures
            game.wf(),
            game@ == (GameView {
                session: SessionView::initial(engine.shows()@),
                role: RoleView::Undecided(DEFAULT_HOST@),
                host_is_white: true,
            }),
            game.engine() == engine,
    {
        GameState {
            chess_state: ChessState::new(engine),
            mode: GameMode::Undecided(String::from_str(DEFAULT_HOST)),
            host_is_white: true,
        }
    }

    /// The game state.
    pub fn chess_state(&self) -> (state: &ChessState<E>)
        ensures
            state@ == self@.session,
            state.engine() == self.engine(),
    {
        &self.chess_state
    }

    /// The role on the network.
    pub fn mode(&self) -> (mode: &GameMode)
        ensures
            mode@ == self@.role,
    {
        &self.mode
    }

    /// Whether the host plays white.
    pub fn host_is_white(&self) -> (white: bool)
        ensures
            white == self@.host_is_white,
    {
        self.host_is_white
    }

    /// Whether a move may be made on this process's board now.
    pub fn can_move(&self) -> (allowed: bool)
        ensures
            allowed == self@.can_move(),
    {
        match self.mode {
            GameMode::Host(_) => self.host_is_white == self.chess_state.is_white_turn(),
            _ => true,
        }
    }

    /// Replaces the host address while no role is chosen, and says
    /// whether it did.
    pub fn set_address(&mut self, address: String) -> (changed: bool)
        requires
            old(self).wf(),
        ensures
            final(self).wf(),
            old(self)@.role.steps_to(final(self)@.role),
            final(self).engine() == old(self).engine(),
            changed == (old(self)@.role is Undecided),
            changed ==> final(self)@ == (GameView {
                role: RoleView::Undecided(address@),
                ..old(self)@
            }),
            !changed ==> final(self)@ == old(self)@,
    {
        match self.mode {
            GameMode::Undecided(_) => {
                self.mode = GameMode::Undecided(address);
                true
            },
            _ => false,
        }
    }

    /// Chooses to play without a network. Only an undecided process can.
    pub fn play_local(&mut self) -> (changed: bool)
        requires
            old(self).wf(),
        ensures
            final(self).wf(),
            old(self)@.role.steps_to(final(self)@.role),
            final(self).engine() == old(self).engine(),
            changed == (old(self)@.role is Undecided),
            changed ==> final(self)@ == (GameView { role: RoleView::Local, ..old(self)@ }),
            !changed ==> final(self)@ == old(self)@,
    {
        match self.mode {
            GameMode::Undecided(_) => {
                self.mode = GameMode::Local;
                true
            },
            _ => false,
        }
    }

    /// Starts to wait for an opponent, once the process listens on
    /// `LISTEN_ADDRESS`. Only an undecided process can.
    pub fn host_game(&mut self) -> (changed: bool)
        requires
            old(self).wf(),
        ensures
            final(self).wf(),
            old(self)@.role.steps_to(final(self)@.role),
            final(self).engine() == old(self).engine(),
            changed == (old(self)@.role is Undecided),
            changed ==> final(self)@ == (GameView {
                role: RoleView::HostWaitForOpponent,
                ..old(self)@
            }),
            !changed ==> final(self)@ == old(self)@,
    {
        match self.mode {
            GameMode::Undecided(_) => {
                self.mode = GameMode::HostWaitForOpponent;
                true
            },
            _ => false,
        }
    }

    /// Becomes the host of the opponent that has connected, with a new
    /// poller for its stream. Only a process that waits for an opponent
    /// can.
    pub fn opponent_joined(&mut self) -> (changed: bool)
        requires
            old(self).wf(),
        ensures
            final(self).wf(),
            old(self)@.role.steps_to(final(self)@.role),
            final(self).engine() == old(self).engine(),
            changed == (old(self)@.role is HostWaitForOpponent),
            changed ==> final(self)@ == (GameView { role: RoleView::Host(idle()), ..old(self)@ }),
            !changed ==> final(self)@ == old(self)@,
    {
        match self.mode {
            GameMode::HostWaitForOpponent => {
                self.mode = GameMode::Host(JsonPoller::new());
                true
            },
            _ => false,
        }
    }

    /// The address of the host to connect to, while no role is chosen.
    pub fn join_address(&self) -> (address: Option<String>)
        ensures
            match self@.role {
                RoleView::Undecided(typed) => match address {
                    Some(full) => full@ == with_port(typed),
                    None => false,
                },
                _ => address is None,
            },
    {
        match &self.mode {
            GameMode::Undecided(typed) => Some(peer_address(typed.as_str())),
            _ => None,
        }
    }

    /// Becomes the client of the host that the process has connected to,
    /// with a new poller for its stream. The result is the handshake to
    /// send at once: it asks the host to play black. Only an undecided
    /// process can.
    pub fn join_game(&mut self) -> (handshake: Option<ClientToServerHandshake>)
        requires
            old(self).wf(),
        ensures
            final(self).wf(),
            old(self)@.role.steps_to(final(self)@.role),
            final(self).engine() == old(self).engine(),
            old(self)@.role is Undecided ==> handshake == Some(
                ClientToServerHandshake { server_color: Color::Black },
            ) && final(self)@ == (GameView { role: RoleView::Client(idle()), ..old(self)@ }),
            !(old(self)@.role is Undecided) ==> handshake is None && final(self)@ == old(self)@,
    {
        match self.mode {
            GameMode::Undecided(_) => {
                self.mode = GameMode::Client(JsonPoller::new());
                Some(ClientToServerHandshake { server_color: Color::Black })
            },
            _ => None,
        }
    }

    /// Tries a move of this process's own player; see
    /// `ChessState::do_move`.
    pub fn do_move(&mut self, from: usize, to: usize) -> (did_move: bool)
        requires
            old(self).wf(),
        ensures
            final(self).wf(),
            final(self)@.role == old(self)@.role,
            final(self)@.host_is_white == old(self)@.host_is_white,
            (final(self)@.session, final(self).engine(), did_move) == old(self)@.session.moved(
                old(self).engine(),
                from as int,
                to as int,
            ),
    {
        self.chess_state.do_move(from, to)
    }

    /// Chooses the piece that the waiting pawn turns into; see
    /// `ChessState::promote`.
    pub fn promote(&mut self, piece: i8)
        requires
            old(self).wf(),
            old(self)@.session.is_promoting,
        ensures
            final(self).wf(),
            final(self)@.role == old(self)@.role,
            final(self)@.host_is_white == old(self)@.host_is_white,
            (final(self)@.session, final(self).engine()) == old(self)@.session.chosen(
                old(self).engine(),
                piece,
            ),
    {
        self.chess_state.promote(piece);
    }

    /// Takes the next bytes of the stream from the peer and returns the
    /// documents that they complete, in order. A process without a peer
    /// takes nothing and returns nothing.
    pub fn receive(&mut self, bytes: &[u8]) -> (packets: Vec<RawPacket>)
        requires
            old(self).wf(),
        ensures
            final(self).wf(),
            old(self)@.role.steps_to(final(self)@.role),
            final(self).engine() == old(self).engine(),
            final(self)@.session == old(self)@.session,
            final(self)@.host_is_white == old(self)@.host_is_white,
            match old(self)@.role {
                RoleView::Host(poller) => final(self)@.role == RoleView::Host(
                    polled(poller, bytes@).0,
                ) && payloads(packets@) == polled(poller, bytes@).1,
                RoleView::Client(poller) => final(self)@.role == RoleView::Client(
                    polled(poller, bytes@).0,
                ) && payloads(packets@) == polled(poller, bytes@).1,
                _ => final(self)@.role == old(self)@.role && packets@.len() == 0,
            },
    {
        let mut packets: Vec<RawPacket> = Vec::new();
        proof {
            assert(payloads(packets@) =~= Seq::empty());
        }
        match &mut self.mode {
            GameMode::Host(poller) => {
                poller.feed(bytes, &mut packets);
            },
            GameMode::Client(poller) => {
                poller.feed(bytes, &mut packets);
            },
            _ => {},
        }
        packets
    }

    /// What a host does with one message of its client: the result is the
    /// answer to send, if there is one.
    pub fn host_packet(&mut self, packet: &ClientPacket) -> (reply: Option<ServerPacket>)
        requires
            old(self).wf(),
        ensures
            final(self).wf(),
            old(self)@.role.steps_to(final(self)@.role),
            final(self)@ == old(self)@.host_stepped(old(self).engine(), *packet).0,
            final(self).engine() == old(self)@.host_stepped(old(self).engine(), *packet).1,
            is_reply(reply, old(self)@.host_stepped(old(self).engine(), *packet).2),
    {
        match self.mode {
            GameMode::Host(_) => {},
            _ => {
                return None;
            },
        }
        match packet {
            Packet::Handshake(handshake) => {
                self.host_is_white = match handshake.server_color {
                    Color::White => true,
                    Color::Black => false,
                };
                Some(Packet::Handshake(send_server_handshake(&self.chess_state)))
            },
            Packet::Data(ClientToServer::Move(mv)) => {
                match handle_client_move(mv, &mut self.chess_state, self.host_is_white) {
                    Some(message) => Some(Packet::Data(message)),
                    None => None,
                }
            },
            Packet::Data(_) => None,
        }
    }

    /// The message with which a host announces its game state after a
    /// move, if a move is ready; see `synchronize_board_state`.
    pub fn host_flush(&mut self) -> (message: Option<ServerToClient>)
        requires
            old(self).wf(),
        ensures
            final(self).wf(),
            old(self)@.role.steps_to(final(self)@.role),
            final(self).engine() == old(self).engine(),
            match old(self)@.session.unsent {
                UnsentNetMove::Unsent(mv) => final(self)@ == (GameView {
                    session: old(self)@.session.sent(),
                    ..old(self)@
                }) && match message {
                    Some(state) => is_state_update(state, old(self)@.session, mv),
                    None => false,
                },
                _ => message is None && final(self)@ == old(self)@,
            },
    {
        synchronize_board_state(&mut self.chess_state)
    }

    /// What a client does with one message of its host.
    pub fn client_packet(&mut self, packet: &ServerPacket)
        requires
            old(self).wf(),
        ensures
            final(self).wf(),
            old(self)@.role.steps_to(final(self)@.role),
            final(self)@ == old(self)@.client_step(*packet),
            final(self).engine() == old(self).engine(),
    {
        match self.mode {
            GameMode::Client(_) => {},
            _ => {
                return ;
            },
        }
        match packet {
            Packet::Handshake(handshake) => {
                self.chess_state.mirror_handshake(&handshake.board);
            },
            Packet::Data(ServerToClient::State { board, joever, .. }) => {
                self.chess_state.mirror_update(board, *joever);
            },
            Packet::Data(ServerToClient::Resigned { board, joever, .. }) => {
                self.chess_state.mirror_update(board, *joever);
            },
            Packet::Data(ServerToClient::Error { board, joever, .. }) => {
                self.chess_state.mirror_update(board, *joever);
            },
            Packet::Data(ServerToClient::Draw { board, .. }) => {
                self.chess_state.mirror_draw(board);
            },
        }
    }

    /// The message with which a client sends its waiting move to the
    /// host, if a move is ready; see `send_client_move`.
    pub fn client_flush(&mut self) -> (message: Option<ClientToServer>)
        requires
            old(self).wf(),
            old(self)@.session.unsent is Unsent ==> old(self)@.session.is_client,
        ensures
            final(self).wf(),
            old(self)@.role.steps_to(final(self)@.role),
            final(self).engine() == old(self).engine(),
            match old(self)@.session.unsent {
                UnsentNetMove::Unsent(mv) => message == Some(ClientToServer::Move(mv))
                    && final(self)@ == (GameView {
                    session: old(self)@.session.sent(),
                    ..old(self)@
                }),
                _ => message is None && final(self)@ == old(self)@,
            },
    {
        send_client_move(&mut self.chess_state)
    }

    /// What a host does with the messages that one tick has brought: it
    /// handles them in order, then announces the state of the game if a
    /// move is ready to be sent. The result holds the answers in the
    /// order in which they are to be sent. A process that is no host
    /// does nothing.
    pub fn host_tick(&mut self, packets: &Vec<ClientPacket>) -> (replies: Vec<ServerPacket>)
        requires
            old(self).wf(),
        ensures
            final(self).wf(),
            old(self)@.role.steps_to(final(self)@.role),
            final(self)@ == old(self)@.host_ticked(old(self).engine(), packets@).0,
            final(self).engine() == old(self)@.host_ticked(old(self).engine(), packets@).1,
            are_replies(replies@, old(self)@.host_ticked(old(self).engine(), packets@).2),
    {
        let mut replies: Vec<ServerPacket> = Vec::new();
        match self.mode {
            GameMode::Host(_) => {},
            _ => {
                return replies;
            },
        }
        let mut i: usize = 0;
        while i < packets.len()
            invariant
                i <= packets.len(),
                self.wf(),
                old(self)@.role is Host,
                self@.role is Host,
                self@ == old(self)@.host_ran(old(self).engine(), packets@.take(i as int)).0,
                self.engine() == old(self)@.host_ran(old(self).engine(), packets@.take(i as int)).1,
                are_replies(
                    replies@,
                    old(self)@.host_ran(old(self).engine(), packets@.take(i as int)).2,
                ),
            decreases packets.len() - i,
        {
            proof {
                assert(packets@.take(i + 1).drop_last() =~= packets@.take(i as int));
            }
            let reply = self.host_packet(&packets[i]);
            match reply {
                Some(answer) => {
                    replies.push(answer);
                },
                None => {},
            }
            i = i + 1;
        }
        proof {
            assert(packets@.take(i as int) =~= packets@);
        }
        match synchronize_board_state(&mut self.chess_state) {
            Some(state) => {
                replies.push(Packet::Data(state));
            },
            None => {},
        }
        replies
    }

    /// Starts a new game with a fresh engine in place of the old one. The
    /// role, the poller of the role and the host's side stay as they are,
    /// and a client's game stays a mirror; the board is the one that the
    /// new engine shows, white is to move, and no move waits.
    pub fn restart(&mut self, engine: E)
        requires
            old(self).wf(),
        ensures
            final(self).wf(),
            old(self)@.role.steps_to(final(self)@.role),
            final(self)@ == (GameView {
                session: SessionView {
                    is_client: old(self)@.session.is_client,
                    ..SessionView::initial(engine.shows()@)
                },
                ..old(self)@
            }),
            final(self).engine() == engine,
    {
        let mirror = self.chess_state.is_client();
        self.chess_state = ChessState::new(engine);
        if mirror {
            self.chess_state.keep_mirroring();
        }
    }

    /// Whether the game is a mirror once the client has handled these
    /// messages: it is one already, or the process is a client and the
    /// host's handshake is among the messages.
    pub fn mirrors_after(&self, packets: &Vec<ServerPacket>) -> (mirror: bool)
        ensures
            mirror == self@.client_steps(packets@).session.is_client,
    {
        let client = match self.mode {
            GameMode::Client(_) => true,
            _ => false,
        };
        let mut mirror = self.chess_state.is_client();
        let mut i: usize = 0;
        while i < packets.len()
            invariant
                i <= packets.len(),
                client == (self@.role is Client),
                self@.client_steps(packets@.take(i as int)).role == self@.role,
                mirror == self@.client_steps(packets@.take(i as int)).session.is_client,
            decreases packets.len() - i,
        {
            proof {
                assert(packets@.take(i + 1).drop_last() =~= packets@.take(i as int));
            }
            match &packets[i] {
                Packet::Handshake(_) => {
                    if client {
                        mirror = true;
                    }
                },
                _ => {},
            }
            i = i + 1;
        }
        proof {
            assert(packets@.take(i as int) =~= packets@);
        }
        mirror
    }

    /// What a client does with the messages that one tick has brought: it
    /// handles them in order, then sends its waiting move if one is
    /// ready. The result is the message to send. A process that is no
    /// client does nothing.
    pub fn client_tick(&mut self, packets: &Vec<ServerPacket>) -> (message: Option<ClientToServer>)
        requires
            old(self).wf(),
            old(self)@.role is Client && old(self)@.session.unsent is Unsent ==> old(
                self,
            )@.client_steps(packets@).session.is_client,
        ensures
            final(self).wf(),
            old(self)@.role.steps_to(final(self)@.role),
            final(self).engine() == old(self).engine(),
            !(old(self)@.role is Client) ==> final(self)@ == old(self)@ && message is None,
            old(self)@.role is Client ==> match old(self)@.session.unsent {
                UnsentNetMove::Unsent(mv) => message == Some(ClientToServer::Move(mv))
                    && final(self)@ == old(self)@.client_steps(packets@).sent(),
                _ => message is None && final(self)@ == old(self)@.client_steps(packets@),
            },
    {
        match self.mode {
            GameMode::Client(_) => {},
            _ => {
                return None;
            },
        }
        let mut i: usize = 0;
        while i < packets.len()
            invariant
                i <= packets.len(),
                self.wf(),
                self@ == old(self)@.client_steps(packets@.take(i as int)),
                self@.role is Client,
                self@.session.unsent == old(self)@.session.unsent,
                self.engine() == old(self).engine(),
            decreases packets.len() - i,
        {
            self.client_packet(&packets[i]);
            proof {
                assert(packets@.take(i + 1).drop_last() =~= packets@.take(i as int));
            }
            i = i + 1;
        }
        proof {
            assert(packets@.take(i as int) =~= packets@);
        }
        send_client_move(&mut self.chess_state)
    }
}

} // verus!
