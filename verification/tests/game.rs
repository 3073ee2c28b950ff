use gchess::board::Board;
use gchess::game::{
    handle_client_move, peer_address, send_client_move, send_server_handshake,
    synchronize_board_state, GameMode, GameState, BAD_MOVE, DEFAULT_HOST, DEFAULT_PORT,
    LISTEN_ADDRESS,
};
use gchess::poller::Packet;
use gchess::session::{ChessState, RulesEngine, UnsentNetMove};
use gchess::wire::{
    ClientToServer, ClientToServerHandshake, Color, Features, Joever, Move, Piece, ServerToClient,
    ServerToClientHandshake,
};

#[derive(Clone, Debug, PartialEq)]
struct Rules {
    board: Board,
    accepts: bool,
    promotes: bool,
    asked: Vec<(usize, usize)>,
}

impl Rules {
    fn with(accepts: bool, promotes: bool) -> Rules {
        let mut board: Board = [(0, 0); 64];
        board[8] = (1, -1);
        board[12] = (2, -1);
        board[52] = (1, 1);
        Rules { board, accepts, promotes, asked: vec![] }
    }
}

impl RulesEngine for Rules {
    fn accepts(&self, _from: usize, _to: usize) -> bool {
        self.accepts
    }

    fn after_move(&self, from: usize, to: usize) -> Self {
        let mut next = self.clone();
        next.apply_move(from, to);
        next
    }

    fn shows(&self) -> Board {
        self.board
    }

    fn promotion_waits(&self) -> bool {
        self.can_promote_now()
    }

    fn after_promotion(&self, piece: i8) -> Self {
        let mut next = self.clone();
        next.apply_promotion(piece);
        next
    }

    fn ended(&self) -> bool {
        self.is_game_over()
    }

    fn apply_move(&mut self, from: usize, to: usize) -> bool {
        self.asked.push((from, to));
        if self.accepts {
            self.board[to] = self.board[from];
            self.board[from] = (0, 0);
        }
        self.accepts
    }

    fn current_board(&self) -> Board {
        self.board
    }

    fn can_promote_now(&self) -> bool {
        self.promotes
    }

    fn apply_promotion(&mut self, piece: i8) {
        self.promotes = false;
        self.board[0] = (piece, -1);
    }

    fn is_game_over(&self) -> bool {
        false
    }
}

fn start_wire() -> [[Piece; 8]; 8] {
    let mut wire = [[Piece::Empty; 8]; 8];
    wire[6][0] = Piece::WhitePawn;
    wire[6][4] = Piece::WhiteRook;
    wire[1][4] = Piece::BlackPawn;
    wire
}

fn rook_move() -> Move {
    Move { start_x: 4, start_y: 6, end_x: 4, end_y: 4, promotion: Piece::Empty }
}

fn host(accepts: bool, promotes: bool, host_color: Color) -> GameState<Rules> {
    let mut game = GameState::new_game(Rules::with(accepts, promotes));
    assert_eq!(game.host_game(), true);
    assert_eq!(game.opponent_joined(), true);
    let hello = Packet::Handshake(ClientToServerHandshake { server_color: host_color });
    assert_eq!(game.host_packet(&hello).is_some(), true);
    game
}

fn client() -> GameState<Rules> {
    let mut game = GameState::new_game(Rules::with(false, false));
    assert_eq!(
        game.join_game(),
        Some(ClientToServerHandshake { server_color: Color::Black })
    );
    game
}

#[test]
fn addresses() {
    assert_eq!(LISTEN_ADDRESS, "127.0.0.1:8483");
    assert_eq!(DEFAULT_HOST, "localhost");
    assert_eq!(DEFAULT_PORT, ":8483");
    assert_eq!(peer_address("localhost"), "localhost:8483");
    assert_eq!(peer_address("example.org:9000"), "example.org:9000");
    assert_eq!(peer_address(""), ":8483");
    assert_eq!(peer_address(":"), ":");
    assert_eq!(peer_address("b\u{00FC}cher"), "b\u{00FC}cher:8483");
}

#[test]
fn new_game_is_undecided() {
    let game = GameState::new_game(Rules::with(true, false));
    assert_eq!(matches!(game.mode(), GameMode::Undecided(address) if address == "localhost"), true);
    assert_eq!(game.host_is_white(), true);
    assert_eq!(game.can_move(), true);
    assert_eq!(game.join_address(), Some("localhost:8483".to_string()));
    assert_eq!(game.chess_state().is_white_turn(), true);
    assert_eq!(game.chess_state().is_client(), false);
    assert_eq!(game.chess_state().unsent_net_move(), UnsentNetMove::Nothing);
    assert_eq!(game.chess_state().board()[12], (2, -1));
}

#[test]
fn address_can_be_typed_while_undecided() {
    let mut game = GameState::new_game(Rules::with(true, false));
    assert_eq!(game.set_address("10.0.0.2:9000".to_string()), true);
    assert_eq!(game.join_address(), Some("10.0.0.2:9000".to_string()));
    assert_eq!(game.set_address("10.0.0.2".to_string()), true);
    assert_eq!(game.join_address(), Some("10.0.0.2:8483".to_string()));
    assert_eq!(game.play_local(), true);
    assert_eq!(game.set_address("x".to_string()), false);
    assert_eq!(game.join_address(), None);
}

#[test]
fn roles_only_move_forward() {
    let mut game = GameState::new_game(Rules::with(true, false));
    assert_eq!(game.opponent_joined(), false);
    assert_eq!(matches!(game.mode(), GameMode::Undecided(_)), true);
    assert_eq!(game.host_game(), true);
    assert_eq!(matches!(game.mode(), GameMode::HostWaitForOpponent), true);
    assert_eq!(game.play_local(), false);
    assert_eq!(game.host_game(), false);
    assert_eq!(game.join_game(), None);
    assert_eq!(matches!(game.mode(), GameMode::HostWaitForOpponent), true);
    assert_eq!(game.opponent_joined(), true);
    assert_eq!(matches!(game.mode(), GameMode::Host(_)), true);
    assert_eq!(game.opponent_joined(), false);
    assert_eq!(game.play_local(), false);
    assert_eq!(game.host_game(), false);
    assert_eq!(game.join_game(), None);
    assert_eq!(matches!(game.mode(), GameMode::Host(_)), true);

    let mut local = GameState::new_game(Rules::with(true, false));
    assert_eq!(local.play_local(), true);
    assert_eq!(local.host_game(), false);
    assert_eq!(local.join_game(), None);
    assert_eq!(local.opponent_joined(), false);
    assert_eq!(matches!(local.mode(), GameMode::Local), true);

    let mut joined = client();
    assert_eq!(joined.play_local(), false);
    assert_eq!(joined.host_game(), false);
    assert_eq!(joined.join_game(), None);
    assert_eq!(matches!(joined.mode(), GameMode::Client(_)), true);
}

#[test]
fn host_answers_the_handshake_with_its_state() {
    let mut game = GameState::new_game(Rules::with(true, false));
    game.host_game();
    game.opponent_joined();
    let hello = Packet::Handshake(ClientToServerHandshake { server_color: Color::Black });
    let reply = game.host_packet(&hello);
    assert_eq!(
        reply,
        Some(Packet::Handshake(ServerToClientHandshake {
            features: vec![Features::EnPassant, Features::Castling, Features::Promotion],
            board: start_wire(),
            moves: vec![],
            joever: Joever::Ongoing,
        }))
    );
    assert_eq!(game.host_is_white(), false);
    let hello = Packet::Handshake(ClientToServerHandshake { server_color: Color::White });
    assert_eq!(game.host_packet(&hello).is_some(), true);
    assert_eq!(game.host_is_white(), true);
    assert_eq!(
        send_server_handshake(game.chess_state()),
        ServerToClientHandshake {
            features: vec![Features::EnPassant, Features::Castling, Features::Promotion],
            board: start_wire(),
            moves: vec![],
            joever: Joever::Ongoing,
        }
    );
}

#[test]
fn move_out_of_turn_is_dropped_silently() {
    let mut game = host(true, false, Color::White);
    assert_eq!(game.can_move(), true);
    let packet = Packet::Data(ClientToServer::Move(rook_move()));
    assert_eq!(game.host_packet(&packet), None);
    assert_eq!(game.chess_state().board()[12], (2, -1));
    assert_eq!(game.chess_state().board()[28], (0, 0));
    assert_eq!(game.chess_state().is_white_turn(), true);
    assert_eq!(game.chess_state().chess_board().asked, vec![]);
    assert_eq!(game.host_flush(), None);
}

#[test]
fn refused_move_is_answered_with_an_error() {
    let mut game = host(false, false, Color::Black);
    assert_eq!(game.can_move(), false);
    let packet = Packet::Data(ClientToServer::Move(rook_move()));
    assert_eq!(
        game.host_packet(&packet),
        Some(Packet::Data(ServerToClient::Error {
            board: start_wire(),
            moves: vec![],
            joever: Joever::Ongoing,
            message: "Bad move!".to_string(),
        }))
    );
    assert_eq!(BAD_MOVE, "Bad move!");
    assert_eq!(game.chess_state().board()[12], (2, -1));
    assert_eq!(game.chess_state().is_white_turn(), true);
    assert_eq!(game.chess_state().chess_board().asked, vec![(12, 28)]);
    assert_eq!(game.host_flush(), None);
}

#[test]
fn move_off_the_board_is_answered_with_an_error() {
    let mut game = host(true, false, Color::Black);
    let mv = Move { end_y: 9, ..rook_move() };
    let reply = game.host_packet(&Packet::Data(ClientToServer::Move(mv)));
    assert_eq!(matches!(reply, Some(Packet::Data(ServerToClient::Error { .. }))), true);
    assert_eq!(game.chess_state().chess_board().asked, vec![]);
    assert_eq!(game.host_flush(), None);
}

#[test]
fn accepted_move_is_announced_at_the_end_of_the_tick() {
    let mut game = host(true, false, Color::Black);
    let packet = Packet::Data(ClientToServer::Move(rook_move()));
    assert_eq!(game.host_packet(&packet), None);
    assert_eq!(game.chess_state().is_white_turn(), false);
    assert_eq!(game.can_move(), true);
    let mut after = start_wire();
    after[6][4] = Piece::Empty;
    after[4][4] = Piece::WhiteRook;
    assert_eq!(
        game.host_flush(),
        Some(ServerToClient::State {
            board: after,
            moves: vec![],
            joever: Joever::Ongoing,
            move_made: rook_move(),
        })
    );
    assert_eq!(game.chess_state().unsent_net_move(), UnsentNetMove::Nothing);
    assert_eq!(game.host_flush(), None);
    assert_eq!(game.host_packet(&packet), None);
    assert_eq!(game.chess_state().chess_board().asked, vec![(12, 28)]);
}

#[test]
fn host_announces_its_own_move() {
    let mut game = host(true, false, Color::White);
    assert_eq!(game.do_move(12, 28), true);
    assert_eq!(game.can_move(), false);
    let message = game.host_flush();
    assert_eq!(
        matches!(message, Some(ServerToClient::State { move_made, .. }) if move_made == rook_move()),
        true
    );
}

#[test]
fn host_holds_back_a_move_that_waits_for_promotion() {
    let mut game = host(true, true, Color::White);
    assert_eq!(game.do_move(8, 0), true);
    assert_eq!(game.chess_state().is_promoting(), true);
    assert_eq!(game.host_flush(), None);
    game.promote(5);
    let message = game.host_flush();
    assert_eq!(
        matches!(
            message,
            Some(ServerToClient::State { move_made, .. }) if move_made.promotion == Piece::WhiteQueen
        ),
        true
    );
}

#[test]
fn resignation_and_draw_offers_are_ignored() {
    let mut game = host(true, false, Color::Black);
    assert_eq!(game.host_packet(&Packet::Data(ClientToServer::Resign)), None);
    assert_eq!(game.host_packet(&Packet::Data(ClientToServer::Draw)), None);
    assert_eq!(game.chess_state().is_white_turn(), true);
    assert_eq!(game.chess_state().is_game_over(), false);
    assert_eq!(game.host_flush(), None);
}

#[test]
fn only_a_host_handles_client_packets() {
    let mut game = GameState::new_game(Rules::with(true, false));
    let hello = Packet::Handshake(ClientToServerHandshake { server_color: Color::Black });
    assert_eq!(game.host_packet(&hello), None);
    assert_eq!(game.host_is_white(), true);
    let mut joined = client();
    assert_eq!(joined.host_packet(&Packet::Data(ClientToServer::Move(rook_move()))), None);
    assert_eq!(joined.chess_state().chess_board().asked, vec![]);
}

#[test]
fn client_mirrors_the_host() {
    let mut game = client();
    assert_eq!(game.chess_state().is_client(), false);
    let mut board = [[Piece::Empty; 8]; 8];
    board[0][4] = Piece::WhiteKing;
    game.client_packet(&Packet::Handshake(ServerToClientHandshake {
        features: vec![Features::Other("x".to_string())],
        board,
        moves: vec![],
        joever: Joever::Ongoing,
    }));
    assert_eq!(game.chess_state().is_client(), true);
    assert_eq!(game.chess_state().board()[60], (6, -1));
    assert_eq!(game.chess_state().board()[12], (0, 0));
    assert_eq!(game.chess_state().is_white_turn(), true);
    board[7][4] = Piece::BlackKing;
    game.client_packet(&Packet::Data(ServerToClient::State {
        board,
        moves: vec![],
        joever: Joever::Ongoing,
        move_made: rook_move(),
    }));
    assert_eq!(game.chess_state().board()[4], (6, 1));
    assert_eq!(game.chess_state().is_white_turn(), false);
    assert_eq!(game.chess_state().is_game_over(), false);
    game.client_packet(&Packet::Data(ServerToClient::Error {
        board,
        moves: vec![],
        joever: Joever::Ongoing,
        message: "Bad move!".to_string(),
    }));
    assert_eq!(game.chess_state().is_white_turn(), true);
    game.client_packet(&Packet::Data(ServerToClient::Resigned {
        board,
        moves: vec![],
        joever: Joever::Black,
    }));
    assert_eq!(game.chess_state().is_white_turn(), false);
    assert_eq!(game.chess_state().is_game_over(), true);
    let mut drawn = client();
    drawn.client_packet(&Packet::Data(ServerToClient::Draw {
        board,
        moves: vec![],
        joever: Joever::Ongoing,
    }));
    assert_eq!(drawn.chess_state().is_game_over(), true);
    assert_eq!(drawn.chess_state().is_white_turn(), true);
    assert_eq!(drawn.chess_state().board()[4], (6, 1));
}

#[test]
fn only_a_client_handles_host_packets() {
    let mut game = host(true, false, Color::White);
    game.client_packet(&Packet::Data(ServerToClient::Draw {
        board: [[Piece::Empty; 8]; 8],
        moves: vec![],
        joever: Joever::Draw,
    }));
    assert_eq!(game.chess_state().is_game_over(), false);
    assert_eq!(game.chess_state().board()[12], (2, -1));
}

#[test]
fn client_sends_its_move_once() {
    let mut game = client();
    game.client_packet(&Packet::Handshake(ServerToClientHandshake {
        features: vec![],
        board: start_wire(),
        moves: vec![],
        joever: Joever::Ongoing,
    }));
    assert_eq!(game.client_flush(), None);
    assert_eq!(game.do_move(12, 28), true);
    assert_eq!(game.client_flush(), Some(ClientToServer::Move(rook_move())));
    assert_eq!(game.client_flush(), None);
    assert_eq!(game.chess_state().board()[12], (2, -1));
    assert_eq!(game.chess_state().chess_board().asked, vec![]);
}

#[test]
fn stream_goes_to_the_poller_of_the_role() {
    let mut game = GameState::new_game(Rules::with(true, false));
    assert_eq!(game.receive(b"{}"), vec![]);
    game.host_game();
    assert_eq!(game.receive(b"{}"), vec![]);
    game.opponent_joined();
    assert_eq!(game.receive(b"{\"a\""), vec![]);
    assert_eq!(
        game.receive(b": 1}{}"),
        vec![Packet::Handshake(b"{\"a\": 1}".to_vec()), Packet::Data(b"{}".to_vec())]
    );
    let mut joined = client();
    assert_eq!(joined.receive(b" {} "), vec![Packet::Handshake(b" {}".to_vec())]);
    assert_eq!(joined.receive(b"{}"), vec![Packet::Data(b" {}".to_vec())]);
}

#[test]
fn free_functions_work_on_a_bare_state() {
    let mut state = ChessState::new(Rules::with(false, false));
    let reply = handle_client_move(&rook_move(), &mut state, false);
    assert_eq!(
        reply,
        Some(ServerToClient::Error {
            board: start_wire(),
            moves: vec![],
            joever: Joever::Ongoing,
            message: "Bad move!".to_string(),
        })
    );
    assert_eq!(state.chess_board().asked, vec![(12, 28)]);
    assert_eq!(synchronize_board_state(&mut state), None);
    assert_eq!(send_client_move(&mut state), None);
    let mut state = ChessState::new(Rules::with(true, false));
    assert_eq!(handle_client_move(&rook_move(), &mut state, false), None);
    assert_eq!(state.is_white_turn(), false);
    let message = synchronize_board_state(&mut state);
    assert_eq!(matches!(message, Some(ServerToClient::State { .. })), true);
    assert_eq!(synchronize_board_state(&mut state), None);
}

#[test]
fn client_move_on_the_hosts_turn_is_dropped_unasked() {
    let mut state = ChessState::new(Rules::with(true, false));
    assert_eq!(handle_client_move(&rook_move(), &mut state, true), None);
    assert_eq!(state.board()[12], (2, -1));
    assert_eq!(state.board()[28], (0, 0));
    assert_eq!(state.is_white_turn(), true);
    assert_eq!(state.unsent_net_move(), UnsentNetMove::Nothing);
    assert_eq!(state.chess_board().asked, vec![]);
    assert_eq!(synchronize_board_state(&mut state), None);
    let mut refusing = ChessState::new(Rules::with(false, false));
    assert_eq!(handle_client_move(&rook_move(), &mut refusing, true), None);
    assert_eq!(refusing.chess_board().asked, vec![]);
    let mut black_to_move = ChessState::new(Rules::with(true, false));
    assert_eq!(black_to_move.do_move(12, 28), true);
    assert_eq!(black_to_move.take_unsent().is_some(), true);
    let reply = Move { start_x: 4, start_y: 1, end_x: 4, end_y: 3, promotion: Piece::Empty };
    assert_eq!(handle_client_move(&reply, &mut black_to_move, false), None);
    assert_eq!(black_to_move.is_white_turn(), false);
    assert_eq!(black_to_move.chess_board().asked, vec![(12, 28)]);
    assert_eq!(handle_client_move(&reply, &mut black_to_move, true), None);
    assert_eq!(black_to_move.is_white_turn(), true);
    assert_eq!(black_to_move.chess_board().asked, vec![(12, 28), (52, 36)]);
}

#[test]
fn restart_keeps_the_role_and_the_side() {
    let mut game = host(true, false, Color::Black);
    assert_eq!(game.host_packet(&Packet::Data(ClientToServer::Move(rook_move()))), None);
    assert_eq!(game.chess_state().is_white_turn(), false);
    assert_eq!(game.receive(b"{\"half\""), vec![]);
    game.restart(Rules::with(false, false));
    assert_eq!(matches!(game.mode(), GameMode::Host(_)), true);
    assert_eq!(game.host_is_white(), false);
    assert_eq!(game.chess_state().is_white_turn(), true);
    assert_eq!(game.chess_state().is_promoting(), false);
    assert_eq!(game.chess_state().is_game_over(), false);
    assert_eq!(game.chess_state().is_client(), false);
    assert_eq!(game.chess_state().unsent_net_move(), UnsentNetMove::Nothing);
    assert_eq!(game.chess_state().board()[12], (2, -1));
    assert_eq!(game.chess_state().board()[28], (0, 0));
    assert_eq!(game.chess_state().chess_board().asked, vec![]);
    assert_eq!(game.host_flush(), None);
    assert_eq!(game.receive(b": 1}"), vec![Packet::Handshake(b"{\"half\": 1}".to_vec())]);

    let mut local = GameState::new_game(Rules::with(true, false));
    assert_eq!(local.play_local(), true);
    assert_eq!(local.do_move(12, 28), true);
    local.restart(Rules::with(true, false));
    assert_eq!(matches!(local.mode(), GameMode::Local), true);
    assert_eq!(local.chess_state().board()[12], (2, -1));
    assert_eq!(local.chess_state().unsent_net_move(), UnsentNetMove::Nothing);

    let mut joined = client();
    joined.client_packet(&Packet::Handshake(ServerToClientHandshake {
        features: vec![],
        board: [[Piece::Empty; 8]; 8],
        moves: vec![],
        joever: Joever::Ongoing,
    }));
    joined.client_packet(&Packet::Data(ServerToClient::Draw {
        board: [[Piece::Empty; 8]; 8],
        moves: vec![],
        joever: Joever::Draw,
    }));
    assert_eq!(joined.chess_state().is_game_over(), true);
    joined.restart(Rules::with(false, false));
    assert_eq!(matches!(joined.mode(), GameMode::Client(_)), true);
    assert_eq!(joined.chess_state().is_client(), true);
    assert_eq!(joined.chess_state().is_game_over(), false);
    assert_eq!(joined.chess_state().board()[12], (2, -1));
    assert_eq!(joined.do_move(12, 28), true);
    assert_eq!(joined.client_flush(), Some(ClientToServer::Move(rook_move())));
    assert_eq!(joined.chess_state().chess_board().asked, vec![]);
}

#[test]
fn host_tick_answers_in_order_and_announces_last() {
    let mut game = GameState::new_game(Rules::with(true, false));
    game.host_game();
    game.opponent_joined();
    let packets = vec![
        Packet::Handshake(ClientToServerHandshake { server_color: Color::Black }),
        Packet::Data(ClientToServer::Resign),
        Packet::Data(ClientToServer::Move(rook_move())),
        Packet::Data(ClientToServer::Move(rook_move())),
    ];
    let replies = game.host_tick(&packets);
    let mut after = start_wire();
    after[6][4] = Piece::Empty;
    after[4][4] = Piece::WhiteRook;
    assert_eq!(
        replies,
        vec![
            Packet::Handshake(ServerToClientHandshake {
                features: vec![Features::EnPassant, Features::Castling, Features::Promotion],
                board: start_wire(),
                moves: vec![],
                joever: Joever::Ongoing,
            }),
            Packet::Data(ServerToClient::State {
                board: after,
                moves: vec![],
                joever: Joever::Ongoing,
                move_made: rook_move(),
            }),
        ]
    );
    assert_eq!(game.host_is_white(), false);
    assert_eq!(game.chess_state().is_white_turn(), false);
    assert_eq!(game.chess_state().unsent_net_move(), UnsentNetMove::Nothing);
    assert_eq!(game.chess_state().chess_board().asked, vec![(12, 28)]);
    assert_eq!(game.host_tick(&vec![]), vec![]);
}

#[test]
fn host_tick_with_a_refused_move_sends_the_error_alone() {
    let mut game = host(false, false, Color::Black);
    let packets = vec![Packet::Data(ClientToServer::Move(rook_move()))];
    assert_eq!(
        game.host_tick(&packets),
        vec![Packet::Data(ServerToClient::Error {
            board: start_wire(),
            moves: vec![],
            joever: Joever::Ongoing,
            message: "Bad move!".to_string(),
        })]
    );
    assert_eq!(game.chess_state().is_white_turn(), true);
    assert_eq!(game.chess_state().board()[12], (2, -1));
}

#[test]
fn host_tick_drops_a_move_out_of_turn() {
    let mut game = host(true, false, Color::White);
    let packets = vec![Packet::Data(ClientToServer::Move(rook_move()))];
    assert_eq!(game.host_tick(&packets), vec![]);
    assert_eq!(game.chess_state().is_white_turn(), true);
    assert_eq!(game.chess_state().board()[12], (2, -1));
    assert_eq!(game.chess_state().chess_board().asked, vec![]);
}

#[test]
fn host_tick_is_for_hosts_only() {
    let mut game = GameState::new_game(Rules::with(true, false));
    assert_eq!(game.play_local(), true);
    assert_eq!(game.do_move(12, 28), true);
    let packets = vec![Packet::Handshake(ClientToServerHandshake { server_color: Color::Black })];
    assert_eq!(game.host_tick(&packets), vec![]);
    assert_eq!(game.host_is_white(), true);
    assert_eq!(game.chess_state().unsent_net_move(), UnsentNetMove::Unsent(rook_move()));
    assert_eq!(game.client_tick(&vec![]), None);
    assert_eq!(game.chess_state().unsent_net_move(), UnsentNetMove::Unsent(rook_move()));
}

#[test]
fn client_tick_mirrors_then_sends() {
    let mut game = client();
    let mut moved = start_wire();
    moved[1][4] = Piece::Empty;
    moved[3][4] = Piece::BlackPawn;
    let packets = vec![
        Packet::Handshake(ServerToClientHandshake {
            features: vec![Features::EnPassant, Features::Castling, Features::Promotion],
            board: start_wire(),
            moves: vec![],
            joever: Joever::Ongoing,
        }),
        Packet::Data(ServerToClient::State {
            board: moved,
            moves: vec![],
            joever: Joever::Ongoing,
            move_made: Move { start_x: 4, start_y: 1, end_x: 4, end_y: 3, promotion: Piece::Empty },
        }),
    ];
    assert_eq!(game.client_tick(&packets), None);
    assert_eq!(game.chess_state().is_client(), true);
    assert_eq!(game.chess_state().is_white_turn(), false);
    assert_eq!(game.chess_state().board()[52], (0, 0));
    assert_eq!(game.chess_state().board()[36], (1, 1));
    assert_eq!(game.do_move(12, 28), true);
    assert_eq!(game.client_tick(&vec![]), Some(ClientToServer::Move(rook_move())));
    assert_eq!(game.client_tick(&vec![]), None);
    assert_eq!(game.chess_state().unsent_net_move(), UnsentNetMove::Nothing);
}

#[test]
fn mirror_is_foreseen_from_the_packets() {
    let handshake = || {
        Packet::Handshake(ServerToClientHandshake {
            features: vec![],
            board: start_wire(),
            moves: vec![],
            joever: Joever::Ongoing,
        })
    };
    let draw = || {
        Packet::Data(ServerToClient::Draw {
            board: start_wire(),
            moves: vec![],
            joever: Joever::Draw,
        })
    };
    let mut game = client();
    assert_eq!(game.mirrors_after(&vec![]), false);
    assert_eq!(game.mirrors_after(&vec![draw()]), false);
    assert_eq!(game.mirrors_after(&vec![draw(), handshake(), draw()]), true);
    assert_eq!(game.client_tick(&vec![handshake()]), None);
    assert_eq!(game.mirrors_after(&vec![]), true);
    let hosting = host(true, false, Color::White);
    assert_eq!(hosting.mirrors_after(&vec![handshake()]), false);
}
