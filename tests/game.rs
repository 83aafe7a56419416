use rusty_chess::board::Board;
use rusty_chess::game::{Effect, Game, Phase};
use rusty_chess::piece::{Color, Piece, PieceKind, Square};

fn sq(file: u8, rank: u8) -> Square {
    Square::new(file, rank).unwrap()
}

fn piece(color: Color, kind: PieceKind) -> Piece {
    Piece::new(color, kind)
}

#[test]
fn opening_pawn_push_then_wrong_color() {
    let mut game = Game::new();
    assert_eq!(game.active(), Color::White);
    assert_eq!(game.phase(), Phase::AwaitingSelection);
    assert_eq!(game.select(sq(4, 1)), Effect::Selected(sq(4, 1)));
    assert_eq!(
        game.propose_target(sq(4, 3)),
        Effect::MoveCommitted { from: sq(4, 1), to: sq(4, 3), captured: None }
    );
    assert_eq!(game.active(), Color::Black);
    assert_eq!(game.phase(), Phase::AwaitingSelection);
    assert_eq!(game.board().get(sq(4, 3)), Some(piece(Color::White, PieceKind::Pawn)));
    assert_eq!(game.board().get(sq(4, 1)), None);
    // Black may not pick up White's pawn
    assert_eq!(game.select(sq(4, 3)), Effect::Ignored);
    assert_eq!(game.phase(), Phase::AwaitingSelection);
    assert_eq!(game.select(sq(4, 6)), Effect::Selected(sq(4, 6)));
    assert_eq!(game.select(sq(4, 3)), Effect::Ignored);
    assert_eq!(game.phase(), Phase::PieceSelected(sq(4, 6)));
    assert_eq!(game.board().get(sq(4, 3)), Some(piece(Color::White, PieceKind::Pawn)));
    assert_eq!(game.active(), Color::Black);
}

fn castling_position() -> Board {
    let mut board = Board::empty();
    board.spawn(sq(4, 0), piece(Color::White, PieceKind::King));
    board.spawn(sq(7, 0), piece(Color::White, PieceKind::Rook));
    board.spawn(sq(0, 0), piece(Color::White, PieceKind::Rook));
    board.spawn(sq(4, 7), piece(Color::Black, PieceKind::King));
    board
}

#[test]
fn kingside_castling_scenario() {
    let mut game = Game::from_position(castling_position(), Color::White);
    assert_eq!(game.select(sq(4, 0)), Effect::Selected(sq(4, 0)));
    assert_eq!(
        game.propose_target(sq(7, 0)),
        Effect::CastlePerformed {
            king_from: sq(4, 0),
            king_to: sq(6, 0),
            rook_from: sq(7, 0),
            rook_to: sq(5, 0),
        }
    );
    let b = game.board();
    assert_eq!(b.get(sq(6, 0)), Some(piece(Color::White, PieceKind::King)));
    assert_eq!(b.get(sq(5, 0)), Some(piece(Color::White, PieceKind::Rook)));
    assert_eq!(b.get(sq(4, 0)), None);
    assert_eq!(b.get(sq(7, 0)), None);
    for f in [4u8, 5, 6, 7] {
        assert!(!b.is_unmoved(sq(f, 0)));
    }
    assert!(b.is_unmoved(sq(0, 0)));
    assert_eq!(game.active(), Color::Black);
    assert_eq!(game.phase(), Phase::AwaitingSelection);
}

#[test]
fn queenside_castling() {
    let mut game = Game::from_position(castling_position(), Color::White);
    game.select(sq(4, 0));
    assert_eq!(
        game.propose_target(sq(0, 0)),
        Effect::CastlePerformed {
            king_from: sq(4, 0),
            king_to: sq(2, 0),
            rook_from: sq(0, 0),
            rook_to: sq(3, 0),
        }
    );
    assert_eq!(game.board().get(sq(2, 0)), Some(piece(Color::White, PieceKind::King)));
    assert_eq!(game.board().get(sq(3, 0)), Some(piece(Color::White, PieceKind::Rook)));
    assert_eq!(game.board().get(sq(0, 0)), None);
}

#[test]
fn refused_castling_changes_nothing() {
    let mut board = castling_position();
    board.spawn(sq(5, 7), piece(Color::Black, PieceKind::Rook));
    let mut game = Game::from_position(board, Color::White);
    game.select(sq(4, 0));
    assert_eq!(game.propose_target(sq(7, 0)), Effect::MoveRejected);
    assert_eq!(game.phase(), Phase::PieceSelected(sq(4, 0)));
    assert_eq!(game.active(), Color::White);
    assert_eq!(game.board().get(sq(4, 0)), Some(piece(Color::White, PieceKind::King)));
    assert!(game.board().is_unmoved(sq(4, 0)));
}

#[test]
fn self_pin_rejected_in_game() {
    let mut board = Board::empty();
    board.spawn(sq(4, 0), piece(Color::White, PieceKind::King));
    board.spawn(sq(4, 1), piece(Color::White, PieceKind::Bishop));
    board.spawn(sq(4, 7), piece(Color::Black, PieceKind::Rook));
    board.spawn(sq(7, 7), piece(Color::Black, PieceKind::King));
    let mut game = Game::from_position(board, Color::White);
    game.select(sq(4, 1));
    assert_eq!(game.propose_target(sq(5, 2)), Effect::MoveRejected);
    assert_eq!(game.propose_target(sq(2, 3)), Effect::MoveRejected);
    assert_eq!(game.phase(), Phase::PieceSelected(sq(4, 1)));
    assert_eq!(game.active(), Color::White);
    assert_eq!(game.board().get(sq(4, 1)), Some(piece(Color::White, PieceKind::Bishop)));
}

#[test]
fn pawn_double_step_only_from_start() {
    let mut game = Game::new();
    game.select(sq(4, 1));
    assert!(matches!(game.propose_target(sq(4, 3)), Effect::MoveCommitted { .. }));
    game.select(sq(0, 6));
    assert!(matches!(game.propose_target(sq(0, 4)), Effect::MoveCommitted { .. }));
    // the moved pawn may not step two again
    game.select(sq(4, 3));
    assert_eq!(game.propose_target(sq(4, 5)), Effect::MoveRejected);
    assert!(matches!(game.propose_target(sq(4, 4)), Effect::MoveCommitted { .. }));
    // a two-square step is blocked by a piece in between
    game.select(sq(1, 7));
    assert!(matches!(game.propose_target(sq(2, 5)), Effect::MoveCommitted { .. }));
    game.select(sq(2, 1));
    assert!(matches!(game.propose_target(sq(2, 2)), Effect::MoveCommitted { .. }));
    game.select(sq(2, 6));
    assert_eq!(game.propose_target(sq(2, 4)), Effect::MoveRejected);
    assert!(matches!(game.propose_target(sq(3, 4)), Effect::MoveRejected));
}

fn promotion_position() -> Board {
    let mut board = Board::empty();
    board.spawn(sq(4, 0), piece(Color::White, PieceKind::King));
    board.spawn(sq(7, 5), piece(Color::Black, PieceKind::King));
    board.spawn(sq(0, 6), piece(Color::White, PieceKind::Pawn));
    board.spawn(sq(1, 7), piece(Color::Black, PieceKind::Knight));
    board.spawn(sq(6, 1), piece(Color::Black, PieceKind::Pawn));
    board.spawn(sq(2, 5), piece(Color::White, PieceKind::Pawn));
    board
}

#[test]
fn promotion_waits_for_a_choice() {
    let mut game = Game::from_position(promotion_position(), Color::White);
    game.select(sq(0, 6));
    assert_eq!(
        game.propose_target(sq(0, 7)),
        Effect::PromotionPending { from: sq(0, 6), to: sq(0, 7), captured: None, color: Color::White }
    );
    assert_eq!(game.phase(), Phase::AwaitingPromotionChoice(sq(0, 7), Color::White));
    assert_eq!(game.active(), Color::Black);
    // nothing else is accepted meanwhile
    assert_eq!(game.select(sq(7, 5)), Effect::Ignored);
    assert_eq!(game.propose_target(sq(7, 6)), Effect::Ignored);
    assert_eq!(game.choose_promotion(PieceKind::King), Effect::Ignored);
    assert_eq!(game.choose_promotion(PieceKind::Pawn), Effect::Ignored);
    assert_eq!(game.phase(), Phase::AwaitingPromotionChoice(sq(0, 7), Color::White));
    assert_eq!(game.choose_promotion(PieceKind::Knight), Effect::PromotionResolved(sq(0, 7), PieceKind::Knight));
    assert_eq!(game.board().get(sq(0, 7)), Some(piece(Color::White, PieceKind::Knight)));
    assert!(!game.board().is_unmoved(sq(0, 7)));
    assert_eq!(game.phase(), Phase::AwaitingSelection);
    assert_eq!(game.active(), Color::Black);
}

#[test]
fn black_promotes_on_rank_zero_by_capture() {
    let mut board = promotion_position();
    board.spawn(sq(7, 0), piece(Color::White, PieceKind::Rook));
    let mut game = Game::from_position(board, Color::Black);
    game.select(sq(6, 1));
    assert_eq!(
        game.propose_target(sq(7, 0)),
        Effect::PromotionPending { from: sq(6, 1), to: sq(7, 0), captured: Some(sq(7, 0)), color: Color::Black }
    );
    assert_eq!(game.choose_promotion(PieceKind::Queen), Effect::PromotionResolved(sq(7, 0), PieceKind::Queen));
    assert_eq!(game.board().get(sq(7, 0)), Some(piece(Color::Black, PieceKind::Queen)));
    assert_eq!(game.active(), Color::White);
}

#[test]
fn no_promotion_short_of_the_last_rank() {
    let mut game = Game::from_position(promotion_position(), Color::White);
    game.select(sq(2, 5));
    assert_eq!(
        game.propose_target(sq(2, 6)),
        Effect::MoveCommitted { from: sq(2, 5), to: sq(2, 6), captured: None }
    );
    assert_eq!(game.phase(), Phase::AwaitingSelection);
    assert_eq!(game.choose_promotion(PieceKind::Queen), Effect::Ignored);
}

#[test]
fn turn_passes_once_per_accepted_move() {
    let mut game = Game::new();
    let mut expected = Color::White;
    let attempts = [
        ((4u8, 1u8), (4u8, 4u8)),
        ((4, 1), (4, 3)),
        ((3, 6), (3, 3)),
        ((3, 6), (3, 4)),
        ((4, 3), (4, 5)),
        ((4, 3), (3, 4)),
        ((3, 7), (3, 4)),
    ];
    for ((sf, sr), (tf, tr)) in attempts {
        assert_eq!(game.active(), expected);
        let picked = game.select(sq(sf, sr));
        assert_eq!(picked, Effect::Selected(sq(sf, sr)));
        let e = game.propose_target(sq(tf, tr));
        match e {
            Effect::MoveRejected => {
                assert_eq!(game.phase(), Phase::PieceSelected(sq(sf, sr)));
            }
            Effect::MoveCommitted { .. } => expected = expected.opponent(),
            other => panic!("unexpected {:?}", other),
        }
        assert_eq!(game.active(), expected);
    }
    // e4xd5 was a capture, and Black's queen took back
    assert_eq!(game.active(), Color::White);
    assert_eq!(game.board().get(sq(3, 4)), Some(piece(Color::Black, PieceKind::Queen)));
}

#[test]
fn capture_reports_the_captured_square() {
    let mut game = Game::new();
    game.select(sq(4, 1));
    game.propose_target(sq(4, 3));
    game.select(sq(3, 6));
    game.propose_target(sq(3, 4));
    game.select(sq(4, 3));
    assert_eq!(
        game.propose_target(sq(3, 4)),
        Effect::MoveCommitted { from: sq(4, 3), to: sq(3, 4), captured: Some(sq(3, 4)) }
    );
}

#[test]
fn events_out_of_phase_are_ignored() {
    let mut game = Game::new();
    assert_eq!(game.propose_target(sq(4, 3)), Effect::Ignored);
    assert_eq!(game.choose_promotion(PieceKind::Queen), Effect::Ignored);
    assert_eq!(game.select(sq(4, 4)), Effect::Ignored);
    assert_eq!(game.phase(), Phase::AwaitingSelection);
    game.select(sq(4, 1));
    assert_eq!(game.select(sq(3, 1)), Effect::Selected(sq(3, 1)));
    assert_eq!(game.phase(), Phase::PieceSelected(sq(3, 1)));
    assert_eq!(game.propose_target(sq(3, 1)), Effect::MoveRejected);
    assert_eq!(game.active(), Color::White);
}
