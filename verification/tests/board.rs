use chess_session::board::{
    listed, promotion_piece, Board, DrawType, PieceType, Ply, Status, ValidationResult,
};
use chess_session::packet::PromotionPiece;
use chess_session::players::Color;

fn play(board: &mut Board, moves: &[((u8, u8), (u8, u8))]) {
    for (from, to) in moves {
        assert_eq!(board.move_piece(*from, *to), ValidationResult::Valid(Status::InProgress));
    }
}

#[test]
fn a_new_board_awaits_white() {
    let board = Board::new();
    assert_eq!(board.turn(), Color::White);
    assert_eq!(board.status(), Status::InProgress);
    assert_eq!(board.ply_count(), 0);
    assert!(board.history().is_empty());
}

#[test]
fn the_initial_position_has_twenty_moves() {
    let board = Board::new();
    let moves = board.generate_valid_moves();
    assert_eq!(moves.len(), 20);
    assert!(moves.contains(&((4, 1), (4, 3))));
    assert!(moves.contains(&((4, 1), (4, 2))));
    assert!(moves.contains(&((1, 0), (0, 2))));
    assert!(moves.contains(&((1, 0), (2, 2))));
    assert!(!moves.contains(&((1, 0), (1, 2))));
    assert!(!moves.contains(&((4, 6), (4, 4))));
    for (from, to) in moves {
        assert!(from.0 < 8 && from.1 < 8 && to.0 < 8 && to.1 < 8);
    }
}

#[test]
fn a_legal_move_is_made() {
    let mut board = Board::new();
    assert_eq!(board.move_piece((4, 1), (4, 3)), ValidationResult::Valid(Status::InProgress));
    assert_eq!(board.turn(), Color::Black);
    assert_eq!(board.history(), vec![Ply { from: (4, 1), to: (4, 3), promotion: None }]);
    assert!(board.generate_valid_moves().contains(&((4, 6), (4, 4))));
    assert!(!board.generate_valid_moves().contains(&((4, 1), (4, 3))));
}

#[test]
fn an_illegal_move_changes_nothing() {
    let mut board = Board::new();
    assert_eq!(board.move_piece((1, 0), (1, 2)), ValidationResult::Invalid);
    assert_eq!(board.move_piece((4, 1), (4, 4)), ValidationResult::Invalid);
    assert_eq!(board.move_piece((4, 6), (4, 4)), ValidationResult::Invalid);
    assert_eq!(board.move_piece((4, 3), (4, 4)), ValidationResult::Invalid);
    assert_eq!(board.turn(), Color::White);
    assert_eq!(board.ply_count(), 0);
    assert_eq!(board.generate_valid_moves().len(), 20);
}

#[test]
fn a_move_off_the_board_is_refused() {
    let mut board = Board::new();
    assert_eq!(board.move_piece((12, 1), (12, 3)), ValidationResult::Invalid);
    assert_eq!(board.move_piece((4, 9), (4, 11)), ValidationResult::Invalid);
    assert_eq!(board.move_piece((4, 1), (4, 11)), ValidationResult::Invalid);
    assert_eq!(board.move_piece((4, 1), (12, 3)), ValidationResult::Invalid);
    assert_eq!(board.move_piece((255, 255), (255, 255)), ValidationResult::Invalid);
    assert_eq!(board.ply_count(), 0);
}

#[test]
fn the_turn_alternates() {
    let mut board = Board::new();
    let moves = [((4, 1), (4, 3)), ((4, 6), (4, 4)), ((6, 0), (5, 2)), ((1, 7), (2, 5))];
    let mut expected = Color::White;
    for (from, to) in moves {
        assert_eq!(board.turn(), expected);
        assert_eq!(board.move_piece(from, to), ValidationResult::Valid(Status::InProgress));
        expected = expected.opponent();
    }
    assert_eq!(board.turn(), Color::White);
    assert_eq!(board.ply_count(), 4);
}

#[test]
fn mate_is_credited_to_the_side_that_moved() {
    let mut board = Board::new();
    play(&mut board, &[((5, 1), (5, 2)), ((4, 6), (4, 4)), ((6, 1), (6, 3))]);
    assert_eq!(
        board.move_piece((3, 7), (7, 3)),
        ValidationResult::Valid(Status::Checkmate(Color::Black))
    );
    assert_eq!(board.status(), Status::Checkmate(Color::Black));
    assert_eq!(board.turn(), Color::White);
    assert!(board.generate_valid_moves().is_empty());
    assert_eq!(board.move_piece((4, 1), (4, 3)), ValidationResult::Invalid);
    assert_eq!(board.ply_count(), 4);
}

#[test]
fn white_can_mate_too() {
    let mut board = Board::new();
    play(
        &mut board,
        &[
            ((4, 1), (4, 3)),
            ((4, 6), (4, 4)),
            ((5, 0), (2, 3)),
            ((1, 7), (2, 5)),
            ((3, 0), (7, 4)),
            ((6, 7), (5, 5)),
        ],
    );
    assert_eq!(
        board.move_piece((7, 4), (5, 6)),
        ValidationResult::Valid(Status::Checkmate(Color::White))
    );
}

#[test]
fn repetition_is_a_draw() {
    let mut board = Board::new();
    let round = [((1, 0), (2, 2)), ((6, 7), (5, 5)), ((2, 2), (1, 0)), ((5, 5), (6, 7))];
    play(&mut board, &round);
    play(&mut board, &round[..3]);
    assert_eq!(
        board.move_piece((5, 5), (6, 7)),
        ValidationResult::Valid(Status::Draw(DrawType::Repetition))
    );
    assert_eq!(board.status(), Status::Draw(DrawType::Repetition));
}

#[test]
fn stalemate_is_a_draw() {
    let mut board = Board::new();
    play(
        &mut board,
        &[
            ((4, 1), (4, 2)),
            ((0, 6), (0, 4)),
            ((3, 0), (7, 4)),
            ((0, 7), (0, 5)),
            ((7, 4), (0, 4)),
            ((7, 6), (7, 4)),
            ((7, 1), (7, 3)),
            ((0, 5), (7, 5)),
            ((0, 4), (2, 6)),
            ((5, 6), (5, 5)),
            ((2, 6), (3, 6)),
            ((4, 7), (5, 6)),
            ((3, 6), (1, 6)),
            ((3, 7), (3, 2)),
            ((1, 6), (1, 7)),
            ((3, 2), (7, 6)),
            ((1, 7), (2, 7)),
            ((5, 6), (6, 5)),
        ],
    );
    assert_eq!(
        board.move_piece((2, 7), (4, 5)),
        ValidationResult::Valid(Status::Draw(DrawType::Stalemate))
    );
    assert!(board.generate_valid_moves().is_empty());
}

fn to_the_last_rank(board: &mut Board) {
    play(
        board,
        &[
            ((0, 1), (0, 3)),
            ((1, 6), (1, 4)),
            ((0, 3), (1, 4)),
            ((0, 6), (0, 5)),
            ((1, 4), (0, 5)),
            ((2, 7), (1, 6)),
            ((0, 5), (1, 6)),
            ((1, 7), (2, 5)),
        ],
    );
}

#[test]
fn a_pawn_on_the_last_rank_waits_for_its_piece() {
    let mut board = Board::new();
    to_the_last_rank(&mut board);
    assert_eq!(board.move_piece((1, 6), (0, 7)), ValidationResult::Valid(Status::AwaitingPromotion));
    assert_eq!(board.status(), Status::AwaitingPromotion);
    assert_eq!(board.ply_count(), 8);
    assert_eq!(board.turn(), Color::White);
    assert_eq!(board.move_piece((4, 1), (4, 3)), ValidationResult::Invalid);
    assert_eq!(board.status(), Status::AwaitingPromotion);
    assert_eq!(board.promote_piece(PieceType::Knight), Some(Status::InProgress));
    assert_eq!(board.ply_count(), 9);
    assert_eq!(board.turn(), Color::Black);
    assert_eq!(
        board.history()[8],
        Ply { from: (1, 6), to: (0, 7), promotion: Some(PromotionPiece::Knight) }
    );
}

#[test]
fn a_pawn_turns_into_no_king_and_no_pawn() {
    for piece in [PieceType::King, PieceType::Pawn] {
        let mut board = Board::new();
        to_the_last_rank(&mut board);
        assert_eq!(
            board.move_piece((1, 6), (0, 7)),
            ValidationResult::Valid(Status::AwaitingPromotion)
        );
        assert_eq!(board.promote_piece(piece), None);
        assert_eq!(board.status(), Status::InProgress);
        assert_eq!(board.ply_count(), 8);
        assert_eq!(board.turn(), Color::White);
    }
}

#[test]
fn no_promotion_without_a_waiting_pawn() {
    let mut board = Board::new();
    assert_eq!(board.promote_piece(PieceType::Queen), None);
    assert_eq!(board.ply_count(), 0);
    assert_eq!(board.status(), Status::InProgress);
}

#[test]
fn promotion_pieces() {
    assert_eq!(promotion_piece(PieceType::Queen), Some(PromotionPiece::Queen));
    assert_eq!(promotion_piece(PieceType::Rook), Some(PromotionPiece::Rook));
    assert_eq!(promotion_piece(PieceType::Bishop), Some(PromotionPiece::Bishop));
    assert_eq!(promotion_piece(PieceType::Knight), Some(PromotionPiece::Knight));
    assert_eq!(promotion_piece(PieceType::King), None);
    assert_eq!(promotion_piece(PieceType::Pawn), None);
}

#[test]
fn listed_finds_a_move_by_both_squares() {
    let moves = vec![((0, 1), (0, 2)), ((0, 1), (0, 3)), ((1, 0), (2, 2))];
    assert!(listed(&moves, (0, 1), (0, 3)));
    assert!(listed(&moves, (1, 0), (2, 2)));
    assert!(!listed(&moves, (0, 1), (2, 2)));
    assert!(!listed(&moves, (0, 2), (0, 1)));
    assert!(!listed(&Vec::new(), (0, 1), (0, 2)));
}

#[test]
fn opponents() {
    assert_eq!(Color::White.opponent(), Color::Black);
    assert_eq!(Color::Black.opponent(), Color::White);
}

#[test]
fn pieces_stand_where_the_game_put_them() {
    let mut board = Board::new();
    assert_eq!(board.piece_at((4, 0)), Some((Color::White, PieceType::King)));
    assert_eq!(board.piece_at((3, 0)), Some((Color::White, PieceType::Queen)));
    assert_eq!(board.piece_at((0, 0)), Some((Color::White, PieceType::Rook)));
    assert_eq!(board.piece_at((2, 0)), Some((Color::White, PieceType::Bishop)));
    assert_eq!(board.piece_at((1, 0)), Some((Color::White, PieceType::Knight)));
    assert_eq!(board.piece_at((4, 1)), Some((Color::White, PieceType::Pawn)));
    assert_eq!(board.piece_at((4, 7)), Some((Color::Black, PieceType::King)));
    assert_eq!(board.piece_at((3, 7)), Some((Color::Black, PieceType::Queen)));
    assert_eq!(board.piece_at((7, 6)), Some((Color::Black, PieceType::Pawn)));
    assert_eq!(board.piece_at((4, 3)), None);
    assert_eq!(board.move_piece((4, 1), (4, 3)), ValidationResult::Valid(Status::InProgress));
    assert_eq!(board.piece_at((4, 1)), None);
    assert_eq!(board.piece_at((4, 3)), Some((Color::White, PieceType::Pawn)));
}

#[test]
fn no_piece_stands_off_the_board() {
    let board = Board::new();
    assert_eq!(board.piece_at((8, 0)), None);
    assert_eq!(board.piece_at((0, 8)), None);
    assert_eq!(board.piece_at((12, 1)), None);
    assert_eq!(board.piece_at((255, 255)), None);
}

#[test]
fn a_promoted_pawn_is_the_piece_that_was_named() {
    let mut board = Board::new();
    to_the_last_rank(&mut board);
    board.move_piece((1, 6), (0, 7));
    assert_eq!(board.piece_at((1, 6)), Some((Color::White, PieceType::Pawn)));
    assert_eq!(board.promote_piece(PieceType::Rook), Some(Status::InProgress));
    assert_eq!(board.piece_at((0, 7)), Some((Color::White, PieceType::Rook)));
    assert_eq!(board.piece_at((1, 6)), None);
}
