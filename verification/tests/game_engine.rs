use chess_core::chess_types::{Address, Board, Color, Piece, PieceType};
use chess_core::game_engine::{get_piece_moves, make_move, make_moves, MoveError};

fn cell(s: &str) -> Address {
    Address::from_str(s).unwrap()
}

fn cells(names: &[&str]) -> Vec<Address> {
    names.iter().map(|s| cell(s)).collect()
}

fn put(board: &mut Board, s: &str, piece_type: PieceType, color: Color) {
    *board.get_cell_mut(cell(s)) = Some(Piece { piece_type, color });
}

#[test]
fn board_moves() {
    let board = Board::new();
    let res = get_piece_moves(&board, Address::from_str("e2").unwrap());
    assert_eq!(res.is_ok(), true);

    println!("{:?}", res.unwrap());
}

#[test]
fn empty_square_has_no_moves() {
    let board = Board::new();
    let res = get_piece_moves(&board, cell("d4"));
    assert_eq!(res, Err(MoveError::NoPiece));
}

#[test]
fn pawn_start_rank_moves() {
    let board = Board::new();
    let res = get_piece_moves(&board, cell("e2")).unwrap();
    // double step is emitted first, then the single step; no captures
    // are available ahead of the starting position
    assert_eq!(res, cells(&["e4", "e3"]));
}

#[test]
fn pawn_off_start_rank_has_no_double_step() {
    let mut board = Board::new_empty();
    put(&mut board, "e3", PieceType::Pawn, Color::White);
    let res = get_piece_moves(&board, cell("e3")).unwrap();
    assert_eq!(res, cells(&["e4"]));
}

#[test]
fn pawn_diagonal_captures() {
    let mut board = Board::new_empty();
    put(&mut board, "e4", PieceType::Pawn, Color::White);
    put(&mut board, "d5", PieceType::Pawn, Color::Black);
    put(&mut board, "f5", PieceType::Knight, Color::Black);
    let res = get_piece_moves(&board, cell("e4")).unwrap();
    assert_eq!(res, cells(&["e5", "d5", "f5"]));
}

#[test]
fn pawn_does_not_capture_own_color() {
    let mut board = Board::new_empty();
    put(&mut board, "e4", PieceType::Pawn, Color::White);
    put(&mut board, "d5", PieceType::Pawn, Color::White);
    let res = get_piece_moves(&board, cell("e4")).unwrap();
    assert_eq!(res, cells(&["e5"]));
}

#[test]
fn pawn_blocked_single_step() {
    let mut board = Board::new_empty();
    put(&mut board, "e2", PieceType::Pawn, Color::White);
    put(&mut board, "e3", PieceType::Rook, Color::Black);
    // the double step does not consult the square being jumped over:
    // the blocker on e3 leaves e4 available (preserved simplification)
    let res = get_piece_moves(&board, cell("e2")).unwrap();
    assert_eq!(res, cells(&["e4"]));
}

#[test]
fn pawn_blocked_double_step() {
    let mut board = Board::new_empty();
    put(&mut board, "e2", PieceType::Pawn, Color::White);
    put(&mut board, "e4", PieceType::Rook, Color::Black);
    // an occupied destination blocks the double step; the straight
    // march never captures
    let res = get_piece_moves(&board, cell("e2")).unwrap();
    assert_eq!(res, cells(&["e3"]));
}

#[test]
fn black_pawn_moves_are_rotated() {
    let board = Board::new();
    let res = get_piece_moves(&board, cell("e7")).unwrap();
    assert_eq!(res, cells(&["e5", "e6"]));

    let mut board = Board::new_empty();
    put(&mut board, "d5", PieceType::Pawn, Color::Black);
    put(&mut board, "c4", PieceType::Pawn, Color::White);
    put(&mut board, "e4", PieceType::Pawn, Color::White);
    let res = get_piece_moves(&board, cell("d5")).unwrap();
    assert_eq!(res, cells(&["d4", "e4", "c4"]));
}

#[test]
fn knight_moves_from_start() {
    let board = Board::new();
    let res = get_piece_moves(&board, cell("b1")).unwrap();
    assert_eq!(res, cells(&["a3", "c3"]));
}

#[test]
fn rook_moves_on_empty_board() {
    let mut board = Board::new_empty();
    put(&mut board, "d4", PieceType::Rook, Color::White);
    let res = get_piece_moves(&board, cell("d4")).unwrap();
    assert_eq!(
        res,
        cells(&[
            "c4", "b4", "a4", // left to the edge
            "d5", "d6", "d7", "d8", // up to the edge
            "e4", "f4", "g4", "h4", // right to the edge
            "d3", "d2", "d1", // down to the edge
        ])
    );
}

#[test]
fn rook_rays_stop_at_pieces() {
    let mut board = Board::new_empty();
    put(&mut board, "d4", PieceType::Rook, Color::White);
    put(&mut board, "d6", PieceType::Pawn, Color::Black);
    put(&mut board, "f4", PieceType::Bishop, Color::White);
    let res = get_piece_moves(&board, cell("d4")).unwrap();
    // the enemy on d6 is included and ends its ray; the friendly piece
    // on f4 is excluded and ends its ray one short
    assert_eq!(
        res,
        cells(&["c4", "b4", "a4", "d5", "d6", "e4", "d3", "d2", "d1"])
    );
}

#[test]
fn bishop_moves_on_empty_board() {
    let mut board = Board::new_empty();
    put(&mut board, "c4", PieceType::Bishop, Color::Black);
    let res = get_piece_moves(&board, cell("c4")).unwrap();
    assert_eq!(
        res,
        cells(&["b3", "a2", "b5", "a6", "d3", "e2", "f1", "d5", "e6", "f7", "g8"])
    );
}

#[test]
fn queen_moves_on_empty_board() {
    let mut board = Board::new_empty();
    put(&mut board, "d4", PieceType::Queen, Color::White);
    let res = get_piece_moves(&board, cell("d4")).unwrap();
    assert_eq!(
        res,
        cells(&[
            "c4", "b4", "a4", "d5", "d6", "d7", "d8", "e4", "f4", "g4", "h4", "d3", "d2", "d1",
            "c3", "b2", "a1", "c5", "b6", "a7", "e3", "f2", "g1", "e5", "f6", "g7", "h8",
        ])
    );
}

#[test]
fn king_moves_on_empty_board() {
    let mut board = Board::new_empty();
    put(&mut board, "e1", PieceType::King, Color::White);
    let res = get_piece_moves(&board, cell("e1")).unwrap();
    assert_eq!(res, cells(&["d1", "e2", "f1", "d2", "f2"]));
}

#[test]
fn king_boxed_in_at_start() {
    let board = Board::new();
    let res = get_piece_moves(&board, cell("e1")).unwrap();
    assert_eq!(res, cells(&[]));
}

#[test]
fn make_move_empty_square_fails() {
    let mut board = Board::new();
    let res = make_move(&mut board, cell("d4"), cell("d5"));
    assert_eq!(res, Err(MoveError::NoPiece));
    assert_eq!(board.whose_turn, Color::White);
    assert_eq!(*board.get_cell(cell("d5")), None);
}

#[test]
fn make_move_wrong_side_fails() {
    let mut board = Board::new();
    // White holds the turn; touching Black's pawn names White as the
    // side that is allowed to move
    let res = make_move(&mut board, cell("e7"), cell("e6"));
    assert_eq!(res, Err(MoveError::WrongColorTurn(Color::White)));
    assert_eq!(board.whose_turn, Color::White);
    assert_eq!(
        *board.get_cell(cell("e7")),
        Some(Piece {
            piece_type: PieceType::Pawn,
            color: Color::Black
        })
    );
}

#[test]
fn make_move_unreachable_fails() {
    let mut board = Board::new();
    let res = make_move(&mut board, cell("e2"), cell("e5"));
    assert_eq!(
        res,
        Err(MoveError::UnreachableMove {
            from: cell("e2"),
            to: cell("e5")
        })
    );
    assert_eq!(board.whose_turn, Color::White);
    assert_eq!(*board.get_cell(cell("e5")), None);
}

#[test]
fn make_move_updates_board_and_turn() {
    let mut board = Board::new();
    let res = make_move(&mut board, cell("e2"), cell("e4"));
    assert_eq!(res, Ok(()));
    assert_eq!(*board.get_cell(cell("e2")), None);
    assert_eq!(
        *board.get_cell(cell("e4")),
        Some(Piece {
            piece_type: PieceType::Pawn,
            color: Color::White
        })
    );
    assert_eq!(board.whose_turn, Color::Black);
    assert!(board.white_graveyard.is_empty());
    assert!(board.black_graveyard.is_empty());
}

#[test]
fn make_moves_captures_both_ways() {
    let mut board = Board::new();
    let res = make_moves(
        &mut board,
        vec![("e2", "e4"), ("d7", "d5"), ("e4", "d5"), ("d8", "d5")],
    );
    assert_eq!(res, Ok(()));

    // d5 now holds Black's queen; both pawns fell, each filed under
    // its own color in capture order
    assert_eq!(
        *board.get_cell(cell("d5")),
        Some(Piece {
            piece_type: PieceType::Queen,
            color: Color::Black
        })
    );
    assert_eq!(*board.get_cell(cell("d8")), None);
    assert_eq!(
        board.black_graveyard,
        vec![Piece {
            piece_type: PieceType::Pawn,
            color: Color::Black
        }]
    );
    assert_eq!(
        board.white_graveyard,
        vec![Piece {
            piece_type: PieceType::Pawn,
            color: Color::White
        }]
    );
    // four applied half-moves: the turn is back with White
    assert_eq!(board.whose_turn, Color::White);
}

#[test]
fn make_moves_stops_at_invalid_address() {
    let mut board = Board::new();
    let res = make_moves(&mut board, vec![("e2", "e4"), ("x9", "e5")]);
    assert!(matches!(res, Err(MoveError::InvalidAddress(_))));
    // the move before the failing one stands; no rollback
    assert_eq!(
        *board.get_cell(cell("e4")),
        Some(Piece {
            piece_type: PieceType::Pawn,
            color: Color::White
        })
    );
    assert_eq!(board.whose_turn, Color::Black);
}

#[test]
fn end_to_end_scenario() {
    let mut board = Board::new();
    let res = make_moves(
        &mut board,
        vec![
            ("e2", "e4"),
            ("c7", "c6"),
            ("b1", "c3"),
            ("d7", "d5"),
            ("e4", "d5"),
            ("d5", "c6"),
            ("c6", "c7"),
            ("c7", "d8"),
            ("e8", "d8"),
        ],
    );

    // the sixth request tries to march White's advanced pawn on
    // Black's turn, so the batch stops there: the turn rule names
    // Black as the side allowed to move, and the five applied
    // half-moves stand
    assert_eq!(res, Err(MoveError::WrongColorTurn(Color::Black)));

    assert_eq!(*board.get_cell(cell("e2")), None);
    assert_eq!(*board.get_cell(cell("e4")), None);
    assert_eq!(
        *board.get_cell(cell("d5")),
        Some(Piece {
            piece_type: PieceType::Pawn,
            color: Color::White
        })
    );
    assert_eq!(
        *board.get_cell(cell("c6")),
        Some(Piece {
            piece_type: PieceType::Pawn,
            color: Color::Black
        })
    );
    assert_eq!(
        *board.get_cell(cell("c3")),
        Some(Piece {
            piece_type: PieceType::Knight,
            color: Color::White
        })
    );
    assert_eq!(
        *board.get_cell(cell("d8")),
        Some(Piece {
            piece_type: PieceType::Queen,
            color: Color::Black
        })
    );
    assert_eq!(
        *board.get_cell(cell("e8")),
        Some(Piece {
            piece_type: PieceType::King,
            color: Color::Black
        })
    );

    // only the d5 pawn fell, filed under its own color
    assert!(board.white_graveyard.is_empty());
    assert_eq!(
        board.black_graveyard,
        vec![Piece {
            piece_type: PieceType::Pawn,
            color: Color::Black
        }]
    );

    // alternation: five applied half-moves from White's first leave
    // Black to move
    assert_eq!(board.whose_turn, Color::Black);
}
