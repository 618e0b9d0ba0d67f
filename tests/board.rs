use rust_chess::session::Session;
use rust_chess::wire::{Cell, MoveCommand};
use rust_chess::{Board, ChessError, Color, Piece, PieceType, Position, StepResultData};

fn pos(s: &str) -> Position {
    Position::parse(s).unwrap()
}

fn snapshot(board: &Board) -> Vec<Option<Piece>> {
    let mut cells = Vec::new();
    for r in 0..8i8 {
        for f in 0..8i8 {
            cells.push(*board.cell(&Position::at(f, r).unwrap()));
        }
    }
    cells
}

fn piece(kind: PieceType, color: Color, at: &str) -> Piece {
    Piece::new(kind, color, pos(at))
}

#[test]
fn initial_layout() {
    let board = Board::new();
    let a1 = board.cell(&pos("A1")).unwrap();
    assert_eq!(a1.piece_type, PieceType::Rook);
    assert_eq!(a1.color, Color::White);
    assert_eq!(board.cell(&pos("D1")).unwrap().piece_type, PieceType::King);
    assert_eq!(board.cell(&pos("E1")).unwrap().piece_type, PieceType::Queen);
    assert_eq!(board.cell(&pos("D8")).unwrap().piece_type, PieceType::King);
    assert_eq!(board.cell(&pos("D8")).unwrap().color, Color::Black);
    assert_eq!(board.cell(&pos("B8")).unwrap().piece_type, PieceType::Knight);
    assert_eq!(board.cell(&pos("C2")).unwrap().piece_type, PieceType::Pawn);
    assert_eq!(board.cell(&pos("C7")).unwrap().color, Color::Black);
    assert!(board.cell(&pos("E4")).is_none());
    assert_eq!(board.cell(&pos("G1")).unwrap().position, pos("G1"));
    assert!(!board.cell(&pos("G1")).unwrap().moved);
    let count = snapshot(&board).iter().filter(|c| c.is_some()).count();
    assert_eq!(count, 32);
    assert_eq!(board.is_in_check_state(), None);
}

#[test]
fn pawn_two_steps_only_once() {
    let mut board = Board::new();
    let r = board.move_piece(&pos("E2"), &pos("E4"), Color::White);
    assert!(matches!(r, Ok(StepResultData::Moved)));
    let r = board.move_piece(&pos("E4"), &pos("E6"), Color::White);
    assert!(matches!(r, Err(ChessError::InvalidMove(a, b)) if a == pos("E4") && b == pos("E6")));
    let r = board.move_piece(&pos("E4"), &pos("E5"), Color::White);
    assert!(matches!(r, Ok(StepResultData::Moved)));
}

#[test]
fn pawn_two_steps_blocked() {
    let mut board = Board::new();
    assert!(board.move_piece(&pos("B1"), &pos("C3"), Color::White).is_ok());
    let r = board.move_piece(&pos("C2"), &pos("C4"), Color::White);
    assert!(matches!(r, Err(ChessError::InvalidMove(_, _))));
    let r = board.move_piece(&pos("C2"), &pos("C3"), Color::White);
    assert!(matches!(r, Err(ChessError::InvalidMove(_, _))));
}

#[test]
fn pawn_diagonal_needs_capture() {
    let mut board = Board::new();
    let r = board.move_piece(&pos("E2"), &pos("D3"), Color::White);
    assert!(matches!(r, Err(ChessError::InvalidMove(_, _))));
    assert!(board.move_piece(&pos("E2"), &pos("E4"), Color::White).is_ok());
    assert!(board.move_piece(&pos("D7"), &pos("D5"), Color::Black).is_ok());
    let r = board.move_piece(&pos("E4"), &pos("D5"), Color::White);
    match r {
        Ok(StepResultData::Eaten(p)) => {
            assert_eq!(p.piece_type, PieceType::Pawn);
            assert_eq!(p.color, Color::Black);
            assert_eq!(p.position, pos("D5"));
        }
        _ => panic!("expected a capture"),
    }
    assert_eq!(board.cell(&pos("D5")).unwrap().color, Color::White);
}

#[test]
fn pawns_move_one_way() {
    let mut board = Board::new();
    assert!(board.move_piece(&pos("E2"), &pos("E3"), Color::White).is_ok());
    let r = board.move_piece(&pos("E3"), &pos("E2"), Color::White);
    assert!(matches!(r, Err(ChessError::InvalidMove(_, _))));
    assert!(board.move_piece(&pos("E7"), &pos("E5"), Color::Black).is_ok());
    let r = board.move_piece(&pos("E5"), &pos("E6"), Color::Black);
    assert!(matches!(r, Err(ChessError::InvalidMove(_, _))));
}

#[test]
fn knight_jumps() {
    let mut board = Board::new();
    let r = board.move_piece(&pos("B1"), &pos("C3"), Color::White);
    assert!(matches!(r, Ok(StepResultData::Moved)));
    let mut board = Board::new();
    let r = board.move_piece(&pos("B1"), &pos("B3"), Color::White);
    assert!(matches!(r, Err(ChessError::InvalidMove(_, _))));
    let r = board.move_piece(&pos("B1"), &pos("D2"), Color::White);
    assert!(matches!(r, Err(ChessError::InvalidMove(_, _))));
}

#[test]
fn errors_for_empty_and_wrong_color() {
    let mut board = Board::new();
    let r = board.move_piece(&pos("E4"), &pos("E5"), Color::White);
    assert!(matches!(r, Err(ChessError::EmptyCell(p)) if p == pos("E4")));
    let r = board.move_piece(&pos("E7"), &pos("E5"), Color::White);
    assert!(matches!(r, Err(ChessError::WrongColor(p)) if p == pos("E7")));
}

#[test]
fn failed_move_changes_nothing() {
    let mut board = Board::new();
    let before = snapshot(&board);
    assert!(board.move_piece(&pos("A1"), &pos("A3"), Color::White).is_err());
    assert!(board.move_piece(&pos("A3"), &pos("A4"), Color::White).is_err());
    assert!(board.move_piece(&pos("A7"), &pos("A6"), Color::White).is_err());
    assert!(board.move_piece(&pos("D1"), &pos("D2"), Color::White).is_err());
    assert_eq!(snapshot(&board), before);
}

#[test]
fn moved_piece_stands_on_destination() {
    let mut board = Board::new();
    assert!(board.move_piece(&pos("G1"), &pos("F3"), Color::White).is_ok());
    let p = board.cell(&pos("F3")).unwrap();
    assert_eq!(p.position, pos("F3"));
    assert_eq!(p.piece_type, PieceType::Knight);
    assert!(p.moved);
    assert!(board.cell(&pos("G1")).is_none());
}

#[test]
fn rook_cannot_pass_a_piece() {
    let mut board = Board::empty();
    board.place(piece(PieceType::Rook, Color::White, "A1"));
    board.place(piece(PieceType::Pawn, Color::Black, "A4"));
    board.place(piece(PieceType::Pawn, Color::Black, "A8"));
    let r = board.move_piece(&pos("A1"), &pos("A8"), Color::White);
    assert!(matches!(r, Err(ChessError::InvalidMove(_, _))));
    let r = board.move_piece(&pos("A1"), &pos("A6"), Color::White);
    assert!(matches!(r, Err(ChessError::InvalidMove(_, _))));
    let r = board.move_piece(&pos("A1"), &pos("A4"), Color::White);
    assert!(matches!(r, Ok(StepResultData::Eaten(_))));
}

#[test]
fn bishop_and_queen_paths() {
    let mut board = Board::new();
    let r = board.move_piece(&pos("C1"), &pos("E3"), Color::White);
    assert!(matches!(r, Err(ChessError::InvalidMove(_, _))));
    assert!(board.move_piece(&pos("D2"), &pos("D3"), Color::White).is_ok());
    assert!(board.move_piece(&pos("C1"), &pos("F4"), Color::White).is_ok());
    let r = board.move_piece(&pos("F4"), &pos("F5"), Color::White);
    assert!(matches!(r, Err(ChessError::InvalidMove(_, _))));
    let r = board.move_piece(&pos("E1"), &pos("E3"), Color::White);
    assert!(matches!(r, Err(ChessError::InvalidMove(_, _))));
    assert!(board.move_piece(&pos("E2"), &pos("E3"), Color::White).is_ok());
    assert!(board.move_piece(&pos("E1"), &pos("A5"), Color::White).is_ok());
}

#[test]
fn king_steps_once() {
    let mut board = Board::new();
    assert!(board.move_piece(&pos("D2"), &pos("D4"), Color::White).is_ok());
    let r = board.move_piece(&pos("D1"), &pos("D3"), Color::White);
    assert!(matches!(r, Err(ChessError::InvalidMove(_, _))));
    assert!(board.move_piece(&pos("D1"), &pos("D2"), Color::White).is_ok());
    let r = board.move_piece(&pos("D2"), &pos("D2"), Color::White);
    assert!(matches!(r, Err(ChessError::InvalidMove(_, _))));
}

#[test]
fn rook_on_open_file_gives_check() {
    let mut board = Board::empty();
    board.place(piece(PieceType::King, Color::White, "E1"));
    board.place(piece(PieceType::Rook, Color::Black, "E8"));
    board.place(piece(PieceType::Pawn, Color::White, "A2"));
    assert!(board.move_piece(&pos("A2"), &pos("A3"), Color::White).is_ok());
    assert_eq!(board.is_in_check_state(), Some(Color::White));
}

#[test]
fn move_reports_check_over_capture() {
    let mut board = Board::empty();
    board.place(piece(PieceType::King, Color::White, "E1"));
    board.place(piece(PieceType::Rook, Color::Black, "A8"));
    board.place(piece(PieceType::Knight, Color::White, "E8"));
    let r = board.move_piece(&pos("A8"), &pos("E8"), Color::Black);
    assert!(matches!(r, Ok(StepResultData::Check(Color::Black))));
    assert_eq!(board.is_in_check_state(), Some(Color::White));
}

#[test]
fn blocked_rook_gives_no_check() {
    let mut board = Board::empty();
    board.place(piece(PieceType::King, Color::White, "E1"));
    board.place(piece(PieceType::Rook, Color::Black, "A5"));
    board.place(piece(PieceType::Pawn, Color::White, "E2"));
    let r = board.move_piece(&pos("A5"), &pos("E5"), Color::Black);
    assert!(matches!(r, Ok(StepResultData::Moved)));
    assert_eq!(board.is_in_check_state(), None);
}

#[test]
fn sliders_see_to_every_edge() {
    let cases = [
        ("A1", "A8", PieceType::Rook),
        ("A8", "H8", PieceType::Rook),
        ("H8", "H1", PieceType::Rook),
        ("H1", "A1", PieceType::Rook),
        ("A1", "H8", PieceType::Bishop),
        ("H8", "A1", PieceType::Bishop),
        ("A8", "H1", PieceType::Bishop),
        ("H1", "A8", PieceType::Bishop),
        ("D4", "D8", PieceType::Queen),
        ("D4", "A7", PieceType::Queen),
    ];
    for (from, king, kind) in cases {
        let mut board = Board::empty();
        board.place(piece(kind, Color::White, from));
        board.place(piece(PieceType::King, Color::Black, king));
        assert_eq!(board.is_in_check_state(), Some(Color::Black), "{} {}", from, king);
    }
    for from in ["A1", "A8", "H1", "H8", "A4", "H5", "D1", "E8"] {
        let mut board = Board::empty();
        board.place(piece(PieceType::Queen, Color::White, from));
        assert_eq!(board.is_in_check_state(), None);
    }
}

#[test]
fn knight_and_pawn_checks() {
    let mut board = Board::empty();
    board.place(piece(PieceType::Knight, Color::Black, "C3"));
    board.place(piece(PieceType::King, Color::White, "D1"));
    assert_eq!(board.is_in_check_state(), Some(Color::White));

    let mut board = Board::empty();
    board.place(piece(PieceType::Pawn, Color::White, "E4"));
    board.place(piece(PieceType::King, Color::Black, "E5"));
    assert_eq!(board.is_in_check_state(), None);
    board.place(piece(PieceType::King, Color::Black, "F5"));
    assert_eq!(board.is_in_check_state(), Some(Color::Black));

    let mut board = Board::empty();
    board.place(piece(PieceType::Pawn, Color::Black, "E4"));
    board.place(piece(PieceType::King, Color::White, "F5"));
    assert_eq!(board.is_in_check_state(), None);
    board.place(piece(PieceType::King, Color::White, "D3"));
    assert_eq!(board.is_in_check_state(), Some(Color::White));
}

#[test]
fn kings_do_not_give_check() {
    let mut board = Board::empty();
    board.place(piece(PieceType::King, Color::White, "E4"));
    board.place(piece(PieceType::King, Color::Black, "E5"));
    assert_eq!(board.is_in_check_state(), None);
}

#[test]
fn icons() {
    let board = Board::new();
    assert_eq!(board.piece_icon(0, 0), '\u{2656}');
    assert_eq!(board.piece_icon(7, 3), '\u{265A}');
    assert_eq!(board.piece_icon(4, 4), ' ');
    assert_eq!(piece(PieceType::Pawn, Color::White, "A2").icon(), '\u{2659}');
    assert_eq!(piece(PieceType::Queen, Color::Black, "A2").icon(), '\u{265B}');
}

#[test]
fn mark_as_moved_sets_flag() {
    let mut p = piece(PieceType::Bishop, Color::White, "C1");
    assert!(!p.moved);
    p.mark_as_moved();
    assert!(p.moved);
    assert_eq!(p.position, pos("C1"));
}

#[test]
fn color_not() {
    assert_eq!(!Color::White, Color::Black);
    assert_eq!(!Color::Black, Color::White);
}

#[test]
fn session_turns() {
    let mut s = Session::new(Color::White);
    assert!(s.is_my_turn());
    assert!(matches!(s.play_local("E7-E5"), Err(ChessError::WrongColor(_))));
    assert_eq!(s.current_color, Color::White);
    let cmd = s.play_local("E2-E4").unwrap();
    assert_eq!(cmd.from.name, "E2");
    assert_eq!(cmd.to.name, "E4");
    assert_eq!(s.current_color, Color::Black);
    assert!(!s.is_my_turn());
    let remote = MoveCommand { from: Cell { name: "D7".to_string() }, to: Cell { name: "D5".to_string() } };
    assert!(matches!(s.play_remote(&remote), Ok(StepResultData::Moved)));
    assert_eq!(s.current_color, Color::White);
    let remote = MoveCommand { from: Cell { name: "D5".to_string() }, to: Cell { name: "D4".to_string() } };
    assert!(matches!(s.play_remote(&remote), Err(ChessError::WrongColor(_))));
    assert_eq!(s.current_color, Color::White);
    assert!(matches!(s.play_local("E4-D5"), Ok(_)));
    assert_eq!(s.board.cell(&pos("D5")).unwrap().color, Color::White);
}
