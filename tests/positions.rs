use rust_chess::command::{parse_command, parse_other_player_command};
use rust_chess::wire::{frame, split_frame, Cell, MoveCommand};
use rust_chess::{ChessError, Horizontal, Position, Vertical};

#[test]
fn name_round_trip_all_squares() {
    for f in 0..8i8 {
        for r in 0..8i8 {
            let p = Position::at(f, r).unwrap();
            let name = p.to_name();
            assert_eq!(name.len(), 2);
            assert_eq!(Position::parse(&name).unwrap(), p);
        }
    }
}

#[test]
fn names() {
    assert_eq!(Position::at(4, 1).unwrap().to_name(), "E2");
    assert_eq!(Position::at(0, 0).unwrap().to_name(), "A1");
    assert_eq!(Position::at(7, 7).unwrap().to_name(), "H8");
    let p = Position::parse("e4").unwrap();
    assert_eq!(p, Position { hor: Horizontal::HorE, vert: Vertical::Vert4 });
    let q: Position = "C7".parse().unwrap();
    assert_eq!(q, Position { hor: Horizontal::HorC, vert: Vertical::Vert7 });
}

#[test]
fn parse_rejects_bad_names() {
    for s in ["", "A", "A11", "E2 ", "I1", "A9", "A0", "1A", "é1", "a", "Z8"] {
        match Position::parse(s) {
            Err(ChessError::InvalidPosition(t)) => assert_eq!(t, s),
            _ => panic!("{} should be rejected", s),
        }
    }
}

#[test]
fn at_and_transform() {
    assert!(Position::at(-1, 0).is_none());
    assert!(Position::at(0, 8).is_none());
    let e2 = Position::at(4, 1).unwrap();
    assert_eq!(e2.transform(0, 2), Position::at(4, 3));
    assert_eq!(e2.transform(-4, -1), Position::at(0, 0));
    assert!(e2.transform(4, 0).is_none());
    assert!(e2.transform(0, -2).is_none());
    assert!(e2.transform(127, 127).is_none());
    assert!(e2.transform(-128, -128).is_none());
    assert_eq!(e2.cell_index(), 12);
}

#[test]
fn difference_of_squares() {
    let b1 = Position::parse("B1").unwrap();
    let c3 = Position::parse("C3").unwrap();
    assert_eq!(c3.difference(&b1), (1, 2));
    assert_eq!(b1.difference(&c3), (-1, -2));
}

#[test]
fn commands() {
    let (from, to) = parse_command("E2-E4").unwrap();
    assert_eq!(from.to_name(), "E2");
    assert_eq!(to.to_name(), "E4");
    let (from, to) = parse_command("g8 f6").unwrap();
    assert_eq!(from.to_name(), "G8");
    assert_eq!(to.to_name(), "F6");
    for s in ["E2E4", "E2+E4", "E2-E44", "", "E2--E4"] {
        match parse_command(s) {
            Err(ChessError::InvalidInput(t)) => assert_eq!(t, s),
            _ => panic!("{} should be rejected", s),
        }
    }
    match parse_command("Z2-E4") {
        Err(ChessError::InvalidPosition(t)) => assert_eq!(t, "Z2"),
        _ => panic!(),
    }
    match parse_command("E2-E9") {
        Err(ChessError::InvalidPosition(t)) => assert_eq!(t, "E9"),
        _ => panic!(),
    }
}

#[test]
fn wire_commands() {
    let cmd = MoveCommand {
        from: Cell { name: "E7".to_string() },
        to: Cell { name: "E5".to_string() },
    };
    let (from, to) = parse_other_player_command(&cmd).unwrap();
    assert_eq!(from.to_name(), "E7");
    assert_eq!(to.to_name(), "E5");
    assert_eq!(Position::from_proto(&cmd.to), Some(to));
    let bad = MoveCommand { from: Cell { name: "E7".to_string() }, to: Cell::default() };
    match parse_other_player_command(&bad) {
        Err(ChessError::InvalidInput(t)) => assert_eq!(t, "Unreadable"),
        _ => panic!(),
    }
}

#[test]
fn frames() {
    let payload: Vec<u8> = (0..300u32).map(|i| (i % 251) as u8).collect();
    let mut framed = frame(&payload).unwrap();
    assert_eq!(framed.len(), 302);
    assert_eq!(framed[0], 1);
    assert_eq!(framed[1], 44);
    assert!(split_frame(&framed[..301].to_vec()).is_none());
    framed.extend_from_slice(&[9, 9, 9]);
    let (m, used) = split_frame(&framed).unwrap();
    assert_eq!(m, payload);
    assert_eq!(used, 302);
    assert!(split_frame(&vec![0]).is_none());
    assert_eq!(split_frame(&vec![0, 0]), Some((vec![], 2)));
    assert!(frame(&vec![0u8; 65536]).is_none());
    assert_eq!(frame(&vec![7u8; 65535]).unwrap().len(), 65537);
}
