use vstd::prelude::*;
use crate::board::{board_after, move_allowed, outcome, Board};
use crate::command::{is_command_shape, parse_command, parse_other_player_command};
use crate::common::{ChessResult, Color, StepResultData};
use crate::positions::{is_name, Position};
use crate::wire::{Cell, MoveCommand};

verus! {

/// The squares of a typed move of the right shape.
pub open spec fn command_squares(s: Seq<char>) -> (Position, Position) {
    (Position::named(s.subrange(0, 2)), Position::named(s.subrange(3, 5)))
}

/// One game as seen from one side: the board, the side this player has, and
/// the side whose turn it is.
pub struct Session {
    pub board: Board,
    pub my_color: Color,
    pub current_color: Color,
}

impl Session {
    /// A new game; white moves first.
    pub fn new(my_color: Color) -> (r: Session)
        ensures
            r.board.wf(),
            r.my_color == my_color,
            r.current_color == Color::White,
            forall|p: Position| r.board@[#[trigger] p.index()] == crate::board::initial_piece(p),
    {
        Session { board: Board::new(), my_color, current_color: Color::White }
    }

    pub fn is_my_turn(&self) -> (r: bool)
        ensures
            r == (self.current_color == self.my_color),
    {
        self.current_color == self.my_color
    }

    /// Plays a move typed by this player and gives the message to send to the
    /// other one. The turn passes only when the move was made.
    pub fn play_local(&mut self, command: &str) -> (r: ChessResult<MoveCommand>)
        requires
            old(self).board.wf(),
        ensures
            final(self).board.wf(),
            final(self).my_color == old(self).my_color,
            r is Err ==> final(self).board@ == old(self).board@ && final(self).current_color == old(
                self,
            ).current_color,
            r is Ok <==> is_command_shape(command@) && is_name(command@.subrange(0, 2)) && is_name(
                command@.subrange(3, 5),
            ) && move_allowed(
                old(self).board@,
                command_squares(command@).0,
                command_squares(command@).1,
                old(self).current_color,
            ),
            r matches Ok(m) ==> {
                let (from, to) = command_squares(command@);
                &&& m.from.name@ == from.name()
                &&& m.to.name@ == to.name()
                &&& final(self).current_color == old(self).current_color.opposite()
                &&& old(self).board@[from.index()] matches Some(piece) && final(self).board@
                    == board_after(old(self).board@, piece, from, to)
            },
    {
        let (from, to) = parse_command(command)?;
        self.board.move_piece(&from, &to, self.current_color)?;
        self.current_color = std::ops::Not::not(self.current_color);
        Ok(MoveCommand { from: Cell { name: from.to_name() }, to: Cell { name: to.to_name() } })
    }

    /// Plays a move that came from the other player. The turn passes only when
    /// the move was made.
    pub fn play_remote(&mut self, command: &MoveCommand) -> (r: ChessResult<StepResultData>)
        requires
            old(self).board.wf(),
        ensures
            final(self).board.wf(),
            final(self).my_color == old(self).my_color,
            r is Err ==> final(self).board@ == old(self).board@ && final(self).current_color == old(
                self,
            ).current_color,
            r is Ok <==> is_name(command.from.name@) && is_name(command.to.name@) && move_allowed(
                old(self).board@,
                Position::named(command.from.name@),
                Position::named(command.to.name@),
                old(self).current_color,
            ),
            r matches Ok(out) ==> {
                let from = Position::named(command.from.name@);
                let to = Position::named(command.to.name@);
                &&& final(self).current_color == old(self).current_color.opposite()
                &&& old(self).board@[from.index()] matches Some(piece) && final(self).board@
                    == board_after(old(self).board@, piece, from, to) && out == outcome(
                    old(self).board@,
                    piece,
                    from,
                    to,
                )
            },
    {
        let (from, to) = parse_other_player_command(command)?;
        let out = self.board.move_piece(&from, &to, self.current_color)?;
        self.current_color = std::ops::Not::not(self.current_color);
        Ok(out)
    }
}

} // verus!
