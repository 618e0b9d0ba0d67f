use vstd::prelude::*;
use vstd::string::StrSliceExecFns;
use crate::common::ChessError::InvalidInput;
use crate::common::ChessResult;
use crate::positions::{is_name, Position};
use crate::wire::MoveCommand;

verus! {

/// A typed move: two squares in algebraic notation with a space or a hyphen
/// between them.
pub open spec fn is_command_shape(s: Seq<char>) -> bool {
    s.len() == 5 && (s[2] == ' ' || s[2] == '-')
}

/// Reads a typed move such as `E2-E4` into the square it starts from and the
/// square it ends on.
pub fn parse_command(command: &str) -> (r: ChessResult<(Position, Position)>)
    ensures
        !is_command_shape(command@) ==> (r matches Err(InvalidInput(t)) && t@ == command@),
        is_command_shape(command@) && !is_name(command@.subrange(0, 2)) ==> (r matches Err(
            crate::common::ChessError::InvalidPosition(t),
        ) && t@ == command@.subrange(0, 2)),
        is_command_shape(command@) && is_name(command@.subrange(0, 2)) && !is_name(
            command@.subrange(3, 5),
        ) ==> (r matches Err(crate::common::ChessError::InvalidPosition(t)) && t@ == command@.subrange(
            3,
            5,
        )),
        r is Ok <==> is_command_shape(command@) && is_name(command@.subrange(0, 2)) && is_name(
            command@.subrange(3, 5),
        ),
        r matches Ok((from, to)) ==> from == Position::named(command@.subrange(0, 2)) && to
            == Position::named(command@.subrange(3, 5)),
{
    if command.unicode_len() != 5 {
        return Err(InvalidInput(command.to_owned()));
    }
    let middle = command.get_char(2);
    if middle != ' ' && middle != '-' {
        return Err(InvalidInput(command.to_owned()));
    }
    let from = Position::parse(command.substring_char(0, 2))?;
    let to = Position::parse(command.substring_char(3, 5))?;
    Ok((from, to))
}

/// Reads a move that came over the wire.
pub fn parse_other_player_command(command: &MoveCommand) -> (r: ChessResult<(Position, Position)>)
    ensures
        r is Ok <==> is_name(command.from.name@) && is_name(command.to.name@),
        r matches Ok((from, to)) ==> from == Position::named(command.from.name@) && to
            == Position::named(command.to.name@),
        r matches Err(e) ==> (e matches InvalidInput(t) && t@ == "Unreadable"@),
{
    proof {
        reveal_strlit("Unreadable");
    }
    let from = match Position::from_proto(&command.from) {
        Some(p) => p,
        None => {
            return Err(InvalidInput(String::from_str("Unreadable")));
        },
    };
    let to = match Position::from_proto(&command.to) {
        Some(p) => p,
        None => {
            return Err(InvalidInput(String::from_str("Unreadable")));
        },
    };
    Ok((from, to))
}

} // verus!
