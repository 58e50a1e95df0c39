//! The catalog of piece shapes, the weighted choice among them and their rotation.

use crate::rand::random_range;
use nanorand::Pcg64;
use vstd::prelude::*;

verus! {

/// A piece as a 2x2 mask: which cells of its bounding box it occupies.
#[derive(Clone, Copy, PartialEq, Eq, Debug, Structural)]
pub struct PieceShape {
    pub top_left: bool,
    pub top_right: bool,
    pub bottom_left: bool,
    pub bottom_right: bool,
}

/// The five shapes of the catalog, by name.
#[derive(Clone, Copy, PartialEq, Eq, Debug, Structural)]
pub enum Tetromino {
    /// The left column.
    Straight,
    /// All four cells.
    Square,
    /// The left column and the bottom right cell.
    L,
    /// The top right and the bottom left cell.
    S,
    /// The top row and the bottom right cell.
    T,
}

impl PieceShape {
    /// The mask with no cell set, which stands for "no piece".
    pub open spec fn spec_none() -> PieceShape {
        PieceShape { top_left: false, top_right: false, bottom_left: false, bottom_right: false }
    }

    /// The mask with no cell set, which stands for "no piece".
    #[verifier::when_used_as_spec(spec_none)]
    pub fn none() -> (shape: PieceShape)
        ensures
            shape == Self::spec_none(),
    {
        PieceShape { top_left: false, top_right: false, bottom_left: false, bottom_right: false }
    }

    /// True when no cell of the mask is set.
    pub open spec fn spec_is_none(&self) -> bool {
        !self.top_left && !self.top_right && !self.bottom_left && !self.bottom_right
    }

    /// True when no cell of the mask is set.
    #[verifier::when_used_as_spec(spec_is_none)]
    pub fn is_none(&self) -> (none: bool)
        ensures
            none == self.spec_is_none(),
            none == (*self == Self::spec_none()),
    {
        !self.top_left && !self.top_right && !self.bottom_left && !self.bottom_right
    }

    /// True when the mask is one of the five catalog shapes as the catalog holds them.
    pub open spec fn in_catalog(&self) -> bool {
        exists|kind: Tetromino| *self == #[trigger] kind.shape()
    }
}

impl Tetromino {
    /// The mask of a catalog shape.
    pub open spec fn spec_shape(self) -> PieceShape {
        match self {
            Tetromino::Straight => PieceShape {
                top_left: true,
                top_right: false,
                bottom_left: true,
                bottom_right: false,
            },
            Tetromino::Square => PieceShape {
                top_left: true,
                top_right: true,
                bottom_left: true,
                bottom_right: true,
            },
            Tetromino::L => PieceShape {
                top_left: true,
                top_right: false,
                bottom_left: true,
                bottom_right: true,
            },
            Tetromino::S => PieceShape {
                top_left: false,
                top_right: true,
                bottom_left: true,
                bottom_right: false,
            },
            Tetromino::T => PieceShape {
                top_left: true,
                top_right: true,
                bottom_left: false,
                bottom_right: true,
            },
        }
    }

    /// The mask of a catalog shape.
    #[verifier::when_used_as_spec(spec_shape)]
    pub fn shape(self) -> (shape: PieceShape)
        ensures
            shape == self.spec_shape(),
            !shape.spec_is_none(),
    {
        match self {
            Tetromino::Straight => PieceShape {
                top_left: true,
                top_right: false,
                bottom_left: true,
                bottom_right: false,
            },
            Tetromino::Square => PieceShape {
                top_left: true,
                top_right: true,
                bottom_left: true,
                bottom_right: true,
            },
            Tetromino::L => PieceShape {
                top_left: true,
                top_right: false,
                bottom_left: true,
                bottom_right: true,
            },
            Tetromino::S => PieceShape {
                top_left: false,
                top_right: true,
                bottom_left: true,
                bottom_right: false,
            },
            Tetromino::T => PieceShape {
                top_left: true,
                top_right: true,
                bottom_left: false,
                bottom_right: true,
            },
        }
    }
}

/// The shape that a draw selects. Of the ten draws below 10, one selects the straight
/// piece, one the square, three L, two S and three T; any other draw selects T.
pub open spec fn spec_tetromino_for_draw(draw: u8) -> Tetromino {
    if draw == 0 || draw == 5 || draw == 8 {
        Tetromino::L
    } else if draw == 1 || draw == 6 {
        Tetromino::S
    } else if draw == 3 {
        Tetromino::Square
    } else if draw == 4 {
        Tetromino::Straight
    } else {
        Tetromino::T
    }
}

/// Maps a draw to a catalog shape by the weighted table.
#[verifier::when_used_as_spec(spec_tetromino_for_draw)]
pub fn tetromino_for_draw(draw: u8) -> (kind: Tetromino)
    ensures
        kind == spec_tetromino_for_draw(draw),
{
    match draw {
        0 => Tetromino::L,
        1 => Tetromino::S,
        2 => Tetromino::T,
        3 => Tetromino::Square,
        4 => Tetromino::Straight,
        5 => Tetromino::L,
        6 => Tetromino::S,
        7 => Tetromino::T,
        8 => Tetromino::L,
        _ => Tetromino::T,
    }
}

/// Gets a random catalog shape: a number below 10 is drawn from the generator and
/// looked up in the weighted table.
pub fn get_random_tetromino(rng: &mut Pcg64) -> (shape: PieceShape)
    ensures
        shape.in_catalog(),
        exists|draw: u8| draw < 10 && shape == (#[trigger] tetromino_for_draw(draw)).shape(),
{
    let draw = random_range(rng, 0, 10);
    tetromino_for_draw(draw).shape()
}

/// How many of the draws below `bound` select `kind`.
pub open spec fn draws_selecting(kind: Tetromino, bound: nat) -> nat
    decreases bound,
{
    if bound == 0 {
        0
    } else {
        let rest = draws_selecting(kind, (bound - 1) as nat);
        if spec_tetromino_for_draw((bound - 1) as u8) == kind {
            rest + 1
        } else {
            rest
        }
    }
}

/// The weights of the table: out of the ten draws below 10, the straight piece and the
/// square are selected by one each, S by two, L and T by three each.
pub proof fn table_weights()
    ensures
        draws_selecting(Tetromino::Straight, 10) == 1,
        draws_selecting(Tetromino::Square, 10) == 1,
        draws_selecting(Tetromino::L, 10) == 3,
        draws_selecting(Tetromino::S, 10) == 2,
        draws_selecting(Tetromino::T, 10) == 3,
{
    reveal_with_fuel(draws_selecting, 11);
}

/// Turns a mask by a quarter turn, clockwise.
pub open spec fn spec_rotate_clockwise(tetromino: PieceShape) -> PieceShape {
    PieceShape {
        top_left: tetromino.bottom_left,
        top_right: tetromino.top_left,
        bottom_left: tetromino.bottom_right,
        bottom_right: tetromino.top_right,
    }
}

/// Rotates a shape clockwise by 90 degrees. The catalog is not touched: the result is a
/// new mask.
#[verifier::when_used_as_spec(spec_rotate_clockwise)]
pub fn rotate_clockwise(tetromino: PieceShape) -> (rotated: PieceShape)
    ensures
        rotated == spec_rotate_clockwise(tetromino),
{
    PieceShape {
        top_left: tetromino.bottom_left,
        top_right: tetromino.top_left,
        bottom_left: tetromino.bottom_right,
        bottom_right: tetromino.top_right,
    }
}

/// Four quarter turns give the shape back.
pub proof fn rotate_clockwise_period_four(shape: PieceShape)
    ensures
        rotate_clockwise(rotate_clockwise(rotate_clockwise(rotate_clockwise(shape)))) == shape,
{
}

/// A quarter turn keeps the number of cells, so it never makes a piece out of none, nor
/// none out of a piece.
pub proof fn rotate_clockwise_keeps_none(shape: PieceShape)
    ensures
        rotate_clockwise(shape).is_none() == shape.is_none(),
{
}

} // verus!
