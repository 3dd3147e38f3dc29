//! The rover's state and its pure state transitions.
use vstd::prelude::*;

verus! {

/// A cell of the grid.
#[derive(Debug, PartialEq, Eq, Structural, Clone, Copy)]
pub struct Position {
    pub x: i32,
    pub y: i32,
}

/// One of the four compass headings.
#[derive(Debug, PartialEq, Eq, Structural, Clone, Copy)]
pub enum Orientation {
    North,
    East,
    South,
    West,
}

/// A rover: where it stands and where it faces.
#[derive(Debug, PartialEq, Eq, Structural, Clone, Copy)]
pub struct Rover {
    pub position: Position,
    pub orientation: Orientation,
}

impl Orientation {
    /// The heading one quarter turn clockwise: North, East, South, West, North.
    pub open spec fn spec_right(self) -> Orientation {
        match self {
            Orientation::North => Orientation::East,
            Orientation::East => Orientation::South,
            Orientation::South => Orientation::West,
            Orientation::West => Orientation::North,
        }
    }

    /// The heading one quarter turn counter-clockwise.
    pub open spec fn spec_left(self) -> Orientation {
        match self {
            Orientation::North => Orientation::West,
            Orientation::West => Orientation::South,
            Orientation::South => Orientation::East,
            Orientation::East => Orientation::North,
        }
    }

    /// Change of x for one step ahead.
    pub open spec fn dx(self) -> int {
        match self {
            Orientation::East => 1,
            Orientation::West => -1,
            _ => 0,
        }
    }

    /// Change of y for one step ahead.
    pub open spec fn dy(self) -> int {
        match self {
            Orientation::North => 1,
            Orientation::South => -1,
            _ => 0,
        }
    }

    pub fn right(&self) -> (r: Orientation)
        ensures
            r == self.spec_right(),
    {
        match self {
            Orientation::North => Orientation::East,
            Orientation::East => Orientation::South,
            Orientation::South => Orientation::West,
            Orientation::West => Orientation::North,
        }
    }

    pub fn left(&self) -> (r: Orientation)
        ensures
            r == self.spec_left(),
    {
        match self {
            Orientation::North => Orientation::West,
            Orientation::West => Orientation::South,
            Orientation::South => Orientation::East,
            Orientation::East => Orientation::North,
        }
    }
}

/// Whether an integer fits in an `i32` coordinate.
pub open spec fn fits_i32(v: int) -> bool {
    i32::MIN <= v <= i32::MAX
}

impl Rover {
    /// The rover displaced by (dx, dy), heading unchanged.
    pub open spec fn shifted(self, dx: int, dy: int) -> Rover {
        Rover {
            position: Position {
                x: (self.position.x + dx) as i32,
                y: (self.position.y + dy) as i32,
            },
            orientation: self.orientation,
        }
    }

    /// The displacement by (dx, dy) stays within `i32` coordinates.
    pub open spec fn can_shift(self, dx: int, dy: int) -> bool {
        fits_i32(self.position.x + dx) && fits_i32(self.position.y + dy)
    }

    pub open spec fn can_move_forward(self) -> bool {
        self.can_shift(self.orientation.dx(), self.orientation.dy())
    }

    pub open spec fn can_move_backward(self) -> bool {
        self.can_shift(-self.orientation.dx(), -self.orientation.dy())
    }

    /// One step ahead along the heading.
    pub open spec fn forward(self) -> Rover {
        self.shifted(self.orientation.dx(), self.orientation.dy())
    }

    /// One step back, against the heading.
    pub open spec fn backward(self) -> Rover {
        self.shifted(-self.orientation.dx(), -self.orientation.dy())
    }

    pub open spec fn turned_right(self) -> Rover {
        Rover { position: self.position, orientation: self.orientation.spec_right() }
    }

    pub open spec fn turned_left(self) -> Rover {
        Rover { position: self.position, orientation: self.orientation.spec_left() }
    }

    /// A rover at the origin facing `orientation`.
    pub fn new(orientation: Orientation) -> (r: Rover)
        ensures
            r.position == (Position { x: 0, y: 0 }),
            r.orientation == orientation,
    {
        Rover { position: Position { x: 0, y: 0 }, orientation: orientation }
    }

    pub fn move_forward(&self) -> (r: Rover)
        requires
            self.can_move_forward(),
        ensures
            r == self.forward(),
            r.position.x == self.position.x + self.orientation.dx(),
            r.position.y == self.position.y + self.orientation.dy(),
            r.orientation == self.orientation,
    {
        let new_position = match self.orientation {
            Orientation::North => Position { x: self.position.x, y: self.position.y + 1 },
            Orientation::South => Position { x: self.position.x, y: self.position.y - 1 },
            Orientation::West => Position { x: self.position.x - 1, y: self.position.y },
            Orientation::East => Position { x: self.position.x + 1, y: self.position.y },
        };
        Rover { position: new_position, orientation: self.orientation }
    }

    pub fn move_backward(&self) -> (r: Rover)
        requires
            self.can_move_backward(),
        ensures
            r == self.backward(),
            r.position.x == self.position.x - self.orientation.dx(),
            r.position.y == self.position.y - self.orientation.dy(),
            r.orientation == self.orientation,
    {
        let new_position = match self.orientation {
            Orientation::North => Position { x: self.position.x, y: self.position.y - 1 },
            Orientation::South => Position { x: self.position.x, y: self.position.y + 1 },
            Orientation::West => Position { x: self.position.x + 1, y: self.position.y },
            Orientation::East => Position { x: self.position.x - 1, y: self.position.y },
        };
        Rover { position: new_position, orientation: self.orientation }
    }

    pub fn turn_right(&self) -> (r: Rover)
        ensures
            r == self.turned_right(),
    {
        Rover { position: self.position, orientation: self.orientation.right() }
    }

    pub fn turn_left(&self) -> (r: Rover)
        ensures
            r == self.turned_left(),
    {
        Rover { position: self.position, orientation: self.orientation.left() }
    }
}

/// Turning right then left, or left then right, gives back the same rover; so do four
/// turns in the same direction.
pub proof fn lemma_turns_cancel(r: Rover)
    ensures
        r.turned_right().turned_left() == r,
        r.turned_left().turned_right() == r,
        r.turned_right().turned_right().turned_right().turned_right() == r,
        r.turned_left().turned_left().turned_left().turned_left() == r,
{
}

/// A step forward then a step back gives back the same rover, and so does a step back
/// then a step forward, for every heading, as long as the first step stays within
/// `i32` coordinates.
pub proof fn lemma_moves_cancel(r: Rover)
    ensures
        r.can_move_forward() ==> r.forward().can_move_backward() && r.forward().backward()
            == r,
        r.can_move_backward() ==> r.backward().can_move_forward() && r.backward().forward()
            == r,
{
}

} // verus!
