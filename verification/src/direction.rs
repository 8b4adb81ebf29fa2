//! The four directions in which the UFO moves.

use vstd::prelude::*;

verus! {

/// A cardinal direction. North leads to the smaller first coordinate, West to
/// the smaller second coordinate.
#[derive(Debug, Copy, Clone, PartialEq, Eq, Hash, Structural)]
pub enum Direction {
    North,
    South,
    West,
    East,
}

impl Direction {
    /// The directions in their fixed order: North, South, West, East.
    pub open spec fn all() -> Seq<Direction> {
        seq![Direction::North, Direction::South, Direction::West, Direction::East]
    }

    /// The change of the first and of the second coordinate that one step in
    /// this direction makes.
    pub open spec fn delta(self) -> (int, int) {
        match self {
            Direction::North => (-1, 0),
            Direction::South => (1, 0),
            Direction::West => (0, -1),
            Direction::East => (0, 1),
        }
    }

    /// All directions, in the order North, South, West, East.
    pub fn values() -> (v: [Direction; 4])
        ensures
            v@ == Direction::all(),
    {
        let v = [Direction::North, Direction::South, Direction::West, Direction::East];
        assert(v@ =~= Direction::all());
        v
    }

    /// The arrow that stands for this direction.
    pub open spec fn arrow(self) -> char {
        match self {
            Direction::North => '↑',
            Direction::South => '↓',
            Direction::West => '←',
            Direction::East => '→',
        }
    }

    /// The direction's arrow as a text of one character.
    pub fn to_string(&self) -> (s: String)
        ensures
            s@ == seq![self.arrow()],
    {
        proof {
            reveal_strlit("↑");
            reveal_strlit("↓");
            reveal_strlit("←");
            reveal_strlit("→");
        }
        let s = match self {
            Direction::North => "↑",
            Direction::South => "↓",
            Direction::West => "←",
            Direction::East => "→",
        };
        assert(s@ =~= seq![self.arrow()]);
        s.to_owned()
    }
}

} // verus!
