//! Positions on the 7x7 farm.

use vstd::prelude::*;
use crate::direction::Direction;

verus! {

/// Whether a pair of coordinates lies on the farm.
pub open spec fn on_farm(p: (int, int)) -> bool {
    0 <= p.0 <= 6 && 0 <= p.1 <= 6
}

/// The pair one step from `p` in direction `dir`, if it lies on the farm.
pub open spec fn step_from(p: (int, int), dir: Direction) -> Option<(int, int)> {
    let q = (p.0 + dir.delta().0, p.1 + dir.delta().1);
    if on_farm(q) {
        Some(q)
    } else {
        None
    }
}

/// A position of the farm: two coordinates, each from 0 to 6. The fields are
/// private, so every `Pos` that a program holds lies on the farm.
#[derive(Debug, Clone, Copy, PartialEq, Eq, PartialOrd, Ord, Hash)]
pub struct Pos {
    x: usize,
    y: usize,
}

impl View for Pos {
    type V = (int, int);

    closed spec fn view(&self) -> (int, int) {
        (self.x as int, self.y as int)
    }
}

impl Pos {
    #[verifier::type_invariant]
    spec fn in_range(self) -> bool {
        self.x <= 6 && self.y <= 6
    }

    /// The position with the coordinates `x` and `y`.
    pub fn new(x: usize, y: usize) -> (p: Pos)
        requires
            x <= 6,
            y <= 6,
        ensures
            p@ == (x as int, y as int),
    {
        Pos { x, y }
    }

    /// The two coordinates.
    pub fn xy(&self) -> (c: (usize, usize))
        ensures
            (c.0 as int, c.1 as int) == self@,
            c.0 <= 6,
            c.1 <= 6,
    {
        proof {
            use_type_invariant(self);
        }
        (self.x, self.y)
    }

    /// The position one step from `self` in direction `dir`, or `None` where
    /// that step would leave the farm.
    pub fn step(&self, dir: Direction) -> (r: Option<Pos>)
        ensures
            on_farm(self@),
            match r {
                Some(q) => step_from(self@, dir) == Some(q@),
                None => step_from(self@, dir) is None,
            },
    {
        let (x, y) = self.xy();
        let (x, y) = match dir {
            Direction::North => {
                if x == 0 {
                    return None;
                }
                (x - 1, y)
            },
            Direction::South => {
                if x == 6 {
                    return None;
                }
                (x + 1, y)
            },
            Direction::West => {
                if y == 0 {
                    return None;
                }
                (x, y - 1)
            },
            Direction::East => {
                if y == 6 {
                    return None;
                }
                (x, y + 1)
            },
        };
        Some(Pos::new(x, y))
    }

    /// The coordinates of the `i`-th position in the order of [`Pos::values`]:
    /// line by line, so the second coordinate runs fastest.
    pub open spec fn nth(i: int) -> (int, int) {
        (i / 7, i % 7)
    }

    /// All 49 positions of the farm, each once, line by line: `(0,0)`,
    /// `(0,1)`, .. `(0,6)`, `(1,0)`, .. `(6,6)`. This is the order in which a
    /// farm's text lists its cells.
    pub fn values() -> (v: Vec<Pos>)
        ensures
            v@.len() == 49,
            forall|i: int| 0 <= i < 49 ==> (#[trigger] v@[i])@ == Pos::nth(i),
    {
        let mut v: Vec<Pos> = Vec::new();
        for x in 0..7usize
            invariant
                v@.len() == 7 * x,
                forall|i: int| 0 <= i < v@.len() ==> (#[trigger] v@[i])@ == Pos::nth(i),
        {
            for y in 0..7usize
                invariant
                    x < 7,
                    v@.len() == 7 * x + y,
                    forall|i: int| 0 <= i < v@.len() ==> (#[trigger] v@[i])@ == Pos::nth(i),
            {
                v.push(Pos::new(x, y));
            }
        }
        v
    }

    /// The position as text: `(x,y)`.
    pub fn to_string(&self) -> (s: String)
        ensures
            s@ == seq!['(', digit(self@.0), ',', digit(self@.1), ')'],
    {
        let (x, y) = self.xy();
        proof {
            reveal_strlit("(");
            reveal_strlit(",");
            reveal_strlit(")");
        }
        let mut s = "(".to_owned();
        s.append(digit_str(x));
        s.append(",");
        s.append(digit_str(y));
        s.append(")");
        assert(s@ =~= seq!['(', digit(self@.0), ',', digit(self@.1), ')']);
        s
    }

    /// Two positions with the same coordinates are the same position.
    pub proof fn lemma_view_injective(a: Pos, b: Pos)
        requires
            a@ == b@,
        ensures
            a == b,
    {
    }

    /// A step changes one coordinate by exactly one and keeps the other, and
    /// it ends on the farm. From the farm's edge, a step outward gives no
    /// position.
    pub proof fn lemma_step_is_unit(p: (int, int), dir: Direction)
        requires
            on_farm(p),
        ensures
            match step_from(p, dir) {
                Some(q) => {
                    &&& on_farm(q)
                    &&& (q.0 == p.0 && (q.1 == p.1 + 1 || q.1 == p.1 - 1)) || (q.1 == p.1 && (q.0
                        == p.0 + 1 || q.0 == p.0 - 1))
                },
                None => {
                    ||| dir == Direction::North && p.0 == 0
                    ||| dir == Direction::South && p.0 == 6
                    ||| dir == Direction::West && p.1 == 0
                    ||| dir == Direction::East && p.1 == 6
                },
            },
            dir == Direction::North && p.0 == 0 ==> step_from(p, dir) is None,
            dir == Direction::South && p.0 == 6 ==> step_from(p, dir) is None,
            dir == Direction::West && p.1 == 0 ==> step_from(p, dir) is None,
            dir == Direction::East && p.1 == 6 ==> step_from(p, dir) is None,
    {
    }
}

/// The decimal digit of a coordinate.
pub open spec fn digit(n: int) -> char {
    if n == 0 {
        '0'
    } else if n == 1 {
        '1'
    } else if n == 2 {
        '2'
    } else if n == 3 {
        '3'
    } else if n == 4 {
        '4'
    } else if n == 5 {
        '5'
    } else {
        '6'
    }
}

fn digit_str(n: usize) -> (s: &'static str)
    requires
        n <= 6,
    ensures
        s@ == seq![digit(n as int)],
{
    proof {
        reveal_strlit("0");
        reveal_strlit("1");
        reveal_strlit("2");
        reveal_strlit("3");
        reveal_strlit("4");
        reveal_strlit("5");
        reveal_strlit("6");
    }
    let s = if n == 0 {
        "0"
    } else if n == 1 {
        "1"
    } else if n == 2 {
        "2"
    } else if n == 3 {
        "3"
    } else if n == 4 {
        "4"
    } else if n == 5 {
        "5"
    } else {
        "6"
    };
    assert(s@ =~= seq![digit(n as int)]);
    s
}

} // verus!
