//! The farm: the fixed part of a puzzle.

use vstd::prelude::*;
use crate::object::Object;
use crate::pos::{on_farm, Pos};

verus! {

/// How many of `cells` hold the object `o`.
pub open spec fn count(cells: Seq<Option<Object>>, o: Object) -> nat
    decreases cells.len(),
{
    if cells.len() == 0 {
        0
    } else {
        count(cells.drop_last(), o) + if cells.last() == Some(o) {
            1nat
        } else {
            0nat
        }
    }
}

/// How many of `cells` hold a wall: a barn, crop, a fence or hay.
pub open spec fn count_walls(cells: Seq<Option<Object>>) -> nat {
    count(cells, Object::Barn) + count(cells, Object::Crop) + count(cells, Object::Fence) + count(
        cells,
        Object::Hay,
    )
}

/// How many of `cells` hold a cow.
pub open spec fn count_cows(cells: Seq<Option<Object>>) -> nat {
    count(cells, Object::AzureCow) + count(cells, Object::YellowCow) + count(
        cells,
        Object::PurpleCow,
    ) + count(cells, Object::OrangeCow)
}

/// What a farm must hold: one UFO, one red bull, no cow of a colour twice, no
/// second silo, and 24 walls.
pub open spec fn census_ok(cells: Seq<Option<Object>>) -> bool {
    &&& count(cells, Object::UFO) == 1
    &&& count(cells, Object::RedBull) == 1
    &&& count(cells, Object::Silo) <= 1
    &&& count(cells, Object::AzureCow) <= 1
    &&& count(cells, Object::YellowCow) <= 1
    &&& count(cells, Object::PurpleCow) <= 1
    &&& count(cells, Object::OrangeCow) <= 1
    &&& count_walls(cells) == 24
}

/// Counting one cell further adds one where that cell holds `o`.
pub proof fn lemma_count_step(cells: Seq<Option<Object>>, n: int, o: Object)
    requires
        0 <= n < cells.len(),
    ensures
        count(cells.take(n + 1), o) == count(cells.take(n), o) + if cells[n] == Some(o) {
            1nat
        } else {
            0nat
        },
{
    assert(cells.take(n + 1).drop_last() =~= cells.take(n));
}

/// A part of the cells, counted from the front, holds no more of `o` than all
/// of them.
pub proof fn lemma_count_prefix(cells: Seq<Option<Object>>, n: int, o: Object)
    requires
        0 <= n <= cells.len(),
    ensures
        count(cells.take(n), o) <= count(cells, o),
    decreases cells.len() - n,
{
    if n == cells.len() {
        assert(cells.take(n) =~= cells);
    } else {
        lemma_count_step(cells, n, o);
        lemma_count_prefix(cells, n + 1, o);
    }
}

/// Where exactly one cell holds `o`, there is one index at which it stands.
pub proof fn lemma_count_one(cells: Seq<Option<Object>>, o: Object) -> (i: int)
    requires
        count(cells, o) == 1,
    ensures
        0 <= i < cells.len(),
        cells[i] == Some(o),
        forall|j: int| 0 <= j < cells.len() && j != i ==> cells[j] != Some(o),
    decreases cells.len(),
{
    let front = cells.drop_last();
    if cells.last() == Some(o) {
        lemma_count_none(front, o);
        assert forall|j: int| 0 <= j < cells.len() - 1 implies cells[j] != Some(o) by {
            assert(cells[j] == front[j]);
        }
        cells.len() - 1
    } else {
        let i = lemma_count_one(front, o);
        assert(cells[i] == front[i]);
        assert forall|j: int| 0 <= j < cells.len() && j != i implies cells[j] != Some(o) by {
            if j < cells.len() - 1 {
                assert(cells[j] == front[j]);
            }
        }
        i
    }
}

/// Where no cell is counted for `o`, no cell holds it.
pub proof fn lemma_count_none(cells: Seq<Option<Object>>, o: Object)
    requires
        count(cells, o) == 0,
    ensures
        forall|j: int| 0 <= j < cells.len() ==> cells[j] != Some(o),
    decreases cells.len(),
{
    if cells.len() > 0 {
        let front = cells.drop_last();
        lemma_count_none(front, o);
        assert forall|j: int| 0 <= j < cells.len() implies cells[j] != Some(o) by {
            if j < cells.len() - 1 {
                assert(cells[j] == front[j]);
            }
        }
    }
}

/// The farm of a puzzle: what each of its 7x7 cells holds, where the UFO
/// starts, and how many cows graze on it. Outside this crate a farm comes
/// from [`Farm::parse`] alone, and nothing changes it afterwards.
#[derive(Debug, PartialEq, Eq, Hash)]
pub struct Farm {
    layout: [[Option<Object>; 7]; 7],
    ufo_pos: Pos,
    cow_count: usize,
}

impl Farm {
    /// What the cell at the coordinates `p` holds; `None` for a cell that was
    /// never filled, and for coordinates off the farm.
    pub closed spec fn at(&self, p: (int, int)) -> Option<Object> {
        if on_farm(p) {
            self.layout@[p.0]@[p.1]
        } else {
            None
        }
    }

    /// The coordinates at which the UFO starts.
    pub closed spec fn start(&self) -> (int, int) {
        self.ufo_pos@
    }

    /// The number of cows that the farm records.
    pub closed spec fn cows(&self) -> nat {
        self.cow_count as nat
    }

    /// The 49 cells line by line: the cell `(x, y)` stands at index `7x + y`.
    pub open spec fn cells(&self) -> Seq<Option<Object>> {
        Seq::new(49, |i: int| self.at((i / 7, i % 7)))
    }

    /// A farm as the parser builds it: every cell is filled, the cells hold
    /// what a farm must hold, the UFO starts where its cell is, and the cows
    /// recorded are the cows on the cells.
    pub open spec fn valid(&self) -> bool {
        &&& forall|i: int| 0 <= i < 49 ==> (#[trigger] self.cells()[i]) is Some
        &&& census_ok(self.cells())
        &&& on_farm(self.start())
        &&& self.at(self.start()) == Some(Object::UFO)
        &&& self.cows() == count_cows(self.cells())
    }

    /// The glyph that the farm's picture shows for the cell `p`: a blank for
    /// a cell that was never filled.
    pub open spec fn cell_glyph(&self, p: (int, int)) -> char {
        match self.at(p) {
            None => ' ',
            Some(o) => o.glyph(),
        }
    }

    /// The farm's picture: seven lines of seven glyphs, each closed by a line
    /// feed. Line `y` shows the cells `(0, y)` to `(6, y)`.
    pub open spec fn picture(&self) -> Seq<char> {
        Seq::new(
            56,
            |k: int|
                if k % 8 == 7 {
                    '\n'
                } else {
                    self.cell_glyph((k % 8, k / 8))
                },
        )
    }

    /// A farm of empty records: no cell is filled, the UFO stands at `(0,0)`
    /// and no cow is counted.
    pub(crate) fn new() -> (farm: Farm)
        ensures
            forall|p: (int, int)| (#[trigger] farm.at(p)) is None,
            farm.start() == (0int, 0int),
            farm.cows() == 0,
    {
        Farm { layout: [[None; 7]; 7], ufo_pos: Pos::new(0, 0), cow_count: 0 }
    }

    /// What the cell at `pos` holds.
    pub fn get(&self, pos: Pos) -> (cell: Option<Object>)
        ensures
            cell == self.at(pos@),
    {
        let (x, y) = pos.xy();
        self.layout[x][y]
    }

    /// The cell at `pos`, to be written.
    pub(crate) fn get_mut(&mut self, pos: Pos) -> (cell: &mut Option<Object>)
        ensures
            *cell == old(self).at(pos@),
            final(self).at(pos@) == *final(cell),
            forall|q: (int, int)| q != pos@ ==> #[trigger] final(self).at(q) == old(self).at(q),
            final(self).start() == old(self).start(),
            final(self).cows() == old(self).cows(),
    {
        let (x, y) = pos.xy();
        &mut self.layout[x][y]
    }

    /// The position at which the UFO starts.
    pub fn current_ufo_pos(&self) -> (pos: Pos)
        ensures
            pos@ == self.start(),
    {
        self.ufo_pos
    }

    /// The UFO's starting position, to be written.
    pub(crate) fn current_ufo_pos_mut(&mut self) -> (pos: &mut Pos)
        ensures
            (*pos)@ == old(self).start(),
            final(self).start() == (*final(pos))@,
            forall|q: (int, int)| #[trigger] final(self).at(q) == old(self).at(q),
            final(self).cows() == old(self).cows(),
    {
        &mut self.ufo_pos
    }

    /// The number of cows on the farm.
    pub fn get_cow_count(&self) -> (n: usize)
        ensures
            n == self.cows(),
    {
        self.cow_count
    }

    /// The number of cows, to be written.
    pub(crate) fn get_cow_count_mut(&mut self) -> (n: &mut usize)
        ensures
            *n == old(self).cows(),
            final(self).cows() == *final(n),
            forall|q: (int, int)| #[trigger] final(self).at(q) == old(self).at(q),
            final(self).start() == old(self).start(),
    {
        &mut self.cow_count
    }

    /// The farm's picture as text.
    pub fn to_string(&self) -> (s: String)
        ensures
            s@ == self.picture(),
    {
        let mut s = String::new();
        assert(s@ =~= self.picture().take(0));
        for y in 0..7usize
            invariant
                s@ == self.picture().take(8 * y),
        {
            for x in 0..7usize
                invariant
                    y < 7,
                    s@ == self.picture().take(8 * y + x),
            {
                let pos = Pos::new(x, y);
                let ghost k: int = 8 * y + x;
                assert(k % 8 == x && k / 8 == y);
                assert(self.picture()[k] == self.cell_glyph(pos@));
                proof {
                    reveal_strlit(" ");
                }
                match self.get(pos) {
                    None => s.append(" "),
                    Some(obj) => s.append(obj.glyph_str()),
                }
                assert(s@ =~= self.picture().take(k + 1));
            }
            proof {
                reveal_strlit("\n");
            }
            assert((8 * y + 7) % 8 == 7);
            s.append("\n");
            assert(s@ =~= self.picture().take(8 * (y + 1)));
        }
        assert(self.picture().take(56) =~= self.picture());
        s
    }
}

impl Farm {
    /// On a valid farm the UFO's glyph stands at the start and nowhere else,
    /// the red bull on exactly one cell, the silo and each cow on at most
    /// one, and 24 cells hold a wall. Where the farm records four cows, each
    /// colour stands on exactly one cell.
    pub proof fn lemma_valid_census(farm: Farm) -> (bull: (int, int))
        requires
            farm.valid(),
        ensures
            forall|p: (int, int)|
                on_farm(p) ==> (#[trigger] farm.at(p) == Some(Object::UFO) <==> p == farm.start()),
            on_farm(bull),
            forall|p: (int, int)|
                on_farm(p) ==> (#[trigger] farm.at(p) == Some(Object::RedBull) <==> p == bull),
            count(farm.cells(), Object::Silo) <= 1,
            count(farm.cells(), Object::AzureCow) <= 1,
            count(farm.cells(), Object::YellowCow) <= 1,
            count(farm.cells(), Object::PurpleCow) <= 1,
            count(farm.cells(), Object::OrangeCow) <= 1,
            count_walls(farm.cells()) == 24,
            farm.cows() == 4 ==> {
                &&& count(farm.cells(), Object::AzureCow) == 1
                &&& count(farm.cells(), Object::YellowCow) == 1
                &&& count(farm.cells(), Object::PurpleCow) == 1
                &&& count(farm.cells(), Object::OrangeCow) == 1
            },
    {
        let cells = farm.cells();
        let ufo = lemma_count_one(cells, Object::UFO);
        assert(cells[ufo] == Some(Object::UFO));
        let b = lemma_count_one(cells, Object::RedBull);
        let start = farm.start();
        assert(cells[7 * start.0 + start.1] == farm.at(start));
        assert forall|p: (int, int)| on_farm(p) implies (#[trigger] farm.at(p) == Some(
            Object::UFO,
        ) <==> p == farm.start()) by {
            assert(cells[7 * p.0 + p.1] == farm.at(p));
        }
        let bull = (b / 7, b % 7);
        assert forall|p: (int, int)| on_farm(p) implies (#[trigger] farm.at(p) == Some(
            Object::RedBull,
        ) <==> p == bull) by {
            assert(cells[7 * p.0 + p.1] == farm.at(p));
        }
        bull
    }

    /// On a valid farm the cows recorded are the cows that a count over the
    /// cells finds, and there are at most four.
    pub proof fn lemma_cows_recounted(farm: Farm)
        requires
            farm.valid(),
        ensures
            farm.cows() == count_cows(farm.cells()),
            farm.cows() <= 4,
    {
    }
}

} // verus!
