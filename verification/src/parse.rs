//! The text of a farm, and the parser that reads it.
//!
//! A farm is written as seven lines of seven glyphs, each line closed by a
//! line feed: 56 characters in all. The glyph of the cell `(x, y)` is the
//! `y`-th character of line `x`.

use vstd::prelude::*;
use vstd::std_specs::iter::IteratorSpec;
use std::str::FromStr;
use crate::farm::{
    census_ok, count, count_cows, count_walls, lemma_count_prefix, lemma_count_step, Farm,
};
use crate::object::Object;
use crate::pos::{on_farm, Pos};

verus! {

/// The one error of the parser: the text is no well-formed farm.
#[derive(Debug, Clone, Copy, PartialEq, Eq)]
pub struct FarmParseError;

/// The character of `s` that stands for the cell `(x, y)`.
pub open spec fn glyph_at(s: Seq<char>, x: int, y: int) -> char {
    s[8 * x + y]
}

/// The character of `s` that closes line `x`.
pub open spec fn line_end(s: Seq<char>, x: int) -> char {
    s[8 * x + 7]
}

/// What the glyphs of `s` stand for, line by line: the cell `(x, y)` at index
/// `7x + y`, and `None` for a character that is no glyph.
pub open spec fn text_cells(s: Seq<char>) -> Seq<Option<Object>> {
    Seq::new(49, |i: int| Object::of_glyph(glyph_at(s, i / 7, i % 7)))
}

/// Whether `s` is the text of a farm: seven lines of seven glyphs, each
/// closed by a line feed, nothing after them, and on the cells what a farm
/// must hold.
pub open spec fn well_formed(s: Seq<char>) -> bool {
    &&& s.len() == 56
    &&& forall|x: int| 0 <= x < 7 ==> #[trigger] line_end(s, x) == '\n'
    &&& forall|i: int| 0 <= i < 49 ==> (#[trigger] text_cells(s)[i]) is Some
    &&& census_ok(text_cells(s))
}

spec fn one_if(flag: bool) -> nat {
    if flag {
        1
    } else {
        0
    }
}

/// The first `n` cells of `s` have been read into `farm`, and the flags and
/// the count of walls say what was seen on them.
#[verifier::opaque]
spec fn read_so_far(
    s: Seq<char>,
    n: int,
    farm: Farm,
    ufo: bool,
    azure_cow: bool,
    yellow_cow: bool,
    purple_cow: bool,
    orange_cow: bool,
    red_bull: bool,
    silo: bool,
    wall_count: int,
) -> bool {
    let seen = text_cells(s).take(n);
    &&& forall|i: int|
        0 <= i < n ==> (#[trigger] text_cells(s)[i]) is Some && farm.at((i / 7, i % 7))
            == text_cells(s)[i]
    &&& count(seen, Object::UFO) == one_if(ufo)
    &&& count(seen, Object::AzureCow) == one_if(azure_cow)
    &&& count(seen, Object::YellowCow) == one_if(yellow_cow)
    &&& count(seen, Object::PurpleCow) == one_if(purple_cow)
    &&& count(seen, Object::OrangeCow) == one_if(orange_cow)
    &&& count(seen, Object::RedBull) == one_if(red_bull)
    &&& count(seen, Object::Silo) == one_if(silo)
    &&& wall_count == count_walls(seen)
    &&& wall_count <= n
    &&& farm.cows() == count_cows(seen)
    &&& farm.cows() <= n
    &&& ufo ==> on_farm(farm.start()) && 7 * farm.start().0 + farm.start().1 < n && farm.at(
        farm.start(),
    ) == Some(Object::UFO)
}

/// Writes `obj` to the cell at `pos` for an object that a farm holds at most
/// once. `flag` says whether it was seen before: then this is the second, and
/// an error.
fn put_object_with_flag(farm: &mut Farm, flag: &mut bool, pos: Pos, obj: Object) -> (r: Result<
    (),
    FarmParseError,
>)
    requires
        old(farm).cows() < usize::MAX,
    ensures
        r is Err <==> *old(flag),
        r is Ok ==> {
            &&& *final(flag)
            &&& final(farm).at(pos@) == Some(obj)
            &&& forall|q: (int, int)| q != pos@ ==> #[trigger] final(farm).at(q) == old(farm).at(q)
            &&& final(farm).start() == if obj == Object::UFO {
                pos@
            } else {
                old(farm).start()
            }
            &&& final(farm).cows() == old(farm).cows() + one_if(obj.is_cow())
        },
{
    *farm.get_mut(pos) = Some(obj);
    if *flag {
        return Err(FarmParseError);
    } else {
        *flag = true;
    }
    if obj == Object::UFO {
        *farm.current_ufo_pos_mut() = pos;
    }
    if obj.is_cow() {
        *farm.get_cow_count_mut() += 1
    }
    Ok(())
}

/// Writes `obj` to the cell at `pos` for an object that a farm may hold many
/// times, and counts it if it is a wall.
fn put_object(farm: &mut Farm, pos: Pos, obj: Object, wall_count: &mut i32) -> (r: Result<
    (),
    FarmParseError,
>)
    requires
        *old(wall_count) < i32::MAX,
    ensures
        r is Ok,
        final(farm).at(pos@) == Some(obj),
        forall|q: (int, int)| q != pos@ ==> #[trigger] final(farm).at(q) == old(farm).at(q),
        final(farm).start() == if obj == Object::UFO {
            pos@
        } else {
            old(farm).start()
        },
        final(farm).cows() == old(farm).cows(),
        *final(wall_count) == *old(wall_count) + one_if(obj.is_wall()),
{
    *farm.get_mut(pos) = Some(obj);
    if obj == Object::UFO {
        *farm.current_ufo_pos_mut() = pos;
    }
    if obj.is_wall() {
        *wall_count = *wall_count + 1;
    }
    Ok(())
}

/// What reading the cell `n` does to the counts: each count over the first
/// `n + 1` cells is the count over the first `n` and the cell `n`.
proof fn lemma_count_cell(cells: Seq<Option<Object>>, n: int)
    requires
        0 <= n < cells.len(),
    ensures
        forall|o: Object|
            #[trigger] count(cells.take(n + 1), o) == count(cells.take(n), o) + one_if(
                cells[n] == Some(o),
            ),
{
    assert forall|o: Object|
        #[trigger] count(cells.take(n + 1), o) == count(cells.take(n), o) + one_if(
            cells[n] == Some(o),
        ) by {
        lemma_count_step(cells, n, o);
    }
}

/// Before any cell is read, nothing was seen.
proof fn lemma_nothing_read(s: Seq<char>, farm: Farm)
    requires
        farm.cows() == 0,
    ensures
        read_so_far(s, 0, farm, false, false, false, false, false, false, false, 0),
{
    reveal(read_so_far);
    assert(text_cells(s).take(0) =~= Seq::empty());
}

/// A text in which the cell `n` holds, for the second time, an object that a
/// farm holds at most once is not well formed.
proof fn lemma_second_is_error(
    s: Seq<char>,
    n: int,
    farm: Farm,
    ufo: bool,
    azure_cow: bool,
    yellow_cow: bool,
    purple_cow: bool,
    orange_cow: bool,
    red_bull: bool,
    silo: bool,
    wall_count: int,
)
    requires
        0 <= n < 49,
        read_so_far(
            s,
            n,
            farm,
            ufo,
            azure_cow,
            yellow_cow,
            purple_cow,
            orange_cow,
            red_bull,
            silo,
            wall_count,
        ),
    ensures
        wall_count <= n,
        farm.cows() <= n,
        text_cells(s)[n] is None ==> !well_formed(s),
        ufo && text_cells(s)[n] == Some(Object::UFO) ==> !well_formed(s),
        azure_cow && text_cells(s)[n] == Some(Object::AzureCow) ==> !well_formed(s),
        yellow_cow && text_cells(s)[n] == Some(Object::YellowCow) ==> !well_formed(s),
        purple_cow && text_cells(s)[n] == Some(Object::PurpleCow) ==> !well_formed(s),
        orange_cow && text_cells(s)[n] == Some(Object::OrangeCow) ==> !well_formed(s),
        red_bull && text_cells(s)[n] == Some(Object::RedBull) ==> !well_formed(s),
        silo && text_cells(s)[n] == Some(Object::Silo) ==> !well_formed(s),
{
    reveal(read_so_far);
    let cells = text_cells(s);
    lemma_twice_is_more(cells, n, Object::UFO);
    lemma_twice_is_more(cells, n, Object::AzureCow);
    lemma_twice_is_more(cells, n, Object::YellowCow);
    lemma_twice_is_more(cells, n, Object::PurpleCow);
    lemma_twice_is_more(cells, n, Object::OrangeCow);
    lemma_twice_is_more(cells, n, Object::RedBull);
    lemma_twice_is_more(cells, n, Object::Silo);
}

/// Where `o` stands on the cell `n` and was counted before it, the cells
/// hold it at least twice.
proof fn lemma_twice_is_more(cells: Seq<Option<Object>>, n: int, o: Object)
    requires
        0 <= n < cells.len(),
    ensures
        cells[n] == Some(o) ==> count(cells, o) >= count(cells.take(n), o) + 1,
{
    lemma_count_step(cells, n, o);
    lemma_count_prefix(cells, n + 1, o);
}

/// Reading the cell `n`, which holds `obj`, into the farm carries the
/// parser's record from `n` cells to `n + 1`.
proof fn lemma_cell_read(
    s: Seq<char>,
    n: int,
    obj: Object,
    before: Farm,
    after: Farm,
    flags_before: (bool, bool, bool, bool, bool, bool, bool),
    flags_after: (bool, bool, bool, bool, bool, bool, bool),
    walls_before: int,
    walls_after: int,
)
    requires
        0 <= n < 49,
        text_cells(s)[n] == Some(obj),
        read_so_far(
            s,
            n,
            before,
            flags_before.0,
            flags_before.1,
            flags_before.2,
            flags_before.3,
            flags_before.4,
            flags_before.5,
            flags_before.6,
            walls_before,
        ),
        after.at((n / 7, n % 7)) == Some(obj),
        forall|q: (int, int)| q != (n / 7, n % 7) ==> #[trigger] after.at(q) == before.at(q),
        after.start() == if obj == Object::UFO {
            (n / 7, n % 7)
        } else {
            before.start()
        },
        after.cows() == before.cows() + one_if(obj.is_cow()),
        walls_after == walls_before + one_if(obj.is_wall()),
        !(flags_before.0 && obj == Object::UFO),
        !(flags_before.1 && obj == Object::AzureCow),
        !(flags_before.2 && obj == Object::YellowCow),
        !(flags_before.3 && obj == Object::PurpleCow),
        !(flags_before.4 && obj == Object::OrangeCow),
        !(flags_before.5 && obj == Object::RedBull),
        !(flags_before.6 && obj == Object::Silo),
        flags_after.0 == (flags_before.0 || obj == Object::UFO),
        flags_after.1 == (flags_before.1 || obj == Object::AzureCow),
        flags_after.2 == (flags_before.2 || obj == Object::YellowCow),
        flags_after.3 == (flags_before.3 || obj == Object::PurpleCow),
        flags_after.4 == (flags_before.4 || obj == Object::OrangeCow),
        flags_after.5 == (flags_before.5 || obj == Object::RedBull),
        flags_after.6 == (flags_before.6 || obj == Object::Silo),
    ensures
        read_so_far(
            s,
            n + 1,
            after,
            flags_after.0,
            flags_after.1,
            flags_after.2,
            flags_after.3,
            flags_after.4,
            flags_after.5,
            flags_after.6,
            walls_after,
        ),
{
    reveal(read_so_far);
    let cells = text_cells(s);
    lemma_count_cell(cells, n);
    assert forall|i: int| 0 <= i < n + 1 implies (#[trigger] text_cells(s)[i]) is Some && after.at(
        (i / 7, i % 7),
    ) == text_cells(s)[i] by {
        if i < n {
            assert((i / 7, i % 7) != (n / 7, n % 7));
            assert(before.at((i / 7, i % 7)) == text_cells(s)[i]);
        }
    }
    if flags_after.0 && obj != Object::UFO {
        assert(after.start() != (n / 7, n % 7));
    }
}

/// Once all 49 cells are read, no line end is amiss and nothing follows, the
/// text is well formed exactly if the UFO and the red bull were seen and the
/// walls are 24; the farm then is valid and holds the cells of the text.
proof fn lemma_all_read(
    s: Seq<char>,
    farm: Farm,
    ufo: bool,
    azure_cow: bool,
    yellow_cow: bool,
    purple_cow: bool,
    orange_cow: bool,
    red_bull: bool,
    silo: bool,
    wall_count: int,
)
    requires
        s.len() == 56,
        forall|l: int| 0 <= l < 7 ==> #[trigger] line_end(s, l) == '\n',
        read_so_far(
            s,
            49,
            farm,
            ufo,
            azure_cow,
            yellow_cow,
            purple_cow,
            orange_cow,
            red_bull,
            silo,
            wall_count,
        ),
    ensures
        well_formed(s) <==> ufo && red_bull && wall_count == 24,
        farm.cells() == text_cells(s),
        well_formed(s) ==> farm.valid(),
{
    reveal(read_so_far);
    assert(text_cells(s).take(49) =~= text_cells(s));
    assert(farm.cells() =~= text_cells(s));
}

impl Farm {
    /// Reads a farm from its text.
    ///
    /// The text is accepted if and only if it is well formed. The farm then
    /// holds on each cell what the glyph of that cell stands for, the UFO
    /// starts on the cell of its glyph, and the cows counted are the cows of
    /// the text.
    pub fn parse(s: &str) -> (r: Result<Farm, FarmParseError>)
        ensures
            match r {
                Ok(farm) => well_formed(s@) && farm.cells() == text_cells(s@) && farm.valid(),
                Err(_) => !well_formed(s@),
            },
    {
        let mut farm = Farm::new();
        let mut c = s.chars();
        let mut ufo = false;
        let mut azure_cow = false;
        let mut yellow_cow = false;
        let mut purple_cow = false;
        let mut orange_cow = false;
        let mut red_bull = false;
        let mut silo = false;
        let mut wall_count: i32 = 0;

        proof {
            assert(s@.skip(0) =~= s@);
            lemma_nothing_read(s@, farm);
        }
        for x in 0..7usize
            invariant
                c.remaining() == s@.skip(8 * x),
                8 * x <= s@.len(),
                forall|l: int| 0 <= l < x ==> #[trigger] line_end(s@, l) == '\n',
                read_so_far(
                    s@,
                    7 * x,
                    farm,
                    ufo,
                    azure_cow,
                    yellow_cow,
                    purple_cow,
                    orange_cow,
                    red_bull,
                    silo,
                    wall_count as int,
                ),
        {
            for y in 0..7usize
                invariant
                    x < 7,
                    c.remaining() == s@.skip(8 * x + y),
                    8 * x + y <= s@.len(),
                    read_so_far(
                        s@,
                        7 * x + y,
                        farm,
                        ufo,
                        azure_cow,
                        yellow_cow,
                        purple_cow,
                        orange_cow,
                        red_bull,
                        silo,
                        wall_count as int,
                    ),
            {
                let pos = Pos::new(x, y);
                let ghost n: int = 7 * x + y;
                let ghost before = farm;
                let ghost flags_before = (
                    ufo,
                    azure_cow,
                    yellow_cow,
                    purple_cow,
                    orange_cow,
                    red_bull,
                    silo,
                );
                let ghost walls_before = wall_count as int;
                match c.next() {
                    None => return Err(FarmParseError),
                    Some(c) => {
                        proof {
                            assert(c == s@.skip(8 * x + y)[0]);
                            assert(c == glyph_at(s@, x as int, y as int));
                            assert(n / 7 == x && n % 7 == y);
                            assert(text_cells(s@)[n] == Object::of_glyph(c));
                            lemma_second_is_error(
                                s@,
                                n,
                                farm,
                                ufo,
                                azure_cow,
                                yellow_cow,
                                purple_cow,
                                orange_cow,
                                red_bull,
                                silo,
                                wall_count as int,
                            );
                        }
                        match c {
                            'U' => put_object_with_flag(&mut farm, &mut ufo, pos, Object::UFO)?,
                            'A' => put_object_with_flag(
                                &mut farm,
                                &mut azure_cow,
                                pos,
                                Object::AzureCow,
                            )?,
                            'Y' => put_object_with_flag(
                                &mut farm,
                                &mut yellow_cow,
                                pos,
                                Object::YellowCow,
                            )?,
                            'P' => put_object_with_flag(
                                &mut farm,
                                &mut purple_cow,
                                pos,
                                Object::PurpleCow,
                            )?,
                            'O' => put_object_with_flag(
                                &mut farm,
                                &mut orange_cow,
                                pos,
                                Object::OrangeCow,
                            )?,
                            'R' => put_object_with_flag(
                                &mut farm,
                                &mut red_bull,
                                pos,
                                Object::RedBull,
                            )?,
                            'B' => put_object(&mut farm, pos, Object::Barn, &mut wall_count)?,
                            'C' => put_object(&mut farm, pos, Object::Crop, &mut wall_count)?,
                            'H' => put_object(&mut farm, pos, Object::Hay, &mut wall_count)?,
                            'F' => put_object(&mut farm, pos, Object::Fence, &mut wall_count)?,
                            'S' => put_object_with_flag(&mut farm, &mut silo, pos, Object::Silo)?,
                            '|' => put_object(&mut farm, pos, Object::Wall1, &mut wall_count)?,
                            '-' => put_object(&mut farm, pos, Object::Wall2, &mut wall_count)?,
                            '+' => put_object(&mut farm, pos, Object::Corner, &mut wall_count)?,
                            ' ' => put_object(&mut farm, pos, Object::Empty, &mut wall_count)?,
                            _ => return Err(FarmParseError),
                        }
                        proof {
                            lemma_cell_read(
                                s@,
                                n,
                                Object::of_glyph(c)->0,
                                before,
                                farm,
                                flags_before,
                                (
                                    ufo,
                                    azure_cow,
                                    yellow_cow,
                                    purple_cow,
                                    orange_cow,
                                    red_bull,
                                    silo,
                                ),
                                walls_before,
                                wall_count as int,
                            );
                            assert(s@.skip(8 * x + y).drop_first() =~= s@.skip(8 * x + y + 1));
                        }
                    },
                }
            }
            match c.next() {
                Some('\n') => {
                    proof {
                        assert(line_end(s@, x as int) == s@.skip(8 * x + 7)[0]);
                        assert(s@.skip(8 * x + 7).drop_first() =~= s@.skip(8 * (x + 1)));
                    }
                },
                _ => {
                    proof {
                        if s@.len() == 56 {
                            assert(line_end(s@, x as int) == s@.skip(8 * x + 7)[0]);
                        }
                    }
                    return Err(FarmParseError);
                },
            }
        }
        if c.next().is_some() {
            return Err(FarmParseError);
        }
        proof {
            lemma_all_read(
                s@,
                farm,
                ufo,
                azure_cow,
                yellow_cow,
                purple_cow,
                orange_cow,
                red_bull,
                silo,
                wall_count as int,
            );
        }
        if red_bull == false || ufo == false {
            return Err(FarmParseError);
        }
        if wall_count != 24 {
            return Err(FarmParseError);
        }
        Ok(farm)
    }
}

impl FromStr for Farm {
    type Err = FarmParseError;

    /// Reads a farm from its text, as [`Farm::parse`] does.
    fn from_str(s: &str) -> (r: Result<Self, Self::Err>)
        ensures
            match r {
                Ok(farm) => well_formed(s@) && farm.cells() == text_cells(s@) && farm.valid(),
                Err(_) => !well_formed(s@),
            },
    {
        Farm::parse(s)
    }
}

} // verus!
