//! The state of a puzzle and its moves.

use vstd::prelude::*;
use std::collections::VecDeque;
use crate::direction::Direction;
use crate::farm::Farm;
use crate::object::Object;
use crate::pos::{on_farm, step_from, Pos};

verus! {

/// What a puzzle state is, as a mathematical value: the farm it is played on,
/// where the UFO is, which cattle it has beamed up, in that order, and
/// whether the red bull is among them.
pub ghost struct State {
    pub farm: Farm,
    pub pos: (int, int),
    pub collected: Seq<Object>,
    pub bull_picked: bool,
}

impl State {
    /// The state in which a puzzle on `farm` begins.
    pub open spec fn initial(farm: Farm) -> State {
        State { farm, pos: farm.start(), collected: Seq::empty(), bull_picked: false }
    }

    /// Whether the UFO with its load gets over `o`. A wall holds it back as
    /// soon as the load is more than the wall's limit; nothing else does.
    pub open spec fn gets_over(self, o: Object) -> bool {
        match o.height_limit() {
            Some(limit) => self.collected.len() <= limit,
            None => true,
        }
    }

    /// Whether the UFO may come to rest on `o`: never on the silo, and on the
    /// red bull only if it was picked before or every cow of the farm is on
    /// board.
    pub open spec fn may_land_on(self, o: Object) -> bool {
        if o == Object::Silo {
            false
        } else if o == Object::RedBull {
            self.bull_picked || self.collected.len() == self.farm.cows()
        } else {
            true
        }
    }

    /// The load after the UFO has come to rest on `o`: a cow or the red bull
    /// that is not on board yet comes last; everything else changes nothing.
    pub open spec fn load_after(self, o: Object) -> Seq<Object> {
        if o.is_cattle() && !self.collected.contains(o) {
            self.collected.push(o)
        } else {
            self.collected
        }
    }

    /// The state after the UFO has come to rest at `p`, on `o`.
    pub open spec fn landed(self, p: (int, int), o: Object) -> State {
        State {
            farm: self.farm,
            pos: p,
            collected: self.load_after(o),
            bull_picked: self.bull_picked || (o == Object::RedBull && !self.collected.contains(
                o,
            )),
        }
    }

    /// The move from `from` in direction `dir`: the UFO flies over the next
    /// cell and comes to rest on the one after it. `None` where the farm
    /// ends before that, where a cell on the way was never filled, where the
    /// UFO does not get over the first cell, or may not land on the second.
    pub open spec fn moved(self, from: (int, int), dir: Direction) -> Option<State> {
        match step_from(from, dir) {
            None => None,
            Some(over) => match self.farm.at(over) {
                None => None,
                Some(first) => if !self.gets_over(first) {
                    None
                } else {
                    match step_from(over, dir) {
                        None => None,
                        Some(rest) => match self.farm.at(rest) {
                            None => None,
                            Some(second) => if self.may_land_on(second) {
                                Some(self.landed(rest, second))
                            } else {
                                None
                            },
                        },
                    }
                },
            },
        }
    }

    /// The goal: every cow and the red bull are on board, and the UFO is on
    /// the edge of the farm.
    pub open spec fn is_goal(self) -> bool {
        &&& self.collected.len() == self.farm.cows() + 1
        &&& (self.pos.0 == 0 || self.pos.0 == 6 || self.pos.1 == 0 || self.pos.1 == 6)
    }

    /// What the direction `dir` adds to the successors: the move from where
    /// the UFO is, if there is one.
    pub open spec fn successor(self, dir: Direction) -> Seq<(Direction, State)> {
        match self.moved(self.pos, dir) {
            Some(next) => seq![(dir, next)],
            None => Seq::empty(),
        }
    }

    /// The successors in the first `k` directions, in the directions' order.
    pub open spec fn successors_in(self, k: int) -> Seq<(Direction, State)>
        decreases k,
    {
        if k <= 0 {
            Seq::empty()
        } else {
            self.successors_in(k - 1) + self.successor(Direction::all()[k - 1])
        }
    }

    /// All successors: for North, South, West and East in this order, the
    /// direction and the state that the move in it leads to.
    pub open spec fn successors(self) -> Seq<(Direction, State)> {
        self.successors_in(4)
    }

    /// The state after the moves in the directions `dirs`, one after the
    /// other, each from where the UFO is; `None` if the rules forbid one of
    /// them.
    pub open spec fn played(self, dirs: Seq<Direction>) -> Option<State>
        decreases dirs.len(),
    {
        if dirs.len() == 0 {
            Some(self)
        } else {
            match self.moved(self.pos, dirs[0]) {
                None => None,
                Some(next) => next.played(dirs.drop_first()),
            }
        }
    }

    /// What holds of every state that play can reach: the load is made of
    /// cattle, none of them twice, and the flag for the red bull says whether
    /// it is on board.
    pub open spec fn inv(self) -> bool {
        &&& forall|i: int| 0 <= i < self.collected.len() ==> (#[trigger] self.collected[i]).is_cattle()
        &&& self.collected.no_duplicates()
        &&& self.bull_picked == self.collected.contains(Object::RedBull)
    }
}

/// The letters of the cattle in `load`, up to the first object that is none.
pub open spec fn cattle_letters(load: Seq<Object>) -> Seq<char>
    decreases load.len(),
{
    if load.len() == 0 || !load[0].is_cattle() {
        Seq::empty()
    } else {
        seq![load[0].glyph()] + cattle_letters(load.drop_first())
    }
}

/// The directions and states of `v`, each state as a mathematical value.
pub open spec fn pairs_view<'a>(v: Seq<(Direction, IotCS<'a>)>) -> Seq<(Direction, State)> {
    Seq::new(v.len(), |i: int| (v[i].0, v[i].1@))
}

/// A state of the puzzle: the farm, where the UFO is, and the cattle that it
/// has beamed up. The farm is borrowed, so that a copy of a state costs no
/// copy of the farm.
#[derive(Debug, PartialEq, Eq, Hash)]
pub struct IotCS<'a> {
    farm: &'a Farm,
    ufo_pos: Pos,
    cow_collection: VecDeque<Object>,
    red_bull_picked: bool,
}

impl<'a> View for IotCS<'a> {
    type V = State;

    closed spec fn view(&self) -> State {
        State {
            farm: *self.farm,
            pos: self.ufo_pos@,
            collected: self.cow_collection@,
            bull_picked: self.red_bull_picked,
        }
    }
}

impl<'a> Clone for IotCS<'a> {
    /// A copy of the state on the same farm.
    fn clone(&self) -> (copy: Self)
        ensures
            copy@ == self@,
    {
        let mut cow_collection: VecDeque<Object> = VecDeque::new();
        let n = self.cow_collection.len();
        for i in 0..n
            invariant
                n == self.cow_collection@.len(),
                cow_collection@ == self.cow_collection@.take(i as int),
        {
            cow_collection.push_back(self.cow_collection[i]);
            assert(self.cow_collection@.take(i + 1) =~= self.cow_collection@.take(i as int).push(
                self.cow_collection@[i as int],
            ));
        }
        assert(self.cow_collection@.take(n as int) =~= self.cow_collection@);
        IotCS {
            farm: self.farm,
            ufo_pos: self.ufo_pos,
            cow_collection,
            red_bull_picked: self.red_bull_picked,
        }
    }
}

impl<'a> IotCS<'a> {
    /// The state in which the puzzle on `farm` begins: the UFO at its start,
    /// nothing on board.
    pub fn new(farm: &'a Farm) -> (state: Self)
        ensures
            state@ == State::initial(*farm),
            state@.inv(),
    {
        return IotCS {
            farm: farm,
            ufo_pos: farm.current_ufo_pos(),
            cow_collection: VecDeque::new(),
            red_bull_picked: false,
        };
    }

    /// Where the UFO is.
    pub fn current_ufo_pos(&self) -> (pos: Pos)
        ensures
            pos@ == self@.pos,
    {
        self.ufo_pos
    }

    /// Where the UFO is, to be written: the caller may set the UFO down
    /// anywhere on the farm. Nothing else of the state changes.
    pub fn current_ufo_pos_mut(&mut self) -> (pos: &mut Pos)
        ensures
            (*pos)@ == old(self)@.pos,
            final(self)@ == (State { pos: (*final(pos))@, ..old(self)@ }),
    {
        &mut self.ufo_pos
    }

    /// Whether `obj` is on board.
    fn has_collected(&self, obj: Object) -> (found: bool)
        ensures
            found == self@.collected.contains(obj),
    {
        let n = self.cow_collection.len();
        for i in 0..n
            invariant
                n == self.cow_collection@.len(),
                forall|j: int| 0 <= j < i ==> self.cow_collection@[j] != obj,
        {
            if self.cow_collection[i] == obj {
                return true;
            }
        }
        false
    }

    /// The load as text: `U:` and then the letter of each animal on board,
    /// in the order in which they were beamed up.
    pub fn ufo_with_cattle_to_string(&self) -> (s: String)
        ensures
            s@ == seq!['U', ':'] + cattle_letters(self@.collected),
    {
        proof {
            reveal_strlit("U:");
        }
        let mut s = "U:".to_owned();
        assert(s@ =~= seq!['U', ':']);
        assert(self.cow_collection@.skip(0) =~= self.cow_collection@);
        let n = self.cow_collection.len();
        for i in 0..n
            invariant
                n == self.cow_collection@.len(),
                s@ + cattle_letters(self.cow_collection@.skip(i as int)) == seq!['U', ':']
                    + cattle_letters(self.cow_collection@),
        {
            let ghost rest = self.cow_collection@.skip(i as int);
            assert(rest[0] == self.cow_collection@[i as int]);
            assert(rest.drop_first() =~= self.cow_collection@.skip(i + 1));
            let ghost so_far = s@;
            let ob = self.cow_collection[i];
            match ob {
                Object::AzureCow | Object::YellowCow | Object::PurpleCow | Object::OrangeCow
                | Object::RedBull => s.append(ob.glyph_str()),
                _ => {
                    assert(s@ + Seq::<char>::empty() =~= s@);
                    return s;
                },
            }
            assert(s@ + cattle_letters(rest.drop_first()) =~= so_far + (seq![ob.glyph()]
                + cattle_letters(rest.drop_first())));
        }
        assert(s@ + Seq::<char>::empty() =~= s@);
        return s;
    }

    /// Moves the UFO from `pos` two cells in direction `dir`: over the first
    /// and onto the second.
    ///
    /// Where the rules allow the move, the state becomes what
    /// [`State::moved`] says and the new position is returned. Where they do
    /// not, the state stays as it was and `None` is returned.
    pub fn move_ufo(&mut self, pos: Pos, dir: Direction) -> (r: Option<Pos>)
        ensures
            match r {
                Some(rest) => {
                    &&& old(self)@.moved(pos@, dir) == Some(final(self)@)
                    &&& rest@ == final(self)@.pos
                },
                None => old(self)@.moved(pos@, dir) is None && final(self)@ == old(self)@,
            },
            old(self)@.inv() ==> final(self)@.inv(),
            old(self)@.collected.len() <= final(self)@.collected.len(),
    {
        proof {
            if self@.inv() {
                State::lemma_moved_keeps_inv(self@, pos@, dir);
            }
            State::lemma_moved_extends(self@, pos@, dir);
        }
        let pos1 = pos.step(dir)?;
        let obj1 = self.farm.get(pos1)?;
        // the higher the wall, the more cattle may be on board
        match obj1 {
            Object::Barn => {
                if self.cow_collection.len() > 0 {
                    return None;
                }
            },
            Object::Crop => {
                if self.cow_collection.len() > 1 {
                    return None;
                }
            },
            Object::Fence => {
                if self.cow_collection.len() > 2 {
                    return None;
                }
            },
            Object::Hay => {
                if self.cow_collection.len() > 3 {
                    return None;
                }
            },
            _ => {},
        }
        let pos2 = pos1.step(dir)?;
        let obj2 = self.farm.get(pos2)?;
        match obj2 {
            Object::Silo => return None,
            Object::RedBull => {
                // once the red bull is on board, the load is one more than the
                // cows, so the two are compared only before that
                if !self.red_bull_picked && self.farm.get_cow_count() != self.cow_collection.len() {
                    return None;
                } else {
                    if !self.has_collected(Object::RedBull) {
                        self.red_bull_picked = true;
                        self.cow_collection.push_back(Object::RedBull);
                    }
                }
            },
            Object::OrangeCow | Object::PurpleCow | Object::AzureCow | Object::YellowCow => {
                if !self.has_collected(obj2) {
                    self.cow_collection.push_back(obj2);
                }
            },
            _ => {},
        }
        self.ufo_pos = pos2;
        Some(pos2)
    }

    /// Whether the puzzle is solved: all cows and the red bull are on board
    /// and the UFO is on the edge of the farm.
    pub fn is_goal(&self) -> (goal: bool)
        ensures
            goal == self@.is_goal(),
    {
        let load = self.cow_collection.len();
        if load == 0 || self.farm.get_cow_count() != load - 1 {
            return false;
        }
        let (x, y) = self.ufo_pos.xy();
        if x == 6 || x == 0 || y == 0 || y == 6 {
            return true;
        } else {
            return false;
        }
    }

    /// The moves that the rules allow from this state: for each direction in
    /// which the UFO can move, in the order North, South, West, East, the
    /// direction and the state that the move leads to, on the same farm.
    pub fn next(&self) -> (next: Vec<(Direction, IotCS<'a>)>)
        ensures
            pairs_view(next@) == self@.successors(),
            self@.inv() ==> forall|i: int|
                0 <= i < next@.len() ==> (#[trigger] next@[i]).1@.inv(),
    {
        let mut next: Vec<(Direction, IotCS<'a>)> = Vec::new();
        let dirs = Direction::values();
        assert(pairs_view(next@) =~= self@.successors_in(0));
        for k in 0..4usize
            invariant
                dirs@ == Direction::all(),
                pairs_view(next@) == self@.successors_in(k as int),
                self@.inv() ==> forall|i: int|
                    0 <= i < next@.len() ==> (#[trigger] next@[i]).1@.inv(),
        {
            let dir = dirs[k];
            let mut nb = self.clone();
            let ghost found = next@;

            if nb.move_ufo(self.ufo_pos, dir).is_some() {
                next.push((dir, nb));
                assert(pairs_view(next@) =~= pairs_view(found) + seq![(dir, nb@)]);
            } else {
                assert(pairs_view(found) + Seq::<(Direction, State)>::empty() =~= pairs_view(
                    found,
                ));
            }
        }

        next
    }
}

impl State {
    /// A move keeps what holds of every state that play can reach.
    pub proof fn lemma_moved_keeps_inv(s: State, from: (int, int), dir: Direction)
        requires
            s.inv(),
        ensures
            s.moved(from, dir) matches Some(t) ==> t.inv(),
    {
        if let Some(t) = s.moved(from, dir) {
            if t.collected != s.collected {
                let o = t.collected.last();
                assert(t.collected == s.collected.push(o));
                assert forall|i: int, j: int|
                    0 <= i < t.collected.len() && 0 <= j < t.collected.len() && i != j implies t.collected[i]
                    != t.collected[j] by {
                    if i < s.collected.len() && j < s.collected.len() {
                        assert(s.collected[i] != s.collected[j]);
                    } else if i < s.collected.len() {
                        assert(s.collected.contains(s.collected[i]));
                    } else {
                        assert(s.collected.contains(s.collected[j]));
                    }
                }
                if t.collected.contains(Object::RedBull) && o != Object::RedBull {
                    let i = choose|i: int|
                        0 <= i < t.collected.len() && t.collected[i] == Object::RedBull;
                    assert(s.collected[i] == Object::RedBull);
                }
                if o == Object::RedBull {
                    assert(t.collected[t.collected.len() - 1] == Object::RedBull);
                }
                if s.collected.contains(Object::RedBull) {
                    let i = choose|i: int|
                        0 <= i < s.collected.len() && s.collected[i] == Object::RedBull;
                    assert(t.collected[i] == Object::RedBull);
                }
            }
        }
    }

    /// However many moves are played, the load never shrinks: what was on
    /// board stays on board, in its order. The farm stays the same, and so
    /// does what holds of every state that play can reach.
    pub proof fn lemma_play_extends(s: State, dirs: Seq<Direction>)
        ensures
            s.played(dirs) matches Some(t) ==> {
                &&& s.collected.len() <= t.collected.len()
                &&& t.collected.take(s.collected.len() as int) == s.collected
                &&& t.farm == s.farm
                &&& s.inv() ==> t.inv()
            },
        decreases dirs.len(),
    {
        if dirs.len() == 0 {
            assert(s.collected.take(s.collected.len() as int) =~= s.collected);
        } else if let Some(next) = s.moved(s.pos, dirs[0]) {
            State::lemma_moved_extends(s, s.pos, dirs[0]);
            if s.inv() {
                State::lemma_moved_keeps_inv(s, s.pos, dirs[0]);
            }
            State::lemma_play_extends(next, dirs.drop_first());
            if let Some(t) = next.played(dirs.drop_first()) {
                assert(t.collected.take(s.collected.len() as int) =~= t.collected.take(
                    next.collected.len() as int,
                ).take(s.collected.len() as int));
            }
        }
    }

    /// Beaming up happens once: a move that ends on the cell of a cow, or of
    /// the red bull, that is already on board leaves the load as it was. In
    /// every case the load after a move is the load before it and, at most,
    /// the animal of the cell on which the UFO came to rest.
    pub proof fn lemma_pickup_happens_once(s: State, from: (int, int), dir: Direction)
        ensures
            s.moved(from, dir) matches Some(t) ==> {
                &&& s.farm.at(t.pos) matches Some(o)
                &&& t.collected == s.load_after(o)
                &&& (s.collected.contains(o) ==> t.collected == s.collected && t.bull_picked
                    == s.bull_picked)
            },
    {
    }

    /// The red bull comes last: a move beams it up only from a state whose
    /// load is as long as the farm has cows, unless the state records that
    /// the red bull was picked before.
    pub proof fn lemma_bull_comes_last(s: State, from: (int, int), dir: Direction)
        ensures
            s.moved(from, dir) matches Some(t) ==> (!s.bull_picked && !s.collected.contains(
                Object::RedBull,
            ) && t.collected.contains(Object::RedBull) ==> s.collected.len() == s.farm.cows()),
    {
        if let Some(t) = s.moved(from, dir) {
            if !s.bull_picked && !s.collected.contains(Object::RedBull) && t.collected.contains(
                Object::RedBull,
            ) {
                let o = s.farm.at(t.pos)->0;
                if o != Object::RedBull {
                    let i = choose|i: int|
                        0 <= i < t.collected.len() && t.collected[i] == Object::RedBull;
                    if i < s.collected.len() {
                        assert(s.collected[i] == Object::RedBull);
                    }
                }
            }
        }
    }

    /// No move ends on the silo, whatever the load: the cell on which the UFO
    /// comes to rest lies on the farm and holds something else.
    pub proof fn lemma_never_rests_on_silo(s: State, from: (int, int), dir: Direction)
        ensures
            s.moved(from, dir) matches Some(t) ==> {
                &&& on_farm(t.pos)
                &&& s.farm.at(t.pos) is Some
                &&& s.farm.at(t.pos) != Some(Object::Silo)
            },
    {
    }

    /// A move takes nothing from the load: what was on board stays, in its
    /// order, and at most one animal comes after it.
    pub proof fn lemma_moved_extends(s: State, from: (int, int), dir: Direction)
        ensures
            s.moved(from, dir) matches Some(t) ==> {
                &&& s.collected.len() <= t.collected.len() <= s.collected.len() + 1
                &&& t.collected.take(s.collected.len() as int) == s.collected
                &&& t.farm == s.farm
            },
    {
        if let Some(t) = s.moved(from, dir) {
            assert(t.collected.take(s.collected.len() as int) =~= s.collected);
        }
    }
}

} // verus!
