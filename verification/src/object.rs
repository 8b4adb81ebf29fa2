//! What a cell of the farm can hold.

use vstd::prelude::*;

verus! {

/// The content of one cell of the farm.
#[derive(Debug, Copy, Clone, PartialEq, Eq, Hash, Structural)]
pub enum Object {
    UFO,
    AzureCow,
    YellowCow,
    PurpleCow,
    OrangeCow,
    RedBull,
    Barn,
    Crop,
    Hay,
    Fence,
    Silo,
    Wall1,
    Wall2,
    Corner,
    Empty,
}

impl Object {
    /// One of the four cows.
    pub open spec fn spec_is_cow(&self) -> bool {
        *self == Object::AzureCow || *self == Object::YellowCow || *self == Object::PurpleCow || *self
            == Object::OrangeCow
    }

    /// A wall that the UFO may have to push over: barn, crop, fence or hay.
    /// The edge glyphs `Wall1` and `Wall2` are terrain, not walls.
    pub open spec fn spec_is_wall(&self) -> bool {
        *self == Object::Barn || *self == Object::Crop || *self == Object::Fence || *self
            == Object::Hay
    }

    /// What the UFO can beam up: a cow or the red bull.
    pub open spec fn is_cattle(&self) -> bool {
        self.spec_is_cow() || *self == Object::RedBull
    }

    /// The greatest number of beamed-up cattle with which the UFO still gets
    /// over this object: 0 for a barn, 1 for crop, 2 for a fence, 3 for hay.
    /// `None` for every object that is no wall.
    pub open spec fn height_limit(self) -> Option<nat> {
        match self {
            Object::Barn => Some(0),
            Object::Crop => Some(1),
            Object::Fence => Some(2),
            Object::Hay => Some(3),
            _ => None,
        }
    }

    /// The character that stands for this object in a farm's text.
    pub open spec fn glyph(self) -> char {
        match self {
            Object::UFO => 'U',
            Object::AzureCow => 'A',
            Object::YellowCow => 'Y',
            Object::PurpleCow => 'P',
            Object::OrangeCow => 'O',
            Object::RedBull => 'R',
            Object::Barn => 'B',
            Object::Crop => 'C',
            Object::Hay => 'H',
            Object::Fence => 'F',
            Object::Silo => 'S',
            Object::Wall1 => '|',
            Object::Wall2 => '-',
            Object::Corner => '+',
            Object::Empty => ' ',
        }
    }

    /// The object that a character of a farm's text stands for, if any.
    pub open spec fn of_glyph(c: char) -> Option<Object> {
        if c == 'U' {
            Some(Object::UFO)
        } else if c == 'A' {
            Some(Object::AzureCow)
        } else if c == 'Y' {
            Some(Object::YellowCow)
        } else if c == 'P' {
            Some(Object::PurpleCow)
        } else if c == 'O' {
            Some(Object::OrangeCow)
        } else if c == 'R' {
            Some(Object::RedBull)
        } else if c == 'B' {
            Some(Object::Barn)
        } else if c == 'C' {
            Some(Object::Crop)
        } else if c == 'H' {
            Some(Object::Hay)
        } else if c == 'F' {
            Some(Object::Fence)
        } else if c == 'S' {
            Some(Object::Silo)
        } else if c == '|' {
            Some(Object::Wall1)
        } else if c == '-' {
            Some(Object::Wall2)
        } else if c == '+' {
            Some(Object::Corner)
        } else if c == ' ' {
            Some(Object::Empty)
        } else {
            None
        }
    }

    #[verifier::when_used_as_spec(spec_is_cow)]
    pub fn is_cow(&self) -> (b: bool)
        ensures
            b == self.spec_is_cow(),
    {
        matches!(
            self,
            Object::AzureCow | Object::YellowCow | Object::PurpleCow | Object::OrangeCow
        )
    }

    pub fn is_bull(&self) -> (b: bool)
        ensures
            b == (*self == Object::RedBull),
    {
        matches!(self, Object::RedBull)
    }

    pub fn is_ufo(&self) -> (b: bool)
        ensures
            b == (*self == Object::UFO),
    {
        matches!(self, Object::UFO)
    }

    #[verifier::when_used_as_spec(spec_is_wall)]
    pub fn is_wall(&self) -> (b: bool)
        ensures
            b == self.spec_is_wall(),
    {
        matches!(self, Object::Barn | Object::Hay | Object::Crop | Object::Fence)
    }

    /// The object's glyph as a text of one character.
    pub fn to_string(&self) -> (s: String)
        ensures
            s@ == seq![self.glyph()],
    {
        let s = self.glyph_str();
        s.to_owned()
    }

    /// The object's glyph as a literal of one character.
    pub(crate) fn glyph_str(&self) -> (s: &'static str)
        ensures
            s@ == seq![self.glyph()],
    {
        proof {
            reveal_strlit("U");
            reveal_strlit("A");
            reveal_strlit("Y");
            reveal_strlit("P");
            reveal_strlit("O");
            reveal_strlit("R");
            reveal_strlit("B");
            reveal_strlit("C");
            reveal_strlit("H");
            reveal_strlit("F");
            reveal_strlit("S");
            reveal_strlit("|");
            reveal_strlit("-");
            reveal_strlit("+");
            reveal_strlit(" ");
        }
        let s = match self {
            Object::UFO => "U",
            Object::AzureCow => "A",
            Object::YellowCow => "Y",
            Object::PurpleCow => "P",
            Object::OrangeCow => "O",
            Object::RedBull => "R",
            Object::Barn => "B",
            Object::Crop => "C",
            Object::Hay => "H",
            Object::Fence => "F",
            Object::Silo => "S",
            Object::Wall1 => "|",
            Object::Wall2 => "-",
            Object::Corner => "+",
            Object::Empty => " ",
        };
        assert(s@ =~= seq![self.glyph()]);
        s
    }

    /// Every object is the object of its own glyph, so a farm's text holds
    /// what its cells hold.
    pub proof fn lemma_glyph_round_trip(o: Object)
        ensures
            Object::of_glyph(o.glyph()) == Some(o),
    {
    }
}

} // verus!
