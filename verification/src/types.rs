//! The two closed enumerations every other component is typed over, and small
//! set types over them.

use vstd::prelude::*;

verus! {

/// One of the four element tags partitioning every pool.
#[derive(Clone, Copy, PartialEq, Eq, Structural, Debug, Hash)]
pub enum Color {
    Red,
    Blue,
    Green,
    Colorless,
}

/// One of the five weighted draw categories of a pull.
#[derive(Clone, Copy, PartialEq, Eq, Structural, Debug, Hash)]
pub enum Pool {
    Focus,
    Fivestar,
    FourstarFocus,
    FourstarSpecial,
    Common,
}

impl Color {
    /// The position of this color in a per-color array.
    pub open spec fn as_index(self) -> int {
        match self {
            Color::Red => 0,
            Color::Blue => 1,
            Color::Green => 2,
            Color::Colorless => 3,
        }
    }

    pub fn index(self) -> (i: usize)
        ensures
            i as int == self.as_index(),
    {
        match self {
            Color::Red => 0,
            Color::Blue => 1,
            Color::Green => 2,
            Color::Colorless => 3,
        }
    }

    pub open spec fn spec_from_index(value: int) -> Option<Color> {
        if value == 0 {
            Some(Color::Red)
        } else if value == 1 {
            Some(Color::Blue)
        } else if value == 2 {
            Some(Color::Green)
        } else if value == 3 {
            Some(Color::Colorless)
        } else {
            None
        }
    }

    pub fn from_index(value: usize) -> (r: Option<Color>)
        ensures
            r == Color::spec_from_index(value as int),
    {
        match value {
            0 => Some(Color::Red),
            1 => Some(Color::Blue),
            2 => Some(Color::Green),
            3 => Some(Color::Colorless),
            _ => None,
        }
    }
}

impl Pool {
    /// The position of this pool in a per-pool array.
    pub open spec fn as_index(self) -> int {
        match self {
            Pool::Focus => 0,
            Pool::Fivestar => 1,
            Pool::FourstarFocus => 2,
            Pool::FourstarSpecial => 3,
            Pool::Common => 4,
        }
    }

    pub fn index(self) -> (i: usize)
        ensures
            i as int == self.as_index(),
    {
        match self {
            Pool::Focus => 0,
            Pool::Fivestar => 1,
            Pool::FourstarFocus => 2,
            Pool::FourstarSpecial => 3,
            Pool::Common => 4,
        }
    }

    pub open spec fn spec_from_index(value: int) -> Option<Pool> {
        if value == 0 {
            Some(Pool::Focus)
        } else if value == 1 {
            Some(Pool::Fivestar)
        } else if value == 2 {
            Some(Pool::FourstarFocus)
        } else if value == 3 {
            Some(Pool::FourstarSpecial)
        } else if value == 4 {
            Some(Pool::Common)
        } else {
            None
        }
    }

    pub fn from_index(value: usize) -> (r: Option<Pool>)
        ensures
            r == Pool::spec_from_index(value as int),
    {
        match value {
            0 => Some(Pool::Focus),
            1 => Some(Pool::Fivestar),
            2 => Some(Pool::FourstarFocus),
            3 => Some(Pool::FourstarSpecial),
            4 => Some(Pool::Common),
            _ => None,
        }
    }
}

/// A set of colors, stored as one flag per color.
#[derive(Clone, Copy, PartialEq, Eq, Structural, Debug)]
pub struct ColorSet {
    pub red: bool,
    pub blue: bool,
    pub green: bool,
    pub colorless: bool,
}

impl ColorSet {
    pub open spec fn spec_contains(self, c: Color) -> bool {
        match c {
            Color::Red => self.red,
            Color::Blue => self.blue,
            Color::Green => self.green,
            Color::Colorless => self.colorless,
        }
    }

    pub fn empty() -> (s: ColorSet)
        ensures
            forall|c: Color| !s.spec_contains(c),
    {
        ColorSet { red: false, blue: false, green: false, colorless: false }
    }

    pub fn contains(&self, c: Color) -> (r: bool)
        ensures
            r == self.spec_contains(c),
    {
        match c {
            Color::Red => self.red,
            Color::Blue => self.blue,
            Color::Green => self.green,
            Color::Colorless => self.colorless,
        }
    }

    /// This set with one more color in it.
    pub fn with(self, c: Color) -> (s: ColorSet)
        ensures
            forall|d: Color| s.spec_contains(d) == (d == c || self.spec_contains(d)),
    {
        match c {
            Color::Red => ColorSet { red: true, ..self },
            Color::Blue => ColorSet { blue: true, ..self },
            Color::Green => ColorSet { green: true, ..self },
            Color::Colorless => ColorSet { colorless: true, ..self },
        }
    }
}

/// A set of pools, stored as one flag per pool.
#[derive(Clone, Copy, PartialEq, Eq, Structural, Debug)]
pub struct PoolSet {
    pub focus: bool,
    pub fivestar: bool,
    pub fourstar_focus: bool,
    pub fourstar_special: bool,
    pub common: bool,
}

impl PoolSet {
    pub open spec fn spec_contains(self, p: Pool) -> bool {
        match p {
            Pool::Focus => self.focus,
            Pool::Fivestar => self.fivestar,
            Pool::FourstarFocus => self.fourstar_focus,
            Pool::FourstarSpecial => self.fourstar_special,
            Pool::Common => self.common,
        }
    }

    pub fn empty() -> (s: PoolSet)
        ensures
            forall|p: Pool| !s.spec_contains(p),
    {
        PoolSet {
            focus: false,
            fivestar: false,
            fourstar_focus: false,
            fourstar_special: false,
            common: false,
        }
    }

    /// The set holding exactly one pool.
    pub fn single(p: Pool) -> (s: PoolSet)
        ensures
            forall|q: Pool| s.spec_contains(q) == (q == p),
    {
        PoolSet::empty().with(p)
    }

    pub fn contains(&self, p: Pool) -> (r: bool)
        ensures
            r == self.spec_contains(p),
    {
        match p {
            Pool::Focus => self.focus,
            Pool::Fivestar => self.fivestar,
            Pool::FourstarFocus => self.fourstar_focus,
            Pool::FourstarSpecial => self.fourstar_special,
            Pool::Common => self.common,
        }
    }

    /// This set with one more pool in it.
    pub fn with(self, p: Pool) -> (s: PoolSet)
        ensures
            forall|q: Pool| s.spec_contains(q) == (q == p || self.spec_contains(q)),
    {
        match p {
            Pool::Focus => PoolSet { focus: true, ..self },
            Pool::Fivestar => PoolSet { fivestar: true, ..self },
            Pool::FourstarFocus => PoolSet { fourstar_focus: true, ..self },
            Pool::FourstarSpecial => PoolSet { fourstar_special: true, ..self },
            Pool::Common => PoolSet { common: true, ..self },
        }
    }
}

} // verus!
