//! The palette: the colors of an image in the order of their weight.

use vstd::prelude::*;
use crate::color::Color;

verus! {

/// No palette holds more colors than this.
pub const MAX_PALETTE_LEN: usize = 255;

/// An ordered sequence of at most `MAX_PALETTE_LEN` colors. The order is the
/// one in which the colors were handed in, and nothing changes it.
#[derive(Debug, PartialEq, Eq)]
pub struct Palette {
    colors: Vec<Color>,
}

impl View for Palette {
    type V = Seq<Color>;

    closed spec fn view(&self) -> Seq<Color> {
        self.colors@
    }
}

impl Clone for Palette {
    fn clone(&self) -> (copy: Palette)
        ensures
            copy@ == self@,
    {
        proof {
            use_type_invariant(self);
        }
        let colors = self.colors.clone();
        assert(colors@ =~= self.colors@);
        Palette { colors }
    }
}

impl Palette {
    #[verifier::type_invariant]
    spec fn within_limit(&self) -> bool {
        self.colors@.len() <= MAX_PALETTE_LEN
    }

    /// The palette of the given colors, in their order; `None` when there are
    /// more than `MAX_PALETTE_LEN` of them.
    pub fn from_colors(colors: Vec<Color>) -> (palette: Option<Palette>)
        ensures
            colors@.len() <= MAX_PALETTE_LEN <==> palette is Some,
            palette matches Some(p) ==> p@ == colors@,
    {
        if colors.len() <= MAX_PALETTE_LEN {
            Some(Palette { colors })
        } else {
            None
        }
    }

    /// The first `limit` of the given colors, or all of them where there are
    /// fewer.
    pub fn from_leading_colors(colors: Vec<Color>, limit: u8) -> (palette: Palette)
        ensures
            palette@ == leading(colors@, limit as nat),
    {
        let mut colors = colors;
        colors.truncate(limit as usize);
        Palette { colors }
    }

    pub fn len(&self) -> (n: usize)
        ensures
            n == self@.len(),
            n <= MAX_PALETTE_LEN,
    {
        proof {
            use_type_invariant(self);
        }
        self.colors.len()
    }

    pub fn is_empty(&self) -> (empty: bool)
        ensures
            empty <==> self@.len() == 0,
    {
        self.colors.len() == 0
    }

    /// The color at position `i`, counted from 0.
    pub fn get(&self, i: usize) -> (color: Color)
        requires
            i < self@.len(),
        ensures
            color == self@[i as int],
    {
        self.colors[i]
    }

    pub fn colors(&self) -> (colors: &Vec<Color>)
        ensures
            colors@ == self@,
    {
        &self.colors
    }
}

/// The first `limit` items of `colors`, or all of them where there are fewer.
pub open spec fn leading(colors: Seq<Color>, limit: nat) -> Seq<Color> {
    if colors.len() <= limit {
        colors
    } else {
        colors.take(limit as int)
    }
}

} // verus!
