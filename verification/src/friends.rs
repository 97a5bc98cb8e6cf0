//! Values used when asking the service about friends.

use vstd::prelude::*;

verus! {

/// The three sizes in which the service keeps an avatar. Avatars are
/// square.
#[allow(non_camel_case_types)]
#[derive(Clone, Copy, Debug, PartialEq, Eq, Structural)]
pub enum ImageSize {
    LARGE,
    MEDIUM,
    SMALL,
}

impl ImageSize {
    /// Length in pixels of one side of an avatar of this size.
    pub open spec fn pixels(self) -> nat {
        match self {
            ImageSize::LARGE => 184,
            ImageSize::MEDIUM => 64,
            ImageSize::SMALL => 32,
        }
    }

    /// Length in pixels of one side of an avatar of this size.
    pub fn side(&self) -> (px: u32)
        ensures
            px == self.pixels(),
    {
        match self {
            ImageSize::LARGE => 184,
            ImageSize::MEDIUM => 64,
            ImageSize::SMALL => 32,
        }
    }

    /// Number of bytes an avatar of this size takes as RGBA, four bytes to
    /// the pixel.
    pub fn rgba_len(&self) -> (len: usize)
        ensures
            len == self.pixels() * self.pixels() * 4,
    {
        let side = self.side() as usize;
        assert(side * side * 4 == self.pixels() * self.pixels() * 4 && side * side * 4 <= 135424) by {
            assert(184 * 184 * 4 == 135424 && 64 * 64 * 4 == 16384 && 32 * 32 * 4 == 4096);
        }
        side * side * 4
    }
}

} // verus!
