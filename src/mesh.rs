//! Data that the mesh of a shape carries

use vstd::prelude::*;

verus! {

/// RGBA color
#[derive(Clone, Copy, Debug, Eq, PartialEq, Hash, Ord, PartialOrd)]
pub struct Color(pub [u8; 4]);

impl Default for Color {
    /// The default color is red
    fn default() -> (r: Self)
        ensures
            r.0@ == seq![255u8, 0u8, 0u8, 255u8],
    {
        let r = Color([255, 0, 0, 255]);
        assert(r.0@ =~= seq![255u8, 0u8, 0u8, 255u8]);
        r
    }
}

} // verus!
