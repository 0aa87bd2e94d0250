//! Nametable mirroring arrangements resolved by the VRAM device.

use vstd::prelude::*;

verus! {

/// How the two physical nametables are aliased over the four logical
/// nametable quadrants of `$2000-$2FFF`.
#[derive(Clone, Copy, PartialEq, Eq, Structural, Debug)]
pub enum Mirroring {
    Horizontal,
    Vertical,
}

} // verus!
