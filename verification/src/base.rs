//! Shared editor enums: the active drawing mode and how much to redraw.

use vstd::prelude::*;

verus! {

/// Which tool the editor is in.
#[derive(PartialEq, Eq, Structural, Copy, Clone, Debug)]
pub enum DrawModeType {
    SelectMode,
    LineMode,
}

/// Whether a change needs a full redraw or none.
#[derive(PartialEq, Eq, Structural, Copy, Clone, Debug)]
pub enum DrawOption {
    Remain,
    DrawAll,
}

} // verus!
