//! State of the editor's panels and tools.
use vstd::prelude::*;

verus! {

/// Panel and tool state of the editor. It holds nothing yet.
pub struct AppUI {}

impl AppUI {
    pub fn new() -> (r: AppUI) {
        AppUI {}
    }

    /// Draws the panels; there are none yet, so this does nothing.
    pub fn draw_ui(&mut self)
        ensures
            *final(self) == *old(self),
    {
    }
}

} // verus!
