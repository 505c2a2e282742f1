//! What the pointer does on the seek bar. Times are milliseconds.

use vstd::prelude::*;

verus! {

/// The seek bar under the pointer.
#[derive(Debug, Clone, Copy, PartialEq, Eq, Structural)]
pub struct SeekBarState {
    /// The time that the pointer is over, shown beside it.
    pub hover: Option<i64>,
    /// The time that the bar is dragged to. It is gone to once the bar is let go.
    pub drag: Option<i64>,
}

impl Default for SeekBarState {
    fn default() -> (r: Self)
        ensures
            r == Self::untouched(),
    {
        SeekBarState { hover: None, drag: None }
    }
}

impl SeekBarState {
    /// The pointer is not on the bar.
    pub open spec fn untouched() -> Self {
        SeekBarState { hover: None, drag: None }
    }

    /// The bar without the time under the pointer.
    pub open spec fn without_hover(self) -> Self {
        SeekBarState { hover: None, ..self }
    }

    /// A key makes the time under the pointer old.
    pub fn clear_hover(&mut self)
        ensures
            *final(self) == old(self).without_hover(),
    {
        self.hover = None;
    }
}

/// Clearing the time under the pointer keeps what is dragged, and a bar that is not touched
/// has neither.
pub proof fn law_dragging_outlives_the_pointer(bar: SeekBarState)
    ensures
        bar.without_hover().hover is None,
        bar.without_hover().drag == bar.drag,
        SeekBarState::untouched().hover is None,
        SeekBarState::untouched().drag is None,
{
}

} // verus!
