//! What a worker thread may ask of the thread that owns the user interface.
//!
//! A worker never touches the state of the user interface. It hands a request
//! to the scheduler of the interface thread, which runs the requests of one
//! sender in the order in which they were handed over.

use vstd::prelude::*;

verus! {

/// Identifies a tab of a window.
pub type TabId = usize;

/// Identifies a pane: the rectangle of terminal content that an overlay covers.
pub type PaneId = usize;

/// Identifies a window.
pub type WindowId = usize;

/// A change of interface state, to be carried out on the interface thread.
#[derive(Debug, Clone, Copy, PartialEq, Eq, Structural)]
pub enum UiRequest {
    /// Make the tab at position `index` the active tab of `window`.
    ActivateTab { window: WindowId, index: usize },
    /// Discard the placeholder that covers `pane` and show the pane again.
    /// Carrying this out twice is the same as carrying it out once.
    CancelOverlay { pane: PaneId },
}

/// Why an overlay ended without doing its work.
#[derive(Debug, Clone, Copy, PartialEq, Eq, Structural)]
pub enum OverlayError {
    /// No surface could be had for the dimensions of the pane.
    AllocationFailure,
    /// The display refused a change-set.
    RenderFailure,
}

} // verus!
