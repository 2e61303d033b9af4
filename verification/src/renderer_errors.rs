//! What can go wrong while a frame is drawn.

use vstd::prelude::*;

verus! {

/// The step of drawing a frame that failed.
#[derive(Debug, PartialEq, Eq, Clone, Copy, Structural)]
pub enum DrawingError {
    AcquireAnImageFromSwapchain,
    WaitOnFence,
    ResetFence,
    PresentIntoSwapchain,
    BufferCreationError,
}

impl DrawingError {
    /// The text that describes the error.
    pub open spec fn text(self) -> Seq<char> {
        match self {
            DrawingError::AcquireAnImageFromSwapchain => "Error in Drawing AcquireAnImageFromSwapchain"@,
            DrawingError::WaitOnFence => "Error in Drawing WaitOnFence"@,
            DrawingError::ResetFence => "Error in Drawing ResetFence"@,
            DrawingError::PresentIntoSwapchain => "Error in Drawing PresentIntoSwapchain"@,
            DrawingError::BufferCreationError => "Error in Drawing BufferCreationError"@,
        }
    }

    /// Whether drawing can go on once the swapchain is built anew; the
    /// other errors call for a new renderer.
    pub open spec fn swapchain_is_stale(self) -> bool {
        self == DrawingError::AcquireAnImageFromSwapchain || self
            == DrawingError::PresentIntoSwapchain
    }

    /// Describes the error.
    pub fn message(&self) -> (text: &'static str)
        ensures
            text@ == self.text(),
    {
        match self {
            DrawingError::AcquireAnImageFromSwapchain => "Error in Drawing AcquireAnImageFromSwapchain",
            DrawingError::WaitOnFence => "Error in Drawing WaitOnFence",
            DrawingError::ResetFence => "Error in Drawing ResetFence",
            DrawingError::PresentIntoSwapchain => "Error in Drawing PresentIntoSwapchain",
            DrawingError::BufferCreationError => "Error in Drawing BufferCreationError",
        }
    }

    /// Tells whether the error is mended by building the swapchain anew.
    pub fn needs_new_swapchain(&self) -> (stale: bool)
        ensures
            stale == self.swapchain_is_stale(),
    {
        match self {
            DrawingError::AcquireAnImageFromSwapchain | DrawingError::PresentIntoSwapchain => true,
            DrawingError::ResetFence
            | DrawingError::WaitOnFence
            | DrawingError::BufferCreationError => false,
        }
    }
}

} // verus!
