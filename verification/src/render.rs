//! The host's side of one render: what is fixed before the dispatch, and
//! which frame is shown after it.

use vstd::prelude::*;
use crate::error::PipelineError;
use crate::layout::{addressable, buffer_len, byte_len, pixel_count};
use crate::pixels::PixelBuffer;

verus! {

/// What the host fixes before it dispatches the kernel: the size of the
/// device buffer and the two extents of the compute grid.
#[derive(Debug, Clone, Copy, PartialEq, Eq, Structural)]
pub struct DispatchPlan {
    /// Bytes of the write-only device buffer and of the host array that it is
    /// read back into.
    pub buffer_len: usize,
    /// Work-items along the first axis: one per column.
    pub grid_width: usize,
    /// Work-items along the second axis: one per row.
    pub grid_height: usize,
}

impl DispatchPlan {
    /// The plan of a `width` x `height` image: one work-item per pixel and
    /// four bytes per work-item.
    pub open spec fn matches(&self, width: u32, height: u32) -> bool {
        &&& self.buffer_len == byte_len(width, height)
        &&& self.grid_width == width
        &&& self.grid_height == height
        &&& self.grid_width * self.grid_height == pixel_count(width, height)
    }
}

/// Plans the dispatch for a `width` x `height` image. An image that is not
/// addressable cannot be rendered: that frame fails.
pub fn plan_dispatch(width: u32, height: u32) -> (result: Result<DispatchPlan, PipelineError>)
    ensures
        result is Ok <==> addressable(width, height),
        result matches Ok(plan) ==> plan.matches(width, height),
        result matches Err(e) ==> e == PipelineError::GpuExecutionError,
{
    match buffer_len(width, height) {
        Some(len) => Ok(
            DispatchPlan { buffer_len: len, grid_width: width as usize, grid_height: height as usize },
        ),
        None => Err(PipelineError::GpuExecutionError),
    }
}

/// The frame to show after a render: the new one where the render succeeded,
/// else the previous one again. A failed frame is skipped and the loop goes
/// on.
pub fn frame_to_display(previous: PixelBuffer, rendered: Result<PixelBuffer, PipelineError>) -> (shown:
    PixelBuffer)
    ensures
        shown == (match rendered {
            Ok(frame) => frame,
            Err(_) => previous,
        }),
{
    match rendered {
        Ok(frame) => frame,
        Err(_) => previous,
    }
}

} // verus!
