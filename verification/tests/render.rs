use mandelbrot::error::PipelineError;
use mandelbrot::pixels::PixelBuffer;
use mandelbrot::render::{frame_to_display, plan_dispatch, DispatchPlan};

#[test]
fn plan_has_one_work_item_per_pixel() {
    assert_eq!(
        plan_dispatch(100, 100),
        Ok(DispatchPlan { buffer_len: 40_000, grid_width: 100, grid_height: 100 })
    );
    assert_eq!(
        plan_dispatch(800, 600),
        Ok(DispatchPlan { buffer_len: 1_920_000, grid_width: 800, grid_height: 600 })
    );
    assert_eq!(plan_dispatch(0, 5), Ok(DispatchPlan { buffer_len: 0, grid_width: 0, grid_height: 5 }));
}

#[test]
fn plan_of_oversized_image_fails_the_frame() {
    assert_eq!(plan_dispatch(u32::MAX, u32::MAX), Err(PipelineError::GpuExecutionError));
}

#[test]
fn plan_and_read_back_agree() {
    let plan = plan_dispatch(33, 21).unwrap();
    let read_back = vec![1u8; plan.buffer_len];
    let buffer = PixelBuffer::from_bytes(33, 21, read_back).unwrap();
    assert_eq!(buffer.as_bytes().len(), plan.grid_width * plan.grid_height * 4);
}

#[test]
fn successful_frame_replaces_previous() {
    let previous = PixelBuffer::from_bytes(1, 1, vec![1, 2, 3, 4]).unwrap();
    let rendered = PixelBuffer::from_bytes(1, 1, vec![5, 6, 7, 8]);
    let shown = frame_to_display(previous, rendered);
    assert_eq!(shown.as_bytes(), [5u8, 6, 7, 8].as_slice());
}

#[test]
fn failed_frame_keeps_previous() {
    let previous = PixelBuffer::from_bytes(1, 1, vec![1, 2, 3, 4]).unwrap();
    let shown = frame_to_display(previous, Err(PipelineError::GpuExecutionError));
    assert_eq!(shown.as_bytes(), [1u8, 2, 3, 4].as_slice());
    let again = frame_to_display(shown, PixelBuffer::from_bytes(1, 1, vec![0; 3]));
    assert_eq!(again.as_bytes(), [1u8, 2, 3, 4].as_slice());
}
