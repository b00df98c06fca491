//! Failures of the compute pipeline.

use vstd::prelude::*;

verus! {

/// What can go wrong while the pipeline is set up or while a frame is
/// rendered.
#[derive(Debug, PartialEq, Eq)]
pub enum PipelineError {
    /// No compute platform is installed.
    NoPlatformFound,
    /// No platform offers a usable GPU device.
    NoGpuDeviceFound,
    /// The kernel source did not compile; holds the compiler's diagnostics.
    KernelCompileError(String),
    /// The compiled program has no kernel of the requested name.
    EntryPointNotFound,
    /// The device has no double-precision arithmetic.
    UnsupportedPrecision,
    /// A dispatch or a read-back failed; only the current frame is lost.
    GpuExecutionError,
}

impl PipelineError {
    /// Setup errors end the start-up; `GpuExecutionError` alone leaves the
    /// pipeline usable for the next frame.
    pub open spec fn is_setup_fatal(&self) -> bool {
        !(self is GpuExecutionError)
    }

    /// The text that `message` returns: a fixed sentence for each kind, and
    /// for a failed compilation the compiler's diagnostics themselves.
    pub open spec fn message_text(&self) -> Seq<char> {
        match self {
            PipelineError::NoPlatformFound => "no compute platform found"@,
            PipelineError::NoGpuDeviceFound => "no usable GPU device found"@,
            PipelineError::KernelCompileError(diagnostics) => diagnostics@,
            PipelineError::EntryPointNotFound => "kernel entry point not found"@,
            PipelineError::UnsupportedPrecision => "device lacks double precision"@,
            PipelineError::GpuExecutionError => "GPU execution failed"@,
        }
    }

    /// The error in words, for a log or a dialog.
    pub fn message(&self) -> (text: String)
        ensures
            text@ == self.message_text(),
    {
        match self {
            PipelineError::NoPlatformFound => "no compute platform found".to_owned(),
            PipelineError::NoGpuDeviceFound => "no usable GPU device found".to_owned(),
            PipelineError::KernelCompileError(diagnostics) => diagnostics.clone(),
            PipelineError::EntryPointNotFound => "kernel entry point not found".to_owned(),
            PipelineError::UnsupportedPrecision => "device lacks double precision".to_owned(),
            PipelineError::GpuExecutionError => "GPU execution failed".to_owned(),
        }
    }

    /// Whether the error ends the start-up.
    pub fn setup_fatal(&self) -> (fatal: bool)
        ensures
            fatal == self.is_setup_fatal(),
    {
        match self {
            PipelineError::GpuExecutionError => false,
            _ => true,
        }
    }
}

} // verus!
