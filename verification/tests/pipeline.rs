use mandelbrot::error::PipelineError;
use mandelbrot::pipeline::{
    checked_entry_point, compile_outcome, contains_nul, context_outcome, devices_outcome,
    entry_point_outcome, initialize_opencl, platforms_outcome, precision_outcome, queue_outcome,
    select_gpu_platform, supports_double_precision, Pipeline, DEVICE_TYPE_GPU, KERNEL_ENTRY_POINT,
    MANDELBROT_KERNEL, QUEUE_PROFILING_ENABLE,
};
use opencl3::device::Device;
use opencl3::error_codes::ClError;
use opencl3::platform::Platform;

fn no_usable_gpu(e: &PipelineError) -> bool {
    matches!(
        e,
        PipelineError::NoPlatformFound
            | PipelineError::NoGpuDeviceFound
            | PipelineError::UnsupportedPrecision
    )
}

#[test]
fn constants_are_those_of_opencl() {
    assert_eq!(DEVICE_TYPE_GPU, 4);
    assert_eq!(QUEUE_PROFILING_ENABLE, 2);
    assert_eq!(DEVICE_TYPE_GPU, opencl3::device::CL_DEVICE_TYPE_GPU);
    assert_eq!(QUEUE_PROFILING_ENABLE, opencl3::command_queue::CL_QUEUE_PROFILING_ENABLE);
}

#[test]
fn setup_is_repeatable() {
    let first = initialize_opencl().map(|_| ());
    let second = initialize_opencl().map(|_| ());
    assert_eq!(first, second);
}

#[test]
fn failed_enumeration_is_no_platform() {
    match platforms_outcome(Err(ClError(-1001))) {
        Err(e) => assert_eq!(e, PipelineError::NoPlatformFound),
        Ok(_) => panic!("a failed enumeration gives no platforms"),
    }
    match platforms_outcome(Err(ClError(-2000))) {
        Err(e) => assert_eq!(e, PipelineError::NoPlatformFound),
        Ok(_) => panic!("a failed enumeration gives no platforms"),
    }
}

#[test]
fn enumerated_platforms_are_handed_on() {
    match platforms_outcome(Ok(Vec::new())) {
        Ok(platforms) => assert!(platforms.is_empty()),
        Err(e) => panic!("unexpected error {:?}", e),
    }
    let listed = vec![
        Platform::new(std::ptr::null_mut()),
        Platform::new(std::ptr::null_mut()),
        Platform::new(std::ptr::null_mut()),
    ];
    match platforms_outcome(Ok(listed)) {
        Ok(platforms) => assert_eq!(platforms.len(), 3),
        Err(e) => panic!("unexpected error {:?}", e),
    }
}

#[test]
fn failed_device_query_counts_as_no_device() {
    assert!(devices_outcome(Err(ClError(-1))).is_empty());
    assert!(devices_outcome(Err(ClError(-30))).is_empty());
}

#[test]
fn queried_devices_are_handed_on() {
    assert!(devices_outcome(Ok(Vec::new())).is_empty());
    let found = vec![Device::new(std::ptr::null_mut()), Device::new(std::ptr::null_mut())];
    assert_eq!(devices_outcome(Ok(found)).len(), 2);
}

#[test]
fn device_query_outcomes_feed_the_selection() {
    let answers = vec![
        Err(ClError(-1)),
        Ok(Vec::new()),
        Ok(vec![Device::new(std::ptr::null_mut())]),
        Ok(vec![Device::new(std::ptr::null_mut()), Device::new(std::ptr::null_mut())]),
    ];
    let counts: Vec<usize> = answers.into_iter().map(|a| devices_outcome(a).len()).collect();
    assert_eq!(counts, vec![0, 0, 1, 2]);
    assert_eq!(select_gpu_platform(&counts), Ok(2));
}

#[test]
fn missing_double_precision_ends_the_setup() {
    assert_eq!(precision_outcome(Ok(0)), Err(PipelineError::UnsupportedPrecision));
    assert_eq!(precision_outcome(Err(ClError(-30))), Err(PipelineError::UnsupportedPrecision));
    assert_eq!(precision_outcome(Err(ClError(0))), Err(PipelineError::UnsupportedPrecision));
}

#[test]
fn any_double_precision_capability_passes() {
    assert_eq!(precision_outcome(Ok(1)), Ok(()));
    assert_eq!(precision_outcome(Ok(0x3f)), Ok(()));
    assert_eq!(precision_outcome(Ok(u64::MAX)), Ok(()));
}

#[test]
fn refused_context_is_no_usable_device() {
    match context_outcome(Err(ClError(-5))) {
        Err(e) => assert_eq!(e, PipelineError::NoGpuDeviceFound),
        Ok(_) => panic!("a refused context cannot be handed on"),
    }
}

#[test]
fn refused_queue_is_no_usable_device() {
    match queue_outcome(Err(ClError(-35))) {
        Err(e) => assert_eq!(e, PipelineError::NoGpuDeviceFound),
        Ok(_) => panic!("a refused queue cannot be handed on"),
    }
}

#[test]
fn failed_build_carries_the_compiler_text() {
    let log = "CL_BUILD_PROGRAM_FAILURE, build log: <kernel>:7:12: error: expected ';'";
    match compile_outcome(Err(String::from(log))) {
        Err(PipelineError::KernelCompileError(diagnostics)) => assert_eq!(diagnostics, log),
        Err(e) => panic!("unexpected error {:?}", e),
        Ok(_) => panic!("a failed build cannot give a program"),
    }
    match compile_outcome(Err(String::new())) {
        Err(PipelineError::KernelCompileError(diagnostics)) => assert!(diagnostics.is_empty()),
        Err(e) => panic!("unexpected error {:?}", e),
        Ok(_) => panic!("a failed build cannot give a program"),
    }
}

#[test]
fn refused_kernel_is_missing_entry_point() {
    match entry_point_outcome(Err(ClError(-46))) {
        Err(e) => assert_eq!(e, PipelineError::EntryPointNotFound),
        Ok(_) => panic!("a refused kernel cannot be handed on"),
    }
}

#[test]
fn name_with_nul_is_missing_entry_point() {
    assert_eq!(checked_entry_point("mandelbrot"), Ok(()));
    assert_eq!(checked_entry_point(KERNEL_ENTRY_POINT), Ok(()));
    assert_eq!(checked_entry_point(""), Ok(()));
    assert_eq!(checked_entry_point("mandel\0brot"), Err(PipelineError::EntryPointNotFound));
    assert_eq!(checked_entry_point("\0"), Err(PipelineError::EntryPointNotFound));
}

#[test]
fn broken_source_reports_diagnostics() {
    match Pipeline::new("this is no kernel at all {", KERNEL_ENTRY_POINT) {
        Ok(_) => panic!("a source that does not compile cannot give a pipeline"),
        Err(PipelineError::KernelCompileError(diagnostics)) => assert!(!diagnostics.is_empty()),
        Err(e) => assert!(no_usable_gpu(&e), "unexpected error {:?}", e),
    }
}

#[test]
fn missing_entry_point_is_reported() {
    match Pipeline::new(MANDELBROT_KERNEL, "no_such_kernel") {
        Ok(_) => panic!("the source has no kernel of that name"),
        Err(PipelineError::EntryPointNotFound) => {}
        Err(e) => assert!(no_usable_gpu(&e), "unexpected error {:?}", e),
    }
}

#[test]
fn messages_name_the_failure() {
    assert_eq!(PipelineError::NoPlatformFound.message(), "no compute platform found");
    assert_eq!(PipelineError::NoGpuDeviceFound.message(), "no usable GPU device found");
    assert_eq!(PipelineError::EntryPointNotFound.message(), "kernel entry point not found");
    assert_eq!(PipelineError::UnsupportedPrecision.message(), "device lacks double precision");
    assert_eq!(PipelineError::GpuExecutionError.message(), "GPU execution failed");
}

#[test]
fn compile_error_surfaces_the_diagnostics() {
    let log = "CL_BUILD_PROGRAM_FAILURE, build log: <kernel>:3:5: error: use of undeclared identifier";
    let error = PipelineError::KernelCompileError(String::from(log));
    assert_eq!(error.message(), log);
    assert!(error.setup_fatal());
}

#[test]
fn no_platform_at_all() {
    assert_eq!(select_gpu_platform(&Vec::new()), Err(PipelineError::NoPlatformFound));
}

#[test]
fn platforms_without_gpu() {
    assert_eq!(select_gpu_platform(&vec![0]), Err(PipelineError::NoGpuDeviceFound));
    assert_eq!(select_gpu_platform(&vec![0, 0, 0]), Err(PipelineError::NoGpuDeviceFound));
}

#[test]
fn first_platform_with_gpu_is_chosen() {
    assert_eq!(select_gpu_platform(&vec![1]), Ok(0));
    assert_eq!(select_gpu_platform(&vec![0, 2, 1]), Ok(1));
    assert_eq!(select_gpu_platform(&vec![0, 0, 4]), Ok(2));
    assert_eq!(select_gpu_platform(&vec![3, 0, 4]), Ok(0));
}

#[test]
fn double_precision_needs_some_capability() {
    assert!(!supports_double_precision(0));
    assert!(supports_double_precision(1));
    assert!(supports_double_precision(0x3f));
    assert!(supports_double_precision(u64::MAX));
}

#[test]
fn nul_is_found_anywhere() {
    assert!(!contains_nul(""));
    assert!(!contains_nul("mandelbrot"));
    assert!(!contains_nul(KERNEL_ENTRY_POINT));
    assert!(contains_nul("\0"));
    assert!(contains_nul("mandel\0brot"));
    assert!(contains_nul("mandelbrot\0"));
    assert!(!contains_nul("m\u{e4}ndelbrot0"));
}

#[test]
fn kernel_source_names_its_entry_point() {
    assert_eq!(KERNEL_ENTRY_POINT, "mandelbrot");
    assert!(MANDELBROT_KERNEL.contains("__kernel void mandelbrot("));
    assert!(MANDELBROT_KERNEL.contains("cl_khr_fp64"));
    assert!(!contains_nul(MANDELBROT_KERNEL));
}

#[test]
fn setup_fails_only_with_setup_errors() {
    match initialize_opencl() {
        Ok(_) => {}
        Err(e) => {
            assert!(e.setup_fatal());
            assert_ne!(e, PipelineError::GpuExecutionError);
        }
    }
}

#[test]
fn entry_point_with_nul_is_never_found() {
    match Pipeline::new(MANDELBROT_KERNEL, "mandel\0brot") {
        Ok(_) => panic!("a name with a NUL character cannot be an entry point"),
        Err(PipelineError::EntryPointNotFound) => {}
        Err(e) => assert!(no_usable_gpu(&e), "unexpected error {:?}", e),
    }
}

#[test]
fn only_execution_errors_are_recoverable() {
    assert!(PipelineError::NoPlatformFound.setup_fatal());
    assert!(PipelineError::NoGpuDeviceFound.setup_fatal());
    assert!(PipelineError::KernelCompileError(String::from("line 3: error")).setup_fatal());
    assert!(PipelineError::EntryPointNotFound.setup_fatal());
    assert!(PipelineError::UnsupportedPrecision.setup_fatal());
    assert!(!PipelineError::GpuExecutionError.setup_fatal());
}
