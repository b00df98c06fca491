//! One-time setup of the compute pipeline: platform, GPU device, context,
//! command queue, compiled program and kernel.

use vstd::prelude::*;
use vstd::string::StrSliceExecFns;
use opencl3::command_queue::CommandQueue;
use opencl3::context::Context;
use opencl3::device::Device;
use opencl3::error_codes::ClError;
use opencl3::kernel::Kernel;
use opencl3::platform::{get_platforms, Platform};
use opencl3::program::Program;
use crate::error::PipelineError;

verus! {

/// `opencl3::platform::Platform`, the id of a compute platform. Opaque here.
#[verifier::external_type_specification]
#[verifier::external_body]
pub struct ExPlatform(Platform);

/// `opencl3::device::Device`, the id of a compute device. Opaque here.
#[verifier::external_type_specification]
#[verifier::external_body]
pub struct ExDevice(Device);

/// `opencl3::context::Context`, an owned compute context. Opaque here.
#[verifier::external_type_specification]
#[verifier::external_body]
pub struct ExContext(Context);

/// `opencl3::command_queue::CommandQueue`, an owned command queue. Opaque here.
#[verifier::external_type_specification]
#[verifier::external_body]
pub struct ExCommandQueue(CommandQueue);

/// `opencl3::program::Program`, an owned compiled program. Opaque here.
#[verifier::external_type_specification]
#[verifier::external_body]
pub struct ExProgram(Program);

/// `opencl3::kernel::Kernel`, an owned kernel object. Opaque here.
#[verifier::external_type_specification]
#[verifier::external_body]
pub struct ExKernel(Kernel);

/// `opencl3::error_codes::ClError`, the status code of a failed call. Opaque
/// here.
#[verifier::external_type_specification]
#[verifier::external_body]
pub struct ExClError(ClError);

/// The device-type bit of GPU devices, OpenCL's `CL_DEVICE_TYPE_GPU`. Only
/// devices of this type are asked for: there is no fallback to a CPU.
pub const DEVICE_TYPE_GPU: u64 = 1 << 2;

/// The command-queue property bit that enables profiling, OpenCL's
/// `CL_QUEUE_PROFILING_ENABLE`.
pub const QUEUE_PROFILING_ENABLE: u64 = 1 << 1;

/// Number of devices that a context was created for, as `Context::devices`
/// hands them out.
pub uninterp spec fn context_device_count(context: Context) -> nat;

/// The text holds a NUL character.
pub open spec fn has_nul(text: Seq<char>) -> bool {
    exists|i: int| 0 <= i < text.len() && text[i] == '\0'
}

/// `opencl3::platform::get_platforms`: the platforms installed on this
/// machine, or the driver's status code. Nothing is promised of either.
#[verifier::external_body]
fn list_platforms() -> (platforms: Result<Vec<Platform>, ClError>)
{
    get_platforms()
}

/// `Platform::get_devices`: the platform's devices of the given type, each id
/// wrapped by `Device::new`, or the driver's status code. Nothing is promised
/// of either.
#[verifier::external_body]
fn devices_of_type(platform: &Platform, device_type: u64) -> (devices: Result<Vec<Device>, ClError>)
{
    match platform.get_devices(device_type) {
        Ok(ids) => Ok(ids.into_iter().map(Device::new).collect()),
        Err(e) => Err(e),
    }
}

/// `Device::double_fp_config`: the device's double-precision capability bits,
/// or the driver's status code. Nothing is promised of either.
#[verifier::external_body]
fn double_precision_config(device: &Device) -> (config: Result<u64, ClError>)
{
    device.double_fp_config()
}

/// `Context::from_device`: a context for the one device given, or the
/// driver's status code. A context that comes back holds exactly that device.
#[verifier::external_body]
fn create_context(device: &Device) -> (context: Result<Context, ClError>)
    ensures
        context matches Ok(c) ==> context_device_count(c) == 1,
{
    Context::from_device(device)
}

/// `CommandQueue::create_default`: a queue with the given properties on the
/// context's first device, or the driver's status code. The outside function
/// indexes the context's first device and panics where there is none, which
/// the precondition rules out.
#[verifier::external_body]
fn create_queue(context: &Context, properties: u64) -> (queue: Result<CommandQueue, ClError>)
    requires
        context_device_count(*context) > 0,
{
    CommandQueue::create_default(context, properties)
}

/// `Program::create_and_build_from_source`: the program built from the source
/// for the context's devices, or the status text, followed by the build log
/// where the compiler failed. The outside function panics on options that
/// hold a NUL character; to fetch the build log it indexes the context's
/// first device and panics where there is none. The preconditions rule out
/// both.
#[verifier::external_body]
fn build_program(context: &Context, source: &str, options: &str) -> (program: Result<
    Program,
    String,
>)
    requires
        context_device_count(*context) > 0,
        !has_nul(options@),
{
    Program::create_and_build_from_source(context, source, options)
}

/// `Kernel::create`: the kernel of the given name in a built program, or the
/// driver's status code. The outside function panics on a name that holds a
/// NUL character, which the precondition rules out.
#[verifier::external_body]
fn create_kernel(program: &Program, name: &str) -> (kernel: Result<Kernel, ClError>)
    requires
        !has_nul(name@),
{
    Kernel::create(program, name)
}

/// Whether the text holds a NUL character.
pub fn contains_nul(text: &str) -> (found: bool)
    ensures
        found == has_nul(text@),
{
    let len: usize = text.unicode_len();
    let mut i: usize = 0;
    while i < len
        invariant
            i <= len,
            len == text@.len(),
            forall|j: int| 0 <= j < i ==> text@[j] != '\0',
        decreases len - i,
    {
        if text.get_char(i) == '\0' {
            return true;
        }
        i = i + 1;
    }
    false
}

/// All platforms in `gpu_counts[..index]` are without a GPU device.
pub open spec fn none_before(gpu_counts: Seq<usize>, index: int) -> bool {
    forall|j: int| 0 <= j < index ==> gpu_counts[j] == 0
}

/// Picks the platform to run on from the number of GPU devices that each
/// platform offers, in enumeration order: the first one with at least one.
/// There is no fallback to other device classes.
pub fn select_gpu_platform(gpu_counts: &Vec<usize>) -> (choice: Result<usize, PipelineError>)
    ensures
        choice matches Ok(index) ==> index < gpu_counts@.len() && gpu_counts@[index as int] > 0
            && none_before(gpu_counts@, index as int),
        choice matches Err(e) ==> none_before(gpu_counts@, gpu_counts@.len() as int) && e == (
        if gpu_counts@.len() == 0 {
            PipelineError::NoPlatformFound
        } else {
            PipelineError::NoGpuDeviceFound
        }),
{
    if gpu_counts.len() == 0 {
        return Err(PipelineError::NoPlatformFound);
    }
    let mut i: usize = 0;
    while i < gpu_counts.len()
        invariant
            i <= gpu_counts@.len(),
            none_before(gpu_counts@, i as int),
        decreases gpu_counts@.len() - i,
    {
        if gpu_counts[i] > 0 {
            return Ok(i);
        }
        i = i + 1;
    }
    Err(PipelineError::NoGpuDeviceFound)
}

/// Whether a device with these double-precision capability bits can run the
/// kernel: any capability at all.
pub fn supports_double_precision(config: u64) -> (supported: bool)
    ensures
        supported == (config != 0),
{
    config != 0
}

/// What the platform enumeration stands for: the platforms where it
/// succeeded, `NoPlatformFound` where the driver refused it.
pub fn platforms_outcome(listed: Result<Vec<Platform>, ClError>) -> (result: Result<
    Vec<Platform>,
    PipelineError,
>)
    ensures
        listed matches Ok(platforms) ==> result == Ok::<Vec<Platform>, PipelineError>(platforms),
        listed is Err ==> result == Err::<Vec<Platform>, PipelineError>(
            PipelineError::NoPlatformFound,
        ),
{
    match listed {
        Ok(platforms) => Ok(platforms),
        Err(_) => Err(PipelineError::NoPlatformFound),
    }
}

/// What a platform's device query stands for: the devices where it
/// succeeded, no device where the driver refused it.
pub fn devices_outcome(queried: Result<Vec<Device>, ClError>) -> (devices: Vec<Device>)
    ensures
        queried matches Ok(found) ==> devices == found,
        queried is Err ==> devices@.len() == 0,
{
    match queried {
        Ok(found) => found,
        Err(_) => Vec::new(),
    }
}

/// What the double-precision query stands for: the device may run the kernel
/// exactly where the query succeeded and reported some capability; else the
/// setup ends with `UnsupportedPrecision`.
pub fn precision_outcome(config: Result<u64, ClError>) -> (result: Result<(), PipelineError>)
    ensures
        result is Ok <==> (config matches Ok(bits) && bits != 0),
        result matches Err(e) ==> e == PipelineError::UnsupportedPrecision,
{
    match config {
        Ok(bits) => {
            if supports_double_precision(bits) {
                Ok(())
            } else {
                Err(PipelineError::UnsupportedPrecision)
            }
        },
        Err(_) => Err(PipelineError::UnsupportedPrecision),
    }
}

/// What the creation of the context stands for: the context where it
/// succeeded; a device that refuses a context is no usable GPU device.
pub fn context_outcome(created: Result<Context, ClError>) -> (result: Result<
    Context,
    PipelineError,
>)
    ensures
        created matches Ok(context) ==> result == Ok::<Context, PipelineError>(context),
        created is Err ==> result == Err::<Context, PipelineError>(PipelineError::NoGpuDeviceFound),
{
    match created {
        Ok(context) => Ok(context),
        Err(_) => Err(PipelineError::NoGpuDeviceFound),
    }
}

/// What the creation of the command queue stands for: the queue where it
/// succeeded; a device that refuses a queue is no usable GPU device.
pub fn queue_outcome(created: Result<CommandQueue, ClError>) -> (result: Result<
    CommandQueue,
    PipelineError,
>)
    ensures
        created matches Ok(queue) ==> result == Ok::<CommandQueue, PipelineError>(queue),
        created is Err ==> result == Err::<CommandQueue, PipelineError>(
            PipelineError::NoGpuDeviceFound,
        ),
{
    match created {
        Ok(queue) => Ok(queue),
        Err(_) => Err(PipelineError::NoGpuDeviceFound),
    }
}

/// What the build stands for: the program where it succeeded, else
/// `KernelCompileError` with the compiler's text, unchanged.
pub fn compile_outcome(built: Result<Program, String>) -> (result: Result<Program, PipelineError>)
    ensures
        built matches Ok(program) ==> result == Ok::<Program, PipelineError>(program),
        built matches Err(diagnostics) ==> result == Err::<Program, PipelineError>(
            PipelineError::KernelCompileError(diagnostics),
        ),
{
    match built {
        Ok(program) => Ok(program),
        Err(diagnostics) => Err(PipelineError::KernelCompileError(diagnostics)),
    }
}

/// Whether the name can be an entry point at all: one that holds a NUL
/// character cannot, and is reported as `EntryPointNotFound`.
pub fn checked_entry_point(name: &str) -> (result: Result<(), PipelineError>)
    ensures
        result == (if has_nul(name@) {
            Err::<(), PipelineError>(PipelineError::EntryPointNotFound)
        } else {
            Ok::<(), PipelineError>(())
        }),
{
    if contains_nul(name) {
        Err(PipelineError::EntryPointNotFound)
    } else {
        Ok(())
    }
}

/// What the creation of the kernel stands for: the kernel where it
/// succeeded, else `EntryPointNotFound`.
pub fn entry_point_outcome(found: Result<Kernel, ClError>) -> (result: Result<
    Kernel,
    PipelineError,
>)
    ensures
        found matches Ok(kernel) ==> result == Ok::<Kernel, PipelineError>(kernel),
        found is Err ==> result == Err::<Kernel, PipelineError>(PipelineError::EntryPointNotFound),
{
    match found {
        Ok(kernel) => Ok(kernel),
        Err(_) => Err(PipelineError::EntryPointNotFound),
    }
}

/// Source of the compute kernel. One work-item colours one pixel: it maps its
/// grid position to a point `c` of the complex plane, iterates `z = z^2 + c`
/// from zero until `|z|^2 >= 4` or the iteration budget is spent, and writes
/// the palette colour of the escape time, or opaque black where the point
/// never escaped.
pub const MANDELBROT_KERNEL: &'static str = r#"
#pragma OPENCL EXTENSION cl_khr_fp64 : enable
__kernel void mandelbrot(
    __global uchar4* img,
    const double center_x,
    const double center_y,
    const double scale_x,
    const double scale_y,
    const unsigned int max_iter,
    const unsigned int imgx,
    const unsigned int imgy)
{
    int x = get_global_id(0);
    int y = get_global_id(1);

    double cx = center_x + (x - imgx / 2.0) * scale_x;
    double cy = center_y + (y - imgy / 2.0) * scale_y;

    double zx = 0.0;
    double zy = 0.0;
    unsigned int iter = 0;

    while (zx * zx + zy * zy < 4.0 && iter < max_iter) {
        double tmp = zx * zx - zy * zy + cx;
        zy = 2.0 * zx * zy + cy;
        zx = tmp;
        iter++;
    }

    uchar4 color = (uchar4)(0, 0, 0, 255);
    if (iter < max_iter) {
        double t = (double)iter / (double)max_iter;
        unsigned char r = (unsigned char)(9.0 * (1.0 - t) * t * t * t * 255.0 + 10);
        unsigned char g = (unsigned char)(15.0 * (1.0 - t) * (1.0 - t) * t * t * 255.0 + 10);
        unsigned char b = (unsigned char)(9.0 * (1.0 - t) * (1.0 - t) * (1.0 - t) * t * 255.0 + 10);
        color = (uchar4)(r, g, b, 255);
    }

    img[y * imgx + x] = color;
}
"#;

/// Name of the kernel's entry point in `MANDELBROT_KERNEL`.
pub const KERNEL_ENTRY_POINT: &'static str = "mandelbrot";

/// The compute pipeline: everything a render needs, owned together and
/// released together. The fields are dropped in the order written: kernel,
/// program and queue before the context.
pub struct Pipeline {
    kernel: Kernel,
    program: Program,
    queue: CommandQueue,
    context: Context,
}

impl Pipeline {
    /// The context that the pipeline's device memory lives in.
    pub closed spec fn spec_context(&self) -> Context {
        self.context
    }

    /// The queue that dispatches and read-backs are put on.
    pub closed spec fn spec_queue(&self) -> CommandQueue {
        self.queue
    }

    /// The compiled program that the kernel was taken from.
    pub closed spec fn spec_program(&self) -> Program {
        self.program
    }

    /// The kernel whose arguments a render binds.
    pub closed spec fn spec_kernel(&self) -> Kernel {
        self.kernel
    }

    /// The context that the pipeline's device memory lives in.
    pub fn context(&self) -> (context: &Context)
        ensures
            *context == self.spec_context(),
    {
        &self.context
    }

    /// The queue that dispatches and read-backs are put on.
    pub fn queue(&self) -> (queue: &CommandQueue)
        ensures
            *queue == self.spec_queue(),
    {
        &self.queue
    }

    /// The compiled program that the kernel was taken from.
    pub fn program(&self) -> (program: &Program)
        ensures
            *program == self.spec_program(),
    {
        &self.program
    }

    /// The kernel whose arguments a render binds.
    pub fn kernel(&self) -> (kernel: &Kernel)
        ensures
            *kernel == self.spec_kernel(),
    {
        &self.kernel
    }

    /// Sets the pipeline up for the given kernel source and entry point.
    ///
    /// The steps, in order, and the function that says what each answer of
    /// the machine stands for:
    /// - enumerate the platforms (`platforms_outcome`);
    /// - ask each platform for its GPU devices (`devices_outcome`) and take
    ///   the first device of the first platform that offers one
    ///   (`select_gpu_platform`);
    /// - check that the device computes in double precision
    ///   (`precision_outcome`);
    /// - create a context and a command queue for it (`context_outcome`,
    ///   `queue_outcome`);
    /// - compile the source (`compile_outcome`);
    /// - take the entry point (`checked_entry_point`, `entry_point_outcome`).
    ///
    /// The first step that fails ends the setup with its error; where none
    /// fails the pipeline is returned.
    ///
    /// What the machine answers decides the outcome, so the contract states
    /// what holds of every outcome: a failure is a setup error, a name that
    /// holds a NUL character is never found, and a pipeline that comes back
    /// has a context for exactly one device.
    ///
    /// The handles created before a failing step are released on the way
    /// out. The outside types release through the driver and panic where the
    /// driver refuses.
    pub fn new(source: &str, entry_point: &str) -> (result: Result<Pipeline, PipelineError>)
        ensures
            result matches Err(e) ==> e.is_setup_fatal(),
            has_nul(entry_point@) ==> result is Err,
            result matches Ok(pipeline) ==> context_device_count(pipeline.spec_context()) == 1,
    {
        let platforms = match platforms_outcome(list_platforms()) {
            Ok(platforms) => platforms,
            Err(e) => {
                return Err(e);
            },
        };
        let mut candidates: Vec<Vec<Device>> = Vec::new();
        let mut gpu_counts: Vec<usize> = Vec::new();
        let mut i: usize = 0;
        while i < platforms.len()
            invariant
                i <= platforms@.len(),
                candidates@.len() == i,
                gpu_counts@.len() == i,
                forall|j: int| 0 <= j < i ==> gpu_counts@[j] == (#[trigger] candidates@[j])@.len(),
            decreases platforms@.len() - i,
        {
            let found = devices_outcome(devices_of_type(&platforms[i], DEVICE_TYPE_GPU));
            gpu_counts.push(found.len());
            candidates.push(found);
            i = i + 1;
        }
        let chosen: usize = match select_gpu_platform(&gpu_counts) {
            Ok(index) => index,
            Err(e) => {
                return Err(e);
            },
        };
        let device = &candidates[chosen][0];
        match precision_outcome(double_precision_config(device)) {
            Ok(_) => {},
            Err(e) => {
                return Err(e);
            },
        }
        let context = match context_outcome(create_context(device)) {
            Ok(context) => context,
            Err(e) => {
                return Err(e);
            },
        };
        let queue = match queue_outcome(create_queue(&context, QUEUE_PROFILING_ENABLE)) {
            Ok(queue) => queue,
            Err(e) => {
                return Err(e);
            },
        };
        proof {
            reveal_strlit("");
        }
        let program = match compile_outcome(build_program(&context, source, "")) {
            Ok(program) => program,
            Err(e) => {
                return Err(e);
            },
        };
        match checked_entry_point(entry_point) {
            Ok(_) => {},
            Err(e) => {
                return Err(e);
            },
        }
        let kernel = match entry_point_outcome(create_kernel(&program, entry_point)) {
            Ok(kernel) => kernel,
            Err(e) => {
                return Err(e);
            },
        };
        Ok(Pipeline { kernel, program, queue, context })
    }
}

/// Sets the pipeline up for the Mandelbrot kernel.
pub fn initialize_opencl() -> (result: Result<Pipeline, PipelineError>)
    ensures
        result matches Err(e) ==> e.is_setup_fatal(),
        result matches Ok(pipeline) ==> context_device_count(pipeline.spec_context()) == 1,
{
    Pipeline::new(MANDELBROT_KERNEL, KERNEL_ENTRY_POINT)
}

} // verus!
