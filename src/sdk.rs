use vstd::prelude::*;

verus! {

/// The GPU back ends a raw-camera SDK is asked to load.
#[derive(Debug, Clone, Copy, PartialEq, Eq, Structural)]
pub struct SdkFlags {
    pub cuda: bool,
    pub opencl: bool,
    pub metal: bool,
}

/// Why loading the SDK failed.
#[derive(Debug, Clone, Copy, PartialEq, Eq, Structural)]
pub enum SdkInitError {
    CudaLibraryNotFound,
    OpenCLLibraryNotFound,
    MetalLibraryNotFound,
    UnableToLoadLibrary,
    /// Any other failure, with the SDK's own code.
    Other(i32),
}

/// What to do after a failed attempt to load the SDK.
#[derive(Debug, Clone, Copy, PartialEq, Eq, Structural)]
pub enum SdkInitStep {
    /// Try again with these back ends.
    Retry(SdkFlags),
    /// Give up with this error.
    Fail(SdkInitError),
}

/// How many times loading the SDK is tried.
pub const SDK_INIT_ATTEMPTS: u32 = 3;

/// The back ends asked for first: CUDA and OpenCL everywhere, Metal on macOS.
pub fn sdk_initial_flags(macos: bool) -> (r: SdkFlags)
    ensures
        r == (SdkFlags { cuda: true, opencl: true, metal: macos }),
{
    SdkFlags { cuda: true, opencl: true, metal: macos }
}

/// After attempt `attempt` (counted from 0) failed with `err`: a missing GPU
/// library whose back end was asked for is dropped and loading is tried
/// again, until the attempts are used up, when loading fails with
/// `UnableToLoadLibrary`; any other failure ends loading with that error.
pub fn sdk_init_step(flags: SdkFlags, attempt: u32, err: SdkInitError) -> (r: SdkInitStep)
    ensures
        ({
            let dropped = match err {
                SdkInitError::CudaLibraryNotFound => if flags.cuda {
                    Some(SdkFlags { cuda: false, ..flags })
                } else {
                    None
                },
                SdkInitError::OpenCLLibraryNotFound => if flags.opencl {
                    Some(SdkFlags { opencl: false, ..flags })
                } else {
                    None
                },
                SdkInitError::MetalLibraryNotFound => if flags.metal {
                    Some(SdkFlags { metal: false, ..flags })
                } else {
                    None
                },
                _ => None,
            };
            match dropped {
                Some(f) => if attempt + 1 < SDK_INIT_ATTEMPTS {
                    r == SdkInitStep::Retry(f)
                } else {
                    r == SdkInitStep::Fail(SdkInitError::UnableToLoadLibrary)
                },
                None => r == SdkInitStep::Fail(err),
            }
        }),
{
    let dropped: Option<SdkFlags> = match err {
        SdkInitError::CudaLibraryNotFound => if flags.cuda {
            Some(SdkFlags { cuda: false, opencl: flags.opencl, metal: flags.metal })
        } else {
            None
        },
        SdkInitError::OpenCLLibraryNotFound => if flags.opencl {
            Some(SdkFlags { cuda: flags.cuda, opencl: false, metal: flags.metal })
        } else {
            None
        },
        SdkInitError::MetalLibraryNotFound => if flags.metal {
            Some(SdkFlags { cuda: flags.cuda, opencl: flags.opencl, metal: false })
        } else {
            None
        },
        _ => None,
    };
    match dropped {
        Some(f) => if attempt < SDK_INIT_ATTEMPTS - 1 {
            SdkInitStep::Retry(f)
        } else {
            SdkInitStep::Fail(SdkInitError::UnableToLoadLibrary)
        },
        None => SdkInitStep::Fail(err),
    }
}

pub open spec fn picked(count: usize, gpu_index: Option<usize>) -> Option<usize> {
    match gpu_index {
        Some(i) => if i < count {
            Some(i)
        } else {
            None
        },
        None => if count > 0 {
            Some(0usize)
        } else {
            None
        },
    }
}

/// The device to use among `count` devices: the `gpu_index`-th when one is
/// asked for and there is one, else the first; none when there is none.
pub fn pick_device(count: usize, gpu_index: Option<usize>) -> (r: Option<usize>)
    ensures
        r == picked(count, gpu_index),
{
    match gpu_index {
        Some(i) => if i < count {
            Some(i)
        } else {
            None
        },
        None => if count > 0 {
            Some(0)
        } else {
            None
        },
    }
}

/// Which GPU family a RED decode runs on.
#[derive(Debug, Clone, Copy, PartialEq, Eq, Structural)]
pub enum GpuChoice {
    Cuda(usize),
    OpenCL(usize),
    CpuOnly,
}

/// The RED decode device: the chosen CUDA device if there is one, else the
/// chosen OpenCL device; `cuda_count` and `opencl_count` are how many each
/// list holds (zero where the list cannot be read).
pub fn pick_r3d_device(cuda_count: usize, opencl_count: usize, gpu_index: Option<usize>) -> (r:
    GpuChoice)
    ensures
        r == match picked(cuda_count, gpu_index) {
            Some(i) => GpuChoice::Cuda(i),
            None => match picked(opencl_count, gpu_index) {
                Some(i) => GpuChoice::OpenCL(i),
                None => GpuChoice::CpuOnly,
            },
        },
{
    match pick_device(cuda_count, gpu_index) {
        Some(i) => GpuChoice::Cuda(i),
        None => match pick_device(opencl_count, gpu_index) {
            Some(i) => GpuChoice::OpenCL(i),
            None => GpuChoice::CpuOnly,
        },
    }
}

} // verus!
