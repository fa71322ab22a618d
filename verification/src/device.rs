//! Picking the compute device the runner should use.

use vstd::prelude::*;

verus! {

/// The kind of compute device an inference run should be placed on.
#[derive(Clone, Copy, Debug, PartialEq, Eq, Structural)]
pub enum DeviceKind {
    Cpu,
    Cuda,
    Metal,
}

/// The device the runner picks: the CPU when forced, otherwise the first
/// available accelerator, CUDA before Metal, and the CPU as the fallback.
pub open spec fn spec_device_kind(force_cpu: bool, cuda: bool, metal: bool) -> DeviceKind {
    if force_cpu {
        DeviceKind::Cpu
    } else if cuda {
        DeviceKind::Cuda
    } else if metal {
        DeviceKind::Metal
    } else {
        DeviceKind::Cpu
    }
}

/// Decide which device to run on, given whether the caller forces the CPU and
/// which accelerators are available.
pub fn device_kind(force_cpu: bool, cuda_available: bool, metal_available: bool) -> (r: DeviceKind)
    ensures
        r == spec_device_kind(force_cpu, cuda_available, metal_available),
{
    if force_cpu {
        DeviceKind::Cpu
    } else if cuda_available {
        DeviceKind::Cuda
    } else if metal_available {
        DeviceKind::Metal
    } else {
        DeviceKind::Cpu
    }
}

} // verus!
