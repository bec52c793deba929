//! The ways a run can fail. Every one of them ends the run.

use vstd::prelude::*;

verus! {

/// Why a run was aborted.
#[derive(Clone, Copy, Debug, PartialEq, Eq, Structural)]
pub enum PipelineError {
    /// No physical device that can run compute work was found.
    NoSuitableAdapter,
    /// The adapter refused to hand out a logical device and queue.
    DeviceCreationFailed,
    /// The kernel source was rejected, or lacks the entry point.
    KernelCompileError,
    /// The input matrices do not have the length the run was set up for.
    SizeMismatch,
    /// A buffer lacks the capability that its binding slot asks for.
    BindingLayoutMismatch,
    /// The device did not honour a buffer allocation.
    BufferAllocationFailed,
    /// A map request was rejected, or made while a map was still in force.
    MapRequestFailed,
    /// The device went away while work was outstanding.
    DeviceLost,
}

impl PipelineError {
    /// The sentence that reports this failure.
    pub open spec fn description(self) -> Seq<char> {
        match self {
            PipelineError::NoSuitableAdapter => "Failed to find an appropriate adapter"@,
            PipelineError::DeviceCreationFailed => "Failed to create device"@,
            PipelineError::KernelCompileError => "Failed to compile the kernel"@,
            PipelineError::SizeMismatch => "Input matrices differ in size"@,
            PipelineError::BindingLayoutMismatch => "Buffers do not match the kernel's binding layout"@,
            PipelineError::BufferAllocationFailed => "Failed to allocate a device buffer"@,
            PipelineError::MapRequestFailed => "Failed to map the staging buffer"@,
            PipelineError::DeviceLost => "Device lost"@,
        }
    }

    /// The sentence that reports this failure, for the caller to print.
    pub fn message(&self) -> (text: &'static str)
        ensures
            text@ == self.description(),
    {
        match self {
            PipelineError::NoSuitableAdapter => "Failed to find an appropriate adapter",
            PipelineError::DeviceCreationFailed => "Failed to create device",
            PipelineError::KernelCompileError => "Failed to compile the kernel",
            PipelineError::SizeMismatch => "Input matrices differ in size",
            PipelineError::BindingLayoutMismatch => "Buffers do not match the kernel's binding layout",
            PipelineError::BufferAllocationFailed => "Failed to allocate a device buffer",
            PipelineError::MapRequestFailed => "Failed to map the staging buffer",
            PipelineError::DeviceLost => "Device lost",
        }
    }
}

} // verus!
