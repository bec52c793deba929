//! The order of a run, and what becomes of it when a step fails.
//!
//! A run is a fixed sequence of steps that only the caller can perform,
//! because each of them talks to the device. The caller performs the pending
//! step, reports how it went, and is told what comes next. A failure of any
//! step ends the run with the error that belongs to that step; nothing is
//! retried and no later step is ever asked for.

use vstd::prelude::*;
use crate::error::PipelineError;
use crate::resources::ResourceSet;

verus! {

/// The steps of a run, in the order in which they are performed.
#[derive(Clone, Copy, Debug, PartialEq, Eq, Structural)]
pub enum Step {
    /// Pick a high-performance adapter.
    AcquireAdapter,
    /// Open a device and its queue, with no optional feature.
    AcquireDevice,
    /// Compile the kernel and build its pipeline.
    CompileKernel,
    /// Create the four buffers of the resource set, and the staging buffer.
    AllocateBuffers,
    /// Bind the four buffers to the slots of the kernel.
    CreateBindingGroup,
    /// Record the dispatch and the copy, and submit both at once.
    Submit,
    /// Map the staging buffer, copy the product out, release the mapping.
    ReadBack,
}

/// How the caller fared with a step.
#[derive(Clone, Copy, Debug, PartialEq, Eq, Structural)]
pub enum Outcome {
    /// The step was carried out.
    Succeeded,
    /// The device, or the driver, refused the step.
    Refused,
    /// The device went away during the step.
    DeviceLost,
}

/// Where a run stands.
#[derive(Clone, Copy, Debug, PartialEq, Eq, Structural)]
pub enum RunState {
    /// The caller is to perform this step next.
    Pending(Step),
    /// All steps were carried out; the product is in host memory.
    Done,
    /// The run was aborted.
    Failed(PipelineError),
}

/// One run: the inputs it was started with and where it stands.
#[derive(Clone, Copy, Debug, PartialEq, Eq, Structural)]
pub struct Run {
    /// Rows and columns of each matrix.
    pub size: u32,
    /// Number of entries of the left host matrix.
    pub len_a: usize,
    /// Number of entries of the right host matrix.
    pub len_b: usize,
    pub state: RunState,
}

/// The error that a refusal of `step` is reported as.
pub open spec fn failure_of(step: Step) -> PipelineError {
    match step {
        Step::AcquireAdapter => PipelineError::NoSuitableAdapter,
        Step::AcquireDevice => PipelineError::DeviceCreationFailed,
        Step::CompileKernel => PipelineError::KernelCompileError,
        Step::AllocateBuffers => PipelineError::BufferAllocationFailed,
        Step::CreateBindingGroup => PipelineError::BindingLayoutMismatch,
        Step::Submit => PipelineError::DeviceLost,
        Step::ReadBack => PipelineError::MapRequestFailed,
    }
}

/// Whether a device exists while `step` is performed, so that it can be lost.
pub open spec fn holds_device(step: Step) -> bool {
    step != Step::AcquireAdapter && step != Step::AcquireDevice
}

/// The step that follows `step`, if any.
pub open spec fn following(step: Step) -> Option<Step> {
    match step {
        Step::AcquireAdapter => Some(Step::AcquireDevice),
        Step::AcquireDevice => Some(Step::CompileKernel),
        Step::CompileKernel => Some(Step::AllocateBuffers),
        Step::AllocateBuffers => Some(Step::CreateBindingGroup),
        Step::CreateBindingGroup => Some(Step::Submit),
        Step::Submit => Some(Step::ReadBack),
        Step::ReadBack => None,
    }
}

/// The outcome that stands for the verdict of a part of the run that keeps
/// its own books, as the readback does.
pub fn outcome_of(verdict: Result<(), PipelineError>) -> (outcome: Outcome)
    ensures
        outcome == match verdict {
            Ok(_) => Outcome::Succeeded,
            Err(PipelineError::DeviceLost) => Outcome::DeviceLost,
            Err(_) => Outcome::Refused,
        },
{
    match verdict {
        Ok(_) => Outcome::Succeeded,
        Err(PipelineError::DeviceLost) => Outcome::DeviceLost,
        Err(_) => Outcome::Refused,
    }
}

impl Run {
    /// The run is one on matrices that have at least one row and column.
    pub open spec fn wf(&self) -> bool {
        self.size > 0
    }

    /// A run that has not begun.
    pub open spec fn started(size: u32, len_a: usize, len_b: usize) -> Run {
        Run { size, len_a, len_b, state: RunState::Pending(Step::AcquireAdapter) }
    }

    /// The state a run enters once `step` was carried out. Before any buffer
    /// is allocated the inputs are checked, and a run whose buffers cannot be
    /// planned fails there.
    pub open spec fn state_after(self, step: Step) -> RunState {
        match following(step) {
            None => RunState::Done,
            Some(Step::AllocateBuffers) => match ResourceSet::plan_outcome(
                self.size,
                self.len_a,
                self.len_b,
            ) {
                Ok(_) => RunState::Pending(Step::AllocateBuffers),
                Err(e) => RunState::Failed(e),
            },
            Some(next) => RunState::Pending(next),
        }
    }

    /// The run after the caller reported `outcome` for the pending step. A
    /// run that is done or failed stays as it is.
    pub open spec fn after(self, outcome: Outcome) -> Run {
        match self.state {
            RunState::Pending(step) => Run {
                size: self.size,
                len_a: self.len_a,
                len_b: self.len_b,
                state: match outcome {
                    Outcome::Succeeded => self.state_after(step),
                    Outcome::Refused => RunState::Failed(failure_of(step)),
                    Outcome::DeviceLost => RunState::Failed(
                        if holds_device(step) {
                            PipelineError::DeviceLost
                        } else {
                            failure_of(step)
                        },
                    ),
                },
            },
            _ => self,
        }
    }

    /// The run after all of `outcomes` were reported, in order.
    pub open spec fn after_all(self, outcomes: Seq<Outcome>) -> Run
        decreases outcomes.len(),
    {
        if outcomes.len() == 0 {
            self
        } else {
            self.after_all(outcomes.drop_last()).after(outcomes.last())
        }
    }

    /// Starts a run on two host matrices of `len_a` and `len_b` entries that
    /// are to be multiplied as `size` by `size` matrices.
    pub fn start(size: u32, len_a: usize, len_b: usize) -> (run: Run)
        requires
            size > 0,
        ensures
            run == Run::started(size, len_a, len_b),
            run.wf(),
    {
        Run { size, len_a, len_b, state: RunState::Pending(Step::AcquireAdapter) }
    }

    /// Takes note of how the pending step went and moves on: to the next
    /// step, to the end of the run, or to its failure.
    pub fn report(&mut self, outcome: Outcome)
        requires
            old(self).wf(),
        ensures
            *final(self) == old(self).after(outcome),
            final(self).wf(),
    {
        let step = match self.state {
            RunState::Pending(step) => step,
            _ => {
                return ;
            },
        };
        let lost = match outcome {
            Outcome::Succeeded => false,
            Outcome::Refused => false,
            Outcome::DeviceLost => true,
        };
        let succeeded = match outcome {
            Outcome::Succeeded => true,
            _ => false,
        };
        if succeeded {
            self.state = match step {
                Step::AcquireAdapter => RunState::Pending(Step::AcquireDevice),
                Step::AcquireDevice => RunState::Pending(Step::CompileKernel),
                Step::CompileKernel => match ResourceSet::plan(self.size, self.len_a, self.len_b) {
                    Ok(_) => RunState::Pending(Step::AllocateBuffers),
                    Err(e) => RunState::Failed(e),
                },
                Step::AllocateBuffers => RunState::Pending(Step::CreateBindingGroup),
                Step::CreateBindingGroup => RunState::Pending(Step::Submit),
                Step::Submit => RunState::Pending(Step::ReadBack),
                Step::ReadBack => RunState::Done,
            };
        } else {
            let error = match step {
                Step::AcquireAdapter => PipelineError::NoSuitableAdapter,
                Step::AcquireDevice => PipelineError::DeviceCreationFailed,
                Step::CompileKernel => if lost {
                    PipelineError::DeviceLost
                } else {
                    PipelineError::KernelCompileError
                },
                Step::AllocateBuffers => if lost {
                    PipelineError::DeviceLost
                } else {
                    PipelineError::BufferAllocationFailed
                },
                Step::CreateBindingGroup => if lost {
                    PipelineError::DeviceLost
                } else {
                    PipelineError::BindingLayoutMismatch
                },
                Step::Submit => PipelineError::DeviceLost,
                Step::ReadBack => if lost {
                    PipelineError::DeviceLost
                } else {
                    PipelineError::MapRequestFailed
                },
            };
            self.state = RunState::Failed(error);
        }
    }

    /// The buffers of this run. They exist once the run has reached the
    /// allocation of buffers.
    pub fn resources(&self) -> (planned: Result<ResourceSet, PipelineError>)
        requires
            self.wf(),
        ensures
            planned == ResourceSet::plan_outcome(self.size, self.len_a, self.len_b),
    {
        ResourceSet::plan(self.size, self.len_a, self.len_b)
    }
}

/// The seven steps in their order; `step_at(7)` and beyond is the end.
pub open spec fn step_at(k: int) -> Option<Step> {
    if k == 0 {
        Some(Step::AcquireAdapter)
    } else if k == 1 {
        Some(Step::AcquireDevice)
    } else if k == 2 {
        Some(Step::CompileKernel)
    } else if k == 3 {
        Some(Step::AllocateBuffers)
    } else if k == 4 {
        Some(Step::CreateBindingGroup)
    } else if k == 5 {
        Some(Step::Submit)
    } else if k == 6 {
        Some(Step::ReadBack)
    } else {
        None
    }
}

/// Reports change where a run stands, never what it was started with.
pub proof fn lemma_inputs_kept(run: Run, outcomes: Seq<Outcome>)
    ensures
        run.after_all(outcomes).size == run.size,
        run.after_all(outcomes).len_a == run.len_a,
        run.after_all(outcomes).len_b == run.len_b,
    decreases outcomes.len(),
{
    if outcomes.len() > 0 {
        lemma_inputs_kept(run, outcomes.drop_last());
    }
}

/// A run is fail-fast: once it has failed, or is done, no report changes it.
pub proof fn lemma_end_is_final(run: Run, outcomes: Seq<Outcome>)
    requires
        !(run.state is Pending),
    ensures
        run.after_all(outcomes) == run,
    decreases outcomes.len(),
{
    if outcomes.len() > 0 {
        lemma_end_is_final(run, outcomes.drop_last());
    }
}

/// A run on inputs of differing lengths allocates nothing: whatever the
/// caller reports, the run never asks for the allocation of buffers nor for
/// any later step, and it is never done. If it gets as far as the planning of
/// its buffers it fails there with a size mismatch.
pub proof fn lemma_mismatch_allocates_nothing(
    size: u32,
    len_a: usize,
    len_b: usize,
    outcomes: Seq<Outcome>,
)
    requires
        len_a != len_b,
    ensures
        ({
            let state = Run::started(size, len_a, len_b).after_all(outcomes).state;
            &&& state != RunState::Done
            &&& state is Pending ==> state == RunState::Pending(Step::AcquireAdapter) || state
                == RunState::Pending(Step::AcquireDevice) || state == RunState::Pending(
                Step::CompileKernel,
            )
            &&& outcomes.len() >= 3 && (forall|k: int| 0 <= k < 3 ==> outcomes[k]
                == Outcome::Succeeded) ==> state == RunState::Failed(PipelineError::SizeMismatch)
        }),
    decreases outcomes.len(),
{
    let run = Run::started(size, len_a, len_b);
    if outcomes.len() > 0 {
        let earlier = outcomes.drop_last();
        lemma_mismatch_allocates_nothing(size, len_a, len_b, earlier);
        lemma_inputs_kept(run, earlier);
        if outcomes.len() >= 3 && (forall|k: int| 0 <= k < 3 ==> outcomes[k] == Outcome::Succeeded) {
            assert(forall|k: int| 0 <= k < earlier.len() ==> earlier[k] == outcomes[k]);
            if outcomes.len() == 3 {
                lemma_steps_in_order(size, len_a, len_b, outcomes);
            }
        }
    }
}

/// While every step succeeds, the steps come in their order: after `k`
/// successes the run asks for step `k`, and after all seven it is done. The
/// one exception is a run whose buffers cannot be planned, which fails when
/// it reaches the allocation.
pub proof fn lemma_steps_in_order(size: u32, len_a: usize, len_b: usize, outcomes: Seq<Outcome>)
    requires
        forall|k: int| 0 <= k < outcomes.len() ==> outcomes[k] == Outcome::Succeeded,
    ensures
        ({
            let state = Run::started(size, len_a, len_b).after_all(outcomes).state;
            let planned = ResourceSet::plan_outcome(size, len_a, len_b);
            if outcomes.len() >= 3 && planned is Err {
                state == RunState::Failed(planned->Err_0)
            } else {
                match step_at(outcomes.len() as int) {
                    Some(step) => state == RunState::Pending(step),
                    None => state == RunState::Done,
                }
            }
        }),
    decreases outcomes.len(),
{
    if outcomes.len() > 0 {
        let earlier = outcomes.drop_last();
        assert(forall|k: int| 0 <= k < earlier.len() ==> earlier[k] == outcomes[k]);
        lemma_steps_in_order(size, len_a, len_b, earlier);
        lemma_inputs_kept(Run::started(size, len_a, len_b), earlier);
        assert(outcomes.last() == Outcome::Succeeded);
    }
}

} // verus!
