//! The buffers of one run and their binding to the kernel's slots.

use vstd::prelude::*;
use crate::dims::{MatrixDimensions, RECORD_BYTES};
use crate::error::PipelineError;
use crate::layout::{slot_role, expected_slots, BufferRole, KernelLayout, SLOT_COUNT};
use crate::usage::{BufferUsage, Capability};

verus! {

/// Number of bytes of one matrix entry in device memory.
pub const ENTRY_BYTES: u64 = 4;

/// What a buffer holds from the moment it is created.
#[derive(Clone, Copy, Debug, PartialEq, Eq, Structural)]
pub enum Contents {
    /// The bytes of the left host matrix.
    MatrixA,
    /// The bytes of the right host matrix.
    MatrixB,
    /// The bytes of the dimensions record.
    Record,
    /// Zeros.
    Zeroed,
}

/// Size, declared usage and first contents of one device buffer.
#[derive(Clone, Copy, Debug, PartialEq, Eq, Structural)]
pub struct BufferSpec {
    /// Length in bytes.
    pub size: u64,
    pub usage: BufferUsage,
    pub contents: Contents,
}

/// The four buffers the kernel works on.
#[derive(Clone, Copy, Debug, PartialEq, Eq, Structural)]
pub struct ResourceSet {
    /// Rows and columns of each matrix.
    pub size: u32,
    pub a: BufferSpec,
    pub b: BufferSpec,
    pub result: BufferSpec,
    pub dimensions: BufferSpec,
}

/// One slot of a binding group: the whole of a buffer bound to a slot.
#[derive(Clone, Copy, Debug, PartialEq, Eq, Structural)]
pub struct Binding {
    pub slot: u32,
    pub role: BufferRole,
    /// Length in bytes of the bound range, which starts at offset 0.
    pub size: u64,
}

/// Which buffer sits in which slot of the kernel. A binding group is made
/// once for a set of buffers and never changed.
#[derive(Clone, Debug, PartialEq, Eq)]
pub struct BindingGroup {
    pub entries: Vec<Binding>,
}

impl View for BindingGroup {
    type V = Seq<Binding>;

    open spec fn view(&self) -> Seq<Binding> {
        self.entries@
    }
}

impl ResourceSet {
    /// Number of bytes of one `size` by `size` matrix.
    pub open spec fn matrix_bytes(size: u32) -> int {
        size * size * ENTRY_BYTES
    }

    /// The buffers of a run on `size` by `size` matrices: both inputs
    /// read-only storage holding the bytes of their host matrix, the output
    /// zeroed read-write storage that can be copied from, each
    /// `size * size * 4` bytes long, and the uniform buffer holding the
    /// dimensions record.
    pub open spec fn planned(size: u32) -> ResourceSet {
        let bytes = Self::matrix_bytes(size) as u64;
        ResourceSet {
            size,
            a: BufferSpec {
                size: bytes,
                usage: BufferUsage::of(set![Capability::ReadOnlyStorage]),
                contents: Contents::MatrixA,
            },
            b: BufferSpec {
                size: bytes,
                usage: BufferUsage::of(set![Capability::ReadOnlyStorage]),
                contents: Contents::MatrixB,
            },
            result: BufferSpec {
                size: bytes,
                usage: BufferUsage::of(set![Capability::ReadWriteStorage, Capability::CopySource]),
                contents: Contents::Zeroed,
            },
            dimensions: BufferSpec {
                size: RECORD_BYTES,
                usage: BufferUsage::of(set![Capability::Uniform]),
                contents: Contents::Record,
            },
        }
    }

    /// What planning the buffers comes to. Inputs that do not both hold
    /// `size * size` entries are a size mismatch; matrices whose byte length
    /// does not fit a buffer address cannot be allocated.
    pub open spec fn plan_outcome(size: u32, len_a: usize, len_b: usize) -> Result<
        ResourceSet,
        PipelineError,
    > {
        if len_a != len_b || len_a != size * size {
            Err(PipelineError::SizeMismatch)
        } else if Self::matrix_bytes(size) > u64::MAX {
            Err(PipelineError::BufferAllocationFailed)
        } else {
            Ok(Self::planned(size))
        }
    }

    /// Plans the buffers for two host matrices of `len_a` and `len_b`
    /// entries that are to be multiplied as `size` by `size` matrices.
    /// Nothing is planned, and so nothing allocated, unless both lengths are
    /// `size * size`.
    pub fn plan(size: u32, len_a: usize, len_b: usize) -> (planned: Result<
        ResourceSet,
        PipelineError,
    >)
        requires
            size > 0,
        ensures
            planned == Self::plan_outcome(size, len_a, len_b),
            len_a != len_b ==> planned == Err::<ResourceSet, PipelineError>(
                PipelineError::SizeMismatch,
            ),
    {
        assert(size * size <= u64::MAX) by (nonlinear_arith)
            requires
                size <= u32::MAX,
        ;
        let cells: u64 = (size as u64) * (size as u64);
        if len_a != len_b || len_a as u64 != cells {
            return Err(PipelineError::SizeMismatch);
        }
        let bytes: u64 = match cells.checked_mul(ENTRY_BYTES) {
            Some(bytes) => bytes,
            None => {
                return Err(PipelineError::BufferAllocationFailed);
            },
        };
        let input = BufferUsage::only(Capability::ReadOnlyStorage);
        let output = BufferUsage::only(Capability::ReadWriteStorage).with(Capability::CopySource);
        let uniform = BufferUsage::only(Capability::Uniform);
        Ok(
            ResourceSet {
                size,
                a: BufferSpec { size: bytes, usage: input, contents: Contents::MatrixA },
                b: BufferSpec { size: bytes, usage: input, contents: Contents::MatrixB },
                result: BufferSpec { size: bytes, usage: output, contents: Contents::Zeroed },
                dimensions: BufferSpec {
                    size: RECORD_BYTES,
                    usage: uniform,
                    contents: Contents::Record,
                },
            },
        )
    }

    /// The buffer that belongs in binding slot `slot`.
    pub open spec fn in_slot(&self, slot: int) -> BufferSpec {
        match slot_role(slot) {
            BufferRole::InputA => self.a,
            BufferRole::InputB => self.b,
            BufferRole::Output => self.result,
            _ => self.dimensions,
        }
    }

    /// Every slot of `layout` finds, in the buffer that belongs there, the
    /// capability it asks for, and `layout` has exactly the four slots.
    pub open spec fn satisfies(&self, layout: Seq<Capability>) -> bool {
        &&& layout.len() == SLOT_COUNT
        &&& forall|slot: int|
            0 <= slot < SLOT_COUNT ==> (#[trigger] self.in_slot(slot)).usage@.contains(layout[slot])
    }

    /// The slots of the binding group of these buffers: slot `i` holds the
    /// whole of the buffer that belongs there.
    pub open spec fn bindings(&self) -> Seq<Binding> {
        Seq::new(
            SLOT_COUNT as nat,
            |slot: int|
                Binding { slot: slot as u32, role: slot_role(slot), size: self.in_slot(slot).size },
        )
    }

    /// `bound` is what binding these buffers to `layout` comes to: the group
    /// of `bindings` when the buffers satisfy the layout, a layout mismatch
    /// when they do not.
    pub open spec fn binds_to(
        &self,
        layout: Seq<Capability>,
        bound: Result<BindingGroup, PipelineError>,
    ) -> bool {
        match bound {
            Ok(group) => self.satisfies(layout) && group@ == self.bindings(),
            Err(e) => !self.satisfies(layout) && e == PipelineError::BindingLayoutMismatch,
        }
    }

    /// The buffer in binding slot `slot`.
    fn buffer_in_slot(&self, slot: usize) -> (spec: BufferSpec)
        requires
            slot < SLOT_COUNT,
        ensures
            spec == self.in_slot(slot as int),
    {
        if slot == 0 {
            self.a
        } else if slot == 1 {
            self.b
        } else if slot == 2 {
            self.result
        } else {
            self.dimensions
        }
    }

    /// Binds the four buffers to the slots of `layout`, checking for each
    /// slot that the buffer was declared with the capability the slot asks
    /// for.
    pub fn bind(&self, layout: &KernelLayout) -> (bound: Result<BindingGroup, PipelineError>)
        ensures
            self.binds_to(layout@, bound),
    {
        if layout.slots.len() != SLOT_COUNT {
            return Err(PipelineError::BindingLayoutMismatch);
        }
        let mut entries: Vec<Binding> = Vec::new();
        let mut slot: usize = 0;
        while slot < SLOT_COUNT
            invariant
                slot <= SLOT_COUNT,
                layout@.len() == SLOT_COUNT,
                entries@.len() == slot,
                forall|i: int|
                    0 <= i < slot ==> (#[trigger] self.in_slot(i)).usage@.contains(layout@[i]),
                forall|i: int| 0 <= i < slot ==> entries@[i] == self.bindings()[i],
            decreases SLOT_COUNT - slot,
        {
            let buffer = self.buffer_in_slot(slot);
            if !buffer.usage.contains(layout.slots[slot]) {
                return Err(PipelineError::BindingLayoutMismatch);
            }
            let role = if slot == 0 {
                BufferRole::InputA
            } else if slot == 1 {
                BufferRole::InputB
            } else if slot == 2 {
                BufferRole::Output
            } else {
                BufferRole::Dimensions
            };
            entries.push(Binding { slot: slot as u32, role, size: buffer.size });
            slot = slot + 1;
        }
        assert(entries@ =~= self.bindings());
        Ok(BindingGroup { entries })
    }

    /// The staging buffer that receives the copy of the output: as long as
    /// the output, host-mappable, a copy destination, and zeroed until the
    /// copy arrives.
    pub fn staging(&self) -> (spec: BufferSpec)
        ensures
            spec.size == self.result.size,
            spec.usage == BufferUsage::of(
                set![Capability::HostMappable, Capability::CopyDestination],
            ),
            spec.contents == Contents::Zeroed,
    {
        let usage = BufferUsage::only(Capability::HostMappable).with(Capability::CopyDestination);
        assert(usage@ =~= set![Capability::HostMappable, Capability::CopyDestination]);
        BufferSpec { size: self.result.size, usage, contents: Contents::Zeroed }
    }

    /// The dimensions record that the uniform buffer is created with.
    pub fn record(&self) -> (dims: MatrixDimensions)
        ensures
            dims.words() == seq![self.size, self.size, 0u32, 0u32],
    {
        MatrixDimensions::square(self.size)
    }
}

/// Binding the same buffers to the same layout twice gives the same result:
/// both attempts fail, or both succeed with groups that put the same buffer
/// into every slot.
pub proof fn lemma_binding_repeatable(
    resources: ResourceSet,
    layout: Seq<Capability>,
    first: Result<BindingGroup, PipelineError>,
    second: Result<BindingGroup, PipelineError>,
)
    requires
        resources.binds_to(layout, first),
        resources.binds_to(layout, second),
    ensures
        first is Ok <==> second is Ok,
        first is Ok ==> first->Ok_0@ == second->Ok_0@,
        first is Err ==> first->Err_0 == second->Err_0,
{
}

/// The buffers planned for a run satisfy the layout of the matrix
/// multiplication kernel, so binding them does not fail.
pub proof fn lemma_planned_buffers_bind(size: u32)
    ensures
        ResourceSet::planned(size).satisfies(expected_slots()),
{
    let planned = ResourceSet::planned(size);
    assert forall|slot: int| 0 <= slot < SLOT_COUNT implies (#[trigger] planned.in_slot(
        slot,
    )).usage@.contains(expected_slots()[slot]) by {
        if slot == 0 {
        } else if slot == 1 {
        } else if slot == 2 {
        } else {
            assert(slot == 3);
        }
    }
}

} // verus!
