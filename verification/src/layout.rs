//! The binding slots the kernel declares, and what each asks of its buffer.

use vstd::prelude::*;
use crate::usage::Capability;

verus! {

/// The buffers of one run, named by what they hold.
#[derive(Clone, Copy, Debug, PartialEq, Eq, Structural)]
pub enum BufferRole {
    /// The left matrix.
    InputA,
    /// The right matrix.
    InputB,
    /// The product, written by the kernel.
    Output,
    /// The dimensions record.
    Dimensions,
    /// The host-mappable copy of the product.
    Staging,
}

/// Number of binding slots of the kernel.
pub const SLOT_COUNT: usize = 4;

/// The buffer that belongs in binding slot `slot`: the two inputs, the
/// output and the dimensions record, in this order.
pub open spec fn slot_role(slot: int) -> BufferRole {
    if slot == 0 {
        BufferRole::InputA
    } else if slot == 1 {
        BufferRole::InputB
    } else if slot == 2 {
        BufferRole::Output
    } else {
        BufferRole::Dimensions
    }
}

/// The capabilities the matrix multiplication kernel asks of the buffers in
/// its slots 0 to 3.
pub open spec fn expected_slots() -> Seq<Capability> {
    seq![
        Capability::ReadOnlyStorage,
        Capability::ReadOnlyStorage,
        Capability::ReadWriteStorage,
        Capability::Uniform,
    ]
}

/// What a kernel expects to find bound: for each slot, in order, the
/// capability its buffer must have been declared with.
#[derive(Clone, Debug, PartialEq, Eq)]
pub struct KernelLayout {
    pub slots: Vec<Capability>,
}

impl View for KernelLayout {
    type V = Seq<Capability>;

    open spec fn view(&self) -> Seq<Capability> {
        self.slots@
    }
}

impl KernelLayout {
    /// The layout of the matrix multiplication kernel.
    pub fn matrix_multiply() -> (layout: KernelLayout)
        ensures
            layout@ == expected_slots(),
    {
        let mut slots: Vec<Capability> = Vec::new();
        slots.push(Capability::ReadOnlyStorage);
        slots.push(Capability::ReadOnlyStorage);
        slots.push(Capability::ReadWriteStorage);
        slots.push(Capability::Uniform);
        assert(slots@ =~= expected_slots());
        KernelLayout { slots }
    }
}

/// The buffer that belongs in binding slot `slot`, if the kernel has such a
/// slot.
pub fn role_of_slot(slot: u32) -> (role: Option<BufferRole>)
    ensures
        role == if slot < SLOT_COUNT {
            Some(slot_role(slot as int))
        } else {
            None
        },
{
    if slot == 0 {
        Some(BufferRole::InputA)
    } else if slot == 1 {
        Some(BufferRole::InputB)
    } else if slot == 2 {
        Some(BufferRole::Output)
    } else if slot == 3 {
        Some(BufferRole::Dimensions)
    } else {
        None
    }
}

} // verus!
