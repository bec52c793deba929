//! What a device buffer may be used for.

use vstd::prelude::*;

verus! {

/// One thing a buffer can be declared capable of.
#[derive(Clone, Copy, Debug, PartialEq, Eq, Structural)]
pub enum Capability {
    /// Bound as storage that the kernel only reads.
    ReadOnlyStorage,
    /// Bound as storage that the kernel reads and writes.
    ReadWriteStorage,
    /// Bound as a uniform record.
    Uniform,
    /// Source of a buffer-to-buffer copy.
    CopySource,
    /// Destination of a buffer-to-buffer copy.
    CopyDestination,
    /// Mapped into host memory for reading.
    HostMappable,
}

/// The set of capabilities a buffer is declared with. A buffer never gains or
/// loses a capability after it was created.
#[derive(Clone, Copy, Debug, PartialEq, Eq, Structural)]
pub struct BufferUsage {
    pub read_only_storage: bool,
    pub read_write_storage: bool,
    pub uniform: bool,
    pub copy_source: bool,
    pub copy_destination: bool,
    pub host_mappable: bool,
}

/// Flag of a buffer that can be mapped for reading, as WebGPU numbers it.
pub const FLAG_MAP_READ: u32 = 0x0001;

/// Flag of a buffer that can be copied from.
pub const FLAG_COPY_SRC: u32 = 0x0004;

/// Flag of a buffer that can be copied to.
pub const FLAG_COPY_DST: u32 = 0x0008;

/// Flag of a buffer that can be bound as a uniform.
pub const FLAG_UNIFORM: u32 = 0x0040;

/// Flag of a buffer that can be bound as storage, read-only or read-write.
pub const FLAG_STORAGE: u32 = 0x0080;

impl View for BufferUsage {
    type V = Set<Capability>;

    open spec fn view(&self) -> Set<Capability> {
        Set::new(|c: Capability| self.has(c))
    }
}

impl BufferUsage {
    /// The flag that stands for `capability`.
    pub open spec fn has(&self, capability: Capability) -> bool {
        match capability {
            Capability::ReadOnlyStorage => self.read_only_storage,
            Capability::ReadWriteStorage => self.read_write_storage,
            Capability::Uniform => self.uniform,
            Capability::CopySource => self.copy_source,
            Capability::CopyDestination => self.copy_destination,
            Capability::HostMappable => self.host_mappable,
        }
    }

    /// The usage made of exactly the capabilities in `held`.
    pub open spec fn of(held: Set<Capability>) -> BufferUsage {
        BufferUsage {
            read_only_storage: held.contains(Capability::ReadOnlyStorage),
            read_write_storage: held.contains(Capability::ReadWriteStorage),
            uniform: held.contains(Capability::Uniform),
            copy_source: held.contains(Capability::CopySource),
            copy_destination: held.contains(Capability::CopyDestination),
            host_mappable: held.contains(Capability::HostMappable),
        }
    }

    /// The usage as the device is told it: the sum of the flags of its
    /// capabilities. Both kinds of storage share one flag, since what the
    /// kernel may do with a storage buffer is declared by the kernel.
    pub open spec fn flags(&self) -> int {
        (if self.host_mappable {
            FLAG_MAP_READ as int
        } else {
            0
        }) + (if self.copy_source {
            FLAG_COPY_SRC as int
        } else {
            0
        }) + (if self.copy_destination {
            FLAG_COPY_DST as int
        } else {
            0
        }) + (if self.uniform {
            FLAG_UNIFORM as int
        } else {
            0
        }) + (if self.read_only_storage || self.read_write_storage {
            FLAG_STORAGE as int
        } else {
            0
        })
    }

    /// Computes the flags to create a buffer of this usage with.
    pub fn bits(&self) -> (bits: u32)
        ensures
            bits == self.flags(),
    {
        let mut bits: u32 = 0;
        if self.host_mappable {
            bits = bits + FLAG_MAP_READ;
        }
        if self.copy_source {
            bits = bits + FLAG_COPY_SRC;
        }
        if self.copy_destination {
            bits = bits + FLAG_COPY_DST;
        }
        if self.uniform {
            bits = bits + FLAG_UNIFORM;
        }
        if self.read_only_storage || self.read_write_storage {
            bits = bits + FLAG_STORAGE;
        }
        bits
    }

    /// The usage with no capability at all.
    pub fn empty() -> (usage: BufferUsage)
        ensures
            usage@ == Set::<Capability>::empty(),
            usage == BufferUsage::of(Set::empty()),
    {
        let usage = BufferUsage {
            read_only_storage: false,
            read_write_storage: false,
            uniform: false,
            copy_source: false,
            copy_destination: false,
            host_mappable: false,
        };
        assert(usage@ =~= Set::<Capability>::empty());
        usage
    }

    /// The usage with exactly one capability.
    pub fn only(capability: Capability) -> (usage: BufferUsage)
        ensures
            usage@ == set![capability],
            usage == BufferUsage::of(set![capability]),
    {
        let usage = BufferUsage::empty().with(capability);
        assert(usage@ =~= set![capability]);
        usage
    }

    /// This usage with `capability` added.
    pub fn with(self, capability: Capability) -> (usage: BufferUsage)
        ensures
            usage@ == self@.insert(capability),
            usage == BufferUsage::of(self@.insert(capability)),
    {
        let mut usage = self;
        match capability {
            Capability::ReadOnlyStorage => {
                usage.read_only_storage = true;
            },
            Capability::ReadWriteStorage => {
                usage.read_write_storage = true;
            },
            Capability::Uniform => {
                usage.uniform = true;
            },
            Capability::CopySource => {
                usage.copy_source = true;
            },
            Capability::CopyDestination => {
                usage.copy_destination = true;
            },
            Capability::HostMappable => {
                usage.host_mappable = true;
            },
        }
        assert(usage@ =~= self@.insert(capability));
        usage
    }

    /// Whether a buffer declared with this usage may serve as `capability`.
    pub fn contains(&self, capability: Capability) -> (held: bool)
        ensures
            held == self@.contains(capability),
            held == self.has(capability),
    {
        match capability {
            Capability::ReadOnlyStorage => self.read_only_storage,
            Capability::ReadWriteStorage => self.read_write_storage,
            Capability::Uniform => self.uniform,
            Capability::CopySource => self.copy_source,
            Capability::CopyDestination => self.copy_destination,
            Capability::HostMappable => self.host_mappable,
        }
    }
}

/// A usage is the set of its capabilities and nothing more: building a usage
/// from a set gives back that set, and building it from the set of a usage
/// gives back that usage.
pub proof fn lemma_usage_is_its_set(usage: BufferUsage, held: Set<Capability>)
    ensures
        BufferUsage::of(held)@ == held,
        BufferUsage::of(usage@) == usage,
{
    assert forall|c: Capability| BufferUsage::of(held)@.contains(c) == held.contains(c) by {
        match c {
            Capability::ReadOnlyStorage => {},
            Capability::ReadWriteStorage => {},
            Capability::Uniform => {},
            Capability::CopySource => {},
            Capability::CopyDestination => {},
            Capability::HostMappable => {},
        }
    }
    assert(BufferUsage::of(held)@ =~= held);
    assert(usage@.contains(Capability::ReadOnlyStorage) == usage.read_only_storage);
    assert(usage@.contains(Capability::ReadWriteStorage) == usage.read_write_storage);
    assert(usage@.contains(Capability::Uniform) == usage.uniform);
    assert(usage@.contains(Capability::CopySource) == usage.copy_source);
    assert(usage@.contains(Capability::CopyDestination) == usage.copy_destination);
    assert(usage@.contains(Capability::HostMappable) == usage.host_mappable);
}

} // verus!
