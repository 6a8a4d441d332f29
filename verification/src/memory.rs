//! Device memory: the choice of a memory type and the bookkeeping of
//! allocations.

use crate::device::{
    MemoryHeap, MemoryProperties, MemoryType, MEMORY_DEVICE_LOCAL, MEMORY_HOST_COHERENT,
    MEMORY_HOST_VISIBLE,
};
use crate::error::Error;
use vstd::prelude::*;

verus! {

/// Where the caller wants an allocation to live.
#[derive(Debug, Clone, Copy, PartialEq, Eq, Structural)]
pub enum MemoryLocation {
    /// Memory on the device.
    DeviceLocal,
    /// Memory that the host can map and that needs no explicit flush.
    HostVisibleCoherent,
}

/// Handle to an allocation. What it stands for is looked up in the allocator
/// that issued it, and the lookup fails once the allocation is freed.
#[derive(Debug, Clone, Copy, PartialEq, Eq, Structural)]
pub struct Allocation {
    id: u64,
}

/// One outstanding allocation and the resource that it is bound to.
#[derive(Debug, Clone, Copy, PartialEq, Eq, Structural)]
pub struct Binding {
    /// Identity of the allocation; never issued twice by one allocator.
    pub id: u64,
    /// The buffer or image that the memory is bound to.
    pub resource: u64,
    /// Position of the memory type in the device's table.
    pub memory_type: u32,
    /// Offset of the region in its device memory object. Every allocation
    /// has a memory object of its own, so this is 0.
    pub offset: u64,
    /// Size of the region in bytes.
    pub size: u64,
    /// Whether the host can map the region.
    pub host_visible: bool,
}

/// Tracks the device memory that is handed out for buffers and images.
///
/// Using an allocation after it was freed is checked: every lookup and a
/// second `free` fail with `UseAfterFree`.
#[derive(Debug)]
pub struct MemoryAllocator {
    memory: MemoryProperties,
    live: Vec<Binding>,
    issued: u64,
}

/// What an allocator is, for contracts.
pub struct AllocatorView {
    /// The memory-type table of the device.
    pub types: Seq<MemoryType>,
    /// The heaps of the device.
    pub heaps: Seq<MemoryHeap>,
    /// The outstanding allocations, oldest first.
    pub live: Seq<Binding>,
    /// How many allocations were ever issued.
    pub issued: nat,
}

impl MemoryLocation {
    /// The property bits that a memory type must have for this location.
    pub open spec fn spec_required_flags(self) -> u32 {
        match self {
            MemoryLocation::DeviceLocal => MEMORY_DEVICE_LOCAL,
            MemoryLocation::HostVisibleCoherent => 0x6,
        }
    }

    /// The property bits that a memory type must have for this location.
    #[verifier::when_used_as_spec(spec_required_flags)]
    pub fn required_flags(self) -> (flags: u32)
        ensures
            flags == self.spec_required_flags(),
            self == MemoryLocation::HostVisibleCoherent ==> flags == MEMORY_HOST_VISIBLE
                | MEMORY_HOST_COHERENT,
    {
        assert(0x2u32 | 0x4u32 == 0x6u32) by (bit_vector);
        match self {
            MemoryLocation::DeviceLocal => MEMORY_DEVICE_LOCAL,
            MemoryLocation::HostVisibleCoherent => MEMORY_HOST_VISIBLE | MEMORY_HOST_COHERENT,
        }
    }
}

impl View for Allocation {
    type V = u64;

    closed spec fn view(&self) -> u64 {
        self.id
    }
}

impl Allocation {
    /// Identity of the allocation.
    pub fn id(&self) -> (id: u64)
        ensures
            id == self@,
    {
        self.id
    }
}

/// The host can map memory of a type with these property bits.
pub open spec fn host_visible(property_flags: u32) -> bool {
    property_flags & MEMORY_HOST_VISIBLE == MEMORY_HOST_VISIBLE
}

impl AllocatorView {
    /// The memory type at position `i` is admitted by the resource's mask
    /// `type_bits` and has every property that `location` asks for.
    pub open spec fn compatible(self, type_bits: u32, location: MemoryLocation, i: int) -> bool {
        &&& 0 <= i < self.types.len()
        &&& i < 32
        &&& (type_bits >> (i as u32)) & 1 == 1
        &&& self.types[i].property_flags & location.required_flags() == location.required_flags()
    }

    /// `size` bytes fit in the heap behind the memory type at position `i`.
    pub open spec fn fits(self, size: u64, i: int) -> bool {
        &&& 0 <= i < self.types.len()
        &&& self.types[i].heap_index < self.heaps.len()
        &&& size <= self.heaps[self.types[i].heap_index as int].size
    }

    /// The memory type at position `i` can serve the request.
    pub open spec fn serves(
        self,
        size: u64,
        type_bits: u32,
        location: MemoryLocation,
        i: int,
    ) -> bool {
        self.compatible(type_bits, location, i) && self.fits(size, i)
    }

    /// The memory type at position `i` is compatible with the request and,
    /// where `must_fit` is set, its heap can hold `size` bytes.
    spec fn candidate(
        self,
        size: u64,
        type_bits: u32,
        location: MemoryLocation,
        must_fit: bool,
        i: int,
    ) -> bool {
        self.compatible(type_bits, location, i) && (must_fit ==> self.fits(size, i))
    }

    /// Some memory type is compatible with the request.
    pub open spec fn has_compatible(self, type_bits: u32, location: MemoryLocation) -> bool {
        exists|i: int| self.compatible(type_bits, location, i)
    }

    /// Some memory type can serve the request.
    pub open spec fn has_serving(
        self,
        size: u64,
        type_bits: u32,
        location: MemoryLocation,
    ) -> bool {
        exists|i: int| self.serves(size, type_bits, location, i)
    }

    /// The resource has memory bound to it.
    pub open spec fn is_bound(self, resource: u64) -> bool {
        exists|k: int| 0 <= k < self.live.len() && (#[trigger] self.live[k]).resource == resource
    }

    /// The allocation with this identity is outstanding.
    pub open spec fn is_live(self, id: u64) -> bool {
        exists|k: int| 0 <= k < self.live.len() && (#[trigger] self.live[k]).id == id
    }

    /// No identity and no resource occurs twice among the outstanding
    /// allocations, every identity was issued, and every allocation lies in
    /// a memory type of the table whose heap can hold it.
    pub open spec fn wf(self) -> bool {
        &&& self.types.len() <= 32
        &&& self.issued <= u64::MAX
        &&& forall|i: int|
            0 <= i < self.types.len() ==> (#[trigger] self.types[i]).heap_index < self.heaps.len()
        &&& forall|k: int|
            0 <= k < self.live.len() ==> {
                let b = #[trigger] self.live[k];
                &&& b.id < self.issued
                &&& b.offset == 0
                &&& self.fits(b.size, b.memory_type as int)
                &&& b.host_visible == host_visible(self.types[b.memory_type as int].property_flags)
            }
        &&& forall|k: int, l: int|
            0 <= k < l < self.live.len() ==> (#[trigger] self.live[k]).id != (
            #[trigger] self.live[l]).id
        &&& forall|k: int, l: int|
            0 <= k < l < self.live.len() ==> (#[trigger] self.live[k]).resource != (
            #[trigger] self.live[l]).resource
    }

    /// The request can be granted: the resource is unbound, some memory type
    /// can serve it, and an identity is left to issue.
    pub open spec fn grantable(
        self,
        resource: u64,
        size: u64,
        type_bits: u32,
        location: MemoryLocation,
    ) -> bool {
        &&& self.has_serving(size, type_bits, location)
        &&& !self.is_bound(resource)
        &&& self.issued < u64::MAX
    }

    /// The binding that a granted request creates: in the first memory type
    /// of the table that can serve it, of exactly the requested size.
    pub open spec fn is_grant(
        self,
        resource: u64,
        size: u64,
        type_bits: u32,
        location: MemoryLocation,
        binding: Binding,
    ) -> bool {
        &&& binding.id == self.issued
        &&& binding.resource == resource
        &&& binding.offset == 0
        &&& binding.size == size
        &&& self.serves(size, type_bits, location, binding.memory_type as int)
        &&& forall|i: int|
            0 <= i < binding.memory_type ==> !self.serves(size, type_bits, location, i)
        &&& binding.host_visible == host_visible(
            self.types[binding.memory_type as int].property_flags,
        )
    }

    /// `next` and `result` are what `allocate` owes on the request.
    ///
    /// A granted request adds one binding and issues its identity. A refused
    /// one changes nothing: `NoCompatibleMemoryType` where no memory type is
    /// compatible, `Allocation` where one is but the request cannot be
    /// granted.
    pub open spec fn allocated(
        self,
        resource: u64,
        size: u64,
        type_bits: u32,
        location: MemoryLocation,
        next: AllocatorView,
        result: Result<Allocation, Error>,
    ) -> bool {
        match result {
            Ok(allocation) => {
                &&& self.grantable(resource, size, type_bits, location)
                &&& allocation@ == self.issued
                &&& next.live.len() == self.live.len() + 1
                &&& self.is_grant(resource, size, type_bits, location, next.live.last())
                &&& next == AllocatorView {
                    live: self.live.push(next.live.last()),
                    issued: self.issued + 1,
                    ..self
                }
            },
            Err(e) => {
                &&& next == self
                &&& !self.grantable(resource, size, type_bits, location)
                &&& e == if self.has_compatible(type_bits, location) {
                    Error::Allocation
                } else {
                    Error::NoCompatibleMemoryType
                }
            },
        }
    }
}

impl View for MemoryAllocator {
    type V = AllocatorView;

    closed spec fn view(&self) -> AllocatorView {
        AllocatorView {
            types: self.memory.memory_types@,
            heaps: self.memory.memory_heaps@,
            live: self.live@,
            issued: self.issued as nat,
        }
    }
}

impl MemoryAllocator {
    /// An allocator over the memory layout of a device, with nothing
    /// allocated. A layout with more than 32 memory types, or with a type
    /// that names a heap which is not there, is refused with `Initialization`.
    pub fn new(memory: MemoryProperties) -> (made: Result<MemoryAllocator, Error>)
        ensures
            match made {
                Ok(allocator) => {
                    &&& memory.wf()
                    &&& allocator@.wf()
                    &&& allocator@ == (AllocatorView {
                        types: memory.memory_types@,
                        heaps: memory.memory_heaps@,
                        live: Seq::empty(),
                        issued: 0,
                    })
                },
                Err(e) => !memory.wf() && e == Error::Initialization,
            },
    {
        if memory.memory_types.len() > 32 {
            return Err(Error::Initialization);
        }
        let mut i: usize = 0;
        while i < memory.memory_types.len()
            invariant
                i <= memory.memory_types@.len(),
                forall|k: int|
                    0 <= k < i ==> (#[trigger] memory.memory_types@[k]).heap_index
                        < memory.memory_heaps@.len(),
            decreases memory.memory_types@.len() - i,
        {
            if memory.memory_types[i].heap_index as usize >= memory.memory_heaps.len() {
                return Err(Error::Initialization);
            }
            i += 1;
        }
        Ok(MemoryAllocator { memory, live: Vec::new(), issued: 0 })
    }

    /// The memory layout that the allocator works on.
    pub fn memory(&self) -> (memory: &MemoryProperties)
        ensures
            memory.memory_types@ == self@.types,
            memory.memory_heaps@ == self@.heaps,
    {
        &self.memory
    }

    /// How many allocations are outstanding.
    pub fn outstanding(&self) -> (count: usize)
        ensures
            count == self@.live.len(),
    {
        self.live.len()
    }

    /// The first memory type that is compatible with the request and, where
    /// `must_fit` is set, whose heap can hold `size` bytes.
    fn first_type(
        &self,
        size: u64,
        type_bits: u32,
        location: MemoryLocation,
        must_fit: bool,
    ) -> (found: Option<u32>)
        requires
            self@.wf(),
        ensures
            match found {
                Some(i) => {
                    &&& self@.candidate(size, type_bits, location, must_fit, i as int)
                    &&& forall|k: int|
                        0 <= k < i ==> !#[trigger] self@.candidate(
                            size,
                            type_bits,
                            location,
                            must_fit,
                            k,
                        )
                },
                None => forall|k: int|
                    !#[trigger] self@.candidate(size, type_bits, location, must_fit, k),
            },
    {
        let wanted = location.required_flags();
        let mut i: u32 = 0;
        while (i as usize) < self.memory.memory_types.len()
            invariant
                self@.wf(),
                wanted == location.required_flags(),
                i <= self@.types.len(),
                forall|k: int|
                    0 <= k < i ==> !#[trigger] self@.candidate(
                        size,
                        type_bits,
                        location,
                        must_fit,
                        k,
                    ),
            decreases self@.types.len() - i,
        {
            let entry = self.memory.memory_types[i as usize];
            if (type_bits >> i) & 1 == 1 && entry.property_flags & wanted == wanted {
                if !must_fit || size <= self.memory.memory_heaps[entry.heap_index as usize].size {
                    return Some(i);
                }
            }
            i += 1;
        }
        None
    }

    /// Where the binding of the resource stands among the outstanding ones.
    fn bound_at(&self, resource: u64) -> (found: Option<usize>)
        ensures
            match found {
                Some(k) => k < self@.live.len() && self@.live[k as int].resource == resource,
                None => !self@.is_bound(resource),
            },
    {
        let mut k: usize = 0;
        while k < self.live.len()
            invariant
                k <= self@.live.len(),
                forall|l: int| 0 <= l < k ==> (#[trigger] self@.live[l]).resource != resource,
            decreases self@.live.len() - k,
        {
            if self.live[k].resource == resource {
                return Some(k);
            }
            k += 1;
        }
        None
    }

    /// Where the allocation with this identity stands among the outstanding
    /// ones.
    fn live_at(&self, id: u64) -> (found: Option<usize>)
        ensures
            match found {
                Some(k) => k < self@.live.len() && self@.live[k as int].id == id,
                None => !self@.is_live(id),
            },
    {
        let mut k: usize = 0;
        while k < self.live.len()
            invariant
                k <= self@.live.len(),
                forall|l: int| 0 <= l < k ==> (#[trigger] self@.live[l]).id != id,
            decreases self@.live.len() - k,
        {
            if self.live[k].id == id {
                return Some(k);
            }
            k += 1;
        }
        None
    }

    /// Allocates `size` bytes for `resource` and binds them to it in one
    /// step.
    ///
    /// `type_bits` is the resource's mask of admissible memory types: bit
    /// `i` admits the type at position `i` of the table. The first type that
    /// the mask admits, that has the properties of `location` and whose heap
    /// can hold `size` bytes is taken. A refused request binds nothing.
    pub fn allocate(
        &mut self,
        resource: u64,
        size: u64,
        type_bits: u32,
        location: MemoryLocation,
    ) -> (result: Result<Allocation, Error>)
        requires
            old(self)@.wf(),
        ensures
            final(self)@.wf(),
            old(self)@.allocated(resource, size, type_bits, location, final(self)@, result),
    {
        let compatible = self.first_type(size, type_bits, location, false);
        let found = self.first_type(size, type_bits, location, true);
        let bound = self.bound_at(resource);
        proof {
            let view = self@;
            assert forall|i: int| view.serves(size, type_bits, location, i) == view.candidate(
                size,
                type_bits,
                location,
                true,
                i,
            ) by {}
            assert forall|i: int| view.compatible(type_bits, location, i) == view.candidate(
                size,
                type_bits,
                location,
                false,
                i,
            ) by {}
        }
        if compatible.is_none() {
            return Err(Error::NoCompatibleMemoryType);
        }
        match found {
            Some(memory_type) => {
                if bound.is_some() || self.issued == u64::MAX {
                    return Err(Error::Allocation);
                }
                let flags = self.memory.memory_types[memory_type as usize].property_flags;
                let binding = Binding {
                    id: self.issued,
                    resource,
                    memory_type,
                    offset: 0,
                    size,
                    host_visible: flags & MEMORY_HOST_VISIBLE == MEMORY_HOST_VISIBLE,
                };
                let id = self.issued;
                self.live.push(binding);
                self.issued = self.issued + 1;
                proof {
                    assert(old(self)@.serves(size, type_bits, location, memory_type as int));
                }
                Ok(Allocation { id })
            },
            None => Err(Error::Allocation),
        }
    }

    /// Looks up what an allocation stands for: its resource, memory type,
    /// offset, size and whether the host can map it. Fails with
    /// `UseAfterFree` once the allocation is freed, and for a handle that
    /// this allocator never issued.
    pub fn binding(&self, allocation: Allocation) -> (found: Result<Binding, Error>)
        ensures
            match found {
                Ok(binding) => binding.id == allocation@ && self@.live.contains(binding),
                Err(e) => e == Error::UseAfterFree && !self@.is_live(allocation@),
            },
    {
        match self.live_at(allocation.id) {
            Some(k) => Ok(self.live[k]),
            None => Err(Error::UseAfterFree),
        }
    }

    /// Frees an allocation. Its binding leaves the outstanding ones and all
    /// others stay as they are, in their order. The resource that it was
    /// bound to must have been destroyed before. Freeing what is not
    /// outstanding fails with `UseAfterFree` and changes nothing.
    pub fn free(&mut self, allocation: Allocation) -> (result: Result<(), Error>)
        requires
            old(self)@.wf(),
        ensures
            final(self)@.wf(),
            match result {
                Ok(()) => exists|k: int|
                    {
                        &&& 0 <= k < old(self)@.live.len()
                        &&& (#[trigger] old(self)@.live[k]).id == allocation@
                        &&& final(self)@ == (AllocatorView {
                            live: old(self)@.live.remove(k),
                            ..old(self)@
                        })
                    },
                Err(e) => {
                    &&& e == Error::UseAfterFree
                    &&& !old(self)@.is_live(allocation@)
                    &&& final(self)@ == old(self)@
                },
            },
            !final(self)@.is_live(allocation@),
    {
        match self.live_at(allocation.id) {
            Some(k) => {
                self.live.remove(k);
                proof {
                    let before = old(self)@.live;
                    let after = final(self)@.live;
                    assert forall|a: int| 0 <= a < after.len() implies (#[trigger] after[a])
                        == before[if a < k { a } else { a + 1 }] by {}
                    assert(!final(self)@.is_live(allocation@)) by {
                        if final(self)@.is_live(allocation@) {
                            let a = choose|a: int|
                                0 <= a < after.len() && (#[trigger] after[a]).id == allocation@;
                        }
                    }
                }
                Ok(())
            },
            None => Err(Error::UseAfterFree),
        }
    }

    /// Ends the allocator's life. It must be empty by then: with allocations
    /// outstanding this is an `AllocatorLeak`.
    pub fn shutdown(self) -> (result: Result<(), Error>)
        ensures
            result == if self@.live.len() == 0 {
                Ok::<(), Error>(())
            } else {
                Err::<(), Error>(Error::AllocatorLeak)
            },
    {
        if self.live.len() == 0 {
            Ok(())
        } else {
            Err(Error::AllocatorLeak)
        }
    }
}

/// A request that some memory type can serve is granted, unless the resource
/// is bound already or the allocator has run out of identities, and the
/// allocation holds at least the requested size.
pub proof fn lemma_allocate_succeeds(
    before: AllocatorView,
    resource: u64,
    size: u64,
    type_bits: u32,
    location: MemoryLocation,
    after: AllocatorView,
    result: Result<Allocation, Error>,
)
    requires
        before.wf(),
        before.allocated(resource, size, type_bits, location, after, result),
        before.has_serving(size, type_bits, location),
        !before.is_bound(resource),
        before.issued < u64::MAX,
    ensures
        result is Ok,
        after.live.last().id == result->Ok_0@,
        after.live.last().size >= size,
        after.live.last().resource == resource,
{
}

/// A request with a location that no admissible memory type satisfies fails
/// with `NoCompatibleMemoryType`, and nothing is bound.
pub proof fn lemma_allocate_incompatible(
    before: AllocatorView,
    resource: u64,
    size: u64,
    type_bits: u32,
    location: MemoryLocation,
    after: AllocatorView,
    result: Result<Allocation, Error>,
)
    requires
        before.allocated(resource, size, type_bits, location, after, result),
        !before.has_compatible(type_bits, location),
    ensures
        result == Err::<Allocation, Error>(Error::NoCompatibleMemoryType),
        after == before,
        !after.is_bound(resource) <==> !before.is_bound(resource),
{
}

/// Memory allocated for the host is mappable: a type with the properties of
/// `HostVisibleCoherent` is host visible.
pub proof fn lemma_host_location_is_visible(view: AllocatorView, type_bits: u32, i: int)
    requires
        view.compatible(type_bits, MemoryLocation::HostVisibleCoherent, i),
    ensures
        host_visible(view.types[i].property_flags),
{
    let flags = view.types[i].property_flags;
    assert(flags & 0x6 == 0x6 ==> flags & 0x2 == 0x2) by (bit_vector);
}

} // verus!
