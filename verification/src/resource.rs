//! The renderer's resource model: buffers with tracked usage states.
//!
//! Every buffer carries a [`ResourceUsageState`] beside its bytes, and the
//! state moves only through explicit barrier calls whose declared pre-state
//! must match the tracked state — no implicit state inference.  The
//! [`DeviceModel`] stands in for the memory-allocation and
//! command-submission services: it answers allocation requests (up to a
//! configurable limit, so that fatal allocation paths can be exercised),
//! performs host writes, barriers and full-range copies, and logs every
//! state transition and every draw so that the barrier discipline is visible
//! in its history.

use vstd::prelude::*;

verus! {

/// Tracked usage state of one buffer.  Transitions are mediated only by
/// explicit barriers.
#[derive(Clone, Copy, PartialEq, Eq, Structural, Debug)]
pub enum ResourceUsageState {
    /// Freshly allocated device-local memory, not yet usable.
    Unused,
    /// Source of a transfer.
    TransferSrc,
    /// Destination of a transfer.
    TransferDst,
    /// Host-readable and host-writable.
    HostRw,
    /// Bound as vertex input.
    VertexBuffer,
}

/// Usage capabilities a buffer was allocated with.
#[derive(Clone, Copy, PartialEq, Eq, Structural, Debug)]
pub struct BufferUsageFlags {
    /// May act as the source of a transfer.
    pub transfer_src: bool,
    /// May act as the destination of a transfer.
    pub transfer_dst: bool,
    /// May be bound as vertex input.
    pub vertex_buffer: bool,
}

/// One allocated buffer: its size, capabilities, visibility, tracked usage
/// state, and byte contents.
pub struct BufferRecord {
    /// Size in bytes; fixed at allocation.
    pub size: usize,
    /// Capabilities requested at allocation.
    pub usage: BufferUsageFlags,
    /// Whether the host may map and write it.
    pub host_visible: bool,
    /// Tracked usage state.
    pub state: ResourceUsageState,
    /// Byte contents, always exactly `size` bytes.
    pub bytes: Vec<u8>,
}

impl BufferRecord {
    /// Well-formedness: the contents fill the allocation exactly.
    pub open spec fn wf(&self) -> bool {
        self.bytes@.len() == self.size
    }
}

/// One barrier on record: buffer, declared pre-state, and new state.
#[derive(Clone, Copy, PartialEq, Eq, Structural, Debug)]
pub struct TransitionRecord {
    /// Which buffer the barrier covered.
    pub buffer: usize,
    /// The declared (and checked) state before the barrier.
    pub from: ResourceUsageState,
    /// The state after the barrier.
    pub to: ResourceUsageState,
}

/// One submitted draw on record.
#[derive(Clone, Copy, PartialEq, Eq, Structural, Debug)]
pub struct DrawRecord {
    /// The buffer bound as vertex input for the draw.
    pub buffer: usize,
    /// Number of vertices drawn.
    pub vertex_count: u32,
    /// Number of instances drawn.
    pub instance_count: u32,
}

/// The allocation / submission backend the renderer runs against, with its
/// full observable history.  Failure knobs let callers exercise the fatal
/// setup paths: `alloc_limit` caps how many allocations succeed, and the
/// `fail_*` flags make the host write or the one-shot submission fail.
pub struct DeviceModel {
    /// Number of allocations that will succeed in total.
    pub alloc_limit: usize,
    /// Force every host write to fail.
    pub fail_write: bool,
    /// Force every submission to fail.
    pub fail_submission: bool,
    /// Allocated buffers, addressed by allocation order.
    pub buffers: Vec<BufferRecord>,
    /// Every barrier performed, in order.
    pub transitions: Vec<TransitionRecord>,
    /// Every draw submitted, in order.
    pub draws: Vec<DrawRecord>,
}

impl DeviceModel {
    /// Well-formedness: buffer contents fill their allocations, and the
    /// history only references allocated buffers.
    pub open spec fn wf(&self) -> bool {
        &&& forall|i: int|
            0 <= i < self.buffers@.len() ==> (#[trigger] self.buffers@[i]).wf()
        &&& forall|i: int|
            0 <= i < self.transitions@.len() ==> (#[trigger] self.transitions@[i]).buffer
                < self.buffers@.len()
        &&& forall|i: int|
            0 <= i < self.draws@.len() ==> (#[trigger] self.draws@[i]).buffer
                < self.buffers@.len()
    }

    /// The failure knobs of two models agree.
    pub open spec fn same_config(&self, other: &DeviceModel) -> bool {
        &&& self.alloc_limit == other.alloc_limit
        &&& self.fail_write == other.fail_write
        &&& self.fail_submission == other.fail_submission
    }

    /// Whether the next allocation request will succeed.
    pub open spec fn can_allocate(&self) -> bool {
        self.buffers@.len() < self.alloc_limit
    }

    /// A backend with the given allocation budget and failure knobs, and an
    /// empty history.
    pub fn new(alloc_limit: usize, fail_write: bool, fail_submission: bool) -> (r: DeviceModel)
        ensures
            r.wf(),
            r.alloc_limit == alloc_limit,
            r.fail_write == fail_write,
            r.fail_submission == fail_submission,
            r.buffers@ =~= Seq::<BufferRecord>::empty(),
            r.transitions@ =~= Seq::<TransitionRecord>::empty(),
            r.draws@ =~= Seq::<DrawRecord>::empty(),
    {
        DeviceModel {
            alloc_limit,
            fail_write,
            fail_submission,
            buffers: Vec::new(),
            transitions: Vec::new(),
            draws: Vec::new(),
        }
    }

    /// A freshly allocated buffer: requested size and capabilities, the
    /// given visibility and start state, contents zeroed.
    pub open spec fn fresh_buffer(
        b: BufferRecord,
        size: int,
        usage: BufferUsageFlags,
        host_visible: bool,
        state: ResourceUsageState,
    ) -> bool {
        &&& b.size == size
        &&& b.usage == usage
        &&& b.host_visible == host_visible
        &&& b.state == state
        &&& b.bytes@.len() == size
        &&& forall|i: int| 0 <= i < size ==> b.bytes@[i] == 0u8
    }

    /// Allocate a device-local buffer.  Succeeds exactly while the
    /// allocation budget lasts; a fresh device-local buffer starts in state
    /// `Unused` and is not host-visible.
    pub fn allocate_device_local_buffer(&mut self, size: usize, usage: BufferUsageFlags) -> (r:
        Option<usize>)
        requires
            old(self).wf(),
        ensures
            final(self).wf(),
            old(self).can_allocate() ==> {
                &&& r == Some(old(self).buffers@.len() as usize)
                &&& final(self).buffers@.len() == old(self).buffers@.len() + 1
                &&& forall|i: int|
                    0 <= i < old(self).buffers@.len() ==> final(self).buffers@[i] == old(
                        self,
                    ).buffers@[i]
                &&& DeviceModel::fresh_buffer(
                    final(self).buffers@.last(),
                    size as int,
                    usage,
                    false,
                    ResourceUsageState::Unused,
                )
                &&& final(self).transitions@ == old(self).transitions@
                &&& final(self).draws@ == old(self).draws@
                &&& final(self).same_config(old(self))
            },
            !old(self).can_allocate() ==> r is None && *final(self) == *old(self),
    {
        if self.buffers.len() < self.alloc_limit {
            let id = self.buffers.len();
            let bytes = zero_bytes(size);
            self.buffers.push(
                BufferRecord {
                    size,
                    usage,
                    host_visible: false,
                    state: ResourceUsageState::Unused,
                    bytes,
                },
            );
            Some(id)
        } else {
            None
        }
    }

    /// Allocate a host-visible upload buffer.  Succeeds exactly while the
    /// allocation budget lasts; a fresh upload buffer starts in state
    /// `HostRw` and is host-visible.
    pub fn allocate_upload_buffer(&mut self, size: usize, usage: BufferUsageFlags) -> (r: Option<
        usize,
    >)
        requires
            old(self).wf(),
        ensures
            final(self).wf(),
            old(self).can_allocate() ==> {
                &&& r == Some(old(self).buffers@.len() as usize)
                &&& final(self).buffers@.len() == old(self).buffers@.len() + 1
                &&& forall|i: int|
                    0 <= i < old(self).buffers@.len() ==> final(self).buffers@[i] == old(
                        self,
                    ).buffers@[i]
                &&& DeviceModel::fresh_buffer(
                    final(self).buffers@.last(),
                    size as int,
                    usage,
                    true,
                    ResourceUsageState::HostRw,
                )
                &&& final(self).transitions@ == old(self).transitions@
                &&& final(self).draws@ == old(self).draws@
                &&& final(self).same_config(old(self))
            },
            !old(self).can_allocate() ==> r is None && *final(self) == *old(self),
    {
        if self.buffers.len() < self.alloc_limit {
            let id = self.buffers.len();
            let bytes = zero_bytes(size);
            self.buffers.push(
                BufferRecord {
                    size,
                    usage,
                    host_visible: true,
                    state: ResourceUsageState::HostRw,
                    bytes,
                },
            );
            Some(id)
        } else {
            None
        }
    }

    /// Whether a host write of `data` into buffer `id` is accepted: the
    /// write knob is off, the buffer exists, is host-visible, is in state
    /// `HostRw`, and the data fills it exactly.
    pub open spec fn write_accepted(&self, id: usize, data: Seq<u8>) -> bool {
        &&& !self.fail_write
        &&& id < self.buffers@.len()
        &&& self.buffers@[id as int].host_visible
        &&& self.buffers@[id as int].state == ResourceUsageState::HostRw
        &&& data.len() == self.buffers@[id as int].size
    }

    /// Write `data` into host-visible buffer `id`.  On success the buffer
    /// holds exactly `data`; on failure nothing changes.
    pub fn write_buffer_content(&mut self, id: usize, data: &Vec<u8>) -> (r: bool)
        requires
            old(self).wf(),
        ensures
            final(self).wf(),
            r == old(self).write_accepted(id, data@),
            r ==> {
                &&& final(self).buffers@.len() == old(self).buffers@.len()
                &&& forall|i: int|
                    0 <= i < old(self).buffers@.len() && i != id ==> final(self).buffers@[i]
                        == old(self).buffers@[i]
                &&& final(self).buffers@[id as int].bytes@ == data@
                &&& final(self).buffers@[id as int].size == old(self).buffers@[id as int].size
                &&& final(self).buffers@[id as int].usage == old(self).buffers@[id as int].usage
                &&& final(self).buffers@[id as int].host_visible == old(self).buffers@[
                    id as int
                ].host_visible
                &&& final(self).buffers@[id as int].state == old(self).buffers@[id as int].state
                &&& final(self).transitions@ == old(self).transitions@
                &&& final(self).draws@ == old(self).draws@
                &&& final(self).same_config(old(self))
            },
            !r ==> *final(self) == *old(self),
    {
        if self.fail_write {
            return false;
        }
        if id >= self.buffers.len() {
            return false;
        }
        let accepted = {
            let b = &self.buffers[id];
            b.host_visible && b.state == ResourceUsageState::HostRw && data.len() == b.size
        };
        if !accepted {
            return false;
        }
        let copied = copy_bytes(data);
        let b = &mut self.buffers[id];
        b.bytes = copied;
        true
    }

    /// Barrier: transition buffer `id` from its declared pre-state `from`
    /// (which must match the tracked state) to `to`, and log the
    /// transition.  Contents are untouched.
    pub fn usage_barrier(
        &mut self,
        id: usize,
        from: ResourceUsageState,
        to: ResourceUsageState,
    )
        requires
            old(self).wf(),
            id < old(self).buffers@.len(),
            old(self).buffers@[id as int].state == from,
        ensures
            final(self).wf(),
            final(self).buffers@.len() == old(self).buffers@.len(),
            forall|i: int|
                0 <= i < old(self).buffers@.len() && i != id ==> final(self).buffers@[i] == old(
                    self,
                ).buffers@[i],
            final(self).buffers@[id as int].state == to,
            final(self).buffers@[id as int].size == old(self).buffers@[id as int].size,
            final(self).buffers@[id as int].usage == old(self).buffers@[id as int].usage,
            final(self).buffers@[id as int].host_visible == old(self).buffers@[
                id as int
            ].host_visible,
            final(self).buffers@[id as int].bytes@ == old(self).buffers@[id as int].bytes@,
            final(self).transitions@ == old(self).transitions@.push(
                (TransitionRecord { buffer: id, from, to }),
            ),
            final(self).draws@ == old(self).draws@,
            final(self).same_config(old(self)),
    {
        let b = &mut self.buffers[id];
        b.state = to;
        self.transitions.push(TransitionRecord { buffer: id, from, to });
    }

    /// Full-range copy from buffer `src` to buffer `dst`.  Both must be in
    /// the matching transfer states, be allocated with the matching
    /// transfer capability, and have equal sizes; afterwards `dst` holds
    /// exactly the bytes of `src`.
    pub fn copy_full(&mut self, src: usize, dst: usize)
        requires
            old(self).wf(),
            src < old(self).buffers@.len(),
            dst < old(self).buffers@.len(),
            src != dst,
            old(self).buffers@[src as int].state == ResourceUsageState::TransferSrc,
            old(self).buffers@[dst as int].state == ResourceUsageState::TransferDst,
            old(self).buffers@[src as int].usage.transfer_src,
            old(self).buffers@[dst as int].usage.transfer_dst,
            old(self).buffers@[src as int].size == old(self).buffers@[dst as int].size,
        ensures
            final(self).wf(),
            final(self).buffers@.len() == old(self).buffers@.len(),
            forall|i: int|
                0 <= i < old(self).buffers@.len() && i != dst ==> final(self).buffers@[i] == old(
                    self,
                ).buffers@[i],
            final(self).buffers@[dst as int].bytes@ == old(self).buffers@[src as int].bytes@,
            final(self).buffers@[dst as int].size == old(self).buffers@[dst as int].size,
            final(self).buffers@[dst as int].usage == old(self).buffers@[dst as int].usage,
            final(self).buffers@[dst as int].host_visible == old(self).buffers@[
                dst as int
            ].host_visible,
            final(self).buffers@[dst as int].state == old(self).buffers@[dst as int].state,
            final(self).transitions@ == old(self).transitions@,
            final(self).draws@ == old(self).draws@,
            final(self).same_config(old(self)),
    {
        let copied = {
            let s = &self.buffers[src];
            copy_bytes(&s.bytes)
        };
        let b = &mut self.buffers[dst];
        b.bytes = copied;
    }

    /// Submit one draw with buffer `id` bound as vertex input.  The buffer
    /// must be tracked in state `VertexBuffer` and must have been allocated
    /// with vertex-input capability: no draw can reach a buffer before its
    /// final barrier.
    pub fn submit_draw(&mut self, id: usize, vertex_count: u32, instance_count: u32)
        requires
            old(self).wf(),
            id < old(self).buffers@.len(),
            old(self).buffers@[id as int].state == ResourceUsageState::VertexBuffer,
            old(self).buffers@[id as int].usage.vertex_buffer,
        ensures
            final(self).wf(),
            final(self).buffers@ == old(self).buffers@,
            final(self).transitions@ == old(self).transitions@,
            final(self).draws@ == old(self).draws@.push(
                (DrawRecord { buffer: id, vertex_count, instance_count }),
            ),
            final(self).same_config(old(self)),
    {
        self.draws.push(DrawRecord { buffer: id, vertex_count, instance_count });
    }

    /// Read the full contents of buffer `id` back to the host.
    pub fn read_back(&self, id: usize) -> (r: Vec<u8>)
        requires
            self.wf(),
            id < self.buffers@.len(),
        ensures
            r@ == self.buffers@[id as int].bytes@,
    {
        copy_bytes(&self.buffers[id].bytes)
    }

    /// How many buffers have been allocated.
    pub fn buffer_count(&self) -> (r: usize)
        ensures
            r == self.buffers@.len(),
    {
        self.buffers.len()
    }
}

/// A zero-filled byte row: the contents of a fresh allocation.
pub fn zero_bytes(n: usize) -> (r: Vec<u8>)
    ensures
        r@.len() == n,
        forall|i: int| 0 <= i < n ==> r@[i] == 0u8,
{
    let mut v: Vec<u8> = Vec::new();
    let mut i: usize = 0;
    while i < n
        invariant
            i <= n,
            v@.len() == i,
            forall|j: int| 0 <= j < i ==> v@[j] == 0u8,
        decreases n - i,
    {
        v.push(0);
        i = i + 1;
    }
    v
}

/// An exact host-side copy of a byte row.
pub fn copy_bytes(data: &Vec<u8>) -> (r: Vec<u8>)
    ensures
        r@ == data@,
{
    let mut v: Vec<u8> = Vec::new();
    let mut i: usize = 0;
    while i < data.len()
        invariant
            i <= data@.len(),
            v@ == data@.take(i as int),
        decreases data@.len() - i,
    {
        v.push(data[i]);
        proof {
            assert(data@.take((i + 1) as int) =~= data@.take(i as int).push(data@[i as int]));
        }
        i = i + 1;
    }
    proof {
        assert(data@.take(data@.len() as int) =~= data@);
    }
    v
}

} // verus!
