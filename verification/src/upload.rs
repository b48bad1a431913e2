//! One-shot staged upload of a finished sample buffer into a device-local
//! vertex buffer.
//!
//! The uploader allocates the device-local destination and a host-visible
//! staging buffer, writes the sample byte image into the staging buffer, and
//! submits one barrier-guarded copy: staging `HostRw -> TransferSrc`, device
//! `Unused -> TransferDst`, full-range copy, device
//! `TransferDst -> VertexBuffer`.  On success the device buffer is in state
//! `VertexBuffer` and holds the exact byte image of the samples; every
//! failure is reported with the phase it struck, and nothing past the
//! failing phase runs.

use vstd::prelude::*;

use crate::resource::BufferUsageFlags;
use crate::resource::DeviceModel;
use crate::resource::ResourceUsageState;
use crate::resource::TransitionRecord;
use crate::synth::SampleBuffer;
use crate::synth::words_to_bytes;

verus! {

/// Which buffer an allocation failure struck.
#[derive(Clone, Copy, PartialEq, Eq, Structural, Debug)]
pub enum BufferRole {
    /// The device-local vertex buffer.
    DeviceVertex,
    /// The host-visible staging buffer.
    Staging,
}

/// A fatal initialization failure, tagged with the phase that failed.
/// Initialization has no retry or partial-degradation path: every one of
/// these aborts setup.
#[derive(Clone, Copy, PartialEq, Eq, Structural, Debug)]
pub enum InitError {
    /// A buffer allocation failed.
    Allocation(BufferRole),
    /// The write into the staging buffer failed.
    Write,
    /// A command submission failed.
    Submission,
    /// Render pass, pipeline, or framebuffer construction failed.
    PipelineCreation,
}

/// The geometry handed to the frame baker: a vertex buffer and how many
/// vertices of it a draw consumes.
#[derive(Clone, Copy, PartialEq, Eq, Structural, Debug)]
pub struct StandardMesh {
    /// The device-local buffer bound at vertex binding 0.
    pub vertex_buffer: usize,
    /// Number of vertices drawn from it.
    pub vertex_count: u32,
}

/// Usage the device-local vertex buffer is allocated with: transfer
/// destination and vertex input.
pub open spec fn device_vertex_usage() -> BufferUsageFlags {
    BufferUsageFlags { transfer_src: false, transfer_dst: true, vertex_buffer: true }
}

/// Usage the staging buffer is allocated with: transfer source only.
pub open spec fn staging_usage() -> BufferUsageFlags {
    BufferUsageFlags { transfer_src: true, transfer_dst: false, vertex_buffer: false }
}

/// The three barriers of the one-shot upload, in submission order: device
/// buffer enters transfer, staging buffer enters transfer, device buffer
/// leaves transfer as a vertex buffer.
pub open spec fn upload_transitions(vb: usize, stg: usize) -> Seq<TransitionRecord> {
    seq![
        TransitionRecord {
            buffer: vb,
            from: ResourceUsageState::Unused,
            to: ResourceUsageState::TransferDst,
        },
        TransitionRecord {
            buffer: stg,
            from: ResourceUsageState::HostRw,
            to: ResourceUsageState::TransferSrc,
        },
        TransitionRecord {
            buffer: vb,
            from: ResourceUsageState::TransferDst,
            to: ResourceUsageState::VertexBuffer,
        },
    ]
}

/// The backend state after a completed upload of `samples`: two new
/// buffers — the device-local vertex buffer, finally in state
/// `VertexBuffer`, and the staging buffer left in `TransferSrc` — both
/// holding the exact sample byte image, exactly the three upload barriers
/// appended to the transition log, and nothing else touched.
pub open spec fn upload_complete(pre: DeviceModel, post: DeviceModel, samples: SampleBuffer) -> bool {
    let vb = pre.buffers@.len() as int;
    let stg = vb + 1;
    let size = 4 * (samples.words@.len() as int);
    let image = words_to_bytes(samples.words@);
    &&& pre.buffers@.len() + 2 <= usize::MAX
    &&& post.buffers@.len() == pre.buffers@.len() + 2
    &&& forall|i: int| 0 <= i < vb ==> post.buffers@[i] == pre.buffers@[i]
    &&& post.buffers@[vb].size == size
    &&& post.buffers@[vb].usage == device_vertex_usage()
    &&& !post.buffers@[vb].host_visible
    &&& post.buffers@[vb].state == ResourceUsageState::VertexBuffer
    &&& post.buffers@[vb].bytes@ == image
    &&& post.buffers@[stg].size == size
    &&& post.buffers@[stg].usage == staging_usage()
    &&& post.buffers@[stg].host_visible
    &&& post.buffers@[stg].state == ResourceUsageState::TransferSrc
    &&& post.buffers@[stg].bytes@ == image
    &&& post.transitions@ == pre.transitions@ + upload_transitions(
        pre.buffers@.len() as usize,
        (pre.buffers@.len() + 1) as usize,
    )
    &&& post.draws@ == pre.draws@
    &&& post.same_config(&pre)
}

/// The backend state after a failed upload, by failing phase.  Whichever
/// phase fails, no barrier and no copy ever runs: the transition log is
/// untouched, and only the buffers allocated before the failure exist.
pub open spec fn upload_failed(
    pre: DeviceModel,
    post: DeviceModel,
    samples: SampleBuffer,
    e: InitError,
) -> bool {
    let vb = pre.buffers@.len() as int;
    let stg = vb + 1;
    let size = 4 * (samples.words@.len() as int);
    match e {
        InitError::Allocation(BufferRole::DeviceVertex) => {
            &&& pre.buffers@.len() >= pre.alloc_limit
            &&& post == pre
        },
        InitError::Allocation(BufferRole::Staging) => {
            &&& pre.buffers@.len() < pre.alloc_limit
            &&& pre.buffers@.len() + 1 >= pre.alloc_limit
            &&& post.buffers@.len() == pre.buffers@.len() + 1
            &&& forall|i: int| 0 <= i < vb ==> post.buffers@[i] == pre.buffers@[i]
            &&& DeviceModel::fresh_buffer(
                post.buffers@[vb],
                size,
                device_vertex_usage(),
                false,
                ResourceUsageState::Unused,
            )
            &&& post.transitions@ == pre.transitions@
            &&& post.draws@ == pre.draws@
            &&& post.same_config(&pre)
        },
        InitError::Write => {
            &&& pre.buffers@.len() + 2 <= pre.alloc_limit
            &&& pre.fail_write
            &&& post.buffers@.len() == pre.buffers@.len() + 2
            &&& forall|i: int| 0 <= i < vb ==> post.buffers@[i] == pre.buffers@[i]
            &&& DeviceModel::fresh_buffer(
                post.buffers@[vb],
                size,
                device_vertex_usage(),
                false,
                ResourceUsageState::Unused,
            )
            &&& DeviceModel::fresh_buffer(
                post.buffers@[stg],
                size,
                staging_usage(),
                true,
                ResourceUsageState::HostRw,
            )
            &&& post.transitions@ == pre.transitions@
            &&& post.draws@ == pre.draws@
            &&& post.same_config(&pre)
        },
        InitError::Submission => {
            &&& pre.buffers@.len() + 2 <= pre.alloc_limit
            &&& !pre.fail_write
            &&& pre.fail_submission
            &&& post.buffers@.len() == pre.buffers@.len() + 2
            &&& forall|i: int| 0 <= i < vb ==> post.buffers@[i] == pre.buffers@[i]
            &&& DeviceModel::fresh_buffer(
                post.buffers@[vb],
                size,
                device_vertex_usage(),
                false,
                ResourceUsageState::Unused,
            )
            &&& post.buffers@[stg].size == size
            &&& post.buffers@[stg].usage == staging_usage()
            &&& post.buffers@[stg].host_visible
            &&& post.buffers@[stg].state == ResourceUsageState::HostRw
            &&& post.buffers@[stg].bytes@ == words_to_bytes(samples.words@)
            &&& post.transitions@ == pre.transitions@
            &&& post.draws@ == pre.draws@
            &&& post.same_config(&pre)
        },
        InitError::PipelineCreation => false,
    }
}

/// Upload a finished sample buffer into a fresh device-local vertex buffer
/// through a fresh staging buffer, with one blocking barrier-guarded copy
/// submission.  Succeeds exactly when the backend grants both allocations,
/// accepts the staging write, and accepts the submission.
pub fn upload_samples(model: &mut DeviceModel, samples: &SampleBuffer) -> (r: Result<
    StandardMesh,
    InitError,
>)
    requires
        old(model).wf(),
        samples.wf(),
    ensures
        final(model).wf(),
        (r is Ok) <==> (old(model).buffers@.len() + 2 <= old(model).alloc_limit && !old(
            model,
        ).fail_write && !old(model).fail_submission),
        r matches Ok(mesh) ==> {
            &&& mesh.vertex_buffer == old(model).buffers@.len()
            &&& mesh.vertex_count == samples.words@.len()
            &&& upload_complete(*old(model), *final(model), *samples)
        },
        r matches Err(e) ==> upload_failed(*old(model), *final(model), *samples, e),
{
    let byte_len = samples.byte_size();
    let device = match model.allocate_device_local_buffer(
        byte_len,
        BufferUsageFlags { transfer_src: false, transfer_dst: true, vertex_buffer: true },
    ) {
        Some(id) => id,
        None => {
            return Err(InitError::Allocation(BufferRole::DeviceVertex));
        },
    };
    let staging = match model.allocate_upload_buffer(
        byte_len,
        BufferUsageFlags { transfer_src: true, transfer_dst: false, vertex_buffer: false },
    ) {
        Some(id) => id,
        None => {
            return Err(InitError::Allocation(BufferRole::Staging));
        },
    };
    let image = samples.to_bytes();
    if !model.write_buffer_content(staging, &image) {
        return Err(InitError::Write);
    }
    if model.fail_submission {
        return Err(InitError::Submission);
    }
    // The one-shot submission: both enter barriers, the full-range copy,
    // and the leave barrier, executed in order and waited on.
    model.usage_barrier(device, ResourceUsageState::Unused, ResourceUsageState::TransferDst);
    model.usage_barrier(staging, ResourceUsageState::HostRw, ResourceUsageState::TransferSrc);
    model.copy_full(staging, device);
    model.usage_barrier(
        device,
        ResourceUsageState::TransferDst,
        ResourceUsageState::VertexBuffer,
    );
    let total_buffers = model.buffers.len();
    proof {
        assert(total_buffers == old(model).buffers@.len() + 2);
        assert(final(model).transitions@ =~= old(model).transitions@ + upload_transitions(
            old(model).buffers@.len() as usize,
            (old(model).buffers@.len() + 1) as usize,
        ));
    }
    let vertex_count = samples.len();
    Ok(StandardMesh { vertex_buffer: device, vertex_count: vertex_count as u32 })
}

/// Everything a given buffer went through, in order: the transition log
/// restricted to that buffer.
pub open spec fn transitions_of(ts: Seq<TransitionRecord>, b: usize) -> Seq<TransitionRecord>
    decreases ts.len(),
{
    if ts.len() == 0 {
        Seq::empty()
    } else if ts.last().buffer == b {
        transitions_of(ts.drop_last(), b).push(ts.last())
    } else {
        transitions_of(ts.drop_last(), b)
    }
}

/// Appending one record extends a buffer's restricted log exactly when the
/// record touches that buffer.
pub proof fn lemma_transitions_of_push(ts: Seq<TransitionRecord>, t: TransitionRecord, b: usize)
    ensures
        t.buffer == b ==> transitions_of(ts.push(t), b) == transitions_of(ts, b).push(t),
        t.buffer != b ==> transitions_of(ts.push(t), b) == transitions_of(ts, b),
{
    assert(ts.push(t).drop_last() =~= ts);
    assert(ts.push(t).last() == t);
}

/// A log that never touches a buffer restricts to the empty log.
pub proof fn lemma_transitions_of_none(ts: Seq<TransitionRecord>, b: usize)
    requires
        forall|i: int| 0 <= i < ts.len() ==> (#[trigger] ts[i]).buffer != b,
    ensures
        transitions_of(ts, b) == Seq::<TransitionRecord>::empty(),
    decreases ts.len(),
{
    if ts.len() > 0 {
        assert(ts.drop_last() =~= ts.take(ts.len() - 1));
        lemma_transitions_of_none(ts.drop_last(), b);
    }
}

/// The device vertex buffer's tracked usage state strictly follows
/// `Unused -> TransferDst -> VertexBuffer`: after a completed upload its
/// restricted transition log holds exactly those two barriers, in order.
pub proof fn lemma_device_buffer_state_discipline(
    pre: DeviceModel,
    post: DeviceModel,
    samples: SampleBuffer,
    vb: usize,
)
    requires
        pre.wf(),
        vb == pre.buffers@.len(),
        upload_complete(pre, post, samples),
    ensures
        transitions_of(post.transitions@, vb) == seq![
            TransitionRecord {
                buffer: vb,
                from: ResourceUsageState::Unused,
                to: ResourceUsageState::TransferDst,
            },
            TransitionRecord {
                buffer: vb,
                from: ResourceUsageState::TransferDst,
                to: ResourceUsageState::VertexBuffer,
            },
        ],
{
    let n0 = pre.buffers@.len();
    assert(n0 + 2 <= usize::MAX);
    let vbu = n0 as usize;
    let stgu = (n0 + 1) as usize;
    assert(vbu == vb);
    assert(stgu == vb + 1);
    let steps = upload_transitions(vbu, stgu);
    let enter = steps[0];
    let cross = steps[1];
    let leave = steps[2];
    assert(enter.buffer == vb && leave.buffer == vb && cross.buffer != vb);
    assert(forall|i: int|
        0 <= i < pre.transitions@.len() ==> (#[trigger] pre.transitions@[i]).buffer != vb);
    lemma_transitions_of_none(pre.transitions@, vb);
    let s0 = pre.transitions@;
    let s1 = s0.push(enter);
    let s2 = s1.push(cross);
    let s3 = s2.push(leave);
    lemma_transitions_of_push(s0, enter, vb);
    lemma_transitions_of_push(s1, cross, vb);
    lemma_transitions_of_push(s2, leave, vb);
    assert(post.transitions@ =~= s3);
    assert(transitions_of(s3, vb) == transitions_of(s0, vb).push(enter).push(leave));
    assert(transitions_of(post.transitions@, vb) =~= seq![
        TransitionRecord {
            buffer: vb,
            from: ResourceUsageState::Unused,
            to: ResourceUsageState::TransferDst,
        },
        TransitionRecord {
            buffer: vb,
            from: ResourceUsageState::TransferDst,
            to: ResourceUsageState::VertexBuffer,
        },
    ]);
}

/// Round trip: after a completed upload the device buffer holds, byte for
/// byte, exactly the bytes that were staged — the little-endian image of
/// the sample words.
pub proof fn lemma_staging_round_trip(
    pre: DeviceModel,
    post: DeviceModel,
    samples: SampleBuffer,
    vb: usize,
)
    requires
        vb == pre.buffers@.len(),
        upload_complete(pre, post, samples),
    ensures
        post.buffers@[vb as int].bytes@ == post.buffers@[vb as int + 1].bytes@,
        post.buffers@[vb as int].bytes@ == words_to_bytes(samples.words@),
{
}

} // verus!
