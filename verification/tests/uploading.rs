use waveform_graph::resource::DeviceModel;
use waveform_graph::resource::ResourceUsageState;
use waveform_graph::resource::TransitionRecord;
use waveform_graph::synth::SampleBuffer;
use waveform_graph::upload::BufferRole;
use waveform_graph::upload::InitError;
use waveform_graph::upload::upload_samples;

fn test_samples(n: usize) -> SampleBuffer {
    let words = (0..n as u32).map(|i| i.wrapping_mul(2654435761)).collect();
    SampleBuffer { words }
}

#[test]
fn round_trip_bytes_match() {
    let samples = test_samples(512);
    let expected = samples.to_bytes();
    let mut model = DeviceModel::new(usize::MAX, false, false);
    let mesh = upload_samples(&mut model, &samples).expect("upload should succeed");
    assert_eq!(mesh.vertex_count, 512);
    let device_bytes = model.read_back(mesh.vertex_buffer);
    assert_eq!(device_bytes, expected);
    // The staging buffer was allocated right after the device buffer and
    // holds the same byte image.
    let staging_bytes = model.read_back(mesh.vertex_buffer + 1);
    assert_eq!(staging_bytes, expected);
}

#[test]
fn device_buffer_state_follows_the_barriers() {
    let samples = test_samples(16);
    let mut model = DeviceModel::new(usize::MAX, false, false);
    let mesh = upload_samples(&mut model, &samples).expect("upload should succeed");
    let vb = mesh.vertex_buffer;
    let stg = vb + 1;
    assert_eq!(
        model.transitions,
        vec![
            TransitionRecord {
                buffer: vb,
                from: ResourceUsageState::Unused,
                to: ResourceUsageState::TransferDst,
            },
            TransitionRecord {
                buffer: stg,
                from: ResourceUsageState::HostRw,
                to: ResourceUsageState::TransferSrc,
            },
            TransitionRecord {
                buffer: vb,
                from: ResourceUsageState::TransferDst,
                to: ResourceUsageState::VertexBuffer,
            },
        ]
    );
    assert_eq!(model.buffers[vb].state, ResourceUsageState::VertexBuffer);
    assert_eq!(model.buffers[stg].state, ResourceUsageState::TransferSrc);
    assert!(model.draws.is_empty());
}

#[test]
fn buffers_are_sized_four_bytes_per_sample() {
    let samples = test_samples(512);
    let mut model = DeviceModel::new(usize::MAX, false, false);
    let mesh = upload_samples(&mut model, &samples).expect("upload should succeed");
    assert_eq!(model.buffers.len(), 2);
    assert_eq!(model.buffers[mesh.vertex_buffer].size, 2048);
    assert_eq!(model.buffers[mesh.vertex_buffer + 1].size, 2048);
}

#[test]
fn device_allocation_failure_is_fatal() {
    let samples = test_samples(8);
    let mut model = DeviceModel::new(0, false, false);
    let r = upload_samples(&mut model, &samples);
    assert_eq!(r.unwrap_err(), InitError::Allocation(BufferRole::DeviceVertex));
    assert!(model.buffers.is_empty());
    assert!(model.transitions.is_empty());
}

#[test]
fn staging_allocation_failure_stops_before_any_barrier() {
    let samples = test_samples(8);
    let mut model = DeviceModel::new(1, false, false);
    let r = upload_samples(&mut model, &samples);
    assert_eq!(r.unwrap_err(), InitError::Allocation(BufferRole::Staging));
    assert_eq!(model.buffers.len(), 1);
    assert_eq!(model.buffers[0].state, ResourceUsageState::Unused);
    assert!(model.transitions.is_empty());
}

#[test]
fn write_failure_is_fatal() {
    let samples = test_samples(8);
    let mut model = DeviceModel::new(usize::MAX, true, false);
    let r = upload_samples(&mut model, &samples);
    assert_eq!(r.unwrap_err(), InitError::Write);
    assert_eq!(model.buffers.len(), 2);
    assert!(model.transitions.is_empty());
}

#[test]
fn submission_failure_leaves_the_staged_bytes_unsent() {
    let samples = test_samples(8);
    let mut model = DeviceModel::new(usize::MAX, false, true);
    let r = upload_samples(&mut model, &samples);
    assert_eq!(r.unwrap_err(), InitError::Submission);
    assert_eq!(model.buffers.len(), 2);
    // The staging write happened, but no barrier and no copy ran.
    assert_eq!(model.buffers[1].bytes, samples.to_bytes());
    assert_eq!(model.buffers[1].state, ResourceUsageState::HostRw);
    assert_eq!(model.buffers[0].state, ResourceUsageState::Unused);
    assert!(model.transitions.is_empty());
}

#[test]
fn host_write_rejects_a_size_mismatch() {
    let mut model = DeviceModel::new(usize::MAX, false, false);
    let usage = waveform_graph::resource::BufferUsageFlags {
        transfer_src: true,
        transfer_dst: false,
        vertex_buffer: false,
    };
    let id = model.allocate_upload_buffer(16, usage).expect("allocation should succeed");
    let short = vec![0u8; 8];
    assert!(!model.write_buffer_content(id, &short));
    let exact = vec![7u8; 16];
    assert!(model.write_buffer_content(id, &exact));
    assert_eq!(model.read_back(id), exact);
}
