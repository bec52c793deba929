use std::borrow::Cow;
use std::future::Future;

use wgpu::util::DeviceExt;

use gpu_matmul::dispatch::{record, Command};
use gpu_matmul::driver::{outcome_of, Outcome, Run, RunState, Step};
use gpu_matmul::error::PipelineError;
use gpu_matmul::kernel::{ENTRY_POINT, SOURCE};
use gpu_matmul::layout::{role_of_slot, BufferRole, KernelLayout};
use gpu_matmul::readback::{MapEvent, MapOutcome, MapState, Readback};
use gpu_matmul::resources::{BindingGroup, BufferSpec, Contents, ResourceSet};
use gpu_matmul::usage::{BufferUsage, Capability};

fn block_on<F: Future>(future: F) -> F::Output {
    tokio::runtime::Builder::new_current_thread()
        .build()
        .unwrap()
        .block_on(future)
}

fn open(instance: &wgpu::Instance, own_limits: bool) -> Option<(wgpu::Device, wgpu::Queue)> {
    let adapter = block_on(instance.request_adapter(&wgpu::RequestAdapterOptions {
        power_preference: wgpu::PowerPreference::HighPerformance,
        force_fallback_adapter: false,
        compatible_surface: None,
    }))
    .ok()?;
    block_on(adapter.request_device(&wgpu::DeviceDescriptor {
        label: None,
        required_features: wgpu::Features::empty(),
        required_limits: if own_limits {
            adapter.limits()
        } else {
            wgpu::Limits::default()
        },
        memory_hints: wgpu::MemoryHints::default(),
        trace: wgpu::Trace::Off,
    }))
    .ok()
}

/// A device that checks every call and copies buffers, but runs no kernel.
fn open_device() -> (wgpu::Device, wgpu::Queue) {
    let instance = wgpu::Instance::new(&wgpu::InstanceDescriptor {
        backends: wgpu::Backends::NOOP,
        backend_options: wgpu::BackendOptions {
            noop: wgpu::NoopBackendOptions { enable: true },
            ..Default::default()
        },
        ..Default::default()
    });
    open(&instance, false).unwrap()
}

/// A device that runs kernels, where the machine has one.
fn open_computing_device() -> Option<(wgpu::Device, wgpu::Queue)> {
    let instance = wgpu::Instance::new(&wgpu::InstanceDescriptor {
        backends: wgpu::Backends::PRIMARY | wgpu::Backends::GL,
        ..Default::default()
    });
    open(&instance, true)
}

fn usages(spec: &BufferSpec) -> wgpu::BufferUsages {
    wgpu::BufferUsages::from_bits(spec.usage.bits()).unwrap()
}

fn compile(device: &wgpu::Device) -> wgpu::ComputePipeline {
    let shader = device.create_shader_module(wgpu::ShaderModuleDescriptor {
        label: None,
        source: wgpu::ShaderSource::Wgsl(Cow::Borrowed(SOURCE)),
    });
    device.create_compute_pipeline(&wgpu::ComputePipelineDescriptor {
        label: None,
        layout: None,
        module: &shader,
        entry_point: Some(ENTRY_POINT),
        compilation_options: Default::default(),
        cache: None,
    })
}

struct Buffers {
    a: wgpu::Buffer,
    b: wgpu::Buffer,
    result: wgpu::Buffer,
    dimensions: wgpu::Buffer,
    staging: wgpu::Buffer,
}

impl Buffers {
    fn of(&self, role: BufferRole) -> &wgpu::Buffer {
        match role {
            BufferRole::InputA => &self.a,
            BufferRole::InputB => &self.b,
            BufferRole::Output => &self.result,
            BufferRole::Dimensions => &self.dimensions,
            BufferRole::Staging => &self.staging,
        }
    }
}

fn create(device: &wgpu::Device, spec: &BufferSpec, a: &[f32], b: &[f32], record: &[u8]) -> wgpu::Buffer {
    let filled = |bytes: &[u8]| {
        assert_eq!(bytes.len() as u64, spec.size);
        device.create_buffer_init(&wgpu::util::BufferInitDescriptor {
            label: None,
            contents: bytes,
            usage: usages(spec),
        })
    };
    match spec.contents {
        Contents::MatrixA => filled(bytemuck::cast_slice(a)),
        Contents::MatrixB => filled(bytemuck::cast_slice(b)),
        Contents::Record => filled(record),
        Contents::Zeroed => device.create_buffer(&wgpu::BufferDescriptor {
            label: None,
            size: spec.size,
            usage: usages(spec),
            mapped_at_creation: false,
        }),
    }
}

fn allocate(device: &wgpu::Device, resources: &ResourceSet, a: &[f32], b: &[f32]) -> Buffers {
    let record = resources.record().to_bytes();
    Buffers {
        a: create(device, &resources.a, a, b, &record),
        b: create(device, &resources.b, a, b, &record),
        result: create(device, &resources.result, a, b, &record),
        dimensions: create(device, &resources.dimensions, a, b, &record),
        staging: create(device, &resources.staging(), a, b, &record),
    }
}

fn bind_on_device(
    device: &wgpu::Device,
    pipeline: &wgpu::ComputePipeline,
    buffers: &Buffers,
    group: &BindingGroup,
) -> wgpu::BindGroup {
    let entries: Vec<wgpu::BindGroupEntry> = group
        .entries
        .iter()
        .map(|binding| wgpu::BindGroupEntry {
            binding: binding.slot,
            resource: buffers.of(binding.role).as_entire_binding(),
        })
        .collect();
    device.create_bind_group(&wgpu::BindGroupDescriptor {
        label: None,
        layout: &pipeline.get_bind_group_layout(0),
        entries: &entries,
    })
}

fn submit(
    device: &wgpu::Device,
    queue: &wgpu::Queue,
    pipeline: &wgpu::ComputePipeline,
    bind_group: &wgpu::BindGroup,
    buffers: &Buffers,
    commands: &[Command],
) {
    let mut encoder = device.create_command_encoder(&wgpu::CommandEncoderDescriptor { label: None });
    for command in commands {
        match *command {
            Command::Dispatch { grid } => {
                let mut pass = encoder.begin_compute_pass(&wgpu::ComputePassDescriptor {
                    label: None,
                    timestamp_writes: None,
                });
                pass.set_pipeline(pipeline);
                pass.set_bind_group(0, bind_group, &[]);
                pass.dispatch_workgroups(grid.x, grid.y, grid.z);
            }
            Command::CopyBuffer {
                source,
                source_offset,
                destination,
                destination_offset,
                len,
            } => {
                encoder.copy_buffer_to_buffer(
                    buffers.of(source),
                    source_offset,
                    buffers.of(destination),
                    destination_offset,
                    len,
                );
            }
        }
    }
    queue.submit(Some(encoder.finish()));
}

fn read_back(device: &wgpu::Device, staging: &wgpu::Buffer, readback: &mut Readback) -> Result<Vec<f32>, PipelineError> {
    readback.handle(MapEvent::Request)?;
    let (start, end) = readback.mapped_range();
    let slice = staging.slice(start..end);
    let (sender, receiver) = std::sync::mpsc::channel();
    slice.map_async(wgpu::MapMode::Read, move |answer| {
        sender.send(answer).ok();
    });
    match device.poll(wgpu::PollType::Wait) {
        Ok(_) => readback.handle(MapEvent::Polled)?,
        Err(_) => readback.handle(MapEvent::Resolved(MapOutcome::DeviceLost))?,
    }
    let outcome = match receiver.try_recv() {
        Ok(Ok(())) => MapOutcome::Ready,
        Ok(Err(_)) => MapOutcome::Rejected,
        Err(_) => MapOutcome::DeviceLost,
    };
    readback.handle(MapEvent::Resolved(outcome))?;
    readback.handle(MapEvent::Acquire)?;
    let view = slice.get_mapped_range();
    assert_eq!(view.len() as u64, readback.byte_len);
    let values: Vec<f32> = bytemuck::cast_slice(&view).to_vec();
    drop(view);
    readback.handle(MapEvent::Release)?;
    staging.unmap();
    Ok(values)
}

fn run_on_device(device: &wgpu::Device, queue: &wgpu::Queue, n: u32, a: &[f32], b: &[f32]) -> Vec<f32> {
    let mut run = Run::start(n, a.len(), b.len());
    assert_eq!(run.state, RunState::Pending(Step::AcquireAdapter));
    run.report(Outcome::Succeeded);
    assert_eq!(run.state, RunState::Pending(Step::AcquireDevice));
    run.report(Outcome::Succeeded);
    assert_eq!(run.state, RunState::Pending(Step::CompileKernel));

    device.push_error_scope(wgpu::ErrorFilter::Validation);
    let pipeline = compile(device);
    assert!(block_on(device.pop_error_scope()).is_none());
    run.report(Outcome::Succeeded);
    assert_eq!(run.state, RunState::Pending(Step::AllocateBuffers));

    let resources = run.resources().unwrap();
    device.push_error_scope(wgpu::ErrorFilter::Validation);
    let buffers = allocate(device, &resources, a, b);
    assert!(block_on(device.pop_error_scope()).is_none());
    run.report(Outcome::Succeeded);
    assert_eq!(run.state, RunState::Pending(Step::CreateBindingGroup));

    let group = resources.bind(&KernelLayout::matrix_multiply()).unwrap();
    device.push_error_scope(wgpu::ErrorFilter::Validation);
    let bind_group = bind_on_device(device, &pipeline, &buffers, &group);
    assert!(block_on(device.pop_error_scope()).is_none());
    run.report(Outcome::Succeeded);
    assert_eq!(run.state, RunState::Pending(Step::Submit));

    let commands = record(&resources);
    device.push_error_scope(wgpu::ErrorFilter::Validation);
    submit(device, queue, &pipeline, &bind_group, &buffers, &commands);
    assert!(block_on(device.pop_error_scope()).is_none());
    run.report(Outcome::Succeeded);
    assert_eq!(run.state, RunState::Pending(Step::ReadBack));

    let mut readback = Readback::new(resources.staging().size);
    let values = read_back(device, &buffers.staging, &mut readback);
    assert_eq!(readback.state, MapState::Unmapped);
    run.report(outcome_of(values.as_ref().map(|_| ()).map_err(|e| *e)));
    assert_eq!(run.state, RunState::Done);
    let values = values.unwrap();
    assert_eq!(values.len() as u64, readback.entries());
    values
}

fn triple_loop(a: &[f32], b: &[f32], n: usize) -> Vec<f32> {
    let mut out = vec![0.0f32; n * n];
    for i in 0..n {
        for j in 0..n {
            for k in 0..n {
                out[i * n + j] += a[i * n + k] * b[k * n + j];
            }
        }
    }
    out
}

fn assert_close(computed: &[f32], expected: &[f32]) {
    assert_eq!(computed.len(), expected.len());
    for (i, (c, e)) in computed.iter().zip(expected).enumerate() {
        assert!((c - e).abs() <= 1e-4, "entry {}: {} is not {}", i, c, e);
    }
}

#[test]
fn device_multiplies_two_by_two() {
    if let Some((device, queue)) = open_computing_device() {
        let product = run_on_device(&device, &queue, 2, &[1.0, 2.0, 3.0, 4.0], &[5.0, 6.0, 7.0, 8.0]);
        assert_close(&product, &[19.0, 22.0, 43.0, 50.0]);
    }
}

#[test]
fn device_multiplies_one_by_one() {
    if let Some((device, queue)) = open_computing_device() {
        let product = run_on_device(&device, &queue, 1, &[3.0], &[4.0]);
        assert_close(&product, &[12.0]);
    }
}

#[test]
fn device_product_matches_the_triple_loop() {
    if let Some((device, queue)) = open_computing_device() {
        for n in [1usize, 3, 16, 17, 33] {
            let a: Vec<f32> = gpu_matmul::create_random_matrix(n)
                .iter()
                .map(|&t| t as f32 / 1000.0)
                .collect();
            let b: Vec<f32> = a.iter().rev().copied().collect();
            let product = run_on_device(&device, &queue, n as u32, &a, &b);
            assert_close(&product, &triple_loop(&a, &b, n));
        }
    }
}

#[test]
fn device_and_integer_model_agree_on_whole_numbers() {
    if let Some((device, queue)) = open_computing_device() {
        let n = 17usize;
        let a: Vec<i32> = (0..n * n).map(|i| (i as i32 * 7) % 11 - 5).collect();
        let b: Vec<i32> = (0..n * n).map(|i| (i as i32 * 5) % 13 - 6).collect();
        let model = gpu_matmul::kernel::run_grid(&a, &b, n as u32);
        let fa: Vec<f32> = a.iter().map(|&v| v as f32).collect();
        let fb: Vec<f32> = b.iter().map(|&v| v as f32).collect();
        let product = run_on_device(&device, &queue, n as u32, &fa, &fb);
        let expected: Vec<f32> = model.iter().map(|&v| v as f32).collect();
        assert_eq!(product, expected);
    }
}

#[test]
fn planned_run_passes_device_validation() {
    let (device, queue) = open_device();
    for n in [1u32, 2, 16, 17, 33] {
        let cells = (n * n) as usize;
        let values = run_on_device(&device, &queue, n, &vec![1.5; cells], &vec![2.5; cells]);
        assert_eq!(values.len(), cells, "size {}", n);
    }
}

#[test]
fn kernel_source_compiles_with_its_entry_point() {
    let (device, _queue) = open_device();
    device.push_error_scope(wgpu::ErrorFilter::Validation);
    let _pipeline = compile(&device);
    assert!(block_on(device.pop_error_scope()).is_none());
}

#[test]
fn kernel_declares_the_slots_the_layout_expects() {
    let module = wgpu::naga::front::wgsl::parse_str(SOURCE).unwrap();
    wgpu::naga::valid::Validator::new(
        wgpu::naga::valid::ValidationFlags::all(),
        wgpu::naga::valid::Capabilities::empty(),
    )
    .validate(&module)
    .unwrap();
    let layout = KernelLayout::matrix_multiply();
    let mut seen = vec![false; layout.slots.len()];
    for (_, variable) in module.global_variables.iter() {
        let binding = variable.binding.as_ref().unwrap();
        assert_eq!(binding.group, 0);
        let declared = match variable.space {
            wgpu::naga::AddressSpace::Uniform => Capability::Uniform,
            wgpu::naga::AddressSpace::Storage { access } => {
                if access.contains(wgpu::naga::StorageAccess::STORE) {
                    Capability::ReadWriteStorage
                } else {
                    Capability::ReadOnlyStorage
                }
            }
            other => panic!("unexpected address space {:?}", other),
        };
        assert_eq!(layout.slots[binding.binding as usize], declared);
        assert!(role_of_slot(binding.binding).is_some());
        seen[binding.binding as usize] = true;
    }
    assert!(seen.iter().all(|&s| s));
}

#[test]
fn kernel_workgroup_is_one_tile() {
    let module = wgpu::naga::front::wgsl::parse_str(SOURCE).unwrap();
    assert_eq!(module.entry_points.len(), 1);
    let entry = &module.entry_points[0];
    assert_eq!(entry.name, ENTRY_POINT);
    assert_eq!(entry.stage, wgpu::naga::ShaderStage::Compute);
    assert_eq!(
        entry.workgroup_size,
        [gpu_matmul::dispatch::WORKGROUP_SIZE, gpu_matmul::dispatch::WORKGROUP_SIZE, 1]
    );
}

#[test]
fn usage_flags_are_those_of_the_device_api() {
    let flags = |capability: Capability| BufferUsage::only(capability).bits();
    assert_eq!(flags(Capability::ReadOnlyStorage), wgpu::BufferUsages::STORAGE.bits());
    assert_eq!(flags(Capability::ReadWriteStorage), wgpu::BufferUsages::STORAGE.bits());
    assert_eq!(flags(Capability::Uniform), wgpu::BufferUsages::UNIFORM.bits());
    assert_eq!(flags(Capability::CopySource), wgpu::BufferUsages::COPY_SRC.bits());
    assert_eq!(flags(Capability::CopyDestination), wgpu::BufferUsages::COPY_DST.bits());
    assert_eq!(flags(Capability::HostMappable), wgpu::BufferUsages::MAP_READ.bits());
    assert_eq!(BufferUsage::empty().bits(), wgpu::BufferUsages::empty().bits());
    let resources = ResourceSet::plan(16, 256, 256).unwrap();
    assert_eq!(usages(&resources.a), wgpu::BufferUsages::STORAGE);
    assert_eq!(usages(&resources.b), wgpu::BufferUsages::STORAGE);
    assert_eq!(
        usages(&resources.result),
        wgpu::BufferUsages::STORAGE | wgpu::BufferUsages::COPY_SRC
    );
    assert_eq!(usages(&resources.dimensions), wgpu::BufferUsages::UNIFORM);
    assert_eq!(
        usages(&resources.staging()),
        wgpu::BufferUsages::MAP_READ | wgpu::BufferUsages::COPY_DST
    );
}

#[test]
fn copy_and_map_lengths_respect_device_alignment() {
    for n in [1u32, 3, 17, 255, 256] {
        let cells = (n * n) as usize;
        let resources = ResourceSet::plan(n, cells, cells).unwrap();
        match record(&resources)[1] {
            Command::CopyBuffer { source_offset, destination_offset, len, .. } => {
                assert_eq!(len % wgpu::COPY_BUFFER_ALIGNMENT, 0);
                assert_eq!(source_offset % wgpu::COPY_BUFFER_ALIGNMENT, 0);
                assert_eq!(destination_offset % wgpu::COPY_BUFFER_ALIGNMENT, 0);
            }
            other => panic!("unexpected command {:?}", other),
        }
        assert_eq!(resources.staging().size % wgpu::COPY_BUFFER_ALIGNMENT, 0);
    }
}

#[test]
fn storage_buffer_in_the_uniform_slot_is_refused_by_library_and_device() {
    let mut resources = ResourceSet::plan(2, 4, 4).unwrap();
    resources.dimensions.usage = BufferUsage::only(Capability::ReadOnlyStorage);
    assert_eq!(
        resources.bind(&KernelLayout::matrix_multiply()),
        Err(PipelineError::BindingLayoutMismatch)
    );

    let (device, _queue) = open_device();
    let pipeline = compile(&device);
    let buffers = allocate(&device, &resources, &[0.0; 4], &[0.0; 4]);
    let mut unchecked = ResourceSet::plan(2, 4, 4).unwrap().bind(&KernelLayout::matrix_multiply()).unwrap();
    unchecked.entries[3].size = resources.dimensions.size;
    device.push_error_scope(wgpu::ErrorFilter::Validation);
    let _ = bind_on_device(&device, &pipeline, &buffers, &unchecked);
    assert!(block_on(device.pop_error_scope()).is_some());
}

#[test]
fn dimensions_record_is_what_bytemuck_shows() {
    let record = ResourceSet::plan(17, 289, 289).unwrap().record();
    let words: [u32; 4] = [17, 17, 0, 0];
    assert_eq!(record.to_words(), words);
    assert_eq!(record.to_bytes(), bytemuck::bytes_of(&words).to_vec());
}
