use vmachine::bus::Bus;
use vmachine::color::Color;
use vmachine::gpu::GPU;
use vmachine::gpu_assembly::GPUAssembly;
use vmachine::monitor::Monitor;
use vmachine::ucode::UCode;
use vmachine::vector::Vector;

fn vertex(x: u16, y: u16, c: u16, z: u8) -> Vec<u8> {
    vec![
        GPUAssembly::VRX,
        (x >> 8) as u8,
        x as u8,
        (y >> 8) as u8,
        y as u8,
        (c >> 8) as u8,
        c as u8,
        0,
        0,
        0,
        0,
        z,
    ]
}

fn run(gpu: &mut GPU, monitors: &mut Vec<Monitor>, bytes: Vec<u8>, steps: usize) {
    gpu.queue_to_buffer(bytes);
    for _ in 0..steps {
        assert_eq!(gpu.step(monitors), Ok(true));
    }
}

fn black() -> Color {
    Color::black()
}

#[test]
fn vrx_without_binding_fails() {
    let mut gpu = GPU::new("gpu", "id");
    let mut monitors = vec![Monitor::new(4, 4)];
    gpu.queue_to_buffer(vertex(0, 0, 0xFFFF, 0));
    assert_eq!(gpu.step(&mut monitors), Err(UCode::InvalidBufferAccess));
}

#[test]
fn vrx_after_unbind_fails() {
    let mut gpu = GPU::new("gpu", "id");
    let mut monitors = vec![Monitor::new(4, 4)];
    run(&mut gpu, &mut monitors, vec![GPUAssembly::BVB, 0, 0, GPUAssembly::UVB], 2);
    gpu.queue_to_buffer(vertex(0, 0, 0xFFFF, 0));
    assert_eq!(gpu.step(&mut monitors), Err(UCode::InvalidBufferAccess));
}

#[test]
fn drw_without_buffers_writes_nothing() {
    let mut gpu = GPU::new("gpu", "id");
    let mut monitors = vec![Monitor::new(3, 2)];
    run(&mut gpu, &mut monitors, vec![GPUAssembly::DRW], 1);
    for x in 0..3 {
        for y in 0..2 {
            assert_eq!(monitors[0].pixel(x, y), Some(black()));
        }
    }
}

#[test]
fn drw_paints_the_covered_pixel_only() {
    let mut gpu = GPU::new("gpu", "id");
    let mut monitors = vec![Monitor::new(4, 4)];
    let mut bytes = vec![GPUAssembly::BVB, 0, 0];
    bytes.extend(vertex(63, 127, 0xF00F, 1));
    bytes.push(GPUAssembly::DRW);
    run(&mut gpu, &mut monitors, bytes, 3);
    let red = Color { red: 255, green: 0, blue: 0, alpha: 255 };
    for x in 0..4 {
        for y in 0..4 {
            let expected = if x == 1 && y == 2 { red } else { black() };
            assert_eq!(monitors[0].pixel(x, y), Some(expected));
        }
    }
}

#[test]
fn highest_z_layer_wins() {
    let mut gpu = GPU::new("gpu", "id");
    let mut monitors = vec![Monitor::new(4, 4)];
    let mut bytes = vec![GPUAssembly::BVB, 2, 0];
    bytes.extend(vertex(0, 0, 0xF00F, 1));
    bytes.extend(vertex(0, 0, 0x0F0F, 5));
    bytes.extend(vertex(0, 0, 0x00FF, 3));
    bytes.push(GPUAssembly::DRW);
    run(&mut gpu, &mut monitors, bytes, 5);
    assert_eq!(monitors[0].pixel(0, 0), Some(Color { red: 0, green: 255, blue: 0, alpha: 255 }));
    assert_eq!(monitors[0].pixel(1, 0), Some(black()));
}

#[test]
fn drw_consumes_buffers() {
    let mut gpu = GPU::new("gpu", "id");
    let mut monitors = vec![Monitor::new(2, 2)];
    let mut bytes = vec![GPUAssembly::BVB, 0, 0];
    bytes.extend(vertex(0, 0, 0xFFFF, 0));
    bytes.push(GPUAssembly::DRW);
    run(&mut gpu, &mut monitors, bytes, 3);
    assert_eq!(monitors[0].pixel(0, 0), Some(Color::white()));
    assert_eq!(monitors[0].write(0, 0, black()), Ok(()));
    run(&mut gpu, &mut monitors, vec![GPUAssembly::DRW], 1);
    assert_eq!(monitors[0].pixel(0, 0), Some(black()));
}

#[test]
fn drw_targets_the_monitor_of_the_first_vertex() {
    let mut gpu = GPU::new("gpu", "id");
    let mut monitors = vec![Monitor::new(2, 2), Monitor::new(2, 2)];
    let mut bytes = vec![GPUAssembly::BVB, 0, 1];
    bytes.extend(vertex(0, 0, 0xFFFF, 0));
    bytes.push(GPUAssembly::DRW);
    run(&mut gpu, &mut monitors, bytes, 3);
    assert_eq!(monitors[0].pixel(0, 0), Some(black()));
    assert_eq!(monitors[1].pixel(0, 0), Some(Color::white()));
}

#[test]
fn drw_to_missing_monitor_fails() {
    let mut gpu = GPU::new("gpu", "id");
    let mut monitors = vec![Monitor::new(2, 2)];
    let mut bytes = vec![GPUAssembly::BVB, 0, 7];
    bytes.extend(vertex(0, 0, 0xFFFF, 0));
    run(&mut gpu, &mut monitors, bytes, 2);
    gpu.queue_to_buffer(vec![GPUAssembly::DRW]);
    assert_eq!(gpu.step(&mut monitors), Err(UCode::MonitorNotFound));
    assert_eq!(monitors[0].pixel(0, 0), Some(black()));
}

#[test]
fn bvb_to_unknown_buffer_fails() {
    let mut gpu = GPU::new("gpu", "id");
    let mut monitors = vec![Monitor::new(2, 2)];
    gpu.queue_to_buffer(vec![GPUAssembly::BVB, 16, 0]);
    assert_eq!(gpu.step(&mut monitors), Err(UCode::InvalidBufferAccess));
}

#[test]
fn incomplete_command_waits_for_its_bytes() {
    let mut gpu = GPU::new("gpu", "id");
    let mut monitors = vec![Monitor::new(2, 2)];
    gpu.queue_to_buffer(vec![GPUAssembly::BVB, 0]);
    assert_eq!(gpu.step(&mut monitors), Ok(true));
    assert_eq!(gpu.pending(), 2);
    gpu.queue_to_buffer(vec![0]);
    assert_eq!(gpu.step(&mut monitors), Ok(true));
    assert_eq!(gpu.pending(), 0);
}

#[test]
fn empty_queue_idles() {
    let mut gpu = GPU::new("gpu", "id");
    let mut monitors = vec![Monitor::new(2, 2)];
    assert_eq!(gpu.step(&mut monitors), Ok(true));
    assert_eq!(gpu.pending(), 0);
}

#[test]
fn execute_with_missing_operands_fails() {
    let mut gpu = GPU::new("gpu", "id");
    let mut monitors = vec![Monitor::new(2, 2)];
    assert_eq!(gpu.execute(GPUAssembly::BVB, &mut monitors), Err(UCode::InvalidBufferAccess));
    assert_eq!(gpu.execute(GPUAssembly::VRX, &mut monitors), Err(UCode::InvalidBufferAccess));
    assert_eq!(gpu.execute(GPUAssembly::HLT, &mut monitors), Ok(true));
}

#[test]
fn launch_runs_commands_from_the_bus() {
    let mut bus = Bus::new();
    let mut gpu = GPU::new("vGPU", "vgpu-0000");
    let mut monitors = vec![Monitor::new(2, 2)];
    gpu.attach(&mut bus);
    assert_eq!(gpu.address(), 0);
    assert_eq!(bus.devices(), "0x00: vgpu-0000 [vGPU]\n");
    let mut bytes = vec![GPUAssembly::BVB, 0, 0];
    bytes.extend(vertex(0, 0, 0xF00F, 0));
    bytes.push(GPUAssembly::DRW);
    for b in bytes {
        bus.write(gpu.address(), b);
    }
    assert_eq!(gpu.launch(&mut bus, &mut monitors, 3), Ok(()));
    assert_eq!(monitors[0].pixel(0, 0), Some(Color { red: 255, green: 0, blue: 0, alpha: 255 }));
    assert_eq!(bus.poll(0), Vec::<u8>::new());
}

#[test]
fn gpu_identity() {
    let gpu = GPU::new("name", "uuid");
    assert_eq!(gpu.name(), "name");
    assert_eq!(gpu.uuid(), "uuid");
}

#[test]
fn coincide_picks_top_vertex() {
    let gpu = GPU::new("g", "u");
    let vs = vec![
        Vector::new(None, 3, 4, Some(0x1111), None, None, Some(2)),
        Vector::new(None, 3, 4, Some(0x2222), None, None, Some(2)),
        Vector::new(None, 3, 5, Some(0x3333), None, None, Some(9)),
    ];
    assert_eq!(gpu.coincide(&vs, 3, 4), Some(Color::from_word(0x1111)));
    assert_eq!(gpu.coincide(&vs, 3, 5), Some(Color::from_word(0x3333)));
    assert_eq!(gpu.coincide(&vs, 0, 0), None);
}

#[test]
fn colors_pack_and_unpack() {
    assert_eq!(Color::from_word(0xF00F), Color { red: 255, green: 0, blue: 0, alpha: 255 });
    assert_eq!(Color::from_word(0x1234), Color { red: 0x11, green: 0x22, blue: 0x33, alpha: 0x44 });
    assert_eq!(Color::white().as_word(), 0xFFFF);
    assert_eq!(Color::black().as_word(), 0x000F);
    assert_eq!(Color::from_word(0xA5C3).as_word(), 0xA5C3);
    let c = Color::from_word(0x9AB0);
    assert_eq!((c.r(), c.g(), c.b()), (0x99, 0xAA, 0xBB));
}

#[test]
fn vertex_defaults() {
    let v = Vector::new(None, 1, 2, None, None, None, None);
    assert_eq!(v, Vector { monitor: 0, x: 1, y: 2, c: 0xFFFF, tx: 0, ty: 0, z: 0 });
    let w = Vector::new(Some(3), 1, 2, Some(5), Some(6), Some(7), Some(8));
    assert_eq!(w, Vector { monitor: 3, x: 1, y: 2, c: 5, tx: 6, ty: 7, z: 8 });
}

#[test]
fn monitor_write_bounds() {
    let mut m = Monitor::new(3, 2);
    assert_eq!(m.width(), 3);
    assert_eq!(m.height(), 2);
    assert_eq!(m.write(2, 1, Color::white()), Ok(()));
    assert_eq!(m.pixel(2, 1), Some(Color::white()));
    assert_eq!(m.pixel(1, 2), None);
    assert_eq!(m.write(3, 0, Color::white()), Err(UCode::PixelOutOfBounds));
    assert_eq!(m.write(0, 2, Color::white()), Err(UCode::PixelOutOfBounds));
    assert_eq!(GPUAssembly::operand_count(GPUAssembly::VRX), 11);
    assert_eq!(GPUAssembly::operand_count(GPUAssembly::BVB), 2);
    assert_eq!(GPUAssembly::operand_count(GPUAssembly::DRW), 0);
}
