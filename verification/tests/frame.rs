use particle_sort::binning::BinConfig;
use particle_sort::compute::{BufferId, Command, CommandEncoder, Shader};
use particle_sort::frame;
use particle_sort::particles::{ParticleSystem, Point2};
use particle_sort::radix_sort::RadixSort;
use particle_sort::uniforms::UniformBuffer;

#[test]
fn frame_records_its_commands_in_order() {
    let mut uniforms = UniformBuffer::new(3, 1920, 1080);
    BinConfig::new(1920, 1080, -9, -10).update_uniforms(&mut uniforms);
    let positions = vec![
        Point2 { x: 1900, y: 1000 },
        Point2 { x: 10, y: 10 },
        Point2 { x: 500, y: 600 },
    ];
    let velocities = vec![Point2 { x: 1, y: 1 }, Point2 { x: 2, y: 2 }, Point2 { x: 3, y: 3 }];
    let mut system = ParticleSystem::new(&uniforms, positions, velocities).unwrap();
    let written = vec![
        Point2 { x: 1000, y: 1000 },
        Point2 { x: 100, y: 900 },
        Point2 { x: 20, y: 20 },
    ];
    let moving = vec![Point2 { x: 7, y: 7 }, Point2 { x: 8, y: 8 }, Point2 { x: 9, y: 9 }];
    assert!(system.store_out(written.clone(), moving.clone()));
    let mut sort = RadixSort::new(&system, &uniforms);
    let mut encoder = CommandEncoder::new();
    let order = frame::update(&uniforms, &mut sort, &mut system, &mut encoder);
    assert_eq!(
        encoder.commands,
        vec![
            Command::WriteUniforms { data: uniforms.data },
            Command::ClearBuffer { buffer: BufferId::BinCount, size: 32 },
            Command::ClearBuffer { buffer: BufferId::PrefixSum, size: 32 },
            Command::Dispatch { shader: Shader::Count, groups: 3 },
            Command::Dispatch { shader: Shader::Scan, groups: 8 },
            Command::Dispatch { shader: Shader::Reorder, groups: 3 },
            Command::Dispatch { shader: Shader::Update, groups: 3 },
            Command::CopyBuffer {
                source: BufferId::PositionOut,
                destination: BufferId::PositionIn,
                size: 24,
            },
            Command::CopyBuffer {
                source: BufferId::VelocityOut,
                destination: BufferId::VelocityIn,
                size: 24,
            },
        ]
    );
    assert_eq!(sort.bin_count_buffer, vec![1, 0, 0, 0, 1, 0, 1, 0]);
    assert_eq!(sort.prefix_sum_buffer, vec![0, 1, 1, 1, 1, 2, 2, 3]);
    assert_eq!(order.destination, vec![2, 1, 0]);
    assert_eq!(order.source, vec![2, 1, 0]);
    assert_eq!(system.position_in_buffer, written);
    assert_eq!(system.position_out_buffer, written);
    assert_eq!(system.velocity_in_buffer, moving);
    assert_eq!(system.velocity_out_buffer, moving);
}

#[test]
fn frame_without_particles() {
    let uniforms = UniformBuffer::new(0, 1920, 1080);
    let mut system = ParticleSystem::new(&uniforms, Vec::new(), Vec::new()).unwrap();
    let mut sort = RadixSort::new(&system, &uniforms);
    let mut encoder = CommandEncoder::new();
    let order = frame::update(&uniforms, &mut sort, &mut system, &mut encoder);
    assert!(order.destination.is_empty());
    assert!(order.source.is_empty());
    assert_eq!(encoder.commands.len(), 9);
    assert_eq!(sort.bin_count_buffer, vec![0]);
    assert_eq!(sort.prefix_sum_buffer, vec![0]);
    assert!(system.position_in_buffer.is_empty());
}
