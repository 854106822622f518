use particle_sort::binning::BinConfig;
use particle_sort::compute::{Binding, BufferId, Command, CommandEncoder, Shader};
use particle_sort::particles::{
    copy_of, vectors_as_byte_vec, word_as_bytes, ParticleSystem, Point2, POINT_BYTES,
};
use particle_sort::radix_sort::{bin_keys, RadixSort, SLOT_BYTES};
use particle_sort::uniforms::UniformBuffer;

fn pt(x: u32, y: u32) -> Point2 {
    Point2 { x, y }
}

fn grid(particles: u32) -> UniformBuffer {
    let mut uniforms = UniformBuffer::new(particles, 1920, 1080);
    BinConfig::new(1920, 1080, -9, -10).update_uniforms(&mut uniforms);
    uniforms
}

fn sorted(mut points: Vec<Point2>) -> Vec<(u32, u32)> {
    points.sort_by_key(|p| (p.x, p.y));
    points.iter().map(|p| (p.x, p.y)).collect()
}

#[test]
fn word_bytes_start_with_the_low_byte() {
    assert_eq!(word_as_bytes(0x0403_0201), vec![1, 2, 3, 4]);
    assert_eq!(word_as_bytes(0), vec![0, 0, 0, 0]);
    assert_eq!(word_as_bytes(u32::MAX), vec![255, 255, 255, 255]);
}

#[test]
fn points_are_laid_out_x_then_y() {
    let data = [pt(1, 0x0100), pt(0xdead_beef, 2)];
    assert_eq!(
        vectors_as_byte_vec(&data),
        vec![1, 0, 0, 0, 0, 1, 0, 0, 0xef, 0xbe, 0xad, 0xde, 2, 0, 0, 0]
    );
    assert_eq!(vectors_as_byte_vec(&[]), Vec::<u8>::new());
    assert_eq!(vectors_as_byte_vec(&data).len() as u64, 2 * POINT_BYTES);
}

#[test]
fn copy_of_copies() {
    assert_eq!(copy_of(&vec![3, 1, 2]), vec![3, 1, 2]);
    assert_eq!(copy_of(&Vec::<u8>::new()), Vec::<u8>::new());
}

#[test]
fn store_starts_with_both_slots_alike() {
    let uniforms = UniformBuffer::new(2, 1920, 1080);
    let positions = vec![pt(1, 2), pt(3, 4)];
    let velocities = vec![pt(5, 6), pt(7, 8)];
    let system = ParticleSystem::new(&uniforms, positions.clone(), velocities.clone()).unwrap();
    assert_eq!(system.particle_count, 2);
    assert_eq!(system.buffer_size, 16);
    assert_eq!(system.position_in_buffer, positions);
    assert_eq!(system.position_out_buffer, positions);
    assert_eq!(system.velocity_in_buffer, velocities);
    assert_eq!(system.velocity_out_buffer, velocities);
    assert_eq!(system.initial_positions, positions);
    assert_eq!(system.compute.shader, Shader::Update);
    assert_eq!(
        system.compute.bindings,
        vec![
            Binding::Storage { buffer: BufferId::PositionIn, size: 16 },
            Binding::Storage { buffer: BufferId::PositionOut, size: 16 },
            Binding::Storage { buffer: BufferId::VelocityIn, size: 16 },
            Binding::Storage { buffer: BufferId::VelocityOut, size: 16 },
            Binding::Uniform { buffer: BufferId::Uniforms },
        ]
    );
}

#[test]
fn store_needs_one_point_for_every_particle() {
    let uniforms = UniformBuffer::new(2, 1920, 1080);
    assert!(ParticleSystem::new(&uniforms, vec![pt(1, 2)], vec![pt(5, 6), pt(7, 8)]).is_none());
    assert!(ParticleSystem::new(&uniforms, vec![pt(1, 2), pt(3, 4)], vec![pt(5, 6)]).is_none());
    assert!(ParticleSystem::new(&uniforms, Vec::new(), Vec::new()).is_none());
}

#[test]
fn empty_store() {
    let uniforms = UniformBuffer::new(0, 1920, 1080);
    let mut system = ParticleSystem::new(&uniforms, Vec::new(), Vec::new()).unwrap();
    assert_eq!(system.buffer_size, 0);
    assert!(system.position_in_buffer.is_empty());
    let mut encoder = CommandEncoder::new();
    system.update(&mut encoder);
    assert_eq!(
        encoder.commands,
        vec![
            Command::Dispatch { shader: Shader::Update, groups: 0 },
            Command::CopyBuffer {
                source: BufferId::PositionOut,
                destination: BufferId::PositionIn,
                size: 0,
            },
        ]
    );
    assert!(system.position_in_buffer.is_empty());
    assert!(system.position_out_buffer.is_empty());
}

#[test]
fn swap_copies_out_over_in() {
    let uniforms = UniformBuffer::new(2, 1920, 1080);
    let mut system =
        ParticleSystem::new(&uniforms, vec![pt(1, 2), pt(3, 4)], vec![pt(5, 6), pt(7, 8)]).unwrap();
    let written = vec![pt(10, 20), pt(30, 40)];
    assert!(system.store_out(written.clone(), vec![pt(50, 60), pt(70, 80)]));
    assert_eq!(system.position_in_buffer, vec![pt(1, 2), pt(3, 4)]);
    let mut encoder = CommandEncoder::new();
    system.copy_positions_out_to_in(&mut encoder);
    assert_eq!(system.position_in_buffer, written);
    assert_eq!(system.position_out_buffer, written);
    assert_eq!(
        vectors_as_byte_vec(&system.position_in_buffer),
        vectors_as_byte_vec(&written)
    );
    assert_eq!(system.velocity_in_buffer, vec![pt(5, 6), pt(7, 8)]);
    assert_eq!(
        encoder.commands,
        vec![Command::CopyBuffer {
            source: BufferId::PositionOut,
            destination: BufferId::PositionIn,
            size: 16,
        }]
    );
    system.copy_velocities_out_to_in(&mut encoder);
    assert_eq!(system.velocity_in_buffer, vec![pt(50, 60), pt(70, 80)]);
    assert_eq!(
        encoder.commands[1],
        Command::CopyBuffer {
            source: BufferId::VelocityOut,
            destination: BufferId::VelocityIn,
            size: 16,
        }
    );
}

#[test]
fn store_out_refuses_the_wrong_number_of_points() {
    let uniforms = UniformBuffer::new(1, 1920, 1080);
    let mut system = ParticleSystem::new(&uniforms, vec![pt(1, 2)], vec![pt(5, 6)]).unwrap();
    assert!(!system.store_out(vec![pt(9, 9), pt(8, 8)], vec![pt(7, 7)]));
    assert!(!system.store_out(vec![pt(9, 9)], Vec::new()));
    assert_eq!(system.position_out_buffer, vec![pt(1, 2)]);
    assert_eq!(system.velocity_out_buffer, vec![pt(5, 6)]);
}

#[test]
fn step_dispatches_one_group_per_particle_and_then_swaps() {
    let uniforms = UniformBuffer::new(2, 1920, 1080);
    let mut system =
        ParticleSystem::new(&uniforms, vec![pt(1, 2), pt(3, 4)], vec![pt(5, 6), pt(7, 8)]).unwrap();
    assert!(system.store_out(vec![pt(10, 20), pt(30, 40)], vec![pt(5, 6), pt(7, 8)]));
    let mut encoder = CommandEncoder::new();
    system.update(&mut encoder);
    assert_eq!(
        encoder.commands,
        vec![
            Command::Dispatch { shader: Shader::Update, groups: 2 },
            Command::CopyBuffer {
                source: BufferId::PositionOut,
                destination: BufferId::PositionIn,
                size: 16,
            },
        ]
    );
    assert_eq!(system.position_in_buffer, vec![pt(10, 20), pt(30, 40)]);
}

#[test]
fn bin_keys_of_positions() {
    let uniforms = grid(3);
    let positions = vec![pt(0, 0), pt(500, 600), pt(5000, 5000)];
    assert_eq!(bin_keys(&uniforms.data, &positions), vec![0, 5, 7]);
    assert_eq!(bin_keys(&uniforms.data, &Vec::new()), Vec::<u32>::new());
}

#[test]
fn sort_is_set_up_with_zeroed_tables_and_three_kernels() {
    let uniforms = grid(2);
    let system =
        ParticleSystem::new(&uniforms, vec![pt(1, 2), pt(3, 4)], vec![pt(5, 6), pt(7, 8)]).unwrap();
    let sort = RadixSort::new(&system, &uniforms);
    assert_eq!(sort.num_bins, 8);
    assert_eq!(sort.particle_count, 2);
    assert_eq!(sort.buffer_size, 8 * SLOT_BYTES);
    assert_eq!(sort.bin_count_buffer, vec![0; 8]);
    assert_eq!(sort.prefix_sum_buffer, vec![0; 8]);
    assert_eq!(sort.count.shader, Shader::Count);
    assert_eq!(sort.scan.shader, Shader::Scan);
    assert_eq!(sort.reorder.shader, Shader::Reorder);
    assert_eq!(
        sort.count.bindings,
        vec![
            Binding::Storage { buffer: BufferId::PositionOut, size: 16 },
            Binding::Storage { buffer: BufferId::PrefixSum, size: 32 },
            Binding::Uniform { buffer: BufferId::Uniforms },
        ]
    );
    assert_eq!(
        sort.scan.bindings,
        vec![
            Binding::Storage { buffer: BufferId::PrefixSum, size: 32 },
            Binding::Uniform { buffer: BufferId::Uniforms },
        ]
    );
    assert_eq!(
        sort.reorder.bindings,
        vec![
            Binding::Storage { buffer: BufferId::PositionOut, size: 16 },
            Binding::Storage { buffer: BufferId::PositionIn, size: 16 },
            Binding::Storage { buffer: BufferId::VelocityOut, size: 16 },
            Binding::Storage { buffer: BufferId::VelocityIn, size: 16 },
            Binding::Storage { buffer: BufferId::PrefixSum, size: 32 },
            Binding::Storage { buffer: BufferId::BinCount, size: 32 },
            Binding::Uniform { buffer: BufferId::Uniforms },
        ]
    );
    assert_eq!(format!("{:?}", sort.reorder.layout).matches("Storage").count(), 6);
}

#[test]
fn sort_groups_particles_by_bin() {
    let uniforms = grid(5);
    let positions = vec![pt(1900, 1000), pt(10, 10), pt(500, 600), pt(20, 20), pt(1000, 100)];
    let velocities = vec![pt(0, 0), pt(1, 1), pt(2, 2), pt(3, 3), pt(4, 4)];
    let mut system = ParticleSystem::new(&uniforms, positions.clone(), velocities.clone()).unwrap();
    let mut sort = RadixSort::new(&system, &uniforms);
    let mut encoder = CommandEncoder::new();
    let order = sort.update(&mut system, &uniforms, &mut encoder);
    assert_eq!(bin_keys(&uniforms.data, &positions), vec![7, 0, 5, 0, 2]);
    assert_eq!(sort.bin_count_buffer, vec![2, 0, 1, 0, 0, 1, 0, 1]);
    assert_eq!(sort.prefix_sum_buffer, vec![0, 2, 2, 3, 3, 3, 4, 4]);
    assert_eq!(order.destination, vec![4, 0, 3, 1, 2]);
    assert_eq!(order.source, vec![1, 3, 4, 2, 0]);
    assert_eq!(
        system.position_in_buffer,
        vec![pt(10, 10), pt(20, 20), pt(1000, 100), pt(500, 600), pt(1900, 1000)]
    );
    assert_eq!(
        system.velocity_in_buffer,
        vec![pt(1, 1), pt(3, 3), pt(4, 4), pt(2, 2), pt(0, 0)]
    );
    assert_eq!(system.position_out_buffer, positions);
    assert_eq!(system.velocity_out_buffer, velocities);
    assert_eq!(sorted(system.position_in_buffer.clone()), sorted(positions));
    assert_eq!(
        encoder.commands,
        vec![
            Command::ClearBuffer { buffer: BufferId::BinCount, size: 32 },
            Command::ClearBuffer { buffer: BufferId::PrefixSum, size: 32 },
            Command::Dispatch { shader: Shader::Count, groups: 5 },
            Command::Dispatch { shader: Shader::Scan, groups: 8 },
            Command::Dispatch { shader: Shader::Reorder, groups: 5 },
        ]
    );
}

#[test]
fn sort_of_three_particles_in_one_bin() {
    let uniforms = grid(3);
    let positions = vec![pt(520, 600), pt(500, 610), pt(510, 620)];
    let mut system = ParticleSystem::new(&uniforms, positions.clone(), positions.clone()).unwrap();
    let mut sort = RadixSort::new(&system, &uniforms);
    let mut encoder = CommandEncoder::new();
    let order = sort.update(&mut system, &uniforms, &mut encoder);
    assert_eq!(sort.bin_count_buffer, vec![0, 0, 0, 0, 0, 3, 0, 0]);
    let first = sort.prefix_sum_buffer[5];
    assert_eq!(first, 0);
    let mut slots = order.destination.clone();
    slots.sort();
    assert_eq!(slots, vec![first, first + 1, first + 2]);
    assert_eq!(sorted(system.position_in_buffer.clone()), sorted(positions));
}

#[test]
fn sort_of_no_particles() {
    let uniforms = grid(0);
    let mut system = ParticleSystem::new(&uniforms, Vec::new(), Vec::new()).unwrap();
    let mut sort = RadixSort::new(&system, &uniforms);
    let mut encoder = CommandEncoder::new();
    let order = sort.update(&mut system, &uniforms, &mut encoder);
    assert!(order.destination.is_empty());
    assert!(order.source.is_empty());
    assert!(system.position_in_buffer.is_empty());
    assert!(system.velocity_in_buffer.is_empty());
    assert_eq!(sort.bin_count_buffer, vec![0; 8]);
    assert_eq!(sort.prefix_sum_buffer, vec![0; 8]);
    assert_eq!(encoder.commands.len(), 5);
    assert_eq!(encoder.commands[2], Command::Dispatch { shader: Shader::Count, groups: 0 });
    assert_eq!(encoder.commands[3], Command::Dispatch { shader: Shader::Scan, groups: 8 });
    assert_eq!(encoder.commands[4], Command::Dispatch { shader: Shader::Reorder, groups: 0 });
}

#[test]
fn sort_twice_regenerates_the_tables() {
    let uniforms = grid(3);
    let positions = vec![pt(1900, 1000), pt(10, 10), pt(500, 600)];
    let mut system = ParticleSystem::new(&uniforms, positions.clone(), positions.clone()).unwrap();
    let mut sort = RadixSort::new(&system, &uniforms);
    let mut encoder = CommandEncoder::new();
    sort.update(&mut system, &uniforms, &mut encoder);
    let counts = sort.bin_count_buffer.clone();
    let prefix = sort.prefix_sum_buffer.clone();
    sort.update(&mut system, &uniforms, &mut encoder);
    assert_eq!(sort.bin_count_buffer, counts);
    assert_eq!(sort.prefix_sum_buffer, prefix);
    assert_eq!(encoder.commands.len(), 10);
}

#[test]
fn clear_buffers_zeroes_both_tables() {
    let uniforms = grid(3);
    let positions = vec![pt(1900, 1000), pt(10, 10), pt(500, 600)];
    let mut system = ParticleSystem::new(&uniforms, positions.clone(), positions).unwrap();
    let mut sort = RadixSort::new(&system, &uniforms);
    let mut encoder = CommandEncoder::new();
    sort.update(&mut system, &uniforms, &mut encoder);
    assert_ne!(sort.bin_count_buffer, vec![0; 8]);
    let mut clearing = CommandEncoder::new();
    sort.clear_buffers(&mut clearing);
    assert_eq!(sort.bin_count_buffer, vec![0; 8]);
    assert_eq!(sort.prefix_sum_buffer, vec![0; 8]);
    assert_eq!(
        clearing.commands,
        vec![
            Command::ClearBuffer { buffer: BufferId::BinCount, size: 32 },
            Command::ClearBuffer { buffer: BufferId::PrefixSum, size: 32 },
        ]
    );
}
