use vstd::prelude::*;
use crate::compute::{storage_bindings, Binding, BufferId, Command, CommandEncoder, Compute, Shader};
use crate::uniforms::UniformBuffer;

verus! {

/// Two 32-bit words that belong to one particle. A position is held by its
/// whole coordinates, measured from the corner of the viewport; a velocity,
/// which the sort only carries along, by the bits of its components.
#[derive(Clone, Copy, Debug, PartialEq, Eq, Structural)]
pub struct Point2 {
    pub x: u32,
    pub y: u32,
}

/// Size in bytes of one point on the device.
pub const POINT_BYTES: u64 = 8;

/// The four bytes of a word, low byte first.
pub open spec fn word_bytes(word: u32) -> Seq<u8> {
    seq![
        (word % 0x100) as u8,
        ((word / 0x100) % 0x100) as u8,
        ((word / 0x1_0000) % 0x100) as u8,
        (word / 0x100_0000) as u8,
    ]
}

/// The bytes of one point: those of `x`, then those of `y`.
pub open spec fn point_bytes(point: Point2) -> Seq<u8> {
    word_bytes(point.x) + word_bytes(point.y)
}

/// The bytes of a list of points, one point after the other.
pub open spec fn points_bytes(data: Seq<Point2>) -> Seq<u8>
    decreases data.len(),
{
    if data.len() == 0 {
        Seq::<u8>::empty()
    } else {
        points_bytes(data.drop_last()) + point_bytes(data.last())
    }
}

/// A list of points takes eight bytes for every point.
pub proof fn lemma_points_bytes_len(data: Seq<Point2>)
    ensures
        points_bytes(data).len() == 8 * data.len(),
    decreases data.len(),
{
    if data.len() > 0 {
        lemma_points_bytes_len(data.drop_last());
    }
}

/// The four bytes of a word, low byte first.
pub fn word_as_bytes(word: u32) -> (bytes: Vec<u8>)
    ensures
        bytes@ == word_bytes(word),
        bytes.len() == 4,
{
    assert(word & 0xff == word % 0x100) by (bit_vector);
    assert((word >> 8) & 0xff == (word / 0x100) % 0x100) by (bit_vector);
    assert((word >> 16) & 0xff == (word / 0x1_0000) % 0x100) by (bit_vector);
    assert(word >> 24 == word / 0x100_0000) by (bit_vector);
    assert(word >> 24 <= 0xff) by (bit_vector);
    let mut bytes: Vec<u8> = Vec::new();
    bytes.push((word & 0xff) as u8);
    bytes.push(((word >> 8) & 0xff) as u8);
    bytes.push(((word >> 16) & 0xff) as u8);
    bytes.push((word >> 24) as u8);
    assert(bytes@ =~= word_bytes(word));
    bytes
}

/// The bytes of a list of points as the device reads them.
pub fn vectors_as_byte_vec(data: &[Point2]) -> (bytes: Vec<u8>)
    ensures
        bytes@ == points_bytes(data@),
        bytes.len() == 8 * data.len(),
{
    let mut bytes: Vec<u8> = Vec::new();
    let mut i: usize = 0;
    while i < data.len()
        invariant
            i <= data.len(),
            bytes@ == points_bytes(data@.take(i as int)),
        decreases data.len() - i,
    {
        let x_bytes = word_as_bytes(data[i].x);
        let y_bytes = word_as_bytes(data[i].y);
        bytes.extend_from_slice(x_bytes.as_slice());
        bytes.extend_from_slice(y_bytes.as_slice());
        proof {
            assert(data@.take(i + 1).drop_last() =~= data@.take(i as int));
            assert(bytes@ =~= points_bytes(data@.take(i as int)) + point_bytes(data@[i as int]));
        }
        i = i + 1;
    }
    proof {
        assert(data@.take(data.len() as int) =~= data@);
        lemma_points_bytes_len(data@);
    }
    bytes
}

/// A copy of `items`.
pub fn copy_of<T: Copy>(items: &Vec<T>) -> (copy: Vec<T>)
    ensures
        copy@ == items@,
{
    let mut copy: Vec<T> = Vec::new();
    let mut i: usize = 0;
    while i < items.len()
        invariant
            i <= items.len(),
            copy@ == items@.take(i as int),
        decreases items.len() - i,
    {
        copy.push(items[i]);
        i = i + 1;
        assert(copy@ =~= items@.take(i as int));
    }
    assert(items@.take(items.len() as int) =~= items@);
    copy
}

/// The bindings of the program that advances the particles: both position
/// buffers and both velocity buffers over their whole size, then the uniform
/// buffer.
pub open spec fn update_bindings(buffer_size: u64, uniform_buffer: BufferId) -> Seq<Binding> {
    seq![
        Binding::Storage { buffer: BufferId::PositionIn, size: buffer_size },
        Binding::Storage { buffer: BufferId::PositionOut, size: buffer_size },
        Binding::Storage { buffer: BufferId::VelocityIn, size: buffer_size },
        Binding::Storage { buffer: BufferId::VelocityOut, size: buffer_size },
        Binding::Uniform { buffer: uniform_buffer },
    ]
}

/// The particles: positions and velocities, each held twice, once as the
/// programs read it ("in") and once as they write it ("out").
#[derive(Debug)]
pub struct ParticleSystem {
    pub position_in_buffer: Vec<Point2>,
    pub position_out_buffer: Vec<Point2>,
    pub velocity_in_buffer: Vec<Point2>,
    pub velocity_out_buffer: Vec<Point2>,
    /// Size in bytes of each of the four buffers.
    pub buffer_size: u64,
    /// The positions that the particles started from.
    pub initial_positions: Vec<Point2>,
    /// The program that advances the particles.
    pub compute: Compute,
    pub particle_count: u32,
}

impl ParticleSystem {
    /// A valid store: every buffer holds one point for every particle, and the
    /// kernel runs the program that advances them.
    pub open spec fn wf(&self) -> bool {
        &&& self.position_in_buffer@.len() == self.particle_count
        &&& self.position_out_buffer@.len() == self.particle_count
        &&& self.velocity_in_buffer@.len() == self.particle_count
        &&& self.velocity_out_buffer@.len() == self.particle_count
        &&& self.buffer_size == self.particle_count * POINT_BYTES
        &&& self.compute.shader == Shader::Update
    }

    /// Sets up the store from the first positions and velocities of the
    /// particles. Gives `None` unless there is one position and one velocity
    /// for every particle that `uniforms` counts.
    pub fn new(uniforms: &UniformBuffer, positions: Vec<Point2>, velocities: Vec<Point2>) -> (system:
        Option<ParticleSystem>)
        ensures
            system is Some <==> positions@.len() == uniforms.data.particle_count && velocities@.len()
                == uniforms.data.particle_count,
            system is Some ==> {
                let s = system->Some_0;
                &&& s.wf()
                &&& s.particle_count == uniforms.data.particle_count
                &&& s.compute.bindings@ == update_bindings(s.buffer_size, uniforms.buffer)
                &&& s.compute.wf()
                &&& s.position_in_buffer@ == positions@
                &&& s.position_out_buffer@ == positions@
                &&& s.velocity_in_buffer@ == velocities@
                &&& s.velocity_out_buffer@ == velocities@
                &&& s.initial_positions@ == positions@
            },
    {
        let particle_count: u32 = uniforms.data.particle_count;
        if positions.len() != particle_count as usize || velocities.len() != particle_count as usize {
            return None;
        }
        let buffer_size: u64 = (particle_count as u64) * POINT_BYTES;
        let position_in_buffer = copy_of(&positions);
        let position_out_buffer = copy_of(&positions);
        let velocity_in_buffer = copy_of(&velocities);
        let velocity_out_buffer = velocities;

        let mut buffers: Vec<BufferId> = Vec::new();
        buffers.push(BufferId::PositionIn);
        buffers.push(BufferId::PositionOut);
        buffers.push(BufferId::VelocityIn);
        buffers.push(BufferId::VelocityOut);
        let mut buffer_sizes: Vec<u64> = Vec::new();
        buffer_sizes.push(buffer_size);
        buffer_sizes.push(buffer_size);
        buffer_sizes.push(buffer_size);
        buffer_sizes.push(buffer_size);

        let ghost bound = buffers@;
        let ghost sizes = buffer_sizes@;
        let compute = match Compute::new(
            Some(buffers),
            Some(buffer_sizes),
            Some(uniforms.buffer),
            Shader::Update,
        ) {
            Ok(kernel) => kernel,
            Err(_) => { return None; },
        };
        assert(compute.bindings@ =~= update_bindings(buffer_size, uniforms.buffer)) by {
            assert(bound.len() == 4 && sizes.len() == 4);
            assert(compute.bindings@.len() == 5);
            assert(compute.bindings@[0] == storage_bindings(bound, sizes, 4)[0]);
            assert(compute.bindings@[1] == storage_bindings(bound, sizes, 4)[1]);
            assert(compute.bindings@[2] == storage_bindings(bound, sizes, 4)[2]);
            assert(compute.bindings@[3] == storage_bindings(bound, sizes, 4)[3]);
        }
        Some(
            ParticleSystem {
                position_in_buffer,
                position_out_buffer,
                velocity_in_buffer,
                velocity_out_buffer,
                buffer_size,
                initial_positions: positions,
                compute,
                particle_count,
            },
        )
    }

    /// Copies the whole "out" position buffer over "in", on the host and, by
    /// one recorded command, on the device.
    pub fn copy_positions_out_to_in(&mut self, encoder: &mut CommandEncoder)
        ensures
            final(self).position_in_buffer@ == old(self).position_out_buffer@,
            final(self).position_out_buffer@ == old(self).position_out_buffer@,
            final(self).velocity_in_buffer@ == old(self).velocity_in_buffer@,
            final(self).velocity_out_buffer@ == old(self).velocity_out_buffer@,
            final(self).initial_positions@ == old(self).initial_positions@,
            final(self).buffer_size == old(self).buffer_size,
            final(self).particle_count == old(self).particle_count,
            final(self).compute == old(self).compute,
            old(self).wf() ==> final(self).wf(),
            final(encoder)@ == old(encoder)@.push(
                Command::CopyBuffer {
                    source: BufferId::PositionOut,
                    destination: BufferId::PositionIn,
                    size: old(self).buffer_size,
                },
            ),
    {
        self.position_in_buffer = copy_of(&self.position_out_buffer);
        encoder.record(
            Command::CopyBuffer {
                source: BufferId::PositionOut,
                destination: BufferId::PositionIn,
                size: self.buffer_size,
            },
        );
    }

    /// Copies the whole "out" velocity buffer over "in", on the host and, by
    /// one recorded command, on the device.
    pub fn copy_velocities_out_to_in(&mut self, encoder: &mut CommandEncoder)
        ensures
            final(self).velocity_in_buffer@ == old(self).velocity_out_buffer@,
            final(self).velocity_out_buffer@ == old(self).velocity_out_buffer@,
            final(self).position_in_buffer@ == old(self).position_in_buffer@,
            final(self).position_out_buffer@ == old(self).position_out_buffer@,
            final(self).initial_positions@ == old(self).initial_positions@,
            final(self).buffer_size == old(self).buffer_size,
            final(self).particle_count == old(self).particle_count,
            final(self).compute == old(self).compute,
            old(self).wf() ==> final(self).wf(),
            final(encoder)@ == old(encoder)@.push(
                Command::CopyBuffer {
                    source: BufferId::VelocityOut,
                    destination: BufferId::VelocityIn,
                    size: old(self).buffer_size,
                },
            ),
    {
        self.velocity_in_buffer = copy_of(&self.velocity_out_buffer);
        encoder.record(
            Command::CopyBuffer {
                source: BufferId::VelocityOut,
                destination: BufferId::VelocityIn,
                size: self.buffer_size,
            },
        );
    }

    /// Takes what the device wrote to the "out" buffers into the store. Gives
    /// `false`, and leaves the store as it was, unless there is one position and
    /// one velocity for every particle.
    pub fn store_out(&mut self, positions: Vec<Point2>, velocities: Vec<Point2>) -> (stored: bool)
        ensures
            stored <==> positions@.len() == old(self).particle_count && velocities@.len() == old(self).particle_count,
            stored ==> final(self).position_out_buffer@ == positions@ && final(self).velocity_out_buffer@
                == velocities@,
            !stored ==> final(self).position_out_buffer@ == old(self).position_out_buffer@ && final(self).velocity_out_buffer@ == old(self).velocity_out_buffer@,
            final(self).position_in_buffer@ == old(self).position_in_buffer@,
            final(self).velocity_in_buffer@ == old(self).velocity_in_buffer@,
            final(self).initial_positions@ == old(self).initial_positions@,
            final(self).buffer_size == old(self).buffer_size,
            final(self).particle_count == old(self).particle_count,
            final(self).compute == old(self).compute,
            old(self).wf() ==> final(self).wf(),
    {
        if positions.len() != self.particle_count as usize || velocities.len()
            != self.particle_count as usize {
            return false;
        }
        self.position_out_buffer = positions;
        self.velocity_out_buffer = velocities;
        true
    }

    /// One step of the particles: records a dispatch of the program that
    /// advances them, one work group per particle, and then copies the "out"
    /// positions over "in".
    pub fn update(&mut self, encoder: &mut CommandEncoder)
        ensures
            final(self).position_in_buffer@ == old(self).position_out_buffer@,
            final(self).position_out_buffer@ == old(self).position_out_buffer@,
            final(self).velocity_in_buffer@ == old(self).velocity_in_buffer@,
            final(self).velocity_out_buffer@ == old(self).velocity_out_buffer@,
            final(self).initial_positions@ == old(self).initial_positions@,
            final(self).buffer_size == old(self).buffer_size,
            final(self).particle_count == old(self).particle_count,
            final(self).compute == old(self).compute,
            old(self).wf() ==> final(self).wf(),
            final(encoder)@ == old(encoder)@.push(
                Command::Dispatch { shader: old(self).compute.shader, groups: old(self).particle_count },
            ).push(
                Command::CopyBuffer {
                    source: BufferId::PositionOut,
                    destination: BufferId::PositionIn,
                    size: old(self).buffer_size,
                },
            ),
    {
        self.compute.compute(encoder, self.particle_count);
        self.copy_positions_out_to_in(encoder);
    }
}

} // verus!
