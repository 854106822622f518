use vstd::prelude::*;
use crate::compute::{storage_bindings, Binding, BufferId, Command, CommandEncoder, Compute, Shader};
use crate::particles::{ParticleSystem, Point2};
use crate::passes::{
    gather, is_count_table, is_prefix_table, is_reordering, lemma_reorder_keeps_particles, sort_keys,
    zeroed, Reordering, Sorted,
};
use crate::permutation::is_gathered;
use crate::uniforms::{key_of, UniformBuffer, Uniforms};

verus! {

/// Size in bytes of one table entry on the device.
pub const SLOT_BYTES: u64 = 4;

/// The bindings of the count program: the positions it reads, the table it
/// tallies into, and the uniform buffer.
pub open spec fn count_bindings(particle_bytes: u64, table_bytes: u64, uniform_buffer: BufferId) -> Seq<
    Binding,
> {
    seq![
        Binding::Storage { buffer: BufferId::PositionOut, size: particle_bytes },
        Binding::Storage { buffer: BufferId::PrefixSum, size: table_bytes },
        Binding::Uniform { buffer: uniform_buffer },
    ]
}

/// The bindings of the scan program: the table it sums in place, and the
/// uniform buffer.
pub open spec fn scan_bindings(table_bytes: u64, uniform_buffer: BufferId) -> Seq<Binding> {
    seq![
        Binding::Storage { buffer: BufferId::PrefixSum, size: table_bytes },
        Binding::Uniform { buffer: uniform_buffer },
    ]
}

/// The bindings of the reorder program: the positions and velocities it
/// reads, each followed by the buffer it writes them to, the first slots of
/// the bins, the table of write cursors, and the uniform buffer.
pub open spec fn reorder_bindings(particle_bytes: u64, table_bytes: u64, uniform_buffer: BufferId) -> Seq<
    Binding,
> {
    seq![
        Binding::Storage { buffer: BufferId::PositionOut, size: particle_bytes },
        Binding::Storage { buffer: BufferId::PositionIn, size: particle_bytes },
        Binding::Storage { buffer: BufferId::VelocityOut, size: particle_bytes },
        Binding::Storage { buffer: BufferId::VelocityIn, size: particle_bytes },
        Binding::Storage { buffer: BufferId::PrefixSum, size: table_bytes },
        Binding::Storage { buffer: BufferId::BinCount, size: table_bytes },
        Binding::Uniform { buffer: uniform_buffer },
    ]
}

/// The bin key of every position, in order.
pub open spec fn keys_of(uniforms: Uniforms, positions: Seq<Point2>) -> Seq<u32> {
    Seq::new(positions.len(), |i: int| key_of(uniforms, positions[i].x, positions[i].y))
}

/// The commands of one sort: both tables are cleared, then the three programs
/// run in their order, one work group per particle or per bin.
pub open spec fn sort_commands(num_bins: u32, particle_count: u32, table_bytes: u64) -> Seq<Command> {
    seq![
        Command::ClearBuffer { buffer: BufferId::BinCount, size: table_bytes },
        Command::ClearBuffer { buffer: BufferId::PrefixSum, size: table_bytes },
        Command::Dispatch { shader: Shader::Count, groups: particle_count },
        Command::Dispatch { shader: Shader::Scan, groups: num_bins },
        Command::Dispatch { shader: Shader::Reorder, groups: particle_count },
    ]
}

/// Computes the bin key of every position.
pub fn bin_keys(uniforms: &Uniforms, positions: &Vec<Point2>) -> (keys: Vec<u32>)
    ensures
        keys@ == keys_of(*uniforms, positions@),
{
    let mut keys: Vec<u32> = Vec::new();
    let mut i: usize = 0;
    while i < positions.len()
        invariant
            i <= positions.len(),
            keys@ == keys_of(*uniforms, positions@.take(i as int)),
        decreases positions.len() - i,
    {
        keys.push(uniforms.bin_key(positions[i].x, positions[i].y));
        i = i + 1;
        assert(keys@ =~= keys_of(*uniforms, positions@.take(i as int)));
    }
    assert(positions@.take(positions.len() as int) =~= positions@);
    keys
}

/// The spatial sort: three kernels and the two tables that connect them.
#[derive(Debug)]
pub struct RadixSort {
    pub count: Compute,
    pub scan: Compute,
    pub reorder: Compute,
    /// Size in bytes of each of the two tables.
    pub buffer_size: u64,
    /// For every bin, the number of particles in it.
    pub bin_count_buffer: Vec<u32>,
    /// For every bin, the slot of its first particle.
    pub prefix_sum_buffer: Vec<u32>,
    pub num_bins: u32,
    pub particle_count: u32,
}

impl RadixSort {
    /// A valid sort: there is at least one bin, both tables hold one entry for
    /// every bin, and each kernel runs its own program.
    pub open spec fn wf(&self) -> bool {
        &&& self.num_bins >= 1
        &&& self.bin_count_buffer@.len() == self.num_bins
        &&& self.prefix_sum_buffer@.len() == self.num_bins
        &&& self.buffer_size == self.num_bins * SLOT_BYTES
        &&& self.count.shader == Shader::Count
        &&& self.scan.shader == Shader::Scan
        &&& self.reorder.shader == Shader::Reorder
    }

    /// Sets up the sort for the particles of `particle_system` and the bins
    /// that `uniforms` counts: two zeroed tables and the three kernels, each
    /// bound to its buffers in the order that its program reads them.
    pub fn new(particle_system: &ParticleSystem, uniforms: &UniformBuffer) -> (sort: RadixSort)
        requires
            uniforms.data.num_bins >= 1,
        ensures
            sort.wf(),
            sort.count.wf(),
            sort.scan.wf(),
            sort.reorder.wf(),
            sort.num_bins == uniforms.data.num_bins,
            sort.particle_count == uniforms.data.particle_count,
            sort.bin_count_buffer@ == Seq::new(sort.num_bins as nat, |i: int| 0u32),
            sort.prefix_sum_buffer@ == Seq::new(sort.num_bins as nat, |i: int| 0u32),
            sort.count.bindings@ == count_bindings(
                particle_system.buffer_size,
                sort.buffer_size,
                uniforms.buffer,
            ),
            sort.scan.bindings@ == scan_bindings(sort.buffer_size, uniforms.buffer),
            sort.reorder.bindings@ == reorder_bindings(
                particle_system.buffer_size,
                sort.buffer_size,
                uniforms.buffer,
            ),
    {
        let num_bins: u32 = uniforms.data.num_bins;
        let buffer_size: u64 = (num_bins as u64) * SLOT_BYTES;
        let bin_count_buffer = zeroed(num_bins as usize);
        let prefix_sum_buffer = zeroed(num_bins as usize);

        let mut count_buffers: Vec<BufferId> = Vec::new();
        count_buffers.push(BufferId::PositionOut);
        count_buffers.push(BufferId::PrefixSum);
        let mut count_buffer_sizes: Vec<u64> = Vec::new();
        count_buffer_sizes.push(particle_system.buffer_size);
        count_buffer_sizes.push(buffer_size);
        let ghost count_bound = count_buffers@;
        let ghost count_sizes = count_buffer_sizes@;
        let count = Compute::new(
            Some(count_buffers),
            Some(count_buffer_sizes),
            Some(uniforms.buffer),
            Shader::Count,
        ).unwrap();
        assert(count.bindings@ =~= count_bindings(
            particle_system.buffer_size,
            buffer_size,
            uniforms.buffer,
        )) by {
            assert(count_bound.len() == 2 && count_sizes.len() == 2);
            assert(count.bindings@[0] == storage_bindings(count_bound, count_sizes, 2)[0]);
            assert(count.bindings@[1] == storage_bindings(count_bound, count_sizes, 2)[1]);
        }

        let mut scan_buffers: Vec<BufferId> = Vec::new();
        scan_buffers.push(BufferId::PrefixSum);
        let mut scan_buffer_sizes: Vec<u64> = Vec::new();
        scan_buffer_sizes.push(buffer_size);
        let ghost scan_bound = scan_buffers@;
        let ghost scan_sizes = scan_buffer_sizes@;
        let scan = Compute::new(
            Some(scan_buffers),
            Some(scan_buffer_sizes),
            Some(uniforms.buffer),
            Shader::Scan,
        ).unwrap();
        assert(scan.bindings@ =~= scan_bindings(buffer_size, uniforms.buffer)) by {
            assert(scan_bound.len() == 1 && scan_sizes.len() == 1);
            assert(scan.bindings@[0] == storage_bindings(scan_bound, scan_sizes, 1)[0]);
        }

        let mut reorder_buffers: Vec<BufferId> = Vec::new();
        reorder_buffers.push(BufferId::PositionOut);
        reorder_buffers.push(BufferId::PositionIn);
        reorder_buffers.push(BufferId::VelocityOut);
        reorder_buffers.push(BufferId::VelocityIn);
        reorder_buffers.push(BufferId::PrefixSum);
        reorder_buffers.push(BufferId::BinCount);
        let mut reorder_buffer_sizes: Vec<u64> = Vec::new();
        reorder_buffer_sizes.push(particle_system.buffer_size);
        reorder_buffer_sizes.push(particle_system.buffer_size);
        reorder_buffer_sizes.push(particle_system.buffer_size);
        reorder_buffer_sizes.push(particle_system.buffer_size);
        reorder_buffer_sizes.push(buffer_size);
        reorder_buffer_sizes.push(buffer_size);
        let ghost reorder_bound = reorder_buffers@;
        let ghost reorder_sizes = reorder_buffer_sizes@;
        let reorder = Compute::new(
            Some(reorder_buffers),
            Some(reorder_buffer_sizes),
            Some(uniforms.buffer),
            Shader::Reorder,
        ).unwrap();
        assert(reorder.bindings@ =~= reorder_bindings(
            particle_system.buffer_size,
            buffer_size,
            uniforms.buffer,
        )) by {
            assert(reorder_bound.len() == 6 && reorder_sizes.len() == 6);
            assert(reorder.bindings@[0] == storage_bindings(reorder_bound, reorder_sizes, 6)[0]);
            assert(reorder.bindings@[1] == storage_bindings(reorder_bound, reorder_sizes, 6)[1]);
            assert(reorder.bindings@[2] == storage_bindings(reorder_bound, reorder_sizes, 6)[2]);
            assert(reorder.bindings@[3] == storage_bindings(reorder_bound, reorder_sizes, 6)[3]);
            assert(reorder.bindings@[4] == storage_bindings(reorder_bound, reorder_sizes, 6)[4]);
            assert(reorder.bindings@[5] == storage_bindings(reorder_bound, reorder_sizes, 6)[5]);
        }

        RadixSort {
            count,
            scan,
            reorder,
            buffer_size,
            bin_count_buffer,
            prefix_sum_buffer,
            num_bins,
            particle_count: uniforms.data.particle_count,
        }
    }

    /// Records the command that overwrites `buffer` with zeros.
    fn clear_buffer(&self, encoder: &mut CommandEncoder, buffer: BufferId)
        ensures
            final(encoder)@ == old(encoder)@.push(
                Command::ClearBuffer { buffer, size: self.buffer_size },
            ),
    {
        encoder.record(Command::ClearBuffer { buffer, size: self.buffer_size });
    }

    /// Zeroes both tables, on the host and, by two recorded commands, on the
    /// device.
    pub fn clear_buffers(&mut self, encoder: &mut CommandEncoder)
        requires
            old(self).wf(),
        ensures
            final(self).wf(),
            final(self).bin_count_buffer@ == Seq::new(old(self).num_bins as nat, |i: int| 0u32),
            final(self).prefix_sum_buffer@ == Seq::new(old(self).num_bins as nat, |i: int| 0u32),
            final(self).num_bins == old(self).num_bins,
            final(self).particle_count == old(self).particle_count,
            final(self).buffer_size == old(self).buffer_size,
            final(self).count == old(self).count,
            final(self).scan == old(self).scan,
            final(self).reorder == old(self).reorder,
            final(encoder)@ == old(encoder)@.push(
                Command::ClearBuffer { buffer: BufferId::BinCount, size: old(self).buffer_size },
            ).push(Command::ClearBuffer { buffer: BufferId::PrefixSum, size: old(self).buffer_size }),
    {
        self.bin_count_buffer = zeroed(self.num_bins as usize);
        self.prefix_sum_buffer = zeroed(self.num_bins as usize);
        self.clear_buffer(encoder, BufferId::BinCount);
        self.clear_buffer(encoder, BufferId::PrefixSum);
    }

    /// One sort of the particles by bin. The tables are cleared; the count pass
    /// tallies the "out" positions by bin; the scan pass turns the tallies into
    /// the first slot of every bin; the reorder pass moves every position and
    /// velocity from "out" to its slot in "in". The commands that do the same
    /// on the device are recorded, and the reordering is returned.
    pub fn update(
        &mut self,
        particle_system: &mut ParticleSystem,
        uniforms: &UniformBuffer,
        encoder: &mut CommandEncoder,
    ) -> (order: Reordering)
        requires
            old(self).wf(),
            old(particle_system).wf(),
        ensures
            final(self).wf(),
            final(particle_system).wf(),
            final(self).num_bins == old(self).num_bins,
            final(self).particle_count == old(self).particle_count,
            final(self).buffer_size == old(self).buffer_size,
            final(self).count == old(self).count,
            final(self).scan == old(self).scan,
            final(self).reorder == old(self).reorder,
            final(particle_system).position_out_buffer@ == old(particle_system).position_out_buffer@,
            final(particle_system).velocity_out_buffer@ == old(particle_system).velocity_out_buffer@,
            final(particle_system).initial_positions@ == old(particle_system).initial_positions@,
            final(particle_system).buffer_size == old(particle_system).buffer_size,
            final(particle_system).particle_count == old(particle_system).particle_count,
            final(particle_system).compute == old(particle_system).compute,
            is_count_table(
                keys_of(uniforms.data, old(particle_system).position_out_buffer@),
                old(self).num_bins,
                final(self).bin_count_buffer@,
            ),
            is_prefix_table(final(self).bin_count_buffer@, final(self).prefix_sum_buffer@),
            is_reordering(
                keys_of(uniforms.data, old(particle_system).position_out_buffer@),
                old(self).num_bins,
                order.destination@,
                order.source@,
            ),
            is_gathered(
                old(particle_system).position_out_buffer@,
                order.source@,
                final(particle_system).position_in_buffer@,
            ),
            is_gathered(
                old(particle_system).velocity_out_buffer@,
                order.source@,
                final(particle_system).velocity_in_buffer@,
            ),
            final(particle_system).position_in_buffer@.to_multiset() == old(particle_system).position_out_buffer@.to_multiset(),
            final(particle_system).velocity_in_buffer@.to_multiset() == old(particle_system).velocity_out_buffer@.to_multiset(),
            final(encoder)@ == old(encoder)@ + sort_commands(
                old(self).num_bins,
                old(self).particle_count,
                old(self).buffer_size,
            ),
    {
        let ghost before = encoder@;
        self.clear_buffers(encoder);
        let keys = bin_keys(&uniforms.data, &particle_system.position_out_buffer);
        let Sorted { counts, prefix, order } = sort_keys(&keys, self.num_bins);
        let positions = gather(&particle_system.position_out_buffer, &order.source);
        let velocities = gather(&particle_system.velocity_out_buffer, &order.source);
        proof {
            lemma_reorder_keeps_particles(
                keys@,
                self.num_bins,
                order.destination@,
                order.source@,
                particle_system.position_out_buffer@,
                positions@,
            );
            lemma_reorder_keeps_particles(
                keys@,
                self.num_bins,
                order.destination@,
                order.source@,
                particle_system.velocity_out_buffer@,
                velocities@,
            );
        }
        particle_system.position_in_buffer = positions;
        particle_system.velocity_in_buffer = velocities;
        self.bin_count_buffer = counts;
        self.prefix_sum_buffer = prefix;
        self.count.compute(encoder, self.particle_count);
        self.scan.compute(encoder, self.num_bins);
        self.reorder.compute(encoder, self.particle_count);
        assert(encoder@ =~= before + sort_commands(
            self.num_bins,
            self.particle_count,
            self.buffer_size,
        ));
        order
    }
}

} // verus!
