use vstd::prelude::*;
use crate::compute::{BufferId, Command, CommandEncoder};
use crate::particles::ParticleSystem;
use crate::passes::{is_count_table, is_prefix_table, is_reordering, Reordering};
use crate::radix_sort::{keys_of, sort_commands, RadixSort};
use crate::uniforms::UniformBuffer;

verus! {

/// The commands of one frame: the uniform record is published, the particles
/// are sorted, the particles are advanced, and what was written to the "out"
/// buffers is copied over "in".
pub open spec fn frame_commands(uniforms: UniformBuffer, sort: RadixSort, particle_system: ParticleSystem) -> Seq<
    Command,
> {
    seq![Command::WriteUniforms { data: uniforms.data }] + sort_commands(
        sort.num_bins,
        sort.particle_count,
        sort.buffer_size,
    ) + seq![
        Command::Dispatch {
            shader: particle_system.compute.shader,
            groups: particle_system.particle_count,
        },
        Command::CopyBuffer {
            source: BufferId::PositionOut,
            destination: BufferId::PositionIn,
            size: particle_system.buffer_size,
        },
        Command::CopyBuffer {
            source: BufferId::VelocityOut,
            destination: BufferId::VelocityIn,
            size: particle_system.buffer_size,
        },
    ]
}

/// One frame. Records the commands of the frame in their order and keeps the
/// host's copy of the buffers in step: the tables hold the counts and first
/// slots of the "out" positions, and in the end the "in" buffers hold what the
/// "out" buffers hold. The reordering that the sort found is returned.
pub fn update(
    uniforms: &UniformBuffer,
    sort: &mut RadixSort,
    particle_system: &mut ParticleSystem,
    encoder: &mut CommandEncoder,
) -> (order: Reordering)
    requires
        old(sort).wf(),
        old(particle_system).wf(),
    ensures
        final(sort).wf(),
        final(particle_system).wf(),
        final(sort).num_bins == old(sort).num_bins,
        final(sort).particle_count == old(sort).particle_count,
        final(sort).buffer_size == old(sort).buffer_size,
        final(sort).count == old(sort).count,
        final(sort).scan == old(sort).scan,
        final(sort).reorder == old(sort).reorder,
        is_count_table(
            keys_of(uniforms.data, old(particle_system).position_out_buffer@),
            old(sort).num_bins,
            final(sort).bin_count_buffer@,
        ),
        is_prefix_table(final(sort).bin_count_buffer@, final(sort).prefix_sum_buffer@),
        is_reordering(
            keys_of(uniforms.data, old(particle_system).position_out_buffer@),
            old(sort).num_bins,
            order.destination@,
            order.source@,
        ),
        final(particle_system).position_in_buffer@ == old(particle_system).position_out_buffer@,
        final(particle_system).position_out_buffer@ == old(particle_system).position_out_buffer@,
        final(particle_system).velocity_in_buffer@ == old(particle_system).velocity_out_buffer@,
        final(particle_system).velocity_out_buffer@ == old(particle_system).velocity_out_buffer@,
        final(particle_system).initial_positions@ == old(particle_system).initial_positions@,
        final(particle_system).buffer_size == old(particle_system).buffer_size,
        final(particle_system).particle_count == old(particle_system).particle_count,
        final(particle_system).compute == old(particle_system).compute,
        final(encoder)@ == old(encoder)@ + frame_commands(*uniforms, *old(sort), *old(particle_system)),
{
    let ghost before = encoder@;
    uniforms.update(encoder);
    let order = sort.update(particle_system, uniforms, encoder);
    particle_system.update(encoder);
    particle_system.copy_velocities_out_to_in(encoder);
    assert(encoder@ =~= before + frame_commands(*uniforms, *old(sort), *old(particle_system)));
    order
}

} // verus!
