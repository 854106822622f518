use vstd::prelude::*;
use crate::compute::{BufferId, Command, CommandEncoder};
use crate::ratio::Ratio;

verus! {

/// The simulation parameters that every device program reads.
#[derive(Clone, Copy, Debug, PartialEq, Eq, Structural)]
pub struct Uniforms {
    pub particle_count: u32,
    pub width: u32,
    pub height: u32,
    pub speed: Ratio,
    pub attraction_strength: Ratio,
    pub repulsion_strength: Ratio,
    pub attraction_range: Ratio,
    pub repulsion_range: Ratio,
    pub center_strength: Ratio,
    pub particle_radius: Ratio,
    pub collision_response: Ratio,
    pub momentum: Ratio,
    pub max_acceleration: Ratio,
    pub max_velocity: Ratio,
    pub num_bins_x: u32,
    pub num_bins_y: u32,
    pub bin_size_x: Ratio,
    pub bin_size_y: Ratio,
    pub num_bins: u32,
}

/// The cell along one axis that `coord` falls into, for cells of `size` and
/// `cells` of them: the coordinate divided by the cell size, rounded down and
/// clamped to the last cell.
pub open spec fn cell_of(coord: u32, size: Ratio, cells: u32) -> nat {
    if cells == 0 || size.numer == 0 {
        0
    } else {
        let cell = (coord * size.denom) / (size.numer as int);
        if cell < cells {
            cell as nat
        } else {
            (cells - 1) as nat
        }
    }
}

/// The key of the bin that the point `(x, y)` falls into, rows first. A key
/// that does not fit in 32 bits is held at the largest one.
pub open spec fn key_of(uniforms: Uniforms, x: u32, y: u32) -> u32 {
    let key = cell_of(y, uniforms.bin_size_y, uniforms.num_bins_y) * uniforms.num_bins_x + cell_of(
        x,
        uniforms.bin_size_x,
        uniforms.num_bins_x,
    );
    if key <= u32::MAX {
        key as u32
    } else {
        u32::MAX
    }
}

/// The cell along one axis that `coord` falls into.
pub fn axis_cell(coord: u32, size: Ratio, cells: u32) -> (cell: u32)
    ensures
        cell == cell_of(coord, size, cells),
        cells > 0 ==> cell < cells,
{
    if cells == 0 || size.numer == 0 {
        return 0;
    }
    assert(coord * size.denom <= 0xffff_ffff * 0xffff_ffff_ffff_ffff) by (nonlinear_arith)
        requires
            0 <= coord <= 0xffff_ffff,
            0 <= size.denom <= 0xffff_ffff_ffff_ffff,
    ;
    let scaled: u128 = (coord as u128) * (size.denom as u128);
    let cell: u128 = scaled / (size.numer as u128);
    if cell < cells as u128 {
        cell as u32
    } else {
        cells - 1
    }
}

impl Uniforms {
    /// The parameters at startup: the given particle count and viewport, the
    /// default physics coefficients, and a grid of one bin over the viewport.
    pub open spec fn initial(particle_count: u32, width: u32, height: u32) -> Uniforms {
        Uniforms {
            particle_count,
            width,
            height,
            speed: Ratio { numer: 1, denom: 1 },
            attraction_strength: Ratio { numer: 28, denom: 10 },
            repulsion_strength: Ratio { numer: 3, denom: 1 },
            attraction_range: Ratio { numer: 20, denom: 1 },
            repulsion_range: Ratio { numer: 130, denom: 1 },
            center_strength: Ratio { numer: 1, denom: 10000 },
            particle_radius: Ratio { numer: 2, denom: 1 },
            collision_response: Ratio { numer: 1, denom: 10 },
            momentum: Ratio { numer: 97, denom: 100 },
            max_acceleration: Ratio { numer: 0, denom: 1 },
            max_velocity: Ratio { numer: 5, denom: 1 },
            num_bins_x: 1,
            num_bins_y: 1,
            bin_size_x: Ratio { numer: width as u64, denom: 1 },
            bin_size_y: Ratio { numer: height as u64, denom: 1 },
            num_bins: 1,
        }
    }

    /// The parameters at startup.
    pub fn new(particle_count: u32, width: u32, height: u32) -> (uniforms: Uniforms)
        ensures
            uniforms == Self::initial(particle_count, width, height),
    {
        Uniforms {
            particle_count,
            width,
            height,
            speed: Ratio::whole(1),
            attraction_strength: Ratio::new(28, 10),
            repulsion_strength: Ratio::whole(3),
            attraction_range: Ratio::whole(20),
            repulsion_range: Ratio::whole(130),
            center_strength: Ratio::new(1, 10000),
            particle_radius: Ratio::whole(2),
            collision_response: Ratio::new(1, 10),
            momentum: Ratio::new(97, 100),
            max_acceleration: Ratio::whole(0),
            max_velocity: Ratio::whole(5),
            num_bins_x: 1,
            num_bins_y: 1,
            bin_size_x: Ratio::whole(width as u64),
            bin_size_y: Ratio::whole(height as u64),
            num_bins: 1,
        }
    }

    /// The key of the bin that the point `(x, y)` falls into.
    pub fn bin_key(&self, x: u32, y: u32) -> (key: u32)
        ensures
            key == key_of(*self, x, y),
    {
        let row: u64 = axis_cell(y, self.bin_size_y, self.num_bins_y) as u64;
        let col: u64 = axis_cell(x, self.bin_size_x, self.num_bins_x) as u64;
        assert(row * self.num_bins_x <= 0xffff_ffff * 0xffff_ffff) by (nonlinear_arith)
            requires
                0 <= row <= 0xffff_ffff,
                0 <= self.num_bins_x <= 0xffff_ffff,
        ;
        let key: u64 = row * (self.num_bins_x as u64) + col;
        if key <= u32::MAX as u64 {
            key as u32
        } else {
            u32::MAX
        }
    }
}

/// The uniform record on the host together with the device buffer that mirrors it.
#[derive(Clone, Copy, Debug, PartialEq, Eq, Structural)]
pub struct UniformBuffer {
    /// The record as the host last set it.
    pub data: Uniforms,
    /// The device buffer that the record is published to.
    pub buffer: BufferId,
}

impl UniformBuffer {
    /// The startup parameters, bound to the uniform buffer of the device.
    pub fn new(particle_count: u32, width: u32, height: u32) -> (uniforms: UniformBuffer)
        ensures
            uniforms.data == Uniforms::initial(particle_count, width, height),
            uniforms.buffer == BufferId::Uniforms,
    {
        let data = Uniforms::new(particle_count, width, height);
        UniformBuffer { data, buffer: BufferId::Uniforms }
    }

    /// Publishes the record: records one command that stages the current
    /// record and copies it over the live uniform buffer.
    pub fn update(&self, encoder: &mut CommandEncoder)
        ensures
            final(encoder)@ == old(encoder)@.push(Command::WriteUniforms { data: self.data }),
    {
        encoder.record(Command::WriteUniforms { data: self.data });
    }
}

} // verus!
