use vstd::prelude::*;
use vstd::arithmetic::power2::is_pow2;
use crate::ratio::Ratio;
use crate::uniforms::UniformBuffer;

verus! {

/// The largest viewport dimension whose next power of two fits in 64 bits.
pub const MAX_DIMENSION: u64 = 0x8000_0000_0000_0000;

/// The smallest power of two that is at least `x`.
pub open spec fn next_pow2(x: nat) -> nat
    decreases x,
{
    if x <= 1 {
        1
    } else {
        2 * next_pow2((x + 1) / 2)
    }
}

/// `base` multiplied by two, `times` times.
pub open spec fn doubled(base: nat, times: nat) -> nat
    decreases times,
{
    if times == 0 {
        base
    } else {
        2 * doubled(base, (times - 1) as nat)
    }
}

/// `base` divided by two, `times` times, each division rounding down.
pub open spec fn halved(base: nat, times: nat) -> nat
    decreases times,
{
    if times == 0 {
        base
    } else {
        halved(base, (times - 1) as nat) / 2
    }
}

/// `base` scaled by a signed exponent: doubled `exp` times where `exp` is
/// positive, halved `-exp` times where it is negative.
pub open spec fn scaled(base: nat, exp: int) -> nat {
    if exp >= 0 {
        doubled(base, exp as nat)
    } else {
        halved(base, (-exp) as nat)
    }
}

/// The number of grid cells along an axis of `extent` units at scale `exp`.
pub open spec fn grid_cells(extent: nat, exp: int) -> nat {
    scaled(next_pow2(extent), exp)
}

/// `next_pow2(x)` is a power of two and is at least `x`.
pub proof fn lemma_next_pow2_covers(x: nat)
    ensures
        is_pow2(next_pow2(x) as int),
        next_pow2(x) >= x,
        next_pow2(x) >= 1,
    decreases x,
{
    reveal(is_pow2);
    if x > 1 {
        lemma_next_pow2_covers((x + 1) / 2);
    }
}

/// No power of two that is at least `x` lies below `next_pow2(x)`.
pub proof fn lemma_next_pow2_least(x: nat, p: int)
    requires
        is_pow2(p),
        p >= x,
    ensures
        next_pow2(x) <= p,
    decreases x,
{
    reveal(is_pow2);
    if x > 1 {
        lemma_next_pow2_least((x + 1) / 2, p / 2);
    }
}

/// Doubling more often never gives less.
pub proof fn lemma_doubled_grows(base: nat, fewer: nat, more: nat)
    requires
        fewer <= more,
    ensures
        doubled(base, fewer) <= doubled(base, more),
    decreases more,
{
    if fewer < more {
        lemma_doubled_grows(base, fewer, (more - 1) as nat);
    }
}

/// Halving more often never gives more.
pub proof fn lemma_halved_shrinks(base: nat, fewer: nat, more: nat)
    requires
        fewer <= more,
    ensures
        halved(base, more) <= halved(base, fewer),
    decreases more,
{
    if fewer < more {
        lemma_halved_shrinks(base, fewer, (more - 1) as nat);
    }
}

/// Scaling a power of two gives a power of two, unless it was halved away.
pub proof fn lemma_scaled_pow2(base: nat, exp: int)
    requires
        is_pow2(base as int),
        scaled(base, exp) >= 1,
    ensures
        is_pow2(scaled(base, exp) as int),
    decreases (if exp >= 0 { exp } else { -exp }),
{
    reveal(is_pow2);
    if exp > 0 {
        lemma_doubled_positive(base, (exp - 1) as nat);
        lemma_scaled_pow2(base, exp - 1);
    } else if exp < 0 {
        assert(halved(base, (-exp) as nat) == halved(base, (-exp - 1) as nat) / 2);
        lemma_scaled_pow2(base, exp + 1);
    }
}

proof fn lemma_doubled_positive(base: nat, times: nat)
    requires
        base >= 1,
    ensures
        doubled(base, times) >= 1,
    decreases times,
{
    if times > 0 {
        lemma_doubled_positive(base, (times - 1) as nat);
    }
}

/// `u64::next_power_of_two` of std: for an argument whose next power of two
/// fits in 64 bits, the result is a power of two, is at least the argument,
/// and no power of two that is at least the argument is smaller.
pub assume_specification[ u64::next_power_of_two ](x: u64) -> (r: u64)
    requires
        x <= MAX_DIMENSION,
    ensures
        is_pow2(r as int),
        r >= x,
        forall|p: int| #[trigger] is_pow2(p) && p >= x ==> r <= p,
;

/// The smallest power of two that is at least `x`.
pub fn next_power_of_two(x: u64) -> (r: u64)
    requires
        x <= MAX_DIMENSION,
    ensures
        r == next_pow2(x as nat),
{
    let r: u64 = x.next_power_of_two();
    proof {
        lemma_next_pow2_covers(x as nat);
        lemma_next_pow2_least(x as nat, r as int);
    }
    r
}

/// Scales `base` by the signed exponent `exp`, one doubling or halving at a
/// time. Gives `None` where the grid would vanish or leave 64 bits.
pub fn scale_cells(base: u64, exp: i32) -> (cells: Option<u64>)
    ensures
        cells is Some <==> 1 <= scaled(base as nat, exp as int) <= u64::MAX,
        cells is Some ==> cells->Some_0 == scaled(base as nat, exp as int),
{
    let mut grid: u64 = base;
    if exp > 0 {
        let mut i: i32 = 0;
        while i < exp
            invariant
                0 <= i <= exp,
                grid == doubled(base as nat, i as nat),
            decreases exp - i,
        {
            if grid > u64::MAX / 2 {
                proof {
                    lemma_doubled_grows(base as nat, (i + 1) as nat, exp as nat);
                }
                return None;
            }
            grid = grid * 2;
            i = i + 1;
        }
    }
    if exp < 0 {
        let mut i: i32 = 0;
        while i > exp
            invariant
                exp <= i <= 0,
                grid == halved(base as nat, (-i) as nat),
            decreases i - exp,
        {
            if grid < 2 {
                proof {
                    lemma_halved_shrinks(base as nat, (1 - i) as nat, (-exp) as nat);
                }
                return None;
            }
            grid = grid / 2;
            i = i - 1;
        }
    }
    if grid == 0 {
        None
    } else {
        Some(grid)
    }
}

/// The spatial grid that particles are binned into.
#[derive(Clone, Copy, Debug, PartialEq, Eq, Structural)]
pub struct BinConfig {
    /// Number of bins along the horizontal axis.
    pub grid_x: u64,
    /// Number of bins along the vertical axis.
    pub grid_y: u64,
    /// Width of one bin: the viewport's width over `grid_x`.
    pub bin_x: Ratio,
    /// Height of one bin: the viewport's height over `grid_y`.
    pub bin_y: Ratio,
    /// Number of bins in the grid.
    pub num_bins: u64,
}

impl BinConfig {
    /// Whether a grid can be derived from these arguments: both dimensions have
    /// a next power of two in 64 bits, neither axis is halved away, and the
    /// number of bins fits in 64 bits.
    pub open spec fn derivable(raw_width: u64, raw_height: u64, x_scale: i32, y_scale: i32) -> bool {
        &&& raw_width <= MAX_DIMENSION
        &&& raw_height <= MAX_DIMENSION
        &&& 1 <= grid_cells(raw_width as nat, x_scale as int) <= u64::MAX
        &&& 1 <= grid_cells(raw_height as nat, y_scale as int) <= u64::MAX
        &&& grid_cells(raw_width as nat, x_scale as int) * grid_cells(raw_height as nat, y_scale as int)
            <= u64::MAX
    }

    /// The grid derived from a viewport and a scale exponent per axis.
    pub open spec fn derived(raw_width: u64, raw_height: u64, x_scale: i32, y_scale: i32) -> BinConfig {
        let grid_x = grid_cells(raw_width as nat, x_scale as int) as u64;
        let grid_y = grid_cells(raw_height as nat, y_scale as int) as u64;
        BinConfig {
            grid_x,
            grid_y,
            bin_x: Ratio { numer: raw_width, denom: grid_x },
            bin_y: Ratio { numer: raw_height, denom: grid_y },
            num_bins: (grid_x * grid_y) as u64,
        }
    }

    /// A valid grid: both axes hold a power of two of bins, the bin sizes are
    /// taken over those axes, and `num_bins` is their product.
    pub open spec fn wf(&self) -> bool {
        &&& is_pow2(self.grid_x as int)
        &&& is_pow2(self.grid_y as int)
        &&& self.num_bins == self.grid_x * self.grid_y
        &&& self.num_bins >= 1
        &&& self.bin_x.denom == self.grid_x
        &&& self.bin_y.denom == self.grid_y
    }

    /// Derives the grid for a viewport of `raw_width` by `raw_height`: each axis
    /// starts from the next power of two of its dimension and is doubled or
    /// halved as its scale exponent says.
    pub fn new(raw_width: u64, raw_height: u64, x_scale: i32, y_scale: i32) -> (config: BinConfig)
        requires
            Self::derivable(raw_width, raw_height, x_scale, y_scale),
        ensures
            config == Self::derived(raw_width, raw_height, x_scale, y_scale),
            config.wf(),
    {
        let base_x: u64 = next_power_of_two(raw_width);
        let base_y: u64 = next_power_of_two(raw_height);
        let grid_x: u64 = scale_cells(base_x, x_scale).unwrap();
        let grid_y: u64 = scale_cells(base_y, y_scale).unwrap();
        proof {
            lemma_derived_wf(raw_width, raw_height, x_scale, y_scale);
        }
        BinConfig {
            grid_x,
            grid_y,
            bin_x: Ratio { numer: raw_width, denom: grid_x },
            bin_y: Ratio { numer: raw_height, denom: grid_y },
            num_bins: grid_x * grid_y,
        }
    }

    /// Derives the grid as `new` does, and gives `None` for arguments from
    /// which no valid grid can be derived.
    pub fn try_new(raw_width: u64, raw_height: u64, x_scale: i32, y_scale: i32) -> (config: Option<
        BinConfig,
    >)
        ensures
            config is Some <==> Self::derivable(raw_width, raw_height, x_scale, y_scale),
            config is Some ==> config->Some_0 == Self::derived(
                raw_width,
                raw_height,
                x_scale,
                y_scale,
            ) && config->Some_0.wf(),
    {
        if raw_width > MAX_DIMENSION || raw_height > MAX_DIMENSION {
            return None;
        }
        let grid_x: u64 = match scale_cells(next_power_of_two(raw_width), x_scale) {
            Some(cells) => cells,
            None => { return None; },
        };
        let grid_y: u64 = match scale_cells(next_power_of_two(raw_height), y_scale) {
            Some(cells) => cells,
            None => { return None; },
        };
        if grid_x.checked_mul(grid_y).is_none() {
            return None;
        }
        Some(BinConfig::new(raw_width, raw_height, x_scale, y_scale))
    }

    /// Whether a table with one 32-bit entry for every bin can be counted by
    /// the device and takes no more than `max_table_bytes` bytes.
    pub fn within_limit(&self, max_table_bytes: u64) -> (fits: bool)
        ensures
            fits <==> self.num_bins <= u32::MAX && self.num_bins * 4 <= max_table_bytes,
    {
        self.num_bins <= 0xffff_ffff && self.num_bins * 4 <= max_table_bytes
    }

    /// Writes the grid into the uniform record: the bin counts in their low 32
    /// bits, as the device reads them, and the bin sizes unchanged.
    pub fn update_uniforms(&self, uniforms: &mut UniformBuffer)
        ensures
            final(uniforms).buffer == old(uniforms).buffer,
            final(uniforms).data == (crate::uniforms::Uniforms {
                num_bins_x: (self.grid_x % 0x1_0000_0000) as u32,
                num_bins_y: (self.grid_y % 0x1_0000_0000) as u32,
                bin_size_x: self.bin_x,
                bin_size_y: self.bin_y,
                num_bins: (self.num_bins % 0x1_0000_0000) as u32,
                ..old(uniforms).data
            }),
    {
        uniforms.data.num_bins_x = low_word(self.grid_x);
        uniforms.data.num_bins_y = low_word(self.grid_y);
        uniforms.data.bin_size_x = self.bin_x;
        uniforms.data.bin_size_y = self.bin_y;
        uniforms.data.num_bins = low_word(self.num_bins);
    }
}

/// The low 32 bits of `value`.
pub fn low_word(value: u64) -> (word: u32)
    ensures
        word == value % 0x1_0000_0000,
{
    let low: u64 = value & 0xffff_ffff;
    assert(value & 0xffff_ffff == value % 0x1_0000_0000) by (bit_vector);
    low as u32
}

/// A derivable grid is valid: scaling keeps each axis a power of two.
pub proof fn lemma_derived_wf(raw_width: u64, raw_height: u64, x_scale: i32, y_scale: i32)
    requires
        BinConfig::derivable(raw_width, raw_height, x_scale, y_scale),
    ensures
        BinConfig::derived(raw_width, raw_height, x_scale, y_scale).wf(),
{
    lemma_next_pow2_covers(raw_width as nat);
    lemma_next_pow2_covers(raw_height as nat);
    lemma_scaled_pow2(next_pow2(raw_width as nat), x_scale as int);
    lemma_scaled_pow2(next_pow2(raw_height as nat), y_scale as int);
    let gx = grid_cells(raw_width as nat, x_scale as int);
    let gy = grid_cells(raw_height as nat, y_scale as int);
    assert(gx * gy >= 1) by (nonlinear_arith)
        requires
            gx >= 1,
            gy >= 1,
    ;
}

/// With both scale exponents zero, the grid is the next power of two of each
/// viewport dimension.
pub proof fn lemma_unscaled_grid(raw_width: u64, raw_height: u64)
    requires
        BinConfig::derivable(raw_width, raw_height, 0, 0),
    ensures
        BinConfig::derived(raw_width, raw_height, 0, 0).grid_x == next_pow2(raw_width as nat),
        BinConfig::derived(raw_width, raw_height, 0, 0).grid_y == next_pow2(raw_height as nat),
{
}

} // verus!
