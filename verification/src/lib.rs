pub mod binning;
pub mod compute;
pub mod frame;
pub mod particles;
pub mod passes;
pub mod permutation;
pub mod radix_sort;
pub mod ratio;
pub mod readback;
pub mod uniforms;
