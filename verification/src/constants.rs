//! Sizes and fixed values shared by the control side and the audio side.
use vstd::prelude::*;
use crate::types::Complex;

verus! {

/// Number of filters in every bank; messages and banks have this many slots.
pub const NUM_FILTERS: usize = 5;

/// Bit pattern of 1.0 in single precision.
pub const ONE_BITS: u32 = 0x3f80_0000;

/// Bit pattern of 0.5 in single precision.
pub const HALF_BITS: u32 = 0x3f00_0000;

/// Bit pattern of 1000.0 in single precision.
pub const KILO_BITS: u32 = 0x447a_0000;

/// Bit pattern of the sampling rate, 44100.0.
pub const SAMPLING_RATE: u32 = 0x472c_4400;

/// Bit pattern of half the sampling rate, 22050.0.
pub const NYQUIST: u32 = 0x46ac_4400;

/// Number of bins of every channel's transform.
pub const DFT_SIZE: usize = 256;

pub const DOWN_RATE: usize = 1;

pub const TEST_FILE: &'static str = "reisman.wav";

pub const ASSETS_PATH: &'static str = "assets";

/// The complex number zero.
pub open spec fn czero() -> Complex {
    Complex { re: 0, im: 0 }
}

pub fn get_num_filters() -> (n: usize)
    ensures
        n == NUM_FILTERS,
{
    NUM_FILTERS
}

/// A vector of `n` complex zeros.
pub fn czerov(n: usize) -> (v: Vec<Complex>)
    ensures
        v@ == Seq::new(n as nat, |i: int| czero()),
{
    let mut v: Vec<Complex> = Vec::new();
    let mut i: usize = 0;
    while i < n
        invariant
            i <= n,
            v@ == Seq::new(i as nat, |j: int| czero()),
        decreases n - i,
    {
        v.push(Complex { re: 0, im: 0 });
        i += 1;
        assert(v@ =~= Seq::new(i as nat, |j: int| czero()));
    }
    v
}

} // verus!
