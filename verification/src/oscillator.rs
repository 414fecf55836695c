//! Wave shapes of the test-tone generator.
use vstd::prelude::*;

verus! {

#[derive(Clone, Copy, Debug, PartialEq, Eq, Structural)]
pub enum Waveform {
    Sine,
    Square,
    Saw,
    Triangle,
}

} // verus!
