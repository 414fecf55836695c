//! The parameter model: filter descriptions, per-channel parameters and the
//! stereo session that the audio callback owns.
use vstd::prelude::*;
use crate::constants::{NUM_FILTERS, ONE_BITS, HALF_BITS, KILO_BITS, DFT_SIZE};
use crate::sdft::{SDFT, SDFTView};

verus! {

/// A complex number, each part the bit pattern of a single-precision value.
#[derive(Clone, Copy, Debug, PartialEq, Eq, Structural)]
pub struct Complex {
    pub re: u32,
    pub im: u32,
}

/// Frequency-axis scale of the spectrum plot.
#[derive(Clone, Copy, Debug, PartialEq, Eq, Structural)]
pub enum PlotScale {
    Linear,
    Mel,
    Log,
    Bark,
}

/// User-facing description of one band filter: gain, centre frequency and
/// quality factor, each as single-precision bits.
#[derive(Clone, Copy, Debug, PartialEq, Eq, Structural)]
pub struct BPF {
    pub gain: u32,
    pub freq: u32,
    pub Q: u32,
}

impl BPF {
    /// Gain 0.0, frequency 1000.0, quality 1.0.
    pub fn new() -> (r: BPF)
        ensures
            r == (BPF { gain: 0, freq: KILO_BITS, Q: ONE_BITS }),
    {
        BPF { gain: 0, freq: KILO_BITS, Q: ONE_BITS }
    }
}

/// Second-order recursive filter: six coefficients and the two most recent
/// inputs and outputs.
#[derive(Clone, Copy, Debug, PartialEq, Eq)]
pub struct IIR2 {
    pub b0: u32,
    pub b1: u32,
    pub b2: u32,
    pub a0: u32,
    pub a1: u32,
    pub a2: u32,
    pub x: [u32; 2],
    pub y: [u32; 2],
}

impl IIR2 {
    /// The pass-through filter: `b0 = a0 = 1.0`, every other coefficient and
    /// the whole history zero.
    pub open spec fn identity(self) -> bool {
        &&& self.b0 == ONE_BITS
        &&& self.b1 == 0
        &&& self.b2 == 0
        &&& self.a0 == ONE_BITS
        &&& self.a1 == 0
        &&& self.a2 == 0
        &&& self.x@ == seq![0u32, 0u32]
        &&& self.y@ == seq![0u32, 0u32]
    }

    /// Whether `self` has the coefficients of `c` and the history of `h`.
    pub open spec fn mixes(self, c: IIR2, h: IIR2) -> bool {
        &&& self.b0 == c.b0
        &&& self.b1 == c.b1
        &&& self.b2 == c.b2
        &&& self.a0 == c.a0
        &&& self.a1 == c.a1
        &&& self.a2 == c.a2
        &&& self.x == h.x
        &&& self.y == h.y
    }

    pub fn new() -> (r: IIR2)
        ensures
            r.identity(),
    {
        IIR2 { b0: ONE_BITS, b1: 0, b2: 0, a0: ONE_BITS, a1: 0, a2: 0, x: [0, 0], y: [0, 0] }
    }

    /// Takes the six coefficients of `iir`; the input and output history of
    /// `self` stays as it is.
    pub fn update_coeffs(&mut self, iir: IIR2)
        ensures
            final(self).mixes(iir, *old(self)),
    {
        self.b0 = iir.b0;
        self.b1 = iir.b1;
        self.b2 = iir.b2;
        self.a0 = iir.a0;
        self.a1 = iir.a1;
        self.a2 = iir.a2;
    }
}

/// The bank of recursive filters of one channel.
#[derive(Clone, Copy, Debug, PartialEq, Eq)]
pub struct Filters {
    pub bank: [IIR2; NUM_FILTERS],
}

impl Filters {
    /// A bank of pass-through filters.
    pub fn new() -> (r: Filters)
        ensures
            forall|i: int| 0 <= i < NUM_FILTERS ==> (#[trigger] r.bank@[i]).identity(),
    {
        Filters { bank: [IIR2::new(), IIR2::new(), IIR2::new(), IIR2::new(), IIR2::new()] }
    }
}

impl Default for Filters {
    fn default() -> (r: Filters)
        ensures
            forall|i: int| 0 <= i < NUM_FILTERS ==> (#[trigger] r.bank@[i]).identity(),
    {
        Filters::new()
    }
}

/// The bank of filter descriptions as the front end shows it.
#[derive(Clone, Copy, Debug, PartialEq, Eq)]
pub struct UIFilters {
    pub bank: [BPF; NUM_FILTERS],
}

impl UIFilters {
    /// Five default descriptions.
    pub fn new() -> (r: UIFilters)
        ensures
            r.bank@ == Seq::new(NUM_FILTERS as nat, |i: int| BPF { gain: 0, freq: KILO_BITS, Q: ONE_BITS }),
    {
        let r = UIFilters { bank: [BPF::new(), BPF::new(), BPF::new(), BPF::new(), BPF::new()] };
        assert(r.bank@ =~= Seq::new(
            NUM_FILTERS as nat,
            |i: int| BPF { gain: 0, freq: KILO_BITS, Q: ONE_BITS },
        ));
        r
    }
}

impl Default for UIFilters {
    fn default() -> (r: UIFilters)
        ensures
            r.bank@ == Seq::new(NUM_FILTERS as nat, |i: int| BPF { gain: 0, freq: KILO_BITS, Q: ONE_BITS }),
    {
        UIFilters::new()
    }
}

/// Filter descriptions sent to the audio side: a slot is `None` where the
/// filter stays as it is.
#[derive(Clone, Copy, Debug, PartialEq, Eq)]
pub struct FiltersMessage {
    pub filters: [Option<BPF>; NUM_FILTERS],
}

impl Default for FiltersMessage {
    fn default() -> (r: FiltersMessage)
        ensures
            forall|i: int| 0 <= i < NUM_FILTERS ==> (#[trigger] r.filters@[i]) is None,
    {
        FiltersMessage { filters: [None, None, None, None, None] }
    }
}

/// Which channel a control applies to.
#[derive(Clone, Copy, Debug, PartialEq, Eq, Structural)]
pub enum StereoChoice {
    Left,
    Right,
    Both,
}

impl StereoChoice {
    /// The name under which the choice is stored.
    pub open spec fn name(self) -> Seq<char> {
        match self {
            StereoChoice::Left => "Left"@,
            StereoChoice::Right => "Right"@,
            StereoChoice::Both => "Both"@,
        }
    }

    pub fn as_str(&self) -> (r: &'static str)
        ensures
            r@ == self.name(),
    {
        match self {
            StereoChoice::Left => "Left",
            StereoChoice::Right => "Right",
            StereoChoice::Both => "Both",
        }
    }
}

/// Everything the front end controls for one channel.
#[derive(Clone, Copy, Debug, PartialEq, Eq)]
pub struct UIParams {
    pub clean: bool,
    pub left_mute: bool,
    pub right_mute: bool,
    pub stereo_choice: StereoChoice,
    pub output_gain: u32,
    pub noise_gain: u32,
    pub pre_smooth_gain: u32,
    pub post_smooth_gain: u32,
    pub filters: UIFilters,
}

impl UIParams {
    /// The values a channel starts with: nothing muted, output gain 1.0,
    /// noise gain 0.0, both smoothing gains 0.5, default filter descriptions.
    pub open spec fn initial(self) -> bool {
        &&& !self.clean
        &&& !self.left_mute
        &&& !self.right_mute
        &&& self.stereo_choice == StereoChoice::Both
        &&& self.output_gain == ONE_BITS
        &&& self.noise_gain == 0
        &&& self.pre_smooth_gain == HALF_BITS
        &&& self.post_smooth_gain == HALF_BITS
        &&& self.filters.bank@ == Seq::new(
            NUM_FILTERS as nat,
            |i: int| BPF { gain: 0, freq: KILO_BITS, Q: ONE_BITS },
        )
    }

    pub fn new() -> (r: UIParams)
        ensures
            r.initial(),
    {
        UIParams {
            clean: false,
            left_mute: false,
            right_mute: false,
            stereo_choice: StereoChoice::Both,
            output_gain: ONE_BITS,
            noise_gain: 0,
            pre_smooth_gain: HALF_BITS,
            post_smooth_gain: HALF_BITS,
            filters: UIFilters::new(),
        }
    }
}

impl Default for UIParams {
    fn default() -> (r: UIParams)
        ensures
            r.initial(),
    {
        UIParams::new()
    }
}

/// State of one channel: its controls, its filter bank, the noise template
/// derived from the bank, and its sliding transform.
#[derive(Clone, Debug)]
pub struct AudioParams {
    pub ui_params: UIParams,
    pub time: usize,
    pub dft_size: usize,
    pub filters: Filters,
    pub output_spectrum: Vec<u32>,
    pub noise_spectrum: Vec<u32>,
    pub sdft: SDFT,
}

/// Mathematical content of an [`AudioParams`].
pub struct AudioParamsView {
    pub ui_params: UIParams,
    pub time: usize,
    pub dft_size: usize,
    pub filters: Seq<IIR2>,
    pub output_spectrum: Seq<u32>,
    pub noise_spectrum: Seq<u32>,
    pub sdft: SDFTView,
}

impl AudioParamsView {
    /// A channel as it is made: initial controls, cursor at 0, transform
    /// size [`DFT_SIZE`], pass-through filters, no output spectrum, the
    /// given noise template and a zeroed transform.
    pub open spec fn is_new(self, template: Seq<u32>) -> bool {
        &&& self.ui_params.initial()
        &&& self.time == 0
        &&& self.dft_size == DFT_SIZE
        &&& self.filters.len() == NUM_FILTERS
        &&& forall|i: int| 0 <= i < NUM_FILTERS ==> (#[trigger] self.filters[i]).identity()
        &&& self.output_spectrum == Seq::<u32>::empty()
        &&& self.noise_spectrum == template
        &&& self.sdft == SDFTView::fresh(DFT_SIZE as nat)
    }

    /// The noise template has one entry per bin of the transform, and the
    /// transform is laid out for the channel's size.
    pub open spec fn wf(self) -> bool {
        &&& self.sdft.wf()
        &&& self.sdft.size == self.dft_size
        &&& self.noise_spectrum.len() == self.dft_size
        &&& self.filters.len() == NUM_FILTERS
    }
}

impl View for AudioParams {
    type V = AudioParamsView;

    open spec fn view(&self) -> AudioParamsView {
        AudioParamsView {
            ui_params: self.ui_params,
            time: self.time,
            dft_size: self.dft_size,
            filters: self.filters.bank@,
            output_spectrum: self.output_spectrum@,
            noise_spectrum: self.noise_spectrum@,
            sdft: self.sdft@,
        }
    }
}

impl AudioParams {
    pub open spec fn wf(&self) -> bool {
        self@.wf()
    }

    /// Tests whether the channel is well formed: the transform laid out for
    /// the channel's size and one template entry per bin.
    pub fn check(&self) -> (b: bool)
        ensures
            b == self.wf(),
    {
        self.sdft.check() && self.sdft.size == self.dft_size && self.noise_spectrum.len()
            == self.dft_size
    }

    /// A channel of transform size [`DFT_SIZE`] with initial controls,
    /// pass-through filters and zeroed transform. `noise_spectrum` is the
    /// template of the pass-through bank, one entry per bin.
    pub fn new(noise_spectrum: Vec<u32>) -> (r: AudioParams)
        requires
            noise_spectrum@.len() == DFT_SIZE,
        ensures
            r.wf(),
            r@.is_new(noise_spectrum@),
    {
        AudioParams {
            ui_params: UIParams::new(),
            time: 0,
            dft_size: DFT_SIZE,
            filters: Filters::new(),
            output_spectrum: Vec::new(),
            noise_spectrum,
            sdft: SDFT::new(DFT_SIZE),
        }
    }
}

/// The session the audio callback owns: both channels and what is common to
/// them.
#[derive(Debug)]
pub struct StereoParams {
    pub left: AudioParams,
    pub right: AudioParams,
    pub stereo_choice: StereoChoice,
    pub clean: bool,
    pub num_file_samples: usize,
    pub file_path: String,
    pub is_stereo: bool,
    pub time: usize,
    pub is_looping: bool,
    pub loop_start_time: usize,
    pub loop_length: usize,
}

/// Mathematical content of a [`StereoParams`].
pub struct StereoParamsView {
    pub left: AudioParamsView,
    pub right: AudioParamsView,
    pub stereo_choice: StereoChoice,
    pub clean: bool,
    pub num_file_samples: usize,
    pub file_path: Seq<char>,
    pub is_stereo: bool,
    pub time: usize,
    pub is_looping: bool,
    pub loop_start_time: usize,
    pub loop_length: usize,
}

impl StereoParamsView {
    pub open spec fn wf(self) -> bool {
        self.left.wf() && self.right.wf()
    }
}

impl View for StereoParams {
    type V = StereoParamsView;

    open spec fn view(&self) -> StereoParamsView {
        StereoParamsView {
            left: self.left@,
            right: self.right@,
            stereo_choice: self.stereo_choice,
            clean: self.clean,
            num_file_samples: self.num_file_samples,
            file_path: self.file_path@,
            is_stereo: self.is_stereo,
            time: self.time,
            is_looping: self.is_looping,
            loop_start_time: self.loop_start_time,
            loop_length: self.loop_length,
        }
    }
}

impl StereoParams {
    pub open spec fn wf(&self) -> bool {
        self@.wf()
    }

    /// Tests whether both channels are well formed.
    pub fn check(&self) -> (b: bool)
        ensures
            b == self.wf(),
    {
        self.left.check() && self.right.check()
    }

    /// A session with no file loaded: both channels new, controls applying
    /// to both, mono, cursor at 0, not looping. `noise_spectrum` is the
    /// template of the pass-through bank, given to both channels.
    pub fn new(noise_spectrum: &Vec<u32>) -> (r: StereoParams)
        requires
            noise_spectrum@.len() == DFT_SIZE,
        ensures
            r.wf(),
            r@.left.is_new(noise_spectrum@),
            r@.right.is_new(noise_spectrum@),
            r@.stereo_choice == StereoChoice::Both,
            !r@.clean,
            r@.num_file_samples == 0,
            r@.file_path == Seq::<char>::empty(),
            !r@.is_stereo,
            r@.time == 0,
            !r@.is_looping,
            r@.loop_start_time == 0,
            r@.loop_length == 0,
    {
        StereoParams {
            left: AudioParams::new(noise_spectrum.clone()),
            right: AudioParams::new(noise_spectrum.clone()),
            stereo_choice: StereoChoice::Both,
            clean: false,
            num_file_samples: 0,
            file_path: String::new(),
            is_stereo: false,
            time: 0,
            is_looping: false,
            loop_start_time: 0,
            loop_length: 0,
        }
    }
}

} // verus!
