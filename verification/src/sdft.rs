//! State of one sliding transform: the rolling window of the last `size`
//! samples and the per-bin spectrum and smoothing histories that belong to
//! it. The numeric update of the bins is done by the caller; this module
//! owns the layout, the window discipline and the reset.
use vstd::prelude::*;
use crate::constants::{czero, czerov};
use crate::types::Complex;

verus! {

/// `dasp_ring_buffer::Fixed`, the fixed-length ring buffer that holds the
/// window. Nothing inside it is visible here; what it holds is named by
/// [`ring_items`].
#[verifier::external_type_specification]
#[verifier::external_body]
#[verifier::reject_recursive_types(S)]
pub struct ExFixed<S>(dasp_ring_buffer::Fixed<S>);

/// What a ring buffer holds, oldest item first.
pub uninterp spec fn ring_items(r: dasp_ring_buffer::Fixed<Vec<(u32, u32)>>) -> Seq<(u32, u32)>;

/// `dasp_ring_buffer::Fixed::from` on a vector: the ring starts at the
/// vector's first item and holds its items in order. The outside function
/// panics on an empty vector, which `requires` leaves out.
#[verifier::external_body]
fn ring_from(data: Vec<(u32, u32)>) -> (r: dasp_ring_buffer::Fixed<Vec<(u32, u32)>>)
    requires
        data@.len() > 0,
    ensures
        ring_items(r) == data@,
{
    dasp_ring_buffer::Fixed::from(data)
}

/// `dasp_ring_buffer::Fixed::len`: the number of items, which is the length
/// of the vector the ring was made from.
#[verifier::external_body]
fn ring_len(r: &dasp_ring_buffer::Fixed<Vec<(u32, u32)>>) -> (n: usize)
    ensures
        n == ring_items(*r).len(),
{
    r.len()
}

/// `dasp_ring_buffer::Fixed::get`: the item `index` places after the oldest.
/// Indices past the end wrap around in the outside function; they are left
/// out here.
#[verifier::external_body]
fn ring_get(r: &dasp_ring_buffer::Fixed<Vec<(u32, u32)>>, index: usize) -> (item: (u32, u32))
    requires
        index < ring_items(*r).len(),
    ensures
        item == ring_items(*r)[index as int],
{
    *r.get(index)
}

/// `dasp_ring_buffer::Fixed::push`: the oldest item leaves and is returned,
/// the others move up one place, and `item` becomes the newest.
#[verifier::external_body]
fn ring_push(r: &mut dasp_ring_buffer::Fixed<Vec<(u32, u32)>>, item: (u32, u32)) -> (evicted: (u32, u32))
    requires
        ring_items(*old(r)).len() > 0,
    ensures
        evicted == ring_items(*old(r))[0],
        ring_items(*final(r)) == ring_items(*old(r)).drop_first().push(item),
{
    r.push(item)
}

/// `Clone::clone` of `dasp_ring_buffer::Fixed`, which that crate derives:
/// the copy holds the same items in the same order.
#[verifier::external_body]
fn ring_clone(r: &dasp_ring_buffer::Fixed<Vec<(u32, u32)>>) -> (c: dasp_ring_buffer::Fixed<Vec<(u32, u32)>>)
    ensures
        ring_items(c) == ring_items(*r),
{
    r.clone()
}

/// The pair that stands for a complex number inside the window.
pub open spec fn pair_of(c: Complex) -> (u32, u32) {
    (c.re, c.im)
}

/// The complex number that a pair of the window stands for.
pub open spec fn complex_of(p: (u32, u32)) -> Complex {
    Complex { re: p.0, im: p.1 }
}

/// A sequence of `n` zero pairs.
pub open spec fn zero_pairs(n: nat) -> Seq<(u32, u32)> {
    Seq::new(n, |i: int| (0u32, 0u32))
}

/// A sequence of `n` complex zeros.
pub open spec fn zeros(n: nat) -> Seq<Complex> {
    Seq::new(n, |i: int| czero())
}

/// Sliding-transform state of length `size`.
#[derive(Debug)]
pub struct SDFT {
    pub size: usize,
    pub time_history: dasp_ring_buffer::Fixed<Vec<(u32, u32)>>,
    pub freq_history: Vec<Complex>,
    pub pre_smooth_noise_history: Vec<Complex>,
    pub post_smooth_noise_history: Vec<Complex>,
    pub inv_time: Complex,
    pub new_freq: Vec<Complex>,
    pub time_output: Complex,
    pub filter: Vec<u32>,
}

/// Mathematical content of an [`SDFT`].
pub struct SDFTView {
    pub size: nat,
    pub time_history: Seq<Complex>,
    pub freq_history: Seq<Complex>,
    pub pre_smooth_noise_history: Seq<Complex>,
    pub post_smooth_noise_history: Seq<Complex>,
    pub inv_time: Complex,
    pub new_freq: Seq<Complex>,
    pub time_output: Complex,
    pub filter: Seq<u32>,
}

impl SDFTView {
    /// The state right after construction: everything zero.
    pub open spec fn fresh(size: nat) -> SDFTView {
        SDFTView {
            size,
            time_history: zeros(size),
            freq_history: zeros(size),
            pre_smooth_noise_history: zeros(size),
            post_smooth_noise_history: zeros(size),
            inv_time: czero(),
            new_freq: zeros(size),
            time_output: czero(),
            filter: Seq::new(size, |i: int| 0u32),
        }
    }

    /// Every per-bin vector and the window have exactly `size` entries, and
    /// `size` is positive.
    pub open spec fn wf(self) -> bool {
        &&& self.size > 0
        &&& self.time_history.len() == self.size
        &&& self.freq_history.len() == self.size
        &&& self.pre_smooth_noise_history.len() == self.size
        &&& self.post_smooth_noise_history.len() == self.size
        &&& self.new_freq.len() == self.size
        &&& self.filter.len() == self.size
    }
}

impl View for SDFT {
    type V = SDFTView;

    open spec fn view(&self) -> SDFTView {
        SDFTView {
            size: self.size as nat,
            time_history: ring_items(self.time_history).map_values(|p: (u32, u32)| complex_of(p)),
            freq_history: self.freq_history@,
            pre_smooth_noise_history: self.pre_smooth_noise_history@,
            post_smooth_noise_history: self.post_smooth_noise_history@,
            inv_time: self.inv_time,
            new_freq: self.new_freq@,
            time_output: self.time_output,
            filter: self.filter@,
        }
    }
}

/// A vector of `n` zeros.
fn zero_bits(n: usize) -> (v: Vec<u32>)
    ensures
        v@ == Seq::new(n as nat, |i: int| 0u32),
{
    let mut v: Vec<u32> = Vec::new();
    let mut i: usize = 0;
    while i < n
        invariant
            i <= n,
            v@ == Seq::new(i as nat, |j: int| 0u32),
        decreases n - i,
    {
        v.push(0);
        i += 1;
        assert(v@ =~= Seq::new(i as nat, |j: int| 0u32));
    }
    v
}

/// A window of `n` zero samples.
fn zero_window(n: usize) -> (r: dasp_ring_buffer::Fixed<Vec<(u32, u32)>>)
    requires
        n > 0,
    ensures
        ring_items(r) == zero_pairs(n as nat),
{
    let mut v: Vec<(u32, u32)> = Vec::new();
    let mut i: usize = 0;
    while i < n
        invariant
            i <= n,
            v@ == zero_pairs(i as nat),
        decreases n - i,
    {
        v.push((0, 0));
        i += 1;
        assert(v@ =~= zero_pairs(i as nat));
    }
    ring_from(v)
}

impl Clone for SDFT {
    /// A copy in the same state.
    fn clone(&self) -> (r: SDFT)
        ensures
            r@ == self@,
    {
        SDFT {
            size: self.size,
            time_history: ring_clone(&self.time_history),
            freq_history: self.freq_history.clone(),
            pre_smooth_noise_history: self.pre_smooth_noise_history.clone(),
            post_smooth_noise_history: self.post_smooth_noise_history.clone(),
            inv_time: self.inv_time,
            new_freq: self.new_freq.clone(),
            time_output: self.time_output,
            filter: self.filter.clone(),
        }
    }
}

impl SDFT {
    /// Whether the state is laid out for its `size`.
    pub open spec fn wf(&self) -> bool {
        self@.wf()
    }

    /// Tests whether the state is laid out for its `size`.
    pub fn check(&self) -> (b: bool)
        ensures
            b == self.wf(),
    {
        self.size > 0 && ring_len(&self.time_history) == self.size && self.freq_history.len()
            == self.size && self.pre_smooth_noise_history.len() == self.size
            && self.post_smooth_noise_history.len() == self.size && self.new_freq.len()
            == self.size && self.filter.len() == self.size
    }

    /// All-zero state for a transform of `size` bins.
    pub fn new(size: usize) -> (r: SDFT)
        requires
            size > 0,
        ensures
            r@ == SDFTView::fresh(size as nat),
            r.wf(),
    {
        let r = SDFT {
            size,
            time_history: zero_window(size),
            freq_history: czerov(size),
            pre_smooth_noise_history: czerov(size),
            post_smooth_noise_history: czerov(size),
            inv_time: Complex { re: 0, im: 0 },
            new_freq: czerov(size),
            time_output: Complex { re: 0, im: 0 },
            filter: zero_bits(size),
        };
        assert(r@.time_history =~= zeros(size as nat));
        r
    }

    /// Forgets everything that was pushed: afterwards the state is that of a
    /// new transform of the same size.
    pub fn reset(&mut self)
        requires
            old(self).size > 0,
        ensures
            final(self)@ == SDFTView::fresh(old(self).size as nat),
            final(self).wf(),
    {
        let size = self.size;
        self.time_history = zero_window(size);
        self.freq_history = czerov(size);
        self.pre_smooth_noise_history = czerov(size);
        self.post_smooth_noise_history = czerov(size);
        self.inv_time = Complex { re: 0, im: 0 };
        self.new_freq = czerov(size);
        self.time_output = Complex { re: 0, im: 0 };
        self.filter = zero_bits(size);
        assert(self@.time_history =~= zeros(size as nat));
    }

    /// Stores what one step computed for bin `k`: the running spectrum
    /// takes `spectrum`, the value before any smoothing, and the two
    /// smoothing histories take `pre_smoothed` and `post_smoothed`. Every
    /// other bin and the window stay as they are.
    pub fn commit_bin(&mut self, k: usize, spectrum: Complex, pre_smoothed: Complex, post_smoothed: Complex)
        requires
            old(self).wf(),
            k < old(self).size,
        ensures
            final(self)@ == (SDFTView {
                new_freq: old(self)@.new_freq.update(k as int, spectrum),
                freq_history: old(self)@.freq_history.update(k as int, spectrum),
                pre_smooth_noise_history: old(self)@.pre_smooth_noise_history.update(
                    k as int,
                    pre_smoothed,
                ),
                post_smooth_noise_history: old(self)@.post_smooth_noise_history.update(
                    k as int,
                    post_smoothed,
                ),
                ..old(self)@
            }),
            final(self).wf(),
    {
        self.new_freq.set(k, spectrum);
        self.freq_history.set(k, spectrum);
        self.pre_smooth_noise_history.set(k, pre_smoothed);
        self.post_smooth_noise_history.set(k, post_smoothed);
    }

    /// Stores the running spectrum of bin `k` after a step without
    /// subtraction; the smoothing histories stay as they are.
    pub fn commit_raw_bin(&mut self, k: usize, spectrum: Complex)
        requires
            old(self).wf(),
            k < old(self).size,
        ensures
            final(self)@ == (SDFTView {
                new_freq: old(self)@.new_freq.update(k as int, spectrum),
                freq_history: old(self)@.freq_history.update(k as int, spectrum),
                ..old(self)@
            }),
            final(self).wf(),
    {
        self.new_freq.set(k, spectrum);
        self.freq_history.set(k, spectrum);
    }

    /// Ends a step: records the resynthesised value `inv_time` and pushes
    /// `sample` into the window, from which the oldest sample leaves.
    pub fn finish_step(&mut self, sample: Complex, inv_time: Complex) -> (evicted: Complex)
        requires
            old(self).wf(),
        ensures
            evicted == old(self)@.time_history[0],
            final(self)@ == (SDFTView {
                inv_time,
                time_history: old(self)@.time_history.drop_first().push(sample),
                ..old(self)@
            }),
            final(self).wf(),
    {
        self.inv_time = inv_time;
        self.push_sample(sample)
    }

    /// The oldest sample of the window, the one the next push evicts.
    pub fn oldest(&self) -> (c: Complex)
        requires
            self.wf(),
        ensures
            c == self@.time_history[0],
    {
        let p = ring_get(&self.time_history, 0);
        Complex { re: p.0, im: p.1 }
    }

    /// Pushes `sample` as the newest of the window and returns the sample
    /// that left; nothing but the window changes.
    pub fn push_sample(&mut self, sample: Complex) -> (evicted: Complex)
        requires
            old(self).wf(),
        ensures
            evicted == old(self)@.time_history[0],
            final(self)@ == (SDFTView {
                time_history: old(self)@.time_history.drop_first().push(sample),
                ..old(self)@
            }),
            final(self).wf(),
    {
        let p = ring_push(&mut self.time_history, (sample.re, sample.im));
        assert(self@.time_history =~= old(self)@.time_history.drop_first().push(sample));
        Complex { re: p.0, im: p.1 }
    }
}

/// After a reset nothing of what was pushed before is left: every sample of
/// the window and every bin of the spectrum and of both smoothing histories
/// is zero, and two transforms of one size are in one and the same state,
/// whatever either held before.
pub proof fn lemma_reset_forgets_history(a: SDFTView, b: SDFTView)
    requires
        a.size == b.size,
    ensures
        SDFTView::fresh(a.size) == SDFTView::fresh(b.size),
        SDFTView::fresh(a.size).size == a.size,
        forall|i: int|
            0 <= i < a.size ==> {
                &&& (#[trigger] SDFTView::fresh(a.size).time_history[i]) == czero()
                &&& SDFTView::fresh(a.size).freq_history[i] == czero()
                &&& SDFTView::fresh(a.size).new_freq[i] == czero()
                &&& SDFTView::fresh(a.size).pre_smooth_noise_history[i] == czero()
                &&& SDFTView::fresh(a.size).post_smooth_noise_history[i] == czero()
            },
{
}

} // verus!
