//! Frame scheduling of the audio callback and of the offline export: which
//! source sample feeds which output slot, when the cursor wraps to the loop
//! start, and when filling stops.
//!
//! The caller owns the sample buffer and the output buffer. For each output
//! frame it asks [`next_frame`] what to do and carries it out.
use vstd::prelude::*;
use crate::messages::cleared;
use crate::types::{StereoParams, StereoParamsView};

verus! {

/// What to do for one output frame.
#[derive(Clone, Copy, Debug, PartialEq, Eq, Structural)]
pub enum FrameStep {
    /// The buffer has no frame left: stop filling.
    Stop,
    /// The sample at `index`, scaled by the left channel's output gain,
    /// feeds every slot of the frame: as it is when `denoise` is false,
    /// through the left channel's spectral subtraction when it is true.
    Mono { index: usize, denoise: bool },
    /// The samples at `left` and `right`, each scaled by its channel's
    /// output gain, feed slot 0 and slot 1 of the frame. A channel that is
    /// muted has `None`: its slot keeps what it held and its transform is
    /// not advanced.
    Stereo { left: Option<usize>, right: Option<usize>, denoise: bool },
}

/// Whether the cursor has run past the loop region and goes back to its
/// start.
pub open spec fn wraps(p: StereoParamsView) -> bool {
    p.is_looping && p.time > p.loop_start_time + p.loop_length
}

/// The sample position of the next frame.
pub open spec fn cursor(p: StereoParamsView) -> usize {
    if wraps(p) {
        p.loop_start_time
    } else {
        p.time
    }
}

/// Number of samples a frame consumes.
pub open spec fn stride(p: StereoParamsView) -> int {
    if p.is_stereo {
        2
    } else {
        1
    }
}

/// Whether the buffer holds no whole frame at the cursor.
pub open spec fn exhausted(p: StereoParamsView) -> bool {
    cursor(p) + stride(p) > p.num_file_samples
}

/// The step that the session calls for.
pub open spec fn step_of(p: StereoParamsView) -> FrameStep {
    if exhausted(p) {
        FrameStep::Stop
    } else if p.is_stereo {
        FrameStep::Stereo {
            left: if p.left.ui_params.left_mute {
                None
            } else {
                Some(cursor(p))
            },
            right: if p.right.ui_params.right_mute {
                None
            } else {
                Some((cursor(p) + 1) as usize)
            },
            denoise: !p.clean,
        }
    } else {
        FrameStep::Mono { index: cursor(p), denoise: !p.clean }
    }
}

/// The session after the step: the cursor stands behind the frame, or at
/// the frame's position if filling stopped. A wrap clears the transforms
/// that are in use.
pub open spec fn session_after_step(p: StereoParamsView) -> StereoParamsView {
    StereoParamsView {
        left: if wraps(p) {
            cleared(p.left)
        } else {
            p.left
        },
        right: if wraps(p) && p.is_stereo {
            cleared(p.right)
        } else {
            p.right
        },
        time: if exhausted(p) {
            cursor(p)
        } else {
            (cursor(p) + stride(p)) as usize
        },
        ..p
    }
}

/// Decides one output frame and moves the cursor past it.
pub fn next_frame(params: &mut StereoParams) -> (step: FrameStep)
    requires
        old(params).wf(),
    ensures
        step == step_of(old(params)@),
        final(params)@ == session_after_step(old(params)@),
        final(params).wf(),
{
    if params.is_looping && params.loop_length < params.time && params.loop_start_time
        < params.time - params.loop_length {
        params.time = params.loop_start_time;
        params.left.sdft.reset();
        if params.is_stereo {
            params.right.sdft.reset();
        }
    }
    let n = params.num_file_samples;
    let t = params.time;
    if params.is_stereo {
        if t >= n || n - t < 2 {
            return FrameStep::Stop;
        }
        let left = if params.left.ui_params.left_mute {
            None
        } else {
            Some(t)
        };
        let right = if params.right.ui_params.right_mute {
            None
        } else {
            Some(t + 1)
        };
        params.time = t + 2;
        FrameStep::Stereo { left, right, denoise: !params.clean }
    } else {
        if t >= n {
            return FrameStep::Stop;
        }
        params.time = t + 1;
        FrameStep::Mono { index: t, denoise: !params.clean }
    }
}

/// Every sample position that a step names lies inside the buffer.
pub proof fn lemma_step_stays_in_buffer(p: StereoParamsView)
    ensures
        match step_of(p) {
            FrameStep::Stop => true,
            FrameStep::Mono { index, .. } => index < p.num_file_samples,
            FrameStep::Stereo { left, right, .. } => {
                &&& left matches Some(i) ==> i < p.num_file_samples
                &&& right matches Some(i) ==> i < p.num_file_samples
            },
        },
{
}

/// Muting moves no cursor: two sessions that differ only in their mute
/// flags stand at the same position after a step, and one stops exactly
/// when the other does.
pub proof fn lemma_mute_leaves_cursor(p: StereoParamsView, q: StereoParamsView)
    requires
        p.time == q.time,
        p.num_file_samples == q.num_file_samples,
        p.is_stereo == q.is_stereo,
        p.is_looping == q.is_looping,
        p.loop_start_time == q.loop_start_time,
        p.loop_length == q.loop_length,
    ensures
        session_after_step(p).time == session_after_step(q).time,
        (step_of(p) is Stop) == (step_of(q) is Stop),
{
}

/// In a stereo session that delivers a frame the cursor moves on by two,
/// in a mono session by one, and a session that stops keeps its position.
pub proof fn lemma_cursor_advance(p: StereoParamsView)
    ensures
        step_of(p) is Stop ==> session_after_step(p).time == cursor(p),
        step_of(p) is Mono ==> session_after_step(p).time == cursor(p) + 1,
        step_of(p) is Stereo ==> session_after_step(p).time == cursor(p) + 2,
{
}

/// Number of frames between two progress reports of an export.
pub const PROGRESS_PERIOD: usize = 4410;

/// Whether an export reports its progress before frame `frame`.
pub fn is_progress_tick(frame: usize) -> (b: bool)
    ensures
        b == (frame % PROGRESS_PERIOD == 0),
{
    frame % PROGRESS_PERIOD == 0
}

/// Number of whole frames from the position `time` to the end of the
/// buffer.
pub open spec fn frames_from(p: StereoParamsView, time: int) -> int {
    if time + stride(p) > p.num_file_samples {
        0
    } else {
        (p.num_file_samples - time) / stride(p)
    }
}

/// Number of frames that a session delivers before it stops, if it does
/// not loop: the whole frames between the cursor and the end of the buffer.
pub fn frames_left(params: &StereoParams) -> (n: usize)
    ensures
        n == frames_from(params@, params@.time as int),
{
    let total = params.num_file_samples;
    let t = params.time;
    if params.is_stereo {
        if t >= total || total - t < 2 {
            0
        } else {
            (total - t) / 2
        }
    } else {
        if t >= total {
            0
        } else {
            total - t
        }
    }
}

/// The session after `k` steps.
pub open spec fn session_after_steps(p: StereoParamsView, k: nat) -> StereoParamsView
    decreases k,
{
    if k == 0 {
        p
    } else {
        session_after_step(session_after_steps(p, (k - 1) as nat))
    }
}

/// A session that does not loop delivers its frames in order and without a
/// gap: step `k` reads at `k` strides behind the starting position, for
/// every `k` below the number of frames left, and the step after the last
/// frame is a stop.
pub proof fn lemma_plays_through(p: StereoParamsView, k: nat)
    requires
        !p.is_looping,
        k <= frames_from(p, p.time as int),
    ensures
        session_after_steps(p, k).time == p.time + k * stride(p),
        !session_after_steps(p, k).is_looping,
        session_after_steps(p, k).num_file_samples == p.num_file_samples,
        session_after_steps(p, k).is_stereo == p.is_stereo,
        cursor(session_after_steps(p, k)) == p.time + k * stride(p),
        step_of(session_after_steps(p, k)) is Stop <==> k == frames_from(p, p.time as int),
    decreases k,
{
    let total = frames_from(p, p.time as int);
    if k == 0 {
        assert(total == 0 <==> p.time + stride(p) > p.num_file_samples);
    } else {
        lemma_plays_through(p, (k - 1) as nat);
        let q = session_after_steps(p, (k - 1) as nat);
        assert(!(step_of(q) is Stop));
        assert(session_after_step(q).time == q.time + stride(p));
        assert((k - 1) * stride(p) + stride(p) == k * stride(p)) by (nonlinear_arith);
        let r = session_after_step(q);
        assert(r.time == p.time + k * stride(p));
        if p.is_stereo {
            assert(total == (p.num_file_samples - p.time) / 2);
            assert(step_of(r) is Stop <==> k == total);
        } else {
            assert(total == p.num_file_samples - p.time);
            assert(step_of(r) is Stop <==> k == total);
        }
    }
}

} // verus!
