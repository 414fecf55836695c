//! Messages between the control side and the audio callback, and what a
//! control message does to the session when the callback receives it.
//!
//! A message carries only the fields that change; whatever is absent leaves
//! the session as it was.
use vstd::prelude::*;
use crate::constants::NUM_FILTERS;
use crate::sdft::SDFTView;
use crate::types::{AudioParams, AudioParamsView, BPF, IIR2, StereoChoice, StereoParams, StereoParamsView, UIParams};

verus! {

/// Changes for one channel.
#[derive(Clone, Copy, Debug, PartialEq, Eq)]
pub struct ChannelMessage {
    pub time: Option<u32>,
    pub loop_length: Option<u32>,
    pub clean: Option<bool>,
    pub left_mute: Option<bool>,
    pub right_mute: Option<bool>,
    pub output_gain: Option<u32>,
    pub noise_gain: Option<u32>,
    pub pre_smooth_gain: Option<u32>,
    pub post_smooth_gain: Option<u32>,
    pub filters: Option<[Option<BPF>; NUM_FILTERS]>,
}

impl ChannelMessage {
    /// Whether the message changes nothing.
    pub open spec fn is_empty(self) -> bool {
        &&& self.time is None
        &&& self.loop_length is None
        &&& self.clean is None
        &&& self.left_mute is None
        &&& self.right_mute is None
        &&& self.output_gain is None
        &&& self.noise_gain is None
        &&& self.pre_smooth_gain is None
        &&& self.post_smooth_gain is None
        &&& self.filters is None
    }

    /// Whether the message carries a description for filter slot `i`.
    pub open spec fn sets_slot(self, i: int) -> bool {
        &&& 0 <= i < NUM_FILTERS
        &&& self.filters matches Some(f)
        &&& f@[i] is Some
    }

    /// Whether the message carries a description for any filter slot.
    pub open spec fn sets_any_slot(self) -> bool {
        exists|i: int| self.sets_slot(i)
    }
}

impl Default for ChannelMessage {
    fn default() -> (r: ChannelMessage)
        ensures
            r.is_empty(),
    {
        ChannelMessage {
            time: None,
            loop_length: None,
            clean: None,
            left_mute: None,
            right_mute: None,
            output_gain: None,
            noise_gain: None,
            pre_smooth_gain: None,
            post_smooth_gain: None,
            filters: None,
        }
    }
}

/// `v` where the message is silent, the carried value otherwise.
pub open spec fn or_keep<T>(m: Option<T>, v: T) -> T {
    match m {
        Some(x) => x,
        None => v,
    }
}

/// Filter `f` with the coefficients of `c`; its history stays.
pub open spec fn recoefficient(f: IIR2, c: IIR2) -> IIR2 {
    IIR2 { x: f.x, y: f.y, ..c }
}

/// The bank `bank` after the slots below `upto` that `m` sets have taken
/// their coefficients from `coeffs`.
pub open spec fn bank_after(bank: Seq<IIR2>, m: ChannelMessage, coeffs: Seq<IIR2>, upto: int) -> Seq<IIR2> {
    Seq::new(
        bank.len(),
        |i: int|
            if i < upto && m.sets_slot(i) {
                recoefficient(bank[i], coeffs[i])
            } else {
                bank[i]
            },
    )
}

/// The channel after `m` was applied to `p`. `coeffs[i]` holds the
/// coefficients that belong to the description in slot `i` of `m`.
///
/// The bank takes new coefficients in the slots that `m` sets, the six
/// controls take the values that `m` carries, and nothing else changes: not
/// the noise template, not the transform, not the cursor.
pub open spec fn channel_after(p: AudioParamsView, m: ChannelMessage, coeffs: Seq<IIR2>) -> AudioParamsView {
    AudioParamsView {
        ui_params: UIParams {
            left_mute: or_keep(m.left_mute, p.ui_params.left_mute),
            right_mute: or_keep(m.right_mute, p.ui_params.right_mute),
            output_gain: or_keep(m.output_gain, p.ui_params.output_gain),
            noise_gain: or_keep(m.noise_gain, p.ui_params.noise_gain),
            pre_smooth_gain: or_keep(m.pre_smooth_gain, p.ui_params.pre_smooth_gain),
            post_smooth_gain: or_keep(m.post_smooth_gain, p.ui_params.post_smooth_gain),
            ..p.ui_params
        },
        filters: bank_after(p.filters, m, coeffs, NUM_FILTERS as int),
        ..p
    }
}

/// The channel with its transform cleared.
pub open spec fn cleared(p: AudioParamsView) -> AudioParamsView {
    AudioParamsView { sdft: SDFTView::fresh(p.sdft.size), ..p }
}

/// A message from the control side to the audio callback.
#[derive(Clone, Debug, PartialEq, Eq)]
pub struct UIAudioMessage {
    pub left_channel: Option<ChannelMessage>,
    pub right_channel: Option<ChannelMessage>,
    pub file_path: Option<String>,
    pub stereo_choice: Option<StereoChoice>,
    pub clean: Option<bool>,
    pub export: Option<bool>,
    /// Sample index to seek to.
    pub time: Option<usize>,
    pub loop_start_time: Option<usize>,
    pub loop_length: Option<usize>,
    pub is_looping: Option<bool>,
    pub fingerprint: Option<bool>,
    pub start_fingerprint: Option<usize>,
    pub length_fingerprint: Option<usize>,
}

/// What the caller has to bring up to date after a message was received:
/// the noise template of each channel whose bank changed.
#[derive(Clone, Copy, Debug, PartialEq, Eq, Structural)]
pub struct Refresh {
    pub left_template: bool,
    pub right_template: bool,
}

impl UIAudioMessage {
    /// Whether the message changes nothing.
    pub open spec fn is_empty(&self) -> bool {
        &&& self.left_channel is None
        &&& self.right_channel is None
        &&& self.file_path is None
        &&& self.stereo_choice is None
        &&& self.clean is None
        &&& self.export is None
        &&& self.time is None
        &&& self.loop_start_time is None
        &&& self.loop_length is None
        &&& self.is_looping is None
        &&& self.fingerprint is None
        &&& self.start_fingerprint is None
        &&& self.length_fingerprint is None
    }

    /// Whether the part for the left channel is applied under `choice`.
    pub open spec fn reaches_left(&self, choice: StereoChoice) -> bool {
        self.left_channel is Some && choice != StereoChoice::Right
    }

    /// Whether the part for the right channel is applied under `choice`.
    pub open spec fn reaches_right(&self, choice: StereoChoice) -> bool {
        self.right_channel is Some && choice != StereoChoice::Left
    }

    /// Whether the message moves the playback cursor.
    pub open spec fn jumps(&self) -> bool {
        self.time is Some || self.loop_start_time is Some
    }

    /// The global bypass flag after the message: the flag carried for the
    /// right channel, else the one for the left, else the old one; each
    /// counts only where its channel is reached.
    pub open spec fn clean_after(&self, p: StereoParamsView) -> bool {
        if self.reaches_right(p.stereo_choice) && self.right_channel->0.clean is Some {
            self.right_channel->0.clean->0
        } else if self.reaches_left(p.stereo_choice) && self.left_channel->0.clean is Some {
            self.left_channel->0.clean->0
        } else {
            p.clean
        }
    }

    /// The session after the channel parts of the message were applied:
    /// each part goes to its channel where the session's routing choice
    /// reaches it.
    pub open spec fn sides_after(
        &self,
        p: StereoParamsView,
        left_coeffs: Seq<IIR2>,
        right_coeffs: Seq<IIR2>,
    ) -> StereoParamsView {
        StereoParamsView {
            left: if self.reaches_left(p.stereo_choice) {
                Self::side_after(p.left, self.left_channel, left_coeffs)
            } else {
                p.left
            },
            right: if self.reaches_right(p.stereo_choice) {
                Self::side_after(p.right, self.right_channel, right_coeffs)
            } else {
                p.right
            },
            clean: self.clean_after(p),
            ..p
        }
    }

    /// The session after the cursor part of the message was applied. A seek
    /// moves the cursor; a loop start moves it too and wins over a seek in
    /// the same message. Either one clears the left transform, and the right
    /// one in a stereo session.
    pub open spec fn cursor_after(&self, p: StereoParamsView) -> StereoParamsView {
        StereoParamsView {
            left: if self.jumps() {
                cleared(p.left)
            } else {
                p.left
            },
            right: if self.jumps() && p.is_stereo {
                cleared(p.right)
            } else {
                p.right
            },
            time: or_keep(self.loop_start_time, or_keep(self.time, p.time)),
            loop_start_time: or_keep(self.loop_start_time, p.loop_start_time),
            loop_length: or_keep(self.loop_length, p.loop_length),
            is_looping: or_keep(self.is_looping, p.is_looping),
            ..p
        }
    }

    /// The session after the message was received: first the channel parts,
    /// then the cursor part. Routing choice, file path, sample count and
    /// stereo flag never change.
    pub open spec fn session_after(
        &self,
        p: StereoParamsView,
        left_coeffs: Seq<IIR2>,
        right_coeffs: Seq<IIR2>,
    ) -> StereoParamsView {
        self.cursor_after(self.sides_after(p, left_coeffs, right_coeffs))
    }

    /// Applies the part of a message that is meant for one channel.
    /// `coeffs[i]` are the coefficients computed from the description in
    /// slot `i`, read only where the message sets that slot. Returns whether
    /// the bank changed, so that the noise template is out of date.
    pub fn recv_channel(
        &self,
        channel_params: &mut AudioParams,
        channel_message: ChannelMessage,
        coeffs: &[IIR2; NUM_FILTERS],
    ) -> (stale: bool)
        ensures
            final(channel_params)@ == channel_after(old(channel_params)@, channel_message, coeffs@),
            stale == channel_message.sets_any_slot(),
    {
        let mut stale = false;
        let ghost before = channel_params@;
        assert(before.filters =~= bank_after(before.filters, channel_message, coeffs@, 0));
        if let Some(msg) = channel_message.filters {
            let mut i: usize = 0;
            while i < NUM_FILTERS
                invariant
                    i <= NUM_FILTERS,
                    channel_message.filters == Some(msg),
                    before.filters.len() == NUM_FILTERS,
                    stale == (exists|j: int| 0 <= j < i && channel_message.sets_slot(j)),
                    channel_params@ == (AudioParamsView {
                        filters: bank_after(before.filters, channel_message, coeffs@, i as int),
                        ..before
                    }),
                decreases NUM_FILTERS - i,
            {
                if msg[i].is_some() {
                    let mut f = channel_params.filters.bank[i];
                    f.update_coeffs(coeffs[i]);
                    channel_params.filters.bank[i] = f;
                    stale = true;
                    assert(channel_message.sets_slot(i as int));
                }
                i += 1;
                assert(channel_params@.filters =~= bank_after(
                    before.filters,
                    channel_message,
                    coeffs@,
                    i as int,
                ));
            }
        } else {
            assert(before.filters =~= bank_after(
                before.filters,
                channel_message,
                coeffs@,
                NUM_FILTERS as int,
            ));
        }
        if let Some(m) = channel_message.left_mute {
            channel_params.ui_params.left_mute = m;
        }
        if let Some(m) = channel_message.right_mute {
            channel_params.ui_params.right_mute = m;
        }
        if let Some(g) = channel_message.output_gain {
            channel_params.ui_params.output_gain = g;
        }
        if let Some(g) = channel_message.noise_gain {
            channel_params.ui_params.noise_gain = g;
        }
        if let Some(g) = channel_message.pre_smooth_gain {
            channel_params.ui_params.pre_smooth_gain = g;
        }
        if let Some(g) = channel_message.post_smooth_gain {
            channel_params.ui_params.post_smooth_gain = g;
        }
        stale
    }

    /// One channel after its part of a message, if there is one, was
    /// applied: the changes of [`channel_after`], and a cleared transform
    /// where the part carries a bypass flag.
    pub open spec fn side_after(p: AudioParamsView, part: Option<ChannelMessage>, coeffs: Seq<IIR2>) -> AudioParamsView {
        match part {
            None => p,
            Some(m) => if m.clean is Some {
                cleared(channel_after(p, m, coeffs))
            } else {
                channel_after(p, m, coeffs)
            },
        }
    }

    /// Applies one channel's part, if any. Returns whether the bank changed
    /// and the bypass flag that the part carries.
    fn recv_side(
        &self,
        side: &mut AudioParams,
        part: Option<ChannelMessage>,
        coeffs: &[IIR2; NUM_FILTERS],
    ) -> (r: (bool, Option<bool>))
        requires
            old(side).wf(),
        ensures
            final(side)@ == Self::side_after(old(side)@, part, coeffs@),
            final(side).wf(),
            r.0 == (part matches Some(m) && m.sets_any_slot()),
            r.1 == (match part {
                Some(m) => m.clean,
                None => None,
            }),
    {
        match part {
            None => (false, None),
            Some(ch) => {
                let stale = self.recv_channel(side, ch, coeffs);
                if ch.clean.is_some() {
                    side.sdft.reset();
                }
                (stale, ch.clean)
            },
        }
    }

    /// Applies both channel parts as far as the routing choice reaches.
    fn recv_sides(
        &self,
        params: &mut StereoParams,
        left_coeffs: &[IIR2; NUM_FILTERS],
        right_coeffs: &[IIR2; NUM_FILTERS],
    ) -> (refresh: Refresh)
        requires
            old(params).wf(),
        ensures
            final(params)@ == self.sides_after(old(params)@, left_coeffs@, right_coeffs@),
            final(params).wf(),
            refresh == self.refresh_after(old(params)@.stereo_choice),
    {
        let to_left = match params.stereo_choice {
            StereoChoice::Right => false,
            _ => true,
        };
        let to_right = match params.stereo_choice {
            StereoChoice::Left => false,
            _ => true,
        };
        let mut refresh = Refresh { left_template: false, right_template: false };
        if to_left {
            let (stale, clean) = self.recv_side(&mut params.left, self.left_channel, left_coeffs);
            refresh.left_template = stale;
            if let Some(c) = clean {
                params.clean = c;
            }
        }
        if to_right {
            let (stale, clean) = self.recv_side(&mut params.right, self.right_channel, right_coeffs);
            refresh.right_template = stale;
            if let Some(c) = clean {
                params.clean = c;
            }
        }
        refresh
    }

    /// Applies seek, loop region and loop flag.
    fn recv_cursor(&self, params: &mut StereoParams)
        requires
            old(params).wf(),
        ensures
            final(params)@ == self.cursor_after(old(params)@),
            final(params).wf(),
    {
        if self.time.is_some() || self.loop_start_time.is_some() {
            params.left.sdft.reset();
            if params.is_stereo {
                params.right.sdft.reset();
            }
        }
        if let Some(t) = self.time {
            params.time = t;
        }
        if let Some(t) = self.loop_start_time {
            params.loop_start_time = t;
            params.time = t;
        }
        if let Some(t) = self.loop_length {
            params.loop_length = t;
        }
        if let Some(t) = self.is_looping {
            params.is_looping = t;
        }
    }

    /// The templates that are out of date after the message was received by
    /// a session routed by `choice`.
    pub open spec fn refresh_after(&self, choice: StereoChoice) -> Refresh {
        Refresh {
            left_template: self.reaches_left(choice) && self.left_channel->0.sets_any_slot(),
            right_template: self.reaches_right(choice) && self.right_channel->0.sets_any_slot(),
        }
    }

    /// Applies the message to the session, as the audio callback does with
    /// the one message it takes per invocation. `left_coeffs` and
    /// `right_coeffs` hold the coefficients for the filter descriptions that
    /// the two channel parts carry. Returns which noise templates the caller
    /// has to compute anew.
    pub fn receive(
        &self,
        params: &mut StereoParams,
        left_coeffs: &[IIR2; NUM_FILTERS],
        right_coeffs: &[IIR2; NUM_FILTERS],
    ) -> (refresh: Refresh)
        requires
            old(params).wf(),
        ensures
            final(params)@ == self.session_after(old(params)@, left_coeffs@, right_coeffs@),
            final(params).wf(),
            refresh == self.refresh_after(old(params)@.stereo_choice),
    {
        let refresh = self.recv_sides(params, left_coeffs, right_coeffs);
        self.recv_cursor(params);
        refresh
    }
}

impl Default for UIAudioMessage {
    fn default() -> (r: UIAudioMessage)
        ensures
            r.is_empty(),
    {
        UIAudioMessage {
            left_channel: None,
            right_channel: None,
            file_path: None,
            stereo_choice: None,
            clean: None,
            export: None,
            time: None,
            loop_start_time: None,
            loop_length: None,
            is_looping: None,
            fingerprint: None,
            start_fingerprint: None,
            length_fingerprint: None,
        }
    }
}

/// The message that carries `channel_message` to the channels that
/// `stereo_choice` names, and nothing else.
pub open spec fn routed(stereo_choice: StereoChoice, channel_message: Option<ChannelMessage>) -> UIAudioMessage {
    UIAudioMessage {
        left_channel: if stereo_choice != StereoChoice::Right {
            channel_message
        } else {
            None
        },
        right_channel: if stereo_choice != StereoChoice::Left {
            channel_message
        } else {
            None
        },
        file_path: None,
        stereo_choice: None,
        clean: None,
        export: None,
        time: None,
        loop_start_time: None,
        loop_length: None,
        is_looping: None,
        fingerprint: None,
        start_fingerprint: None,
        length_fingerprint: None,
    }
}

/// Addresses a channel part to the left channel, the right channel or both.
pub fn stereo_message(stereo_choice: StereoChoice, channel_message: Option<ChannelMessage>) -> (r: UIAudioMessage)
    ensures
        r == routed(stereo_choice, channel_message),
{
    let mut r = UIAudioMessage::default();
    match stereo_choice {
        StereoChoice::Left => {
            r.left_channel = channel_message;
        },
        StereoChoice::Right => {
            r.right_channel = channel_message;
        },
        StereoChoice::Both => {
            r.left_channel = channel_message;
            r.right_channel = channel_message;
        },
    }
    r
}

/// The channel part that carries nothing.
pub open spec fn empty_part() -> ChannelMessage {
    ChannelMessage {
        time: None,
        loop_length: None,
        clean: None,
        left_mute: None,
        right_mute: None,
        output_gain: None,
        noise_gain: None,
        pre_smooth_gain: None,
        post_smooth_gain: None,
        filters: None,
    }
}

/// The whole state of the front end in one message: bypass flag, both mute
/// flags, the four gains (linear) and the filter descriptions.
pub fn message_all(
    stereo_choice: StereoChoice,
    clean: bool,
    left_mute: bool,
    right_mute: bool,
    output_gain: u32,
    noise_gain: u32,
    pre_smooth_gain: u32,
    post_smooth_gain: u32,
    filters: [Option<BPF>; NUM_FILTERS],
) -> (r: UIAudioMessage)
    ensures
        r == routed(
            stereo_choice,
            Some(
                ChannelMessage {
                    time: None,
                    loop_length: None,
                    clean: Some(clean),
                    left_mute: Some(left_mute),
                    right_mute: Some(right_mute),
                    output_gain: Some(output_gain),
                    noise_gain: Some(noise_gain),
                    pre_smooth_gain: Some(pre_smooth_gain),
                    post_smooth_gain: Some(post_smooth_gain),
                    filters: Some(filters),
                },
            ),
        ),
{
    stereo_message(
        stereo_choice,
        Some(
            ChannelMessage {
                time: None,
                loop_length: None,
                clean: Some(clean),
                left_mute: Some(left_mute),
                right_mute: Some(right_mute),
                output_gain: Some(output_gain),
                noise_gain: Some(noise_gain),
                pre_smooth_gain: Some(pre_smooth_gain),
                post_smooth_gain: Some(post_smooth_gain),
                filters: Some(filters),
            },
        ),
    )
}

/// Whether `msg` carries, to the channels that `choice` names, the
/// description `bpf` for filter slot `index` and nothing else.
pub open spec fn carries_slot(msg: UIAudioMessage, choice: StereoChoice, index: int, bpf: BPF) -> bool {
    let part = if choice != StereoChoice::Right {
        msg.left_channel
    } else {
        msg.right_channel
    };
    &&& msg == routed(choice, part)
    &&& part matches Some(m)
    &&& m == (ChannelMessage { filters: m.filters, ..empty_part() })
    &&& m.filters matches Some(f)
    &&& f@ == Seq::new(NUM_FILTERS as nat, |i: int| None::<BPF>).update(index, Some(bpf))
}

/// The description `bpf` for filter slot `index`. There is no message for a
/// slot that the bank does not have.
pub fn message_filters(stereo_choice: StereoChoice, index: usize, bpf: BPF) -> (r: Option<UIAudioMessage>)
    ensures
        index >= NUM_FILTERS ==> r is None,
        index < NUM_FILTERS ==> (r matches Some(msg) && carries_slot(msg, stereo_choice, index as int, bpf)),
{
    if index >= NUM_FILTERS {
        return None;
    }
    let mut filters: [Option<BPF>; NUM_FILTERS] = [None, None, None, None, None];
    filters[index] = Some(bpf);
    assert(filters@ =~= Seq::new(NUM_FILTERS as nat, |i: int| None::<BPF>).update(
        index as int,
        Some(bpf),
    ));
    let mut part = ChannelMessage::default();
    part.filters = Some(filters);
    Some(stereo_message(stereo_choice, Some(part)))
}

/// A seek to sample `time`; looping ends.
pub fn message_time(time: usize) -> (r: UIAudioMessage)
    ensures
        r == (UIAudioMessage { time: Some(time), is_looping: Some(false), ..routed(StereoChoice::Both, None) }),
{
    let mut r = UIAudioMessage::default();
    r.time = Some(time);
    r.is_looping = Some(false);
    r
}

/// A loop region of `loop_length` samples from `loop_time`; looping begins.
pub fn message_loop_time(loop_time: usize, loop_length: usize) -> (r: UIAudioMessage)
    ensures
        r == (UIAudioMessage {
            loop_start_time: Some(loop_time),
            loop_length: Some(loop_length),
            is_looping: Some(true),
            ..routed(StereoChoice::Both, None)
        }),
{
    let mut r = UIAudioMessage::default();
    r.loop_start_time = Some(loop_time);
    r.loop_length = Some(loop_length);
    r.is_looping = Some(true);
    r
}

pub fn message_clean(clean: bool, stereo_choice: StereoChoice) -> (r: UIAudioMessage)
    ensures
        r == routed(stereo_choice, Some(ChannelMessage { clean: Some(clean), ..empty_part() })),
{
    let mut part = ChannelMessage::default();
    part.clean = Some(clean);
    stereo_message(stereo_choice, Some(part))
}

pub fn message_left_mute(mute: bool, stereo_choice: StereoChoice) -> (r: UIAudioMessage)
    ensures
        r == routed(stereo_choice, Some(ChannelMessage { left_mute: Some(mute), ..empty_part() })),
{
    let mut part = ChannelMessage::default();
    part.left_mute = Some(mute);
    stereo_message(stereo_choice, Some(part))
}

pub fn message_right_mute(mute: bool, stereo_choice: StereoChoice) -> (r: UIAudioMessage)
    ensures
        r == routed(stereo_choice, Some(ChannelMessage { right_mute: Some(mute), ..empty_part() })),
{
    let mut part = ChannelMessage::default();
    part.right_mute = Some(mute);
    stereo_message(stereo_choice, Some(part))
}

/// `gain` is the linear output gain.
pub fn message_output_gain(gain: u32, stereo_choice: StereoChoice) -> (r: UIAudioMessage)
    ensures
        r == routed(stereo_choice, Some(ChannelMessage { output_gain: Some(gain), ..empty_part() })),
{
    let mut part = ChannelMessage::default();
    part.output_gain = Some(gain);
    stereo_message(stereo_choice, Some(part))
}

/// `gain` is the linear noise gain.
pub fn message_noise_gain(gain: u32, stereo_choice: StereoChoice) -> (r: UIAudioMessage)
    ensures
        r == routed(stereo_choice, Some(ChannelMessage { noise_gain: Some(gain), ..empty_part() })),
{
    let mut part = ChannelMessage::default();
    part.noise_gain = Some(gain);
    stereo_message(stereo_choice, Some(part))
}

pub fn message_pre_smooth_gain(gain: u32, stereo_choice: StereoChoice) -> (r: UIAudioMessage)
    ensures
        r == routed(stereo_choice, Some(ChannelMessage { pre_smooth_gain: Some(gain), ..empty_part() })),
{
    let mut part = ChannelMessage::default();
    part.pre_smooth_gain = Some(gain);
    stereo_message(stereo_choice, Some(part))
}

pub fn message_post_smooth_gain(gain: u32, stereo_choice: StereoChoice) -> (r: UIAudioMessage)
    ensures
        r == routed(stereo_choice, Some(ChannelMessage { post_smooth_gain: Some(gain), ..empty_part() })),
{
    let mut part = ChannelMessage::default();
    part.post_smooth_gain = Some(gain);
    stereo_message(stereo_choice, Some(part))
}

/// A status report from the audio callback to the control side.
#[derive(Clone, Debug, PartialEq, Eq)]
pub struct AudioUIMessage {
    pub spectrum: Option<Vec<u32>>,
    pub is_stereo: Option<bool>,
    pub is_processing: Option<bool>,
    pub processing_percentage: Option<u32>,
    pub time: Option<u32>,
}

impl AudioUIMessage {
    /// Name of the event under which status reports are emitted.
    pub fn name() -> (r: &'static str)
        ensures
            r@ == "audioui_message"@,
    {
        "audioui_message"
    }

    /// The report sent after a callback: the lower half of the magnitude
    /// spectrum, bins `0 .. len / 2`, and the cursor as a sample position.
    pub fn snapshot(magnitudes: &Vec<u32>, time: u32) -> (r: AudioUIMessage)
        ensures
            r.spectrum matches Some(v) && v@ == magnitudes@.subrange(0, magnitudes@.len() as int / 2),
            r.is_stereo is None,
            r.is_processing is None,
            r.processing_percentage is None,
            r.time == Some(time),
    {
        let half = magnitudes.len() / 2;
        let mut v: Vec<u32> = Vec::new();
        let mut i: usize = 0;
        while i < half
            invariant
                i <= half,
                half == magnitudes@.len() / 2,
                v@ == magnitudes@.subrange(0, i as int),
            decreases half - i,
        {
            v.push(magnitudes[i]);
            i += 1;
            assert(v@ =~= magnitudes@.subrange(0, i as int));
        }
        AudioUIMessage {
            spectrum: Some(v),
            is_stereo: None,
            is_processing: None,
            processing_percentage: None,
            time: Some(time),
        }
    }
}

impl Default for AudioUIMessage {
    fn default() -> (r: AudioUIMessage)
        ensures
            r.spectrum is None,
            r.is_stereo is None,
            r.is_processing is None,
            r.processing_percentage is None,
            r.time is None,
    {
        AudioUIMessage {
            spectrum: None,
            is_stereo: None,
            is_processing: None,
            processing_percentage: None,
            time: None,
        }
    }
}

/// A measured spectrum together with the filter descriptions fitted to it.
#[derive(Clone, Debug, PartialEq, Eq)]
pub struct FingerprintMessage {
    pub spectrum: Option<Vec<u32>>,
    pub filters: [Option<BPF>; NUM_FILTERS],
}

impl FingerprintMessage {
    /// Name of the event under which fingerprints are emitted.
    pub fn name() -> (r: &'static str)
        ensures
            r@ == "fingerprint_message"@,
    {
        "fingerprint_message"
    }
}

impl Default for FingerprintMessage {
    fn default() -> (r: FingerprintMessage)
        ensures
            r.spectrum is None,
            forall|i: int| 0 <= i < NUM_FILTERS ==> (#[trigger] r.filters@[i]) is None,
    {
        FingerprintMessage { spectrum: None, filters: [None, None, None, None, None] }
    }
}

/// Whether `m` carries an output gain and nothing else.
pub open spec fn only_output_gain(m: ChannelMessage) -> bool {
    &&& m.output_gain is Some
    &&& m.time is None
    &&& m.loop_length is None
    &&& m.clean is None
    &&& m.left_mute is None
    &&& m.right_mute is None
    &&& m.noise_gain is None
    &&& m.pre_smooth_gain is None
    &&& m.post_smooth_gain is None
    &&& m.filters is None
}

/// A channel part that carries only an output gain sets the output gain and
/// leaves every other field of the channel as it was: the other controls,
/// the bank, the noise template, the transform and the cursor.
pub proof fn lemma_output_gain_changes_nothing_else(p: AudioParamsView, m: ChannelMessage, coeffs: Seq<IIR2>)
    requires
        only_output_gain(m),
    ensures
        channel_after(p, m, coeffs) == (AudioParamsView {
            ui_params: UIParams { output_gain: m.output_gain->0, ..p.ui_params },
            ..p
        }),
        !m.sets_any_slot(),
{
    assert(bank_after(p.filters, m, coeffs, NUM_FILTERS as int) =~= p.filters);
}

/// A channel part that carries nothing leaves the channel as it was.
pub proof fn lemma_empty_part_changes_nothing(p: AudioParamsView, m: ChannelMessage, coeffs: Seq<IIR2>)
    requires
        m.is_empty(),
    ensures
        channel_after(p, m, coeffs) == p,
        !m.sets_any_slot(),
{
    assert(bank_after(p.filters, m, coeffs, NUM_FILTERS as int) =~= p.filters);
}

/// A message whose only content is an output gain for the left channel
/// changes, in a session whose routing reaches the left channel, that gain
/// and nothing else; no template goes out of date. Where the routing does
/// not reach the left channel, the session stays as it was.
pub proof fn lemma_left_output_gain_message(
    msg: UIAudioMessage,
    p: StereoParamsView,
    left_coeffs: Seq<IIR2>,
    right_coeffs: Seq<IIR2>,
)
    requires
        msg.left_channel matches Some(m) && only_output_gain(m),
        msg.right_channel is None,
        msg.time is None,
        msg.loop_start_time is None,
        msg.loop_length is None,
        msg.is_looping is None,
    ensures
        p.stereo_choice != StereoChoice::Right ==> msg.session_after(p, left_coeffs, right_coeffs) == (
        StereoParamsView {
            left: AudioParamsView {
                ui_params: UIParams {
                    output_gain: msg.left_channel->0.output_gain->0,
                    ..p.left.ui_params
                },
                ..p.left
            },
            ..p
        }),
        p.stereo_choice == StereoChoice::Right ==> msg.session_after(p, left_coeffs, right_coeffs) == p,
        msg.refresh_after(p.stereo_choice) == (Refresh { left_template: false, right_template: false }),
{
    lemma_output_gain_changes_nothing_else(p.left, msg.left_channel->0, left_coeffs);
}

/// A message that carries nothing leaves the session as it was.
pub proof fn lemma_empty_message_changes_nothing(
    msg: UIAudioMessage,
    p: StereoParamsView,
    left_coeffs: Seq<IIR2>,
    right_coeffs: Seq<IIR2>,
)
    requires
        msg.is_empty(),
    ensures
        msg.session_after(p, left_coeffs, right_coeffs) == p,
        msg.refresh_after(p.stereo_choice) == (Refresh { left_template: false, right_template: false }),
{
}

} // verus!
