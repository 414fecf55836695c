use denoiser::constants::{DFT_SIZE, NUM_FILTERS};
use denoiser::messages::{
    message_all, message_clean, message_filters, message_left_mute, message_loop_time,
    message_noise_gain, message_output_gain, message_post_smooth_gain, message_pre_smooth_gain,
    message_right_mute, message_time, stereo_message, AudioUIMessage, ChannelMessage,
    FingerprintMessage, Refresh, UIAudioMessage,
};
use denoiser::types::{
    AudioParams, Complex, Filters, StereoChoice, StereoParams, UIParams, BPF, IIR2,
};

fn bits(x: f32) -> u32 {
    x.to_bits()
}

fn session() -> StereoParams {
    StereoParams::new(&vec![bits(1.0); DFT_SIZE])
}

fn coeffs(seed: f32) -> [IIR2; NUM_FILTERS] {
    let mut bank = [IIR2::new(); NUM_FILTERS];
    for (i, f) in bank.iter_mut().enumerate() {
        let k = seed + i as f32;
        f.b0 = bits(k);
        f.b1 = bits(k + 0.1);
        f.b2 = bits(k + 0.2);
        f.a0 = bits(k + 0.3);
        f.a1 = bits(k + 0.4);
        f.a2 = bits(k + 0.5);
        f.x = [bits(99.0), bits(98.0)];
        f.y = [bits(97.0), bits(96.0)];
    }
    bank
}

fn busy_channel() -> AudioParams {
    let mut p = AudioParams::new(vec![bits(0.75); DFT_SIZE]);
    p.ui_params = UIParams {
        clean: true,
        left_mute: true,
        right_mute: false,
        stereo_choice: StereoChoice::Left,
        output_gain: bits(0.25),
        noise_gain: bits(3.0),
        pre_smooth_gain: bits(0.125),
        post_smooth_gain: bits(0.875),
        filters: p.ui_params.filters,
    };
    p.ui_params.filters.bank[2] = BPF { gain: bits(-6.0), freq: bits(440.0), Q: bits(2.0) };
    p.time = 17;
    p.output_spectrum = vec![bits(0.5), bits(0.25)];
    for (i, f) in p.filters.bank.iter_mut().enumerate() {
        f.b1 = bits(i as f32);
        f.x = [bits(1.0 + i as f32), bits(2.0)];
        f.y = [bits(3.0), bits(4.0 + i as f32)];
    }
    for k in 0..DFT_SIZE {
        p.sdft.freq_history[k] = Complex { re: bits(k as f32), im: bits(1.0) };
        p.sdft.new_freq[k] = Complex { re: bits(2.0), im: bits(k as f32) };
    }
    p.sdft.push_sample(Complex { re: bits(0.5), im: 0 });
    p
}

fn window_of(p: &AudioParams) -> Vec<Complex> {
    let mut probe = p.sdft.clone();
    let mut out = Vec::new();
    for _ in 0..probe.size {
        out.push(probe.push_sample(Complex { re: 0, im: 0 }));
    }
    out
}

fn assert_same_channel_but_ui(a: &AudioParams, b: &AudioParams) {
    assert_eq!(a.time, b.time);
    assert_eq!(a.dft_size, b.dft_size);
    assert_eq!(a.filters, b.filters);
    assert_eq!(a.output_spectrum, b.output_spectrum);
    assert_eq!(a.noise_spectrum, b.noise_spectrum);
    assert_eq!(a.sdft.size, b.sdft.size);
    assert_eq!(a.sdft.freq_history, b.sdft.freq_history);
    assert_eq!(a.sdft.new_freq, b.sdft.new_freq);
    assert_eq!(a.sdft.pre_smooth_noise_history, b.sdft.pre_smooth_noise_history);
    assert_eq!(a.sdft.post_smooth_noise_history, b.sdft.post_smooth_noise_history);
    assert_eq!(a.sdft.inv_time, b.sdft.inv_time);
    assert_eq!(a.sdft.time_output, b.sdft.time_output);
    assert_eq!(a.sdft.filter, b.sdft.filter);
    assert_eq!(window_of(a), window_of(b));
}

#[test]
fn output_gain_alone_changes_only_output_gain() {
    let before = busy_channel();
    let mut after = busy_channel();
    let part = ChannelMessage { output_gain: Some(bits(0.6)), ..ChannelMessage::default() };
    let stale = UIAudioMessage::default().recv_channel(&mut after, part, &coeffs(10.0));
    assert!(!stale);
    assert_eq!(after.ui_params, UIParams { output_gain: bits(0.6), ..before.ui_params });
    assert_same_channel_but_ui(&after, &before);
}

#[test]
fn each_scalar_field_changes_alone() {
    let before = busy_channel();
    let msg = UIAudioMessage::default();
    let d = ChannelMessage::default();
    let cases: Vec<(ChannelMessage, UIParams)> = vec![
        (
            ChannelMessage { left_mute: Some(false), ..d },
            UIParams { left_mute: false, ..before.ui_params },
        ),
        (
            ChannelMessage { right_mute: Some(true), ..d },
            UIParams { right_mute: true, ..before.ui_params },
        ),
        (
            ChannelMessage { noise_gain: Some(bits(1.5)), ..d },
            UIParams { noise_gain: bits(1.5), ..before.ui_params },
        ),
        (
            ChannelMessage { pre_smooth_gain: Some(bits(0.9)), ..d },
            UIParams { pre_smooth_gain: bits(0.9), ..before.ui_params },
        ),
        (
            ChannelMessage { post_smooth_gain: Some(bits(0.1)), ..d },
            UIParams { post_smooth_gain: bits(0.1), ..before.ui_params },
        ),
        (ChannelMessage { clean: Some(false), ..d }, before.ui_params),
        (ChannelMessage { time: Some(bits(5.0)), ..d }, before.ui_params),
        (ChannelMessage { loop_length: Some(bits(5.0)), ..d }, before.ui_params),
        (d, before.ui_params),
    ];
    for (part, expected) in cases {
        let mut after = busy_channel();
        let stale = msg.recv_channel(&mut after, part, &coeffs(10.0));
        assert!(!stale);
        assert_eq!(after.ui_params, expected);
        assert_same_channel_but_ui(&after, &before);
    }
}

#[test]
fn filter_slots_take_coefficients_and_keep_history() {
    let before = busy_channel();
    let mut after = busy_channel();
    let c = coeffs(20.0);
    let mut slots = [None; NUM_FILTERS];
    slots[1] = Some(BPF { gain: bits(3.0), freq: bits(200.0), Q: bits(0.7) });
    slots[4] = Some(BPF::new());
    let part = ChannelMessage { filters: Some(slots), ..ChannelMessage::default() };
    let stale = UIAudioMessage::default().recv_channel(&mut after, part, &c);
    assert!(stale);
    for i in 0..NUM_FILTERS {
        let f = after.filters.bank[i];
        let old = before.filters.bank[i];
        assert_eq!(f.x, old.x);
        assert_eq!(f.y, old.y);
        if i == 1 || i == 4 {
            assert_eq!(
                (f.b0, f.b1, f.b2, f.a0, f.a1, f.a2),
                (c[i].b0, c[i].b1, c[i].b2, c[i].a0, c[i].a1, c[i].a2)
            );
        } else {
            assert_eq!(f, old);
        }
    }
    assert_eq!(after.ui_params, before.ui_params);
    assert_eq!(after.noise_spectrum, before.noise_spectrum);
    assert_eq!(after.sdft.freq_history, before.sdft.freq_history);
}

#[test]
fn empty_filter_list_is_not_stale() {
    let before = busy_channel();
    let mut after = busy_channel();
    let part = ChannelMessage { filters: Some([None; NUM_FILTERS]), ..ChannelMessage::default() };
    assert!(!UIAudioMessage::default().recv_channel(&mut after, part, &coeffs(1.0)));
    assert_eq!(after.filters, before.filters);
}

#[test]
fn update_coeffs_keeps_history() {
    let mut f = IIR2::new();
    f.x = [bits(1.0), bits(2.0)];
    f.y = [bits(3.0), bits(4.0)];
    let c = coeffs(5.0)[0];
    f.update_coeffs(c);
    assert_eq!(f, IIR2 { x: [bits(1.0), bits(2.0)], y: [bits(3.0), bits(4.0)], ..c });
}

#[test]
fn routing_left_reaches_only_left() {
    let mut p = session();
    p.stereo_choice = StereoChoice::Left;
    let msg = message_output_gain(bits(0.5), StereoChoice::Both);
    let r = msg.receive(&mut p, &coeffs(1.0), &coeffs(2.0));
    assert_eq!(r, Refresh { left_template: false, right_template: false });
    assert_eq!(p.left.ui_params.output_gain, bits(0.5));
    assert_eq!(p.right.ui_params.output_gain, bits(1.0));
}

#[test]
fn routing_right_reaches_only_right() {
    let mut p = session();
    p.stereo_choice = StereoChoice::Right;
    let msg = message_noise_gain(bits(2.0), StereoChoice::Both);
    msg.receive(&mut p, &coeffs(1.0), &coeffs(2.0));
    assert_eq!(p.left.ui_params.noise_gain, bits(0.0));
    assert_eq!(p.right.ui_params.noise_gain, bits(2.0));
}

#[test]
fn routing_both_reaches_the_addressed_channels() {
    let mut p = session();
    message_pre_smooth_gain(bits(0.25), StereoChoice::Left).receive(
        &mut p,
        &coeffs(1.0),
        &coeffs(2.0),
    );
    message_post_smooth_gain(bits(0.75), StereoChoice::Right).receive(
        &mut p,
        &coeffs(1.0),
        &coeffs(2.0),
    );
    assert_eq!(p.left.ui_params.pre_smooth_gain, bits(0.25));
    assert_eq!(p.right.ui_params.pre_smooth_gain, bits(0.5));
    assert_eq!(p.left.ui_params.post_smooth_gain, bits(0.5));
    assert_eq!(p.right.ui_params.post_smooth_gain, bits(0.75));
    assert_eq!(p.stereo_choice, StereoChoice::Both);
}

#[test]
fn receive_reports_stale_templates_per_channel() {
    let mut p = session();
    let bpf = BPF { gain: bits(2.0), freq: bits(300.0), Q: bits(1.5) };
    let msg = message_filters(StereoChoice::Right, 3, bpf).unwrap();
    let lc = coeffs(1.0);
    let rc = coeffs(30.0);
    let r = msg.receive(&mut p, &lc, &rc);
    assert_eq!(r, Refresh { left_template: false, right_template: true });
    assert_eq!(p.left.filters, Filters::new());
    assert_eq!(p.right.filters.bank[3], IIR2 { x: [0, 0], y: [0, 0], ..rc[3] });
    assert_eq!(p.right.filters.bank[0], IIR2::new());
    let both = message_filters(StereoChoice::Both, 0, bpf).unwrap();
    let r = both.receive(&mut p, &lc, &rc);
    assert_eq!(r, Refresh { left_template: true, right_template: true });
    assert_eq!(p.left.filters.bank[0], IIR2 { x: [0, 0], y: [0, 0], ..lc[0] });
    assert_eq!(p.right.filters.bank[0], IIR2 { x: [0, 0], y: [0, 0], ..rc[0] });
}

fn prime(p: &mut AudioParams, v: f32) {
    p.sdft.push_sample(Complex { re: bits(v), im: 0 });
    p.sdft.freq_history[0] = Complex { re: bits(v), im: bits(v) };
    p.sdft.pre_smooth_noise_history[1] = Complex { re: bits(v), im: 0 };
    p.sdft.post_smooth_noise_history[2] = Complex { re: bits(v), im: 0 };
    p.sdft.new_freq[3] = Complex { re: bits(v), im: 0 };
}

fn is_clear(p: &AudioParams) -> bool {
    let z = vec![Complex { re: 0, im: 0 }; p.sdft.size];
    p.sdft.freq_history == z
        && p.sdft.pre_smooth_noise_history == z
        && p.sdft.post_smooth_noise_history == z
        && p.sdft.new_freq == z
        && window_of(p) == z
}

#[test]
fn seek_moves_cursor_and_clears_transforms() {
    let mut p = session();
    p.is_stereo = true;
    p.is_looping = true;
    prime(&mut p.left, 1.0);
    prime(&mut p.right, 2.0);
    message_time(1234).receive(&mut p, &coeffs(1.0), &coeffs(2.0));
    assert_eq!(p.time, 1234);
    assert!(!p.is_looping);
    assert!(is_clear(&p.left));
    assert!(is_clear(&p.right));
}

#[test]
fn seek_in_mono_leaves_right_transform() {
    let mut p = session();
    prime(&mut p.left, 1.0);
    prime(&mut p.right, 2.0);
    message_time(7).receive(&mut p, &coeffs(1.0), &coeffs(2.0));
    assert_eq!(p.time, 7);
    assert!(is_clear(&p.left));
    assert!(!is_clear(&p.right));
}

#[test]
fn loop_region_moves_cursor_to_its_start() {
    let mut p = session();
    p.time = 900;
    prime(&mut p.left, 1.0);
    message_loop_time(100, 50).receive(&mut p, &coeffs(1.0), &coeffs(2.0));
    assert_eq!(p.time, 100);
    assert_eq!(p.loop_start_time, 100);
    assert_eq!(p.loop_length, 50);
    assert!(p.is_looping);
    assert!(is_clear(&p.left));
}

#[test]
fn loop_start_wins_over_seek() {
    let mut p = session();
    let msg = UIAudioMessage {
        time: Some(5),
        loop_start_time: Some(9),
        ..UIAudioMessage::default()
    };
    msg.receive(&mut p, &coeffs(1.0), &coeffs(2.0));
    assert_eq!(p.time, 9);
    assert_eq!(p.loop_start_time, 9);
    assert!(!p.is_looping);
}

#[test]
fn clean_toggle_sets_bypass_and_clears_reached_transform() {
    let mut p = session();
    p.stereo_choice = StereoChoice::Left;
    prime(&mut p.left, 1.0);
    prime(&mut p.right, 2.0);
    message_clean(true, StereoChoice::Both).receive(&mut p, &coeffs(1.0), &coeffs(2.0));
    assert!(p.clean);
    assert!(is_clear(&p.left));
    assert!(!is_clear(&p.right));
    assert!(!p.left.ui_params.clean);
    message_clean(false, StereoChoice::Right).receive(&mut p, &coeffs(1.0), &coeffs(2.0));
    assert!(p.clean);
}

#[test]
fn right_bypass_flag_wins_when_both_parts_carry_one() {
    let mut p = session();
    let d = ChannelMessage::default();
    let msg = UIAudioMessage {
        left_channel: Some(ChannelMessage { clean: Some(true), ..d }),
        right_channel: Some(ChannelMessage { clean: Some(false), ..d }),
        ..UIAudioMessage::default()
    };
    p.clean = true;
    msg.receive(&mut p, &coeffs(1.0), &coeffs(2.0));
    assert!(!p.clean);
}

#[test]
fn ignored_fields_change_nothing() {
    let mut p = session();
    p.time = 3;
    let msg = UIAudioMessage {
        file_path: Some("other.wav".to_string()),
        stereo_choice: Some(StereoChoice::Left),
        clean: Some(true),
        export: Some(true),
        fingerprint: Some(true),
        start_fingerprint: Some(1),
        length_fingerprint: Some(2),
        ..UIAudioMessage::default()
    };
    let r = msg.receive(&mut p, &coeffs(1.0), &coeffs(2.0));
    assert_eq!(r, Refresh { left_template: false, right_template: false });
    assert_eq!(p.stereo_choice, StereoChoice::Both);
    assert!(!p.clean);
    assert_eq!(p.file_path, "");
    assert_eq!(p.time, 3);
    assert_eq!(p.num_file_samples, 0);
    assert!(!p.is_stereo);
}

#[test]
fn stereo_message_routes_by_choice() {
    let part = Some(ChannelMessage { left_mute: Some(true), ..ChannelMessage::default() });
    let l = stereo_message(StereoChoice::Left, part);
    assert_eq!(l, UIAudioMessage { left_channel: part, ..UIAudioMessage::default() });
    let r = stereo_message(StereoChoice::Right, part);
    assert_eq!(r, UIAudioMessage { right_channel: part, ..UIAudioMessage::default() });
    let b = stereo_message(StereoChoice::Both, part);
    assert_eq!(
        b,
        UIAudioMessage { left_channel: part, right_channel: part, ..UIAudioMessage::default() }
    );
    assert_eq!(stereo_message(StereoChoice::Both, None), UIAudioMessage::default());
}

#[test]
fn builders_carry_one_field() {
    let d = ChannelMessage::default();
    let both = |part: ChannelMessage| stereo_message(StereoChoice::Both, Some(part));
    assert_eq!(
        message_left_mute(true, StereoChoice::Both),
        both(ChannelMessage { left_mute: Some(true), ..d })
    );
    assert_eq!(
        message_right_mute(false, StereoChoice::Both),
        both(ChannelMessage { right_mute: Some(false), ..d })
    );
    assert_eq!(
        message_clean(true, StereoChoice::Both),
        both(ChannelMessage { clean: Some(true), ..d })
    );
    assert_eq!(
        message_output_gain(bits(2.0), StereoChoice::Both),
        both(ChannelMessage { output_gain: Some(bits(2.0)), ..d })
    );
    assert_eq!(
        message_noise_gain(bits(2.0), StereoChoice::Both),
        both(ChannelMessage { noise_gain: Some(bits(2.0)), ..d })
    );
    assert_eq!(
        message_pre_smooth_gain(bits(0.3), StereoChoice::Both),
        both(ChannelMessage { pre_smooth_gain: Some(bits(0.3)), ..d })
    );
    assert_eq!(
        message_post_smooth_gain(bits(0.3), StereoChoice::Both),
        both(ChannelMessage { post_smooth_gain: Some(bits(0.3)), ..d })
    );
    assert_eq!(
        message_time(77),
        UIAudioMessage { time: Some(77), is_looping: Some(false), ..UIAudioMessage::default() }
    );
    assert_eq!(
        message_loop_time(5, 6),
        UIAudioMessage {
            loop_start_time: Some(5),
            loop_length: Some(6),
            is_looping: Some(true),
            ..UIAudioMessage::default()
        }
    );
}

#[test]
fn message_filters_sets_one_slot_or_nothing() {
    let bpf = BPF { gain: bits(1.0), freq: bits(2.0), Q: bits(3.0) };
    assert_eq!(message_filters(StereoChoice::Both, NUM_FILTERS, bpf), None);
    assert_eq!(message_filters(StereoChoice::Both, usize::MAX, bpf), None);
    for i in 0..NUM_FILTERS {
        let mut slots = [None; NUM_FILTERS];
        slots[i] = Some(bpf);
        let part = ChannelMessage { filters: Some(slots), ..ChannelMessage::default() };
        assert_eq!(
            message_filters(StereoChoice::Left, i, bpf),
            Some(stereo_message(StereoChoice::Left, Some(part)))
        );
    }
}

#[test]
fn message_all_carries_everything() {
    let mut slots = [None; NUM_FILTERS];
    slots[2] = Some(BPF::new());
    let m = message_all(
        StereoChoice::Right,
        true,
        false,
        true,
        bits(1.0),
        bits(2.0),
        bits(0.3),
        bits(0.4),
        slots,
    );
    let part = ChannelMessage {
        time: None,
        loop_length: None,
        clean: Some(true),
        left_mute: Some(false),
        right_mute: Some(true),
        output_gain: Some(bits(1.0)),
        noise_gain: Some(bits(2.0)),
        pre_smooth_gain: Some(bits(0.3)),
        post_smooth_gain: Some(bits(0.4)),
        filters: Some(slots),
    };
    assert_eq!(m, stereo_message(StereoChoice::Right, Some(part)));
}

#[test]
fn status_snapshot_holds_lower_half() {
    let mags: Vec<u32> = (0..9).map(|i| bits(i as f32)).collect();
    let s = AudioUIMessage::snapshot(&mags, bits(42.0));
    assert_eq!(s.spectrum, Some(vec![bits(0.0), bits(1.0), bits(2.0), bits(3.0)]));
    assert_eq!(s.time, Some(bits(42.0)));
    assert_eq!(s.is_stereo, None);
    assert_eq!(s.is_processing, None);
    assert_eq!(s.processing_percentage, None);
    let e = AudioUIMessage::snapshot(&Vec::new(), 0);
    assert_eq!(e.spectrum, Some(Vec::new()));
    let one = AudioUIMessage::snapshot(&vec![bits(1.0)], 0);
    assert_eq!(one.spectrum, Some(Vec::new()));
}

#[test]
fn event_names() {
    assert_eq!(AudioUIMessage::name(), "audioui_message");
    assert_eq!(FingerprintMessage::name(), "fingerprint_message");
    assert_eq!(
        AudioUIMessage::default(),
        AudioUIMessage {
            spectrum: None,
            is_stereo: None,
            is_processing: None,
            processing_percentage: None,
            time: None
        }
    );
    let f = FingerprintMessage::default();
    assert_eq!(f.spectrum, None);
    assert_eq!(f.filters, [None; NUM_FILTERS]);
}
