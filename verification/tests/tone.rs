use piano::tone::{generate_tone, Tone, ToneError, ATTACK_SAMPLES, RELEASE_SAMPLES, SAMPLE_RATE};

/// Evaluate the audible buffer a planned tone stands for: the raw sine at
/// the tone's frequency, scaled by the exact envelope rational and by the
/// fixed headroom gain of 0.3.
fn render(tone: &Tone) -> Vec<f32> {
    let freq = tone.freq_centihz as f32 / 100.0;
    let sample_rate = SAMPLE_RATE as f32;
    tone.envelope
        .iter()
        .enumerate()
        .map(|(i, &(num, den))| {
            let t = i as f32 / sample_rate;
            let raw = (t * freq * 2.0 * std::f32::consts::PI).sin();
            raw * (num as f32 / den as f32) * 0.3
        })
        .collect()
}

#[test]
fn sample_count_exact() {
    let tone = generate_tone(44000, 500).unwrap();
    assert_eq!(tone.envelope.len(), 24000);
    let tone = generate_tone(26163, 100).unwrap();
    assert_eq!(tone.envelope.len(), 4800);
    let tone = generate_tone(78399, 1).unwrap();
    assert_eq!(tone.envelope.len(), 48);
    let tone = generate_tone(44000, 1000).unwrap();
    assert_eq!(tone.envelope.len(), 48000);
}

#[test]
fn determinism_byte_identical() {
    let a = generate_tone(26163, 500).unwrap();
    let b = generate_tone(26163, 500).unwrap();
    assert_eq!(a.freq_centihz, b.freq_centihz);
    assert_eq!(a.envelope, b.envelope);
    let ra = render(&a);
    let rb = render(&b);
    assert_eq!(ra.len(), rb.len());
    for i in 0..ra.len() {
        assert_eq!(ra[i].to_bits(), rb[i].to_bits());
    }
}

#[test]
fn bounded_amplitude() {
    let tone = generate_tone(26163, 500).unwrap();
    for s in render(&tone) {
        assert!(s.abs() <= 0.3 + 1e-4);
    }
    let tone = generate_tone(78399, 60).unwrap();
    for s in render(&tone) {
        assert!(s.abs() <= 0.3 + 1e-4);
    }
}

#[test]
fn envelope_boundary() {
    // Index 0 is fully silenced by the attack ramp.
    let tone = generate_tone(26163, 500).unwrap();
    assert_eq!(tone.envelope[0], (0, ATTACK_SAMPLES));
    let samples = render(&tone);
    assert_eq!(samples[0], 0.0);
    // The midpoint of a tone at least 200 ms long carries full sustain gain.
    let mid = samples.len() / 2;
    assert_eq!(tone.envelope[mid], (1, 1));
    let freq = tone.freq_centihz as f32 / 100.0;
    let t = mid as f32 / SAMPLE_RATE as f32;
    let raw = (t * freq * 2.0 * std::f32::consts::PI).sin();
    assert!((samples[mid] - raw * 0.3).abs() < 1e-6);
}

#[test]
fn short_tone_envelope_overlap() {
    // 60 ms: shorter than attack plus release; the attack ramp wins where
    // the windows overlap, exactly as written.
    let tone = generate_tone(78399, 60).unwrap();
    assert_eq!(tone.envelope.len(), 2880);
    // Every index is inside the attack window, so the release ramp never
    // shows, and the envelope dips to 0 only at the very start.
    for (i, &(num, den)) in tone.envelope.iter().enumerate() {
        assert_eq!((num, den), (i as u64, ATTACK_SAMPLES));
    }
}

#[test]
fn invalid_frequency_rejected() {
    assert!(matches!(generate_tone(0, 500), Err(ToneError::InvalidFrequency)));
}

#[test]
fn invalid_duration_rejected() {
    assert!(matches!(generate_tone(26163, 0), Err(ToneError::InvalidDuration)));
}

#[test]
fn end_to_end_c4_500ms() {
    // C4 at 261.63 Hz for 500 ms: a 24000-sample mono buffer at 48000 Hz.
    let tone = generate_tone(26163, 500).unwrap();
    assert_eq!(tone.envelope.len(), 24000);
    let samples = render(&tone);
    assert_eq!(samples.len(), 24000);
    let freq = 261.63f32;

    // The first 4800 samples ramp up from 0.
    for i in 0..ATTACK_SAMPLES as usize {
        assert_eq!(tone.envelope[i], (i as u64, ATTACK_SAMPLES));
    }
    assert_eq!(samples[0], 0.0);

    // Middle samples oscillate at 261.63 Hz scaled by 0.3.
    for i in [6000usize, 12000, 18000] {
        assert_eq!(tone.envelope[i], (1, 1));
        let t = i as f32 / SAMPLE_RATE as f32;
        let raw = (t * freq * 2.0 * std::f32::consts::PI).sin();
        assert!((samples[i] - raw * 0.3).abs() < 1e-6);
    }

    // The last 2400 samples ramp down to 0.
    for i in 21601..24000usize {
        assert_eq!(tone.envelope[i], ((24000 - i) as u64, RELEASE_SAMPLES));
    }
    assert_eq!(tone.envelope[23999], (1, RELEASE_SAMPLES));
    assert!(samples[23999].abs() <= 0.3 / RELEASE_SAMPLES as f32 + 1e-6);
}
