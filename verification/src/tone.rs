use vstd::prelude::*;

verus! {

/// Samples per second of every tone this library plans: mono, fixed rate.
pub const SAMPLE_RATE: u64 = 48000;

/// Length of the attack ramp, in samples (about 100 ms).
pub const ATTACK_SAMPLES: u64 = SAMPLE_RATE / 10;

/// Length of the release ramp, in samples (about 50 ms).
pub const RELEASE_SAMPLES: u64 = SAMPLE_RATE / 20;

/// Number of samples in a tone of the given duration, at `SAMPLE_RATE`.
pub open spec fn sample_count_spec(duration_ms: u64) -> int {
    SAMPLE_RATE * duration_ms / 1000
}

/// The sample count is exact: at 48 samples per millisecond the division
/// loses nothing, so truncating and rounding agree.
pub proof fn lemma_sample_count_exact(duration_ms: u64)
    ensures
        sample_count_spec(duration_ms) == 48 * duration_ms,
{
    assert(SAMPLE_RATE * duration_ms == (48 * duration_ms) * 1000);
    assert((48 * duration_ms) * 1000 / 1000 == 48 * duration_ms) by (nonlinear_arith);
}

/// The envelope at sample `i` of a tone of `total` samples, as an exact
/// rational `num / den`:
/// - attack: the first `ATTACK_SAMPLES` samples ramp linearly from 0 to 1;
/// - release: the last `RELEASE_SAMPLES` samples ramp linearly from 1 to 0;
/// - sustain: every sample strictly between the two windows gets 1.
///
/// When the windows overlap (a tone shorter than attack plus release), the
/// attack branch wins, exactly as the ramps are written here: the overlap is
/// not smoothed away.
pub open spec fn envelope_spec(i: int, total: int) -> (u64, u64) {
    if i < ATTACK_SAMPLES {
        (i as u64, ATTACK_SAMPLES)
    } else if total - i < RELEASE_SAMPLES {
        ((total - i) as u64, RELEASE_SAMPLES)
    } else {
        (1u64, 1u64)
    }
}

/// Why a tone request was rejected.
#[derive(Clone, Copy, Debug, PartialEq, Eq, Structural)]
pub enum ToneError {
    /// The requested frequency was not positive.
    InvalidFrequency,
    /// The requested duration was not positive.
    InvalidDuration,
}

/// A planned tone: every exact, integer-valued fact about the buffer to be
/// played. Sample `i` of the audible buffer is the raw sine
/// `sin(2 * pi * frequency * i / SAMPLE_RATE)`, scaled by the envelope
/// rational `envelope[i]` and by the fixed headroom gain of 0.3; that last
/// floating-point evaluation belongs to the caller.
pub struct Tone {
    /// Frequency of the sine, in hundredths of a hertz.
    pub freq_centihz: u32,
    /// The exact envelope rational `(num, den)` for each sample index.
    pub envelope: Vec<(u64, u64)>,
}

/// What a successfully generated tone looks like: the frequency is kept, and
/// the envelope holds exactly one rational per sample, each given by
/// `envelope_spec`.
pub open spec fn tone_ok(tone: Tone, freq_centihz: u32, duration_ms: u64) -> bool {
    &&& tone.freq_centihz == freq_centihz
    &&& tone.envelope@.len() == sample_count_spec(duration_ms)
    &&& forall|i: int|
        0 <= i < tone.envelope@.len() ==> #[trigger] tone.envelope@[i] == envelope_spec(
            i,
            sample_count_spec(duration_ms),
        )
}

/// The envelope rational at sample `i` of a tone of `total` samples.
pub fn envelope_at(i: u64, total: u64) -> (r: (u64, u64))
    requires
        i < total,
    ensures
        r == envelope_spec(i as int, total as int),
{
    if i < ATTACK_SAMPLES {
        (i, ATTACK_SAMPLES)
    } else if total - i < RELEASE_SAMPLES {
        (total - i, RELEASE_SAMPLES)
    } else {
        (1, 1)
    }
}

/// Plan one envelope-shaped sine tone of `duration_ms` milliseconds at
/// `freq_centihz` hundredths of a hertz. A non-positive frequency or
/// duration is rejected with a validation error; nothing else can fail.
pub fn generate_tone(freq_centihz: u32, duration_ms: u64) -> (r: Result<Tone, ToneError>)
    requires
        SAMPLE_RATE * duration_ms <= u64::MAX,
        sample_count_spec(duration_ms) <= usize::MAX,
    ensures
        freq_centihz == 0 ==> r == Err::<Tone, ToneError>(ToneError::InvalidFrequency),
        freq_centihz > 0 && duration_ms == 0 ==> r == Err::<Tone, ToneError>(
            ToneError::InvalidDuration,
        ),
        freq_centihz > 0 && duration_ms > 0 ==> (r matches Ok(tone) && tone_ok(
            tone,
            freq_centihz,
            duration_ms,
        )),
{
    if freq_centihz == 0 {
        return Err(ToneError::InvalidFrequency);
    }
    if duration_ms == 0 {
        return Err(ToneError::InvalidDuration);
    }
    let total: u64 = SAMPLE_RATE * duration_ms / 1000;
    let n: usize = total as usize;
    let mut envelope: Vec<(u64, u64)> = Vec::new();
    let mut i: usize = 0;
    while i < n
        invariant
            total == sample_count_spec(duration_ms),
            n == total,
            i <= n,
            envelope@.len() == i,
            forall|j: int| 0 <= j < i ==> #[trigger] envelope@[j] == envelope_spec(j, n as int),
        decreases n - i,
    {
        let e = envelope_at(i as u64, total);
        envelope.push(e);
        i = i + 1;
    }
    Ok(Tone { freq_centihz, envelope })
}

/// Determinism: the contract of `generate_tone` pins every field of a
/// successful result, so two tones generated from equal arguments are equal.
pub proof fn lemma_tone_deterministic(a: Tone, b: Tone, freq_centihz: u32, duration_ms: u64)
    requires
        tone_ok(a, freq_centihz, duration_ms),
        tone_ok(b, freq_centihz, duration_ms),
    ensures
        a.freq_centihz == b.freq_centihz,
        a.envelope@ == b.envelope@,
{
    assert(a.envelope@ =~= b.envelope@);
}

/// The envelope never amplifies: at every index it is a rational in
/// [0, 1] with a positive denominator, so no sample's magnitude can exceed
/// the headroom gain times the raw sine's magnitude.
pub proof fn lemma_envelope_bounded(i: int, total: int)
    requires
        0 <= i < total,
    ensures
        0 < envelope_spec(i, total).1,
        envelope_spec(i, total).0 <= envelope_spec(i, total).1,
{
}

/// Envelope boundary: the very first sample of any tone is fully silenced,
/// and the midpoint of a tone of at least 200 ms sits in the sustain window,
/// where the envelope is exactly 1.
pub proof fn lemma_envelope_boundary(total: int)
    requires
        total >= 2 * ATTACK_SAMPLES,
    ensures
        envelope_spec(0, total).0 == 0,
        envelope_spec(total / 2, total) == (1u64, 1u64),
{
}

} // verus!
