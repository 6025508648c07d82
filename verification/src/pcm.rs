//! LINEAR16 audio: signed 16-bit samples as little-endian bytes.
use vstd::prelude::*;

verus! {

/// The two's complement of a sample, as a number below 65536.
pub open spec fn unsigned(sample: i16) -> int {
    if sample >= 0 {
        sample as int
    } else {
        sample + 65536
    }
}

/// The less significant byte of a sample.
pub open spec fn low_byte(sample: i16) -> u8 {
    (unsigned(sample) % 256) as u8
}

/// The more significant byte of a sample.
pub open spec fn high_byte(sample: i16) -> u8 {
    (unsigned(sample) / 256) as u8
}

/// The sample with these two bytes.
pub open spec fn sample_of(low: u8, high: u8) -> i16 {
    if high < 128 {
        (high * 256 + low) as i16
    } else {
        (high * 256 + low - 65536) as i16
    }
}

/// The bytes of a run of samples, the less significant byte of each first.
pub open spec fn pcm_bytes(samples: Seq<i16>) -> Seq<u8> {
    Seq::new(
        samples.len() * 2,
        |i: int|
            if i % 2 == 0 {
                low_byte(samples[i / 2])
            } else {
                high_byte(samples[i / 2])
            },
    )
}

/// The samples in a run of bytes. A last byte without a partner belongs to no sample.
pub open spec fn pcm_samples(bytes: Seq<u8>) -> Seq<i16> {
    Seq::new(bytes.len() / 2, |i: int| sample_of(bytes[2 * i], bytes[2 * i + 1]))
}

/// The little-endian bytes of `samples`.
pub fn pcm16_to_le(samples: &[i16]) -> (bytes: Vec<u8>)
    ensures
        bytes@ == pcm_bytes(samples@),
{
    let mut bytes: Vec<u8> = Vec::new();
    let mut i: usize = 0;
    while i < samples.len()
        invariant
            i <= samples@.len(),
            bytes@ == pcm_bytes(samples@.take(i as int)),
        decreases samples@.len() - i,
    {
        let sample: i16 = samples[i];
        let word: u16 = if sample >= 0 {
            sample as u16
        } else {
            (sample as i32 + 65536) as u16
        };
        bytes.push((word % 256) as u8);
        bytes.push((word / 256) as u8);
        i = i + 1;
        assert(bytes@ == pcm_bytes(samples@.take(i as int)));
    }
    assert(samples@.take(i as int) == samples@);
    bytes
}

/// The samples in little-endian `bytes`.
pub fn pcm16_from_le(bytes: &[u8]) -> (samples: Vec<i16>)
    ensures
        samples@ == pcm_samples(bytes@),
{
    let count: usize = bytes.len() / 2;
    let mut samples: Vec<i16> = Vec::new();
    let mut i: usize = 0;
    while i < count
        invariant
            i <= count == bytes@.len() / 2,
            bytes@.len() <= usize::MAX,
            samples@ == pcm_samples(bytes@).take(i as int),
        decreases count - i,
    {
        let word: i32 = bytes[2 * i + 1] as i32 * 256 + bytes[2 * i] as i32;
        let sample: i16 = if word < 32768 {
            word as i16
        } else {
            (word - 65536) as i16
        };
        samples.push(sample);
        i = i + 1;
    }
    samples
}

/// Reading the bytes of a run of samples gives the samples back.
pub proof fn law_samples_survive_bytes(samples: Seq<i16>)
    ensures
        pcm_samples(pcm_bytes(samples)) == samples,
{
    let bytes = pcm_bytes(samples);
    assert forall|i: int| 0 <= i < samples.len() implies #[trigger] pcm_samples(bytes)[i]
        == samples[i] by {
        assert(bytes[2 * i] == low_byte(samples[i]));
        assert(bytes[2 * i + 1] == high_byte(samples[i]));
    }
}

/// Writing the samples in a run of bytes gives the bytes back, but for a last byte without a
/// partner.
pub proof fn law_bytes_survive_samples(bytes: Seq<u8>)
    ensures
        pcm_bytes(pcm_samples(bytes)) == bytes.take((bytes.len() / 2 * 2) as int),
{
    let samples = pcm_samples(bytes);
    assert forall|i: int| 0 <= i < bytes.len() / 2 * 2 implies #[trigger] pcm_bytes(samples)[i]
        == bytes[i] by {
        let k = i / 2;
        assert(samples[k] == sample_of(bytes[2 * k], bytes[2 * k + 1]));
        assert(low_byte(samples[k]) == bytes[2 * k]);
        assert(high_byte(samples[k]) == bytes[2 * k + 1]);
    }
}

/// Each sample goes out as two bytes, the less significant first, which together are its two's
/// complement; no sample is left out, and nothing comes between.
pub proof fn law_samples_are_written_little_endian(samples: &[i16], bytes: Vec<u8>)
    requires
        call_ensures(pcm16_to_le, (samples,), bytes),
    ensures
        bytes@.len() == 2 * samples@.len(),
        forall|i: int|
            0 <= i < samples@.len() ==> bytes@[2 * i] + 256 * bytes@[2 * i + 1] == if (
            #[trigger] samples@[i]) >= 0 {
                samples@[i] as int
            } else {
                samples@[i] + 65536
            },
{
    assert forall|i: int| 0 <= i < samples@.len() implies bytes@[2 * i] + 256 * bytes@[2 * i + 1]
        == if (#[trigger] samples@[i]) >= 0 {
        samples@[i] as int
    } else {
        samples@[i] + 65536
    } by {
        assert(bytes@[2 * i] == low_byte(samples@[i]));
        assert(bytes@[2 * i + 1] == high_byte(samples@[i]));
    }
}

/// Every two bytes are read as one sample, the less significant byte first; only a last byte without
/// a partner is left out.
pub proof fn law_samples_are_read_little_endian(bytes: &[u8], samples: Vec<i16>)
    requires
        call_ensures(pcm16_from_le, (bytes,), samples),
    ensures
        2 * samples@.len() <= bytes@.len() <= 2 * samples@.len() + 1,
        forall|i: int|
            0 <= i < samples@.len() ==> bytes@[2 * i] + 256 * bytes@[2 * i + 1] == if (
            #[trigger] samples@[i]) >= 0 {
                samples@[i] as int
            } else {
                samples@[i] + 65536
            },
{
}

} // verus!
