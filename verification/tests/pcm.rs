use audio_engine::pcm::{pcm16_from_le, pcm16_to_le};

#[test]
fn samples_are_little_endian() {
    assert_eq!(
        pcm16_to_le(&[0, 1, -1, 256, i16::MAX, i16::MIN]),
        vec![0, 0, 1, 0, 255, 255, 0, 1, 255, 127, 0, 128]
    );
    assert_eq!(pcm16_from_le(&[0x34, 0x12, 0xff, 0xff, 0x00, 0x80]), vec![0x1234, -1, i16::MIN]);
    assert!(pcm16_to_le(&[]).is_empty());
}

#[test]
fn a_last_byte_without_a_partner_is_dropped() {
    assert_eq!(pcm16_from_le(&[1, 0, 9]), vec![1]);
    assert!(pcm16_from_le(&[9]).is_empty());
    assert!(pcm16_from_le(&[]).is_empty());
}

#[test]
fn every_sample_survives_its_bytes() {
    for sample in i16::MIN..=i16::MAX {
        let bytes = pcm16_to_le(&[sample]);
        assert_eq!(bytes, sample.to_le_bytes());
        assert_eq!(pcm16_from_le(&bytes), vec![sample]);
    }
}

#[test]
fn bytes_survive_their_samples() {
    let bytes = vec![0u8, 128, 7, 255, 254, 1];
    assert_eq!(pcm16_to_le(&pcm16_from_le(&bytes)), bytes);
}
