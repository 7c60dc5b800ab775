//! Tests of the stream adapter: channel mapping, format conversion, and
//! buffer filling.

use make_noise::adapter::{
    convert_i16, convert_u16, fill_buffer, render, to_i16, to_u16, ConfigError, RenderedBuffer,
    SampleFormat, StreamConfig,
};
use make_noise::engine::NoiseEngine;

#[test]
fn four_channel_frames_repeat_the_stereo_pair() {
    let mut engine = NoiseEngine::new(44100);
    let buf = render(&mut engine, 4, 12);
    assert_eq!(buf.len(), 12);
    for frame in buf.chunks(4) {
        assert_eq!(frame[0], frame[2]);
        assert_eq!(frame[1], frame[3]);
    }
}

#[test]
fn interleaving_matches_the_engine_pairs() {
    let mut engine = NoiseEngine::new(44100);
    let mut twin = NoiseEngine::new(44100);
    let buf = render(&mut engine, 2, 10);
    for frame in buf.chunks(2) {
        let (l, r) = twin.next();
        assert_eq!(frame[0], l);
        assert_eq!(frame[1], r);
    }
}

#[test]
fn mono_takes_the_left_channel() {
    let mut engine = NoiseEngine::new(44100);
    let mut twin = NoiseEngine::new(44100);
    let buf = render(&mut engine, 1, 6);
    for s in buf {
        let (l, _) = twin.next();
        assert_eq!(s, l);
    }
}

#[test]
fn partial_trailing_frame_still_consumes_a_step() {
    // 5 samples at 2 channels: frames 0 and 1 complete, frame 2 partial;
    // rendering consumes 3 engine steps in total.
    let mut engine = NoiseEngine::new(44100);
    let mut twin = NoiseEngine::new(44100);
    let buf = render(&mut engine, 2, 5);
    let p0 = twin.next();
    let p1 = twin.next();
    let p2 = twin.next();
    assert_eq!(buf, vec![p0.0, p0.1, p1.0, p1.1, p2.0]);
    // Both engines now continue identically.
    let cont = render(&mut engine, 2, 2);
    let p3 = twin.next();
    assert_eq!(cont, vec![p3.0, p3.1]);
}

#[test]
fn int16_boundary_values_are_exact() {
    assert_eq!(to_i16(65536), i16::MAX);
    assert_eq!(to_i16(-65536), i16::MIN);
    assert_eq!(to_i16(0), 0);
    assert_eq!(to_i16(32768), 16383);
    assert_eq!(to_i16(-1), 0);
}

#[test]
fn uint16_boundary_values_are_exact() {
    assert_eq!(to_u16(65536), u16::MAX);
    assert_eq!(to_u16(-65536), 0);
    assert_eq!(to_u16(0), 32768);
}

#[test]
fn buffer_conversions_are_pointwise() {
    let buf: Vec<i64> = vec![-65536, -32768, 0, 32768, 65536];
    let ints = convert_i16(&buf);
    let uints = convert_u16(&buf);
    assert_eq!(ints.len(), buf.len());
    assert_eq!(uints.len(), buf.len());
    for j in 0..buf.len() {
        assert_eq!(ints[j], to_i16(buf[j]));
        assert_eq!(uints[j], to_u16(buf[j]));
    }
}

#[test]
fn float_fill_is_the_identity_on_fixed_samples() {
    let config = StreamConfig::new(44100, 2, SampleFormat::Float32).unwrap();
    let mut engine = NoiseEngine::new(44100);
    let mut twin = NoiseEngine::new(44100);
    let expected = render(&mut twin, 2, 8);
    match fill_buffer(&mut engine, &config, 8) {
        RenderedBuffer::Float(v) => assert_eq!(v, expected),
        _ => panic!("float stream must get a float buffer"),
    }
}

#[test]
fn int16_fill_converts_each_sample() {
    let config = StreamConfig::new(44100, 2, SampleFormat::Int16).unwrap();
    let mut engine = NoiseEngine::new(44100);
    let mut twin = NoiseEngine::new(44100);
    let fixed = render(&mut twin, 2, 8);
    match fill_buffer(&mut engine, &config, 8) {
        RenderedBuffer::Int16(v) => {
            assert_eq!(v.len(), 8);
            for j in 0..8 {
                assert_eq!(v[j], to_i16(fixed[j]));
            }
        },
        _ => panic!("int16 stream must get an int16 buffer"),
    }
}

#[test]
fn uint16_fill_converts_each_sample() {
    let config = StreamConfig::new(8000, 2, SampleFormat::Uint16).unwrap();
    let mut engine = NoiseEngine::new(8000);
    let mut twin = NoiseEngine::new(8000);
    let fixed = render(&mut twin, 2, 6);
    match fill_buffer(&mut engine, &config, 6) {
        RenderedBuffer::Uint16(v) => {
            assert_eq!(v.len(), 6);
            for j in 0..6 {
                assert_eq!(v[j], to_u16(fixed[j]));
            }
        },
        _ => panic!("uint16 stream must get a uint16 buffer"),
    }
}

#[test]
fn zero_sample_rate_is_rejected() {
    assert_eq!(
        StreamConfig::new(0, 2, SampleFormat::Float32),
        Err(ConfigError::ZeroSampleRate)
    );
}

#[test]
fn zero_channels_are_rejected() {
    assert_eq!(
        StreamConfig::new(44100, 0, SampleFormat::Float32),
        Err(ConfigError::ZeroChannels)
    );
}

#[test]
fn valid_config_is_accepted_as_reported() {
    let c = StreamConfig::new(48000, 6, SampleFormat::Uint16).unwrap();
    assert_eq!(c.sample_rate, 48000);
    assert_eq!(c.channels, 6);
    assert_eq!(c.format, SampleFormat::Uint16);
}
