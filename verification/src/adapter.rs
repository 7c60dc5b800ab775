//! The stream adapter: fills an output buffer from the noise engine, one
//! engine step per frame, mapping the stereo pair onto the device's
//! channels by even/odd parity and converting each sample to the device's
//! native representation.

use vstd::prelude::*;
use crate::engine::{engine_after, engine_wf, pair_at, EngineModel, NoiseEngine};
use crate::pink::OUT_BOUND;

verus! {

/// The sample representations a device can ask for.
#[derive(Clone, Copy, PartialEq, Eq, Structural, Debug)]
pub enum SampleFormat {
    Float32,
    Int16,
    Uint16,
}

/// Why a device-reported configuration was rejected.
#[derive(Clone, Copy, PartialEq, Eq, Structural, Debug)]
pub enum ConfigError {
    ZeroSampleRate,
    ZeroChannels,
}

/// A negotiated stream configuration, immutable for the stream's lifetime.
#[derive(Clone, Copy, PartialEq, Eq, Structural, Debug)]
pub struct StreamConfig {
    pub sample_rate: u32,
    pub channels: u16,
    pub format: SampleFormat,
}

/// A usable configuration: positive sample rate, at least one channel.
pub open spec fn config_wf(c: StreamConfig) -> bool {
    &&& 1 <= c.sample_rate
    &&& 1 <= c.channels
}

impl StreamConfig {
    /// Validates a device-reported configuration; the stream needs a
    /// positive sample rate and at least one channel.
    pub fn new(sample_rate: u32, channels: u16, format: SampleFormat) -> (r: Result<
        StreamConfig,
        ConfigError,
    >)
        ensures
            sample_rate == 0 ==> r == Result::<StreamConfig, ConfigError>::Err(
                ConfigError::ZeroSampleRate,
            ),
            sample_rate != 0 && channels == 0 ==> r == Result::<StreamConfig, ConfigError>::Err(
                ConfigError::ZeroChannels,
            ),
            sample_rate != 0 && channels != 0 ==> r == Result::<StreamConfig, ConfigError>::Ok(
                (StreamConfig { sample_rate, channels, format }),
            ),
            r is Ok ==> config_wf(r->Ok_0),
    {
        if sample_rate == 0 {
            Err(ConfigError::ZeroSampleRate)
        } else if channels == 0 {
            Err(ConfigError::ZeroChannels)
        } else {
            Ok(StreamConfig { sample_rate, channels, format })
        }
    }
}

/// How many frames a buffer of `len` samples holds: full frames of
/// `channels` samples each, plus one for a trailing partial frame.
pub open spec fn frames_of(len: int, channels: int) -> int
    recommends
        1 <= channels,
{
    (len + channels - 1) / channels
}

/// The sample that belongs in slot `j` of an interleaved buffer filled
/// from engine state `e`: frame `j / channels` of the stream, left for
/// even channel indices and right for odd ones.
pub open spec fn interleaved_sample(e: EngineModel, channels: int, j: int) -> int
    recommends
        1 <= channels,
        0 <= j,
{
    let p = pair_at(e, (j / channels) as nat);
    if (j % channels) % 2 == 0 {
        p.0
    } else {
        p.1
    }
}

/// Channel-mapping parity: two slots of the same frame whose channel
/// indices share parity carry the same sample, so a four-channel frame
/// `[a, b, c, d]` has `a == c` and `b == d`.
pub proof fn lemma_channel_parity(e: EngineModel, channels: int, j1: int, j2: int)
    requires
        1 <= channels,
        0 <= j1,
        0 <= j2,
        j1 / channels == j2 / channels,
        (j1 % channels) % 2 == (j2 % channels) % 2,
    ensures
        interleaved_sample(e, channels, j1) == interleaved_sample(e, channels, j2),
{
}

/// Fills a buffer of `len` Q16 samples from the engine, one engine step
/// per frame of `channels` samples, even channels left and odd channels
/// right; a trailing partial frame still consumes one step.
pub fn render(engine: &mut NoiseEngine, channels: usize, len: usize) -> (out: Vec<i64>)
    requires
        engine_wf(old(engine)@),
        1 <= channels,
    ensures
        out@.len() == len,
        engine_wf(final(engine)@),
        final(engine)@ == engine_after(old(engine)@, frames_of(len as int, channels as int) as nat),
        forall|j: int|
            0 <= j < len ==> out@[j] == interleaved_sample(old(engine)@, channels as int, j),
        forall|j: int| 0 <= j < len ==> -OUT_BOUND <= #[trigger] out@[j] <= OUT_BOUND,
{
    let mut out: Vec<i64> = Vec::new();
    let mut i: usize = 0;
    let mut frames: usize = 0;
    while i < len
        invariant
            engine_wf(engine@),
            1 <= channels,
            i <= len,
            frames <= i,
            out@.len() == i,
            engine@ == engine_after(old(engine)@, frames as nat),
            i == frames * channels || (i == len && frames * channels - channels < len && len
                < frames * channels),
            forall|j: int|
                0 <= j < i ==> out@[j] == interleaved_sample(old(engine)@, channels as int, j),
            forall|j: int| 0 <= j < i ==> -OUT_BOUND <= #[trigger] out@[j] <= OUT_BOUND,
        decreases len - i,
    {
        let ghost fidx = frames as int;
        let ghost base = i as int;
        let (l, r) = engine.next();
        frames = frames + 1;
        proof {
            assert(engine_after(old(engine)@, (fidx + 1) as nat) == crate::engine::engine_next(
                engine_after(old(engine)@, fidx as nat),
            ));
            assert((fidx + 1) * channels as int == fidx * channels as int + channels as int)
                by (nonlinear_arith);
        }
        let mut c: usize = 0;
        while c < channels && i < len
            invariant
                1 <= channels,
                c <= channels,
                i <= len,
                i == base + c,
                base == fidx * channels as int,
                base + channels as int == frames * channels,
                frames == fidx + 1,
                fidx <= base,
                base < len,
                out@.len() == i,
                engine_wf(engine@),
                engine@ == engine_after(old(engine)@, frames as nat),
                l == pair_at(old(engine)@, fidx as nat).0,
                r == pair_at(old(engine)@, fidx as nat).1,
                -OUT_BOUND <= l <= OUT_BOUND,
                -OUT_BOUND <= r <= OUT_BOUND,
                forall|j: int|
                    0 <= j < i ==> out@[j] == interleaved_sample(old(engine)@, channels as int, j),
                forall|j: int| 0 <= j < i ==> -OUT_BOUND <= #[trigger] out@[j] <= OUT_BOUND,
            decreases channels - c,
        {
            let s = if c % 2 == 0 {
                l
            } else {
                r
            };
            proof {
                vstd::arithmetic::div_mod::lemma_fundamental_div_mod_converse(
                    i as int,
                    channels as int,
                    fidx,
                    c as int,
                );
            }
            out.push(s);
            i = i + 1;
            c = c + 1;
        }
    }
    proof {
        if i == frames * channels {
            vstd::arithmetic::div_mod::lemma_div_multiples_vanish_fancy(
                frames as int,
                channels as int - 1,
                channels as int,
            );
            assert(len + channels as int - 1 == channels as int * frames as int + (channels as int
                - 1));
        } else {
            let b = len + channels as int - 1 - channels as int * frames as int;
            vstd::arithmetic::div_mod::lemma_div_multiples_vanish_fancy(
                frames as int,
                b,
                channels as int,
            );
        }
        assert(frames == frames_of(len as int, channels as int));
    }
    out
}

/// The signed 16-bit representation of a Q16 sample in `[-UNIT, UNIT]`:
/// nonnegative amplitudes scale onto `[0, 32767]` and negative ones onto
/// `[-32768, 0]`, truncating toward zero, so full scale maps exactly to
/// the extreme 16-bit values.
pub open spec fn i16_of(s: int) -> int {
    if s >= 0 {
        s * 32767 / 65536
    } else {
        -((-s) * 32768 / 65536)
    }
}

/// The unsigned 16-bit representation: the signed one offset so that
/// silence sits at 32768.
pub open spec fn u16_of(s: int) -> int {
    i16_of(s) + 32768
}

/// Converts one Q16 sample to the signed 16-bit sample representation.
pub fn to_i16(s: i64) -> (r: i16)
    requires
        -65536 <= s <= 65536,
    ensures
        r == i16_of(s as int),
{
    if s >= 0 {
        (((s as u64) * 32767) / 65536) as i16
    } else {
        let m = (((-s) as u64) * 32768) / 65536;
        (-(m as i64)) as i16
    }
}

/// Converts one Q16 sample to the unsigned 16-bit sample representation.
pub fn to_u16(s: i64) -> (r: u16)
    requires
        -65536 <= s <= 65536,
    ensures
        r == u16_of(s as int),
{
    let v = to_i16(s);
    ((v as i32) + 32768) as u16
}

/// Converts a whole Q16 buffer to signed 16-bit samples.
pub fn convert_i16(buf: &Vec<i64>) -> (out: Vec<i16>)
    requires
        forall|j: int| 0 <= j < buf@.len() ==> -65536 <= #[trigger] buf@[j] <= 65536,
    ensures
        out@.len() == buf@.len(),
        forall|j: int| 0 <= j < buf@.len() ==> out@[j] == i16_of(buf@[j] as int),
{
    let mut out: Vec<i16> = Vec::new();
    let mut i: usize = 0;
    while i < buf.len()
        invariant
            i <= buf@.len(),
            out@.len() == i,
            forall|j: int| 0 <= j < buf@.len() ==> -65536 <= #[trigger] buf@[j] <= 65536,
            forall|j: int| 0 <= j < i ==> out@[j] == i16_of(buf@[j] as int),
        decreases buf@.len() - i,
    {
        out.push(to_i16(buf[i]));
        i = i + 1;
    }
    out
}

/// Converts a whole Q16 buffer to unsigned 16-bit samples.
pub fn convert_u16(buf: &Vec<i64>) -> (out: Vec<u16>)
    requires
        forall|j: int| 0 <= j < buf@.len() ==> -65536 <= #[trigger] buf@[j] <= 65536,
    ensures
        out@.len() == buf@.len(),
        forall|j: int| 0 <= j < buf@.len() ==> out@[j] == u16_of(buf@[j] as int),
{
    let mut out: Vec<u16> = Vec::new();
    let mut i: usize = 0;
    while i < buf.len()
        invariant
            i <= buf@.len(),
            out@.len() == i,
            forall|j: int| 0 <= j < buf@.len() ==> -65536 <= #[trigger] buf@[j] <= 65536,
            forall|j: int| 0 <= j < i ==> out@[j] == u16_of(buf@[j] as int),
        decreases buf@.len() - i,
    {
        out.push(to_u16(buf[i]));
        i = i + 1;
    }
    out
}

/// One filled buffer in the device's native representation. For a float
/// stream the samples stay in Q16: the caller maps each to the float
/// `s / UNIT`, an identity conversion in value.
pub enum RenderedBuffer {
    Float(Vec<i64>),
    Int16(Vec<i16>),
    Uint16(Vec<u16>),
}

/// The native value a Q16 sample converts to under a format.
pub open spec fn converted_sample(f: SampleFormat, s: int) -> int {
    match f {
        SampleFormat::Float32 => s,
        SampleFormat::Int16 => i16_of(s),
        SampleFormat::Uint16 => u16_of(s),
    }
}

/// The samples a rendered buffer holds, as integers.
pub open spec fn rendered_samples(out: RenderedBuffer) -> Seq<int> {
    match out {
        RenderedBuffer::Float(v) => v@.map_values(|s: i64| s as int),
        RenderedBuffer::Int16(v) => v@.map_values(|s: i16| s as int),
        RenderedBuffer::Uint16(v) => v@.map_values(|s: u16| s as int),
    }
}

/// Whether a rendered buffer is in the representation a format asks for.
pub open spec fn rendered_in_format(f: SampleFormat, out: RenderedBuffer) -> bool {
    match out {
        RenderedBuffer::Float(v) => f == SampleFormat::Float32,
        RenderedBuffer::Int16(v) => f == SampleFormat::Int16,
        RenderedBuffer::Uint16(v) => f == SampleFormat::Uint16,
    }
}

/// Fills one output buffer of `len` samples for the negotiated
/// configuration: one engine step per frame, even/odd channel mapping,
/// and the format's sample conversion, in one call.
pub fn fill_buffer(engine: &mut NoiseEngine, config: &StreamConfig, len: usize) -> (out:
    RenderedBuffer)
    requires
        engine_wf(old(engine)@),
        config_wf(*config),
    ensures
        engine_wf(final(engine)@),
        final(engine)@ == engine_after(
            old(engine)@,
            frames_of(len as int, config.channels as int) as nat,
        ),
        rendered_in_format(config.format, out),
        rendered_samples(out).len() == len,
        forall|j: int|
            0 <= j < len ==> rendered_samples(out)[j] == converted_sample(
                config.format,
                interleaved_sample(old(engine)@, config.channels as int, j),
            ),
{
    let fixed = render(engine, config.channels as usize, len);
    match config.format {
        SampleFormat::Float32 => RenderedBuffer::Float(fixed),
        SampleFormat::Int16 => RenderedBuffer::Int16(convert_i16(&fixed)),
        SampleFormat::Uint16 => RenderedBuffer::Uint16(convert_u16(&fixed)),
    }
}

} // verus!
