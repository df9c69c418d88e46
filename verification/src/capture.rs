//! Capture-side logic: device selection, sample-rate negotiation, per-frame
//! PCM conversion, and the forwarding decisions of the capture loop. The
//! hardware stream itself lives in the surrounding application, which feeds
//! raw frames and channel events through these functions.

use vstd::prelude::*;
use vstd::arithmetic::div_mod::lemma_basic_div;
use vstd::arithmetic::div_mod::lemma_fundamental_div_mod;
use vstd::arithmetic::div_mod::lemma_mod_bound;
use vstd::arithmetic::power2::lemma2_to64;
use vstd::arithmetic::power2::lemma2_to64_rest;
use vstd::arithmetic::power2::lemma_pow2_adds;
use vstd::arithmetic::power2::lemma_pow2_pos;
use vstd::arithmetic::power2::pow2;
use vstd::bits::lemma_u64_shl_is_mul;
use vstd::bits::lemma_u64_shr_is_div;

use crate::text::is_blank;
use crate::text::str_eq;
use crate::text::str_trim;
use crate::text::trim_spec;

verus! {

/// The value a 16-bit sample scales to, before the sign is applied: the
/// magnitude of the source value is `m / 2^k`, it is at most 1, and the
/// result is the nearest integer to `(m / 2^k) * 32767`, ties rounded up.
pub open spec fn scaled_mag(m: int, k: nat) -> int
    recommends
        k >= 1,
{
    (m * 32767 + pow2((k - 1) as nat) as int) / (pow2(k) as int)
}

/// The 16-bit sample a 32-bit float converts to, by the float's bit pattern
/// `b`. The float's value is `±m·2^-k` (sign, mantissa and scale read from
/// the exponent and fraction fields); the conversion clamps it to [-1, 1],
/// scales by 32767 and rounds to the nearest integer, ties away from zero.
/// A NaN converts to 0.
pub open spec fn s16_from_f32_bits(b: u32) -> int {
    let e = (b >> 23) & 0xFF;
    let f = b & 0x7FFFFF;
    let neg = (b >> 31) == 1;
    if e == 255 && f != 0 {
        0
    } else if e >= 127 {
        if neg {
            -32767
        } else {
            32767
        }
    } else {
        let m: int = if e == 0 {
            f as int
        } else {
            pow2(23) as int + f
        };
        let k: nat = if e == 0 {
            149nat
        } else {
            (150 - e) as nat
        };
        if neg {
            -scaled_mag(m, k)
        } else {
            scaled_mag(m, k)
        }
    }
}

/// Converts one hardware sample, given as the bit pattern of a 32-bit float:
/// clamp to [-1, 1], scale to the signed 16-bit range, round to nearest.
pub fn convert_sample_f32_bits(b: u32) -> (r: i16)
    ensures
        r as int == s16_from_f32_bits(b),
{
    let e: u32 = (b >> 23) & 0xFF;
    let f: u32 = b & 0x7FFFFF;
    let neg: bool = (b >> 31) == 1;
    assert(f <= 0x7FFFFF) by (bit_vector)
        requires
            f == b & 0x7FFFFF,
    ;
    if e == 255 && f != 0 {
        return 0;
    }
    if e >= 127 {
        return if neg {
            -32767
        } else {
            32767
        };
    }
    let m: u64 = if e == 0 {
        f as u64
    } else {
        0x800000u64 + f as u64
    };
    let k: u32 = if e == 0 {
        149
    } else {
        150 - e
    };
    proof {
        lemma2_to64();
        lemma2_to64_rest();
        assert(m == if e == 0 {
            f as int
        } else {
            pow2(23) as int + f
        });
        assert(24 <= k <= 149);
    }
    if k >= 40 {
        proof {
            lemma_pow2_adds(39, (k - 40) as nat);
            lemma_pow2_pos((k - 40) as nat);
            assert(m * 32767 <= 0xFFFFFF * 32767) by (nonlinear_arith)
                requires
                    0 <= m <= 0xFFFFFF,
            ;
            assert(pow2(39) <= pow2(39) * pow2((k - 40) as nat)) by (nonlinear_arith)
                requires
                    pow2((k - 40) as nat) >= 1,
            ;
            assert(m * 32767 + pow2((k - 1) as nat) < pow2((k - 1) as nat) + pow2(
                (k - 1) as nat,
            ));
            lemma_pow2_adds((k - 1) as nat, 1);
            lemma_basic_div(m * 32767 + pow2((k - 1) as nat) as int, pow2(k as nat) as int);
        }
        return 0;
    }
    let half: u64 = 1u64 << ((k - 1) as u64);
    proof {
        lemma_u64_shl_is_mul(1u64, (k - 1) as u64);
        assert(m * 32767 <= 0xFFFFFF * 32767) by (nonlinear_arith)
            requires
                0 <= m <= 0xFFFFFF,
        ;
    }
    let n: u64 = m * 32767 + half;
    let mag: u64 = n >> (k as u64);
    proof {
        lemma_u64_shr_is_div(n, k as u64);
        lemma_pow2_pos(k as nat);
        lemma_pow2_adds((k - 1) as nat, 1);
        assert(m * 32767 < pow2(k as nat) * 32767) by (nonlinear_arith)
            requires
                0 <= m < pow2(24),
                pow2(24) <= pow2(k as nat),
        ;
        assert(pow2(24) <= pow2(k as nat)) by {
            lemma_pow2_adds(24, (k - 24) as nat);
            lemma_pow2_pos((k - 24) as nat);
            assert(pow2(24) <= pow2(24) * pow2((k - 24) as nat)) by (nonlinear_arith)
                requires
                    pow2((k - 24) as nat) >= 1,
            ;
        }
        assert(n < 32768 * pow2(k as nat));
        assert((n as int) / (pow2(k as nat) as int) < 32768) by (nonlinear_arith)
            requires
                0 <= n < 32768 * pow2(k as nat),
                pow2(k as nat) >= 1,
        ;
    }
    if neg {
        -(mag as i16)
    } else {
        mag as i16
    }
}

/// The 16-bit sample a signed 16-bit hardware sample converts to. The
/// conversion runs through the plain numeric value of the sample: clamping
/// that value to [-1, 1] saturates everything at or beyond ±1.
pub open spec fn s16_from_i16_sample(v: i16) -> int {
    if v <= -1 {
        -32767
    } else if v == 0 {
        0
    } else {
        32767
    }
}

/// Converts one signed 16-bit hardware sample (the clamp of the plain
/// numeric value saturates every non-zero sample).
pub fn convert_sample_i16(v: i16) -> (r: i16)
    ensures
        r as int == s16_from_i16_sample(v),
{
    if v <= -1 {
        -32767
    } else if v == 0 {
        0
    } else {
        32767
    }
}

/// The 16-bit sample an unsigned 16-bit hardware sample converts to.
pub open spec fn s16_from_u16_sample(v: u16) -> int {
    if v == 0 {
        0
    } else {
        32767
    }
}

/// Converts one unsigned 16-bit hardware sample.
pub fn convert_sample_u16(v: u16) -> (r: i16)
    ensures
        r as int == s16_from_u16_sample(v),
{
    if v == 0 {
        0
    } else {
        32767
    }
}

/// Converts one hardware callback buffer of 32-bit float samples (given as
/// bit patterns), interleaved over `channels` channels, into one mono chunk:
/// only channel 0 of each frame is sampled.
pub fn convert_frames_f32(data: &Vec<u32>, channels: usize) -> (r: Vec<i16>)
    requires
        channels >= 1,
    ensures
        r@.len() == data@.len() as int / channels as int,
        forall|i: int|
            0 <= i < r@.len() ==> r@[i] as int == s16_from_f32_bits(
                data@[i * channels as int],
            ),
{
    let frames: usize = data.len() / channels;
    let mut r: Vec<i16> = Vec::new();
    let mut idx: usize = 0;
    proof {
        lemma_fundamental_div_mod(data@.len() as int, channels as int);
        lemma_mod_bound(data@.len() as int, channels as int);
        assert(frames * channels == channels * frames) by (nonlinear_arith);
    }
    while idx < frames
        invariant
            channels >= 1,
            frames == data@.len() as int / channels as int,
            frames * channels <= data@.len(),
            data@.len() <= usize::MAX,
            r@.len() == idx,
            idx <= frames,
            forall|i: int|
                0 <= i < idx ==> r@[i] as int == s16_from_f32_bits(data@[i * channels as int]),
        decreases frames - idx,
    {
        proof {
            assert(idx * channels + channels <= frames * channels) by (nonlinear_arith)
                requires
                    0 <= idx,
                    idx + 1 <= frames as int,
                    0 <= channels,
            ;
        }
        let pos: usize = idx * channels;
        r.push(convert_sample_f32_bits(data[pos]));
        idx += 1;
    }
    r
}

/// Converts one callback buffer of signed 16-bit samples, interleaved over
/// `channels` channels, into one mono chunk from channel 0.
pub fn convert_frames_i16(data: &Vec<i16>, channels: usize) -> (r: Vec<i16>)
    requires
        channels >= 1,
    ensures
        r@.len() == data@.len() as int / channels as int,
        forall|i: int|
            0 <= i < r@.len() ==> r@[i] as int == s16_from_i16_sample(
                data@[i * channels as int],
            ),
{
    let frames: usize = data.len() / channels;
    let mut r: Vec<i16> = Vec::new();
    let mut idx: usize = 0;
    proof {
        lemma_fundamental_div_mod(data@.len() as int, channels as int);
        lemma_mod_bound(data@.len() as int, channels as int);
        assert(frames * channels == channels * frames) by (nonlinear_arith);
    }
    while idx < frames
        invariant
            channels >= 1,
            frames == data@.len() as int / channels as int,
            frames * channels <= data@.len(),
            data@.len() <= usize::MAX,
            r@.len() == idx,
            idx <= frames,
            forall|i: int|
                0 <= i < idx ==> r@[i] as int == s16_from_i16_sample(data@[i * channels as int]),
        decreases frames - idx,
    {
        proof {
            assert(idx * channels + channels <= frames * channels) by (nonlinear_arith)
                requires
                    0 <= idx,
                    idx + 1 <= frames as int,
                    0 <= channels,
            ;
        }
        let pos: usize = idx * channels;
        r.push(convert_sample_i16(data[pos]));
        idx += 1;
    }
    r
}

/// Converts one callback buffer of unsigned 16-bit samples, interleaved over
/// `channels` channels, into one mono chunk from channel 0.
pub fn convert_frames_u16(data: &Vec<u16>, channels: usize) -> (r: Vec<i16>)
    requires
        channels >= 1,
    ensures
        r@.len() == data@.len() as int / channels as int,
        forall|i: int|
            0 <= i < r@.len() ==> r@[i] as int == s16_from_u16_sample(
                data@[i * channels as int],
            ),
{
    let frames: usize = data.len() / channels;
    let mut r: Vec<i16> = Vec::new();
    let mut idx: usize = 0;
    proof {
        lemma_fundamental_div_mod(data@.len() as int, channels as int);
        lemma_mod_bound(data@.len() as int, channels as int);
        assert(frames * channels == channels * frames) by (nonlinear_arith);
    }
    while idx < frames
        invariant
            channels >= 1,
            frames == data@.len() as int / channels as int,
            frames * channels <= data@.len(),
            data@.len() <= usize::MAX,
            r@.len() == idx,
            idx <= frames,
            forall|i: int|
                0 <= i < idx ==> r@[i] as int == s16_from_u16_sample(data@[i * channels as int]),
        decreases frames - idx,
    {
        proof {
            assert(idx * channels + channels <= frames * channels) by (nonlinear_arith)
                requires
                    0 <= idx,
                    idx + 1 <= frames as int,
                    0 <= channels,
            ;
        }
        let pos: usize = idx * channels;
        r.push(convert_sample_u16(data[pos]));
        idx += 1;
    }
    r
}

/// Which input device a session should open.
#[derive(Debug)]
pub enum DeviceChoice {
    /// The device at this index matched the preferred name exactly.
    Preferred(usize),
    /// No usable preference was given: open the host's default device.
    DefaultDevice,
    /// A preference was given but no device carries that name: warn, then
    /// open the default device.
    FallbackDefault,
}

/// Picks the input device: an exact name match for the trimmed preferred
/// name if one was given and is non-blank (the first match wins), else the
/// default device — with a warning exactly when a given preference matched
/// nothing.
pub fn select_input_device(names: &Vec<String>, preferred: &Option<String>) -> (r: DeviceChoice)
    ensures
        match r {
            DeviceChoice::Preferred(i) => preferred matches Some(p) && !is_blank(p@) && i
                < names@.len() && names@[i as int]@ == trim_spec(p@) && forall|j: int|
                0 <= j < i ==> names@[j]@ != trim_spec(p@),
            DeviceChoice::DefaultDevice => preferred is None || is_blank(preferred->0@),
            DeviceChoice::FallbackDefault => preferred matches Some(p) && !is_blank(p@) && forall|
                j: int,
            | 0 <= j < names@.len() ==> names@[j]@ != trim_spec(p@),
        },
{
    match preferred {
        Option::None => DeviceChoice::DefaultDevice,
        Option::Some(p) => {
            let want = str_trim(p.as_str());
            if want.as_str().is_empty() {
                return DeviceChoice::DefaultDevice;
            }
            let n = names.len();
            let mut i: usize = 0;
            while i < n
                invariant
                    n == names@.len(),
                    i <= n,
                    want@ == trim_spec(p@),
                    !is_blank(p@),
                    preferred is Some && preferred->0 == *p,
                    forall|j: int| 0 <= j < i ==> names@[j]@ != trim_spec(p@),
                decreases n - i,
            {
                if str_eq(names[i].as_str(), want.as_str()) {
                    return DeviceChoice::Preferred(i);
                }
                i += 1;
            }
            DeviceChoice::FallbackDefault
        },
    }
}

/// True iff the supported range `(min, max)` contains `rate`.
pub open spec fn rate_in_range(range: (u32, u32), rate: u32) -> bool {
    range.0 <= rate && rate <= range.1
}

/// Which stream configuration a session should request.
#[derive(Debug)]
pub enum ConfigChoice {
    /// The supported range at this index contains the desired rate: request
    /// that configuration with exactly the desired rate.
    Matching { index: usize },
    /// No range contains the desired rate: fall back to the device's own
    /// default configuration and adopt its rate.
    DeviceDefault,
}

impl ConfigChoice {
    /// The sample rate the session actually runs at, which must be reported
    /// back to the caller: the desired rate when a range matched, the
    /// device's default rate otherwise.
    pub fn negotiated_rate(&self, desired: u32, device_default: u32) -> (r: u32)
        ensures
            self is Matching ==> r == desired,
            self is DeviceDefault ==> r == device_default,
    {
        match self {
            ConfigChoice::Matching { .. } => desired,
            ConfigChoice::DeviceDefault => device_default,
        }
    }
}

/// Negotiates the stream configuration: the first supported range (given as
/// `(min, max)` sample-rate bounds) that contains the desired rate wins; if
/// none does, the device's default configuration is used instead of failing.
pub fn resolve_stream_config(ranges: &Vec<(u32, u32)>, desired: u32) -> (r: ConfigChoice)
    ensures
        match r {
            ConfigChoice::Matching { index } => index < ranges@.len() && rate_in_range(
                ranges@[index as int],
                desired,
            ) && forall|j: int| 0 <= j < index ==> !rate_in_range(ranges@[j], desired),
            ConfigChoice::DeviceDefault => forall|j: int|
                0 <= j < ranges@.len() ==> !rate_in_range(ranges@[j], desired),
        },
{
    let n = ranges.len();
    let mut i: usize = 0;
    while i < n
        invariant
            n == ranges@.len(),
            i <= n,
            forall|j: int| 0 <= j < i ==> !rate_in_range(ranges@[j], desired),
        decreases n - i,
    {
        let (min, max) = ranges[i];
        if min <= desired && desired <= max {
            return ConfigChoice::Matching { index: i };
        }
        i += 1;
    }
    ConfigChoice::DeviceDefault
}

/// One thing the capture loop observed while polling its frame relay.
#[derive(Debug)]
pub enum RecvEvent {
    /// A converted chunk arrived from the hardware callback.
    Chunk(Vec<i16>),
    /// The poll interval elapsed with nothing to forward.
    TimedOut,
    /// The hardware callback side of the relay is gone.
    Disconnected,
}

/// What the capture loop does next.
#[derive(Debug)]
pub enum CaptureDirective {
    /// Forward this chunk to the consumer channel.
    Deliver(Vec<i16>),
    /// Nothing to forward; poll again.
    Poll,
    /// Leave the loop and drop the hardware stream.
    Exit,
}

/// One iteration of the capture loop: exit when stopped or when the relay is
/// gone, poll again on a timeout or an empty chunk, and forward a non-empty
/// chunk while counting its samples (saturating).
pub fn capture_step(stopped: bool, event: RecvEvent, total_samples: &mut u64) -> (r:
    CaptureDirective)
    ensures
        stopped ==> r is Exit && *final(total_samples) == *old(total_samples),
        !stopped ==> match event {
            RecvEvent::Chunk(c) => {
                if c@.len() == 0 {
                    r is Poll && *final(total_samples) == *old(total_samples)
                } else {
                    r == CaptureDirective::Deliver(c) && *final(total_samples) as int == if *old(
                        total_samples,
                    ) + c@.len() <= u64::MAX {
                        *old(total_samples) + c@.len()
                    } else {
                        u64::MAX as int
                    }
                }
            },
            RecvEvent::TimedOut => r is Poll && *final(total_samples) == *old(total_samples),
            RecvEvent::Disconnected => r is Exit && *final(total_samples) == *old(total_samples),
        },
{
    if stopped {
        return CaptureDirective::Exit;
    }
    match event {
        RecvEvent::Chunk(c) => {
            if c.len() == 0 {
                CaptureDirective::Poll
            } else {
                let len = c.len() as u64;
                if len <= u64::MAX - *total_samples {
                    *total_samples = *total_samples + len;
                } else {
                    *total_samples = u64::MAX;
                }
                CaptureDirective::Deliver(c)
            }
        },
        RecvEvent::TimedOut => CaptureDirective::Poll,
        RecvEvent::Disconnected => CaptureDirective::Exit,
    }
}

/// How the consumer channel took a forwarded chunk.
#[derive(Debug)]
pub enum SendStatus {
    /// The chunk was queued for the consumer.
    Delivered,
    /// The bounded channel is full: the chunk is dropped, capture goes on.
    ChannelFull,
    /// The consumer is gone: capture ends.
    ConsumerGone,
}

/// The loop's reaction to a forwarding attempt: only a vanished consumer
/// ends the loop; a full channel merely drops that chunk.
pub fn on_send_result(status: SendStatus) -> (r: CaptureDirective)
    ensures
        status is ConsumerGone <==> r is Exit,
        !(status is ConsumerGone) <==> r is Poll,
{
    match status {
        SendStatus::Delivered => CaptureDirective::Poll,
        SendStatus::ChannelFull => CaptureDirective::Poll,
        SendStatus::ConsumerGone => CaptureDirective::Exit,
    }
}

} // verus!
