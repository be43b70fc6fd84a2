//! The decisions of audio capture: which backend captures, which input device
//! carries system audio, and the integer conversions of captured samples.
//!
//! Opening devices and streams happens outside the library.
use super::{backend_for_request, AudioChunk, CaptureBackend};
use crate::platform::TargetOs;
use crate::text::{chars_of, contains_chars, lowercase_of, occurs_in, to_lowercase};
use vstd::prelude::*;

verus! {

broadcast use vstd::string::group_string_axioms;

/// How a capture session gets its audio.
#[derive(Debug, Clone, Copy, PartialEq, Eq, Structural)]
pub enum CapturePath {
    /// ScreenCaptureKit system-audio capture (macOS).
    ScreenCaptureKit,
    /// WASAPI loopback capture of the default render device (Windows).
    WasapiLoopback,
    /// An input device that carries system audio (a loopback driver).
    LoopbackDevice,
}

/// The capture path for a backend on an operating system, or why there is none.
pub open spec fn capture_path_for(backend: CaptureBackend, os: TargetOs) -> Result<CapturePath, Seq<char>> {
    if os == TargetOs::MacOs && (backend == CaptureBackend::ScreenCaptureKit || backend
        == CaptureBackend::Auto) {
        Ok(CapturePath::ScreenCaptureKit)
    } else if os == TargetOs::Windows && (backend == CaptureBackend::WasapiLoopback || backend
        == CaptureBackend::Auto) {
        Ok(CapturePath::WasapiLoopback)
    } else {
        match backend {
            CaptureBackend::Auto | CaptureBackend::LoopbackDriver => Ok(CapturePath::LoopbackDevice),
            CaptureBackend::ScreenCaptureKit => Err("ScreenCaptureKit chỉ hỗ trợ macOS"@),
            CaptureBackend::WasapiLoopback => Err("WASAPI loopback chỉ hỗ trợ Windows"@),
        }
    }
}

/// Each backend on each operating system: on macOS, ScreenCaptureKit and Auto
/// capture through ScreenCaptureKit; on Windows, WASAPI loopback and Auto capture
/// through WASAPI loopback; elsewhere Auto, and everywhere the loopback driver,
/// capture from a loopback input device. ScreenCaptureKit off macOS and WASAPI
/// loopback off Windows are refused.
pub proof fn law_capture_path_per_os(backend: CaptureBackend, os: TargetOs)
    ensures
        os == TargetOs::MacOs && (backend == CaptureBackend::ScreenCaptureKit || backend
            == CaptureBackend::Auto) ==> capture_path_for(backend, os) == Ok::<
            CapturePath,
            Seq<char>,
        >(CapturePath::ScreenCaptureKit),
        os == TargetOs::Windows && (backend == CaptureBackend::WasapiLoopback || backend
            == CaptureBackend::Auto) ==> capture_path_for(backend, os) == Ok::<
            CapturePath,
            Seq<char>,
        >(CapturePath::WasapiLoopback),
        backend == CaptureBackend::LoopbackDriver ==> capture_path_for(backend, os) == Ok::<
            CapturePath,
            Seq<char>,
        >(CapturePath::LoopbackDevice),
        (os == TargetOs::Linux || os == TargetOs::Other) && backend == CaptureBackend::Auto
            ==> capture_path_for(backend, os) == Ok::<CapturePath, Seq<char>>(
            CapturePath::LoopbackDevice,
        ),
        backend == CaptureBackend::ScreenCaptureKit && os != TargetOs::MacOs ==> capture_path_for(
            backend,
            os,
        ) == Err::<CapturePath, Seq<char>>("ScreenCaptureKit chỉ hỗ trợ macOS"@),
        backend == CaptureBackend::WasapiLoopback && os != TargetOs::Windows ==> capture_path_for(
            backend,
            os,
        ) == Err::<CapturePath, Seq<char>>("WASAPI loopback chỉ hỗ trợ Windows"@),
{
}

/// The frontend names a backend "screen-capture-kit", "wasapi-loopback" or
/// "loopback-driver"; any other name asks for the automatic choice. Asking for
/// nothing always gives a way to capture: ScreenCaptureKit on macOS, WASAPI
/// loopback on Windows, a loopback input device elsewhere.
pub proof fn law_requested_backend_captures(name: Seq<char>, os: TargetOs)
    ensures
        name == "screen-capture-kit"@ ==> backend_for_request(Some(name), os)
            == CaptureBackend::ScreenCaptureKit,
        name == "wasapi-loopback"@ ==> backend_for_request(Some(name), os)
            == CaptureBackend::WasapiLoopback,
        name == "loopback-driver"@ ==> backend_for_request(Some(name), os)
            == CaptureBackend::LoopbackDriver,
        (name != "screen-capture-kit"@ && name != "wasapi-loopback"@ && name
            != "loopback-driver"@) ==> backend_for_request(Some(name), os) == CaptureBackend::Auto,
        os == TargetOs::MacOs ==> capture_path_for(backend_for_request(None, os), os) == Ok::<
            CapturePath,
            Seq<char>,
        >(CapturePath::ScreenCaptureKit),
        os == TargetOs::Windows ==> capture_path_for(backend_for_request(None, os), os) == Ok::<
            CapturePath,
            Seq<char>,
        >(CapturePath::WasapiLoopback),
        (os == TargetOs::Linux || os == TargetOs::Other) ==> capture_path_for(
            backend_for_request(None, os),
            os,
        ) == Ok::<CapturePath, Seq<char>>(CapturePath::LoopbackDevice),
{
    reveal_strlit("screen-capture-kit");
    reveal_strlit("wasapi-loopback");
    reveal_strlit("loopback-driver");
    assert("wasapi-loopback"@.len() != "screen-capture-kit"@.len());
    assert("loopback-driver"@.len() != "screen-capture-kit"@.len());
    assert("loopback-driver"@[0] != "wasapi-loopback"@[0]);
}

/// Chooses how to capture with the requested backend on this operating system.
pub fn select_capture_path(backend: CaptureBackend, os: TargetOs) -> (r: Result<CapturePath, String>)
    ensures
        match r {
            Ok(p) => capture_path_for(backend, os) == Ok::<CapturePath, Seq<char>>(p),
            Err(m) => capture_path_for(backend, os) == Err::<CapturePath, Seq<char>>(m@),
        },
{
    if os == TargetOs::MacOs && (backend == CaptureBackend::ScreenCaptureKit || backend
        == CaptureBackend::Auto) {
        return Ok(CapturePath::ScreenCaptureKit);
    }
    if os == TargetOs::Windows && (backend == CaptureBackend::WasapiLoopback || backend
        == CaptureBackend::Auto) {
        return Ok(CapturePath::WasapiLoopback);
    }
    match backend {
        CaptureBackend::Auto | CaptureBackend::LoopbackDriver => Ok(CapturePath::LoopbackDevice),
        CaptureBackend::ScreenCaptureKit => Err(String::from_str("ScreenCaptureKit chỉ hỗ trợ macOS")),
        CaptureBackend::WasapiLoopback => Err(String::from_str("WASAPI loopback chỉ hỗ trợ Windows")),
    }
}

/// How strongly a lower-cased device name suggests a loopback (system audio)
/// device: known loopback drivers score high, microphones are penalized.
pub open spec fn loopback_score_of(lower: Seq<char>) -> int {
    (if occurs_in(lower, "blackhole"@) { 120int } else { 0int })
    + (if occurs_in(lower, "vb-cable"@) || occurs_in(lower, "cable output"@) { 110int } else { 0int })
    + (if occurs_in(lower, "stereo mix"@) || occurs_in(lower, "what u hear"@) { 100int } else { 0int })
    + (if occurs_in(lower, "loopback"@) { 90int } else { 0int })
    + (if occurs_in(lower, "multi-output"@) || occurs_in(lower, "aggregate"@) { 25int } else { 0int })
    - (if occurs_in(lower, "mic"@) || occurs_in(lower, "microphone"@) || occurs_in(lower, "headset"@) {
        60int
    } else {
        0int
    })
}

/// The loopback score of a device name.
pub open spec fn device_name_score(name: Seq<char>) -> int {
    loopback_score_of(lowercase_of(name))
}

/// Each loopback keyword in a device name (case-insensitively) raises its score
/// by its own amount: "blackhole" by 120, "vb-cable" or "cable output" by 110,
/// "stereo mix" or "what u hear" by 100, "loopback" by 90, "multi-output" or
/// "aggregate" by 25; a name that also reads "mic", "microphone" or "headset"
/// loses 60; the score is the sum of these. So a keyword with no such word
/// scores at least its amount, and with one at least its amount less 60.
pub proof fn law_loopback_keywords_raise_score(name: Seq<char>)
    ensures
        ({
            let lower = lowercase_of(name);
            let penalty: int = if occurs_in(lower, "mic"@) || occurs_in(lower, "microphone"@)
                || occurs_in(lower, "headset"@) {
                60
            } else {
                0
            };
            &&& occurs_in(lower, "blackhole"@) ==> device_name_score(name) >= 120 - penalty
            &&& occurs_in(lower, "vb-cable"@) ==> device_name_score(name) >= 110 - penalty
            &&& occurs_in(lower, "cable output"@) ==> device_name_score(name) >= 110 - penalty
            &&& occurs_in(lower, "stereo mix"@) ==> device_name_score(name) >= 100 - penalty
            &&& occurs_in(lower, "what u hear"@) ==> device_name_score(name) >= 100 - penalty
            &&& occurs_in(lower, "loopback"@) ==> device_name_score(name) >= 90 - penalty
            &&& occurs_in(lower, "multi-output"@) ==> device_name_score(name) >= 25 - penalty
            &&& occurs_in(lower, "aggregate"@) ==> device_name_score(name) >= 25 - penalty
            &&& device_name_score(name) <= 120 + 110 + 100 + 90 + 25 - penalty
            &&& device_name_score(name) + penalty == (if occurs_in(lower, "blackhole"@) {
                120int
            } else {
                0
            }) + (if occurs_in(lower, "vb-cable"@) || occurs_in(lower, "cable output"@) {
                110int
            } else {
                0
            }) + (if occurs_in(lower, "stereo mix"@) || occurs_in(lower, "what u hear"@) {
                100int
            } else {
                0
            }) + (if occurs_in(lower, "loopback"@) {
                90int
            } else {
                0
            }) + (if occurs_in(lower, "multi-output"@) || occurs_in(lower, "aggregate"@) {
                25int
            } else {
                0
            })
        }),
{
}

/// A device name with none of the loopback keywords scores 0, or -60 when it
/// reads "mic", "microphone" or "headset": such a device is never picked.
pub proof fn law_plain_device_names_score_nothing(name: Seq<char>)
    requires
        ({
            let lower = lowercase_of(name);
            &&& !occurs_in(lower, "blackhole"@)
            &&& !occurs_in(lower, "vb-cable"@)
            &&& !occurs_in(lower, "cable output"@)
            &&& !occurs_in(lower, "stereo mix"@)
            &&& !occurs_in(lower, "what u hear"@)
            &&& !occurs_in(lower, "loopback"@)
            &&& !occurs_in(lower, "multi-output"@)
            &&& !occurs_in(lower, "aggregate"@)
        }),
    ensures
        ({
            let lower = lowercase_of(name);
            if occurs_in(lower, "mic"@) || occurs_in(lower, "microphone"@) || occurs_in(
                lower,
                "headset"@,
            ) {
                device_name_score(name) == -60
            } else {
                device_name_score(name) == 0
            }
        }),
{
}

fn name_has(lower: &Vec<char>, pattern: &str) -> (r: bool)
    ensures
        r == occurs_in(lower@, pattern@),
{
    contains_chars(lower, &chars_of(pattern))
}

/// How strongly a device name suggests a loopback (system audio) device.
pub fn score_loopback_device_name(name: &str) -> (r: i32)
    ensures
        r == device_name_score(name@),
{
    let lower = chars_of(to_lowercase(name).as_str());
    let mut score: i32 = 0;
    if name_has(&lower, "blackhole") {
        score = score + 120;
    }
    if name_has(&lower, "vb-cable") || name_has(&lower, "cable output") {
        score = score + 110;
    }
    if name_has(&lower, "stereo mix") || name_has(&lower, "what u hear") {
        score = score + 100;
    }
    if name_has(&lower, "loopback") {
        score = score + 90;
    }
    if name_has(&lower, "multi-output") || name_has(&lower, "aggregate") {
        score = score + 25;
    }
    if name_has(&lower, "mic") || name_has(&lower, "microphone") || name_has(&lower, "headset") {
        score = score - 60;
    }
    score
}

/// The error given when no input device looks like a loopback device.
pub open spec fn no_loopback_device_text() -> Seq<char> {
    "No loopback/system-audio device found. Install and route audio via BlackHole (macOS) or Stereo Mix/VB-Cable (Windows)."@
}

/// Picks the input device to capture system audio from: among the devices whose
/// name scores above zero, the first with the highest score.
pub fn pick_loopback_device(names: &Vec<String>) -> (r: Result<usize, String>)
    ensures
        match r {
            Ok(i) => {
                &&& i < names@.len()
                &&& device_name_score(names@[i as int]@) > 0
                &&& forall|j: int|
                    0 <= j < names@.len() ==> device_name_score(#[trigger] names@[j]@)
                        <= device_name_score(names@[i as int]@)
                &&& forall|j: int|
                    0 <= j < i ==> device_name_score(#[trigger] names@[j]@) < device_name_score(
                        names@[i as int]@,
                    )
            },
            Err(m) => {
                &&& forall|j: int| 0 <= j < names@.len() ==> device_name_score(#[trigger] names@[j]@) <= 0
                &&& m@ == no_loopback_device_text()
            },
        },
{
    let mut best: Option<(usize, i32)> = None;
    let mut i: usize = 0;
    while i < names.len()
        invariant
            i <= names@.len(),
            match best {
                None => forall|j: int| 0 <= j < i ==> device_name_score(#[trigger] names@[j]@) <= 0,
                Some((b, s)) => {
                    &&& b < i
                    &&& s == device_name_score(names@[b as int]@)
                    &&& s > 0
                    &&& forall|j: int| 0 <= j < i ==> device_name_score(#[trigger] names@[j]@) <= s
                    &&& forall|j: int| 0 <= j < b ==> device_name_score(#[trigger] names@[j]@) < s
                },
            },
        decreases names@.len() - i,
    {
        let score = score_loopback_device_name(names[i].as_str());
        if score > 0 {
            match best {
                None => {
                    best = Some((i, score));
                },
                Some((_, s)) => {
                    if score > s {
                        best = Some((i, score));
                    }
                },
            }
        }
        i = i + 1;
    }
    match best {
        Some((b, _)) => Ok(b),
        None => Err(
            String::from_str(
                "No loopback/system-audio device found. Install and route audio via BlackHole (macOS) or Stereo Mix/VB-Cable (Windows).",
            ),
        ),
    }
}

/// An unsigned 16-bit sample as a signed one: shifted down by 32768.
pub fn u16_sample_to_i16(sample: u16) -> (r: i16)
    ensures
        r == sample - 32768,
{
    ((sample as i32) - 32768) as i16
}

/// Unsigned 16-bit samples as signed ones.
pub fn convert_u16_samples(samples: &[u16]) -> (r: Vec<i16>)
    ensures
        r@.len() == samples@.len(),
        forall|i: int| 0 <= i < r@.len() ==> #[trigger] r@[i] == samples@[i] - 32768,
{
    let mut out: Vec<i16> = Vec::new();
    let mut i: usize = 0;
    while i < samples.len()
        invariant
            i <= samples@.len(),
            out@.len() == i,
            forall|k: int| 0 <= k < i ==> #[trigger] out@[k] == samples@[k] - 32768,
        decreases samples@.len() - i,
    {
        out.push(u16_sample_to_i16(samples[i]));
        i = i + 1;
    }
    out
}

/// The time of a chunk, in milliseconds since the capture started (0 when the
/// clock reads earlier than the start).
pub fn chunk_timestamp_ms(now_ms: u64, start_ms: u64) -> (r: u64)
    ensures
        r == (if now_ms >= start_ms {
            now_ms - start_ms
        } else {
            0
        }),
{
    now_ms.saturating_sub(start_ms)
}

/// A streaming chunk of samples captured at `timestamp_ms`, counting
/// `sample_count` captured samples.
pub fn make_chunk(samples: Vec<i16>, sample_count: usize, timestamp_ms: u64) -> (r: AudioChunk)
    ensures
        r.samples == samples,
        r.sample_count == sample_count,
        r.timestamp_ms == timestamp_ms,
{
    AudioChunk { samples, sample_count, timestamp_ms }
}

/// The signed 16-bit value of two bytes in the given byte order.
pub open spec fn pcm16_value(b0: u8, b1: u8, little_endian: bool) -> i16 {
    let u: int = if little_endian {
        b0 + 256 * b1
    } else {
        256 * b0 + b1
    };
    if u >= 32768 {
        (u - 65536) as i16
    } else {
        u as i16
    }
}

/// Decodes 16-bit samples in the platform's byte order; a trailing odd byte is ignored.
pub fn decode_pcm16(bytes: &[u8], little_endian: bool) -> (r: Vec<i16>)
    ensures
        r@.len() == bytes@.len() / 2,
        forall|i: int|
            0 <= i < r@.len() ==> #[trigger] r@[i] == pcm16_value(
                bytes@[2 * i],
                bytes@[2 * i + 1],
                little_endian,
            ),
{
    let mut out: Vec<i16> = Vec::new();
    let mut i: usize = 0;
    while i + 1 < bytes.len()
        invariant
            i == 2 * out@.len(),
            i <= bytes@.len(),
            out@.len() <= bytes@.len() / 2,
            i + 1 >= bytes@.len() ==> out@.len() == bytes@.len() / 2,
            forall|k: int|
                0 <= k < out@.len() ==> #[trigger] out@[k] == pcm16_value(
                    bytes@[2 * k],
                    bytes@[2 * k + 1],
                    little_endian,
                ),
        decreases bytes@.len() - i,
    {
        let b0 = bytes[i];
        let b1 = bytes[i + 1];
        let u: u32 = if little_endian {
            b0 as u32 + 256 * b1 as u32
        } else {
            256 * b0 as u32 + b1 as u32
        };
        let v: i16 = if u >= 32768 {
            (u as i32 - 65536) as i16
        } else {
            u as i16
        };
        out.push(v);
        i = i + 2;
    }
    out
}

/// Whether a ScreenCaptureKit audio buffer holds 32-bit float samples: they are
/// at least four bytes wide (or of unknown width) and one whole sample is there.
/// Otherwise it is read as 16-bit samples.
pub fn sck_buffer_is_float(byte_len: usize, bytes_per_sample: usize) -> (r: bool)
    ensures
        r == ((bytes_per_sample >= 4 || bytes_per_sample == 0) && byte_len >= 4),
{
    (bytes_per_sample >= 4 || bytes_per_sample == 0) && byte_len >= 4
}

/// The channels that carry samples.
pub open spec fn nonempty_channels(chans: Seq<Seq<i16>>) -> Seq<Seq<i16>> {
    chans.filter(|c: Seq<i16>| c.len() > 0)
}

/// The shortest length among channels (0 when there are none).
pub open spec fn min_len(chans: Seq<Seq<i16>>) -> int
    decreases chans.len(),
{
    if chans.len() == 0 {
        0
    } else if chans.len() == 1 {
        chans[0].len() as int
    } else {
        let m = min_len(chans.drop_last());
        if chans.last().len() < m {
            chans.last().len() as int
        } else {
            m
        }
    }
}

/// Frame `i` of the channels: sample `i` of each channel, in channel order.
pub open spec fn frame_of(chans: Seq<Seq<i16>>, i: int) -> Seq<i16> {
    Seq::new(chans.len(), |c: int| chans[c][i])
}

/// Per-channel buffers interleaved into frames: the channels without samples are
/// left out, and frames are formed up to the shortest of the others.
pub open spec fn interleaved(chans: Seq<Seq<i16>>) -> Seq<i16> {
    let cs = nonempty_channels(chans);
    Seq::new(min_len(cs) as nat, |i: int| frame_of(cs, i)).flatten()
}

/// The samples of each channel buffer.
pub open spec fn channel_views(v: Seq<Vec<i16>>) -> Seq<Seq<i16>> {
    v.map_values(|c: Vec<i16>| c@)
}

pub proof fn lemma_min_len_bounds(chans: Seq<Seq<i16>>)
    ensures
        forall|c: int| 0 <= c < chans.len() ==> min_len(chans) <= #[trigger] chans[c].len(),
        chans.len() > 0 ==> exists|c: int| 0 <= c < chans.len() && min_len(chans) == #[trigger] chans[c].len(),
        min_len(chans) >= 0,
    decreases chans.len(),
{
    if chans.len() > 1 {
        let rest = chans.drop_last();
        lemma_min_len_bounds(rest);
        assert forall|c: int| 0 <= c < chans.len() implies min_len(chans) <= #[trigger] chans[c].len() by {
            if c < chans.len() - 1 {
                assert(chans[c] == rest[c]);
            }
        }
        if chans.last().len() >= min_len(rest) {
            let c = choose|c: int| 0 <= c < rest.len() && min_len(rest) == #[trigger] rest[c].len();
            assert(chans[c] == rest[c]);
        } else {
            assert(min_len(chans) == chans[chans.len() - 1].len());
        }
    } else if chans.len() == 1 {
        assert(min_len(chans) == chans[0].len());
    }
}

/// Interleaves per-channel sample buffers into frames. Channels without samples
/// are left out; frames are formed up to the shortest remaining channel.
pub fn interleave_channels(per_channel: &Vec<Vec<i16>>) -> (r: Vec<i16>)
    ensures
        r@ == interleaved(channel_views(per_channel@)),
{
    let ghost views = channel_views(per_channel@);
    let mut chans: Vec<Vec<i16>> = Vec::new();
    let mut i: usize = 0;
    while i < per_channel.len()
        invariant
            i <= per_channel@.len(),
            views == channel_views(per_channel@),
            channel_views(chans@) =~= nonempty_channels(views.take(i as int)),
        decreases per_channel@.len() - i,
    {
        proof {
            assert(views.take(i + 1).drop_last() =~= views.take(i as int));
            reveal_with_fuel(Seq::filter, 1);
        }
        if per_channel[i].len() > 0 {
            let copy = vstd::slice::slice_to_vec(per_channel[i].as_slice());
            let ghost prev = chans@;
            chans.push(copy);
            assert(channel_views(chans@) =~= channel_views(prev).push(copy@));
        }
        i = i + 1;
    }
    assert(views.take(per_channel@.len() as int) =~= views);
    let ghost cs = nonempty_channels(views);
    let mut out: Vec<i16> = Vec::new();
    if chans.len() == 0 {
        proof {
            assert(min_len(cs) == 0);
            assert(Seq::new(0nat, |i: int| frame_of(cs, i)) =~= Seq::<Seq<i16>>::empty());
            assert(out@ =~= Seq::<Seq<i16>>::empty().flatten());
        }
        return out;
    }
    let mut m = chans[0].len();
    let mut c: usize = 1;
    while c < chans.len()
        invariant
            channel_views(chans@) == cs,
            1 <= c <= chans@.len(),
            m == min_len(cs.take(c as int)),
        decreases chans@.len() - c,
    {
        proof {
            assert(cs.take(c + 1).drop_last() =~= cs.take(c as int));
            assert(cs.take(c + 1).last() == cs[c as int]);
        }
        if chans[c].len() < m {
            m = chans[c].len();
        }
        c = c + 1;
    }
    proof {
        assert(cs.take(chans@.len() as int) =~= cs);
        lemma_min_len_bounds(cs);
    }
    let ghost frames = Seq::new(m as nat, |i: int| frame_of(cs, i));
    let mut idx: usize = 0;
    while idx < m
        invariant
            channel_views(chans@) == cs,
            cs.len() == chans@.len(),
            m == min_len(cs),
            forall|k: int| 0 <= k < cs.len() ==> min_len(cs) <= #[trigger] cs[k].len(),
            frames == Seq::new(m as nat, |i: int| frame_of(cs, i)),
            idx <= m,
            out@ == frames.take(idx as int).flatten(),
        decreases m - idx,
    {
        let ghost before = out@;
        let mut ch: usize = 0;
        while ch < chans.len()
            invariant
                channel_views(chans@) == cs,
                cs.len() == chans@.len(),
                forall|k: int| 0 <= k < cs.len() ==> min_len(cs) <= #[trigger] cs[k].len(),
                m == min_len(cs),
                idx < m,
                ch <= chans@.len(),
                out@ == before + frame_of(cs, idx as int).take(ch as int),
            decreases chans@.len() - ch,
        {
            assert(cs[ch as int] == chans@[ch as int]@);
            out.push(chans[ch][idx]);
            assert(frame_of(cs, idx as int).take(ch + 1) =~= frame_of(cs, idx as int).take(
                ch as int,
            ).push(cs[ch as int][idx as int]));
            ch = ch + 1;
        }
        proof {
            assert(frame_of(cs, idx as int).take(cs.len() as int) =~= frame_of(cs, idx as int));
            assert(frames.take(idx + 1) =~= frames.take(idx as int).push(frames[idx as int]));
            frames.take(idx as int).lemma_flatten_push(frames[idx as int]);
        }
        idx = idx + 1;
    }
    assert(frames.take(m as int) =~= frames);
    out
}

} // verus!
