//! Read-only diagnostics for MP3 files: a pure bitstream parser for the
//! fixed frame header format, and an analyzer that detects metadata
//! tags, samples a few frame headers, estimates the duration, and
//! reports structural anomalies.
//!
//! Nothing here feeds back into playback decisions; the caller hands in
//! the file's bytes and receives a report.

use vstd::prelude::*;
use vstd::string::*;
use crate::chain::sync_at;
use crate::decimal::{bool_string, dec_chars, dec_chars_2, decimal_string, decimal_string_2};

verus! {

/// Information decoded from one frame header.
#[derive(Debug, Clone, Copy, PartialEq, Eq, Structural)]
pub struct Mp3FrameHeader {
    pub version: Mp3Version,
    pub layer: Mp3Layer,
    /// Bitrate in kilobits per second; zero for free or invalid
    /// indices.
    pub bitrate: u32,
    /// Sample rate in Hertz; zero for the reserved index.
    pub sample_rate: u32,
    pub channel_mode: ChannelMode,
    /// Frame length in bytes; zero when bitrate or sample rate is
    /// unknown.
    pub frame_size: usize,
}

#[derive(Debug, Clone, Copy, PartialEq, Eq, Structural)]
pub enum Mp3Version {
    Mpeg1,
    Mpeg2,
    Mpeg25,
    Reserved,
}

#[derive(Debug, Clone, Copy, PartialEq, Eq, Structural)]
pub enum Mp3Layer {
    Layer1,
    Layer2,
    Layer3,
    Reserved,
}

#[derive(Debug, Clone, Copy, PartialEq, Eq, Structural)]
pub enum ChannelMode {
    Stereo,
    JointStereo,
    DualChannel,
    Mono,
}

/// A synchsafe integer: the low seven bits of each of four bytes.
pub open spec fn spec_synchsafe(b0: u8, b1: u8, b2: u8, b3: u8) -> u32 {
    ((b0 & 0x7F) as u32) << 21 | ((b1 & 0x7F) as u32) << 14 | ((b2 & 0x7F) as u32) << 7 | ((b3
        & 0x7F) as u32)
}

/// Law: a synchsafe integer is the base-128 value of its bytes'
/// significant bits, so it is below `2^28`.
pub proof fn lemma_synchsafe_value(b0: u8, b1: u8, b2: u8, b3: u8)
    ensures
        spec_synchsafe(b0, b1, b2, b3) == (b0 & 0x7F) as int * 0x200000 + (b1 & 0x7F) as int
            * 0x4000 + (b2 & 0x7F) as int * 0x80 + (b3 & 0x7F) as int,
        spec_synchsafe(b0, b1, b2, b3) < 0x10000000,
{
    assert(((b0 & 0x7F) as u32) << 21 | ((b1 & 0x7F) as u32) << 14 | ((b2 & 0x7F) as u32) << 7 | ((
    b3 & 0x7F) as u32) == ((b0 & 0x7F) as u32) * 0x200000 + ((b1 & 0x7F) as u32) * 0x4000 + ((b2
        & 0x7F) as u32) * 0x80 + ((b3 & 0x7F) as u32) && ((b0 & 0x7F) as u32) << 21 | ((b1
        & 0x7F) as u32) << 14 | ((b2 & 0x7F) as u32) << 7 | ((b3 & 0x7F) as u32) < 0x10000000)
        by (bit_vector);
}

/// Decode the four size bytes of a leading metadata tag: a synchsafe
/// integer with seven significant bits per byte.
pub fn parse_id3v2_size(bytes: &[u8]) -> (r: u32)
    requires
        bytes@.len() >= 4,
    ensures
        r == spec_synchsafe(bytes@[0], bytes@[1], bytes@[2], bytes@[3]),
{
    ((bytes[0] & 0x7F) as u32) << 21 | ((bytes[1] & 0x7F) as u32) << 14 | ((bytes[2]
        & 0x7F) as u32) << 7 | ((bytes[3] & 0x7F) as u32)
}

/// The version field of a frame header byte.
pub open spec fn spec_version_of(b1: u8) -> Mp3Version {
    let bits = (b1 >> 3) & 3;
    if bits == 0 {
        Mp3Version::Mpeg25
    } else if bits == 1 {
        Mp3Version::Reserved
    } else if bits == 2 {
        Mp3Version::Mpeg2
    } else {
        Mp3Version::Mpeg1
    }
}

/// The layer field of a frame header byte.
pub open spec fn spec_layer_of(b1: u8) -> Mp3Layer {
    let bits = (b1 >> 1) & 3;
    if bits == 0 {
        Mp3Layer::Reserved
    } else if bits == 1 {
        Mp3Layer::Layer3
    } else if bits == 2 {
        Mp3Layer::Layer2
    } else {
        Mp3Layer::Layer1
    }
}

/// The channel mode field of a frame header byte.
pub open spec fn spec_channel_mode_of(b3: u8) -> ChannelMode {
    let bits = (b3 >> 6) & 3;
    if bits == 0 {
        ChannelMode::Stereo
    } else if bits == 1 {
        ChannelMode::JointStereo
    } else if bits == 2 {
        ChannelMode::DualChannel
    } else {
        ChannelMode::Mono
    }
}

/// The bitrate in kbps for a bitrate index, in the simplified table for
/// MPEG1 Layer III; zero for the free and invalid indices. These values
/// are fixed constants of the wire format.
pub open spec fn spec_bitrate_of(idx: u8) -> u32 {
    if idx == 1 {
        32
    } else if idx == 2 {
        40
    } else if idx == 3 {
        48
    } else if idx == 4 {
        56
    } else if idx == 5 {
        64
    } else if idx == 6 {
        80
    } else if idx == 7 {
        96
    } else if idx == 8 {
        112
    } else if idx == 9 {
        128
    } else if idx == 10 {
        160
    } else if idx == 11 {
        192
    } else if idx == 12 {
        224
    } else if idx == 13 {
        256
    } else if idx == 14 {
        320
    } else {
        0
    }
}

/// The sample rate in Hertz for a sample-rate index; zero when
/// reserved. Fixed constants of the wire format.
pub open spec fn spec_sample_rate_of(idx: u8) -> u32 {
    if idx == 0 {
        44100
    } else if idx == 1 {
        48000
    } else if idx == 2 {
        32000
    } else {
        0
    }
}

/// The frame length in bytes derived from bitrate and sample rate.
pub open spec fn spec_frame_size(bitrate: u32, sample_rate: u32) -> int {
    if bitrate > 0 && sample_rate > 0 {
        144int * (bitrate as int) * 1000int / (sample_rate as int)
    } else {
        0
    }
}

/// The header decoded from the four bytes of a frame header.
pub open spec fn spec_frame_header(b0: u8, b1: u8, b2: u8, b3: u8) -> Mp3FrameHeader {
    let bitrate = spec_bitrate_of(b2 >> 4);
    let sample_rate = spec_sample_rate_of((b2 >> 2) & 3);
    Mp3FrameHeader {
        version: spec_version_of(b1),
        layer: spec_layer_of(b1),
        bitrate: bitrate,
        sample_rate: sample_rate,
        channel_mode: spec_channel_mode_of(b3),
        frame_size: spec_frame_size(bitrate, sample_rate) as usize,
    }
}

/// Decode a frame header from the leading four bytes: rejected without
/// four bytes or without the sync word; otherwise every field is the
/// fixed lookup of its bits.
pub fn parse_mp3_frame_header(bytes: &[u8]) -> (r: Result<Mp3FrameHeader, &'static str>)
    ensures
        bytes@.len() < 4 ==> (r matches Err(m) && m@ == "Not enough bytes for frame header"@),
        bytes@.len() >= 4 && !sync_at(bytes@, 0) ==> (r matches Err(m) && m@
            == "Invalid sync word"@),
        bytes@.len() >= 4 && sync_at(bytes@, 0) ==> r == Ok::<Mp3FrameHeader, &'static str>(
            spec_frame_header(bytes@[0], bytes@[1], bytes@[2], bytes@[3]),
        ),
{
    if bytes.len() < 4 {
        return Err("Not enough bytes for frame header");
    }
    let b0 = bytes[0];
    let b1 = bytes[1];
    let b2 = bytes[2];
    let b3 = bytes[3];
    if !(b0 == 0xFF && (b1 & 0xE0) == 0xE0) {
        return Err("Invalid sync word");
    }
    let version = {
        let bits = (b1 >> 3) & 3;
        if bits == 0 {
            Mp3Version::Mpeg25
        } else if bits == 1 {
            Mp3Version::Reserved
        } else if bits == 2 {
            Mp3Version::Mpeg2
        } else {
            Mp3Version::Mpeg1
        }
    };
    let layer = {
        let bits = (b1 >> 1) & 3;
        if bits == 0 {
            Mp3Layer::Reserved
        } else if bits == 1 {
            Mp3Layer::Layer3
        } else if bits == 2 {
            Mp3Layer::Layer2
        } else {
            Mp3Layer::Layer1
        }
    };
    let channel_mode = {
        let bits = (b3 >> 6) & 3;
        if bits == 0 {
            ChannelMode::Stereo
        } else if bits == 1 {
            ChannelMode::JointStereo
        } else if bits == 2 {
            ChannelMode::DualChannel
        } else {
            ChannelMode::Mono
        }
    };
    let bitrate_index = b2 >> 4;
    let sample_rate_index = (b2 >> 2) & 3;
    let bitrate: u32 = if bitrate_index == 1 {
        32
    } else if bitrate_index == 2 {
        40
    } else if bitrate_index == 3 {
        48
    } else if bitrate_index == 4 {
        56
    } else if bitrate_index == 5 {
        64
    } else if bitrate_index == 6 {
        80
    } else if bitrate_index == 7 {
        96
    } else if bitrate_index == 8 {
        112
    } else if bitrate_index == 9 {
        128
    } else if bitrate_index == 10 {
        160
    } else if bitrate_index == 11 {
        192
    } else if bitrate_index == 12 {
        224
    } else if bitrate_index == 13 {
        256
    } else if bitrate_index == 14 {
        320
    } else {
        0
    };
    let sample_rate: u32 = if sample_rate_index == 0 {
        44100
    } else if sample_rate_index == 1 {
        48000
    } else if sample_rate_index == 2 {
        32000
    } else {
        0
    };
    let frame_size: usize = if bitrate > 0 && sample_rate > 0 {
        ((144 * bitrate * 1000) / sample_rate) as usize
    } else {
        0
    };
    Ok(
        Mp3FrameHeader {
            version,
            layer,
            bitrate,
            sample_rate,
            channel_mode,
            frame_size,
        },
    )
}

/// Bytes of the leading window inspected for a metadata tag.
pub const HEAD_WINDOW_BYTES: usize = 4096;

/// Bytes of the window scanned for frame headers.
pub const FRAME_WINDOW_BYTES: usize = 8192;

/// How many frame headers are sampled per file.
pub const MAX_SAMPLED_FRAMES: usize = 5;

/// Distance from the end of file at which a trailing legacy tag's
/// marker sits.
pub const TRAILING_TAG_OFFSET: usize = 128;

/// Diagnostic summary of one file. Transient: never persisted and
/// never fed back into playback decisions.
#[derive(Debug, PartialEq)]
pub struct Mp3FileInfo {
    pub file_size: u64,
    pub has_id3v2: bool,
    pub has_id3v1: bool,
    pub first_frame_offset: Option<u64>,
    pub frame_headers: Vec<Mp3FrameHeader>,
    /// Estimated duration in milliseconds.
    pub estimated_duration: u64,
    pub issues: Vec<String>,
}

/// Whether the file opens with the three-byte leading tag marker.
pub open spec fn spec_has_id3v2(data: Seq<u8>) -> bool {
    data.len() >= 3 && data[0] == 73u8 && data[1] == 68u8 && data[2] == 51u8
}

/// The size of the leading tag, read as a synchsafe integer from its
/// header.
pub open spec fn spec_tag_size(data: Seq<u8>) -> u32
    recommends
        data.len() >= 10,
{
    spec_synchsafe(data[6], data[7], data[8], data[9])
}

/// Offset of the first audio frame: past the ten-byte tag header and
/// the tag body when a leading tag is present, zero otherwise.
pub open spec fn spec_start_offset(data: Seq<u8>) -> int {
    if spec_has_id3v2(data) {
        10 + spec_tag_size(data)
    } else {
        0
    }
}

/// Whether the trailing legacy tag marker sits at its fixed distance
/// from the end of file.
pub open spec fn spec_has_id3v1(data: Seq<u8>) -> bool {
    data.len() >= TRAILING_TAG_OFFSET && data[data.len() - TRAILING_TAG_OFFSET] == 84u8 && data[
        data.len() - TRAILING_TAG_OFFSET + 1
    ] == 65u8 && data[data.len() - TRAILING_TAG_OFFSET + 2] == 71u8
}

/// The frame headers found scanning the window from offset `i` with
/// `room` samples left: one header per frame-sync position, stopping
/// when the sample budget is spent.
pub open spec fn spec_scan_frames(w: Seq<u8>, i: int, room: int) -> Seq<Mp3FrameHeader>
    decreases w.len() - i,
{
    if i < 0 || i >= w.len() - 4 || room <= 0 {
        Seq::<Mp3FrameHeader>::empty()
    } else if sync_at(w, i) {
        seq![spec_frame_header(w[i], w[i + 1], w[i + 2], w[i + 3])] + spec_scan_frames(
            w,
            i + 1,
            room - 1,
        )
    } else {
        spec_scan_frames(w, i + 1, room)
    }
}

/// Estimated duration in milliseconds from the file size and the first
/// frame's figures: the frame count times the frame period, saturated
/// to the field's range; zero when the first frame gives no usable
/// figures.
pub open spec fn spec_duration_ms(file_size: nat, h: Mp3FrameHeader) -> int {
    if h.frame_size > 0 && h.sample_rate > 0 {
        let q = file_size * 1152000 / ((h.frame_size as nat) * (h.sample_rate as nat));
        if q > u64::MAX {
            u64::MAX as int
        } else {
            q as int
        }
    } else {
        0
    }
}

/// The text reporting a bitrate that differs from the first frame's.
pub open spec fn vbr_issue_text(i: int, found: u32, first: u32) -> Seq<char> {
    "Variable bitrate detected (frame "@ + dec_chars(i as nat) + ": "@ + dec_chars(found as nat)
        + " kbps vs "@ + dec_chars(first as nat) + " kbps)"@
}

/// The text reporting a sample rate that differs from the first
/// frame's.
pub open spec fn vsr_issue_text(i: int, found: u32, first: u32) -> Seq<char> {
    "Variable sample rate detected (frame "@ + dec_chars(i as nat) + ": "@ + dec_chars(
        found as nat,
    ) + " Hz vs "@ + dec_chars(first as nat) + " Hz)"@
}

/// The texts reporting sampled frames whose bitrate or sample rate
/// differs from the first frame's, from frame `i` on.
pub open spec fn spec_consistency_issues(hs: Seq<Mp3FrameHeader>, i: int) -> Seq<Seq<char>>
    decreases hs.len() - i,
{
    if i < 1 || i >= hs.len() {
        Seq::<Seq<char>>::empty()
    } else {
        (if hs[i].bitrate != hs[0].bitrate {
            seq![vbr_issue_text(i, hs[i].bitrate, hs[0].bitrate)]
        } else {
            Seq::<Seq<char>>::empty()
        }) + (if hs[i].sample_rate != hs[0].sample_rate {
            seq![vsr_issue_text(i, hs[i].sample_rate, hs[0].sample_rate)]
        } else {
            Seq::<Seq<char>>::empty()
        }) + spec_consistency_issues(hs, i + 1)
    }
}

/// All anomaly texts of a file: no frames found, no leading tag, then
/// every inconsistency among the sampled frames.
pub open spec fn spec_issues(hs: Seq<Mp3FrameHeader>, has_id3v2: bool) -> Seq<Seq<char>> {
    (if hs.len() == 0 {
        seq!["No valid MP3 frames found"@]
    } else {
        Seq::<Seq<char>>::empty()
    }) + (if !has_id3v2 {
        seq!["No ID3v2 tag found, file may start with invalid data"@]
    } else {
        Seq::<Seq<char>>::empty()
    }) + spec_consistency_issues(hs, 1)
}

/// Analyze a file's bytes: detect the leading and trailing tags, sample
/// up to [`MAX_SAMPLED_FRAMES`] frame headers past the leading tag,
/// estimate the duration, and list anomalies. Fails exactly when the
/// file is shorter than the head window, or too short to hold a full
/// frame window after the leading tag.
pub fn analyze_mp3_file(data: &Vec<u8>) -> (r: Result<Mp3FileInfo, String>)
    ensures
        data@.len() < HEAD_WINDOW_BYTES ==> (r matches Err(m) && m@
            == "file too small to analyze"@),
        data@.len() >= HEAD_WINDOW_BYTES && spec_start_offset(data@) + FRAME_WINDOW_BYTES
            > data@.len() ==> (r matches Err(m) && m@
            == "no full frame window after the leading tag"@),
        data@.len() >= HEAD_WINDOW_BYTES && spec_start_offset(data@) + FRAME_WINDOW_BYTES
            <= data@.len() ==> (r matches Ok(info) && {
            let w = data@.subrange(
                spec_start_offset(data@),
                spec_start_offset(data@) + FRAME_WINDOW_BYTES,
            );
            let hs = spec_scan_frames(w, 0, MAX_SAMPLED_FRAMES as int);
            &&& info.file_size == data@.len()
            &&& info.has_id3v2 == spec_has_id3v2(data@)
            &&& info.has_id3v1 == spec_has_id3v1(data@)
            &&& info.first_frame_offset == (if spec_has_id3v2(data@) {
                Some(spec_start_offset(data@) as u64)
            } else {
                None::<u64>
            })
            &&& info.frame_headers@ == hs
            &&& info.estimated_duration == (if hs.len() > 0 {
                spec_duration_ms(data@.len(), hs[0])
            } else {
                0
            })
            &&& info.issues.deep_view() == spec_issues(hs, spec_has_id3v2(data@))
        }),
{
    let n = data.len();
    if n < HEAD_WINDOW_BYTES {
        return Err(String::from_str("file too small to analyze"));
    }
    let head: &[u8] = data.as_slice();
    let has_id3v2 = head[0] == 73 && head[1] == 68 && head[2] == 51;
    let start: u64 = if has_id3v2 {
        let tag_size = parse_id3v2_size(&head[6..10]);
        10 + tag_size as u64
    } else {
        0
    };
    if start + FRAME_WINDOW_BYTES as u64 > n as u64 {
        return Err(String::from_str("no full frame window after the leading tag"));
    }
    let has_id3v1 = head[n - TRAILING_TAG_OFFSET] == 84 && head[n - TRAILING_TAG_OFFSET + 1] == 65
        && head[n - TRAILING_TAG_OFFSET + 2] == 71;
    let start_usize: usize = start as usize;
    let window: &[u8] = &head[start_usize..start_usize + FRAME_WINDOW_BYTES];
    let ghost w = window@;
    let mut frame_headers: Vec<Mp3FrameHeader> = Vec::new();
    let mut i: usize = 0;
    proof {
        assert(frame_headers@ + spec_scan_frames(w, 0, MAX_SAMPLED_FRAMES as int)
            =~= spec_scan_frames(w, 0, MAX_SAMPLED_FRAMES as int));
    }
    while i < FRAME_WINDOW_BYTES - 4 && frame_headers.len() < MAX_SAMPLED_FRAMES
        invariant
            w == window@,
            w.len() == FRAME_WINDOW_BYTES,
            i <= FRAME_WINDOW_BYTES - 4,
            frame_headers@.len() <= MAX_SAMPLED_FRAMES,
            spec_scan_frames(w, 0, MAX_SAMPLED_FRAMES as int) == frame_headers@ + spec_scan_frames(
                w,
                i as int,
                MAX_SAMPLED_FRAMES - frame_headers@.len(),
            ),
        decreases FRAME_WINDOW_BYTES - 4 - i,
    {
        let ghost room = MAX_SAMPLED_FRAMES - frame_headers@.len();
        if window[i] == 0xFF && (window[i + 1] & 0xE0) == 0xE0 {
            let four: &[u8] = &window[i..i + 4];
            proof {
                assert(four@ =~= w.subrange(i as int, i + 4));
                assert(four@[0] == w[i as int]);
                assert(four@[1] == w[i + 1]);
                assert(four@[2] == w[i + 2]);
                assert(four@[3] == w[i + 3]);
            }
            match parse_mp3_frame_header(four) {
                Ok(h) => {
                    frame_headers.push(h);
                    proof {
                        assert(seq![spec_frame_header(w[i as int], w[i + 1], w[i + 2], w[i + 3])]
                            + spec_scan_frames(w, i + 1, room - 1) =~= spec_scan_frames(
                            w,
                            i as int,
                            room,
                        ));
                        assert(spec_scan_frames(w, 0, MAX_SAMPLED_FRAMES as int) =~= frame_headers@
                            + spec_scan_frames(w, i + 1, MAX_SAMPLED_FRAMES - frame_headers@.len()));
                    }
                },
                Err(_) => {
                    proof {
                        assert(false);
                    }
                },
            }
        }
        i = i + 1;
    }
    proof {
        assert(spec_scan_frames(w, i as int, MAX_SAMPLED_FRAMES - frame_headers@.len())
            =~= Seq::<Mp3FrameHeader>::empty());
        assert(frame_headers@ + Seq::<Mp3FrameHeader>::empty() =~= frame_headers@);
    }
    let estimated_duration: u64 = if frame_headers.len() > 0 {
        let h = frame_headers[0];
        if h.frame_size > 0 && h.sample_rate > 0 {
            proof {
                assert((h.frame_size as int) * (h.sample_rate as int) <= (usize::MAX as int) * (
                u32::MAX as int) && (h.frame_size as int) * (h.sample_rate as int) > 0)
                    by (nonlinear_arith)
                    requires
                        0 < h.frame_size as int <= usize::MAX as int,
                        0 < h.sample_rate as int <= u32::MAX as int,
                ;
            }
            let denom: u128 = (h.frame_size as u128) * (h.sample_rate as u128);
            let q: u128 = (n as u128) * 1152000 / denom;
            if q > u64::MAX as u128 {
                u64::MAX
            } else {
                q as u64
            }
        } else {
            0
        }
    } else {
        0
    };
    let ghost hs = frame_headers@;
    let mut issues: Vec<String> = Vec::new();
    if frame_headers.len() == 0 {
        issues.push(String::from_str("No valid MP3 frames found"));
    }
    if !has_id3v2 {
        issues.push(String::from_str("No ID3v2 tag found, file may start with invalid data"));
    }
    proof {
        assert(issues.deep_view() + spec_consistency_issues(hs, 1) =~~= spec_issues(
            hs,
            has_id3v2,
        ));
    }
    let first_bitrate: u32 = if frame_headers.len() > 0 {
        frame_headers[0].bitrate
    } else {
        0
    };
    let first_sample_rate: u32 = if frame_headers.len() > 0 {
        frame_headers[0].sample_rate
    } else {
        0
    };
    let mut k: usize = 1;
    while k < frame_headers.len()
        invariant
            hs == frame_headers@,
            1 <= k,
            frame_headers@.len() > 0 ==> first_bitrate == hs[0].bitrate && first_sample_rate
                == hs[0].sample_rate,
            k <= frame_headers@.len() || k == 1,
            issues.deep_view() + spec_consistency_issues(hs, k as int) =~~= spec_issues(
                hs,
                has_id3v2,
            ),
        decreases frame_headers@.len() - k,
    {
        let h = frame_headers[k];
        if h.bitrate != first_bitrate {
            let s = String::from_str("Variable bitrate detected (frame ").concat(
                decimal_string(k as u64).as_str(),
            ).concat(": ").concat(decimal_string(h.bitrate as u64).as_str()).concat(
                " kbps vs ",
            ).concat(decimal_string(first_bitrate as u64).as_str()).concat(" kbps)");
            proof {
                assert(s@ == vbr_issue_text(k as int, hs[k as int].bitrate, hs[0].bitrate));
            }
            issues.push(s);
        }
        if h.sample_rate != first_sample_rate {
            let s = String::from_str("Variable sample rate detected (frame ").concat(
                decimal_string(k as u64).as_str(),
            ).concat(": ").concat(decimal_string(h.sample_rate as u64).as_str()).concat(
                " Hz vs ",
            ).concat(decimal_string(first_sample_rate as u64).as_str()).concat(" Hz)");
            proof {
                assert(s@ == vsr_issue_text(k as int, hs[k as int].sample_rate, hs[0].sample_rate));
            }
            issues.push(s);
        }
        proof {
            assert(issues.deep_view() + spec_consistency_issues(hs, k + 1) =~~= spec_issues(
                hs,
                has_id3v2,
            ));
        }
        k = k + 1;
    }
    proof {
        assert(issues.deep_view() =~~= spec_issues(hs, has_id3v2));
    }
    Ok(
        Mp3FileInfo {
            file_size: n as u64,
            has_id3v2,
            has_id3v1,
            first_frame_offset: if has_id3v2 {
                Some(start)
            } else {
                None
            },
            frame_headers,
            estimated_duration,
            issues,
        },
    )
}

/// The text of a boolean in a report line.
pub open spec fn spec_bool_chars(b: bool) -> Seq<char> {
    if b {
        "true"@
    } else {
        "false"@
    }
}

/// The name of a channel mode in a report line.
pub open spec fn spec_channel_mode_chars(m: ChannelMode) -> Seq<char> {
    match m {
        ChannelMode::Stereo => "Stereo"@,
        ChannelMode::JointStereo => "JointStereo"@,
        ChannelMode::DualChannel => "DualChannel"@,
        ChannelMode::Mono => "Mono"@,
    }
}

/// The issue lines of a report, one `- issue` line per anomaly, from
/// index `i` on.
pub open spec fn spec_issue_lines(texts: Seq<Seq<char>>, i: int) -> Seq<char>
    decreases texts.len() - i,
{
    if i < 0 || i >= texts.len() {
        Seq::<char>::empty()
    } else {
        "- "@ + texts[i] + "\n"@ + spec_issue_lines(texts, i + 1)
    }
}

/// The duration of a report rendered in seconds with two fractional
/// digits, rounded to the nearest hundredth with halves upward.
pub open spec fn spec_duration_chars(ms: u64) -> Seq<char> {
    let cs = ms as int / 10 + (if ms as int % 10 >= 5 {
        1int
    } else {
        0int
    });
    dec_chars((cs / 100) as nat) + "."@ + dec_chars_2((cs % 100) as nat)
}

/// The size, tag and offset lines that open every report.
pub open spec fn spec_report_head(info: Mp3FileInfo) -> Seq<char> {
    "File size: "@ + dec_chars(info.file_size as nat) + " bytes\n"@ + "Has ID3v2 tag: "@
        + spec_bool_chars(info.has_id3v2) + "\n"@ + "Has ID3v1 tag: "@ + spec_bool_chars(
        info.has_id3v1,
    ) + "\n"@ + (match info.first_frame_offset {
        Some(o) => "First frame offset: "@ + dec_chars(o as nat) + " bytes\n"@,
        None => Seq::<char>::empty(),
    }) + "Frames analyzed: "@ + dec_chars(info.frame_headers@.len()) + "\n"@
}

/// The first frame's figures, present when a frame was found.
pub open spec fn spec_report_frame(info: Mp3FileInfo) -> Seq<char> {
    if info.frame_headers@.len() > 0 {
        let h = info.frame_headers@[0];
        "Bitrate: "@ + dec_chars(h.bitrate as nat) + " kbps\n"@ + "Sample rate: "@ + dec_chars(
            h.sample_rate as nat,
        ) + " Hz\n"@ + "Channel mode: "@ + spec_channel_mode_chars(h.channel_mode) + "\n"@
            + "Estimated duration: "@ + spec_duration_chars(info.estimated_duration)
            + " seconds\n"@
    } else {
        Seq::<char>::empty()
    }
}

/// The anomaly list, present when it is not empty.
pub open spec fn spec_report_issues(info: Mp3FileInfo) -> Seq<char> {
    if info.issues@.len() > 0 {
        "\nPotential issues:\n"@ + spec_issue_lines(info.issues.deep_view(), 0)
    } else {
        Seq::<char>::empty()
    }
}

/// The whole report of an analysis: size and tag lines, the first
/// frame's figures when one was found, and the anomaly list when it is
/// not empty.
pub open spec fn spec_report(info: Mp3FileInfo) -> Seq<char> {
    spec_report_head(info) + spec_report_frame(info) + spec_report_issues(info)
}

impl Mp3FileInfo {
    /// The opening lines of the report.
    fn render_head(&self) -> (r: String)
        ensures
            r@ == spec_report_head(*self),
    {
        let mut out = String::from_str("File size: ");
        out.append(decimal_string(self.file_size).as_str());
        out.append(" bytes\n");
        out.append("Has ID3v2 tag: ");
        out.append(bool_string(self.has_id3v2));
        out.append("\n");
        out.append("Has ID3v1 tag: ");
        out.append(bool_string(self.has_id3v1));
        out.append("\n");
        if let Some(offset) = self.first_frame_offset {
            out.append("First frame offset: ");
            out.append(decimal_string(offset).as_str());
            out.append(" bytes\n");
        }
        out.append("Frames analyzed: ");
        out.append(decimal_string(self.frame_headers.len() as u64).as_str());
        out.append("\n");
        proof {
            assert(out@ =~= spec_report_head(*self));
        }
        out
    }

    /// The first frame's lines of the report.
    fn render_frame(&self) -> (r: String)
        ensures
            r@ == spec_report_frame(*self),
    {
        let mut out = String::new();
        if self.frame_headers.len() > 0 {
            let h = self.frame_headers[0];
            out.append("Bitrate: ");
            out.append(decimal_string(h.bitrate as u64).as_str());
            out.append(" kbps\n");
            out.append("Sample rate: ");
            out.append(decimal_string(h.sample_rate as u64).as_str());
            out.append(" Hz\n");
            out.append("Channel mode: ");
            out.append(
                match h.channel_mode {
                    ChannelMode::Stereo => "Stereo",
                    ChannelMode::JointStereo => "JointStereo",
                    ChannelMode::DualChannel => "DualChannel",
                    ChannelMode::Mono => "Mono",
                },
            );
            out.append("\n");
            out.append("Estimated duration: ");
            let centis: u64 = self.estimated_duration / 10 + if self.estimated_duration % 10 >= 5 {
                1
            } else {
                0
            };
            out.append(decimal_string(centis / 100).as_str());
            out.append(".");
            out.append(decimal_string_2(centis % 100).as_str());
            out.append(" seconds\n");
        }
        proof {
            assert(out@ =~= spec_report_frame(*self));
        }
        out
    }

    /// The anomaly lines of the report.
    fn render_issues(&self) -> (r: String)
        ensures
            r@ == spec_report_issues(*self),
    {
        let mut out = String::new();
        if self.issues.len() > 0 {
            out.append("\nPotential issues:\n");
            let ghost before_lines = out@;
            let mut k: usize = 0;
            while k < self.issues.len()
                invariant
                    out@ + spec_issue_lines(self.issues.deep_view(), k as int) == before_lines
                        + spec_issue_lines(self.issues.deep_view(), 0),
                    k <= self.issues@.len(),
                decreases self.issues@.len() - k,
            {
                let ghost before_step = out@;
                out.append("- ");
                let issue = vstd::slice::slice_index_get(self.issues.as_slice(), k);
                out.append(issue.as_str());
                out.append("\n");
                proof {
                    assert(out@ + spec_issue_lines(self.issues.deep_view(), k + 1) =~= before_step
                        + spec_issue_lines(self.issues.deep_view(), k as int));
                }
                k = k + 1;
            }
            proof {
                assert(spec_issue_lines(self.issues.deep_view(), self.issues@.len() as int)
                    =~= Seq::<char>::empty());
                assert(out@ =~= spec_report_issues(*self));
            }
        } else {
            proof {
                assert(out@ =~= spec_report_issues(*self));
            }
        }
        out
    }

    /// Render the analysis as the text shown to users.
    pub fn format_analysis(&self) -> (r: String)
        ensures
            r@ == spec_report(*self),
    {
        let mut out = self.render_head();
        out.append(self.render_frame().as_str());
        out.append(self.render_issues().as_str());
        out
    }
}

} // verus!
