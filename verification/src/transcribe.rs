//! The transcription request's decisions: what the service's answer means,
//! how long a recording is, and what a minute of it costs. Sending the
//! request happens outside the library.
use vstd::prelude::*;
use crate::http_status::{is_success_status, status_display, status_text};
use crate::text::{same_text, trim_text, trimmed};

verus! {

/// What the transcription service's answer means: on success the returned
/// text without surrounding whitespace, otherwise an error naming the status
/// and the body.
pub fn transcription_outcome(status: u16, body: &str) -> (outcome: Result<String, String>)
    ensures
        200 <= status < 300 ==> (outcome matches Ok(t) && t@ == trimmed(body@)),
        !(200 <= status < 300) ==> (outcome matches Err(e) && e@ == "Whisper API error ("@
            + status_text(status) + "): "@ + body@),
{
    if is_success_status(status) {
        Ok(trim_text(body))
    } else {
        let mut e = String::from_str("Whisper API error (");
        let shown = status_display(status);
        e.append(shown.as_str());
        e.append("): ");
        e.append(body);
        Err(e)
    }
}

/// The little-endian 16-bit number at byte `i`.
pub open spec fn le_u16(b: Seq<u8>, i: int) -> int {
    b[i] + 256 * b[i + 1]
}

/// The little-endian 32-bit number at byte `i`.
pub open spec fn le_u32(b: Seq<u8>, i: int) -> int {
    b[i] + 256 * b[i + 1] + 65536 * b[i + 2] + 16777216 * b[i + 3]
}

/// The WAV header fields a duration is computed from: the sample rate at
/// byte 24, the bits per sample at byte 34 and the channel count at byte 22.
pub open spec fn header_rate(b: Seq<u8>) -> int {
    le_u32(b, 24)
}

/// A header that stores a sample rate `r` at byte 24, least significant byte
/// first over four bytes, is read back as the rate `r`, for every 32-bit rate.
pub proof fn lemma_header_rate_reads_back(b: Seq<u8>, r: u32)
    requires
        b.len() >= 28,
        b[24] == r % 256,
        b[25] == (r / 256) % 256,
        b[26] == (r / 65536) % 256,
        b[27] == r / 16777216,
    ensures
        header_rate(b) == r,
{
    assert(r == r % 256 + 256 * ((r / 256) % 256) + 65536 * ((r / 65536) % 256) + 16777216 * (r
        / 16777216)) by (bit_vector);
}

pub open spec fn header_bits(b: Seq<u8>) -> int {
    le_u16(b, 34)
}

pub open spec fn header_channels(b: Seq<u8>) -> int {
    le_u16(b, 22)
}

/// The header is complete and names a rate, a sample width and a channel
/// count, none of them zero.
pub open spec fn has_usable_header(b: Seq<u8>) -> bool {
    &&& b.len() >= 44
    &&& header_rate(b) != 0
    &&& header_bits(b) != 0
    &&& header_channels(b) != 0
}

/// The number of sample frames after the 44-byte header: the data bytes
/// (the length, taken modulo 2^32, less 44, but not below 0) divided by the
/// bytes per frame.
pub open spec fn frame_count(b: Seq<u8>) -> int {
    let len32 = (b.len() as usize) as u32;
    let data = if len32 >= 44 {
        len32 - 44
    } else {
        0
    };
    data / ((header_bits(b) / 8) * header_channels(b))
}

/// The sample frames and the sample rate of a WAV recording, from which its
/// duration is frames / rate seconds; `None` when the header is too short or
/// names a zero rate, width or channel count (the duration is then zero).
/// A header naming fewer than 8 bits per sample is left out: it has no whole
/// bytes per sample.
pub fn wav_frames(wav: &[u8]) -> (frames: Option<(u32, u32)>)
    requires
        has_usable_header(wav@) ==> header_bits(wav@) >= 8,
    ensures
        has_usable_header(wav@) ==> frames == Some(
            (frame_count(wav@) as u32, header_rate(wav@) as u32),
        ),
        !has_usable_header(wav@) ==> frames is None,
{
    if wav.len() < 44 {
        return None;
    }
    let rate: u32 = wav[24] as u32 + 256 * (wav[25] as u32) + 65536 * (wav[26] as u32) + 16777216
        * (wav[27] as u32);
    let bits: u32 = wav[34] as u32 + 256 * (wav[35] as u32);
    let channels: u32 = wav[22] as u32 + 256 * (wav[23] as u32);
    if rate == 0 || bits == 0 || channels == 0 {
        return None;
    }
    let bytes_per_sample: u32 = bits / 8;
    let len32: u32 = wav.len() as u32;
    let data: u32 = if len32 >= 44 {
        len32 - 44
    } else {
        0
    };
    proof {
        assert(bytes_per_sample >= 1);
        assert(bytes_per_sample <= 8191);
        assert(bytes_per_sample * channels <= 8191 * 65535) by (nonlinear_arith)
            requires
                bytes_per_sample <= 8191,
                channels <= 65535,
        ;
        assert(bytes_per_sample * channels >= 1) by (nonlinear_arith)
            requires
                bytes_per_sample >= 1,
                channels >= 1,
        ;
    }
    let per_frame: u32 = bytes_per_sample * channels;
    Some((data / per_frame, rate))
}

/// The price of a minute of audio, in millionths of a dollar:
/// `gpt-4o-mini-transcribe` costs 3000, every other model 6000.
pub fn price_per_minute_micros(model: &str) -> (micros: u32)
    ensures
        model@ == "gpt-4o-mini-transcribe"@ ==> micros == 3000,
        model@ != "gpt-4o-mini-transcribe"@ ==> micros == 6000,
{
    if same_text(model, "gpt-4o-mini-transcribe") {
        3000
    } else {
        6000
    }
}

} // verus!
