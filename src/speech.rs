//! The speech backend's stand-in: it answers `wav` requests with a tone in a
//! PCM WAV container and refuses every other format.

use vstd::prelude::*;
use crate::model::TtsRequest;
use crate::registry::same_text;
use crate::translate::OutboundResponse;

verus! {

/// Little-endian bytes of a 16-bit value.
pub open spec fn le16(v: u16) -> Seq<u8> {
    seq![(v % 256) as u8, (v / 256) as u8]
}

/// Little-endian bytes of a 32-bit value.
pub open spec fn le32(v: u32) -> Seq<u8> {
    seq![
        (v % 256) as u8,
        ((v / 256) % 256) as u8,
        ((v / 65536) % 256) as u8,
        (v / 16777216) as u8,
    ]
}

/// A sample's two's-complement bit pattern.
pub open spec fn sample_bits(s: i16) -> u16 {
    if s < 0 {
        (s + 65536) as u16
    } else {
        s as u16
    }
}

/// The samples, two little-endian bytes each.
pub open spec fn sample_bytes(samples: Seq<i16>) -> Seq<u8>
    decreases samples.len(),
{
    if samples.len() == 0 {
        Seq::empty()
    } else {
        sample_bytes(samples.drop_last()) + le16(sample_bits(samples.last()))
    }
}

/// The 44-byte header of a mono 16-bit PCM WAV file holding `n` samples.
pub open spec fn wav_header(sample_rate: u32, n: nat) -> Seq<u8> {
    seq![82u8, 73, 70, 70] + le32((36 + 2 * n) as u32) + seq![87u8, 65, 86, 69] + seq![
        102u8,
        109,
        116,
        32,
    ] + le32(16) + le16(1) + le16(1) + le32(sample_rate) + le32((sample_rate * 2) as u32) + le16(2)
        + le16(16) + seq![100u8, 97, 116, 97] + le32((2 * n) as u32)
}

/// A mono 16-bit PCM WAV file of the samples.
pub open spec fn wav_file(sample_rate: u32, samples: Seq<i16>) -> Seq<u8> {
    wav_header(sample_rate, samples.len()) + sample_bytes(samples)
}

/// Appends the little-endian bytes of `v`.
pub fn push_le16(out: &mut Vec<u8>, v: u16)
    ensures
        final(out)@ == old(out)@ + le16(v),
{
    out.push((v % 256) as u8);
    out.push((v / 256) as u8);
    assert(final(out)@ =~= old(out)@ + le16(v));
}

/// Appends the little-endian bytes of `v`.
pub fn push_le32(out: &mut Vec<u8>, v: u32)
    ensures
        final(out)@ == old(out)@ + le32(v),
{
    out.push((v % 256) as u8);
    out.push(((v / 256) % 256) as u8);
    out.push(((v / 65536) % 256) as u8);
    out.push((v / 16777216) as u8);
    assert(final(out)@ =~= old(out)@ + le32(v));
}

/// Appends four bytes.
pub fn push_tag(out: &mut Vec<u8>, a: u8, b: u8, c: u8, d: u8)
    ensures
        final(out)@ == old(out)@ + seq![a, b, c, d],
{
    out.push(a);
    out.push(b);
    out.push(c);
    out.push(d);
    assert(final(out)@ =~= old(out)@ + seq![a, b, c, d]);
}

/// A sample's two's-complement bit pattern.
pub fn bits_of_sample(s: i16) -> (r: u16)
    ensures
        r == sample_bits(s),
{
    if s < 0 {
        (s as i32 + 65536) as u16
    } else {
        s as u16
    }
}

/// The samples as a mono 16-bit PCM WAV file at `sample_rate` samples a
/// second: the 44-byte header, then each sample in little-endian order.
pub fn wav_from_samples(sample_rate: u32, samples: &Vec<i16>) -> (r: Vec<u8>)
    requires
        36 + 2 * samples@.len() <= u32::MAX,
        2 * sample_rate <= u32::MAX,
    ensures
        r@ == wav_file(sample_rate, samples@),
        r@.len() == 44 + 2 * samples@.len(),
{
    let n = samples.len();
    let data_size: u32 = (2 * n) as u32;
    let mut wav: Vec<u8> = Vec::new();
    push_tag(&mut wav, 82, 73, 70, 70);
    push_le32(&mut wav, 36 + data_size);
    push_tag(&mut wav, 87, 65, 86, 69);
    push_tag(&mut wav, 102, 109, 116, 32);
    push_le32(&mut wav, 16);
    push_le16(&mut wav, 1);
    push_le16(&mut wav, 1);
    push_le32(&mut wav, sample_rate);
    push_le32(&mut wav, sample_rate * 2);
    push_le16(&mut wav, 2);
    push_le16(&mut wav, 16);
    push_tag(&mut wav, 100, 97, 116, 97);
    push_le32(&mut wav, data_size);
    let ghost header = wav@;
    assert(header =~= wav_header(sample_rate, n as nat));
    assert(samples@.subrange(0, 0) =~= Seq::<i16>::empty());
    assert(wav@ =~= header + sample_bytes(samples@.subrange(0, 0)));
    let mut i: usize = 0;
    while i < n
        invariant
            n == samples@.len(),
            i <= n,
            header == wav_header(sample_rate, n as nat),
            header.len() == 44,
            wav@ == header + sample_bytes(samples@.subrange(0, i as int)),
            sample_bytes(samples@.subrange(0, i as int)).len() == 2 * i,
        decreases n - i,
    {
        let bits = bits_of_sample(samples[i]);
        push_le16(&mut wav, bits);
        assert(samples@.subrange(0, i + 1).drop_last() =~= samples@.subrange(0, i as int));
        assert(wav@ =~= header + sample_bytes(samples@.subrange(0, i + 1)));
        i += 1;
    }
    assert(samples@.subrange(0, n as int) =~= samples@);
    wav
}

/// What the stand-in does with a speech request.
#[derive(Clone, Copy, PartialEq, Eq, Structural)]
pub enum SpeechAnswer {
    /// Send the tone as WAV.
    Tone,
    /// Refuse the requested format.
    UnsupportedFormat,
}

/// The format asked for; `wav` when the request names none.
pub open spec fn requested_format(req: (Seq<char>, Option<Seq<char>>, Option<Seq<char>>)) -> Seq<char> {
    match req.2 {
        Some(f) => f,
        None => "wav"@,
    }
}

/// Only `wav` is produced.
pub fn decide_speech(req: &TtsRequest) -> (r: SpeechAnswer)
    ensures
        r == (if requested_format(req@) == "wav"@ {
            SpeechAnswer::Tone
        } else {
            SpeechAnswer::UnsupportedFormat
        }),
{
    let wav = match &req.format {
        Some(f) => same_text(f.as_str(), "wav"),
        None => true,
    };
    if wav {
        SpeechAnswer::Tone
    } else {
        SpeechAnswer::UnsupportedFormat
    }
}

/// The stand-in's reply: 200 with the WAV bytes as `audio/wav`, or 400 with a
/// short plain-text reason.
pub fn speech_response(answer: SpeechAnswer, wav: Vec<u8>) -> (r: OutboundResponse)
    ensures
        answer == SpeechAnswer::Tone ==> r.status == 200 && r.content_type@ == "audio/wav"@ && r.body@
            == wav@,
        answer == SpeechAnswer::UnsupportedFormat ==> r.status == 400 && r.content_type@
            == "text/plain; charset=utf-8"@ && r.body@ == vstd::utf8::encode_utf8(
            "Unsupported format; only 'wav' is implemented"@,
        ),
{
    match answer {
        SpeechAnswer::Tone => OutboundResponse {
            status: 200,
            content_type: String::from_str("audio/wav"),
            body: wav,
        },
        SpeechAnswer::UnsupportedFormat => OutboundResponse {
            status: 400,
            content_type: String::from_str("text/plain; charset=utf-8"),
            body: "Unsupported format; only 'wav' is implemented".as_bytes_vec(),
        },
    }
}

} // verus!
