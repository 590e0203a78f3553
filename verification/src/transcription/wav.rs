//! In-memory WAV files: 16-bit mono PCM behind a canonical 44-byte RIFF header.
use vstd::prelude::*;

verus! {

/// The little-endian bytes of a 16-bit value.
pub open spec fn le16(x: u16) -> Seq<u8> {
    seq![(x % 256) as u8, (x / 256) as u8]
}

/// The little-endian bytes of a 32-bit value.
pub open spec fn le32(x: u32) -> Seq<u8> {
    seq![(x % 256) as u8, ((x / 256) % 256) as u8, ((x / 65536) % 256) as u8, (x / 16777216) as u8]
}

/// The canonical header of a mono 16-bit PCM WAV file holding `n` samples at `rate` Hz.
pub open spec fn wav_header(n: nat, rate: u32) -> Seq<u8> {
    let data_size = (n * 2) as u32;
    "RIFF"@.map_values(|c: char| c as u8) + le32((36 + data_size) as u32) + "WAVE"@.map_values(
        |c: char| c as u8,
    ) + "fmt "@.map_values(|c: char| c as u8) + le32(16) + le16(1) + le16(1) + le32(rate) + le32(
        (rate * 2) as u32,
    ) + le16(2) + le16(16) + "data"@.map_values(|c: char| c as u8) + le32(data_size)
}

/// The sample bytes of a 16-bit PCM stream: each sample in two's complement, little-endian.
pub open spec fn pcm16_bytes(samples: Seq<i16>) -> Seq<u8>
    decreases samples.len(),
{
    if samples.len() == 0 {
        Seq::<u8>::empty()
    } else {
        pcm16_bytes(samples.drop_last()) + le16(samples.last() as u16)
    }
}

fn push_le16(buf: &mut Vec<u8>, x: u16)
    ensures
        final(buf)@ == old(buf)@ + le16(x),
{
    buf.push((x % 256) as u8);
    buf.push((x / 256) as u8);
    assert(final(buf)@ =~= old(buf)@ + le16(x));
}

fn push_le32(buf: &mut Vec<u8>, x: u32)
    ensures
        final(buf)@ == old(buf)@ + le32(x),
{
    buf.push((x % 256) as u8);
    buf.push(((x / 256) % 256) as u8);
    buf.push(((x / 65536) % 256) as u8);
    buf.push((x / 16777216) as u8);
    assert(final(buf)@ =~= old(buf)@ + le32(x));
}

fn push_tag(buf: &mut Vec<u8>, tag: &str)
    requires
        tag@.len() == 4,
    ensures
        final(buf)@ == old(buf)@ + tag@.map_values(|c: char| c as u8),
{
    let cs = crate::text::chars_of(tag);
    let mut i: usize = 0;
    while i < 4
        invariant
            i <= 4,
            cs@ == tag@,
            tag@.len() == 4,
            buf@ == old(buf)@ + tag@.take(i as int).map_values(|c: char| c as u8),
        decreases 4 - i,
    {
        let c = cs[i];
        buf.push(c as u8);
        assert(tag@.take(i + 1).map_values(|c: char| c as u8) =~= tag@.take(i as int).map_values(
            |c: char| c as u8,
        ).push(c as u8));
        i = i + 1;
    }
    assert(tag@.take(4) =~= tag@);
}

/// Appends the 16-bit little-endian bytes of `samples` to `buf`.
pub(crate) fn push_pcm16(buf: &mut Vec<u8>, samples: &[i16])
    ensures
        final(buf)@ == old(buf)@ + pcm16_bytes(samples@),
{
    let ghost start = buf@;
    let mut i: usize = 0;
    while i < samples.len()
        invariant
            i <= samples@.len(),
            buf@ == start + pcm16_bytes(samples@.take(i as int)),
        decreases samples@.len() - i,
    {
        let s = samples[i];
        push_le16(buf, s as u16);
        assert(samples@.take(i + 1).drop_last() =~= samples@.take(i as int));
        assert(buf@ =~= start + pcm16_bytes(samples@.take(i + 1)));
        i = i + 1;
    }
    assert(samples@.take(samples@.len() as int) =~= samples@);
}

/// Encodes 16-bit PCM mono samples as a WAV file: the 44-byte header (RIFF size 36 plus
/// the data size, `fmt ` chunk of 16 bytes for PCM format 1, one channel, `sample_rate`,
/// byte rate twice the sample rate, block align 2, 16 bits per sample, and the `data`
/// chunk of twice the sample count), then the samples.
pub fn encode_wav(samples: &[i16], sample_rate: u32) -> (buf: Vec<u8>)
    requires
        samples@.len() * 2 + 36 <= u32::MAX,
        sample_rate * 2 <= u32::MAX,
    ensures
        buf@ == wav_header(samples@.len(), sample_rate) + pcm16_bytes(samples@),
{
    let num_samples = samples.len() as u32;
    let data_size = num_samples * 2;
    let file_size = 36 + data_size;
    let mut buf: Vec<u8> = Vec::new();
    proof {
        reveal_strlit("RIFF");
        reveal_strlit("WAVE");
        reveal_strlit("fmt ");
        reveal_strlit("data");
    }
    push_tag(&mut buf, "RIFF");
    push_le32(&mut buf, file_size);
    push_tag(&mut buf, "WAVE");
    push_tag(&mut buf, "fmt ");
    push_le32(&mut buf, 16);
    push_le16(&mut buf, 1);
    push_le16(&mut buf, 1);
    push_le32(&mut buf, sample_rate);
    push_le32(&mut buf, sample_rate * 2);
    push_le16(&mut buf, 2);
    push_le16(&mut buf, 16);
    push_tag(&mut buf, "data");
    push_le32(&mut buf, data_size);
    assert(buf@ =~= wav_header(samples@.len(), sample_rate));
    push_pcm16(&mut buf, samples);
    buf
}

/// A WAV file of `n` samples is 44 header bytes followed by two bytes per sample.
pub proof fn law_wav_length(samples: Seq<i16>, rate: u32)
    ensures
        wav_header(samples.len(), rate).len() == 44,
        pcm16_bytes(samples).len() == 2 * samples.len(),
    decreases samples.len(),
{
    reveal_strlit("RIFF");
    reveal_strlit("WAVE");
    reveal_strlit("fmt ");
    reveal_strlit("data");
    if samples.len() > 0 {
        law_wav_length(samples.drop_last(), rate);
    }
}

/// The sample bytes of a stream are the bytes of its samples, in order: appending a
/// sample appends its two bytes.
pub proof fn law_pcm_appends(samples: Seq<i16>, s: i16)
    ensures
        pcm16_bytes(samples.push(s)) == pcm16_bytes(samples) + le16(s as u16),
{
    assert(samples.push(s).drop_last() =~= samples);
}

/// The unsigned 16-bit little-endian number at byte `i` of `b`.
pub open spec fn u16_at(b: Seq<u8>, i: int) -> int {
    b[i] as int + 256 * (b[i + 1] as int)
}

/// The unsigned 32-bit little-endian number at byte `i` of `b`.
pub open spec fn u32_at(b: Seq<u8>, i: int) -> int {
    u16_at(b, i) + 65536 * u16_at(b, i + 2)
}

/// Whether the four bytes at `i` of `b` spell the ASCII tag `tag`.
pub open spec fn tag_at(b: Seq<u8>, i: int, tag: Seq<char>) -> bool {
    b.subrange(i, i + 4) == tag.map_values(|c: char| c as u8)
}

proof fn lemma_le16_reads_back(x: u16)
    ensures
        u16_at(le16(x), 0) == x,
{
    assert((x % 256) + 256 * (x / 256) == x);
}

proof fn lemma_le32_reads_back(x: u32)
    ensures
        u32_at(le32(x), 0) == x,
{
    assert((x % 256) + 256 * ((x / 256) % 256) + 65536 * (((x / 65536) % 256) + 256 * (x
        / 16777216)) == x);
}

proof fn lemma_pcm_sample(samples: Seq<i16>, i: int)
    requires
        0 <= i < samples.len(),
    ensures
        pcm16_bytes(samples).len() == 2 * samples.len(),
        pcm16_bytes(samples).subrange(2 * i, 2 * i + 2) == le16(samples[i] as u16),
    decreases samples.len(),
{
    law_wav_length(samples, 0);
    let rest = samples.drop_last();
    law_wav_length(rest, 0);
    if i < samples.len() - 1 {
        lemma_pcm_sample(rest, i);
        assert(pcm16_bytes(samples).subrange(2 * i, 2 * i + 2) =~= pcm16_bytes(rest).subrange(
            2 * i,
            2 * i + 2,
        ));
    } else {
        assert(pcm16_bytes(samples).subrange(2 * i, 2 * i + 2) =~= le16(samples[i] as u16));
    }
}

/// A WAV file as `encode_wav` writes it describes its own contents: a `RIFF` file of type
/// `WAVE` whose size field counts the bytes after it; a `fmt ` chunk of 16 bytes for PCM
/// (format 1) with one channel of 16-bit samples at the given rate, whose block align is
/// the bytes of one frame (channels times bits over eight) and whose byte rate is the rate
/// times the block align; and a `data` chunk whose size is the bytes that follow, which
/// read back, two at a time, as the samples in order.
pub proof fn law_wav_header_fields(samples: Seq<i16>, rate: u32)
    requires
        samples.len() * 2 + 36 <= u32::MAX,
        rate * 2 <= u32::MAX,
    ensures
        ({
            let f = wav_header(samples.len(), rate) + pcm16_bytes(samples);
            &&& f.len() == 44 + 2 * samples.len()
            &&& tag_at(f, 0, "RIFF"@)
            &&& u32_at(f, 4) == f.len() - 8
            &&& tag_at(f, 8, "WAVE"@)
            &&& tag_at(f, 12, "fmt "@)
            &&& u32_at(f, 16) == 16
            &&& u16_at(f, 20) == 1
            &&& u16_at(f, 22) == 1
            &&& u32_at(f, 24) == rate
            &&& u16_at(f, 34) == 16
            &&& u16_at(f, 32) == u16_at(f, 22) * u16_at(f, 34) / 8
            &&& u32_at(f, 28) == u32_at(f, 24) * u16_at(f, 32)
            &&& tag_at(f, 36, "data"@)
            &&& u32_at(f, 40) == f.len() - 44
            &&& forall|i: int| 0 <= i < samples.len() ==> u16_at(f, 44 + 2 * i) == (
                #[trigger] samples[i]) as u16
        }),
{
    let n = samples.len();
    law_wav_length(samples, rate);
    let h = wav_header(n, rate);
    let f = h + pcm16_bytes(samples);
    reveal_strlit("RIFF");
    reveal_strlit("WAVE");
    reveal_strlit("fmt ");
    reveal_strlit("data");
    let data_size = (n * 2) as u32;
    lemma_le32_reads_back((36 + data_size) as u32);
    lemma_le32_reads_back(16);
    lemma_le16_reads_back(1);
    lemma_le32_reads_back(rate);
    lemma_le32_reads_back((rate * 2) as u32);
    lemma_le16_reads_back(2);
    lemma_le16_reads_back(16);
    lemma_le32_reads_back(data_size);
    assert(f.subrange(0, 4) =~= "RIFF"@.map_values(|c: char| c as u8));
    assert(f.subrange(8, 12) =~= "WAVE"@.map_values(|c: char| c as u8));
    assert(f.subrange(12, 16) =~= "fmt "@.map_values(|c: char| c as u8));
    assert(f.subrange(36, 40) =~= "data"@.map_values(|c: char| c as u8));
    assert(u32_at(f, 4) == u32_at(le32((36 + data_size) as u32), 0));
    assert(u32_at(f, 16) == u32_at(le32(16), 0));
    assert(u16_at(f, 20) == u16_at(le16(1), 0));
    assert(u16_at(f, 22) == u16_at(le16(1), 0));
    assert(u32_at(f, 24) == u32_at(le32(rate), 0));
    assert(u32_at(f, 28) == u32_at(le32((rate * 2) as u32), 0));
    assert(u16_at(f, 32) == u16_at(le16(2), 0));
    assert(u16_at(f, 34) == u16_at(le16(16), 0));
    assert(u32_at(f, 40) == u32_at(le32(data_size), 0));
    assert forall|i: int| 0 <= i < samples.len() implies u16_at(f, 44 + 2 * i) == (
        #[trigger] samples[i]) as u16 by {
        lemma_pcm_sample(samples, i);
        let b = pcm16_bytes(samples);
        assert(f[44 + 2 * i] == b.subrange(2 * i, 2 * i + 2)[0]);
        assert(f[44 + 2 * i + 1] == b.subrange(2 * i, 2 * i + 2)[1]);
        lemma_le16_reads_back(samples[i] as u16);
    }
}

} // verus!
