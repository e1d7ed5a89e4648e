//! The uncompressed PCM container the sample history is saved in:
//! mono, 16-bit signed little-endian samples behind a 44-byte header
//! (RIFF chunk, PCM format chunk, data chunk).

use vstd::prelude::*;

verus! {

/// The two little-endian bytes of a 16-bit value.
pub open spec fn le16_of(x: int) -> Seq<u8>
    recommends
        0 <= x < 0x10000,
{
    seq![(x % 256) as u8, (x / 256) as u8]
}

/// The four little-endian bytes of a 32-bit value.
pub open spec fn le32_of(x: int) -> Seq<u8>
    recommends
        0 <= x < 0x1_0000_0000,
{
    seq![
        (x % 256) as u8,
        ((x / 256) % 256) as u8,
        ((x / 0x10000) % 256) as u8,
        ((x / 0x100_0000) % 256) as u8,
    ]
}

/// A signed sample in the container's two's-complement encoding.
pub open spec fn sample_code(s: i16) -> int {
    if s >= 0 {
        s as int
    } else {
        s + 0x10000
    }
}

/// The sample data section: each sample as two little-endian bytes.
pub open spec fn sample_bytes(samples: Seq<i16>) -> Seq<u8>
    decreases samples.len(),
{
    if samples.len() == 0 {
        Seq::empty()
    } else {
        sample_bytes(samples.drop_last()) + le16_of(sample_code(samples.last()))
    }
}

/// The 44-byte header declaring `num_samples` mono 16-bit samples at
/// `rate` Hz: the RIFF chunk, the PCM format chunk, and the data chunk
/// header.
pub open spec fn wav_header(num_samples: int, rate: int) -> Seq<u8> {
    seq![0x52u8, 0x49u8, 0x46u8, 0x46u8]  // "RIFF"
     + le32_of(36 + 2 * num_samples)  // all that follows this size field
     + seq![0x57u8, 0x41u8, 0x56u8, 0x45u8]  // "WAVE"
     + seq![0x66u8, 0x6du8, 0x74u8, 0x20u8]  // "fmt "
     + le32_of(16)  // format chunk size
     + le16_of(1)  // PCM
     + le16_of(1)  // one channel
     + le32_of(rate)  // samples per second
     + le32_of(2 * rate)  // bytes per second
     + le16_of(2)  // block align
     + le16_of(16)  // bits per sample
     + seq![0x64u8, 0x61u8, 0x74u8, 0x61u8]  // "data"
     + le32_of(2 * num_samples)  // data section size
}

/// The whole container.
pub open spec fn wav_container(samples: Seq<i16>, rate: int) -> Seq<u8> {
    wav_header(samples.len() as int, rate) + sample_bytes(samples)
}

/// The data section holds two bytes per sample.
pub proof fn lemma_sample_bytes_len(samples: Seq<i16>)
    ensures
        sample_bytes(samples).len() == 2 * samples.len(),
    decreases samples.len(),
{
    if samples.len() > 0 {
        lemma_sample_bytes_len(samples.drop_last());
    }
}

fn push_le16(out: &mut Vec<u8>, x: u16)
    ensures
        final(out)@ == old(out)@ + le16_of(x as int),
{
    out.push((x % 256) as u8);
    out.push((x / 256) as u8);
    proof {
        assert(final(out)@ =~= old(out)@ + le16_of(x as int));
    }
}

fn push_le32(out: &mut Vec<u8>, x: u32)
    ensures
        final(out)@ == old(out)@ + le32_of(x as int),
{
    out.push((x % 256) as u8);
    out.push(((x / 256) % 256) as u8);
    out.push(((x / 0x10000) % 256) as u8);
    out.push(((x / 0x100_0000) % 256) as u8);
    proof {
        assert(final(out)@ =~= old(out)@ + le32_of(x as int));
    }
}

/// Serialize the samples as a mono 16-bit PCM container at `rate` Hz.
pub fn encode_wav_mono16(samples: &Vec<i16>, rate: u32) -> (r: Vec<u8>)
    requires
        36 + 2 * samples@.len() <= u32::MAX,
        2 * rate <= u32::MAX,
    ensures
        r@ == wav_container(samples@, rate as int),
        r@.len() == 44 + 2 * samples@.len(),
{
    let num_samples: u32 = samples.len() as u32;
    let data_size: u32 = 2 * num_samples;

    let mut out: Vec<u8> = Vec::new();
    out.push(0x52);
    out.push(0x49);
    out.push(0x46);
    out.push(0x46);
    push_le32(&mut out, 36 + data_size);
    out.push(0x57);
    out.push(0x41);
    out.push(0x56);
    out.push(0x45);
    out.push(0x66);
    out.push(0x6d);
    out.push(0x74);
    out.push(0x20);
    push_le32(&mut out, 16);
    push_le16(&mut out, 1);
    push_le16(&mut out, 1);
    push_le32(&mut out, rate);
    push_le32(&mut out, 2 * rate);
    push_le16(&mut out, 2);
    push_le16(&mut out, 16);
    out.push(0x64);
    out.push(0x61);
    out.push(0x74);
    out.push(0x61);
    push_le32(&mut out, data_size);
    proof {
        assert(out@ =~= wav_header(samples@.len() as int, rate as int));
    }

    let ghost header = out@;
    let mut i: usize = 0;
    while i < samples.len()
        invariant
            0 <= i <= samples@.len(),
            out@ == header + sample_bytes(samples@.subrange(0, i as int)),
            header == wav_header(samples@.len() as int, rate as int),
        decreases samples@.len() - i,
    {
        let s: i16 = samples[i];
        let code: u16 = if s >= 0 {
            s as u16
        } else {
            ((s as i32) + 0x10000) as u16
        };
        push_le16(&mut out, code);
        proof {
            let prefix = samples@.subrange(0, i as int);
            let next = samples@.subrange(0, i + 1);
            assert(next.drop_last() =~= prefix);
            assert(next.last() == samples@[i as int]);
            assert(out@ =~= header + sample_bytes(next));
        }
        i = i + 1;
    }
    proof {
        assert(samples@.subrange(0, samples@.len() as int) =~= samples@);
        lemma_sample_bytes_len(samples@);
    }
    out
}

/// The 32-bit little-endian value stored at `off` in `b`.
pub open spec fn read_le32_at(b: Seq<u8>, off: int) -> int
    recommends
        0 <= off,
        off + 4 <= b.len(),
{
    b[off] + 0x100 * b[off + 1] + 0x10000 * b[off + 2] + 0x100_0000 * b[off + 3]
}

/// Reading back four little-endian bytes gives the encoded value.
pub proof fn lemma_le32_roundtrip(b: Seq<u8>, off: int, x: int)
    requires
        0 <= x < 0x1_0000_0000,
        0 <= off,
        off + 4 <= b.len(),
        b.subrange(off, off + 4) == le32_of(x),
    ensures
        read_le32_at(b, off) == x,
{
    assert(b[off] == le32_of(x)[0]);
    assert(b[off + 1] == le32_of(x)[1]);
    assert(b[off + 2] == le32_of(x)[2]);
    assert(b[off + 3] == le32_of(x)[3]);
}

/// What the header of a saved container declares: its sample rate field
/// holds the rate, its data-size field holds two bytes per sample, and the
/// container is exactly the header plus the data section. The declared
/// duration in seconds is therefore data size / 2 / rate.
pub proof fn lemma_container_declares_history(samples: Seq<i16>, rate: int)
    requires
        0 < rate < 0x1_0000_0000,
        36 + 2 * samples.len() < 0x1_0000_0000,
    ensures
        wav_container(samples, rate).len() == 44 + 2 * samples.len(),
        read_le32_at(wav_container(samples, rate), 24) == rate,
        read_le32_at(wav_container(samples, rate), 40) == 2 * samples.len(),
{
    let c = wav_container(samples, rate);
    lemma_sample_bytes_len(samples);
    assert(c.subrange(24, 28) =~= le32_of(rate));
    lemma_le32_roundtrip(c, 24, rate);
    assert(c.subrange(40, 44) =~= le32_of(2 * samples.len() as int));
    lemma_le32_roundtrip(c, 40, 2 * samples.len() as int);
}

/// The duration, in milliseconds, that a mono 16-bit container's header
/// declares: data size / 2 samples, at the declared rate. Nothing is
/// declared by a buffer too short to hold a header or one declaring a zero
/// rate.
pub fn wav_declared_duration_ms(bytes: &Vec<u8>) -> (r: Option<u64>)
    ensures
        bytes@.len() >= 44 && read_le32_at(bytes@, 24) > 0 ==> r == Some(
            ((read_le32_at(bytes@, 40) / 2) * 1000 / read_le32_at(bytes@, 24)) as u64,
        ),
        bytes@.len() < 44 || read_le32_at(bytes@, 24) == 0 ==> r is None,
{
    if bytes.len() < 44 {
        return None;
    }
    let rate = read_le32(bytes, 24);
    let data = read_le32(bytes, 40);
    if rate == 0 {
        return None;
    }
    Some((data as u64 / 2) * 1000 / (rate as u64))
}

fn read_le32(bytes: &Vec<u8>, off: usize) -> (r: u32)
    requires
        off + 4 <= bytes@.len(),
    ensures
        r == read_le32_at(bytes@, off as int),
{
    let n: usize = bytes.len();
    assert(off + 4 <= n);
    (bytes[off] as u32) + 0x100 * (bytes[off + 1] as u32) + 0x10000 * (bytes[off + 2] as u32)
        + 0x100_0000 * (bytes[off + 3] as u32)
}

} // verus!
