use vstd::prelude::*;
use vstd::slice::slice_subrange;
use byteorder::{ByteOrder, LittleEndian};

verus! {

/// Length of the header that precedes the samples of a canonical WAV file.
pub const WAV_HEADER_LEN: usize = 0x2C;

/// The signed 16-bit number whose little-endian bytes are `low`, `high`.
pub open spec fn i16_from_le(low: u8, high: u8) -> int {
    let unsigned = low as int + 256 * (high as int);
    if unsigned < 32768 {
        unsigned
    } else {
        unsigned - 65536
    }
}

/// The samples that a run of little-endian byte pairs holds.
pub open spec fn samples_of(bytes: Seq<u8>) -> Seq<i16> {
    Seq::new(bytes.len() / 2, |i: int| i16_from_le(bytes[2 * i], bytes[2 * i + 1]) as i16)
}

/// `times` copies of `samples`, one after the other.
pub open spec fn repeated(samples: Seq<i16>, times: nat) -> Seq<i16>
    decreases times,
{
    if times == 0 {
        Seq::empty()
    } else {
        repeated(samples, (times - 1) as nat) + samples
    }
}

/// Calls `byteorder::LittleEndian::read_i16_into`, which fills `dst` with
/// the numbers that the byte pairs of `src` hold, low byte first, and panics
/// unless `src` is exactly twice as long as `dst`.
#[verifier::external_body]
fn read_i16_into_le(src: &[u8], dst: &mut Vec<i16>)
    requires
        src@.len() == 2 * old(dst)@.len(),
    ensures
        final(dst)@.len() == old(dst)@.len(),
        forall|i: int|
            0 <= i < final(dst)@.len() ==> #[trigger] final(dst)@[i] as int == i16_from_le(
                src@[2 * i],
                src@[2 * i + 1],
            ),
{
    LittleEndian::read_i16_into(src, dst.as_mut_slice());
}

/// The samples of a canonical 16-bit WAV file: everything after the header,
/// read as little-endian numbers. `None` exactly when the file is shorter
/// than its header or what follows the header is an odd number of bytes.
pub fn pcm_samples(file: &[u8]) -> (samples: Option<Vec<i16>>)
    ensures
        match samples {
            Some(s) => file@.len() >= WAV_HEADER_LEN && (file@.len() - WAV_HEADER_LEN) % 2 == 0
                && s@ == samples_of(file@.skip(WAV_HEADER_LEN as int)),
            None => file@.len() < WAV_HEADER_LEN || (file@.len() - WAV_HEADER_LEN) % 2 == 1,
        },
{
    if file.len() < WAV_HEADER_LEN {
        return None;
    }
    let payload_len: usize = file.len() - WAV_HEADER_LEN;
    if payload_len % 2 != 0 {
        return None;
    }
    let payload = slice_subrange(file, WAV_HEADER_LEN, file.len());
    assert(payload@ =~= file@.skip(WAV_HEADER_LEN as int));
    let mut samples: Vec<i16> = vec![0i16; payload_len / 2];
    read_i16_into_le(payload, &mut samples);
    assert(samples@ =~= samples_of(payload@));
    Some(samples)
}

/// `times` copies of the samples, one after the other.
pub fn repeat_samples(samples: &Vec<i16>, times: usize) -> (all: Vec<i16>)
    ensures
        all@ == repeated(samples@, times as nat),
{
    let mut all: Vec<i16> = Vec::new();
    let mut done: usize = 0;
    while done < times
        invariant
            done <= times,
            all@ == repeated(samples@, done as nat),
        decreases times - done,
    {
        let ghost before = all@;
        all.extend_from_slice(samples.as_slice());
        assert(all@ =~= before + samples@);
        done += 1;
    }
    all
}

/// The audio of a test run: the samples of a WAV file, three times over.
pub fn load_audio_data(file: &[u8]) -> (audio: Option<Vec<i16>>)
    ensures
        match audio {
            Some(a) => file@.len() >= WAV_HEADER_LEN && (file@.len() - WAV_HEADER_LEN) % 2 == 0
                && a@ == repeated(samples_of(file@.skip(WAV_HEADER_LEN as int)), 3),
            None => file@.len() < WAV_HEADER_LEN || (file@.len() - WAV_HEADER_LEN) % 2 == 1,
        },
{
    match pcm_samples(file) {
        Some(samples) => Some(repeat_samples(&samples, 3)),
        None => None,
    }
}

} // verus!
