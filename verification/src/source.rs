//! Reading the instrument's source sample: a WAVE file held in memory,
//! decoded by `hound` into 16-bit integer samples.
use vstd::prelude::*;

verus! {

#[verifier::external_type_specification]
#[verifier::external_body]
#[verifier::reject_recursive_types(R)]
pub struct ExWavReader<R>(hound::WavReader<R>);

#[verifier::external_type_specification]
#[verifier::external_body]
pub struct ExWavError(hound::Error);

/// Whether `hound` accepts `bytes` as the header of a WAVE file.
pub uninterp spec fn wav_accepts(bytes: Seq<u8>) -> bool;

/// The sample rate recorded in the header of the WAVE file `bytes`.
pub uninterp spec fn wav_sample_rate(bytes: Seq<u8>) -> u32;

/// The samples of the WAVE file `bytes`, in file order (channels interleaved),
/// each decoded as a 16-bit integer or `None` where `hound` reports an error
/// for it.
pub uninterp spec fn wav_i16_samples(bytes: Seq<u8>) -> Seq<Option<i16>>;

/// A WAVE file whose header has been read, together with the bytes it was
/// read from. Only `wav_open` makes one, so `reader` has read exactly the
/// header of `bytes` and nothing more.
pub struct OpenWav<'a> {
    reader: hound::WavReader<&'a [u8]>,
    bytes: &'a [u8],
}

impl<'a> OpenWav<'a> {
    /// The bytes of the file.
    pub closed spec fn source(&self) -> Seq<u8> {
        self.bytes@
    }
}

/// Calls `hound::WavReader::new` on the bytes, which reads the WAVE header.
/// Trusted: the outcome depends on the bytes alone (`wav_accepts`), and an
/// opened file remembers the bytes it was opened on.
#[verifier::external_body]
fn wav_open<'a>(bytes: &'a [u8]) -> (res: Result<OpenWav<'a>, hound::Error>)
    ensures
        res is Ok <==> wav_accepts(bytes@),
        res matches Ok(w) ==> w.source() == bytes@,
{
    match hound::WavReader::new(bytes) {
        Ok(reader) => Ok(OpenWav { reader, bytes }),
        Err(e) => Err(e),
    }
}

/// Calls `hound::WavReader::spec` and picks its `sample_rate` field.
/// Trusted: the rate is the one recorded in the header of the file's bytes.
#[verifier::external_body]
fn wav_spec_rate(w: &OpenWav) -> (rate: u32)
    ensures
        rate == wav_sample_rate(w.source()),
{
    w.reader.spec().sample_rate
}

/// Calls `hound::WavReader::into_samples::<i16>` and collects every item it
/// yields, an error item becoming `None`. Trusted: the items are the file's
/// samples as `hound` decodes them from the bytes.
#[verifier::external_body]
fn wav_into_samples(w: OpenWav) -> (samples: Vec<Option<i16>>)
    ensures
        samples@ == wav_i16_samples(w.source()),
{
    w.reader.into_samples::<i16>().map(|s| s.ok()).collect()
}

/// The decoded values of `raw`, in order, with the failed items left out.
pub open spec fn decoded_values(raw: Seq<Option<i16>>) -> Seq<i16>
    decreases raw.len(),
{
    if raw.len() == 0 {
        Seq::empty()
    } else {
        match raw.last() {
            Some(x) => decoded_values(raw.drop_last()).push(x),
            None => decoded_values(raw.drop_last()),
        }
    }
}

/// Keeps the samples that decoded, in order, and drops the failed ones.
pub fn keep_decoded(raw: &Vec<Option<i16>>) -> (values: Vec<i16>)
    ensures
        values@ == decoded_values(raw@),
{
    let mut values: Vec<i16> = Vec::new();
    let mut i: usize = 0;
    while i < raw.len()
        invariant
            i <= raw@.len(),
            values@ == decoded_values(raw@.take(i as int)),
        decreases raw@.len() - i,
    {
        proof {
            assert(raw@.take(i + 1).drop_last() =~= raw@.take(i as int));
            assert(raw@.take(i + 1).last() == raw@[i as int]);
        }
        match raw[i] {
            Some(x) => values.push(x),
            None => {},
        }
        i = i + 1;
    }
    proof {
        assert(raw@.take(raw@.len() as int) =~= raw@);
    }
    values
}

/// The decoded source sample.
pub struct WavSource {
    /// The sample rate of the file, in frames per second.
    pub sample_rate: u32,
    /// The samples that decoded, in file order.
    pub samples: Vec<i16>,
}

/// Why the source sample could not be read.
#[derive(PartialEq, Eq, Structural, Clone, Copy, Debug)]
pub enum SourceError {
    /// The bytes are not a WAVE file that `hound` can read.
    InvalidWav,
}

/// Reads the WAVE file `bytes`: its sample rate and the 16-bit samples that
/// decode, in order. Fails exactly when the header is not accepted.
pub fn load_source(bytes: &[u8]) -> (res: Result<WavSource, SourceError>)
    ensures
        res is Ok <==> wav_accepts(bytes@),
        res matches Err(e) ==> e == SourceError::InvalidWav,
        res matches Ok(s) ==> {
            &&& s.sample_rate == wav_sample_rate(bytes@)
            &&& s.samples@ == decoded_values(wav_i16_samples(bytes@))
        },
{
    match wav_open(bytes) {
        Ok(w) => {
            let sample_rate = wav_spec_rate(&w);
            let raw = wav_into_samples(w);
            let samples = keep_decoded(&raw);
            Ok(WavSource { sample_rate, samples })
        },
        Err(_) => Err(SourceError::InvalidWav),
    }
}

/// Dropping the failed items adds nothing: at most as many values come out as
/// items went in, and when every item decoded they all come out, unchanged
/// and in order.
pub proof fn lemma_decoded_values_len_and_all_ok(raw: Seq<Option<i16>>)
    ensures
        decoded_values(raw).len() <= raw.len(),
        (forall|i: int| 0 <= i < raw.len() ==> #[trigger] raw[i] is Some) ==> decoded_values(raw) == raw.map_values(
            |o: Option<i16>| o->0,
        ),
    decreases raw.len(),
{
    if raw.len() > 0 {
        lemma_decoded_values_len_and_all_ok(raw.drop_last());
        if forall|i: int| 0 <= i < raw.len() ==> #[trigger] raw[i] is Some {
            assert forall|i: int| 0 <= i < raw.drop_last().len() implies #[trigger] raw.drop_last()[i] is Some by {
                assert(raw.drop_last()[i] == raw[i]);
            }
            assert(raw.last() is Some);
            assert(decoded_values(raw) =~= raw.map_values(|o: Option<i16>| o->0));
        }
    } else {
        assert(decoded_values(raw) =~= raw.map_values(|o: Option<i16>| o->0));
    }
}

} // verus!
