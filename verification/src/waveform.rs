//! Decoding a waveform into samples that are fractions of their full scale.
use vstd::prelude::*;

verus! {

/// The largest value of a 16-bit sample.
pub const FULL_SCALE_16: i32 = 32_767;

/// The largest value of a 24-bit sample.
pub const FULL_SCALE_24: i32 = 8_388_607;

/// The largest value of a 32-bit sample.
pub const FULL_SCALE_32: i32 = 2_147_483_647;

/// How a waveform stores its samples.
#[derive(Clone, Copy, Debug, PartialEq, Eq)]
pub enum SampleFormat {
    Float,
    Int,
}

/// The properties of a waveform that its header declares.
#[derive(Clone, Copy, Debug, PartialEq, Eq)]
pub struct WaveSpec {
    pub channels: u16,
    pub sample_rate: u32,
    pub bits_per_sample: u16,
    pub sample_format: SampleFormat,
}

/// One normalized sample.
#[derive(Clone, Copy, Debug, PartialEq, Eq)]
pub enum Sample {
    /// The fraction `value / full_scale` of an integer sample, where
    /// `full_scale` is the largest value of its bit depth.
    Pcm { value: i32, full_scale: i32 },
    /// The bit pattern of a single-precision sample, passed through as it is.
    Float { bits: u32 },
}

/// A decoded waveform.
#[derive(Debug)]
pub struct Waveform {
    pub spec: WaveSpec,
    pub samples: Vec<Sample>,
}

/// Why no sampler could be built from a waveform.
#[derive(Clone, Copy, Debug, PartialEq, Eq)]
pub enum SamplerError {
    /// The bytes are no waveform that can be read to its end.
    Malformed,
    /// Integer samples of a bit depth other than 16, 24 or 32.
    UnsupportedBitDepth,
}

impl Sample {
    /// Whether the sample is an integer fraction between minus one and one,
    /// both included.
    pub open spec fn within_unit(self) -> bool {
        self matches Sample::Pcm { value, full_scale } && -full_scale <= value <= full_scale
    }

    /// Whether the sample is exactly one.
    pub open spec fn is_one(self) -> bool {
        self matches Sample::Pcm { value, full_scale } && value == full_scale
    }

    /// Whether the sample is exactly minus one.
    pub open spec fn is_minus_one(self) -> bool {
        self matches Sample::Pcm { value, full_scale } && value == -full_scale
    }
}

impl SamplerError {
    /// The error in words.
    pub fn message(&self) -> (text: &'static str)
        ensures
            text@ == match *self {
                SamplerError::Malformed => "Ill-formed waveform"@,
                SamplerError::UnsupportedBitDepth => "Unsupported integer sample format bit depth"@,
            },
    {
        match self {
            SamplerError::Malformed => "Ill-formed waveform",
            SamplerError::UnsupportedBitDepth => "Unsupported integer sample format bit depth",
        }
    }
}

/// The largest value of an integer sample of the given bit depth, for the
/// depths that can be decoded.
pub open spec fn full_scale_spec(bit_depth: u16) -> Option<i32> {
    if bit_depth == 16 {
        Some(FULL_SCALE_16)
    } else if bit_depth == 24 {
        Some(FULL_SCALE_24)
    } else if bit_depth == 32 {
        Some(FULL_SCALE_32)
    } else {
        None
    }
}

/// Integer samples over one full scale.
pub open spec fn pcm_samples(values: Seq<i32>, full_scale: i32) -> Seq<Sample> {
    Seq::new(values.len(), |i: int| Sample::Pcm { value: values[i], full_scale })
}

/// 16-bit values as 32-bit values.
pub open spec fn widened(values: Seq<i16>) -> Seq<i32> {
    Seq::new(values.len(), |i: int| values[i] as i32)
}

/// Bit patterns as samples.
pub open spec fn float_samples(bits: Seq<u32>) -> Seq<Sample> {
    Seq::new(bits.len(), |i: int| Sample::Float { bits: bits[i] })
}

/// Looks up the full scale of a bit depth.
#[verifier::when_used_as_spec(full_scale_spec)]
pub fn full_scale(bit_depth: u16) -> (scale: Option<i32>)
    ensures
        scale == full_scale_spec(bit_depth),
{
    if bit_depth == 16 {
        Some(FULL_SCALE_16)
    } else if bit_depth == 24 {
        Some(FULL_SCALE_24)
    } else if bit_depth == 32 {
        Some(FULL_SCALE_32)
    } else {
        None
    }
}

/// Normalizes 16-bit samples: each becomes the fraction of itself over
/// 32767. Any other bit depth is refused.
pub fn normalize_i16(buffer_in: &[i16], bit_depth: u16) -> (r: Result<Vec<Sample>, SamplerError>)
    ensures
        bit_depth == 16 ==> r is Ok && r->Ok_0@ == pcm_samples(widened(buffer_in@), FULL_SCALE_16),
        bit_depth != 16 ==> r == Err::<Vec<Sample>, SamplerError>(
            SamplerError::UnsupportedBitDepth,
        ),
{
    if bit_depth != 16 {
        return Err(SamplerError::UnsupportedBitDepth);
    }
    let mut buffer_out: Vec<Sample> = Vec::new();
    let mut i: usize = 0;
    while i < buffer_in.len()
        invariant
            i <= buffer_in.len(),
            buffer_out.len() == i,
            forall|j: int|
                0 <= j < i ==> buffer_out[j] == (Sample::Pcm {
                    value: buffer_in[j] as i32,
                    full_scale: FULL_SCALE_16,
                }),
        decreases buffer_in.len() - i,
    {
        buffer_out.push(Sample::Pcm { value: buffer_in[i] as i32, full_scale: FULL_SCALE_16 });
        i += 1;
    }
    assert(buffer_out@ =~= pcm_samples(widened(buffer_in@), FULL_SCALE_16));
    Ok(buffer_out)
}

/// Normalizes 24-bit and 32-bit samples: each becomes the fraction of
/// itself over the largest value of its depth. Any other bit depth is
/// refused.
pub fn normalize_i32(buffer_in: &[i32], bit_depth: u16) -> (r: Result<Vec<Sample>, SamplerError>)
    ensures
        bit_depth == 24 || bit_depth == 32 ==> r is Ok && r->Ok_0@ == pcm_samples(
            buffer_in@,
            full_scale_spec(bit_depth)->0,
        ),
        bit_depth != 24 && bit_depth != 32 ==> r == Err::<Vec<Sample>, SamplerError>(
            SamplerError::UnsupportedBitDepth,
        ),
{
    if bit_depth == 16 {
        return Err(SamplerError::UnsupportedBitDepth);
    }
    let max_value: i32 = match full_scale(bit_depth) {
        Some(scale) => scale,
        None => {
            return Err(SamplerError::UnsupportedBitDepth);
        },
    };
    let mut buffer_out: Vec<Sample> = Vec::new();
    let mut i: usize = 0;
    while i < buffer_in.len()
        invariant
            i <= buffer_in.len(),
            buffer_out.len() == i,
            forall|j: int|
                0 <= j < i ==> buffer_out[j] == (Sample::Pcm {
                    value: buffer_in[j],
                    full_scale: max_value,
                }),
        decreases buffer_in.len() - i,
    {
        buffer_out.push(Sample::Pcm { value: buffer_in[i], full_scale: max_value });
        i += 1;
    }
    assert(buffer_out@ =~= pcm_samples(buffer_in@, max_value));
    Ok(buffer_out)
}

/// Takes single-precision samples by their bit patterns, each as it is.
pub fn widen_float(buffer_in: &[u32]) -> (buffer_out: Vec<Sample>)
    ensures
        buffer_out@ == float_samples(buffer_in@),
{
    let mut buffer_out: Vec<Sample> = Vec::new();
    let mut i: usize = 0;
    while i < buffer_in.len()
        invariant
            i <= buffer_in.len(),
            buffer_out.len() == i,
            forall|j: int| 0 <= j < i ==> buffer_out[j] == (Sample::Float { bits: buffer_in[j] }),
        decreases buffer_in.len() - i,
    {
        buffer_out.push(Sample::Float { bits: buffer_in[i] });
        i += 1;
    }
    assert(buffer_out@ =~= float_samples(buffer_in@));
    buffer_out
}

/// Normalized samples stay between minus one and one: an integer sample
/// that does not go below the negative of its full scale becomes a fraction
/// in that range, the full scale itself exactly one and its negative exactly
/// minus one.
pub proof fn normalized_within_unit(values: Seq<i32>, bit_depth: u16, i: int)
    requires
        full_scale_spec(bit_depth) is Some,
        0 <= i < values.len(),
        -full_scale_spec(bit_depth)->0 <= values[i] <= full_scale_spec(bit_depth)->0,
    ensures
        pcm_samples(values, full_scale_spec(bit_depth)->0)[i].within_unit(),
        values[i] == full_scale_spec(bit_depth)->0 ==> pcm_samples(
            values,
            full_scale_spec(bit_depth)->0,
        )[i].is_one(),
        values[i] == -full_scale_spec(bit_depth)->0 ==> pcm_samples(
            values,
            full_scale_spec(bit_depth)->0,
        )[i].is_minus_one(),
{
}

/// Every 16-bit sample but the lowest normalizes to a value between minus
/// one and one, and the highest to exactly one.
pub proof fn normalized_i16_within_unit(values: Seq<i16>, i: int)
    requires
        0 <= i < values.len(),
        values[i] != i16::MIN,
    ensures
        pcm_samples(widened(values), FULL_SCALE_16)[i].within_unit(),
        values[i] == i16::MAX ==> pcm_samples(widened(values), FULL_SCALE_16)[i].is_one(),
        values[i] == -i16::MAX ==> pcm_samples(widened(values), FULL_SCALE_16)[i].is_minus_one(),
{
}

/// The header that `hound` finds in a waveform, if it finds one.
pub uninterp spec fn wav_spec(wav: Seq<u8>) -> Option<WaveSpec>;

/// The samples that `hound` reads from a waveform as 16-bit integers, if it
/// can read every one of them.
pub uninterp spec fn wav_samples_i16(wav: Seq<u8>) -> Option<Seq<i16>>;

/// The samples that `hound` reads from a waveform as 32-bit integers, if it
/// can read every one of them.
pub uninterp spec fn wav_samples_i32(wav: Seq<u8>) -> Option<Seq<i32>>;

#[verifier::external_type_specification]
#[verifier::external_body]
pub struct ExHoundError(hound::Error);

/// `hound::WavReader::new` on the bytes and `spec` on the reader. The bytes
/// alone decide whether a header is found and what it declares.
#[verifier::external_body]
fn read_spec(wav: &[u8]) -> (r: Result<WaveSpec, hound::Error>)
    ensures
        r is Ok <==> wav_spec(wav@) is Some,
        r is Ok ==> wav_spec(wav@) == Some(r->Ok_0),
{
    let spec = hound::WavReader::new(wav)?.spec();
    Ok(
        WaveSpec {
            channels: spec.channels,
            sample_rate: spec.sample_rate,
            bits_per_sample: spec.bits_per_sample,
            sample_format: match spec.sample_format {
                hound::SampleFormat::Float => SampleFormat::Float,
                hound::SampleFormat::Int => SampleFormat::Int,
            },
        },
    )
}

/// `hound::WavReader::samples` with 16-bit items, read to the end. The bytes
/// alone decide whether every sample can be read and what each one is.
#[verifier::external_body]
fn read_samples_i16(wav: &[u8]) -> (r: Result<Vec<i16>, hound::Error>)
    ensures
        r is Ok <==> wav_samples_i16(wav@) is Some,
        r is Ok ==> wav_samples_i16(wav@) == Some(r->Ok_0@),
{
    hound::WavReader::new(wav)?.samples::<i16>().collect()
}

/// `hound::WavReader::samples` with 32-bit items, read to the end. The bytes
/// alone decide whether every sample can be read and what each one is.
#[verifier::external_body]
fn read_samples_i32(wav: &[u8]) -> (r: Result<Vec<i32>, hound::Error>)
    ensures
        r is Ok <==> wav_samples_i32(wav@) is Some,
        r is Ok ==> wav_samples_i32(wav@) == Some(r->Ok_0@),
{
    hound::WavReader::new(wav)?.samples::<i32>().collect()
}

/// The bit patterns that come with a waveform, if any do.
pub open spec fn bits_view(float_bits: Option<&[u32]>) -> Option<Seq<u32>> {
    match float_bits {
        Some(bits) => Some(bits@),
        None => None,
    }
}

/// What a waveform decodes to, together with the bit patterns of its samples
/// where it stores them as floating-point numbers. Such samples are passed
/// through as they are, one for each pattern; without the patterns there is
/// nothing to pass through. Integer samples of 16 bits are read as such and
/// those of 24 and 32 bits as 32-bit values, each then taken over the
/// largest value of its depth; any other depth is refused. The patterns play
/// no part in a waveform of integer samples.
pub open spec fn decoded(wav: Seq<u8>, float_bits: Option<Seq<u32>>) -> Result<
    (WaveSpec, Seq<Sample>),
    SamplerError,
> {
    match wav_spec(wav) {
        None => Err(SamplerError::Malformed),
        Some(spec) => match spec.sample_format {
            SampleFormat::Float => match float_bits {
                Some(bits) => Ok((spec, float_samples(bits))),
                None => Err(SamplerError::Malformed),
            },
            SampleFormat::Int => if spec.bits_per_sample == 16 {
                match wav_samples_i16(wav) {
                    Some(values) => Ok((spec, pcm_samples(widened(values), FULL_SCALE_16))),
                    None => Err(SamplerError::Malformed),
                }
            } else if spec.bits_per_sample == 24 || spec.bits_per_sample == 32 {
                match wav_samples_i32(wav) {
                    Some(values) => Ok(
                        (spec, pcm_samples(values, full_scale_spec(spec.bits_per_sample)->0)),
                    ),
                    None => Err(SamplerError::Malformed),
                }
            } else {
                Err(SamplerError::UnsupportedBitDepth)
            },
        },
    }
}

/// Whether a waveform declares integer samples of a depth that cannot be
/// decoded.
pub open spec fn unsupported_depth(wav: Seq<u8>) -> bool {
    wav_spec(wav) matches Some(spec) && spec.sample_format == SampleFormat::Int && full_scale_spec(
        spec.bits_per_sample,
    ) is None
}

/// Reads the header of a waveform.
pub fn header(wav: &[u8]) -> (r: Result<WaveSpec, SamplerError>)
    ensures
        r == match wav_spec(wav@) {
            Some(spec) => Ok::<WaveSpec, SamplerError>(spec),
            None => Err(SamplerError::Malformed),
        },
{
    match read_spec(wav) {
        Ok(spec) => Ok(spec),
        Err(_) => Err(SamplerError::Malformed),
    }
}

/// Decodes a waveform. The samples of a floating-point waveform are handed
/// in as bit patterns, in the order in which the waveform stores them.
pub fn decode(wav: &[u8], float_bits: Option<&[u32]>) -> (r: Result<Waveform, SamplerError>)
    ensures
        match decoded(wav@, bits_view(float_bits)) {
            Ok((spec, samples)) => r is Ok && r->Ok_0.spec == spec && r->Ok_0.samples@ == samples,
            Err(e) => r is Err && r->Err_0 == e,
        },
        unsupported_depth(wav@) ==> r is Err && r->Err_0 == SamplerError::UnsupportedBitDepth,
{
    let spec = header(wav)?;
    match spec.sample_format {
        SampleFormat::Float => match float_bits {
            Some(bits) => Ok(Waveform { spec, samples: widen_float(bits) }),
            None => Err(SamplerError::Malformed),
        },
        SampleFormat::Int => {
            if spec.bits_per_sample == 16 {
                match read_samples_i16(wav) {
                    Ok(buffer_in) => {
                        let samples = normalize_i16(buffer_in.as_slice(), spec.bits_per_sample)?;
                        Ok(Waveform { spec, samples })
                    },
                    Err(_) => Err(SamplerError::Malformed),
                }
            } else if spec.bits_per_sample == 24 || spec.bits_per_sample == 32 {
                match read_samples_i32(wav) {
                    Ok(buffer_in) => {
                        let samples = normalize_i32(buffer_in.as_slice(), spec.bits_per_sample)?;
                        Ok(Waveform { spec, samples })
                    },
                    Err(_) => Err(SamplerError::Malformed),
                }
            } else {
                Err(SamplerError::UnsupportedBitDepth)
            }
        },
    }
}

/// A waveform whose header and samples can be read fails to decode in one
/// case only: integer samples of a depth other than 16, 24 or 32.
pub proof fn decoding_fails_on_unsupported_depth_only(wav: Seq<u8>, float_bits: Option<Seq<u32>>)
    requires
        wav_spec(wav) is Some,
        wav_spec(wav)->0.sample_format == SampleFormat::Float ==> float_bits is Some,
        wav_spec(wav)->0.sample_format == SampleFormat::Int && wav_spec(wav)->0.bits_per_sample
            == 16 ==> wav_samples_i16(wav) is Some,
        wav_spec(wav)->0.sample_format == SampleFormat::Int && wav_spec(wav)->0.bits_per_sample
            != 16 ==> wav_samples_i32(wav) is Some,
    ensures
        decoded(wav, float_bits) is Err <==> unsupported_depth(wav),
        unsupported_depth(wav) ==> decoded(wav, float_bits) == Err::<
            (WaveSpec, Seq<Sample>),
            SamplerError,
        >(SamplerError::UnsupportedBitDepth),
        decoded(wav, float_bits) matches Ok((spec, _)) ==> spec == wav_spec(wav)->0,
{
}

} // verus!
