//! Video and audio formats: colour families, sample types, preset format
//! identifiers, the plain-integer records exchanged with VapourSynth, format
//! builders and audio channel layouts.
use vstd::prelude::*;
use crate::text::{TextBuf, decimal_text};

verus! {

/// The colour family of a video format.
#[derive(Debug, Clone, Copy, PartialEq, Eq, Structural, Hash, PartialOrd, Ord)]
pub enum ColorFamily {
    Undefined,
    Gray,
    RGB,
    YUV,
}

impl ColorFamily {
    /// The number that VapourSynth uses for this colour family.
    pub open spec fn spec_code(self) -> int {
        match self {
            ColorFamily::Undefined => 0,
            ColorFamily::Gray => 1,
            ColorFamily::RGB => 2,
            ColorFamily::YUV => 3,
        }
    }

    /// The number that VapourSynth uses for this colour family.
    pub fn code(self) -> (r: i32)
        ensures
            r == self.spec_code(),
    {
        match self {
            ColorFamily::Undefined => 0,
            ColorFamily::Gray => 1,
            ColorFamily::RGB => 2,
            ColorFamily::YUV => 3,
        }
    }

    /// The colour family with the given VapourSynth number, if there is one.
    pub open spec fn spec_from_code(c: int) -> Option<ColorFamily> {
        if c == 0 {
            Some(ColorFamily::Undefined)
        } else if c == 1 {
            Some(ColorFamily::Gray)
        } else if c == 2 {
            Some(ColorFamily::RGB)
        } else if c == 3 {
            Some(ColorFamily::YUV)
        } else {
            None
        }
    }

    /// The colour family with the given VapourSynth number, if there is one.
    pub fn from_code(c: i32) -> (r: Option<ColorFamily>)
        ensures
            r == Self::spec_from_code(c as int),
    {
        if c == 0 {
            Some(ColorFamily::Undefined)
        } else if c == 1 {
            Some(ColorFamily::Gray)
        } else if c == 2 {
            Some(ColorFamily::RGB)
        } else if c == 3 {
            Some(ColorFamily::YUV)
        } else {
            None
        }
    }
}

/// Whether samples are integers or floating point numbers.
#[derive(Debug, Clone, Copy, PartialEq, Eq, Structural, Hash)]
pub enum SampleType {
    Integer,
    Float,
}

impl SampleType {
    /// The number that VapourSynth uses for this sample type.
    pub open spec fn spec_code(self) -> int {
        match self {
            SampleType::Integer => 0,
            SampleType::Float => 1,
        }
    }

    /// The number that VapourSynth uses for this sample type.
    pub fn code(self) -> (r: i32)
        ensures
            r == self.spec_code(),
    {
        match self {
            SampleType::Integer => 0,
            SampleType::Float => 1,
        }
    }

    /// The sample type read from a VapourSynth record: zero means integer
    /// samples, every other number floating point samples.
    pub open spec fn spec_from_code(c: int) -> SampleType {
        if c == 0 {
            SampleType::Integer
        } else {
            SampleType::Float
        }
    }

    /// The sample type read from a VapourSynth record: zero means integer
    /// samples, every other number floating point samples.
    pub fn from_code(c: i32) -> (r: SampleType)
        ensures
            r == Self::spec_from_code(c as int),
    {
        if c == 0 {
            SampleType::Integer
        } else {
            SampleType::Float
        }
    }
}

/// Whether a clip or a frame holds video or audio.
#[derive(Debug, Clone, Copy, PartialEq, Eq, Structural, Hash)]
pub enum MediaType {
    Video,
    Audio,
}

impl MediaType {
    /// The number that VapourSynth uses for this media type.
    pub open spec fn spec_code(self) -> int {
        match self {
            MediaType::Video => 1,
            MediaType::Audio => 2,
        }
    }

    /// The media type with the given VapourSynth number, which must be one of
    /// the two that VapourSynth defines.
    pub fn from_ffi(from: i32) -> (r: MediaType)
        requires
            from == 1 || from == 2,
        ensures
            r.spec_code() == from,
    {
        if from == 1 {
            MediaType::Video
        } else {
            MediaType::Audio
        }
    }
}

/// The packed identifier of a video format: colour family in bits 28 and up,
/// sample type from bit 24, bits per sample from bit 16, horizontal
/// subsampling from bit 8 and vertical subsampling in the lowest byte.
pub open spec fn video_id(
    color_family: ColorFamily,
    sample_type: SampleType,
    bits_per_sample: i32,
    sub_sampling_w: i32,
    sub_sampling_h: i32,
) -> i32 {
    ((color_family.spec_code() as i32) << 28i32) | ((sample_type.spec_code() as i32) << 24i32) | (
    bits_per_sample << 16i32) | (sub_sampling_w << 8i32) | sub_sampling_h
}

/// Packs the fields of a video format into its identifier.
pub fn make_video_id(
    color_family: ColorFamily,
    sample_type: SampleType,
    bits_per_sample: i32,
    sub_sampling_w: i32,
    sub_sampling_h: i32,
) -> (r: i32)
    ensures
        r == video_id(color_family, sample_type, bits_per_sample, sub_sampling_w, sub_sampling_h),
{
    (color_family.code() << 28i32) | (sample_type.code() << 24i32) | (bits_per_sample << 16i32) | (
    sub_sampling_w << 8i32) | sub_sampling_h
}

proof fn lemma_pack_fields(c: i32, s: i32, b: i32, w: i32, h: i32)
    by (bit_vector)
    requires
        0 <= c < 8,
        0 <= s < 16,
        0 <= b < 256,
        0 <= w < 256,
        0 <= h < 256,
    ensures
        (c << 28i32) | (s << 24i32) | (b << 16i32) | (w << 8i32) | h == c * 0x1000_0000 + s
            * 0x100_0000 + b * 0x1_0000 + w * 0x100 + h,
        (((c << 28i32) | (s << 24i32) | (b << 16i32) | (w << 8i32) | h) >> 28i32) & 0xf == c,
        (((c << 28i32) | (s << 24i32) | (b << 16i32) | (w << 8i32) | h) >> 24i32) & 0xf == s,
        (((c << 28i32) | (s << 24i32) | (b << 16i32) | (w << 8i32) | h) >> 16i32) & 0xff == b,
        (((c << 28i32) | (s << 24i32) | (b << 16i32) | (w << 8i32) | h) >> 8i32) & 0xff == w,
        ((c << 28i32) | (s << 24i32) | (b << 16i32) | (w << 8i32) | h) & 0xff == h,
{
}

/// When every field fits its place, the identifier is the sum of the fields
/// at their places, and each field can be read back from it.
pub proof fn lemma_video_id_fields(
    color_family: ColorFamily,
    sample_type: SampleType,
    bits_per_sample: i32,
    sub_sampling_w: i32,
    sub_sampling_h: i32,
)
    requires
        0 <= bits_per_sample < 256,
        0 <= sub_sampling_w < 256,
        0 <= sub_sampling_h < 256,
    ensures
        ({
            let id = video_id(
                color_family,
                sample_type,
                bits_per_sample,
                sub_sampling_w,
                sub_sampling_h,
            );
            &&& id == color_family.spec_code() * 0x1000_0000 + sample_type.spec_code() * 0x100_0000
                + bits_per_sample * 0x1_0000 + sub_sampling_w * 0x100 + sub_sampling_h
            &&& (id >> 28i32) & 0xf == color_family.spec_code()
            &&& (id >> 24i32) & 0xf == sample_type.spec_code()
            &&& (id >> 16i32) & 0xff == bits_per_sample
            &&& (id >> 8i32) & 0xff == sub_sampling_w
            &&& id & 0xff == sub_sampling_h
        }),
{
    lemma_pack_fields(
        color_family.spec_code() as i32,
        sample_type.spec_code() as i32,
        bits_per_sample,
        sub_sampling_w,
        sub_sampling_h,
    );
}

/// Two formats whose fields fit their places have the same identifier only
/// when all their fields are equal.
pub proof fn lemma_video_id_injective(a: PresetFields, b: PresetFields)
    requires
        a.fits(),
        b.fits(),
        video_id(a.color_family, a.sample_type, a.bits_per_sample, a.sub_sampling_w, a.sub_sampling_h)
            == video_id(
            b.color_family,
            b.sample_type,
            b.bits_per_sample,
            b.sub_sampling_w,
            b.sub_sampling_h,
        ),
    ensures
        a == b,
{
    lemma_video_id_fields(
        a.color_family,
        a.sample_type,
        a.bits_per_sample,
        a.sub_sampling_w,
        a.sub_sampling_h,
    );
    lemma_video_id_fields(
        b.color_family,
        b.sample_type,
        b.bits_per_sample,
        b.sub_sampling_w,
        b.sub_sampling_h,
    );
}

/// The defining fields of a video format, as packed into its identifier.
#[derive(Debug, Clone, Copy, PartialEq, Eq, Structural)]
pub struct PresetFields {
    pub color_family: ColorFamily,
    pub sample_type: SampleType,
    pub bits_per_sample: i32,
    pub sub_sampling_w: i32,
    pub sub_sampling_h: i32,
}

impl PresetFields {
    /// Every numeric field fits in its byte of the identifier.
    pub open spec fn fits(self) -> bool {
        &&& 0 <= self.bits_per_sample < 256
        &&& 0 <= self.sub_sampling_w < 256
        &&& 0 <= self.sub_sampling_h < 256
    }

    /// The identifier that these fields pack into.
    pub open spec fn spec_id(self) -> i32 {
        video_id(
            self.color_family,
            self.sample_type,
            self.bits_per_sample,
            self.sub_sampling_w,
            self.sub_sampling_h,
        )
    }
}

/// Preset VapourSynth video formats, each named by its identifier.
///
/// The presets suffixed with H and S have floating point sample type. The H and S suffixes stand
/// for half precision and single precision, respectively.
#[derive(Debug, Clone, Copy, PartialEq, Eq, Structural, Hash, PartialOrd, Ord)]
pub enum PresetFormat {
    NoFormat,
    Gray8,
    Gray9,
    Gray10,
    Gray12,
    Gray14,
    Gray16,
    Gray32,
    GrayH,
    GrayS,
    YUV410P8,
    YUV411P8,
    YUV440P8,
    YUV420P8,
    YUV422P8,
    YUV444P8,
    YUV420P9,
    YUV422P9,
    YUV444P9,
    YUV420P10,
    YUV422P10,
    YUV444P10,
    YUV420P12,
    YUV422P12,
    YUV444P12,
    YUV420P14,
    YUV422P14,
    YUV444P14,
    YUV420P16,
    YUV422P16,
    YUV444P16,
    YUV444PH,
    YUV444PS,
    RGB24,
    RGB27,
    RGB30,
    RGB36,
    RGB42,
    RGB48,
    RGBH,
    RGBS,
}

impl PresetFormat {
    /// The fields of the preset, or `None` for the `NoFormat` preset.
    pub open spec fn spec_fields(self) -> Option<PresetFields> {
        match self {
            PresetFormat::NoFormat => Option::None,
            PresetFormat::Gray8 => Option::Some(PresetFields { color_family: ColorFamily::Gray, sample_type: SampleType::Integer, bits_per_sample: 8, sub_sampling_w: 0, sub_sampling_h: 0 }),
            PresetFormat::Gray9 => Option::Some(PresetFields { color_family: ColorFamily::Gray, sample_type: SampleType::Integer, bits_per_sample: 9, sub_sampling_w: 0, sub_sampling_h: 0 }),
            PresetFormat::Gray10 => Option::Some(PresetFields { color_family: ColorFamily::Gray, sample_type: SampleType::Integer, bits_per_sample: 10, sub_sampling_w: 0, sub_sampling_h: 0 }),
            PresetFormat::Gray12 => Option::Some(PresetFields { color_family: ColorFamily::Gray, sample_type: SampleType::Integer, bits_per_sample: 12, sub_sampling_w: 0, sub_sampling_h: 0 }),
            PresetFormat::Gray14 => Option::Some(PresetFields { color_family: ColorFamily::Gray, sample_type: SampleType::Integer, bits_per_sample: 14, sub_sampling_w: 0, sub_sampling_h: 0 }),
            PresetFormat::Gray16 => Option::Some(PresetFields { color_family: ColorFamily::Gray, sample_type: SampleType::Integer, bits_per_sample: 16, sub_sampling_w: 0, sub_sampling_h: 0 }),
            PresetFormat::Gray32 => Option::Some(PresetFields { color_family: ColorFamily::Gray, sample_type: SampleType::Integer, bits_per_sample: 32, sub_sampling_w: 0, sub_sampling_h: 0 }),
            PresetFormat::GrayH => Option::Some(PresetFields { color_family: ColorFamily::Gray, sample_type: SampleType::Float, bits_per_sample: 16, sub_sampling_w: 0, sub_sampling_h: 0 }),
            PresetFormat::GrayS => Option::Some(PresetFields { color_family: ColorFamily::Gray, sample_type: SampleType::Float, bits_per_sample: 32, sub_sampling_w: 0, sub_sampling_h: 0 }),
            PresetFormat::YUV410P8 => Option::Some(PresetFields { color_family: ColorFamily::YUV, sample_type: SampleType::Integer, bits_per_sample: 8, sub_sampling_w: 2, sub_sampling_h: 2 }),
            PresetFormat::YUV411P8 => Option::Some(PresetFields { color_family: ColorFamily::YUV, sample_type: SampleType::Integer, bits_per_sample: 8, sub_sampling_w: 2, sub_sampling_h: 0 }),
            PresetFormat::YUV440P8 => Option::Some(PresetFields { color_family: ColorFamily::YUV, sample_type: SampleType::Integer, bits_per_sample: 8, sub_sampling_w: 0, sub_sampling_h: 1 }),
            PresetFormat::YUV420P8 => Option::Some(PresetFields { color_family: ColorFamily::YUV, sample_type: SampleType::Integer, bits_per_sample: 8, sub_sampling_w: 1, sub_sampling_h: 1 }),
            PresetFormat::YUV422P8 => Option::Some(PresetFields { color_family: ColorFamily::YUV, sample_type: SampleType::Integer, bits_per_sample: 8, sub_sampling_w: 1, sub_sampling_h: 0 }),
            PresetFormat::YUV444P8 => Option::Some(PresetFields { color_family: ColorFamily::YUV, sample_type: SampleType::Integer, bits_per_sample: 8, sub_sampling_w: 0, sub_sampling_h: 0 }),
            PresetFormat::YUV420P9 => Option::Some(PresetFields { color_family: ColorFamily::YUV, sample_type: SampleType::Integer, bits_per_sample: 9, sub_sampling_w: 1, sub_sampling_h: 1 }),
            PresetFormat::YUV422P9 => Option::Some(PresetFields { color_family: ColorFamily::YUV, sample_type: SampleType::Integer, bits_per_sample: 9, sub_sampling_w: 1, sub_sampling_h: 0 }),
            PresetFormat::YUV444P9 => Option::Some(PresetFields { color_family: ColorFamily::YUV, sample_type: SampleType::Integer, bits_per_sample: 9, sub_sampling_w: 0, sub_sampling_h: 0 }),
            PresetFormat::YUV420P10 => Option::Some(PresetFields { color_family: ColorFamily::YUV, sample_type: SampleType::Integer, bits_per_sample: 10, sub_sampling_w: 1, sub_sampling_h: 1 }),
            PresetFormat::YUV422P10 => Option::Some(PresetFields { color_family: ColorFamily::YUV, sample_type: SampleType::Integer, bits_per_sample: 10, sub_sampling_w: 1, sub_sampling_h: 0 }),
            PresetFormat::YUV444P10 => Option::Some(PresetFields { color_family: ColorFamily::YUV, sample_type: SampleType::Integer, bits_per_sample: 10, sub_sampling_w: 0, sub_sampling_h: 0 }),
            PresetFormat::YUV420P12 => Option::Some(PresetFields { color_family: ColorFamily::YUV, sample_type: SampleType::Integer, bits_per_sample: 12, sub_sampling_w: 1, sub_sampling_h: 1 }),
            PresetFormat::YUV422P12 => Option::Some(PresetFields { color_family: ColorFamily::YUV, sample_type: SampleType::Integer, bits_per_sample: 12, sub_sampling_w: 1, sub_sampling_h: 0 }),
            PresetFormat::YUV444P12 => Option::Some(PresetFields { color_family: ColorFamily::YUV, sample_type: SampleType::Integer, bits_per_sample: 12, sub_sampling_w: 0, sub_sampling_h: 0 }),
            PresetFormat::YUV420P14 => Option::Some(PresetFields { color_family: ColorFamily::YUV, sample_type: SampleType::Integer, bits_per_sample: 14, sub_sampling_w: 1, sub_sampling_h: 1 }),
            PresetFormat::YUV422P14 => Option::Some(PresetFields { color_family: ColorFamily::YUV, sample_type: SampleType::Integer, bits_per_sample: 14, sub_sampling_w: 1, sub_sampling_h: 0 }),
            PresetFormat::YUV444P14 => Option::Some(PresetFields { color_family: ColorFamily::YUV, sample_type: SampleType::Integer, bits_per_sample: 14, sub_sampling_w: 0, sub_sampling_h: 0 }),
            PresetFormat::YUV420P16 => Option::Some(PresetFields { color_family: ColorFamily::YUV, sample_type: SampleType::Integer, bits_per_sample: 16, sub_sampling_w: 1, sub_sampling_h: 1 }),
            PresetFormat::YUV422P16 => Option::Some(PresetFields { color_family: ColorFamily::YUV, sample_type: SampleType::Integer, bits_per_sample: 16, sub_sampling_w: 1, sub_sampling_h: 0 }),
            PresetFormat::YUV444P16 => Option::Some(PresetFields { color_family: ColorFamily::YUV, sample_type: SampleType::Integer, bits_per_sample: 16, sub_sampling_w: 0, sub_sampling_h: 0 }),
            PresetFormat::YUV444PH => Option::Some(PresetFields { color_family: ColorFamily::YUV, sample_type: SampleType::Float, bits_per_sample: 16, sub_sampling_w: 0, sub_sampling_h: 0 }),
            PresetFormat::YUV444PS => Option::Some(PresetFields { color_family: ColorFamily::YUV, sample_type: SampleType::Float, bits_per_sample: 32, sub_sampling_w: 0, sub_sampling_h: 0 }),
            PresetFormat::RGB24 => Option::Some(PresetFields { color_family: ColorFamily::RGB, sample_type: SampleType::Integer, bits_per_sample: 8, sub_sampling_w: 0, sub_sampling_h: 0 }),
            PresetFormat::RGB27 => Option::Some(PresetFields { color_family: ColorFamily::RGB, sample_type: SampleType::Integer, bits_per_sample: 9, sub_sampling_w: 0, sub_sampling_h: 0 }),
            PresetFormat::RGB30 => Option::Some(PresetFields { color_family: ColorFamily::RGB, sample_type: SampleType::Integer, bits_per_sample: 10, sub_sampling_w: 0, sub_sampling_h: 0 }),
            PresetFormat::RGB36 => Option::Some(PresetFields { color_family: ColorFamily::RGB, sample_type: SampleType::Integer, bits_per_sample: 12, sub_sampling_w: 0, sub_sampling_h: 0 }),
            PresetFormat::RGB42 => Option::Some(PresetFields { color_family: ColorFamily::RGB, sample_type: SampleType::Integer, bits_per_sample: 14, sub_sampling_w: 0, sub_sampling_h: 0 }),
            PresetFormat::RGB48 => Option::Some(PresetFields { color_family: ColorFamily::RGB, sample_type: SampleType::Integer, bits_per_sample: 16, sub_sampling_w: 0, sub_sampling_h: 0 }),
            PresetFormat::RGBH => Option::Some(PresetFields { color_family: ColorFamily::RGB, sample_type: SampleType::Float, bits_per_sample: 16, sub_sampling_w: 0, sub_sampling_h: 0 }),
            PresetFormat::RGBS => Option::Some(PresetFields { color_family: ColorFamily::RGB, sample_type: SampleType::Float, bits_per_sample: 32, sub_sampling_w: 0, sub_sampling_h: 0 }),
        }
    }

    /// The fields of the preset, or `None` for the `NoFormat` preset.
    pub fn fields(self) -> (r: Option<PresetFields>)
        ensures
            r == self.spec_fields(),
    {
        match self {
            PresetFormat::NoFormat => Option::None,
            PresetFormat::Gray8 => Option::Some(PresetFields { color_family: ColorFamily::Gray, sample_type: SampleType::Integer, bits_per_sample: 8, sub_sampling_w: 0, sub_sampling_h: 0 }),
            PresetFormat::Gray9 => Option::Some(PresetFields { color_family: ColorFamily::Gray, sample_type: SampleType::Integer, bits_per_sample: 9, sub_sampling_w: 0, sub_sampling_h: 0 }),
            PresetFormat::Gray10 => Option::Some(PresetFields { color_family: ColorFamily::Gray, sample_type: SampleType::Integer, bits_per_sample: 10, sub_sampling_w: 0, sub_sampling_h: 0 }),
            PresetFormat::Gray12 => Option::Some(PresetFields { color_family: ColorFamily::Gray, sample_type: SampleType::Integer, bits_per_sample: 12, sub_sampling_w: 0, sub_sampling_h: 0 }),
            PresetFormat::Gray14 => Option::Some(PresetFields { color_family: ColorFamily::Gray, sample_type: SampleType::Integer, bits_per_sample: 14, sub_sampling_w: 0, sub_sampling_h: 0 }),
            PresetFormat::Gray16 => Option::Some(PresetFields { color_family: ColorFamily::Gray, sample_type: SampleType::Integer, bits_per_sample: 16, sub_sampling_w: 0, sub_sampling_h: 0 }),
            PresetFormat::Gray32 => Option::Some(PresetFields { color_family: ColorFamily::Gray, sample_type: SampleType::Integer, bits_per_sample: 32, sub_sampling_w: 0, sub_sampling_h: 0 }),
            PresetFormat::GrayH => Option::Some(PresetFields { color_family: ColorFamily::Gray, sample_type: SampleType::Float, bits_per_sample: 16, sub_sampling_w: 0, sub_sampling_h: 0 }),
            PresetFormat::GrayS => Option::Some(PresetFields { color_family: ColorFamily::Gray, sample_type: SampleType::Float, bits_per_sample: 32, sub_sampling_w: 0, sub_sampling_h: 0 }),
            PresetFormat::YUV410P8 => Option::Some(PresetFields { color_family: ColorFamily::YUV, sample_type: SampleType::Integer, bits_per_sample: 8, sub_sampling_w: 2, sub_sampling_h: 2 }),
            PresetFormat::YUV411P8 => Option::Some(PresetFields { color_family: ColorFamily::YUV, sample_type: SampleType::Integer, bits_per_sample: 8, sub_sampling_w: 2, sub_sampling_h: 0 }),
            PresetFormat::YUV440P8 => Option::Some(PresetFields { color_family: ColorFamily::YUV, sample_type: SampleType::Integer, bits_per_sample: 8, sub_sampling_w: 0, sub_sampling_h: 1 }),
            PresetFormat::YUV420P8 => Option::Some(PresetFields { color_family: ColorFamily::YUV, sample_type: SampleType::Integer, bits_per_sample: 8, sub_sampling_w: 1, sub_sampling_h: 1 }),
            PresetFormat::YUV422P8 => Option::Some(PresetFields { color_family: ColorFamily::YUV, sample_type: SampleType::Integer, bits_per_sample: 8, sub_sampling_w: 1, sub_sampling_h: 0 }),
            PresetFormat::YUV444P8 => Option::Some(PresetFields { color_family: ColorFamily::YUV, sample_type: SampleType::Integer, bits_per_sample: 8, sub_sampling_w: 0, sub_sampling_h: 0 }),
            PresetFormat::YUV420P9 => Option::Some(PresetFields { color_family: ColorFamily::YUV, sample_type: SampleType::Integer, bits_per_sample: 9, sub_sampling_w: 1, sub_sampling_h: 1 }),
            PresetFormat::YUV422P9 => Option::Some(PresetFields { color_family: ColorFamily::YUV, sample_type: SampleType::Integer, bits_per_sample: 9, sub_sampling_w: 1, sub_sampling_h: 0 }),
            PresetFormat::YUV444P9 => Option::Some(PresetFields { color_family: ColorFamily::YUV, sample_type: SampleType::Integer, bits_per_sample: 9, sub_sampling_w: 0, sub_sampling_h: 0 }),
            PresetFormat::YUV420P10 => Option::Some(PresetFields { color_family: ColorFamily::YUV, sample_type: SampleType::Integer, bits_per_sample: 10, sub_sampling_w: 1, sub_sampling_h: 1 }),
            PresetFormat::YUV422P10 => Option::Some(PresetFields { color_family: ColorFamily::YUV, sample_type: SampleType::Integer, bits_per_sample: 10, sub_sampling_w: 1, sub_sampling_h: 0 }),
            PresetFormat::YUV444P10 => Option::Some(PresetFields { color_family: ColorFamily::YUV, sample_type: SampleType::Integer, bits_per_sample: 10, sub_sampling_w: 0, sub_sampling_h: 0 }),
            PresetFormat::YUV420P12 => Option::Some(PresetFields { color_family: ColorFamily::YUV, sample_type: SampleType::Integer, bits_per_sample: 12, sub_sampling_w: 1, sub_sampling_h: 1 }),
            PresetFormat::YUV422P12 => Option::Some(PresetFields { color_family: ColorFamily::YUV, sample_type: SampleType::Integer, bits_per_sample: 12, sub_sampling_w: 1, sub_sampling_h: 0 }),
            PresetFormat::YUV444P12 => Option::Some(PresetFields { color_family: ColorFamily::YUV, sample_type: SampleType::Integer, bits_per_sample: 12, sub_sampling_w: 0, sub_sampling_h: 0 }),
            PresetFormat::YUV420P14 => Option::Some(PresetFields { color_family: ColorFamily::YUV, sample_type: SampleType::Integer, bits_per_sample: 14, sub_sampling_w: 1, sub_sampling_h: 1 }),
            PresetFormat::YUV422P14 => Option::Some(PresetFields { color_family: ColorFamily::YUV, sample_type: SampleType::Integer, bits_per_sample: 14, sub_sampling_w: 1, sub_sampling_h: 0 }),
            PresetFormat::YUV444P14 => Option::Some(PresetFields { color_family: ColorFamily::YUV, sample_type: SampleType::Integer, bits_per_sample: 14, sub_sampling_w: 0, sub_sampling_h: 0 }),
            PresetFormat::YUV420P16 => Option::Some(PresetFields { color_family: ColorFamily::YUV, sample_type: SampleType::Integer, bits_per_sample: 16, sub_sampling_w: 1, sub_sampling_h: 1 }),
            PresetFormat::YUV422P16 => Option::Some(PresetFields { color_family: ColorFamily::YUV, sample_type: SampleType::Integer, bits_per_sample: 16, sub_sampling_w: 1, sub_sampling_h: 0 }),
            PresetFormat::YUV444P16 => Option::Some(PresetFields { color_family: ColorFamily::YUV, sample_type: SampleType::Integer, bits_per_sample: 16, sub_sampling_w: 0, sub_sampling_h: 0 }),
            PresetFormat::YUV444PH => Option::Some(PresetFields { color_family: ColorFamily::YUV, sample_type: SampleType::Float, bits_per_sample: 16, sub_sampling_w: 0, sub_sampling_h: 0 }),
            PresetFormat::YUV444PS => Option::Some(PresetFields { color_family: ColorFamily::YUV, sample_type: SampleType::Float, bits_per_sample: 32, sub_sampling_w: 0, sub_sampling_h: 0 }),
            PresetFormat::RGB24 => Option::Some(PresetFields { color_family: ColorFamily::RGB, sample_type: SampleType::Integer, bits_per_sample: 8, sub_sampling_w: 0, sub_sampling_h: 0 }),
            PresetFormat::RGB27 => Option::Some(PresetFields { color_family: ColorFamily::RGB, sample_type: SampleType::Integer, bits_per_sample: 9, sub_sampling_w: 0, sub_sampling_h: 0 }),
            PresetFormat::RGB30 => Option::Some(PresetFields { color_family: ColorFamily::RGB, sample_type: SampleType::Integer, bits_per_sample: 10, sub_sampling_w: 0, sub_sampling_h: 0 }),
            PresetFormat::RGB36 => Option::Some(PresetFields { color_family: ColorFamily::RGB, sample_type: SampleType::Integer, bits_per_sample: 12, sub_sampling_w: 0, sub_sampling_h: 0 }),
            PresetFormat::RGB42 => Option::Some(PresetFields { color_family: ColorFamily::RGB, sample_type: SampleType::Integer, bits_per_sample: 14, sub_sampling_w: 0, sub_sampling_h: 0 }),
            PresetFormat::RGB48 => Option::Some(PresetFields { color_family: ColorFamily::RGB, sample_type: SampleType::Integer, bits_per_sample: 16, sub_sampling_w: 0, sub_sampling_h: 0 }),
            PresetFormat::RGBH => Option::Some(PresetFields { color_family: ColorFamily::RGB, sample_type: SampleType::Float, bits_per_sample: 16, sub_sampling_w: 0, sub_sampling_h: 0 }),
            PresetFormat::RGBS => Option::Some(PresetFields { color_family: ColorFamily::RGB, sample_type: SampleType::Float, bits_per_sample: 32, sub_sampling_w: 0, sub_sampling_h: 0 }),
        }
    }

    /// The identifier of the preset: zero for `NoFormat`, otherwise the packed fields.
    pub open spec fn spec_id(self) -> i32 {
        match self.spec_fields() {
            Option::None => 0,
            Option::Some(f) => f.spec_id(),
        }
    }

    /// The identifier of the preset: zero for `NoFormat`, otherwise the packed fields.
    pub fn id(self) -> (r: i32)
        ensures
            r == self.spec_id(),
    {
        match self.fields() {
            Option::None => 0,
            Option::Some(f) => make_video_id(
                f.color_family,
                f.sample_type,
                f.bits_per_sample,
                f.sub_sampling_w,
                f.sub_sampling_h,
            ),
        }
    }
}

/// Preset video format identifiers as defined by VapourSynth.
///
/// The presets suffixed with H and S have floating point sample type. The H and S suffixes stand
/// for half precision and single precision, respectively.
#[derive(Debug, Clone, Copy, PartialEq, Eq, Structural, Hash, PartialOrd, Ord)]
pub enum PresetVideoFormat {
    NoFormat,
    Gray8,
    Gray9,
    Gray10,
    Gray12,
    Gray14,
    Gray16,
    Gray32,
    GrayH,
    GrayS,
    YUV410P8,
    YUV411P8,
    YUV440P8,
    YUV420P8,
    YUV422P8,
    YUV444P8,
    YUV420P9,
    YUV422P9,
    YUV444P9,
    YUV420P10,
    YUV422P10,
    YUV444P10,
    YUV420P12,
    YUV422P12,
    YUV444P12,
    YUV420P14,
    YUV422P14,
    YUV444P14,
    YUV420P16,
    YUV422P16,
    YUV444P16,
    YUV444PH,
    YUV444PS,
    RGB24,
    RGB27,
    RGB30,
    RGB36,
    RGB42,
    RGB48,
    RGBH,
    RGBS,
}

impl PresetVideoFormat {
    /// The preset of the same name.
    pub open spec fn spec_preset(self) -> PresetFormat {
        match self {
            PresetVideoFormat::NoFormat => PresetFormat::NoFormat,
            PresetVideoFormat::Gray8 => PresetFormat::Gray8,
            PresetVideoFormat::Gray9 => PresetFormat::Gray9,
            PresetVideoFormat::Gray10 => PresetFormat::Gray10,
            PresetVideoFormat::Gray12 => PresetFormat::Gray12,
            PresetVideoFormat::Gray14 => PresetFormat::Gray14,
            PresetVideoFormat::Gray16 => PresetFormat::Gray16,
            PresetVideoFormat::Gray32 => PresetFormat::Gray32,
            PresetVideoFormat::GrayH => PresetFormat::GrayH,
            PresetVideoFormat::GrayS => PresetFormat::GrayS,
            PresetVideoFormat::YUV410P8 => PresetFormat::YUV410P8,
            PresetVideoFormat::YUV411P8 => PresetFormat::YUV411P8,
            PresetVideoFormat::YUV440P8 => PresetFormat::YUV440P8,
            PresetVideoFormat::YUV420P8 => PresetFormat::YUV420P8,
            PresetVideoFormat::YUV422P8 => PresetFormat::YUV422P8,
            PresetVideoFormat::YUV444P8 => PresetFormat::YUV444P8,
            PresetVideoFormat::YUV420P9 => PresetFormat::YUV420P9,
            PresetVideoFormat::YUV422P9 => PresetFormat::YUV422P9,
            PresetVideoFormat::YUV444P9 => PresetFormat::YUV444P9,
            PresetVideoFormat::YUV420P10 => PresetFormat::YUV420P10,
            PresetVideoFormat::YUV422P10 => PresetFormat::YUV422P10,
            PresetVideoFormat::YUV444P10 => PresetFormat::YUV444P10,
            PresetVideoFormat::YUV420P12 => PresetFormat::YUV420P12,
            PresetVideoFormat::YUV422P12 => PresetFormat::YUV422P12,
            PresetVideoFormat::YUV444P12 => PresetFormat::YUV444P12,
            PresetVideoFormat::YUV420P14 => PresetFormat::YUV420P14,
            PresetVideoFormat::YUV422P14 => PresetFormat::YUV422P14,
            PresetVideoFormat::YUV444P14 => PresetFormat::YUV444P14,
            PresetVideoFormat::YUV420P16 => PresetFormat::YUV420P16,
            PresetVideoFormat::YUV422P16 => PresetFormat::YUV422P16,
            PresetVideoFormat::YUV444P16 => PresetFormat::YUV444P16,
            PresetVideoFormat::YUV444PH => PresetFormat::YUV444PH,
            PresetVideoFormat::YUV444PS => PresetFormat::YUV444PS,
            PresetVideoFormat::RGB24 => PresetFormat::RGB24,
            PresetVideoFormat::RGB27 => PresetFormat::RGB27,
            PresetVideoFormat::RGB30 => PresetFormat::RGB30,
            PresetVideoFormat::RGB36 => PresetFormat::RGB36,
            PresetVideoFormat::RGB42 => PresetFormat::RGB42,
            PresetVideoFormat::RGB48 => PresetFormat::RGB48,
            PresetVideoFormat::RGBH => PresetFormat::RGBH,
            PresetVideoFormat::RGBS => PresetFormat::RGBS,
        }
    }

    /// The preset of the same name.
    pub fn preset(self) -> (r: PresetFormat)
        ensures
            r == self.spec_preset(),
    {
        match self {
            PresetVideoFormat::NoFormat => PresetFormat::NoFormat,
            PresetVideoFormat::Gray8 => PresetFormat::Gray8,
            PresetVideoFormat::Gray9 => PresetFormat::Gray9,
            PresetVideoFormat::Gray10 => PresetFormat::Gray10,
            PresetVideoFormat::Gray12 => PresetFormat::Gray12,
            PresetVideoFormat::Gray14 => PresetFormat::Gray14,
            PresetVideoFormat::Gray16 => PresetFormat::Gray16,
            PresetVideoFormat::Gray32 => PresetFormat::Gray32,
            PresetVideoFormat::GrayH => PresetFormat::GrayH,
            PresetVideoFormat::GrayS => PresetFormat::GrayS,
            PresetVideoFormat::YUV410P8 => PresetFormat::YUV410P8,
            PresetVideoFormat::YUV411P8 => PresetFormat::YUV411P8,
            PresetVideoFormat::YUV440P8 => PresetFormat::YUV440P8,
            PresetVideoFormat::YUV420P8 => PresetFormat::YUV420P8,
            PresetVideoFormat::YUV422P8 => PresetFormat::YUV422P8,
            PresetVideoFormat::YUV444P8 => PresetFormat::YUV444P8,
            PresetVideoFormat::YUV420P9 => PresetFormat::YUV420P9,
            PresetVideoFormat::YUV422P9 => PresetFormat::YUV422P9,
            PresetVideoFormat::YUV444P9 => PresetFormat::YUV444P9,
            PresetVideoFormat::YUV420P10 => PresetFormat::YUV420P10,
            PresetVideoFormat::YUV422P10 => PresetFormat::YUV422P10,
            PresetVideoFormat::YUV444P10 => PresetFormat::YUV444P10,
            PresetVideoFormat::YUV420P12 => PresetFormat::YUV420P12,
            PresetVideoFormat::YUV422P12 => PresetFormat::YUV422P12,
            PresetVideoFormat::YUV444P12 => PresetFormat::YUV444P12,
            PresetVideoFormat::YUV420P14 => PresetFormat::YUV420P14,
            PresetVideoFormat::YUV422P14 => PresetFormat::YUV422P14,
            PresetVideoFormat::YUV444P14 => PresetFormat::YUV444P14,
            PresetVideoFormat::YUV420P16 => PresetFormat::YUV420P16,
            PresetVideoFormat::YUV422P16 => PresetFormat::YUV422P16,
            PresetVideoFormat::YUV444P16 => PresetFormat::YUV444P16,
            PresetVideoFormat::YUV444PH => PresetFormat::YUV444PH,
            PresetVideoFormat::YUV444PS => PresetFormat::YUV444PS,
            PresetVideoFormat::RGB24 => PresetFormat::RGB24,
            PresetVideoFormat::RGB27 => PresetFormat::RGB27,
            PresetVideoFormat::RGB30 => PresetFormat::RGB30,
            PresetVideoFormat::RGB36 => PresetFormat::RGB36,
            PresetVideoFormat::RGB42 => PresetFormat::RGB42,
            PresetVideoFormat::RGB48 => PresetFormat::RGB48,
            PresetVideoFormat::RGBH => PresetFormat::RGBH,
            PresetVideoFormat::RGBS => PresetFormat::RGBS,
        }
    }

    /// The identifier of the preset: zero for `NoFormat`, otherwise the packed fields.
    pub open spec fn spec_id(self) -> i32 {
        self.spec_preset().spec_id()
    }

    /// The identifier of the preset: zero for `NoFormat`, otherwise the packed fields.
    pub fn id(self) -> (r: i32)
        ensures
            r == self.spec_id(),
    {
        self.preset().id()
    }
}




/// Each preset is the VapourSynth format its name states: the number of the
/// preset is the identifier that packs colour family (Gray 1, RGB 2, YUV 3)
/// in bits 28 and up, sample type (integer 0, float 1) from bit 24, bits per
/// sample from bit 16, horizontal subsampling from bit 8 and vertical
/// subsampling in the lowest byte. `YUV420Pn` is subsampled both ways,
/// `YUV422Pn` horizontally only, `YUV444Pn`, `Gray` and `RGB` not at all;
/// `H` and `S` name 16- and 32-bit float samples, `RGB24` to `RGB48` three
/// planes of 8 to 16 bits.
pub proof fn lemma_preset_numbers()
    ensures
        PresetFormat::NoFormat.spec_id() == 0,
        PresetFormat::Gray8.spec_id() == 0x10080000,
        PresetFormat::Gray9.spec_id() == 0x10090000,
        PresetFormat::Gray10.spec_id() == 0x100a0000,
        PresetFormat::Gray12.spec_id() == 0x100c0000,
        PresetFormat::Gray14.spec_id() == 0x100e0000,
        PresetFormat::Gray16.spec_id() == 0x10100000,
        PresetFormat::Gray32.spec_id() == 0x10200000,
        PresetFormat::GrayH.spec_id() == 0x11100000,
        PresetFormat::GrayS.spec_id() == 0x11200000,
        PresetFormat::YUV410P8.spec_id() == 0x30080202,
        PresetFormat::YUV411P8.spec_id() == 0x30080200,
        PresetFormat::YUV440P8.spec_id() == 0x30080001,
        PresetFormat::YUV420P8.spec_id() == 0x30080101,
        PresetFormat::YUV422P8.spec_id() == 0x30080100,
        PresetFormat::YUV444P8.spec_id() == 0x30080000,
        PresetFormat::YUV420P9.spec_id() == 0x30090101,
        PresetFormat::YUV422P9.spec_id() == 0x30090100,
        PresetFormat::YUV444P9.spec_id() == 0x30090000,
        PresetFormat::YUV420P10.spec_id() == 0x300a0101,
        PresetFormat::YUV422P10.spec_id() == 0x300a0100,
        PresetFormat::YUV444P10.spec_id() == 0x300a0000,
        PresetFormat::YUV420P12.spec_id() == 0x300c0101,
        PresetFormat::YUV422P12.spec_id() == 0x300c0100,
        PresetFormat::YUV444P12.spec_id() == 0x300c0000,
        PresetFormat::YUV420P14.spec_id() == 0x300e0101,
        PresetFormat::YUV422P14.spec_id() == 0x300e0100,
        PresetFormat::YUV444P14.spec_id() == 0x300e0000,
        PresetFormat::YUV420P16.spec_id() == 0x30100101,
        PresetFormat::YUV422P16.spec_id() == 0x30100100,
        PresetFormat::YUV444P16.spec_id() == 0x30100000,
        PresetFormat::YUV444PH.spec_id() == 0x31100000,
        PresetFormat::YUV444PS.spec_id() == 0x31200000,
        PresetFormat::RGB24.spec_id() == 0x20080000,
        PresetFormat::RGB27.spec_id() == 0x20090000,
        PresetFormat::RGB30.spec_id() == 0x200a0000,
        PresetFormat::RGB36.spec_id() == 0x200c0000,
        PresetFormat::RGB42.spec_id() == 0x200e0000,
        PresetFormat::RGB48.spec_id() == 0x20100000,
        PresetFormat::RGBH.spec_id() == 0x21100000,
        PresetFormat::RGBS.spec_id() == 0x21200000,
        PresetVideoFormat::NoFormat.spec_id() == 0,
        PresetVideoFormat::Gray8.spec_id() == 0x10080000,
        PresetVideoFormat::Gray9.spec_id() == 0x10090000,
        PresetVideoFormat::Gray10.spec_id() == 0x100a0000,
        PresetVideoFormat::Gray12.spec_id() == 0x100c0000,
        PresetVideoFormat::Gray14.spec_id() == 0x100e0000,
        PresetVideoFormat::Gray16.spec_id() == 0x10100000,
        PresetVideoFormat::Gray32.spec_id() == 0x10200000,
        PresetVideoFormat::GrayH.spec_id() == 0x11100000,
        PresetVideoFormat::GrayS.spec_id() == 0x11200000,
        PresetVideoFormat::YUV410P8.spec_id() == 0x30080202,
        PresetVideoFormat::YUV411P8.spec_id() == 0x30080200,
        PresetVideoFormat::YUV440P8.spec_id() == 0x30080001,
        PresetVideoFormat::YUV420P8.spec_id() == 0x30080101,
        PresetVideoFormat::YUV422P8.spec_id() == 0x30080100,
        PresetVideoFormat::YUV444P8.spec_id() == 0x30080000,
        PresetVideoFormat::YUV420P9.spec_id() == 0x30090101,
        PresetVideoFormat::YUV422P9.spec_id() == 0x30090100,
        PresetVideoFormat::YUV444P9.spec_id() == 0x30090000,
        PresetVideoFormat::YUV420P10.spec_id() == 0x300a0101,
        PresetVideoFormat::YUV422P10.spec_id() == 0x300a0100,
        PresetVideoFormat::YUV444P10.spec_id() == 0x300a0000,
        PresetVideoFormat::YUV420P12.spec_id() == 0x300c0101,
        PresetVideoFormat::YUV422P12.spec_id() == 0x300c0100,
        PresetVideoFormat::YUV444P12.spec_id() == 0x300c0000,
        PresetVideoFormat::YUV420P14.spec_id() == 0x300e0101,
        PresetVideoFormat::YUV422P14.spec_id() == 0x300e0100,
        PresetVideoFormat::YUV444P14.spec_id() == 0x300e0000,
        PresetVideoFormat::YUV420P16.spec_id() == 0x30100101,
        PresetVideoFormat::YUV422P16.spec_id() == 0x30100100,
        PresetVideoFormat::YUV444P16.spec_id() == 0x30100000,
        PresetVideoFormat::YUV444PH.spec_id() == 0x31100000,
        PresetVideoFormat::YUV444PS.spec_id() == 0x31200000,
        PresetVideoFormat::RGB24.spec_id() == 0x20080000,
        PresetVideoFormat::RGB27.spec_id() == 0x20090000,
        PresetVideoFormat::RGB30.spec_id() == 0x200a0000,
        PresetVideoFormat::RGB36.spec_id() == 0x200c0000,
        PresetVideoFormat::RGB42.spec_id() == 0x200e0000,
        PresetVideoFormat::RGB48.spec_id() == 0x20100000,
        PresetVideoFormat::RGBH.spec_id() == 0x21100000,
        PresetVideoFormat::RGBS.spec_id() == 0x21200000,
{
    lemma_video_id_fields(ColorFamily::Gray, SampleType::Integer, 8, 0, 0);
    lemma_video_id_fields(ColorFamily::Gray, SampleType::Integer, 9, 0, 0);
    lemma_video_id_fields(ColorFamily::Gray, SampleType::Integer, 10, 0, 0);
    lemma_video_id_fields(ColorFamily::Gray, SampleType::Integer, 12, 0, 0);
    lemma_video_id_fields(ColorFamily::Gray, SampleType::Integer, 14, 0, 0);
    lemma_video_id_fields(ColorFamily::Gray, SampleType::Integer, 16, 0, 0);
    lemma_video_id_fields(ColorFamily::Gray, SampleType::Integer, 32, 0, 0);
    lemma_video_id_fields(ColorFamily::Gray, SampleType::Float, 16, 0, 0);
    lemma_video_id_fields(ColorFamily::Gray, SampleType::Float, 32, 0, 0);
    lemma_video_id_fields(ColorFamily::YUV, SampleType::Integer, 8, 2, 2);
    lemma_video_id_fields(ColorFamily::YUV, SampleType::Integer, 8, 2, 0);
    lemma_video_id_fields(ColorFamily::YUV, SampleType::Integer, 8, 0, 1);
    lemma_video_id_fields(ColorFamily::YUV, SampleType::Integer, 8, 1, 1);
    lemma_video_id_fields(ColorFamily::YUV, SampleType::Integer, 8, 1, 0);
    lemma_video_id_fields(ColorFamily::YUV, SampleType::Integer, 8, 0, 0);
    lemma_video_id_fields(ColorFamily::YUV, SampleType::Integer, 9, 1, 1);
    lemma_video_id_fields(ColorFamily::YUV, SampleType::Integer, 9, 1, 0);
    lemma_video_id_fields(ColorFamily::YUV, SampleType::Integer, 9, 0, 0);
    lemma_video_id_fields(ColorFamily::YUV, SampleType::Integer, 10, 1, 1);
    lemma_video_id_fields(ColorFamily::YUV, SampleType::Integer, 10, 1, 0);
    lemma_video_id_fields(ColorFamily::YUV, SampleType::Integer, 10, 0, 0);
    lemma_video_id_fields(ColorFamily::YUV, SampleType::Integer, 12, 1, 1);
    lemma_video_id_fields(ColorFamily::YUV, SampleType::Integer, 12, 1, 0);
    lemma_video_id_fields(ColorFamily::YUV, SampleType::Integer, 12, 0, 0);
    lemma_video_id_fields(ColorFamily::YUV, SampleType::Integer, 14, 1, 1);
    lemma_video_id_fields(ColorFamily::YUV, SampleType::Integer, 14, 1, 0);
    lemma_video_id_fields(ColorFamily::YUV, SampleType::Integer, 14, 0, 0);
    lemma_video_id_fields(ColorFamily::YUV, SampleType::Integer, 16, 1, 1);
    lemma_video_id_fields(ColorFamily::YUV, SampleType::Integer, 16, 1, 0);
    lemma_video_id_fields(ColorFamily::YUV, SampleType::Integer, 16, 0, 0);
    lemma_video_id_fields(ColorFamily::YUV, SampleType::Float, 16, 0, 0);
    lemma_video_id_fields(ColorFamily::YUV, SampleType::Float, 32, 0, 0);
    lemma_video_id_fields(ColorFamily::RGB, SampleType::Integer, 8, 0, 0);
    lemma_video_id_fields(ColorFamily::RGB, SampleType::Integer, 9, 0, 0);
    lemma_video_id_fields(ColorFamily::RGB, SampleType::Integer, 10, 0, 0);
    lemma_video_id_fields(ColorFamily::RGB, SampleType::Integer, 12, 0, 0);
    lemma_video_id_fields(ColorFamily::RGB, SampleType::Integer, 14, 0, 0);
    lemma_video_id_fields(ColorFamily::RGB, SampleType::Integer, 16, 0, 0);
    lemma_video_id_fields(ColorFamily::RGB, SampleType::Float, 16, 0, 0);
    lemma_video_id_fields(ColorFamily::RGB, SampleType::Float, 32, 0, 0);
}

/// Every preset other than `None` has a non-zero identifier, different from
/// the identifier of every other preset.
pub proof fn lemma_preset_ids_distinct(p: PresetFormat, q: PresetFormat)
    ensures
        p != PresetFormat::NoFormat ==> p.spec_id() != 0,
        p.spec_id() == q.spec_id() ==> p == q,
{
    if let Option::Some(f) = p.spec_fields() {
        lemma_video_id_fields(
            f.color_family,
            f.sample_type,
            f.bits_per_sample,
            f.sub_sampling_w,
            f.sub_sampling_h,
        );
    }
    if let Option::Some(g) = q.spec_fields() {
        lemma_video_id_fields(
            g.color_family,
            g.sample_type,
            g.bits_per_sample,
            g.sub_sampling_w,
            g.sub_sampling_h,
        );
    }
    if p.spec_id() == q.spec_id() {
        match (p.spec_fields(), q.spec_fields()) {
            (Option::Some(f), Option::Some(g)) => {
                lemma_video_id_injective(f, g);
                assert(p.spec_fields() == q.spec_fields());
            },
            _ => {},
        }
    }
}

/// The number of bytes that holds a sample of the given number of bits: the
/// smallest power of two that is at least the bits divided by eight.
pub open spec fn bytes_for_bits(bits: int) -> int {
    if bits <= 8 {
        1
    } else if bits <= 16 {
        2
    } else if bits <= 32 {
        4
    } else {
        8
    }
}

/// The number of planes of a video format of the given colour family: one for
/// gray and undefined formats, three for RGB and YUV.
pub open spec fn planes_for(color_family: ColorFamily) -> int {
    match color_family {
        ColorFamily::Gray | ColorFamily::Undefined => 1,
        _ => 3,
    }
}

/// Describes the format of a clip.
#[derive(Debug, Clone, Copy, PartialEq, Eq, Structural, Hash)]
pub struct VideoFormat {
    pub color_family: ColorFamily,
    pub sample_type: SampleType,
    /// Number of significant bits.
    pub bits_per_sample: i32,
    /// Number of bytes needed for a sample. This is always a power of 2 and the smallest possible that can fit the number of bits used per sample.
    pub bytes_per_sample: i32,
    pub sub_sampling_w: i32,
    /// log2 subsampling factor, applied to second and third plane. Convenient numbers that can be used like so:
    /// `uv_width = y_width >> subSamplingW;`
    pub sub_sampling_h: i32,
    /// Number of planes.
    pub num_planes: i32,
}

/// The video format record of the VapourSynth API, with every field a plain integer.
#[derive(Debug, Clone, Copy, PartialEq, Eq, Structural, Hash)]
pub struct RawVideoFormat {
    pub color_family: i32,
    pub sample_type: i32,
    pub bits_per_sample: i32,
    pub bytes_per_sample: i32,
    pub sub_sampling_w: i32,
    pub sub_sampling_h: i32,
    pub num_planes: i32,
}

/// Information about a video clip
#[derive(Debug, Clone, Copy, PartialEq, Eq, Structural, Hash)]
pub struct VideoInfo {
    /// Format of the clip. Will have color_family set to [ColorFamily::Undefined] if the format can vary.
    pub format: VideoFormat,
    /// Numerator part of the clip’s frame rate. It will be 0 if the frame rate can vary. Should always be a reduced fraction.
    pub fps_num: i64,
    /// Denominator part of the clip’s frame rate. It will be 0 if the frame rate can vary. Should always be a reduced fraction.
    pub fps_den: i64,
    /// Width of the clip. Both width and height will be 0 if the clip’s dimensions can vary.
    pub width: i32,
    /// Height of the clip. Both width and height will be 0 if the clip’s dimensions can vary.
    pub height: i32,
    /// Length of the clip.
    pub num_frames: i32,
}

/// The video information record of the VapourSynth API.
#[derive(Debug, Clone, Copy, PartialEq, Eq, Structural, Hash)]
pub struct RawVideoInfo {
    pub format: RawVideoFormat,
    pub fps_num: i64,
    pub fps_den: i64,
    pub width: i32,
    pub height: i32,
    pub num_frames: i32,
}

/// Errors that can occur when creating formats
#[derive(Debug, Clone, Copy, PartialEq, Eq, Structural)]
pub enum FormatError {
    /// Invalid video format parameters
    InvalidVideoFormat {
        color_family: ColorFamily,
        sample_type: SampleType,
        bits_per_sample: i32,
        sub_sampling_w: i32,
        sub_sampling_h: i32,
    },
    /// Invalid audio format parameters
    InvalidAudioFormat { sample_type: SampleType, bits_per_sample: i32, channel_layout: u64 },
}

impl RawVideoFormat {
    /// The colour family field holds one of the four numbers that VapourSynth defines.
    pub open spec fn has_known_color_family(self) -> bool {
        0 <= self.color_family <= 3
    }
}

impl VideoFormat {
    /// The format read from a VapourSynth record.
    pub open spec fn spec_from_ptr(raw: RawVideoFormat) -> VideoFormat {
        VideoFormat {
            color_family: ColorFamily::spec_from_code(raw.color_family as int).unwrap(),
            sample_type: SampleType::spec_from_code(raw.sample_type as int),
            bits_per_sample: raw.bits_per_sample,
            bytes_per_sample: raw.bytes_per_sample,
            sub_sampling_w: raw.sub_sampling_w,
            sub_sampling_h: raw.sub_sampling_h,
            num_planes: raw.num_planes,
        }
    }

    /// The VapourSynth record of this format.
    pub open spec fn spec_as_ptr(self) -> RawVideoFormat {
        RawVideoFormat {
            color_family: self.color_family.spec_code() as i32,
            sample_type: self.sample_type.spec_code() as i32,
            bits_per_sample: self.bits_per_sample,
            bytes_per_sample: self.bytes_per_sample,
            sub_sampling_w: self.sub_sampling_w,
            sub_sampling_h: self.sub_sampling_h,
            num_planes: self.num_planes,
        }
    }

    /// Reads a format from a VapourSynth record, whose colour family must be
    /// one that VapourSynth defines.
    pub fn from_ptr(raw: &RawVideoFormat) -> (r: VideoFormat)
        requires
            raw.has_known_color_family(),
        ensures
            r == Self::spec_from_ptr(*raw),
    {
        let color_family = match ColorFamily::from_code(raw.color_family) {
            Some(c) => c,
            None => ColorFamily::Undefined,
        };
        VideoFormat {
            color_family,
            sample_type: SampleType::from_code(raw.sample_type),
            bits_per_sample: raw.bits_per_sample,
            bytes_per_sample: raw.bytes_per_sample,
            sub_sampling_w: raw.sub_sampling_w,
            sub_sampling_h: raw.sub_sampling_h,
            num_planes: raw.num_planes,
        }
    }

    /// The VapourSynth record of this format.
    pub fn as_ptr(&self) -> (r: RawVideoFormat)
        ensures
            r == self.spec_as_ptr(),
    {
        RawVideoFormat {
            color_family: self.color_family.code(),
            sample_type: self.sample_type.code(),
            bits_per_sample: self.bits_per_sample,
            bytes_per_sample: self.bytes_per_sample,
            sub_sampling_w: self.sub_sampling_w,
            sub_sampling_h: self.sub_sampling_h,
            num_planes: self.num_planes,
        }
    }

    /// Turns the outcome of VapourSynth's format query into a result: the
    /// filled record when the query succeeded (`success != 0`), otherwise an
    /// error that names the parameters that were asked for.
    pub fn query(
        color_family: ColorFamily,
        sample_type: SampleType,
        bits_per_sample: i32,
        sub_sampling_w: i32,
        sub_sampling_h: i32,
        success: i32,
        format: &RawVideoFormat,
    ) -> (r: Result<VideoFormat, FormatError>)
        requires
            success != 0 ==> format.has_known_color_family(),
        ensures
            success != 0 ==> r == Ok::<VideoFormat, FormatError>(Self::spec_from_ptr(*format)),
            success == 0 ==> r == Err::<VideoFormat, FormatError>(
                FormatError::InvalidVideoFormat {
                    color_family,
                    sample_type,
                    bits_per_sample,
                    sub_sampling_w,
                    sub_sampling_h,
                },
            ),
    {
        if success != 0 {
            Ok(Self::from_ptr(format))
        } else {
            Err(
                FormatError::InvalidVideoFormat {
                    color_family,
                    sample_type,
                    bits_per_sample,
                    sub_sampling_w,
                    sub_sampling_h,
                },
            )
        }
    }

    /// The outcome of querying the common YUV420P8 format.
    pub fn yuv420p8(success: i32, format: &RawVideoFormat) -> (r: Result<Self, FormatError>)
        requires
            success != 0 ==> format.has_known_color_family(),
        ensures
            r == Self::spec_query(ColorFamily::YUV, SampleType::Integer, 8, 1, 1, success, *format),
    {
        Self::query(ColorFamily::YUV, SampleType::Integer, 8, 1, 1, success, format)
    }

    /// The outcome of querying the common YUV444P8 format.
    pub fn yuv444p8(success: i32, format: &RawVideoFormat) -> (r: Result<Self, FormatError>)
        requires
            success != 0 ==> format.has_known_color_family(),
        ensures
            r == Self::spec_query(ColorFamily::YUV, SampleType::Integer, 8, 0, 0, success, *format),
    {
        Self::query(ColorFamily::YUV, SampleType::Integer, 8, 0, 0, success, format)
    }

    /// The outcome of querying the common RGB24 format.
    pub fn rgb24(success: i32, format: &RawVideoFormat) -> (r: Result<Self, FormatError>)
        requires
            success != 0 ==> format.has_known_color_family(),
        ensures
            r == Self::spec_query(ColorFamily::RGB, SampleType::Integer, 8, 0, 0, success, *format),
    {
        Self::query(ColorFamily::RGB, SampleType::Integer, 8, 0, 0, success, format)
    }

    /// The outcome of querying the common Gray8 format.
    pub fn gray8(success: i32, format: &RawVideoFormat) -> (r: Result<Self, FormatError>)
        requires
            success != 0 ==> format.has_known_color_family(),
        ensures
            r == Self::spec_query(ColorFamily::Gray, SampleType::Integer, 8, 0, 0, success, *format),
    {
        Self::query(ColorFamily::Gray, SampleType::Integer, 8, 0, 0, success, format)
    }

    /// What [VideoFormat::query] returns.
    pub open spec fn spec_query(
        color_family: ColorFamily,
        sample_type: SampleType,
        bits_per_sample: i32,
        sub_sampling_w: i32,
        sub_sampling_h: i32,
        success: i32,
        format: RawVideoFormat,
    ) -> Result<VideoFormat, FormatError> {
        if success != 0 {
            Ok(Self::spec_from_ptr(format))
        } else {
            Err(
                FormatError::InvalidVideoFormat {
                    color_family,
                    sample_type,
                    bits_per_sample,
                    sub_sampling_w,
                    sub_sampling_h,
                },
            )
        }
    }

    /// The format is one that VapourSynth builds: sample size between 8 and 32
    /// bits (16 or 32 for floating point samples), the smallest power-of-two
    /// byte count holding it, subsampling only for YUV, and one plane for gray
    /// formats, three for the others.
    pub open spec fn is_well_formed(self) -> bool {
        &&& self.color_family != ColorFamily::Undefined
        &&& 8 <= self.bits_per_sample <= 32
        &&& self.sample_type == SampleType::Float ==> (self.bits_per_sample == 16
            || self.bits_per_sample == 32)
        &&& self.bytes_per_sample == bytes_for_bits(self.bits_per_sample as int)
        &&& 0 <= self.sub_sampling_w <= 4
        &&& 0 <= self.sub_sampling_h <= 4
        &&& self.color_family != ColorFamily::YUV ==> self.sub_sampling_w == 0
            && self.sub_sampling_h == 0
        &&& self.num_planes == planes_for(self.color_family)
    }
}

/// Reading a format back from its VapourSynth record gives the same format.
pub proof fn lemma_video_format_roundtrip(f: VideoFormat)
    ensures
        f.spec_as_ptr().has_known_color_family(),
        VideoFormat::spec_from_ptr(f.spec_as_ptr()) == f,
{
}

/// A record with a known colour family and a sample type of zero or one is
/// written back unchanged after it is read.
pub proof fn lemma_raw_video_format_roundtrip(raw: RawVideoFormat)
    requires
        raw.has_known_color_family(),
        raw.sample_type == 0 || raw.sample_type == 1,
    ensures
        VideoFormat::spec_from_ptr(raw).spec_as_ptr() == raw,
{
}

impl PresetVideoFormat {
    /// Consumes the preset and returns the video format that it names, as
    /// the core answered the request for the preset's id ([Self::id]):
    /// `success` is the status of that answer and `format` the record the
    /// core filled. The core knows every preset, so the request must have
    /// succeeded.
    pub fn into_format(self, success: i32, format: &RawVideoFormat) -> (r: VideoFormat)
        requires
            success != 0,
            format.has_known_color_family(),
        ensures
            r == VideoFormat::spec_from_ptr(*format),
    {
        VideoFormat::from_ptr(format)
    }
}

impl VideoFormat {
    /// The identifying fields of this format.
    pub open spec fn as_preset_fields(self) -> PresetFields {
        PresetFields {
            color_family: self.color_family,
            sample_type: self.sample_type,
            bits_per_sample: self.bits_per_sample,
            sub_sampling_w: self.sub_sampling_w,
            sub_sampling_h: self.sub_sampling_h,
        }
    }
}

impl VideoInfo {
    /// The information read from a VapourSynth record.
    pub open spec fn spec_from_ptr(raw: RawVideoInfo) -> VideoInfo {
        VideoInfo {
            format: VideoFormat::spec_from_ptr(raw.format),
            fps_num: raw.fps_num,
            fps_den: raw.fps_den,
            width: raw.width,
            height: raw.height,
            num_frames: raw.num_frames,
        }
    }

    /// The VapourSynth record of this information.
    pub open spec fn spec_as_ptr(self) -> RawVideoInfo {
        RawVideoInfo {
            format: self.format.spec_as_ptr(),
            fps_num: self.fps_num,
            fps_den: self.fps_den,
            width: self.width,
            height: self.height,
            num_frames: self.num_frames,
        }
    }

    /// Reads video information from a VapourSynth record.
    pub fn from_ptr(raw: &RawVideoInfo) -> (r: VideoInfo)
        requires
            raw.format.has_known_color_family(),
        ensures
            r == Self::spec_from_ptr(*raw),
    {
        VideoInfo {
            format: VideoFormat::from_ptr(&raw.format),
            fps_num: raw.fps_num,
            fps_den: raw.fps_den,
            width: raw.width,
            height: raw.height,
            num_frames: raw.num_frames,
        }
    }

    /// The VapourSynth record of this information.
    pub fn as_ptr(&self) -> (r: RawVideoInfo)
        ensures
            r == self.spec_as_ptr(),
    {
        RawVideoInfo {
            format: self.format.as_ptr(),
            fps_num: self.fps_num,
            fps_den: self.fps_den,
            width: self.width,
            height: self.height,
            num_frames: self.num_frames,
        }
    }
}

/// Reading video information back from its VapourSynth record gives the same information.
pub proof fn lemma_video_info_roundtrip(info: VideoInfo)
    ensures
        VideoInfo::spec_from_ptr(info.spec_as_ptr()) == info,
{
}

} // verus!

verus! {

/// The audio channels of the VapourSynth API, each a bit of a [ChannelLayout].
#[derive(Debug, Clone, Copy, PartialEq, Eq, Structural, Hash)]
pub enum AudioChannel {
    FrontLeft,
    FrontRight,
    FrontCenter,
    LowFrequency,
    BackLeft,
    BackRight,
    FrontLeftOfCenter,
    FrontRightOfCenter,
    BackCenter,
    SideLeft,
    SideRight,
    TopCenter,
    TopFrontLeft,
    TopFrontCenter,
    TopFrontRight,
    TopBackLeft,
    TopBackCenter,
    TopBackRight,
    StereoLeft,
    StereoRight,
    WideLeft,
    WideRight,
    SurroundDirectLeft,
    SurroundDirectRight,
    LowFrequency2,
}

impl AudioChannel {
    /// The bit position of the channel in a channel layout.
    pub open spec fn spec_index(self) -> u64 {
        match self {
            AudioChannel::FrontLeft => 0,
            AudioChannel::FrontRight => 1,
            AudioChannel::FrontCenter => 2,
            AudioChannel::LowFrequency => 3,
            AudioChannel::BackLeft => 4,
            AudioChannel::BackRight => 5,
            AudioChannel::FrontLeftOfCenter => 6,
            AudioChannel::FrontRightOfCenter => 7,
            AudioChannel::BackCenter => 8,
            AudioChannel::SideLeft => 9,
            AudioChannel::SideRight => 10,
            AudioChannel::TopCenter => 11,
            AudioChannel::TopFrontLeft => 12,
            AudioChannel::TopFrontCenter => 13,
            AudioChannel::TopFrontRight => 14,
            AudioChannel::TopBackLeft => 15,
            AudioChannel::TopBackCenter => 16,
            AudioChannel::TopBackRight => 17,
            AudioChannel::StereoLeft => 29,
            AudioChannel::StereoRight => 30,
            AudioChannel::WideLeft => 31,
            AudioChannel::WideRight => 32,
            AudioChannel::SurroundDirectLeft => 33,
            AudioChannel::SurroundDirectRight => 34,
            AudioChannel::LowFrequency2 => 35,
        }
    }

    /// The bit position of the channel in a channel layout.
    pub fn index(self) -> (r: u64)
        ensures
            r == self.spec_index(),
    {
        match self {
            AudioChannel::FrontLeft => 0,
            AudioChannel::FrontRight => 1,
            AudioChannel::FrontCenter => 2,
            AudioChannel::LowFrequency => 3,
            AudioChannel::BackLeft => 4,
            AudioChannel::BackRight => 5,
            AudioChannel::FrontLeftOfCenter => 6,
            AudioChannel::FrontRightOfCenter => 7,
            AudioChannel::BackCenter => 8,
            AudioChannel::SideLeft => 9,
            AudioChannel::SideRight => 10,
            AudioChannel::TopCenter => 11,
            AudioChannel::TopFrontLeft => 12,
            AudioChannel::TopFrontCenter => 13,
            AudioChannel::TopFrontRight => 14,
            AudioChannel::TopBackLeft => 15,
            AudioChannel::TopBackCenter => 16,
            AudioChannel::TopBackRight => 17,
            AudioChannel::StereoLeft => 29,
            AudioChannel::StereoRight => 30,
            AudioChannel::WideLeft => 31,
            AudioChannel::WideRight => 32,
            AudioChannel::SurroundDirectLeft => 33,
            AudioChannel::SurroundDirectRight => 34,
            AudioChannel::LowFrequency2 => 35,
        }
    }
}

/// The bits of every channel that VapourSynth defines.
pub open spec fn all_channel_bits() -> u64 {
    0xfe003ffffu64
}

/// The bit of a channel in a layout.
pub open spec fn channel_bit(c: AudioChannel) -> u64 {
    1u64 << c.spec_index()
}

/// The channels sit at VapourSynth's bit positions (front left 0 up to top
/// back right 17, stereo left 29 up to the second low frequency channel 35),
/// and the preset layouts are the unions of the bits of the channels they
/// name: mono the front left, stereo front left and right, 2.1 stereo and low
/// frequency, 3.0 stereo and front center, 4.0 stereo and back left and
/// right, 4.1 4.0 and low frequency, 5.0 4.0 and front center, 5.1 5.0 and
/// low frequency, 7.1 5.1 and side left and right; every channel together
/// makes the full layout.
pub proof fn lemma_channel_layout_presets()
    ensures
        AudioChannel::FrontLeft.spec_index() == 0,
        AudioChannel::FrontRight.spec_index() == 1,
        AudioChannel::FrontCenter.spec_index() == 2,
        AudioChannel::LowFrequency.spec_index() == 3,
        AudioChannel::BackLeft.spec_index() == 4,
        AudioChannel::BackRight.spec_index() == 5,
        AudioChannel::FrontLeftOfCenter.spec_index() == 6,
        AudioChannel::FrontRightOfCenter.spec_index() == 7,
        AudioChannel::BackCenter.spec_index() == 8,
        AudioChannel::SideLeft.spec_index() == 9,
        AudioChannel::SideRight.spec_index() == 10,
        AudioChannel::TopCenter.spec_index() == 11,
        AudioChannel::TopFrontLeft.spec_index() == 12,
        AudioChannel::TopFrontCenter.spec_index() == 13,
        AudioChannel::TopFrontRight.spec_index() == 14,
        AudioChannel::TopBackLeft.spec_index() == 15,
        AudioChannel::TopBackCenter.spec_index() == 16,
        AudioChannel::TopBackRight.spec_index() == 17,
        AudioChannel::StereoLeft.spec_index() == 29,
        AudioChannel::StereoRight.spec_index() == 30,
        AudioChannel::WideLeft.spec_index() == 31,
        AudioChannel::WideRight.spec_index() == 32,
        AudioChannel::SurroundDirectLeft.spec_index() == 33,
        AudioChannel::SurroundDirectRight.spec_index() == 34,
        AudioChannel::LowFrequency2.spec_index() == 35,
        1u64 == channel_bit(AudioChannel::FrontLeft),
        3u64 == channel_bit(AudioChannel::FrontLeft) | channel_bit(AudioChannel::FrontRight),
        0xbu64 == channel_bit(AudioChannel::FrontLeft) | channel_bit(AudioChannel::FrontRight) | channel_bit(AudioChannel::LowFrequency),
        0x7u64 == channel_bit(AudioChannel::FrontLeft) | channel_bit(AudioChannel::FrontRight) | channel_bit(AudioChannel::FrontCenter),
        0x33u64 == channel_bit(AudioChannel::FrontLeft) | channel_bit(AudioChannel::FrontRight) | channel_bit(AudioChannel::BackLeft) | channel_bit(AudioChannel::BackRight),
        0x3bu64 == channel_bit(AudioChannel::FrontLeft) | channel_bit(AudioChannel::FrontRight) | channel_bit(AudioChannel::BackLeft) | channel_bit(AudioChannel::BackRight) | channel_bit(AudioChannel::LowFrequency),
        0x37u64 == channel_bit(AudioChannel::FrontLeft) | channel_bit(AudioChannel::FrontRight) | channel_bit(AudioChannel::FrontCenter) | channel_bit(AudioChannel::BackLeft) | channel_bit(AudioChannel::BackRight),
        0x3fu64 == channel_bit(AudioChannel::FrontLeft) | channel_bit(AudioChannel::FrontRight) | channel_bit(AudioChannel::FrontCenter) | channel_bit(AudioChannel::LowFrequency) | channel_bit(AudioChannel::BackLeft) | channel_bit(AudioChannel::BackRight),
        0x63fu64 == channel_bit(AudioChannel::FrontLeft) | channel_bit(AudioChannel::FrontRight) | channel_bit(AudioChannel::FrontCenter) | channel_bit(AudioChannel::LowFrequency) | channel_bit(AudioChannel::BackLeft) | channel_bit(AudioChannel::BackRight) | channel_bit(AudioChannel::SideLeft) | channel_bit(AudioChannel::SideRight),
        all_channel_bits() == channel_bit(AudioChannel::FrontLeft) | channel_bit(AudioChannel::FrontRight) | channel_bit(AudioChannel::FrontCenter) | channel_bit(AudioChannel::LowFrequency) | channel_bit(AudioChannel::BackLeft) | channel_bit(AudioChannel::BackRight) | channel_bit(AudioChannel::FrontLeftOfCenter) | channel_bit(AudioChannel::FrontRightOfCenter) | channel_bit(AudioChannel::BackCenter) | channel_bit(AudioChannel::SideLeft) | channel_bit(AudioChannel::SideRight) | channel_bit(AudioChannel::TopCenter) | channel_bit(AudioChannel::TopFrontLeft) | channel_bit(AudioChannel::TopFrontCenter) | channel_bit(AudioChannel::TopFrontRight) | channel_bit(AudioChannel::TopBackLeft) | channel_bit(AudioChannel::TopBackCenter) | channel_bit(AudioChannel::TopBackRight) | channel_bit(AudioChannel::StereoLeft) | channel_bit(AudioChannel::StereoRight) | channel_bit(AudioChannel::WideLeft) | channel_bit(AudioChannel::WideRight) | channel_bit(AudioChannel::SurroundDirectLeft) | channel_bit(AudioChannel::SurroundDirectRight) | channel_bit(AudioChannel::LowFrequency2),
{
    assert(channel_bit(AudioChannel::FrontLeft) == 1u64 << 0u64);
    assert(channel_bit(AudioChannel::FrontRight) == 1u64 << 1u64);
    assert(channel_bit(AudioChannel::FrontCenter) == 1u64 << 2u64);
    assert(channel_bit(AudioChannel::LowFrequency) == 1u64 << 3u64);
    assert(channel_bit(AudioChannel::BackLeft) == 1u64 << 4u64);
    assert(channel_bit(AudioChannel::BackRight) == 1u64 << 5u64);
    assert(channel_bit(AudioChannel::FrontLeftOfCenter) == 1u64 << 6u64);
    assert(channel_bit(AudioChannel::FrontRightOfCenter) == 1u64 << 7u64);
    assert(channel_bit(AudioChannel::BackCenter) == 1u64 << 8u64);
    assert(channel_bit(AudioChannel::SideLeft) == 1u64 << 9u64);
    assert(channel_bit(AudioChannel::SideRight) == 1u64 << 10u64);
    assert(channel_bit(AudioChannel::TopCenter) == 1u64 << 11u64);
    assert(channel_bit(AudioChannel::TopFrontLeft) == 1u64 << 12u64);
    assert(channel_bit(AudioChannel::TopFrontCenter) == 1u64 << 13u64);
    assert(channel_bit(AudioChannel::TopFrontRight) == 1u64 << 14u64);
    assert(channel_bit(AudioChannel::TopBackLeft) == 1u64 << 15u64);
    assert(channel_bit(AudioChannel::TopBackCenter) == 1u64 << 16u64);
    assert(channel_bit(AudioChannel::TopBackRight) == 1u64 << 17u64);
    assert(channel_bit(AudioChannel::StereoLeft) == 1u64 << 29u64);
    assert(channel_bit(AudioChannel::StereoRight) == 1u64 << 30u64);
    assert(channel_bit(AudioChannel::WideLeft) == 1u64 << 31u64);
    assert(channel_bit(AudioChannel::WideRight) == 1u64 << 32u64);
    assert(channel_bit(AudioChannel::SurroundDirectLeft) == 1u64 << 33u64);
    assert(channel_bit(AudioChannel::SurroundDirectRight) == 1u64 << 34u64);
    assert(channel_bit(AudioChannel::LowFrequency2) == 1u64 << 35u64);
    assert(0x63fu64 == (1u64 << 0u64) | (1u64 << 1u64) | (1u64 << 2u64) | (1u64 << 3u64) | (1u64 << 4u64) | (1u64 << 5u64) | (1u64 << 9u64) | (1u64 << 10u64)) by (bit_vector);
    assert(0xfe003ffffu64 == (1u64 << 0u64) | (1u64 << 1u64) | (1u64 << 2u64) | (1u64 << 3u64) | (1u64 << 4u64) | (1u64 << 5u64) | (1u64 << 6u64) | (1u64 << 7u64) | (1u64 << 8u64) | (1u64 << 9u64) | (1u64 << 10u64) | (1u64 << 11u64) | (1u64 << 12u64) | (1u64 << 13u64) | (1u64 << 14u64) | (1u64 << 15u64) | (1u64 << 16u64) | (1u64 << 17u64) | (1u64 << 29u64) | (1u64 << 30u64) | (1u64 << 31u64) | (1u64 << 32u64) | (1u64 << 33u64) | (1u64 << 34u64) | (1u64 << 35u64)
        && 1u64 == (1u64 << 0u64)
        && 3u64 == (1u64 << 0u64) | (1u64 << 1u64)
        && 0xbu64 == (1u64 << 0u64) | (1u64 << 1u64) | (1u64 << 3u64)
        && 0x7u64 == (1u64 << 0u64) | (1u64 << 1u64) | (1u64 << 2u64)
        && 0x33u64 == (1u64 << 0u64) | (1u64 << 1u64) | (1u64 << 4u64) | (1u64 << 5u64)
        && 0x3bu64 == (1u64 << 0u64) | (1u64 << 1u64) | (1u64 << 4u64) | (1u64 << 5u64) | (1u64 << 3u64)
        && 0x37u64 == (1u64 << 0u64) | (1u64 << 1u64) | (1u64 << 2u64) | (1u64 << 4u64) | (1u64 << 5u64)
        && 0x3fu64 == (1u64 << 0u64) | (1u64 << 1u64) | (1u64 << 2u64) | (1u64 << 3u64) | (1u64 << 4u64) | (1u64 << 5u64)) by (bit_vector);
}

/// Audio channel layout bitmask
#[derive(Debug, Clone, Copy, PartialEq, Eq, Structural, Hash)]
pub struct ChannelLayout {
    /// One bit per channel, at the channel's index.
    pub bits: u64,
}

impl View for ChannelLayout {
    type V = u64;

    open spec fn view(&self) -> u64 {
        self.bits
    }
}

/// The number of set bits among the lowest `n` bits of `x`.
pub open spec fn bits_set_below(x: u64, n: nat) -> nat
    decreases n,
{
    if n == 0 {
        0
    } else {
        bits_set_below(x, (n - 1) as nat) + ((x >> ((n - 1) as u64)) & 1u64) as nat
    }
}

/// The number of set bits of `x`.
pub open spec fn popcount(x: u64) -> nat {
    bits_set_below(x, 64)
}

impl ChannelLayout {
    /// The layout with no channel.
    pub fn empty() -> (r: ChannelLayout)
        ensures
            r@ == 0,
    {
        ChannelLayout { bits: 0 }
    }

    /// Create a new empty channel layout
    pub fn new() -> (r: ChannelLayout)
        ensures
            r@ == 0,
    {
        Self::empty()
    }

    /// The layout with every channel that VapourSynth defines.
    pub fn all() -> (r: ChannelLayout)
        ensures
            r@ == all_channel_bits(),
    {
        ChannelLayout { bits: 0xfe003ffffu64 }
    }

    /// The layout holding exactly the given channel.
    pub fn from_channel(channel: AudioChannel) -> (r: ChannelLayout)
        ensures
            r@ == 1u64 << channel.spec_index(),
    {
        ChannelLayout { bits: 1u64 << channel.index() }
    }

    /// The bit mask of the layout.
    pub fn bits(&self) -> (r: u64)
        ensures
            r == self@,
    {
        self.bits
    }

    /// The layout of the given bits, dropping those that name no channel.
    pub fn from_bits_truncate(bits: u64) -> (r: ChannelLayout)
        ensures
            r@ == bits & all_channel_bits(),
    {
        ChannelLayout { bits: bits & 0xfe003ffffu64 }
    }

    /// Whether every channel of `other` is in this layout.
    pub fn contains(self, other: ChannelLayout) -> (r: bool)
        ensures
            r == (self@ & other@ == other@),
    {
        self.bits & other.bits == other.bits
    }

    /// The channels of both layouts.
    pub fn union(self, other: ChannelLayout) -> (r: ChannelLayout)
        ensures
            r@ == self@ | other@,
    {
        ChannelLayout { bits: self.bits | other.bits }
    }

    /// The channels of this layout that are not in `other`.
    pub fn difference(self, other: ChannelLayout) -> (r: ChannelLayout)
        ensures
            r@ == self@ & !other@,
    {
        ChannelLayout { bits: self.bits & !other.bits }
    }

    /// The channels that both layouts hold.
    pub fn intersection(self, other: ChannelLayout) -> (r: ChannelLayout)
        ensures
            r@ == self@ & other@,
    {
        ChannelLayout { bits: self.bits & other.bits }
    }

    /// Whether the layout holds no channel.
    pub fn is_empty(self) -> (r: bool)
        ensures
            r == (self@ == 0),
    {
        self.bits == 0
    }

    /// Check if a specific channel is present
    pub fn has_channel(self, channel: ChannelLayout) -> (r: bool)
        ensures
            r == (self@ & channel@ == channel@),
    {
        self.contains(channel)
    }

    /// Add a channel to the layout
    pub fn with_channel(self, channel: ChannelLayout) -> (r: ChannelLayout)
        ensures
            r@ == self@ | channel@,
    {
        self.union(channel)
    }

    /// Remove a channel from the layout
    pub fn without_channel(self, channel: ChannelLayout) -> (r: ChannelLayout)
        ensures
            r@ == self@ & !channel@,
    {
        self.difference(channel)
    }

    /// Count the number of channels
    pub fn channel_count(self) -> (r: u32)
        ensures
            r == popcount(self@),
    {
        let mut count: u32 = 0;
        let mut i: u64 = 0;
        while i < 64
            invariant
                i <= 64,
                count == bits_set_below(self.bits, i as nat),
                count <= i,
            decreases 64 - i,
        {
            let b = self.bits;
            let bit = (b >> i) & 1u64;
            assert(bit <= 1) by (bit_vector)
                requires
                    bit == (b >> i) & 1u64,
            ;
            count = count + bit as u32;
            i = i + 1;
        }
        count
    }

    /// The mono layout: the front left channel.
    pub fn mono() -> (r: ChannelLayout)
        ensures
            r@ == 1u64,
            r@ == channel_bit(AudioChannel::FrontLeft),
    {
        proof {
            lemma_channel_layout_presets();
        }
        ChannelLayout { bits: 1u64 }
    }

    /// The stereo layout: front left and front right.
    pub fn stereo() -> (r: ChannelLayout)
        ensures
            r@ == 3u64,
            r@ == channel_bit(AudioChannel::FrontLeft) | channel_bit(AudioChannel::FrontRight),
    {
        proof {
            lemma_channel_layout_presets();
        }
        ChannelLayout { bits: 3u64 }
    }

    /// Front left, front right and low frequency.
    pub fn surround_2_1() -> (r: ChannelLayout)
        ensures
            r@ == 0xbu64,
            r@ == channel_bit(AudioChannel::FrontLeft) | channel_bit(AudioChannel::FrontRight) | channel_bit(AudioChannel::LowFrequency),
    {
        proof {
            lemma_channel_layout_presets();
        }
        ChannelLayout { bits: 0xbu64 }
    }

    /// Front left, front right and front center.
    pub fn surround_3_0() -> (r: ChannelLayout)
        ensures
            r@ == 0x7u64,
            r@ == channel_bit(AudioChannel::FrontLeft) | channel_bit(AudioChannel::FrontRight) | channel_bit(AudioChannel::FrontCenter),
    {
        proof {
            lemma_channel_layout_presets();
        }
        ChannelLayout { bits: 0x7u64 }
    }

    /// Front left, front right, back left and back right.
    pub fn surround_4_0() -> (r: ChannelLayout)
        ensures
            r@ == 0x33u64,
            r@ == channel_bit(AudioChannel::FrontLeft) | channel_bit(AudioChannel::FrontRight) | channel_bit(AudioChannel::BackLeft) | channel_bit(AudioChannel::BackRight),
    {
        proof {
            lemma_channel_layout_presets();
        }
        ChannelLayout { bits: 0x33u64 }
    }

    /// Front left, front right, back left, back right and low frequency.
    pub fn surround_4_1() -> (r: ChannelLayout)
        ensures
            r@ == 0x3bu64,
            r@ == channel_bit(AudioChannel::FrontLeft) | channel_bit(AudioChannel::FrontRight) | channel_bit(AudioChannel::BackLeft) | channel_bit(AudioChannel::BackRight) | channel_bit(AudioChannel::LowFrequency),
    {
        proof {
            lemma_channel_layout_presets();
        }
        ChannelLayout { bits: 0x3bu64 }
    }

    /// Front left, front right, front center, back left and back right.
    pub fn surround_5_0() -> (r: ChannelLayout)
        ensures
            r@ == 0x37u64,
            r@ == channel_bit(AudioChannel::FrontLeft) | channel_bit(AudioChannel::FrontRight) | channel_bit(AudioChannel::FrontCenter) | channel_bit(AudioChannel::BackLeft) | channel_bit(AudioChannel::BackRight),
    {
        proof {
            lemma_channel_layout_presets();
        }
        ChannelLayout { bits: 0x37u64 }
    }

    /// Front left, front right, front center, low frequency, back left and back right.
    pub fn surround_5_1() -> (r: ChannelLayout)
        ensures
            r@ == 0x3fu64,
            r@ == channel_bit(AudioChannel::FrontLeft) | channel_bit(AudioChannel::FrontRight) | channel_bit(AudioChannel::FrontCenter) | channel_bit(AudioChannel::LowFrequency) | channel_bit(AudioChannel::BackLeft) | channel_bit(AudioChannel::BackRight),
    {
        proof {
            lemma_channel_layout_presets();
        }
        ChannelLayout { bits: 0x3fu64 }
    }

    /// The 5.1 layout with side left and side right added.
    pub fn surround_7_1() -> (r: ChannelLayout)
        ensures
            r@ == 0x63fu64,
            r@ == channel_bit(AudioChannel::FrontLeft) | channel_bit(AudioChannel::FrontRight) | channel_bit(AudioChannel::FrontCenter) | channel_bit(AudioChannel::LowFrequency) | channel_bit(AudioChannel::BackLeft) | channel_bit(AudioChannel::BackRight) | channel_bit(AudioChannel::SideLeft) | channel_bit(AudioChannel::SideRight),
    {
        proof {
            lemma_channel_layout_presets();
        }
        ChannelLayout { bits: 0x63fu64 }
    }
}

impl Default for ChannelLayout {
    fn default() -> (r: ChannelLayout)
        ensures
            r@ == 0,
    {
        Self::empty()
    }
}

} // verus!

verus! {

/// A channel that was added is present.
pub proof fn lemma_with_channel_has_channel(layout: ChannelLayout, channel: ChannelLayout)
    ensures
        (layout@ | channel@) & channel@ == channel@,
{
    let a = layout@;
    let b = channel@;
    assert((a | b) & b == b) by (bit_vector);
}

/// A non-empty set of channels that was removed is no longer present, and
/// removing channels that were added to a layout without them restores it.
pub proof fn lemma_without_channel(layout: ChannelLayout, channel: ChannelLayout)
    ensures
        channel@ != 0 ==> (layout@ & !channel@) & channel@ != channel@,
        layout@ & channel@ == 0 ==> (layout@ | channel@) & !channel@ == layout@,
{
    let a = layout@;
    let b = channel@;
    assert(b != 0 ==> (a & !b) & b != b) by (bit_vector);
    assert(a & b == 0 ==> (a | b) & !b == a) by (bit_vector);
}

proof fn lemma_bit_of_or_single(x: u64, k: u64, j: u64)
    by (bit_vector)
    requires
        k < 64,
        j < 64,
    ensures
        j != k ==> ((x | (1u64 << k)) >> j) & 1u64 == (x >> j) & 1u64,
        ((x | (1u64 << k)) >> k) & 1u64 == 1u64,
{
}

proof fn lemma_bits_set_below_add_bit(x: u64, k: u64, n: nat)
    requires
        k < 64,
        n <= 64,
        (x >> k) & 1u64 == 0u64,
    ensures
        bits_set_below(x | (1u64 << k), n) == bits_set_below(x, n) + (if k < n {
            1nat
        } else {
            0nat
        }),
    decreases n,
{
    if n > 0 {
        lemma_bits_set_below_add_bit(x, k, (n - 1) as nat);
        lemma_bit_of_or_single(x, k, (n - 1) as u64);
    }
}

/// Adding one channel that is not in a layout raises the channel count by one.
pub proof fn lemma_channel_count_add(layout: ChannelLayout, channel: AudioChannel)
    requires
        (layout@ >> channel.spec_index()) & 1u64 == 0u64,
    ensures
        popcount(layout@ | (1u64 << channel.spec_index())) == popcount(layout@) + 1,
{
    lemma_bits_set_below_add_bit(layout@, channel.spec_index(), 64);
}

/// A layout of a single channel counts one channel.
pub proof fn lemma_channel_count_single(channel: AudioChannel)
    ensures
        popcount(1u64 << channel.spec_index()) == 1,
{
    let k = channel.spec_index();
    assert((0u64 >> k) & 1u64 == 0u64) by (bit_vector);
    assert(0u64 | (1u64 << k) == 1u64 << k) by (bit_vector);
    lemma_bits_set_below_add_bit(0u64, k, 64);
    lemma_bits_set_below_zero(64);
}

proof fn lemma_bits_set_below_zero(n: nat)
    ensures
        bits_set_below(0u64, n) == 0,
    decreases n,
{
    if n > 0 {
        lemma_bits_set_below_zero((n - 1) as nat);
        let j = (n - 1) as u64;
        assert((0u64 >> j) & 1u64 == 0u64) by (bit_vector);
    }
}

} // verus!

verus! {

/// Describes the format of an audio clip.
#[derive(Debug, Clone, Copy, PartialEq, Eq, Structural, Hash)]
pub struct AudioFormat {
    pub sample_type: SampleType,
    pub bits_per_sample: i32,
    pub bytes_per_sample: i32,
    pub num_channels: i32,
    pub channel_layout: ChannelLayout,
}

/// The audio format record of the VapourSynth API, with every field a plain integer.
#[derive(Debug, Clone, Copy, PartialEq, Eq, Structural, Hash)]
pub struct RawAudioFormat {
    pub sample_type: i32,
    pub bits_per_sample: i32,
    pub bytes_per_sample: i32,
    pub num_channels: i32,
    pub channel_layout: u64,
}

/// Information about an audio clip.
#[derive(Debug, Clone, Copy, PartialEq, Eq, Structural, Hash)]
pub struct AudioInfo {
    pub format: AudioFormat,
    pub sample_rate: i32,
    pub num_samples: i64,
    pub num_frames: i32,
}

/// The audio information record of the VapourSynth API.
#[derive(Debug, Clone, Copy, PartialEq, Eq, Structural, Hash)]
pub struct RawAudioInfo {
    pub format: RawAudioFormat,
    pub sample_rate: i32,
    pub num_samples: i64,
    pub num_frames: i32,
}

impl AudioFormat {
    /// The format read from a VapourSynth record; channel bits that name no
    /// channel are dropped.
    pub open spec fn spec_from_ptr(raw: RawAudioFormat) -> AudioFormat {
        AudioFormat {
            sample_type: SampleType::spec_from_code(raw.sample_type as int),
            bits_per_sample: raw.bits_per_sample,
            bytes_per_sample: raw.bytes_per_sample,
            num_channels: raw.num_channels,
            channel_layout: ChannelLayout { bits: raw.channel_layout & all_channel_bits() },
        }
    }

    /// The VapourSynth record of this format.
    pub open spec fn spec_as_ptr(self) -> RawAudioFormat {
        RawAudioFormat {
            sample_type: self.sample_type.spec_code() as i32,
            bits_per_sample: self.bits_per_sample,
            bytes_per_sample: self.bytes_per_sample,
            num_channels: self.num_channels,
            channel_layout: self.channel_layout@,
        }
    }

    /// Reads a format from a VapourSynth record.
    pub fn from_ptr(raw: &RawAudioFormat) -> (r: AudioFormat)
        ensures
            r == Self::spec_from_ptr(*raw),
    {
        AudioFormat {
            sample_type: SampleType::from_code(raw.sample_type),
            bits_per_sample: raw.bits_per_sample,
            bytes_per_sample: raw.bytes_per_sample,
            num_channels: raw.num_channels,
            channel_layout: ChannelLayout::from_bits_truncate(raw.channel_layout),
        }
    }

    /// The VapourSynth record of this format.
    pub fn as_ptr(&self) -> (r: RawAudioFormat)
        ensures
            r == self.spec_as_ptr(),
    {
        RawAudioFormat {
            sample_type: self.sample_type.code(),
            bits_per_sample: self.bits_per_sample,
            bytes_per_sample: self.bytes_per_sample,
            num_channels: self.num_channels,
            channel_layout: self.channel_layout.bits(),
        }
    }

    /// What [AudioFormat::query] returns.
    pub open spec fn spec_query(
        sample_type: SampleType,
        bits_per_sample: i32,
        channel_layout: u64,
        success: i32,
        format: RawAudioFormat,
    ) -> Result<AudioFormat, FormatError> {
        if success != 0 {
            Ok(Self::spec_from_ptr(format))
        } else {
            Err(FormatError::InvalidAudioFormat { sample_type, bits_per_sample, channel_layout })
        }
    }

    /// Turns the outcome of VapourSynth's audio format query into a result:
    /// the filled record when the query succeeded (`success != 0`), otherwise
    /// an error that names the parameters that were asked for.
    pub fn query(
        sample_type: SampleType,
        bits_per_sample: i32,
        channel_layout: u64,
        success: i32,
        format: &RawAudioFormat,
    ) -> (r: Result<AudioFormat, FormatError>)
        ensures
            r == Self::spec_query(sample_type, bits_per_sample, channel_layout, success, *format),
    {
        if success != 0 {
            Ok(Self::from_ptr(format))
        } else {
            Err(FormatError::InvalidAudioFormat { sample_type, bits_per_sample, channel_layout })
        }
    }

    /// 16-bit integer stereo.
    pub fn stereo16() -> (r: AudioFormat)
        ensures
            r.sample_type == SampleType::Integer,
            r.bits_per_sample == 16,
            r.bytes_per_sample == 2,
            r.num_channels == 2,
            r.channel_layout@ == 3,
    {
        AudioFormat {
            sample_type: SampleType::Integer,
            bits_per_sample: 16,
            bytes_per_sample: 2,
            num_channels: 2,
            channel_layout: ChannelLayout::stereo(),
        }
    }

    /// 16-bit integer mono.
    pub fn mono16() -> (r: AudioFormat)
        ensures
            r.sample_type == SampleType::Integer,
            r.bits_per_sample == 16,
            r.bytes_per_sample == 2,
            r.num_channels == 1,
            r.channel_layout@ == 1,
    {
        AudioFormat {
            sample_type: SampleType::Integer,
            bits_per_sample: 16,
            bytes_per_sample: 2,
            num_channels: 1,
            channel_layout: ChannelLayout::mono(),
        }
    }
}

impl AudioInfo {
    /// The information read from a VapourSynth record.
    pub open spec fn spec_from_ptr(raw: RawAudioInfo) -> AudioInfo {
        AudioInfo {
            format: AudioFormat::spec_from_ptr(raw.format),
            sample_rate: raw.sample_rate,
            num_samples: raw.num_samples,
            num_frames: raw.num_frames,
        }
    }

    /// The VapourSynth record of this information.
    pub open spec fn spec_as_ptr(self) -> RawAudioInfo {
        RawAudioInfo {
            format: self.format.spec_as_ptr(),
            sample_rate: self.sample_rate,
            num_samples: self.num_samples,
            num_frames: self.num_frames,
        }
    }

    /// Reads audio information from a VapourSynth record.
    pub fn from_ptr(raw: &RawAudioInfo) -> (r: AudioInfo)
        ensures
            r == Self::spec_from_ptr(*raw),
    {
        AudioInfo {
            format: AudioFormat::from_ptr(&raw.format),
            sample_rate: raw.sample_rate,
            num_samples: raw.num_samples,
            num_frames: raw.num_frames,
        }
    }

    /// The VapourSynth record of this information.
    pub fn as_ptr(&self) -> (r: RawAudioInfo)
        ensures
            r == self.spec_as_ptr(),
    {
        RawAudioInfo {
            format: self.format.as_ptr(),
            sample_rate: self.sample_rate,
            num_samples: self.num_samples,
            num_frames: self.num_frames,
        }
    }
}

/// Reading an audio format back from its record gives the same format when
/// its layout holds only channels that VapourSynth defines.
pub proof fn lemma_audio_format_roundtrip(f: AudioFormat)
    requires
        f.channel_layout@ & all_channel_bits() == f.channel_layout@,
    ensures
        AudioFormat::spec_from_ptr(f.spec_as_ptr()) == f,
{
}

/// The parameters of an audio format query.
#[derive(Debug, Clone, Copy, PartialEq, Eq, Structural)]
pub struct AudioFormatParams {
    pub sample_type: SampleType,
    pub bits_per_sample: i32,
    pub channel_layout: ChannelLayout,
}

/// Builder for creating AudioFormat with validation
#[derive(Debug, Clone, Copy)]
pub struct AudioFormatBuilder {
    sample_type: SampleType,
    bits_per_sample: i32,
    channel_layout: ChannelLayout,
}

impl View for AudioFormatBuilder {
    type V = AudioFormatParams;

    closed spec fn view(&self) -> AudioFormatParams {
        AudioFormatParams {
            sample_type: self.sample_type,
            bits_per_sample: self.bits_per_sample,
            channel_layout: self.channel_layout,
        }
    }
}

impl AudioFormatBuilder {
    /// Create a new AudioFormat builder with the required parameters
    pub fn new(sample_type: SampleType, bits_per_sample: i32, channel_layout: ChannelLayout) -> (r:
        Self)
        ensures
            r@ == (AudioFormatParams { sample_type, bits_per_sample, channel_layout }),
    {
        AudioFormatBuilder { sample_type, bits_per_sample, channel_layout }
    }

    /// Set mono channel layout
    pub fn mono(self) -> (r: Self)
        ensures
            r@ == (AudioFormatParams { channel_layout: r@.channel_layout, ..self@ }),
            r@.channel_layout@ == 1,
    {
        AudioFormatBuilder { channel_layout: ChannelLayout::mono(), ..self }
    }

    /// Set stereo channel layout
    pub fn stereo(self) -> (r: Self)
        ensures
            r@ == (AudioFormatParams { channel_layout: r@.channel_layout, ..self@ }),
            r@.channel_layout@ == 3,
    {
        AudioFormatBuilder { channel_layout: ChannelLayout::stereo(), ..self }
    }

    /// Set custom channel layout
    pub fn channel_layout(self, layout: ChannelLayout) -> (r: Self)
        ensures
            r@ == (AudioFormatParams { channel_layout: layout, ..self@ }),
    {
        AudioFormatBuilder { channel_layout: layout, ..self }
    }

    /// Build the AudioFormat from the outcome of VapourSynth's query for the
    /// builder's parameters.
    pub fn build(self, success: i32, format: &RawAudioFormat) -> (r: Result<
        AudioFormat,
        FormatError,
    >)
        ensures
            r == AudioFormat::spec_query(
                self@.sample_type,
                self@.bits_per_sample,
                self@.channel_layout@,
                success,
                *format,
            ),
    {
        AudioFormat::query(
            self.sample_type,
            self.bits_per_sample,
            self.channel_layout.bits(),
            success,
            format,
        )
    }
}

/// The parameters of a video format query.
#[derive(Debug, Clone, Copy, PartialEq, Eq, Structural)]
pub struct VideoFormatParams {
    pub color_family: ColorFamily,
    pub sample_type: SampleType,
    pub bits_per_sample: i32,
    pub sub_sampling_w: i32,
    pub sub_sampling_h: i32,
}

/// Builder for creating VideoFormat with validation
#[derive(Debug, Clone, Copy)]
pub struct VideoFormatBuilder {
    color_family: ColorFamily,
    sample_type: SampleType,
    bits_per_sample: i32,
    sub_sampling_w: i32,
    sub_sampling_h: i32,
}

impl View for VideoFormatBuilder {
    type V = VideoFormatParams;

    closed spec fn view(&self) -> VideoFormatParams {
        VideoFormatParams {
            color_family: self.color_family,
            sample_type: self.sample_type,
            bits_per_sample: self.bits_per_sample,
            sub_sampling_w: self.sub_sampling_w,
            sub_sampling_h: self.sub_sampling_h,
        }
    }
}

impl VideoFormatBuilder {
    /// Create a new VideoFormat builder with the minimum required parameters
    pub fn new(color_family: ColorFamily, sample_type: SampleType, bits_per_sample: i32) -> (r:
        Self)
        ensures
            r@ == (VideoFormatParams {
                color_family,
                sample_type,
                bits_per_sample,
                sub_sampling_w: 0,
                sub_sampling_h: 0,
            }),
    {
        VideoFormatBuilder {
            color_family,
            sample_type,
            bits_per_sample,
            sub_sampling_w: 0,
            sub_sampling_h: 0,
        }
    }

    /// Set horizontal subsampling (for YUV formats)
    pub fn sub_sampling_w(self, sub_sampling_w: i32) -> (r: Self)
        ensures
            r@ == (VideoFormatParams { sub_sampling_w, ..self@ }),
    {
        VideoFormatBuilder { sub_sampling_w, ..self }
    }

    /// Set vertical subsampling (for YUV formats)
    pub fn sub_sampling_h(self, sub_sampling_h: i32) -> (r: Self)
        ensures
            r@ == (VideoFormatParams { sub_sampling_h, ..self@ }),
    {
        VideoFormatBuilder { sub_sampling_h, ..self }
    }

    /// Set both horizontal and vertical subsampling (for YUV formats)
    pub fn sub_sampling(self, sub_sampling_w: i32, sub_sampling_h: i32) -> (r: Self)
        ensures
            r@ == (VideoFormatParams { sub_sampling_w, sub_sampling_h, ..self@ }),
    {
        VideoFormatBuilder { sub_sampling_w, sub_sampling_h, ..self }
    }

    /// Build the VideoFormat from the outcome of VapourSynth's query for the
    /// builder's parameters.
    pub fn build(self, success: i32, format: &RawVideoFormat) -> (r: Result<
        VideoFormat,
        FormatError,
    >)
        requires
            success != 0 ==> format.has_known_color_family(),
        ensures
            r == VideoFormat::spec_query(
                self@.color_family,
                self@.sample_type,
                self@.bits_per_sample,
                self@.sub_sampling_w,
                self@.sub_sampling_h,
                success,
                *format,
            ),
    {
        VideoFormat::query(
            self.color_family,
            self.sample_type,
            self.bits_per_sample,
            self.sub_sampling_w,
            self.sub_sampling_h,
            success,
            format,
        )
    }
}

/// A type of pixel component that can be read from frames of some formats.
pub trait Component {
    /// Whether this component can hold the samples of the given format.
    spec fn valid_for(format: VideoFormat) -> bool;

    /// Returns whether this component is valid for this format.
    fn is_valid(format: VideoFormat) -> (r: bool)
        ensures
            r == Self::valid_for(format),
    ;
}

impl Component for u8 {
    open spec fn valid_for(format: VideoFormat) -> bool {
        format.sample_type == SampleType::Integer && format.bytes_per_sample == 1
    }

    fn is_valid(format: VideoFormat) -> (r: bool) {
        format.sample_type == SampleType::Integer && format.bytes_per_sample == 1
    }
}

impl Component for u16 {
    open spec fn valid_for(format: VideoFormat) -> bool {
        format.sample_type == SampleType::Integer && format.bytes_per_sample == 2
    }

    fn is_valid(format: VideoFormat) -> (r: bool) {
        format.sample_type == SampleType::Integer && format.bytes_per_sample == 2
    }
}

impl Component for u32 {
    open spec fn valid_for(format: VideoFormat) -> bool {
        format.sample_type == SampleType::Integer && format.bytes_per_sample == 4
    }

    fn is_valid(format: VideoFormat) -> (r: bool) {
        format.sample_type == SampleType::Integer && format.bytes_per_sample == 4
    }
}

} // verus!

verus! {

/// Whether the text of a channel layout lists bit `i`: as the layout's
/// `contains` answers for the channel made of that bit alone, keeping only
/// bits that name a channel.
pub open spec fn lists_bit(bits: u64, i: nat) -> bool {
    let channel = (1u64 << (i as u64)) & all_channel_bits();
    bits & channel == channel
}

/// The listed channels among the lowest `n` bits, as `ch<i>` joined by `, `.
pub open spec fn channel_names(bits: u64, n: nat) -> Seq<char>
    decreases n,
{
    if n == 0 {
        Seq::empty()
    } else {
        let prev = channel_names(bits, (n - 1) as nat);
        if lists_bit(bits, (n - 1) as nat) {
            if prev.len() == 0 {
                "ch"@ + decimal_text(n - 1)
            } else {
                prev + ", "@ + "ch"@ + decimal_text(n - 1)
            }
        } else {
            prev
        }
    }
}

/// The text of a channel layout: `ChannelLayout(` and the listed channels, then `)`.
pub open spec fn channel_layout_text(bits: u64) -> Seq<char> {
    "ChannelLayout("@ + channel_names(bits, 64) + ")"@
}

impl ChannelLayout {
    /// The layout as text, listing `ch<i>` for each bit `i` that the layout
    /// contains once only the bits naming channels are kept.
    pub fn to_text(&self) -> (r: String)
        ensures
            r@ == channel_layout_text(self@),
    {
        let mut names = TextBuf::new();
        let mut any = false;
        let mut i: u64 = 0;
        while i < 64
            invariant
                i <= 64,
                names.wf(),
                any == (names@.len() > 0),
                names@ == channel_names(self@, i as nat),
            decreases 64 - i,
        {
            let channel = Self::from_bits_truncate(1u64 << i);
            if self.contains(channel) {
                if any {
                    names.push_str(", ");
                }
                names.push_str("ch");
                names.push_u64(i);
                proof {
                    reveal_strlit("ch");
                }
                any = true;
            }
            proof {
                assert(channel_names(self@, (i + 1) as nat) == {
                    let prev = channel_names(self@, i as nat);
                    if lists_bit(self@, i as nat) {
                        if prev.len() == 0 {
                            "ch"@ + decimal_text(i as int)
                        } else {
                            prev + ", "@ + "ch"@ + decimal_text(i as int)
                        }
                    } else {
                        prev
                    }
                });
            }
            i = i + 1;
        }
        let mut out = TextBuf::new();
        out.push_str("ChannelLayout(");
        let list = names.into_string();
        out.push_str(list.as_str());
        out.push_str(")");
        out.into_string()
    }
}

} // verus!

verus! {

impl ColorFamily {
    /// The name of the colour family, as its `Debug` text.
    pub open spec fn spec_name(self) -> Seq<char> {
        match self {
            ColorFamily::Undefined => "Undefined"@,
            ColorFamily::Gray => "Gray"@,
            ColorFamily::RGB => "RGB"@,
            ColorFamily::YUV => "YUV"@,
        }
    }

    /// The name of the colour family, as its `Debug` text.
    pub fn name(&self) -> (r: &'static str)
        ensures
            r@ == self.spec_name(),
    {
        match self {
            ColorFamily::Undefined => "Undefined",
            ColorFamily::Gray => "Gray",
            ColorFamily::RGB => "RGB",
            ColorFamily::YUV => "YUV",
        }
    }
}

impl SampleType {
    /// The name of the sample type, as its `Debug` text.
    pub open spec fn spec_name(self) -> Seq<char> {
        match self {
            SampleType::Integer => "Integer"@,
            SampleType::Float => "Float"@,
        }
    }

    /// The name of the sample type, as its `Debug` text.
    pub fn name(&self) -> (r: &'static str)
        ensures
            r@ == self.spec_name(),
    {
        match self {
            SampleType::Integer => "Integer",
            SampleType::Float => "Float",
        }
    }
}

} // verus!

verus! {

/// The message of a format error.
pub open spec fn format_error_text(e: FormatError) -> Seq<char> {
    match e {
        FormatError::InvalidVideoFormat {
            color_family,
            sample_type,
            bits_per_sample,
            sub_sampling_w,
            sub_sampling_h,
        } => "Invalid video format: color_family="@ + color_family.spec_name() + ", sample_type="@
            + sample_type.spec_name() + ", bits_per_sample="@ + decimal_text(bits_per_sample as int)
            + ", sub_sampling_w="@ + decimal_text(sub_sampling_w as int) + ", sub_sampling_h="@
            + decimal_text(sub_sampling_h as int),
        FormatError::InvalidAudioFormat { sample_type, bits_per_sample, channel_layout } =>
            "Invalid audio format: sample_type="@ + sample_type.spec_name() + ", bits_per_sample="@
            + decimal_text(bits_per_sample as int) + ", channel_layout="@ + decimal_text(
            channel_layout as int,
        ),
    }
}

impl FormatError {
    /// The message of the error: the parameters that were asked for.
    pub fn message(&self) -> (r: String)
        ensures
            r@ == format_error_text(*self),
    {
        let mut t = TextBuf::new();
        match self {
            FormatError::InvalidVideoFormat {
                color_family,
                sample_type,
                bits_per_sample,
                sub_sampling_w,
                sub_sampling_h,
            } => {
                t.push_str("Invalid video format: color_family=");
                t.push_str(color_family.name());
                t.push_str(", sample_type=");
                t.push_str(sample_type.name());
                t.push_str(", bits_per_sample=");
                t.push_i64(*bits_per_sample as i64);
                t.push_str(", sub_sampling_w=");
                t.push_i64(*sub_sampling_w as i64);
                t.push_str(", sub_sampling_h=");
                t.push_i64(*sub_sampling_h as i64);
            },
            FormatError::InvalidAudioFormat { sample_type, bits_per_sample, channel_layout } => {
                t.push_str("Invalid audio format: sample_type=");
                t.push_str(sample_type.name());
                t.push_str(", bits_per_sample=");
                t.push_i64(*bits_per_sample as i64);
                t.push_str(", channel_layout=");
                t.push_u64(*channel_layout);
            },
        }
        t.into_string()
    }
}

} // verus!

verus! {

/// The colour family numbers are VapourSynth's (Undefined 0, Gray 1, RGB 2, YUV 3),
/// and a number reads back as the family it stands for; other numbers stand for none.
pub proof fn lemma_color_family_numbers(v: int)
    ensures
        ColorFamily::Undefined.spec_code() == 0,
        ColorFamily::Gray.spec_code() == 1,
        ColorFamily::RGB.spec_code() == 2,
        ColorFamily::YUV.spec_code() == 3,
        ColorFamily::spec_from_code(v) matches Some(c) ==> c.spec_code() == v,
        (v == 0 || v == 1 || v == 2 || v == 3) ==> ColorFamily::spec_from_code(v) is Some,
{
}

/// The sample type numbers are VapourSynth's (Integer 0, Float 1); a record
/// with 0 holds integer samples and one with any other number floating
/// point samples. The media type numbers are VapourSynth's (Video 1, Audio 2).
pub proof fn lemma_sample_and_media_type_numbers(v: int)
    ensures
        SampleType::Integer.spec_code() == 0,
        SampleType::Float.spec_code() == 1,
        v == 0 ==> SampleType::spec_from_code(v) == SampleType::Integer,
        v != 0 ==> SampleType::spec_from_code(v) == SampleType::Float,
        MediaType::Video.spec_code() == 1,
        MediaType::Audio.spec_code() == 2,
{
}

} // verus!

verus! {

/// Reading a VapourSynth record, and writing one, carries every field to the
/// field of the same name: the colour family and sample type through their
/// VapourSynth numbers, the channel layout through its bits (dropping those
/// that name no channel when read), every other field unchanged.
pub proof fn lemma_records_carry_fields(
    rv: RawVideoFormat,
    v: VideoFormat,
    rvi: RawVideoInfo,
    vi: VideoInfo,
    ra: RawAudioFormat,
    a: AudioFormat,
    rai: RawAudioInfo,
    ai: AudioInfo,
)
    requires
        rv.has_known_color_family(),
    ensures
        ({
            let f = VideoFormat::spec_from_ptr(rv);
            &&& f.color_family.spec_code() == rv.color_family
            &&& (rv.sample_type == 0 <==> f.sample_type == SampleType::Integer)
            &&& f.bits_per_sample == rv.bits_per_sample
            &&& f.bytes_per_sample == rv.bytes_per_sample
            &&& f.sub_sampling_w == rv.sub_sampling_w
            &&& f.sub_sampling_h == rv.sub_sampling_h
            &&& f.num_planes == rv.num_planes
        }),
        ({
            let r = v.spec_as_ptr();
            &&& r.color_family == v.color_family.spec_code()
            &&& r.sample_type == v.sample_type.spec_code()
            &&& r.bits_per_sample == v.bits_per_sample
            &&& r.bytes_per_sample == v.bytes_per_sample
            &&& r.sub_sampling_w == v.sub_sampling_w
            &&& r.sub_sampling_h == v.sub_sampling_h
            &&& r.num_planes == v.num_planes
        }),
        ({
            let i = VideoInfo::spec_from_ptr(rvi);
            &&& i.fps_num == rvi.fps_num
            &&& i.fps_den == rvi.fps_den
            &&& i.width == rvi.width
            &&& i.height == rvi.height
            &&& i.num_frames == rvi.num_frames
            &&& i.format == VideoFormat::spec_from_ptr(rvi.format)
        }),
        ({
            let r = vi.spec_as_ptr();
            &&& r.fps_num == vi.fps_num
            &&& r.fps_den == vi.fps_den
            &&& r.width == vi.width
            &&& r.height == vi.height
            &&& r.num_frames == vi.num_frames
            &&& r.format == vi.format.spec_as_ptr()
        }),
        ({
            let f = AudioFormat::spec_from_ptr(ra);
            &&& (ra.sample_type == 0 <==> f.sample_type == SampleType::Integer)
            &&& f.bits_per_sample == ra.bits_per_sample
            &&& f.bytes_per_sample == ra.bytes_per_sample
            &&& f.num_channels == ra.num_channels
            &&& f.channel_layout@ == ra.channel_layout & all_channel_bits()
        }),
        ({
            let r = a.spec_as_ptr();
            &&& r.sample_type == a.sample_type.spec_code()
            &&& r.bits_per_sample == a.bits_per_sample
            &&& r.bytes_per_sample == a.bytes_per_sample
            &&& r.num_channels == a.num_channels
            &&& r.channel_layout == a.channel_layout@
        }),
        ({
            let i = AudioInfo::spec_from_ptr(rai);
            &&& i.sample_rate == rai.sample_rate
            &&& i.num_samples == rai.num_samples
            &&& i.num_frames == rai.num_frames
            &&& i.format == AudioFormat::spec_from_ptr(rai.format)
        }),
        ({
            let r = ai.spec_as_ptr();
            &&& r.sample_rate == ai.sample_rate
            &&& r.num_samples == ai.num_samples
            &&& r.num_frames == ai.num_frames
            &&& r.format == ai.format.spec_as_ptr()
        }),
{
}

/// The names of colour families and sample types are the names of their
/// values, as `Debug` writes them.
pub proof fn lemma_type_names()
    ensures
        ColorFamily::Undefined.spec_name() == "Undefined"@,
        ColorFamily::Gray.spec_name() == "Gray"@,
        ColorFamily::RGB.spec_name() == "RGB"@,
        ColorFamily::YUV.spec_name() == "YUV"@,
        SampleType::Integer.spec_name() == "Integer"@,
        SampleType::Float.spec_name() == "Float"@,
{
}

} // verus!

verus! {

/// One parameter of a refused format query as the error message shows it:
/// its name, `=`, its value.
pub open spec fn shown_param(name: Seq<char>, value: Seq<char>) -> Seq<char> {
    name + "="@ + value
}

/// The message of a refused format query names the kind of format, then
/// each parameter that was asked for with its own value, separated by
/// commas, the numbers in decimal.
pub proof fn lemma_format_error_text(e: FormatError)
    ensures
        match e {
            FormatError::InvalidVideoFormat {
                color_family,
                sample_type,
                bits_per_sample,
                sub_sampling_w,
                sub_sampling_h,
            } => format_error_text(e) == "Invalid video format: "@ + shown_param(
                "color_family"@,
                color_family.spec_name(),
            ) + ", "@ + shown_param("sample_type"@, sample_type.spec_name()) + ", "@ + shown_param(
                "bits_per_sample"@,
                decimal_text(bits_per_sample as int),
            ) + ", "@ + shown_param("sub_sampling_w"@, decimal_text(sub_sampling_w as int)) + ", "@
                + shown_param("sub_sampling_h"@, decimal_text(sub_sampling_h as int)),
            FormatError::InvalidAudioFormat { sample_type, bits_per_sample, channel_layout } =>
                format_error_text(e) == "Invalid audio format: "@ + shown_param(
                "sample_type"@,
                sample_type.spec_name(),
            ) + ", "@ + shown_param("bits_per_sample"@, decimal_text(bits_per_sample as int))
                + ", "@ + shown_param("channel_layout"@, decimal_text(channel_layout as int)),
        },
{
    reveal_strlit("Invalid video format: color_family=");
    reveal_strlit(", sample_type=");
    reveal_strlit(", bits_per_sample=");
    reveal_strlit(", sub_sampling_w=");
    reveal_strlit(", sub_sampling_h=");
    reveal_strlit("Invalid audio format: sample_type=");
    reveal_strlit(", channel_layout=");
    reveal_strlit("Invalid video format: ");
    reveal_strlit("Invalid audio format: ");
    reveal_strlit("color_family");
    reveal_strlit("sample_type");
    reveal_strlit("bits_per_sample");
    reveal_strlit("sub_sampling_w");
    reveal_strlit("sub_sampling_h");
    reveal_strlit("channel_layout");
    reveal_strlit("=");
    reveal_strlit(", ");
    match e {
        FormatError::InvalidVideoFormat {
            color_family,
            sample_type,
            bits_per_sample,
            sub_sampling_w,
            sub_sampling_h,
        } => {
            let a = color_family.spec_name();
            let b = sample_type.spec_name();
            let c = decimal_text(bits_per_sample as int);
            let d = decimal_text(sub_sampling_w as int);
            let f = decimal_text(sub_sampling_h as int);
            assert("Invalid video format: color_family="@ =~= "Invalid video format: "@ + "color_family"@ + "="@);
            assert(", sample_type="@ =~= ", "@ + "sample_type"@ + "="@);
            assert(", bits_per_sample="@ =~= ", "@ + "bits_per_sample"@ + "="@);
            assert(", sub_sampling_w="@ =~= ", "@ + "sub_sampling_w"@ + "="@);
            assert(", sub_sampling_h="@ =~= ", "@ + "sub_sampling_h"@ + "="@);
            assert(format_error_text(e) =~= "Invalid video format: "@ + shown_param("color_family"@, a)
                + ", "@ + shown_param("sample_type"@, b) + ", "@ + shown_param("bits_per_sample"@, c)
                + ", "@ + shown_param("sub_sampling_w"@, d) + ", "@ + shown_param("sub_sampling_h"@, f));
        },
        FormatError::InvalidAudioFormat { sample_type, bits_per_sample, channel_layout } => {
            let b = sample_type.spec_name();
            let c = decimal_text(bits_per_sample as int);
            let d = decimal_text(channel_layout as int);
            assert("Invalid audio format: sample_type="@ =~= "Invalid audio format: "@ + "sample_type"@ + "="@);
            assert(", bits_per_sample="@ =~= ", "@ + "bits_per_sample"@ + "="@);
            assert(", channel_layout="@ =~= ", "@ + "channel_layout"@ + "="@);
            assert(format_error_text(e) =~= "Invalid audio format: "@ + shown_param("sample_type"@, b)
                + ", "@ + shown_param("bits_per_sample"@, c) + ", "@ + shown_param("channel_layout"@, d));
        },
    }
}

} // verus!
