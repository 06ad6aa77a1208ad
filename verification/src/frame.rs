//! Frames: the planes of a video frame with their geometry, the frame
//! properties that VapourSynth standardises, and the enumerations they hold.
#![allow(non_camel_case_types)]
use vstd::prelude::*;
use crate::format::{VideoFormat, MediaType};
use crate::map::{OwnedMap, Entries, MapResult, MapError, first_bad_key_char, spec_get_int, spec_get_data, c_string_text, with_entry, Property, DataItem, DataType, keys_distinct, lemma_with_entry, is_valid_key, lemma_get_int_after_set_int, lemma_get_string_after_set_string, has_nul};
use vstd::utf8::encode_utf8;

verus! {

/// A transfer characteristic given by its number alone.
#[derive(Debug, Clone, Copy, PartialEq, Eq, Structural)]
pub enum Transfer {
    Unknown(u32),
}

/// Chroma sample position in YUV formats
#[derive(Debug, Clone, Copy, PartialEq, Eq, Structural, Hash)]
pub enum ChromaLocation {
    Left,
    Center,
    TopLeft,
    Top,
    BottomLeft,
    Bottom,
}

impl ChromaLocation {
    /// The number that stands for this value in frame properties.
    pub open spec fn spec_code(self) -> i64 {
        match self {
            ChromaLocation::Left => 0,
            ChromaLocation::Center => 1,
            ChromaLocation::TopLeft => 2,
            ChromaLocation::Top => 3,
            ChromaLocation::BottomLeft => 4,
            ChromaLocation::Bottom => 5,
        }
    }

    /// The number that stands for this value in frame properties.
    pub fn code(self) -> (r: i64)
        ensures
            r == self.spec_code(),
    {
        match self {
            ChromaLocation::Left => 0,
            ChromaLocation::Center => 1,
            ChromaLocation::TopLeft => 2,
            ChromaLocation::Top => 3,
            ChromaLocation::BottomLeft => 4,
            ChromaLocation::Bottom => 5,
        }
    }

    /// The value that the number stands for, if any.
    pub open spec fn spec_from_code(v: i64) -> Option<ChromaLocation> {
        if v == 0 {
            Some(ChromaLocation::Left)
        } else if v == 1 {
            Some(ChromaLocation::Center)
        } else if v == 2 {
            Some(ChromaLocation::TopLeft)
        } else if v == 3 {
            Some(ChromaLocation::Top)
        } else if v == 4 {
            Some(ChromaLocation::BottomLeft)
        } else if v == 5 {
            Some(ChromaLocation::Bottom)
        } else {
            None
        }
    }

    /// The value that the number stands for, if any.
    pub fn from_code(v: i64) -> (r: Option<ChromaLocation>)
        ensures
            r == Self::spec_from_code(v),
    {
        if v == 0 {
            Some(ChromaLocation::Left)
        } else if v == 1 {
            Some(ChromaLocation::Center)
        } else if v == 2 {
            Some(ChromaLocation::TopLeft)
        } else if v == 3 {
            Some(ChromaLocation::Top)
        } else if v == 4 {
            Some(ChromaLocation::BottomLeft)
        } else if v == 5 {
            Some(ChromaLocation::Bottom)
        } else {
            None
        }
    }
}

/// Every value is read back from its number.
pub proof fn lemma_chroma_location_code_roundtrip(x: ChromaLocation)
    ensures
        ChromaLocation::spec_from_code(x.spec_code()) == Some(x),
{
}

/// Full or limited range (PC/TV range)
#[derive(Debug, Clone, Copy, PartialEq, Eq, Structural, Hash)]
pub enum ColorRange {
    Full,
    Limited,
}

impl ColorRange {
    /// The number that stands for this value in frame properties.
    pub open spec fn spec_code(self) -> i64 {
        match self {
            ColorRange::Full => 0,
            ColorRange::Limited => 1,
        }
    }

    /// The number that stands for this value in frame properties.
    pub fn code(self) -> (r: i64)
        ensures
            r == self.spec_code(),
    {
        match self {
            ColorRange::Full => 0,
            ColorRange::Limited => 1,
        }
    }

    /// The value that the number stands for, if any.
    pub open spec fn spec_from_code(v: i64) -> Option<ColorRange> {
        if v == 0 {
            Some(ColorRange::Full)
        } else if v == 1 {
            Some(ColorRange::Limited)
        } else {
            None
        }
    }

    /// The value that the number stands for, if any.
    pub fn from_code(v: i64) -> (r: Option<ColorRange>)
        ensures
            r == Self::spec_from_code(v),
    {
        if v == 0 {
            Some(ColorRange::Full)
        } else if v == 1 {
            Some(ColorRange::Limited)
        } else {
            None
        }
    }
}

/// Every value is read back from its number.
pub proof fn lemma_color_range_code_roundtrip(x: ColorRange)
    ensures
        ColorRange::spec_from_code(x.spec_code()) == Some(x),
{
}

/// If the frame is composed of two independent fields (interlaced)
#[derive(Debug, Clone, Copy, PartialEq, Eq, Structural, Hash)]
pub enum FieldBased {
    Progressive,
    BottomFieldFirst,
    TopFieldFirst,
}

impl FieldBased {
    /// The number that stands for this value in frame properties.
    pub open spec fn spec_code(self) -> i64 {
        match self {
            FieldBased::Progressive => 0,
            FieldBased::BottomFieldFirst => 1,
            FieldBased::TopFieldFirst => 2,
        }
    }

    /// The number that stands for this value in frame properties.
    pub fn code(self) -> (r: i64)
        ensures
            r == self.spec_code(),
    {
        match self {
            FieldBased::Progressive => 0,
            FieldBased::BottomFieldFirst => 1,
            FieldBased::TopFieldFirst => 2,
        }
    }

    /// The value that the number stands for, if any.
    pub open spec fn spec_from_code(v: i64) -> Option<FieldBased> {
        if v == 0 {
            Some(FieldBased::Progressive)
        } else if v == 1 {
            Some(FieldBased::BottomFieldFirst)
        } else if v == 2 {
            Some(FieldBased::TopFieldFirst)
        } else {
            None
        }
    }

    /// The value that the number stands for, if any.
    pub fn from_code(v: i64) -> (r: Option<FieldBased>)
        ensures
            r == Self::spec_from_code(v),
    {
        if v == 0 {
            Some(FieldBased::Progressive)
        } else if v == 1 {
            Some(FieldBased::BottomFieldFirst)
        } else if v == 2 {
            Some(FieldBased::TopFieldFirst)
        } else {
            None
        }
    }
}

/// Every value is read back from its number.
pub proof fn lemma_field_based_code_roundtrip(x: FieldBased)
    ensures
        FieldBased::spec_from_code(x.spec_code()) == Some(x),
{
}

/// Which field was used to generate this frame
#[derive(Debug, Clone, Copy, PartialEq, Eq, Structural, Hash)]
pub enum Field {
    Bottom,
    Top,
}

impl Field {
    /// The number that stands for this value in frame properties.
    pub open spec fn spec_code(self) -> i64 {
        match self {
            Field::Bottom => 0,
            Field::Top => 1,
        }
    }

    /// The number that stands for this value in frame properties.
    pub fn code(self) -> (r: i64)
        ensures
            r == self.spec_code(),
    {
        match self {
            Field::Bottom => 0,
            Field::Top => 1,
        }
    }

    /// The value that the number stands for, if any.
    pub open spec fn spec_from_code(v: i64) -> Option<Field> {
        if v == 0 {
            Some(Field::Bottom)
        } else if v == 1 {
            Some(Field::Top)
        } else {
            None
        }
    }

    /// The value that the number stands for, if any.
    pub fn from_code(v: i64) -> (r: Option<Field>)
        ensures
            r == Self::spec_from_code(v),
    {
        if v == 0 {
            Some(Field::Bottom)
        } else if v == 1 {
            Some(Field::Top)
        } else {
            None
        }
    }
}

/// Every value is read back from its number.
pub proof fn lemma_field_code_roundtrip(x: Field)
    ensures
        Field::spec_from_code(x.spec_code()) == Some(x),
{
}

/// Color primaries as specified in ITU-T H.273 Table 2
#[derive(Debug, Clone, Copy, PartialEq, Eq, Structural, Hash)]
pub enum ColorPrimaries {
    BT709,
    UNSPECIFIED,
    Bt470M,
    Bt470Bg,
    St170M,
    St240M,
    FILM,
    BT2020,
    ST428,
    ST431_2,
    ST432_1,
    Ebu3213E,
}

impl ColorPrimaries {
    /// The number that stands for this value in frame properties.
    pub open spec fn spec_code(self) -> i64 {
        match self {
            ColorPrimaries::BT709 => 1,
            ColorPrimaries::UNSPECIFIED => 2,
            ColorPrimaries::Bt470M => 4,
            ColorPrimaries::Bt470Bg => 5,
            ColorPrimaries::St170M => 6,
            ColorPrimaries::St240M => 7,
            ColorPrimaries::FILM => 8,
            ColorPrimaries::BT2020 => 9,
            ColorPrimaries::ST428 => 10,
            ColorPrimaries::ST431_2 => 11,
            ColorPrimaries::ST432_1 => 12,
            ColorPrimaries::Ebu3213E => 22,
        }
    }

    /// The number that stands for this value in frame properties.
    pub fn code(self) -> (r: i64)
        ensures
            r == self.spec_code(),
    {
        match self {
            ColorPrimaries::BT709 => 1,
            ColorPrimaries::UNSPECIFIED => 2,
            ColorPrimaries::Bt470M => 4,
            ColorPrimaries::Bt470Bg => 5,
            ColorPrimaries::St170M => 6,
            ColorPrimaries::St240M => 7,
            ColorPrimaries::FILM => 8,
            ColorPrimaries::BT2020 => 9,
            ColorPrimaries::ST428 => 10,
            ColorPrimaries::ST431_2 => 11,
            ColorPrimaries::ST432_1 => 12,
            ColorPrimaries::Ebu3213E => 22,
        }
    }

    /// The value that the number stands for; numbers that stand for none read as `UNSPECIFIED`.
    pub open spec fn spec_from_code(v: i64) -> ColorPrimaries {
        if v == 1 {
            ColorPrimaries::BT709
        } else if v == 2 {
            ColorPrimaries::UNSPECIFIED
        } else if v == 4 {
            ColorPrimaries::Bt470M
        } else if v == 5 {
            ColorPrimaries::Bt470Bg
        } else if v == 6 {
            ColorPrimaries::St170M
        } else if v == 7 {
            ColorPrimaries::St240M
        } else if v == 8 {
            ColorPrimaries::FILM
        } else if v == 9 {
            ColorPrimaries::BT2020
        } else if v == 10 {
            ColorPrimaries::ST428
        } else if v == 11 {
            ColorPrimaries::ST431_2
        } else if v == 12 {
            ColorPrimaries::ST432_1
        } else if v == 22 {
            ColorPrimaries::Ebu3213E
        } else {
            ColorPrimaries::UNSPECIFIED
        }
    }

    /// The value that the number stands for; numbers that stand for none read as `UNSPECIFIED`.
    pub fn from_i64(v: i64) -> (r: ColorPrimaries)
        ensures
            r == Self::spec_from_code(v),
    {
        if v == 1 {
            ColorPrimaries::BT709
        } else if v == 2 {
            ColorPrimaries::UNSPECIFIED
        } else if v == 4 {
            ColorPrimaries::Bt470M
        } else if v == 5 {
            ColorPrimaries::Bt470Bg
        } else if v == 6 {
            ColorPrimaries::St170M
        } else if v == 7 {
            ColorPrimaries::St240M
        } else if v == 8 {
            ColorPrimaries::FILM
        } else if v == 9 {
            ColorPrimaries::BT2020
        } else if v == 10 {
            ColorPrimaries::ST428
        } else if v == 11 {
            ColorPrimaries::ST431_2
        } else if v == 12 {
            ColorPrimaries::ST432_1
        } else if v == 22 {
            ColorPrimaries::Ebu3213E
        } else {
            ColorPrimaries::UNSPECIFIED
        }
    }
}

/// Every value is read back from its number.
pub proof fn lemma_color_primaries_code_roundtrip(x: ColorPrimaries)
    ensures
        ColorPrimaries::spec_from_code(x.spec_code()) == x,
{
}

/// Matrix coefficients as specified in ITU-T H.273 Table 4
#[derive(Debug, Clone, Copy, PartialEq, Eq, Structural, Hash)]
pub enum MatrixCoefficients {
    RGB,
    BT709,
    UNSPECIFIED,
    FCC,
    Bt470Bg,
    St170M,
    St240M,
    YCGCO,
    Bt2020Ncl,
    Bt2020Cl,
    ChromaticityDerivedNcl,
    ChromaticityDerivedCl,
    ICTCP,
}

impl MatrixCoefficients {
    /// The number that stands for this value in frame properties.
    pub open spec fn spec_code(self) -> i64 {
        match self {
            MatrixCoefficients::RGB => 0,
            MatrixCoefficients::BT709 => 1,
            MatrixCoefficients::UNSPECIFIED => 2,
            MatrixCoefficients::FCC => 4,
            MatrixCoefficients::Bt470Bg => 5,
            MatrixCoefficients::St170M => 6,
            MatrixCoefficients::St240M => 7,
            MatrixCoefficients::YCGCO => 8,
            MatrixCoefficients::Bt2020Ncl => 9,
            MatrixCoefficients::Bt2020Cl => 10,
            MatrixCoefficients::ChromaticityDerivedNcl => 12,
            MatrixCoefficients::ChromaticityDerivedCl => 13,
            MatrixCoefficients::ICTCP => 14,
        }
    }

    /// The number that stands for this value in frame properties.
    pub fn code(self) -> (r: i64)
        ensures
            r == self.spec_code(),
    {
        match self {
            MatrixCoefficients::RGB => 0,
            MatrixCoefficients::BT709 => 1,
            MatrixCoefficients::UNSPECIFIED => 2,
            MatrixCoefficients::FCC => 4,
            MatrixCoefficients::Bt470Bg => 5,
            MatrixCoefficients::St170M => 6,
            MatrixCoefficients::St240M => 7,
            MatrixCoefficients::YCGCO => 8,
            MatrixCoefficients::Bt2020Ncl => 9,
            MatrixCoefficients::Bt2020Cl => 10,
            MatrixCoefficients::ChromaticityDerivedNcl => 12,
            MatrixCoefficients::ChromaticityDerivedCl => 13,
            MatrixCoefficients::ICTCP => 14,
        }
    }

    /// The value that the number stands for; numbers that stand for none read as `UNSPECIFIED`.
    pub open spec fn spec_from_code(v: i64) -> MatrixCoefficients {
        if v == 0 {
            MatrixCoefficients::RGB
        } else if v == 1 {
            MatrixCoefficients::BT709
        } else if v == 2 {
            MatrixCoefficients::UNSPECIFIED
        } else if v == 4 {
            MatrixCoefficients::FCC
        } else if v == 5 {
            MatrixCoefficients::Bt470Bg
        } else if v == 6 {
            MatrixCoefficients::St170M
        } else if v == 7 {
            MatrixCoefficients::St240M
        } else if v == 8 {
            MatrixCoefficients::YCGCO
        } else if v == 9 {
            MatrixCoefficients::Bt2020Ncl
        } else if v == 10 {
            MatrixCoefficients::Bt2020Cl
        } else if v == 12 {
            MatrixCoefficients::ChromaticityDerivedNcl
        } else if v == 13 {
            MatrixCoefficients::ChromaticityDerivedCl
        } else if v == 14 {
            MatrixCoefficients::ICTCP
        } else {
            MatrixCoefficients::UNSPECIFIED
        }
    }

    /// The value that the number stands for; numbers that stand for none read as `UNSPECIFIED`.
    pub fn from_i64(v: i64) -> (r: MatrixCoefficients)
        ensures
            r == Self::spec_from_code(v),
    {
        if v == 0 {
            MatrixCoefficients::RGB
        } else if v == 1 {
            MatrixCoefficients::BT709
        } else if v == 2 {
            MatrixCoefficients::UNSPECIFIED
        } else if v == 4 {
            MatrixCoefficients::FCC
        } else if v == 5 {
            MatrixCoefficients::Bt470Bg
        } else if v == 6 {
            MatrixCoefficients::St170M
        } else if v == 7 {
            MatrixCoefficients::St240M
        } else if v == 8 {
            MatrixCoefficients::YCGCO
        } else if v == 9 {
            MatrixCoefficients::Bt2020Ncl
        } else if v == 10 {
            MatrixCoefficients::Bt2020Cl
        } else if v == 12 {
            MatrixCoefficients::ChromaticityDerivedNcl
        } else if v == 13 {
            MatrixCoefficients::ChromaticityDerivedCl
        } else if v == 14 {
            MatrixCoefficients::ICTCP
        } else {
            MatrixCoefficients::UNSPECIFIED
        }
    }
}

/// Every value is read back from its number.
pub proof fn lemma_matrix_coefficients_code_roundtrip(x: MatrixCoefficients)
    ensures
        MatrixCoefficients::spec_from_code(x.spec_code()) == x,
{
}

/// Transfer characteristics as specified in ITU-T H.273 Table 3
#[derive(Debug, Clone, Copy, PartialEq, Eq, Structural, Hash)]
pub enum TransferCharacteristics {
    BT709,
    UNSPECIFIED,
    Bt470M,
    Bt470Bg,
    BT601,
    St240M,
    LINEAR,
    Log100,
    Log316,
    Iec61966_2_4,
    Iec61966_2_1,
    BT2020_10,
    BT2020_12,
    ST2084,
    ST428,
    AribB67,
}

impl TransferCharacteristics {
    /// The number that stands for this value in frame properties.
    pub open spec fn spec_code(self) -> i64 {
        match self {
            TransferCharacteristics::BT709 => 1,
            TransferCharacteristics::UNSPECIFIED => 2,
            TransferCharacteristics::Bt470M => 4,
            TransferCharacteristics::Bt470Bg => 5,
            TransferCharacteristics::BT601 => 6,
            TransferCharacteristics::St240M => 7,
            TransferCharacteristics::LINEAR => 8,
            TransferCharacteristics::Log100 => 9,
            TransferCharacteristics::Log316 => 10,
            TransferCharacteristics::Iec61966_2_4 => 11,
            TransferCharacteristics::Iec61966_2_1 => 13,
            TransferCharacteristics::BT2020_10 => 14,
            TransferCharacteristics::BT2020_12 => 15,
            TransferCharacteristics::ST2084 => 16,
            TransferCharacteristics::ST428 => 17,
            TransferCharacteristics::AribB67 => 18,
        }
    }

    /// The number that stands for this value in frame properties.
    pub fn code(self) -> (r: i64)
        ensures
            r == self.spec_code(),
    {
        match self {
            TransferCharacteristics::BT709 => 1,
            TransferCharacteristics::UNSPECIFIED => 2,
            TransferCharacteristics::Bt470M => 4,
            TransferCharacteristics::Bt470Bg => 5,
            TransferCharacteristics::BT601 => 6,
            TransferCharacteristics::St240M => 7,
            TransferCharacteristics::LINEAR => 8,
            TransferCharacteristics::Log100 => 9,
            TransferCharacteristics::Log316 => 10,
            TransferCharacteristics::Iec61966_2_4 => 11,
            TransferCharacteristics::Iec61966_2_1 => 13,
            TransferCharacteristics::BT2020_10 => 14,
            TransferCharacteristics::BT2020_12 => 15,
            TransferCharacteristics::ST2084 => 16,
            TransferCharacteristics::ST428 => 17,
            TransferCharacteristics::AribB67 => 18,
        }
    }

    /// The value that the number stands for; numbers that stand for none read as `UNSPECIFIED`.
    pub open spec fn spec_from_code(v: i64) -> TransferCharacteristics {
        if v == 1 {
            TransferCharacteristics::BT709
        } else if v == 2 {
            TransferCharacteristics::UNSPECIFIED
        } else if v == 4 {
            TransferCharacteristics::Bt470M
        } else if v == 5 {
            TransferCharacteristics::Bt470Bg
        } else if v == 6 {
            TransferCharacteristics::BT601
        } else if v == 7 {
            TransferCharacteristics::St240M
        } else if v == 8 {
            TransferCharacteristics::LINEAR
        } else if v == 9 {
            TransferCharacteristics::Log100
        } else if v == 10 {
            TransferCharacteristics::Log316
        } else if v == 11 {
            TransferCharacteristics::Iec61966_2_4
        } else if v == 13 {
            TransferCharacteristics::Iec61966_2_1
        } else if v == 14 {
            TransferCharacteristics::BT2020_10
        } else if v == 15 {
            TransferCharacteristics::BT2020_12
        } else if v == 16 {
            TransferCharacteristics::ST2084
        } else if v == 17 {
            TransferCharacteristics::ST428
        } else if v == 18 {
            TransferCharacteristics::AribB67
        } else {
            TransferCharacteristics::UNSPECIFIED
        }
    }

    /// The value that the number stands for; numbers that stand for none read as `UNSPECIFIED`.
    pub fn from_i64(v: i64) -> (r: TransferCharacteristics)
        ensures
            r == Self::spec_from_code(v),
    {
        if v == 1 {
            TransferCharacteristics::BT709
        } else if v == 2 {
            TransferCharacteristics::UNSPECIFIED
        } else if v == 4 {
            TransferCharacteristics::Bt470M
        } else if v == 5 {
            TransferCharacteristics::Bt470Bg
        } else if v == 6 {
            TransferCharacteristics::BT601
        } else if v == 7 {
            TransferCharacteristics::St240M
        } else if v == 8 {
            TransferCharacteristics::LINEAR
        } else if v == 9 {
            TransferCharacteristics::Log100
        } else if v == 10 {
            TransferCharacteristics::Log316
        } else if v == 11 {
            TransferCharacteristics::Iec61966_2_4
        } else if v == 13 {
            TransferCharacteristics::Iec61966_2_1
        } else if v == 14 {
            TransferCharacteristics::BT2020_10
        } else if v == 15 {
            TransferCharacteristics::BT2020_12
        } else if v == 16 {
            TransferCharacteristics::ST2084
        } else if v == 17 {
            TransferCharacteristics::ST428
        } else if v == 18 {
            TransferCharacteristics::AribB67
        } else {
            TransferCharacteristics::UNSPECIFIED
        }
    }
}

/// Every value is read back from its number.
pub proof fn lemma_transfer_characteristics_code_roundtrip(x: TransferCharacteristics)
    ensures
        TransferCharacteristics::spec_from_code(x.spec_code()) == x,
{
}

} // verus!

verus! {

/// One plane of a video frame: `height` rows of samples, `stride` bytes apart,
/// each row starting with `width` samples.
#[derive(Debug)]
pub struct Plane {
    pub data: Vec<u8>,
    pub stride: usize,
    pub width: i32,
    pub height: i32,
}

impl Plane {
    /// The plane has rows of at least `width` samples of the given size and
    /// exactly `stride * height` bytes.
    pub open spec fn wf(&self, bytes_per_sample: int) -> bool {
        &&& self.width > 0
        &&& self.height > 0
        &&& self.stride >= self.width * bytes_per_sample
        &&& self.data@.len() == self.stride * self.height
    }
}

/// The width of plane `i` of a frame `width` pixels wide: the first plane has
/// the frame's width, the others are subsampled by `sub_sampling_w`.
pub open spec fn plane_width(width: i32, format: VideoFormat, i: int) -> i32 {
    if i == 0 {
        width
    } else {
        width >> (format.sub_sampling_w as u32)
    }
}

/// The height of plane `i` of a frame `height` pixels high.
pub open spec fn plane_height(height: i32, format: VideoFormat, i: int) -> i32 {
    if i == 0 {
        height
    } else {
        height >> (format.sub_sampling_h as u32)
    }
}

/// One frame of a video clip: its format, its planes and its properties.
#[derive(Debug)]
pub struct Frame {
    format: VideoFormat,
    planes: Vec<Plane>,
    properties: OwnedMap,
}

impl Frame {
    /// The format of the frame.
    pub closed spec fn spec_format(&self) -> VideoFormat {
        self.format
    }

    /// The planes of the frame.
    pub closed spec fn spec_planes(&self) -> Seq<Plane> {
        self.planes@
    }

    /// The property entries of the frame.
    pub closed spec fn props(&self) -> Entries {
        self.properties@
    }

    /// The frame holds between one and three planes, as many as its format
    /// says, each well formed for the format's sample size, and its
    /// properties have distinct keys.
    pub closed spec fn wf(&self) -> bool {
        &&& 1 <= self.format.num_planes <= 3
        &&& 1 <= self.format.bytes_per_sample
        &&& self.planes@.len() == self.format.num_planes
        &&& forall|i: int|
            0 <= i < self.planes@.len() ==> (#[trigger] self.planes@[i]).wf(
                self.format.bytes_per_sample as int,
            )
        &&& self.properties.wf()
    }

    /// What a well formed frame holds: as many planes as its format says,
    /// each well formed for the format's sample size, and properties with
    /// distinct keys.
    pub proof fn lemma_wf_facts(&self)
        requires
            self.wf(),
        ensures
            1 <= self.spec_format().num_planes <= 3,
            1 <= self.spec_format().bytes_per_sample,
            self.spec_planes().len() == self.spec_format().num_planes,
            forall|i: int|
                0 <= i < self.spec_planes().len() ==> (#[trigger] self.spec_planes()[i]).wf(
                    self.spec_format().bytes_per_sample as int,
                ),
            keys_distinct(self.props()),
    {
    }

    /// The requirements of [Frame::new_video_frame] on its size and format.
    pub open spec fn valid_new_frame(width: i32, height: i32, format: VideoFormat) -> bool {
        &&& 1 <= format.num_planes <= 3
        &&& 1 <= format.bytes_per_sample <= 8
        &&& 0 <= format.sub_sampling_w <= 4
        &&& 0 <= format.sub_sampling_h <= 4
        &&& width > 0
        &&& height > 0
        &&& format.num_planes > 1 ==> (width >> (format.sub_sampling_w as u32)) > 0 && (height
            >> format.sub_sampling_h) > 0
        &&& width * format.bytes_per_sample * height <= usize::MAX
    }

    /// Builds a frame from its parts; `None` when the parts do not make a well
    /// formed frame.
    pub fn from_planes(format: VideoFormat, planes: Vec<Plane>, properties: OwnedMap) -> (r:
        Option<Frame>)
        ensures
            match r {
                Some(f) => f.wf() && f.spec_format() == format && f.spec_planes() == planes@
                    && f.props() == properties@,
                None => !(1 <= format.num_planes <= 3 && 1 <= format.bytes_per_sample
                    && planes@.len() == format.num_planes && (forall|i: int|
                    0 <= i < planes@.len() ==> (#[trigger] planes@[i]).wf(
                        format.bytes_per_sample as int,
                    )) && properties.wf()),
            },
    {
        if format.num_planes < 1 || format.num_planes > 3 || format.bytes_per_sample < 1 {
            return None;
        }
        if planes.len() != format.num_planes as usize {
            return None;
        }
        if !properties.has_distinct_keys() {
            return None;
        }
        let bps = format.bytes_per_sample as usize;
        let mut i: usize = 0;
        while i < planes.len()
            invariant
                i <= planes@.len(),
                bps == format.bytes_per_sample,
                bps >= 1,
                forall|j: int| 0 <= j < i ==> (#[trigger] planes@[j]).wf(bps as int),
            decreases planes@.len() - i,
        {
            let p = &planes[i];
            let dlen = p.data.len();
            if p.width <= 0 || p.height <= 0 {
                return None;
            }
            let row = match (p.width as usize).checked_mul(bps) {
                Some(x) => x,
                None => return None,
            };
            if p.stride < row {
                return None;
            }
            let size = match p.stride.checked_mul(p.height as usize) {
                Some(x) => x,
                None => return None,
            };
            if dlen != size {
                return None;
            }
            i = i + 1;
        }
        Some(Frame { format, planes, properties })
    }

    /// Creates a new video frame, optionally copying the properties attached
    /// to another frame. Plane `i` has the size given by [plane_width] and
    /// [plane_height], and rows at least as long as its samples; how much
    /// longer, and what the samples hold, is for the frame's maker to choose
    /// (this one zeroes them and pads no row).
    pub fn new_video_frame(width: i32, height: i32, format: &VideoFormat, prop_src: Option<
        &Frame,
    >) -> (r: Frame)
        requires
            Self::valid_new_frame(width, height, *format),
            prop_src matches Some(f) ==> f.wf(),
        ensures
            r.wf(),
            r.spec_format() == *format,
            forall|i: int|
                0 <= i < r.spec_planes().len() ==> {
                    let p = #[trigger] r.spec_planes()[i];
                    &&& p.width == plane_width(width, *format, i)
                    &&& p.height == plane_height(height, *format, i)
                    &&& p.stride >= p.width * format.bytes_per_sample
                },
            match prop_src {
                Some(f) => r.props() == f.props(),
                None => r.props() == Seq::<(Seq<char>, Property)>::empty(),
            },
    {
        let bps = format.bytes_per_sample as usize;
        let mut planes: Vec<Plane> = Vec::new();
        let mut i: i32 = 0;
        while i < format.num_planes
            invariant
                Self::valid_new_frame(width, height, *format),
                bps == format.bytes_per_sample,
                0 <= i <= format.num_planes,
                planes@.len() == i,
                forall|k: int|
                    0 <= k < i ==> {
                        let p = #[trigger] planes@[k];
                        &&& p.wf(bps as int)
                        &&& p.width == plane_width(width, *format, k)
                        &&& p.height == plane_height(height, *format, k)
                        &&& p.stride == p.width * format.bytes_per_sample
                        &&& forall|j: int| 0 <= j < p.data@.len() ==> p.data@[j] == 0
                    },
            decreases format.num_planes - i,
        {
            let w: i32 = if i == 0 {
                width
            } else {
                width >> (format.sub_sampling_w as u32)
            };
            let h: i32 = if i == 0 {
                height
            } else {
                height >> (format.sub_sampling_h as u32)
            };
            proof {
                let ssw = format.sub_sampling_w as u32;
                let ssh = format.sub_sampling_h as u32;
                assert(w <= width) by (bit_vector)
                    requires
                        w == width || w == width >> ssw,
                        width > 0,
                        0 <= ssw <= 4,
                ;
                assert(h <= height) by (bit_vector)
                    requires
                        h == height || h == height >> ssh,
                        height > 0,
                        0 <= ssh <= 4,
                ;
                assert(w * bps <= width * bps) by (nonlinear_arith)
                    requires
                        w <= width,
                        bps >= 0,
                ;
                assert(w * bps * h <= width * bps * height) by (nonlinear_arith)
                    requires
                        w * bps <= width * bps,
                        0 < h <= height,
                        w * bps >= 0,
                        width * bps >= 0,
                ;
                assert(w > 0 && h > 0);
                assert(w * bps <= w * bps * h) by (nonlinear_arith)
                    requires
                        h >= 1,
                        w * bps >= 0,
                ;
            }
            let stride = (w as usize) * bps;
            let size = stride * (h as usize);
            let mut data: Vec<u8> = Vec::new();
            let mut j: usize = 0;
            while j < size
                invariant
                    j <= size,
                    data@.len() == j,
                    forall|t: int| 0 <= t < j ==> data@[t] == 0,
                decreases size - j,
            {
                data.push(0u8);
                j = j + 1;
            }
            planes.push(Plane { data, stride, width: w, height: h });
            i = i + 1;
        }
        let properties = match prop_src {
            Some(f) => f.properties.copy_map(),
            None => OwnedMap::new(),
        };
        Frame { format: *format, planes, properties }
    }

    /// Returns the height of a plane of a given frame, in pixels. The height depends on the plane number because of the possible chroma subsampling.
    pub fn get_height(&self, plane: i32) -> (r: i32)
        requires
            self.wf(),
            0 <= plane < self.spec_planes().len(),
        ensures
            r == self.spec_planes()[plane as int].height,
    {
        self.planes[plane as usize].height
    }

    /// Returns the width of a plane of a given frame, in pixels. The width depends on the plane number because of the possible chroma subsampling.
    pub fn get_width(&self, plane: i32) -> (r: i32)
        requires
            self.wf(),
            0 <= plane < self.spec_planes().len(),
        ensures
            r == self.spec_planes()[plane as int].width,
    {
        self.planes[plane as usize].width
    }

    /// Returns the distance in bytes between two consecutive lines of a plane of a frame. The stride is always positive.
    pub fn get_stride(&self, plane: i32) -> (r: usize)
        requires
            self.wf(),
            0 <= plane < self.spec_planes().len(),
        ensures
            r == self.spec_planes()[plane as int].stride,
    {
        self.planes[plane as usize].stride
    }

    /// Get read-only slice to plane data
    pub fn get_read_slice(&self, plane: i32) -> (r: &[u8])
        requires
            self.wf(),
            0 <= plane < self.spec_planes().len(),
        ensures
            r@ == self.spec_planes()[plane as int].data@,
    {
        self.planes[plane as usize].data.as_slice()
    }

    /// Get mutable slice to plane data: writing through it changes the bytes
    /// of that plane and nothing else of the frame.
    pub fn get_write_slice(&mut self, plane: i32) -> (r: &mut [u8])
        requires
            old(self).wf(),
            0 <= plane < old(self).spec_planes().len(),
        ensures
            r@ == old(self).spec_planes()[plane as int].data@,
            final(self).spec_format() == old(self).spec_format(),
            final(self).props() == old(self).props(),
            final(self).spec_planes().len() == old(self).spec_planes().len(),
            forall|i: int|
                0 <= i < old(self).spec_planes().len() && i != plane ==> #[trigger] final(self).spec_planes()[i]
                    == old(self).spec_planes()[i],
            final(self).spec_planes()[plane as int].data@ == final(r)@,
            final(self).spec_planes()[plane as int].stride == old(self).spec_planes()[plane as int].stride,
            final(self).spec_planes()[plane as int].width == old(self).spec_planes()[plane as int].width,
            final(self).spec_planes()[plane as int].height == old(self).spec_planes()[plane as int].height,
            final(r)@.len() == r@.len() ==> final(self).wf(),
    {
        self.planes[plane as usize].data.as_mut_slice()
    }

    /// The format of the frame.
    pub fn get_video_format(&self) -> (r: Option<VideoFormat>)
        ensures
            r == Some(self.spec_format()),
    {
        Some(self.format)
    }

    /// A frame of this kind always holds video.
    pub fn get_frame_type(&self) -> (r: MediaType)
        ensures
            r == MediaType::Video,
    {
        MediaType::Video
    }

    /// Get read-only access to frame properties
    pub fn properties(&self) -> (r: &OwnedMap)
        ensures
            r@ == self.props(),
            self.wf() ==> r.wf(),
    {
        &self.properties
    }

    /// Every plane, in plane order: its bytes, the distance between its rows
    /// and its size in pixels.
    pub fn planes(&self) -> (r: Vec<PlaneInfo<'_>>)
        requires
            self.wf(),
        ensures
            r@.len() == self.spec_planes().len(),
            forall|i: int|
                0 <= i < r@.len() ==> {
                    let p = #[trigger] r@[i];
                    let q = self.spec_planes()[i];
                    p.data@ == q.data@ && p.stride == q.stride && p.width == q.width && p.height
                        == q.height
                },
    {
        let mut out: Vec<PlaneInfo<'_>> = Vec::new();
        let mut i: usize = 0;
        while i < self.planes.len()
            invariant
                i <= self.planes@.len(),
                out@.len() == i,
                forall|k: int|
                    0 <= k < i ==> {
                        let p = #[trigger] out@[k];
                        let q = self.planes@[k];
                        p.data@ == q.data@ && p.stride == q.stride && p.width == q.width
                            && p.height == q.height
                    },
            decreases self.planes@.len() - i,
        {
            let p = &self.planes[i];
            out.push(PlaneInfo { data: p.data.as_slice(), stride: p.stride, width: p.width, height: p.height });
            i = i + 1;
        }
        out
    }
}

/// `ps` are the planes of `f` as [Frame::planes] lends them: one for each
/// plane, in plane order, with the plane's bytes, stride and size.
pub open spec fn lends_planes(f: Frame, ps: Seq<PlaneInfo>) -> bool {
    &&& ps.len() == f.spec_planes().len()
    &&& forall|i: int|
        0 <= i < ps.len() ==> {
            let p = #[trigger] ps[i];
            let q = f.spec_planes()[i];
            p.data@ == q.data@ && p.stride == q.stride && p.width == q.width && p.height == q.height
        }
}

impl Frame {
    /// Lends every plane of the frame, in plane order, to `f` and answers what
    /// `f` answers.
    pub fn with_planes<'a, F, R>(&'a self, f: F) -> (r: R) where F: FnOnce(&[PlaneInfo<'a>]) -> R
        requires
            self.wf(),
            forall|ps: &[PlaneInfo<'a>]| lends_planes(*self, ps@) ==> #[trigger] f.requires((ps,)),
        ensures
            exists|ps: &[PlaneInfo<'a>]| lends_planes(*self, ps@) && #[trigger] f.ensures((ps,), r),
    {
        let planes = self.planes();
        let ps = planes.as_slice();
        assert(lends_planes(*self, ps@));
        f(ps)
    }
}

/// A plane of a frame as the frame lends it: its bytes, the distance between
/// its rows and its size in pixels.
#[derive(Debug, Clone, Copy, PartialEq, Eq)]
pub struct PlaneInfo<'a> {
    pub data: &'a [u8],
    pub stride: usize,
    pub width: i32,
    pub height: i32,
}

} // verus!
verus! {

/// The property key `_ChromaLocation`.
pub open spec fn key_chroma_location() -> Seq<char> {
    "_ChromaLocation"@
}

/// The key `_ChromaLocation` is a valid key.
pub proof fn lemma_key_chroma_location_valid()
    ensures
        is_valid_key(key_chroma_location()),
{
    reveal_strlit("_ChromaLocation");
    reveal_with_fuel(first_bad_key_char, 17);
}

/// The property key `_ColorRange`.
pub open spec fn key_color_range() -> Seq<char> {
    "_ColorRange"@
}

/// The key `_ColorRange` is a valid key.
pub proof fn lemma_key_color_range_valid()
    ensures
        is_valid_key(key_color_range()),
{
    reveal_strlit("_ColorRange");
    reveal_with_fuel(first_bad_key_char, 13);
}

/// The property key `_Primaries`.
pub open spec fn key_primaries() -> Seq<char> {
    "_Primaries"@
}

/// The key `_Primaries` is a valid key.
pub proof fn lemma_key_primaries_valid()
    ensures
        is_valid_key(key_primaries()),
{
    reveal_strlit("_Primaries");
    reveal_with_fuel(first_bad_key_char, 12);
}

/// The property key `_Matrix`.
pub open spec fn key_matrix() -> Seq<char> {
    "_Matrix"@
}

/// The key `_Matrix` is a valid key.
pub proof fn lemma_key_matrix_valid()
    ensures
        is_valid_key(key_matrix()),
{
    reveal_strlit("_Matrix");
    reveal_with_fuel(first_bad_key_char, 9);
}

/// The property key `_Transfer`.
pub open spec fn key_transfer() -> Seq<char> {
    "_Transfer"@
}

/// The key `_Transfer` is a valid key.
pub proof fn lemma_key_transfer_valid()
    ensures
        is_valid_key(key_transfer()),
{
    reveal_strlit("_Transfer");
    reveal_with_fuel(first_bad_key_char, 11);
}

/// The property key `_FieldBased`.
pub open spec fn key_field_based() -> Seq<char> {
    "_FieldBased"@
}

/// The key `_FieldBased` is a valid key.
pub proof fn lemma_key_field_based_valid()
    ensures
        is_valid_key(key_field_based()),
{
    reveal_strlit("_FieldBased");
    reveal_with_fuel(first_bad_key_char, 13);
}

/// The property key `_DurationNum`.
pub open spec fn key_duration_num() -> Seq<char> {
    "_DurationNum"@
}

/// The key `_DurationNum` is a valid key.
pub proof fn lemma_key_duration_num_valid()
    ensures
        is_valid_key(key_duration_num()),
{
    reveal_strlit("_DurationNum");
    reveal_with_fuel(first_bad_key_char, 14);
}

/// The property key `_DurationDen`.
pub open spec fn key_duration_den() -> Seq<char> {
    "_DurationDen"@
}

/// The key `_DurationDen` is a valid key.
pub proof fn lemma_key_duration_den_valid()
    ensures
        is_valid_key(key_duration_den()),
{
    reveal_strlit("_DurationDen");
    reveal_with_fuel(first_bad_key_char, 14);
}

/// The property key `_Combed`.
pub open spec fn key_combed() -> Seq<char> {
    "_Combed"@
}

/// The key `_Combed` is a valid key.
pub proof fn lemma_key_combed_valid()
    ensures
        is_valid_key(key_combed()),
{
    reveal_strlit("_Combed");
    reveal_with_fuel(first_bad_key_char, 9);
}

/// The property key `_Field`.
pub open spec fn key_field() -> Seq<char> {
    "_Field"@
}

/// The key `_Field` is a valid key.
pub proof fn lemma_key_field_valid()
    ensures
        is_valid_key(key_field()),
{
    reveal_strlit("_Field");
    reveal_with_fuel(first_bad_key_char, 8);
}

/// The property key `_PictType`.
pub open spec fn key_picture_type() -> Seq<char> {
    "_PictType"@
}

/// The key `_PictType` is a valid key.
pub proof fn lemma_key_picture_type_valid()
    ensures
        is_valid_key(key_picture_type()),
{
    reveal_strlit("_PictType");
    reveal_with_fuel(first_bad_key_char, 11);
}

/// The property key `_SARNum`.
pub open spec fn key_sar_num() -> Seq<char> {
    "_SARNum"@
}

/// The key `_SARNum` is a valid key.
pub proof fn lemma_key_sar_num_valid()
    ensures
        is_valid_key(key_sar_num()),
{
    reveal_strlit("_SARNum");
    reveal_with_fuel(first_bad_key_char, 9);
}

/// The property key `_SARDen`.
pub open spec fn key_sar_den() -> Seq<char> {
    "_SARDen"@
}

/// The key `_SARDen` is a valid key.
pub proof fn lemma_key_sar_den_valid()
    ensures
        is_valid_key(key_sar_den()),
{
    reveal_strlit("_SARDen");
    reveal_with_fuel(first_bad_key_char, 9);
}

/// The property key `_SceneChangeNext`.
pub open spec fn key_scene_change_next() -> Seq<char> {
    "_SceneChangeNext"@
}

/// The key `_SceneChangeNext` is a valid key.
pub proof fn lemma_key_scene_change_next_valid()
    ensures
        is_valid_key(key_scene_change_next()),
{
    reveal_strlit("_SceneChangeNext");
    reveal_with_fuel(first_bad_key_char, 18);
}

/// The property key `_SceneChangePrev`.
pub open spec fn key_scene_change_prev() -> Seq<char> {
    "_SceneChangePrev"@
}

/// The key `_SceneChangePrev` is a valid key.
pub proof fn lemma_key_scene_change_prev_valid()
    ensures
        is_valid_key(key_scene_change_prev()),
{
    reveal_strlit("_SceneChangePrev");
    reveal_with_fuel(first_bad_key_char, 18);
}

/// The first integer under the key, if it can be read.
pub open spec fn prop_int(m: Entries, key: Seq<char>) -> Option<i64> {
    match spec_get_int(m, key, 0) {
        Ok(v) => Some(v),
        Err(_) => None,
    }
}

/// What [Frame::chroma_location] reads from the given property entries.
pub open spec fn spec_chroma_location(m: Entries) -> Option<ChromaLocation> {
    match prop_int(m, key_chroma_location()) {
        Some(v) => ChromaLocation::spec_from_code(v),
        None => None,
    }
}

/// What [Frame::color_range] reads from the given property entries.
pub open spec fn spec_color_range(m: Entries) -> Option<ColorRange> {
    match prop_int(m, key_color_range()) {
        Some(v) => ColorRange::spec_from_code(v),
        None => None,
    }
}

/// What [Frame::primaries] reads from the given property entries: a missing or
/// unreadable value reads as 2.
pub open spec fn spec_primaries(m: Entries) -> ColorPrimaries {
    ColorPrimaries::spec_from_code(
        match prop_int(m, key_primaries()) {
            Some(v) => v,
            None => 2,
        },
    )
}

/// What [Frame::matrix] reads from the given property entries: a missing or
/// unreadable value reads as 2.
pub open spec fn spec_matrix(m: Entries) -> MatrixCoefficients {
    MatrixCoefficients::spec_from_code(
        match prop_int(m, key_matrix()) {
            Some(v) => v,
            None => 2,
        },
    )
}

/// What [Frame::transfer] reads from the given property entries: a missing or
/// unreadable value reads as 0.
pub open spec fn spec_transfer(m: Entries) -> TransferCharacteristics {
    TransferCharacteristics::spec_from_code(
        match prop_int(m, key_transfer()) {
            Some(v) => v,
            None => 0,
        },
    )
}

/// What [Frame::field_based] reads from the given property entries.
pub open spec fn spec_field_based(m: Entries) -> Option<FieldBased> {
    match prop_int(m, key_field_based()) {
        Some(v) => FieldBased::spec_from_code(v),
        None => None,
    }
}

/// What [Frame::duration] reads from the given property entries.
pub open spec fn spec_duration(m: Entries) -> Option<(i64, i64)> {
    match (prop_int(m, key_duration_num()), prop_int(m, key_duration_den())) {
        (Some(a), Some(b)) => Some((a, b)),
        _ => None,
    }
}

/// What [Frame::combed] reads from the given property entries.
pub open spec fn spec_combed(m: Entries) -> Option<bool> {
    match prop_int(m, key_combed()) {
        Some(v) => Some(v != 0),
        None => None,
    }
}

/// What [Frame::field] reads from the given property entries.
pub open spec fn spec_field(m: Entries) -> Option<Field> {
    match prop_int(m, key_field()) {
        Some(v) => Field::spec_from_code(v),
        None => None,
    }
}

/// What [Frame::sample_aspect_ratio] reads from the given property entries.
pub open spec fn spec_sample_aspect_ratio(m: Entries) -> Option<(i64, i64)> {
    match (prop_int(m, key_sar_num()), prop_int(m, key_sar_den())) {
        (Some(a), Some(b)) => Some((a, b)),
        _ => None,
    }
}

/// What [Frame::scene_change_next] reads from the given property entries.
pub open spec fn spec_scene_change_next(m: Entries) -> Option<bool> {
    match prop_int(m, key_scene_change_next()) {
        Some(v) => Some(v != 0),
        None => None,
    }
}

/// What [Frame::scene_change_prev] reads from the given property entries.
pub open spec fn spec_scene_change_prev(m: Entries) -> Option<bool> {
    match prop_int(m, key_scene_change_prev()) {
        Some(v) => Some(v != 0),
        None => None,
    }
}

/// What [Frame::picture_type] reads from the given property entries: the
/// first data item under the key read as a C string, if there is one.
pub open spec fn spec_picture_type(m: Entries) -> Option<Seq<char>> {
    match spec_get_data(m, key_picture_type(), 0) {
        Ok(d) => Some(c_string_text(d.bytes)),
        Err(_) => None,
    }
}

impl Frame {
    /// Get chroma sample position in YUV formats
    pub fn chroma_location(&self) -> (r: Option<ChromaLocation>)
        requires
            self.wf(),
        ensures
            r == spec_chroma_location(self.props()),
    {
        match self.properties.get_int("_ChromaLocation") {
            Ok(v) => ChromaLocation::from_code(v),
            Err(_) => None,
        }
    }

    /// Get color range (full or limited)
    pub fn color_range(&self) -> (r: Option<ColorRange>)
        requires
            self.wf(),
        ensures
            r == spec_color_range(self.props()),
    {
        match self.properties.get_int("_ColorRange") {
            Ok(v) => ColorRange::from_code(v),
            Err(_) => None,
        }
    }

    /// Get color primaries as specified in ITU-T H.273 Table 2
    pub fn primaries(&self) -> (r: ColorPrimaries)
        requires
            self.wf(),
        ensures
            r == spec_primaries(self.props()),
    {
        let v = match self.properties.get_int("_Primaries") {
            Ok(v) => v,
            Err(_) => 2,
        };
        ColorPrimaries::from_i64(v)
    }

    /// Get matrix coefficients as specified in ITU-T H.273 Table 4
    pub fn matrix(&self) -> (r: MatrixCoefficients)
        requires
            self.wf(),
        ensures
            r == spec_matrix(self.props()),
    {
        let v = match self.properties.get_int("_Matrix") {
            Ok(v) => v,
            Err(_) => 2,
        };
        MatrixCoefficients::from_i64(v)
    }

    /// Get transfer characteristics as specified in ITU-T H.273 Table 3
    pub fn transfer(&self) -> (r: TransferCharacteristics)
        requires
            self.wf(),
        ensures
            r == spec_transfer(self.props()),
    {
        let v = match self.properties.get_int("_Transfer") {
            Ok(v) => v,
            Err(_) => 0,
        };
        TransferCharacteristics::from_i64(v)
    }

    /// Get field based information (interlaced)
    pub fn field_based(&self) -> (r: Option<FieldBased>)
        requires
            self.wf(),
        ensures
            r == spec_field_based(self.props()),
    {
        match self.properties.get_int("_FieldBased") {
            Ok(v) => FieldBased::from_code(v),
            Err(_) => None,
        }
    }

    /// Get frame duration as a rational number (numerator, denominator)
    pub fn duration(&self) -> (r: Option<(i64, i64)>)
        requires
            self.wf(),
        ensures
            r == spec_duration(self.props()),
    {
        let num = match self.properties.get_int("_DurationNum") {
            Ok(v) => v,
            Err(_) => return None,
        };
        let den = match self.properties.get_int("_DurationDen") {
            Ok(v) => v,
            Err(_) => return None,
        };
        Some((num, den))
    }

    /// Get whether the frame needs postprocessing
    pub fn combed(&self) -> (r: Option<bool>)
        requires
            self.wf(),
        ensures
            r == spec_combed(self.props()),
    {
        match self.properties.get_int("_Combed") {
            Ok(v) => Some(v != 0),
            Err(_) => None,
        }
    }

    /// Get which field was used to generate this frame
    pub fn field(&self) -> (r: Option<Field>)
        requires
            self.wf(),
        ensures
            r == spec_field(self.props()),
    {
        match self.properties.get_int("_Field") {
            Ok(v) => Field::from_code(v),
            Err(_) => None,
        }
    }

    /// Get pixel (sample) aspect ratio as a rational number (numerator, denominator)
    pub fn sample_aspect_ratio(&self) -> (r: Option<(i64, i64)>)
        requires
            self.wf(),
        ensures
            r == spec_sample_aspect_ratio(self.props()),
    {
        let num = match self.properties.get_int("_SARNum") {
            Ok(v) => v,
            Err(_) => return None,
        };
        let den = match self.properties.get_int("_SARDen") {
            Ok(v) => v,
            Err(_) => return None,
        };
        Some((num, den))
    }

    /// Get whether this frame is the last frame of the current scene
    pub fn scene_change_next(&self) -> (r: Option<bool>)
        requires
            self.wf(),
        ensures
            r == spec_scene_change_next(self.props()),
    {
        match self.properties.get_int("_SceneChangeNext") {
            Ok(v) => Some(v != 0),
            Err(_) => None,
        }
    }

    /// Get whether this frame starts a new scene
    pub fn scene_change_prev(&self) -> (r: Option<bool>)
        requires
            self.wf(),
        ensures
            r == spec_scene_change_prev(self.props()),
    {
        match self.properties.get_int("_SceneChangePrev") {
            Ok(v) => Some(v != 0),
            Err(_) => None,
        }
    }

    /// Get picture type (single character describing frame type)
    pub fn picture_type(&self) -> (r: Option<String>)
        requires
            self.wf(),
        ensures
            match spec_picture_type(self.props()) {
                Some(t) => r matches Some(s) && s@ == t,
                None => r is None,
            },
    {
        match self.properties.get_string("_PictType") {
            Ok(s) => Some(s),
            Err(_) => None,
        }
    }
}

} // verus!
verus! {

impl Frame {
    /// Set chroma sample position in YUV formats
    pub fn set_chroma_location(&mut self, location: ChromaLocation) -> (r: MapResult<()>)
        requires
            old(self).wf(),
        ensures
            r == Ok::<(), MapError>(()),
            final(self).wf(),
            final(self).spec_format() == old(self).spec_format(),
            final(self).spec_planes() == old(self).spec_planes(),
            final(self).props() == with_entry(
                old(self).props(),
                key_chroma_location(),
                Property::Ints(seq![location.spec_code()]),
            ),
    {
        proof {
            lemma_key_chroma_location_valid();
        }
        let _ = self.properties.set_int("_ChromaLocation", location.code());
        Ok(())
    }

    /// Set color range (full or limited)
    pub fn set_color_range(&mut self, range: ColorRange) -> (r: MapResult<()>)
        requires
            old(self).wf(),
        ensures
            r == Ok::<(), MapError>(()),
            final(self).wf(),
            final(self).spec_format() == old(self).spec_format(),
            final(self).spec_planes() == old(self).spec_planes(),
            final(self).props() == with_entry(
                old(self).props(),
                key_color_range(),
                Property::Ints(seq![range.spec_code()]),
            ),
    {
        proof {
            lemma_key_color_range_valid();
        }
        let _ = self.properties.set_int("_ColorRange", range.code());
        Ok(())
    }

    /// Set color primaries as specified in ITU-T H.273 Table 2
    pub fn set_primaries(&mut self, primaries: ColorPrimaries) -> (r: MapResult<()>)
        requires
            old(self).wf(),
        ensures
            r == Ok::<(), MapError>(()),
            final(self).wf(),
            final(self).spec_format() == old(self).spec_format(),
            final(self).spec_planes() == old(self).spec_planes(),
            final(self).props() == with_entry(
                old(self).props(),
                key_primaries(),
                Property::Ints(seq![primaries.spec_code()]),
            ),
    {
        proof {
            lemma_key_primaries_valid();
        }
        let _ = self.properties.set_int("_Primaries", primaries.code());
        Ok(())
    }

    /// Set matrix coefficients as specified in ITU-T H.273 Table 4
    pub fn set_matrix(&mut self, matrix: MatrixCoefficients) -> (r: MapResult<()>)
        requires
            old(self).wf(),
        ensures
            r == Ok::<(), MapError>(()),
            final(self).wf(),
            final(self).spec_format() == old(self).spec_format(),
            final(self).spec_planes() == old(self).spec_planes(),
            final(self).props() == with_entry(
                old(self).props(),
                key_matrix(),
                Property::Ints(seq![matrix.spec_code()]),
            ),
    {
        proof {
            lemma_key_matrix_valid();
        }
        let _ = self.properties.set_int("_Matrix", matrix.code());
        Ok(())
    }

    /// Set transfer characteristics as specified in ITU-T H.273 Table 3
    pub fn set_transfer(&mut self, transfer: TransferCharacteristics) -> (r: MapResult<()>)
        requires
            old(self).wf(),
        ensures
            r == Ok::<(), MapError>(()),
            final(self).wf(),
            final(self).spec_format() == old(self).spec_format(),
            final(self).spec_planes() == old(self).spec_planes(),
            final(self).props() == with_entry(
                old(self).props(),
                key_transfer(),
                Property::Ints(seq![transfer.spec_code()]),
            ),
    {
        proof {
            lemma_key_transfer_valid();
        }
        let _ = self.properties.set_int("_Transfer", transfer.code());
        Ok(())
    }

    /// Set field based information (interlaced)
    pub fn set_field_based(&mut self, field_based: FieldBased) -> (r: MapResult<()>)
        requires
            old(self).wf(),
        ensures
            r == Ok::<(), MapError>(()),
            final(self).wf(),
            final(self).spec_format() == old(self).spec_format(),
            final(self).spec_planes() == old(self).spec_planes(),
            final(self).props() == with_entry(
                old(self).props(),
                key_field_based(),
                Property::Ints(seq![field_based.spec_code()]),
            ),
    {
        proof {
            lemma_key_field_based_valid();
        }
        let _ = self.properties.set_int("_FieldBased", field_based.code());
        Ok(())
    }

    /// Set frame duration as a rational number (numerator, denominator)
    pub fn set_duration(&mut self, num: i64, den: i64) -> (r: MapResult<()>)
        requires
            old(self).wf(),
        ensures
            r == Ok::<(), MapError>(()),
            final(self).wf(),
            final(self).spec_format() == old(self).spec_format(),
            final(self).spec_planes() == old(self).spec_planes(),
            final(self).props() == with_entry(
                with_entry(old(self).props(), key_duration_num(), Property::Ints(seq![num])),
                key_duration_den(),
                Property::Ints(seq![den]),
            ),
    {
        proof {
            lemma_key_duration_num_valid();
            lemma_key_duration_den_valid();
        }
        let _ = self.properties.set_int("_DurationNum", num);
        let _ = self.properties.set_int("_DurationDen", den);
        Ok(())
    }

    /// Set whether the frame needs postprocessing
    pub fn set_combed(&mut self, combed: bool) -> (r: MapResult<()>)
        requires
            old(self).wf(),
        ensures
            r == Ok::<(), MapError>(()),
            final(self).wf(),
            final(self).spec_format() == old(self).spec_format(),
            final(self).spec_planes() == old(self).spec_planes(),
            final(self).props() == with_entry(
                old(self).props(),
                key_combed(),
                Property::Ints(seq![if combed { 1i64 } else { 0i64 }]),
            ),
    {
        proof {
            lemma_key_combed_valid();
        }
        let _ = self.properties.set_int("_Combed", if combed { 1 } else { 0 });
        Ok(())
    }

    /// Set which field was used to generate this frame
    pub fn set_field(&mut self, field: Field) -> (r: MapResult<()>)
        requires
            old(self).wf(),
        ensures
            r == Ok::<(), MapError>(()),
            final(self).wf(),
            final(self).spec_format() == old(self).spec_format(),
            final(self).spec_planes() == old(self).spec_planes(),
            final(self).props() == with_entry(
                old(self).props(),
                key_field(),
                Property::Ints(seq![field.spec_code()]),
            ),
    {
        proof {
            lemma_key_field_valid();
        }
        let _ = self.properties.set_int("_Field", field.code());
        Ok(())
    }

    /// Set pixel (sample) aspect ratio as a rational number (numerator, denominator)
    pub fn set_sample_aspect_ratio(&mut self, num: i64, den: i64) -> (r: MapResult<()>)
        requires
            old(self).wf(),
        ensures
            r == Ok::<(), MapError>(()),
            final(self).wf(),
            final(self).spec_format() == old(self).spec_format(),
            final(self).spec_planes() == old(self).spec_planes(),
            final(self).props() == with_entry(
                with_entry(old(self).props(), key_sar_num(), Property::Ints(seq![num])),
                key_sar_den(),
                Property::Ints(seq![den]),
            ),
    {
        proof {
            lemma_key_sar_num_valid();
            lemma_key_sar_den_valid();
        }
        let _ = self.properties.set_int("_SARNum", num);
        let _ = self.properties.set_int("_SARDen", den);
        Ok(())
    }

    /// Set whether this frame is the last frame of the current scene
    pub fn set_scene_change_next(&mut self, scene_change: bool) -> (r: MapResult<()>)
        requires
            old(self).wf(),
        ensures
            r == Ok::<(), MapError>(()),
            final(self).wf(),
            final(self).spec_format() == old(self).spec_format(),
            final(self).spec_planes() == old(self).spec_planes(),
            final(self).props() == with_entry(
                old(self).props(),
                key_scene_change_next(),
                Property::Ints(seq![if scene_change { 1i64 } else { 0i64 }]),
            ),
    {
        proof {
            lemma_key_scene_change_next_valid();
        }
        let _ = self.properties.set_int("_SceneChangeNext", if scene_change { 1 } else { 0 });
        Ok(())
    }

    /// Set whether this frame starts a new scene
    pub fn set_scene_change_prev(&mut self, scene_change: bool) -> (r: MapResult<()>)
        requires
            old(self).wf(),
        ensures
            r == Ok::<(), MapError>(()),
            final(self).wf(),
            final(self).spec_format() == old(self).spec_format(),
            final(self).spec_planes() == old(self).spec_planes(),
            final(self).props() == with_entry(
                old(self).props(),
                key_scene_change_prev(),
                Property::Ints(seq![if scene_change { 1i64 } else { 0i64 }]),
            ),
    {
        proof {
            lemma_key_scene_change_prev_valid();
        }
        let _ = self.properties.set_int("_SceneChangePrev", if scene_change { 1 } else { 0 });
        Ok(())
    }

    /// Set picture type (single character describing frame type)
    pub fn set_picture_type(&mut self, pic_type: &str) -> (r: MapResult<()>)
        requires
            old(self).wf(),
        ensures
            r == Ok::<(), MapError>(()),
            final(self).wf(),
            final(self).spec_format() == old(self).spec_format(),
            final(self).spec_planes() == old(self).spec_planes(),
            final(self).props() == with_entry(
                old(self).props(),
                key_picture_type(),
                Property::Datas(seq![DataItem { bytes: encode_utf8(pic_type@), hint: DataType::String }]),
            ),
    {
        proof {
            lemma_key_picture_type_valid();
        }
        let _ = self.properties.set_string("_PictType", pic_type);
        Ok(())
    }
}

} // verus!
verus! {

/// A frame's property entries have distinct keys.
pub proof fn lemma_frame_props_distinct(f: &Frame)
    requires
        f.wf(),
    ensures
        keys_distinct(f.props()),
{
}

/// Setting an integer property of a frame leaves every other key reading as
/// before.
pub proof fn lemma_set_property_keeps_others(f: &Frame, k: Seq<char>, x: i64, k2: Seq<char>)
    requires
        f.wf(),
        is_valid_key(k),
        k2 != k,
    ensures
        prop_int(with_entry(f.props(), k, Property::Ints(seq![x])), k2) == prop_int(f.props(), k2),
{
    lemma_get_int_after_set_int(f.props(), k, x, k2, 0);
}

/// After `set_chroma_location`, `chroma_location` reads back the value that was set.
pub proof fn lemma_chroma_location_after_set(f: &Frame, location: ChromaLocation)
    requires
        f.wf(),
    ensures
        spec_chroma_location(with_entry(f.props(), key_chroma_location(), Property::Ints(seq![location.spec_code()])))
            == Some(location),
{
    lemma_key_chroma_location_valid();
    lemma_get_int_after_set_int(f.props(), key_chroma_location(), location.spec_code(), key_chroma_location(), 0);
    lemma_chroma_location_code_roundtrip(location);
}

/// After `set_color_range`, `color_range` reads back the value that was set.
pub proof fn lemma_color_range_after_set(f: &Frame, range: ColorRange)
    requires
        f.wf(),
    ensures
        spec_color_range(with_entry(f.props(), key_color_range(), Property::Ints(seq![range.spec_code()])))
            == Some(range),
{
    lemma_key_color_range_valid();
    lemma_get_int_after_set_int(f.props(), key_color_range(), range.spec_code(), key_color_range(), 0);
    lemma_color_range_code_roundtrip(range);
}

/// After `set_field_based`, `field_based` reads back the value that was set.
pub proof fn lemma_field_based_after_set(f: &Frame, field_based: FieldBased)
    requires
        f.wf(),
    ensures
        spec_field_based(with_entry(f.props(), key_field_based(), Property::Ints(seq![field_based.spec_code()])))
            == Some(field_based),
{
    lemma_key_field_based_valid();
    lemma_get_int_after_set_int(f.props(), key_field_based(), field_based.spec_code(), key_field_based(), 0);
    lemma_field_based_code_roundtrip(field_based);
}

/// After `set_field`, `field` reads back the value that was set.
pub proof fn lemma_field_after_set(f: &Frame, field: Field)
    requires
        f.wf(),
    ensures
        spec_field(with_entry(f.props(), key_field(), Property::Ints(seq![field.spec_code()])))
            == Some(field),
{
    lemma_key_field_valid();
    lemma_get_int_after_set_int(f.props(), key_field(), field.spec_code(), key_field(), 0);
    lemma_field_code_roundtrip(field);
}

/// After `set_primaries`, `primaries` reads back the value that was set.
pub proof fn lemma_primaries_after_set(f: &Frame, primaries: ColorPrimaries)
    requires
        f.wf(),
    ensures
        spec_primaries(with_entry(f.props(), key_primaries(), Property::Ints(seq![primaries.spec_code()])))
            == primaries,
{
    lemma_key_primaries_valid();
    lemma_get_int_after_set_int(f.props(), key_primaries(), primaries.spec_code(), key_primaries(), 0);
    lemma_color_primaries_code_roundtrip(primaries);
}

/// After `set_matrix`, `matrix` reads back the value that was set.
pub proof fn lemma_matrix_after_set(f: &Frame, matrix: MatrixCoefficients)
    requires
        f.wf(),
    ensures
        spec_matrix(with_entry(f.props(), key_matrix(), Property::Ints(seq![matrix.spec_code()])))
            == matrix,
{
    lemma_key_matrix_valid();
    lemma_get_int_after_set_int(f.props(), key_matrix(), matrix.spec_code(), key_matrix(), 0);
    lemma_matrix_coefficients_code_roundtrip(matrix);
}

/// After `set_transfer`, `transfer` reads back the value that was set.
pub proof fn lemma_transfer_after_set(f: &Frame, transfer: TransferCharacteristics)
    requires
        f.wf(),
    ensures
        spec_transfer(with_entry(f.props(), key_transfer(), Property::Ints(seq![transfer.spec_code()])))
            == transfer,
{
    lemma_key_transfer_valid();
    lemma_get_int_after_set_int(f.props(), key_transfer(), transfer.spec_code(), key_transfer(), 0);
    lemma_transfer_characteristics_code_roundtrip(transfer);
}

/// After `set_combed`, `combed` reads back the flag that was set.
pub proof fn lemma_combed_after_set(f: &Frame, flag: bool)
    requires
        f.wf(),
    ensures
        spec_combed(
            with_entry(f.props(), key_combed(), Property::Ints(seq![if flag { 1i64 } else { 0i64 }])),
        ) == Some(flag),
{
    lemma_key_combed_valid();
    lemma_get_int_after_set_int(
        f.props(),
        key_combed(),
        if flag { 1i64 } else { 0i64 },
        key_combed(),
        0,
    );
}

/// After `set_scene_change_next`, `scene_change_next` reads back the flag that was set.
pub proof fn lemma_scene_change_next_after_set(f: &Frame, flag: bool)
    requires
        f.wf(),
    ensures
        spec_scene_change_next(
            with_entry(f.props(), key_scene_change_next(), Property::Ints(seq![if flag { 1i64 } else { 0i64 }])),
        ) == Some(flag),
{
    lemma_key_scene_change_next_valid();
    lemma_get_int_after_set_int(
        f.props(),
        key_scene_change_next(),
        if flag { 1i64 } else { 0i64 },
        key_scene_change_next(),
        0,
    );
}

/// After `set_scene_change_prev`, `scene_change_prev` reads back the flag that was set.
pub proof fn lemma_scene_change_prev_after_set(f: &Frame, flag: bool)
    requires
        f.wf(),
    ensures
        spec_scene_change_prev(
            with_entry(f.props(), key_scene_change_prev(), Property::Ints(seq![if flag { 1i64 } else { 0i64 }])),
        ) == Some(flag),
{
    lemma_key_scene_change_prev_valid();
    lemma_get_int_after_set_int(
        f.props(),
        key_scene_change_prev(),
        if flag { 1i64 } else { 0i64 },
        key_scene_change_prev(),
        0,
    );
}

/// After `set_duration`, `duration` reads back the pair that was set.
pub proof fn lemma_duration_after_set(f: &Frame, num: i64, den: i64)
    requires
        f.wf(),
    ensures
        spec_duration(
            with_entry(
                with_entry(f.props(), key_duration_num(), Property::Ints(seq![num])),
                key_duration_den(),
                Property::Ints(seq![den]),
            ),
        ) == Some((num, den)),
{
    let m1 = with_entry(f.props(), key_duration_num(), Property::Ints(seq![num]));
    lemma_key_duration_num_valid();
    lemma_key_duration_den_valid();
    reveal_strlit("_DurationNum");
    reveal_strlit("_DurationDen");
    assert(key_duration_num()[9] != key_duration_den()[9]);
    lemma_with_entry(f.props(), key_duration_num(), Property::Ints(seq![num]), key_duration_num());
    lemma_get_int_after_set_int(m1, key_duration_den(), den, key_duration_num(), 0);
}

/// After `set_sample_aspect_ratio`, `sample_aspect_ratio` reads back the pair that was set.
pub proof fn lemma_sample_aspect_ratio_after_set(f: &Frame, num: i64, den: i64)
    requires
        f.wf(),
    ensures
        spec_sample_aspect_ratio(
            with_entry(
                with_entry(f.props(), key_sar_num(), Property::Ints(seq![num])),
                key_sar_den(),
                Property::Ints(seq![den]),
            ),
        ) == Some((num, den)),
{
    let m1 = with_entry(f.props(), key_sar_num(), Property::Ints(seq![num]));
    lemma_key_sar_num_valid();
    lemma_key_sar_den_valid();
    reveal_strlit("_SARNum");
    reveal_strlit("_SARDen");
    assert(key_sar_num()[4] != key_sar_den()[4]);
    lemma_with_entry(f.props(), key_sar_num(), Property::Ints(seq![num]), key_sar_num());
    lemma_get_int_after_set_int(m1, key_sar_den(), den, key_sar_num(), 0);
}

/// After `set_picture_type` with a text without NUL, `picture_type` reads
/// back that text.
pub proof fn lemma_picture_type_after_set(f: &Frame, t: Seq<char>)
    requires
        f.wf(),
        !has_nul(t),
    ensures
        spec_picture_type(
            with_entry(
                f.props(),
                key_picture_type(),
                Property::Datas(seq![DataItem { bytes: encode_utf8(t), hint: DataType::String }]),
            ),
        ) == Some(t),
{
    lemma_key_picture_type_valid();
    lemma_get_string_after_set_string(f.props(), key_picture_type(), t);
}

} // verus!

verus! {

impl Frame {
    /// Creates a new video frame whose plane `i` is a copy of plane
    /// `planes[i]` of `planesrc[i]`, optionally copying the properties
    /// attached to another frame. Each source plane has the size of the plane
    /// it fills and samples of the new frame's size.
    pub fn new_video_frame_from_existing_planes(
        width: i32,
        height: i32,
        format: VideoFormat,
        planesrc: &[&Frame],
        planes: &[i32],
        propsrc: Option<&Frame>,
    ) -> (r: Frame)
        requires
            Self::valid_new_frame(width, height, format),
            planesrc@.len() == format.num_planes,
            planes@.len() == format.num_planes,
            forall|i: int|
                0 <= i < planesrc@.len() ==> {
                    let f = #[trigger] planesrc@[i];
                    &&& f.wf()
                    &&& 0 <= planes@[i] < f.spec_planes().len()
                    &&& f.spec_format().bytes_per_sample == format.bytes_per_sample
                    &&& f.spec_planes()[planes@[i] as int].width == plane_width(width, format, i)
                    &&& f.spec_planes()[planes@[i] as int].height == plane_height(height, format, i)
                },
            propsrc matches Some(f) ==> f.wf(),
        ensures
            r.wf(),
            r.spec_format() == format,
            r.spec_planes().len() == format.num_planes,
            match propsrc {
                Some(f) => r.props() == f.props(),
                None => r.props() == Seq::<(Seq<char>, Property)>::empty(),
            },
            forall|i: int|
                0 <= i < r.spec_planes().len() ==> {
                    let p = #[trigger] r.spec_planes()[i];
                    let s = planesrc@[i].spec_planes()[planes@[i] as int];
                    &&& p.width == plane_width(width, format, i)
                    &&& p.height == plane_height(height, format, i)
                    &&& p.stride >= p.width * format.bytes_per_sample
                    &&& forall|y: int, x: int|
                        0 <= y < p.height && 0 <= x < p.width * format.bytes_per_sample
                            ==> #[trigger] p.data@[y * p.stride + x] == s.data@[y * s.stride + x]
                },
    {
        let mut f = Frame::new_video_frame(width, height, &format, propsrc);
        proof {
            f.lemma_wf_facts();
        }
        let bps = format.bytes_per_sample as usize;
        let mut i: usize = 0;
        while i < planesrc.len()
            invariant
                Self::valid_new_frame(width, height, format),
                planesrc@.len() == format.num_planes,
                planes@.len() == format.num_planes,
                forall|k: int|
                    0 <= k < planesrc@.len() ==> {
                        let g = #[trigger] planesrc@[k];
                        &&& g.wf()
                        &&& 0 <= planes@[k] < g.spec_planes().len()
                        &&& g.spec_format().bytes_per_sample == format.bytes_per_sample
                        &&& g.spec_planes()[planes@[k] as int].width == plane_width(width, format, k)
                        &&& g.spec_planes()[planes@[k] as int].height == plane_height(height, format, k)
                    },
                bps == format.bytes_per_sample,
                0 <= i <= planesrc@.len(),
                f.wf(),
                f.spec_format() == format,
                f.spec_planes().len() == format.num_planes,
                match propsrc {
                    Some(g) => f.props() == g.props(),
                    None => f.props() == Seq::<(Seq<char>, Property)>::empty(),
                },
                forall|k: int|
                    0 <= k < f.spec_planes().len() ==> {
                        let p = #[trigger] f.spec_planes()[k];
                        let s = planesrc@[k].spec_planes()[planes@[k] as int];
                        &&& p.width == plane_width(width, format, k)
                        &&& p.height == plane_height(height, format, k)
                        &&& p.stride >= p.width * format.bytes_per_sample
                        &&& k < i ==> forall|y: int, x: int|
                            0 <= y < p.height && 0 <= x < p.width * format.bytes_per_sample
                                ==> #[trigger] p.data@[y * p.stride + x] == s.data@[y * s.stride + x]
                    },
            decreases planesrc@.len() - i,
        {
            let src = planesrc[i];
            proof {
                src.lemma_wf_facts();
                f.lemma_wf_facts();
            }
            let plane = planes[i];
            let srcp = src.get_read_slice(plane);
            let src_stride = src.get_stride(plane);
            let h = src.get_height(plane) as usize;
            let row = (src.get_width(plane) as usize) * bps;
            let dst_stride = f.get_stride(i as i32);
            let ghost before = f;
            let ghost s = src.spec_planes()[plane as int];
            proof {
                assert(s.wf(bps as int));
                assert(f.spec_planes()[i as int].wf(bps as int));
                assert(h * src_stride == src_stride * h) by (nonlinear_arith);
                assert(h * dst_stride == dst_stride * h) by (nonlinear_arith);
                assert(h > 0 ==> (h - 1) * dst_stride + dst_stride == h * dst_stride) by (nonlinear_arith);
                assert(h > 0 ==> (h - 1) * src_stride + src_stride == h * src_stride) by (nonlinear_arith);
            }
            let dstp = f.get_write_slice(i as i32);
            crate::helpers::bitblt(dstp, dst_stride, srcp, src_stride, row, h);
            proof {
                let p = f.spec_planes()[i as int];
                assert forall|y: int, x: int|
                    0 <= y < p.height && 0 <= x < p.width * format.bytes_per_sample implies #[trigger] p.data@[y * p.stride
                        + x] == s.data@[y * s.stride + x] by {
                    crate::helpers::lemma_row_index(y, x, p.stride as int, p.height as int);
                }
                assert forall|k: int|
                    0 <= k < f.spec_planes().len() implies {
                        let p = #[trigger] f.spec_planes()[k];
                        let s = planesrc@[k].spec_planes()[planes@[k] as int];
                        &&& p.width == plane_width(width, format, k)
                        &&& p.height == plane_height(height, format, k)
                        &&& p.stride >= p.width * format.bytes_per_sample
                        &&& k < i + 1 ==> forall|y: int, x: int|
                            0 <= y < p.height && 0 <= x < p.width * format.bytes_per_sample
                                ==> #[trigger] p.data@[y * p.stride + x] == s.data@[y * s.stride + x]
                    } by {
                    if k != i {
                        assert(f.spec_planes()[k] == before.spec_planes()[k]);
                    }
                }
            }
            i = i + 1;
        }
        f
    }
}

} // verus!

verus! {

/// The numbers of the `_ChromaLocation` property values are VapourSynth's (Left 0, Center 1, TopLeft 2, Top 3, BottomLeft 4, Bottom 5),
/// and a number reads back as the value it stands for; other numbers stand for none.
pub proof fn lemma_chroma_location_numbers(v: i64)
    ensures
        ChromaLocation::Left.spec_code() == 0,
        ChromaLocation::Center.spec_code() == 1,
        ChromaLocation::TopLeft.spec_code() == 2,
        ChromaLocation::Top.spec_code() == 3,
        ChromaLocation::BottomLeft.spec_code() == 4,
        ChromaLocation::Bottom.spec_code() == 5,
        ChromaLocation::spec_from_code(v) matches Some(c) ==> c.spec_code() == v,
        (v == 0 || v == 1 || v == 2 || v == 3 || v == 4 || v == 5) ==> ChromaLocation::spec_from_code(v) is Some,
{
}

/// The numbers of the `_ColorRange` property values are VapourSynth's (Full 0, Limited 1),
/// and a number reads back as the value it stands for; other numbers stand for none.
pub proof fn lemma_color_range_numbers(v: i64)
    ensures
        ColorRange::Full.spec_code() == 0,
        ColorRange::Limited.spec_code() == 1,
        ColorRange::spec_from_code(v) matches Some(c) ==> c.spec_code() == v,
        (v == 0 || v == 1) ==> ColorRange::spec_from_code(v) is Some,
{
}

/// The numbers of the `_FieldBased` property values are VapourSynth's (Progressive 0, BottomFieldFirst 1, TopFieldFirst 2),
/// and a number reads back as the value it stands for; other numbers stand for none.
pub proof fn lemma_field_based_numbers(v: i64)
    ensures
        FieldBased::Progressive.spec_code() == 0,
        FieldBased::BottomFieldFirst.spec_code() == 1,
        FieldBased::TopFieldFirst.spec_code() == 2,
        FieldBased::spec_from_code(v) matches Some(c) ==> c.spec_code() == v,
        (v == 0 || v == 1 || v == 2) ==> FieldBased::spec_from_code(v) is Some,
{
}

/// The numbers of the `_Field` property values are VapourSynth's (Bottom 0, Top 1),
/// and a number reads back as the value it stands for; other numbers stand for none.
pub proof fn lemma_field_numbers(v: i64)
    ensures
        Field::Bottom.spec_code() == 0,
        Field::Top.spec_code() == 1,
        Field::spec_from_code(v) matches Some(c) ==> c.spec_code() == v,
        (v == 0 || v == 1) ==> Field::spec_from_code(v) is Some,
{
}

/// The numbers of the `_Primaries` property values are VapourSynth's (BT709 1, UNSPECIFIED 2, Bt470M 4, Bt470Bg 5, St170M 6, St240M 7, FILM 8, BT2020 9, ST428 10, ST431_2 11, ST432_1 12, Ebu3213E 22),
/// and a number reads back as the value it stands for; other numbers read as `UNSPECIFIED`.
pub proof fn lemma_color_primaries_numbers(v: i64)
    ensures
        ColorPrimaries::BT709.spec_code() == 1,
        ColorPrimaries::UNSPECIFIED.spec_code() == 2,
        ColorPrimaries::Bt470M.spec_code() == 4,
        ColorPrimaries::Bt470Bg.spec_code() == 5,
        ColorPrimaries::St170M.spec_code() == 6,
        ColorPrimaries::St240M.spec_code() == 7,
        ColorPrimaries::FILM.spec_code() == 8,
        ColorPrimaries::BT2020.spec_code() == 9,
        ColorPrimaries::ST428.spec_code() == 10,
        ColorPrimaries::ST431_2.spec_code() == 11,
        ColorPrimaries::ST432_1.spec_code() == 12,
        ColorPrimaries::Ebu3213E.spec_code() == 22,
        (v == 1 || v == 2 || v == 4 || v == 5 || v == 6 || v == 7 || v == 8 || v == 9 || v == 10 || v == 11 || v == 12 || v == 22) ==> ColorPrimaries::spec_from_code(v).spec_code() == v,
        !(v == 1 || v == 2 || v == 4 || v == 5 || v == 6 || v == 7 || v == 8 || v == 9 || v == 10 || v == 11 || v == 12 || v == 22) ==> ColorPrimaries::spec_from_code(v) == ColorPrimaries::UNSPECIFIED,
{
}

/// The numbers of the `_Matrix` property values are VapourSynth's (RGB 0, BT709 1, UNSPECIFIED 2, FCC 4, Bt470Bg 5, St170M 6, St240M 7, YCGCO 8, Bt2020Ncl 9, Bt2020Cl 10, ChromaticityDerivedNcl 12, ChromaticityDerivedCl 13, ICTCP 14),
/// and a number reads back as the value it stands for; other numbers read as `UNSPECIFIED`.
pub proof fn lemma_matrix_coefficients_numbers(v: i64)
    ensures
        MatrixCoefficients::RGB.spec_code() == 0,
        MatrixCoefficients::BT709.spec_code() == 1,
        MatrixCoefficients::UNSPECIFIED.spec_code() == 2,
        MatrixCoefficients::FCC.spec_code() == 4,
        MatrixCoefficients::Bt470Bg.spec_code() == 5,
        MatrixCoefficients::St170M.spec_code() == 6,
        MatrixCoefficients::St240M.spec_code() == 7,
        MatrixCoefficients::YCGCO.spec_code() == 8,
        MatrixCoefficients::Bt2020Ncl.spec_code() == 9,
        MatrixCoefficients::Bt2020Cl.spec_code() == 10,
        MatrixCoefficients::ChromaticityDerivedNcl.spec_code() == 12,
        MatrixCoefficients::ChromaticityDerivedCl.spec_code() == 13,
        MatrixCoefficients::ICTCP.spec_code() == 14,
        (v == 0 || v == 1 || v == 2 || v == 4 || v == 5 || v == 6 || v == 7 || v == 8 || v == 9 || v == 10 || v == 12 || v == 13 || v == 14) ==> MatrixCoefficients::spec_from_code(v).spec_code() == v,
        !(v == 0 || v == 1 || v == 2 || v == 4 || v == 5 || v == 6 || v == 7 || v == 8 || v == 9 || v == 10 || v == 12 || v == 13 || v == 14) ==> MatrixCoefficients::spec_from_code(v) == MatrixCoefficients::UNSPECIFIED,
{
}

/// The numbers of the `_Transfer` property values are VapourSynth's (BT709 1, UNSPECIFIED 2, Bt470M 4, Bt470Bg 5, BT601 6, St240M 7, LINEAR 8, Log100 9, Log316 10, Iec61966_2_4 11, Iec61966_2_1 13, BT2020_10 14, BT2020_12 15, ST2084 16, ST428 17, AribB67 18),
/// and a number reads back as the value it stands for; other numbers read as `UNSPECIFIED`.
pub proof fn lemma_transfer_characteristics_numbers(v: i64)
    ensures
        TransferCharacteristics::BT709.spec_code() == 1,
        TransferCharacteristics::UNSPECIFIED.spec_code() == 2,
        TransferCharacteristics::Bt470M.spec_code() == 4,
        TransferCharacteristics::Bt470Bg.spec_code() == 5,
        TransferCharacteristics::BT601.spec_code() == 6,
        TransferCharacteristics::St240M.spec_code() == 7,
        TransferCharacteristics::LINEAR.spec_code() == 8,
        TransferCharacteristics::Log100.spec_code() == 9,
        TransferCharacteristics::Log316.spec_code() == 10,
        TransferCharacteristics::Iec61966_2_4.spec_code() == 11,
        TransferCharacteristics::Iec61966_2_1.spec_code() == 13,
        TransferCharacteristics::BT2020_10.spec_code() == 14,
        TransferCharacteristics::BT2020_12.spec_code() == 15,
        TransferCharacteristics::ST2084.spec_code() == 16,
        TransferCharacteristics::ST428.spec_code() == 17,
        TransferCharacteristics::AribB67.spec_code() == 18,
        (v == 1 || v == 2 || v == 4 || v == 5 || v == 6 || v == 7 || v == 8 || v == 9 || v == 10 || v == 11 || v == 13 || v == 14 || v == 15 || v == 16 || v == 17 || v == 18) ==> TransferCharacteristics::spec_from_code(v).spec_code() == v,
        !(v == 1 || v == 2 || v == 4 || v == 5 || v == 6 || v == 7 || v == 8 || v == 9 || v == 10 || v == 11 || v == 13 || v == 14 || v == 15 || v == 16 || v == 17 || v == 18) ==> TransferCharacteristics::spec_from_code(v) == TransferCharacteristics::UNSPECIFIED,
{
}

} // verus!

verus! {

/// The standard frame properties are stored under VapourSynth's reserved
/// names, each an underscore and the property's name.
pub proof fn lemma_property_key_names()
    ensures
        key_chroma_location() == "_ChromaLocation"@,
        key_color_range() == "_ColorRange"@,
        key_primaries() == "_Primaries"@,
        key_matrix() == "_Matrix"@,
        key_transfer() == "_Transfer"@,
        key_field_based() == "_FieldBased"@,
        key_duration_num() == "_DurationNum"@,
        key_duration_den() == "_DurationDen"@,
        key_combed() == "_Combed"@,
        key_field() == "_Field"@,
        key_picture_type() == "_PictType"@,
        key_sar_num() == "_SARNum"@,
        key_sar_den() == "_SARDen"@,
        key_scene_change_next() == "_SceneChangeNext"@,
        key_scene_change_prev() == "_SceneChangePrev"@,
{
}

} // verus!
