//! The catalog of the tags that a directory entry can carry.

use vstd::prelude::*;

verus! {

/// The name of a directory entry. Every tag of the catalog has a variant of
/// its own; any other code is carried by `Unknown`.
#[derive(Clone, Copy, PartialEq, Eq, Debug, Hash, Structural)]
pub enum Tag {
    /// Code 254.
    NewSubfileType,
    /// Code 255.
    SubfileType,
    /// Code 256.
    ImageWidth,
    /// Code 257.
    ImageLength,
    /// Code 258.
    BitsPerSample,
    /// Code 259.
    Compression,
    /// Code 262.
    PhotometricInterpretation,
    /// Code 263.
    Threshholding,
    /// Code 264.
    CellWidth,
    /// Code 265.
    CellLength,
    /// Code 266.
    FillOrder,
    /// Code 269.
    DocumentName,
    /// Code 270.
    ImageDescription,
    /// Code 271.
    Make,
    /// Code 272.
    Model,
    /// Code 273.
    StripOffsets,
    /// Code 274.
    Orientation,
    /// Code 277.
    SamplesPerPixel,
    /// Code 278.
    RowsPerStrip,
    /// Code 279.
    StripByteCounts,
    /// Code 280.
    MinSampleValue,
    /// Code 281.
    MaxSampleValue,
    /// Code 282.
    XResolution,
    /// Code 283.
    YResolution,
    /// Code 284.
    PlanarConfiguration,
    /// Code 285.
    PageName,
    /// Code 286.
    XPosition,
    /// Code 287.
    YPosition,
    /// Code 288.
    FreeOffsets,
    /// Code 289.
    FreeByteCounts,
    /// Code 290.
    GrayResponseUnit,
    /// Code 291.
    GrayResponseCurve,
    /// Code 292.
    T4Options,
    /// Code 293.
    T6Options,
    /// Code 296.
    ResolutionUnit,
    /// Code 297.
    PageNumber,
    /// Code 301.
    TransferFunction,
    /// Code 305.
    Software,
    /// Code 306.
    DateTime,
    /// Code 315.
    Artist,
    /// Code 316.
    HostComputer,
    /// Code 317.
    Predictor,
    /// Code 318.
    WhitePoint,
    /// Code 319.
    PrimaryChromaticities,
    /// Code 320.
    ColorMap,
    /// Code 321.
    HalftoneHints,
    /// Code 322.
    TileWidth,
    /// Code 323.
    TileLength,
    /// Code 324.
    TileOffsets,
    /// Code 325.
    TileByteCounts,
    /// Code 332.
    InkSet,
    /// Code 333.
    InkNames,
    /// Code 334.
    NumberOfInks,
    /// Code 336.
    DotRange,
    /// Code 337.
    TargetPrinter,
    /// Code 338.
    ExtraSamples,
    /// Code 339.
    SampleFormat,
    /// Code 340.
    SMinSampleValue,
    /// Code 341.
    SMaxSampleValue,
    /// Code 342.
    TransferRange,
    /// Code 512.
    JPEGProc,
    /// Code 513.
    JPEGInterchangeFormat,
    /// Code 514.
    JPEGInterchangeFormatLngth,
    /// Code 515.
    JPEGRestartInterval,
    /// Code 517.
    JPEGLosslessPredictors,
    /// Code 518.
    JPEGPointTransforms,
    /// Code 519.
    JPEGQTables,
    /// Code 520.
    JPEGDCTables,
    /// Code 521.
    JPEGACTables,
    /// Code 529.
    YCbCrCoefficients,
    /// Code 530.
    YCbCrSubSampling,
    /// Code 531.
    YCbCrPositioning,
    /// Code 532.
    ReferenceBlackWhite,
    /// Code 33432.
    Copyright,
    /// A code that the catalog does not name.
    Unknown(u16),
}

impl Tag {
    /// The tag that a numeric code stands for.
    pub open spec fn from_code(code: u16) -> Tag {
        if code == 254 {
            Tag::NewSubfileType
        } else if code == 255 {
            Tag::SubfileType
        } else if code == 256 {
            Tag::ImageWidth
        } else if code == 257 {
            Tag::ImageLength
        } else if code == 258 {
            Tag::BitsPerSample
        } else if code == 259 {
            Tag::Compression
        } else if code == 262 {
            Tag::PhotometricInterpretation
        } else if code == 263 {
            Tag::Threshholding
        } else if code == 264 {
            Tag::CellWidth
        } else if code == 265 {
            Tag::CellLength
        } else if code == 266 {
            Tag::FillOrder
        } else if code == 269 {
            Tag::DocumentName
        } else if code == 270 {
            Tag::ImageDescription
        } else if code == 271 {
            Tag::Make
        } else if code == 272 {
            Tag::Model
        } else if code == 273 {
            Tag::StripOffsets
        } else if code == 274 {
            Tag::Orientation
        } else if code == 277 {
            Tag::SamplesPerPixel
        } else if code == 278 {
            Tag::RowsPerStrip
        } else if code == 279 {
            Tag::StripByteCounts
        } else if code == 280 {
            Tag::MinSampleValue
        } else if code == 281 {
            Tag::MaxSampleValue
        } else if code == 282 {
            Tag::XResolution
        } else if code == 283 {
            Tag::YResolution
        } else if code == 284 {
            Tag::PlanarConfiguration
        } else if code == 285 {
            Tag::PageName
        } else if code == 286 {
            Tag::XPosition
        } else if code == 287 {
            Tag::YPosition
        } else if code == 288 {
            Tag::FreeOffsets
        } else if code == 289 {
            Tag::FreeByteCounts
        } else if code == 290 {
            Tag::GrayResponseUnit
        } else if code == 291 {
            Tag::GrayResponseCurve
        } else if code == 292 {
            Tag::T4Options
        } else if code == 293 {
            Tag::T6Options
        } else if code == 296 {
            Tag::ResolutionUnit
        } else if code == 297 {
            Tag::PageNumber
        } else if code == 301 {
            Tag::TransferFunction
        } else if code == 305 {
            Tag::Software
        } else if code == 306 {
            Tag::DateTime
        } else if code == 315 {
            Tag::Artist
        } else if code == 316 {
            Tag::HostComputer
        } else if code == 317 {
            Tag::Predictor
        } else if code == 318 {
            Tag::WhitePoint
        } else if code == 319 {
            Tag::PrimaryChromaticities
        } else if code == 320 {
            Tag::ColorMap
        } else if code == 321 {
            Tag::HalftoneHints
        } else if code == 322 {
            Tag::TileWidth
        } else if code == 323 {
            Tag::TileLength
        } else if code == 324 {
            Tag::TileOffsets
        } else if code == 325 {
            Tag::TileByteCounts
        } else if code == 332 {
            Tag::InkSet
        } else if code == 333 {
            Tag::InkNames
        } else if code == 334 {
            Tag::NumberOfInks
        } else if code == 336 {
            Tag::DotRange
        } else if code == 337 {
            Tag::TargetPrinter
        } else if code == 338 {
            Tag::ExtraSamples
        } else if code == 339 {
            Tag::SampleFormat
        } else if code == 340 {
            Tag::SMinSampleValue
        } else if code == 341 {
            Tag::SMaxSampleValue
        } else if code == 342 {
            Tag::TransferRange
        } else if code == 512 {
            Tag::JPEGProc
        } else if code == 513 {
            Tag::JPEGInterchangeFormat
        } else if code == 514 {
            Tag::JPEGInterchangeFormatLngth
        } else if code == 515 {
            Tag::JPEGRestartInterval
        } else if code == 517 {
            Tag::JPEGLosslessPredictors
        } else if code == 518 {
            Tag::JPEGPointTransforms
        } else if code == 519 {
            Tag::JPEGQTables
        } else if code == 520 {
            Tag::JPEGDCTables
        } else if code == 521 {
            Tag::JPEGACTables
        } else if code == 529 {
            Tag::YCbCrCoefficients
        } else if code == 530 {
            Tag::YCbCrSubSampling
        } else if code == 531 {
            Tag::YCbCrPositioning
        } else if code == 532 {
            Tag::ReferenceBlackWhite
        } else if code == 33432 {
            Tag::Copyright
        } else {
            Tag::Unknown(code)
        }
    }

    /// The numeric code of the tag: the code that the format assigns to a
    /// tag of the catalog, the carried code for `Unknown`.
    pub open spec fn spec_code(self) -> u16 {
        match self {
            Tag::NewSubfileType => 254,
            Tag::SubfileType => 255,
            Tag::ImageWidth => 256,
            Tag::ImageLength => 257,
            Tag::BitsPerSample => 258,
            Tag::Compression => 259,
            Tag::PhotometricInterpretation => 262,
            Tag::Threshholding => 263,
            Tag::CellWidth => 264,
            Tag::CellLength => 265,
            Tag::FillOrder => 266,
            Tag::DocumentName => 269,
            Tag::ImageDescription => 270,
            Tag::Make => 271,
            Tag::Model => 272,
            Tag::StripOffsets => 273,
            Tag::Orientation => 274,
            Tag::SamplesPerPixel => 277,
            Tag::RowsPerStrip => 278,
            Tag::StripByteCounts => 279,
            Tag::MinSampleValue => 280,
            Tag::MaxSampleValue => 281,
            Tag::XResolution => 282,
            Tag::YResolution => 283,
            Tag::PlanarConfiguration => 284,
            Tag::PageName => 285,
            Tag::XPosition => 286,
            Tag::YPosition => 287,
            Tag::FreeOffsets => 288,
            Tag::FreeByteCounts => 289,
            Tag::GrayResponseUnit => 290,
            Tag::GrayResponseCurve => 291,
            Tag::T4Options => 292,
            Tag::T6Options => 293,
            Tag::ResolutionUnit => 296,
            Tag::PageNumber => 297,
            Tag::TransferFunction => 301,
            Tag::Software => 305,
            Tag::DateTime => 306,
            Tag::Artist => 315,
            Tag::HostComputer => 316,
            Tag::Predictor => 317,
            Tag::WhitePoint => 318,
            Tag::PrimaryChromaticities => 319,
            Tag::ColorMap => 320,
            Tag::HalftoneHints => 321,
            Tag::TileWidth => 322,
            Tag::TileLength => 323,
            Tag::TileOffsets => 324,
            Tag::TileByteCounts => 325,
            Tag::InkSet => 332,
            Tag::InkNames => 333,
            Tag::NumberOfInks => 334,
            Tag::DotRange => 336,
            Tag::TargetPrinter => 337,
            Tag::ExtraSamples => 338,
            Tag::SampleFormat => 339,
            Tag::SMinSampleValue => 340,
            Tag::SMaxSampleValue => 341,
            Tag::TransferRange => 342,
            Tag::JPEGProc => 512,
            Tag::JPEGInterchangeFormat => 513,
            Tag::JPEGInterchangeFormatLngth => 514,
            Tag::JPEGRestartInterval => 515,
            Tag::JPEGLosslessPredictors => 517,
            Tag::JPEGPointTransforms => 518,
            Tag::JPEGQTables => 519,
            Tag::JPEGDCTables => 520,
            Tag::JPEGACTables => 521,
            Tag::YCbCrCoefficients => 529,
            Tag::YCbCrSubSampling => 530,
            Tag::YCbCrPositioning => 531,
            Tag::ReferenceBlackWhite => 532,
            Tag::Copyright => 33432,
            Tag::Unknown(code) => code,
        }
    }

    /// Whether the catalog names the code.
    pub open spec fn in_catalog(code: u16) -> bool {
        !(Tag::from_code(code) is Unknown)
    }

    /// Whether the tag is the one that looking its code up gives: a tag of
    /// the catalog, or `Unknown` with a code that the catalog does not name.
    pub open spec fn is_canonical(self) -> bool {
        self matches Tag::Unknown(code) ==> !Tag::in_catalog(code)
    }

    /// Looks a numeric tag code up. A code of the catalog gives its tag;
    /// any other code `n` gives `Unknown(n)`.
    pub fn from_u16(n: u16) -> (tag: Tag)
        ensures
            tag == Tag::from_code(n),
            tag.spec_code() == n,
            tag.is_canonical(),
    {
        if n == 254 {
            Tag::NewSubfileType
        } else if n == 255 {
            Tag::SubfileType
        } else if n == 256 {
            Tag::ImageWidth
        } else if n == 257 {
            Tag::ImageLength
        } else if n == 258 {
            Tag::BitsPerSample
        } else if n == 259 {
            Tag::Compression
        } else if n == 262 {
            Tag::PhotometricInterpretation
        } else if n == 263 {
            Tag::Threshholding
        } else if n == 264 {
            Tag::CellWidth
        } else if n == 265 {
            Tag::CellLength
        } else if n == 266 {
            Tag::FillOrder
        } else if n == 269 {
            Tag::DocumentName
        } else if n == 270 {
            Tag::ImageDescription
        } else if n == 271 {
            Tag::Make
        } else if n == 272 {
            Tag::Model
        } else if n == 273 {
            Tag::StripOffsets
        } else if n == 274 {
            Tag::Orientation
        } else if n == 277 {
            Tag::SamplesPerPixel
        } else if n == 278 {
            Tag::RowsPerStrip
        } else if n == 279 {
            Tag::StripByteCounts
        } else if n == 280 {
            Tag::MinSampleValue
        } else if n == 281 {
            Tag::MaxSampleValue
        } else if n == 282 {
            Tag::XResolution
        } else if n == 283 {
            Tag::YResolution
        } else if n == 284 {
            Tag::PlanarConfiguration
        } else if n == 285 {
            Tag::PageName
        } else if n == 286 {
            Tag::XPosition
        } else if n == 287 {
            Tag::YPosition
        } else if n == 288 {
            Tag::FreeOffsets
        } else if n == 289 {
            Tag::FreeByteCounts
        } else if n == 290 {
            Tag::GrayResponseUnit
        } else if n == 291 {
            Tag::GrayResponseCurve
        } else if n == 292 {
            Tag::T4Options
        } else if n == 293 {
            Tag::T6Options
        } else if n == 296 {
            Tag::ResolutionUnit
        } else if n == 297 {
            Tag::PageNumber
        } else if n == 301 {
            Tag::TransferFunction
        } else if n == 305 {
            Tag::Software
        } else if n == 306 {
            Tag::DateTime
        } else if n == 315 {
            Tag::Artist
        } else if n == 316 {
            Tag::HostComputer
        } else if n == 317 {
            Tag::Predictor
        } else if n == 318 {
            Tag::WhitePoint
        } else if n == 319 {
            Tag::PrimaryChromaticities
        } else if n == 320 {
            Tag::ColorMap
        } else if n == 321 {
            Tag::HalftoneHints
        } else if n == 322 {
            Tag::TileWidth
        } else if n == 323 {
            Tag::TileLength
        } else if n == 324 {
            Tag::TileOffsets
        } else if n == 325 {
            Tag::TileByteCounts
        } else if n == 332 {
            Tag::InkSet
        } else if n == 333 {
            Tag::InkNames
        } else if n == 334 {
            Tag::NumberOfInks
        } else if n == 336 {
            Tag::DotRange
        } else if n == 337 {
            Tag::TargetPrinter
        } else if n == 338 {
            Tag::ExtraSamples
        } else if n == 339 {
            Tag::SampleFormat
        } else if n == 340 {
            Tag::SMinSampleValue
        } else if n == 341 {
            Tag::SMaxSampleValue
        } else if n == 342 {
            Tag::TransferRange
        } else if n == 512 {
            Tag::JPEGProc
        } else if n == 513 {
            Tag::JPEGInterchangeFormat
        } else if n == 514 {
            Tag::JPEGInterchangeFormatLngth
        } else if n == 515 {
            Tag::JPEGRestartInterval
        } else if n == 517 {
            Tag::JPEGLosslessPredictors
        } else if n == 518 {
            Tag::JPEGPointTransforms
        } else if n == 519 {
            Tag::JPEGQTables
        } else if n == 520 {
            Tag::JPEGDCTables
        } else if n == 521 {
            Tag::JPEGACTables
        } else if n == 529 {
            Tag::YCbCrCoefficients
        } else if n == 530 {
            Tag::YCbCrSubSampling
        } else if n == 531 {
            Tag::YCbCrPositioning
        } else if n == 532 {
            Tag::ReferenceBlackWhite
        } else if n == 33432 {
            Tag::Copyright
        } else {
            Tag::Unknown(n)
        }
    }

    /// The numeric code of the tag.
    #[verifier::when_used_as_spec(spec_code)]
    pub fn code(self) -> (c: u16)
        ensures
            c == self.spec_code(),
            self.is_canonical() ==> Tag::from_code(c) == self,
    {
        match self {
            Tag::NewSubfileType => 254,
            Tag::SubfileType => 255,
            Tag::ImageWidth => 256,
            Tag::ImageLength => 257,
            Tag::BitsPerSample => 258,
            Tag::Compression => 259,
            Tag::PhotometricInterpretation => 262,
            Tag::Threshholding => 263,
            Tag::CellWidth => 264,
            Tag::CellLength => 265,
            Tag::FillOrder => 266,
            Tag::DocumentName => 269,
            Tag::ImageDescription => 270,
            Tag::Make => 271,
            Tag::Model => 272,
            Tag::StripOffsets => 273,
            Tag::Orientation => 274,
            Tag::SamplesPerPixel => 277,
            Tag::RowsPerStrip => 278,
            Tag::StripByteCounts => 279,
            Tag::MinSampleValue => 280,
            Tag::MaxSampleValue => 281,
            Tag::XResolution => 282,
            Tag::YResolution => 283,
            Tag::PlanarConfiguration => 284,
            Tag::PageName => 285,
            Tag::XPosition => 286,
            Tag::YPosition => 287,
            Tag::FreeOffsets => 288,
            Tag::FreeByteCounts => 289,
            Tag::GrayResponseUnit => 290,
            Tag::GrayResponseCurve => 291,
            Tag::T4Options => 292,
            Tag::T6Options => 293,
            Tag::ResolutionUnit => 296,
            Tag::PageNumber => 297,
            Tag::TransferFunction => 301,
            Tag::Software => 305,
            Tag::DateTime => 306,
            Tag::Artist => 315,
            Tag::HostComputer => 316,
            Tag::Predictor => 317,
            Tag::WhitePoint => 318,
            Tag::PrimaryChromaticities => 319,
            Tag::ColorMap => 320,
            Tag::HalftoneHints => 321,
            Tag::TileWidth => 322,
            Tag::TileLength => 323,
            Tag::TileOffsets => 324,
            Tag::TileByteCounts => 325,
            Tag::InkSet => 332,
            Tag::InkNames => 333,
            Tag::NumberOfInks => 334,
            Tag::DotRange => 336,
            Tag::TargetPrinter => 337,
            Tag::ExtraSamples => 338,
            Tag::SampleFormat => 339,
            Tag::SMinSampleValue => 340,
            Tag::SMaxSampleValue => 341,
            Tag::TransferRange => 342,
            Tag::JPEGProc => 512,
            Tag::JPEGInterchangeFormat => 513,
            Tag::JPEGInterchangeFormatLngth => 514,
            Tag::JPEGRestartInterval => 515,
            Tag::JPEGLosslessPredictors => 517,
            Tag::JPEGPointTransforms => 518,
            Tag::JPEGQTables => 519,
            Tag::JPEGDCTables => 520,
            Tag::JPEGACTables => 521,
            Tag::YCbCrCoefficients => 529,
            Tag::YCbCrSubSampling => 530,
            Tag::YCbCrPositioning => 531,
            Tag::ReferenceBlackWhite => 532,
            Tag::Copyright => 33432,
            Tag::Unknown(code) => code,
        }
    }
}

/// Looking a code up and taking the code of the tag found gives the code
/// back: a code of the catalog through its tag, any other through `Unknown`.
pub proof fn tag_lookup_round_trip(code: u16)
    ensures
        Tag::from_code(code).code() == code,
        Tag::from_code(code).is_canonical(),
        !Tag::in_catalog(code) ==> Tag::from_code(code) == Tag::Unknown(code)
            && Tag::Unknown(code).code() == code,
{
}

/// Every tag of the catalog is found again under its own code, and so is
/// `Unknown` with a code that the catalog does not name.
pub proof fn tag_code_round_trip(tag: Tag)
    requires
        tag.is_canonical(),
    ensures
        Tag::from_code(tag.code()) == tag,
{
}

/// No two tags of the catalog share a code.
pub proof fn tag_codes_distinct(a: Tag, b: Tag)
    requires
        !(a is Unknown),
        !(b is Unknown),
        a.code() == b.code(),
    ensures
        a == b,
{
}

} // verus!
