//! Video formats and frame types, and the numbers by which the VDO API names them.
//!
//! The VDO API numbers its formats and frame types in the order in which they are
//! listed here: formats from 0 (`H264`) to 10 (`Av1`), frame types from 0
//! (`H264Sps`) to 23 (`Av1Bidi`), and the frame type `NoType` as -1.

use vstd::prelude::*;

verus! {

/// A video format.
#[derive(Debug, Clone, Copy, PartialEq, Eq, Hash, Structural)]
#[non_exhaustive]
pub enum Format {
    H264,
    H265,
    Jpeg,
    Yuv,
    Bayer,
    Ivs,
    Raw,
    Rgba,
    Rgb,
    PlanarRgb,
    Av1,
}

impl Format {
    /// The number by which the VDO API names the format.
    pub open spec fn raw_value(self) -> i32 {
        match self {
            Format::H264 => 0,
            Format::H265 => 1,
            Format::Jpeg => 2,
            Format::Yuv => 3,
            Format::Bayer => 4,
            Format::Ivs => 5,
            Format::Raw => 6,
            Format::Rgba => 7,
            Format::Rgb => 8,
            Format::PlanarRgb => 9,
            Format::Av1 => 10,
        }
    }

    /// The format that the VDO API names by `raw`, if any.
    pub open spec fn spec_from_raw(raw: i32) -> Option<Format> {
        if raw == 0 { Some(Format::H264) }
        else if raw == 1 { Some(Format::H265) }
        else if raw == 2 { Some(Format::Jpeg) }
        else if raw == 3 { Some(Format::Yuv) }
        else if raw == 4 { Some(Format::Bayer) }
        else if raw == 5 { Some(Format::Ivs) }
        else if raw == 6 { Some(Format::Raw) }
        else if raw == 7 { Some(Format::Rgba) }
        else if raw == 8 { Some(Format::Rgb) }
        else if raw == 9 { Some(Format::PlanarRgb) }
        else if raw == 10 { Some(Format::Av1) }
        else { None }
    }

    /// The display name of the format.
    pub open spec fn name(self) -> Seq<char> {
        match self {
            Format::H264 => "H.264"@,
            Format::H265 => "H.265"@,
            Format::Jpeg => "JPEG"@,
            Format::Yuv => "YUV"@,
            Format::Bayer => "Bayer"@,
            Format::Ivs => "IVS"@,
            Format::Raw => "Raw"@,
            Format::Rgba => "RGBA"@,
            Format::Rgb => "RGB"@,
            Format::PlanarRgb => "Planar RGB"@,
            Format::Av1 => "AV1"@,
        }
    }

    /// The number by which the VDO API names the format.
    pub fn as_i32(self) -> (r: i32)
        ensures
            r == self.raw_value(),
    {
        match self {
            Format::H264 => 0,
            Format::H265 => 1,
            Format::Jpeg => 2,
            Format::Yuv => 3,
            Format::Bayer => 4,
            Format::Ivs => 5,
            Format::Raw => 6,
            Format::Rgba => 7,
            Format::Rgb => 8,
            Format::PlanarRgb => 9,
            Format::Av1 => 10,
        }
    }

    /// The format that the VDO API names by `raw`, or `None` for a number that
    /// names no format of this library.
    pub fn from_raw(raw: i32) -> (r: Option<Format>)
        ensures
            r == Format::spec_from_raw(raw),
    {
        match raw {
            0 => Some(Format::H264),
            1 => Some(Format::H265),
            2 => Some(Format::Jpeg),
            3 => Some(Format::Yuv),
            4 => Some(Format::Bayer),
            5 => Some(Format::Ivs),
            6 => Some(Format::Raw),
            7 => Some(Format::Rgba),
            8 => Some(Format::Rgb),
            9 => Some(Format::PlanarRgb),
            10 => Some(Format::Av1),
            _ => None,
        }
    }

    /// The display name of the format, such as `"H.264"` or `"Planar RGB"`.
    pub fn to_string(&self) -> (s: String)
        ensures
            s@ == self.name(),
    {
        match self {
            Format::H264 => String::from_str("H.264"),
            Format::H265 => String::from_str("H.265"),
            Format::Jpeg => String::from_str("JPEG"),
            Format::Yuv => String::from_str("YUV"),
            Format::Bayer => String::from_str("Bayer"),
            Format::Ivs => String::from_str("IVS"),
            Format::Raw => String::from_str("Raw"),
            Format::Rgba => String::from_str("RGBA"),
            Format::Rgb => String::from_str("RGB"),
            Format::PlanarRgb => String::from_str("Planar RGB"),
            Format::Av1 => String::from_str("AV1"),
        }
    }
}

/// Every format comes back unchanged from the number by which it is named.
pub proof fn lemma_format_round_trip(f: Format)
    ensures
        Format::spec_from_raw(f.raw_value()) == Some(f),
{
}

/// A number that names a format is that format's number, so no two formats share
/// a number.
pub proof fn lemma_format_raw_names_one(raw: i32, f: Format)
    requires
        Format::spec_from_raw(raw) == Some(f),
    ensures
        f.raw_value() == raw,
{
}

/// The kind of an encoded or raw frame.
#[derive(Debug, Clone, Copy, PartialEq, Eq, Hash, Structural)]
#[non_exhaustive]
pub enum FrameType {
    /// No frame type (the VDO API's `VDO_FRAME_TYPE_NONE`).
    NoType,
    H264Sps,
    H264Pps,
    H264Sei,
    H264Idr,
    H264I,
    H264P,
    H264B,
    H265Sps,
    H265Pps,
    H265Vps,
    H265Sei,
    H265Idr,
    H265I,
    H265P,
    H265B,
    Jpeg,
    Yuv,
    Raw,
    Rgba,
    Rgb,
    PlanarRgb,
    Av1Key,
    Av1Inter,
    Av1Bidi,
}

impl FrameType {
    /// The number by which the VDO API names the frame type.
    pub open spec fn raw_value(self) -> i32 {
        match self {
            FrameType::NoType => -1i32,
            FrameType::H264Sps => 0,
            FrameType::H264Pps => 1,
            FrameType::H264Sei => 2,
            FrameType::H264Idr => 3,
            FrameType::H264I => 4,
            FrameType::H264P => 5,
            FrameType::H264B => 6,
            FrameType::H265Sps => 7,
            FrameType::H265Pps => 8,
            FrameType::H265Vps => 9,
            FrameType::H265Sei => 10,
            FrameType::H265Idr => 11,
            FrameType::H265I => 12,
            FrameType::H265P => 13,
            FrameType::H265B => 14,
            FrameType::Jpeg => 15,
            FrameType::Yuv => 16,
            FrameType::Raw => 17,
            FrameType::Rgba => 18,
            FrameType::Rgb => 19,
            FrameType::PlanarRgb => 20,
            FrameType::Av1Key => 21,
            FrameType::Av1Inter => 22,
            FrameType::Av1Bidi => 23,
        }
    }

    /// The frame type that the VDO API names by `raw`, if any.
    pub open spec fn spec_from_raw(raw: i32) -> Option<FrameType> {
        if raw == -1 { Some(FrameType::NoType) }
        else if raw == 0 { Some(FrameType::H264Sps) }
        else if raw == 1 { Some(FrameType::H264Pps) }
        else if raw == 2 { Some(FrameType::H264Sei) }
        else if raw == 3 { Some(FrameType::H264Idr) }
        else if raw == 4 { Some(FrameType::H264I) }
        else if raw == 5 { Some(FrameType::H264P) }
        else if raw == 6 { Some(FrameType::H264B) }
        else if raw == 7 { Some(FrameType::H265Sps) }
        else if raw == 8 { Some(FrameType::H265Pps) }
        else if raw == 9 { Some(FrameType::H265Vps) }
        else if raw == 10 { Some(FrameType::H265Sei) }
        else if raw == 11 { Some(FrameType::H265Idr) }
        else if raw == 12 { Some(FrameType::H265I) }
        else if raw == 13 { Some(FrameType::H265P) }
        else if raw == 14 { Some(FrameType::H265B) }
        else if raw == 15 { Some(FrameType::Jpeg) }
        else if raw == 16 { Some(FrameType::Yuv) }
        else if raw == 17 { Some(FrameType::Raw) }
        else if raw == 18 { Some(FrameType::Rgba) }
        else if raw == 19 { Some(FrameType::Rgb) }
        else if raw == 20 { Some(FrameType::PlanarRgb) }
        else if raw == 21 { Some(FrameType::Av1Key) }
        else if raw == 22 { Some(FrameType::Av1Inter) }
        else if raw == 23 { Some(FrameType::Av1Bidi) }
        else { None }
    }

    /// Whether a frame of this type can be decoded on its own: an IDR or I frame
    /// of H.264 or H.265, an AV1 key frame, or a JPEG image.
    pub open spec fn spec_is_keyframe(self) -> bool {
        ||| self == FrameType::H264Idr
        ||| self == FrameType::H264I
        ||| self == FrameType::H265Idr
        ||| self == FrameType::H265I
        ||| self == FrameType::Av1Key
        ||| self == FrameType::Jpeg
    }

    /// Returns `true` for the frame types that can be decoded on their own.
    pub fn is_keyframe(&self) -> (r: bool)
        ensures
            r == self.spec_is_keyframe(),
    {
        match self {
            FrameType::H264Idr | FrameType::H264I | FrameType::H265Idr | FrameType::H265I
            | FrameType::Av1Key | FrameType::Jpeg => true,
            _ => false,
        }
    }

    /// The frame type that the VDO API names by `raw`, or `None` for a number that
    /// names no frame type of this library.
    pub fn from_raw(raw: i32) -> (r: Option<FrameType>)
        ensures
            r == FrameType::spec_from_raw(raw),
    {
        match raw {
            -1 => Some(FrameType::NoType),
            0 => Some(FrameType::H264Sps),
            1 => Some(FrameType::H264Pps),
            2 => Some(FrameType::H264Sei),
            3 => Some(FrameType::H264Idr),
            4 => Some(FrameType::H264I),
            5 => Some(FrameType::H264P),
            6 => Some(FrameType::H264B),
            7 => Some(FrameType::H265Sps),
            8 => Some(FrameType::H265Pps),
            9 => Some(FrameType::H265Vps),
            10 => Some(FrameType::H265Sei),
            11 => Some(FrameType::H265Idr),
            12 => Some(FrameType::H265I),
            13 => Some(FrameType::H265P),
            14 => Some(FrameType::H265B),
            15 => Some(FrameType::Jpeg),
            16 => Some(FrameType::Yuv),
            17 => Some(FrameType::Raw),
            18 => Some(FrameType::Rgba),
            19 => Some(FrameType::Rgb),
            20 => Some(FrameType::PlanarRgb),
            21 => Some(FrameType::Av1Key),
            22 => Some(FrameType::Av1Inter),
            23 => Some(FrameType::Av1Bidi),
            _ => None,
        }
    }
}

/// Every frame type comes back unchanged from the number by which it is named.
pub proof fn lemma_frame_type_round_trip(t: FrameType)
    ensures
        FrameType::spec_from_raw(t.raw_value()) == Some(t),
{
}

/// A number that names a frame type is that frame type's number, so no two frame
/// types share a number.
pub proof fn lemma_frame_type_raw_names_one(raw: i32, t: FrameType)
    requires
        FrameType::spec_from_raw(raw) == Some(t),
    ensures
        t.raw_value() == raw,
{
}

} // verus!
