use vdo::{Format, FrameType};

const FORMATS: [Format; 11] = [
    Format::H264,
    Format::H265,
    Format::Jpeg,
    Format::Yuv,
    Format::Bayer,
    Format::Ivs,
    Format::Raw,
    Format::Rgba,
    Format::Rgb,
    Format::PlanarRgb,
    Format::Av1,
];

#[test]
fn format_numbers() {
    for (i, f) in FORMATS.iter().enumerate() {
        assert_eq!(f.as_i32(), i as i32);
    }
}

#[test]
fn format_round_trip() {
    for f in FORMATS.iter() {
        assert_eq!(Format::from_raw(f.as_i32()), Some(*f));
    }
}

#[test]
fn format_from_unknown_number() {
    assert_eq!(Format::from_raw(-1), None);
    assert_eq!(Format::from_raw(11), None);
    assert_eq!(Format::from_raw(i32::MAX), None);
}

#[test]
fn format_names() {
    assert_eq!(Format::H264.to_string(), "H.264");
    assert_eq!(Format::H265.to_string(), "H.265");
    assert_eq!(Format::Jpeg.to_string(), "JPEG");
    assert_eq!(Format::Yuv.to_string(), "YUV");
    assert_eq!(Format::Bayer.to_string(), "Bayer");
    assert_eq!(Format::Ivs.to_string(), "IVS");
    assert_eq!(Format::Raw.to_string(), "Raw");
    assert_eq!(Format::Rgba.to_string(), "RGBA");
    assert_eq!(Format::Rgb.to_string(), "RGB");
    assert_eq!(Format::PlanarRgb.to_string(), "Planar RGB");
    assert_eq!(Format::Av1.to_string(), "AV1");
}

const FRAME_TYPES: [FrameType; 25] = [
    FrameType::NoType,
    FrameType::H264Sps,
    FrameType::H264Pps,
    FrameType::H264Sei,
    FrameType::H264Idr,
    FrameType::H264I,
    FrameType::H264P,
    FrameType::H264B,
    FrameType::H265Sps,
    FrameType::H265Pps,
    FrameType::H265Vps,
    FrameType::H265Sei,
    FrameType::H265Idr,
    FrameType::H265I,
    FrameType::H265P,
    FrameType::H265B,
    FrameType::Jpeg,
    FrameType::Yuv,
    FrameType::Raw,
    FrameType::Rgba,
    FrameType::Rgb,
    FrameType::PlanarRgb,
    FrameType::Av1Key,
    FrameType::Av1Inter,
    FrameType::Av1Bidi,
];

#[test]
fn frame_type_numbers() {
    for (i, t) in FRAME_TYPES.iter().enumerate() {
        assert_eq!(FrameType::from_raw(i as i32 - 1), Some(*t));
    }
}

#[test]
fn frame_type_from_unknown_number() {
    assert_eq!(FrameType::from_raw(-2), None);
    assert_eq!(FrameType::from_raw(24), None);
    assert_eq!(FrameType::from_raw(i32::MIN), None);
}

#[test]
fn keyframes() {
    let keyframes = [
        FrameType::H264Idr,
        FrameType::H264I,
        FrameType::H265Idr,
        FrameType::H265I,
        FrameType::Av1Key,
        FrameType::Jpeg,
    ];
    for t in FRAME_TYPES.iter() {
        assert_eq!(t.is_keyframe(), keyframes.contains(t));
    }
}

#[test]
fn non_keyframes() {
    assert!(!FrameType::NoType.is_keyframe());
    assert!(!FrameType::H264P.is_keyframe());
    assert!(!FrameType::H265B.is_keyframe());
    assert!(!FrameType::Av1Inter.is_keyframe());
    assert!(!FrameType::Yuv.is_keyframe());
}
