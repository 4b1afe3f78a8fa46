use tiff_ifd::tags::Tag;
use tiff_ifd::types::Type;

#[test]
fn named_tags_have_their_codes() {
    assert_eq!(Tag::from_u16(254), Tag::NewSubfileType);
    assert_eq!(Tag::from_u16(255), Tag::SubfileType);
    assert_eq!(Tag::from_u16(256), Tag::ImageWidth);
    assert_eq!(Tag::from_u16(257), Tag::ImageLength);
    assert_eq!(Tag::from_u16(258), Tag::BitsPerSample);
    assert_eq!(Tag::from_u16(259), Tag::Compression);
    assert_eq!(Tag::from_u16(262), Tag::PhotometricInterpretation);
    assert_eq!(Tag::from_u16(273), Tag::StripOffsets);
    assert_eq!(Tag::from_u16(277), Tag::SamplesPerPixel);
    assert_eq!(Tag::from_u16(278), Tag::RowsPerStrip);
    assert_eq!(Tag::from_u16(279), Tag::StripByteCounts);
    assert_eq!(Tag::from_u16(282), Tag::XResolution);
    assert_eq!(Tag::from_u16(283), Tag::YResolution);
    assert_eq!(Tag::from_u16(284), Tag::PlanarConfiguration);
    assert_eq!(Tag::from_u16(296), Tag::ResolutionUnit);
    assert_eq!(Tag::from_u16(317), Tag::Predictor);
    assert_eq!(Tag::from_u16(320), Tag::ColorMap);
    assert_eq!(Tag::from_u16(342), Tag::TransferRange);
    assert_eq!(Tag::from_u16(512), Tag::JPEGProc);
    assert_eq!(Tag::from_u16(532), Tag::ReferenceBlackWhite);
    assert_eq!(Tag::from_u16(33432), Tag::Copyright);
}

#[test]
fn codes_between_named_tags_are_unknown() {
    assert_eq!(Tag::from_u16(0), Tag::Unknown(0));
    assert_eq!(Tag::from_u16(253), Tag::Unknown(253));
    assert_eq!(Tag::from_u16(260), Tag::Unknown(260));
    assert_eq!(Tag::from_u16(261), Tag::Unknown(261));
    assert_eq!(Tag::from_u16(267), Tag::Unknown(267));
    assert_eq!(Tag::from_u16(516), Tag::Unknown(516));
    assert_eq!(Tag::from_u16(533), Tag::Unknown(533));
    assert_eq!(Tag::from_u16(33431), Tag::Unknown(33431));
    assert_eq!(Tag::from_u16(65535), Tag::Unknown(65535));
}

#[test]
fn tag_code_round_trips_for_every_code() {
    let mut named = 0;
    for code in 0..=u16::MAX {
        let tag = Tag::from_u16(code);
        assert_eq!(tag.code(), code);
        match tag {
            Tag::Unknown(carried) => assert_eq!(carried, code),
            _ => named += 1,
        }
    }
    assert_eq!(named, 74);
}

#[test]
fn unknown_tag_carries_its_code() {
    assert_eq!(Tag::Unknown(12345).code(), 12345);
    assert_eq!(Tag::Unknown(256).code(), 256);
    assert_ne!(Tag::Unknown(256), Tag::ImageWidth);
}

#[test]
fn image_width_and_compression_are_distinct() {
    assert_ne!(Tag::from_u16(256), Tag::from_u16(259));
    assert_eq!(Tag::ImageWidth.code(), 256);
    assert_eq!(Tag::Compression.code(), 259);
}

#[test]
fn type_codes_one_to_twelve_are_defined() {
    assert_eq!(Type::from_u16(1), Some(Type::BYTE));
    assert_eq!(Type::from_u16(2), Some(Type::ASCII));
    assert_eq!(Type::from_u16(3), Some(Type::SHORT));
    assert_eq!(Type::from_u16(4), Some(Type::LONG));
    assert_eq!(Type::from_u16(5), Some(Type::RATIONAL));
    assert_eq!(Type::from_u16(6), Some(Type::SBYTE));
    assert_eq!(Type::from_u16(7), Some(Type::UNDEFINED));
    assert_eq!(Type::from_u16(8), Some(Type::SSHORT));
    assert_eq!(Type::from_u16(9), Some(Type::SLONG));
    assert_eq!(Type::from_u16(10), Some(Type::SRATIONAL));
    assert_eq!(Type::from_u16(11), Some(Type::FLOAT));
    assert_eq!(Type::from_u16(12), Some(Type::DOUBLE));
}

#[test]
fn other_type_codes_are_unrecognized() {
    assert_eq!(Type::from_u16(0), None);
    assert_eq!(Type::from_u16(13), None);
    assert_eq!(Type::from_u16(65535), None);
}

#[test]
fn type_code_round_trips_for_every_code() {
    let mut defined = 0;
    for code in 0..=u16::MAX {
        if let Some(t) = Type::from_u16(code) {
            assert_eq!(t.code(), code);
            defined += 1;
        }
    }
    assert_eq!(defined, 12);
}

#[test]
fn type_byte_widths() {
    assert_eq!(Type::BYTE.byte_width(), 1);
    assert_eq!(Type::ASCII.byte_width(), 1);
    assert_eq!(Type::SHORT.byte_width(), 2);
    assert_eq!(Type::LONG.byte_width(), 4);
    assert_eq!(Type::RATIONAL.byte_width(), 8);
    assert_eq!(Type::SBYTE.byte_width(), 1);
    assert_eq!(Type::UNDEFINED.byte_width(), 1);
    assert_eq!(Type::SSHORT.byte_width(), 2);
    assert_eq!(Type::SLONG.byte_width(), 4);
    assert_eq!(Type::SRATIONAL.byte_width(), 8);
    assert_eq!(Type::FLOAT.byte_width(), 4);
    assert_eq!(Type::DOUBLE.byte_width(), 8);
}
