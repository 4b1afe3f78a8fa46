use tiff_ifd::decoder::TIFFDecoder;
use tiff_ifd::error::ImageError;
use tiff_ifd::stream::{decode_u16, decode_u32, ByteOrder, SmartReader};

#[test]
fn decode_u16_in_both_orders() {
    assert_eq!(decode_u16(0x12, 0x34, ByteOrder::BigEndian), 0x1234);
    assert_eq!(decode_u16(0x12, 0x34, ByteOrder::LittleEndian), 0x3412);
    assert_eq!(decode_u16(0xFF, 0xFF, ByteOrder::BigEndian), 0xFFFF);
    assert_eq!(decode_u16(0, 0, ByteOrder::LittleEndian), 0);
}

#[test]
fn decode_u32_in_both_orders() {
    assert_eq!(decode_u32(0x12, 0x34, 0x56, 0x78, ByteOrder::BigEndian), 0x12345678);
    assert_eq!(decode_u32(0x12, 0x34, 0x56, 0x78, ByteOrder::LittleEndian), 0x78563412);
    assert_eq!(decode_u32(0xFF, 0xFF, 0xFF, 0xFF, ByteOrder::BigEndian), u32::MAX);
    assert_eq!(
        decode_u32(1, 2, 3, 4, ByteOrder::BigEndian),
        u32::from_be_bytes([1, 2, 3, 4])
    );
    assert_eq!(
        decode_u32(1, 2, 3, 4, ByteOrder::LittleEndian),
        u32::from_le_bytes([1, 2, 3, 4])
    );
}

#[test]
fn reader_reads_in_sequence() {
    let mut r = SmartReader::wrap(vec![0, 1, 0, 2, 0, 0, 1, 0], ByteOrder::BigEndian);
    assert_eq!(r.byte_order(), ByteOrder::BigEndian);
    assert_eq!(r.position(), 0);
    assert_eq!(r.read_u16(), Ok(1));
    assert_eq!(r.position(), 2);
    assert_eq!(r.read_u16(), Ok(2));
    assert_eq!(r.read_u32(), Ok(256));
    assert_eq!(r.position(), 8);
}

#[test]
fn reader_fails_at_the_end_and_stays() {
    let mut r = SmartReader::wrap(vec![1, 2, 3], ByteOrder::LittleEndian);
    assert_eq!(
        r.read_u32(),
        Err(ImageError::IoError("failed to fill whole buffer".to_string()))
    );
    assert_eq!(r.position(), 0);
    assert_eq!(r.read_u16(), Ok(0x0201));
    assert_eq!(
        r.read_u16(),
        Err(ImageError::IoError("failed to fill whole buffer".to_string()))
    );
    assert_eq!(r.position(), 2);
}

#[test]
fn reader_seek_is_absolute() {
    let mut r = SmartReader::wrap(vec![9, 9, 0, 5, 9, 9], ByteOrder::BigEndian);
    r.seek(2);
    assert_eq!(r.read_u16(), Ok(5));
    r.seek(2);
    assert_eq!(r.read_u16(), Ok(5));
    r.seek(100);
    assert_eq!(r.position(), 100);
    assert!(matches!(r.read_u16(), Err(ImageError::IoError(_))));
    assert_eq!(r.position(), 100);
}

#[test]
fn decoder_reads_shorts_and_longs() {
    let mut d = TIFFDecoder::new(vec![1, 0, 2, 0, 0, 0, 7, 7], ByteOrder::LittleEndian);
    assert_eq!(d.byte_order(), ByteOrder::LittleEndian);
    assert_eq!(d.read_short(), Ok(1));
    assert_eq!(d.read_long(), Ok(2));
    assert_eq!(d.position(), 6);
    assert!(matches!(d.read_long(), Err(ImageError::IoError(_))));
    assert_eq!(d.position(), 6);
    d.goto_offset(6);
    assert_eq!(d.read_short(), Ok(0x0707));
    assert!(matches!(d.read_short(), Err(ImageError::IoError(_))));
}

#[test]
fn error_constructors_carry_their_texts() {
    assert_eq!(
        ImageError::unsupported(),
        ImageError::UnsupportedError("Unsupported data type.".to_string())
    );
    assert_eq!(ImageError::unsupported().message(), "Unsupported data type.");
    assert_eq!(
        ImageError::unexpected_eof(),
        ImageError::IoError("failed to fill whole buffer".to_string())
    );
    assert_eq!(ImageError::unexpected_eof().message(), "failed to fill whole buffer");
}
