use tiff_ifd::decoder::TIFFDecoder;
use tiff_ifd::directory::Directory;
use tiff_ifd::entry::Entry;
use tiff_ifd::stream::ByteOrder;
use tiff_ifd::tags::Tag;
use tiff_ifd::types::Type;
use tiff_ifd::value::Value;

#[test]
fn new_directory_is_empty() {
    let directory = Directory::new();
    assert_eq!(directory.get(&Tag::ImageWidth), None);
    assert!(!directory.contains_key(&Tag::ImageWidth));
    assert!(!directory.contains_key(&Tag::Unknown(0)));
}

#[test]
fn inserted_entry_is_found() {
    let mut directory = Directory::new();
    assert_eq!(directory.insert(Tag::ImageWidth, Entry::new(Type::LONG, 1, [0, 0, 2, 0])), None);
    assert_eq!(directory.get(&Tag::ImageWidth), Some(&Entry::new(Type::LONG, 1, [0, 0, 2, 0])));
    assert!(directory.contains_key(&Tag::ImageWidth));
    assert_eq!(directory.get(&Tag::ImageLength), None);
}

#[test]
fn later_duplicate_overwrites_earlier() {
    let mut directory = Directory::new();
    directory.insert(Tag::Compression, Entry::new(Type::SHORT, 1, [0, 1, 0, 0]));
    directory.insert(Tag::ImageWidth, Entry::new(Type::SHORT, 1, [0, 9, 0, 0]));
    let previous = directory.insert(Tag::Compression, Entry::new(Type::SHORT, 1, [0, 5, 0, 0]));
    assert_eq!(previous, Some(Entry::new(Type::SHORT, 1, [0, 1, 0, 0])));
    assert_eq!(
        directory.get(&Tag::Compression),
        Some(&Entry::new(Type::SHORT, 1, [0, 5, 0, 0]))
    );
    assert_eq!(
        directory.get(&Tag::ImageWidth),
        Some(&Entry::new(Type::SHORT, 1, [0, 9, 0, 0]))
    );
}

#[test]
fn inserting_twice_is_idempotent() {
    let mut once = Directory::new();
    once.insert(Tag::StripOffsets, Entry::new(Type::LONG, 1, [0, 0, 0, 8]));
    let mut twice = Directory::new();
    twice.insert(Tag::StripOffsets, Entry::new(Type::LONG, 1, [0, 0, 0, 8]));
    twice.insert(Tag::StripOffsets, Entry::new(Type::LONG, 1, [0, 0, 0, 8]));
    for code in 0..=u16::MAX {
        let tag = Tag::from_u16(code);
        assert_eq!(once.get(&tag), twice.get(&tag));
    }
}

#[test]
fn unknown_tag_with_catalog_code_is_a_key_of_its_own() {
    let mut directory = Directory::new();
    directory.insert(Tag::ImageWidth, Entry::new(Type::SHORT, 1, [0, 1, 0, 0]));
    assert_eq!(directory.get(&Tag::Unknown(256)), None);
    directory.insert(Tag::Unknown(256), Entry::new(Type::SHORT, 1, [0, 2, 0, 0]));
    assert_eq!(
        directory.get(&Tag::ImageWidth),
        Some(&Entry::new(Type::SHORT, 1, [0, 1, 0, 0]))
    );
    assert_eq!(
        directory.get(&Tag::Unknown(256)),
        Some(&Entry::new(Type::SHORT, 1, [0, 2, 0, 0]))
    );
}

#[test]
fn unknown_tags_are_kept_by_code() {
    let mut directory = Directory::new();
    directory.insert(Tag::from_u16(40000), Entry::new(Type::BYTE, 1, [1, 0, 0, 0]));
    directory.insert(Tag::from_u16(40001), Entry::new(Type::BYTE, 1, [2, 0, 0, 0]));
    assert_eq!(
        directory.get(&Tag::Unknown(40000)),
        Some(&Entry::new(Type::BYTE, 1, [1, 0, 0, 0]))
    );
    assert_eq!(
        directory.get(&Tag::Unknown(40001)),
        Some(&Entry::new(Type::BYTE, 1, [2, 0, 0, 0]))
    );
    assert_eq!(directory.get(&Tag::Unknown(40002)), None);
}

#[test]
fn entries_of_a_directory_resolve() {
    let mut data = vec![0xEE; 8];
    data.extend_from_slice(&[0, 0, 0, 100, 0, 0, 0, 200]);
    let mut decoder = TIFFDecoder::new(data, ByteOrder::BigEndian);
    let mut directory = Directory::new();
    directory.insert(Tag::from_u16(256), Entry::new(Type::SHORT, 1, [0, 64, 0, 0]));
    directory.insert(Tag::from_u16(273), Entry::new(Type::LONG, 2, [0, 0, 0, 8]));
    let width = directory.get(&Tag::ImageWidth).unwrap().val(&mut decoder);
    assert_eq!(width.unwrap().as_u32(), Ok(64));
    let offsets = directory.get(&Tag::StripOffsets).unwrap().val(&mut decoder);
    assert_eq!(offsets.unwrap().as_u32_vec(), Ok(vec![100, 200]));
    let again = directory.get(&Tag::StripOffsets).unwrap().val(&mut decoder);
    assert_eq!(
        again,
        Ok(Value::List(vec![Value::Unsigned(100), Value::Unsigned(200)]))
    );
}
