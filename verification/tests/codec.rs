use xgcode::{Error, Header, XGCode, XGCodeRef};

const MAGIC: [u8; 16] = *b"xgcode 1.0\n\0\0\0\0\0";

fn sample_header() -> Header {
    Header {
        print_time: 0x0102_0304,
        filament_0_usage: 0x1112_1314,
        filament_1_usage: 0x2122_2324,
        multi_extruder_type: 0x3132,
        layer_height: 0x4142,
        reserved0: 0x5152,
        perimeter_shells: 0x6162,
        print_speed: 0x7172,
        hotbed_temp: 0x8182,
        extruder_0_temp: 0x9192,
        extruder_1_temp: 0xa1a2,
        reserved1: 0xb1b2,
    }
}

fn sample_header_bytes() -> Vec<u8> {
    vec![
        0x04, 0x03, 0x02, 0x01, 0x14, 0x13, 0x12, 0x11, 0x24, 0x23, 0x22, 0x21, 0x32, 0x31, 0x42,
        0x41, 0x52, 0x51, 0x62, 0x61, 0x72, 0x71, 0x82, 0x81, 0x92, 0x91, 0xa2, 0xa1, 0xb2, 0xb1,
    ]
}

fn zero_header() -> Header {
    Header {
        print_time: 0,
        filament_0_usage: 0,
        filament_1_usage: 0,
        multi_extruder_type: 0,
        layer_height: 0,
        reserved0: 0,
        perimeter_shells: 0,
        print_speed: 0,
        hotbed_temp: 0,
        extruder_0_temp: 0,
        extruder_1_temp: 0,
        reserved1: 0,
    }
}

/// A file with the given offsets, the sample header, and `tail` behind it.
fn file_with(thumb_offset: u32, offset1: u32, offset2: u32, tail: &[u8]) -> Vec<u8> {
    let mut file = MAGIC.to_vec();
    file.extend_from_slice(&thumb_offset.to_le_bytes());
    file.extend_from_slice(&offset1.to_le_bytes());
    file.extend_from_slice(&offset2.to_le_bytes());
    file.extend_from_slice(&sample_header_bytes());
    file.extend_from_slice(tail);
    file
}

fn is_unexpected_eof(r: Result<XGCode, Error>) -> bool {
    match r {
        Err(Error::IO(e)) => e.kind() == std::io::ErrorKind::UnexpectedEof,
        _ => false,
    }
}

#[test]
fn test_sample_file() {
    // A file as a slicer writes it: a bitmap thumbnail and a few lines of g-code.
    let mut thumbnail = b"BM".to_vec();
    thumbnail.extend((0..14_454u32).map(|i| (i % 251) as u8));
    let gcode = b";generated\nM118 X20.00 Y20.00 Z10.00 T0\nG28\nG1 X0 Y0 Z0.2 F3000\nM18\n";
    let mut file = file_with(0x3A, 0x3A + thumbnail.len() as u32, 0x3A + thumbnail.len() as u32, &thumbnail);
    file.extend_from_slice(gcode);

    let parsed = XGCode::read(&file[..]).unwrap();

    // Check .bmp magic in thumbnail
    assert_eq!(&parsed.thumbnail[..2], b"BM");

    let mut file2 = vec![];
    parsed.write(&mut file2).unwrap();

    assert_eq!(&file[..], &file2[..]);
}

#[test]
fn crafted_buffer_decodes_and_reencodes() {
    let mut file = MAGIC.to_vec();
    file.extend_from_slice(&0x3Au32.to_le_bytes());
    file.extend_from_slice(&0x3Eu32.to_le_bytes());
    file.extend_from_slice(&0x3Eu32.to_le_bytes());
    file.extend_from_slice(&3600u32.to_le_bytes());
    file.extend_from_slice(&1000u32.to_le_bytes());
    file.extend_from_slice(&[0u8; 22]);
    file.extend_from_slice(&[0xde, 0xad, 0xbe, 0xef]);
    file.extend_from_slice(b"G28\nG1 X10\n");
    assert_eq!(file.len(), 58 + 4 + 11);

    let doc = XGCode::read(&file).unwrap();
    assert_eq!(doc.thumbnail.len(), 4);
    assert_eq!(doc.thumbnail, vec![0xde, 0xad, 0xbe, 0xef]);
    assert_eq!(doc.gcode, b"G28\nG1 X10\n".to_vec());
    assert_eq!(doc.header.print_time, 3600);
    assert_eq!(doc.header.filament_0_usage, 1000);
    assert_eq!(doc.header, Header { print_time: 3600, filament_0_usage: 1000, ..zero_header() });

    let mut out = Vec::new();
    doc.write(&mut out).unwrap();
    assert_eq!(out, file);
}

#[test]
fn header_fields_are_read_in_file_order() {
    let file = file_with(0x3A, 0x3C, 0x3C, &[7, 8, 9]);
    let doc = XGCode::read(&file).unwrap();
    assert_eq!(doc.header, sample_header());
    assert_eq!(doc.thumbnail, vec![7, 8]);
    assert_eq!(doc.gcode, vec![9]);
}

#[test]
fn write_lays_out_every_field() {
    let doc = XGCode { header: sample_header(), thumbnail: vec![1, 2, 3], gcode: vec![4, 5] };
    let mut out = Vec::new();
    doc.write(&mut out).unwrap();
    let mut expected = b"xgcode 1.0\n\0\0\0\0\0".to_vec();
    expected.extend_from_slice(&[0x3A, 0, 0, 0, 0x3D, 0, 0, 0, 0x3D, 0, 0, 0]);
    expected.extend_from_slice(&sample_header_bytes());
    expected.extend_from_slice(&[1, 2, 3, 4, 5]);
    assert_eq!(out, expected);
}

#[test]
fn write_appends_to_what_the_writer_holds() {
    let doc = XGCode { header: zero_header(), thumbnail: vec![], gcode: vec![0x47] };
    let mut out = vec![0xaa, 0xbb];
    doc.write(&mut out).unwrap();
    assert_eq!(out.len(), 2 + 58 + 1);
    assert_eq!(&out[..2], &[0xaa, 0xbb]);
    assert_eq!(&out[2..18], &MAGIC);
    assert_eq!(&out[18..30], &[0x3A, 0, 0, 0, 0x3A, 0, 0, 0, 0x3A, 0, 0, 0]);
    assert_eq!(out[60], 0x47);
}

#[test]
fn gcode_offset_uses_all_four_bytes() {
    let doc = XGCode { header: zero_header(), thumbnail: vec![0x55; 0x01_02_03], gcode: vec![] };
    let mut out = Vec::new();
    doc.write(&mut out).unwrap();
    // 0x3A + 0x010203 = 0x01023D
    assert_eq!(&out[20..24], &[0x3D, 0x02, 0x01, 0x00]);
    assert_eq!(&out[24..28], &[0x3D, 0x02, 0x01, 0x00]);
    let back = XGCode::read(&out).unwrap();
    assert_eq!(back, doc);
}

#[test]
fn round_trip_of_a_document() {
    let doc = XGCode {
        header: sample_header(),
        thumbnail: (0..=255u8).collect(),
        gcode: b"M104 S210\nG28\n".to_vec(),
    };
    let mut bytes = Vec::new();
    doc.write(&mut bytes).unwrap();
    let back = XGCode::read(&bytes).unwrap();
    assert_eq!(back, doc);
    let mut again = Vec::new();
    back.write(&mut again).unwrap();
    assert_eq!(again, bytes);
}

#[test]
fn round_trip_of_an_empty_document() {
    let doc = XGCode { header: zero_header(), thumbnail: vec![], gcode: vec![] };
    let mut bytes = Vec::new();
    doc.write(&mut bytes).unwrap();
    assert_eq!(bytes.len(), 58);
    assert_eq!(XGCode::read(&bytes).unwrap(), doc);
}

#[test]
fn reserved_fields_pass_through() {
    let header = Header { reserved0: 0xbeef, reserved1: 0x0001, ..zero_header() };
    let doc = XGCode { header, thumbnail: vec![9], gcode: vec![] };
    let mut bytes = Vec::new();
    doc.write(&mut bytes).unwrap();
    assert_eq!(&bytes[0x2C..0x2E], &[0xef, 0xbe]);
    assert_eq!(&bytes[0x38..0x3A], &[0x01, 0x00]);
    let back = XGCode::read(&bytes).unwrap();
    assert_eq!(back.header.reserved0, 0xbeef);
    assert_eq!(back.header.reserved1, 0x0001);
}

#[test]
fn borrowed_form_writes_the_same_bytes() {
    let doc = XGCode { header: sample_header(), thumbnail: vec![1, 2, 3], gcode: vec![4, 5, 6, 7] };
    let view = doc.as_ref();
    assert_eq!(view.header, doc.header);
    assert_eq!(view.thumbnail, &doc.thumbnail[..]);
    assert_eq!(view.gcode, &doc.gcode[..]);
    let mut owned = Vec::new();
    doc.write(&mut owned).unwrap();
    let mut borrowed = Vec::new();
    view.write(&mut borrowed).unwrap();
    assert_eq!(owned, borrowed);

    let direct = XGCodeRef { header: sample_header(), thumbnail: &[1, 2, 3], gcode: &[4, 5, 6, 7] };
    assert_eq!(direct, view);
}

#[test]
fn bad_magic_carries_the_bytes_found() {
    for i in 0..16 {
        let mut file = file_with(0x3A, 0x3A, 0x3A, b"G28\n");
        file[i] ^= 0x01;
        let expected: [u8; 16] = file[..16].try_into().unwrap();
        match XGCode::read(&file) {
            Err(Error::BadMagic(found)) => assert_eq!(*found, expected),
            other => panic!("byte {}: {:?}", i, other),
        }
    }
}

#[test]
fn bad_magic_needs_no_further_bytes() {
    let file = *b"xgcode 2.0\n\0\0\0\0\0";
    match XGCode::read(&file) {
        Err(Error::BadMagic(found)) => assert_eq!(*found, file),
        other => panic!("{:?}", other),
    }
}

#[test]
fn bad_header_size_carries_the_offset() {
    let file = file_with(0x3B, 0x3B, 0x3B, &[]);
    assert!(matches!(XGCode::read(&file), Err(Error::BadHeaderSize(0x3B))));
    let file = file_with(0x0100_003A, 0x3A, 0x3A, &[]);
    assert!(matches!(XGCode::read(&file), Err(Error::BadHeaderSize(0x0100_003A))));
    assert!(matches!(XGCode::read(&file[..20]), Err(Error::BadHeaderSize(0x0100_003A))));
}

#[test]
fn thumb_size_negative_carries_the_difference() {
    let file = file_with(0x3A, 0x39, 0x39, &[]);
    assert!(matches!(XGCode::read(&file), Err(Error::ThumbSizeNegative(-1))));
    let file = file_with(0x3A, 0, 0, &[]);
    assert!(matches!(XGCode::read(&file), Err(Error::ThumbSizeNegative(-58))));
    // The second offset is not needed for this verdict.
    assert!(matches!(XGCode::read(&file[..24]), Err(Error::ThumbSizeNegative(-58))));
    // A negative size is reported before the two offsets are compared.
    let file = file_with(0x3A, 0x10, 0x3A, &[]);
    assert!(matches!(XGCode::read(&file), Err(Error::ThumbSizeNegative(-42))));
}

#[test]
fn second_offset_must_repeat_the_first() {
    let file = file_with(0x3A, 0x3E, 0x3F, &[1, 2, 3, 4, 5]);
    assert!(matches!(XGCode::read(&file), Err(Error::SecondGOffsetNotFound)));
    let file = file_with(0x3A, 0x3E, 0x0100_003E, &[1, 2, 3, 4, 5]);
    assert!(matches!(XGCode::read(&file), Err(Error::SecondGOffsetNotFound)));
    assert!(matches!(XGCode::read(&file[..28]), Err(Error::SecondGOffsetNotFound)));
}

#[test]
fn truncated_input_is_an_io_error() {
    let file = file_with(0x3A, 0x3E, 0x3E, &[1, 2, 3, 4, 5]);
    assert!(XGCode::read(&file).is_ok());
    // Every cut in front of the end of the thumbnail leaves a field unread.
    for len in 0..0x3E {
        assert!(is_unexpected_eof(XGCode::read(&file[..len])), "length {}", len);
    }
    // Behind it only g-code is lost.
    let doc = XGCode::read(&file[..0x3E]).unwrap();
    assert_eq!(doc.thumbnail, vec![1, 2, 3, 4]);
    assert!(doc.gcode.is_empty());
}

#[test]
fn thumbnail_longer_than_the_input() {
    let file = file_with(0x3A, u32::MAX, u32::MAX, &[1, 2, 3]);
    assert!(is_unexpected_eof(XGCode::read(&file)));
}

#[test]
fn errors_come_in_the_order_of_the_fields() {
    // Bad magic wins over everything behind it.
    let mut file = file_with(0x3B, 0x10, 0x11, &[]);
    file[0] = b'y';
    assert!(matches!(XGCode::read(&file), Err(Error::BadMagic(_))));
    // Then the thumbnail offset.
    let file = file_with(0x3B, 0x10, 0x11, &[]);
    assert!(matches!(XGCode::read(&file), Err(Error::BadHeaderSize(0x3B))));
}
