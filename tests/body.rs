use mkvparser::parse::{
    find_valid_element, parse_binary, parse_block, parse_date, parse_element,
    parse_element_or_skip_corrupted, parse_float, parse_int, parse_simple_block, parse_string,
    parse_utf8,
};
use mkvparser::text::as_hex;
use mkvparser::{
    BinaryValue, Block, Body, Element, Enumeration, Error, FloatBits, Header, Id, Lacing,
    SimpleBlock, Unsigned,
};

const EMPTY: &[u8] = &[];
const UNKNOWN_VARINT: &[u8] = &[0x01, 0xff, 0xff, 0xff, 0xff, 0xff, 0xff, 0xff];

fn float_value(f: FloatBits) -> f64 {
    match f {
        FloatBits::Binary32(b) => f32::from_bits(b) as f64,
        FloatBits::Binary64(b) => f64::from_bits(b),
    }
}

#[test]
fn lib_test_parse_string() {
    assert_eq!(
        parse_string(&Header::new(Id::DocType, 3, 4), &[0x77, 0x65, 0x62, 0x6D]),
        Ok((EMPTY, "webm".to_string()))
    );

    assert_eq!(
        parse_string(&Header::new(Id::DocType, 3, 6), &[0x77, 0x65, 0x62, 0x6D, 0x00, 0x00]),
        Ok((EMPTY, "webm".to_string()))
    );

    assert_eq!(
        parse_string(&Header::with_unknown_size(Id::DocType, 3), EMPTY),
        Err(Error::ForbiddenUnknownSize)
    );
}

#[test]
fn utf8_keeps_trailing_nuls() {
    assert_eq!(
        parse_utf8(&Header::new(Id::Title, 3, 6), &[0x77, 0x65, 0x62, 0x6D, 0x00, 0x00]),
        Ok((EMPTY, "webm\0\0".to_string()))
    );
    let (_, element) = parse_element(&[0x7B, 0xA9, 0x83, 0x61, 0x00, 0x00]).unwrap();
    assert_eq!(element.body, Body::Utf8("a\0\0".to_string()));
    let (_, element) = parse_element(&[0x42, 0x82, 0x83, 0x61, 0x00, 0x00]).unwrap();
    assert_eq!(element.body, Body::String("a".to_string()));
}

#[test]
fn string_rejects_invalid_utf8() {
    assert_eq!(
        parse_string(&Header::new(Id::DocType, 3, 2), &[0xC3, 0x28]),
        Err(Error::InvalidUtf8)
    );
    assert_eq!(parse_string(&Header::new(Id::DocType, 3, 2), &[0x61]), Err(Error::NeedData));
    assert_eq!(
        parse_utf8(&Header::new(Id::Title, 3, 2), &[0xC3, 0xA9]),
        Ok((EMPTY, "\u{e9}".to_string()))
    );
}

#[test]
fn test_parse_corrupted() {
    // This integer would have more than 8 bytes.
    assert_eq!(parse_element(&[0x42, 0x87, 0x90, 0x01]), Err(Error::ForbiddenIntegerSize));

    // Now it finds a Segment.
    const SEGMENT_ID: &[u8] = &[0x18, 0x53, 0x80, 0x67];
    let (remaining, element) =
        parse_element_or_skip_corrupted(&[0x42, 0x87, 0x90, 0x01, 0x18, 0x53, 0x80, 0x67])
            .unwrap();
    assert_eq!(
        (remaining, &element),
        (
            SEGMENT_ID,
            &Element {
                header: Header::new(Id::corrupted(), 0, 4),
                body: Body::Binary(BinaryValue::Corrupted),
            },
        )
    );
    assert!(element.header.id.get_value().is_none());
}

#[test]
fn test_parse_corrupted_unknown_size() {
    // String
    assert_eq!(parse_element(&[0x86, 0xFF, 0x56, 0x5F, 0x54]), Err(Error::ForbiddenUnknownSize));
    // Binary
    assert_eq!(parse_element(&[0x63, 0xA2, 0xFF]), Err(Error::ForbiddenUnknownSize));
    // Integer
    assert_eq!(parse_element(&[0x42, 0x87, 0xFF, 0x01]), Err(Error::ForbiddenUnknownSize));
    // Float
    assert_eq!(parse_element(&[0x44, 0x89, 0xFF, 0x01]), Err(Error::ForbiddenUnknownSize));
}

#[test]
fn lib_test_parse_int() {
    assert_eq!(parse_int(&Header::new(Id::EbmlVersion, 3, 1), &[0x01]), Ok((EMPTY, 1u64)));
    assert_eq!(
        parse_int::<u64>(&Header::with_unknown_size(Id::EbmlVersion, 3), EMPTY),
        Err(Error::ForbiddenUnknownSize)
    );
    assert_eq!(
        parse_int::<i64>(&Header::with_unknown_size(Id::EbmlVersion, 3), EMPTY),
        Err(Error::ForbiddenUnknownSize)
    );
}

#[test]
fn integer_sizes_zero_eight_and_nine() {
    assert_eq!(parse_int::<u64>(&Header::new(Id::EbmlVersion, 2, 0), EMPTY), Ok((EMPTY, 0)));
    let eight = [0xFF, 0xFF, 0xFF, 0xFF, 0xFF, 0xFF, 0xFF, 0xFE];
    assert_eq!(
        parse_int::<u64>(&Header::new(Id::EbmlVersion, 2, 8), &eight),
        Ok((EMPTY, 0xFFFF_FFFF_FFFF_FFFE))
    );
    assert_eq!(parse_int::<i64>(&Header::new(Id::ReferenceBlock, 2, 8), &eight), Ok((EMPTY, -2)));
    assert_eq!(parse_int::<i64>(&Header::new(Id::ReferenceBlock, 2, 1), &[0xFF]), Ok((EMPTY, 255)));
    let nine = [0u8; 9];
    assert_eq!(
        parse_int::<u64>(&Header::new(Id::EbmlVersion, 2, 9), &nine),
        Err(Error::ForbiddenIntegerSize)
    );
    assert_eq!(
        parse_element(&[0x42, 0x86, 0x89, 0, 0, 0, 0, 0, 0, 0, 0, 0]),
        Err(Error::ForbiddenIntegerSize)
    );
    assert_eq!(parse_int::<u64>(&Header::new(Id::EbmlVersion, 2, 2), &[0x01]), Err(Error::NeedData));
}

#[test]
fn test_parse_float() {
    let (rest, v) = parse_float(&Header::new(Id::Duration, 3, 4), &[0x45, 0x7A, 0x30, 0x00]).unwrap();
    assert_eq!(rest, EMPTY);
    assert_eq!(float_value(v), 4003.);
    let (rest, v) = parse_float(
        &Header::new(Id::Duration, 3, 8),
        &[0x40, 0xAF, 0x46, 0x00, 0x00, 0x00, 0x00, 0x00],
    )
    .unwrap();
    assert_eq!(rest, EMPTY);
    assert_eq!(float_value(v), 4003.);
    let (rest, v) = parse_float(&Header::new(Id::Duration, 3, 0), EMPTY).unwrap();
    assert_eq!(rest, EMPTY);
    assert_eq!(float_value(v), 0.);
    assert_eq!(parse_float(&Header::new(Id::Duration, 3, 7), EMPTY), Err(Error::ForbiddenFloatSize));
    assert_eq!(
        parse_float(&Header::with_unknown_size(Id::Duration, 3), EMPTY),
        Err(Error::ForbiddenUnknownSize)
    );
}

#[test]
fn float_bits_kept() {
    assert_eq!(
        parse_float(&Header::new(Id::Duration, 3, 4), &[0x45, 0x7A, 0x30, 0x00]),
        Ok((EMPTY, FloatBits::Binary32(0x457A_3000)))
    );
    assert_eq!(parse_float(&Header::new(Id::Duration, 3, 0), EMPTY), Ok((EMPTY, FloatBits::Binary64(0))));
    assert_eq!(parse_float(&Header::new(Id::Duration, 3, 8), &[0x40]), Err(Error::NeedData));
}

#[test]
fn test_parse_binary() {
    const BODY: &[u8] = &[0x15, 0x49, 0xA9, 0x66];
    assert_eq!(parse_binary(&Header::new(Id::SeekId, 3, 4), BODY), Ok((EMPTY, BODY)));
    assert_eq!(
        parse_binary(&Header::with_unknown_size(Id::SeekId, 3), EMPTY),
        Err(Error::ForbiddenUnknownSize)
    );
}

#[test]
fn test_parse_date() {
    let expected = chrono::NaiveDate::from_ymd_opt(2022, 8, 11)
        .unwrap()
        .and_hms_opt(8, 27, 15)
        .unwrap()
        .and_utc()
        .timestamp();
    let (rest, date) = parse_date(
        &Header::new(Id::DateUtc, 1, 8),
        &[0x09, 0x76, 0x97, 0xbd, 0xca, 0xc9, 0x1e, 0x00],
    )
    .unwrap();
    assert_eq!(rest, EMPTY);
    assert_eq!(date.timestamp, expected);
    assert_eq!(date.timestamp, 1_660_206_435);
}

#[test]
fn dates_around_the_epoch() {
    let (_, date) = parse_date(&Header::new(Id::DateUtc, 1, 0), EMPTY).unwrap();
    assert_eq!(date.timestamp, 978_307_200);
    // One second before the EBML epoch.
    let nanos: i64 = -1_000_000_000;
    let (_, date) = parse_date(&Header::new(Id::DateUtc, 1, 8), &nanos.to_be_bytes()).unwrap();
    assert_eq!(date.timestamp, 978_307_199);
    // Past the range of nanosecond counts.
    let nanos: i64 = i64::MAX;
    assert_eq!(
        parse_date(&Header::new(Id::DateUtc, 1, 8), &nanos.to_be_bytes()),
        Err(Error::InvalidDate)
    );
}

#[test]
fn test_parse_master_element() {
    const INPUT: &[u8] = &[
        0x1A, 0x45, 0xDF, 0xA3, 0x9F, 0x42, 0x86, 0x81, 0x01, 0x42, 0xF7, 0x81, 0x01, 0x42, 0xF2,
        0x81, 0x04, 0x42, 0xF3, 0x81, 0x08, 0x42, 0x82, 0x84, 0x77, 0x65, 0x62, 0x6D, 0x42, 0x87,
        0x81, 0x04, 0x42, 0x85, 0x81, 0x02,
    ];
    let result = parse_element(INPUT);
    assert_eq!(
        result,
        Ok((&INPUT[5..], Element { header: Header::new(Id::Ebml, 5, 31), body: Body::Master }))
    );
}

#[test]
fn test_parse_enumeration() {
    const INPUT: &[u8] = &[0x83, 0x81, 0x01];
    assert_eq!(
        parse_element(INPUT),
        Ok((
            EMPTY,
            Element {
                header: Header::new(Id::TrackType, 2, 1),
                body: Body::Unsigned(Unsigned::Enumeration(
                    Enumeration::new(&Id::TrackType, 1).unwrap()
                )),
            }
        ))
    );

    const INPUT_UNKNOWN_ENUMERATION: &[u8] = &[0x83, 0x81, 0xFF];
    let (remaining, element) = parse_element(INPUT_UNKNOWN_ENUMERATION).unwrap();
    assert_eq!(
        (remaining, &element),
        (
            EMPTY,
            &Element {
                header: Header::new(Id::TrackType, 2, 1),
                body: Body::Unsigned(Unsigned::Standard(255)),
            }
        )
    );
    assert_eq!(element.header.id.to_name_string(), "TrackType");
    assert_eq!(element.header.header_size, 2);
    assert_eq!(element.header.size, Some(3));
    assert_eq!(element.body, Body::Unsigned(Unsigned::Standard(255)));
}

#[test]
fn test_parse_seek_id() {
    assert_eq!(
        parse_element(&[0x53, 0xAB, 0x84, 0x15, 0x49, 0xA9, 0x66]),
        Ok((
            EMPTY,
            Element {
                header: Header::new(Id::SeekId, 3, 4),
                body: Body::Binary(BinaryValue::SeekId(Id::Info)),
            }
        ))
    );
}

#[test]
fn test_parse_crc32() {
    assert_eq!(
        parse_element(&[0xBF, 0x84, 0xAF, 0x93, 0x97, 0x18]),
        Ok((
            EMPTY,
            Element {
                header: Header::new(Id::Crc32, 2, 4),
                body: Body::Binary(BinaryValue::Standard(as_hex(&[0xAF, 0x93, 0x97, 0x18]))),
            }
        ))
    );
    assert_eq!(as_hex(&[0xAF, 0x93, 0x97, 0x18]), "[af 93 97 18]");
}

#[test]
fn test_parse_empty() {
    assert_eq!(
        parse_element(&[0x63, 0xC0, 0x01, 0x00, 0x00, 0x00, 0x00, 0x00, 0x00, 0x00]),
        Ok((EMPTY, Element { header: Header::new(Id::Targets, 10, 0), body: Body::Master }))
    );
}

#[test]
fn test_parse_block() {
    assert_eq!(
        parse_block(&[0x81, 0x0F, 0x7A, 0x00]),
        Ok((
            EMPTY,
            Block { track_number: 1, timestamp: 3962, invisible: false, lacing: None, num_frames: None }
        ))
    );
    assert_eq!(parse_block(UNKNOWN_VARINT), Err(Error::MissingTrackNumber));
}

#[test]
fn test_parse_simple_block() {
    assert_eq!(
        parse_simple_block(&[0x81, 0x00, 0x53, 0x00]),
        Ok((
            EMPTY,
            SimpleBlock {
                track_number: 1,
                timestamp: 83,
                keyframe: false,
                invisible: false,
                lacing: None,
                discardable: false,
                num_frames: None,
            }
        ))
    );
    assert_eq!(parse_simple_block(UNKNOWN_VARINT), Err(Error::MissingTrackNumber));
}

#[test]
fn block_flags_and_lacing() {
    // keyframe, invisible, EBML lacing, discardable; 3 frames
    assert_eq!(
        parse_simple_block(&[0x82, 0xFF, 0xFE, 0x8F, 0x02, 0xAA]),
        Ok((
            &[0xAAu8][..],
            SimpleBlock {
                track_number: 2,
                timestamp: -2,
                keyframe: true,
                invisible: true,
                lacing: Some(Lacing::Ebml),
                discardable: true,
                num_frames: Some(3),
            }
        ))
    );
    assert_eq!(
        parse_block(&[0x81, 0x00, 0x00, 0x02, 0xFF]),
        Ok((
            EMPTY,
            Block {
                track_number: 1,
                timestamp: 0,
                invisible: false,
                lacing: Some(Lacing::Xiph),
                num_frames: Some(256),
            }
        ))
    );
    assert_eq!(
        parse_block(&[0x81, 0x00, 0x00, 0x04, 0x00])
            .unwrap()
            .1
            .lacing,
        Some(Lacing::FixedSize)
    );
    assert_eq!(parse_block(&[0x81, 0x00, 0x00, 0x02]), Err(Error::NeedData));
    assert_eq!(parse_block(&[0x81, 0x00]), Err(Error::NeedData));
}

#[test]
fn block_inside_element() {
    let (_, element) = parse_element(&[0xA1, 0x84, 0x81, 0x0F, 0x7A, 0x00]).unwrap();
    assert_eq!(
        element.body,
        Body::Binary(BinaryValue::Block(Block {
            track_number: 1,
            timestamp: 3962,
            invisible: false,
            lacing: None,
            num_frames: None,
        }))
    );
    let (_, element) = parse_element(&[0xEC, 0x82, 0x00, 0x00]).unwrap();
    assert_eq!(element.body, Body::Binary(BinaryValue::Void));
}

#[test]
fn test_binary_custom_serializer() {
    assert_eq!(as_hex(&[1, 2, 3]), "[01 02 03]");
    assert_eq!(as_hex(&[0; 65]), "65 bytes");
    assert_eq!(as_hex(&[0; 64]).len(), 2 + 64 * 3 - 1);
    assert_eq!(as_hex(&[]), "[]");
}

#[test]
fn test_serialize_enumeration() {
    let video = Enumeration::new(&Id::TrackType, 1).unwrap();
    assert_eq!(video.original_label(), "video");
    assert_eq!(video.label(), "Video");
    assert_eq!(Unsigned::Standard(5), Unsigned::new(&Id::EbmlVersion, 5));
}

#[test]
fn enumeration_labels_round_trip() {
    let aes = Enumeration::new(&Id::ContentEncAlgo, 2).unwrap();
    assert_eq!(aes.label(), "TripleDes");
    assert_eq!(aes.original_label(), "3DES");
    assert_eq!(Enumeration::from_original_label(&Id::ContentEncAlgo, "3DES"), Some(aes));
    assert_eq!(Enumeration::from_original_label(&Id::TrackType, "subtitle").unwrap().value, 17);
    assert_eq!(Enumeration::from_original_label(&Id::TrackType, "Subtitle"), None);
    assert_eq!(Enumeration::new(&Id::MatrixCoefficients, 3).unwrap().label(), "Reserved1");
    assert_eq!(Enumeration::new(&Id::TrackType, 4), None);
    assert_eq!(Enumeration::new(&Id::EbmlVersion, 1), None);
}

#[test]
fn test_find_valid_element() {
    assert_eq!(find_valid_element(&[]), Err(Error::ValidElementNotFound));
    assert_eq!(
        find_valid_element(&[1, 2, 3, 4, 5, 6, 7, 8, 9, 10]),
        Err(Error::ValidElementNotFound)
    );
}

#[test]
fn resync_takes_the_nearest_identifier() {
    // Tags at offset 5, Cluster at offset 1 (a later id in the list, earlier in the bytes).
    let input = [0x00, 0x1F, 0x43, 0xB6, 0x75, 0x12, 0x54, 0xC3, 0x67];
    let (rest, element) = find_valid_element(&input).unwrap();
    assert_eq!(rest, &input[1..]);
    assert_eq!(element.header, Header::new(Id::Corrupted, 0, 1));
    assert_eq!(element.body, Body::Binary(BinaryValue::Corrupted));
    let input = [0x12, 0x54, 0xC3, 0x67];
    assert_eq!(find_valid_element(&input).unwrap().0, &input[..]);
}

#[test]
fn scenario_corrupted_then_segment() {
    let input = [0x42, 0x87, 0x90, 0x01, 0x18, 0x53, 0x80, 0x67, 0xFF];
    let elements = mkvparser::driver::parse_elements(&input, false);
    assert_eq!(elements.len(), 2);
    assert_eq!(elements[0].header, Header::new(Id::Corrupted, 0, 4));
    assert_eq!(elements[0].body, Body::Binary(BinaryValue::Corrupted));
    assert_eq!(elements[1].header, Header::with_unknown_size(Id::Segment, 5));
    assert_eq!(elements[1].body, Body::Master);
}

#[test]
fn date_library_range_bounds() {
    assert!(chrono::DateTime::<chrono::Utc>::from_timestamp(8_210_266_876_799, 0).is_some());
    assert!(chrono::DateTime::<chrono::Utc>::from_timestamp(8_210_266_876_800, 0).is_none());
    assert!(chrono::DateTime::<chrono::Utc>::from_timestamp(-8_334_601_228_800, 0).is_some());
    assert!(chrono::DateTime::<chrono::Utc>::from_timestamp(-8_334_601_228_801, 0).is_none());
}
