use mkvparser::parse::parse_header;
use mkvparser::vint::{count_leading_zero_bits, parse_id, parse_varint};
use mkvparser::{Error, Header, Id};

const EMPTY: &[u8] = &[];
const UNKNOWN_VARINT: &[u8] = &[0x01, 0xff, 0xff, 0xff, 0xff, 0xff, 0xff, 0xff];

#[test]
fn lib_test_count_leading_zero_bits() {
    assert_eq!(count_leading_zero_bits(0b10000000), 0);
    assert_eq!(count_leading_zero_bits(0b01000000), 1);
    assert_eq!(count_leading_zero_bits(0b00000001), 7);
    assert_eq!(count_leading_zero_bits(0b00000000), 8);
}

#[test]
fn id_test_count_leading_zero_bits() {
    assert_eq!(count_leading_zero_bits(0b10000000), 0);
    assert_eq!(count_leading_zero_bits(0b01000000), 1);
    assert_eq!(count_leading_zero_bits(0b00000001), 7);
    assert_eq!(count_leading_zero_bits(0b00000000), 8);
}

#[test]
fn lib_test_parse_id() {
    assert_eq!(parse_id(&[0x1A, 0x45, 0xDF, 0xA3]), Ok((EMPTY, Id::Ebml)));
    assert_eq!(parse_id(&[0x42, 0x86]), Ok((EMPTY, Id::EbmlVersion)));
    assert_eq!(parse_id(&[0x23, 0x83, 0xE3]), Ok((EMPTY, Id::FrameRate)));

    // 1 byte missing from FrameRate (3-bytes long)
    assert_eq!(parse_id(&[0x23, 0x83]), Err(Error::NeedData));

    // Longer than 4 bytes
    const FAILURE_INPUT: &[u8] = &[0x08, 0x45, 0xDF, 0xA3];
    assert_eq!(parse_id(FAILURE_INPUT), Err(Error::InvalidId));

    // Unknown ID
    let (remaining, id) = parse_id(&[0x19, 0xAB, 0xCD, 0xEF]).unwrap();
    assert_eq!((remaining, &id), (EMPTY, &Id::Unknown(0x19ABCDEF)));
    assert_eq!(id.to_name_string(), "0x19ABCDEF");
    assert_eq!(id.get_value().unwrap(), 0x19ABCDEF);
}

#[test]
fn id_test_parse_id() {
    assert_eq!(parse_id(&[0x1A, 0x45, 0xDF, 0xA3]), Ok((EMPTY, Id::Ebml)));
    assert_eq!(parse_id(&[0x42, 0x86]), Ok((EMPTY, Id::EbmlVersion)));
    assert_eq!(parse_id(&[0x23, 0x83, 0xE3]), Ok((EMPTY, Id::FrameRate)));
    assert_eq!(parse_id(&[0x23, 0x83]), Err(Error::NeedData));
    const FAILURE_INPUT: &[u8] = &[0x08, 0x45, 0xDF, 0xA3];
    assert_eq!(parse_id(FAILURE_INPUT), Err(Error::InvalidId));
}

#[test]
fn lib_test_parse_varint() {
    assert_eq!(parse_varint(&[0x9F]), Ok((EMPTY, Some(31))));
    assert_eq!(parse_varint(&[0x81]), Ok((EMPTY, Some(1))));
    assert_eq!(parse_varint(&[0x53, 0xAC]), Ok((EMPTY, Some(5036))));

    const INVALID_VARINT: &[u8] = &[0x00, 0xAC];
    assert_eq!(parse_varint(INVALID_VARINT), Err(Error::InvalidVarint));

    assert_eq!(parse_varint(UNKNOWN_VARINT), Ok((EMPTY, None)));
}

#[test]
fn varint_test_parse_varint() {
    assert_eq!(parse_varint(&[0x9F]), Ok((EMPTY, Some(31))));
    assert_eq!(parse_varint(&[0x81]), Ok((EMPTY, Some(1))));
    assert_eq!(parse_varint(&[0x53, 0xAC]), Ok((EMPTY, Some(5036))));
    const INVALID_VARINT: &[u8] = &[0x00, 0xAC];
    assert_eq!(parse_varint(INVALID_VARINT), Err(Error::InvalidVarint));
}

#[test]
fn test_parse_element_header() {
    const INPUT: &[u8] = &[0x1A, 0x45, 0xDF, 0xA3, 0x9F];
    assert_eq!(parse_header(INPUT), Ok((EMPTY, Header::new(Id::Ebml, 5, 31))));
}

#[test]
fn varint_width_one_and_eight() {
    assert_eq!(parse_varint(&[0x80]), Ok((EMPTY, Some(0))));
    assert_eq!(parse_varint(&[0xFE, 0x42]), Ok((&[0x42u8][..], Some(126))));
    let eight = [0x01, 0x00, 0x00, 0x00, 0x00, 0x00, 0x01, 0x02];
    assert_eq!(parse_varint(&eight), Ok((EMPTY, Some(0x0102))));
    let big = [0x01, 0xFF, 0xFF, 0xFF, 0xFF, 0xFF, 0xFF, 0xFE];
    assert_eq!(parse_varint(&big), Ok((EMPTY, Some(0x00FF_FFFF_FFFF_FFFE))));
}

#[test]
fn varint_all_ones_is_unknown() {
    assert_eq!(parse_varint(&[0xFF]), Ok((EMPTY, None)));
    assert_eq!(parse_varint(&[0x7F, 0xFF]), Ok((EMPTY, None)));
    assert_eq!(parse_varint(UNKNOWN_VARINT), Ok((EMPTY, None)));
}

#[test]
fn varint_width_zero_fails() {
    assert_eq!(parse_varint(&[0x00]), Err(Error::InvalidVarint));
    assert_eq!(parse_varint(&[0x00, 0xFF, 0xFF]), Err(Error::InvalidVarint));
}

#[test]
fn varint_truncated_and_empty() {
    assert_eq!(parse_varint(EMPTY), Err(Error::NeedData));
    assert_eq!(parse_varint(&[0x40]), Err(Error::NeedData));
    assert_eq!(parse_varint(&[0x01, 0x00, 0x00]), Err(Error::NeedData));
}

#[test]
fn id_width_one_and_four() {
    assert_eq!(parse_id(&[0xEC]), Ok((EMPTY, Id::Void)));
    assert_eq!(parse_id(&[0xBF, 0x00]), Ok((&[0x00u8][..], Id::Crc32)));
    assert_eq!(parse_id(&[0x18, 0x53, 0x80, 0x67]), Ok((EMPTY, Id::Segment)));
    assert_eq!(parse_id(&[0x10, 0x00, 0x00, 0x01]), Ok((EMPTY, Id::Unknown(0x1000_0001))));
}

#[test]
fn id_width_five_fails() {
    assert_eq!(parse_id(&[0x08, 0x00, 0x00, 0x00, 0x01]), Err(Error::InvalidId));
    assert_eq!(parse_id(&[0x00]), Err(Error::InvalidId));
    assert_eq!(parse_id(EMPTY), Err(Error::NeedData));
}

#[test]
fn unknown_size_allowed_on_segment_and_cluster_only() {
    assert_eq!(
        parse_header(&[0x18, 0x53, 0x80, 0x67, 0xFF]),
        Ok((EMPTY, Header::with_unknown_size(Id::Segment, 5)))
    );
    assert_eq!(
        parse_header(&[0x1F, 0x43, 0xB6, 0x75, 0x01, 0xFF, 0xFF, 0xFF, 0xFF, 0xFF, 0xFF, 0xFF]),
        Ok((EMPTY, Header::with_unknown_size(Id::Cluster, 12)))
    );
    assert_eq!(
        parse_header(&[0x16, 0x54, 0xAE, 0x6B, 0xFF]),
        Err(Error::ForbiddenUnknownSize)
    );
    assert_eq!(parse_header(&[0x1A, 0x45, 0xDF, 0xA3, 0xFF]), Err(Error::ForbiddenUnknownSize));
}

#[test]
fn catalog_round_trip() {
    assert_eq!(Id::new(0x1A45DFA3), Id::Ebml);
    assert_eq!(Id::Ebml.get_value(), Some(0x1A45DFA3));
    assert_eq!(Id::corrupted().get_value(), None);
    assert_eq!(Id::Ebml.to_name_string(), "EBML");
    assert_eq!(Id::Crc32.to_name_string(), "CRC-32");
    assert_eq!(Id::Corrupted.to_name_string(), "Corrupted");
    assert_eq!(Id::Unknown(0xAB).to_name_string(), "0xAB");
    assert!(Id::Cluster.can_be_children_of(&Id::Segment));
    assert!(!Id::Cluster.can_be_children_of(&Id::Cluster));
    assert!(!Id::Ebml.can_be_children_of(&Id::Segment));
    assert!(Id::SimpleBlock.can_be_children_of(&Id::Cluster));
}
