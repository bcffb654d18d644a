use mkvparser::driver::{parse_elements, parse_short_or_corrupt, push_corrupt_element, ChunkedParser};
use mkvparser::stream::parse_elements_from_bytes;
use mkvparser::parse::parse_element;
use mkvparser::{BinaryValue, Body, Element, Error, Header, Id};

fn extent(e: &Element) -> usize {
    match e.body {
        Body::Master => e.header.header_size,
        _ => e.header.size.unwrap(),
    }
}

fn sample_stream() -> Vec<u8> {
    let mut data = vec![
        0x1A, 0x45, 0xDF, 0xA3, 0x9F, 0x42, 0x86, 0x81, 0x01, 0x42, 0xF7, 0x81, 0x01, 0x42, 0xF2,
        0x81, 0x04, 0x42, 0xF3, 0x81, 0x08, 0x42, 0x82, 0x84, 0x77, 0x65, 0x62, 0x6D, 0x42, 0x87,
        0x81, 0x04, 0x42, 0x85, 0x81, 0x02,
    ];
    // Segment of unknown size, a Cluster with a Timecode and a SimpleBlock of 70 bytes.
    data.extend_from_slice(&[0x18, 0x53, 0x80, 0x67, 0xFF]);
    data.extend_from_slice(&[0x1F, 0x43, 0xB6, 0x75, 0xFF]);
    data.extend_from_slice(&[0xE7, 0x81, 0x05]);
    data.extend_from_slice(&[0xA3, 0xC6, 0x81, 0x00, 0x10, 0x80]);
    data.extend_from_slice(&[0u8; 66]);
    // Damage, then a Tags element.
    data.extend_from_slice(&[0x00, 0x00, 0x07]);
    data.extend_from_slice(&[0x12, 0x54, 0xC3, 0x67, 0x80]);
    data
}

#[test]
fn sequential_corrupt_elements() {
    let mut elements = vec![];
    let example_element = Element {
        header: Header { id: Id::corrupted(), header_size: 0, body_size: Some(4), size: Some(4), position: None },
        body: Body::Binary(BinaryValue::Corrupted),
    };
    push_corrupt_element(&mut elements, example_element.clone()).unwrap();
    push_corrupt_element(&mut elements, example_element).unwrap();

    assert_eq!(elements.len(), 1);
    assert_eq!(
        elements[0],
        Element {
            header: Header { id: Id::corrupted(), header_size: 0, body_size: Some(8), size: Some(8), position: None },
            body: Body::Binary(BinaryValue::Corrupted),
        }
    )
}

#[test]
fn extents_partition_the_input() {
    let data = sample_stream();
    for buffer_size in [16usize, 64, 8192] {
        let elements = parse_elements_from_bytes(&data, buffer_size, true).unwrap();
        let total: usize = elements.iter().map(extent).sum();
        assert_eq!(total, data.len(), "buffer size {}", buffer_size);
        let mut offset = 0;
        for e in &elements {
            assert_eq!(e.header.position, Some(offset));
            offset += extent(e);
        }
    }
}

#[test]
fn chunked_driver_finds_every_element() {
    let data = sample_stream();
    let elements = parse_elements_from_bytes(&data, 8192, false).unwrap();
    let ids: Vec<Id> = elements.iter().map(|e| e.header.id).collect();
    assert_eq!(
        ids,
        vec![
            Id::Ebml,
            Id::EbmlVersion,
            Id::EbmlReadVersion,
            Id::EbmlMaxIdLength,
            Id::EbmlMaxSizeLength,
            Id::DocType,
            Id::DocTypeVersion,
            Id::DocTypeReadVersion,
            Id::Segment,
            Id::Cluster,
            Id::Timecode,
            Id::SimpleBlock,
            Id::Corrupted,
            Id::Tags,
        ]
    );
    assert_eq!(elements[12].header.body_size, Some(3));
    assert!(elements.iter().all(|e| e.header.position.is_none()));
    // A small buffer skips the block body in the stream and gives the same elements.
    let small = parse_elements_from_bytes(&data, 16, false).unwrap();
    assert_eq!(small, elements);
}

#[test]
fn positions_point_at_the_elements() {
    let data = sample_stream();
    for elements in [parse_elements(&data, true), parse_elements_from_bytes(&data, 32, true).unwrap()] {
        for element in &elements {
            if element.header.id == Id::Corrupted {
                continue;
            }
            let p = element.header.position.unwrap();
            let (_, again) = parse_element(&data[p..]).unwrap();
            assert_eq!(again.header.id, element.header.id);
        }
    }
}

#[test]
fn corrupted_regions_are_merged() {
    // Damage, a Segment identifier with a broken size, more damage, then a Segment.
    let mut data = vec![0x42, 0x87, 0x90, 0x01];
    data.extend_from_slice(&[0x18, 0x53, 0x80, 0x67, 0x00, 0x55, 0x55]);
    data.extend_from_slice(&[0x18, 0x53, 0x80, 0x67, 0x80]);
    let elements = parse_elements_from_bytes(&data, 8192, false).unwrap();
    for pair in elements.windows(2) {
        assert!(!(pair[0].header.id == Id::Corrupted && pair[1].header.id == Id::Corrupted));
    }
    assert_eq!(elements.len(), 2);
    assert_eq!(elements[0].header, Header::new(Id::Corrupted, 0, 11));
    assert_eq!(elements[1].header.id, Id::Segment);
}

#[test]
fn trailing_bytes_become_a_corrupted_element() {
    let data = [0x42, 0x86, 0x81, 0x01, 0x42, 0x86];
    let elements = parse_elements_from_bytes(&data, 8192, false).unwrap();
    assert_eq!(elements.len(), 2);
    assert_eq!(elements[1].header, Header::new(Id::Corrupted, 0, 2));
}

#[test]
fn binary_body_past_the_end() {
    // A Void that claims 16 bytes of which 2 are present.
    let data = [0xEC, 0x90, 0x00, 0x00];
    let elements = parse_elements_from_bytes(&data, 8192, false).unwrap();
    assert_eq!(elements.len(), 1);
    assert_eq!(elements[0].body, Body::Binary(BinaryValue::Void));
    assert_eq!(extent(&elements[0]), 18);
}

#[test]
fn bail_when_element_does_not_fit() {
    // A string element of 40 bytes cannot fit in a buffer of 16 bytes.
    let mut data = vec![0x42, 0x82, 0xA8];
    data.extend_from_slice(&[0x61; 40]);
    assert_eq!(parse_elements_from_bytes(&data, 16, false), Err(Error::OutOfBufferSpace));
}

#[test]
fn bail_when_corrupt_for_longer_than_buffer() {
    let mut data = vec![0x42, 0x87, 0x90, 0x01];
    data.extend_from_slice(&[0x55; 100]);
    assert_eq!(parse_elements_from_bytes(&data, 16, false), Err(Error::OutOfBufferSpace));
}

#[test]
fn driver_by_hand() {
    let data = sample_stream();
    let mut parser = ChunkedParser::new(64, false);
    let mut cursor = 0usize;
    while !parser.is_finished() {
        let n = parser.space().min(data.len() - cursor);
        let skip = parser.feed(&data[cursor..cursor + n]).unwrap();
        cursor = (cursor + n + skip).min(data.len());
    }
    assert_eq!(parser.into_elements().len(), 14);
}

#[test]
fn failed_decode_scans_the_same_input() {
    // A Cluster identifier followed by an invalid size.
    let input = [0x1F, 0x43, 0xB6, 0x75, 0x00];
    let mut corrupt = false;
    let (rest, parsed) = parse_short_or_corrupt(&input, &mut corrupt).unwrap();
    assert_eq!(rest, &input[..]);
    assert_eq!(parsed.element.header, Header::new(Id::Corrupted, 0, 0));
    assert!(!corrupt);
    // The drivers step past the failed element's first byte.
    let elements = parse_elements_from_bytes(&input, 8192, false).unwrap();
    assert_eq!(elements.len(), 1);
    assert_eq!(elements[0].header, Header::new(Id::Corrupted, 0, 5));
    let elements = parse_elements(&[0x1F, 0x43, 0xB6, 0x75, 0x00, 0x1F, 0x43, 0xB6, 0x75, 0x80], false);
    assert_eq!(elements.len(), 2);
    assert_eq!(elements[0].header, Header::new(Id::Corrupted, 0, 5));
    assert_eq!(elements[1].header, Header::new(Id::Cluster, 5, 0));
}

#[test]
fn chunk_that_fits_is_decoded() {
    let data = sample_stream();
    let mut parser = ChunkedParser::new(8192, false);
    assert_eq!(parser.feed(&data[..36]), Ok(0));
    assert_eq!(parser.into_elements().len(), 8);
}
