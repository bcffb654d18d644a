use mkvparser::ancestory::Ancestory;
use mkvparser::reader::{BufferReader, Reader};
use mkvparser::Id;
use mkvparser::status::{ErrorStatus, GeneralStatus, InternalStatus, Status};

#[test]
fn buffer_reader_assignment() {
    let mut buffer = [0u8; 4];
    let mut reader = BufferReader::new(vec![]);
    assert_eq!(reader.size(), 0);

    let mut status = reader.read(buffer.len().try_into().unwrap(), &mut buffer);
    assert_eq!(status, GeneralStatus::EndOfFile);

    reader = BufferReader::new(vec![1, 2, 3, 4]);
    assert_eq!(reader.size(), 4);

    status = reader.read(2.try_into().unwrap(), &mut buffer);
    assert_eq!(status, GeneralStatus::OkCompleted);

    reader = BufferReader::new(vec![5, 6, 7, 8]);
    status = reader.read(2.try_into().unwrap(), &mut buffer[2..]);
    assert_eq!(status, GeneralStatus::OkCompleted);

    let expected = [1, 2, 5, 6];
    assert_eq!(buffer, expected);
}

#[test]
fn empty() {
    let mut buffer = [0u8; 1];
    let mut reader = BufferReader::new(vec![]);

    let mut status = reader.read(buffer.len().try_into().unwrap(), &mut buffer);
    assert_eq!(status, GeneralStatus::EndOfFile);

    status = reader.skip(1.try_into().unwrap());
    assert_eq!(status, GeneralStatus::EndOfFile);
}

#[test]
fn read() {
    let mut buffer = [0u8; 15];
    let mut reader = BufferReader::new(Vec::from_iter(0..=9));

    let mut status = reader.read(5.try_into().unwrap(), &mut buffer);
    assert_eq!(status, GeneralStatus::OkCompleted);

    status = reader.read(10.try_into().unwrap(), &mut buffer[5..]);
    assert_eq!(status, GeneralStatus::OkPartial(5));

    let expected = [0, 1, 2, 3, 4, 5, 6, 7, 8, 9, 0, 0, 0, 0, 0];
    assert_eq!(buffer, expected);

    status = reader.read(buffer.len().try_into().unwrap(), &mut buffer);
    assert_eq!(status, GeneralStatus::EndOfFile);
}

#[test]
fn skip() {
    let mut reader = BufferReader::new(Vec::from_iter(0..=9));

    let mut status = reader.skip(3.try_into().unwrap());
    assert_eq!(status, GeneralStatus::OkCompleted);

    status = reader.skip(10.try_into().unwrap());
    assert_eq!(status, GeneralStatus::OkPartial(7));

    status = reader.skip(1.try_into().unwrap());
    assert_eq!(status, GeneralStatus::EndOfFile);
}

#[test]
fn read_and_skip() {
    let mut buffer = [0u8; 10];
    let mut reader = BufferReader::new(Vec::from_iter((0..=9).rev()));

    let mut status = reader.read(5.try_into().unwrap(), &mut buffer);
    assert_eq!(status, GeneralStatus::OkCompleted);

    status = reader.skip(3.try_into().unwrap());
    assert_eq!(status, GeneralStatus::OkCompleted);

    status = reader.read(5.try_into().unwrap(), &mut buffer[5..]);
    assert_eq!(status, GeneralStatus::OkPartial(2));

    let expected = [9, 8, 7, 6, 5, 1, 0, 0, 0, 0];
    assert_eq!(buffer, expected);
}

#[test]
fn position() {
    let mut buffer = [0u8; 10];
    let mut reader = BufferReader::new(Vec::from_iter((0..=9).rev()));

    let mut status = reader.read(5.try_into().unwrap(), &mut buffer);
    assert_eq!(status, GeneralStatus::OkCompleted);
    assert_eq!(reader.position(), 5);

    status = reader.skip(3.try_into().unwrap());
    assert_eq!(status, GeneralStatus::OkCompleted);
    assert_eq!(reader.position(), 8);

    status = reader.read(5.try_into().unwrap(), &mut buffer[5..]);
    assert_eq!(status, GeneralStatus::OkPartial(2));
    assert_eq!(reader.position(), 10);

    let expected = [9, 8, 7, 6, 5, 1, 0, 0, 0, 0];
    assert_eq!(buffer, expected);
}

#[test]
fn status_predicates() {
    let completed: Status = GeneralStatus::OkCompleted.into();
    assert!(completed.ok() && completed.completed_ok() && !completed.is_parsing_error());
    let partial: Status = GeneralStatus::OkPartial(3).into();
    assert!(partial.ok() && !partial.completed_ok());
    let eof: Status = GeneralStatus::EndOfFile.into();
    assert!(!eof.ok());
    let error: Status = ErrorStatus::InvalidElementId.into();
    assert!(error.is_parsing_error() && !error.ok());
    assert_eq!(error, ErrorStatus::InvalidElementId);
    let internal: Status = InternalStatus::SwitchToSkip.into();
    assert_eq!(internal, InternalStatus::SwitchToSkip);
    assert!(internal != GeneralStatus::OkCompleted);
}

#[test]
fn ancestry_of_elements() {
    let a = Ancestory::by_id(Id::BlockAddId).unwrap();
    assert_eq!(a.id(), Some(Id::Segment));
    let mut chain = vec![];
    let mut current = Some(a);
    while let Some(c) = current {
        if let Some(id) = c.id() {
            chain.push(id);
        }
        current = c.next();
    }
    assert_eq!(chain, vec![Id::Segment, Id::Cluster, Id::BlockGroup, Id::BlockAdditions, Id::BlockMore]);
    assert!(Ancestory::by_id(Id::Segment).unwrap().is_empty());
    assert!(Ancestory::by_id(Id::Void).is_none());
}
