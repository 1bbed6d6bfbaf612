use wail::stream::{InputStreamReader, ReadError, StreamOutcome};

#[test]
fn chunk_goes_to_the_front_of_the_buffer() {
    let mut buffer = [9u8; 5];
    let read = InputStreamReader::deliver(&mut buffer, StreamOutcome::Chunk(vec![1, 2, 3]));
    assert!(matches!(read, Ok(3)));
    assert_eq!(buffer, [1, 2, 3, 9, 9]);
    let read = InputStreamReader::deliver(&mut buffer, StreamOutcome::Chunk(vec![]));
    assert!(matches!(read, Ok(0)));
    assert_eq!(buffer, [1, 2, 3, 9, 9]);
    let read =
        InputStreamReader::deliver(&mut buffer, StreamOutcome::Chunk(vec![5, 5, 5, 5, 5]));
    assert!(matches!(read, Ok(5)));
    assert_eq!(buffer, [5; 5]);
}

#[test]
fn chunk_that_is_too_long_is_an_error() {
    let mut buffer = [9u8; 2];
    let read = InputStreamReader::deliver(&mut buffer, StreamOutcome::Chunk(vec![1, 2, 3]));
    assert!(matches!(read, Err(ReadError::TooManyBytes)));
    assert_eq!(buffer, [9, 9]);
}

#[test]
fn closed_stream_reads_nothing() {
    let mut buffer = [9u8; 2];
    assert!(matches!(InputStreamReader::deliver(&mut buffer, StreamOutcome::Closed), Ok(0)));
    let failed = InputStreamReader::deliver(&mut buffer, StreamOutcome::Failed("gone".into()));
    assert!(matches!(failed, Err(ReadError::Failed(reason)) if reason == "gone"));
    assert_eq!(buffer, [9, 9]);
    assert_eq!(InputStreamReader::request(17), 17);
}
