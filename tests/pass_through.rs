use chunk_streams::{
    create_pass_through_stream, handle_pass_through_stream_chunk, pass_through_serially, FailureKind,
    PassThroughBuffer, PassThroughStream,
};

#[test]
fn chunks_come_back_one_at_a_time() {
    let stream = create_pass_through_stream();
    let first = handle_pass_through_stream_chunk(stream.clone(), b"ab".to_vec()).unwrap();
    assert_eq!(first, b"ab".to_vec());
    let second = handle_pass_through_stream_chunk(stream.clone(), b"cd".to_vec()).unwrap();
    assert_eq!(second, b"cd".to_vec());
}

#[test]
fn serial_chunks_round_trip() {
    let stream = PassThroughStream::new();
    let chunks: Vec<Vec<u8>> = vec![b"hello".to_vec(), vec![], vec![0, 255, 128, 7], b" world".to_vec()];
    let mut all_out = Vec::new();
    for c in &chunks {
        let out = handle_pass_through_stream_chunk(stream.clone(), c.clone()).unwrap();
        all_out.extend(out);
    }
    assert_eq!(all_out, chunks.concat());
}

#[test]
fn writes_accumulate_until_drained() {
    let stream = PassThroughStream::new();
    let stream = stream.write(b"ab".to_vec()).unwrap();
    let stream = stream.write(b"cd".to_vec()).unwrap();
    assert_eq!(stream.clone().output().unwrap(), b"abcd".to_vec());
}

#[test]
fn second_drain_is_empty() {
    let stream = PassThroughStream::new();
    let stream = stream.write(b"xyz".to_vec()).unwrap();
    assert_eq!(stream.clone().output().unwrap(), b"xyz".to_vec());
    assert_eq!(stream.clone().output().unwrap(), Vec::<u8>::new());
}

#[test]
fn binary_payload_is_opaque() {
    let data: Vec<u8> = (0..=255u8).collect();
    let stream = PassThroughStream::new();
    let out = handle_pass_through_stream_chunk(stream, data.clone()).unwrap();
    assert_eq!(out, data);
}

#[test]
fn and_buffer_passes_errors_on() {
    let err = chunk_streams::PassThroughError::contention();
    let r = PassThroughStream::and_buffer(Err(err));
    let e = r.unwrap_err();
    assert_eq!(e.kind(), FailureKind::LockContention);
    assert!(!e.message().is_empty());
}

#[test]
fn buffer_appends_and_drains() {
    let mut b = PassThroughBuffer::new();
    b.write(b"12");
    b.write(b"");
    b.write(b"345");
    assert_eq!(b.output(), b"12345".to_vec());
    assert_eq!(b.output(), Vec::<u8>::new());
    b.write(b"6");
    assert_eq!(b.output(), b"6".to_vec());
}

#[test]
fn interleaved_writes_and_drains_keep_every_byte() {
    let stream = PassThroughStream::new();
    let mut all_out = Vec::new();
    all_out.extend(stream.clone().output().unwrap());
    let s = stream.clone().write(b"a".to_vec()).unwrap();
    let s = s.write(b"bc".to_vec()).unwrap();
    all_out.extend(s.clone().output().unwrap());
    all_out.extend(s.clone().output().unwrap());
    let s = s.write(b"d".to_vec()).unwrap();
    all_out.extend(s.output().unwrap());
    assert_eq!(all_out, b"abcd".to_vec());
}

#[test]
fn serial_run_gives_back_all_chunks() {
    let chunks: Vec<Vec<u8>> = vec![b"ab".to_vec(), vec![], b"cd".to_vec(), vec![0, 255]];
    assert_eq!(pass_through_serially(&chunks), vec![b'a', b'b', b'c', b'd', 0, 255]);
    assert_eq!(pass_through_serially(&Vec::new()), Vec::<u8>::new());
}
