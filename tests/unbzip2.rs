use std::io::Write;

use bzip2::write::BzEncoder;
use bzip2::Compression;
use chunk_streams::{
    decode_serially, unbzip2_chunk, unbzip2_create, unbzip2_finish, DecoderState, FailureKind,
    Unbzip2Stream,
};

fn compress(data: &[u8]) -> Vec<u8> {
    let mut enc = BzEncoder::new(Vec::new(), Compression::best());
    enc.write_all(data).unwrap();
    enc.finish().unwrap()
}

fn sample() -> Vec<u8> {
    let mut v = Vec::new();
    for i in 0..20_000u32 {
        v.extend(format!("line {} of the sample text\n", i * 7919 % 1000).into_bytes());
    }
    v
}

fn decode_in_chunks(compressed: &[u8], size: usize) -> Vec<u8> {
    let stream = unbzip2_create();
    let mut out = Vec::new();
    for c in compressed.chunks(size) {
        out.extend(unbzip2_chunk(stream.clone(), c.to_vec()).unwrap());
    }
    out.extend(unbzip2_finish(stream.clone()).unwrap());
    out
}

#[test]
fn decodes_whole_input() {
    let original = sample();
    let compressed = compress(&original);
    assert_eq!(decode_in_chunks(&compressed, compressed.len()), original);
}

#[test]
fn chunk_boundaries_do_not_matter() {
    let original = sample();
    let compressed = compress(&original);
    for size in [1usize, 7, 100, 4096] {
        assert_eq!(decode_in_chunks(&compressed, size), original);
    }
}

#[test]
fn decodes_short_text() {
    let compressed = compress(b"ab");
    assert_eq!(decode_in_chunks(&compressed, 3), b"ab".to_vec());
}

#[test]
fn decodes_empty_input() {
    let compressed = compress(b"");
    assert_eq!(decode_in_chunks(&compressed, 5), Vec::<u8>::new());
}

#[test]
fn second_finish_fails() {
    let compressed = compress(b"hello hello hello");
    let stream = Unbzip2Stream::new();
    unbzip2_chunk(stream.clone(), compressed).unwrap();
    unbzip2_finish(stream.clone()).unwrap();
    let err = unbzip2_finish(stream.clone()).unwrap_err();
    assert_eq!(err.kind(), FailureKind::AlreadyFinished);
    assert_eq!(stream.clone().output().unwrap(), Vec::<u8>::new());
}

#[test]
fn write_after_finish_fails() {
    let compressed = compress(b"abc");
    let stream = Unbzip2Stream::new();
    unbzip2_chunk(stream.clone(), compressed.clone()).unwrap();
    unbzip2_finish(stream.clone()).unwrap();
    let err = unbzip2_chunk(stream.clone(), compressed).unwrap_err();
    assert_eq!(err.kind(), FailureKind::AlreadyFinished);
}

#[test]
fn garbage_is_a_decoder_failure() {
    let stream = Unbzip2Stream::new();
    let err = unbzip2_chunk(stream.clone(), b"this is not bzip2 data at all".to_vec()).unwrap_err();
    assert_eq!(err.kind(), FailureKind::DecoderFailure);
    assert!(!err.message().is_empty());
}

#[test]
fn truncated_input_fails_at_finish() {
    let compressed = compress(&sample());
    let stream = Unbzip2Stream::new();
    unbzip2_chunk(stream.clone(), compressed[..compressed.len() / 2].to_vec()).unwrap();
    let err = unbzip2_finish(stream.clone()).unwrap_err();
    assert_eq!(err.kind(), FailureKind::DecoderFailure);
}

#[test]
fn decoder_state_walks_its_life() {
    let original = b"state machine text, state machine text".to_vec();
    let compressed = compress(&original);
    let mut s = DecoderState::new();
    assert_eq!(s.output(), Vec::<u8>::new());
    let mut out = Vec::new();
    for c in compressed.chunks(10) {
        s.write(c).unwrap();
        out.extend(s.output());
    }
    s.finish().unwrap();
    out.extend(s.output());
    assert_eq!(out, original);
    assert_eq!(s.output(), Vec::<u8>::new());
    assert_eq!(s.finish().unwrap_err().kind(), FailureKind::AlreadyFinished);
    assert_eq!(s.write(b"more").unwrap_err().kind(), FailureKind::AlreadyFinished);
}

#[test]
fn and_buffer_drains_on_success() {
    let compressed = compress(b"drained");
    let stream = Unbzip2Stream::new();
    let stream = stream.write(compressed).unwrap();
    let stream = stream.finish().unwrap();
    let out = Unbzip2Stream::and_buffer(Ok(stream.clone())).unwrap();
    assert_eq!(out, b"drained".to_vec());
    let err = Unbzip2Stream::and_buffer(Err(chunk_streams::Unbzip2Error::already_finished())).unwrap_err();
    assert_eq!(err.kind(), FailureKind::AlreadyFinished);
}

#[test]
fn serial_decode_matches_original() {
    let original = sample();
    let compressed = compress(&original);
    let chunks: Vec<Vec<u8>> = compressed.chunks(333).map(|c| c.to_vec()).collect();
    assert_eq!(decode_serially(&chunks).unwrap(), original);
    let uneven = vec![compressed[..1].to_vec(), vec![], compressed[1..].to_vec()];
    assert_eq!(decode_serially(&uneven).unwrap(), original);
}

#[test]
fn serial_decode_of_nothing_fails() {
    let err = decode_serially(&Vec::new()).unwrap_err();
    assert_eq!(err.kind(), FailureKind::DecoderFailure);
}

#[test]
fn serial_decode_rejects_garbage() {
    let err = decode_serially(&vec![vec![1, 2, 3, 4, 5, 6, 7, 8]]).unwrap_err();
    assert_eq!(err.kind(), FailureKind::DecoderFailure);
}

#[test]
fn trailing_bytes_after_the_stream_fail() {
    let mut data = compress(b"end");
    data.extend(b"tail");
    let err = decode_serially(&vec![data]).unwrap_err();
    assert_eq!(err.kind(), FailureKind::DecoderFailure);
}

#[test]
fn finished_decoder_state_refuses_second_finish() {
    let compressed = compress(b"once");
    let mut s = DecoderState::new();
    s.write(&compressed).unwrap();
    s.finish().unwrap();
    assert_eq!(s.output(), b"once".to_vec());
    let err = s.finish().unwrap_err();
    assert_eq!(err.kind(), FailureKind::AlreadyFinished);
    assert!(!err.message().is_empty());
    assert_eq!(s.output(), Vec::<u8>::new());
}

#[test]
fn decoder_failure_message_names_the_cause() {
    let mut s = DecoderState::new();
    let err = s.write(b"not a bzip2 stream").unwrap_err();
    let msg = err.message();
    assert!(msg.starts_with("bzip2 decoding failed: "));
    assert!(msg.len() > "bzip2 decoding failed: ".len());
}
