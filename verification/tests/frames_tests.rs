use isekai::frames::{encode_frame, encode_varint, FrameDecoder, FrameError};

fn decode_all(decoder: &mut FrameDecoder) -> Vec<Vec<u8>> {
    let mut out = Vec::new();
    while let Ok(Some(frame)) = decoder.next_frame() {
        out.push(frame);
    }
    out
}

#[test]
fn round_trip_single_chunk() {
    let frames: Vec<Vec<u8>> = vec![vec![1, 2, 3], vec![], vec![9; 300]];
    let mut wire = Vec::new();
    for f in &frames {
        wire.extend_from_slice(&encode_frame(f));
    }
    let mut d = FrameDecoder::new();
    d.push_bytes(&wire);
    assert_eq!(decode_all(&mut d), frames);
    assert!(matches!(d.next_frame(), Ok(None)));
}

#[test]
fn chunking_does_not_change_the_frames() {
    let frames: Vec<Vec<u8>> = vec![vec![0xAB; 200], vec![1], vec![], vec![7, 8]];
    let mut wire = Vec::new();
    for f in &frames {
        wire.extend_from_slice(&encode_frame(f));
    }

    // Fed a byte at a time.
    let mut trickled = FrameDecoder::new();
    let mut got_trickled = Vec::new();
    for b in &wire {
        trickled.push_bytes(&vec![*b]);
        while let Ok(Some(frame)) = trickled.next_frame() {
            got_trickled.push(frame);
        }
    }

    // Fed in one chunk.
    let mut whole = FrameDecoder::new();
    whole.push_bytes(&wire);
    let got_whole = decode_all(&mut whole);

    assert_eq!(got_trickled, frames);
    assert_eq!(got_whole, frames);
}

#[test]
fn partial_frames_stay_buffered() {
    let payload = vec![5u8; 50];
    let wire = encode_frame(&payload);
    let mut d = FrameDecoder::new();
    d.push_bytes(&wire[..10].to_vec());
    assert!(matches!(d.next_frame(), Ok(None)));
    d.push_bytes(&wire[10..].to_vec());
    assert_eq!(d.next_frame().unwrap().unwrap(), payload);
}

#[test]
fn delimiter_matches_protobuf_encoding() {
    for n in [0u64, 1, 127, 128, 300, 16383, 16384, 1 << 20, u32::MAX as u64] {
        let mine = encode_varint(n);
        let mut theirs = Vec::new();
        prost::encode_length_delimiter(n as usize, &mut theirs).unwrap();
        assert_eq!(mine, theirs, "delimiter mismatch for {}", n);
    }
}

#[test]
fn prost_decodes_our_frames() {
    let payload = b"hello frame".to_vec();
    let wire = encode_frame(&payload);
    let len = prost::decode_length_delimiter(&wire[..]).unwrap();
    assert_eq!(len, payload.len());
    let dl = prost::length_delimiter_len(len);
    assert_eq!(&wire[dl..], &payload[..]);
}

#[test]
fn corrupt_delimiter_is_an_error() {
    let mut d = FrameDecoder::new();
    d.push_bytes(&vec![0x80u8; 11]);
    assert!(matches!(d.next_frame(), Err(FrameError::InvalidDelimiter)));
}

#[test]
fn oversized_delimiter_value_is_an_error() {
    // Ten bytes whose tenth digit pushes the value past two to the sixty-fourth.
    let mut bytes = vec![0xFFu8; 9];
    bytes.push(0x02);
    let mut d = FrameDecoder::new();
    d.push_bytes(&bytes);
    assert!(matches!(d.next_frame(), Err(FrameError::InvalidDelimiter)));
}
