use conformity::framing::{to_bytes, to_bytes_alloc, try_to_bytes, FeedResult, FrameAccumulator};

#[test]
fn to_bytes_matches_known_frame() {
    let frame = to_bytes(&[0x04, 0x01, 0x00, 0x20, 0x30]);
    assert_eq!(frame.as_slice(), &[0x03, 0x04, 0x01, 0x03, 0x20, 0x30, 0x00]);
}

#[test]
fn to_bytes_alloc_gives_same_frame() {
    assert_eq!(to_bytes_alloc(&[0x04, 0x01, 0x00, 0x20, 0x30]), vec![0x03, 0x04, 0x01, 0x03, 0x20, 0x30, 0x00]);
    assert_eq!(to_bytes_alloc(&[]), vec![0x01, 0x00]);
    assert_eq!(to_bytes_alloc(&[0x00]), vec![0x01, 0x01, 0x00]);
}

#[test]
fn try_to_bytes_bounds() {
    assert!(try_to_bytes(&[7u8; 125]).is_some());
    assert!(try_to_bytes(&[7u8; 126]).is_some());
    assert!(try_to_bytes(&[7u8; 127]).is_none());
    assert!(try_to_bytes(&[7u8; 200]).is_none());
}

#[test]
fn accumulator_single_frame() {
    let mut acc = FrameAccumulator::new();
    let frame = to_bytes_alloc(&[1, 0, 2, 3]);
    assert_eq!(acc.feed(&frame), FeedResult::Success { data: vec![1, 0, 2, 3], remaining: frame.len() });
}

#[test]
fn accumulator_empty_input_consumed() {
    let mut acc = FrameAccumulator::new();
    assert_eq!(acc.feed(&[]), FeedResult::Consumed);
}

#[test]
fn accumulator_frame_split_across_chunks() {
    let mut acc = FrameAccumulator::new();
    let frame = to_bytes_alloc(&[9, 8, 7, 0, 6]);
    let (a, b) = frame.split_at(3);
    assert_eq!(acc.feed(a), FeedResult::Consumed);
    assert_eq!(acc.feed(b), FeedResult::Success { data: vec![9, 8, 7, 0, 6], remaining: b.len() });
}

#[test]
fn accumulator_two_frames_in_one_chunk() {
    let mut acc = FrameAccumulator::new();
    let mut stream = to_bytes_alloc(&[10, 20]);
    stream.extend(to_bytes_alloc(&[0, 0, 30]));
    assert_eq!(acc.feed_all(&stream), vec![vec![10, 20], vec![0, 0, 30]]);
}

#[test]
fn accumulator_decode_error() {
    let mut acc = FrameAccumulator::new();
    assert_eq!(acc.feed(&[0x05, 0x01, 0x00, 0x09]), FeedResult::DecodeError(3));
}

#[test]
fn accumulator_overfull_without_sentinel() {
    let mut acc = FrameAccumulator::new();
    let long = vec![7u8; 300];
    assert_eq!(acc.feed(&long), FeedResult::OverFull(256));
}

#[test]
fn accumulator_overfull_with_sentinel() {
    let mut acc = FrameAccumulator::new();
    assert_eq!(acc.feed(&[7u8; 200]), FeedResult::Consumed);
    let mut tail = vec![7u8; 100];
    tail.push(0);
    tail.push(0x55);
    assert_eq!(acc.feed(&tail), FeedResult::OverFull(101));
    // The accumulator starts afresh after an overflow.
    let frame = to_bytes_alloc(&[4]);
    assert_eq!(acc.feed(&frame), FeedResult::Success { data: vec![4], remaining: frame.len() });
}

#[test]
fn accumulator_full_buffer_then_more() {
    let mut acc = FrameAccumulator::new();
    assert_eq!(acc.feed(&[7u8; 256]), FeedResult::Consumed);
    assert_eq!(acc.feed(&[7u8; 3]), FeedResult::OverFull(0));
    assert_eq!(acc.feed(&[0x02, 0x2a, 0x00]), FeedResult::Success { data: vec![0x2a], remaining: 3 });
}

#[test]
fn feed_all_skips_bad_frames() {
    let mut acc = FrameAccumulator::new();
    let mut stream = vec![0x05, 0x01, 0x00];
    stream.extend(to_bytes_alloc(&[1, 2, 3]));
    stream.extend([0x02, 0x11]);
    assert_eq!(acc.feed_all(&stream), vec![vec![1, 2, 3]]);
    // The unfinished frame completes with the next chunk.
    assert_eq!(acc.feed_all(&[0x00]), vec![vec![0x11]]);
}

#[test]
fn single_frame_round_trip() {
    let frame = to_bytes_alloc(&[5]);
    assert_eq!(frame, vec![2, 5, 0]);
    let mut acc = FrameAccumulator::new();
    assert_eq!(acc.feed_all(&frame), vec![vec![5u8]]);
}

#[test]
fn frames_survive_any_chunking() {
    let payloads: Vec<Vec<u8>> = vec![vec![5], vec![0, 0, 1], (1..=250).collect(), vec![], vec![7; 20]];
    let stream: Vec<u8> = payloads.iter().flat_map(|p| to_bytes_alloc(p)).collect();
    for size in [1, 2, 3, 7, 64, stream.len()] {
        let mut acc = FrameAccumulator::new();
        let mut out = Vec::new();
        for chunk in stream.chunks(size) {
            out.extend(acc.feed_all(chunk));
        }
        assert_eq!(out, payloads);
    }
}

#[test]
fn bad_frames_do_not_harm_later_ones() {
    let mut stream: Vec<u8> = to_bytes_alloc(&[1, 2]);
    stream.extend([5u8, 1, 0]); // does not decode
    stream.extend(to_bytes_alloc(&[3]));
    stream.extend(vec![9u8; 300]); // too long for the accumulator
    stream.push(0);
    stream.extend(to_bytes_alloc(&[0, 4]));
    let mut acc = FrameAccumulator::new();
    assert_eq!(acc.feed_all(&stream), vec![vec![1, 2], vec![3], vec![0, 4]]);
}
