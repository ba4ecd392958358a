use paperd::endian::ByteOrder;
use paperd::paging::{copy_range, frame_message};
use paperd::reassembly::{reassemble, Reassembly};
use paperd::wire::WireMessage;

fn sample(len: usize) -> Vec<u8> {
    (0..len).map(|i| (i % 251) as u8).collect()
}

fn expected_count(len: usize) -> usize {
    if len == 0 {
        1
    } else {
        (len + 99) / 100
    }
}

#[test]
fn round_trip_for_the_named_lengths() {
    for len in [0usize, 1, 99, 100, 101, 250, 1000] {
        let payload = sample(len);
        let frames = frame_message(&payload, 1, -1, 42);
        assert_eq!(frames.len(), expected_count(len));
        assert_eq!(reassemble(&frames), Reassembly::Done(payload.clone()));
        assert_eq!(reassemble(&frames).into_payload(), Some(payload));
    }
}

#[test]
fn segment_counts() {
    assert_eq!(frame_message(&sample(0), 1, -1, 1).len(), 1);
    assert_eq!(frame_message(&sample(1), 1, -1, 1).len(), 1);
    assert_eq!(frame_message(&sample(99), 1, -1, 1).len(), 1);
    assert_eq!(frame_message(&sample(100), 1, -1, 1).len(), 1);
    assert_eq!(frame_message(&sample(101), 1, -1, 1).len(), 2);
    assert_eq!(frame_message(&sample(200), 1, -1, 1).len(), 2);
    assert_eq!(frame_message(&sample(250), 1, -1, 1).len(), 3);
    assert_eq!(frame_message(&sample(1000), 1, -1, 1).len(), 10);
    assert_eq!(frame_message(&sample(1001), 1, -1, 1).len(), 11);
}

#[test]
fn round_trip_through_the_bytes_on_the_wire() {
    for order in [ByteOrder::Little, ByteOrder::Big] {
        for len in [0usize, 1, 99, 100, 101, 250, 1000] {
            let payload = sample(len);
            let frames = frame_message(&payload, -3, 77, 4_000_000_000);
            let received: Vec<WireMessage> = frames
                .iter()
                .map(|frame| WireMessage::decode(&frame.encode(order), order).unwrap())
                .collect();
            assert_eq!(received, frames);
            assert_eq!(reassemble(&received).into_payload(), Some(payload));
        }
    }
}

#[test]
fn only_the_last_segment_is_final() {
    for len in [0usize, 1, 100, 101, 250, 300, 1000] {
        let frames = frame_message(&sample(len), 1, -1, 42);
        let last = frames.len() - 1;
        for (i, frame) in frames.iter().enumerate() {
            assert_eq!(frame.is_final(), i == last);
            assert!(frame.segment_length() <= 100);
            assert!(frame.segment_length_and_flag() & 0x7f <= 100);
            if i != last {
                assert_eq!(frame.segment_length(), 100);
                assert_eq!(frame.segment_length_and_flag(), 100);
            }
        }
    }
}

#[test]
fn empty_payload_is_one_empty_final_segment() {
    let frames = frame_message(&[], 5, -1, 42);
    assert_eq!(frames.len(), 1);
    assert!(frames[0].is_final());
    assert_eq!(frames[0].segment_length(), 0);
    assert_eq!(frames[0].segment_length_and_flag(), 0x80);
    assert_eq!(reassemble(&frames), Reassembly::Done(vec![]));
}

#[test]
fn oversized_payload_travels_in_three_segments() {
    let payload = sample(250);
    let frames = frame_message(&payload, 2, 9, 42);
    assert_eq!(frames.len(), 3);
    assert_eq!(frames[0].segment_length(), 100);
    assert_eq!(frames[1].segment_length(), 100);
    assert_eq!(frames[2].segment_length(), 50);
    assert!(!frames[0].is_final());
    assert!(!frames[1].is_final());
    assert!(frames[2].is_final());
    assert_eq!(frames[0].payload(), &payload[0..100]);
    assert_eq!(frames[1].payload(), &payload[100..200]);
    assert_eq!(frames[2].payload(), &payload[200..250]);
    assert_eq!(reassemble(&frames).into_payload(), Some(payload));
}

#[test]
fn every_segment_carries_the_routing() {
    let frames = frame_message(&sample(250), -7, 123, 456);
    for frame in &frames {
        assert_eq!(frame.application_message_type(), -7);
        assert_eq!(frame.reply_queue_id(), 123);
        assert_eq!(frame.sender_process_id(), 456);
        assert!(frame.expects_reply());
    }
    let silent = frame_message(&sample(3), 1, -1, 456);
    assert!(!silent[0].expects_reply());
}

#[test]
fn copy_range_takes_the_bytes_between() {
    let bytes = sample(10);
    assert_eq!(copy_range(&bytes, 0, 10), bytes);
    assert_eq!(copy_range(&bytes, 3, 6), vec![3, 4, 5]);
    assert_eq!(copy_range(&bytes, 4, 4), Vec::<u8>::new());
}

#[test]
fn reassembly_step_by_step() {
    let first = WireMessage::new(-1, 1, 1, false, vec![1, 2]).unwrap();
    let second = WireMessage::new(-1, 1, 1, true, vec![3]).unwrap();
    let third = WireMessage::new(-1, 1, 1, true, vec![4]).unwrap();
    let state = Reassembly::new();
    assert_eq!(state, Reassembly::Collecting(vec![]));
    assert!(!state.is_done());
    let state = state.step(&first);
    assert_eq!(state, Reassembly::Collecting(vec![1, 2]));
    assert!(!state.is_done());
    let state = state.step(&second);
    assert_eq!(state, Reassembly::Done(vec![1, 2, 3]));
    assert!(state.is_done());
    let state = state.step(&third);
    assert_eq!(state, Reassembly::Done(vec![1, 2, 3]));
}

#[test]
fn missing_final_segment_is_incomplete() {
    let frames = frame_message(&sample(250), 1, -1, 42);
    assert_eq!(reassemble(&frames[..2]), Reassembly::Collecting(sample(200)));
    assert_eq!(reassemble(&frames[..2]).into_payload(), None);
    assert_eq!(reassemble(&[]), Reassembly::Collecting(vec![]));
    assert_eq!(reassemble(&[]).into_payload(), None);
}

#[test]
fn records_behind_the_final_one_are_not_consumed() {
    let mut frames = frame_message(&sample(150), 1, -1, 42);
    frames.extend(frame_message(&[9, 9, 9], 1, -1, 42));
    assert_eq!(frames.len(), 3);
    assert_eq!(reassemble(&frames).into_payload(), Some(sample(150)));
}
