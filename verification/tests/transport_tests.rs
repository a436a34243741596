use hwcrypto_hal::errors::HalError;
use hwcrypto_hal::transport::Channel;
use hwcrypto_hal::transport::ChannelMultiplexer;
use hwcrypto_hal::transport::Fragment;
use hwcrypto_hal::transport::Reassembler;
use hwcrypto_hal::transport::RecvEvent;
use hwcrypto_hal::transport::split_into_frames;

fn frame(more: bool, payload: &[u8]) -> RecvEvent {
    RecvEvent::Frame(Fragment { more, payload: payload.to_vec() })
}

#[test]
fn single_frame_response_is_returned_whole() {
    let mut channel = Channel::new(4000);
    let request = vec![0x01, 0x02, 0x03];
    let events = vec![frame(false, &[0xaa, 0xbb, 0xcc])];
    let response = channel.execute(&request, true, &events);
    assert_eq!(response, Ok(vec![0xaa, 0xbb, 0xcc]));
}

#[test]
fn five_frame_response_is_concatenated_in_order() {
    let mut channel = Channel::new(4000);
    let request = vec![0x10];
    let events = vec![
        frame(true, &[1, 2]),
        frame(true, &[3]),
        frame(true, &[]),
        frame(true, &[4, 5, 6]),
        frame(false, &[7]),
    ];
    let response = channel.execute(&request, true, &events);
    assert_eq!(response, Ok(vec![1, 2, 3, 4, 5, 6, 7]));
}

#[test]
fn empty_single_frame_gives_empty_response() {
    let mut channel = Channel::new(16);
    let request = vec![0x55];
    let events = vec![frame(false, &[])];
    let response = channel.execute(&request, true, &events);
    assert_eq!(response, Ok(Vec::new()));
}

#[test]
fn frames_after_the_final_one_belong_to_nobody() {
    // The exchange ends at the first frame without the continuation flag;
    // later events are not part of this response.
    let mut channel = Channel::new(4000);
    let request = vec![9];
    let events = vec![frame(true, &[1]), frame(false, &[2]), frame(false, &[3])];
    let response = channel.execute(&request, true, &events);
    assert_eq!(response, Ok(vec![1, 2]));
}

#[test]
fn failed_send_reports_transport_failure() {
    let mut channel = Channel::new(4000);
    let request = vec![1, 2];
    let events = vec![frame(false, &[1])];
    let response = channel.execute(&request, false, &events);
    assert_eq!(response, Err(HalError::TransportFailure));
}

#[test]
fn failed_receive_loses_the_whole_response() {
    // Reassembly is all-or-nothing: a receive failure mid-response returns
    // no partial bytes.
    let mut channel = Channel::new(4000);
    let request = vec![1];
    let events = vec![frame(true, &[1, 2, 3]), RecvEvent::Failed];
    let response = channel.execute(&request, true, &events);
    assert_eq!(response, Err(HalError::TransportFailure));
}

#[test]
fn channel_exhausted_before_final_frame_is_a_transport_failure() {
    let mut channel = Channel::new(4000);
    let request = vec![1];
    let events = vec![frame(true, &[1, 2, 3])];
    let response = channel.execute(&request, true, &events);
    assert_eq!(response, Err(HalError::TransportFailure));
}

#[test]
fn consecutive_exchanges_each_get_their_own_response() {
    // The channel is held for one full request/response cycle at a time, so
    // the second exchange's frames are drained strictly after the first's.
    let mut channel = Channel::new(4000);
    let first = channel.execute(
        &vec![1],
        true,
        &vec![frame(true, &[10]), frame(false, &[11])],
    );
    assert_eq!(first, Ok(vec![10, 11]));
    let second = channel.execute(&vec![2], true, &vec![frame(false, &[20])]);
    assert_eq!(second, Ok(vec![20]));
}

#[test]
fn multiplexer_serializes_exchanges_on_the_shared_channel() {
    let multiplexer = ChannelMultiplexer::new(4000);
    assert_eq!(multiplexer.max_fragment_size(), 4000);

    // Two callers on the one multiplexer, each through a shared reference:
    // the lock admits them one at a time, and each gets exactly its own
    // fully reassembled response, never a mix of the two.
    let first = multiplexer.execute(
        &vec![1],
        true,
        &vec![frame(true, &[10, 11]), frame(false, &[12])],
    );
    assert_eq!(first, Ok(vec![10, 11, 12]));
    let second = multiplexer.execute(&vec![2], true, &vec![frame(false, &[20])]);
    assert_eq!(second, Ok(vec![20]));
}

#[test]
fn multiplexer_reports_a_failed_exchange() {
    let multiplexer = ChannelMultiplexer::new(16);
    let result = multiplexer.execute(&vec![1, 2], true, &vec![RecvEvent::Failed]);
    assert_eq!(result, Err(HalError::TransportFailure));
}

#[test]
fn splitting_respects_the_size_limit_and_flags() {
    let message: Vec<u8> = (0..10).collect();
    let frames = split_into_frames(&message, 4);
    assert_eq!(frames.len(), 3);
    assert_eq!(frames[0].payload, vec![0, 1, 2, 3]);
    assert!(frames[0].more);
    assert_eq!(frames[1].payload, vec![4, 5, 6, 7]);
    assert!(frames[1].more);
    assert_eq!(frames[2].payload, vec![8, 9]);
    assert!(!frames[2].more);
}

#[test]
fn an_empty_message_still_crosses_as_one_final_frame() {
    let frames = split_into_frames(&Vec::new(), 8);
    assert_eq!(frames.len(), 1);
    assert!(frames[0].payload.is_empty());
    assert!(!frames[0].more);
}

#[test]
fn framing_round_trip_returns_the_original_message() {
    // Split a message into frames, deliver them as one exchange's receives:
    // the reassembled response is exactly the message.
    let message: Vec<u8> = (0..23).collect();
    let frames = split_into_frames(&message, 5);
    let events: Vec<RecvEvent> = frames.into_iter().map(RecvEvent::Frame).collect();
    let mut channel = Channel::new(5);
    let response = channel.execute(&vec![1], true, &events);
    assert_eq!(response, Ok(message));
}

#[test]
fn reassembler_collects_payloads_in_arrival_order() {
    let mut reassembler = Reassembler::new();
    reassembler.absorb(&Fragment { more: true, payload: vec![1, 2] });
    reassembler.absorb(&Fragment { more: true, payload: vec![] });
    reassembler.absorb(&Fragment { more: false, payload: vec![3] });
    assert_eq!(reassembler.into_response(), vec![1, 2, 3]);
}
