use frame_capture::channel::LatestFrameChannel;
use frame_capture::rendezvous::forward_mapped_bytes;
use frame_capture::rendezvous::MapRendezvous;

#[test]
fn drain_latest_returns_the_newest_frame_once() {
    let mut channel = LatestFrameChannel::new();
    channel.push(vec![1u8]);
    channel.push(vec![2u8]);
    channel.push(vec![3u8]);
    assert_eq!(channel.drain_latest(), Some(vec![3u8]));
    assert_eq!(channel.drain_latest(), None);
}

#[test]
fn drain_latest_on_empty_channel_is_none() {
    let mut channel = LatestFrameChannel::new();
    assert_eq!(channel.drain_latest(), None);
}

#[test]
fn drain_latest_returns_a_single_pending_frame() {
    let mut channel = LatestFrameChannel::new();
    channel.push(vec![9u8, 8, 7]);
    assert_eq!(channel.drain_latest(), Some(vec![9u8, 8, 7]));
    assert_eq!(channel.drain_latest(), None);
}

#[test]
fn drain_and_discard_flushes_without_materializing() {
    let mut channel = LatestFrameChannel::new();
    channel.push(vec![1u8]);
    channel.push(vec![2u8]);
    channel.drain_and_discard();
    assert_eq!(channel.drain_latest(), None);
}

#[test]
fn pushes_after_a_drain_are_seen_by_the_next_drain() {
    let mut channel = LatestFrameChannel::new();
    channel.push(vec![1u8]);
    assert_eq!(channel.drain_latest(), Some(vec![1u8]));
    channel.push(vec![2u8]);
    channel.push(vec![3u8]);
    assert_eq!(channel.drain_latest(), Some(vec![3u8]));
}

#[test]
fn rendezvous_hands_the_completed_bytes_over() {
    let mut rendezvous = MapRendezvous::new();
    rendezvous.complete(vec![5u8, 6, 7]);
    assert_eq!(rendezvous.wait(), vec![5u8, 6, 7]);
}

#[test]
fn forwarding_a_completed_mapping_pushes_one_frame() {
    let mut rendezvous = MapRendezvous::new();
    let mut channel = LatestFrameChannel::new();
    rendezvous.complete(vec![42u8; 8]);
    forward_mapped_bytes(&mut rendezvous, &mut channel);
    assert_eq!(channel.drain_latest(), Some(vec![42u8; 8]));
    assert_eq!(channel.drain_latest(), None);
}
