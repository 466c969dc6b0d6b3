use network_time::NetDuration;
use network_time::NetworkTime;

#[test]
fn test_calculated_properties_and_getters() {
    let mut time = NetworkTime::default();
    time.set_network_frame_rate(20);
    assert_eq!(time.frame_number(), 0);
    assert_eq!(time.frame_lag(), 1);
    assert_eq!(time.message_send_rate(), 1);
    assert_eq!(time.per_frame_duration(), NetDuration::from_millis(50));
    assert_eq!(time.elapsed_duration(), NetDuration::from_millis(0));
}

#[test]
fn test_message_send_rate_should_send_every_2_frames() {
    let mut time = NetworkTime::default();
    time.set_message_send_rate(2);

    for i in 1u32..100u32 {
        // every second frame (even) should return true
        if i % 2 == 0 {
            assert_eq!(time.should_send_message(i), true);
        } else {
            assert_eq!(time.should_send_message(i), false);
        }
    }
}

#[test]
fn test_elapsed_duration_gets_updated() {
    let mut time = NetworkTime::default();

    let elapsed_time = NetDuration::from_millis(500);
    time.update_elapsed(elapsed_time);

    assert_eq!(time.elapsed_duration(), elapsed_time);
}

#[test]
fn default_configuration() {
    let time = NetworkTime::default();
    assert_eq!(time.frame_number(), 0);
    assert_eq!(time.frame_lag(), 1);
    assert_eq!(time.message_send_rate(), 1);
    assert_eq!(time.elapsed_duration(), NetDuration::from_nanos(0));
    // 100 frames per minute: one minute divided by 100 is 600 ms per frame.
    assert_eq!(time.per_frame_duration(), NetDuration::from_millis(600));
}

#[test]
fn frame_rate_divides_one_second_exactly() {
    let mut time = NetworkTime::default();

    time.set_network_frame_rate(20);
    assert_eq!(time.per_frame_duration(), NetDuration::from_millis(50));

    time.set_network_frame_rate(1);
    assert_eq!(time.per_frame_duration(), NetDuration::from_secs(1));

    // A rate that does not divide one second truncates to whole nanoseconds.
    time.set_network_frame_rate(3);
    assert_eq!(time.per_frame_duration(), NetDuration::from_nanos(333_333_333));

    // One frame per nanosecond is the finest configurable rate.
    time.set_network_frame_rate(1_000_000_000);
    assert_eq!(time.per_frame_duration(), NetDuration::from_nanos(1));
}

#[test]
fn send_cadence_of_one_sends_on_every_frame() {
    let time = NetworkTime::default();
    for i in 0u32..50u32 {
        assert!(time.should_send_message(i));
    }
}

#[test]
fn should_send_now_follows_current_frame() {
    let mut time = NetworkTime::default();
    time.set_message_send_rate(3);

    // Frame 0 is a multiple of every cadence.
    assert!(time.should_send_message_now());

    time.set_frame_number(7);
    assert!(!time.should_send_message_now());

    time.set_frame_number(9);
    assert!(time.should_send_message_now());
}

#[test]
fn elapsed_accumulates_over_several_updates() {
    let mut time = NetworkTime::default();

    time.update_elapsed(NetDuration::from_millis(200));
    time.update_elapsed(NetDuration::from_millis(300));
    assert_eq!(time.elapsed_duration(), NetDuration::from_millis(500));

    time.update_elapsed(NetDuration::from_nanos(1));
    assert_eq!(time.elapsed_duration(), NetDuration::from_nanos(500_000_001));
}

#[test]
fn increment_spends_exactly_one_frame_of_time() {
    let mut time = NetworkTime::default();
    time.set_network_frame_rate(20); // 50 ms per frame
    time.update_elapsed(NetDuration::from_millis(120));

    time.increment_frame_number();
    assert_eq!(time.frame_number(), 1);
    assert_eq!(time.frame_lag(), 2);
    assert_eq!(time.elapsed_duration(), NetDuration::from_millis(70));

    time.increment_frame_number();
    assert_eq!(time.frame_number(), 2);
    assert_eq!(time.frame_lag(), 3);
    assert_eq!(time.elapsed_duration(), NetDuration::from_millis(20));
}

#[test]
fn lag_grows_by_one_per_advance_and_range_ends_at_current_frame() {
    let mut time = NetworkTime::default();
    time.set_network_frame_rate(20);
    time.update_elapsed(NetDuration::from_millis(200));

    // Default lag is 1, so frame 0 is owed even before any advance.
    let range = time.network_frames_to_run();
    assert_eq!(range.to_vec(), vec![0]);

    time.increment_frame_number();
    time.increment_frame_number();
    time.increment_frame_number();

    assert_eq!(time.frame_lag(), 4);
    assert_eq!(time.frame_number(), 3);

    let range = time.network_frames_to_run();
    assert_eq!(range.len(), time.frame_lag());
    assert_eq!(range.end(), time.frame_number());
    assert_eq!(range.to_vec(), vec![0, 1, 2, 3]);
}

#[test]
fn reset_lag_yields_an_explicitly_empty_range() {
    let mut time = NetworkTime::default();
    time.set_network_frame_rate(20);
    time.update_elapsed(NetDuration::from_millis(100));
    time.increment_frame_number();
    time.reset_frame_lag();

    assert_eq!(time.frame_lag(), 0);
    let range = time.network_frames_to_run();
    assert!(range.is_empty());
    assert_eq!(range.len(), 0);
    assert_eq!(range.to_vec(), Vec::<u32>::new());
    // An empty range names no frame, not even the current one.
    assert!(!range.contains(time.frame_number()));
}

#[test]
fn set_frame_number_leaves_elapsed_and_lag_untouched() {
    let mut time = NetworkTime::default();
    time.update_elapsed(NetDuration::from_millis(40));

    time.set_frame_number(1000);

    assert_eq!(time.frame_number(), 1000);
    assert_eq!(time.frame_lag(), 1);
    assert_eq!(time.elapsed_duration(), NetDuration::from_millis(40));
    assert_eq!(time.message_send_rate(), 1);
}

#[test]
fn range_membership_matches_its_bounds() {
    let mut time = NetworkTime::default();
    time.set_network_frame_rate(20);
    time.update_elapsed(NetDuration::from_millis(150));
    time.increment_frame_number();
    time.increment_frame_number();
    time.increment_frame_number();
    time.set_frame_number(8);

    // Lag 4 ending at frame 8: the block [5, 8].
    let range = time.network_frames_to_run();
    assert_eq!(range.start(), 5);
    assert_eq!(range.end(), 8);
    assert!(!range.contains(4));
    assert!(range.contains(5));
    assert!(range.contains(7));
    assert!(range.contains(8));
    assert!(!range.contains(9));
}

#[test]
fn durations_convert_between_units() {
    assert_eq!(NetDuration::from_secs(1), NetDuration::from_millis(1000));
    assert_eq!(NetDuration::from_millis(1), NetDuration::from_nanos(1_000_000));
    assert_eq!(NetDuration::from_secs(2).as_nanos(), 2_000_000_000u128);
    assert_eq!(NetDuration::from_secs(1).div_by(8), NetDuration::from_millis(125));
    assert_eq!(NetDuration::from_nanos(10).div_by(3), NetDuration::from_nanos(3));
}
