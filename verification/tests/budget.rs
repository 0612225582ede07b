use block_payload::budget::{
    required_min, resolve_payload_size, FaultAlarm, ALARM_COOLDOWN_NANOS,
};
use block_payload::metrics::{Histogram, PayloadBuilderMetrics};
use block_payload::rotation::{rotate_sections, section_ids};
use block_payload::time::Time;
use block_payload::types::{Height, NumBytes, SubnetRecord};

fn at(nanos: u64) -> Time {
    Time::from_nanos_since_unix_epoch(nanos)
}

#[test]
fn small_payload_size_is_raised_to_the_largest_ingress_message() {
    let record = SubnetRecord { max_block_payload_size: 500, max_ingress_bytes_per_message: 1_000_000 };
    let (size, clamped) = resolve_payload_size(NumBytes::new(0), NumBytes::new(0), &record);
    assert_eq!(size, NumBytes::new(1_000_000));
    assert!(clamped);
    let mut alarm = FaultAlarm::new();
    assert!(alarm.report_fault(at(7)));
    assert_eq!(alarm.count(), 1);
}

#[test]
fn payload_size_is_at_least_each_floor() {
    let record = SubnetRecord { max_block_payload_size: 500, max_ingress_bytes_per_message: 100 };
    assert_eq!(required_min(NumBytes::new(700), NumBytes::new(600), &record), NumBytes::new(700));
    assert_eq!(required_min(NumBytes::new(600), NumBytes::new(700), &record), NumBytes::new(700));
    assert_eq!(required_min(NumBytes::new(60), NumBytes::new(70), &record), NumBytes::new(100));
    assert_eq!(
        resolve_payload_size(NumBytes::new(700), NumBytes::new(600), &record),
        (NumBytes::new(700), true)
    );
    assert_eq!(
        resolve_payload_size(NumBytes::new(60), NumBytes::new(70), &record),
        (NumBytes::new(500), false)
    );
    assert_eq!(
        resolve_payload_size(NumBytes::new(500), NumBytes::new(500), &record),
        (NumBytes::new(500), false)
    );
    let record = SubnetRecord { max_block_payload_size: u64::MAX, max_ingress_bytes_per_message: u64::MAX };
    assert_eq!(
        resolve_payload_size(NumBytes::new(0), NumBytes::new(0), &record),
        (NumBytes::new(u64::MAX), false)
    );
}

#[test]
fn alarm_is_raised_once_in_a_cooldown_window() {
    let mut alarm = FaultAlarm::new();
    let start = 1_000;
    assert!(alarm.report_fault(at(start)));
    for step in 1..1000u64 {
        assert!(!alarm.report_fault(at(start + step * 1_000_000)));
    }
    assert!(!alarm.report_fault(at(start + ALARM_COOLDOWN_NANOS - 1)));
    // A clock that was set back raises nothing.
    assert!(!alarm.report_fault(at(0)));
    assert_eq!(alarm.count(), 1);
    assert_eq!(alarm.last_raised, Some(at(start)));
    assert!(alarm.report_fault(at(start + ALARM_COOLDOWN_NANOS)));
    assert_eq!(alarm.count(), 2);
    assert!(!alarm.report_fault(at(start + ALARM_COOLDOWN_NANOS + 5)));
    assert_eq!(alarm.count(), 2);
}

#[test]
fn alarm_count_stops_at_the_largest_number() {
    let mut alarm = FaultAlarm { last_raised: None, raised: u64::MAX };
    assert!(alarm.report_fault(at(1)));
    assert_eq!(alarm.count(), u64::MAX);
    assert_eq!(alarm.last_raised, Some(at(1)));
}

#[test]
fn cooldown_is_five_minutes() {
    assert_eq!(ALARM_COOLDOWN_NANOS, 300_000_000_000);
}

#[test]
fn metrics_count_what_is_reported() {
    let mut metrics = PayloadBuilderMetrics::new();
    metrics.observe_past_payloads(12);
    metrics.observe_past_payloads(3);
    metrics.observe_get_payload_duration(1_000);
    metrics.observe_validate_payload_duration(2_000);
    metrics.observe_validate_payload_duration(5);
    metrics.count_validation_fault();
    metrics.count_validation_fault();
    assert!(metrics.report_subnet_record_issue(at(5)));
    assert!(!metrics.report_subnet_record_issue(at(6)));
    assert_eq!(metrics.past_payloads_length, Histogram { count: 2, sum: 15 });
    assert_eq!(metrics.get_payload_duration, Histogram { count: 1, sum: 1_000 });
    assert_eq!(metrics.validate_payload_duration, Histogram { count: 2, sum: 2_005 });
    assert_eq!(metrics.critical_error_validation_not_passed, 2);
    assert_eq!(metrics.critical_error_subnet_record_data_issue.count(), 1);
}

#[test]
fn sections_rotate_right_by_height_modulo_their_number() {
    let ids = section_ids(4);
    assert_eq!(ids, vec![0, 1, 2, 3]);
    assert_eq!(rotate_sections(&ids, Height::new(7)), vec![1, 2, 3, 0]);
    assert_eq!(rotate_sections(&ids, Height::new(0)), vec![0, 1, 2, 3]);
    assert_eq!(rotate_sections(&ids, Height::new(1)), vec![3, 0, 1, 2]);
    assert_eq!(rotate_sections(&ids, Height::new(2)), vec![2, 3, 0, 1]);
    assert_eq!(rotate_sections(&ids, Height::new(4)), vec![0, 1, 2, 3]);
    assert_eq!(rotate_sections(&ids, Height::new(u64::MAX)), vec![1, 2, 3, 0]);
    assert_eq!(rotate_sections(&vec![9], Height::new(5)), vec![9]);
    assert_eq!(rotate_sections(&vec![7, 8, 9], Height::new(5)), vec![8, 9, 7]);
    assert_eq!(section_ids(0), Vec::<usize>::new());
}

#[test]
fn each_section_comes_first_once_in_as_many_heights() {
    let ids = section_ids(4);
    for start in [0u64, 5, 1_000_003] {
        let mut first: Vec<usize> =
            (0..4).map(|i| rotate_sections(&ids, Height::new(start + i))[0]).collect();
        first.sort();
        assert_eq!(first, vec![0, 1, 2, 3]);
    }
}

#[test]
fn byte_counts_do_not_wrap() {
    assert_eq!(NumBytes::new(5).saturating_sub(NumBytes::new(7)), NumBytes::new(0));
    assert_eq!(NumBytes::new(7).saturating_sub(NumBytes::new(5)), NumBytes::new(2));
    assert_eq!(NumBytes::new(7).checked_add(NumBytes::new(5)), Some(NumBytes::new(12)));
    assert_eq!(NumBytes::new(u64::MAX).checked_add(NumBytes::new(1)), None);
    assert_eq!(NumBytes::new(u64::MAX).checked_add(NumBytes::new(0)), Some(NumBytes::new(u64::MAX)));
    assert_eq!(NumBytes::new(9).get(), 9);
}

#[test]
fn the_warning_names_both_sizes() {
    assert_eq!(
        block_payload::budget::subnet_record_warning(500, 1_000_000),
        "max_block_payload_size too small. current value: 500, required minimum: 1000000! \
         max_block_payload_size must be larger than max_ingress_bytes_per_message \
         and MAX_XNET_PAYLOAD_IN_BYTES. Update registry! @consensus_subnet_record_issue"
    );
}

#[test]
fn histograms_stop_at_the_largest_number() {
    let mut histogram = Histogram::new();
    assert_eq!(histogram, Histogram { count: 0, sum: 0 });
    histogram.observe(u64::MAX - 1);
    histogram.observe(1);
    assert_eq!(histogram, Histogram { count: 2, sum: u64::MAX });
    histogram.observe(1);
    assert_eq!(histogram, Histogram { count: 3, sum: u64::MAX });
    let mut full = Histogram { count: u64::MAX, sum: 7 };
    full.observe(1);
    assert_eq!(full, Histogram { count: u64::MAX, sum: 8 });
}
