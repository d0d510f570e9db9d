use arm_virt_boot::generic_timer::{
    checked_nanos_to_ticks, checked_ticks_to_nanos, compare_words, enable_irqs, timer_counter,
    timer_frequency, GenericTimer, NANOS_PER_SEC, TIMER_ENABLE,
};

const QEMU_FREQUENCY: u64 = 62_500_000;
const BOARD_FREQUENCY: u64 = 24_000_000;

#[test]
fn one_second_of_ticks_is_one_second_of_nanos() {
    let timer = GenericTimer::new(62_500_000, 0);
    assert_eq!(timer.current_ticks(), 0);
    assert_eq!(timer.ticks_to_nanos(62_500_000), 1_000_000_000);
}

#[test]
fn constants() {
    assert_eq!(NANOS_PER_SEC, 1_000_000_000);
    assert_eq!(TIMER_ENABLE, 1);
}

#[test]
fn ticks_to_nanos_rounds_down() {
    let timer = GenericTimer::new(BOARD_FREQUENCY, 0);
    assert_eq!(timer.ticks_to_nanos(0), 0);
    assert_eq!(timer.ticks_to_nanos(1), 41);
    assert_eq!(timer.ticks_to_nanos(1_000_000_000), 41_666_666_666);
    assert_eq!(timer.ticks_to_nanos(1_000_000_000_000), 41_666_666_666_666);
    let timer = GenericTimer::new(QEMU_FREQUENCY, 0);
    assert_eq!(timer.ticks_to_nanos(1), 16);
    assert_eq!(timer.ticks_to_nanos(1_000_000_000), 16_000_000_000);
}

#[test]
fn nanos_to_ticks_rounds_down() {
    let timer = GenericTimer::new(BOARD_FREQUENCY, 0);
    assert_eq!(timer.nanos_to_ticks(0), 0);
    assert_eq!(timer.nanos_to_ticks(41), 0);
    assert_eq!(timer.nanos_to_ticks(42), 1);
    assert_eq!(timer.nanos_to_ticks(1_000_000_000), 24_000_000);
    let timer = GenericTimer::new(QEMU_FREQUENCY, 0);
    assert_eq!(timer.nanos_to_ticks(15), 0);
    assert_eq!(timer.nanos_to_ticks(16), 1);
    assert_eq!(timer.nanos_to_ticks(1_000_000_000), 62_500_000);
}

#[test]
fn large_tick_counts_do_not_wrap() {
    let timer = GenericTimer::new(QEMU_FREQUENCY, 0);
    assert_eq!(timer.ticks_to_nanos(1_000_000_000_000), 16_000_000_000_000);
    assert_eq!(checked_ticks_to_nanos(u64::MAX, 1_000_000_000), Some(u64::MAX));
    assert_eq!(checked_ticks_to_nanos(u64::MAX, 2_000_000_000), Some(u64::MAX / 2));
}

#[test]
fn round_trip_at_qemu_frequency_is_exact() {
    let timer = GenericTimer::new(QEMU_FREQUENCY, 0);
    let counts: [u64; 4] = [0, 1, 1_000_000_000, 1_000_000_000_000];
    for ticks in counts {
        assert_eq!(timer.nanos_to_ticks(timer.ticks_to_nanos(ticks)), ticks);
    }
}

#[test]
fn round_trip_at_board_frequency_loses_at_most_one_tick() {
    let timer = GenericTimer::new(BOARD_FREQUENCY, 0);
    assert_eq!(timer.nanos_to_ticks(timer.ticks_to_nanos(0)), 0);
    assert_eq!(timer.nanos_to_ticks(timer.ticks_to_nanos(1)), 0);
    assert_eq!(timer.nanos_to_ticks(timer.ticks_to_nanos(3)), 3);
    assert_eq!(timer.nanos_to_ticks(timer.ticks_to_nanos(1_000_000_000)), 999_999_999);
    assert_eq!(
        timer.nanos_to_ticks(timer.ticks_to_nanos(1_000_000_000_000)),
        999_999_999_999
    );
    let counts: [u64; 6] = [0, 1, 2, 3, 1_000_000_000, 1_000_000_000_000];
    for ticks in counts {
        let back = timer.nanos_to_ticks(timer.ticks_to_nanos(ticks));
        assert!(back <= ticks);
        assert!(ticks - back <= 1);
    }
}

#[test]
fn round_trip_above_one_ghz_can_lose_more() {
    let timer = GenericTimer::new(4_000_000_000, 0);
    assert_eq!(timer.ticks_to_nanos(3), 0);
    assert_eq!(timer.nanos_to_ticks(timer.ticks_to_nanos(3)), 0);
    assert_eq!(timer.nanos_to_ticks(timer.ticks_to_nanos(4)), 4);
}

#[test]
fn zero_frequency_has_no_nanos() {
    assert_eq!(checked_ticks_to_nanos(0, 0), None);
    assert_eq!(checked_ticks_to_nanos(62_500_000, 0), None);
    assert_eq!(checked_nanos_to_ticks(1_000_000_000, 0), Some(0));
}

#[test]
fn results_beyond_64_bits_are_refused() {
    assert_eq!(checked_ticks_to_nanos(u64::MAX, QEMU_FREQUENCY), None);
    assert_eq!(checked_ticks_to_nanos(u64::MAX, 999_999_999), None);
    assert_eq!(checked_nanos_to_ticks(u64::MAX, 1_000_000_001), None);
    assert_eq!(checked_nanos_to_ticks(u64::MAX, 1_000_000_000), Some(u64::MAX));
    assert_eq!(checked_nanos_to_ticks(u64::MAX, u64::MAX), None);
}

#[test]
fn checked_conversions_agree_with_the_plain_ones() {
    let timer = GenericTimer::new(BOARD_FREQUENCY, 0);
    assert_eq!(checked_ticks_to_nanos(7, BOARD_FREQUENCY), Some(timer.ticks_to_nanos(7)));
    assert_eq!(checked_ticks_to_nanos(7, BOARD_FREQUENCY), Some(291));
    assert_eq!(checked_nanos_to_ticks(291, BOARD_FREQUENCY), Some(timer.nanos_to_ticks(291)));
    assert_eq!(checked_nanos_to_ticks(291, BOARD_FREQUENCY), Some(6));
}

#[test]
fn epoch_offset_is_zero() {
    assert_eq!(GenericTimer::new(QEMU_FREQUENCY, 123).epochoffset_nanos(), 0);
}

#[test]
fn new_timer_is_disarmed() {
    let timer = GenericTimer::new(QEMU_FREQUENCY, 77);
    assert_eq!(
        timer,
        GenericTimer { frequency: 62_500_000, counter: 77, compare: 0, control: 0 }
    );
    assert_eq!(timer.current_ticks(), 77);
}

#[test]
fn past_deadline_fires_at_once() {
    let mut timer = GenericTimer::new(QEMU_FREQUENCY, 625_000);
    assert_eq!(timer.ticks_to_nanos(timer.current_ticks()), 10_000_000);
    assert!(timer.can_set_oneshot_timer(5));
    timer.set_oneshot_timer(5);
    assert_eq!(timer.compare, 625_000);
    assert_eq!(timer.control, 1);
    assert_eq!(timer.counter, 625_000);
    assert_eq!(timer.frequency, QEMU_FREQUENCY);
}

#[test]
fn deadline_equal_to_now_fires_at_once() {
    let mut timer = GenericTimer::new(QEMU_FREQUENCY, 625_000);
    timer.set_oneshot_timer(10_000_000);
    assert_eq!(timer.compare, 625_000);
    assert_eq!(timer.control, 1);
}

#[test]
fn future_deadline_is_armed_at_count_plus_delta() {
    let mut timer = GenericTimer::new(QEMU_FREQUENCY, 625_000);
    assert!(timer.can_set_oneshot_timer(20_000_000));
    timer.set_oneshot_timer(20_000_000);
    assert_eq!(timer.compare, 1_250_000);
    assert_eq!(timer.control, 1);
    let delta = timer.nanos_to_ticks(20_000_000 - 10_000_000);
    assert_eq!(timer.compare, timer.current_ticks() + delta);
}

#[test]
fn future_deadline_rounds_the_delta_down() {
    let mut timer = GenericTimer::new(BOARD_FREQUENCY, 1);
    timer.set_oneshot_timer(100);
    assert_eq!(timer.compare, 2);
    assert_eq!(timer.control, 1);
    let mut timer = GenericTimer::new(BOARD_FREQUENCY, 1);
    timer.set_oneshot_timer(42);
    assert_eq!(timer.compare, 1);
}

#[test]
fn one_second_deadline_from_boot() {
    let mut timer = GenericTimer::new(62_500_000, 0);
    timer.set_oneshot_timer(1_000_000_000);
    assert_eq!(timer.compare, 62_500_000);
    assert_eq!(timer.control, 1);
}

#[test]
fn arming_again_overwrites_the_earlier_deadline() {
    let mut timer = GenericTimer::new(QEMU_FREQUENCY, 625_000);
    timer.set_oneshot_timer(1_000_000_000);
    assert_eq!(timer.compare, 62_500_000);
    timer.set_oneshot_timer(20_000_000);
    assert_eq!(timer.compare, 1_250_000);
    let mut fresh = GenericTimer::new(QEMU_FREQUENCY, 625_000);
    fresh.set_oneshot_timer(20_000_000);
    assert_eq!(timer, fresh);
}

#[test]
fn arming_is_refused_where_the_arithmetic_does_not_fit() {
    assert!(!GenericTimer::new(0, 0).can_set_oneshot_timer(0));
    assert!(!GenericTimer::new(0, 10).can_set_oneshot_timer(1_000));
    assert!(!GenericTimer::new(QEMU_FREQUENCY, u64::MAX).can_set_oneshot_timer(0));
    assert!(!GenericTimer::new(2_000_000_000, u64::MAX - 1).can_set_oneshot_timer(u64::MAX));
    assert!(!GenericTimer::new(3_000_000_000, 10).can_set_oneshot_timer(u64::MAX));
}

#[test]
fn arming_at_the_edge_of_64_bits() {
    let mut timer = GenericTimer::new(1_000_000_000, u64::MAX - 1);
    assert!(timer.can_set_oneshot_timer(u64::MAX - 1));
    timer.set_oneshot_timer(u64::MAX - 1);
    assert_eq!(timer.compare, u64::MAX - 1);
    let mut timer = GenericTimer::new(1_000_000_000, u64::MAX - 2);
    assert!(timer.can_set_oneshot_timer(u64::MAX));
    timer.set_oneshot_timer(u64::MAX);
    assert_eq!(timer.compare, u64::MAX);
    let mut timer = GenericTimer::new(1_000_000_000, u64::MAX);
    assert!(timer.can_set_oneshot_timer(7));
    timer.set_oneshot_timer(7);
    assert_eq!(timer.compare, u64::MAX);
}

#[test]
fn enabling_the_interrupt_arms_at_the_present_count() {
    let mut timer = GenericTimer { frequency: 0, counter: 4_242, compare: 9, control: 0 };
    enable_irqs(&mut timer, 30);
    assert_eq!(timer, GenericTimer { frequency: 0, counter: 4_242, compare: 4_242, control: 1 });
    let mut other = GenericTimer { frequency: 0, counter: 4_242, compare: 9, control: 0 };
    enable_irqs(&mut other, 0);
    assert_eq!(timer, other);
}

#[test]
fn frequency_word_widens() {
    assert_eq!(timer_frequency(62_500_000), 62_500_000u64);
    assert_eq!(timer_frequency(0), 0);
    assert_eq!(timer_frequency(u32::MAX), 0xffff_ffff);
}

#[test]
fn counter_words_join_high_over_low() {
    assert_eq!(timer_counter(0, 0), 0);
    assert_eq!(timer_counter(1, 0), 1);
    assert_eq!(timer_counter(0, 1), 0x1_0000_0000);
    assert_eq!(timer_counter(0xdead_beef, 0x0123_4567), 0x0123_4567_dead_beef);
    assert_eq!(timer_counter(u32::MAX, u32::MAX), u64::MAX);
}

#[test]
fn compare_value_splits_into_low_and_high() {
    assert_eq!(compare_words(0), (0, 0));
    assert_eq!(compare_words(0x0123_4567_dead_beef), (0xdead_beef, 0x0123_4567));
    assert_eq!(compare_words(0x1_0000_0000), (0, 1));
    assert_eq!(compare_words(u64::MAX), (u32::MAX, u32::MAX));
}

#[test]
fn words_round_trip() {
    let values: [u64; 5] = [0, 1, 0xffff_ffff, 0x1_0000_0000, 0xfedc_ba98_7654_3210];
    for value in values {
        let (low, high) = compare_words(value);
        assert_eq!(timer_counter(low, high), value);
    }
}
