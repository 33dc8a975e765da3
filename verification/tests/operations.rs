use std::cell::RefCell;
use std::rc::Rc;

use timebase::command::Command;
use timebase::config::{ClockConfig, RELOAD_MAX};
use timebase::cycles::Sample;
use timebase::{
    clear_callback, clock_cycles, free, init_with_frequency, interrupt, micros, millis, reset,
    set_callback, start, stop, ticks, TimeBase,
};

/// Stands for the counter in these tests.
#[derive(Debug, PartialEq)]
struct Token(u32);

type Plain = TimeBase<Token, fn(u64)>;
type Recording = TimeBase<Token, Box<dyn Fn(u64)>>;

fn sample(current: u32, wrapped: bool) -> Sample {
    Sample { current, wrapped }
}

fn running(clock_freq: u32, tick_freq: u32, underflows: u64) -> Plain {
    let mut tb = Plain::new();
    init_with_frequency(&mut tb, Token(0), clock_freq, tick_freq);
    for _ in 0..underflows {
        interrupt(&mut tb);
    }
    tb
}

fn recorder(log: &Rc<RefCell<Vec<u64>>>) -> Box<dyn Fn(u64)> {
    let log = Rc::clone(log);
    Box::new(move |tick| log.borrow_mut().push(tick))
}

#[test]
fn new_time_base_is_uninitialized() {
    let tb = Plain::new();
    assert!(!tb.is_bound());
    assert!(!tb.has_callback());
    assert!(!tb.can_tick());
    assert!(!tb.can_count(sample(0, false)));
    assert!(!tb.can_tell_millis());
    assert!(!tb.can_tell_micros(sample(0, false)));
}

#[test]
fn init_returns_the_setup_sequence_in_order() {
    let mut tb = Plain::new();
    let commands = init_with_frequency(&mut tb, Token(7), 48_000_000, 1_000);
    assert_eq!(
        commands,
        [
            Command::DisableInterrupt,
            Command::UseCoreClock,
            Command::SetReload(47_999),
            Command::ClearCurrent,
            Command::EnableInterrupt,
        ]
    );
}

#[test]
fn init_binds_stores_the_configuration_and_zeroes_the_ticks() {
    let mut tb = Plain::new();
    init_with_frequency(&mut tb, Token(7), 48_000_000, 1_000);
    assert!(tb.is_bound());
    assert_eq!(
        tb.config(),
        ClockConfig { clock_freq_hz: 48_000_000, tick_freq_hz: 1_000, reload: 47_999 }
    );
    assert_eq!(ticks(&tb), 0);
}

#[test]
fn init_again_starts_the_count_over_with_the_new_configuration() {
    let mut tb = running(1_000_000, 1_000, 3);
    assert_eq!(ticks(&tb), 3);
    let commands = init_with_frequency(&mut tb, Token(1), 8_000_000, 100);
    assert_eq!(commands[2], Command::SetReload(79_999));
    assert_eq!(ticks(&tb), 0);
    assert_eq!(tb.config().reload, 79_999);
    assert_eq!(free(&mut tb), Token(1));
}

#[test]
fn init_keeps_the_callback() {
    let log = Rc::new(RefCell::new(Vec::new()));
    let mut tb = Recording::new();
    set_callback(&mut tb, recorder(&log));
    init_with_frequency(&mut tb, Token(0), 1_000_000, 1_000);
    assert!(tb.has_callback());
    interrupt(&mut tb);
    assert_eq!(*log.borrow(), vec![1]);
}

#[test]
fn free_hands_the_counter_back() {
    let mut tb = Plain::new();
    init_with_frequency(&mut tb, Token(42), 1_000_000, 1_000);
    assert_eq!(free(&mut tb), Token(42));
    assert!(!tb.is_bound());
    assert!(!tb.can_tick());
    assert!(!tb.can_count(sample(0, false)));
}

#[test]
fn free_then_init_binds_again() {
    let mut tb = running(1_000_000, 1_000, 2);
    let token = free(&mut tb);
    init_with_frequency(&mut tb, token, 1_000_000, 1_000);
    assert!(tb.is_bound());
    assert_eq!(ticks(&tb), 0);
}

#[test]
fn peripheral_mut_reaches_the_counter_that_is_held() {
    let mut tb = Plain::new();
    init_with_frequency(&mut tb, Token(1), 1_000_000, 1_000);
    assert_eq!(*tb.peripheral_mut(), Token(1));
    tb.peripheral_mut().0 = 2;
    assert_eq!(free(&mut tb), Token(2));
}

#[test]
fn start_and_stop_touch_the_enable_bit_only() {
    let tb = running(1_000_000, 1_000, 4);
    assert_eq!(start(&tb), Command::EnableCounter);
    assert_eq!(stop(&tb), Command::DisableCounter);
    assert_eq!(ticks(&tb), 4);
    assert_eq!(tb.config().reload, 999);
    assert!(tb.is_bound());
}

#[test]
fn interrupt_counts_one_tick_and_clears_the_wrap_condition() {
    let mut tb = running(1_000_000, 1_000, 0);
    assert_eq!(interrupt(&mut tb), Command::ClearWrapped);
    assert_eq!(ticks(&tb), 1);
    assert_eq!(interrupt(&mut tb), Command::ClearWrapped);
    assert_eq!(ticks(&tb), 2);
}

#[test]
fn reset_zeroes_the_ticks_and_clears_the_counter() {
    let mut tb = running(1_000_000, 1_000, 9);
    assert_eq!(reset(&mut tb), Command::ClearCurrent);
    assert_eq!(ticks(&tb), 0);
    assert!(tb.is_bound());
    assert_eq!(tb.config().reload, 999);
}

#[test]
fn reset_leaves_no_period_in_the_count() {
    let mut tb = running(1_000_000, 1_000, 9);
    reset(&mut tb);
    // The counter was cleared: it reads zero until the next cycle.
    assert_eq!(clock_cycles(&tb, sample(0, false)), 999);
    assert_eq!(clock_cycles(&tb, sample(750, false)), 999 - 750);
    assert_eq!(clock_cycles(&tb, sample(999, false)), 0);
}

#[test]
fn reset_keeps_the_callback() {
    let log = Rc::new(RefCell::new(Vec::new()));
    let mut tb = Recording::new();
    init_with_frequency(&mut tb, Token(0), 1_000_000, 1_000);
    set_callback(&mut tb, recorder(&log));
    interrupt(&mut tb);
    interrupt(&mut tb);
    reset(&mut tb);
    interrupt(&mut tb);
    assert_eq!(*log.borrow(), vec![1, 2, 1]);
}

#[test]
fn clock_cycles_adds_the_part_of_the_period_to_the_whole_ticks() {
    let tb = running(1_000_000, 1_000, 5);
    assert_eq!(clock_cycles(&tb, sample(500, false)), 1_000 * 5 + (999 - 500));
    assert_eq!(clock_cycles(&tb, sample(999, false)), 5_000);
    assert_eq!(clock_cycles(&tb, sample(0, false)), 5_999);
}

#[test]
fn clock_cycles_counts_a_wrap_that_was_not_served_yet() {
    let tb = running(1_000_000, 1_000, 5);
    assert_eq!(clock_cycles(&tb, sample(999, true)), 6_000);
    assert_eq!(clock_cycles(&tb, sample(400, true)), 6_000 + 599);
    // The correction is local to the query.
    assert_eq!(ticks(&tb), 5);
}

#[test]
fn clock_cycles_with_the_shortest_period() {
    // One cycle per tick: the counter never leaves zero.
    let tb = running(1_000, 1_000, 7);
    assert_eq!(tb.config().reload, 0);
    assert_eq!(clock_cycles(&tb, sample(0, false)), 7);
    assert_eq!(clock_cycles(&tb, sample(0, true)), 8);
}

#[test]
fn clock_cycles_with_the_longest_period() {
    let tb = running(RELOAD_MAX + 1, 1, 2);
    assert_eq!(tb.config().reload, RELOAD_MAX);
    assert_eq!(clock_cycles(&tb, sample(RELOAD_MAX, false)), 2 * 16_777_216);
    assert_eq!(clock_cycles(&tb, sample(0, true)), 3 * 16_777_216 + 16_777_215);
}

#[test]
fn can_count_wants_a_sample_within_the_reload_value() {
    let tb = running(1_000_000, 1_000, 5);
    assert!(tb.can_count(sample(0, false)));
    assert!(tb.can_count(sample(999, true)));
    assert!(!tb.can_count(sample(1_000, false)));
    assert!(!tb.can_count(sample(u32::MAX, true)));
}

#[test]
fn millis_scales_the_ticks() {
    assert_eq!(millis(&running(1_000_000, 1_000, 5)), 5);
    assert_eq!(millis(&running(1_000_000, 100, 5)), 50);
    assert_eq!(millis(&running(1_000_000, 2_000, 5)), 2);
    assert_eq!(millis(&running(1_000_000, 3, 1)), 333);
    assert_eq!(millis(&running(1_000_000, 3, 2)), 666);
    assert_eq!(millis(&running(1_000_000, 1_000, 0)), 0);
}

#[test]
fn millis_does_not_look_at_the_counter() {
    let tb = running(1_000_000, 1_000, 5);
    assert!(tb.can_tell_millis());
    assert_eq!(millis(&tb), 5);
    // Nothing but an underflow that was served moves the milliseconds.
    assert_eq!(clock_cycles(&tb, sample(1, true)), 6_998);
    assert_eq!(millis(&tb), 5);
}

#[test]
fn micros_divides_the_cycles_by_the_clock_in_mhz() {
    let tb = running(48_000_000, 1_000, 5);
    // 5 * 48_000 + (47_999 - 23_999) = 264_000 cycles at 48 cycles per microsecond.
    assert_eq!(clock_cycles(&tb, sample(23_999, false)), 264_000);
    assert_eq!(micros(&tb, sample(23_999, false)), 5_500);
    assert_eq!(micros(&tb, sample(23_998, false)), 5_500);
    assert_eq!(micros(&tb, sample(23_951, false)), 5_501);
}

#[test]
fn micros_drops_the_fraction_of_a_mhz() {
    // 2.5 MHz count as 2 cycles per microsecond.
    let tb = running(2_500_000, 1_000, 1);
    assert_eq!(tb.config().reload, 2_499);
    assert_eq!(clock_cycles(&tb, sample(2_498, false)), 2_501);
    assert_eq!(micros(&tb, sample(2_498, false)), 1_250);
}

#[test]
fn micros_wants_a_clock_of_one_mhz_at_least() {
    let slow = running(999_999, 1_000, 1);
    assert!(slow.can_count(sample(0, false)));
    assert!(!slow.can_tell_micros(sample(0, false)));
    let fast = running(1_000_000, 1_000, 1);
    assert!(fast.can_tell_micros(sample(0, false)));
    assert!(!fast.can_tell_micros(sample(1_000, false)));
}

#[test]
fn callback_gets_each_tick_once() {
    let log = Rc::new(RefCell::new(Vec::new()));
    let mut tb = Recording::new();
    init_with_frequency(&mut tb, Token(0), 1_000_000, 1_000);
    set_callback(&mut tb, recorder(&log));
    for _ in 0..6 {
        interrupt(&mut tb);
    }
    assert_eq!(*log.borrow(), vec![1, 2, 3, 4, 5, 6]);
}

#[test]
fn callback_counts_on_from_the_ticks_at_registration() {
    let log = Rc::new(RefCell::new(Vec::new()));
    let mut tb = Recording::new();
    init_with_frequency(&mut tb, Token(0), 1_000_000, 1_000);
    for _ in 0..3 {
        interrupt(&mut tb);
    }
    assert!(log.borrow().is_empty());
    set_callback(&mut tb, recorder(&log));
    for _ in 0..4 {
        interrupt(&mut tb);
    }
    assert_eq!(*log.borrow(), vec![4, 5, 6, 7]);
}

#[test]
fn callback_sees_the_tick_that_includes_its_underflow() {
    let log = Rc::new(RefCell::new(Vec::new()));
    let mut tb = Recording::new();
    init_with_frequency(&mut tb, Token(0), 1_000_000, 1_000);
    set_callback(&mut tb, recorder(&log));
    interrupt(&mut tb);
    assert_eq!(log.borrow().last().copied(), Some(ticks(&tb)));
}

#[test]
fn cleared_callback_is_not_called() {
    let log = Rc::new(RefCell::new(Vec::new()));
    let mut tb = Recording::new();
    init_with_frequency(&mut tb, Token(0), 1_000_000, 1_000);
    set_callback(&mut tb, recorder(&log));
    interrupt(&mut tb);
    clear_callback(&mut tb);
    assert!(!tb.has_callback());
    interrupt(&mut tb);
    interrupt(&mut tb);
    assert_eq!(*log.borrow(), vec![1]);
    assert_eq!(ticks(&tb), 3);
}

#[test]
fn set_callback_replaces_the_callback() {
    let first = Rc::new(RefCell::new(Vec::new()));
    let second = Rc::new(RefCell::new(Vec::new()));
    let mut tb = Recording::new();
    init_with_frequency(&mut tb, Token(0), 1_000_000, 1_000);
    set_callback(&mut tb, recorder(&first));
    interrupt(&mut tb);
    set_callback(&mut tb, recorder(&second));
    interrupt(&mut tb);
    assert_eq!(*first.borrow(), vec![1]);
    assert_eq!(*second.borrow(), vec![2]);
}

#[test]
fn callback_slot_takes_a_plain_function() {
    fn ignore(_tick: u64) {}
    let mut tb = Plain::new();
    set_callback(&mut tb, ignore);
    assert!(tb.has_callback());
    init_with_frequency(&mut tb, Token(0), 1_000_000, 1_000);
    interrupt(&mut tb);
    assert_eq!(ticks(&tb), 1);
}

#[test]
fn can_tick_while_the_counter_is_held() {
    let mut tb = running(1_000_000, 1_000, 1);
    assert!(tb.can_tick());
    free(&mut tb);
    assert!(!tb.can_tick());
}
