use frtosrs::delay::delay_n;
use frtosrs::heap::CustomAllocator;
use frtosrs::led::{Leds, PinLevel};
use frtosrs::serial::{block_step, BlockStep, NbOutcome, UartType};
use frtosrs::usb::WriteCursor;

#[test]
fn leds_start_unregistered() {
    let leds = Leds::new();
    assert_eq!(leds.led_blue, None);
    assert_eq!(leds.led_green, None);
}

#[test]
fn leds_init_darkens_both() {
    let mut leds = Leds::new();
    leds.init();
    assert_eq!(leds.led_blue, Some(PinLevel::High));
    assert_eq!(leds.led_green, Some(PinLevel::High));
}

#[test]
fn leds_toggles_touch_one_led() {
    let mut leds = Leds::new();
    leds.init();
    leds.toggle_green();
    assert_eq!(leds.led_green, Some(PinLevel::Low));
    assert_eq!(leds.led_blue, Some(PinLevel::High));
    leds.toggle_blue();
    assert_eq!(leds.led_blue, Some(PinLevel::Low));
    assert_eq!(leds.led_green, Some(PinLevel::Low));
}

#[test]
fn leds_toggle_twice_restores() {
    let mut leds = Leds::new();
    leds.init();
    leds.toggle_green();
    leds.toggle_green();
    assert_eq!(leds.led_green, Some(PinLevel::High));
    leds.toggle_blue();
    leds.toggle_blue();
    assert_eq!(leds.led_blue, Some(PinLevel::High));
}

#[test]
fn leds_set_blue_on_off_and_flasher() {
    let mut leds = Leds::new();
    leds.init();
    leds.toggle_green();
    leds.set_blue_on();
    assert_eq!(leds.led_blue, Some(PinLevel::Low));
    assert_eq!(leds.led_green, Some(PinLevel::Low));
    leds.off();
    assert_eq!(leds.led_blue, Some(PinLevel::High));
    assert_eq!(leds.led_green, Some(PinLevel::High));
    leds.flasher();
    assert_eq!(leds.led_blue, Some(PinLevel::Low));
    assert_eq!(leds.led_green, Some(PinLevel::High));
}

#[test]
fn leds_stack_overflow_signal() {
    let mut leds = Leds::new();
    leds.init();
    leds.toggle_green();
    let levels = leds.stack_overflow_signal();
    assert_eq!(levels.len(), 11);
    for (i, l) in levels.iter().take(10).enumerate() {
        let expected = if i % 2 == 0 { PinLevel::Low } else { PinLevel::High };
        assert_eq!(*l, expected);
    }
    assert_eq!(levels[9], PinLevel::High);
    assert_eq!(levels[10], PinLevel::Low);
    assert_eq!(leds.led_blue, Some(PinLevel::Low));
    assert_eq!(leds.led_green, Some(PinLevel::Low));
}

#[test]
fn pin_level_flip() {
    assert_eq!(PinLevel::Low.flip(), PinLevel::High);
    assert_eq!(PinLevel::High.flip(), PinLevel::Low);
}

#[test]
fn uart_halves_handed_over() {
    let mut u = UartType::new();
    assert!(!u.tx && !u.rx);
    u.from_serial();
    assert!(u.tx && u.rx);
}

#[test]
fn uart_write_retries_until_ready() {
    let mut u = UartType::new();
    u.from_serial();
    assert_eq!(u.write_step(NbOutcome::WouldBlock), BlockStep::Retry);
    assert_eq!(u.write_step(NbOutcome::Ready(())), BlockStep::Done(()));
    assert_eq!(u.write_step(NbOutcome::Failed), BlockStep::Fault);
}

#[test]
fn uart_read_returns_the_byte() {
    let mut u = UartType::new();
    u.from_serial();
    assert_eq!(u.read_step(NbOutcome::Ready(0x41)), BlockStep::Done(0x41));
    assert_eq!(u.read_step(NbOutcome::WouldBlock), BlockStep::Retry);
    assert_eq!(u.read_step(NbOutcome::Failed), BlockStep::Fault);
}

#[test]
fn block_step_for_any_payload() {
    assert_eq!(block_step(NbOutcome::Ready(7u32)), BlockStep::Done(7u32));
    assert_eq!(block_step::<u32>(NbOutcome::WouldBlock), BlockStep::Retry);
}

#[test]
fn cursor_walks_message_in_chunks() {
    let mut c = WriteCursor::new(10);
    assert!(!c.is_done());
    c.record_write(Some(4));
    assert_eq!(c.offset(), 4);
    c.record_write(None);
    assert_eq!(c.offset(), 4);
    c.record_write(Some(0));
    assert_eq!(c.offset(), 4);
    assert!(!c.is_done());
    c.record_write(Some(6));
    assert_eq!(c.offset(), 10);
    assert_eq!(c.count(), 10);
    assert!(c.is_done());
}

#[test]
fn cursor_of_empty_message_is_done() {
    let c = WriteCursor::new(0);
    assert!(c.is_done());
}

#[test]
fn heap_counts_allocations() {
    let mut a = CustomAllocator::new();
    assert_eq!(a.allocated_mem(), 0);
    a.count_alloc(64);
    a.count_alloc(16);
    assert_eq!(a.allocated_mem(), 80);
    a.count_dealloc(64);
    assert_eq!(a.allocated_mem(), 16);
    a.count_dealloc(16);
    assert_eq!(a.allocated_mem(), 0);
}

#[test]
fn delay_returns() {
    delay_n(0);
    delay_n(-3);
    delay_n(5);
}
