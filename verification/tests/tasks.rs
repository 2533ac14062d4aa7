use frtosrs::decimal::decimal_string;
use frtosrs::led::{Leds, PinLevel};
use frtosrs::tasks::{bytes_to_words, blink_step, BlinkAction, Console, RtosError, TasksData, TasksNum};

#[test]
fn decimal_of_zero_and_single_digits() {
    assert_eq!(decimal_string(0), "0");
    assert_eq!(decimal_string(7), "7");
    assert_eq!(decimal_string(9), "9");
}

#[test]
fn decimal_of_larger_values() {
    assert_eq!(decimal_string(10), "10");
    assert_eq!(decimal_string(100), "100");
    assert_eq!(decimal_string(123), "123");
    assert_eq!(decimal_string(4_294_967_295), "4294967295");
}

#[test]
fn decimal_matches_std_formatting() {
    for n in [0u32, 1, 42, 999, 1000, 65_535, 1_000_000, 2_147_483_648] {
        assert_eq!(decimal_string(n), format!("{}", n));
    }
}

#[test]
fn blink_report_text() {
    let d = TasksData { num: TasksNum::Task1, min_free_mem: 740 };
    assert_eq!(d.to_string(), "Task Blinky:\n\t mem: 740");
}

#[test]
fn usb_report_text() {
    let d = TasksData { num: TasksNum::Task2, min_free_mem: 0 };
    assert_eq!(d.to_string(), "Task Usb:\n\t mem: 0");
}

#[test]
fn task_names() {
    assert_eq!(TasksNum::Task1.name(), "Blinky");
    assert_eq!(TasksNum::Task2.name(), "Usb");
}

#[test]
fn error_messages() {
    assert_eq!(RtosError::OutOfMemory.message(), "OOM");
    assert_eq!(RtosError::QueueSendTimeout.message(), "send Timeout");
    assert_eq!(RtosError::QueueReceiveTimeout.message(), "recvTmeout");
    assert_eq!(RtosError::MutexTimeout.message(), "mutexTimeout");
    assert_eq!(RtosError::Timeout.message(), "timeout");
    assert_eq!(RtosError::QueueFull.message(), "queueFull");
    assert_eq!(RtosError::StringConversionError.message(), "string conv err");
    assert_eq!(RtosError::TaskNotFound.message(), "task not found");
    assert_eq!(RtosError::InvalidQueueSize.message(), "invalid size");
    assert_eq!(RtosError::ProcessorHasShutDown.message(), "processor shutdown");
}

#[test]
fn console_report_of_received_data() {
    let mut c = Console::new(0, 1000);
    let got = TasksData { num: TasksNum::Task1, min_free_mem: 123 };
    let text = c.report(1500, Ok(got), 2048);
    assert_eq!(text, "Task Blinky:\n\t mem: 123\nTask Usb:\n\t mem: 2048\n");
    assert_eq!(c.last_send_time(), 1500);
}

#[test]
fn console_report_of_receive_timeout() {
    let mut c = Console::new(0, 1000);
    let text = c.report(1000, Err(RtosError::QueueReceiveTimeout), 55);
    assert_eq!(text, "recvTmeout\nTask Usb:\n\t mem: 55\n");
}

#[test]
fn console_due_after_one_period() {
    let c = Console::new(500, 1000);
    assert!(!c.is_due(500));
    assert!(!c.is_due(1499));
    assert!(c.is_due(1500));
    assert!(c.is_due(9000));
}

#[test]
fn console_due_across_tick_wrap() {
    let c = Console::new(u32::MAX - 100, 1000);
    assert!(!c.is_due(898));
    assert!(c.is_due(899));
}

#[test]
fn console_reports_only_when_usb_ready() {
    let c = Console::new(0, 1000);
    assert!(!c.should_report(false, 5000));
    assert!(c.should_report(true, 5000));
    assert!(!c.should_report(true, 10));
}

#[test]
fn console_not_due_right_after_report() {
    let mut c = Console::new(0, 1000);
    let _ = c.report(2000, Err(RtosError::Timeout), 1);
    assert!(!c.is_due(2000));
    assert!(!c.is_due(2999));
    assert!(c.is_due(3000));
}

#[test]
fn blink_retries_without_led() {
    let mut leds = Leds::new();
    assert_eq!(blink_step(&mut leds, true), BlinkAction::Retry);
    assert_eq!(leds.led_green, None);
    assert_eq!(leds.led_blue, None);
}

#[test]
fn blink_toggles_and_reports() {
    let mut leds = Leds::new();
    leds.init();
    assert_eq!(blink_step(&mut leds, true), BlinkAction::Report);
    assert_eq!(leds.led_green, Some(PinLevel::Low));
    assert_eq!(leds.led_blue, Some(PinLevel::High));
    assert_eq!(blink_step(&mut leds, false), BlinkAction::Sleep);
    assert_eq!(leds.led_green, Some(PinLevel::High));
}

#[test]
fn stack_sizes_in_words() {
    assert_eq!(bytes_to_words(740), 185);
    assert_eq!(bytes_to_words(2400), 600);
    assert_eq!(bytes_to_words(400), 100);
    assert_eq!(bytes_to_words(3), 0);
}
