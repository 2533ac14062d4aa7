//! Verified core of a FreeRTOS firmware for the MatekH743 board: the
//! status-LED model, the UART and USB transfer bookkeeping, the heap
//! accounting of the allocator and the task-report formatting and
//! scheduling decisions.

pub mod heap;
pub mod decimal;
pub mod delay;
pub mod led;
pub mod serial;
pub mod tasks;
pub mod usb;
