//! The firmware's two tasks and the reports they exchange.
//!
//! The blink task toggles the green LED once a second and, when the
//! report queue exists, sends its own stack figure through it. The console
//! task, whenever the USB port is ready and a reporting period has passed
//! since its last report, takes one entry from the queue (or the error of
//! that attempt) and prints it with its own stack figure.
use vstd::prelude::*;
use crate::decimal::{decimal_chars, decimal_value, is_digit, lemma_decimal_roundtrip, push_decimal};
use crate::led::Leds;

verus! {

/// Which task a report is about.
#[derive(Clone, Copy, PartialEq, Eq, Structural, Debug)]
pub enum TasksNum {
    /// The blink task.
    Task1,
    /// The console (USB) task.
    Task2,
}

/// A task's report: the least free stack it has had, in words.
#[derive(Clone, Copy, PartialEq, Eq, Structural, Debug)]
pub struct TasksData {
    pub num: TasksNum,
    pub min_free_mem: u32,
}

/// The name under which a task is reported.
pub open spec fn task_name(num: TasksNum) -> Seq<char> {
    match num {
        TasksNum::Task1 => "Blinky"@,
        TasksNum::Task2 => "Usb"@,
    }
}

/// The start of a report, before the figure: `Task <name>:`, a line
/// break, a tab and ` mem: `.
pub open spec fn report_header(num: TasksNum) -> Seq<char> {
    "Task "@ + task_name(num) + ":\n\t mem: "@
}

/// The text of a report: `Task <name>:`, a line break, a tab and
/// ` mem: <figure>`.
pub open spec fn report_chars(d: TasksData) -> Seq<char> {
    "Task "@ + task_name(d.num) + ":\n\t mem: "@ + decimal_chars(d.min_free_mem as nat)
}

impl TasksNum {
    /// The task's name in reports.
    pub fn name(&self) -> (r: &'static str)
        ensures
            r@ == task_name(*self),
    {
        match self {
            TasksNum::Task1 => "Blinky",
            TasksNum::Task2 => "Usb",
        }
    }
}

impl TasksData {
    /// The text of this report.
    pub fn to_string(&self) -> (r: String)
        ensures
            r@ == report_chars(*self),
            r@.len() > report_header(self.num).len(),
            r@.subrange(0, report_header(self.num).len() as int) == report_header(self.num),
            forall|i: int|
                report_header(self.num).len() <= i < r@.len() ==> is_digit(#[trigger] r@[i]),
            decimal_value(r@.skip(report_header(self.num).len() as int)) == self.min_free_mem,
    {
        proof {
            lemma_report_figure(*self);
        }
        let mut s = String::new();
        s.append("Task ");
        s.append(self.num.name());
        s.append(":\n\t mem: ");
        push_decimal(&mut s, self.min_free_mem);
        assert(s@ =~= report_chars(*self));
        s
    }
}

/// The errors of the RTOS's calls, as the console tells them apart.
#[derive(Clone, Copy, PartialEq, Eq, Structural, Debug)]
pub enum RtosError {
    OutOfMemory,
    QueueSendTimeout,
    QueueReceiveTimeout,
    MutexTimeout,
    Timeout,
    QueueFull,
    StringConversionError,
    TaskNotFound,
    InvalidQueueSize,
    ProcessorHasShutDown,
}

/// The short text under which the console reports an error.
pub open spec fn error_text(e: RtosError) -> Seq<char> {
    match e {
        RtosError::OutOfMemory => "OOM"@,
        RtosError::QueueSendTimeout => "send Timeout"@,
        RtosError::QueueReceiveTimeout => "recvTmeout"@,
        RtosError::MutexTimeout => "mutexTimeout"@,
        RtosError::Timeout => "timeout"@,
        RtosError::QueueFull => "queueFull"@,
        RtosError::StringConversionError => "string conv err"@,
        RtosError::TaskNotFound => "task not found"@,
        RtosError::InvalidQueueSize => "invalid size"@,
        RtosError::ProcessorHasShutDown => "processor shutdown"@,
    }
}

impl RtosError {
    /// The short text under which the console reports this error.
    pub fn message(&self) -> (r: &'static str)
        ensures
            r@ == error_text(*self),
    {
        match self {
            RtosError::OutOfMemory => "OOM",
            RtosError::QueueSendTimeout => "send Timeout",
            RtosError::QueueReceiveTimeout => "recvTmeout",
            RtosError::MutexTimeout => "mutexTimeout",
            RtosError::Timeout => "timeout",
            RtosError::QueueFull => "queueFull",
            RtosError::StringConversionError => "string conv err",
            RtosError::TaskNotFound => "task not found",
            RtosError::InvalidQueueSize => "invalid size",
            RtosError::ProcessorHasShutDown => "processor shutdown",
        }
    }
}

/// What the console prints of one attempt to take a report from the
/// queue: the report, or the error of the attempt.
pub open spec fn received_chars(received: Result<TasksData, RtosError>) -> Seq<char> {
    match received {
        Ok(d) => report_chars(d),
        Err(e) => error_text(e),
    }
}

/// One message of the console: what it received, a line break, its own
/// report, a line break.
pub open spec fn console_chars(received: Result<TasksData, RtosError>, own: TasksData) -> Seq<char> {
    received_chars(received) + "\n"@ + report_chars(own) + "\n"@
}

/// Ticks from `last` to `now` on the RTOS tick counter, which wraps
/// around after `u32::MAX`.
pub open spec fn ticks_since(last: u32, now: u32) -> int {
    if now >= last {
        now - last
    } else {
        now - last + 0x1_0000_0000
    }
}

/// The console task's state: when it last reported, and how many ticks
/// must pass between two reports.
pub struct Console {
    last_send_time: u32,
    period: u32,
}

impl Console {
    /// The tick of the last report (of the start, before the first one).
    pub closed spec fn last_sent(&self) -> u32 {
        self.last_send_time
    }

    /// The least number of ticks between two reports.
    pub closed spec fn period_ticks(&self) -> u32 {
        self.period
    }

    /// Whether a report is due at tick `now`.
    pub open spec fn due_at(&self, now: u32) -> bool {
        ticks_since(self.last_sent(), now) >= self.period_ticks()
    }

    /// A console started at tick `start`, reporting at most once every
    /// `period` ticks.
    pub fn new(start: u32, period: u32) -> (r: Console)
        ensures
            r.last_sent() == start,
            r.period_ticks() == period,
    {
        Console { last_send_time: start, period }
    }

    /// The tick of the last report.
    pub fn last_send_time(&self) -> (r: u32)
        ensures
            r == self.last_sent(),
    {
        self.last_send_time
    }

    /// Whether a report is due at tick `now`.
    pub fn is_due(&self, now: u32) -> (r: bool)
        ensures
            r == self.due_at(now),
            r == ((now as int - self.last_sent() as int) % 0x1_0000_0000 >= self.period_ticks()),
    {
        proof {
            lemma_due_is_modular(*self, now);
        }
        now.wrapping_sub(self.last_send_time) >= self.period
    }

    /// Whether the console reports in this round: the USB port must be
    /// ready and a report due.
    pub fn should_report(&self, usb_ready: bool, now: u32) -> (r: bool)
        ensures
            r == (usb_ready && self.due_at(now)),
            r == (usb_ready && (now as int - self.last_sent() as int) % 0x1_0000_0000
                >= self.period_ticks()),
    {
        proof {
            lemma_due_is_modular(*self, now);
        }
        usb_ready && self.is_due(now)
    }

    /// The message for a report made at tick `now`, from what was taken
    /// from the queue and the console's own least free stack; the report
    /// is recorded as made at `now`.
    pub fn report(
        &mut self,
        now: u32,
        received: Result<TasksData, RtosError>,
        free_stack: u32,
    ) -> (text: String)
        ensures
            text@ == console_chars(received, TasksData { num: TasksNum::Task2, min_free_mem: free_stack }),
            final(self).last_sent() == now,
            final(self).period_ticks() == old(self).period_ticks(),
    {
        let mut text = match received {
            Ok(d) => d.to_string(),
            Err(e) => {
                let mut s = String::new();
                s.append(e.message());
                s
            },
        };
        let own = TasksData { num: TasksNum::Task2, min_free_mem: free_stack };
        let own_text = own.to_string();
        text.append("\n");
        text.append(own_text.as_str());
        text.append("\n");
        assert(text@ =~= console_chars(received, own));
        self.last_send_time = now;
        text
    }
}

/// What the blink task does after one round.
#[derive(Clone, Copy, PartialEq, Eq, Structural, Debug)]
pub enum BlinkAction {
    /// The green LED is not available yet: try again at once.
    Retry,
    /// Send the task's report to the console, then sleep a second.
    Report,
    /// Sleep a second.
    Sleep,
}

/// One round of the blink task: toggle the green LED if it is there;
/// then report through the queue if the queue exists, and sleep.
pub fn blink_step(leds: &mut Leds, queue_ready: bool) -> (r: BlinkAction)
    ensures
        old(leds).led_green is None ==> r == BlinkAction::Retry && *final(leds) == *old(leds),
        old(leds).led_green is Some ==> {
            &&& final(leds).led_green == Some(old(leds).led_green.unwrap().flipped())
            &&& final(leds).led_blue == old(leds).led_blue
            &&& r == if queue_ready {
                BlinkAction::Report
            } else {
                BlinkAction::Sleep
            }
        },
{
    if leds.led_green.is_none() {
        return BlinkAction::Retry;
    }
    leds.toggle_green();
    if queue_ready {
        BlinkAction::Report
    } else {
        BlinkAction::Sleep
    }
}

/// A task's stack size given in bytes, in the 32-bit words in which the
/// RTOS counts stacks (a partial word is dropped).
pub fn bytes_to_words(bytes: u16) -> (r: u16)
    ensures
        r == bytes / 4,
{
    bytes / 4
}

/// Right after a report at tick `now` no other report is due at the same
/// tick (for a positive period), and the next one falls due exactly when a
/// whole period has passed since `now`, across a wrap of the tick counter
/// too.
pub proof fn lemma_report_spacing(c: Console, now: u32, later: u32)
    requires
        c.last_sent() == now,
        c.period_ticks() > 0,
    ensures
        !c.due_at(now),
        c.due_at(later) <==> ticks_since(now, later) >= c.period_ticks(),
        0 <= ticks_since(now, later) <= u32::MAX,
{
}

/// The console's due test counts the ticks since the last report modulo
/// 2^32: a report is due exactly when `(now - last) mod 2^32` reaches the
/// period, however long the console has gone without reporting.
pub proof fn lemma_due_is_modular(c: Console, now: u32)
    ensures
        c.due_at(now) <==> (now as int - c.last_sent() as int) % 0x1_0000_0000 >= c.period_ticks(),
        ticks_since(c.last_sent(), now) == (now as int - c.last_sent() as int) % 0x1_0000_0000,
{
    let d = now as int - c.last_sent() as int;
    if d >= 0 {
        assert(d % 0x1_0000_0000 == d);
    } else {
        assert((d + 0x1_0000_0000) % 0x1_0000_0000 == d % 0x1_0000_0000) by {
            vstd::arithmetic::div_mod::lemma_mod_add_multiples_vanish(d, 0x1_0000_0000);
        }
        assert((d + 0x1_0000_0000) % 0x1_0000_0000 == d + 0x1_0000_0000);
    }
}

/// A report's text is its header followed by the figure in decimal: only
/// digits, reading back as the report's own least free stack, with no
/// leading zero unless the figure is zero.
pub proof fn lemma_report_figure(d: TasksData)
    ensures
        report_chars(d).len() > report_header(d.num).len(),
        report_chars(d).subrange(0, report_header(d.num).len() as int) == report_header(d.num),
        forall|i: int|
            report_header(d.num).len() <= i < report_chars(d).len() ==> is_digit(
                #[trigger] report_chars(d)[i],
            ),
        decimal_value(report_chars(d).skip(report_header(d.num).len() as int)) == d.min_free_mem,
        d.min_free_mem > 0 ==> report_chars(d)[report_header(d.num).len() as int] != '0',
{
    let h = report_header(d.num);
    let f = decimal_chars(d.min_free_mem as nat);
    lemma_decimal_roundtrip(d.min_free_mem as nat);
    assert(report_chars(d) =~= h + f);
    assert((h + f).subrange(0, h.len() as int) =~= h);
    assert((h + f).skip(h.len() as int) =~= f);
    assert forall|i: int| h.len() <= i < (h + f).len() implies is_digit(#[trigger] (h + f)[i]) by {
        assert((h + f)[i] == f[i - h.len()]);
    }
    assert((h + f)[h.len() as int] == f[0]);
}

/// The console's message starts with exactly the text of what it received
/// (the report taken from the queue, whatever the console's own figure,
/// or the error's text), then a line break; it ends with the console's own
/// report and a line break, and holds nothing else.
pub proof fn lemma_console_message(received: Result<TasksData, RtosError>, own: TasksData)
    ensures
        ({
            let m = console_chars(received, own);
            let r = received_chars(received);
            let o = report_chars(own);
            &&& m.len() == r.len() + o.len() + 2
            &&& m.subrange(0, r.len() as int) == r
            &&& m[r.len() as int] == '\n'
            &&& m.subrange(r.len() as int + 1, m.len() - 1) == o
            &&& m[m.len() - 1] == '\n'
        }),
        received matches Ok(d) ==> received_chars(received) == report_chars(d),
        received matches Err(e) ==> received_chars(received) == error_text(e),
{
    reveal_strlit("\n");
    let m = console_chars(received, own);
    let r = received_chars(received);
    let o = report_chars(own);
    assert(m =~= r + seq!['\n'] + o + seq!['\n']);
    assert(m.subrange(0, r.len() as int) =~= r);
    assert(m.subrange(r.len() as int + 1, m.len() - 1) =~= o);
}

} // verus!
