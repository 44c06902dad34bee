use std::sync::atomic::{AtomicUsize, Ordering};
use std::sync::Arc;

use futures::task::{noop_waker, waker, ArcWake};
use pl011::config::baud_divisor;
use pl011::regs::{is_rx_empty, is_tx_full, Reg, RegWrite, FR_RXFE, FR_TXFF};
use pl011::transmit::TxStep;
use pl011::uart::{received_byte, RxStep, Uart, WriteFuture, ICR_ALL};

const BAUD_RATE: u32 = 115200;
const CLK_RATE: u32 = 100_000_000;
const BASE: usize = 0x0900_0000;

struct CountingWaker {
    wakes: AtomicUsize,
}

impl ArcWake for CountingWaker {
    fn wake_by_ref(arc_self: &Arc<Self>) {
        arc_self.wakes.fetch_add(1, Ordering::SeqCst);
    }
}

fn counting_waker() -> (Arc<CountingWaker>, std::task::Waker) {
    let c = Arc::new(CountingWaker { wakes: AtomicUsize::new(0) });
    let w = waker(c.clone());
    (c, w)
}

/// Steps a transmit until it completes or suspends, with the transmit FIFO
/// reporting `room` free slots before it fills; returns the bytes written and
/// the final step.
fn drive(uart: &mut Uart, fut: &mut WriteFuture, room: usize, w: &std::task::Waker) -> (Vec<u8>, TxStep) {
    let mut out = Vec::new();
    let mut free = room;
    loop {
        let flags = if free == 0 { FR_TXFF } else { 0 };
        match fut.poll_step(uart, flags, w) {
            TxStep::Write(b) => {
                out.push(b);
                free -= 1;
            }
            other => return (out, other),
        }
    }
}

#[test]
fn it_works() {
    let a = 2;
    let b = 2;
    assert_eq!(a + b, 4);

    let mut uart = Uart::new(BASE);
    // the arguments in the order the board bring-up passes them
    let writes = uart.init(BAUD_RATE, CLK_RATE);
    assert_eq!(writes.len(), 7);

    let (count, w) = counting_waker();
    let msg = b"Hello, async World!";
    let mut fut = uart.write(msg);
    let mut sent = Vec::new();
    loop {
        let (bytes, step) = drive(&mut uart, &mut fut, 4, &w);
        sent.extend(bytes);
        match step {
            TxStep::Pending => {
                let clear = uart.handle_interrupt(0);
                assert_eq!(clear, RegWrite { reg: Reg::Icr, value: ICR_ALL });
            }
            TxStep::Ready(n) => {
                assert_eq!(n, msg.len());
                break;
            }
            TxStep::Write(_) => unreachable!(),
        }
    }
    assert_eq!(sent, msg.to_vec());
    assert_eq!(uart.irq_count(), 4);
    assert_eq!(count.wakes.load(Ordering::SeqCst), 4);
}

#[test]
fn divisor_for_100mhz_at_115200() {
    // 100_000_000 mod 1_843_200 = 467_200; 467_200 * 64 / 1_843_200 = 16.22, rounded to 16
    assert_eq!(baud_divisor(CLK_RATE, BAUD_RATE), (54, 16));
    let uart = Uart::new(BASE);
    let writes = uart.init(CLK_RATE, BAUD_RATE);
    assert_eq!(writes[1], RegWrite { reg: Reg::Ibrd, value: 54 });
    assert_eq!(writes[2], RegWrite { reg: Reg::Fbrd, value: 16 });
}

#[test]
fn divisor_fraction_rounds() {
    // 48_000_000 mod 1_843_200 = 76_800; 76_800 * 64 / 1_843_200 = 2.67, rounded to 3
    assert_eq!(baud_divisor(48_000_000, 115200), (26, 3));
    let uart = Uart::new(BASE);
    let writes = uart.init(48_000_000, 115200);
    assert_eq!(writes[1], RegWrite { reg: Reg::Ibrd, value: 26 });
    assert_eq!(writes[2], RegWrite { reg: Reg::Fbrd, value: 3 });
    // 16 * 7 = 112; 1000 mod 112 = 104; 104 * 64 / 112 = 59.43, rounded to 59
    assert_eq!(baud_divisor(1000, 7), (8, 59));
    // 15 * 64 / 16 = 60 exactly
    assert_eq!(baud_divisor(u32::MAX, 1), (268_435_455, 60));
    // wide inputs do not overflow
    assert_eq!(baud_divisor(u32::MAX, u32::MAX), (0, 4));
}

#[test]
fn divisor_fraction_carries_into_integer() {
    // 127 * 64 / 128 = 63.5 rounds to 64, which carries
    assert_eq!(baud_divisor(127, 8), (1, 0));
    assert_eq!(baud_divisor(255, 8), (2, 0));
}

#[test]
fn init_program_in_order() {
    let uart = Uart::new(BASE);
    let writes = uart.init(CLK_RATE, BAUD_RATE);
    let expected = vec![
        RegWrite { reg: Reg::Cr, value: 0 },
        RegWrite { reg: Reg::Ibrd, value: 54 },
        RegWrite { reg: Reg::Fbrd, value: 16 },
        RegWrite { reg: Reg::Ifls, value: 0x20 },
        RegWrite { reg: Reg::Lcrh, value: 0x70 },
        RegWrite { reg: Reg::Imsc, value: 0x30 },
        RegWrite { reg: Reg::Cr, value: 0x301 },
    ];
    assert_eq!(writes, expected);
}

#[test]
fn init_twice_gives_same_divisors() {
    let uart = Uart::new(BASE);
    let first = uart.init(48_000_000, 9600);
    let second = uart.init(48_000_000, 9600);
    assert_eq!(first, second);
    assert_eq!(first[1].value, 312);
    assert_eq!(first[2].value, 32);
}

#[test]
fn transmit_writes_every_byte_in_order() {
    let mut uart = Uart::new(BASE);
    let w = noop_waker();
    let data: Vec<u8> = (0u8..=255).chain(0u8..10).collect();
    let mut fut = uart.write(&data);
    let mut sent = Vec::new();
    let mut interrupts = 0;
    loop {
        let (bytes, step) = drive(&mut uart, &mut fut, 3, &w);
        sent.extend(bytes);
        match step {
            TxStep::Pending => {
                uart.handle_interrupt(0);
                interrupts += 1;
            }
            TxStep::Ready(n) => {
                assert_eq!(n, data.len());
                break;
            }
            TxStep::Write(_) => unreachable!(),
        }
    }
    assert_eq!(sent, data);
    assert_eq!(interrupts, (data.len() - 1) / 3);
    assert!(fut.is_complete());
}

#[test]
fn full_fifo_suspends_without_writing() {
    let mut uart = Uart::new(BASE);
    let (count, w) = counting_waker();
    let data = b"abc";
    let mut fut = uart.write(data);
    assert_eq!(fut.poll_step(&mut uart, 0, &w), TxStep::Write(b'a'));
    assert_eq!(fut.poll_step(&mut uart, FR_TXFF, &w), TxStep::Pending);
    assert_eq!(fut.index(), 1);
    assert!(uart.is_waiting());
    assert_eq!(count.wakes.load(Ordering::SeqCst), 0);

    // an interrupt while the FIFO is still full keeps the registration
    uart.handle_interrupt(FR_TXFF | FR_RXFE);
    assert!(uart.is_waiting());
    assert_eq!(count.wakes.load(Ordering::SeqCst), 0);

    // once it has room the interrupt wakes the transmit, which resumes
    uart.handle_interrupt(FR_RXFE);
    assert!(!uart.is_waiting());
    assert_eq!(count.wakes.load(Ordering::SeqCst), 1);
    assert_eq!(fut.poll_step(&mut uart, 0, &w), TxStep::Write(b'b'));
    assert_eq!(fut.poll_step(&mut uart, 0, &w), TxStep::Write(b'c'));
    assert_eq!(fut.poll_step(&mut uart, 0, &w), TxStep::Ready(3));
}

#[test]
fn completion_clears_registration() {
    let mut uart = Uart::new(BASE);
    let (count, w) = counting_waker();
    let data = b"xy";
    let mut fut = uart.write(data);
    assert_eq!(fut.poll_step(&mut uart, 0, &w), TxStep::Write(b'x'));
    assert_eq!(fut.poll_step(&mut uart, FR_TXFF, &w), TxStep::Pending);
    assert!(uart.is_waiting());
    // polled again without an interrupt, as after a spurious wake
    assert_eq!(fut.poll_step(&mut uart, 0, &w), TxStep::Write(b'y'));
    assert!(uart.is_waiting());
    assert_eq!(fut.poll_step(&mut uart, FR_TXFF, &w), TxStep::Ready(2));
    assert!(!uart.is_waiting());
    // the cleared waker is not woken by a later interrupt
    uart.handle_interrupt(0);
    assert_eq!(count.wakes.load(Ordering::SeqCst), 0);
}

#[test]
fn last_registration_is_woken() {
    let mut uart = Uart::new(BASE);
    let (first, w1) = counting_waker();
    let (second, w2) = counting_waker();
    let data = b"z";
    let mut fut = uart.write(data);
    assert_eq!(fut.poll_step(&mut uart, FR_TXFF, &w1), TxStep::Pending);
    assert_eq!(fut.poll_step(&mut uart, FR_TXFF, &w2), TxStep::Pending);
    uart.handle_interrupt(0);
    assert_eq!(first.wakes.load(Ordering::SeqCst), 0);
    assert_eq!(second.wakes.load(Ordering::SeqCst), 1);
    uart.handle_interrupt(0);
    assert_eq!(second.wakes.load(Ordering::SeqCst), 1);
}

#[test]
fn interrupt_without_registration_wakes_nothing() {
    let mut uart = Uart::new(BASE);
    let clear = uart.handle_interrupt(0);
    assert_eq!(clear, RegWrite { reg: Reg::Icr, value: 0xffff_ffff });
    assert!(!uart.is_waiting());
    assert_eq!(uart.irq_count(), 1);
}

#[test]
fn irq_counter_counts_each_interrupt() {
    let mut uart = Uart::new(BASE);
    let w = noop_waker();
    let data = [1u8, 2, 3, 4, 5];
    let mut fut = uart.write(&data);
    for i in 0..10usize {
        // task context and interrupt context take turns on the handle
        let flags = if i % 2 == 0 { FR_TXFF } else { 0 };
        let _ = fut.poll_step(&mut uart, flags, &w);
        assert_eq!(uart.irq_count(), i);
        uart.handle_interrupt(flags);
        assert_eq!(uart.irq_count(), i + 1);
    }
    assert_eq!(fut.index(), 5);
}

#[test]
fn empty_buffer_completes_at_once() {
    let mut uart = Uart::new(BASE);
    let (count, w) = counting_waker();
    let data: [u8; 0] = [];
    let mut fut = uart.write(&data);
    assert!(fut.is_complete());
    assert_eq!(fut.poll_step(&mut uart, FR_TXFF, &w), TxStep::Ready(0));
    assert_eq!(fut.poll_step(&mut uart, 0, &w), TxStep::Ready(0));
    assert!(!uart.is_waiting());
    assert_eq!(count.wakes.load(Ordering::SeqCst), 0);
}

#[test]
fn receive_checks_the_receive_fifo() {
    let uart = Uart::new(BASE);
    assert_eq!(uart.receive(FR_RXFE), RxStep::Empty);
    assert_eq!(uart.receive(FR_RXFE | FR_TXFF), RxStep::Empty);
    assert_eq!(uart.receive(FR_TXFF), RxStep::ReadData);
    assert_eq!(uart.receive(0), RxStep::ReadData);
    assert_eq!(received_byte(0x0000_0f41), 0x41);
    assert_eq!(received_byte(0x41), b'A');
}

#[test]
fn send_blocking_respects_full_fifo() {
    let uart = Uart::new(BASE);
    assert_eq!(uart.send_blocking(FR_TXFF, b'x'), None);
    assert_eq!(uart.send_blocking(0, b'x'), Some(RegWrite { reg: Reg::Dr, value: 0x78 }));
    assert_eq!(uart.send_blocking(FR_RXFE, 0xff), Some(RegWrite { reg: Reg::Dr, value: 0xff }));
}

#[test]
fn flag_bits() {
    assert!(is_tx_full(0x20));
    assert!(!is_tx_full(0x10 | 0x80));
    assert!(is_rx_empty(0x10));
    assert!(!is_rx_empty(0x20));
}

#[test]
fn new_keeps_base() {
    let uart = Uart::new(BASE);
    assert_eq!(uart.base(), BASE);
    assert_eq!(uart.irq_count(), 0);
    assert!(!uart.is_waiting());
}
