use event_loop::event_loop::{
    after_seek, finish_read, finish_write, read_mode, write_mode, DispatchStep, Event, EventKind,
    EventLoop, Interest, PollResult, ReadMode, Turn, WriteMode, WriteStage,
};

/// Drain every immediate callback of one turn sequence, recording the order
/// in which the loop hands them out, until the loop asks to wait or idle.
fn drain(el: &mut EventLoop) -> (Vec<u64>, Turn) {
    let mut order = Vec::new();
    loop {
        match el.next_turn() {
            Turn::Tick(cb) => order.push(cb),
            other => return (order, other),
        }
    }
}

#[test]
fn next_tick_fires_in_fifo_order() {
    let mut el = EventLoop::new();
    el.set_next_tick(10);
    el.set_next_tick(11);
    el.set_next_tick(12);
    let (order, end) = drain(&mut el);
    assert_eq!(order, vec![10, 11, 12]);
    assert!(matches!(end, Turn::Idle));
}

#[test]
fn next_tick_added_during_drain_fires_in_same_pass() {
    let mut el = EventLoop::new();
    el.set_next_tick(1);
    el.set_next_tick(2);
    let mut order = Vec::new();
    loop {
        match el.next_turn() {
            Turn::Tick(cb) => {
                order.push(cb);
                if cb == 1 {
                    // a callback registering more immediate work: it still
                    // runs before the loop ever reaches the blocking wait
                    el.set_next_tick(9);
                }
            }
            Turn::Idle => break,
            Turn::Wait(_) => panic!("queue work must come before any wait"),
        }
    }
    assert_eq!(order, vec![1, 2, 9]);
}

#[test]
fn pending_ticks_win_over_io_wait() {
    let mut el = EventLoop::new();
    el.set_timeout(77, 1_000_000);
    el.set_next_tick(5);
    match el.next_turn() {
        Turn::Tick(cb) => assert_eq!(cb, 5),
        _ => panic!("a non-empty next-tick queue must be served first"),
    }
    // only with the queue drained is the wait batch handed out
    match el.next_turn() {
        Turn::Wait(subs) => {
            assert_eq!(subs.len(), 1);
            assert_eq!(subs[0].userdata, 0);
            assert!(matches!(subs[0].interest, Interest::Clock { timeout: 1_000_000 }));
        }
        _ => panic!("a pending timer must produce a wait batch"),
    }
}

#[test]
fn empty_loop_idles_immediately() {
    let mut el = EventLoop::new();
    assert!(matches!(el.next_turn(), Turn::Idle));
}

#[test]
fn cancelling_every_timer_leaves_nothing_to_wait_for() {
    let mut el = EventLoop::new();
    let a = el.set_timeout(1, 100);
    let b = el.set_timeout(2, 200);
    let c = el.set_timeout(3, 300);
    el.clear_timeout(a);
    el.clear_timeout(b);
    el.clear_timeout(c);
    let (order, end) = drain(&mut el);
    assert!(order.is_empty());
    assert!(matches!(end, Turn::Idle));
}

#[test]
fn slots_are_reused_lowest_first() {
    let mut el = EventLoop::new();
    let a = el.set_timeout(1, 100);
    let b = el.set_timeout(2, 200);
    assert_eq!(a, 0);
    assert_eq!(b, 1);
    el.clear_timeout(a);
    let c = el.set_timeout(3, 300);
    assert_eq!(c, 0);
    let d = el.set_timeout(4, 400);
    assert_eq!(d, 2);
}

#[test]
fn cancelling_twice_is_a_no_op_the_second_time() {
    let mut el = EventLoop::new();
    let a = el.set_timeout(1, 100);
    el.clear_timeout(a);
    el.clear_timeout(a);
    // the slot stays free: the next registration takes it
    let b = el.set_timeout(2, 200);
    assert_eq!(b, a);
}

#[test]
fn clear_timeout_leaves_a_reused_slot_untouched() {
    let mut el = EventLoop::new();
    let a = el.set_timeout(1, 100);
    el.clear_timeout(a);
    // the slot now holds descriptor work: a stale cancel must not affect it
    el.fd_read(3, 0, 16, 9);
    el.clear_timeout(a);
    match el.next_turn() {
        Turn::Wait(subs) => {
            assert_eq!(subs.len(), 1);
            assert!(matches!(subs[0].interest, Interest::FdRead { fd: 3 }));
        }
        _ => panic!("the read task must still be registered"),
    }
}

#[test]
fn timer_event_fires_callback_with_timeout_result() {
    let mut el = EventLoop::new();
    let slot = el.set_timeout(42, 100);
    let step = el.dispatch_event(Event {
        userdata: slot as u64,
        error: 0,
        kind: EventKind::Clock,
    });
    match step {
        DispatchStep::Fire { callback, result } => {
            assert_eq!(callback, 42);
            assert!(matches!(result, PollResult::Timeout));
        }
        _ => panic!("a clock event on a timer slot must fire"),
    }
    // the task was consumed: the same event now finds an empty slot
    let again = el.dispatch_event(Event {
        userdata: slot as u64,
        error: 0,
        kind: EventKind::Clock,
    });
    assert!(matches!(again, DispatchStep::Ignored));
}

#[test]
fn read_event_with_platform_error_short_circuits() {
    let mut el = EventLoop::new();
    el.fd_read(3, -1, 8, 7);
    let step = el.dispatch_event(Event {
        userdata: 0,
        error: 8,
        kind: EventKind::FdRead,
    });
    match step {
        DispatchStep::Fire { callback, result } => {
            assert_eq!(callback, 7);
            assert!(matches!(result, PollResult::Error(8)));
        }
        _ => panic!("an errored event must deliver the error, not a read"),
    }
}

#[test]
fn read_event_demands_the_read_syscall() {
    let mut el = EventLoop::new();
    el.fd_read(3, 20, 8, 7);
    let step = el.dispatch_event(Event {
        userdata: 0,
        error: 0,
        kind: EventKind::FdRead,
    });
    match step {
        DispatchStep::Read { callback, fd, pos, len } => {
            assert_eq!((callback, fd, pos, len), (7, 3, 20, 8));
        }
        _ => panic!("a clean readable event must demand the read"),
    }
}

#[test]
fn write_event_demands_the_write_syscall() {
    let mut el = EventLoop::new();
    el.fd_write(4, -1, vec![1, 2, 3], 8);
    let step = el.dispatch_event(Event {
        userdata: 0,
        error: 0,
        kind: EventKind::FdWrite,
    });
    match step {
        DispatchStep::Write { callback, fd, pos, buf } => {
            assert_eq!((callback, fd, pos), (8, 4, -1));
            assert_eq!(buf, vec![1, 2, 3]);
        }
        _ => panic!("a clean writable event must demand the write"),
    }
}

#[test]
fn mismatched_event_kind_is_ignored_but_consumes_the_task() {
    let mut el = EventLoop::new();
    let slot = el.set_timeout(1, 100);
    let step = el.dispatch_event(Event {
        userdata: slot as u64,
        error: 0,
        kind: EventKind::FdRead,
    });
    assert!(matches!(step, DispatchStep::Ignored));
    // the mismatched task is gone: nothing is left to wait for
    assert!(matches!(el.next_turn(), Turn::Idle));
}

#[test]
fn event_for_unknown_slot_is_ignored() {
    let mut el = EventLoop::new();
    let step = el.dispatch_event(Event {
        userdata: 31,
        error: 0,
        kind: EventKind::Clock,
    });
    assert!(matches!(step, DispatchStep::Ignored));
}

#[test]
fn read_buffer_shrinks_to_reported_count() {
    let r = finish_read(vec![9; 10], Ok(5));
    match r {
        PollResult::Read(b) => assert_eq!(b, vec![9; 5]),
        _ => panic!("a successful read must resolve with the buffer"),
    }
}

#[test]
fn read_past_end_of_file_resolves_empty() {
    let r = finish_read(vec![9; 10], Ok(0));
    match r {
        PollResult::Read(b) => assert!(b.is_empty()),
        _ => panic!("a zero-byte read is a success, not an error"),
    }
}

#[test]
fn failed_read_syscall_rejects() {
    assert!(matches!(finish_read(vec![0; 4], Err(8)), PollResult::Error(8)));
}

#[test]
fn finished_write_reports_byte_count_or_error() {
    assert!(matches!(finish_write(Ok(3)), PollResult::Write(3)));
    assert!(matches!(finish_write(Err(29)), PollResult::Error(29)));
}

#[test]
fn read_offset_selects_positioned_or_cursor_read() {
    assert!(matches!(read_mode(0), ReadMode::Positioned(0)));
    assert!(matches!(read_mode(512), ReadMode::Positioned(512)));
    assert!(matches!(read_mode(-1), ReadMode::Cursor));
}

#[test]
fn write_offset_minus_one_skips_the_seek() {
    assert!(matches!(write_mode(-1), WriteMode::Cursor));
    assert!(matches!(write_mode(0), WriteMode::SeekThen(0)));
    assert!(matches!(write_mode(100), WriteMode::SeekThen(100)));
}

#[test]
fn failed_seek_aborts_the_write() {
    match after_seek(Err(70)) {
        WriteStage::Abort(PollResult::Error(70)) => {}
        _ => panic!("a seek error must reach the callback and stop the write"),
    }
    assert!(matches!(after_seek(Ok(())), WriteStage::Proceed));
}

#[test]
fn short_file_read_resolves_with_available_bytes() {
    // an async read of 10 bytes at offset 0 on a 5-byte file
    let file: Vec<u8> = vec![1, 2, 3, 4, 5];
    let mut el = EventLoop::new();
    el.fd_read(3, 0, 10, 7);
    let subs = match el.next_turn() {
        Turn::Wait(subs) => subs,
        _ => panic!("the read must be waited on"),
    };
    assert_eq!(subs.len(), 1);
    let step = el.dispatch_event(Event {
        userdata: subs[0].userdata,
        error: 0,
        kind: EventKind::FdRead,
    });
    let (callback, len) = match step {
        DispatchStep::Read { callback, pos, len, .. } => {
            assert!(matches!(read_mode(pos), ReadMode::Positioned(0)));
            (callback, len)
        }
        _ => panic!("the readable event must demand the read"),
    };
    assert_eq!(callback, 7);
    // the platform fills what is available from offset 0: 5 of 10 bytes
    let mut buf = vec![0u8; len as usize];
    let got = file.len().min(buf.len());
    buf[..got].copy_from_slice(&file[..got]);
    match finish_read(buf, Ok(got)) {
        PollResult::Read(b) => assert_eq!(b, vec![1, 2, 3, 4, 5]),
        _ => panic!("the short read must resolve, not reject"),
    }
}
