use sctrace::memory::{mem_append, mem_finalize};
use sctrace::registers::{RegisterSnapshot, RegistersData};
use sctrace::trace::{attach, trace_kill, trace_step, StepOutcome, StopEvent, TraceError, TraceSession};
use sctrace::ui::{UiKey, UI};

fn snap(orig_rax: u64, args: [u64; 6], rax: u64) -> RegisterSnapshot {
    RegisterSnapshot {
        orig_rax,
        rdi: args[0],
        rsi: args[1],
        rdx: args[2],
        r10: args[3],
        r8: args[4],
        r9: args[5],
        rax,
    }
}

fn stop(rax: u64) -> StopEvent {
    StopEvent::TraceStop(snap(1, [0; 6], rax))
}

#[test]
fn pairing_six_stops_three_records() {
    // N trace-signal stops with nothing in between: exactly N/2 records,
    // each from the second stop of its pair.
    let mut session = TraceSession::attach_session(1, Vec::new());
    let mut emitted: Vec<RegisterSnapshot> = Vec::new();
    for k in 0..6u64 {
        if let Some(s) = session.advance(stop(k)) {
            emitted.push(s);
        }
    }
    assert_eq!(emitted.len(), 3);
    assert_eq!(emitted[0].rax, 1);
    assert_eq!(emitted[1].rax, 3);
    assert_eq!(emitted[2].rax, 5);
}

#[test]
fn pairing_odd_number_of_stops() {
    let mut session = TraceSession::attach_session(1, Vec::new());
    let mut count = 0;
    for k in 0..7u64 {
        if session.advance(stop(k)).is_some() {
            count += 1;
        }
    }
    assert_eq!(count, 3);
    assert!(session.is_active());
}

#[test]
fn other_stops_do_not_touch_pairing() {
    let mut session = TraceSession::attach_session(1, Vec::new());
    assert!(session.advance(stop(0)).is_none());
    assert!(session.advance(StopEvent::OtherStop).is_none());
    assert!(session.advance(StopEvent::OtherStop).is_none());
    let got = session.advance(stop(42));
    assert_eq!(got.map(|s| s.rax), Some(42));
}

#[test]
fn exit_event_ends_session() {
    let mut session = TraceSession::attach_session(1, Vec::new());
    assert!(session.is_active());
    assert!(session.advance(StopEvent::ProcessExited).is_none());
    assert!(!session.is_active());
}

#[test]
fn filter_does_not_change_parity() {
    // The same stops with and without a filter: the parity evolution is
    // identical; only what the filter accepts differs.
    let mut plain = TraceSession::attach_session(1, Vec::new());
    let mut filtered = TraceSession::attach_session(1, vec!["write".to_string()]);
    let events = [stop(0), stop(1), stop(2), stop(3)];
    let mut plain_emitted = 0;
    let mut filtered_emitted = 0;
    for ev in events.iter() {
        let a = plain.advance(*ev);
        let b = filtered.advance(*ev);
        assert_eq!(a.is_some(), b.is_some());
        if let Some(s) = a {
            plain_emitted += 1;
            let rec = RegistersData::new(s, String::from("T"), &vec![
                String::new(),
                String::from("\"x\""),
                String::new(),
            ]);
            assert!(plain.accepts(&rec.name.to_string()));
            if filtered.accepts(&rec.name.to_string()) {
                filtered_emitted += 1;
            }
        }
    }
    assert_eq!(plain_emitted, 2);
    // Both completed pairs are `write` calls, so the `write` filter
    // keeps both.
    assert_eq!(filtered_emitted, 2);
}

#[test]
fn filter_rejects_other_names() {
    let session = TraceSession::attach_session(1, vec!["openat".to_string()]);
    assert!(session.accepts(&"openat".to_string()));
    assert!(!session.accepts(&"write".to_string()));
    assert!(!session.accepts(&String::new()));
}

#[test]
fn empty_filter_accepts_everything() {
    let session = TraceSession::attach_session(1, Vec::new());
    assert!(session.accepts(&"anything".to_string()));
    assert!(session.accepts(&String::new()));
}

#[test]
fn attach_pairs_from_first_stop() {
    // Attaching skips the launch stop: the first two trace stops
    // observed already complete one pair.
    let mut session = TraceSession::attach_session(1, Vec::new());
    assert!(session.advance(stop(10)).is_none());
    let got = session.advance(stop(11));
    assert_eq!(got.map(|s| s.rax), Some(11));
}

#[test]
fn launch_consumes_initial_stop_first() {
    // A launched target delivers one stop before its entry point runs;
    // that stop completes no pair, and pairing starts after it.
    let mut session = TraceSession::launch_session(1, Vec::new());
    assert!(session.advance(stop(0)).is_none());
    assert!(session.advance(stop(1)).is_none());
    let got = session.advance(stop(2));
    assert_eq!(got.map(|s| s.rax), Some(2));
}

#[test]
fn write_scenario_end_to_end() {
    // One write-like call with a short literal string and a successful
    // return: one line with the name, the quoted string, and the byte
    // count; the exit ends the session with nothing further.
    let mut session = TraceSession::launch_session(7, Vec::new());
    assert!(session.advance(stop(0)).is_none());

    let regs = snap(1, [1, 0xdeadbeef, 13, 0, 0, 0], 13);
    assert!(session.advance(StopEvent::TraceStop(regs)).is_none());
    let exit = session.advance(StopEvent::TraceStop(regs)).expect("pair completed");

    // The target's memory at the pointer, as the reader would gather it.
    let mut buf: Vec<u8> = Vec::new();
    assert!(!mem_append(&mut buf, i64::from_le_bytes(*b"Hello, w")));
    assert!(mem_append(&mut buf, i64::from_le_bytes([b'o', b'r', b'l', b'd', b'!', 0, 9, 9])));
    let text = mem_finalize(&buf);
    assert_eq!(text, "\"Hello, world!\"");

    let rec = RegistersData::new(exit, String::from("T"), &vec![
        String::new(),
        text,
        String::new(),
    ]);
    assert!(session.accepts(&rec.name.to_string()));
    let line = rec.output();
    assert!(line.contains("write"));
    assert!(line.contains("\"Hello, world!\""));
    assert!(line.ends_with("= 0xd"));

    assert!(session.advance(StopEvent::ProcessExited).is_none());
    assert!(!session.is_active());
}

#[test]
fn attach_to_missing_process_fails() {
    let r = attach(999_999_999);
    match r {
        Err(TraceError::AttachFailed(_)) => {},
        _ => panic!("attaching to a nonexistent process must fail"),
    }
}

#[test]
fn vanished_process_counts_as_exit() {
    // A target gone between stops is a normal exit, not an error.
    let mut session = TraceSession::attach_session(999_999_999, Vec::new());
    match trace_step(&mut session) {
        Ok(StepOutcome::Exited) => {},
        _ => panic!("a vanished process must end the session as an exit"),
    }
    assert!(!session.is_active());
}

#[test]
fn kill_of_missing_process_is_quiet() {
    trace_kill(999_999_999);
}

#[test]
fn sync_initial_without_child_reports_wait_failure() {
    let mut session = TraceSession::attach_session(999_999_999, Vec::new());
    match session.sync_initial() {
        Err(TraceError::WaitFailed(_)) => {},
        _ => panic!("waiting for a process that is no child must fail"),
    }
}

#[test]
fn ui_starts_empty() {
    let ui = UI::new();
    assert_eq!(ui.height, 0);
    assert_eq!(ui.max_lines, 0);
    assert_eq!(ui.scroll, 0);
    assert!(ui.lines.is_empty());
}

#[test]
fn ui_add_line_updates_total() {
    let mut ui = UI::new();
    let rec = RegistersData::new(snap(39, [0; 6], 1), String::from("T"), &Vec::new());
    ui.add_line(rec);
    assert_eq!(ui.lines.len(), 1);
    assert_eq!(ui.max_lines, 2);
}

#[test]
fn ui_scroll_bounds_hold() {
    let mut ui = UI::new();
    for k in 0..5u64 {
        let rec = RegistersData::new(snap(39, [0; 6], k), String::from("T"), &Vec::new());
        ui.add_line(rec);
    }
    ui.set_height(2);
    assert_eq!(ui.max_lines, 6);

    assert!(!ui.on_key(UiKey::Down));
    assert_eq!(ui.scroll, 1);
    assert!(!ui.on_key(UiKey::Bottom));
    assert_eq!(ui.scroll, 5);
    // At the bottom, down is a no-op.
    assert!(!ui.on_key(UiKey::Down));
    assert_eq!(ui.scroll, 5);
    assert!(!ui.on_key(UiKey::Up));
    assert_eq!(ui.scroll, 4);
    assert!(!ui.on_key(UiKey::Top));
    assert_eq!(ui.scroll, 2);
    // At offset one, up stops.
    ui.on_key(UiKey::Up);
    assert_eq!(ui.scroll, 1);
    ui.on_key(UiKey::Up);
    assert_eq!(ui.scroll, 1);
    assert!(!ui.on_key(UiKey::Other));
    assert!(ui.on_key(UiKey::Quit));
}

#[test]
fn ui_bottom_saturates_when_viewport_taller() {
    let mut ui = UI::new();
    ui.set_height(50);
    assert!(!ui.on_key(UiKey::Bottom));
    assert_eq!(ui.scroll, 0);
    assert!(!ui.on_key(UiKey::Down));
    assert_eq!(ui.scroll, 0);
}
