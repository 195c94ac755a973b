use sctrace::arch::syscall_name;
use sctrace::cli::Args;
use sctrace::registers::{RegisterOutput, RegisterSnapshot, RegistersData};

fn snap(orig_rax: u64, args: [u64; 6], rax: u64) -> RegisterSnapshot {
    RegisterSnapshot {
        orig_rax,
        rdi: args[0],
        rsi: args[1],
        rdx: args[2],
        r10: args[3],
        r8: args[4],
        r9: args[5],
        rax,
    }
}

#[test]
fn fallback_name_is_decimal() {
    assert_eq!(syscall_name(0), "0");
    assert_eq!(syscall_name(9), "9");
    assert_eq!(syscall_name(12345), "12345");
    assert_eq!(syscall_name(u64::MAX), "18446744073709551615");
}

#[test]
fn register_output_value_is_decimal() {
    let r = RegisterOutput::new(0, "int mode");
    assert_eq!(r.value, "0");
    assert_eq!(r.argument, "int mode");
    let r = RegisterOutput::new(4096, "size_t len");
    assert_eq!(r.value, "4096");
}

#[test]
fn hex_return_value_in_line() {
    let rec = RegistersData::new(snap(39, [0; 6], 255), String::from("T"), &Vec::new());
    assert_eq!(rec.output(), "[T]: getpid() = 0xff");
    let rec = RegistersData::new(snap(39, [0; 6], 0), String::from("T"), &Vec::new());
    assert_eq!(rec.output(), "[T]: getpid() = 0x0");
    let rec = RegistersData::new(snap(39, [0; 6], 0xdead_beef), String::from("T"), &Vec::new());
    assert_eq!(rec.output(), "[T]: getpid() = 0xdeadbeef");
}

#[test]
fn filter_list_splits_on_commas() {
    let args = Args {
        command: None,
        attach: None,
        filter: Some(String::from("open,close")),
        file_to_print: None,
        no_tui: false,
    };
    assert_eq!(args.filter_list(), vec!["open".to_string(), "close".to_string()]);
}

#[test]
fn filter_list_empty_when_absent() {
    let args = Args {
        command: None,
        attach: None,
        filter: None,
        file_to_print: None,
        no_tui: true,
    };
    assert!(args.filter_list().is_empty());
}

#[test]
fn filter_list_keeps_empty_pieces() {
    let args = Args {
        command: None,
        attach: None,
        filter: Some(String::from("a,,b,")),
        file_to_print: None,
        no_tui: false,
    };
    assert_eq!(
        args.filter_list(),
        vec!["a".to_string(), String::new(), "b".to_string(), String::new()]
    );
}

#[test]
fn filter_list_single_name() {
    let args = Args {
        command: None,
        attach: None,
        filter: Some(String::from("write")),
        file_to_print: None,
        no_tui: false,
    };
    assert_eq!(args.filter_list(), vec!["write".to_string()]);
}
