use sctrace::arch::syscall_descriptor;
use sctrace::registers::{RegisterSnapshot, RegistersData};

fn snap(orig_rax: u64, args: [u64; 6], rax: u64) -> RegisterSnapshot {
    RegisterSnapshot {
        orig_rax,
        rdi: args[0],
        rsi: args[1],
        rdx: args[2],
        r10: args[3],
        r8: args[4],
        r9: args[5],
        rax,
    }
}

#[test]
fn table_knows_write() {
    let d = syscall_descriptor(1).expect("write is in the table");
    assert_eq!(d.name, "write");
    assert_eq!(d.args.len(), 3);
    assert_eq!(d.args[0].label, "unsigned int fd");
    assert_eq!(d.args[1].label, "const char *buf");
    assert_eq!(d.args[2].label, "size_t count");
}

#[test]
fn table_misses_unknown_number() {
    assert!(syscall_descriptor(999).is_none());
    assert!(syscall_descriptor(u64::MAX).is_none());
}

#[test]
fn unknown_syscall_falls_back_to_numeral() {
    // A number absent from the table: the record carries no arguments
    // and is displayed under its decimal numeral.
    let rec = RegistersData::new(snap(999, [1, 2, 3, 4, 5, 6], 7), String::from("T"), &Vec::new());
    assert_eq!(rec.name(), "");
    assert_eq!(rec.arg_count(), 0);
    assert_eq!(rec.output(), "[T]: 999() = 0x7");
}

#[test]
fn known_syscall_decodes_value_arguments() {
    let texts = vec![String::new()];
    let rec = RegistersData::new(snap(3, [5, 0, 0, 0, 0, 0], 0), String::from("T"), &texts);
    assert_eq!(rec.name(), "close");
    assert_eq!(rec.arg_count(), 1);
    assert_eq!(rec.arg_label(0), "unsigned int fd");
    assert_eq!(rec.arg_value(0), "5");
    assert_eq!(rec.output(), "[T]: close(unsigned int fd: 5) = 0x0");
}

#[test]
fn text_argument_takes_reconstructed_string() {
    // The slot for `const char *buf` carries the string read from the
    // target's memory; the other slots keep their numerals.
    let texts = vec![String::new(), String::from("\"Hello, world\""), String::new()];
    let rec = RegistersData::new(
        snap(1, [1, 0x7fff_1000, 12, 0, 0, 0], 12),
        String::from("T"),
        &texts,
    );
    assert_eq!(rec.name(), "write");
    assert_eq!(rec.arg_count(), 3);
    assert_eq!(rec.arg_value(0), "1");
    assert_eq!(rec.arg_value(1), "\"Hello, world\"");
    assert_eq!(rec.arg_value(2), "12");
    assert_eq!(
        rec.output(),
        "[T]: write(unsigned int fd: 1, const char *buf: \"Hello, world\", size_t count: 12) = 0xc"
    );
}

#[test]
fn openat_text_argument_in_second_slot() {
    let texts = vec![
        String::new(),
        String::from("\"/etc/hosts\""),
        String::new(),
        String::new(),
    ];
    let rec = RegistersData::new(
        snap(257, [4294967196, 0x1000, 0, 0, 0, 0], 3),
        String::from("T"),
        &texts,
    );
    assert_eq!(rec.name(), "openat");
    assert_eq!(
        rec.output(),
        "[T]: openat(int dfd: 4294967196, const char *filename: \"/etc/hosts\", int flags: 0, umode_t mode: 0) = 0x3"
    );
}

#[test]
fn no_argument_syscall_renders_empty_parens() {
    let rec = RegistersData::new(snap(39, [9; 6], 4242), String::from("T"), &Vec::new());
    assert_eq!(rec.name(), "getpid");
    assert_eq!(rec.output(), "[T]: getpid() = 0x1092");
}

#[test]
fn record_getters_report_fields() {
    let rec = RegistersData::new(snap(12, [77, 0, 0, 0, 0, 0], 88), String::from("STAMP"), &vec![
        String::new(),
    ]);
    assert_eq!(rec.date(), "STAMP");
    assert_eq!(rec.number(), 12);
    assert_eq!(rec.ret_value(), 88);
    assert_eq!(rec.arg_label(0), "unsigned long brk");
    assert_eq!(rec.arg_value(0), "77");
}
