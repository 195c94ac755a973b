//! Syscall descriptor table: a static, sparse mapping from a syscall
//! number to its display name and the semantic type of each argument
//! register. The table here covers the x86-64 Linux ABI; a number it does
//! not list resolves to nothing, and the decoder then falls back to the
//! bare numeral.

use vstd::prelude::*;

use crate::text::{dec_rep, u64_to_dec};

verus! {

/// The semantic type of one argument register: a plain value shown
/// numerically, or a pointer to string-like bytes read from the target's
/// memory.
#[derive(Clone, Copy, Debug)]
pub enum ArgKind {
    Value,
    Text,
}

/// One argument slot of a syscall: its semantic type and its display
/// label, e.g. `const char *buf`.
#[derive(Debug)]
pub struct ArgDescriptor {
    pub kind: ArgKind,
    pub label: String,
}

impl View for ArgDescriptor {
    type V = (ArgKind, Seq<char>);

    open spec fn view(&self) -> (ArgKind, Seq<char>) {
        (self.kind, self.label@)
    }
}

/// What the table knows of one syscall: its name and its argument slots
/// in register order. Slots past `args.len()` do not exist for this
/// syscall.
#[derive(Debug)]
pub struct SyscallDescriptor {
    pub name: String,
    pub args: Vec<ArgDescriptor>,
}

impl View for SyscallDescriptor {
    type V = (Seq<char>, Seq<(ArgKind, Seq<char>)>);

    open spec fn view(&self) -> (Seq<char>, Seq<(ArgKind, Seq<char>)>) {
        (self.name@, self.args@.map_values(|a: ArgDescriptor| a@))
    }
}

/// The table itself: name and argument slots for each known syscall
/// number, nothing for the rest.
pub open spec fn spec_table(num: u64) -> Option<(Seq<char>, Seq<(ArgKind, Seq<char>)>)> {
    if num == 0 {
        Some(("read"@, seq![
            (ArgKind::Value, "unsigned int fd"@),
            (ArgKind::Text, "char *buf"@),
            (ArgKind::Value, "size_t count"@),
        ]))
    } else if num == 1 {
        Some(("write"@, seq![
            (ArgKind::Value, "unsigned int fd"@),
            (ArgKind::Text, "const char *buf"@),
            (ArgKind::Value, "size_t count"@),
        ]))
    } else if num == 2 {
        Some(("open"@, seq![
            (ArgKind::Text, "const char *filename"@),
            (ArgKind::Value, "int flags"@),
            (ArgKind::Value, "umode_t mode"@),
        ]))
    } else if num == 3 {
        Some(("close"@, seq![(ArgKind::Value, "unsigned int fd"@)]))
    } else if num == 9 {
        Some(("mmap"@, seq![
            (ArgKind::Value, "unsigned long addr"@),
            (ArgKind::Value, "unsigned long len"@),
            (ArgKind::Value, "unsigned long prot"@),
            (ArgKind::Value, "unsigned long flags"@),
            (ArgKind::Value, "unsigned long fd"@),
            (ArgKind::Value, "unsigned long off"@),
        ]))
    } else if num == 10 {
        Some(("mprotect"@, seq![
            (ArgKind::Value, "unsigned long start"@),
            (ArgKind::Value, "size_t len"@),
            (ArgKind::Value, "unsigned long prot"@),
        ]))
    } else if num == 11 {
        Some(("munmap"@, seq![
            (ArgKind::Value, "unsigned long addr"@),
            (ArgKind::Value, "size_t len"@),
        ]))
    } else if num == 12 {
        Some(("brk"@, seq![(ArgKind::Value, "unsigned long brk"@)]))
    } else if num == 21 {
        Some(("access"@, seq![
            (ArgKind::Text, "const char *filename"@),
            (ArgKind::Value, "int mode"@),
        ]))
    } else if num == 39 {
        Some(("getpid"@, Seq::empty()))
    } else if num == 59 {
        Some(("execve"@, seq![
            (ArgKind::Text, "const char *filename"@),
            (ArgKind::Value, "const char *const *argv"@),
            (ArgKind::Value, "const char *const *envp"@),
        ]))
    } else if num == 60 {
        Some(("exit"@, seq![(ArgKind::Value, "int error_code"@)]))
    } else if num == 158 {
        Some(("arch_prctl"@, seq![
            (ArgKind::Value, "int option"@),
            (ArgKind::Value, "unsigned long arg2"@),
        ]))
    } else if num == 231 {
        Some(("exit_group"@, seq![(ArgKind::Value, "int error_code"@)]))
    } else if num == 257 {
        Some(("openat"@, seq![
            (ArgKind::Value, "int dfd"@),
            (ArgKind::Text, "const char *filename"@),
            (ArgKind::Value, "int flags"@),
            (ArgKind::Value, "umode_t mode"@),
        ]))
    } else {
        None
    }
}

/// The name the table gives a syscall number: its entry's name, or the
/// empty sequence for a number the table does not know.
pub open spec fn spec_table_name(num: u64) -> Seq<char> {
    match spec_table(num) {
        Some(d) => d.0,
        None => Seq::empty(),
    }
}

/// The argument slots the table gives a syscall number: its entry's
/// slots, or the empty sequence for a number the table does not know.
pub open spec fn spec_table_args(num: u64) -> Seq<(ArgKind, Seq<char>)> {
    match spec_table(num) {
        Some(d) => d.1,
        None => Seq::empty(),
    }
}

/// No syscall takes more than the six argument registers.
pub proof fn lemma_table_arity(num: u64)
    ensures
        spec_table_args(num).len() <= 6,
{
}

fn arg(kind: ArgKind, label: &str) -> (a: ArgDescriptor)
    ensures
        a@ == (kind, label@),
{
    ArgDescriptor { kind, label: label.to_owned() }
}

fn dsc(name: &str, args: Vec<ArgDescriptor>) -> (d: SyscallDescriptor)
    ensures
        d@.0 == name@,
        d@.1 == args@.map_values(|a: ArgDescriptor| a@),
{
    SyscallDescriptor { name: name.to_owned(), args }
}

/// Looks a syscall number up in the descriptor table.
pub fn syscall_descriptor(num: u64) -> (r: Option<SyscallDescriptor>)
    ensures
        match r {
            Some(d) => spec_table(num) is Some && d@ == spec_table(num)->0,
            None => spec_table(num) is None,
        },
{
    let r = if num == 0 {
        Some(dsc("read", vec![
            arg(ArgKind::Value, "unsigned int fd"),
            arg(ArgKind::Text, "char *buf"),
            arg(ArgKind::Value, "size_t count"),
        ]))
    } else if num == 1 {
        Some(dsc("write", vec![
            arg(ArgKind::Value, "unsigned int fd"),
            arg(ArgKind::Text, "const char *buf"),
            arg(ArgKind::Value, "size_t count"),
        ]))
    } else if num == 2 {
        Some(dsc("open", vec![
            arg(ArgKind::Text, "const char *filename"),
            arg(ArgKind::Value, "int flags"),
            arg(ArgKind::Value, "umode_t mode"),
        ]))
    } else if num == 3 {
        Some(dsc("close", vec![arg(ArgKind::Value, "unsigned int fd")]))
    } else if num == 9 {
        Some(dsc("mmap", vec![
            arg(ArgKind::Value, "unsigned long addr"),
            arg(ArgKind::Value, "unsigned long len"),
            arg(ArgKind::Value, "unsigned long prot"),
            arg(ArgKind::Value, "unsigned long flags"),
            arg(ArgKind::Value, "unsigned long fd"),
            arg(ArgKind::Value, "unsigned long off"),
        ]))
    } else if num == 10 {
        Some(dsc("mprotect", vec![
            arg(ArgKind::Value, "unsigned long start"),
            arg(ArgKind::Value, "size_t len"),
            arg(ArgKind::Value, "unsigned long prot"),
        ]))
    } else if num == 11 {
        Some(dsc("munmap", vec![
            arg(ArgKind::Value, "unsigned long addr"),
            arg(ArgKind::Value, "size_t len"),
        ]))
    } else if num == 12 {
        Some(dsc("brk", vec![arg(ArgKind::Value, "unsigned long brk")]))
    } else if num == 21 {
        Some(dsc("access", vec![
            arg(ArgKind::Text, "const char *filename"),
            arg(ArgKind::Value, "int mode"),
        ]))
    } else if num == 39 {
        Some(dsc("getpid", Vec::new()))
    } else if num == 59 {
        Some(dsc("execve", vec![
            arg(ArgKind::Text, "const char *filename"),
            arg(ArgKind::Value, "const char *const *argv"),
            arg(ArgKind::Value, "const char *const *envp"),
        ]))
    } else if num == 60 {
        Some(dsc("exit", vec![arg(ArgKind::Value, "int error_code")]))
    } else if num == 158 {
        Some(dsc("arch_prctl", vec![
            arg(ArgKind::Value, "int option"),
            arg(ArgKind::Value, "unsigned long arg2"),
        ]))
    } else if num == 231 {
        Some(dsc("exit_group", vec![arg(ArgKind::Value, "int error_code")]))
    } else if num == 257 {
        Some(dsc("openat", vec![
            arg(ArgKind::Value, "int dfd"),
            arg(ArgKind::Text, "const char *filename"),
            arg(ArgKind::Value, "int flags"),
            arg(ArgKind::Value, "umode_t mode"),
        ]))
    } else {
        None
    };
    proof {
        if spec_table(num) is Some {
            assert(r is Some);
            let d = r->0;
            let entry = spec_table(num)->0;
            assert(d@.1 =~= entry.1);
            assert(d@ == entry);
        }
    }
    r
}

/// The fallback name for a syscall number no table entry describes: its
/// decimal numeral.
pub fn syscall_name(rax: u64) -> (s: String)
    ensures
        s@ == dec_rep(rax),
{
    u64_to_dec(rax)
}

} // verus!
