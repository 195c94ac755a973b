//! Register decoder: turns the raw register snapshot of a stop into a
//! structured trace record, and renders a record as one display line.
//!
//! The snapshot holds the plain x86-64 syscall registers. Decoding looks
//! the syscall number up in the descriptor table; each argument slot the
//! table lists keeps its register value as a decimal numeral, except
//! string-bearing pointers, whose value is replaced by the string
//! reconstructed from the target's memory. A number the table does not
//! know yields a record with no arguments, displayed under its bare
//! numeral.

use vstd::prelude::*;

use crate::arch::{spec_table, spec_table_args, spec_table_name, syscall_descriptor, ArgKind};
use crate::memory::{read_memory, render_mem};
use crate::text::{dec_rep, hex_rep, push_char, u64_to_dec, u64_to_hex};

verus! {

/// The raw register values captured at a single stop: the original
/// syscall number register, the six argument registers in ABI order, and
/// the return-value register.
#[derive(Clone, Copy, Debug, PartialEq, Eq, Structural)]
pub struct RegisterSnapshot {
    pub orig_rax: u64,
    pub rdi: u64,
    pub rsi: u64,
    pub rdx: u64,
    pub r10: u64,
    pub r8: u64,
    pub r9: u64,
    pub rax: u64,
}

/// The six argument registers of a snapshot, in ABI order.
pub open spec fn arg_regs(s: RegisterSnapshot) -> Seq<u64> {
    seq![s.rdi, s.rsi, s.rdx, s.r10, s.r8, s.r9]
}

/// One decoded argument: the display label from the descriptor table and
/// the resolved display value.
#[derive(Debug)]
pub struct RegisterOutput {
    /// The display value: the register as a decimal numeral, or the
    /// quoted string read from the target's memory.
    pub value: String,
    /// The argument's display label, e.g. `const char *buf`.
    pub argument: String,
}

impl RegisterOutput {
    /// A plain-value argument: the raw register value shown in decimal.
    pub fn new(address: u64, argument: &str) -> (r: RegisterOutput)
        ensures
            r.value@ == dec_rep(address),
            r.argument@ == argument@,
    {
        RegisterOutput { value: u64_to_dec(address), argument: argument.to_owned() }
    }
}

/// The label and value of a decoded argument.
pub open spec fn arg_view(a: RegisterOutput) -> (Seq<char>, Seq<char>) {
    (a.argument@, a.value@)
}

/// The decoded arguments a snapshot yields: for each slot the table
/// lists, its label, and as value the decimal numeral of the register, or
/// for a string-bearing pointer the text read from the target's memory
/// (`texts` holds the reading for each slot; only `Text` slots use it).
pub open spec fn rendered_args(
    descs: Seq<(ArgKind, Seq<char>)>,
    regs: Seq<u64>,
    texts: Seq<String>,
) -> Seq<(Seq<char>, Seq<char>)> {
    Seq::new(
        descs.len(),
        |i: int|
            (
                descs[i].1,
                if descs[i].0 is Text {
                    texts[i]@
                } else {
                    dec_rep(regs[i])
                },
            ),
    )
}

/// One logical completed syscall, decoded: timestamp, syscall number and
/// table name (empty for an unknown number), the decoded arguments, and
/// the return value.
#[derive(Debug)]
pub struct RegistersData {
    pub timestamp: String,
    pub number: u64,
    pub name: String,
    pub args: Vec<RegisterOutput>,
    pub rax: u64,
}

impl RegistersData {
    /// Decodes a snapshot into a record. `texts` supplies, for each
    /// argument slot of the syscall, the string read from the target's
    /// memory; only string-bearing pointer slots use their entry.
    pub fn new(snap: RegisterSnapshot, timestamp: String, texts: &Vec<String>) -> (r:
        RegistersData)
        requires
            texts@.len() == spec_table_args(snap.orig_rax).len(),
        ensures
            r.number == snap.orig_rax,
            r.rax == snap.rax,
            r.timestamp@ == timestamp@,
            r.name@ == spec_table_name(snap.orig_rax),
            r.args@.map_values(|a: RegisterOutput| arg_view(a)) == rendered_args(
                spec_table_args(snap.orig_rax),
                arg_regs(snap),
                texts@,
            ),
            spec_table(snap.orig_rax) is None ==> r.name@.len() == 0 && r.args@.len() == 0,
    {
        let number = snap.orig_rax;
        let rax = snap.rax;
        match syscall_descriptor(number) {
            None => {
                let r = RegistersData {
                    timestamp,
                    number,
                    name: String::new(),
                    args: Vec::new(),
                    rax,
                };
                assert(r.args@.map_values(|a: RegisterOutput| arg_view(a)) =~= rendered_args(
                    spec_table_args(number),
                    arg_regs(snap),
                    texts@,
                ));
                r
            },
            Some(d) => {
                let regs: Vec<u64> = vec![snap.rdi, snap.rsi, snap.rdx, snap.r10, snap.r8, snap.r9];
                assert(regs@ =~= arg_regs(snap));
                proof {
                    crate::arch::lemma_table_arity(number);
                }
                let ghost target = rendered_args(spec_table_args(number), arg_regs(snap), texts@);
                let mut args: Vec<RegisterOutput> = Vec::new();
                let mut i: usize = 0;
                while i < d.args.len()
                    invariant
                        i <= d.args@.len(),
                        d.args@.len() <= 6,
                        regs@ == arg_regs(snap),
                        texts@.len() == d.args@.len(),
                        d.args@.map_values(|a: crate::arch::ArgDescriptor| a@) == spec_table_args(
                            snap.orig_rax,
                        ),
                        target == rendered_args(spec_table_args(snap.orig_rax), arg_regs(snap), texts@),
                        args@.len() == i,
                        forall|j: int| 0 <= j < i ==> arg_view(args@[j]) == target[j],
                    decreases d.args@.len() - i,
                {
                    assert(d.args@.map_values(|a: crate::arch::ArgDescriptor| a@)[i as int]
                        == d.args@[i as int]@);
                    let slot = match d.args[i].kind {
                        ArgKind::Value => RegisterOutput::new(regs[i], d.args[i].label.as_str()),
                        ArgKind::Text => RegisterOutput {
                            value: texts[i].clone(),
                            argument: d.args[i].label.clone(),
                        },
                    };
                    assert(arg_view(slot) == target[i as int]);
                    args.push(slot);
                    i = i + 1;
                }
                let r = RegistersData { timestamp, number, name: d.name, args, rax };
                assert(r.args@.map_values(|a: RegisterOutput| arg_view(a)) =~= target);
                r
            },
        }
    }

    /// The record's timestamp, as it will be displayed.
    pub fn date(&self) -> (s: String)
        ensures
            s@ == self.timestamp@,
    {
        self.timestamp.clone()
    }

    /// The record's syscall name from the descriptor table; empty for a
    /// number the table does not know.
    pub fn name(&self) -> (s: &str)
        ensures
            s@ == self.name@,
    {
        self.name.as_str()
    }

    /// The record's syscall number.
    pub fn number(&self) -> (n: u64)
        ensures
            n == self.number,
    {
        self.number
    }

    /// The record's return-value register.
    pub fn ret_value(&self) -> (n: u64)
        ensures
            n == self.rax,
    {
        self.rax
    }

    /// How many decoded arguments the record carries.
    pub fn arg_count(&self) -> (n: usize)
        ensures
            n == self.args@.len(),
    {
        self.args.len()
    }

    /// The display label of argument `i`.
    pub fn arg_label(&self, i: usize) -> (s: &str)
        requires
            i < self.args@.len(),
        ensures
            s@ == arg_view(self.args@[i as int]).0,
    {
        self.args[i].argument.as_str()
    }

    /// The display value of argument `i`.
    pub fn arg_value(&self, i: usize) -> (s: &str)
        requires
            i < self.args@.len(),
        ensures
            s@ == arg_view(self.args@[i as int]).1,
    {
        self.args[i].value.as_str()
    }

    /// Renders the record as one display line.
    pub fn output(&self) -> (s: String)
        ensures
            s@ == record_line(
                self.timestamp@,
                self.name@,
                self.number,
                self.args@.map_values(|a: RegisterOutput| arg_view(a)),
                self.rax,
            ),
    {
        let avs = Ghost(self.args@.map_values(|a: RegisterOutput| arg_view(a)));
        let mut s = String::new();
        push_char(&mut s, '[');
        s.append(self.timestamp.as_str());
        push_char(&mut s, ']');
        push_char(&mut s, ':');
        push_char(&mut s, ' ');
        if self.name.as_str().is_empty() {
            let numeral = u64_to_dec(self.number);
            s.append(numeral.as_str());
        } else {
            s.append(self.name.as_str());
        }
        assert(s@ =~= seq!['['] + self.timestamp@ + seq![']', ':', ' '] + shown_name(
            self.name@,
            self.number,
        ));
        push_char(&mut s, '(');
        let ghost head = seq!['['] + self.timestamp@ + seq![']', ':', ' '] + shown_name(
            self.name@,
            self.number,
        ) + seq!['('];
        assert(s@ =~= head + args_join(avs@.take(0)));
        let mut i: usize = 0;
        while i < self.args.len()
            invariant
                i <= self.args@.len(),
                avs@ == self.args@.map_values(|a: RegisterOutput| arg_view(a)),
                avs@.len() == self.args@.len(),
                s@ == head + args_join(avs@.take(i as int)),
            decreases self.args@.len() - i,
        {
            if i > 0 {
                push_char(&mut s, ',');
                push_char(&mut s, ' ');
            }
            s.append(self.args[i].argument.as_str());
            push_char(&mut s, ':');
            push_char(&mut s, ' ');
            s.append(self.args[i].value.as_str());
            proof {
                lemma_args_join_step(avs@, i as int);
                assert(arg_view(self.args@[i as int]) == avs@[i as int]);
                assert(s@ =~= head + args_join(avs@.take(i + 1)));
            }
            i = i + 1;
        }
        assert(avs@.take(avs@.len() as int) =~= avs@);
        push_char(&mut s, ')');
        push_char(&mut s, ' ');
        push_char(&mut s, '=');
        push_char(&mut s, ' ');
        push_char(&mut s, '0');
        push_char(&mut s, 'x');
        let hex = u64_to_hex(self.rax);
        s.append(hex.as_str());
        assert(s@ =~= record_line(self.timestamp@, self.name@, self.number, avs@, self.rax));
        s
    }
}

/// What a record decoded from the snapshot `snap` looks like: the raw
/// number and return value kept, the table name (empty for an unknown
/// number), and one argument per slot the table lists, its label from
/// the table and its value a decimal numeral, or, for a string-bearing
/// pointer, the rendering of some byte sequence read from the target.
pub open spec fn decoded_from(r: RegistersData, snap: RegisterSnapshot) -> bool {
    &&& r.number == snap.orig_rax
    &&& r.rax == snap.rax
    &&& r.name@ == spec_table_name(snap.orig_rax)
    &&& r.args@.len() == spec_table_args(snap.orig_rax).len()
    &&& forall|i: int|
        0 <= i < r.args@.len() ==> arg_view(r.args@[i]).0 == spec_table_args(snap.orig_rax)[i].1
    &&& forall|i: int|
        0 <= i < r.args@.len() && spec_table_args(snap.orig_rax)[i].0 is Value ==> arg_view(
            r.args@[i],
        ).1 == dec_rep(arg_regs(snap)[i])
    &&& forall|i: int|
        0 <= i < r.args@.len() && spec_table_args(snap.orig_rax)[i].0 is Text ==> exists|
            bs: Seq<u8>,
        | arg_view(r.args@[i]).1 == render_mem(bs)
}

/// Decodes the registers of an exit stop into a record, reading the
/// target's memory for each string-bearing pointer argument. Plain
/// arguments keep their register value as a decimal numeral; each
/// pointer argument's value is the quoted, bounded string reconstructed
/// from the target's memory, whatever that memory holds.
pub fn decode_stop(pid: i32, snap: RegisterSnapshot, timestamp: String) -> (r: RegistersData)
    ensures
        r.timestamp@ == timestamp@,
        decoded_from(r, snap),
{
    let number = snap.orig_rax;
    let mut texts: Vec<String> = Vec::new();
    match syscall_descriptor(number) {
        None => {
        },
        Some(d) => {
            let regs: Vec<u64> = vec![snap.rdi, snap.rsi, snap.rdx, snap.r10, snap.r8, snap.r9];
            assert(regs@ =~= arg_regs(snap));
            proof {
                crate::arch::lemma_table_arity(number);
            }
            let mut i: usize = 0;
            while i < d.args.len()
                invariant
                    i <= d.args@.len(),
                    d.args@.len() <= 6,
                    regs@ == arg_regs(snap),
                    d.args@.map_values(|a: crate::arch::ArgDescriptor| a@) == spec_table_args(
                        snap.orig_rax,
                    ),
                    texts@.len() == i,
                    forall|j: int|
                        0 <= j < i && spec_table_args(snap.orig_rax)[j].0 is Text
                            ==> exists|bs: Seq<u8>| texts@[j]@ == render_mem(bs),
                decreases d.args@.len() - i,
            {
                assert(d.args@.map_values(|a: crate::arch::ArgDescriptor| a@)[i as int]
                    == d.args@[i as int]@);
                let piece = match d.args[i].kind {
                    ArgKind::Value => String::new(),
                    ArgKind::Text => read_memory(pid, regs[i]),
                };
                texts.push(piece);
                i = i + 1;
            }
        },
    }
    assert(forall|j: int|
        0 <= j < texts@.len() && spec_table_args(snap.orig_rax)[j].0 is Text
            ==> exists|bs: Seq<u8>| texts@[j]@ == render_mem(bs));
    let r = RegistersData::new(snap, timestamp, &texts);
    proof {
        let mapped = r.args@.map_values(|a: RegisterOutput| arg_view(a));
        let rendered = rendered_args(spec_table_args(snap.orig_rax), arg_regs(snap), texts@);
        assert(mapped == rendered);
        assert(mapped.len() == r.args@.len());
        assert(rendered.len() == spec_table_args(snap.orig_rax).len());
        assert forall|i: int| 0 <= i < r.args@.len() implies arg_view(r.args@[i]).0
            == spec_table_args(snap.orig_rax)[i].1 by {
            assert(arg_view(r.args@[i]) == mapped[i]);
            assert(mapped[i] == rendered[i]);
        }
        assert forall|i: int|
            0 <= i < r.args@.len() && spec_table_args(snap.orig_rax)[i].0 is Value implies arg_view(
            r.args@[i],
        ).1 == dec_rep(arg_regs(snap)[i]) by {
            assert(arg_view(r.args@[i]) == mapped[i]);
            assert(mapped[i] == rendered[i]);
        }
        assert forall|i: int|
            0 <= i < r.args@.len() && spec_table_args(snap.orig_rax)[i].0 is Text implies exists|
                bs: Seq<u8>,
            | arg_view(r.args@[i]).1 == render_mem(bs) by {
            assert(arg_view(r.args@[i]) == mapped[i]);
            assert(mapped[i] == rendered[i]);
            assert(rendered[i].1 == texts@[i]@);
            assert(exists|bs: Seq<u8>| texts@[i]@ == render_mem(bs));
        }
    }
    r
}

/// The name a record is displayed under: the table name, or the decimal
/// numeral of the syscall number when the table gave none.
pub open spec fn shown_name(name: Seq<char>, number: u64) -> Seq<char> {
    if name.len() == 0 {
        dec_rep(number)
    } else {
        name
    }
}

/// One rendered argument: its label, a colon and a space, its value.
pub open spec fn arg_text(av: (Seq<char>, Seq<char>)) -> Seq<char> {
    av.0 + seq![':', ' '] + av.1
}

/// The rendered arguments joined by comma-space separators.
pub open spec fn args_join(avs: Seq<(Seq<char>, Seq<char>)>) -> Seq<char>
    decreases avs.len(),
{
    if avs.len() == 0 {
        Seq::empty()
    } else if avs.len() == 1 {
        arg_text(avs[0])
    } else {
        args_join(avs.drop_last()) + seq![',', ' '] + arg_text(avs.last())
    }
}

/// Unfolds one joining step at position `i`.
proof fn lemma_args_join_step(avs: Seq<(Seq<char>, Seq<char>)>, i: int)
    requires
        0 <= i < avs.len(),
    ensures
        i == 0 ==> args_join(avs.take(1)) == arg_text(avs[0]),
        i > 0 ==> args_join(avs.take(i + 1)) == args_join(avs.take(i)) + seq![',', ' ']
            + arg_text(avs[i]),
{
    assert(avs.take(i + 1).drop_last() =~= avs.take(i));
    assert(avs.take(i + 1).last() == avs[i]);
}

/// The whole display line of one record: the timestamp in brackets, the
/// shown name, the joined arguments in parentheses, and the return value
/// in hexadecimal.
pub open spec fn record_line(
    ts: Seq<char>,
    name: Seq<char>,
    number: u64,
    avs: Seq<(Seq<char>, Seq<char>)>,
    rax: u64,
) -> Seq<char> {
    seq!['['] + ts + seq![']', ':', ' '] + shown_name(name, number) + seq!['('] + args_join(avs)
        + seq![')', ' ', '=', ' ', '0', 'x'] + hex_rep(rax)
}

/// A syscall number absent from the descriptor table always yields a
/// record with no arguments whose displayed name is the decimal numeral
/// of that number.
pub proof fn lemma_unknown_syscall_fallback(ts: Seq<char>, number: u64, rax: u64)
    requires
        spec_table(number) is None,
    ensures
        spec_table_name(number).len() == 0,
        spec_table_args(number).len() == 0,
        record_line(ts, spec_table_name(number), number, Seq::empty(), rax) == seq!['['] + ts + seq![
            ']',
            ':',
            ' ',
        ] + dec_rep(number) + seq!['(', ')', ' ', '=', ' ', '0', 'x'] + hex_rep(rax),
{
    assert(record_line(ts, spec_table_name(number), number, Seq::empty(), rax) =~= seq!['['] + ts
        + seq![']', ':', ' '] + dec_rep(number) + seq!['(', ')', ' ', '=', ' ', '0', 'x'] + hex_rep(
        rax,
    ));
}

} // verus!
