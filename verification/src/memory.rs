//! Remote memory reader: reconstructs a bounded, printable string from a
//! traced process's address space, one machine word at a time.
//!
//! Reading stops at the first word that contains a zero byte (only the
//! bytes before the zero are kept), at the first failed read, or after
//! enough words to fill the display bound. The accumulated bytes are then
//! clipped to at most 24 characters with a trailing `...` marker, embedded
//! newlines are escaped, and the result is wrapped in double quotes. A bad
//! pointer therefore degrades to a partial or empty quoted string, never
//! to an error.

use vstd::prelude::*;

use crate::text::push_char;

verus! {

/// How many content characters survive before the `...` marker.
pub const CLIP_LEN: usize = 24;

/// The eight bytes of one little-endian machine word.
pub open spec fn word_bytes(w: i64) -> Seq<u8> {
    Seq::new(8, |i: int| (((w as u64) >> ((8 * i) as u64)) & 0xff) as u8)
}

/// The bytes of `bs` that precede its first zero byte (all of `bs` if it
/// has none).
pub open spec fn zero_prefix(bs: Seq<u8>) -> Seq<u8>
    decreases bs.len(),
{
    if bs.len() == 0 || bs[0] == 0 {
        Seq::empty()
    } else {
        seq![bs[0]] + zero_prefix(bs.subrange(1, bs.len() as int))
    }
}

/// Each byte read from the target shown as one raw 8-bit character.
pub open spec fn byte_char(b: u8) -> char {
    b as char
}

pub open spec fn chars_of(bs: Seq<u8>) -> Seq<char> {
    bs.map_values(|b: u8| byte_char(b))
}

/// How one character is displayed: a newline becomes the two characters
/// `\` `n`, anything else stands as it is.
pub open spec fn esc1(c: char) -> Seq<char> {
    if c == '\n' {
        seq!['\\', 'n']
    } else {
        seq![c]
    }
}

/// Newline escaping over a whole sequence.
pub open spec fn escape_nl(cs: Seq<char>) -> Seq<char>
    decreases cs.len(),
{
    if cs.len() == 0 {
        Seq::empty()
    } else {
        escape_nl(cs.drop_last()) + esc1(cs.last())
    }
}

/// The accumulated bytes clipped to the display bound, with the `...`
/// marker when something was cut off.
pub open spec fn clip_marked(bs: Seq<u8>) -> Seq<char> {
    if bs.len() > CLIP_LEN {
        chars_of(bs.take(CLIP_LEN as int)) + seq!['.', '.', '.']
    } else {
        chars_of(bs)
    }
}

/// The final rendering of a remote string read as the byte sequence `bs`:
/// clipped, escaped, and wrapped in double quotes.
pub open spec fn render_mem(bs: Seq<u8>) -> Seq<char> {
    seq!['"'] + escape_nl(clip_marked(bs)) + seq!['"']
}

/// Reads one word of the target's memory.
/// Relies on `nix::sys::ptrace::read` (`PTRACE_PEEKDATA`): on success the
/// result is the word at `addr` in the address space of process `pid`;
/// `None` stands for any failure, an unmapped address included. What the
/// word holds depends on the target process, so nothing is promised of it.
#[verifier::external_body]
fn ptrace_read_word(pid: i32, addr: u64) -> (r: Option<i64>) {
    match nix::sys::ptrace::read(nix::unistd::Pid::from_raw(pid), addr as _) {
        Ok(w) => Some(w),
        Err(_) => None,
    }
}

/// The eight little-endian bytes of `w`, as `word_bytes` lists them.
fn word_to_bytes(w: i64) -> (bytes: Vec<u8>)
    ensures
        bytes@ == word_bytes(w),
{
    let mut bytes: Vec<u8> = Vec::new();
    let mut k: usize = 0;
    while k < 8
        invariant
            k <= 8,
            bytes@.len() == k,
            forall|j: int| 0 <= j < k ==> bytes@[j] == word_bytes(w)[j],
        decreases 8 - k,
    {
        let x: u64 = (w as u64) >> (8 * (k as u64));
        let b: u64 = x & 0xff;
        assert(x & 0xff < 256) by (bit_vector);
        bytes.push(b as u8);
        k = k + 1;
    }
    assert(bytes@ =~= word_bytes(w));
    bytes
}

/// If the first `k` bytes of `bs` are nonzero and byte `k` (or the end)
/// follows, the zero-free prefix is exactly the first `k` bytes.
proof fn lemma_zero_prefix_take(bs: Seq<u8>, k: int)
    requires
        0 <= k <= bs.len(),
        forall|j: int| 0 <= j < k ==> bs[j] != 0,
        k == bs.len() || bs[k] == 0,
    ensures
        zero_prefix(bs) == bs.take(k),
    decreases bs.len(),
{
    if bs.len() == 0 || bs[0] == 0 {
        assert(k == 0);
        assert(zero_prefix(bs) =~= bs.take(0));
    } else {
        let rest = bs.subrange(1, bs.len() as int);
        lemma_zero_prefix_take(rest, k - 1);
        assert(zero_prefix(bs) == seq![bs[0]] + rest.take(k - 1));
        assert(seq![bs[0]] + rest.take(k - 1) =~= bs.take(k));
    }
}

/// Appends to `acc` the bytes of one word up to (and not including) its
/// first zero byte. Reports whether reading must stop here: it must
/// exactly when the word contained a zero byte.
pub fn mem_append(acc: &mut Vec<u8>, w: i64) -> (stopped: bool)
    ensures
        final(acc)@ == old(acc)@ + zero_prefix(word_bytes(w)),
        stopped == (zero_prefix(word_bytes(w)).len() < 8),
{
    let bytes = word_to_bytes(w);
    let mut j: usize = 0;
    let mut stopped = false;
    while j < 8 && !stopped
        invariant
            j <= 8,
            bytes@ == word_bytes(w),
            acc@ == old(acc)@ + bytes@.take(j as int),
            forall|i: int| 0 <= i < j ==> bytes@[i] != 0,
            stopped ==> j < 8 && bytes@[j as int] == 0,
        decreases 8 - j, (if stopped { 0int } else { 1int }),
    {
        if bytes[j] == 0 {
            stopped = true;
        } else {
            acc.push(bytes[j]);
            assert(acc@ =~= old(acc)@ + bytes@.take(j + 1));
            j = j + 1;
        }
    }
    proof {
        if stopped {
            lemma_zero_prefix_take(bytes@, j as int);
        } else {
            lemma_zero_prefix_take(bytes@, 8);
            assert(bytes@.take(8) =~= bytes@);
        }
    }
    stopped
}

/// Unfolds one escaping step at position `i`.
proof fn lemma_escape_take_step(cs: Seq<char>, i: int)
    requires
        0 <= i < cs.len(),
    ensures
        escape_nl(cs.take(i + 1)) == escape_nl(cs.take(i)) + esc1(cs[i]),
{
    assert(cs.take(i + 1).drop_last() =~= cs.take(i));
    assert(cs.take(i + 1).last() == cs[i]);
}

/// Escaping does not change a sequence without newlines.
proof fn lemma_escape_no_newline(cs: Seq<char>)
    requires
        forall|i: int| 0 <= i < cs.len() ==> cs[i] != '\n',
    ensures
        escape_nl(cs) == cs,
    decreases cs.len(),
{
    if cs.len() == 0 {
        assert(escape_nl(cs) =~= cs);
    } else {
        lemma_escape_no_newline(cs.drop_last());
        assert(escape_nl(cs) =~= cs);
    }
}

/// A word whose byte `k` is zero, with no zero byte before it, contributes
/// exactly its first `k` bytes, and reading stops with that word: no
/// subsequent word is ever read.
pub proof fn lemma_word_zero_terminates(w: i64, k: int)
    requires
        0 <= k < 8,
        word_bytes(w)[k] == 0,
        forall|j: int| 0 <= j < k ==> word_bytes(w)[j] != 0,
    ensures
        zero_prefix(word_bytes(w)) == word_bytes(w).take(k),
        zero_prefix(word_bytes(w)).len() == k < 8,
{
    lemma_zero_prefix_take(word_bytes(w), k);
}

/// A byte sequence longer than the display bound renders as its first 24
/// bytes, escaped, then the `...` marker, inside the quotes.
pub proof fn lemma_render_clipped(bs: Seq<u8>)
    requires
        bs.len() > 24,
    ensures
        render_mem(bs) == seq!['"'] + escape_nl(chars_of(bs.take(24))) + seq!['.', '.', '.', '"'],
{
    let a = chars_of(bs.take(24));
    let t = clip_marked(bs);
    assert(a.len() == 24);
    assert(t == a + seq!['.', '.', '.']);
    assert(t.drop_last() =~= a + seq!['.', '.']);
    assert((a + seq!['.', '.']).drop_last() =~= a + seq!['.']);
    assert((a + seq!['.']).drop_last() =~= a);
    assert(t.last() == '.');
    assert((a + seq!['.', '.']).last() == '.');
    assert((a + seq!['.']).last() == '.');
    assert(esc1('.') == seq!['.']);
    assert(escape_nl(t) == escape_nl(a + seq!['.', '.']) + esc1('.'));
    assert(escape_nl(a + seq!['.', '.']) == escape_nl(a + seq!['.']) + esc1('.'));
    assert(escape_nl(a + seq!['.']) == escape_nl(a) + esc1('.'));
    assert(escape_nl(t) =~= escape_nl(a) + seq!['.', '.', '.']);
    assert(render_mem(bs) =~= seq!['"'] + escape_nl(a) + seq!['.', '.', '.', '"']);
}

/// A remote string longer than the display bound, with no newline among
/// its first 24 bytes, renders as exactly 24 content characters, the
/// three-character marker, and the two quotes: 29 characters in all.
pub proof fn lemma_render_clipped_exact(bs: Seq<u8>)
    requires
        bs.len() > 24,
        forall|i: int| 0 <= i < 24 ==> bs[i] != 10,
    ensures
        render_mem(bs) == seq!['"'] + chars_of(bs.take(24)) + seq!['.', '.', '.', '"'],
        render_mem(bs).len() == 29,
{
    lemma_render_clipped(bs);
    let a = chars_of(bs.take(24));
    assert(forall|i: int| 0 <= i < a.len() ==> a[i] != '\n') by {
        assert(forall|i: int| 0 <= i < a.len() ==> a[i] == byte_char(bs[i]));
        assert(forall|b: u8| b != 10 ==> #[trigger] byte_char(b) != '\n') by {
            assert(forall|b: u8| (#[trigger] (b as char)) as u8 == b);
        }
    }
    lemma_escape_no_newline(a);
}

/// Escaping at most doubles a sequence.
proof fn lemma_escape_len(cs: Seq<char>)
    ensures
        escape_nl(cs).len() <= 2 * cs.len(),
    decreases cs.len(),
{
    if cs.len() > 0 {
        lemma_escape_len(cs.drop_last());
    }
}

/// Whatever bytes were gathered, their rendering is wrapped in double
/// quotes and bounded: at most 24 content characters and the marker
/// between the quotes, each content character escaped to at most two.
pub proof fn lemma_render_shape(bs: Seq<u8>)
    ensures
        2 <= render_mem(bs).len() <= 56,
        render_mem(bs)[0] == '"',
        render_mem(bs)[render_mem(bs).len() - 1] == '"',
{
    lemma_escape_len(clip_marked(bs));
}

/// An unreadable pointer, from which not one byte was gathered, renders as
/// the empty quoted string.
pub proof fn lemma_render_empty()
    ensures
        render_mem(Seq::<u8>::empty()) == seq!['"', '"'],
{
    let e = Seq::<u8>::empty();
    assert(clip_marked(e) =~= Seq::<char>::empty());
    assert(render_mem(e) =~= seq!['"', '"']);
}

/// Clips, escapes and quotes the accumulated bytes.
pub fn mem_finalize(acc: &Vec<u8>) -> (s: String)
    ensures
        s@ == render_mem(acc@),
{
    let ghost target: Seq<char> = clip_marked(acc@);
    let mut s = String::new();
    push_char(&mut s, '"');
    let n: usize = if acc.len() > 24 {
        24
    } else {
        acc.len()
    };
    assert(forall|i: int| 0 <= i < n ==> target[i] == byte_char(acc@[i]));
    let mut i: usize = 0;
    while i < n
        invariant
            i <= n,
            n <= acc@.len(),
            n <= target.len(),
            forall|j: int| 0 <= j < n ==> target[j] == byte_char(acc@[j]),
            s@ == seq!['"'] + escape_nl(target.take(i as int)),
        decreases n - i,
    {
        let c = acc[i] as char;
        if c == '\n' {
            push_char(&mut s, '\\');
            push_char(&mut s, 'n');
        } else {
            push_char(&mut s, c);
        }
        proof {
            lemma_escape_take_step(target, i as int);
            assert(s@ =~= seq!['"'] + escape_nl(target.take(i + 1)));
        }
        i = i + 1;
    }
    if acc.len() > 24 {
        let mut m: usize = 0;
        while m < 3
            invariant
                m <= 3,
                target.len() == n + 3,
                n < target.len() ==> s@ == seq!['"'] + escape_nl(target.take(n + m)),
                forall|j: int| n <= j < n + 3 ==> target[j] == '.',
            decreases 3 - m,
        {
            push_char(&mut s, '.');
            proof {
                lemma_escape_take_step(target, (n + m) as int);
                assert(s@ =~= seq!['"'] + escape_nl(target.take(n + m + 1)));
            }
            m = m + 1;
        }
    }
    assert(target.take(target.len() as int) =~= target);
    push_char(&mut s, '"');
    assert(s@ =~= render_mem(acc@));
    s
}

/// Reconstructs a printable string from the target's memory at `address`.
///
/// Words are read until one contains a zero byte, a read fails, or enough
/// bytes for the display bound have been gathered; the result is always
/// the rendering of some byte sequence read this way, so it is quoted and
/// bounded whatever the target's memory holds.
pub fn read_memory(pid: i32, address: u64) -> (s: String)
    ensures
        exists|bs: Seq<u8>| s@ == render_mem(bs),
        2 <= s@.len() <= 56,
        s@[0] == '"',
        s@[s@.len() - 1] == '"',
{
    let mut acc: Vec<u8> = Vec::new();
    let mut k: u64 = 0;
    while k < 4
        invariant
            true,
        decreases 4 - k,
    {
        let offset: u64 = 8 * k;
        if address > u64::MAX - offset {
            break;
        }
        match ptrace_read_word(pid, address + offset) {
            None => {
                break;
            },
            Some(w) => {
                let stopped = mem_append(&mut acc, w);
                if stopped {
                    break;
                }
            },
        }
        k = k + 1;
    }
    let s = mem_finalize(&acc);
    proof {
        lemma_render_shape(acc@);
    }
    assert(s@ == render_mem(acc@));
    s
}

} // verus!
