//! Plain-text helpers: decimal and hexadecimal numerals, splitting a
//! comma-separated list, and joining rendered pieces.

use vstd::prelude::*;

verus! {

/// The character for one decimal or hexadecimal digit value.
pub open spec fn digit_char(d: u64) -> char {
    if d < 10 {
        ((48 + d) as u8) as char
    } else {
        ((87 + d) as u8) as char
    }
}

/// The decimal numeral of `n`, most significant digit first.
pub open spec fn dec_rep(n: u64) -> Seq<char>
    decreases n,
{
    if n < 10 {
        seq![digit_char(n)]
    } else {
        dec_rep(n / 10).push(digit_char(n % 10))
    }
}

/// The lowercase hexadecimal numeral of `n`, most significant digit first,
/// without a `0x` prefix and without leading zeros.
pub open spec fn hex_rep(n: u64) -> Seq<char>
    decreases n,
{
    if n < 16 {
        seq![digit_char(n)]
    } else {
        hex_rep(n / 16).push(digit_char(n % 16))
    }
}

/// Appends one character to a string.
/// Relies on `String::push`: it appends exactly the given character.
#[verifier::external_body]
pub fn push_char(s: &mut String, c: char)
    ensures
        final(s)@ == old(s)@.push(c),
{
    s.push(c);
}

fn digit_char_exec(d: u64) -> (c: char)
    requires
        d < 16,
    ensures
        c == digit_char(d),
{
    if d < 10 {
        ((48 + d) as u8) as char
    } else {
        ((87 + d) as u8) as char
    }
}

/// Renders `n` in decimal.
pub fn u64_to_dec(n: u64) -> (s: String)
    ensures
        s@ == dec_rep(n),
    decreases n,
{
    if n < 10 {
        let mut s = String::new();
        push_char(&mut s, digit_char_exec(n));
        assert(s@ =~= dec_rep(n));
        s
    } else {
        assert(n / 10 < n) by (nonlinear_arith)
            requires
                n >= 10,
        ;
        let mut s = u64_to_dec(n / 10);
        push_char(&mut s, digit_char_exec(n % 10));
        s
    }
}

/// The pieces of `s` between its commas, in order: one piece more than
/// there are commas, each possibly empty.
pub open spec fn split_commas(s: Seq<char>) -> Seq<Seq<char>>
    decreases s.len(),
{
    if s.len() == 0 {
        seq![Seq::empty()]
    } else {
        let prev = split_commas(s.drop_last());
        if s.last() == ',' {
            prev.push(Seq::empty())
        } else {
            prev.drop_last().push(prev.last().push(s.last()))
        }
    }
}

/// A split always yields at least one piece.
pub proof fn lemma_split_commas_nonempty(s: Seq<char>)
    ensures
        split_commas(s).len() >= 1,
    decreases s.len(),
{
    if s.len() > 0 {
        lemma_split_commas_nonempty(s.drop_last());
    }
}

/// Splits a comma-separated list into its pieces.
pub fn split_commas_exec(s: &str) -> (r: Vec<String>)
    ensures
        r@.map_values(|t: String| t@) == split_commas(s@),
{
    let n = s.unicode_len();
    let mut segs: Vec<String> = Vec::new();
    let mut cur = String::new();
    let mut i: usize = 0;
    assert(segs@.map_values(|t: String| t@).push(cur@) =~= split_commas(s@.take(0)));
    while i < n
        invariant
            i <= n,
            n == s@.len(),
            split_commas(s@.take(i as int)) == segs@.map_values(|t: String| t@).push(cur@),
        decreases n - i,
    {
        let c = s.get_char(i);
        proof {
            assert(s@.take(i + 1).drop_last() =~= s@.take(i as int));
            assert(s@.take(i + 1).last() == s@[i as int]);
            lemma_split_commas_nonempty(s@.take(i as int));
        }
        if c == ',' {
            let ghost old_segs = segs@;
            let ghost old_cur = cur@;
            segs.push(cur);
            cur = String::new();
            assert(segs@.map_values(|t: String| t@).push(cur@) =~= split_commas(
                s@.take(i as int),
            ).push(Seq::empty()));
        } else {
            push_char(&mut cur, c);
            assert(segs@.map_values(|t: String| t@).push(cur@) =~= split_commas(
                s@.take(i as int),
            ).drop_last().push(split_commas(s@.take(i as int)).last().push(c)));
        }
        i = i + 1;
    }
    assert(s@.take(n as int) =~= s@);
    segs.push(cur);
    assert(segs@.map_values(|t: String| t@) =~= split_commas(s@));
    segs
}

/// Renders `n` in lowercase hexadecimal, without a `0x` prefix.
pub fn u64_to_hex(n: u64) -> (s: String)
    ensures
        s@ == hex_rep(n),
    decreases n,
{
    if n < 16 {
        let mut s = String::new();
        push_char(&mut s, digit_char_exec(n));
        assert(s@ =~= hex_rep(n));
        s
    } else {
        assert(n / 16 < n) by (nonlinear_arith)
            requires
                n >= 16,
        ;
        let mut s = u64_to_hex(n / 16);
        push_char(&mut s, digit_char_exec(n % 16));
        s
    }
}

} // verus!
