//! Byte-level text helpers for the command grammar: splitting a line into
//! space-separated tokens and reading unsigned decimal numbers.

use vstd::prelude::*;

verus! {

/// The ASCII space byte, the only token separator in the command grammar.
pub const SPACE: u8 = 32;

/// The ASCII code of the digit `0`.
pub const DIGIT_ZERO: u8 = 48;

/// The ASCII code of the digit `9`.
pub const DIGIT_NINE: u8 = 57;

/// Whether `b` is an ASCII decimal digit.
pub open spec fn is_digit(b: u8) -> bool {
    DIGIT_ZERO <= b <= DIGIT_NINE
}

/// Whether every byte of `t` is an ASCII decimal digit.
pub open spec fn all_digits(t: Seq<u8>) -> bool {
    forall|i: int| 0 <= i < t.len() ==> is_digit(#[trigger] t[i])
}

/// The numeric value of a sequence of ASCII digits, most significant first.
pub open spec fn digits_value(t: Seq<u8>) -> nat
    decreases t.len(),
{
    if t.len() == 0 {
        0
    } else {
        digits_value(t.drop_last()) * 10 + (t.last() - DIGIT_ZERO) as nat
    }
}

/// What parsing an unsigned decimal number returns: the value, when the input
/// is one or more digits whose value fits in a `u32`; nothing otherwise.
pub open spec fn spec_parse_u32(t: Seq<u8>) -> Option<u32> {
    if t.len() > 0 && all_digits(t) && digits_value(t) <= u32::MAX {
        Some(digits_value(t) as u32)
    } else {
        None
    }
}

/// The value of a digit string never shrinks when digits are appended.
proof fn lemma_digits_value_prefix(t: Seq<u8>, k: int)
    requires
        0 <= k <= t.len(),
    ensures
        digits_value(t.take(k)) <= digits_value(t),
    decreases t.len() - k,
{
    if k < t.len() {
        lemma_digits_value_prefix(t.drop_last(), k);
        assert(t.drop_last().take(k) =~= t.take(k));
    } else {
        assert(t.take(k) =~= t);
    }
}

/// Parses `t` as an unsigned decimal number.
pub fn parse_u32(t: &[u8]) -> (r: Option<u32>)
    ensures
        r == spec_parse_u32(t@),
{
    if t.len() == 0 {
        return None;
    }
    let mut acc: u32 = 0;
    let mut i: usize = 0;
    while i < t.len()
        invariant
            0 < t@.len(),
            i <= t@.len(),
            all_digits(t@.take(i as int)),
            acc == digits_value(t@.take(i as int)),
        decreases t@.len() - i,
    {
        let b = t[i];
        if b < DIGIT_ZERO || b > DIGIT_NINE {
            assert(!all_digits(t@));
            return None;
        }
        let d = (b - DIGIT_ZERO) as u32;
        proof {
            assert(t@.take(i + 1).drop_last() =~= t@.take(i as int));
            assert(t@.take(i + 1).last() == t@[i as int]);
        }
        let acc10 = match acc.checked_mul(10) {
            Some(v) => v,
            None => {
                proof {
                    if all_digits(t@) {
                        lemma_digits_value_prefix(t@, i + 1);
                    }
                }
                return None;
            },
        };
        acc = match acc10.checked_add(d) {
            Some(v) => v,
            None => {
                proof {
                    if all_digits(t@) {
                        lemma_digits_value_prefix(t@, i + 1);
                    }
                }
                return None;
            },
        };
        i = i + 1;
    }
    proof {
        assert(t@.take(i as int) =~= t@);
    }
    Some(acc)
}

/// The end of the token starting at `from`: the index of the first space at
/// or after `from`, or the end of the line if there is none.
pub open spec fn tok_end(t: Seq<u8>, from: int) -> int
    decreases t.len() - from,
{
    if !(0 <= from < t.len()) {
        t.len() as int
    } else if t[from] == SPACE {
        from
    } else {
        tok_end(t, from + 1)
    }
}

/// `tok_end` stays between its starting point and the end of the line.
pub proof fn lemma_tok_end_bounds(t: Seq<u8>, from: int)
    requires
        0 <= from <= t.len(),
    ensures
        from <= tok_end(t, from) <= t.len(),
    decreases t.len() - from,
{
    if from < t.len() && t[from] != SPACE {
        lemma_tok_end_bounds(t, from + 1);
    }
}

/// The space-separated tokens of `t` from position `from` on. Splitting keeps
/// empty tokens, so a line of `n` spaces yields `n + 1` tokens.
pub open spec fn tokens_from(t: Seq<u8>, from: int) -> Seq<Seq<u8>>
    decreases t.len() - from
        when 0 <= from <= t.len()
        via tokens_from_decreases
{
    let e = tok_end(t, from);
    if e >= t.len() {
        seq![t.subrange(from, t.len() as int)]
    } else {
        seq![t.subrange(from, e)] + tokens_from(t, e + 1)
    }
}

#[via_fn]
proof fn tokens_from_decreases(t: Seq<u8>, from: int) {
    lemma_tok_end_bounds(t, from);
}

/// The tokens of a whole line.
pub open spec fn spec_tokens(t: Seq<u8>) -> Seq<Seq<u8>> {
    tokens_from(t, 0)
}

/// A line always has at least one token.
pub proof fn lemma_tokens_from_nonempty(t: Seq<u8>, from: int)
    requires
        0 <= from <= t.len(),
    ensures
        tokens_from(t, from).len() >= 1,
{
    lemma_tok_end_bounds(t, from);
}

/// Finds the end of the token starting at `from`.
pub fn find_tok_end(t: &[u8], from: usize) -> (e: usize)
    requires
        from <= t@.len(),
    ensures
        e == tok_end(t@, from as int),
    decreases t@.len() - from,
{
    if from >= t.len() {
        return from;
    }
    if t[from] == SPACE {
        from
    } else {
        find_tok_end(t, from + 1)
    }
}

fn tokenize_from(t: &[u8], from: usize) -> (tks: Vec<Vec<u8>>)
    requires
        from <= t@.len(),
    ensures
        tks@.map_values(|v: Vec<u8>| v@) == tokens_from(t@, from as int),
    decreases t@.len() - from,
{
    proof {
        lemma_tok_end_bounds(t@, from as int);
    }
    let e = find_tok_end(t, from);
    let tok = vstd::slice::slice_to_vec(vstd::slice::slice_subrange(t, from, e));
    if e >= t.len() {
        let mut tks: Vec<Vec<u8>> = Vec::new();
        tks.push(tok);
        proof {
            assert(tks@.map_values(|v: Vec<u8>| v@) =~= tokens_from(t@, from as int));
        }
        tks
    } else {
        let mut tks = tokenize_from(t, e + 1);
        tks.insert(0, tok);
        proof {
            assert(tks@.map_values(|v: Vec<u8>| v@) =~= tokens_from(t@, from as int));
        }
        tks
    }
}

/// Splits a line into its space-separated tokens.
pub fn tokenize(t: &[u8]) -> (tks: Vec<Vec<u8>>)
    ensures
        tks@.map_values(|v: Vec<u8>| v@) == spec_tokens(t@),
        tks@.len() >= 1,
{
    proof {
        lemma_tokens_from_nonempty(t@, 0);
    }
    let tks = tokenize_from(t, 0);
    proof {
        assert(tks@.len() == tks@.map_values(|v: Vec<u8>| v@).len());
    }
    tks
}

/// Whether two byte slices hold the same bytes.
pub fn bytes_eq(a: &[u8], b: &[u8]) -> (r: bool)
    ensures
        r == (a@ == b@),
{
    if a.len() != b.len() {
        return false;
    }
    let mut i: usize = 0;
    while i < a.len()
        invariant
            a@.len() == b@.len(),
            i <= a@.len(),
            forall|j: int| 0 <= j < i ==> a@[j] == b@[j],
        decreases a@.len() - i,
    {
        if a[i] != b[i] {
            return false;
        }
        i = i + 1;
    }
    proof {
        assert(a@ =~= b@);
    }
    true
}

} // verus!
