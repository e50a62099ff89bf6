//! Laws of the transform, stated over the same spec functions its contracts
//! use: what the output looks like position by position, what a zero-count
//! transform does, and when the output cannot be empty.

use vstd::arithmetic::mul::*;
use vstd::prelude::*;
use vstd::seq_lib::*;

use crate::chars::is_down_code;
use crate::chars::is_mid_code;
use crate::chars::is_up_code;
use crate::chars::is_zalgo_mark;
use crate::block_at;
use crate::is_decoration;
use crate::is_mark_block;
use crate::strip_marks;

verus! {

/// Law: count fidelity. A transform output with counts `a`, `m`, `d` over a
/// base text of `n` surviving characters has exactly `n * (1 + a + m + d)`
/// characters, and the block decorating the `i`-th surviving character holds
/// that character first, then `a` above-marks, `m` overlaid marks and `d`
/// below-marks, in that order.
pub proof fn lemma_count_fidelity(
    base: Seq<char>,
    a: int,
    m: int,
    d: int,
    out: Seq<char>,
    i: int,
    j: int,
)
    requires
        a >= 0,
        m >= 0,
        d >= 0,
        is_decoration(base, a, m, d, out),
        0 <= i < base.len(),
        0 <= j < 1 + a + m + d,
    ensures
        out.len() == base.len() * (1 + a + m + d),
        0 <= i * (1 + a + m + d) + j < out.len(),
        j == 0 ==> out[i * (1 + a + m + d) + j] == base[i],
        1 <= j < 1 + a ==> is_up_code(out[i * (1 + a + m + d) + j] as u32),
        1 + a <= j < 1 + a + m ==> is_mid_code(out[i * (1 + a + m + d) + j] as u32),
        1 + a + m <= j ==> is_down_code(out[i * (1 + a + m + d) + j] as u32),
{
    let k = 1 + a + m + d;
    lemma_mul_nonnegative(i, k);
    lemma_mul_inequality(i + 1, base.len() as int, k);
    assert((i + 1) * k == i * k + k) by {
        lemma_mul_is_distributive_add_other_way(k, i, 1);
    }
    assert(is_mark_block(block_at(out, k, i), base[i], a, m, d));
    assert(block_at(out, k, i)[j] == out[i * k + j]);
}

/// Law: filter-idempotence, first half. With all three counts zero the
/// transform only filters: the output is exactly the surviving characters of
/// the input, in their original order.
pub proof fn lemma_zero_counts_filter(input: Seq<char>, out: Seq<char>)
    requires
        is_decoration(strip_marks(input), 0, 0, 0, out),
    ensures
        out == strip_marks(input),
{
    let base = strip_marks(input);
    assert(base.len() * 1 == base.len()) by {
        lemma_mul_basics(base.len() as int);
    }
    assert forall|i: int| 0 <= i < base.len() implies out[i] == base[i] by {
        assert(i * 1 == i && (i + 1) * 1 == i + 1) by {
            lemma_mul_basics(i);
            lemma_mul_basics(i + 1);
        }
        assert(is_mark_block(block_at(out, 1, i), base[i], 0, 0, 0));
        assert(block_at(out, 1, i)[0] == out[i]);
    }
    assert(out =~= base);
}

/// Filtering keeps a text with no combining mark in it unchanged.
pub proof fn lemma_strip_marks_all_kept(s: Seq<char>)
    requires
        forall|i: int| 0 <= i < s.len() ==> !is_zalgo_mark(#[trigger] s[i]),
    ensures
        strip_marks(s) == s,
    decreases s.len(),
{
    reveal_with_fuel(Seq::<_>::filter, 2);
    if s.len() == 0 {
        assert(strip_marks(s) =~= s);
    } else {
        lemma_strip_marks_all_kept(s.drop_last());
        assert(!is_zalgo_mark(s.last()));
        assert(strip_marks(s) =~= s);
    }
}

/// Law: filter-idempotence, second half. The surviving text of an input
/// survives a second filtering whole: a zero-count transform applied twice is
/// the same as applied once.
pub proof fn lemma_strip_marks_idempotent(s: Seq<char>)
    ensures
        strip_marks(strip_marks(s)) == strip_marks(s),
{
    let stripped = strip_marks(s);
    assert forall|i: int| 0 <= i < stripped.len() implies !is_zalgo_mark(#[trigger] stripped[i]) by {
        s.lemma_filter_pred(|c: char| !is_zalgo_mark(c), i);
    }
    lemma_strip_marks_all_kept(stripped);
}

/// Law: non-emptiness. A transform of an input with at least one surviving
/// character is never empty; it is at least as long as the surviving text,
/// longer exactly when some count is positive.
pub proof fn lemma_non_emptiness(input: Seq<char>, a: int, m: int, d: int, out: Seq<char>)
    requires
        a >= 0,
        m >= 0,
        d >= 0,
        is_decoration(strip_marks(input), a, m, d, out),
        strip_marks(input).len() > 0,
    ensures
        out.len() > 0,
        out.len() >= strip_marks(input).len(),
        a + m + d > 0 ==> out.len() > strip_marks(input).len(),
        a + m + d == 0 ==> out.len() == strip_marks(input).len(),
{
    let base = strip_marks(input);
    let k = 1 + a + m + d;
    lemma_mul_basics(base.len() as int);
    lemma_mul_left_inequality(base.len() as int, 1, k);
    if k > 1 {
        lemma_mul_strict_inequality(1, k, base.len() as int);
        lemma_mul_is_commutative(k, base.len() as int);
    }
}

} // verus!
