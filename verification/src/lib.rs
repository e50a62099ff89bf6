//! Zalgo text: interleaving random Unicode combining marks after the
//! characters of an input string.
//!
//! The transform first resolves its three quantity specifications (one per
//! mark category) to concrete counts, then walks the input characters in
//! order, drops every character that is already a combining mark of the
//! tables, and emits each surviving character followed by the resolved
//! number of randomly chosen marks from each category, above first, then
//! overlaid, then below.

mod chars;
mod laws;
mod rand_or_static;
mod rng;

use vstd::arithmetic::mul::*;
use vstd::prelude::*;
use vstd::string::StrSliceExecFns;

pub use crate::chars::is_up_code;
pub use crate::chars::is_mid_code;
pub use crate::chars::is_down_code;
pub use crate::chars::is_zalgo_code;
pub use crate::chars::is_zalgo_mark;
pub use crate::chars::is_zalgo_char;
pub use crate::chars::is_zalgo_char_scan;
pub use crate::rand_or_static::RandOrStatic;
pub use crate::laws::lemma_count_fidelity;
pub use crate::laws::lemma_zero_counts_filter;
pub use crate::laws::lemma_strip_marks_all_kept;
pub use crate::laws::lemma_strip_marks_idempotent;
pub use crate::laws::lemma_non_emptiness;

verus! {

/// The characters of `s` that survive the transform: everything that is not
/// already a combining mark of the tables.
pub open spec fn strip_marks(s: Seq<char>) -> Seq<char> {
    s.filter(|c: char| !is_zalgo_mark(c))
}

/// One emitted unit of the transform: the surviving character `c`, then `a`
/// above-marks, then `m` overlaid marks, then `d` below-marks.
pub open spec fn is_mark_block(b: Seq<char>, c: char, a: int, m: int, d: int) -> bool {
    &&& b.len() == 1 + a + m + d
    &&& b[0] == c
    &&& forall|j: int| 1 <= j < 1 + a ==> is_up_code(#[trigger] b[j] as u32)
    &&& forall|j: int| 1 + a <= j < 1 + a + m ==> is_mid_code(#[trigger] b[j] as u32)
    &&& forall|j: int| 1 + a + m <= j < 1 + a + m + d ==> is_down_code(#[trigger] b[j] as u32)
}

/// The block of `out` that decorates the `i`-th character of the base text,
/// when every block is `k` characters wide.
pub open spec fn block_at(out: Seq<char>, k: int, i: int) -> Seq<char> {
    out.subrange(i * k, (i + 1) * k)
}

/// `out` decorates `base` with counts `a`, `m`, `d`: it is the characters of
/// `base`, in their original order, each followed by `a` above-marks, `m`
/// overlaid marks and `d` below-marks, in that category order.
pub open spec fn is_decoration(base: Seq<char>, a: int, m: int, d: int, out: Seq<char>) -> bool {
    let k = 1 + a + m + d;
    &&& out.len() == base.len() * k
    &&& forall|i: int| 0 <= i < base.len() ==> is_mark_block(
        #[trigger] block_at(out, k, i),
        base[i],
        a,
        m,
        d,
    )
}

/// Filtering one more character extends the surviving text by that character
/// exactly when it is not a combining mark.
proof fn lemma_strip_marks_step(s: Seq<char>, i: int)
    requires
        0 <= i < s.len(),
    ensures
        strip_marks(s.subrange(0, i + 1)) == if is_zalgo_mark(s[i]) {
            strip_marks(s.subrange(0, i))
        } else {
            strip_marks(s.subrange(0, i)).push(s[i])
        },
{
    reveal_with_fuel(Seq::<_>::filter, 2);
    let t = s.subrange(0, i + 1);
    assert(t.drop_last() =~= s.subrange(0, i));
    assert(t.last() == s[i]);
}

/// Appending a well-formed mark block to a decoration of `base` yields a
/// decoration of `base` extended by the block's surviving character.
proof fn lemma_decoration_push(
    base: Seq<char>,
    a: int,
    m: int,
    d: int,
    out: Seq<char>,
    blk: Seq<char>,
    c: char,
)
    requires
        a >= 0,
        m >= 0,
        d >= 0,
        is_decoration(base, a, m, d, out),
        is_mark_block(blk, c, a, m, d),
    ensures
        is_decoration(base.push(c), a, m, d, out + blk),
{
    let k = 1 + a + m + d;
    let n = base.len() as int;
    lemma_mul_is_distributive_add_other_way(k, n, 1);
    assert((n + 1) * k == n * k + k);
    assert((out + blk).len() == (n + 1) * k);
    assert forall|i: int| 0 <= i < n + 1 implies is_mark_block(
        #[trigger] block_at(out + blk, k, i),
        base.push(c)[i],
        a,
        m,
        d,
    ) by {
        lemma_mul_nonnegative(i, k);
        if i < n {
            lemma_mul_inequality(i + 1, n, k);
            assert((i + 1) * k == i * k + k) by {
                lemma_mul_is_distributive_add_other_way(k, i, 1);
            }
            assert(block_at(out + blk, k, i) =~= block_at(out, k, i));
            assert(is_mark_block(block_at(out, k, i), base[i], a, m, d));
        } else {
            assert(i == n);
            assert((n + 1) * k == n * k + k);
            assert(block_at(out + blk, k, n) =~= blk);
        }
    }
}

/// Relies on `String::from_iter` over characters: the returned string holds
/// exactly the given characters in order.
#[verifier::external_body]
fn chars_to_string(v: Vec<char>) -> (r: String)
    ensures
        r@ == v@,
{
    String::from_iter(v)
}

/// A builder for a zalgoifier: three quantity specifications, one per mark
/// category.
#[derive(Debug)]
pub struct ZalgoBuilder {
    /// The up limit
    pub up: RandOrStatic,
    /// The down limit
    pub down: RandOrStatic,
    /// The mid limit
    pub mid: RandOrStatic,
}

impl ZalgoBuilder {
    /// The default configuration: up to seven marks above, up to seven
    /// overlaid, at most one below each surviving character.
    pub open spec fn default_config() -> ZalgoBuilder {
        ZalgoBuilder {
            up: RandOrStatic::Rand { start: 0, end: 8 },
            down: RandOrStatic::Rand { start: 0, end: 2 },
            mid: RandOrStatic::Rand { start: 0, end: 8 },
        }
    }

    /// Every quantity specification of this builder is well formed.
    pub open spec fn wf(self) -> bool {
        self.up.wf() && self.down.wf() && self.mid.wf()
    }

    /// `out` is a possible transform of `input` under this configuration:
    /// counts that the three quantities can resolve to decorate the
    /// surviving characters of `input`.
    pub open spec fn zalgoified(self, input: Seq<char>, out: Seq<char>) -> bool {
        exists|a: int, m: int, d: int|
            self.up.resolves_to(a) && self.mid.resolves_to(m) && self.down.resolves_to(d)
                && is_decoration(strip_marks(input), a, m, d, out)
    }

    /// Make a new [`ZalgoBuilder`] with the default configuration.
    pub fn new() -> (r: Self)
        ensures
            r == Self::default_config(),
    {
        Self {
            up: RandOrStatic::Rand { start: 0, end: 8 },
            down: RandOrStatic::Rand { start: 0, end: 2 },
            mid: RandOrStatic::Rand { start: 0, end: 8 },
        }
    }

    /// Set the up limits
    pub fn set_up(&mut self, up: RandOrStatic)
        ensures
            final(self).up == up,
            final(self).down == old(self).down,
            final(self).mid == old(self).mid,
    {
        self.up = up;
    }

    /// Set the down limits
    pub fn set_down(&mut self, down: RandOrStatic)
        ensures
            final(self).down == down,
            final(self).up == old(self).up,
            final(self).mid == old(self).mid,
    {
        self.down = down;
    }

    /// Set the mid limits
    pub fn set_mid(&mut self, mid: RandOrStatic)
        ensures
            final(self).mid == mid,
            final(self).up == old(self).up,
            final(self).down == old(self).down,
    {
        self.mid = mid;
    }

    /// Report whether every quantity specification of this builder is well
    /// formed, so that a caller holding arbitrary configuration data can
    /// refuse a defective one before transforming.
    pub fn is_well_formed(&self) -> (r: bool)
        ensures
            r == self.wf(),
    {
        self.up.is_well_formed() && self.down.is_well_formed() && self.mid.is_well_formed()
    }

    /// Zalgoify a string: drop the characters that are already combining
    /// marks, and emit every other character followed by freshly drawn marks,
    /// with one count per category resolved once for the whole call.
    pub fn zalgoify(&self, input: &str) -> (r: String)
        requires
            self.wf(),
        ensures
            self.zalgoified(input@, r@),
    {
        let mut rng = rng::fresh_rng();
        let up_num = self.up.generate_num(&mut rng);
        let mid_num = self.mid.generate_num(&mut rng);
        let down_num = self.down.generate_num(&mut rng);
        let ghost a = up_num as int;
        let ghost m = mid_num as int;
        let ghost d = down_num as int;

        let up_t = chars::zalgo_up_table();
        let mid_t = chars::zalgo_mid_table();
        let down_t = chars::zalgo_down_table();

        let n = input.unicode_len();
        let mut out: Vec<char> = Vec::new();
        let mut i: usize = 0;
        while i < n
            invariant
                i <= n,
                n == input@.len(),
                up_t@.len() == 50,
                mid_t@.len() == 23,
                down_t@.len() == 40,
                forall|t: int| 0 <= t < up_t@.len() ==> is_up_code(#[trigger] up_t@[t] as u32),
                forall|t: int| 0 <= t < mid_t@.len() ==> is_mid_code(#[trigger] mid_t@[t] as u32),
                forall|t: int| 0 <= t < down_t@.len() ==> is_down_code(
                    #[trigger] down_t@[t] as u32,
                ),
                a == up_num as int,
                m == mid_num as int,
                d == down_num as int,
                is_decoration(strip_marks(input@.subrange(0, i as int)), a, m, d, out@),
            decreases n - i,
        {
            let c = input.get_char(i);
            proof {
                lemma_strip_marks_step(input@, i as int);
            }
            if !chars::is_zalgo_char(c) {
                let ghost base = strip_marks(input@.subrange(0, i as int));
                let mut blk: Vec<char> = Vec::new();
                blk.push(c);

                let mut j: usize = 0;
                while j < up_num
                    invariant
                        j <= up_num,
                        up_t@.len() == 50,
                        forall|t: int| 0 <= t < up_t@.len() ==> is_up_code(
                            #[trigger] up_t@[t] as u32,
                        ),
                        blk@.len() == 1 + j,
                        blk@[0] == c,
                        forall|p: int| 1 <= p < blk@.len() ==> is_up_code(#[trigger] blk@[p] as u32),
                    decreases up_num - j,
                {
                    let idx = rng::gen_range(&mut rng, 0, up_t.len());
                    blk.push(up_t[idx]);
                    j += 1;
                }

                let mut j: usize = 0;
                while j < mid_num
                    invariant
                        j <= mid_num,
                        mid_t@.len() == 23,
                        forall|t: int| 0 <= t < mid_t@.len() ==> is_mid_code(
                            #[trigger] mid_t@[t] as u32,
                        ),
                        blk@.len() == 1 + up_num + j,
                        blk@[0] == c,
                        forall|p: int| 1 <= p < 1 + up_num as int ==> is_up_code(
                            #[trigger] blk@[p] as u32,
                        ),
                        forall|p: int| 1 + up_num as int <= p < blk@.len() ==> is_mid_code(
                            #[trigger] blk@[p] as u32,
                        ),
                    decreases mid_num - j,
                {
                    let idx = rng::gen_range(&mut rng, 0, mid_t.len());
                    blk.push(mid_t[idx]);
                    j += 1;
                }

                let mut j: usize = 0;
                while j < down_num
                    invariant
                        j <= down_num,
                        down_t@.len() == 40,
                        forall|t: int| 0 <= t < down_t@.len() ==> is_down_code(
                            #[trigger] down_t@[t] as u32,
                        ),
                        blk@.len() == 1 + up_num + mid_num + j,
                        blk@[0] == c,
                        forall|p: int| 1 <= p < 1 + up_num as int ==> is_up_code(
                            #[trigger] blk@[p] as u32,
                        ),
                        forall|p: int|
                            1 + up_num as int <= p < 1 + up_num as int + mid_num as int
                                ==> is_mid_code(#[trigger] blk@[p] as u32),
                        forall|p: int|
                            1 + up_num as int + mid_num as int <= p < blk@.len() ==> is_down_code(
                                #[trigger] blk@[p] as u32,
                            ),
                    decreases down_num - j,
                {
                    let idx = rng::gen_range(&mut rng, 0, down_t.len());
                    blk.push(down_t[idx]);
                    j += 1;
                }

                proof {
                    assert(is_mark_block(blk@, c, a, m, d));
                    lemma_decoration_push(base, a, m, d, out@, blk@, c);
                }
                out.append(&mut blk);
            }
            i += 1;
        }
        proof {
            assert(input@.subrange(0, n as int) =~= input@);
        }
        let r = chars_to_string(out);
        proof {
            assert(self.up.resolves_to(a));
            assert(self.mid.resolves_to(m));
            assert(self.down.resolves_to(d));
            assert(is_decoration(strip_marks(input@), a, m, d, r@));
        }
        r
    }
}

impl Default for ZalgoBuilder {
    /// The default builder carries the default configuration.
    fn default() -> (r: Self)
        ensures
            r == ZalgoBuilder::default_config(),
    {
        Self::new()
    }
}

/// Zalgoify the input using default settings.
pub fn zalgoify(input: &str) -> (r: String)
    ensures
        ZalgoBuilder::default_config().zalgoified(input@, r@),
{
    ZalgoBuilder::new().zalgoify(input)
}

} // verus!
