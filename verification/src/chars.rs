//! The three fixed tables of combining marks and the classifier over them.
//!
//! Each category of mark (above, mixed, below) owns an immutable, ordered
//! table of Unicode combining marks. A compact range predicate characterises
//! the code points of each table, and the table constructors prove that the
//! data and the predicate agree exactly, in both directions; the rest of the
//! crate reasons over the predicates alone.

use vstd::prelude::*;

verus! {


/// The code points of the marks drawn above a base character.
pub open spec fn is_up_code(u: u32) -> bool {
    ||| 0x300 <= u <= 0x314
    ||| u == 0x31A
    ||| 0x33D <= u <= 0x33F
    ||| 0x342 <= u <= 0x344
    ||| u == 0x346
    ||| 0x34A <= u <= 0x34C
    ||| 0x350 <= u <= 0x352
    ||| u == 0x357
    ||| u == 0x35B
    ||| 0x363 <= u <= 0x36F
}

/// The code points of the marks drawn over or through a base character.
pub open spec fn is_mid_code(u: u32) -> bool {
    ||| u == 0x315
    ||| u == 0x31B
    ||| 0x321 <= u <= 0x322
    ||| 0x327 <= u <= 0x328
    ||| 0x334 <= u <= 0x338
    ||| 0x340 <= u <= 0x341
    ||| u == 0x34F
    ||| u == 0x358
    ||| 0x35C <= u <= 0x362
    ||| u == 0x489
}

/// The code points of the marks drawn below a base character.
pub open spec fn is_down_code(u: u32) -> bool {
    ||| 0x316 <= u <= 0x319
    ||| 0x31C <= u <= 0x320
    ||| 0x323 <= u <= 0x326
    ||| 0x329 <= u <= 0x333
    ||| 0x339 <= u <= 0x33C
    ||| u == 0x345
    ||| 0x347 <= u <= 0x349
    ||| 0x34D <= u <= 0x34E
    ||| 0x353 <= u <= 0x356
    ||| 0x359 <= u <= 0x35A
}

/// A code point is a combining mark of this crate exactly when one of the
/// three categories holds it.
pub open spec fn is_zalgo_code(u: u32) -> bool {
    is_up_code(u) || is_mid_code(u) || is_down_code(u)
}

/// The characters the transform filters out of its input: the members of the
/// three mark tables.
pub open spec fn is_zalgo_mark(c: char) -> bool {
    is_zalgo_code(c as u32)
}


/// The table of above-marks: exactly the characters `is_up_code` admits.
#[verifier::rlimit(50)]
pub(crate) fn zalgo_up_table() -> (v: Vec<char>)
    ensures
        v@.len() == 50,
        forall|i: int| 0 <= i < v@.len() ==> is_up_code(#[trigger] v@[i] as u32),
        forall|u: u32| is_up_code(u) ==> exists|i: int|
            0 <= i < v@.len() && #[trigger] v@[i] as u32 == u,
{
    let mut v: Vec<char> = Vec::new();
    v.push('\u{0300}');
    v.push('\u{0301}');
    v.push('\u{0302}');
    v.push('\u{0303}');
    v.push('\u{0304}');
    v.push('\u{0305}');
    v.push('\u{0306}');
    v.push('\u{0307}');
    v.push('\u{0308}');
    v.push('\u{0309}');
    v.push('\u{030A}');
    v.push('\u{030B}');
    v.push('\u{030C}');
    v.push('\u{030D}');
    v.push('\u{030E}');
    v.push('\u{030F}');
    v.push('\u{0310}');
    v.push('\u{0311}');
    v.push('\u{0312}');
    v.push('\u{0313}');
    v.push('\u{0314}');
    v.push('\u{031A}');
    v.push('\u{033D}');
    v.push('\u{033E}');
    v.push('\u{033F}');
    v.push('\u{0342}');
    v.push('\u{0343}');
    v.push('\u{0344}');
    v.push('\u{0346}');
    v.push('\u{034A}');
    v.push('\u{034B}');
    v.push('\u{034C}');
    v.push('\u{0350}');
    v.push('\u{0351}');
    v.push('\u{0352}');
    v.push('\u{0357}');
    v.push('\u{035B}');
    v.push('\u{0363}');
    v.push('\u{0364}');
    v.push('\u{0365}');
    v.push('\u{0366}');
    v.push('\u{0367}');
    v.push('\u{0368}');
    v.push('\u{0369}');
    v.push('\u{036A}');
    v.push('\u{036B}');
    v.push('\u{036C}');
    v.push('\u{036D}');
    v.push('\u{036E}');
    v.push('\u{036F}');
    proof {
        assert(v@[0] as u32 == 0x300);
        assert(v@[1] as u32 == 0x301);
        assert(v@[2] as u32 == 0x302);
        assert(v@[3] as u32 == 0x303);
        assert(v@[4] as u32 == 0x304);
        assert(v@[5] as u32 == 0x305);
        assert(v@[6] as u32 == 0x306);
        assert(v@[7] as u32 == 0x307);
        assert(v@[8] as u32 == 0x308);
        assert(v@[9] as u32 == 0x309);
        assert(v@[10] as u32 == 0x30A);
        assert(v@[11] as u32 == 0x30B);
        assert(v@[12] as u32 == 0x30C);
        assert(v@[13] as u32 == 0x30D);
        assert(v@[14] as u32 == 0x30E);
        assert(v@[15] as u32 == 0x30F);
        assert(v@[16] as u32 == 0x310);
        assert(v@[17] as u32 == 0x311);
        assert(v@[18] as u32 == 0x312);
        assert(v@[19] as u32 == 0x313);
        assert(v@[20] as u32 == 0x314);
        assert(v@[21] as u32 == 0x31A);
        assert(v@[22] as u32 == 0x33D);
        assert(v@[23] as u32 == 0x33E);
        assert(v@[24] as u32 == 0x33F);
        assert(v@[25] as u32 == 0x342);
        assert(v@[26] as u32 == 0x343);
        assert(v@[27] as u32 == 0x344);
        assert(v@[28] as u32 == 0x346);
        assert(v@[29] as u32 == 0x34A);
        assert(v@[30] as u32 == 0x34B);
        assert(v@[31] as u32 == 0x34C);
        assert(v@[32] as u32 == 0x350);
        assert(v@[33] as u32 == 0x351);
        assert(v@[34] as u32 == 0x352);
        assert(v@[35] as u32 == 0x357);
        assert(v@[36] as u32 == 0x35B);
        assert(v@[37] as u32 == 0x363);
        assert(v@[38] as u32 == 0x364);
        assert(v@[39] as u32 == 0x365);
        assert(v@[40] as u32 == 0x366);
        assert(v@[41] as u32 == 0x367);
        assert(v@[42] as u32 == 0x368);
        assert(v@[43] as u32 == 0x369);
        assert(v@[44] as u32 == 0x36A);
        assert(v@[45] as u32 == 0x36B);
        assert(v@[46] as u32 == 0x36C);
        assert(v@[47] as u32 == 0x36D);
        assert(v@[48] as u32 == 0x36E);
        assert(v@[49] as u32 == 0x36F);
        assert(forall|i: int| 0 <= i < v@.len() ==> is_up_code(#[trigger] v@[i] as u32));
        assert(forall|u: u32| is_up_code(u) ==> exists|i: int|
            0 <= i < v@.len() && #[trigger] v@[i] as u32 == u);
    }
    v
}

/// The table of overlaid marks: exactly the characters `is_mid_code` admits.
#[verifier::rlimit(50)]
pub(crate) fn zalgo_mid_table() -> (v: Vec<char>)
    ensures
        v@.len() == 23,
        forall|i: int| 0 <= i < v@.len() ==> is_mid_code(#[trigger] v@[i] as u32),
        forall|u: u32| is_mid_code(u) ==> exists|i: int|
            0 <= i < v@.len() && #[trigger] v@[i] as u32 == u,
{
    let mut v: Vec<char> = Vec::new();
    v.push('\u{0315}');
    v.push('\u{031B}');
    v.push('\u{0321}');
    v.push('\u{0322}');
    v.push('\u{0327}');
    v.push('\u{0328}');
    v.push('\u{0334}');
    v.push('\u{0335}');
    v.push('\u{0336}');
    v.push('\u{0337}');
    v.push('\u{0338}');
    v.push('\u{0340}');
    v.push('\u{0341}');
    v.push('\u{034F}');
    v.push('\u{0358}');
    v.push('\u{035C}');
    v.push('\u{035D}');
    v.push('\u{035E}');
    v.push('\u{035F}');
    v.push('\u{0360}');
    v.push('\u{0361}');
    v.push('\u{0362}');
    v.push('\u{0489}');
    proof {
        assert(v@[0] as u32 == 0x315);
        assert(v@[1] as u32 == 0x31B);
        assert(v@[2] as u32 == 0x321);
        assert(v@[3] as u32 == 0x322);
        assert(v@[4] as u32 == 0x327);
        assert(v@[5] as u32 == 0x328);
        assert(v@[6] as u32 == 0x334);
        assert(v@[7] as u32 == 0x335);
        assert(v@[8] as u32 == 0x336);
        assert(v@[9] as u32 == 0x337);
        assert(v@[10] as u32 == 0x338);
        assert(v@[11] as u32 == 0x340);
        assert(v@[12] as u32 == 0x341);
        assert(v@[13] as u32 == 0x34F);
        assert(v@[14] as u32 == 0x358);
        assert(v@[15] as u32 == 0x35C);
        assert(v@[16] as u32 == 0x35D);
        assert(v@[17] as u32 == 0x35E);
        assert(v@[18] as u32 == 0x35F);
        assert(v@[19] as u32 == 0x360);
        assert(v@[20] as u32 == 0x361);
        assert(v@[21] as u32 == 0x362);
        assert(v@[22] as u32 == 0x489);
        assert(forall|i: int| 0 <= i < v@.len() ==> is_mid_code(#[trigger] v@[i] as u32));
        assert(forall|u: u32| is_mid_code(u) ==> exists|i: int|
            0 <= i < v@.len() && #[trigger] v@[i] as u32 == u);
    }
    v
}

/// The table of below-marks: exactly the characters `is_down_code` admits.
#[verifier::rlimit(50)]
pub(crate) fn zalgo_down_table() -> (v: Vec<char>)
    ensures
        v@.len() == 40,
        forall|i: int| 0 <= i < v@.len() ==> is_down_code(#[trigger] v@[i] as u32),
        forall|u: u32| is_down_code(u) ==> exists|i: int|
            0 <= i < v@.len() && #[trigger] v@[i] as u32 == u,
{
    let mut v: Vec<char> = Vec::new();
    v.push('\u{0316}');
    v.push('\u{0317}');
    v.push('\u{0318}');
    v.push('\u{0319}');
    v.push('\u{031C}');
    v.push('\u{031D}');
    v.push('\u{031E}');
    v.push('\u{031F}');
    v.push('\u{0320}');
    v.push('\u{0323}');
    v.push('\u{0324}');
    v.push('\u{0325}');
    v.push('\u{0326}');
    v.push('\u{0329}');
    v.push('\u{032A}');
    v.push('\u{032B}');
    v.push('\u{032C}');
    v.push('\u{032D}');
    v.push('\u{032E}');
    v.push('\u{032F}');
    v.push('\u{0330}');
    v.push('\u{0331}');
    v.push('\u{0332}');
    v.push('\u{0333}');
    v.push('\u{0339}');
    v.push('\u{033A}');
    v.push('\u{033B}');
    v.push('\u{033C}');
    v.push('\u{0345}');
    v.push('\u{0347}');
    v.push('\u{0348}');
    v.push('\u{0349}');
    v.push('\u{034D}');
    v.push('\u{034E}');
    v.push('\u{0353}');
    v.push('\u{0354}');
    v.push('\u{0355}');
    v.push('\u{0356}');
    v.push('\u{0359}');
    v.push('\u{035A}');
    proof {
        assert(v@[0] as u32 == 0x316);
        assert(v@[1] as u32 == 0x317);
        assert(v@[2] as u32 == 0x318);
        assert(v@[3] as u32 == 0x319);
        assert(v@[4] as u32 == 0x31C);
        assert(v@[5] as u32 == 0x31D);
        assert(v@[6] as u32 == 0x31E);
        assert(v@[7] as u32 == 0x31F);
        assert(v@[8] as u32 == 0x320);
        assert(v@[9] as u32 == 0x323);
        assert(v@[10] as u32 == 0x324);
        assert(v@[11] as u32 == 0x325);
        assert(v@[12] as u32 == 0x326);
        assert(v@[13] as u32 == 0x329);
        assert(v@[14] as u32 == 0x32A);
        assert(v@[15] as u32 == 0x32B);
        assert(v@[16] as u32 == 0x32C);
        assert(v@[17] as u32 == 0x32D);
        assert(v@[18] as u32 == 0x32E);
        assert(v@[19] as u32 == 0x32F);
        assert(v@[20] as u32 == 0x330);
        assert(v@[21] as u32 == 0x331);
        assert(v@[22] as u32 == 0x332);
        assert(v@[23] as u32 == 0x333);
        assert(v@[24] as u32 == 0x339);
        assert(v@[25] as u32 == 0x33A);
        assert(v@[26] as u32 == 0x33B);
        assert(v@[27] as u32 == 0x33C);
        assert(v@[28] as u32 == 0x345);
        assert(v@[29] as u32 == 0x347);
        assert(v@[30] as u32 == 0x348);
        assert(v@[31] as u32 == 0x349);
        assert(v@[32] as u32 == 0x34D);
        assert(v@[33] as u32 == 0x34E);
        assert(v@[34] as u32 == 0x353);
        assert(v@[35] as u32 == 0x354);
        assert(v@[36] as u32 == 0x355);
        assert(v@[37] as u32 == 0x356);
        assert(v@[38] as u32 == 0x359);
        assert(v@[39] as u32 == 0x35A);
        assert(forall|i: int| 0 <= i < v@.len() ==> is_down_code(#[trigger] v@[i] as u32));
        assert(forall|u: u32| is_down_code(u) ==> exists|i: int|
            0 <= i < v@.len() && #[trigger] v@[i] as u32 == u);
    }
    v
}

/// Report whether some entry of a mark table has the code point `u`.
fn table_contains_code(v: &Vec<char>, u: u32) -> (r: bool)
    ensures
        r == exists|i: int| 0 <= i < v@.len() && #[trigger] v@[i] as u32 == u,
{
    let mut k: usize = 0;
    while k < v.len()
        invariant
            k <= v@.len(),
            forall|i: int| 0 <= i < k ==> #[trigger] v@[i] as u32 != u,
        decreases v@.len() - k,
    {
        if v[k] as u32 == u {
            return true;
        }
        k += 1;
    }
    false
}

/// Report whether a character is one of the combining marks this crate
/// inserts. This is the reference form, a scan of the three tables; it agrees
/// with the bit-pattern form [`is_zalgo_char`] on every Unicode scalar value.
///
/// [`is_zalgo_char`]: crate::is_zalgo_char
pub fn is_zalgo_char_scan(c: char) -> (r: bool)
    ensures
        r == is_zalgo_mark(c),
{
    let u = c as u32;
    let up = zalgo_up_table();
    if table_contains_code(&up, u) {
        return true;
    }
    let mid = zalgo_mid_table();
    if table_contains_code(&mid, u) {
        return true;
    }
    let down = zalgo_down_table();
    if table_contains_code(&down, u) {
        return true;
    }
    false
}

/// Report whether a character is one of the combining marks this crate
/// inserts, over the whole Unicode scalar range. This is the fast,
/// bit-pattern form; it agrees with the table scan exactly.
pub fn is_zalgo_char(c: char) -> (r: bool)
    ensures
        r == is_zalgo_mark(c),
{
    let u = c as u32;

    let case_0 = u & 0b00000000000000000000001100000000 == 0b00000000000000000000001100000000
        && u & 0b11111111111111111111110010010000 == 0;
    let case_1 = u & 0b00000000000000000000001100000000 == 0b00000000000000000000001100000000
        && u & 0b11111111111111111111110010100000 == 0;
    let case_2 = u & 0b00000000000000000000001100000000 == 0b00000000000000000000001100000000
        && u & 0b11111111111111111111110011000000 == 0;
    let case_3 = u & 0b00000000000000000000010010001001 == 0b00000000000000000000010010001001
        && u & 0b11111111111111111111101101110110 == 0;

    proof {
        assert(((u & 0b00000000000000000000001100000000u32
            == 0b00000000000000000000001100000000u32 && u
            & 0b11111111111111111111110010010000u32 == 0u32) || (u
            & 0b00000000000000000000001100000000u32
            == 0b00000000000000000000001100000000u32 && u
            & 0b11111111111111111111110010100000u32 == 0u32) || (u
            & 0b00000000000000000000001100000000u32
            == 0b00000000000000000000001100000000u32 && u
            & 0b11111111111111111111110011000000u32 == 0u32) || (u
            & 0b00000000000000000000010010001001u32
            == 0b00000000000000000000010010001001u32 && u
            & 0b11111111111111111111101101110110u32 == 0u32)) == is_zalgo_code(u))
            by (bit_vector);
    }

    case_0 || case_1 || case_2 || case_3
}

} // verus!
