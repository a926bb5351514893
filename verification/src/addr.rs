//! Breakpoint address expressions.
//!
//! The operator writes a breakpoint address as a hexadecimal token of the
//! form `0x` followed by one to sixteen hex digits. [`get_break_addr`]
//! turns the tokenized `break` command into the address value, and is
//! proved to return exactly the value of [`spec_get_break_addr`].

use vstd::prelude::*;
use vstd::arithmetic::power2::{pow2, lemma_pow2_adds, lemma_pow2_strictly_increases, lemma2_to64};
use vstd::string::StrSliceExecFns;

verus! {

/// `c` is an ASCII hexadecimal digit (code points of `0-9`, `a-f`, `A-F`).
pub open spec fn spec_hex_digit(c: char) -> bool {
    (48 <= c as u32 <= 57) || (97 <= c as u32 <= 102) || (65 <= c as u32 <= 70)
}

/// Numeric value of a hexadecimal digit.
pub open spec fn spec_hex_val(c: char) -> u64 {
    if 48 <= c as u32 <= 57 {
        (c as u32 - 48) as u64
    } else if 97 <= c as u32 <= 102 {
        (c as u32 - 87) as u64
    } else {
        (c as u32 - 55) as u64
    }
}

/// Value of a sequence of hexadecimal digits, most significant first.
pub open spec fn spec_hex_value(s: Seq<char>) -> nat
    decreases s.len(),
{
    if s.len() == 0 {
        0
    } else {
        (spec_hex_value(s.drop_last()) * 16 + spec_hex_val(s.last())) as nat
    }
}

/// The address denoted by one token: `0x` followed by one to sixteen hex
/// digits. Anything else denotes no address.
pub open spec fn spec_hex_token(t: Seq<char>) -> Option<u64> {
    if 3 <= t.len() <= 18 && t[0] == '0' && t[1] == 'x' && (forall|i: int|
        2 <= i < t.len() ==> spec_hex_digit(#[trigger] t[i])) {
        Some(spec_hex_value(t.subrange(2, t.len() as int)) as u64)
    } else {
        None
    }
}

/// The address requested by a tokenized `break` command: the second token,
/// read as a hexadecimal address expression.
pub open spec fn spec_get_break_addr(cmd: Seq<Seq<char>>) -> Option<u64> {
    if cmd.len() < 2 {
        None
    } else {
        spec_hex_token(cmd[1])
    }
}

/// Numeric value of one hexadecimal digit character, or `None` where the
/// character is no hex digit.
fn hex_digit_val(c: char) -> (r: Option<u64>)
    ensures
        match r {
            Some(v) => spec_hex_digit(c) && v == spec_hex_val(c),
            None => !spec_hex_digit(c),
        },
{
    let u = c as u32;
    if 48 <= u && u <= 57 {
        Some((u - 48) as u64)
    } else if 97 <= u && u <= 102 {
        Some((u - 87) as u64)
    } else if 65 <= u && u <= 70 {
        Some((u - 55) as u64)
    } else {
        None
    }
}

/// Converts the operator-supplied token of a `break` command into a target
/// address value: `0x` followed by one to sixteen hexadecimal digits.
pub fn get_break_addr(cmd: &Vec<String>) -> (r: Option<u64>)
    ensures
        r == spec_get_break_addr(cmd.deep_view()),
{
    if cmd.len() < 2 {
        return None;
    }
    let t: &str = cmd[1].as_str();
    let n = t.unicode_len();
    assert(cmd.deep_view()[1] == t@);
    if n < 3 || n > 18 {
        return None;
    }
    if t.get_char(0) != '0' || t.get_char(1) != 'x' {
        return None;
    }
    let ghost digits = t@.subrange(2, t@.len() as int);
    let mut value: u64 = 0;
    let mut i: usize = 2;
    proof {
        lemma2_to64();
    }
    while i < n
        invariant
            2 <= i <= n,
            n == t@.len(),
            3 <= n <= 18,
            cmd.deep_view().len() >= 2,
            cmd.deep_view()[1] == t@,
            t@[0] == '0',
            t@[1] == 'x',
            digits == t@.subrange(2, t@.len() as int),
            forall|k: int| 2 <= k < i ==> spec_hex_digit(#[trigger] t@[k]),
            value as nat == spec_hex_value(t@.subrange(2, i as int)),
            (value as nat) < pow2(4 * (i - 2) as nat),
        decreases n - i,
    {
        let c = t.get_char(i);
        match hex_digit_val(c) {
            Some(d) => {
                proof {
                    lemma_pow2_adds(4 * (i - 2) as nat, 4);
                    lemma2_to64();
                    vstd::arithmetic::power2::lemma2_to64_rest();
                    if 4 * (i - 2) < 60 {
                        lemma_pow2_strictly_increases(4 * (i - 2) as nat, 60);
                    }
                    assert((value as nat) < pow2(60));
                    assert(value <= 0xfff_ffff_ffff_ffffu64);
                    assert(value * 16 < pow2(4 * (i - 2) as nat) * 16) by (nonlinear_arith)
                        requires
                            (value as nat) < pow2(4 * (i - 2) as nat),
                            pow2(4 * (i - 2) as nat) > 0,
                    ;
                    assert(t@.subrange(2, i + 1 as int).drop_last() =~= t@.subrange(2, i as int));
                }
                value = value * 16 + d;
                i = i + 1;
            },
            None => {
                return None;
            },
        }
    }
    proof {
        assert(t@.subrange(2, i as int) =~= digits);
    }
    Some(value)
}

} // verus!
