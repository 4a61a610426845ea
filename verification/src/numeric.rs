//! Decimal rendering of the integers the SQL layer binds: row identifiers
//! and placeholder positions.

use vstd::prelude::*;

use crate::text::push_char;

verus! {

/// The ASCII digit for a value between 0 and 9.
pub open spec fn digit_char(d: int) -> char {
    ((48 + d) as u8) as char
}

/// The decimal spelling of a nonnegative integer, most significant digit
/// first, with no leading zeros except for zero itself.
pub open spec fn spec_nat_decimal(n: int) -> Seq<char>
    decreases n,
{
    if n < 10 {
        seq![digit_char(if n < 0 {
            0
        } else {
            n
        })]
    } else {
        spec_nat_decimal(n / 10).push(digit_char(n % 10))
    }
}

/// The decimal spelling of a signed integer: a `-` before the digits when
/// it is negative.
pub open spec fn spec_i32_decimal(n: int) -> Seq<char> {
    if n < 0 {
        seq!['-'] + spec_nat_decimal(-n)
    } else {
        spec_nat_decimal(n)
    }
}

proof fn lemma_reverse_push(s: Seq<char>, c: char)
    ensures
        s.push(c).reverse() =~= seq![c] + s.reverse(),
{
}

/// Append the decimal spelling of `n` to `out`.
fn append_u64_decimal(out: &mut String, n: u64)
    ensures
        final(out)@ == old(out)@ + spec_nat_decimal(n as int),
{
    let mut digits: Vec<char> = Vec::new();
    let mut m: u64 = n;
    let mut done: bool = false;
    while !done
        invariant
            !done ==> spec_nat_decimal(n as int) == spec_nat_decimal(m as int)
                + digits@.reverse(),
            done ==> m == 0 && spec_nat_decimal(n as int) == digits@.reverse(),
            done ==> digits@.len() > 0,
        decreases m, (if done {
            0int
        } else {
            1int
        }),
    {
        let ghost old_digits = digits@;
        let d = (m % 10) as u8;
        digits.push((48 + d) as char);
        proof {
            lemma_reverse_push(old_digits, ((48 + d as int) as u8) as char);
        }
        if m < 10 {
            done = true;
            proof {
                assert(spec_nat_decimal(m as int) == seq![digit_char(m as int)]);
                assert(seq![digit_char(m as int)] + old_digits.reverse() =~= digits@.reverse());
            }
        } else {
            proof {
                assert(spec_nat_decimal(m as int) == spec_nat_decimal(m as int / 10).push(
                    digit_char(m as int % 10),
                ));
                assert(spec_nat_decimal(m as int / 10) + (seq![digit_char(m as int % 10)]
                    + old_digits.reverse()) =~= spec_nat_decimal(m as int) + old_digits.reverse());
            }
        }
        m = m / 10;
    }
    let ghost before = out@;
    let mut j: usize = digits.len();
    while j > 0
        invariant
            j <= digits@.len(),
            out@ == before + digits@.reverse().take((digits@.len() - j) as int),
        decreases j,
    {
        j = j - 1;
        push_char(out, digits[j]);
        proof {
            let k = (digits@.len() - j - 1) as int;
            assert(digits@.reverse()[k] == digits@[j as int]);
            assert(digits@.reverse().take(k + 1) =~= digits@.reverse().take(k).push(
                digits@.reverse()[k],
            ));
        }
    }
    proof {
        assert(digits@.reverse().take(digits@.len() as int) =~= digits@.reverse());
    }
}

/// The decimal spelling of an unsigned 64-bit integer.
pub fn u64_to_decimal(n: u64) -> (r: String)
    ensures
        r@ == spec_nat_decimal(n as int),
{
    let mut out = String::new();
    append_u64_decimal(&mut out, n);
    proof {
        assert(Seq::<char>::empty() + spec_nat_decimal(n as int) =~= spec_nat_decimal(n as int));
    }
    out
}

/// The decimal spelling of a signed 32-bit row identifier.
pub fn i32_to_decimal(n: i32) -> (r: String)
    ensures
        r@ == spec_i32_decimal(n as int),
{
    if n < 0 {
        let mut out = String::new();
        push_char(&mut out, '-');
        let magnitude = (-(n as i64)) as u64;
        append_u64_decimal(&mut out, magnitude);
        proof {
            assert(Seq::<char>::empty().push('-') =~= seq!['-']);
        }
        out
    } else {
        u64_to_decimal(n as u64)
    }
}

} // verus!
