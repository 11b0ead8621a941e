//! Facts about big-endian digit strings.

use crate::mem::bytes_buf::{be_bytes, be_value};
use vstd::prelude::*;

verus! {

/// `256` to the power `width`: the number of values that `width` bytes tell
/// apart.
pub open spec fn pow256(width: nat) -> nat
    decreases width,
{
    if width == 0 {
        1
    } else {
        256 * pow256((width - 1) as nat)
    }
}

/// A digit string has as many digits as were asked for.
pub proof fn lemma_be_bytes_len(value: nat, width: nat)
    ensures
        be_bytes(value, width).len() == width,
    decreases width,
{
    if width > 0 {
        lemma_be_bytes_len(value / 256, (width - 1) as nat);
    }
}

/// The value of a digit string is below `256` to the number of digits.
pub proof fn lemma_be_value_bound(digits: Seq<u8>)
    ensures
        be_value(digits) < pow256(digits.len()),
    decreases digits.len(),
{
    if digits.len() > 0 {
        lemma_be_value_bound(digits.drop_last());
        let high = be_value(digits.drop_last());
        let rest = pow256((digits.len() - 1) as nat);
        assert(high + 1 <= rest);
        assert(high * 256 + 256 <= rest * 256) by (nonlinear_arith)
            requires
                high + 1 <= rest,
        ;
    }
}

/// Writing out the value of a digit string gives the string back.
pub proof fn lemma_be_bytes_of_value(digits: Seq<u8>)
    ensures
        be_bytes(be_value(digits), digits.len()) == digits,
    decreases digits.len(),
{
    if digits.len() > 0 {
        let high = be_value(digits.drop_last());
        let low = digits.last() as nat;
        lemma_be_bytes_of_value(digits.drop_last());
        assert((high * 256 + low) / 256 == high && (high * 256 + low) % 256 == low)
            by (nonlinear_arith)
            requires
                low < 256,
        ;
        assert(be_bytes(be_value(digits), digits.len()) =~= digits);
    } else {
        assert(be_bytes(be_value(digits), digits.len()) =~= digits);
    }
}

/// Reading a written value gives it back, as long as it fits the width.
pub proof fn lemma_be_value_of_bytes(value: nat, width: nat)
    requires
        value < pow256(width),
    ensures
        be_value(be_bytes(value, width)) == value,
    decreases width,
{
    if width > 0 {
        let rest = pow256((width - 1) as nat);
        assert(value / 256 < rest) by (nonlinear_arith)
            requires
                value < 256 * rest,
        ;
        lemma_be_value_of_bytes(value / 256, (width - 1) as nat);
        lemma_be_bytes_len(value / 256, (width - 1) as nat);
        let digits = be_bytes(value, width);
        assert(digits.drop_last() =~= be_bytes(value / 256, (width - 1) as nat));
        assert(digits.last() == (value % 256) as u8);
        assert((value / 256) * 256 + value % 256 == value) by (nonlinear_arith);
    }
}

/// The powers of `256` grow with the width.
pub proof fn lemma_pow256_grows(small: nat, large: nat)
    requires
        small <= large,
    ensures
        pow256(small) <= pow256(large),
        pow256(small) >= 1,
    decreases large,
{
    if small < large {
        lemma_pow256_grows(small, (large - 1) as nat);
    } else if small > 0 {
        lemma_pow256_grows((small - 1) as nat, (small - 1) as nat);
    }
}

} // verus!
