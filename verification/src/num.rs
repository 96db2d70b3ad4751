//! Small functions on integers.

use vstd::prelude::*;

verus! {

/// Whether `x` is a power of two.
pub open spec fn power_of_two(x: nat) -> bool
    decreases x,
{
    x == 1 || (x > 1 && x % 2 == 0 && power_of_two(x / 2))
}

/// Returns whether `x` is a power of two.
pub fn is_power_of_two(x: u64) -> (result: bool)
    ensures
        result == power_of_two(x as nat),
{
    let mut rest: u64 = x;
    while rest > 1 && rest % 2 == 0
        invariant
            power_of_two(rest as nat) == power_of_two(x as nat),
        decreases rest,
    {
        rest = rest / 2;
    }
    rest == 1
}

/// The lowest multiple of `align` that is not below `x`.
pub open spec fn spec_align_up(x: int, align: int) -> int {
    x + (align - x % align) % align
}

/// Returns the lowest multiple of `align` that is not below `x`, or `None` if it is no `u64`.
pub fn align_up(x: u64, align: u64) -> (result: Option<u64>)
    requires
        align > 0,
    ensures
        match result {
            Some(aligned) => aligned == spec_align_up(x as int, align as int),
            None => spec_align_up(x as int, align as int) > u64::MAX,
        },
        spec_align_up(x as int, align as int) % align as int == 0,
        x <= spec_align_up(x as int, align as int) < x + align,
{
    proof {
        lemma_align_up(x as int, align as int);
    }
    let rem: u64 = x % align;
    if rem == 0 {
        assert((align - 0) % align as int == 0) by {
            vstd::arithmetic::div_mod::lemma_mod_self_0(align as int);
        }
        Some(x)
    } else {
        assert((align - rem) % align as int == align - rem) by {
            vstd::arithmetic::div_mod::lemma_small_mod((align - rem) as nat, align as nat);
        }
        x.checked_add(align - rem)
    }
}

/// The lowest multiple that is not below a number is a multiple, and less than one step above it.
pub proof fn lemma_align_up(x: int, align: int)
    requires
        align > 0,
    ensures
        spec_align_up(x, align) % align == 0,
        x <= spec_align_up(x, align) < x + align,
{
    let rem = x % align;
    vstd::arithmetic::div_mod::lemma_fundamental_div_mod(x, align);
    let q = x / align;
    assert(align * q == q * align) by (nonlinear_arith);
    if rem == 0 {
        vstd::arithmetic::div_mod::lemma_mod_self_0(align);
    } else {
        vstd::arithmetic::div_mod::lemma_small_mod((align - rem) as nat, align as nat);
        assert(x + (align - rem) == (q + 1) * align) by (nonlinear_arith)
            requires
                x == q * align + rem,
        ;
        vstd::arithmetic::div_mod::lemma_mod_multiples_basic(q + 1, align);
    }
}

/// Whether a number is a multiple of another one. The only multiple of zero is zero.
pub open spec fn multiple_of(x: int, factor: int) -> bool {
    if factor == 0 {
        x == 0
    } else {
        x % factor == 0
    }
}

/// Returns whether a number is a multiple of another one.
pub fn is_multiple_of(x: u64, factor: u64) -> (multiple: bool)
    ensures
        multiple == multiple_of(x as int, factor as int),
{
    if factor == 0 {
        x == 0
    } else {
        x % factor == 0
    }
}

/// Returns the larger of two numbers.
pub fn max_u64(a: u64, b: u64) -> (max: u64)
    ensures
        max == if a >= b {
            a
        } else {
            b
        },
{
    if a >= b {
        a
    } else {
        b
    }
}

/// The powers of two are one and the doubles of powers of two. No odd number but one is among them,
/// and zero is not.
pub proof fn law_powers_of_two(x: nat)
    ensures
        power_of_two(1),
        !power_of_two(0),
        x > 0 ==> (power_of_two(2 * x) <==> power_of_two(x)),
        x % 2 == 1 && x != 1 ==> !power_of_two(x),
{
    assert((2 * x) / 2 == x);
}

/// A number is a multiple of another where it is that many times it.
pub proof fn law_multiple(count: int, factor: int, rest: int)
    requires
        0 < rest < factor,
    ensures
        multiple_of(count * factor, factor),
        !multiple_of(count * factor + rest, factor),
        multiple_of(0, 0),
        !multiple_of(factor, 0),
{
    vstd::arithmetic::div_mod::lemma_mod_multiples_basic(count, factor);
    vstd::arithmetic::div_mod::lemma_mod_multiples_vanish(count, rest, factor);
    vstd::arithmetic::div_mod::lemma_small_mod(rest as nat, factor as nat);
    assert(factor * count == count * factor) by (nonlinear_arith);
}

/// Aligning up leaves an aligned number alone and depends on nothing but where the number is between
/// two multiples.
pub proof fn law_align_up(x: int, y: int, align: int)
    requires
        align > 0,
        y % align == 0,
        x <= y < x + align,
    ensures
        spec_align_up(x, align) == y,
{
    lemma_align_up(x, align);
    let a = spec_align_up(x, align);
    if a != y {
        let d = a - y;
        vstd::arithmetic::div_mod::lemma_sub_mod_noop(a, y, align);
        vstd::arithmetic::div_mod::lemma_sub_mod_noop(y, a, align);
        if d > 0 {
            vstd::arithmetic::div_mod::lemma_small_mod(d as nat, align as nat);
        } else {
            vstd::arithmetic::div_mod::lemma_small_mod((y - a) as nat, align as nat);
        }
    }
}

} // verus!
