//! Overflow-aware arithmetic over signed 64-bit integers.
//!
//! Every operation comes in two flavours: one that returns the wrapped
//! (two's-complement) value together with an overflow flag, and one that
//! returns a `Result`, failing with [`OverflowError`] whenever the exact
//! mathematical result falls outside the `i64` range.

use vstd::prelude::*;
use vstd::arithmetic::div_mod::{
    lemma_mod_add_multiples_vanish, lemma_mod_bound, lemma_small_mod,
};

verus! {

/// The number of distinct `i64` values, 2^64.
pub open spec fn i64_span() -> int {
    0x1_0000_0000_0000_0000
}

/// Whether the mathematical integer `v` is representable as an `i64`.
pub open spec fn fits_i64(v: int) -> bool {
    i64::MIN <= v <= i64::MAX
}

/// The two's-complement wraparound of the mathematical integer `v` into the
/// `i64` range: the unique value congruent to `v` modulo 2^64 that is
/// representable as an `i64`.
pub open spec fn wrap_i64(v: int) -> int {
    let r = v % i64_span();
    if r > i64::MAX {
        r - i64_span()
    } else {
        r
    }
}

/// Wraparound always lands in the representable range, leaves representable
/// values untouched, and differs from the exact value precisely on overflow.
pub proof fn lemma_wrap_i64_properties(v: int)
    ensures
        fits_i64(wrap_i64(v)),
        fits_i64(v) ==> wrap_i64(v) == v,
        wrap_i64(v) == v ==> fits_i64(v),
{
    lemma_mod_bound(v, i64_span());
    if 0 <= v < i64_span() {
        lemma_small_mod(v as nat, i64_span() as nat);
    }
    if -i64_span() <= v < 0 {
        lemma_mod_add_multiples_vanish(v, i64_span());
        lemma_small_mod((v + i64_span()) as nat, i64_span() as nat);
    }
}

/// For `v` within one span of the representable range (as every sum or
/// difference of two `i64` values is), wraparound is a single shift by 2^64.
pub proof fn lemma_wrap_i64_one_step(v: int)
    requires
        -i64_span() <= v < i64_span(),
    ensures
        wrap_i64(v) == if v > i64::MAX {
            v - i64_span()
        } else if v < i64::MIN {
            v + i64_span()
        } else {
            v
        },
{
    if 0 <= v {
        lemma_small_mod(v as nat, i64_span() as nat);
    } else {
        lemma_mod_add_multiples_vanish(v, i64_span());
        lemma_small_mod((v + i64_span()) as nat, i64_span() as nat);
    }
}

/// Adds two 64-bit signed integers.
///
/// Returns the two's-complement wraparound of the exact sum, together with a
/// flag that is true exactly when the exact sum is not representable. When no
/// overflow happens the returned value is the exact sum.
pub fn addi(x: i64, y: i64) -> (r: (i64, bool))
    ensures
        r.0 == wrap_i64(x + y),
        r.1 <==> !fits_i64(x + y),
        fits_i64(x + y) ==> r == (((x + y) as i64, false)),
{
    proof {
        lemma_wrap_i64_one_step(x + y);
    }
    match x.checked_add(y) {
        Some(v) => (v, false),
        None => (x.wrapping_add(y), true),
    }
}

/// Subtracts one 64-bit signed integer from another.
///
/// Returns the two's-complement wraparound of the exact difference, together
/// with a flag that is true exactly when the exact difference is not
/// representable. When no overflow happens the returned value is exact.
pub fn subi(x: i64, y: i64) -> (r: (i64, bool))
    ensures
        r.0 == wrap_i64(x - y),
        r.1 <==> !fits_i64(x - y),
        fits_i64(x - y) ==> r == (((x - y) as i64, false)),
{
    proof {
        lemma_wrap_i64_one_step(x - y);
    }
    match x.checked_sub(y) {
        Some(v) => (v, false),
        None => (x.wrapping_sub(y), true),
    }
}

/// Multiplies two 64-bit signed integers.
///
/// Returns the two's-complement wraparound of the exact product, together
/// with a flag that is true exactly when the exact product is not
/// representable. When no overflow happens the returned value is exact.
pub fn multi(x: i64, y: i64) -> (r: (i64, bool))
    ensures
        r.0 == wrap_i64(x * y),
        r.1 <==> !fits_i64(x * y),
        fits_i64(x * y) ==> r == (((x * y) as i64, false)),
{
    proof {
        lemma_wrap_i64_properties(x * y);
    }
    match x.checked_mul(y) {
        Some(v) => (v, false),
        None => (x.wrapping_mul(y), true),
    }
}

/// The single error kind of the fallible operations: the exact mathematical
/// result of an operation fell outside the representable `i64` range. It
/// carries no value; the wrapped result is deliberately discarded.
#[derive(Clone, Copy, Debug, PartialEq, Eq, Structural)]
pub struct OverflowError;

impl OverflowError {
    /// A descriptive message for callers that report the failure.
    pub fn message(&self) -> (s: String)
        ensures
            s@ == "arithmetic overflow: exact result is out of the i64 range"@,
    {
        "arithmetic overflow: exact result is out of the i64 range".to_owned()
    }
}

/// Adds two 64-bit signed integers, failing fast on overflow.
///
/// Returns the exact sum exactly when it is representable, and
/// [`OverflowError`] otherwise; the wrapped value is discarded.
pub fn addi_res(x: i64, y: i64) -> (r: Result<i64, OverflowError>)
    ensures
        fits_i64(x + y) ==> r == Ok::<i64, OverflowError>((x + y) as i64),
        !fits_i64(x + y) ==> r == Err::<i64, OverflowError>(OverflowError),
{
    let (res, overflow) = addi(x, y);
    if overflow {
        Err(OverflowError)
    } else {
        Ok(res)
    }
}

/// Subtracts one 64-bit signed integer from another, failing fast on
/// overflow.
///
/// Returns the exact difference exactly when it is representable, and
/// [`OverflowError`] otherwise; the wrapped value is discarded.
pub fn subi_res(x: i64, y: i64) -> (r: Result<i64, OverflowError>)
    ensures
        fits_i64(x - y) ==> r == Ok::<i64, OverflowError>((x - y) as i64),
        !fits_i64(x - y) ==> r == Err::<i64, OverflowError>(OverflowError),
{
    let (res, overflow) = subi(x, y);
    if overflow {
        Err(OverflowError)
    } else {
        Ok(res)
    }
}

/// Multiplies two 64-bit signed integers, failing fast on overflow.
///
/// Returns the exact product exactly when it is representable, and
/// [`OverflowError`] otherwise; the wrapped value is discarded.
pub fn multi_res(x: i64, y: i64) -> (r: Result<i64, OverflowError>)
    ensures
        fits_i64(x * y) ==> r == Ok::<i64, OverflowError>((x * y) as i64),
        !fits_i64(x * y) ==> r == Err::<i64, OverflowError>(OverflowError),
{
    let (res, overflow) = multi(x, y);
    if overflow {
        Err(OverflowError)
    } else {
        Ok(res)
    }
}

/// Squares a 64-bit signed integer.
///
/// Returns the value component of [`multi`]`(x, x)`: the two's-complement
/// wraparound of the exact square. Overflow is deliberately not reported
/// here; callers that need the flag call [`multi`] directly.
pub fn square(x: i64) -> (r: i64)
    ensures
        r == wrap_i64(x * x),
{
    let (y, _over) = multi(x, x);
    y
}

/// Squares every element of a vector.
///
/// Returns a fresh vector of the same length where each element is the
/// wrapped square of the element at the same position of the input; the
/// input is left untouched. As with [`square`], overflow is not reported.
#[allow(non_snake_case)]
pub fn squareVec(x: &Vec<i64>) -> (r: Vec<i64>)
    ensures
        r@.len() == x@.len(),
        forall|i: int| 0 <= i < x@.len() ==> r@[i] == wrap_i64(x@[i] * x@[i]),
{
    let mut squares: Vec<i64> = Vec::with_capacity(x.len());
    let mut index: usize = 0;
    while index < x.len()
        invariant
            index <= x@.len(),
            squares@.len() == index,
            forall|i: int| 0 <= i < index ==> squares@[i] == wrap_i64(x@[i] * x@[i]),
        decreases x@.len() - index,
    {
        let s = square(x[index]);
        squares.push(s);
        index += 1;
    }
    squares
}

/// Addition is commutative: both the wrapped value and the overflow flag of
/// [`addi`] are unchanged when the operands are swapped.
pub proof fn lemma_addi_commutes(x: i64, y: i64)
    ensures
        wrap_i64(x + y) == wrap_i64(y + x),
        fits_i64(x + y) <==> fits_i64(y + x),
{
}

/// The value component of [`addi`] agrees with two's-complement wrapping
/// addition as vstd specifies it for `i64::wrapping_add`, whether or not the
/// addition overflows.
pub proof fn lemma_addi_value_is_wrapping_add(x: i64, y: i64)
    ensures
        wrap_i64(x + y) == vstd::wrapping::i64_specs::wrapping_add(x, y),
{
    lemma_wrap_i64_one_step(x + y);
}

} // verus!
