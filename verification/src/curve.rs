//! The constant-product pricing rule in fixed-point integer arithmetic.

use vstd::prelude::*;
use crate::error::SwapError;

verus! {

/// Fixed-point factor by which the reserves are scaled before the division, so
/// that the truncation error stays below one hundred-millionth of a unit.
pub const SCALE: u64 = 100_000_000;

/// Whether the pricing formula can be evaluated on 64-bit unsigned integers:
/// no product and no sum leaves the range, and the divisor is not zero.
pub open spec fn quote_defined(source: int, destination: int, amount: int) -> bool {
    &&& destination * SCALE <= u64::MAX
    &&& source * destination * SCALE <= u64::MAX
    &&& 0 < source + amount <= u64::MAX
}

/// The counter-amount before it is scaled down:
/// `destination * SCALE - (source * destination * SCALE) / (source + amount)`.
pub open spec fn scaled_counter_amount(source: int, destination: int, amount: int) -> int {
    destination * SCALE - (source * destination * SCALE) / (source + amount)
}

/// What a trade of `amount` into the `source` reserve takes out of the
/// `destination` reserve.
pub open spec fn counter_amount(source: int, destination: int, amount: int) -> int {
    scaled_counter_amount(source, destination, amount) / (SCALE as int)
}

/// The quotient of the formula never exceeds the scaled destination reserve,
/// so the subtraction cannot go below zero, and the counter-amount never
/// exceeds the destination reserve.
pub proof fn lemma_counter_amount_bounds(source: int, destination: int, amount: int)
    requires
        0 <= source,
        0 <= destination,
        0 <= amount,
        0 < source + amount,
    ensures
        0 <= (source * destination * SCALE) / (source + amount) <= destination * SCALE,
        0 <= scaled_counter_amount(source, destination, amount) <= destination * SCALE,
        0 <= counter_amount(source, destination, amount) <= destination,
{
    let n = source * destination * SCALE;
    let d = source + amount;
    let q = n / d;
    let s = destination * SCALE;
    assert(0 <= s) by (nonlinear_arith)
        requires
            0 <= destination,
            s == destination * SCALE,
    ;
    assert(n == source * s) by (nonlinear_arith)
        requires
            n == source * destination * SCALE,
            s == destination * SCALE,
    ;
    assert(0 <= n <= d * s) by (nonlinear_arith)
        requires
            n == source * s,
            d == source + amount,
            0 <= source,
            0 <= amount,
            0 <= s,
    ;
    assert(0 <= q <= s) by (nonlinear_arith)
        requires
            q == n / d,
            0 < d,
            0 <= n <= d * s,
    ;
    let dy = s - q;
    assert(dy == scaled_counter_amount(source, destination, amount));
    assert(0 <= dy / (SCALE as int) <= destination) by (nonlinear_arith)
        requires
            0 <= dy <= destination * SCALE,
            SCALE == 100_000_000,
    ;
}

/// The quotient of a division brackets the dividend.
proof fn lemma_quotient_brackets(n: int, d: int)
    requires
        0 <= n,
        0 < d,
    ensures
        (n / d) * d <= n < (n / d) * d + d,
{
    vstd::arithmetic::div_mod::lemma_fundamental_div_mod(n, d);
    vstd::arithmetic::div_mod::lemma_mod_pos_bound(n, d);
    assert((n / d) * d == d * (n / d)) by (nonlinear_arith);
}

/// The product of the reserves is preserved up to rounding: a trade lowers it
/// by less than one `SCALE`-th of the new source reserve, and raises it by
/// less than the new source reserve.
pub proof fn lemma_product_preserved(source: int, destination: int, amount: int)
    requires
        0 <= source,
        0 <= destination,
        0 <= amount,
        0 < source + amount,
    ensures
        ({
            let out = counter_amount(source, destination, amount);
            let before = source * destination;
            let after = (source + amount) * (destination - out);
            &&& SCALE * (before - after) < source + amount
            &&& after - before < source + amount
        }),
{
    let scale = SCALE as int;
    let d = source + amount;
    let s = destination * scale;
    let n = source * destination * scale;
    let q = n / d;
    let dy = s - q;
    let out = dy / scale;
    assert(out == counter_amount(source, destination, amount));
    assert(0 <= n) by (nonlinear_arith)
        requires
            n == source * destination * scale,
            0 <= source,
            0 <= destination,
            0 < scale,
    ;
    lemma_quotient_brackets(n, d);
    lemma_counter_amount_bounds(source, destination, amount);
    let before = source * destination;
    let after = d * (destination - out);
    // the scaled counter-amount, times the divisor, brackets the exact share
    assert(d * dy == amount * s + (n - q * d)) by (nonlinear_arith)
        requires
            d == source + amount,
            s == destination * scale,
            n == source * destination * scale,
            dy == s - q,
    ;
    assert(before - after == d * out - amount * destination) by (nonlinear_arith)
        requires
            before == source * destination,
            after == d * (destination - out),
            d == source + amount,
    ;
    assert(scale * (d * out - amount * destination) == d * (out * scale) - amount * s)
        by (nonlinear_arith)
        requires
            s == destination * scale,
    ;
    assert(d * (out * scale) <= d * dy && d * dy < d * (out * scale) + d * scale)
        by (nonlinear_arith)
        requires
            0 < d,
            out * scale <= dy < out * scale + scale,
    ;
    assert(scale * (before - after) < d);
    assert(scale * (after - before) < scale * d) by (nonlinear_arith)
        requires
            scale * (before - after) == d * (out * scale) - amount * s,
            d * dy < d * (out * scale) + d * scale,
            d * dy >= amount * s,
    ;
}

/// A trade, then the opposite trade of what the first one paid out. The
/// second trade pays `back` out of the reserve that took `amount` in, so that
/// reserve ends at `source + amount - back`. Let `gain` be what the first
/// trade added to the product of the reserves. The reserve ends at or below
/// where it began exactly when `SCALE * gain < destination`, and at or above
/// where it began exactly when `SCALE * -gain <= (SCALE - 1) * destination`.
pub proof fn lemma_round_trip(source: int, destination: int, amount: int)
    requires
        0 <= source,
        0 < destination,
        0 <= amount,
        0 < source + amount,
    ensures
        ({
            let out = counter_amount(source, destination, amount);
            let back = counter_amount(destination - out, source + amount, out);
            let gain = destination * amount - (source + amount) * out;
            &&& 0 <= out <= destination
            &&& (source + amount - back <= source) <==> SCALE * gain < destination
            &&& (source + amount - back >= source) <==> SCALE * (-gain) <= (SCALE - 1)
                * destination
        }),
{
    let scale = SCALE as int;
    let out = counter_amount(source, destination, amount);
    lemma_counter_amount_bounds(source, destination, amount);
    let a1 = source + amount;
    let b1 = destination - out;
    let s = a1 * scale;
    let n = b1 * a1 * scale;
    let d = b1 + out;
    assert(d == destination);
    let q = n / d;
    let dx = s - q;
    let back = dx / scale;
    assert(back == counter_amount(b1, a1, out));
    assert(0 <= n) by (nonlinear_arith)
        requires
            n == b1 * a1 * scale,
            0 <= b1,
            0 <= a1,
            0 < scale,
    ;
    lemma_quotient_brackets(n, d);
    lemma_counter_amount_bounds(b1, a1, out);
    let gain = destination * amount - a1 * out;
    // how far the dividend lies from the multiple of the divisor that would
    // return exactly `amount`
    assert(n == source * scale * d + scale * gain) by (nonlinear_arith)
        requires
            n == b1 * a1 * scale,
            b1 == destination - out,
            a1 == source + amount,
            d == destination,
            gain == destination * amount - a1 * out,
    ;
    assert(s == source * scale + amount * scale) by (nonlinear_arith)
        requires
            s == a1 * scale,
            a1 == source + amount,
    ;
    // back >= amount  <==>  q <= source * scale
    assert((back >= amount) <==> (q <= source * scale));
    assert((q <= source * scale) <==> (n < source * scale * d + d)) by (nonlinear_arith)
        requires
            0 < d,
            q * d <= n < q * d + d,
    ;
    // back <= amount  <==>  q > source * scale - scale
    assert((back <= amount) <==> (q > source * scale - scale));
    assert((q > source * scale - scale) <==> (n >= (source * scale - scale + 1) * d))
        by (nonlinear_arith)
        requires
            0 < d,
            q * d <= n < q * d + d,
    ;
    assert((source * scale - scale + 1) * d == source * scale * d - (scale - 1) * d)
        by (nonlinear_arith);
}

/// Computes the counter-amount of a trade on the reserve balances as they
/// stand before the trade, with every product and sum checked.
pub fn quote(source: u64, destination: u64, amount: u64) -> (result: Result<u64, SwapError>)
    ensures
        quote_defined(source as int, destination as int, amount as int) ==> result == Ok::<
            u64,
            SwapError,
        >(counter_amount(source as int, destination as int, amount as int) as u64),
        !quote_defined(source as int, destination as int, amount as int) ==> result == Err::<
            u64,
            SwapError,
        >(SwapError::ArithmeticOverflow),
        source * destination * SCALE > u64::MAX ==> result == Err::<u64, SwapError>(
            SwapError::ArithmeticOverflow,
        ),
        result matches Ok(out) ==> out <= destination,
{
    let scaled: u64 = match destination.checked_mul(SCALE) {
        Some(v) => v,
        None => { return Err(SwapError::ArithmeticOverflow); },
    };
    let product: u64 = match source.checked_mul(destination) {
        Some(v) => v,
        None => {
            proof {
                assert(source * destination * SCALE > u64::MAX) by (nonlinear_arith)
                    requires
                        source * destination > u64::MAX,
                        SCALE == 100_000_000,
                ;
            }
            return Err(SwapError::ArithmeticOverflow);
        },
    };
    let numerator: u64 = match product.checked_mul(SCALE) {
        Some(v) => v,
        None => { return Err(SwapError::ArithmeticOverflow); },
    };
    let divisor: u64 = match source.checked_add(amount) {
        Some(v) => v,
        None => { return Err(SwapError::ArithmeticOverflow); },
    };
    if divisor == 0 {
        return Err(SwapError::ArithmeticOverflow);
    }
    proof {
        lemma_counter_amount_bounds(source as int, destination as int, amount as int);
    }
    let quotient: u64 = numerator / divisor;
    let scaled_out: u64 = scaled - quotient;
    Ok(scaled_out / SCALE)
}

} // verus!
