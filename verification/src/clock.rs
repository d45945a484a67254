//! Selection of the baud-rate prescaler from the bus clock and the requested bit rate.

use vstd::prelude::*;
use vstd::arithmetic::div_mod::lemma_fundamental_div_mod;

verus! {

/// A frequency in hertz.
#[derive(Clone, Copy, Debug, PartialEq, Eq, Structural)]
pub struct Hertz(pub u32);

/// The prescaler code that the breakpoint table assigns to a clock ratio.
///
/// The ratio is the bus clock divided by the requested bit rate, rounded down.
/// A ratio of zero has no code.
pub open spec fn prescaler_code_for_ratio(ratio: int) -> Option<u8> {
    if ratio <= 0 {
        None
    } else if ratio <= 2 {
        Some(0u8)
    } else if ratio <= 5 {
        Some(1u8)
    } else if ratio <= 11 {
        Some(2u8)
    } else if ratio <= 23 {
        Some(3u8)
    } else if ratio <= 47 {
        Some(4u8)
    } else if ratio <= 95 {
        Some(5u8)
    } else if ratio <= 191 {
        Some(6u8)
    } else {
        Some(7u8)
    }
}

/// Chooses the three-bit prescaler code for a bus clock and a requested bit rate.
///
/// A requested rate of zero, or one above the bus clock, is rejected with `None`.
pub fn prescaler_code(f_bus: u32, f_req: u32) -> (code: Option<u8>)
    ensures
        f_req == 0 ==> code.is_none(),
        f_req != 0 ==> code == prescaler_code_for_ratio(f_bus as int / f_req as int),
{
    if f_req == 0 {
        return None;
    }
    let ratio: u32 = f_bus / f_req;
    if ratio == 0 {
        None
    } else if ratio <= 2 {
        Some(0)
    } else if ratio <= 5 {
        Some(1)
    } else if ratio <= 11 {
        Some(2)
    } else if ratio <= 23 {
        Some(3)
    } else if ratio <= 47 {
        Some(4)
    } else if ratio <= 95 {
        Some(5)
    } else if ratio <= 191 {
        Some(6)
    } else {
        Some(7)
    }
}

/// The number by which a prescaler code divides the bus clock: two to the
/// power of one more than the code.
pub open spec fn divisor_of(code: u8) -> int {
    if code == 0 {
        2
    } else if code == 1 {
        4
    } else if code == 2 {
        8
    } else if code == 3 {
        16
    } else if code == 4 {
        32
    } else if code == 5 {
        64
    } else if code == 6 {
        128
    } else {
        256
    }
}

/// Whether the peripheral can divide the bus clock by `d`.
pub open spec fn is_divisor(d: int) -> bool {
    d == 2 || d == 4 || d == 8 || d == 16 || d == 32 || d == 64 || d == 128 || d == 256
}

/// The number by which a prescaler code divides the bus clock.
pub fn prescaler_divisor(code: u8) -> (d: u32)
    requires
        code < 8,
    ensures
        d == divisor_of(code),
        is_divisor(d as int),
{
    if code == 0 {
        2
    } else if code == 1 {
        4
    } else if code == 2 {
        8
    } else if code == 3 {
        16
    } else if code == 4 {
        32
    } else if code == 5 {
        64
    } else if code == 6 {
        128
    } else {
        256
    }
}

/// Every ratio of at least one has a code, and the code has three bits.
pub proof fn lemma_code_in_range(ratio: int)
    requires
        ratio >= 1,
    ensures
        prescaler_code_for_ratio(ratio).is_some(),
        prescaler_code_for_ratio(ratio).unwrap() < 8,
        is_divisor(divisor_of(prescaler_code_for_ratio(ratio).unwrap())),
{
}

/// A larger ratio never gets a smaller divisor.
pub proof fn lemma_code_monotonic(a: int, b: int)
    requires
        1 <= a <= b,
    ensures
        prescaler_code_for_ratio(a).unwrap() <= prescaler_code_for_ratio(b).unwrap(),
{
}

/// Where the ratio does not exceed the divisor selected for it, that divisor is
/// the smallest one the peripheral has that is not less than the ratio.
///
/// The ratios left out are those past the upper half of a breakpoint range, such
/// as 5, for which the table still divides by 4, and those above 256.
pub proof fn lemma_smallest_divisor(ratio: int)
    requires
        ratio >= 1,
        ratio <= divisor_of(prescaler_code_for_ratio(ratio).unwrap()),
    ensures
        is_divisor(divisor_of(prescaler_code_for_ratio(ratio).unwrap())),
        forall|d: int|
            is_divisor(d) && d >= ratio ==> divisor_of(prescaler_code_for_ratio(ratio).unwrap())
                <= d,
{
}

/// The selected divisor keeps the clock at or below the requested rate exactly
/// when the ratio is below the divisor, or equals it with nothing left over.
pub proof fn lemma_clock_within_request(f_bus: u32, f_req: u32)
    requires
        f_req > 0,
        f_bus as int / f_req as int >= 1,
    ensures
        ({
            let ratio = f_bus as int / f_req as int;
            let d = divisor_of(prescaler_code_for_ratio(ratio).unwrap());
            &&& f_bus <= d * f_req <==> ratio < d || (ratio == d && f_bus as int % f_req as int
                == 0)
            &&& f_bus <= d * f_req ==> f_bus as int / d <= f_req
        }),
{
    let ratio = f_bus as int / f_req as int;
    let rest = f_bus as int % f_req as int;
    let d = divisor_of(prescaler_code_for_ratio(ratio).unwrap());
    lemma_fundamental_div_mod(f_bus as int, f_req as int);
    assert(f_bus == f_req * ratio + rest);
    assert(0 <= rest < f_req);
    if ratio < d {
        assert(f_req * ratio + f_req <= d * f_req) by (nonlinear_arith)
            requires
                ratio + 1 <= d,
                f_req > 0,
        ;
    } else if ratio == d {
        assert(f_req * ratio == d * f_req) by (nonlinear_arith)
            requires
                ratio == d,
        ;
    } else {
        assert(f_req * ratio >= d * f_req + f_req) by (nonlinear_arith)
            requires
                ratio >= d + 1,
                f_req > 0,
        ;
    }
    if f_bus <= d * f_req {
        assert(f_bus as int / d <= f_req) by (nonlinear_arith)
            requires
                f_bus <= d * f_req,
                d > 0,
                f_req > 0,
        ;
    }
}

/// Where the ratio is below the selected divisor, or equals it with nothing left
/// over, the selected divisor is the smallest one the peripheral has that is not
/// less than the ratio, and the clock it gives does not exceed the requested rate.
pub proof fn lemma_prescaler_selection(f_bus: u32, f_req: u32)
    requires
        f_req > 0,
        f_bus as int / f_req as int >= 1,
        ({
            let ratio = f_bus as int / f_req as int;
            let d = divisor_of(prescaler_code_for_ratio(ratio).unwrap());
            ratio < d || (ratio == d && f_bus as int % f_req as int == 0)
        }),
    ensures
        ({
            let ratio = f_bus as int / f_req as int;
            let d = divisor_of(prescaler_code_for_ratio(ratio).unwrap());
            &&& is_divisor(d)
            &&& d >= ratio
            &&& forall|e: int| is_divisor(e) && e >= ratio ==> d <= e
            &&& f_bus <= d * f_req
            &&& f_bus as int / d <= f_req
        }),
{
    lemma_smallest_divisor(f_bus as int / f_req as int);
    lemma_clock_within_request(f_bus, f_req);
}

} // verus!
