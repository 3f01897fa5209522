use vstd::prelude::*;

verus! {

/// The intensity of a point whose orbit ran `iterations` steps out of a budget
/// of `max_iterations`: the nearest integer to `255 * iterations / max_iterations`,
/// halves rounded up.
pub open spec fn shade(iterations: int, max_iterations: int) -> int {
    (510 * iterations + max_iterations) / (2 * max_iterations)
}

/// Turns an escape count into an intensity byte. A point that used the whole
/// budget is brightest, one that ran no step at all is black.
pub fn intensity(iterations: u32, max_iterations: u32) -> (r: u8)
    requires
        1 <= max_iterations,
        iterations <= max_iterations,
    ensures
        r as int == shade(iterations as int, max_iterations as int),
{
    let it = iterations as u64;
    let max = max_iterations as u64;
    proof {
        assert(510 * it + max <= 511 * max) by (nonlinear_arith)
            requires it <= max;
        assert((510 * it + max) / (2 * max) <= 255) by (nonlinear_arith)
            requires 510 * it + max <= 511 * max, 1 <= max;
    }
    ((510 * it + max) / (2 * max)) as u8
}

/// A point that runs its whole budget gets the brightest intensity, and one
/// that runs no step gets the darkest, whatever the budget.
pub proof fn full_budget_is_brightest(max_iterations: int)
    requires
        1 <= max_iterations,
    ensures
        shade(max_iterations, max_iterations) == 255,
        shade(0, max_iterations) == 0,
{
    assert((510 * max_iterations + max_iterations) / (2 * max_iterations) == 255) by (nonlinear_arith)
        requires 1 <= max_iterations;
    assert(max_iterations / (2 * max_iterations) == 0) by (nonlinear_arith)
        requires 1 <= max_iterations;
}

/// Shading has no hidden state: two results obtained for the same escape
/// count and budget are the same byte.
pub proof fn shading_is_pure(iterations: int, max_iterations: int, first: u8, second: u8)
    requires
        first as int == shade(iterations, max_iterations),
        second as int == shade(iterations, max_iterations),
    ensures
        first == second,
{
}

} // verus!
