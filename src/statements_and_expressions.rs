use vstd::prelude::*;

verus! {

/// Evaluates a block expression whose last expression (without a semicolon) is its value.
pub fn statements_and_expressions() -> (z: i32)
    ensures
        z == 2,
{
    let x: i32 = 1;
    let y = {};
    let z: i32 = {
        let x: i32 = 1;
        x + 1
    };
    z
}

/// A function whose body is a single tail expression.
pub fn five() -> (r: i32)
    ensures
        r == 5,
{
    5
}

/// The successor of `x`; `x` must not be the largest `i32`.
pub fn plus_one(x: i32) -> (r: i32)
    requires
        x < i32::MAX,
    ensures
        r == x + 1,
{
    x + 1
}

} // verus!
