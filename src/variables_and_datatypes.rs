use vstd::prelude::*;

verus! {

/// A constant, computed when the program is compiled.
pub const PRODUCT: u32 = 1 * 2 * 3;

/// The values that the variables walk-through ends with.
pub struct Variables {
    /// A mutable binding after it was reassigned and incremented.
    pub mutated: i32,
    /// A name shadowed by a binding of another type: the length of a string of spaces.
    pub spaces: usize,
    /// The compile-time constant.
    pub product: u32,
}

/// The values that the scalar and compound types walk-through ends with.
pub struct DataTypes {
    pub wrapped: u8,
    pub overflowed: (u8, bool),
    pub checked: Option<u8>,
    pub saturated: u8,
    pub remainder: i32,
    pub tuple_first: i32,
    pub tuple_last: u8,
    pub first: i32,
    pub fourth: i32,
    pub repeated: [i32; 5],
}

/// Relies on `u8::overflowing_add`: the sum modulo 256, and whether the
/// mathematical sum exceeded `u8::MAX`.
#[verifier::external_body]
fn overflowing_add_u8(a: u8, b: u8) -> (r: (u8, bool))
    ensures
        r.0 == (a + b) % 256,
        r.1 == (a + b > u8::MAX),
{
    a.overflowing_add(b)
}

/// The values that the variables walk-through must yield.
pub open spec fn is_variables_tour(r: &Variables) -> bool {
    &&& r.mutated == 8
    &&& r.spaces == 3
    &&& r.product == 6
}

/// Mutable bindings, shadowing, and a constant.
pub fn variables() -> (r: Variables)
    ensures
        is_variables_tour(&r),
{
    let mut x: i32 = 5;
    x = 6;
    x += 2;

    let spaces = "   ";
    proof {
        reveal_strlit("   ");
        vstd::string::is_ascii_spec_bytes(spaces);
    }
    let spaces: usize = spaces.len();
    Variables { mutated: x, spaces, product: PRODUCT }
}

/// The values that the data types walk-through must yield.
pub open spec fn is_data_types_tour(r: &DataTypes) -> bool {
    &&& r.wrapped == 1
    &&& r.overflowed == (1u8, true)
    &&& r.checked == None::<u8>
    &&& r.saturated == 255
    &&& r.remainder == 3
    &&& r.tuple_first == 600
    &&& r.tuple_last == 5
    &&& r.first == 1
    &&& r.fourth == 4
    &&& r.repeated@ == seq![3i32, 3, 3, 3, 3]
}

/// The four flavours of `u8` addition past the maximum, a remainder, a
/// tuple taken apart, and arrays read by index.
pub fn data_types() -> (r: DataTypes)
    ensures
        is_data_types_tour(&r),
{
    let i: u8 = 255;
    let wrapped = u8::wrapping_add(i, 2u8);
    let overflowed = overflowing_add_u8(i, 2u8);
    let checked = u8::checked_add(i, 2u8);
    let saturated = u8::saturating_add(i, 2u8);

    let remainder: i32 = 43 % 5;

    let tup: (i32, u8) = (600, 5);
    let (tuple_first, tuple_last) = tup;

    let a: [i32; 5] = [1, 2, 3, 4, 5];
    let first = a[0];
    let fourth = a[3];

    let repeated: [i32; 5] = [3; 5];
    assert(repeated@ == seq![3i32, 3, 3, 3, 3]);
    DataTypes {
        wrapped,
        overflowed,
        checked,
        saturated,
        remainder,
        tuple_first,
        tuple_last,
        first,
        fourth,
        repeated,
    }
}

} // verus!
