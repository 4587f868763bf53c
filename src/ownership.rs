use vstd::prelude::*;
use vstd::string::StrSliceExecFns;
use vstd::string::StringExecFns;

verus! {

/// The pieces of one string that slices refer to.
pub struct StringSlices {
    pub hello: String,
    pub world: String,
    pub whole: String,
}

/// What the ownership walk-through yields.
pub struct Ownership {
    /// A copy of an integer, which keeps the original usable.
    pub copied: i32,
    /// A string moved to a new owner.
    pub moved: String,
    /// A deep copy of the moved string.
    pub cloned: String,
    /// A string handed back by a function and then extended.
    pub extended: String,
    /// Its length in bytes, read through a shared borrow.
    pub extended_len: usize,
    /// A string changed through a mutable borrow.
    pub mutated: String,
    /// A string read through two shared borrows, then through a mutable one.
    pub shared: String,
    /// Slices of a string.
    pub slices: StringSlices,
    /// Whether a slice of an array equals an array of the same elements.
    pub slices_equal: bool,
}

/// Creates a string and hands its ownership to the caller.
pub fn gives_ownership() -> (r: String)
    ensures
        r@ == "Hello"@,
{
    let mut some_string = String::new();
    some_string.append("Hello");
    some_string
}

/// The length in bytes of a borrowed string.
pub fn borrowing(some_string: &String) -> (r: usize)
    ensures
        r == vstd::utf8::encode_utf8(some_string@).len() as usize,
{
    some_string.as_str().len()
}

/// Extends a string through a mutable borrow.
pub fn mutable_borrowing(some_string: &mut String)
    ensures
        final(some_string)@ == old(some_string)@ + ", World!"@,
{
    some_string.append(", World!");
}

/// Whether two slices hold the same elements in the same order.
pub fn slices_equal(a: &[i32], b: &[i32]) -> (r: bool)
    ensures
        r == (a@ == b@),
{
    if a.len() != b.len() {
        return false;
    }
    let mut i: usize = 0;
    while i < a.len()
        invariant
            a@.len() == b@.len(),
            i <= a@.len(),
            forall|j: int| 0 <= j < i ==> a@[j] == b@[j],
        decreases a@.len() - i,
    {
        if a[i] != b[i] {
            return false;
        }
        i += 1;
    }
    assert(a@ =~= b@);
    true
}

/// Takes the two words of "Hello World" apart by byte ranges.
pub fn string_slices() -> (r: StringSlices)
    ensures
        r.hello@ == "Hello"@,
        r.world@ == "World"@,
        r.whole@ == "Hello World"@,
{
    let s = String::from_str("Hello World");
    proof {
        reveal_strlit("Hello World");
        reveal_strlit("Hello");
        reveal_strlit("World");
    }
    let len = s.as_str().unicode_len();
    let hello = s.as_str().substring_ascii(0, 5).to_owned();
    let world = s.as_str().substring_ascii(6, len).to_owned();
    let whole = s.as_str().substring_ascii(0, len).to_owned();
    assert(hello@ =~= "Hello"@);
    assert(world@ =~= "World"@);
    assert(whole@ =~= "Hello World"@);
    StringSlices { hello, world, whole }
}

/// Compares a slice of an array with arrays of the same elements.
pub fn int_slices() -> (r: bool)
    ensures
        r,
{
    let a: [i32; 5] = [1, 2, 3, 4, 5];
    let slice = vstd::slice::slice_subrange(a.as_slice(), 1, 3);
    let b: [i32; 2] = [2, 3];
    assert(slice@ =~= b@);
    slices_equal(slice, b.as_slice())
}

/// The values that the ownership walk-through must yield.
pub open spec fn is_ownership_tour(r: &Ownership) -> bool {
    &&& r.copied == 5
    &&& r.moved@ == "Hello!"@
    &&& r.cloned@ == "Hello!"@
    &&& r.extended@ == "Hello"@ + ", Rust!"@
    &&& r.extended_len == vstd::utf8::encode_utf8(r.extended@).len() as usize
    &&& r.mutated@ == "Hello"@ + ", World!"@
    &&& r.shared@ == "Hello, World!"@
    &&& r.slices.hello@ == "Hello"@
    &&& r.slices.world@ == "World"@
    &&& r.slices.whole@ == "Hello World"@
    &&& r.slices_equal
}

/// Moves, copies, clones and borrows values, and slices strings and arrays.
pub fn ownership() -> (r: Ownership)
    ensures
        is_ownership_tour(&r),
{
    let x: i32 = 5;
    let copied = x;

    let s1 = String::from_str("Hello!");
    let moved = s1;
    let cloned = moved.clone();

    let mut extended = gives_ownership();
    extended.append(", Rust!");
    let extended_len = borrowing(&extended);

    let mut mutated = gives_ownership();
    mutable_borrowing(&mut mutated);

    let mut shared = String::from_str("Hello, World!");
    let r1 = &shared;
    let r2 = &shared;
    let r3 = &mut shared;

    let slices = string_slices();
    let slices_equal = int_slices();
    Ownership {
        copied,
        moved,
        cloned,
        extended,
        extended_len,
        mutated,
        shared,
        slices,
        slices_equal,
    }
}

} // verus!
