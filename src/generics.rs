pub mod lifetimes;
pub mod traits;

use vstd::prelude::*;
use vstd::std_specs::cmp::PartialOrdSpec;
use vstd::laws_cmp::obeys_partial_cmp_spec_properties;
use core::cmp::Ordering;

verus! {

/// A point whose two coordinates may have different types.
pub struct Point<T, U> {
    pub x: T,
    pub y: U,
}

impl<T, U> Point<T, U> {
    /// A point from its two coordinates.
    pub fn new(x: T, y: U) -> (r: Self)
        ensures
            r.x == x,
            r.y == y,
    {
        Self { x, y }
    }

    /// The first coordinate.
    pub fn x(&self) -> (r: &T)
        ensures
            *r == self.x,
    {
        &self.x
    }

    /// The second coordinate.
    pub fn y(&self) -> (r: &U)
        ensures
            *r == self.y,
    {
        &self.y
    }

    /// A point with the first coordinate of `self` and the second of `other`.
    pub fn mixup<T2, U2>(self, other: Point<T2, U2>) -> (r: Point<T, U2>)
        ensures
            r.x == self.x,
            r.y == other.y,
    {
        Point { x: self.x, y: other.y }
    }
}

/// What the generics walk-through yields.
pub struct Generics {
    pub largest_number: i32,
    pub largest_char: char,
    /// The largest number of the list without its first element.
    pub largest_tail: i32,
    /// The largest of the first two characters.
    pub largest_head_char: char,
    pub largest_number_generic: i32,
    pub largest_char_generic: char,
    /// A point of integers mixed with a point of a character and a string.
    pub mixed: Point<i32, &'static str>,
}

/// The largest element of a non-empty list, the first one where several are equal.
pub fn largest_i32(list: &[i32]) -> (r: &i32)
    requires
        list@.len() > 0,
    ensures
        exists|k: int|
            0 <= k < list@.len() && list@[k] == *r && forall|j: int| 0 <= j < k ==> list@[j] < *r,
        forall|j: int| 0 <= j < list@.len() ==> list@[j] <= *r,
{
    let mut k: usize = 0;
    let mut i: usize = 1;
    while i < list.len()
        invariant
            0 <= k < i <= list@.len(),
            forall|j: int| 0 <= j < k ==> list@[j] < list@[k as int],
            forall|j: int| 0 <= j < i ==> list@[j] <= list@[k as int],
        decreases list@.len() - i,
    {
        if list[i] > list[k] {
            k = i;
        }
        i += 1;
    }
    &list[k]
}

/// The largest character of a non-empty list, the first one where several are equal.
pub fn largest_char(list: &[char]) -> (r: &char)
    requires
        list@.len() > 0,
    ensures
        exists|k: int|
            0 <= k < list@.len() && list@[k] == *r && forall|j: int| 0 <= j < k ==> list@[j] < *r,
        forall|j: int| 0 <= j < list@.len() ==> list@[j] <= *r,
{
    let mut k: usize = 0;
    let mut i: usize = 1;
    while i < list.len()
        invariant
            0 <= k < i <= list@.len(),
            forall|j: int| 0 <= j < k ==> list@[j] < list@[k as int],
            forall|j: int| 0 <= j < i ==> list@[j] <= list@[k as int],
        decreases list@.len() - i,
    {
        if list[i] > list[k] {
            k = i;
        }
        i += 1;
    }
    &list[k]
}

/// An element of a non-empty list. Where `T`'s comparison follows its
/// specification and the laws of a partial order, no element of the list
/// exceeds it; for a total order it is the first largest element.
pub fn largest_generic<T: PartialOrd>(list: &[T]) -> (r: &T)
    requires
        list@.len() > 0,
    ensures
        exists|k: int| 0 <= k < list@.len() && list@[k] == *r,
        T::obeys_partial_cmp_spec() && obeys_partial_cmp_spec_properties::<T>() ==> forall|j: int|
            0 <= j < list@.len() ==> #[trigger] list@[j].partial_cmp_spec(r) != Some(
                Ordering::Greater,
            ),
{
    let mut k: usize = 0;
    let mut i: usize = 1;
    proof {
        if T::obeys_partial_cmp_spec() && obeys_partial_cmp_spec_properties::<T>() {
            reveal(obeys_partial_cmp_spec_properties);
            assert(list@[0].partial_cmp_spec(&list@[0]) != Some(Ordering::Greater));
        }
    }
    while i < list.len()
        invariant
            0 <= k < i <= list@.len(),
            T::obeys_partial_cmp_spec() && obeys_partial_cmp_spec_properties::<T>() ==> forall|j: int|
                0 <= j < i ==> #[trigger] list@[j].partial_cmp_spec(&list@[k as int]) != Some(
                    Ordering::Greater,
                ),
        decreases list@.len() - i,
    {
        if list[i] > list[k] {
            proof {
                if T::obeys_partial_cmp_spec() && obeys_partial_cmp_spec_properties::<T>() {
                    reveal(obeys_partial_cmp_spec_properties);
                    assert forall|j: int| 0 <= j <= i implies #[trigger] list@[j].partial_cmp_spec(
                        &list@[i as int],
                    ) != Some(Ordering::Greater) by {
                        if j < i && list@[j].partial_cmp_spec(&list@[i as int]) == Some(
                            Ordering::Greater,
                        ) {
                            assert(list@[j].partial_cmp_spec(&list@[k as int]) == Some(
                                Ordering::Greater,
                            ));
                        }
                    }
                }
            }
            k = i;
        }
        i += 1;
    }
    &list[k]
}

/// The values that the generics walk-through must yield.
pub open spec fn is_generics_tour(r: &Generics) -> bool {
    &&& r.largest_number == 100
    &&& r.largest_char == 'y'
    &&& r.largest_tail == 100
    &&& r.largest_head_char == 'y'
    &&& r.largest_number_generic == 100
    &&& (r.largest_char_generic == 'y' || r.largest_char_generic == 'm' || r.largest_char_generic
        == 'a' || r.largest_char_generic == 'q')
    &&& r.mixed.x == 5
    &&& r.mixed.y@ == "hello"@
}

/// Finds largest elements with typed and generic functions, and mixes points.
pub fn generics() -> (r: Generics)
    ensures
        is_generics_tour(&r),
{
    let number_list: [i32; 5] = [34, 50, 25, 100, 65];
    let char_list: [char; 4] = ['y', 'm', 'a', 'q'];

    let largest_number = *largest_i32(number_list.as_slice());
    let largest_c = *largest_char(char_list.as_slice());

    let tail = vstd::slice::slice_subrange(number_list.as_slice(), 1, 5);
    assert(tail@ =~= seq![50i32, 25, 100, 65]);
    let largest_tail = *largest_i32(tail);
    let head = vstd::slice::slice_subrange(char_list.as_slice(), 0, 2);
    assert(head@ =~= seq!['y', 'm']);
    let largest_head_char = *largest_char(head);

    let largest_number_generic = *largest_generic(number_list.as_slice());
    let largest_char_generic = *largest_generic(char_list.as_slice());
    assert(number_list@[3] == 100);
    proof {
        broadcast use vstd::laws_cmp::group_laws_cmp;

        assert(vstd::laws_cmp::obeys_cmp::<i32>());
        reveal(vstd::laws_cmp::obeys_cmp_partial_ord);
        assert(number_list@[3].partial_cmp_spec(&largest_number_generic) != Some(Ordering::Greater));
    }
    assert(tail@[2] == 100);

    let both_integer: Point<i32, i32> = Point { x: 5, y: 6 };
    let char_and_string = Point { x: 'c', y: "hello" };
    let mixed = both_integer.mixup(char_and_string);
    Generics {
        largest_number,
        largest_char: largest_c,
        largest_tail,
        largest_head_char,
        largest_number_generic,
        largest_char_generic,
        mixed,
    }
}

} // verus!
