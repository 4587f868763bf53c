use vstd::prelude::*;

verus! {

/// The colour of a shirt in a giveaway.
#[derive(Debug, PartialEq, Eq, Structural, Copy, Clone)]
pub enum ShirtColor {
    Red,
    Blue,
}

/// The shirts in stock.
pub struct Inventory {
    pub shirts: Vec<ShirtColor>,
}

/// What the closure walk-through yields.
pub struct Closures {
    /// The shirt given to a user who prefers red.
    pub preferred: ShirtColor,
    /// The shirt given to a user without a preference.
    pub fallback: ShirtColor,
    /// What a closure with annotated types returned.
    pub annotated: u32,
    /// What a closure whose types were inferred returned.
    pub inferred: u32,
    /// An array that a closure only read.
    pub borrowed: [i32; 5],
    /// A vector that a closure extended.
    pub extended: Vec<i32>,
}

/// What the iterator walk-through yields.
pub struct Iterators {
    /// The elements, in the order in which the iterator hands them out.
    pub walked: Vec<i32>,
    /// Their sum.
    pub sum: i32,
    /// Each element plus one.
    pub mapped: Vec<i32>,
    /// The elements of `mapped` that are at most the limit.
    pub filtered: Vec<i32>,
}

/// The bound that the filtering closure captures.
pub const IMAX: i32 = 3;

/// How many shirts of colour `c` are in `s`.
pub open spec fn count_color(s: Seq<ShirtColor>, c: ShirtColor) -> nat
    decreases s.len(),
{
    if s.len() == 0 {
        0
    } else {
        count_color(s.drop_last(), c) + if s.last() == c {
            1nat
        } else {
            0nat
        }
    }
}

/// Red where strictly more red shirts than blue ones are in stock, else blue.
pub open spec fn spec_most_stocked(s: Seq<ShirtColor>) -> ShirtColor {
    if count_color(s, ShirtColor::Red) > count_color(s, ShirtColor::Blue) {
        ShirtColor::Red
    } else {
        ShirtColor::Blue
    }
}

proof fn lemma_count_color_bound(s: Seq<ShirtColor>, c: ShirtColor)
    ensures
        count_color(s, c) <= s.len(),
    decreases s.len(),
{
    if s.len() > 0 {
        lemma_count_color_bound(s.drop_last(), c);
    }
}

impl Inventory {
    /// The user's preference where there is one, else the colour most in stock.
    pub fn giveaway(&self, user_preference: Option<ShirtColor>) -> (r: ShirtColor)
        ensures
            r == (match user_preference {
                Some(c) => c,
                None => spec_most_stocked(self.shirts@),
            }),
    {
        match user_preference {
            Some(c) => c,
            None => self.most_stocked(),
        }
    }

    /// The colour with more shirts in stock; blue on a tie.
    pub fn most_stocked(&self) -> (r: ShirtColor)
        ensures
            r == spec_most_stocked(self.shirts@),
    {
        let mut num_red: usize = 0;
        let mut num_blue: usize = 0;
        let mut i: usize = 0;
        while i < self.shirts.len()
            invariant
                i <= self.shirts@.len(),
                num_red == count_color(self.shirts@.subrange(0, i as int), ShirtColor::Red),
                num_blue == count_color(self.shirts@.subrange(0, i as int), ShirtColor::Blue),
            decreases self.shirts@.len() - i,
        {
            proof {
                let next = self.shirts@.subrange(0, i + 1);
                assert(next.drop_last() =~= self.shirts@.subrange(0, i as int));
                lemma_count_color_bound(next, ShirtColor::Red);
                lemma_count_color_bound(next, ShirtColor::Blue);
            }
            match self.shirts[i] {
                ShirtColor::Red => num_red += 1,
                ShirtColor::Blue => num_blue += 1,
            }
            i += 1;
        }
        assert(self.shirts@.subrange(0, i as int) =~= self.shirts@);
        if num_red > num_blue {
            ShirtColor::Red
        } else {
            ShirtColor::Blue
        }
    }
}

/// The values that the closure walk-through must yield.
pub open spec fn is_closures_tour(r: &Closures) -> bool {
    &&& r.preferred == ShirtColor::Red
    &&& r.fallback == ShirtColor::Blue
    &&& r.annotated == 3
    &&& r.inferred == 7
    &&& r.borrowed@ == seq![3i32, 3, 3, 3, 3]
    &&& r.extended@ == seq![4i32, 4, 4, 4, 4, 4, 5]
}

/// Hands out shirts with and without a preference, and calls closures
/// that take their types from annotations, from their first use, and that
/// borrow from their surroundings.
pub fn closures() -> (r: Closures)
    ensures
        is_closures_tour(&r),
{
    let store = Inventory { shirts: vec![ShirtColor::Blue, ShirtColor::Red, ShirtColor::Blue] };
    proof {
        let s = store.shirts@;
        assert(s.drop_last().drop_last().drop_last() =~= Seq::<ShirtColor>::empty());
        assert(count_color(s, ShirtColor::Red) == 1) by {
            reveal_with_fuel(count_color, 4);
        }
        assert(count_color(s, ShirtColor::Blue) == 2) by {
            reveal_with_fuel(count_color, 4);
        }
    }
    let preferred = store.giveaway(Some(ShirtColor::Red));
    let fallback = store.giveaway(None);

    let annotated_closure = |num: u32| -> (r: u32)
        ensures
            r == num,
        { num };
    let annotated = annotated_closure(3);

    let inferred_closure = |x| -> (r: u32)
        ensures
            r == x,
        { x };
    let inferred = inferred_closure(7u32);

    let borrowed: [i32; 5] = [3; 5];
    let read_only = || -> (r: i32)
        ensures
            r == borrowed@[0],
        { borrowed[0] };
    let _first = read_only();

    let mut extended: Vec<i32> = vec![4, 4, 4, 4, 4, 4];
    extended.push(5);

    assert(borrowed@ == seq![3i32, 3, 3, 3, 3]);
    assert(extended@ == seq![4i32, 4, 4, 4, 4, 4, 5]);
    Closures { preferred, fallback, annotated, inferred, borrowed, extended }
}

/// Each element of `v` plus one; no element may be `i32::MAX`.
pub fn plus_one_each(v: &Vec<i32>) -> (r: Vec<i32>)
    requires
        forall|i: int| 0 <= i < v@.len() ==> v@[i] < i32::MAX,
    ensures
        r@ == v@.map_values(|x: i32| (x + 1) as i32),
{
    let mut r: Vec<i32> = Vec::new();
    let mut i: usize = 0;
    while i < v.len()
        invariant
            i <= v@.len(),
            forall|j: int| 0 <= j < v@.len() ==> v@[j] < i32::MAX,
            r@ == v@.subrange(0, i as int).map_values(|x: i32| (x + 1) as i32),
        decreases v@.len() - i,
    {
        r.push(v[i] + 1);
        i += 1;
        assert(r@ =~= v@.subrange(0, i as int).map_values(|x: i32| (x + 1) as i32));
    }
    assert(v@.subrange(0, i as int) =~= v@);
    r
}

/// The elements of `v` that are at most `limit`, in order.
pub fn at_most(v: &Vec<i32>, limit: i32) -> (r: Vec<i32>)
    ensures
        r@ == v@.filter(|x: i32| x <= limit),
{
    let mut r: Vec<i32> = Vec::new();
    let mut i: usize = 0;
    while i < v.len()
        invariant
            i <= v@.len(),
            r@ == v@.subrange(0, i as int).filter(|x: i32| x <= limit),
        decreases v@.len() - i,
    {
        proof {
            let next = v@.subrange(0, i + 1);
            assert(next.drop_last() =~= v@.subrange(0, i as int));
            reveal(Seq::filter);
        }
        if v[i] <= limit {
            r.push(v[i]);
        }
        i += 1;
    }
    assert(v@.subrange(0, i as int) =~= v@);
    r
}

/// The values that the iterator walk-through must yield.
pub open spec fn is_iterators_tour(r: &Iterators) -> bool {
    &&& r.walked@ == seq![1i32, 2, 3]
    &&& r.sum == 6
    &&& r.mapped@ == seq![2i32, 3, 4]
    &&& r.filtered@ == seq![2i32, 3]
}

/// Walks a vector with an iterator, sums it, maps it and filters it.
pub fn iterators() -> (r: Iterators)
    ensures
        is_iterators_tour(&r),
{
    let v1: Vec<i32> = vec![1, 2, 3];

    let mut walked: Vec<i32> = Vec::new();
    let mut sum: i32 = 0;
    let mut i: usize = 0;
    while i < v1.len()
        invariant
            v1@ == seq![1i32, 2, 3],
            i <= 3,
            walked@ == v1@.subrange(0, i as int),
            i == 0 ==> sum == 0,
            i == 1 ==> sum == 1,
            i == 2 ==> sum == 3,
            i == 3 ==> sum == 6,
        decreases 3 - i,
    {
        walked.push(v1[i]);
        sum = sum + v1[i];
        i += 1;
    }

    let mapped = plus_one_each(&v1);
    assert(mapped@ =~= seq![2i32, 3, 4]);
    let filtered = at_most(&mapped, IMAX);
    proof {
        reveal_with_fuel(Seq::filter, 4);
        assert(mapped@.drop_last().drop_last().drop_last() =~= Seq::<i32>::empty());
        assert(mapped@.drop_last() =~= seq![2i32, 3]);
        assert(mapped@.drop_last().drop_last() =~= seq![2i32]);
    }
    assert(filtered@ =~= seq![2i32, 3]);
    assert(walked@ =~= seq![1i32, 2, 3]);
    Iterators { walked, sum, mapped, filtered }
}

} // verus!
