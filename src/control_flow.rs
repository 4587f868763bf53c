use vstd::prelude::*;

verus! {

/// Which of the two divisors an `if` / `else if` chain recognises first.
#[derive(Clone, Copy, Debug, PartialEq, Eq)]
pub enum Divisibility {
    ByFour,
    ByThree,
    Neither,
}

/// One step of the labelled counting loop: the outer loop announces its
/// count, the inner loop announces what remains.
#[derive(Clone, Copy, Debug, PartialEq, Eq)]
pub enum CountStep {
    Count(i32),
    Remaining(i32),
}

/// What the control-flow walk-through computes.
pub struct ControlFlow {
    pub divisibility: Divisibility,
    pub number: i32,
    pub retries: i32,
    pub counting: Vec<CountStep>,
    pub end_count: i32,
    pub liftoff: Vec<i32>,
    pub elements: Vec<i32>,
    pub numbers: Vec<i32>,
    pub countdown: Vec<i32>,
}

pub open spec fn spec_divisibility(n: int) -> Divisibility {
    if n % 4 == 0 {
        Divisibility::ByFour
    } else if n % 3 == 0 {
        Divisibility::ByThree
    } else {
        Divisibility::Neither
    }
}

/// The steps of the counting loop for every outer round that completed
/// without the labelled break, rounds `0 .. rounds`.
pub open spec fn completed_rounds(rounds: nat) -> Seq<CountStep>
    decreases rounds,
{
    if rounds == 0 {
        Seq::empty()
    } else {
        let c = (rounds - 1) as int;
        completed_rounds((rounds - 1) as nat) + seq![
            CountStep::Count(c as i32),
            CountStep::Remaining(5),
            CountStep::Remaining(4),
        ]
    }
}

/// All steps of the counting loop: two complete rounds, then the third
/// round stops at its first inner step.
pub open spec fn counting_steps() -> Seq<CountStep> {
    completed_rounds(2) + seq![CountStep::Count(2), CountStep::Remaining(5)]
}

/// Classifies `n` by the first of 4 and 3 that divides it.
pub fn divisibility(n: i32) -> (d: Divisibility)
    ensures
        d == spec_divisibility(n as int),
{
    if n % 4 == 0 {
        Divisibility::ByFour
    } else if n % 3 == 0 {
        Divisibility::ByThree
    } else {
        Divisibility::Neither
    }
}

/// Runs the nested loops, where the inner one can leave the outer one by
/// its label.
fn count_up() -> (r: (Vec<CountStep>, i32))
    ensures
        r.0@ == counting_steps(),
        r.1 == 2,
{
    let mut steps: Vec<CountStep> = Vec::new();
    let mut count: i32 = 0;
    'counting_up: loop
        invariant_except_break
            0 <= count <= 2,
            steps@ == completed_rounds(count as nat),
        ensures
            count == 2,
            steps@ == counting_steps(),
        decreases 2 - count,
    {
        steps.push(CountStep::Count(count));
        let mut remaining: i32 = 5;
        loop
            invariant_except_break
                0 <= count <= 2,
                remaining == 5 || remaining == 4,
                remaining == 4 ==> count < 2,
                remaining == 5 ==> steps@ == completed_rounds(count as nat).push(
                    CountStep::Count(count),
                ),
                remaining == 4 ==> steps@ == completed_rounds(count as nat) + seq![
                    CountStep::Count(count),
                    CountStep::Remaining(5),
                ],
            ensures
                0 <= count < 2,
                steps@ == completed_rounds(count as nat) + seq![
                    CountStep::Count(count),
                    CountStep::Remaining(5),
                    CountStep::Remaining(4),
                ],
            decreases remaining,
        {
            steps.push(CountStep::Remaining(remaining));
            if remaining == 4 {
                break;
            }
            if count == 2 {
                assert(steps@ == counting_steps());
                break 'counting_up;
            }
            remaining -= 1;
        }
        proof {
            assert(completed_rounds((count + 1) as nat) == completed_rounds(count as nat) + seq![
                CountStep::Count(count),
                CountStep::Remaining(5),
                CountStep::Remaining(4),
            ]);
        }
        count += 1;
    }
    (steps, count)
}

/// The values that the control-flow walk-through must yield.
pub open spec fn is_control_flow_tour(r: &ControlFlow) -> bool {
    &&& r.divisibility == Divisibility::ByThree
    &&& r.number == 5
    &&& r.retries == 3
    &&& r.counting@ == counting_steps()
    &&& r.end_count == 2
    &&& r.liftoff@ == seq![3i32, 2, 1]
    &&& r.elements@ == seq![1i32, 2, 3]
    &&& r.numbers@ == seq![1i32, 2, 3]
    &&& r.countdown@ == seq![3i32, 2, 1]
}

/// Walks through `if`, `loop`, `while` and counting loops, and gathers
/// what each of them yields.
pub fn control_flow() -> (r: ControlFlow)
    ensures
        is_control_flow_tour(&r),
{
    let n: i32 = 6;
    let divisibility = divisibility(n);

    let condition = true;
    let number: i32 = if condition { 5 } else { 6 };

    let mut retry: i32 = 0;
    loop
        invariant_except_break
            0 <= retry < 3,
        ensures
            retry == 3,
        decreases 3 - retry,
    {
        retry += 1;
        if retry == 3 {
            break;
        }
    }

    let (counting, end_count) = count_up();

    let mut liftoff: Vec<i32> = Vec::new();
    let mut number_left: i32 = 3;
    while number_left != 0
        invariant
            0 <= number_left <= 3,
            liftoff@.len() == 3 - number_left,
            forall|i: int| 0 <= i < liftoff@.len() ==> liftoff@[i] == 3 - i,
        decreases number_left,
    {
        liftoff.push(number_left);
        number_left -= 1;
    }

    let a: [i32; 3] = [1, 2, 3];
    let mut elements: Vec<i32> = Vec::new();
    let mut i: usize = 0;
    while i < 3
        invariant
            i <= 3,
            a@ == seq![1i32, 2, 3],
            elements@ == a@.subrange(0, i as int),
        decreases 3 - i,
    {
        elements.push(a[i]);
        i += 1;
    }

    let mut numbers: Vec<i32> = Vec::new();
    for k in 1..4i32
        invariant
            numbers@.len() == k - 1,
            forall|j: int| 0 <= j < numbers@.len() ==> numbers@[j] == j + 1,
    {
        numbers.push(k);
    }

    let mut countdown: Vec<i32> = Vec::new();
    let mut c: i32 = 3;
    while c >= 1
        invariant
            0 <= c <= 3,
            countdown@.len() == 3 - c,
            forall|j: int| 0 <= j < countdown@.len() ==> countdown@[j] == 3 - j,
        decreases c,
    {
        countdown.push(c);
        c -= 1;
    }

    assert(liftoff@ == seq![3i32, 2, 1]);
    assert(elements@ == seq![1i32, 2, 3]);
    assert(numbers@ == seq![1i32, 2, 3]);
    assert(countdown@ == seq![3i32, 2, 1]);
    ControlFlow {
        divisibility,
        number,
        retries: retry,
        counting,
        end_count,
        liftoff,
        elements,
        numbers,
        countdown,
    }
}

} // verus!
