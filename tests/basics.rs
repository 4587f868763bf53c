use hello_rust::control_flow::{control_flow, divisibility, CountStep, Divisibility};
use hello_rust::enumerations::{
    dice_arm, enumerations, is_special_roll, option_plus_one, options, DiceArm, Message,
};
use hello_rust::statements_and_expressions::{five, plus_one, statements_and_expressions};
use hello_rust::variables_and_datatypes::{data_types, variables, PRODUCT};
use hello_rust::{try_statements_and_expressions, try_unit_tests};

#[test]
fn statements_values() {
    assert_eq!(statements_and_expressions(), 2);
    assert_eq!(five(), 5);
    assert_eq!(plus_one(1), 2);
    assert_eq!(plus_one(-1), 0);
    assert_eq!(plus_one(i32::MAX - 1), i32::MAX);
    assert_eq!(try_statements_and_expressions(), (2, 5, 2));
}

#[test]
fn variables_values() {
    let v = variables();
    assert_eq!(v.mutated, 8);
    assert_eq!(v.spaces, 3);
    assert_eq!(v.product, 6);
    assert_eq!(PRODUCT, 6);
}

#[test]
fn data_types_values() {
    let d = data_types();
    assert_eq!(d.wrapped, 1);
    assert_eq!(d.overflowed, (1, true));
    assert_eq!(d.checked, None);
    assert_eq!(d.saturated, 255);
    assert_eq!(d.remainder, 3);
    assert_eq!(d.tuple_first, 600);
    assert_eq!(d.tuple_last, 5);
    assert_eq!(d.first, 1);
    assert_eq!(d.fourth, 4);
    assert_eq!(d.repeated, [3; 5]);
}

#[test]
fn divisibility_cases() {
    assert_eq!(divisibility(6), Divisibility::ByThree);
    assert_eq!(divisibility(12), Divisibility::ByFour);
    assert_eq!(divisibility(8), Divisibility::ByFour);
    assert_eq!(divisibility(7), Divisibility::Neither);
    assert_eq!(divisibility(0), Divisibility::ByFour);
    assert_eq!(divisibility(-9), Divisibility::ByThree);
}

#[test]
fn control_flow_values() {
    let c = control_flow();
    assert_eq!(c.divisibility, Divisibility::ByThree);
    assert_eq!(c.number, 5);
    assert_eq!(c.retries, 3);
    assert_eq!(
        c.counting,
        vec![
            CountStep::Count(0),
            CountStep::Remaining(5),
            CountStep::Remaining(4),
            CountStep::Count(1),
            CountStep::Remaining(5),
            CountStep::Remaining(4),
            CountStep::Count(2),
            CountStep::Remaining(5),
        ]
    );
    assert_eq!(c.end_count, 2);
    assert_eq!(c.liftoff, vec![3, 2, 1]);
    assert_eq!(c.elements, vec![1, 2, 3]);
    assert_eq!(c.numbers, vec![1, 2, 3]);
    assert_eq!(c.countdown, vec![3, 2, 1]);
}

#[test]
fn dice_arms() {
    assert_eq!(dice_arm(1), DiceArm::One);
    assert_eq!(dice_arm(2), DiceArm::Two);
    assert_eq!(dice_arm(4), DiceArm::Other(4));
    assert!(is_special_roll(3));
    assert!(is_special_roll(5));
    assert!(!is_special_roll(4));
}

#[test]
fn enumerations_values() {
    let e = enumerations();
    assert_eq!(e.messages.len(), 4);
    assert!(matches!(&e.messages[0], Message::Write(s) if s == "hello"));
    assert!(matches!(e.messages[1], Message::Quit));
    assert!(matches!(e.messages[2], Message::Move { x: 30, y: 50 }));
    assert!(matches!(e.messages[3], Message::ChangeColor(0, 0, 0)));
    assert_eq!(e.arm, DiceArm::Other(4));
    assert!(!e.special);
    assert!(!e.is_three);
    assert!(!e.is_five);
    assert!(e.quits);
}

#[test]
fn options_values() {
    assert_eq!(option_plus_one(Some(5)), Some(6));
    assert_eq!(option_plus_one(None), None);
    assert_eq!(option_plus_one(Some(-1)), Some(0));
    let o = options();
    assert_eq!(o.some_number, Some(5));
    assert_eq!(o.some_char, Some('e'));
    assert_eq!(o.absent_value, None);
    assert_eq!(o.six, Some(6));
    assert_eq!(o.none, None);
}

#[test]
fn unit_tests_entry() {
    let (g, b, r) = try_unit_tests();
    assert_eq!(g, "Hello Michael!");
    assert!(b);
    assert_eq!(r, Ok(true));
}

#[test]
fn variables_entry() {
    let (v, d) = hello_rust::try_variables_and_datatypes();
    assert_eq!(v.mutated, 8);
    assert_eq!(d.saturated, 255);
    let c = hello_rust::try_control_flow();
    assert_eq!(c.end_count, 2);
    let (e, o) = hello_rust::try_enumerations();
    assert!(e.quits);
    assert_eq!(o.six, Some(6));
}
