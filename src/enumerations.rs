use vstd::prelude::*;
use vstd::string::StringExecFns;

verus! {

/// A message with variants that carry no data, named fields, a string, and
/// a tuple of integers.
#[derive(Debug)]
pub enum Message {
    Quit,
    Move { x: i32, y: i32 },
    Write(String),
    ChangeColor(i32, i32, i32),
}

/// Which arm of a match with two literal arms and a binding catches a roll.
#[derive(Debug, PartialEq, Eq, Structural, Copy, Clone)]
pub enum DiceArm {
    One,
    Two,
    Other(i32),
}

/// What the enum walk-through yields.
pub struct Enumerations {
    /// One message of each variant.
    pub messages: Vec<Message>,
    /// The arm that catches the roll in a match with a catch-all binding.
    pub arm: DiceArm,
    /// Whether a match with a wildcard arm finds a special roll (3 or 5).
    pub special: bool,
    /// Whether `if let 3` matches the roll.
    pub is_three: bool,
    /// Whether `if let 5` matches the roll.
    pub is_five: bool,
    /// Whether `if let Message::Quit` matches a quit message.
    pub quits: bool,
}

/// What the `Option` walk-through yields.
pub struct Options {
    pub some_number: Option<i32>,
    pub some_char: Option<char>,
    pub absent_value: Option<i32>,
    pub six: Option<i32>,
    pub none: Option<i32>,
}

pub open spec fn spec_dice_arm(roll: i32) -> DiceArm {
    if roll == 1 {
        DiceArm::One
    } else if roll == 2 {
        DiceArm::Two
    } else {
        DiceArm::Other(roll)
    }
}

/// The arm of `1 => .., 2 => .., other => ..` that catches `roll`.
pub fn dice_arm(roll: i32) -> (r: DiceArm)
    ensures
        r == spec_dice_arm(roll),
{
    match roll {
        1 => DiceArm::One,
        2 => DiceArm::Two,
        other => DiceArm::Other(other),
    }
}

/// Whether `3 => .., 5 => ..` catches `roll` before the wildcard arm does.
pub fn is_special_roll(roll: i32) -> (r: bool)
    ensures
        r == (roll == 3 || roll == 5),
{
    match roll {
        3 => true,
        5 => true,
        _ => false,
    }
}

/// The values that the enum walk-through must yield.
pub open spec fn is_enumerations_tour(r: &Enumerations) -> bool {
    &&& r.messages@.len() == 4
    &&& r.messages@[0] matches Message::Write(s) && s@ == "hello"@
    &&& r.messages@[1] matches Message::Quit
    &&& r.messages@[2] == (Message::Move { x: 30, y: 50 })
    &&& r.messages@[3] == Message::ChangeColor(0, 0, 0)
    &&& r.arm == DiceArm::Other(4)
    &&& !r.special
    &&& !r.is_three
    &&& !r.is_five
    &&& r.quits
}

/// Builds one message of each variant and matches a dice roll with
/// `match` and `if let`.
pub fn enumerations() -> (r: Enumerations)
    ensures
        is_enumerations_tour(&r),
{
    let messages: Vec<Message> = vec![
        Message::Write(String::from_str("hello")),
        Message::Quit,
        Message::Move { x: 30, y: 50 },
        Message::ChangeColor(0, 0, 0),
    ];

    let dice_roll: i32 = 4;
    let arm = dice_arm(dice_roll);
    let special = is_special_roll(dice_roll);

    let is_three = if let 3 = dice_roll {
        true
    } else {
        false
    };
    let is_five = if let 5 = dice_roll {
        true
    } else {
        false
    };

    let msg = Message::Quit;
    let quits = if let Message::Quit = msg {
        true
    } else {
        false
    };
    Enumerations { messages, arm, special, is_three, is_five, quits }
}

/// Adds one to the value inside `x`, if there is one; that value must be
/// below `i32::MAX`.
pub fn option_plus_one(x: Option<i32>) -> (r: Option<i32>)
    requires
        x matches Some(i) ==> i < i32::MAX,
    ensures
        r == (match x {
            Some(i) => Some((i + 1) as i32),
            None => None,
        }),
{
    match x {
        None => None,
        Some(i) => Some(i + 1),
    }
}

/// The values that the `Option` walk-through must yield.
pub open spec fn is_options_tour(r: &Options) -> bool {
    &&& r.some_number == Some(5i32)
    &&& r.some_char == Some('e')
    &&& r.absent_value == None::<i32>
    &&& r.six == Some(6i32)
    &&& r.none == None::<i32>
}

/// Builds options with and without a value and maps them through
/// `option_plus_one`.
pub fn options() -> (r: Options)
    ensures
        is_options_tour(&r),
{
    let some_number: Option<i32> = Some(5);
    let some_char: Option<char> = Some('e');
    let absent_value: Option<i32> = None;

    let five = some_number;
    let six = option_plus_one(five);
    let none = option_plus_one(absent_value);
    Options { some_number, some_char, absent_value, six, none }
}

} // verus!
