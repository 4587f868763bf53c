pub mod rectangle;
pub mod user;

use vstd::prelude::*;
use vstd::string::StringExecFns;
use crate::structs::rectangle::Rectangle;
use crate::structs::user::{User, build_user};

verus! {

/// A colour as a tuple struct: a tuple with a name of its own.
#[derive(Debug, PartialEq, Eq, Structural, Clone, Copy)]
pub struct Color(pub i32, pub i32, pub i32);

/// A point in space as a tuple struct, a type distinct from `Color`.
#[derive(Debug, PartialEq, Eq, Structural, Clone, Copy)]
pub struct Point(pub i32, pub i32, pub i32);

/// What the struct walk-through yields.
pub struct Structs {
    /// A user built with struct update syntax from another one.
    pub updated: User,
    /// A user built by a function with field init shorthand.
    pub built: User,
    pub black: Color,
    pub origin: Point,
    pub rect: Rectangle,
    /// The area of `rect`.
    pub area: u32,
    pub square: Rectangle,
}

/// The values that the struct walk-through must yield.
pub open spec fn is_structs_tour(r: &Structs) -> bool {
    &&& r.updated.email@ == "someone2@example.com"@
    &&& r.updated.username@ == "username1"@
    &&& r.updated.active
    &&& r.updated.sign_in_count == 1
    &&& r.built.email@ == "someone3@example.com"@
    &&& r.built.username@ == "username3"@
    &&& r.built.active
    &&& r.built.sign_in_count == 1
    &&& r.black == Color(0, 0, 0)
    &&& r.origin == Point(0, 0, 0)
    &&& r.rect == (Rectangle { width: 60, height: 50 })
    &&& r.area == 3000
    &&& r.square == (Rectangle { width: 30, height: 30 })
}

/// Builds users and rectangles and calls methods on them.
pub fn structs() -> (r: Structs)
    ensures
        is_structs_tour(&r),
{
    let mut user1 = User {
        email: String::from_str("someone1@example.com"),
        username: String::from_str("username1"),
        active: true,
        sign_in_count: 1,
    };
    user1.email = String::from_str("someone_else1@example.com");

    let updated = User { email: String::from_str("someone2@example.com"), ..user1 };

    let built = build_user(
        String::from_str("someone3@example.com"),
        String::from_str("username3"),
    );

    let black = Color(0, 0, 0);
    let origin = Point(0, 0, 0);

    let scale: u32 = 2;
    let rect = Rectangle { width: 30 * scale, height: 50 };
    let area = rect.area();
    let square = Rectangle::square(30);
    Structs { updated, built, black, origin, rect, area, square }
}

} // verus!
