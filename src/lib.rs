pub mod common_collections;
pub mod control_flow;
pub mod enumerations;
pub mod generics;
pub mod iterators_and_closures;
pub mod ownership;
pub mod statements_and_expressions;
pub mod structs;
pub mod tally;
pub mod unit_tests;
pub mod variables_and_datatypes;

use vstd::prelude::*;
use crate::common_collections::{
    HashMaps,
    Strings,
    Vectors,
    collections,
    is_map_tour,
    is_string_tour,
    is_vector_tour,
};
use crate::control_flow::{ControlFlow, control_flow, is_control_flow_tour};
use crate::enumerations::{
    Enumerations,
    Options,
    enumerations,
    is_enumerations_tour,
    is_options_tour,
    options,
};
use crate::generics::{Generics, generics, is_generics_tour};
use crate::generics::lifetimes::{Lifetimes, is_lifetimes_tour, lifetimes};
use crate::generics::traits::{Traits, is_traits_tour, traits};
use crate::iterators_and_closures::{
    Closures,
    Iterators,
    closures,
    is_closures_tour,
    is_iterators_tour,
    iterators,
};
use crate::ownership::{Ownership, is_ownership_tour, ownership};
use crate::statements_and_expressions::{five, plus_one, statements_and_expressions};
use crate::structs::{Structs, is_structs_tour, structs};
use crate::unit_tests::{greeting, guess_number, guess_text};
use crate::variables_and_datatypes::{
    DataTypes,
    Variables,
    data_types,
    is_data_types_tour,
    is_variables_tour,
    variables,
};

verus! {

/// Bindings, mutability, shadowing, and the scalar and compound types.
pub fn try_variables_and_datatypes() -> (r: (Variables, DataTypes))
    ensures
        is_variables_tour(&r.0),
        is_data_types_tour(&r.1),
{
    (variables(), data_types())
}

/// A block expression, a function with a tail expression, and one with a parameter.
pub fn try_statements_and_expressions() -> (r: (i32, i32, i32))
    ensures
        r == (2i32, 5i32, 2i32),
{
    let z = statements_and_expressions();
    let x = five();
    let y = plus_one(1);
    (z, x, y)
}

/// Branches and loops of every kind.
pub fn try_control_flow() -> (r: ControlFlow)
    ensures
        is_control_flow_tour(&r),
{
    control_flow()
}

/// Moves, copies, borrows and slices.
pub fn try_ownership() -> (r: Ownership)
    ensures
        is_ownership_tour(&r),
{
    ownership()
}

/// Structs with named fields, tuple structs and methods.
pub fn try_structs() -> (r: Structs)
    ensures
        is_structs_tour(&r),
{
    structs()
}

/// Enums, `match`, `if let` and `Option`.
pub fn try_enumerations() -> (r: (Enumerations, Options))
    ensures
        is_enumerations_tour(&r.0),
        is_options_tour(&r.1),
{
    (enumerations(), options())
}

/// Generic functions and types, traits, and lifetimes.
pub fn try_generics() -> (r: (Generics, Traits, Lifetimes))
    ensures
        is_generics_tour(&r.0),
        is_traits_tour(&r.1),
        is_lifetimes_tour(&r.2),
{
    (generics(), traits(), lifetimes())
}

/// Closures and iterators.
pub fn try_iterators_and_closures() -> (r: (Closures, Iterators))
    ensures
        is_closures_tour(&r.0),
        is_iterators_tour(&r.1),
{
    (closures(), iterators())
}

/// Vectors, strings and maps.
pub fn try_common_collections() -> (r: (Vectors, Strings, HashMaps))
    ensures
        is_vector_tour(&r.0),
        is_string_tour(&r.1),
        is_map_tour(&r.2),
{
    collections()
}

/// The functions that the unit tests exercise, called once each.
pub fn try_unit_tests() -> (r: (String, bool, Result<bool, String>))
    ensures
        r.0@ == "Hello "@ + "Michael"@ + "!"@,
        r.1,
        r.2 == Ok::<bool, String>(true),
{
    let greeting = greeting("Michael");
    let guess = guess_number(5);
    let text = "Guess!";
    proof {
        reveal_strlit("Guess!");
    }
    let result = guess_text(text);
    (greeting, guess, result)
}

} // verus!
