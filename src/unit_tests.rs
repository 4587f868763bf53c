use vstd::prelude::*;
use vstd::string::StringExecFns;

verus! {

/// `"Hello {name}!"`.
pub fn greeting(name: &str) -> (r: String)
    ensures
        r@ == "Hello "@ + name@ + "!"@,
{
    let mut s = String::from_str("Hello ");
    s.append(name);
    s.append("!");
    s
}

/// Whether a positive guess is 5; the guess must be greater than 0.
pub fn guess_number(value: i32) -> (r: bool)
    requires
        value > 0,
    ensures
        r == (value == 5),
{
    value == 5
}

/// An error for an empty guess, else whether the guess is `"Guess!"`.
pub fn guess_text(value: &str) -> (r: Result<bool, String>)
    ensures
        value@.len() == 0 ==> (r matches Err(e) && e@ == "Value is empty"@),
        value@.len() != 0 ==> r == Ok::<bool, String>(value@ == "Guess!"@),
{
    if value.is_empty() {
        Err(String::from_str("Value is empty"))
    } else {
        let guess = value.to_owned();
        let expected = String::from_str("Guess!");
        Ok(guess == expected)
    }
}

} // verus!
