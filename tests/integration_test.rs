use hello_rust::{try_statements_and_expressions, try_variables_and_datatypes};

#[test]
fn integration_test_1() {
    println!("common::setup");

    try_variables_and_datatypes();
    try_statements_and_expressions();

    println!("common::teardown");
}
