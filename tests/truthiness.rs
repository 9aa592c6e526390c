use oxidize::dsl::{be_false, be_true, expect};

fn raise(r: Result<(), String>) {
    if let Err(msg) = r {
        panic!("{}", msg);
    }
}

#[test]
fn test_be_true_matches() {
    raise(expect(true).to(be_true()));
}

#[test]
#[should_panic(expected = "\nexpected: true\n     got: false\n")]
fn test_be_true_fails_with_message() {
    raise(expect(false).to(be_true()));
}

#[test]
#[should_panic(expected = "\nexpected: false\n     got: true\n")]
fn test_negated_be_true_fails_with_message() {
    raise(expect(true).to_not(be_true()));
}

#[test]
fn test_be_false_matches() {
    raise(expect(false).to(be_false()));
}

#[test]
#[should_panic(expected = "\nexpected: false\n     got: true\n")]
fn test_be_false_fails_with_message() {
    raise(expect(true).to(be_false()));
}

#[test]
#[should_panic(expected = "\nexpected: true\n     got: false\n")]
fn test_negated_be_false_fails_with_message() {
    raise(expect(false).to_not(be_false()));
}
