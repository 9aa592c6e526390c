use oxidize::dsl::{equal, expect, greater_than, less_than};
use oxidize::matchers::Equality;
use oxidize::show::Show;

fn raise(r: Result<(), String>) {
    if let Err(msg) = r {
        panic!("{}", msg);
    }
}

#[derive(PartialEq, Debug)]
struct Foo {
    a: u16,
    b: String,
}

impl Show for Foo {
    fn show(&self) -> String {
        format!("{:?}", self)
    }

    fn label_text() -> String {
        "Foo".to_string()
    }
}

impl Equality for Foo {
    fn equals(&self, other: &Foo) -> bool {
        self == other
    }
}

#[test]
fn test_equal_matches() {
    raise(expect(1).to(equal(1)));
}

#[test]
#[should_panic(expected = "\nexpected: 1\n     got: 2\n")]
fn test_equal_fails_with_message() {
    raise(expect(1).to(equal(2)));
}

#[test]
#[should_panic(expected = "expected 1 not to equal 1")]
fn test_negated_equal_fails_with_message() {
    raise(expect(1).to_not(equal(1)));
}

#[test]
fn test_equal_with_partial_equal_matches() {
    raise(expect(Foo { a: 10u16, b: "Hello".to_string() })
        .to(equal(Foo { a: 10u16, b: "Hello".to_string() })));
}

#[test]
#[should_panic(expected = "\nexpected: Foo { a: 10, b: \"Hello\" }\n     got: Foo { a: 10, b: \"Goodbye\" }\n")]
fn test_equal_with_partial_equal_fails_with_message() {
    raise(expect(Foo { a: 10u16, b: "Hello".to_string() })
        .to(equal(Foo { a: 10u16, b: "Goodbye".to_string() })));
}

#[test]
fn test_greater_than_matches() {
    raise(expect(5).is(greater_than(1)));
}

#[test]
#[should_panic(expected = "expected 5 to be greater than 6")]
fn test_greater_than_fails_with_message() {
    raise(expect(5).is(greater_than(6)));
}

#[test]
#[should_panic(expected = "expected 5 to be less than or equal to 3")]
fn test_negated_greater_than_fails_with_message() {
    raise(expect(5).is_not(greater_than(3)));
}

#[test]
fn test_less_than_matches() {
    raise(expect(5).is(less_than(10)));
}

#[test]
#[should_panic(expected = "expected 10 to be less than 6")]
fn test_less_than_fails_with_message() {
    raise(expect(10).is(less_than(6)));
}

#[test]
#[should_panic(expected = "expected 10 to be greater than or equal to 20")]
fn test_negated_less_than_fails_with_message() {
    raise(expect(10).is_not(less_than(20)));
}
