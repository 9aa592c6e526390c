use oxidize::dsl::{all_of, any_of, expect, greater_than, less_than};

fn raise(r: Result<(), String>) {
    if let Err(msg) = r {
        panic!("{}", msg);
    }
}

#[test]
fn test_any_of() {
    raise(expect(5).is(any_of(vec![less_than(0), greater_than(1)])));
}

#[test]
#[should_panic(expected = "expected one of [\"expected 5 to be less than 0\", \"expected 5 to be greater than 100\"]")]
fn test_any_of_none() {
    raise(expect(5).is(any_of(vec![less_than(0), greater_than(100)])));
}

#[test]
fn test_all_of() {
    raise(expect(5).is(all_of(vec![less_than(1000), greater_than(1)])));
}

#[test]
#[should_panic(expected = "expected all of [\"expected 5 to be less than 1000\", \"expected 5 to be greater than 10\"]")]
fn test_not_all_of() {
    raise(expect(5).is(all_of(vec![less_than(1000), greater_than(10)])));
}
