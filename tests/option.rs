use oxidize::dsl::{expect, none, some};

fn raise(r: Result<(), String>) {
    if let Err(msg) = r {
        panic!("{}", msg);
    }
}

#[test]
fn test_none_matches() {
    let n: Option<String> = None;
    raise(expect(n).is(none()));
}

#[test]
#[should_panic(expected = "expected Some(\"Hello\") to be None")]
fn test_none_fails_with_message() {
    let n = Some("Hello");
    raise(expect(n).is(none()));
}

#[test]
#[should_panic(expected = "expected None to be Some<i32>")]
fn test_negated_none_fails_with_message() {
    let n: Option<i32> = None;
    raise(expect(n).is_not(none()));
}

#[test]
fn test_some_matches() {
    let n = Some(32);
    raise(expect(n).is(some()));
}

#[test]
#[should_panic(expected = "expected None to be Some<i32>")]
fn test_some_fails_with_message() {
    let n: Option<i32> = None;
    raise(expect(n).is(some()));
}

#[test]
#[should_panic(expected = "expected Some(32) to be None")]
fn test_negated_some_fails_with_message() {
    let n = Some(32);
    raise(expect(n).is_not(some()));
}
