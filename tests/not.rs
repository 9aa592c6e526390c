use oxidize::dsl::{equal, expect, not};

fn raise(r: Result<(), String>) {
    if let Err(msg) = r {
        panic!("{}", msg);
    }
}

#[test]
fn test_invert_equality() {
    raise(expect(1).to(not(equal(2))));
}

#[test]
fn test_invert_invert_equality() {
    raise(expect(1).to(not(not(equal(1)))));
}
