use oxidize::dsl::{contain, expect};

fn raise(r: Result<(), String>) {
    if let Err(msg) = r {
        panic!("{}", msg);
    }
}

#[test]
fn test_contains_with_vector_matches() {
    raise(expect(vec![1, 2, 3]).to(contain(1)));
}

#[test]
#[should_panic(expected = "expected [1, 2, 3] to contain 5")]
fn test_contains_with_vector_fails_with_message() {
    raise(expect(vec![1, 2, 3]).to(contain(5)));
}

#[test]
#[should_panic(expected = "expected [1, 2, 3] not to contain 2")]
fn test_negated_contains_with_vector_fails_with_message() {
    raise(expect(vec![1, 2, 3]).to_not(contain(2)));
}

#[test]
fn test_contains_char_in_str_matches() {
    raise(expect("Hello, world!".to_string()).to(contain('H')));
}

#[test]
#[should_panic(expected = "expected \"fe fi fo fum\" to contain 'z'")]
fn test_contains_char_in_str_fails_with_message() {
    raise(expect("fe fi fo fum".to_string()).to(contain('z')));
}

#[test]
#[should_panic(expected = "expected \"fe fi fo fum\" not to contain 'f'")]
fn test_negated_contains_char_in_str_fails_with_message() {
    raise(expect("fe fi fo fum".to_string()).to_not(contain('f')));
}

#[test]
fn test_contains_substring_in_str_matches() {
    raise(expect("Hello, world!").to(contain("Hello")));
}

#[test]
#[should_panic(expected = "expected \"Hello, world!\" to contain \"not-in-there\"")]
fn test_contains_substring_in_str_fails_with_message() {
    raise(expect("Hello, world!").to(contain("not-in-there")));
}

#[test]
#[should_panic(expected = "expected \"Hello, world!\" not to contain \"Hello\"")]
fn test_negated_contains_substring_in_str_fails_with_message() {
    raise(expect("Hello, world!").to_not(contain("Hello")));
}

#[test]
fn test_contains_substring_in_string_matches() {
    raise(expect("Hello, world!".to_string()).to(contain("Hello")));
}

#[test]
#[should_panic(expected = "expected \"Hello, world!\" to contain \"not-in-there\"")]
fn test_contains_substring_in_string_fails_with_message() {
    raise(expect("Hello, world!".to_string()).to(contain("not-in-there")));
}

#[test]
#[should_panic(expected = "expected \"Hello, world!\" not to contain \"Hello\"")]
fn test_negated_contains_substring_in_string_fails_with_message() {
    raise(expect("Hello, world!".to_string()).to_not(contain("Hello")));
}

#[test]
fn test_contains_string_substring_in_str_matches() {
    raise(expect("Hello, world!").to(contain("Hello".to_string())));
}

#[test]
#[should_panic(expected = "expected \"Hello, world!\" to contain \"not-in-there\"")]
fn test_contains_string_substring_in_str_fails_with_message() {
    raise(expect("Hello, world!").to(contain("not-in-there".to_string())));
}

#[test]
#[should_panic(expected = "expected \"Hello, world!\" not to contain \"Hello\"")]
fn test_negated_contains_string_substring_in_str_fails_with_message() {
    raise(expect("Hello, world!").to_not(contain("Hello".to_string())));
}

#[test]
fn test_contains_string_substring_in_string_matches() {
    raise(expect("Hello, world!".to_string()).to(contain("Hello".to_string())));
}

#[test]
#[should_panic(expected = "expected \"fe fi fo fum\" to contain \"substring\"")]
fn test_contains_string_substring_in_string_fails_with_message() {
    raise(expect("fe fi fo fum".to_string()).to(contain("substring".to_string())));
}

#[test]
#[should_panic(expected = "expected \"fe fi fo fum\" not to contain \"fum\"")]
fn test_negated_contains_string_substring_in_string_fails_with_message() {
    raise(expect("fe fi fo fum".to_string()).to_not(contain("fum".to_string())));
}
