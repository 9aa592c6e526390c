use oxidize::dsl::{expect, match_regex};

fn raise(r: Result<(), String>) {
    if let Err(msg) = r {
        panic!("{}", msg);
    }
}

#[test]
fn test_match_regex_matches() {
    raise(expect("Hello").to(match_regex(r"..ll.")));
}

#[test]
#[should_panic(expected = "expected \"Hello\" to match \".\\\\o/.\"")]
fn test_match_regex_fails_with_message() {
    raise(expect("Hello").to(match_regex(".\\o/.")));
}

#[test]
#[should_panic(expected = "expected \"-\\\\o/-\" not to match \".....\"")]
fn test_negated_match_regex_fails_with_message() {
    raise(expect("-\\o/-").to_not(match_regex(".....")));
}

#[test]
fn regex_test_match_regex_matches() {
    raise(expect("Hello".to_string()).to(match_regex(r"..ll.")));
}

#[test]
#[should_panic(expected = "expected \"Hello\" to match \".\\\\o/.\"")]
fn regex_test_match_regex_fails_with_message() {
    raise(expect("Hello".to_string()).to(match_regex(".\\o/.")));
}

#[test]
#[should_panic(expected = "expected \"-\\\\o/-\" not to match \".....\"")]
fn regex_test_negated_match_regex_fails_with_message() {
    raise(expect("-\\o/-".to_string()).to_not(match_regex(".....")));
}
