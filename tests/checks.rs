use oxidize::dsl::{
    all_of, any_of, be_false, contain, empty, equal, expect, greater_than, less_than, match_regex,
    none, not, some,
};
use oxidize::matchers::{Collection, Equal, Matcher, Not};
use oxidize::text::{same_text, text_has_char, text_has_infix};

#[test]
fn equal_strings_match_and_refuse_negation() {
    assert_eq!(expect("abc".to_string()).to(equal("abc".to_string())), Ok(()));
    assert_eq!(
        expect("abc".to_string()).to_not(equal("abc".to_string())),
        Err("expected \"abc\" not to equal \"abc\"".to_string())
    );
    assert_eq!(
        expect("abc".to_string()).is_not(equal("abc".to_string())),
        Err("expected \"abc\" not to equal \"abc\"".to_string())
    );
}

#[test]
fn unequal_values_name_both_sides() {
    let msg = expect(3).to(equal(4)).unwrap_err();
    assert_eq!(msg, "\nexpected: 3\n     got: 4\n");
    assert!(!Equal(4).matches(&3));
    assert!(msg.contains('3') && msg.contains('4'));
}

#[test]
fn capture_one_check_equal_two_then_one() {
    let e = expect(1);
    let failed = e.to(equal(2)).unwrap_err();
    assert!(failed.contains('1') && failed.contains('2'));
    assert_eq!(e.to(equal(1)), Ok(()));
}

#[test]
fn absent_value_is_none_and_negation_names_presence() {
    let n: Option<i32> = None;
    assert_eq!(expect(n).is(none()), Ok(()));
    assert_eq!(expect(n).is_not(none()), Err("expected None to be Some<i32>".to_string()));
}

#[test]
fn one_multibyte_character_is_not_empty() {
    assert_eq!(expect("é").is_not(empty()), Ok(()));
    assert_eq!(
        expect("日本".to_string()).is(empty()),
        Err("expected \"日本\" to be empty".to_string())
    );
    assert_eq!("日本".to_string().match_len(), 2);
    assert_eq!("é".match_len(), 1);
    assert_eq!(vec![1u8, 2, 3].match_len(), 3);
}

#[test]
fn empty_vec_of_strings_is_empty() {
    assert_eq!(expect(Vec::<String>::new()).is(empty()), Ok(()));
    assert_eq!(expect(vec![7]).is_not(empty()), Ok(()));
}

#[test]
fn text_contains_substrings_by_character() {
    assert_eq!(expect("Hello, world!").to(contain("Hello")), Ok(()));
    assert_eq!(expect("Hello, world!").to_not(contain("not-in-there")), Ok(()));
    assert_eq!(expect("日本語").to(contain("本")), Ok(()));
    assert_eq!(expect("日本語").to(contain('語')), Ok(()));
    assert_eq!(expect("abc").to(contain("")), Ok(()));
    assert_eq!(expect("").to_not(contain("a")), Ok(()));
    assert_eq!(expect("ab").to_not(contain("abc")), Ok(()));
    assert_eq!(expect("abab".to_string()).to(contain("bab".to_string())), Ok(()));
}

#[test]
fn text_scans_find_what_is_there() {
    assert!(text_has_infix("Hello, world!", "world"));
    assert!(!text_has_infix("Hello, world!", "World"));
    assert!(text_has_infix("aab", "ab"));
    assert!(text_has_char("fe fi", 'i'));
    assert!(!text_has_char("fe fi", 'z'));
    assert!(same_text("日本", "日本"));
    assert!(!same_text("日本", "日"));
}

#[test]
fn vec_contains_an_equal_item() {
    assert_eq!(expect(vec!["a".to_string(), "b".to_string()]).to(contain("b".to_string())), Ok(()));
    assert_eq!(
        expect(vec!["a".to_string()]).to(contain("b".to_string())),
        Err("expected [\"a\"] to contain \"b\"".to_string())
    );
    let nothing: Vec<i64> = Vec::new();
    assert_eq!(expect(nothing).to(contain(1i64)), Err("expected [] to contain 1".to_string()));
}

#[test]
fn bounds_are_strict() {
    assert_eq!(expect(5).is_not(less_than(5)), Ok(()));
    assert_eq!(expect(5).is_not(greater_than(5)), Ok(()));
    assert_eq!(expect(5).is(less_than(5)), Err("expected 5 to be less than 5".to_string()));
    assert_eq!(expect(5).is(greater_than(5)), Err("expected 5 to be greater than 5".to_string()));
    assert_eq!(expect('a').is(less_than('b')), Ok(()));
}

#[test]
fn integers_print_in_decimal() {
    assert_eq!(
        expect(-120).is(less_than(-200)),
        Err("expected -120 to be less than -200".to_string())
    );
    assert_eq!(
        expect(i64::MIN).is(greater_than(0i64)),
        Err("expected -9223372036854775808 to be greater than 0".to_string())
    );
    assert_eq!(
        expect(u64::MAX).is(less_than(10u64)),
        Err("expected 18446744073709551615 to be less than 10".to_string())
    );
    assert_eq!(expect(0usize).to(equal(10usize)), Err("\nexpected: 0\n     got: 10\n".to_string()));
}

#[test]
fn all_of_lists_every_child_message() {
    assert!(all_of(vec![less_than(1000), greater_than(1)]).matches(&5));
    let m = all_of(vec![less_than(1000), greater_than(10)]);
    assert!(!m.matches(&5));
    assert_eq!(
        m.fail_msg(&5),
        "expected all of [\"expected 5 to be less than 1000\", \"expected 5 to be greater than 10\"]"
    );
    assert_eq!(
        expect(5).to_not(all_of(vec![less_than(1000), greater_than(1)])),
        Err("expected not all of [\"expected 5 to be greater than or equal to 1000\", \"expected 5 to be less than or equal to 1\"]".to_string())
    );
}

#[test]
fn any_of_lists_every_child_message() {
    let m = any_of(vec![less_than(0), greater_than(100)]);
    assert!(!m.matches(&5));
    assert_eq!(
        m.fail_msg(&5),
        "expected one of [\"expected 5 to be less than 0\", \"expected 5 to be greater than 100\"]"
    );
    assert_eq!(
        expect(5).to_not(any_of(vec![less_than(10), greater_than(100)])),
        Err("expected none of [\"expected 5 to be greater than or equal to 10\", \"expected 5 to be less than or equal to 100\"]".to_string())
    );
    assert_eq!(expect(5).to(any_of(Vec::new())), Err("expected one of []".to_string()));
    assert_eq!(expect(5).to(all_of(Vec::new())), Ok(()));
}

#[test]
fn negation_inverts_and_double_negation_restores() {
    assert!(!not(equal(1)).matches(&1));
    assert!(not(not(equal(1))).matches(&1));
    assert!(Not(Box::new(Equal(2))).matches(&1));
    assert_eq!(
        expect(1).to(not(equal(1))),
        Err("not \nexpected: 1\n     got: 1\n".to_string())
    );
    assert_eq!(
        expect(1).to_not(not(equal(2))),
        Err("\nexpected: 1\n     got: 2\n".to_string())
    );
}

#[test]
fn invalid_pattern_matches_nothing() {
    assert_eq!(
        expect("abc").to(match_regex("(")),
        Err("expected \"abc\" to match \"(\"".to_string())
    );
    assert_eq!(expect("abc").to_not(match_regex("(")), Ok(()));
    assert_eq!(expect("abc".to_string()).to(match_regex("^a.c$")), Ok(()));
    assert_eq!(expect("xabcx").to(match_regex("b")), Ok(()));
}

#[test]
fn optional_messages_name_the_type() {
    let n: Option<String> = None;
    assert_eq!(
        expect(n).is(some()),
        Err("expected None to be Some<alloc::string::String>".to_string())
    );
    let v: Option<Vec<u8>> = Some(vec![1]);
    assert_eq!(expect(v).is(none()), Err("expected Some([1]) to be None".to_string()));
}

#[test]
fn quotes_are_escaped_in_messages() {
    assert_eq!(
        expect("a\"b".to_string()).to(contain('\'')),
        Err("expected \"a\\\"b\" to contain '\\''".to_string())
    );
    assert_eq!(
        expect("tab\there").to(contain("\n")),
        Err("expected \"tab\\there\" to contain \"\\n\"".to_string())
    );
}

#[test]
fn containers_compare_item_by_item() {
    assert_eq!(expect(vec![1, 2]).to(equal(vec![1, 2])), Ok(()));
    assert_eq!(
        expect(vec![1, 2]).to(equal(vec![1, 3])),
        Err("\nexpected: [1, 2]\n     got: [1, 3]\n".to_string())
    );
    assert_eq!(expect(vec![1]).to_not(equal(vec![1, 1])), Ok(()));
    assert_eq!(expect(Some(1)).to(equal(Some(1))), Ok(()));
    assert_eq!(expect(None::<u8>).to_not(equal(Some(1u8))), Ok(()));
    assert_eq!(expect(true).to(equal(true)), Ok(()));
    assert_eq!(expect(true).is(be_false()), Err("\nexpected: false\n     got: true\n".to_string()));
}

#[test]
fn boxed_trait_objects_can_be_checked() {
    let m: Box<dyn Matcher<i32>> = less_than(3);
    assert_eq!(expect(2).to(m), Ok(()));
    let n: Box<dyn Matcher<i32>> = equal(3);
    assert_eq!(expect(2).to(not(n)), Ok(()));
}
