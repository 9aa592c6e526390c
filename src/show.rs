//! How values read inside failure messages.
use vstd::prelude::*;

verus! {

/// The text of a string as `{:?}` prints it: quoted, with special characters escaped.
pub uninterp spec fn quoted(s: Seq<char>) -> Seq<char>;

/// The text of a character as `{:?}` prints it: in single quotes, escaped.
pub uninterp spec fn quoted_char(c: char) -> Seq<char>;

/// Relies on `<str as Debug>::fmt`: the quoted, escaped form depends on the characters alone.
#[verifier::external_body]
pub(crate) fn quote(s: &str) -> (r: String)
    ensures
        r@ == quoted(s@),
{
    format!("{:?}", s)
}

/// Relies on `<char as Debug>::fmt`: the quoted, escaped form depends on the character alone.
#[verifier::external_body]
pub(crate) fn quote_char(c: char) -> (r: String)
    ensures
        r@ == quoted_char(c),
{
    format!("{:?}", c)
}

/// Relies on `String::push`: it appends the one character to the end.
pub assume_specification[ String::push ](s: &mut String, ch: char)
    ensures
        final(s)@ == old(s)@.push(ch),
;

/// The decimal digit for `d < 10`.
pub open spec fn digit(d: nat) -> char {
    if d == 0 { '0' }
    else if d == 1 { '1' }
    else if d == 2 { '2' }
    else if d == 3 { '3' }
    else if d == 4 { '4' }
    else if d == 5 { '5' }
    else if d == 6 { '6' }
    else if d == 7 { '7' }
    else if d == 8 { '8' }
    else { '9' }
}

/// The decimal digits of `n`, most significant first, without leading zeros.
pub open spec fn digits(n: nat) -> Seq<char>
    decreases n,
{
    if n < 10 {
        seq![digit(n)]
    } else {
        digits(n / 10).push(digit(n % 10))
    }
}

/// An integer in decimal, with a leading `-` when it is negative.
pub open spec fn decimal(n: int) -> Seq<char> {
    if n < 0 {
        seq!['-'] + digits((-n) as nat)
    } else {
        digits(n as nat)
    }
}

fn digit_char(d: u8) -> (c: char)
    requires
        d < 10,
    ensures
        c == digit(d as nat),
{
    if d == 0 { '0' }
    else if d == 1 { '1' }
    else if d == 2 { '2' }
    else if d == 3 { '3' }
    else if d == 4 { '4' }
    else if d == 5 { '5' }
    else if d == 6 { '6' }
    else if d == 7 { '7' }
    else if d == 8 { '8' }
    else { '9' }
}

fn push_digits(s: &mut String, n: u128)
    ensures
        final(s)@ == old(s)@ + digits(n as nat),
    decreases n,
{
    if n >= 10 {
        push_digits(s, n / 10);
    }
    s.push(digit_char((n % 10) as u8));
    assert(final(s)@ =~= old(s)@ + digits(n as nat));
}

/// Writes a non-negative integer in decimal.
pub fn unsigned_text(n: u128) -> (r: String)
    ensures
        r@ == decimal(n as int),
{
    let mut s = String::new();
    push_digits(&mut s, n);
    assert(s@ =~= decimal(n as int));
    s
}

/// Writes an integer in decimal, with a leading `-` when it is negative.
pub fn signed_text(n: i128) -> (r: String)
    requires
        n > i128::MIN,
    ensures
        r@ == decimal(n as int),
{
    let mut s = String::new();
    if n < 0 {
        s.push('-');
        push_digits(&mut s, (-n) as u128);
    } else {
        push_digits(&mut s, n as u128);
    }
    assert(s@ =~= decimal(n as int));
    s
}

/// The items of a list, separated by `, `.
pub open spec fn joined(items: Seq<Seq<char>>) -> Seq<char>
    decreases items.len(),
{
    if items.len() == 0 {
        Seq::empty()
    } else if items.len() == 1 {
        items[0]
    } else {
        joined(items.drop_last()) + seq![',', ' '] + items.last()
    }
}

/// A list as `{:?}` prints a slice: its items between brackets, separated by `, `.
pub open spec fn listed(items: Seq<Seq<char>>) -> Seq<char> {
    seq!['['] + joined(items) + seq![']']
}

/// The texts of some strings.
pub open spec fn texts(parts: Seq<String>) -> Seq<Seq<char>> {
    parts.map_values(|p: String| p@)
}

/// Writes texts as a list: between brackets, separated by `, `.
pub fn bracketed(parts: &Vec<String>) -> (r: String)
    ensures
        r@ == listed(texts(parts@)),
{
    let mut s = String::new();
    s.push('[');
    let mut i: usize = 0;
    while i < parts.len()
        invariant
            i <= parts@.len(),
            s@ == seq!['['] + joined(texts(parts@.take(i as int))),
        decreases parts@.len() - i,
    {
        if i > 0 {
            s.push(',');
            s.push(' ');
        }
        s.append(parts[i].as_str());
        proof {
            let before = texts(parts@.take(i as int));
            let after = texts(parts@.take(i + 1));
            assert(after.drop_last() =~= before);
            assert(after.last() == parts@[i as int]@);
        }
        i = i + 1;
    }
    s.push(']');
    assert(parts@.take(parts@.len() as int) =~= parts@);
    s
}

/// A value that can be written into a failure message.
///
/// An impl that does not override `obeys_show_spec` (as an impl written
/// outside verified code cannot) promises nothing about what its methods
/// return.
pub trait Show {
    /// Whether `show` and `label_text` are known to return `shown` and
    /// `type_label`.
    open spec fn obeys_show_spec() -> bool {
        false
    }

    /// The text of the value, as `{:?}` prints it.
    open spec fn shown(&self) -> Seq<char> {
        Seq::empty()
    }

    /// The name of the type, as it stands in messages on optional values.
    open spec fn type_label() -> Seq<char> {
        Seq::empty()
    }

    fn show(&self) -> (r: String)
        ensures
            Self::obeys_show_spec() ==> r@ == self.shown(),
    ;

    fn label_text() -> (r: String)
        ensures
            Self::obeys_show_spec() ==> r@ == Self::type_label(),
    ;
}

impl Show for i8 {
    open spec fn obeys_show_spec() -> bool {
        true
    }

    open spec fn shown(&self) -> Seq<char> {
        decimal(*self as int)
    }

    open spec fn type_label() -> Seq<char> {
        "i8"@
    }

    fn show(&self) -> (r: String) {
        signed_text(*self as i128)
    }

    fn label_text() -> (r: String) {
        String::from_str("i8")
    }
}

impl Show for i16 {
    open spec fn obeys_show_spec() -> bool {
        true
    }

    open spec fn shown(&self) -> Seq<char> {
        decimal(*self as int)
    }

    open spec fn type_label() -> Seq<char> {
        "i16"@
    }

    fn show(&self) -> (r: String) {
        signed_text(*self as i128)
    }

    fn label_text() -> (r: String) {
        String::from_str("i16")
    }
}

impl Show for i32 {
    open spec fn obeys_show_spec() -> bool {
        true
    }

    open spec fn shown(&self) -> Seq<char> {
        decimal(*self as int)
    }

    open spec fn type_label() -> Seq<char> {
        "i32"@
    }

    fn show(&self) -> (r: String) {
        signed_text(*self as i128)
    }

    fn label_text() -> (r: String) {
        String::from_str("i32")
    }
}

impl Show for i64 {
    open spec fn obeys_show_spec() -> bool {
        true
    }

    open spec fn shown(&self) -> Seq<char> {
        decimal(*self as int)
    }

    open spec fn type_label() -> Seq<char> {
        "i64"@
    }

    fn show(&self) -> (r: String) {
        signed_text(*self as i128)
    }

    fn label_text() -> (r: String) {
        String::from_str("i64")
    }
}

impl Show for isize {
    open spec fn obeys_show_spec() -> bool {
        true
    }

    open spec fn shown(&self) -> Seq<char> {
        decimal(*self as int)
    }

    open spec fn type_label() -> Seq<char> {
        "isize"@
    }

    fn show(&self) -> (r: String) {
        signed_text(*self as i128)
    }

    fn label_text() -> (r: String) {
        String::from_str("isize")
    }
}

impl Show for u8 {
    open spec fn obeys_show_spec() -> bool {
        true
    }

    open spec fn shown(&self) -> Seq<char> {
        decimal(*self as int)
    }

    open spec fn type_label() -> Seq<char> {
        "u8"@
    }

    fn show(&self) -> (r: String) {
        unsigned_text(*self as u128)
    }

    fn label_text() -> (r: String) {
        String::from_str("u8")
    }
}

impl Show for u16 {
    open spec fn obeys_show_spec() -> bool {
        true
    }

    open spec fn shown(&self) -> Seq<char> {
        decimal(*self as int)
    }

    open spec fn type_label() -> Seq<char> {
        "u16"@
    }

    fn show(&self) -> (r: String) {
        unsigned_text(*self as u128)
    }

    fn label_text() -> (r: String) {
        String::from_str("u16")
    }
}

impl Show for u32 {
    open spec fn obeys_show_spec() -> bool {
        true
    }

    open spec fn shown(&self) -> Seq<char> {
        decimal(*self as int)
    }

    open spec fn type_label() -> Seq<char> {
        "u32"@
    }

    fn show(&self) -> (r: String) {
        unsigned_text(*self as u128)
    }

    fn label_text() -> (r: String) {
        String::from_str("u32")
    }
}

impl Show for u64 {
    open spec fn obeys_show_spec() -> bool {
        true
    }

    open spec fn shown(&self) -> Seq<char> {
        decimal(*self as int)
    }

    open spec fn type_label() -> Seq<char> {
        "u64"@
    }

    fn show(&self) -> (r: String) {
        unsigned_text(*self as u128)
    }

    fn label_text() -> (r: String) {
        String::from_str("u64")
    }
}

impl Show for usize {
    open spec fn obeys_show_spec() -> bool {
        true
    }

    open spec fn shown(&self) -> Seq<char> {
        decimal(*self as int)
    }

    open spec fn type_label() -> Seq<char> {
        "usize"@
    }

    fn show(&self) -> (r: String) {
        unsigned_text(*self as u128)
    }

    fn label_text() -> (r: String) {
        String::from_str("usize")
    }
}

impl Show for bool {
    open spec fn obeys_show_spec() -> bool {
        true
    }

    open spec fn shown(&self) -> Seq<char> {
        if *self {
            "true"@
        } else {
            "false"@
        }
    }

    open spec fn type_label() -> Seq<char> {
        "bool"@
    }

    fn show(&self) -> (r: String) {
        if *self {
            String::from_str("true")
        } else {
            String::from_str("false")
        }
    }

    fn label_text() -> (r: String) {
        String::from_str("bool")
    }
}

impl Show for char {
    open spec fn obeys_show_spec() -> bool {
        true
    }

    open spec fn shown(&self) -> Seq<char> {
        quoted_char(*self)
    }

    open spec fn type_label() -> Seq<char> {
        "char"@
    }

    fn show(&self) -> (r: String) {
        quote_char(*self)
    }

    fn label_text() -> (r: String) {
        String::from_str("char")
    }
}

impl Show for String {
    open spec fn obeys_show_spec() -> bool {
        true
    }

    open spec fn shown(&self) -> Seq<char> {
        quoted(self@)
    }

    open spec fn type_label() -> Seq<char> {
        "alloc::string::String"@
    }

    fn show(&self) -> (r: String) {
        quote(self.as_str())
    }

    fn label_text() -> (r: String) {
        String::from_str("alloc::string::String")
    }
}

impl<'a> Show for &'a str {
    open spec fn obeys_show_spec() -> bool {
        true
    }

    open spec fn shown(&self) -> Seq<char> {
        quoted(self@)
    }

    open spec fn type_label() -> Seq<char> {
        "&str"@
    }

    fn show(&self) -> (r: String) {
        quote(*self)
    }

    fn label_text() -> (r: String) {
        String::from_str("&str")
    }
}

/// The texts of the items of a sequence.
pub open spec fn shown_items<T: Show>(items: Seq<T>) -> Seq<Seq<char>> {
    items.map_values(|x: T| x.shown())
}

impl<T: Show> Show for Vec<T> {
    open spec fn obeys_show_spec() -> bool {
        T::obeys_show_spec()
    }

    open spec fn shown(&self) -> Seq<char> {
        listed(shown_items(self@))
    }

    open spec fn type_label() -> Seq<char> {
        "alloc::vec::Vec<"@ + T::type_label() + ">"@
    }

    fn show(&self) -> (r: String) {
        let mut parts: Vec<String> = Vec::new();
        let mut i: usize = 0;
        while i < self.len()
            invariant
                i <= self@.len(),
                T::obeys_show_spec() ==> texts(parts@) =~= shown_items(self@.take(i as int)),
            decreases self@.len() - i,
        {
            let t = self[i].show();
            let ghost before = parts@;
            parts.push(t);
            proof {
                assert(texts(parts@) =~= texts(before).push(t@));
                assert(self@.take(i + 1) =~= self@.take(i as int).push(self@[i as int]));
            }
            i = i + 1;
        }
        assert(self@.take(self@.len() as int) =~= self@);
        bracketed(&parts)
    }

    fn label_text() -> (r: String) {
        let mut s = String::from_str("alloc::vec::Vec<");
        let inner = T::label_text();
        s.append(inner.as_str());
        s.append(">");
        s
    }
}

impl<T: Show> Show for Option<T> {
    open spec fn obeys_show_spec() -> bool {
        T::obeys_show_spec()
    }

    open spec fn shown(&self) -> Seq<char> {
        match self {
            None => "None"@,
            Some(x) => "Some("@ + x.shown() + ")"@,
        }
    }

    open spec fn type_label() -> Seq<char> {
        "core::option::Option<"@ + T::type_label() + ">"@
    }

    fn show(&self) -> (r: String) {
        match self {
            None => String::from_str("None"),
            Some(x) => {
                let mut s = String::from_str("Some(");
                let inner = x.show();
                s.append(inner.as_str());
                s.append(")");
                s
            },
        }
    }

    fn label_text() -> (r: String) {
        let mut s = String::from_str("core::option::Option<");
        let inner = T::label_text();
        s.append(inner.as_str());
        s.append(">");
        s
    }
}

} // verus!
