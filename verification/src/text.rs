//! Small text helpers: decimal numerals and case folding.
use vstd::prelude::*;

verus! {

/// The ASCII digit character for `d < 10`.
pub open spec fn digit_char(d: nat) -> char {
    ((d + 48) as u8) as char
}

/// The decimal numeral of `n`, without leading zeros.
pub open spec fn decimal_text(n: nat) -> Seq<char>
    decreases n,
{
    if n < 10 {
        seq![digit_char(n)]
    } else {
        decimal_text(n / 10).push(digit_char(n % 10))
    }
}

/// The number that a run of decimal digit characters denotes.
pub open spec fn digits_value(s: Seq<char>) -> nat
    decreases s.len(),
{
    if s.len() == 0 {
        0
    } else {
        digits_value(s.drop_last()) * 10 + ((s.last() as u32 - 48) as nat)
    }
}

proof fn lemma_digit_char_code(d: nat)
    requires
        d < 10,
    ensures
        digit_char(d) as u32 == d + 48,
        '0' <= digit_char(d) <= '9',
{
}

/// The decimal numeral of `n` is made of digits only, has no leading zero,
/// and denotes `n`.
pub proof fn lemma_decimal_text_denotes(n: nat)
    ensures
        digits_value(decimal_text(n)) == n,
        decimal_text(n).len() >= 1,
        decimal_text(n).len() > 1 <==> n >= 10,
        forall|i: int| 0 <= i < decimal_text(n).len() ==> '0' <= #[trigger] decimal_text(n)[i] <= '9',
        decimal_text(n).len() > 1 ==> decimal_text(n)[0] != '0',
    decreases n,
{
    if n < 10 {
        lemma_digit_char_code(n);
        assert(decimal_text(n).drop_last() =~= Seq::<char>::empty());
        assert(digits_value(decimal_text(n)) == digits_value(Seq::<char>::empty()) * 10 + ((
        digit_char(n) as u32 - 48) as nat));
    } else {
        let q = n / 10;
        lemma_decimal_text_denotes(q);
        let d = n % 10;
        lemma_digit_char_code(d);
        let t = decimal_text(n);
        assert(t.drop_last() =~= decimal_text(q));
        assert(t.last() == digit_char(d));
        assert((t.last() as u32 - 48) as nat == d);
        assert(digits_value(t) == digits_value(decimal_text(q)) * 10 + d);
        assert(n == q * 10 + d);
        assert(t[0] == decimal_text(q)[0]);
        if q < 10 {
            lemma_digit_char_code(q);
            assert(decimal_text(q)[0] as u32 != '0' as u32);
        }
    }
}

fn digit_str(d: u8) -> (s: &'static str)
    requires
        d < 10,
    ensures
        s@ == seq![digit_char(d as nat)],
{
    proof {
        reveal_strlit("0");
        reveal_strlit("1");
        reveal_strlit("2");
        reveal_strlit("3");
        reveal_strlit("4");
        reveal_strlit("5");
        reveal_strlit("6");
        reveal_strlit("7");
        reveal_strlit("8");
        reveal_strlit("9");
    }
    let s = match d {
        0 => "0",
        1 => "1",
        2 => "2",
        3 => "3",
        4 => "4",
        5 => "5",
        6 => "6",
        7 => "7",
        8 => "8",
        _ => "9",
    };
    assert(s@ =~= seq![digit_char(d as nat)]);
    s
}

/// The decimal numeral of a byte value, as `Display` of `u8` writes it.
pub fn u8_decimal(n: u8) -> (text: String)
    ensures
        text@ == decimal_text(n as nat),
{
    if n < 10 {
        String::from_str(digit_str(n))
    } else if n < 100 {
        let text = String::from_str(digit_str(n / 10)).concat(digit_str(n % 10));
        assert(decimal_text(n as nat) =~= decimal_text((n / 10) as nat).push(
            digit_char((n % 10) as nat),
        ));
        text
    } else {
        let text = String::from_str(digit_str(n / 100)).concat(digit_str((n / 10) % 10)).concat(
            digit_str(n % 10),
        );
        assert(decimal_text((n / 10) as nat) =~= decimal_text((n / 100) as nat).push(
            digit_char(((n / 10) % 10) as nat),
        ));
        text
    }
}

/// ASCII upper case of one character: `a`..`z` become `A`..`Z`, every other
/// character stays.
pub open spec fn ascii_upper_char(c: char) -> char {
    if 'a' <= c && c <= 'z' {
        ((c as u32) - 32) as char
    } else {
        c
    }
}

/// ASCII upper case of a text, character by character.
pub open spec fn ascii_upper(s: Seq<char>) -> Seq<char> {
    s.map_values(|c: char| ascii_upper_char(c))
}

/// What `str::to_uppercase` makes of a text (Unicode upper-case mapping).
pub uninterp spec fn spec_to_uppercase(text: Seq<char>) -> Seq<char>;

/// The upper case of a text as `str::to_uppercase` gives it: the ASCII
/// upper case for an all-ASCII text, the Unicode mapping otherwise.
pub open spec fn upper_text(text: Seq<char>) -> Seq<char> {
    if vstd::utf8::is_ascii_chars(text) {
        ascii_upper(text)
    } else {
        spec_to_uppercase(text)
    }
}

/// Calls `str::to_uppercase`.
///
/// Claims that the result is a function of the text alone, named
/// `spec_to_uppercase`, and that on an all-ASCII text it is the ASCII upper
/// case (the Unicode mapping sends `a`..`z` to `A`..`Z` and keeps every other
/// ASCII character). Nothing more is stated of non-ASCII input, where one
/// character may map to several.
#[verifier::external_body]
pub(crate) fn to_uppercase(text: &str) -> (upper: String)
    ensures
        upper@ == spec_to_uppercase(text@),
        vstd::utf8::is_ascii_chars(text@) ==> upper@ == ascii_upper(text@),
        upper@ == upper_text(text@),
{
    text.to_uppercase()
}

/// Whether `c` has the Unicode `White_Space` property (the 25 code points
/// of `PropList.txt`), which is what `char::is_whitespace` and `str::trim`
/// go by.
pub open spec fn is_white_space(c: char) -> bool {
    let u = c as u32;
    (0x9 <= u && u <= 0xd) || u == 0x20 || u == 0x85 || u == 0xa0 || u == 0x1680 || (0x2000 <= u
        && u <= 0x200a) || u == 0x2028 || u == 0x2029 || u == 0x202f || u == 0x205f || u == 0x3000
}

/// Whether every character of `text` is white space (the empty text too).
pub open spec fn is_blank(text: Seq<char>) -> bool {
    forall|i: int| 0 <= i < text.len() ==> is_white_space(#[trigger] text[i])
}

/// Whether `trimmed` is `text` without its leading and trailing white space.
pub open spec fn is_trim_of(trimmed: Seq<char>, text: Seq<char>) -> bool {
    exists|a: int, b: int|
        #![trigger text.subrange(a, b)]
        0 <= a <= b <= text.len() && trimmed == text.subrange(a, b) && (forall|i: int|
            0 <= i < a ==> is_white_space(#[trigger] text[i])) && (forall|i: int|
            b <= i < text.len() ==> is_white_space(#[trigger] text[i])) && (a < b ==> !is_white_space(
            text[a],
        ) && !is_white_space(text[b - 1]))
}

/// Whether `c` has the Unicode `White_Space` property.
pub fn is_white_space_char(c: char) -> (b: bool)
    ensures
        b == is_white_space(c),
{
    let u = c as u32;
    (0x9 <= u && u <= 0xd) || u == 0x20 || u == 0x85 || u == 0xa0 || u == 0x1680 || (0x2000 <= u
        && u <= 0x200a) || u == 0x2028 || u == 0x2029 || u == 0x202f || u == 0x205f || u == 0x3000
}

/// The text without its leading and trailing white space, as `str::trim`
/// gives it.
pub fn trim(text: &str) -> (trimmed: &str)
    ensures
        is_trim_of(trimmed@, text@),
{
    let n = text.unicode_len();
    let mut a: usize = 0;
    while a < n && is_white_space_char(text.get_char(a))
        invariant
            n == text@.len(),
            a <= n,
            forall|i: int| 0 <= i < a ==> is_white_space(#[trigger] text@[i]),
        decreases n - a,
    {
        a = a + 1;
    }
    let mut b: usize = n;
    while b > a && is_white_space_char(text.get_char(b - 1))
        invariant
            n == text@.len(),
            a <= b <= n,
            forall|i: int| b <= i < n ==> is_white_space(#[trigger] text@[i]),
        decreases b - a,
    {
        b = b - 1;
    }
    let trimmed = text.substring_char(a, b);
    assert(0 <= a as int <= b as int <= text@.len() && trimmed@ == text@.subrange(a as int, b as int));
    trimmed
}

/// A text trims to nothing exactly when it is blank.
pub proof fn lemma_trim_empty_iff_blank(trimmed: Seq<char>, text: Seq<char>)
    requires
        is_trim_of(trimmed, text),
    ensures
        trimmed.len() == 0 <==> is_blank(text),
{
    let (a, b) = choose|a: int, b: int|
        #![trigger text.subrange(a, b)]
        0 <= a <= b <= text.len() && trimmed == text.subrange(a, b) && (forall|i: int|
            0 <= i < a ==> is_white_space(#[trigger] text[i])) && (forall|i: int|
            b <= i < text.len() ==> is_white_space(#[trigger] text[i])) && (a < b ==> !is_white_space(
            text[a],
        ) && !is_white_space(text[b - 1]));
    if trimmed.len() == 0 {
        assert forall|i: int| 0 <= i < text.len() implies is_white_space(#[trigger] text[i]) by {
            if i >= a {
                assert(b <= i);
            }
        }
    }
    if is_blank(text) && trimmed.len() != 0 {
        assert(is_white_space(text[a]));
    }
}

/// Whether two texts are equal.
pub fn text_eq(a: &str, b: &str) -> (eq: bool)
    ensures
        eq == (a@ == b@),
{
    let a_owned = String::from_str(a);
    let b_owned = String::from_str(b);
    a_owned == b_owned
}

} // verus!
