//! Text that the ledger produces: order numbers, slugs and decimal numerals.

use vstd::prelude::*;

verus! {

/// Relies on `String::push`: appends one character.
#[verifier::external_body]
pub(crate) fn push_char(s: &mut String, c: char)
    ensures
        final(s)@ == old(s)@.push(c),
{
    s.push(c)
}

pub open spec fn is_hex_lower(c: char) -> bool {
    ('0' <= c && c <= '9') || ('a' <= c && c <= 'f')
}

pub open spec fn is_upper_alnum(c: char) -> bool {
    ('0' <= c && c <= '9') || ('A' <= c && c <= 'Z')
}

pub open spec fn is_alnum(c: char) -> bool {
    ('0' <= c && c <= '9') || ('A' <= c && c <= 'Z') || ('a' <= c && c <= 'z')
}

/// ASCII upper case of a character; others are kept.
pub open spec fn upper(c: char) -> char {
    if 'a' <= c && c <= 'z' {
        ((c as u32) - 32) as char
    } else {
        c
    }
}

pub fn to_upper(c: char) -> (r: char)
    ensures
        r == upper(c),
{
    if 'a' <= c && c <= 'z' {
        ((c as u32 - 32) as u8) as char
    } else {
        c
    }
}

/// `ORD-` followed by eight upper-case letters or digits.
pub open spec fn is_order_number(s: Seq<char>) -> bool {
    &&& s.len() == 12
    &&& s.take(4) == seq!['O', 'R', 'D', '-']
    &&& forall|i: int| 4 <= i < 12 ==> is_upper_alnum(#[trigger] s[i])
}

/// The order number made from a token: `ORD-` and the token's first eight
/// characters in upper case.
pub open spec fn order_number_of(token: Seq<char>) -> Seq<char> {
    seq!['O', 'R', 'D', '-'] + token.take(8).map_values(|c: char| upper(c))
}

/// The order number made from a token of at least eight letters or digits.
pub fn order_number_from_token(token: &str) -> (r: Option<String>)
    ensures
        match r {
            Some(n) => {
                &&& token@.len() >= 8
                &&& (forall|i: int| 0 <= i < 8 ==> is_alnum(#[trigger] token@[i]))
                &&& n@ == order_number_of(token@)
                &&& is_order_number(n@)
            },
            None => token@.len() < 8 || exists|i: int| 0 <= i < 8 && !is_alnum(#[trigger] token@[i]),
        },
{
    let len = token.unicode_len();
    if len < 8 {
        return None;
    }
    let mut n = String::new();
    push_char(&mut n, 'O');
    push_char(&mut n, 'R');
    push_char(&mut n, 'D');
    push_char(&mut n, '-');
    let mut i: usize = 0;
    while i < 8
        invariant
            i <= 8,
            token@.len() >= 8,
            forall|k: int| 0 <= k < i ==> is_alnum(#[trigger] token@[k]),
            n@ == seq!['O', 'R', 'D', '-'] + token@.take(i as int).map_values(|c: char| upper(c)),
        decreases 8 - i,
    {
        let c = token.get_char(i);
        if !(('0' <= c && c <= '9') || ('A' <= c && c <= 'Z') || ('a' <= c && c <= 'z')) {
            return None;
        }
        push_char(&mut n, to_upper(c));
        proof {
            assert(token@.take((i + 1) as int).map_values(|c: char| upper(c)) =~= token@.take(i as int).map_values(
                |c: char| upper(c),
            ).push(upper(c)));
        }
        i += 1;
    }
    proof {
        assert(n@.take(4) =~= seq!['O', 'R', 'D', '-']);
        assert forall|k: int| 4 <= k < 12 implies is_upper_alnum(#[trigger] n@[k]) by {
            assert(n@[k] == upper(token@[k - 4]));
            assert(is_alnum(token@[k - 4]));
        }
    }
    Some(n)
}

/// Relies on `uuid::Uuid::new_v4` and its `Display`, which writes the
/// hyphenated form: 36 characters whose first eight are lower-case hex digits.
#[verifier::external_body]
fn random_token() -> (r: String)
    ensures
        r@.len() == 36,
        forall|i: int| 0 <= i < 8 ==> is_hex_lower(#[trigger] r@[i]),
{
    uuid::Uuid::new_v4().to_string()
}

/// A fresh order number from a random token.
pub fn generate_order_number() -> (r: String)
    ensures
        is_order_number(r@),
{
    let token = random_token();
    assert forall|i: int| 0 <= i < 8 implies is_alnum(#[trigger] token@[i]) by {
        assert(is_hex_lower(token@[i]));
    }
    match order_number_from_token(token.as_str()) {
        Some(n) => n,
        None => {
            proof {
                assert(false);
            }
            String::new()
        },
    }
}

/// What `slug::slugify` makes of a text.
pub uninterp spec fn slug_of(s: Seq<char>) -> Seq<char>;

pub open spec fn is_slug_char(c: char) -> bool {
    ('a' <= c && c <= 'z') || ('0' <= c && c <= '9') || c == '-'
}

/// Relies on `slug::slugify`: its result depends on the text alone, holds
/// only `a`-`z`, `0`-`9` and `-`, and neither starts nor ends with `-`.
#[verifier::external_body]
fn slugify_text(s: &str) -> (r: String)
    ensures
        r@ == slug_of(s@),
        forall|i: int| 0 <= i < r@.len() ==> is_slug_char(#[trigger] r@[i]),
        r@.len() > 0 ==> r@[0] != '-' && r@.last() != '-',
{
    slug::slugify(s)
}

/// A URL-friendly slug of a text.
pub fn generate_slug(text: &str) -> (r: String)
    ensures
        r@ == slug_of(text@),
        forall|i: int| 0 <= i < r@.len() ==> is_slug_char(#[trigger] r@[i]),
{
    slugify_text(text)
}

/// The decimal digits of a natural number, most significant first.
pub open spec fn digits(n: nat) -> Seq<char>
    decreases n,
{
    if n < 10 {
        seq![((n + 48) as u8) as char]
    } else {
        digits(n / 10).push((((n % 10) + 48) as u8) as char)
    }
}

/// The decimal numeral of an integer, with a leading `-` when negative.
pub open spec fn numeral(n: int) -> Seq<char> {
    if n < 0 { seq!['-'] + digits((-n) as nat) } else { digits(n as nat) }
}

fn push_digits(s: &mut String, n: u32)
    ensures
        final(s)@ == old(s)@ + digits(n as nat),
    decreases n,
{
    if n < 10 {
        push_char(s, ((n + 48) as u8) as char);
        assert(digits(n as nat) =~= seq![((n + 48) as u8) as char]);
    } else {
        push_digits(s, n / 10);
        push_char(s, (((n % 10) + 48) as u8) as char);
        assert(digits(n as nat) =~= digits((n / 10) as nat).push((((n % 10) + 48) as u8) as char));
    }
}

/// Appends the numeral of an integer.
pub fn push_numeral(s: &mut String, n: i32)
    ensures
        final(s)@ == old(s)@ + numeral(n as int),
{
    if n < 0 {
        push_char(s, '-');
        let m: u32 = if n == i32::MIN { 0x8000_0000 } else { (-n) as u32 };
        push_digits(s, m);
    } else {
        push_digits(s, n as u32);
    }
}

/// A slug with a counter appended when the counter is not zero, to tell
/// apart texts with the same slug.
pub fn generate_slug_with_counter(text: &str, counter: i32) -> (r: String)
    ensures
        counter == 0 ==> r@ == slug_of(text@),
        counter != 0 ==> r@ == slug_of(text@) + seq!['-'] + numeral(counter as int),
{
    let mut r = generate_slug(text);
    if counter != 0 {
        push_char(&mut r, '-');
        push_numeral(&mut r, counter);
    }
    r
}

} // verus!
