//! Identities for shapes, and reading an index from text.

use vstd::prelude::*;
use crate::svg::text::{
    all_digits, digit_value, digits_value, is_digit, lemma_digits_value_grows,
    lemma_nat_text_value, nat_text,
};

verus! {

/// Whether `c` is a decimal digit or one of the letters `a` to `f`.
pub open spec fn is_lower_hex(c: char) -> bool {
    ('0' <= c <= '9') || ('a' <= c <= 'f')
}

/// Whether `i` is one of the four places where an identity has a hyphen.
pub open spec fn is_hyphen_place(i: int) -> bool {
    i == 8 || i == 13 || i == 18 || i == 23
}

/// The shape of a random identity: 36 characters in five groups of lower-case
/// hexadecimal digits with hyphens between them, where the third group
/// starts with the version digit `4` and the fourth with the variant digit
/// `8`, `9`, `a` or `b`.
pub open spec fn is_uuid_text(s: Seq<char>) -> bool {
    &&& s.len() == 36
    &&& forall|i: int|
        0 <= i < 36 ==> if is_hyphen_place(i) {
            #[trigger] s[i] == '-'
        } else {
            is_lower_hex(s[i])
        }
    &&& s[14] == '4'
    &&& (s[19] == '8' || s[19] == '9' || s[19] == 'a' || s[19] == 'b')
}

/// A fresh random identity.
///
/// Trusted: the body calls `uuid::Uuid::new_v4` and writes the result with
/// the `Display` impl of `uuid::Uuid`. `new_v4` draws 128 random bits and
/// sets the version and variant bits; `Display` writes the lower-case
/// hyphenated form. The contract claims only that form, which holds of every
/// draw; two calls may return different identities. `new_v4` panics if the
/// operating system cannot supply random bytes.
#[verifier::external_body]
pub fn gen_uuid() -> (id: String)
    ensures
        is_uuid_text(id@),
{
    uuid::Uuid::new_v4().to_string()
}

/// The byte of the plus sign.
pub const PLUS: u8 = 43;

/// The byte of the digit `0`.
pub const DIGIT_ZERO: u8 = 48;

/// The byte of the digit `9`.
pub const DIGIT_NINE: u8 = 57;

/// The text without the plus sign that may lead it.
pub open spec fn without_plus(s: Seq<char>) -> Seq<char> {
    if s.len() > 0 && s[0] == '+' {
        s.subrange(1, s.len() as int)
    } else {
        s
    }
}

/// The index that a text denotes: an optional plus sign, then at least one
/// digit and nothing but digits, where the number can be stored in a
/// `usize`. Any other text denotes none.
pub open spec fn parsed_usize(s: Seq<char>) -> Option<usize> {
    let digits = without_plus(s);
    if digits.len() > 0 && all_digits(digits) && digits_value(digits) <= usize::MAX {
        Some(digits_value(digits) as usize)
    } else {
        None
    }
}

/// The message for a text that denotes no index.
pub open spec fn parse_error_text(s: Seq<char>) -> Seq<char> {
    "Error parsing usize from "@ + s
}

/// The decimal notation of an index is read back as that index.
pub proof fn lemma_index_is_read_back(n: usize)
    ensures
        parsed_usize(nat_text(n as nat)) == Some(n),
{
    lemma_nat_text_value(n as nat);
    assert(without_plus(nat_text(n as nat)) == nat_text(n as nat));
}

fn parse_error(val: &str) -> (msg: String)
    ensures
        msg@ == parse_error_text(val@),
{
    let mut msg = String::new();
    msg.append("Error parsing usize from ");
    msg.append(val);
    assert(msg@ =~= parse_error_text(val@));
    msg
}

/// Reads an index from text.
pub fn str_to_usize(val: &str) -> (r: Result<usize, String>)
    ensures
        match parsed_usize(val@) {
            Some(n) => r == Ok::<usize, String>(n),
            None => r matches Err(msg) && msg@ == parse_error_text(val@),
        },
{
    broadcast use vstd::string::is_ascii_spec_bytes;

    let ghost digits = without_plus(val@);
    if !val.is_ascii() {
        proof {
            let i = choose|i: int|
                0 <= i < val@.len() && !('\0' <= #[trigger] val@[i] && val@[i] <= '\u{7f}');
            if val@.len() > 0 && val@[0] == '+' {
                assert(digits[i - 1] == val@[i]);
            }
        }
        return Err(parse_error(val));
    }
    let bytes = val.as_bytes();
    let n: usize = bytes.len();
    let start: usize = if n > 0 && bytes[0] == PLUS {
        1
    } else {
        0
    };
    proof {
        assert(n == val@.len());
        assert(forall|i: int| 0 <= i < n ==> bytes@[i] == val@[i] as u8);
        assert(digits =~= val@.subrange(start as int, n as int));
    }
    if start == n {
        return Err(parse_error(val));
    }
    let mut acc: usize = 0;
    let mut i: usize = start;
    while i < n
        invariant
            start <= i <= n,
            n == bytes@.len(),
            n == val@.len(),
            val.is_ascii(),
            forall|k: int| 0 <= k < n ==> bytes@[k] == val@[k] as u8,
            digits == val@.subrange(start as int, n as int),
            digits == without_plus(val@),
            all_digits(digits.take(i - start)),
            acc == digits_value(digits.take(i - start)),
        decreases n - i,
    {
        let b: u8 = bytes[i];
        let ghost c = val@[i as int];
        let ghost before = digits.take(i - start);
        let ghost after = digits.take(i + 1 - start);
        proof {
            assert(digits[i - start] == c);
            assert(after.drop_last() =~= before);
            assert(after.last() == c);
            assert('\0' <= c <= '\u{7f}');
        }
        if b < DIGIT_ZERO || b > DIGIT_NINE {
            assert(!is_digit(digits[i - start]));
            return Err(parse_error(val));
        }
        assert(is_digit(c));
        let d: usize = (b - DIGIT_ZERO) as usize;
        assert(d == digit_value(c));
        let next = match acc.checked_mul(10) {
            Some(tens) => tens.checked_add(d),
            None => None,
        };
        match next {
            Some(value) => {
                acc = value;
            },
            None => {
                proof {
                    assert(digits_value(after) > usize::MAX);
                    lemma_digits_value_grows(digits, i + 1 - start);
                }
                return Err(parse_error(val));
            },
        }
        i += 1;
    }
    assert(digits.take(n - start) =~= digits);
    Ok(acc)
}

} // verus!
