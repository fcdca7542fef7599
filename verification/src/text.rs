//! String helpers: comparison, decimal formatting, and the error messages
//! that the builtin API reports to scripts.

use vstd::prelude::*;
use vstd::string::*;

verus! {

/// Relies on `str`'s `PartialEq`: two string slices are equal exactly when
/// their character sequences are equal.
#[verifier::external_body]
pub(crate) fn str_eq(a: &str, b: &str) -> (r: bool)
    ensures
        r == (a@ == b@),
{
    a == b
}

/// The decimal digit character for a value below ten.
pub open spec fn dec_digit(d: nat) -> char {
    if d == 0 {
        '0'
    } else if d == 1 {
        '1'
    } else if d == 2 {
        '2'
    } else if d == 3 {
        '3'
    } else if d == 4 {
        '4'
    } else if d == 5 {
        '5'
    } else if d == 6 {
        '6'
    } else if d == 7 {
        '7'
    } else if d == 8 {
        '8'
    } else {
        '9'
    }
}

/// The decimal representation of a natural number, most significant digit
/// first, with no sign and no leading zeros (a lone zero for zero).
pub open spec fn decimal_str(n: nat) -> Seq<char>
    decreases n,
{
    if n < 10 {
        seq![dec_digit(n)]
    } else {
        decimal_str(n / 10).push(dec_digit(n % 10))
    }
}

/// Relies on `u32`'s `Display` implementation: it formats the value in
/// decimal with no sign, padding or separators.
#[verifier::external_body]
pub(crate) fn u32_decimal(v: u32) -> (r: String)
    ensures
        r@ == decimal_str(v as nat),
{
    format!("{}", v)
}

pub open spec fn is_digit(c: char) -> bool {
    48 <= c as int && c as int <= 57
}

pub open spec fn digit_val(c: char) -> nat {
    (c as int - 48) as nat
}

pub open spec fn all_digits(s: Seq<char>) -> bool {
    forall|i: int| 0 <= i < s.len() ==> is_digit(#[trigger] s[i])
}

/// The value of a sequence of decimal digits, most significant first.
pub open spec fn digits_val(s: Seq<char>) -> nat
    decreases s.len(),
{
    if s.len() == 0 {
        0
    } else {
        digits_val(s.drop_last()) * 10 + digit_val(s.last())
    }
}

/// The digits of an unsigned decimal numeral: an optional leading plus
/// sign is dropped.
pub open spec fn unsigned_body(s: Seq<char>) -> Seq<char> {
    if s.len() > 0 && s[0] == '+' {
        s.skip(1)
    } else {
        s
    }
}

/// What an unsigned 32-bit decimal numeral denotes: an optional plus sign,
/// then at least one digit, denoting a value that fits in 32 bits; anything
/// else is rejected.
pub open spec fn parse_u32_spec(s: Seq<char>) -> Option<u32> {
    let d = unsigned_body(s);
    if d.len() > 0 && all_digits(d) && digits_val(d) <= u32::MAX {
        Some(digits_val(d) as u32)
    } else {
        None
    }
}

pub proof fn lemma_digits_val_monotone(s: Seq<char>, k: int)
    requires
        0 <= k <= s.len(),
    ensures
        digits_val(s.take(k)) <= digits_val(s),
    decreases s.len(),
{
    if k < s.len() {
        assert(s.take(k) =~= s.drop_last().take(k));
        lemma_digits_val_monotone(s.drop_last(), k);
    } else {
        assert(s.take(k) =~= s);
    }
}

pub fn parse_u32(s: &str) -> (r: Option<u32>)
    ensures
        r == parse_u32_spec(s@),
{
    let n = s.unicode_len();
    if n == 0 {
        return None;
    }
    let first = s.get_char(0);
    let start: usize = if first == '+' {
        1
    } else {
        0
    };
    if start == n {
        return None;
    }
    let ghost d = unsigned_body(s@);
    proof {
        assert(d =~= s@.subrange(start as int, n as int));
    }
    let mut acc: u32 = 0;
    let mut i: usize = start;
    while i < n
        invariant
            start <= i <= n,
            n == s@.len(),
            start < n,
            start == 1 <==> s@[0] == '+',
            start == 0 || start == 1,
            d == unsigned_body(s@),
            d =~= s@.subrange(start as int, n as int),
            all_digits(s@.subrange(start as int, i as int)),
            acc == digits_val(s@.subrange(start as int, i as int)),
        decreases n - i,
    {
        let c = s.get_char(i);
        let cv = c as u32;
        proof {
            assert(d.take(i + 1 - start) =~= s@.subrange(start as int, i + 1));
            assert(d.take(i - start) =~= s@.subrange(start as int, i as int));
            assert(s@.subrange(start as int, i + 1).drop_last() =~= s@.subrange(
                start as int,
                i as int,
            ));
        }
        if cv < 48 || cv > 57 {
            proof {
                assert(d[i - start] == s@[i as int]);
            }
            return None;
        }
        let dv = cv - 48;
        if acc > (u32::MAX - dv) / 10 {
            proof {
                if all_digits(d) && digits_val(d) <= u32::MAX {
                    lemma_digits_val_monotone(d, i + 1 - start);
                }
            }
            return None;
        }
        acc = acc * 10 + dv;
        i += 1;
    }
    proof {
        assert(s@.subrange(start as int, n as int) =~= d);
    }
    Some(acc)
}

pub open spec fn invalid_key_msg(name: Seq<char>) -> Seq<char> {
    "Invalid key: "@ + name
}

pub open spec fn invalid_button_msg(name: Seq<char>) -> Seq<char> {
    "Invalid button: "@ + name
}

pub open spec fn invalid_coordinate_msg(name: Seq<char>) -> Seq<char> {
    "Invalid coordinate: "@ + name
}

pub open spec fn invalid_char_msg() -> Seq<char> {
    "Invalid character"@
}

pub open spec fn invalid_button_index_msg(button: u32) -> Seq<char> {
    "Invalid button index: "@ + decimal_str(button as nat)
}

pub open spec fn send_failed_prefix() -> Seq<char> {
    "Failed to send event: "@
}

pub open spec fn reply_lost_msg() -> Seq<char> {
    "Failed to receive reply: worker is gone"@
}

pub open spec fn join_failed_msg() -> Seq<char> {
    "Failed to join Lua thread"@
}

pub fn join_failed_message() -> (r: String)
    ensures
        r@ == join_failed_msg(),
{
    "Failed to join Lua thread".to_owned()
}

/// The marker message raised by the interrupt hook when the cancellation
/// flag is observed; an execution error carrying exactly this marker is a
/// cooperative stop, not a failure.
pub open spec fn interrupted_marker() -> Seq<char> {
    "interrupted"@
}

pub fn invalid_key_message(name: &str) -> (r: String)
    ensures
        r@ == invalid_key_msg(name@),
{
    let mut m: String = "Invalid key: ".to_owned();
    m.append(name);
    m
}

pub fn invalid_button_message(name: &str) -> (r: String)
    ensures
        r@ == invalid_button_msg(name@),
{
    let mut m: String = "Invalid button: ".to_owned();
    m.append(name);
    m
}

pub fn invalid_coordinate_message(name: &str) -> (r: String)
    ensures
        r@ == invalid_coordinate_msg(name@),
{
    let mut m: String = "Invalid coordinate: ".to_owned();
    m.append(name);
    m
}

pub fn invalid_char_message() -> (r: String)
    ensures
        r@ == invalid_char_msg(),
{
    "Invalid character".to_owned()
}

pub fn invalid_button_index_message(button: u32) -> (r: String)
    ensures
        r@ == invalid_button_index_msg(button),
{
    let mut m: String = "Invalid button index: ".to_owned();
    let d = u32_decimal(button);
    m.append(d.as_str());
    m
}

pub fn send_failed_message(detail: &str) -> (r: String)
    ensures
        r@ == send_failed_prefix() + detail@,
{
    let mut m: String = "Failed to send event: ".to_owned();
    m.append(detail);
    m
}

pub fn reply_lost_message() -> (r: String)
    ensures
        r@ == reply_lost_msg(),
{
    "Failed to receive reply: worker is gone".to_owned()
}

} // verus!
