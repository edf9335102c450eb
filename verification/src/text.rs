//! Text: prefixes, lengths, numbers in decimal.

use vstd::prelude::*;
use vstd::string::*;
use vstd::utf8::*;

verus! {

/// The decimal digit of a number below ten.
pub open spec fn digit(n: nat) -> char {
    (48 + n) as char
}

/// The number in decimal, without leading zeros.
pub open spec fn decimal(n: nat) -> Seq<char>
    decreases n,
{
    if n < 10 {
        seq![digit(n)]
    } else {
        decimal(n / 10).push(digit(n % 10))
    }
}

/// Texts with the same bytes are the same.
pub(crate) proof fn lemma_bytes_determine_text(a: Seq<char>, b: Seq<char>)
    ensures
        encode_utf8(a) == encode_utf8(b) <==> a == b,
{
    encode_utf8_decode_utf8(a);
    encode_utf8_decode_utf8(b);
}

/// What follows `prefix` in `text`; `None` where `text` does not begin with it.
pub fn strip_prefix<'a>(text: &'a str, prefix: &str) -> (rest: Option<&'a str>)
    ensures
        rest is Some <==> prefix@.is_prefix_of(text@),
        rest is Some ==> rest->0@ == text@.skip(prefix@.len() as int),
{
    let length: usize = text.unicode_len();
    let wanted: usize = prefix.unicode_len();
    if length < wanted {
        return None;
    }
    let mut i: usize = 0;
    while i < wanted
        invariant
            i <= wanted <= length,
            length == text@.len(),
            wanted == prefix@.len(),
            forall|k: int| 0 <= k < i ==> #[trigger] text@[k] == prefix@[k],
        decreases wanted - i,
    {
        if text.get_char(i) != prefix.get_char(i) {
            return None;
        }
        i = i + 1;
    }
    Some(text.substring_char(wanted, length))
}

/// The digit of `n` as text.
fn digit_text(n: u64) -> (text: &'static str)
    requires
        n < 10,
    ensures
        text@ == seq![digit(n as nat)],
{
    proof {
        reveal_strlit("0");
        reveal_strlit("1");
        reveal_strlit("2");
        reveal_strlit("3");
        reveal_strlit("4");
        reveal_strlit("5");
        reveal_strlit("6");
        reveal_strlit("7");
        reveal_strlit("8");
        reveal_strlit("9");
    }
    match n {
        0 => "0",
        1 => "1",
        2 => "2",
        3 => "3",
        4 => "4",
        5 => "5",
        6 => "6",
        7 => "7",
        8 => "8",
        _ => "9",
    }
}

/// Writes `n` in decimal.
pub(crate) fn decimal_text(n: u64) -> (text: String)
    ensures
        text@ == decimal(n as nat),
    decreases n,
{
    if n < 10 {
        digit_text(n).to_string()
    } else {
        let mut text = decimal_text(n / 10);
        let ghost head = text@;
        text.append(digit_text(n % 10));
        assert(text@ =~= head.push(digit((n % 10) as nat)));
        text
    }
}

/// The two texts, one after the other.
pub(crate) fn join(before: &str, after: &str) -> (text: String)
    ensures
        text@ == before@ + after@,
{
    before.to_string().concat(after)
}

/// The three texts, one after the other.
pub(crate) fn enclose(before: &str, middle: &str, after: &str) -> (text: String)
    ensures
        text@ == before@ + middle@ + after@,
{
    before.to_string().concat(middle).concat(after)
}

/// A number in decimal ends in the digit of its remainder by ten; before that stands, from ten on,
/// its quotient by ten, and below ten nothing.
pub proof fn law_decimal_is_quotient_and_remainder(n: nat)
    ensures
        decimal(n).len() > 0,
        decimal(n).last() as int == 48 + n % 10,
        n < 10 ==> decimal(n).len() == 1,
        n >= 10 ==> decimal(n).drop_last() == decimal(n / 10),
{
    assert(n >= 10 ==> decimal(n).drop_last() =~= decimal(n / 10));
}

/// Different numbers are written differently.
pub proof fn law_decimal_tells_numbers_apart(n: nat, m: nat)
    requires
        decimal(n) == decimal(m),
    ensures
        n == m,
    decreases n,
{
    law_decimal_is_quotient_and_remainder(n);
    law_decimal_is_quotient_and_remainder(m);
    if n >= 10 {
        law_decimal_is_quotient_and_remainder(n / 10);
    }
    if m >= 10 {
        law_decimal_is_quotient_and_remainder(m / 10);
    }
    if n >= 10 && m >= 10 {
        law_decimal_tells_numbers_apart(n / 10, m / 10);
    }
}

} // verus!
