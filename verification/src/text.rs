//! Small text functions that the rules for addresses and messages need.

use vstd::prelude::*;
use crate::hex::{digit_text, hex_digit};

verus! {

/// The lower-case form of a text, as the standard library computes it.
pub uninterp spec fn lowercase_of(text: Seq<char>) -> Seq<char>;

/// Trusted: `str::to_lowercase` of the standard library, whose result
/// depends on the text alone.
#[verifier::external_body]
pub(crate) fn to_lowercase(text: &str) -> (lowered: String)
    ensures
        lowered@ == lowercase_of(text@),
{
    text.to_lowercase()
}

/// The decimal digits of a number, most significant first.
pub open spec fn decimal(n: nat) -> Seq<char>
    decreases n,
{
    if n < 10 {
        seq![hex_digit(n as int)]
    } else {
        decimal(n / 10).push(hex_digit((n % 10) as int))
    }
}

/// Writes a number in decimal.
pub fn decimal_text(n: usize) -> (text: String)
    ensures
        text@ == decimal(n as nat),
    decreases n,
{
    if n < 10 {
        String::from_str(digit_text(n as u8))
    } else {
        let mut text = decimal_text(n / 10);
        text.append(digit_text((n % 10) as u8));
        assert(text@ =~= decimal(n as nat));
        text
    }
}

/// Whether `text` begins with `prefix`.
pub open spec fn begins_with(text: Seq<char>, prefix: Seq<char>) -> bool {
    prefix.len() <= text.len() && text.subrange(0, prefix.len() as int) == prefix
}

/// The first `n` characters of a text, or all of it where it is shorter.
pub open spec fn leading(text: Seq<char>, n: nat) -> Seq<char> {
    if n <= text.len() {
        text.subrange(0, n as int)
    } else {
        text
    }
}

/// The first `n` characters of a text, for display.
pub fn prefix_of(text: &str, n: usize) -> (head: String)
    ensures
        head@ == leading(text@, n as nat),
{
    if n <= text.unicode_len() {
        String::from_str(text.substring_char(0, n))
    } else {
        String::from_str(text)
    }
}

/// Whether a text begins with a given prefix.
pub fn starts_with(text: &str, prefix: &str) -> (yes: bool)
    ensures
        yes == begins_with(text@, prefix@),
{
    let n = prefix.unicode_len();
    if text.unicode_len() < n {
        return false;
    }
    let mut i: usize = 0;
    while i < n
        invariant
            i <= n,
            n == prefix@.len(),
            n <= text@.len(),
            forall|k: int| 0 <= k < i ==> text@[k] == prefix@[k],
        decreases n - i,
    {
        if text.get_char(i) != prefix.get_char(i) {
            assert(text@.subrange(0, n as int)[i as int] != prefix@[i as int]);
            return false;
        }
        i += 1;
    }
    assert(text@.subrange(0, n as int) =~= prefix@);
    true
}

} // verus!
