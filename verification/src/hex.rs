//! Lower-case hexadecimal text of a byte string.

use vstd::prelude::*;

verus! {

/// The hexadecimal digit of a value below sixteen.
pub open spec fn hex_digit(nibble: int) -> char {
    if nibble == 0 {
        '0'
    } else if nibble == 1 {
        '1'
    } else if nibble == 2 {
        '2'
    } else if nibble == 3 {
        '3'
    } else if nibble == 4 {
        '4'
    } else if nibble == 5 {
        '5'
    } else if nibble == 6 {
        '6'
    } else if nibble == 7 {
        '7'
    } else if nibble == 8 {
        '8'
    } else if nibble == 9 {
        '9'
    } else if nibble == 10 {
        'a'
    } else if nibble == 11 {
        'b'
    } else if nibble == 12 {
        'c'
    } else if nibble == 13 {
        'd'
    } else if nibble == 14 {
        'e'
    } else {
        'f'
    }
}

/// Two digits for each byte, the high half first.
pub open spec fn hex_string(bytes: Seq<u8>) -> Seq<char> {
    Seq::new(
        2 * bytes.len(),
        |i: int| if i % 2 == 0 { hex_digit(bytes[i / 2] as int / 16) } else { hex_digit(bytes[i / 2] as int % 16) },
    )
}

/// The one-character text of a digit.
pub(crate) fn digit_text(nibble: u8) -> (text: &'static str)
    requires
        nibble < 16,
    ensures
        text@ == seq![hex_digit(nibble as int)],
{
    proof {
        reveal_strlit("0");
        reveal_strlit("1");
        reveal_strlit("2");
        reveal_strlit("3");
        reveal_strlit("4");
        reveal_strlit("5");
        reveal_strlit("6");
        reveal_strlit("7");
        reveal_strlit("8");
        reveal_strlit("9");
        reveal_strlit("a");
        reveal_strlit("b");
        reveal_strlit("c");
        reveal_strlit("d");
        reveal_strlit("e");
        reveal_strlit("f");
    }
    let text = match nibble {
        0 => "0",
        1 => "1",
        2 => "2",
        3 => "3",
        4 => "4",
        5 => "5",
        6 => "6",
        7 => "7",
        8 => "8",
        9 => "9",
        10 => "a",
        11 => "b",
        12 => "c",
        13 => "d",
        14 => "e",
        _ => "f",
    };
    assert(text@ =~= seq![hex_digit(nibble as int)]);
    text
}

/// Writes bytes as lower-case hexadecimal text.
pub fn hex_encode(bytes: &[u8]) -> (text: String)
    ensures
        text@ == hex_string(bytes@),
{
    let mut text = String::new();
    let mut i: usize = 0;
    while i < bytes.len()
        invariant
            i <= bytes.len(),
            text@ == hex_string(bytes@.take(i as int)),
        decreases bytes.len() - i,
    {
        let byte: u8 = bytes[i];
        let ghost before = text@;
        text.append(digit_text(byte / 16));
        text.append(digit_text(byte % 16));
        assert(text@ =~= hex_string(bytes@.take(i + 1))) by {
            let longer = bytes@.take(i + 1);
            assert(text@ == before + seq![hex_digit(byte as int / 16)] + seq![hex_digit(byte as int % 16)]);
            assert forall|k: int| 0 <= k < 2 * (i + 1) implies text@[k] == hex_string(longer)[k] by {
                if k < 2 * i {
                    assert(bytes@.take(i as int)[k / 2] == longer[k / 2]);
                } else {
                    assert(longer[k / 2] == byte);
                }
            }
        }
        i += 1;
    }
    assert(bytes@.take(i as int) =~= bytes@);
    text
}

} // verus!
