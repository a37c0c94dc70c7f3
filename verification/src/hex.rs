//! Lowercase hexadecimal text for byte strings.

use vstd::prelude::*;

verus! {

/// The sixteen digits, in order of their value.
pub open spec fn digits() -> Seq<char> {
    seq!['0', '1', '2', '3', '4', '5', '6', '7', '8', '9', 'a', 'b', 'c', 'd', 'e', 'f']
}

/// The hexadecimal text of `bytes`: two digits for each byte, the high half
/// first.
pub open spec fn hex_text(bytes: Seq<u8>) -> Seq<char> {
    Seq::new(
        2 * bytes.len(),
        |i: int| if i % 2 == 0 {
            digits()[bytes[i / 2] as int / 16]
        } else {
            digits()[bytes[i / 2] as int % 16]
        },
    )
}

/// Whether every character of `text` is one of the sixteen digits.
pub open spec fn is_hex_text(text: Seq<char>) -> bool {
    forall|i: int| 0 <= i < text.len() ==> digits().contains(#[trigger] text[i])
}

/// The one-character string of the digit with value `value`.
fn digit(value: u8) -> (text: &'static str)
    requires
        value < 16,
    ensures
        text@ == seq![digits()[value as int]],
{
    proof {
        reveal_strlit("0");
        reveal_strlit("1");
        reveal_strlit("2");
        reveal_strlit("3");
        reveal_strlit("4");
        reveal_strlit("5");
        reveal_strlit("6");
        reveal_strlit("7");
        reveal_strlit("8");
        reveal_strlit("9");
        reveal_strlit("a");
        reveal_strlit("b");
        reveal_strlit("c");
        reveal_strlit("d");
        reveal_strlit("e");
        reveal_strlit("f");
    }
    let text = match value {
        0 => "0",
        1 => "1",
        2 => "2",
        3 => "3",
        4 => "4",
        5 => "5",
        6 => "6",
        7 => "7",
        8 => "8",
        9 => "9",
        10 => "a",
        11 => "b",
        12 => "c",
        13 => "d",
        14 => "e",
        _ => "f",
    };
    assert(text@ =~= seq![digits()[value as int]]);
    text
}

/// Writes `bytes` as lowercase hexadecimal text.
pub fn encode(bytes: &[u8]) -> (text: String)
    ensures
        text@ == hex_text(bytes@),
        text@.len() == 2 * bytes@.len(),
{
    let mut text = String::new();
    let mut i: usize = 0;
    while i < bytes.len()
        invariant
            i <= bytes@.len(),
            text@ == hex_text(bytes@.take(i as int)),
        decreases bytes@.len() - i,
    {
        let byte = bytes[i];
        let ghost before = text@;
        text.append(digit(byte / 16));
        text.append(digit(byte % 16));
        assert(text@ =~= hex_text(bytes@.take(i + 1))) by {
            let longer = bytes@.take(i + 1);
            assert(text@ == before + seq![digits()[byte as int / 16]] + seq![
                digits()[byte as int % 16],
            ]);
            assert forall|k: int| 0 <= k < 2 * (i + 1) implies text@[k] == hex_text(longer)[k] by {
                if k < 2 * i {
                    assert(bytes@.take(i as int)[k / 2] == longer[k / 2]);
                    assert(before[k] == hex_text(bytes@.take(i as int))[k]);
                } else {
                    assert(longer[k / 2] == byte);
                }
            }
        }
        i += 1;
    }
    assert(bytes@.take(i as int) =~= bytes@);
    text
}

/// Hexadecimal text has two characters for each byte, all of them digits.
pub proof fn lemma_hex_text_shape(bytes: Seq<u8>)
    ensures
        hex_text(bytes).len() == 2 * bytes.len(),
        is_hex_text(hex_text(bytes)),
{
    assert forall|i: int| 0 <= i < hex_text(bytes).len() implies digits().contains(
        #[trigger] hex_text(bytes)[i],
    ) by {
        let value = if i % 2 == 0 {
            bytes[i / 2] as int / 16
        } else {
            bytes[i / 2] as int % 16
        };
        assert(digits()[value] == hex_text(bytes)[i]);
    }
}

/// No two digits are the same character.
proof fn lemma_digits_differ(a: int, b: int)
    requires
        0 <= a < 16,
        0 <= b < 16,
        digits()[a] == digits()[b],
    ensures
        a == b,
{
}

/// Different byte strings have different hexadecimal text.
pub proof fn lemma_hex_text_injective(a: Seq<u8>, b: Seq<u8>)
    requires
        hex_text(a) == hex_text(b),
    ensures
        a == b,
{
    assert(hex_text(a).len() == 2 * a.len());
    assert(hex_text(b).len() == 2 * b.len());
    assert forall|k: int| 0 <= k < a.len() implies a[k] == b[k] by {
        let high = 2 * k;
        let low = 2 * k + 1;
        assert(high % 2 == 0 && high / 2 == k && low % 2 == 1 && low / 2 == k);
        assert(hex_text(a)[high] == digits()[a[k] as int / 16]);
        assert(hex_text(b)[high] == digits()[b[k] as int / 16]);
        assert(hex_text(a)[low] == digits()[a[k] as int % 16]);
        assert(hex_text(b)[low] == digits()[b[k] as int % 16]);
        lemma_digits_differ(a[k] as int / 16, b[k] as int / 16);
        lemma_digits_differ(a[k] as int % 16, b[k] as int % 16);
    }
    assert(a =~= b);
}

} // verus!
