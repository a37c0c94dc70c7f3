//! A cached icon as text, for handing it on where bytes cannot go.

use vstd::prelude::*;

verus! {

/// The sixty-four symbols of standard Base64, in order of their value.
pub open spec fn alphabet() -> Seq<char> {
    seq![
        'A', 'B', 'C', 'D', 'E', 'F', 'G', 'H', 'I', 'J', 'K', 'L', 'M', 'N', 'O', 'P',
        'Q', 'R', 'S', 'T', 'U', 'V', 'W', 'X', 'Y', 'Z', 'a', 'b', 'c', 'd', 'e', 'f',
        'g', 'h', 'i', 'j', 'k', 'l', 'm', 'n', 'o', 'p', 'q', 'r', 's', 't', 'u', 'v',
        'w', 'x', 'y', 'z', '0', '1', '2', '3', '4', '5', '6', '7', '8', '9', '+', '/',
    ]
}

/// The byte at `index`, or zero behind the last byte.
pub open spec fn byte_or_zero(bytes: Seq<u8>, index: int) -> int {
    if 0 <= index < bytes.len() {
        bytes[index] as int
    } else {
        0
    }
}

/// The character at `index` of the Base64 text of `bytes`. Each three bytes
/// make four symbols of six bits; where the last group lacks bytes, the
/// symbols that would hold none of their bits are `=`.
pub open spec fn base64_char(bytes: Seq<u8>, index: int) -> char {
    let first = 3 * (index / 4);
    let b0 = byte_or_zero(bytes, first);
    let b1 = byte_or_zero(bytes, first + 1);
    let b2 = byte_or_zero(bytes, first + 2);
    if index % 4 == 0 {
        alphabet()[b0 / 4]
    } else if index % 4 == 1 {
        alphabet()[(b0 % 4) * 16 + b1 / 16]
    } else if index % 4 == 2 {
        if first + 1 < bytes.len() {
            alphabet()[(b1 % 16) * 4 + b2 / 64]
        } else {
            '='
        }
    } else {
        if first + 2 < bytes.len() {
            alphabet()[b2 % 64]
        } else {
            '='
        }
    }
}

/// The standard Base64 text of `bytes`, with padding: four characters for
/// each group of up to three bytes.
pub open spec fn base64_text(bytes: Seq<u8>) -> Seq<char> {
    Seq::new(4 * ((bytes.len() + 2) / 3), |index: int| base64_char(bytes, index))
}

/// The one-character string of the symbol with value `value`.
fn symbol(value: u8) -> (text: &'static str)
    requires
        value < 64,
    ensures
        text@ == seq![alphabet()[value as int]],
{
    proof {
        reveal_strlit("A");
        reveal_strlit("B");
        reveal_strlit("C");
        reveal_strlit("D");
        reveal_strlit("E");
        reveal_strlit("F");
        reveal_strlit("G");
        reveal_strlit("H");
        reveal_strlit("I");
        reveal_strlit("J");
        reveal_strlit("K");
        reveal_strlit("L");
        reveal_strlit("M");
        reveal_strlit("N");
        reveal_strlit("O");
        reveal_strlit("P");
        reveal_strlit("Q");
        reveal_strlit("R");
        reveal_strlit("S");
        reveal_strlit("T");
        reveal_strlit("U");
        reveal_strlit("V");
        reveal_strlit("W");
        reveal_strlit("X");
        reveal_strlit("Y");
        reveal_strlit("Z");
        reveal_strlit("a");
        reveal_strlit("b");
        reveal_strlit("c");
        reveal_strlit("d");
        reveal_strlit("e");
        reveal_strlit("f");
        reveal_strlit("g");
        reveal_strlit("h");
        reveal_strlit("i");
        reveal_strlit("j");
        reveal_strlit("k");
        reveal_strlit("l");
        reveal_strlit("m");
        reveal_strlit("n");
        reveal_strlit("o");
        reveal_strlit("p");
        reveal_strlit("q");
        reveal_strlit("r");
        reveal_strlit("s");
        reveal_strlit("t");
        reveal_strlit("u");
        reveal_strlit("v");
        reveal_strlit("w");
        reveal_strlit("x");
        reveal_strlit("y");
        reveal_strlit("z");
        reveal_strlit("0");
        reveal_strlit("1");
        reveal_strlit("2");
        reveal_strlit("3");
        reveal_strlit("4");
        reveal_strlit("5");
        reveal_strlit("6");
        reveal_strlit("7");
        reveal_strlit("8");
        reveal_strlit("9");
        reveal_strlit("+");
        reveal_strlit("/");
    }
    let text = match value {
        0 => "A",
        1 => "B",
        2 => "C",
        3 => "D",
        4 => "E",
        5 => "F",
        6 => "G",
        7 => "H",
        8 => "I",
        9 => "J",
        10 => "K",
        11 => "L",
        12 => "M",
        13 => "N",
        14 => "O",
        15 => "P",
        16 => "Q",
        17 => "R",
        18 => "S",
        19 => "T",
        20 => "U",
        21 => "V",
        22 => "W",
        23 => "X",
        24 => "Y",
        25 => "Z",
        26 => "a",
        27 => "b",
        28 => "c",
        29 => "d",
        30 => "e",
        31 => "f",
        32 => "g",
        33 => "h",
        34 => "i",
        35 => "j",
        36 => "k",
        37 => "l",
        38 => "m",
        39 => "n",
        40 => "o",
        41 => "p",
        42 => "q",
        43 => "r",
        44 => "s",
        45 => "t",
        46 => "u",
        47 => "v",
        48 => "w",
        49 => "x",
        50 => "y",
        51 => "z",
        52 => "0",
        53 => "1",
        54 => "2",
        55 => "3",
        56 => "4",
        57 => "5",
        58 => "6",
        59 => "7",
        60 => "8",
        61 => "9",
        62 => "+",
        _ => "/",
    };
    assert(text@ =~= seq![alphabet()[value as int]]);
    text
}

/// The four characters of a whole group of three bytes.
fn push_group(text: &mut String, b0: u8, b1: u8, b2: u8)
    ensures
        final(text)@ == old(text)@ + seq![
            alphabet()[b0 as int / 4],
            alphabet()[(b0 as int % 4) * 16 + b1 as int / 16],
            alphabet()[(b1 as int % 16) * 4 + b2 as int / 64],
            alphabet()[b2 as int % 64],
        ],
{
    let ghost before = text@;
    text.append(symbol(b0 / 4));
    text.append(symbol((b0 % 4) * 16 + b1 / 16));
    text.append(symbol((b1 % 16) * 4 + b2 / 64));
    text.append(symbol(b2 % 64));
    assert(text@ =~= before + seq![
        alphabet()[b0 as int / 4],
        alphabet()[(b0 as int % 4) * 16 + b1 as int / 16],
        alphabet()[(b1 as int % 16) * 4 + b2 as int / 64],
        alphabet()[b2 as int % 64],
    ]);
}

/// The content of a cached icon as Base64 text.
pub fn get_favicon_base64(content: &[u8]) -> (text: String)
    ensures
        text@ == base64_text(content@),
        text@.len() == 4 * ((content@.len() + 2) / 3),
{
    proof {
        reveal_strlit("=");
        reveal_strlit("==");
    }
    let mut text = String::new();
    let length = content.len();
    let mut done: usize = 0;
    while length - done >= 3
        invariant
            done <= length,
            length == content@.len(),
            done % 3 == 0,
            text@ == base64_text(content@.take(done as int)),
        decreases length - done,
    {
        let ghost before = text@;
        let ghost shorter = content@.take(done as int);
        let ghost longer = content@.take(done + 3);
        push_group(&mut text, content[done], content[done + 1], content[done + 2]);
        assert(text@ =~= base64_text(longer)) by {
            assert(text@.len() == 4 * ((longer.len() + 2) / 3));
            assert forall|k: int| 0 <= k < text@.len() implies text@[k] == base64_char(longer, k) by {
                let first = 3 * (k / 4);
                if k < before.len() {
                    assert(before[k] == base64_char(shorter, k));
                    assert(first + 2 < done);
                    assert(shorter[first] == longer[first]);
                    assert(shorter[first + 1] == longer[first + 1]);
                    assert(shorter[first + 2] == longer[first + 2]);
                } else {
                    assert(first == done);
                    assert(longer[first] == content@[done as int]);
                    assert(longer[first + 1] == content@[done + 1]);
                    assert(longer[first + 2] == content@[done + 2]);
                }
            }
        }
        done += 3;
    }
    let ghost before = text@;
    let ghost shorter = content@.take(done as int);
    if length - done == 1 {
        let b0 = content[done];
        text.append(symbol(b0 / 4));
        text.append(symbol((b0 % 4) * 16));
        text.append("==");
    } else if length - done == 2 {
        let b0 = content[done];
        let b1 = content[done + 1];
        text.append(symbol(b0 / 4));
        text.append(symbol((b0 % 4) * 16 + b1 / 16));
        text.append(symbol((b1 % 16) * 4));
        text.append("=");
    }
    assert(text@ =~= base64_text(content@)) by {
        assert(text@.len() == 4 * ((content@.len() + 2) / 3));
        assert forall|k: int| 0 <= k < text@.len() implies text@[k] == base64_char(content@, k) by {
            let first = 3 * (k / 4);
            if k < before.len() {
                assert(before[k] == base64_char(shorter, k));
                assert(first + 2 < done);
                assert(shorter[first] == content@[first]);
                assert(shorter[first + 1] == content@[first + 1]);
                assert(shorter[first + 2] == content@[first + 2]);
            } else {
                assert(first == done);
            }
        }
    }
    text
}

/// Base64 text has four characters for each group of up to three bytes, and
/// each of them is a symbol of the alphabet or the padding sign.
pub proof fn lemma_base64_text_shape(bytes: Seq<u8>)
    ensures
        base64_text(bytes).len() == 4 * ((bytes.len() + 2) / 3),
        base64_text(bytes).len() % 4 == 0,
        forall|index: int|
            0 <= index < base64_text(bytes).len() ==> alphabet().contains(
                #[trigger] base64_text(bytes)[index],
            ) || base64_text(bytes)[index] == '=',
{
    assert forall|index: int| 0 <= index < base64_text(bytes).len() implies alphabet().contains(
        #[trigger] base64_text(bytes)[index],
    ) || base64_text(bytes)[index] == '=' by {
        let first = 3 * (index / 4);
        let b0 = byte_or_zero(bytes, first);
        let b1 = byte_or_zero(bytes, first + 1);
        let b2 = byte_or_zero(bytes, first + 2);
        let value = if index % 4 == 0 {
            b0 / 4
        } else if index % 4 == 1 {
            (b0 % 4) * 16 + b1 / 16
        } else if index % 4 == 2 {
            (b1 % 16) * 4 + b2 / 64
        } else {
            b2 % 64
        };
        assert(0 <= value < 64);
        assert(alphabet()[value] == alphabet()[value]);
        assert(base64_text(bytes)[index] == base64_char(bytes, index));
    }
}

} // verus!
