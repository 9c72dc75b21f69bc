//! Rendering of integers and booleans as text, the way Rust's `Display`
//! (decimal) and `{:x}` (lowercase hexadecimal) formatting renders them.

use vstd::prelude::*;

verus! {

/// The character for a digit value below 16 (`0`-`9`, then `a`-`f`).
pub open spec fn digit_char(d: nat) -> char {
    if d < 10 {
        (d + 48) as char
    } else {
        (d + 87) as char
    }
}

/// Decimal rendering of a natural number, without leading zeros.
pub open spec fn decimal_text(n: nat) -> Seq<char>
    decreases n,
{
    if n < 10 {
        seq![digit_char(n)]
    } else {
        decimal_text(n / 10).push(digit_char(n % 10))
    }
}

/// Decimal rendering of an integer: a `-` before the magnitude when negative.
pub open spec fn signed_decimal_text(n: int) -> Seq<char> {
    if n < 0 {
        seq!['-'] + decimal_text((-n) as nat)
    } else {
        decimal_text(n as nat)
    }
}

/// The `width` lowest hexadecimal digits of `v`, most significant first.
pub open spec fn hex_text(v: nat, width: nat) -> Seq<char>
    decreases width,
{
    if width == 0 {
        seq![]
    } else {
        hex_text(v / 16, (width - 1) as nat).push(digit_char(v % 16))
    }
}

/// `true` or `false`, as Rust renders a `bool`.
pub open spec fn bool_text(b: bool) -> Seq<char> {
    if b {
        seq!['t', 'r', 'u', 'e']
    } else {
        seq!['f', 'a', 'l', 's', 'e']
    }
}

/// A lowercase hexadecimal digit character.
pub open spec fn is_hex_digit(c: char) -> bool {
    ('0' <= c && c <= '9') || ('a' <= c && c <= 'f')
}

/// Every digit of a fixed-width hexadecimal rendering is a hexadecimal digit.
pub proof fn lemma_hex_text_digits(v: nat, width: nat)
    ensures
        hex_text(v, width).len() == width,
        forall|i: int| 0 <= i < width ==> is_hex_digit(#[trigger] hex_text(v, width)[i]),
    decreases width,
{
    if width > 0 {
        lemma_hex_text_digits(v / 16, (width - 1) as nat);
        let d = v % 16;
        assert(is_hex_digit(digit_char(d)));
    }
}

/// Law: a flag is written as the word `true` or `false`.
pub proof fn lemma_bool_text_words(b: bool)
    ensures
        bool_text(b) == if b {
            "true"@
        } else {
            "false"@
        },
{
    reveal_strlit("true");
    reveal_strlit("false");
    assert("true"@ =~= seq!['t', 'r', 'u', 'e']);
    assert("false"@ =~= seq!['f', 'a', 'l', 's', 'e']);
}

/// The value of a lowercase hexadecimal digit character.
pub open spec fn hex_digit_value(c: char) -> nat {
    if '0' <= c && c <= '9' {
        (c as nat - 48) as nat
    } else {
        (c as nat - 87) as nat
    }
}

/// The number a run of hexadecimal digits denotes, most significant first
/// (what `u128::from_str_radix(s, 16)` reads from it).
pub open spec fn hex_value(s: Seq<char>) -> nat
    decreases s.len(),
{
    if s.len() == 0 {
        0
    } else {
        hex_value(s.drop_last()) * 16 + hex_digit_value(s.last())
    }
}

/// `16^n`.
pub open spec fn pow16(n: nat) -> nat
    decreases n,
{
    if n == 0 {
        1
    } else {
        16 * pow16((n - 1) as nat)
    }
}

/// Law: reading back a fixed-width hexadecimal rendering gives the number,
/// when the number has at most that many digits.
pub proof fn lemma_hex_text_round_trip(v: nat, width: nat)
    requires
        v < pow16(width),
    ensures
        hex_value(hex_text(v, width)) == v,
    decreases width,
{
    if width > 0 {
        let w1 = (width - 1) as nat;
        assert(v / 16 < pow16(w1));
        lemma_hex_text_round_trip(v / 16, w1);
        let t = hex_text(v, width);
        assert(t.drop_last() =~= hex_text(v / 16, w1));
        assert(t.last() == digit_char(v % 16));
        assert(hex_digit_value(digit_char(v % 16)) == v % 16);
    }
}

/// Law: two numbers of at most `width` hexadecimal digits with the same
/// rendering are equal; distinct readings give distinct texts.
pub proof fn lemma_hex_text_injective(a: nat, b: nat, width: nat)
    requires
        a < pow16(width),
        b < pow16(width),
        hex_text(a, width) == hex_text(b, width),
    ensures
        a == b,
{
    lemma_hex_text_round_trip(a, width);
    lemma_hex_text_round_trip(b, width);
}

/// Every `u128` has at most 32 hexadecimal digits.
pub proof fn lemma_u128_fits_32_hex_digits(v: u128)
    ensures
        (v as nat) < pow16(32),
{
    reveal_with_fuel(pow16, 33);
    assert(pow16(32) == 0x1_0000_0000_0000_0000_0000_0000_0000_0000nat);
}

/// The one-character text of a digit below 16.
fn digit_str(d: u8) -> (s: &'static str)
    requires
        d < 16,
    ensures
        s@ == seq![digit_char(d as nat)],
{
    match d {
        0 => {
            proof { reveal_strlit("0"); }
            "0"
        },
        1 => {
            proof { reveal_strlit("1"); }
            "1"
        },
        2 => {
            proof { reveal_strlit("2"); }
            "2"
        },
        3 => {
            proof { reveal_strlit("3"); }
            "3"
        },
        4 => {
            proof { reveal_strlit("4"); }
            "4"
        },
        5 => {
            proof { reveal_strlit("5"); }
            "5"
        },
        6 => {
            proof { reveal_strlit("6"); }
            "6"
        },
        7 => {
            proof { reveal_strlit("7"); }
            "7"
        },
        8 => {
            proof { reveal_strlit("8"); }
            "8"
        },
        9 => {
            proof { reveal_strlit("9"); }
            "9"
        },
        10 => {
            proof { reveal_strlit("a"); }
            "a"
        },
        11 => {
            proof { reveal_strlit("b"); }
            "b"
        },
        12 => {
            proof { reveal_strlit("c"); }
            "c"
        },
        13 => {
            proof { reveal_strlit("d"); }
            "d"
        },
        14 => {
            proof { reveal_strlit("e"); }
            "e"
        },
        _ => {
            proof { reveal_strlit("f"); }
            "f"
        },
    }
}

/// Decimal text of an unsigned integer, as `n.to_string()` gives it.
pub fn decimal_string(n: u64) -> (s: String)
    ensures
        s@ == decimal_text(n as nat),
    decreases n,
{
    if n < 10 {
        digit_str(n as u8).to_owned()
    } else {
        let mut s = decimal_string(n / 10);
        s.append(digit_str((n % 10) as u8));
        s
    }
}

/// Decimal text of a signed integer, as `n.to_string()` gives it.
pub fn signed_decimal_string(n: i64) -> (s: String)
    ensures
        s@ == signed_decimal_text(n as int),
{
    if n < 0 {
        let magnitude: u64 = if n == i64::MIN {
            9_223_372_036_854_775_808u64
        } else {
            (-n) as u64
        };
        proof {
            reveal_strlit("-");
        }
        let mut s = "-".to_owned();
        let digits = decimal_string(magnitude);
        s.append(digits.as_str());
        s
    } else {
        decimal_string(n as u64)
    }
}

/// `true` or `false`, as `b.to_string()` gives it.
pub fn bool_str(b: bool) -> (s: &'static str)
    ensures
        s@ == bool_text(b),
{
    if b {
        proof {
            reveal_strlit("true");
        }
        "true"
    } else {
        proof {
            reveal_strlit("false");
        }
        "false"
    }
}

/// The lowest `width` hexadecimal digits of `v`, zero-padded, as
/// `format!("{v:0width$x}")` gives them for a value that fits.
pub fn hex_string(v: u128, width: u8) -> (s: String)
    ensures
        s@ == hex_text(v as nat, width as nat),
    decreases width,
{
    if width == 0 {
        proof {
            reveal_strlit("");
        }
        "".to_owned()
    } else {
        let mut s = hex_string(v / 16, width - 1);
        s.append(digit_str((v % 16) as u8));
        s
    }
}

} // verus!
