//! Numbers as text: decimal, and hexadecimal of a fixed width.

use vstd::prelude::*;
use vstd::string::*;

verus! {

/// The digit `d` (below sixteen), with capital letters above nine.
pub open spec fn upper_digit(d: nat) -> char {
    if d < 10 {
        (48 + d) as char
    } else {
        (55 + d) as char
    }
}

/// The digit `d` (below sixteen), with small letters above nine.
pub open spec fn lower_digit(d: nat) -> char {
    if d < 10 {
        (48 + d) as char
    } else {
        (87 + d) as char
    }
}

/// `n` in decimal, without leading zeros.
pub open spec fn decimal(n: nat) -> Seq<char>
    decreases n,
{
    if n < 10 {
        seq![upper_digit(n)]
    } else {
        decimal(n / 10).push(upper_digit(n % 10))
    }
}

/// The last `width` hexadecimal digits of `n`, capital letters.
pub open spec fn upper_hex(n: nat, width: nat) -> Seq<char>
    decreases width,
{
    if width == 0 {
        Seq::empty()
    } else {
        upper_hex(n / 16, (width - 1) as nat).push(upper_digit(n % 16))
    }
}

/// One byte as two hexadecimal digits, small letters.
pub open spec fn lower_hex_byte(b: u8) -> Seq<char> {
    seq![lower_digit((b / 16) as nat), lower_digit((b % 16) as nat)]
}

/// Bytes as a list in square brackets: `[00, a4]`.
pub open spec fn byte_list(bytes: Seq<u8>) -> Seq<char> {
    "["@ + byte_list_items(bytes) + "]"@
}

/// The items of [`byte_list`], separated by a comma and a blank.
pub open spec fn byte_list_items(bytes: Seq<u8>) -> Seq<char>
    decreases bytes.len(),
{
    if bytes.len() == 0 {
        Seq::empty()
    } else if bytes.len() == 1 {
        lower_hex_byte(bytes[0])
    } else {
        byte_list_items(bytes.drop_last()) + ", "@ + lower_hex_byte(bytes.last())
    }
}

fn upper_digit_text(d: u8) -> (t: &'static str)
    requires
        d < 16,
    ensures
        t@ == seq![upper_digit(d as nat)],
{
    proof {
        reveal_strlit("0");
        reveal_strlit("1");
        reveal_strlit("2");
        reveal_strlit("3");
        reveal_strlit("4");
        reveal_strlit("5");
        reveal_strlit("6");
        reveal_strlit("7");
        reveal_strlit("8");
        reveal_strlit("9");
        reveal_strlit("A");
        reveal_strlit("B");
        reveal_strlit("C");
        reveal_strlit("D");
        reveal_strlit("E");
        reveal_strlit("F");
    }
    match d {
        0 => "0",
        1 => "1",
        2 => "2",
        3 => "3",
        4 => "4",
        5 => "5",
        6 => "6",
        7 => "7",
        8 => "8",
        9 => "9",
        10 => "A",
        11 => "B",
        12 => "C",
        13 => "D",
        14 => "E",
        _ => "F",
    }
}

fn lower_digit_text(d: u8) -> (t: &'static str)
    requires
        d < 16,
    ensures
        t@ == seq![lower_digit(d as nat)],
{
    proof {
        reveal_strlit("a");
        reveal_strlit("b");
        reveal_strlit("c");
        reveal_strlit("d");
        reveal_strlit("e");
        reveal_strlit("f");
    }
    match d {
        10 => "a",
        11 => "b",
        12 => "c",
        13 => "d",
        14 => "e",
        15 => "f",
        _ => upper_digit_text(d),
    }
}

/// Appends `n` in decimal.
pub(crate) fn push_decimal(text: &mut String, n: usize)
    ensures
        final(text)@ == old(text)@ + decimal(n as nat),
    decreases n,
{
    if n >= 10 {
        push_decimal(text, n / 10);
    }
    text.append(upper_digit_text((n % 10) as u8));
}

/// Appends `bytes` as [`byte_list`] writes them.
pub(crate) fn push_byte_list(text: &mut String, bytes: &[u8])
    ensures
        final(text)@ == old(text)@ + byte_list(bytes@),
{
    let ghost start = text@;
    text.append("[");
    let mut i: usize = 0;
    while i < bytes.len()
        invariant
            i <= bytes@.len(),
            text@ == start + "["@ + byte_list_items(bytes@.take(i as int)),
        decreases bytes@.len() - i,
    {
        let ghost before = bytes@.take(i as int);
        let ghost after = bytes@.take(i + 1);
        assert(after.drop_last() =~= before);
        assert(after.last() == bytes@[i as int]);
        if i > 0 {
            text.append(", ");
        }
        let b = bytes[i];
        text.append(lower_digit_text(b / 16));
        text.append(lower_digit_text(b % 16));
        assert(text@ =~= start + "["@ + byte_list_items(after));
        i += 1;
    }
    assert(bytes@.take(i as int) =~= bytes@);
    text.append("]");
    assert(text@ =~= start + byte_list(bytes@));
}

/// The number of texts that [`upper_hex`] of this width tells apart.
pub open spec fn hex_span(width: nat) -> nat
    decreases width,
{
    if width == 0 {
        1
    } else {
        16 * hex_span((width - 1) as nat)
    }
}

/// Two numbers below `16^width` with the same text of that width are equal, and
/// the text has `width` digits.
pub proof fn lemma_upper_hex_injective(a: nat, b: nat, width: nat)
    requires
        a < hex_span(width),
        b < hex_span(width),
    ensures
        upper_hex(a, width).len() == width,
        upper_hex(a, width) == upper_hex(b, width) ==> a == b,
    decreases width,
{
    if width > 0 {
        let rest = (width - 1) as nat;
        lemma_upper_hex_injective(a / 16, b / 16, rest);
        if upper_hex(a, width) == upper_hex(b, width) {
            assert(upper_hex(a, width).drop_last() =~= upper_hex(a / 16, rest));
            assert(upper_hex(b, width).drop_last() =~= upper_hex(b / 16, rest));
            assert(upper_hex(a, width).last() == upper_digit(a % 16));
            assert(upper_hex(b, width).last() == upper_digit(b % 16));
            assert(a % 16 == b % 16);
        }
    }
}

} // verus!
