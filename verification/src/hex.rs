use vstd::prelude::*;
use vstd::string::*;

verus! {

/// The sixteen upper-case hexadecimal digits, each at the place of the number
/// it stands for.
pub open spec fn hex_digits() -> Seq<char> {
    seq!['0', '1', '2', '3', '4', '5', '6', '7', '8', '9', 'A', 'B', 'C', 'D', 'E', 'F']
}

/// The two digits that spell `byte`, the more significant one first.
pub open spec fn hex_pair(byte: u8) -> Seq<char> {
    seq![hex_digits()[byte as int / 16], hex_digits()[byte as int % 16]]
}

/// The digits that spell `bytes`, two for each byte, the last byte first.
pub open spec fn hex_reversed(bytes: Seq<u8>) -> Seq<char>
    decreases bytes.len(),
{
    if bytes.len() == 0 {
        Seq::empty()
    } else {
        hex_pair(bytes.last()) + hex_reversed(bytes.drop_last())
    }
}

/// Whether `c` is one of the sixteen upper-case hexadecimal digits.
pub open spec fn is_hex_digit(c: char) -> bool {
    hex_digits().contains(c)
}

/// Spelling bytes gives two characters for each byte, and each character is
/// an upper-case hexadecimal digit.
pub proof fn lemma_hex_reversed_shape(bytes: Seq<u8>)
    ensures
        hex_reversed(bytes).len() == 2 * bytes.len(),
        forall|i: int| 0 <= i < 2 * bytes.len() ==> is_hex_digit(#[trigger] hex_reversed(bytes)[i]),
    decreases bytes.len(),
{
    if bytes.len() > 0 {
        lemma_hex_reversed_shape(bytes.drop_last());
    }
}

/// Spelling four bytes gives the two digits of the fourth, then those of the
/// third, of the second and of the first.
pub proof fn lemma_hex_reversed_of_four(bytes: Seq<u8>)
    requires
        bytes.len() == 4,
    ensures
        hex_reversed(bytes) == hex_pair(bytes[3]) + hex_pair(bytes[2]) + hex_pair(bytes[1])
            + hex_pair(bytes[0]),
{
    reveal_with_fuel(hex_reversed, 5);
}

/// The digit for `nibble`, as a text of one character.
fn digit_text(nibble: u8) -> (text: &'static str)
    requires
        nibble < 16,
    ensures
        text@ == seq![hex_digits()[nibble as int]],
{
    let digits = "0123456789ABCDEF";
    proof {
        reveal_strlit("0123456789ABCDEF");
    }
    let at = nibble as usize;
    digits.substring_ascii(at, at + 1)
}

/// Appends the two digits of `byte` to `text`.
fn push_hex_pair(text: &mut String, byte: u8)
    ensures
        final(text)@ == old(text)@ + hex_pair(byte),
{
    text.append(digit_text(byte / 16));
    text.append(digit_text(byte % 16));
}

/// Spells `bytes` in upper-case hexadecimal digits, two for each byte,
/// beginning with the last byte: a number stored least significant byte first
/// comes out as it is written.
pub fn to_hex_reversed(bytes: &[u8]) -> (text: String)
    ensures
        text@ == hex_reversed(bytes@),
{
    let mut text = String::new();
    let mut left = bytes.len();
    assert(bytes@.take(left as int) == bytes@);
    while left > 0
        invariant
            left <= bytes@.len(),
            text@ + hex_reversed(bytes@.take(left as int)) == hex_reversed(bytes@),
        decreases left,
    {
        left -= 1;
        proof {
            let ahead = bytes@.take(left + 1);
            assert(ahead.drop_last() == bytes@.take(left as int));
            assert(text@ + hex_reversed(ahead) == (text@ + hex_pair(bytes@[left as int]))
                + hex_reversed(bytes@.take(left as int)));
        }
        push_hex_pair(&mut text, bytes[left]);
    }
    text
}

} // verus!
