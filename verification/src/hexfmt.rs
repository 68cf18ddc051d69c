//! Lowercase hexadecimal text for the leading bytes of a commit id.

use vstd::prelude::*;

verus! {

/// The sixteen lowercase hexadecimal digits, in order of value.
pub open spec fn hex_alphabet() -> Seq<char> {
    seq!['0', '1', '2', '3', '4', '5', '6', '7', '8', '9', 'a', 'b', 'c', 'd', 'e', 'f']
}

/// The digit that stands for a value below sixteen.
pub open spec fn hex_digit(nibble: int) -> char {
    hex_alphabet()[nibble]
}

/// Two lowercase digits for every byte, the high half first.
pub open spec fn hex_lower(bytes: Seq<u8>) -> Seq<char> {
    Seq::new(
        2 * bytes.len(),
        |i: int|
            if i % 2 == 0 {
                hex_digit(bytes[i / 2] as int / 16)
            } else {
                hex_digit(bytes[i / 2] as int % 16)
            },
    )
}

/// The text has twice as many characters as there are bytes, and each one is
/// a lowercase hexadecimal digit.
pub proof fn lemma_hex_lower_digits(bytes: Seq<u8>)
    ensures
        hex_lower(bytes).len() == 2 * bytes.len(),
        forall|i: int|
            0 <= i < hex_lower(bytes).len() ==> hex_alphabet().contains(
                #[trigger] hex_lower(bytes)[i],
            ),
{
    assert forall|i: int| 0 <= i < hex_lower(bytes).len() implies hex_alphabet().contains(
        #[trigger] hex_lower(bytes)[i],
    ) by {
        let byte = bytes[i / 2] as int;
        let nibble = if i % 2 == 0 {
            byte / 16
        } else {
            byte % 16
        };
        assert(0 <= nibble < 16);
        assert(hex_lower(bytes)[i] == hex_alphabet()[nibble]);
    }
}

/// The text of the first `count` bytes is the first `2 * count` characters
/// of the text of all the bytes.
pub proof fn lemma_hex_lower_prefix(bytes: Seq<u8>, count: int)
    requires
        0 <= count <= bytes.len(),
    ensures
        hex_lower(bytes.subrange(0, count)) == hex_lower(bytes).subrange(0, 2 * count),
{
    let head = bytes.subrange(0, count);
    assert forall|i: int| 0 <= i < 2 * count implies hex_lower(head)[i] == hex_lower(bytes)[i] by {
        assert(head[i / 2] == bytes[i / 2]);
    }
    assert(hex_lower(head) =~= hex_lower(bytes).subrange(0, 2 * count));
}

/// Calls `hex::encode`. The crate documents, and its source shows, that each
/// byte of the input becomes two characters of `0123456789abcdef`: first the
/// one for its high four bits, then the one for its low four bits.
#[verifier::external_body]
pub(crate) fn hex_encode(data: &[u8]) -> (text: String)
    ensures
        text@ == hex_lower(data@),
{
    hex::encode(data)
}

} // verus!
