//! The panel's wire format: two pixels to the byte, four bits each.

use vstd::prelude::*;

verus! {

/// The byte that carries pixel `first` in its high nibble and pixel `second`
/// in its low nibble.  Only the low four bits of either pixel take part.
pub open spec fn pack_pair(first: u8, second: u8) -> u8 {
    ((first % 16) * 16 + second % 16) as u8
}

/// The pixel at `index`, or zero past the end of the buffer.
pub open spec fn pixel_or_zero(input: Seq<u8>, index: int) -> u8 {
    if 0 <= index < input.len() {
        input[index]
    } else {
        0
    }
}

/// The wire form of a pixel buffer: byte `i` packs pixels `2 i` and
/// `2 i + 1`, and a buffer of odd length is padded with a zero nibble.
pub open spec fn packed(input: Seq<u8>) -> Seq<u8> {
    Seq::new(
        ((input.len() + 1) / 2) as nat,
        |i: int| pack_pair(input[2 * i], pixel_or_zero(input, 2 * i + 1)),
    )
}

proof fn lemma_pack_pair_bits(first: u8, second: u8)
    ensures
        ((first << 4) & 0xF0) | (second & 0x0F) == pack_pair(first, second),
{
    assert(((first << 4) & 0xF0) | (second & 0x0F) == ((first % 16) * 16 + second % 16) as u8)
        by (bit_vector);
}

/// Packs a buffer of pixel indices into the panel's wire format.
pub fn pack_nibbles(input: &[u8]) -> (out: Vec<u8>)
    ensures
        out@ == packed(input@),
        out.len() == (input.len() + 1) / 2,
        input.len() % 2 == 0 ==> out.len() == input.len() / 2,
{
    let n = input.len();
    let count = n / 2 + n % 2;
    let mut out: Vec<u8> = Vec::new();
    let mut k: usize = 0;
    while k < count
        invariant
            n == input.len(),
            count == (n + 1) / 2,
            k <= count,
            out.len() == k,
            forall|j: int|
                0 <= j < k ==> out[j] == pack_pair(input[2 * j], pixel_or_zero(input@, 2 * j + 1)),
        decreases count - k,
    {
        let first = input[2 * k];
        let second = if n - 2 * k > 1 {
            input[2 * k + 1]
        } else {
            0
        };
        proof {
            lemma_pack_pair_bits(first, second);
        }
        let high = (first << 4) & 0xF0;
        let low = second & 0x0F;
        out.push(high | low);
        k += 1;
    }
    out
}

/// The two nibbles of a packed byte are the low four bits of the pixels it
/// was made from.
pub proof fn law_packed_byte_holds_both_pixels(first: u8, second: u8)
    ensures
        pack_pair(first, second) / 16 == first % 16,
        pack_pair(first, second) % 16 == second % 16,
{
}

/// A buffer of even length packs into half as many bytes.  One of odd
/// length packs into one byte more than half, and the low nibble of its last
/// byte is zero.
pub proof fn law_packed_length(input: Seq<u8>)
    ensures
        input.len() % 2 == 0 ==> packed(input).len() == input.len() / 2,
        input.len() % 2 == 1 ==> packed(input).len() == (input.len() + 1) / 2,
        input.len() % 2 == 1 ==> packed(input).last() % 16 == 0,
{
}

} // verus!
