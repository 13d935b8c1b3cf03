use vstd::prelude::*;

verus! {

/// Runs a fixed chain of bitwise operations on a byte and returns every
/// intermediate value: the start value, then in turn the value after NOT,
/// after clearing a bit with AND, after setting a bit with OR, after XOR,
/// after a left shift by four, and after a right shift by two.
pub fn bitwise_chain(start: u8) -> (steps: Vec<u8>)
    ensures
        steps@.len() == 7,
        steps@[0] == start,
        steps@[1] == !start,
        steps@[2] == (steps@[1] & 0b1111_0111u8),
        steps@[3] == (steps@[2] | 0b0100_0000u8),
        steps@[4] == (steps@[3] ^ 0b0101_0101u8),
        steps@[5] == (steps@[4] << 4u8),
        steps@[6] == (steps@[5] >> 2u8),
{
    let mut steps: Vec<u8> = Vec::new();
    let mut value: u8 = start;
    steps.push(value);
    value = !value;
    steps.push(value);
    value = value & 0b1111_0111;
    steps.push(value);
    value = value | 0b0100_0000;
    steps.push(value);
    value = value ^ 0b0101_0101;
    steps.push(value);
    value = value << 4u8;
    steps.push(value);
    value = value >> 2u8;
    steps.push(value);
    steps
}

/// Reads one bit of a byte by masking it with AND: the result is the bit's
/// own mask when the bit is set and zero when it is clear.
pub fn read_bit(value: u8, index: u8) -> (r: u8)
    requires
        index < 8,
    ensures
        r == (value & (1u8 << index)),
{
    value & (1u8 << index)
}

/// Bitwise NOT is an involution: applying it twice to a byte returns the
/// original value.
pub proof fn lemma_not_involution(x: u8)
    ensures
        !(!x) == x,
{
    assert(!(!x) == x) by (bit_vector);
}

/// ANDing a byte with a mask and then ORing in the mask's complement fixes
/// every bit of the outcome: under the mask the byte's own bits survive, and
/// outside the mask every bit is set.
pub proof fn lemma_mask_and_or_round_trip(x: u8, mask: u8)
    ensures
        ((x & mask) | !mask) & mask == (x & mask),
        ((x & mask) | !mask) & !mask == !mask,
{
    assert(((x & mask) | !mask) & mask == (x & mask)) by (bit_vector);
    assert(((x & mask) | !mask) & !mask == !mask) by (bit_vector);
}

} // verus!
