use vstd::prelude::*;

verus! {

/// The position of a pin's bit inside each register of its bank.
pub open spec fn bit_position(pin: u8) -> u8 {
    pin % 8
}

/// The byte in which only the pin's bit is set.
pub open spec fn spec_mask(pin: u8) -> u8 {
    1u8 << bit_position(pin)
}

/// A register byte with the pin's bit set to `value` and the other seven bits
/// kept.
pub open spec fn spec_assign(byte: u8, pin: u8, value: bool) -> u8 {
    if value {
        byte | spec_mask(pin)
    } else {
        byte & !spec_mask(pin)
    }
}

/// Whether the pin's bit is set in a register byte.
pub open spec fn spec_test(byte: u8, pin: u8) -> bool {
    byte & spec_mask(pin) != 0
}

/// The byte in which only the pin's bit is set.
#[verifier::when_used_as_spec(spec_mask)]
pub fn mask(pin: u8) -> (m: u8)
    ensures
        m == spec_mask(pin),
{
    1u8 << (pin % 8)
}

/// Computes the byte to write back after reading `byte` from a register, so
/// that the pin's bit becomes `value`.
#[verifier::when_used_as_spec(spec_assign)]
pub fn assign(byte: u8, pin: u8, value: bool) -> (updated: u8)
    ensures
        updated == spec_assign(byte, pin, value),
{
    if value {
        byte | mask(pin)
    } else {
        byte & !mask(pin)
    }
}

/// Reads the pin's bit out of a register byte.
#[verifier::when_used_as_spec(spec_test)]
pub fn test(byte: u8, pin: u8) -> (set: bool)
    ensures
        set == spec_test(byte, pin),
{
    byte & mask(pin) != 0
}

/// The byte to write back, given what reading the register returned: the
/// byte that was read with the pin's bit set to `value`, or the error of the
/// read as it is.
pub fn updated<E>(read: Result<u8, E>, pin: u8, value: bool) -> (byte: Result<u8, E>)
    ensures
        byte == match read {
            Ok(existing) => Ok::<u8, E>(spec_assign(existing, pin, value)),
            Err(error) => Err(error),
        },
{
    match read {
        Ok(existing) => Ok(assign(existing, pin, value)),
        Err(error) => Err(error),
    }
}

/// The level of a pin, given what reading the register returned: the pin's
/// bit in the byte that was read, or the error of the read as it is.
pub fn level<E>(read: Result<u8, E>, pin: u8) -> (level: Result<bool, E>)
    ensures
        level == match read {
            Ok(byte) => Ok::<bool, E>(spec_test(byte, pin)),
            Err(error) => Err(error),
        },
{
    match read {
        Ok(byte) => Ok(test(byte, pin)),
        Err(error) => Err(error),
    }
}

/// A pin of bank A has its own index as bit position, a pin of bank B its
/// index less eight.
pub proof fn lemma_mask_by_bank(pin: u8)
    requires
        pin < 16,
    ensures
        pin < 8 ==> spec_mask(pin) == 1u8 << pin,
        pin >= 8 ==> spec_mask(pin) == 1u8 << ((pin - 8) as u8),
        bit_position(pin) < 8,
{
    assert(pin < 8 ==> pin % 8 == pin) by (bit_vector);
    assert(8 <= pin < 16 ==> pin % 8 == (pin - 8) as u8) by (bit_vector);
}

/// A bit reads back as it was assigned.
pub proof fn lemma_assign_then_test(byte: u8, pin: u8, value: bool)
    ensures
        spec_test(spec_assign(byte, pin, value), pin) == value,
{
    let p = bit_position(pin);
    assert(p < 8) by (bit_vector)
        requires
            p == pin % 8,
    ;
    assert(((byte | (1u8 << p)) & (1u8 << p)) != 0) by (bit_vector)
        requires
            p < 8,
    ;
    assert(((byte & !(1u8 << p)) & (1u8 << p)) == 0) by (bit_vector)
        requires
            p < 8,
    ;
}

/// Assigning one pin's bit leaves the bit of every pin at another position as
/// it was.
pub proof fn lemma_assign_keeps_others(byte: u8, pin: u8, other: u8, value: bool)
    requires
        bit_position(pin) != bit_position(other),
    ensures
        spec_test(spec_assign(byte, pin, value), other) == spec_test(byte, other),
{
    let p = bit_position(pin);
    let q = bit_position(other);
    assert(p < 8 && q < 8) by (bit_vector)
        requires
            p == pin % 8,
            q == other % 8,
    ;
    assert(((byte | (1u8 << p)) & (1u8 << q)) == (byte & (1u8 << q))) by (bit_vector)
        requires
            p < 8,
            q < 8,
            p != q,
    ;
    assert(((byte & !(1u8 << p)) & (1u8 << q)) == (byte & (1u8 << q))) by (bit_vector)
        requires
            p < 8,
            q < 8,
            p != q,
    ;
}

} // verus!
