//! Device addresses as they travel with ranging measurements.

use vstd::prelude::*;

verus! {

/// Number of bytes of a serialized short address.
pub const SHORT_MAC_ADDRESS_LEN: i32 = 2;

/// Number of bytes of a serialized extended address.
pub const EXTENDED_MAC_ADDRESS_LEN: i32 = 8;

/// Address of a ranging peer: two bytes wide or eight.
#[derive(Debug, PartialEq, Eq, Structural, Clone, Copy)]
pub enum MacAddress {
    Short(u16),
    Extended(u64),
}

/// The byte of `value` at position `index`, counted from the least significant one.
pub open spec fn byte_at(value: u64, index: nat) -> u8 {
    ((value as nat / vstd::arithmetic::power2::pow2(8 * index)) % 256) as u8
}

/// The `width` low bytes of `value`, least significant first.
pub open spec fn little_endian(value: u64, width: nat) -> Seq<u8> {
    Seq::new(width, |i: int| byte_at(value, i as nat))
}

/// The `width` low bytes of `value`, most significant first.
pub open spec fn big_endian(value: u64, width: nat) -> Seq<u8> {
    Seq::new(width, |i: int| byte_at(value, (width - 1 - i) as nat))
}

/// Whether `bytes` holds the `width` low bytes of `value` in one of the two
/// byte orders a machine may have.
pub open spec fn is_native_bytes(bytes: Seq<u8>, value: u64, width: nat) -> bool {
    bytes == little_endian(value, width) || bytes == big_endian(value, width)
}

/// `u16::to_ne_bytes`: the two bytes of the value in the byte order of the
/// machine, which is one of the two orders there are.
#[verifier::external_body]
fn short_to_ne_bytes(value: u16) -> (bytes: [u8; 2])
    ensures
        is_native_bytes(bytes@, value as u64, 2),
{
    value.to_ne_bytes()
}

/// `u64::to_ne_bytes`: the eight bytes of the value in the byte order of the
/// machine, which is one of the two orders there are.
#[verifier::external_body]
fn extended_to_ne_bytes(value: u64) -> (bytes: [u8; 8])
    ensures
        is_native_bytes(bytes@, value, 8),
{
    value.to_ne_bytes()
}

/// Copies the bytes of an array into a vector.
pub fn bytes_of<const N: usize>(bytes: &[u8; N]) -> (copy: Vec<u8>)
    ensures
        copy@ == bytes@,
{
    let mut copy: Vec<u8> = Vec::new();
    let mut i: usize = 0;
    while i < N
        invariant
            i <= N,
            bytes@.len() == N,
            copy@ == bytes@.take(i as int),
        decreases N - i,
    {
        copy.push(bytes[i]);
        i += 1;
        assert(copy@ =~= bytes@.take(i as int));
    }
    assert(bytes@.take(N as int) =~= bytes@);
    copy
}

impl MacAddress {
    /// The numeric value of the address.
    pub open spec fn value(self) -> u64 {
        match self {
            MacAddress::Short(v) => v as u64,
            MacAddress::Extended(v) => v,
        }
    }

    /// The number of bytes the address serializes to.
    pub open spec fn width(self) -> nat {
        match self {
            MacAddress::Short(_) => 2,
            MacAddress::Extended(_) => 8,
        }
    }

    /// The number of bytes the address serializes to.
    pub fn byte_len(&self) -> (len: i32)
        ensures
            len == self.width(),
            len == SHORT_MAC_ADDRESS_LEN || len == EXTENDED_MAC_ADDRESS_LEN,
    {
        match self {
            MacAddress::Short(_) => SHORT_MAC_ADDRESS_LEN,
            MacAddress::Extended(_) => EXTENDED_MAC_ADDRESS_LEN,
        }
    }

    /// Serializes the address in the byte order of the machine.
    pub fn into_ne_bytes(self) -> (bytes: Vec<u8>)
        ensures
            bytes@.len() == self.width(),
            is_native_bytes(bytes@, self.value(), self.width()),
    {
        match self {
            MacAddress::Short(val) => bytes_of(&short_to_ne_bytes(val)),
            MacAddress::Extended(val) => bytes_of(&extended_to_ne_bytes(val)),
        }
    }
}

} // verus!
