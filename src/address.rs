use vstd::prelude::*;

verus! {

/// Width of an account address, in bytes.
pub const ADDRESS_LENGTH: usize = 32;

/// A fixed-width account address: the identifier of an account or of a
/// module publisher.
#[derive(Clone, Copy, Debug, PartialEq, Eq)]
pub struct Address {
    pub bytes: [u8; 32],
}

impl Address {
    /// The address as a sequence of its bytes.
    pub open spec fn view(&self) -> Seq<u8> {
        self.bytes@
    }

    pub fn new(bytes: [u8; 32]) -> (r: Address)
        ensures
            r.bytes == bytes,
    {
        Address { bytes }
    }
}

/// The bytes of the reserved address that hosts the token modules: all zero
/// but for a final byte of three.
pub open spec fn address_three_bytes() -> Seq<u8> {
    Seq::new(32, |i: int| if i == 31 { 3u8 } else { 0u8 })
}

/// The reserved address `0x3` at which the token modules are published.
pub fn get_hex_address_three() -> (r: Address)
    ensures
        r@ == address_three_bytes(),
{
    let mut bytes: [u8; 32] = [0u8; 32];
    bytes[31] = 3u8;
    let r = Address { bytes };
    assert(r@ =~= address_three_bytes());
    r
}

} // verus!
