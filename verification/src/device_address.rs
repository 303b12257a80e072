//! BLE device addresses.

use vstd::prelude::*;

verus! {

/// A 6-byte device address together with the flag that tells a random
/// address from a public one. Immutable value.
#[derive(Clone, Copy, Debug)]
pub struct DeviceAddress {
    bytes: [u8; 6],
    random: bool,
}

impl DeviceAddress {
    /// The six raw address bytes.
    pub closed spec fn spec_bytes(self) -> Seq<u8> {
        self.bytes@
    }

    /// Whether this is a random (as opposed to public) address.
    pub closed spec fn spec_is_random(self) -> bool {
        self.random
    }

    /// An address always holds exactly six bytes.
    pub proof fn lemma_len(self)
        ensures
            self.spec_bytes().len() == 6,
    {
    }

    /// Creates an address from its six raw bytes and the random/public flag.
    pub fn new(bytes: [u8; 6], random: bool) -> (a: DeviceAddress)
        ensures
            a.spec_bytes() == bytes@,
            a.spec_is_random() == random,
    {
        DeviceAddress { bytes, random }
    }

    /// Returns the raw bytes of the address.
    pub fn raw(&self) -> (r: &[u8])
        ensures
            r@ == self.spec_bytes(),
            r@.len() == 6,
    {
        self.bytes.as_slice()
    }

    /// Returns whether the address is a random one.
    pub fn is_random(&self) -> (r: bool)
        ensures
            r == self.spec_is_random(),
    {
        self.random
    }
}

} // verus!
