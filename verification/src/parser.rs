//! The multicast group address as it appears on the wire.
use vstd::prelude::*;

verus! {

/// A 4-byte multicast group identifier. It is both a wire field of the
/// group-setup request and the lookup key of the session pool. Not secret.
///
/// The bytes are held in transmitted (least-significant-first) order: the
/// order in which the address stands in the group-setup request and enters
/// the key-derivation block. To build an address from its usual
/// most-significant-first notation, use `From<[u8; 4]>`, which reverses.
#[derive(Debug, Clone, Copy)]
pub struct MulticastAddr(pub [u8; 4]);

impl View for MulticastAddr {
    type V = Seq<u8>;

    open spec fn view(&self) -> Seq<u8> {
        self.0@
    }
}

impl MulticastAddr {
    /// The width of the address field in bytes.
    pub fn byte_len() -> (r: usize)
        ensures
            r == 4,
    {
        4
    }

    /// Copies the first four bytes of `data` into an owned address.
    pub fn new_from_raw(data: &[u8]) -> (r: MulticastAddr)
        requires
            data@.len() >= 4,
        ensures
            r@ == data@.subrange(0, 4),
    {
        let r = MulticastAddr([data[0], data[1], data[2], data[3]]);
        proof {
            assert(r@ =~= data@.subrange(0, 4));
        }
        r
    }
}

impl PartialEq for MulticastAddr {
    /// Byte-for-byte comparison of the two addresses.
    fn eq(&self, other: &MulticastAddr) -> (r: bool) {
        let r = self.0[0] == other.0[0] && self.0[1] == other.0[1]
            && self.0[2] == other.0[2] && self.0[3] == other.0[3];
        proof {
            if r {
                assert(self.0@ =~= other.0@);
            }
        }
        r
    }
}

impl vstd::std_specs::cmp::PartialEqSpecImpl for MulticastAddr {
    open spec fn obeys_eq_spec() -> bool {
        true
    }

    open spec fn eq_spec(&self, other: &MulticastAddr) -> bool {
        self@ == other@
    }
}

impl From<[u8; 4]> for MulticastAddr {
    /// Takes the address in most-significant-first notation and stores it in
    /// transmitted order.
    fn from(data: [u8; 4]) -> (r: MulticastAddr) {
        MulticastAddr([data[3], data[2], data[1], data[0]])
    }
}

impl vstd::std_specs::convert::FromSpecImpl<[u8; 4]> for MulticastAddr {
    open spec fn obeys_from_spec() -> bool {
        true
    }

    open spec fn from_spec(data: [u8; 4]) -> MulticastAddr {
        MulticastAddr([data[3], data[2], data[1], data[0]])
    }
}

} // verus!
