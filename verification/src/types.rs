//! Identifiers used around the protocol: protocol names and peer ids.

use vstd::prelude::*;
use crate::codec::copy_range;

verus! {

/// The name of one protocol, as it appears in negotiation. The first name
/// of a set is the main one; the rest are accepted fallbacks.
#[derive(Debug)]
pub struct ProtocolName {
    bytes: Vec<u8>,
}

impl View for ProtocolName {
    type V = Seq<u8>;

    closed spec fn view(&self) -> Seq<u8> {
        self.bytes@
    }
}

impl ProtocolName {
    /// A protocol name from its bytes on the wire.
    pub fn new(bytes: Vec<u8>) -> (r: Self)
        ensures
            r@ == bytes@,
    {
        ProtocolName { bytes }
    }

    /// The bytes of the name.
    pub fn as_bytes(&self) -> (r: &Vec<u8>)
        ensures
            r@ == self@,
    {
        &self.bytes
    }
}

impl Clone for ProtocolName {
    /// A copy carrying the same bytes.
    fn clone(&self) -> (r: Self)
        ensures
            r@ == self@,
    {
        ProtocolName { bytes: copy_range(&self.bytes, 0, self.bytes.len()) }
    }
}

impl PartialEq for ProtocolName {
    /// Names are equal exactly when their bytes are.
    fn eq(&self, other: &Self) -> (r: bool) {
        if self.bytes.len() != other.bytes.len() {
            proof {
                assert(self@ != other@);
            }
            return false;
        }
        let n: usize = self.bytes.len();
        let mut i: usize = 0;
        while i < n
            invariant
                0 <= i <= n,
                n == self@.len() == other@.len(),
                forall|j: int| 0 <= j < i ==> self@[j] == other@[j],
            decreases n - i,
        {
            if self.bytes[i] != other.bytes[i] {
                proof {
                    assert(self@[i as int] != other@[i as int]);
                }
                return false;
            }
            i = i + 1;
        }
        proof {
            assert(self@ =~= other@);
        }
        true
    }
}

impl Eq for ProtocolName {

}

impl vstd::std_specs::cmp::PartialEqSpecImpl for ProtocolName {
    open spec fn obeys_eq_spec() -> bool {
        true
    }

    open spec fn eq_spec(&self, other: &Self) -> bool {
        self@ == other@
    }
}

/// The identity of the remote peer: an opaque value, carried on the
/// outbound path for diagnostics only.
#[derive(Debug)]
pub struct PeerId {
    bytes: Vec<u8>,
}

impl View for PeerId {
    type V = Seq<u8>;

    closed spec fn view(&self) -> Seq<u8> {
        self.bytes@
    }
}

impl PeerId {
    /// A peer id from its opaque bytes.
    pub fn new(bytes: Vec<u8>) -> (r: Self)
        ensures
            r@ == bytes@,
    {
        PeerId { bytes }
    }

    /// The bytes of the id.
    pub fn as_bytes(&self) -> (r: &Vec<u8>)
        ensures
            r@ == self@,
    {
        &self.bytes
    }
}

impl Clone for PeerId {
    /// A copy carrying the same bytes.
    fn clone(&self) -> (r: Self)
        ensures
            r@ == self@,
    {
        PeerId { bytes: copy_range(&self.bytes, 0, self.bytes.len()) }
    }
}

/// The views of an optional protocol name.
pub open spec fn name_option_view(names: Option<ProtocolName>) -> Option<Seq<u8>> {
    match names {
        Option::Some(name) => Option::Some(name@),
        Option::None => Option::None,
    }
}

} // verus!
