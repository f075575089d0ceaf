//! The inbound message record: one tuple forwarded by the gateway.

use vstd::prelude::*;

verus! {

/// One cross-chain message as the gateway delivered it.  All three fields
/// are opaque byte strings: no encoding is assumed of them.
pub struct ReceivedValue {
    pub source_chain: Vec<u8>,
    pub source_address: Vec<u8>,
    pub payload: Vec<u8>,
}

/// The mathematical content of a [`ReceivedValue`].
pub ghost struct MessageView {
    pub source_chain: Seq<u8>,
    pub source_address: Seq<u8>,
    pub payload: Seq<u8>,
}

impl View for ReceivedValue {
    type V = MessageView;

    open spec fn view(&self) -> MessageView {
        MessageView {
            source_chain: self.source_chain@,
            source_address: self.source_address@,
            payload: self.payload@,
        }
    }
}

/// An exact copy of a byte string.
pub(crate) fn clone_bytes(v: &Vec<u8>) -> (r: Vec<u8>)
    ensures
        r@ == v@,
{
    let r = v.clone();
    proof {
        assert(r@ =~= v@);
    }
    r
}

} // verus!
