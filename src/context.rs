use vstd::prelude::*;

use crate::address::Address;
use crate::amount::BigUint;

verus! {

/// What the ledger tells an entry point about the call it runs in.
pub struct CallContext {
    /// Identity of the account that made the call.
    pub caller: Address,
    /// Timestamp of the block the call is executed in.
    pub block_timestamp: u64,
    /// Native-token amount attached to the call.
    pub payment: BigUint,
}

impl CallContext {
    pub fn new(caller: Address, block_timestamp: u64, payment: BigUint) -> (r: CallContext)
        ensures
            r.caller == caller,
            r.block_timestamp == block_timestamp,
            r.payment == payment,
    {
        CallContext { caller, block_timestamp, payment }
    }
}

} // verus!
