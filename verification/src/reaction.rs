//! The outcome of one decision call: either a transaction descriptor handed
//! to the external submission collaborator, or an explicit idle signal.

use vstd::prelude::*;
use crate::abi::AbiValue;
use crate::num::U256;
use crate::state::Concern;

verus! {

/// Submission policy for a transaction.  This layer always selects the
/// simplest policy; strategy selection logic lives elsewhere.
#[derive(Clone, Copy, PartialEq, Eq, Structural, Debug)]
pub enum Strategy {
    Simplest,
}

/// The outbound transaction descriptor consumed by the submission
/// collaborator.
#[derive(Clone, PartialEq, Debug)]
pub struct TransactionRequest {
    /// Pass-through identity of the target contract.
    pub concern: Concern,
    /// Value transferred; always zero in this layer.
    pub value: U256,
    /// Name of the contract function to call.
    pub function: String,
    /// Ordered typed arguments of the call.
    pub data: Vec<AbiValue>,
    /// Gas bound; always left to the submission collaborator's default.
    pub gas: Option<U256>,
    /// Submission policy; always the simplest one here.
    pub strategy: Strategy,
}

/// This layer's output: a transaction to submit, or an idle signal carrying
/// no data.
#[derive(Clone, PartialEq, Debug)]
pub enum Reaction {
    Transaction(TransactionRequest),
    Idle,
}

/// What every transaction request built by this layer looks like: the
/// pass-through concern, zero value, the given function name and argument
/// list, no gas bound, and the simplest submission policy.
pub open spec fn is_simple_request(
    req: TransactionRequest,
    concern: Concern,
    function: Seq<char>,
    args: Seq<AbiValue>,
) -> bool {
    &&& req.concern == concern
    &&& req.value.as_nat() == 0
    &&& req.function@ == function
    &&& req.data@ == args
    &&& req.gas is None
    &&& req.strategy is Simplest
}

} // verus!
