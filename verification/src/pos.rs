//! The PoS production variant: produce a block when production is allowed
//! and the current reward is strictly positive.

use vstd::prelude::*;
use crate::abi::DecodeError;
use crate::engine;
use crate::engine::VariantKind;
use crate::num::Address;
use crate::num::U256;
use crate::reaction::Reaction;
use crate::state::Archive;
use crate::state::Instance;
use crate::state::PrettyInstance;

verus! {

/// Handler for the PoS block-production contract.
pub struct PoS();

/// The positional form of a decoded PoS production state: whether production
/// is allowed, the block selector's address, the current reward and the user
/// split, in schema order.
pub struct PoSCtxParsed(pub bool, pub Address, pub U256, pub U256);

/// The named form of a decoded PoS production state.  `user_split` is
/// decoded but deliberately unused by the current decision: it is reserved
/// for a future reward-threshold rule.
#[derive(Clone, Copy, PartialEq, Eq, Structural, Debug)]
pub struct PoSCtx {
    pub can_produce: bool,
    pub block_selector_address: Address,
    pub current_reward: U256,
    pub user_split: U256,
}

impl From<PoSCtxParsed> for PoSCtx {
    /// Name each positional field.
    fn from(parsed: PoSCtxParsed) -> (r: PoSCtx) {
        PoSCtx {
            can_produce: parsed.0,
            block_selector_address: parsed.1,
            current_reward: parsed.2,
            user_split: parsed.3,
        }
    }
}

impl vstd::std_specs::convert::FromSpecImpl<PoSCtxParsed> for PoSCtx {
    open spec fn obeys_from_spec() -> bool {
        true
    }

    open spec fn from_spec(parsed: PoSCtxParsed) -> PoSCtx {
        PoSCtx {
            can_produce: parsed.0,
            block_selector_address: parsed.1,
            current_reward: parsed.2,
            user_split: parsed.3,
        }
    }
}

/// The PoS production decision: produce a block exactly when production is
/// allowed and the current reward is strictly positive.
pub open spec fn pos_decision(ctx: PoSCtx) -> bool {
    ctx.can_produce && ctx.current_reward.as_nat() > 0
}

impl PoSCtx {
    /// Evaluate the PoS production decision.
    pub fn should_produce(&self) -> (r: bool)
        ensures
            r == pos_decision(*self),
    {
        self.can_produce && !self.current_reward.is_zero()
    }
}

impl PoS {
    /// React to the PoS production contract: decode the instance's encoded
    /// state, evaluate the production decision, and emit either a
    /// `produceBlock` transaction carrying the instance index or the idle
    /// signal.
    pub fn react(instance: &Instance, _archive: &Archive, _post_payload: &Option<String>) -> (r:
        Result<Reaction, DecodeError>)
        ensures
            engine::react_spec(
                r,
                instance.encoded_state@,
                VariantKind::PoSProduce,
                instance.concern,
                instance.index,
            ),
    {
        engine::react_for(VariantKind::PoSProduce, instance)
    }

    /// Present the instance for display: the same identity, the encoded
    /// state re-encoded into named fields, and the registry status recorded
    /// under this variant's display name.
    pub fn get_pretty_instance(instance: &Instance, archive: &Archive) -> (r: Result<
        PrettyInstance,
        DecodeError,
    >)
        ensures
            engine::pretty_spec(r, instance, VariantKind::PoSProduce, archive),
    {
        engine::pretty_for(VariantKind::PoSProduce, instance, archive)
    }
}

} // verus!
