//! The PoS claim variant: claim a win whenever the state says the player can
//! win.  It shares its schema with the production variant but is keyed on
//! `can_win`; both are kept as distinct variants.

use vstd::prelude::*;
use crate::abi::DecodeError;
use crate::engine;
use crate::engine::VariantKind;
use crate::num::Address;
use crate::num::U256;
use crate::reaction::Reaction;
use crate::state::Archive;
use crate::state::Instance;
use crate::state::PrettyInstance;

verus! {

/// Handler for the PoS claim contract.
pub struct PoSClaim();

/// The positional form of a decoded PoS claim state: whether the player can
/// win, the winner's address, the current prize and the user split, in
/// schema order.
pub struct PoSClaimCtxParsed(pub bool, pub Address, pub U256, pub U256);

/// The named form of a decoded PoS claim state.  `winner_address`,
/// `current_prize` and `user_split` are decoded but unused by the current
/// decision.
#[derive(Clone, Copy, PartialEq, Eq, Structural, Debug)]
pub struct PoSClaimCtx {
    pub can_win: bool,
    pub winner_address: Address,
    pub current_prize: U256,
    pub user_split: U256,
}

impl From<PoSClaimCtxParsed> for PoSClaimCtx {
    /// Name each positional field.
    fn from(parsed: PoSClaimCtxParsed) -> (r: PoSClaimCtx) {
        PoSClaimCtx {
            can_win: parsed.0,
            winner_address: parsed.1,
            current_prize: parsed.2,
            user_split: parsed.3,
        }
    }
}

impl vstd::std_specs::convert::FromSpecImpl<PoSClaimCtxParsed> for PoSClaimCtx {
    open spec fn obeys_from_spec() -> bool {
        true
    }

    open spec fn from_spec(parsed: PoSClaimCtxParsed) -> PoSClaimCtx {
        PoSClaimCtx {
            can_win: parsed.0,
            winner_address: parsed.1,
            current_prize: parsed.2,
            user_split: parsed.3,
        }
    }
}

/// The PoS claim decision: claim exactly when the player can win, whatever
/// the other fields hold.
pub open spec fn pos_claim_decision(ctx: PoSClaimCtx) -> bool {
    ctx.can_win
}

impl PoSClaim {
    /// React to the PoS claim contract: decode the instance's encoded state
    /// and emit either a `claimWin` transaction carrying the instance index
    /// alone or the idle signal.
    pub fn react(instance: &Instance, _archive: &Archive, _post_payload: &Option<String>) -> (r:
        Result<Reaction, DecodeError>)
        ensures
            engine::react_spec(
                r,
                instance.encoded_state@,
                VariantKind::PoSClaim,
                instance.concern,
                instance.index,
            ),
    {
        engine::react_for(VariantKind::PoSClaim, instance)
    }

    /// Present the instance for display: the same identity, the encoded
    /// state re-encoded into named fields, and the registry status recorded
    /// under this variant's display name.
    pub fn get_pretty_instance(instance: &Instance, archive: &Archive) -> (r: Result<
        PrettyInstance,
        DecodeError,
    >)
        ensures
            engine::pretty_spec(r, instance, VariantKind::PoSClaim, archive),
    {
        engine::pretty_for(VariantKind::PoSClaim, instance, archive)
    }
}

} // verus!
