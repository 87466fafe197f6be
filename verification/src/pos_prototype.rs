//! The PoS prototype variant: claim a win whenever the state says the player
//! can win, passing the winner's address along with the index.  Unlike the
//! claim variant, its `claimWin` call takes two arguments; this asymmetry is
//! deliberate and preserved.

use vstd::prelude::*;
use crate::abi::DecodeError;
use crate::engine;
use crate::engine::VariantKind;
use crate::num::Address;
use crate::reaction::Reaction;
use crate::state::Archive;
use crate::state::Instance;
use crate::state::PrettyInstance;

verus! {

/// Handler for the PoS prototype contract.
pub struct PoSPrototype();

/// The positional form of a decoded PoS prototype state: whether the player
/// can win and the winner's address, in schema order.
pub struct PoSPrototypeCtxParsed(pub bool, pub Address);

/// The named form of a decoded PoS prototype state.
#[derive(Clone, Copy, PartialEq, Eq, Structural, Debug)]
pub struct PoSPrototypeCtx {
    pub can_win: bool,
    pub winner_address: Address,
}

impl From<PoSPrototypeCtxParsed> for PoSPrototypeCtx {
    /// Name each positional field.
    fn from(parsed: PoSPrototypeCtxParsed) -> (r: PoSPrototypeCtx) {
        PoSPrototypeCtx { can_win: parsed.0, winner_address: parsed.1 }
    }
}

impl vstd::std_specs::convert::FromSpecImpl<PoSPrototypeCtxParsed> for PoSPrototypeCtx {
    open spec fn obeys_from_spec() -> bool {
        true
    }

    open spec fn from_spec(parsed: PoSPrototypeCtxParsed) -> PoSPrototypeCtx {
        PoSPrototypeCtx { can_win: parsed.0, winner_address: parsed.1 }
    }
}

/// The PoS prototype decision: claim exactly when the player can win.
pub open spec fn pos_prototype_decision(ctx: PoSPrototypeCtx) -> bool {
    ctx.can_win
}

impl PoSPrototype {
    /// React to the PoS prototype contract: decode the instance's encoded
    /// state and emit either a `claimWin` transaction carrying the instance
    /// index and the winner's address, in that order, or the idle signal.
    pub fn react(instance: &Instance, _archive: &Archive, _post_payload: &Option<String>) -> (r:
        Result<Reaction, DecodeError>)
        ensures
            engine::react_spec(
                r,
                instance.encoded_state@,
                VariantKind::PoSPrototype,
                instance.concern,
                instance.index,
            ),
    {
        engine::react_for(VariantKind::PoSPrototype, instance)
    }

    /// Present the instance for display: the same identity, the encoded
    /// state re-encoded into named fields, and the registry status recorded
    /// under this variant's display name.
    pub fn get_pretty_instance(instance: &Instance, archive: &Archive) -> (r: Result<
        PrettyInstance,
        DecodeError,
    >)
        ensures
            engine::pretty_spec(r, instance, VariantKind::PoSPrototype, archive),
    {
        engine::pretty_for(VariantKind::PoSPrototype, instance, archive)
    }
}

} // verus!
