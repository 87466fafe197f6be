//! The Lottery variant: six 256-bit fields, a claim once the contest has
//! expired or the win inequality holds.

use vstd::prelude::*;
use crate::abi::DecodeError;
use crate::engine;
use crate::engine::VariantKind;
use crate::num::U256;
use crate::reaction::Reaction;
use crate::state::Archive;
use crate::state::Instance;
use crate::state::PrettyInstance;

verus! {

/// Handler for the Lottery contract.
pub struct Lottery();

/// The positional form of a decoded Lottery state: six 256-bit unsigned
/// fields, in schema order.
pub struct LotteryCtxParsed(
    pub U256,
    pub U256,
    pub U256,
    pub U256,
    pub U256,
    pub U256,
);

/// The named form of a decoded Lottery state.
#[derive(Clone, Copy, PartialEq, Eq, Structural, Debug)]
pub struct LotteryCtx {
    pub block_number: U256,
    pub goal_block_number: U256,
    pub difficulty: U256,
    pub staked_balance: U256,
    pub time_passed_micro_seconds: U256,
    pub log_of_distance: U256,
}

impl From<LotteryCtxParsed> for LotteryCtx {
    /// Name each positional field.
    fn from(parsed: LotteryCtxParsed) -> (r: LotteryCtx) {
        LotteryCtx {
            block_number: parsed.0,
            goal_block_number: parsed.1,
            difficulty: parsed.2,
            staked_balance: parsed.3,
            time_passed_micro_seconds: parsed.4,
            log_of_distance: parsed.5,
        }
    }
}

impl vstd::std_specs::convert::FromSpecImpl<LotteryCtxParsed> for LotteryCtx {
    open spec fn obeys_from_spec() -> bool {
        true
    }

    open spec fn from_spec(parsed: LotteryCtxParsed) -> LotteryCtx {
        LotteryCtx {
            block_number: parsed.0,
            goal_block_number: parsed.1,
            difficulty: parsed.2,
            staked_balance: parsed.3,
            time_passed_micro_seconds: parsed.4,
            log_of_distance: parsed.5,
        }
    }
}

/// The contest has expired: the block number exceeds the goal block number by
/// more than 220.  The difference is taken over the full 256-bit width, never
/// through a narrower type; a block number at or below the goal never counts
/// as expired.
pub open spec fn lottery_expired(ctx: LotteryCtx) -> bool {
    ctx.block_number.as_nat() > ctx.goal_block_number.as_nat() + 220
}

/// The win inequality: `staked_balance * time_passed_micro_seconds >
/// difficulty * (256000000 - log_of_distance)`, evaluated exactly over the
/// integers, so a `log_of_distance` beyond 256000000 makes the right-hand
/// side non-positive rather than wrapping around.
pub open spec fn lottery_eligible(ctx: LotteryCtx) -> bool {
    ctx.staked_balance.as_nat() * ctx.time_passed_micro_seconds.as_nat()
        > ctx.difficulty.as_nat() as int * (256000000int - ctx.log_of_distance.as_nat() as int)
}

/// The Lottery decision: claim the round when the contest has expired or the
/// win inequality holds.
pub open spec fn lottery_decision(ctx: LotteryCtx) -> bool {
    lottery_expired(ctx) || lottery_eligible(ctx)
}

impl LotteryCtx {
    /// Evaluate the Lottery decision with exact full-width arithmetic.
    pub fn should_claim(&self) -> (r: bool)
        ensures
            r == lottery_decision(*self),
    {
        if self.block_number.exceeds_by_more_than(&self.goal_block_number, 220) {
            return true;
        }
        if self.log_of_distance.le_u64(256_000_000) {
            let factor = U256 { lo: 256_000_000u128 - self.log_of_distance.lo, hi: 0 };
            let lhs = self.staked_balance.mul_wide(&self.time_passed_micro_seconds);
            let rhs = self.difficulty.mul_wide(&factor);
            lhs.gt(&rhs)
        } else if self.difficulty.is_zero() {
            // The right-hand side is zero, so the product on the left must be
            // strictly positive.
            let r = !self.staked_balance.is_zero() && !self.time_passed_micro_seconds.is_zero();
            proof {
                if self.staked_balance.as_nat() > 0 && self.time_passed_micro_seconds.as_nat()
                    > 0 {
                    vstd::arithmetic::mul::lemma_mul_strictly_positive(
                        self.staked_balance.as_nat() as int,
                        self.time_passed_micro_seconds.as_nat() as int,
                    );
                }
            }
            r
        } else {
            // The right-hand side is strictly negative and the left-hand side
            // is a product of naturals.
            proof {
                assert(self.difficulty.as_nat() as int * (256000000int
                    - self.log_of_distance.as_nat() as int) < 0) by (nonlinear_arith)
                    requires
                        self.difficulty.as_nat() >= 1,
                        256000000int - self.log_of_distance.as_nat() as int <= -1,
                ;
            }
            true
        }
    }
}

impl Lottery {
    /// React to the Lottery contract: decode the instance's encoded state,
    /// evaluate the Lottery decision, and emit either a `claimRound`
    /// transaction carrying the instance index or the idle signal.
    pub fn react(instance: &Instance, _archive: &Archive, _post_payload: &Option<String>) -> (r:
        Result<Reaction, DecodeError>)
        ensures
            engine::react_spec(
                r,
                instance.encoded_state@,
                VariantKind::Lottery,
                instance.concern,
                instance.index,
            ),
    {
        engine::react_for(VariantKind::Lottery, instance)
    }

    /// Present the instance for display: the same identity, the encoded
    /// state re-encoded into named fields, and the registry status recorded
    /// under this variant's display name.
    pub fn get_pretty_instance(instance: &Instance, archive: &Archive) -> (r: Result<
        PrettyInstance,
        DecodeError,
    >)
        ensures
            engine::pretty_spec(r, instance, VariantKind::Lottery, archive),
    {
        engine::pretty_for(VariantKind::Lottery, instance, archive)
    }
}

} // verus!
