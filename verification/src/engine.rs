//! The single generic engine behind all four contract variants.  Each
//! variant is a kind with a fixed positional schema; decoding, the decision
//! point, reaction building and pretty presentation are all driven from that
//! kind by one exhaustive match, so adding or removing a variant is a single
//! compile-time-checked change.

use vstd::prelude::*;
use crate::abi::AbiValue;
use crate::abi::DecodeError;
use crate::abi::FieldKind;
use crate::lottery::LotteryCtx;
use crate::lottery::LotteryCtxParsed;
use crate::lottery::lottery_decision;
use crate::num::U256;
use crate::pos::PoSCtx;
use crate::pos::PoSCtxParsed;
use crate::pos::pos_decision;
use crate::pos_claim::PoSClaimCtx;
use crate::pos_claim::PoSClaimCtxParsed;
use crate::pos_claim::pos_claim_decision;
use crate::pos_prototype::PoSPrototypeCtx;
use crate::pos_prototype::PoSPrototypeCtxParsed;
use crate::pos_prototype::pos_prototype_decision;
use crate::reaction::Reaction;
use crate::reaction::Strategy;
use crate::reaction::TransactionRequest;
use crate::reaction::is_simple_request;
use crate::state::Archive;
use crate::state::Concern;
use crate::state::Instance;
use crate::state::PrettyField;
use crate::state::PrettyInstance;

verus! {

/// The closed set of contract variants this layer can handle.
#[derive(Clone, Copy, PartialEq, Eq, Structural, Debug)]
pub enum VariantKind {
    Lottery,
    PoSProduce,
    PoSClaim,
    PoSPrototype,
}

/// The display name of a variant, used for the pretty instance, the service
/// lookup, and decode diagnostics.
pub open spec fn display_name(kind: VariantKind) -> Seq<char> {
    match kind {
        VariantKind::Lottery => "Lottery"@,
        VariantKind::PoSProduce => "PoS"@,
        VariantKind::PoSClaim => "PoSClaim"@,
        VariantKind::PoSPrototype => "PoSPrototype"@,
    }
}

/// The display name of a variant, as an owned string.
pub fn display_name_string(kind: VariantKind) -> (r: String)
    ensures
        r@ == display_name(kind),
{
    match kind {
        VariantKind::Lottery => "Lottery".to_owned(),
        VariantKind::PoSProduce => "PoS".to_owned(),
        VariantKind::PoSClaim => "PoSClaim".to_owned(),
        VariantKind::PoSPrototype => "PoSPrototype".to_owned(),
    }
}

/// The positional schema of a variant: the declared type of every field, in
/// order.
pub open spec fn schema(kind: VariantKind) -> Seq<FieldKind> {
    match kind {
        VariantKind::Lottery => seq![
            FieldKind::Uint,
            FieldKind::Uint,
            FieldKind::Uint,
            FieldKind::Uint,
            FieldKind::Uint,
            FieldKind::Uint,
        ],
        VariantKind::PoSProduce => seq![
            FieldKind::Bool,
            FieldKind::Address,
            FieldKind::Uint,
            FieldKind::Uint,
        ],
        VariantKind::PoSClaim => seq![
            FieldKind::Bool,
            FieldKind::Address,
            FieldKind::Uint,
            FieldKind::Uint,
        ],
        VariantKind::PoSPrototype => seq![FieldKind::Bool, FieldKind::Address],
    }
}

/// Whether a raw payload matches a variant's schema exactly: the arity and
/// the declared type at every position.  Nothing less decodes; nothing is
/// coerced.
pub open spec fn schema_matches(fields: Seq<AbiValue>, kind: VariantKind) -> bool {
    &&& fields.len() == schema(kind).len()
    &&& forall|i: int| 0 <= i < fields.len() ==> (#[trigger] fields[i].kind()) == schema(kind)[i]
}

/// The executable schema of a variant.
fn schema_vec(kind: VariantKind) -> (r: Vec<FieldKind>)
    ensures
        r@ == schema(kind),
{
    let mut v: Vec<FieldKind> = Vec::new();
    match kind {
        VariantKind::Lottery => {
            v.push(FieldKind::Uint);
            v.push(FieldKind::Uint);
            v.push(FieldKind::Uint);
            v.push(FieldKind::Uint);
            v.push(FieldKind::Uint);
            v.push(FieldKind::Uint);
        },
        VariantKind::PoSProduce => {
            v.push(FieldKind::Bool);
            v.push(FieldKind::Address);
            v.push(FieldKind::Uint);
            v.push(FieldKind::Uint);
        },
        VariantKind::PoSClaim => {
            v.push(FieldKind::Bool);
            v.push(FieldKind::Address);
            v.push(FieldKind::Uint);
            v.push(FieldKind::Uint);
        },
        VariantKind::PoSPrototype => {
            v.push(FieldKind::Bool);
            v.push(FieldKind::Address);
        },
    }
    proof {
        assert(v@ =~= schema(kind));
    }
    v
}

/// Check a raw payload against a variant's schema.
pub fn matches_schema(fields: &Vec<AbiValue>, kind: VariantKind) -> (r: bool)
    ensures
        r == schema_matches(fields@, kind),
{
    let sch = schema_vec(kind);
    if fields.len() != sch.len() {
        return false;
    }
    let n = fields.len();
    for i in 0..n
        invariant
            n == fields.len(),
            sch@ == schema(kind),
            n == sch.len(),
            forall|j: int| 0 <= j < i ==> (#[trigger] fields@[j].kind()) == schema(kind)[j],
    {
        if !fields[i].has_kind(sch[i]) {
            return false;
        }
    }
    true
}

/// One decoded context, tagged by the variant it belongs to.
#[derive(Clone, Copy, PartialEq, Eq, Structural, Debug)]
pub enum DecodedContext {
    Lottery(LotteryCtx),
    PoSProduce(PoSCtx),
    PoSClaim(PoSClaimCtx),
    PoSPrototype(PoSPrototypeCtx),
}

/// The context a schema-matching payload decodes to: field `i` of the
/// payload becomes field `i` of the variant's context, by position.
pub open spec fn decoded_of(fields: Seq<AbiValue>, kind: VariantKind) -> DecodedContext
    recommends
        schema_matches(fields, kind),
{
    match kind {
        VariantKind::Lottery => DecodedContext::Lottery(
            LotteryCtx {
                block_number: fields[0].uint_value(),
                goal_block_number: fields[1].uint_value(),
                difficulty: fields[2].uint_value(),
                staked_balance: fields[3].uint_value(),
                time_passed_micro_seconds: fields[4].uint_value(),
                log_of_distance: fields[5].uint_value(),
            },
        ),
        VariantKind::PoSProduce => DecodedContext::PoSProduce(
            PoSCtx {
                can_produce: fields[0].bool_value(),
                block_selector_address: fields[1].address_value(),
                current_reward: fields[2].uint_value(),
                user_split: fields[3].uint_value(),
            },
        ),
        VariantKind::PoSClaim => DecodedContext::PoSClaim(
            PoSClaimCtx {
                can_win: fields[0].bool_value(),
                winner_address: fields[1].address_value(),
                current_prize: fields[2].uint_value(),
                user_split: fields[3].uint_value(),
            },
        ),
        VariantKind::PoSPrototype => DecodedContext::PoSPrototype(
            PoSPrototypeCtx {
                can_win: fields[0].bool_value(),
                winner_address: fields[1].address_value(),
            },
        ),
    }
}

/// Copy a raw payload, so a decode error can carry it for diagnosis.
fn copy_fields(fields: &Vec<AbiValue>) -> (r: Vec<AbiValue>)
    ensures
        r@ == fields@,
{
    let mut out: Vec<AbiValue> = Vec::new();
    let n = fields.len();
    for i in 0..n
        invariant
            n == fields.len(),
            out@ =~= fields@.take(i as int),
    {
        out.push(fields[i]);
    }
    proof {
        assert(fields@.take(n as int) =~= fields@);
    }
    out
}

/// Decode a raw payload against a variant's schema: the positional, typed
/// context on an exact match, and a `DecodeError` carrying the payload and
/// the variant name on any arity or type mismatch.  Never a partial decode.
pub fn decode(fields: &Vec<AbiValue>, kind: VariantKind) -> (r: Result<
    DecodedContext,
    DecodeError,
>)
    ensures
        schema_matches(fields@, kind) ==> (r matches Ok(ctx) && ctx == decoded_of(
            fields@,
            kind,
        )),
        !schema_matches(fields@, kind) ==> (r matches Err(e) && e.variant@ == display_name(kind)
            && e.payload@ == fields@),
{
    if !matches_schema(fields, kind) {
        return Err(
            DecodeError { variant: display_name_string(kind), payload: copy_fields(fields) },
        );
    }
    match kind {
        VariantKind::Lottery => {
            let parsed = LotteryCtxParsed(
                fields[0].as_uint(),
                fields[1].as_uint(),
                fields[2].as_uint(),
                fields[3].as_uint(),
                fields[4].as_uint(),
                fields[5].as_uint(),
            );
            Ok(DecodedContext::Lottery(LotteryCtx::from(parsed)))
        },
        VariantKind::PoSProduce => {
            let parsed = PoSCtxParsed(
                fields[0].as_bool(),
                fields[1].as_address(),
                fields[2].as_uint(),
                fields[3].as_uint(),
            );
            Ok(DecodedContext::PoSProduce(PoSCtx::from(parsed)))
        },
        VariantKind::PoSClaim => {
            let parsed = PoSClaimCtxParsed(
                fields[0].as_bool(),
                fields[1].as_address(),
                fields[2].as_uint(),
                fields[3].as_uint(),
            );
            Ok(DecodedContext::PoSClaim(PoSClaimCtx::from(parsed)))
        },
        VariantKind::PoSPrototype => {
            let parsed = PoSPrototypeCtxParsed(fields[0].as_bool(), fields[1].as_address());
            Ok(DecodedContext::PoSPrototype(PoSPrototypeCtx::from(parsed)))
        },
    }
}

/// The decision of a decoded context: whether its variant's eligibility
/// predicate asks for a transaction.
pub open spec fn decision_of(ctx: DecodedContext) -> bool {
    match ctx {
        DecodedContext::Lottery(c) => lottery_decision(c),
        DecodedContext::PoSProduce(c) => pos_decision(c),
        DecodedContext::PoSClaim(c) => pos_claim_decision(c),
        DecodedContext::PoSPrototype(c) => pos_prototype_decision(c),
    }
}

/// The contract function a positive decision calls.
pub open spec fn function_of(ctx: DecodedContext) -> Seq<char> {
    match ctx {
        DecodedContext::Lottery(_) => "claimRound"@,
        DecodedContext::PoSProduce(_) => "produceBlock"@,
        DecodedContext::PoSClaim(_) => "claimWin"@,
        DecodedContext::PoSPrototype(_) => "claimWin"@,
    }
}

/// The ordered arguments a positive decision passes: every variant passes
/// the instance index; the prototype variant alone also passes the winner's
/// address, after the index.
pub open spec fn args_of(ctx: DecodedContext, index: U256) -> Seq<AbiValue> {
    match ctx {
        DecodedContext::Lottery(_) => seq![AbiValue::Uint(index)],
        DecodedContext::PoSProduce(_) => seq![AbiValue::Uint(index)],
        DecodedContext::PoSClaim(_) => seq![AbiValue::Uint(index)],
        DecodedContext::PoSPrototype(c) => seq![
            AbiValue::Uint(index),
            AbiValue::Address(c.winner_address),
        ],
    }
}

/// Evaluate the decision of a decoded context.
pub fn decide(ctx: &DecodedContext) -> (r: bool)
    ensures
        r == decision_of(*ctx),
{
    match ctx {
        DecodedContext::Lottery(c) => c.should_claim(),
        DecodedContext::PoSProduce(c) => c.should_produce(),
        DecodedContext::PoSClaim(c) => c.can_win,
        DecodedContext::PoSPrototype(c) => c.can_win,
    }
}

/// Build the reaction for a decoded context: on a positive decision, a
/// transaction for the variant's function with its argument list, zero
/// value, no gas bound and the simplest submission policy; otherwise the
/// idle signal.
pub fn build_reaction(ctx: &DecodedContext, concern: &Concern, index: &U256) -> (r: Reaction)
    ensures
        decision_of(*ctx) ==> (r matches Reaction::Transaction(req) && is_simple_request(
            req,
            *concern,
            function_of(*ctx),
            args_of(*ctx, *index),
        )),
        !decision_of(*ctx) ==> r is Idle,
{
    if !decide(ctx) {
        return Reaction::Idle;
    }
    let function: String = match ctx {
        DecodedContext::Lottery(_) => "claimRound".to_owned(),
        DecodedContext::PoSProduce(_) => "produceBlock".to_owned(),
        DecodedContext::PoSClaim(_) => "claimWin".to_owned(),
        DecodedContext::PoSPrototype(_) => "claimWin".to_owned(),
    };
    let mut data: Vec<AbiValue> = Vec::new();
    data.push(AbiValue::Uint(*index));
    if let DecodedContext::PoSPrototype(c) = ctx {
        data.push(AbiValue::Address(c.winner_address));
    }
    proof {
        assert(data@ =~= args_of(*ctx, *index));
    }
    Reaction::Transaction(
        TransactionRequest {
            concern: *concern,
            value: U256::zero(),
            function,
            data,
            gas: None,
            strategy: Strategy::Simplest,
        },
    )
}

/// What reacting to an instance returns: on a schema match, `Ok` with the
/// decision's reaction; otherwise `Err` with the diagnostic decode error.
pub open spec fn react_spec(
    r: Result<Reaction, DecodeError>,
    fields: Seq<AbiValue>,
    kind: VariantKind,
    concern: Concern,
    index: U256,
) -> bool {
    if schema_matches(fields, kind) {
        let ctx = decoded_of(fields, kind);
        if decision_of(ctx) {
            r matches Ok(rx) && rx matches Reaction::Transaction(req) && is_simple_request(
                req,
                concern,
                function_of(ctx),
                args_of(ctx, index),
            )
        } else {
            r matches Ok(rx) && rx is Idle
        }
    } else {
        r matches Err(e) && e.variant@ == display_name(kind) && e.payload@ == fields
    }
}

/// React to an instance as the given variant: decode, decide, and build the
/// reaction.
pub fn react_for(kind: VariantKind, instance: &Instance) -> (r: Result<Reaction, DecodeError>)
    ensures
        react_spec(r, instance.encoded_state@, kind, instance.concern, instance.index),
{
    match decode(&instance.encoded_state, kind) {
        Ok(ctx) => Ok(build_reaction(&ctx, &instance.concern, &instance.index)),
        Err(e) => Err(e),
    }
}

/// The named-field display document of a decoded context: one entry per
/// context field, in schema order, under the context's field names, each
/// carrying the decoded value unchanged.
pub open spec fn pretty_doc_matches(doc: Seq<PrettyField>, ctx: DecodedContext) -> bool {
    match ctx {
        DecodedContext::Lottery(c) => {
            &&& doc.len() == 6
            &&& doc[0].name@ == "block_number"@ && doc[0].value == AbiValue::Uint(c.block_number)
            &&& doc[1].name@ == "goal_block_number"@ && doc[1].value == AbiValue::Uint(
                c.goal_block_number,
            )
            &&& doc[2].name@ == "difficulty"@ && doc[2].value == AbiValue::Uint(c.difficulty)
            &&& doc[3].name@ == "staked_balance"@ && doc[3].value == AbiValue::Uint(
                c.staked_balance,
            )
            &&& doc[4].name@ == "time_passed_micro_seconds"@ && doc[4].value == AbiValue::Uint(
                c.time_passed_micro_seconds,
            )
            &&& doc[5].name@ == "log_of_distance"@ && doc[5].value == AbiValue::Uint(
                c.log_of_distance,
            )
        },
        DecodedContext::PoSProduce(c) => {
            &&& doc.len() == 4
            &&& doc[0].name@ == "can_produce"@ && doc[0].value == AbiValue::Bool(c.can_produce)
            &&& doc[1].name@ == "block_selector_address"@ && doc[1].value == AbiValue::Address(
                c.block_selector_address,
            )
            &&& doc[2].name@ == "current_reward"@ && doc[2].value == AbiValue::Uint(
                c.current_reward,
            )
            &&& doc[3].name@ == "user_split"@ && doc[3].value == AbiValue::Uint(c.user_split)
        },
        DecodedContext::PoSClaim(c) => {
            &&& doc.len() == 4
            &&& doc[0].name@ == "can_win"@ && doc[0].value == AbiValue::Bool(c.can_win)
            &&& doc[1].name@ == "winner_address"@ && doc[1].value == AbiValue::Address(
                c.winner_address,
            )
            &&& doc[2].name@ == "current_prize"@ && doc[2].value == AbiValue::Uint(c.current_prize)
            &&& doc[3].name@ == "user_split"@ && doc[3].value == AbiValue::Uint(c.user_split)
        },
        DecodedContext::PoSPrototype(c) => {
            &&& doc.len() == 2
            &&& doc[0].name@ == "can_win"@ && doc[0].value == AbiValue::Bool(c.can_win)
            &&& doc[1].name@ == "winner_address"@ && doc[1].value == AbiValue::Address(
                c.winner_address,
            )
        },
    }
}

/// Re-encode a decoded context into its named-field display document.  The
/// encoding is lossless with respect to the decoded values; it is not meant
/// to round-trip back into the positional form.
pub fn encode_pretty(ctx: &DecodedContext) -> (doc: Vec<PrettyField>)
    ensures
        pretty_doc_matches(doc@, *ctx),
{
    let mut doc: Vec<PrettyField> = Vec::new();
    match ctx {
        DecodedContext::Lottery(c) => {
            doc.push(
                PrettyField {
                    name: "block_number".to_owned(),
                    value: AbiValue::Uint(c.block_number),
                },
            );
            doc.push(
                PrettyField {
                    name: "goal_block_number".to_owned(),
                    value: AbiValue::Uint(c.goal_block_number),
                },
            );
            doc.push(
                PrettyField { name: "difficulty".to_owned(), value: AbiValue::Uint(c.difficulty) },
            );
            doc.push(
                PrettyField {
                    name: "staked_balance".to_owned(),
                    value: AbiValue::Uint(c.staked_balance),
                },
            );
            doc.push(
                PrettyField {
                    name: "time_passed_micro_seconds".to_owned(),
                    value: AbiValue::Uint(c.time_passed_micro_seconds),
                },
            );
            doc.push(
                PrettyField {
                    name: "log_of_distance".to_owned(),
                    value: AbiValue::Uint(c.log_of_distance),
                },
            );
        },
        DecodedContext::PoSProduce(c) => {
            doc.push(
                PrettyField {
                    name: "can_produce".to_owned(),
                    value: AbiValue::Bool(c.can_produce),
                },
            );
            doc.push(
                PrettyField {
                    name: "block_selector_address".to_owned(),
                    value: AbiValue::Address(c.block_selector_address),
                },
            );
            doc.push(
                PrettyField {
                    name: "current_reward".to_owned(),
                    value: AbiValue::Uint(c.current_reward),
                },
            );
            doc.push(
                PrettyField { name: "user_split".to_owned(), value: AbiValue::Uint(c.user_split) },
            );
        },
        DecodedContext::PoSClaim(c) => {
            doc.push(
                PrettyField { name: "can_win".to_owned(), value: AbiValue::Bool(c.can_win) },
            );
            doc.push(
                PrettyField {
                    name: "winner_address".to_owned(),
                    value: AbiValue::Address(c.winner_address),
                },
            );
            doc.push(
                PrettyField {
                    name: "current_prize".to_owned(),
                    value: AbiValue::Uint(c.current_prize),
                },
            );
            doc.push(
                PrettyField { name: "user_split".to_owned(), value: AbiValue::Uint(c.user_split) },
            );
        },
        DecodedContext::PoSPrototype(c) => {
            doc.push(
                PrettyField { name: "can_win".to_owned(), value: AbiValue::Bool(c.can_win) },
            );
            doc.push(
                PrettyField {
                    name: "winner_address".to_owned(),
                    value: AbiValue::Address(c.winner_address),
                },
            );
        },
    }
    doc
}

/// What presenting an instance returns: on a schema match, `Ok` with a
/// display instance carrying the same concern and index, the variant's
/// display name, the named-field document, the registry status recorded
/// under the display name, and no sub-instances; otherwise `Err` with the
/// diagnostic decode error.
pub open spec fn pretty_spec(
    r: Result<PrettyInstance, DecodeError>,
    instance: &Instance,
    kind: VariantKind,
    archive: &Archive,
) -> bool {
    if schema_matches(instance.encoded_state@, kind) {
        &&& r matches Ok(p)
        &&& p.name@ == display_name(kind)
        &&& p.concern == instance.concern
        &&& p.index == instance.index
        &&& pretty_doc_matches(p.fields@, decoded_of(instance.encoded_state@, kind))
        &&& p.sub_instances@.len() == 0
        &&& p.service_status@ == archive.spec_get_service(display_name(kind))
    } else {
        r matches Err(e) && e.variant@ == display_name(kind) && e.payload@
            == instance.encoded_state@
    }
}

/// Present an instance for display as the given variant: decode, re-encode
/// into named fields, and package with the registry status.
pub fn pretty_for(kind: VariantKind, instance: &Instance, archive: &Archive) -> (r: Result<
    PrettyInstance,
    DecodeError,
>)
    ensures
        pretty_spec(r, instance, kind, archive),
{
    match decode(&instance.encoded_state, kind) {
        Ok(ctx) => {
            let name = display_name_string(kind);
            let service_status = archive.get_service(&name);
            let fields = encode_pretty(&ctx);
            Ok(
                PrettyInstance {
                    name,
                    concern: instance.concern,
                    index: instance.index,
                    fields,
                    sub_instances: Vec::new(),
                    service_status,
                },
            )
        },
        Err(e) => Err(e),
    }
}

/// Decoding then pretty re-encoding preserves every field value exactly: the
/// display document of the decoded context lists, in order, exactly the
/// values of the positional payload.
pub proof fn lemma_pretty_encoding_is_lossless(
    fields: Seq<AbiValue>,
    kind: VariantKind,
    doc: Seq<PrettyField>,
)
    requires
        schema_matches(fields, kind),
        pretty_doc_matches(doc, decoded_of(fields, kind)),
    ensures
        doc.len() == fields.len(),
        forall|i: int| 0 <= i < fields.len() ==> doc[i].value == fields[i],
{
    assert forall|i: int| 0 <= i < fields.len() implies doc[i].value == fields[i] by {
        assert(fields[i].kind() == schema(kind)[i]);
        match fields[i] {
            AbiValue::Uint(u) => {
                assert(fields[i].uint_value() == u);
            },
            AbiValue::Bool(b) => {
                assert(fields[i].bool_value() == b);
            },
            AbiValue::Address(a) => {
                assert(fields[i].address_value() == a);
            },
        }
    }
}

} // verus!
