//! Caller-owned values around one tracked contract instance: the instance
//! itself, the opaque concern identifying its deployed contract, the service
//! registry consulted for display, and the pretty display form.

use vstd::prelude::*;
use crate::abi::AbiValue;
use crate::num::Address;
use crate::num::U256;

verus! {

/// Opaque identity correlating an instance to a deployed contract: passed
/// through unmodified, never interpreted here.
#[derive(Clone, Copy, PartialEq, Eq, Structural, Debug)]
pub struct Concern {
    pub contract_address: Address,
    pub user_address: Address,
}

/// One tracked occurrence of a contract's state, polled by the external
/// dispatcher and handed here by reference.
#[derive(Debug)]
pub struct Instance {
    /// Caller-assigned name of the instance.
    pub name: String,
    /// Identity of the deployed contract.
    pub concern: Concern,
    /// Identifier of the instance, also passed as a transaction argument.
    pub index: U256,
    /// Raw positional encoded state, to be decoded against a variant schema.
    pub encoded_state: Vec<AbiValue>,
    /// Nested instances; empty for every variant of this layer.
    pub sub_instances: Vec<Box<Instance>>,
    /// Externally supplied service status.
    pub service_status: String,
}

/// One named entry of the pretty display document.
#[derive(Clone, PartialEq, Debug)]
pub struct PrettyField {
    /// The context field's name.
    pub name: String,
    /// The context field's value, unchanged.
    pub value: AbiValue,
}

/// The display form of an instance: the same identity as the input instance,
/// with the positional encoded state replaced by a named-field document.
#[derive(Debug)]
pub struct PrettyInstance {
    /// Display name of the variant.
    pub name: String,
    /// Identity of the deployed contract, passed through.
    pub concern: Concern,
    /// Identifier of the instance, passed through.
    pub index: U256,
    /// Named-field re-encoding of the decoded context.
    pub fields: Vec<PrettyField>,
    /// Nested display instances; always empty for this layer's variants.
    pub sub_instances: Vec<Box<PrettyInstance>>,
    /// Status looked up in the registry under the variant's display name.
    pub service_status: String,
}

/// One entry of the service registry.
#[derive(Clone, PartialEq, Debug)]
pub struct Service {
    pub name: String,
    pub status: String,
}

/// The registry collaborator: a service-status lookup keyed by display name,
/// supplied by the caller.
#[derive(Clone, PartialEq, Debug)]
pub struct Archive {
    pub services: Vec<Service>,
}

/// The status the registry associates with `name`: the status of the first
/// entry carrying that name, or the empty string when no entry does.
pub open spec fn spec_service_status(services: Seq<Service>, name: Seq<char>) -> Seq<char>
    decreases services.len(),
{
    if services.len() == 0 {
        Seq::<char>::empty()
    } else if services[0].name@ == name {
        services[0].status@
    } else {
        spec_service_status(services.skip(1), name)
    }
}

impl Archive {
    /// The status this registry associates with `name`.
    pub open spec fn spec_get_service(self, name: Seq<char>) -> Seq<char> {
        spec_service_status(self.services@, name)
    }

    /// Look up the service status recorded under `name`.
    pub fn get_service(&self, name: &String) -> (r: String)
        ensures
            r@ == self.spec_get_service(name@),
    {
        let n = self.services.len();
        proof {
            assert(self.services@.skip(0) =~= self.services@);
        }
        for i in 0..n
            invariant
                n == self.services.len(),
                spec_service_status(self.services@.skip(i as int), name@)
                    == self.spec_get_service(name@),
        {
            let entry = &self.services[i];
            proof {
                assert(self.services@.skip(i as int)[0] == self.services@[i as int]);
                assert(self.services@.skip(i as int).skip(1) =~= self.services@.skip(i + 1));
            }
            if entry.name.eq(name) {
                return entry.status.clone();
            }
        }
        proof {
            assert(self.services@.skip(n as int).len() == 0);
        }
        String::new()
    }
}

} // verus!
