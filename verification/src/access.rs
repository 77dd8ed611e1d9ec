//! Who may do what to a record.
//!
//! Creating is open to every caller: anyone may create a proof, an
//! organization at an unused slug, a submission to an active organization, an
//! inbox for themself or a message to an existing inbox. Changing a record is
//! reserved to the identity the record names: an organization is deactivated
//! by its admin, a message is burned by its recipient.

use vstd::prelude::*;
use crate::identity::Identity;

verus! {

/// The operations of the ledger.
#[derive(Clone, Copy, Debug, PartialEq, Eq, Structural)]
pub enum Operation {
    CreateProof,
    CreateOrganization,
    SubmitTip,
    DeactivateOrganization,
    ActivateInbox,
    SendDirectMessage,
    BurnMessage,
}

/// Why a caller was turned away.
#[derive(Clone, Copy, Debug, PartialEq, Eq, Structural)]
pub enum Reason {
    /// The caller is not the admin of the organization.
    NotAdmin,
    /// The caller is not the recipient of the message.
    NotRecipient,
}

/// The outcome of an access check.
#[derive(Clone, Copy, Debug, PartialEq, Eq, Structural)]
pub enum Decision {
    Allowed,
    Denied(Reason),
}

/// The rule. `holder` is the identity that the record names as entitled to
/// change it: the admin of an organization, the recipient of a message. It
/// plays no part for the operations that create.
pub open spec fn spec_authorize(operation: Operation, caller: Seq<u8>, holder: Seq<u8>) -> Decision {
    match operation {
        Operation::DeactivateOrganization => if caller == holder {
            Decision::Allowed
        } else {
            Decision::Denied(Reason::NotAdmin)
        },
        Operation::BurnMessage => if caller == holder {
            Decision::Allowed
        } else {
            Decision::Denied(Reason::NotRecipient)
        },
        _ => Decision::Allowed,
    }
}

/// Decides whether `caller` may perform `operation` on a record held by
/// `holder`.
pub fn authorize(operation: Operation, caller: &Identity, holder: &Identity) -> (d: Decision)
    ensures
        d == spec_authorize(operation, caller@, holder@),
{
    match operation {
        Operation::DeactivateOrganization => {
            if caller.same(holder) {
                Decision::Allowed
            } else {
                Decision::Denied(Reason::NotAdmin)
            }
        },
        Operation::BurnMessage => {
            if caller.same(holder) {
                Decision::Allowed
            } else {
                Decision::Denied(Reason::NotRecipient)
            }
        },
        _ => Decision::Allowed,
    }
}

} // verus!
