//! A ledger of records that live at addresses derived from what identifies
//! them: proofs of existence keyed by a content hash, organization drop boxes
//! keyed by a slug with the tips submitted to them, and per-owner inboxes with
//! burn-after-reading messages.
//!
//! Every operation is a single step that either commits as a whole or leaves
//! the ledger as it was and reports a typed error.
//!
//! - `address`: the key of a record, its seeds and its address on chain.
//! - `store`: keyed storage with create-if-absent, read and change.
//! - `validate`: the bounds on the text fields.
//! - `access`: who may change a record.
//! - `sequence`: the ids handed out by the counter of a parent.
//! - `records`, `layout`: the records, what may happen to each, and the room
//!   each takes.
//! - `context`, `ledger`: the operations and what each is told.
//! - `model`, `laws`: the ledger as a mathematical value, and what is proved
//!   of it.

pub mod access;
pub mod address;
pub mod context;
pub mod error;
pub mod identity;
pub mod laws;
pub mod layout;
pub mod ledger;
pub mod model;
pub mod records;
pub mod sequence;
pub mod store;
pub mod validate;

pub use crate::access::{authorize, Decision, Operation, Reason};
pub use crate::address::{locate, seeds, Family, Key, KeyView, Location};
pub use crate::context::{
    ActivateInbox, BurnMessage, CreateOrganization, CreateProof, DeactivateOrganization,
    SendDirectMessage, SubmitTip,
};
pub use crate::error::{ErrorKind, VoidError};
pub use crate::identity::Identity;
pub use crate::layout::space;
pub use crate::ledger::{
    activate_inbox, burn_message, create_organization, create_proof, deactivate_organization,
    send_direct_message, submit_tip, Ledger,
};
pub use crate::records::{DirectMessage, Inbox, Organization, Proof, Submission};
pub use crate::store::Table;
