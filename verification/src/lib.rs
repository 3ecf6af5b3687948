//! An authorization gate: given a hash identifying a pending intent, a
//! signature over that hash, and a claimed signer key, it decides whether the
//! intent may be executed and, if so, emits a non-forgeable audit record.

pub mod crypto;
pub mod gate;

pub use gate::AUTHORIZED_TAG;
pub use gate::AuditToken;
pub use gate::CustodianRegistry;
pub use gate::GateError;
pub use gate::StateOracle;
pub use gate::build_message;
pub use gate::decide;
pub use gate::decide_given_state;
