//! Authorization gate for the two privileged operations of a collective
//! governance body: replacing the runtime code and dispatching an inner
//! operation with root privilege, together with the chain's genesis
//! presets.
pub mod genesis;
pub mod origin;
pub mod pallet;
pub mod weight;
