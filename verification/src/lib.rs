//! Transaction-intake and settlement gateway core of a cross-chain
//! aggregation layer.
//!
//! The crate carries four components: the fixed-layout proof codec
//! ([`codec`]), the signed submission envelope with its canonical hash and
//! signer recovery ([`signed_tx`]), the epoch clock that derives block and
//! epoch counters from wall-clock time ([`clock`]), and the intake pipeline
//! that aggregates verification outcomes and drives settlement ([`rpc`]).

pub mod clock;
pub mod codec;
pub mod hexfmt;
pub mod rpc;
pub mod signed_tx;
