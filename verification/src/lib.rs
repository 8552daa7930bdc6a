//! Marshalling for a Sapling proving service: wire requests are validated
//! and decoded into the witnesses of spend and output proofs, the proving
//! backend is driven, and its results are encoded for the wire.

use vstd::prelude::*;

pub mod codec;
pub mod decimal;
pub mod error;
pub mod request;
pub mod backend;
pub mod spend;
pub mod output;
