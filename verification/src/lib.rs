//! A minimal cross-chain message relay endpoint.
//!
//! The contract accepts an outbound dispatch request (a destination chain, a
//! destination address and a payload) together with a payment, validates the
//! payment, and orders two external calls: a gas payment to the gas service
//! and a contract call to the gateway, in that order, as one all-or-nothing
//! unit of work.  Inbound messages forwarded by the gateway overwrite a
//! single persisted message slot.

pub mod contract;
pub mod error;
pub mod message;
pub mod outbound;
