//! A minimal state-transition runtime: independent pallets (balances, claim
//! registry, system bookkeeping) composed into a single runtime that executes
//! blocks of extrinsics against shared account state.

pub mod balances;
pub mod proof_of_existence;
pub mod runtime;
pub mod support;
pub mod system;
