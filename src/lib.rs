//! A minimal deterministic block-execution runtime: three state modules
//! (accounts and blocks, balances, content claims) composed into one runtime
//! that routes signed calls to them and executes blocks of such calls.

pub mod store;
pub mod support;
pub mod system;
pub mod balances;
pub mod proof_of_existence;
pub mod runtime;
