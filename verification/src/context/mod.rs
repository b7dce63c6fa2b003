//! State that outlives a single request.

pub mod session_maps;
pub mod transaction;
pub mod transaction_laws;
