//! Instrument value model: validated identifiers backed by interned strings,
//! fixed-precision value types, and a closed family of instrument variants whose
//! identity is their instrument id.

pub mod correctness;
pub mod interned;
pub mod identifiers;
pub mod enums;
pub mod types;
pub mod instruments;
pub mod crypto_future;
pub mod options_contract;
