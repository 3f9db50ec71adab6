//! Versioned level state for non-fungible tokens.
//!
//! Each token owns one durable record holding a level in `[1, 6]` together
//! with the bump seeds that re-derive the record's own address and the
//! shared update authority's address. Advancing the level rewrites the
//! token's descriptor URI from `<base><level>.json` to
//! `<base><level + 1>.json`, leaving every other descriptor field untouched;
//! level 6 is an absorbing ceiling where advancing is a successful no-op.

pub mod descriptor;
pub mod engine;
pub mod errors;
pub mod pda;
pub mod record;

pub use descriptor::{Collection, Creator, DescriptorData, UseMethod, Uses};
pub use engine::level_up;
pub use errors::StageError;
pub use record::{init, NftPda};
