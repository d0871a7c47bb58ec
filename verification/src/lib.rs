//! An escrow marketplace for uniquely-owned digital tokens.
//!
//! An owner locks a token into a neutral custody slot at a fixed price, any
//! other party may later claim the token by paying that price, and the
//! original owner may reclaim an unsold token. A live `Sale` record exists
//! for an asset exactly while its single unit sits in the custody slot owned
//! by the asset's derived authority, a key-less address that only the
//! operations themselves can re-derive and assert.
//!
//! The ledger state is modelled directly: custody, sale records, descriptive
//! records and native-currency balances are maps keyed by identifiers, and
//! each operation either applies all of its effects or none. The contracts
//! pin every operation down to a result and a post-state given by the spec
//! functions in [`transitions`], and the laws in [`laws`] prove the
//! lifecycle guarantees: no double sale, no withdrawal by a stranger, and
//! exact payment on purchase.

pub mod authority;
pub mod state;
pub mod transitions;
pub mod ops;
pub mod laws;

pub use authority::Address;
pub use state::{ErrorCode, Marketplace, Sale, TokenMetadata};
