// Fixed-width binary codec for the state record of a consensus contract,
// stored as a flat byte buffer in a host runtime's account storage.

pub mod pubkey;
pub mod state;

pub use pubkey::Pubkey;
pub use state::{DecodeError, GravityContract};
