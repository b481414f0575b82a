//! Channel key management and signing for a Lightning node: deterministic key
//! derivation from a root seed, BIP-143 signing of every channel transaction
//! class, and the binary formats of signers and spendable-output descriptors.

pub mod bytes;
pub mod crypto;
pub mod tx;
pub mod signer;
pub mod manager;
pub mod codec;
pub mod descriptor;
pub mod persist;
pub mod scripts;
pub mod signing;
pub mod interface;

