//! Message encodings and inspection of signature verification instructions.
pub mod bytes;
pub mod ed25519;
pub mod instructions;
pub mod offchain_message;
pub mod secp256k1;
