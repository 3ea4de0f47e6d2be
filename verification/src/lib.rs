pub mod aead;
pub mod clock;
pub mod digests;
pub mod engine;
pub mod errors;
pub mod hexfmt;
pub mod kdf;
pub mod rand_source;
pub mod scanner;
pub mod text;

pub use engine::{CryptoEngine, EncryptedData, HashResult};
pub use errors::CryptoError;
pub use scanner::MemoryScanner;
