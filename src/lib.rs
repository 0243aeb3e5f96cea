//! HKDF key-schedule helpers for TLS 1.3, written in a sans-I/O style: the
//! library validates inputs, sizes keys and plans each call into the
//! cryptographic provider, and the caller carries those calls out.
pub mod constants;
pub mod error;
pub mod hkdf;
pub mod provider;

pub use constants::{
    Cipher, Version, MAX_KEY_SIZE, TLS_AES_128_GCM_SHA256, TLS_AES_256_GCM_SHA384,
    TLS_CHACHA20_POLY1305_SHA256, TLS_VERSION_1_2, TLS_VERSION_1_3,
};
pub use error::{Error, Res};
pub use hkdf::{
    expand_label, extract, generate_key, import_key, key_size, provider_len, resume, Pending,
    Step,
};
pub use provider::{ProviderCall, ProviderReply, Salt, SymKey};
