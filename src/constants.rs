//! Protocol versions and cipher suites shared with the handshake layer.
use vstd::prelude::*;

verus! {

/// A TLS protocol version, as it appears on the wire.
pub type Version = u16;

/// A TLS cipher suite identifier, as it appears on the wire.
pub type Cipher = u16;

pub const TLS_VERSION_1_2: Version = 0x0303;

pub const TLS_VERSION_1_3: Version = 0x0304;

pub const TLS_AES_128_GCM_SHA256: Cipher = 0x1301;

pub const TLS_AES_256_GCM_SHA384: Cipher = 0x1302;

pub const TLS_CHACHA20_POLY1305_SHA256: Cipher = 0x1303;

/// The largest key, in bytes, that any supported suite asks for.
pub const MAX_KEY_SIZE: usize = 48;

} // verus!
