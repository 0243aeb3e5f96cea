//! The vocabulary shared with the cryptographic provider: key handles, the
//! calls that the key schedule asks the caller to make, and the replies that
//! the caller hands back.
use vstd::prelude::*;

use crate::constants::{Cipher, Version};

verus! {

/// A handle to key material held in the provider's secure store.
///
/// The library never sees the key bytes behind a handle: it only passes the
/// handle's identifier on to the provider. A handle is not `Clone`, so each
/// one has a single owner.
#[derive(Debug)]
pub struct SymKey {
    id: u64,
}

impl View for SymKey {
    type V = u64;

    closed spec fn view(&self) -> u64 {
        self.id
    }
}

impl SymKey {
    /// Wraps the identifier that the provider gave to a new key.
    pub fn from_id(id: u64) -> (r: SymKey)
        ensures
            r@ == id,
    {
        SymKey { id }
    }

    /// The identifier by which the provider knows this key.
    pub fn id(&self) -> (r: u64)
        ensures
            r == self@,
    {
        self.id
    }
}

/// The salt handed to HKDF-Extract.
#[derive(Clone, Copy, Debug, PartialEq, Eq, Structural)]
pub enum Salt {
    /// No salt key: the provider extracts with a zero-length salt.
    ZeroLength,
    /// The key with this identifier is the salt.
    Key(u64),
}

/// A call into the cryptographic provider that the key schedule needs made.
#[derive(Debug)]
pub enum ProviderCall {
    /// Draw `len` bytes of cryptographically secure randomness.
    RandomBytes { len: usize },
    /// Import `key` as a new key that may only be used for HKDF derivation.
    ImportKey { key: Vec<u8> },
    /// Run HKDF-Extract over `salt` and the input keying material `ikm`.
    HkdfExtract { version: Version, cipher: Cipher, salt: Salt, ikm: u64 },
    /// Run HKDF-Expand-Label on the key `prk`, with the context `hash` and the
    /// unprefixed `label`. Both lengths fit in a `u32`.
    HkdfExpandLabel {
        version: Version,
        cipher: Cipher,
        prk: u64,
        hash: Vec<u8>,
        label: Vec<u8>,
    },
}

/// The mathematical value of a [`ProviderCall`].
pub ghost enum CallModel {
    RandomBytes { len: nat },
    ImportKey { key: Seq<u8> },
    HkdfExtract { version: Version, cipher: Cipher, salt: Salt, ikm: u64 },
    HkdfExpandLabel { version: Version, cipher: Cipher, prk: u64, hash: Seq<u8>, label: Seq<u8> },
}

impl View for ProviderCall {
    type V = CallModel;

    open spec fn view(&self) -> CallModel {
        match self {
            ProviderCall::RandomBytes { len } => CallModel::RandomBytes { len: *len as nat },
            ProviderCall::ImportKey { key } => CallModel::ImportKey { key: key@ },
            ProviderCall::HkdfExtract { version, cipher, salt, ikm } => CallModel::HkdfExtract {
                version: *version,
                cipher: *cipher,
                salt: *salt,
                ikm: *ikm,
            },
            ProviderCall::HkdfExpandLabel { version, cipher, prk, hash, label } =>
                CallModel::HkdfExpandLabel {
                version: *version,
                cipher: *cipher,
                prk: *prk,
                hash: hash@,
                label: label@,
            },
        }
    }
}

/// What the provider answered to a [`ProviderCall`].
#[derive(Debug)]
pub enum ProviderReply {
    /// The random bytes that were asked for.
    Bytes(Vec<u8>),
    /// A new key.
    Key(SymKey),
    /// The provider could not do what was asked.
    Failed,
}

/// The mathematical value of a [`ProviderReply`].
pub ghost enum ReplyModel {
    Bytes(Seq<u8>),
    Key(u64),
    Failed,
}

impl View for ProviderReply {
    type V = ReplyModel;

    open spec fn view(&self) -> ReplyModel {
        match self {
            ProviderReply::Bytes(b) => ReplyModel::Bytes(b@),
            ProviderReply::Key(k) => ReplyModel::Key(k@),
            ProviderReply::Failed => ReplyModel::Failed,
        }
    }
}

} // verus!
