//! HKDF-Extract and HKDF-Expand-Label over provider-held keys.
//!
//! Each operation checks its inputs and either fails at once or hands back
//! the provider call to make next. The caller makes that call and passes the
//! reply to [`resume`], until a [`Step::Done`] comes back.
use vstd::prelude::*;

use crate::constants::{
    Cipher, Version, MAX_KEY_SIZE, TLS_AES_128_GCM_SHA256, TLS_AES_256_GCM_SHA384,
    TLS_CHACHA20_POLY1305_SHA256, TLS_VERSION_1_3,
};
use vstd::string::StringSliceAdditionalSpecFns;

use crate::error::{Error, Res};
use crate::provider::{CallModel, ProviderCall, ProviderReply, ReplyModel, Salt, SymKey};

verus! {

/// What the key schedule waits for while a provider call is outstanding.
#[derive(Clone, Copy, Debug, PartialEq, Eq, Structural)]
pub enum Pending {
    /// `len` random bytes, to be imported as a new key.
    Random { len: usize },
    /// The key that the outstanding call makes.
    Key,
}

/// Where an operation stands.
#[derive(Debug)]
pub enum Step {
    /// Make this provider call, then pass its reply to [`resume`] along with
    /// what is pending.
    Call(Pending, ProviderCall),
    /// The operation is over.
    Done(Res<SymKey>),
}

/// The mathematical value of a [`Step`]; a key is its identifier.
pub ghost enum StepModel {
    Call(Pending, CallModel),
    Done(Result<u64, Error>),
}

impl View for Step {
    type V = StepModel;

    open spec fn view(&self) -> StepModel {
        match self {
            Step::Call(p, c) => StepModel::Call(*p, c@),
            Step::Done(Ok(k)) => StepModel::Done(Ok(k@)),
            Step::Done(Err(e)) => StepModel::Done(Err(*e)),
        }
    }
}

/// The largest length that the provider's calling convention can carry.
pub open spec fn fits_provider(len: nat) -> bool {
    len <= u32::MAX
}

/// The length, in bytes, of a key for `cipher` under `version`.
pub open spec fn key_size_spec(version: Version, cipher: Cipher) -> Result<nat, Error> {
    if version != TLS_VERSION_1_3 {
        Err(Error::UnsupportedVersion)
    } else if cipher == TLS_AES_128_GCM_SHA256 || cipher == TLS_CHACHA20_POLY1305_SHA256 {
        Ok(32)
    } else if cipher == TLS_AES_256_GCM_SHA384 {
        Ok(48)
    } else {
        Err(Error::UnsupportedCipher)
    }
}

/// Generating a key first draws exactly as many random bytes as the key needs.
pub open spec fn generate_key_step(version: Version, cipher: Cipher) -> StepModel {
    match key_size_spec(version, cipher) {
        Ok(n) => StepModel::Call(
            Pending::Random { len: n as usize },
            CallModel::RandomBytes { len: n },
        ),
        Err(e) => StepModel::Done(Err(e)),
    }
}

/// Importing a key hands the bytes to the provider as they are.
pub open spec fn import_key_step(version: Version, buf: Seq<u8>) -> StepModel {
    if version != TLS_VERSION_1_3 {
        StepModel::Done(Err(Error::UnsupportedVersion))
    } else if !fits_provider(buf.len()) {
        StepModel::Done(Err(Error::BoundsError))
    } else {
        StepModel::Call(Pending::Key, CallModel::ImportKey { key: buf })
    }
}

/// The salt that the provider is given for an optional salt key.
pub open spec fn salt_of(salt: Option<u64>) -> Salt {
    match salt {
        Some(id) => Salt::Key(id),
        None => Salt::ZeroLength,
    }
}

/// Extraction passes the keys' identifiers to the provider's HKDF-Extract.
pub open spec fn extract_step(
    version: Version,
    cipher: Cipher,
    salt: Option<u64>,
    ikm: u64,
) -> StepModel {
    if version != TLS_VERSION_1_3 {
        StepModel::Done(Err(Error::UnsupportedVersion))
    } else {
        StepModel::Call(
            Pending::Key,
            CallModel::HkdfExtract { version, cipher, salt: salt_of(salt), ikm },
        )
    }
}

/// Expansion passes the key, the context hash and the label's bytes to the
/// provider's HKDF-Expand-Label, once both lengths are known to fit.
pub open spec fn expand_label_step(
    version: Version,
    cipher: Cipher,
    prk: u64,
    hash: Seq<u8>,
    label: Seq<u8>,
) -> StepModel {
    if version != TLS_VERSION_1_3 {
        StepModel::Done(Err(Error::UnsupportedVersion))
    } else if !fits_provider(hash.len()) || !fits_provider(label.len()) {
        StepModel::Done(Err(Error::BoundsError))
    } else {
        StepModel::Call(
            Pending::Key,
            CallModel::HkdfExpandLabel { version, cipher, prk, hash, label },
        )
    }
}

/// How a reply from the provider moves an operation on.
pub open spec fn resume_step(pending: Pending, reply: ReplyModel) -> StepModel {
    match (pending, reply) {
        (Pending::Random { len }, ReplyModel::Bytes(b)) => if b.len() == len {
            import_key_step(TLS_VERSION_1_3, b)
        } else {
            StepModel::Done(Err(Error::ProviderFailure))
        },
        (Pending::Key, ReplyModel::Key(id)) => StepModel::Done(Ok(id)),
        _ => StepModel::Done(Err(Error::ProviderFailure)),
    }
}

/// Converts a length to the width of the provider's calling convention.
///
/// # Errors
///
/// `BoundsError` if the length does not fit.
pub fn provider_len(len: usize) -> (r: Res<u32>)
    ensures
        fits_provider(len as nat) ==> r == Ok::<u32, Error>(len as u32),
        !fits_provider(len as nat) ==> r == Err::<u32, Error>(Error::BoundsError),
{
    if len > u32::MAX as usize {
        Err(Error::BoundsError)
    } else {
        Ok(len as u32)
    }
}

/// The size of a key for the given suite.
///
/// # Errors
///
/// If the protocol version or the cipher suite is not supported.
pub fn key_size(version: Version, cipher: Cipher) -> (r: Res<usize>)
    ensures
        match r {
            Ok(n) => key_size_spec(version, cipher) == Ok::<nat, Error>(n as nat),
            Err(e) => key_size_spec(version, cipher) == Err::<nat, Error>(e),
        },
        r is Ok ==> r->Ok_0 <= MAX_KEY_SIZE,
{
    if version != TLS_VERSION_1_3 {
        return Err(Error::UnsupportedVersion);
    }
    let size: usize = if cipher == TLS_AES_128_GCM_SHA256 || cipher
        == TLS_CHACHA20_POLY1305_SHA256 {
        32
    } else if cipher == TLS_AES_256_GCM_SHA384 {
        48
    } else {
        return Err(Error::UnsupportedCipher);
    };
    Ok(size)
}

/// Generate a random key of the right size for the given suite.
///
/// # Errors
///
/// If the ciphersuite or protocol version is not supported.
pub fn generate_key(version: Version, cipher: Cipher) -> (r: Step)
    ensures
        r@ == generate_key_step(version, cipher),
{
    match key_size(version, cipher) {
        Ok(len) => Step::Call(Pending::Random { len }, ProviderCall::RandomBytes { len }),
        Err(e) => Step::Done(Err(e)),
    }
}

/// Import a symmetric key for use with HKDF.
///
/// # Errors
///
/// If the protocol version is not supported or the key is too long for the
/// provider.
pub fn import_key(version: Version, buf: &[u8]) -> (r: Step)
    ensures
        r@ == import_key_step(version, buf@),
{
    if version != TLS_VERSION_1_3 {
        return Step::Done(Err(Error::UnsupportedVersion));
    }
    if let Err(e) = provider_len(buf.len()) {
        return Step::Done(Err(e));
    }
    let key = vstd::slice::slice_to_vec(buf);
    Step::Call(Pending::Key, ProviderCall::ImportKey { key })
}

/// Extract a PRK from the given salt and IKM using the algorithm defined in RFC 5869.
///
/// # Errors
///
/// If the protocol version is not supported.
pub fn extract(version: Version, cipher: Cipher, salt: Option<&SymKey>, ikm: &SymKey) -> (r:
    Step)
    ensures
        r@ == extract_step(
            version,
            cipher,
            match salt {
                Some(s) => Some(s@),
                None => None,
            },
            ikm@,
        ),
{
    if version != TLS_VERSION_1_3 {
        return Step::Done(Err(Error::UnsupportedVersion));
    }
    let salt = match salt {
        Some(s) => Salt::Key(s.id()),
        None => Salt::ZeroLength,
    };
    Step::Call(Pending::Key, ProviderCall::HkdfExtract { version, cipher, salt, ikm: ikm.id() })
}

/// Expand a PRK using the HKDF-Expand-Label function defined in RFC 8446.
///
/// # Errors
///
/// If the protocol version is not supported, or the context hash or the label
/// is too long for the provider.
pub fn expand_label(
    version: Version,
    cipher: Cipher,
    prk: &SymKey,
    handshake_hash: &[u8],
    label: &str,
) -> (r: Step)
    ensures
        r@ == expand_label_step(version, cipher, prk@, handshake_hash@, label.spec_bytes()),
{
    if version != TLS_VERSION_1_3 {
        return Step::Done(Err(Error::UnsupportedVersion));
    }
    let l = label.as_bytes();
    if let Err(e) = provider_len(handshake_hash.len()) {
        return Step::Done(Err(e));
    }
    if let Err(e) = provider_len(l.len()) {
        return Step::Done(Err(e));
    }
    // A zero-length hash is passed as an empty buffer, never as an absent one.
    let hash = vstd::slice::slice_to_vec(handshake_hash);
    let label = vstd::slice::slice_to_vec(l);
    Step::Call(
        Pending::Key,
        ProviderCall::HkdfExpandLabel { version, cipher, prk: prk.id(), hash, label },
    )
}

/// Move an operation on with the provider's reply to the call it asked for.
///
/// # Errors
///
/// If the provider failed, or answered with something other than what was
/// pending.
pub fn resume(pending: Pending, reply: ProviderReply) -> (r: Step)
    ensures
        r@ == resume_step(pending, reply@),
{
    match (pending, reply) {
        (Pending::Random { len }, ProviderReply::Bytes(b)) => {
            if b.len() == len {
                import_key(TLS_VERSION_1_3, b.as_slice())
            } else {
                Step::Done(Err(Error::ProviderFailure))
            }
        },
        (Pending::Key, ProviderReply::Key(k)) => Step::Done(Ok(k)),
        _ => Step::Done(Err(Error::ProviderFailure)),
    }
}

/// Whether `cipher` is one of the suites that TLS 1.3 keys can be made for.
pub open spec fn is_supported_cipher(cipher: Cipher) -> bool {
    cipher == TLS_AES_128_GCM_SHA256 || cipher == TLS_AES_256_GCM_SHA384 || cipher
        == TLS_CHACHA20_POLY1305_SHA256
}

/// Every supported suite has a key size, and it is either 32 or 48 bytes.
/// The size is a function of the version and suite alone, so repeated calls
/// of [`key_size`] agree.
pub proof fn lemma_key_size_supported(version: Version, cipher: Cipher)
    requires
        version == TLS_VERSION_1_3,
        is_supported_cipher(cipher),
    ensures
        key_size_spec(version, cipher) matches Ok(n) && (n == 32 || n == 48),
{
}

/// Under any version other than TLS 1.3, every operation fails with
/// `UnsupportedVersion` before asking anything of the provider.
pub proof fn lemma_unsupported_version(
    version: Version,
    cipher: Cipher,
    buf: Seq<u8>,
    salt: Option<u64>,
    key: u64,
    hash: Seq<u8>,
    label: Seq<u8>,
)
    requires
        version != TLS_VERSION_1_3,
    ensures
        generate_key_step(version, cipher) == StepModel::Done(Err(Error::UnsupportedVersion)),
        import_key_step(version, buf) == StepModel::Done(Err(Error::UnsupportedVersion)),
        extract_step(version, cipher, salt, key) == StepModel::Done(
            Err(Error::UnsupportedVersion),
        ),
        expand_label_step(version, cipher, key, hash, label) == StepModel::Done(
            Err(Error::UnsupportedVersion),
        ),
{
}

/// Generating a key for an unknown suite fails with `UnsupportedCipher`
/// before any randomness is drawn.
pub proof fn lemma_unsupported_cipher(cipher: Cipher)
    requires
        !is_supported_cipher(cipher),
    ensures
        generate_key_step(TLS_VERSION_1_3, cipher) == StepModel::Done(
            Err(Error::UnsupportedCipher),
        ),
{
}

/// Generating a key draws exactly as many random bytes as the suite's key
/// size, and then imports exactly those bytes.
pub proof fn lemma_generate_key_size(version: Version, cipher: Cipher, random: Seq<u8>)
    requires
        key_size_spec(version, cipher) is Ok,
        random.len() == key_size_spec(version, cipher)->Ok_0,
    ensures
        ({
            let n = key_size_spec(version, cipher)->Ok_0;
            &&& generate_key_step(version, cipher) == StepModel::Call(
                Pending::Random { len: n as usize },
                CallModel::RandomBytes { len: n },
            )
            &&& resume_step(Pending::Random { len: n as usize }, ReplyModel::Bytes(random))
                == StepModel::Call(Pending::Key, CallModel::ImportKey { key: random })
        }),
{
}

/// Extraction without a salt key asks the provider for a zero-length salt,
/// never for a key that does not exist.
pub proof fn lemma_absent_salt(cipher: Cipher, ikm: u64)
    ensures
        extract_step(TLS_VERSION_1_3, cipher, None, ikm) == StepModel::Call(
            Pending::Key,
            CallModel::HkdfExtract {
                version: TLS_VERSION_1_3,
                cipher,
                salt: Salt::ZeroLength,
                ikm,
            },
        ),
{
}

/// A context hash or label too long for the provider makes expansion fail
/// with `BoundsError`, without a call to the provider.
pub proof fn lemma_expand_label_bounds(cipher: Cipher, prk: u64, hash: Seq<u8>, label: Seq<u8>)
    requires
        !fits_provider(hash.len()) || !fits_provider(label.len()),
    ensures
        expand_label_step(TLS_VERSION_1_3, cipher, prk, hash, label) == StepModel::Done(
            Err(Error::BoundsError),
        ),
{
}

/// `step` with the key that it hands the provider replaced by the key `id`.
pub open spec fn rekeyed(step: StepModel, id: u64) -> StepModel {
    match step {
        StepModel::Call(p, CallModel::HkdfExtract { version, cipher, salt, ikm: _ }) =>
            StepModel::Call(p, CallModel::HkdfExtract { version, cipher, salt, ikm: id }),
        StepModel::Call(p, CallModel::HkdfExpandLabel { version, cipher, prk: _, hash, label }) =>
            StepModel::Call(p, CallModel::HkdfExpandLabel { version, cipher, prk: id, hash, label }),
        other => other,
    }
}

/// Importing the same bytes twice asks the provider for the same import, and
/// the two keys that come of it are then used alike: extraction and expansion
/// over either one make the same call but for the key handed over.
pub proof fn lemma_import_twice(
    version: Version,
    cipher: Cipher,
    buf: Seq<u8>,
    again: Seq<u8>,
    first: u64,
    second: u64,
    salt: Option<u64>,
    hash: Seq<u8>,
    label: Seq<u8>,
)
    requires
        buf == again,
    ensures
        import_key_step(version, buf) == import_key_step(version, again),
        extract_step(version, cipher, salt, first) == rekeyed(
            extract_step(version, cipher, salt, second),
            first,
        ),
        expand_label_step(version, cipher, first, hash, label) == rekeyed(
            expand_label_step(version, cipher, second, hash, label),
            first,
        ),
{
}

} // verus!
