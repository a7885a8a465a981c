use vstd::prelude::*;

verus! {

/// The closed set of ways in which key generation, sealing, opening or
/// object encoding can fail. Each kind stands for one class of failure of
/// one underlying primitive; none is retryable.
#[derive(Clone, Copy, Debug, PartialEq, Eq, Structural)]
pub enum Error {
    /// The key-encapsulation or signature algorithm produced no usable keypair.
    KeyGeneration,
    /// Encapsulating against the recipient's public key failed.
    KeyEncapsulation,
    /// Signing the sealed body with the sender's secret key failed.
    Signing,
    /// Recovering the shared secret from the encapsulated key failed.
    Decapsulation,
    /// The shared secret does not have the length of an AES-256 key.
    AeadKeyLength,
    /// The authenticated cipher refused to seal the plaintext.
    Aead,
    /// The authentication tag of the body did not check out.
    AeadTagInvalid,
    /// The signature over the body did not verify.
    SignatureInvalid,
    /// A value could not be encoded before sealing.
    ObjectEncoding,
    /// The opened bytes could not be decoded into a value.
    ObjectDecoding,
}

/// Result of the operations of this library.
pub type Result<T> = core::result::Result<T, Error>;

} // verus!
