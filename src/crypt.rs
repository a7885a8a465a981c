use vstd::prelude::*;
use crate::aead::{self, gcm_open, gcm_seal, KEY_LEN, MAX_PLAINTEXT_LEN, TAG_LEN};
use crate::error::{Error, Result};

verus! {

/// The two public keys of a participant, as bytes.
pub struct PublicKeys {
    pub encrypt: Seq<u8>,
    pub sign: Seq<u8>,
}

/// The public identity of a participant: the public key that peers
/// encapsulate against, and the public key that checks its signatures.
/// Both keys are non-empty.
#[derive(Clone, Debug)]
pub struct PublicContext {
    encrypt: Vec<u8>,
    sign: Vec<u8>,
}

impl View for PublicContext {
    type V = PublicKeys;

    closed spec fn view(&self) -> PublicKeys {
        PublicKeys { encrypt: self.encrypt@, sign: self.sign@ }
    }
}

/// The canonical fingerprint of a pair of public keys: the encapsulation
/// key followed by the signing key.
pub open spec fn fingerprint(keys: PublicKeys) -> Seq<u8> {
    keys.encrypt + keys.sign
}

impl PublicContext {
    /// Builds a public identity from its two keys; `None` where either is empty.
    pub fn new(encrypt: Vec<u8>, sign: Vec<u8>) -> (r: Option<Self>)
        ensures
            r is Some <==> (encrypt@.len() > 0 && sign@.len() > 0),
            r matches Some(p) ==> p@ == (PublicKeys { encrypt: encrypt@, sign: sign@ }),
    {
        if encrypt.len() == 0 || sign.len() == 0 {
            None
        } else {
            Some(PublicContext { encrypt, sign })
        }
    }

    /// Whether both keys are present.
    pub closed spec fn wf(&self) -> bool {
        self.encrypt@.len() > 0 && self.sign@.len() > 0
    }

    /// A copy of this identity, with the same keys.
    pub fn copy_of(p: &Self) -> (r: Self)
        ensures
            r@ == p@,
    {
        PublicContext { encrypt: p.encrypt.clone(), sign: p.sign.clone() }
    }

    /// The key that peers encapsulate against.
    pub fn encryption_key(&self) -> (r: Vec<u8>)
        ensures
            r@ == self@.encrypt,
    {
        self.encrypt.clone()
    }

    /// The key that checks this participant's signatures.
    pub fn signing_key(&self) -> (r: Vec<u8>)
        ensures
            r@ == self@.sign,
    {
        self.sign.clone()
    }

    /// The fingerprint of this identity: the encapsulation key's bytes, then
    /// the signing key's bytes.
    pub fn as_bytes(&self) -> (r: Vec<u8>)
        ensures
            r@ == fingerprint(self@),
    {
        let mut out: Vec<u8> = Vec::new();
        out.extend_from_slice(self.encrypt.as_slice());
        out.extend_from_slice(self.sign.as_slice());
        out
    }
}


/// The contents of an envelope: whom it is for, who sealed it, the nonce,
/// the encapsulated key, the sealed body and the signature over the body.
pub struct EnvelopeView {
    pub target: PublicKeys,
    pub sender: PublicKeys,
    pub nonce: Seq<u8>,
    pub key: Seq<u8>,
    pub body: Seq<u8>,
    pub signature: Seq<u8>,
}

/// `body` is `data` sealed under `shared` and `nonce`, and opens back to it.
pub open spec fn seals(nonce: Seq<u8>, body: Seq<u8>, data: Seq<u8>, shared: Seq<u8>) -> bool {
    &&& shared.len() == KEY_LEN
    &&& body == gcm_seal(shared, nonce, data)
    &&& gcm_open(shared, nonce, body) == Some(data)
}

/// The failure, if any, of sealing `data` for a recipient, given the shared
/// secret that encapsulating against the recipient's key gave (`None` where
/// encapsulation failed).
pub open spec fn seal_error(shared: Option<Seq<u8>>, data: Seq<u8>) -> Option<Error> {
    match shared {
        None => Some(Error::KeyEncapsulation),
        Some(k) => if k.len() != KEY_LEN {
            Some(Error::AeadKeyLength)
        } else if data.len() > MAX_PLAINTEXT_LEN {
            Some(Error::Aead)
        } else {
            None
        },
    }
}

/// The bytes of the second part of an optional pair.
pub open spec fn second_view(pair: Option<(Vec<u8>, Vec<u8>)>) -> Option<Seq<u8>> {
    match pair {
        Some((_, b)) => Some(b@),
        None => None,
    }
}

/// The bytes of a buffer that an operation returned, or its error.
pub open spec fn result_view(r: Result<Vec<u8>>) -> Result<Seq<u8>> {
    match r {
        Ok(b) => Ok(b@),
        Err(e) => Err(e),
    }
}

/// The bytes of an optional buffer.
pub open spec fn bytes_view(v: Option<Vec<u8>>) -> Option<Seq<u8>> {
    match v {
        Some(b) => Some(b@),
        None => None,
    }
}

/// What opening an envelope comes to, given whether its signature verified
/// and what decapsulating its key gave (`None` where it failed). The
/// signature is looked at first; nothing further is done where it fails.
pub open spec fn open_outcome(
    env: EnvelopeView,
    signature_valid: bool,
    shared: Option<Seq<u8>>,
) -> Result<Seq<u8>> {
    if !signature_valid {
        Err(Error::SignatureInvalid)
    } else {
        match shared {
            None => Err(Error::Decapsulation),
            Some(k) => if k.len() != KEY_LEN {
                Err(Error::AeadKeyLength)
            } else {
                match gcm_open(k, env.nonce, env.body) {
                    Some(p) => Ok(p),
                    None => Err(Error::AeadTagInvalid),
                }
            },
        }
    }
}

/// A sealed envelope that still waits for its signature. The bytes to sign
/// are those of `body`.
#[derive(Clone, Debug)]
pub struct SealedPacket {
    target: PublicContext,
    sender: PublicContext,
    nonce: [u8; 12],
    key: Vec<u8>,
    body: Vec<u8>,
}

impl View for SealedPacket {
    type V = EnvelopeView;

    closed spec fn view(&self) -> EnvelopeView {
        EnvelopeView {
            target: self.target@,
            sender: self.sender@,
            nonce: self.nonce@,
            key: self.key@,
            body: self.body@,
            signature: Seq::empty(),
        }
    }
}

impl SealedPacket {
    /// The sealed body: the bytes that the sender signs.
    pub fn body(&self) -> (r: &Vec<u8>)
        ensures
            r@ == self@.body,
    {
        &self.body
    }

    /// Completes the envelope with the sender's signature over the body, as
    /// the signature algorithm gave it (`None` where signing failed).
    pub fn sign(self, signature: Option<Vec<u8>>) -> (r: Result<CryptoPacket>)
        ensures
            signature is None ==> r == Err::<CryptoPacket, Error>(Error::Signing),
            signature matches Some(s) ==> (r matches Ok(p) && p@ == (EnvelopeView {
                signature: s@,
                ..self@
            })),
    {
        match signature {
            None => Err(Error::Signing),
            Some(s) => Ok(
                CryptoPacket {
                    target: self.target,
                    sender: self.sender,
                    nonce: self.nonce,
                    key: self.key,
                    body: self.body,
                    signature: s,
                },
            ),
        }
    }
}

/// A self-contained envelope: the recipient's public identity, the sender's
/// public identity, the nonce, the encapsulated key, the sealed body and the
/// sender's signature over the body. It holds no secret.
///
/// The signature is checked against the signing key of `sender`; `target`
/// names the identity whose encapsulation key the envelope was sealed for.
/// The two are kept apart so that a recipient other than the sender can
/// check who sealed the envelope; checking against `target` would only
/// accept envelopes that an identity sealed for itself.
#[derive(Clone, Debug)]
pub struct CryptoPacket {
    target: PublicContext,
    sender: PublicContext,
    nonce: [u8; 12],
    key: Vec<u8>,
    body: Vec<u8>,
    signature: Vec<u8>,
}

impl View for CryptoPacket {
    type V = EnvelopeView;

    closed spec fn view(&self) -> EnvelopeView {
        EnvelopeView {
            target: self.target@,
            sender: self.sender@,
            nonce: self.nonce@,
            key: self.key@,
            body: self.body@,
            signature: self.signature@,
        }
    }
}

impl CryptoPacket {
    /// Reassembles an envelope from its parts, as read back from storage or
    /// the wire.
    pub fn from_parts(
        target: PublicContext,
        sender: PublicContext,
        nonce: [u8; 12],
        key: Vec<u8>,
        body: Vec<u8>,
        signature: Vec<u8>,
    ) -> (r: Self)
        ensures
            r@ == (EnvelopeView {
                target: target@,
                sender: sender@,
                nonce: nonce@,
                key: key@,
                body: body@,
                signature: signature@,
            }),
    {
        CryptoPacket { target, sender, nonce, key, body, signature }
    }

    /// The public identity the envelope was sealed for.
    pub fn target(&self) -> (r: &PublicContext)
        ensures
            r@ == self@.target,
    {
        &self.target
    }

    /// The public identity of the sender, whose signing key checks the signature.
    pub fn sender(&self) -> (r: &PublicContext)
        ensures
            r@ == self@.sender,
    {
        &self.sender
    }

    /// The nonce under which the body was sealed.
    pub fn nonce(&self) -> (r: [u8; 12])
        ensures
            r@ == self@.nonce,
    {
        self.nonce
    }

    /// The encapsulated key.
    pub fn key(&self) -> (r: &Vec<u8>)
        ensures
            r@ == self@.key,
    {
        &self.key
    }

    /// The sealed body: ciphertext followed by its tag.
    pub fn body(&self) -> (r: &Vec<u8>)
        ensures
            r@ == self@.body,
    {
        &self.body
    }

    /// The sender's signature over the body.
    pub fn signature(&self) -> (r: &Vec<u8>)
        ensures
            r@ == self@.signature,
    {
        &self.signature
    }

    /// Accepts the envelope for opening where its signature verified against
    /// the sender's signing key, and refuses it otherwise.
    pub fn authenticate(self, signature_valid: bool) -> (r: Result<AuthenticatedPacket>)
        ensures
            !signature_valid ==> r == Err::<AuthenticatedPacket, Error>(Error::SignatureInvalid),
            signature_valid ==> (r matches Ok(a) && a@ == self@),
    {
        if signature_valid {
            Ok(AuthenticatedPacket { packet: self })
        } else {
            Err(Error::SignatureInvalid)
        }
    }
}

/// An envelope whose signature has been checked. Only
/// `CryptoPacket::authenticate` makes one, so nothing is opened before its
/// signature is known to hold.
#[derive(Debug)]
pub struct AuthenticatedPacket {
    packet: CryptoPacket,
}

impl View for AuthenticatedPacket {
    type V = EnvelopeView;

    closed spec fn view(&self) -> EnvelopeView {
        self.packet@
    }
}

impl AuthenticatedPacket {
    /// The encapsulated key, to be decapsulated by the recipient.
    pub fn key(&self) -> (r: &Vec<u8>)
        ensures
            r@ == self@.key,
    {
        &self.packet.key
    }
}

/// The full key material of one identity: its encapsulation keypair and its
/// signing keypair, each as (public key, secret key). Every key is non-empty.
#[derive(Clone)]
pub struct CryptoContext {
    encrypt_public: Vec<u8>,
    encrypt_secret: Vec<u8>,
    sign_public: Vec<u8>,
    sign_secret: Vec<u8>,
}

/// The key material of an identity, as bytes.
pub struct KeyMaterial {
    pub public: PublicKeys,
    pub encrypt_secret: Seq<u8>,
    pub sign_secret: Seq<u8>,
}

impl View for CryptoContext {
    type V = KeyMaterial;

    closed spec fn view(&self) -> KeyMaterial {
        KeyMaterial {
            public: PublicKeys { encrypt: self.encrypt_public@, sign: self.sign_public@ },
            encrypt_secret: self.encrypt_secret@,
            sign_secret: self.sign_secret@,
        }
    }
}

impl CryptoContext {
    /// Builds an identity from the keypairs that key generation gave for
    /// the encapsulation and the signature algorithm (`None` where it
    /// failed). Fails with `KeyGeneration` where either failed or gave an
    /// empty key.
    pub fn new(
        encryption_keys: Option<(Vec<u8>, Vec<u8>)>,
        signing_keys: Option<(Vec<u8>, Vec<u8>)>,
    ) -> (r: Result<Self>)
        ensures
            r is Ok <==> (encryption_keys matches Some((ep, es)) && signing_keys matches Some((
                sp,
                ss,
            )) && ep@.len() > 0 && es@.len() > 0 && sp@.len() > 0 && ss@.len() > 0),
            r is Err ==> r == Err::<Self, Error>(Error::KeyGeneration),
            r matches Ok(c) ==> ((encryption_keys matches Some((ep, es)) && signing_keys matches Some((
                sp,
                ss,
            )) && c@ == (KeyMaterial {
                public: PublicKeys { encrypt: ep@, sign: sp@ },
                encrypt_secret: es@,
                sign_secret: ss@,
            }))),
    {
        match (encryption_keys, signing_keys) {
            (Some((ep, es)), Some((sp, ss))) => {
                if ep.len() == 0 || es.len() == 0 || sp.len() == 0 || ss.len() == 0 {
                    Err(Error::KeyGeneration)
                } else {
                    Ok(
                        CryptoContext {
                            encrypt_public: ep,
                            encrypt_secret: es,
                            sign_public: sp,
                            sign_secret: ss,
                        },
                    )
                }
            },
            _ => Err(Error::KeyGeneration),
        }
    }

    /// The public identity of this context: its two public keys.
    pub fn as_public(&self) -> (r: PublicContext)
        ensures
            r@ == self@.public,
    {
        PublicContext { encrypt: self.encrypt_public.clone(), sign: self.sign_public.clone() }
    }

    /// The secret key that decapsulates keys sealed for this identity.
    pub fn encryption_secret_key(&self) -> (r: &Vec<u8>)
        ensures
            r@ == self@.encrypt_secret,
    {
        &self.encrypt_secret
    }

    /// The secret key that signs what this identity seals.
    pub fn signing_secret_key(&self) -> (r: &Vec<u8>)
        ensures
            r@ == self@.sign_secret,
    {
        &self.sign_secret
    }

    /// Seals `data` for `target`, given what encapsulating against the
    /// target's encryption key gave: the encapsulated key and the shared
    /// secret, or `None` where it failed. A fresh random nonce is drawn;
    /// the body is `data` sealed with AES-256-GCM under the shared secret,
    /// with no associated data. The result still waits for the signature
    /// of this context over its body.
    pub fn encrypt(
        &self,
        target: PublicContext,
        data: &[u8],
        encapsulated: Option<(Vec<u8>, Vec<u8>)>,
    ) -> (r: Result<SealedPacket>)
        ensures
            r is Err <==> seal_error(second_view(encapsulated), data@) is Some,
            r matches Err(e) ==> seal_error(second_view(encapsulated), data@) == Some(e),
            r matches Ok(p) ==> {
                &&& encapsulated matches Some((key, shared))
                &&& seals(p@.nonce, p@.body, data@, shared@)
                &&& p@.target == target@
                &&& p@.sender == self@.public
                &&& p@.key == key@
                &&& p@.nonce.len() == 12
                &&& p@.body.len() == data@.len() + TAG_LEN
                &&& p@.signature.len() == 0
            },
    {
        let (key, shared) = match encapsulated {
            Some(pair) => pair,
            None => {
                return Err(Error::KeyEncapsulation);
            },
        };
        let nonce = aead::fresh_nonce();
        if shared.len() != KEY_LEN {
            return Err(Error::AeadKeyLength);
        }
        let body = match aead::seal(shared.as_slice(), &nonce, data) {
            Some(b) => b,
            None => {
                return Err(Error::Aead);
            },
        };
        Ok(SealedPacket { target, sender: self.as_public(), nonce, key, body })
    }

    /// Opens an authenticated envelope, given what decapsulating its key
    /// with this context's encryption secret key gave (`None` where it
    /// failed). The body is opened with AES-256-GCM under the recovered
    /// secret and the envelope's nonce.
    pub fn decrypt(&self, packet: AuthenticatedPacket, shared: Option<Vec<u8>>) -> (r: Result<
        Vec<u8>,
    >)
        ensures
            result_view(r) == open_outcome(packet@, true, bytes_view(shared)),
    {
        let k = match shared {
            Some(k) => k,
            None => {
                return Err(Error::Decapsulation);
            },
        };
        if k.len() != KEY_LEN {
            return Err(Error::AeadKeyLength);
        }
        let nonce = packet.packet.nonce;
        match aead::open(k.as_slice(), &nonce, packet.packet.body.as_slice()) {
            Some(p) => Ok(p),
            None => Err(Error::AeadTagInvalid),
        }
    }
}

/// Opening what was sealed gives the plaintext back: once an envelope whose
/// body seals `data` under `shared` has been signed, and its signature has
/// verified, it opens to `data` when decapsulating its key recovers
/// `shared`.
pub proof fn lemma_round_trip(
    sealed: EnvelopeView,
    signature: Seq<u8>,
    data: Seq<u8>,
    shared: Seq<u8>,
)
    requires
        seals(sealed.nonce, sealed.body, data, shared),
    ensures
        open_outcome(EnvelopeView { signature, ..sealed }, true, Some(shared)) == Ok::<
            Seq<u8>,
            Error,
        >(data),
{
}

/// Nothing is opened before it is authenticated: an envelope whose
/// signature did not verify is refused with `SignatureInvalid` whatever
/// decapsulation would give, and a plaintext comes out only where the
/// signature verified and AES-GCM opened the body, unaltered, under the
/// recovered secret and the envelope's nonce.
pub proof fn lemma_authenticate_before_open(
    env: EnvelopeView,
    signature_valid: bool,
    shared: Option<Seq<u8>>,
)
    ensures
        !signature_valid ==> open_outcome(env, signature_valid, shared) == Err::<Seq<u8>, Error>(
            Error::SignatureInvalid,
        ),
        open_outcome(env, signature_valid, shared) matches Ok(p) ==> {
            &&& signature_valid
            &&& shared matches Some(k)
            &&& gcm_open(k, env.nonce, env.body) == Some(p)
        },
{
}

/// Where decapsulation fails, as with a key that the envelope was not
/// sealed for, opening fails with `Decapsulation`, or earlier with
/// `SignatureInvalid`; it never yields a plaintext.
pub proof fn lemma_failed_decapsulation_rejected(env: EnvelopeView, signature_valid: bool)
    ensures
        open_outcome(env, signature_valid, None) == Err::<Seq<u8>, Error>(
            if signature_valid {
                Error::Decapsulation
            } else {
                Error::SignatureInvalid
            },
        ),
{
}

/// Where AES-GCM refuses the body under the envelope's nonce and the
/// recovered secret (as after a nonce or body altered in transit), opening
/// fails with `AeadTagInvalid`, or earlier with `SignatureInvalid`; it never
/// yields a plaintext.
pub proof fn lemma_refused_body_rejected(env: EnvelopeView, signature_valid: bool, shared: Seq<u8>)
    requires
        shared.len() == KEY_LEN,
        gcm_open(shared, env.nonce, env.body) is None,
    ensures
        open_outcome(env, signature_valid, Some(shared)) == Err::<Seq<u8>, Error>(
            if signature_valid {
                Error::AeadTagInvalid
            } else {
                Error::SignatureInvalid
            },
        ),
{
}

} // verus!
