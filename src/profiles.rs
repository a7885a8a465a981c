use vstd::prelude::*;
use vstd::string::{StringExecFns, StringSliceAdditionalSpecFns};
use sha2::Digest;
use crate::crypt::{fingerprint, PublicContext, PublicKeys};
use crate::encoding::{base64_url_unpadded, encode_base64_url, is_url_safe_char, unpadded_len};

verus! {

/// The CRC-16/IBM-3740 checksum of `data`.
pub uninterp spec fn crc16_ibm_3740(data: Seq<u8>) -> u16;

/// The SHA-256 digest of `data`.
pub uninterp spec fn sha256(data: Seq<u8>) -> Seq<u8>;

/// Relies on crc's `Crc::<u16>::checksum` with the `CRC_16_IBM_3740`
/// parameters: a checksum that depends on the bytes alone.
#[verifier::external_body]
fn checksum(data: &[u8]) -> (r: u16)
    ensures
        r == crc16_ibm_3740(data@),
{
    crc::Crc::<u16>::new(&crc::CRC_16_IBM_3740).checksum(data)
}

/// Relies on sha2's `Sha256::digest`: the 32-byte digest of the bytes.
#[verifier::external_body]
fn digest(data: &[u8]) -> (r: Vec<u8>)
    ensures
        r@ == sha256(data@),
        r@.len() == 32,
{
    sha2::Sha256::digest(data).to_vec()
}

/// The upper-case hexadecimal digits, in order of value.
pub open spec fn hex_digits() -> Seq<char> {
    seq!['0', '1', '2', '3', '4', '5', '6', '7', '8', '9', 'A', 'B', 'C', 'D', 'E', 'F']
}

/// `v` written in upper-case hexadecimal, without leading zeros.
pub open spec fn upper_hex(v: nat) -> Seq<char>
    decreases v,
{
    if v < 16 {
        seq![hex_digits()[v as int]]
    } else {
        upper_hex(v / 16) + seq![hex_digits()[(v % 16) as int]]
    }
}

/// Relies on std's `{:X}` formatting of an integer: upper-case hexadecimal
/// digits, without leading zeros or prefix.
#[verifier::external_body]
fn format_upper_hex(v: u16) -> (r: String)
    ensures
        r@ == upper_hex(v as nat),
{
    format!("{:X}", v)
}

/// Upper-case hexadecimal text of one to four digits: the form of a
/// discriminant.
pub open spec fn is_discriminant_text(t: Seq<char>) -> bool {
    &&& 1 <= t.len() <= 4
    &&& forall|i: int| 0 <= i < t.len() ==> hex_digits().contains(#[trigger] t[i])
}

/// A number below 65536 is written in one to four upper-case hexadecimal digits.
pub proof fn lemma_upper_hex_shape(v: nat)
    ensures
        upper_hex(v).len() >= 1,
        v < 16 ==> upper_hex(v).len() == 1,
        v < 256 ==> upper_hex(v).len() <= 2,
        v < 4096 ==> upper_hex(v).len() <= 3,
        v < 65536 ==> upper_hex(v).len() <= 4,
        forall|i: int| 0 <= i < upper_hex(v).len() ==> hex_digits().contains(#[trigger] upper_hex(v)[i]),
    decreases v,
{
    if v < 16 {
        assert(hex_digits().contains(hex_digits()[v as int]));
    } else {
        lemma_upper_hex_shape(v / 16);
        let d = hex_digits()[(v % 16) as int];
        assert(hex_digits().contains(d));
        let r = upper_hex(v);
        assert(r == upper_hex(v / 16) + seq![d]);
        assert forall|i: int| 0 <= i < r.len() implies hex_digits().contains(#[trigger] r[i]) by {
            if i < upper_hex(v / 16).len() {
                assert(r[i] == upper_hex(v / 16)[i]);
            } else {
                assert(r[i] == d);
            }
        }
    }
}

/// The name and the tag with a `#` between them.
fn join_handle(name: &str, tag: &str) -> (r: String)
    ensures
        r@ == name@ + seq!['#'] + tag@,
{
    let mut r = name.to_owned();
    proof {
        reveal_strlit("#");
    }
    r.append("#");
    r.append(tag);
    r
}

/// The bytes that identify a user: the fingerprint of their public
/// identity followed by the UTF-8 bytes of their name.
pub open spec fn identity_bytes(keys: PublicKeys, username: Seq<u8>) -> Seq<u8> {
    fingerprint(keys) + username
}

/// What a user says of themself; every field may be left out.
#[derive(Clone, Debug)]
pub struct UserMetadata {
    pub display_name: Option<String>,
    pub pronouns: Option<Vec<String>>,
    pub status: Option<String>,
    pub description: Option<String>,
}

impl Default for UserMetadata {
    fn default() -> (r: Self)
        ensures
            r.display_name is None,
            r.pronouns is None,
            r.status is None,
            r.description is None,
    {
        UserMetadata { display_name: None, pronouns: None, status: None, description: None }
    }
}

/// The contents of a user's metadata, as text.
pub struct MetadataView {
    pub display_name: Option<Seq<char>>,
    pub pronouns: Option<Seq<Seq<char>>>,
    pub status: Option<Seq<char>>,
    pub description: Option<Seq<char>>,
}

/// The text of an optional string.
pub open spec fn text_view(t: Option<String>) -> Option<Seq<char>> {
    match t {
        Some(s) => Some(s@),
        None => None,
    }
}

impl View for UserMetadata {
    type V = MetadataView;

    open spec fn view(&self) -> MetadataView {
        MetadataView {
            display_name: text_view(self.display_name),
            pronouns: match self.pronouns {
                Some(v) => Some(v.deep_view()),
                None => None,
            },
            status: text_view(self.status),
            description: text_view(self.description),
        }
    }
}

/// A copy of an optional string.
fn copy_text(t: &Option<String>) -> (r: Option<String>)
    ensures
        text_view(r) == text_view(*t),
{
    match t {
        Some(s) => Some(s.clone()),
        None => None,
    }
}

/// A copy of a list of strings.
fn copy_texts(v: &Vec<String>) -> (r: Vec<String>)
    ensures
        r.deep_view() == v.deep_view(),
{
    let mut r: Vec<String> = Vec::new();
    let mut i: usize = 0;
    while i < v.len()
        invariant
            i <= v@.len(),
            r@.len() == i,
            forall|j: int| 0 <= j < i ==> #[trigger] r@[j]@ == v@[j]@,
        decreases v@.len() - i,
    {
        r.push(v[i].clone());
        i = i + 1;
    }
    assert(r.deep_view() =~= v.deep_view());
    r
}

impl UserMetadata {
    /// A copy of this metadata, field by field.
    pub fn copy(&self) -> (r: Self)
        ensures
            r@ == self@,
    {
        let pronouns = match &self.pronouns {
            Some(v) => Some(copy_texts(v)),
            None => None,
        };
        UserMetadata {
            display_name: copy_text(&self.display_name),
            pronouns,
            status: copy_text(&self.status),
            description: copy_text(&self.description),
        }
    }
}

/// The parts of a user profile.
pub struct ProfileView {
    pub id: Seq<char>,
    pub username: Seq<char>,
    pub discriminant: Seq<char>,
    pub encryption: PublicKeys,
    pub metadata: MetadataView,
}

/// A user: their name, the public identity peers encrypt to, what they say
/// of themself, and two values derived from the name and the identity's
/// fingerprint: a short discriminant that tells apart users of one name,
/// and a long identifier.
#[derive(Clone, Debug)]
pub struct UserProfile {
    id: String,
    username: String,
    discriminant: String,
    encryption: PublicContext,
    metadata: UserMetadata,
}

impl View for UserProfile {
    type V = ProfileView;

    closed spec fn view(&self) -> ProfileView {
        ProfileView {
            id: self.id@,
            username: self.username@,
            discriminant: self.discriminant@,
            encryption: self.encryption@,
            metadata: self.metadata@,
        }
    }
}

impl UserProfile {
    /// Makes the profile of `username` with public identity `encryption`.
    /// Over the identity's fingerprint followed by the name's UTF-8 bytes,
    /// the discriminant is the CRC-16/IBM-3740 checksum in upper-case
    /// hexadecimal, and the identifier the URL-safe unpadded base64 of the
    /// SHA-256 digest.
    pub fn new(username: &str, encryption: PublicContext, metadata: UserMetadata) -> (r: Self)
        ensures
            r@.username == username@,
            r@.encryption == encryption@,
            r@.metadata == metadata@,
            is_discriminant_text(r@.discriminant),
            r@.id.len() == 43,
            forall|i: int| 0 <= i < r@.id.len() ==> is_url_safe_char(#[trigger] r@.id[i]),
            r@.discriminant == upper_hex(
                crc16_ibm_3740(identity_bytes(encryption@, username.spec_bytes())) as nat,
            ),
            r@.id == base64_url_unpadded(
                sha256(identity_bytes(encryption@, username.spec_bytes())),
            ),
    {
        let name = username.to_owned();
        let mut id_info = encryption.as_bytes();
        id_info.extend_from_slice(username.as_bytes());
        assert(id_info@ =~= identity_bytes(encryption@, username.spec_bytes()));
        let crc = checksum(id_info.as_slice());
        let discriminant = format_upper_hex(crc);
        proof {
            lemma_upper_hex_shape(crc as nat);
        }
        let hash = digest(id_info.as_slice());
        let id = encode_base64_url(hash.as_slice());
        UserProfile { id, username: name, discriminant, encryption, metadata }
    }

    /// The user's name.
    pub fn username(&self) -> (r: String)
        ensures
            r@ == self@.username,
    {
        self.username.clone()
    }

    /// The short value that tells apart users of one name.
    pub fn discriminant(&self) -> (r: String)
        ensures
            r@ == self@.discriminant,
    {
        self.discriminant.clone()
    }

    /// What the user says of themself.
    pub fn metadata(&self) -> (r: UserMetadata)
        ensures
            r@ == self@.metadata,
    {
        self.metadata.copy()
    }

    /// The public identity that peers encrypt to.
    pub fn encryption_context(&self) -> (r: PublicContext)
        ensures
            r@ == self@.encryption,
    {
        PublicContext::copy_of(&self.encryption)
    }

    /// The name and the discriminant, joined by `#`.
    pub fn handle(&self) -> (r: String)
        ensures
            r@ == self@.username + seq!['#'] + self@.discriminant,
    {
        join_handle(self.username.as_str(), self.discriminant.as_str())
    }

    /// The long identifier of the user.
    pub fn id(&self) -> (r: String)
        ensures
            r@ == self@.id,
    {
        self.id.clone()
    }
}

/// A server: its identifier, the public identity peers encrypt to, its
/// name and an optional message of the day.
#[derive(Clone, Debug)]
pub struct ServerProfile {
    pub id: String,
    pub encryption: PublicContext,
    pub display_name: String,
    pub motd: Option<String>,
}

impl ServerProfile {
    /// Makes the profile of a server with public identity `encryption`; its
    /// identifier is the URL-safe unpadded base64 of the identity's
    /// fingerprint.
    pub fn new(encryption: PublicContext, name: &str, motd: Option<&str>) -> (r: Self)
        ensures
            r.id@ == base64_url_unpadded(fingerprint(encryption@)),
            r.id@.len() == unpadded_len(fingerprint(encryption@).len()),
            r.encryption@ == encryption@,
            r.display_name@ == name@,
            match motd {
                None => r.motd is None,
                Some(m) => r.motd matches Some(t) && t@ == m@,
            },
    {
        let fp = encryption.as_bytes();
        let id = encode_base64_url(fp.as_slice());
        let motd = match motd {
            Some(m) => Some(m.to_owned()),
            None => None,
        };
        ServerProfile { id, encryption, display_name: name.to_owned(), motd }
    }
}

} // verus!
