//! The signing key: an Ed25519 key pair held as its 64 bytes, with the
//! `ed25519-dalek` crate doing the curve arithmetic.

use vstd::prelude::*;
use vstd::std_specs::convert::{FromSpec, FromSpecImpl};
use crate::b64::{base64_decoded, base64_text, decode, encode, DecodeError};

verus! {

/// Length of a key pair in bytes: the secret half, then the public half.
pub const KEYPAIR_LENGTH: usize = 64;

/// Whether `Keypair::from_bytes` of `ed25519-dalek` accepts `bytes`.
pub uninterp spec fn ed25519_is_keypair(bytes: Seq<u8>) -> bool;

/// The public key that `ed25519-dalek` derives from a secret key.
pub uninterp spec fn ed25519_public_of(secret: Seq<u8>) -> Seq<u8>;

/// The signature that a key pair of `ed25519-dalek` gives a message.
pub uninterp spec fn ed25519_signature(keypair: Seq<u8>, message: Seq<u8>) -> Seq<u8>;

/// Whether `ed25519-dalek` verifies the parsed signature `signature` on
/// `message` under the public key `public`.
pub uninterp spec fn ed25519_verifies(public: Seq<u8>, message: Seq<u8>, signature: Seq<u8>) -> bool;

/// The bytes parse as a signature: there are 64 of them, and the three
/// highest bits of the last are clear.
pub open spec fn well_formed_signature(sig: Seq<u8>) -> bool {
    sig.len() == 64 && (sig[63] & 0xe0u8) == 0
}

/// The secret half of a key pair's bytes.
pub open spec fn secret_half(keypair: Seq<u8>) -> Seq<u8> {
    keypair.subrange(0, 32)
}

/// The public half of a key pair's bytes.
pub open spec fn public_half(keypair: Seq<u8>) -> Seq<u8> {
    keypair.subrange(32, 64)
}

/// The public half is the key that the secret half derives. Only of such a
/// pair is it known that its signatures verify.
pub open spec fn halves_match(keypair: Seq<u8>) -> bool {
    public_half(keypair) == ed25519_public_of(secret_half(keypair))
}

#[verifier::external_type_specification]
#[verifier::external_body]
pub struct ExSignatureError(ed25519_dalek::SignatureError);

/// Calls `Keypair::from_bytes` and, on what it built, `Keypair::to_bytes`.
/// Trusted: it succeeds exactly on the byte strings named by
/// `ed25519_is_keypair`, all of them 64 bytes long, and the pair's bytes are
/// the ones it was built from.
#[verifier::external_body]
fn dalek_keypair_from_bytes(bytes: &[u8]) -> (res: Result<[u8; 64], ed25519_dalek::SignatureError>)
    ensures
        res is Ok == ed25519_is_keypair(bytes@),
        res is Ok ==> bytes@.len() == 64,
        res matches Ok(kept) ==> kept@ == bytes@,
{
    ed25519_dalek::Keypair::from_bytes(bytes).map(|k| k.to_bytes())
}

/// The sentence that a `SignatureError` of `ed25519-dalek` has for itself:
/// what its `Display` impl writes.
pub uninterp spec fn signature_error_text(e: ed25519_dalek::SignatureError) -> Seq<char>;

/// Calls the `Display` impl of `SignatureError`. Trusted: the text is the
/// error's own sentence, a function of the error alone.
#[verifier::external_body]
fn dalek_error_text(e: &ed25519_dalek::SignatureError) -> (text: String)
    ensures
        text@ == signature_error_text(*e),
{
    e.to_string()
}

/// Calls `Keypair::generate` on the operating system's random source.
/// Trusted, of every outcome: the bytes are a key pair that `from_bytes`
/// accepts, and the public half is the one derived from the secret half.
/// Where the system has no randomness to give, the source itself aborts.
#[verifier::external_body]
fn dalek_generate() -> (bytes: [u8; 64])
    ensures
        ed25519_is_keypair(bytes@),
        halves_match(bytes@),
{
    ed25519_dalek::Keypair::generate(&mut rand::rngs::OsRng {}).to_bytes()
}

/// Calls `PublicKey::from(&SecretKey)` on the secret half of `keypair`.
/// Trusted: the result is the public key that the crate derives from it.
#[verifier::external_body]
fn dalek_public_from_secret(keypair: &[u8; 64]) -> (public: [u8; 32])
    ensures
        public@ == ed25519_public_of(secret_half(keypair@)),
{
    let secret = ed25519_dalek::SecretKey::from_bytes(&keypair[..32]).unwrap();
    ed25519_dalek::PublicKey::from(&secret).to_bytes()
}

/// Calls `Signer::sign` on the key pair rebuilt from `keypair`. Trusted: the
/// signature depends on the pair and the message alone; it parses as a
/// signature, which the crate itself unwraps before it hands it out; and
/// where the halves of the pair match, it verifies under the public half.
#[verifier::external_body]
fn dalek_sign(keypair: &[u8; 64], message: &[u8]) -> (signature: [u8; 64])
    requires
        ed25519_is_keypair(keypair@),
    ensures
        signature@ == ed25519_signature(keypair@, message@),
        well_formed_signature(signature@),
        halves_match(keypair@) ==> ed25519_verifies(public_half(keypair@), message@, signature@),
{
    let pair = ed25519_dalek::Keypair::from_bytes(keypair).unwrap();
    ed25519_dalek::Signer::sign(&pair, message).to_bytes()
}

/// Calls `Signature::try_from` and, on what it parsed, `Signature::to_bytes`.
/// Trusted: it succeeds exactly on 64 bytes of which the last has its three
/// highest bits clear, and the signature's bytes are the ones it was parsed
/// from.
#[verifier::external_body]
fn dalek_signature_from_bytes(sig: &[u8]) -> (res: Result<[u8; 64], ed25519_dalek::SignatureError>)
    ensures
        res is Ok == well_formed_signature(sig@),
        res matches Ok(parsed) ==> parsed@ == sig@,
{
    ed25519_dalek::Signature::try_from(sig).map(|parsed| parsed.to_bytes())
}

/// Calls `Verifier::verify` on the key pair rebuilt from `keypair` and the
/// signature rebuilt from `signature`. Trusted: the result says whether the
/// signature verifies on `message` under the public half.
#[verifier::external_body]
fn dalek_verify(keypair: &[u8; 64], message: &[u8], signature: &[u8; 64]) -> (ok: bool)
    requires
        ed25519_is_keypair(keypair@),
        well_formed_signature(signature@),
    ensures
        ok == ed25519_verifies(public_half(keypair@), message@, signature@),
{
    let pair = ed25519_dalek::Keypair::from_bytes(keypair).unwrap();
    let parsed = ed25519_dalek::Signature::try_from(&signature[..]).unwrap();
    ed25519_dalek::Verifier::verify(&pair, message, &parsed).is_ok()
}

/// Why a text is no base64.
#[derive(Debug, Clone, Copy, PartialEq, Eq, Structural)]
pub enum B64Err {
    Base64DecodeErr(DecodeError),
}

impl From<DecodeError> for B64Err {
    fn from(e: DecodeError) -> (res: Self) {
        B64Err::Base64DecodeErr(e)
    }
}

impl FromSpecImpl<DecodeError> for B64Err {
    open spec fn obeys_from_spec() -> bool {
        true
    }

    open spec fn from_spec(e: DecodeError) -> Self {
        B64Err::Base64DecodeErr(e)
    }
}

/// Why a key pair could not be read, built or kept.
#[derive(Debug, Clone)]
pub enum KpErr {
    /// The bytes are not as many as a key pair has.
    BytesLengthErr { expected: usize, got: usize },
    /// The bytes are no key pair; the text is the curve library's.
    SignatureErr(String),
    /// The text is no base64.
    B64Err(B64Err),
    /// The key file could not be read or written.
    IoErr(String),
    /// The key file's path has no parent directory.
    NoParentDir,
}

impl From<B64Err> for KpErr {
    fn from(e: B64Err) -> (res: Self) {
        KpErr::B64Err(e)
    }
}

impl FromSpecImpl<B64Err> for KpErr {
    open spec fn obeys_from_spec() -> bool {
        true
    }

    open spec fn from_spec(e: B64Err) -> Self {
        KpErr::B64Err(e)
    }
}

impl KpErr {
    /// The curve library's refusal, kept as its text.
    pub fn from_signature_error(e: ed25519_dalek::SignatureError) -> (res: Self)
        ensures
            res is SignatureErr,
            res->SignatureErr_0@ == signature_error_text(e),
    {
        KpErr::SignatureErr(dalek_error_text(&e))
    }
}

/// A value with a fixed form of 64 bytes.
pub trait AsBytes: Sized {
    type Err;

    /// The 64 bytes that stand for the value.
    spec fn bytes_spec(&self) -> Seq<u8>;

    /// Whether `bytes` stand for a value.
    spec fn accepts(bytes: Seq<u8>) -> bool;

    fn to_bytes(&self) -> (bytes: [u8; 64])
        ensures
            bytes@ == self.bytes_spec(),
            Self::accepts(bytes@),
    ;

    /// Whether `e` is the error that tells why `bytes` stand for no value.
    spec fn refusal(bytes: Seq<u8>, e: Self::Err) -> bool;

    fn from_bytes(bytes: &[u8]) -> (res: Result<Self, Self::Err>)
        ensures
            res is Ok == Self::accepts(bytes@),
            res matches Ok(v) ==> v.bytes_spec() == bytes@,
            res matches Err(e) ==> Self::refusal(bytes@, e),
    ;
}

/// A value with a base64 text form.
pub trait B64: Sized {
    type Err;

    /// The text that stands for the value.
    spec fn text_spec(&self) -> Seq<char>;

    /// Whether `text` stands for a value.
    spec fn reads(text: Seq<char>) -> bool;

    fn to_str(&self) -> (text: String)
        ensures
            text@ == self.text_spec(),
            Self::reads(text@),
    ;

    fn from_str(s: &str) -> (res: Result<Self, Self::Err>)
        ensures
            res is Ok == Self::reads(s@),
    ;
}

/// Every value with a form of 64 bytes has the base64 of those bytes as its
/// text form.
impl<T: AsBytes> B64 for T where <T as AsBytes>::Err: From<B64Err> {
    type Err = <T as AsBytes>::Err;

    open spec fn text_spec(&self) -> Seq<char> {
        base64_text(self.bytes_spec())
    }

    open spec fn reads(text: Seq<char>) -> bool {
        base64_decoded(text) is Ok && T::accepts(base64_decoded(text)->Ok_0)
    }

    fn to_str(&self) -> (text: String)
        ensures
            base64_decoded(text@) is Ok,
            base64_decoded(text@)->Ok_0 == self.bytes_spec(),
    {
        let bytes = self.to_bytes();
        encode(bytes.as_slice())
    }

    fn from_str(s: &str) -> (res: Result<Self, Self::Err>)
        ensures
            res matches Ok(v) ==> base64_decoded(s@)->Ok_0 == v.bytes_spec(),
            base64_decoded(s@) is Ok && res is Err ==> T::refusal(base64_decoded(s@)->Ok_0, res->Err_0),
            base64_decoded(s@) is Err && <<T as AsBytes>::Err as FromSpec<B64Err>>::obeys_from_spec() ==> res
                == Err::<Self, <T as AsBytes>::Err>(
                <<T as AsBytes>::Err as FromSpec<B64Err>>::from_spec(
                    B64Err::Base64DecodeErr(base64_decoded(s@)->Err_0),
                ),
            ),
    {
        match decode(s) {
            Ok(bytes) => T::from_bytes(bytes.as_slice()),
            Err(e) => Err(<<T as AsBytes>::Err as From<B64Err>>::from(B64Err::from(e))),
        }
    }
}

/// The signing key pair. Its bytes are always ones that the curve library
/// accepts as a key pair.
#[derive(Debug)]
pub struct KeyPair {
    bytes: [u8; 64],
}

impl View for KeyPair {
    type V = Seq<u8>;

    closed spec fn view(&self) -> Seq<u8> {
        self.bytes@
    }
}

impl KeyPair {
    #[verifier::type_invariant]
    spec fn inv(self) -> bool {
        ed25519_is_keypair(self.bytes@)
    }

    /// The public half is the key that the secret half derives.
    pub open spec fn consistent(&self) -> bool {
        halves_match(self@)
    }

    /// Whether `sig` parses as a signature and verifies on `message` under
    /// the public half of the pair.
    pub open spec fn verifies(&self, message: Seq<u8>, sig: Seq<u8>) -> bool {
        well_formed_signature(sig) && ed25519_verifies(public_half(self@), message, sig)
    }

    /// A fresh key pair from the operating system's random source.
    pub fn generate() -> (pair: Self)
        ensures
            pair.consistent(),
            <KeyPair as AsBytes>::accepts(pair@),
    {
        KeyPair { bytes: dalek_generate() }
    }

    /// The public key: the second half of the pair's bytes.
    pub fn pubkey(&self) -> (public: [u8; 32])
        ensures
            public@ == public_half(self@),
    {
        let mut public: [u8; 32] = [0u8; 32];
        let mut i: usize = 0;
        while i < 32
            invariant
                i <= 32,
                forall|k: int| 0 <= k < i ==> #[trigger] public@[k] == self.bytes@[32 + k],
            decreases 32 - i,
        {
            public[i] = self.bytes[32 + i];
            i = i + 1;
        }
        assert(public@ =~= public_half(self@));
        public
    }

    /// Whether the public half is the key that the secret half derives.
    pub fn is_consistent(&self) -> (res: bool)
        ensures
            res == self.consistent(),
    {
        let derived = dalek_public_from_secret(&self.bytes);
        let public = self.pubkey();
        let mut i: usize = 0;
        while i < 32
            invariant
                i <= 32,
                public@ == public_half(self@),
                derived@ == ed25519_public_of(secret_half(self@)),
                forall|k: int| 0 <= k < i ==> #[trigger] public@[k] == derived@[k],
            decreases 32 - i,
        {
            if public[i] != derived[i] {
                assert(public@[i as int] != derived@[i as int]);
                return false;
            }
            i = i + 1;
        }
        assert(public@ =~= derived@);
        true
    }

    /// The pair that a key file holds, or a fresh one to put there.
    /// `content` is what reading the file gave. Where it is the text of a key
    /// pair, that pair is returned and nothing is to be written; in every
    /// other case a fresh pair comes back with the text to write.
    pub fn from_file_or_new(content: Result<String, KpErr>) -> (res: (KeyPair, Option<String>))
        ensures
            <KeyPair as AsBytes>::accepts(res.0@),
            content is Ok && <KeyPair as B64>::reads(content->Ok_0@) ==> {
                &&& res.1 is None
                &&& res.0@ == base64_decoded(content->Ok_0@)->Ok_0
            },
            !(content is Ok && <KeyPair as B64>::reads(content->Ok_0@)) ==> {
                &&& res.1 is Some
                &&& res.1->Some_0@ == base64_text(res.0@)
                &&& base64_decoded(res.1->Some_0@) is Ok
                &&& base64_decoded(res.1->Some_0@)->Ok_0 == res.0@
                &&& res.0.consistent()
            },
    {
        match content {
            Ok(text) => {
                match <KeyPair as B64>::from_str(text.as_str()) {
                    Ok(keys) => {
                        proof {
                            use_type_invariant(&keys);
                        }
                        return (keys, None);
                    },
                    Err(_) => {},
                }
            },
            Err(_) => {},
        }
        let new_keys = KeyPair::generate();
        let text = new_keys.to_str();
        proof {
            use_type_invariant(&new_keys);
        }
        (new_keys, Some(text))
    }

    /// Signs `message`.
    pub fn sign(&self, message: &[u8]) -> (signature: [u8; 64])
        ensures
            signature@ == ed25519_signature(self@, message@),
            well_formed_signature(signature@),
            self.consistent() ==> self.verifies(message@, signature@),
    {
        proof {
            use_type_invariant(self);
        }
        dalek_sign(&self.bytes, message)
    }

    /// Whether `sig` is this key's signature on `message`. Bytes of another
    /// length than a signature's are refused before they are parsed, and
    /// bytes that do not parse as a signature are refused before they are
    /// checked.
    pub fn verify(&self, message: &[u8], sig: &[u8]) -> (ok: bool)
        ensures
            ok == self.verifies(message@, sig@),
            sig@.len() != 64 ==> !ok,
    {
        if sig.len() != 64 {
            return false;
        }
        let parsed = match dalek_signature_from_bytes(sig) {
            Ok(parsed) => parsed,
            Err(_) => {
                return false;
            },
        };
        proof {
            use_type_invariant(self);
        }
        dalek_verify(&self.bytes, message, &parsed)
    }
}

impl AsBytes for KeyPair {
    type Err = KpErr;

    open spec fn bytes_spec(&self) -> Seq<u8> {
        self@
    }

    open spec fn accepts(bytes: Seq<u8>) -> bool {
        bytes.len() == 64 && ed25519_is_keypair(bytes)
    }

    fn to_bytes(&self) -> (bytes: [u8; 64]) {
        proof {
            use_type_invariant(self);
        }
        self.bytes
    }

    /// Bytes of any length but 64 are refused with `BytesLengthErr`, which
    /// names the two lengths; 64 bytes that the curve library refuses, with
    /// `SignatureErr`.
    open spec fn refusal(bytes: Seq<u8>, e: KpErr) -> bool {
        if bytes.len() != 64 {
            e == (KpErr::BytesLengthErr { expected: 64, got: bytes.len() as usize })
        } else {
            e is SignatureErr
        }
    }

    fn from_bytes(bytes: &[u8]) -> (res: Result<Self, KpErr>) {
        if bytes.len() != KEYPAIR_LENGTH {
            return Err(KpErr::BytesLengthErr { expected: KEYPAIR_LENGTH, got: bytes.len() });
        }
        match dalek_keypair_from_bytes(bytes) {
            Ok(kept) => Ok(KeyPair { bytes: kept }),
            Err(e) => Err(KpErr::from_signature_error(e)),
        }
    }
}

} // verus!
