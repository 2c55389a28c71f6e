//! The provider's three values as this crate sees them: blobs of fixed width.
//!
//! What a blob means is the provider's business. A blob enters through
//! `from_bytes`, together with the provider's answer to the question whether
//! it decodes, and leaves through `to_bytes` unchanged.

use crate::KVObjectError;
use vstd::prelude::*;

verus! {

pub const SEED_LEN: usize = 32;

pub const SECRET_LEN: usize = 32;

pub const PUBLIC_LEN: usize = 33;

pub const CODE_LEN: usize = 32;

pub const SIGNATURE_LEN: usize = 64;

pub const SEED_OFFSET: usize = 0;

pub const SECRET_OFFSET: usize = SEED_OFFSET + SEED_LEN;

pub const PUBLIC_OFFSET: usize = SECRET_OFFSET + SECRET_LEN;

pub const CODE_OFFSET: usize = PUBLIC_OFFSET + PUBLIC_LEN;

pub const KEYPAIR_LEN: usize = CODE_OFFSET + CODE_LEN;

/// Copies a slice of known length into an array of that length.
fn array_of<const N: usize>(bytes: &[u8]) -> (r: [u8; N])
    requires
        bytes@.len() == N,
    ensures
        r@ == bytes@,
{
    let mut out = [0u8; N];
    let mut i: usize = 0;
    while i < N
        invariant
            i <= N,
            bytes@.len() == N,
            forall|j: int| 0 <= j < i ==> out@[j] == bytes@[j],
        decreases N - i,
    {
        out[i] = bytes[i];
        i += 1;
    }
    assert(out@ =~= bytes@);
    out
}

/// A run of zero bytes: what an absent header field is written as.
pub open spec fn spec_zeros(n: nat) -> Seq<u8> {
    Seq::new(n, |i: int| 0u8)
}

/// A signer's public identity: 33 bytes.
#[derive(Debug, Clone, Copy, PartialEq, Eq)]
pub struct CertificateSm2 {
    bytes: [u8; 33],
}

impl View for CertificateSm2 {
    type V = Seq<u8>;

    closed spec fn view(&self) -> Seq<u8> {
        self.bytes@
    }
}

impl CertificateSm2 {
    /// Every certificate is 33 bytes wide.
    pub proof fn lemma_width(self)
        ensures
            self@.len() == PUBLIC_LEN,
    {
    }

    /// Takes a certificate from its encoding. `accepted` is the provider's
    /// answer to whether these bytes decode as a public key; a blob of the
    /// wrong width is refused whatever the provider said.
    pub fn from_bytes(bytes: &[u8], accepted: bool) -> (r: Result<Self, KVObjectError>)
        ensures
            r is Ok <==> bytes@.len() == PUBLIC_LEN && accepted,
            r matches Ok(c) ==> c@ == bytes@,
            r matches Err(e) ==> e == KVObjectError::DeSerializeError,
    {
        if bytes.len() != PUBLIC_LEN || !accepted {
            return Err(KVObjectError::DeSerializeError);
        }
        Ok(CertificateSm2 { bytes: array_of::<33>(bytes) })
    }

    pub fn to_bytes(&self) -> (r: Vec<u8>)
        ensures
            r@ == self@,
            r@.len() == PUBLIC_LEN,
    {
        let mut r: Vec<u8> = Vec::new();
        r.extend_from_slice(&self.bytes);
        assert(r@ =~= self@);
        r
    }

    /// The certificate as text: the upper-case hexadecimal of its 33 bytes.
    pub fn to_hex(&self) -> (r: String)
        ensures
            r@ == crate::text::spec_hex_upper(self@),
    {
        let bytes = self.to_bytes();
        crate::text::hex_encode_upper(bytes.as_slice())
    }

    /// Takes a certificate from text: hexadecimal of either case, 33 bytes
    /// of it, which the provider accepts.
    pub fn from_hex(text: &str, accepted: bool) -> (r: Result<Self, KVObjectError>)
        ensures
            r is Ok <==> crate::text::spec_is_hex(text@) && crate::text::spec_hex_bytes(
                text@,
            ).len() == PUBLIC_LEN && accepted,
            r matches Ok(c) ==> c@ == crate::text::spec_hex_bytes(text@),
            r matches Err(e) ==> e == KVObjectError::DeSerializeError,
    {
        match crate::text::from_hex(text) {
            Ok(bytes) => Self::from_bytes(bytes.as_slice(), accepted),
            Err(e) => Err(e),
        }
    }
}

impl Default for CertificateSm2 {
    /// The certificate of an envelope that nobody has signed: all zero.
    fn default() -> (r: Self)
        ensures
            r@ == spec_zeros(PUBLIC_LEN as nat),
    {
        let r = CertificateSm2 { bytes: [0u8; 33] };
        assert(r@ =~= spec_zeros(PUBLIC_LEN as nat));
        r
    }
}

/// A signature: 64 bytes.
#[derive(Debug, Clone, Copy, PartialEq, Eq)]
pub struct SignatureSm2 {
    bytes: [u8; 64],
}

impl View for SignatureSm2 {
    type V = Seq<u8>;

    closed spec fn view(&self) -> Seq<u8> {
        self.bytes@
    }
}

impl SignatureSm2 {
    /// Every signature is 64 bytes wide.
    pub proof fn lemma_width(self)
        ensures
            self@.len() == SIGNATURE_LEN,
    {
    }

    /// Takes a signature from its encoding. `accepted` is the provider's
    /// answer to whether these bytes decode as a signature; a blob of the
    /// wrong width is refused whatever the provider said.
    pub fn from_bytes(bytes: &[u8], accepted: bool) -> (r: Result<Self, KVObjectError>)
        ensures
            r is Ok <==> bytes@.len() == SIGNATURE_LEN && accepted,
            r matches Ok(s) ==> s@ == bytes@,
            r matches Err(e) ==> e == KVObjectError::DeSerializeError,
    {
        if bytes.len() != SIGNATURE_LEN || !accepted {
            return Err(KVObjectError::DeSerializeError);
        }
        Ok(SignatureSm2 { bytes: array_of::<64>(bytes) })
    }

    pub fn to_bytes(&self) -> (r: Vec<u8>)
        ensures
            r@ == self@,
            r@.len() == SIGNATURE_LEN,
    {
        let mut r: Vec<u8> = Vec::new();
        r.extend_from_slice(&self.bytes);
        assert(r@ =~= self@);
        r
    }

    /// The signature as text: the upper-case hexadecimal of its 64 bytes.
    pub fn to_hex(&self) -> (r: String)
        ensures
            r@ == crate::text::spec_hex_upper(self@),
    {
        let bytes = self.to_bytes();
        crate::text::hex_encode_upper(bytes.as_slice())
    }

    /// Takes a signature from text: hexadecimal of either case, 64 bytes of
    /// it, which the provider accepts.
    pub fn from_hex(text: &str, accepted: bool) -> (r: Result<Self, KVObjectError>)
        ensures
            r is Ok <==> crate::text::spec_is_hex(text@) && crate::text::spec_hex_bytes(
                text@,
            ).len() == SIGNATURE_LEN && accepted,
            r matches Ok(s) ==> s@ == crate::text::spec_hex_bytes(text@),
            r matches Err(e) ==> e == KVObjectError::DeSerializeError,
    {
        match crate::text::from_hex(text) {
            Ok(bytes) => Self::from_bytes(bytes.as_slice(), accepted),
            Err(e) => Err(e),
        }
    }
}

impl Default for SignatureSm2 {
    /// The signature of an envelope that nobody has signed: all zero.
    fn default() -> (r: Self)
        ensures
            r@ == spec_zeros(SIGNATURE_LEN as nat),
    {
        let r = SignatureSm2 { bytes: [0u8; 64] };
        assert(r@ =~= spec_zeros(SIGNATURE_LEN as nat));
        r
    }
}

/// A key pair as the wire format reads it.
pub struct KeyPairSm2View {
    pub seed: Seq<u8>,
    pub secret: Seq<u8>,
    pub public: Seq<u8>,
    pub code: Seq<u8>,
}

impl KeyPairSm2View {
    /// Each field has its fixed width.
    pub open spec fn wf(self) -> bool {
        &&& self.seed.len() == SEED_LEN
        &&& self.secret.len() == SECRET_LEN
        &&& self.public.len() == PUBLIC_LEN
        &&& self.code.len() == CODE_LEN
    }

    /// The 129 bytes of a key pair: seed, secret key, public key, and the
    /// seed once more in the place of the code.
    pub open spec fn spec_to_bytes(self) -> Seq<u8> {
        self.seed + self.secret + self.public + self.seed
    }

    /// What 129 bytes are read as, given the provider's answers on the secret
    /// key and on the public key: the four fields in order.
    pub open spec fn spec_from_bytes(
        bytes: Seq<u8>,
        secret_accepted: bool,
        public_accepted: bool,
    ) -> Result<KeyPairSm2View, KVObjectError> {
        if bytes.len() == KEYPAIR_LEN && secret_accepted && public_accepted {
            Ok(
                KeyPairSm2View {
                    seed: bytes.subrange(SEED_OFFSET as int, SECRET_OFFSET as int),
                    secret: bytes.subrange(SECRET_OFFSET as int, PUBLIC_OFFSET as int),
                    public: bytes.subrange(PUBLIC_OFFSET as int, CODE_OFFSET as int),
                    code: bytes.subrange(CODE_OFFSET as int, KEYPAIR_LEN as int),
                },
            )
        } else {
            Err(KVObjectError::DeSerializeError)
        }
    }
}

/// A key pair comes back from its own bytes with every field but the code,
/// which comes back as the seed.
pub proof fn lemma_keypair_round_trip(v: KeyPairSm2View)
    requires
        v.wf(),
    ensures
        v.spec_to_bytes().len() == KEYPAIR_LEN,
        KeyPairSm2View::spec_from_bytes(v.spec_to_bytes(), true, true) == Ok::<
            KeyPairSm2View,
            KVObjectError,
        >(KeyPairSm2View { seed: v.seed, secret: v.secret, public: v.public, code: v.seed }),
{
    let bytes = v.spec_to_bytes();
    assert(bytes.subrange(SEED_OFFSET as int, SECRET_OFFSET as int) =~= v.seed);
    assert(bytes.subrange(SECRET_OFFSET as int, PUBLIC_OFFSET as int) =~= v.secret);
    assert(bytes.subrange(PUBLIC_OFFSET as int, CODE_OFFSET as int) =~= v.public);
    assert(bytes.subrange(CODE_OFFSET as int, KEYPAIR_LEN as int) =~= v.seed);
}

/// A signer's key pair: the seed it grew from, the secret key, the public
/// key and a code, each of fixed width.
#[derive(Debug, Clone)]
pub struct KeyPairSm2 {
    seed: [u8; 32],
    secret: [u8; 32],
    public: CertificateSm2,
    code: [u8; 32],
}

impl View for KeyPairSm2 {
    type V = KeyPairSm2View;

    closed spec fn view(&self) -> KeyPairSm2View {
        KeyPairSm2View {
            seed: self.seed@,
            secret: self.secret@,
            public: self.public@,
            code: self.code@,
        }
    }
}

impl KeyPairSm2 {
    /// Every key pair has fields of the fixed widths.
    pub proof fn lemma_wf(self)
        ensures
            self@.wf(),
    {
    }

    pub fn new(seed: [u8; 32], public: CertificateSm2, secret: [u8; 32], code: [u8; 32]) -> (r:
        Self)
        ensures
            r@ == (KeyPairSm2View { seed: seed@, secret: secret@, public: public@, code: code@ }),
    {
        KeyPairSm2 { seed, secret, public, code }
    }

    pub fn get_seed(&self) -> (r: [u8; 32])
        ensures
            r@ == self@.seed,
    {
        self.seed
    }

    pub fn get_secret_key(&self) -> (r: [u8; 32])
        ensures
            r@ == self@.secret,
    {
        self.secret
    }

    pub fn get_code(&self) -> (r: [u8; 32])
        ensures
            r@ == self@.code,
    {
        self.code
    }

    /// The certificate of this key pair: its public key.
    pub fn get_certificate(&self) -> (r: CertificateSm2)
        ensures
            r@ == self@.public,
    {
        self.public
    }

    /// The bytes of a buffer that hold the secret key, for the provider to judge.
    pub fn secret_field(bytes: &[u8]) -> (r: Option<&[u8]>)
        ensures
            r is Some <==> bytes@.len() == KEYPAIR_LEN,
            r matches Some(f) ==> f@ == bytes@.subrange(SECRET_OFFSET as int, PUBLIC_OFFSET as int),
    {
        if bytes.len() == KEYPAIR_LEN {
            Some(&bytes[SECRET_OFFSET..PUBLIC_OFFSET])
        } else {
            None
        }
    }

    /// The bytes of a buffer that hold the public key, for the provider to judge.
    pub fn public_field(bytes: &[u8]) -> (r: Option<&[u8]>)
        ensures
            r is Some <==> bytes@.len() == KEYPAIR_LEN,
            r matches Some(f) ==> f@ == bytes@.subrange(PUBLIC_OFFSET as int, CODE_OFFSET as int),
    {
        if bytes.len() == KEYPAIR_LEN {
            Some(&bytes[PUBLIC_OFFSET..CODE_OFFSET])
        } else {
            None
        }
    }

    /// Takes a key pair from its 129 bytes. The two flags are the provider's
    /// answers to whether the secret key and the public key decode. A buffer
    /// of any other length is refused whatever the provider said.
    pub fn from_bytes(bytes: &[u8], secret_accepted: bool, public_accepted: bool) -> (r: Result<
        Self,
        KVObjectError,
    >)
        ensures
            match r {
                Ok(k) => KeyPairSm2View::spec_from_bytes(
                    bytes@,
                    secret_accepted,
                    public_accepted,
                ) == Ok::<KeyPairSm2View, KVObjectError>(k@),
                Err(e) => KeyPairSm2View::spec_from_bytes(
                    bytes@,
                    secret_accepted,
                    public_accepted,
                ) == Err::<KeyPairSm2View, KVObjectError>(e),
            },
    {
        if bytes.len() != KEYPAIR_LEN || !secret_accepted || !public_accepted {
            return Err(KVObjectError::DeSerializeError);
        }
        let seed = array_of::<32>(&bytes[SEED_OFFSET..SECRET_OFFSET]);
        let secret = array_of::<32>(&bytes[SECRET_OFFSET..PUBLIC_OFFSET]);
        let public = CertificateSm2 { bytes: array_of::<33>(&bytes[PUBLIC_OFFSET..CODE_OFFSET]) };
        let code = array_of::<32>(&bytes[CODE_OFFSET..KEYPAIR_LEN]);
        Ok(KeyPairSm2 { seed, secret, public, code })
    }

    /// The 129 bytes of the key pair. The last 32 bytes repeat the seed: the
    /// code is not written.
    pub fn to_bytes(&self) -> (r: Vec<u8>)
        ensures
            r@ == self@.spec_to_bytes(),
            r@.len() == KEYPAIR_LEN,
    {
        let mut r: Vec<u8> = Vec::new();
        r.extend_from_slice(&self.seed);
        r.extend_from_slice(&self.secret);
        r.extend_from_slice(&self.public.bytes);
        r.extend_from_slice(&self.seed);
        assert(r@ =~= self@.spec_to_bytes());
        r
    }

    /// The key pair as text: the upper-case hexadecimal of its 129 bytes.
    pub fn to_hex(&self) -> (r: String)
        ensures
            r@ == crate::text::spec_hex_upper(self@.spec_to_bytes()),
    {
        let bytes = self.to_bytes();
        crate::text::hex_encode_upper(bytes.as_slice())
    }

    /// Takes a key pair from text: hexadecimal of either case, 129 bytes of
    /// it, whose secret key and public key the provider accepts.
    pub fn from_hex(text: &str, secret_accepted: bool, public_accepted: bool) -> (r: Result<
        Self,
        KVObjectError,
    >)
        ensures
            r is Ok <==> crate::text::spec_is_hex(text@) && crate::text::spec_hex_bytes(
                text@,
            ).len() == KEYPAIR_LEN && secret_accepted && public_accepted,
            r matches Ok(k) ==> KeyPairSm2View::spec_from_bytes(
                crate::text::spec_hex_bytes(text@),
                secret_accepted,
                public_accepted,
            ) == Ok::<KeyPairSm2View, KVObjectError>(k@),
            r matches Err(e) ==> e == KVObjectError::DeSerializeError,
    {
        match crate::text::from_hex(text) {
            Ok(bytes) => Self::from_bytes(bytes.as_slice(), secret_accepted, public_accepted),
            Err(e) => Err(e),
        }
    }
}

} // verus!
