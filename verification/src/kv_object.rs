//! The envelope and its wire format.
//!
//! | field       | offset | length | contents                          |
//! |-------------|--------|--------|-----------------------------------|
//! | msg_type    | 0      | 1      | tag byte, one to six              |
//! | certificate | 1      | 33     | the signer's public key           |
//! | signature   | 34     | 64     | the signature over the body bytes |
//! | body        | 98     | rest   | the payload's own encoding        |
//!
//! The header is 98 bytes, and a buffer that ends with it does not decode.
//! An envelope that is not signed writes its certificate and signature
//! fields as zeros, so the offsets never move. Decoding frames the bytes and
//! decodes the body; it does not check the signature, which is a step of its
//! own. The signature covers the body bytes alone.

use crate::prelude::{AttrProxy, KValueObject};
use crate::sm2::{CertificateSm2, KeyPairSm2, SignatureSm2};
use crate::KVObjectError;
use vstd::prelude::*;

verus! {

pub const MSGTYPE_LEN: usize = 1;

pub const MSGTYPE_OFFSET: usize = 0;

pub const MSGTYPE_END: usize = MSGTYPE_OFFSET + MSGTYPE_LEN;

pub const CERT_LEN: usize = 33;

pub const CERT_OFFSET: usize = MSGTYPE_END;

pub const CERT_END: usize = CERT_OFFSET + CERT_LEN;

pub const SIGTURE_LEN: usize = 64;

pub const SIGTURE_OFFSET: usize = CERT_END;

pub const SIGTURE_END: usize = SIGTURE_OFFSET + SIGTURE_LEN;

pub const HEAD_TOTAL_LEN: usize = MSGTYPE_LEN + CERT_LEN + SIGTURE_LEN;

/// The business kind of a payload.
#[derive(Debug, Clone, Copy, PartialEq, Eq, Structural)]
pub enum MsgType {
    IssueQuotaRequest,
    QuotaControlField,
    DigitalCurrency,
    QuotaRecycleReceipt,
    ConvertQoutaRequest,
    Transaction,
}

impl MsgType {
    /// The tag byte of each message type: the table is dense, starts at one
    /// and never uses zero.
    pub open spec fn spec_tag(self) -> u8 {
        match self {
            MsgType::IssueQuotaRequest => 0x01,
            MsgType::QuotaControlField => 0x02,
            MsgType::DigitalCurrency => 0x03,
            MsgType::QuotaRecycleReceipt => 0x04,
            MsgType::ConvertQoutaRequest => 0x05,
            MsgType::Transaction => 0x06,
        }
    }

    /// The message type that a tag byte names, if any.
    pub open spec fn spec_of_tag(tag: u8) -> Option<MsgType> {
        if tag == 0x01 {
            Some(MsgType::IssueQuotaRequest)
        } else if tag == 0x02 {
            Some(MsgType::QuotaControlField)
        } else if tag == 0x03 {
            Some(MsgType::DigitalCurrency)
        } else if tag == 0x04 {
            Some(MsgType::QuotaRecycleReceipt)
        } else if tag == 0x05 {
            Some(MsgType::ConvertQoutaRequest)
        } else if tag == 0x06 {
            Some(MsgType::Transaction)
        } else {
            None
        }
    }

    /// The encoding of a message type: its tag byte and nothing else.
    pub open spec fn spec_to_bytes(self) -> Seq<u8> {
        seq![self.spec_tag()]
    }

    /// The decoding of a buffer's first byte. Bytes after the first are not looked at.
    pub open spec fn spec_from_bytes(bytes: Seq<u8>) -> Result<MsgType, KVObjectError> {
        if bytes.len() < MSGTYPE_LEN {
            Err(KVObjectError::DeSerializeError)
        } else {
            match Self::spec_of_tag(bytes[0]) {
                Some(t) => Ok(t),
                None => Err(KVObjectError::DeSerializeError),
            }
        }
    }

    /// Every message type has a tag from one to six, and the tag names it again.
    pub proof fn lemma_tag_round_trip(self)
        ensures
            1 <= self.spec_tag() <= 6,
            Self::spec_of_tag(self.spec_tag()) == Some(self),
            Self::spec_from_bytes(self.spec_to_bytes()) == Ok::<MsgType, KVObjectError>(self),
    {
    }

    /// The bytes from one to six are tags, each of one message type only.
    /// Zero is no tag, and nothing above six is.
    pub proof fn lemma_tag_table(tag: u8)
        ensures
            Self::spec_of_tag(tag) is Some <==> 1 <= tag <= 6,
            Self::spec_of_tag(tag) matches Some(t) ==> t.spec_tag() == tag,
    {
    }

    pub fn from_bytes(bytes: &[u8]) -> (r: Result<MsgType, KVObjectError>)
        ensures
            r == Self::spec_from_bytes(bytes@),
            r is Ok <==> bytes@.len() >= MSGTYPE_LEN && 1 <= bytes@[0] <= 6,
    {
        if bytes.len() < MSGTYPE_LEN {
            return Err(KVObjectError::DeSerializeError);
        }
        match bytes[0] {
            0x01 => Ok(MsgType::IssueQuotaRequest),
            0x02 => Ok(MsgType::QuotaControlField),
            0x03 => Ok(MsgType::DigitalCurrency),
            0x04 => Ok(MsgType::QuotaRecycleReceipt),
            0x05 => Ok(MsgType::ConvertQoutaRequest),
            0x06 => Ok(MsgType::Transaction),
            _ => Err(KVObjectError::DeSerializeError),
        }
    }

    pub fn to_bytes(&self) -> (r: Vec<u8>)
        ensures
            r@ == self.spec_to_bytes(),
    {
        let tag: u8 = match self {
            MsgType::IssueQuotaRequest => 0x01,
            MsgType::QuotaControlField => 0x02,
            MsgType::DigitalCurrency => 0x03,
            MsgType::QuotaRecycleReceipt => 0x04,
            MsgType::ConvertQoutaRequest => 0x05,
            MsgType::Transaction => 0x06,
        };
        let mut r: Vec<u8> = Vec::new();
        r.push(tag);
        assert(r@ =~= self.spec_to_bytes());
        r
    }
}

/// Reads the message type off the front of a buffer without decoding the rest.
pub fn get_msgtpye(data: &[u8]) -> (r: Result<MsgType, KVObjectError>)
    ensures
        r == (if data@.len() >= MSGTYPE_LEN {
            match MsgType::spec_of_tag(data@[0]) {
                Some(t) => Ok::<MsgType, KVObjectError>(t),
                None => Err::<MsgType, KVObjectError>(KVObjectError::FindTypeError),
            }
        } else {
            Err::<MsgType, KVObjectError>(KVObjectError::FindTypeError)
        }),
        r is Ok <==> data@.len() >= MSGTYPE_LEN && 1 <= data@[0] <= 6,
{
    if data.len() < MSGTYPE_LEN {
        return Err(KVObjectError::FindTypeError);
    }
    match MsgType::from_bytes(&data[MSGTYPE_OFFSET..MSGTYPE_END]) {
        Ok(t) => Ok(t),
        Err(_) => Err(KVObjectError::FindTypeError),
    }
}

/// What a payload must offer to travel in an envelope: a binary encoding, its
/// decoder, and keyed access to its fields.
pub trait KVBody: AttrProxy<Byte = Vec<u8>> + Clone + core::fmt::Debug {
    /// The payload's encoding.
    spec fn spec_to_bytes(&self) -> Seq<u8>;

    /// What the payload's decoder makes of a buffer.
    spec fn spec_from_bytes(bytes: Seq<u8>) -> Result<Self, KVObjectError>;

    fn to_bytes(&self) -> (r: Vec<u8>)
        ensures
            r@ == self.spec_to_bytes(),
    ;

    fn from_bytes(bytes: &[u8]) -> (r: Result<Self, KVObjectError>)
        ensures
            r == Self::spec_from_bytes(bytes@),
    ;
}

/// The certificate field of the header: the certificate, or zeros where there is none.
pub open spec fn spec_cert_field(cert: Option<Seq<u8>>) -> Seq<u8> {
    match cert {
        Some(c) => c,
        None => crate::sm2::spec_zeros(CERT_LEN as nat),
    }
}

/// The signature field of the header: the signature, or zeros where there is none.
pub open spec fn spec_signature_field(signature: Option<Seq<u8>>) -> Seq<u8> {
    match signature {
        Some(s) => s,
        None => crate::sm2::spec_zeros(SIGTURE_LEN as nat),
    }
}

/// An envelope as the wire format sees it.
#[verifier::ext_equal]
pub struct KVObjectView<T> {
    pub msg_type: MsgType,
    pub cert: Option<Seq<u8>>,
    pub signature: Option<Seq<u8>>,
    pub body: T,
}

impl<T: KVBody> KVObjectView<T> {
    /// Certificate and signature are there together or not at all, and each
    /// has its fixed width.
    pub open spec fn wf(self) -> bool {
        &&& self.cert is Some <==> self.signature is Some
        &&& self.cert matches Some(c) ==> c.len() == CERT_LEN
        &&& self.signature matches Some(s) ==> s.len() == SIGTURE_LEN
    }

    /// Whether the header is filled.
    pub open spec fn is_signed(self) -> bool {
        self.cert is Some && self.signature is Some
    }

    /// The bytes that a signature is made over and checked against: the
    /// encoded body, and nothing of the header.
    pub open spec fn spec_signed_bytes(self) -> Seq<u8> {
        self.body.spec_to_bytes()
    }

    /// The envelope once a signer's certificate and signature are attached.
    pub open spec fn spec_fill_kvhead(self, cert: Seq<u8>, signature: Seq<u8>) -> Self {
        KVObjectView {
            msg_type: self.msg_type,
            cert: Some(cert),
            signature: Some(signature),
            body: self.body,
        }
    }

    /// The wire format: tag, certificate, signature, body, in that order and
    /// with nothing between them. The body's length is not written.
    pub open spec fn spec_to_bytes(self) -> Seq<u8> {
        self.msg_type.spec_to_bytes() + spec_cert_field(self.cert) + spec_signature_field(
            self.signature,
        ) + self.body.spec_to_bytes()
    }

    /// What a buffer decodes to, given the provider's answers on the
    /// certificate field and on the signature field. A buffer that ends with
    /// the header, or before, is refused; so is an unknown tag and a field that
    /// the provider refused; what is left is the body decoder's to judge.
    /// Nothing here asks whether the signature holds.
    pub open spec fn spec_from_bytes(
        bytes: Seq<u8>,
        cert_accepted: bool,
        signature_accepted: bool,
    ) -> Result<Self, KVObjectError> {
        if bytes.len() <= HEAD_TOTAL_LEN {
            Err(KVObjectError::DeSerializeError)
        } else if MsgType::spec_of_tag(bytes[MSGTYPE_OFFSET as int]) is None || !cert_accepted
            || !signature_accepted {
            Err(KVObjectError::DeSerializeError)
        } else {
            match T::spec_from_bytes(bytes.subrange(HEAD_TOTAL_LEN as int, bytes.len() as int)) {
                Ok(body) => Ok(
                    KVObjectView {
                        msg_type: MsgType::spec_of_tag(bytes[MSGTYPE_OFFSET as int])->0,
                        cert: Some(bytes.subrange(CERT_OFFSET as int, CERT_END as int)),
                        signature: Some(bytes.subrange(SIGTURE_OFFSET as int, SIGTURE_END as int)),
                        body,
                    },
                ),
                Err(e) => Err(e),
            }
        }
    }
}

/// A body that the envelope can carry and bring back: its encoding is not
/// empty and decodes to the same body.
pub open spec fn spec_body_round_trips<T: KVBody>(body: T) -> bool {
    &&& body.spec_to_bytes().len() > 0
    &&& T::spec_from_bytes(body.spec_to_bytes()) == Ok::<T, KVObjectError>(body)
}

/// A signed envelope comes back from its own bytes as it was, field for field,
/// where the provider accepts the two header fields and the body itself
/// comes back from its encoding.
pub proof fn lemma_round_trip<T: KVBody>(v: KVObjectView<T>)
    requires
        v.wf(),
        v.is_signed(),
        spec_body_round_trips(v.body),
    ensures
        v.spec_to_bytes().len() == HEAD_TOTAL_LEN + v.body.spec_to_bytes().len(),
        v.spec_to_bytes().len() > HEAD_TOTAL_LEN,
        KVObjectView::<T>::spec_from_bytes(v.spec_to_bytes(), true, true) == Ok::<
            KVObjectView<T>,
            KVObjectError,
        >(v),
{
    let bytes = v.spec_to_bytes();
    let body = v.body.spec_to_bytes();
    v.msg_type.lemma_tag_round_trip();
    assert(bytes[MSGTYPE_OFFSET as int] == v.msg_type.spec_tag());
    assert(bytes.subrange(CERT_OFFSET as int, CERT_END as int) =~= v.cert->0);
    assert(bytes.subrange(SIGTURE_OFFSET as int, SIGTURE_END as int) =~= v.signature->0);
    assert(bytes.subrange(HEAD_TOTAL_LEN as int, bytes.len() as int) =~= body);
    assert(KVObjectView::<T>::spec_from_bytes(bytes, true, true)->Ok_0 =~= v);
}

/// Signing and encoding, then decoding, gives back the tag and the body that
/// went in, under the signer's certificate and the signature that signing
/// produced, whatever that signature is.
pub proof fn lemma_sign_round_trip<T: KVBody>(
    v: KVObjectView<T>,
    cert: Seq<u8>,
    signature: Seq<u8>,
)
    requires
        cert.len() == CERT_LEN,
        signature.len() == SIGTURE_LEN,
        spec_body_round_trips(v.body),
    ensures
        ({
            let signed = v.spec_fill_kvhead(cert, signature);
            &&& KVObjectView::<T>::spec_from_bytes(signed.spec_to_bytes(), true, true) matches Ok(
                back,
            )
            &&& back.msg_type == v.msg_type
            &&& back.body == v.body
            &&& back.cert == Some(cert)
            &&& back.signature == Some(signature)
        }),
{
    lemma_round_trip(v.spec_fill_kvhead(cert, signature));
}

/// A changed byte is never lost in the framing. Take the bytes of a signed
/// envelope and change them at some place behind the tag, keeping their
/// length. Then either they no longer decode, or they decode to an envelope
/// for which verification puts another question to the provider: another
/// certificate where the place lies in the certificate field, another
/// signature where it lies in the signature field, and another message where
/// it lies in the body and the body's decoder overlooks no byte. Whether the
/// provider then refuses is the provider's part.
pub proof fn lemma_tamper_reaches_provider<T: KVBody>(
    v: KVObjectView<T>,
    tampered: Seq<u8>,
    i: int,
)
    requires
        v.wf(),
        v.is_signed(),
        tampered.len() == v.spec_to_bytes().len(),
        CERT_OFFSET <= i < tampered.len(),
        tampered[i] != v.spec_to_bytes()[i],
    ensures
        KVObjectView::<T>::spec_from_bytes(tampered, true, true) matches Ok(w) ==> {
            &&& CERT_OFFSET <= i < CERT_END ==> w.cert != v.cert
            &&& SIGTURE_OFFSET <= i < SIGTURE_END ==> w.signature != v.signature
            &&& HEAD_TOTAL_LEN <= i && w.spec_signed_bytes() == tampered.subrange(
                HEAD_TOTAL_LEN as int,
                tampered.len() as int,
            ) ==> w.spec_signed_bytes() != v.spec_signed_bytes()
        },
{
    let bytes = v.spec_to_bytes();
    if let Ok(w) = KVObjectView::<T>::spec_from_bytes(tampered, true, true) {
        if CERT_OFFSET <= i < CERT_END {
            assert(w.cert->0[i - CERT_OFFSET] == tampered[i]);
            assert(v.cert->0[i - CERT_OFFSET] == bytes[i]);
        } else if i < SIGTURE_END {
            assert(w.signature->0[i - SIGTURE_OFFSET] == tampered[i]);
            assert(v.signature->0[i - SIGTURE_OFFSET] == bytes[i]);
        } else if w.spec_signed_bytes() == tampered.subrange(
            HEAD_TOTAL_LEN as int,
            tampered.len() as int,
        ) {
            assert(w.spec_signed_bytes()[i - HEAD_TOTAL_LEN] == tampered[i]);
            assert(v.spec_signed_bytes()[i - HEAD_TOTAL_LEN] == bytes[i]);
        }
    }
}

/// What the provider is asked when an envelope is verified: does `signature`
/// hold for `message` under `cert`?
#[derive(Debug, Clone)]
pub struct VerifyRequest {
    pub cert: CertificateSm2,
    pub signature: SignatureSm2,
    pub message: Vec<u8>,
}

/// The envelope: a payload under a tag, with the signer's certificate and
/// signature once it is signed.
#[derive(Debug, Clone)]
pub struct KVObject<T: KVBody> {
    msg_type: MsgType,
    cert: Option<CertificateSm2>,
    signature: Option<SignatureSm2>,
    t_obj: T,
}

impl<T: KVBody> View for KVObject<T> {
    type V = KVObjectView<T>;

    closed spec fn view(&self) -> KVObjectView<T> {
        KVObjectView {
            msg_type: self.msg_type,
            cert: match self.cert {
                Some(c) => Some(c@),
                None => None,
            },
            signature: match self.signature {
                Some(s) => Some(s@),
                None => None,
            },
            body: self.t_obj,
        }
    }
}

/// The certificate field of an encoded envelope, for the provider to judge.
pub fn cert_field(bytes: &[u8]) -> (r: Option<&[u8]>)
    ensures
        r is Some <==> bytes@.len() >= HEAD_TOTAL_LEN,
        r matches Some(f) ==> f@ == bytes@.subrange(CERT_OFFSET as int, CERT_END as int),
{
    if bytes.len() >= HEAD_TOTAL_LEN {
        Some(&bytes[CERT_OFFSET..CERT_END])
    } else {
        None
    }
}

/// The signature field of an encoded envelope, for the provider to judge.
pub fn signature_field(bytes: &[u8]) -> (r: Option<&[u8]>)
    ensures
        r is Some <==> bytes@.len() >= HEAD_TOTAL_LEN,
        r matches Some(f) ==> f@ == bytes@.subrange(SIGTURE_OFFSET as int, SIGTURE_END as int),
{
    if bytes.len() >= HEAD_TOTAL_LEN {
        Some(&bytes[SIGTURE_OFFSET..SIGTURE_END])
    } else {
        None
    }
}

impl<T: KVBody> KVObject<T> {
    /// Whatever header an envelope carries has fields of the fixed widths.
    pub proof fn lemma_widths(self)
        ensures
            self@.cert matches Some(c) ==> c.len() == CERT_LEN,
            self@.signature matches Some(s) ==> s.len() == SIGTURE_LEN,
    {
        if let Some(c) = self.cert {
            c.lemma_width();
        }
        if let Some(s) = self.signature {
            s.lemma_width();
        }
    }

    /// The envelope answers for a key as its body does, and a write through
    /// the envelope is a write to the body: what the body then answers under
    /// that key, the envelope answers.
    pub proof fn lemma_attr_delegates(self, key: Seq<char>, value: Seq<u8>)
        ensures
            self.spec_get_key(key) == self@.body.spec_get_key(key),
            self.spec_set_key_result(key, value) == self@.body.spec_set_key_result(key, value),
            self.spec_set_key(key, value)@ == (KVObjectView {
                msg_type: self@.msg_type,
                cert: self@.cert,
                signature: self@.signature,
                body: self@.body.spec_set_key(key, value),
            }),
            self.spec_set_key(key, value).spec_get_key(key) == self@.body.spec_set_key(
                key,
                value,
            ).spec_get_key(key),
    {
    }

    /// An unsigned envelope around `t_obj`.
    pub fn new(msg_type: MsgType, t_obj: T) -> (r: Self)
        ensures
            r@ == (KVObjectView { msg_type, cert: None, signature: None, body: t_obj }),
            r@.wf(),
    {
        Self { msg_type, cert: None, signature: None, t_obj }
    }

    /// An envelope from its four parts. A certificate without a signature, or
    /// a signature without a certificate, is no envelope.
    pub fn from_parts(
        msg_type: MsgType,
        cert: Option<CertificateSm2>,
        signature: Option<SignatureSm2>,
        t_obj: T,
    ) -> (r: Result<Self, KVObjectError>)
        ensures
            r is Ok <==> (cert is Some <==> signature is Some),
            r matches Ok(o) ==> {
                &&& o@.wf()
                &&& o@.msg_type == msg_type
                &&& o@.body == t_obj
                &&& o@.cert == match cert {
                    Some(c) => Some(c@),
                    None => None::<Seq<u8>>,
                }
                &&& o@.signature == match signature {
                    Some(s) => Some(s@),
                    None => None::<Seq<u8>>,
                }
            },
            r matches Err(e) ==> e == KVObjectError::DeSerializeError,
    {
        if cert.is_some() != signature.is_some() {
            return Err(KVObjectError::DeSerializeError);
        }
        let o = Self { msg_type, cert, signature, t_obj };
        proof {
            o.lemma_widths();
        }
        Ok(o)
    }

    pub fn get_msg_type(&self) -> (r: MsgType)
        ensures
            r == self@.msg_type,
    {
        self.msg_type
    }

    pub fn get_body(&self) -> (r: &T)
        ensures
            *r == self@.body,
    {
        &self.t_obj
    }

    pub fn get_cert(&self) -> (r: &Option<CertificateSm2>)
        ensures
            match *r {
                Some(c) => self@.cert == Some(c@),
                None => self@.cert is None,
            },
    {
        &self.cert
    }

    pub fn get_signature(&self) -> (r: &Option<SignatureSm2>)
        ensures
            match *r {
                Some(s) => self@.signature == Some(s@),
                None => self@.signature is None,
            },
    {
        &self.signature
    }

    /// Decodes an envelope. The two flags are the provider's answers to
    /// whether the certificate field and the signature field decode. The
    /// signature is not checked against the body here: that is `verfiy_kvhead`.
    pub fn from_bytes(bytes: &[u8], cert_accepted: bool, signature_accepted: bool) -> (r: Result<
        Self,
        KVObjectError,
    >)
        ensures
            match r {
                Ok(o) => KVObjectView::<T>::spec_from_bytes(
                    bytes@,
                    cert_accepted,
                    signature_accepted,
                ) == Ok::<KVObjectView<T>, KVObjectError>(o@),
                Err(e) => KVObjectView::<T>::spec_from_bytes(
                    bytes@,
                    cert_accepted,
                    signature_accepted,
                ) == Err::<KVObjectView<T>, KVObjectError>(e),
            },
            r matches Ok(o) ==> o@.wf() && o@.is_signed(),
            bytes@.len() <= HEAD_TOTAL_LEN ==> r == Err::<Self, KVObjectError>(
                KVObjectError::DeSerializeError,
            ),
    {
        if bytes.len() < HEAD_TOTAL_LEN {
            return Err(KVObjectError::DeSerializeError);
        }
        let msg_type = match MsgType::from_bytes(&bytes[MSGTYPE_OFFSET..MSGTYPE_END]) {
            Ok(t) => t,
            Err(_) => {
                return Err(KVObjectError::DeSerializeError);
            },
        };
        let cert = match CertificateSm2::from_bytes(&bytes[CERT_OFFSET..CERT_END], cert_accepted) {
            Ok(c) => c,
            Err(_) => {
                return Err(KVObjectError::DeSerializeError);
            },
        };
        let signature = match SignatureSm2::from_bytes(
            &bytes[SIGTURE_OFFSET..SIGTURE_END],
            signature_accepted,
        ) {
            Ok(s) => s,
            Err(_) => {
                return Err(KVObjectError::DeSerializeError);
            },
        };
        if bytes.len() == HEAD_TOTAL_LEN {
            return Err(KVObjectError::DeSerializeError);
        }
        let t_obj = match T::from_bytes(&bytes[HEAD_TOTAL_LEN..bytes.len()]) {
            Ok(b) => b,
            Err(e) => {
                return Err(e);
            },
        };
        let o = Self { msg_type, cert: Some(cert), signature: Some(signature), t_obj };
        assert(o@ =~= KVObjectView::<T>::spec_from_bytes(
            bytes@,
            cert_accepted,
            signature_accepted,
        )->Ok_0);
        Ok(o)
    }

    /// Encodes the envelope. Where the header is not filled, the certificate
    /// and signature fields are written as zeros.
    pub fn to_bytes(&self) -> (r: Vec<u8>)
        ensures
            r@ == self@.spec_to_bytes(),
            r@.len() == HEAD_TOTAL_LEN + self@.body.spec_to_bytes().len(),
    {
        let mut ret: Vec<u8> = Vec::new();
        let tag = self.msg_type.to_bytes();
        ret.extend_from_slice(tag.as_slice());
        let cert = match &self.cert {
            Some(c) => c.to_bytes(),
            None => CertificateSm2::default().to_bytes(),
        };
        ret.extend_from_slice(cert.as_slice());
        let signature = match &self.signature {
            Some(s) => s.to_bytes(),
            None => SignatureSm2::default().to_bytes(),
        };
        ret.extend_from_slice(signature.as_slice());
        let body = self.t_obj.to_bytes();
        ret.extend_from_slice(body.as_slice());
        assert(ret@ =~= self@.spec_to_bytes());
        ret
    }

    /// The bytes to be signed: the encoded body.
    pub fn signed_bytes(&self) -> (r: Vec<u8>)
        ensures
            r@ == self@.spec_signed_bytes(),
    {
        self.t_obj.to_bytes()
    }

    /// Signs and encodes in one step: fills the header from the outcome of
    /// signing and returns the envelope's bytes. Where the provider failed,
    /// the envelope is left as it was.
    pub fn sign(&mut self, keypair: &KeyPairSm2, signed: Option<SignatureSm2>) -> (r: Result<
        Vec<u8>,
        KVObjectError,
    >)
        ensures
            match signed {
                Some(s) => {
                    &&& final(self)@ == old(self)@.spec_fill_kvhead(keypair@.public, s@)
                    &&& final(self)@.wf()
                    &&& r matches Ok(bytes) && bytes@ == final(self)@.spec_to_bytes()
                },
                None => {
                    &&& *final(self) == *old(self)
                    &&& r == Err::<Vec<u8>, KVObjectError>(KVObjectError::SerializeSignError)
                },
            },
            old(self)@.is_signed() ==> final(self)@.is_signed(),
    {
        match self.fill_kvhead(keypair, signed) {
            Ok(()) => Ok(self.to_bytes()),
            Err(e) => Err(e),
        }
    }

    /// The question that verification puts to the provider, or the refusal
    /// of an envelope whose header is not filled.
    pub fn verify_request(&self) -> (r: Result<VerifyRequest, KVObjectError>)
        ensures
            r is Ok <==> self@.is_signed(),
            r matches Ok(q) ==> {
                &&& self@.cert == Some(q.cert@)
                &&& self@.signature == Some(q.signature@)
                &&& q.message@ == self@.spec_signed_bytes()
            },
            r matches Err(e) ==> e == KVObjectError::KVHeadVerifyError,
    {
        match (&self.cert, &self.signature) {
            (Some(cert), Some(signature)) => Ok(
                VerifyRequest {
                    cert: *cert,
                    signature: *signature,
                    message: self.t_obj.to_bytes(),
                },
            ),
            _ => Err(KVObjectError::KVHeadVerifyError),
        }
    }
}

impl<T: KVBody> KValueObject for KVObject<T> {
    type KeyPair = KeyPairSm2;

    type Certificate = CertificateSm2;

    type Signature = SignatureSm2;

    /// With a signature, the header takes it together with the key pair's
    /// certificate. Without one, the envelope stays as it was and the call
    /// fails.
    fn fill_kvhead(&mut self, keypair: &KeyPairSm2, signed: Option<SignatureSm2>) -> (r: Result<
        (),
        KVObjectError,
    >)
        ensures
            match signed {
                Some(s) => {
                    &&& r is Ok
                    &&& final(self)@ == old(self)@.spec_fill_kvhead(keypair@.public, s@)
                    &&& final(self)@.wf()
                },
                None => {
                    &&& r == Err::<(), KVObjectError>(KVObjectError::SerializeSignError)
                    &&& *final(self) == *old(self)
                },
            },
            old(self)@.is_signed() ==> final(self)@.is_signed(),
    {
        match signed {
            Some(signature) => {
                let cert = keypair.get_certificate();
                self.signature = Some(signature);
                self.cert = Some(cert);
                proof {
                    signature.lemma_width();
                    cert.lemma_width();
                }
                Ok(())
            },
            None => Err(KVObjectError::SerializeSignError),
        }
    }

    /// An envelope is authentic where its header is filled and the provider
    /// found the signature to hold. Every other case is the same failure.
    fn verfiy_kvhead(&self, authentic: bool) -> (r: Result<(), KVObjectError>)
        ensures
            r is Ok <==> self@.is_signed() && authentic,
            r matches Err(e) ==> e == KVObjectError::KVHeadVerifyError,
    {
        if self.cert.is_none() || self.signature.is_none() {
            return Err(KVObjectError::KVHeadVerifyError);
        }
        if !authentic {
            return Err(KVObjectError::KVHeadVerifyError);
        }
        Ok(())
    }
}

impl<T: KVBody> AttrProxy for KVObject<T> {
    type Byte = Vec<u8>;

    /// The body's answer, unchanged.
    open spec fn spec_get_key(&self, key: Seq<char>) -> Result<Seq<u8>, KVObjectError> {
        self@.body.spec_get_key(key)
    }

    /// The body's answer, unchanged.
    open spec fn spec_set_key_result(&self, key: Seq<char>, value: Seq<u8>) -> Result<
        (),
        KVObjectError,
    > {
        self@.body.spec_set_key_result(key, value)
    }

    /// The same envelope around the body as its own `set_key` leaves it.
    closed spec fn spec_set_key(&self, key: Seq<char>, value: Seq<u8>) -> Self {
        KVObject {
            msg_type: self.msg_type,
            cert: self.cert,
            signature: self.signature,
            t_obj: self.t_obj.spec_set_key(key, value),
        }
    }

    fn get_key(&self, key: &str) -> (r: Result<Vec<u8>, KVObjectError>) {
        self.t_obj.get_key(key)
    }

    /// Writes through to the body. The header is not touched: a signature
    /// that held for the old body is still there and no longer holds.
    fn set_key(&mut self, key: &str, value: &Vec<u8>) -> (r: Result<(), KVObjectError>)
        ensures
            final(self)@ == (KVObjectView {
                msg_type: old(self)@.msg_type,
                cert: old(self)@.cert,
                signature: old(self)@.signature,
                body: old(self)@.body.spec_set_key(key@, value@),
            }),
            final(self)@.wf() == old(self)@.wf(),
            final(self)@.is_signed() == old(self)@.is_signed(),
    {
        self.t_obj.set_key(key, value)
    }
}

} // verus!
