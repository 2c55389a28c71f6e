//! A tamper-evident message envelope: one tag byte, a certificate, a signature
//! over the payload, and the payload itself.
//!
//! The elliptic-curve provider is not part of this crate. Wherever the protocol
//! rests on a judgement of the provider (does this blob decode, did signing
//! succeed, does the signature hold), the judgement is passed in as a plain
//! value and the contracts say what the envelope does for each value of it.
//!
//! * To sign: take `signed_bytes`, have the provider sign them, and hand the
//!   outcome to `fill_kvhead`, or to `sign` for the bytes of the signed
//!   envelope at once.
//! * To decode: take `cert_field` and `signature_field`, have the provider
//!   judge each, and hand both answers to `from_bytes`.
//! * To verify: take `verify_request`, put its question to the provider, and
//!   hand the answer to `verfiy_kvhead`.

use vstd::prelude::*;

pub mod kv_object;
pub mod point;
pub mod prelude;
pub mod sm2;
pub mod text;

verus! {

/// Every way an envelope operation can fail.
#[derive(Debug, Clone, Copy, PartialEq, Eq, Structural)]
pub enum KVObjectError {
    /// The buffer holds no tag byte, or the tag byte names no message type.
    FindTypeError,
    SerializeError,
    /// The provider could not produce a signature.
    SerializeSignError,
    /// The buffer is not a well-framed envelope, key pair, certificate or signature.
    DeSerializeError,
    /// The header is not filled, or the signature does not hold for the body.
    KVHeadVerifyError,
    /// The payload has no attribute of that name.
    KeyIndexError,
    /// The value offered for an attribute has the wrong width.
    ValueValid,
}

} // verus!
