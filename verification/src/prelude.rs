use crate::KVObjectError;
use vstd::prelude::*;

verus! {

/// Keyed access to the named fields of a payload, each field as raw bytes.
///
/// Which keys exist, which widths they take and which error a refusal carries
/// is the implementer's business. The spec functions name what the
/// implementer's accessors do, so that whoever delegates to them can say so
/// exactly.
pub trait AttrProxy: Sized {
    type Byte: View<V = Seq<u8>>;

    /// What `get_key` answers for `key`.
    spec fn spec_get_key(&self, key: Seq<char>) -> Result<Seq<u8>, KVObjectError>;

    /// What `set_key` answers for `key` and `value`.
    spec fn spec_set_key_result(&self, key: Seq<char>, value: Seq<u8>) -> Result<
        (),
        KVObjectError,
    >;

    /// The object as `set_key` leaves it.
    spec fn spec_set_key(&self, key: Seq<char>, value: Seq<u8>) -> Self;

    fn get_key(&self, key: &str) -> (r: Result<Self::Byte, KVObjectError>)
        ensures
            match r {
                Ok(b) => self.spec_get_key(key@) == Ok::<Seq<u8>, KVObjectError>(b@),
                Err(e) => self.spec_get_key(key@) == Err::<Seq<u8>, KVObjectError>(e),
            },
    ;

    fn set_key(&mut self, key: &str, value: &Self::Byte) -> (r: Result<(), KVObjectError>)
        ensures
            r == old(self).spec_set_key_result(key@, value@),
            *final(self) == old(self).spec_set_key(key@, value@),
    ;
}

/// An object with a signed header: it can take a signature, and it can be
/// held to the one it carries.
///
/// Neither operation reaches the provider. Each is handed what the provider
/// answered and says what follows from it.
pub trait KValueObject: AttrProxy {
    type Signature;

    type KeyPair;

    type Certificate;

    /// Fills the header from the outcome of signing: `signed` holds the
    /// signature, or nothing where the provider failed.
    fn fill_kvhead(&mut self, keypair: &Self::KeyPair, signed: Option<Self::Signature>) -> Result<
        (),
        KVObjectError,
    >;

    /// Concludes a verification: `authentic` is the provider's answer to
    /// whether the signature holds for the body under the certificate.
    fn verfiy_kvhead(&self, authentic: bool) -> Result<(), KVObjectError>;
}

} // verus!
