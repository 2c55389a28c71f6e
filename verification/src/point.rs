//! A small payload to carry: a point of the plane, two unsigned 32-bit
//! coordinates, each written as four bytes with the low byte first.

use crate::kv_object::{KVBody, KVObject, KVObjectView, CERT_OFFSET, HEAD_TOTAL_LEN};
use crate::prelude::AttrProxy;
use crate::KVObjectError;
use vstd::prelude::*;
use vstd::string::StrSliceExecFns;

verus! {

/// The width of one coordinate on the wire.
pub const COORD_LEN: usize = 4;

/// The width of a point on the wire.
pub const POINT_LEN: usize = 8;

/// The four bytes of `v`, low byte first.
pub open spec fn spec_le_bytes(v: u32) -> Seq<u8> {
    seq![
        (v % 256) as u8,
        (v / 256 % 256) as u8,
        (v / 65536 % 256) as u8,
        (v / 16777216) as u8,
    ]
}

/// The number that four bytes stand for, low byte first.
pub open spec fn spec_le_value(bytes: Seq<u8>) -> u32 {
    (bytes[0] + 256 * bytes[1] + 65536 * bytes[2] + 16777216 * bytes[3]) as u32
}

/// The key of the first coordinate.
pub open spec fn spec_key_x() -> Seq<char> {
    seq!['x']
}

/// The key of the second coordinate.
pub open spec fn spec_key_y() -> Seq<char> {
    seq!['y']
}

proof fn lemma_le_split(v: u32)
    by (bit_vector)
    ensures
        v / 16777216 < 256,
        v == (v % 256) + 256 * (v / 256 % 256) + 65536 * (v / 65536 % 256) + 16777216 * (v
            / 16777216),
{
}

proof fn lemma_le_join(b0: u8, b1: u8, b2: u8, b3: u8)
    by (bit_vector)
    ensures
        b0 + 256 * b1 + 65536 * b2 + 16777216 * b3 < 0x1_0000_0000,
        (b0 + 256 * b1 + 65536 * b2 + 16777216 * b3) % 256 == b0,
        (b0 + 256 * b1 + 65536 * b2 + 16777216 * b3) / 256 % 256 == b1,
        (b0 + 256 * b1 + 65536 * b2 + 16777216 * b3) / 65536 % 256 == b2,
        (b0 + 256 * b1 + 65536 * b2 + 16777216 * b3) / 16777216 == b3,
{
}

/// Four bytes read back as the number they were written from, and a number
/// written as the four bytes it was read from.
pub proof fn lemma_le_round_trip(v: u32, bytes: Seq<u8>)
    requires
        bytes.len() == COORD_LEN,
    ensures
        spec_le_bytes(v).len() == COORD_LEN,
        spec_le_value(spec_le_bytes(v)) == v,
        spec_le_bytes(spec_le_value(bytes)) == bytes,
{
    lemma_le_split(v);
    lemma_le_join(bytes[0], bytes[1], bytes[2], bytes[3]);
    assert(spec_le_bytes(spec_le_value(bytes)) =~= bytes);
}

fn le_bytes(v: u32) -> (r: Vec<u8>)
    ensures
        r@ == spec_le_bytes(v),
{
    let mut r: Vec<u8> = Vec::new();
    r.push((v % 256) as u8);
    r.push((v / 256 % 256) as u8);
    r.push((v / 65536 % 256) as u8);
    r.push((v / 16777216) as u8);
    assert(r@ =~= spec_le_bytes(v));
    r
}

fn le_value(bytes: &[u8]) -> (r: u32)
    requires
        bytes@.len() == COORD_LEN,
    ensures
        r == spec_le_value(bytes@),
{
    let b0: u32 = bytes[0] as u32;
    let b1: u32 = bytes[1] as u32;
    let b2: u32 = bytes[2] as u32;
    let b3: u32 = bytes[3] as u32;
    b0 + 256 * b1 + 65536 * b2 + 16777216 * b3
}

fn is_key(key: &str, name: char) -> (r: bool)
    ensures
        r == (key@ == seq![name]),
{
    if key.unicode_len() == 1 {
        let c = key.get_char(0);
        assert(c == name ==> key@ =~= seq![name]);
        c == name
    } else {
        false
    }
}

/// A point of the plane.
#[derive(Debug, Clone, Copy, PartialEq, Eq, Structural)]
pub struct PlanePoint {
    pub x: u32,
    pub y: u32,
}

impl KVBody for PlanePoint {
    /// Eight bytes: `x`, then `y`.
    open spec fn spec_to_bytes(&self) -> Seq<u8> {
        spec_le_bytes(self.x) + spec_le_bytes(self.y)
    }

    /// Eight bytes are a point. Anything else is refused.
    open spec fn spec_from_bytes(bytes: Seq<u8>) -> Result<Self, KVObjectError> {
        if bytes.len() == POINT_LEN {
            Ok(
                PlanePoint {
                    x: spec_le_value(bytes.subrange(0, COORD_LEN as int)),
                    y: spec_le_value(bytes.subrange(COORD_LEN as int, POINT_LEN as int)),
                },
            )
        } else {
            Err(KVObjectError::DeSerializeError)
        }
    }

    fn to_bytes(&self) -> (r: Vec<u8>) {
        let mut r = le_bytes(self.x);
        let y = le_bytes(self.y);
        r.extend_from_slice(y.as_slice());
        assert(r@ =~= self.spec_to_bytes());
        r
    }

    fn from_bytes(bytes: &[u8]) -> (r: Result<Self, KVObjectError>) {
        if bytes.len() != POINT_LEN {
            return Err(KVObjectError::DeSerializeError);
        }
        Ok(
            PlanePoint {
                x: le_value(&bytes[0..COORD_LEN]),
                y: le_value(&bytes[COORD_LEN..POINT_LEN]),
            },
        )
    }
}

impl AttrProxy for PlanePoint {
    type Byte = Vec<u8>;

    /// `x` and `y` answer with their four bytes. No other key is known.
    open spec fn spec_get_key(&self, key: Seq<char>) -> Result<Seq<u8>, KVObjectError> {
        if key == spec_key_x() {
            Ok(spec_le_bytes(self.x))
        } else if key == spec_key_y() {
            Ok(spec_le_bytes(self.y))
        } else {
            Err(KVObjectError::KeyIndexError)
        }
    }

    /// A value must be four bytes wide, whatever the key; then the key must be known.
    open spec fn spec_set_key_result(&self, key: Seq<char>, value: Seq<u8>) -> Result<
        (),
        KVObjectError,
    > {
        if value.len() != COORD_LEN {
            Err(KVObjectError::ValueValid)
        } else if key == spec_key_x() || key == spec_key_y() {
            Ok(())
        } else {
            Err(KVObjectError::KeyIndexError)
        }
    }

    /// A write that is accepted replaces the one coordinate. A write that is
    /// refused changes nothing.
    open spec fn spec_set_key(&self, key: Seq<char>, value: Seq<u8>) -> Self {
        if value.len() != COORD_LEN {
            *self
        } else if key == spec_key_x() {
            PlanePoint { x: spec_le_value(value), y: self.y }
        } else if key == spec_key_y() {
            PlanePoint { x: self.x, y: spec_le_value(value) }
        } else {
            *self
        }
    }

    fn get_key(&self, key: &str) -> (r: Result<Vec<u8>, KVObjectError>) {
        if is_key(key, 'x') {
            Ok(le_bytes(self.x))
        } else if is_key(key, 'y') {
            Ok(le_bytes(self.y))
        } else {
            Err(KVObjectError::KeyIndexError)
        }
    }

    fn set_key(&mut self, key: &str, value: &Vec<u8>) -> (r: Result<(), KVObjectError>) {
        if value.len() != COORD_LEN {
            return Err(KVObjectError::ValueValid);
        }
        let v = le_value(value.as_slice());
        if is_key(key, 'x') {
            self.x = v;
            Ok(())
        } else if is_key(key, 'y') {
            self.y = v;
            Ok(())
        } else {
            Err(KVObjectError::KeyIndexError)
        }
    }
}

impl PlanePoint {
    /// A point's encoding is eight bytes, decodes, and decodes to that point.
    pub proof fn lemma_encoding_round_trip(self)
        ensures
            self.spec_to_bytes().len() == POINT_LEN,
            Self::spec_from_bytes(self.spec_to_bytes()) == Ok::<Self, KVObjectError>(self),
    {
        let b = self.spec_to_bytes();
        assert(b.subrange(0, COORD_LEN as int) =~= spec_le_bytes(self.x));
        assert(b.subrange(COORD_LEN as int, POINT_LEN as int) =~= spec_le_bytes(self.y));
        lemma_le_round_trip(self.x, spec_le_bytes(self.x));
        lemma_le_round_trip(self.y, spec_le_bytes(self.y));
    }

    /// Only a point's own encoding decodes to it: the decoder overlooks no byte.
    pub proof fn lemma_decoding_is_exact(bytes: Seq<u8>)
        requires
            Self::spec_from_bytes(bytes) is Ok,
        ensures
            Self::spec_from_bytes(bytes)->Ok_0.spec_to_bytes() == bytes,
    {
        let lo = bytes.subrange(0, COORD_LEN as int);
        let hi = bytes.subrange(COORD_LEN as int, POINT_LEN as int);
        lemma_le_round_trip(0, lo);
        lemma_le_round_trip(0, hi);
        assert(lo + hi =~= bytes);
    }

    /// What was written under a key is what is read under it; a write of
    /// another width is refused as a value, and a known width under an
    /// unknown key as a key; a read under an unknown key is refused as a key.
    pub proof fn lemma_set_then_get(self, key: Seq<char>, value: Seq<u8>)
        ensures
            self.spec_set_key_result(key, value) is Ok <==> value.len() == COORD_LEN && (key
                == spec_key_x() || key == spec_key_y()),
            self.spec_set_key_result(key, value) is Ok ==> self.spec_set_key(
                key,
                value,
            ).spec_get_key(key) == Ok::<Seq<u8>, KVObjectError>(value),
            self.spec_set_key_result(key, value) is Err ==> self.spec_set_key(key, value) == self,
            value.len() != COORD_LEN ==> self.spec_set_key_result(key, value) == Err::<
                (),
                KVObjectError,
            >(KVObjectError::ValueValid),
            value.len() == COORD_LEN && key != spec_key_x() && key != spec_key_y()
                ==> self.spec_set_key_result(key, value) == Err::<(), KVObjectError>(
                KVObjectError::KeyIndexError,
            ),
            key != spec_key_x() && key != spec_key_y() ==> self.spec_get_key(key) == Err::<
                Seq<u8>,
                KVObjectError,
            >(KVObjectError::KeyIndexError),
    {
        if value.len() == COORD_LEN {
            lemma_le_round_trip(0, value);
        }
        assert(spec_key_x() != spec_key_y()) by {
            assert(spec_key_x()[0] != spec_key_y()[0]);
        }
    }
}

/// An envelope around a point keeps under a key what was written under it,
/// and refuses as the point refuses.
pub proof fn lemma_envelope_set_then_get(
    object: KVObject<PlanePoint>,
    key: Seq<char>,
    value: Seq<u8>,
)
    ensures
        object.spec_set_key_result(key, value) is Ok <==> value.len() == COORD_LEN && (key
            == spec_key_x() || key == spec_key_y()),
        object.spec_set_key_result(key, value) is Ok ==> object.spec_set_key(
            key,
            value,
        ).spec_get_key(key) == Ok::<Seq<u8>, KVObjectError>(value),
        value.len() != COORD_LEN ==> object.spec_set_key_result(key, value) == Err::<
            (),
            KVObjectError,
        >(KVObjectError::ValueValid),
        value.len() == COORD_LEN && key != spec_key_x() && key != spec_key_y()
            ==> object.spec_set_key_result(key, value) == Err::<(), KVObjectError>(
            KVObjectError::KeyIndexError,
        ),
        key != spec_key_x() && key != spec_key_y() ==> object.spec_get_key(key) == Err::<
            Seq<u8>,
            KVObjectError,
        >(KVObjectError::KeyIndexError),
{
    object.lemma_attr_delegates(key, value);
    object@.body.lemma_set_then_get(key, value);
}

/// Change the bytes of a signed envelope around a point anywhere behind the
/// tag, keeping their length: if they still decode, the certificate, the
/// signature or the message that the provider is asked about has changed.
pub proof fn lemma_envelope_tamper(v: KVObjectView<PlanePoint>, tampered: Seq<u8>, i: int)
    requires
        v.wf(),
        v.is_signed(),
        tampered.len() == v.spec_to_bytes().len(),
        CERT_OFFSET <= i < tampered.len(),
        tampered[i] != v.spec_to_bytes()[i],
    ensures
        KVObjectView::<PlanePoint>::spec_from_bytes(tampered, true, true) matches Ok(w) ==> {
            ||| w.cert != v.cert
            ||| w.signature != v.signature
            ||| w.spec_signed_bytes() != v.spec_signed_bytes()
        },
{
    crate::kv_object::lemma_tamper_reaches_provider(v, tampered, i);
    if KVObjectView::<PlanePoint>::spec_from_bytes(tampered, true, true) is Ok {
        PlanePoint::lemma_decoding_is_exact(
            tampered.subrange(HEAD_TOTAL_LEN as int, tampered.len() as int),
        );
    }
}

} // verus!
