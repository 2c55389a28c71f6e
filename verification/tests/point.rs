use kv_object::kv_object::KVBody;
use kv_object::point::PlanePoint;
use kv_object::prelude::AttrProxy;
use kv_object::KVObjectError;

#[test]
fn point_is_eight_bytes_low_byte_first() {
    let p = PlanePoint { x: 3, y: 5 };
    assert_eq!(p.to_bytes(), vec![3, 0, 0, 0, 5, 0, 0, 0]);
    let p = PlanePoint { x: 0x1234_5678, y: 0xffff_ffff };
    assert_eq!(p.to_bytes(), vec![0x78, 0x56, 0x34, 0x12, 0xff, 0xff, 0xff, 0xff]);
    assert_eq!(
        PlanePoint::from_bytes(&[0x78, 0x56, 0x34, 0x12, 0xff, 0xff, 0xff, 0xff]),
        Ok(PlanePoint { x: 0x1234_5678, y: 0xffff_ffff })
    );
}

#[test]
fn point_of_another_length_is_refused() {
    for len in [0usize, 4, 7, 9, 16] {
        assert_eq!(
            PlanePoint::from_bytes(&vec![1u8; len]),
            Err(KVObjectError::DeSerializeError)
        );
    }
}

#[test]
fn point_round_trips() {
    for (x, y) in [(0u32, 0u32), (1, 256), (65536, 16777216), (u32::MAX, 0x8000_0000)] {
        let p = PlanePoint { x, y };
        assert_eq!(PlanePoint::from_bytes(&p.to_bytes()), Ok(p));
        assert_eq!(p.to_bytes()[0..4], x.to_le_bytes());
        assert_eq!(p.to_bytes()[4..8], y.to_le_bytes());
    }
}

#[test]
fn point_keys() {
    let mut p = PlanePoint { x: 3, y: 5 };
    assert_eq!(p.get_key("x"), Ok(vec![3, 0, 0, 0]));
    assert_eq!(p.get_key("y"), Ok(vec![5, 0, 0, 0]));
    assert_eq!(p.get_key(""), Err(KVObjectError::KeyIndexError));
    assert_eq!(p.get_key("xy"), Err(KVObjectError::KeyIndexError));
    assert_eq!(p.get_key("X"), Err(KVObjectError::KeyIndexError));
    assert_eq!(p.set_key("x", &vec![7, 0, 0, 0]), Ok(()));
    assert_eq!(p.set_key("y", &vec![0, 1, 0, 0]), Ok(()));
    assert_eq!(p, PlanePoint { x: 7, y: 256 });
    assert_eq!(p.get_key("x"), Ok(vec![7, 0, 0, 0]));
    assert_eq!(p.get_key("y"), Ok(vec![0, 1, 0, 0]));
}

#[test]
fn point_refuses_by_width_then_by_key() {
    let mut p = PlanePoint { x: 3, y: 5 };
    assert_eq!(p.set_key("x", &vec![]), Err(KVObjectError::ValueValid));
    assert_eq!(p.set_key("x", &vec![1, 2, 3, 4, 5]), Err(KVObjectError::ValueValid));
    assert_eq!(p.set_key("nope", &vec![1, 2, 3]), Err(KVObjectError::ValueValid));
    assert_eq!(p.set_key("nope", &vec![1, 2, 3, 4]), Err(KVObjectError::KeyIndexError));
    assert_eq!(p, PlanePoint { x: 3, y: 5 });
}
