use kv_object::kv_object::{
    cert_field, get_msgtpye, signature_field, KVBody, KVObject, MsgType, HEAD_TOTAL_LEN,
};
use kv_object::point::PlanePoint;
use kv_object::prelude::{AttrProxy, KValueObject};
use kv_object::sm2::{CertificateSm2, KeyPairSm2, SignatureSm2};
use kv_object::KVObjectError;

type NewPoint = KVObject<PlanePoint>;

fn keypair(fill: u8) -> KeyPairSm2 {
    let mut bytes = Vec::new();
    for i in 0..129u32 {
        bytes.push(fill.wrapping_add(i as u8));
    }
    KeyPairSm2::from_bytes(&bytes, true, true).unwrap()
}

fn signature(fill: u8) -> SignatureSm2 {
    let mut bytes = Vec::new();
    for i in 0..64u32 {
        bytes.push(fill.wrapping_mul(3).wrapping_add(i as u8));
    }
    SignatureSm2::from_bytes(&bytes, true).unwrap()
}

#[test]
fn test_kvwrapper() {
    let keypair_sm2: KeyPairSm2 = keypair(1);

    let mut point = NewPoint::new(MsgType::Transaction, PlanePoint { x: 3, y: 5 });

    let sign_bytes = point.sign(&keypair_sm2, Some(signature(1))).unwrap();

    println!("sigture: {:?}", sign_bytes);

    let mut point_1 = NewPoint::from_bytes(&sign_bytes, true, true).unwrap();

    println!("{:?}", point_1);

    assert_eq!(
        Vec::<u8>::from([3, 0, 0, 0].as_ref()),
        point_1.get_key("x").unwrap()
    );
    assert_eq!(
        Vec::<u8>::from([5, 0, 0, 0].as_ref()),
        point_1.get_key("y").unwrap()
    );

    point_1
        .set_key("x", &Vec::<u8>::from([7, 0, 0, 0].as_ref()))
        .unwrap();
    point_1
        .set_key("y", &Vec::<u8>::from([9, 0, 0, 0].as_ref()))
        .unwrap();

    assert_eq!(
        Vec::<u8>::from([7, 0, 0, 0].as_ref()),
        point_1.get_key("x").unwrap()
    );
    assert_eq!(
        Vec::<u8>::from([9, 0, 0, 0].as_ref()),
        point_1.get_key("y").unwrap()
    );

    let sign_point_1 = point_1.sign(&keypair_sm2, Some(signature(2))).unwrap();

    println!("{:?}", sign_point_1);

    assert_eq!(
        match get_msgtpye(&sign_point_1).unwrap() {
            MsgType::Transaction => "right type",
            _ => panic!(),
        },
        "right type"
    );

    let point_2 = NewPoint::from_bytes(&sign_point_1, true, true).unwrap();

    println!("{:?}", point_2);
    assert_eq!(
        Vec::<u8>::from([7, 0, 0, 0].as_ref()),
        point_1.get_key("x").unwrap()
    );
    assert_eq!(
        Vec::<u8>::from([9, 0, 0, 0].as_ref()),
        point_1.get_key("y").unwrap()
    );
}

#[test]
fn new_envelope_is_unsigned() {
    let e = NewPoint::new(MsgType::DigitalCurrency, PlanePoint { x: 1, y: 2 });
    assert!(e.get_cert().is_none());
    assert!(e.get_signature().is_none());
    assert_eq!(*e.get_body(), PlanePoint { x: 1, y: 2 });
}

#[test]
fn wire_layout_is_tag_cert_signature_body() {
    let kp = keypair(10);
    let sig = signature(4);
    let mut e = NewPoint::new(MsgType::Transaction, PlanePoint { x: 3, y: 5 });
    let bytes = e.sign(&kp, Some(sig)).unwrap();
    assert_eq!(bytes.len(), 106);
    assert_eq!(bytes[0], 0x06);
    assert_eq!(&bytes[1..34], &kp.get_certificate().to_bytes()[..]);
    assert_eq!(&bytes[34..98], &sig.to_bytes()[..]);
    assert_eq!(&bytes[98..], &[3, 0, 0, 0, 5, 0, 0, 0]);
    assert_eq!(bytes, e.to_bytes());
}

#[test]
fn unsigned_envelope_writes_zero_header() {
    let e = NewPoint::new(MsgType::IssueQuotaRequest, PlanePoint { x: 0x0102_0304, y: 0 });
    let bytes = e.to_bytes();
    assert_eq!(bytes.len(), HEAD_TOTAL_LEN + 8);
    assert_eq!(bytes[0], 0x01);
    assert!(bytes[1..98].iter().all(|b| *b == 0));
    assert_eq!(&bytes[98..], &[4, 3, 2, 1, 0, 0, 0, 0]);
}

#[test]
fn round_trip_keeps_every_field() {
    let kp = keypair(77);
    let sig = signature(9);
    let mut e = NewPoint::new(MsgType::QuotaRecycleReceipt, PlanePoint { x: 0xdead_beef, y: 42 });
    let bytes = e.sign(&kp, Some(sig)).unwrap();
    let back = NewPoint::from_bytes(&bytes, true, true).unwrap();
    assert_eq!(get_msgtpye(&back.to_bytes()), Ok(MsgType::QuotaRecycleReceipt));
    assert_eq!(*back.get_body(), PlanePoint { x: 0xdead_beef, y: 42 });
    assert_eq!(*back.get_cert(), Some(kp.get_certificate()));
    assert_eq!(*back.get_signature(), Some(sig));
    assert_eq!(back.to_bytes(), bytes);
}

#[test]
fn short_and_header_only_buffers_are_refused() {
    for len in [0usize, 1, 33, 97, 98] {
        let mut bytes = vec![0u8; len];
        if len > 0 {
            bytes[0] = 0x06;
        }
        assert_eq!(
            NewPoint::from_bytes(&bytes, true, true).unwrap_err(),
            KVObjectError::DeSerializeError
        );
    }
}

#[test]
fn unknown_tag_is_refused() {
    for tag in [0x00u8, 0x07, 0x80, 0xff] {
        let mut bytes = vec![0u8; 106];
        bytes[0] = tag;
        assert_eq!(get_msgtpye(&bytes), Err(KVObjectError::FindTypeError));
        assert_eq!(MsgType::from_bytes(&bytes), Err(KVObjectError::DeSerializeError));
        assert_eq!(
            NewPoint::from_bytes(&bytes, true, true).unwrap_err(),
            KVObjectError::DeSerializeError
        );
    }
}

#[test]
fn every_tag_round_trips() {
    let table = [
        (MsgType::IssueQuotaRequest, 0x01u8),
        (MsgType::QuotaControlField, 0x02),
        (MsgType::DigitalCurrency, 0x03),
        (MsgType::QuotaRecycleReceipt, 0x04),
        (MsgType::ConvertQoutaRequest, 0x05),
        (MsgType::Transaction, 0x06),
    ];
    for (t, b) in table {
        assert_eq!(t.to_bytes(), vec![b]);
        assert_eq!(MsgType::from_bytes(&[b]), Ok(t));
        assert_eq!(MsgType::from_bytes(&[b, 0xff, 0x00]), Ok(t));
        assert_eq!(get_msgtpye(&[b]), Ok(t));
    }
    assert_eq!(MsgType::from_bytes(&[]), Err(KVObjectError::DeSerializeError));
    assert_eq!(get_msgtpye(&[]), Err(KVObjectError::FindTypeError));
}

#[test]
fn provider_refusal_of_a_header_field_is_a_decode_error() {
    let kp = keypair(5);
    let mut e = NewPoint::new(MsgType::Transaction, PlanePoint { x: 3, y: 5 });
    let bytes = e.sign(&kp, Some(signature(5))).unwrap();
    assert!(NewPoint::from_bytes(&bytes, true, true).is_ok());
    for (c, s) in [(false, true), (true, false), (false, false)] {
        assert_eq!(
            NewPoint::from_bytes(&bytes, c, s).unwrap_err(),
            KVObjectError::DeSerializeError
        );
    }
}

#[test]
fn body_decoder_errors_come_through() {
    let mut bytes = vec![0u8; 98 + 7];
    bytes[0] = 0x02;
    assert_eq!(
        NewPoint::from_bytes(&bytes, true, true).unwrap_err(),
        KVObjectError::DeSerializeError
    );
    let mut bytes = vec![0u8; 98 + 9];
    bytes[0] = 0x02;
    assert_eq!(
        NewPoint::from_bytes(&bytes, true, true).unwrap_err(),
        KVObjectError::DeSerializeError
    );
    let mut bytes = vec![0u8; 98 + 8];
    bytes[0] = 0x02;
    assert!(NewPoint::from_bytes(&bytes, true, true).is_ok());
}

#[test]
fn header_fields_are_handed_out_for_judging() {
    let kp = keypair(21);
    let sig = signature(8);
    let mut e = NewPoint::new(MsgType::Transaction, PlanePoint { x: 3, y: 5 });
    let bytes = e.sign(&kp, Some(sig)).unwrap();
    assert_eq!(cert_field(&bytes).unwrap(), &kp.get_certificate().to_bytes()[..]);
    assert_eq!(signature_field(&bytes).unwrap(), &sig.to_bytes()[..]);
    assert_eq!(cert_field(&bytes[..98]).unwrap(), &bytes[1..34]);
    assert!(cert_field(&bytes[..97]).is_none());
    assert!(signature_field(&bytes[..97]).is_none());
}

#[test]
fn failed_signing_leaves_the_envelope_unsigned() {
    let kp = keypair(3);
    let mut e = NewPoint::new(MsgType::Transaction, PlanePoint { x: 3, y: 5 });
    assert_eq!(e.fill_kvhead(&kp, None), Err(KVObjectError::SerializeSignError));
    assert!(e.get_cert().is_none());
    assert!(e.get_signature().is_none());
    assert_eq!(e.sign(&kp, None), Err(KVObjectError::SerializeSignError));
    assert!(e.get_cert().is_none());
    assert!(e.get_signature().is_none());
    assert_eq!(*e.get_body(), PlanePoint { x: 3, y: 5 });
}

#[test]
fn failed_signing_keeps_an_earlier_header() {
    let kp = keypair(3);
    let other = keypair(90);
    let sig = signature(6);
    let mut e = NewPoint::new(MsgType::Transaction, PlanePoint { x: 3, y: 5 });
    e.fill_kvhead(&kp, Some(sig)).unwrap();
    assert_eq!(e.fill_kvhead(&other, None), Err(KVObjectError::SerializeSignError));
    assert_eq!(*e.get_cert(), Some(kp.get_certificate()));
    assert_eq!(*e.get_signature(), Some(sig));
}

#[test]
fn signing_fills_certificate_and_signature_together() {
    let kp = keypair(30);
    let sig = signature(7);
    let mut e = NewPoint::new(MsgType::ConvertQoutaRequest, PlanePoint { x: 8, y: 9 });
    assert_eq!(e.signed_bytes(), vec![8, 0, 0, 0, 9, 0, 0, 0]);
    assert_eq!(e.fill_kvhead(&kp, Some(sig)), Ok(()));
    assert_eq!(*e.get_cert(), Some(kp.get_certificate()));
    assert_eq!(*e.get_signature(), Some(sig));
    assert_eq!(*e.get_body(), PlanePoint { x: 8, y: 9 });
}

#[test]
fn verification_needs_a_filled_header_and_the_provider() {
    let kp = keypair(30);
    let mut e = NewPoint::new(MsgType::Transaction, PlanePoint { x: 3, y: 5 });
    assert_eq!(e.verfiy_kvhead(true), Err(KVObjectError::KVHeadVerifyError));
    assert_eq!(e.verfiy_kvhead(false), Err(KVObjectError::KVHeadVerifyError));
    assert_eq!(e.verify_request().unwrap_err(), KVObjectError::KVHeadVerifyError);
    e.fill_kvhead(&kp, Some(signature(1))).unwrap();
    assert_eq!(e.verfiy_kvhead(true), Ok(()));
    assert_eq!(e.verfiy_kvhead(false), Err(KVObjectError::KVHeadVerifyError));
}

#[test]
fn verify_request_names_certificate_signature_and_body_bytes() {
    let kp = keypair(30);
    let sig = signature(2);
    let mut e = NewPoint::new(MsgType::Transaction, PlanePoint { x: 3, y: 5 });
    e.fill_kvhead(&kp, Some(sig)).unwrap();
    let q = e.verify_request().unwrap();
    assert_eq!(q.cert, kp.get_certificate());
    assert_eq!(q.signature, sig);
    assert_eq!(q.message, vec![3, 0, 0, 0, 5, 0, 0, 0]);
    assert_eq!(q.message, e.signed_bytes());
}

#[test]
fn a_flipped_byte_changes_the_question_to_the_provider() {
    let kp = keypair(40);
    let mut e = NewPoint::new(MsgType::Transaction, PlanePoint { x: 3, y: 5 });
    let bytes = e.sign(&kp, Some(signature(3))).unwrap();
    let q = e.verify_request().unwrap();
    for i in 1..bytes.len() {
        let mut bad = bytes.clone();
        bad[i] ^= 0x01;
        let back = NewPoint::from_bytes(&bad, true, true).unwrap();
        let p = back.verify_request().unwrap();
        if i < 34 {
            assert_ne!(p.cert, q.cert);
        } else if i < 98 {
            assert_ne!(p.signature, q.signature);
        } else {
            assert_ne!(p.message, q.message);
        }
    }
}

#[test]
fn attributes_go_through_to_the_body() {
    let mut e = NewPoint::new(MsgType::Transaction, PlanePoint { x: 3, y: 5 });
    assert_eq!(e.get_key("x"), Ok(vec![3, 0, 0, 0]));
    assert_eq!(e.get_key("y"), Ok(vec![5, 0, 0, 0]));
    assert_eq!(e.set_key("x", &vec![1, 2, 3, 4]), Ok(()));
    assert_eq!(e.get_key("x"), Ok(vec![1, 2, 3, 4]));
    assert_eq!(e.get_body().x, 0x0403_0201);
    assert_eq!(e.get_key("z"), Err(KVObjectError::KeyIndexError));
    assert_eq!(e.set_key("z", &vec![1, 2, 3, 4]), Err(KVObjectError::KeyIndexError));
    assert_eq!(e.set_key("x", &vec![1, 2, 3]), Err(KVObjectError::ValueValid));
    assert_eq!(e.set_key("z", &vec![1, 2, 3, 4, 5]), Err(KVObjectError::ValueValid));
    assert_eq!(*e.get_body(), PlanePoint { x: 0x0403_0201, y: 5 });
}

#[test]
fn a_write_leaves_the_header_alone() {
    let kp = keypair(12);
    let sig = signature(12);
    let mut e = NewPoint::new(MsgType::Transaction, PlanePoint { x: 3, y: 5 });
    e.fill_kvhead(&kp, Some(sig)).unwrap();
    e.set_key("y", &vec![9, 0, 0, 0]).unwrap();
    assert_eq!(*e.get_cert(), Some(kp.get_certificate()));
    assert_eq!(*e.get_signature(), Some(sig));
    assert_eq!(*e.get_body(), PlanePoint { x: 3, y: 9 });
}

#[test]
fn example_scenario() {
    let kp = keypair(1);
    let first = signature(1);
    let second = signature(2);
    let mut e = NewPoint::new(MsgType::Transaction, PlanePoint { x: 3, y: 5 });
    let bytes = e.sign(&kp, Some(first)).unwrap();
    assert_eq!(bytes.len(), 98 + 8);
    assert_eq!(bytes.len(), 106);
    let mut back = NewPoint::from_bytes(&bytes, true, true).unwrap();
    assert_eq!(*back.get_body(), PlanePoint { x: 3, y: 5 });
    let old_request = back.verify_request().unwrap();

    back.set_key("x", &vec![7, 0, 0, 0]).unwrap();
    let bytes_2 = back.sign(&kp, Some(second)).unwrap();
    assert_eq!(bytes_2.len(), 106);
    let back_2 = NewPoint::from_bytes(&bytes_2, true, true).unwrap();
    assert_eq!(back_2.get_body().x, 7);
    assert_eq!(back_2.get_body().y, 5);
    let new_request = back_2.verify_request().unwrap();
    assert_eq!(new_request.signature, second);
    assert_eq!(new_request.message, vec![7, 0, 0, 0, 5, 0, 0, 0]);
    assert_ne!(new_request.message, old_request.message);
    assert_eq!(back_2.verfiy_kvhead(true), Ok(()));
    assert_eq!(back_2.verfiy_kvhead(false), Err(KVObjectError::KVHeadVerifyError));
}

#[test]
fn certificate_in_envelope_is_the_signers() {
    let kp = keypair(200);
    let mut e = NewPoint::new(MsgType::Transaction, PlanePoint { x: 3, y: 5 });
    let bytes = e.sign(&kp, Some(signature(0))).unwrap();
    let cert = CertificateSm2::from_bytes(&bytes[1..34], true).unwrap();
    assert_eq!(cert, kp.get_certificate());
    assert_eq!(PlanePoint::from_bytes(&bytes[98..]), Ok(PlanePoint { x: 3, y: 5 }));
}

#[test]
fn envelope_from_parts_needs_both_or_neither() {
    let cert = keypair(4).get_certificate();
    let sig = signature(4);
    let body = PlanePoint { x: 1, y: 2 };
    let e = NewPoint::from_parts(MsgType::DigitalCurrency, Some(cert), Some(sig), body).unwrap();
    assert_eq!(e.get_msg_type(), MsgType::DigitalCurrency);
    assert_eq!(*e.get_cert(), Some(cert));
    assert_eq!(*e.get_signature(), Some(sig));
    assert_eq!(*e.get_body(), body);
    let e = NewPoint::from_parts(MsgType::QuotaControlField, None, None, body).unwrap();
    assert_eq!(e.get_msg_type(), MsgType::QuotaControlField);
    assert!(e.get_cert().is_none() && e.get_signature().is_none());
    assert_eq!(
        NewPoint::from_parts(MsgType::Transaction, Some(cert), None, body).unwrap_err(),
        KVObjectError::DeSerializeError
    );
    assert_eq!(
        NewPoint::from_parts(MsgType::Transaction, None, Some(sig), body).unwrap_err(),
        KVObjectError::DeSerializeError
    );
}
