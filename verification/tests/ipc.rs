use robohome::data::Flip;
use robohome::error::Error;
use robohome::ipc::{change_notice, decode_flip, encode_batch, encode_flip, RECORD_LEN};

#[test]
fn a_flip_is_twelve_bytes_low_byte_first() {
    let bytes = encode_flip(&Flip { hour: 7, minute: 0, code: 101 }).unwrap();
    assert_eq!(bytes, vec![7, 0, 0, 0, 0, 0, 0, 0, 101, 0, 0, 0]);
    assert_eq!(bytes.len(), RECORD_LEN);
    let bytes = encode_flip(&Flip { hour: 23, minute: 59, code: 0x01020304 }).unwrap();
    assert_eq!(bytes, vec![23, 0, 0, 0, 59, 0, 0, 0, 4, 3, 2, 1]);
}

#[test]
fn negative_numbers_are_in_twos_complement() {
    let bytes = encode_flip(&Flip { hour: -1, minute: -2, code: i32::MIN }).unwrap();
    assert_eq!(bytes, vec![255, 255, 255, 255, 254, 255, 255, 255, 0, 0, 0, 128]);
}

#[test]
fn what_is_published_is_what_arrives() {
    for flip in [
        Flip { hour: 0, minute: 0, code: 0 },
        Flip { hour: 7, minute: 0, code: 101 },
        Flip { hour: 23, minute: 59, code: i32::MAX },
        Flip { hour: -5, minute: 600, code: i32::MIN },
    ] {
        let bytes = encode_flip(&flip).unwrap();
        assert_eq!(decode_flip(&bytes), Ok(flip));
    }
}

#[test]
fn bytes_after_the_record_are_ignored() {
    let mut bytes = encode_flip(&Flip { hour: 1, minute: 2, code: 3 }).unwrap();
    bytes.extend_from_slice(&[9, 9, 9]);
    assert_eq!(decode_flip(&bytes), Ok(Flip { hour: 1, minute: 2, code: 3 }));
}

#[test]
fn a_short_payload_is_refused() {
    assert!(matches!(decode_flip(&[]), Err(Error::Bin(_))));
    assert!(matches!(decode_flip(&[1, 0, 0, 0, 2, 0, 0, 0, 3, 0, 0]), Err(Error::Bin(_))));
}

#[test]
fn an_announcement_has_no_payload() {
    assert_eq!(change_notice(), Vec::<u8>::new());
}

#[test]
fn a_batch_is_one_payload_for_each_flip_in_order() {
    let batch = vec![
        Flip { hour: 8, minute: 0, code: 2 },
        Flip { hour: 8, minute: 0, code: 1 },
        Flip { hour: 7, minute: 59, code: -3 },
    ];
    let payloads = encode_batch(&batch);
    assert_eq!(payloads.len(), 3);
    for (payload, flip) in payloads.iter().zip(&batch) {
        assert_eq!(payload, &encode_flip(flip).unwrap());
        assert_eq!(decode_flip(payload), Ok(*flip));
    }
    assert_eq!(payloads[1], vec![8, 0, 0, 0, 0, 0, 0, 0, 1, 0, 0, 0]);
    assert_eq!(encode_batch(&vec![]), Vec::<Vec<u8>>::new());
}
