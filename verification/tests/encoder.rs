use jito_bundle::client::BundleError;
use jito_bundle::encoder::{decode, encode, frame, parse_frame};
use jito_bundle::ledger::{Blockhash, Keypair, Pubkey, SignedTransaction};
use jito_bundle::tool::system_transfer_instruction;

fn sample(signatures: Vec<[u8; 64]>, message: Vec<u8>) -> SignedTransaction {
    SignedTransaction { signatures, message, recent_blockhash: Blockhash::new_from_array([0; 32]) }
}

#[test]
fn frame_is_count_signatures_message() {
    let tx = sample(vec![[1u8; 64]], vec![9, 8, 7]);
    let bytes = frame(&tx);
    assert_eq!(bytes.len(), 8 + 64 + 3);
    assert_eq!(&bytes[..8], &[1, 0, 0, 0, 0, 0, 0, 0]);
    assert_eq!(&bytes[8..72], &[1u8; 64]);
    assert_eq!(&bytes[72..], &[9, 8, 7]);
}

#[test]
fn frame_of_nothing_is_the_count_alone() {
    let tx = sample(vec![], vec![]);
    assert_eq!(frame(&tx), vec![0u8; 8]);
}

#[test]
fn encode_gives_the_standard_base64_of_the_frame() {
    let tx = sample(vec![[1u8; 64]], vec![9, 8, 7]);
    assert_eq!(
        encode(&tx),
        Ok(String::from(
            "AQAAAAAAAAABAQEBAQEBAQEBAQEBAQEBAQEBAQEBAQEBAQEBAQEBAQEBAQEBAQEBAQEBAQEBAQEBAQEBAQEBAQEBAQEBAQEBCQgH"
        ))
    );
    let two = sample(vec![[1u8; 64], [2u8; 64]], vec![0xff, 0x00]);
    assert_eq!(
        encode(&two),
        Ok(String::from(
            "AgAAAAAAAAABAQEBAQEBAQEBAQEBAQEBAQEBAQEBAQEBAQEBAQEBAQEBAQEBAQEBAQEBAQEBAQEBAQEBAQEBAQEBAQEBAQEBAgICAgICAgICAgICAgICAgICAgICAgICAgICAgICAgICAgICAgICAgICAgICAgICAgICAgICAgICAgICAgICAv8A"
        ))
    );
    assert_eq!(encode(&sample(vec![], vec![])), Ok(String::from("AAAAAAAAAAA=")));
}

#[test]
fn round_trip_reproduces_signatures_and_message() {
    let mut odd = [0u8; 64];
    for (i, byte) in odd.iter_mut().enumerate() {
        *byte = (i * 3) as u8;
    }
    let cases = vec![
        sample(vec![], vec![]),
        sample(vec![], vec![1, 2, 3, 4, 5]),
        sample(vec![[1u8; 64]], vec![]),
        sample(vec![odd, [255u8; 64], [0u8; 64]], (0..=255).collect()),
    ];
    for tx in cases {
        let text = encode(&tx).unwrap();
        assert_eq!(decode(&text), Ok((tx.signatures.clone(), tx.message.clone())));
        assert_eq!(parse_frame(&frame(&tx)), Some((tx.signatures, tx.message)));
    }
}

#[test]
fn round_trip_of_a_signed_transfer() {
    let wallet = Keypair::new_from_array([7u8; 32]);
    let hash = Blockhash::new_from_array([3u8; 32]);
    let to = Pubkey::new_from_array([9u8; 32]);
    let instructions = vec![system_transfer_instruction(&wallet.pubkey(), &to, 42)];
    let tx = SignedTransaction::new(&wallet, &instructions, &hash).unwrap();
    let text = encode(&tx).unwrap();
    assert!(!text.contains('\n'));
    assert_eq!(text.len() % 4, 0);
    assert_eq!(decode(&text), Ok((tx.signatures, tx.message)));
}

#[test]
fn text_that_is_not_base64_is_a_serialization_error() {
    assert!(matches!(decode("not base64!"), Err(BundleError::SerializationError(_))));
    assert!(matches!(decode("AAAA="), Err(BundleError::SerializationError(_))));
}

#[test]
fn bytes_that_are_no_frame_are_a_serialization_error() {
    // three bytes: too short for the count
    assert!(matches!(decode("YWJj"), Err(BundleError::SerializationError(_))));
    // a count of five without any signature
    assert!(matches!(decode("BQAAAAAAAAA="), Err(BundleError::SerializationError(_))));
    assert_eq!(parse_frame(&vec![1, 2, 3]), None);
    assert_eq!(parse_frame(&vec![5, 0, 0, 0, 0, 0, 0, 0]), None);
    let mut short = vec![1u8, 0, 0, 0, 0, 0, 0, 0];
    short.extend_from_slice(&[7u8; 63]);
    assert_eq!(parse_frame(&short), None);
    let mut huge = vec![255u8; 8];
    huge.extend_from_slice(&[7u8; 64]);
    assert_eq!(parse_frame(&huge), None);
}

#[test]
fn frame_with_empty_message_is_read() {
    let mut bytes = vec![1u8, 0, 0, 0, 0, 0, 0, 0];
    bytes.extend_from_slice(&[7u8; 64]);
    assert_eq!(parse_frame(&bytes), Some((vec![[7u8; 64]], vec![])));
}
