use nodara::sdk::{verify, KeyPair, NodaraSdk, PublicKey, SdkError, Transaction};
use parity_scale_codec::{Decode, Encode};

#[test]
fn dummy_sdk_functionality() {
    let mut sdk = NodaraSdk::new();
    assert!(sdk.connect().is_ok());
    let tx = Transaction::new(1, 2, 1000, vec![1, 2, 3]);
    assert!(sdk.submit_transaction(tx).is_ok());
    let balance = sdk.query_balance(1);
    assert!(balance.is_ok());
    assert_eq!(balance.unwrap(), 1_000_000);

    let message = b"Test message";
    let keypair = KeyPair::generate();
    let signature = keypair.sign(message);
    assert!(verify(message, &signature, &keypair.public));

    let encoded = "Hello Nodara".to_string().encode();
    let decoded: String = String::decode(&mut &encoded[..]).unwrap();
    assert_eq!(decoded, "Hello Nodara".to_string());
}

#[test]
fn calls_before_connecting_fail() {
    let sdk = NodaraSdk::new();
    let tx = Transaction::new(1, 2, 3, vec![]);
    assert_eq!(sdk.submit_transaction(tx), Err(SdkError::ConnectionFailed));
    assert_eq!(sdk.query_balance(1), Err(SdkError::ConnectionFailed));
    assert!(!SdkError::ConnectionFailed.message().is_empty());
}

#[test]
fn signatures_are_checked() {
    let kp = KeyPair::generate();
    assert_eq!(kp.public, PublicKey([1u8; 32]));
    let sig = kp.sign(b"abc");
    assert_eq!(sig, vec![b'a', b'b', b'c', 0xAA]);
    assert!(!verify(b"abd", &sig, &kp.public));
    assert!(!verify(b"abc", &sig[..3], &kp.public));
    assert!(!verify(b"abc", &[b'a', b'b', b'c', 0xAB], &kp.public));
    assert!(verify(b"", &[0xAA], &kp.public));
    assert!(!verify(b"", &[], &kp.public));
}
