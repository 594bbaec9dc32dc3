use spacewire::agreement::KeyAgreement;
use spacewire::proto::{Packet, PROTOCOL_VERSION};
use spacewire::{Identity, Link};

#[test]
fn identity_public_key_is_fresh_and_stable() {
    let a = Identity::new().unwrap();
    let b = Identity::new().unwrap();
    // Stable across reads.
    assert_eq!(a.public_key(), a.public_key());
    // Two freshly generated identities all but surely differ.
    assert_ne!(a.public_key(), b.public_key());
}

#[test]
fn link_introduction_carries_identity_key() {
    let identity = Identity::new().unwrap();
    let key = *identity.public_key();
    let link = Link::new_with_identity(String::from("localhost:6200"), identity).unwrap();
    assert_eq!(link.relay().as_str(), "localhost:6200");
    assert_eq!(*link.identity().public_key(), key);
    let Packet::ClientIntroduction { proto_ver, pub_key } = link.introduction();
    assert_eq!(proto_ver, PROTOCOL_VERSION);
    assert_eq!(pub_key, key);
}

#[test]
fn key_agreement_is_single_use() {
    let mut material = KeyAgreement::new().unwrap();
    assert!(!material.consumed());
    let before = *material.public_key();
    let first = material.consume();
    assert!(first.is_some());
    assert!(material.consumed());
    // The derived public key survives consumption; the private key is gone.
    assert_eq!(*material.public_key(), before);
    assert!(material.consume().is_none());
}

#[test]
fn key_agreement_keys_differ() {
    let a = KeyAgreement::new().unwrap();
    let b = KeyAgreement::new().unwrap();
    assert_ne!(a.public_key(), b.public_key());
}
