use bitcoin::secp256k1::Secp256k1;
use lightning::sign::KeysManager;
use sha2::Digest;
use sha2::Sha256;
use std::sync::Arc;
use virtual_nodes::crypto::u64_to_be_bytes;
use virtual_nodes::hsm::derive_scalar;
use virtual_nodes::hsm::HsmService;
use virtual_nodes::hsm::SecretKey;
use virtual_nodes::hsm::CHANNEL_TAG;
use virtual_nodes::hsm::NODE_TAG;
use virtual_nodes::hsm_provider::CloudHsmProvider;
use virtual_nodes::hsm_provider::HardwareHsmProvider;
use virtual_nodes::hsm_provider::HsmBackend;
use virtual_nodes::hsm_provider::HsmError;
use virtual_nodes::hsm_provider::HsmProvider;
use virtual_nodes::hsm_provider::LocalHsmProvider;
use virtual_nodes::types::to_hex;
use virtual_nodes::types::PublicKey;

fn expected_node_id(master: &[u8; 32], user_id: &str) -> [u8; 33] {
    let mut hasher = Sha256::new();
    hasher.update(master);
    hasher.update(b"virtual_node_");
    hasher.update(user_id.as_bytes());
    let digest = hasher.finalize();
    let secret = bitcoin::secp256k1::SecretKey::from_slice(&digest[..32]).unwrap();
    bitcoin::secp256k1::PublicKey::from_secret_key(&Secp256k1::new(), &secret).serialize()
}

#[test]
fn test_virtual_node_key_derivation() {
    let keys_manager = Arc::new(KeysManager::new(&[1u8; 32], 42, 42));

    let hsm_provider = Arc::new(LocalHsmProvider::new(keys_manager));

    let user1_node_id = hsm_provider.derive_virtual_node_id("user1").unwrap();
    let user2_node_id = hsm_provider.derive_virtual_node_id("user2").unwrap();
    let user1_node_id_again = hsm_provider.derive_virtual_node_id("user1").unwrap();

    assert_eq!(user1_node_id, user1_node_id_again);
    assert_ne!(user1_node_id, user2_node_id);

    println!("Virtual node key derivation works correctly");
}

#[test]
fn test_virtual_node_id_consistency() {
    let keys_manager = Arc::new(KeysManager::new(&[42u8; 32], 123, 456));

    let hsm1 = Arc::new(LocalHsmProvider::new(keys_manager.clone()));
    let hsm2 = Arc::new(LocalHsmProvider::new(keys_manager.clone()));

    let user_id = "consistency_test_user";
    let node_id1 = hsm1.derive_virtual_node_id(user_id).unwrap();
    let node_id2 = hsm2.derive_virtual_node_id(user_id).unwrap();

    assert_eq!(node_id1, node_id2);

    let different_keys = Arc::new(KeysManager::new(&[99u8; 32], 123, 456));
    let hsm3 = Arc::new(LocalHsmProvider::new(different_keys));
    let node_id3 = hsm3.derive_virtual_node_id(user_id).unwrap();

    assert_ne!(node_id1, node_id3);

    println!("Virtual node ID consistency verified");
}

#[test]
fn service_over_key_manager_uses_its_node_secret() {
    let keys_manager = Arc::new(KeysManager::new(&[7u8; 32], 1, 2));
    let master = keys_manager.get_node_secret_key().secret_bytes();
    let service = HsmService::new(keys_manager);
    let id = service.derive_virtual_node_id("alice").unwrap();
    assert_eq!(id.0, expected_node_id(&master, "alice"));
}

#[test]
fn derivation_is_deterministic() {
    let service = HsmService::from_master_secret([5u8; 32]);
    let first = service.derive_virtual_node_id("alice").unwrap();
    let second = service.derive_virtual_node_id("alice").unwrap();
    assert_eq!(first, second);
    let other_service = HsmService::from_master_secret([5u8; 32]);
    assert_eq!(other_service.derive_virtual_node_id("alice").unwrap(), first);
}

#[test]
fn derivation_matches_the_formula() {
    let master = [5u8; 32];
    let service = HsmService::from_master_secret(master);
    let id = service.derive_virtual_node_id("alice").unwrap();
    assert_eq!(id.0, expected_node_id(&master, "alice"));
    assert_eq!(id.0.len(), 33);
    assert!(id.0[0] == 2 || id.0[0] == 3);
    let empty = service.derive_virtual_node_id("").unwrap();
    assert_eq!(empty.0, expected_node_id(&master, ""));
}

#[test]
fn thousand_tenants_have_thousand_identities() {
    let service = HsmService::from_master_secret([9u8; 32]);
    let mut seen: std::collections::HashSet<[u8; 33]> = std::collections::HashSet::new();
    for i in 0..1000 {
        let user_id = format!("tenant-{}", i);
        let id = service.derive_virtual_node_id(&user_id).unwrap();
        assert!(seen.insert(id.0));
    }
    assert_eq!(seen.len(), 1000);
}

#[test]
fn different_master_secrets_give_different_identities() {
    let zero = HsmService::from_master_secret([0u8; 32]);
    let one = HsmService::from_master_secret([1u8; 32]);
    let a = zero.derive_virtual_node_id("alice").unwrap();
    let b = one.derive_virtual_node_id("alice").unwrap();
    assert_ne!(a, b);
}

#[test]
fn keys_manager_agrees_with_identity() {
    let service = HsmService::from_master_secret([3u8; 32]);
    let keys = service.get_virtual_keys_manager("bob").unwrap();
    assert_eq!(keys.get_user_id(), "bob");
    assert_eq!(keys.get_virtual_node_id(), service.derive_virtual_node_id("bob").unwrap());
    let secret = keys.get_virtual_node_secret().secret_bytes();
    let mut hasher = Sha256::new();
    hasher.update([3u8; 32]);
    hasher.update(b"virtual_node_");
    hasher.update(b"bob");
    let digest: [u8; 32] = hasher.finalize().into();
    assert_eq!(secret, digest);
}

#[test]
fn channel_keys_match_the_formula() {
    let service = HsmService::from_master_secret([3u8; 32]);
    let keys = service.get_virtual_keys_manager("bob").unwrap();
    let params = [8u8; 32];
    let derived = keys.derive_channel_keys(123_456_789, &params).unwrap();
    let mut hasher = Sha256::new();
    hasher.update(keys.get_virtual_node_secret().secret_bytes());
    hasher.update(b"channel_");
    hasher.update(123_456_789u64.to_be_bytes());
    hasher.update(params);
    let digest: [u8; 32] = hasher.finalize().into();
    assert_eq!(derived.secret_bytes(), digest);
    let again = keys.derive_channel_keys(123_456_789, &params).unwrap();
    assert_eq!(again.secret_bytes(), digest);
    let other = keys.derive_channel_keys(123_456_790, &params).unwrap();
    assert_ne!(other.secret_bytes(), digest);
}

#[test]
fn tags_are_the_ascii_of_their_names() {
    assert_eq!(&NODE_TAG[..], b"virtual_node_");
    assert_eq!(&CHANNEL_TAG[..], b"channel_");
}

#[test]
fn derive_scalar_hashes_secret_tag_payload() {
    let key = derive_scalar(&[1, 2, 3], &[4, 5], &[6]).unwrap();
    let digest: [u8; 32] = Sha256::digest([1u8, 2, 3, 4, 5, 6]).into();
    assert_eq!(key.secret_bytes(), digest);
    assert_ne!(key.secret_bytes()[..3], [1u8, 2, 3]);
}

#[test]
fn secret_key_accepts_only_usable_scalars() {
    assert!(SecretKey::from_bytes([0u8; 32]).is_none());
    assert!(SecretKey::from_bytes([0xffu8; 32]).is_none());
    let order: [u8; 32] = [
        0xff, 0xff, 0xff, 0xff, 0xff, 0xff, 0xff, 0xff, 0xff, 0xff, 0xff, 0xff, 0xff, 0xff, 0xff,
        0xfe, 0xba, 0xae, 0xdc, 0xe6, 0xaf, 0x48, 0xa0, 0x3b, 0xbf, 0xd2, 0x5e, 0x8c, 0xd0, 0x36,
        0x41, 0x41,
    ];
    assert!(SecretKey::from_bytes(order).is_none());
    let mut below = order;
    below[31] = 0x40;
    let key = SecretKey::from_bytes(below).unwrap();
    assert_eq!(key.secret_bytes(), below);
    let mut one = [0u8; 32];
    one[31] = 1;
    let generator = SecretKey::from_bytes(one).unwrap().public_key();
    assert_eq!(
        to_hex(&generator.0),
        "0279be667ef9dcbbac55a06295ce870b07029bfcdb2dce28d959f2815b16f81798"
    );
}

#[test]
fn big_endian_bytes_of_a_value() {
    assert_eq!(u64_to_be_bytes(0x0102030405060708), [1, 2, 3, 4, 5, 6, 7, 8]);
    assert_eq!(u64_to_be_bytes(0), [0u8; 8]);
    assert_eq!(u64_to_be_bytes(u64::MAX), [0xffu8; 8]);
    assert_eq!(u64_to_be_bytes(256), [0, 0, 0, 0, 0, 0, 1, 0]);
    assert_eq!(u64_to_be_bytes(1000), 1000u64.to_be_bytes());
}

#[test]
fn hex_text_of_bytes() {
    assert_eq!(to_hex(&[0x00, 0xff, 0x1a, 0xb2]), "00ff1ab2");
    assert_eq!(to_hex(&[]), "");
    let key = PublicKey([0xab; 33]);
    assert_eq!(key.to_hex(), "ab".repeat(33));
}

#[test]
fn backends_that_are_not_available_say_so() {
    let cloud = CloudHsmProvider::new("https://kms.example".to_string(), "token".to_string());
    match cloud.derive_virtual_node_id("alice") {
        Err(HsmError::BackendUnavailable(_)) => {}
        other => panic!("unexpected: {:?}", other),
    }
    assert!(matches!(
        cloud.get_virtual_keys_manager("alice"),
        Err(HsmError::BackendUnavailable(_))
    ));
    let hardware = HardwareHsmProvider::new("/dev/hsm0".to_string());
    assert!(matches!(
        hardware.derive_virtual_node_id("alice"),
        Err(HsmError::BackendUnavailable(_))
    ));
    assert!(matches!(
        hardware.get_virtual_keys_manager("alice"),
        Err(HsmError::BackendUnavailable(_))
    ));
    let error = hardware.derive_virtual_node_id("alice").unwrap_err();
    assert_eq!(error.message(), "HSM backend not available: Hardware HSM not implemented");
}

#[test]
fn the_selected_backend_answers() {
    let local = HsmBackend::Local(LocalHsmProvider::from_master_secret([5u8; 32]));
    let id = local.derive_virtual_node_id("alice").unwrap();
    assert_eq!(id.0, expected_node_id(&[5u8; 32], "alice"));
    assert_eq!(local.get_virtual_keys_manager("alice").unwrap().get_virtual_node_id(), id);
    let cloud = HsmBackend::Cloud(CloudHsmProvider::new("e".to_string(), "c".to_string()));
    assert!(matches!(cloud.derive_virtual_node_id("alice"), Err(HsmError::BackendUnavailable(_))));
    let hardware = HsmBackend::Hardware(HardwareHsmProvider::new("/dev/x".to_string()));
    assert!(matches!(
        hardware.get_virtual_keys_manager("alice"),
        Err(HsmError::BackendUnavailable(_))
    ));
}
