use axum::http::HeaderMap;
use axum::http::HeaderValue;
use serde_json::Value;
use virtual_nodes::hsm::HsmService;
use virtual_nodes::hsm_provider::CloudHsmProvider;
use virtual_nodes::hsm_provider::HsmError;
use virtual_nodes::hsm_provider::LocalHsmProvider;
use virtual_nodes::types::PublicKey;
use virtual_nodes::user_manager::UserManager;
use virtual_nodes::virtual_channel::VirtualChannelManager;
use virtual_nodes::virtual_context::VirtualNodeContext;
use virtual_nodes::virtual_node::VirtualNodeManager;

fn object(field: &str, value: Value) -> Value {
    let mut map = serde_json::Map::new();
    map.insert(field.to_string(), value);
    Value::Object(map)
}

#[test]
fn test_virtual_node_context_extraction() {
    let headers = HeaderMap::new();

    let payload_with_user = object("user_id", Value::String("test_user".to_string()));
    let user_id = UserManager::extract_user_id(&payload_with_user, &headers);
    assert_eq!(user_id, Some("test_user".to_string()));

    let payload_without_user = object("other_field", Value::String("value".to_string()));
    let no_user_id = UserManager::extract_user_id(&payload_without_user, &headers);
    assert_eq!(no_user_id, None);

    println!("Virtual node context extraction works correctly");
}

#[test]
fn the_body_comes_before_the_header() {
    let mut headers = HeaderMap::new();
    headers.insert("x-user-id", HeaderValue::from_static("from-header"));
    let body = object("user_id", Value::String("from-body".to_string()));
    assert_eq!(UserManager::extract_user_id(&body, &headers), Some("from-body".to_string()));
    let other = object("other", Value::Bool(true));
    assert_eq!(UserManager::extract_user_id(&other, &headers), Some("from-header".to_string()));
    let number = object("user_id", Value::from(7));
    assert_eq!(UserManager::extract_user_id(&number, &headers), Some("from-header".to_string()));
    assert_eq!(UserManager::extract_user_id(&Value::Null, &HeaderMap::new()), None);
    assert_eq!(
        virtual_nodes::user_manager_enhanced::UserManager::extract_user_id(&body, &headers),
        Some("from-body".to_string())
    );
    assert_eq!(
        UserManager::select_user_id(Some("a".to_string()), Some("b".to_string())),
        Some("a".to_string())
    );
    assert_eq!(UserManager::select_user_id(None, Some("b".to_string())), Some("b".to_string()));
    assert_eq!(UserManager::select_user_id(None, None), None);
}

#[test]
fn the_directory_remembers_the_first_identity() {
    let master = [4u8; 32];
    let mut directory = VirtualNodeManager::new(LocalHsmProvider::from_master_secret(master));
    let derived = HsmService::from_master_secret(master).derive_virtual_node_id("alice").unwrap();
    assert_eq!(directory.get_virtual_node_id("alice").unwrap(), derived);

    let keys = directory.get_virtual_node("alice").unwrap();
    assert_eq!(keys.get_virtual_node_id(), derived);
    assert_eq!(keys.get_user_id(), "alice");
    assert_eq!(directory.get_virtual_node_id("alice").unwrap(), derived);

    let stored = PublicKey([3u8; 33]);
    directory.record_identity("bob", stored);
    assert_eq!(directory.get_virtual_node_id("bob").unwrap(), stored);
    let bob_keys = directory.get_virtual_node("bob").unwrap();
    assert_ne!(bob_keys.get_virtual_node_id(), stored);
    assert_eq!(directory.get_virtual_node_id("bob").unwrap(), stored);

    directory.record_identity("alice", stored);
    assert_eq!(directory.get_virtual_node_id("alice").unwrap(), stored);
}

#[test]
fn the_directory_fails_as_its_backend_does() {
    let backend = CloudHsmProvider::new("endpoint".to_string(), "secret".to_string());
    let mut directory = VirtualNodeManager::new(backend);
    assert!(matches!(directory.get_virtual_node("alice"), Err(HsmError::BackendUnavailable(_))));
    assert!(matches!(
        directory.get_virtual_node_id("alice"),
        Err(HsmError::BackendUnavailable(_))
    ));
    directory.record_identity("alice", PublicKey([2u8; 33]));
    assert_eq!(directory.get_virtual_node_id("alice").unwrap(), PublicKey([2u8; 33]));
}

#[test]
fn a_context_sees_only_its_own_channels() {
    let mut directory = VirtualNodeManager::new(LocalHsmProvider::from_master_secret([4u8; 32]));
    let alice = directory.get_virtual_node("alice").unwrap().get_virtual_node_id();
    let bob = directory.get_virtual_node("bob").unwrap().get_virtual_node_id();
    let mut registry = VirtualChannelManager::new();
    registry.map_channel_to_virtual_node("ch1", &alice.to_hex(), "alice");
    registry.map_channel_to_virtual_node("ch2", &bob.to_hex(), "bob");
    registry.map_payment_to_virtual_node("pay-1", &alice.to_hex(), "alice", true);

    let body = object("user_id", Value::String("alice".to_string()));
    let context =
        VirtualNodeContext::from_request(&body, &HeaderMap::new(), &mut directory, Some(&registry))
            .unwrap();
    assert_eq!(context.user_id, "alice");
    assert_eq!(context.virtual_node_id, alice);
    assert_eq!(context.virtual_keys.get_virtual_node_id(), alice);
    assert!(context.owns_channel("ch1"));
    assert!(!context.owns_channel("ch2"));
    assert!(!context.owns_channel("ch3"));
    assert_eq!(context.get_owned_channels(), vec!["ch1"]);
    assert_eq!(context.get_owned_payments(), vec!["pay-1"]);

    let bare = VirtualNodeContext::for_user(Some("bob".to_string()), &mut directory, None).unwrap();
    assert_eq!(bare.virtual_node_id, bob);
    assert!(!bare.owns_channel("ch2"));
    assert!(bare.get_owned_channels().is_empty());
    assert!(bare.get_owned_payments().is_empty());
}

#[test]
fn a_request_without_a_tenant_gets_no_context() {
    let mut directory = VirtualNodeManager::new(LocalHsmProvider::from_master_secret([4u8; 32]));
    let body = object("other", Value::Null);
    assert!(VirtualNodeContext::from_request(&body, &HeaderMap::new(), &mut directory, None)
        .is_none());
    assert!(VirtualNodeContext::for_user(None, &mut directory, None).is_none());
    let mut remote =
        VirtualNodeManager::new(CloudHsmProvider::new("e".to_string(), "c".to_string()));
    assert!(VirtualNodeContext::for_user(Some("alice".to_string()), &mut remote, None).is_none());
}

#[test]
fn get_or_create_resolves_and_remembers() {
    let master = [4u8; 32];
    let mut directory = VirtualNodeManager::new(LocalHsmProvider::from_master_secret(master));
    let derived = HsmService::from_master_secret(master).derive_virtual_node_id("alice").unwrap();
    let identity = directory.get_or_create("alice").unwrap();
    assert_eq!(identity.user_id, "alice");
    assert_eq!(identity.virtual_node_id, derived);
    assert_eq!(directory.get_or_create("alice").unwrap().virtual_node_id, derived);
    directory.record_identity("bob", PublicKey([3u8; 33]));
    assert_eq!(directory.get_or_create("bob").unwrap().virtual_node_id, PublicKey([3u8; 33]));
    let mut remote =
        VirtualNodeManager::new(CloudHsmProvider::new("e".to_string(), "c".to_string()));
    assert!(matches!(remote.get_or_create("alice"), Err(HsmError::BackendUnavailable(_))));
}
