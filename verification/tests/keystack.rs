use keystack_core::backend::hashmap_backend::HashMapBackend;
use keystack_core::backend::{Backend, BackendError, ScopedBackend};
use keystack_core::id_manager::disabled_id_manager::DisabledIdentityManager;
use keystack_core::id_manager::IdentityManagerError;
use keystack_core::provider::libcrux_ed25519::LibCruxEd25519Provider;
use keystack_core::provider::ProviderError;
use keystack_core::{KeyPath, KeyStack, KeyStackError, KeyStackRequest, KeyStackResponse};
use libcrux_ed25519::verify;

fn action(key_path: &str, action_id: &str, payload: Vec<u8>, provider_id: &str) -> KeyStackRequest {
    KeyStackRequest::Action {
        auth_data: None,
        user_id: None,
        key_path: key_path.into(),
        pre_processor_ids: Vec::new(),
        action_id: action_id.to_string(),
        payload,
        provider_id: provider_id.to_string(),
    }
}

fn provider_response(response: KeyStackResponse) -> Vec<u8> {
    match response {
        KeyStackResponse::Action { provider_response, .. } => provider_response,
    }
}

#[test]
fn default_keystack_generates_key_and_signs_payload() {
    let mut keystack = KeyStack::default();
    let key_path: KeyPath = "test-key".into();

    let generate_response = keystack
        .handle_request(KeyStackRequest::Action {
            auth_data: None,
            user_id: None,
            key_path: key_path.duplicate(),
            pre_processor_ids: Vec::new(),
            action_id: "generate".to_string(),
            payload: Vec::new(),
            provider_id: "builtin-libcrux-ed25519".to_string(),
        })
        .expect("generate action should succeed");

    let generated_public_key = match generate_response {
        KeyStackResponse::Action { provider_response, .. } => provider_response,
    };

    assert_eq!(generated_public_key.len(), 32);

    let public_key: [u8; 32] = generated_public_key
        .try_into()
        .expect("generated public key should be 32 bytes");

    let payload = b"payload-to-sign".to_vec();

    let sign_response = keystack
        .handle_request(KeyStackRequest::Action {
            auth_data: None,
            user_id: None,
            key_path,
            pre_processor_ids: Vec::new(),
            action_id: "sign".to_string(),
            payload: payload.clone(),
            provider_id: "builtin-libcrux-ed25519".to_string(),
        })
        .expect("sign action should succeed");

    let signature = match sign_response {
        KeyStackResponse::Action { provider_response, .. } => provider_response,
    };

    assert_eq!(signature.len(), 64);

    let signature: [u8; 64] = signature.try_into().expect("signature should be 64 bytes");

    verify(&payload, &public_key, &signature).expect("signature should verify");
}

#[test]
fn response_echoes_action_id_and_has_no_pre_processor_results() {
    let mut keystack = KeyStack::default();
    let response = keystack
        .handle_request(action("k", "generate", Vec::new(), "builtin-libcrux-ed25519"))
        .expect("generate should succeed");
    match response {
        KeyStackResponse::Action { action_id, pre_processor_context, provider_response } => {
            assert_eq!(action_id, "generate");
            assert_eq!(pre_processor_context.len(), 0);
            assert_eq!(provider_response.len(), 32);
        },
    }
}

#[test]
fn generating_twice_on_one_key_is_refused() {
    let mut keystack = KeyStack::default();
    keystack
        .handle_request(action("twice", "generate", Vec::new(), "builtin-libcrux-ed25519"))
        .expect("first generate should succeed");
    let second = keystack.handle_request(action("twice", "generate", Vec::new(), "builtin-libcrux-ed25519"));
    match second {
        Err(KeyStackError::ProviderError {
            source: ProviderError::BackendError { source: BackendError::AlreadyExists { path } },
        }) => assert_eq!(path.as_str(), "twice/"),
        _ => panic!("a second generate on the same key should be refused"),
    }
}

#[test]
fn keys_at_different_paths_sign_differently() {
    let mut keystack = KeyStack::default();
    let pk_a = provider_response(
        keystack.handle_request(action("a", "generate", Vec::new(), "builtin-libcrux-ed25519")).unwrap(),
    );
    let pk_b = provider_response(
        keystack.handle_request(action("b", "generate", Vec::new(), "builtin-libcrux-ed25519")).unwrap(),
    );
    assert_ne!(pk_a, pk_b);
    let sig_a = provider_response(
        keystack.handle_request(action("a", "sign", b"m".to_vec(), "builtin-libcrux-ed25519")).unwrap(),
    );
    let pk_a: [u8; 32] = pk_a.try_into().unwrap();
    let pk_b: [u8; 32] = pk_b.try_into().unwrap();
    let sig_a: [u8; 64] = sig_a.try_into().unwrap();
    assert!(verify(b"m", &pk_a, &sig_a).is_ok());
    assert!(verify(b"m", &pk_b, &sig_a).is_err());
}

#[test]
fn unknown_provider_is_reported() {
    let mut keystack = KeyStack::default();
    match keystack.handle_request(action("k", "generate", Vec::new(), "no-such-provider")) {
        Err(KeyStackError::ProviderNotFound { id }) => assert_eq!(id, "no-such-provider"),
        _ => panic!("expected ProviderNotFound"),
    }
}

#[test]
fn unknown_pre_processor_is_reported() {
    let mut keystack = KeyStack::default();
    let request = KeyStackRequest::Action {
        auth_data: None,
        user_id: None,
        key_path: "k".into(),
        pre_processor_ids: vec!["audit".to_string(), "limits".to_string()],
        action_id: "generate".to_string(),
        payload: Vec::new(),
        provider_id: "builtin-libcrux-ed25519".to_string(),
    };
    match keystack.handle_request(request) {
        Err(KeyStackError::PreProcessorNotFound { id }) => assert_eq!(id, "audit"),
        _ => panic!("expected PreProcessorNotFound"),
    }
    // Nothing was generated: a later generate on the same key succeeds.
    assert!(keystack.handle_request(action("k", "generate", Vec::new(), "builtin-libcrux-ed25519")).is_ok());
}

#[test]
fn unknown_action_is_answered_by_the_provider() {
    let mut keystack = KeyStack::default();
    match keystack.handle_request(action("k", "encrypt", Vec::new(), "builtin-libcrux-ed25519")) {
        Err(KeyStackError::ProviderError { source: ProviderError::ProviderError { message } }) => {
            assert_eq!(message, "Unknown action: encrypt")
        },
        _ => panic!("expected the provider's refusal"),
    }
}

#[test]
fn sign_before_generate_reports_the_missing_key() {
    let mut keystack = KeyStack::default();
    match keystack.handle_request(action("k", "sign", b"m".to_vec(), "builtin-libcrux-ed25519")) {
        Err(KeyStackError::ProviderError { source: ProviderError::BackendError { source: BackendError::KeyNotFound { path } } }) => {
            assert_eq!(path.as_str(), "k/")
        },
        _ => panic!("expected KeyNotFound"),
    }
}

#[test]
fn named_user_is_not_authenticated_by_default() {
    let mut keystack = KeyStack::default();
    let request = KeyStackRequest::Action {
        auth_data: Some(b"token".to_vec()),
        user_id: Some("alice".to_string()),
        key_path: "k".into(),
        pre_processor_ids: Vec::new(),
        action_id: "generate".to_string(),
        payload: Vec::new(),
        provider_id: "builtin-libcrux-ed25519".to_string(),
    };
    match keystack.handle_request(request) {
        Err(KeyStackError::IdentityManagerError { source: IdentityManagerError::AuthenticationFailed }) => {},
        _ => panic!("expected an authentication failure"),
    }
}

#[test]
fn explicit_empty_user_is_anonymous() {
    let mut keystack = KeyStack::default();
    let request = KeyStackRequest::Action {
        auth_data: None,
        user_id: Some(String::new()),
        key_path: "k".into(),
        pre_processor_ids: Vec::new(),
        action_id: "generate".to_string(),
        payload: Vec::new(),
        provider_id: "builtin-libcrux-ed25519".to_string(),
    };
    assert!(keystack.handle_request(request).is_ok());
}

#[test]
fn identity_error_converts_into_keystack_error() {
    let e: KeyStackError = IdentityManagerError::NotImplemented.into();
    assert!(matches!(e, KeyStackError::IdentityManagerError { source: IdentityManagerError::NotImplemented }));
}

#[test]
fn scoped_backend_stores_under_scope() {
    let mut backend = HashMapBackend { store: vstd::hash_map::StringHashMap::new() };
    {
        let mut scoped = ScopedBackend::new(&mut backend, "keys".into());
        scoped.create(&"one".into(), &[1, 2, 3]).unwrap();
        let mut buf = [0u8; 3];
        assert_eq!(scoped.read(&"one".into(), &mut buf).unwrap(), 3);
        assert_eq!(buf, [1, 2, 3]);
    }
    let mut buf = [9u8; 5];
    assert_eq!(backend.read(&"keys/one".into(), &mut buf).unwrap(), 3);
    assert_eq!(buf, [1, 2, 3, 9, 9]);
    let _ = DisabledIdentityManager;
    let _ = LibCruxEd25519Provider;
}
