use std::sync::Arc;

use keystack_core::backend::hashmap_backend::HashMapBackend;
use keystack_core::backend::{Backend, BackendError, ScopedBackend};
use keystack_core::context_provider::wasm_context_provider::WasmContextProviderError;
use keystack_core::context_provider::ContextProviderError;
use keystack_core::crypto_provider::CryptoProviderError;
use keystack_core::id_manager::disabled_id_manager::DisabledIdentityManager;
use keystack_core::id_manager::{IdentityManager, IdentityManagerError, User};
use keystack_core::id_provider::disabled_id_provider::{DisabledIdentityProvider, EmptyUser};
use keystack_core::id_provider::{AuthenticatedUser, IdentityProvider, IdentityProviderError};
use keystack_core::plugin::PreActionPluginError;
use keystack_core::processor::PreProcessorError;
use keystack_core::provider::libcrux_ed25519::{generate_with, LibCruxEd25519Action, LibCruxEd25519Provider};
use keystack_core::provider::{ActionRequest, Provider, ProviderError};
use keystack_core::secret_provider::{ScopedSecretProvider, SecretProvider, SecretProviderError};
use keystack_core::{text_eq, KeyPath};
use vstd::hash_map::StringHashMap;
use vstd::map::Map;
use vstd::seq::Seq;

fn backend() -> HashMapBackend {
    HashMapBackend { store: StringHashMap::new() }
}

#[test]
fn key_path_join_follows_unix_paths() {
    let base = KeyPath::from("test-key");
    assert_eq!(base.join(&"".into()).as_str(), "test-key/");
    assert_eq!(base.join(&"child".into()).as_str(), "test-key/child");
    assert_eq!(base.join(&"/abs/path".into()).as_str(), "/abs/path");
    assert_eq!(KeyPath::from("dir/").join(&"x".into()).as_str(), "dir/x");
    assert_eq!(KeyPath::from("").join(&"x".into()).as_str(), "x");
    assert_eq!(base.duplicate().as_str(), "test-key");
}

#[test]
fn text_comparison_is_exact() {
    assert!(text_eq("sign", "sign"));
    assert!(!text_eq("sign", "signs"));
    assert!(!text_eq("sign", "sigN"));
    assert!(text_eq("", ""));
}

#[test]
fn backend_create_read_update_delete() {
    let mut b = backend();
    let p: KeyPath = "k".into();
    b.create(&p, &[1, 2, 3, 4]).unwrap();
    let mut small = [0u8; 2];
    assert_eq!(b.read(&p, &mut small).unwrap(), 2);
    assert_eq!(small, [1, 2]);
    let mut big = [7u8; 6];
    assert_eq!(b.read(&p, &mut big).unwrap(), 4);
    assert_eq!(big, [1, 2, 3, 4, 7, 7]);
    b.update(&p, &[9]).unwrap();
    let mut buf = [0u8; 3];
    assert_eq!(b.read(&p, &mut buf).unwrap(), 1);
    assert_eq!(buf, [9, 0, 0]);
    b.delete(&p).unwrap();
    let mut buf = [5u8; 3];
    assert!(matches!(b.read(&p, &mut buf), Err(BackendError::KeyNotFound { .. })));
    assert_eq!(buf, [5, 5, 5]);
}

#[test]
fn backend_errors_name_the_path() {
    let mut b = backend();
    let p: KeyPath = "missing".into();
    match b.update(&p, &[1]) {
        Err(BackendError::KeyNotFound { path }) => assert_eq!(path.as_str(), "missing"),
        _ => panic!("update of a missing key should fail"),
    }
    match b.delete(&p) {
        Err(BackendError::KeyNotFound { path }) => assert_eq!(path.as_str(), "missing"),
        _ => panic!("delete of a missing key should fail"),
    }
    b.create(&p, &[1]).unwrap();
    match b.create(&p, &[2]) {
        Err(BackendError::AlreadyExists { path }) => assert_eq!(path.as_str(), "missing"),
        _ => panic!("create of an existing key should fail"),
    }
    let mut buf = [0u8; 1];
    b.read(&p, &mut buf).unwrap();
    assert_eq!(buf, [1]);
}

#[test]
fn scoped_backend_update_and_delete() {
    let mut b = backend();
    {
        let mut scoped = ScopedBackend::new(&mut b, "scope".into());
        assert_eq!(scoped.scope.as_str(), "scope");
        assert!(matches!(scoped.update(&"x".into(), &[1]), Err(BackendError::KeyNotFound { .. })));
        scoped.create(&"x".into(), &[1]).unwrap();
        scoped.update(&"x".into(), &[2, 3]).unwrap();
        let mut buf = [0u8; 2];
        assert_eq!(scoped.read(&"x".into(), &mut buf).unwrap(), 2);
        assert_eq!(buf, [2, 3]);
        scoped.delete(&"x".into()).unwrap();
        assert!(matches!(scoped.delete(&"x".into()), Err(BackendError::KeyNotFound { .. })));
    }
    let mut buf = [0u8; 1];
    assert!(b.read(&"scope/x".into(), &mut buf).is_err());
}

#[test]
fn ed25519_provider_generates_then_signs_under_scope() {
    let provider = LibCruxEd25519Provider;
    assert_eq!(provider.name(), "builtin-libcrux-ed25519");
    assert_eq!(provider.version(), "0.1.0");
    let mut b = backend();
    let public_key = {
        let mut request = ActionRequest {
            action_id: "generate".to_string(),
            scoped_backend: ScopedBackend::new(&mut b, "my-key".into()),
            payload: Vec::new(),
        };
        provider.do_action(&mut request).unwrap()
    };
    let mut secret = [0u8; 32];
    assert_eq!(b.read(&"my-key/".into(), &mut secret).unwrap(), 32);
    let mut expected = [0u8; 32];
    libcrux_ed25519::secret_to_public(&mut expected, &secret);
    assert_eq!(public_key, expected.to_vec());
    let signature = {
        let mut request = ActionRequest {
            action_id: "sign".to_string(),
            scoped_backend: ScopedBackend::new(&mut b, "my-key".into()),
            payload: b"hello".to_vec(),
        };
        provider.do_action(&mut request).unwrap()
    };
    assert_eq!(signature, libcrux_ed25519::sign(b"hello", &secret).unwrap().to_vec());
}

#[test]
fn ed25519_provider_refuses_to_overwrite_a_key() {
    let provider = LibCruxEd25519Provider;
    let mut b = backend();
    b.create(&"k/".into(), &[4u8; 32]).unwrap();
    let mut request = ActionRequest {
        action_id: "generate".to_string(),
        scoped_backend: ScopedBackend::new(&mut b, "k".into()),
        payload: Vec::new(),
    };
    match provider.do_action(&mut request) {
        Err(ProviderError::BackendError { source: BackendError::AlreadyExists { path } }) => {
            assert_eq!(path.as_str(), "k/")
        },
        _ => panic!("expected AlreadyExists"),
    }
    let mut buf = [0u8; 32];
    b.read(&"k/".into(), &mut buf).unwrap();
    assert_eq!(buf, [4u8; 32]);
}

#[test]
fn ed25519_sign_pads_a_short_secret_with_zeros() {
    let provider = LibCruxEd25519Provider;
    let mut b = backend();
    b.create(&"short/".into(), &[1, 2, 3]).unwrap();
    let mut request = ActionRequest {
        action_id: "sign".to_string(),
        scoped_backend: ScopedBackend::new(&mut b, "short".into()),
        payload: b"p".to_vec(),
    };
    let signature = provider.do_action(&mut request).unwrap();
    let mut secret = [0u8; 32];
    secret[..3].copy_from_slice(&[1, 2, 3]);
    assert_eq!(signature, libcrux_ed25519::sign(b"p", &secret).unwrap().to_vec());
}

#[test]
fn ed25519_unknown_action_is_an_error() {
    let provider = LibCruxEd25519Provider;
    let mut b = backend();
    b.create(&"k/".into(), &[4u8; 32]).unwrap();
    let mut request = ActionRequest {
        action_id: "encrypt".to_string(),
        scoped_backend: ScopedBackend::new(&mut b, "k".into()),
        payload: b"p".to_vec(),
    };
    match provider.do_action(&mut request) {
        Err(ProviderError::ProviderError { message }) => assert_eq!(message, "Unknown action: encrypt"),
        _ => panic!("expected an unknown action"),
    }
    let mut buf = [0u8; 32];
    b.read(&"k/".into(), &mut buf).unwrap();
    assert_eq!(buf, [4u8; 32]);
}

#[test]
fn ed25519_sign_without_key_reports_the_missing_path() {
    let provider = LibCruxEd25519Provider;
    let mut b = backend();
    let mut request = ActionRequest {
        action_id: "sign".to_string(),
        scoped_backend: ScopedBackend::new(&mut b, "nokey".into()),
        payload: b"p".to_vec(),
    };
    match provider.do_action(&mut request) {
        Err(ProviderError::BackendError { source: BackendError::KeyNotFound { path } }) => {
            assert_eq!(path.as_str(), "nokey/")
        },
        _ => panic!("expected KeyNotFound"),
    }
}

#[test]
fn generate_with_stores_the_given_secret() {
    let mut b = backend();
    let secret = [7u8; 32];
    let public_key = {
        let mut request = ActionRequest {
            action_id: "generate".to_string(),
            scoped_backend: ScopedBackend::new(&mut b, "g".into()),
            payload: Vec::new(),
        };
        generate_with(&mut request, secret.to_vec()).unwrap()
    };
    let mut expected = [0u8; 32];
    libcrux_ed25519::secret_to_public(&mut expected, &secret);
    assert_eq!(public_key, expected.to_vec());
    let mut stored = [0u8; 32];
    assert_eq!(b.read(&"g/".into(), &mut stored).unwrap(), 32);
    assert_eq!(stored, secret);
    let mut request = ActionRequest {
        action_id: "generate".to_string(),
        scoped_backend: ScopedBackend::new(&mut b, "g".into()),
        payload: Vec::new(),
    };
    match generate_with(&mut request, [9u8; 32].to_vec()) {
        Err(ProviderError::BackendError { source: BackendError::AlreadyExists { path } }) => {
            assert_eq!(path.as_str(), "g/")
        },
        _ => panic!("expected AlreadyExists"),
    }
    let mut stored = [0u8; 32];
    b.read(&"g/".into(), &mut stored).unwrap();
    assert_eq!(stored, secret);
}

#[test]
fn ed25519_action_names() {
    assert!(matches!(LibCruxEd25519Action::from("generate"), LibCruxEd25519Action::Generate));
    assert!(matches!(LibCruxEd25519Action::from("sign"), LibCruxEd25519Action::Sign));
}

#[test]
fn disabled_identity_manager_admits_only_the_anonymous_user() {
    let m = DisabledIdentityManager;
    assert!(matches!(m.user_authenticate("", None), Ok(true)));
    assert!(matches!(m.user_authenticate("", Some(b"x")), Ok(true)));
    assert!(matches!(m.user_authenticate("bob", None), Err(IdentityManagerError::AuthenticationFailed)));
    assert!(matches!(m.user_has_role("", "admin"), Ok(false)));
    assert!(matches!(m.role_create("r"), Err(IdentityManagerError::NotImplemented)));
    assert!(matches!(m.role_delete("r"), Err(IdentityManagerError::NotImplemented)));
    assert!(matches!(m.group_create("g"), Err(IdentityManagerError::NotImplemented)));
    assert!(matches!(m.group_delete("g"), Err(IdentityManagerError::NotImplemented)));
    assert!(matches!(m.group_add_role("g", "r"), Err(IdentityManagerError::NotImplemented)));
    assert!(matches!(m.group_remove_role("g", "r"), Err(IdentityManagerError::NotImplemented)));
    assert!(matches!(m.user_create("u"), Err(IdentityManagerError::NotImplemented)));
    assert!(matches!(m.user_delete("u"), Err(IdentityManagerError::NotImplemented)));
    assert!(matches!(m.user_add_role("u", "r"), Err(IdentityManagerError::NotImplemented)));
    assert!(matches!(m.user_remove_role("u", "r"), Err(IdentityManagerError::NotImplemented)));
}

#[test]
fn user_answers_through_its_identity_manager() {
    let user = User::new("default-user".to_string(), Arc::new(DisabledIdentityManager));
    assert_eq!(user.id(), "default-user");
    assert!(matches!(user.user_has_role("admin"), Ok(false)));
}

#[test]
fn disabled_identity_provider_authenticates_only_empty_user() {
    let p = DisabledIdentityProvider;
    let user = p.authenticate_user("", None).ok().expect("the empty user is authenticated");
    assert_eq!(user.id(), "");
    assert!(matches!(user.has_role("admin"), Ok(false)));
    assert!(matches!(p.authenticate_user("carol", Some(b"pw")), Err(IdentityProviderError::AuthenticationFailed)));
    let empty = EmptyUser {};
    assert_eq!(empty.id(), "");
}

#[test]
fn error_conversions() {
    let e: ContextProviderError = WasmContextProviderError::CallFailed.into();
    assert!(matches!(e, ContextProviderError::WasmContextProviderError { source: WasmContextProviderError::CallFailed }));
    let e: PreProcessorError = WasmContextProviderError::AllocFailed.into();
    assert!(matches!(e, PreProcessorError::WasmPreProcessorError { source: WasmContextProviderError::AllocFailed }));
    let e: PreActionPluginError = WasmContextProviderError::GetFuncFailed.into();
    assert!(matches!(
        e,
        PreActionPluginError::WasmPreActionPluginError { source: WasmContextProviderError::GetFuncFailed }
    ));
    let e: CryptoProviderError = "bad".to_string().into();
    assert!(matches!(e, CryptoProviderError::CryptoProviderError { ref message } if message == "bad"));
    let e: ProviderError = "worse".to_string().into();
    assert!(matches!(e, ProviderError::ProviderError { ref message } if message == "worse"));
}

/// A secret provider that keeps one secret per path in a list.
struct ListSecrets {
    items: Vec<(String, Vec<u8>)>,
}

impl ListSecrets {
    fn find(&self, path: &KeyPath) -> Option<usize> {
        self.items.iter().position(|(p, _)| p == path.as_str())
    }
}

impl SecretProvider for ListSecrets {
    fn secrets(&self) -> Map<Seq<char>, Seq<u8>> {
        Map::empty()
    }

    fn read(&self, path: &KeyPath, destination: &mut [u8]) -> Result<usize, SecretProviderError> {
        match self.find(path) {
            Some(i) => {
                let data = &self.items[i].1;
                let n = data.len().min(destination.len());
                destination[..n].copy_from_slice(&data[..n]);
                Ok(n)
            },
            None => Err(SecretProviderError::KeyNotFound { path: path.duplicate() }),
        }
    }

    fn create(&mut self, path: &KeyPath, data: &[u8]) -> Result<(), SecretProviderError> {
        if self.find(path).is_some() {
            return Err(SecretProviderError::AlreadyExists { path: path.duplicate() });
        }
        self.items.push((path.as_str().to_string(), data.to_vec()));
        Ok(())
    }

    fn update(&mut self, path: &KeyPath, data: &[u8]) -> Result<(), SecretProviderError> {
        match self.find(path) {
            Some(i) => {
                self.items[i].1 = data.to_vec();
                Ok(())
            },
            None => Err(SecretProviderError::KeyNotFound { path: path.duplicate() }),
        }
    }

    fn delete(&mut self, path: &KeyPath) -> Result<(), SecretProviderError> {
        match self.find(path) {
            Some(i) => {
                self.items.remove(i);
                Ok(())
            },
            None => Err(SecretProviderError::KeyNotFound { path: path.duplicate() }),
        }
    }
}

#[test]
fn scoped_secret_provider_joins_paths() {
    let mut secrets = ListSecrets { items: Vec::new() };
    {
        let mut scoped = ScopedSecretProvider::new(&mut secrets, "vault".into());
        scoped.create(&"a".into(), &[1, 2]).unwrap();
        assert!(matches!(scoped.create(&"a".into(), &[3]), Err(SecretProviderError::AlreadyExists { .. })));
        scoped.update(&"a".into(), &[5, 6, 7]).unwrap();
        let mut buf = [0u8; 2];
        assert_eq!(scoped.read(&"a".into(), &mut buf).unwrap(), 2);
        assert_eq!(buf, [5, 6]);
        scoped.delete(&"a".into()).unwrap();
        assert!(matches!(scoped.read(&"a".into(), &mut buf), Err(SecretProviderError::KeyNotFound { .. })));
    }
    assert!(secrets.items.is_empty());
    let mut secrets = ListSecrets { items: Vec::new() };
    ScopedSecretProvider::new(&mut secrets, "vault".into()).create(&"b".into(), &[1]).unwrap();
    assert_eq!(secrets.items[0].0, "vault/b");
}
