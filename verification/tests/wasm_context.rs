use std::sync::Arc;

use keystack_core::context_provider::wasm_context_provider::{
    checked_allocation, checked_result_pointer, guest_arguments, hook_arguments, result_data_offset, result_length,
    WasmContextProvider, WasmContextProviderError, GUEST_FUEL,
};
use keystack_core::context_provider::{ContextProvider, ContextProviderContext, ContextProviderError};
use keystack_core::user::{User, UserError};
use keystack_core::wasm_guest::hook_signature::{check_hook_signature, text_mentions, HookSignatureError};
use keystack_core::wasm_guest::{encode_result, ContextProviderGuestContext};
use keystack_core::KeyPath;
use vstd::seq::Seq;
use wasmtime::{Config, Engine};

struct TestUser {}

impl User for TestUser {
    fn spec_id(&self) -> Seq<char> {
        "test-user".chars().fold(Seq::empty(), |text, c| text.push(c))
    }

    fn spec_has_role(&self, _role_id: Seq<char>, _answer: Result<bool, UserError>) -> bool {
        true
    }

    fn id(&self) -> &str {
        "test-user"
    }

    fn has_role(&self, _role_id: &str) -> Result<bool, UserError> {
        Ok(false)
    }
}

/// A guest that answers [1, 2, 3, 4] whatever it is handed.
const FIXED_GUEST: &str = r#"
(module
  (memory (export "memory") 1)
  (global $next (mut i32) (i32.const 2048))
  (func (export "alloc") (param $len i32) (result i32)
    (local $p i32)
    (local.set $p (global.get $next))
    (global.set $next (i32.add (global.get $next) (local.get $len)))
    (local.get $p))
  (func (export "pre_action_hook")
    (param i32 i32 i32 i32 i32 i32 i32 i32) (result i32)
    (i32.const 1024))
  (data (i32.const 1024) "\04\00\00\00\01\02\03\04"))
"#;

/// A guest that answers with the action id it was handed.
const ECHO_ACTION_GUEST: &str = r#"
(module
  (memory (export "memory") 1)
  (global $next (mut i32) (i32.const 2048))
  (func (export "alloc") (param $len i32) (result i32)
    (local $p i32)
    (local.set $p (global.get $next))
    (global.set $next (i32.add (global.get $next) (local.get $len)))
    (local.get $p))
  (func (export "pre_action_hook")
    (param $up i32) (param $ul i32) (param $kp i32) (param $kl i32)
    (param $ap i32) (param $al i32) (param $pp i32) (param $pl i32) (result i32)
    (i32.store (i32.const 512) (local.get $al))
    (memory.copy (i32.const 516) (local.get $ap) (local.get $al))
    (i32.const 512)))
"#;

fn guest(hook_body: &str) -> String {
    format!(
        r#"(module
  (memory (export "memory") 1)
  (func (export "alloc") (param $len i32) (result i32) (i32.const 4096))
  (func (export "pre_action_hook")
    (param i32 i32 i32 i32 i32 i32 i32 i32) (result i32)
    {hook_body})
  (data (i32.const 1024) "\ff\ff\ff\ff"))"#
    )
}

/// An engine whose memories reserve no more address space than they use, so
/// that guests can run where address space is limited.
fn engine() -> Engine {
    let mut config = Config::new();
    config.memory_reservation(1 << 20);
    config.memory_guard_size(0);
    config.memory_reservation_for_growth(0);
    Engine::new(&config).unwrap()
}

fn context() -> ContextProviderContext {
    ContextProviderContext {
        user: Arc::new(TestUser {}),
        key_path: KeyPath::from("test/key/path"),
        action_id: "test-action".to_string(),
        payload: vec![1, 2, 3, 4, 5],
    }
}

fn source(r: Result<Vec<u8>, ContextProviderError>) -> WasmContextProviderError {
    match r {
        Err(ContextProviderError::WasmContextProviderError { source }) => source,
        Ok(v) => panic!("expected an error, got {:?}", v),
    }
}

#[test]
fn test_wasm_context_provider_with_context() {
    let engine = engine();
    let plugin = WasmContextProvider::from_module(&engine, FIXED_GUEST.as_bytes()).unwrap();
    let result = plugin.pre_action_hook(&context()).unwrap();
    // The pre_action_hook function returns test data: [0x01, 0x02, 0x03, 0x04]
    assert_eq!(result, vec![0x01, 0x02, 0x03, 0x04]);
}

#[test]
fn guest_receives_the_action_id() {
    let engine = engine();
    let plugin = WasmContextProvider::from_module(&engine, ECHO_ACTION_GUEST.as_bytes()).unwrap();
    let result = plugin.pre_action_hook(&context()).unwrap();
    assert_eq!(result, b"test-action".to_vec());
}

#[test]
fn invalid_module_is_refused() {
    let engine = engine();
    match WasmContextProvider::from_module(&engine, b"not a module") {
        Err(WasmContextProviderError::ModuleFailed) => {},
        _ => panic!("expected ModuleFailed"),
    }
}

#[test]
fn module_without_memory_is_refused() {
    let engine = engine();
    let wat = r#"(module
      (func (export "alloc") (param i32) (result i32) (i32.const 8))
      (func (export "pre_action_hook") (param i32 i32 i32 i32 i32 i32 i32 i32) (result i32) (i32.const 8)))"#;
    let plugin = WasmContextProvider::from_module(&engine, wat.as_bytes()).unwrap();
    assert!(matches!(source(plugin.pre_action_hook(&context())), WasmContextProviderError::GetMemoryFailed));
}

#[test]
fn module_without_hook_is_refused() {
    let engine = engine();
    let wat = r#"(module
      (memory (export "memory") 1)
      (func (export "alloc") (param i32) (result i32) (i32.const 8)))"#;
    let plugin = WasmContextProvider::from_module(&engine, wat.as_bytes()).unwrap();
    assert!(matches!(source(plugin.pre_action_hook(&context())), WasmContextProviderError::GetFuncFailed));
}

#[test]
fn null_allocation_is_refused() {
    let engine = engine();
    let wat = r#"(module
      (memory (export "memory") 1)
      (func (export "alloc") (param i32) (result i32) (i32.const 0))
      (func (export "pre_action_hook") (param i32 i32 i32 i32 i32 i32 i32 i32) (result i32) (i32.const 8)))"#;
    let plugin = WasmContextProvider::from_module(&engine, wat.as_bytes()).unwrap();
    assert!(matches!(source(plugin.pre_action_hook(&context())), WasmContextProviderError::AllocFailed));
}

#[test]
fn null_result_is_a_failed_call() {
    let engine = engine();
    let plugin = WasmContextProvider::from_module(&engine, guest("(i32.const 0)").as_bytes()).unwrap();
    assert!(matches!(source(plugin.pre_action_hook(&context())), WasmContextProviderError::CallFailed));
}

#[test]
fn negative_result_length_is_refused() {
    let engine = engine();
    let plugin = WasmContextProvider::from_module(&engine, guest("(i32.const 1024)").as_bytes()).unwrap();
    assert!(matches!(source(plugin.pre_action_hook(&context())), WasmContextProviderError::MemoryReadFailed));
}

#[test]
fn result_outside_memory_is_refused() {
    let engine = engine();
    let plugin = WasmContextProvider::from_module(&engine, guest("(i32.const 65534)").as_bytes()).unwrap();
    assert!(matches!(source(plugin.pre_action_hook(&context())), WasmContextProviderError::MemoryReadFailed));
}

#[test]
fn trapping_hook_is_a_failed_call() {
    let engine = engine();
    let plugin = WasmContextProvider::from_module(&engine, guest("(unreachable)").as_bytes()).unwrap();
    assert!(matches!(source(plugin.pre_action_hook(&context())), WasmContextProviderError::CallFailed));
}

#[test]
fn result_frame_encodes_length_little_endian() {
    assert_eq!(encode_result(&[1, 2, 3, 4]), vec![4, 0, 0, 0, 1, 2, 3, 4]);
    assert_eq!(encode_result(&[]), vec![0, 0, 0, 0]);
    let long = vec![7u8; 300];
    let frame = encode_result(&long);
    assert_eq!(&frame[..4], &[44, 1, 0, 0]);
    assert_eq!(&frame[4..], &long[..]);
}

#[test]
fn host_reads_back_the_framed_length() {
    let frame = encode_result(&vec![0u8; 70000]);
    assert_eq!(result_length(&frame[..4]).unwrap(), 70000);
    assert!(matches!(result_length(&[0, 0, 0, 0x80]), Err(WasmContextProviderError::MemoryReadFailed)));
    assert_eq!(result_length(&[0xff, 0xff, 0xff, 0x7f]).unwrap(), 0x7fff_ffff);
}

#[test]
fn result_data_starts_after_the_length() {
    assert_eq!(result_data_offset(1024).unwrap(), 1028);
    if usize::BITS == 64 {
        assert!(matches!(result_data_offset(-1), Err(WasmContextProviderError::MemoryReadFailed)));
        assert_eq!(result_data_offset(i32::MIN).unwrap(), (i32::MIN as usize) + 4);
    }
}

#[test]
fn host_hands_over_utf8_texts_and_payload() {
    let ctx = ContextProviderContext {
        user: Arc::new(TestUser {}),
        key_path: KeyPath::from("clé/ü"),
        action_id: "sign".to_string(),
        payload: vec![9, 8],
    };
    let (user, key_path, action_id, payload) = guest_arguments(&ctx);
    assert_eq!(user, b"test-user".to_vec());
    assert_eq!(key_path, "clé/ü".as_bytes().to_vec());
    assert_eq!(action_id, b"sign".to_vec());
    assert_eq!(payload, vec![9, 8]);
    let seen = ContextProviderGuestContext::from_bytes(&user, &key_path, &action_id, &payload);
    assert_eq!(seen.user, "test-user");
    assert_eq!(seen.key_path, "clé/ü");
    assert_eq!(seen.action_id, "sign");
    assert_eq!(seen.payload, vec![9, 8]);
}

#[test]
fn guest_replaces_invalid_utf8() {
    let seen = ContextProviderGuestContext::from_bytes(b"a\xffb", b"", b"x", &[]);
    assert_eq!(seen.user, "a\u{fffd}b");
    assert_eq!(seen.key_path, "");
    assert_eq!(seen.action_id, "x");
}

#[test]
fn guest_context_from_host_context() {
    let seen: ContextProviderGuestContext = context().into();
    assert_eq!(seen.user, "test-user");
    assert_eq!(seen.key_path, "test/key/path");
    assert_eq!(seen.action_id, "test-action");
    assert_eq!(seen.payload, vec![1, 2, 3, 4, 5]);
}

#[test]
fn unresolved_import_fails_instantiation() {
    let engine = engine();
    let wat = r#"(module
      (import "host" "missing" (func))
      (memory (export "memory") 1))"#;
    let plugin = WasmContextProvider::from_module(&engine, wat.as_bytes()).unwrap();
    assert!(matches!(source(plugin.pre_action_hook(&context())), WasmContextProviderError::InstantiateFailed));
}

#[test]
fn allocation_outside_memory_fails_the_write() {
    let engine = engine();
    let wat = r#"(module
      (memory (export "memory") 1)
      (func (export "alloc") (param i32) (result i32) (i32.const 65535))
      (func (export "pre_action_hook") (param i32 i32 i32 i32 i32 i32 i32 i32) (result i32) (i32.const 8)))"#;
    let plugin = WasmContextProvider::from_module(&engine, wat.as_bytes()).unwrap();
    assert!(matches!(source(plugin.pre_action_hook(&context())), WasmContextProviderError::MemoryWriteFailed));
}

#[test]
fn host_checks_the_guest_pointers() {
    assert!(matches!(checked_allocation(0), Err(WasmContextProviderError::AllocFailed)));
    assert!(matches!(checked_allocation(8), Ok(8)));
    assert!(matches!(checked_result_pointer(0), Err(WasmContextProviderError::CallFailed)));
    assert!(matches!(checked_result_pointer(-3), Ok(-3)));
}

#[test]
fn hook_arguments_keep_the_field_order() {
    assert_eq!(hook_arguments((1, 2), (3, 4), (5, 6), (7, 8)), (1, 2, 3, 4, 5, 6, 7, 8));
}

#[test]
fn hook_signature_checks_come_in_order() {
    assert_eq!(check_hook_signature(2, true, false, None), Err(HookSignatureError::ArgumentCount));
    assert_eq!(check_hook_signature(0, false, true, Some("Vec < u8 >")), Err(HookSignatureError::ArgumentCount));
    assert_eq!(check_hook_signature(1, true, false, None), Err(HookSignatureError::SelfArgument));
    assert_eq!(check_hook_signature(1, false, false, None), Err(HookSignatureError::ArgumentPattern));
    assert_eq!(check_hook_signature(1, false, true, None), Err(HookSignatureError::ReturnType));
    assert_eq!(check_hook_signature(1, false, true, Some("String")), Err(HookSignatureError::ReturnType));
    assert_eq!(check_hook_signature(1, false, true, Some("Vec < u16 >")), Err(HookSignatureError::ReturnType));
    assert_eq!(check_hook_signature(1, false, true, Some("Vec < u8 >")), Ok(()));
}

#[test]
fn hook_signature_messages() {
    assert_eq!(HookSignatureError::ReturnType.message(), "#[pre_action_hook] function must return Vec<u8>");
    assert_eq!(
        HookSignatureError::SelfArgument.message(),
        "#[pre_action_hook] function must take ContextProviderGuestContext, not self"
    );
}

#[test]
fn text_mentions_finds_runs() {
    assert!(text_mentions("Vec < u8 >", "u8"));
    assert!(text_mentions("abc", ""));
    assert!(text_mentions("abc", "abc"));
    assert!(!text_mentions("ab", "abc"));
    assert!(!text_mentions("u16", "u8"));
}

#[test]
fn looping_hook_runs_out_of_fuel() {
    let wat = guest("(loop $l (br $l)) (i32.const 0)");
    let provider = WasmContextProvider::from_module(&engine(), wat.as_bytes()).unwrap();
    assert!(matches!(source(provider.pre_action_hook(&context())), WasmContextProviderError::CallFailed));
}

#[test]
fn looping_start_function_fails_instantiation() {
    let wat = r#"(module
  (memory (export "memory") 1)
  (func $spin (loop $l (br $l)))
  (start $spin)
  (func (export "alloc") (param i32) (result i32) (i32.const 4096))
  (func (export "pre_action_hook") (param i32 i32 i32 i32 i32 i32 i32 i32) (result i32) (i32.const 0)))"#;
    let provider = WasmContextProvider::from_module(&engine(), wat.as_bytes()).unwrap();
    assert!(matches!(source(provider.pre_action_hook(&context())), WasmContextProviderError::InstantiateFailed));
}

#[test]
fn engine_without_fuel_still_meters_the_guest() {
    let mut config = Config::new();
    config.memory_reservation(1 << 20);
    config.memory_guard_size(0);
    config.memory_reservation_for_growth(0);
    let unmetered = Engine::new(&config).unwrap();
    let provider = WasmContextProvider::from_module(&unmetered, FIXED_GUEST.as_bytes()).unwrap();
    assert_eq!(provider.pre_action_hook(&context()).unwrap(), vec![1, 2, 3, 4]);
    let looping = WasmContextProvider::from_module(&unmetered, guest("(loop $l (br $l)) (i32.const 0)").as_bytes()).unwrap();
    assert!(matches!(source(looping.pre_action_hook(&context())), WasmContextProviderError::CallFailed));
}

#[test]
fn guest_fuel_is_bounded() {
    assert_eq!(GUEST_FUEL, 100_000_000);
}

#[test]
fn run_hook_on_a_fresh_guest() {
    let provider = WasmContextProvider::from_module(&engine(), ECHO_ACTION_GUEST.as_bytes()).unwrap();
    let mut guest = match provider.new_guest() {
        Ok(g) => g,
        Err(f) => panic!("setting up the guest failed: {:?}", f.error),
    };
    assert_eq!(provider.run_hook(&mut guest, &context()).unwrap(), b"test-action".to_vec());
}

#[test]
fn new_guest_reports_a_missing_export() {
    let wat = r#"(module (memory (export "memory") 1) (func (export "alloc") (param i32) (result i32) (i32.const 4096)))"#;
    let provider = WasmContextProvider::from_module(&engine(), wat.as_bytes()).unwrap();
    assert!(matches!(provider.new_guest(), Err(f) if matches!(f.error, WasmContextProviderError::GetFuncFailed)));
    let no_memory = r#"(module (func (export "alloc") (param i32) (result i32) (i32.const 4096)))"#;
    let provider = WasmContextProvider::from_module(&engine(), no_memory.as_bytes()).unwrap();
    assert!(matches!(provider.new_guest(), Err(f) if matches!(f.error, WasmContextProviderError::GetMemoryFailed)));
}

#[test]
fn calls_do_not_share_guest_state() {
    // The guest counts its calls in a global and answers the count.
    let wat = r#"(module
  (memory (export "memory") 1)
  (global $calls (mut i32) (i32.const 0))
  (func (export "alloc") (param i32) (result i32) (i32.const 4096))
  (func (export "pre_action_hook") (param i32 i32 i32 i32 i32 i32 i32 i32) (result i32)
    (global.set $calls (i32.add (global.get $calls) (i32.const 1)))
    (i32.store (i32.const 512) (i32.const 1))
    (i32.store8 (i32.const 516) (global.get $calls))
    (i32.const 512)))"#;
    let provider = WasmContextProvider::from_module(&engine(), wat.as_bytes()).unwrap();
    assert_eq!(provider.pre_action_hook(&context()).unwrap(), vec![1]);
    assert_eq!(provider.pre_action_hook(&context()).unwrap(), vec![1]);
}
