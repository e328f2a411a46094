use std::time::Duration;

use wasmtime_ex::bootstrap::load;
use wasmtime_ex::bridge::{channel_entry, import_stub_invoke, stub_ctx, ImportNotification};
use wasmtime_ex::config::Config;
use wasmtime_ex::dispatch::{call_export, reply_to_import};
use wasmtime_ex::errors::Error;
use wasmtime_ex::registry::Registry;
use wasmtime_ex::values::{SVal, SValType, TypeTag};

fn test_config() -> Config {
    Config {
        debug_info: false,
        interruptable: false,
        max_wasm_stack: 512 * 1024,
        strategy: String::new(),
        cranelift_opt_level: String::new(),
    }
}

// One import, id 7, params [i32], no results; the export feeds it 42 and
// then returns its own result, 99.
const CALLER_7_WAT: &str = r#"
(module
  (import "env" "f7" (func $f7 (param i32)))
  (func (export "callit") (result i32)
    i32.const 42
    call $f7
    i32.const 99))
"#;

// One import, id 3, no params, one i32 result; the export returns what the
// import returns.
const CALLER_3_WAT: &str = r#"
(module
  (import "env" "f3" (func $f3 (result i32)))
  (func (export "callit") (result i32)
    call $f3))
"#;

fn load_caller_7(reg: &mut Registry, sid: i64) {
    let bytes = wat::parse_str(CALLER_7_WAT).unwrap();
    let decls = vec![(7i64, vec![TypeTag::I32], vec![])];
    load(reg, sid, &bytes, &decls, &test_config()).unwrap();
}

fn load_caller_3(reg: &mut Registry, sid: i64) {
    let bytes = wat::parse_str(CALLER_3_WAT).unwrap();
    let decls = vec![(3i64, vec![], vec![TypeTag::I32])];
    load(reg, sid, &bytes, &decls, &test_config()).unwrap();
}

#[test]
fn import_call_notifies_actor_and_completes_after_reply() {
    let mut reg = Registry::new();
    load_caller_7(&mut reg, 1);
    let (ntx, nrx) = crossbeam::channel::unbounded::<ImportNotification>();
    crossbeam::scope(|s| {
        let handle = s.spawn(|_| call_export(&reg, 1, &"callit".to_string(), &vec![], &ntx));
        let note = nrx.recv_timeout(Duration::from_secs(10)).unwrap();
        assert_eq!(note.session_id, 1);
        assert_eq!(note.import_id, 7);
        assert_eq!(note.args, vec![SVal::I32(42)]);
        assert_eq!(reply_to_import(&reg, 1, 7, vec![]), Ok(()));
        let result = handle.join().unwrap();
        assert_eq!(result, Ok(vec![SVal::I32(99)]));
    })
    .unwrap();
}

#[test]
fn second_concurrent_call_to_same_import_is_rejected() {
    let mut reg = Registry::new();
    load_caller_3(&mut reg, 1);
    let (ntx, nrx) = crossbeam::channel::unbounded::<ImportNotification>();
    crossbeam::scope(|s| {
        let handle = s.spawn(|_| call_export(&reg, 1, &"callit".to_string(), &vec![], &ntx));
        let note = nrx.recv_timeout(Duration::from_secs(10)).unwrap();
        assert_eq!(note.import_id, 3);
        // The first call now blocks on import 3's reply. A second call
        // that reaches the same import id must be rejected, not silently
        // interleaved.
        let second = call_export(&reg, 1, &"callit".to_string(), &vec![], &ntx);
        assert_eq!(second, Err(Error::DuplicateImportCall));
        // The first call is still answerable.
        assert_eq!(reply_to_import(&reg, 1, 3, vec![SVal::I32(61)]), Ok(()));
        let result = handle.join().unwrap();
        assert_eq!(result, Ok(vec![SVal::I32(61)]));
    })
    .unwrap();
}

#[test]
fn short_reply_fails_the_call_with_arity_mismatch() {
    let mut reg = Registry::new();
    load_caller_3(&mut reg, 1);
    let (ntx, nrx) = crossbeam::channel::unbounded::<ImportNotification>();
    crossbeam::scope(|s| {
        let handle = s.spawn(|_| call_export(&reg, 1, &"callit".to_string(), &vec![], &ntx));
        nrx.recv_timeout(Duration::from_secs(10)).unwrap();
        // The import declares one i32 result; an empty reply violates the
        // call contract.
        assert_eq!(reply_to_import(&reg, 1, 3, vec![]), Ok(()));
        let result = handle.join().unwrap();
        assert_eq!(result, Err(Error::ArityMismatch));
    })
    .unwrap();
}

#[test]
fn mistyped_reply_fails_the_call_with_type_mismatch() {
    let mut reg = Registry::new();
    load_caller_3(&mut reg, 1);
    let (ntx, nrx) = crossbeam::channel::unbounded::<ImportNotification>();
    crossbeam::scope(|s| {
        let handle = s.spawn(|_| call_export(&reg, 1, &"callit".to_string(), &vec![], &ntx));
        nrx.recv_timeout(Duration::from_secs(10)).unwrap();
        assert_eq!(reply_to_import(&reg, 1, 3, vec![SVal::I64(5)]), Ok(()));
        let result = handle.join().unwrap();
        assert_eq!(result, Err(Error::TypeMismatch));
    })
    .unwrap();
}

#[test]
fn missing_import_wiring_fails_instantiation() {
    // The module declares one import; loading it with no import
    // declarations leaves the engine unable to link it.
    let mut reg = Registry::new();
    let bytes = wat::parse_str(CALLER_7_WAT).unwrap();
    match load(&mut reg, 1, &bytes, &vec![], &test_config()) {
        Err(Error::InstantiationError(_)) => {},
        other => panic!("expected InstantiationError, got {:?}", other),
    }
}

#[test]
fn reply_to_unknown_import_id_is_rejected() {
    let mut reg = Registry::new();
    load_caller_7(&mut reg, 1);
    assert_eq!(reply_to_import(&reg, 1, 8, vec![]), Err(Error::NoSuchImport));
    assert_eq!(reply_to_import(&reg, 9, 7, vec![]), Err(Error::UnknownSession));
}

#[test]
fn stub_reports_disconnection_instead_of_hanging() {
    // Build a stub context whose reply channel's sender side is gone, as
    // happens when a session is torn down while a call is blocked.
    let entry = channel_entry();
    let (ntx, nrx) = crossbeam::channel::unbounded::<ImportNotification>();
    let (etx, _erx) = crossbeam::channel::unbounded::<Error>();
    let ctx = stub_ctx(1, 7, vec![SValType::I32], &entry, &ntx, &etx);
    drop(entry);
    let r = import_stub_invoke(&ctx, vec![SVal::I32(1)]);
    assert_eq!(r, Err(Error::ChannelDisconnected));
    // The notification itself was still delivered before the wait.
    let note = nrx.recv_timeout(Duration::from_secs(5)).unwrap();
    assert_eq!(note.import_id, 7);
    assert_eq!(note.args, vec![SVal::I32(1)]);
}

#[test]
fn missing_token_means_duplicate_import_call() {
    let entry = channel_entry();
    let (ntx, _nrx) = crossbeam::channel::unbounded::<ImportNotification>();
    let (etx, _erx) = crossbeam::channel::unbounded::<Error>();
    let ctx = stub_ctx(1, 7, vec![], &entry, &ntx, &etx);
    // Take the token, as an outstanding call would have.
    entry.token_rx.try_recv().unwrap();
    let r = import_stub_invoke(&ctx, vec![]);
    assert_eq!(r, Err(Error::DuplicateImportCall));
}
