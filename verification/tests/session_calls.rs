use wasmtime_ex::bootstrap::load;
use wasmtime_ex::config::Config;
use wasmtime_ex::dispatch::{
    call_export, call_export_no_imports, func_param_tys, get_export_signature,
    imports_with_exports_tys, list_exports,
};
use wasmtime_ex::errors::Error;
use wasmtime_ex::registry::Registry;
use wasmtime_ex::session::ExternKind;
use wasmtime_ex::values::{SVal, SValType, TypeTag};

fn test_config() -> Config {
    Config {
        debug_info: false,
        interruptable: false,
        max_wasm_stack: 512 * 1024,
        strategy: String::new(),
        cranelift_opt_level: String::new(),
    }
}

const MATH_WAT: &str = r#"
(module
  (func (export "add") (param i32 i32) (result i32)
    local.get 0
    local.get 1
    i32.add)
  (func (export "plus_10") (param i32) (result i32)
    local.get 0
    i32.const 10
    i32.add)
  (func (export "min") (param i32 i32) (result i32)
    local.get 0
    local.get 1
    i32.le_s
    if (result i32)
      local.get 0
    else
      local.get 1
    end)
  (func (export "sum") (param $from i32) (param $to i32) (result i32)
    (local $acc i32)
    block $exit
      loop $l
        local.get $from
        local.get $to
        i32.gt_s
        br_if $exit
        local.get $acc
        local.get $from
        i32.add
        local.set $acc
        local.get $from
        i32.const 1
        i32.add
        local.set $from
        br $l
      end
    end
    local.get $acc)
  (func (export "fneg") (param f32) (result f32)
    local.get 0
    f32.neg)
  (func (export "boom")
    unreachable)
  (global (export "answer") i32 (i32.const 7))
  (memory (export "mem") 1)
  (table (export "tbl") 1 funcref)
)
"#;

fn load_math(reg: &mut Registry, sid: i64) {
    let bytes = wat::parse_str(MATH_WAT).unwrap();
    load(reg, sid, &bytes, &vec![], &test_config()).unwrap();
}

#[test]
fn load_then_call_add_returns_declared_result_count() {
    let mut reg = Registry::new();
    load_math(&mut reg, 1);
    let r = call_export_no_imports(&reg, 1, &"add".to_string(), &vec![SVal::I32(2), SVal::I32(3)])
        .unwrap();
    // The export declares one i32 result.
    assert_eq!(r.len(), 1);
    assert_eq!(r, vec![SVal::I32(5)]);
}

#[test]
fn arithmetic_exports_compute_expected_values() {
    let mut reg = Registry::new();
    load_math(&mut reg, 1);
    let call = |name: &str, args: Vec<SVal>| {
        call_export_no_imports(&reg, 1, &name.to_string(), &args).unwrap()
    };
    assert_eq!(call("plus_10", vec![SVal::I32(32)]), vec![SVal::I32(42)]);
    assert_eq!(call("min", vec![SVal::I32(4), SVal::I32(9)]), vec![SVal::I32(4)]);
    assert_eq!(call("min", vec![SVal::I32(9), SVal::I32(4)]), vec![SVal::I32(4)]);
    assert_eq!(call("sum", vec![SVal::I32(1), SVal::I32(10)]), vec![SVal::I32(55)]);
}

#[test]
fn float_arguments_cross_as_bit_patterns() {
    let mut reg = Registry::new();
    load_math(&mut reg, 1);
    let r = call_export_no_imports(
        &reg,
        1,
        &"fneg".to_string(),
        &vec![SVal::F32Bits((1.5f32).to_bits())],
    )
    .unwrap();
    assert_eq!(r, vec![SVal::F32Bits((-1.5f32).to_bits())]);
}

#[test]
fn interruptable_sessions_still_execute() {
    // Enabling interrupt-ability arms the engine's epoch machinery; calls
    // must still run to completion when nobody asks to interrupt.
    let mut reg = Registry::new();
    let bytes = wat::parse_str(MATH_WAT).unwrap();
    let mut cfg = test_config();
    cfg.interruptable = true;
    load(&mut reg, 1, &bytes, &vec![], &cfg).unwrap();
    let r = call_export_no_imports(&reg, 1, &"add".to_string(), &vec![SVal::I32(20), SVal::I32(22)])
        .unwrap();
    assert_eq!(r, vec![SVal::I32(42)]);
}

#[test]
fn call_on_unknown_session_is_rejected() {
    let reg = Registry::new();
    let r = call_export_no_imports(&reg, 5, &"add".to_string(), &vec![]);
    assert_eq!(r, Err(Error::UnknownSession));
}

#[test]
fn call_on_absent_name_is_rejected_without_registry_mutation() {
    let mut reg = Registry::new();
    load_math(&mut reg, 1);
    let before = list_exports(&reg, 1).unwrap();
    let (ntx, _nrx) = crossbeam::channel::unbounded();
    let r = call_export(&reg, 1, &"no_such_export".to_string(), &vec![], &ntx);
    assert_eq!(r, Err(Error::ExportNotFound));
    let after = list_exports(&reg, 1).unwrap();
    assert_eq!(before, after);
}

#[test]
fn call_with_wrong_argument_count_is_rejected() {
    let mut reg = Registry::new();
    load_math(&mut reg, 1);
    let r = call_export_no_imports(&reg, 1, &"add".to_string(), &vec![SVal::I32(2)]);
    assert_eq!(r, Err(Error::ArgumentCountMismatch));
}

#[test]
fn call_with_wrong_argument_type_is_rejected() {
    let mut reg = Registry::new();
    load_math(&mut reg, 1);
    let r =
        call_export_no_imports(&reg, 1, &"add".to_string(), &vec![SVal::I32(2), SVal::I64(3)]);
    assert_eq!(r, Err(Error::TypeMismatch));
}

#[test]
fn trapping_export_reports_a_trap() {
    let mut reg = Registry::new();
    load_math(&mut reg, 1);
    match call_export_no_imports(&reg, 1, &"boom".to_string(), &vec![]) {
        Err(Error::Trap(_)) => {},
        other => panic!("expected a trap, got {:?}", other),
    }
}

#[test]
fn invalid_module_bytes_leave_no_session_behind() {
    let mut reg = Registry::new();
    let garbage = vec![0u8, 1, 2, 3, 4, 5, 6, 7];
    match load(&mut reg, 9, &garbage, &vec![], &test_config()) {
        Err(Error::CompileError(_)) => {},
        other => panic!("expected CompileError, got {:?}", other),
    }
    assert_eq!(list_exports(&reg, 9), Err(Error::UnknownSession));
}

#[test]
fn loading_a_taken_session_id_is_rejected() {
    let mut reg = Registry::new();
    load_math(&mut reg, 1);
    let bytes = wat::parse_str(MATH_WAT).unwrap();
    assert_eq!(
        load(&mut reg, 1, &bytes, &vec![], &test_config()),
        Err(Error::AlreadyExists)
    );
}

#[test]
fn load_rejects_invalid_engine_configuration() {
    let mut reg = Registry::new();
    let bytes = wat::parse_str(MATH_WAT).unwrap();
    let mut cfg = test_config();
    cfg.strategy = "lightbeam".to_string();
    assert_eq!(
        load(&mut reg, 1, &bytes, &vec![], &cfg),
        Err(Error::InvalidConfig("lightbeam".to_string()))
    );
    assert_eq!(list_exports(&reg, 1), Err(Error::UnknownSession));
}

#[test]
fn load_rejects_duplicate_import_ids() {
    let mut reg = Registry::new();
    let bytes = wat::parse_str(MATH_WAT).unwrap();
    let decls = vec![
        (4i64, vec![TypeTag::I32], vec![]),
        (4i64, vec![TypeTag::I64], vec![]),
    ];
    match load(&mut reg, 1, &bytes, &decls, &test_config()) {
        Err(Error::InstantiationError(_)) => {},
        other => panic!("expected InstantiationError, got {:?}", other),
    }
}

#[test]
fn load_rejects_non_scalar_import_declarations() {
    let mut reg = Registry::new();
    let bytes = wat::parse_str(MATH_WAT).unwrap();
    let decls = vec![(4i64, vec![TypeTag::V128], vec![])];
    assert_eq!(
        load(&mut reg, 1, &bytes, &decls, &test_config()),
        Err(Error::UnsupportedValueType)
    );
}

#[test]
fn signature_cache_reports_declared_types() {
    let mut reg = Registry::new();
    load_math(&mut reg, 1);
    let sig = get_export_signature(&reg, 1, &"add".to_string()).unwrap();
    assert_eq!(sig.params, vec![SValType::I32, SValType::I32]);
    assert_eq!(sig.results, vec![SValType::I32]);
    let sig2 = get_export_signature(&reg, 1, &"fneg".to_string()).unwrap();
    assert_eq!(sig2.params, vec![SValType::F32]);
    assert_eq!(sig2.results, vec![SValType::F32]);
    assert_eq!(
        get_export_signature(&reg, 1, &"answer".to_string()),
        Err(Error::ExportNotFound)
    );
    assert_eq!(
        func_param_tys(&reg, 1, &"min".to_string()),
        Ok(vec![SValType::I32, SValType::I32])
    );
}

#[test]
fn imports_with_exports_tys_combines_both_translations() {
    let mut reg = Registry::new();
    load_math(&mut reg, 1);
    let decls = vec![(2i64, vec![TypeTag::I32], vec![TypeTag::I32])];
    let (imports, tys) = imports_with_exports_tys(&reg, 1, &"add".to_string(), &decls).unwrap();
    assert_eq!(imports.len(), 1);
    assert_eq!(imports[0].id, 2);
    assert_eq!(tys, vec![SValType::I32, SValType::I32]);
    assert_eq!(
        imports_with_exports_tys(&reg, 1, &"absent".to_string(), &decls),
        Err(Error::ExportNotFound)
    );
}

#[test]
fn list_exports_reports_names_and_kinds() {
    let mut reg = Registry::new();
    load_math(&mut reg, 1);
    let exports = list_exports(&reg, 1).unwrap();
    let find = |name: &str| {
        exports
            .iter()
            .find(|(n, _)| n == name)
            .map(|(_, k)| *k)
            .unwrap()
    };
    assert_eq!(find("add"), ExternKind::Function);
    assert_eq!(find("answer"), ExternKind::Global);
    assert_eq!(find("mem"), ExternKind::Memory);
    assert_eq!(find("tbl"), ExternKind::Table);
    assert_eq!(exports.len(), 9);
}

#[test]
fn list_exports_is_idempotent() {
    let mut reg = Registry::new();
    load_math(&mut reg, 1);
    let first = list_exports(&reg, 1).unwrap();
    let second = list_exports(&reg, 1).unwrap();
    assert_eq!(first, second);
}

#[test]
fn removed_session_is_unreachable() {
    let mut reg = Registry::new();
    load_math(&mut reg, 1);
    load_math(&mut reg, 2);
    assert!(reg.remove(1).is_ok());
    assert_eq!(list_exports(&reg, 1), Err(Error::UnknownSession));
    assert_eq!(reg.remove(1), Err(Error::UnknownSession));
    // The other session is untouched.
    assert!(list_exports(&reg, 2).is_ok());
}
