//! Trusted window onto the WebAssembly engine.
//!
//! Module compilation, instantiation and execution are the engine's own
//! business; this layer only states, for each call it relies on, what the
//! engine documents. Engine values (modules, instances, functions, raw
//! values) are opaque here: everything the verified logic reads of them is
//! converted to the library's own scalar types at this boundary.

use vstd::prelude::*;
use wasmtime::{Engine, Extern, Func, FuncType, Instance, Module, Store, Val, ValType};
use wasmtime::Config as WtConfig;
use crate::bridge::StubCtx;
use crate::config::{OptLevelChoice, StrategyChoice};
use crate::errors::Error;
use crate::session::ExternKind;
use crate::values::{ImportDecl, SVal, SValType, TypeTag};

verus! {

#[verifier::external_type_specification]
#[verifier::external_body]
pub struct ExEngine(Engine);

#[verifier::external_type_specification]
#[verifier::external_body]
pub struct ExModule(Module);

#[verifier::external_type_specification]
#[verifier::external_body]
pub struct ExEngineConfig(WtConfig);

#[verifier::external_type_specification]
#[verifier::external_body]
#[verifier::reject_recursive_types(T)]
pub struct ExStore<T: 'static>(Store<T>);

#[verifier::external_type_specification]
#[verifier::external_body]
pub struct ExInstance(Instance);

#[verifier::external_type_specification]
#[verifier::external_body]
pub struct ExFunc(Func);

#[verifier::external_type_specification]
#[verifier::external_body]
pub struct ExFuncType(FuncType);

#[verifier::external_type_specification]
#[verifier::external_body]
pub struct ExExtern(Extern);

#[verifier::external_type_specification]
#[verifier::external_body]
pub struct ExVal(Val);

#[verifier::external_type_specification]
#[verifier::external_body]
pub struct ExValType(ValType);

/// Relies on wasmtime::Config's builder methods: each setting is recorded
/// on the configuration; validation happens at engine creation. Linear
/// memories are given modest virtual-address reservations so instances
/// also run where address space is constrained.
#[verifier::external_body]
pub(crate) fn new_engine_config(
    debug_info: bool,
    interruptable: bool,
    max_stack: usize,
    strategy: StrategyChoice,
    opt: OptLevelChoice,
) -> WtConfig {
    let mut cfg = WtConfig::new();
    let s = match strategy {
        StrategyChoice::Auto => wasmtime::Strategy::Auto,
        StrategyChoice::Cranelift => wasmtime::Strategy::Cranelift,
    };
    let o = match opt {
        OptLevelChoice::NoOpt => wasmtime::OptLevel::None,
        OptLevelChoice::Speed => wasmtime::OptLevel::Speed,
        OptLevelChoice::SpeedAndSize => wasmtime::OptLevel::SpeedAndSize,
    };
    cfg.debug_info(debug_info).epoch_interruption(interruptable).max_wasm_stack(max_stack);
    cfg.strategy(s).cranelift_opt_level(o);
    cfg.memory_reservation(1 << 24).memory_guard_size(1 << 16);
    cfg.memory_reservation_for_growth(1 << 24);
    cfg
}

/// Relies on wasmtime::Engine::new: it fails exactly when the recorded
/// configuration is invalid or unsupported, and reports why.
#[verifier::external_body]
pub(crate) fn new_engine(cfg: &WtConfig) -> (r: Result<Engine, Error>)
    ensures
        r matches Err(e) ==> e is InvalidConfig,
{
    Engine::new(cfg).map_err(|e| Error::InvalidConfig(format!("{}", e)))
}

/// Relies on wasmtime::Module::new: it compiles valid module bytes and
/// fails on malformed or invalid ones, reporting why.
#[verifier::external_body]
pub(crate) fn compile_module(engine: &Engine, bytes: &Vec<u8>) -> (r: Result<Module, Error>)
    ensures
        r matches Err(e) ==> e is CompileError,
{
    Module::new(engine, bytes.as_slice()).map_err(|e| Error::CompileError(format!("{}", e)))
}

/// Relies on wasmtime::Store::new and Store::set_epoch_deadline: a fresh
/// store on the given engine, with an epoch deadline that never expires.
/// When the engine was built with epoch interruption enabled, a store
/// without a deadline traps on the first instruction; this arms the
/// interrupt capability while leaving execution to run until the embedder
/// itself advances the epoch.
#[verifier::external_body]
pub(crate) fn new_store(engine: &Engine) -> Store<()> {
    let mut store = Store::new(engine, ());
    store.set_epoch_deadline(u64::MAX);
    store
}

/// Relies on wasmtime::Store::engine: the engine this store runs on.
#[verifier::external_body]
pub(crate) fn store_engine(store: &Store<()>) -> Engine {
    store.engine().clone()
}

/// Relies on wasmtime::Instance::new: it links the given imports, in
/// declaration order, and fails on any linkage mismatch, reporting why.
/// The module and imports must belong to the store's engine, which every
/// caller here guarantees by construction.
#[verifier::external_body]
pub(crate) fn instantiate(store: &mut Store<()>, module: &Module, imports: &Vec<Extern>) -> (r: Result<
    Instance,
    Error,
>)
    ensures
        r matches Err(e) ==> e is InstantiationError,
{
    Instance::new(&mut *store, module, imports.as_slice()).map_err(
        |e| Error::InstantiationError(format!("{}", e)),
    )
}

/// Relies on wasmtime::Instance::get_func: the export of that name, if it
/// exists and is a function.
#[verifier::external_body]
pub(crate) fn get_func(store: &mut Store<()>, inst: &Instance, name: &String) -> Option<Func> {
    inst.get_func(&mut *store, name.as_str())
}

/// Relies on wasmtime::Func::ty: the function's type.
#[verifier::external_body]
pub(crate) fn func_type_of(store: &Store<()>, f: &Func) -> FuncType {
    f.ty(store)
}

/// Relies on wasmtime::FuncType::params: the parameter types, in order.
#[verifier::external_body]
pub(crate) fn func_type_params(ty: &FuncType) -> Vec<ValType> {
    ty.params().collect()
}

/// Relies on wasmtime::FuncType::results: the result types, in order.
#[verifier::external_body]
pub(crate) fn func_type_results(ty: &FuncType) -> Vec<ValType> {
    ty.results().collect()
}

/// Relies on wasmtime::FuncType::new: a function type with the given
/// parameter and result types.
#[verifier::external_body]
pub(crate) fn new_func_type(engine: &Engine, params: &Vec<ValType>, results: &Vec<ValType>) -> FuncType {
    FuncType::new(engine, params.clone(), results.clone())
}

/// Relies on wasmtime::ValType: each engine value type maps to one tag;
/// a reference type is reported as the tag of its general kind.
#[verifier::external_body]
pub(crate) fn tag_of_valtype(t: &ValType) -> TypeTag {
    match t {
        ValType::I32 => TypeTag::I32,
        ValType::I64 => TypeTag::I64,
        ValType::F32 => TypeTag::F32,
        ValType::F64 => TypeTag::F64,
        ValType::V128 => TypeTag::V128,
        ValType::Ref(r) => {
            if r.heap_type().is_func() {
                TypeTag::FuncRef
            } else {
                TypeTag::ExternRef
            }
        },
    }
}

/// Relies on wasmtime::ValType: the engine type of each scalar type.
#[verifier::external_body]
pub(crate) fn valtype_of_ty(t: SValType) -> ValType {
    match t {
        SValType::I32 => ValType::I32,
        SValType::I64 => ValType::I64,
        SValType::F32 => ValType::F32,
        SValType::F64 => ValType::F64,
    }
}

/// Relies on wasmtime::Val: scalar values correspond one to one, floats
/// as bit patterns on both sides.
#[verifier::external_body]
pub(crate) fn val_of_sval(v: &SVal) -> Val {
    match v {
        SVal::I32(k) => Val::I32(*k),
        SVal::I64(k) => Val::I64(*k),
        SVal::F32Bits(k) => Val::F32(*k),
        SVal::F64Bits(k) => Val::F64(*k),
    }
}

/// Relies on wasmtime::Val: a scalar engine value maps to its scalar
/// value, floats as bit patterns; any non-scalar value is rejected.
#[verifier::external_body]
pub(crate) fn sval_of_val(v: &Val) -> (r: Result<SVal, Error>)
    ensures
        r matches Err(e) ==> e == Error::UnsupportedValueType,
{
    match v {
        Val::I32(k) => Ok(SVal::I32(*k)),
        Val::I64(k) => Ok(SVal::I64(*k)),
        Val::F32(k) => Ok(SVal::F32Bits(*k)),
        Val::F64(k) => Ok(SVal::F64Bits(*k)),
        _ => Err(Error::UnsupportedValueType),
    }
}

/// Relies on wasmtime::Func::call: on success exactly one value per
/// declared result slot has been written; on a trap or an engine-level
/// argument mismatch it fails, reporting why. The result buffer keeps its
/// length either way. The function must belong to the store, which every
/// caller here guarantees by construction.
#[verifier::external_body]
pub(crate) fn func_call(store: &mut Store<()>, f: &Func, args: &Vec<Val>, results: &mut Vec<Val>) -> (r:
    Result<(), Error>)
    ensures
        final(results)@.len() == old(results)@.len(),
        r matches Err(e) ==> e is Trap,
{
    f.call(&mut *store, args.as_slice(), results.as_mut_slice()).map_err(
        |e| Error::Trap(format!("{}", e)),
    )
}

/// Relies on wasmtime::Instance::exports: every export of the instance,
/// by name, in the module's export order.
#[verifier::external_body]
pub(crate) fn instance_export_list(store: &mut Store<()>, inst: &Instance) -> Vec<(String, Extern)> {
    inst.exports(&mut *store).map(|e| {
        let name = e.name().to_string();
        (name, e.into_extern())
    }).collect()
}

/// Relies on wasmtime::Extern: tells the export kinds apart; a shared
/// memory counts as a memory, and any further kind is reported as Other.
#[verifier::external_body]
pub(crate) fn extern_kind(e: &Extern) -> ExternKind {
    match e {
        Extern::Func(_) => ExternKind::Function,
        Extern::Global(_) => ExternKind::Global,
        Extern::Table(_) => ExternKind::Table,
        Extern::Memory(_) => ExternKind::Memory,
        Extern::SharedMemory(_) => ExternKind::Memory,
        _ => ExternKind::Other,
    }
}

/// Relies on wasmtime::Extern::func: the function behind the export, if
/// it is one.
#[verifier::external_body]
pub(crate) fn extern_to_func(e: &Extern) -> Option<Func> {
    match e {
        Extern::Func(f) => Some(*f),
        _ => None,
    }
}

/// Relies on wasmtime::Func::new: the stub runs the verified stub step
/// against the import's channels on every invocation, writes its results
/// back in declared order, and aborts the calling execution with an error
/// when the step fails.
#[verifier::external_body]
pub(crate) fn new_import_stub(store: &mut Store<()>, ty: &FuncType, ctx: StubCtx) -> Extern {
    Func::new(&mut *store, ty.clone(), move |_, params, results| {
        match crate::engine::stub_step(&ctx, params.to_vec()) {
            Ok(vals) => {
                if vals.len() != results.len() {
                    return Err(wasmtime::Error::msg("result arity mismatch"));
                }
                for (i, v) in vals.into_iter().enumerate() {
                    results[i] = v;
                }
                Ok(())
            },
            Err(e) => Err(wasmtime::Error::msg(e.message())),
        }
    }).into()
}

/// Relies on wasmtime::Func::new: the stub fills every declared result
/// with the zero value of its type and never contacts the external actor;
/// it is used only to satisfy the engine's linking requirements for
/// introspection-grade instances.
#[verifier::external_body]
pub(crate) fn new_dummy_func(store: &mut Store<()>, ty: &FuncType) -> Extern {
    let tys: Vec<ValType> = ty.results().collect();
    Func::new(&mut *store, ty.clone(), move |_, _, results| {
        for (i, t) in tys.iter().enumerate() {
            results[i] = match t {
                ValType::I32 => Val::I32(0),
                ValType::I64 => Val::I64(0),
                ValType::F32 => Val::F32(0),
                ValType::F64 => Val::F64(0),
                _ => return Err(wasmtime::Error::msg("unsupported value type")),
            };
        }
        Ok(())
    }).into()
}

/// Convert scalar values to engine values, in order.
pub fn vals_of_svals(vals: &Vec<SVal>) -> (r: Vec<Val>)
    ensures
        r@.len() == vals@.len(),
{
    let mut out: Vec<Val> = Vec::new();
    let mut i: usize = 0;
    while i < vals.len()
        invariant
            0 <= i <= vals@.len(),
            out@.len() == i,
        decreases vals@.len() - i,
    {
        out.push(val_of_sval(&vals[i]));
        i = i + 1;
    }
    out
}

/// Convert engine values to scalar values, in order; any non-scalar value
/// rejects the whole list rather than leaving it truncated.
pub fn svals_of_vals(vals: &Vec<Val>) -> (r: Result<Vec<SVal>, Error>)
    ensures
        r matches Ok(v) ==> v@.len() == vals@.len(),
        r matches Err(e) ==> e == Error::UnsupportedValueType,
{
    let mut out: Vec<SVal> = Vec::new();
    let mut i: usize = 0;
    while i < vals.len()
        invariant
            0 <= i <= vals@.len(),
            out@.len() == i,
        decreases vals@.len() - i,
    {
        match sval_of_val(&vals[i]) {
            Ok(v) => {
                out.push(v);
            },
            Err(e) => {
                return Err(e);
            },
        }
        i = i + 1;
    }
    Ok(out)
}

/// Convert scalar types to engine types, in order.
pub fn valtypes_of_tys(tys: &Vec<SValType>) -> (r: Vec<ValType>)
    ensures
        r@.len() == tys@.len(),
{
    let mut out: Vec<ValType> = Vec::new();
    let mut i: usize = 0;
    while i < tys.len()
        invariant
            0 <= i <= tys@.len(),
            out@.len() == i,
        decreases tys@.len() - i,
    {
        out.push(valtype_of_ty(tys[i]));
        i = i + 1;
    }
    out
}

/// Convert engine types to tags, in order.
pub fn tags_of_valtypes(ts: &Vec<ValType>) -> (r: Vec<TypeTag>)
    ensures
        r@.len() == ts@.len(),
{
    let mut out: Vec<TypeTag> = Vec::new();
    let mut i: usize = 0;
    while i < ts.len()
        invariant
            0 <= i <= ts@.len(),
            out@.len() == i,
        decreases ts@.len() - i,
    {
        out.push(tag_of_valtype(&ts[i]));
        i = i + 1;
    }
    out
}

/// One invocation of an import stub, from the engine's values in to the
/// engine's values out: convert the arguments, run the import call
/// protocol, convert the declared results back. Every failure of this one
/// call is also reported on the call's error channel before the stub
/// aborts, so the dispatcher can recover the exact error; only the five
/// errors below can occur.
pub fn stub_step(ctx: &StubCtx, params: Vec<Val>) -> (r: Result<Vec<Val>, Error>)
    ensures
        r matches Ok(v) ==> v@.len() == ctx.result_tys@.len(),
        r matches Err(e) ==> (e == Error::UnsupportedValueType || e == Error::DuplicateImportCall
            || e == Error::ChannelDisconnected || e == Error::ArityMismatch
            || e == Error::TypeMismatch),
{
    let step = stub_step_inner(ctx, params);
    match step {
        Ok(v) => Ok(v),
        Err(e) => {
            let _reported = crate::chan::chan_send(&ctx.err_tx, e.clone());
            Err(e)
        },
    }
}

/// The stub step itself, with the error not yet reported.
fn stub_step_inner(ctx: &StubCtx, params: Vec<Val>) -> (r: Result<Vec<Val>, Error>)
    ensures
        r matches Ok(v) ==> v@.len() == ctx.result_tys@.len(),
        r matches Err(e) ==> (e == Error::UnsupportedValueType || e == Error::DuplicateImportCall
            || e == Error::ChannelDisconnected || e == Error::ArityMismatch
            || e == Error::TypeMismatch),
{
    let args = match svals_of_vals(&params) {
        Ok(v) => v,
        Err(e) => {
            return Err(e);
        },
    };
    let reply = match crate::bridge::import_stub_invoke(ctx, args) {
        Ok(v) => v,
        Err(e) => {
            return Err(e);
        },
    };
    Ok(vals_of_svals(&reply))
}

/// Build one engine-linkable stub per declared import, wired so that an
/// invocation returns the zero value of every declared result without
/// contacting the external actor. Used for introspection-grade instances.
pub fn imports_valtype_to_extern(decls: &Vec<ImportDecl>, store: &mut Store<()>) -> (r: Vec<Extern>)
    ensures
        r@.len() == decls@.len(),
{
    let engine = store_engine(store);
    let mut out: Vec<Extern> = Vec::new();
    let mut i: usize = 0;
    while i < decls.len()
        invariant
            0 <= i <= decls@.len(),
            out@.len() == i,
        decreases decls@.len() - i,
    {
        let ptys = valtypes_of_tys(&decls[i].params);
        let rtys = valtypes_of_tys(&decls[i].results);
        let fty = new_func_type(&engine, &ptys, &rtys);
        out.push(new_dummy_func(store, &fty));
        i = i + 1;
    }
    out
}

/// Build one engine-linkable stub per declared import, each wired to its
/// import's reply channel, the session's notification target, and the
/// call's error channel. Every declared import must own a channel entry:
/// stubs are fully wired before instantiation, never at call time.
pub fn imports_valtype_to_extern_recv(
    decls: &Vec<ImportDecl>,
    store: &mut Store<()>,
    fchs: &crate::bridge::ChannelTable,
    session_id: i64,
    notify_tx: &crossbeam::channel::Sender<crate::bridge::ImportNotification>,
    err_tx: &crossbeam::channel::Sender<Error>,
) -> (r: Vec<Extern>)
    requires
        fchs.wf(),
        forall|i: int| 0 <= i < decls@.len() ==> fchs.spec_has((#[trigger] decls@[i]).id),
    ensures
        r@.len() == decls@.len(),
{
    let engine = store_engine(store);
    let mut out: Vec<Extern> = Vec::new();
    let mut i: usize = 0;
    while i < decls.len()
        invariant
            fchs.wf(),
            forall|j: int| 0 <= j < decls@.len() ==> fchs.spec_has((#[trigger] decls@[j]).id),
            0 <= i <= decls@.len(),
            out@.len() == i,
        decreases decls@.len() - i,
    {
        let entry = match fchs.get_entry(decls[i].id) {
            Some(e) => e,
            None => {
                proof {
                    assert(false);
                }
                return out;
            },
        };
        let ctx = crate::bridge::stub_ctx(
            session_id,
            decls[i].id,
            crate::session::copy_tys(&decls[i].results),
            entry,
            notify_tx,
            err_tx,
        );
        let ptys = valtypes_of_tys(&decls[i].params);
        let rtys = valtypes_of_tys(&decls[i].results);
        let fty = new_func_type(&engine, &ptys, &rtys);
        out.push(new_import_stub(store, &fty, ctx));
        i = i + 1;
    }
    out
}

} // verus!
