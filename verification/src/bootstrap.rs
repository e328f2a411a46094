//! Session bootstrap.
//!
//! One sequence, performed once per session: validate the declarations and
//! the engine configuration, compile the module, create one reply channel
//! per declared import, instantiate with fully wired stubs, snapshot every
//! export's signature, and only then register the session. Any failure at
//! any stage aborts the whole sequence and leaves the registry exactly as
//! it was: no partial session is ever registered.

use vstd::prelude::*;
use crate::bridge::{check_decl_ids_unique, decl_ids_unique, ChannelTable};
use crate::config::{config_ok, gen_config, opt_level_ok, strategy_ok, Config};
use crate::engine::{compile_module, extern_kind, extern_to_func, func_type_of, func_type_params,
    func_type_results, imports_valtype_to_extern, instance_export_list, instantiate, new_engine,
    new_store, tags_of_valtypes};
use crate::errors::Error;
use crate::registry::Registry;
use crate::session::{ExportSig, ExternKind, Session, SigTable};
use crate::values::{decls_decoded, decls_ok, decode_tags, import_ids_unique,
    imports_term_to_valtype, TypeTag};

verus! {

/// Load a module and publish it as a session.
///
/// The stages run in order: a taken session id is rejected first; then the
/// import declarations are translated (any non-scalar tag rejects them)
/// and checked for duplicate ids; then the engine configuration is
/// validated and the engine built; then the module is compiled; then one
/// reply channel per import is created and a first instance is built with
/// fully wired stubs; then every exported function's signature is
/// snapshotted; and only then is the session registered. On any failure
/// the registry is unchanged.
///
/// A deliberate choice at the snapshot stage: a module exporting any
/// function with a non-scalar parameter or result type is rejected whole,
/// rather than cached with a signature the translator cannot express —
/// the cache must describe every export it lists, and a call to such an
/// export could never be marshalled.
pub fn load(
    reg: &mut Registry,
    session_id: i64,
    bin: &Vec<u8>,
    func_imports: &Vec<(i64, Vec<TypeTag>, Vec<TypeTag>)>,
    config: &Config,
) -> (r: Result<(), Error>)
    requires
        old(reg).wf(),
    ensures
        final(reg).wf(),
        r is Err ==> final(reg).sessions@ == old(reg).sessions@,
        old(reg).spec_has(session_id) <==> r == Err::<(), Error>(Error::AlreadyExists),
        !old(reg).spec_has(session_id) && !decls_ok(func_imports@) ==> r == Err::<(), Error>(
            Error::UnsupportedValueType,
        ),
        !old(reg).spec_has(session_id) && decls_ok(func_imports@) && !import_ids_unique(
            func_imports@,
        ) ==> (r matches Err(e) && e is InstantiationError),
        !old(reg).spec_has(session_id) && decls_ok(func_imports@) && import_ids_unique(
            func_imports@,
        ) && !strategy_ok(config.strategy@) ==> r == Err::<(), Error>(
            Error::InvalidConfig(config.strategy),
        ),
        !old(reg).spec_has(session_id) && decls_ok(func_imports@) && import_ids_unique(
            func_imports@,
        ) && strategy_ok(config.strategy@) && !opt_level_ok(config.cranelift_opt_level@) ==> r
            == Err::<(), Error>(Error::InvalidConfig(config.cranelift_opt_level)),
        r matches Err(e) ==> (e is AlreadyExists || e is UnsupportedValueType
            || e is InstantiationError || e is InvalidConfig || e is CompileError),
        r is Ok ==> forall|x: i64|
            #[trigger] final(reg).spec_has(x) <==> (old(reg).spec_has(x) || x == session_id),
        r is Ok ==> forall|x: i64|
            old(reg).spec_has(x) ==> #[trigger] final(reg).spec_at(x) == old(reg).spec_at(x),
        r is Ok ==> decls_decoded(func_imports@, final(reg).spec_at(session_id).imports@),
        r is Ok ==> final(reg).spec_at(session_id).wf(),
{
    match reg.get(session_id) {
        Some(_) => {
            return Err(Error::AlreadyExists);
        },
        None => {},
    }
    let decls = match imports_term_to_valtype(func_imports) {
        Ok(v) => v,
        Err(e) => {
            return Err(e);
        },
    };
    if !check_decl_ids_unique(&decls) {
        return Err(Error::InstantiationError("duplicate import id".to_owned()));
    }
    proof {
        assert forall|a: int, b: int| 0 <= a < b < func_imports@.len() implies (
        #[trigger] func_imports@[a]).0 != (#[trigger] func_imports@[b]).0 by {
            assert(decls@[a].id == func_imports@[a].0);
            assert(decls@[b].id == func_imports@[b].0);
            assert(decls@[a].id != decls@[b].id);
        }
        assert(import_ids_unique(func_imports@));
    }
    let engcfg = match gen_config(config) {
        Ok(v) => v,
        Err(e) => {
            return Err(e);
        },
    };
    let engine = match new_engine(&engcfg) {
        Ok(v) => v,
        Err(e) => {
            return Err(e);
        },
    };
    let module = match compile_module(&engine, bin) {
        Ok(v) => v,
        Err(e) => {
            return Err(e);
        },
    };
    let fchs = ChannelTable::create(&decls);
    let mut store = new_store(&engine);
    let externs = imports_valtype_to_extern(&decls, &mut store);
    let inst = match instantiate(&mut store, &module, &externs) {
        Ok(v) => v,
        Err(e) => {
            return Err(e);
        },
    };
    let raw = instance_export_list(&mut store, &inst);
    let mut sigs = SigTable::new();
    let mut kinds: Vec<(String, ExternKind)> = Vec::new();
    let mut i: usize = 0;
    while i < raw.len()
        invariant
            reg.wf(),
            *reg == *old(reg),
            !old(reg).spec_has(session_id),
            decls_ok(func_imports@),
            import_ids_unique(func_imports@),
            config_ok(*config),
            decls_decoded(func_imports@, decls@),
            decl_ids_unique(decls@),
            fchs.wf(),
            fchs.entries@.len() == decls@.len(),
            forall|j: int| 0 <= j < decls@.len() ==> (#[trigger] fchs.entries@[j]).0 == decls@[j].id,
            sigs.wf(),
            0 <= i <= raw@.len(),
        decreases raw@.len() - i,
    {
        kinds.push((raw[i].0.clone(), extern_kind(&raw[i].1)));
        match extern_to_func(&raw[i].1) {
            Some(f) => {
                let fty = func_type_of(&store, &f);
                let ptags = tags_of_valtypes(&func_type_params(&fty));
                let rtags = tags_of_valtypes(&func_type_results(&fty));
                let params = match decode_tags(&ptags) {
                    Ok(v) => v,
                    Err(e) => {
                        return Err(e);
                    },
                };
                let results = match decode_tags(&rtags) {
                    Ok(v) => v,
                    Err(e) => {
                        return Err(e);
                    },
                };
                sigs.put(raw[i].0.clone(), ExportSig { params, results });
            },
            None => {},
        }
        i = i + 1;
    }
    let sess = Session::new(module, engine, decls, fchs, sigs, kinds);
    match reg.insert(session_id, sess) {
        Ok(_) => Ok(()),
        Err(e) => {
            proof {
                assert(false);
            }
            Err(e)
        },
    }
}

} // verus!
