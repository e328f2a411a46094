//! The call dispatcher.
//!
//! Calls are dispatched by export name against a registered session. Every
//! call validates its arguments against the session's signature cache
//! before the engine is involved; a name absent from the cache is rejected
//! without touching the engine or the registry. Introspection-grade calls
//! use a disposable instance whose import stubs return zero values without
//! contacting the external actor; live calls wire the import stubs to the
//! session's reply channels, so module code can call back out to the
//! external actor and block for its answer.

use vstd::prelude::*;
use crossbeam::channel::Sender;
use crate::bridge::ImportNotification;
use crate::chan::{chan_send, chan_try_recv, channel_unbounded};
use crate::engine::{func_call, get_func, imports_valtype_to_extern, imports_valtype_to_extern_recv,
    instantiate, new_store, svals_of_vals, vals_of_svals};
use crate::errors::Error;
use crate::registry::Registry;
use crate::session::{copy_tys, ExportSig, ExternKind};
use crate::values::{args_ty_to_svals, decls_decoded, decls_ok, default_svals, imports_term_to_valtype,
    types_match, ImportDecl, SVal, SValType, TypeTag};

verus! {

/// The parameter types of a cached export, for marshalling a call's
/// arguments without querying the engine.
pub fn func_param_tys(reg: &Registry, tid: i64, func_name: &String) -> (r: Result<
    Vec<SValType>,
    Error,
>)
    requires
        reg.wf(),
    ensures
        !reg.spec_has(tid) <==> r == Err::<Vec<SValType>, Error>(Error::UnknownSession),
        reg.spec_has(tid) && !reg.spec_at(tid).exports.spec_has(func_name@) <==> r == Err::<
            Vec<SValType>,
            Error,
        >(Error::ExportNotFound),
        reg.spec_has(tid) && reg.spec_at(tid).exports.spec_has(func_name@) <==> (r matches Ok(v)
            && v@ == reg.spec_at(tid).exports.spec_at(func_name@).params@),
{
    let sess = match reg.get(tid) {
        Some(s) => s,
        None => {
            return Err(Error::UnknownSession);
        },
    };
    let sig = match sess.exports.lookup(func_name) {
        Some(sig) => sig,
        None => {
            return Err(Error::ExportNotFound);
        },
    };
    Ok(copy_tys(&sig.params))
}

/// The full cached signature of an export: its parameter types and result
/// types, in declared order.
pub fn get_export_signature(reg: &Registry, tid: i64, func_name: &String) -> (r: Result<
    ExportSig,
    Error,
>)
    requires
        reg.wf(),
    ensures
        !reg.spec_has(tid) <==> r == Err::<ExportSig, Error>(Error::UnknownSession),
        reg.spec_has(tid) && !reg.spec_at(tid).exports.spec_has(func_name@) <==> r == Err::<
            ExportSig,
            Error,
        >(Error::ExportNotFound),
        reg.spec_has(tid) && reg.spec_at(tid).exports.spec_has(func_name@) <==> (r matches Ok(sig)
            && sig.params@ == reg.spec_at(tid).exports.spec_at(func_name@).params@ && sig.results@
            == reg.spec_at(tid).exports.spec_at(func_name@).results@),
{
    let sess = match reg.get(tid) {
        Some(s) => s,
        None => {
            return Err(Error::UnknownSession);
        },
    };
    let sig = match sess.exports.lookup(func_name) {
        Some(sig) => sig,
        None => {
            return Err(Error::ExportNotFound);
        },
    };
    Ok(sig.clone())
}

/// Decode the caller's import declarations and fetch the named export's
/// cached parameter types, both of which a live call needs up front.
pub fn imports_with_exports_tys(
    reg: &Registry,
    tid: i64,
    func_name: &String,
    func_imports: &Vec<(i64, Vec<TypeTag>, Vec<TypeTag>)>,
) -> (r: Result<(Vec<ImportDecl>, Vec<SValType>), Error>)
    requires
        reg.wf(),
    ensures
        !decls_ok(func_imports@) <==> r == Err::<(Vec<ImportDecl>, Vec<SValType>), Error>(
            Error::UnsupportedValueType,
        ),
        decls_ok(func_imports@) && !reg.spec_has(tid) <==> r == Err::<
            (Vec<ImportDecl>, Vec<SValType>),
            Error,
        >(Error::UnknownSession),
        decls_ok(func_imports@) && reg.spec_has(tid) && !reg.spec_at(tid).exports.spec_has(
            func_name@,
        ) <==> r == Err::<(Vec<ImportDecl>, Vec<SValType>), Error>(Error::ExportNotFound),
        decls_ok(func_imports@) && reg.spec_has(tid) && reg.spec_at(tid).exports.spec_has(
            func_name@,
        ) <==> (r matches Ok(pair) && decls_decoded(func_imports@, pair.0@) && pair.1@
            == reg.spec_at(tid).exports.spec_at(func_name@).params@),
{
    let decls = match imports_term_to_valtype(func_imports) {
        Ok(v) => v,
        Err(e) => {
            return Err(e);
        },
    };
    let tys = match func_param_tys(reg, tid, func_name) {
        Ok(v) => v,
        Err(e) => {
            return Err(e);
        },
    };
    Ok((decls, tys))
}

/// The exported items of a session, each with its kind, in the module's
/// export order. A pure read of the cache snapshotted at bootstrap: the
/// result is determined by the registry state alone.
pub fn list_exports(reg: &Registry, tid: i64) -> (r: Result<Vec<(String, ExternKind)>, Error>)
    requires
        reg.wf(),
    ensures
        !reg.spec_has(tid) <==> r == Err::<Vec<(String, ExternKind)>, Error>(Error::UnknownSession),
        reg.spec_has(tid) <==> (r matches Ok(v) && v@ == reg.spec_at(tid).export_kinds@),
{
    let sess = match reg.get(tid) {
        Some(s) => s,
        None => {
            return Err(Error::UnknownSession);
        },
    };
    let mut out: Vec<(String, ExternKind)> = Vec::new();
    let mut i: usize = 0;
    while i < sess.export_kinds.len()
        invariant
            0 <= i <= sess.export_kinds@.len(),
            out@ =~= sess.export_kinds@.subrange(0, i as int),
        decreases sess.export_kinds@.len() - i,
    {
        out.push((sess.export_kinds[i].0.clone(), sess.export_kinds[i].1));
        i = i + 1;
    }
    proof {
        assert(out@ =~= sess.export_kinds@);
    }
    Ok(out)
}

/// Deliver the external actor's reply to a blocked import call: exactly
/// one reply, routed by (session id, import id) to the import's reply
/// channel.
pub fn reply_to_import(reg: &Registry, session_id: i64, import_id: i64, values: Vec<SVal>) -> (r:
    Result<(), Error>)
    requires
        reg.wf(),
    ensures
        !reg.spec_has(session_id) <==> r == Err::<(), Error>(Error::UnknownSession),
        reg.spec_has(session_id) && !reg.spec_at(session_id).fchs.spec_has(import_id) <==> r
            == Err::<(), Error>(Error::NoSuchImport),
        reg.spec_has(session_id) && reg.spec_at(session_id).fchs.spec_has(import_id) ==> (r is Ok
            || r == Err::<(), Error>(Error::SendFailed)),
{
    let sess = match reg.get(session_id) {
        Some(s) => s,
        None => {
            return Err(Error::UnknownSession);
        },
    };
    let entry = match sess.fchs.get_entry(import_id) {
        Some(e) => e,
        None => {
            return Err(Error::NoSuchImport);
        },
    };
    if chan_send(&entry.reply_tx, values) {
        Ok(())
    } else {
        Err(Error::SendFailed)
    }
}

/// Dispatch a call that must not reach any import: the disposable
/// instance's import stubs return zero values without contacting the
/// external actor. Arguments are validated against the cached signature
/// before the engine is involved; a successful result carries exactly the
/// export's declared result types.
pub fn call_export_no_imports(
    reg: &Registry,
    session_id: i64,
    func_name: &String,
    args: &Vec<SVal>,
) -> (r: Result<Vec<SVal>, Error>)
    requires
        reg.wf(),
    ensures
        !reg.spec_has(session_id) <==> r == Err::<Vec<SVal>, Error>(Error::UnknownSession),
        reg.spec_has(session_id) && !reg.spec_at(session_id).exports.spec_has(func_name@) ==> r
            == Err::<Vec<SVal>, Error>(Error::ExportNotFound),
        reg.spec_has(session_id) && reg.spec_at(session_id).exports.spec_has(func_name@) && args@.len()
            != reg.spec_at(session_id).exports.spec_at(func_name@).params@.len() ==> r == Err::<
            Vec<SVal>,
            Error,
        >(Error::ArgumentCountMismatch),
        r == Err::<Vec<SVal>, Error>(Error::ArgumentCountMismatch) ==> reg.spec_has(session_id)
            && reg.spec_at(session_id).exports.spec_has(func_name@) && args@.len()
            != reg.spec_at(session_id).exports.spec_at(func_name@).params@.len(),
        reg.spec_has(session_id) && reg.spec_at(session_id).exports.spec_has(func_name@)
            && args@.len() == reg.spec_at(session_id).exports.spec_at(func_name@).params@.len()
            && !types_match(args@, reg.spec_at(session_id).exports.spec_at(func_name@).params@)
            ==> r == Err::<Vec<SVal>, Error>(Error::TypeMismatch),
        r matches Ok(vals) ==> reg.spec_has(session_id) && reg.spec_at(session_id).exports.spec_has(
            func_name@,
        ) && types_match(args@, reg.spec_at(session_id).exports.spec_at(func_name@).params@)
            && types_match(vals@, reg.spec_at(session_id).exports.spec_at(func_name@).results@),
{
    let sess = match reg.get(session_id) {
        Some(s) => s,
        None => {
            return Err(Error::UnknownSession);
        },
    };
    let sig = match sess.exports.lookup(func_name) {
        Some(sig) => sig,
        None => {
            return Err(Error::ExportNotFound);
        },
    };
    let checked = match args_ty_to_svals(args, &sig.params) {
        Ok(v) => v,
        Err(e) => {
            return Err(e);
        },
    };
    let mut store = new_store(&sess.engine);
    let externs = imports_valtype_to_extern(&sess.imports, &mut store);
    let inst = match instantiate(&mut store, &sess.module, &externs) {
        Ok(v) => v,
        Err(e) => {
            return Err(e);
        },
    };
    let f = match get_func(&mut store, &inst, func_name) {
        Some(f) => f,
        None => {
            return Err(Error::ExportNotFound);
        },
    };
    let argvals = vals_of_svals(&checked);
    let defaults = default_svals(&sig.results);
    let mut resvals = vals_of_svals(&defaults);
    match func_call(&mut store, &f, &argvals, &mut resvals) {
        Ok(_) => {},
        Err(e) => {
            return Err(e);
        },
    }
    let rsvals = match svals_of_vals(&resvals) {
        Ok(v) => v,
        Err(e) => {
            return Err(e);
        },
    };
    match args_ty_to_svals(&rsvals, &sig.results) {
        Ok(v) => Ok(v),
        Err(e) => Err(e),
    }
}

/// Dispatch a live call: the instance's import stubs are wired to the
/// session's reply channels and to the given notification target, so the
/// export may call back out to the external actor and block for its
/// answer. A stub failure recorded on the call's private error channel is
/// reported in place of the engine's generic failure, so a duplicate
/// import call surfaces as exactly `DuplicateImportCall`. A successful
/// result carries exactly the export's declared result types.
pub fn call_export(
    reg: &Registry,
    session_id: i64,
    func_name: &String,
    args: &Vec<SVal>,
    notify_tx: &Sender<ImportNotification>,
) -> (r: Result<Vec<SVal>, Error>)
    requires
        reg.wf(),
    ensures
        !reg.spec_has(session_id) <==> r == Err::<Vec<SVal>, Error>(Error::UnknownSession),
        reg.spec_has(session_id) && !reg.spec_at(session_id).exports.spec_has(func_name@) ==> r
            == Err::<Vec<SVal>, Error>(Error::ExportNotFound),
        reg.spec_has(session_id) && reg.spec_at(session_id).exports.spec_has(func_name@) && args@.len()
            != reg.spec_at(session_id).exports.spec_at(func_name@).params@.len() ==> r == Err::<
            Vec<SVal>,
            Error,
        >(Error::ArgumentCountMismatch),
        r == Err::<Vec<SVal>, Error>(Error::ArgumentCountMismatch) ==> reg.spec_has(session_id)
            && reg.spec_at(session_id).exports.spec_has(func_name@) && args@.len()
            != reg.spec_at(session_id).exports.spec_at(func_name@).params@.len(),
        reg.spec_has(session_id) && reg.spec_at(session_id).exports.spec_has(func_name@)
            && args@.len() == reg.spec_at(session_id).exports.spec_at(func_name@).params@.len()
            && !types_match(args@, reg.spec_at(session_id).exports.spec_at(func_name@).params@)
            ==> r == Err::<Vec<SVal>, Error>(Error::TypeMismatch),
        r matches Ok(vals) ==> reg.spec_has(session_id) && reg.spec_at(session_id).exports.spec_has(
            func_name@,
        ) && types_match(args@, reg.spec_at(session_id).exports.spec_at(func_name@).params@)
            && types_match(vals@, reg.spec_at(session_id).exports.spec_at(func_name@).results@),
{
    let sess = match reg.get(session_id) {
        Some(s) => s,
        None => {
            return Err(Error::UnknownSession);
        },
    };
    let sig = match sess.exports.lookup(func_name) {
        Some(sig) => sig,
        None => {
            return Err(Error::ExportNotFound);
        },
    };
    let checked = match args_ty_to_svals(args, &sig.params) {
        Ok(v) => v,
        Err(e) => {
            return Err(e);
        },
    };
    let (err_tx, err_rx) = channel_unbounded::<Error>();
    let mut store = new_store(&sess.engine);
    proof {
        assert forall|i: int| 0 <= i < sess.imports@.len() implies sess.fchs.spec_has((
        #[trigger] sess.imports@[i]).id) by {
            assert(sess.fchs.entries@[i].0 == sess.imports@[i].id);
        }
    }
    let externs = imports_valtype_to_extern_recv(
        &sess.imports,
        &mut store,
        &sess.fchs,
        session_id,
        notify_tx,
        &err_tx,
    );
    let inst = match instantiate(&mut store, &sess.module, &externs) {
        Ok(v) => v,
        Err(e) => {
            return Err(e);
        },
    };
    let f = match get_func(&mut store, &inst, func_name) {
        Some(f) => f,
        None => {
            return Err(Error::ExportNotFound);
        },
    };
    let argvals = vals_of_svals(&checked);
    let defaults = default_svals(&sig.results);
    let mut resvals = vals_of_svals(&defaults);
    match func_call(&mut store, &f, &argvals, &mut resvals) {
        Ok(_) => {},
        Err(trap) => {
            // Only the stub's own error set is accepted from the error
            // channel; anything else keeps the engine's failure.
            match chan_try_recv(&err_rx) {
                Some(stub_error) => {
                    return match stub_error {
                        Error::DuplicateImportCall => Err(Error::DuplicateImportCall),
                        Error::ChannelDisconnected => Err(Error::ChannelDisconnected),
                        Error::ArityMismatch => Err(Error::ArityMismatch),
                        Error::TypeMismatch => Err(Error::TypeMismatch),
                        Error::UnsupportedValueType => Err(Error::UnsupportedValueType),
                        _ => Err(trap),
                    };
                },
                None => {
                    return Err(trap);
                },
            }
        },
    }
    let rsvals = match svals_of_vals(&resvals) {
        Ok(v) => v,
        Err(e) => {
            return Err(e);
        },
    };
    match args_ty_to_svals(&rsvals, &sig.results) {
        Ok(v) => Ok(v),
        Err(e) => Err(e),
    }
}

} // verus!
