//! Scalar values and the type descriptor translator.
//!
//! The external actor names value types with language-neutral tags. The
//! session layer works only with the four scalar kinds; any other tag is
//! rejected with an explicit error rather than silently dropped. Floats
//! cross the boundary as raw bit patterns, never as native float values.

use vstd::prelude::*;
use crate::errors::Error;

verus! {

/// A language-neutral value-type tag, as the external actor writes it.
/// Only the four scalar tags are accepted by the translator; the others
/// exist so that non-scalar engine types can be named in rejections.
#[derive(Clone, Copy, Debug, PartialEq, Eq, Structural)]
pub enum TypeTag {
    I32,
    I64,
    F32,
    F64,
    V128,
    ExternRef,
    FuncRef,
}

/// One of the four scalar value types the bridge supports.
#[derive(Clone, Copy, Debug, PartialEq, Eq, Structural)]
pub enum SValType {
    I32,
    I64,
    F32,
    F64,
}

/// A scalar value. Floats are carried as their IEEE-754 bit patterns; the
/// boundary layer converts bits to native floats and back.
#[derive(Clone, Copy, Debug, PartialEq, Eq, Structural)]
pub enum SVal {
    I32(i32),
    I64(i64),
    F32Bits(u32),
    F64Bits(u64),
}

/// The scalar type of a scalar value.
pub open spec fn spec_ty_of(v: SVal) -> SValType {
    match v {
        SVal::I32(_) => SValType::I32,
        SVal::I64(_) => SValType::I64,
        SVal::F32Bits(_) => SValType::F32,
        SVal::F64Bits(_) => SValType::F64,
    }
}

impl SVal {
    /// The scalar type of this value.
    pub fn ty(&self) -> (t: SValType)
        ensures
            t == spec_ty_of(*self),
    {
        match self {
            SVal::I32(_) => SValType::I32,
            SVal::I64(_) => SValType::I64,
            SVal::F32Bits(_) => SValType::F32,
            SVal::F64Bits(_) => SValType::F64,
        }
    }
}

/// What the translator makes of a tag: a scalar type for the four scalar
/// tags, nothing for every other tag.
pub open spec fn spec_decode(t: TypeTag) -> Option<SValType> {
    match t {
        TypeTag::I32 => Some(SValType::I32),
        TypeTag::I64 => Some(SValType::I64),
        TypeTag::F32 => Some(SValType::F32),
        TypeTag::F64 => Some(SValType::F64),
        _ => None,
    }
}

/// The tag that names a scalar type.
pub open spec fn spec_encode(t: SValType) -> TypeTag {
    match t {
        SValType::I32 => TypeTag::I32,
        SValType::I64 => TypeTag::I64,
        SValType::F32 => TypeTag::F32,
        SValType::F64 => TypeTag::F64,
    }
}

/// Translate a tag to a scalar type; a non-scalar tag is rejected.
pub fn decode_tag(t: TypeTag) -> (r: Result<SValType, Error>)
    ensures
        spec_decode(t) matches Some(v) ==> r == Ok::<SValType, Error>(v),
        spec_decode(t) is None <==> r == Err::<SValType, Error>(Error::UnsupportedValueType),
{
    match t {
        TypeTag::I32 => Ok(SValType::I32),
        TypeTag::I64 => Ok(SValType::I64),
        TypeTag::F32 => Ok(SValType::F32),
        TypeTag::F64 => Ok(SValType::F64),
        _ => Err(Error::UnsupportedValueType),
    }
}

/// Translate a scalar type back to its tag.
pub fn encode_ty(t: SValType) -> (r: TypeTag)
    ensures
        r == spec_encode(t),
{
    match t {
        SValType::I32 => TypeTag::I32,
        SValType::I64 => TypeTag::I64,
        SValType::F32 => TypeTag::F32,
        SValType::F64 => TypeTag::F64,
    }
}

/// The zero value of a scalar type, used to pre-fill result slots.
pub open spec fn spec_default_sval(t: SValType) -> SVal {
    match t {
        SValType::I32 => SVal::I32(0),
        SValType::I64 => SVal::I64(0),
        SValType::F32 => SVal::F32Bits(0),
        SValType::F64 => SVal::F64Bits(0),
    }
}

/// The zero value of a scalar type.
pub fn default_sval(t: SValType) -> (r: SVal)
    ensures
        r == spec_default_sval(t),
        spec_ty_of(r) == t,
{
    match t {
        SValType::I32 => SVal::I32(0),
        SValType::I64 => SVal::I64(0),
        SValType::F32 => SVal::F32Bits(0),
        SValType::F64 => SVal::F64Bits(0),
    }
}

/// One zero value for each type in the list, in order.
pub fn default_svals(tys: &Vec<SValType>) -> (r: Vec<SVal>)
    ensures
        r@.len() == tys@.len(),
        forall|i: int| 0 <= i < r@.len() ==> r@[i] == spec_default_sval(tys@[i]),
{
    let mut out: Vec<SVal> = Vec::new();
    let mut i: usize = 0;
    while i < tys.len()
        invariant
            0 <= i <= tys@.len(),
            out@.len() == i,
            forall|j: int| 0 <= j < i ==> out@[j] == spec_default_sval(tys@[j]),
        decreases tys@.len() - i,
    {
        out.push(default_sval(tys[i]));
        i = i + 1;
    }
    out
}

/// Whether a value list agrees, slot by slot, with a type list.
pub open spec fn types_match(vals: Seq<SVal>, tys: Seq<SValType>) -> bool {
    &&& vals.len() == tys.len()
    &&& forall|i: int| 0 <= i < vals.len() ==> spec_ty_of(vals[i]) == tys[i]
}

/// Check a caller's argument list against an export's declared parameter
/// types: the counts must agree and each argument must carry the declared
/// type. On success the arguments are returned unchanged, in order.
pub fn args_ty_to_svals(args: &Vec<SVal>, tys: &Vec<SValType>) -> (r: Result<Vec<SVal>, Error>)
    ensures
        args@.len() != tys@.len() <==> r == Err::<Vec<SVal>, Error>(Error::ArgumentCountMismatch),
        args@.len() == tys@.len() && !types_match(args@, tys@) <==> r == Err::<Vec<SVal>, Error>(
            Error::TypeMismatch,
        ),
        types_match(args@, tys@) <==> (r matches Ok(v) && v@ == args@),
{
    if args.len() != tys.len() {
        return Err(Error::ArgumentCountMismatch);
    }
    let mut out: Vec<SVal> = Vec::new();
    let mut i: usize = 0;
    while i < args.len()
        invariant
            args@.len() == tys@.len(),
            0 <= i <= args@.len(),
            out@ =~= args@.subrange(0, i as int),
            forall|j: int| 0 <= j < i ==> spec_ty_of(args@[j]) == tys@[j],
        decreases args@.len() - i,
    {
        if args[i].ty() != tys[i] {
            return Err(Error::TypeMismatch);
        }
        out.push(args[i]);
        i = i + 1;
    }
    proof {
        assert(out@ =~= args@);
    }
    Ok(out)
}

/// Check a reply against an import's declared result types. A reply with
/// fewer or more values than declared violates the call contract (exactly
/// as many values as declared must be written back); a value of the wrong
/// type in a declared slot is likewise rejected.
pub fn marshal_reply(tys: &Vec<SValType>, reply: &Vec<SVal>) -> (r: Result<Vec<SVal>, Error>)
    ensures
        reply@.len() != tys@.len() <==> r == Err::<Vec<SVal>, Error>(Error::ArityMismatch),
        reply@.len() == tys@.len() && !types_match(reply@, tys@) <==> r == Err::<Vec<SVal>, Error>(
            Error::TypeMismatch,
        ),
        types_match(reply@, tys@) <==> (r matches Ok(v) && v@ == reply@),
{
    if reply.len() != tys.len() {
        return Err(Error::ArityMismatch);
    }
    let mut out: Vec<SVal> = Vec::new();
    let mut i: usize = 0;
    while i < reply.len()
        invariant
            reply@.len() == tys@.len(),
            0 <= i <= reply@.len(),
            out@ =~= reply@.subrange(0, i as int),
            forall|j: int| 0 <= j < i ==> spec_ty_of(reply@[j]) == tys@[j],
        decreases reply@.len() - i,
    {
        if reply[i].ty() != tys[i] {
            return Err(Error::TypeMismatch);
        }
        out.push(reply[i]);
        i = i + 1;
    }
    proof {
        assert(out@ =~= reply@);
    }
    Ok(out)
}

/// Whether every tag in the list is scalar.
pub open spec fn tags_ok(tags: Seq<TypeTag>) -> bool {
    forall|i: int| 0 <= i < tags.len() ==> spec_decode(tags[i]) is Some
}

/// Translate a list of tags to scalar types; any non-scalar tag aborts the
/// whole translation.
pub fn decode_tags(tags: &Vec<TypeTag>) -> (r: Result<Vec<SValType>, Error>)
    ensures
        tags_ok(tags@) <==> (r matches Ok(v) && v@.len() == tags@.len() && (forall|i: int|
            0 <= i < tags@.len() ==> spec_decode(tags@[i]) == Some(v@[i]))),
        !tags_ok(tags@) <==> r == Err::<Vec<SValType>, Error>(Error::UnsupportedValueType),
{
    let mut out: Vec<SValType> = Vec::new();
    let mut i: usize = 0;
    while i < tags.len()
        invariant
            0 <= i <= tags@.len(),
            out@.len() == i,
            forall|j: int| 0 <= j < i ==> spec_decode(tags@[j]) == Some(out@[j]),
        decreases tags@.len() - i,
    {
        match decode_tag(tags[i]) {
            Ok(t) => {
                out.push(t);
            },
            Err(e) => {
                return Err(e);
            },
        }
        i = i + 1;
    }
    Ok(out)
}

/// Validate a list of tagged scalar values, as they arrive in a reply from
/// the external actor: every tag must be scalar and every value must carry
/// the type its tag names. On success the bare values are returned in
/// order. A non-scalar tag is an error for the whole list — the offending
/// value is never dropped to leave a truncated list.
pub fn args_to_svals(args: &Vec<(SVal, TypeTag)>) -> (r: Result<Vec<SVal>, Error>)
    ensures
        (exists|i: int|
            0 <= i < args@.len() && spec_decode(args@[i].1) is None) <==> r == Err::<
            Vec<SVal>,
            Error,
        >(Error::UnsupportedValueType),
        (forall|i: int| 0 <= i < args@.len() ==> spec_decode(args@[i].1) is Some) && (exists|i: int|
            0 <= i < args@.len() && spec_decode(args@[i].1) != Some(spec_ty_of(args@[i].0)))
            <==> r == Err::<Vec<SVal>, Error>(Error::TypeMismatch),
        (forall|i: int|
            0 <= i < args@.len() ==> spec_decode(args@[i].1) == Some(spec_ty_of(args@[i].0)))
            <==> (r matches Ok(v) && v@.len() == args@.len() && (forall|i: int|
            0 <= i < args@.len() ==> v@[i] == args@[i].0)),
{
    let mut i: usize = 0;
    while i < args.len()
        invariant
            0 <= i <= args@.len(),
            forall|j: int| 0 <= j < i ==> spec_decode(args@[j].1) is Some,
        decreases args@.len() - i,
    {
        match decode_tag(args[i].1) {
            Ok(_) => {},
            Err(e) => {
                return Err(e);
            },
        }
        i = i + 1;
    }
    let mut out: Vec<SVal> = Vec::new();
    let mut k: usize = 0;
    while k < args.len()
        invariant
            0 <= k <= args@.len(),
            out@.len() == k,
            forall|j: int| 0 <= j < args@.len() ==> spec_decode(args@[j].1) is Some,
            forall|j: int| 0 <= j < k ==> spec_decode(args@[j].1) == Some(spec_ty_of(args@[j].0)),
            forall|j: int| 0 <= j < k ==> out@[j] == args@[j].0,
        decreases args@.len() - k,
    {
        let (v, tag) = args[k];
        let want = match decode_tag(tag) {
            Ok(t) => t,
            Err(_) => {
                proof {
                    assert(false);
                }
                return Err(Error::UnsupportedValueType);
            },
        };
        if v.ty() != want {
            return Err(Error::TypeMismatch);
        }
        out.push(v);
        k = k + 1;
    }
    Ok(out)
}

/// One import declaration: the routing id the external actor chose for the
/// import, its parameter types, and its result types. Declarations are
/// supplied at bootstrap and fixed for the session's lifetime.
#[derive(Debug, PartialEq)]
pub struct ImportDecl {
    pub id: i64,
    pub params: Vec<SValType>,
    pub results: Vec<SValType>,
}

/// Translate declared imports from tag form to scalar-type form. Any
/// non-scalar tag in any parameter or result list rejects the whole
/// declaration list.
pub open spec fn decls_ok(decls: Seq<(i64, Vec<TypeTag>, Vec<TypeTag>)>) -> bool {
    forall|i: int| 0 <= i < decls.len() ==> tags_ok(decls[i].1@) && tags_ok(decls[i].2@)
}

/// Whether a translated declaration list corresponds, entry by entry, to
/// the tagged declaration list it came from.
pub open spec fn decls_decoded(
    decls: Seq<(i64, Vec<TypeTag>, Vec<TypeTag>)>,
    out: Seq<ImportDecl>,
) -> bool {
    &&& out.len() == decls.len()
    &&& forall|i: int|
        0 <= i < decls.len() ==> {
            &&& (#[trigger] out[i]).id == decls[i].0
            &&& out[i].params@.len() == decls[i].1@.len()
            &&& out[i].results@.len() == decls[i].2@.len()
            &&& forall|j: int|
                0 <= j < decls[i].1@.len() ==> spec_decode(decls[i].1@[j]) == Some(
                    out[i].params@[j],
                )
            &&& forall|j: int|
                0 <= j < decls[i].2@.len() ==> spec_decode(decls[i].2@[j]) == Some(
                    out[i].results@[j],
                )
        }
}

/// Whether the external actor's declarations use each import id once.
pub open spec fn import_ids_unique(decls: Seq<(i64, Vec<TypeTag>, Vec<TypeTag>)>) -> bool {
    forall|i: int, j: int|
        0 <= i < j < decls.len() ==> (#[trigger] decls[i]).0 != (#[trigger] decls[j]).0
}

/// Translate the external actor's import declarations into scalar types.
pub fn imports_term_to_valtype(decls: &Vec<(i64, Vec<TypeTag>, Vec<TypeTag>)>) -> (r: Result<
    Vec<ImportDecl>,
    Error,
>)
    ensures
        decls_ok(decls@) <==> (r matches Ok(v) && decls_decoded(decls@, v@)),
        !decls_ok(decls@) <==> r == Err::<Vec<ImportDecl>, Error>(Error::UnsupportedValueType),
{
    let mut out: Vec<ImportDecl> = Vec::new();
    let mut i: usize = 0;
    while i < decls.len()
        invariant
            0 <= i <= decls@.len(),
            out@.len() == i,
            forall|j: int| 0 <= j < i ==> tags_ok(decls@[j].1@) && tags_ok(decls@[j].2@),
            forall|j: int|
                0 <= j < i ==> {
                    &&& (#[trigger] out@[j]).id == decls@[j].0
                    &&& out@[j].params@.len() == decls@[j].1@.len()
                    &&& out@[j].results@.len() == decls@[j].2@.len()
                    &&& forall|k: int|
                        0 <= k < decls@[j].1@.len() ==> spec_decode(decls@[j].1@[k]) == Some(
                            out@[j].params@[k],
                        )
                    &&& forall|k: int|
                        0 <= k < decls@[j].2@.len() ==> spec_decode(decls@[j].2@[k]) == Some(
                            out@[j].results@[k],
                        )
                },
        decreases decls@.len() - i,
    {
        let (id, ptags, rtags) = &decls[i];
        let params = match decode_tags(ptags) {
            Ok(v) => v,
            Err(e) => {
                return Err(e);
            },
        };
        let results = match decode_tags(rtags) {
            Ok(v) => v,
            Err(e) => {
                return Err(e);
            },
        };
        out.push(ImportDecl { id: *id, params, results });
        i = i + 1;
    }
    Ok(out)
}

} // verus!
