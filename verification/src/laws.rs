//! Laws of the session layer, stated on their own.
//!
//! Each proof function here states a property that spans more than one
//! operation, over the same spec functions the operations' contracts use.

use vstd::prelude::*;
use crate::registry::Registry;
use crate::session::ExternKind;
use crate::values::{spec_decode, spec_encode, types_match, SVal, SValType, TypeTag};

verus! {

/// Encoding any scalar type to its tag and decoding the tag back yields
/// the original type: the type descriptor translator loses nothing on the
/// four scalar kinds.
pub proof fn lemma_tag_round_trip(t: SValType)
    ensures
        spec_decode(spec_encode(t)) == Some(t),
{
}

/// Decoding is injective where it succeeds: any tag that decodes to a
/// scalar type is exactly that type's encoding.
pub proof fn lemma_decode_inverts_encode(tag: TypeTag, t: SValType)
    requires
        spec_decode(tag) == Some(t),
    ensures
        spec_encode(t) == tag,
{
}

/// For any registered session and any successful call on one of its
/// cached exports, the results carry exactly the export's declared result
/// types — in particular, their count equals the declared result count.
/// The dispatcher's contracts establish the premises for every successful
/// call, with or without imports.
pub proof fn lemma_call_results_match_declared(
    reg: Registry,
    sid: i64,
    name: Seq<char>,
    vals: Seq<SVal>,
)
    requires
        reg.spec_has(sid),
        reg.spec_at(sid).exports.spec_has(name),
        types_match(vals, reg.spec_at(sid).exports.spec_at(name).results@),
    ensures
        vals.len() == reg.spec_at(sid).exports.spec_at(name).results@.len(),
{
}

/// Listing a session's exports is a pure read of the registry: two calls
/// on the same registry state, without intervening mutation, return
/// identical lists. The premises are exactly what `list_exports` ensures
/// of each successful call.
pub proof fn lemma_list_exports_idempotent(
    reg: Registry,
    sid: i64,
    first: Seq<(String, ExternKind)>,
    second: Seq<(String, ExternKind)>,
)
    requires
        reg.spec_has(sid),
        first == reg.spec_at(sid).export_kinds@,
        second == reg.spec_at(sid).export_kinds@,
    ensures
        first == second,
{
}

} // verus!
