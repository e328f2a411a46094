//! Specification helpers for association lists.
//!
//! The registry, the reply-channel table and the export signature cache are
//! all small association lists: a vector of key/value pairs whose keys never
//! repeat. These spec functions give them a common mathematical reading.

use vstd::prelude::*;

verus! {

/// Whether an id-keyed association list holds an entry for `id`.
pub open spec fn assoc_has<V>(s: Seq<(i64, V)>, id: i64) -> bool {
    exists|i: int| 0 <= i < s.len() && (#[trigger] s[i]).0 == id
}

/// The index of the entry for `id`.
pub open spec fn assoc_idx<V>(s: Seq<(i64, V)>, id: i64) -> int {
    choose|i: int| 0 <= i < s.len() && (#[trigger] s[i]).0 == id
}

/// The value stored under `id`.
pub open spec fn assoc_at<V>(s: Seq<(i64, V)>, id: i64) -> V
    recommends
        assoc_has(s, id),
{
    s[assoc_idx(s, id)].1
}

/// No id occurs twice.
pub open spec fn assoc_unique<V>(s: Seq<(i64, V)>) -> bool {
    forall|i: int, j: int|
        0 <= i < j < s.len() ==> (#[trigger] s[i]).0 != (#[trigger] s[j]).0
}

/// In a duplicate-free list, the entry found at any index with the right id
/// is the entry the association reads off.
pub proof fn lemma_assoc_at_index<V>(s: Seq<(i64, V)>, id: i64, i: int)
    requires
        assoc_unique(s),
        0 <= i < s.len(),
        s[i].0 == id,
    ensures
        assoc_has(s, id),
        assoc_idx(s, id) == i,
        assoc_at(s, id) == s[i].1,
{
    assert(assoc_has(s, id));
    let j = assoc_idx(s, id);
    assert(0 <= j < s.len() && s[j].0 == id);
    if i < j {
        assert(s[i].0 != s[j].0);
    } else if j < i {
        assert(s[j].0 != s[i].0);
    }
}

/// Whether a name-keyed association list holds an entry for `name`.
pub open spec fn sassoc_has<V>(s: Seq<(String, V)>, name: Seq<char>) -> bool {
    exists|i: int| 0 <= i < s.len() && (#[trigger] s[i]).0@ == name
}

/// The index of the entry for `name`.
pub open spec fn sassoc_idx<V>(s: Seq<(String, V)>, name: Seq<char>) -> int {
    choose|i: int| 0 <= i < s.len() && (#[trigger] s[i]).0@ == name
}

/// The value stored under `name`.
pub open spec fn sassoc_at<V>(s: Seq<(String, V)>, name: Seq<char>) -> V
    recommends
        sassoc_has(s, name),
{
    s[sassoc_idx(s, name)].1
}

/// No name occurs twice.
pub open spec fn sassoc_unique<V>(s: Seq<(String, V)>) -> bool {
    forall|i: int, j: int|
        0 <= i < j < s.len() ==> (#[trigger] s[i]).0@ != (#[trigger] s[j]).0@
}

/// In a duplicate-free list, the entry found at any index with the right
/// name is the entry the association reads off.
pub proof fn lemma_sassoc_at_index<V>(s: Seq<(String, V)>, name: Seq<char>, i: int)
    requires
        sassoc_unique(s),
        0 <= i < s.len(),
        s[i].0@ == name,
    ensures
        sassoc_has(s, name),
        sassoc_idx(s, name) == i,
        sassoc_at(s, name) == s[i].1,
{
    assert(sassoc_has(s, name));
    let j = sassoc_idx(s, name);
    assert(0 <= j < s.len() && s[j].0@ == name);
    if i < j {
        assert(s[i].0@ != s[j].0@);
    } else if j < i {
        assert(s[j].0@ != s[i].0@);
    }
}

} // verus!
