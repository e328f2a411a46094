//! Sessions and the export signature cache.
//!
//! A session owns its compiled module, its engine, its fixed import
//! declarations, one reply channel per import id, and a cache of every
//! exported function's parameter and result types. The cache is populated
//! at bootstrap, before the session is published, so call-by-name dispatch
//! never queries the engine for types again.

use vstd::prelude::*;
use vstd::pervasive::VecAdditionalExecFns;
use crate::assoc::{lemma_sassoc_at_index, sassoc_at, sassoc_has, sassoc_idx, sassoc_unique};
use crate::bridge::{decl_ids_unique, ChannelTable};
use crate::values::{ImportDecl, SValType};

verus! {

/// The kind of an exported item. `Other` stands for any kind the engine
/// may expose beyond the four core ones; it never occurs for core modules.
#[derive(Clone, Copy, Debug, PartialEq, Eq, Structural)]
pub enum ExternKind {
    Function,
    Global,
    Table,
    Memory,
    Other,
}

/// Copy a list of scalar types.
pub fn copy_tys(tys: &Vec<SValType>) -> (r: Vec<SValType>)
    ensures
        r@ == tys@,
{
    let mut out: Vec<SValType> = Vec::new();
    let mut i: usize = 0;
    while i < tys.len()
        invariant
            0 <= i <= tys@.len(),
            out@ =~= tys@.subrange(0, i as int),
        decreases tys@.len() - i,
    {
        out.push(tys[i]);
        i = i + 1;
    }
    proof {
        assert(out@ =~= tys@);
    }
    out
}

/// One cached export signature: the export's parameter types and result
/// types, in declared order.
#[derive(Debug, PartialEq)]
pub struct ExportSig {
    pub params: Vec<SValType>,
    pub results: Vec<SValType>,
}

impl Clone for ExportSig {
    fn clone(&self) -> (r: Self)
        ensures
            r.params@ == self.params@,
            r.results@ == self.results@,
    {
        ExportSig { params: copy_tys(&self.params), results: copy_tys(&self.results) }
    }
}

/// The signature cache: export name to signature, each name at most once.
pub struct SigTable {
    pub entries: Vec<(String, ExportSig)>,
}

impl SigTable {
    /// No export name occurs twice.
    pub open spec fn wf(&self) -> bool {
        sassoc_unique(self.entries@)
    }

    /// Whether the cache knows the named export.
    pub open spec fn spec_has(&self, name: Seq<char>) -> bool {
        sassoc_has(self.entries@, name)
    }

    /// The cached signature of the named export.
    pub open spec fn spec_at(&self, name: Seq<char>) -> ExportSig {
        sassoc_at(self.entries@, name)
    }

    /// An empty cache.
    pub fn new() -> (r: SigTable)
        ensures
            r.wf(),
            r.entries@.len() == 0,
            forall|n: Seq<char>| !r.spec_has(n),
    {
        SigTable { entries: Vec::new() }
    }

    /// Look a signature up by export name.
    pub fn lookup(&self, name: &String) -> (r: Option<&ExportSig>)
        requires
            self.wf(),
        ensures
            match r {
                Some(sig) => self.spec_has(name@) && *sig == self.spec_at(name@),
                None => !self.spec_has(name@),
            },
    {
        let mut i: usize = 0;
        while i < self.entries.len()
            invariant
                self.wf(),
                0 <= i <= self.entries@.len(),
                forall|j: int| 0 <= j < i ==> (#[trigger] self.entries@[j]).0@ != name@,
            decreases self.entries@.len() - i,
        {
            if crate::config::str_eq(self.entries[i].0.as_str(), name.as_str()) {
                proof {
                    lemma_sassoc_at_index(self.entries@, name@, i as int);
                }
                return Some(&self.entries[i].1);
            }
            i = i + 1;
        }
        None
    }

    /// Record the named export's signature, replacing any earlier entry
    /// under the same name.
    pub fn put(&mut self, name: String, sig: ExportSig)
        requires
            old(self).wf(),
        ensures
            final(self).wf(),
            forall|n: Seq<char>|
                #[trigger] final(self).spec_has(n) <==> (old(self).spec_has(n) || n == name@),
            final(self).spec_at(name@) == sig,
            forall|n: Seq<char>|
                old(self).spec_has(n) && n != name@ ==> #[trigger] final(self).spec_at(n) == old(
                    self,
                ).spec_at(n),
    {
        let ghost gname: Seq<char> = name@;
        let mut i: usize = 0;
        while i < self.entries.len()
            invariant
                *self == *old(self),
                self.wf(),
                name@ == gname,
                0 <= i <= self.entries@.len(),
                forall|j: int| 0 <= j < i ==> (#[trigger] self.entries@[j]).0@ != gname,
            decreases self.entries@.len() - i,
        {
            if crate::config::str_eq(self.entries[i].0.as_str(), name.as_str()) {
                proof {
                    lemma_sassoc_at_index(self.entries@, gname, i as int);
                }
                self.entries.set(i, (name, sig));
                proof {
                    let news = self.entries@;
                    let olds = old(self).entries@;
                    assert(news.len() == olds.len());
                    assert(news[i as int].0@ == gname && olds[i as int].0@ == gname);
                    assert forall|a: int| 0 <= a < news.len() implies (#[trigger] news[a]).0@
                        == olds[a].0@ by {}
                    assert forall|a: int, b: int| 0 <= a < b < news.len() implies (
                    #[trigger] news[a]).0@ != (#[trigger] news[b]).0@ by {
                        assert(olds[a].0@ != olds[b].0@);
                    }
                    assert forall|n: Seq<char>| #[trigger]
                        self.spec_has(n) <==> (old(self).spec_has(n) || n == gname) by {
                        if self.spec_has(n) {
                            let k = sassoc_idx(news, n);
                            assert(olds[k].0@ == news[k].0@);
                        }
                        if old(self).spec_has(n) {
                            let k = sassoc_idx(olds, n);
                            assert(news[k].0@ == olds[k].0@);
                        }
                    }
                    lemma_sassoc_at_index(news, gname, i as int);
                    assert forall|n: Seq<char>|
                        old(self).spec_has(n) && n != gname implies #[trigger] self.spec_at(n)
                        == old(self).spec_at(n) by {
                        let k = sassoc_idx(olds, n);
                        assert(olds[k].0@ == n);
                        assert(k != i);
                        assert(news[k].0@ == n);
                        lemma_sassoc_at_index(news, n, k);
                        lemma_sassoc_at_index(olds, n, k);
                    }
                }
                return ;
            }
            i = i + 1;
        }
        self.entries.push((name, sig));
        proof {
            let news = self.entries@;
            let olds = old(self).entries@;
            assert(news.len() == olds.len() + 1);
            assert(news[olds.len() as int].0@ == gname);
            assert forall|a: int, b: int| 0 <= a < b < news.len() implies (#[trigger] news[a]).0@
                != (#[trigger] news[b]).0@ by {
                if b < olds.len() {
                    assert(olds[a].0@ != olds[b].0@);
                } else {
                    assert(news[a].0@ == olds[a].0@);
                    assert(olds[a].0@ != gname);
                }
            }
            assert forall|n: Seq<char>| #[trigger]
                self.spec_has(n) <==> (old(self).spec_has(n) || n == gname) by {
                if self.spec_has(n) {
                    let k = sassoc_idx(news, n);
                    if k < olds.len() {
                        assert(olds[k].0@ == news[k].0@);
                    }
                }
                if old(self).spec_has(n) {
                    let k = sassoc_idx(olds, n);
                    assert(news[k].0@ == olds[k].0@);
                }
            }
            lemma_sassoc_at_index(news, gname, olds.len() as int);
            assert forall|n: Seq<char>|
                old(self).spec_has(n) && n != gname implies #[trigger] self.spec_at(n)
                == old(self).spec_at(n) by {
                let k = sassoc_idx(olds, n);
                assert(olds[k].0@ == n);
                assert(news[k].0@ == n);
                lemma_sassoc_at_index(news, n, k);
                lemma_sassoc_at_index(olds, n, k);
            }
        }
    }
}

/// One loaded module and its wiring: the compiled module, the engine it
/// was compiled for, the fixed import declarations, one reply channel per
/// import id, the export signature cache, and the list of exported items
/// by kind.
///
/// The fields are public for the library's own spec functions, but a
/// session's parts belong together: dispatch builds every store from this
/// session's engine and calls only functions of instances built on it.
/// The engine panics when handed an object owned by another store or
/// engine, so a session must only be assembled by bootstrap — never from
/// the parts of different sessions.
pub struct Session {
    pub module: wasmtime::Module,
    pub engine: wasmtime::Engine,
    pub imports: Vec<ImportDecl>,
    pub fchs: ChannelTable,
    pub exports: SigTable,
    pub export_kinds: Vec<(String, ExternKind)>,
}

impl Session {
    /// A session's internal consistency: import ids are unique, the reply
    /// channel table has exactly one entry per declared import, in
    /// declaration order, and the signature cache maps each name once.
    pub open spec fn wf(&self) -> bool {
        &&& decl_ids_unique(self.imports@)
        &&& self.fchs.wf()
        &&& self.fchs.entries@.len() == self.imports@.len()
        &&& forall|i: int|
            0 <= i < self.imports@.len() ==> (#[trigger] self.fchs.entries@[i]).0
                == self.imports@[i].id
        &&& self.exports.wf()
    }

    /// Assemble a session from its parts. The parts must already be
    /// coherent — unique import ids, one channel entry per declared
    /// import in declaration order, a duplicate-free signature cache —
    /// so every session built here is well-formed.
    pub fn new(
        module: wasmtime::Module,
        engine: wasmtime::Engine,
        imports: Vec<ImportDecl>,
        fchs: ChannelTable,
        exports: SigTable,
        export_kinds: Vec<(String, ExternKind)>,
    ) -> (r: Session)
        requires
            decl_ids_unique(imports@),
            fchs.wf(),
            fchs.entries@.len() == imports@.len(),
            forall|i: int|
                0 <= i < imports@.len() ==> (#[trigger] fchs.entries@[i]).0 == imports@[i].id,
            exports.wf(),
        ensures
            r.wf(),
            r.module == module,
            r.engine == engine,
            r.imports == imports,
            r.fchs == fchs,
            r.exports == exports,
            r.export_kinds == export_kinds,
    {
        Session { module, engine, imports, fchs, exports, export_kinds }
    }
}

} // verus!
