//! The call bridge: reply channels and the import-stub protocol.
//!
//! Each declared import owns one reply channel, created at bootstrap and
//! never recreated. A stub invocation notifies the external actor and then
//! blocks on its import's reply channel until the actor answers. At most
//! one call per import id may be outstanding: a token channel, holding one
//! token deposited at creation, turns a second concurrent call into an
//! immediate `DuplicateImportCall` instead of leaving it ambiguous which
//! call an eventual reply satisfies.

use vstd::prelude::*;
use crossbeam::channel::{Receiver, Sender};
use crate::assoc::{assoc_at, assoc_has, assoc_unique, lemma_assoc_at_index};
use crate::chan::{chan_recv, chan_send, chan_try_recv, channel_unbounded, clone_receiver,
    clone_sender};
use crate::errors::Error;
use crate::values::{marshal_reply, types_match, ImportDecl, SVal, SValType};

verus! {

/// What the external actor is told when module code calls an import: the
/// session, the import's routing id, and the converted argument values.
#[derive(Debug, PartialEq)]
pub struct ImportNotification {
    pub session_id: i64,
    pub import_id: i64,
    pub args: Vec<SVal>,
}

/// One import's channels: the reply channel a blocked stub waits on, and
/// the token channel that guards against concurrent calls to the same
/// import id. The token channel holds exactly one token while no call is
/// outstanding.
pub struct ChannelEntry {
    pub reply_tx: Sender<Vec<SVal>>,
    pub reply_rx: Receiver<Vec<SVal>>,
    pub token_tx: Sender<()>,
    pub token_rx: Receiver<()>,
}

/// A fresh entry: new reply and token channels, with the one token
/// deposited.
pub fn channel_entry() -> ChannelEntry {
    let (reply_tx, reply_rx) = channel_unbounded::<Vec<SVal>>();
    let (token_tx, token_rx) = channel_unbounded::<()>();
    let _deposited = chan_send(&token_tx, ());
    ChannelEntry { reply_tx, reply_rx, token_tx, token_rx }
}

/// The per-session reply channel table: one entry per declared import id.
pub struct ChannelTable {
    pub entries: Vec<(i64, ChannelEntry)>,
}

/// Whether a declaration list declares each import id once.
pub open spec fn decl_ids_unique(decls: Seq<ImportDecl>) -> bool {
    forall|i: int, j: int|
        0 <= i < j < decls.len() ==> (#[trigger] decls[i]).id != (#[trigger] decls[j]).id
}

/// Check that no import id is declared twice.
pub fn check_decl_ids_unique(decls: &Vec<ImportDecl>) -> (r: bool)
    ensures
        r <==> decl_ids_unique(decls@),
{
    let mut i: usize = 0;
    while i < decls.len()
        invariant
            0 <= i <= decls@.len(),
            forall|a: int, b: int|
                0 <= a < b < decls@.len() && a < i ==> (#[trigger] decls@[a]).id != (
                #[trigger] decls@[b]).id,
        decreases decls@.len() - i,
    {
        let mut j: usize = i + 1;
        while j < decls.len()
            invariant
                0 <= i < j <= decls@.len(),
                forall|b: int| i < b < j ==> (#[trigger] decls@[b]).id != decls@[i as int].id,
            decreases decls@.len() - j,
        {
            if decls[i].id == decls[j].id {
                return false;
            }
            j = j + 1;
        }
        i = i + 1;
    }
    true
}

impl ChannelTable {
    /// No import id owns two entries.
    pub open spec fn wf(&self) -> bool {
        assoc_unique(self.entries@)
    }

    /// Whether the table has an entry for `id`.
    pub open spec fn spec_has(&self, id: i64) -> bool {
        assoc_has(self.entries@, id)
    }

    /// The entry for `id`.
    pub open spec fn spec_at(&self, id: i64) -> ChannelEntry {
        assoc_at(self.entries@, id)
    }

    /// One fresh entry per declared import, in declaration order.
    pub fn create(decls: &Vec<ImportDecl>) -> (t: ChannelTable)
        requires
            decl_ids_unique(decls@),
        ensures
            t.wf(),
            t.entries@.len() == decls@.len(),
            forall|i: int| 0 <= i < decls@.len() ==> (#[trigger] t.entries@[i]).0 == decls@[i].id,
    {
        let mut entries: Vec<(i64, ChannelEntry)> = Vec::new();
        let mut i: usize = 0;
        while i < decls.len()
            invariant
                decl_ids_unique(decls@),
                0 <= i <= decls@.len(),
                entries@.len() == i,
                forall|j: int| 0 <= j < i ==> (#[trigger] entries@[j]).0 == decls@[j].id,
            decreases decls@.len() - i,
        {
            entries.push((decls[i].id, channel_entry()));
            i = i + 1;
        }
        let t = ChannelTable { entries };
        proof {
            assert forall|i2: int, j2: int| 0 <= i2 < j2 < t.entries@.len() implies (
            #[trigger] t.entries@[i2]).0 != (#[trigger] t.entries@[j2]).0 by {
                assert(t.entries@[i2].0 == decls@[i2].id);
                assert(t.entries@[j2].0 == decls@[j2].id);
            }
        }
        t
    }

    /// Look an entry up by import id.
    pub fn get_entry(&self, id: i64) -> (r: Option<&ChannelEntry>)
        requires
            self.wf(),
        ensures
            match r {
                Some(e) => self.spec_has(id) && *e == self.spec_at(id),
                None => !self.spec_has(id),
            },
    {
        let mut i: usize = 0;
        while i < self.entries.len()
            invariant
                self.wf(),
                0 <= i <= self.entries@.len(),
                forall|j: int| 0 <= j < i ==> (#[trigger] self.entries@[j]).0 != id,
            decreases self.entries@.len() - i,
        {
            if self.entries[i].0 == id {
                proof {
                    lemma_assoc_at_index(self.entries@, id, i as int);
                }
                return Some(&self.entries[i].1);
            }
            i = i + 1;
        }
        None
    }
}

/// Everything one import stub needs: where to announce the call, where to
/// wait for the reply, the token guard, where to report a failure of this
/// one call, and the import's declared result types.
pub struct StubCtx {
    pub session_id: i64,
    pub import_id: i64,
    pub result_tys: Vec<SValType>,
    pub reply_rx: Receiver<Vec<SVal>>,
    pub token_tx: Sender<()>,
    pub token_rx: Receiver<()>,
    pub notify_tx: Sender<ImportNotification>,
    pub err_tx: Sender<Error>,
}

/// Build the stub context for one declared import from the session's
/// channel entry and the call's notification and error channels.
pub fn stub_ctx(
    session_id: i64,
    import_id: i64,
    result_tys: Vec<SValType>,
    entry: &ChannelEntry,
    notify_tx: &Sender<ImportNotification>,
    err_tx: &Sender<Error>,
) -> (r: StubCtx)
    ensures
        r.session_id == session_id,
        r.import_id == import_id,
        r.result_tys == result_tys,
{
    StubCtx {
        session_id,
        import_id,
        result_tys,
        reply_rx: clone_receiver(&entry.reply_rx),
        token_tx: clone_sender(&entry.token_tx),
        token_rx: clone_receiver(&entry.token_rx),
        notify_tx: clone_sender(notify_tx),
        err_tx: clone_sender(err_tx),
    }
}

/// One import call, as the blocked stub performs it: take the token (a
/// missing token means another call to this import id is already
/// outstanding), announce the call to the external actor, block for the
/// reply, hand the token back, and check the reply against the declared
/// result types. Whatever the channels deliver, a successful result
/// carries exactly the declared result types.
pub fn import_stub_invoke(ctx: &StubCtx, args: Vec<SVal>) -> (r: Result<Vec<SVal>, Error>)
    ensures
        r matches Ok(v) ==> types_match(v@, ctx.result_tys@),
        r matches Err(e) ==> (e == Error::DuplicateImportCall || e == Error::ChannelDisconnected
            || e == Error::ArityMismatch || e == Error::TypeMismatch),
{
    match chan_try_recv(&ctx.token_rx) {
        Some(_) => {},
        None => {
            return Err(Error::DuplicateImportCall);
        },
    }
    let note = ImportNotification {
        session_id: ctx.session_id,
        import_id: ctx.import_id,
        args,
    };
    if !chan_send(&ctx.notify_tx, note) {
        let _returned = chan_send(&ctx.token_tx, ());
        return Err(Error::ChannelDisconnected);
    }
    match chan_recv(&ctx.reply_rx) {
        None => {
            let _returned = chan_send(&ctx.token_tx, ());
            Err(Error::ChannelDisconnected)
        },
        Some(reply) => {
            let _returned = chan_send(&ctx.token_tx, ());
            marshal_reply(&ctx.result_tys, &reply)
        },
    }
}

} // verus!
