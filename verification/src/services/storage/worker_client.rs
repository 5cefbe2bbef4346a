//! The app side of the web storage worker protocol: the table that
//! correlates each request id with its pending reply, and how a reply (or
//! its absence) becomes the result of a storage call. The worker itself,
//! the message channel and the reply channels are the caller's; they report
//! here what happened.

use vstd::prelude::*;

use crate::services::storage::protocol::{result_op_name, WorkerResult};
use crate::services::storage::status::StorageError;
use crate::text::{append_str, owned};

verus! {

broadcast use vstd::string::group_string_axioms;

/// Pending requests, the next id to hand out, and the reason the worker
/// died, if it did.
#[derive(Debug)]
pub struct RequestTable {
    /// Ids of the requests still waiting for a reply, in the order they were
    /// sent.
    pub pending: Vec<u64>,
    pub next_id: u64,
    pub dead: Option<String>,
}

/// The abstract table: the set of pending ids, the next id, the death
/// reason.
pub struct TableView {
    pub pending: Set<u64>,
    pub next_id: u64,
    pub dead: Option<Seq<char>>,
}

impl View for RequestTable {
    type V = TableView;

    open spec fn view(&self) -> TableView {
        TableView {
            pending: Set::new(|id: u64| self.pending@.contains(id)),
            next_id: self.next_id,
            dead: crate::capabilities::opt_chars(self.dead),
        }
    }
}

/// Sending a request: refused with the death reason once the worker died,
/// else the next id is handed out and becomes pending.
pub open spec fn spec_begin(t: TableView) -> (TableView, Result<u64, Seq<char>>) {
    match t.dead {
        Some(reason) => (t, Err(reason)),
        None => (
            TableView { pending: t.pending.insert(t.next_id), next_id: (t.next_id + 1) as u64, ..t },
            Ok(t.next_id),
        ),
    }
}

/// A reply for `id` arrived: whether it completes a pending request, which
/// is then no longer pending.
pub open spec fn spec_complete(t: TableView, id: u64) -> (TableView, bool) {
    (TableView { pending: t.pending.remove(id), ..t }, t.pending.contains(id))
}

/// The worker died for `reason`: every pending request fails with it and
/// later requests are refused.
pub open spec fn spec_fail_all(t: TableView, reason: Seq<char>) -> TableView {
    TableView { pending: Set::empty(), dead: Some(reason), ..t }
}

impl RequestTable {
    /// Pending ids are sent in increasing order and all lie below the next
    /// id.
    pub open spec fn wf(&self) -> bool {
        &&& forall|i: int, j: int|
            0 <= i < j < self.pending@.len() ==> self.pending@[i] < self.pending@[j]
        &&& forall|i: int| 0 <= i < self.pending@.len() ==> self.pending@[i] < self.next_id
    }

    /// A fresh table: nothing pending, ids start at 1.
    pub fn new() -> (r: Self)
        ensures
            r.wf(),
            r@.pending == Set::<u64>::empty(),
            r@.next_id == 1,
            r@.dead is None,
    {
        let r = RequestTable { pending: Vec::new(), next_id: 1, dead: None };
        assert(r@.pending =~= Set::<u64>::empty());
        r
    }

    /// Register a new request: its id, or the reason the worker is dead.
    pub fn begin(&mut self) -> (r: Result<u64, String>)
        requires
            old(self).wf(),
            old(self).next_id < u64::MAX,
        ensures
            final(self).wf(),
            (final(self)@, match r {
                Ok(id) => Ok(id),
                Err(m) => Err(m@),
            }) == spec_begin(old(self)@),
    {
        match &self.dead {
            Some(reason) => Err(owned(reason.as_str())),
            None => {
                let id = self.next_id;
                let ghost before = self@;
                let ghost old_pending = self.pending@;
                self.pending.push(id);
                self.next_id = self.next_id + 1;
                assert forall|x: u64| self.pending@.contains(x) <==> (old_pending.contains(x)
                    || x == id) by {
                    if self.pending@.contains(x) {
                        let i = choose|i: int| 0 <= i < self.pending@.len() && self.pending@[i] == x;
                        if i < old_pending.len() {
                            assert(old_pending[i] == x);
                        }
                    }
                    if old_pending.contains(x) {
                        let i = choose|i: int| 0 <= i < old_pending.len() && old_pending[i] == x;
                        assert(self.pending@[i] == x);
                    }
                    if x == id {
                        assert(self.pending@[old_pending.len() as int] == x);
                    }
                }
                assert forall|x: u64| #[trigger] self@.pending.contains(x) == before.pending.insert(
                    id,
                ).contains(x) by {
                    assert(self@.pending.contains(x) == self.pending@.contains(x));
                    assert(before.pending.contains(x) == old_pending.contains(x));
                }
                assert(self@.pending =~= before.pending.insert(id));
                Ok(id)
            },
        }
    }

    /// A reply for `id` arrived; returns whether it completed a pending
    /// request.
    pub fn complete(&mut self, id: u64) -> (r: bool)
        requires
            old(self).wf(),
        ensures
            final(self).wf(),
            (final(self)@, r) == spec_complete(old(self)@, id),
    {
        let ghost before = self@;
        let mut k: usize = 0;
        while k < self.pending.len() && self.pending[k] != id
            invariant
                k <= self.pending.len(),
                forall|j: int| 0 <= j < k ==> self.pending@[j] != id,
            decreases self.pending.len() - k,
        {
            k = k + 1;
        }
        if k == self.pending.len() {
            assert(!self.pending@.contains(id));
            assert(self@.pending =~= before.pending.remove(id));
            return false;
        }
        let ghost old_pending = self.pending@;
        self.pending.remove(k);
        assert forall|x: u64| self.pending@.contains(x) <==> (old_pending.contains(x) && x != id) by {
            if self.pending@.contains(x) {
                let i = choose|i: int| 0 <= i < self.pending@.len() && self.pending@[i] == x;
                if i < k {
                    assert(old_pending[i] == x);
                } else {
                    assert(old_pending[i + 1] == x);
                    assert(old_pending[k as int] < old_pending[i + 1]);
                }
            }
            if old_pending.contains(x) && x != id {
                let i = choose|i: int| 0 <= i < old_pending.len() && old_pending[i] == x;
                if i < k {
                    assert(self.pending@[i] == x);
                } else {
                    assert(i != k);
                    assert(self.pending@[i - 1] == x);
                }
            }
        }
        assert(self@.pending =~= before.pending.remove(id));
        true
    }

    /// The worker died for `reason`: returns the ids of every request that
    /// was pending (each fails with `reason`); later requests are refused.
    pub fn fail_all(&mut self, reason: String) -> (r: Vec<u64>)
        requires
            old(self).wf(),
        ensures
            final(self).wf(),
            final(self)@ == spec_fail_all(old(self)@, reason@),
            r@ == old(self).pending@,
    {
        let ghost before = self@;
        let mut drained: Vec<u64> = Vec::new();
        std::mem::swap(&mut drained, &mut self.pending);
        self.dead = Some(reason);
        assert(self@.pending =~= Set::<u64>::empty());
        drained
    }
}

/// A call's result, from its reply: `None` when no worker runs at all, else
/// what arrived on the reply channel (`None` when the channel closed without
/// a reply).
pub open spec fn call_outcome(
    op: Seq<char>,
    reply: Option<Option<Result<WorkerResult, String>>>,
) -> Result<WorkerResult, Seq<char>> {
    match reply {
        None => Err("storage worker not running (boot failed or unavailable)"@),
        Some(None) => Err("storage worker dropped the reply for `"@ + op + "`"@),
        Some(Some(Ok(result))) => Ok(result),
        Some(Some(Err(m))) => Err(m@),
    }
}

/// Turn what came back for a call of `op` into its result; every failure
/// is a web storage error.
pub fn finish_call(op: &str, reply: Option<Option<Result<WorkerResult, String>>>) -> (r: Result<
    WorkerResult,
    StorageError,
>)
    ensures
        match call_outcome(op@, reply) {
            Ok(v) => r == Ok::<WorkerResult, StorageError>(v),
            Err(m) => r matches Err(StorageError::Web(w)) && w@ == m,
        },
{
    match reply {
        None => Err(
            StorageError::Web(owned("storage worker not running (boot failed or unavailable)")),
        ),
        Some(None) => {
            let mut m = owned("storage worker dropped the reply for `");
            append_str(&mut m, op);
            append_str(&mut m, "`");
            Err(StorageError::Web(m))
        },
        Some(Some(Ok(result))) => Ok(result),
        Some(Some(Err(m))) => Err(StorageError::Web(m)),
    }
}

/// The error for a reply of the wrong shape.
pub fn mismatch(expected: &str, got: &WorkerResult) -> (r: StorageError)
    ensures
        r matches StorageError::Web(m) && m@ == "storage worker protocol mismatch: expected `"@
            + expected@ + "`, got `"@ + result_op_name(*got) + "`"@,
{
    let mut m = owned("storage worker protocol mismatch: expected `");
    append_str(&mut m, expected);
    append_str(&mut m, "`, got `");
    append_str(&mut m, got.op_name());
    append_str(&mut m, "`");
    StorageError::Web(m)
}

/// Law: a reply completes a request at most once; a second reply for the
/// same id completes nothing.
pub proof fn lemma_reply_completes_once(t: TableView, id: u64)
    ensures
        !spec_complete(spec_complete(t, id).0, id).1,
{
}

/// Law: a request sent to a live worker gets an id no pending request has,
/// and is pending until its reply arrives.
pub proof fn lemma_fresh_request_is_pending(t: TableView)
    requires
        t.dead is None,
        forall|id: u64| t.pending.contains(id) ==> id < t.next_id,
    ensures
        spec_begin(t).1 matches Ok(id) && !t.pending.contains(id) && spec_begin(
            t,
        ).0.pending.contains(id) && spec_complete(spec_begin(t).0, id).1,
{
}

/// Law: once the worker died, nothing stays pending and every later
/// request is refused with the death reason.
pub proof fn lemma_dead_worker_refuses(t: TableView, reason: Seq<char>)
    ensures
        spec_fail_all(t, reason).pending == Set::<u64>::empty(),
        spec_begin(spec_fail_all(t, reason)).1 == Err::<u64, Seq<char>>(reason),
        spec_begin(spec_fail_all(t, reason)).0 == spec_fail_all(t, reason),
{
}

/// Law: a reply removes exactly the request it answers: every other
/// pending request stays pending, nothing else joins, and the next id and
/// the worker's state are untouched.
pub proof fn lemma_reply_removes_only_its_request(t: TableView, id: u64)
    ensures
        forall|x: u64|
            #[trigger] spec_complete(t, id).0.pending.contains(x) <==> (t.pending.contains(x) && x
                != id),
        spec_complete(t, id).0.next_id == t.next_id,
        spec_complete(t, id).0.dead == t.dead,
        spec_complete(t, id).1 <==> t.pending.contains(id),
{
}

/// Law: replies complete their requests independently: after the reply for
/// `a`, the reply for any other id `b` completes exactly when `b` was
/// pending, whichever of the two was sent first.
pub proof fn lemma_replies_are_independent(t: TableView, a: u64, b: u64)
    requires
        a != b,
    ensures
        spec_complete(spec_complete(t, a).0, b).1 == t.pending.contains(b),
        spec_complete(spec_complete(t, a).0, b).0.pending == t.pending.remove(a).remove(b),
{
}

} // verus!
