use vstd::prelude::*;

use crate::errors::DgraphError;
use crate::keys::{key_view, lemma_sorted_union, sorted_union, union_keys};

verus! {

/// Server-issued bookkeeping of one transaction: its start timestamp, its
/// commit timestamp, whether it was aborted, and the keys and predicates it
/// touched.
#[derive(Debug)]
pub struct TxnContext {
    pub start_ts: u64,
    pub commit_ts: u64,
    pub aborted: bool,
    pub keys: Vec<String>,
    pub preds: Vec<String>,
}

/// The mathematical value of a [`TxnContext`].
pub struct TxnContextView {
    pub start_ts: u64,
    pub commit_ts: u64,
    pub aborted: bool,
    pub keys: Seq<Seq<char>>,
    pub preds: Seq<Seq<char>>,
}

impl View for TxnContext {
    type V = TxnContextView;

    open spec fn view(&self) -> TxnContextView {
        TxnContextView {
            start_ts: self.start_ts,
            commit_ts: self.commit_ts,
            aborted: self.aborted,
            keys: key_view(self.keys@),
            preds: key_view(self.preds@),
        }
    }
}

/// The context of a transaction that has not heard from the server yet.
pub open spec fn empty_context() -> TxnContextView {
    TxnContextView {
        start_ts: 0,
        commit_ts: 0,
        aborted: false,
        keys: Seq::empty(),
        preds: Seq::empty(),
    }
}

/// `src` belongs to another transaction than `dst`: `dst` has a start
/// timestamp already and `src` carries a different one.
pub open spec fn start_ts_mismatch(dst: TxnContextView, src: TxnContextView) -> bool {
    dst.start_ts != 0 && dst.start_ts != src.start_ts
}

/// `dst` after merging `src` into it: the start timestamp is adopted when `dst`
/// has none, keys and predicates become the sorted unions, and the commit
/// timestamp and the abort flag stay. `None` when the start timestamps differ.
pub open spec fn merged_context(dst: TxnContextView, src: TxnContextView) -> Option<
    TxnContextView,
> {
    if start_ts_mismatch(dst, src) {
        None
    } else {
        Some(
            TxnContextView {
                start_ts: if dst.start_ts == 0 {
                    src.start_ts
                } else {
                    dst.start_ts
                },
                commit_ts: dst.commit_ts,
                aborted: dst.aborted,
                keys: sorted_union(dst.keys, src.keys),
                preds: sorted_union(dst.preds, src.preds),
            },
        )
    }
}

impl TxnContext {
    /// An empty context: no timestamps, no keys, no predicates.
    pub fn new() -> (r: TxnContext)
        ensures
            r@ == empty_context(),
    {
        let r = TxnContext {
            start_ts: 0,
            commit_ts: 0,
            aborted: false,
            keys: Vec::new(),
            preds: Vec::new(),
        };
        assert(r@.keys =~= Seq::empty());
        assert(r@.preds =~= Seq::empty());
        r
    }

    /// Merges the context `src` that the server returned into this one.
    ///
    /// Fails with `StartTsMismatch`, leaving this context as it was, when this
    /// context has a start timestamp and `src` carries another one.
    pub fn merge_context(&mut self, src: &TxnContext) -> (r: Result<(), DgraphError>)
        ensures
            match merged_context(old(self)@, src@) {
                Some(v) => r is Ok && final(self)@ == v,
                None => r == Err::<(), DgraphError>(DgraphError::StartTsMismatch) && *final(self)
                    == *old(self),
            },
    {
        if self.start_ts == 0 {
            self.start_ts = src.start_ts;
        } else if self.start_ts != src.start_ts {
            return Err(DgraphError::StartTsMismatch);
        }
        self.keys = union_keys(&self.keys, &src.keys);
        self.preds = union_keys(&self.preds, &src.preds);
        Ok(())
    }
}

/// Merging any context into a fresh one, whose start timestamp is zero, always
/// succeeds and adopts the incoming start timestamp.
pub proof fn lemma_merge_into_fresh(dst: TxnContextView, src: TxnContextView)
    requires
        dst.start_ts == 0,
    ensures
        merged_context(dst, src) is Some,
        merged_context(dst, src)->0.start_ts == src.start_ts,
{
}

/// Once a context has a start timestamp, merging a context with another
/// nonzero start timestamp fails.
pub proof fn lemma_merge_mismatch(dst: TxnContextView, src: TxnContextView)
    requires
        dst.start_ts != 0,
        src.start_ts != 0,
        dst.start_ts != src.start_ts,
    ensures
        merged_context(dst, src) is None,
{
}

/// Merging two contexts of one transaction yields the union of their keys and
/// of their predicates, with no duplicates, whichever is merged into which.
pub proof fn lemma_merge_dedup(a: TxnContextView, b: TxnContextView)
    requires
        !start_ts_mismatch(a, b),
        !start_ts_mismatch(b, a),
    ensures
        merged_context(a, b) is Some,
        merged_context(b, a) is Some,
        merged_context(a, b)->0.keys.to_set() == a.keys.to_set() + b.keys.to_set(),
        merged_context(a, b)->0.preds.to_set() == a.preds.to_set() + b.preds.to_set(),
        merged_context(a, b)->0.keys.no_duplicates(),
        merged_context(a, b)->0.preds.no_duplicates(),
        merged_context(a, b)->0.keys == merged_context(b, a)->0.keys,
        merged_context(a, b)->0.preds == merged_context(b, a)->0.preds,
{
    lemma_sorted_union(a.keys, b.keys);
    lemma_sorted_union(a.preds, b.preds);
}

} // verus!
