use crate::kv::{apply_edits, bytes_of, held, Contents, Edit, Kv, Transaction};
use vstd::prelude::*;

verus! {

/// How a transaction was resolved.
#[derive(Clone, Copy, Debug, PartialEq, Eq, Structural)]
pub enum Resolved {
    Committed,
    RolledBack,
}

/// What one invocation runs in: the store, the transaction that the
/// invocation has open, and the record of every transaction resolved so far.
#[derive(Debug)]
pub struct ExecutionContext {
    kv: Kv,
    tx: Option<Transaction>,
    resolved: Vec<Resolved>,
}

impl ExecutionContext {
    /// What the store has committed.
    pub closed spec fn contents(&self) -> Contents {
        self.kv@
    }

    /// The writes of the open transaction, if one is open.
    pub closed spec fn pending(&self) -> Option<Seq<Edit>> {
        match self.tx {
            Some(tx) => Some(tx@),
            None => None,
        }
    }

    /// How each transaction begun in this context was resolved, in order.
    pub closed spec fn history(&self) -> Seq<Resolved> {
        self.resolved@
    }

    /// A context over `kv`, with no transaction open and none resolved.
    pub fn new(kv: Kv) -> (ctx: ExecutionContext)
        ensures
            ctx.contents() == kv@,
            ctx.pending() is None,
            ctx.history() == Seq::<Resolved>::empty(),
    {
        ExecutionContext { kv, tx: None, resolved: Vec::new() }
    }

    /// Whether a transaction is open.
    pub fn is_open(&self) -> (open: bool)
        ensures
            open == self.pending() is Some,
    {
        self.tx.is_some()
    }

    /// The record of resolutions.
    pub fn resolutions(&self) -> (record: &Vec<Resolved>)
        ensures
            record@ == self.history(),
    {
        &self.resolved
    }

    /// The committed value under `key`, if any.
    pub fn committed(&self, key: &[u8]) -> (value: Option<&Vec<u8>>)
        ensures
            bytes_of(value) == held(self.contents(), key@),
    {
        self.kv.get(key)
    }

    /// Begins the transaction of an invocation.
    pub fn begin(&mut self)
        requires
            old(self).pending() is None,
        ensures
            final(self).pending() == Some(Seq::<Edit>::empty()),
            final(self).contents() == old(self).contents(),
            final(self).history() == old(self).history(),
    {
        self.tx = Some(self.kv.begin_transaction());
    }

    /// Makes one write within the open transaction.
    pub fn write(&mut self, edit: Edit)
        requires
            old(self).pending() is Some,
        ensures
            final(self).pending() == Some(old(self).pending()->0.push(edit)),
            final(self).contents() == old(self).contents(),
            final(self).history() == old(self).history(),
    {
        let mut tx = self.tx.take().unwrap();
        match edit.value {
            Some(value) => tx.insert(edit.key, value),
            None => tx.remove(edit.key),
        }
        self.tx = Some(tx);
    }

    /// Makes the writes `edits`, in order, within the open transaction.
    pub fn write_all(&mut self, edits: Vec<Edit>)
        requires
            old(self).pending() is Some,
        ensures
            final(self).pending() == Some(old(self).pending()->0 + edits@),
            final(self).contents() == old(self).contents(),
            final(self).history() == old(self).history(),
    {
        let mut tx = self.tx.take().unwrap();
        tx.extend(edits);
        self.tx = Some(tx);
    }

    /// The value under `key` as the open transaction sees it.
    pub fn read(&self, key: &[u8]) -> (value: Option<&Vec<u8>>)
        requires
            self.pending() is Some,
        ensures
            bytes_of(value) == held(apply_edits(self.contents(), self.pending()->0), key@),
    {
        self.tx.as_ref().unwrap().get(&self.kv, key)
    }

    /// Resolves the open transaction by making its writes.
    pub fn commit(&mut self)
        requires
            old(self).pending() is Some,
        ensures
            final(self).pending() is None,
            final(self).contents() == apply_edits(old(self).contents(), old(self).pending()->0),
            final(self).history() == old(self).history().push(Resolved::Committed),
    {
        let tx = self.tx.take().unwrap();
        self.kv.commit_transaction(tx);
        self.resolved.push(Resolved::Committed);
    }

    /// Resolves the open transaction by dropping its writes.
    pub fn rollback(&mut self)
        requires
            old(self).pending() is Some,
        ensures
            final(self).pending() is None,
            final(self).contents() == old(self).contents(),
            final(self).history() == old(self).history().push(Resolved::RolledBack),
    {
        let tx = self.tx.take().unwrap();
        self.kv.rollback_transaction(tx);
        self.resolved.push(Resolved::RolledBack);
    }
}

} // verus!
