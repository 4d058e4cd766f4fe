use crate::bytes::same_bytes;
use vstd::prelude::*;

verus! {

/// One write to the store: a value set under a key, or the key removed.
#[derive(Debug)]
pub struct Edit {
    pub key: Vec<u8>,
    pub value: Option<Vec<u8>>,
}

/// What a store holds: values by key.
pub type Contents = Map<Seq<u8>, Seq<u8>>;

/// The contents after one write.
pub open spec fn apply_edit(contents: Contents, edit: Edit) -> Contents {
    match edit.value {
        Some(value) => contents.insert(edit.key@, value@),
        None => contents.remove(edit.key@),
    }
}

/// The contents after a sequence of writes, made in order.
pub open spec fn apply_edits(contents: Contents, edits: Seq<Edit>) -> Contents
    decreases edits.len(),
{
    if edits.len() == 0 {
        contents
    } else {
        apply_edit(apply_edits(contents, edits.drop_last()), edits.last())
    }
}

/// Writes made one run after another are the writes of both runs in order.
pub proof fn lemma_apply_concat(contents: Contents, first: Seq<Edit>, second: Seq<Edit>)
    ensures
        apply_edits(contents, first + second) == apply_edits(
            apply_edits(contents, first),
            second,
        ),
    decreases second.len(),
{
    if second.len() == 0 {
        assert(first + second =~= first);
    } else {
        lemma_apply_concat(contents, first, second.drop_last());
        assert((first + second).drop_last() =~= first + second.drop_last());
        assert((first + second).last() == second.last());
    }
}

/// Writes to other keys leave a key as it was.
pub proof fn lemma_untouched(contents: Contents, edits: Seq<Edit>, key: Seq<u8>)
    requires
        forall|j: int| 0 <= j < edits.len() ==> edits[j].key@ != key,
    ensures
        apply_edits(contents, edits).contains_key(key) == contents.contains_key(key),
        contents.contains_key(key) ==> apply_edits(contents, edits)[key] == contents[key],
    decreases edits.len(),
{
    if edits.len() > 0 {
        lemma_untouched(contents, edits.drop_last(), key);
    }
}

/// The last write to a key decides what the key holds.
pub proof fn lemma_last_write(contents: Contents, edits: Seq<Edit>, key: Seq<u8>, at: int)
    requires
        0 <= at < edits.len(),
        edits[at].key@ == key,
        forall|j: int| at < j < edits.len() ==> edits[j].key@ != key,
    ensures
        match edits[at].value {
            Some(value) => apply_edits(contents, edits).contains_key(key) && apply_edits(
                contents,
                edits,
            )[key] == value@,
            None => !apply_edits(contents, edits).contains_key(key),
        },
{
    let head = edits.subrange(0, at + 1);
    let tail = edits.subrange(at + 1, edits.len() as int);
    assert(edits =~= head + tail);
    lemma_apply_concat(contents, head, tail);
    lemma_untouched(apply_edits(contents, head), tail, key);
    assert(head.last() == edits[at]);
}

/// The place of the last write to `key` among `edits`, if there is one.
fn last_write(edits: &Vec<Edit>, key: &[u8]) -> (found: Option<usize>)
    ensures
        match found {
            Some(at) => at < edits@.len() && edits@[at as int].key@ == key@ && forall|j: int|
                at < j < edits@.len() ==> edits@[j].key@ != key@,
            None => forall|j: int| 0 <= j < edits@.len() ==> edits@[j].key@ != key@,
        },
{
    let mut i: usize = edits.len();
    while i > 0
        invariant
            i <= edits@.len(),
            forall|j: int| i <= j < edits@.len() ==> edits@[j].key@ != key@,
        decreases i,
    {
        i -= 1;
        if same_bytes(edits[i].key.as_slice(), key) {
            return Some(i);
        }
    }
    None
}

/// What `contents` hold under `key`, if anything.
pub open spec fn held(contents: Contents, key: Seq<u8>) -> Option<Seq<u8>> {
    if contents.contains_key(key) {
        Some(contents[key])
    } else {
        None
    }
}

/// The bytes of an optional buffer.
pub open spec fn bytes_of(value: Option<&Vec<u8>>) -> Option<Seq<u8>> {
    match value {
        Some(v) => Some(v@),
        None => None,
    }
}

/// A key-value store: what has been committed to it.
#[derive(Debug)]
pub struct Kv {
    log: Vec<Edit>,
}

/// One atomic unit of writes to a store, begun and not yet resolved.
#[derive(Debug)]
pub struct Transaction {
    edits: Vec<Edit>,
}

impl View for Kv {
    type V = Contents;

    closed spec fn view(&self) -> Contents {
        apply_edits(Map::empty(), self.log@)
    }
}

impl View for Transaction {
    type V = Seq<Edit>;

    closed spec fn view(&self) -> Seq<Edit> {
        self.edits@
    }
}

impl Kv {
    /// An empty store.
    pub fn new() -> (kv: Kv)
        ensures
            kv@ == Map::<Seq<u8>, Seq<u8>>::empty(),
    {
        Kv { log: Vec::new() }
    }

    /// Begins a transaction: a unit of writes that has made none yet.
    pub fn begin_transaction(&self) -> (tx: Transaction)
        ensures
            tx@ == Seq::<Edit>::empty(),
    {
        Transaction { edits: Vec::new() }
    }

    /// Resolves `tx` by making all of its writes, in order.
    pub fn commit_transaction(&mut self, tx: Transaction)
        ensures
            final(self)@ == apply_edits(old(self)@, tx@),
    {
        let mut tx = tx;
        proof {
            lemma_apply_concat(Map::empty(), self.log@, tx.edits@);
        }
        self.log.append(&mut tx.edits);
    }

    /// Resolves `tx` by making none of its writes.
    pub fn rollback_transaction(&mut self, tx: Transaction)
        ensures
            final(self)@ == old(self)@,
    {
    }

    /// The committed value under `key`, if any.
    pub fn get(&self, key: &[u8]) -> (value: Option<&Vec<u8>>)
        ensures
            bytes_of(value) == held(self@, key@),
    {
        match last_write(&self.log, key) {
            Some(at) => {
                proof {
                    lemma_last_write(Map::empty(), self.log@, key@, at as int);
                }
                self.log[at].value.as_ref()
            },
            None => {
                proof {
                    lemma_untouched(Map::empty(), self.log@, key@);
                }
                None
            },
        }
    }
}

impl Transaction {
    /// Sets `value` under `key`.
    pub fn insert(&mut self, key: Vec<u8>, value: Vec<u8>)
        ensures
            final(self)@ == old(self)@.push(Edit { key, value: Some(value) }),
    {
        self.edits.push(Edit { key, value: Some(value) });
    }

    /// Removes `key`.
    pub fn remove(&mut self, key: Vec<u8>)
        ensures
            final(self)@ == old(self)@.push(Edit { key, value: None }),
    {
        self.edits.push(Edit { key, value: None });
    }

    /// Makes the writes `edits`, in order, after those made so far.
    pub fn extend(&mut self, edits: Vec<Edit>)
        ensures
            final(self)@ == old(self)@ + edits@,
    {
        let mut edits = edits;
        self.edits.append(&mut edits);
    }

    /// The value under `key` as this transaction sees it: its own writes on
    /// top of what `kv` has committed.
    pub fn get<'a>(&'a self, kv: &'a Kv, key: &[u8]) -> (value: Option<&'a Vec<u8>>)
        ensures
            bytes_of(value) == held(apply_edits(kv@, self@), key@),
    {
        match last_write(&self.edits, key) {
            Some(at) => {
                proof {
                    lemma_last_write(kv@, self.edits@, key@, at as int);
                }
                self.edits[at].value.as_ref()
            },
            None => {
                proof {
                    lemma_untouched(kv@, self.edits@, key@);
                }
                kv.get(key)
            },
        }
    }
}

} // verus!
