//! Effects and their registry.
//!
//! A concrete effect type is a plain data record of animated parameters. It
//! exposes a capability interface: a stable key naming its concrete type,
//! and a `push` operation that evaluates its parameters at a frame into one
//! flat instance record. The registry assigns each distinct key a dense
//! kind id, exactly once for the lifetime of the process, and is the only
//! source of such ids.

use crate::fx::Fx;
use vstd::prelude::*;

verus! {

/// One evaluated effect instance: the flat parameter values pushed into a
/// per-kind batch for one frame.
#[derive(Clone, Debug)]
pub struct InstanceRecord {
    /// The evaluated parameter values, in the order the effect declares.
    pub fields: Vec<Fx>,
}

impl View for InstanceRecord {
    type V = Seq<Fx>;

    open spec fn view(&self) -> Seq<Fx> {
        self.fields@
    }
}

/// The capability interface of a concrete effect type: a stable key naming
/// the type, and the evaluation of its animated parameters at a frame.
pub trait Effect: Sized {
    /// The key naming this value's concrete effect type; equal for all
    /// values of one type, distinct between types.
    spec fn kind_key_spec(&self) -> u64;

    /// The exact record `push` produces at `frame`.
    spec fn push_spec(&self, frame: u64) -> Seq<Fx>;

    /// The stable key naming this value's concrete effect type.
    fn type_key(&self) -> (k: u64)
        ensures
            k == self.kind_key_spec(),
    ;

    /// Evaluates the effect's animated parameters at `frame` into one
    /// instance record.
    fn push(&self, frame: u64) -> (r: InstanceRecord)
        ensures
            r@ == self.push_spec(frame),
    ;
}

/// One effect instance attached to a clip: the registry-assigned kind id
/// and the effect's parameter record.
#[derive(Clone, Debug)]
pub struct EffectData<P> {
    /// The kind id the registry assigned to this effect's concrete type.
    pub id: usize,
    /// The effect's parameters.
    pub params: P,
}

/// Whether a key sequence holds pairwise distinct keys.
pub open spec fn keys_distinct(keys: Seq<u64>) -> bool {
    forall|i: int, j: int| 0 <= i < j < keys.len() ==> keys[i] != keys[j]
}

/// Whether some registered key equals `k`.
pub open spec fn registry_has(keys: Seq<u64>, k: u64) -> bool {
    exists|i: int| 0 <= i < keys.len() && keys[i] == k
}

/// Assigns each distinct effect type key a dense kind id: the index the
/// key holds in `keys`. Ids start at zero and never change once assigned.
#[derive(Clone, Debug)]
pub struct EffectRegistry {
    /// The registered keys; the id of a key is its index here.
    pub keys: Vec<u64>,
}

impl EffectRegistry {
    /// A registry is well formed when no key was assigned two ids.
    pub open spec fn wf(self) -> bool {
        keys_distinct(self.keys@)
    }

    /// How many kinds were assigned so far; ids are dense below this count.
    pub fn len(&self) -> (n: usize)
        ensures
            n == self.keys@.len(),
    {
        self.keys.len()
    }

    /// An empty registry.
    pub fn new() -> (r: EffectRegistry)
        ensures
            r.keys@.len() == 0,
            r.wf(),
    {
        EffectRegistry { keys: Vec::new() }
    }

    /// The kind id for a type key: the id assigned earlier if the key was
    /// ever seen, otherwise the next dense id, assigned now. Repeated
    /// lookups of one key always yield one id.
    pub fn register(&mut self, key: u64) -> (id: usize)
        requires
            old(self).wf(),
        ensures
            final(self).wf(),
            registry_has(old(self).keys@, key) ==> *final(self) == *old(self) && id
                < final(self).keys@.len() && final(self).keys@[id as int] == key,
            !registry_has(old(self).keys@, key) ==> final(self).keys@ == old(self).keys@.push(key)
                && id == old(self).keys@.len(),
    {
        let n = self.keys.len();
        let mut i: usize = 0;
        while i < n
            invariant
                *self == *old(self),
                old(self).wf(),
                n == self.keys@.len(),
                0 <= i <= n,
                forall|j: int| 0 <= j < i ==> self.keys@[j] != key,
            decreases n - i,
        {
            if self.keys[i] == key {
                return i;
            }
            i = i + 1;
        }
        self.keys.push(key);
        proof {
            let keys = self.keys@;
            assert forall|p: int, q: int| 0 <= p < q < keys.len() implies keys[p] != keys[q] by {
                if q == keys.len() - 1 {
                    assert(old(self).keys@[p] != key);
                }
            }
        }
        n
    }

    /// Whether a key was ever assigned an id.
    pub fn is_registered(&self, key: u64) -> (r: bool)
        ensures
            r == registry_has(self.keys@, key),
    {
        let n = self.keys.len();
        let mut i: usize = 0;
        while i < n
            invariant
                n == self.keys@.len(),
                0 <= i <= n,
                forall|j: int| 0 <= j < i ==> self.keys@[j] != key,
            decreases n - i,
        {
            if self.keys[i] == key {
                return true;
            }
            i = i + 1;
        }
        false
    }
}

/// Kind ids are shared and stable: in a well-formed registry one key holds
/// exactly one index, so registering the same concrete type a second time
/// yields the id assigned first, and two distinct keys can never share an
/// id.
pub proof fn lemma_kind_id_unique(keys: Seq<u64>, i: int, j: int)
    requires
        keys_distinct(keys),
        0 <= i < keys.len(),
        0 <= j < keys.len(),
        keys[i] == keys[j],
    ensures
        i == j,
{
    if i < j {
        assert(keys[i] != keys[j]);
    } else if j < i {
        assert(keys[j] != keys[i]);
    }
}

} // verus!
