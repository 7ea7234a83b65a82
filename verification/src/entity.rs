//! A runtime model of the derived behavior the emitter attaches to a type:
//! instances compare equal exactly when their identity values agree, hash by
//! the identity value alone, and can therefore key an associative container
//! through that derived equality.

use vstd::prelude::*;

verus! {

/// One instance of a generated entity type: the value of its identity field
/// together with the values of every other field, in declaration order.
pub struct EntityInstance {
    pub identity: u64,
    pub others: Vec<u64>,
}

/// The derived equivalence: two instances stand for the same entity exactly
/// when their identity values agree. No other field takes part.
pub open spec fn instances_equivalent(a: EntityInstance, b: EntityInstance) -> bool {
    a.identity == b.identity
}

/// The derived comparison: consult the identity fields alone.
pub fn entity_eq(a: &EntityInstance, b: &EntityInstance) -> (r: bool)
    ensures
        r == instances_equivalent(*a, *b),
{
    a.identity == b.identity
}

/// How the derived hashing folds one value into a hash accumulator.
pub open spec fn fold_hash(state: u64, value: u64) -> u64 {
    state.wrapping_mul(31).wrapping_add(value)
}

/// The derived hashing: fold the identity value — and nothing else — into
/// the caller's accumulator.
pub fn entity_hash(a: &EntityInstance, state: u64) -> (r: u64)
    ensures
        r == fold_hash(state, a.identity),
{
    state.wrapping_mul(31).wrapping_add(a.identity)
}

/// Instances sharing an identity value are judged equal and hash identically,
/// whatever their other fields hold.
pub proof fn law_identity_determines_equality(a: EntityInstance, b: EntityInstance, state: u64)
    requires
        a.identity == b.identity,
    ensures
        instances_equivalent(a, b),
        fold_hash(state, a.identity) == fold_hash(state, b.identity),
{
}

/// Instances with distinct identity values are never judged equal, whatever
/// their other fields hold.
pub proof fn law_distinct_identity_not_equal(a: EntityInstance, b: EntityInstance)
    requires
        a.identity != b.identity,
    ensures
        !instances_equivalent(a, b),
{
}

/// Whether some stored entry's key carries the given identity value.
pub open spec fn contains_identity(entries: Seq<(EntityInstance, u64)>, id: u64) -> bool {
    exists|i: int| 0 <= i < entries.len() && (#[trigger] entries[i]).0.identity == id
}

/// The position of the earliest stored entry whose key carries the given
/// identity value.
pub open spec fn entry_index(entries: Seq<(EntityInstance, u64)>, id: u64) -> int
    recommends
        contains_identity(entries, id),
    decreases entries.len(),
{
    if entries.len() == 0 {
        0
    } else if entries[0].0.identity == id {
        0
    } else {
        1 + entry_index(entries.drop_first(), id)
    }
}

/// What a lookup by derived equality finds: the earliest entry whose key
/// shares the probed identity value, if any entry does.
pub open spec fn lookup(entries: Seq<(EntityInstance, u64)>, id: u64) -> Option<(EntityInstance, u64)> {
    if contains_identity(entries, id) {
        Some(entries[entry_index(entries, id)])
    } else {
        None
    }
}

/// When the entry at index `i` carries the probed identity and no earlier
/// entry does, the lookup finds exactly that entry.
pub proof fn lemma_entry_index_first(entries: Seq<(EntityInstance, u64)>, id: u64, i: int)
    requires
        0 <= i < entries.len(),
        entries[i].0.identity == id,
        forall|j: int| 0 <= j < i ==> entries[j].0.identity != id,
    ensures
        contains_identity(entries, id),
        entry_index(entries, id) == i,
        lookup(entries, id) == Some(entries[i]),
    decreases entries.len(),
{
    assert(contains_identity(entries, id)) by {
        assert(entries[i].0.identity == id);
    }
    if i > 0 {
        let rest = entries.drop_first();
        assert forall|j: int| 0 <= j < i - 1 implies rest[j].0.identity != id by {
            assert(rest[j] == entries[j + 1]);
        }
        assert(rest[i - 1] == entries[i]);
        lemma_entry_index_first(rest, id, i - 1);
        assert(entries[0].0.identity != id);
    }
}

/// Round trip through a container keyed by derived equality: once an entry is
/// stored under a key, a probe sharing that key's identity value — however
/// its other fields differ — finds exactly that entry.
pub proof fn law_container_round_trip(
    key: EntityInstance,
    value: u64,
    probe: EntityInstance,
    stored: Seq<(EntityInstance, u64)>,
)
    requires
        probe.identity == key.identity,
        lookup(stored, key.identity) == Some((key, value)),
    ensures
        lookup(stored, probe.identity) == Some((key, value)),
{
}

/// An associative container keyed by entity instances through their derived
/// equality: a probe finds a stored entry exactly when the two keys share an
/// identity value, however their other fields differ.
pub struct EntityMap {
    pub entries: Vec<(EntityInstance, u64)>,
}

impl EntityMap {
    /// No two stored keys share an identity value.
    pub open spec fn well_formed(self) -> bool {
        forall|a: int, b: int|
            0 <= a < b < self.entries@.len() ==> (#[trigger] self.entries@[a]).0.identity != (
            #[trigger] self.entries@[b]).0.identity
    }

    /// An empty container.
    pub fn new() -> (r: EntityMap)
        ensures
            r.well_formed(),
            r.entries@.len() == 0,
    {
        EntityMap { entries: Vec::new() }
    }

    /// How many entries are stored.
    pub fn len(&self) -> (r: usize)
        ensures
            r == self.entries@.len(),
    {
        self.entries.len()
    }

    /// Store `value` under `key`. A key is located by derived equality: when a
    /// stored key already shares `key`'s identity value, that entry is
    /// replaced; otherwise the new entry is appended. Either way a subsequent
    /// lookup with `key`'s identity finds exactly the new entry.
    #[verifier::loop_isolation(false)]
    pub fn insert(&mut self, key: EntityInstance, value: u64)
        requires
            old(self).well_formed(),
        ensures
            final(self).well_formed(),
            contains_identity(old(self).entries@, key.identity) ==> final(self).entries@ == old(
                self,
            ).entries@.update(entry_index(old(self).entries@, key.identity), (key, value)),
            !contains_identity(old(self).entries@, key.identity) ==> final(self).entries@ == old(
                self,
            ).entries@.push((key, value)),
            lookup(final(self).entries@, key.identity) == Some((key, value)),
    {
        let n = self.entries.len();
        let mut i: usize = 0;
        while i < n
            invariant
                n == self.entries@.len(),
                i <= n,
                self.entries@ == old(self).entries@,
                forall|j: int| 0 <= j < i ==> self.entries@[j].0.identity != key.identity,
            decreases n - i,
        {
            if self.entries[i].0.identity == key.identity {
                proof {
                    lemma_entry_index_first(self.entries@, key.identity, i as int);
                }
                self.entries[i] = (key, value);
                proof {
                    let ghost upd = self.entries@;
                    let ghost orig = old(self).entries@;
                    assert forall|a: int, b: int| 0 <= a < b < upd.len() implies upd[a].0.identity
                        != upd[b].0.identity by {
                        assert(orig[a].0.identity != orig[b].0.identity);
                    }
                    lemma_entry_index_first(upd, key.identity, i as int);
                }
                return;
            }
            i += 1;
        }
        assert(!contains_identity(self.entries@, key.identity));
        self.entries.push((key, value));
        proof {
            let ghost ext = self.entries@;
            let ghost orig = old(self).entries@;
            assert forall|a: int, b: int| 0 <= a < b < ext.len() implies ext[a].0.identity
                != ext[b].0.identity by {
                if b < n {
                    assert(orig[a].0.identity != orig[b].0.identity);
                } else {
                    assert(ext[a] == orig[a]);
                }
            }
            lemma_entry_index_first(ext, key.identity, n as int);
        }
    }

    /// Look up the entry whose key shares `probe`'s identity value, however
    /// the other fields of the two keys differ.
    #[verifier::loop_isolation(false)]
    pub fn get<'a>(&'a self, probe: &EntityInstance) -> (r: Option<&'a (EntityInstance, u64)>)
        ensures
            match r {
                Some(entry) => lookup(self.entries@, probe.identity) == Some(*entry),
                None => lookup(self.entries@, probe.identity) is None,
            },
    {
        let n = self.entries.len();
        let mut i: usize = 0;
        while i < n
            invariant
                n == self.entries@.len(),
                i <= n,
                forall|j: int| 0 <= j < i ==> self.entries@[j].0.identity != probe.identity,
            decreases n - i,
        {
            if self.entries[i].0.identity == probe.identity {
                proof {
                    lemma_entry_index_first(self.entries@, probe.identity, i as int);
                }
                return Some(&self.entries[i]);
            }
            i += 1;
        }
        assert(!contains_identity(self.entries@, probe.identity));
        None
    }

    /// Whether some stored key shares `probe`'s identity value.
    pub fn contains(&self, probe: &EntityInstance) -> (r: bool)
        ensures
            r == contains_identity(self.entries@, probe.identity),
    {
        match self.get(probe) {
            Some(_) => true,
            None => false,
        }
    }
}

} // verus!
