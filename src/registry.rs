use crate::entry::MockEntry;
use std::any::TypeId;
use std::sync::Arc;
use vstd::prelude::*;

verus! {

/// What a lookup of `key` for the callable type identified by `t` finds in
/// the keyed store `m`: the entry, when there is one for `key` and it was
/// stored with that type.
pub open spec fn lookup(m: Map<Seq<char>, MockEntry>, key: Seq<char>, t: TypeId) -> Option<MockEntry> {
    if m.contains_key(key) && m[key].tag() == t {
        Some(m[key])
    } else {
        None
    }
}

/// The token returned when a substitute is registered; handing it back to
/// the registry removes the substitute stored under its key.
#[must_use]
pub struct MockGuard {
    name: String,
}

impl View for MockGuard {
    type V = Seq<char>;

    closed spec fn view(&self) -> Seq<char> {
        self.name@
    }
}

impl MockGuard {
    fn new(name: String) -> (r: MockGuard)
        ensures
            r@ == name@,
    {
        MockGuard { name }
    }

    /// The key of the substitute this guard is bound to.
    pub fn name(&self) -> (r: &str)
        ensures
            r@ == self@,
    {
        self.name.as_str()
    }
}

struct MockSlot {
    key: String,
    entry: MockEntry,
}

/// A keyed store of type-erased substitutes, at most one per key.
pub struct MockRegistry {
    slots: Vec<MockSlot>,
    model: Ghost<Map<Seq<char>, MockEntry>>,
}

impl View for MockRegistry {
    type V = Map<Seq<char>, MockEntry>;

    closed spec fn view(&self) -> Map<Seq<char>, MockEntry> {
        self.model@
    }
}

/// The slots hold distinct keys, and exactly the keys and entries of `m`.
spec fn slots_match(s: Seq<MockSlot>, m: Map<Seq<char>, MockEntry>) -> bool {
    &&& forall|i: int, j: int|
        0 <= i < j < s.len() ==> #[trigger] s[i].key@ != #[trigger] s[j].key@
    &&& forall|i: int|
        0 <= i < s.len() ==> m.contains_key(#[trigger] s[i].key@) && m[s[i].key@] == s[i].entry
    &&& forall|k: Seq<char>|
        #[trigger] m.contains_key(k) ==> exists|i: int| 0 <= i < s.len() && #[trigger] s[i].key@ == k
}

proof fn lemma_remove_slot(s: Seq<MockSlot>, m: Map<Seq<char>, MockEntry>, i: int)
    requires
        slots_match(s, m),
        0 <= i < s.len(),
    ensures
        slots_match(s.remove(i), m.remove(s[i].key@)),
{
    let s1 = s.remove(i);
    let m1 = m.remove(s[i].key@);
    assert forall|k: Seq<char>| #[trigger] m1.contains_key(k) implies exists|j: int|
        0 <= j < s1.len() && #[trigger] s1[j].key@ == k by {
        let w = choose|j: int| 0 <= j < s.len() && #[trigger] s[j].key@ == k;
        if w < i {
            assert(s1[w].key@ == k);
        } else {
            assert(s1[w - 1].key@ == k);
        }
    }
    assert forall|j: int| 0 <= j < s1.len() implies m1.contains_key(#[trigger] s1[j].key@)
        && m1[s1[j].key@] == s1[j].entry by {
        if j < i {
            assert(s[j] == s1[j]);
        } else {
            assert(s[j + 1] == s1[j]);
        }
    }
    assert forall|a: int, b: int| 0 <= a < b < s1.len() implies #[trigger] s1[a].key@
        != #[trigger] s1[b].key@ by {
        let a0 = if a < i { a } else { a + 1 };
        let b0 = if b < i { b } else { b + 1 };
        assert(s[a0].key@ != s[b0].key@);
    }
}

proof fn lemma_push_slot(s: Seq<MockSlot>, m: Map<Seq<char>, MockEntry>, x: MockSlot)
    requires
        slots_match(s, m),
        !m.contains_key(x.key@),
    ensures
        slots_match(s.push(x), m.insert(x.key@, x.entry)),
{
    let s1 = s.push(x);
    let m1 = m.insert(x.key@, x.entry);
    assert forall|k: Seq<char>| #[trigger] m1.contains_key(k) implies exists|j: int|
        0 <= j < s1.len() && #[trigger] s1[j].key@ == k by {
        if k == x.key@ {
            assert(s1[s.len() as int].key@ == k);
        } else {
            let w = choose|j: int| 0 <= j < s.len() && #[trigger] s[j].key@ == k;
            assert(s1[w].key@ == k);
        }
    }
    assert forall|j: int| 0 <= j < s1.len() implies m1.contains_key(#[trigger] s1[j].key@)
        && m1[s1[j].key@] == s1[j].entry by {
        if j < s.len() {
            assert(s[j] == s1[j]);
        }
    }
    assert forall|a: int, b: int| 0 <= a < b < s1.len() implies #[trigger] s1[a].key@
        != #[trigger] s1[b].key@ by {
        if b < s.len() {
            assert(s[a].key@ != s[b].key@);
        } else {
            assert(m.contains_key(s[a].key@));
        }
    }
}

impl MockRegistry {
    #[verifier::type_invariant]
    spec fn wf(&self) -> bool {
        slots_match(self.slots@, self.model@)
    }

    /// An empty registry.
    pub fn new() -> (r: MockRegistry)
        ensures
            r@ == Map::<Seq<char>, MockEntry>::empty(),
    {
        MockRegistry { slots: Vec::new(), model: Ghost(Map::empty()) }
    }

    fn find_index(&self, key: &String) -> (r: Option<usize>)
        ensures
            match r {
                Some(i) => i < self.slots@.len() && self.slots@[i as int].key@ == key@,
                None => !self@.contains_key(key@),
            },
    {
        proof {
            use_type_invariant(self);
        }
        let mut i: usize = 0;
        while i < self.slots.len()
            invariant
                i <= self.slots@.len(),
                forall|j: int| 0 <= j < i ==> self.slots@[j].key@ != key@,
            decreases self.slots@.len() - i,
        {
            if self.slots[i].key == *key {
                return Some(i);
            }
            i = i + 1;
        }
        None
    }

    /// Whether a substitute is stored under `name`.
    pub fn contains(&self, name: &str) -> (r: bool)
        ensures
            r == self@.contains_key(name@),
    {
        proof {
            use_type_invariant(self);
        }
        let key = name.to_owned();
        self.find_index(&key).is_some()
    }

    /// Removes the substitute stored under `name`, if any.
    pub fn remove(&mut self, name: &str)
        ensures
            final(self)@ == old(self)@.remove(name@),
    {
        let key = name.to_owned();
        match self.find_index(&key) {
            Some(i) => {
                let mut taken = MockRegistry::new();
                std::mem::swap(self, &mut taken);
                proof {
                    use_type_invariant(&taken);
                }
                let MockRegistry { mut slots, model } = taken;
                let ghost s0 = slots@;
                let _gone = slots.remove(i);
                let ghost m = model@.remove(key@);
                proof {
                    lemma_remove_slot(s0, model@, i as int);
                }
                *self = MockRegistry { slots, model: Ghost(m) };
                assert(self@ =~= old(self)@.remove(name@));
            },
            None => {
                assert(self@ =~= old(self)@.remove(name@));
            },
        }
    }

    /// Stores `entry` under `name`, replacing whatever was stored there, and
    /// returns the guard bound to `name`.
    pub fn insert_entry(&mut self, name: &str, entry: MockEntry) -> (g: MockGuard)
        ensures
            final(self)@ == old(self)@.insert(name@, entry),
            g@ == name@,
    {
        self.remove(name);
        let mut taken = MockRegistry::new();
        std::mem::swap(self, &mut taken);
        proof {
            use_type_invariant(&taken);
        }
        let MockRegistry { mut slots, model } = taken;
        let key = name.to_owned();
        let gkey = name.to_owned();
        let slot = MockSlot { key, entry };
        let ghost m = model@.insert(name@, slot.entry);
        proof {
            lemma_push_slot(slots@, model@, slot);
        }
        let ghost e = slot.entry;
        slots.push(slot);
        *self = MockRegistry { slots, model: Ghost(m) };
        assert(self@ =~= old(self)@.insert(name@, e));
        MockGuard::new(gkey)
    }

    /// Registers `mock` under `name`, replacing whatever was stored there, and
    /// returns the guard bound to `name`.
    pub fn set_mock<F: ?Sized + Send + Sync + 'static>(&mut self, name: &str, mock: Arc<F>) -> (g: MockGuard)
        ensures
            final(self)@ == old(self)@.insert(name@, final(self)@[name@]),
            g@ == name@,
    {
        self.insert_entry(name, MockEntry::new(mock))
    }

    /// The entry stored under `name` when it was stored with the type
    /// identified by `t`.
    pub fn find_entry(&self, name: &str, t: &TypeId) -> (r: Option<&MockEntry>)
        ensures
            match r {
                Some(e) => lookup(self@, name@, *t) == Some(*e),
                None => lookup(self@, name@, *t) is None,
            },
    {
        proof {
            use_type_invariant(self);
        }
        let key = name.to_owned();
        match self.find_index(&key) {
            Some(i) => {
                let e = &self.slots[i].entry;
                if *e.type_tag() == *t {
                    Some(e)
                } else {
                    None
                }
            },
            None => None,
        }
    }

    /// The substitute stored under `name`, recovered as callable type `F`;
    /// nothing when no substitute is stored there or it was stored with
    /// another type.
    pub fn get_mock<F: ?Sized + Send + Sync + 'static>(&self, name: &str) -> (r: Option<Arc<F>>)
        ensures
            !self@.contains_key(name@) ==> r is None,
            r is Some ==> self@.contains_key(name@),
    {
        let t = MockEntry::tag_for::<F>();
        match self.find_entry(name, &t) {
            Some(e) => e.recover::<F>(),
            None => None,
        }
    }

    /// Hands a guard back: the substitute stored under its key is removed.
    pub fn release(&mut self, guard: MockGuard)
        ensures
            final(self)@ == old(self)@.remove(guard@),
    {
        self.remove(guard.name());
    }
}

} // verus!
