//! The registry of processors: at most one processor under each identifier.
use crate::text::same_text;
use vstd::prelude::*;

verus! {

/// The processors, each under its identifier.
#[derive(Debug)]
pub struct Processors<P> {
    inner: Vec<(&'static str, P)>,
}

/// The registry that a list of entries makes: each entry in turn takes its
/// identifier, so that of two entries with one identifier the later stays.
pub open spec fn registry_of<P>(entries: Seq<(&'static str, P)>) -> Map<Seq<char>, P>
    decreases entries.len(),
{
    if entries.len() == 0 {
        Map::empty()
    } else {
        registry_of(entries.drop_last()).insert(entries.last().0@, entries.last().1)
    }
}

/// No identifier stands twice.
spec fn distinct<P>(entries: Seq<(&'static str, P)>) -> bool {
    forall|i: int, j: int| 0 <= i < j < entries.len() ==> entries[i].0@ != entries[j].0@
}

/// Whether the identifier stands at the position.
spec fn stands_at<P>(entries: Seq<(&'static str, P)>, id: Seq<char>, i: int) -> bool {
    0 <= i < entries.len() && entries[i].0@ == id
}

/// The map from each identifier to the processor beside it.
spec fn lookup<P>(entries: Seq<(&'static str, P)>) -> Map<Seq<char>, P> {
    Map::new(
        |id: Seq<char>| exists|i: int| stands_at(entries, id, i),
        |id: Seq<char>| entries[choose|i: int| stands_at(entries, id, i)].1,
    )
}

proof fn lemma_lookup_at<P>(entries: Seq<(&'static str, P)>, i: int)
    requires
        distinct(entries),
        0 <= i < entries.len(),
    ensures
        lookup(entries).contains_key(entries[i].0@),
        lookup(entries)[entries[i].0@] == entries[i].1,
{
    let id = entries[i].0@;
    assert(stands_at(entries, id, i));
    let c = choose|c: int| stands_at(entries, id, c);
    assert(c == i);
}

proof fn lemma_lookup_push<P>(entries: Seq<(&'static str, P)>, id: &'static str, processor: P)
    requires
        distinct(entries),
        forall|k: int| 0 <= k < entries.len() ==> entries[k].0@ != id@,
    ensures
        distinct(entries.push((id, processor))),
        lookup(entries.push((id, processor))) == lookup(entries).insert(id@, processor),
{
    let longer = entries.push((id, processor));
    assert(distinct(longer));
    let wanted = lookup(entries).insert(id@, processor);
    assert forall|key: Seq<char>| #[trigger]
        lookup(longer).contains_key(key) implies wanted.contains_key(key) by {
        let i = choose|i: int| stands_at(longer, key, i);
        if i < entries.len() {
            assert(stands_at(entries, key, i));
        }
    }
    assert forall|key: Seq<char>| #[trigger] wanted.contains_key(key) implies lookup(
        longer,
    ).contains_key(key) && lookup(longer)[key] == wanted[key] by {
        if key == id@ {
            assert(stands_at(longer, key, entries.len() as int));
            lemma_lookup_at(longer, entries.len() as int);
        } else {
            let i = choose|i: int| stands_at(entries, key, i);
            assert(stands_at(longer, key, i));
            lemma_lookup_at(longer, i);
            lemma_lookup_at(entries, i);
        }
    }
    assert(lookup(longer) =~= wanted);
}

proof fn lemma_lookup_remove<P>(entries: Seq<(&'static str, P)>, i: int)
    requires
        distinct(entries),
        0 <= i < entries.len(),
    ensures
        distinct(entries.remove(i)),
        forall|k: int|
            0 <= k < entries.remove(i).len() ==> entries.remove(i)[k].0@ != entries[i].0@,
        lookup(entries.remove(i)) == lookup(entries).remove(entries[i].0@),
{
    let shorter = entries.remove(i);
    let id = entries[i].0@;
    assert forall|a: int, b: int| 0 <= a < b < shorter.len() implies shorter[a].0@
        != shorter[b].0@ by {
        let x = if a < i { a } else { a + 1 };
        let y = if b < i { b } else { b + 1 };
        assert(shorter[a] == entries[x]);
        assert(shorter[b] == entries[y]);
    }
    assert forall|k: int| 0 <= k < shorter.len() implies shorter[k].0@ != id by {
        let x = if k < i { k } else { k + 1 };
        assert(shorter[k] == entries[x]);
    }
    let wanted = lookup(entries).remove(id);
    assert forall|key: Seq<char>| #[trigger]
        lookup(shorter).contains_key(key) implies wanted.contains_key(key) && lookup(shorter)[key]
        == wanted[key] by {
        let k = choose|k: int| stands_at(shorter, key, k);
        let x = if k < i { k } else { k + 1 };
        assert(shorter[k] == entries[x]);
        assert(stands_at(entries, key, x));
        lemma_lookup_at(entries, x);
        lemma_lookup_at(shorter, k);
    }
    assert forall|key: Seq<char>| #[trigger] wanted.contains_key(key) implies lookup(
        shorter,
    ).contains_key(key) by {
        let x = choose|x: int| stands_at(entries, key, x);
        let k = if x < i { x } else { x - 1 };
        assert(shorter[k] == entries[x]);
        assert(stands_at(shorter, key, k));
    }
    assert(lookup(shorter) =~= wanted);
}

impl<P> View for Processors<P> {
    type V = Map<Seq<char>, P>;

    closed spec fn view(&self) -> Map<Seq<char>, P> {
        lookup(self.inner@)
    }
}

impl<P> Processors<P> {
    #[verifier::type_invariant]
    spec fn well_formed(&self) -> bool {
        distinct(self.inner@)
    }

    /// Where the identifier stands, if it does.
    fn position(&self, id: &str) -> (found: Option<usize>)
        ensures
            match found {
                Some(i) => stands_at(self.inner@, id@, i as int),
                None => forall|k: int| 0 <= k < self.inner@.len() ==> self.inner@[k].0@ != id@,
            },
    {
        let mut i: usize = 0;
        while i < self.inner.len()
            invariant
                i <= self.inner@.len(),
                forall|k: int| 0 <= k < i ==> self.inner@[k].0@ != id@,
            decreases self.inner@.len() - i,
        {
            if same_text(self.inner[i].0, id) {
                return Some(i);
            }
            i += 1;
        }
        None
    }

    /// A registry with the given entries. Of two entries with one identifier
    /// the later stays.
    pub fn new(entries: Vec<(&'static str, P)>) -> (registry: Self)
        ensures
            registry@ == registry_of(entries@),
    {
        let ghost all = entries@;
        let mut registry = Processors { inner: Vec::new() };
        assert(registry@ =~= Map::<Seq<char>, P>::empty());
        assert(all.take(0) =~= Seq::<(&'static str, P)>::empty());
        for entry in it: entries.into_iter()
            invariant
                it.seq() == all,
                registry@ == registry_of(all.take(it.index())),
        {
            let ghost k = it.index();
            assert(all.take(k + 1).drop_last() =~= all.take(k));
            assert(all.take(k + 1).last() == entry);
            let (id, processor) = entry;
            registry.add(id, processor);
        }
        assert(all.take(all.len() as int) =~= all);
        registry
    }

    /// Puts a processor under an identifier, in place of the one that was
    /// there, if any.
    pub fn add(&mut self, id: &'static str, processor: P)
        ensures
            final(self)@ == old(self)@.insert(id@, processor),
    {
        proof {
            use_type_invariant(&*self);
        }
        let found = self.position(id);
        let ghost before = self.inner@;
        let mut inner: Vec<(&'static str, P)> = Vec::new();
        core::mem::swap(&mut self.inner, &mut inner);
        match found {
            Some(i) => {
                inner.remove(i);
                proof {
                    lemma_lookup_remove(before, i as int);
                }
            },
            None => {},
        }
        let ghost middle = inner@;
        inner.push((id, processor));
        proof {
            lemma_lookup_push(middle, id, processor);
            assert(lookup(inner@) =~= lookup(before).insert(id@, processor));
        }
        core::mem::swap(&mut self.inner, &mut inner);
    }

    /// The processor under an identifier.
    pub fn get(&self, id: &str) -> (found: Option<&P>)
        ensures
            match found {
                Some(processor) => self@.contains_key(id@) && self@[id@] == *processor,
                None => !self@.contains_key(id@),
            },
    {
        proof {
            use_type_invariant(self);
        }
        match self.position(id) {
            Some(i) => {
                proof {
                    lemma_lookup_at(self.inner@, i as int);
                }
                Some(&self.inner[i].1)
            },
            None => None,
        }
    }

    /// Takes the processor under an identifier out of the registry.
    pub fn remove(&mut self, id: &str) -> (removed: Option<P>)
        ensures
            final(self)@ == old(self)@.remove(id@),
            match removed {
                Some(processor) => old(self)@.contains_key(id@) && old(self)@[id@] == processor,
                None => !old(self)@.contains_key(id@),
            },
    {
        proof {
            use_type_invariant(&*self);
        }
        match self.position(id) {
            Some(i) => {
                proof {
                    lemma_lookup_at(self.inner@, i as int);
                    lemma_lookup_remove(self.inner@, i as int);
                }
                let mut inner: Vec<(&'static str, P)> = Vec::new();
                core::mem::swap(&mut self.inner, &mut inner);
                let (_, processor) = inner.remove(i);
                core::mem::swap(&mut self.inner, &mut inner);
                Some(processor)
            },
            None => {
                assert(self@ =~= old(self)@.remove(id@));
                None
            },
        }
    }
}

} // verus!
