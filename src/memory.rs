use vstd::prelude::*;
use crate::decision::Decision;
use crate::lookup::{Event, Fetched, Lookup};
use crate::policy::{decide, default_key};
use crate::resolver::{short_key, short_key_of, Action, Resolver};

verus! {

/// What a fetch of `key` returns from `entries`, searching from index `i`:
/// the newest entry for the key comes first.
pub open spec fn fetch_from(entries: Seq<(String, Lookup)>, key: Seq<char>, i: int) -> Fetched
    decreases entries.len() - i,
{
    if i < 0 || i >= entries.len() {
        Fetched::Absent
    } else if entries[i].0@ == key {
        entries[i].1@
    } else {
        fetch_from(entries, key, i + 1)
    }
}

/// A key-value store held in memory, in which each key has a fixed fetch
/// result: a stored text, or a store error. Keys never set are absent.
pub struct MemoryStore {
    entries: Vec<(String, Lookup)>,
}

impl MemoryStore {
    /// What a fetch of `key` returns.
    pub closed spec fn fetch(&self, key: Seq<char>) -> Fetched {
        fetch_from(self.entries@, key, 0)
    }

    /// An empty store.
    pub fn new() -> (s: MemoryStore)
        ensures
            forall|k: Seq<char>| s.fetch(k) == Fetched::Absent,
    {
        MemoryStore { entries: Vec::new() }
    }

    /// Makes every later fetch of `key` return `result`.
    pub fn set(&mut self, key: &str, result: Lookup)
        ensures
            final(self).fetch(key@) == result@,
            forall|k: Seq<char>| k != key@ ==> final(self).fetch(k) == old(self).fetch(k),
    {
        let ghost before = self.entries@;
        self.entries.insert(0, (key.to_owned(), result));
        assert(forall|j: int|
            0 <= j < before.len() ==> #[trigger] self.entries@[j + 1] == before[j]);
        assert forall|k: Seq<char>| k != key@ implies #[trigger] fetch_from(self.entries@, k, 0)
            == fetch_from(before, k, 0) by {
            lemma_fetch_shift(before, self.entries@, k, 0);
            assert(fetch_from(self.entries@, k, 0) == fetch_from(self.entries@, k, 1));
        }
    }

    /// Stores the text `value` under `key`.
    pub fn insert(&mut self, key: &str, value: &str)
        ensures
            final(self).fetch(key@) == Fetched::Found(value@),
            forall|k: Seq<char>| k != key@ ==> final(self).fetch(k) == old(self).fetch(k),
    {
        self.set(key, Lookup::Found(value.to_owned()));
    }

    /// Fetches `key`.
    pub fn get(&self, key: &str) -> (r: Lookup)
        ensures
            r@ == self.fetch(key@),
    {
        let wanted = key.to_owned();
        let mut i: usize = 0;
        while i < self.entries.len()
            invariant
                i <= self.entries@.len(),
                wanted@ == key@,
                fetch_from(self.entries@, key@, 0) == fetch_from(self.entries@, key@, i as int),
            decreases self.entries@.len() - i,
        {
            if self.entries[i].0 == wanted {
                return self.entries[i].1.copied();
            }
            i = i + 1;
        }
        Lookup::Absent
    }
}

/// After an entry is put in front, a search from `i + 1` in the new list is
/// the search from `i` in the old one.
proof fn lemma_fetch_shift(
    before: Seq<(String, Lookup)>,
    after: Seq<(String, Lookup)>,
    key: Seq<char>,
    i: int,
)
    requires
        after.len() == before.len() + 1,
        forall|j: int| 0 <= j < before.len() ==> after[j + 1] == before[j],
        after[0].0@ != key,
        0 <= i <= before.len(),
    ensures
        fetch_from(after, key, i + 1) == fetch_from(before, key, i),
    decreases before.len() - i,
{
    if i < before.len() {
        lemma_fetch_shift(before, after, key, i + 1);
    }
}

/// Two stores that give the same results answer the same path alike: in
/// particular the same request made twice, with no change to the store in
/// between, gets the same answer.
pub proof fn lemma_resolve_repeatable(first: MemoryStore, second: MemoryStore, path: Seq<char>)
    requires
        forall|k: Seq<char>| first.fetch(k) == second.fetch(k),
    ensures
        decide(short_key_of(path), first.fetch(default_key()), first.fetch(short_key_of(path)))
            == decide(
            short_key_of(path),
            second.fetch(default_key()),
            second.fetch(short_key_of(path)),
        ),
{
    assert(first.fetch(default_key()) == second.fetch(default_key()));
    assert(first.fetch(short_key_of(path)) == second.fetch(short_key_of(path)));
}

/// Answers a request for `path` against `store`, driving a `Resolver`
/// through its fetches.
pub fn resolve(store: &MemoryStore, path: &str) -> (d: Decision)
    ensures
        d@ == decide(
            short_key_of(path@),
            store.fetch(default_key()),
            store.fetch(short_key_of(path@)),
        ),
{
    let (mut resolver, first) = Resolver::start(short_key(path));
    let second = match first {
        Action::Fetch(k) => resolver.on_event(Event::Fetched(store.get(&k))),
        Action::Respond(d) => return d,
    };
    match second {
        Action::Respond(d) => d,
        Action::Fetch(k) => match resolver.on_event(Event::Fetched(store.get(&k))) {
            Action::Respond(d) => d,
            Action::Fetch(_) => Decision::Failure(String::new()),
        },
    }
}

} // verus!
