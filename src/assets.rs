use vstd::prelude::*;

use crate::text::str_eq;

verus! {

/// The map that results from inserting each (path, bytes) entry in order.
pub open spec fn map_of(entries: Seq<(Seq<char>, Seq<u8>)>) -> Map<Seq<char>, Seq<u8>>
    decreases entries.len(),
{
    if entries.len() == 0 {
        Map::empty()
    } else {
        map_of(entries.drop_last()).insert(entries.last().0, entries.last().1)
    }
}

/// No two entries share a path.
pub open spec fn distinct_paths(entries: Seq<(Seq<char>, Seq<u8>)>) -> bool {
    forall|i: int, j: int|
        0 <= i < entries.len() && 0 <= j < entries.len() && i != j ==> #[trigger] entries[i].0
            != #[trigger] entries[j].0
}

/// A path is a key of `map_of` exactly when some entry carries it.
pub proof fn lemma_map_of_domain(entries: Seq<(Seq<char>, Seq<u8>)>, k: Seq<char>)
    ensures
        map_of(entries).contains_key(k) <==> exists|i: int|
            0 <= i < entries.len() && #[trigger] entries[i].0 == k,
    decreases entries.len(),
{
    if entries.len() > 0 {
        let init = entries.drop_last();
        lemma_map_of_domain(init, k);
        if map_of(entries).contains_key(k) && k != entries.last().0 {
            let i = choose|i: int| 0 <= i < init.len() && #[trigger] init[i].0 == k;
            assert(entries[i].0 == k);
        }
        if exists|i: int| 0 <= i < entries.len() && #[trigger] entries[i].0 == k {
            let i = choose|i: int| 0 <= i < entries.len() && #[trigger] entries[i].0 == k;
            if i < init.len() {
                assert(init[i].0 == k);
            }
        }
    }
}

/// With distinct paths, each entry's bytes are what `map_of` holds for its path.
pub proof fn lemma_map_of_value(entries: Seq<(Seq<char>, Seq<u8>)>, i: int)
    requires
        distinct_paths(entries),
        0 <= i < entries.len(),
    ensures
        map_of(entries).contains_key(entries[i].0),
        map_of(entries)[entries[i].0] == entries[i].1,
    decreases entries.len(),
{
    let init = entries.drop_last();
    if i < entries.len() - 1 {
        assert(init[i] == entries[i]);
        lemma_map_of_value(init, i);
        assert(entries[i].0 != entries[entries.len() - 1].0);
    }
}

/// Replacing the bytes of an entry updates the map at that entry's path.
pub proof fn lemma_map_of_update(entries: Seq<(Seq<char>, Seq<u8>)>, i: int, d: Seq<u8>)
    requires
        distinct_paths(entries),
        0 <= i < entries.len(),
    ensures
        map_of(entries.update(i, (entries[i].0, d))) == map_of(entries).insert(entries[i].0, d),
    decreases entries.len(),
{
    let k = entries[i].0;
    let upd = entries.update(i, (k, d));
    let init = entries.drop_last();
    if i == entries.len() - 1 {
        assert(upd.drop_last() == init);
        lemma_map_of_domain(init, k);
        assert(map_of(upd) == map_of(init).insert(k, d));
        assert(map_of(entries).insert(k, d) =~= map_of(init).insert(k, d));
    } else {
        assert(init[i] == entries[i]);
        lemma_map_of_update(init, i, d);
        assert(upd.drop_last() == init.update(i, (k, d)));
        assert(k != entries.last().0);
        assert(map_of(upd) =~= map_of(entries).insert(k, d));
    }
}

/// One embedded file: its relative path and its bytes.
pub struct Asset {
    pub path: String,
    pub data: Vec<u8>,
}

/// A read-only bundle of files, from relative path to bytes, kept in the
/// order in which paths were first added.
pub struct AssetSet {
    entries: Vec<Asset>,
}

impl AssetSet {
    /// The entries as (path, bytes) pairs, in order.
    pub closed spec fn entries_view(&self) -> Seq<(Seq<char>, Seq<u8>)> {
        Seq::new(self.entries@.len(), |i: int| (self.entries@[i].path@, self.entries@[i].data@))
    }

    /// No path occurs twice.
    pub open spec fn wf(&self) -> bool {
        distinct_paths(self.entries_view())
    }

    /// The bundle as a map from relative path to bytes.
    pub open spec fn contents(&self) -> Map<Seq<char>, Seq<u8>> {
        map_of(self.entries_view())
    }

    /// An empty bundle.
    pub fn new() -> (r: AssetSet)
        ensures
            r.wf(),
            r.entries_view() == Seq::<(Seq<char>, Seq<u8>)>::empty(),
            r.contents() == Map::<Seq<char>, Seq<u8>>::empty(),
    {
        let r = AssetSet { entries: Vec::new() };
        assert(r.entries_view() =~= Seq::<(Seq<char>, Seq<u8>)>::empty());
        r
    }

    /// How many files the bundle holds.
    pub fn len(&self) -> (r: usize)
        ensures
            r == self.entries_view().len(),
    {
        self.entries.len()
    }

    /// The relative path of the entry at `i`.
    pub fn path_at(&self, i: usize) -> (r: &String)
        requires
            i < self.entries_view().len(),
        ensures
            r@ == self.entries_view()[i as int].0,
    {
        &self.entries[i].path
    }

    /// The bytes of the entry at `i`.
    pub fn data_at(&self, i: usize) -> (r: &Vec<u8>)
        requires
            i < self.entries_view().len(),
        ensures
            r@ == self.entries_view()[i as int].1,
    {
        &self.entries[i].data
    }

    /// The position of the entry whose path is `path`, if there is one.
    pub fn find(&self, path: &str) -> (r: Option<usize>)
        requires
            self.wf(),
        ensures
            r is None <==> !self.contents().contains_key(path@),
            r matches Some(i) ==> i < self.entries_view().len() && self.entries_view()[i as int].0
                == path@,
    {
        let mut i: usize = 0;
        while i < self.entries.len()
            invariant
                i <= self.entries_view().len(),
                self.entries_view().len() == self.entries@.len(),
                forall|j: int| 0 <= j < i ==> #[trigger] self.entries_view()[j].0 != path@,
            decreases self.entries@.len() - i,
        {
            if str_eq(self.entries[i].path.as_str(), path) {
                assert(self.entries_view()[i as int].0 == path@);
                proof {
                    lemma_map_of_domain(self.entries_view(), path@);
                }
                return Some(i);
            }
            i = i + 1;
        }
        proof {
            lemma_map_of_domain(self.entries_view(), path@);
        }
        None
    }

    /// Whether the bundle holds a file at `path`.
    pub fn contains(&self, path: &str) -> (r: bool)
        requires
            self.wf(),
        ensures
            r == self.contents().contains_key(path@),
    {
        self.find(path).is_some()
    }

    /// The bytes stored at `path`, if the bundle holds that path.
    pub fn get(&self, path: &str) -> (r: Option<&Vec<u8>>)
        requires
            self.wf(),
        ensures
            r is None <==> !self.contents().contains_key(path@),
            r matches Some(d) ==> d@ == self.contents()[path@],
    {
        match self.find(path) {
            Some(i) => {
                proof {
                    lemma_map_of_value(self.entries_view(), i as int);
                }
                Some(&self.entries[i].data)
            },
            None => None,
        }
    }

    /// Stores `data` at `path`, replacing what was there.
    pub fn insert(&mut self, path: String, data: Vec<u8>)
        requires
            old(self).wf(),
        ensures
            final(self).wf(),
            final(self).contents() == old(self).contents().insert(path@, data@),
    {
        let ghost ev = self.entries_view();
        match self.find(path.as_str()) {
            Some(i) => {
                let ghost p = path@;
                let ghost d = data@;
                self.entries.set(i, Asset { path, data });
                proof {
                    assert(self.entries_view() =~= ev.update(i as int, (p, d)));
                    lemma_map_of_update(ev, i as int, d);
                }
            },
            None => {
                let ghost p = path@;
                let ghost d = data@;
                self.entries.push(Asset { path, data });
                proof {
                    lemma_map_of_domain(ev, p);
                    assert(self.entries_view().drop_last() =~= ev);
                    assert(self.entries_view() =~= ev.push((p, d)));
                }
            },
        }
    }
}

} // verus!
