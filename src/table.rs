//! The table of embedded assets.

use vstd::prelude::*;

verus! {

/// One embedded file: the key it is stored under and its content.
pub struct Asset {
    pub path: String,
    pub bytes: Vec<u8>,
}

/// The assets of a frontend bundle, keyed by their relative path.
///
/// The table is filled once and then only read. An entry added under a key
/// that is already present shadows the earlier one.
pub struct AssetTable {
    entries: Vec<Asset>,
}

/// The mapping that a sequence of entries denotes: each key to the content of
/// its last entry.
pub open spec fn entries_map(entries: Seq<Asset>) -> Map<Seq<char>, Seq<u8>>
    decreases entries.len(),
{
    if entries.len() == 0 {
        Map::empty()
    } else {
        let last = entries.last();
        entries_map(entries.drop_last()).insert(last.path@, last.bytes@)
    }
}

/// Where no entry from index `i` on has key `k`, the entries before `i`
/// decide what `k` maps to.
proof fn lemma_entries_map_prefix(entries: Seq<Asset>, i: int, k: Seq<char>)
    requires
        0 <= i <= entries.len(),
        forall|j: int| i <= j < entries.len() ==> entries[j].path@ != k,
    ensures
        entries_map(entries).contains_key(k) == entries_map(entries.take(i)).contains_key(k),
        entries_map(entries).contains_key(k) ==> entries_map(entries)[k] == entries_map(
            entries.take(i),
        )[k],
    decreases entries.len(),
{
    if entries.len() == i {
        assert(entries.take(i) =~= entries);
    } else {
        let rest = entries.drop_last();
        assert(rest.take(i) =~= entries.take(i));
        lemma_entries_map_prefix(rest, i, k);
    }
}

impl View for AssetTable {
    type V = Map<Seq<char>, Seq<u8>>;

    closed spec fn view(&self) -> Map<Seq<char>, Seq<u8>> {
        entries_map(self.entries@)
    }
}

impl AssetTable {
    /// A table with no asset.
    pub fn new() -> (r: AssetTable)
        ensures
            r@ == Map::<Seq<char>, Seq<u8>>::empty(),
    {
        AssetTable { entries: Vec::new() }
    }

    /// Stores `bytes` under `path`, replacing what was stored there.
    pub fn insert(&mut self, path: String, bytes: Vec<u8>)
        ensures
            final(self)@ == old(self)@.insert(path@, bytes@),
    {
        let ghost before = self.entries@;
        self.entries.push(Asset { path, bytes });
        assert(self.entries@.drop_last() =~= before);
    }

    /// The content stored under `path`, if any.
    pub fn get(&self, path: &str) -> (r: Option<&Vec<u8>>)
        ensures
            r.is_some() == self@.contains_key(path@),
            r.is_some() ==> r.unwrap()@ == self@[path@],
    {
        let key = path.to_owned();
        let mut i: usize = self.entries.len();
        while i > 0
            invariant
                i <= self.entries@.len(),
                key@ == path@,
                forall|j: int| i <= j < self.entries@.len() ==> self.entries@[j].path@ != path@,
            decreases i,
        {
            i = i - 1;
            if self.entries[i].path == key {
                proof {
                    lemma_entries_map_prefix(self.entries@, i + 1, path@);
                    assert(self.entries@.take(i + 1).drop_last() =~= self.entries@.take(i as int));
                }
                return Some(&self.entries[i].bytes);
            }
        }
        proof {
            lemma_entries_map_prefix(self.entries@, 0, path@);
        }
        None
    }

    /// Whether an asset is stored under `path`.
    pub fn contains(&self, path: &str) -> (r: bool)
        ensures
            r == self@.contains_key(path@),
    {
        self.get(path).is_some()
    }
}

} // verus!
