//! A filesystem model: a mapping from path to file bytes, held as a vector
//! of write entries where a later entry for a path shadows an earlier one.
//! The atomic writer's commit sequence is verified against this model, and
//! tests drive it through every injected failure.

use vstd::prelude::*;
use vstd::string::StringExecFns;

verus! {

/// An in-memory filesystem: each entry records a path and the bytes last
/// written under it; among entries for the same path the latest one wins.
pub struct FsModel {
    entries: Vec<(String, Vec<u8>)>,
}

/// The mapping a sequence of write entries denotes, folding the entries in
/// order so that a later entry for a path shadows an earlier one.
spec fn pairs_map(s: Seq<(String, Vec<u8>)>) -> Map<Seq<char>, Seq<u8>>
    decreases s.len(),
{
    if s.len() == 0 {
        Map::empty()
    } else {
        pairs_map(s.drop_last()).insert(s.last().0@, s.last().1@)
    }
}

impl View for FsModel {
    type V = Map<Seq<char>, Seq<u8>>;

    closed spec fn view(&self) -> Map<Seq<char>, Seq<u8>> {
        pairs_map(self.entries@)
    }
}

/// When no entry at or after position `i` carries the key, the denoted
/// mapping agrees at that key with the mapping denoted by the first `i`
/// entries.
proof fn lemma_pairs_map_suffix_absent(s: Seq<(String, Vec<u8>)>, i: int, k: Seq<char>)
    requires
        0 <= i <= s.len(),
        forall|j: int| i <= j < s.len() ==> (#[trigger] s[j]).0@ != k,
    ensures
        pairs_map(s).contains_key(k) == pairs_map(s.take(i)).contains_key(k),
        pairs_map(s).contains_key(k) ==> pairs_map(s)[k] == pairs_map(s.take(i))[k],
    decreases s.len() - i,
{
    if i == s.len() {
        assert(s.take(i) =~= s);
    } else {
        let s1 = s.drop_last();
        assert(s.last().0@ != k);
        lemma_pairs_map_suffix_absent(s1, i, k);
        assert(s1.take(i) =~= s.take(i));
    }
}

/// Copies a byte vector.
fn clone_bytes(v: &Vec<u8>) -> (r: Vec<u8>)
    ensures
        r@ == v@,
{
    let mut r: Vec<u8> = Vec::new();
    let mut i: usize = 0;
    while i < v.len()
        invariant
            i <= v@.len(),
            r@ == v@.take(i as int),
        decreases v@.len() - i,
    {
        r.push(v[i]);
        proof {
            assert(r@ =~= v@.take(i + 1));
        }
        i += 1;
    }
    proof {
        assert(v@.take(v@.len() as int) =~= v@);
    }
    r
}

impl FsModel {
    /// An empty filesystem: no path holds a file.
    pub fn new() -> (r: FsModel)
        ensures
            r@ == Map::<Seq<char>, Seq<u8>>::empty(),
    {
        FsModel { entries: Vec::new() }
    }

    /// Writes a complete file: the path now holds exactly these bytes, and
    /// every other path is untouched.
    pub fn write(&mut self, path: &str, data: Vec<u8>)
        ensures
            final (self)@ == old(self)@.insert(path@, data@),
    {
        let ghost s = self.entries@;
        let ghost d = data@;
        let key = String::from_str(path);
        self.entries.push((key, data));
        proof {
            assert(self.entries@.drop_last() =~= s);
            assert(self.entries@.last().0@ == path@ && self.entries@.last().1@ == d);
        }
    }

    /// Reads the file a path holds, if any.
    pub fn read(&self, path: &str) -> (r: Option<Vec<u8>>)
        ensures
            r is Some <==> self@.contains_key(path@),
            r matches Some(d) ==> d@ == self@[path@],
    {
        let p = String::from_str(path);
        let ghost s = self.entries@;
        let n = self.entries.len();
        let mut i = n;
        while i > 0
            invariant
                i <= n,
                n == s.len(),
                s == self.entries@,
                p@ == path@,
                forall|j: int| i <= j < n ==> (#[trigger] s[j]).0@ != path@,
            decreases i,
        {
            i -= 1;
            let e = &self.entries[i];
            if e.0 == p {
                proof {
                    lemma_pairs_map_suffix_absent(s, i + 1, path@);
                    assert(s.take(i + 1).drop_last() =~= s.take(i as int));
                    assert(s.take(i + 1).last() == s[i as int]);
                }
                return Some(clone_bytes(&e.1));
            }
        }
        proof {
            lemma_pairs_map_suffix_absent(s, 0, path@);
            assert(s.take(0) =~= Seq::<(String, Vec<u8>)>::empty());
        }
        None
    }

    /// Deletes whatever file the path holds: the path holds nothing
    /// afterwards, and every other path is untouched. Deleting an absent
    /// path is harmless.
    pub fn remove(&mut self, path: &str)
        ensures
            final (self)@ == old(self)@.remove(path@),
    {
        let p = String::from_str(path);
        let ghost s = self.entries@;
        let n = self.entries.len();
        let mut kept: Vec<(String, Vec<u8>)> = Vec::new();
        let mut i: usize = 0;
        while i < n
            invariant
                i <= n,
                n == s.len(),
                s == self.entries@,
                p@ == path@,
                pairs_map(kept@) == pairs_map(s.take(i as int)).remove(path@),
            decreases n - i,
        {
            let ghost kept0 = kept@;
            let e = &self.entries[i];
            proof {
                assert(s.take(i + 1).drop_last() =~= s.take(i as int));
                assert(s.take(i + 1).last() == s[i as int]);
            }
            if e.0 == p {
                proof {
                    assert(pairs_map(s.take(i + 1)).remove(path@) =~= pairs_map(
                        s.take(i as int),
                    ).remove(path@));
                }
            } else {
                kept.push((e.0.clone(), clone_bytes(&e.1)));
                proof {
                    assert(kept@.drop_last() =~= kept0);
                    assert(kept@.last().0@ == s[i as int].0@ && kept@.last().1@ == s[
                        i as int
                    ].1@);
                    assert(pairs_map(s.take(i + 1)).remove(path@) =~= pairs_map(
                        s.take(i as int),
                    ).remove(path@).insert(s[i as int].0@, s[i as int].1@));
                }
            }
            i += 1;
        }
        proof {
            assert(s.take(n as int) =~= s);
        }
        self.entries = kept;
    }

    /// Moves the file under `from` onto `to`, replacing whatever `to` held,
    /// exactly as a filesystem rename does; reports whether `from` held a
    /// file at all, and touches nothing when it did not.
    pub fn rename(&mut self, from: &str, to: &str) -> (r: bool)
        ensures
            r == old(self)@.contains_key(from@),
            r ==> final (self)@ == old(self)@.remove(from@).insert(to@, old(self)@[from@]),
            !r ==> final (self)@ == old(self)@,
    {
        match self.read(from) {
            Some(data) => {
                self.remove(from);
                self.write(to, data);
                true
            },
            None => false,
        }
    }
}

} // verus!
