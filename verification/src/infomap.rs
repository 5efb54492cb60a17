use vstd::prelude::*;

use crate::strutil::str_eq;

verus! {

/// The map denoted by an association list: every pair is inserted in order,
/// so a later binding of a key shadows an earlier one.
spec fn assoc_map(s: Seq<(String, String)>) -> Map<Seq<char>, Seq<char>>
    decreases s.len(),
{
    if s.len() == 0 {
        Map::empty()
    } else {
        assoc_map(s.drop_last()).insert(s.last().0@, s.last().1@)
    }
}

/// A pair in the suffix `s[i..]` settles a key: where no such pair binds
/// `key`, the whole list and the prefix `s[..i]` denote the same binding
/// for `key`.
proof fn lemma_assoc_map_suffix_free(s: Seq<(String, String)>, i: int, key: Seq<char>)
    requires
        0 <= i <= s.len(),
        forall|j: int| i <= j < s.len() ==> s[j].0@ != key,
    ensures
        assoc_map(s).contains_key(key) == assoc_map(s.take(i)).contains_key(key),
        assoc_map(s).contains_key(key) ==> assoc_map(s)[key] == assoc_map(s.take(i))[key],
    decreases s.len() - i,
{
    if i < s.len() {
        lemma_assoc_map_suffix_free(s, i + 1, key);
        assert(s.take(i + 1).drop_last() =~= s.take(i));
        assert(s.take(i + 1).last() == s[i]);
    } else {
        assert(s.take(i) =~= s);
    }
}

/// The per-run key/value dataset handed to the template renderer.
///
/// Pairs are kept in insertion order; reading it as a map, the last
/// insertion of a key wins, exactly as `Map::insert` does.
pub struct InfoMap {
    pub(crate) pairs: Vec<(String, String)>,
}

impl View for InfoMap {
    type V = Map<Seq<char>, Seq<char>>;

    closed spec fn view(&self) -> Map<Seq<char>, Seq<char>> {
        assoc_map(self.pairs@)
    }
}

impl InfoMap {
    /// An empty dataset.
    pub fn new() -> (m: InfoMap)
        ensures
            m@ == Map::<Seq<char>, Seq<char>>::empty(),
    {
        InfoMap { pairs: Vec::new() }
    }

    /// Binds `key` to `value`, shadowing any earlier binding of `key`.
    pub fn insert(&mut self, key: String, value: String)
        ensures
            final(self)@ == old(self)@.insert(key@, value@),
    {
        let ghost prior = self.pairs@;
        self.pairs.push((key, value));
        proof {
            assert(self.pairs@.drop_last() =~= prior);
        }
    }

    /// Looks `key` up: the value of its latest binding, or `None` where it
    /// was never bound.
    pub fn get<'a>(&'a self, key: &str) -> (r: Option<&'a String>)
        ensures
            match r {
                Some(v) => self@.contains_key(key@) && v@ == self@[key@],
                None => !self@.contains_key(key@),
            },
    {
        let mut i: usize = self.pairs.len();
        while i > 0
            invariant
                i <= self.pairs@.len(),
                forall|j: int| i <= j < self.pairs@.len() ==> self.pairs@[j].0@ != key@,
            decreases i,
        {
            i = i - 1;
            if str_eq(self.pairs[i].0.as_str(), key) {
                proof {
                    lemma_assoc_map_suffix_free(self.pairs@, i + 1, key@);
                    assert(self.pairs@.take(i + 1).drop_last() =~= self.pairs@.take(i as int));
                    assert(self.pairs@.take(i + 1).last() == self.pairs@[i as int]);
                }
                return Some(&self.pairs[i].1);
            }
        }
        proof {
            lemma_assoc_map_suffix_free(self.pairs@, 0, key@);
            assert(self.pairs@.take(0) =~= Seq::<(String, String)>::empty());
        }
        None
    }

    /// Whether `key` is bound.
    pub fn contains_key(&self, key: &str) -> (r: bool)
        ensures
            r == self@.contains_key(key@),
    {
        match self.get(key) {
            Some(_) => true,
            None => false,
        }
    }
}

} // verus!
