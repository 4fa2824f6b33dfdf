use vstd::prelude::*;
use vstd::string::StringExecFns;
use crate::text::{decimal, is_digit, lemma_decimal_digits, lemma_decimal_injective, push_char, push_decimal};

verus! {

/// The composite lookup key of a `(hash, public key)` pair: the length of the
/// hash in decimal, a colon, the hash, then the public key. The length prefix
/// tells where the hash ends, whatever characters either part holds.
pub open spec fn composite_key(hash: Seq<char>, pub_key: Seq<char>) -> Seq<char> {
    decimal(hash.len()) + seq![':'] + hash + pub_key
}

/// Distinct `(hash, public key)` pairs never share a composite key.
pub proof fn lemma_composite_key_injective(h1: Seq<char>, p1: Seq<char>, h2: Seq<char>, p2: Seq<char>)
    requires
        h1 != h2 || p1 != p2,
    ensures
        composite_key(h1, p1) != composite_key(h2, p2),
{
    if composite_key(h1, p1) == composite_key(h2, p2) {
        let k = composite_key(h1, p1);
        let d1 = decimal(h1.len());
        let d2 = decimal(h2.len());
        lemma_decimal_digits(h1.len());
        lemma_decimal_digits(h2.len());
        assert(k[d1.len() as int] == ':');
        assert(composite_key(h2, p2)[d2.len() as int] == ':');
        if d1.len() < d2.len() {
            assert(composite_key(h2, p2)[d1.len() as int] == d2[d1.len() as int]);
        } else if d2.len() < d1.len() {
            assert(k[d2.len() as int] == d1[d2.len() as int]);
        } else {
            assert(d1 =~= k.subrange(0, d1.len() as int));
            assert(d2 =~= composite_key(h2, p2).subrange(0, d2.len() as int));
            lemma_decimal_injective(h1.len(), h2.len());
            let start: int = d1.len() as int + 1;
            assert(h1 =~= k.subrange(start, start + h1.len()));
            assert(h2 =~= composite_key(h2, p2).subrange(start, start + h2.len()));
            assert(p1 =~= k.subrange(start + h1.len(), k.len() as int));
            assert(p2 =~= composite_key(h2, p2).subrange(start + h2.len(), k.len() as int));
        }
    }
}

/// The map that a list of entries stands for; a later entry for a key wins.
pub open spec fn map_of(es: Seq<(Seq<char>, Seq<char>)>) -> Map<Seq<char>, Seq<char>>
    decreases es.len(),
{
    if es.len() == 0 {
        Map::empty()
    } else {
        map_of(es.drop_last()).insert(es.last().0, es.last().1)
    }
}

pub open spec fn keys_unique(es: Seq<(Seq<char>, Seq<char>)>) -> bool {
    forall|i: int, j: int| 0 <= i < es.len() && 0 <= j < es.len() && i != j ==> es[i].0 != es[j].0
}

proof fn lemma_map_of_entry(es: Seq<(Seq<char>, Seq<char>)>, i: int)
    requires
        keys_unique(es),
        0 <= i < es.len(),
    ensures
        map_of(es).contains_key(es[i].0),
        map_of(es)[es[i].0] == es[i].1,
    decreases es.len(),
{
    if i < es.len() - 1 {
        let dl = es.drop_last();
        assert(dl[i] == es[i]);
        assert(keys_unique(dl)) by {
            assert forall|a: int, b: int| 0 <= a < dl.len() && 0 <= b < dl.len() && a != b implies dl[a].0 != dl[b].0 by {
                assert(dl[a] == es[a] && dl[b] == es[b]);
            }
        }
        lemma_map_of_entry(dl, i);
        assert(es[es.len() - 1].0 != es[i].0);
    }
}

proof fn lemma_map_of_absent(es: Seq<(Seq<char>, Seq<char>)>, k: Seq<char>)
    requires
        forall|i: int| 0 <= i < es.len() ==> (#[trigger] es[i]).0 != k,
    ensures
        !map_of(es).contains_key(k),
    decreases es.len(),
{
    if es.len() > 0 {
        let dl = es.drop_last();
        assert forall|i: int| 0 <= i < dl.len() implies (#[trigger] dl[i]).0 != k by {
            assert(dl[i] == es[i]);
        }
        lemma_map_of_absent(dl, k);
        assert(es[es.len() - 1].0 != k);
    }
}

proof fn lemma_map_of_len(es: Seq<(Seq<char>, Seq<char>)>)
    requires
        keys_unique(es),
    ensures
        map_of(es).dom().finite(),
        map_of(es).len() == es.len(),
    decreases es.len(),
{
    if es.len() > 0 {
        let dl = es.drop_last();
        assert(keys_unique(dl)) by {
            assert forall|a: int, b: int| 0 <= a < dl.len() && 0 <= b < dl.len() && a != b implies dl[a].0 != dl[b].0 by {
                assert(dl[a] == es[a] && dl[b] == es[b]);
            }
        }
        lemma_map_of_len(dl);
        assert forall|i: int| 0 <= i < dl.len() implies (#[trigger] dl[i]).0 != es.last().0 by {
            assert(dl[i] == es[i]);
        }
        lemma_map_of_absent(dl, es.last().0);
    }
}

proof fn lemma_map_of_update(es: Seq<(Seq<char>, Seq<char>)>, i: int, v: Seq<char>)
    requires
        keys_unique(es),
        0 <= i < es.len(),
    ensures
        map_of(es.update(i, (es[i].0, v))) == map_of(es).insert(es[i].0, v),
    decreases es.len(),
{
    let up = es.update(i, (es[i].0, v));
    let dl = es.drop_last();
    if i == es.len() - 1 {
        assert(up.drop_last() =~= dl);
        assert(map_of(up) =~= map_of(es).insert(es[i].0, v));
    } else {
        assert(keys_unique(dl)) by {
            assert forall|a: int, b: int| 0 <= a < dl.len() && 0 <= b < dl.len() && a != b implies dl[a].0 != dl[b].0 by {
                assert(dl[a] == es[a] && dl[b] == es[b]);
            }
        }
        assert(dl[i] == es[i]);
        lemma_map_of_update(dl, i, v);
        assert(up.drop_last() =~= dl.update(i, (es[i].0, v)));
        assert(es.last().0 != es[i].0);
        assert(map_of(up) =~= map_of(es).insert(es[i].0, v));
    }
}

pub open spec fn view_of(es: Seq<(String, String)>) -> Seq<(Seq<char>, Seq<char>)> {
    es.map_values(|e: (String, String)| (e.0@, e.1@))
}

/// The index from composite keys to user identifiers, kept as one record.
#[derive(Debug)]
pub struct PubKeys {
    entries: Vec<(String, String)>,
}

impl PubKeys {
    pub closed spec fn entries_view(&self) -> Seq<(Seq<char>, Seq<char>)> {
        view_of(self.entries@)
    }

    /// Each composite key occurs in one entry at most.
    #[verifier::type_invariant]
    spec fn wf(&self) -> bool {
        keys_unique(self.entries_view())
    }

    /// The mapping from composite key to identifier.
    pub closed spec fn view(&self) -> Map<Seq<char>, Seq<char>> {
        map_of(self.entries_view())
    }

    /// The composite lookup key of a hash and a public key.
    pub fn key(hash: &str, pub_key: &str) -> (r: String)
        ensures
            r@ == composite_key(hash@, pub_key@),
    {
        let mut s = String::new();
        push_decimal(&mut s, hash.unicode_len());
        push_char(&mut s, ':');
        s.append(hash);
        s.append(pub_key);
        assert(s@ =~= composite_key(hash@, pub_key@));
        s
    }

    /// An index with no entries.
    pub fn new() -> (r: PubKeys)
        ensures
            r@ == Map::<Seq<char>, Seq<char>>::empty(),
    {
        let r = PubKeys { entries: Vec::new() };
        assert(r.entries_view() =~= Seq::<(Seq<char>, Seq<char>)>::empty());
        r
    }

    fn position(&self, key: &str) -> (r: Option<usize>)
        ensures
            match r {
                Some(i) => i < self.entries@.len() && self.entries@[i as int].0@ == key@,
                None => !self@.contains_key(key@),
            },
    {
        proof {
            use_type_invariant(self);
        }
        let k = key.to_owned();
        let mut i: usize = 0;
        while i < self.entries.len()
            invariant
                i <= self.entries@.len(),
                k@ == key@,
                forall|j: int| 0 <= j < i ==> (#[trigger] self.entries@[j]).0@ != key@,
            decreases self.entries@.len() - i,
        {
            if self.entries[i].0 == k {
                return Some(i);
            }
            i = i + 1;
        }
        proof {
            let es = self.entries_view();
            assert forall|j: int| 0 <= j < es.len() implies (#[trigger] es[j]).0 != key@ by {
                assert(es[j].0 == self.entries@[j].0@);
            }
            lemma_map_of_absent(es, key@);
        }
        None
    }

    /// The identifier that a composite key maps to, if any.
    pub fn get_user_uuid(&self, key: &str) -> (r: Option<&String>)
        ensures
            match r {
                Some(u) => self@.contains_key(key@) && self@[key@] == u@,
                None => !self@.contains_key(key@),
            },
    {
        proof {
            use_type_invariant(self);
        }
        match self.position(key) {
            Some(i) => {
                proof {
                    lemma_map_of_entry(self.entries_view(), i as int);
                }
                Some(&self.entries[i].1)
            },
            None => None,
        }
    }

    /// The number of composite keys in the index.
    pub fn num_keys(&self) -> (r: usize)
        ensures
            r == self@.len(),
    {
        proof {
            use_type_invariant(self);
            lemma_map_of_len(self.entries_view());
        }
        self.entries.len()
    }

    /// Maps `key` to `uuid`, replacing what it mapped to before.
    pub fn insert(&mut self, key: String, uuid: String)
        ensures
            final(self)@ == old(self)@.insert(key@, uuid@),
    {
        proof {
            use_type_invariant(&*self);
        }
        let found = self.position(key.as_str());
        let ghost es = self.entries_view();
        let mut entries: Vec<(String, String)> = Vec::new();
        std::mem::swap(&mut entries, &mut self.entries);
        assert(view_of(entries@) == es);
        match found {
            Some(i) => {
                proof {
                    lemma_map_of_update(es, i as int, uuid@);
                }
                entries.set(i, (key, uuid));
                let ghost ns = view_of(entries@);
                assert(ns =~= es.update(i as int, (es[i as int].0, uuid@)));
                assert(keys_unique(ns)) by {
                    assert forall|a: int, b: int| 0 <= a < ns.len() && 0 <= b < ns.len() && a != b implies ns[a].0 != ns[b].0 by {
                        assert(ns[a].0 == es[a].0 && ns[b].0 == es[b].0);
                    }
                }
            },
            None => {
                proof {
                    assert forall|j: int| 0 <= j < es.len() implies (#[trigger] es[j]).0 != key@ by {
                        if es[j].0 == key@ {
                            lemma_map_of_entry(es, j);
                        }
                    }
                }
                entries.push((key, uuid));
                let ghost ns = view_of(entries@);
                assert(ns.drop_last() =~= es);
                assert(keys_unique(ns)) by {
                    assert forall|a: int, b: int| 0 <= a < ns.len() && 0 <= b < ns.len() && a != b implies ns[a].0 != ns[b].0 by {
                        if a < es.len() {
                            assert(ns[a] == es[a]);
                        }
                        if b < es.len() {
                            assert(ns[b] == es[b]);
                        }
                    }
                }
            },
        }
        self.entries = entries;
    }

    /// The entries of the index, one per composite key.
    pub fn entries(&self) -> (r: &Vec<(String, String)>)
        ensures
            view_of(r@) == self.entries_view(),
            keys_unique(view_of(r@)),
            map_of(view_of(r@)) == self@,
    {
        proof {
            use_type_invariant(self);
        }
        &self.entries
    }
}

impl Clone for PubKeys {
    fn clone(&self) -> (r: PubKeys)
        ensures
            r@ == self@,
    {
        proof {
            use_type_invariant(self);
        }
        let mut entries: Vec<(String, String)> = Vec::new();
        let mut i: usize = 0;
        while i < self.entries.len()
            invariant
                i <= self.entries@.len(),
                entries@.len() == i,
                forall|j: int| 0 <= j < i ==> #[trigger] entries@[j] == self.entries@[j],
            decreases self.entries@.len() - i,
        {
            let e = &self.entries[i];
            entries.push((e.0.clone(), e.1.clone()));
            i = i + 1;
        }
        assert(entries@ =~= self.entries@);
        PubKeys { entries }
    }
}

} // verus!
