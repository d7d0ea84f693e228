use vstd::prelude::*;

verus! {

/// Position of the first entry with key `k`.
pub open spec fn assoc_index<W>(s: Seq<(Seq<char>, W)>, k: Seq<char>) -> Option<int>
    decreases s.len(),
{
    if s.len() == 0 {
        None
    } else if s[0].0 == k {
        Some(0)
    } else {
        match assoc_index(s.drop_first(), k) {
            Some(i) => Some(i + 1),
            None => None,
        }
    }
}

/// The value of the first entry with key `k`.
pub open spec fn assoc_get<W>(s: Seq<(Seq<char>, W)>, k: Seq<char>) -> Option<W> {
    match assoc_index(s, k) {
        Some(i) => Some(s[i].1),
        None => None,
    }
}

/// The entries after binding `k` to `v`: the entry with key `k` is replaced in place, or a new
/// entry is appended.
pub open spec fn assoc_insert<W>(s: Seq<(Seq<char>, W)>, k: Seq<char>, v: W) -> Seq<(Seq<char>, W)> {
    match assoc_index(s, k) {
        Some(i) => s.update(i, (k, v)),
        None => s.push((k, v)),
    }
}

/// `assoc_index` finds the first entry with the key, and `None` means that no entry has it.
pub proof fn lemma_assoc_index<W>(s: Seq<(Seq<char>, W)>, k: Seq<char>)
    ensures
        match assoc_index(s, k) {
            Some(i) => 0 <= i < s.len() && s[i].0 == k && forall|j: int|
                0 <= j < i ==> #[trigger] s[j].0 != k,
            None => forall|j: int| 0 <= j < s.len() ==> #[trigger] s[j].0 != k,
        },
    decreases s.len(),
{
    if s.len() > 0 {
        lemma_assoc_index(s.drop_first(), k);
        if s[0].0 != k {
            match assoc_index(s.drop_first(), k) {
                Some(i) => {
                    assert forall|j: int| 0 <= j < i + 1 implies #[trigger] s[j].0 != k by {
                        if j > 0 {
                            assert(s[j] == s.drop_first()[j - 1]);
                        }
                    }
                },
                None => {
                    assert forall|j: int| 0 <= j < s.len() implies #[trigger] s[j].0 != k by {
                        if j > 0 {
                            assert(s[j] == s.drop_first()[j - 1]);
                        }
                    }
                },
            }
        }
    }
}

/// Conversely, the first position with the key is what `assoc_index` gives.
pub proof fn lemma_assoc_index_at<W>(s: Seq<(Seq<char>, W)>, k: Seq<char>, i: int)
    requires
        0 <= i < s.len(),
        s[i].0 == k,
        forall|j: int| 0 <= j < i ==> #[trigger] s[j].0 != k,
    ensures
        assoc_index(s, k) == Some(i),
{
    lemma_assoc_index(s, k);
    match assoc_index(s, k) {
        Some(m) => {
            if m < i {
                assert(s[m].0 != k);
            } else if m > i {
                assert(s[i].0 != k);
            }
        },
        None => {
            assert(s[i].0 != k);
        },
    }
}

pub proof fn lemma_assoc_index_none<W>(s: Seq<(Seq<char>, W)>, k: Seq<char>)
    requires
        forall|j: int| 0 <= j < s.len() ==> #[trigger] s[j].0 != k,
    ensures
        assoc_index(s, k) is None,
{
    lemma_assoc_index(s, k);
    match assoc_index(s, k) {
        Some(m) => {
            assert(s[m].0 != k);
        },
        None => {},
    }
}

/// A read after a write of the same key gives back the written value; other keys are unaffected.
pub proof fn lemma_assoc_get_insert<W>(s: Seq<(Seq<char>, W)>, k: Seq<char>, v: W, k2: Seq<char>)
    ensures
        assoc_get(assoc_insert(s, k, v), k2) == if k2 == k {
            Some(v)
        } else {
            assoc_get(s, k2)
        },
{
    let t = assoc_insert(s, k, v);
    lemma_assoc_index(s, k);
    lemma_assoc_index(s, k2);
    lemma_assoc_index(t, k2);
    match assoc_index(s, k) {
        Some(i) => {
            if k2 == k {
                lemma_assoc_index_at(t, k2, i);
            } else {
                match assoc_index(s, k2) {
                    Some(m) => {
                        assert forall|j: int| 0 <= j < m implies #[trigger] t[j].0 != k2 by {
                            if j != i {
                                assert(t[j] == s[j]);
                            }
                        }
                        lemma_assoc_index_at(t, k2, m);
                    },
                    None => {
                        assert forall|j: int| 0 <= j < t.len() implies #[trigger] t[j].0 != k2 by {
                            if j != i {
                                assert(t[j] == s[j]);
                            }
                        }
                        lemma_assoc_index_none(t, k2);
                    },
                }
            }
        },
        None => {
            if k2 == k {
                lemma_assoc_index_at(t, k2, s.len() as int);
            } else {
                match assoc_index(s, k2) {
                    Some(m) => {
                        lemma_assoc_index_at(t, k2, m);
                    },
                    None => {
                        lemma_assoc_index_none(t, k2);
                    },
                }
            }
        },
    }
}

/// A finite map from names to values, in the order in which the names were first bound.
#[derive(Debug)]
pub struct NameMap<V> {
    pub entries: Vec<(String, V)>,
}

/// The model of the entries: names as character sequences, values by their views.
pub open spec fn entries_model<V: View>(s: Seq<(String, V)>) -> Seq<(Seq<char>, V::V)> {
    s.map_values(|p: (String, V)| (p.0@, p.1@))
}

impl<V: View> View for NameMap<V> {
    type V = Seq<(Seq<char>, V::V)>;

    open spec fn view(&self) -> Seq<(Seq<char>, V::V)> {
        entries_model(self.entries@)
    }
}

impl<V: View> NameMap<V> {
    pub fn new() -> (r: Self)
        ensures
            r@ == Seq::<(Seq<char>, V::V)>::empty(),
    {
        let r = NameMap { entries: Vec::new() };
        proof {
            assert(r@ =~= Seq::<(Seq<char>, V::V)>::empty());
        }
        r
    }

    /// Position of the entry with key `k`.
    pub fn find(&self, k: &String) -> (r: Option<usize>)
        ensures
            r matches Some(i) ==> assoc_index(self@, k@) == Some(i as int),
            r is None ==> assoc_index(self@, k@) is None,
    {
        let mut i: usize = 0;
        while i < self.entries.len()
            invariant
                i <= self.entries.len(),
                self@.len() == self.entries@.len(),
                forall|j: int| 0 <= j < i ==> #[trigger] self@[j].0 != k@,
            decreases self.entries.len() - i,
        {
            if self.entries[i].0 == *k {
                proof {
                    lemma_assoc_index_at(self@, k@, i as int);
                }
                return Some(i);
            }
            i = i + 1;
        }
        proof {
            lemma_assoc_index_none(self@, k@);
        }
        None
    }

    /// The value bound to `k`.
    pub fn get(&self, k: &String) -> (r: Option<&V>)
        ensures
            match assoc_get(self@, k@) {
                Some(w) => r is Some && r.unwrap()@ == w,
                None => r is None,
            },
    {
        match self.find(k) {
            Some(i) => {
                proof {
                    lemma_assoc_index(self@, k@);
                    assert(self@[i as int] == (self.entries@[i as int].0@, self.entries@[i as int].1@));
                }
                let r = &self.entries[i].1;
                proof {
                    assert(assoc_index(self@, k@) == Some(i as int));
                    assert(assoc_get(self@, k@) == Some(self@[i as int].1));
                    assert(r@ == self@[i as int].1);
                }
                Some(r)
            },
            None => None,
        }
    }

    /// Binds `k` to `v`, replacing an earlier binding of `k`.
    pub fn insert(&mut self, k: String, v: V)
        ensures
            final(self)@ == assoc_insert(old(self)@, k@, v@),
    {
        match self.find(&k) {
            Some(i) => {
                proof {
                    lemma_assoc_index(old(self)@, k@);
                }
                let ghost kv = k@;
                let ghost vv = v@;
                self.entries.set(i, (k, v));
                proof {
                    assert(self@ =~= old(self)@.update(i as int, (kv, vv)));
                }
            },
            None => {
                let ghost kv = k@;
                let ghost vv = v@;
                self.entries.push((k, v));
                proof {
                    assert(self@ =~= old(self)@.push((kv, vv)));
                }
            },
        }
    }

    pub fn len(&self) -> (r: usize)
        ensures
            r == self@.len(),
    {
        self.entries.len()
    }
}

} // verus!
