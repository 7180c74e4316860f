use vstd::prelude::*;
use crate::extract::{extract_value, extracted_value, props_of, RawElement};

verus! {

/// The mapping held by an association list, a later entry overriding an
/// earlier one with the same key.
pub open spec fn assoc_map(entries: Seq<(Seq<char>, Seq<char>)>) -> Map<Seq<char>, Seq<char>>
    decreases entries.len(),
{
    if entries.len() == 0 {
        Map::empty()
    } else {
        assoc_map(entries.drop_last()).insert(entries.last().0, entries.last().1)
    }
}

/// Whether no two entries of an association list share a key.
pub open spec fn unique_keys(entries: Seq<(Seq<char>, Seq<char>)>) -> bool {
    forall|i: int, j: int| 0 <= i < j < entries.len() ==> entries[i].0 != entries[j].0
}

/// The views of a list of owned entries.
pub open spec fn entry_views(entries: Seq<(String, String)>) -> Seq<(Seq<char>, Seq<char>)> {
    entries.map_values(|e: (String, String)| (e.0@, e.1@))
}

proof fn lemma_unique_drop_last(s: Seq<(Seq<char>, Seq<char>)>)
    requires
        unique_keys(s),
        s.len() > 0,
    ensures
        unique_keys(s.drop_last()),
{
    assert forall|i: int, j: int|
        0 <= i < j < s.drop_last().len() implies s.drop_last()[i].0 != s.drop_last()[j].0 by {
        assert(s.drop_last()[i] == s[i]);
        assert(s.drop_last()[j] == s[j]);
    }
}

proof fn lemma_assoc_update(s: Seq<(Seq<char>, Seq<char>)>, i: int, v: Seq<char>)
    requires
        unique_keys(s),
        0 <= i < s.len(),
    ensures
        assoc_map(s.update(i, (s[i].0, v))) == assoc_map(s).insert(s[i].0, v),
    decreases s.len(),
{
    let k = s[i].0;
    let t = s.update(i, (k, v));
    if i == s.len() - 1 {
        assert(t.drop_last() =~= s.drop_last());
        assert(t.last() == (k, v));
        assert(assoc_map(s.drop_last()).insert(k, s.last().1).insert(k, v) =~= assoc_map(
            s.drop_last(),
        ).insert(k, v));
    } else {
        assert(t.drop_last() =~= s.drop_last().update(i, (k, v)));
        assert(s.drop_last()[i] == s[i]);
        lemma_unique_drop_last(s);
        lemma_assoc_update(s.drop_last(), i, v);
        assert(t.last() == s.last());
        assert(s[i].0 != s[s.len() - 1].0);
        assert(assoc_map(s.drop_last()).insert(k, v).insert(s.last().0, s.last().1) =~= assoc_map(
            s.drop_last(),
        ).insert(s.last().0, s.last().1).insert(k, v));
    }
}

proof fn lemma_assoc_contains(s: Seq<(Seq<char>, Seq<char>)>, k: Seq<char>)
    ensures
        assoc_map(s).contains_key(k) <==> (exists|i: int| 0 <= i < s.len() && s[i].0 == k),
    decreases s.len(),
{
    if s.len() == 0 {
    } else {
        lemma_assoc_contains(s.drop_last(), k);
        if s.last().0 == k {
            assert(s[s.len() - 1].0 == k);
        } else {
            if exists|i: int| 0 <= i < s.len() && s[i].0 == k {
                let i = choose|i: int| 0 <= i < s.len() && s[i].0 == k;
                assert(i < s.len() - 1);
                assert(s.drop_last()[i] == s[i]);
            }
            if exists|i: int| 0 <= i < s.drop_last().len() && s.drop_last()[i].0 == k {
                let i = choose|i: int| 0 <= i < s.drop_last().len() && s.drop_last()[i].0 == k;
                assert(s.drop_last()[i] == s[i]);
            }
        }
    }
}

proof fn lemma_assoc_found(s: Seq<(Seq<char>, Seq<char>)>, i: int)
    requires
        unique_keys(s),
        0 <= i < s.len(),
    ensures
        assoc_map(s).contains_key(s[i].0),
        assoc_map(s)[s[i].0] == s[i].1,
    decreases s.len(),
{
    if i == s.len() - 1 {
    } else {
        lemma_unique_drop_last(s);
        assert(s.drop_last()[i] == s[i]);
        lemma_assoc_found(s.drop_last(), i);
        assert(s[i].0 != s[s.len() - 1].0);
    }
}

fn upsert(entries: &mut Vec<(String, String)>, key: String, value: String)
    requires
        unique_keys(entry_views(old(entries)@)),
    ensures
        unique_keys(entry_views(final(entries)@)),
        assoc_map(entry_views(final(entries)@)) == assoc_map(entry_views(old(entries)@)).insert(
            key@,
            value@,
        ),
{
    let ghost kv = key@;
    let ghost vv = value@;
    let n = entries.len();
    let mut i: usize = 0;
    while i < n
        invariant
            0 <= i <= n,
            n == entries@.len(),
            entries@ == old(entries)@,
            unique_keys(entry_views(entries@)),
            forall|j: int| 0 <= j < i ==> entry_views(entries@)[j].0 != kv,
            key@ == kv,
            value@ == vv,
        decreases n - i,
    {
        if entries[i].0 == key {
            proof {
                assert(entry_views(entries@)[i as int].0 == kv);
                lemma_assoc_update(entry_views(entries@), i as int, vv);
            }
            let pair = (key, value);
            proof {
                assert(pair.0@ == kv);
                assert(pair.1@ == vv);
            }
            entries[i] = pair;
            proof {
                let u = entry_views(old(entries)@);
                let w = entry_views(entries@);
                assert forall|j: int| 0 <= j < w.len() implies w[j] == u.update(
                    i as int,
                    (kv, vv),
                )[j] by {
                    assert(w[j] == (entries@[j].0@, entries@[j].1@));
                    if j != i {
                        assert(entries@[j] == old(entries)@[j]);
                        assert(u[j] == (old(entries)@[j].0@, old(entries)@[j].1@));
                    } else {
                        assert(entries@[i as int].0@ == kv);
                        assert(entries@[i as int].1@ == vv);
                    }
                }
                assert(entry_views(entries@) =~= entry_views(old(entries)@).update(
                    i as int,
                    (kv, vv),
                ));
                assert forall|a: int, b: int|
                    0 <= a < b < entry_views(entries@).len() implies entry_views(entries@)[a].0
                    != entry_views(entries@)[b].0 by {
                    let u = entry_views(old(entries)@);
                    let w = entry_views(entries@);
                    assert(w =~= u.update(i as int, (kv, vv)));
                    assert(u[i as int].0 == kv);
                    assert(w[a].0 == u[a].0);
                    assert(w[b].0 == u[b].0);
                }
            }
            return;
        }
        i = i + 1;
    }
    entries.push((key, value));
    proof {
        let u = entry_views(old(entries)@);
        let w = entry_views(entries@);
        assert(w =~= u.push((kv, vv)));
        assert(w.drop_last() =~= u);
        assert(assoc_map(w) == assoc_map(u).insert(kv, vv));
        assert forall|a: int, b: int| 0 <= a < b < w.len() implies w[a].0 != w[b].0 by {
            if b == w.len() - 1 {
                assert(w[a].0 == u[a].0);
                assert(u[a].0 != kv);
            } else {
                assert(w[a].0 == u[a].0);
                assert(w[b].0 == u[b].0);
            }
        }
    }
}

/// The named properties extracted from one page: an order-irrelevant
/// mapping from property name to extracted value, built once per page and
/// immutable afterwards.
#[derive(Debug)]
pub struct PageProperties {
    entries: Vec<(String, String)>,
}

impl View for PageProperties {
    type V = Map<Seq<char>, Seq<char>>;

    closed spec fn view(&self) -> Map<Seq<char>, Seq<char>> {
        assoc_map(entry_views(self.entries@))
    }
}

impl PageProperties {
    #[verifier::type_invariant]
    spec fn wf(&self) -> bool {
        unique_keys(entry_views(self.entries@))
    }

    /// Builds the property mapping of the given elements, read in order: a
    /// later occurrence of a property name overrides an earlier one.
    pub fn from_elements(elems: &Vec<RawElement>) -> (r: PageProperties)
        ensures
            r@ == props_of(elems@.map_values(|e: RawElement| e@)),
    {
        let ghost models = elems@.map_values(|e: RawElement| e@);
        let mut entries: Vec<(String, String)> = Vec::new();
        let mut idx: usize = 0;
        while idx < elems.len()
            invariant
                0 <= idx <= elems@.len(),
                models == elems@.map_values(|e: RawElement| e@),
                unique_keys(entry_views(entries@)),
                assoc_map(entry_views(entries@)) == props_of(models.subrange(0, idx as int)),
            decreases elems@.len() - idx,
        {
            let e = &elems[idx];
            proof {
                assert(models.subrange(0, idx + 1).drop_last() =~= models.subrange(0, idx as int));
                assert(models.subrange(0, idx + 1).last() == models[idx as int]);
                assert(models[idx as int] == elems@[idx as int]@);
            }
            match extract_value(e) {
                Some(v) => {
                    let value = v.to_owned();
                    let keyname = e.prop.clone();
                    proof {
                        assert(keyname@ == models[idx as int].prop);
                        assert(extracted_value(models[idx as int]) == Some(value@));
                    }
                    upsert(&mut entries, keyname, value);
                },
                None => {
                    proof {
                        assert(extracted_value(models[idx as int]) is None);
                    }
                },
            }
            idx = idx + 1;
        }
        proof {
            assert(models.subrange(0, elems@.len() as int) =~= models);
        }
        PageProperties { entries }
    }

    /// Looks a property up by name: the extracted value when the page
    /// carries the property, and nothing otherwise.
    pub fn get(&self, name: &str) -> (r: Option<&str>)
        ensures
            (match r {
                Some(v) => self@.contains_key(name@) && v@ == self@[name@],
                None => !self@.contains_key(name@),
            }),
    {
        proof {
            use_type_invariant(self);
        }
        let key: String = name.to_owned();
        let n = self.entries.len();
        let mut i: usize = 0;
        while i < n
            invariant
                0 <= i <= n,
                n == self.entries@.len(),
                key@ == name@,
                unique_keys(entry_views(self.entries@)),
                forall|j: int| 0 <= j < i ==> entry_views(self.entries@)[j].0 != name@,
            decreases n - i,
        {
            if self.entries[i].0 == key {
                proof {
                    lemma_assoc_found(entry_views(self.entries@), i as int);
                }
                return Some(self.entries[i].1.as_str());
            }
            i = i + 1;
        }
        proof {
            lemma_assoc_contains(entry_views(self.entries@), name@);
        }
        None
    }
}

} // verus!
