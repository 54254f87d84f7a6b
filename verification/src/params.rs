//! A collection of parameters for a request.
//!
//! Parameters are keyed by name; adding a parameter under an existing name
//! replaces its value in place, so names stay unique and the order of first
//! insertion is kept.

use vstd::prelude::*;

verus! {

/// The name/value views of a list of string pairs.
pub open spec fn pairs_view(v: Seq<(String, String)>) -> Seq<(Seq<char>, Seq<char>)> {
    Seq::new(v.len(), |i: int| (v[i].0@, v[i].1@))
}

/// The value stored under `key`, or `None` when no entry carries it.
pub open spec fn spec_lookup(
    s: Seq<(Seq<char>, Seq<char>)>,
    key: Seq<char>,
) -> Option<Seq<char>>
    decreases s.len(),
{
    if s.len() == 0 {
        None
    } else if s.first().0 == key {
        Some(s.first().1)
    } else {
        spec_lookup(s.drop_first(), key)
    }
}

/// Whether some entry carries `key`.
pub open spec fn spec_has_key(s: Seq<(Seq<char>, Seq<char>)>, key: Seq<char>) -> bool {
    spec_lookup(s, key) is Some
}

/// The value of the last entry under `key`, or `None` when no entry
/// carries it. In a list where later entries win — a header list, or a
/// batch of additions — this is the value that takes effect.
pub open spec fn spec_last_value(
    s: Seq<(Seq<char>, Seq<char>)>,
    key: Seq<char>,
) -> Option<Seq<char>>
    decreases s.len(),
{
    if s.len() == 0 {
        None
    } else if s.last().0 == key {
        Some(s.last().1)
    } else {
        spec_last_value(s.drop_last(), key)
    }
}

/// Entries under other names do not change the effective value of `key`.
pub proof fn lemma_last_value_append(
    s: Seq<(Seq<char>, Seq<char>)>,
    t: Seq<(Seq<char>, Seq<char>)>,
    key: Seq<char>,
)
    requires
        forall|i: int| 0 <= i < t.len() ==> (#[trigger] t[i]).0 != key,
    ensures
        spec_last_value(s + t, key) == spec_last_value(s, key),
    decreases t.len(),
{
    if t.len() == 0 {
        assert(s + t =~= s);
    } else {
        assert((s + t).last() == t.last());
        assert((s + t).drop_last() =~= s + t.drop_last());
        lemma_last_value_append(s, t.drop_last(), key);
    }
}

/// Entry names are pairwise distinct.
pub open spec fn unique_keys(s: Seq<(Seq<char>, Seq<char>)>) -> bool {
    forall|i: int, j: int| 0 <= i < j < s.len() ==> (#[trigger] s[i]).0 != (#[trigger] s[j]).0
}

/// A collection of parameters for a request.
#[derive(Debug)]
pub struct Parameters {
    entries: Vec<(String, String)>,
}

impl Clone for Parameters {
    /// The copy holds the same entries, in the same order.
    fn clone(&self) -> (r: Self)
        ensures
            r@ == self@,
    {
        let mut entries: Vec<(String, String)> = Vec::new();
        let n = self.entries.len();
        let mut i: usize = 0;
        while i < n
            invariant
                i <= n,
                n == self.entries@.len(),
                entries@.len() == i,
                forall|q: int| 0 <= q < i ==> #[trigger] entries@[q] == self.entries@[q],
            decreases n - i,
        {
            entries.push((self.entries[i].0.clone(), self.entries[i].1.clone()));
            i = i + 1;
        }
        let r = Parameters { entries };
        proof {
            assert(r@ =~= self@);
        }
        r
    }
}

impl View for Parameters {
    type V = Seq<(Seq<char>, Seq<char>)>;

    closed spec fn view(&self) -> Seq<(Seq<char>, Seq<char>)> {
        Seq::new(self.entries@.len(), |i: int| (self.entries@[i].0@, self.entries@[i].1@))
    }
}

proof fn lemma_lookup_update(s: Seq<(Seq<char>, Seq<char>)>, i: int, key: Seq<char>, v: Seq<char>)
    requires
        0 <= i < s.len(),
        s[i].0 == key,
        forall|j: int| 0 <= j < i ==> (#[trigger] s[j]).0 != key,
    ensures
        spec_lookup(s.update(i, (key, v)), key) == Some(v),
        forall|k: Seq<char>|
            k != key ==> spec_lookup(s.update(i, (key, v)), k) == spec_lookup(s, k),
    decreases s.len(),
{
    let t = s.update(i, (key, v));
    if i == 0 {
        assert(t.first() == (key, v));
        assert(t.drop_first() =~= s.drop_first());
        assert forall|k: Seq<char>| k != key implies spec_lookup(t, k) == spec_lookup(
            s,
            k,
        ) by {
            assert(s.first().0 == key);
            assert(spec_lookup(t, k) == spec_lookup(t.drop_first(), k));
            assert(spec_lookup(s, k) == spec_lookup(s.drop_first(), k));
        }
    } else {
        assert(t.first() == s.first());
        assert(t.drop_first() =~= s.drop_first().update(i - 1, (key, v)));
        assert(s.drop_first()[i - 1].0 == key);
        assert forall|j: int| 0 <= j < i - 1 implies (#[trigger] s.drop_first()[j]).0 != key by {
            assert(s.drop_first()[j] == s[j + 1]);
        }
        lemma_lookup_update(s.drop_first(), i - 1, key, v);
        assert(s.first().0 != key);
        assert(spec_lookup(t, key) == Some(v));
        assert forall|k: Seq<char>| k != key implies spec_lookup(t, k) == spec_lookup(
            s,
            k,
        ) by {
            if s.first().0 != k {
                assert(spec_lookup(t, k) == spec_lookup(t.drop_first(), k));
                assert(spec_lookup(s, k) == spec_lookup(s.drop_first(), k));
            }
        }
    }
}

proof fn lemma_lookup_push(s: Seq<(Seq<char>, Seq<char>)>, key: Seq<char>, v: Seq<char>)
    requires
        forall|j: int| 0 <= j < s.len() ==> (#[trigger] s[j]).0 != key,
    ensures
        spec_lookup(s.push((key, v)), key) == Some(v),
        forall|k: Seq<char>| k != key ==> spec_lookup(s.push((key, v)), k) == spec_lookup(s, k),
    decreases s.len(),
{
    let t = s.push((key, v));
    if s.len() == 0 {
        assert(t.first() == (key, v));
        assert(t.drop_first() =~= Seq::<(Seq<char>, Seq<char>)>::empty());
        assert forall|k: Seq<char>| k != key implies spec_lookup(t, k) == spec_lookup(
            s,
            k,
        ) by {
            assert(spec_lookup(t, k) == spec_lookup(t.drop_first(), k));
        }
    } else {
        assert(t.first() == s.first());
        assert(t.drop_first() =~= s.drop_first().push((key, v)));
        assert forall|j: int| 0 <= j < s.drop_first().len() implies (#[trigger] s.drop_first()[j]).0 != key by {
            assert(s.drop_first()[j] == s[j + 1]);
        }
        lemma_lookup_push(s.drop_first(), key, v);
        assert(s.first().0 != key);
        assert forall|k: Seq<char>| k != key implies spec_lookup(t, k) == spec_lookup(
            s,
            k,
        ) by {
            if s.first().0 != k {
                assert(spec_lookup(t, k) == spec_lookup(t.drop_first(), k));
                assert(spec_lookup(s, k) == spec_lookup(s.drop_first(), k));
            }
        }
    }
}

/// A key that no prefix entry carries and that the lookup misses is absent.
proof fn lemma_lookup_none(s: Seq<(Seq<char>, Seq<char>)>, key: Seq<char>)
    requires
        forall|j: int| 0 <= j < s.len() ==> (#[trigger] s[j]).0 != key,
    ensures
        spec_lookup(s, key) is None,
    decreases s.len(),
{
    if s.len() > 0 {
        assert forall|j: int| 0 <= j < s.drop_first().len() implies (#[trigger] s.drop_first()[j]).0 != key by {
            assert(s.drop_first()[j] == s[j + 1]);
        }
        lemma_lookup_none(s.drop_first(), key);
    }
}

impl Parameters {
    /// Creates a new empty collection of parameters.
    pub fn new() -> (r: Parameters)
        ensures
            r@.len() == 0,
            unique_keys(r@),
    {
        Parameters { entries: Vec::new() }
    }

    /// Adds a parameter to the collection. An existing entry under the same
    /// name has its value replaced in place; otherwise the entry is appended.
    pub fn param(self, key: &str, value: &str) -> (r: Parameters)
        requires
            unique_keys(self@),
        ensures
            unique_keys(r@),
            spec_lookup(r@, key@) == Some(value@),
            forall|k: Seq<char>| k != key@ ==> spec_lookup(r@, k) == spec_lookup(self@, k),
            spec_has_key(self@, key@) ==> (exists|i: int|
                0 <= i < self@.len() && (#[trigger] self@[i]).0 == key@ && r@ == self@.update(
                    i,
                    (key@, value@),
                )),
            !spec_has_key(self@, key@) ==> r@ == self@.push((key@, value@)),
    {
        let mut entries = self.entries;
        let key_string: String = key.to_owned();
        let value_string: String = value.to_owned();
        let ghost s = Seq::new(entries@.len(), |i: int| (entries@[i].0@, entries@[i].1@));
        let n = entries.len();
        let mut i: usize = 0;
        while i < n
            invariant
                i <= n,
                n == entries@.len(),
                s == Seq::new(entries@.len(), |q: int| (entries@[q].0@, entries@[q].1@)),
                s == self@,
                unique_keys(s),
                key_string@ == key@,
                value_string@ == value@,
                forall|j: int| 0 <= j < i ==> (#[trigger] s[j]).0 != key@,
            decreases n - i,
        {
            if entries[i].0 == key_string {
                entries.set(i, (key_string, value_string));
                proof {
                    let t = Seq::new(
                        entries@.len(),
                        |q: int| (entries@[q].0@, entries@[q].1@),
                    );
                    assert(t =~= s.update(i as int, (key@, value@)));
                    lemma_lookup_update(s, i as int, key@, value@);
                    assert forall|p: int, q: int| 0 <= p < q < t.len() implies (#[trigger] t[p]).0 != (#[trigger] t[q]).0 by {
                        assert(s[i as int].0 == key@);
                        if p != i {
                            assert(t[p] == s[p]);
                        }
                        if q != i {
                            assert(t[q] == s[q]);
                        }
                        assert(s[p].0 != s[q].0);
                    }
                    assert(spec_lookup(s, key@) is Some) by {
                        lemma_lookup_some(s, i as int, key@);
                    }
                }
                return Parameters { entries };
            }
            i = i + 1;
        }
        entries.push((key_string, value_string));
        proof {
            let t = Seq::new(entries@.len(), |q: int| (entries@[q].0@, entries@[q].1@));
            assert(t =~= s.push((key@, value@)));
            lemma_lookup_push(s, key@, value@);
            lemma_lookup_none(s, key@);
            assert forall|p: int, q: int| 0 <= p < q < t.len() implies (#[trigger] t[p]).0 != (
            #[trigger] t[q]).0 by {
                if q < t.len() - 1 {
                    assert(t[p] == s[p] && t[q] == s[q]);
                    assert(s[p].0 != s[q].0);
                } else {
                    assert(t[q].0 == key@);
                    assert(t[p] == s[p]);
                    assert(s[p].0 != key@);
                }
            }
        }
        Parameters { entries }
    }

    /// Adds multiple parameters to the collection, in order; later entries
    /// win over earlier ones under the same name, and names not among the
    /// additions keep their values.
    pub fn extend(self, items: Vec<(String, String)>) -> (r: Parameters)
        requires
            unique_keys(self@),
        ensures
            unique_keys(r@),
            forall|k: Seq<char>|
                #![auto]
                spec_lookup(r@, k) == (match spec_last_value(pairs_view(items@), k) {
                    Some(v) => Some(v),
                    None => spec_lookup(self@, k),
                }),
    {
        let ghost pv = pairs_view(items@);
        let ghost orig = self@;
        let mut acc = self;
        let n = items.len();
        let mut i: usize = 0;
        proof {
            assert(pv.take(0) =~= Seq::<(Seq<char>, Seq<char>)>::empty());
        }
        while i < n
            invariant
                i <= n,
                n == items@.len(),
                pv == pairs_view(items@),
                unique_keys(acc@),
                forall|k: Seq<char>|
                    #![auto]
                    spec_lookup(acc@, k) == (match spec_last_value(pv.take(i as int), k) {
                        Some(v) => Some(v),
                        None => spec_lookup(orig, k),
                    }),
            decreases n - i,
        {
            let key: String = items[i].0.clone();
            let value: String = items[i].1.clone();
            let ghost before = acc@;
            acc = acc.param(key.as_str(), value.as_str());
            proof {
                assert(pv[i as int] == (key@, value@));
                assert(pv.take(i as int + 1).last() == pv[i as int]);
                assert(pv.take(i as int + 1).drop_last() =~= pv.take(i as int));
                assert forall|k: Seq<char>|
                    #![auto]
                    spec_lookup(acc@, k) == (match spec_last_value(pv.take(i as int + 1), k) {
                        Some(v) => Some(v),
                        None => spec_lookup(orig, k),
                    }) by {
                    if k == key@ {
                        assert(spec_last_value(pv.take(i as int + 1), k) == Some(value@));
                    } else {
                        assert(spec_last_value(pv.take(i as int + 1), k) == spec_last_value(
                            pv.take(i as int),
                            k,
                        ));
                        assert(spec_lookup(acc@, k) == spec_lookup(before, k));
                    }
                }
            }
            i = i + 1;
        }
        proof {
            assert(pv.take(n as int) =~= pv);
        }
        acc
    }

    /// Returns the inner entries of the collection.
    pub fn into_inner(self) -> (r: Vec<(String, String)>)
        ensures
            r@.len() == self@.len(),
            forall|i: int|
                0 <= i < r@.len() ==> ((#[trigger] r@[i]).0@, r@[i].1@) == self@[i],
    {
        self.entries
    }

    /// Returns a reference to the inner entries of the collection.
    pub fn as_inner(&self) -> (r: &Vec<(String, String)>)
        ensures
            r@.len() == self@.len(),
            forall|i: int|
                0 <= i < r@.len() ==> ((#[trigger] r@[i]).0@, r@[i].1@) == self@[i],
    {
        &self.entries
    }
}

/// An entry whose key matches makes the lookup succeed.
proof fn lemma_lookup_some(s: Seq<(Seq<char>, Seq<char>)>, i: int, key: Seq<char>)
    requires
        0 <= i < s.len(),
        s[i].0 == key,
    ensures
        spec_lookup(s, key) is Some,
    decreases s.len(),
{
    if s.first().0 != key {
        assert(s.drop_first()[i - 1] == s[i]);
        lemma_lookup_some(s.drop_first(), i - 1, key);
    }
}

impl Default for Parameters {
    /// An empty collection of parameters.
    fn default() -> (r: Parameters)
        ensures
            r@.len() == 0,
            unique_keys(r@),
    {
        Parameters::new()
    }
}

} // verus!
