//! Key-value string dictionaries for frame metadata.
//!
//! A frame holds at most one metadata dictionary. `Dictionary` is the
//! owned form that callers build and hand over to a frame; `DictionaryRef`
//! is a non-owning read view. Keys are unique: writing a key that is
//! already present replaces its value.

use vstd::prelude::*;

verus! {

/// The value stored under the first occurrence of `key`, if any.
pub open spec fn find_value(s: Seq<(String, String)>, key: Seq<char>) -> Option<Seq<char>>
    decreases s.len(),
{
    if s.len() == 0 {
        Option::None
    } else if s[0].0@ == key {
        Option::Some(s[0].1@)
    } else {
        find_value(s.drop_first(), key)
    }
}

/// No two entries share a key.
pub open spec fn keys_unique(s: Seq<(String, String)>) -> bool {
    forall|i: int, j: int| 0 <= i < j < s.len() ==> s[i].0@ != s[j].0@
}

/// A scan that saw no match before index `i` and a match at `i` has found
/// the first match.
proof fn lemma_find_value_present(s: Seq<(String, String)>, key: Seq<char>, i: int)
    requires
        0 <= i < s.len(),
        s[i].0@ == key,
        forall|j: int| 0 <= j < i ==> s[j].0@ != key,
    ensures
        find_value(s, key) == Some(s[i].1@),
    decreases i,
{
    if i > 0 {
        lemma_find_value_present(s.drop_first(), key, i - 1);
    }
}

/// A list with no entry under the key has no match.
proof fn lemma_find_value_absent(s: Seq<(String, String)>, key: Seq<char>)
    requires
        forall|j: int| 0 <= j < s.len() ==> s[j].0@ != key,
    ensures
        find_value(s, key) is None,
    decreases s.len(),
{
    if s.len() > 0 {
        lemma_find_value_absent(s.drop_first(), key);
    }
}

/// Replacing the entry at `i` does not disturb lookups of other keys.
proof fn lemma_find_value_update_other(
    s: Seq<(String, String)>,
    i: int,
    e: (String, String),
    k: Seq<char>,
)
    requires
        0 <= i < s.len(),
        s[i].0@ != k,
        e.0@ != k,
    ensures
        find_value(s.update(i, e), k) == find_value(s, k),
    decreases s.len(),
{
    if i == 0 {
        assert(s.update(0, e).drop_first() =~= s.drop_first());
    } else {
        assert(s.update(i, e).drop_first() =~= s.drop_first().update(i - 1, e));
        lemma_find_value_update_other(s.drop_first(), i - 1, e, k);
    }
}

/// Appending an entry does not disturb lookups of other keys.
proof fn lemma_find_value_push_other(s: Seq<(String, String)>, e: (String, String), k: Seq<char>)
    requires
        e.0@ != k,
    ensures
        find_value(s.push(e), k) == find_value(s, k),
    decreases s.len(),
{
    if s.len() == 0 {
        assert(s.push(e)[0] == e);
        assert(s.push(e).drop_first() =~= Seq::<(String, String)>::empty());
        assert(find_value(Seq::<(String, String)>::empty(), k) is None);
    } else {
        assert(s.push(e)[0] == s[0]);
        assert(s.push(e).drop_first() =~= s.drop_first().push(e));
        lemma_find_value_push_other(s.drop_first(), e, k);
    }
}

/// An owned key-value string dictionary, built by a caller and typically
/// handed over to a frame as its metadata.
#[derive(Debug)]
pub struct Dictionary {
    entries: Vec<(String, String)>,
}

impl View for Dictionary {
    type V = Seq<(String, String)>;

    closed spec fn view(&self) -> Seq<(String, String)> {
        self.entries@
    }
}

impl Dictionary {
    /// Well-formedness: keys are unique, so each key identifies one entry.
    pub open spec fn wf(self) -> bool {
        keys_unique(self@)
    }

    /// A fresh dictionary with no entries.
    pub fn new() -> (r: Dictionary)
        ensures
            r@ == Seq::<(String, String)>::empty(),
            r.wf(),
    {
        Dictionary { entries: Vec::new() }
    }

    /// The number of entries.
    pub fn len(&self) -> (n: usize)
        ensures
            n == self@.len(),
    {
        self.entries.len()
    }

    /// Whether the dictionary has no entries.
    pub fn is_empty(&self) -> (r: bool)
        ensures
            r == (self@.len() == 0),
    {
        self.entries.is_empty()
    }

    /// Look a key up; `None` iff no entry holds the key.
    pub fn get(&self, key: &String) -> (r: Option<&String>)
        ensures
            (r matches Some(v) ==> find_value(self@, key@) == Some(v@)),
            (r is None <==> find_value(self@, key@) is None),
    {
        let n = self.entries.len();
        let mut i: usize = 0;
        while i < n
            invariant
                n == self@.len(),
                i <= n,
                forall|j: int| 0 <= j < i ==> self@[j].0@ != key@,
            decreases n - i,
        {
            if self.entries[i].0 == *key {
                proof {
                    lemma_find_value_present(self@, key@, i as int);
                }
                return Some(&self.entries[i].1);
            }
            i += 1;
        }
        proof {
            lemma_find_value_absent(self@, key@);
        }
        None
    }

    /// Write a value under a key: the value of an existing entry is
    /// replaced, otherwise a new entry is appended. Lookups of every other
    /// key are untouched.
    pub fn set(&mut self, key: String, value: String)
        requires
            old(self).wf(),
        ensures
            final(self).wf(),
            find_value(final(self)@, key@) == Some(value@),
            forall|k: Seq<char>| k != key@ ==> find_value(final(self)@, k) == find_value(
                old(self)@,
                k,
            ),
            final(self)@.len() == old(self)@.len() + (if find_value(old(self)@, key@) is Some {
                0int
            } else {
                1int
            }),
    {
        let n = self.entries.len();
        let mut i: usize = 0;
        while i < n
            invariant
                *self == *old(self),
                old(self).wf(),
                n == self@.len(),
                i <= n,
                forall|j: int| 0 <= j < i ==> self@[j].0@ != key@,
            decreases n - i,
        {
            if self.entries[i].0 == key {
                let ghost prior = self@;
                proof {
                    lemma_find_value_present(prior, key@, i as int);
                }
                self.entries[i] = (key, value);
                proof {
                    assert(self@ == prior.update(i as int, (key, value)));
                    lemma_find_value_present(self@, key@, i as int);
                    assert forall|k: Seq<char>| k != key@ implies find_value(self@, k)
                        == find_value(prior, k) by {
                        lemma_find_value_update_other(prior, i as int, (key, value), k);
                    }
                    assert forall|a: int, b: int| 0 <= a < b < self@.len() implies self@[a].0@
                        != self@[b].0@ by {
                        assert(keys_unique(prior));
                        assert(prior[i as int].0@ == key@);
                        if a == i as int {
                            assert(self@[a].0@ == key@);
                        } else {
                            assert(self@[a] == prior[a]);
                        }
                        if b == i as int {
                            assert(self@[b].0@ == key@);
                        } else {
                            assert(self@[b] == prior[b]);
                        }
                        assert(prior[a].0@ != prior[b].0@);
                    }
                }
                return;
            }
            i += 1;
        }
        let ghost prior = self@;
        proof {
            lemma_find_value_absent(prior, key@);
        }
        self.entries.push((key, value));
        proof {
            assert(self@ == prior.push((key, value)));
            lemma_find_value_present(self@, key@, n as int);
            assert forall|k: Seq<char>| k != key@ implies find_value(self@, k) == find_value(
                prior,
                k,
            ) by {
                lemma_find_value_push_other(prior, (key, value), k);
            }
            assert forall|a: int, b: int| 0 <= a < b < self@.len() implies self@[a].0@
                != self@[b].0@ by {
                if b < n as int {
                    assert(self@[a].0@ == prior[a].0@);
                    assert(self@[b].0@ == prior[b].0@);
                } else {
                    assert(self@[a].0@ == prior[a].0@);
                    assert(self@[b].0@ == key@);
                }
            }
        }
    }
}

/// A non-owning read view over a dictionary. An absent frame dictionary is
/// presented as an empty view, never as an error.
pub struct DictionaryRef<'a> {
    dict: &'a Dictionary,
}

impl<'a> View for DictionaryRef<'a> {
    type V = Seq<(String, String)>;

    closed spec fn view(&self) -> Seq<(String, String)> {
        (*self.dict)@
    }
}

impl<'a> DictionaryRef<'a> {
    /// Wrap a dictionary into a read view.
    pub fn wrap(dict: &'a Dictionary) -> (r: DictionaryRef<'a>)
        ensures
            r@ == dict@,
    {
        DictionaryRef { dict }
    }

    /// The number of entries in view.
    pub fn len(&self) -> (n: usize)
        ensures
            n == self@.len(),
    {
        self.dict.len()
    }

    /// Whether the view holds no entries.
    pub fn is_empty(&self) -> (r: bool)
        ensures
            r == (self@.len() == 0),
    {
        self.dict.is_empty()
    }

    /// Look a key up; `None` iff no entry holds the key.
    pub fn get(&self, key: &String) -> (r: Option<&'a String>)
        ensures
            (r matches Some(v) ==> find_value(self@, key@) == Some(v@)),
            (r is None <==> find_value(self@, key@) is None),
    {
        self.dict.get(key)
    }
}

} // verus!
