use vstd::prelude::*;
use crate::value::Value;

verus! {

/// The value last stored under `k`, scanning from the newest entry.
pub open spec fn lookup(s: Seq<(String, Value)>, k: Seq<char>) -> Option<Value>
    decreases s.len(),
{
    if s.len() == 0 {
        None
    } else if s.last().0@ == k {
        Some(s.last().1)
    } else {
        lookup(s.drop_last(), k)
    }
}

pub open spec fn keys_unique(s: Seq<(String, Value)>) -> bool {
    forall|i: int, j: int| 0 <= i < j < s.len() ==> (#[trigger] s[i]).0@ != (#[trigger] s[j]).0@
}

proof fn lemma_lookup_update(s: Seq<(String, Value)>, i: int, e: (String, Value), q: Seq<char>)
    requires
        keys_unique(s),
        0 <= i < s.len(),
        s[i].0@ == e.0@,
    ensures
        lookup(s.update(i, e), q) == if q == e.0@ {
            Some(e.1)
        } else {
            lookup(s, q)
        },
    decreases s.len(),
{
    let t = s.update(i, e);
    if i == s.len() - 1 {
        assert(t.drop_last() =~= s.drop_last());
    } else {
        assert(t.drop_last() =~= s.drop_last().update(i, e));
        assert(s.last() == s[s.len() - 1]);
        lemma_lookup_update(s.drop_last(), i, e, q);
    }
}

proof fn lemma_lookup_push(s: Seq<(String, Value)>, e: (String, Value), q: Seq<char>)
    ensures
        lookup(s.push(e), q) == if q == e.0@ {
            Some(e.1)
        } else {
            lookup(s, q)
        },
{
    assert(s.push(e).drop_last() =~= s);
}

/// The project's variables, by id.
#[derive(Debug)]
pub struct Variables {
    entries: Vec<(String, Value)>,
}

impl Variables {
    /// The value of each variable, by id.
    pub closed spec fn view_at(&self, k: Seq<char>) -> Option<Value> {
        lookup(self.entries@, k)
    }

    pub closed spec fn wf(&self) -> bool {
        keys_unique(self.entries@) && forall|i: int|
            0 <= i < self.entries@.len() ==> (#[trigger] self.entries@[i]).1.wf()
    }

    pub proof fn lemma_values_wf(&self, k: Seq<char>)
        requires
            self.wf(),
        ensures
            self.view_at(k) matches Some(v) ==> v.wf(),
    {
        self.lemma_values_wf_rec(self.entries@, k);
    }

    proof fn lemma_values_wf_rec(&self, s: Seq<(String, Value)>, k: Seq<char>)
        requires
            forall|i: int| 0 <= i < s.len() ==> (#[trigger] s[i]).1.wf(),
        ensures
            lookup(s, k) matches Some(v) ==> v.wf(),
        decreases s.len(),
    {
        if s.len() > 0 {
            assert(s.last() == s[s.len() - 1]);
            self.lemma_values_wf_rec(s.drop_last(), k);
        }
    }

    /// No variable set.
    pub fn new() -> (r: Self)
        ensures
            r.wf(),
            forall|k: Seq<char>| r.view_at(k) is None,
    {
        Self { entries: Vec::new() }
    }

    /// The value of variable `id`, if it was set.
    pub fn get(&self, id: &String) -> (r: Option<Value>)
        ensures
            r == self.view_at(id@),
    {
        let mut i = self.entries.len();
        assert(self.entries@.subrange(0, i as int) =~= self.entries@);
        while i > 0
            invariant
                i <= self.entries@.len(),
                lookup(self.entries@.subrange(0, i as int), id@) == lookup(self.entries@, id@),
            decreases i,
        {
            let ghost s = self.entries@.subrange(0, i as int);
            if self.entries[i - 1].0 == *id {
                assert(s.last() == self.entries@[i - 1]);
                return Some(self.entries[i - 1].1.clone());
            }
            assert(s.drop_last() =~= self.entries@.subrange(0, i - 1));
            i = i - 1;
        }
        None
    }

    /// Stores `value` under `id`, replacing an earlier value.
    pub fn set(&mut self, id: String, value: Value)
        requires
            old(self).wf(),
            value.wf(),
        ensures
            final(self).wf(),
            forall|k: Seq<char>| #[trigger]
                final(self).view_at(k) == if k == id@ {
                    Some(value)
                } else {
                    old(self).view_at(k)
                },
    {
        let mut i: usize = 0;
        while i < self.entries.len()
            invariant
                i <= self.entries@.len(),
                self.entries@ == old(self).entries@,
                self.wf(),
                value.wf(),
                forall|j: int| 0 <= j < i ==> (#[trigger] self.entries@[j]).0@ != id@,
            decreases self.entries@.len() - i,
        {
            if self.entries[i].0 == id {
                let ghost s = self.entries@;
                let ghost e = (id, value);
                self.entries.set(i, (id, value));
                proof {
                    assert(self.entries@ =~= s.update(i as int, e));
                    assert forall|a: int, b: int| 0 <= a < b < self.entries@.len() implies (
                    #[trigger] self.entries@[a]).0@ != (#[trigger] self.entries@[b]).0@ by {
                        assert(s[a].0@ != s[b].0@);
                    }
                    assert forall|k: Seq<char>|
                        #[trigger] lookup(self.entries@, k) == if k == e.0@ {
                            Some(e.1)
                        } else {
                            lookup(s, k)
                        } by {
                        lemma_lookup_update(s, i as int, e, k);
                    }
                }
                return;
            }
            i = i + 1;
        }
        let ghost s = self.entries@;
        let ghost e = (id, value);
        self.entries.push((id, value));
        proof {
            assert forall|a: int, b: int| 0 <= a < b < self.entries@.len() implies (
            #[trigger] self.entries@[a]).0@ != (#[trigger] self.entries@[b]).0@ by {
                if b < s.len() {
                    assert(s[a].0@ != s[b].0@);
                } else {
                    assert(s[a].0@ != id@);
                }
            }
            assert forall|k: Seq<char>|
                #[trigger] lookup(self.entries@, k) == if k == e.0@ {
                    Some(e.1)
                } else {
                    lookup(s, k)
                } by {
                lemma_lookup_push(s, e, k);
            }
        }
    }
}

} // verus!
