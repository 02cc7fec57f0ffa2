//! The persistent key-value collections, modeled as association lists with
//! first-match lookup.  The host owns durability; a call receives the whole
//! store, and its staged writes become visible only when the call succeeds.

use vstd::prelude::*;

verus! {

use vstd::pervasive::VecAdditionalExecFns;

// ---------------------------------------------------------------------------
// address-keyed collections
// ---------------------------------------------------------------------------

#[derive(Debug)]
pub struct AddrEntry<V> {
    pub key: String,
    pub val: V,
}

/// A collection keyed by an address.
#[derive(Debug)]
pub struct AddrMap<V> {
    pub entries: Vec<AddrEntry<V>>,
}

/// First-match lookup among the entries.
pub open spec fn addr_lookup<V>(s: Seq<AddrEntry<V>>, k: Seq<char>) -> Option<V>
    decreases s.len(),
{
    if s.len() == 0 {
        None
    } else if s[0].key@ == k {
        Some(s[0].val)
    } else {
        addr_lookup(s.drop_first(), k)
    }
}

/// No two entries share a key.
pub open spec fn addr_nodup<V>(s: Seq<AddrEntry<V>>) -> bool {
    forall|i: int, j: int| 0 <= i < j < s.len() ==> s[i].key@ != s[j].key@
}

proof fn lemma_addr_lookup_first<V>(s: Seq<AddrEntry<V>>, k: Seq<char>, i: int)
    requires
        0 <= i < s.len(),
        s[i].key@ == k,
        forall|j: int| 0 <= j < i ==> s[j].key@ != k,
    ensures
        addr_lookup(s, k) == Some(s[i].val),
    decreases i,
{
    if i > 0 {
        lemma_addr_lookup_first(s.drop_first(), k, i - 1);
    }
}

proof fn lemma_addr_lookup_some_of_match<V>(s: Seq<AddrEntry<V>>, k: Seq<char>, j: int)
    requires
        0 <= j < s.len(),
        s[j].key@ == k,
    ensures
        addr_lookup(s, k) is Some,
    decreases j,
{
    if s[0].key@ != k {
        lemma_addr_lookup_some_of_match(s.drop_first(), k, j - 1);
    }
}

proof fn lemma_addr_lookup_absent<V>(s: Seq<AddrEntry<V>>, k: Seq<char>)
    requires
        forall|j: int| 0 <= j < s.len() ==> s[j].key@ != k,
    ensures
        addr_lookup(s, k) is None,
    decreases s.len(),
{
    if s.len() > 0 {
        lemma_addr_lookup_absent(s.drop_first(), k);
    }
}

proof fn lemma_addr_lookup_update<V>(s: Seq<AddrEntry<V>>, i: int, e: AddrEntry<V>, k2: Seq<char>)
    requires
        0 <= i < s.len(),
        s[i].key@ == e.key@,
        k2 != e.key@,
    ensures
        addr_lookup(s.update(i, e), k2) == addr_lookup(s, k2),
    decreases i,
{
    if i == 0 {
        assert(s.update(0, e).drop_first() =~= s.drop_first());
    } else {
        assert(s.update(i, e).drop_first() =~= s.drop_first().update(i - 1, e));
        lemma_addr_lookup_update(s.drop_first(), i - 1, e, k2);
    }
}

proof fn lemma_addr_lookup_push<V>(s: Seq<AddrEntry<V>>, e: AddrEntry<V>, k2: Seq<char>)
    requires
        k2 != e.key@,
    ensures
        addr_lookup(s.push(e), k2) == addr_lookup(s, k2),
    decreases s.len(),
{
    if s.len() == 0 {
        assert(s.push(e)[0] == e);
        assert(s.push(e).drop_first() =~= Seq::<AddrEntry<V>>::empty());
        assert(addr_lookup(s.push(e), k2) == addr_lookup(s.push(e).drop_first(), k2));
    } else {
        assert(s.push(e)[0] == s[0]);
        assert(s.push(e).drop_first() =~= s.drop_first().push(e));
        lemma_addr_lookup_push(s.drop_first(), e, k2);
    }
}

proof fn lemma_addr_lookup_remove<V>(s: Seq<AddrEntry<V>>, i: int, k2: Seq<char>)
    requires
        0 <= i < s.len(),
        addr_nodup(s),
    ensures
        addr_lookup(s.remove(i), k2) == if k2 == s[i].key@ {
            None::<V>
        } else {
            addr_lookup(s, k2)
        },
    decreases i,
{
    if i == 0 {
        assert(s.remove(0) =~= s.drop_first());
        if k2 == s[0].key@ {
            lemma_addr_lookup_absent(s.drop_first(), k2);
        }
    } else {
        assert(s.remove(i).drop_first() =~= s.drop_first().remove(i - 1));
        lemma_addr_lookup_remove(s.drop_first(), i - 1, k2);
    }
}

impl<V> AddrMap<V> {
    /// The value stored under an address, if any.
    pub open spec fn spec_get(self, k: Seq<char>) -> Option<V> {
        addr_lookup(self.entries@, k)
    }

    pub open spec fn wf(self) -> bool {
        addr_nodup(self.entries@)
    }

    pub fn new() -> (r: Self)
        ensures
            r.wf(),
            forall|k: Seq<char>| r.spec_get(k) is None,
    {
        let r = AddrMap { entries: Vec::new() };
        proof {
            assert forall|k: Seq<char>| r.spec_get(k) is None by {
                lemma_addr_lookup_absent(r.entries@, k);
            };
        }
        r
    }

    /// The position of the entry keyed by `k`, if any.
    pub fn find(&self, k: &String) -> (r: Option<usize>)
        ensures
            match r {
                Some(i) => 0 <= i < self.entries@.len() && self.entries@[i as int].key@ == k@
                    && self.spec_get(k@) == Some(self.entries@[i as int].val),
                None => self.spec_get(k@) is None,
            },
    {
        let mut i: usize = 0;
        while i < self.entries.len()
            invariant
                0 <= i <= self.entries@.len(),
                forall|j: int| 0 <= j < i ==> self.entries@[j].key@ != k@,
            decreases self.entries@.len() - i,
        {
            if self.entries[i].key == *k {
                proof {
                    lemma_addr_lookup_first(self.entries@, k@, i as int);
                }
                return Some(i);
            }
            i = i + 1;
        }
        proof {
            lemma_addr_lookup_absent(self.entries@, k@);
        }
        None
    }

    /// Stores `v` under `k`, replacing any earlier value.
    pub fn put(&mut self, k: &String, v: V)
        requires
            old(self).wf(),
        ensures
            final(self).wf(),
            final(self).spec_get(k@) == Some(v),
            forall|k2: Seq<char>| k2 != k@ ==> final(self).spec_get(k2) == old(self).spec_get(k2),
    {
        let r = self.find(k);
        match r {
            Some(i) => {
                let ghost pre = self.entries@;
                let entry = AddrEntry { key: k.clone(), val: v };
                self.entries.set(i, entry);
                proof {
                    assert(self.entries@ =~= pre.update(i as int, entry));
                    lemma_addr_lookup_first(self.entries@, k@, i as int);
                    assert forall|k2: Seq<char>| k2 != k@ implies addr_lookup(self.entries@, k2)
                        == addr_lookup(pre, k2) by {
                        lemma_addr_lookup_update(pre, i as int, entry, k2);
                    };
                }
            },
            None => {
                let ghost pre = self.entries@;
                let entry = AddrEntry { key: k.clone(), val: v };
                self.entries.push(entry);
                proof {
                    assert(self.entries@ =~= pre.push(entry));
                    assert forall|j: int| 0 <= j < pre.len() implies pre[j].key@ != k@ by {
                        if pre[j].key@ == k@ {
                            lemma_addr_lookup_some_of_match(pre, k@, j);
                        }
                    };
                    lemma_addr_lookup_first(self.entries@, k@, pre.len() as int);
                    assert forall|k2: Seq<char>| k2 != k@ implies addr_lookup(self.entries@, k2)
                        == addr_lookup(pre, k2) by {
                        lemma_addr_lookup_push(pre, entry, k2);
                    };
                }
            },
        }
    }

    /// Removes and returns the value under `k`, if any.
    pub fn take(&mut self, k: &String) -> (r: Option<V>)
        requires
            old(self).wf(),
        ensures
            final(self).wf(),
            r == old(self).spec_get(k@),
            final(self).spec_get(k@) is None,
            forall|k2: Seq<char>| k2 != k@ ==> final(self).spec_get(k2) == old(self).spec_get(k2),
    {
        let f = self.find(k);
        match f {
            Some(i) => {
                let ghost pre = self.entries@;
                let e = self.entries.remove(i);
                proof {
                    assert forall|k2: Seq<char>| true implies addr_lookup(pre.remove(i as int), k2)
                        == if k2 == pre[i as int].key@ {
                        None::<V>
                    } else {
                        addr_lookup(pre, k2)
                    } by {
                        lemma_addr_lookup_remove(pre, i as int, k2);
                    };
                }
                Some(e.val)
            },
            None => None,
        }
    }

    /// Deletes the entry under `k`, if any.
    pub fn remove(&mut self, k: &String)
        requires
            old(self).wf(),
        ensures
            final(self).wf(),
            final(self).spec_get(k@) is None,
            forall|k2: Seq<char>| k2 != k@ ==> final(self).spec_get(k2) == old(self).spec_get(k2),
    {
        let r = self.find(k);
        match r {
            Some(i) => {
                let ghost pre = self.entries@;
                self.entries.remove(i);
                proof {
                    assert forall|k2: Seq<char>| true implies addr_lookup(pre.remove(i as int), k2)
                        == if k2 == pre[i as int].key@ {
                        None::<V>
                    } else {
                        addr_lookup(pre, k2)
                    } by {
                        lemma_addr_lookup_remove(pre, i as int, k2);
                    };
                }
            },
            None => {},
        }
    }
}

// ---------------------------------------------------------------------------
// (address, sale)-keyed collections
// ---------------------------------------------------------------------------

#[derive(Debug)]
pub struct SaleEntry<V> {
    pub addr: String,
    pub sale: u32,
    pub val: V,
}

/// A collection keyed by an address and a sale id.
#[derive(Debug)]
pub struct SaleMap<V> {
    pub entries: Vec<SaleEntry<V>>,
}

/// First-match lookup among the entries.
pub open spec fn sale_lookup<V>(s: Seq<SaleEntry<V>>, a: Seq<char>, id: u32) -> Option<V>
    decreases s.len(),
{
    if s.len() == 0 {
        None
    } else if s[0].addr@ == a && s[0].sale == id {
        Some(s[0].val)
    } else {
        sale_lookup(s.drop_first(), a, id)
    }
}

/// No two entries share a key.
pub open spec fn sale_nodup<V>(s: Seq<SaleEntry<V>>) -> bool {
    forall|i: int, j: int|
        0 <= i < j < s.len() ==> !(s[i].addr@ == s[j].addr@ && s[i].sale == s[j].sale)
}

proof fn lemma_sale_lookup_first<V>(s: Seq<SaleEntry<V>>, a: Seq<char>, id: u32, i: int)
    requires
        0 <= i < s.len(),
        s[i].addr@ == a && s[i].sale == id,
        forall|j: int| 0 <= j < i ==> !(s[j].addr@ == a && s[j].sale == id),
    ensures
        sale_lookup(s, a, id) == Some(s[i].val),
    decreases i,
{
    if i > 0 {
        lemma_sale_lookup_first(s.drop_first(), a, id, i - 1);
    }
}

proof fn lemma_sale_lookup_some_of_match<V>(s: Seq<SaleEntry<V>>, a: Seq<char>, id: u32, j: int)
    requires
        0 <= j < s.len(),
        s[j].addr@ == a && s[j].sale == id,
    ensures
        sale_lookup(s, a, id) is Some,
    decreases j,
{
    if !(s[0].addr@ == a && s[0].sale == id) {
        lemma_sale_lookup_some_of_match(s.drop_first(), a, id, j - 1);
    }
}

proof fn lemma_sale_lookup_absent<V>(s: Seq<SaleEntry<V>>, a: Seq<char>, id: u32)
    requires
        forall|j: int| 0 <= j < s.len() ==> !(s[j].addr@ == a && s[j].sale == id),
    ensures
        sale_lookup(s, a, id) is None,
    decreases s.len(),
{
    if s.len() > 0 {
        lemma_sale_lookup_absent(s.drop_first(), a, id);
    }
}

proof fn lemma_sale_lookup_update<V>(
    s: Seq<SaleEntry<V>>,
    i: int,
    e: SaleEntry<V>,
    a2: Seq<char>,
    id2: u32,
)
    requires
        0 <= i < s.len(),
        s[i].addr@ == e.addr@ && s[i].sale == e.sale,
        !(a2 == e.addr@ && id2 == e.sale),
    ensures
        sale_lookup(s.update(i, e), a2, id2) == sale_lookup(s, a2, id2),
    decreases i,
{
    if i == 0 {
        assert(s.update(0, e).drop_first() =~= s.drop_first());
    } else {
        assert(s.update(i, e).drop_first() =~= s.drop_first().update(i - 1, e));
        lemma_sale_lookup_update(s.drop_first(), i - 1, e, a2, id2);
    }
}

proof fn lemma_sale_lookup_push<V>(s: Seq<SaleEntry<V>>, e: SaleEntry<V>, a2: Seq<char>, id2: u32)
    requires
        !(a2 == e.addr@ && id2 == e.sale),
    ensures
        sale_lookup(s.push(e), a2, id2) == sale_lookup(s, a2, id2),
    decreases s.len(),
{
    if s.len() == 0 {
        assert(s.push(e)[0] == e);
        assert(s.push(e).drop_first() =~= Seq::<SaleEntry<V>>::empty());
        assert(sale_lookup(s.push(e), a2, id2) == sale_lookup(s.push(e).drop_first(), a2, id2));
    } else {
        assert(s.push(e)[0] == s[0]);
        assert(s.push(e).drop_first() =~= s.drop_first().push(e));
        lemma_sale_lookup_push(s.drop_first(), e, a2, id2);
    }
}

proof fn lemma_sale_lookup_remove<V>(s: Seq<SaleEntry<V>>, i: int, a2: Seq<char>, id2: u32)
    requires
        0 <= i < s.len(),
        sale_nodup(s),
    ensures
        sale_lookup(s.remove(i), a2, id2) == if a2 == s[i].addr@ && id2 == s[i].sale {
            None::<V>
        } else {
            sale_lookup(s, a2, id2)
        },
    decreases i,
{
    if i == 0 {
        assert(s.remove(0) =~= s.drop_first());
        if a2 == s[0].addr@ && id2 == s[0].sale {
            lemma_sale_lookup_absent(s.drop_first(), a2, id2);
        }
    } else {
        assert(s.remove(i).drop_first() =~= s.drop_first().remove(i - 1));
        lemma_sale_lookup_remove(s.drop_first(), i - 1, a2, id2);
    }
}

impl<V> SaleMap<V> {
    /// The value stored under an address and sale id, if any.
    pub open spec fn spec_get(self, a: Seq<char>, id: u32) -> Option<V> {
        sale_lookup(self.entries@, a, id)
    }

    pub open spec fn wf(self) -> bool {
        sale_nodup(self.entries@)
    }

    pub fn new() -> (r: Self)
        ensures
            r.wf(),
            forall|a: Seq<char>, id: u32| r.spec_get(a, id) is None,
    {
        let r = SaleMap { entries: Vec::new() };
        proof {
            assert forall|a: Seq<char>, id: u32| r.spec_get(a, id) is None by {
                lemma_sale_lookup_absent(r.entries@, a, id);
            };
        }
        r
    }

    /// The position of the entry keyed by `(a, id)`, if any.
    pub fn find(&self, a: &String, id: u32) -> (r: Option<usize>)
        ensures
            match r {
                Some(i) => 0 <= i < self.entries@.len() && self.entries@[i as int].addr@ == a@
                    && self.entries@[i as int].sale == id && self.spec_get(a@, id) == Some(
                    self.entries@[i as int].val,
                ),
                None => self.spec_get(a@, id) is None,
            },
    {
        let mut i: usize = 0;
        while i < self.entries.len()
            invariant
                0 <= i <= self.entries@.len(),
                forall|j: int|
                    0 <= j < i ==> !(self.entries@[j].addr@ == a@ && self.entries@[j].sale == id),
            decreases self.entries@.len() - i,
        {
            if self.entries[i].addr == *a && self.entries[i].sale == id {
                proof {
                    lemma_sale_lookup_first(self.entries@, a@, id, i as int);
                }
                return Some(i);
            }
            i = i + 1;
        }
        proof {
            lemma_sale_lookup_absent(self.entries@, a@, id);
        }
        None
    }

    /// Stores `v` under `(a, id)`, replacing any earlier value.
    pub fn put(&mut self, a: &String, id: u32, v: V)
        requires
            old(self).wf(),
        ensures
            final(self).wf(),
            final(self).spec_get(a@, id) == Some(v),
            forall|a2: Seq<char>, id2: u32|
                !(a2 == a@ && id2 == id) ==> final(self).spec_get(a2, id2) == old(self).spec_get(
                    a2,
                    id2,
                ),
    {
        let r = self.find(a, id);
        match r {
            Some(i) => {
                let ghost pre = self.entries@;
                let entry = SaleEntry { addr: a.clone(), sale: id, val: v };
                self.entries.set(i, entry);
                proof {
                    assert(self.entries@ =~= pre.update(i as int, entry));
                    lemma_sale_lookup_first(self.entries@, a@, id, i as int);
                    assert forall|a2: Seq<char>, id2: u32| !(a2 == a@ && id2 == id) implies
                        sale_lookup(self.entries@, a2, id2) == sale_lookup(pre, a2, id2) by {
                        lemma_sale_lookup_update(pre, i as int, entry, a2, id2);
                    };
                }
            },
            None => {
                let ghost pre = self.entries@;
                let entry = SaleEntry { addr: a.clone(), sale: id, val: v };
                self.entries.push(entry);
                proof {
                    assert(self.entries@ =~= pre.push(entry));
                    assert forall|j: int| 0 <= j < pre.len() implies !(pre[j].addr@ == a@
                        && pre[j].sale == id) by {
                        if pre[j].addr@ == a@ && pre[j].sale == id {
                            lemma_sale_lookup_some_of_match(pre, a@, id, j);
                        }
                    };
                    lemma_sale_lookup_first(self.entries@, a@, id, pre.len() as int);
                    assert forall|a2: Seq<char>, id2: u32| !(a2 == a@ && id2 == id) implies
                        sale_lookup(self.entries@, a2, id2) == sale_lookup(pre, a2, id2) by {
                        lemma_sale_lookup_push(pre, entry, a2, id2);
                    };
                }
            },
        }
    }

    /// Removes and returns the value under `(a, id)`, if any.
    pub fn take(&mut self, a: &String, id: u32) -> (r: Option<V>)
        requires
            old(self).wf(),
        ensures
            final(self).wf(),
            r == old(self).spec_get(a@, id),
            final(self).spec_get(a@, id) is None,
            forall|a2: Seq<char>, id2: u32|
                !(a2 == a@ && id2 == id) ==> final(self).spec_get(a2, id2) == old(self).spec_get(
                    a2,
                    id2,
                ),
    {
        let f = self.find(a, id);
        match f {
            Some(i) => {
                let ghost pre = self.entries@;
                let e = self.entries.remove(i);
                proof {
                    assert forall|a2: Seq<char>, id2: u32| true implies sale_lookup(
                        pre.remove(i as int),
                        a2,
                        id2,
                    ) == if a2 == pre[i as int].addr@ && id2 == pre[i as int].sale {
                        None::<V>
                    } else {
                        sale_lookup(pre, a2, id2)
                    } by {
                        lemma_sale_lookup_remove(pre, i as int, a2, id2);
                    };
                }
                Some(e.val)
            },
            None => None,
        }
    }

    /// Deletes the entry under `(a, id)`, if any.
    pub fn remove(&mut self, a: &String, id: u32)
        requires
            old(self).wf(),
        ensures
            final(self).wf(),
            final(self).spec_get(a@, id) is None,
            forall|a2: Seq<char>, id2: u32|
                !(a2 == a@ && id2 == id) ==> final(self).spec_get(a2, id2) == old(self).spec_get(
                    a2,
                    id2,
                ),
    {
        let r = self.find(a, id);
        match r {
            Some(i) => {
                let ghost pre = self.entries@;
                self.entries.remove(i);
                proof {
                    assert forall|a2: Seq<char>, id2: u32| true implies sale_lookup(
                        pre.remove(i as int),
                        a2,
                        id2,
                    ) == if a2 == pre[i as int].addr@ && id2 == pre[i as int].sale {
                        None::<V>
                    } else {
                        sale_lookup(pre, a2, id2)
                    } by {
                        lemma_sale_lookup_remove(pre, i as int, a2, id2);
                    };
                }
            },
            None => {},
        }
    }
}

} // verus!
