use vstd::prelude::*;
use crate::addr::SocketAddress;
use crate::hostname::Hostname;

verus! {

/// One cached resolution record: the addresses the backend returned and the
/// absolute time (milliseconds) at which the record stops being valid.
pub struct CacheEntry {
    pub addrs: Vec<SocketAddress>,
    pub expires_at_ms: u64,
}

/// A bounded-capacity cache from normalized hostnames to resolution records.
///
/// Entries are kept in insertion order. Storing a record for a key that is
/// already present overwrites that key's record in place; storing a record
/// for a new key while the cache is full first evicts the entry that was
/// inserted longest ago. A record is served only while the lookup time is
/// strictly before its expiry.
pub struct DnsCache {
    entries: Vec<(Hostname, CacheEntry)>,
    capacity: usize,
}

/// The first record for `key` in an entry sequence, as (addresses, expiry).
pub closed spec fn spec_find(
    s: Seq<(Hostname, CacheEntry)>,
    key: Seq<u8>,
) -> Option<(Seq<SocketAddress>, u64)>
    decreases s.len(),
{
    if s.len() == 0 {
        None
    } else if s[0].0@ == key {
        Some((s[0].1.addrs@, s[0].1.expires_at_ms))
    } else {
        spec_find(s.drop_first(), key)
    }
}

proof fn lemma_find_absent(s: Seq<(Hostname, CacheEntry)>, key: Seq<u8>)
    requires
        forall|j: int| 0 <= j < s.len() ==> s[j].0@ != key,
    ensures
        spec_find(s, key) is None,
    decreases s.len(),
{
    if s.len() > 0 {
        assert(forall|j: int|
            0 <= j < s.drop_first().len() ==> s.drop_first()[j] == s[j + 1]);
        lemma_find_absent(s.drop_first(), key);
    }
}

proof fn lemma_find_none_all_absent(s: Seq<(Hostname, CacheEntry)>, key: Seq<u8>)
    requires
        spec_find(s, key) is None,
    ensures
        forall|j: int| 0 <= j < s.len() ==> s[j].0@ != key,
    decreases s.len(),
{
    if s.len() > 0 {
        lemma_find_none_all_absent(s.drop_first(), key);
        assert(forall|j: int|
            1 <= j < s.len() ==> s[j] == s.drop_first()[j - 1]);
    }
}

proof fn lemma_find_first(s: Seq<(Hostname, CacheEntry)>, i: int, key: Seq<u8>)
    requires
        0 <= i < s.len(),
        s[i].0@ == key,
        forall|j: int| 0 <= j < i ==> s[j].0@ != key,
    ensures
        spec_find(s, key) == Some((s[i].1.addrs@, s[i].1.expires_at_ms)),
    decreases i,
{
    if i > 0 {
        assert(forall|j: int|
            0 <= j < s.drop_first().len() ==> s.drop_first()[j] == s[j + 1]);
        lemma_find_first(s.drop_first(), i - 1, key);
    }
}

impl DnsCache {
    /// The record held for `key`: its addresses and expiry, if any.
    pub closed spec fn record(&self, key: Seq<u8>) -> Option<(Seq<SocketAddress>, u64)> {
        spec_find(self.entries@, key)
    }

    /// Whether some record (valid or expired) is held for `key`.
    pub open spec fn has_key(&self, key: Seq<u8>) -> bool {
        self.record(key) is Some
    }

    /// A record for `key` is valid at `now` when it exists and has not
    /// yet expired.
    pub open spec fn valid_at(&self, key: Seq<u8>, now: u64) -> bool {
        self.record(key) matches Some(e) && now < e.1
    }

    pub closed spec fn spec_capacity(&self) -> usize {
        self.capacity
    }

    pub closed spec fn spec_len(&self) -> nat {
        self.entries@.len()
    }

    /// The key that would be evicted next: the one inserted longest ago.
    pub closed spec fn oldest_key(&self) -> Seq<u8> {
        self.entries@[0].0@
    }

    pub closed spec fn wf(&self) -> bool {
        &&& self.capacity >= 1
        &&& self.entries@.len() <= self.capacity
        &&& forall|i: int, j: int|
            0 <= i < j < self.entries@.len() ==> self.entries@[i].0@ != self.entries@[j].0@
    }

    /// An empty cache with the given capacity.
    pub fn new(capacity: usize) -> (r: DnsCache)
        requires
            capacity >= 1,
        ensures
            r.wf(),
            r.spec_capacity() == capacity,
            r.spec_len() == 0,
            forall|k: Seq<u8>| !r.has_key(k),
    {
        let r = DnsCache { entries: Vec::new(), capacity };
        proof {
            assert(forall|k: Seq<u8>| r.record(k) is None);
        }
        r
    }

    /// The index of the entry for `host`, if one is held.
    fn index_of(&self, host: &Hostname) -> (r: Option<usize>)
        requires
            self.wf(),
        ensures
            r matches Some(i) ==> i < self.entries@.len() && self.entries@[i as int].0@ == host@
                && self.record(host@) == Some(
                (self.entries@[i as int].1.addrs@, self.entries@[i as int].1.expires_at_ms),
            ),
            r is None ==> !self.has_key(host@),
    {
        let n = self.entries.len();
        let mut i: usize = 0;
        while i < n
            invariant
                self.wf(),
                n == self.entries@.len(),
                0 <= i <= n,
                forall|j: int| 0 <= j < i ==> self.entries@[j].0@ != host@,
            decreases n - i,
        {
            if self.entries[i].0.key_eq(host) {
                proof {
                    lemma_find_first(self.entries@, i as int, host@);
                }
                return Some(i);
            }
            i += 1;
        }
        proof {
            lemma_find_absent(self.entries@, host@);
        }
        None
    }

    /// Serve the record for `host` if one is held and still valid at `now`;
    /// an expired or missing record yields nothing.
    pub fn lookup(&self, host: &Hostname, now: u64) -> (r: Option<Vec<SocketAddress>>)
        requires
            self.wf(),
        ensures
            r is Some <==> self.valid_at(host@, now),
            r matches Some(v) ==> self.record(host@) matches Some(e) && v@ == e.0 && now < e.1,
    {
        match self.index_of(host) {
            None => None,
            Some(i) => {
                let entry = &self.entries[i].1;
                if now < entry.expires_at_ms {
                    Some(copy_addrs(&entry.addrs))
                } else {
                    None
                }
            },
        }
    }

    /// Store `entry` for `host`, overwriting in place when the key is
    /// already held, and otherwise evicting the oldest entry first if the
    /// cache is full. Every key other than `host` and the possibly evicted
    /// oldest key keeps its record unchanged.
    pub fn store(&mut self, host: Hostname, entry: CacheEntry)
        requires
            old(self).wf(),
        ensures
            final(self).wf(),
            final(self).spec_capacity() == old(self).spec_capacity(),
            final(self).record(host@) == Some::<(Seq<SocketAddress>, u64)>(
                (entry.addrs@, entry.expires_at_ms),
            ),
            forall|k: Seq<u8>|
                k != host@ && k != old(self).oldest_key() ==> final(self).record(k) == old(
                    self,
                ).record(k),
            old(self).has_key(host@) || old(self).spec_len() < old(self).spec_capacity()
                ==> forall|k: Seq<u8>|
                k != host@ ==> final(self).record(k) == old(self).record(k),
            final(self).spec_len() <= old(self).spec_len() + 1,
    {
        let ghost s0 = self.entries@;
        match self.index_of(&host) {
            Some(i) => {
                self.entries.set(i, (host, entry));
                proof {
                    let s1 = self.entries@;
                    assert(s1 == s0.update(i as int, (s1[i as int].0, s1[i as int].1)));
                    assert(forall|j: int| 0 <= j < s0.len() && j != i ==> s1[j] == s0[j]);
                    assert(s1[i as int].0@ == host@);
                    assert forall|k: Seq<u8>| k != host@ implies spec_find(s1, k) == spec_find(
                        s0,
                        k,
                    ) by {
                        lemma_find_update_other(s0, s1, i as int, k);
                    }
                    lemma_find_first(s1, i as int, host@);
                }
            },
            None => {
                if self.entries.len() == self.capacity {
                    let ghost evicted = s0[0].0@;
                    self.entries.remove(0);
                    proof {
                        assert(self.entries@ =~= s0.drop_first());
                        assert(forall|j: int|
                            0 <= j < self.entries@.len() ==> self.entries@[j] == s0[j + 1]);
                        assert(forall|k: Seq<u8>|
                            k != evicted ==> spec_find(s0, k) == spec_find(s0.drop_first(), k));
                    }
                }
                let ghost s1 = self.entries@;
                proof {
                    assert(forall|k: Seq<u8>|
                        k != host@ && k != s0[0].0@ ==> spec_find(s1, k) == spec_find(s0, k));
                    assert(s0.len() < old(self).capacity ==> s1 == s0);
                }
                self.entries.push((host, entry));
                proof {
                    let s2 = self.entries@;
                    assert(s2 == s1.push((s2.last().0, s2.last().1)));
                    assert(s2.last().0@ == host@);
                    assert(forall|j: int| 0 <= j < s1.len() ==> s2[j] == s1[j]);
                    lemma_find_none_all_absent(s0, host@);
                    assert(forall|j: int| 0 <= j < s1.len() ==> s1[j].0@ != host@);
                    lemma_find_first(s2, s2.len() - 1, host@);
                    assert forall|k: Seq<u8>| k != host@ implies spec_find(s2, k) == spec_find(
                        s1,
                        k,
                    ) by {
                        lemma_find_push_other(s1, s2, k);
                    }
                }
            },
        }
    }
}

proof fn lemma_find_update_other(
    s0: Seq<(Hostname, CacheEntry)>,
    s1: Seq<(Hostname, CacheEntry)>,
    i: int,
    k: Seq<u8>,
)
    requires
        s0.len() == s1.len(),
        0 <= i < s0.len(),
        forall|j: int| 0 <= j < s0.len() && j != i ==> s1[j] == s0[j],
        s0[i].0@ != k,
        s1[i].0@ != k,
    ensures
        spec_find(s1, k) == spec_find(s0, k),
    decreases s0.len(),
{
    if s0.len() > 0 {
        if i == 0 {
            assert(s1.drop_first() =~= s0.drop_first());
        } else {
            assert(s1[0] == s0[0]);
            if s0[0].0@ != k {
                assert(forall|j: int|
                    0 <= j < s0.drop_first().len() && j != i - 1 ==> s1.drop_first()[j]
                        == s0.drop_first()[j]);
                assert(s0.drop_first()[i - 1] == s0[i]);
                assert(s1.drop_first()[i - 1] == s1[i]);
                lemma_find_update_other(s0.drop_first(), s1.drop_first(), i - 1, k);
            }
        }
    }
}

proof fn lemma_find_push_other(
    s1: Seq<(Hostname, CacheEntry)>,
    s2: Seq<(Hostname, CacheEntry)>,
    k: Seq<u8>,
)
    requires
        s2.len() == s1.len() + 1,
        forall|j: int| 0 <= j < s1.len() ==> s2[j] == s1[j],
        s2.last().0@ != k,
    ensures
        spec_find(s2, k) == spec_find(s1, k),
    decreases s1.len(),
{
    if s1.len() == 0 {
        assert(s2[0] == s2.last());
    } else {
        assert(s2[0] == s1[0]);
        if s1[0].0@ != k {
            assert(forall|j: int|
                0 <= j < s1.drop_first().len() ==> s2.drop_first()[j] == s1.drop_first()[j]);
            assert(s2.drop_first().last() == s2.last());
            lemma_find_push_other(s1.drop_first(), s2.drop_first(), k);
        }
    }
}

/// An element-wise copy of an address list.
pub fn copy_addrs(addrs: &Vec<SocketAddress>) -> (r: Vec<SocketAddress>)
    ensures
        r@ == addrs@,
{
    let n = addrs.len();
    let mut out: Vec<SocketAddress> = Vec::new();
    let mut i: usize = 0;
    while i < n
        invariant
            n == addrs@.len(),
            0 <= i <= n,
            out@.len() == i,
            forall|j: int| 0 <= j < i ==> out@[j] == addrs@[j],
        decreases n - i,
    {
        out.push(addrs[i]);
        i += 1;
    }
    assert(out@ =~= addrs@);
    out
}

} // verus!
