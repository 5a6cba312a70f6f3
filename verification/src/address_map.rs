//! Total partition of the 32-bit physical address domain into contiguous,
//! non-overlapping ranges, each either vacant or mapped to one resource tag.

use vstd::prelude::*;
use vstd::pervasive::unreached;

verus! {

/// An inclusive range of 32-bit physical addresses.
#[derive(Debug, Clone, Copy, PartialEq, Eq, Structural)]
pub struct AddrRange {
    pub start: u32,
    pub end: u32,
}

impl AddrRange {
    /// The range holds `addr`; both bounds are inclusive.
    pub open spec fn contains(self, addr: u32) -> bool {
        self.start <= addr <= self.end
    }
}

/// One entry of an address map: a range, and the resource mapped there if the
/// range is not vacant.
#[derive(Debug, Clone, Copy)]
pub struct MapEntry<T> {
    pub range: AddrRange,
    pub resource: Option<T>,
}

/// The entries are ordered, non-empty ranges, and each one starts right after
/// its predecessor ends.
pub open spec fn contiguous<T>(s: Seq<MapEntry<T>>) -> bool {
    &&& forall|i: int|
        0 <= i < s.len() ==> (#[trigger] s[i]).range.start <= s[i].range.end
    &&& forall|i: int|
        0 < i < s.len() ==> (#[trigger] s[i]).range.start == s[i - 1].range.end + 1
}

/// Index of the first entry whose range holds `addr` (the length of `s` if
/// there is none).
pub open spec fn find_index<T>(s: Seq<MapEntry<T>>, addr: u32) -> int
    decreases s.len(),
{
    if s.len() == 0 {
        0
    } else if s[0].range.contains(addr) {
        0
    } else {
        1 + find_index(s.drop_first(), addr)
    }
}

/// In a contiguous sequence that starts at or before `addr` and ends at or
/// after it, some entry holds `addr`, and `find_index` points at it.
pub proof fn lemma_find_index_covers<T>(s: Seq<MapEntry<T>>, addr: u32)
    requires
        s.len() > 0,
        contiguous(s),
        s[0].range.start <= addr,
        addr <= s[s.len() - 1].range.end,
    ensures
        0 <= find_index(s, addr) < s.len(),
        s[find_index(s, addr)].range.contains(addr),
    decreases s.len(),
{
    if s[0].range.contains(addr) {
    } else {
        assert(addr > s[0].range.end);
        assert(s.len() > 1);
        let t = s.drop_first();
        assert forall|i: int| 0 <= i < t.len() implies (#[trigger] t[i]) == s[i + 1] by {}
        assert(contiguous(t));
        assert(t[0].range.start == s[0].range.end + 1 <= addr);
        assert(t[t.len() - 1] == s[s.len() - 1]);
        lemma_find_index_covers(t, addr);
        assert(find_index(s, addr) == 1 + find_index(t, addr));
    }
}

/// `find_index` returns exactly the first covering index.
pub proof fn lemma_find_index_first<T>(s: Seq<MapEntry<T>>, addr: u32, k: int)
    requires
        0 <= k < s.len(),
        s[k].range.contains(addr),
        forall|j: int| 0 <= j < k ==> !(#[trigger] s[j]).range.contains(addr),
    ensures
        find_index(s, addr) == k,
    decreases k,
{
    if k == 0 {
    } else {
        let t = s.drop_first();
        assert forall|i: int| 0 <= i < t.len() implies (#[trigger] t[i]) == s[i + 1] by {}
        assert forall|j: int| 0 <= j < k - 1 implies !(#[trigger] t[j]).range.contains(addr) by {
            assert(t[j] == s[j + 1]);
        }
        lemma_find_index_first(t, addr, k - 1);
        assert(find_index(s, addr) == 1 + find_index(t, addr));
    }
}

/// Partition of the whole 32-bit address domain. Well-formed maps are total:
/// every address falls into exactly one entry, though an entry may be vacant.
#[derive(Debug, Clone)]
pub struct AddressMap<T> {
    pub entries: Vec<MapEntry<T>>,
}

impl<T> AddressMap<T> {
    /// The entries cover the address domain completely: they are contiguous,
    /// the first starts at address zero and the last ends at the top address.
    pub open spec fn wf(self) -> bool {
        &&& self.entries@.len() > 0
        &&& self.entries@[0].range.start == 0
        &&& self.entries@[self.entries@.len() - 1].range.end == u32::MAX
        &&& contiguous(self.entries@)
    }

    /// The unique entry whose range holds `addr` (meaningful under `wf`).
    pub open spec fn lookup(self, addr: u32) -> MapEntry<T> {
        self.entries@[find_index(self.entries@, addr)]
    }
}

impl<T: Copy> AddressMap<T> {
    /// Builds a map from `entries`, accepting exactly the well-formed ones.
    pub fn new(entries: Vec<MapEntry<T>>) -> (r: Option<AddressMap<T>>)
        ensures
            match r {
                Some(m) => m == (AddressMap { entries }) && m.wf(),
                None => !(AddressMap { entries }).wf(),
            },
    {
        if entries.len() == 0 {
            return None;
        }
        if entries[0].range.start != 0 {
            return None;
        }
        if entries[entries.len() - 1].range.end != u32::MAX {
            return None;
        }
        let n: usize = entries.len();
        let mut i: usize = 0;
        while i < n
            invariant
                0 <= i <= n,
                n == entries@.len(),
                forall|j: int|
                    0 <= j < i ==> (#[trigger] entries@[j]).range.start <= entries@[j].range.end,
                forall|j: int|
                    0 < j < i ==> (#[trigger] entries@[j]).range.start == entries@[j - 1].range.end + 1,
            decreases n - i,
        {
            let e: MapEntry<T> = entries[i];
            if e.range.start > e.range.end {
                return None;
            }
            if i > 0 {
                let prev_end: u32 = entries[i - 1].range.end;
                if prev_end == u32::MAX {
                    // No u32 can start one past the top address, so a
                    // further entry cannot be contiguous.
                    assert(!contiguous(entries@));
                    return None;
                }
                if e.range.start != prev_end + 1 {
                    return None;
                }
            }
            i += 1;
        }
        Some(AddressMap { entries })
    }

    /// Forward lookup: the covering range for `address` and the resource
    /// mapped there, if any. Queries the map without mutating it.
    #[verifier::rlimit(50)]
    pub fn range_value(&self, address: u32) -> (r: (AddrRange, Option<T>))
        requires
            self.wf(),
        ensures
            r.0 == self.lookup(address).range,
            r.1 == self.lookup(address).resource,
            r.0.contains(address),
    {
        let n: usize = self.entries.len();
        let mut i: usize = 0;
        while i < n
            invariant
                self.wf(),
                0 <= i <= n,
                n == self.entries@.len(),
                forall|j: int| 0 <= j < i ==> !(#[trigger] self.entries@[j]).range.contains(address),
            decreases n - i,
        {
            let e: MapEntry<T> = self.entries[i];
            if e.range.start <= address && address <= e.range.end {
                proof {
                    lemma_find_index_first(self.entries@, address, i as int);
                }
                return (e.range, e.resource);
            }
            i += 1;
        }
        proof {
            lemma_find_index_covers(self.entries@, address);
        }
        unreached()
    }
}

} // verus!
