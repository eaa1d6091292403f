//! The zone store: an immutable mapping from fully-qualified names to
//! their records, plus the authoritative zone apex.
//!
//! The store is built once at startup and only read afterwards; lookup
//! is an exact byte match on normalized names.

use vstd::prelude::*;

use crate::name::DnsName;
use crate::records::NetworkEntry;

verus! {

/// First-match lookup of `name` among the entries. With unique keys —
/// the store's well-formedness — this is exactly the finite map the
/// entry list represents.
pub open spec fn lookup_spec(s: Seq<(DnsName, NetworkEntry)>, name: Seq<u8>) -> Option<
    NetworkEntry,
>
    decreases s.len(),
{
    if s.len() == 0 {
        None
    } else if s[0].0@ == name {
        Some(s[0].1)
    } else {
        lookup_spec(s.drop_first(), name)
    }
}

/// No two entries share a key.
pub open spec fn unique_keys(s: Seq<(DnsName, NetworkEntry)>) -> bool {
    forall|i: int, j: int| 0 <= i < j < s.len() ==> s[i].0@ != s[j].0@
}

/// A name is found exactly when some entry holds it.
pub proof fn lemma_lookup_present(s: Seq<(DnsName, NetworkEntry)>, name: Seq<u8>)
    ensures
        (lookup_spec(s, name) is Some) <==> (exists|i: int|
            0 <= i < s.len() && #[trigger] s[i].0@ == name),
    decreases s.len(),
{
    if s.len() == 0 {
    } else if s[0].0@ == name {
        assert(s[0].0@ == name);
    } else {
        lemma_lookup_present(s.drop_first(), name);
        if exists|i: int| 0 <= i < s.drop_first().len() && #[trigger] s.drop_first()[i].0@
            == name {
            let i = choose|i: int|
                0 <= i < s.drop_first().len() && #[trigger] s.drop_first()[i].0@ == name;
            assert(s[i + 1].0@ == name);
        }
        if exists|i: int| 0 <= i < s.len() && #[trigger] s[i].0@ == name {
            let i = choose|i: int| 0 <= i < s.len() && #[trigger] s[i].0@ == name;
            assert(s.drop_first()[i - 1].0@ == name);
        }
    }
}

/// The full served zone: the record entries and the apex name.
#[derive(Debug, Clone)]
pub struct Network {
    pub entries: Vec<(DnsName, NetworkEntry)>,
    pub zone: DnsName,
}

impl Network {
    /// The store is well formed when no name is listed twice.
    pub open spec fn wf(&self) -> bool {
        unique_keys(self.entries@)
    }

    /// An empty store serving the given zone apex.
    pub fn new(zone: DnsName) -> (r: Network)
        ensures
            r.zone == zone,
            r.entries@ == Seq::<(DnsName, NetworkEntry)>::empty(),
            r.wf(),
    {
        Network { entries: Vec::new(), zone }
    }

    /// Append one entry under `name`; the caller keeps keys unique.
    pub fn add_entry(&mut self, name: DnsName, entry: NetworkEntry)
        ensures
            final(self).entries@ == old(self).entries@.push((name, entry)),
            final(self).zone == old(self).zone,
    {
        self.entries.push((name, entry));
    }

    /// Exact-match lookup of a queried name; `None` when the store holds
    /// no entry for it. No wildcard or suffix matching is attempted.
    pub fn resolve(&self, name: &DnsName) -> (r: Option<&NetworkEntry>)
        ensures
            match r {
                Some(e) => lookup_spec(self.entries@, name@) == Some(*e),
                None => lookup_spec(self.entries@, name@) is None,
            },
    {
        let mut i: usize = 0;
        proof {
            assert(self.entries@.skip(0) =~= self.entries@);
        }
        while i < self.entries.len()
            invariant
                i <= self.entries.len(),
                lookup_spec(self.entries@, name@) == lookup_spec(
                    self.entries@.skip(i as int),
                    name@,
                ),
            decreases self.entries.len() - i,
        {
            if self.entries[i].0.equals(name) {
                proof {
                    assert(self.entries@.skip(i as int)[0] == self.entries@[i as int]);
                }
                return Some(&self.entries[i].1);
            }
            proof {
                assert(self.entries@.skip(i as int)[0] == self.entries@[i as int]);
                assert(self.entries@.skip(i as int).drop_first() =~= self.entries@.skip(i + 1));
            }
            i += 1;
        }
        proof {
            assert(self.entries@.skip(self.entries@.len() as int).len() == 0);
        }
        None
    }
}

} // verus!
