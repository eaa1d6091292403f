//! Typed DNS records and the record synthesizer.
//!
//! A store entry keeps its addresses and aliases as plain values; the
//! synthesizer turns one entry into the concrete answer records for a
//! query, every record carrying the queried name as owner and the given
//! TTL, in the fixed order A, then CNAME, then AAAA.

use vstd::prelude::*;

use crate::name::DnsName;

verus! {

/// An IPv4 address as its four octets.
#[derive(Debug, Clone, Copy, PartialEq, Eq)]
pub struct Ipv4 {
    pub a: u8,
    pub b: u8,
    pub c: u8,
    pub d: u8,
}

/// An IPv6 address as its eight 16-bit segments.
#[derive(Debug, Clone, Copy, PartialEq, Eq)]
pub struct Ipv6 {
    pub s1: u16,
    pub s2: u16,
    pub s3: u16,
    pub s4: u16,
    pub s5: u16,
    pub s6: u16,
    pub s7: u16,
    pub s8: u16,
}

/// The data carried by one answer record.
#[derive(Debug, Clone, PartialEq, Eq)]
pub enum RData {
    A(Ipv4),
    Cname(DnsName),
    Aaaa(Ipv6),
}

/// One answer record: owner name, time to live, and data.
#[derive(Debug, Clone, PartialEq, Eq)]
pub struct Record {
    pub name: DnsName,
    pub ttl: u32,
    pub data: RData,
}

/// Mathematical form of record data, with names as byte sequences.
#[verifier::ext_equal]
pub enum RDataV {
    A(Ipv4),
    Cname(Seq<u8>),
    Aaaa(Ipv6),
}

/// Mathematical form of one answer record.
#[verifier::ext_equal]
pub struct RecordV {
    pub owner: Seq<u8>,
    pub ttl: u32,
    pub data: RDataV,
}

impl DeepView for RData {
    type V = RDataV;

    open spec fn deep_view(&self) -> RDataV {
        match self {
            RData::A(ip) => RDataV::A(*ip),
            RData::Cname(cn) => RDataV::Cname(cn@),
            RData::Aaaa(ip) => RDataV::Aaaa(*ip),
        }
    }
}

impl DeepView for Record {
    type V = RecordV;

    open spec fn deep_view(&self) -> RecordV {
        RecordV { owner: self.name@, ttl: self.ttl, data: self.data.deep_view() }
    }
}

/// All records a store holds for one name.
#[derive(Debug, Clone, PartialEq, Eq)]
pub struct NetworkEntry {
    pub a_recs: Vec<Ipv4>,
    pub cname_recs: Vec<DnsName>,
    pub aaaa_recs: Vec<Ipv6>,
}

/// Mathematical form of a store entry.
#[verifier::ext_equal]
pub struct EntryV {
    pub a: Seq<Ipv4>,
    pub cname: Seq<Seq<u8>>,
    pub aaaa: Seq<Ipv6>,
}

impl DeepView for NetworkEntry {
    type V = EntryV;

    open spec fn deep_view(&self) -> EntryV {
        EntryV { a: self.a_recs@, cname: self.cname_recs.deep_view(), aaaa: self.aaaa_recs@ }
    }
}

/// The A records synthesized from an entry, in stored order.
pub open spec fn a_part(e: EntryV, owner: Seq<u8>, ttl: u32) -> Seq<RecordV> {
    e.a.map(|_i: int, ip: Ipv4| RecordV { owner, ttl, data: RDataV::A(ip) })
}

/// The CNAME records synthesized from an entry, in stored order.
pub open spec fn cname_part(e: EntryV, owner: Seq<u8>, ttl: u32) -> Seq<RecordV> {
    e.cname.map(|_i: int, cn: Seq<u8>| RecordV { owner, ttl, data: RDataV::Cname(cn) })
}

/// The AAAA records synthesized from an entry, in stored order.
pub open spec fn aaaa_part(e: EntryV, owner: Seq<u8>, ttl: u32) -> Seq<RecordV> {
    e.aaaa.map(|_i: int, ip: Ipv6| RecordV { owner, ttl, data: RDataV::Aaaa(ip) })
}

/// Every record synthesized from an entry: one per stored address or
/// alias, in the fixed order A, then CNAME, then AAAA.
pub open spec fn records_spec(e: EntryV, owner: Seq<u8>, ttl: u32) -> Seq<RecordV> {
    a_part(e, owner, ttl) + cname_part(e, owner, ttl) + aaaa_part(e, owner, ttl)
}

/// Shape of the synthesized answer section: exactly one record per
/// stored address or alias, in the order A, CNAME, AAAA, each carrying
/// the queried owner name and the given TTL.
pub proof fn lemma_records_spec_shape(e: EntryV, owner: Seq<u8>, ttl: u32)
    ensures
        records_spec(e, owner, ttl).len() == e.a.len() + e.cname.len() + e.aaaa.len(),
        forall|i: int|
            0 <= i < e.a.len() ==> records_spec(e, owner, ttl)[i] == (RecordV {
                owner,
                ttl,
                data: RDataV::A(e.a[i]),
            }),
        forall|i: int|
            0 <= i < e.cname.len() ==> records_spec(e, owner, ttl)[e.a.len() + i] == (RecordV {
                owner,
                ttl,
                data: RDataV::Cname(e.cname[i]),
            }),
        forall|i: int|
            0 <= i < e.aaaa.len() ==> records_spec(e, owner, ttl)[e.a.len() + e.cname.len() + i]
                == (RecordV { owner, ttl, data: RDataV::Aaaa(e.aaaa[i]) }),
        forall|i: int|
            0 <= i < records_spec(e, owner, ttl).len() ==> (#[trigger] records_spec(
                e,
                owner,
                ttl,
            )[i]).owner == owner && records_spec(e, owner, ttl)[i].ttl == ttl,
{
    let r = records_spec(e, owner, ttl);
    assert forall|i: int| 0 <= i < r.len() implies r[i].owner == owner && r[i].ttl == ttl by {
        if i < e.a.len() {
            assert(r[i] == a_part(e, owner, ttl)[i]);
        } else if i < e.a.len() + e.cname.len() {
            assert(r[i] == cname_part(e, owner, ttl)[i - e.a.len()]);
        } else {
            assert(r[i] == aaaa_part(e, owner, ttl)[i - e.a.len() - e.cname.len()]);
        }
    }
}

/// Pushing one record onto a vector extends its deep view by that
/// record's view.
proof fn lemma_push_deep_view(v1: Vec<Record>, v2: Vec<Record>, rec: Record)
    requires
        v2@ == v1@.push(rec),
    ensures
        v2.deep_view() == v1.deep_view().push(rec.deep_view()),
{
    assert forall|m: int| 0 <= m < v2@.len() implies #[trigger] v2.deep_view()[m]
        == v1.deep_view().push(rec.deep_view())[m] by {
        assert(v2.deep_view()[m] == v2@[m].deep_view());
        if m < v1@.len() {
            assert(v2@[m] == v1@[m]);
            assert(v1.deep_view()[m] == v1@[m].deep_view());
        }
    }
    assert(v2.deep_view() =~= v1.deep_view().push(rec.deep_view()));
}

impl NetworkEntry {
    /// An entry with no records at all.
    pub fn empty() -> (r: NetworkEntry)
        ensures
            r.deep_view().a == Seq::<Ipv4>::empty(),
            r.deep_view().cname == Seq::<Seq<u8>>::empty(),
            r.deep_view().aaaa == Seq::<Ipv6>::empty(),
    {
        let r = NetworkEntry { a_recs: Vec::new(), cname_recs: Vec::new(), aaaa_recs: Vec::new() };
        proof {
            assert(r.deep_view().cname =~= Seq::<Seq<u8>>::empty());
        }
        r
    }

    /// Synthesize the answer records for this entry: one record per
    /// stored address or alias, owner name and TTL as given, in the
    /// fixed order A, then CNAME, then AAAA.
    pub fn get_records(&self, name: &DnsName, ttl: u32) -> (r: Vec<Record>)
        ensures
            r.deep_view() == records_spec(self.deep_view(), name@, ttl),
    {
        let ghost e = self.deep_view();
        let ghost ap = a_part(e, name@, ttl);
        let ghost cp = cname_part(e, name@, ttl);
        let ghost aap = aaaa_part(e, name@, ttl);
        let mut records: Vec<Record> = Vec::new();
        let mut i: usize = 0;
        while i < self.a_recs.len()
            invariant
                i <= self.a_recs.len(),
                e == self.deep_view(),
                ap == a_part(e, name@, ttl),
                records.deep_view() == ap.subrange(0, i as int),
            decreases self.a_recs.len() - i,
        {
            let rec = Record { name: name.duplicate(), ttl, data: RData::A(self.a_recs[i]) };
            let ghost prev = records;
            records.push(rec);
            proof {
                assert(ap[i as int] == rec.deep_view());
                lemma_push_deep_view(prev, records, rec);
                assert(records.deep_view() =~= ap.subrange(0, i + 1));
            }
            i += 1;
        }
        proof {
            assert(ap.subrange(0, ap.len() as int) =~= ap);
        }
        let mut j: usize = 0;
        while j < self.cname_recs.len()
            invariant
                j <= self.cname_recs.len(),
                e == self.deep_view(),
                ap == a_part(e, name@, ttl),
                cp == cname_part(e, name@, ttl),
                records.deep_view() == ap + cp.subrange(0, j as int),
            decreases self.cname_recs.len() - j,
        {
            let rec = Record {
                name: name.duplicate(),
                ttl,
                data: RData::Cname(self.cname_recs[j].duplicate()),
            };
            let ghost prev = records;
            records.push(rec);
            proof {
                assert(cp[j as int] == rec.deep_view());
                lemma_push_deep_view(prev, records, rec);
                assert(records.deep_view() =~= ap + cp.subrange(0, j + 1));
            }
            j += 1;
        }
        proof {
            assert(cp.subrange(0, cp.len() as int) =~= cp);
        }
        let mut k: usize = 0;
        while k < self.aaaa_recs.len()
            invariant
                k <= self.aaaa_recs.len(),
                e == self.deep_view(),
                ap == a_part(e, name@, ttl),
                cp == cname_part(e, name@, ttl),
                aap == aaaa_part(e, name@, ttl),
                records.deep_view() == ap + cp + aap.subrange(0, k as int),
            decreases self.aaaa_recs.len() - k,
        {
            let rec = Record { name: name.duplicate(), ttl, data: RData::Aaaa(self.aaaa_recs[k]) };
            let ghost prev = records;
            records.push(rec);
            proof {
                assert(aap[k as int] == rec.deep_view());
                lemma_push_deep_view(prev, records, rec);
                assert(records.deep_view() =~= ap + cp + aap.subrange(0, k + 1));
            }
            k += 1;
        }
        proof {
            assert(aap.subrange(0, aap.len() as int) =~= aap);
            assert(records.deep_view() == records_spec(e, name@, ttl));
        }
        records
    }
}

} // verus!
