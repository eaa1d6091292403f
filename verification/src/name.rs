//! Fully-qualified domain names held as plain ASCII bytes.
//!
//! A name is kept in its normal form: every ASCII letter lower-cased and a
//! trailing dot present, so that lookups and zone checks are exact byte
//! comparisons, the way a lower-cased wire name would compare.

use vstd::prelude::*;

verus! {

/// The ASCII byte of the dot that separates DNS labels.
pub const DOT: u8 = 46;

/// The first and last ASCII upper-case letters, `A` and `Z`.
pub const UPPER_A: u8 = 65;

pub const UPPER_Z: u8 = 90;

/// Distance from an ASCII upper-case letter to its lower-case form.
pub const CASE_GAP: u8 = 32;

/// Lower-case one ASCII byte; bytes outside `A`..`Z` are unchanged.
pub open spec fn to_lower(b: u8) -> u8 {
    if UPPER_A <= b && b <= UPPER_Z {
        (b + CASE_GAP) as u8
    } else {
        b
    }
}

/// Lower-case every byte of a name.
pub open spec fn lower_seq(s: Seq<u8>) -> Seq<u8> {
    s.map(|_i: int, b: u8| to_lower(b))
}

/// The normal form of a name: lower-cased, with a trailing dot appended
/// when the input does not already end in one (the empty input becomes
/// the DNS root, a single dot).
pub open spec fn normalize(s: Seq<u8>) -> Seq<u8> {
    let l = lower_seq(s);
    if l.len() > 0 && l.last() == DOT {
        l
    } else {
        l.push(DOT)
    }
}

/// A byte sequence that is in normal form: non-empty, dot-terminated,
/// and free of ASCII upper-case letters.
pub open spec fn is_normal(s: Seq<u8>) -> bool {
    &&& s.len() > 0
    &&& s.last() == DOT
    &&& forall|i: int| 0 <= i < s.len() ==> !(UPPER_A <= #[trigger] s[i] <= UPPER_Z)
}

/// `name` is a proper subdomain of `zone`: strictly longer, agreeing with
/// `zone` on its suffix, with a label boundary (a dot) just before it.
pub open spec fn is_subdomain(name: Seq<u8>, zone: Seq<u8>) -> bool {
    &&& name.len() > zone.len()
    &&& name[name.len() - zone.len() - 1] == DOT
    &&& name.skip(name.len() - zone.len()) == zone
}

/// `name` lies within the zone rooted at `zone`: it is the apex itself,
/// a proper subdomain of it, or the zone is the DNS root, under which
/// every name falls.
pub open spec fn in_zone(name: Seq<u8>, zone: Seq<u8>) -> bool {
    ||| name == zone
    ||| zone == seq![DOT]
    ||| is_subdomain(name, zone)
}

/// A fully-qualified domain name, stored as normalized ASCII bytes.
#[derive(Debug, Clone, PartialEq, Eq)]
pub struct DnsName {
    bytes: Vec<u8>,
}

impl View for DnsName {
    type V = Seq<u8>;

    closed spec fn view(&self) -> Seq<u8> {
        self.bytes@
    }
}

impl DeepView for DnsName {
    type V = Seq<u8>;

    open spec fn deep_view(&self) -> Seq<u8> {
        self.view()
    }
}

impl DnsName {
    /// Build a name from raw ASCII bytes, normalizing case and the
    /// trailing dot.
    pub fn new(raw: Vec<u8>) -> (r: DnsName)
        ensures
            r@ == normalize(raw@),
            is_normal(r@),
    {
        let ghost lowered = lower_seq(raw@);
        let mut out: Vec<u8> = Vec::new();
        let mut i: usize = 0;
        while i < raw.len()
            invariant
                i <= raw.len(),
                lowered == lower_seq(raw@),
                out@ == lowered.subrange(0, i as int),
            decreases raw.len() - i,
        {
            let b = raw[i];
            let lb = if UPPER_A <= b && b <= UPPER_Z {
                b + CASE_GAP
            } else {
                b
            };
            out.push(lb);
            proof {
                assert(lowered.len() == raw@.len());
                assert(lowered[i as int] == to_lower(raw@[i as int]));
                assert(lowered.subrange(0, i + 1) =~= lowered.subrange(0, i as int).push(lb));
            }
            i += 1;
        }
        proof {
            assert(out@ =~= lowered);
        }
        if out.len() == 0 {
            out.push(DOT);
        } else if out[out.len() - 1] != DOT {
            out.push(DOT);
        }
        let r = DnsName { bytes: out };
        proof {
            assert(r@ == normalize(raw@));
            assert forall|j: int| 0 <= j < r@.len() implies !(UPPER_A <= #[trigger] r@[j]
                <= UPPER_Z) by {
                if j < lowered.len() {
                    assert(lowered[j] == to_lower(raw@[j]));
                }
            }
        }
        r
    }

    /// A fresh name holding the same bytes.
    pub fn duplicate(&self) -> (r: DnsName)
        ensures
            r@ == self@,
    {
        let copy = self.bytes.clone();
        proof {
            assert forall|i: int| 0 <= i < copy@.len() implies copy@[i] == self.bytes@[i] by {
                assert(cloned::<u8>(self.bytes[i], copy[i]));
            }
            assert(copy@ =~= self.bytes@);
        }
        DnsName { bytes: copy }
    }

    /// The name's bytes, for callers that serialize or print it.
    pub fn as_bytes(&self) -> (r: &Vec<u8>)
        ensures
            r@ == self@,
    {
        &self.bytes
    }

    /// Exact byte equality of two names.
    pub fn equals(&self, other: &DnsName) -> (r: bool)
        ensures
            r == (self@ == other@),
    {
        if self.bytes.len() != other.bytes.len() {
            return false;
        }
        let n = self.bytes.len();
        let mut i: usize = 0;
        while i < n
            invariant
                i <= n,
                n == self.bytes.len(),
                n == other.bytes.len(),
                forall|j: int| 0 <= j < i ==> self.bytes@[j] == other.bytes@[j],
            decreases n - i,
        {
            if self.bytes[i] != other.bytes[i] {
                return false;
            }
            i += 1;
        }
        proof {
            assert(self@ =~= other@);
        }
        true
    }

    /// Whether `name` is equal to, or a subdomain of, this name taken as
    /// a zone apex — the zone-authority test of the request validator.
    pub fn zone_of(&self, name: &DnsName) -> (r: bool)
        ensures
            r == in_zone(name@, self@),
    {
        if self.equals(name) {
            return true;
        }
        if self.bytes.len() == 1 && self.bytes[0] == DOT {
            proof {
                assert(self@ =~= seq![DOT]);
            }
            return true;
        }
        proof {
            assert(self@ != seq![DOT]);
        }
        if name.bytes.len() <= self.bytes.len() {
            return false;
        }
        let off = name.bytes.len() - self.bytes.len();
        if name.bytes[off - 1] != DOT {
            return false;
        }
        let mut j: usize = 0;
        while j < self.bytes.len()
            invariant
                j <= self.bytes.len(),
                off == name.bytes.len() - self.bytes.len(),
                name.bytes.len() > self.bytes.len(),
                name@ != self@,
                self@ != seq![DOT],
                name.bytes@[off - 1] == DOT,
                forall|k: int| 0 <= k < j ==> name.bytes@[off + k] == self.bytes@[k],
            decreases self.bytes.len() - j,
        {
            if name.bytes[off + j] != self.bytes[j] {
                proof {
                    assert(name@.skip(off as int)[j as int] != self@[j as int]);
                }
                return false;
            }
            j += 1;
        }
        proof {
            assert(name@.skip(off as int) =~= self@);
        }
        true
    }
}

} // verus!
