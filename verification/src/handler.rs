//! The request handler: validation, resolution, and response building.
//!
//! `Handler::handle_request` is the whole request-to-response pipeline:
//! it validates the query's opcode, message type and zone, looks the
//! name up in the store, synthesizes the answer records, and picks the
//! response code. Its contract pins the entire response down as a
//! function of the query and the store, so issuing the same query twice
//! against an unchanged store provably yields the same answer section.

use vstd::prelude::*;

use crate::name::{in_zone, DnsName};
use crate::records::{
    lemma_records_spec_shape, records_spec, NetworkEntry, RDataV, Record, RecordV,
};
use crate::store::{lemma_lookup_present, lookup_spec, Network};

verus! {

/// The default time to live, in seconds, stamped on every synthesized
/// record.
pub const DEFAULT_TTL: u32 = 3;

/// DNS operation codes, as far as the validator distinguishes them:
/// everything but a standard query is rejected.
#[derive(Debug, Clone, Copy, PartialEq, Eq, Structural)]
pub enum OpCode {
    Query,
    Status,
    Notify,
    Update,
    Unknown,
}

/// Whether a message is a query or a response.
#[derive(Debug, Clone, Copy, PartialEq, Eq, Structural)]
pub enum MessageType {
    Query,
    Response,
}

/// The response codes this server emits.
#[derive(Debug, Clone, Copy, PartialEq, Eq, Structural)]
pub enum ResponseCode {
    NoError,
    NXDomain,
    Refused,
    ServFail,
}

/// One inbound query, as the transport hands it to the core: the
/// message identifier to echo, the protocol fields the validator reads,
/// and the queried name.
#[derive(Debug, Clone, PartialEq, Eq)]
pub struct DnsQuery {
    pub id: u16,
    pub op_code: OpCode,
    pub message_type: MessageType,
    pub name: DnsName,
}

/// Why a request failed: one of the three validation rejections, or an
/// I/O failure while delivering the response.
#[derive(Debug, Clone, PartialEq, Eq)]
pub enum DNSError {
    InvalidOpCode(OpCode),
    InvalidMessageType(MessageType),
    InvalidZone(DnsName),
    Io,
}

/// Mathematical form of `DNSError`, with the name as a byte sequence.
#[verifier::ext_equal]
pub enum DNSErrorV {
    InvalidOpCode(OpCode),
    InvalidMessageType(MessageType),
    InvalidZone(Seq<u8>),
    Io,
}

impl DeepView for DNSError {
    type V = DNSErrorV;

    open spec fn deep_view(&self) -> DNSErrorV {
        match self {
            DNSError::InvalidOpCode(op) => DNSErrorV::InvalidOpCode(*op),
            DNSError::InvalidMessageType(mt) => DNSErrorV::InvalidMessageType(*mt),
            DNSError::InvalidZone(name) => DNSErrorV::InvalidZone(name@),
            DNSError::Io => DNSErrorV::Io,
        }
    }
}

/// A fully-built response: the echoed identifier, the chosen response
/// code, the header flags, and the answer section. The authority and
/// additional sections are always empty and are not represented.
#[derive(Debug, Clone, PartialEq, Eq)]
pub struct DnsResponse {
    pub id: u16,
    pub response_code: ResponseCode,
    pub authoritative: bool,
    pub recursion_available: bool,
    pub answers: Vec<Record>,
}

/// Mathematical form of a response.
#[verifier::ext_equal]
pub struct ResponseV {
    pub id: u16,
    pub response_code: ResponseCode,
    pub authoritative: bool,
    pub recursion_available: bool,
    pub answers: Seq<RecordV>,
}

impl DeepView for DnsResponse {
    type V = ResponseV;

    open spec fn deep_view(&self) -> ResponseV {
        ResponseV {
            id: self.id,
            response_code: self.response_code,
            authoritative: self.authoritative,
            recursion_available: self.recursion_available,
            answers: self.answers.deep_view(),
        }
    }
}

/// The request handler: the zone apex it is authoritative for, the
/// record store, and the TTL it stamps on answers.
#[derive(Debug, Clone)]
pub struct Handler {
    pub zone: DnsName,
    pub network: Network,
    pub default_ttl: u32,
}

/// What the validator decides, checked in order: the opcode must be a
/// standard query, the message must be a query, and the queried name
/// must lie within the served zone. The first failing check names the
/// rejection.
pub open spec fn validate_spec(h: Handler, q: DnsQuery) -> Result<(), DNSErrorV> {
    if q.op_code != OpCode::Query {
        Err(DNSErrorV::InvalidOpCode(q.op_code))
    } else if q.message_type != MessageType::Query {
        Err(DNSErrorV::InvalidMessageType(q.message_type))
    } else if !in_zone(q.name@, h.zone@) {
        Err(DNSErrorV::InvalidZone(q.name@))
    } else {
        Ok(())
    }
}

/// The response code for a query: `Refused` for any validation failure,
/// `NXDOMAIN` for a validly-zoned name absent from the store, `NoError`
/// otherwise.
pub open spec fn response_code_spec(h: Handler, q: DnsQuery) -> ResponseCode {
    if validate_spec(h, q) is Err {
        ResponseCode::Refused
    } else if lookup_spec(h.network.entries@, q.name@) is None {
        ResponseCode::NXDomain
    } else {
        ResponseCode::NoError
    }
}

/// The answer section for a query: the synthesized records when the
/// query is valid and the name is present, and empty otherwise.
pub open spec fn answers_spec(h: Handler, q: DnsQuery) -> Seq<RecordV> {
    if validate_spec(h, q) is Ok {
        match lookup_spec(h.network.entries@, q.name@) {
            Some(e) => records_spec(e.deep_view(), q.name@, h.default_ttl),
            None => Seq::empty(),
        }
    } else {
        Seq::empty()
    }
}

/// The whole response for a query: the echoed identifier, the
/// authoritative-answer and recursion flags, the response code, and the
/// answer section.
pub open spec fn response_spec(h: Handler, q: DnsQuery) -> ResponseV {
    ResponseV {
        id: q.id,
        response_code: response_code_spec(h, q),
        authoritative: true,
        recursion_available: false,
        answers: answers_spec(h, q),
    }
}

impl Handler {
    /// A handler serving the store's own zone with the default TTL.
    pub fn from_network(network: Network) -> (h: Handler)
        ensures
            h.zone@ == network.zone@,
            h.network == network,
            h.default_ttl == DEFAULT_TTL,
    {
        let zone = network.zone.duplicate();
        Handler { zone, network, default_ttl: DEFAULT_TTL }
    }

    /// Run the three validation checks in order and report the first
    /// failure.
    pub fn validate_request(&self, request: &DnsQuery) -> (r: Result<(), DNSError>)
        ensures
            (match r {
                Ok(_) => validate_spec(*self, *request) is Ok,
                Err(e) => validate_spec(*self, *request) == Err::<(), DNSErrorV>(e.deep_view()),
            }),
    {
        if request.op_code != OpCode::Query {
            return Err(DNSError::InvalidOpCode(request.op_code));
        }
        if request.message_type != MessageType::Query {
            return Err(DNSError::InvalidMessageType(request.message_type));
        }
        if !self.zone.zone_of(&request.name) {
            return Err(DNSError::InvalidZone(request.name.duplicate()));
        }
        Ok(())
    }

    /// Build the response for a failed request: each validation
    /// rejection maps to `Refused`, a delivery failure to `ServFail`,
    /// and the answer section stays empty.
    pub fn handle_err(&self, request: &DnsQuery, error: DNSError) -> (r: DnsResponse)
        ensures
            r.id == request.id,
            r.authoritative,
            !r.recursion_available,
            r.answers@ == Seq::<Record>::empty(),
            r.response_code == (match error {
                DNSError::Io => ResponseCode::ServFail,
                _ => ResponseCode::Refused,
            }),
    {
        let response_code = match error {
            DNSError::InvalidOpCode(_) => ResponseCode::Refused,
            DNSError::InvalidMessageType(_) => ResponseCode::Refused,
            DNSError::InvalidZone(_) => ResponseCode::Refused,
            DNSError::Io => ResponseCode::ServFail,
        };
        DnsResponse {
            id: request.id,
            response_code,
            authoritative: true,
            recursion_available: false,
            answers: Vec::new(),
        }
    }

    /// Answer one query: validate it, look the name up, synthesize the
    /// answer records, and pick the response code. The result is pinned
    /// down completely as a function of the query and the store.
    pub fn handle_request(&self, request: &DnsQuery) -> (r: DnsResponse)
        ensures
            r.deep_view() == response_spec(*self, *request),
    {
        match self.validate_request(request) {
            Ok(_) => {},
            Err(error) => {
                let r = self.handle_err(request, error);
                proof {
                    assert(r.answers.deep_view() =~= Seq::<RecordV>::empty());
                    assert(r.deep_view() =~= response_spec(*self, *request));
                }
                return r;
            },
        }
        match self.network.resolve(&request.name) {
            None => {
                let r = DnsResponse {
                    id: request.id,
                    response_code: ResponseCode::NXDomain,
                    authoritative: true,
                    recursion_available: false,
                    answers: Vec::new(),
                };
                proof {
                    assert(r.answers.deep_view() =~= Seq::<RecordV>::empty());
                    assert(r.deep_view() =~= response_spec(*self, *request));
                }
                r
            },
            Some(entry) => {
                let answers = entry.get_records(&request.name, self.default_ttl);
                let r = DnsResponse {
                    id: request.id,
                    response_code: ResponseCode::NoError,
                    authoritative: true,
                    recursion_available: false,
                    answers,
                };
                proof {
                    assert(r.deep_view() =~= response_spec(*self, *request));
                }
                r
            },
        }
    }
}

/// Any query whose opcode is not a standard query is refused, with an
/// empty answer section, whatever its name.
pub proof fn lemma_refuses_bad_opcode(h: Handler, q: DnsQuery)
    requires
        q.op_code != OpCode::Query,
    ensures
        response_spec(h, q).response_code == ResponseCode::Refused,
        response_spec(h, q).answers == Seq::<RecordV>::empty(),
{
}

/// Any message that is not a query — a response handed to the server —
/// is refused, with an empty answer section, whatever its name or
/// opcode.
pub proof fn lemma_refuses_response_message(h: Handler, q: DnsQuery)
    requires
        q.message_type != MessageType::Query,
    ensures
        response_spec(h, q).response_code == ResponseCode::Refused,
        response_spec(h, q).answers == Seq::<RecordV>::empty(),
{
}

/// Any query whose name is neither the served zone apex nor below it is
/// refused, with an empty answer section.
pub proof fn lemma_refuses_out_of_zone(h: Handler, q: DnsQuery)
    requires
        !in_zone(q.name@, h.zone@),
    ensures
        response_spec(h, q).response_code == ResponseCode::Refused,
        response_spec(h, q).answers == Seq::<RecordV>::empty(),
{
}

/// A valid query for a name no entry holds is answered `NXDOMAIN` with
/// an empty answer section.
pub proof fn lemma_nxdomain_for_absent_name(h: Handler, q: DnsQuery)
    requires
        validate_spec(h, q) is Ok,
        forall|i: int|
            0 <= i < h.network.entries@.len() ==> #[trigger] h.network.entries@[i].0@ != q.name@,
    ensures
        response_spec(h, q).response_code == ResponseCode::NXDomain,
        response_spec(h, q).answers == Seq::<RecordV>::empty(),
{
    lemma_lookup_present(h.network.entries@, q.name@);
}

/// A valid query for a name the store holds is answered `NoError`, and
/// its answer section holds exactly one record per stored address or
/// alias, in the fixed order A, then CNAME, then AAAA, each with the
/// handler's TTL and the queried name as owner.
pub proof fn lemma_answers_for_present_name(h: Handler, q: DnsQuery, e: NetworkEntry)
    requires
        validate_spec(h, q) is Ok,
        lookup_spec(h.network.entries@, q.name@) == Some(e),
    ensures
        response_spec(h, q).response_code == ResponseCode::NoError,
        response_spec(h, q).answers == records_spec(e.deep_view(), q.name@, h.default_ttl),
        response_spec(h, q).answers.len() == e.deep_view().a.len() + e.deep_view().cname.len()
            + e.deep_view().aaaa.len(),
        forall|i: int|
            0 <= i < e.deep_view().a.len() ==> response_spec(h, q).answers[i] == (RecordV {
                owner: q.name@,
                ttl: h.default_ttl,
                data: RDataV::A(e.deep_view().a[i]),
            }),
        forall|i: int|
            0 <= i < e.deep_view().cname.len() ==> response_spec(h, q).answers[e.deep_view().a.len()
                + i] == (RecordV {
                owner: q.name@,
                ttl: h.default_ttl,
                data: RDataV::Cname(e.deep_view().cname[i]),
            }),
        forall|i: int|
            0 <= i < e.deep_view().aaaa.len() ==> response_spec(h, q).answers[e.deep_view().a.len()
                + e.deep_view().cname.len() + i] == (RecordV {
                owner: q.name@,
                ttl: h.default_ttl,
                data: RDataV::Aaaa(e.deep_view().aaaa[i]),
            }),
        forall|i: int|
            0 <= i < response_spec(h, q).answers.len() ==> (#[trigger] response_spec(
                h,
                q,
            ).answers[i]).owner == q.name@ && response_spec(h, q).answers[i].ttl == h.default_ttl,
{
    lemma_records_spec_shape(e.deep_view(), q.name@, h.default_ttl);
}

/// Resolution is idempotent: two responses built for the same query
/// against the same store are identical — in particular their answer
/// sections agree record for record.
pub proof fn lemma_resolution_idempotent(h: Handler, q: DnsQuery, r1: DnsResponse, r2: DnsResponse)
    requires
        r1.deep_view() == response_spec(h, q),
        r2.deep_view() == response_spec(h, q),
    ensures
        r1.deep_view() == r2.deep_view(),
        r1.answers.deep_view() == r2.answers.deep_view(),
{
}

} // verus!
