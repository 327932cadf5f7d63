use vstd::prelude::*;

verus! {

/// DNS response code `NoError`.
pub const RCODE_NOERROR: u16 = 0;

/// DNS response code `ServFail`: the server failed to complete the request.
pub const RCODE_SERVFAIL: u16 = 2;

/// DNS response code `NXDomain`: the queried name does not exist.
pub const RCODE_NXDOMAIN: u16 = 3;

/// DNS response code `NotImp`: the operation is not implemented.
pub const RCODE_NOTIMP: u16 = 4;

/// Extended DNS response code `BADVERS`: the request's EDNS version is not
/// supported.
pub const RCODE_BADVERS: u16 = 16;

/// The EDNS version this server supports.
pub const SUPPORTED_EDNS_VERSION: u8 = 0;

/// The smallest max-payload size ever negotiated.
pub const MIN_PAYLOAD: u16 = 512;

/// The high eight bits of a twelve-bit extended response code; they travel
/// in the EDNS record while the low four bits stay in the message header.
pub open spec fn rcode_high_spec(code: u16) -> u8 {
    ((code / 16) % 256) as u8
}

/// Computes the high eight bits of an extended response code.
pub fn rcode_high(code: u16) -> (r: u8)
    ensures
        r == rcode_high_spec(code),
{
    ((code / 16) % 256) as u8
}

/// Whether a message carries a query or a response.
#[derive(PartialEq, Eq, Structural, Clone, Copy, Debug)]
pub enum MessageKind {
    Query,
    Response,
}

/// The operation a message asks for.
#[derive(PartialEq, Eq, Structural, Clone, Copy, Debug)]
pub enum OpKind {
    Query,
    Status,
    Notify,
    Update,
}

/// The header fields of a DNS message that the engine reads or writes.
#[derive(PartialEq, Eq, Structural, Clone, Copy, Debug)]
pub struct Header {
    pub id: u16,
    pub message_type: MessageKind,
    pub op_code: OpKind,
    pub recursion_desired: bool,
    pub recursion_available: bool,
    pub response_code: u16,
}

/// The EDNS state of a request or a response: version, negotiated
/// max-payload, the DNSSEC-OK flag, and the high bits of the extended
/// response code.
#[derive(PartialEq, Eq, Structural, Clone, Copy, Debug)]
pub struct EdnsData {
    pub version: u8,
    pub max_payload: u16,
    pub dnssec_ok: bool,
    pub rcode_high: u8,
}

/// One resource record, carried through the engine verbatim.
#[derive(PartialEq, Eq, Clone, Debug)]
pub struct DnsRecord {
    pub name: Vec<u8>,
    pub record_type: u16,
    pub dns_class: u16,
    pub ttl: u32,
    pub rdata: Vec<u8>,
}

/// The query section of a request: exactly one (name, class, type) triple.
#[derive(PartialEq, Eq, Clone, Debug)]
pub struct Query {
    pub name: Vec<u8>,
    pub query_class: u16,
    pub query_type: u16,
}

/// A structured inbound request, as the transport layer hands it to the
/// engine. `query` is `None` when the request carries no usable query
/// section.
#[derive(PartialEq, Eq, Clone, Debug)]
pub struct DnsRequest {
    pub header: Header,
    pub edns: Option<EdnsData>,
    pub query: Option<Query>,
}

/// A structured outbound response, handed back to the transport layer to be
/// serialized and sent.
#[derive(PartialEq, Eq, Clone, Debug)]
pub struct DnsResponse {
    pub header: Header,
    pub edns: Option<EdnsData>,
    pub answers: Vec<DnsRecord>,
    pub authorities: Vec<DnsRecord>,
    pub additionals: Vec<DnsRecord>,
}

/// The upstream resolver's answer to a forwarded query.
#[derive(PartialEq, Eq, Clone, Debug)]
pub struct UpstreamResponse {
    pub response_code: u16,
    pub recursion_available: bool,
    pub answers: Vec<DnsRecord>,
    pub authorities: Vec<DnsRecord>,
    pub additionals: Vec<DnsRecord>,
}

/// A failure while forwarding a query upstream: a network, protocol or
/// timeout error, which the engine maps uniformly to `ServFail`.
#[derive(PartialEq, Eq, Structural, Clone, Copy, Debug)]
pub enum ForwardError {
    Upstream,
}

/// The header of a response to a request: same id and op-code, message type
/// `Response`, recursion-desired echoed, and a `NoError` code until one is
/// set.
pub open spec fn response_header_spec(req: Header) -> Header {
    Header {
        id: req.id,
        message_type: MessageKind::Response,
        op_code: req.op_code,
        recursion_desired: req.recursion_desired,
        recursion_available: false,
        response_code: RCODE_NOERROR,
    }
}

/// Builds the response header for a request header.
pub fn response_header(req: &Header) -> (r: Header)
    ensures
        r == response_header_spec(*req),
{
    Header {
        id: req.id,
        message_type: MessageKind::Response,
        op_code: req.op_code,
        recursion_desired: req.recursion_desired,
        recursion_available: false,
        response_code: RCODE_NOERROR,
    }
}

/// The empty header of the last-resort `ServFail` response.
pub open spec fn servfail_header_spec() -> Header {
    Header {
        id: 0,
        message_type: MessageKind::Query,
        op_code: OpKind::Query,
        recursion_desired: false,
        recursion_available: false,
        response_code: RCODE_SERVFAIL,
    }
}

/// A response carries no records at all.
pub open spec fn no_records(resp: DnsResponse) -> bool {
    &&& resp.answers@.len() == 0
    &&& resp.authorities@.len() == 0
    &&& resp.additionals@.len() == 0
}

/// The EDNS state a response answers with: DNSSEC-OK asserted, max-payload
/// the larger of the request's and the floor, version pinned to the
/// supported one.
pub open spec fn negotiated_edns_spec(req: EdnsData) -> EdnsData {
    EdnsData {
        version: SUPPORTED_EDNS_VERSION,
        max_payload: if req.max_payload > MIN_PAYLOAD {
            req.max_payload
        } else {
            MIN_PAYLOAD
        },
        dnssec_ok: true,
        rcode_high: 0,
    }
}

/// Negotiates the response EDNS state for a request's EDNS state.
pub fn negotiated_edns(req: &EdnsData) -> (r: EdnsData)
    ensures
        r == negotiated_edns_spec(*req),
{
    EdnsData {
        version: SUPPORTED_EDNS_VERSION,
        max_payload: if req.max_payload > MIN_PAYLOAD {
            req.max_payload
        } else {
            MIN_PAYLOAD
        },
        dnssec_ok: true,
        rcode_high: 0,
    }
}

/// The generic `ServFail` response sent when a request cannot be handled:
/// an empty header and no records.
pub fn servfail_response() -> (r: DnsResponse)
    ensures
        r.header == servfail_header_spec(),
        r.edns is None,
        no_records(r),
{
    DnsResponse {
        header: Header {
            id: 0,
            message_type: MessageKind::Query,
            op_code: OpKind::Query,
            recursion_desired: false,
            recursion_available: false,
            response_code: RCODE_SERVFAIL,
        },
        edns: None,
        answers: Vec::new(),
        authorities: Vec::new(),
        additionals: Vec::new(),
    }
}

} // verus!
