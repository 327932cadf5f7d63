use vstd::prelude::*;

use crate::blocklist::{contains_name, name_blocked, names_in, Blocklist};
use crate::message::{
    negotiated_edns, negotiated_edns_spec, no_records, rcode_high, rcode_high_spec,
    response_header, response_header_spec, servfail_header_spec, servfail_response, DnsRequest,
    DnsResponse, EdnsData, ForwardError, Header, MessageKind, OpKind, Query, UpstreamResponse,
    RCODE_BADVERS, RCODE_NOTIMP, RCODE_NXDOMAIN, SUPPORTED_EDNS_VERSION,
};
use crate::name::{copy_bytes, dot_terminated, is_dot_terminated, DOT};

verus! {

/// The canonical form of a query name: the name itself if already
/// dot-terminated, else the name with a `'.'` appended.
pub open spec fn canon_of(name: Seq<u8>) -> Seq<u8> {
    if is_dot_terminated(name) {
        name
    } else {
        name.push(DOT)
    }
}

/// Everything the transport layer needs to forward a query upstream and
/// finish the response afterwards.
pub struct ForwardPlan {
    pub name: Vec<u8>,
    pub query_class: u16,
    pub query_type: u16,
    pub edns: Option<EdnsData>,
    pub request_header: Header,
}

/// What the engine decided about one request: either a finished response to
/// send, or a query to forward upstream (to be finished by
/// `DnsHandler::complete_forward`).
pub enum Step {
    Respond(DnsResponse),
    Forward(ForwardPlan),
}

/// A request that cannot be answered at all: it carries no usable query
/// section. The caller maps this to the generic `ServFail` response.
#[derive(PartialEq, Eq, Structural, Clone, Copy, Debug)]
pub enum HandleError {
    MissingQuery,
}

/// The query classification and forwarding engine: the immutable suffix
/// blocklist together with the two decision-cache sets.
pub struct DnsHandler {
    blocklist: Blocklist,
    cached_allow: Vec<Vec<u8>>,
    cached_block: Vec<Vec<u8>>,
}

/// A request asks for an EDNS version newer than the supported one.
pub open spec fn wants_badvers(req: DnsRequest) -> bool {
    req.edns matches Some(e) && e.version > SUPPORTED_EDNS_VERSION
}

/// A request that proceeds to classification: message type Query with
/// op-code Query.
pub open spec fn is_plain_query(req: DnsRequest) -> bool {
    req.header.message_type == MessageKind::Query && req.header.op_code == OpKind::Query
}

/// The EDNS state attached to responses for this request: the negotiated
/// state when the request carries EDNS, nothing otherwise.
pub open spec fn response_edns_spec(req: DnsRequest) -> Option<EdnsData> {
    match req.edns {
        Some(e) => Some(negotiated_edns_spec(e)),
        None => None,
    }
}

/// The terminal BADVERS response: code BADVERS, the high bits of BADVERS
/// echoed in the EDNS state, and no records.
pub open spec fn badvers_response_ok(req: DnsRequest, e: EdnsData, resp: DnsResponse) -> bool {
    &&& resp.header == Header {
        response_code: RCODE_BADVERS,
        ..response_header_spec(req.header)
    }
    &&& resp.edns == Some(
        EdnsData { rcode_high: rcode_high_spec(RCODE_BADVERS), ..negotiated_edns_spec(e) },
    )
    &&& no_records(resp)
}

/// The NotImp response to an unsupported message type or op-code.
pub open spec fn notimp_response_ok(req: DnsRequest, resp: DnsResponse) -> bool {
    &&& resp.header == Header { response_code: RCODE_NOTIMP, ..response_header_spec(req.header) }
    &&& resp.edns == response_edns_spec(req)
    &&& no_records(resp)
}

/// The synthetic denial for a blocked name: code NXDomain and no records.
pub open spec fn nxdomain_response_ok(req: DnsRequest, resp: DnsResponse) -> bool {
    &&& resp.header == Header { response_code: RCODE_NXDOMAIN, ..response_header_spec(req.header) }
    &&& resp.edns == response_edns_spec(req)
    &&& no_records(resp)
}

/// The plan handed back for an allowed query: the query triple as asked,
/// the negotiated EDNS state, and the request header for the later response.
pub open spec fn forward_plan_ok(req: DnsRequest, q: Query, plan: ForwardPlan) -> bool {
    &&& plan.name@ == q.name@
    &&& plan.query_class == q.query_class
    &&& plan.query_type == q.query_type
    &&& plan.edns == response_edns_spec(req)
    &&& plan.request_header == req.header
}

/// The outcome of a classified query: the verdict is recorded, and the step
/// is either the synthetic NXDomain denial (blocked) or a forwarding plan
/// (allowed).
pub open spec fn query_step_ok(
    pre: DnsHandler,
    post: DnsHandler,
    req: DnsRequest,
    q: Query,
    s: Step,
) -> bool {
    let canon = canon_of(q.name@);
    let blocked = name_blocked(pre.bl_view(), canon);
    &&& classify_transition(pre, post, canon, blocked)
    &&& (blocked ==> (s matches Step::Respond(resp) && nxdomain_response_ok(req, resp)))
    &&& (!blocked ==> (s matches Step::Forward(plan) && forward_plan_ok(req, q, plan)))
}

/// How one classification changes the engine: the verdict is a pure
/// function of the blocklist, the blocklist never changes, and the verdict
/// is recorded in exactly one cache set.
pub open spec fn classify_transition(
    pre: DnsHandler,
    post: DnsHandler,
    name: Seq<u8>,
    r: bool,
) -> bool {
    &&& r == name_blocked(pre.bl_view(), name)
    &&& post.bl_view() == pre.bl_view()
    &&& (r ==> post.block_set() == pre.block_set().insert(name) && post.allow_set()
        == pre.allow_set())
    &&& (!r ==> post.allow_set() == pre.allow_set().insert(name) && post.block_set()
        == pre.block_set())
}

impl DnsHandler {
    /// The suffix set of the immutable blocklist.
    pub closed spec fn bl_view(&self) -> Set<Seq<u8>> {
        self.blocklist@
    }

    /// The names with a cached "allowed" verdict.
    pub closed spec fn allow_set(&self) -> Set<Seq<u8>> {
        names_in(self.cached_allow@)
    }

    /// The names with a cached "blocked" verdict.
    pub closed spec fn block_set(&self) -> Set<Seq<u8>> {
        names_in(self.cached_block@)
    }

    /// The cache invariant: every cached verdict agrees with the blocklist,
    /// and every cached name is dot-terminated.
    pub closed spec fn wf(&self) -> bool {
        &&& forall|s: Seq<u8>| #[trigger] self.block_set().contains(s)
            ==> name_blocked(self.bl_view(), s) && is_dot_terminated(s)
        &&& forall|s: Seq<u8>| #[trigger] self.allow_set().contains(s)
            ==> !name_blocked(self.bl_view(), s) && is_dot_terminated(s)
    }

    /// A fresh engine over a blocklist, with both cache sets empty.
    pub fn new(blocklist: Blocklist) -> (r: DnsHandler)
        ensures
            r.wf(),
            r.bl_view() == blocklist@,
            r.allow_set() == Set::<Seq<u8>>::empty(),
            r.block_set() == Set::<Seq<u8>>::empty(),
    {
        let r = DnsHandler { blocklist, cached_allow: Vec::new(), cached_block: Vec::new() };
        proof {
            assert(r.allow_set() =~= Set::<Seq<u8>>::empty());
            assert(r.block_set() =~= Set::<Seq<u8>>::empty());
        }
        r
    }

    /// The memoized verdict for a name, if the cache holds one: the blocked
    /// set is consulted first, as in classification itself.
    pub fn cached_verdict(&self, name: &Vec<u8>) -> (r: Option<bool>)
        ensures
            r == (if self.block_set().contains(name@) {
                Some(true)
            } else if self.allow_set().contains(name@) {
                Some(false)
            } else {
                None::<bool>
            }),
    {
        if contains_name(&self.cached_block, name) {
            Some(true)
        } else if contains_name(&self.cached_allow, name) {
            Some(false)
        } else {
            None
        }
    }

    /// Classifies a canonical name: blocked when some blocklist suffix
    /// matches it on a label boundary, with the verdict memoized in the
    /// matching cache set.
    pub fn is_blocked(&mut self, name: &Vec<u8>) -> (r: bool)
        requires
            old(self).wf(),
            is_dot_terminated(name@),
        ensures
            final(self).wf(),
            classify_transition(*old(self), *final(self), name@, r),
    {
        if contains_name(&self.cached_block, name) {
            proof {
                assert(self.block_set().insert(name@) =~= self.block_set());
            }
            return true;
        }
        if contains_name(&self.cached_allow, name) {
            proof {
                assert(self.allow_set().insert(name@) =~= self.allow_set());
            }
            return false;
        }
        if self.blocklist.matches(name) {
            let ghost prev = *self;
            self.cached_block.push(copy_bytes(name));
            proof {
                lemma_names_in_push(prev.cached_block@, self.cached_block@[
                    prev.cached_block@.len() as int
                ], name@);
                assert(self.block_set() == prev.block_set().insert(name@));
                assert(self.allow_set() == prev.allow_set());
                assert(self.bl_view() == prev.bl_view());
                assert forall|s: Seq<u8>| #[trigger] self.block_set().contains(s)
                    implies name_blocked(self.bl_view(), s) && is_dot_terminated(s) by {
                    if s != name@ {
                        assert(prev.block_set().contains(s));
                    }
                }
                assert forall|s: Seq<u8>| #[trigger] self.allow_set().contains(s)
                    implies !name_blocked(self.bl_view(), s) && is_dot_terminated(s) by {
                    assert(prev.allow_set().contains(s));
                }
                assert(self.wf());
            }
            true
        } else {
            let ghost prev = *self;
            self.cached_allow.push(copy_bytes(name));
            proof {
                lemma_names_in_push(prev.cached_allow@, self.cached_allow@[
                    prev.cached_allow@.len() as int
                ], name@);
                assert(self.allow_set() == prev.allow_set().insert(name@));
                assert(self.block_set() == prev.block_set());
                assert(self.bl_view() == prev.bl_view());
                assert forall|s: Seq<u8>| #[trigger] self.allow_set().contains(s)
                    implies !name_blocked(self.bl_view(), s) && is_dot_terminated(s) by {
                    if s != name@ {
                        assert(prev.allow_set().contains(s));
                    }
                }
                assert forall|s: Seq<u8>| #[trigger] self.block_set().contains(s)
                    implies name_blocked(self.bl_view(), s) && is_dot_terminated(s) by {
                    assert(prev.block_set().contains(s));
                }
                assert(self.wf());
            }
            false
        }
    }

    /// Handles a request already past EDNS negotiation: extracts the query,
    /// classifies the name, and either synthesizes the NXDomain denial or
    /// asks the caller to forward the query upstream.
    pub fn handle_query(
        &mut self,
        response_edns: Option<EdnsData>,
        request: &DnsRequest,
    ) -> (r: Result<Step, HandleError>)
        requires
            old(self).wf(),
            response_edns == response_edns_spec(*request),
        ensures
            final(self).wf(),
            request.query is None ==> (r is Err && *final(self) == *old(self)),
            request.query matches Some(q) ==> (r matches Ok(s) && query_step_ok(
                *old(self),
                *final(self),
                *request,
                q,
                s,
            )),
    {
        let q = match &request.query {
            Some(q) => q,
            None => {
                return Err(HandleError::MissingQuery);
            }
        };
        let mut canon = copy_bytes(&q.name);
        if !dot_terminated(&canon) {
            canon.push(DOT);
        }
        assert(canon@ == canon_of(q.name@));
        if self.is_blocked(&canon) {
            Ok(Step::Respond(DnsResponse {
                header: Header {
                    response_code: RCODE_NXDOMAIN,
                    ..response_header(&request.header)
                },
                edns: response_edns,
                answers: Vec::new(),
                authorities: Vec::new(),
                additionals: Vec::new(),
            }))
        } else {
            Ok(Step::Forward(ForwardPlan {
                name: copy_bytes(&q.name),
                query_class: q.query_class,
                query_type: q.query_type,
                edns: response_edns,
                request_header: request.header,
            }))
        }
    }

    /// Runs one request through the whole per-request state machine: EDNS
    /// negotiation (possibly ending with BADVERS), the message-type and
    /// op-code gate (NotImp), then classification. A request without a
    /// usable query section is the only error.
    pub fn try_handle_request(&mut self, request: &DnsRequest) -> (r: Result<Step, HandleError>)
        requires
            old(self).wf(),
        ensures
            final(self).wf(),
            (r is Err) == (request.query is None),
            request.query is None ==> *final(self) == *old(self),
            request.edns matches Some(e) ==> ((request.query is Some && e.version
                > SUPPORTED_EDNS_VERSION) ==> (*final(self) == *old(self) && (r matches Ok(
                Step::Respond(resp),
            ) && badvers_response_ok(*request, e, resp)))),
            (request.query is Some && !wants_badvers(*request) && !is_plain_query(*request)) ==> (
            *final(self) == *old(self) && (r matches Ok(Step::Respond(resp))
                && notimp_response_ok(*request, resp))),
            request.query matches Some(q) ==> ((!wants_badvers(*request) && is_plain_query(
                *request,
            )) ==> (r matches Ok(s) && query_step_ok(*old(self), *final(self), *request, q, s))),
    {
        if request.query.is_none() {
            return Err(HandleError::MissingQuery);
        }
        let response_edns: Option<EdnsData> = match &request.edns {
            Some(req_edns) => {
                let mut resp_edns = negotiated_edns(req_edns);
                if req_edns.version > SUPPORTED_EDNS_VERSION {
                    resp_edns.rcode_high = rcode_high(RCODE_BADVERS);
                    return Ok(Step::Respond(DnsResponse {
                        header: Header {
                            response_code: RCODE_BADVERS,
                            ..response_header(&request.header)
                        },
                        edns: Some(resp_edns),
                        answers: Vec::new(),
                        authorities: Vec::new(),
                        additionals: Vec::new(),
                    }));
                }
                Some(resp_edns)
            }
            None => None,
        };
        let plain_query = match (&request.header.message_type, &request.header.op_code) {
            (MessageKind::Query, OpKind::Query) => true,
            _ => false,
        };
        if plain_query {
            self.handle_query(response_edns, request)
        } else {
            Ok(Step::Respond(DnsResponse {
                header: Header {
                    response_code: RCODE_NOTIMP,
                    ..response_header(&request.header)
                },
                edns: response_edns,
                answers: Vec::new(),
                authorities: Vec::new(),
                additionals: Vec::new(),
            }))
        }
    }

    /// Handles one request, never failing: any request without a usable
    /// query section gets the generic `ServFail` response with an empty
    /// header.
    pub fn handle_request(&mut self, request: &DnsRequest) -> (r: Step)
        requires
            old(self).wf(),
        ensures
            final(self).wf(),
            request.query is None ==> (*final(self) == *old(self) && (r matches Step::Respond(
                resp,
            ) && resp.header == servfail_header_spec() && resp.edns is None && no_records(resp))),
            request.edns matches Some(e) ==> ((request.query is Some && e.version
                > SUPPORTED_EDNS_VERSION) ==> (*final(self) == *old(self) && (r
                matches Step::Respond(resp) && badvers_response_ok(*request, e, resp)))),
            (request.query is Some && !wants_badvers(*request) && !is_plain_query(*request)) ==> (
            *final(self) == *old(self) && (r matches Step::Respond(resp) && notimp_response_ok(
                *request,
                resp,
            ))),
            request.query matches Some(q) ==> ((!wants_badvers(*request) && is_plain_query(
                *request,
            )) ==> query_step_ok(*old(self), *final(self), *request, q, r)),
    {
        match self.try_handle_request(request) {
            Ok(step) => step,
            Err(_) => Step::Respond(servfail_response()),
        }
    }

    /// Finishes a forwarded query: on success the upstream's records,
    /// response code and recursion-available flag are copied verbatim into
    /// the outbound response; on a forwarding failure the generic `ServFail`
    /// response is produced instead.
    pub fn complete_forward(
        plan: ForwardPlan,
        outcome: Result<UpstreamResponse, ForwardError>,
    ) -> (r: DnsResponse)
        ensures
            outcome matches Ok(u) ==> r.header == (Header {
                recursion_available: u.recursion_available,
                response_code: u.response_code,
                ..response_header_spec(plan.request_header)
            }) && r.edns == plan.edns && r.answers == u.answers && r.authorities == u.authorities
                && r.additionals == u.additionals,
            outcome is Err ==> r.header == servfail_header_spec() && r.edns is None && no_records(
                r,
            ),
    {
        match outcome {
            Ok(u) => DnsResponse {
                header: Header {
                    recursion_available: u.recursion_available,
                    response_code: u.response_code,
                    ..response_header(&plan.request_header)
                },
                edns: plan.edns,
                answers: u.answers,
                authorities: u.authorities,
                additionals: u.additionals,
            },
            Err(_) => servfail_response(),
        }
    }
}

proof fn lemma_names_in_push(v: Seq<Vec<u8>>, x: Vec<u8>, s: Seq<u8>)
    requires
        x@ == s,
    ensures
        names_in(v.push(x)) == names_in(v).insert(s),
{
    assert(names_in(v.push(x)) =~= names_in(v).insert(s)) by {
        assert(v.push(x)[v.len() as int] == x);
        assert(forall|i: int| 0 <= i < v.len() ==> v.push(x)[i] == v[i]);
        assert forall|t: Seq<u8>| names_in(v.push(x)).contains(t) implies names_in(v).insert(
            s,
        ).contains(t) by {
            let i = choose|i: int| 0 <= i < v.push(x).len() && v.push(x)[i]@ == t;
            if i < v.len() {
                assert(v[i]@ == t);
            } else {
                assert(x@ == t);
            }
        }
    }
}

/// Cache idempotence: the verdict for a name is a pure function of the
/// immutable blocklist, so two classifications of the same name — with any
/// other classifications in between — yield the same verdict.
pub proof fn lemma_classify_idempotent(
    pre1: DnsHandler,
    post1: DnsHandler,
    pre2: DnsHandler,
    post2: DnsHandler,
    name: Seq<u8>,
    r1: bool,
    r2: bool,
)
    requires
        classify_transition(pre1, post1, name, r1),
        pre2.bl_view() == pre1.bl_view(),
        classify_transition(pre2, post2, name, r2),
    ensures
        r1 == r2,
{
}

/// After a classification the verdict is cached: the name sits in the cache
/// set matching the verdict, so a later classification of the same name is
/// answered from the cache alone.
pub proof fn lemma_verdict_cached(pre: DnsHandler, post: DnsHandler, name: Seq<u8>, r: bool)
    requires
        classify_transition(pre, post, name, r),
    ensures
        r ==> post.block_set().contains(name),
        !r ==> post.allow_set().contains(name),
{
}

/// Mutual exclusion of the cache sets: no name is ever in both the allowed
/// and the blocked set of a well-formed engine.
pub proof fn lemma_cache_sets_disjoint(h: DnsHandler, name: Seq<u8>)
    requires
        h.wf(),
    ensures
        !(h.block_set().contains(name) && h.allow_set().contains(name)),
{
}

} // verus!
