use ndns::blocklist::Blocklist;
use ndns::dns::{DnsHandler, Step};
use ndns::message::{
    DnsRecord, DnsRequest, EdnsData, ForwardError, Header, MessageKind, OpKind, Query,
    UpstreamResponse, RCODE_BADVERS, RCODE_NOERROR, RCODE_NOTIMP, RCODE_NXDOMAIN, RCODE_SERVFAIL,
};

fn bytes(s: &str) -> Vec<u8> {
    s.as_bytes().to_vec()
}

fn handler_with(suffixes: &[&str]) -> DnsHandler {
    let lines: Vec<Vec<u8>> = suffixes.iter().map(|s| bytes(s)).collect();
    DnsHandler::new(Blocklist::from_lines(lines))
}

fn query_header() -> Header {
    Header {
        id: 4242,
        message_type: MessageKind::Query,
        op_code: OpKind::Query,
        recursion_desired: true,
        recursion_available: false,
        response_code: RCODE_NOERROR,
    }
}

fn request_for(name: &str) -> DnsRequest {
    DnsRequest {
        header: query_header(),
        edns: None,
        query: Some(Query { name: bytes(name), query_class: 1, query_type: 1 }),
    }
}

#[test]
fn suffix_boundary_exact_match_blocked() {
    let mut h = handler_with(&["example.com."]);
    assert!(h.is_blocked(&bytes("example.com.")));
}

#[test]
fn suffix_boundary_subdomain_blocked() {
    let mut h = handler_with(&["example.com."]);
    assert!(h.is_blocked(&bytes("www.example.com.")));
}

#[test]
fn suffix_boundary_partial_label_allowed() {
    let mut h = handler_with(&["example.com."]);
    assert!(!h.is_blocked(&bytes("evilexample.com.")));
}

#[test]
fn suffix_boundary_infix_allowed() {
    let mut h = handler_with(&["example.com."]);
    assert!(!h.is_blocked(&bytes("example.com.evil.org.")));
}

#[test]
fn classify_twice_same_verdict_and_cached() {
    let mut h = handler_with(&["example.com."]);
    let name = bytes("ads.example.com.");
    let first = h.is_blocked(&name);
    let second = h.is_blocked(&name);
    assert_eq!(first, second);
    assert_eq!(h.cached_verdict(&name), Some(true));

    let other = bytes("example.org.");
    let first = h.is_blocked(&other);
    let second = h.is_blocked(&other);
    assert_eq!(first, second);
    assert_eq!(h.cached_verdict(&other), Some(false));
}

#[test]
fn cache_holds_one_verdict_per_name() {
    let mut h = handler_with(&["example.com."]);
    let blocked = bytes("ads.example.com.");
    let allowed = bytes("example.org.");
    assert_eq!(h.cached_verdict(&blocked), None);
    h.is_blocked(&blocked);
    h.is_blocked(&allowed);
    h.is_blocked(&blocked);
    h.is_blocked(&allowed);
    assert_eq!(h.cached_verdict(&blocked), Some(true));
    assert_eq!(h.cached_verdict(&allowed), Some(false));
}

#[test]
fn edns_version_downgrade_yields_badvers() {
    let mut h = handler_with(&["example.com."]);
    let mut request = request_for("example.org.");
    request.edns = Some(EdnsData { version: 1, max_payload: 1232, dnssec_ok: false, rcode_high: 0 });
    match h.handle_request(&request) {
        Step::Respond(resp) => {
            assert_eq!(resp.header.response_code, RCODE_BADVERS);
            assert_eq!(resp.header.id, 4242);
            assert_eq!(resp.header.message_type, MessageKind::Response);
            assert!(resp.answers.is_empty());
            let edns = resp.edns.expect("BADVERS response carries EDNS state");
            assert_eq!(edns.version, 0);
            assert_eq!(edns.rcode_high, 1);
            assert!(edns.dnssec_ok);
        }
        Step::Forward(_) => panic!("a BADVERS request must not be forwarded"),
    }
}

#[test]
fn payload_floor_small_request_gets_512() {
    let mut h = handler_with(&[]);
    let mut request = request_for("example.org.");
    request.edns = Some(EdnsData { version: 0, max_payload: 256, dnssec_ok: false, rcode_high: 0 });
    match h.handle_request(&request) {
        Step::Forward(plan) => {
            let edns = plan.edns.expect("EDNS requests get EDNS responses");
            assert_eq!(edns.max_payload, 512);
        }
        Step::Respond(_) => panic!("an allowed query must be forwarded"),
    }
}

#[test]
fn payload_above_floor_is_kept() {
    let mut h = handler_with(&[]);
    let mut request = request_for("example.org.");
    request.edns = Some(EdnsData { version: 0, max_payload: 4096, dnssec_ok: false, rcode_high: 0 });
    match h.handle_request(&request) {
        Step::Forward(plan) => {
            let edns = plan.edns.expect("EDNS requests get EDNS responses");
            assert_eq!(edns.max_payload, 4096);
        }
        Step::Respond(_) => panic!("an allowed query must be forwarded"),
    }
}

#[test]
fn blocked_query_gets_nxdomain_without_forwarding() {
    let mut h = handler_with(&["example.com."]);
    let request = request_for("ads.example.com.");
    match h.handle_request(&request) {
        Step::Respond(resp) => {
            assert_eq!(resp.header.response_code, RCODE_NXDOMAIN);
            assert!(resp.answers.is_empty());
            assert!(resp.authorities.is_empty());
            assert!(resp.additionals.is_empty());
        }
        Step::Forward(_) => panic!("a blocked query must not reach the upstream"),
    }
}

#[test]
fn allowed_query_relays_upstream_answer() {
    let mut h = handler_with(&["example.com."]);
    let request = request_for("example.org.");
    let plan = match h.handle_request(&request) {
        Step::Forward(plan) => plan,
        Step::Respond(_) => panic!("an allowed query must be forwarded"),
    };
    assert_eq!(plan.name, bytes("example.org."));
    assert_eq!(plan.query_class, 1);
    assert_eq!(plan.query_type, 1);
    let record = DnsRecord {
        name: bytes("example.org."),
        record_type: 1,
        dns_class: 1,
        ttl: 300,
        rdata: vec![93, 184, 216, 34],
    };
    let upstream = UpstreamResponse {
        response_code: RCODE_NOERROR,
        recursion_available: true,
        answers: vec![record.clone()],
        authorities: vec![],
        additionals: vec![],
    };
    let resp = DnsHandler::complete_forward(plan, Ok(upstream));
    assert_eq!(resp.header.response_code, RCODE_NOERROR);
    assert!(resp.header.recursion_available);
    assert_eq!(resp.answers.len(), 1);
    assert!(resp.answers[0] == record);
}

#[test]
fn forwarding_failure_maps_to_servfail() {
    let mut h = handler_with(&[]);
    let request = request_for("example.org.");
    let plan = match h.handle_request(&request) {
        Step::Forward(plan) => plan,
        Step::Respond(_) => panic!("an allowed query must be forwarded"),
    };
    let resp = DnsHandler::complete_forward(plan, Err(ForwardError::Upstream));
    assert_eq!(resp.header.response_code, RCODE_SERVFAIL);
    assert!(resp.answers.is_empty());
    assert!(resp.edns.is_none());
}

#[test]
fn unsupported_op_code_gets_notimp() {
    let mut h = handler_with(&[]);
    let mut request = request_for("example.org.");
    request.header.op_code = OpKind::Status;
    match h.handle_request(&request) {
        Step::Respond(resp) => {
            assert_eq!(resp.header.response_code, RCODE_NOTIMP);
            assert!(resp.answers.is_empty());
        }
        Step::Forward(_) => panic!("an unsupported op-code must not be forwarded"),
    }
}

#[test]
fn response_message_gets_notimp() {
    let mut h = handler_with(&[]);
    let mut request = request_for("example.org.");
    request.header.message_type = MessageKind::Response;
    match h.handle_request(&request) {
        Step::Respond(resp) => assert_eq!(resp.header.response_code, RCODE_NOTIMP),
        Step::Forward(_) => panic!("a response message must not be forwarded"),
    }
}

#[test]
fn missing_query_section_gets_servfail() {
    let mut h = handler_with(&[]);
    let request = DnsRequest { header: query_header(), edns: None, query: None };
    match h.handle_request(&request) {
        Step::Respond(resp) => {
            assert_eq!(resp.header.response_code, RCODE_SERVFAIL);
            assert_eq!(resp.header.id, 0);
            assert!(resp.edns.is_none());
            assert!(resp.answers.is_empty());
        }
        Step::Forward(_) => panic!("a malformed request must not be forwarded"),
    }
}

#[test]
fn query_name_is_canonicalized_before_classification() {
    let mut h = handler_with(&["example.com."]);
    let request = request_for("ads.example.com");
    match h.handle_request(&request) {
        Step::Respond(resp) => assert_eq!(resp.header.response_code, RCODE_NXDOMAIN),
        Step::Forward(_) => panic!("the dot-normalized name must be blocked"),
    }
}

#[test]
fn badvers_wins_over_unsupported_op_code() {
    let mut h = handler_with(&[]);
    let mut request = request_for("example.org.");
    request.header.op_code = OpKind::Notify;
    request.edns = Some(EdnsData { version: 3, max_payload: 512, dnssec_ok: false, rcode_high: 0 });
    match h.handle_request(&request) {
        Step::Respond(resp) => assert_eq!(resp.header.response_code, RCODE_BADVERS),
        Step::Forward(_) => panic!("a BADVERS request must not be forwarded"),
    }
}
