use ndns::blocklist::Blocklist;
use ndns::dns::DnsHandler;
use ndns::name::{bytes_eq, copy_bytes, dot_terminated, normalize_line};

fn bytes(s: &str) -> Vec<u8> {
    s.as_bytes().to_vec()
}

#[test]
fn lines_are_trimmed_and_dot_terminated() {
    let text = bytes("ads.example.com.\n  tracker.example.org\t\n\nmetrics.example.net\r\n");
    let mut h = DnsHandler::new(Blocklist::from_text(&text));
    assert!(h.is_blocked(&bytes("ads.example.com.")));
    assert!(h.is_blocked(&bytes("tracker.example.org.")));
    assert!(h.is_blocked(&bytes("metrics.example.net.")));
    assert!(h.is_blocked(&bytes("a.metrics.example.net.")));
    assert!(!h.is_blocked(&bytes("other.example.net.")));
}

#[test]
fn empty_text_blocks_nothing() {
    let mut h = DnsHandler::new(Blocklist::from_text(&bytes("")));
    assert!(!h.is_blocked(&bytes("example.com.")));
}

#[test]
fn duplicate_lines_collapse() {
    let text = bytes("example.com.\nexample.com\n  example.com.  \n");
    let mut h = DnsHandler::new(Blocklist::from_text(&text));
    assert!(h.is_blocked(&bytes("example.com.")));
    assert!(h.is_blocked(&bytes("www.example.com.")));
    assert!(!h.is_blocked(&bytes("notexample.com.")));
}

#[test]
fn normalize_line_trims_and_appends_dot() {
    let mut line = bytes("  example.com \t");
    normalize_line(&mut line);
    assert_eq!(line, bytes("example.com."));

    let mut already = bytes("example.com.");
    normalize_line(&mut already);
    assert_eq!(already, bytes("example.com."));

    let mut empty = bytes("   ");
    normalize_line(&mut empty);
    assert_eq!(empty, bytes("."));
}

#[test]
fn byte_helpers_behave() {
    assert!(bytes_eq(&bytes("abc"), &bytes("abc")));
    assert!(!bytes_eq(&bytes("abc"), &bytes("abd")));
    assert!(!bytes_eq(&bytes("abc"), &bytes("ab")));
    assert!(dot_terminated(&bytes("a.")));
    assert!(!dot_terminated(&bytes("a")));
    assert!(!dot_terminated(&bytes("")));
    assert_eq!(copy_bytes(&bytes("xyz")), bytes("xyz"));
}
