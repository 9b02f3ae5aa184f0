use netdiag::clock::{time_request_finish, time_request_start, TimeOutcome};
use netdiag::health::{connection_health_finish, connection_health_start, ProbeOutcome};
use netdiag::hwaddr::{mac_address_finish, mac_address_start, render_mac, MacLookup};
use netdiag::lookup::{
    lookup_host_finish, lookup_host_start, select_candidate, ResolvedAddr, Resolution,
};
use netdiag::status::{Status, Step};


/// Length of the null-terminated text at the start of `buf`.
fn c_len(buf: &[u8]) -> usize {
    buf.iter().position(|&b| b == 0).expect("buffer is not terminated")
}

fn addr(ipv4: bool, text: &str) -> ResolvedAddr {
    ResolvedAddr { ipv4, socket_text: text.as_bytes().to_vec() }
}

/// Runs a lookup through both steps, with `answer` standing for what the
/// resolver gives for the query.
fn lookup(
    hostname: Option<&str>,
    prefer_ipv4: bool,
    out: Option<&mut [u8]>,
    size: usize,
    answer: Resolution,
) -> i32 {
    match lookup_host_start(hostname.map(|h| h.as_bytes()), out.is_some(), size) {
        Step::Done(s) => s.code(),
        Step::Query(q) => {
            assert_eq!(q, format!("{}:0", hostname.unwrap()).into_bytes());
            let out = out.unwrap();
            lookup_host_finish(&answer, prefer_ipv4, &mut out[..size]).code()
        }
    }
}

fn localhost_answer() -> Resolution {
    Resolution::Resolved(vec![addr(false, "[::1]:0"), addr(true, "127.0.0.1:0")])
}

#[test]
fn version() {
    assert_eq!(netdiag::version(), "0.1.0");
}

#[test]
fn lookup_host() {
    let mut ip = [0u8; 45];
    let len = ip.len();
    assert_eq!(lookup(None, true, Some(&mut ip), len, localhost_answer()), -1);
    assert_eq!(lookup(Some("::1"), true, None, len, localhost_answer()), -1);
    assert_eq!(lookup(Some("::1"), true, Some(&mut ip), 0, localhost_answer()), -1);
    let v6_only = Resolution::Resolved(vec![addr(false, "[::1]:0")]);
    assert_eq!(lookup(Some("::1"), true, Some(&mut ip), len, v6_only), -2);
    assert_eq!(lookup(Some("abc123"), false, Some(&mut ip), len, Resolution::Failed), -3);

    assert_eq!(lookup(Some("localhost"), true, Some(&mut ip), len, localhost_answer()), 0);
    let n = c_len(&ip);
    assert_eq!(n, 9);
    assert_eq!(&ip[..n + 1], b"127.0.0.1\0");
    assert_eq!(lookup(Some("localhost"), false, Some(&mut ip), len, localhost_answer()), 0);
    let n = c_len(&ip);
    assert_eq!(n, 5);
    assert_eq!(&ip[..n + 1], b"[::1]\0");
}

#[test]
fn connection_health() {
    assert!(matches!(connection_health_start(None, 123), Step::Done(Status::InvalidArgument)));
    assert!(matches!(
        connection_health_start(Some(b"127.0.0.1"), 0),
        Step::Done(Status::InvalidArgument)
    ));
    match connection_health_start(Some(b"54.94.220.237"), 443) {
        Step::Query(target) => assert_eq!(target, b"54.94.220.237:443".to_vec()),
        Step::Done(_) => panic!("a valid probe was rejected"),
    }
    assert_eq!(connection_health_finish(ProbeOutcome::Connected).code(), 0);
}

#[test]
fn mac_address() {
    assert!(matches!(mac_address_start(false, 18), Step::Done(Status::InvalidArgument)));
    assert!(matches!(mac_address_start(true, 0), Step::Done(Status::InvalidArgument)));
    assert!(matches!(mac_address_start(true, 18), Step::Query(())));

    // The interface table's answer is supplied: an address as the query
    // reports it.
    let found = mac_address::MacAddress::new([0x92, 0x86, 0xa5, 0xdf, 0xbd, 0x20]);
    let mut mac_addr = [0u8; 18];
    let status = mac_address_finish(MacLookup::Found(found.bytes()), &mut mac_addr);
    assert_eq!(status.code(), 0);
    let n = c_len(&mac_addr);
    assert_eq!(n, 17);
    let expected = format!("{}\0", found);
    assert_eq!(&mac_addr[..n + 1], expected.as_bytes());
}

#[test]
fn sntp_request() {
    assert!(matches!(time_request_start(false, Some(b"pool.ntp.org:123"), 0), Step::Done(Status::InvalidArgument)));
    match time_request_start(true, Some(b"pool.ntp.org:321"), 100) {
        Step::Query(q) => {
            assert_eq!(q.server, Some(b"pool.ntp.org:321".to_vec()));
            assert_eq!(q.timeout_ms, Some(100));
        }
        Step::Done(_) => panic!("a valid request was rejected"),
    }
    let mut ts: i64 = 0;
    assert_eq!(time_request_finish(TimeOutcome::Failed, &mut ts).code(), -3);
    assert_eq!(ts, 0);

    let mut ts1: i64 = 0;
    let mut ts2: i64 = 0;
    match time_request_start(true, None, 0) {
        Step::Query(q) => {
            assert!(q.server.is_none());
            assert!(q.timeout_ms.is_none());
        }
        Step::Done(_) => panic!("a valid request was rejected"),
    }
    assert_eq!(time_request_finish(TimeOutcome::Received(1_700_000_000), &mut ts1).code(), 0);
    assert_eq!(time_request_finish(TimeOutcome::Received(1_700_000_002), &mut ts2).code(), 0);
    assert!(ts2 > ts1);
}

#[test]
fn candidate_selection_skips_ipv6_when_ipv4_preferred() {
    let cands = vec![addr(false, "[::1]:0"), addr(false, "[fe80::1]:0"), addr(true, "10.0.0.1:0")];
    assert_eq!(select_candidate(&cands, true), Some(2));
    assert_eq!(select_candidate(&cands, false), Some(0));
    assert_eq!(select_candidate(&cands[..2], true), None);
    assert_eq!(select_candidate(&[], false), None);
}

#[test]
fn empty_resolution_is_not_found() {
    let mut ip = [0u8; 45];
    let len = ip.len();
    assert_eq!(lookup(Some("empty.example"), false, Some(&mut ip), len, Resolution::Resolved(vec![])), -2);
    assert_eq!(ip, [0u8; 45]);
}

#[test]
fn failed_lookup_leaves_buffer() {
    let mut ip = [7u8; 8];
    assert_eq!(lookup_host_finish(&Resolution::Failed, true, &mut ip), Status::OperationFailed);
    assert_eq!(ip, [7u8; 8]);
}

#[test]
fn lookup_truncates_to_capacity() {
    let mut ip = [0xAAu8; 8];
    // Only the first four bytes are declared as capacity.
    assert_eq!(lookup(Some("localhost"), true, Some(&mut ip), 4, localhost_answer()), 0);
    assert_eq!(ip, [b'1', b'2', b'7', 0, 0xAA, 0xAA, 0xAA, 0xAA]);
}

#[test]
fn lookup_capacity_one_is_only_terminator() {
    let mut ip = [0xAAu8; 3];
    assert_eq!(lookup(Some("localhost"), false, Some(&mut ip), 1, localhost_answer()), 0);
    assert_eq!(ip, [0, 0xAA, 0xAA]);
}

#[test]
fn lookup_exact_fit() {
    let mut ip = [0xAAu8; 11];
    assert_eq!(lookup(Some("localhost"), true, Some(&mut ip), 10, localhost_answer()), 0);
    assert_eq!(&ip, b"127.0.0.1\0\xAA");
}

#[test]
fn lookup_empty_buffer_is_invalid() {
    let mut empty: [u8; 0] = [];
    assert_eq!(lookup_host_finish(&localhost_answer(), true, &mut empty), Status::InvalidArgument);
}

#[test]
fn socket_text_without_port_is_kept() {
    let mut ip = [0u8; 16];
    let answer = Resolution::Resolved(vec![addr(true, "10.1.2.3")]);
    assert_eq!(lookup_host_finish(&answer, true, &mut ip), Status::Success);
    assert_eq!(&ip[..9], b"10.1.2.3\0");
}

#[test]
fn probe_statuses() {
    assert_eq!(connection_health_finish(ProbeOutcome::Unparsable), Status::InvalidArgument);
    assert_eq!(connection_health_finish(ProbeOutcome::Unparsable).code(), -1);
    assert_eq!(connection_health_finish(ProbeOutcome::Connected), Status::Success);
    assert_eq!(connection_health_finish(ProbeOutcome::TimedOut), Status::TimedOut);
    assert_eq!(connection_health_finish(ProbeOutcome::TimedOut).code(), -2);
    assert_eq!(connection_health_finish(ProbeOutcome::Failed), Status::OperationFailed);
    assert_eq!(connection_health_finish(ProbeOutcome::Failed).code(), -3);
}

#[test]
fn probe_target_renders_port() {
    for (port, text) in [(1u16, "h:1"), (9, "h:9"), (10, "h:10"), (321, "h:321"), (65535, "h:65535")] {
        match connection_health_start(Some(b"h"), port) {
            Step::Query(q) => assert_eq!(q, text.as_bytes().to_vec()),
            Step::Done(_) => panic!("port {} was rejected", port),
        }
    }
}

#[test]
fn mac_rendering_matches_crate_display() {
    for bytes in [[0u8, 0, 0, 0, 0, 1], [0x0a, 0xff, 0x10, 0x9b, 0xc0, 0x07], [0xff; 6]] {
        let shown = format!("{}", mac_address::MacAddress::new(bytes));
        assert_eq!(render_mac(bytes), shown.into_bytes());
    }
    assert_eq!(render_mac([0x0a, 0xff, 0x10, 0x9b, 0xc0, 0x07]), b"0A:FF:10:9B:C0:07".to_vec());
}

#[test]
fn mac_outcomes() {
    let mut buf = [5u8; 18];
    assert_eq!(mac_address_finish(MacLookup::NoneFound, &mut buf), Status::NotFound);
    assert_eq!(mac_address_finish(MacLookup::NoneFound, &mut buf).code(), -2);
    assert_eq!(mac_address_finish(MacLookup::Failed, &mut buf).code(), -3);
    assert_eq!(buf, [5u8; 18]);
    let mut empty: [u8; 0] = [];
    assert_eq!(mac_address_finish(MacLookup::Found([1; 6]), &mut empty), Status::InvalidArgument);
}

#[test]
fn mac_truncated_in_small_buffer() {
    let mut buf = [5u8; 6];
    assert_eq!(mac_address_finish(MacLookup::Found([0xab, 0xcd, 0xef, 1, 2, 3]), &mut buf), Status::Success);
    assert_eq!(&buf, b"AB:CD\0");
}

#[test]
fn mac_twice_gives_same_text() {
    let bytes = [0x02, 0xfc, 0, 0, 0, 0x01];
    let mut first = [0u8; 18];
    let mut second = [0xEEu8; 18];
    assert_eq!(mac_address_finish(MacLookup::Found(bytes), &mut first), Status::Success);
    assert_eq!(mac_address_finish(MacLookup::Found(bytes), &mut second), Status::Success);
    assert_eq!(first, second);
    assert_eq!(&first, b"02:FC:00:00:00:01\0");
}

#[test]
fn time_statuses() {
    let mut ts: i64 = 42;
    assert_eq!(time_request_finish(TimeOutcome::TimeoutRejected, &mut ts), Status::InvalidArgument);
    assert_eq!(time_request_finish(TimeOutcome::TimedOut, &mut ts), Status::TimedOut);
    assert_eq!(time_request_finish(TimeOutcome::TimedOut, &mut ts).code(), -2);
    assert_eq!(ts, 42);
    assert_eq!(time_request_finish(TimeOutcome::Received(-5), &mut ts), Status::Success);
    assert_eq!(ts, -5);
}

#[test]
fn zero_timeout_means_default() {
    match time_request_start(true, Some(b"time.example:123"), 0) {
        Step::Query(q) => assert!(q.timeout_ms.is_none()),
        Step::Done(_) => panic!("a valid request was rejected"),
    }
}

#[test]
fn status_codes() {
    assert_eq!(Status::Success.code(), 0);
    assert_eq!(Status::InvalidArgument.code(), -1);
    assert_eq!(Status::NotFound.code(), -2);
    assert_eq!(Status::TimedOut.code(), -2);
    assert_eq!(Status::OperationFailed.code(), -3);
}
