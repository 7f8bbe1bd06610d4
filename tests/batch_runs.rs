use http_smoke::batch::{gather, plan_all, Completion, SequentialRun};
use http_smoke::descriptor::{plan_request, Descriptor, RequestPlan};
use http_smoke::executor::{finish_request, status_of, Reply, Status};
use http_smoke::headers::{build_headers, ConfigError};

const MS: u64 = 1_000_000;

fn desc(url: Option<&str>, method: Option<&str>, data: &str) -> Descriptor {
    Descriptor::new(url.map(|u| u.to_string()), method.map(|m| m.to_string()), data.to_string())
}

fn same(a: &Descriptor, b: &Descriptor) -> bool {
    a.url == b.url && a.method == b.method && a.data == b.data
}

#[test]
fn get_plan_sends_to_url() {
    match plan_request(&desc(Some("http://example.test/ok"), Some("get"), "null")) {
        RequestPlan::Get { url } => assert_eq!(url, "http://example.test/ok"),
        _ => panic!("expected a GET"),
    }
}

#[test]
fn post_plan_carries_data() {
    match plan_request(&desc(Some("http://example.test/echo"), Some("post"), "{\"a\":1}")) {
        RequestPlan::Post { url, body } => {
            assert_eq!(url, "http://example.test/echo");
            assert_eq!(body, "{\"a\":1}");
        }
        _ => panic!("expected a POST"),
    }
}

#[test]
fn unsupported_method_is_rejected_and_fails() {
    let d = desc(Some("http://example.test/ok"), Some("put"), "null");
    assert!(matches!(plan_request(&d), RequestPlan::Reject));
    let r = finish_request(d, &Reply::Body(b"{}".to_vec()), 5, 9);
    assert_eq!(r.status, Status::Fail);
    assert_eq!(r.dur_nanos, 4);
}

#[test]
fn missing_method_is_rejected() {
    let d = desc(Some("http://example.test/ok"), None, "null");
    assert!(matches!(plan_request(&d), RequestPlan::Reject));
    assert_eq!(finish_request(d, &Reply::NotSent, 0, 0).status, Status::Fail);
}

#[test]
fn non_string_url_fails() {
    let d = desc(None, Some("get"), "null");
    assert!(matches!(plan_request(&d), RequestPlan::Reject));
    let r = finish_request(d, &Reply::Body(b"{}".to_vec()), 1, 2);
    assert_eq!(r.status, Status::Fail);
}

#[test]
fn json_body_succeeds_in_about_fifty_ms() {
    let d = desc(Some("http://example.test/ok"), Some("get"), "null");
    let mut run = SequentialRun::start(vec![d], 0);
    let plan = run.next_plan().expect("one request");
    assert!(matches!(plan, RequestPlan::Get { .. }));
    run.complete(&Reply::Body(b"{}".to_vec()), 0, 50 * MS);
    assert!(run.next_plan().is_none());
    let out = run.finish(50 * MS);
    assert_eq!(out.records.len(), 1);
    assert_eq!(out.records[0].status, Status::Success);
    assert_eq!(out.records[0].dur_nanos, 50 * MS);
}

#[test]
fn non_json_body_fails_with_duration() {
    let d = desc(Some("http://example.test/html"), Some("get"), "null");
    let r = finish_request(d, &Reply::Body(b"<html>hi</html>".to_vec()), 10, 30 * MS);
    assert_eq!(r.status, Status::Fail);
    assert!(r.dur_nanos > 0);
}

#[test]
fn empty_body_fails() {
    let d = desc(Some("http://example.test/empty"), Some("get"), "null");
    assert_eq!(finish_request(d, &Reply::Body(Vec::new()), 0, 1).status, Status::Fail);
}

#[test]
fn transport_failure_fails() {
    let d = desc(Some("http://example.test/down"), Some("get"), "null");
    assert_eq!(finish_request(d, &Reply::TransportFailed, 0, 7).status, Status::Fail);
}

#[test]
fn post_echo_keeps_data() {
    let d = desc(Some("http://example.test/echo"), Some("post"), "{\"k\":[1,2]}");
    let body = match plan_request(&d) {
        RequestPlan::Post { body, .. } => body,
        _ => panic!("expected a POST"),
    };
    let r = finish_request(d.duplicate(), &Reply::Body(body.into_bytes()), 0, 3 * MS);
    assert_eq!(r.status, Status::Success);
    assert_eq!(r.request.data, "{\"k\":[1,2]}");
    assert!(same(&r.request, &d));
}

#[test]
fn status_of_needs_plan_body_and_json() {
    let get = RequestPlan::Get { url: "http://x".to_string() };
    assert_eq!(status_of(&get, &Reply::Body(b"1".to_vec()), true), Status::Success);
    assert_eq!(status_of(&get, &Reply::Body(b"x".to_vec()), false), Status::Fail);
    assert_eq!(status_of(&get, &Reply::TransportFailed, true), Status::Fail);
    assert_eq!(status_of(&RequestPlan::Reject, &Reply::Body(b"1".to_vec()), true), Status::Fail);
}

#[test]
fn sequential_run_keeps_order_and_sums() {
    let ds = vec![
        desc(Some("http://a.test"), Some("get"), "null"),
        desc(Some("http://b.test"), Some("put"), "null"),
        desc(None, Some("post"), "3"),
    ];
    let copies: Vec<Descriptor> = ds.iter().map(|d| d.duplicate()).collect();
    let mut run = SequentialRun::start(ds, 100);
    run.complete(&Reply::Body(b"[]".to_vec()), 100, 200);
    assert!(matches!(run.next_plan(), Some(RequestPlan::Reject)));
    run.complete(&Reply::NotSent, 210, 215);
    run.complete(&Reply::NotSent, 220, 230);
    assert!(run.next_plan().is_none());
    let out = run.finish(240);
    assert_eq!(out.records.len(), 3);
    assert_eq!(out.total_nanos, 140);
    let sum: u64 = out.records.iter().map(|r| r.dur_nanos).sum();
    assert_eq!(sum, 115);
    assert!(sum <= out.total_nanos);
    for (r, d) in out.records.iter().zip(copies.iter()) {
        assert!(same(&r.request, d));
    }
    assert_eq!(out.records[0].status, Status::Success);
    assert_eq!(out.records[1].status, Status::Fail);
    assert_eq!(out.records[2].status, Status::Fail);
}

#[test]
fn empty_batches_have_no_records() {
    let run = SequentialRun::start(Vec::new(), 5);
    assert!(run.next_plan().is_none());
    let out = run.finish(5);
    assert_eq!(out.records.len(), 0);
    assert_eq!(out.total_nanos, 0);
    let out = gather(Vec::new(), Vec::new(), 7, 9);
    assert_eq!(out.records.len(), 0);
    assert_eq!(out.total_nanos, 2);
}

fn three_gets() -> Vec<Descriptor> {
    vec![
        desc(Some("http://example.test/d100"), Some("get"), "null"),
        desc(Some("http://example.test/d200"), Some("get"), "null"),
        desc(Some("http://example.test/d300"), Some("get"), "null"),
    ]
}

#[test]
fn concurrent_total_is_longest_not_sum() {
    let ds = three_gets();
    let plans = plan_all(&ds);
    assert_eq!(plans.len(), 3);
    assert!(plans.iter().all(|p| matches!(p, RequestPlan::Get { .. })));
    let cs: Vec<Completion> = [100, 200, 300]
        .iter()
        .map(|&ms| Completion { reply: Reply::Body(b"{}".to_vec()), started_at: 0, ended_at: ms * MS })
        .collect();
    let out = gather(ds, cs, 0, 300 * MS);
    assert_eq!(out.records.len(), 3);
    assert!(out.records.iter().all(|r| r.status == Status::Success));
    assert_eq!(out.records[0].dur_nanos, 100 * MS);
    assert_eq!(out.records[1].dur_nanos, 200 * MS);
    assert_eq!(out.records[2].dur_nanos, 300 * MS);
    assert_eq!(out.total_nanos, 300 * MS);
    assert!(out.total_nanos < 600 * MS);
}

#[test]
fn one_failure_leaves_others_unchanged() {
    let ok = |ms: u64| Completion { reply: Reply::Body(b"{}".to_vec()), started_at: 0, ended_at: ms * MS };
    let all_ok = gather(three_gets(), vec![ok(100), ok(200), ok(300)], 0, 300 * MS);
    let bad = Completion { reply: Reply::TransportFailed, started_at: 0, ended_at: 5 * MS };
    let one_bad = gather(three_gets(), vec![ok(100), bad, ok(300)], 0, 300 * MS);
    assert_eq!(one_bad.records.len(), 3);
    assert_eq!(one_bad.records[1].status, Status::Fail);
    for i in [0usize, 2] {
        assert_eq!(one_bad.records[i].status, all_ok.records[i].status);
        assert_eq!(one_bad.records[i].dur_nanos, all_ok.records[i].dur_nanos);
        assert!(same(&one_bad.records[i].request, &all_ok.records[i].request));
    }
}

#[test]
fn headers_accept_valid_pairs() {
    let pairs = vec![
        ("Content-Type".to_string(), "application/json".to_string()),
        ("x-token".to_string(), "abc\tv".to_string()),
    ];
    let hs = build_headers(&pairs).expect("valid headers");
    assert_eq!(hs.len(), 2);
    assert_eq!(hs[0].0.as_str(), "content-type");
    assert_eq!(hs[1].1.to_str().unwrap(), "abc\tv");
}

#[test]
fn headers_report_bad_name_first() {
    let pairs = vec![
        ("ok".to_string(), "1".to_string()),
        ("bad name".to_string(), "bad\nvalue".to_string()),
    ];
    assert_eq!(build_headers(&pairs).unwrap_err(), ConfigError::BadHeaderName { index: 1 });
    let empty = vec![("".to_string(), "v".to_string())];
    assert_eq!(build_headers(&empty).unwrap_err(), ConfigError::BadHeaderName { index: 0 });
}

#[test]
fn headers_report_bad_value() {
    let pairs = vec![("accept".to_string(), "a\u{7f}b".to_string())];
    assert_eq!(build_headers(&pairs).unwrap_err(), ConfigError::BadHeaderValue { index: 0 });
    let ok = vec![("accept".to_string(), "caf\u{e9}".to_string())];
    assert!(build_headers(&ok).is_ok());
}
