use moondream::{CaptionLength, MoonDream, Request, Timeout};

const IMAGE: &str = "data:image/png;base64,AAA";

fn header(req: &Request, i: usize) -> (&str, &str) {
    (req.headers[i].0.as_str(), req.headers[i].1.as_str())
}

fn body_json(req: &Request) -> serde_json::Value {
    serde_json::from_str(&req.body).unwrap()
}

#[test]
fn test_caption_length_as_str() {
    assert_eq!(CaptionLength::Short.as_str(), "short");
    assert_eq!(CaptionLength::Normal.as_str(), "normal");
}

#[test]
fn test_constructors_and_setters() {
    let md_local = MoonDream::local("http://localhost:8080");
    assert_eq!(md_local.token(), "");
    assert_eq!(md_local.endpoint(), "http://localhost:8080".to_string());

    let md_remote = MoonDream::remote("secret");
    assert_eq!(md_remote.token(), "secret".to_string());
    assert_eq!(md_remote.endpoint(), "https://api.moondream.ai/v1".to_string());

    let md_timeout = md_remote.clone().with_timeout(Timeout::from_secs(10));
    assert_eq!(md_timeout.timeout(), Timeout::from_secs(10));
}

#[test]
fn new_client_defaults() {
    let md = MoonDream::new("abc".to_string());
    assert_eq!(md.token(), "abc");
    assert_eq!(md.endpoint(), "https://api.moondream.ai/v1");
    assert!(md.headers().is_empty());
    assert_eq!(md.timeout(), Timeout::from_secs(5));
    assert_eq!(md.timeout().as_secs(), 5);
    assert_eq!(md.timeout().subsec_nanos(), 0);
}

#[test]
fn with_timeout_keeps_other_settings() {
    let base = MoonDream::remote("secret")
        .with_endpoint("http://localhost:1")
        .with_headers(vec![("X-Extra".to_string(), "1".to_string())]);
    let kept = base.clone();
    let changed = base.with_timeout(Timeout::new(2, 500));
    assert_eq!(changed.timeout(), Timeout::new(2, 500));
    assert_eq!(changed.token(), "secret");
    assert_eq!(changed.endpoint(), "http://localhost:1");
    assert_eq!(changed.headers(), &vec![("X-Extra".to_string(), "1".to_string())]);
    assert_eq!(kept.timeout(), Timeout::from_secs(5));
    assert_eq!(kept.endpoint(), "http://localhost:1");
}

#[test]
fn timeout_parts() {
    let t = Timeout::new(3, 999_999_999);
    assert_eq!(t.as_secs(), 3);
    assert_eq!(t.subsec_nanos(), 999_999_999);
    assert_ne!(t, Timeout::from_secs(3));
}

#[test]
fn point_request_scenario() {
    let md = MoonDream::new("token".to_string()).with_endpoint("http://127.0.0.1:9000");
    let req = md.point_request(IMAGE, "object");
    assert_eq!(req.url, "http://127.0.0.1:9000/point");
    assert_eq!(req.headers.len(), 1);
    assert_eq!(header(&req, 0), ("X-Moondream-Auth", "token"));
    assert_eq!(req.timeout, Timeout::from_secs(5));
    assert_eq!(
        req.body,
        r#"{"image_url":"data:image/png;base64,AAA","object":"object"}"#
    );
}

#[test]
fn detect_request_scenario() {
    let md = MoonDream::new("token".to_string()).with_endpoint("http://127.0.0.1:9000");
    let req = md.detect_request(IMAGE, "object");
    assert_eq!(req.url, "http://127.0.0.1:9000/detect");
    assert_eq!(header(&req, 0), ("X-Moondream-Auth", "token"));
    let body = body_json(&req);
    assert_eq!(body["image_url"], IMAGE);
    assert_eq!(body["object"], "object");
    assert_eq!(body.as_object().unwrap().len(), 2);
}

#[test]
fn caption_request_scenario() {
    let md = MoonDream::new("token".to_string()).with_endpoint("http://127.0.0.1:9000");
    let req = md.caption_request(IMAGE, Some(CaptionLength::Normal));
    assert_eq!(req.url, "http://127.0.0.1:9000/caption");
    assert_eq!(header(&req, 0), ("X-Moondream-Auth", "token"));
    assert_eq!(
        req.body,
        r#"{"image_url":"data:image/png;base64,AAA","length":"normal"}"#
    );
    let short = md.caption_request(IMAGE, Some(CaptionLength::Short));
    assert_eq!(body_json(&short)["length"], "short");
}

#[test]
fn caption_without_length_asks_for_normal() {
    let md = MoonDream::remote("token");
    let none = md.caption_request(IMAGE, None);
    let normal = md.caption_request(IMAGE, Some(CaptionLength::Normal));
    assert_eq!(none.url, normal.url);
    assert_eq!(none.headers, normal.headers);
    assert_eq!(none.timeout, normal.timeout);
    assert_eq!(none.body, normal.body);
    assert_eq!(body_json(&none)["length"], "normal");
}

#[test]
fn query_request_scenario() {
    let md = MoonDream::remote("token").with_endpoint("http://127.0.0.1:9000");
    let req = md.query_request(IMAGE, "What is this?");
    assert_eq!(req.url, "http://127.0.0.1:9000/query");
    assert_eq!(header(&req, 0), ("X-Moondream-Auth", "token"));
    assert_eq!(
        req.body,
        r#"{"image_url":"data:image/png;base64,AAA","question":"What is this?"}"#
    );
}

#[test]
fn local_client_sends_empty_auth_header() {
    let md = MoonDream::local("http://127.0.0.1:9000");
    let reqs = [
        md.point_request(IMAGE, "object"),
        md.detect_request(IMAGE, "object"),
        md.caption_request(IMAGE, None),
        md.query_request(IMAGE, "What is this?"),
    ];
    for req in reqs.iter() {
        assert_eq!(header(req, 0), ("X-Moondream-Auth", ""));
        assert!(req.url.starts_with("http://127.0.0.1:9000/"));
    }
}

#[test]
fn extra_headers_follow_auth_header() {
    let md = MoonDream::remote("k").with_headers(vec![
        ("A".to_string(), "1".to_string()),
        ("B".to_string(), "2".to_string()),
    ]);
    let req = md.query_request(IMAGE, "q");
    assert_eq!(req.headers.len(), 3);
    assert_eq!(header(&req, 0), ("X-Moondream-Auth", "k"));
    assert_eq!(header(&req, 1), ("A", "1"));
    assert_eq!(header(&req, 2), ("B", "2"));
}

#[test]
fn body_escapes_strings() {
    let md = MoonDream::remote("k");
    let question = "say \"hi\"\\\n";
    let req = md.query_request(IMAGE, question);
    assert_eq!(
        req.body,
        r#"{"image_url":"data:image/png;base64,AAA","question":"say \"hi\"\\\n"}"#
    );
    assert_eq!(body_json(&req)["question"], question);
}

#[test]
fn build_body_with_empty_strings() {
    assert_eq!(moondream::build_body("", "k", ""), r#"{"image_url":"","k":""}"#);
}
