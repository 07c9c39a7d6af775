use cookie_scout::cookie::{parse_cookie, CookieCategory};
use cookie_scout::page::{analyze_page, normalize_url, page_domain, AnalysisError, AnalysisResult};
use cookie_scout::report::{rating_of, Rating};
use cookie_scout::score::calculate_privacy_score;
use cookie_scout::tracker::tracker_info;

fn result_with(cookies: &[&str], trackers: usize, domains: usize) -> AnalysisResult {
    AnalysisResult {
        url: "https://example.com".to_string(),
        cookies: cookies.iter().map(|c| parse_cookie(c)).collect(),
        trackers: (0..trackers).map(|k| tracker_info(k)).collect(),
        third_party_requests: (0..domains).map(|i| format!("d{}.io", i)).collect(),
    }
}

#[test]
fn clean_page_scores_full_marks() {
    let html = "<html><head><title>Hi</title></head><body><p>Hello</p></body></html>";
    let r = analyze_page("https://example.com", &Vec::new(), html).unwrap();
    assert!(r.cookies.is_empty());
    assert!(r.trackers.is_empty());
    assert!(r.third_party_requests.is_empty());
    let score = calculate_privacy_score(&r);
    assert_eq!(score, 100);
    assert_eq!(rating_of(score), Rating::Excellent);
    assert_eq!(rating_of(score).label(), "EXCELLENT");
}

#[test]
fn marketing_cookie_and_tag_manager() {
    let html = r#"<html><head><script src="//www.googletagmanager.com/gtm.js"></script></head></html>"#;
    let headers = vec!["_fbp=xyz; Secure".to_string()];
    let r = analyze_page("https://example.com", &headers, html).unwrap();
    assert_eq!(r.url, "https://example.com");
    assert_eq!(r.cookies.len(), 1);
    assert_eq!(r.cookies[0].name, "_fbp");
    assert!(r.cookies[0].secure);
    assert_eq!(r.cookies[0].category, CookieCategory::Marketing);
    assert_eq!(r.trackers.len(), 1);
    assert_eq!(r.trackers[0].category, "Analytics");
    assert_eq!(r.trackers[0].description, "Google Tag Manager");
    assert!(r.third_party_requests.is_empty());
    let score = calculate_privacy_score(&r);
    assert_eq!(score, 88);
    assert_eq!(rating_of(score), Rating::Good);
    assert_eq!(rating_of(score).label(), "GOOD");
}

#[test]
fn absolute_tracker_url_also_counts_its_domain() {
    let html = r#"<script src="https://www.googletagmanager.com/gtm.js"></script>"#;
    let r = analyze_page("https://example.com/page", &Vec::new(), html).unwrap();
    assert_eq!(r.third_party_requests, vec!["www.googletagmanager.com".to_string()]);
    assert_eq!(calculate_privacy_score(&r), 94);
}

#[test]
fn invalid_url_is_rejected() {
    let r = analyze_page("not a url", &Vec::new(), "");
    assert!(matches!(r, Err(AnalysisError::InvalidUrl)));
    assert_eq!(page_domain("https://"), Err(AnalysisError::InvalidUrl));
}

#[test]
fn page_domain_reads_host() {
    assert_eq!(page_domain("https://Shop.Example.COM/cart?x=1"), Ok("shop.example.com".to_string()));
    assert_eq!(page_domain("http://127.0.0.1:8080/"), Ok(String::new()));
}

#[test]
fn normalizes_missing_scheme() {
    assert_eq!(normalize_url("example.com"), "https://example.com");
    assert_eq!(normalize_url("http://example.com"), "http://example.com");
    assert_eq!(normalize_url("https://example.com"), "https://example.com");
    assert_eq!(normalize_url("ftp://example.com"), "https://ftp://example.com");
}

#[test]
fn cookies_keep_header_order() {
    let headers = vec!["b=1".to_string(), "a=2; HttpOnly".to_string()];
    let r = analyze_page("https://example.com", &headers, "").unwrap();
    assert_eq!(r.cookies[0].name, "b");
    assert_eq!(r.cookies[1].name, "a");
    assert!(r.cookies[1].http_only);
}

#[test]
fn score_formula_per_category() {
    assert_eq!(calculate_privacy_score(&result_with(&["_ga=1"], 0, 0)), 95);
    assert_eq!(calculate_privacy_score(&result_with(&["facebook_x=1"], 0, 0)), 96);
    assert_eq!(calculate_privacy_score(&result_with(&["session=1"], 0, 0)), 98);
    assert_eq!(calculate_privacy_score(&result_with(&["theme=1"], 0, 0)), 98);
    assert_eq!(calculate_privacy_score(&result_with(&["_fbp=1"], 0, 0)), 93);
    assert_eq!(calculate_privacy_score(&result_with(&[], 3, 4)), 81);
    assert_eq!(calculate_privacy_score(&result_with(&["_ga=1", "_fbp=1"], 2, 1)), 77);
}

#[test]
fn extra_marketing_cookie_costs_seven() {
    let before = result_with(&["_ga=1", "session=1"], 2, 3);
    let after = result_with(&["_ga=1", "session=1", "_fbc=9"], 2, 3);
    let b = calculate_privacy_score(&before);
    let a = calculate_privacy_score(&after);
    assert_eq!(b, 80);
    assert_eq!(a, b - 7);
}

#[test]
fn extra_marketing_cookie_near_zero_clamps() {
    let before = result_with(&[], 19, 0);
    let after = result_with(&["_fbc=9"], 19, 0);
    assert_eq!(calculate_privacy_score(&before), 5);
    assert_eq!(calculate_privacy_score(&after), 0);
}

#[test]
fn score_never_below_zero() {
    let many: Vec<String> = (0..40).map(|i| format!("_fbp{}=1", i)).collect();
    let refs: Vec<&str> = many.iter().map(|s| s.as_str()).collect();
    let r = result_with(&refs, 30, 200);
    assert_eq!(calculate_privacy_score(&r), 0);
    assert_eq!(rating_of(0), Rating::Critical);
}
