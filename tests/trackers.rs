use cookie_scout::page::{detect_trackers, scan_resources};
use cookie_scout::tracker::{is_third_party, tracker_info, TrackerScan};

fn count_named(trackers: &[cookie_scout::tracker::TrackerInfo], name: &str) -> usize {
    trackers.iter().filter(|t| t.name == name).count()
}

#[test]
fn three_scripts_one_tracker() {
    let html = r#"<html><head>
        <script src="https://www.google-analytics.com/analytics.js"></script>
        <script src="https://www.google-analytics.com/ga.js"></script>
        <script src="/vendor/google-analytics-plugin.js"></script>
        </head><body></body></html>"#;
    let (trackers, domains) = detect_trackers(html, "example.com");
    assert_eq!(count_named(&trackers, "google-analytics"), 1);
    assert_eq!(domains, vec!["www.google-analytics.com".to_string()]);
}

#[test]
fn tracker_found_in_inline_script() {
    let html = "<script>window.hj=function(){}; loadHotjar();</script>";
    let (trackers, domains) = detect_trackers(html, "example.com");
    assert_eq!(trackers.len(), 1);
    assert_eq!(trackers[0].name, "hotjar");
    assert_eq!(trackers[0].category, "Analytics");
    assert_eq!(trackers[0].description, "Hotjar behavior analytics");
    assert!(domains.is_empty());
}

#[test]
fn regex_signature_matches() {
    let html = r#"<img src="/img/facebook-tracking-pixel.gif">"#;
    let (trackers, _) = detect_trackers(html, "example.com");
    assert_eq!(count_named(&trackers, "facebook.*pixel"), 1);
    let marketing = trackers.iter().find(|t| t.name == "facebook.*pixel").unwrap();
    assert_eq!(marketing.category, "Marketing");
    assert_eq!(marketing.description, "Facebook Pixel");
}

#[test]
fn signatures_match_ignoring_case() {
    let html = r#"<iframe src="https://WWW.YOUTUBE.COM/embed/x"></iframe>"#;
    let (trackers, domains) = detect_trackers(html, "example.com");
    assert_eq!(count_named(&trackers, "youtube.com"), 1);
    assert_eq!(domains, vec!["www.youtube.com".to_string()]);
}

#[test]
fn discovery_order_is_kept() {
    let html = r#"<script src="https://cdn.example.com/hotjar.js"></script>
        <img src="https://pixel.example.com/criteo.gif">"#;
    let (trackers, domains) = detect_trackers(html, "example.com");
    let names: Vec<&str> = trackers.iter().map(|t| t.name.as_str()).collect();
    assert_eq!(names, vec!["hotjar", "criteo"]);
    assert!(domains.is_empty());
}

#[test]
fn link_targets_are_checked_for_trackers_too() {
    let html = r#"<link rel="stylesheet" href="https://fonts.hotjar-cdn.io/style.css">"#;
    let (trackers, domains) = detect_trackers(html, "example.com");
    assert_eq!(count_named(&trackers, "hotjar"), 1);
    assert_eq!(domains, vec!["fonts.hotjar-cdn.io".to_string()]);
}

#[test]
fn stylesheet_from_tracker_host() {
    let html = "<link rel='stylesheet' href='https://static.hotjar.com/x.css'>";
    let (trackers, domains) = detect_trackers(html, "example.com");
    assert_eq!(domains, vec!["static.hotjar.com".to_string()]);
    assert_eq!(trackers.len(), 1);
    assert_eq!(trackers[0].name, "hotjar");
    assert_eq!(trackers[0].category, "Analytics");
    assert_eq!(trackers[0].description, "Hotjar behavior analytics");
}

#[test]
fn links_come_last_in_discovery_order() {
    let html = r#"<link href="/css/criteo.css"><img src="/img/hotjar.gif">"#;
    let (trackers, _) = detect_trackers(html, "example.com");
    let names: Vec<&str> = trackers.iter().map(|t| t.name.as_str()).collect();
    assert_eq!(names, vec!["hotjar", "criteo"]);
}

#[test]
fn scan_of_given_resources() {
    let scripts = vec![Some("https://cdn.mixpanel.com/lib.js".to_string()), None];
    let inline = vec!["loadHotjar()".to_string(), "mixpanel.init()".to_string()];
    let images = vec![Some("https://adnetwork.io/p.gif".to_string())];
    let frames: Vec<Option<String>> = vec![];
    let links = vec![Some("https://sub.example.com/s.css".to_string()), Some("/local/taboola.css".to_string())];
    let (trackers, domains) = scan_resources(&scripts, &inline, &images, &frames, &links, "example.com");
    let names: Vec<&str> = trackers.iter().map(|t| t.name.as_str()).collect();
    assert_eq!(names, vec!["mixpanel", "hotjar", "taboola"]);
    assert_eq!(domains, vec!["cdn.mixpanel.com".to_string(), "adnetwork.io".to_string()]);
}

#[test]
fn third_party_domains_are_unique() {
    let html = r#"<script src="https://adnetwork.io/a.js"></script>
        <img src="https://adnetwork.io/b.png">
        <iframe src="https://adnetwork.io/c"></iframe>"#;
    let (_, domains) = detect_trackers(html, "example.com");
    assert_eq!(domains, vec!["adnetwork.io".to_string()]);
}

#[test]
fn subdomain_is_not_third_party() {
    assert!(!is_third_party("sub.example.com", "example.com"));
    assert!(!is_third_party("example.com", "sub.example.com"));
    assert!(is_third_party("adnetwork.io", "example.com"));
    assert!(is_third_party("example.com", "adnetwork.io"));
    // The containment test is a plain substring test.
    assert!(!is_third_party("notexample.com", "example.com"));
}

#[test]
fn subdomain_resource_is_first_party_in_scan() {
    let html = r#"<img src="https://sub.example.com/a.png"><img src="https://adnetwork.io/b.png">"#;
    let (_, domains) = detect_trackers(html, "example.com");
    assert_eq!(domains, vec!["adnetwork.io".to_string()]);
}

#[test]
fn relative_urls_are_checked_for_trackers_only() {
    let html = r#"<script src="/js/mixpanel.min.js"></script>"#;
    let (trackers, domains) = detect_trackers(html, "example.com");
    assert_eq!(count_named(&trackers, "mixpanel"), 1);
    assert!(domains.is_empty());
}

#[test]
fn empty_page_base_domain_marks_nothing_third_party() {
    let html = r#"<img src="https://adnetwork.io/b.png">"#;
    let (_, domains) = detect_trackers(html, "");
    assert!(domains.is_empty());
}

#[test]
fn scan_merges_each_row_once() {
    let mut scan = TrackerScan::new();
    let mut matched = vec![false; scan.found.len()];
    matched[3] = true;
    matched[1] = true;
    scan.merge_hits(&matched);
    assert_eq!(scan.hits, vec![1, 3]);
    matched[0] = true;
    scan.merge_hits(&matched);
    assert_eq!(scan.hits, vec![1, 3, 0]);
}

#[test]
fn scan_notes_third_party_once() {
    let mut scan = TrackerScan::new();
    scan.note_third_party("adnetwork.io", "example.com");
    scan.note_third_party("adnetwork.io", "example.com");
    scan.note_third_party("cdn.example.com", "example.com");
    assert_eq!(scan.third_party, vec!["adnetwork.io".to_string()]);
}

#[test]
fn table_rows() {
    let first = tracker_info(0);
    assert_eq!(first.name, "google-analytics");
    assert_eq!(first.category, "Analytics");
    assert_eq!(first.description, "Google Analytics tracking");
    let gtm = tracker_info(1);
    assert_eq!(gtm.name, "googletagmanager");
    assert_eq!(gtm.description, "Google Tag Manager");
}
