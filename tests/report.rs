use cookie_scout::cookie::{parse_cookie, CookieCategory};
use cookie_scout::report::{
    cookies_in_category, domain_kind, domain_kind_lowered, hidden_domain_count, privacy_impact,
    rating_of, same_site_tone, same_site_tone_lowered, score_bar, shown_domain_count, tracker_tag,
    tracker_tone, Rating, Tone,
};

#[test]
fn rating_thresholds() {
    assert_eq!(rating_of(100), Rating::Excellent);
    assert_eq!(rating_of(90), Rating::Excellent);
    assert_eq!(rating_of(89), Rating::Good);
    assert_eq!(rating_of(70), Rating::Good);
    assert_eq!(rating_of(69), Rating::Moderate);
    assert_eq!(rating_of(50), Rating::Moderate);
    assert_eq!(rating_of(49), Rating::Poor);
    assert_eq!(rating_of(25), Rating::Poor);
    assert_eq!(rating_of(24), Rating::Critical);
    assert_eq!(rating_of(0), Rating::Critical);
    assert_eq!(Rating::Moderate.label(), "MODERATE");
    assert_eq!(Rating::Poor.label(), "POOR");
    assert_eq!(Rating::Critical.label(), "CRITICAL");
    assert_eq!(Rating::Excellent.tone(), Tone::Green);
    assert_eq!(Rating::Moderate.tone(), Tone::Yellow);
    assert_eq!(Rating::Poor.tone(), Tone::Red);
}

#[test]
fn bar_cells() {
    assert_eq!(score_bar(100), (40, 0));
    assert_eq!(score_bar(88), (35, 5));
    assert_eq!(score_bar(0), (0, 40));
    assert_eq!(score_bar(2), (0, 40));
}

#[test]
fn domain_listing_limit() {
    assert_eq!(shown_domain_count(false, 20), 15);
    assert_eq!(hidden_domain_count(false, 20), 5);
    assert_eq!(shown_domain_count(true, 20), 20);
    assert_eq!(hidden_domain_count(true, 20), 0);
    assert_eq!(shown_domain_count(false, 15), 15);
    assert_eq!(hidden_domain_count(false, 3), 0);
}

#[test]
fn tracker_tags_and_tones() {
    assert_eq!(tracker_tag("Analytics"), "[ANALYTICS]");
    assert_eq!(tracker_tag("Marketing/CRM"), "[CRM]");
    assert_eq!(tracker_tag("CDN/Security"), "[CDN]");
    assert_eq!(tracker_tag("A/B Testing"), "[A/B TEST]");
    assert_eq!(tracker_tag("Something"), "[OTHER]");
    assert_eq!(tracker_tone("Marketing"), Tone::Red);
    assert_eq!(tracker_tone("Social"), Tone::Blue);
    assert_eq!(tracker_tone("Security"), Tone::White);
}

#[test]
fn tracker_impacts() {
    assert_eq!(privacy_impact("Marketing/CRM"), "High - Tracks users across websites for advertising");
    assert_eq!(privacy_impact("Analytics"), "Medium - Collects usage data and behavior patterns");
    assert_eq!(privacy_impact("CDN/Security"), "Low - Used for site protection");
    assert_eq!(privacy_impact("Other"), "Unknown - Impact could not be determined");
}

#[test]
fn domain_kinds() {
    assert_eq!(domain_kind("FONTS.GSTATIC.COM"), ("Google Services", "Analytics, fonts, APIs, or advertising"));
    assert_eq!(domain_kind("static.fbcdn.net").0, "Facebook/Meta");
    assert_eq!(domain_kind("cdnjs.cloudflare.com").0, "Cloudflare");
    assert_eq!(domain_kind("js.stripe.com").0, "Payment");
    assert_eq!(domain_kind("adnetwork.io").0, "External");
    assert_eq!(domain_kind_lowered("STATS.ANALYTICS.IO").0, "External");
    assert_eq!(domain_kind_lowered("stats.analytics.io").0, "Analytics");
}

#[test]
fn same_site_tones() {
    assert_eq!(same_site_tone("Strict"), Tone::Green);
    assert_eq!(same_site_tone("LAX"), Tone::Yellow);
    assert_eq!(same_site_tone("none"), Tone::Red);
    assert_eq!(same_site_tone("not set"), Tone::Dim);
    assert_eq!(same_site_tone_lowered("Strict"), Tone::Dim);
}

#[test]
fn category_notes() {
    assert_eq!(CookieCategory::Essential.purpose(), "Required for basic site functionality");
    assert_eq!(CookieCategory::Unknown.purpose(), "Purpose could not be determined");
    assert_eq!(CookieCategory::Marketing.tone(), Tone::Red);
    assert_eq!(CookieCategory::Unknown.tone(), Tone::White);
}

#[test]
fn cookies_grouped_by_category() {
    let cookies = vec![
        parse_cookie("_ga=1"),
        parse_cookie("session=1"),
        parse_cookie("_gid=1"),
        parse_cookie("theme=dark"),
    ];
    assert_eq!(cookies_in_category(&cookies, CookieCategory::Analytics), vec![0, 2]);
    assert_eq!(cookies_in_category(&cookies, CookieCategory::Essential), vec![1]);
    assert_eq!(cookies_in_category(&cookies, CookieCategory::Unknown), vec![3]);
    assert!(cookies_in_category(&cookies, CookieCategory::Social).is_empty());
}
