use cookie_scout::cookie::{
    categorize_cookie, categorize_lowered, parse_attribute, parse_cookie, CookieAttribute,
    CookieCategory,
};

#[test]
fn parses_full_session_cookie() {
    let c = parse_cookie("sessionid=abc123; Secure; HttpOnly; SameSite=Strict");
    assert_eq!(c.name, "sessionid");
    assert!(c.secure);
    assert!(c.http_only);
    assert_eq!(c.same_site.as_deref(), Some("strict"));
    assert_eq!(c.domain, None);
    assert_eq!(c.category, CookieCategory::Essential);
}

#[test]
fn parses_domain_attribute_in_lower_case() {
    let c = parse_cookie("_ga=GA1.2.3; Domain=.Example.COM; Path=/");
    assert_eq!(c.name, "_ga");
    assert_eq!(c.domain.as_deref(), Some(".example.com"));
    assert!(!c.secure);
    assert!(!c.http_only);
    assert_eq!(c.same_site, None);
    assert_eq!(c.category, CookieCategory::Analytics);
}

#[test]
fn later_attribute_overrides_earlier() {
    let c = parse_cookie("x=1; samesite=lax; SameSite=None");
    assert_eq!(c.same_site.as_deref(), Some("none"));
}

#[test]
fn empty_cookie_string_degrades_to_defaults() {
    let c = parse_cookie("");
    assert_eq!(c.name, "");
    assert_eq!(c.domain, None);
    assert!(!c.secure);
    assert!(!c.http_only);
    assert_eq!(c.same_site, None);
    assert_eq!(c.category, CookieCategory::Unknown);
}

#[test]
fn malformed_cookie_keeps_name_and_ignores_junk() {
    let c = parse_cookie("  weird name  ;;=;secure=yes; httponly ; expires=never");
    assert_eq!(c.name, "weird name");
    assert!(!c.secure);
    assert!(c.http_only);
    assert_eq!(c.category, CookieCategory::Unknown);
}

#[test]
fn cookie_without_value_uses_whole_first_piece() {
    let c = parse_cookie("cart_items ; Secure");
    assert_eq!(c.name, "cart_items");
    assert!(c.secure);
    assert_eq!(c.category, CookieCategory::Essential);
}

#[test]
fn category_follows_table_order() {
    // "session" comes before "_ga" in the table.
    assert_eq!(categorize_cookie("_ga_session"), CookieCategory::Essential);
    assert_eq!(categorize_cookie("_ga_session"), categorize_cookie("_ga_session"));
    // "_ga" comes before "__gads".
    assert_eq!(categorize_cookie("__gads"), CookieCategory::Analytics);
}

#[test]
fn category_is_matched_in_lower_case() {
    assert_eq!(categorize_cookie("SESSIONID"), CookieCategory::Essential);
    assert_eq!(categorize_cookie("_FBP"), CookieCategory::Marketing);
    // Upper-case fragments of the table never meet a lower-case name.
    assert_eq!(categorize_cookie("IDE"), CookieCategory::Unknown);
}

#[test]
fn category_of_each_kind() {
    assert_eq!(categorize_lowered("csrftoken"), CookieCategory::Essential);
    assert_eq!(categorize_lowered("mp_123_mixpanel"), CookieCategory::Analytics);
    assert_eq!(categorize_lowered("_fbp"), CookieCategory::Marketing);
    assert_eq!(categorize_lowered("bcookie"), CookieCategory::Marketing);
    assert_eq!(categorize_lowered("instagram_pref"), CookieCategory::Social);
    assert_eq!(categorize_lowered("theme"), CookieCategory::Unknown);
}

#[test]
fn lowered_lookup_does_not_fold_case() {
    assert_eq!(categorize_lowered("SESSION"), CookieCategory::Unknown);
}

#[test]
fn category_names() {
    assert_eq!(CookieCategory::Essential.as_str(), "Essential");
    assert_eq!(CookieCategory::Analytics.as_str(), "Analytics");
    assert_eq!(CookieCategory::Marketing.as_str(), "Marketing");
    assert_eq!(CookieCategory::Social.as_str(), "Social");
    assert_eq!(CookieCategory::Unknown.as_str(), "Unknown");
}

#[test]
fn attribute_segments() {
    assert!(matches!(parse_attribute("domain=a.com"), CookieAttribute::Domain(d) if d == "a.com"));
    assert!(matches!(parse_attribute("domain="), CookieAttribute::Domain(d) if d.is_empty()));
    assert!(matches!(parse_attribute("secure"), CookieAttribute::Secure));
    assert!(matches!(parse_attribute("httponly"), CookieAttribute::HttpOnly));
    assert!(matches!(parse_attribute("samesite=lax"), CookieAttribute::SameSite(v) if v == "lax"));
    assert!(matches!(parse_attribute("path=/"), CookieAttribute::Other));
    assert!(matches!(parse_attribute("secures"), CookieAttribute::Other));
}

#[test]
fn domain_is_the_rest_after_its_prefix() {
    let c = parse_cookie("a=1; Domain=domain=x.org");
    assert_eq!(c.domain.as_deref(), Some("domain=x.org"));
}
