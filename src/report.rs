//! The decisions behind the printed report: score ratings, the tags, tones
//! and notes shown beside cookies, trackers and domains, and how many
//! domains a compact report lists. Printing itself is left to the caller.

use vstd::prelude::*;

use crate::cookie::{CookieCategory, CookieInfo};
use crate::text::{chars_of, has_infix, lower_of, lowercase, same_text, seq_has_infix};

verus! {

/// The colour family an item is shown in.
#[derive(Clone, Copy, Debug, PartialEq, Eq, Structural)]
pub enum Tone {
    Green,
    Yellow,
    Red,
    Blue,
    White,
    Dim,
}

/// The qualitative reading of a privacy score.
#[derive(Clone, Copy, Debug, PartialEq, Eq, Structural)]
pub enum Rating {
    Excellent,
    Good,
    Moderate,
    Poor,
    Critical,
}

/// The rating of a score: 90 and up excellent, 70 to 89 good, 50 to 69
/// moderate, 25 to 49 poor, below 25 critical.
pub open spec fn rating_spec(score: int) -> Rating {
    if score >= 90 {
        Rating::Excellent
    } else if score >= 70 {
        Rating::Good
    } else if score >= 50 {
        Rating::Moderate
    } else if score >= 25 {
        Rating::Poor
    } else {
        Rating::Critical
    }
}

/// The rating of a privacy score.
pub fn rating_of(score: u32) -> (r: Rating)
    ensures
        r == rating_spec(score as int),
{
    if score >= 90 {
        Rating::Excellent
    } else if score >= 70 {
        Rating::Good
    } else if score >= 50 {
        Rating::Moderate
    } else if score >= 25 {
        Rating::Poor
    } else {
        Rating::Critical
    }
}

impl Rating {
    /// The label of the rating.
    pub open spec fn label_spec(self) -> Seq<char> {
        match self {
            Rating::Excellent => "EXCELLENT"@,
            Rating::Good => "GOOD"@,
            Rating::Moderate => "MODERATE"@,
            Rating::Poor => "POOR"@,
            Rating::Critical => "CRITICAL"@,
        }
    }

    /// The label of the rating.
    pub fn label(&self) -> (r: &'static str)
        ensures
            r@ == self.label_spec(),
    {
        match self {
            Rating::Excellent => "EXCELLENT",
            Rating::Good => "GOOD",
            Rating::Moderate => "MODERATE",
            Rating::Poor => "POOR",
            Rating::Critical => "CRITICAL",
        }
    }

    /// The tone of the rating: green for excellent, yellow for good and
    /// moderate, red below.
    pub fn tone(&self) -> (r: Tone)
        ensures
            r == (match self {
                Rating::Excellent => Tone::Green,
                Rating::Good | Rating::Moderate => Tone::Yellow,
                Rating::Poor | Rating::Critical => Tone::Red,
            }),
    {
        match self {
            Rating::Excellent => Tone::Green,
            Rating::Good | Rating::Moderate => Tone::Yellow,
            Rating::Poor | Rating::Critical => Tone::Red,
        }
    }
}

/// The width of the score bar, in cells.
pub const BAR_WIDTH: usize = 40;

/// The filled and the empty cells of the score bar: the filled share is the
/// score's share of 100, rounded down.
pub fn score_bar(score: u32) -> (r: (usize, usize))
    requires
        score <= 100,
    ensures
        r.0 == score * BAR_WIDTH / 100,
        r.0 + r.1 == BAR_WIDTH,
{
    let filled = (score as usize) * BAR_WIDTH / 100;
    assert(filled <= BAR_WIDTH) by (nonlinear_arith)
        requires
            filled == (score as usize) * 40 / 100,
            score <= 100,
    ;
    (filled, BAR_WIDTH - filled)
}

/// The most domains a compact report lists.
pub const COMPACT_DOMAIN_LIMIT: usize = 15;

/// How many of `total` third-party domains the report lists: all of them in
/// verbose mode, at most the compact limit otherwise.
pub open spec fn shown_domain_count_spec(verbose: bool, total: usize) -> usize {
    if verbose || total <= COMPACT_DOMAIN_LIMIT {
        total
    } else {
        COMPACT_DOMAIN_LIMIT
    }
}

/// How many of `total` third-party domains the report lists.
pub fn shown_domain_count(verbose: bool, total: usize) -> (r: usize)
    ensures
        r == shown_domain_count_spec(verbose, total),
{
    if verbose || total <= COMPACT_DOMAIN_LIMIT {
        total
    } else {
        COMPACT_DOMAIN_LIMIT
    }
}

/// How many of `total` third-party domains the report leaves out.
pub fn hidden_domain_count(verbose: bool, total: usize) -> (r: usize)
    ensures
        r == total - shown_domain_count_spec(verbose, total),
{
    total - shown_domain_count(verbose, total)
}

/// The tag shown before a tracker of the given kind.
pub open spec fn tracker_tag_spec(category: Seq<char>) -> Seq<char> {
    if category == "Analytics"@ {
        "[ANALYTICS]"@
    } else if category == "Marketing"@ {
        "[MARKETING]"@
    } else if category == "Social"@ {
        "[SOCIAL]"@
    } else if category == "Security"@ {
        "[SECURITY]"@
    } else if category == "CDN/Security"@ {
        "[CDN]"@
    } else if category == "Error Tracking"@ {
        "[ERROR]"@
    } else if category == "Customer Support"@ {
        "[SUPPORT]"@
    } else if category == "A/B Testing"@ {
        "[A/B TEST]"@
    } else if category == "Marketing/CRM"@ {
        "[CRM]"@
    } else {
        "[OTHER]"@
    }
}

/// The tag shown before a tracker of the given kind.
pub fn tracker_tag(category: &str) -> (r: &'static str)
    ensures
        r@ == tracker_tag_spec(category@),
{
    if same_text(category, "Analytics") {
        "[ANALYTICS]"
    } else if same_text(category, "Marketing") {
        "[MARKETING]"
    } else if same_text(category, "Social") {
        "[SOCIAL]"
    } else if same_text(category, "Security") {
        "[SECURITY]"
    } else if same_text(category, "CDN/Security") {
        "[CDN]"
    } else if same_text(category, "Error Tracking") {
        "[ERROR]"
    } else if same_text(category, "Customer Support") {
        "[SUPPORT]"
    } else if same_text(category, "A/B Testing") {
        "[A/B TEST]"
    } else if same_text(category, "Marketing/CRM") {
        "[CRM]"
    } else {
        "[OTHER]"
    }
}

/// The tone of a tracker of the given kind.
pub open spec fn tracker_tone_spec(category: Seq<char>) -> Tone {
    if category == "Analytics"@ {
        Tone::Yellow
    } else if category == "Marketing"@ {
        Tone::Red
    } else if category == "Social"@ {
        Tone::Blue
    } else {
        Tone::White
    }
}

/// The tone of a tracker of the given kind.
pub fn tracker_tone(category: &str) -> (r: Tone)
    ensures
        r == tracker_tone_spec(category@),
{
    if same_text(category, "Analytics") {
        Tone::Yellow
    } else if same_text(category, "Marketing") {
        Tone::Red
    } else if same_text(category, "Social") {
        Tone::Blue
    } else {
        Tone::White
    }
}

/// How much a tracker of the given kind costs its users' privacy.
pub open spec fn privacy_impact_spec(category: Seq<char>) -> Seq<char> {
    if category == "Marketing"@ || category == "Marketing/CRM"@ {
        "High - Tracks users across websites for advertising"@
    } else if category == "Analytics"@ {
        "Medium - Collects usage data and behavior patterns"@
    } else if category == "Social"@ {
        "Medium - May share data with social networks"@
    } else if category == "A/B Testing"@ {
        "Low - Used for page optimization experiments"@
    } else if category == "Security"@ || category == "CDN/Security"@ {
        "Low - Used for site protection"@
    } else if category == "Error Tracking"@ {
        "Low - Collects error reports for debugging"@
    } else if category == "Customer Support"@ {
        "Low - Enables support chat functionality"@
    } else {
        "Unknown - Impact could not be determined"@
    }
}

/// How much a tracker of the given kind costs its users' privacy.
pub fn privacy_impact(category: &str) -> (r: &'static str)
    ensures
        r@ == privacy_impact_spec(category@),
{
    if same_text(category, "Marketing") || same_text(category, "Marketing/CRM") {
        "High - Tracks users across websites for advertising"
    } else if same_text(category, "Analytics") {
        "Medium - Collects usage data and behavior patterns"
    } else if same_text(category, "Social") {
        "Medium - May share data with social networks"
    } else if same_text(category, "A/B Testing") {
        "Low - Used for page optimization experiments"
    } else if same_text(category, "Security") || same_text(category, "CDN/Security") {
        "Low - Used for site protection"
    } else if same_text(category, "Error Tracking") {
        "Low - Collects error reports for debugging"
    } else if same_text(category, "Customer Support") {
        "Low - Enables support chat functionality"
    } else {
        "Unknown - Impact could not be determined"
    }
}

/// The kind of service a third-party domain, in lower case, belongs to, and
/// what such services do: the first rule whose words the domain contains.
pub open spec fn domain_kind_spec(d: Seq<char>) -> (Seq<char>, Seq<char>) {
    if has_infix(d, "google"@) || has_infix(d, "gstatic"@) {
        ("Google Services"@, "Analytics, fonts, APIs, or advertising"@)
    } else if has_infix(d, "facebook"@) || has_infix(d, "fbcdn"@) {
        ("Facebook/Meta"@, "Social plugins or tracking"@)
    } else if has_infix(d, "cloudflare"@) {
        ("Cloudflare"@, "CDN and security services"@)
    } else if has_infix(d, "cdn"@) || has_infix(d, "akamai"@) || has_infix(d, "fastly"@) {
        ("CDN"@, "Content delivery network"@)
    } else if has_infix(d, "analytics"@) || has_infix(d, "tracking"@) {
        ("Analytics"@, "User tracking and analytics"@)
    } else if has_infix(d, "ads"@) || has_infix(d, "doubleclick"@) {
        ("Advertising"@, "Ad serving and tracking"@)
    } else if has_infix(d, "twitter"@) || has_infix(d, "linkedin"@) {
        ("Social Media"@, "Social network integration"@)
    } else if has_infix(d, "stripe"@) || has_infix(d, "paypal"@) {
        ("Payment"@, "Payment processing"@)
    } else if has_infix(d, "sentry"@) || has_infix(d, "bugsnag"@) {
        ("Error Tracking"@, "Error monitoring service"@)
    } else {
        ("External"@, "Third-party resource"@)
    }
}

/// Whether the characters `d` contain the text `word`.
fn holds_word(d: &Vec<char>, word: &str) -> (r: bool)
    ensures
        r == has_infix(d@, word@),
{
    let w = chars_of(word);
    seq_has_infix(d, &w)
}

/// The kind of service a third-party domain that is already in lower case
/// belongs to, and what such services do.
pub fn domain_kind_lowered(domain: &str) -> (r: (&'static str, &'static str))
    ensures
        (r.0@, r.1@) == domain_kind_spec(domain@),
{
    let d = chars_of(domain);
    if holds_word(&d, "google") || holds_word(&d, "gstatic") {
        ("Google Services", "Analytics, fonts, APIs, or advertising")
    } else if holds_word(&d, "facebook") || holds_word(&d, "fbcdn") {
        ("Facebook/Meta", "Social plugins or tracking")
    } else if holds_word(&d, "cloudflare") {
        ("Cloudflare", "CDN and security services")
    } else if holds_word(&d, "cdn") || holds_word(&d, "akamai") || holds_word(&d, "fastly") {
        ("CDN", "Content delivery network")
    } else if holds_word(&d, "analytics") || holds_word(&d, "tracking") {
        ("Analytics", "User tracking and analytics")
    } else if holds_word(&d, "ads") || holds_word(&d, "doubleclick") {
        ("Advertising", "Ad serving and tracking")
    } else if holds_word(&d, "twitter") || holds_word(&d, "linkedin") {
        ("Social Media", "Social network integration")
    } else if holds_word(&d, "stripe") || holds_word(&d, "paypal") {
        ("Payment", "Payment processing")
    } else if holds_word(&d, "sentry") || holds_word(&d, "bugsnag") {
        ("Error Tracking", "Error monitoring service")
    } else {
        ("External", "Third-party resource")
    }
}

/// The kind of service a third-party domain belongs to, matched in lower
/// case, and what such services do.
pub fn domain_kind(domain: &str) -> (r: (&'static str, &'static str))
    ensures
        (r.0@, r.1@) == domain_kind_spec(lower_of(domain@)),
{
    let lowered = lowercase(domain);
    domain_kind_lowered(lowered.as_str())
}

/// The tone of a same-site policy, read in lower case: strict green, lax
/// yellow, none red, anything else dim.
pub open spec fn same_site_tone_spec(lowered: Seq<char>) -> Tone {
    if lowered == "strict"@ {
        Tone::Green
    } else if lowered == "lax"@ {
        Tone::Yellow
    } else if lowered == "none"@ {
        Tone::Red
    } else {
        Tone::Dim
    }
}

/// The tone of a same-site policy that is already in lower case.
pub fn same_site_tone_lowered(lowered: &str) -> (r: Tone)
    ensures
        r == same_site_tone_spec(lowered@),
{
    if same_text(lowered, "strict") {
        Tone::Green
    } else if same_text(lowered, "lax") {
        Tone::Yellow
    } else if same_text(lowered, "none") {
        Tone::Red
    } else {
        Tone::Dim
    }
}

/// The tone of a same-site policy, read in lower case.
pub fn same_site_tone(value: &str) -> (r: Tone)
    ensures
        r == same_site_tone_spec(lower_of(value@)),
{
    let lowered = lowercase(value);
    same_site_tone_lowered(lowered.as_str())
}

impl CookieCategory {
    /// What cookies of the category are for.
    pub open spec fn purpose_spec(self) -> Seq<char> {
        match self {
            CookieCategory::Essential => "Required for basic site functionality"@,
            CookieCategory::Analytics => "Used to track user behavior and site performance"@,
            CookieCategory::Marketing => "Used for advertising and tracking across sites"@,
            CookieCategory::Social => "Related to social media integrations"@,
            CookieCategory::Unknown => "Purpose could not be determined"@,
        }
    }

    /// What cookies of the category are for.
    pub fn purpose(&self) -> (r: &'static str)
        ensures
            r@ == self.purpose_spec(),
    {
        match self {
            CookieCategory::Essential => "Required for basic site functionality",
            CookieCategory::Analytics => "Used to track user behavior and site performance",
            CookieCategory::Marketing => "Used for advertising and tracking across sites",
            CookieCategory::Social => "Related to social media integrations",
            CookieCategory::Unknown => "Purpose could not be determined",
        }
    }

    /// The tone the category is shown in.
    pub fn tone(&self) -> (r: Tone)
        ensures
            r == (match self {
                CookieCategory::Essential => Tone::Green,
                CookieCategory::Analytics => Tone::Yellow,
                CookieCategory::Marketing => Tone::Red,
                CookieCategory::Social => Tone::Blue,
                CookieCategory::Unknown => Tone::White,
            }),
    {
        match self {
            CookieCategory::Essential => Tone::Green,
            CookieCategory::Analytics => Tone::Yellow,
            CookieCategory::Marketing => Tone::Red,
            CookieCategory::Social => Tone::Blue,
            CookieCategory::Unknown => Tone::White,
        }
    }
}

/// The positions of the cookies of the category, in order.
pub fn cookies_in_category(cookies: &Vec<CookieInfo>, category: CookieCategory) -> (r: Vec<usize>)
    ensures
        forall|i: int| 0 <= i < r@.len() ==> #[trigger] r@[i] < cookies@.len(),
        forall|i: int| 0 <= i < r@.len() ==> cookies@[#[trigger] r@[i] as int].category == category,
        forall|i: int, j: int| 0 <= i < j < r@.len() ==> r@[i] < r@[j],
        forall|k: int|
            0 <= k < cookies@.len() && #[trigger] cookies@[k].category == category ==> r@.contains(
                k as usize,
            ),
{
    let mut r: Vec<usize> = Vec::new();
    let mut k: usize = 0;
    while k < cookies.len()
        invariant
            k <= cookies@.len(),
            forall|i: int| 0 <= i < r@.len() ==> #[trigger] r@[i] < k,
            forall|i: int| 0 <= i < r@.len() ==> cookies@[#[trigger] r@[i] as int].category == category,
            forall|i: int, j: int| 0 <= i < j < r@.len() ==> r@[i] < r@[j],
            forall|m: int|
                0 <= m < k && #[trigger] cookies@[m].category == category ==> r@.contains(m as usize),
        decreases cookies@.len() - k,
    {
        if cookies[k].category == category {
            let ghost prev = r@;
            r.push(k);
            assert forall|m: int|
                0 <= m < k + 1 && #[trigger] cookies@[m].category == category implies r@.contains(
                m as usize,
            ) by {
                if m < k {
                    let i = choose|i: int| 0 <= i < prev.len() && prev[i] == m as usize;
                    assert(r@[i] == m as usize);
                } else {
                    assert(r@[prev.len() as int] == m as usize);
                }
            }
        }
        k = k + 1;
    }
    r
}

} // verus!
