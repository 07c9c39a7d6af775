//! Reading `Set-Cookie` header values and sorting cookies by purpose.

use vstd::prelude::*;

use crate::text::{
    chars_of, has_infix, has_prefix, lower_of, lowercase, same_text, seq_has_infix, split_at_sep,
    split_text, starts_with_text, trim_text, trimmed,
};

verus! {

/// The purpose a cookie is taken to serve.
#[derive(Clone, Copy, Debug, PartialEq, Eq, Structural)]
pub enum CookieCategory {
    Essential,
    Analytics,
    Marketing,
    Social,
    Unknown,
}

/// The number of rows of the cookie-name table.
pub const COOKIE_RULE_COUNT: usize = 36;

/// Row `k` of the cookie-name table: a name fragment and the category it
/// signals. Rows are tried in this order and the first fragment found wins.
pub open spec fn cookie_rule(k: int) -> (Seq<char>, CookieCategory) {
    if k == 0 {
        ("session"@, CookieCategory::Essential)
    } else if k == 1 {
        ("csrf"@, CookieCategory::Essential)
    } else if k == 2 {
        ("xsrf"@, CookieCategory::Essential)
    } else if k == 3 {
        ("auth"@, CookieCategory::Essential)
    } else if k == 4 {
        ("login"@, CookieCategory::Essential)
    } else if k == 5 {
        ("token"@, CookieCategory::Essential)
    } else if k == 6 {
        ("cart"@, CookieCategory::Essential)
    } else if k == 7 {
        ("consent"@, CookieCategory::Essential)
    } else if k == 8 {
        ("_ga"@, CookieCategory::Analytics)
    } else if k == 9 {
        ("_gid"@, CookieCategory::Analytics)
    } else if k == 10 {
        ("_gat"@, CookieCategory::Analytics)
    } else if k == 11 {
        ("_utm"@, CookieCategory::Analytics)
    } else if k == 12 {
        ("amplitude"@, CookieCategory::Analytics)
    } else if k == 13 {
        ("mixpanel"@, CookieCategory::Analytics)
    } else if k == 14 {
        ("mp_"@, CookieCategory::Analytics)
    } else if k == 15 {
        ("ajs_"@, CookieCategory::Analytics)
    } else if k == 16 {
        ("hubspot"@, CookieCategory::Analytics)
    } else if k == 17 {
        ("_hj"@, CookieCategory::Analytics)
    } else if k == 18 {
        ("_clck"@, CookieCategory::Analytics)
    } else if k == 19 {
        ("_clsk"@, CookieCategory::Analytics)
    } else if k == 20 {
        ("_fbp"@, CookieCategory::Marketing)
    } else if k == 21 {
        ("_fbc"@, CookieCategory::Marketing)
    } else if k == 22 {
        ("fr"@, CookieCategory::Marketing)
    } else if k == 23 {
        ("ads"@, CookieCategory::Marketing)
    } else if k == 24 {
        ("_gcl"@, CookieCategory::Marketing)
    } else if k == 25 {
        ("gclid"@, CookieCategory::Marketing)
    } else if k == 26 {
        ("IDE"@, CookieCategory::Marketing)
    } else if k == 27 {
        ("NID"@, CookieCategory::Marketing)
    } else if k == 28 {
        ("__gads"@, CookieCategory::Marketing)
    } else if k == 29 {
        ("_pin_"@, CookieCategory::Marketing)
    } else if k == 30 {
        ("li_"@, CookieCategory::Marketing)
    } else if k == 31 {
        ("bcookie"@, CookieCategory::Marketing)
    } else if k == 32 {
        ("facebook"@, CookieCategory::Social)
    } else if k == 33 {
        ("twitter"@, CookieCategory::Social)
    } else if k == 34 {
        ("linkedin"@, CookieCategory::Social)
    } else if k == 35 {
        ("instagram"@, CookieCategory::Social)
    } else {
        (Seq::<char>::empty(), CookieCategory::Unknown)
    }
}

/// Row `k` of the cookie-name table.
fn cookie_rule_at(k: usize) -> (r: (&'static str, CookieCategory))
    requires
        k < COOKIE_RULE_COUNT,
    ensures
        r.0@ == cookie_rule(k as int).0,
        r.1 == cookie_rule(k as int).1,
{
    match k {
        0 => ("session", CookieCategory::Essential),
        1 => ("csrf", CookieCategory::Essential),
        2 => ("xsrf", CookieCategory::Essential),
        3 => ("auth", CookieCategory::Essential),
        4 => ("login", CookieCategory::Essential),
        5 => ("token", CookieCategory::Essential),
        6 => ("cart", CookieCategory::Essential),
        7 => ("consent", CookieCategory::Essential),
        8 => ("_ga", CookieCategory::Analytics),
        9 => ("_gid", CookieCategory::Analytics),
        10 => ("_gat", CookieCategory::Analytics),
        11 => ("_utm", CookieCategory::Analytics),
        12 => ("amplitude", CookieCategory::Analytics),
        13 => ("mixpanel", CookieCategory::Analytics),
        14 => ("mp_", CookieCategory::Analytics),
        15 => ("ajs_", CookieCategory::Analytics),
        16 => ("hubspot", CookieCategory::Analytics),
        17 => ("_hj", CookieCategory::Analytics),
        18 => ("_clck", CookieCategory::Analytics),
        19 => ("_clsk", CookieCategory::Analytics),
        20 => ("_fbp", CookieCategory::Marketing),
        21 => ("_fbc", CookieCategory::Marketing),
        22 => ("fr", CookieCategory::Marketing),
        23 => ("ads", CookieCategory::Marketing),
        24 => ("_gcl", CookieCategory::Marketing),
        25 => ("gclid", CookieCategory::Marketing),
        26 => ("IDE", CookieCategory::Marketing),
        27 => ("NID", CookieCategory::Marketing),
        28 => ("__gads", CookieCategory::Marketing),
        29 => ("_pin_", CookieCategory::Marketing),
        30 => ("li_", CookieCategory::Marketing),
        31 => ("bcookie", CookieCategory::Marketing),
        32 => ("facebook", CookieCategory::Social),
        33 => ("twitter", CookieCategory::Social),
        34 => ("linkedin", CookieCategory::Social),
        35 => ("instagram", CookieCategory::Social),
        _ => ("", CookieCategory::Unknown),
    }
}

/// The category of a lower-case cookie name, trying the table from row `k` on.
pub open spec fn category_from(name: Seq<char>, k: int) -> CookieCategory
    decreases COOKIE_RULE_COUNT - k,
{
    if k < 0 || k >= COOKIE_RULE_COUNT {
        CookieCategory::Unknown
    } else if has_infix(name, cookie_rule(k).0) {
        cookie_rule(k).1
    } else {
        category_from(name, k + 1)
    }
}

/// The category of a lower-case cookie name: that of the first table row
/// whose fragment it contains, `Unknown` when none does.
pub open spec fn category_of(name: Seq<char>) -> CookieCategory {
    category_from(name, 0)
}

impl CookieCategory {
    /// The display name of the category.
    pub open spec fn name_spec(self) -> Seq<char> {
        match self {
            CookieCategory::Essential => "Essential"@,
            CookieCategory::Analytics => "Analytics"@,
            CookieCategory::Marketing => "Marketing"@,
            CookieCategory::Social => "Social"@,
            CookieCategory::Unknown => "Unknown"@,
        }
    }

    /// The display name of the category.
    pub fn as_str(&self) -> (r: &'static str)
        ensures
            r@ == self.name_spec(),
    {
        match self {
            CookieCategory::Essential => "Essential",
            CookieCategory::Analytics => "Analytics",
            CookieCategory::Marketing => "Marketing",
            CookieCategory::Social => "Social",
            CookieCategory::Unknown => "Unknown",
        }
    }
}

/// The category of a cookie name that is already in lower case.
pub fn categorize_lowered(name: &str) -> (r: CookieCategory)
    ensures
        r == category_of(name@),
{
    let cs = chars_of(name);
    let mut k: usize = 0;
    while k < COOKIE_RULE_COUNT
        invariant
            cs@ == name@,
            k <= COOKIE_RULE_COUNT,
            category_of(name@) == category_from(name@, k as int),
        decreases COOKIE_RULE_COUNT - k,
    {
        let (fragment, category) = cookie_rule_at(k);
        let fc = chars_of(fragment);
        if seq_has_infix(&cs, &fc) {
            return category;
        }
        k = k + 1;
    }
    CookieCategory::Unknown
}

/// The category of a cookie name, matched in lower case.
pub fn categorize_cookie(name: &str) -> (r: CookieCategory)
    ensures
        r == category_of(lower_of(name@)),
{
    let lowered = lowercase(name);
    categorize_lowered(lowered.as_str())
}

/// A cookie as one `Set-Cookie` header value describes it.
#[derive(Debug)]
pub struct CookieInfo {
    pub name: String,
    pub domain: Option<String>,
    pub secure: bool,
    pub http_only: bool,
    pub same_site: Option<String>,
    pub category: CookieCategory,
}

/// What a [`CookieInfo`] holds, as character sequences.
pub ghost struct CookieView {
    pub name: Seq<char>,
    pub domain: Option<Seq<char>>,
    pub secure: bool,
    pub http_only: bool,
    pub same_site: Option<Seq<char>>,
    pub category: CookieCategory,
}

impl View for CookieInfo {
    type V = CookieView;

    open spec fn view(&self) -> CookieView {
        CookieView {
            name: self.name@,
            domain: match self.domain {
                Some(d) => Some(d@),
                None => None,
            },
            secure: self.secure,
            http_only: self.http_only,
            same_site: match self.same_site {
                Some(v) => Some(v@),
                None => None,
            },
            category: self.category,
        }
    }
}

/// One attribute of a `Set-Cookie` value, read from its trimmed lower-case text.
#[derive(Debug)]
pub enum CookieAttribute {
    Domain(String),
    Secure,
    HttpOnly,
    SameSite(String),
    Other,
}

/// The attribute-name prefix that introduces a domain.
pub open spec fn domain_key() -> Seq<char> {
    "domain="@
}

/// The attribute-name prefix that introduces a same-site policy.
pub open spec fn same_site_key() -> Seq<char> {
    "samesite="@
}

/// What `seg` (trimmed and in lower case) does to a cookie: a `domain=` prefix
/// sets the domain to the rest, `secure` and `httponly` set their flags, a
/// `samesite=` prefix sets the same-site policy to the rest; anything else
/// leaves it as it is.
pub open spec fn apply_attribute(c: CookieView, seg: Seq<char>) -> CookieView {
    if has_prefix(seg, domain_key()) {
        CookieView { domain: Some(seg.subrange(domain_key().len() as int, seg.len() as int)), ..c }
    } else if seg == "secure"@ {
        CookieView { secure: true, ..c }
    } else if seg == "httponly"@ {
        CookieView { http_only: true, ..c }
    } else if has_prefix(seg, same_site_key()) {
        CookieView {
            same_site: Some(seg.subrange(same_site_key().len() as int, seg.len() as int)),
            ..c
        }
    } else {
        c
    }
}

/// Applies the attribute segments in order, each trimmed and put in lower case.
pub open spec fn apply_segments(c: CookieView, segs: Seq<Seq<char>>) -> CookieView
    decreases segs.len(),
{
    if segs.len() == 0 {
        c
    } else {
        apply_attribute(apply_segments(c, segs.drop_last()), lower_of(trimmed(segs.last())))
    }
}

/// The cookie name in a `Set-Cookie` value: its first `;`-separated piece up
/// to the first `=`, trimmed.
pub open spec fn cookie_name_of(s: Seq<char>) -> Seq<char> {
    trimmed(split_at_sep(split_at_sep(s, ';')[0], '=')[0])
}

/// The cookie that a `Set-Cookie` value describes.
pub open spec fn cookie_of(s: Seq<char>) -> CookieView {
    let name = cookie_name_of(s);
    let start = CookieView {
        name,
        domain: None,
        secure: false,
        http_only: false,
        same_site: None,
        category: category_of(lower_of(name)),
    };
    apply_segments(start, split_at_sep(s, ';').drop_first())
}

/// Reads one attribute segment that is already trimmed and in lower case.
pub fn parse_attribute(seg: &str) -> (r: CookieAttribute)
    ensures
        has_prefix(seg@, domain_key()) ==> (r matches CookieAttribute::Domain(d) && d@
            == seg@.subrange(domain_key().len() as int, seg@.len() as int)),
        !has_prefix(seg@, domain_key()) && seg@ == "secure"@ ==> r is Secure,
        !has_prefix(seg@, domain_key()) && seg@ != "secure"@ && seg@ == "httponly"@ ==> r is HttpOnly,
        !has_prefix(seg@, domain_key()) && seg@ != "secure"@ && seg@ != "httponly"@ && has_prefix(
            seg@,
            same_site_key(),
        ) ==> (r matches CookieAttribute::SameSite(v) && v@ == seg@.subrange(
            same_site_key().len() as int,
            seg@.len() as int,
        )),
        !has_prefix(seg@, domain_key()) && seg@ != "secure"@ && seg@ != "httponly"@ && !has_prefix(
            seg@,
            same_site_key(),
        ) ==> r is Other,
{
    let n = seg.unicode_len();
    let domain = "domain=";
    let same_site = "samesite=";
    proof {
        reveal_strlit("domain=");
        reveal_strlit("samesite=");
    }
    if starts_with_text(seg, domain) {
        CookieAttribute::Domain(seg.substring_char(7, n).to_string())
    } else if same_text(seg, "secure") {
        CookieAttribute::Secure
    } else if same_text(seg, "httponly") {
        CookieAttribute::HttpOnly
    } else if starts_with_text(seg, same_site) {
        CookieAttribute::SameSite(seg.substring_char(9, n).to_string())
    } else {
        CookieAttribute::Other
    }
}

/// Reads one raw `Set-Cookie` header value. Never fails: pieces it does not
/// recognise are passed over.
pub fn parse_cookie(cookie_str: &str) -> (r: CookieInfo)
    ensures
        r@ == cookie_of(cookie_str@),
{
    let parts = split_text(cookie_str, ';');
    let head = split_text(parts[0], '=');
    let name_str = trim_text(head[0]);
    let name = name_str.to_string();
    let category = categorize_cookie(name_str);
    let mut domain: Option<String> = None;
    let mut secure = false;
    let mut http_only = false;
    let mut same_site: Option<String> = None;
    let ghost segs = split_at_sep(cookie_str@, ';').drop_first();
    let ghost start = CookieView {
        name: name@,
        domain: None,
        secure: false,
        http_only: false,
        same_site: None,
        category,
    };
    let mut i: usize = 1;
    while i < parts.len()
        invariant
            1 <= i <= parts@.len(),
            parts@.map_values(|p: &str| p@) == split_at_sep(cookie_str@, ';'),
            segs == split_at_sep(cookie_str@, ';').drop_first(),
            (CookieInfo { name: name, domain, secure, http_only, same_site, category })@
                == apply_segments(start, segs.subrange(0, i - 1)),
        decreases parts.len() - i,
    {
        let seg = lowercase(trim_text(parts[i]));
        assert(segs.subrange(0, i as int).drop_last() =~= segs.subrange(0, i - 1));
        assert(segs.subrange(0, i as int).last() == parts@[i as int]@);
        match parse_attribute(seg.as_str()) {
            CookieAttribute::Domain(d) => domain = Some(d),
            CookieAttribute::Secure => secure = true,
            CookieAttribute::HttpOnly => http_only = true,
            CookieAttribute::SameSite(v) => same_site = Some(v),
            CookieAttribute::Other => {},
        }
        i = i + 1;
    }
    assert(segs.subrange(0, i - 1) =~= segs);
    CookieInfo { name, domain, secure, http_only, same_site, category }
}

} // verus!
