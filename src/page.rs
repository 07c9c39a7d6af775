//! Analysis of one fetched page: its cookies, the trackers its markup
//! references, and the outside domains it draws on.

use vstd::prelude::*;

use crate::cookie::{cookie_of, parse_cookie, CookieInfo};
use crate::text::{has_prefix, starts_with_text};
use crate::tracker::{
    lemma_each_tracker_reported_once, note_urls, scan_texts, tracker_info, tracker_rule,
    url_accepts, url_domain, url_domain_of, TrackerInfo, TrackerScan, TRACKER_RULE_COUNT,
};

verus! {

/// The values of attribute `attr` on the elements of the HTML document `html`
/// that the CSS selector `selector` picks, in the order in which scraper's
/// tree holds the elements.
pub uninterp spec fn selected_attrs(html: Seq<char>, selector: Seq<char>, attr: Seq<char>) -> Seq<
    Option<Seq<char>>,
>;

/// Relies on `scraper::Html::parse_document`, `scraper::Selector::parse`,
/// `scraper::Html::select` and `scraper::ElementRef::attr`: the attribute
/// values of the selected elements, in the order of the tree. A selector that does
/// not parse selects nothing.
#[verifier::external_body]
fn select_attrs(html: &str, selector: &str, attr: &str) -> (r: Vec<Option<String>>)
    ensures
        r.deep_view() == selected_attrs(html@, selector@, attr@),
{
    let document = scraper::Html::parse_document(html);
    let mut values = Vec::new();
    if let Ok(sel) = scraper::Selector::parse(selector) {
        for element in document.select(&sel) {
            values.push(element.attr(attr).map(String::from));
        }
    }
    values
}

/// The inner HTML of the elements of the HTML document `html` that the CSS
/// selector `selector` picks, in document order.
pub uninterp spec fn selected_inner_html(html: Seq<char>, selector: Seq<char>) -> Seq<Seq<char>>;

/// Relies on `scraper::Html::parse_document`, `scraper::Selector::parse`,
/// `scraper::Html::select` and `scraper::ElementRef::inner_html`: the inner
/// HTML of the selected elements, in the order of the tree. With scraper's
/// `deterministic` feature, attributes are written in source order. A selector that does
/// not parse selects nothing.
#[verifier::external_body]
fn select_inner_html(html: &str, selector: &str) -> (r: Vec<String>)
    ensures
        r.deep_view() == selected_inner_html(html@, selector@),
{
    let document = scraper::Html::parse_document(html);
    let mut contents = Vec::new();
    if let Ok(sel) = scraper::Selector::parse(selector) {
        for element in document.select(&sel) {
            contents.push(element.inner_html());
        }
    }
    contents
}

/// The values that are present, in order.
pub open spec fn present(v: Seq<Option<Seq<char>>>) -> Seq<Seq<char>>
    decreases v.len(),
{
    if v.len() == 0 {
        Seq::empty()
    } else {
        match v.last() {
            Some(x) => present(v.drop_last()).push(x),
            None => present(v.drop_last()),
        }
    }
}

/// The texts checked against the tracker table, in the order they are
/// checked: script sources, inline scripts, image sources, frame sources,
/// link targets. Missing attribute values are passed over.
pub open spec fn resource_texts(
    scripts: Seq<Option<Seq<char>>>,
    inline: Seq<Seq<char>>,
    images: Seq<Option<Seq<char>>>,
    frames: Seq<Option<Seq<char>>>,
    links: Seq<Option<Seq<char>>>,
) -> Seq<Seq<char>> {
    present(scripts) + inline + present(images) + present(frames) + present(links)
}

/// The URLs whose domains are checked, in order: script, image and frame
/// sources, then link targets.
pub open spec fn resource_urls(
    scripts: Seq<Option<Seq<char>>>,
    images: Seq<Option<Seq<char>>>,
    frames: Seq<Option<Seq<char>>>,
    links: Seq<Option<Seq<char>>>,
) -> Seq<Seq<char>> {
    present(scripts) + present(images) + present(frames) + present(links)
}

/// The texts of a page checked against the tracker table.
pub open spec fn tracker_texts(html: Seq<char>) -> Seq<Seq<char>> {
    resource_texts(
        selected_attrs(html, "script[src]"@, "src"@),
        selected_inner_html(html, "script"@),
        selected_attrs(html, "img[src]"@, "src"@),
        selected_attrs(html, "iframe[src]"@, "src"@),
        selected_attrs(html, "link[href]"@, "href"@),
    )
}

/// The tracker rows a page reveals, in order of discovery.
pub open spec fn page_hits(html: Seq<char>) -> Seq<usize> {
    scan_texts(Seq::empty(), tracker_texts(html))
}

/// The third-party domains of a page whose own domain is `base`, in order of
/// discovery.
pub open spec fn page_domains(html: Seq<char>, base: Seq<char>) -> Seq<Seq<char>> {
    note_urls(
        Seq::empty(),
        resource_urls(
            selected_attrs(html, "script[src]"@, "src"@),
            selected_attrs(html, "img[src]"@, "src"@),
            selected_attrs(html, "iframe[src]"@, "src"@),
            selected_attrs(html, "link[href]"@, "href"@),
        ),
        base,
    )
}

proof fn lemma_scan_texts_append(h: Seq<usize>, a: Seq<Seq<char>>, b: Seq<Seq<char>>)
    ensures
        scan_texts(h, a + b) == scan_texts(scan_texts(h, a), b),
    decreases b.len(),
{
    if b.len() == 0 {
        assert(a + b =~= a);
    } else {
        assert((a + b).drop_last() =~= a + b.drop_last());
        lemma_scan_texts_append(h, a, b.drop_last());
    }
}

proof fn lemma_note_urls_append(
    s: Seq<Seq<char>>,
    a: Seq<Seq<char>>,
    b: Seq<Seq<char>>,
    base: Seq<char>,
)
    ensures
        note_urls(s, a + b, base) == note_urls(note_urls(s, a, base), b, base),
    decreases b.len(),
{
    if b.len() == 0 {
        assert(a + b =~= a);
    } else {
        assert((a + b).drop_last() =~= a + b.drop_last());
        lemma_note_urls_append(s, a, b.drop_last(), base);
    }
}

/// Checks each present URL of `urls`: its domain, and its text against the
/// tracker table.
fn scan_urls(
    scan: &mut TrackerScan,
    urls: &Vec<Option<String>>,
    base: &str,
)
    requires
        old(scan).wf(),
    ensures
        final(scan).wf(),
        final(scan).hits@ == scan_texts(old(scan).hits@, present(urls.deep_view())),
        final(scan).domains() == note_urls(old(scan).domains(), present(urls.deep_view()), base@),
{
    let ghost h0 = scan.hits@;
    let ghost d0 = scan.domains();
    let mut i: usize = 0;
    while i < urls.len()
        invariant
            i <= urls@.len(),
            scan.wf(),
            h0 == old(scan).hits@,
            d0 == old(scan).domains(),
            scan.hits@ == scan_texts(h0, present(urls.deep_view().subrange(0, i as int))),
            scan.domains() == note_urls(d0, present(urls.deep_view().subrange(0, i as int)), base@),
        decreases urls@.len() - i,
    {
        let ghost before = urls.deep_view().subrange(0, i as int);
        let ghost after = urls.deep_view().subrange(0, i + 1);
        assert(after.drop_last() =~= before);
        match &urls[i] {
            Some(u) => {
                assert(present(after) == present(before).push(u@));
                assert(present(after).drop_last() =~= present(before));
                scan.check_url_for_trackers(u.as_str(), base);
            },
            None => {
                assert(present(after) == present(before));
            },
        }
        i = i + 1;
    }
    assert(urls.deep_view().subrange(0, i as int) =~= urls.deep_view());
}

/// Checks the text of each inline script against the tracker table.
fn scan_contents(scan: &mut TrackerScan, contents: &Vec<String>)
    requires
        old(scan).wf(),
    ensures
        final(scan).wf(),
        final(scan).hits@ == scan_texts(old(scan).hits@, contents.deep_view()),
        final(scan).domains() == old(scan).domains(),
{
    let ghost h0 = scan.hits@;
    let mut i: usize = 0;
    while i < contents.len()
        invariant
            i <= contents@.len(),
            scan.wf(),
            h0 == old(scan).hits@,
            scan.hits@ == scan_texts(h0, contents.deep_view().subrange(0, i as int)),
            scan.domains() == old(scan).domains(),
        decreases contents@.len() - i,
    {
        assert(contents.deep_view().subrange(0, i + 1).drop_last() =~= contents.deep_view().subrange(
            0,
            i as int,
        ));
        scan.check_content_for_trackers(contents[i].as_str());
        i = i + 1;
    }
    assert(contents.deep_view().subrange(0, i as int) =~= contents.deep_view());
}

/// The report of each table row in `hits`, in order.
fn trackers_of(hits: &Vec<usize>) -> (r: Vec<TrackerInfo>)
    requires
        forall|i: int| 0 <= i < hits@.len() ==> hits@[i] < TRACKER_RULE_COUNT,
    ensures
        r@.len() == hits@.len(),
        forall|i: int| 0 <= i < hits@.len() ==> #[trigger] r@[i].row() == tracker_rule(
            hits@[i] as int,
        ),
{
    let mut r: Vec<TrackerInfo> = Vec::new();
    let mut i: usize = 0;
    while i < hits.len()
        invariant
            i <= hits@.len(),
            r@.len() == i,
            forall|k: int| 0 <= k < hits@.len() ==> hits@[k] < TRACKER_RULE_COUNT,
            forall|k: int| 0 <= k < i ==> #[trigger] r@[k].row() == tracker_rule(hits@[k] as int),
        decreases hits@.len() - i,
    {
        r.push(tracker_info(hits[i]));
        i = i + 1;
    }
    r
}

/// Scans the resources of a page whose own domain is `base`: the sources of
/// its scripts, the texts of its inline scripts, the sources of its images
/// and frames, and the targets of its links. Returns the trackers they
/// reveal, each reported once in order of discovery, and the third-party
/// domains of the URLs, each once in order of discovery.
pub fn scan_resources(
    scripts: &Vec<Option<String>>,
    inline: &Vec<String>,
    images: &Vec<Option<String>>,
    frames: &Vec<Option<String>>,
    links: &Vec<Option<String>>,
    base: &str,
) -> (r: (Vec<TrackerInfo>, Vec<String>))
    ensures
        ({
            let hits = scan_texts(
                Seq::empty(),
                resource_texts(
                    scripts.deep_view(),
                    inline.deep_view(),
                    images.deep_view(),
                    frames.deep_view(),
                    links.deep_view(),
                ),
            );
            &&& hits.no_duplicates()
            &&& r.0@.len() == hits.len()
            &&& forall|i: int|
                0 <= i < r.0@.len() ==> #[trigger] r.0@[i].row() == tracker_rule(hits[i] as int)
        }),
        r.1.deep_view() == note_urls(
            Seq::empty(),
            resource_urls(scripts.deep_view(), images.deep_view(), frames.deep_view(), links.deep_view()),
            base@,
        ),
{
    let mut scan = TrackerScan::new();
    scan_urls(&mut scan, scripts, base);
    scan_contents(&mut scan, inline);
    scan_urls(&mut scan, images, base);
    scan_urls(&mut scan, frames, base);
    scan_urls(&mut scan, links, base);
    let ghost e = Seq::<usize>::empty();
    let ghost s = present(scripts.deep_view());
    let ghost c = inline.deep_view();
    let ghost m = present(images.deep_view());
    let ghost f = present(frames.deep_view());
    let ghost l = present(links.deep_view());
    proof {
        lemma_scan_texts_append(e, s + c + m + f, l);
        lemma_scan_texts_append(e, s + c + m, f);
        lemma_scan_texts_append(e, s + c, m);
        lemma_scan_texts_append(e, s, c);
        let d = Seq::<Seq<char>>::empty();
        lemma_note_urls_append(d, s + m + f, l, base@);
        lemma_note_urls_append(d, s + m, f, base@);
        lemma_note_urls_append(d, s, m, base@);
        lemma_each_tracker_reported_once(s + c + m + f + l);
    }
    let trackers = trackers_of(&scan.hits);
    proof {
        assert(scan.third_party.deep_view() =~= scan.domains());
    }
    (trackers, scan.third_party)
}

/// Scans the markup of a page whose own domain is `base_domain`: the trackers
/// it reveals, each reported once in order of discovery, and the third-party
/// domains of its resources, each once in order of discovery.
pub fn detect_trackers(html: &str, base_domain: &str) -> (r: (Vec<TrackerInfo>, Vec<String>))
    ensures
        page_hits(html@).no_duplicates(),
        r.0@.len() == page_hits(html@).len(),
        forall|i: int| 0 <= i < r.0@.len() ==> #[trigger] r.0@[i].row() == tracker_rule(
            page_hits(html@)[i] as int,
        ),
        r.1.deep_view() == page_domains(html@, base_domain@),
{
    let scripts = select_attrs(html, "script[src]", "src");
    let inline = select_inner_html(html, "script");
    let images = select_attrs(html, "img[src]", "src");
    let frames = select_attrs(html, "iframe[src]", "src");
    let links = select_attrs(html, "link[href]", "href");
    scan_resources(&scripts, &inline, &images, &frames, &links, base_domain)
}

/// Why an analysis could not be made.
#[derive(Debug, PartialEq, Eq)]
pub enum AnalysisError {
    /// The target is no absolute URL, even with a scheme in front.
    InvalidUrl,
    /// The page could not be fetched; the cause, in words.
    Transport(String),
}

/// What one analysis found on a page.
#[derive(Debug)]
pub struct AnalysisResult {
    pub url: String,
    pub cookies: Vec<CookieInfo>,
    pub trackers: Vec<TrackerInfo>,
    pub third_party_requests: Vec<String>,
}

/// The domain of a page's own host; empty where the host is no domain.
pub open spec fn base_domain_of(url: Seq<char>) -> Seq<char> {
    match url_domain_of(url) {
        Some(d) => d,
        None => Seq::empty(),
    }
}

impl AnalysisResult {
    /// This is the analysis of the page at `url` that was served with the
    /// `Set-Cookie` values `headers` and the markup `html`: one cookie per
    /// header in order, the trackers the markup reveals, and its third-party
    /// domains.
    pub open spec fn describes(
        &self,
        url: Seq<char>,
        headers: Seq<Seq<char>>,
        html: Seq<char>,
    ) -> bool {
        &&& self.url@ == url
        &&& self.cookies@.len() == headers.len()
        &&& forall|i: int| 0 <= i < headers.len() ==> #[trigger] self.cookies@[i]@ == cookie_of(headers[i])
        &&& self.trackers@.len() == page_hits(html).len()
        &&& forall|i: int|
            0 <= i < self.trackers@.len() ==> #[trigger] self.trackers@[i].row() == tracker_rule(
                page_hits(html)[i] as int,
            )
        &&& self.third_party_requests.deep_view() == page_domains(html, base_domain_of(url))
    }
}

/// The domain of the page at `url_str`, which must be an absolute URL; empty
/// where its host is no domain.
pub fn page_domain(url_str: &str) -> (r: Result<String, AnalysisError>)
    ensures
        r is Ok <==> url_accepts(url_str@),
        !url_accepts(url_str@) ==> r == Err::<String, AnalysisError>(AnalysisError::InvalidUrl),
        r is Ok ==> r->Ok_0@ == base_domain_of(url_str@),
{
    match url_domain(url_str) {
        Ok(Some(d)) => Ok(d),
        Ok(None) => Ok(String::new()),
        Err(_) => Err(AnalysisError::InvalidUrl),
    }
}

/// Reads each `Set-Cookie` value, in order.
pub fn parse_cookies(headers: &Vec<String>) -> (r: Vec<CookieInfo>)
    ensures
        r@.len() == headers@.len(),
        forall|i: int| 0 <= i < headers@.len() ==> #[trigger] r@[i]@ == cookie_of(headers@[i]@),
{
    let mut r: Vec<CookieInfo> = Vec::new();
    let mut i: usize = 0;
    while i < headers.len()
        invariant
            i <= headers@.len(),
            r@.len() == i,
            forall|k: int| 0 <= k < i ==> #[trigger] r@[k]@ == cookie_of(headers@[k]@),
        decreases headers@.len() - i,
    {
        r.push(parse_cookie(headers[i].as_str()));
        i = i + 1;
    }
    r
}

/// Analyses the page at `url_str`, served with the `Set-Cookie` values
/// `headers` and the markup `html`. Fails only where `url_str` is no
/// absolute URL.
pub fn analyze_page(url_str: &str, headers: &Vec<String>, html: &str) -> (r: Result<
    AnalysisResult,
    AnalysisError,
>)
    ensures
        r is Ok <==> url_accepts(url_str@),
        !url_accepts(url_str@) ==> r matches Err(AnalysisError::InvalidUrl),
        r is Ok ==> r->Ok_0.describes(url_str@, headers.deep_view(), html@),
{
    let base = match page_domain(url_str) {
        Ok(d) => d,
        Err(e) => return Err(e),
    };
    let cookies = parse_cookies(headers);
    let (trackers, third_party_requests) = detect_trackers(html, base.as_str());
    let r = AnalysisResult { url: url_str.to_string(), cookies, trackers, third_party_requests };
    assert(r.describes(url_str@, headers.deep_view(), html@));
    Ok(r)
}

/// The target as given where it names `http://` or `https://`, else the
/// target after `https://`.
pub open spec fn normalized_url(input: Seq<char>) -> Seq<char> {
    if has_prefix(input, "http://"@) || has_prefix(input, "https://"@) {
        input
    } else {
        "https://"@ + input
    }
}

/// Puts `https://` in front of a target that names no scheme.
pub fn normalize_url(input: &str) -> (r: String)
    ensures
        r@ == normalized_url(input@),
{
    if starts_with_text(input, "http://") || starts_with_text(input, "https://") {
        input.to_string()
    } else {
        "https://".to_string().concat(input)
    }
}

} // verus!
