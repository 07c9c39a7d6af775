//! Matching page resources against known tracking services, and collecting
//! the outside domains a page draws on.

use vstd::prelude::*;

use crate::text::{contains_text, has_infix, lower_of, lowercase, same_text};

verus! {

/// Whether the regular expression `pattern`, compiled to ignore case, finds a
/// match somewhere in `text`.
pub uninterp spec fn regex_finds(pattern: Seq<char>, text: Seq<char>) -> bool;

/// Relies on `regex::RegexBuilder` (`new`, `case_insensitive`, `build`) and
/// `regex::Regex::is_match`: compiles `pattern` with case-insensitive
/// matching and reports whether it matches anywhere in `text`. A pattern that
/// does not compile matches nothing.
#[verifier::external_body]
fn pattern_found(pattern: &str, text: &str) -> (r: bool)
    ensures
        r == regex_finds(pattern@, text@),
{
    match regex::RegexBuilder::new(pattern).case_insensitive(true).build() {
        Ok(re) => re.is_match(text),
        Err(_) => false,
    }
}

/// The error `url::Url::parse` reports; it is passed along, never inspected.
#[verifier::external_type_specification]
#[verifier::external_body]
pub struct ExParseError(url::ParseError);

/// Whether `url::Url::parse` accepts the text as an absolute URL.
pub uninterp spec fn url_accepts(s: Seq<char>) -> bool;

/// The domain of the host of the URL that `url::Url::parse` reads from the
/// text; `None` where the host is an IP address or there is none.
pub uninterp spec fn url_domain_of(s: Seq<char>) -> Option<Seq<char>>;

/// Relies on `url::Url::parse`, and on `url::Url::domain` of the URL it
/// returns: an error where the text is no absolute URL, else the domain of
/// its host, if the host is a domain.
#[verifier::external_body]
pub(crate) fn url_domain(s: &str) -> (r: Result<Option<String>, url::ParseError>)
    ensures
        r is Ok <==> url_accepts(s@),
        r is Ok ==> r->Ok_0.deep_view() == url_domain_of(s@),
{
    match url::Url::parse(s) {
        Ok(u) => Ok(u.domain().map(String::from)),
        Err(e) => Err(e),
    }
}

/// The number of rows of the tracker-signature table.
pub const TRACKER_RULE_COUNT: usize = 46;

/// Row `k` of the tracker-signature table: a pattern (a regular expression,
/// most often a plain word), the kind of service it reveals, and a
/// description of that service.
pub open spec fn tracker_rule(k: int) -> (Seq<char>, Seq<char>, Seq<char>) {
    if k == 0 {
        ("google-analytics"@, "Analytics"@, "Google Analytics tracking"@)
    } else if k == 1 {
        ("googletagmanager"@, "Analytics"@, "Google Tag Manager"@)
    } else if k == 2 {
        ("gtag"@, "Analytics"@, "Google Global Site Tag"@)
    } else if k == 3 {
        ("analytics"@, "Analytics"@, "Generic analytics"@)
    } else if k == 4 {
        ("hotjar"@, "Analytics"@, "Hotjar behavior analytics"@)
    } else if k == 5 {
        ("mixpanel"@, "Analytics"@, "Mixpanel analytics"@)
    } else if k == 6 {
        ("segment"@, "Analytics"@, "Segment analytics"@)
    } else if k == 7 {
        ("amplitude"@, "Analytics"@, "Amplitude analytics"@)
    } else if k == 8 {
        ("plausible"@, "Analytics"@, "Plausible analytics"@)
    } else if k == 9 {
        ("matomo"@, "Analytics"@, "Matomo analytics"@)
    } else if k == 10 {
        ("heap"@, "Analytics"@, "Heap analytics"@)
    } else if k == 11 {
        ("fullstory"@, "Analytics"@, "FullStory session replay"@)
    } else if k == 12 {
        ("clarity"@, "Analytics"@, "Microsoft Clarity"@)
    } else if k == 13 {
        ("doubleclick"@, "Marketing"@, "Google DoubleClick advertising"@)
    } else if k == 14 {
        ("facebook.*pixel"@, "Marketing"@, "Facebook Pixel"@)
    } else if k == 15 {
        ("fbevents"@, "Marketing"@, "Facebook Events"@)
    } else if k == 16 {
        ("ads"@, "Marketing"@, "Advertising scripts"@)
    } else if k == 17 {
        ("adsense"@, "Marketing"@, "Google AdSense"@)
    } else if k == 18 {
        ("adwords"@, "Marketing"@, "Google AdWords"@)
    } else if k == 19 {
        ("criteo"@, "Marketing"@, "Criteo retargeting"@)
    } else if k == 20 {
        ("taboola"@, "Marketing"@, "Taboola content ads"@)
    } else if k == 21 {
        ("outbrain"@, "Marketing"@, "Outbrain content ads"@)
    } else if k == 22 {
        ("pinterest"@, "Marketing"@, "Pinterest tracking"@)
    } else if k == 23 {
        ("linkedin.*insight"@, "Marketing"@, "LinkedIn Insight Tag"@)
    } else if k == 24 {
        ("twitter.*pixel"@, "Marketing"@, "Twitter Pixel"@)
    } else if k == 25 {
        ("tiktok"@, "Marketing"@, "TikTok tracking"@)
    } else if k == 26 {
        ("snapchat"@, "Marketing"@, "Snapchat tracking"@)
    } else if k == 27 {
        ("facebook.com"@, "Social"@, "Facebook integration"@)
    } else if k == 28 {
        ("twitter.com"@, "Social"@, "Twitter integration"@)
    } else if k == 29 {
        ("linkedin.com"@, "Social"@, "LinkedIn integration"@)
    } else if k == 30 {
        ("instagram.com"@, "Social"@, "Instagram integration"@)
    } else if k == 31 {
        ("youtube.com"@, "Social"@, "YouTube embeds"@)
    } else if k == 32 {
        ("vimeo.com"@, "Social"@, "Vimeo embeds"@)
    } else if k == 33 {
        ("recaptcha"@, "Security"@, "Google reCAPTCHA"@)
    } else if k == 34 {
        ("hcaptcha"@, "Security"@, "hCaptcha"@)
    } else if k == 35 {
        ("cloudflare"@, "CDN/Security"@, "Cloudflare services"@)
    } else if k == 36 {
        ("sentry"@, "Error Tracking"@, "Sentry error tracking"@)
    } else if k == 37 {
        ("bugsnag"@, "Error Tracking"@, "Bugsnag error tracking"@)
    } else if k == 38 {
        ("intercom"@, "Customer Support"@, "Intercom chat"@)
    } else if k == 39 {
        ("drift"@, "Customer Support"@, "Drift chat"@)
    } else if k == 40 {
        ("zendesk"@, "Customer Support"@, "Zendesk support"@)
    } else if k == 41 {
        ("hubspot"@, "Marketing/CRM"@, "HubSpot tracking"@)
    } else if k == 42 {
        ("marketo"@, "Marketing"@, "Marketo tracking"@)
    } else if k == 43 {
        ("pardot"@, "Marketing"@, "Pardot tracking"@)
    } else if k == 44 {
        ("optimizely"@, "A/B Testing"@, "Optimizely experiments"@)
    } else if k == 45 {
        ("vwo"@, "A/B Testing"@, "VWO experiments"@)
    } else {
        (Seq::<char>::empty(), Seq::<char>::empty(), Seq::<char>::empty())
    }
}

/// Row `k` of the tracker-signature table.
fn tracker_rule_at(k: usize) -> (r: (&'static str, &'static str, &'static str))
    requires
        k < TRACKER_RULE_COUNT,
    ensures
        r.0@ == tracker_rule(k as int).0,
        r.1@ == tracker_rule(k as int).1,
        r.2@ == tracker_rule(k as int).2,
{
    match k {
        0 => ("google-analytics", "Analytics", "Google Analytics tracking"),
        1 => ("googletagmanager", "Analytics", "Google Tag Manager"),
        2 => ("gtag", "Analytics", "Google Global Site Tag"),
        3 => ("analytics", "Analytics", "Generic analytics"),
        4 => ("hotjar", "Analytics", "Hotjar behavior analytics"),
        5 => ("mixpanel", "Analytics", "Mixpanel analytics"),
        6 => ("segment", "Analytics", "Segment analytics"),
        7 => ("amplitude", "Analytics", "Amplitude analytics"),
        8 => ("plausible", "Analytics", "Plausible analytics"),
        9 => ("matomo", "Analytics", "Matomo analytics"),
        10 => ("heap", "Analytics", "Heap analytics"),
        11 => ("fullstory", "Analytics", "FullStory session replay"),
        12 => ("clarity", "Analytics", "Microsoft Clarity"),
        13 => ("doubleclick", "Marketing", "Google DoubleClick advertising"),
        14 => ("facebook.*pixel", "Marketing", "Facebook Pixel"),
        15 => ("fbevents", "Marketing", "Facebook Events"),
        16 => ("ads", "Marketing", "Advertising scripts"),
        17 => ("adsense", "Marketing", "Google AdSense"),
        18 => ("adwords", "Marketing", "Google AdWords"),
        19 => ("criteo", "Marketing", "Criteo retargeting"),
        20 => ("taboola", "Marketing", "Taboola content ads"),
        21 => ("outbrain", "Marketing", "Outbrain content ads"),
        22 => ("pinterest", "Marketing", "Pinterest tracking"),
        23 => ("linkedin.*insight", "Marketing", "LinkedIn Insight Tag"),
        24 => ("twitter.*pixel", "Marketing", "Twitter Pixel"),
        25 => ("tiktok", "Marketing", "TikTok tracking"),
        26 => ("snapchat", "Marketing", "Snapchat tracking"),
        27 => ("facebook.com", "Social", "Facebook integration"),
        28 => ("twitter.com", "Social", "Twitter integration"),
        29 => ("linkedin.com", "Social", "LinkedIn integration"),
        30 => ("instagram.com", "Social", "Instagram integration"),
        31 => ("youtube.com", "Social", "YouTube embeds"),
        32 => ("vimeo.com", "Social", "Vimeo embeds"),
        33 => ("recaptcha", "Security", "Google reCAPTCHA"),
        34 => ("hcaptcha", "Security", "hCaptcha"),
        35 => ("cloudflare", "CDN/Security", "Cloudflare services"),
        36 => ("sentry", "Error Tracking", "Sentry error tracking"),
        37 => ("bugsnag", "Error Tracking", "Bugsnag error tracking"),
        38 => ("intercom", "Customer Support", "Intercom chat"),
        39 => ("drift", "Customer Support", "Drift chat"),
        40 => ("zendesk", "Customer Support", "Zendesk support"),
        41 => ("hubspot", "Marketing/CRM", "HubSpot tracking"),
        42 => ("marketo", "Marketing", "Marketo tracking"),
        43 => ("pardot", "Marketing", "Pardot tracking"),
        44 => ("optimizely", "A/B Testing", "Optimizely experiments"),
        45 => ("vwo", "A/B Testing", "VWO experiments"),
        _ => ("", "", ""),
    }
}

/// A tracking service found on a page.
#[derive(Debug)]
pub struct TrackerInfo {
    /// The signature pattern that matched.
    pub name: String,
    /// The kind of service.
    pub category: String,
    /// What the service is.
    pub description: String,
}

impl TrackerInfo {
    /// The table row this tracker reports: its pattern, kind and description.
    pub open spec fn row(&self) -> (Seq<char>, Seq<char>, Seq<char>) {
        (self.name@, self.category@, self.description@)
    }
}

/// The report of table row `k`.
pub fn tracker_info(k: usize) -> (r: TrackerInfo)
    requires
        k < TRACKER_RULE_COUNT,
    ensures
        r.row() == tracker_rule(k as int),
{
    let (name, category, description) = tracker_rule_at(k);
    TrackerInfo {
        name: name.to_string(),
        category: category.to_string(),
        description: description.to_string(),
    }
}

/// Which table rows match `text`, row by row.
pub open spec fn rows_matching(text: Seq<char>) -> Seq<bool> {
    Seq::new(TRACKER_RULE_COUNT as nat, |k: int| regex_finds(tracker_rule(k).0, text))
}

/// Adds to `hits`, in table order, each of the first `k` rows that `matched`
/// marks and `hits` does not hold yet.
pub open spec fn merge_flags(hits: Seq<usize>, matched: Seq<bool>, k: int) -> Seq<usize>
    decreases k,
{
    if k <= 0 {
        hits
    } else {
        let prev = merge_flags(hits, matched, k - 1);
        if matched[k - 1] && !prev.contains((k - 1) as usize) {
            prev.push((k - 1) as usize)
        } else {
            prev
        }
    }
}

/// The rows found after checking one more text, already in lower case.
pub open spec fn scan_text(hits: Seq<usize>, lowered: Seq<char>) -> Seq<usize> {
    merge_flags(hits, rows_matching(lowered), TRACKER_RULE_COUNT as int)
}

/// The rows found after checking each of `texts` in order; each text is
/// matched in lower case.
pub open spec fn scan_texts(hits: Seq<usize>, texts: Seq<Seq<char>>) -> Seq<usize>
    decreases texts.len(),
{
    if texts.len() == 0 {
        hits
    } else {
        scan_text(scan_texts(hits, texts.drop_last()), lower_of(texts.last()))
    }
}

proof fn lemma_push_contains(s: Seq<usize>, y: usize, x: usize)
    ensures
        s.push(y).contains(x) <==> (s.contains(x) || x == y),
{
    if s.contains(x) {
        let i = choose|i: int| 0 <= i < s.len() && s[i] == x;
        assert(s.push(y)[i] == x);
    }
    if x == y {
        assert(s.push(y)[s.len() as int] == x);
    }
    if s.push(y).contains(x) && x != y {
        let i = choose|i: int| 0 <= i < s.push(y).len() && s.push(y)[i] == x;
        assert(s[i] == x);
    }
}

proof fn lemma_merge_flags(hits: Seq<usize>, matched: Seq<bool>, k: int)
    requires
        hits.no_duplicates(),
        0 <= k <= matched.len() <= TRACKER_RULE_COUNT,
    ensures
        merge_flags(hits, matched, k).no_duplicates(),
        forall|x: usize|
            #![trigger merge_flags(hits, matched, k).contains(x)]
            merge_flags(hits, matched, k).contains(x) <==> (hits.contains(x) || (x < k
                && matched[x as int])),
    decreases k,
{
    if k > 0 {
        lemma_merge_flags(hits, matched, k - 1);
        let prev = merge_flags(hits, matched, k - 1);
        let y = (k - 1) as usize;
        if matched[k - 1] && !prev.contains(y) {
            assert forall|x: usize| #[trigger] prev.push(y).contains(x) <==> (hits.contains(x) || (x
                < k && matched[x as int])) by {
                lemma_push_contains(prev, y, x);
                assert(prev.contains(x) <==> (hits.contains(x) || (x < k - 1 && matched[x as int])));
                assert(y as int == k - 1);
            }
            assert forall|i: int, j: int|
                0 <= i < prev.push(y).len() && 0 <= j < prev.push(y).len() && i != j implies
                    prev.push(y)[i] != prev.push(y)[j] by {
                if i < prev.len() && j < prev.len() {
                    assert(prev[i] != prev[j]);
                } else if i < prev.len() {
                    assert(prev.contains(prev[i]));
                } else {
                    assert(prev.contains(prev[j]));
                }
            }
        } else {
            assert forall|x: usize| #[trigger] prev.contains(x) <==> (hits.contains(x) || (x < k
                && matched[x as int])) by {
                assert(prev.contains(x) <==> (hits.contains(x) || (x < k - 1 && matched[x as int])));
                if x == y && matched[k - 1] {
                    assert(prev.contains(y));
                }
            }
        }
    }
}

/// Whatever texts a scan checks, it reports each tracker row at most once,
/// and it reports a row exactly when the row's pattern matches one of the
/// texts in lower case.
pub proof fn lemma_each_tracker_reported_once(texts: Seq<Seq<char>>)
    ensures
        scan_texts(Seq::empty(), texts).no_duplicates(),
        forall|k: int|
            0 <= k < TRACKER_RULE_COUNT ==> (#[trigger] scan_texts(Seq::empty(), texts).contains(
                k as usize,
            ) <==> exists|j: int|
                0 <= j < texts.len() && regex_finds(tracker_rule(k).0, lower_of(#[trigger] texts[j]))),
    decreases texts.len(),
{
    if texts.len() > 0 {
        let rest = texts.drop_last();
        lemma_each_tracker_reported_once(rest);
        let prev = scan_texts(Seq::empty(), rest);
        let matched = rows_matching(lower_of(texts.last()));
        lemma_merge_flags(prev, matched, TRACKER_RULE_COUNT as int);
        assert forall|k: int| 0 <= k < TRACKER_RULE_COUNT implies (#[trigger] scan_texts(
            Seq::empty(),
            texts,
        ).contains(k as usize) <==> exists|j: int|
            0 <= j < texts.len() && regex_finds(tracker_rule(k).0, lower_of(#[trigger] texts[j]))) by {
            assert(merge_flags(prev, matched, TRACKER_RULE_COUNT as int).contains(k as usize) <==> (
            prev.contains(k as usize) || matched[k]));
            if exists|j: int|
                0 <= j < texts.len() && regex_finds(tracker_rule(k).0, lower_of(#[trigger] texts[j])) {
                let j = choose|j: int|
                    0 <= j < texts.len() && regex_finds(tracker_rule(k).0, lower_of(#[trigger] texts[j]));
                if j < rest.len() {
                    assert(rest[j] == texts[j]);
                } else {
                    assert(texts[j] == texts.last());
                }
            }
            if prev.contains(k as usize) {
                let j = choose|j: int|
                    0 <= j < rest.len() && regex_finds(tracker_rule(k).0, lower_of(#[trigger] rest[j]));
                assert(texts[j] == rest[j]);
            }
            if matched[k] {
                assert(texts[texts.len() - 1] == texts.last());
            }
        }
    }
}

/// Whether a resource's domain lies outside the page's own: neither contains
/// the other.
pub open spec fn third_party_spec(domain: Seq<char>, base: Seq<char>) -> bool {
    !has_infix(domain, base) && !has_infix(base, domain)
}

/// The domain set after meeting `domain`: it is added when it is third-party
/// and not yet present.
pub open spec fn note_domain(seen: Seq<Seq<char>>, domain: Seq<char>, base: Seq<char>) -> Seq<
    Seq<char>,
> {
    if third_party_spec(domain, base) && !seen.contains(domain) {
        seen.push(domain)
    } else {
        seen
    }
}

/// The domain set after meeting the resource URL `url`; a URL that is not
/// absolute, or whose host is no domain, adds nothing.
pub open spec fn note_url(seen: Seq<Seq<char>>, url: Seq<char>, base: Seq<char>) -> Seq<Seq<char>> {
    if url_accepts(url) {
        match url_domain_of(url) {
            Some(d) => note_domain(seen, d, base),
            None => seen,
        }
    } else {
        seen
    }
}

/// The domain set after meeting each of `urls` in order.
pub open spec fn note_urls(seen: Seq<Seq<char>>, urls: Seq<Seq<char>>, base: Seq<char>) -> Seq<
    Seq<char>,
>
    decreases urls.len(),
{
    if urls.len() == 0 {
        seen
    } else {
        note_url(note_urls(seen, urls.drop_last(), base), urls.last(), base)
    }
}

/// Third-party status does not depend on which of the two domains is the
/// page's: a domain that contains the page's domain, or lies within it, is
/// never third-party.
pub proof fn lemma_third_party_symmetric(domain: Seq<char>, base: Seq<char>)
    ensures
        third_party_spec(domain, base) == third_party_spec(base, domain),
        has_infix(domain, base) || has_infix(base, domain) ==> !third_party_spec(domain, base),
{
}

/// Whether `domain` is third-party to a page whose own domain is `base`.
pub fn is_third_party(domain: &str, base: &str) -> (r: bool)
    ensures
        r == third_party_spec(domain@, base@),
{
    !contains_text(domain, base) && !contains_text(base, domain)
}

/// What one scan of a page has found so far: the tracker rows in order of
/// discovery, a flag per row, and the third-party domains in order of
/// discovery.
pub struct TrackerScan {
    pub hits: Vec<usize>,
    pub found: Vec<bool>,
    pub third_party: Vec<String>,
}

impl TrackerScan {
    /// The third-party domains found so far.
    pub open spec fn domains(&self) -> Seq<Seq<char>> {
        self.third_party@.map_values(|d: String| d@)
    }

    /// Each row is found at most once, the flags agree with the rows found,
    /// and each domain is held once.
    pub open spec fn wf(&self) -> bool {
        &&& self.found@.len() == TRACKER_RULE_COUNT
        &&& forall|k: int|
            0 <= k < TRACKER_RULE_COUNT ==> (self.found@[k] <==> self.hits@.contains(k as usize))
        &&& forall|i: int| 0 <= i < self.hits@.len() ==> self.hits@[i] < TRACKER_RULE_COUNT
        &&& self.hits@.no_duplicates()
        &&& self.domains().no_duplicates()
    }

    /// A scan that has found nothing.
    pub fn new() -> (r: TrackerScan)
        ensures
            r.wf(),
            r.hits@ == Seq::<usize>::empty(),
            r.domains() == Seq::<Seq<char>>::empty(),
    {
        let mut found: Vec<bool> = Vec::new();
        let mut k: usize = 0;
        while k < TRACKER_RULE_COUNT
            invariant
                k <= TRACKER_RULE_COUNT,
                found@.len() == k,
                forall|j: int| 0 <= j < k ==> !found@[j],
            decreases TRACKER_RULE_COUNT - k,
        {
            found.push(false);
            k = k + 1;
        }
        let r = TrackerScan { hits: Vec::new(), found, third_party: Vec::new() };
        assert(r.domains() =~= Seq::<Seq<char>>::empty());
        r
    }

    /// Adds the rows that `matched` marks and that were not found before, in
    /// table order.
    pub fn merge_hits(&mut self, matched: &Vec<bool>)
        requires
            old(self).wf(),
            matched@.len() == TRACKER_RULE_COUNT,
        ensures
            final(self).wf(),
            final(self).hits@ == merge_flags(
                old(self).hits@,
                matched@,
                TRACKER_RULE_COUNT as int,
            ),
            final(self).third_party@ == old(self).third_party@,
    {
        let mut k: usize = 0;
        while k < TRACKER_RULE_COUNT
            invariant
                k <= TRACKER_RULE_COUNT,
                matched@.len() == TRACKER_RULE_COUNT,
                self.wf(),
                self.hits@ == merge_flags(old(self).hits@, matched@, k as int),
                self.third_party@ == old(self).third_party@,
            decreases TRACKER_RULE_COUNT - k,
        {
            if matched[k] && !self.found[k] {
                let ghost prev = self.hits@;
                let ghost prev_found = self.found@;
                self.hits.push(k);
                self.found.set(k, true);
                assert forall|j: int| 0 <= j < TRACKER_RULE_COUNT implies (self.found@[j]
                    <==> self.hits@.contains(j as usize)) by {
                    assert(self.hits@[prev.len() as int] == k);
                    if j != k {
                        assert(self.found@[j] == prev_found[j]);
                        assert(prev_found[j] <==> prev.contains(j as usize));
                        if self.hits@.contains(j as usize) {
                            let i = choose|i: int|
                                0 <= i < self.hits@.len() && self.hits@[i] == j as usize;
                            assert(prev[i] == j as usize);
                        }
                        if prev.contains(j as usize) {
                            let i = choose|i: int| 0 <= i < prev.len() && prev[i] == j as usize;
                            assert(self.hits@[i] == j as usize);
                        }
                    }
                }
                assert(self.hits@[prev.len() as int] == k);
            }
            k = k + 1;
        }
    }

    /// Adds `domain` to the third-party domains when it lies outside `base`
    /// and is not held yet.
    pub fn note_third_party(&mut self, domain: &str, base: &str)
        requires
            old(self).wf(),
        ensures
            final(self).wf(),
            final(self).hits@ == old(self).hits@,
            final(self).domains() == note_domain(old(self).domains(), domain@, base@),
    {
        if !is_third_party(domain, base) {
            return;
        }
        let mut i: usize = 0;
        while i < self.third_party.len()
            invariant
                i <= self.third_party@.len(),
                self.wf(),
                self.hits@ == old(self).hits@,
                self.third_party@ == old(self).third_party@,
                third_party_spec(domain@, base@),
                forall|j: int| 0 <= j < i ==> self.domains()[j] != domain@,
            decreases self.third_party@.len() - i,
        {
            if same_text(self.third_party[i].as_str(), domain) {
                assert(self.domains()[i as int] == domain@);
                return;
            }
            i = i + 1;
        }
        let ghost prev = self.domains();
        self.third_party.push(domain.to_string());
        assert(self.domains() =~= prev.push(domain@));
    }

    /// Checks one text, already in lower case, against every table row.
    fn record_text(&mut self, lowered: &str)
        requires
            old(self).wf(),
        ensures
            final(self).wf(),
            final(self).hits@ == scan_text(old(self).hits@, lowered@),
            final(self).third_party@ == old(self).third_party@,
    {
        let mut matched: Vec<bool> = Vec::new();
        let mut k: usize = 0;
        while k < TRACKER_RULE_COUNT
            invariant
                k <= TRACKER_RULE_COUNT,
                matched@ == rows_matching(lowered@).subrange(0, k as int),
            decreases TRACKER_RULE_COUNT - k,
        {
            let (pattern, _, _) = tracker_rule_at(k);
            matched.push(pattern_found(pattern, lowered));
            k = k + 1;
            assert(matched@ =~= rows_matching(lowered@).subrange(0, k as int));
        }
        assert(matched@ =~= rows_matching(lowered@));
        self.merge_hits(&matched);
    }

    /// Checks a resource URL: its domain joins the third-party domains where
    /// it lies outside `base`, and its text is matched against every row.
    pub fn check_url_for_trackers(&mut self, url_str: &str, base: &str)
        requires
            old(self).wf(),
        ensures
            final(self).wf(),
            final(self).hits@ == scan_text(old(self).hits@, lower_of(url_str@)),
            final(self).domains() == note_url(old(self).domains(), url_str@, base@),
    {
        self.check_url_domain(url_str, base);
        let lowered = lowercase(url_str);
        self.record_text(lowered.as_str());
    }

    /// Checks only the domain of a resource URL.
    pub fn check_url_domain(&mut self, url_str: &str, base: &str)
        requires
            old(self).wf(),
        ensures
            final(self).wf(),
            final(self).hits@ == old(self).hits@,
            final(self).domains() == note_url(old(self).domains(), url_str@, base@),
    {
        match url_domain(url_str) {
            Ok(Some(d)) => self.note_third_party(d.as_str(), base),
            _ => {},
        }
    }

    /// Checks the text of an inline script against every row.
    pub fn check_content_for_trackers(&mut self, content: &str)
        requires
            old(self).wf(),
        ensures
            final(self).wf(),
            final(self).hits@ == scan_text(old(self).hits@, lower_of(content@)),
            final(self).third_party@ == old(self).third_party@,
    {
        let lowered = lowercase(content);
        self.record_text(lowered.as_str());
    }
}

} // verus!
