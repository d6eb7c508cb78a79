//! Content extraction from fetched documents.
//!
//! The extractor takes raw HTML and an ordered, comma-separated chain of
//! selector candidates. The first candidate that matches at least one
//! element wins; the text nodes of that element are then trimmed, filtered
//! and joined, and the result must pass a minimum-quality gate before it
//! counts as content. HTML parsing and selector matching are scraper's
//! work, named and trusted at the boundary; everything around them is
//! verified.

use vstd::prelude::*;
use vstd::string::*;
use crate::config::ScrapingConfig;
use crate::error::{ScrapperError, ScrapperResult};
use crate::types::{ChapterRecord, spec_url_has_scheme};
use crate::strutil::{
    concat3, contains_substring, spec_contains, spec_dec, spec_trim, trim_str, usize_to_string,
};

verus! {

/// Minimum number of characters extracted content must reach; shorter
/// output is treated as an extraction failure, not as degraded content.
pub const MIN_CONTENT_CHARS: usize = 100;

/// Whether scraper's selector parser accepts the expression. The result
/// depends on the expression alone.
pub uninterp spec fn selector_parses(selector: Seq<char>) -> bool;

/// What scraper yields for one selector candidate applied to one document:
/// the text nodes, in document order, of the first element matching the
/// candidate, or nothing when the candidate does not parse or matches no
/// element. The result depends on the document and the candidate alone.
pub uninterp spec fn selected_text(html: Seq<char>, selector: Seq<char>) -> Option<Seq<Seq<char>>>;

/// Relies on scraper::Selector::parse: accepts or rejects a selector
/// expression, deterministically in the expression.
#[verifier::external_body]
fn selector_parse_ok(selector: &str) -> (r: bool)
    ensures
        r == selector_parses(selector@),
{
    scraper::Selector::parse(selector).is_ok()
}

/// Relies on scraper::Html::parse_document, Html::select and
/// ElementRef::text: parses the document, finds the first element matching
/// the candidate, and hands back its text nodes in document order; nothing
/// when the candidate does not parse or matches no element.
#[verifier::external_body]
fn try_select(html: &str, selector: &str) -> (r: Option<Vec<String>>)
    ensures
        r is Some <==> selected_text(html@, selector@) is Some,
        r matches Some(v) ==> selected_text(html@, selector@) matches Some(nodes)
            && v.deep_view() == nodes,
{
    let document = scraper::Html::parse_document(html);
    match scraper::Selector::parse(selector) {
        Ok(sel) => document
            .select(&sel)
            .next()
            .map(|element| element.text().map(|t| t.to_string()).collect()),
        Err(_) => None,
    }
}

/// Splits a selector chain at commas and trims each piece, carrying the
/// piece collected so far.
pub open spec fn split_rec(s: Seq<char>, cur: Seq<char>) -> Seq<Seq<char>>
    decreases s.len(),
{
    if s.len() == 0 {
        seq![spec_trim(cur)]
    } else if s[0] == ',' {
        seq![spec_trim(cur)] + split_rec(s.drop_first(), Seq::empty())
    } else {
        split_rec(s.drop_first(), cur.push(s[0]))
    }
}

/// The candidate list of a selector chain: the comma-separated pieces, each
/// trimmed, in order.
pub open spec fn spec_split_chain(s: Seq<char>) -> Seq<Seq<char>> {
    split_rec(s, Seq::empty())
}

/// Splits a selector chain at commas and trims each candidate.
pub fn split_chain(s: &str) -> (v: Vec<String>)
    ensures
        v.deep_view() == spec_split_chain(s@),
        v@.len() > 0,
{
    let len = s.unicode_len();
    let mut v: Vec<String> = Vec::new();
    let mut start: usize = 0;
    let mut i: usize = 0;
    proof {
        assert(s@.skip(0) =~= s@);
        assert(s@.subrange(0, 0) =~= Seq::<char>::empty());
        assert(v.deep_view() =~= Seq::<Seq<char>>::empty());
        assert(Seq::<Seq<char>>::empty() + split_rec(s@, Seq::empty()) =~= split_rec(
            s@,
            Seq::empty(),
        ));
    }
    while i < len
        invariant
            start <= i <= len,
            len == s@.len(),
            spec_split_chain(s@) == v.deep_view() + split_rec(
                s@.skip(i as int),
                s@.subrange(start as int, i as int),
            ),
        decreases len - i,
    {
        let ghost old_dv = v.deep_view();
        let ghost rest = s@.skip(i as int);
        let ghost cur = s@.subrange(start as int, i as int);
        if s.get_char(i) == ',' {
            let piece = trim_str(s.substring_char(start, i));
            let owned = piece.to_owned();
            v.push(owned);
            proof {
                assert(rest[0] == ',');
                assert(rest.drop_first() =~= s@.skip(i + 1));
                assert(s@.subrange(i + 1, i + 1) =~= Seq::<char>::empty());
                assert(v.deep_view() =~= old_dv.push(spec_trim(cur)));
                assert(old_dv + (seq![spec_trim(cur)] + split_rec(s@.skip(i + 1), Seq::empty()))
                    =~= old_dv.push(spec_trim(cur)) + split_rec(s@.skip(i + 1), Seq::empty()));
            }
            start = i + 1;
        } else {
            proof {
                assert(rest[0] == s@[i as int]);
                assert(rest.drop_first() =~= s@.skip(i + 1));
                assert(cur.push(s@[i as int]) =~= s@.subrange(start as int, i + 1));
            }
        }
        i = i + 1;
    }
    let piece = trim_str(s.substring_char(start, len));
    let owned = piece.to_owned();
    let ghost old_dv = v.deep_view();
    v.push(owned);
    proof {
        assert(s@.skip(len as int).len() == 0);
        assert(v.deep_view() =~= old_dv.push(spec_trim(s@.subrange(start as int, len as int))));
        assert(old_dv + seq![spec_trim(s@.subrange(start as int, len as int))] =~= v.deep_view());
    }
    v
}

/// The winning candidate's text nodes: the first candidate in the chain
/// for which scraper finds a matching element, earlier candidates taking
/// precedence.
pub open spec fn spec_first_match(html: Seq<char>, cands: Seq<Seq<char>>) -> Option<Seq<Seq<char>>>
    decreases cands.len(),
{
    if cands.len() == 0 {
        None
    } else {
        match selected_text(html, cands[0]) {
            Some(nodes) => Some(nodes),
            None => spec_first_match(html, cands.drop_first()),
        }
    }
}

proof fn lemma_first_match_skip(html: Seq<char>, cands: Seq<Seq<char>>, i: int)
    requires
        0 <= i <= cands.len(),
        forall|k: int| 0 <= k < i ==> selected_text(html, #[trigger] cands[k]) is None,
    ensures
        spec_first_match(html, cands) == spec_first_match(html, cands.skip(i)),
    decreases i,
{
    if i == 0 {
        assert(cands.skip(0) =~= cands);
    } else {
        assert(selected_text(html, cands[0]) is None);
        let t = cands.drop_first();
        assert forall|k: int| 0 <= k < i - 1 implies selected_text(html, #[trigger] t[k]) is None by {
            assert(t[k] == cands[k + 1]);
        }
        lemma_first_match_skip(html, t, i - 1);
        assert(t.skip(i - 1) =~= cands.skip(i));
    }
}

/// Selector fallback: in a two-candidate chain whose first candidate
/// matches nothing, the outcome is exactly the second candidate's; in
/// particular extraction succeeds through the second candidate when it
/// matches, and fails when neither does.
pub proof fn lemma_selector_fallback(html: Seq<char>, a: Seq<char>, b: Seq<char>)
    requires
        selected_text(html, a) is None,
    ensures
        spec_first_match(html, seq![a, b]) == selected_text(html, b),
{
    let cands = seq![a, b];
    assert(cands[0] == a);
    assert(cands.drop_first() =~= seq![b]);
    assert(seq![b][0] == b);
    if selected_text(html, b) is Some {
        assert(spec_first_match(html, seq![b]) == selected_text(html, b));
    } else {
        assert(seq![b].drop_first() =~= Seq::<Seq<char>>::empty());
        assert(spec_first_match(html, Seq::<Seq<char>>::empty()) is None);
        assert(spec_first_match(html, seq![b]) is None);
    }
    assert(spec_first_match(html, cands) == spec_first_match(html, seq![b]));
}

/// Whether the text contains any of the filter patterns as a substring.
pub open spec fn spec_any_filter(text: Seq<char>, filters: Seq<Seq<char>>) -> bool {
    exists|k: int| 0 <= k < filters.len() && spec_contains(text, #[trigger] filters[k])
}

/// What one text node adds to the output: its trimmed text followed by a
/// newline, or nothing when the trimmed text is empty or matches a filter
/// pattern.
pub open spec fn node_contribution(node: Seq<char>, filters: Seq<Seq<char>>) -> Seq<char> {
    let t = spec_trim(node);
    if t.len() > 0 && !spec_any_filter(t, filters) {
        t + seq!['\n']
    } else {
        Seq::empty()
    }
}

/// The output accumulated from the first `j` text nodes, the first `skip`
/// of them dropped unconditionally.
pub open spec fn assembled_prefix(
    nodes: Seq<Seq<char>>,
    skip: int,
    filters: Seq<Seq<char>>,
    j: int,
) -> Seq<char>
    decreases j,
{
    if j <= 0 {
        Seq::empty()
    } else {
        assembled_prefix(nodes, skip, filters, j - 1) + (if j - 1 >= skip {
            node_contribution(nodes[j - 1], filters)
        } else {
            Seq::empty()
        })
    }
}

/// The output assembled from all text nodes.
pub open spec fn spec_assembled(nodes: Seq<Seq<char>>, skip: int, filters: Seq<Seq<char>>) -> Seq<
    char,
> {
    assembled_prefix(nodes, skip, filters, nodes.len() as int)
}

/// The extraction outcome for one document: the assembled content, or the
/// message of the extraction failure. Extraction is a function of the
/// selector chain, the skip count, the filter patterns and the document
/// text, and of nothing else.
pub open spec fn spec_extract(
    selector: Seq<char>,
    skip: int,
    filters: Seq<Seq<char>>,
    html: Seq<char>,
) -> Result<Seq<char>, Seq<char>> {
    if html.len() == 0 {
        Err("HTML content is empty"@)
    } else {
        match spec_first_match(html, spec_split_chain(selector)) {
            None => Err("No element found matching any of the selectors: "@ + selector),
            Some(nodes) => if nodes.len() == 0 {
                Err("No text content found in the selected element"@)
            } else {
                let content = spec_assembled(nodes, skip, filters);
                if spec_trim(content).len() == 0 {
                    Err(
                        "No valid content found after filtering and processing. Skipped "@
                            + spec_dec(skip as nat) + " text nodes, applied "@ + spec_dec(
                            filters.len(),
                        ) + " filters."@,
                    )
                } else if content.len() < MIN_CONTENT_CHARS {
                    Err(
                        "Extracted content is too short ("@ + spec_dec(content.len())
                            + " characters). This might indicate a parsing error."@,
                    )
                } else {
                    Ok(content)
                }
            },
        }
    }
}

#[derive(Debug)]
pub struct ContentExtractor {
    pub selector: String,
    pub skip_nodes: usize,
    pub filter_patterns: Vec<String>,
}

impl ContentExtractor {
    /// Builds an extractor from a configuration, after checking that
    /// scraper accepts the configured selector chain.
    pub fn new(config: &ScrapingConfig) -> (r: ScrapperResult<Self>)
        ensures
            selector_parses(config.selector@) ==> (r matches Ok(e) && e.selector@
                == config.selector@ && e.skip_nodes == config.skip_text_nodes
                && e.filter_patterns.deep_view() == config.filter_patterns.deep_view()),
            !selector_parses(config.selector@) ==> (r matches Err(e)
                && e matches ScrapperError::Validation { field, message } && field@ == "selector"@
                && message@ == "Invalid CSS selector: '"@ + config.selector@ + "'"@),
    {
        if !selector_parse_ok(config.selector.as_str()) {
            let message = concat3("Invalid CSS selector: '", config.selector.as_str(), "'");
            return Err(ScrapperError::validation("selector", message.as_str()));
        }
        Ok(
            Self {
                selector: config.selector.clone(),
                skip_nodes: config.skip_text_nodes,
                filter_patterns: config.filter_patterns.clone(),
            },
        )
    }

    /// Whether a trimmed text node is dropped because it contains one of
    /// the configured filter patterns.
    pub fn should_filter_text(&self, text: &str) -> (r: bool)
        ensures
            r == spec_any_filter(text@, self.filter_patterns.deep_view()),
    {
        let mut k: usize = 0;
        while k < self.filter_patterns.len()
            invariant
                k <= self.filter_patterns@.len(),
                forall|j: int|
                    0 <= j < k ==> !spec_contains(text@, #[trigger] self.filter_patterns.deep_view()[j]),
            decreases self.filter_patterns@.len() - k,
        {
            if contains_substring(text, self.filter_patterns[k].as_str()) {
                assert(spec_contains(text@, self.filter_patterns.deep_view()[k as int]));
                return true;
            }
            k = k + 1;
        }
        false
    }

    /// Extract the content region from one fetched document.
    ///
    /// The first candidate of the comma-separated selector chain that
    /// matches an element wins. Its text nodes are walked in document
    /// order: the first `skip_nodes` of them are dropped, the rest are
    /// trimmed, dropped when empty or matching a filter pattern, and joined
    /// with newlines. Output that trims to nothing or falls short of
    /// `MIN_CONTENT_CHARS` characters is an extraction failure.
    pub fn extract_content(&self, html: &str, url: &str) -> (r: ScrapperResult<String>)
        ensures
            match spec_extract(
                self.selector@,
                self.skip_nodes as int,
                self.filter_patterns.deep_view(),
                html@,
            ) {
                Ok(c) => r matches Ok(content) && content@ == c,
                Err(m) => r matches Err(e) && e matches ScrapperError::ContentExtraction {
                    url: u,
                    message,
                } && u@ == url@ && message@ == m,
            },
    {
        if html.is_empty() {
            return Err(ScrapperError::content_extraction(url, "HTML content is empty"));
        }
        let candidates = split_chain(self.selector.as_str());
        let ghost cand_views = candidates.deep_view();
        let mut found: Option<Vec<String>> = None;
        let mut c: usize = 0;
        while c < candidates.len() && found.is_none()
            invariant
                c <= candidates@.len(),
                cand_views == candidates.deep_view(),
                found is None ==> forall|k: int|
                    0 <= k < c ==> selected_text(html@, #[trigger] cand_views[k]) is None,
                match found {
                    Some(nodes) => c > 0 && c <= candidates@.len() && (selected_text(
                        html@,
                        cand_views[c - 1],
                    ) matches Some(sel) && nodes.deep_view() == sel) && (forall|k: int|
                        0 <= k < c - 1 ==> selected_text(html@, #[trigger] cand_views[k]) is None),
                    None => true,
                },
            decreases candidates@.len() - c,
        {
            let sel = try_select(html, candidates[c].as_str());
            found = sel;
            c = c + 1;
        }
        let nodes = match found {
            Some(nodes) => {
                proof {
                    lemma_first_match_skip(html@, cand_views, c - 1);
                    assert(cand_views.skip(c - 1)[0] == cand_views[c - 1]);
                    assert(spec_first_match(html@, cand_views) == selected_text(
                        html@,
                        cand_views[c - 1],
                    ));
                }
                nodes
            },
            None => {
                proof {
                    lemma_first_match_skip(html@, cand_views, c as int);
                    assert(cand_views.skip(c as int).len() == 0);
                }
                let message = crate::strutil::concat2(
                    "No element found matching any of the selectors: ",
                    self.selector.as_str(),
                );
                return Err(ScrapperError::content_extraction(url, message.as_str()));
            },
        };
        let ghost node_views = nodes.deep_view();
        if nodes.len() == 0 {
            return Err(
                ScrapperError::content_extraction(
                    url,
                    "No text content found in the selected element",
                ),
            );
        }
        let ghost filters = self.filter_patterns.deep_view();
        let ghost skip = self.skip_nodes as int;
        let mut content = String::new();
        let mut i: usize = 0;
        while i < nodes.len()
            invariant
                i <= nodes@.len(),
                node_views == nodes.deep_view(),
                filters == self.filter_patterns.deep_view(),
                skip == self.skip_nodes as int,
                content@ == assembled_prefix(node_views, skip, filters, i as int),
            decreases nodes@.len() - i,
        {
            let ghost before = content@;
            if i >= self.skip_nodes {
                let text = trim_str(nodes[i].as_str());
                if !text.is_empty() && !self.should_filter_text(text) {
                    content.append(text);
                    content.append("\n");
                    proof {
                        reveal_strlit("\n");
                        assert("\n"@ =~= seq!['\n']);
                        assert(content@ =~= before + node_contribution(node_views[i as int], filters));
                    }
                } else {
                    proof {
                        assert(node_contribution(node_views[i as int], filters) =~= Seq::<
                            char,
                        >::empty());
                        assert(content@ =~= before + node_contribution(
                            node_views[i as int],
                            filters,
                        ));
                    }
                }
            } else {
                proof {
                    assert(content@ =~= before + Seq::<char>::empty());
                }
            }
            i = i + 1;
        }
        assert(content@ == spec_assembled(node_views, skip, filters));
        let trimmed = trim_str(content.as_str());
        if trimmed.is_empty() {
            let skip_text = usize_to_string(self.skip_nodes);
            let filter_count = usize_to_string(self.filter_patterns.len());
            let head = concat3(
                "No valid content found after filtering and processing. Skipped ",
                skip_text.as_str(),
                " text nodes, applied ",
            );
            let message = concat3(head.as_str(), filter_count.as_str(), " filters.");
            return Err(ScrapperError::content_extraction(url, message.as_str()));
        }
        let content_chars = content.as_str().unicode_len();
        if content_chars < MIN_CONTENT_CHARS {
            let count_text = usize_to_string(content_chars);
            let message = concat3(
                "Extracted content is too short (",
                count_text.as_str(),
                " characters). This might indicate a parsing error.",
            );
            return Err(ScrapperError::content_extraction(url, message.as_str()));
        }
        Ok(content)
    }
}

/// What one fetch attempt observed at the network boundary, as plain
/// values: a timeout, a connection-level failure, some other send failure,
/// a failure while reading the response body, or a response with its
/// status and body text.
pub enum FetchOutcome {
    Timeout,
    ConnectionFailed,
    SendFailed { status: Option<u16>, detail: String },
    BodyReadFailed { detail: String },
    Response { status: u16, body: String },
}

/// The first 200 characters of a response body, quoted in HTTP error
/// messages.
pub open spec fn spec_body_snippet(body: Seq<char>) -> Seq<char> {
    if body.len() > 200 {
        body.take(200)
    } else {
        body
    }
}

/// Turns one fetch attempt into the outcome of the whole
/// fetch-extract step: classifies the failure modes of the network
/// boundary, rejects non-success statuses, and otherwise extracts content
/// from the body. The caller persists the returned content.
pub fn process_fetch_outcome(
    extractor: &ContentExtractor,
    record: &ChapterRecord,
    fetch: FetchOutcome,
    request_timeout_secs: u64,
) -> (r: ScrapperResult<String>)
    ensures
        !spec_url_has_scheme(record.url@) ==> (r matches Err(e)
            && e matches ScrapperError::Validation { field, message } && field@ == "url"@
            && message@ == "Invalid URL format: '"@ + record.url@
            + "'. URLs must start with http:// or https://"@),
        spec_url_has_scheme(record.url@) ==> match fetch {
            FetchOutcome::Timeout => r matches Err(e) && (e matches ScrapperError::Http {
                url: u,
                status,
                message,
            } && u@ == record.url@ && status is None && message@ == "Request timeout after "@
                + spec_dec(request_timeout_secs as nat) + " seconds"@),
            FetchOutcome::ConnectionFailed => r matches Err(e) && (e matches ScrapperError::Http {
                url: u,
                status,
                message,
            } && u@ == record.url@ && status is None && message@
                == "Connection failed - check your internet connection and the URL"@),
            FetchOutcome::SendFailed { status: st, detail } => r matches Err(e) && (
            e matches ScrapperError::Http { url: u, status, message } && u@ == record.url@
                && status == st && message@ == "Request failed: "@ + detail@),
            FetchOutcome::BodyReadFailed { detail } => r matches Err(e) && (
            e matches ScrapperError::WebScraping { url: u, message } && u@ == record.url@
                && message@ == "Failed to read response body: "@ + detail@),
            FetchOutcome::Response { status: st, body } => if !(200 <= st && st <= 299) {
                r matches Err(e) && (e matches ScrapperError::Http { url: u, status, message }
                    && u@ == record.url@ && status == Some(st) && message@ == "HTTP "@ + spec_dec(
                    st as nat,
                ) + " - "@ + spec_body_snippet(body@))
            } else {
                match spec_extract(
                    extractor.selector@,
                    extractor.skip_nodes as int,
                    extractor.filter_patterns.deep_view(),
                    body@,
                ) {
                    Ok(c) => r matches Ok(content) && content@ == c,
                    Err(m) => r matches Err(e) && (
                    e matches ScrapperError::ContentExtraction { url: u, message } && u@
                        == record.url@ && message@ == m),
                }
            },
        },
{
    let url = record.url.as_str();
    if !crate::strutil::str_starts_with(url, "http://") && !crate::strutil::str_starts_with(
        url,
        "https://",
    ) {
        let message = concat3(
            "Invalid URL format: '",
            url,
            "'. URLs must start with http:// or https://",
        );
        return Err(ScrapperError::validation("url", message.as_str()));
    }
    match fetch {
        FetchOutcome::Timeout => {
            let seconds = crate::strutil::u64_to_string(request_timeout_secs);
            let message = concat3("Request timeout after ", seconds.as_str(), " seconds");
            Err(ScrapperError::http(url, None, message.as_str()))
        },
        FetchOutcome::ConnectionFailed => Err(
            ScrapperError::http(
                url,
                None,
                "Connection failed - check your internet connection and the URL",
            ),
        ),
        FetchOutcome::SendFailed { status, detail } => {
            let message = crate::strutil::concat2("Request failed: ", detail.as_str());
            Err(ScrapperError::http(url, status, message.as_str()))
        },
        FetchOutcome::BodyReadFailed { detail } => {
            let message = crate::strutil::concat2(
                "Failed to read response body: ",
                detail.as_str(),
            );
            Err(ScrapperError::web_scraping(url, message.as_str()))
        },
        FetchOutcome::Response { status, body } => {
            if !(200 <= status && status <= 299) {
                let body_str = body.as_str();
                let body_len = body_str.unicode_len();
                let upto = if body_len > 200 {
                    200
                } else {
                    body_len
                };
                let snippet = body_str.substring_char(0, upto);
                proof {
                    assert(snippet@ =~= spec_body_snippet(body@));
                }
                let code = crate::strutil::u64_to_string(status as u64);
                let head = crate::strutil::concat2("HTTP ", code.as_str());
                let message = concat3(head.as_str(), " - ", snippet);
                Err(ScrapperError::http(url, Some(status), message.as_str()))
            } else {
                extractor.extract_content(body.as_str(), url)
            }
        },
    }
}

/// Content returned to the caller is never blank: when extraction
/// succeeds, the content is non-empty after trimming and reaches the
/// minimum quality length.
pub proof fn lemma_extracted_content_nonempty(
    selector: Seq<char>,
    skip: int,
    filters: Seq<Seq<char>>,
    html: Seq<char>,
)
    ensures
        spec_extract(selector, skip, filters, html) matches Ok(content) ==> spec_trim(
            content,
        ).len() > 0 && content.len() >= MIN_CONTENT_CHARS,
{
}

/// Extraction determinism: the extraction outcome is a function of the
/// document and the extractor's configuration, so two extraction results
/// from identical inputs are identical.
pub proof fn lemma_extract_deterministic(
    selector: Seq<char>,
    skip: int,
    filters: Seq<Seq<char>>,
    html: Seq<char>,
    r1: Result<Seq<char>, Seq<char>>,
    r2: Result<Seq<char>, Seq<char>>,
)
    requires
        r1 == spec_extract(selector, skip, filters, html),
        r2 == spec_extract(selector, skip, filters, html),
    ensures
        r1 == r2,
{
}

} // verus!
