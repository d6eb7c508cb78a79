use scrapper::config::ScrapingConfig;
use scrapper::error::ScrapperError;
use scrapper::types::ChapterRecord;
use scrapper::web_scraper::{ContentExtractor, FetchOutcome, process_fetch_outcome};

fn extractor(selector: &str, skip: usize, filters: Vec<&str>) -> ContentExtractor {
    let mut config = ScrapingConfig::default();
    config.selector = selector.to_string();
    config.skip_text_nodes = skip;
    config.filter_patterns = filters.into_iter().map(|f| f.to_string()).collect();
    ContentExtractor::new(&config).expect("selector must parse")
}

fn long_text(n: usize) -> String {
    let mut text = String::new();
    while text.len() < n {
        text.push('x');
    }
    text
}

#[test]
fn extract_simple_content() {
    let body = long_text(150);
    let html = format!("<html><body><div class=\"content\">{body}</div></body></html>");
    let ex = extractor(".content", 0, vec![]);
    let content = ex.extract_content(&html, "https://example.com").unwrap();
    assert_eq!(content, format!("{body}\n"));
}

#[test]
fn extract_is_deterministic() {
    let body = long_text(200);
    let html = format!("<html><body><main><p>{body}</p></main></body></html>");
    let ex = extractor("main", 0, vec![]);
    let first = ex.extract_content(&html, "https://example.com").unwrap();
    let second = ex.extract_content(&html, "https://example.com").unwrap();
    assert_eq!(first, second);
}

#[test]
fn selector_fallback_uses_second_candidate() {
    let body = long_text(150);
    let html = format!("<html><body><div class=\"content\">{body}</div></body></html>");
    let ex = extractor("article, .content", 0, vec![]);
    let content = ex.extract_content(&html, "https://example.com").unwrap();
    assert_eq!(content, format!("{body}\n"));
}

#[test]
fn no_selector_match_is_extraction_failure() {
    let html = "<html><body><div class=\"other\">text</div></body></html>";
    let ex = extractor("article, .content", 0, vec![]);
    let err = ex.extract_content(html, "https://example.com").unwrap_err();
    match err {
        ScrapperError::ContentExtraction { url, message } => {
            assert_eq!(url, "https://example.com");
            assert_eq!(
                message,
                "No element found matching any of the selectors: article, .content"
            );
        }
        other => panic!("expected a content extraction error, got {other:?}"),
    }
    assert!(!ex
        .extract_content(html, "https://example.com")
        .unwrap_err()
        .is_recoverable());
}

#[test]
fn short_content_fails_quality_gate() {
    let body = long_text(40);
    let html = format!("<html><body><div class=\"content\">{body}</div></body></html>");
    let ex = extractor(".content", 0, vec![]);
    let err = ex.extract_content(&html, "https://example.com").unwrap_err();
    match err {
        ScrapperError::ContentExtraction { message, .. } => {
            assert_eq!(
                message,
                "Extracted content is too short (41 characters). This might indicate a parsing error."
            );
        }
        other => panic!("expected a content extraction error, got {other:?}"),
    }
}

#[test]
fn empty_html_is_rejected() {
    let ex = extractor(".content", 0, vec![]);
    let err = ex.extract_content("", "https://example.com").unwrap_err();
    match err {
        ScrapperError::ContentExtraction { message, .. } => {
            assert_eq!(message, "HTML content is empty");
        }
        other => panic!("expected a content extraction error, got {other:?}"),
    }
}

#[test]
fn filtered_nodes_are_dropped() {
    let body = long_text(150);
    let html = format!(
        "<html><body><div class=\"content\"><p>{body}</p><p>Advertisement: buy things</p></div></body></html>"
    );
    let ex = extractor(".content", 0, vec!["Advertisement"]);
    let content = ex.extract_content(&html, "https://example.com").unwrap();
    assert_eq!(content, format!("{body}\n"));
}

#[test]
fn filter_matches_anywhere_in_node() {
    let body = long_text(150);
    let html = format!(
        "<html><body><div class=\"content\"><p>{body}</p><p>some embedded Advertisement text</p></div></body></html>"
    );
    let ex = extractor(".content", 0, vec!["Advertisement"]);
    let content = ex.extract_content(&html, "https://example.com").unwrap();
    assert_eq!(content, format!("{body}\n"));
}

#[test]
fn skip_count_drops_leading_nodes() {
    let body = long_text(150);
    let html = format!(
        "<html><body><div class=\"content\"><p>boilerplate lead-in</p><p>{body}</p></div></body></html>"
    );
    let ex = extractor(".content", 1, vec![]);
    let content = ex.extract_content(&html, "https://example.com").unwrap();
    assert_eq!(content, format!("{body}\n"));
}

#[test]
fn several_nodes_join_with_newlines() {
    let a = long_text(80);
    let b = long_text(90);
    let html = format!(
        "<html><body><main><p>{a}</p><p>{b}</p></main></body></html>"
    );
    let ex = extractor("main", 0, vec![]);
    let content = ex.extract_content(&html, "https://example.com").unwrap();
    assert_eq!(content, format!("{a}\n{b}\n"));
}

#[test]
fn invalid_selector_is_rejected_at_construction() {
    let mut config = ScrapingConfig::default();
    config.selector = "td[".to_string();
    let err = ContentExtractor::new(&config).unwrap_err();
    match err {
        ScrapperError::Validation { field, message } => {
            assert_eq!(field, "selector");
            assert_eq!(message, "Invalid CSS selector: 'td['");
        }
        other => panic!("expected a validation error, got {other:?}"),
    }
}

fn record(url: &str, key: &str) -> ChapterRecord {
    ChapterRecord::new(url.to_string(), key.to_string())
}

#[test]
fn fetch_timeout_becomes_recoverable_http_error() {
    let ex = extractor(".content", 0, vec![]);
    let err = process_fetch_outcome(&ex, &record("https://example.com/1", "1"), FetchOutcome::Timeout, 45)
        .unwrap_err();
    match &err {
        ScrapperError::Http { url, status, message } => {
            assert_eq!(url, "https://example.com/1");
            assert_eq!(*status, None);
            assert_eq!(message, "Request timeout after 45 seconds");
        }
        other => panic!("expected an HTTP error, got {other:?}"),
    }
    assert!(err.is_recoverable());
}

#[test]
fn fetch_status_error_carries_body_snippet() {
    let ex = extractor(".content", 0, vec![]);
    let fetch = FetchOutcome::Response {
        status: 404,
        body: "not here".to_string(),
    };
    let err = process_fetch_outcome(&ex, &record("https://example.com/2", "2"), fetch, 45)
        .unwrap_err();
    match &err {
        ScrapperError::Http { url, status, message } => {
            assert_eq!(url, "https://example.com/2");
            assert_eq!(*status, Some(404));
            assert_eq!(message, "HTTP 404 - not here");
        }
        other => panic!("expected an HTTP error, got {other:?}"),
    }
    assert!(!err.is_recoverable());
}

#[test]
fn fetch_rate_limit_is_recoverable() {
    let ex = extractor(".content", 0, vec![]);
    let fetch = FetchOutcome::Response {
        status: 429,
        body: "slow down".to_string(),
    };
    let err = process_fetch_outcome(&ex, &record("https://example.com/3", "3"), fetch, 45)
        .unwrap_err();
    assert!(err.is_recoverable());
}

#[test]
fn fetch_success_extracts_content() {
    let body = long_text(150);
    let html = format!("<html><body><div class=\"content\">{body}</div></body></html>");
    let ex = extractor(".content", 0, vec![]);
    let fetch = FetchOutcome::Response { status: 200, body: html };
    let content = process_fetch_outcome(&ex, &record("https://example.com/4", "4"), fetch, 45)
        .unwrap();
    assert_eq!(content, format!("{body}\n"));
}

#[test]
fn fetch_body_read_failure_is_web_scraping_error() {
    let ex = extractor(".content", 0, vec![]);
    let fetch = FetchOutcome::BodyReadFailed {
        detail: "stream cut".to_string(),
    };
    let err = process_fetch_outcome(&ex, &record("https://example.com/6", "6"), fetch, 45)
        .unwrap_err();
    match err {
        ScrapperError::WebScraping { url, message } => {
            assert_eq!(url, "https://example.com/6");
            assert_eq!(message, "Failed to read response body: stream cut");
        }
        other => panic!("expected a web scraping error, got {other:?}"),
    }
}

#[test]
fn fetch_send_failure_keeps_its_status() {
    let ex = extractor(".content", 0, vec![]);
    let fetch = FetchOutcome::SendFailed {
        status: Some(502),
        detail: "bad gateway".to_string(),
    };
    let err = process_fetch_outcome(&ex, &record("https://example.com/7", "7"), fetch, 45)
        .unwrap_err();
    match &err {
        ScrapperError::Http { status, message, .. } => {
            assert_eq!(*status, Some(502));
            assert_eq!(message, "Request failed: bad gateway");
        }
        other => panic!("expected an HTTP error, got {other:?}"),
    }
    assert!(err.is_recoverable());
}

#[test]
fn fetch_rejects_invalid_url_scheme() {
    let ex = extractor(".content", 0, vec![]);
    let fetch = FetchOutcome::Response { status: 200, body: "ignored".to_string() };
    let err = process_fetch_outcome(&ex, &record("ftp://example.com", "5"), fetch, 45)
        .unwrap_err();
    match err {
        ScrapperError::Validation { field, .. } => assert_eq!(field, "url"),
        other => panic!("expected a validation error, got {other:?}"),
    }
}
