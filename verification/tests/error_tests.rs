use scrapper::error::ScrapperError;

#[test]
fn test_error_creation() {
    let config_err = ScrapperError::config("Invalid timeout");
    assert!(matches!(config_err, ScrapperError::Config { .. }));

    let http_err = ScrapperError::http("https://example.com", Some(404), "Not found");
    assert!(matches!(http_err, ScrapperError::Http { .. }));
    assert_eq!(http_err.url(), Some("https://example.com"));
}

#[test]
fn test_recoverable_errors() {
    let recoverable = ScrapperError::http("https://example.com", Some(429), "Rate limited");
    assert!(recoverable.is_recoverable());

    let non_recoverable = ScrapperError::http("https://example.com", Some(404), "Not found");
    assert!(!non_recoverable.is_recoverable());
}

#[test]
fn test_user_friendly_messages() {
    let err = ScrapperError::http("https://example.com", Some(404), "Not found");
    let message = err.user_friendly_message();
    assert!(message.contains("Page not found"));
    assert!(message.contains("Check if the URL is correct"));
}

#[test]
fn recoverable_statuses_exactly() {
    for status in [429u16, 502, 503] {
        let err = ScrapperError::http("https://example.com", Some(status), "transient");
        assert!(err.is_recoverable(), "status {status} must be recoverable");
    }
    let connection = ScrapperError::http("https://example.com", None, "refused");
    assert!(connection.is_recoverable());

    for status in [400u16, 403, 404, 500, 501, 504] {
        let err = ScrapperError::http("https://example.com", Some(status), "stable");
        assert!(!err.is_recoverable(), "status {status} must be permanent");
    }
    let extraction = ScrapperError::content_extraction("https://example.com", "no match");
    assert!(!extraction.is_recoverable());
    let validation = ScrapperError::validation("url", "bad");
    assert!(!validation.is_recoverable());
    let task = ScrapperError::task_execution("fault");
    assert!(!task.is_recoverable());
}

#[test]
fn url_only_on_web_errors() {
    assert_eq!(
        ScrapperError::web_scraping("https://a.example", "x").url(),
        Some("https://a.example")
    );
    assert_eq!(
        ScrapperError::content_extraction("https://b.example", "x").url(),
        Some("https://b.example")
    );
    assert_eq!(ScrapperError::config("x").url(), None);
    assert_eq!(ScrapperError::csv("x").url(), None);
    assert_eq!(ScrapperError::io("x", None).url(), None);
}

#[test]
fn friendly_message_renders_status_numbers() {
    let server = ScrapperError::http("https://example.com", Some(503), "overloaded");
    assert_eq!(
        server.user_friendly_message(),
        "Server error (503) for https://example.com: overloaded. Try again later."
    );

    let teapot = ScrapperError::http("https://example.com", Some(418), "teapot");
    assert_eq!(
        teapot.user_friendly_message(),
        "HTTP error (418) for https://example.com: teapot"
    );

    let connection = ScrapperError::http("https://example.com", None, "refused");
    assert_eq!(
        connection.user_friendly_message(),
        "Connection error for https://example.com: refused. Check your internet connection."
    );

    let rate = ScrapperError::http("https://example.com", Some(429), "slow down");
    assert_eq!(
        rate.user_friendly_message(),
        "Rate limited (429) for https://example.com. Increase delays between requests."
    );

    let forbidden = ScrapperError::http("https://example.com", Some(403), "denied");
    assert_eq!(
        forbidden.user_friendly_message(),
        "Access denied (403) for https://example.com. The site might be blocking scrapers."
    );
}

#[test]
fn friendly_message_carries_paths() {
    let with_path = ScrapperError::file_system("disk full", Some("./out".to_string()));
    assert_eq!(
        with_path.user_friendly_message(),
        "File system error at ./out: disk full. Check file permissions and disk space."
    );
    let without_path = ScrapperError::io("broken pipe", None);
    assert_eq!(
        without_path.user_friendly_message(),
        "I/O error: broken pipe. Check file permissions."
    );
}

#[test]
fn every_variant_constructs() {
    assert!(matches!(
        ScrapperError::csv("bad row"),
        ScrapperError::Csv { .. }
    ));
    assert!(matches!(
        ScrapperError::file_system("full", None),
        ScrapperError::FileSystem { .. }
    ));
    assert!(matches!(
        ScrapperError::web_scraping("https://e", "down"),
        ScrapperError::WebScraping { .. }
    ));
    assert!(matches!(
        ScrapperError::content_extraction("https://e", "no match"),
        ScrapperError::ContentExtraction { .. }
    ));
    assert!(matches!(
        ScrapperError::task_execution("fault"),
        ScrapperError::TaskExecution { .. }
    ));
    assert!(matches!(
        ScrapperError::progress("display"),
        ScrapperError::Progress { .. }
    ));
    assert!(matches!(
        ScrapperError::validation("url", "empty"),
        ScrapperError::Validation { .. }
    ));
    assert!(matches!(
        ScrapperError::io("pipe", None),
        ScrapperError::Io { .. }
    ));
}

#[test]
fn debug_info_by_variant() {
    let http = ScrapperError::http("https://example.com", Some(404), "gone");
    assert_eq!(
        http.debug_info(),
        "URL: https://example.com, Status: Some(404), Details: gone"
    );
    let io = ScrapperError::io("denied", Some("./out/chapter_1.txt".to_string()));
    assert_eq!(
        io.debug_info(),
        "Path: Some(\"./out/chapter_1.txt\"), Details: denied"
    );
    let validation = ScrapperError::validation("selector", "blank");
    assert_eq!(validation.debug_info(), "Field: selector, Details: blank");
    let config = ScrapperError::config("bad delay");
    assert_eq!(config.debug_info(), "Configuration error: bad delay");
}
