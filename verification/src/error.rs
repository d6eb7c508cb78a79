//! The error taxonomy of the library.
//!
//! A failure is either *recoverable* (presumed transient: rate limiting, a
//! gateway error, a connection-level failure with no status) or *permanent*
//! (presumed stable: any other HTTP status, extraction and validation
//! failures). `is_recoverable` is the classifier the orchestrator consults
//! when it routes a failed attempt.

use vstd::prelude::*;
use crate::strutil::{concat2, concat3, concat4, concat5, spec_dec, u64_to_string};

verus! {

/// Main error type of the library. File-system and I/O errors carry the
/// offending path as a plain string when one is known.
#[derive(Debug)]
pub enum ScrapperError {
    Config { message: String },
    Csv { message: String },
    FileSystem { message: String, path: Option<String> },
    WebScraping { url: String, message: String },
    ContentExtraction { url: String, message: String },
    Http { url: String, status: Option<u16>, message: String },
    TaskExecution { message: String },
    Progress { message: String },
    Validation { field: String, message: String },
    Io { message: String, path: Option<String> },
}

/// Result type alias for convenience.
pub type ScrapperResult<T> = Result<T, ScrapperError>;

/// A failure is recoverable exactly when it is an HTTP failure that is
/// rate-limited (429), a bad gateway (502), service unavailable (503), or a
/// connection-level failure carrying no status at all.
pub open spec fn spec_is_recoverable(e: ScrapperError) -> bool {
    match e {
        ScrapperError::Http { status, .. } => match status {
            None => true,
            Some(s) => s == 429 || s == 502 || s == 503,
        },
        _ => false,
    }
}

impl ScrapperError {
    /// Create a configuration error.
    pub fn config(message: &str) -> (e: Self)
        ensures
            e matches ScrapperError::Config { message: m } && m@ == message@,
    {
        ScrapperError::Config { message: message.to_owned() }
    }

    /// Create a CSV processing error.
    pub fn csv(message: &str) -> (e: Self)
        ensures
            e matches ScrapperError::Csv { message: m } && m@ == message@,
    {
        ScrapperError::Csv { message: message.to_owned() }
    }

    /// Create a file system error with optional path.
    pub fn file_system(message: &str, path: Option<String>) -> (e: Self)
        ensures
            e matches ScrapperError::FileSystem { message: m, path: p } && m@ == message@ && p
                == path,
    {
        ScrapperError::FileSystem { message: message.to_owned(), path }
    }

    /// Create a web scraping error.
    pub fn web_scraping(url: &str, message: &str) -> (e: Self)
        ensures
            e matches ScrapperError::WebScraping { url: u, message: m } && u@ == url@ && m@
                == message@,
    {
        ScrapperError::WebScraping { url: url.to_owned(), message: message.to_owned() }
    }

    /// Create a content extraction error.
    pub fn content_extraction(url: &str, message: &str) -> (e: Self)
        ensures
            e matches ScrapperError::ContentExtraction { url: u, message: m } && u@ == url@ && m@
                == message@,
    {
        ScrapperError::ContentExtraction { url: url.to_owned(), message: message.to_owned() }
    }

    /// Create an HTTP error with optional status code.
    pub fn http(url: &str, status: Option<u16>, message: &str) -> (e: Self)
        ensures
            e matches ScrapperError::Http { url: u, status: s, message: m } && u@ == url@ && s
                == status && m@ == message@,
    {
        ScrapperError::Http { url: url.to_owned(), status, message: message.to_owned() }
    }

    /// Create a task execution error.
    pub fn task_execution(message: &str) -> (e: Self)
        ensures
            e matches ScrapperError::TaskExecution { message: m } && m@ == message@,
    {
        ScrapperError::TaskExecution { message: message.to_owned() }
    }

    /// Create a progress tracking error.
    pub fn progress(message: &str) -> (e: Self)
        ensures
            e matches ScrapperError::Progress { message: m } && m@ == message@,
    {
        ScrapperError::Progress { message: message.to_owned() }
    }

    /// Create a validation error.
    pub fn validation(field: &str, message: &str) -> (e: Self)
        ensures
            e matches ScrapperError::Validation { field: f, message: m } && f@ == field@ && m@
                == message@,
    {
        ScrapperError::Validation { field: field.to_owned(), message: message.to_owned() }
    }

    /// Create an I/O error with optional path.
    pub fn io(message: &str, path: Option<String>) -> (e: Self)
        ensures
            e matches ScrapperError::Io { message: m, path: p } && m@ == message@ && p == path,
    {
        ScrapperError::Io { message: message.to_owned(), path }
    }

    /// Check if the error is recoverable (temporary network issues, etc.).
    pub fn is_recoverable(&self) -> (r: bool)
        ensures
            r == spec_is_recoverable(*self),
    {
        match self {
            ScrapperError::Http { status, .. } => match status {
                None => true,
                Some(s) => *s == 429 || *s == 502 || *s == 503,
            },
            _ => false,
        }
    }

    /// Get the URL associated with the error, if any.
    pub fn url(&self) -> (r: Option<&str>)
        ensures
            match *self {
                ScrapperError::WebScraping { url, .. } => r matches Some(u) && u@ == url@,
                ScrapperError::ContentExtraction { url, .. } => r matches Some(u) && u@ == url@,
                ScrapperError::Http { url, .. } => r matches Some(u) && u@ == url@,
                _ => r is None,
            },
    {
        match self {
            ScrapperError::WebScraping { url, .. } => Some(url.as_str()),
            ScrapperError::ContentExtraction { url, .. } => Some(url.as_str()),
            ScrapperError::Http { url, .. } => Some(url.as_str()),
            _ => None,
        }
    }

    /// Get a user-friendly error message with debugging hints.
    pub fn user_friendly_message(&self) -> (r: String)
        ensures
            r@ == spec_user_friendly_message(*self),
    {
        match self {
            ScrapperError::Config { message } => concat3(
                "Configuration issue: ",
                message.as_str(),
                ". Check your config file or command-line arguments.",
            ),
            ScrapperError::Csv { message } => concat3(
                "CSV file issue: ",
                message.as_str(),
                ". Ensure your CSV has the correct format with 'url,chapter_number' columns.",
            ),
            ScrapperError::FileSystem { message, path } => match path {
                Some(p) => concat5(
                    "File system error at ",
                    p.as_str(),
                    ": ",
                    message.as_str(),
                    ". Check file permissions and disk space.",
                ),
                None => concat3(
                    "File system error: ",
                    message.as_str(),
                    ". Check file permissions and disk space.",
                ),
            },
            ScrapperError::WebScraping { url, message } => concat5(
                "Failed to scrape ",
                url.as_str(),
                ": ",
                message.as_str(),
                ". The website might be down or blocking requests.",
            ),
            ScrapperError::ContentExtraction { url, message } => concat5(
                "Couldn't extract content from ",
                url.as_str(),
                ": ",
                message.as_str(),
                ". The page structure might have changed.",
            ),
            ScrapperError::Http { url, status, message } => match status {
                Some(s) => {
                    if *s == 404 {
                        concat3(
                            "Page not found (404): ",
                            url.as_str(),
                            ". Check if the URL is correct.",
                        )
                    } else if *s == 403 {
                        concat3(
                            "Access denied (403) for ",
                            url.as_str(),
                            ". The site might be blocking scrapers.",
                        )
                    } else if *s == 429 {
                        concat3(
                            "Rate limited (429) for ",
                            url.as_str(),
                            ". Increase delays between requests.",
                        )
                    } else if 500 <= *s && *s <= 599 {
                        let num = u64_to_string(*s as u64);
                        let head = concat2("Server error (", num.as_str());
                        concat5(
                            head.as_str(),
                            ") for ",
                            url.as_str(),
                            ": ",
                            message.as_str(),
                        ).concat(". Try again later.")
                    } else {
                        let num = u64_to_string(*s as u64);
                        let head = concat2("HTTP error (", num.as_str());
                        concat5(head.as_str(), ") for ", url.as_str(), ": ", message.as_str())
                    }
                },
                None => concat5(
                    "Connection error for ",
                    url.as_str(),
                    ": ",
                    message.as_str(),
                    ". Check your internet connection.",
                ),
            },
            ScrapperError::TaskExecution { message } => concat3(
                "Task execution failed: ",
                message.as_str(),
                ". This might indicate a programming error.",
            ),
            ScrapperError::Progress { message } => concat3(
                "Progress tracking error: ",
                message.as_str(),
                ". This doesn't affect scraping functionality.",
            ),
            ScrapperError::Validation { field, message } => concat5(
                "Invalid ",
                field.as_str(),
                ": ",
                message.as_str(),
                ". Please check your configuration.",
            ),
            ScrapperError::Io { message, path } => match path {
                Some(p) => concat5(
                    "I/O error at ",
                    p.as_str(),
                    ": ",
                    message.as_str(),
                    ". Check file permissions.",
                ),
                None => concat3("I/O error: ", message.as_str(), ". Check file permissions."),
            },
        }
    }

    /// Get debugging information for developers.
    pub fn debug_info(&self) -> (r: String)
        ensures
            r@ == spec_debug_info(*self),
    {
        match self {
            ScrapperError::Http { url, status, message } => {
                let status_text = match status {
                    Some(s) => {
                        let num = u64_to_string(*s as u64);
                        concat3("Some(", num.as_str(), ")")
                    },
                    None => "None".to_owned(),
                };
                let head = concat4("URL: ", url.as_str(), ", Status: ", status_text.as_str());
                concat3(head.as_str(), ", Details: ", message.as_str())
            },
            ScrapperError::FileSystem { message, path } => debug_path_details(path, message),
            ScrapperError::Io { message, path } => debug_path_details(path, message),
            ScrapperError::WebScraping { url, message } => concat4(
                "URL: ",
                url.as_str(),
                ", Details: ",
                message.as_str(),
            ),
            ScrapperError::ContentExtraction { url, message } => concat4(
                "URL: ",
                url.as_str(),
                ", Details: ",
                message.as_str(),
            ),
            ScrapperError::Validation { field, message } => concat4(
                "Field: ",
                field.as_str(),
                ", Details: ",
                message.as_str(),
            ),
            ScrapperError::Config { message } => concat2("Configuration error: ", message.as_str()),
            ScrapperError::Csv { message } => concat2("CSV processing error: ", message.as_str()),
            ScrapperError::TaskExecution { message } => concat2(
                "Task execution error: ",
                message.as_str(),
            ),
            ScrapperError::Progress { message } => concat2(
                "Progress tracking error: ",
                message.as_str(),
            ),
        }
    }
}

/// Debug rendering of an optional path, as `Option`'s debug formatting
/// shows it.
pub open spec fn spec_path_debug(path: Option<String>) -> Seq<char> {
    match path {
        Some(p) => "Some(\""@ + p@ + "\")"@,
        None => "None"@,
    }
}

fn debug_path_details(path: &Option<String>, message: &String) -> (r: String)
    ensures
        r@ == "Path: "@ + spec_path_debug(*path) + ", Details: "@ + message@,
{
    let path_text = match path {
        Some(p) => concat3("Some(\"", p.as_str(), "\")"),
        None => "None".to_owned(),
    };
    let head = concat2("Path: ", path_text.as_str());
    concat3(head.as_str(), ", Details: ", message.as_str())
}

/// The user-facing message for each failure, with debugging hints.
pub open spec fn spec_user_friendly_message(e: ScrapperError) -> Seq<char> {
    match e {
        ScrapperError::Config { message } => "Configuration issue: "@ + message@
            + ". Check your config file or command-line arguments."@,
        ScrapperError::Csv { message } => "CSV file issue: "@ + message@
            + ". Ensure your CSV has the correct format with 'url,chapter_number' columns."@,
        ScrapperError::FileSystem { message, path } => match path {
            Some(p) => "File system error at "@ + p@ + ": "@ + message@
                + ". Check file permissions and disk space."@,
            None => "File system error: "@ + message@
                + ". Check file permissions and disk space."@,
        },
        ScrapperError::WebScraping { url, message } => "Failed to scrape "@ + url@ + ": "@
            + message@ + ". The website might be down or blocking requests."@,
        ScrapperError::ContentExtraction { url, message } => "Couldn't extract content from "@
            + url@ + ": "@ + message@ + ". The page structure might have changed."@,
        ScrapperError::Http { url, status, message } => match status {
            Some(s) => if s == 404 {
                "Page not found (404): "@ + url@ + ". Check if the URL is correct."@
            } else if s == 403 {
                "Access denied (403) for "@ + url@ + ". The site might be blocking scrapers."@
            } else if s == 429 {
                "Rate limited (429) for "@ + url@ + ". Increase delays between requests."@
            } else if 500 <= s && s <= 599 {
                "Server error ("@ + spec_dec(s as nat) + ") for "@ + url@ + ": "@ + message@
                    + ". Try again later."@
            } else {
                "HTTP error ("@ + spec_dec(s as nat) + ") for "@ + url@ + ": "@ + message@
            },
            None => "Connection error for "@ + url@ + ": "@ + message@
                + ". Check your internet connection."@,
        },
        ScrapperError::TaskExecution { message } => "Task execution failed: "@ + message@
            + ". This might indicate a programming error."@,
        ScrapperError::Progress { message } => "Progress tracking error: "@ + message@
            + ". This doesn't affect scraping functionality."@,
        ScrapperError::Validation { field, message } => "Invalid "@ + field@ + ": "@ + message@
            + ". Please check your configuration."@,
        ScrapperError::Io { message, path } => match path {
            Some(p) => "I/O error at "@ + p@ + ": "@ + message@ + ". Check file permissions."@,
            None => "I/O error: "@ + message@ + ". Check file permissions."@,
        },
    }
}

/// The developer-facing debug line for each failure.
pub open spec fn spec_debug_info(e: ScrapperError) -> Seq<char> {
    match e {
        ScrapperError::Http { url, status, message } => {
            let status_text = match status {
                Some(s) => "Some("@ + spec_dec(s as nat) + ")"@,
                None => "None"@,
            };
            "URL: "@ + url@ + ", Status: "@ + status_text + ", Details: "@ + message@
        },
        ScrapperError::FileSystem { message, path } => "Path: "@ + spec_path_debug(path)
            + ", Details: "@ + message@,
        ScrapperError::Io { message, path } => "Path: "@ + spec_path_debug(path) + ", Details: "@
            + message@,
        ScrapperError::WebScraping { url, message } => "URL: "@ + url@ + ", Details: "@ + message@,
        ScrapperError::ContentExtraction { url, message } => "URL: "@ + url@ + ", Details: "@
            + message@,
        ScrapperError::Validation { field, message } => "Field: "@ + field@ + ", Details: "@
            + message@,
        ScrapperError::Config { message } => "Configuration error: "@ + message@,
        ScrapperError::Csv { message } => "CSV processing error: "@ + message@,
        ScrapperError::TaskExecution { message } => "Task execution error: "@ + message@,
        ScrapperError::Progress { message } => "Progress tracking error: "@ + message@,
    }
}

} // verus!
