//! Run configuration.
//!
//! The configuration is plain data: paths as strings, the selector chain,
//! filter patterns, and the pacing and concurrency knobs. Loading it from
//! files or command-line arguments happens outside the library; `validate`
//! is the single gate every configuration passes before the core runs.

use vstd::prelude::*;
use crate::error::{ScrapperError, ScrapperResult};
use crate::strutil::spec_trim;

verus! {

#[derive(Debug, Clone)]
pub struct ScrapingConfig {
    /// Maximum number of concurrent scraping tasks.
    pub max_concurrent_tasks: usize,
    /// Delay between spawning tasks (milliseconds).
    pub task_delay_ms: u64,
    /// Path to the input CSV file.
    pub input_file: String,
    /// Output directory for scraped files.
    pub output_dir: String,
    /// CSS selector chain for content extraction.
    pub selector: String,
    /// Number of initial text nodes to skip.
    pub skip_text_nodes: usize,
    /// Patterns to filter out from extracted text.
    pub filter_patterns: Vec<String>,
    /// HTTP request timeout (seconds).
    pub request_timeout_secs: u64,
    /// User agent string for HTTP requests.
    pub user_agent: String,
    /// Enable verbose logging.
    pub verbose: bool,
}

/// The checks `validate` applies, in order; a configuration is valid when
/// all of them hold.
pub open spec fn spec_config_valid(c: ScrapingConfig) -> bool {
    &&& c.max_concurrent_tasks > 0
    &&& c.max_concurrent_tasks <= 50
    &&& c.task_delay_ms >= 50
    &&& spec_trim(c.selector@).len() > 0
    &&& c.request_timeout_secs > 0
    &&& c.request_timeout_secs <= 300
}

impl Default for ScrapingConfig {
    /// Conservative defaults: a modest pool, server-friendly pacing, a
    /// selector chain that matches common page layouts, and filter patterns
    /// for the usual boilerplate.
    fn default() -> (r: Self)
        ensures
            r.max_concurrent_tasks == 8,
            r.task_delay_ms == 250,
            r.input_file@ == "./out/links.csv"@,
            r.output_dir@ == "./out"@,
            r.selector@ == "main, article, .content, .post-content, .entry-content, #content"@,
            r.skip_text_nodes == 2,
            r.filter_patterns.deep_view() == seq![
                "window."@,
                "document."@,
                "function("@,
                "Advertisement"@,
                "Subscribe"@,
                "Cookie"@,
                "Privacy Policy"@,
                "Terms of Service"@,
                "Sign up"@,
                "Log in"@,
            ],
            r.request_timeout_secs == 45,
            r.user_agent@
                == "Mozilla/5.0 (Windows NT 10.0; Win64; x64) AppleWebKit/537.36 (KHTML, like Gecko) Chrome/120.0.0.0 Safari/537.36"@,
            r.verbose == false,
    {
        let mut filter_patterns: Vec<String> = Vec::new();
        filter_patterns.push("window.".to_owned());
        filter_patterns.push("document.".to_owned());
        filter_patterns.push("function(".to_owned());
        filter_patterns.push("Advertisement".to_owned());
        filter_patterns.push("Subscribe".to_owned());
        filter_patterns.push("Cookie".to_owned());
        filter_patterns.push("Privacy Policy".to_owned());
        filter_patterns.push("Terms of Service".to_owned());
        filter_patterns.push("Sign up".to_owned());
        filter_patterns.push("Log in".to_owned());
        proof {
            assert(filter_patterns.deep_view() =~= seq![
                "window."@,
                "document."@,
                "function("@,
                "Advertisement"@,
                "Subscribe"@,
                "Cookie"@,
                "Privacy Policy"@,
                "Terms of Service"@,
                "Sign up"@,
                "Log in"@,
            ]);
        }
        ScrapingConfig {
            max_concurrent_tasks: 8,
            task_delay_ms: 250,
            input_file: "./out/links.csv".to_owned(),
            output_dir: "./out".to_owned(),
            selector: "main, article, .content, .post-content, .entry-content, #content"
                .to_owned(),
            skip_text_nodes: 2,
            filter_patterns,
            request_timeout_secs: 45,
            user_agent: "Mozilla/5.0 (Windows NT 10.0; Win64; x64) AppleWebKit/537.36 (KHTML, like Gecko) Chrome/120.0.0.0 Safari/537.36"
                .to_owned(),
            verbose: false,
        }
    }
}

impl ScrapingConfig {
    /// Validate configuration values: the pool ceiling must lie in `[1, 50]`,
    /// the pacing delay must be at least 50 ms, the selector chain must not
    /// be blank, and the request timeout must lie in `(0, 300]` seconds.
    pub fn validate(&self) -> (r: ScrapperResult<()>)
        ensures
            r is Ok <==> spec_config_valid(*self),
            self.max_concurrent_tasks == 0 ==> (r matches Err(e)
                && e matches ScrapperError::Config { message } && message@
                == "max_concurrent_tasks must be greater than 0"@),
            self.max_concurrent_tasks > 50 ==> (r matches Err(e)
                && e matches ScrapperError::Config { message } && message@
                == "max_concurrent_tasks should not exceed 50 to be respectful to servers"@),
            0 < self.max_concurrent_tasks <= 50 && self.task_delay_ms < 50 ==> (r matches Err(e)
                && e matches ScrapperError::Config { message } && message@
                == "task_delay_ms should be at least 50ms to avoid overwhelming servers"@),
            0 < self.max_concurrent_tasks <= 50 && self.task_delay_ms >= 50 && spec_trim(
                self.selector@,
            ).len() == 0 ==> (r matches Err(e) && e matches ScrapperError::Config { message }
                && message@ == "selector cannot be empty"@),
            0 < self.max_concurrent_tasks <= 50 && self.task_delay_ms >= 50 && spec_trim(
                self.selector@,
            ).len() > 0 && self.request_timeout_secs == 0 ==> (r matches Err(e)
                && e matches ScrapperError::Config { message } && message@
                == "request_timeout_secs must be greater than 0"@),
            0 < self.max_concurrent_tasks <= 50 && self.task_delay_ms >= 50 && spec_trim(
                self.selector@,
            ).len() > 0 && self.request_timeout_secs > 300 ==> (r matches Err(e)
                && e matches ScrapperError::Config { message } && message@
                == "request_timeout_secs should not exceed 300 seconds (5 minutes)"@),
    {
        if self.max_concurrent_tasks == 0 {
            return Err(ScrapperError::config("max_concurrent_tasks must be greater than 0"));
        }
        if self.max_concurrent_tasks > 50 {
            return Err(
                ScrapperError::config(
                    "max_concurrent_tasks should not exceed 50 to be respectful to servers",
                ),
            );
        }
        if self.task_delay_ms < 50 {
            return Err(
                ScrapperError::config(
                    "task_delay_ms should be at least 50ms to avoid overwhelming servers",
                ),
            );
        }
        let trimmed = crate::strutil::trim_str(self.selector.as_str());
        if trimmed.is_empty() {
            return Err(ScrapperError::config("selector cannot be empty"));
        }
        if self.request_timeout_secs == 0 {
            return Err(ScrapperError::config("request_timeout_secs must be greater than 0"));
        }
        if self.request_timeout_secs > 300 {
            return Err(
                ScrapperError::config(
                    "request_timeout_secs should not exceed 300 seconds (5 minutes)",
                ),
            );
        }
        Ok(())
    }
}

} // verus!
