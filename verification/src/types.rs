//! Work items and run statistics.
//!
//! A `ChapterRecord` is one unit of fetch-extract-persist work: a source
//! URL and an item key that names the output file. `ScrapingStats` holds the
//! monotonic counters of a run, mutated only by the orchestrator's single
//! control flow.

use vstd::prelude::*;
use vstd::string::*;
use crate::error::{ScrapperError, ScrapperResult};
use crate::strutil::{
    char_alphanumeric, concat3, is_alphanumeric_char, spec_dec, str_starts_with, u64_to_string,
    usize_to_string,
};

verus! {

/// A character accepted in an item key: alphanumeric, underscore, hyphen
/// or dot.
pub open spec fn valid_key_char(c: char) -> bool {
    char_alphanumeric(c) || c == '_' || c == '-' || c == '.'
}

/// A URL is well-formed when it carries an `http://` or `https://` scheme.
pub open spec fn spec_url_has_scheme(url: Seq<char>) -> bool {
    "http://"@.is_prefix_of(url) || "https://"@.is_prefix_of(url)
}

/// Whether a whole record passes validation.
pub open spec fn spec_record_valid(url: Seq<char>, chapter_number: Seq<char>) -> bool {
    &&& url.len() > 0
    &&& spec_url_has_scheme(url)
    &&& chapter_number.len() > 0
    &&& forall|i: int| 0 <= i < chapter_number.len() ==> valid_key_char(#[trigger] chapter_number[i])
}

#[derive(Debug, Clone)]
pub struct ChapterRecord {
    pub url: String,
    pub chapter_number: String,
}

impl ChapterRecord {
    pub fn new(url: String, chapter_number: String) -> (r: Self)
        ensures
            r.url@ == url@,
            r.chapter_number@ == chapter_number@,
    {
        Self { url, chapter_number }
    }

    /// The name of the output file for this record.
    pub fn file_name(&self) -> (r: String)
        ensures
            r@ == "chapter_"@ + self.chapter_number@ + ".txt"@,
    {
        concat3("chapter_", self.chapter_number.as_str(), ".txt")
    }

    /// Validate the chapter record: the URL must be non-empty with an
    /// `http`/`https` scheme, and the item key non-empty with only
    /// alphanumeric, underscore, hyphen and dot characters.
    pub fn validate(&self) -> (r: ScrapperResult<()>)
        ensures
            r is Ok <==> spec_record_valid(self.url@, self.chapter_number@),
            self.url@.len() == 0 ==> (r matches Err(e) && e matches ScrapperError::Validation {
                field,
                message,
            } && field@ == "url"@ && message@ == "URL cannot be empty"@),
            self.url@.len() > 0 && !spec_url_has_scheme(self.url@) ==> (r matches Err(e)
                && e matches ScrapperError::Validation { field, message } && field@ == "url"@
                && message@ == "Invalid URL format: '"@ + self.url@
                + "'. URLs must start with http:// or https://"@),
            self.url@.len() > 0 && spec_url_has_scheme(self.url@) && self.chapter_number@.len()
                == 0 ==> (r matches Err(e) && e matches ScrapperError::Validation {
                field,
                message,
            } && field@ == "chapter_number"@ && message@ == "Chapter number cannot be empty"@),
            self.url@.len() > 0 && spec_url_has_scheme(self.url@) && self.chapter_number@.len() > 0
                && (exists|i: int|
                0 <= i < self.chapter_number@.len() && !valid_key_char(
                    #[trigger] self.chapter_number@[i],
                )) ==> (r matches Err(e) && e matches ScrapperError::Validation {
                field,
                message,
            } && field@ == "chapter_number"@ && message@ == "Chapter number '"@
                + self.chapter_number@
                + "' contains invalid characters. Only alphanumeric, underscore, hyphen, and dot are allowed."@),
    {
        if self.url.as_str().is_empty() {
            return Err(ScrapperError::validation("url", "URL cannot be empty"));
        }
        if !str_starts_with(self.url.as_str(), "http://") && !str_starts_with(
            self.url.as_str(),
            "https://",
        ) {
            let message = concat3(
                "Invalid URL format: '",
                self.url.as_str(),
                "'. URLs must start with http:// or https://",
            );
            return Err(ScrapperError::validation("url", message.as_str()));
        }
        if self.chapter_number.as_str().is_empty() {
            return Err(ScrapperError::validation("chapter_number", "Chapter number cannot be empty"));
        }
        let key = self.chapter_number.as_str();
        let len = key.unicode_len();
        let mut i: usize = 0;
        while i < len
            invariant
                len == key@.len(),
                i <= len,
                key@ == self.chapter_number@,
                self.url@.len() > 0,
                spec_url_has_scheme(self.url@),
                self.chapter_number@.len() > 0,
                forall|k: int| 0 <= k < i ==> valid_key_char(#[trigger] key@[k]),
            decreases len - i,
        {
            let c = key.get_char(i);
            if !(is_alphanumeric_char(c) || c == '_' || c == '-' || c == '.') {
                proof {
                    assert(!valid_key_char(self.chapter_number@[i as int]));
                }
                let message = concat3(
                    "Chapter number '",
                    key,
                    "' contains invalid characters. Only alphanumeric, underscore, hyphen, and dot are allowed.",
                );
                return Err(ScrapperError::validation("chapter_number", message.as_str()));
            }
            i = i + 1;
        }
        Ok(())
    }
}

/// The monotonic counters of one run. `error_count` is always the sum of
/// the recoverable and permanent error counters; together with the skipped
/// (already existing) items, the terminal outcomes never outnumber the
/// records of the run.
#[derive(Debug, Clone)]
pub struct ScrapingStats {
    pub total: usize,
    pub existing: usize,
    pub success_count: usize,
    pub error_count: usize,
    pub recoverable_errors: usize,
    pub permanent_errors: usize,
}

impl ScrapingStats {
    /// The counter invariant: skips bounded by the total, terminal outcomes
    /// bounded by the records left to process, recoverable incidents bounded
    /// by the records dispatched, and `error_count` the sum of both error
    /// kinds.
    pub open spec fn wf(&self) -> bool {
        &&& self.existing <= self.total
        &&& self.success_count + self.permanent_errors <= self.total - self.existing
        &&& self.recoverable_errors <= self.total - self.existing
        &&& self.error_count == self.recoverable_errors + self.permanent_errors
    }

    pub fn records_to_process(&self) -> (r: usize)
        requires
            self.existing <= self.total,
        ensures
            r == self.total - self.existing,
    {
        self.total - self.existing
    }

    pub fn increment_success(&mut self)
        requires
            old(self).wf(),
            old(self).success_count + old(self).permanent_errors < old(self).total - old(
                self,
            ).existing,
        ensures
            final(self).wf(),
            *final(self) == (ScrapingStats {
                success_count: (old(self).success_count + 1) as usize,
                ..*old(self)
            }),
    {
        self.success_count = self.success_count + 1;
    }

    pub fn increment_recoverable_error(&mut self)
        requires
            old(self).wf(),
            old(self).recoverable_errors < old(self).total - old(self).existing,
            old(self).error_count < usize::MAX,
        ensures
            final(self).wf(),
            *final(self) == (ScrapingStats {
                error_count: (old(self).error_count + 1) as usize,
                recoverable_errors: (old(self).recoverable_errors + 1) as usize,
                ..*old(self)
            }),
    {
        self.error_count = self.error_count + 1;
        self.recoverable_errors = self.recoverable_errors + 1;
    }

    pub fn increment_permanent_error(&mut self)
        requires
            old(self).wf(),
            old(self).success_count + old(self).permanent_errors < old(self).total - old(
                self,
            ).existing,
            old(self).error_count < usize::MAX,
        ensures
            final(self).wf(),
            *final(self) == (ScrapingStats {
                error_count: (old(self).error_count + 1) as usize,
                permanent_errors: (old(self).permanent_errors + 1) as usize,
                ..*old(self)
            }),
    {
        self.error_count = self.error_count + 1;
        self.permanent_errors = self.permanent_errors + 1;
    }
}

impl Default for ScrapingStats {
    fn default() -> (r: Self)
        ensures
            r.total == 0,
            r.existing == 0,
            r.success_count == 0,
            r.error_count == 0,
            r.recoverable_errors == 0,
            r.permanent_errors == 0,
            r.wf(),
    {
        ScrapingStats {
            total: 0,
            existing: 0,
            success_count: 0,
            error_count: 0,
            recoverable_errors: 0,
            permanent_errors: 0,
        }
    }
}

/// A ratio rendered in tenths of a percent, truncated: `1000 * num / den`,
/// and zero when the denominator is zero.
pub open spec fn spec_rate_tenths(num: nat, den: nat) -> nat {
    if den == 0 {
        0
    } else {
        num * 1000 / den
    }
}

/// Computes `1000 * num / den` (tenths of a percent when `num` counts part
/// of `den`), returning zero when the denominator is zero.
pub fn rate_tenths(num: u128, den: u128) -> (r: u64)
    requires
        num <= den,
        num * 1000 <= u128::MAX,
    ensures
        r == spec_rate_tenths(num as nat, den as nat),
        r <= 1000,
{
    if den == 0 {
        0
    } else {
        let wide: u128 = num * 1000 / den;
        proof {
            assert((num as nat) * 1000 / (den as nat) <= 1000) by (nonlinear_arith)
                requires
                    0 < den as nat,
                    num as nat <= den as nat,
            ;
            assert(wide as nat == (num as nat) * 1000 / (den as nat));
        }
        wide as u64
    }
}

/// Rendering of a tenths-of-a-percent value with one decimal place.
pub open spec fn spec_tenths_display(t: nat) -> Seq<char> {
    spec_dec(t / 10) + "."@ + spec_dec(t % 10)
}

/// Renders a tenths-of-a-percent value with one decimal place.
pub fn tenths_display(t: u64) -> (r: String)
    ensures
        r@ == spec_tenths_display(t as nat),
{
    let mut r = u64_to_string(t / 10);
    r.append(".");
    let frac = u64_to_string(t % 10);
    r.append(frac.as_str());
    r
}

/// The success rate of the processed records, in tenths of a percent.
pub open spec fn spec_success_rate_tenths(s: ScrapingStats) -> nat {
    spec_rate_tenths(s.success_count as nat, (s.success_count + s.error_count) as nat)
}

/// The error rate of the processed records, in tenths of a percent.
pub open spec fn spec_error_rate_tenths(s: ScrapingStats) -> nat {
    spec_rate_tenths(s.error_count as nat, (s.success_count + s.error_count) as nat)
}

/// The share of errors that were recoverable, in tenths of a percent.
pub open spec fn spec_recoverable_error_rate_tenths(s: ScrapingStats) -> nat {
    spec_rate_tenths(s.recoverable_errors as nat, s.error_count as nat)
}

/// The share of the whole run that is complete (succeeded or already
/// existing), in tenths of a percent.
pub open spec fn spec_completion_rate_tenths(s: ScrapingStats) -> nat {
    spec_rate_tenths((s.success_count + s.existing) as nat, s.total as nat)
}

/// The report the orchestrator prints at the end of a run.
pub open spec fn spec_summary_report(s: ScrapingStats) -> Seq<char> {
    "Scraping Summary:\n  Total Records: "@ + spec_dec(s.total as nat)
        + "\n  Already Existing: "@ + spec_dec(s.existing as nat) + "\n  Successful: "@
        + spec_dec(s.success_count as nat) + "\n  Errors: "@ + spec_dec(s.error_count as nat)
        + "\n    Recoverable: "@ + spec_dec(s.recoverable_errors as nat) + "\n    Permanent: "@
        + spec_dec(s.permanent_errors as nat) + "\n  Success Rate: "@ + spec_tenths_display(
        spec_success_rate_tenths(s),
    ) + "%\n  Error Rate: "@ + spec_tenths_display(spec_error_rate_tenths(s))
        + "%\n  Completion Rate: "@ + spec_tenths_display(spec_completion_rate_tenths(s)) + "%"@
}

impl ScrapingStats {
    /// The success rate among processed records, in tenths of a percent.
    pub fn success_rate_tenths(&self) -> (r: u64)
        ensures
            r == spec_success_rate_tenths(*self),
    {
        let num = self.success_count as u128;
        let den = (self.success_count as u128) + (self.error_count as u128);
        rate_tenths(num, den)
    }

    /// The error rate among processed records, in tenths of a percent.
    pub fn error_rate_tenths(&self) -> (r: u64)
        ensures
            r == spec_error_rate_tenths(*self),
    {
        let num = self.error_count as u128;
        let den = (self.success_count as u128) + (self.error_count as u128);
        rate_tenths(num, den)
    }

    /// The share of errors that were recoverable, in tenths of a percent.
    pub fn recoverable_error_rate_tenths(&self) -> (r: u64)
        requires
            self.wf(),
        ensures
            r == spec_recoverable_error_rate_tenths(*self),
    {
        rate_tenths(self.recoverable_errors as u128, self.error_count as u128)
    }

    /// The share of the run that is complete, in tenths of a percent.
    pub fn completion_rate_tenths(&self) -> (r: u64)
        requires
            self.wf(),
        ensures
            r == spec_completion_rate_tenths(*self),
    {
        let num = (self.success_count as u128) + (self.existing as u128);
        rate_tenths(num, self.total as u128)
    }

    /// Get a summary report of the scraping statistics.
    pub fn summary_report(&self) -> (r: String)
        requires
            self.wf(),
        ensures
            r@ == spec_summary_report(*self),
    {
        let mut r = "Scraping Summary:\n  Total Records: ".to_owned();
        let part = usize_to_string(self.total);
        r.append(part.as_str());
        r.append("\n  Already Existing: ");
        let part = usize_to_string(self.existing);
        r.append(part.as_str());
        r.append("\n  Successful: ");
        let part = usize_to_string(self.success_count);
        r.append(part.as_str());
        r.append("\n  Errors: ");
        let part = usize_to_string(self.error_count);
        r.append(part.as_str());
        r.append("\n    Recoverable: ");
        let part = usize_to_string(self.recoverable_errors);
        r.append(part.as_str());
        r.append("\n    Permanent: ");
        let part = usize_to_string(self.permanent_errors);
        r.append(part.as_str());
        r.append("\n  Success Rate: ");
        let part = tenths_display(self.success_rate_tenths());
        r.append(part.as_str());
        r.append("%\n  Error Rate: ");
        let part = tenths_display(self.error_rate_tenths());
        r.append(part.as_str());
        r.append("%\n  Completion Rate: ");
        let part = tenths_display(self.completion_rate_tenths());
        r.append(part.as_str());
        r.append("%");
        r
    }

    /// Get recommendations based on the statistics. Each threshold is the
    /// exact rational form of the corresponding rate comparison.
    pub fn get_recommendations(&self) -> (r: Vec<String>)
        ensures
            r.deep_view() == spec_recommendations(*self),
    {
        let s = self.success_count as u128;
        let e = self.error_count as u128;
        let rec = self.recoverable_errors as u128;
        let perm = self.permanent_errors as u128;
        let processed = s + e;
        let mut recommendations: Vec<String> = Vec::new();
        if 5 * e > processed {
            recommendations.push(
                "High error rate detected. Consider reducing concurrent tasks or increasing delays.".to_owned(),
            );
        }
        assert(recommendations.deep_view() =~= spec_rec_part1(*self));
        if 2 * rec > e && self.recoverable_errors > 0 {
            recommendations.push(
                "Many recoverable errors (rate limits, timeouts). Increase delays between requests.".to_owned(),
            );
        }
        assert(recommendations.deep_view() =~= spec_rec_part1(*self) + spec_rec_part2(*self));
        if perm > rec && self.permanent_errors > 5 {
            recommendations.push(
                "Many permanent errors detected. Check URLs and CSS selectors.".to_owned(),
            );
        }
        assert(recommendations.deep_view() =~= spec_rec_part1(*self) + spec_rec_part2(*self)
            + spec_rec_part3(*self));
        if self.success_count == 0 && self.error_count > 0 {
            recommendations.push(
                "No successful scrapes. Check your configuration, network connection, and target URLs.".to_owned(),
            );
        }
        assert(recommendations.deep_view() =~= spec_rec_part1(*self) + spec_rec_part2(*self)
            + spec_rec_part3(*self) + spec_rec_part4(*self));
        if self.total > 1000 && (processed == 0 || 20 * s < 19 * processed) {
            recommendations.push(
                "Large scraping job with errors. Consider implementing retry logic.".to_owned(),
            );
        }
        assert(recommendations.deep_view() =~= spec_recommendations(*self));
        recommendations
    }
}

/// First recommendation: the error rate exceeds twenty percent.
pub open spec fn spec_rec_part1(s: ScrapingStats) -> Seq<Seq<char>> {
    if 5 * s.error_count > s.success_count + s.error_count {
        seq![
            "High error rate detected. Consider reducing concurrent tasks or increasing delays."@,
        ]
    } else {
        Seq::empty()
    }
}

/// Second recommendation: more than half of the errors were recoverable.
pub open spec fn spec_rec_part2(s: ScrapingStats) -> Seq<Seq<char>> {
    if 2 * s.recoverable_errors > s.error_count && s.recoverable_errors > 0 {
        seq![
            "Many recoverable errors (rate limits, timeouts). Increase delays between requests."@,
        ]
    } else {
        Seq::empty()
    }
}

/// Third recommendation: permanent errors dominate and number more than
/// five.
pub open spec fn spec_rec_part3(s: ScrapingStats) -> Seq<Seq<char>> {
    if s.permanent_errors > s.recoverable_errors && s.permanent_errors > 5 {
        seq!["Many permanent errors detected. Check URLs and CSS selectors."@]
    } else {
        Seq::empty()
    }
}

/// Fourth recommendation: nothing succeeded while something failed.
pub open spec fn spec_rec_part4(s: ScrapingStats) -> Seq<Seq<char>> {
    if s.success_count == 0 && s.error_count > 0 {
        seq![
            "No successful scrapes. Check your configuration, network connection, and target URLs."@,
        ]
    } else {
        Seq::empty()
    }
}

/// Fifth recommendation: a large run whose success rate fell below
/// ninety-five percent.
pub open spec fn spec_rec_part5(s: ScrapingStats) -> Seq<Seq<char>> {
    if s.total > 1000 && (s.success_count + s.error_count == 0 || 20 * s.success_count < 19 * (
    s.success_count + s.error_count)) {
        seq!["Large scraping job with errors. Consider implementing retry logic."@]
    } else {
        Seq::empty()
    }
}

/// The recommendation list, in a fixed order.
pub open spec fn spec_recommendations(s: ScrapingStats) -> Seq<Seq<char>> {
    spec_rec_part1(s) + spec_rec_part2(s) + spec_rec_part3(s) + spec_rec_part4(s) + spec_rec_part5(
        s,
    )
}

} // verus!
