//! The record source, at its interface boundary.
//!
//! Reading the CSV file is I/O and lives outside the library; what is
//! verified here is everything decided about the rows once they are plain
//! text: how the two columns of a row become a validated `ChapterRecord`,
//! how a file's first row is checked, and how row counts are tallied.

use vstd::prelude::*;
use crate::error::{ScrapperError, ScrapperResult};
use crate::strutil::{concat3, spec_dec, spec_trim, str_starts_with, trim_str, u64_to_string};
use crate::types::{ChapterRecord, spec_url_has_scheme};

verus! {

pub struct CsvReader {
    /// The path of the input CSV file.
    pub file_path: String,
}

impl CsvReader {
    pub fn new(file_path: &str) -> (r: Self)
        ensures
            r.file_path@ == file_path@,
    {
        Self { file_path: file_path.to_owned() }
    }
}

/// Builds the record of one CSV row from its two columns, trimming both
/// and rejecting rows whose URL is missing a scheme or whose columns are
/// blank; `line_number` only names the row in the error messages.
pub fn record_from_fields(url_raw: &str, chapter_raw: &str, line_number: u64) -> (r: ScrapperResult<
    ChapterRecord,
>)
    ensures
        ({
            let url = spec_trim(url_raw@);
            let chapter = spec_trim(chapter_raw@);
            &&& (r is Ok <==> url.len() > 0 && spec_url_has_scheme(url) && chapter.len() > 0)
            &&& (r matches Ok(rec) ==> rec.url@ == url && rec.chapter_number@ == chapter)
            &&& (url.len() == 0 ==> (r matches Err(e) && e matches ScrapperError::Csv { message }
                && message@ == "Empty URL at line "@ + spec_dec(line_number as nat)))
            &&& (url.len() > 0 && !spec_url_has_scheme(url) ==> (r matches Err(e)
                && e matches ScrapperError::Csv { message } && message@
                == "Invalid URL format at line "@ + spec_dec(line_number as nat) + ": '"@ + url
                + "'. URLs must start with http:// or https://"@))
            &&& (url.len() > 0 && spec_url_has_scheme(url) && chapter.len() == 0 ==> (
            r matches Err(e) && e matches ScrapperError::Csv { message } && message@
                == "Empty chapter number at line "@ + spec_dec(line_number as nat)))
        }),
{
    let url = trim_str(url_raw);
    let chapter = trim_str(chapter_raw);
    let line_text = u64_to_string(line_number);
    if url.is_empty() {
        let message = crate::strutil::concat2("Empty URL at line ", line_text.as_str());
        return Err(ScrapperError::csv(message.as_str()));
    }
    if !str_starts_with(url, "http://") && !str_starts_with(url, "https://") {
        let head = concat3("Invalid URL format at line ", line_text.as_str(), ": '");
        let message = concat3(
            head.as_str(),
            url,
            "'. URLs must start with http:// or https://",
        );
        return Err(ScrapperError::csv(message.as_str()));
    }
    if chapter.is_empty() {
        let message = crate::strutil::concat2("Empty chapter number at line ", line_text.as_str());
        return Err(ScrapperError::csv(message.as_str()));
    }
    Ok(ChapterRecord::new(url.to_owned(), chapter.to_owned()))
}

/// Checks the first row of a CSV file: it must carry at least two columns,
/// and neither the URL nor the chapter-number column may be blank.
pub fn validate_first_record(num_columns: usize, url_raw: &str, chapter_raw: &str) -> (r:
    ScrapperResult<()>)
    ensures
        r is Ok <==> num_columns >= 2 && spec_trim(url_raw@).len() > 0 && spec_trim(
            chapter_raw@,
        ).len() > 0,
        num_columns < 2 ==> (r matches Err(e) && e matches ScrapperError::Csv { message }
            && message@ == "CSV must have at least 2 columns (url, chapter_number), found "@
            + spec_dec(num_columns as nat) + " columns"@),
        num_columns >= 2 && spec_trim(url_raw@).len() == 0 ==> (r matches Err(e)
            && e matches ScrapperError::Csv { message } && message@
            == "First column (URL) cannot be empty"@),
        num_columns >= 2 && spec_trim(url_raw@).len() > 0 && spec_trim(chapter_raw@).len() == 0
            ==> (r matches Err(e) && e matches ScrapperError::Csv { message } && message@
            == "Second column (chapter_number) cannot be empty"@),
{
    if num_columns < 2 {
        let count_text = crate::strutil::usize_to_string(num_columns);
        let message = concat3(
            "CSV must have at least 2 columns (url, chapter_number), found ",
            count_text.as_str(),
            " columns",
        );
        return Err(ScrapperError::csv(message.as_str()));
    }
    let url = trim_str(url_raw);
    if url.is_empty() {
        return Err(ScrapperError::csv("First column (URL) cannot be empty"));
    }
    let chapter = trim_str(chapter_raw);
    if chapter.is_empty() {
        return Err(ScrapperError::csv("Second column (chapter_number) cannot be empty"));
    }
    Ok(())
}

#[derive(Debug)]
pub struct CsvStats {
    pub total_rows: usize,
    pub valid_rows: usize,
    pub invalid_rows: usize,
}

/// How many rows were read at all (rows whose parse failed carry no column
/// count and are not totalled).
pub open spec fn spec_count_read(rows: Seq<Option<usize>>) -> nat
    decreases rows.len(),
{
    if rows.len() == 0 {
        0
    } else {
        spec_count_read(rows.drop_last()) + if rows.last() is Some {
            1nat
        } else {
            0nat
        }
    }
}

/// How many rows carry at least two columns.
pub open spec fn spec_count_valid(rows: Seq<Option<usize>>) -> nat
    decreases rows.len(),
{
    if rows.len() == 0 {
        0
    } else {
        spec_count_valid(rows.drop_last()) + match rows.last() {
            Some(columns) => if columns >= 2 {
                1nat
            } else {
                0nat
            },
            None => 0nat,
        }
    }
}

impl CsvStats {
    /// Tallies the rows of a CSV file. Each element is the column count of
    /// a row that parsed, or nothing for a row that did not; unparsable
    /// rows count as invalid without entering the total, as the reader
    /// observes them.
    pub fn from_rows(rows: &Vec<Option<usize>>) -> (r: CsvStats)
        requires
            rows@.len() <= usize::MAX,
        ensures
            r.total_rows == spec_count_read(rows@),
            r.valid_rows == spec_count_valid(rows@),
            r.invalid_rows == rows@.len() - spec_count_valid(rows@),
            r.valid_rows <= r.total_rows,
    {
        let mut stats = CsvStats { total_rows: 0, valid_rows: 0, invalid_rows: 0 };
        let mut i: usize = 0;
        proof {
            assert(rows@.take(0) =~= Seq::<Option<usize>>::empty());
        }
        while i < rows.len()
            invariant
                i <= rows@.len(),
                stats.total_rows == spec_count_read(rows@.take(i as int)),
                stats.valid_rows == spec_count_valid(rows@.take(i as int)),
                stats.invalid_rows == i - spec_count_valid(rows@.take(i as int)),
                stats.valid_rows <= stats.total_rows <= i,
            decreases rows@.len() - i,
        {
            proof {
                assert(rows@.take(i + 1).drop_last() =~= rows@.take(i as int));
                assert(rows@.take(i + 1).last() == rows@[i as int]);
            }
            match rows[i] {
                Some(columns) => {
                    stats.total_rows = stats.total_rows + 1;
                    if columns >= 2 {
                        stats.valid_rows = stats.valid_rows + 1;
                    } else {
                        stats.invalid_rows = stats.invalid_rows + 1;
                    }
                },
                None => {
                    stats.invalid_rows = stats.invalid_rows + 1;
                },
            }
            i = i + 1;
        }
        proof {
            assert(rows@.take(rows@.len() as int) =~= rows@);
        }
        stats
    }
}

} // verus!
