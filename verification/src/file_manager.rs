//! The output directory, at its interface boundary.
//!
//! Touching the file system is I/O and lives outside the library; what is
//! verified here is every decision made about the observations: which file
//! names belong to this run, where a record's output goes, when an
//! existing file counts as done, what the per-file statistics are, and
//! which files a cleanup removes.

use vstd::prelude::*;
use vstd::string::*;
use crate::strutil::{concat2, spec_trim, str_ends_with, str_starts_with, trim_str};
use crate::types::ChapterRecord;

verus! {

/// Statistics over the chapter files found in the output directory.
#[derive(Debug)]
pub struct FileManagerStats {
    pub total_files: usize,
    pub empty_files: usize,
    pub small_files: usize,
    pub total_size: u64,
}

impl FileManagerStats {
    /// The per-file tallies never outnumber the files seen.
    pub open spec fn wf(&self) -> bool {
        &&& self.empty_files <= self.total_files
        &&& self.small_files <= self.total_files
    }

    /// The files that hold any content at all.
    pub fn valid_files(&self) -> (r: usize)
        requires
            self.empty_files <= self.total_files,
        ensures
            r == self.total_files - self.empty_files,
    {
        self.total_files - self.empty_files
    }
}

/// The sum of the observed file sizes.
pub open spec fn spec_size_sum(sizes: Seq<u64>) -> int
    decreases sizes.len(),
{
    if sizes.len() == 0 {
        0
    } else {
        spec_size_sum(sizes.drop_last()) + sizes.last()
    }
}

/// How many observed sizes equal zero.
pub open spec fn spec_count_empty(sizes: Seq<u64>) -> nat
    decreases sizes.len(),
{
    if sizes.len() == 0 {
        0
    } else {
        spec_count_empty(sizes.drop_last()) + if sizes.last() == 0 {
            1nat
        } else {
            0nat
        }
    }
}

/// How many observed sizes fall below 100 bytes.
pub open spec fn spec_count_small(sizes: Seq<u64>) -> nat
    decreases sizes.len(),
{
    if sizes.len() == 0 {
        0
    } else {
        spec_count_small(sizes.drop_last()) + if sizes.last() < 100 {
            1nat
        } else {
            0nat
        }
    }
}

/// Whether a directory entry's name is one of this run's chapter files.
pub fn is_chapter_file_name(name: &str) -> (r: bool)
    ensures
        r == ("chapter_"@.is_prefix_of(name@) && ".txt"@.is_suffix_of(name@)),
{
    str_starts_with(name, "chapter_") && str_ends_with(name, ".txt")
}

/// Tallies the chapter files of the output directory from their observed
/// sizes: how many there are, their combined size, and how many are empty
/// or suspiciously small.
pub fn stats_from_sizes(sizes: &Vec<u64>) -> (r: FileManagerStats)
    requires
        sizes@.len() <= usize::MAX,
        spec_size_sum(sizes@) <= u64::MAX,
    ensures
        r.wf(),
        r.total_files == sizes@.len(),
        r.total_size == spec_size_sum(sizes@),
        r.empty_files == spec_count_empty(sizes@),
        r.small_files == spec_count_small(sizes@),
{
    let mut stats = FileManagerStats {
        total_files: 0,
        empty_files: 0,
        small_files: 0,
        total_size: 0,
    };
    let mut i: usize = 0;
    proof {
        assert(sizes@.take(0) =~= Seq::<u64>::empty());
    }
    while i < sizes.len()
        invariant
            i <= sizes@.len(),
            spec_size_sum(sizes@) <= u64::MAX,
            stats.total_files == i,
            stats.total_size == spec_size_sum(sizes@.take(i as int)),
            stats.empty_files == spec_count_empty(sizes@.take(i as int)),
            stats.small_files == spec_count_small(sizes@.take(i as int)),
            stats.empty_files <= i,
            stats.small_files <= i,
        decreases sizes@.len() - i,
    {
        proof {
            assert(sizes@.take(i + 1).drop_last() =~= sizes@.take(i as int));
            assert(sizes@.take(i + 1).last() == sizes@[i as int]);
            lemma_size_sum_prefix_bound(sizes@, i + 1);
        }
        let size = sizes[i];
        stats.total_files = stats.total_files + 1;
        stats.total_size = stats.total_size + size;
        if size == 0 {
            stats.empty_files = stats.empty_files + 1;
        }
        if size < 100 {
            stats.small_files = stats.small_files + 1;
        }
        i = i + 1;
    }
    proof {
        assert(sizes@.take(sizes@.len() as int) =~= sizes@);
    }
    stats
}

proof fn lemma_size_sum_prefix_bound(sizes: Seq<u64>, j: int)
    requires
        0 <= j <= sizes.len(),
    ensures
        spec_size_sum(sizes.take(j)) <= spec_size_sum(sizes),
    decreases sizes.len() - j,
{
    if j == sizes.len() {
        assert(sizes.take(j) =~= sizes);
    } else {
        lemma_size_sum_prefix_bound(sizes, j + 1);
        assert(sizes.take(j + 1).drop_last() =~= sizes.take(j));
        assert(sizes.take(j + 1).last() == sizes[j]);
    }
}

/// What a cleanup does with one chapter file.
#[derive(Debug, PartialEq, Eq, Structural)]
pub enum CleanupAction {
    /// The file stays.
    Keep,
    /// The file is removed because it is empty.
    RemoveEmpty,
    /// The file is removed because it is small and its content is blank or
    /// shorter than 50 characters.
    RemoveSmall,
}

/// Decides what a cleanup does with one chapter file, from its observed
/// size and — for files under 50 bytes — its content, when it could be
/// read. Empty files always go; small files go when their content reads as
/// blank or short; everything else stays.
pub fn cleanup_action(size: u64, content: Option<&String>) -> (r: CleanupAction)
    ensures
        size == 0 ==> r == CleanupAction::RemoveEmpty,
        size > 0 && size < 50 ==> match content {
            Some(text) => r == (if spec_trim(text@).len() == 0 || text@.len() < 50 {
                CleanupAction::RemoveSmall
            } else {
                CleanupAction::Keep
            }),
            None => r == CleanupAction::Keep,
        },
        size >= 50 ==> r == CleanupAction::Keep,
{
    if size == 0 {
        return CleanupAction::RemoveEmpty;
    }
    if size < 50 {
        match content {
            Some(text) => {
                let trimmed = trim_str(text.as_str());
                if trimmed.is_empty() || text.as_str().unicode_len() < 50 {
                    CleanupAction::RemoveSmall
                } else {
                    CleanupAction::Keep
                }
            },
            None => CleanupAction::Keep,
        }
    } else {
        CleanupAction::Keep
    }
}

/// Statistics of one cleanup run.
#[derive(Debug)]
pub struct CleanupStats {
    pub total_checked: usize,
    pub removed_empty: usize,
    pub removed_small: usize,
}

impl CleanupStats {
    /// The removals never outnumber the files checked.
    pub open spec fn wf(&self) -> bool {
        self.removed_empty + self.removed_small <= self.total_checked
    }

    pub fn new() -> (r: Self)
        ensures
            r.wf(),
            r.total_checked == 0,
            r.removed_empty == 0,
            r.removed_small == 0,
    {
        CleanupStats { total_checked: 0, removed_empty: 0, removed_small: 0 }
    }

    /// Record the action taken on one checked file.
    pub fn record_action(&mut self, action: &CleanupAction)
        requires
            old(self).wf(),
            old(self).total_checked < usize::MAX,
        ensures
            final(self).wf(),
            final(self).total_checked == old(self).total_checked + 1,
            final(self).removed_empty == old(self).removed_empty + (
            if *action == CleanupAction::RemoveEmpty {
                1int
            } else {
                0int
            }),
            final(self).removed_small == old(self).removed_small + (
            if *action == CleanupAction::RemoveSmall {
                1int
            } else {
                0int
            }),
    {
        self.total_checked = self.total_checked + 1;
        match action {
            CleanupAction::RemoveEmpty => {
                self.removed_empty = self.removed_empty + 1;
            },
            CleanupAction::RemoveSmall => {
                self.removed_small = self.removed_small + 1;
            },
            CleanupAction::Keep => {},
        }
    }

    /// How many files the cleanup removed in all.
    pub fn total_removed(&self) -> (r: usize)
        requires
            self.wf(),
        ensures
            r == self.removed_empty + self.removed_small,
    {
        self.removed_empty + self.removed_small
    }
}

pub struct FileManager {
    /// The output directory's path.
    pub output_dir: String,
}

impl FileManager {
    pub fn new(output_dir: &str) -> (r: Self)
        ensures
            r.output_dir@ == output_dir@,
    {
        Self { output_dir: output_dir.to_owned() }
    }

    /// Whether a record's output already exists and holds content.
    /// `observed_size` is what the file system reports for the record's
    /// output path: the byte size of the regular file there, or nothing
    /// when there is none.
    pub fn chapter_exists(&self, observed_size: &Option<u64>) -> (r: bool)
        ensures
            r == match *observed_size {
                Some(size) => size > 0,
                None => false,
            },
    {
        match observed_size {
            Some(size) => *size > 0,
            None => false,
        }
    }

    /// The path of a record's output file, under the output directory.
    pub fn get_chapter_path(&self, record: &ChapterRecord) -> (r: String)
        ensures
            r@ == self.output_dir@ + "/"@ + "chapter_"@ + record.chapter_number@ + ".txt"@,
    {
        let name = record.file_name();
        let head = concat2(self.output_dir.as_str(), "/");
        concat2(head.as_str(), name.as_str())
    }

    /// The output directory's path.
    pub fn output_dir(&self) -> (r: &String)
        ensures
            r@ == self.output_dir@,
    {
        &self.output_dir
    }
}

} // verus!
