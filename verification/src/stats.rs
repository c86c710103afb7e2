//! Counters accumulated once per scan run: monotonic and never negative.

use vstd::prelude::*;

verus! {

/// Per-run counters.  `files_walked` counts every visited entry,
/// `files_scanned` the files read and matched, `files_skipped` the files no
/// scout owned plus the files that could not be read.
#[derive(Debug, Clone, Copy, PartialEq, Eq, Structural)]
pub struct ScanStats {
    pub files_walked: u64,
    pub files_scanned: u64,
    pub files_skipped: u64,
    pub findings_count: u64,
    pub errors_count: u64,
    pub duration_ms: u64,
}

impl ScanStats {
    /// Fresh counters, all zero.
    pub fn new() -> (r: ScanStats)
        ensures
            r == (ScanStats {
                files_walked: 0,
                files_scanned: 0,
                files_skipped: 0,
                findings_count: 0,
                errors_count: 0,
                duration_ms: 0,
            }),
    {
        ScanStats {
            files_walked: 0,
            files_scanned: 0,
            files_skipped: 0,
            findings_count: 0,
            errors_count: 0,
            duration_ms: 0,
        }
    }

    /// Counts one more walked entry.
    pub fn files_walked_up(&mut self)
        requires
            old(self).files_walked < u64::MAX,
        ensures
            final(self).files_walked == old(self).files_walked + 1,
            final(self).files_scanned == old(self).files_scanned,
            final(self).files_skipped == old(self).files_skipped,
            final(self).findings_count == old(self).findings_count,
            final(self).errors_count == old(self).errors_count,
            final(self).duration_ms == old(self).duration_ms,
    {
        self.files_walked = self.files_walked + 1;
    }

    /// Counts one more scanned file.
    pub fn files_scanned_up(&mut self)
        requires
            old(self).files_scanned < u64::MAX,
        ensures
            final(self).files_scanned == old(self).files_scanned + 1,
            final(self).files_walked == old(self).files_walked,
            final(self).files_skipped == old(self).files_skipped,
            final(self).findings_count == old(self).findings_count,
            final(self).errors_count == old(self).errors_count,
            final(self).duration_ms == old(self).duration_ms,
    {
        self.files_scanned = self.files_scanned + 1;
    }

    /// Counts one more finding.
    pub fn findings_count_up(&mut self)
        requires
            old(self).findings_count < u64::MAX,
        ensures
            final(self).findings_count == old(self).findings_count + 1,
            final(self).files_walked == old(self).files_walked,
            final(self).files_scanned == old(self).files_scanned,
            final(self).files_skipped == old(self).files_skipped,
            final(self).errors_count == old(self).errors_count,
            final(self).duration_ms == old(self).duration_ms,
    {
        self.findings_count = self.findings_count + 1;
    }

    /// The number of scanned files.
    pub fn get_files_scanned(&self) -> (r: u64)
        ensures
            r == self.files_scanned,
    {
        self.files_scanned
    }

    /// The number of findings.
    pub fn get_findings_count(&self) -> (r: u64)
        ensures
            r == self.findings_count,
    {
        self.findings_count
    }
}

impl Default for ScanStats {
    /// Fresh counters, all zero.
    fn default() -> (r: ScanStats)
        ensures
            r == (ScanStats {
                files_walked: 0,
                files_scanned: 0,
                files_skipped: 0,
                findings_count: 0,
                errors_count: 0,
                duration_ms: 0,
            }),
    {
        ScanStats::new()
    }
}

} // verus!
