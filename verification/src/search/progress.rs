//! The counts a file search keeps while it walks, and how the searched path
//! is shown. Sharing the counts between threads, and the timing of the
//! display, are left to the caller.
use vstd::prelude::*;

use crate::text::{chars_of, chars_start_with, seq_starts_with, string_from_range};

verus! {

/// `a + b` as an unsigned machine word adds it: wrapping past `usize::MAX`.
pub open spec fn wrapped_sum(a: usize, b: usize) -> usize {
    if a + b > usize::MAX {
        (a + b - usize::MAX - 1) as usize
    } else {
        (a + b) as usize
    }
}

/// The prefix of an extended-length path on Windows.
pub open spec fn verbatim_prefix() -> Seq<char> {
    seq!['\\', '\\', '?', '\\']
}

/// `path` without a leading `\\?\`.
pub open spec fn shown_path(path: Seq<char>) -> Seq<char> {
    if seq_starts_with(path, verbatim_prefix()) {
        path.skip(4)
    } else {
        path
    }
}

/// The path as the progress shows it: without a leading `\\?\`.
pub fn get_path_string(path: &str) -> (r: String)
    ensures
        r@ == shown_path(path@),
{
    let chars: Vec<char> = chars_of(path);
    let mut prefix: Vec<char> = Vec::new();
    prefix.push('\\');
    prefix.push('\\');
    prefix.push('?');
    prefix.push('\\');
    assert(prefix@ =~= verbatim_prefix());
    let start: usize = if chars_start_with(&chars, &prefix) {
        4
    } else {
        0
    };
    let r: String = string_from_range(&chars, start, chars.len());
    assert(chars@.subrange(0, chars@.len() as int) =~= chars@);
    assert(chars@.subrange(start as int, chars@.len() as int) =~= chars@.skip(start as int));
    r
}

/// How many files were searched and matched, how many bytes they hold, and
/// how many threads search.
pub struct ProgressMetrics {
    search_counter: usize,
    match_counter: usize,
    search_bytes: usize,
    threads: usize,
}

impl ProgressMetrics {
    /// The count of files searched.
    pub closed spec fn searched(&self) -> usize {
        self.search_counter
    }

    /// The count of files matched.
    pub closed spec fn matched(&self) -> usize {
        self.match_counter
    }

    /// The bytes of the files searched.
    pub closed spec fn bytes(&self) -> usize {
        self.search_bytes
    }

    /// The count of threads.
    pub closed spec fn thread_count(&self) -> usize {
        self.threads
    }

    /// All counts zero.
    pub fn new() -> (r: Self)
        ensures
            r.searched() == 0,
            r.matched() == 0,
            r.bytes() == 0,
            r.thread_count() == 0,
    {
        ProgressMetrics { search_counter: 0, match_counter: 0, search_bytes: 0, threads: 0 }
    }

    /// Counts one more file searched, wrapping past `usize::MAX`.
    pub fn increment_search_count(&mut self)
        ensures
            final(self).searched() == wrapped_sum(old(self).searched(), 1),
            final(self).matched() == old(self).matched(),
            final(self).bytes() == old(self).bytes(),
            final(self).thread_count() == old(self).thread_count(),
    {
        self.search_counter = self.search_counter.wrapping_add(1);
    }

    /// Counts one more file matched, wrapping past `usize::MAX`.
    pub fn increment_match_count(&mut self)
        ensures
            final(self).matched() == wrapped_sum(old(self).matched(), 1),
            final(self).searched() == old(self).searched(),
            final(self).bytes() == old(self).bytes(),
            final(self).thread_count() == old(self).thread_count(),
    {
        self.match_counter = self.match_counter.wrapping_add(1);
    }

    /// Adds the length of a file searched, wrapping past `usize::MAX`.
    pub fn add_search_bytes(&mut self, bytes: usize)
        ensures
            final(self).bytes() == wrapped_sum(old(self).bytes(), bytes),
            final(self).searched() == old(self).searched(),
            final(self).matched() == old(self).matched(),
            final(self).thread_count() == old(self).thread_count(),
    {
        self.search_bytes = self.search_bytes.wrapping_add(bytes);
    }

    /// Sets the count of threads.
    pub fn set_threads(&mut self, threads: usize)
        ensures
            final(self).thread_count() == threads,
            final(self).searched() == old(self).searched(),
            final(self).matched() == old(self).matched(),
            final(self).bytes() == old(self).bytes(),
    {
        self.threads = threads;
    }

    /// The count of files searched.
    pub fn get_search_count(&self) -> (r: usize)
        ensures
            r == self.searched(),
    {
        self.search_counter
    }

    /// The count of files matched.
    pub fn get_match_count(&self) -> (r: usize)
        ensures
            r == self.matched(),
    {
        self.match_counter
    }

    /// The bytes of the files searched.
    pub fn get_search_bytes(&self) -> (r: usize)
        ensures
            r == self.bytes(),
    {
        self.search_bytes
    }

    /// The count of threads.
    pub fn get_threads(&self) -> (r: usize)
        ensures
            r == self.thread_count(),
    {
        self.threads
    }
}

/// What a search shows while it runs: its counts, the path searched, and
/// its duration, which stops changing once the search is terminated. The
/// caller measures the time and draws the table.
pub struct SearchMetrics {
    metrics: ProgressMetrics,
    path: String,
    duration: u128,
    display_interval: u128,
    terminated: bool,
}

impl SearchMetrics {
    /// The counts.
    pub closed spec fn metrics_view(&self) -> ProgressMetrics {
        self.metrics
    }

    /// The path as shown.
    pub closed spec fn path_view(&self) -> Seq<char> {
        self.path@
    }

    /// The last duration measured, in nanoseconds.
    pub closed spec fn duration_view(&self) -> u128 {
        self.duration
    }

    /// The time between two displays, in nanoseconds.
    pub closed spec fn interval_view(&self) -> u128 {
        self.display_interval
    }

    /// Whether the search was terminated.
    pub closed spec fn terminated_view(&self) -> bool {
        self.terminated
    }

    /// Metrics shown every `display_interval` nanoseconds, with all counts
    /// zero.
    pub fn new(display_interval: u128) -> (r: Self)
        ensures
            r.metrics_view().searched() == 0,
            r.metrics_view().matched() == 0,
            r.metrics_view().bytes() == 0,
            r.metrics_view().thread_count() == 0,
            r.path_view() == Seq::<char>::empty(),
            r.duration_view() == 0,
            r.interval_view() == display_interval,
            !r.terminated_view(),
    {
        SearchMetrics {
            metrics: ProgressMetrics::new(),
            path: String::new(),
            duration: 0,
            display_interval,
            terminated: false,
        }
    }

    /// The counts.
    pub fn get_metrics(&self) -> (r: &ProgressMetrics)
        ensures
            *r == self.metrics_view(),
    {
        &self.metrics
    }

    /// The counts, to be changed.
    pub fn get_metrics_mut(&mut self) -> (r: &mut ProgressMetrics)
        ensures
            *r == old(self).metrics_view(),
            final(self).metrics_view() == *final(r),
            final(self).path_view() == old(self).path_view(),
            final(self).duration_view() == old(self).duration_view(),
            final(self).interval_view() == old(self).interval_view(),
            final(self).terminated_view() == old(self).terminated_view(),
    {
        &mut self.metrics
    }

    /// The duration of the search, given the time `elapsed` since it began:
    /// `elapsed`, which is kept, until the search is terminated; after that
    /// the duration kept last.
    pub fn get_duration(&mut self, elapsed: u128) -> (r: u128)
        ensures
            old(self).terminated_view() ==> r == old(self).duration_view() && final(self).duration_view()
                == old(self).duration_view(),
            !old(self).terminated_view() ==> r == elapsed && final(self).duration_view() == elapsed,
            final(self).metrics_view() == old(self).metrics_view(),
            final(self).path_view() == old(self).path_view(),
            final(self).interval_view() == old(self).interval_view(),
            final(self).terminated_view() == old(self).terminated_view(),
    {
        if self.terminated {
            return self.duration;
        }
        self.duration = elapsed;
        elapsed
    }

    /// Sets the path searched, shown without a leading `\\?\`.
    pub fn set_search_path(&mut self, path: &str)
        ensures
            final(self).path_view() == shown_path(path@),
            final(self).metrics_view() == old(self).metrics_view(),
            final(self).duration_view() == old(self).duration_view(),
            final(self).interval_view() == old(self).interval_view(),
            final(self).terminated_view() == old(self).terminated_view(),
    {
        self.path = get_path_string(path);
    }

    /// The path as shown.
    pub fn get_search_path(&self) -> (r: &str)
        ensures
            r@ == self.path_view(),
    {
        self.path.as_str()
    }

    /// True when the progress is due to be shown again, `since_display`
    /// nanoseconds after it was last shown.
    pub fn display_due(&self, since_display: u128) -> (r: bool)
        ensures
            r == (since_display >= self.interval_view()),
    {
        since_display >= self.display_interval
    }

    /// Ends the search: its duration no longer changes.
    pub fn terminate(&mut self)
        ensures
            final(self).terminated_view(),
            final(self).metrics_view() == old(self).metrics_view(),
            final(self).path_view() == old(self).path_view(),
            final(self).duration_view() == old(self).duration_view(),
            final(self).interval_view() == old(self).interval_view(),
    {
        self.terminated = true;
    }
}

} // verus!
