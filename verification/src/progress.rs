//! Progress reporting: counts of files and bytes discovered and copied,
//! drawn as a terminal progress bar.

use vstd::prelude::*;
use vstd::string::*;
use indicatif::{ProgressBar, ProgressStyle};
use std::time::Duration;
use crate::i18n::{Language, TranslationKey};
use crate::io_uring::CopyOperation;

verus! {

/// `indicatif::ProgressBar`, a handle on a bar drawn to the terminal.
#[verifier::external_type_specification]
#[verifier::external_body]
pub struct ExProgressBar(indicatif::ProgressBar);

/// `indicatif::ProgressStyle`, how a bar is drawn.
#[verifier::external_type_specification]
#[verifier::external_body]
pub struct ExProgressStyle(indicatif::ProgressStyle);

/// `ProgressBar::new`: a bar of length `len` drawn to standard error.
#[verifier::external_body]
fn bar_new(len: u64) -> ProgressBar {
    ProgressBar::new(len)
}

/// `ProgressStyle::default_bar`: indicatif's default look of a bar.
#[verifier::external_body]
fn style_default_bar() -> ProgressStyle {
    ProgressStyle::default_bar()
}

/// `ProgressStyle::template`: the style with its template replaced;
/// `None` when the template does not parse.
#[verifier::external_body]
fn style_template(style: ProgressStyle, template: &str) -> Option<ProgressStyle> {
    style.template(template).ok()
}

/// `ProgressStyle::progress_chars`, which takes at least two characters
/// (it panics on fewer grapheme clusters; ASCII characters are one each).
#[verifier::external_body]
fn style_progress_chars(style: ProgressStyle, chars: &str) -> ProgressStyle
    requires
        chars@.len() >= 2,
        forall|i: int| 0 <= i < chars@.len() ==> (chars@[i] as u32) < 128,
{
    style.progress_chars(chars)
}

/// `ProgressBar::set_style`.
#[verifier::external_body]
fn bar_set_style(bar: &ProgressBar, style: ProgressStyle) {
    bar.set_style(style)
}

/// `ProgressBar::set_length`.
#[verifier::external_body]
fn bar_set_length(bar: &ProgressBar, len: u64) {
    bar.set_length(len)
}

/// `ProgressBar::inc`.
#[verifier::external_body]
fn bar_inc(bar: &ProgressBar, delta: u64) {
    bar.inc(delta)
}

/// `ProgressBar::set_position`.
#[verifier::external_body]
fn bar_set_position(bar: &ProgressBar, pos: u64) {
    bar.set_position(pos)
}

/// `ProgressBar::finish_with_message`.
#[verifier::external_body]
fn bar_finish_with_message(bar: &ProgressBar, msg: String) {
    bar.finish_with_message(msg)
}

/// `ProgressBar::elapsed`: the time since the bar was created, read from
/// the clock.
#[verifier::external_body]
fn bar_elapsed(bar: &ProgressBar) -> Duration {
    bar.elapsed()
}

/// Progress tracker for copy operations: it counts the files and bytes
/// found and copied, and draws them as a bar.
#[derive(Debug)]
pub struct ProgressTracker {
    progress_bar: ProgressBar,
    files_discovered: u64,
    bytes_discovered: u64,
    files_copied: u64,
    bytes_copied: u64,
}

/// The counts a progress tracker keeps.
pub struct ProgressCounts {
    /// Files found so far
    pub files_discovered: u64,
    /// Bytes found so far
    pub bytes_discovered: u64,
    /// Files copied so far
    pub files_copied: u64,
    /// Bytes copied so far
    pub bytes_copied: u64,
}

impl View for ProgressTracker {
    type V = ProgressCounts;

    closed spec fn view(&self) -> ProgressCounts {
        ProgressCounts {
            files_discovered: self.files_discovered,
            bytes_discovered: self.bytes_discovered,
            files_copied: self.files_copied,
            bytes_copied: self.bytes_copied,
        }
    }
}

impl Default for ProgressTracker {
    fn default() -> (t: Self)
        ensures
            t@ == (ProgressCounts { files_discovered: 0, bytes_discovered: 0, files_copied: 0, bytes_copied: 0 }),
    {
        ProgressTracker::new()
    }
}

impl ProgressTracker {
    /// A tracker with every count at zero and an empty bar, drawn with a
    /// spinner, the elapsed time, the bar, the bytes copied of the total
    /// and the time left. (Were the fixed template not to parse, the bar
    /// would keep indicatif's default look.)
    pub fn new() -> (t: Self)
        ensures
            t@ == (ProgressCounts { files_discovered: 0, bytes_discovered: 0, files_copied: 0, bytes_copied: 0 }),
    {
        let pb = bar_new(0);
        let template = "{spinner:.green} [{elapsed_precise}] [{wide_bar:.cyan/blue}] {bytes}/{total_bytes} ({eta})";
        match style_template(style_default_bar(), template) {
            Some(style) => {
                proof {
                    reveal_strlit("#>-");
                }
                bar_set_style(&pb, style_progress_chars(style, "#>-"));
            },
            None => {},
        }
        ProgressTracker { progress_bar: pb, files_discovered: 0, bytes_discovered: 0, files_copied: 0, bytes_copied: 0 }
    }

    /// Count a discovered file of `file_size` bytes; the bar's length
    /// becomes the bytes discovered.
    pub fn track_discovery(&mut self, file_size: u64)
        requires
            old(self)@.files_discovered + 1 <= u64::MAX,
            old(self)@.bytes_discovered + file_size <= u64::MAX,
        ensures
            final(self)@ == (ProgressCounts {
                files_discovered: (old(self)@.files_discovered + 1) as u64,
                bytes_discovered: (old(self)@.bytes_discovered + file_size) as u64,
                ..old(self)@
            }),
    {
        self.files_discovered = self.files_discovered + 1;
        self.bytes_discovered = self.bytes_discovered + file_size;
        bar_set_length(&self.progress_bar, self.bytes_discovered);
    }

    /// Set the bar's total length in bytes.
    pub fn set_total(&self, total_bytes: u64) {
        bar_set_length(&self.progress_bar, total_bytes);
    }

    /// Count one more file copied, of `bytes` bytes; the bar advances by
    /// that much.
    pub fn update(&mut self, bytes: u64)
        requires
            old(self)@.files_copied + 1 <= u64::MAX,
            old(self)@.bytes_copied + bytes <= u64::MAX,
        ensures
            final(self)@ == (ProgressCounts {
                files_copied: (old(self)@.files_copied + 1) as u64,
                bytes_copied: (old(self)@.bytes_copied + bytes) as u64,
                ..old(self)@
            }),
    {
        self.bytes_copied = self.bytes_copied + bytes;
        self.files_copied = self.files_copied + 1;
        bar_inc(&self.progress_bar, bytes);
    }

    /// Finish the bar with the "complete" message in `lang`.
    pub fn finish(&self, lang: Language) {
        let message = TranslationKey::ProgressComplete.translate_to(lang);
        bar_finish_with_message(&self.progress_bar, message);
    }

    /// Count a finished copy operation: one more file, and the bytes it
    /// copied; the bar moves to that many bytes when the file is not empty.
    pub fn track_operation(&mut self, operation: &CopyOperation)
        requires
            old(self)@.files_copied + 1 <= u64::MAX,
            old(self)@.bytes_copied + operation.bytes_copied <= u64::MAX,
        ensures
            final(self)@ == (ProgressCounts {
                files_copied: (old(self)@.files_copied + 1) as u64,
                bytes_copied: (old(self)@.bytes_copied + operation.bytes_copied) as u64,
                ..old(self)@
            }),
    {
        self.files_copied = self.files_copied + 1;
        self.bytes_copied = self.bytes_copied + operation.bytes_copied;
        if operation.file_size > 0 {
            bar_set_position(&self.progress_bar, operation.bytes_copied);
        }
    }

    /// The files and bytes copied, and the time since the tracker was made.
    pub fn stats(&self) -> (s: ProgressStats)
        ensures
            s.files_copied == self@.files_copied,
            s.bytes_copied == self@.bytes_copied,
    {
        ProgressStats {
            files_copied: self.files_copied,
            bytes_copied: self.bytes_copied,
            elapsed: bar_elapsed(&self.progress_bar),
        }
    }
}

/// Progress statistics
#[derive(Debug, Clone, Copy, PartialEq, Eq)]
pub struct ProgressStats {
    /// Files copied
    pub files_copied: u64,
    /// Bytes copied
    pub bytes_copied: u64,
    /// Time since tracking began
    pub elapsed: Duration,
}

} // verus!
