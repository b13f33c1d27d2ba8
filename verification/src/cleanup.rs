//! Temporary-file cleanup: which directories are swept, in which order and with
//! which progress line, what the sweep does with each entry it meets (it never
//! follows a link out of the directory), how the outcome of sweeping a directory
//! is counted, how the per-directory counts add up, and the texts shown after it
//! runs. The application walks the file system and removes the files; it reports
//! here what happened to each entry.

use vstd::prelude::*;
use crate::size_format::{format_bytes, spec_format_bytes};
use crate::text::{
    chars_of, decimal, parse_u64, parse_unsigned, push_all, push_decimal, push_str, string_of,
    trim, trim_bounds,
};

verus! {

/// Counts from a cleanup run.
#[derive(Clone, Copy, PartialEq, Eq, Structural, Debug)]
pub struct CleanupStats {
    /// Files and directories removed.
    pub deleted: u64,
    /// Files that could not be removed, and directories that could not be read.
    pub failed: u64,
    /// Sizes of the files removed, in bytes.
    pub bytes_freed: u64,
}

impl Default for CleanupStats {
    fn default() -> (s: Self)
        ensures
            s.deleted == 0 && s.failed == 0 && s.bytes_freed == 0,
    {
        CleanupStats { deleted: 0, failed: 0, bytes_freed: 0 }
    }
}

/// Counts as mathematical integers, for stating sums without overflow.
pub struct Totals {
    pub deleted: nat,
    pub failed: nat,
    pub bytes: nat,
}

pub open spec fn zero_totals() -> Totals {
    Totals { deleted: 0, failed: 0, bytes: 0 }
}

pub open spec fn add_totals(a: Totals, b: Totals) -> Totals {
    Totals { deleted: a.deleted + b.deleted, failed: a.failed + b.failed, bytes: a.bytes + b.bytes }
}

pub open spec fn totals_of(s: CleanupStats) -> Totals {
    Totals { deleted: s.deleted as nat, failed: s.failed as nat, bytes: s.bytes_freed as nat }
}

pub open spec fn totals_fit(t: Totals) -> bool {
    t.deleted <= u64::MAX && t.failed <= u64::MAX && t.bytes <= u64::MAX
}

/// What happened to one entry of a directory being swept.
#[derive(Clone, Copy, PartialEq, Eq, Structural, Debug)]
pub enum EntryOutcome {
    /// The running executable itself: never touched.
    SkippedSelf,
    /// A subdirectory: the counts from sweeping it, and whether it could then be removed.
    Directory { inner: CleanupStats, removed: bool },
    /// A file that was removed; `size` is what its metadata reported (0 when unreadable).
    FileRemoved { size: u64 },
    /// A file that could not be removed.
    FileFailed,
}

/// How one entry counts towards its directory's totals.
pub open spec fn outcome_totals(o: EntryOutcome) -> Totals {
    match o {
        EntryOutcome::SkippedSelf => zero_totals(),
        EntryOutcome::Directory { inner, removed } => Totals {
            deleted: if removed {
                inner.deleted as nat + 1
            } else {
                inner.deleted as nat
            },
            failed: inner.failed as nat,
            bytes: inner.bytes_freed as nat,
        },
        EntryOutcome::FileRemoved { size } => Totals { deleted: 1, failed: 0, bytes: size as nat },
        EntryOutcome::FileFailed => Totals { deleted: 0, failed: 1, bytes: 0 },
    }
}

/// The sum of the entries' totals.
pub open spec fn entries_totals(s: Seq<EntryOutcome>) -> Totals
    decreases s.len(),
{
    if s.len() == 0 {
        zero_totals()
    } else {
        add_totals(entries_totals(s.drop_last()), outcome_totals(s.last()))
    }
}

/// The totals of sweeping a directory: one failure when it could not be read,
/// else the sum over its entries.
pub open spec fn directory_totals(listing: Option<Seq<EntryOutcome>>) -> Totals {
    match listing {
        None => Totals { deleted: 0, failed: 1, bytes: 0 },
        Some(s) => entries_totals(s),
    }
}

/// The sum of a sequence of per-directory counts.
pub open spec fn stats_sum(s: Seq<CleanupStats>) -> Totals
    decreases s.len(),
{
    if s.len() == 0 {
        zero_totals()
    } else {
        add_totals(stats_sum(s.drop_last()), totals_of(s.last()))
    }
}

proof fn lemma_entries_totals_prefix_le(s: Seq<EntryOutcome>, k: int)
    requires
        0 <= k <= s.len(),
    ensures
        entries_totals(s.take(k)).deleted <= entries_totals(s).deleted,
        entries_totals(s.take(k)).failed <= entries_totals(s).failed,
        entries_totals(s.take(k)).bytes <= entries_totals(s).bytes,
    decreases s.len(),
{
    if k < s.len() {
        assert(s.drop_last().take(k) =~= s.take(k));
        lemma_entries_totals_prefix_le(s.drop_last(), k);
    } else {
        assert(s.take(k) =~= s);
    }
}

proof fn lemma_stats_sum_prefix_le(s: Seq<CleanupStats>, k: int)
    requires
        0 <= k <= s.len(),
    ensures
        stats_sum(s.take(k)).deleted <= stats_sum(s).deleted,
        stats_sum(s.take(k)).failed <= stats_sum(s).failed,
        stats_sum(s.take(k)).bytes <= stats_sum(s).bytes,
    decreases s.len(),
{
    if k < s.len() {
        assert(s.drop_last().take(k) =~= s.take(k));
        lemma_stats_sum_prefix_le(s.drop_last(), k);
    } else {
        assert(s.take(k) =~= s);
    }
}

/// Totals are additive: the totals of a run over two lists of directories, one after
/// the other, are the totals of each list added up.
pub proof fn law_totals_additive(a: Seq<CleanupStats>, b: Seq<CleanupStats>)
    ensures
        stats_sum(a + b) == add_totals(stats_sum(a), stats_sum(b)),
    decreases b.len(),
{
    if b.len() == 0 {
        assert(a + b =~= a);
    } else {
        law_totals_additive(a, b.drop_last());
        assert((a + b).drop_last() =~= a + b.drop_last());
    }
}

/// Skipping the running executable changes no count: a directory's totals are the
/// same with or without entries for it.
pub proof fn law_self_never_counted(s: Seq<EntryOutcome>)
    ensures
        entries_totals(s.push(EntryOutcome::SkippedSelf)) == entries_totals(s),
{
    assert(s.push(EntryOutcome::SkippedSelf).drop_last() =~= s);
}

/// What the sweep does with one entry of a directory it walks.
#[derive(Clone, Copy, PartialEq, Eq, Structural, Debug)]
pub enum EntryAction {
    /// Leave it: it is the running executable.
    Skip,
    /// A real subdirectory: sweep it, then remove it if it is empty.
    Recurse,
    /// Remove the file.
    RemoveFile,
    /// Remove the link itself (a symbolic link or junction), without following it.
    RemoveLink,
}

/// The sweep's decision for an entry, from its own file type (which does not follow
/// links): the running executable is left alone, a link is removed as a link and
/// never walked into, a directory is swept, anything else is removed as a file.
pub open spec fn spec_entry_action(is_self: bool, is_dir: bool, is_link: bool) -> EntryAction {
    if is_self {
        EntryAction::Skip
    } else if is_link {
        EntryAction::RemoveLink
    } else if is_dir {
        EntryAction::Recurse
    } else {
        EntryAction::RemoveFile
    }
}

pub fn entry_action(is_self: bool, is_dir: bool, is_link: bool) -> (a: EntryAction)
    ensures
        a == spec_entry_action(is_self, is_dir, is_link),
{
    if is_self {
        EntryAction::Skip
    } else if is_link {
        EntryAction::RemoveLink
    } else if is_dir {
        EntryAction::Recurse
    } else {
        EntryAction::RemoveFile
    }
}

/// The sweep stays inside the directories it was given: it walks into an entry only
/// when that entry is a real directory and not a link, never touches the running
/// executable, and removes a link without following it.
pub proof fn law_sweep_never_follows_links(is_self: bool, is_dir: bool, is_link: bool)
    ensures
        spec_entry_action(is_self, is_dir, is_link) is Recurse <==> (!is_self && is_dir && !is_link),
        is_self <==> spec_entry_action(is_self, is_dir, is_link) is Skip,
        is_link && !is_self ==> spec_entry_action(is_self, is_dir, is_link) is RemoveLink,
{
}

/// The counts of sweeping one directory, from what happened to each of its entries
/// (`None` when the directory could not be read).
pub fn tally_directory(listing: &Option<Vec<EntryOutcome>>) -> (r: CleanupStats)
    requires
        totals_fit(
            directory_totals(
                match listing {
                    None => None,
                    Some(v) => Some(v@),
                },
            ),
        ),
    ensures
        totals_of(r) == directory_totals(
            match listing {
                None => None,
                Some(v) => Some(v@),
            },
        ),
{
    match listing {
        None => CleanupStats { deleted: 0, failed: 1, bytes_freed: 0 },
        Some(v) => {
            let mut acc = CleanupStats { deleted: 0, failed: 0, bytes_freed: 0 };
            let mut i: usize = 0;
            while i < v.len()
                invariant
                    0 <= i <= v.len(),
                    totals_fit(entries_totals(v@)),
                    totals_of(acc) == entries_totals(v@.take(i as int)),
                decreases v.len() - i,
            {
                proof {
                    assert(v@.take(i + 1).drop_last() =~= v@.take(i as int));
                    lemma_entries_totals_prefix_le(v@, i + 1);
                }
                match v[i] {
                    EntryOutcome::SkippedSelf => {},
                    EntryOutcome::Directory { inner, removed } => {
                        acc.deleted = acc.deleted + inner.deleted;
                        acc.failed = acc.failed + inner.failed;
                        acc.bytes_freed = acc.bytes_freed + inner.bytes_freed;
                        if removed {
                            acc.deleted = acc.deleted + 1;
                        }
                    },
                    EntryOutcome::FileRemoved { size } => {
                        acc.deleted = acc.deleted + 1;
                        acc.bytes_freed = acc.bytes_freed + size;
                    },
                    EntryOutcome::FileFailed => {
                        acc.failed = acc.failed + 1;
                    },
                }
                i += 1;
            }
            assert(v@.take(v.len() as int) =~= v@);
            acc
        },
    }
}

/// The sum of per-directory counts.
fn sum_stats(per_directory: &Vec<CleanupStats>) -> (r: CleanupStats)
    requires
        totals_fit(stats_sum(per_directory@)),
    ensures
        totals_of(r) == stats_sum(per_directory@),
{
    let mut acc = CleanupStats { deleted: 0, failed: 0, bytes_freed: 0 };
    let mut i: usize = 0;
    while i < per_directory.len()
        invariant
            0 <= i <= per_directory.len(),
            totals_fit(stats_sum(per_directory@)),
            totals_of(acc) == stats_sum(per_directory@.take(i as int)),
        decreases per_directory.len() - i,
    {
        proof {
            assert(per_directory@.take(i + 1).drop_last() =~= per_directory@.take(i as int));
            lemma_stats_sum_prefix_le(per_directory@, i + 1);
        }
        let s = per_directory[i];
        acc.deleted = acc.deleted + s.deleted;
        acc.failed = acc.failed + s.failed;
        acc.bytes_freed = acc.bytes_freed + s.bytes_freed;
        i += 1;
    }
    assert(per_directory@.take(per_directory.len() as int) =~= per_directory@);
    acc
}

/// The line shown under the cleanup phase while a directory is swept.
pub open spec fn spec_progress_message(label: Seq<char>, completed: nat, total: nat) -> Seq<char> {
    "Cleaning "@ + label + " ("@ + decimal(completed) + seq!['/'] + decimal(total) + seq![')']
}

/// `Cleaning {label} ({completed}/{total})`.
pub fn progress_message(label: &str, completed: usize, total: usize) -> (s: String)
    ensures
        s@ == spec_progress_message(label@, completed as nat, total as nat),
{
    let mut out: Vec<char> = Vec::new();
    push_str(&mut out, "Cleaning ");
    push_str(&mut out, label);
    push_str(&mut out, " (");
    push_decimal(&mut out, completed as u128);
    out.push('/');
    push_decimal(&mut out, total as u128);
    out.push(')');
    assert(out@ =~= spec_progress_message(label@, completed as nat, total as nat));
    string_of(&out)
}

/// How many of the flags are set.
pub open spec fn count_set(flags: Seq<bool>) -> nat
    decreases flags.len(),
{
    if flags.len() == 0 {
        0
    } else {
        count_set(flags.drop_last()) + if flags.last() {
            1nat
        } else {
            0nat
        }
    }
}

/// The progress lines for the first `k` directories: each directory that exists
/// gets, in turn, `Cleaning {label} ({j}/{total})`, `j` counting the existing
/// directories up to it; a missing one gets none.
pub open spec fn progress_messages_upto(
    labels: Seq<Seq<char>>,
    exists: Seq<bool>,
    k: int,
    total: nat,
) -> Seq<(nat, Seq<char>)>
    decreases k,
{
    if k <= 0 {
        seq![]
    } else {
        let prev = progress_messages_upto(labels, exists, k - 1, total);
        if exists[k - 1] {
            prev.push(
                (
                    (k - 1) as nat,
                    spec_progress_message(labels[k - 1], count_set(exists.take(k)), total),
                ),
            )
        } else {
            prev
        }
    }
}

/// The progress lines of a cleanup run over directories with these labels, of which
/// those flagged exist: `(directory index, line)`, in order; none when no directory
/// exists.
pub open spec fn spec_progress_messages(labels: Seq<Seq<char>>, exists: Seq<bool>) -> Seq<
    (nat, Seq<char>),
> {
    progress_messages_upto(labels, exists, exists.len() as int, count_set(exists))
}

pub open spec fn string_views(v: Seq<String>) -> Seq<Seq<char>> {
    Seq::new(v.len(), |i: int| v[i]@)
}

pub open spec fn line_views(v: Seq<(usize, String)>) -> Seq<(nat, Seq<char>)> {
    Seq::new(v.len(), |i: int| (v[i].0 as nat, v[i].1@))
}

/// The lines shown while the directories are swept (see `spec_progress_messages`).
/// `labels[i]` is the last component of directory `i` (or its whole path), and
/// `exists[i]` tells whether it exists.
pub fn progress_messages(labels: &Vec<String>, exists: &Vec<bool>) -> (r: Vec<(usize, String)>)
    requires
        labels.len() == exists.len(),
    ensures
        line_views(r@) == spec_progress_messages(string_views(labels@), exists@),
{
    let n = exists.len();
    let mut total: usize = 0;
    let mut i: usize = 0;
    while i < n
        invariant
            i <= n == exists.len(),
            total == count_set(exists@.take(i as int)),
            total <= i,
        decreases n - i,
    {
        assert(exists@.take(i + 1).drop_last() =~= exists@.take(i as int));
        if exists[i] {
            total += 1;
        }
        i += 1;
    }
    assert(exists@.take(n as int) =~= exists@);
    let ghost ls = string_views(labels@);
    let mut out: Vec<(usize, String)> = Vec::new();
    let mut done: usize = 0;
    let mut j: usize = 0;
    while j < n
        invariant
            j <= n == exists.len() == labels.len(),
            ls == string_views(labels@),
            total == count_set(exists@),
            done == count_set(exists@.take(j as int)),
            done <= j,
            line_views(out@) == progress_messages_upto(ls, exists@, j as int, total as nat),
        decreases n - j,
    {
        assert(exists@.take(j + 1).drop_last() =~= exists@.take(j as int));
        if exists[j] {
            done += 1;
            let line = progress_message(labels[j].as_str(), done, total);
            let ghost before = out@;
            out.push((j, line));
            assert(line_views(out@) =~= line_views(before).push((j as nat, line@)));
        }
        j += 1;
    }
    out
}

/// What holds of every progress line: it is for a directory that exists, and the
/// directories come in increasing order, one line each.
proof fn lemma_progress_lines(labels: Seq<Seq<char>>, exists: Seq<bool>, k: int, total: nat)
    requires
        0 <= k <= exists.len(),
    ensures
        progress_messages_upto(labels, exists, k, total).len() == count_set(exists.take(k)),
        forall|j: int|
            0 <= j < progress_messages_upto(labels, exists, k, total).len() ==> {
                let i = #[trigger] progress_messages_upto(labels, exists, k, total)[j].0;
                i < k && exists[i as int]
            },
        forall|j1: int, j2: int|
            0 <= j1 < j2 < progress_messages_upto(labels, exists, k, total).len()
                ==> #[trigger] progress_messages_upto(labels, exists, k, total)[j1].0
                < #[trigger] progress_messages_upto(labels, exists, k, total)[j2].0,
    decreases k,
{
    if k > 0 {
        lemma_progress_lines(labels, exists, k - 1, total);
        assert(exists.take(k).drop_last() =~= exists.take(k - 1));
    } else {
        assert(exists.take(0) =~= Seq::<bool>::empty());
    }
}

/// A cleanup run under way: the directories to sweep, in order, each with the line
/// shown while it is swept (`lines`, one per existing directory, by index into the
/// list of directories), and the counts of the directories swept so far (`swept`).
pub struct CleanupRun {
    pub lines: Vec<(usize, String)>,
    pub swept: Vec<CleanupStats>,
}

/// Starts a cleanup run over directories with these labels, of which those flagged
/// exist: only the existing directories are swept, in the order listed, and the
/// k-th of n shows `Cleaning {label} (k/n)`.
pub fn clean_temp_files(labels: &Vec<String>, exists: &Vec<bool>) -> (r: CleanupRun)
    requires
        labels.len() == exists.len(),
    ensures
        line_views(r.lines@) == spec_progress_messages(string_views(labels@), exists@),
        r.lines.len() == count_set(exists@),
        forall|j: int|
            0 <= j < r.lines.len() ==> (#[trigger] r.lines@[j]).0 < exists.len() && exists@[r.lines@[j].0 as int],
        forall|j1: int, j2: int|
            0 <= j1 < j2 < r.lines.len() ==> (#[trigger] r.lines@[j1]).0 < (#[trigger] r.lines@[j2]).0,
        r.swept@ == Seq::<CleanupStats>::empty(),
{
    let lines = progress_messages(labels, exists);
    proof {
        lemma_progress_lines(string_views(labels@), exists@, exists@.len() as int, count_set(exists@));
        assert(exists@.take(exists@.len() as int) =~= exists@);
        assert forall|j: int| 0 <= j < lines.len() implies (#[trigger] lines@[j]).0 as nat == line_views(lines@)[j].0 by {}
    }
    CleanupRun { lines, swept: Vec::new() }
}

impl CleanupRun {
    /// The next directory to sweep and the line to show for it: the line after
    /// those of the directories already swept; `None` once all are swept.
    pub fn next_directory(&self) -> (r: Option<(usize, String)>)
        ensures
            self.swept.len() < self.lines.len() ==> (r matches Some(x) && x.0 == self.lines@[self.swept.len() as int].0 && x.1@ == self.lines@[self.swept.len() as int].1@),
            self.swept.len() >= self.lines.len() ==> r is None,
    {
        let k = self.swept.len();
        if k < self.lines.len() {
            let (i, line) = &self.lines[k];
            Some((*i, line.clone()))
        } else {
            None
        }
    }

    /// Records the counts of the directory just swept.
    pub fn record(&mut self, stats: CleanupStats)
        ensures
            final(self).swept@ == old(self).swept@.push(stats),
            final(self).lines@ == old(self).lines@,
    {
        self.swept.push(stats);
    }

    /// The counts of the whole run: the sum of the counts of the directories swept.
    pub fn totals(&self) -> (r: CleanupStats)
        requires
            totals_fit(stats_sum(self.swept@)),
        ensures
            totals_of(r) == stats_sum(self.swept@),
    {
        sum_stats(&self.swept)
    }
}

/// The notification text after a cleanup run.
pub open spec fn spec_summary_message(stats: CleanupStats) -> Seq<char> {
    "Freed "@ + spec_format_bytes(stats.bytes_freed) + " · "@ + decimal(stats.deleted as nat)
        + " files cleaned"@
}

/// `Freed {size} · {n} files cleaned`.
pub fn summary_message(stats: &CleanupStats) -> (s: String)
    ensures
        s@ == spec_summary_message(*stats),
{
    let mut out: Vec<char> = Vec::new();
    push_str(&mut out, "Freed ");
    let size = format_bytes(stats.bytes_freed);
    push_str(&mut out, size.as_str());
    push_str(&mut out, " · ");
    push_decimal(&mut out, stats.deleted as u128);
    push_str(&mut out, " files cleaned");
    assert(out@ =~= spec_summary_message(*stats));
    string_of(&out)
}

/// The free space that `(Get-PSDrive C).Free` printed: its trimmed output as a `u64`.
pub fn available_bytes_on_c(stdout: &str) -> (r: Option<u64>)
    ensures
        r matches Some(x) ==> parse_unsigned(trim(stdout@), u64::MAX as nat) == Some(x as nat),
        r is None ==> parse_unsigned(trim(stdout@), u64::MAX as nat) is None,
{
    let v = chars_of(stdout);
    assert(v@.subrange(0, v@.len() as int) =~= v@);
    let (a, b) = trim_bounds(&v, 0, v.len());
    parse_u64(&v, a, b)
}

// ───────────────────────── directories to sweep ─────────────────────────

/// The environment variables that locate the directories to sweep
/// (`None` when a variable is unset or not valid Unicode).
pub struct TempDirEnv {
    pub temp: Option<String>,
    pub tmp: Option<String>,
    pub system_root: Option<String>,
    pub local_app_data: Option<String>,
    pub program_data: Option<String>,
    pub app_data: Option<String>,
}

pub open spec fn opt_view(o: Option<String>) -> Option<Seq<char>> {
    match o {
        None => None,
        Some(s) => Some(s@),
    }
}

/// The texts of a sequence of strings.
pub open spec fn views(v: Seq<String>) -> Seq<Seq<char>> {
    v.map_values(|s: String| s@)
}

/// `base` followed by each suffix, in order.
pub open spec fn under(base: Seq<char>, suffixes: Seq<Seq<char>>) -> Seq<Seq<char>> {
    suffixes.map_values(|sfx: Seq<char>| base + sfx)
}

pub open spec fn windows_dirs(system_root: Seq<char>) -> Seq<Seq<char>> {
    under(system_root, seq!["\\Temp"@, "\\SoftwareDistribution\\Download"@])
}

pub open spec fn gpu_and_dump_dirs(local: Seq<char>) -> Seq<Seq<char>> {
    under(
        local,
        seq![
            "\\D3DSCache"@,
            "\\NVIDIA\\GLCache"@,
            "\\NVIDIA\\ComputeCache"@,
            "\\AMD\\DxCache"@,
            "\\AMD\\DxcCache"@,
            "\\CrashDumps"@,
        ],
    )
}

pub open spec fn error_report_dirs(program_data: Seq<char>) -> Seq<Seq<char>> {
    under(
        program_data,
        seq![
            "\\Microsoft\\Windows\\WER\\ReportArchive"@,
            "\\Microsoft\\Windows\\WER\\ReportQueue"@,
        ],
    )
}

pub open spec fn media_cache_dirs(app_data: Seq<char>) -> Seq<Seq<char>> {
    under(
        app_data,
        seq![
            "\\Adobe\\Common\\Media Cache Files"@,
            "\\Adobe\\Common\\Media Cache"@,
            "\\Adobe\\Common\\Peak Files"@,
            "\\discord\\Cache"@,
            "\\discord\\Code Cache"@,
            "\\discord\\GPUCache"@,
        ],
    )
}

pub open spec fn cache_suffixes() -> Seq<Seq<char>> {
    seq!["\\Cache"@, "\\Code Cache"@, "\\GPUCache"@]
}

/// The caches of one Chromium-based browser: its Default and System profiles.
pub open spec fn browser_dirs(local: Seq<char>, browser: Seq<char>) -> Seq<Seq<char>> {
    under(local + "\\"@ + browser + "\\User Data\\Default"@, cache_suffixes()) + under(
        local + "\\"@ + browser + "\\User Data\\System Profile"@,
        cache_suffixes(),
    )
}

pub open spec fn all_browser_dirs(local: Seq<char>) -> Seq<Seq<char>> {
    browser_dirs(local, "Google\\Chrome"@) + browser_dirs(local, "Microsoft\\Edge"@) + browser_dirs(
        local,
        "BraveSoftware\\Brave-Browser"@,
    )
}

/// `cache2` and `startupCache` of each Firefox profile directory, in order.
pub open spec fn firefox_dirs(profiles: Seq<Seq<char>>) -> Seq<Seq<char>>
    decreases profiles.len(),
{
    if profiles.len() == 0 {
        seq![]
    } else {
        firefox_dirs(profiles.drop_last()) + seq![
            profiles.last() + "\\cache2"@,
            profiles.last() + "\\startupCache"@,
        ]
    }
}

/// The directory whose subdirectories are the Firefox profiles.
pub open spec fn spec_firefox_profiles_dir(local: Seq<char>) -> Seq<char> {
    local + "\\Mozilla\\Firefox\\Profiles"@
}

/// The directories a cleanup run sweeps, in order. `%TEMP%` (else `%TMP%`); the
/// Windows temp and update-download folders; GPU shader caches and crash dumps;
/// error-report queues; Adobe media caches and Discord caches; browser caches;
/// Firefox profile caches (`profiles` are the profile directories found under
/// `spec_firefox_profiles_dir`). Prefetch and Recent files are never listed.
pub open spec fn spec_temp_dirs(
    temp: Option<Seq<char>>,
    tmp: Option<Seq<char>>,
    system_root: Option<Seq<char>>,
    local: Option<Seq<char>>,
    program_data: Option<Seq<char>>,
    app_data: Option<Seq<char>>,
    profiles: Seq<Seq<char>>,
) -> Seq<Seq<char>> {
    (match temp {
        Some(t) => seq![t],
        None => match tmp {
            Some(t) => seq![t],
            None => seq![],
        },
    }) + (match system_root {
        Some(w) => windows_dirs(w),
        None => seq![],
    }) + (match local {
        Some(l) => gpu_and_dump_dirs(l),
        None => seq![],
    }) + (match program_data {
        Some(p) => error_report_dirs(p),
        None => seq![],
    }) + (match app_data {
        Some(a) => media_cache_dirs(a),
        None => seq![],
    }) + (match local {
        Some(l) => all_browser_dirs(l) + firefox_dirs(profiles),
        None => seq![],
    })
}

/// Two cache directories per Firefox profile, in the profiles' order.
proof fn lemma_firefox_dirs(profiles: Seq<Seq<char>>)
    ensures
        firefox_dirs(profiles).len() == 2 * profiles.len(),
        forall|k: int|
            0 <= k < profiles.len() ==> firefox_dirs(profiles)[2 * k] == #[trigger] profiles[k]
                + "\\cache2"@ && firefox_dirs(profiles)[2 * k + 1] == profiles[k] + "\\startupCache"@,
    decreases profiles.len(),
{
    if profiles.len() > 0 {
        let init = profiles.drop_last();
        lemma_firefox_dirs(init);
        assert forall|k: int| 0 <= k < profiles.len() implies firefox_dirs(profiles)[2 * k]
            == #[trigger] profiles[k] + "\\cache2"@ && firefox_dirs(profiles)[2 * k + 1] == profiles[k]
            + "\\startupCache"@ by {
            if k < init.len() {
                assert(init[k] == profiles[k]);
            }
        }
    }
}

/// Every Firefox profile's caches are swept: when the local application data
/// folder is known, the list ends with `cache2` and `startupCache` of each profile
/// given, two per profile, in the profiles' order; without it, no profile is swept.
pub proof fn law_every_firefox_profile_is_swept(
    temp: Option<Seq<char>>,
    tmp: Option<Seq<char>>,
    system_root: Option<Seq<char>>,
    local: Option<Seq<char>>,
    program_data: Option<Seq<char>>,
    app_data: Option<Seq<char>>,
    profiles: Seq<Seq<char>>,
)
    ensures
        local is Some ==> {
            let d = spec_temp_dirs(temp, tmp, system_root, local, program_data, app_data, profiles);
            &&& d.len() >= 2 * profiles.len()
            &&& forall|k: int|
                0 <= k < profiles.len() ==> {
                    &&& d[d.len() - 2 * profiles.len() + 2 * k] == #[trigger] profiles[k] + "\\cache2"@
                    &&& d[d.len() - 2 * profiles.len() + 2 * k + 1] == profiles[k] + "\\startupCache"@
                    &&& d.contains(profiles[k] + "\\cache2"@)
                    &&& d.contains(profiles[k] + "\\startupCache"@)
                }
        },
{
    lemma_firefox_dirs(profiles);
    if local is Some {
        let d = spec_temp_dirs(temp, tmp, system_root, local, program_data, app_data, profiles);
        let f = firefox_dirs(profiles);
        let n = profiles.len();
        let head = d.len() - f.len();
        assert(d.subrange(head as int, d.len() as int) =~= f);
        assert forall|k: int| 0 <= k < n implies {
            &&& d[d.len() - 2 * n + 2 * k] == #[trigger] profiles[k] + "\\cache2"@
            &&& d[d.len() - 2 * n + 2 * k + 1] == profiles[k] + "\\startupCache"@
            &&& d.contains(profiles[k] + "\\cache2"@)
            &&& d.contains(profiles[k] + "\\startupCache"@)
        } by {
            assert(f[2 * k] == d.subrange(head as int, d.len() as int)[2 * k]);
            assert(f[2 * k + 1] == d.subrange(head as int, d.len() as int)[2 * k + 1]);
        }
    }
}

/// Appends `base` followed by `suffix`.
fn push_joined(out: &mut Vec<String>, base: &Vec<char>, suffix: &str)
    ensures
        views(final(out)@) == views(old(out)@).push(base@ + suffix@),
{
    let mut v: Vec<char> = Vec::new();
    push_all(&mut v, base);
    push_str(&mut v, suffix);
    out.push(string_of(&v));
    assert(views(out@) =~= views(old(out)@).push(base@ + suffix@));
}

fn push_windows_dirs(out: &mut Vec<String>, w: &Vec<char>)
    ensures
        views(final(out)@) == views(old(out)@) + windows_dirs(w@),
{
    push_joined(out, w, "\\Temp");
    push_joined(out, w, "\\SoftwareDistribution\\Download");
    assert(views(out@) =~= views(old(out)@) + windows_dirs(w@));
}

fn push_gpu_and_dump_dirs(out: &mut Vec<String>, l: &Vec<char>)
    ensures
        views(final(out)@) == views(old(out)@) + gpu_and_dump_dirs(l@),
{
    push_joined(out, l, "\\D3DSCache");
    push_joined(out, l, "\\NVIDIA\\GLCache");
    push_joined(out, l, "\\NVIDIA\\ComputeCache");
    push_joined(out, l, "\\AMD\\DxCache");
    push_joined(out, l, "\\AMD\\DxcCache");
    push_joined(out, l, "\\CrashDumps");
    assert(views(out@) =~= views(old(out)@) + gpu_and_dump_dirs(l@));
}

fn push_error_report_dirs(out: &mut Vec<String>, p: &Vec<char>)
    ensures
        views(final(out)@) == views(old(out)@) + error_report_dirs(p@),
{
    push_joined(out, p, "\\Microsoft\\Windows\\WER\\ReportArchive");
    push_joined(out, p, "\\Microsoft\\Windows\\WER\\ReportQueue");
    assert(views(out@) =~= views(old(out)@) + error_report_dirs(p@));
}

fn push_media_cache_dirs(out: &mut Vec<String>, a: &Vec<char>)
    ensures
        views(final(out)@) == views(old(out)@) + media_cache_dirs(a@),
{
    push_joined(out, a, "\\Adobe\\Common\\Media Cache Files");
    push_joined(out, a, "\\Adobe\\Common\\Media Cache");
    push_joined(out, a, "\\Adobe\\Common\\Peak Files");
    push_joined(out, a, "\\discord\\Cache");
    push_joined(out, a, "\\discord\\Code Cache");
    push_joined(out, a, "\\discord\\GPUCache");
    assert(views(out@) =~= views(old(out)@) + media_cache_dirs(a@));
}

fn push_cache_dirs(out: &mut Vec<String>, base: &Vec<char>)
    ensures
        views(final(out)@) == views(old(out)@) + under(base@, cache_suffixes()),
{
    push_joined(out, base, "\\Cache");
    push_joined(out, base, "\\Code Cache");
    push_joined(out, base, "\\GPUCache");
    assert(views(out@) =~= views(old(out)@) + under(base@, cache_suffixes()));
}

fn push_browser_dirs(out: &mut Vec<String>, l: &Vec<char>, browser: &str)
    ensures
        views(final(out)@) == views(old(out)@) + browser_dirs(l@, browser@),
{
    let mut base: Vec<char> = Vec::new();
    push_all(&mut base, l);
    push_str(&mut base, "\\");
    push_str(&mut base, browser);
    push_str(&mut base, "\\User Data\\Default");
    push_cache_dirs(out, &base);
    let ghost mid = views(out@);
    let mut sys: Vec<char> = Vec::new();
    push_all(&mut sys, l);
    push_str(&mut sys, "\\");
    push_str(&mut sys, browser);
    push_str(&mut sys, "\\User Data\\System Profile");
    push_cache_dirs(out, &sys);
    assert(base@ =~= l@ + "\\"@ + browser@ + "\\User Data\\Default"@);
    assert(sys@ =~= l@ + "\\"@ + browser@ + "\\User Data\\System Profile"@);
    assert(views(out@) =~= views(old(out)@) + browser_dirs(l@, browser@));
}

fn push_firefox_dirs(out: &mut Vec<String>, profiles: &Vec<String>)
    ensures
        views(final(out)@) == views(old(out)@) + firefox_dirs(views(profiles@)),
{
    let mut i: usize = 0;
    while i < profiles.len()
        invariant
            0 <= i <= profiles.len(),
            views(out@) == views(old(out)@) + firefox_dirs(views(profiles@.take(i as int))),
        decreases profiles.len() - i,
    {
        let p = chars_of(profiles[i].as_str());
        push_joined(out, &p, "\\cache2");
        push_joined(out, &p, "\\startupCache");
        proof {
            let t = views(profiles@.take(i + 1));
            assert(t.drop_last() =~= views(profiles@.take(i as int)));
            assert(t.last() == profiles@[i as int]@);
            assert(views(out@) =~= views(old(out)@) + firefox_dirs(t));
        }
        i += 1;
    }
    assert(profiles@.take(profiles.len() as int) =~= profiles@);
}

/// The directory whose subdirectories are the Firefox profiles.
pub fn firefox_profiles_dir(local_app_data: &str) -> (s: String)
    ensures
        s@ == spec_firefox_profiles_dir(local_app_data@),
{
    let mut v: Vec<char> = Vec::new();
    push_str(&mut v, local_app_data);
    push_str(&mut v, "\\Mozilla\\Firefox\\Profiles");
    string_of(&v)
}

/// The directories a cleanup run sweeps, in order (see `spec_temp_dirs`).
pub fn get_temp_dirs(env: &TempDirEnv, firefox_profiles: &Vec<String>) -> (r: Vec<String>)
    ensures
        views(r@) == spec_temp_dirs(
            opt_view(env.temp),
            opt_view(env.tmp),
            opt_view(env.system_root),
            opt_view(env.local_app_data),
            opt_view(env.program_data),
            opt_view(env.app_data),
            views(firefox_profiles@),
        ),
{
    let mut out: Vec<String> = Vec::new();
    let ghost s0 = views(out@);
    match &env.temp {
        Some(t) => {
            let tv = chars_of(t.as_str());
            push_joined(&mut out, &tv, "");
        },
        None => match &env.tmp {
            Some(t) => {
                let tv = chars_of(t.as_str());
                push_joined(&mut out, &tv, "");
            },
            None => {},
        },
    }
    let ghost s1 = views(out@);
    match &env.system_root {
        Some(w) => {
            let wv = chars_of(w.as_str());
            push_windows_dirs(&mut out, &wv);
        },
        None => {},
    }
    let ghost s2 = views(out@);
    match &env.local_app_data {
        Some(l) => {
            let lv = chars_of(l.as_str());
            push_gpu_and_dump_dirs(&mut out, &lv);
        },
        None => {},
    }
    let ghost s3 = views(out@);
    match &env.program_data {
        Some(p) => {
            let pv = chars_of(p.as_str());
            push_error_report_dirs(&mut out, &pv);
        },
        None => {},
    }
    let ghost s4 = views(out@);
    match &env.app_data {
        Some(a) => {
            let av = chars_of(a.as_str());
            push_media_cache_dirs(&mut out, &av);
        },
        None => {},
    }
    let ghost s5 = views(out@);
    match &env.local_app_data {
        Some(l) => {
            let lv = chars_of(l.as_str());
            push_browser_dirs(&mut out, &lv, "Google\\Chrome");
            push_browser_dirs(&mut out, &lv, "Microsoft\\Edge");
            push_browser_dirs(&mut out, &lv, "BraveSoftware\\Brave-Browser");
            push_firefox_dirs(&mut out, firefox_profiles);
        },
        None => {},
    }
    proof {
        assert(""@ =~= Seq::<char>::empty()) by {
            reveal_strlit("");
        }
        let temp = opt_view(env.temp);
        let tmp = opt_view(env.tmp);
        let first: Seq<Seq<char>> = match temp {
            Some(t) => seq![t],
            None => match tmp {
                Some(t) => seq![t],
                None => seq![],
            },
        };
        if let Some(t) = temp {
            assert(t + ""@ =~= t);
        }
        if let Some(t) = tmp {
            assert(t + ""@ =~= t);
        }
        assert(s1 =~= first);
    }
    assert(views(out@) =~= spec_temp_dirs(
        opt_view(env.temp),
        opt_view(env.tmp),
        opt_view(env.system_root),
        opt_view(env.local_app_data),
        opt_view(env.program_data),
        opt_view(env.app_data),
        views(firefox_profiles@),
    ));
    out
}

} // verus!
