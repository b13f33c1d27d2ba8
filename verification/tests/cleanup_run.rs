use zeroidle::cleanup::{
    available_bytes_on_c, clean_temp_files, entry_action, progress_messages, EntryAction, firefox_profiles_dir, get_temp_dirs, progress_message,
    summary_message, tally_directory, CleanupStats, EntryOutcome, TempDirEnv,
};

fn stats(deleted: u64, failed: u64, bytes_freed: u64) -> CleanupStats {
    CleanupStats { deleted, failed, bytes_freed }
}

/// A run over as many existing directories as there are counts, each swept in turn.
fn run_totals(per_directory: &[CleanupStats]) -> CleanupStats {
    let n = per_directory.len();
    let labels: Vec<String> = (0..n).map(|i| format!("d{}", i)).collect();
    let mut run = clean_temp_files(&labels, &vec![true; n]);
    for s in per_directory {
        assert!(run.next_directory().is_some());
        run.record(*s);
    }
    assert!(run.next_directory().is_none());
    run.totals()
}

#[test]
fn unreadable_directory_counts_one_failure() {
    assert_eq!(tally_directory(&None), stats(0, 1, 0));
}

#[test]
fn entries_are_counted() {
    let listing = vec![
        EntryOutcome::FileRemoved { size: 100 },
        EntryOutcome::FileFailed,
        EntryOutcome::SkippedSelf,
        EntryOutcome::Directory { inner: stats(3, 1, 50), removed: true },
        EntryOutcome::Directory { inner: stats(0, 2, 0), removed: false },
        EntryOutcome::FileRemoved { size: 7 },
    ];
    assert_eq!(tally_directory(&Some(listing)), stats(6, 4, 157));
    assert_eq!(tally_directory(&Some(vec![])), stats(0, 0, 0));
}

#[test]
fn self_is_never_counted() {
    assert_eq!(tally_directory(&Some(vec![EntryOutcome::SkippedSelf])), stats(0, 0, 0));
}

#[test]
fn run_totals_are_sums() {
    assert_eq!(run_totals(&vec![]), CleanupStats::default());
    assert_eq!(
        run_totals(&vec![stats(1, 2, 3), stats(10, 0, 1 << 40), stats(0, 1, 0)]),
        stats(11, 3, (1 << 40) + 3)
    );
}

#[test]
fn messages() {
    assert_eq!(progress_message("Temp", 2, 9), "Cleaning Temp (2/9)");
    assert_eq!(summary_message(&stats(3, 0, 1536)), "Freed 1.50 KB · 3 files cleaned");
    assert_eq!(summary_message(&stats(0, 5, 0)), "Freed 0 B · 0 files cleaned");
}

#[test]
fn free_space_is_parsed() {
    assert_eq!(available_bytes_on_c("123456789\r\n"), Some(123456789));
    assert_eq!(available_bytes_on_c("  +42 "), Some(42));
    assert_eq!(available_bytes_on_c("-1"), None);
    assert_eq!(available_bytes_on_c(""), None);
    assert_eq!(available_bytes_on_c("12 34"), None);
    assert_eq!(available_bytes_on_c("18446744073709551615"), Some(u64::MAX));
    assert_eq!(available_bytes_on_c("18446744073709551616"), None);
    for s in ["0", "+", "+0", "007", "1.5", "\u{3000}9\u{85}", "99999999999999999999999"] {
        assert_eq!(available_bytes_on_c(s), s.trim().parse::<u64>().ok(), "{:?}", s);
    }
}

fn full_env() -> TempDirEnv {
    TempDirEnv {
        temp: Some("T".to_string()),
        tmp: Some("X".to_string()),
        system_root: Some("W".to_string()),
        local_app_data: Some("L".to_string()),
        program_data: Some("P".to_string()),
        app_data: Some("A".to_string()),
    }
}

#[test]
fn temp_dirs_in_order() {
    let dirs = get_temp_dirs(&full_env(), &vec!["L\\Mozilla\\Firefox\\Profiles\\abc.default".to_string()]);
    let expected = vec![
        "T",
        "W\\Temp",
        "W\\SoftwareDistribution\\Download",
        "L\\D3DSCache",
        "L\\NVIDIA\\GLCache",
        "L\\NVIDIA\\ComputeCache",
        "L\\AMD\\DxCache",
        "L\\AMD\\DxcCache",
        "L\\CrashDumps",
        "P\\Microsoft\\Windows\\WER\\ReportArchive",
        "P\\Microsoft\\Windows\\WER\\ReportQueue",
        "A\\Adobe\\Common\\Media Cache Files",
        "A\\Adobe\\Common\\Media Cache",
        "A\\Adobe\\Common\\Peak Files",
        "A\\discord\\Cache",
        "A\\discord\\Code Cache",
        "A\\discord\\GPUCache",
        "L\\Google\\Chrome\\User Data\\Default\\Cache",
        "L\\Google\\Chrome\\User Data\\Default\\Code Cache",
        "L\\Google\\Chrome\\User Data\\Default\\GPUCache",
        "L\\Google\\Chrome\\User Data\\System Profile\\Cache",
        "L\\Google\\Chrome\\User Data\\System Profile\\Code Cache",
        "L\\Google\\Chrome\\User Data\\System Profile\\GPUCache",
        "L\\Microsoft\\Edge\\User Data\\Default\\Cache",
        "L\\Microsoft\\Edge\\User Data\\Default\\Code Cache",
        "L\\Microsoft\\Edge\\User Data\\Default\\GPUCache",
        "L\\Microsoft\\Edge\\User Data\\System Profile\\Cache",
        "L\\Microsoft\\Edge\\User Data\\System Profile\\Code Cache",
        "L\\Microsoft\\Edge\\User Data\\System Profile\\GPUCache",
        "L\\BraveSoftware\\Brave-Browser\\User Data\\Default\\Cache",
        "L\\BraveSoftware\\Brave-Browser\\User Data\\Default\\Code Cache",
        "L\\BraveSoftware\\Brave-Browser\\User Data\\Default\\GPUCache",
        "L\\BraveSoftware\\Brave-Browser\\User Data\\System Profile\\Cache",
        "L\\BraveSoftware\\Brave-Browser\\User Data\\System Profile\\Code Cache",
        "L\\BraveSoftware\\Brave-Browser\\User Data\\System Profile\\GPUCache",
        "L\\Mozilla\\Firefox\\Profiles\\abc.default\\cache2",
        "L\\Mozilla\\Firefox\\Profiles\\abc.default\\startupCache",
    ];
    assert_eq!(dirs, expected);
}

#[test]
fn prefetch_and_recent_are_never_swept() {
    let dirs = get_temp_dirs(&full_env(), &vec![]);
    assert!(dirs.iter().all(|d| !d.contains("Prefetch") && !d.contains("Recent")));
}

#[test]
fn temp_falls_back_to_tmp_and_missing_vars_drop_their_dirs() {
    let env = TempDirEnv {
        temp: None,
        tmp: Some("X".to_string()),
        system_root: None,
        local_app_data: None,
        program_data: None,
        app_data: Some("A".to_string()),
    };
    let dirs = get_temp_dirs(&env, &vec!["ignored".to_string()]);
    assert_eq!(dirs.len(), 7);
    assert_eq!(dirs[0], "X");
    assert_eq!(dirs[1], "A\\Adobe\\Common\\Media Cache Files");
    let none = TempDirEnv {
        temp: None,
        tmp: None,
        system_root: None,
        local_app_data: None,
        program_data: None,
        app_data: None,
    };
    assert!(get_temp_dirs(&none, &vec![]).is_empty());
}

#[test]
fn firefox_profiles_location() {
    assert_eq!(firefox_profiles_dir("C:\\Users\\me\\AppData\\Local"), "C:\\Users\\me\\AppData\\Local\\Mozilla\\Firefox\\Profiles");
}

#[test]
fn totals_add_up_across_lists() {
    let a = vec![stats(1, 0, 10), stats(2, 1, 0)];
    let b = vec![stats(0, 3, 5)];
    let mut ab = a.clone();
    ab.extend(b.iter().copied());
    let ta = run_totals(&a);
    let tb = run_totals(&b);
    let tab = run_totals(&ab);
    assert_eq!(tab, stats(ta.deleted + tb.deleted, ta.failed + tb.failed, ta.bytes_freed + tb.bytes_freed));
}

#[test]
fn skipping_self_changes_nothing() {
    let base = vec![EntryOutcome::FileRemoved { size: 3 }, EntryOutcome::FileFailed];
    let mut with_self = base.clone();
    with_self.push(EntryOutcome::SkippedSelf);
    assert_eq!(tally_directory(&Some(base)), tally_directory(&Some(with_self)));
}

#[test]
fn progress_lines_count_only_existing_directories() {
    let labels: Vec<String> = ["Temp", "INetCache", "Prefetchless", "Cache"].iter().map(|s| s.to_string()).collect();
    let exists = vec![true, false, true, true];
    let lines = progress_messages(&labels, &exists);
    assert_eq!(
        lines,
        vec![
            (0, "Cleaning Temp (1/3)".to_string()),
            (2, "Cleaning Prefetchless (2/3)".to_string()),
            (3, "Cleaning Cache (3/3)".to_string()),
        ]
    );
}

#[test]
fn no_progress_lines_without_existing_directories() {
    let labels: Vec<String> = vec!["a".to_string(), "b".to_string()];
    assert!(progress_messages(&labels, &vec![false, false]).is_empty());
    assert!(progress_messages(&Vec::new(), &Vec::new()).is_empty());
}

#[test]
fn a_run_hands_out_existing_directories_in_order_with_their_lines() {
    let labels: Vec<String> = ["Temp", "Missing", "Cache"].iter().map(|s| s.to_string()).collect();
    let mut run = clean_temp_files(&labels, &vec![true, false, true]);
    assert_eq!(run.next_directory(), Some((0, "Cleaning Temp (1/2)".to_string())));
    run.record(stats(2, 0, 100));
    assert_eq!(run.next_directory(), Some((2, "Cleaning Cache (2/2)".to_string())));
    run.record(stats(1, 1, 5));
    assert_eq!(run.next_directory(), None);
    assert_eq!(run.totals(), stats(3, 1, 105));
}

#[test]
fn a_run_over_no_existing_directory_sweeps_nothing() {
    let labels: Vec<String> = vec!["a".to_string()];
    let run = clean_temp_files(&labels, &vec![false]);
    assert_eq!(run.next_directory(), None);
    assert_eq!(run.totals(), CleanupStats::default());
}

#[test]
fn entries_are_swept_without_following_links() {
    assert_eq!(entry_action(true, false, false), EntryAction::Skip);
    assert_eq!(entry_action(true, true, true), EntryAction::Skip);
    assert_eq!(entry_action(false, true, false), EntryAction::Recurse);
    assert_eq!(entry_action(false, true, true), EntryAction::RemoveLink);
    assert_eq!(entry_action(false, false, true), EntryAction::RemoveLink);
    assert_eq!(entry_action(false, false, false), EntryAction::RemoveFile);
}
