//! The optimizer's decisions: reading the system facts that the tweaks depend
//! on (disk type, Windows build, installed memory, uptime), which tweaks apply
//! to a system, and the bookkeeping of one-time phases (completion flags, the
//! schema version that resets them, and the migration of older flags).

use vstd::prelude::*;
use crate::text::{
    chars_of, find, find_in, lowercase, parse_u64, parse_unsigned, to_lowercase, trim, trim_bounds,
};

verus! {

// ───────────────────────── system facts ─────────────────────────

/// Whether the system drive is taken for an SSD, from what the disk query printed
/// (`None` when the query could not be run). Unless the trimmed, lower-cased output
/// names an HDD, the drive counts as an SSD: empty output and unknown or unspecified
/// media types do too.
pub open spec fn spec_is_ssd(output: Option<Seq<char>>) -> bool {
    match output {
        None => true,
        Some(o) => {
            let out = lowercase(trim(o));
            find(out, "hdd"@) is None
        },
    }
}

fn contains(v: &Vec<char>, pat: &str) -> (b: bool)
    ensures
        b == (find(v@, pat@) is Some),
{
    let p = chars_of(pat);
    assert(v@.subrange(0, v@.len() as int) =~= v@);
    find_in(v, 0, v.len(), &p).is_some()
}

pub fn is_system_ssd(output: Option<&str>) -> (b: bool)
    ensures
        b == spec_is_ssd(
            match output {
                Some(o) => Some(o@),
                None => None,
            },
        ),
{
    match output {
        None => true,
        Some(o) => {
            let v = chars_of(o);
            assert(v@.subrange(0, v@.len() as int) =~= v@);
            let (a, b) = trim_bounds(&v, 0, v.len());
            let mut t: Vec<char> = Vec::new();
            crate::text::push_range(&mut t, &v, a, b);
            assert(t@ =~= trim(o@));
            let ts = crate::text::string_of(&t);
            let lower = to_lowercase(ts.as_str());
            let out = chars_of(lower.as_str());
            !contains(&out, "hdd")
        },
    }
}

/// The build number read from the registry's `CurrentBuildNumber`, trimmed and
/// parsed as a `u32`; 0 when absent or not a number.
pub open spec fn spec_windows_build(value: Option<Seq<char>>) -> nat {
    match value {
        None => 0,
        Some(v) => match parse_unsigned(trim(v), u32::MAX as nat) {
            Some(n) => n,
            None => 0,
        },
    }
}

proof fn lemma_parse_narrower(s: Seq<char>)
    ensures
        parse_unsigned(s, u32::MAX as nat) == (match parse_unsigned(s, u64::MAX as nat) {
            Some(x) => if x <= u32::MAX {
                Some(x)
            } else {
                None
            },
            None => None,
        }),
{
}

pub fn windows_build(value: Option<&str>) -> (n: u32)
    ensures
        n == spec_windows_build(
            match value {
                Some(v) => Some(v@),
                None => None,
            },
        ),
{
    match value {
        None => 0,
        Some(s) => {
            let v = chars_of(s);
            assert(v@.subrange(0, v@.len() as int) =~= v@);
            let (a, b) = trim_bounds(&v, 0, v.len());
            proof {
                lemma_parse_narrower(v@.subrange(a as int, b as int));
            }
            match parse_u64(&v, a, b) {
                Some(x) => if x <= 0xffff_ffff {
                    x as u32
                } else {
                    0
                },
                None => 0,
            }
        },
    }
}

/// Installed memory in GB from what the memory query printed (`None` when it could
/// not be run): the trimmed output up to its first `.`, parsed as a `u64`; 0 otherwise.
pub open spec fn spec_total_ram_gb(output: Option<Seq<char>>) -> nat {
    match output {
        None => 0,
        Some(o) => {
            let t = trim(o);
            let whole = match find(t, seq!['.']) {
                Some(k) => t.take(k),
                None => t,
            };
            match parse_unsigned(whole, u64::MAX as nat) {
                Some(n) => n,
                None => 0,
            }
        },
    }
}

pub fn total_ram_gb(output: Option<&str>) -> (n: u64)
    ensures
        n == spec_total_ram_gb(
            match output {
                Some(o) => Some(o@),
                None => None,
            },
        ),
{
    match output {
        None => 0,
        Some(s) => {
            let v = chars_of(s);
            assert(v@.subrange(0, v@.len() as int) =~= v@);
            let (a, b) = trim_bounds(&v, 0, v.len());
            let dot: Vec<char> = vec!['.'];
            assert(dot@ =~= seq!['.']);
            let end = match find_in(&v, a, b, &dot) {
                Some(k) => {
                    assert(v@.subrange(a as int, b as int).take(k - a) =~= v@.subrange(
                        a as int,
                        k as int,
                    ));
                    k
                },
                None => b,
            };
            match parse_u64(&v, a, end) {
                Some(x) => x,
                None => 0,
            }
        },
    }
}

/// Whole minutes in a tick count of milliseconds.
pub fn uptime_minutes(millis: u64) -> (m: u64)
    ensures
        m == millis / 60000,
{
    millis / 60000
}

/// The standby list is cleared only once the system has been up for more than
/// 10 minutes.
pub fn maybe_clear_standby_memory(uptime_minutes: u64) -> (clear: bool)
    ensures
        clear == (uptime_minutes > 10),
{
    uptime_minutes > 10
}

// ───────────────────────── which tweaks apply ─────────────────────────

/// The tweaks that depend on the Windows build.
#[derive(Clone, Copy, PartialEq, Eq, Structural, Debug)]
pub struct BuildGates {
    /// Hardware-accelerated GPU scheduling (Windows 10 2004, build 19041, and later).
    pub gpu_scheduling: bool,
    /// Removing the Cortana package (Windows 10, before build 22000).
    pub remove_cortana_package: bool,
    /// The Recall AI policy (Windows 11 24H2, build 26100, and later).
    pub recall_policy: bool,
    /// The Copilot policy (Windows 11 23H2, build 22631, and later).
    pub copilot_policy: bool,
}

pub open spec fn spec_build_gates(build: u32) -> BuildGates {
    BuildGates {
        gpu_scheduling: build >= 19041,
        remove_cortana_package: build < 22000,
        recall_policy: build >= 26100,
        copilot_policy: build >= 22631,
    }
}

pub fn build_gates(build: u32) -> (g: BuildGates)
    ensures
        g == spec_build_gates(build),
{
    BuildGates {
        gpu_scheduling: build >= 19041,
        remove_cortana_package: build < 22000,
        recall_policy: build >= 26100,
        copilot_policy: build >= 22631,
    }
}

/// The tweaks that depend on the installed memory.
#[derive(Clone, Copy, PartialEq, Eq, Structural, Debug)]
pub struct MemoryGates {
    /// Turning memory compression off (16 GB or more).
    pub disable_memory_compression: bool,
    /// Turning the automatic page file off (32 GB or more).
    pub disable_page_file: bool,
}

pub open spec fn spec_memory_gates(ram_gb: u64) -> MemoryGates {
    MemoryGates { disable_memory_compression: ram_gb >= 16, disable_page_file: ram_gb >= 32 }
}

pub fn memory_gates(ram_gb: u64) -> (g: MemoryGates)
    ensures
        g == spec_memory_gates(ram_gb),
{
    MemoryGates { disable_memory_compression: ram_gb >= 16, disable_page_file: ram_gb >= 32 }
}

/// The tweaks that depend on the kind of system disk.
#[derive(Clone, Copy, PartialEq, Eq, Structural, Debug)]
pub struct DiskGates {
    /// Disabling SysMain (on an SSD only; it helps hard disks).
    pub disable_sysmain: bool,
    /// Disabling scheduled defragmentation (on a hard disk only; on an SSD it runs TRIM).
    pub disable_scheduled_defrag: bool,
}

pub open spec fn spec_disk_gates(ssd: bool) -> DiskGates {
    DiskGates { disable_sysmain: ssd, disable_scheduled_defrag: !ssd }
}

pub fn disk_gates(ssd: bool) -> (g: DiskGates)
    ensures
        g == spec_disk_gates(ssd),
{
    DiskGates { disable_sysmain: ssd, disable_scheduled_defrag: !ssd }
}

/// Whatever the disk, exactly one of SysMain and scheduled defragmentation is
/// disabled: SysMain on SSDs, defragmentation on hard disks.
pub proof fn law_disk_tweaks_exclusive(ssd: bool)
    ensures
        spec_disk_gates(ssd).disable_sysmain != spec_disk_gates(ssd).disable_scheduled_defrag,
        spec_disk_gates(ssd).disable_sysmain == ssd,
{
}

/// The page file is turned off only where memory compression is turned off too.
pub proof fn law_page_file_implies_compression_off(ram_gb: u64)
    ensures
        spec_memory_gates(ram_gb).disable_page_file ==> spec_memory_gates(
            ram_gb,
        ).disable_memory_compression,
{
}

/// The build-dependent tweaks are monotone in the build: a later build gets every
/// newer-Windows tweak an earlier one gets, and the Cortana package is removed only
/// on builds that predate Copilot and Recall.
pub proof fn law_build_gates_monotone(older: u32, newer: u32)
    requires
        older <= newer,
    ensures
        spec_build_gates(older).gpu_scheduling ==> spec_build_gates(newer).gpu_scheduling,
        spec_build_gates(older).copilot_policy ==> spec_build_gates(newer).copilot_policy,
        spec_build_gates(older).recall_policy ==> spec_build_gates(newer).recall_policy,
        spec_build_gates(newer).remove_cortana_package ==> spec_build_gates(
            older,
        ).remove_cortana_package,
        spec_build_gates(newer).remove_cortana_package ==> !spec_build_gates(newer).copilot_policy
            && !spec_build_gates(newer).recall_policy,
{
}

pub open spec fn str_views(v: Seq<&str>) -> Seq<Seq<char>> {
    Seq::new(v.len(), |i: int| v[i]@)
}

pub open spec fn spec_nonessential_services() -> Seq<Seq<char>> {
    seq![
        "WSearch"@,
        "WerSvc"@,
        "MapsBroker"@,
        "lfsvc"@,
        "RetailDemo"@,
        "wisvc"@,
        "WMPNetworkSvc"@,
        "WpcMonSvc"@,
        "SEMgrSvc"@,
        "PhoneSvc"@,
        "Fax"@,
        "XblAuthManager"@,
        "XblGameSave"@,
        "XboxNetApiSvc"@,
        "XboxGipSvc"@,
    ]
}

/// The services that the startup-and-services phase stops and disables, by
/// service name: search indexing, error reporting, maps, geolocation, retail demo,
/// Insider, media sharing, parental controls, payments, phone, fax and Xbox services.
pub fn nonessential_services() -> (v: Vec<&'static str>)
    ensures
        str_views(v@) == spec_nonessential_services(),
{
    let mut v: Vec<&'static str> = Vec::new();
    v.push("WSearch");
    v.push("WerSvc");
    v.push("MapsBroker");
    v.push("lfsvc");
    v.push("RetailDemo");
    v.push("wisvc");
    v.push("WMPNetworkSvc");
    v.push("WpcMonSvc");
    v.push("SEMgrSvc");
    v.push("PhoneSvc");
    v.push("Fax");
    v.push("XblAuthManager");
    v.push("XblGameSave");
    v.push("XboxNetApiSvc");
    v.push("XboxGipSvc");
    assert(str_views(v@) =~= spec_nonessential_services());
    v
}

pub open spec fn spec_bloatware_startup_entries() -> Seq<Seq<char>> {
    seq![
        "OneDrive"@,
        "OneDriveSetup"@,
        "Cortana"@,
        "SecurityHealth"@,
        "iTunes Helper"@,
        "Spotify"@,
        "Steam"@,
        "Discord"@,
        "EpicGamesLauncher"@,
        "GoogleUpdate"@,
        "Teams"@,
        "Skype"@,
    ]
}

/// The `Run` values that the startup-and-services phase removes where present, under
/// both `HKEY_CURRENT_USER` and `HKEY_LOCAL_MACHINE`.
pub fn bloatware_startup_entries() -> (v: Vec<&'static str>)
    ensures
        str_views(v@) == spec_bloatware_startup_entries(),
{
    let mut v: Vec<&'static str> = Vec::new();
    v.push("OneDrive");
    v.push("OneDriveSetup");
    v.push("Cortana");
    v.push("SecurityHealth");
    v.push("iTunes Helper");
    v.push("Spotify");
    v.push("Steam");
    v.push("Discord");
    v.push("EpicGamesLauncher");
    v.push("GoogleUpdate");
    v.push("Teams");
    v.push("Skype");
    assert(str_views(v@) =~= spec_bloatware_startup_entries());
    v
}

// ───────────────────────── one-time phases ─────────────────────────

/// The phases that run once and are then remembered as done.
#[derive(Clone, Copy, PartialEq, Eq, Structural, Debug)]
pub enum OneTimeTask {
    Gaming,
    SystemPrivacy,
    StartupServices,
}

pub open spec fn spec_task_id(t: OneTimeTask) -> Seq<char> {
    match t {
        OneTimeTask::Gaming => "gaming_opt"@,
        OneTimeTask::SystemPrivacy => "system_privacy"@,
        OneTimeTask::StartupServices => "startup_services"@,
    }
}

/// The name of a phase's completion flag.
pub fn task_id(t: OneTimeTask) -> (s: &'static str)
    ensures
        s@ == spec_task_id(t),
{
    match t {
        OneTimeTask::Gaming => "gaming_opt",
        OneTimeTask::SystemPrivacy => "system_privacy",
        OneTimeTask::StartupServices => "startup_services",
    }
}

/// The version of the set of one-time tweaks; flags stored under another version
/// are cleared so that the phases run again.
pub open spec fn task_schema_version() -> Seq<char> {
    "v3"@
}

pub fn schema_version() -> (s: &'static str)
    ensures
        s@ == task_schema_version(),
{
    "v3"
}

/// Where the completion flags are kept, under `HKEY_CURRENT_USER`.
pub fn task_registry_path() -> (s: &'static str)
    ensures
        s@ == "Software\\ZeroIdle\\CompletedTasks"@,
{
    "Software\\ZeroIdle\\CompletedTasks"
}

/// A phase is done when its flag holds the DWORD 1.
pub fn is_task_done(flag: Option<u32>) -> (b: bool)
    ensures
        b == (flag == Some(1u32)),
{
    match flag {
        Some(v) => v == 1,
        None => false,
    }
}

/// All three one-time phases are done.
pub fn all_onetime_tasks_done(gaming: Option<u32>, system_privacy: Option<u32>, startup_services: Option<u32>) -> (b: bool)
    ensures
        b == (gaming == Some(1u32) && system_privacy == Some(1u32) && startup_services == Some(1u32)),
{
    is_task_done(gaming) && is_task_done(system_privacy) && is_task_done(startup_services)
}

/// The flags are kept only when the stored schema version is the current one.
pub fn ensure_schema_current(stored: Option<&str>) -> (keep: bool)
    ensures
        keep == (stored matches Some(s) && s@ == task_schema_version()),
{
    match stored {
        None => false,
        Some(s) => {
            let v = chars_of(s);
            let w = chars_of("v3");
            assert(v@.subrange(0, v@.len() as int) =~= v@);
            crate::text::window_eq(&v, 0, v.len(), &w)
        },
    }
}

/// One step of carrying flags over from earlier versions of the tool.
#[derive(Clone, Copy, PartialEq, Eq, Structural, Debug)]
pub enum MigrationStep {
    MarkDone(OneTimeTask),
    /// Delete `Software\Optimizer`, which held the single legacy flag.
    DeleteLegacyFlagKey,
    /// Delete `Software\IDMSystemTool`, the tool's earlier name.
    DeleteOldToolKey,
}

/// The old flags found: the legacy `Optimized` value (`None` when the legacy key or
/// value is absent), and, when the old tool's key exists, its three phase flags.
pub struct LegacyFlags {
    pub legacy_optimized: Option<u32>,
    pub old_tool_tasks: Option<(Option<u32>, Option<u32>, Option<u32>)>,
}

pub open spec fn mark_if_done(flag: Option<u32>, t: OneTimeTask) -> Seq<MigrationStep> {
    if flag == Some(1u32) {
        seq![MigrationStep::MarkDone(t)]
    } else {
        seq![]
    }
}

/// The migration: a legacy `Optimized = 1` marks the gaming and system-and-privacy
/// phases done and removes the legacy key; the old tool's key, when present, has
/// each phase flagged 1 there marked done here, and is then removed.
pub open spec fn spec_migration(f: LegacyFlags) -> Seq<MigrationStep> {
    (if f.legacy_optimized == Some(1u32) {
        seq![
            MigrationStep::MarkDone(OneTimeTask::Gaming),
            MigrationStep::MarkDone(OneTimeTask::SystemPrivacy),
            MigrationStep::DeleteLegacyFlagKey,
        ]
    } else {
        seq![]
    }) + match f.old_tool_tasks {
        None => seq![],
        Some((g, s, st)) => mark_if_done(g, OneTimeTask::Gaming) + mark_if_done(
            s,
            OneTimeTask::SystemPrivacy,
        ) + mark_if_done(st, OneTimeTask::StartupServices) + seq![MigrationStep::DeleteOldToolKey],
    }
}

pub fn migrate_legacy_flag(f: &LegacyFlags) -> (r: Vec<MigrationStep>)
    ensures
        r@ == spec_migration(*f),
{
    let mut v: Vec<MigrationStep> = Vec::new();
    if is_task_done(f.legacy_optimized) {
        v.push(MigrationStep::MarkDone(OneTimeTask::Gaming));
        v.push(MigrationStep::MarkDone(OneTimeTask::SystemPrivacy));
        v.push(MigrationStep::DeleteLegacyFlagKey);
    }
    let ghost first = v@;
    match f.old_tool_tasks {
        None => {},
        Some((g, s, st)) => {
            if is_task_done(g) {
                v.push(MigrationStep::MarkDone(OneTimeTask::Gaming));
            }
            let ghost a = v@;
            if is_task_done(s) {
                v.push(MigrationStep::MarkDone(OneTimeTask::SystemPrivacy));
            }
            let ghost b = v@;
            if is_task_done(st) {
                v.push(MigrationStep::MarkDone(OneTimeTask::StartupServices));
            }
            let ghost c = v@;
            v.push(MigrationStep::DeleteOldToolKey);
            assert(a =~= first + mark_if_done(g, OneTimeTask::Gaming));
            assert(b =~= a + mark_if_done(s, OneTimeTask::SystemPrivacy));
            assert(c =~= b + mark_if_done(st, OneTimeTask::StartupServices));
        },
    }
    assert(v@ =~= spec_migration(*f));
    v
}

/// The old tool's key is present and its flag for phase `t` is 1.
pub open spec fn old_tool_recorded(f: LegacyFlags, t: OneTimeTask) -> bool {
    match f.old_tool_tasks {
        None => false,
        Some((g, s, st)) => match t {
            OneTimeTask::Gaming => g == Some(1u32),
            OneTimeTask::SystemPrivacy => s == Some(1u32),
            OneTimeTask::StartupServices => st == Some(1u32),
        },
    }
}

/// Migration carries every recorded completion over: a legacy `Optimized = 1` marks
/// the gaming and system-and-privacy phases done and is then deleted; when the old
/// tool's key is present, each phase whose old flag is 1 is marked done, and the
/// old key is deleted last. Conversely a phase is marked done only when one of the
/// old flags recorded it.
pub proof fn law_migration_keeps_recorded_phases(f: LegacyFlags)
    ensures
        f.legacy_optimized == Some(1u32) ==> spec_migration(f).contains(
            MigrationStep::MarkDone(OneTimeTask::Gaming),
        ) && spec_migration(f).contains(MigrationStep::MarkDone(OneTimeTask::SystemPrivacy))
            && spec_migration(f).contains(MigrationStep::DeleteLegacyFlagKey),
        f.old_tool_tasks matches Some((g, s, st)) ==> {
            &&& spec_migration(f).len() > 0
            &&& spec_migration(f).last() == MigrationStep::DeleteOldToolKey
            &&& g == Some(1u32) ==> spec_migration(f).contains(
                MigrationStep::MarkDone(OneTimeTask::Gaming),
            )
            &&& s == Some(1u32) ==> spec_migration(f).contains(
                MigrationStep::MarkDone(OneTimeTask::SystemPrivacy),
            )
            &&& st == Some(1u32) ==> spec_migration(f).contains(
                MigrationStep::MarkDone(OneTimeTask::StartupServices),
            )
        },
        f.old_tool_tasks is None ==> !spec_migration(f).contains(MigrationStep::DeleteOldToolKey),
        f.legacy_optimized != Some(1u32) ==> !spec_migration(f).contains(
            MigrationStep::DeleteLegacyFlagKey,
        ),
        spec_migration(f).contains(MigrationStep::MarkDone(OneTimeTask::Gaming)) ==> (
        f.legacy_optimized == Some(1u32) || old_tool_recorded(f, OneTimeTask::Gaming)),
        spec_migration(f).contains(MigrationStep::MarkDone(OneTimeTask::SystemPrivacy)) ==> (
        f.legacy_optimized == Some(1u32) || old_tool_recorded(f, OneTimeTask::SystemPrivacy)),
{
    let m = spec_migration(f);
    let first = if f.legacy_optimized == Some(1u32) {
        seq![
            MigrationStep::MarkDone(OneTimeTask::Gaming),
            MigrationStep::MarkDone(OneTimeTask::SystemPrivacy),
            MigrationStep::DeleteLegacyFlagKey,
        ]
    } else {
        seq![]
    };
    let l = first.len() as int;
    if f.legacy_optimized == Some(1u32) {
        assert(m[0] == MigrationStep::MarkDone(OneTimeTask::Gaming));
        assert(m[1] == MigrationStep::MarkDone(OneTimeTask::SystemPrivacy));
        assert(m[2] == MigrationStep::DeleteLegacyFlagKey);
    }
    match f.old_tool_tasks {
        None => {
            assert(m =~= first);
        },
        Some((g, s, st)) => {
            let a = mark_if_done(g, OneTimeTask::Gaming);
            let b = mark_if_done(s, OneTimeTask::SystemPrivacy);
            let c = mark_if_done(st, OneTimeTask::StartupServices);
            assert(m =~= first + a + b + c + seq![MigrationStep::DeleteOldToolKey]);
            if g == Some(1u32) {
                assert(m[l] == MigrationStep::MarkDone(OneTimeTask::Gaming));
            }
            if s == Some(1u32) {
                assert(m[l + a.len()] == MigrationStep::MarkDone(OneTimeTask::SystemPrivacy));
            }
            if st == Some(1u32) {
                assert(m[l + a.len() + b.len()] == MigrationStep::MarkDone(
                    OneTimeTask::StartupServices,
                ));
            }
            assert(m.last() == MigrationStep::DeleteOldToolKey);
        },
    }
    assert forall|i: int| 0 <= i < m.len() implies {
        &&& #[trigger] m[i] == MigrationStep::DeleteOldToolKey ==> f.old_tool_tasks is Some
        &&& m[i] == MigrationStep::DeleteLegacyFlagKey ==> f.legacy_optimized == Some(1u32)
        &&& m[i] == MigrationStep::MarkDone(OneTimeTask::Gaming) ==> (f.legacy_optimized == Some(
            1u32,
        ) || old_tool_recorded(f, OneTimeTask::Gaming))
        &&& m[i] == MigrationStep::MarkDone(OneTimeTask::SystemPrivacy) ==> (f.legacy_optimized
            == Some(1u32) || old_tool_recorded(f, OneTimeTask::SystemPrivacy))
    } by {
        match f.old_tool_tasks {
            None => {
                assert(m =~= first);
            },
            Some((g, s, st)) => {
                let a = mark_if_done(g, OneTimeTask::Gaming);
                let b = mark_if_done(s, OneTimeTask::SystemPrivacy);
                let c = mark_if_done(st, OneTimeTask::StartupServices);
                assert(m =~= first + a + b + c + seq![MigrationStep::DeleteOldToolKey]);
                if i < l {
                } else if i < l + a.len() {
                    assert(m[i] == a[i - l]);
                } else if i < l + a.len() + b.len() {
                    assert(m[i] == b[i - l - a.len()]);
                } else if i < l + a.len() + b.len() + c.len() {
                    assert(m[i] == c[i - l - a.len() - b.len()]);
                }
            },
        }
    }
}

/// Migration never marks a phase done that neither old flag recorded as done: the
/// startup-and-services phase in particular only through the old tool's own flag.
pub proof fn law_migration_marks_only_recorded(f: LegacyFlags)
    ensures
        spec_migration(f).contains(MigrationStep::MarkDone(OneTimeTask::StartupServices))
            ==> (f.old_tool_tasks matches Some((_, _, st)) && st == Some(1u32)),
{
    let m = spec_migration(f);
    if m.contains(MigrationStep::MarkDone(OneTimeTask::StartupServices)) {
        let k = choose|k: int| 0 <= k < m.len() && m[k] == MigrationStep::MarkDone(
            OneTimeTask::StartupServices,
        );
        match f.old_tool_tasks {
            None => {
                if f.legacy_optimized == Some(1u32) {
                    assert(m =~= seq![
                        MigrationStep::MarkDone(OneTimeTask::Gaming),
                        MigrationStep::MarkDone(OneTimeTask::SystemPrivacy),
                        MigrationStep::DeleteLegacyFlagKey,
                    ]);
                } else {
                    assert(m =~= Seq::<MigrationStep>::empty());
                }
            },
            Some((g, s, st)) => {
                if st != Some(1u32) {
                    let first: Seq<MigrationStep> = if f.legacy_optimized == Some(1u32) {
                        seq![
                            MigrationStep::MarkDone(OneTimeTask::Gaming),
                            MigrationStep::MarkDone(OneTimeTask::SystemPrivacy),
                            MigrationStep::DeleteLegacyFlagKey,
                        ]
                    } else {
                        seq![]
                    };
                    let rest = mark_if_done(g, OneTimeTask::Gaming) + mark_if_done(
                        s,
                        OneTimeTask::SystemPrivacy,
                    ) + seq![MigrationStep::DeleteOldToolKey];
                    assert(m =~= first + rest);
                    assert forall|j: int| 0 <= j < m.len() implies m[j]
                        != MigrationStep::MarkDone(OneTimeTask::StartupServices) by {
                        if j < first.len() {
                            assert(m[j] == first[j]);
                        } else {
                            assert(m[j] == rest[j - first.len()]);
                        }
                    }
                }
            },
        }
    }
}

} // verus!
