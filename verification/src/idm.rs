//! The IDM activator's decisions: whether IDM counts as installed, where it
//! is installed, and the run itself as a state machine. The application
//! performs what each state asks for (a registry read, a download, an
//! extraction, the activation, the cleanup) and feeds back what happened.

use vstd::prelude::*;
use crate::release::{find_asset_url, json_str_value, spec_find_asset_url, spec_json_str_value};
use crate::text::{chars_of, decimal, push_decimal, push_str, string_of};

verus! {

/// The file name of the release asset that holds the activator.
pub open spec fn asset_name() -> Seq<char> {
    "IDM-Activator.zip"@
}

/// The key of the release's version in the release metadata.
pub open spec fn tag_key() -> Seq<char> {
    "tag_name"@
}

// ───────────────────────── installation ─────────────────────────

/// IDM counts as installed when any signal is present: the HKLM key (64-bit or
/// WOW6432Node view, whatever its `InstallDir` says), the HKCU settings key, or
/// `IDMan.exe` under one of the Program Files folders.
pub fn idm_installed(hklm_key: bool, wow6432_key: bool, hkcu_key: bool, found_on_disk: bool) -> (b: bool)
    ensures
        b == (hklm_key || wow6432_key || hkcu_key || found_on_disk),
{
    hklm_key || wow6432_key || hkcu_key || found_on_disk
}

/// The registry values that can name the install directory (`None` when the key or
/// value is absent or not a string).
pub struct InstallDirValues {
    pub wow6432_install_path: Option<String>,
    pub wow6432_install_dir: Option<String>,
    pub hklm_install_path: Option<String>,
    pub hklm_install_dir: Option<String>,
    pub hkcu_install_path: Option<String>,
}

pub open spec fn default_install_dir() -> Seq<char> {
    "C:\\Program Files (x86)\\Internet Download Manager"@
}

/// The first non-empty value among the candidates, in order.
pub open spec fn first_non_empty(c: Seq<Option<Seq<char>>>) -> Option<Seq<char>>
    decreases c.len(),
{
    if c.len() == 0 {
        None
    } else {
        match c[0] {
            Some(v) => if v.len() > 0 {
                Some(v)
            } else {
                first_non_empty(c.drop_first())
            },
            None => first_non_empty(c.drop_first()),
        }
    }
}

pub open spec fn install_dir_candidates(v: InstallDirValues) -> Seq<Option<Seq<char>>> {
    seq![
        crate::cleanup::opt_view(v.wow6432_install_path),
        crate::cleanup::opt_view(v.wow6432_install_dir),
        crate::cleanup::opt_view(v.hklm_install_path),
        crate::cleanup::opt_view(v.hklm_install_dir),
        crate::cleanup::opt_view(v.hkcu_install_path),
    ]
}

/// The install directory: the first non-empty of WOW6432Node `InstallPath` and
/// `InstallDir`, HKLM `InstallPath` and `InstallDir`, HKCU `InstallPath`; else the
/// default location.
pub open spec fn spec_install_dir(v: InstallDirValues) -> Seq<char> {
    match first_non_empty(install_dir_candidates(v)) {
        Some(d) => d,
        None => default_install_dir(),
    }
}

fn non_empty(o: &Option<String>) -> (r: Option<String>)
    ensures
        r matches Some(s) ==> o matches Some(t) && s@ == t@ && s@.len() > 0,
        r is None ==> !(o matches Some(t) && t@.len() > 0),
{
    match o {
        Some(s) => {
            let v = chars_of(s.as_str());
            if v.len() > 0 {
                Some(string_of(&v))
            } else {
                None
            }
        },
        None => None,
    }
}

/// A registry value that is present and not empty.
pub open spec fn is_set(o: Option<String>) -> bool {
    o matches Some(s) && s@.len() > 0
}

/// The install directory is the first value that is set, in the order WOW6432Node
/// `InstallPath`, WOW6432Node `InstallDir`, HKLM `InstallPath`, HKLM `InstallDir`,
/// HKCU `InstallPath`; when none is set, it is the default folder under
/// `C:\Program Files (x86)`.
pub proof fn law_install_dir_priority(v: InstallDirValues)
    ensures
        is_set(v.wow6432_install_path) ==> spec_install_dir(v) == v.wow6432_install_path->0@,
        !is_set(v.wow6432_install_path) && is_set(v.wow6432_install_dir) ==> spec_install_dir(v)
            == v.wow6432_install_dir->0@,
        !is_set(v.wow6432_install_path) && !is_set(v.wow6432_install_dir) && is_set(
            v.hklm_install_path,
        ) ==> spec_install_dir(v) == v.hklm_install_path->0@,
        !is_set(v.wow6432_install_path) && !is_set(v.wow6432_install_dir) && !is_set(
            v.hklm_install_path,
        ) && is_set(v.hklm_install_dir) ==> spec_install_dir(v) == v.hklm_install_dir->0@,
        !is_set(v.wow6432_install_path) && !is_set(v.wow6432_install_dir) && !is_set(
            v.hklm_install_path,
        ) && !is_set(v.hklm_install_dir) && is_set(v.hkcu_install_path) ==> spec_install_dir(v)
            == v.hkcu_install_path->0@,
        !is_set(v.wow6432_install_path) && !is_set(v.wow6432_install_dir) && !is_set(
            v.hklm_install_path,
        ) && !is_set(v.hklm_install_dir) && !is_set(v.hkcu_install_path) ==> spec_install_dir(v)
            == "C:\\Program Files (x86)\\Internet Download Manager"@,
{
    reveal_with_fuel(first_non_empty, 6);
    let c = install_dir_candidates(v);
    assert(c.drop_first() =~= seq![c[1], c[2], c[3], c[4]]);
    assert(c.drop_first().drop_first() =~= seq![c[2], c[3], c[4]]);
    assert(c.drop_first().drop_first().drop_first() =~= seq![c[3], c[4]]);
    assert(c.drop_first().drop_first().drop_first().drop_first() =~= seq![c[4]]);
    assert(c.drop_first().drop_first().drop_first().drop_first().drop_first() =~= Seq::<
        Option<Seq<char>>,
    >::empty());
}

pub fn resolve_idm_install_dir(v: &InstallDirValues) -> (r: String)
    ensures
        r@ == spec_install_dir(*v),
{
    let ghost c = install_dir_candidates(*v);
    proof {
        reveal_with_fuel(first_non_empty, 6);
    }
    assert(c.drop_first()[0] == c[1]);
    assert(c.drop_first().drop_first()[0] == c[2]);
    assert(c.drop_first().drop_first().drop_first()[0] == c[3]);
    assert(c.drop_first().drop_first().drop_first().drop_first()[0] == c[4]);
    assert(c.drop_first().drop_first().drop_first().drop_first().drop_first().len() == 0);
    if let Some(s) = non_empty(&v.wow6432_install_path) {
        return s;
    }
    if let Some(s) = non_empty(&v.wow6432_install_dir) {
        return s;
    }
    if let Some(s) = non_empty(&v.hklm_install_path) {
        return s;
    }
    if let Some(s) = non_empty(&v.hklm_install_dir) {
        return s;
    }
    if let Some(s) = non_empty(&v.hkcu_install_path) {
        return s;
    }
    let d = chars_of("C:\\Program Files (x86)\\Internet Download Manager");
    string_of(&d)
}

// ───────────────────────── the run ─────────────────────────

/// How a run of the activator ended.
#[derive(Clone, Copy, PartialEq, Eq, Structural, Debug)]
pub enum Outcome {
    NotInstalled,
    Offline,
    FetchFailed,
    NoTag,
    RegistryUnavailable,
    UpToDate,
    AssetMissing,
    DownloadFailed,
    ZipMissing,
    ExtractFailed,
    Activated,
    ActivationFailed,
}

/// Where a run stands; each state but `Finished` names what to do next.
#[allow(inconsistent_fields)]
pub enum ActivatorState {
    /// Check the installation signals.
    CheckingInstalled,
    /// Probe the network.
    CheckingNetwork,
    /// Fetch the latest release's metadata.
    FetchingRelease,
    /// Open (or create) the version key and read the recorded version.
    ReadingStoredVersion { tag: String, url: Option<String> },
    /// Download the asset from `url` into the temp folder.
    Downloading { tag: String, url: String },
    /// Check that the downloaded archive is on disk.
    CheckingZip { tag: String },
    /// Remove any earlier extraction, then extract the archive.
    Extracting { tag: String },
    /// Remove the archive after a failed extraction.
    RemovingZip,
    /// Patch IDM from the extracted files.
    Activating { tag: String },
    /// Record `tag` as the installed version.
    RecordingVersion { tag: String },
    /// Remove the archive and the extracted files.
    CleaningUp { activated: bool },
    /// Nothing left to do.
    Finished(Outcome),
}

/// What happened when the application did what a state asked for.
pub enum ActivatorEvent {
    Installed(bool),
    NetworkAvailable(bool),
    /// The metadata text, or `None` when the request or the read failed.
    ReleaseFetched(Option<String>),
    /// `None` when the key could not be opened or created; else the recorded version, if any.
    StoredVersion(Option<Option<String>>),
    Downloaded(bool),
    ZipPresent(bool),
    Extracted(bool),
    ZipRemoved,
    Activation(bool),
    VersionRecorded,
    CleanedUp,
}

/// The event a state waits for.
pub open spec fn accepts(s: ActivatorState, e: ActivatorEvent) -> bool {
    match s {
        ActivatorState::CheckingInstalled => e is Installed,
        ActivatorState::CheckingNetwork => e is NetworkAvailable,
        ActivatorState::FetchingRelease => e is ReleaseFetched,
        ActivatorState::ReadingStoredVersion { .. } => e is StoredVersion,
        ActivatorState::Downloading { .. } => e is Downloaded,
        ActivatorState::CheckingZip { .. } => e is ZipPresent,
        ActivatorState::Extracting { .. } => e is Extracted,
        ActivatorState::RemovingZip => e is ZipRemoved,
        ActivatorState::Activating { .. } => e is Activation,
        ActivatorState::RecordingVersion { .. } => e is VersionRecorded,
        ActivatorState::CleaningUp { .. } => e is CleanedUp,
        ActivatorState::Finished(_) => false,
    }
}

/// The tag that a state carries, if any.
pub open spec fn state_tag(s: ActivatorState) -> Option<Seq<char>> {
    match s {
        ActivatorState::ReadingStoredVersion { tag, .. } => Some(tag@),
        ActivatorState::Downloading { tag, .. } => Some(tag@),
        ActivatorState::CheckingZip { tag } => Some(tag@),
        ActivatorState::Extracting { tag } => Some(tag@),
        ActivatorState::Activating { tag } => Some(tag@),
        ActivatorState::RecordingVersion { tag } => Some(tag@),
        _ => None,
    }
}

/// The state after `s` on event `e`.
pub open spec fn transition(s: ActivatorState, e: ActivatorEvent, t: ActivatorState) -> bool {
    match (s, e) {
        (ActivatorState::CheckingInstalled, ActivatorEvent::Installed(yes)) => if yes {
            t is CheckingNetwork
        } else {
            t == ActivatorState::Finished(Outcome::NotInstalled)
        },
        (ActivatorState::CheckingNetwork, ActivatorEvent::NetworkAvailable(yes)) => if yes {
            t is FetchingRelease
        } else {
            t == ActivatorState::Finished(Outcome::Offline)
        },
        (ActivatorState::FetchingRelease, ActivatorEvent::ReleaseFetched(r)) => match r {
            None => t == ActivatorState::Finished(Outcome::FetchFailed),
            Some(json) => match spec_json_str_value(json@, tag_key()) {
                None => t == ActivatorState::Finished(Outcome::NoTag),
                Some(tag) => t matches ActivatorState::ReadingStoredVersion { tag: tt, url } && tt@
                    == tag && crate::cleanup::opt_view(url) == spec_find_asset_url(
                    json@,
                    asset_name(),
                ),
            },
        },
        (
            ActivatorState::ReadingStoredVersion { tag, url },
            ActivatorEvent::StoredVersion(stored),
        ) => match stored {
            None => t == ActivatorState::Finished(Outcome::RegistryUnavailable),
            Some(current) => if current matches Some(c) && c@ == tag@ {
                t == ActivatorState::Finished(Outcome::UpToDate)
            } else {
                match url {
                    None => t == ActivatorState::Finished(Outcome::AssetMissing),
                    Some(u) => t matches ActivatorState::Downloading { tag: tt, url: uu } && tt@
                        == tag@ && uu@ == u@,
                }
            },
        },
        (ActivatorState::Downloading { tag, .. }, ActivatorEvent::Downloaded(ok)) => if ok {
            t matches ActivatorState::CheckingZip { tag: tt } && tt@ == tag@
        } else {
            t == ActivatorState::Finished(Outcome::DownloadFailed)
        },
        (ActivatorState::CheckingZip { tag }, ActivatorEvent::ZipPresent(ok)) => if ok {
            t matches ActivatorState::Extracting { tag: tt } && tt@ == tag@
        } else {
            t == ActivatorState::Finished(Outcome::ZipMissing)
        },
        (ActivatorState::Extracting { tag }, ActivatorEvent::Extracted(ok)) => if ok {
            t matches ActivatorState::Activating { tag: tt } && tt@ == tag@
        } else {
            t is RemovingZip
        },
        (ActivatorState::RemovingZip, ActivatorEvent::ZipRemoved) => t == ActivatorState::Finished(
            Outcome::ExtractFailed,
        ),
        (ActivatorState::Activating { tag }, ActivatorEvent::Activation(ok)) => if ok {
            t matches ActivatorState::RecordingVersion { tag: tt } && tt@ == tag@
        } else {
            t == ActivatorState::CleaningUp { activated: false }
        },
        (ActivatorState::RecordingVersion { .. }, ActivatorEvent::VersionRecorded) => t
            == ActivatorState::CleaningUp { activated: true },
        (ActivatorState::CleaningUp { activated }, ActivatorEvent::CleanedUp) => t
            == ActivatorState::Finished(
            if activated {
                Outcome::Activated
            } else {
                Outcome::ActivationFailed
            },
        ),
        _ => false,
    }
}

/// The first state of a run.
pub fn start() -> (s: ActivatorState)
    ensures
        s is CheckingInstalled,
{
    ActivatorState::CheckingInstalled
}

/// Advances a run by one event.
pub fn step(s: ActivatorState, e: ActivatorEvent) -> (t: ActivatorState)
    requires
        accepts(s, e),
    ensures
        transition(s, e, t),
{
    match (s, e) {
        (ActivatorState::CheckingInstalled, ActivatorEvent::Installed(yes)) => if yes {
            ActivatorState::CheckingNetwork
        } else {
            ActivatorState::Finished(Outcome::NotInstalled)
        },
        (ActivatorState::CheckingNetwork, ActivatorEvent::NetworkAvailable(yes)) => if yes {
            ActivatorState::FetchingRelease
        } else {
            ActivatorState::Finished(Outcome::Offline)
        },
        (ActivatorState::FetchingRelease, ActivatorEvent::ReleaseFetched(r)) => match r {
            None => ActivatorState::Finished(Outcome::FetchFailed),
            Some(json) => match json_str_value(json.as_str(), "tag_name") {
                None => ActivatorState::Finished(Outcome::NoTag),
                Some(tag) => {
                    let url = find_asset_url(json.as_str(), "IDM-Activator.zip");
                    ActivatorState::ReadingStoredVersion { tag, url }
                },
            },
        },
        (
            ActivatorState::ReadingStoredVersion { tag, url },
            ActivatorEvent::StoredVersion(stored),
        ) => match stored {
            None => ActivatorState::Finished(Outcome::RegistryUnavailable),
            Some(current) => {
                let same = match &current {
                    Some(c) => *c == tag,
                    None => false,
                };
                if same {
                    ActivatorState::Finished(Outcome::UpToDate)
                } else {
                    match url {
                        None => ActivatorState::Finished(Outcome::AssetMissing),
                        Some(u) => ActivatorState::Downloading { tag, url: u },
                    }
                }
            },
        },
        (ActivatorState::Downloading { tag, .. }, ActivatorEvent::Downloaded(ok)) => if ok {
            ActivatorState::CheckingZip { tag }
        } else {
            ActivatorState::Finished(Outcome::DownloadFailed)
        },
        (ActivatorState::CheckingZip { tag }, ActivatorEvent::ZipPresent(ok)) => if ok {
            ActivatorState::Extracting { tag }
        } else {
            ActivatorState::Finished(Outcome::ZipMissing)
        },
        (ActivatorState::Extracting { tag }, ActivatorEvent::Extracted(ok)) => if ok {
            ActivatorState::Activating { tag }
        } else {
            ActivatorState::RemovingZip
        },
        (ActivatorState::RemovingZip, ActivatorEvent::ZipRemoved) => ActivatorState::Finished(
            Outcome::ExtractFailed,
        ),
        (ActivatorState::Activating { tag }, ActivatorEvent::Activation(ok)) => if ok {
            ActivatorState::RecordingVersion { tag }
        } else {
            ActivatorState::CleaningUp { activated: false }
        },
        (ActivatorState::RecordingVersion { .. }, ActivatorEvent::VersionRecorded) => {
            ActivatorState::CleaningUp { activated: true }
        },
        (ActivatorState::CleaningUp { activated }, ActivatorEvent::CleanedUp) => {
            ActivatorState::Finished(
                if activated {
                    Outcome::Activated
                } else {
                    Outcome::ActivationFailed
                },
            )
        },
        _ => ActivatorState::Finished(Outcome::NotInstalled),
    }
}

/// How many events a run can still take from a state, at most.
pub open spec fn steps_left(s: ActivatorState) -> nat {
    match s {
        ActivatorState::CheckingInstalled => 11,
        ActivatorState::CheckingNetwork => 10,
        ActivatorState::FetchingRelease => 9,
        ActivatorState::ReadingStoredVersion { .. } => 8,
        ActivatorState::Downloading { .. } => 7,
        ActivatorState::CheckingZip { .. } => 6,
        ActivatorState::Extracting { .. } => 5,
        ActivatorState::Activating { .. } => 4,
        ActivatorState::RecordingVersion { .. } => 3,
        ActivatorState::CleaningUp { .. } => 2,
        ActivatorState::RemovingZip => 1,
        ActivatorState::Finished(_) => 0,
    }
}

/// Every run ends: each event brings the run closer to `Finished`, which takes no
/// event, so a run takes at most eleven events.
pub proof fn law_every_run_ends(s: ActivatorState, e: ActivatorEvent, t: ActivatorState)
    ensures
        transition(s, e, t) ==> steps_left(t) < steps_left(s),
        steps_left(s) == 0 <==> s is Finished,
        s is Finished ==> !accepts(s, e),
{
}

/// A release whose tag is already recorded is not downloaded again: the run ends
/// as up to date.
pub proof fn law_recorded_version_is_not_downloaded_again(
    tag: String,
    url: Option<String>,
    current: String,
    t: ActivatorState,
)
    requires
        current@ == tag@,
        transition(
            ActivatorState::ReadingStoredVersion { tag, url },
            ActivatorEvent::StoredVersion(Some(Some(current))),
            t,
        ),
    ensures
        t == ActivatorState::Finished(Outcome::UpToDate),
{
}

/// A download happens only when the recorded version differs from the release's
/// tag (or none is recorded), and it fetches the URL found for the activator asset.
pub proof fn law_download_only_when_outdated(s: ActivatorState, e: ActivatorEvent, t: ActivatorState)
    requires
        transition(s, e, t),
        t is Downloading,
    ensures
        ({
            &&& s matches ActivatorState::ReadingStoredVersion { tag, url }
            &&& url matches Some(u)
            &&& t matches ActivatorState::Downloading { url: tu, .. }
            &&& tu@ == u@
            &&& e matches ActivatorEvent::StoredVersion(Some(current))
            &&& !(current matches Some(c) && c@ == tag@)
        }),
{
}

/// A version is recorded only right after a successful activation, and it is the
/// tag of the release that was activated.
pub proof fn law_version_recorded_only_after_activation(
    s: ActivatorState,
    e: ActivatorEvent,
    t: ActivatorState,
)
    requires
        transition(s, e, t),
        t is RecordingVersion,
    ensures
        s is Activating,
        e == ActivatorEvent::Activation(true),
        state_tag(t) == state_tag(s),
{
}

/// Every activation attempt, successful or not, is followed by the cleanup
/// (through recording the version when it succeeded).
pub proof fn law_activation_is_followed_by_cleanup(
    s: ActivatorState,
    e: ActivatorEvent,
    t: ActivatorState,
)
    requires
        s is Activating,
        transition(s, e, t),
    ensures
        (t is RecordingVersion) || t == (ActivatorState::CleaningUp { activated: false }),
{
}

/// A failed extraction removes the archive and ends the run without activating.
pub proof fn law_failed_extraction_removes_archive(
    s: ActivatorState,
    t: ActivatorState,
    u: ActivatorState,
)
    requires
        s is Extracting,
        transition(s, ActivatorEvent::Extracted(false), t),
        transition(t, ActivatorEvent::ZipRemoved, u),
    ensures
        t is RemovingZip,
        u == ActivatorState::Finished(Outcome::ExtractFailed),
{
}

// ───────────────────────── activation checks ─────────────────────────

/// Why the activation cannot go ahead.
#[derive(Clone, Copy, PartialEq, Eq, Structural, Debug)]
pub enum ActivationProblem {
    NotElevated,
    MissingDataBin,
    MissingRegistryBin,
    MissingIdman,
}

/// The checks before patching, in order: elevation, then `data.bin`, then
/// `Registry.bin`, then `IDMan.exe`.
pub open spec fn spec_activation_check(
    elevated: bool,
    data_bin: bool,
    registry_bin: bool,
    idman: bool,
) -> Option<ActivationProblem> {
    if !elevated {
        Some(ActivationProblem::NotElevated)
    } else if !data_bin {
        Some(ActivationProblem::MissingDataBin)
    } else if !registry_bin {
        Some(ActivationProblem::MissingRegistryBin)
    } else if !idman {
        Some(ActivationProblem::MissingIdman)
    } else {
        None
    }
}

pub fn activation_check(elevated: bool, data_bin: bool, registry_bin: bool, idman: bool) -> (r: Option<ActivationProblem>)
    ensures
        r == spec_activation_check(elevated, data_bin, registry_bin, idman),
{
    if !elevated {
        Some(ActivationProblem::NotElevated)
    } else if !data_bin {
        Some(ActivationProblem::MissingDataBin)
    } else if !registry_bin {
        Some(ActivationProblem::MissingRegistryBin)
    } else if !idman {
        Some(ActivationProblem::MissingIdman)
    } else {
        None
    }
}

/// The error text for a failed check; `path` is the file that was looked for.
pub open spec fn spec_problem_message(p: ActivationProblem, path: Seq<char>) -> Seq<char> {
    match p {
        ActivationProblem::NotElevated => "ZeroIdle is not running as Administrator. IDM activation requires elevation to patch IDMan.exe and write registry keys."@,
        ActivationProblem::MissingDataBin => "Required activation file 'data.bin' not found at '"@ + path
            + "'"@,
        ActivationProblem::MissingRegistryBin => "Required activation file 'Registry.bin' not found at '"@
            + path + "'"@,
        ActivationProblem::MissingIdman => "IDMan.exe not found at '"@ + path
            + "'. Check the install path."@,
    }
}

pub fn problem_message(p: ActivationProblem, path: &str) -> (s: String)
    ensures
        s@ == spec_problem_message(p, path@),
{
    let mut out: Vec<char> = Vec::new();
    match p {
        ActivationProblem::NotElevated => {
            push_str(&mut out, "ZeroIdle is not running as Administrator. IDM activation requires elevation to patch IDMan.exe and write registry keys.");
        },
        ActivationProblem::MissingDataBin => {
            push_str(&mut out, "Required activation file 'data.bin' not found at '");
            push_str(&mut out, path);
            push_str(&mut out, "'");
        },
        ActivationProblem::MissingRegistryBin => {
            push_str(&mut out, "Required activation file 'Registry.bin' not found at '");
            push_str(&mut out, path);
            push_str(&mut out, "'");
        },
        ActivationProblem::MissingIdman => {
            push_str(&mut out, "IDMan.exe not found at '");
            push_str(&mut out, path);
            push_str(&mut out, "'. Check the install path.");
        },
    }
    assert(out@ =~= spec_problem_message(p, path@));
    string_of(&out)
}

/// How `regedit /s` with the registry patch ended: it could not be launched (the
/// error's text), or it exited, successfully or not, with its exit code (`None`
/// when the process has none).
pub enum RegeditOutcome {
    LaunchFailed(String),
    Exited { success: bool, code: Option<i32> },
}

/// An integer in decimal, with a leading `-` when negative.
pub open spec fn signed_decimal(i: int) -> Seq<char> {
    if i < 0 {
        seq!['-'] + decimal((-i) as nat)
    } else {
        decimal(i as nat)
    }
}

/// The problem that ends the activation at the registry patch, if any; a missing
/// exit code reads as -1.
pub open spec fn spec_regedit_problem(o: RegeditOutcome) -> Option<Seq<char>> {
    match o {
        RegeditOutcome::LaunchFailed(e) => Some("Failed to launch regedit: "@ + e@),
        RegeditOutcome::Exited { success, code } => if success {
            None
        } else {
            Some(
                "regedit /s exited with code "@ + signed_decimal(
                    match code {
                        Some(c) => c as int,
                        None => -1,
                    },
                ),
            )
        },
    }
}

pub fn regedit_problem(o: &RegeditOutcome) -> (r: Option<String>)
    ensures
        r matches Some(m) ==> spec_regedit_problem(*o) == Some(m@),
        r is None ==> spec_regedit_problem(*o) is None,
{
    match o {
        RegeditOutcome::LaunchFailed(e) => {
            let mut out: Vec<char> = Vec::new();
            push_str(&mut out, "Failed to launch regedit: ");
            push_str(&mut out, e.as_str());
            Some(string_of(&out))
        },
        RegeditOutcome::Exited { success, code } => {
            if *success {
                return None;
            }
            let c: i32 = match code {
                Some(c) => *c,
                None => -1,
            };
            let mut out: Vec<char> = Vec::new();
            push_str(&mut out, "regedit /s exited with code ");
            let ghost head = out@;
            if c < 0 {
                out.push('-');
                let m: i64 = -(c as i64);
                push_decimal(&mut out, m as u128);
            } else {
                push_decimal(&mut out, c as u128);
            }
            assert(out@ =~= head + signed_decimal(c as int));
            Some(string_of(&out))
        },
    }
}

/// The problem that ends the activation when `IDMan.exe` could not be overwritten.
pub fn copy_problem(error: &str) -> (r: String)
    ensures
        r@ == "Failed to copy data.bin to IDMan.exe: "@ + error@,
{
    let mut out: Vec<char> = Vec::new();
    push_str(&mut out, "Failed to copy data.bin to IDMan.exe: ");
    push_str(&mut out, error);
    string_of(&out)
}

} // verus!
