use zeroidle::idm::{
    activation_check, copy_problem, idm_installed, regedit_problem, RegeditOutcome, problem_message, resolve_idm_install_dir, start, step,
    ActivationProblem, ActivatorEvent, ActivatorState, InstallDirValues, Outcome,
};

const RELEASE: &str = r#"{"tag_name": "v2.0", "assets": [{"name": "IDM-Activator.zip", "browser_download_url": "https://example.org/a.zip"}]}"#;

fn run(events: Vec<ActivatorEvent>) -> ActivatorState {
    let mut s = start();
    for e in events {
        s = step(s, e);
    }
    s
}

fn finished(s: &ActivatorState) -> Option<Outcome> {
    match s {
        ActivatorState::Finished(o) => Some(*o),
        _ => None,
    }
}

#[test]
fn full_run_activates_and_records_the_tag() {
    let mut s = start();
    s = step(s, ActivatorEvent::Installed(true));
    s = step(s, ActivatorEvent::NetworkAvailable(true));
    s = step(s, ActivatorEvent::ReleaseFetched(Some(RELEASE.to_string())));
    match &s {
        ActivatorState::ReadingStoredVersion { tag, url } => {
            assert_eq!(tag, "v2.0");
            assert_eq!(url.as_deref(), Some("https://example.org/a.zip"));
        }
        _ => panic!("expected to read the stored version"),
    }
    s = step(s, ActivatorEvent::StoredVersion(Some(Some("v1.0".to_string()))));
    match &s {
        ActivatorState::Downloading { tag, url } => {
            assert_eq!(tag, "v2.0");
            assert_eq!(url, "https://example.org/a.zip");
        }
        _ => panic!("expected a download"),
    }
    s = step(s, ActivatorEvent::Downloaded(true));
    s = step(s, ActivatorEvent::ZipPresent(true));
    s = step(s, ActivatorEvent::Extracted(true));
    assert!(matches!(s, ActivatorState::Activating { .. }));
    s = step(s, ActivatorEvent::Activation(true));
    match &s {
        ActivatorState::RecordingVersion { tag } => assert_eq!(tag, "v2.0"),
        _ => panic!("expected the version to be recorded"),
    }
    s = step(s, ActivatorEvent::VersionRecorded);
    assert!(matches!(s, ActivatorState::CleaningUp { activated: true }));
    s = step(s, ActivatorEvent::CleanedUp);
    assert_eq!(finished(&s), Some(Outcome::Activated));
}

#[test]
fn early_exits() {
    assert_eq!(finished(&run(vec![ActivatorEvent::Installed(false)])), Some(Outcome::NotInstalled));
    assert_eq!(
        finished(&run(vec![ActivatorEvent::Installed(true), ActivatorEvent::NetworkAvailable(false)])),
        Some(Outcome::Offline)
    );
    assert_eq!(
        finished(&run(vec![
            ActivatorEvent::Installed(true),
            ActivatorEvent::NetworkAvailable(true),
            ActivatorEvent::ReleaseFetched(None)
        ])),
        Some(Outcome::FetchFailed)
    );
    assert_eq!(
        finished(&run(vec![
            ActivatorEvent::Installed(true),
            ActivatorEvent::NetworkAvailable(true),
            ActivatorEvent::ReleaseFetched(Some("{\"name\":\"x\"}".to_string()))
        ])),
        Some(Outcome::NoTag)
    );
}

fn after_release(json: &str) -> Vec<ActivatorEvent> {
    vec![
        ActivatorEvent::Installed(true),
        ActivatorEvent::NetworkAvailable(true),
        ActivatorEvent::ReleaseFetched(Some(json.to_string())),
    ]
}

#[test]
fn recorded_version_is_not_downloaded_again() {
    let mut e = after_release(RELEASE);
    e.push(ActivatorEvent::StoredVersion(Some(Some("v2.0".to_string()))));
    assert_eq!(finished(&run(e)), Some(Outcome::UpToDate));
}

#[test]
fn registry_and_asset_failures() {
    let mut e = after_release(RELEASE);
    e.push(ActivatorEvent::StoredVersion(None));
    assert_eq!(finished(&run(e)), Some(Outcome::RegistryUnavailable));
    let mut e = after_release("{\"tag_name\":\"v3\",\"assets\":[]}");
    e.push(ActivatorEvent::StoredVersion(Some(None)));
    assert_eq!(finished(&run(e)), Some(Outcome::AssetMissing));
}

#[test]
fn download_extract_and_activation_failures() {
    let mut base = after_release(RELEASE);
    base.push(ActivatorEvent::StoredVersion(Some(None)));
    let mut e = after_release(RELEASE);
    e.push(ActivatorEvent::StoredVersion(Some(None)));
    e.push(ActivatorEvent::Downloaded(false));
    assert_eq!(finished(&run(e)), Some(Outcome::DownloadFailed));

    let mut e = after_release(RELEASE);
    e.extend(vec![ActivatorEvent::StoredVersion(Some(None)), ActivatorEvent::Downloaded(true), ActivatorEvent::ZipPresent(false)]);
    assert_eq!(finished(&run(e)), Some(Outcome::ZipMissing));

    let mut e = after_release(RELEASE);
    e.extend(vec![
        ActivatorEvent::StoredVersion(Some(None)),
        ActivatorEvent::Downloaded(true),
        ActivatorEvent::ZipPresent(true),
        ActivatorEvent::Extracted(false),
    ]);
    let s = run(e);
    assert!(matches!(s, ActivatorState::RemovingZip));
    assert_eq!(finished(&step(s, ActivatorEvent::ZipRemoved)), Some(Outcome::ExtractFailed));

    let mut e = after_release(RELEASE);
    e.extend(vec![
        ActivatorEvent::StoredVersion(Some(None)),
        ActivatorEvent::Downloaded(true),
        ActivatorEvent::ZipPresent(true),
        ActivatorEvent::Extracted(true),
        ActivatorEvent::Activation(false),
    ]);
    let s = run(e);
    assert!(matches!(s, ActivatorState::CleaningUp { activated: false }));
    assert_eq!(finished(&step(s, ActivatorEvent::CleanedUp)), Some(Outcome::ActivationFailed));
}

#[test]
fn installation_signals() {
    assert!(!idm_installed(false, false, false, false));
    assert!(idm_installed(true, false, false, false));
    assert!(idm_installed(false, false, false, true));
}

fn values(v: [Option<&str>; 5]) -> InstallDirValues {
    let s = |o: Option<&str>| o.map(|x| x.to_string());
    InstallDirValues {
        wow6432_install_path: s(v[0]),
        wow6432_install_dir: s(v[1]),
        hklm_install_path: s(v[2]),
        hklm_install_dir: s(v[3]),
        hkcu_install_path: s(v[4]),
    }
}

#[test]
fn install_dir_lookup_order() {
    assert_eq!(resolve_idm_install_dir(&values([None; 5])), "C:\\Program Files (x86)\\Internet Download Manager");
    assert_eq!(resolve_idm_install_dir(&values([Some(""), Some("B"), Some("C"), None, Some("E")])), "B");
    assert_eq!(resolve_idm_install_dir(&values([None, Some(""), None, Some("D"), Some("E")])), "D");
    assert_eq!(resolve_idm_install_dir(&values([None, None, None, Some(""), Some("E")])), "E");
    assert_eq!(resolve_idm_install_dir(&values([Some("A"), Some("B"), Some("C"), Some("D"), Some("E")])), "A");
}

#[test]
fn activation_checks_and_messages() {
    assert_eq!(activation_check(false, false, false, false), Some(ActivationProblem::NotElevated));
    assert_eq!(activation_check(true, false, true, true), Some(ActivationProblem::MissingDataBin));
    assert_eq!(activation_check(true, true, false, false), Some(ActivationProblem::MissingRegistryBin));
    assert_eq!(activation_check(true, true, true, false), Some(ActivationProblem::MissingIdman));
    assert_eq!(activation_check(true, true, true, true), None);
    assert_eq!(
        problem_message(ActivationProblem::MissingDataBin, "X\\src\\data.bin"),
        "Required activation file 'data.bin' not found at 'X\\src\\data.bin'"
    );
    assert_eq!(
        problem_message(ActivationProblem::MissingIdman, "D\\IDMan.exe"),
        "IDMan.exe not found at 'D\\IDMan.exe'. Check the install path."
    );
    assert!(problem_message(ActivationProblem::NotElevated, "").starts_with("ZeroIdle is not running as Administrator."));
}

/// Answers whatever a state asks for from the bits of `pattern`.
fn answer(s: &ActivatorState, pattern: u32, i: u32) -> ActivatorEvent {
    let bit = (pattern >> i) & 1 == 1;
    match s {
        ActivatorState::CheckingInstalled => ActivatorEvent::Installed(bit),
        ActivatorState::CheckingNetwork => ActivatorEvent::NetworkAvailable(bit),
        ActivatorState::FetchingRelease => ActivatorEvent::ReleaseFetched(if bit { Some(RELEASE.to_string()) } else { None }),
        ActivatorState::ReadingStoredVersion { .. } => ActivatorEvent::StoredVersion(if bit { Some(None) } else { Some(Some("v2.0".to_string())) }),
        ActivatorState::Downloading { .. } => ActivatorEvent::Downloaded(bit),
        ActivatorState::CheckingZip { .. } => ActivatorEvent::ZipPresent(bit),
        ActivatorState::Extracting { .. } => ActivatorEvent::Extracted(bit),
        ActivatorState::RemovingZip => ActivatorEvent::ZipRemoved,
        ActivatorState::Activating { .. } => ActivatorEvent::Activation(bit),
        ActivatorState::RecordingVersion { .. } => ActivatorEvent::VersionRecorded,
        ActivatorState::CleaningUp { .. } => ActivatorEvent::CleanedUp,
        ActivatorState::Finished(_) => unreachable!(),
    }
}

#[test]
fn every_run_ends_within_eleven_events() {
    for pattern in 0..(1u32 << 12) {
        let mut s = start();
        let mut n = 0;
        while finished(&s).is_none() {
            let e = answer(&s, pattern, n);
            s = step(s, e);
            n += 1;
            assert!(n <= 11);
        }
    }
}

#[test]
fn regedit_outcomes_and_copy_failure() {
    assert_eq!(regedit_problem(&RegeditOutcome::Exited { success: true, code: Some(0) }), None);
    assert_eq!(
        regedit_problem(&RegeditOutcome::Exited { success: false, code: Some(5) }).as_deref(),
        Some("regedit /s exited with code 5")
    );
    assert_eq!(
        regedit_problem(&RegeditOutcome::Exited { success: false, code: None }).as_deref(),
        Some("regedit /s exited with code -1")
    );
    assert_eq!(
        regedit_problem(&RegeditOutcome::Exited { success: false, code: Some(i32::MIN) }).as_deref(),
        Some("regedit /s exited with code -2147483648")
    );
    assert_eq!(
        regedit_problem(&RegeditOutcome::LaunchFailed("not found".to_string())).as_deref(),
        Some("Failed to launch regedit: not found")
    );
    assert_eq!(copy_problem("Access is denied."), "Failed to copy data.bin to IDMan.exe: Access is denied.");
}
