use zeroidle::killer::{get_idm_pids, is_idm_exe_name, poll_interval_secs, should_close_window, system_class};
use zeroidle::optimize::{
    all_onetime_tasks_done, bloatware_startup_entries, ensure_schema_current, nonessential_services, is_system_ssd, is_task_done,
    maybe_clear_standby_memory, migrate_legacy_flag, task_id, total_ram_gb, build_gates, memory_gates, disk_gates,
    uptime_minutes, windows_build, LegacyFlags, MigrationStep, OneTimeTask,
};

fn exe_name(s: &str) -> Vec<u16> {
    let mut v: Vec<u16> = s.encode_utf16().collect();
    v.resize(260, 0);
    v
}

#[test]
fn idm_process_names() {
    assert!(is_idm_exe_name(&exe_name("IDMan.exe")));
    assert!(is_idm_exe_name(&exe_name("idman.EXE")));
    assert!(!is_idm_exe_name(&exe_name("IDMan.exe2")));
    assert!(!is_idm_exe_name(&exe_name("IDMan.ex")));
    assert!(!is_idm_exe_name(&exe_name("xIDMan.exe")));
    assert!(!is_idm_exe_name(&[105, 100, 109]));
}

#[test]
fn idm_pids_in_order() {
    let procs = vec![(4, exe_name("IDMan.exe")), (5, exe_name("notepad.exe")), (9, exe_name("IDMAN.EXE"))];
    assert_eq!(get_idm_pids(&procs), vec![4, 9]);
}

fn units(s: &str) -> Vec<u16> {
    s.encode_utf16().collect()
}

#[test]
fn popups_to_close() {
    let idm = vec![7, 8];
    assert!(should_close_window(7, 1, &idm, 0, &units("#32770")));
    assert!(!should_close_window(7, 7, &idm, 0, &units("#32770")));
    assert!(!should_close_window(9, 1, &idm, 0, &units("#32770")));
    assert!(!should_close_window(8, 1, &idm, 5, &units("#32770")));
    assert!(!should_close_window(8, 1, &idm, 0, &units("shell_traywnd")));
    assert!(should_close_window(8, 1, &idm, 0, &vec![]));
    assert!(system_class(&units("WINDOWS.UI.CORE.COREWINDOW")));
    assert!(!system_class(&units("Progman2")));
    assert_eq!(poll_interval_secs(true), 5);
    assert_eq!(poll_interval_secs(false), 15);
}

#[test]
fn disk_type_from_query_output() {
    assert!(is_system_ssd(None));
    assert!(is_system_ssd(Some("SSD\r\n")));
    assert!(is_system_ssd(Some("")));
    assert!(is_system_ssd(Some("   ")));
    assert!(!is_system_ssd(Some("HDD\r\n")));
    assert!(is_system_ssd(Some("Unspecified")));
    assert!(!is_system_ssd(Some("  hdd  ")));
    assert!(is_system_ssd(Some("NVMe")));
}

#[test]
fn build_and_memory_from_outputs() {
    assert_eq!(windows_build(Some("22631")), 22631);
    assert_eq!(windows_build(Some(" 19045 \n")), 19045);
    assert_eq!(windows_build(Some("abc")), 0);
    assert_eq!(windows_build(Some("4294967296")), 0);
    assert_eq!(windows_build(None), 0);
    assert_eq!(total_ram_gb(Some("15.9\r\n")), 15);
    assert_eq!(total_ram_gb(Some("32")), 32);
    assert_eq!(total_ram_gb(Some(".5")), 0);
    assert_eq!(total_ram_gb(Some("x.5")), 0);
    assert_eq!(total_ram_gb(None), 0);
}

#[test]
fn uptime_gate() {
    assert_eq!(uptime_minutes(599_999), 9);
    assert_eq!(uptime_minutes(600_000), 10);
    assert!(!maybe_clear_standby_memory(9));
    assert!(!maybe_clear_standby_memory(10));
    assert!(maybe_clear_standby_memory(11));
}

#[test]
fn gates_follow_build_memory_and_disk() {
    let g = build_gates(19041);
    assert!(g.gpu_scheduling && g.remove_cortana_package && !g.recall_policy && !g.copilot_policy);
    let g = build_gates(22631);
    assert!(g.gpu_scheduling && !g.remove_cortana_package && !g.recall_policy && g.copilot_policy);
    let g = build_gates(26100);
    assert!(g.gpu_scheduling && !g.remove_cortana_package && g.recall_policy && g.copilot_policy);
    let g = build_gates(0);
    assert!(!g.gpu_scheduling && g.remove_cortana_package);
    let m = memory_gates(16);
    assert!(m.disable_memory_compression && !m.disable_page_file);
    let m = memory_gates(32);
    assert!(m.disable_memory_compression && m.disable_page_file);
    assert!(!memory_gates(15).disable_memory_compression);
    let d = disk_gates(true);
    assert!(d.disable_sysmain && !d.disable_scheduled_defrag);
    let d = disk_gates(false);
    assert!(!d.disable_sysmain && d.disable_scheduled_defrag);
}

#[test]
fn task_flags() {
    assert!(is_task_done(Some(1)));
    assert!(!is_task_done(Some(2)));
    assert!(!is_task_done(None));
    assert!(all_onetime_tasks_done(Some(1), Some(1), Some(1)));
    assert!(!all_onetime_tasks_done(Some(1), None, Some(1)));
    assert_eq!(task_id(OneTimeTask::Gaming), "gaming_opt");
    assert_eq!(task_id(OneTimeTask::SystemPrivacy), "system_privacy");
    assert_eq!(task_id(OneTimeTask::StartupServices), "startup_services");
    assert!(ensure_schema_current(Some("v3")));
    assert!(!ensure_schema_current(Some("v2")));
    assert!(!ensure_schema_current(None));
}

#[test]
fn legacy_flags_migration() {
    assert_eq!(migrate_legacy_flag(&LegacyFlags { legacy_optimized: None, old_tool_tasks: None }), vec![]);
    assert_eq!(
        migrate_legacy_flag(&LegacyFlags { legacy_optimized: Some(1), old_tool_tasks: None }),
        vec![MigrationStep::MarkDone(OneTimeTask::Gaming), MigrationStep::MarkDone(OneTimeTask::SystemPrivacy), MigrationStep::DeleteLegacyFlagKey]
    );
    assert_eq!(
        migrate_legacy_flag(&LegacyFlags { legacy_optimized: Some(0), old_tool_tasks: Some((None, Some(1), Some(1))) }),
        vec![MigrationStep::MarkDone(OneTimeTask::SystemPrivacy), MigrationStep::MarkDone(OneTimeTask::StartupServices), MigrationStep::DeleteOldToolKey]
    );
}

#[test]
fn service_and_startup_lists() {
    let services = nonessential_services();
    assert_eq!(services.len(), 15);
    assert_eq!(services[0], "WSearch");
    assert_eq!(services[14], "XboxGipSvc");
    assert!(services.contains(&"Fax"));
    let entries = bloatware_startup_entries();
    assert_eq!(entries.len(), 12);
    assert_eq!(entries[4], "iTunes Helper");
    assert_eq!(entries[11], "Skype");
}
