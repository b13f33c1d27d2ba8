//! The background popup killer's decisions: which processes are IDM, which
//! of their windows are nag popups to close, and how long to wait between
//! sweeps. The application enumerates processes and windows and sends the
//! close messages.

use vstd::prelude::*;
use crate::text::chars_of;

verus! {

/// ASCII upper-case letters to lower case; every other code unit unchanged.
pub open spec fn ascii_lower(c: u32) -> u32 {
    if 65 <= c && c <= 90 {
        (c + 32) as u32
    } else {
        c
    }
}

fn ascii_lower_exec(c: u32) -> (r: u32)
    ensures
        r == ascii_lower(c),
{
    if 65 <= c && c <= 90 {
        c + 32
    } else {
        c
    }
}

/// `idman.exe`, as UTF-16 code units.
pub open spec fn idman_exe() -> Seq<u16> {
    seq![105u16, 100u16, 109u16, 97u16, 110u16, 46u16, 101u16, 120u16, 101u16]
}

/// A process's NUL-terminated UTF-16 executable name is `IDMan.exe`, ignoring ASCII case.
pub open spec fn is_idm_exe(name: Seq<u16>) -> bool {
    &&& name.len() >= 10
    &&& forall|i: int|
        0 <= i < 9 ==> name[i] != 0 && ascii_lower(#[trigger] name[i] as u32) == idman_exe()[i] as u32
    &&& name[9] == 0
}

pub fn is_idm_exe_name(name: &[u16]) -> (b: bool)
    ensures
        b == is_idm_exe(name@),
{
    if name.len() < 10 {
        return false;
    }
    let target: [u16; 9] = [105, 100, 109, 97, 110, 46, 101, 120, 101];
    assert(target@ =~= idman_exe());
    let mut i: usize = 0;
    while i < 9
        invariant
            0 <= i <= 9,
            name@.len() >= 10,
            target@ == idman_exe(),
            forall|k: int|
                0 <= k < i ==> name@[k] != 0 && ascii_lower(#[trigger] name@[k] as u32)
                    == idman_exe()[k] as u32,
        decreases 9 - i,
    {
        let raw = name[i];
        if raw == 0 || ascii_lower_exec(raw as u32) != target[i] as u32 {
            return false;
        }
        i += 1;
    }
    name[9] == 0
}

/// The ids of the IDM processes among `(pid, executable name)` entries, in order.
pub open spec fn spec_idm_pids(procs: Seq<(u32, Seq<u16>)>) -> Seq<u32>
    decreases procs.len(),
{
    if procs.len() == 0 {
        seq![]
    } else {
        let rest = spec_idm_pids(procs.drop_last());
        if is_idm_exe(procs.last().1) {
            rest.push(procs.last().0)
        } else {
            rest
        }
    }
}

pub open spec fn name_views(p: Seq<(u32, Vec<u16>)>) -> Seq<(u32, Seq<u16>)> {
    p.map_values(|e: (u32, Vec<u16>)| (e.0, e.1@))
}

pub fn get_idm_pids(procs: &Vec<(u32, Vec<u16>)>) -> (r: Vec<u32>)
    ensures
        r@ == spec_idm_pids(name_views(procs@)),
{
    let mut out: Vec<u32> = Vec::new();
    let mut i: usize = 0;
    while i < procs.len()
        invariant
            0 <= i <= procs.len(),
            out@ == spec_idm_pids(name_views(procs@.take(i as int))),
        decreases procs.len() - i,
    {
        let (pid, ref name) = procs[i];
        assert(name_views(procs@.take(i + 1)).drop_last() =~= name_views(procs@.take(i as int)));
        if is_idm_exe_name(name.as_slice()) {
            out.push(pid);
        }
        i += 1;
    }
    assert(procs@.take(procs.len() as int) =~= procs@);
    out
}

/// Window classes of the shell that are never closed.
pub open spec fn system_classes() -> Seq<Seq<char>> {
    seq![
        "Shell_TrayWnd"@,
        "Progman"@,
        "WorkerW"@,
        "Shell_SecondaryTrayWnd"@,
        "DV2ControlHost"@,
        "NotifyIconOverflowWindow"@,
        "Windows.UI.Core.CoreWindow"@,
    ]
}

/// A window class name (UTF-16) equals `class`, ignoring ASCII case.
pub open spec fn class_is(units: Seq<u16>, class: Seq<char>) -> bool {
    &&& units.len() == class.len()
    &&& forall|i: int|
        0 <= i < units.len() ==> ascii_lower(#[trigger] units[i] as u32) == ascii_lower(
            class[i] as u32,
        )
}

pub open spec fn is_system_class(units: Seq<u16>) -> bool {
    exists|k: int| 0 <= k < system_classes().len() && class_is(units, #[trigger] system_classes()[k])
}

fn class_equals(units: &Vec<u16>, class: &str) -> (b: bool)
    ensures
        b == class_is(units@, class@),
{
    let c = chars_of(class);
    if units.len() != c.len() {
        return false;
    }
    let mut i: usize = 0;
    while i < units.len()
        invariant
            0 <= i <= units.len(),
            units.len() == c.len(),
            c@ == class@,
            forall|k: int|
                0 <= k < i ==> ascii_lower(#[trigger] units@[k] as u32) == ascii_lower(
                    c@[k] as u32,
                ),
        decreases units.len() - i,
    {
        if ascii_lower_exec(units[i] as u32) != ascii_lower_exec(c[i] as u32) {
            return false;
        }
        i += 1;
    }
    true
}

pub fn system_class(units: &Vec<u16>) -> (b: bool)
    ensures
        b == is_system_class(units@),
{
    let r = class_equals(units, "Shell_TrayWnd") || class_equals(units, "Progman")
        || class_equals(units, "WorkerW") || class_equals(units, "Shell_SecondaryTrayWnd")
        || class_equals(units, "DV2ControlHost") || class_equals(units, "NotifyIconOverflowWindow")
        || class_equals(units, "Windows.UI.Core.CoreWindow");
    proof {
        if r {
            if class_is(units@, "Shell_TrayWnd"@) {
                assert(class_is(units@, system_classes()[0]));
            } else if class_is(units@, "Progman"@) {
                assert(class_is(units@, system_classes()[1]));
            } else if class_is(units@, "WorkerW"@) {
                assert(class_is(units@, system_classes()[2]));
            } else if class_is(units@, "Shell_SecondaryTrayWnd"@) {
                assert(class_is(units@, system_classes()[3]));
            } else if class_is(units@, "DV2ControlHost"@) {
                assert(class_is(units@, system_classes()[4]));
            } else if class_is(units@, "NotifyIconOverflowWindow"@) {
                assert(class_is(units@, system_classes()[5]));
            } else {
                assert(class_is(units@, system_classes()[6]));
            }
        }
    }
    r
}

/// A window is an IDM nag popup to close when it belongs to an IDM process other
/// than our own, has an empty title, and is not one of the shell's windows.
pub open spec fn spec_should_close(
    window_pid: u32,
    self_pid: u32,
    idm_pids: Seq<u32>,
    title_len: i32,
    class: Seq<u16>,
) -> bool {
    &&& window_pid != self_pid
    &&& idm_pids.contains(window_pid)
    &&& title_len == 0
    &&& !is_system_class(class)
}

pub fn should_close_window(
    window_pid: u32,
    self_pid: u32,
    idm_pids: &Vec<u32>,
    title_len: i32,
    class: &Vec<u16>,
) -> (b: bool)
    ensures
        b == spec_should_close(window_pid, self_pid, idm_pids@, title_len, class@),
{
    if window_pid == self_pid {
        return false;
    }
    let mut found = false;
    let mut i: usize = 0;
    while i < idm_pids.len()
        invariant
            0 <= i <= idm_pids.len(),
            found == (exists|k: int| 0 <= k < i && idm_pids@[k] == window_pid),
        decreases idm_pids.len() - i,
    {
        if idm_pids[i] == window_pid {
            found = true;
        }
        i += 1;
    }
    assert(found == idm_pids@.contains(window_pid));
    if !found {
        return false;
    }
    if title_len != 0 {
        return false;
    }
    !system_class(class)
}

/// Seconds to wait before the next sweep: 5 while IDM runs, 15 otherwise.
pub fn poll_interval_secs(idm_running: bool) -> (s: u64)
    ensures
        s == (if idm_running {
            5u64
        } else {
            15u64
        }),
{
    if idm_running {
        5
    } else {
        15
    }
}

} // verus!
