//! How a run is sequenced: the steps of a run without a window, the plan
//! of the six phases in the window, the script that raises the completion
//! notification, and which other running copies of the program are stopped.

use vstd::prelude::*;
use crate::text::{chars_of, lowercase, push_str, string_of, to_lowercase};

verus! {

/// One unit of work of a run.
#[derive(Clone, Copy, PartialEq, Eq, Structural, Debug)]
pub enum Step {
    RunActivator,
    CleanTempFiles,
    NotifyCleanup,
    OptimizeGaming,
    OptimizeAdobe,
    OptimizeSystemAndPrivacy,
    OptimizeStartupAndServices,
}

/// The steps of a run without a window. The activator, the cleanup and its
/// notification, and the Adobe phase always run; each one-time phase runs only
/// when it has not been applied yet.
pub open spec fn spec_headless_steps(
    gaming_done: bool,
    system_privacy_done: bool,
    startup_services_done: bool,
) -> Seq<Step> {
    seq![Step::RunActivator, Step::CleanTempFiles, Step::NotifyCleanup] + (if gaming_done {
        seq![]
    } else {
        seq![Step::OptimizeGaming]
    }) + seq![Step::OptimizeAdobe] + (if system_privacy_done {
        seq![]
    } else {
        seq![Step::OptimizeSystemAndPrivacy]
    }) + (if startup_services_done {
        seq![]
    } else {
        seq![Step::OptimizeStartupAndServices]
    })
}

pub fn headless_steps(gaming_done: bool, system_privacy_done: bool, startup_services_done: bool) -> (r: Vec<Step>)
    ensures
        r@ == spec_headless_steps(gaming_done, system_privacy_done, startup_services_done),
{
    let mut v: Vec<Step> = Vec::new();
    v.push(Step::RunActivator);
    v.push(Step::CleanTempFiles);
    v.push(Step::NotifyCleanup);
    if !gaming_done {
        v.push(Step::OptimizeGaming);
    }
    v.push(Step::OptimizeAdobe);
    if !system_privacy_done {
        v.push(Step::OptimizeSystemAndPrivacy);
    }
    if !startup_services_done {
        v.push(Step::OptimizeStartupAndServices);
    }
    assert(v@ =~= spec_headless_steps(gaming_done, system_privacy_done, startup_services_done));
    v
}

/// The completion flags after a run without a window, when each one-time phase
/// that the run applied has recorded itself as done.
pub open spec fn flags_after_run(gaming_done: bool, system_privacy_done: bool, startup_services_done: bool) -> (
    bool,
    bool,
    bool,
) {
    let steps = spec_headless_steps(gaming_done, system_privacy_done, startup_services_done);
    (
        gaming_done || steps.contains(Step::OptimizeGaming),
        system_privacy_done || steps.contains(Step::OptimizeSystemAndPrivacy),
        startup_services_done || steps.contains(Step::OptimizeStartupAndServices),
    )
}

/// A second run without a window applies no one-time phase: after a run in which
/// each applied phase recorded itself, all three flags are set, and the next run
/// does the activator, the cleanup and its notification and the Adobe phase only.
pub proof fn law_second_run_skips_one_time_phases(
    gaming_done: bool,
    system_privacy_done: bool,
    startup_services_done: bool,
)
    ensures
        flags_after_run(gaming_done, system_privacy_done, startup_services_done) == (
            true,
            true,
            true,
        ),
        spec_headless_steps(true, true, true) == seq![
            Step::RunActivator,
            Step::CleanTempFiles,
            Step::NotifyCleanup,
            Step::OptimizeAdobe,
        ],
{
    let steps = spec_headless_steps(gaming_done, system_privacy_done, startup_services_done);
    let g: int = if gaming_done { 0 } else { 1 };
    let p: int = if system_privacy_done { 0 } else { 1 };
    if !gaming_done {
        assert(steps[3] == Step::OptimizeGaming);
    }
    if !system_privacy_done {
        assert(steps[4 + g] == Step::OptimizeSystemAndPrivacy);
    }
    if !startup_services_done {
        assert(steps[4 + g + p] == Step::OptimizeStartupAndServices);
    }
    assert(spec_headless_steps(true, true, true) =~= seq![
        Step::RunActivator,
        Step::CleanTempFiles,
        Step::NotifyCleanup,
        Step::OptimizeAdobe,
    ]);
}

/// Each one-time phase of a run without a window runs exactly when its own
/// completion flag is not set, whatever the other flags; the activator, the
/// cleanup, its notification and the Adobe phase run every time, in that order,
/// and each step runs at most once.
pub proof fn law_headless_one_time_phases_follow_their_flags(
    gaming_done: bool,
    system_privacy_done: bool,
    startup_services_done: bool,
)
    ensures
        spec_headless_steps(gaming_done, system_privacy_done, startup_services_done).contains(
            Step::OptimizeGaming,
        ) <==> !gaming_done,
        spec_headless_steps(gaming_done, system_privacy_done, startup_services_done).contains(
            Step::OptimizeSystemAndPrivacy,
        ) <==> !system_privacy_done,
        spec_headless_steps(gaming_done, system_privacy_done, startup_services_done).contains(
            Step::OptimizeStartupAndServices,
        ) <==> !startup_services_done,
        spec_headless_steps(gaming_done, system_privacy_done, startup_services_done).take(3)
            == seq![Step::RunActivator, Step::CleanTempFiles, Step::NotifyCleanup],
        spec_headless_steps(gaming_done, system_privacy_done, startup_services_done).contains(
            Step::OptimizeAdobe,
        ),
        spec_headless_steps(gaming_done, system_privacy_done, startup_services_done).len() == 4
            + (if gaming_done { 0int } else { 1int }) + (if system_privacy_done { 0int } else { 1int })
            + (if startup_services_done { 0int } else { 1int }),
        spec_headless_steps(gaming_done, system_privacy_done, startup_services_done).no_duplicates(),
{
    let steps = spec_headless_steps(gaming_done, system_privacy_done, startup_services_done);
    let g: int = if gaming_done { 0 } else { 1 };
    let p: int = if system_privacy_done { 0 } else { 1 };
    let q: int = if startup_services_done { 0 } else { 1 };
    assert(steps.len() == 4 + g + p + q);
    assert(steps[0] == Step::RunActivator);
    assert(steps[1] == Step::CleanTempFiles);
    assert(steps[2] == Step::NotifyCleanup);
    assert(steps[3 + g] == Step::OptimizeAdobe);
    if !gaming_done {
        assert(steps[3] == Step::OptimizeGaming);
    }
    if !system_privacy_done {
        assert(steps[4 + g] == Step::OptimizeSystemAndPrivacy);
    }
    if !startup_services_done {
        assert(steps[4 + g + p] == Step::OptimizeStartupAndServices);
    }
    assert forall|i: int| 0 <= i < steps.len() implies (#[trigger] steps[i] == Step::OptimizeGaming
        ==> !gaming_done && i == 3) && (steps[i] == Step::OptimizeSystemAndPrivacy
        ==> !system_privacy_done && i == 4 + g) && (steps[i] == Step::OptimizeStartupAndServices
        ==> !startup_services_done && i == 4 + g + p) && (steps[i] == Step::OptimizeAdobe ==> i == 3
        + g) && (steps[i] == Step::RunActivator ==> i == 0) && (steps[i] == Step::CleanTempFiles
        ==> i == 1) && (steps[i] == Step::NotifyCleanup ==> i == 2) by {
        if i < 3 {
        } else if !gaming_done && i == 3 {
        } else if i == 3 + g {
        } else if !system_privacy_done && i == 4 + g {
        } else {
            assert(!startup_services_done && i == 4 + g + p);
        }
    }
    assert(steps.take(3) =~= seq![Step::RunActivator, Step::CleanTempFiles, Step::NotifyCleanup]);
    assert forall|i: int, j: int| 0 <= i < steps.len() && 0 <= j < steps.len() && i != j implies #[trigger] steps[i]
        != #[trigger] steps[j] by {
        match steps[i] {
            Step::RunActivator => {},
            Step::CleanTempFiles => {},
            Step::NotifyCleanup => {},
            Step::OptimizeGaming => {},
            Step::OptimizeAdobe => {},
            Step::OptimizeSystemAndPrivacy => {},
            Step::OptimizeStartupAndServices => {},
        }
    }
}

/// What the window does with one phase: run a step, or mark it skipped with a reason.
#[derive(Clone, Copy, PartialEq, Eq, Structural, Debug)]
pub enum PhasePlan {
    Run(Step),
    Skip(SkipReason),
}

#[derive(Clone, Copy, PartialEq, Eq, Structural, Debug)]
pub enum SkipReason {
    NotInstalled,
    AlreadyApplied,
}

pub open spec fn spec_skip_reason_text(r: SkipReason) -> Seq<char> {
    match r {
        SkipReason::NotInstalled => "IDM not installed — skipped"@,
        SkipReason::AlreadyApplied => "already applied — skipped"@,
    }
}

/// The detail shown under a skipped phase.
pub fn skip_reason_text(r: SkipReason) -> (s: &'static str)
    ensures
        s@ == spec_skip_reason_text(r),
{
    match r {
        SkipReason::NotInstalled => "IDM not installed — skipped",
        SkipReason::AlreadyApplied => "already applied — skipped",
    }
}

pub open spec fn run_unless(done: bool, step: Step) -> PhasePlan {
    if done {
        PhasePlan::Skip(SkipReason::AlreadyApplied)
    } else {
        PhasePlan::Run(step)
    }
}

/// The plan of the window's six phases, in order: the activator (skipped when IDM
/// is not installed), the cleanup, the gaming phase, the Adobe phase, the
/// system-and-privacy phase and the startup-and-services phase, each one-time phase
/// skipped when it has been applied already.
pub open spec fn spec_window_plan(
    idm_installed: bool,
    gaming_done: bool,
    system_privacy_done: bool,
    startup_services_done: bool,
) -> Seq<PhasePlan> {
    seq![
        if idm_installed {
            PhasePlan::Run(Step::RunActivator)
        } else {
            PhasePlan::Skip(SkipReason::NotInstalled)
        },
        PhasePlan::Run(Step::CleanTempFiles),
        run_unless(gaming_done, Step::OptimizeGaming),
        PhasePlan::Run(Step::OptimizeAdobe),
        run_unless(system_privacy_done, Step::OptimizeSystemAndPrivacy),
        run_unless(startup_services_done, Step::OptimizeStartupAndServices),
    ]
}

fn plan_unless(done: bool, step: Step) -> (p: PhasePlan)
    ensures
        p == run_unless(done, step),
{
    if done {
        PhasePlan::Skip(SkipReason::AlreadyApplied)
    } else {
        PhasePlan::Run(step)
    }
}

pub fn window_plan(
    idm_installed: bool,
    gaming_done: bool,
    system_privacy_done: bool,
    startup_services_done: bool,
) -> (r: Vec<PhasePlan>)
    ensures
        r@ == spec_window_plan(idm_installed, gaming_done, system_privacy_done, startup_services_done),
{
    let mut v: Vec<PhasePlan> = Vec::new();
    if idm_installed {
        v.push(PhasePlan::Run(Step::RunActivator));
    } else {
        v.push(PhasePlan::Skip(SkipReason::NotInstalled));
    }
    v.push(PhasePlan::Run(Step::CleanTempFiles));
    v.push(plan_unless(gaming_done, Step::OptimizeGaming));
    v.push(PhasePlan::Run(Step::OptimizeAdobe));
    v.push(plan_unless(system_privacy_done, Step::OptimizeSystemAndPrivacy));
    v.push(plan_unless(startup_services_done, Step::OptimizeStartupAndServices));
    assert(v@ =~= spec_window_plan(idm_installed, gaming_done, system_privacy_done, startup_services_done));
    v
}

// ───────────────────────── notification ─────────────────────────

/// The window's phases, whatever the flags: six of them, in a fixed order. The
/// activator runs exactly when IDM is installed (else it is skipped as not
/// installed); the cleanup and the Adobe phase always run; each one-time phase is
/// skipped as already applied exactly when its own completion flag is set, and
/// otherwise runs its own step.
pub proof fn law_window_phases_follow_their_flags(
    idm_installed: bool,
    gaming_done: bool,
    system_privacy_done: bool,
    startup_services_done: bool,
)
    ensures
        ({
            let plan = spec_window_plan(
                idm_installed,
                gaming_done,
                system_privacy_done,
                startup_services_done,
            );
            &&& plan.len() == 6
            &&& (plan[0] == PhasePlan::Run(Step::RunActivator)) == idm_installed
            &&& !idm_installed ==> plan[0] == PhasePlan::Skip(SkipReason::NotInstalled)
            &&& plan[1] == PhasePlan::Run(Step::CleanTempFiles)
            &&& plan[3] == PhasePlan::Run(Step::OptimizeAdobe)
            &&& (plan[2] == PhasePlan::Skip(SkipReason::AlreadyApplied)) == gaming_done
            &&& !gaming_done ==> plan[2] == PhasePlan::Run(Step::OptimizeGaming)
            &&& (plan[4] == PhasePlan::Skip(SkipReason::AlreadyApplied)) == system_privacy_done
            &&& !system_privacy_done ==> plan[4] == PhasePlan::Run(Step::OptimizeSystemAndPrivacy)
            &&& (plan[5] == PhasePlan::Skip(SkipReason::AlreadyApplied)) == startup_services_done
            &&& !startup_services_done ==> plan[5] == PhasePlan::Run(
                Step::OptimizeStartupAndServices,
            )
        }),
{
}

/// `s` with each double quote turned into a single quote.
pub open spec fn quotes_to_apostrophes(s: Seq<char>) -> Seq<char> {
    s.map_values(|c: char| if c == '"' { '\'' } else { c })
}

fn push_without_quotes(out: &mut Vec<char>, s: &str)
    ensures
        final(out)@ == old(out)@ + quotes_to_apostrophes(s@),
{
    let v = chars_of(s);
    let mut i: usize = 0;
    while i < v.len()
        invariant
            0 <= i <= v.len(),
            v@ == s@,
            out@ == old(out)@ + quotes_to_apostrophes(v@.take(i as int)),
        decreases v.len() - i,
    {
        let c = v[i];
        if c == '"' {
            out.push('\'');
        } else {
            out.push(c);
        }
        assert(quotes_to_apostrophes(v@.take(i + 1)) =~= quotes_to_apostrophes(v@.take(i as int)).push(
            if c == '"' { '\'' } else { c },
        ));
        i += 1;
    }
    assert(v@.take(v.len() as int) =~= v@);
}

pub open spec fn toast_head() -> Seq<char> {
    "\n[Windows.UI.Notifications.ToastNotificationManager, Windows.UI.Notifications, ContentType = WindowsRuntime] > $null\n[Windows.Data.Xml.Dom.XmlDocument, Windows.Data.Xml.Dom.XmlDocument, ContentType = WindowsRuntime] > $null\n\n$template = @\"\n<toast>\n  <visual>\n    <binding template=\"ToastGeneric\">\n      <text>"@
}

pub open spec fn toast_middle() -> Seq<char> {
    "</text>\n      <text>"@
}

pub open spec fn toast_tail() -> Seq<char> {
    "</text>\n    </binding>\n  </visual>\n</toast>\n\"@\n\n$xml = New-Object Windows.Data.Xml.Dom.XmlDocument\n$xml.LoadXml($template)\n$toast = [Windows.UI.Notifications.ToastNotification]::new($xml)\n[Windows.UI.Notifications.ToastNotificationManager]::CreateToastNotifier(\"ZeroIdle\").Show($toast)\n"@
}

/// The PowerShell script that shows a toast titled `title` with text `body`
/// (double quotes in either become single quotes).
pub open spec fn spec_toast_script(title: Seq<char>, body: Seq<char>) -> Seq<char> {
    toast_head() + quotes_to_apostrophes(title) + toast_middle() + quotes_to_apostrophes(body)
        + toast_tail()
}

pub fn toast_script(title: &str, body: &str) -> (s: String)
    ensures
        s@ == spec_toast_script(title@, body@),
{
    let mut out: Vec<char> = Vec::new();
    push_str(&mut out, "\n[Windows.UI.Notifications.ToastNotificationManager, Windows.UI.Notifications, ContentType = WindowsRuntime] > $null\n[Windows.Data.Xml.Dom.XmlDocument, Windows.Data.Xml.Dom.XmlDocument, ContentType = WindowsRuntime] > $null\n\n$template = @\"\n<toast>\n  <visual>\n    <binding template=\"ToastGeneric\">\n      <text>");
    push_without_quotes(&mut out, title);
    push_str(&mut out, "</text>\n      <text>");
    push_without_quotes(&mut out, body);
    push_str(&mut out, "</text>\n    </binding>\n  </visual>\n</toast>\n\"@\n\n$xml = New-Object Windows.Data.Xml.Dom.XmlDocument\n$xml.LoadXml($template)\n$toast = [Windows.UI.Notifications.ToastNotification]::new($xml)\n[Windows.UI.Notifications.ToastNotificationManager]::CreateToastNotifier(\"ZeroIdle\").Show($toast)\n");
    assert(out@ =~= spec_toast_script(title@, body@));
    string_of(&out)
}

// ───────────────────────── single instance ─────────────────────────

/// The other processes to stop: those whose executable name equals ours,
/// compared in lower case, other than our own process. Without a name of our
/// own, none.
pub open spec fn spec_instances_to_stop(
    self_pid: u32,
    self_name: Option<Seq<char>>,
    processes: Seq<(u32, Seq<char>)>,
) -> Seq<u32>
    decreases processes.len(),
{
    if processes.len() == 0 {
        seq![]
    } else {
        let rest = spec_instances_to_stop(self_pid, self_name, processes.drop_last());
        let (pid, name) = processes.last();
        match self_name {
            Some(me) => if pid != self_pid && lowercase(name) == lowercase(me) {
                rest.push(pid)
            } else {
                rest
            },
            None => rest,
        }
    }
}

pub open spec fn process_views(p: Seq<(u32, String)>) -> Seq<(u32, Seq<char>)> {
    p.map_values(|e: (u32, String)| (e.0, e.1@))
}

/// Process ids of the running copies of this program to stop (see `spec_instances_to_stop`).
pub fn instances_to_stop(self_pid: u32, self_name: &Option<String>, processes: &Vec<(u32, String)>) -> (r: Vec<u32>)
    ensures
        r@ == spec_instances_to_stop(
            self_pid,
            match self_name {
                Some(n) => Some(n@),
                None => None,
            },
            process_views(processes@),
        ),
{
    let ghost me = match self_name {
        Some(n) => Some(n@),
        None => None,
    };
    let mut out: Vec<u32> = Vec::new();
    let mine = match self_name {
        Some(n) => to_lowercase(n.as_str()),
        None => {
            assert(forall|k: int| 0 <= k <= processes@.len() ==> #[trigger] spec_instances_to_stop(self_pid, me, process_views(processes@.take(k))) == Seq::<u32>::empty()) by {
                assert forall|k: int| 0 <= k <= processes@.len() implies #[trigger] spec_instances_to_stop(self_pid, me, process_views(processes@.take(k))) == Seq::<u32>::empty() by {
                    lemma_no_name_stops_none(self_pid, process_views(processes@.take(k)));
                }
            }
            assert(processes@.take(processes@.len() as int) =~= processes@);
            return out;
        },
    };
    let mut i: usize = 0;
    while i < processes.len()
        invariant
            0 <= i <= processes.len(),
            me == (match self_name {
                Some(n) => Some(n@),
                None => None,
            }),
            me matches Some(m) && mine@ == lowercase(m),
            out@ == spec_instances_to_stop(self_pid, me, process_views(processes@.take(i as int))),
        decreases processes.len() - i,
    {
        let (pid, ref name) = processes[i];
        let lower = to_lowercase(name.as_str());
        assert(process_views(processes@.take(i + 1)).drop_last() =~= process_views(processes@.take(i as int)));
        if pid != self_pid && lower == mine {
            out.push(pid);
        }
        i += 1;
    }
    assert(processes@.take(processes.len() as int) =~= processes@);
    out
}

proof fn lemma_no_name_stops_none(self_pid: u32, p: Seq<(u32, Seq<char>)>)
    ensures
        spec_instances_to_stop(self_pid, None, p) == Seq::<u32>::empty(),
    decreases p.len(),
{
    if p.len() > 0 {
        lemma_no_name_stops_none(self_pid, p.drop_last());
    }
}

} // verus!
