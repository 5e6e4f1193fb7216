//! Supervision of process-like services: the table of running processes and
//! the state changes that starting, stopping, output and exits cause. The
//! processes themselves are spawned and watched by the caller.
use vstd::prelude::*;

use crate::config::{keeps_stdin, service_keeps_stdin, ServiceConfig, StatusOptions};
use crate::service::{bare_state, with_lifecycle, RuntimeServiceState, ServiceLifecycle, set_lifecycle};
use crate::table::Table;
use crate::text::{concat, concat3, contains, contains_seq, decimal, occurs_at, push_decimal};

verus! {

/// What to spawn for a service.
#[derive(Debug, Clone, PartialEq)]
pub struct LaunchPlan {
    pub program: String,
    pub args: Vec<String>,
    pub env: Vec<(String, String)>,
    pub cwd: Option<String>,
    pub keep_stdin: bool,
    pub log_path: String,
}

/// Why a process cannot be started, stopped or written to.
#[derive(Debug, Clone, PartialEq)]
pub enum ProcessError {
    AlreadyRunning { id: String },
    CommandMissing,
    NotRunning { id: String },
    StdinNotRetained { id: String },
}

/// How to stop a running process: its pid, and whether its whole tree goes.
#[derive(Debug, Clone, Copy, PartialEq, Eq, Structural)]
pub struct StopPlan {
    pub pid: u32,
    pub kill_tree: bool,
}

pub(crate) fn clone_strings(v: &Vec<String>) -> (r: Vec<String>)
    ensures
        r@ == v@,
{
    let mut r: Vec<String> = Vec::new();
    let mut i: usize = 0;
    while i < v.len()
        invariant
            i <= v.len(),
            r@ == v@.take(i as int),
        decreases v.len() - i,
    {
        r.push(v[i].clone());
        i = i + 1;
        assert(r@ =~= v@.take(i as int));
    }
    assert(v@.take(v.len() as int) =~= v@);
    r
}

fn clone_env(v: &Vec<(String, String)>) -> (r: Vec<(String, String)>)
    ensures
        r@ == v@,
{
    let mut r: Vec<(String, String)> = Vec::new();
    let mut i: usize = 0;
    while i < v.len()
        invariant
            i <= v.len(),
            r@ == v@.take(i as int),
        decreases v.len() - i,
    {
        r.push((v[i].0.clone(), v[i].1.clone()));
        i = i + 1;
        assert(r@ =~= v@.take(i as int));
    }
    assert(v@.take(v.len() as int) =~= v@);
    r
}

/// Checks that `service` may start and marks it starting; then picks what to
/// run: `command_override` if given, else the service's command.
///
/// A service that is already running is refused and its state kept. A
/// service without a command is left starting, as before it was refused.
pub fn begin_start(
    processes: &Table<u32>,
    states: &mut Table<RuntimeServiceState>,
    service: &ServiceConfig,
    log_path: &str,
    command_override: Option<(&str, &Vec<String>)>,
) -> (r: Result<LaunchPlan, ProcessError>)
    requires
        processes.wf(),
        old(states).wf(),
    ensures
        final(states).wf(),
        processes@.contains_key(service.id@) ==> r == Err::<LaunchPlan, ProcessError>(
            ProcessError::AlreadyRunning { id: service.id },
        ) && final(states)@ == old(states)@,
        !processes@.contains_key(service.id@) ==> final(states)@ == old(states)@.insert(
            service.id@,
            bare_state(ServiceLifecycle::Starting),
        ),
        !processes@.contains_key(service.id@) ==> match command_override {
            Some((program, args)) => r matches Ok(p) && p.program@ == program@ && p.args@
                == args@,
            None => match service.command {
                Some(c) => r matches Ok(p) && p.program == c && p.args@ == service.args@,
                None => r == Err::<LaunchPlan, ProcessError>(ProcessError::CommandMissing),
            },
        },
        r matches Ok(p) ==> p.env@ == service.env@ && p.cwd == service.cwd && p.keep_stdin
            == keeps_stdin(*service) && p.log_path@ == log_path@,
{
    if processes.contains_key(service.id.as_str()) {
        return Err(ProcessError::AlreadyRunning { id: service.id.clone() });
    }
    states.insert(service.id.clone(), RuntimeServiceState::new(ServiceLifecycle::Starting));
    let (program, args) = match command_override {
        Some((program, args)) => (String::from_str(program), clone_strings(args)),
        None => match &service.command {
            Some(c) => (c.clone(), clone_strings(&service.args)),
            None => {
                return Err(ProcessError::CommandMissing);
            },
        },
    };
    let cwd = match &service.cwd {
        Some(c) => Some(c.clone()),
        None => None,
    };
    Ok(
        LaunchPlan {
            program,
            args,
            env: clone_env(&service.env),
            cwd,
            keep_stdin: service_keeps_stdin(service),
            log_path: String::from_str(log_path),
        },
    )
}

/// The state of a service whose process could not be started or stopped.
pub open spec fn failed_with(message: String) -> RuntimeServiceState {
    RuntimeServiceState {
        lifecycle: ServiceLifecycle::Failed,
        detail: None,
        pid: None,
        last_error: Some(message),
    }
}

/// Marks `id` failed with `message`.
pub fn set_failed(states: &mut Table<RuntimeServiceState>, id: &str, message: String)
    requires
        old(states).wf(),
    ensures
        final(states).wf(),
        final(states)@ == old(states)@.insert(id@, failed_with(message)),
{
    states.insert(
        String::from_str(id),
        RuntimeServiceState {
            lifecycle: ServiceLifecycle::Failed,
            detail: None,
            pid: None,
            last_error: Some(message),
        },
    );
}

/// The state of a service whose process `pid` runs.
pub open spec fn running_state(pid: u32) -> RuntimeServiceState {
    RuntimeServiceState {
        lifecycle: ServiceLifecycle::Running,
        detail: None,
        pid: Some(pid),
        last_error: None,
    }
}

/// The arguments of `taskkill` that end process `pid` and all its children by force.
pub fn kill_tree_args(pid: u32) -> (r: Vec<String>)
    ensures
        r@.map_values(|a: String| a@) == seq!["/PID"@, decimal(pid as nat), "/T"@, "/F"@],
{
    let mut p = String::new();
    push_decimal(&mut p, pid as u64);
    let mut r: Vec<String> = Vec::new();
    r.push(String::from_str("/PID"));
    r.push(p);
    r.push(String::from_str("/T"));
    r.push(String::from_str("/F"));
    assert(r@.map_values(|a: String| a@) =~= seq!["/PID"@, decimal(pid as nat), "/T"@, "/F"@]);
    r
}

/// Records that the process of `id` was spawned as `pid`.
pub fn start_succeeded(
    processes: &mut Table<u32>,
    states: &mut Table<RuntimeServiceState>,
    id: &str,
    pid: u32,
)
    requires
        old(processes).wf(),
        old(states).wf(),
    ensures
        final(processes).wf(),
        final(states).wf(),
        final(processes)@ == old(processes)@.insert(id@, pid),
        final(states)@ == old(states)@.insert(id@, running_state(pid)),
{
    processes.insert(String::from_str(id), pid);
    states.insert(
        String::from_str(id),
        RuntimeServiceState {
            lifecycle: ServiceLifecycle::Running,
            detail: None,
            pid: Some(pid),
            last_error: None,
        },
    );
}

/// Checks that `service` runs and marks it stopping.
pub fn begin_stop(
    processes: &Table<u32>,
    states: &mut Table<RuntimeServiceState>,
    service: &ServiceConfig,
) -> (r: Result<StopPlan, ProcessError>)
    requires
        processes.wf(),
        old(states).wf(),
    ensures
        final(states).wf(),
        !processes@.contains_key(service.id@) ==> r == Err::<StopPlan, ProcessError>(
            ProcessError::NotRunning { id: service.id },
        ) && final(states)@ == old(states)@,
        processes@.contains_key(service.id@) ==> r == Ok::<StopPlan, ProcessError>(
            StopPlan { pid: processes@[service.id@], kill_tree: service.process.kill_tree },
        ) && final(states)@ == old(states)@.insert(
            service.id@,
            with_lifecycle(old(states)@.get(service.id@), ServiceLifecycle::Stopping),
        ),
{
    match processes.get(service.id.as_str()) {
        None => Err(ProcessError::NotRunning { id: service.id.clone() }),
        Some(pid) => {
            let pid = *pid;
            set_lifecycle(states, service.id.as_str(), ServiceLifecycle::Stopping);
            Ok(StopPlan { pid, kill_tree: service.process.kill_tree })
        },
    }
}

/// The lifecycle a service ends in when its process exits: stopped after a
/// clean exit or a requested stop or restart, failed otherwise.
pub open spec fn exit_lifecycle(success: bool, current: Option<ServiceLifecycle>) -> ServiceLifecycle {
    if success || current == Some(ServiceLifecycle::Stopping) || current == Some(
        ServiceLifecycle::Restarting,
    ) {
        ServiceLifecycle::Stopped
    } else {
        ServiceLifecycle::Failed
    }
}

/// Records that process `pid` of `id` exited, with `status_text` describing
/// its exit status. Only the process that is currently recorded for `id`
/// counts: an exit of an older one changes nothing.
pub fn process_exited(
    processes: &mut Table<u32>,
    states: &mut Table<RuntimeServiceState>,
    id: &str,
    pid: u32,
    success: bool,
    status_text: &str,
)
    requires
        old(processes).wf(),
        old(states).wf(),
    ensures
        final(processes).wf(),
        final(states).wf(),
        !(old(processes)@.contains_key(id@) && old(processes)@[id@] == pid) ==> final(processes)@
            == old(processes)@ && final(states)@ == old(states)@,
        old(processes)@.contains_key(id@) && old(processes)@[id@] == pid ==> {
            &&& final(processes)@ == old(processes)@.remove(id@)
            &&& final(states)@.dom() == old(states)@.dom().insert(id@)
            &&& forall|k: Seq<char>|
                k != id@ && #[trigger] old(states)@.contains_key(k) ==> final(states)@[k] == old(
                    states,
                )@[k]
            &&& final(states)@[id@].lifecycle == exit_lifecycle(
                success,
                match old(states)@.get(id@) {
                    Some(s) => Some(s.lifecycle),
                    None => None,
                },
            )
            &&& final(states)@[id@].detail is None
            &&& final(states)@[id@].pid is None
            &&& success ==> final(states)@[id@].last_error is None
            &&& !success ==> (final(states)@[id@].last_error matches Some(m) && m@
                == "process exited with "@ + status_text@)
        },
{
    let current_pid = match processes.get(id) {
        Some(p) => *p,
        None => {
            return;
        },
    };
    if current_pid != pid {
        return;
    }
    processes.remove(id);
    let current = match states.get(id) {
        Some(s) => Some(s.lifecycle),
        None => None,
    };
    let lifecycle = if success || current == Some(ServiceLifecycle::Stopping) || current == Some(
        ServiceLifecycle::Restarting,
    ) {
        ServiceLifecycle::Stopped
    } else {
        ServiceLifecycle::Failed
    };
    let last_error = if success {
        None
    } else {
        Some(concat("process exited with ", status_text))
    };
    states.insert(
        String::from_str(id),
        RuntimeServiceState { lifecycle, detail: None, pid: None, last_error },
    );
}

/// A process that exits while its service is being stopped or restarted
/// leaves the service stopped, never failed, whatever its exit status.
pub proof fn law_requested_stop_is_not_failure(success: bool, current: ServiceLifecycle)
    requires
        current == ServiceLifecycle::Stopping || current == ServiceLifecycle::Restarting,
    ensures
        exit_lifecycle(success, Some(current)) == ServiceLifecycle::Stopped,
{
}

/// Records that waiting for process `pid` of `id` failed with `error_text`.
pub fn wait_failed(states: &mut Table<RuntimeServiceState>, id: &str, pid: u32, error_text: &str)
    requires
        old(states).wf(),
    ensures
        final(states).wf(),
        final(states)@.dom() == old(states)@.dom().insert(id@),
        forall|k: Seq<char>|
            k != id@ && #[trigger] old(states)@.contains_key(k) ==> final(states)@[k] == old(
                states,
            )@[k],
        final(states)@[id@].lifecycle == ServiceLifecycle::Failed,
        final(states)@[id@].detail is None,
        final(states)@[id@].pid == Some(pid),
        final(states)@[id@].last_error matches Some(m) && m@ == "failed to wait for process: "@
            + error_text@,
{
    states.insert(
        String::from_str(id),
        RuntimeServiceState {
            lifecycle: ServiceLifecycle::Failed,
            detail: None,
            pid: Some(pid),
            last_error: Some(concat("failed to wait for process: ", error_text)),
        },
    );
}

// ---------------------------------------------------------------------------
// Detail status from output
// ---------------------------------------------------------------------------

/// Some substring in `patterns` occurs in `line`.
pub open spec fn any_occurs(patterns: Seq<String>, line: Seq<char>) -> bool {
    exists|j: int| 0 <= j < patterns.len() && contains_seq(line, (#[trigger] patterns[j])@)
}

/// Entry `k` is the first of `patterns` with a substring that occurs in `line`.
pub open spec fn first_match(patterns: Seq<(String, Vec<String>)>, line: Seq<char>, k: int) -> bool {
    &&& 0 <= k < patterns.len()
    &&& any_occurs(patterns[k].1@, line)
    &&& forall|j: int| 0 <= j < k ==> !any_occurs((#[trigger] patterns[j]).1@, line)
}

/// The detail that `line` selects among `status`'s patterns, if any.
pub open spec fn matched_detail(status: Option<StatusOptions>, line: Seq<char>) -> Option<String> {
    match status {
        None => None,
        Some(s) => if exists|k: int| first_match(s.patterns@, line, k) {
            Some(s.patterns@[choose|k: int| first_match(s.patterns@, line, k)].0)
        } else {
            None
        },
    }
}

proof fn lemma_some_first_match(patterns: Seq<(String, Vec<String>)>, line: Seq<char>, k: int)
    requires
        0 <= k < patterns.len(),
        any_occurs(patterns[k].1@, line),
    ensures
        exists|c: int| first_match(patterns, line, c),
    decreases k,
{
    if exists|j: int| 0 <= j < k && any_occurs((#[trigger] patterns[j]).1@, line) {
        let j = choose|j: int| 0 <= j < k && any_occurs((#[trigger] patterns[j]).1@, line);
        lemma_some_first_match(patterns, line, j);
    } else {
        assert(first_match(patterns, line, k));
    }
}

/// A line selects a detail as soon as one configured pattern occurs anywhere
/// in it, at its start or not; and the detail a line selects is always that
/// of an entry with a pattern occurring in the line.
pub proof fn law_pattern_anywhere_in_line(
    status: StatusOptions,
    line: Seq<char>,
    k: int,
    q: int,
    i: int,
)
    ensures
        0 <= k < status.patterns@.len() && 0 <= q < status.patterns@[k].1@.len() && 0 <= i && i
            + status.patterns@[k].1@[q]@.len() <= line.len() && line.subrange(
            i,
            i + status.patterns@[k].1@[q]@.len(),
        ) == status.patterns@[k].1@[q]@ ==> matched_detail(Some(status), line) is Some,
        matched_detail(Some(status), line) matches Some(d) ==> exists|e: int, p: int, at: int|
            0 <= e < status.patterns@.len() && 0 <= p < status.patterns@[e].1@.len() && 0 <= at
                && at + status.patterns@[e].1@[p]@.len() <= line.len() && d
                == status.patterns@[e].0 && #[trigger] line.subrange(
                at,
                at + status.patterns@[e].1@[p]@.len(),
            ) == status.patterns@[e].1@[p]@,
{
    let patterns = status.patterns@;
    if 0 <= k < patterns.len() && 0 <= q < patterns[k].1@.len() && 0 <= i && i
        + patterns[k].1@[q]@.len() <= line.len() && line.subrange(
        i,
        i + patterns[k].1@[q]@.len(),
    ) == patterns[k].1@[q]@ {
        assert(occurs_at(line, patterns[k].1@[q]@, i));
        assert(contains_seq(line, patterns[k].1@[q]@));
        assert(any_occurs(patterns[k].1@, line));
        lemma_some_first_match(patterns, line, k);
    }
    if matched_detail(Some(status), line) is Some {
        let e = choose|c: int| first_match(patterns, line, c);
        assert(any_occurs(patterns[e].1@, line));
        let p = choose|j: int|
            0 <= j < patterns[e].1@.len() && contains_seq(line, (#[trigger] patterns[e].1@[j])@);
        let at = choose|x: int| occurs_at(line, patterns[e].1@[p]@, x);
        assert(line.subrange(at, at + patterns[e].1@[p]@.len()) == patterns[e].1@[p]@);
    }
}

/// Whether `state` already has detail `d`.
pub open spec fn has_detail(state: RuntimeServiceState, d: String) -> bool {
    state.detail matches Some(x) && x@ == d@
}

/// One output line's effect on the states: `changed` tells whether `after`
/// differs from `before`. Only the detail of `id` can change, to the detail
/// that the line selects, and only if `id` has a state with another detail.
pub open spec fn detail_step(
    before: Map<Seq<char>, RuntimeServiceState>,
    after: Map<Seq<char>, RuntimeServiceState>,
    id: Seq<char>,
    status: Option<StatusOptions>,
    line: Seq<char>,
    changed: bool,
) -> bool {
    match (matched_detail(status, line), before.get(id)) {
        (Some(d), Some(s)) => if has_detail(s, d) {
            !changed && after == before
        } else {
            &&& changed
            &&& after.dom() == before.dom()
            &&& forall|k: Seq<char>|
                k != id && #[trigger] before.contains_key(k) ==> after[k] == before[k]
            &&& after[id].lifecycle == s.lifecycle
            &&& after[id].pid == s.pid
            &&& after[id].last_error == s.last_error
            &&& has_detail(after[id], d)
        },
        _ => !changed && after == before,
    }
}

/// A line that set a detail sets nothing more when it comes again: the
/// second time, the states stay as they are and no change is reported.
pub proof fn law_detail_settles(
    before: Map<Seq<char>, RuntimeServiceState>,
    middle: Map<Seq<char>, RuntimeServiceState>,
    after: Map<Seq<char>, RuntimeServiceState>,
    id: Seq<char>,
    status: Option<StatusOptions>,
    line: Seq<char>,
    first: bool,
    second: bool,
)
    requires
        detail_step(before, middle, id, status, line, first),
        detail_step(middle, after, id, status, line, second),
    ensures
        !second,
        after == middle,
{
}

/// Output of a service without status patterns changes nothing.
pub proof fn law_no_patterns_no_change(
    before: Map<Seq<char>, RuntimeServiceState>,
    after: Map<Seq<char>, RuntimeServiceState>,
    id: Seq<char>,
    line: Seq<char>,
    changed: bool,
)
    requires
        detail_step(before, after, id, None, line, changed),
    ensures
        !changed,
        after == before,
{
}

proof fn lemma_first_match_unique(patterns: Seq<(String, Vec<String>)>, line: Seq<char>, a: int, b: int)
    requires
        first_match(patterns, line, a),
        first_match(patterns, line, b),
    ensures
        a == b,
{
    if a < b {
        assert(!any_occurs(patterns[a].1@, line));
    } else if b < a {
        assert(!any_occurs(patterns[b].1@, line));
    }
}

fn any_pattern_occurs(patterns: &Vec<String>, line: &str) -> (r: bool)
    ensures
        r == any_occurs(patterns@, line@),
{
    let mut j: usize = 0;
    while j < patterns.len()
        invariant
            j <= patterns.len(),
            forall|q: int| 0 <= q < j ==> !contains_seq(line@, (#[trigger] patterns@[q])@),
        decreases patterns.len() - j,
    {
        if contains(line, patterns[j].as_str()) {
            return true;
        }
        j = j + 1;
    }
    false
}

/// Sets the detail status of `id` from an output `line`: the detail of the
/// first pattern entry with a substring in `line`. Returns whether the state
/// changed; it does not when nothing matches, when `id` has no state, or
/// when the state already has that detail.
pub fn match_status_pattern(
    states: &mut Table<RuntimeServiceState>,
    id: &str,
    status: Option<&StatusOptions>,
    line: &str,
) -> (r: bool)
    requires
        old(states).wf(),
    ensures
        final(states).wf(),
        detail_step(
            old(states)@,
            final(states)@,
            id@,
            match status {
                Some(s) => Some(*s),
                None => None,
            },
            line@,
            r,
        ),
{
    let opts = match status {
        Some(s) => s,
        None => {
            return false;
        },
    };
    let patterns = &opts.patterns;
    let mut k: usize = 0;
    while k < patterns.len()
        invariant
            states.wf(),
            states@ == old(states)@,
            status == Some(opts),
            patterns == &opts.patterns,
            k <= patterns.len(),
            forall|j: int| 0 <= j < k ==> !any_occurs((#[trigger] patterns@[j]).1@, line@),
        decreases patterns.len() - k,
    {
        if any_pattern_occurs(&patterns[k].1, line) {
            assert(first_match(patterns@, line@, k as int));
            proof {
                let c = choose|c: int| first_match(patterns@, line@, c);
                lemma_first_match_unique(patterns@, line@, c, k as int);
            }
            let detail = &patterns[k].0;
            assert(matched_detail(Some(*opts), line@) == Some(patterns@[k as int].0));
            match states.get(id) {
                None => {
                    return false;
                },
                Some(state) => {
                    let same = match &state.detail {
                        Some(x) => crate::text::text_eq(x.as_str(), detail.as_str()),
                        None => false,
                    };
                    if same {
                        return false;
                    }
                    let mut next = state.duplicate();
                    next.detail = Some(detail.clone());
                    states.insert(String::from_str(id), next);
                    assert(states@.dom() =~= old(states)@.dom());
                    return true;
                },
            }
        }
        k = k + 1;
    }
    assert(!exists|c: int| first_match(patterns@, line@, c));
    false
}

/// The services to stop when everything stops: the configured services whose
/// process runs, in the order the processes are recorded.
pub fn running_services(processes: &Table<u32>, services: &Vec<ServiceConfig>) -> (r: Vec<usize>)
    requires
        processes.wf(),
    ensures
        forall|i: int|
            0 <= i < r@.len() ==> (#[trigger] r@[i]) < services@.len() && processes@.contains_key(
                services@[r@[i] as int].id@,
            ),
        forall|k: Seq<char>|
            processes@.contains_key(k) && crate::service::configured(services@, k) ==> exists|i: int|
                0 <= i < r@.len() && services@[(#[trigger] r@[i]) as int].id@ == k,
        r@.no_duplicates(),
{
    let ids = processes.keys();
    proof {
        processes.lemma_keys();
    }
    let mut r: Vec<usize> = Vec::new();
    let mut i: usize = 0;
    while i < ids.len()
        invariant
            processes.wf(),
            ids@.len() == processes.key_order().len(),
            forall|q: int| 0 <= q < ids@.len() ==> (#[trigger] ids@[q])@ == processes.key_order()[q],
            forall|k: Seq<char>| processes@.contains_key(k) <==> processes.key_order().contains(k),
            i <= ids@.len(),
            forall|q: int|
                0 <= q < r@.len() ==> (#[trigger] r@[q]) < services@.len()
                    && processes@.contains_key(services@[r@[q] as int].id@),
            forall|q: int|
                0 <= q < i && crate::service::configured(services@, ids@[q]@) ==> exists|p: int|
                    0 <= p < r@.len() && services@[(#[trigger] r@[p]) as int].id@ == ids@[q]@,
            processes.key_order().no_duplicates(),
            r@.no_duplicates(),
            forall|p: int|
                0 <= p < r@.len() ==> exists|q: int|
                    0 <= q < i && services@[(#[trigger] r@[p]) as int].id@ == ids@[q]@,
        decreases ids@.len() - i,
    {
        let ghost prev = r@;
        match crate::service::find_service(services, ids[i].as_str()) {
            Some(j) => {
                assert(processes.key_order().contains(ids@[i as int]@)) by {
                    assert(processes.key_order()[i as int] == ids@[i as int]@);
                }
                assert forall|p: int| 0 <= p < prev.len() implies prev[p] != j by {
                    let q = choose|q: int|
                        0 <= q < i && services@[(#[trigger] prev[p]) as int].id@ == ids@[q]@;
                    assert(processes.key_order()[q] != processes.key_order()[i as int]);
                }
                r.push(j);
                assert(services@[r@[r@.len() - 1] as int].id@ == ids@[i as int]@);
                assert forall|p: int| 0 <= p < r@.len() implies exists|q: int|
                    0 <= q < i + 1 && services@[(#[trigger] r@[p]) as int].id@ == ids@[q]@ by {
                    if p < prev.len() {
                        let q = choose|q: int|
                            0 <= q < i && services@[(#[trigger] prev[p]) as int].id@ == ids@[q]@;
                        assert(r@[p] == prev[p]);
                    } else {
                        assert(services@[r@[p] as int].id@ == ids@[i as int]@);
                    }
                }
            },
            None => {},
        }
        assert forall|q: int|
            0 <= q < i + 1 && crate::service::configured(services@, ids@[q]@) implies exists|p: int|
            0 <= p < r@.len() && services@[(#[trigger] r@[p]) as int].id@ == ids@[q]@ by {
            if q < i {
                let p = choose|p: int|
                    0 <= p < prev.len() && services@[(#[trigger] prev[p]) as int].id@ == ids@[q]@;
                assert(r@[p] == prev[p]);
            } else {
                assert(r@[r@.len() - 1] == r@[r@.len() - 1]);
            }
        }
        i = i + 1;
    }
    assert forall|k: Seq<char>|
        processes@.contains_key(k) && crate::service::configured(services@, k) implies exists|p: int|
        0 <= p < r@.len() && services@[(#[trigger] r@[p]) as int].id@ == k by {
        assert(processes.key_order().contains(k));
        let q = choose|q: int| 0 <= q < processes.key_order().len() && processes.key_order()[q] == k;
        assert(ids@[q]@ == k);
    }
    r
}


/// The text of a process error.
pub open spec fn process_error_text(e: ProcessError) -> Seq<char> {
    match e {
        ProcessError::AlreadyRunning { id } => "service '"@ + id@ + "' is already running"@,
        ProcessError::CommandMissing => "process command is missing"@,
        ProcessError::NotRunning { id } => "service '"@ + id@ + "' is not running"@,
        ProcessError::StdinNotRetained { id } => "service '"@ + id@ + "' does not retain stdin"@,
    }
}

/// Checks that input can be written to the process of `service_id`, given
/// whether it has a process and, if so, whether its stdin is open: it must
/// run, and have kept its stdin.
pub fn check_stdin(service_id: &str, stdin_open: Option<bool>) -> (r: Result<(), ProcessError>)
    ensures
        match stdin_open {
            None => r matches Err(ProcessError::NotRunning { id }) && id@ == service_id@,
            Some(false) => r matches Err(ProcessError::StdinNotRetained { id }) && id@
                == service_id@,
            Some(true) => r is Ok,
        },
{
    match stdin_open {
        None => Err(ProcessError::NotRunning { id: String::from_str(service_id) }),
        Some(false) => Err(ProcessError::StdinNotRetained { id: String::from_str(service_id) }),
        Some(true) => Ok(()),
    }
}

impl ProcessError {
    /// The message shown for this error.
    pub fn message(&self) -> (r: String)
        ensures
            r@ == process_error_text(*self),
    {
        match self {
            ProcessError::AlreadyRunning { id } => concat3(
                "service '",
                id.as_str(),
                "' is already running",
            ),
            ProcessError::CommandMissing => String::from_str("process command is missing"),
            ProcessError::NotRunning { id } => concat3("service '", id.as_str(), "' is not running"),
            ProcessError::StdinNotRetained { id } => concat3(
                "service '",
                id.as_str(),
                "' does not retain stdin",
            ),
        }
    }
}

} // verus!
